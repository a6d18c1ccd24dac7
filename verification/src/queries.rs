//! The three typed queries over the polling protocol: point-code
//! suggestions, the timetable, and the carriages of one train. Each builds
//! its endpoint-specific parameters and decodes a ready payload into its
//! typed shape; a payload that does not decode is a decode error, distinct
//! from transport or upstream failures.

use vstd::prelude::*;
use vstd::string::StringExecFns;

use crate::errors::Failure;
use crate::json::{doc_of, json_parse};
use crate::protocol::SubmitOutcome;
use crate::rzd::{
    carriages_doc_spec, decode_carriages, decode_points, decode_trains, lst_views,
    point_views, points_doc_spec, tp_views, trains_doc_spec, GetRZDPointCodes,
    GetRZDTrainsCarriagesResponse, GetRZDTrainsResponse,
};

verus! {

fn pair(key: &str, value: &str) -> (r: (String, String))
    ensures
        r.0@ == key@,
        r.1@ == value@,
{
    (String::from_str(key), String::from_str(value))
}

/// The suggestion endpoint's query parameters for a free-text point name.
pub fn point_query_params(query: &str) -> (r: Vec<(String, String)>)
    ensures
        r@.len() == 6,
        r@[0].0@ == "GroupResults"@ && r@[0].1@ == "true"@,
        r@[1].0@ == "RailwaySortPriority"@ && r@[1].1@ == "true"@,
        r@[2].0@ == "MergeSuburban"@ && r@[2].1@ == "true"@,
        r@[3].0@ == "Query"@ && r@[3].1@ == query@,
        r@[4].0@ == "Language"@ && r@[4].1@ == "ru"@,
        r@[5].0@ == "TransportType"@ && r@[5].1@ == "rail"@,
{
    let mut r: Vec<(String, String)> = Vec::new();
    r.push(pair("GroupResults", "true"));
    r.push(pair("RailwaySortPriority", "true"));
    r.push(pair("MergeSuburban", "true"));
    r.push(pair("Query", query));
    r.push(pair("Language", "ru"));
    r.push(pair("TransportType", "rail"));
    r
}

/// The timetable endpoint's query parameters for one route and date.
pub fn schedule_query_params(origin: &str, destination: &str, date: &str) -> (r: Vec<
    (String, String),
>)
    ensures
        r@.len() == 8,
        r@[0].0@ == "layer_id"@ && r@[0].1@ == "5827"@,
        r@[1].0@ == "dir"@ && r@[1].1@ == "0"@,
        r@[2].0@ == "tfl"@ && r@[2].1@ == "1"@,
        r@[3].0@ == "checkSeats"@ && r@[3].1@ == "1"@,
        r@[4].0@ == "code0"@ && r@[4].1@ == origin@,
        r@[5].0@ == "code1"@ && r@[5].1@ == destination@,
        r@[6].0@ == "dt0"@ && r@[6].1@ == date@,
        r@[7].0@ == "md"@ && r@[7].1@ == "0"@,
{
    let mut r: Vec<(String, String)> = Vec::new();
    r.push(pair("layer_id", "5827"));
    r.push(pair("dir", "0"));
    r.push(pair("tfl", "1"));
    r.push(pair("checkSeats", "1"));
    r.push(pair("code0", origin));
    r.push(pair("code1", destination));
    r.push(pair("dt0", date));
    r.push(pair("md", "0"));
    r
}

/// The carriage endpoint's query parameters for one train on one day.
pub fn carriage_query_params(
    origin: &str,
    destination: &str,
    date: &str,
    time: &str,
    train_number: &str,
) -> (r: Vec<(String, String)>)
    ensures
        r@.len() == 7,
        r@[0].0@ == "layer_id"@ && r@[0].1@ == "5764"@,
        r@[1].0@ == "dir"@ && r@[1].1@ == "0"@,
        r@[2].0@ == "code0"@ && r@[2].1@ == origin@,
        r@[3].0@ == "code1"@ && r@[3].1@ == destination@,
        r@[4].0@ == "dt0"@ && r@[4].1@ == date@,
        r@[5].0@ == "time0"@ && r@[5].1@ == time@,
        r@[6].0@ == "tnum0"@ && r@[6].1@ == train_number@,
{
    let mut r: Vec<(String, String)> = Vec::new();
    r.push(pair("layer_id", "5764"));
    r.push(pair("dir", "0"));
    r.push(pair("code0", origin));
    r.push(pair("code1", destination));
    r.push(pair("dt0", date));
    r.push(pair("time0", time));
    r.push(pair("tnum0", train_number));
    r
}

/// The form body that polls a job on the timetable endpoint.
pub fn poll_body(rid: &str) -> (r: String)
    ensures
        r@ == "rid="@ + rid@,
{
    String::from_str("rid=").concat(rid)
}

/// The form body that polls a job on the carriage endpoint, which wants
/// the full parameter set repeated.
pub fn carriage_poll_body(
    rid: &str,
    origin: &str,
    destination: &str,
    date: &str,
    time: &str,
    train_number: &str,
) -> (r: String)
    ensures
        r@ == "rid="@ + rid@ + "&layer_id=5764&dir=0&code0="@ + origin@ + "&code1="@
            + destination@ + "&dt0="@ + date@ + "&time0="@ + time@ + "&tnum0="@ + train_number@,
{
    let mut r = String::from_str("rid=");
    r.append(rid);
    r.append("&layer_id=5764&dir=0&code0=");
    r.append(origin);
    r.append("&code1=");
    r.append(destination);
    r.append("&dt0=");
    r.append(date);
    r.append("&time0=");
    r.append(time);
    r.append("&tnum0=");
    r.append(train_number);
    r
}

/// Turns a finished suggestion submission into point candidates. A failed
/// submission keeps its failure. A ready payload succeeds exactly when it
/// parses as a document whose city list reads, and then the candidates are
/// that list's codes and names, in order; anything else is a decode error.
pub fn decode_points_outcome(outcome: SubmitOutcome) -> (r: Result<Vec<GetRZDPointCodes>, Failure>)
    ensures
        (outcome matches SubmitOutcome::Failed { failure } ==> r == Err::<
            Vec<GetRZDPointCodes>,
            Failure,
        >(failure)),
        outcome matches SubmitOutcome::Ready { payload } ==> (match doc_of(payload@) {
            Some(doc) => match points_doc_spec(doc) {
                Some(items) => r matches Ok(out) && point_views(out@) == items,
                None => r matches Err(f) && f matches Failure::Decode { .. },
            },
            None => r matches Err(f) && f matches Failure::Decode { .. },
        }),
{
    let payload = match outcome {
        SubmitOutcome::Failed { failure } => {
            return Err(failure);
        },
        SubmitOutcome::Ready { payload } => payload,
    };
    let doc = match json_parse(payload.as_str()) {
        Ok(v) => v,
        Err(detail) => {
            return Err(Failure::Decode { detail });
        },
    };
    match decode_points(&doc) {
        Some(list) => Ok(list),
        None => Err(decode_failure()),
    }
}

/// Turns a finished timetable submission into the typed listing, as
/// `decode_points_outcome` does for suggestions: success exactly when the
/// payload parses and its whole shape reads, with the document's values.
pub fn decode_trains_outcome(outcome: SubmitOutcome) -> (r: Result<GetRZDTrainsResponse, Failure>)
    ensures
        (outcome matches SubmitOutcome::Failed { failure } ==> r == Err::<
            GetRZDTrainsResponse,
            Failure,
        >(failure)),
        outcome matches SubmitOutcome::Ready { payload } ==> (match doc_of(payload@) {
            Some(doc) => match trains_doc_spec(doc) {
                Some(items) => r matches Ok(resp) && tp_views(resp.tp@) == items,
                None => r matches Err(f) && f matches Failure::Decode { .. },
            },
            None => r matches Err(f) && f matches Failure::Decode { .. },
        }),
{
    let payload = match outcome {
        SubmitOutcome::Failed { failure } => {
            return Err(failure);
        },
        SubmitOutcome::Ready { payload } => payload,
    };
    let doc = match json_parse(payload.as_str()) {
        Ok(v) => v,
        Err(detail) => {
            return Err(Failure::Decode { detail });
        },
    };
    match decode_trains(&doc) {
        Some(resp) => Ok(resp),
        None => Err(decode_failure()),
    }
}

/// Turns a finished carriage submission into the typed car lists, as
/// `decode_points_outcome` does for suggestions: success exactly when the
/// payload parses and its whole shape reads, every car's tokens being the
/// raw comma-joined field split in order.
pub fn decode_carriages_outcome(outcome: SubmitOutcome) -> (r: Result<
    GetRZDTrainsCarriagesResponse,
    Failure,
>)
    ensures
        (outcome matches SubmitOutcome::Failed { failure } ==> r == Err::<
            GetRZDTrainsCarriagesResponse,
            Failure,
        >(failure)),
        outcome matches SubmitOutcome::Ready { payload } ==> (match doc_of(payload@) {
            Some(doc) => match carriages_doc_spec(doc) {
                Some(items) => r matches Ok(resp) && lst_views(resp.lst@) == items,
                None => r matches Err(f) && f matches Failure::Decode { .. },
            },
            None => r matches Err(f) && f matches Failure::Decode { .. },
        }),
{
    let payload = match outcome {
        SubmitOutcome::Failed { failure } => {
            return Err(failure);
        },
        SubmitOutcome::Ready { payload } => payload,
    };
    let doc = match json_parse(payload.as_str()) {
        Ok(v) => v,
        Err(detail) => {
            return Err(Failure::Decode { detail });
        },
    };
    match decode_carriages(&doc) {
        Some(resp) => Ok(resp),
        None => Err(decode_failure()),
    }
}

fn decode_failure() -> (r: Failure)
    ensures
        r matches Failure::Decode { .. },
{
    Failure::Decode { detail: String::from_str("payload of unexpected shape") }
}

} // verus!
