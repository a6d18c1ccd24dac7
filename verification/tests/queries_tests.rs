use rzd_coupe::errors::{ErrorKind, Failure};
use rzd_coupe::protocol::{classify_response, run_submit, RawResponse, SubmitOutcome};
use rzd_coupe::queries::{
    carriage_poll_body, carriage_query_params, decode_carriages_outcome, decode_points_outcome,
    decode_trains_outcome, point_query_params, poll_body, schedule_query_params,
};
use rzd_coupe::rzd::{decode_points, decode_trains, is_compartment_type};

fn ready(body: &str) -> SubmitOutcome {
    SubmitOutcome::Ready { payload: body.to_string() }
}

#[test]
fn suggestion_parameters_embed_the_query() {
    let params = point_query_params("Moscow");
    let expected = vec![
        ("GroupResults", "true"),
        ("RailwaySortPriority", "true"),
        ("MergeSuburban", "true"),
        ("Query", "Moscow"),
        ("Language", "ru"),
        ("TransportType", "rail"),
    ];
    assert_eq!(params.len(), expected.len());
    for (got, want) in params.iter().zip(expected.iter()) {
        assert_eq!(got.0, want.0);
        assert_eq!(got.1, want.1);
    }
}

#[test]
fn schedule_parameters_embed_the_route_and_date() {
    let params = schedule_query_params("2000000", "2004000", "01.02.2031");
    assert_eq!(params[0], ("layer_id".to_string(), "5827".to_string()));
    assert_eq!(params[4], ("code0".to_string(), "2000000".to_string()));
    assert_eq!(params[5], ("code1".to_string(), "2004000".to_string()));
    assert_eq!(params[6], ("dt0".to_string(), "01.02.2031".to_string()));
}

#[test]
fn carriage_parameters_embed_the_train() {
    let params = carriage_query_params("2000000", "2004000", "01.02.2031", "10:05", "001A");
    assert_eq!(params[0], ("layer_id".to_string(), "5764".to_string()));
    assert_eq!(params[5], ("time0".to_string(), "10:05".to_string()));
    assert_eq!(params[6], ("tnum0".to_string(), "001A".to_string()));
}

#[test]
fn poll_bodies_carry_the_job_id() {
    assert_eq!(poll_body("90144"), "rid=90144");
    assert_eq!(
        carriage_poll_body("90144", "2000000", "2004000", "01.02.2031", "10:05", "001A"),
        "rid=90144&layer_id=5764&dir=0&code0=2000000&code1=2004000&dt0=01.02.2031&time0=10:05&tnum0=001A"
    );
}

#[test]
fn a_city_payload_decodes_to_candidates() {
    let body = "{\"city\":[{\"expressCode\":\"2000000\",\"name\":\"MOSKVA\"},\
                {\"expressCode\":\"2004000\",\"name\":\"MOSKVA OKT\"}]}";
    let points = match decode_points_outcome(ready(body)) {
        Ok(points) => points,
        Err(e) => panic!("expected a decode, got {:?}", e),
    };
    assert_eq!(points.len(), 2);
    assert_eq!(points[0].code, "2000000");
    assert_eq!(points[0].name, "MOSKVA");
    assert_eq!(points[1].code, "2004000");
}

#[test]
fn a_timetable_payload_decodes_to_listings() {
    let body = "{\"tp\":[{\"list\":[{\"number\":\"001A\",\"date0\":\"01.02.2031\",\
                \"time0\":\"10:05\",\"cars\":[{\"type\":\"\u{041a}\u{0443}\u{043f}\u{0435}\",\
                \"freeSeats\":7},{\"type\":\"\u{041a}\u{0443}\u{043f}\u{0435}\",\
                \"disabledPerson\":true,\"freeSeats\":3}]}]}]}";
    let resp = decode_trains_outcome(ready(body)).expect("a decode");
    assert_eq!(resp.tp.len(), 1);
    let t = &resp.tp[0].list[0];
    assert_eq!(t.number, "001A");
    assert_eq!(t.cars.len(), 2);
    assert!(!t.cars[0].disabled_person);
    assert_eq!(t.cars[0].free_seats, 7);
    assert!(t.cars[1].disabled_person);
}

#[test]
fn a_carriage_payload_decodes_and_splits_the_places() {
    let body = "{\"lst\":[{\"cars\":[{\"places\":\"1-4,21\u{0410}-28\",\"cnumber\":\"07\",\
                \"type\":\"\u{041a}\u{0443}\u{043f}\u{0435}\"}]}]}";
    let resp = decode_carriages_outcome(ready(body)).expect("a decode");
    let car = &resp.lst[0].cars[0];
    assert_eq!(car.places, vec!["1-4", "21\u{0410}-28"]);
    assert_eq!(car.cnumber, "07");
}

#[test]
fn a_payload_of_the_wrong_shape_is_a_decode_error() {
    for body in ["{\"city\":7}", "{\"lst\":[]} extra", "{}", "{\"tp\":[{\"list\":[{}]}]}"] {
        let r = decode_trains_outcome(ready(body));
        match r {
            Err(f) => assert_eq!(f.kind(), ErrorKind::DecodeError, "body {:?}", body),
            Ok(_) => panic!("body {:?} should not decode", body),
        }
    }
}

// The whole suggestion query: two blocked answers, then the payload —
// ready after exactly two rotations, decoded to exactly the offered
// candidate.
#[test]
fn blocked_twice_then_city_payload_decodes() {
    let body = "{\"city\":[{\"expressCode\":\"2000000\",\
                \"name\":\"\u{041c}\u{041e}\u{0421}\u{041a}\u{0412}\u{0410}\"}]}";
    let classes = vec![
        classify_response(RawResponse::Http { status: 403, body: String::new() }),
        classify_response(RawResponse::Http { status: 403, body: String::new() }),
        classify_response(RawResponse::Http { status: 200, body: body.to_string() }),
    ];
    let (outcome, rotations) = run_submit(classes, 5);
    assert_eq!(rotations, 2);
    let points = decode_points_outcome(outcome.expect("a finished submission"))
        .expect("a decoded payload");
    assert_eq!(points.len(), 1);
    assert_eq!(points[0].code, "2000000");
    assert_eq!(points[0].name, "\u{041c}\u{041e}\u{0421}\u{041a}\u{0412}\u{0410}");
}

#[test]
fn a_failed_submission_keeps_its_failure() {
    let outcome = SubmitOutcome::Failed { failure: Failure::PollBudgetExhausted };
    match decode_points_outcome(outcome) {
        Err(Failure::PollBudgetExhausted) => {}
        _ => panic!("expected the original failure"),
    }
}

#[test]
fn missing_fields_fail_the_whole_decode() {
    let body = "{\"city\":[{\"expressCode\":\"2000000\"}]}";
    let v: serde_json::Value = serde_json::from_str(body).unwrap();
    assert!(decode_points(&v).is_none());
    let v: serde_json::Value = serde_json::from_str("{\"tp\":[{}]}").unwrap();
    assert!(decode_trains(&v).is_none());
}

#[test]
fn compartment_class_check_folds_case() {
    assert!(is_compartment_type("\u{043a}\u{0443}\u{043f}\u{0435}"));
    assert!(is_compartment_type("\u{041a}\u{0423}\u{041f}\u{0415}"));
    assert!(is_compartment_type("\u{041a}\u{0443}\u{043f}\u{0435}"));
    assert!(!is_compartment_type("\u{043f}\u{043b}\u{0430}\u{0446}\u{043a}\u{0430}\u{0440}\u{0442}"));
    assert!(!is_compartment_type(""));
}
