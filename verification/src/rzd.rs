//! The typed shapes of upstream answers — point-code suggestions, train
//! listings with per-car seat counts, and per-car seat-range strings — and
//! the decoders that read them out of a generic JSON document. Decoding is
//! verified structure-walking over the trusted accessors of [`crate::json`];
//! a missing or mistyped field makes the whole decode fail, which callers
//! surface as a decode error, distinct from transport failures.

use vstd::prelude::*;
use vstd::string::StringExecFns;

use crate::json::{
    array_field_of, bool_of, field_of, json_as_array, json_as_bool, json_as_string, json_as_u64,
    json_get, str_field_of, u64_field_of,
};
use crate::text::split_spec;
use crate::text::split_str;
use crate::text::str_eq;

verus! {

/// One candidate station: its routing code and its display name. The code,
/// never the name, is what later queries embed.
#[derive(Debug, PartialEq, Eq)]
pub struct GetRZDPointCodes {
    pub code: String,
    pub name: String,
}

/// One car in a train listing: its class, whether it is the accessibility
/// car, and how many seats are free.
#[derive(Debug, PartialEq, Eq)]
pub struct GetRZDTrainsCars {
    pub _type: String,
    pub disabled_person: bool,
    pub free_seats: usize,
}

/// One train in a listing: its number, departure date and time, and its
/// cars.
#[derive(Debug, PartialEq, Eq)]
pub struct GetRZDTrains {
    pub cars: Vec<GetRZDTrainsCars>,
    pub number: String,
    pub date0: String,
    pub time0: String,
}

#[derive(Debug, PartialEq, Eq)]
pub struct GetRZDTrainsListResponse {
    pub list: Vec<GetRZDTrains>,
}

/// The timetable answer: one listing per route variant.
#[derive(Debug, PartialEq, Eq)]
pub struct GetRZDTrainsResponse {
    pub tp: Vec<GetRZDTrainsListResponse>,
}

/// One car in a carriage answer: its raw seat-range tokens, its number,
/// and its class.
#[derive(Debug, PartialEq, Eq)]
pub struct GetRZDTrainsCarriagesCars {
    pub places: Vec<String>,
    pub cnumber: String,
    pub _type: String,
}

#[derive(Debug, PartialEq, Eq)]
pub struct GetRZDTrainsCarriagesListResponse {
    pub cars: Vec<GetRZDTrainsCarriagesCars>,
}

/// The carriage answer: one car list per route variant.
#[derive(Debug, PartialEq, Eq)]
pub struct GetRZDTrainsCarriagesResponse {
    pub lst: Vec<GetRZDTrainsCarriagesListResponse>,
}

impl Clone for GetRZDPointCodes {
    fn clone(&self) -> (r: Self)
        ensures
            r == *self,
    {
        GetRZDPointCodes { code: self.code.clone(), name: self.name.clone() }
    }
}

impl Clone for GetRZDTrainsCars {
    fn clone(&self) -> (r: Self)
        ensures
            r == *self,
    {
        GetRZDTrainsCars {
            _type: self._type.clone(),
            disabled_person: self.disabled_person,
            free_seats: self.free_seats,
        }
    }
}

/// What a string folds to, case-wise. Relied on through `lowercase` below;
/// the fold depends on the characters alone.
pub uninterp spec fn lower_of(s: Seq<char>) -> Seq<char>;

/// Relies on `str::to_lowercase`: the lowercase form of `s`, a function of
/// the characters of `s` alone.
#[verifier::external_body]
fn lowercase(s: &str) -> (r: String)
    ensures
        r@ == lower_of(s@),
{
    s.to_lowercase()
}

/// The target closed-compartment class: a car whose class name folds to
/// the carrier's compartment-class word.
pub open spec fn is_compartment_type_spec(t: Seq<char>) -> bool {
    lower_of(t) == "купе"@
}

/// Whether a car class names the closed-compartment class, compared
/// case-insensitively.
pub fn is_compartment_type(t: &str) -> (r: bool)
    ensures
        r == is_compartment_type_spec(t@),
{
    let low = lowercase(t);
    str_eq(low.as_str(), "купе")
}

/// A listing car that counts towards the compartment-seat total: it has
/// the compartment class and is not the accessibility car.
pub open spec fn is_compartment_car_spec(c: GetRZDTrainsCars) -> bool {
    is_compartment_type_spec(c._type@) && !c.disabled_person
}

pub fn is_compartment_car(c: &GetRZDTrainsCars) -> (r: bool)
    ensures
        r == is_compartment_car_spec(*c),
{
    !c.disabled_person && is_compartment_type(c._type.as_str())
}

/// Addition that stops at the top of `u64` instead of wrapping.
pub open spec fn sat_add64(a: u64, b: u64) -> u64 {
    if a + b > u64::MAX {
        u64::MAX
    } else {
        (a + b) as u64
    }
}

/// The free compartment seats of a car list, summed with saturation. The
/// total is zero exactly when no compartment car has a free seat.
pub open spec fn compartment_seats_spec(cars: Seq<GetRZDTrainsCars>) -> u64
    decreases cars.len(),
{
    if cars.len() == 0 {
        0u64
    } else {
        sat_add64(
            compartment_seats_spec(cars.drop_last()),
            if is_compartment_car_spec(cars.last()) {
                cars.last().free_seats as u64
            } else {
                0u64
            },
        )
    }
}

/// Sums the free seats of the compartment cars of one listing.
pub fn count_compartment_seats(cars: &Vec<GetRZDTrainsCars>) -> (r: u64)
    ensures
        r == compartment_seats_spec(cars@),
{
    let mut total: u64 = 0;
    let mut i: usize = 0;
    while i < cars.len()
        invariant
            i <= cars@.len(),
            total == compartment_seats_spec(cars@.subrange(0, i as int)),
        decreases cars@.len() - i,
    {
        let ghost pre = cars@.subrange(0, i as int);
        let ghost ext = cars@.subrange(0, i as int + 1);
        proof {
            assert(ext.drop_last() =~= pre);
            assert(ext.last() == cars@[i as int]);
        }
        let car = &cars[i];
        let add = if is_compartment_car(car) {
            car.free_seats as u64
        } else {
            0u64
        };
        if total > u64::MAX - add {
            total = u64::MAX;
        } else {
            total = total + add;
        }
        i = i + 1;
    }
    proof {
        assert(cars@.subrange(0, cars@.len() as int) =~= cars@);
    }
    total
}


fn field_string(v: &serde_json::Value, key: &str) -> (r: Option<String>)
    ensures
        match r {
            Some(s) => str_field_of(*v, key@) == Some(s@),
            None => str_field_of(*v, key@) is None,
        },
{
    match json_get(v, key) {
        Some(f) => json_as_string(f),
        None => None,
    }
}

fn field_u64(v: &serde_json::Value, key: &str) -> (r: Option<u64>)
    ensures
        r == u64_field_of(*v, key@),
{
    match json_get(v, key) {
        Some(f) => json_as_u64(f),
        None => None,
    }
}

fn field_array(v: &serde_json::Value, key: &str) -> (r: Option<Vec<serde_json::Value>>)
    ensures
        match r {
            Some(a) => array_field_of(*v, key@) == Some(a@),
            None => array_field_of(*v, key@) is None,
        },
{
    match json_get(v, key) {
        Some(f) => json_as_array(f),
        None => None,
    }
}

/// One candidate as its views: the code and the name read from the
/// document.
pub open spec fn point_item_spec(v: serde_json::Value) -> Option<(Seq<char>, Seq<char>)> {
    match (str_field_of(v, "expressCode"@), str_field_of(v, "name"@)) {
        (Some(code), Some(name)) => Some((code, name)),
        _ => None,
    }
}

/// All candidates of the array, in order; `None` as soon as one element
/// does not read.
pub open spec fn point_items_spec(items: Seq<serde_json::Value>) -> Option<
    Seq<(Seq<char>, Seq<char>)>,
>
    decreases items.len(),
{
    if items.len() == 0 {
        Some(Seq::<(Seq<char>, Seq<char>)>::empty())
    } else {
        match (point_items_spec(items.drop_last()), point_item_spec(items.last())) {
            (Some(pre), Some(x)) => Some(pre.push(x)),
            _ => None,
        }
    }
}

proof fn lemma_point_items_none(items: Seq<serde_json::Value>, i: int)
    requires
        0 <= i < items.len(),
        point_item_spec(items[i]) is None,
    ensures
        point_items_spec(items) is None,
    decreases items.len(),
{
    if i < items.len() - 1 {
        assert(items.drop_last()[i] == items[i]);
        lemma_point_items_none(items.drop_last(), i);
    }
}

/// What the suggestion payload holds: the array under `"city"`, each
/// element read as a candidate.
pub open spec fn points_doc_spec(doc: serde_json::Value) -> Option<Seq<(Seq<char>, Seq<char>)>> {
    match array_field_of(doc, "city"@) {
        Some(items) => point_items_spec(items),
        None => None,
    }
}

/// The views of decoded candidates, in order.
pub open spec fn point_views(ps: Seq<GetRZDPointCodes>) -> Seq<(Seq<char>, Seq<char>)> {
    ps.map_values(|p: GetRZDPointCodes| (p.code@, p.name@))
}

/// Decodes the suggestion payload: the array under `"city"`, each element
/// an object with an `"expressCode"` and a `"name"` string. Succeeds
/// exactly when every element reads, and then returns the candidates with
/// those exact codes and names, in the document's order.
pub fn decode_points(v: &serde_json::Value) -> (r: Option<Vec<GetRZDPointCodes>>)
    ensures
        match r {
            Some(out) => points_doc_spec(*v) == Some(point_views(out@)),
            None => points_doc_spec(*v) is None,
        },
{
    let items = match field_array(v, "city") {
        Some(a) => a,
        None => {
            return None;
        },
    };
    let mut out: Vec<GetRZDPointCodes> = Vec::new();
    let mut i: usize = 0;
    proof {
        assert(items@.subrange(0, 0) =~= Seq::<serde_json::Value>::empty());
        assert(point_views(out@) =~= Seq::<(Seq<char>, Seq<char>)>::empty());
    }
    while i < items.len()
        invariant
            i <= items@.len(),
            array_field_of(*v, "city"@) == Some(items@),
            point_items_spec(items@.subrange(0, i as int)) == Some(point_views(out@)),
        decreases items@.len() - i,
    {
        let ghost pre = items@.subrange(0, i as int);
        let ghost ext = items@.subrange(0, i as int + 1);
        proof {
            assert(ext.drop_last() =~= pre);
            assert(ext.last() == items@[i as int]);
        }
        let item = &items[i];
        let code = match field_string(item, "expressCode") {
            Some(s) => s,
            None => {
                proof {
                    lemma_point_items_none(items@, i as int);
                }
                return None;
            },
        };
        let name = match field_string(item, "name") {
            Some(s) => s,
            None => {
                proof {
                    lemma_point_items_none(items@, i as int);
                }
                return None;
            },
        };
        let ghost views = point_views(out@);
        let ghost x = (code@, name@);
        out.push(GetRZDPointCodes { code, name });
        proof {
            assert(point_views(out@) =~= views.push(x));
        }
        i = i + 1;
    }
    proof {
        assert(items@.subrange(0, items@.len() as int) =~= items@);
    }
    Some(out)
}

/// One listing car as its views: class, accessibility flag (absent reads
/// as false) and free-seat count. A count beyond the machine's word does
/// not read.
pub open spec fn train_car_spec(v: serde_json::Value) -> Option<(Seq<char>, bool, u64)> {
    match str_field_of(v, "type"@) {
        Some(t) => {
            let disabled = match field_of(v, "disabledPerson"@) {
                Some(dv) => bool_of(dv),
                None => Some(false),
            };
            match disabled {
                Some(d) => match u64_field_of(v, "freeSeats"@) {
                    Some(n) => {
                        if n <= usize::MAX as u64 {
                            Some((t, d, n))
                        } else {
                            None
                        }
                    },
                    None => None,
                },
                None => None,
            }
        },
        None => None,
    }
}

pub open spec fn train_car_items_spec(items: Seq<serde_json::Value>) -> Option<
    Seq<(Seq<char>, bool, u64)>,
>
    decreases items.len(),
{
    if items.len() == 0 {
        Some(Seq::<(Seq<char>, bool, u64)>::empty())
    } else {
        match (train_car_items_spec(items.drop_last()), train_car_spec(items.last())) {
            (Some(pre), Some(x)) => Some(pre.push(x)),
            _ => None,
        }
    }
}

proof fn lemma_train_car_items_none(items: Seq<serde_json::Value>, i: int)
    requires
        0 <= i < items.len(),
        train_car_spec(items[i]) is None,
    ensures
        train_car_items_spec(items) is None,
    decreases items.len(),
{
    if i < items.len() - 1 {
        assert(items.drop_last()[i] == items[i]);
        lemma_train_car_items_none(items.drop_last(), i);
    }
}

pub open spec fn car_views(cs: Seq<GetRZDTrainsCars>) -> Seq<(Seq<char>, bool, u64)> {
    cs.map_values(|c: GetRZDTrainsCars| (c._type@, c.disabled_person, c.free_seats as u64))
}

/// One listing as its views: its cars (all of which must read), number,
/// date and time.
pub open spec fn train_item_spec(v: serde_json::Value) -> Option<
    (Seq<(Seq<char>, bool, u64)>, Seq<char>, Seq<char>, Seq<char>),
> {
    let cars = match array_field_of(v, "cars"@) {
        Some(items) => train_car_items_spec(items),
        None => None,
    };
    match cars {
        Some(cs) => match (str_field_of(v, "number"@), str_field_of(v, "date0"@), str_field_of(
            v,
            "time0"@,
        )) {
            (Some(num), Some(d0), Some(t0)) => Some((cs, num, d0, t0)),
            _ => None,
        },
        None => None,
    }
}

pub open spec fn train_items_spec(items: Seq<serde_json::Value>) -> Option<
    Seq<(Seq<(Seq<char>, bool, u64)>, Seq<char>, Seq<char>, Seq<char>)>,
>
    decreases items.len(),
{
    if items.len() == 0 {
        Some(Seq::<(Seq<(Seq<char>, bool, u64)>, Seq<char>, Seq<char>, Seq<char>)>::empty())
    } else {
        match (train_items_spec(items.drop_last()), train_item_spec(items.last())) {
            (Some(pre), Some(x)) => Some(pre.push(x)),
            _ => None,
        }
    }
}

proof fn lemma_train_items_none(items: Seq<serde_json::Value>, i: int)
    requires
        0 <= i < items.len(),
        train_item_spec(items[i]) is None,
    ensures
        train_items_spec(items) is None,
    decreases items.len(),
{
    if i < items.len() - 1 {
        assert(items.drop_last()[i] == items[i]);
        lemma_train_items_none(items.drop_last(), i);
    }
}

pub open spec fn train_views(ts: Seq<GetRZDTrains>) -> Seq<
    (Seq<(Seq<char>, bool, u64)>, Seq<char>, Seq<char>, Seq<char>),
> {
    ts.map_values(|t: GetRZDTrains| (car_views(t.cars@), t.number@, t.date0@, t.time0@))
}

/// One route variant as its views: the listings under `"list"`.
pub open spec fn tp_item_spec(v: serde_json::Value) -> Option<
    Seq<(Seq<(Seq<char>, bool, u64)>, Seq<char>, Seq<char>, Seq<char>)>,
> {
    match array_field_of(v, "list"@) {
        Some(items) => train_items_spec(items),
        None => None,
    }
}

pub open spec fn tp_items_spec(items: Seq<serde_json::Value>) -> Option<
    Seq<Seq<(Seq<(Seq<char>, bool, u64)>, Seq<char>, Seq<char>, Seq<char>)>>,
>
    decreases items.len(),
{
    if items.len() == 0 {
        Some(Seq::<Seq<(Seq<(Seq<char>, bool, u64)>, Seq<char>, Seq<char>, Seq<char>)>>::empty())
    } else {
        match (tp_items_spec(items.drop_last()), tp_item_spec(items.last())) {
            (Some(pre), Some(x)) => Some(pre.push(x)),
            _ => None,
        }
    }
}

proof fn lemma_tp_items_none(items: Seq<serde_json::Value>, i: int)
    requires
        0 <= i < items.len(),
        tp_item_spec(items[i]) is None,
    ensures
        tp_items_spec(items) is None,
    decreases items.len(),
{
    if i < items.len() - 1 {
        assert(items.drop_last()[i] == items[i]);
        lemma_tp_items_none(items.drop_last(), i);
    }
}

/// What the timetable payload holds: the array under `"tp"`, each element
/// a route variant.
pub open spec fn trains_doc_spec(doc: serde_json::Value) -> Option<
    Seq<Seq<(Seq<(Seq<char>, bool, u64)>, Seq<char>, Seq<char>, Seq<char>)>>,
> {
    match array_field_of(doc, "tp"@) {
        Some(items) => tp_items_spec(items),
        None => None,
    }
}

pub open spec fn tp_views(tps: Seq<GetRZDTrainsListResponse>) -> Seq<
    Seq<(Seq<(Seq<char>, bool, u64)>, Seq<char>, Seq<char>, Seq<char>)>,
> {
    tps.map_values(|e: GetRZDTrainsListResponse| train_views(e.list@))
}

fn decode_train_car(v: &serde_json::Value) -> (r: Option<GetRZDTrainsCars>)
    ensures
        match r {
            Some(c) => train_car_spec(*v) == Some(
                (c._type@, c.disabled_person, c.free_seats as u64),
            ),
            None => train_car_spec(*v) is None,
        },
{
    let car_type = match field_string(v, "type") {
        Some(s) => s,
        None => {
            return None;
        },
    };
    // The accessibility flag may be absent; absent means false.
    let disabled_person = match json_get(v, "disabledPerson") {
        Some(f) => match json_as_bool(f) {
            Some(b) => b,
            None => {
                return None;
            },
        },
        None => false,
    };
    let free_seats = match field_u64(v, "freeSeats") {
        Some(n) => {
            if n > usize::MAX as u64 {
                return None;
            }
            n as usize
        },
        None => {
            return None;
        },
    };
    Some(GetRZDTrainsCars { _type: car_type, disabled_person, free_seats })
}

fn decode_train(v: &serde_json::Value) -> (r: Option<GetRZDTrains>)
    ensures
        match r {
            Some(t) => train_item_spec(*v) == Some(
                (car_views(t.cars@), t.number@, t.date0@, t.time0@),
            ),
            None => train_item_spec(*v) is None,
        },
{
    let raw_cars = match field_array(v, "cars") {
        Some(a) => a,
        None => {
            return None;
        },
    };
    let mut cars: Vec<GetRZDTrainsCars> = Vec::new();
    let mut i: usize = 0;
    proof {
        assert(raw_cars@.subrange(0, 0) =~= Seq::<serde_json::Value>::empty());
        assert(car_views(cars@) =~= Seq::<(Seq<char>, bool, u64)>::empty());
    }
    while i < raw_cars.len()
        invariant
            i <= raw_cars@.len(),
            array_field_of(*v, "cars"@) == Some(raw_cars@),
            train_car_items_spec(raw_cars@.subrange(0, i as int)) == Some(car_views(cars@)),
        decreases raw_cars@.len() - i,
    {
        let ghost pre = raw_cars@.subrange(0, i as int);
        let ghost ext = raw_cars@.subrange(0, i as int + 1);
        proof {
            assert(ext.drop_last() =~= pre);
            assert(ext.last() == raw_cars@[i as int]);
        }
        match decode_train_car(&raw_cars[i]) {
            Some(c) => {
                let ghost views = car_views(cars@);
                let ghost x = (c._type@, c.disabled_person, c.free_seats as u64);
                cars.push(c);
                proof {
                    assert(car_views(cars@) =~= views.push(x));
                }
            },
            None => {
                proof {
                    lemma_train_car_items_none(raw_cars@, i as int);
                }
                return None;
            },
        }
        i = i + 1;
    }
    proof {
        assert(raw_cars@.subrange(0, raw_cars@.len() as int) =~= raw_cars@);
    }
    let number = match field_string(v, "number") {
        Some(s) => s,
        None => {
            return None;
        },
    };
    let date0 = match field_string(v, "date0") {
        Some(s) => s,
        None => {
            return None;
        },
    };
    let time0 = match field_string(v, "time0") {
        Some(s) => s,
        None => {
            return None;
        },
    };
    Some(GetRZDTrains { cars, number, date0, time0 })
}

/// Decodes the timetable payload: the array under `"tp"`, each element an
/// object whose `"list"` holds the trains. Succeeds exactly when the whole
/// shape reads, and then returns every variant, listing and car with the
/// document's own values, in order.
pub fn decode_trains(v: &serde_json::Value) -> (r: Option<GetRZDTrainsResponse>)
    ensures
        match r {
            Some(resp) => trains_doc_spec(*v) == Some(tp_views(resp.tp@)),
            None => trains_doc_spec(*v) is None,
        },
{
    let raw_tp = match field_array(v, "tp") {
        Some(a) => a,
        None => {
            return None;
        },
    };
    let mut tp: Vec<GetRZDTrainsListResponse> = Vec::new();
    let mut i: usize = 0;
    proof {
        assert(raw_tp@.subrange(0, 0) =~= Seq::<serde_json::Value>::empty());
        assert(tp_views(tp@) =~= Seq::<
            Seq<(Seq<(Seq<char>, bool, u64)>, Seq<char>, Seq<char>, Seq<char>)>,
        >::empty());
    }
    while i < raw_tp.len()
        invariant
            i <= raw_tp@.len(),
            array_field_of(*v, "tp"@) == Some(raw_tp@),
            tp_items_spec(raw_tp@.subrange(0, i as int)) == Some(tp_views(tp@)),
        decreases raw_tp@.len() - i,
    {
        let ghost pre = raw_tp@.subrange(0, i as int);
        let ghost ext = raw_tp@.subrange(0, i as int + 1);
        proof {
            assert(ext.drop_last() =~= pre);
            assert(ext.last() == raw_tp@[i as int]);
        }
        let entry = &raw_tp[i];
        let raw_list = match field_array(entry, "list") {
            Some(a) => a,
            None => {
                proof {
                    lemma_tp_items_none(raw_tp@, i as int);
                }
                return None;
            },
        };
        let mut list: Vec<GetRZDTrains> = Vec::new();
        let mut j: usize = 0;
        proof {
            assert(raw_list@.subrange(0, 0) =~= Seq::<serde_json::Value>::empty());
            assert(train_views(list@) =~= Seq::<
                (Seq<(Seq<char>, bool, u64)>, Seq<char>, Seq<char>, Seq<char>),
            >::empty());
        }
        while j < raw_list.len()
            invariant
                j <= raw_list@.len(),
                train_items_spec(raw_list@.subrange(0, j as int)) == Some(train_views(list@)),
                i < raw_tp@.len(),
                array_field_of(*v, "tp"@) == Some(raw_tp@),
                tp_item_spec(raw_tp@[i as int]) == train_items_spec(raw_list@),
                tp_items_spec(raw_tp@.subrange(0, i as int)) == Some(tp_views(tp@)),
            decreases raw_list@.len() - j,
        {
            let ghost lpre = raw_list@.subrange(0, j as int);
            let ghost lext = raw_list@.subrange(0, j as int + 1);
            proof {
                assert(lext.drop_last() =~= lpre);
                assert(lext.last() == raw_list@[j as int]);
            }
            match decode_train(&raw_list[j]) {
                Some(t) => {
                    let ghost views = train_views(list@);
                    let ghost x = (car_views(t.cars@), t.number@, t.date0@, t.time0@);
                    list.push(t);
                    proof {
                        assert(train_views(list@) =~= views.push(x));
                    }
                },
                None => {
                    proof {
                        lemma_train_items_none(raw_list@, j as int);
                        lemma_tp_items_none(raw_tp@, i as int);
                    }
                    return None;
                },
            }
            j = j + 1;
        }
        proof {
            assert(raw_list@.subrange(0, raw_list@.len() as int) =~= raw_list@);
        }
        let ghost views = tp_views(tp@);
        let ghost x = train_views(list@);
        tp.push(GetRZDTrainsListResponse { list });
        proof {
            assert(tp_views(tp@) =~= views.push(x));
        }
        i = i + 1;
    }
    proof {
        assert(raw_tp@.subrange(0, raw_tp@.len() as int) =~= raw_tp@);
    }
    Some(GetRZDTrainsResponse { tp })
}

/// One carriage car as its views: the comma-joined seat-range field split
/// into its tokens in order, the car number, and the class.
pub open spec fn carriage_car_spec(v: serde_json::Value) -> Option<
    (Seq<Seq<char>>, Seq<char>, Seq<char>),
> {
    match (str_field_of(v, "places"@), str_field_of(v, "cnumber"@), str_field_of(v, "type"@)) {
        (Some(places), Some(cnum), Some(t)) => Some((split_spec(places, ','), cnum, t)),
        _ => None,
    }
}

pub open spec fn carriage_car_items_spec(items: Seq<serde_json::Value>) -> Option<
    Seq<(Seq<Seq<char>>, Seq<char>, Seq<char>)>,
>
    decreases items.len(),
{
    if items.len() == 0 {
        Some(Seq::<(Seq<Seq<char>>, Seq<char>, Seq<char>)>::empty())
    } else {
        match (carriage_car_items_spec(items.drop_last()), carriage_car_spec(items.last())) {
            (Some(pre), Some(x)) => Some(pre.push(x)),
            _ => None,
        }
    }
}

proof fn lemma_carriage_car_items_none(items: Seq<serde_json::Value>, i: int)
    requires
        0 <= i < items.len(),
        carriage_car_spec(items[i]) is None,
    ensures
        carriage_car_items_spec(items) is None,
    decreases items.len(),
{
    if i < items.len() - 1 {
        assert(items.drop_last()[i] == items[i]);
        lemma_carriage_car_items_none(items.drop_last(), i);
    }
}

pub open spec fn carriage_car_views(cs: Seq<GetRZDTrainsCarriagesCars>) -> Seq<
    (Seq<Seq<char>>, Seq<char>, Seq<char>),
> {
    cs.map_values(|c: GetRZDTrainsCarriagesCars| (c.places.deep_view(), c.cnumber@, c._type@))
}

/// One route variant of the carriage answer: the cars under `"cars"`.
pub open spec fn lst_item_spec(v: serde_json::Value) -> Option<
    Seq<(Seq<Seq<char>>, Seq<char>, Seq<char>)>,
> {
    match array_field_of(v, "cars"@) {
        Some(items) => carriage_car_items_spec(items),
        None => None,
    }
}

pub open spec fn lst_items_spec(items: Seq<serde_json::Value>) -> Option<
    Seq<Seq<(Seq<Seq<char>>, Seq<char>, Seq<char>)>>,
>
    decreases items.len(),
{
    if items.len() == 0 {
        Some(Seq::<Seq<(Seq<Seq<char>>, Seq<char>, Seq<char>)>>::empty())
    } else {
        match (lst_items_spec(items.drop_last()), lst_item_spec(items.last())) {
            (Some(pre), Some(x)) => Some(pre.push(x)),
            _ => None,
        }
    }
}

proof fn lemma_lst_items_none(items: Seq<serde_json::Value>, i: int)
    requires
        0 <= i < items.len(),
        lst_item_spec(items[i]) is None,
    ensures
        lst_items_spec(items) is None,
    decreases items.len(),
{
    if i < items.len() - 1 {
        assert(items.drop_last()[i] == items[i]);
        lemma_lst_items_none(items.drop_last(), i);
    }
}

/// What the carriage payload holds: the array under `"lst"`, each element
/// a route variant.
pub open spec fn carriages_doc_spec(doc: serde_json::Value) -> Option<
    Seq<Seq<(Seq<Seq<char>>, Seq<char>, Seq<char>)>>,
> {
    match array_field_of(doc, "lst"@) {
        Some(items) => lst_items_spec(items),
        None => None,
    }
}

pub open spec fn lst_views(ls: Seq<GetRZDTrainsCarriagesListResponse>) -> Seq<
    Seq<(Seq<Seq<char>>, Seq<char>, Seq<char>)>,
> {
    ls.map_values(|e: GetRZDTrainsCarriagesListResponse| carriage_car_views(e.cars@))
}

fn decode_carriage_car(v: &serde_json::Value) -> (r: Option<GetRZDTrainsCarriagesCars>)
    ensures
        match r {
            Some(c) => carriage_car_spec(*v) == Some((c.places.deep_view(), c.cnumber@, c._type@)),
            None => carriage_car_spec(*v) is None,
        },
{
    let places_joined = match field_string(v, "places") {
        Some(s) => s,
        None => {
            return None;
        },
    };
    let places = split_str(places_joined.as_str(), ',');
    let cnumber = match field_string(v, "cnumber") {
        Some(s) => s,
        None => {
            return None;
        },
    };
    let car_type = match field_string(v, "type") {
        Some(s) => s,
        None => {
            return None;
        },
    };
    Some(GetRZDTrainsCarriagesCars { places, cnumber, _type: car_type })
}

/// Decodes the carriage payload: the array under `"lst"`, each element an
/// object whose `"cars"` hold per-car comma-joined seat-range tokens.
/// Succeeds exactly when the whole shape reads, and then every decoded
/// car's tokens are the raw `"places"` field split on commas, in order.
pub fn decode_carriages(v: &serde_json::Value) -> (r: Option<GetRZDTrainsCarriagesResponse>)
    ensures
        match r {
            Some(resp) => carriages_doc_spec(*v) == Some(lst_views(resp.lst@)),
            None => carriages_doc_spec(*v) is None,
        },
{
    let raw_lst = match field_array(v, "lst") {
        Some(a) => a,
        None => {
            return None;
        },
    };
    let mut lst: Vec<GetRZDTrainsCarriagesListResponse> = Vec::new();
    let mut i: usize = 0;
    proof {
        assert(raw_lst@.subrange(0, 0) =~= Seq::<serde_json::Value>::empty());
        assert(lst_views(lst@) =~= Seq::<Seq<(Seq<Seq<char>>, Seq<char>, Seq<char>)>>::empty());
    }
    while i < raw_lst.len()
        invariant
            i <= raw_lst@.len(),
            array_field_of(*v, "lst"@) == Some(raw_lst@),
            lst_items_spec(raw_lst@.subrange(0, i as int)) == Some(lst_views(lst@)),
        decreases raw_lst@.len() - i,
    {
        let ghost pre = raw_lst@.subrange(0, i as int);
        let ghost ext = raw_lst@.subrange(0, i as int + 1);
        proof {
            assert(ext.drop_last() =~= pre);
            assert(ext.last() == raw_lst@[i as int]);
        }
        let entry = &raw_lst[i];
        let raw_cars = match field_array(entry, "cars") {
            Some(a) => a,
            None => {
                proof {
                    lemma_lst_items_none(raw_lst@, i as int);
                }
                return None;
            },
        };
        let mut cars: Vec<GetRZDTrainsCarriagesCars> = Vec::new();
        let mut j: usize = 0;
        proof {
            assert(raw_cars@.subrange(0, 0) =~= Seq::<serde_json::Value>::empty());
            assert(carriage_car_views(cars@) =~= Seq::<
                (Seq<Seq<char>>, Seq<char>, Seq<char>),
            >::empty());
        }
        while j < raw_cars.len()
            invariant
                j <= raw_cars@.len(),
                carriage_car_items_spec(raw_cars@.subrange(0, j as int)) == Some(
                    carriage_car_views(cars@),
                ),
                i < raw_lst@.len(),
                array_field_of(*v, "lst"@) == Some(raw_lst@),
                lst_item_spec(raw_lst@[i as int]) == carriage_car_items_spec(raw_cars@),
                lst_items_spec(raw_lst@.subrange(0, i as int)) == Some(lst_views(lst@)),
            decreases raw_cars@.len() - j,
        {
            let ghost cpre = raw_cars@.subrange(0, j as int);
            let ghost cext = raw_cars@.subrange(0, j as int + 1);
            proof {
                assert(cext.drop_last() =~= cpre);
                assert(cext.last() == raw_cars@[j as int]);
            }
            match decode_carriage_car(&raw_cars[j]) {
                Some(c) => {
                    let ghost views = carriage_car_views(cars@);
                    let ghost x = (c.places.deep_view(), c.cnumber@, c._type@);
                    cars.push(c);
                    proof {
                        assert(carriage_car_views(cars@) =~= views.push(x));
                    }
                },
                None => {
                    proof {
                        lemma_carriage_car_items_none(raw_cars@, j as int);
                        lemma_lst_items_none(raw_lst@, i as int);
                    }
                    return None;
                },
            }
            j = j + 1;
        }
        proof {
            assert(raw_cars@.subrange(0, raw_cars@.len() as int) =~= raw_cars@);
        }
        let ghost views = lst_views(lst@);
        let ghost x = carriage_car_views(cars@);
        lst.push(GetRZDTrainsCarriagesListResponse { cars });
        proof {
            assert(lst_views(lst@) =~= views.push(x));
        }
        i = i + 1;
    }
    proof {
        assert(raw_lst@.subrange(0, raw_lst@.len() as int) =~= raw_lst@);
    }
    Some(GetRZDTrainsCarriagesResponse { lst })
}

} // verus!
