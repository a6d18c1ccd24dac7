//! Standing poll subscriptions: a user may ask to keep watching one day of
//! a route, or one specific train. A subscription travels through the
//! messaging transport and the key-value store as one underscore-joined
//! token; this module is the codec. Point codes are numeric and dates and
//! times carry dots and colons, so the fields themselves never hold an
//! underscore; the round-trip lemma states exactly that condition.

use vstd::prelude::*;
use vstd::string::StringExecFns;

use crate::text::{join_spec, lemma_split_join, sep_free, split_spec, split_str};

verus! {

/// One standing subscription: re-query a whole day of a route, or one
/// train of that day.
#[derive(Debug, PartialEq, Eq)]
pub enum TaskRecord {
    Day { origin: String, destination: String, date: String },
    Train { origin: String, destination: String, date: String, time: String, number: String },
}

/// The fields of a record, in token order. A day subscription has three,
/// a train subscription five.
pub open spec fn task_fields(r: TaskRecord) -> Seq<Seq<char>> {
    match r {
        TaskRecord::Day { origin, destination, date } => seq![origin@, destination@, date@],
        TaskRecord::Train { origin, destination, date, time, number } => seq![
            origin@,
            destination@,
            date@,
            time@,
            number@,
        ],
    }
}

/// The token of a record: its fields, underscore-joined.
pub open spec fn encode_task_spec(r: TaskRecord) -> Seq<char> {
    join_spec(task_fields(r), '_')
}

/// Encodes a record as its token, as `encode_task_spec` says.
pub fn encode_task(r: &TaskRecord) -> (s: String)
    ensures
        s@ == encode_task_spec(*r),
{
    match r {
        TaskRecord::Day { origin, destination, date } => {
            let mut s = origin.clone();
            s.append("_");
            s.append(destination.as_str());
            s.append("_");
            s.append(date.as_str());
            proof {
                reveal_strlit("_");
                let fields = task_fields(*r);
                let two = fields.drop_last();
                let one = two.drop_last();
                assert(one.len() == 1 && one[0] == origin@);
                assert(two.last() == destination@);
                assert(fields.last() == date@);
                assert(join_spec(one, '_') == origin@);
                assert(join_spec(two, '_') == join_spec(one, '_') + seq!['_'] + destination@);
                assert(join_spec(fields, '_') == join_spec(two, '_') + seq!['_'] + date@);
                assert("_"@ =~= seq!['_']);
                assert(s@ =~= encode_task_spec(*r));
            }
            s
        },
        TaskRecord::Train { origin, destination, date, time, number } => {
            let mut s = origin.clone();
            s.append("_");
            s.append(destination.as_str());
            s.append("_");
            s.append(date.as_str());
            s.append("_");
            s.append(time.as_str());
            s.append("_");
            s.append(number.as_str());
            proof {
                reveal_strlit("_");
                let fields = task_fields(*r);
                let four = fields.drop_last();
                let three = four.drop_last();
                let two = three.drop_last();
                let one = two.drop_last();
                assert(one.len() == 1 && one[0] == origin@);
                assert(two.last() == destination@);
                assert(three.last() == date@);
                assert(four.last() == time@);
                assert(fields.last() == number@);
                assert(join_spec(one, '_') == origin@);
                assert(join_spec(two, '_') == join_spec(one, '_') + seq!['_'] + destination@);
                assert(join_spec(three, '_') == join_spec(two, '_') + seq!['_'] + date@);
                assert(join_spec(four, '_') == join_spec(three, '_') + seq!['_'] + time@);
                assert(join_spec(fields, '_') == join_spec(four, '_') + seq!['_'] + number@);
                assert("_"@ =~= seq!['_']);
                assert(s@ =~= encode_task_spec(*r));
            }
            s
        },
    }
}

/// Decodes a token back to a record: three fields name a day subscription,
/// five a train subscription, anything else is no token at all.
pub fn decode_task(s: &str) -> (r: Option<TaskRecord>)
    ensures
        match r {
            Some(t) => task_fields(t) == split_spec(s@, '_') && (t matches TaskRecord::Day {
                ..
            } <==> split_spec(s@, '_').len() == 3),
            None => split_spec(s@, '_').len() != 3 && split_spec(s@, '_').len() != 5,
        },
{
    let mut parts = split_str(s, '_');
    let ghost sparts = split_spec(s@, '_');
    if parts.len() == 3 {
        proof {
            assert(parts.deep_view()[0] == parts@[0]@);
            assert(parts.deep_view()[1] == parts@[1]@);
            assert(parts.deep_view()[2] == parts@[2]@);
        }
        let origin = parts.remove(0);
        let destination = parts.remove(0);
        let date = parts.remove(0);
        let t = TaskRecord::Day { origin, destination, date };
        proof {
            assert(task_fields(t) =~= sparts);
        }
        Some(t)
    } else if parts.len() == 5 {
        proof {
            assert(parts.deep_view()[0] == parts@[0]@);
            assert(parts.deep_view()[1] == parts@[1]@);
            assert(parts.deep_view()[2] == parts@[2]@);
            assert(parts.deep_view()[3] == parts@[3]@);
            assert(parts.deep_view()[4] == parts@[4]@);
        }
        let origin = parts.remove(0);
        let destination = parts.remove(0);
        let date = parts.remove(0);
        let time = parts.remove(0);
        let number = parts.remove(0);
        let t = TaskRecord::Train { origin, destination, date, time, number };
        proof {
            assert(task_fields(t) =~= sparts);
        }
        Some(t)
    } else {
        None
    }
}

/// Whether every field of a record is free of the token separator.
pub open spec fn underscore_free(r: TaskRecord) -> bool {
    forall|i: int| 0 <= i < task_fields(r).len() ==> sep_free(#[trigger] task_fields(r)[i], '_')
}

/// The token of a record splits back to exactly the record's fields, for
/// every record whose fields hold no underscore. With `decode_task`'s
/// contract this says: decoding an encoded record gives a record of the
/// same kind with the same fields.
pub proof fn lemma_task_code_round_trip(r: TaskRecord)
    requires
        underscore_free(r),
    ensures
        split_spec(encode_task_spec(r), '_') == task_fields(r),
{
    lemma_split_join(task_fields(r), '_');
}

} // verus!
