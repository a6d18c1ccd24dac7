//! The reduction of raw per-car seat-range tokens to four-seat compartment
//! blocks. A token reads `"<first><letters?>-<last><letters?>"`; the bounds
//! are the leading digits of each side. For every seat `s` in
//! `[first, last]` with `s % 4 == 1` and `last - s >= 3` a block
//! `[s, s + 3]` is emitted. A token whose bounds are inverted is an
//! upstream data anomaly: it is dropped without error. Only cars of the
//! closed-compartment class are considered.
//!
//! The four-seats-per-compartment numbering is a carrier-specific business
//! rule; it is kept in this one module so it can be swapped out.

use vstd::prelude::*;
use vstd::string::StrSliceExecFns;
use vstd::string::StringExecFns;

use crate::rzd::{is_compartment_type, is_compartment_type_spec, GetRZDTrainsCarriagesCars};
use crate::text::{
    digit_of, digits_val, is_digit_char, parse_u32, parse_u32_spec, split_spec, split_str,
};

verus! {

/// Four physically co-located seats sold together in a closed-compartment
/// car; derived from one listing, never stored.
#[derive(Debug, PartialEq, Eq)]
pub struct CompartmentBlock {
    pub car_number: String,
    pub first_seat: u32,
    pub last_seat: u32,
}

/// The length of the leading run of decimal digits.
pub open spec fn digit_prefix_len(s: Seq<char>) -> int
    decreases s.len(),
{
    if s.len() > 0 && is_digit_char(s.first()) {
        1 + digit_prefix_len(s.drop_first())
    } else {
        0
    }
}

proof fn lemma_digit_prefix_len(s: Seq<char>, k: int)
    requires
        0 <= k <= s.len(),
        forall|i: int| 0 <= i < k ==> is_digit_char(s[i]),
        k < s.len() ==> !is_digit_char(s[k]),
    ensures
        digit_prefix_len(s) == k,
    decreases k,
{
    if k == 0 {
        if s.len() > 0 {
            assert(!is_digit_char(s.first()));
        }
    } else {
        assert(is_digit_char(s.first()));
        let t = s.drop_first();
        assert(forall|i: int| 0 <= i < k - 1 ==> t[i] == s[i + 1] && is_digit_char(s[i + 1]));
        assert(k - 1 < t.len() ==> t[k - 1] == s[k]);
        lemma_digit_prefix_len(t, k - 1);
    }
}

/// One bound of a seat-range token: one to nine leading digits, optionally
/// followed by a suffix that holds no further digit (the upstream marks
/// some seats with trailing letters). Anything else is malformed.
pub open spec fn parse_bound_spec(s: Seq<char>) -> Option<u32> {
    let k = digit_prefix_len(s);
    if 1 <= k <= 9 && (forall|i: int| k <= i < s.len() ==> !is_digit_char(s[i])) {
        Some(digits_val(s.subrange(0, k)) as u32)
    } else {
        None
    }
}

/// Parses one bound of a seat-range token, as `parse_bound_spec` says.
pub fn parse_bound(s: &str) -> (r: Option<u32>)
    ensures
        r == parse_bound_spec(s@),
{
    let n = s.unicode_len();
    let mut k: usize = 0;
    let mut stopped = false;
    while !stopped && k < n
        invariant
            n == s@.len(),
            k <= n,
            forall|i: int| 0 <= i < k ==> is_digit_char(s@[i]),
            stopped ==> k < n && !is_digit_char(s@[k as int]),
        decreases n - k, if stopped { 0int } else { 1int },
    {
        if digit_of(s.get_char(k)).is_some() {
            k = k + 1;
        } else {
            stopped = true;
        }
    }
    proof {
        lemma_digit_prefix_len(s@, k as int);
    }
    if k == 0 || k > 9 {
        return None;
    }
    // The suffix may carry letters but no further digit.
    let mut i: usize = k;
    while i < n
        invariant
            n == s@.len(),
            k <= i <= n,
            digit_prefix_len(s@) == k,
            forall|j: int| k <= j < i ==> !is_digit_char(s@[j]),
        decreases n - i,
    {
        if digit_of(s.get_char(i)).is_some() {
            return None;
        }
        i = i + 1;
    }
    let prefix = s.substring_char(0, k);
    let parsed = parse_u32(prefix);
    proof {
        assert(prefix@ == s@.subrange(0, k as int));
        assert(parse_u32_spec(prefix@) is Some);
    }
    parsed
}

/// A full seat-range token: exactly two bounds around one `'-'`.
pub open spec fn parse_token_spec(t: Seq<char>) -> Option<(u32, u32)> {
    let parts = split_spec(t, '-');
    if parts.len() == 2 {
        match (parse_bound_spec(parts[0]), parse_bound_spec(parts[1])) {
            (Some(f), Some(l)) => Some((f, l)),
            _ => None,
        }
    } else {
        None
    }
}

/// Parses one seat-range token, as `parse_token_spec` says.
pub fn parse_token(t: &str) -> (r: Option<(u32, u32)>)
    ensures
        r == parse_token_spec(t@),
{
    let parts = split_str(t, '-');
    if parts.len() != 2 {
        return None;
    }
    proof {
        assert(parts.deep_view()[0] == parts@[0]@);
        assert(parts.deep_view()[1] == parts@[1]@);
    }
    let first = match parse_bound(parts[0].as_str()) {
        Some(f) => f,
        None => {
            return None;
        },
    };
    let last = match parse_bound(parts[1].as_str()) {
        Some(l) => l,
        None => {
            return None;
        },
    };
    Some((first, last))
}

/// The blocks whose first seat lies in `[s, last - 3]`, ascending: every
/// seat `x >= s` with `x % 4 == 1` and `x + 3 <= last` starts one.
pub open spec fn blocks_from(s: int, last: int) -> Seq<(u32, u32)>
    decreases last + 1 - s,
{
    if s + 3 > last {
        Seq::<(u32, u32)>::empty()
    } else if s % 4 == 1 {
        seq![(s as u32, (s + 3) as u32)] + blocks_from(s + 1, last)
    } else {
        blocks_from(s + 1, last)
    }
}

/// The blocks of one token: those of its range when the bounds are in
/// order, nothing when the token is inverted (an upstream anomaly, dropped
/// without error) or malformed.
pub open spec fn token_blocks_spec(t: Seq<char>) -> Seq<(u32, u32)> {
    match parse_token_spec(t) {
        Some((f, l)) => {
            if f <= l {
                blocks_from(f as int, l as int)
            } else {
                Seq::<(u32, u32)>::empty()
            }
        },
        None => Seq::<(u32, u32)>::empty(),
    }
}

/// A token with inverted bounds contributes no block — it is dropped, not
/// an error.
pub proof fn lemma_inverted_token_dropped(t: Seq<char>, f: u32, l: u32)
    requires
        parse_token_spec(t) == Some((f, l)),
        f > l,
    ensures
        token_blocks_spec(t) == Seq::<(u32, u32)>::empty(),
{
}

/// Emits the blocks of the range `[first, last]`, ascending.
pub fn blocks_in_range(first: u32, last: u32) -> (r: Vec<(u32, u32)>)
    ensures
        r@ == blocks_from(first as int, last as int),
{
    let mut out: Vec<(u32, u32)> = Vec::new();
    if last < 3 || first > last - 3 {
        proof {
            assert(out@ =~= blocks_from(first as int, last as int));
        }
        return out;
    }
    let mut s: u32 = first;
    while s <= last - 3
        invariant
            3 <= last,
            first <= s <= last - 3 + 1,
            blocks_from(first as int, last as int) == out@ + blocks_from(s as int, last as int),
        decreases last - s,
    {
        if s % 4 == 1 {
            let ghost pre = out@;
            out.push((s, s + 3));
            proof {
                assert(blocks_from(s as int, last as int) == seq![(s, (s + 3) as u32)]
                    + blocks_from(s as int + 1, last as int));
                assert(pre + (seq![(s, (s + 3) as u32)] + blocks_from(s as int + 1, last as int))
                    =~= out@ + blocks_from(s as int + 1, last as int));
            }
        }
        s = s + 1;
    }
    proof {
        assert(blocks_from(s as int, last as int) =~= Seq::<(u32, u32)>::empty());
        assert(out@ + Seq::<(u32, u32)>::empty() =~= out@);
    }
    out
}

/// The blocks of one token, as `token_blocks_spec` says.
pub fn token_blocks(t: &str) -> (r: Vec<(u32, u32)>)
    ensures
        r@ == token_blocks_spec(t@),
{
    match parse_token(t) {
        Some((f, l)) => {
            if f <= l {
                blocks_in_range(f, l)
            } else {
                // Inverted bounds: an upstream anomaly, dropped.
                let r = Vec::<(u32, u32)>::new();
                proof {
                    assert(r@ =~= token_blocks_spec(t@));
                }
                r
            }
        },
        None => {
            let r = Vec::<(u32, u32)>::new();
            proof {
                assert(r@ =~= token_blocks_spec(t@));
            }
            r
        },
    }
}

/// The blocks of a list of tokens, in token order.
pub open spec fn tokens_blocks_spec(tokens: Seq<Seq<char>>) -> Seq<(u32, u32)>
    decreases tokens.len(),
{
    if tokens.len() == 0 {
        Seq::<(u32, u32)>::empty()
    } else {
        tokens_blocks_spec(tokens.drop_last()) + token_blocks_spec(tokens.last())
    }
}

/// The blocks of one car: its tokens' blocks when it is of the
/// closed-compartment class, nothing otherwise, each block carrying the
/// car's number.
pub open spec fn car_blocks_spec(car: GetRZDTrainsCarriagesCars) -> Seq<CompartmentBlock> {
    if is_compartment_type_spec(car._type@) {
        tokens_blocks_spec(car.places.deep_view()).map_values(
            |b: (u32, u32)|
                CompartmentBlock { car_number: car.cnumber, first_seat: b.0, last_seat: b.1 },
        )
    } else {
        Seq::<CompartmentBlock>::empty()
    }
}

/// The blocks of a whole car list, in car order.
pub open spec fn reduce_spec(cars: Seq<GetRZDTrainsCarriagesCars>) -> Seq<CompartmentBlock>
    decreases cars.len(),
{
    if cars.len() == 0 {
        Seq::<CompartmentBlock>::empty()
    } else {
        reduce_spec(cars.drop_last()) + car_blocks_spec(cars.last())
    }
}

fn car_places_token<'a>(car: &'a GetRZDTrainsCarriagesCars, i: usize) -> (r: &'a str)
    requires
        i < car.places@.len(),
    ensures
        r@ == car.places.deep_view()[i as int],
{
    let t: &String = &car.places[i];
    t.as_str()
}

/// Reduces one car to its compartment blocks.
pub fn reduce_car(car: &GetRZDTrainsCarriagesCars) -> (r: Vec<CompartmentBlock>)
    ensures
        r@ == car_blocks_spec(*car),
{
    let mut out: Vec<CompartmentBlock> = Vec::new();
    if !is_compartment_type(car._type.as_str()) {
        proof {
            assert(out@ =~= car_blocks_spec(*car));
        }
        return out;
    }
    let ghost tokens = car.places.deep_view();
    let ghost to_block = |b: (u32, u32)|
        CompartmentBlock { car_number: car.cnumber, first_seat: b.0, last_seat: b.1 };
    let mut i: usize = 0;
    while i < car.places.len()
        invariant
            i <= car.places@.len(),
            tokens == car.places.deep_view(),
            to_block == (|b: (u32, u32)|
                CompartmentBlock { car_number: car.cnumber, first_seat: b.0, last_seat: b.1 }),
            out@ == tokens_blocks_spec(tokens.subrange(0, i as int)).map_values(to_block),
        decreases car.places@.len() - i,
    {
        let ghost pre = tokens.subrange(0, i as int);
        let ghost ext = tokens.subrange(0, i as int + 1);
        proof {
            assert(ext.drop_last() =~= pre);
            assert(ext.last() == tokens[i as int]);
        }
        let token = car_places_token(car, i);
        let pairs = token_blocks(token);
        let mut j: usize = 0;
        while j < pairs.len()
            invariant
                j <= pairs@.len(),
                pairs@ == token_blocks_spec(tokens[i as int]),
                i < tokens.len(),
                to_block == (|b: (u32, u32)|
                    CompartmentBlock {
                        car_number: car.cnumber,
                        first_seat: b.0,
                        last_seat: b.1,
                    }),
                out@ == tokens_blocks_spec(tokens.subrange(0, i as int)).map_values(to_block)
                    + pairs@.subrange(0, j as int).map_values(to_block),
            decreases pairs@.len() - j,
        {
            let (f, l) = pairs[j];
            let ghost before = out@;
            out.push(CompartmentBlock {
                car_number: car.cnumber.clone(),
                first_seat: f,
                last_seat: l,
            });
            proof {
                assert(pairs@.subrange(0, j as int + 1).drop_last() =~= pairs@.subrange(
                    0,
                    j as int,
                ));
                assert(pairs@.subrange(0, j as int + 1).map_values(to_block) =~= pairs@.subrange(
                    0,
                    j as int,
                ).map_values(to_block).push(to_block((f, l))));
                assert(out@ =~= before.push(to_block((f, l))));
            }
            j = j + 1;
        }
        proof {
            assert(pairs@.subrange(0, pairs@.len() as int) =~= pairs@);
            assert(tokens_blocks_spec(ext) == tokens_blocks_spec(pre) + pairs@);
            assert(tokens_blocks_spec(ext).map_values(to_block) =~= tokens_blocks_spec(
                pre,
            ).map_values(to_block) + pairs@.map_values(to_block));
        }
        i = i + 1;
    }
    proof {
        assert(tokens.subrange(0, tokens.len() as int) =~= tokens);
        assert(car_blocks_spec(*car) == tokens_blocks_spec(tokens).map_values(to_block));
    }
    out
}

/// Reduces a car list to its compartment blocks, as `reduce_spec` says:
/// only closed-compartment cars contribute, in car order.
pub fn reduce(cars: &Vec<GetRZDTrainsCarriagesCars>) -> (r: Vec<CompartmentBlock>)
    ensures
        r@ == reduce_spec(cars@),
{
    let mut out: Vec<CompartmentBlock> = Vec::new();
    let mut i: usize = 0;
    proof {
        assert(cars@.subrange(0, 0) =~= Seq::<GetRZDTrainsCarriagesCars>::empty());
    }
    while i < cars.len()
        invariant
            i <= cars@.len(),
            out@ == reduce_spec(cars@.subrange(0, i as int)),
        decreases cars@.len() - i,
    {
        let ghost pre = cars@.subrange(0, i as int);
        let ghost ext = cars@.subrange(0, i as int + 1);
        proof {
            assert(ext.drop_last() =~= pre);
            assert(ext.last() == cars@[i as int]);
        }
        let mut blocks = reduce_car(&cars[i]);
        let ghost before = out@;
        let ghost added = blocks@;
        out.append(&mut blocks);
        proof {
            assert(out@ == before + added);
        }
        i = i + 1;
    }
    proof {
        assert(cars@.subrange(0, cars@.len() as int) =~= cars@);
    }
    out
}

} // verus!
