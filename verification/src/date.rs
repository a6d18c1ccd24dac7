//! Travel dates as plain day/month/year values. The user writes a date as
//! `day.month.year`; the timetable endpoint wants it back zero-padded as
//! `dd.mm.yyyy`. Parsing validates the calendar (month lengths, leap
//! years) so that only well-formed dates ever reach a query.

use vstd::prelude::*;
use vstd::string::StrSliceExecFns;
use vstd::string::StringExecFns;

use crate::text::{
    all_digits, digits_val, format_u32, join_spec, lemma_dec_digits_len, lemma_dec_digits_val,
    lemma_digits_val_bound, lemma_padded_dec_all_digits, lemma_pow10_mono, lemma_split_join,
    padded_dec, parse_u32, pow10, sep_free, split_spec, split_str, zeros,
};

verus! {

/// A calendar date, day and month one-based.
#[derive(PartialEq, Eq, Structural, Clone, Copy, Debug)]
pub struct TravelDate {
    pub day: u32,
    pub month: u32,
    pub year: u32,
}

pub open spec fn is_leap_year(y: nat) -> bool {
    y % 4 == 0 && (y % 100 != 0 || y % 400 == 0)
}

pub open spec fn days_in_month(y: nat, m: nat) -> nat {
    if m == 1 || m == 3 || m == 5 || m == 7 || m == 8 || m == 10 || m == 12 {
        31
    } else if m == 4 || m == 6 || m == 9 || m == 11 {
        30
    } else if m == 2 {
        if is_leap_year(y) {
            29
        } else {
            28
        }
    } else {
        0
    }
}

/// A date the calendar has: month in range, day within the month's length,
/// year written with at most four digits.
pub open spec fn valid_date(d: TravelDate) -> bool {
    1 <= d.month <= 12 && d.year <= 9999 && 1 <= d.day <= days_in_month(
        d.year as nat,
        d.month as nat,
    )
}

/// What a user-written date parses to: three dot-separated parts, day and
/// month of one or two digits, year of exactly four, naming a date the
/// calendar has.
pub open spec fn parse_date_spec(s: Seq<char>) -> Option<TravelDate> {
    let parts = split_spec(s, '.');
    if parts.len() == 3 && 1 <= parts[0].len() <= 2 && all_digits(parts[0]) && 1 <= parts[1].len()
        <= 2 && all_digits(parts[1]) && parts[2].len() == 4 && all_digits(parts[2]) {
        let d = TravelDate {
            day: digits_val(parts[0]) as u32,
            month: digits_val(parts[1]) as u32,
            year: digits_val(parts[2]) as u32,
        };
        if valid_date(d) {
            Some(d)
        } else {
            None
        }
    } else {
        None
    }
}

fn days_in_month_exec(y: u32, m: u32) -> (r: u32)
    ensures
        r == days_in_month(y as nat, m as nat),
{
    if m == 1 || m == 3 || m == 5 || m == 7 || m == 8 || m == 10 || m == 12 {
        31
    } else if m == 4 || m == 6 || m == 9 || m == 11 {
        30
    } else if m == 2 {
        if y % 4 == 0 && (y % 100 != 0 || y % 400 == 0) {
            29
        } else {
            28
        }
    } else {
        0
    }
}

/// Parses a user-written date, as `parse_date_spec` says: `None` for
/// anything that is not a well-formed date the calendar has.
pub fn parse_date(s: &str) -> (r: Option<TravelDate>)
    ensures
        r == parse_date_spec(s@),
{
    let parts = split_str(s, '.');
    let ghost sparts = split_spec(s@, '.');
    if parts.len() != 3 {
        return None;
    }
    proof {
        assert(parts.deep_view()[0] == parts@[0]@);
        assert(parts.deep_view()[1] == parts@[1]@);
        assert(parts.deep_view()[2] == parts@[2]@);
    }
    let p0 = parts[0].as_str();
    let p1 = parts[1].as_str();
    let p2 = parts[2].as_str();
    let l0 = p0.unicode_len();
    let l1 = p1.unicode_len();
    let l2 = p2.unicode_len();
    if l0 < 1 || l0 > 2 || l1 < 1 || l1 > 2 || l2 != 4 {
        return None;
    }
    let day = match parse_u32(p0) {
        Some(v) => v,
        None => {
            return None;
        },
    };
    let month = match parse_u32(p1) {
        Some(v) => v,
        None => {
            return None;
        },
    };
    let year = match parse_u32(p2) {
        Some(v) => v,
        None => {
            return None;
        },
    };
    let d = TravelDate { day, month, year };
    proof {
        lemma_digits_val_bound(sparts[2]);
        lemma_pow10_mono(4, 4);
        assert(pow10(4nat) == 10000) by {
            reveal_with_fuel(pow10, 5);
        }
        assert(d.year <= 9999);
    }
    if month < 1 || month > 12 {
        return None;
    }
    if day < 1 || day > days_in_month_exec(year, month) {
        return None;
    }
    Some(d)
}

/// The query form of a date: day and month zero-padded to two digits, the
/// year to four, dot-separated.
pub open spec fn format_date_spec(d: TravelDate) -> Seq<char> {
    join_spec(
        seq![
            padded_dec(d.day as nat, 2),
            padded_dec(d.month as nat, 2),
            padded_dec(d.year as nat, 4),
        ],
        '.',
    )
}

/// Zero-pads `n` to at least `width` digits; only the widths the date
/// format uses are needed.
fn pad_dec(n: u32, width: u32) -> (r: String)
    requires
        2 <= width <= 4,
        width == 2 ==> n <= 99,
        width == 4 ==> n <= 9999,
    ensures
        r@ == padded_dec(n as nat, width as nat),
{
    proof {
        reveal_strlit("0");
        reveal_strlit("00");
        reveal_strlit("000");
        crate::text::lemma_dec_digits_all_digits(n as nat);
        lemma_dec_digits_val(n as nat);
        lemma_digits_val_bound(crate::text::dec_digits(n as nat));
    }
    let digits = format_u32(n);
    let len = digits.as_str().unicode_len();
    if len >= width as usize {
        digits
    } else if len + 1 == width as usize {
        let r = String::from_str("0").concat(digits.as_str());
        proof {
            assert(zeros(1) =~= "0"@);
        }
        r
    } else if len + 2 == width as usize {
        let r = String::from_str("00").concat(digits.as_str());
        proof {
            assert(zeros(2) =~= "00"@);
        }
        r
    } else {
        let r = String::from_str("000").concat(digits.as_str());
        proof {
            assert(zeros(3) =~= "000"@);
        }
        r
    }
}

/// Formats a date for a query, as `format_date_spec` says.
pub fn format_date(d: &TravelDate) -> (r: String)
    requires
        valid_date(*d),
    ensures
        r@ == format_date_spec(*d),
{
    let mut r = pad_dec(d.day, 2);
    r.append(".");
    let month = pad_dec(d.month, 2);
    r.append(month.as_str());
    r.append(".");
    let year = pad_dec(d.year, 4);
    r.append(year.as_str());
    proof {
        reveal_strlit(".");
        assert("."@ =~= seq!['.']);
        let parts = seq![
            padded_dec(d.day as nat, 2),
            padded_dec(d.month as nat, 2),
            padded_dec(d.year as nat, 4),
        ];
        let two = parts.drop_last();
        let one = two.drop_last();
        assert(parts.last() == padded_dec(d.year as nat, 4));
        assert(two.last() == padded_dec(d.month as nat, 2));
        assert(one.len() == 1 && one[0] == padded_dec(d.day as nat, 2));
        assert(join_spec(one, '.') == padded_dec(d.day as nat, 2));
        assert(join_spec(two, '.') == join_spec(one, '.') + seq!['.'] + padded_dec(
            d.month as nat,
            2,
        ));
        assert(join_spec(parts, '.') == join_spec(two, '.') + seq!['.'] + padded_dec(
            d.year as nat,
            4,
        ));
        assert(r@ =~= format_date_spec(*d));
    }
    r
}

/// Parsing a formatted date gives the date back: the two forms name the
/// same day.
pub proof fn lemma_date_round_trip(d: TravelDate)
    requires
        valid_date(d),
    ensures
        parse_date_spec(format_date_spec(d)) == Some(d),
{
    let pday = padded_dec(d.day as nat, 2);
    let pmonth = padded_dec(d.month as nat, 2);
    let pyear = padded_dec(d.year as nat, 4);
    let parts = seq![pday, pmonth, pyear];
    lemma_padded_dec_all_digits(d.day as nat, 2);
    lemma_padded_dec_all_digits(d.month as nat, 2);
    lemma_padded_dec_all_digits(d.year as nat, 4);
    assert(pow10(2nat) == 100 && pow10(4nat) == 10000) by {
        reveal_with_fuel(pow10, 5);
    }
    lemma_dec_digits_len(d.day as nat, 2);
    lemma_dec_digits_len(d.month as nat, 2);
    lemma_dec_digits_len(d.year as nat, 4);
    assert(pday.len() == 2 && pmonth.len() == 2 && pyear.len() == 4);
    assert(forall|i: int| 0 <= i < parts.len() ==> sep_free(#[trigger] parts[i], '.')) by {
        assert(!crate::text::is_digit_char('.'));
        assert(forall|i: int| 0 <= i < pday.len() ==> pday[i] != '.');
        assert(forall|i: int| 0 <= i < pmonth.len() ==> pmonth[i] != '.');
        assert(forall|i: int| 0 <= i < pyear.len() ==> pyear[i] != '.');
    }
    lemma_split_join(parts, '.');
}

} // verus!
