//! Character-level helpers: decimal parsing and formatting, splitting on a
//! separator, and trimming framing characters. Everything here is defined
//! against sequence-level specification functions so that the modules above
//! can state exact contracts about the strings they take apart and put back
//! together.

use vstd::prelude::*;
use vstd::string::StrSliceExecFns;
use vstd::string::StringExecFns;

verus! {

pub open spec fn is_digit_char(c: char) -> bool {
    c == '0' || c == '1' || c == '2' || c == '3' || c == '4' || c == '5' || c == '6' || c == '7'
        || c == '8' || c == '9'
}

/// The numeric value of a decimal digit character.
pub open spec fn digit_val(c: char) -> nat {
    if c == '0' {
        0
    } else if c == '1' {
        1
    } else if c == '2' {
        2
    } else if c == '3' {
        3
    } else if c == '4' {
        4
    } else if c == '5' {
        5
    } else if c == '6' {
        6
    } else if c == '7' {
        7
    } else if c == '8' {
        8
    } else {
        9
    }
}

/// The numeric value of a digit character, or `None` for any other
/// character.
pub fn digit_of(c: char) -> (r: Option<u32>)
    ensures
        r is Some <==> is_digit_char(c),
        r is Some ==> r->0 == digit_val(c) && r->0 <= 9,
{
    match c {
        '0' => Some(0),
        '1' => Some(1),
        '2' => Some(2),
        '3' => Some(3),
        '4' => Some(4),
        '5' => Some(5),
        '6' => Some(6),
        '7' => Some(7),
        '8' => Some(8),
        '9' => Some(9),
        _ => None,
    }
}

/// The digit character for `d % 10`.
pub open spec fn digit_char(d: nat) -> char {
    if d % 10 == 0 {
        '0'
    } else if d % 10 == 1 {
        '1'
    } else if d % 10 == 2 {
        '2'
    } else if d % 10 == 3 {
        '3'
    } else if d % 10 == 4 {
        '4'
    } else if d % 10 == 5 {
        '5'
    } else if d % 10 == 6 {
        '6'
    } else if d % 10 == 7 {
        '7'
    } else if d % 10 == 8 {
        '8'
    } else {
        '9'
    }
}

pub open spec fn all_digits(s: Seq<char>) -> bool {
    forall|i: int| 0 <= i < s.len() ==> is_digit_char(s[i])
}

/// The value of a digit string, most significant digit first.
pub open spec fn digits_val(s: Seq<char>) -> nat
    decreases s.len(),
{
    if s.len() == 0 {
        0
    } else {
        digits_val(s.drop_last()) * 10 + digit_val(s.last())
    }
}

pub open spec fn pow10(n: nat) -> nat
    decreases n,
{
    if n == 0 {
        1
    } else {
        10 * pow10((n - 1) as nat)
    }
}

pub proof fn lemma_pow10_mono(a: nat, b: nat)
    requires
        a <= b,
    ensures
        pow10(a) <= pow10(b),
    decreases b,
{
    if a < b {
        lemma_pow10_mono(a, (b - 1) as nat);
        assert(pow10(b) == 10 * pow10((b - 1) as nat));
    }
}

pub proof fn lemma_digits_val_bound(s: Seq<char>)
    requires
        all_digits(s),
    ensures
        digits_val(s) < pow10(s.len()),
    decreases s.len(),
{
    if s.len() > 0 {
        assert(all_digits(s.drop_last())) by {
            assert(forall|i: int|
                0 <= i < s.len() - 1 ==> s.drop_last()[i] == s[i] && is_digit_char(s[i]));
        }
        lemma_digits_val_bound(s.drop_last());
        assert(is_digit_char(s.last()));
        assert(digit_val(s.last()) <= 9);
    }
}

/// A string parses as an index or seat number when it is one to nine
/// decimal digits; nine digits keep the value below `10^9`, which fits
/// comfortably in a `u32`.
pub open spec fn parse_u32_spec(s: Seq<char>) -> Option<u32> {
    if 1 <= s.len() <= 9 && all_digits(s) {
        Some(digits_val(s) as u32)
    } else {
        None
    }
}

/// Parses a string of one to nine decimal digits; anything else is `None`.
pub fn parse_u32(s: &str) -> (r: Option<u32>)
    ensures
        r == parse_u32_spec(s@),
{
    let n = s.unicode_len();
    if n == 0 || n > 9 {
        return None;
    }
    let mut val: u32 = 0;
    let mut i: usize = 0;
    while i < n
        invariant
            1 <= n <= 9,
            n == s@.len(),
            i <= n,
            all_digits(s@.subrange(0, i as int)),
            val == digits_val(s@.subrange(0, i as int)),
            val < pow10(i as nat),
        decreases n - i,
    {
        let c = s.get_char(i);
        let d = match digit_of(c) {
            Some(d) => d,
            None => {
                assert(!is_digit_char(s@[i as int]));
                return None;
            },
        };
        proof {
            lemma_pow10_mono(i as nat, 8);
            assert(pow10(8nat) == 100_000_000) by {
                reveal_with_fuel(pow10, 9);
            }
        }
        let ghost prefix = s@.subrange(0, i as int);
        let ghost extended = s@.subrange(0, i as int + 1);
        proof {
            assert(extended.drop_last() =~= prefix);
            assert(extended.last() == s@[i as int]);
        }
        val = val * 10 + d;
        i = i + 1;
    }
    proof {
        assert(s@.subrange(0, n as int) =~= s@);
    }
    Some(val)
}

/// The decimal digit string of `n`, most significant digit first, with no
/// leading zeros (except for `n == 0`, which is `"0"`).
pub open spec fn dec_digits(n: nat) -> Seq<char>
    decreases n,
{
    if n < 10 {
        seq![digit_char(n)]
    } else {
        dec_digits(n / 10).push(digit_char(n % 10))
    }
}

fn digit_str(d: u32) -> (r: &'static str)
    requires
        d < 10,
    ensures
        r@ =~= seq![digit_char(d as nat)],
{
    proof {
        reveal_strlit("0");
        reveal_strlit("1");
        reveal_strlit("2");
        reveal_strlit("3");
        reveal_strlit("4");
        reveal_strlit("5");
        reveal_strlit("6");
        reveal_strlit("7");
        reveal_strlit("8");
        reveal_strlit("9");
    }
    match d {
        0 => "0",
        1 => "1",
        2 => "2",
        3 => "3",
        4 => "4",
        5 => "5",
        6 => "6",
        7 => "7",
        8 => "8",
        _ => "9",
    }
}

/// Formats `n` in decimal.
pub fn format_u32(n: u32) -> (r: String)
    ensures
        r@ == dec_digits(n as nat),
    decreases n,
{
    if n < 10 {
        String::from_str(digit_str(n))
    } else {
        let pre = format_u32(n / 10);
        let r = pre.concat(digit_str(n % 10));
        proof {
            assert(r@ =~= dec_digits((n / 10) as nat).push(digit_char((n % 10) as nat)));
        }
        r
    }
}

/// Formats `n` in decimal.
pub fn format_u64(n: u64) -> (r: String)
    ensures
        r@ == dec_digits(n as nat),
    decreases n,
{
    if n < 10 {
        String::from_str(digit_str(n as u32))
    } else {
        let pre = format_u64(n / 10);
        let r = pre.concat(digit_str((n % 10) as u32));
        proof {
            assert(r@ =~= dec_digits((n / 10) as nat).push(digit_char((n % 10) as nat)));
        }
        r
    }
}

pub proof fn lemma_dec_digits_all_digits(n: nat)
    ensures
        all_digits(dec_digits(n)),
        dec_digits(n).len() >= 1,
    decreases n,
{
    if n < 10 {
        assert(is_digit_char(digit_char(n)));
    } else {
        lemma_dec_digits_all_digits(n / 10);
        assert(is_digit_char(digit_char(n % 10)));
        assert(forall|i: int|
            0 <= i < dec_digits(n).len() - 1 ==> dec_digits(n)[i] == dec_digits(n / 10)[i]);
    }
}

pub proof fn lemma_dec_digits_val(n: nat)
    ensures
        digits_val(dec_digits(n)) == n,
    decreases n,
{
    if n < 10 {
        let s = dec_digits(n);
        assert(s =~= seq![digit_char(n)]);
        assert(s.len() == 1);
        assert(s.last() == digit_char(n));
        assert(s.drop_last() =~= Seq::<char>::empty());
        assert(digits_val(s) == digits_val(s.drop_last()) * 10 + digit_val(s.last()));
        assert(digits_val(Seq::<char>::empty()) == 0);
        assert(digit_val(digit_char(n)) == n);
    } else {
        lemma_dec_digits_val(n / 10);
        let s = dec_digits(n);
        assert(s == dec_digits(n / 10).push(digit_char(n % 10)));
        assert(s.len() == dec_digits(n / 10).len() + 1);
        assert(s.last() == digit_char(n % 10));
        assert(s.drop_last() =~= dec_digits(n / 10));
        assert(digits_val(s) == digits_val(s.drop_last()) * 10 + digit_val(s.last()));
        assert(digit_val(digit_char(n % 10)) == n % 10);
        assert(n / 10 * 10 + n % 10 == n);
    }
}

pub proof fn lemma_dec_digits_len(n: nat, k: nat)
    requires
        n < pow10(k),
        k >= 1,
    ensures
        dec_digits(n).len() <= k,
    decreases n,
{
    if n < 10 {
    } else {
        assert(k >= 2) by {
            if k == 1 {
                assert(pow10(1nat) == 10) by {
                    reveal_with_fuel(pow10, 3);
                }
            }
        }
        assert(n / 10 < pow10((k - 1) as nat)) by {
            assert(pow10(k) == 10 * pow10((k - 1) as nat));
        }
        lemma_dec_digits_len(n / 10, (k - 1) as nat);
    }
}

/// Parsing the decimal form of `n` gives back `n`, for every `n` of at
/// most nine digits.
pub proof fn lemma_format_parse_round_trip(n: u32)
    requires
        n < 1_000_000_000,
    ensures
        parse_u32_spec(dec_digits(n as nat)) == Some(n),
{
    lemma_dec_digits_all_digits(n as nat);
    lemma_dec_digits_val(n as nat);
    assert(pow10(9nat) == 1_000_000_000) by {
        reveal_with_fuel(pow10, 10);
    }
    lemma_dec_digits_len(n as nat, 9);
}

/// Splitting a sequence on a separator character: the result always has
/// one part more than the sequence has separators, and keeps empty parts.
pub open spec fn split_spec(s: Seq<char>, sep: char) -> Seq<Seq<char>>
    decreases s.len(),
{
    if s.len() == 0 {
        seq![Seq::<char>::empty()]
    } else if s.last() == sep {
        split_spec(s.drop_last(), sep).push(Seq::<char>::empty())
    } else {
        let r = split_spec(s.drop_last(), sep);
        r.update(r.len() - 1, r.last().push(s.last()))
    }
}

pub proof fn lemma_split_len(s: Seq<char>, sep: char)
    ensures
        split_spec(s, sep).len() >= 1,
    decreases s.len(),
{
    if s.len() > 0 {
        lemma_split_len(s.drop_last(), sep);
    }
}

/// Splits `s` on `sep`, keeping empty parts, as `split_spec` describes.
pub fn split_str(s: &str, sep: char) -> (r: Vec<String>)
    ensures
        r.deep_view() == split_spec(s@, sep),
{
    let n = s.unicode_len();
    let mut parts: Vec<String> = Vec::new();
    let mut start: usize = 0;
    let mut i: usize = 0;
    proof {
        assert(s@.subrange(0, 0) =~= Seq::<char>::empty());
        assert(parts.deep_view() =~= Seq::<Seq<char>>::empty());
        assert(parts.deep_view().push(Seq::<char>::empty()) =~= seq![Seq::<char>::empty()]);
    }
    while i < n
        invariant
            n == s@.len(),
            start <= i <= n,
            parts.deep_view().push(s@.subrange(start as int, i as int))
                == split_spec(s@.subrange(0, i as int), sep),
        decreases n - i,
    {
        let ghost pre = s@.subrange(0, i as int);
        let ghost ext = s@.subrange(0, i as int + 1);
        proof {
            assert(ext.drop_last() =~= pre);
            assert(ext.last() == s@[i as int]);
        }
        let c = s.get_char(i);
        if c == sep {
            let ghost old_parts = parts.deep_view();
            let piece = s.substring_char(start, i);
            let owned = String::from_str(piece);
            parts.push(owned);
            proof {
                assert(parts.deep_view() =~= old_parts.push(s@.subrange(start as int, i as int)));
            }
            start = i + 1;
            proof {
                assert(s@.subrange(start as int, i as int + 1) =~= Seq::<char>::empty());
            }
        } else {
            proof {
                let r = split_spec(pre, sep);
                lemma_split_len(pre, sep);
                assert(parts.deep_view().push(s@.subrange(start as int, i as int)) == r);
                assert(r.last() == s@.subrange(start as int, i as int));
                assert(s@.subrange(start as int, i as int).push(s@[i as int])
                    =~= s@.subrange(start as int, i as int + 1));
                assert(r.update(r.len() - 1, r.last().push(s@[i as int]))
                    =~= parts.deep_view().push(s@.subrange(start as int, i as int + 1)));
            }
        }
        i = i + 1;
    }
    let ghost old_parts = parts.deep_view();
    let piece = s.substring_char(start, n);
    let owned = String::from_str(piece);
    parts.push(owned);
    proof {
        assert(parts.deep_view() =~= old_parts.push(s@.subrange(start as int, n as int)));
        assert(s@.subrange(0, n as int) =~= s@);
    }
    parts
}

/// A sequence that holds the separator nowhere.
pub open spec fn sep_free(s: Seq<char>, sep: char) -> bool {
    forall|i: int| 0 <= i < s.len() ==> s[i] != sep
}

/// Joining parts with a separator between each two.
pub open spec fn join_spec(parts: Seq<Seq<char>>, sep: char) -> Seq<char>
    decreases parts.len(),
{
    if parts.len() == 0 {
        Seq::<char>::empty()
    } else if parts.len() == 1 {
        parts[0]
    } else {
        join_spec(parts.drop_last(), sep) + seq![sep] + parts.last()
    }
}

/// A sequence without the separator splits to itself alone.
pub proof fn lemma_split_no_sep(s: Seq<char>, sep: char)
    requires
        sep_free(s, sep),
    ensures
        split_spec(s, sep) == seq![s],
    decreases s.len(),
{
    if s.len() == 0 {
        assert(s =~= Seq::<char>::empty());
    } else {
        assert(sep_free(s.drop_last(), sep));
        lemma_split_no_sep(s.drop_last(), sep);
        assert(s.last() != sep);
        let r = split_spec(s.drop_last(), sep);
        assert(r.update(r.len() - 1, r.last().push(s.last())) =~= seq![s.drop_last().push(
            s.last(),
        )]);
        assert(s.drop_last().push(s.last()) =~= s);
    }
}

/// Appending a separator and a separator-free tail adds one part.
pub proof fn lemma_split_append(x: Seq<char>, y: Seq<char>, sep: char)
    requires
        sep_free(y, sep),
    ensures
        split_spec(x + seq![sep] + y, sep) == split_spec(x, sep).push(y),
    decreases y.len(),
{
    if y.len() == 0 {
        let s = x + seq![sep] + y;
        assert(s =~= x.push(sep));
        assert(s.last() == sep);
        assert(s.drop_last() =~= x);
        assert(y =~= Seq::<char>::empty());
    } else {
        let y0 = y.drop_last();
        let c = y.last();
        assert(sep_free(y0, sep));
        lemma_split_append(x, y0, sep);
        let s = x + seq![sep] + y;
        assert(c != sep);
        assert(s.last() == c);
        assert(s.drop_last() =~= x + seq![sep] + y0);
        let r = split_spec(x + seq![sep] + y0, sep);
        assert(r == split_spec(x, sep).push(y0));
        lemma_split_len(x, sep);
        assert(r.last() == y0);
        assert(r.update(r.len() - 1, r.last().push(c)) =~= split_spec(x, sep).push(y0.push(c)));
        assert(y0.push(c) =~= y);
    }
}

/// Splitting a join of separator-free parts gives the parts back.
pub proof fn lemma_split_join(parts: Seq<Seq<char>>, sep: char)
    requires
        parts.len() >= 1,
        forall|i: int| 0 <= i < parts.len() ==> sep_free(#[trigger] parts[i], sep),
    ensures
        split_spec(join_spec(parts, sep), sep) == parts,
    decreases parts.len(),
{
    if parts.len() == 1 {
        lemma_split_no_sep(parts[0], sep);
        assert(seq![parts[0]] =~= parts);
    } else {
        let init = parts.drop_last();
        assert(forall|i: int| 0 <= i < init.len() ==> init[i] == parts[i]);
        lemma_split_join(init, sep);
        lemma_split_append(join_spec(init, sep), parts.last(), sep);
        assert(init.push(parts.last()) =~= parts);
    }
}

/// `k` zero characters.
pub open spec fn zeros(k: nat) -> Seq<char> {
    Seq::<char>::new(k, |i: int| '0')
}

/// The decimal form of `n`, left-padded with zeros to at least `w`
/// characters.
pub open spec fn padded_dec(n: nat, w: nat) -> Seq<char> {
    if dec_digits(n).len() >= w {
        dec_digits(n)
    } else {
        zeros((w - dec_digits(n).len()) as nat) + dec_digits(n)
    }
}

/// Leading zeros do not change a digit string's value.
pub proof fn lemma_digits_val_zeros(k: nat, s: Seq<char>)
    ensures
        digits_val(zeros(k) + s) == digits_val(s),
    decreases s.len(),
{
    if s.len() == 0 {
        assert(zeros(k) + s =~= zeros(k));
        lemma_digits_val_all_zeros(k);
    } else {
        lemma_digits_val_zeros(k, s.drop_last());
        let w = zeros(k) + s;
        assert(w.len() > 0);
        assert(w.drop_last() =~= zeros(k) + s.drop_last());
        assert(w.last() == s.last());
    }
}

proof fn lemma_digits_val_all_zeros(k: nat)
    ensures
        digits_val(zeros(k)) == 0,
    decreases k,
{
    if k > 0 {
        lemma_digits_val_all_zeros((k - 1) as nat);
        assert(zeros(k).drop_last() =~= zeros((k - 1) as nat));
        assert(zeros(k).last() == '0');
        assert(digit_val('0') == 0);
    }
}

/// A padded decimal is digits through and through.
pub proof fn lemma_padded_dec_all_digits(n: nat, w: nat)
    ensures
        all_digits(padded_dec(n, w)),
        padded_dec(n, w).len() >= w,
        padded_dec(n, w).len() >= 1 || w == 0,
        digits_val(padded_dec(n, w)) == n,
{
    lemma_dec_digits_all_digits(n);
    lemma_dec_digits_val(n);
    if dec_digits(n).len() < w {
        let k = (w - dec_digits(n).len()) as nat;
        assert(forall|i: int|
            0 <= i < padded_dec(n, w).len() ==> is_digit_char(#[trigger] padded_dec(n, w)[i])) by {
            assert(forall|i: int| 0 <= i < k ==> zeros(k)[i] == '0');
        }
        lemma_digits_val_zeros(k, dec_digits(n));
    }
}

/// Characters stripped from both ends of an upstream response body:
/// whitespace and stray double quotes around the payload.
pub open spec fn is_frame_char(c: char) -> bool {
    c == ' ' || c == '\n' || c == '\r' || c == '\t' || c == '"'
}

pub open spec fn trim_start_spec(s: Seq<char>) -> Seq<char>
    decreases s.len(),
{
    if s.len() > 0 && is_frame_char(s.first()) {
        trim_start_spec(s.drop_first())
    } else {
        s
    }
}

pub open spec fn trim_end_spec(s: Seq<char>) -> Seq<char>
    decreases s.len(),
{
    if s.len() > 0 && is_frame_char(s.last()) {
        trim_end_spec(s.drop_last())
    } else {
        s
    }
}

/// A response body with framing characters stripped from both ends.
pub open spec fn trim_spec(s: Seq<char>) -> Seq<char> {
    trim_end_spec(trim_start_spec(s))
}

fn is_frame(c: char) -> (r: bool)
    ensures
        r == is_frame_char(c),
{
    c == ' ' || c == '\n' || c == '\r' || c == '\t' || c == '"'
}

proof fn lemma_trim_start_skip(s: Seq<char>, k: int)
    requires
        0 <= k <= s.len(),
        forall|i: int| 0 <= i < k ==> is_frame_char(s[i]),
        k < s.len() ==> !is_frame_char(s[k]),
    ensures
        trim_start_spec(s) =~= s.subrange(k, s.len() as int),
    decreases k,
{
    if k == 0 {
        if s.len() > 0 {
            assert(!is_frame_char(s.first()));
        }
        assert(s.subrange(0, s.len() as int) =~= s);
    } else {
        assert(is_frame_char(s.first()));
        let t = s.drop_first();
        assert(forall|i: int| 0 <= i < k - 1 ==> t[i] == s[i + 1] && is_frame_char(s[i + 1]));
        lemma_trim_start_skip(t, k - 1);
        assert(t.subrange(k - 1, t.len() as int) =~= s.subrange(k, s.len() as int));
    }
}

proof fn lemma_trim_end_skip(s: Seq<char>, k: int)
    requires
        0 <= k <= s.len(),
        forall|i: int| k <= i < s.len() ==> is_frame_char(s[i]),
        k > 0 ==> !is_frame_char(s[k - 1]),
    ensures
        trim_end_spec(s) =~= s.subrange(0, k),
    decreases s.len() - k,
{
    if k == s.len() {
        if s.len() > 0 {
            assert(!is_frame_char(s.last()));
        }
        assert(s.subrange(0, s.len() as int) =~= s);
    } else {
        assert(is_frame_char(s.last()));
        let t = s.drop_last();
        lemma_trim_end_skip(t, k);
        assert(t.subrange(0, k) =~= s.subrange(0, k));
    }
}

/// Strips framing characters (whitespace and double quotes) from both
/// ends of `s`.
pub fn trim_frame(s: &str) -> (r: &str)
    ensures
        r@ == trim_spec(s@),
{
    let n = s.unicode_len();
    let mut lo: usize = 0;
    while lo < n && is_frame(s.get_char(lo))
        invariant
            n == s@.len(),
            lo <= n,
            forall|i: int| 0 <= i < lo ==> is_frame_char(s@[i]),
        decreases n - lo,
    {
        lo = lo + 1;
    }
    proof {
        lemma_trim_start_skip(s@, lo as int);
    }
    if lo == n {
        let r = s.substring_char(0, 0);
        proof {
            assert(trim_start_spec(s@) =~= Seq::<char>::empty());
            assert(trim_spec(s@) =~= Seq::<char>::empty());
            assert(r@ =~= Seq::<char>::empty());
        }
        return r;
    }
    let mut hi: usize = n;
    while hi > lo && is_frame(s.get_char(hi - 1))
        invariant
            n == s@.len(),
            lo <= hi <= n,
            forall|i: int| hi <= i < n ==> is_frame_char(s@[i]),
        decreases hi,
    {
        hi = hi - 1;
    }
    // `lo` points at a non-frame character, so the end scan stops at or
    // after it and the last kept character is not a frame character.
    assert(hi > lo);
    let r = s.substring_char(lo, hi);
    proof {
        let t = s@.subrange(lo as int, n as int);
        assert(forall|i: int|
            hi - lo <= i < t.len() ==> t[i] == s@[i + lo] && is_frame_char(s@[i + lo]));
        assert(!is_frame_char(t[hi - lo - 1]));
        lemma_trim_end_skip(t, hi as int - lo as int);
        assert(t.subrange(0, hi as int - lo as int) =~= s@.subrange(lo as int, hi as int));
    }
    r
}

/// Character-by-character string equality, usable on any two strings.
pub fn str_eq(a: &str, b: &str) -> (r: bool)
    ensures
        r == (a@ == b@),
{
    let na = a.unicode_len();
    let nb = b.unicode_len();
    if na != nb {
        return false;
    }
    let mut i: usize = 0;
    while i < na
        invariant
            na == a@.len(),
            na == b@.len(),
            i <= na,
            forall|j: int| 0 <= j < i ==> a@[j] == b@[j],
        decreases na - i,
    {
        if a.get_char(i) != b.get_char(i) {
            return false;
        }
        i = i + 1;
    }
    proof {
        assert(a@ =~= b@);
    }
    true
}

} // verus!
