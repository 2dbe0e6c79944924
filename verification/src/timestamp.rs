//! The assumed-UTC timestamp adapter.
//!
//! The wire format carries `started_at` as `YYYY-MM-DDTHH:MM:SSZ`. The
//! trailing `Z` is semantically meaningless upstream (the API is documented
//! as always UTC), so the adapter fixes the offset to UTC by construction
//! rather than trusting the suffix: a decoded [`Timestamp`] is always a
//! UTC-qualified value. A string that does not match the shape, or whose
//! fields do not name a real calendar date and time of day, is rejected.

use vstd::prelude::*;
use vstd::string::StrSliceExecFns;
use vstd::string::StringExecFns;
use crate::digits::{
    all_dec_digits, dec_value, is_dec_digit, digit_val, digit_char, lemma_dec_value_nonneg,
    lemma_digit_char_val,
};
use crate::error::DecodeError;

verus! {

/// A UTC-qualified timestamp with second precision. The offset is always
/// zero: the wire format never carries any other.
#[derive(Clone, Copy, Debug, PartialEq, Eq, Structural)]
pub struct Timestamp {
    /// Calendar year, four decimal digits on the wire.
    pub year: u16,
    /// Calendar month, 1 through 12.
    pub month: u8,
    /// Day of month, 1 through the month's length.
    pub day: u8,
    /// Hour of day, 0 through 23.
    pub hour: u8,
    /// Minute, 0 through 59.
    pub minute: u8,
    /// Second, 0 through 59.
    pub second: u8,
}

/// Ten to the power `n`.
pub open spec fn pow10(n: nat) -> int
    decreases n,
{
    if n == 0 {
        1
    } else {
        10 * pow10((n - 1) as nat)
    }
}

/// A leap year in the proleptic Gregorian calendar.
pub open spec fn is_leap_year(y: int) -> bool {
    y % 4 == 0 && (y % 100 != 0 || y % 400 == 0)
}

/// The number of days in a month.
pub open spec fn days_in_month(y: int, m: int) -> int {
    if m == 2 {
        if is_leap_year(y) {
            29
        } else {
            28
        }
    } else if m == 4 || m == 6 || m == 9 || m == 11 {
        30
    } else {
        31
    }
}

impl Timestamp {
    /// The fields name a real calendar date and time of day, with the year
    /// within the wire format's four digits.
    pub open spec fn wf(self) -> bool {
        self.year <= 9999 && 1 <= self.month <= 12 && 1 <= self.day <= days_in_month(
            self.year as int,
            self.month as int,
        ) && self.hour <= 23 && self.minute <= 59 && self.second <= 59
    }
}

/// The year field of a wire timestamp string.
pub open spec fn ts_year(s: Seq<char>) -> int {
    dec_value(s.subrange(0, 4))
}

/// The month field of a wire timestamp string.
pub open spec fn ts_month(s: Seq<char>) -> int {
    dec_value(s.subrange(5, 7))
}

/// The day field of a wire timestamp string.
pub open spec fn ts_day(s: Seq<char>) -> int {
    dec_value(s.subrange(8, 10))
}

/// The hour field of a wire timestamp string.
pub open spec fn ts_hour(s: Seq<char>) -> int {
    dec_value(s.subrange(11, 13))
}

/// The minute field of a wire timestamp string.
pub open spec fn ts_minute(s: Seq<char>) -> int {
    dec_value(s.subrange(14, 16))
}

/// The second field of a wire timestamp string.
pub open spec fn ts_second(s: Seq<char>) -> int {
    dec_value(s.subrange(17, 19))
}

/// The string has the exact shape `YYYY-MM-DDTHH:MM:SSZ`: twenty characters,
/// separators in place, digits everywhere else.
pub open spec fn timestamp_shape(s: Seq<char>) -> bool {
    &&& s.len() == 20
    &&& s[4] == '-'
    &&& s[7] == '-'
    &&& s[10] == 'T'
    &&& s[13] == ':'
    &&& s[16] == ':'
    &&& s[19] == 'Z'
    &&& all_dec_digits(s.subrange(0, 4))
    &&& all_dec_digits(s.subrange(5, 7))
    &&& all_dec_digits(s.subrange(8, 10))
    &&& all_dec_digits(s.subrange(11, 13))
    &&& all_dec_digits(s.subrange(14, 16))
    &&& all_dec_digits(s.subrange(17, 19))
}

/// The string is a well-formed wire timestamp: right shape, and the fields
/// name a real calendar date and time of day.
pub open spec fn valid_timestamp_string(s: Seq<char>) -> bool {
    &&& timestamp_shape(s)
    &&& 1 <= ts_month(s) <= 12
    &&& 1 <= ts_day(s) <= days_in_month(ts_year(s), ts_month(s))
    &&& ts_hour(s) <= 23
    &&& ts_minute(s) <= 59
    &&& ts_second(s) <= 59
}

/// The timestamp a valid wire string decodes to.
pub open spec fn ts_of_string(s: Seq<char>) -> Timestamp {
    Timestamp {
        year: ts_year(s) as u16,
        month: ts_month(s) as u8,
        day: ts_day(s) as u8,
        hour: ts_hour(s) as u8,
        minute: ts_minute(s) as u8,
        second: ts_second(s) as u8,
    }
}

/// What the timestamp adapter yields on a given wire string: the decoded
/// timestamp on a valid string, nothing otherwise.
pub open spec fn spec_decode_timestamp(s: Seq<char>) -> Option<Timestamp> {
    if valid_timestamp_string(s) {
        Some(ts_of_string(s))
    } else {
        None
    }
}

/// The small powers of ten, spelled out.
proof fn lemma_pow10_small()
    ensures
        pow10(0) == 1,
        pow10(1) == 10,
        pow10(2) == 100,
        pow10(3) == 1000,
        pow10(4) == 10000,
{
    assert(pow10(0) == 1);
    assert(pow10(1) == 10);
    assert(pow10(2) == 100);
    assert(pow10(3) == 1000);
    assert(pow10(4) == 10000);
}

/// A digit string's value is below ten to the power of its length.
pub proof fn lemma_dec_value_bound(s: Seq<char>)
    requires
        all_dec_digits(s),
    ensures
        dec_value(s) < pow10(s.len()),
    decreases s.len(),
{
    if s.len() > 0 {
        assert(all_dec_digits(s.drop_last()));
        lemma_dec_value_bound(s.drop_last());
        assert(dec_value(s.drop_last()) * 10 + digit_val(s.last()) < 10 * pow10(
            (s.len() - 1) as nat,
        )) by (nonlinear_arith)
            requires
                dec_value(s.drop_last()) < pow10((s.len() - 1) as nat),
                digit_val(s.last()) <= 9,
        ;
    }
}

/// Read the decimal digits of `s` between `start` and `end` as a number.
/// Yields nothing when any character in the range is not a digit.
fn read_digits(s: &str, start: usize, end: usize) -> (r: Option<u64>)
    requires
        start <= end <= s@.len(),
        end - start <= 4,
    ensures
        r is Some <==> all_dec_digits(s@.subrange(start as int, end as int)),
        r is Some ==> r->0 == dec_value(s@.subrange(start as int, end as int)),
{
    let ghost whole = s@.subrange(start as int, end as int);
    let mut i: usize = start;
    let mut acc: u64 = 0;
    while i < end
        invariant
            start <= i <= end <= s@.len(),
            end - start <= 4,
            whole == s@.subrange(start as int, end as int),
            forall|j: int| start <= j < i ==> is_dec_digit(s@[j]),
            acc == dec_value(s@.subrange(start as int, i as int)),
            acc < 10000,
        decreases end - i,
    {
        let c = s.get_char(i);
        let cv: u32 = c as u32;
        if cv < 48 || cv > 57 {
            assert(!is_dec_digit(whole[i - start]));
            return None;
        }
        let d: u64 = (cv - 48) as u64;
        proof {
            let pre = s@.subrange(start as int, i as int);
            let post = s@.subrange(start as int, i + 1);
            assert(post.drop_last() =~= pre);
            assert(post.last() == s@[i as int]);
            assert(all_dec_digits(post));
            lemma_dec_value_bound(post);
            lemma_pow10_small();
            assert(pow10(post.len()) <= pow10(4));
        }
        acc = acc * 10 + d;
        i = i + 1;
    }
    proof {
        assert(s@.subrange(start as int, i as int) == whole);
    }
    Some(acc)
}

/// The number of days in the given month of the given year.
pub fn days_in_month_of(year: u16, month: u8) -> (r: u8)
    requires
        1 <= month <= 12,
    ensures
        r == days_in_month(year as int, month as int),
{
    if month == 2 {
        if year % 4 == 0 && (year % 100 != 0 || year % 400 == 0) {
            29
        } else {
            28
        }
    } else if month == 4 || month == 6 || month == 9 || month == 11 {
        30
    } else {
        31
    }
}

/// Decode a wire timestamp of the shape `YYYY-MM-DDTHH:MM:SSZ` into a
/// UTC-qualified [`Timestamp`].
///
/// Succeeds exactly on the well-formed wire strings: twenty characters,
/// separators in place, all-digit fields naming a real calendar date and
/// time of day. Anything else is a decode error carrying the field name and
/// the raw value.
pub fn decode_assumed_utc_timestamp(field: &str, s: &str) -> (r: Result<Timestamp, DecodeError>)
    ensures
        r is Ok <==> valid_timestamp_string(s@),
        r is Ok ==> r->Ok_0 == ts_of_string(s@) && r->Ok_0.wf(),
        r is Err ==> r->Err_0.field@ == field@ && r->Err_0.value@ == s@,
{
    let n_chars: usize = s.unicode_len();
    if n_chars != 20 {
        return Err(DecodeError { field: field.to_owned(), value: s.to_owned() });
    }
    if s.get_char(4) != '-' || s.get_char(7) != '-' || s.get_char(10) != 'T' || s.get_char(13)
        != ':' || s.get_char(16) != ':' || s.get_char(19) != 'Z' {
        return Err(DecodeError { field: field.to_owned(), value: s.to_owned() });
    }
    let year = match read_digits(s, 0, 4) {
        Some(v) => v,
        None => {
            return Err(DecodeError { field: field.to_owned(), value: s.to_owned() });
        },
    };
    let month = match read_digits(s, 5, 7) {
        Some(v) => v,
        None => {
            return Err(DecodeError { field: field.to_owned(), value: s.to_owned() });
        },
    };
    let day = match read_digits(s, 8, 10) {
        Some(v) => v,
        None => {
            return Err(DecodeError { field: field.to_owned(), value: s.to_owned() });
        },
    };
    let hour = match read_digits(s, 11, 13) {
        Some(v) => v,
        None => {
            return Err(DecodeError { field: field.to_owned(), value: s.to_owned() });
        },
    };
    let minute = match read_digits(s, 14, 16) {
        Some(v) => v,
        None => {
            return Err(DecodeError { field: field.to_owned(), value: s.to_owned() });
        },
    };
    let second = match read_digits(s, 17, 19) {
        Some(v) => v,
        None => {
            return Err(DecodeError { field: field.to_owned(), value: s.to_owned() });
        },
    };
    proof {
        lemma_dec_value_bound(s@.subrange(0, 4));
        lemma_dec_value_bound(s@.subrange(5, 7));
        lemma_dec_value_bound(s@.subrange(8, 10));
        lemma_dec_value_bound(s@.subrange(11, 13));
        lemma_dec_value_bound(s@.subrange(14, 16));
        lemma_dec_value_bound(s@.subrange(17, 19));
        lemma_dec_value_nonneg(s@.subrange(0, 4));
        lemma_dec_value_nonneg(s@.subrange(5, 7));
        lemma_dec_value_nonneg(s@.subrange(8, 10));
        lemma_dec_value_nonneg(s@.subrange(11, 13));
        lemma_dec_value_nonneg(s@.subrange(14, 16));
        lemma_dec_value_nonneg(s@.subrange(17, 19));
        lemma_pow10_small();
    }
    if month < 1 || month > 12 {
        return Err(DecodeError { field: field.to_owned(), value: s.to_owned() });
    }
    let max_day = days_in_month_of(year as u16, month as u8);
    if day < 1 || day > max_day as u64 {
        return Err(DecodeError { field: field.to_owned(), value: s.to_owned() });
    }
    if hour > 23 || minute > 59 || second > 59 {
        return Err(DecodeError { field: field.to_owned(), value: s.to_owned() });
    }
    Ok(
        Timestamp {
            year: year as u16,
            month: month as u8,
            day: day as u8,
            hour: hour as u8,
            minute: minute as u8,
            second: second as u8,
        },
    )
}

/// The fixed-width decimal rendering of `v` on `n` digits, zero-padded,
/// most significant digit first.
pub open spec fn render_fixed(v: int, n: nat) -> Seq<char>
    decreases n,
{
    if n == 0 {
        Seq::<char>::empty()
    } else {
        render_fixed(v / 10, (n - 1) as nat).push(digit_char(v % 10))
    }
}

/// The wire rendering of a timestamp: `YYYY-MM-DDTHH:MM:SSZ`.
pub open spec fn render_timestamp(t: Timestamp) -> Seq<char> {
    render_fixed(t.year as int, 4) + seq!['-'] + render_fixed(t.month as int, 2) + seq!['-']
        + render_fixed(t.day as int, 2) + seq!['T'] + render_fixed(t.hour as int, 2) + seq![':']
        + render_fixed(t.minute as int, 2) + seq![':'] + render_fixed(t.second as int, 2)
        + seq!['Z']
}

/// Ten to any power is positive.
proof fn lemma_pow10_pos(n: nat)
    ensures
        pow10(n) >= 1,
    decreases n,
{
    if n > 0 {
        lemma_pow10_pos((n - 1) as nat);
    }
}

/// A fixed-width rendering is all digits, has the asked-for width, and reads
/// back as the rendered value.
pub proof fn lemma_render_fixed_value(v: int, n: nat)
    requires
        0 <= v < pow10(n),
    ensures
        render_fixed(v, n).len() == n,
        all_dec_digits(render_fixed(v, n)),
        dec_value(render_fixed(v, n)) == v,
    decreases n,
{
    if n == 0 {
        assert(pow10(0) == 1);
    } else {
        lemma_pow10_pos((n - 1) as nat);
        assert(v / 10 < pow10((n - 1) as nat)) by (nonlinear_arith)
            requires
                0 <= v < 10 * pow10((n - 1) as nat),
                pow10((n - 1) as nat) >= 1,
        ;
        lemma_render_fixed_value(v / 10, (n - 1) as nat);
        lemma_digit_char_val(v % 10);
        let pre = render_fixed(v / 10, (n - 1) as nat);
        let c = digit_char(v % 10);
        assert(pre.push(c).drop_last() =~= pre);
        assert(pre.push(c).last() == c);
        assert(forall|i: int|
            0 <= i < pre.push(c).len() ==> #[trigger] is_dec_digit(pre.push(c)[i]));
        assert(dec_value(pre.push(c)) == (v / 10) * 10 + (v % 10));
        assert((v / 10) * 10 + (v % 10) == v) by (nonlinear_arith);
    }
}

/// Append the fixed-width decimal rendering of `v` on `n` digits to a string.
fn append_fixed(out: &mut String, v: u64, n: u64)
    requires
        v < pow10(n as nat),
    ensures
        final(out)@ == old(out)@ + render_fixed(v as int, n as nat),
    decreases n,
{
    if n == 0 {
        assert(out@ =~= old(out)@ + render_fixed(v as int, 0));
    } else {
        proof {
            lemma_pow10_pos((n - 1) as nat);
            assert(v / 10 < pow10((n - 1) as nat)) by (nonlinear_arith)
                requires
                    0 <= v < 10 * pow10((n - 1) as nat),
                    pow10((n - 1) as nat) >= 1,
            ;
        }
        append_fixed(out, v / 10, n - 1);
        crate::digits::append_digit(out, v % 10);
        assert(out@ =~= old(out)@ + render_fixed(v as int, n as nat));
    }
}

/// Append one literal character of the wire timestamp shape to a string.
fn append_sep(out: &mut String, which: u8)
    requires
        which <= 3,
    ensures
        final(out)@ == old(out)@ + seq![
            if which == 0 {
                '-'
            } else if which == 1 {
                'T'
            } else if which == 2 {
                ':'
            } else {
                'Z'
            },
        ],
{
    if which == 0 {
        proof {
            reveal_strlit("-");
        }
        out.append("-");
        assert(out@ =~= old(out)@ + seq!['-']);
    } else if which == 1 {
        proof {
            reveal_strlit("T");
        }
        out.append("T");
        assert(out@ =~= old(out)@ + seq!['T']);
    } else if which == 2 {
        proof {
            reveal_strlit(":");
        }
        out.append(":");
        assert(out@ =~= old(out)@ + seq![':']);
    } else {
        proof {
            reveal_strlit("Z");
        }
        out.append("Z");
        assert(out@ =~= old(out)@ + seq!['Z']);
    }
}

/// Encode a timestamp in the wire format `YYYY-MM-DDTHH:MM:SSZ`.
pub fn encode_assumed_utc_timestamp(t: &Timestamp) -> (r: String)
    requires
        t.wf(),
    ensures
        r@ == render_timestamp(*t),
        spec_decode_timestamp(r@) == Some(*t),
{
    proof {
        lemma_pow10_small();
    }
    let mut out = String::new();
    append_fixed(&mut out, t.year as u64, 4);
    append_sep(&mut out, 0);
    append_fixed(&mut out, t.month as u64, 2);
    append_sep(&mut out, 0);
    append_fixed(&mut out, t.day as u64, 2);
    append_sep(&mut out, 1);
    append_fixed(&mut out, t.hour as u64, 2);
    append_sep(&mut out, 2);
    append_fixed(&mut out, t.minute as u64, 2);
    append_sep(&mut out, 2);
    append_fixed(&mut out, t.second as u64, 2);
    append_sep(&mut out, 3);
    proof {
        assert(out@ =~= render_timestamp(*t));
        lemma_timestamp_round_trip(*t);
    }
    out
}

/// Round trip: the wire rendering of any well-formed timestamp is a valid
/// wire string, and decoding it yields the very same timestamp.
pub proof fn lemma_timestamp_round_trip(t: Timestamp)
    requires
        t.wf(),
    ensures
        spec_decode_timestamp(render_timestamp(t)) == Some(t),
{
    lemma_pow10_small();
    lemma_render_fixed_value(t.year as int, 4);
    lemma_render_fixed_value(t.month as int, 2);
    lemma_render_fixed_value(t.day as int, 2);
    lemma_render_fixed_value(t.hour as int, 2);
    lemma_render_fixed_value(t.minute as int, 2);
    lemma_render_fixed_value(t.second as int, 2);
    let s = render_timestamp(t);
    assert(s.len() == 20);
    assert(s.subrange(0, 4) =~= render_fixed(t.year as int, 4));
    assert(s[4] == '-');
    assert(s.subrange(5, 7) =~= render_fixed(t.month as int, 2));
    assert(s[7] == '-');
    assert(s.subrange(8, 10) =~= render_fixed(t.day as int, 2));
    assert(s[10] == 'T');
    assert(s.subrange(11, 13) =~= render_fixed(t.hour as int, 2));
    assert(s[13] == ':');
    assert(s.subrange(14, 16) =~= render_fixed(t.minute as int, 2));
    assert(s[16] == ':');
    assert(s.subrange(17, 19) =~= render_fixed(t.second as int, 2));
    assert(s[19] == 'Z');
    assert(valid_timestamp_string(s));
    assert(ts_of_string(s) == t);
}

} // verus!
