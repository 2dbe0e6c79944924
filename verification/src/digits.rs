//! The decimal-digit decoding adapter.
//!
//! The wire format encodes several unsigned integers (stream id, user id,
//! game id) as JSON strings of decimal digits. The adapter parses such a
//! string exactly: any non-digit character (a sign, whitespace, letters) or
//! an empty string is rejected, and a value past `u64::MAX` is rejected
//! rather than truncated.

use vstd::prelude::*;
use vstd::string::StrSliceExecFns;
use vstd::string::StringExecFns;
use crate::error::DecodeError;

verus! {

/// A decimal digit, `'0'` through `'9'`.
pub open spec fn is_dec_digit(c: char) -> bool {
    48 <= c as int && c as int <= 57
}

/// The numeric value of one decimal digit character.
pub open spec fn digit_val(c: char) -> int {
    c as int - 48
}

/// Every character of `s` is a decimal digit.
pub open spec fn all_dec_digits(s: Seq<char>) -> bool {
    forall|i: int| 0 <= i < s.len() ==> is_dec_digit(s[i])
}

/// The integer value of a digit string, most significant digit first.
pub open spec fn dec_value(s: Seq<char>) -> int
    decreases s.len(),
{
    if s.len() == 0 {
        0
    } else {
        dec_value(s.drop_last()) * 10 + digit_val(s.last())
    }
}

/// Extending a digit string by one character multiplies its value by ten and
/// adds the new digit.
proof fn lemma_dec_value_take_succ(s: Seq<char>, i: int)
    requires
        0 <= i < s.len(),
    ensures
        dec_value(s.take(i + 1)) == dec_value(s.take(i)) * 10 + digit_val(s[i]),
{
    assert(s.take(i + 1).drop_last() =~= s.take(i));
    assert(s.take(i + 1).last() == s[i]);
}

/// A string of digits has a non-negative value.
pub proof fn lemma_dec_value_nonneg(s: Seq<char>)
    requires
        all_dec_digits(s),
    ensures
        dec_value(s) >= 0,
    decreases s.len(),
{
    if s.len() > 0 {
        assert(all_dec_digits(s.drop_last()));
        lemma_dec_value_nonneg(s.drop_last());
        assert(dec_value(s.drop_last()) * 10 >= 0) by (nonlinear_arith)
            requires
                dec_value(s.drop_last()) >= 0,
        ;
    }
}

/// On an all-digit string, the value of a prefix never exceeds the value of
/// a longer prefix.
proof fn lemma_dec_value_take_le(s: Seq<char>, i: int, j: int)
    requires
        all_dec_digits(s),
        0 <= i <= j <= s.len(),
    ensures
        dec_value(s.take(i)) <= dec_value(s.take(j)),
    decreases j - i,
{
    if i < j {
        lemma_dec_value_take_le(s, i, j - 1);
        lemma_dec_value_take_succ(s, j - 1);
        assert(all_dec_digits(s.take(j - 1)));
        lemma_dec_value_nonneg(s.take(j - 1));
        assert(dec_value(s.take(j - 1)) * 10 + digit_val(s[j - 1]) >= dec_value(s.take(j - 1)))
            by (nonlinear_arith)
            requires
                dec_value(s.take(j - 1)) >= 0,
                digit_val(s[j - 1]) >= 0,
        ;
    }
}

/// What the numeric-string adapter yields on a given wire string: the value
/// of a non-empty all-digit string that fits in `u64`, nothing otherwise.
pub open spec fn spec_decode_uint(s: Seq<char>) -> Option<u64> {
    if s.len() > 0 && all_dec_digits(s) && dec_value(s) <= u64::MAX {
        Some(dec_value(s) as u64)
    } else {
        None
    }
}

/// Decode a wire value that is a string of decimal digits as an unsigned
/// 64-bit integer.
///
/// Succeeds exactly on the non-empty all-digit strings whose value fits in
/// `u64`; anything else (an empty string, a sign, whitespace, a letter, an
/// overflowing value) is a decode error carrying the field name and the raw
/// value.
pub fn decode_numeric_string_as_uint(field: &str, s: &str) -> (r: Result<u64, DecodeError>)
    ensures
        r is Ok <==> s@.len() > 0 && all_dec_digits(s@) && dec_value(s@) <= u64::MAX,
        r is Ok <==> spec_decode_uint(s@) is Some,
        r is Ok ==> spec_decode_uint(s@) == Some(r->Ok_0) && r->Ok_0 == dec_value(s@),
        r is Err ==> r->Err_0.field@ == field@ && r->Err_0.value@ == s@,
{
    proof {
        if all_dec_digits(s@) {
            lemma_dec_value_nonneg(s@);
        }
    }
    let n_chars: usize = s.unicode_len();
    if n_chars == 0 {
        return Err(DecodeError { field: field.to_owned(), value: s.to_owned() });
    }
    let mut i: usize = 0;
    let mut acc: u64 = 0;
    while i < n_chars
        invariant
            0 <= i <= n_chars,
            n_chars == s@.len(),
            forall|j: int| 0 <= j < i ==> is_dec_digit(s@[j]),
            acc == dec_value(s@.take(i as int)),
        decreases n_chars - i,
    {
        let c = s.get_char(i);
        let cv: u32 = c as u32;
        if cv < 48 || cv > 57 {
            assert(!is_dec_digit(s@[i as int]));
            return Err(DecodeError { field: field.to_owned(), value: s.to_owned() });
        }
        let d: u64 = (cv - 48) as u64;
        if acc > (u64::MAX - d) / 10 {
            proof {
                lemma_dec_value_take_succ(s@, i as int);
                assert(acc * 10 + d > u64::MAX) by (nonlinear_arith)
                    requires
                        0 <= d <= 9,
                        acc > (u64::MAX - d) / 10,
                ;
                if all_dec_digits(s@) {
                    lemma_dec_value_take_le(s@, i as int + 1, s@.len() as int);
                    assert(s@.take(s@.len() as int) =~= s@);
                }
            }
            return Err(DecodeError { field: field.to_owned(), value: s.to_owned() });
        }
        proof {
            lemma_dec_value_take_succ(s@, i as int);
            assert(acc * 10 + d <= u64::MAX) by (nonlinear_arith)
                requires
                    0 <= d <= 9,
                    acc <= (u64::MAX - d) / 10,
            ;
        }
        acc = acc * 10 + d;
        i = i + 1;
    }
    proof {
        assert(s@.take(n_chars as int) =~= s@);
    }
    Ok(acc)
}

/// The character for one decimal digit value.
pub open spec fn digit_char(d: int) -> char {
    if d == 0 {
        '0'
    } else if d == 1 {
        '1'
    } else if d == 2 {
        '2'
    } else if d == 3 {
        '3'
    } else if d == 4 {
        '4'
    } else if d == 5 {
        '5'
    } else if d == 6 {
        '6'
    } else if d == 7 {
        '7'
    } else if d == 8 {
        '8'
    } else {
        '9'
    }
}

/// `digit_char` and `digit_val` invert each other on single digits.
pub proof fn lemma_digit_char_val(d: int)
    requires
        0 <= d <= 9,
    ensures
        is_dec_digit(digit_char(d)),
        digit_val(digit_char(d)) == d,
{
}

/// The decimal rendering of an unsigned integer, most significant digit
/// first, with no leading zeros (a bare `0` for zero).
pub open spec fn dec_digits_of(v: nat) -> Seq<char>
    decreases v,
{
    if v < 10 {
        seq![digit_char(v as int)]
    } else {
        dec_digits_of(v / 10).push(digit_char((v % 10) as int))
    }
}

/// The decimal rendering of a value reads back as that value.
pub proof fn lemma_dec_digits_of_value(v: nat)
    ensures
        dec_digits_of(v).len() > 0,
        all_dec_digits(dec_digits_of(v)),
        dec_value(dec_digits_of(v)) == v,
    decreases v,
{
    if v < 10 {
        lemma_digit_char_val(v as int);
        let s = dec_digits_of(v);
        assert(s =~= seq![digit_char(v as int)]);
        assert(s.len() == 1);
        assert(s.last() == digit_char(v as int));
        assert(s.drop_last() =~= Seq::<char>::empty());
        assert(dec_value(s.drop_last()) == 0);
        assert(dec_value(s) == 0 * 10 + digit_val(digit_char(v as int)));
    } else {
        lemma_dec_digits_of_value(v / 10);
        lemma_digit_char_val((v % 10) as int);
        let pre = dec_digits_of(v / 10);
        let c = digit_char((v % 10) as int);
        assert(pre.push(c).drop_last() =~= pre);
        assert(pre.push(c).last() == c);
        assert(forall|i: int|
            0 <= i < pre.push(c).len() ==> #[trigger] is_dec_digit(pre.push(c)[i]));
        assert(dec_value(pre.push(c)) == (v / 10) * 10 + (v % 10));
        assert((v / 10) * 10 + (v % 10) == v) by (nonlinear_arith);
    }
}

/// Round trip: decoding the decimal rendering of any `u64` yields that very
/// value.
pub proof fn lemma_uint_round_trip(v: u64)
    ensures
        spec_decode_uint(dec_digits_of(v as nat)) == Some(v),
{
    lemma_dec_digits_of_value(v as nat);
}

/// Append one decimal digit character to a string.
pub(crate) fn append_digit(out: &mut String, d: u64)
    requires
        d <= 9,
    ensures
        final(out)@ == old(out)@ + seq![digit_char(d as int)],
{
    if d == 0 {
        proof {
            reveal_strlit("0");
        }
        out.append("0");
        assert(out@ =~= old(out)@ + seq![digit_char(d as int)]);
    } else if d == 1 {
        proof {
            reveal_strlit("1");
        }
        out.append("1");
        assert(out@ =~= old(out)@ + seq![digit_char(d as int)]);
    } else if d == 2 {
        proof {
            reveal_strlit("2");
        }
        out.append("2");
        assert(out@ =~= old(out)@ + seq![digit_char(d as int)]);
    } else if d == 3 {
        proof {
            reveal_strlit("3");
        }
        out.append("3");
        assert(out@ =~= old(out)@ + seq![digit_char(d as int)]);
    } else if d == 4 {
        proof {
            reveal_strlit("4");
        }
        out.append("4");
        assert(out@ =~= old(out)@ + seq![digit_char(d as int)]);
    } else if d == 5 {
        proof {
            reveal_strlit("5");
        }
        out.append("5");
        assert(out@ =~= old(out)@ + seq![digit_char(d as int)]);
    } else if d == 6 {
        proof {
            reveal_strlit("6");
        }
        out.append("6");
        assert(out@ =~= old(out)@ + seq![digit_char(d as int)]);
    } else if d == 7 {
        proof {
            reveal_strlit("7");
        }
        out.append("7");
        assert(out@ =~= old(out)@ + seq![digit_char(d as int)]);
    } else if d == 8 {
        proof {
            reveal_strlit("8");
        }
        out.append("8");
        assert(out@ =~= old(out)@ + seq![digit_char(d as int)]);
    } else {
        proof {
            reveal_strlit("9");
        }
        out.append("9");
        assert(out@ =~= old(out)@ + seq![digit_char(d as int)]);
    }
}

/// Append the decimal rendering of `v` to a string.
fn append_uint(out: &mut String, v: u64)
    ensures
        final(out)@ == old(out)@ + dec_digits_of(v as nat),
    decreases v,
{
    if v < 10 {
        append_digit(out, v);
    } else {
        append_uint(out, v / 10);
        append_digit(out, v % 10);
        assert(out@ =~= old(out)@ + dec_digits_of(v as nat));
    }
}

/// Encode an unsigned 64-bit integer in the wire format's numeric-string
/// encoding: its decimal digits, most significant first.
pub fn encode_uint_as_numeric_string(v: u64) -> (r: String)
    ensures
        r@ == dec_digits_of(v as nat),
        spec_decode_uint(r@) == Some(v),
{
    let mut out = String::new();
    append_uint(&mut out, v);
    proof {
        assert(out@ =~= dec_digits_of(v as nat));
        lemma_uint_round_trip(v);
    }
    out
}

} // verus!
