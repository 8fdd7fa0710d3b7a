//! Decimal integers as the service reads them from form fields: an optional
//! sign, then one or more ASCII digits, and nothing else, in the range of `i32`.
use vstd::prelude::*;

verus! {

pub open spec fn is_digit(c: char) -> bool {
    '0' <= c && c <= '9'
}

pub open spec fn all_digits(s: Seq<char>) -> bool {
    forall|i: int| 0 <= i < s.len() ==> is_digit(#[trigger] s[i])
}

/// The value of a string of decimal digits, most significant first.
pub open spec fn decimal_value(s: Seq<char>) -> int
    decreases s.len(),
{
    if s.len() == 0 {
        0
    } else {
        decimal_value(s.drop_last()) * 10 + (s.last() as int - '0' as int)
    }
}

/// Whether the text starts with a sign character.
pub open spec fn has_sign(s: Seq<char>) -> bool {
    s.len() > 0 && (s[0] == '-' || s[0] == '+')
}

/// The text after its sign, if it has one.
pub open spec fn magnitude_digits(s: Seq<char>) -> Seq<char> {
    if has_sign(s) {
        s.drop_first()
    } else {
        s
    }
}

/// The integer that `s` denotes: `None` where `s` is empty, is a lone sign,
/// holds a character that is not a digit after its sign, or denotes a value
/// outside `i32`.
pub open spec fn parse_i32(s: Seq<char>) -> Option<i32> {
    let digits = magnitude_digits(s);
    let magnitude = decimal_value(digits);
    let value = if s.len() > 0 && s[0] == '-' {
        -magnitude
    } else {
        magnitude
    };
    if digits.len() == 0 || !all_digits(digits) {
        None
    } else if i32::MIN <= value <= i32::MAX {
        Some(value as i32)
    } else {
        None
    }
}

/// The value of digits is never negative.
pub proof fn decimal_value_nonnegative(s: Seq<char>)
    requires
        all_digits(s),
    ensures
        decimal_value(s) >= 0,
    decreases s.len(),
{
    if s.len() > 0 {
        decimal_value_nonnegative(s.drop_last());
        assert(is_digit(s[s.len() - 1]));
    }
}

/// A prefix of digits is worth no more than the whole.
pub proof fn prefix_value_le(s: Seq<char>, j: int)
    requires
        all_digits(s),
        0 <= j <= s.len(),
    ensures
        0 <= decimal_value(s.subrange(0, j)) <= decimal_value(s),
    decreases s.len() - j,
{
    decimal_value_nonnegative(s.subrange(0, j));
    if j < s.len() {
        prefix_value_le(s, j + 1);
        let p = s.subrange(0, j + 1);
        assert(p.drop_last() =~= s.subrange(0, j));
        assert(is_digit(p.last()));
    } else {
        assert(s.subrange(0, j) =~= s);
    }
}

/// Every character of `s` is one of the ASCII digits '0' to '9'.
pub open spec fn ascii_decimal(s: Seq<char>) -> bool {
    forall|i: int| 0 <= i < s.len() ==> '0' <= #[trigger] s[i] && s[i] <= '9'
}

/// A single character reads as its value when it is one of '0' to '9', and
/// as nothing otherwise; the empty text and a lone sign read as nothing.
pub proof fn single_character_reads_as_its_digit(d: char)
    ensures
        '0' <= d <= '9' ==> parse_i32(seq![d]) == Some((d as int - '0' as int) as i32),
        !('0' <= d <= '9') ==> parse_i32(seq![d]) is None,
        parse_i32(Seq::<char>::empty()) is None,
{
    let s = seq![d];
    if !has_sign(s) {
        assert(magnitude_digits(s) == s);
        assert(s.drop_last() =~= Seq::<char>::empty());
        assert(s.last() == d);
        assert(decimal_value(Seq::<char>::empty()) == 0);
        assert(decimal_value(s) == d as int - '0' as int);
        if '0' <= d <= '9' {
            assert(all_digits(s));
        } else {
            assert(!is_digit(s[0]));
        }
    } else {
        assert(magnitude_digits(s).len() == 0);
    }
}

/// Writing one more digit after an unsigned decimal multiplies its value by
/// ten and adds the digit's value, or overflows.
pub proof fn appending_a_digit_shifts_the_value(s: Seq<char>, d: char, v: i32)
    ensures
        s.len() > 0 && ascii_decimal(s) && parse_i32(s) == Some(v) && '0' <= d <= '9' ==> {
            let w = 10 * v + (d as int - '0' as int);
            &&& w <= i32::MAX ==> parse_i32(s.push(d)) == Some(w as i32)
            &&& w > i32::MAX ==> parse_i32(s.push(d)) is None
        },
{
    if s.len() > 0 && ascii_decimal(s) && parse_i32(s) == Some(v) && '0' <= d <= '9' {
        let t = s.push(d);
        assert(!has_sign(s));
        assert(t[0] == s[0]);
        assert(!has_sign(t));
        assert(magnitude_digits(s) == s);
        assert(magnitude_digits(t) == t);
        assert(t.drop_last() =~= s);
        assert(t.last() == d);
        assert(all_digits(s));
        assert(all_digits(t)) by {
            assert forall|i: int| 0 <= i < t.len() implies is_digit(#[trigger] t[i]) by {
                if i < s.len() {
                    assert(t[i] == s[i]);
                }
            }
        }
        decimal_value_nonnegative(s);
    }
}

/// A leading '+' leaves an unsigned decimal's value as it is, and a leading
/// '-' negates it.
pub proof fn a_sign_keeps_or_negates_the_value(s: Seq<char>, v: i32)
    ensures
        s.len() > 0 && ascii_decimal(s) && parse_i32(s) == Some(v) ==> {
            &&& parse_i32(seq!['+'] + s) == Some(v)
            &&& parse_i32(seq!['-'] + s) == Some((-v) as i32)
        },
{
    if s.len() > 0 && ascii_decimal(s) && parse_i32(s) == Some(v) {
        assert(!has_sign(s));
        assert(magnitude_digits(s) == s);
        let p = seq!['+'] + s;
        let m = seq!['-'] + s;
        assert(has_sign(p));
        assert(has_sign(m));
        assert(p.drop_first() =~= s);
        assert(m.drop_first() =~= s);
        decimal_value_nonnegative(s);
    }
}

/// A character other than '0' to '9', anywhere but a leading sign, makes the
/// text read as nothing.
pub proof fn a_stray_character_is_refused(s: Seq<char>, i: int)
    ensures
        0 <= i < s.len() && !('0' <= s[i] <= '9') && !(i == 0 && (s[0] == '+' || s[0] == '-'))
            ==> parse_i32(s) is None,
{
    if 0 <= i < s.len() && !('0' <= s[i] <= '9') && !(i == 0 && (s[0] == '+' || s[0] == '-')) {
        let digits = magnitude_digits(s);
        if has_sign(s) {
            assert(digits[i - 1] == s[i]);
            assert(!is_digit(digits[i - 1]));
        } else {
            assert(digits[i] == s[i]);
            assert(!is_digit(digits[i]));
        }
    }
}

/// Reads an `i32` written in decimal, as the service reads the keys of
/// stories and comments from form fields.
pub fn parse_id(text: &str) -> (id: Option<i32>)
    ensures
        id == parse_i32(text@),
{
    let n = text.unicode_len();
    if n == 0 {
        return None;
    }
    let first = text.get_char(0);
    assert(first == text@[0]);
    let negative = first == '-';
    let start: usize = if first == '-' || first == '+' {
        1
    } else {
        0
    };
    let ghost digits = text@.subrange(start as int, n as int);
    assert(digits =~= magnitude_digits(text@));
    if start == n {
        return None;
    }
    let mut value: u64 = 0;
    let mut i: usize = start;
    while i < n
        invariant
            n == text@.len(),
            start <= i <= n,
            start < n,
            digits == text@.subrange(start as int, n as int),
            digits == magnitude_digits(text@),
            negative == (text@[0] == '-'),
            all_digits(text@.subrange(start as int, i as int)),
            value == decimal_value(text@.subrange(start as int, i as int)),
            value <= 2147483648,
        decreases n - i,
    {
        let c = text.get_char(i);
        assert(digits[i - start] == c);
        if !('0' <= c && c <= '9') {
            assert(!all_digits(digits));
            return None;
        }
        let d: u32 = (c as u32) - ('0' as u32);
        value = value * 10 + (d as u64);
        let ghost seen = text@.subrange(start as int, i + 1);
        assert(seen.drop_last() =~= text@.subrange(start as int, i as int));
        assert(all_digits(seen));
        assert(seen =~= digits.subrange(0, i + 1 - start));
        if value > 2147483648 {
            proof {
                if all_digits(digits) {
                    prefix_value_le(digits, i + 1 - start);
                }
            }
            return None;
        }
        i = i + 1;
    }
    assert(text@.subrange(start as int, i as int) =~= digits);
    if negative {
        let v: i64 = 0 - (value as i64);
        Some(v as i32)
    } else if value <= 2147483647 {
        Some(value as i32)
    } else {
        None
    }
}

} // verus!
