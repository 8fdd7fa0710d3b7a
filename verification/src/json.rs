//! JSON text for the values that the service sends itself: strings, with the
//! escapes that RFC 8259 requires.
use vstd::prelude::*;

verus! {

/// The lower-case hexadecimal digit of `n`, for `0 <= n < 16`.
pub open spec fn hex_digit(n: int) -> char {
    "0123456789abcdef"@[n]
}

/// How one character is written inside a JSON string: the quote and the
/// backslash behind a backslash, the control characters with a short escape
/// where JSON has one and as `\u00XX` otherwise, every other character as itself.
pub open spec fn json_escape(c: char) -> Seq<char> {
    if c == '"' {
        seq!['\\', '"']
    } else if c == '\\' {
        seq!['\\', '\\']
    } else if c == '\u{8}' {
        seq!['\\', 'b']
    } else if c == '\t' {
        seq!['\\', 't']
    } else if c == '\n' {
        seq!['\\', 'n']
    } else if c == '\u{c}' {
        seq!['\\', 'f']
    } else if c == '\r' {
        seq!['\\', 'r']
    } else if (c as int) < 0x20 {
        seq!['\\', 'u', '0', '0', hex_digit(c as int / 16), hex_digit(c as int % 16)]
    } else {
        seq![c]
    }
}

/// The characters of `s`, each escaped.
pub open spec fn json_escaped(s: Seq<char>) -> Seq<char>
    decreases s.len(),
{
    if s.len() == 0 {
        seq![]
    } else {
        json_escaped(s.drop_last()) + json_escape(s.last())
    }
}

/// `s` as a JSON string literal.
pub open spec fn json_string(s: Seq<char>) -> Seq<char> {
    seq!['"'] + json_escaped(s) + seq!['"']
}

/// The value of a hexadecimal digit of either case.
pub open spec fn hex_value(c: char) -> Option<int> {
    if '0' <= c && c <= '9' {
        Some(c as int - '0' as int)
    } else if 'a' <= c && c <= 'f' {
        Some(c as int - 'a' as int + 10)
    } else if 'A' <= c && c <= 'F' {
        Some(c as int - 'A' as int + 10)
    } else {
        None
    }
}

/// The character that a one-letter escape `\x` stands for in JSON.
pub open spec fn short_escape(x: char) -> Option<char> {
    if x == '"' {
        Some('"')
    } else if x == '\\' {
        Some('\\')
    } else if x == '/' {
        Some('/')
    } else if x == 'b' {
        Some('\u{8}')
    } else if x == 'f' {
        Some('\u{c}')
    } else if x == 'n' {
        Some('\n')
    } else if x == 'r' {
        Some('\r')
    } else if x == 't' {
        Some('\t')
    } else {
        None
    }
}

/// The code unit written by the four hexadecimal digits `t[2..6]`.
pub open spec fn unicode_escape_value(t: Seq<char>) -> Option<int> {
    if t.len() >= 6 && hex_value(t[2]) is Some && hex_value(t[3]) is Some && hex_value(t[4]) is Some
        && hex_value(t[5]) is Some {
        Some(
            hex_value(t[2])->0 * 4096 + hex_value(t[3])->0 * 256 + hex_value(t[4])->0 * 16
                + hex_value(t[5])->0,
        )
    } else {
        None
    }
}

/// The characters that the body of a JSON string denotes, read from the front,
/// or `None` where the body is not one that JSON accepts (escapes of
/// surrogate halves are not read).
pub open spec fn json_unescaped(t: Seq<char>) -> Option<Seq<char>>
    decreases t.len(),
{
    if t.len() == 0 {
        Some(seq![])
    } else if t[0] == '\\' {
        if t.len() < 2 {
            None
        } else if short_escape(t[1]) is Some {
            match json_unescaped(t.skip(2)) {
                Some(r) => Some(seq![short_escape(t[1])->0] + r),
                None => None,
            }
        } else if t[1] == 'u' && unicode_escape_value(t) is Some {
            let code = unicode_escape_value(t)->0;
            if 0xD800 <= code <= 0xDFFF {
                None
            } else {
                match json_unescaped(t.skip(6)) {
                    Some(r) => Some(seq![code as char] + r),
                    None => None,
                }
            }
        } else {
            None
        }
    } else if t[0] == '"' || (t[0] as int) < 0x20 {
        None
    } else {
        match json_unescaped(t.drop_first()) {
            Some(r) => Some(seq![t[0]] + r),
            None => None,
        }
    }
}

/// The characters that a JSON string literal denotes, or `None` where `t` is
/// not one.
pub open spec fn json_string_value(t: Seq<char>) -> Option<Seq<char>> {
    if t.len() >= 2 && t[0] == '"' && t[t.len() - 1] == '"' {
        json_unescaped(t.subrange(1, t.len() - 1))
    } else {
        None
    }
}

/// Escaping a text escapes its first character, then the rest.
pub proof fn json_escaped_front(c: char, r: Seq<char>)
    ensures
        json_escaped(seq![c] + r) == json_escape(c) + json_escaped(r),
    decreases r.len(),
{
    let t = seq![c] + r;
    if r.len() == 0 {
        assert(t =~= seq![c]);
        assert(t.drop_last() =~= Seq::<char>::empty());
        assert(json_escaped(Seq::<char>::empty()) == Seq::<char>::empty());
        assert(json_escaped(t) == json_escaped(t.drop_last()) + json_escape(t.last()));
        assert(Seq::<char>::empty() + json_escape(c) =~= json_escape(c));
        assert(json_escape(c) + Seq::<char>::empty() =~= json_escape(c));
    } else {
        json_escaped_front(c, r.drop_last());
        assert(t.drop_last() =~= seq![c] + r.drop_last());
        assert(t.last() == r.last());
        assert(json_escaped(t) == json_escaped(t.drop_last()) + json_escape(t.last()));
        assert(json_escaped(r) == json_escaped(r.drop_last()) + json_escape(r.last()));
        assert(json_escape(c) + json_escaped(r.drop_last()) + json_escape(r.last()) =~= json_escape(
            c,
        ) + json_escaped(r));
    }
}

/// Each hexadecimal digit written reads back as its value.
pub proof fn hex_digit_reads_back(n: int)
    requires
        0 <= n < 16,
    ensures
        hex_value(hex_digit(n)) == Some(n),
{
    reveal_strlit("0123456789abcdef");
}

/// Reading one escaped character then the rest gives that character, then
/// what the rest reads as.
pub proof fn json_escape_reads_back(c: char, rest: Seq<char>)
    ensures
        json_unescaped(json_escape(c) + rest) == match json_unescaped(rest) {
            Some(r) => Some(seq![c] + r),
            None => None,
        },
{
    let t = json_escape(c) + rest;
    if c == '"' || c == '\\' || c == '\u{8}' || c == '\t' || c == '\n' || c == '\u{c}' || c
        == '\r' {
        assert(t[0] == '\\');
        assert(t.skip(2) =~= rest);
    } else if (c as int) < 0x20 {
        let hi = c as int / 16;
        let lo = c as int % 16;
        hex_digit_reads_back(hi);
        hex_digit_reads_back(lo);
        assert(t[0] == '\\');
        assert(t[1] == 'u');
        assert(t[2] == '0' && t[3] == '0');
        assert(t[4] == hex_digit(hi) && t[5] == hex_digit(lo));
        assert(unicode_escape_value(t) == Some(c as int));
        assert(t.skip(6) =~= rest);
        assert((c as int) as char == c);
    } else {
        assert(t[0] == c);
        assert(t.drop_first() =~= rest);
    }
}

/// Every text, written as a JSON string, reads back as itself.
pub proof fn json_string_reads_back(s: Seq<char>)
    ensures
        json_string_value(json_string(s)) == Some(s),
    decreases s.len(),
{
    json_escaped_reads_back(s);
    let t = json_string(s);
    assert(t.subrange(1, t.len() - 1) =~= json_escaped(s));
}

/// Every text, escaped, reads back as itself.
pub proof fn json_escaped_reads_back(s: Seq<char>)
    ensures
        json_unescaped(json_escaped(s)) == Some(s),
    decreases s.len(),
{
    if s.len() == 0 {
        assert(json_escaped(s) =~= Seq::<char>::empty());
    } else {
        let r = s.drop_first();
        assert(s =~= seq![s[0]] + r);
        json_escaped_front(s[0], r);
        json_escaped_reads_back(r);
        json_escape_reads_back(s[0], json_escaped(r));
        assert(seq![s[0]] + r =~= s);
    }
}

/// Appends one character to a string: `String::push`.
#[verifier::external_body]
fn push_char(s: &mut String, c: char)
    ensures
        final(s)@ == old(s)@.push(c),
{
    s.push(c);
}

/// Appends `c` to `out` as it is written inside a JSON string.
fn push_escaped(out: &mut String, c: char)
    ensures
        final(out)@ == old(out)@ + json_escape(c),
{
    let ghost start = out@;
    proof {
        reveal_strlit("0123456789abcdef");
    }
    if c == '"' {
        push_char(out, '\\');
        push_char(out, '"');
    } else if c == '\\' {
        push_char(out, '\\');
        push_char(out, '\\');
    } else if c == '\u{8}' {
        push_char(out, '\\');
        push_char(out, 'b');
    } else if c == '\t' {
        push_char(out, '\\');
        push_char(out, 't');
    } else if c == '\n' {
        push_char(out, '\\');
        push_char(out, 'n');
    } else if c == '\u{c}' {
        push_char(out, '\\');
        push_char(out, 'f');
    } else if c == '\r' {
        push_char(out, '\\');
        push_char(out, 'r');
    } else if (c as u32) < 0x20 {
        let code: u32 = c as u32;
        let digits = "0123456789abcdef";
        let high = digits.get_char((code / 16) as usize);
        let low = digits.get_char((code % 16) as usize);
        push_char(out, '\\');
        push_char(out, 'u');
        push_char(out, '0');
        push_char(out, '0');
        push_char(out, high);
        push_char(out, low);
    } else {
        push_char(out, c);
    }
    assert(out@ =~= start + json_escape(c));
}

/// `s` as a JSON string literal.
pub fn to_json_string(s: &str) -> (json: String)
    ensures
        json@ == json_string(s@),
        json_string_value(json@) == Some(s@),
{
    proof {
        json_string_reads_back(s@);
    }
    let mut out = String::new();
    push_char(&mut out, '"');
    proof {
        broadcast use vstd::string::group_string_axioms;
    }
    for c in iter: s.chars()
        invariant
            iter.seq() == s@,
            out@ == seq!['"'] + json_escaped(s@.take(iter.index())),
    {
        let ghost k = iter.index();
        push_escaped(&mut out, c);
        assert(s@.take(k + 1).drop_last() =~= s@.take(k));
        assert(out@ =~= seq!['"'] + json_escaped(s@.take(k + 1)));
    }
    assert(s@.take(s@.len() as int) =~= s@);
    push_char(&mut out, '"');
    out
}

} // verus!
