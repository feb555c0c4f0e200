//! Verified text encoding: decimal rendering of integers, and JSON string
//! encoding with the escaping the wire format requires.

use vstd::prelude::*;

verus! {

/// Relies on std's `String::push`: appends exactly one character to the end
/// of the string.
pub assume_specification[ String::push ](s: &mut String, ch: char)
    ensures
        final(s)@ == old(s)@ + seq![ch],
;

/// The character for one decimal digit.
pub open spec fn digit_char(d: int) -> char {
    ((48 + d) as u8) as char
}

/// The decimal digits of `n`, most significant first, with no leading zeros
/// (`0` itself is rendered as one digit).
pub open spec fn dec_digits(n: int) -> Seq<char>
    decreases n,
{
    if n < 10 {
        seq![digit_char(n)]
    } else {
        dec_digits(n / 10) + seq![digit_char(n % 10)]
    }
}

/// Renders an unsigned integer in decimal.
pub fn u64_to_dec(n: u64) -> (r: String)
    ensures
        r@ == dec_digits(n as int),
    decreases n,
{
    if n < 10 {
        let d: u8 = 48 + (n as u8);
        let mut r = String::new();
        r.push(d as char);
        proof {
            assert(r@ =~= dec_digits(n as int));
        }
        r
    } else {
        let mut r = u64_to_dec(n / 10);
        let d: u8 = 48 + ((n % 10) as u8);
        r.push(d as char);
        r
    }
}

/// The character for one hexadecimal digit, lower case.
pub open spec fn hex_char(d: int) -> char {
    if d < 10 {
        ((48 + d) as u8) as char
    } else {
        ((87 + d) as u8) as char
    }
}

/// How one character appears inside a JSON string literal: quotes and
/// backslashes are escaped, the named control characters use their short
/// escapes, any other control character uses a `\u00..` escape, and
/// everything else stands for itself.
pub open spec fn json_escaped_char(c: char) -> Seq<char> {
    if c == '"' {
        seq!['\\', '"']
    } else if c == '\\' {
        seq!['\\', '\\']
    } else if c == '\u{0008}' {
        seq!['\\', 'b']
    } else if c == '\u{000C}' {
        seq!['\\', 'f']
    } else if c == '\n' {
        seq!['\\', 'n']
    } else if c == '\r' {
        seq!['\\', 'r']
    } else if c == '\t' {
        seq!['\\', 't']
    } else if (c as u32) < 32 {
        seq!['\\', 'u', '0', '0', hex_char((c as u32) as int / 16), hex_char((c as u32) as int % 16)]
    } else {
        seq![c]
    }
}

/// The body of a JSON string literal for `s`: each character escaped.
pub open spec fn json_escaped(s: Seq<char>) -> Seq<char>
    decreases s.len(),
{
    if s.len() == 0 {
        Seq::<char>::empty()
    } else {
        json_escaped(s.drop_last()) + json_escaped_char(s.last())
    }
}

/// A complete JSON string literal for `s`: the escaped characters between
/// double quotes.
pub open spec fn json_string(s: Seq<char>) -> Seq<char> {
    seq!['"'] + json_escaped(s) + seq!['"']
}

/// Appends the escaped form of one character.
fn push_escaped_char(out: &mut String, c: char)
    ensures
        final(out)@ == old(out)@ + json_escaped_char(c),
{
    let v = c as u32;
    if c == '"' {
        out.push('\\');
        out.push('"');
    } else if c == '\\' {
        out.push('\\');
        out.push('\\');
    } else if v == 8 {
        out.push('\\');
        out.push('b');
    } else if v == 12 {
        out.push('\\');
        out.push('f');
    } else if c == '\n' {
        out.push('\\');
        out.push('n');
    } else if c == '\r' {
        out.push('\\');
        out.push('r');
    } else if c == '\t' {
        out.push('\\');
        out.push('t');
    } else if v < 32 {
        out.push('\\');
        out.push('u');
        out.push('0');
        out.push('0');
        let hi: u8 = (v / 16) as u8;
        let lo: u8 = (v % 16) as u8;
        let hic: char = if hi < 10 {
            (48 + hi) as char
        } else {
            (87 + hi) as char
        };
        let loc: char = if lo < 10 {
            (48 + lo) as char
        } else {
            (87 + lo) as char
        };
        out.push(hic);
        out.push(loc);
        proof {
            assert(final(out)@ =~= old(out)@ + json_escaped_char(c));
        }
    } else {
        out.push(c);
    }
}

/// Appends a complete JSON string literal for `s`: a double quote, each of
/// `s`'s characters escaped, and a closing double quote.
pub fn push_json_string(out: &mut String, s: &str)
    ensures
        final(out)@ == old(out)@ + json_string(s@),
{
    out.push('"');
    let n = s.unicode_len();
    let mut i: usize = 0;
    proof {
        assert(out@ =~= old(out)@ + seq!['"'] + json_escaped(s@.take(0)));
    }
    while i < n
        invariant
            n == s@.len(),
            0 <= i <= n,
            out@ == old(out)@ + seq!['"'] + json_escaped(s@.take(i as int)),
        decreases n - i,
    {
        let c = s.get_char(i);
        push_escaped_char(out, c);
        proof {
            assert(s@.take(i + 1).drop_last() =~= s@.take(i as int));
            assert(s@.take(i + 1).last() == s@[i as int]);
        }
        i = i + 1;
    }
    proof {
        assert(s@.take(n as int) =~= s@);
    }
    out.push('"');
    proof {
        assert(final(out)@ =~= old(out)@ + json_string(s@));
    }
}

/// A JSON array of string literals, comma-separated, between brackets.
pub open spec fn json_string_array(items: Seq<Seq<char>>) -> Seq<char> {
    seq!['['] + json_string_array_inner(items) + seq![']']
}

/// The comma-separated string literals inside a JSON array.
pub open spec fn json_string_array_inner(items: Seq<Seq<char>>) -> Seq<char>
    decreases items.len(),
{
    if items.len() == 0 {
        Seq::<char>::empty()
    } else if items.len() == 1 {
        json_string(items[0])
    } else {
        json_string_array_inner(items.drop_last()) + seq![','] + json_string(items.last())
    }
}

/// Appends a JSON array holding each of `items` as a string literal, in
/// order.
pub fn push_json_string_array(out: &mut String, items: &Vec<String>)
    ensures
        final(out)@ == old(out)@ + json_string_array(items@.map_values(|t: String| t@)),
{
    out.push('[');
    let n = items.len();
    let mut i: usize = 0;
    while i < n
        invariant
            n == items@.len(),
            0 <= i <= n,
            out@ == old(out)@ + seq!['['] + json_string_array_inner(
                items@.map_values(|t: String| t@).take(i as int),
            ),
        decreases n - i,
    {
        if i > 0 {
            out.push(',');
        }
        push_json_string(out, items[i].as_str());
        proof {
            let vs = items@.map_values(|t: String| t@);
            assert(vs.take(i + 1).drop_last() =~= vs.take(i as int));
            assert(vs.take(i + 1).last() == vs[i as int]);
            assert(out@ =~= old(out)@ + seq!['['] + json_string_array_inner(vs.take(i + 1)));
        }
        i = i + 1;
    }
    proof {
        let vs = items@.map_values(|t: String| t@);
        assert(vs.take(n as int) =~= vs);
    }
    out.push(']');
    proof {
        assert(final(out)@ =~= old(out)@ + json_string_array(
            items@.map_values(|t: String| t@),
        ));
    }
}

/// A JSON object whose members are all string-valued, comma-separated,
/// between braces.
pub open spec fn json_string_object(pairs: Seq<(Seq<char>, Seq<char>)>) -> Seq<char> {
    seq!['{'] + json_string_object_inner(pairs) + seq!['}']
}

/// The comma-separated `"key":"value"` members inside a JSON object.
pub open spec fn json_string_object_inner(pairs: Seq<(Seq<char>, Seq<char>)>) -> Seq<char>
    decreases pairs.len(),
{
    if pairs.len() == 0 {
        Seq::<char>::empty()
    } else if pairs.len() == 1 {
        json_string(pairs[0].0) + seq![':'] + json_string(pairs[0].1)
    } else {
        json_string_object_inner(pairs.drop_last()) + seq![','] + json_string(pairs.last().0)
            + seq![':'] + json_string(pairs.last().1)
    }
}

/// Appends a JSON object holding each of `pairs` as a string-valued member,
/// in order.
pub fn push_json_string_object(out: &mut String, pairs: &Vec<(String, String)>)
    ensures
        final(out)@ == old(out)@ + json_string_object(
            pairs@.map_values(|p: (String, String)| (p.0@, p.1@)),
        ),
{
    out.push('{');
    let n = pairs.len();
    let mut i: usize = 0;
    while i < n
        invariant
            n == pairs@.len(),
            0 <= i <= n,
            out@ == old(out)@ + seq!['{'] + json_string_object_inner(
                pairs@.map_values(|p: (String, String)| (p.0@, p.1@)).take(i as int),
            ),
        decreases n - i,
    {
        if i > 0 {
            out.push(',');
        }
        push_json_string(out, pairs[i].0.as_str());
        out.push(':');
        push_json_string(out, pairs[i].1.as_str());
        proof {
            let vs = pairs@.map_values(|p: (String, String)| (p.0@, p.1@));
            assert(vs.take(i + 1).drop_last() =~= vs.take(i as int));
            assert(vs.take(i + 1).last() == vs[i as int]);
            assert(out@ =~= old(out)@ + seq!['{'] + json_string_object_inner(vs.take(i + 1)));
        }
        i = i + 1;
    }
    proof {
        let vs = pairs@.map_values(|p: (String, String)| (p.0@, p.1@));
        assert(vs.take(n as int) =~= vs);
    }
    out.push('}');
    proof {
        assert(final(out)@ =~= old(out)@ + json_string_object(
            pairs@.map_values(|p: (String, String)| (p.0@, p.1@)),
        ));
    }
}

} // verus!
