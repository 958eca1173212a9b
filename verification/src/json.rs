//! Verified construction of the JSON text that the wire payload is made of:
//! string escaping, string literals, and the flattened attribute object.

use vstd::prelude::*;
use vstd::string::StrSliceExecFns;
use crate::text::push_char;
use crate::timestamp::digit;

verus! {

/// The lower-case hexadecimal digit character for `n < 16`.
pub open spec fn hex_digit(n: nat) -> char {
    if n < 10 {
        digit(n)
    } else if n == 10 {
        'a'
    } else if n == 11 {
        'b'
    } else if n == 12 {
        'c'
    } else if n == 13 {
        'd'
    } else if n == 14 {
        'e'
    } else {
        'f'
    }
}

/// How one character appears inside a JSON string literal: quote and
/// backslash are escaped, control characters get their short escape or a
/// `\u00XX` escape, and every other character stands for itself.
pub open spec fn escape_char(c: char) -> Seq<char> {
    if c == '"' {
        seq!['\\', '"']
    } else if c == '\\' {
        seq!['\\', '\\']
    } else if c == '\u{0008}' {
        seq!['\\', 'b']
    } else if c == '\u{0009}' {
        seq!['\\', 't']
    } else if c == '\u{000A}' {
        seq!['\\', 'n']
    } else if c == '\u{000C}' {
        seq!['\\', 'f']
    } else if c == '\u{000D}' {
        seq!['\\', 'r']
    } else if (c as u32) < 0x20 {
        seq!['\\', 'u', '0', '0', hex_digit((c as u32) as nat / 16), hex_digit(
            (c as u32) as nat % 16,
        )]
    } else {
        seq![c]
    }
}

pub open spec fn escaped_upto(s: Seq<char>, i: int) -> Seq<char>
    decreases i,
{
    if i <= 0 {
        Seq::empty()
    } else {
        escaped_upto(s, i - 1) + escape_char(s[i - 1])
    }
}

/// The body of a JSON string literal holding the characters of `s`.
pub open spec fn escaped(s: Seq<char>) -> Seq<char> {
    escaped_upto(s, s.len() as int)
}

/// A JSON string literal holding the characters of `s`.
pub open spec fn json_string(s: Seq<char>) -> Seq<char> {
    seq!['"'] + escaped(s) + seq!['"']
}

/// One attribute as it appears inside the flattened `properties` object,
/// with its leading comma.
pub open spec fn attr_entry(kv: (Seq<char>, Seq<char>)) -> Seq<char> {
    seq![','] + json_string(kv.0) + seq![':'] + json_string(kv.1)
}

pub open spec fn attrs_json_upto(attrs: Seq<(Seq<char>, Seq<char>)>, i: int) -> Seq<char>
    decreases i,
{
    if i <= 0 {
        Seq::empty()
    } else {
        attrs_json_upto(attrs, i - 1) + attr_entry(attrs[i - 1])
    }
}

/// The attribute pairs as they follow `distinct_id` inside the flattened
/// `properties` object, in order.
pub open spec fn attrs_json(attrs: Seq<(Seq<char>, Seq<char>)>) -> Seq<char> {
    attrs_json_upto(attrs, attrs.len() as int)
}

/// The views of a list of owned key/value pairs.
pub open spec fn pairs_view(v: Seq<(String, String)>) -> Seq<(Seq<char>, Seq<char>)> {
    v.map_values(|p: (String, String)| (p.0@, p.1@))
}

/// The lower-case hexadecimal digit character for `n < 16`.
fn hex_digit_char(n: u32) -> (c: char)
    requires
        n < 16,
    ensures
        c == hex_digit(n as nat),
{
    match n {
        0 => '0',
        1 => '1',
        2 => '2',
        3 => '3',
        4 => '4',
        5 => '5',
        6 => '6',
        7 => '7',
        8 => '8',
        9 => '9',
        10 => 'a',
        11 => 'b',
        12 => 'c',
        13 => 'd',
        14 => 'e',
        _ => 'f',
    }
}

/// Appends the escaped body of a JSON string literal for `s`.
fn append_escaped(out: &mut String, s: &str)
    ensures
        final(out)@ == old(out)@ + escaped(s@),
{
    let n = s.unicode_len();
    let mut i: usize = 0;
    while i < n
        invariant
            i <= n,
            n == s@.len(),
            out@ == old(out)@ + escaped_upto(s@, i as int),
        decreases n - i,
    {
        let c = s.get_char(i);
        if c == '"' {
            push_char(out, '\\');
            push_char(out, '"');
        } else if c == '\\' {
            push_char(out, '\\');
            push_char(out, '\\');
        } else if c == '\u{0008}' {
            push_char(out, '\\');
            push_char(out, 'b');
        } else if c == '\u{0009}' {
            push_char(out, '\\');
            push_char(out, 't');
        } else if c == '\u{000A}' {
            push_char(out, '\\');
            push_char(out, 'n');
        } else if c == '\u{000C}' {
            push_char(out, '\\');
            push_char(out, 'f');
        } else if c == '\u{000D}' {
            push_char(out, '\\');
            push_char(out, 'r');
        } else if (c as u32) < 0x20 {
            push_char(out, '\\');
            push_char(out, 'u');
            push_char(out, '0');
            push_char(out, '0');
            push_char(out, hex_digit_char((c as u32) / 16));
            push_char(out, hex_digit_char((c as u32) % 16));
        } else {
            push_char(out, c);
        }
        proof {
            assert(out@ =~= old(out)@ + escaped_upto(s@, i + 1));
        }
        i = i + 1;
    }
}

/// Appends a JSON string literal holding the characters of `s`.
pub fn append_json_string(out: &mut String, s: &str)
    ensures
        final(out)@ == old(out)@ + json_string(s@),
{
    push_char(out, '"');
    append_escaped(out, s);
    push_char(out, '"');
    proof {
        assert(out@ =~= old(out)@ + json_string(s@));
    }
}

/// Appends the attribute pairs with their leading commas, in order.
pub fn append_attrs(out: &mut String, attrs: &Vec<(String, String)>)
    ensures
        final(out)@ == old(out)@ + attrs_json(pairs_view(attrs@)),
{
    let n = attrs.len();
    let mut i: usize = 0;
    while i < n
        invariant
            i <= n,
            n == attrs@.len(),
            out@ == old(out)@ + attrs_json_upto(pairs_view(attrs@), i as int),
        decreases n - i,
    {
        push_char(out, ',');
        append_json_string(out, attrs[i].0.as_str());
        push_char(out, ':');
        append_json_string(out, attrs[i].1.as_str());
        proof {
            assert(out@ =~= old(out)@ + attrs_json_upto(pairs_view(attrs@), i + 1));
        }
        i = i + 1;
    }
}

} // verus!
