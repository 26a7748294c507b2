//! Verified JSON framing for the wire payloads.
//!
//! The broker payloads are JSON objects whose field names are part of the
//! wire contract. This module produces JSON string literals (with the
//! escaping rules of the standard encoder: quote, backslash and control
//! characters) and arrays, character by character, so that the exact bytes
//! published are pinned down by the contracts.

use vstd::prelude::*;
use crate::text::chars_to_string;

verus! {

/// The lowercase hexadecimal digit for `n`.
pub open spec fn hex_digit(n: int) -> char
    recommends
        0 <= n < 16,
{
    if n == 0 { '0' } else if n == 1 { '1' } else if n == 2 { '2' } else if n == 3 { '3' }
    else if n == 4 { '4' } else if n == 5 { '5' } else if n == 6 { '6' } else if n == 7 { '7' }
    else if n == 8 { '8' } else if n == 9 { '9' } else if n == 10 { 'a' } else if n == 11 { 'b' }
    else if n == 12 { 'c' } else if n == 13 { 'd' } else if n == 14 { 'e' } else { 'f' }
}

/// How one character is written inside a JSON string literal: named escapes
/// for quote, backslash and the common control characters, `\u00XX` for the
/// remaining control characters, the character itself otherwise.
pub open spec fn escape_char(c: char) -> Seq<char> {
    if c == '"' { seq!['\\', '"'] }
    else if c == '\\' { seq!['\\', '\\'] }
    else if c == '\u{08}' { seq!['\\', 'b'] }
    else if c == '\u{09}' { seq!['\\', 't'] }
    else if c == '\u{0a}' { seq!['\\', 'n'] }
    else if c == '\u{0c}' { seq!['\\', 'f'] }
    else if c == '\u{0d}' { seq!['\\', 'r'] }
    else if (c as u32) < 0x20 {
        seq!['\\', 'u', '0', '0', hex_digit((c as u32) as int / 16), hex_digit((c as u32) as int % 16)]
    } else {
        seq![c]
    }
}

/// The body of a JSON string literal: every character escaped in order.
pub open spec fn json_escape(s: Seq<char>) -> Seq<char>
    decreases s.len(),
{
    if s.len() == 0 {
        Seq::empty()
    } else {
        json_escape(s.drop_last()) + escape_char(s.last())
    }
}

/// A complete JSON string literal for `s`, quotes included.
pub open spec fn json_string_lit(s: Seq<char>) -> Seq<char> {
    seq!['"'] + json_escape(s) + seq!['"']
}

/// `items` joined with commas.
pub open spec fn comma_separated(items: Seq<Seq<char>>) -> Seq<char>
    decreases items.len(),
{
    if items.len() == 0 {
        Seq::empty()
    } else if items.len() == 1 {
        items[0]
    } else {
        comma_separated(items.drop_last()) + seq![','] + items.last()
    }
}

/// `inner` wrapped in square brackets.
pub open spec fn bracketed(inner: Seq<char>) -> Seq<char> {
    seq!['['] + inner + seq![']']
}

/// A JSON array of string literals.
pub open spec fn json_string_array(items: Seq<Seq<char>>) -> Seq<char> {
    bracketed(comma_separated(items.map_values(|s: Seq<char>| json_string_lit(s))))
}

/// A JSON array splicing already-encoded values verbatim.
pub open spec fn json_raw_array(items: Seq<Seq<char>>) -> Seq<char> {
    bracketed(comma_separated(items))
}

fn hex_digit_exec(n: u32) -> (c: char)
    requires
        n < 16,
    ensures
        c == hex_digit(n as int),
{
    if n == 0 { '0' } else if n == 1 { '1' } else if n == 2 { '2' } else if n == 3 { '3' }
    else if n == 4 { '4' } else if n == 5 { '5' } else if n == 6 { '6' } else if n == 7 { '7' }
    else if n == 8 { '8' } else if n == 9 { '9' } else if n == 10 { 'a' } else if n == 11 { 'b' }
    else if n == 12 { 'c' } else if n == 13 { 'd' } else if n == 14 { 'e' } else { 'f' }
}

fn push_escaped(v: &mut Vec<char>, c: char)
    ensures
        final(v)@ == old(v)@ + escape_char(c),
{
    if c == '"' {
        v.push('\\');
        v.push('"');
    } else if c == '\\' {
        v.push('\\');
        v.push('\\');
    } else if c == '\u{08}' {
        v.push('\\');
        v.push('b');
    } else if c == '\u{09}' {
        v.push('\\');
        v.push('t');
    } else if c == '\u{0a}' {
        v.push('\\');
        v.push('n');
    } else if c == '\u{0c}' {
        v.push('\\');
        v.push('f');
    } else if c == '\u{0d}' {
        v.push('\\');
        v.push('r');
    } else if (c as u32) < 0x20 {
        let n = c as u32;
        v.push('\\');
        v.push('u');
        v.push('0');
        v.push('0');
        v.push(hex_digit_exec(n / 16));
        v.push(hex_digit_exec(n % 16));
    } else {
        v.push(c);
    }
    assert(v@ =~= old(v)@ + escape_char(c));
}

/// Appends the JSON string literal for `s`, quotes included.
fn push_json_string(v: &mut Vec<char>, s: &str)
    ensures
        final(v)@ == old(v)@ + json_string_lit(s@),
{
    let n = s.unicode_len();
    v.push('"');
    let mut i: usize = 0;
    while i < n
        invariant
            i <= n,
            n == s@.len(),
            v@ == old(v)@ + seq!['"'] + json_escape(s@.take(i as int)),
        decreases n - i,
    {
        let c = s.get_char(i);
        push_escaped(v, c);
        proof {
            assert(s@.take(i + 1).drop_last() =~= s@.take(i as int));
            assert(s@.take(i + 1).last() == s@[i as int]);
            assert(v@ =~= old(v)@ + seq!['"'] + json_escape(s@.take(i + 1)));
        }
        i = i + 1;
    }
    v.push('"');
    proof {
        assert(s@.take(n as int) =~= s@);
        assert(v@ =~= old(v)@ + json_string_lit(s@));
    }
}

/// Appends the characters of `s` verbatim.
fn push_str_chars(v: &mut Vec<char>, s: &str)
    ensures
        final(v)@ == old(v)@ + s@,
{
    let n = s.unicode_len();
    let mut i: usize = 0;
    while i < n
        invariant
            i <= n,
            n == s@.len(),
            v@ == old(v)@ + s@.take(i as int),
        decreases n - i,
    {
        v.push(s.get_char(i));
        proof {
            assert(v@ =~= old(v)@ + s@.take(i + 1));
        }
        i = i + 1;
    }
    proof {
        assert(s@.take(n as int) =~= s@);
    }
}

/// The JSON string literal for `s`, as a `String`.
pub fn json_string_of(s: &str) -> (r: String)
    ensures
        r@ == json_string_lit(s@),
{
    let mut v: Vec<char> = Vec::new();
    push_json_string(&mut v, s);
    proof {
        assert(v@ =~= json_string_lit(s@));
    }
    chars_to_string(&v)
}

/// A JSON array holding each of `items` as an escaped string literal.
pub fn json_array_of_strings(items: &Vec<String>) -> (r: String)
    ensures
        r@ == json_string_array(items@.map_values(|s: String| s@)),
{
    let ghost m = items@.map_values(|s: String| s@).map_values(|s: Seq<char>| json_string_lit(s));
    let mut v: Vec<char> = Vec::new();
    v.push('[');
    let mut i: usize = 0;
    while i < items.len()
        invariant
            i <= items.len(),
            m == items@.map_values(|s: String| s@).map_values(|s: Seq<char>| json_string_lit(s)),
            m.len() == items@.len(),
            v@ == seq!['['] + comma_separated(m.take(i as int)),
        decreases items.len() - i,
    {
        if i > 0 {
            v.push(',');
        }
        push_json_string(&mut v, items[i].as_str());
        proof {
            assert(m[i as int] == json_string_lit(items@[i as int]@));
            assert(m.take(i + 1).drop_last() =~= m.take(i as int));
            assert(m.take(i + 1).last() == m[i as int]);
            if i == 0 {
                assert(comma_separated(m.take(1)) == m[0]);
                assert(v@ =~= seq!['['] + comma_separated(m.take(i + 1)));
            } else {
                assert(comma_separated(m.take(i + 1))
                    == comma_separated(m.take(i as int)) + seq![','] + m[i as int]);
                assert(v@ =~= seq!['['] + comma_separated(m.take(i + 1)));
            }
        }
        i = i + 1;
    }
    v.push(']');
    proof {
        assert(m.take(items@.len() as int) =~= m);
        assert(v@ =~= json_string_array(items@.map_values(|s: String| s@)));
    }
    chars_to_string(&v)
}

/// A JSON array splicing each of `items` verbatim, for values that are
/// already encoded.
pub fn json_array_of_raw(items: &Vec<String>) -> (r: String)
    ensures
        r@ == json_raw_array(items@.map_values(|s: String| s@)),
{
    let ghost m = items@.map_values(|s: String| s@);
    let mut v: Vec<char> = Vec::new();
    v.push('[');
    let mut i: usize = 0;
    while i < items.len()
        invariant
            i <= items.len(),
            m == items@.map_values(|s: String| s@),
            m.len() == items@.len(),
            v@ == seq!['['] + comma_separated(m.take(i as int)),
        decreases items.len() - i,
    {
        if i > 0 {
            v.push(',');
        }
        push_str_chars(&mut v, items[i].as_str());
        proof {
            assert(m[i as int] == items@[i as int]@);
            assert(m.take(i + 1).drop_last() =~= m.take(i as int));
            assert(m.take(i + 1).last() == m[i as int]);
            if i == 0 {
                assert(comma_separated(m.take(1)) == m[0]);
            } else {
                assert(comma_separated(m.take(i + 1))
                    == comma_separated(m.take(i as int)) + seq![','] + m[i as int]);
            }
            assert(v@ =~= seq!['['] + comma_separated(m.take(i + 1)));
        }
        i = i + 1;
    }
    v.push(']');
    proof {
        assert(m.take(items@.len() as int) =~= m);
        assert(v@ =~= json_raw_array(items@.map_values(|s: String| s@)));
    }
    chars_to_string(&v)
}

} // verus!
