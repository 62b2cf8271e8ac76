//! Building the JSON text of the MQTT payload.
//!
//! The payload schema is small and fixed, so the serializer is the library's
//! own: a handful of functions that append decimal numbers, escaped strings
//! and `null` to a buffer, each proved to produce exactly the text that the
//! spec functions here describe.
use vstd::prelude::*;

verus! {

/// The character of one decimal digit.
pub open spec fn digit_char(d: int) -> char {
    if d == 0 {
        '0'
    } else if d == 1 {
        '1'
    } else if d == 2 {
        '2'
    } else if d == 3 {
        '3'
    } else if d == 4 {
        '4'
    } else if d == 5 {
        '5'
    } else if d == 6 {
        '6'
    } else if d == 7 {
        '7'
    } else if d == 8 {
        '8'
    } else {
        '9'
    }
}

/// The decimal digits of `n`, most significant first; empty for zero.
pub open spec fn decimal_rec(n: nat) -> Seq<char>
    decreases n,
{
    if n == 0 {
        Seq::empty()
    } else {
        decimal_rec(n / 10).push(digit_char((n % 10) as int))
    }
}

/// The decimal notation of `n`: `"0"` for zero, no leading zeroes otherwise.
pub open spec fn decimal(n: nat) -> Seq<char> {
    if n == 0 {
        seq!['0']
    } else {
        decimal_rec(n)
    }
}

/// The character of one hexadecimal digit, lower case.
pub open spec fn hex_char(d: int) -> char {
    if d < 10 {
        digit_char(d)
    } else if d == 10 {
        'a'
    } else if d == 11 {
        'b'
    } else if d == 12 {
        'c'
    } else if d == 13 {
        'd'
    } else if d == 14 {
        'e'
    } else {
        'f'
    }
}

/// How one character appears inside a JSON string literal: quote and
/// backslash are escaped, the common control characters get their short
/// escapes, the remaining control characters a `\u00..` escape, and every
/// other character stands for itself.
pub open spec fn escaped_char(c: char) -> Seq<char> {
    if c == '"' {
        seq!['\\', '"']
    } else if c == '\\' {
        seq!['\\', '\\']
    } else if c == '\n' {
        seq!['\\', 'n']
    } else if c == '\r' {
        seq!['\\', 'r']
    } else if c == '\t' {
        seq!['\\', 't']
    } else if (c as u32) < 0x20 {
        seq!['\\', 'u', '0', '0', hex_char((c as u32) as int / 16), hex_char((c as u32) as int % 16)]
    } else {
        seq![c]
    }
}

/// A whole character sequence escaped for a JSON string literal.
pub open spec fn escaped(s: Seq<char>) -> Seq<char>
    decreases s.len(),
{
    if s.len() == 0 {
        Seq::empty()
    } else {
        escaped(s.drop_last()) + escaped_char(s.last())
    }
}

/// The JSON string literal holding `s`.
pub open spec fn json_string(s: Seq<char>) -> Seq<char> {
    seq!['"'] + escaped(s) + seq!['"']
}

/// An optional counter as JSON: `null` when absent, decimal when present.
pub open spec fn json_opt_u64(v: Option<u64>) -> Seq<char> {
    match v {
        None => "null"@,
        Some(n) => decimal(n as nat),
    }
}

/// Relies on `String::push`: appends the given character at the end of the string.
#[verifier::external_body]
fn push_char(s: &mut String, c: char)
    ensures
        final(s)@ == old(s)@.push(c),
{
    s.push(c);
}

/// One decimal digit as a character.
fn digit_to_char(d: u8) -> (c: char)
    requires
        d < 10,
    ensures
        c == digit_char(d as int),
{
    if d == 0 {
        '0'
    } else if d == 1 {
        '1'
    } else if d == 2 {
        '2'
    } else if d == 3 {
        '3'
    } else if d == 4 {
        '4'
    } else if d == 5 {
        '5'
    } else if d == 6 {
        '6'
    } else if d == 7 {
        '7'
    } else if d == 8 {
        '8'
    } else {
        '9'
    }
}

/// One hexadecimal digit as a character.
fn hex_to_char(d: u8) -> (c: char)
    requires
        d < 16,
    ensures
        c == hex_char(d as int),
{
    if d < 10 {
        digit_to_char(d)
    } else if d == 10 {
        'a'
    } else if d == 11 {
        'b'
    } else if d == 12 {
        'c'
    } else if d == 13 {
        'd'
    } else if d == 14 {
        'e'
    } else {
        'f'
    }
}

/// Appends the digits of a positive number, most significant first.
fn push_decimal_rec(s: &mut String, n: u64)
    ensures
        final(s)@ == old(s)@ + decimal_rec(n as nat),
    decreases n,
{
    if n > 0 {
        push_decimal_rec(s, n / 10);
        let c = digit_to_char((n % 10) as u8);
        push_char(s, c);
        proof {
            assert(s@ =~= old(s)@ + decimal_rec(n as nat));
        }
    } else {
        proof {
            assert(old(s)@ + decimal_rec(0nat) =~= old(s)@);
        }
    }
}

/// Appends the decimal notation of `n`.
pub fn push_u64(s: &mut String, n: u64)
    ensures
        final(s)@ == old(s)@ + decimal(n as nat),
{
    if n == 0 {
        push_char(s, '0');
        proof {
            assert(old(s)@.push('0') =~= old(s)@ + decimal(0nat));
        }
    } else {
        push_decimal_rec(s, n);
    }
}

/// Appends `t` escaped for the inside of a JSON string literal.
pub fn push_escaped(s: &mut String, t: &str)
    ensures
        final(s)@ == old(s)@ + escaped(t@),
{
    let ghost orig: Seq<char> = s@;
    let len = t.unicode_len();
    let mut i: usize = 0;
    while i < len
        invariant
            i <= len,
            len == t@.len(),
            s@ == orig + escaped(t@.take(i as int)),
        decreases len - i,
    {
        let ghost before: Seq<char> = s@;
        let c = t.get_char(i);
        if c == '"' {
            push_char(s, '\\');
            push_char(s, '"');
        } else if c == '\\' {
            push_char(s, '\\');
            push_char(s, '\\');
        } else if c == '\n' {
            push_char(s, '\\');
            push_char(s, 'n');
        } else if c == '\r' {
            push_char(s, '\\');
            push_char(s, 'r');
        } else if c == '\t' {
            push_char(s, '\\');
            push_char(s, 't');
        } else if (c as u32) < 0x20 {
            push_char(s, '\\');
            push_char(s, 'u');
            push_char(s, '0');
            push_char(s, '0');
            let code = c as u32;
            push_char(s, hex_to_char((code / 16) as u8));
            push_char(s, hex_to_char((code % 16) as u8));
        } else {
            push_char(s, c);
        }
        proof {
            assert(s@ =~= before + escaped_char(c));
            assert(t@.take(i + 1).drop_last() =~= t@.take(i as int));
            assert(t@.take(i + 1).last() == c);
            assert(s@ =~= orig + escaped(t@.take(i + 1)));
        }
        i = i + 1;
    }
    proof {
        assert(t@.take(len as int) =~= t@);
    }
}

/// Appends the JSON string literal holding `t`.
pub fn push_json_string(s: &mut String, t: &str)
    ensures
        final(s)@ == old(s)@ + json_string(t@),
{
    let ghost orig: Seq<char> = s@;
    push_char(s, '"');
    push_escaped(s, t);
    push_char(s, '"');
    proof {
        assert(s@ =~= orig + json_string(t@));
    }
}

/// Appends an optional counter: `null` when absent, its decimal notation when
/// present.
pub fn push_json_opt_u64(s: &mut String, v: Option<u64>)
    ensures
        final(s)@ == old(s)@ + json_opt_u64(v),
{
    match v {
        None => {
            s.append("null");
        },
        Some(n) => {
            push_u64(s, n);
        },
    }
}

} // verus!
