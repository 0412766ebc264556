//! JSON string escaping for the serialized request body. Quotes and
//! backslashes get a backslash escape; control characters are written as
//! `\u00XX`; every other character passes through unchanged.

use crate::text::push_char;
use vstd::prelude::*;

verus! {

/// The lowercase hexadecimal character for one digit.
pub open spec fn hex_char(d: int) -> char {
    if d < 10 {
        (48 + d) as char
    } else {
        (87 + d) as char
    }
}

/// The escape sequence a character contributes inside a JSON string
/// literal.
pub open spec fn esc_char(c: char) -> Seq<char> {
    if c == '"' {
        seq!['\\', '"']
    } else if c == '\\' {
        seq!['\\', '\\']
    } else if (c as u32) < 32 {
        seq!['\\', 'u', '0', '0', hex_char((c as u32) as int / 16), hex_char((c as u32) as int % 16)]
    } else {
        seq![c]
    }
}

/// The body of a JSON string literal for `s`: each character's escape
/// sequence, in order.
pub open spec fn esc(s: Seq<char>) -> Seq<char>
    decreases s.len(),
{
    if s.len() == 0 {
        Seq::empty()
    } else {
        esc(s.drop_last()) + esc_char(s.last())
    }
}

/// The lowercase hexadecimal character for one digit, as executable code.
fn hex_of(d: u32) -> (r: char)
    requires
        d < 16,
    ensures
        r == hex_char(d as int),
{
    if d < 10 {
        (48 + (d as u8)) as char
    } else {
        (87 + (d as u8)) as char
    }
}

/// Appends the escape sequence of one character to `out`.
fn push_escaped_char(out: &mut String, c: char)
    ensures
        final(out)@ == old(out)@ + esc_char(c),
{
    if c == '"' {
        push_char(out, '\\');
        push_char(out, '"');
        proof {
            assert(old(out)@ + esc_char(c) =~= old(out)@.push('\\').push('"'));
        }
    } else if c == '\\' {
        push_char(out, '\\');
        push_char(out, '\\');
        proof {
            assert(old(out)@ + esc_char(c) =~= old(out)@.push('\\').push('\\'));
        }
    } else if (c as u32) < 32 {
        let u = c as u32;
        push_char(out, '\\');
        push_char(out, 'u');
        push_char(out, '0');
        push_char(out, '0');
        push_char(out, hex_of(u / 16));
        push_char(out, hex_of(u % 16));
        proof {
            assert(old(out)@ + esc_char(c) =~= old(out)@.push('\\').push('u').push('0').push(
                '0',
            ).push(hex_char((c as u32) as int / 16)).push(hex_char((c as u32) as int % 16)));
        }
    } else {
        push_char(out, c);
        proof {
            assert(old(out)@ + esc_char(c) =~= old(out)@.push(c));
        }
    }
}

/// Appends the escaped form of a whole string to `out`.
pub fn append_escaped(out: &mut String, s: &String)
    ensures
        final(out)@ == old(out)@ + esc(s@),
{
    let n = s.as_str().unicode_len();
    let mut i: usize = 0;
    proof {
        assert(old(out)@ + esc(s@.take(0)) =~= old(out)@);
    }
    while i < n
        invariant
            n == s@.len(),
            0 <= i <= n,
            out@ == old(out)@ + esc(s@.take(i as int)),
        decreases n - i,
    {
        let c = s.as_str().get_char(i);
        push_escaped_char(out, c);
        proof {
            assert(s@.take((i + 1) as int).drop_last() =~= s@.take(i as int));
            assert(s@.take((i + 1) as int).last() == s@[i as int]);
            assert(old(out)@ + esc(s@.take((i + 1) as int)) =~= (old(out)@ + esc(
                s@.take(i as int),
            )) + esc_char(s@[i as int]));
        }
        i = i + 1;
    }
    proof {
        assert(s@.take(n as int) =~= s@);
    }
}

} // verus!
