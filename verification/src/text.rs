//! Verified text formatting: decimal numbers, the hyphenated hexadecimal
//! form of an operation id, and JSON string escaping.  These feed the
//! JSON stats report of the tracker.

use vstd::prelude::*;

verus! {

/// The character for one hexadecimal digit (lower case).
pub open spec fn hex_char(d: u8) -> char
    recommends
        d < 16,
{
    if d < 10 {
        ((d + 48) as u8) as char
    } else {
        ((d + 87) as u8) as char
    }
}

/// Appends the single character of a hexadecimal digit.
pub fn append_hex_digit(s: &mut String, d: u8)
    requires
        d < 16,
    ensures
        final(s)@ == old(s)@.push(hex_char(d)),
{
    proof {
        reveal_strlit("0");
        reveal_strlit("1");
        reveal_strlit("2");
        reveal_strlit("3");
        reveal_strlit("4");
        reveal_strlit("5");
        reveal_strlit("6");
        reveal_strlit("7");
        reveal_strlit("8");
        reveal_strlit("9");
        reveal_strlit("a");
        reveal_strlit("b");
        reveal_strlit("c");
        reveal_strlit("d");
        reveal_strlit("e");
        reveal_strlit("f");
    }
    match d {
        0 => s.append("0"),
        1 => s.append("1"),
        2 => s.append("2"),
        3 => s.append("3"),
        4 => s.append("4"),
        5 => s.append("5"),
        6 => s.append("6"),
        7 => s.append("7"),
        8 => s.append("8"),
        9 => s.append("9"),
        10 => s.append("a"),
        11 => s.append("b"),
        12 => s.append("c"),
        13 => s.append("d"),
        14 => s.append("e"),
        _ => s.append("f"),
    }
    proof {
        assert(final(s)@ =~= old(s)@.push(hex_char(d)));
    }
}

/// The decimal digits of `n`, most significant first.
pub open spec fn dec_chars(n: nat) -> Seq<char>
    decreases n,
{
    if n < 10 {
        seq![hex_char(n as u8)]
    } else {
        dec_chars(n / 10).push(hex_char((n % 10) as u8))
    }
}

/// Appends the decimal form of `n`.
pub fn append_dec(s: &mut String, n: u64)
    ensures
        final(s)@ == old(s)@ + dec_chars(n as nat),
    decreases n,
{
    if n >= 10 {
        append_dec(s, n / 10);
        append_hex_digit(s, (n % 10) as u8);
        proof {
            assert(final(s)@ =~= old(s)@ + dec_chars(n as nat));
        }
    } else {
        append_hex_digit(s, n as u8);
        proof {
            assert(final(s)@ =~= old(s)@ + dec_chars(n as nat));
        }
    }
}

/// The decimal form of `n` as a fresh string.
pub fn dec_string(n: u64) -> (r: String)
    ensures
        r@ == dec_chars(n as nat),
{
    let mut s = String::new();
    append_dec(&mut s, n);
    proof {
        assert(s@ =~= dec_chars(n as nat));
    }
    s
}

/// Nibble `i` (0 = most significant) of a 128-bit value.
pub open spec fn nibble(v: u128, i: int) -> u8
    recommends
        0 <= i < 32,
{
    ((v >> (((31 - i) * 4) as u128)) & 0xf) as u8
}

/// The 32 hexadecimal digits of `v`, most significant first.
pub open spec fn hex32(v: u128) -> Seq<char> {
    Seq::new(32, |i| hex_char(nibble(v, i)))
}

/// The hyphenated textual form of an operation id: five groups of
/// hexadecimal digits of lengths 8, 4, 4, 4 and 12.
pub open spec fn uuid_chars(v: u128) -> Seq<char> {
    hex32(v).subrange(0, 8) + seq!['-'] + hex32(v).subrange(8, 12) + seq!['-'] + hex32(v).subrange(
        12,
        16,
    ) + seq!['-'] + hex32(v).subrange(16, 20) + seq!['-'] + hex32(v).subrange(20, 32)
}

/// Appends nibbles `from..to` of `v` in hexadecimal.
fn append_hex_range(s: &mut String, v: u128, from: usize, to: usize)
    requires
        from <= to <= 32,
    ensures
        final(s)@ == old(s)@ + hex32(v).subrange(from as int, to as int),
{
    let mut i: usize = from;
    while i < to
        invariant
            from <= i <= to <= 32,
            s@ == old(s)@ + hex32(v).subrange(from as int, i as int),
        decreases to - i,
    {
        let sh: u128 = ((31 - i) * 4) as u128;
        proof {
            assert((v >> sh) & 0xf < 16) by (bit_vector);
        }
        let d: u8 = ((v >> sh) & 0xf) as u8;
        proof {
            assert(d == nibble(v, i as int));
        }
        append_hex_digit(s, d);
        i = i + 1;
        proof {
            assert(s@ =~= old(s)@ + hex32(v).subrange(from as int, i as int));
        }
    }
}

/// The hyphenated textual form of the id `v`.
pub fn uuid_string(v: u128) -> (r: String)
    ensures
        r@ == uuid_chars(v),
{
    proof {
        reveal_strlit("-");
    }
    let mut s = String::new();
    append_hex_range(&mut s, v, 0, 8);
    s.append("-");
    append_hex_range(&mut s, v, 8, 12);
    s.append("-");
    append_hex_range(&mut s, v, 12, 16);
    s.append("-");
    append_hex_range(&mut s, v, 16, 20);
    s.append("-");
    append_hex_range(&mut s, v, 20, 32);
    proof {
        assert(s@ =~= uuid_chars(v));
    }
    s
}

/// How one character is written inside a JSON string literal, following
/// the convention of common JSON serializers: quote and backslash get a
/// backslash escape, control characters get a short escape where one
/// exists and a `\u00..` escape otherwise, and all other characters
/// stand as themselves.
pub open spec fn json_escape_char(c: char) -> Seq<char> {
    if c == '"' {
        seq!['\\', '"']
    } else if c == '\\' {
        seq!['\\', '\\']
    } else if c == '\n' {
        seq!['\\', 'n']
    } else if c == '\r' {
        seq!['\\', 'r']
    } else if c == '\t' {
        seq!['\\', 't']
    } else if c == '\u{8}' {
        seq!['\\', 'b']
    } else if c == '\u{c}' {
        seq!['\\', 'f']
    } else if (c as u32) < 32 {
        seq!['\\', 'u', '0', '0'].push(hex_char(((c as u32) / 16) as u8)).push(
            hex_char(((c as u32) % 16) as u8),
        )
    } else {
        seq![c]
    }
}

/// The body of a JSON string literal for the text `s` (without the
/// surrounding quotes).
pub open spec fn json_escaped(s: Seq<char>) -> Seq<char>
    decreases s.len(),
{
    if s.len() == 0 {
        Seq::empty()
    } else {
        json_escaped(s.drop_last()) + json_escape_char(s.last())
    }
}

/// Appends the escaped form of one character.
fn append_json_char(out: &mut String, src: &str, i: usize)
    requires
        i < src@.len() <= usize::MAX,
    ensures
        final(out)@ == old(out)@ + json_escape_char(src@[i as int]),
{
    proof {
        reveal_strlit("\\\"");
        reveal_strlit("\\\\");
        reveal_strlit("\\n");
        reveal_strlit("\\r");
        reveal_strlit("\\t");
        reveal_strlit("\\b");
        reveal_strlit("\\f");
        reveal_strlit("\\u00");
    }
    let c = src.get_char(i);
    if c == '"' {
        out.append("\\\"");
    } else if c == '\\' {
        out.append("\\\\");
    } else if c == '\n' {
        out.append("\\n");
    } else if c == '\r' {
        out.append("\\r");
    } else if c == '\t' {
        out.append("\\t");
    } else if c == '\u{8}' {
        out.append("\\b");
    } else if c == '\u{c}' {
        out.append("\\f");
    } else if (c as u32) < 32 {
        out.append("\\u00");
        let code: u32 = c as u32;
        append_hex_digit(out, (code / 16) as u8);
        append_hex_digit(out, (code % 16) as u8);
    } else {
        let one = src.substring_char(i, i + 1);
        out.append(one);
        proof {
            assert(one@ =~= seq![src@[i as int]]);
        }
    }
    proof {
        assert(final(out)@ =~= old(out)@ + json_escape_char(src@[i as int]));
    }
}

/// Appends the escaped body of a JSON string literal for `src`.
pub fn append_json_escaped(out: &mut String, src: &str)
    ensures
        final(out)@ == old(out)@ + json_escaped(src@),
{
    let n = src.unicode_len();
    let mut i: usize = 0;
    while i < n
        invariant
            0 <= i <= n == src@.len(),
            out@ == old(out)@ + json_escaped(src@.subrange(0, i as int)),
        decreases n - i,
    {
        append_json_char(out, src, i);
        i = i + 1;
        proof {
            assert(src@.subrange(0, i as int).drop_last() =~= src@.subrange(0, i as int - 1));
            assert(out@ =~= old(out)@ + json_escaped(src@.subrange(0, i as int)));
        }
    }
    proof {
        assert(src@.subrange(0, src@.len() as int) =~= src@);
    }
}

} // verus!
