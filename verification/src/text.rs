//! Byte-level building blocks for the line codec: JSON string escaping,
//! decimal rendering of ids, and append helpers over byte vectors.

use vstd::prelude::*;

verus! {

use vstd::string::StringSliceAdditionalSpecFns;

/// The UTF-8 bytes of a string value.
pub open spec fn utf8_bytes(s: Seq<char>) -> Seq<u8> {
    vstd::utf8::encode_utf8(s)
}

/// ASCII whitespace, as the protocol treats inbound lines: space, the
/// horizontal and vertical tabs, line feed, carriage return and form feed.
pub open spec fn is_ws(b: u8) -> bool {
    b == 32 || b == 9 || b == 10 || b == 11 || b == 12 || b == 13
}

/// A line is blank when every byte of it is whitespace.
pub open spec fn is_blank_bytes(s: Seq<u8>) -> bool {
    forall|i: int| 0 <= i < s.len() ==> is_ws(#[trigger] s[i])
}

/// Lower-case hexadecimal digit for a value below 16.
pub open spec fn hex_digit(n: u8) -> u8 {
    if n < 10 {
        (48 + n) as u8
    } else {
        (87 + n) as u8
    }
}

/// How one byte of a string is written inside a JSON string literal:
/// quote and backslash get a backslash escape, the named control characters
/// get their short escapes, any other control character becomes `\u00XX`,
/// and everything else (including multi-byte UTF-8) passes through.
pub open spec fn esc_byte(b: u8) -> Seq<u8> {
    if b == 34 {
        seq![92u8, 34u8]
    } else if b == 92 {
        seq![92u8, 92u8]
    } else if b == 8 {
        seq![92u8, 98u8]
    } else if b == 9 {
        seq![92u8, 116u8]
    } else if b == 10 {
        seq![92u8, 110u8]
    } else if b == 12 {
        seq![92u8, 102u8]
    } else if b == 13 {
        seq![92u8, 114u8]
    } else if b < 32 {
        seq![92u8, 117u8, 48u8, 48u8, hex_digit(b / 16), hex_digit(b % 16)]
    } else {
        seq![b]
    }
}

/// The JSON escaping of a whole byte string.
pub open spec fn escape_bytes(s: Seq<u8>) -> Seq<u8>
    decreases s.len(),
{
    if s.len() == 0 {
        Seq::empty()
    } else {
        esc_byte(s[0]) + escape_bytes(s.skip(1))
    }
}

/// Escaping distributes over concatenation.
pub proof fn lemma_escape_bytes_concat(a: Seq<u8>, b: Seq<u8>)
    ensures
        escape_bytes(a + b) == escape_bytes(a) + escape_bytes(b),
    decreases a.len(),
{
    if a.len() == 0 {
        assert(a + b =~= b);
        assert(escape_bytes(a) + escape_bytes(b) =~= escape_bytes(b));
    } else {
        lemma_escape_bytes_concat(a.skip(1), b);
        assert((a + b).skip(1) =~= a.skip(1) + b);
        assert(escape_bytes(a + b) =~= escape_bytes(a) + escape_bytes(b));
    }
}

fn hex_digit_exec(n: u8) -> (r: u8)
    requires
        n < 16,
    ensures
        r == hex_digit(n),
{
    if n < 10 {
        48 + n
    } else {
        87 + n
    }
}

/// Appends the JSON escaping of `s` to `out`.
pub fn append_escaped(out: &mut Vec<u8>, s: &Vec<u8>)
    ensures
        final(out)@ == old(out)@ + escape_bytes(s@),
{
    let ghost base: Seq<u8> = out@;
    let mut i: usize = 0;
    while i < s.len()
        invariant
            i <= s.len(),
            out@ == base + escape_bytes(s@.take(i as int)),
        decreases s.len() - i,
    {
        let b = s[i];
        if b == 34 {
            out.push(92);
            out.push(34);
        } else if b == 92 {
            out.push(92);
            out.push(92);
        } else if b == 8 {
            out.push(92);
            out.push(98);
        } else if b == 9 {
            out.push(92);
            out.push(116);
        } else if b == 10 {
            out.push(92);
            out.push(110);
        } else if b == 12 {
            out.push(92);
            out.push(102);
        } else if b == 13 {
            out.push(92);
            out.push(114);
        } else if b < 32 {
            out.push(92);
            out.push(117);
            out.push(48);
            out.push(48);
            out.push(hex_digit_exec(b / 16));
            out.push(hex_digit_exec(b % 16));
        } else {
            out.push(b);
        }
        proof {
            let x = s@[i as int];
            lemma_escape_bytes_concat(s@.take(i as int), seq![x]);
            assert(s@.take(i as int) + seq![x] =~= s@.take(i + 1 as int));
            assert(seq![x].skip(1) =~= Seq::<u8>::empty());
            assert(escape_bytes(seq![x]) =~= esc_byte(x) + escape_bytes(seq![x].skip(1)));
            assert(escape_bytes(seq![x]) =~= esc_byte(x));
            assert(out@ =~= base + escape_bytes(s@.take(i + 1 as int)));
        }
        i = i + 1;
    }
    proof {
        assert(s@.take(s@.len() as int) =~= s@);
    }
}

/// The decimal digits of a number, most significant first.
pub open spec fn dec_digits(n: nat) -> Seq<u8>
    decreases n,
{
    if n < 10 {
        seq![(48 + n) as u8]
    } else {
        dec_digits(n / 10).push((48 + n % 10) as u8)
    }
}

/// Appends the decimal rendering of `n` to `out`.
pub fn append_dec(out: &mut Vec<u8>, n: u64)
    ensures
        final(out)@ == old(out)@ + dec_digits(n as nat),
    decreases n,
{
    if n < 10 {
        out.push(48 + n as u8);
        proof {
            assert(old(out)@.push((48 + n as nat) as u8) =~= old(out)@ + dec_digits(n as nat));
        }
    } else {
        append_dec(out, n / 10);
        out.push(48 + (n % 10) as u8);
        proof {
            assert((old(out)@ + dec_digits((n / 10) as nat)).push((48 + (n as nat) % 10) as u8)
                =~= old(out)@ + dec_digits(n as nat));
        }
    }
}

/// Appends the UTF-8 bytes of a string slice to `out`.
pub fn append_str(out: &mut Vec<u8>, s: &str)
    ensures
        final(out)@ == old(out)@ + s.spec_bytes(),
{
    out.extend_from_slice(s.as_bytes());
}

/// Appends one byte vector to another.
pub fn append_bytes(out: &mut Vec<u8>, s: &Vec<u8>)
    ensures
        final(out)@ == old(out)@ + s@,
{
    out.extend_from_slice(s.as_slice());
}

/// Whether every byte of `s` is whitespace.
pub fn blank_bytes(s: &Vec<u8>) -> (r: bool)
    ensures
        r == is_blank_bytes(s@),
{
    let mut i: usize = 0;
    while i < s.len()
        invariant
            i <= s.len(),
            forall|j: int| 0 <= j < i ==> is_ws(#[trigger] s@[j]),
        decreases s.len() - i,
    {
        let b = s[i];
        if !(b == 32 || b == 9 || b == 10 || b == 11 || b == 12 || b == 13) {
            return false;
        }
        i = i + 1;
    }
    true
}

} // verus!
