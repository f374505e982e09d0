//! Lowercase hexadecimal rendering: digest bytes to hex text, and the
//! fixed-width `0x`-prefixed form of a 64-bit virtual address.

use vstd::prelude::*;

use crate::bytes::{ascii_ok, ascii_to_string, chars_of};

verus! {

/// The lowercase hex digit of a value below 16.
pub open spec fn hex_digit(v: int) -> char {
    if v < 10 {
        ((0x30 + v) as u8) as char
    } else {
        ((0x57 + v) as u8) as char
    }
}

/// Hex expansion of a byte sequence, two digits per byte.
pub open spec fn hex_of(s: Seq<u8>) -> Seq<char>
    decreases s.len(),
{
    if s.len() == 0 {
        Seq::empty()
    } else {
        hex_of(s.drop_last()) + seq![
            hex_digit((s.last() / 16) as int),
            hex_digit((s.last() % 16) as int),
        ]
    }
}

/// The last `n` hex digits of `v`, most significant first.
pub open spec fn nibbles(v: int, n: nat) -> Seq<char>
    decreases n,
{
    if n == 0 {
        Seq::empty()
    } else {
        nibbles(v / 16, (n - 1) as nat) + seq![hex_digit(v % 16)]
    }
}

/// The fixed-width, zero-padded, `0x`-prefixed hex text of an address.
pub open spec fn va_hex_chars(v: u64) -> Seq<char> {
    seq!['0', 'x'] + nibbles(v as int, 16)
}

/// Hex text is twice as long as the bytes it spells.
pub proof fn lemma_hex_len(s: Seq<u8>)
    ensures
        hex_of(s).len() == 2 * s.len(),
    decreases s.len(),
{
    if s.len() > 0 {
        lemma_hex_len(s.drop_last());
    }
}

/// The byte spelling one hex digit.
fn hex_digit_byte(v: u8) -> (r: u8)
    requires
        v < 16,
    ensures
        r as char == hex_digit(v as int),
        r < 0x80,
{
    if v < 10 {
        0x30 + v
    } else {
        0x57 + v
    }
}

/// Render digest bytes as lowercase hex text.
pub fn bytes_to_hex(d: &Vec<u8>) -> (r: String)
    ensures
        r@ == hex_of(d@),
        r@.len() == 2 * d@.len(),
{
    let n = d.len();
    let mut out: Vec<u8> = Vec::new();
    let mut j: usize = 0;
    while j < n
        invariant
            n == d@.len(),
            0 <= j <= n,
            ascii_ok(out@),
            chars_of(out@) == hex_of(d@.take(j as int)),
        decreases n - j,
    {
        let hi = hex_digit_byte(d[j] / 16);
        let lo = hex_digit_byte(d[j] % 16);
        let ghost prev = out@;
        out.push(hi);
        out.push(lo);
        proof {
            assert(d@.take(j + 1).drop_last() =~= d@.take(j as int));
            assert(d@.take(j + 1).last() == d@[j as int]);
            assert(chars_of(out@) =~= chars_of(prev) + seq![hi as char, lo as char]);
            assert(chars_of(out@) =~= hex_of(d@.take(j + 1)));
        }
        j = j + 1;
    }
    proof {
        assert(d@.take(n as int) =~= d@);
        lemma_hex_len(d@);
    }
    ascii_to_string(out)
}

/// Append the last `n` hex digits of `v`, most significant first.
fn push_nibbles(out: &mut Vec<u8>, v: u64, n: usize)
    requires
        ascii_ok(old(out)@),
    ensures
        ascii_ok(final(out)@),
        chars_of(final(out)@) == chars_of(old(out)@) + nibbles(v as int, n as nat),
    decreases n,
{
    if n == 0 {
        proof {
            assert(chars_of(out@) =~= chars_of(out@) + nibbles(v as int, 0));
        }
    } else {
        push_nibbles(out, v / 16, n - 1);
        let ghost mid = out@;
        let d = hex_digit_byte((v % 16) as u8);
        out.push(d);
        proof {
            assert(chars_of(out@) =~= chars_of(mid) + seq![d as char]);
            assert(chars_of(out@) =~= chars_of(old(out)@) + nibbles(v as int, n as nat));
        }
    }
}

/// Render a 64-bit virtual address as fixed-width `0x`-prefixed hex text.
pub fn va_hex(v: u64) -> (r: String)
    ensures
        r@ == va_hex_chars(v),
{
    let mut out: Vec<u8> = Vec::new();
    out.push(0x30);
    out.push(0x78);
    proof {
        assert(chars_of(out@) =~= seq!['0', 'x']);
    }
    push_nibbles(&mut out, v, 16);
    ascii_to_string(out)
}

} // verus!
