//! Little-endian integer reads and NUL-terminated string scans over a raw
//! byte buffer, with exact specifications.

use vstd::prelude::*;

verus! {

/// Little-endian 16-bit value stored at `off`.
pub open spec fn le16(b: Seq<u8>, off: int) -> int {
    b[off] + 0x100 * b[off + 1]
}

/// Little-endian 32-bit value stored at `off`.
pub open spec fn le32(b: Seq<u8>, off: int) -> int {
    b[off] + 0x100 * b[off + 1] + 0x1_0000 * b[off + 2] + 0x100_0000 * b[off + 3]
}

/// Little-endian 64-bit value stored at `off`.
pub open spec fn le64(b: Seq<u8>, off: int) -> int {
    le32(b, off) + 0x1_0000_0000 * le32(b, off + 4)
}

pub fn read_u16(b: &Vec<u8>, off: usize) -> (r: u16)
    requires
        off + 2 <= b@.len(),
    ensures
        r == le16(b@, off as int),
{
    let n = b.len();
    let b0 = b[off];
    let b1 = b[off + 1];
    (b0 as u16) + 0x100 * (b1 as u16)
}

pub fn read_u32(b: &Vec<u8>, off: usize) -> (r: u32)
    requires
        off + 4 <= b@.len(),
    ensures
        r == le32(b@, off as int),
{
    let n = b.len();
    let b0 = b[off];
    let b1 = b[off + 1];
    let b2 = b[off + 2];
    let b3 = b[off + 3];
    (b0 as u32) + 0x100 * (b1 as u32) + 0x1_0000 * (b2 as u32) + 0x100_0000 * (b3 as u32)
}

pub fn read_u64(b: &Vec<u8>, off: usize) -> (r: u64)
    requires
        off + 8 <= b@.len(),
    ensures
        r == le64(b@, off as int),
{
    let n = b.len();
    let lo = read_u32(b, off);
    let hi = read_u32(b, off + 4);
    (lo as u64) + 0x1_0000_0000 * (hi as u64)
}

/// Position of the first NUL byte in `[off, limit)`, or -1 when the
/// string is unterminated inside that window.
pub open spec fn cstr_end(b: Seq<u8>, off: int, limit: int) -> int
    decreases limit - off,
{
    if off < 0 || off >= limit {
        -1
    } else if b[off] == 0 {
        off
    } else {
        cstr_end(b, off + 1, limit)
    }
}

/// Every byte of `s` is ASCII.
pub open spec fn ascii_ok(s: Seq<u8>) -> bool {
    forall|i: int| 0 <= i < s.len() ==> s[i] < 0x80
}

/// The characters spelled by a sequence of ASCII bytes.
pub open spec fn chars_of(s: Seq<u8>) -> Seq<char> {
    s.map_values(|c: u8| c as char)
}

/// Scan `[off, limit)` for a NUL terminator.
pub fn find_nul(b: &Vec<u8>, off: u64, limit: u64) -> (r: Option<u64>)
    requires
        limit <= b@.len(),
    ensures
        r is Some <==> cstr_end(b@, off as int, limit as int) != -1,
        r is Some ==> off <= r->0 < limit && r->0 == cstr_end(b@, off as int, limit as int),
{
    let n = b.len();
    let mut j = off;
    while j < limit
        invariant
            n == b@.len(),
            limit <= n as u64,
            off <= j,
            cstr_end(b@, off as int, limit as int) == cstr_end(b@, j as int, limit as int),
        decreases limit - j,
    {
        if b[j as usize] == 0 {
            return Some(j);
        }
        proof {
            assert(cstr_end(b@, j as int, limit as int) == cstr_end(b@, j + 1, limit as int));
        }
        j = j + 1;
    }
    None
}

/// Copy the bytes of `[off, end)` out of the buffer.
pub fn collect_bytes(b: &Vec<u8>, off: u64, end: u64) -> (v: Vec<u8>)
    requires
        off <= end <= b@.len(),
    ensures
        v@ == b@.subrange(off as int, end as int),
{
    let n = b.len();
    let mut v: Vec<u8> = Vec::new();
    let mut j = off;
    while j < end
        invariant
            n == b@.len(),
            end <= n as u64,
            off <= j <= end,
            v@ == b@.subrange(off as int, j as int),
        decreases end - j,
    {
        v.push(b[j as usize]);
        proof {
            assert(v@ =~= b@.subrange(off as int, j + 1));
        }
        j = j + 1;
    }
    v
}

/// Do all bytes stay in the ASCII range?
pub fn is_ascii_bytes(v: &Vec<u8>) -> (r: bool)
    ensures
        r == ascii_ok(v@),
{
    let n = v.len();
    let mut j: usize = 0;
    while j < n
        invariant
            n == v@.len(),
            0 <= j <= n,
            forall|i: int| 0 <= i < j ==> v@[i] < 0x80,
        decreases n - j,
    {
        if v[j] >= 0x80 {
            return false;
        }
        j = j + 1;
    }
    true
}

/// Relies on alloc's `String::from_utf8`: ASCII bytes are valid UTF-8 and
/// decode to exactly those characters, one per byte.
#[verifier::external_body]
pub(crate) fn ascii_to_string(bytes: Vec<u8>) -> (r: String)
    requires
        ascii_ok(bytes@),
    ensures
        r@ == chars_of(bytes@),
{
    String::from_utf8(bytes).unwrap_or_default()
}

} // verus!
