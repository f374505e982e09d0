//! PE image header validation and RVA resolution.
//!
//! A driver image is accepted only when it carries the DOS magic, the PE
//! signature, a 64-bit optional header large enough for the standard fields,
//! and a section table that fits inside the buffer. Every offset that is
//! later read is bounds-checked against the actual buffer length.

use vstd::prelude::*;

use crate::bytes::{le16, le32, read_u16, read_u32};
use crate::report::ReportError;

verus! {

/// Optional-header subsystem code of native (kernel-mode) images.
pub const IMAGE_SUBSYSTEM_NATIVE: u16 = 1;

/// PE32+ optional-header magic.
pub const OPT_MAGIC_PE64: u16 = 0x20b;

/// Offset of the PE signature, read from the DOS header.
pub open spec fn spec_lfanew(b: Seq<u8>) -> int {
    le32(b, 0x3c)
}

/// Offset of the optional header (PE signature + file header are 24 bytes).
pub open spec fn spec_opt_off(b: Seq<u8>) -> int {
    spec_lfanew(b) + 24
}

/// Machine field of the file header.
pub open spec fn spec_machine(b: Seq<u8>) -> int {
    le16(b, spec_lfanew(b) + 4)
}

/// Number of entries of the section table.
pub open spec fn spec_num_sections(b: Seq<u8>) -> int {
    le16(b, spec_lfanew(b) + 6)
}

/// Declared size of the optional header.
pub open spec fn spec_opt_size(b: Seq<u8>) -> int {
    le16(b, spec_lfanew(b) + 20)
}

/// Subsystem field of the optional header.
pub open spec fn spec_subsystem(b: Seq<u8>) -> int {
    le16(b, spec_opt_off(b) + 68)
}

/// Number of data directories of the optional header.
pub open spec fn spec_num_dirs(b: Seq<u8>) -> int {
    le32(b, spec_opt_off(b) + 108)
}

/// RVA of the import data directory (the second directory entry).
pub open spec fn spec_import_rva(b: Seq<u8>) -> int {
    le32(b, spec_opt_off(b) + 120)
}

/// Declared size of the import data directory.
pub open spec fn spec_import_size(b: Seq<u8>) -> int {
    le32(b, spec_opt_off(b) + 124)
}

/// Offset of the section table.
pub open spec fn spec_sect_off(b: Seq<u8>) -> int {
    spec_opt_off(b) + spec_opt_size(b)
}

/// A well-formed 64-bit native-image header: DOS magic, PE signature,
/// PE32+ optional header holding at least the standard fields, and a
/// section table lying entirely inside the buffer.
pub open spec fn valid_pe(b: Seq<u8>) -> bool {
    &&& b.len() >= 0x40
    &&& le16(b, 0) == 0x5a4d
    &&& spec_lfanew(b) + 136 <= b.len()
    &&& le32(b, spec_lfanew(b)) == 0x4550
    &&& le16(b, spec_opt_off(b)) == OPT_MAGIC_PE64
    &&& spec_opt_size(b) >= 112
    &&& spec_sect_off(b) + 40 * spec_num_sections(b) <= b.len()
}

/// The import directory entry exists and is non-empty.
pub open spec fn import_dir_present(b: Seq<u8>) -> bool {
    &&& spec_num_dirs(b) >= 2
    &&& spec_opt_size(b) >= 128
    &&& spec_import_rva(b) != 0
}

/// Virtual address of section `i`.
pub open spec fn sect_va(b: Seq<u8>, i: int) -> int {
    le32(b, spec_sect_off(b) + 40 * i + 12)
}

/// Size of the raw data of section `i`.
pub open spec fn sect_rsz(b: Seq<u8>, i: int) -> int {
    le32(b, spec_sect_off(b) + 40 * i + 16)
}

/// File offset of the raw data of section `i`.
pub open spec fn sect_rptr(b: Seq<u8>, i: int) -> int {
    le32(b, spec_sect_off(b) + 40 * i + 20)
}

/// Section `i` covers `rva` in its raw data.
pub open spec fn sect_contains(b: Seq<u8>, i: int, rva: int) -> bool {
    sect_va(b, i) <= rva < sect_va(b, i) + sect_rsz(b, i)
}

/// Index of the first section at or after `i` that covers `rva`, or -1.
pub open spec fn find_sect_from(b: Seq<u8>, rva: int, i: int) -> int
    decreases spec_num_sections(b) - i,
{
    if i < 0 || i >= spec_num_sections(b) {
        -1
    } else if sect_contains(b, i, rva) {
        i
    } else {
        find_sect_from(b, rva, i + 1)
    }
}

/// Index of the first section that covers `rva`, or -1 if none does.
pub open spec fn find_sect(b: Seq<u8>, rva: int) -> int {
    find_sect_from(b, rva, 0)
}

/// File offset that `rva` resolves to, meaningful when a section covers it.
pub open spec fn res_off(b: Seq<u8>, rva: int) -> int {
    sect_rptr(b, find_sect(b, rva)) + rva - sect_va(b, find_sect(b, rva))
}

/// One-past-the-end file offset readable from the section covering `rva`:
/// the end of its raw data, clamped to the buffer length.
pub open spec fn res_limit(b: Seq<u8>, rva: int) -> int {
    let s = find_sect(b, rva);
    let end = sect_rptr(b, s) + sect_rsz(b, s);
    if end <= b.len() {
        end
    } else {
        b.len() as int
    }
}

/// Parsed, read-only view over the raw image: every field equals the
/// little-endian value stored at its documented header offset.
pub struct Headers {
    /// Offset of the PE signature.
    pub lfanew: usize,
    /// Machine type of the file header.
    pub machine: u16,
    /// Subsystem code of the optional header.
    pub subsystem: u16,
    /// Number of data directories.
    pub num_dirs: u32,
    /// RVA of the import data directory, when present.
    pub import_rva: u32,
    /// Declared size of the import data directory.
    pub import_size: u32,
    /// Declared size of the optional header.
    pub opt_size: usize,
    /// Number of sections.
    pub num_sections: usize,
}

/// The parsed fields agree with the bytes of the image.
pub open spec fn headers_match(b: Seq<u8>, h: Headers) -> bool {
    &&& valid_pe(b)
    &&& h.lfanew == spec_lfanew(b)
    &&& h.machine == spec_machine(b)
    &&& h.subsystem == spec_subsystem(b)
    &&& h.num_dirs == spec_num_dirs(b)
    &&& h.opt_size == spec_opt_size(b)
    &&& h.num_sections == spec_num_sections(b)
    &&& import_dir_present(b) ==> h.import_rva == spec_import_rva(b) && h.import_size
        == spec_import_size(b)
    &&& !import_dir_present(b) ==> h.import_rva == 0
}

/// Parse and validate the image headers: succeeds exactly on a well-formed
/// 64-bit image, and then returns fields that match the stored bytes.
pub fn parse_headers(b: &Vec<u8>) -> (r: Result<Headers, ReportError>)
    ensures
        r is Ok <==> valid_pe(b@),
        r is Err ==> r == Result::<Headers, ReportError>::Err(ReportError::PeFileError),
        r is Ok ==> headers_match(b@, r->Ok_0),
{
    let n = b.len();
    if n < 0x40 {
        return Err(ReportError::PeFileError);
    }
    let lfanew64 = read_u32(b, 0x3c) as u64;
    if read_u16(b, 0) != 0x5a4d {
        return Err(ReportError::PeFileError);
    }
    if lfanew64 + 136 > n as u64 {
        return Err(ReportError::PeFileError);
    }
    let lfanew = lfanew64 as usize;
    if read_u32(b, lfanew) != 0x4550 {
        return Err(ReportError::PeFileError);
    }
    let opt_off = lfanew + 24;
    if read_u16(b, opt_off) != OPT_MAGIC_PE64 {
        return Err(ReportError::PeFileError);
    }
    let opt_size = read_u16(b, lfanew + 20) as usize;
    if opt_size < 112 {
        return Err(ReportError::PeFileError);
    }
    let num_sections = read_u16(b, lfanew + 6) as usize;
    if (opt_off as u64) + (opt_size as u64) + 40 * (num_sections as u64) > n as u64 {
        return Err(ReportError::PeFileError);
    }
    let machine = read_u16(b, lfanew + 4);
    let subsystem = read_u16(b, opt_off + 68);
    let num_dirs = read_u32(b, opt_off + 108);
    let mut import_rva: u32 = 0;
    let mut import_size: u32 = 0;
    if num_dirs >= 2 && opt_size >= 128 {
        import_rva = read_u32(b, opt_off + 120);
        import_size = read_u32(b, opt_off + 124);
    }
    Ok(
        Headers {
            lfanew,
            machine,
            subsystem,
            num_dirs,
            import_rva,
            import_size,
            opt_size,
            num_sections,
        },
    )
}

/// No section before `i` covers `rva`, so the search may start at `i`.
proof fn lemma_find_sect_skip(b: Seq<u8>, rva: int, i: int)
    requires
        0 <= i <= spec_num_sections(b),
        forall|j: int| 0 <= j < i ==> !sect_contains(b, j, rva),
    ensures
        find_sect(b, rva) == find_sect_from(b, rva, i),
    decreases i,
{
    if i > 0 {
        lemma_find_sect_skip(b, rva, i - 1);
    }
}

/// Resolve `rva` through the section table: `Some((off, limit))` exactly
/// when some section covers `rva`; `off` is where its bytes start in the
/// file and `limit` bounds what may be read.
pub fn resolve_rva(b: &Vec<u8>, h: &Headers, rva: u32) -> (r: Option<(u64, u64)>)
    requires
        headers_match(b@, *h),
    ensures
        r is Some <==> find_sect(b@, rva as int) != -1,
        r is Some ==> (r->0).0 == res_off(b@, rva as int) && (r->0).1 == res_limit(
            b@,
            rva as int,
        ) && (r->0).1 <= b@.len(),
{
    let n = b.len();
    let sect_off = h.lfanew + 24 + h.opt_size;
    let mut i: usize = 0;
    while i < h.num_sections
        invariant
            headers_match(b@, *h),
            n == b@.len(),
            sect_off == spec_sect_off(b@),
            0 <= i <= h.num_sections,
            forall|j: int| 0 <= j < i ==> !sect_contains(b@, j, rva as int),
        decreases h.num_sections - i,
    {
        let entry = sect_off + 40 * i;
        let va = read_u32(b, entry + 12);
        let rsz = read_u32(b, entry + 16);
        let rptr = read_u32(b, entry + 20);
        if va <= rva && (rva as u64) < (va as u64) + (rsz as u64) {
            proof {
                lemma_find_sect_skip(b@, rva as int, i as int);
                assert(sect_contains(b@, i as int, rva as int));
                assert(find_sect(b@, rva as int) == i as int);
            }
            let off = (rptr as u64) + ((rva - va) as u64);
            let end = (rptr as u64) + (rsz as u64);
            let limit = if end <= n as u64 {
                end
            } else {
                n as u64
            };
            return Some((off, limit));
        }
        i = i + 1;
    }
    proof {
        lemma_find_sect_skip(b@, rva as int, h.num_sections as int);
    }
    None
}

} // verus!
