//! The import-directory walker: locate the import descriptors, single out
//! the one(s) naming the kernel image, and walk the address-table /
//! name-table pair in lock-step to recover the imports resolved by name.

use vstd::prelude::*;

use crate::bytes::{
    ascii_ok, ascii_to_string, chars_of, collect_bytes, cstr_end, find_nul, is_ascii_bytes, le16,
    le32, le64, read_u16, read_u32, read_u64,
};
use crate::pe::{
    find_sect, headers_match, import_dir_present, parse_headers, res_limit, res_off, resolve_rva,
    spec_import_rva, spec_subsystem, valid_pe, Headers, IMAGE_SUBSYSTEM_NATIVE,
};
use crate::report::{import_views, Import, ReportError, SImport};

verus! {

/// Ordinal flag of a 64-bit name-table entry.
pub const ORDINAL_FLAG: u64 = 0x8000_0000_0000_0000;

/// Lowercased ASCII letter; other bytes unchanged.
pub open spec fn lower(c: u8) -> u8 {
    if 0x41 <= c <= 0x5a {
        (c + 0x20) as u8
    } else {
        c
    }
}

/// Bytewise ASCII lowercasing.
pub open spec fn lower_bytes(s: Seq<u8>) -> Seq<u8> {
    s.map_values(|c: u8| lower(c))
}

/// The canonical kernel module name, "ntoskrnl.exe", as bytes.
pub open spec fn kernel_name() -> Seq<u8> {
    seq![0x6eu8, 0x74, 0x6f, 0x73, 0x6b, 0x72, 0x6e, 0x6c, 0x2e, 0x65, 0x78, 0x65]
}

/// Case-insensitive match against the kernel module name.
pub open spec fn is_kernel_name(s: Seq<u8>) -> bool {
    lower_bytes(s) == kernel_name()
}

/// The imports described by the two parallel thunk arrays starting at file
/// offsets `ao` (address table) and `no` (name table), each read up to its
/// section limit. The arrays are consumed in lock-step until a common zero
/// terminator; out-of-sync termination, a malformed entry, an unresolvable
/// or unterminated hint/name block, or a non-ASCII name is `ImportError`.
/// An entry selected by ordinal is skipped.
pub open spec fn walk_thunks(b: Seq<u8>, ao: int, alim: int, no: int, nlim: int) -> Result<
    Seq<SImport>,
    ReportError,
>
    decreases alim - ao,
{
    if ao < 0 || no < 0 || ao + 8 > alim || no + 8 > nlim {
        Err(ReportError::ImportError)
    } else {
        let av = le64(b, ao);
        let nv = le64(b, no);
        if av == 0 && nv == 0 {
            Ok(Seq::empty())
        } else if av == 0 || nv == 0 {
            Err(ReportError::ImportError)
        } else if nv >= ORDINAL_FLAG {
            walk_thunks(b, ao + 8, alim, no + 8, nlim)
        } else if nv >= 0x1_0000_0000 {
            Err(ReportError::ImportError)
        } else if find_sect(b, nv) == -1 {
            Err(ReportError::ImportError)
        } else {
            let hoff = res_off(b, nv);
            let hlim = res_limit(b, nv);
            if hoff + 2 > hlim {
                Err(ReportError::ImportError)
            } else {
                let e = cstr_end(b, hoff + 2, hlim);
                if e == -1 {
                    Err(ReportError::ImportError)
                } else {
                    let name = b.subrange(hoff + 2, e);
                    if !ascii_ok(name) {
                        Err(ReportError::ImportError)
                    } else {
                        match walk_thunks(b, ao + 8, alim, no + 8, nlim) {
                            Err(err) => Err(err),
                            Ok(rest) => Ok(
                                seq![
                                    SImport {
                                        va: av as u64,
                                        hint: le16(b, hoff),
                                        name: chars_of(name),
                                    },
                                ] + rest,
                            ),
                        }
                    }
                }
            }
        }
    }
}

/// The imports contributed by the descriptor table starting at file offset
/// `off`, read up to `limit`. Descriptors are visited until the zero-filled
/// terminator; running out of readable descriptor space first is
/// `ImportsError`. A descriptor whose DLL-name string cannot be resolved is
/// `DllNameError`; one naming another DLL is skipped whole; for a kernel
/// descriptor an unresolvable address table is `IatError` and an
/// unresolvable name table is `IntError`.
pub open spec fn walk_descs(b: Seq<u8>, off: int, limit: int) -> Result<Seq<SImport>, ReportError>
    decreases limit - off,
{
    if off < 0 || off + 20 > limit {
        Err(ReportError::ImportsError)
    } else {
        let int_rva = le32(b, off);
        let stamp = le32(b, off + 4);
        let fwd = le32(b, off + 8);
        let name_rva = le32(b, off + 12);
        let iat_rva = le32(b, off + 16);
        if int_rva == 0 && stamp == 0 && fwd == 0 && name_rva == 0 && iat_rva == 0 {
            Ok(Seq::empty())
        } else if find_sect(b, name_rva) == -1 {
            Err(ReportError::DllNameError)
        } else {
            let e = cstr_end(b, res_off(b, name_rva), res_limit(b, name_rva));
            if e == -1 {
                Err(ReportError::DllNameError)
            } else if !is_kernel_name(b.subrange(res_off(b, name_rva), e)) {
                walk_descs(b, off + 20, limit)
            } else if find_sect(b, iat_rva) == -1 {
                Err(ReportError::IatError)
            } else if find_sect(b, int_rva) == -1 {
                Err(ReportError::IntError)
            } else {
                match walk_thunks(
                    b,
                    res_off(b, iat_rva),
                    res_limit(b, iat_rva),
                    res_off(b, int_rva),
                    res_limit(b, int_rva),
                ) {
                    Err(err) => Err(err),
                    Ok(here) => match walk_descs(b, off + 20, limit) {
                        Err(err) => Err(err),
                        Ok(rest) => Ok(here + rest),
                    },
                }
            }
        }
    }
}

/// An entry selected by ordinal contributes nothing: the walk over a pair
/// whose next name-table entry carries the ordinal flag equals the walk
/// continued past that entry, so an ordinal-only import appears neither
/// among the found nor among the matching records.
pub proof fn lemma_ordinal_skipped(b: Seq<u8>, ao: int, alim: int, no: int, nlim: int)
    requires
        0 <= ao,
        0 <= no,
        ao + 8 <= alim,
        no + 8 <= nlim,
        le64(b, ao) != 0,
        le64(b, no) >= ORDINAL_FLAG,
    ensures
        walk_thunks(b, ao, alim, no, nlim) == walk_thunks(b, ao + 8, alim, no + 8, nlim),
{
}

/// The whole scan of one raw image: validate the headers, demand the
/// native subsystem, locate the import directory, and walk it.
pub open spec fn spec_scan(b: Seq<u8>) -> Result<Seq<SImport>, ReportError> {
    if !valid_pe(b) {
        Err(ReportError::PeFileError)
    } else if spec_subsystem(b) != IMAGE_SUBSYSTEM_NATIVE as int {
        Err(ReportError::InvalidSubsystem)
    } else if !import_dir_present(b) {
        Err(ReportError::ImportsError)
    } else if find_sect(b, spec_import_rva(b)) == -1 {
        Err(ReportError::ImportsError)
    } else {
        walk_descs(b, res_off(b, spec_import_rva(b)), res_limit(b, spec_import_rva(b)))
    }
}

/// A malformed or truncated header fails with `PeFileError`, and a
/// well-formed image whose subsystem is not the native one fails with
/// `InvalidSubsystem`: neither ever yields a (partial or empty) record list.
pub proof fn lemma_header_rejections(b: Seq<u8>)
    ensures
        !valid_pe(b) ==> spec_scan(b) == Result::<Seq<SImport>, ReportError>::Err(
            ReportError::PeFileError,
        ),
        valid_pe(b) && spec_subsystem(b) != IMAGE_SUBSYSTEM_NATIVE as int ==> spec_scan(b)
            == Result::<Seq<SImport>, ReportError>::Err(ReportError::InvalidSubsystem),
{
}

/// The executable result matches the specified one: same error, or a
/// record list whose views are the specified records.
pub open spec fn scan_obeys(
    r: Result<Vec<Import>, ReportError>,
    s: Result<Seq<SImport>, ReportError>,
) -> bool {
    match r {
        Ok(v) => s is Ok && import_views(v@) == s->Ok_0,
        Err(e) => s is Err && e == s->Err_0,
    }
}

/// The kernel module name as a byte vector.
fn kernel_name_bytes() -> (k: Vec<u8>)
    ensures
        k@ == kernel_name(),
{
    let mut k: Vec<u8> = Vec::new();
    k.push(0x6e);
    k.push(0x74);
    k.push(0x6f);
    k.push(0x73);
    k.push(0x6b);
    k.push(0x72);
    k.push(0x6e);
    k.push(0x6c);
    k.push(0x2e);
    k.push(0x65);
    k.push(0x78);
    k.push(0x65);
    proof {
        assert(k@ =~= kernel_name());
    }
    k
}

/// Case-insensitive comparison of a DLL name with the kernel module name.
fn eq_kernel(v: &Vec<u8>) -> (r: bool)
    ensures
        r == is_kernel_name(v@),
{
    let k = kernel_name_bytes();
    let n = v.len();
    if n != k.len() {
        proof {
            assert(lower_bytes(v@).len() == v@.len());
        }
        return false;
    }
    let mut j: usize = 0;
    while j < n
        invariant
            n == v@.len() == k@.len(),
            k@ == kernel_name(),
            0 <= j <= n,
            forall|i: int| 0 <= i < j ==> lower_bytes(v@)[i] == kernel_name()[i],
        decreases n - j,
    {
        let c = v[j];
        let lc = if c >= 0x41 && c <= 0x5a {
            c + 0x20
        } else {
            c
        };
        if lc != k[j] {
            proof {
                assert(lower_bytes(v@)[j as int] != kernel_name()[j as int]);
            }
            return false;
        }
        j = j + 1;
    }
    proof {
        assert(lower_bytes(v@) =~= kernel_name());
    }
    true
}

/// Walk one descriptor's two thunk arrays in lock-step.
fn walk_thunks_exec(b: &Vec<u8>, ao: u64, alim: u64, no: u64, nlim: u64, h: &Headers) -> (r: Result<
    Vec<Import>,
    ReportError,
>)
    requires
        headers_match(b@, *h),
        alim <= b@.len(),
        nlim <= b@.len(),
    ensures
        scan_obeys(r, walk_thunks(b@, ao as int, alim as int, no as int, nlim as int)),
    decreases alim - ao,
{
    let n = b.len();
    if alim < 8 || ao > alim - 8 || nlim < 8 || no > nlim - 8 {
        return Err(ReportError::ImportError);
    }
    let av = read_u64(b, ao as usize);
    let nv = read_u64(b, no as usize);
    if av == 0 && nv == 0 {
        proof {
            assert(import_views(Seq::<Import>::empty()) =~= Seq::<SImport>::empty());
        }
        return Ok(Vec::new());
    }
    if av == 0 || nv == 0 {
        return Err(ReportError::ImportError);
    }
    if nv >= ORDINAL_FLAG {
        return walk_thunks_exec(b, ao + 8, alim, no + 8, nlim, h);
    }
    if nv >= 0x1_0000_0000 {
        return Err(ReportError::ImportError);
    }
    let (hoff, hlim) = match resolve_rva(b, h, nv as u32) {
        None => {
            return Err(ReportError::ImportError);
        },
        Some(p) => p,
    };
    if hlim < 2 || hoff > hlim - 2 {
        return Err(ReportError::ImportError);
    }
    let hint = read_u16(b, hoff as usize) as usize;
    let e = match find_nul(b, hoff + 2, hlim) {
        None => {
            return Err(ReportError::ImportError);
        },
        Some(e) => e,
    };
    let name_bytes = collect_bytes(b, hoff + 2, e);
    if !is_ascii_bytes(&name_bytes) {
        return Err(ReportError::ImportError);
    }
    let name = ascii_to_string(name_bytes);
    let rest = match walk_thunks_exec(b, ao + 8, alim, no + 8, nlim, h) {
        Err(err) => {
            return Err(err);
        },
        Ok(rest) => rest,
    };
    let mut out: Vec<Import> = Vec::new();
    out.push(Import { va: av, hint, name });
    let mut rest = rest;
    out.append(&mut rest);
    proof {
        assert(import_views(out@) =~= walk_thunks(
            b@,
            ao as int,
            alim as int,
            no as int,
            nlim as int,
        )->Ok_0);
    }
    Ok(out)
}

/// Walk the descriptor table, gathering the kernel descriptors' imports.
fn walk_descs_exec(b: &Vec<u8>, off: u64, limit: u64, h: &Headers) -> (r: Result<
    Vec<Import>,
    ReportError,
>)
    requires
        headers_match(b@, *h),
        limit <= b@.len(),
    ensures
        scan_obeys(r, walk_descs(b@, off as int, limit as int)),
    decreases limit - off,
{
    let n = b.len();
    if limit < 20 || off > limit - 20 {
        return Err(ReportError::ImportsError);
    }
    let int_rva = read_u32(b, off as usize);
    let stamp = read_u32(b, (off + 4) as usize);
    let fwd = read_u32(b, (off + 8) as usize);
    let name_rva = read_u32(b, (off + 12) as usize);
    let iat_rva = read_u32(b, (off + 16) as usize);
    if int_rva == 0 && stamp == 0 && fwd == 0 && name_rva == 0 && iat_rva == 0 {
        proof {
            assert(import_views(Seq::<Import>::empty()) =~= Seq::<SImport>::empty());
        }
        return Ok(Vec::new());
    }
    let (noff, nlim) = match resolve_rva(b, h, name_rva) {
        None => {
            return Err(ReportError::DllNameError);
        },
        Some(p) => p,
    };
    let e = match find_nul(b, noff, nlim) {
        None => {
            return Err(ReportError::DllNameError);
        },
        Some(e) => e,
    };
    let dll = collect_bytes(b, noff, e);
    if !eq_kernel(&dll) {
        return walk_descs_exec(b, off + 20, limit, h);
    }
    let (aoff, alim) = match resolve_rva(b, h, iat_rva) {
        None => {
            return Err(ReportError::IatError);
        },
        Some(p) => p,
    };
    let (ioff, ilim) = match resolve_rva(b, h, int_rva) {
        None => {
            return Err(ReportError::IntError);
        },
        Some(p) => p,
    };
    let mut here = match walk_thunks_exec(b, aoff, alim, ioff, ilim, h) {
        Err(err) => {
            return Err(err);
        },
        Ok(v) => v,
    };
    let mut rest = match walk_descs_exec(b, off + 20, limit, h) {
        Err(err) => {
            return Err(err);
        },
        Ok(v) => v,
    };
    here.append(&mut rest);
    proof {
        assert(import_views(here@) =~= walk_descs(b@, off as int, limit as int)->Ok_0);
    }
    Ok(here)
}

/// Scan a raw image for the imports it resolves by name from the kernel
/// module, in table-encounter order. Succeeds exactly when the specified
/// scan does, with the same records; fails with its exact error otherwise.
pub fn scan_kernel_imports(b: &Vec<u8>) -> (r: Result<Vec<Import>, ReportError>)
    ensures
        scan_obeys(r, spec_scan(b@)),
{
    let h = match parse_headers(b) {
        Err(err) => {
            return Err(err);
        },
        Ok(h) => h,
    };
    if h.subsystem != IMAGE_SUBSYSTEM_NATIVE {
        return Err(ReportError::InvalidSubsystem);
    }
    if !(h.num_dirs >= 2 && h.opt_size >= 128 && h.import_rva != 0) {
        return Err(ReportError::ImportsError);
    }
    match resolve_rva(b, &h, h.import_rva) {
        None => Err(ReportError::ImportsError),
        Some((off, lim)) => walk_descs_exec(b, off, lim, &h),
    }
}

} // verus!
