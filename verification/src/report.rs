//! Report values: the resolved-import record, the error taxonomy, the final
//! report, and the default watchlist of security-sensitive kernel APIs.

use vstd::prelude::*;

use crate::classify::{classify, matching_of};
use crate::hashing::{hash_bytes, hash_text};
use crate::imports::{scan_kernel_imports, spec_scan};

verus! {

/// Mathematical model of one resolved kernel import: the call-target slot
/// from the address table, the hint index, and the symbol name.
pub ghost struct SImport {
    pub va: u64,
    pub hint: int,
    pub name: Seq<char>,
}

/// One import entry resolved by name from the kernel image.
#[derive(Debug, Clone)]
pub struct Import {
    /// Virtual address of the import (the address-table slot value).
    pub va: u64,
    /// Hint of the import (name-table ordinal index).
    pub hint: usize,
    /// Name of the import.
    pub name: String,
}

impl View for Import {
    type V = SImport;

    open spec fn view(&self) -> SImport {
        SImport { va: self.va, hint: self.hint as int, name: self.name@ }
    }
}

/// The views of a sequence of import records.
pub open spec fn import_views(v: Seq<Import>) -> Seq<SImport> {
    v.map_values(|i: Import| i@)
}

/// A set of import names to vet a driver against.
pub type ImportSet = Vec<String>;

/// Report of one driver analysis.
#[derive(Debug, Clone)]
pub struct Report {
    /// Name of the driver file.
    pub name: String,
    /// SHA256 hash of the driver file, as lowercase hex.
    pub hash: String,
    /// All imports resolved by name from the kernel image, in table order.
    pub found_imports: Vec<Import>,
    /// The subset of `found_imports` whose name is in the watchlist.
    pub matching_imports: Vec<Import>,
}

/// How one driver analysis can fail; a terminal outcome for that file.
#[derive(Debug, Clone, Copy, PartialEq, Eq, Structural)]
pub enum ReportError {
    /// The path cannot be opened or mapped (raised by the caller doing I/O).
    FileOpenError,
    /// The raw bytes cannot be fully obtained for hashing (caller I/O).
    FileReadError,
    /// Header signature or layout invalid or out of bounds.
    PeFileError,
    /// Import data directory missing or unresolvable.
    ImportsError,
    /// Optional-header subsystem is not the native (kernel driver) one.
    InvalidSubsystem,
    /// A descriptor's DLL-name string cannot be resolved.
    DllNameError,
    /// The address-table RVA cannot be resolved.
    IatError,
    /// The name-table RVA cannot be resolved.
    IntError,
    /// A paired thunk entry is malformed.
    ImportError,
}

impl Report {
    /// Analyze one driver image, already loaded as raw bytes, against an
    /// import set: succeeds exactly when the specified scan of the bytes
    /// does, and then carries the given name, the content hash of the
    /// bytes, every import resolved by name from the kernel image in
    /// table-encounter order, and the watchlisted subset of those.
    pub fn from_driver(name: String, bytes: &Vec<u8>, import_set: ImportSet) -> (r: Result<
        Report,
        ReportError,
    >)
        ensures
            r is Ok <==> spec_scan(bytes@) is Ok,
            r is Err ==> r->Err_0 == spec_scan(bytes@)->Err_0,
            r is Ok ==> r->Ok_0.name@ == name@,
            r is Ok ==> r->Ok_0.hash@ == hash_text(bytes@),
            r is Ok ==> import_views(r->Ok_0.found_imports@) == spec_scan(bytes@)->Ok_0,
            r is Ok ==> import_views(r->Ok_0.matching_imports@) == matching_of(
                spec_scan(bytes@)->Ok_0,
                import_set@,
            ),
    {
        let imports = match scan_kernel_imports(bytes) {
            Err(err) => {
                return Err(err);
            },
            Ok(v) => v,
        };
        let (found_imports, matching_imports) = classify(imports, &import_set);
        let hash = hash_bytes(bytes);
        Ok(Report { name, hash, found_imports, matching_imports })
    }
}

/// Two analyses of byte-identical inputs agree on the hash and on both
/// import lists, whatever names the files were given.
pub proof fn lemma_identical_bytes(b1: Seq<u8>, b2: Seq<u8>, wl: Seq<String>)
    requires
        b1 == b2,
    ensures
        hash_text(b1) == hash_text(b2),
        spec_scan(b1) == spec_scan(b2),
        spec_scan(b1) is Ok ==> matching_of(spec_scan(b1)->Ok_0, wl) == matching_of(
            spec_scan(b2)->Ok_0,
            wl,
        ),
{
}

/// Returns the default import set.
pub fn default_import_set() -> (r: ImportSet)
    ensures
        r@.len() == 8,
        r@[0]@ == "MmMapIoSpace"@,
        r@[1]@ == "MmMapIoSpaceEx"@,
        r@[2]@ == "MmMapLockedPages"@,
        r@[3]@ == "MmMapLockedPagesSpecifyCache"@,
        r@[4]@ == "MmMapLockedPagesWithReservedMapping"@,
        r@[5]@ == "ZwMapViewOfSection"@,
        r@[6]@ == "MmCopyMemory"@,
        r@[7]@ == "EnumerateDebuggingDevices"@,
{
    let mut r: Vec<String> = Vec::new();
    r.push("MmMapIoSpace".to_owned());
    r.push("MmMapIoSpaceEx".to_owned());
    r.push("MmMapLockedPages".to_owned());
    r.push("MmMapLockedPagesSpecifyCache".to_owned());
    r.push("MmMapLockedPagesWithReservedMapping".to_owned());
    r.push("ZwMapViewOfSection".to_owned());
    r.push("MmCopyMemory".to_owned());
    r.push("EnumerateDebuggingDevices".to_owned());
    r
}

} // verus!
