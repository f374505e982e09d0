//! End-to-end analyses of small, hand-built 64-bit driver images.

use driver_scan::report::{default_import_set, Report, ReportError};

fn w16(b: &mut Vec<u8>, off: usize, v: u16) {
    b[off] = v as u8;
    b[off + 1] = (v >> 8) as u8;
}

fn w32(b: &mut Vec<u8>, off: usize, v: u32) {
    b[off] = v as u8;
    b[off + 1] = (v >> 8) as u8;
    b[off + 2] = (v >> 16) as u8;
    b[off + 3] = (v >> 24) as u8;
}

fn w64(b: &mut Vec<u8>, off: usize, v: u64) {
    w32(b, off, v as u32);
    w32(b, off + 4, (v >> 32) as u32);
}

fn wstr(b: &mut Vec<u8>, off: usize, s: &str) {
    let bytes = s.as_bytes();
    b[off..off + bytes.len()].copy_from_slice(bytes);
    b[off + bytes.len()] = 0;
}

/// A minimal 64-bit image: one section, rva 0x1000 -> file offset 0x200,
/// 0x200 bytes long; import directory declared at rva 0x1000.
fn base_image(subsystem: u16) -> Vec<u8> {
    let mut b = vec![0u8; 0x400];
    b[0] = 0x4d;
    b[1] = 0x5a;
    w32(&mut b, 0x3c, 0x40);
    b[0x40] = 0x50;
    b[0x41] = 0x45;
    w16(&mut b, 0x44, 0x8664);
    w16(&mut b, 0x46, 1);
    w16(&mut b, 0x54, 0xf0);
    w16(&mut b, 0x58, 0x20b);
    w16(&mut b, 0x9c, subsystem);
    w32(&mut b, 0xc4, 16);
    w32(&mut b, 0xd0, 0x1000);
    w32(&mut b, 0xd4, 40);
    w32(&mut b, 0x148 + 8, 0x200);
    w32(&mut b, 0x148 + 12, 0x1000);
    w32(&mut b, 0x148 + 16, 0x200);
    w32(&mut b, 0x148 + 20, 0x200);
    b
}

const VA1: u64 = 0xfffff80000001000;
const VA2: u64 = 0x140001234;

/// Fill the descriptor naming `dll` with two by-name imports,
/// MmMapIoSpace (hint 3) and IoCreateDevice (hint 7).
fn driver_with_two_imports(dll: &str) -> Vec<u8> {
    let mut b = base_image(1);
    // descriptor 0 at rva 0x1000: INT 0x1040, name 0x1028, IAT 0x1080
    w32(&mut b, 0x200, 0x1040);
    w32(&mut b, 0x20c, 0x1028);
    w32(&mut b, 0x210, 0x1080);
    // terminator descriptor at 0x214 stays zero-filled
    wstr(&mut b, 0x228, dll);
    w64(&mut b, 0x240, 0x10c0);
    w64(&mut b, 0x248, 0x10e0);
    w64(&mut b, 0x280, VA1);
    w64(&mut b, 0x288, VA2);
    w16(&mut b, 0x2c0, 3);
    wstr(&mut b, 0x2c2, "MmMapIoSpace");
    w16(&mut b, 0x2e0, 7);
    wstr(&mut b, 0x2e2, "IoCreateDevice");
    b
}

#[test]
fn found_and_matching_partition() {
    let b = driver_with_two_imports("ntoskrnl.exe");
    let report = Report::from_driver("drv.sys".to_string(), &b, default_import_set()).unwrap();
    assert_eq!(report.name, "drv.sys");
    assert_eq!(report.found_imports.len(), 2);
    assert_eq!(report.found_imports[0].name, "MmMapIoSpace");
    assert_eq!(report.found_imports[0].hint, 3);
    assert_eq!(report.found_imports[0].va, VA1);
    assert_eq!(report.found_imports[1].name, "IoCreateDevice");
    assert_eq!(report.found_imports[1].hint, 7);
    assert_eq!(report.found_imports[1].va, VA2);
    assert_eq!(report.matching_imports.len(), 1);
    assert_eq!(report.matching_imports[0].name, "MmMapIoSpace");
    assert_eq!(report.matching_imports[0].hint, 3);
    assert_eq!(report.matching_imports[0].va, VA1);
    assert_eq!(report.hash.len(), 64);
}

#[test]
fn empty_watchlist_matches_nothing() {
    let b = driver_with_two_imports("ntoskrnl.exe");
    let report = Report::from_driver("drv.sys".to_string(), &b, Vec::new()).unwrap();
    assert_eq!(report.found_imports.len(), 2);
    assert_eq!(report.matching_imports.len(), 0);
}

#[test]
fn duplicate_watchlist_entries_are_harmless() {
    let b = driver_with_two_imports("ntoskrnl.exe");
    let wl = vec![
        "MmMapIoSpace".to_string(),
        "MmMapIoSpace".to_string(),
        "MmMapIoSpace".to_string(),
    ];
    let report = Report::from_driver("drv.sys".to_string(), &b, wl).unwrap();
    assert_eq!(report.found_imports.len(), 2);
    assert_eq!(report.matching_imports.len(), 1);
    assert_eq!(report.matching_imports[0].name, "MmMapIoSpace");
}

#[test]
fn dll_name_match_is_case_insensitive() {
    let b = driver_with_two_imports("NTOSKRNL.EXE");
    let report = Report::from_driver("drv.sys".to_string(), &b, default_import_set()).unwrap();
    assert_eq!(report.found_imports.len(), 2);
    assert_eq!(report.matching_imports.len(), 1);
}

#[test]
fn other_dll_descriptors_are_skipped() {
    let b = driver_with_two_imports("hal.dll");
    let report = Report::from_driver("drv.sys".to_string(), &b, default_import_set()).unwrap();
    assert_eq!(report.found_imports.len(), 0);
    assert_eq!(report.matching_imports.len(), 0);
}

#[test]
fn user_mode_subsystem_is_rejected() {
    let mut b = driver_with_two_imports("ntoskrnl.exe");
    w16(&mut b, 0x9c, 2); // well-formed, but a GUI-subsystem binary
    let r = Report::from_driver("gui.exe".to_string(), &b, default_import_set());
    assert!(matches!(r, Err(ReportError::InvalidSubsystem)));
}

#[test]
fn garbage_is_a_pe_file_error() {
    let b = b"this is not a portable executable at all".to_vec();
    let r = Report::from_driver("junk.bin".to_string(), &b, default_import_set());
    assert!(matches!(r, Err(ReportError::PeFileError)));
}

#[test]
fn truncated_header_is_a_pe_file_error() {
    let mut b = base_image(1);
    b.truncate(0x60); // cut inside the file header
    let r = Report::from_driver("cut.sys".to_string(), &b, default_import_set());
    assert!(matches!(r, Err(ReportError::PeFileError)));
}

#[test]
fn missing_import_directory_is_imports_error() {
    let mut b = base_image(1);
    w32(&mut b, 0xd0, 0); // import directory rva absent
    let r = Report::from_driver("noimp.sys".to_string(), &b, default_import_set());
    assert!(matches!(r, Err(ReportError::ImportsError)));
}

#[test]
fn unresolvable_import_directory_is_imports_error() {
    let mut b = base_image(1);
    w32(&mut b, 0xd0, 0x9000); // no section covers this rva
    let r = Report::from_driver("badimp.sys".to_string(), &b, default_import_set());
    assert!(matches!(r, Err(ReportError::ImportsError)));
}

#[test]
fn unresolvable_dll_name_is_dll_name_error() {
    let mut b = driver_with_two_imports("ntoskrnl.exe");
    w32(&mut b, 0x20c, 0x9000); // descriptor's name rva outside every section
    let r = Report::from_driver("badname.sys".to_string(), &b, default_import_set());
    assert!(matches!(r, Err(ReportError::DllNameError)));
}

#[test]
fn unresolvable_address_table_is_iat_error() {
    let mut b = driver_with_two_imports("ntoskrnl.exe");
    w32(&mut b, 0x210, 0x9000); // FirstThunk rva outside every section
    let r = Report::from_driver("badiat.sys".to_string(), &b, default_import_set());
    assert!(matches!(r, Err(ReportError::IatError)));
}

#[test]
fn unresolvable_name_table_is_int_error() {
    let mut b = driver_with_two_imports("ntoskrnl.exe");
    w32(&mut b, 0x200, 0); // OriginalFirstThunk rva of zero resolves nowhere
    let r = Report::from_driver("badint.sys".to_string(), &b, default_import_set());
    assert!(matches!(r, Err(ReportError::IntError)));
}

#[test]
fn out_of_sync_thunk_arrays_are_import_error() {
    let mut b = driver_with_two_imports("ntoskrnl.exe");
    w64(&mut b, 0x288, 0); // address table ends one entry before the name table
    let r = Report::from_driver("badsync.sys".to_string(), &b, default_import_set());
    assert!(matches!(r, Err(ReportError::ImportError)));
}

#[test]
fn malformed_name_thunk_is_import_error() {
    let mut b = driver_with_two_imports("ntoskrnl.exe");
    w64(&mut b, 0x248, 0x1_0000_0000); // neither ordinal flag nor a 32-bit rva
    let r = Report::from_driver("badthunk.sys".to_string(), &b, default_import_set());
    assert!(matches!(r, Err(ReportError::ImportError)));
}

#[test]
fn ordinal_only_import_is_excluded() {
    let mut b = driver_with_two_imports("ntoskrnl.exe");
    // make the second name-table entry an ordinal-only import
    w64(&mut b, 0x248, 0x8000_0000_0000_0007);
    let report = Report::from_driver("ord.sys".to_string(), &b, default_import_set()).unwrap();
    assert_eq!(report.found_imports.len(), 1);
    assert_eq!(report.found_imports[0].name, "MmMapIoSpace");
    assert_eq!(report.matching_imports.len(), 1);
    assert_eq!(report.matching_imports[0].name, "MmMapIoSpace");
}

#[test]
fn identical_bytes_identical_reports_but_name() {
    let b1 = driver_with_two_imports("ntoskrnl.exe");
    let b2 = driver_with_two_imports("ntoskrnl.exe");
    let r1 = Report::from_driver("a.sys".to_string(), &b1, default_import_set()).unwrap();
    let r2 = Report::from_driver("b.sys".to_string(), &b2, default_import_set()).unwrap();
    assert_ne!(r1.name, r2.name);
    assert_eq!(r1.hash, r2.hash);
    assert_eq!(r1.found_imports.len(), r2.found_imports.len());
    for (x, y) in r1.found_imports.iter().zip(r2.found_imports.iter()) {
        assert_eq!(x.va, y.va);
        assert_eq!(x.hint, y.hint);
        assert_eq!(x.name, y.name);
    }
    assert_eq!(r1.matching_imports.len(), r2.matching_imports.len());
}

#[test]
fn batch_of_one_good_and_one_garbage_file() {
    // the per-file independence behind a directory scan: the garbage file
    // fails alone with PeFileError and the good file still yields a report
    let good = driver_with_two_imports("ntoskrnl.exe");
    let garbage = b"MZ but nothing else sensible".to_vec();
    let mut reports = Vec::new();
    let mut failures = Vec::new();
    for (name, bytes) in [("good.sys", &good), ("junk.bin", &garbage)] {
        match Report::from_driver(name.to_string(), bytes, default_import_set()) {
            Ok(rep) => reports.push(rep),
            Err(err) => failures.push((name, err)),
        }
    }
    assert_eq!(reports.len(), 1);
    assert_eq!(reports[0].name, "good.sys");
    assert_eq!(failures.len(), 1);
    assert!(matches!(failures[0], ("junk.bin", ReportError::PeFileError)));
}

#[test]
fn default_import_set_contents() {
    let s = default_import_set();
    assert_eq!(
        s,
        vec![
            "MmMapIoSpace".to_string(),
            "MmMapIoSpaceEx".to_string(),
            "MmMapLockedPages".to_string(),
            "MmMapLockedPagesSpecifyCache".to_string(),
            "MmMapLockedPagesWithReservedMapping".to_string(),
            "ZwMapViewOfSection".to_string(),
            "MmCopyMemory".to_string(),
            "EnumerateDebuggingDevices".to_string(),
        ]
    );
}
