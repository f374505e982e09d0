//! Vetting of native (kernel-mode) Windows driver binaries for imports of
//! security-sensitive kernel APIs. A raw image is validated as a
//! native-subsystem 64-bit executable, its import descriptors are walked to
//! recover the symbols it resolves by name from the kernel module, those
//! are classified against a watchlist, and the whole file is content-hashed
//! into one immutable report.

pub mod bytes;
pub mod classify;
pub mod hashing;
pub mod hex;
pub mod imports;
pub mod pe;
pub mod report;
