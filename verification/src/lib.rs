//! A signature-based file scanner: content hashes of files are checked
//! against in-memory tables of known-malicious hash signatures, and counts
//! and byte totals are aggregated over whole directory trees.

pub mod hash;
pub mod store;
pub mod scan;
pub mod walk;
