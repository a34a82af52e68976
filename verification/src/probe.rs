//! Filesystem probes.
//!
//! Everything here only asks the filesystem simple questions; nothing here
//! writes. Each function is a trusted wrapper around one query of std's
//! path API, and the logic around them is verified for every answer they
//! can give.

use vstd::prelude::*;

verus! {

/// Whether anything exists at `path`.
///
/// Relies on `std::path::Path::exists`. The answer depends on what is on
/// disk at the moment of the call, so nothing is promised of it.
#[verifier::external_body]
pub fn file_exists(path: &str) -> bool {
    std::path::Path::new(path).exists()
}

/// Whether `path` names an existing directory.
///
/// Relies on `std::path::Path::is_dir`. The answer depends on what is on
/// disk at the moment of the call, so nothing is promised of it.
#[verifier::external_body]
pub fn is_directory(path: &str) -> bool {
    std::path::Path::new(path).is_dir()
}

/// The byte length of the file at `path`, or `None` when its metadata
/// cannot be read.
///
/// Relies on `std::path::Path::metadata`, reading the length out of the
/// metadata it returns. The answer depends on what is on disk at the moment
/// of the call, so nothing is promised of it.
#[verifier::external_body]
pub fn get_file_size(path: &str) -> Option<u64> {
    match std::path::Path::new(path).metadata() {
        Ok(m) => Some(m.len()),
        Err(_) => None,
    }
}

} // verus!
