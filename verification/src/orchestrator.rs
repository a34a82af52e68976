//! The decisions around one transfer: destination resolution, the
//! overwrite gate, the resume plan, and move semantics.
//!
//! The policy itself — which inputs are refused with which error, and where
//! a permitted transfer starts — is the pure function [`plan_transfer`],
//! pinned down exactly for every combination of answers the filesystem can
//! give. [`prepare_transfer`] gathers those answers through the probes and
//! applies it.

use crate::config::TransferConfig;
use crate::errors::TransferError;
use crate::paths::{concatenate_path, file_name_spec, get_file_name, joined_path_spec};
use crate::probe::{file_exists, get_file_size, is_directory};
use vstd::prelude::*;

verus! {

/// Where a permitted transfer starts and how its destination is opened.
#[derive(Clone, Copy, Debug, PartialEq, Eq, Structural)]
pub struct ResumeDecision {
    /// Absolute byte offset reading and writing continue from.
    pub offset: u64,
    /// Open the destination in append mode instead of create-and-truncate.
    pub append: bool,
}

/// Decide whether the transfer may run and where it starts, from what the
/// filesystem shows: whether the destination exists and how long it is,
/// the source's byte length, and the two flags.
///
/// An existing destination is refused unless overwriting is forced or the
/// copy resumes; a resumed destination longer than the source is refused as
/// an invalid resume state; everything else runs, continuing from the
/// destination's length exactly when resuming onto an existing file.
pub fn plan_transfer(
    dest_exists: bool,
    dest_len: u64,
    total: u64,
    force: bool,
    resume: bool,
) -> (r: Result<ResumeDecision, TransferError>)
    ensures
        (r is Err && r->Err_0 == TransferError::DestinationExistsRefused) <==> (dest_exists
            && !force && !resume),
        (r is Err && r->Err_0 == TransferError::InvalidResumeState) <==> (!(dest_exists && !force
            && !resume) && resume && dest_exists && dest_len > total),
        r is Ok <==> (!(dest_exists && !force && !resume) && !(resume && dest_exists && dest_len
            > total)),
        r is Ok ==> r->Ok_0.append == (resume && dest_exists),
        r is Ok ==> r->Ok_0.offset == (if resume && dest_exists {
            dest_len as int
        } else {
            0int
        }),
        r is Ok ==> r->Ok_0.offset <= total,
{
    if dest_exists && !force && !resume {
        return Err(TransferError::DestinationExistsRefused);
    }
    if resume && dest_exists {
        if dest_len > total {
            return Err(TransferError::InvalidResumeState);
        }
        Ok(ResumeDecision { offset: dest_len, append: true })
    } else {
        Ok(ResumeDecision { offset: 0, append: false })
    }
}

/// Move semantics delete the source exactly when the copy step reported
/// success; a failed copy leaves the source in place.
pub fn should_delete_source(move_file: bool, copy_ok: bool) -> (d: bool)
    ensures
        d == (move_file && copy_ok),
{
    move_file && copy_ok
}

/// When the destination names an existing directory, the file keeps its own
/// name under it; otherwise the destination is taken as given. Fails only
/// when the source path has no file name to carry over — so a source that
/// carries one is always resolved, whatever the directory probe answered.
pub fn resolve_destination(source: &str, destination: String) -> (r: Result<
    String,
    TransferError,
>)
    ensures
        r is Ok ==> r->Ok_0@ == destination@ || (file_name_spec(source@) is Some
            && r->Ok_0@ == joined_path_spec(destination@, file_name_spec(source@)->Some_0)),
        file_name_spec(source@) is Some ==> r is Ok,
        r is Err ==> r->Err_0 == TransferError::InvalidPath && file_name_spec(source@) is None,
{
    if is_directory(destination.as_str()) {
        match get_file_name(source) {
            Ok(name) => Ok(concatenate_path(destination.as_str(), name.as_str())),
            Err(e) => Err(e),
        }
    } else {
        Ok(destination)
    }
}

/// Everything the copy loop needs, settled before any byte moves.
#[derive(Clone, Debug)]
pub struct TransferPlan {
    /// The destination as a file path, directories already resolved.
    pub destination: String,
    /// Byte length of the source.
    pub total_size: u64,
    /// Absolute byte offset reading and writing continue from.
    pub resume_offset: u64,
    /// Open the destination in append mode instead of create-and-truncate.
    pub append: bool,
}

/// Probe the filesystem and settle the whole plan of one transfer: that the
/// source exists, the resolved destination, the source's length, and the
/// resume decision. No byte has moved yet when this returns; every refusal
/// leaves the destination untouched.
///
/// Whatever the probes answer, a plan that comes back is coherent: the
/// resume offset never exceeds the total, a destination that is not
/// appended to starts at offset zero, nothing is appended to unless
/// resuming was asked for, and the planned destination is the configured
/// one or the configured one with the source's file name under it. An
/// `InvalidPath` failure comes only from a source without a file name.
pub fn prepare_transfer(config: &TransferConfig) -> (r: Result<TransferPlan, TransferError>)
    ensures
        r is Ok ==> r->Ok_0.resume_offset <= r->Ok_0.total_size,
        r is Ok && !r->Ok_0.append ==> r->Ok_0.resume_offset == 0,
        r is Ok && !config.resume ==> !r->Ok_0.append,
        r is Ok ==> r->Ok_0.destination@ == config.destination@ || (file_name_spec(
            config.source@,
        ) is Some && r->Ok_0.destination@ == joined_path_spec(
            config.destination@,
            file_name_spec(config.source@)->Some_0,
        )),
        r is Err && r->Err_0 == TransferError::InvalidPath ==> file_name_spec(
            config.source@,
        ) is None,
{
    if !file_exists(config.source.as_str()) {
        return Err(TransferError::SourceNotFound);
    }
    let destination = match resolve_destination(config.source.as_str(), config.destination.clone()) {
        Ok(d) => d,
        Err(e) => {
            return Err(e);
        },
    };
    let dest_exists = file_exists(destination.as_str());
    let total = match get_file_size(config.source.as_str()) {
        Some(t) => t,
        None => {
            return Err(TransferError::SourceUnreadable);
        },
    };
    let dest_len: u64 = if config.resume && dest_exists {
        match get_file_size(destination.as_str()) {
            Some(l) => l,
            None => {
                return Err(TransferError::Io);
            },
        }
    } else {
        0
    };
    let decision = match plan_transfer(dest_exists, dest_len, total, config.force, config.resume) {
        Ok(d) => d,
        Err(e) => {
            return Err(e);
        },
    };
    Ok(
        TransferPlan {
            destination,
            total_size: total,
            resume_offset: decision.offset,
            append: decision.append,
        },
    )
}

} // verus!
