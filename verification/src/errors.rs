//! The failure taxonomy of a transfer.

use vstd::prelude::*;

verus! {

/// The ways preparing or running a transfer can fail.
#[derive(Clone, Copy, Debug, PartialEq, Eq, Structural)]
pub enum TransferError {
    /// The source path does not name an existing file; nothing was done.
    SourceNotFound,
    /// The destination already exists and neither `--force` nor `--resume`
    /// was given; nothing was written.
    DestinationExistsRefused,
    /// While resuming, the destination was found to be longer than the
    /// source: it cannot be a partial copy of it. Nothing was written.
    InvalidResumeState,
    /// The byte length of the source could not be read.
    SourceUnreadable,
    /// A read, a write or a flush failed while the transfer was running;
    /// the destination is left in the partial state it had reached.
    Io,
    /// A path has no final component to derive a file name from.
    InvalidPath,
}

/// The description `TransferError::message` returns for each failure.
pub open spec fn message_spec(e: TransferError) -> Seq<char> {
    match e {
        TransferError::SourceNotFound => "source file not found"@,
        TransferError::DestinationExistsRefused => "the destination already exists"@,
        TransferError::InvalidResumeState => "destination file is larger than source"@,
        TransferError::SourceUnreadable => "the size of the source could not be read"@,
        TransferError::Io => "a read or write failed during the transfer"@,
        TransferError::InvalidPath => "the path has no file name"@,
    }
}

/// The process exit code a failure maps to: 2 when the transfer itself
/// failed against the filesystem, 1 for a refusal or a bad request.
pub open spec fn exit_code_spec(e: TransferError) -> int {
    match e {
        TransferError::SourceUnreadable => 2,
        TransferError::Io => 2,
        TransferError::SourceNotFound => 1,
        TransferError::DestinationExistsRefused => 1,
        TransferError::InvalidResumeState => 1,
        TransferError::InvalidPath => 1,
    }
}

impl TransferError {
    /// The process exit code this failure ends the run with; success is 0,
    /// so every failure maps to a non-zero code.
    pub fn exit_code(&self) -> (c: i32)
        ensures
            c == exit_code_spec(*self),
            1 <= c <= 2,
    {
        match self {
            TransferError::SourceUnreadable => 2,
            TransferError::Io => 2,
            _ => 1,
        }
    }

    /// A short description of the failure, fit for an error report.
    pub fn message(&self) -> (m: &'static str)
        ensures
            m@ == message_spec(*self),
    {
        match self {
            TransferError::SourceNotFound => "source file not found",
            TransferError::DestinationExistsRefused => "the destination already exists",
            TransferError::InvalidResumeState => "destination file is larger than source",
            TransferError::SourceUnreadable => "the size of the source could not be read",
            TransferError::Io => "a read or write failed during the transfer",
            TransferError::InvalidPath => "the path has no file name",
        }
    }
}

} // verus!
