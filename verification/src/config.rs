//! The resolved configuration of one invocation.

use vstd::prelude::*;

verus! {

/// Everything one transfer is told to do, resolved once and then read only.
///
/// `source` and `destination` are the two paths; the flags select resuming,
/// forced overwrite, move semantics, the progress display, its glyph style,
/// and verbose reporting.
#[derive(Clone, Debug)]
pub struct TransferConfig {
    /// Path of the file to copy from.
    pub source: String,
    /// Path to copy to; may still name a directory when handed to the
    /// orchestrator, which then appends the source's file name.
    pub destination: String,
    /// Continue a partial copy instead of starting over.
    pub resume: bool,
    /// Overwrite an existing destination.
    pub force: bool,
    /// Delete the source once the copy has succeeded.
    pub move_file: bool,
    /// Render a progress bar while copying.
    pub progress: bool,
    /// Draw the progress bar with ASCII glyphs instead of box drawing.
    pub ascii: bool,
    /// Report what is being done and how it ended.
    pub verbose: bool,
}

} // verus!
