//! The transfer engine: the block-wise copy loop and its state.
//!
//! The engine is written over in-memory byte contents. One call of
//! [`run_transfer`] performs a whole transfer: it settles the resume offset,
//! streams the source block by block onto the destination, and drives the
//! progress column from the first to the final position. The same
//! [`TransferState`] steps are what a caller streaming from real files goes
//! through, one block at a time.

use crate::errors::TransferError;
use crate::progress::{column_of, column_spec, lemma_column_in_scale, lemma_column_monotone};
use vstd::prelude::*;

verus! {

/// Bytes moved per read/write cycle; fixed, not configurable.
pub const BLOCK_SIZE: usize = 4096;

/// The ephemeral state of one running transfer.
///
/// `bytes_so_far` counts every byte accounted for, the resumed prefix
/// included, and never decreases; `current_column` is the progress column
/// rendered so far and never decreases either.
#[derive(Clone, Copy, Debug)]
pub struct TransferState {
    /// Byte length of the source.
    pub total_size: u64,
    /// Bytes a previous, interrupted run had already put in place.
    pub already_transferred: u64,
    /// Bytes accounted for so far, `already_transferred` included.
    pub bytes_so_far: u64,
    /// The progress column rendered so far, within 0..=100.
    pub current_column: u8,
}

impl TransferState {
    /// What every step of a transfer preserves: the byte count stays between
    /// the resumed prefix and the total, and the rendered column never runs
    /// ahead of the column the byte count stands at.
    pub open spec fn wf(self) -> bool {
        &&& self.already_transferred <= self.bytes_so_far <= self.total_size
        &&& self.current_column
            <= column_spec(self.bytes_so_far as int, self.total_size as int)
    }

    /// Open a transfer of `total_size` bytes of which `already_transferred`
    /// are in place from an earlier run. Nothing is rendered yet.
    pub fn new(total_size: u64, already_transferred: u64) -> (s: Self)
        requires
            already_transferred <= total_size,
        ensures
            s.wf(),
            s.total_size == total_size,
            s.already_transferred == already_transferred,
            s.bytes_so_far == already_transferred,
            s.current_column == 0,
    {
        proof {
            lemma_column_in_scale(already_transferred as int, total_size as int);
        }
        TransferState {
            total_size,
            already_transferred,
            bytes_so_far: already_transferred,
            current_column: 0,
        }
    }

    /// How many columns the resumed prefix covers: the glyphs to render in
    /// the muted style before any new byte moves. Zero when nothing was
    /// resumed, exactly as the bar of a fresh copy starts at column 0.
    pub fn prefill_columns(&mut self) -> (k: u8)
        requires
            old(self).wf(),
            old(self).current_column == 0,
            old(self).bytes_so_far == old(self).already_transferred,
        ensures
            final(self).wf(),
            final(self).total_size == old(self).total_size,
            final(self).already_transferred == old(self).already_transferred,
            final(self).bytes_so_far == old(self).bytes_so_far,
            k == final(self).current_column,
            final(self).current_column == (if old(self).already_transferred == 0 {
                0int
            } else {
                column_spec(
                    old(self).already_transferred as int,
                    old(self).total_size as int,
                )
            }),
    {
        if self.already_transferred == 0 {
            return 0;
        }
        let c = column_of(self.bytes_so_far, self.total_size);
        self.current_column = c;
        c
    }

    /// Account for one block read of `n` bytes. Returns how many glyphs the
    /// display owes now: one per column crossed, so no crossing is ever
    /// skipped even when a single block jumps several percentage points.
    pub fn note_read(&mut self, n: usize) -> (k: u8)
        requires
            old(self).wf(),
            old(self).bytes_so_far + n <= old(self).total_size,
        ensures
            final(self).wf(),
            final(self).total_size == old(self).total_size,
            final(self).already_transferred == old(self).already_transferred,
            final(self).bytes_so_far == old(self).bytes_so_far + n,
            final(self).current_column == column_spec(
                final(self).bytes_so_far as int,
                final(self).total_size as int,
            ),
            final(self).current_column >= old(self).current_column,
            k == final(self).current_column - old(self).current_column,
    {
        proof {
            lemma_column_monotone(
                old(self).bytes_so_far as int,
                old(self).bytes_so_far + n as int,
                old(self).total_size as int,
            );
        }
        self.bytes_so_far = self.bytes_so_far + n as u64;
        let c = column_of(self.bytes_so_far, self.total_size);
        let k = c - self.current_column;
        self.current_column = c;
        k
    }

    /// Close the display: the glyphs still owed so the bar always ends at
    /// column 100, also for an empty source where no block was ever read.
    pub fn finish_columns(&mut self) -> (k: u8)
        requires
            old(self).wf(),
        ensures
            final(self).total_size == old(self).total_size,
            final(self).already_transferred == old(self).already_transferred,
            final(self).bytes_so_far == old(self).bytes_so_far,
            final(self).current_column == 100,
            k == 100 - old(self).current_column,
    {
        proof {
            lemma_column_in_scale(
                old(self).bytes_so_far as int,
                old(self).total_size as int,
            );
        }
        let k = 100 - self.current_column;
        self.current_column = 100;
        k
    }
}

/// The in-memory stand-in for what is on disk at the destination path:
/// `None` when no file exists there yet.
pub open spec fn dest_contents(dest: Option<Vec<u8>>) -> Option<Seq<u8>> {
    match dest {
        Option::Some(v) => Option::Some(v@),
        Option::None => Option::None,
    }
}

/// The resume path applies when resuming was asked for and the destination
/// already exists.
pub open spec fn resume_active(resume: bool, dest: Option<Seq<u8>>) -> bool {
    resume && dest is Some
}

/// The byte offset reading and writing continue from: the length of the
/// destination on the resume path, zero otherwise.
pub open spec fn resume_offset(resume: bool, dest: Option<Seq<u8>>) -> int {
    if resume_active(resume, dest) {
        dest->Some_0.len() as int
    } else {
        0
    }
}

/// A resume target longer than its source cannot be a partial copy of it.
pub open spec fn resume_invalid(source: Seq<u8>, dest: Option<Seq<u8>>, resume: bool) -> bool {
    resume_active(resume, dest) && dest->Some_0.len() > source.len()
}

/// What a completed transfer leaves at the destination: on the resume path
/// the bytes it already held followed by the rest of the source, on the
/// fresh path the source itself (any earlier contents are discarded).
pub open spec fn transfer_output(source: Seq<u8>, dest: Option<Seq<u8>>, resume: bool) -> Seq<u8> {
    if resume_active(resume, dest) {
        dest->Some_0 + source.skip(dest->Some_0.len() as int)
    } else {
        source
    }
}

/// A copy without resume ends with the destination byte-for-byte identical
/// to the source, whatever the destination held before.
pub proof fn lemma_fresh_copy_identity(source: Seq<u8>, dest: Option<Seq<u8>>)
    ensures
        transfer_output(source, dest, false) == source,
{
}

/// Completing an interrupted copy is the same as copying in one pass: when
/// the destination holds the first `k` bytes of the source, the resumed
/// transfer ends with exactly the source's bytes.
pub proof fn lemma_resume_completes(source: Seq<u8>, k: int)
    requires
        0 <= k <= source.len(),
    ensures
        transfer_output(source, Option::Some(source.take(k)), true) == source,
{
    assert(source.take(k) + source.skip(k) =~= source);
}

/// Append `n` bytes of `source`, starting at `start`, to `out`: the write
/// of one block, in source order.
pub fn copy_block(out: &mut Vec<u8>, source: &Vec<u8>, start: usize, n: usize)
    requires
        start + n <= source@.len(),
    ensures
        final(out)@ == old(out)@ + source@.subrange(start as int, start + n as int),
{
    let len = source.len();
    let mut j: usize = 0;
    while j < n
        invariant
            j <= n,
            start + n <= len,
            len == source@.len(),
            out@ == old(out)@ + source@.subrange(start as int, start + j as int),
        decreases n - j,
    {
        out.push(source[start + j]);
        proof {
            assert(source@.subrange(start as int, start + (j + 1) as int)
                =~= source@.subrange(start as int, start + j as int)
                    .push(source@[start + j as int]));
            assert(out@ =~= old(out)@
                + source@.subrange(start as int, start + (j + 1) as int));
        }
        j = j + 1;
    }
}

/// Run one whole transfer over in-memory contents.
///
/// `source` is what the source file holds, `dest` what the destination path
/// holds (`None`: no file there), `resume` whether an interrupted copy is to
/// be continued. On success the final destination contents come back
/// together with the closed state: every byte accounted for and the
/// progress column at exactly 100. The transfer is refused, before any byte
/// moves, exactly when the resume target is longer than the source.
pub fn run_transfer(source: &Vec<u8>, dest: Option<Vec<u8>>, resume: bool) -> (r: Result<
    (Vec<u8>, TransferState),
    TransferError,
>)
    ensures
        r is Err <==> resume_invalid(source@, dest_contents(dest), resume),
        r is Err ==> r->Err_0 == TransferError::InvalidResumeState,
        r is Ok ==> r->Ok_0.0@ == transfer_output(source@, dest_contents(dest), resume),
        r is Ok ==> r->Ok_0.1.total_size == source@.len()
            && r->Ok_0.1.already_transferred == resume_offset(resume, dest_contents(dest))
            && r->Ok_0.1.bytes_so_far == source@.len()
            && r->Ok_0.1.current_column == 100,
{
    let total: u64 = source.len() as u64;
    let (mut out, offset): (Vec<u8>, usize) = match dest {
        Option::Some(d) => {
            if resume {
                if d.len() > source.len() {
                    return Err(TransferError::InvalidResumeState);
                }
                let off = d.len();
                (d, off)
            } else {
                (Vec::new(), 0)
            }
        },
        Option::None => (Vec::new(), 0),
    };
    let ghost pre: Seq<u8> = out@;
    let mut state = TransferState::new(total, offset as u64);
    let _prefill: u8 = state.prefill_columns();
    let mut i: usize = offset;
    while i < source.len()
        invariant
            state.wf(),
            state.total_size == total,
            total == source@.len(),
            state.already_transferred == offset as u64,
            offset <= i <= source@.len(),
            state.bytes_so_far == i as u64,
            out@ == pre + source@.subrange(offset as int, i as int),
        decreases source@.len() - i,
    {
        let remaining = source.len() - i;
        let n = if remaining < BLOCK_SIZE {
            remaining
        } else {
            BLOCK_SIZE
        };
        copy_block(&mut out, source, i, n);
        let _glyphs: u8 = state.note_read(n);
        proof {
            assert(source@.subrange(offset as int, i + n as int)
                =~= source@.subrange(offset as int, i as int)
                    + source@.subrange(i as int, i + n as int));
        }
        i = i + n;
    }
    let _closing: u8 = state.finish_columns();
    proof {
        assert(out@ =~= pre + source@.skip(offset as int));
        if !resume_active(resume, dest_contents(dest)) {
            assert(out@ =~= source@);
        }
    }
    Ok((out, state))
}

} // verus!
