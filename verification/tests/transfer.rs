use copyfile::engine::{run_transfer, TransferState, BLOCK_SIZE};
use copyfile::errors::TransferError;

fn incrementing(n: usize) -> Vec<u8> {
    let mut v = Vec::with_capacity(n);
    for i in 0..n {
        v.push((i % 256) as u8);
    }
    v
}

#[test]
fn fresh_copy_is_byte_identical() {
    let source = incrementing(10_000);
    let (out, state) = run_transfer(&source, None, false).unwrap();
    assert_eq!(out.len(), 10_000);
    assert_eq!(out, source);
    assert_eq!(state.total_size, 10_000);
    assert_eq!(state.bytes_so_far, 10_000);
    assert_eq!(state.already_transferred, 0);
    assert_eq!(state.current_column, 100);
}

#[test]
fn fresh_copy_discards_existing_contents() {
    let source = incrementing(5_000);
    let stale = vec![0xAA; 123];
    let (out, _) = run_transfer(&source, Some(stale), false).unwrap();
    assert_eq!(out, source);
}

#[test]
fn resume_completes_any_prefix() {
    let source = incrementing(10_000);
    for k in [0usize, 1, 4_095, 4_096, 4_097, 9_999, 10_000] {
        let partial = source[..k].to_vec();
        let (out, state) = run_transfer(&source, Some(partial), true).unwrap();
        assert_eq!(out, source, "resuming after {k} bytes");
        assert_eq!(state.already_transferred, k as u64);
        assert_eq!(state.current_column, 100);
    }
}

#[test]
fn resume_after_one_block() {
    let source = incrementing(10_000);
    let partial = source[..BLOCK_SIZE].to_vec();
    let (out, state) = run_transfer(&source, Some(partial), true).unwrap();
    assert_eq!(out, source);
    assert_eq!(state.bytes_so_far - state.already_transferred, (10_000 - 4_096) as u64);
}

#[test]
fn resume_refuses_longer_destination() {
    let source = incrementing(10_000);
    let longer = incrementing(10_001);
    let r = run_transfer(&source, Some(longer), true);
    assert_eq!(r.unwrap_err(), TransferError::InvalidResumeState);
}

#[test]
fn empty_source_produces_empty_destination() {
    let source: Vec<u8> = Vec::new();
    let (out, state) = run_transfer(&source, None, false).unwrap();
    assert!(out.is_empty());
    assert_eq!(state.current_column, 100);
}

#[test]
fn empty_source_resumed_onto_empty_destination() {
    let source: Vec<u8> = Vec::new();
    let (out, state) = run_transfer(&source, Some(Vec::new()), true).unwrap();
    assert!(out.is_empty());
    assert_eq!(state.current_column, 100);
}

#[test]
fn block_multiples_copy_exactly() {
    for n in [BLOCK_SIZE, 2 * BLOCK_SIZE] {
        let source = incrementing(n);
        let (out, _) = run_transfer(&source, None, false).unwrap();
        assert_eq!(out, source);
    }
}

#[test]
fn column_steps_never_decrease_and_reach_100() {
    let mut state = TransferState::new(10_000, 4_096);
    let prefill = state.prefill_columns();
    assert_eq!(prefill, 40);
    assert_eq!(state.current_column, 40);
    let k1 = state.note_read(4_096);
    assert_eq!(state.current_column, 81);
    assert_eq!(k1, 41);
    let k2 = state.note_read(1_808);
    assert_eq!(state.current_column, 100);
    assert_eq!(k2, 19);
    let k3 = state.finish_columns();
    assert_eq!(k3, 0);
    assert_eq!(state.current_column, 100);
}

#[test]
fn column_of_empty_total_is_complete() {
    let mut state = TransferState::new(0, 0);
    let prefill = state.prefill_columns();
    assert_eq!(prefill, 0);
    let closing = state.finish_columns();
    assert_eq!(closing, 100);
    assert_eq!(state.current_column, 100);
}
