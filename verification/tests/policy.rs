use copyfile::errors::TransferError;
use copyfile::orchestrator::{plan_transfer, should_delete_source};

#[test]
fn existing_destination_refused_without_force_or_resume() {
    let r = plan_transfer(true, 0, 100, false, false);
    assert_eq!(r.unwrap_err(), TransferError::DestinationExistsRefused);
}

#[test]
fn force_overwrites_existing_destination() {
    let d = plan_transfer(true, 55, 100, true, false).unwrap();
    assert_eq!(d.offset, 0);
    assert!(!d.append);
}

#[test]
fn resume_continues_from_destination_length() {
    let d = plan_transfer(true, 40, 100, false, true).unwrap();
    assert_eq!(d.offset, 40);
    assert!(d.append);
}

#[test]
fn resume_onto_missing_destination_starts_fresh() {
    let d = plan_transfer(false, 0, 100, false, true).unwrap();
    assert_eq!(d.offset, 0);
    assert!(!d.append);
}

#[test]
fn fresh_copy_onto_missing_destination_runs() {
    let d = plan_transfer(false, 0, 100, false, false).unwrap();
    assert_eq!(d.offset, 0);
    assert!(!d.append);
}

#[test]
fn resume_refuses_destination_longer_than_source() {
    let r = plan_transfer(true, 101, 100, false, true);
    assert_eq!(r.unwrap_err(), TransferError::InvalidResumeState);
}

#[test]
fn resume_accepts_destination_equal_to_source() {
    let d = plan_transfer(true, 100, 100, false, true).unwrap();
    assert_eq!(d.offset, 100);
    assert!(d.append);
}

#[test]
fn source_deleted_only_after_successful_copy() {
    assert!(should_delete_source(true, true));
    assert!(!should_delete_source(true, false));
    assert!(!should_delete_source(false, true));
    assert!(!should_delete_source(false, false));
}

#[test]
fn every_failure_exits_non_zero() {
    assert_eq!(TransferError::SourceNotFound.exit_code(), 1);
    assert_eq!(TransferError::DestinationExistsRefused.exit_code(), 1);
    assert_eq!(TransferError::InvalidResumeState.exit_code(), 1);
    assert_eq!(TransferError::InvalidPath.exit_code(), 1);
    assert_eq!(TransferError::SourceUnreadable.exit_code(), 2);
    assert_eq!(TransferError::Io.exit_code(), 2);
}

#[test]
fn every_failure_has_a_message() {
    assert_eq!(TransferError::SourceNotFound.message(), "source file not found");
    assert_eq!(
        TransferError::DestinationExistsRefused.message(),
        "the destination already exists"
    );
    assert_eq!(
        TransferError::InvalidResumeState.message(),
        "destination file is larger than source"
    );
    assert_eq!(
        TransferError::SourceUnreadable.message(),
        "the size of the source could not be read"
    );
    assert_eq!(TransferError::Io.message(), "a read or write failed during the transfer");
    assert_eq!(TransferError::InvalidPath.message(), "the path has no file name");
}
