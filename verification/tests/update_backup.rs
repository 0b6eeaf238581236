use manga_shelf_lib::error::AppError;
use manga_shelf_lib::update_backup::{advance_backup, BackupAction, BackupEvent, BackupStage};

fn step(stage: BackupStage, event: BackupEvent) -> (BackupStage, BackupAction) {
    advance_backup(stage, event)
}

fn failure() -> BackupEvent {
    BackupEvent::Failed(AppError::new("database_operation_failed", "The database operation failed."))
}

#[test]
fn a_successful_backup_goes_through_every_step_in_order() {
    let (stage, action) = step(BackupStage::Preparing, BackupEvent::Done);
    assert_eq!(stage, BackupStage::Copying);
    assert!(matches!(action, BackupAction::CopyToPending));
    let (stage, action) = step(stage, BackupEvent::Done);
    assert_eq!(stage, BackupStage::Checking);
    assert!(matches!(action, BackupAction::CheckPending));
    let (stage, action) = step(stage, BackupEvent::IntegrityReport("ok".to_string()));
    assert_eq!(stage, BackupStage::Publishing);
    assert!(matches!(action, BackupAction::Publish));
    let (stage, action) = step(stage, BackupEvent::Done);
    assert_eq!(stage, BackupStage::Rotating);
    assert!(matches!(action, BackupAction::Rotate));
    let (stage, action) = step(stage, BackupEvent::Done);
    assert_eq!(stage, BackupStage::Finished);
    assert!(matches!(action, BackupAction::Succeed));
}

#[test]
fn a_failed_copy_discards_the_pending_file_with_its_own_error() {
    let (stage, action) = step(BackupStage::Copying, failure());
    assert_eq!(stage, BackupStage::Finished);
    match action {
        BackupAction::DiscardPending(error) => assert_eq!(error.code, "database_operation_failed"),
        other => panic!("unexpected {other:?}"),
    }
}

#[test]
fn an_unsound_copy_is_discarded_and_never_published() {
    for report in ["*** in database main ***", "", "OK", "ok "] {
        let (stage, action) = step(BackupStage::Checking, BackupEvent::IntegrityReport(report.to_string()));
        assert_eq!(stage, BackupStage::Finished);
        match action {
            BackupAction::DiscardPending(error) => assert_eq!(error.code, "backup_failed"),
            other => panic!("unexpected {other:?}"),
        }
    }
}

#[test]
fn other_failures_stop_the_backup_without_rotation() {
    for stage in [BackupStage::Preparing, BackupStage::Publishing, BackupStage::Rotating] {
        let (next, action) = step(stage, failure());
        assert_eq!(next, BackupStage::Finished);
        match action {
            BackupAction::Fail(error) => {
                assert_eq!(error.code, "backup_failed");
                assert_eq!(error.message, "Unable to protect the library before updating.");
            }
            other => panic!("unexpected {other:?}"),
        }
    }
    let (_, action) = step(BackupStage::Checking, failure());
    match action {
        BackupAction::Fail(error) => assert_eq!(error.code, "database_operation_failed"),
        other => panic!("unexpected {other:?}"),
    }
}
