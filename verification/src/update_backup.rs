use vstd::prelude::*;

use crate::backup::integrity_check_passed;
use crate::error::AppError;

verus! {

/// Where an update backup stands: which step its last action was.
#[derive(Debug, Clone, Copy, PartialEq, Eq, Structural)]
pub enum BackupStage {
    /// Creating the backup directory.
    Preparing,
    /// Copying the database into the pending file.
    Copying,
    /// Checking the integrity of the pending file.
    Checking,
    /// Renaming the pending file to its final name.
    Publishing,
    /// Removing the backups that rotation expires.
    Rotating,
    /// Nothing more to do.
    Finished,
}

/// What the runner of an update backup is asked to do next.
#[derive(Debug, Clone)]
pub enum BackupAction {
    CreateDirectory,
    CopyToPending,
    CheckPending,
    Publish,
    Rotate,
    /// Remove the pending file, then report the error.
    DiscardPending(AppError),
    /// Report the error.
    Fail(AppError),
    /// Report the final backup.
    Succeed,
}

/// What came of the last action.
#[derive(Debug, Clone)]
pub enum BackupEvent {
    Done,
    Failed(AppError),
    /// What SQLite's integrity check said of the pending file.
    IntegrityReport(String),
}

/// The kind of an action, without the error it carries.
#[derive(Debug, Clone, Copy, PartialEq, Eq, Structural)]
pub enum BackupStep {
    CreateDirectory,
    CopyToPending,
    CheckPending,
    Publish,
    Rotate,
    DiscardPending,
    Fail,
    Succeed,
}

pub open spec fn step_of(action: BackupAction) -> BackupStep {
    match action {
        BackupAction::CreateDirectory => BackupStep::CreateDirectory,
        BackupAction::CopyToPending => BackupStep::CopyToPending,
        BackupAction::CheckPending => BackupStep::CheckPending,
        BackupAction::Publish => BackupStep::Publish,
        BackupAction::Rotate => BackupStep::Rotate,
        BackupAction::DiscardPending(_) => BackupStep::DiscardPending,
        BackupAction::Fail(_) => BackupStep::Fail,
        BackupAction::Succeed => BackupStep::Succeed,
    }
}

/// The integrity check passed: it answered exactly `ok`.
pub open spec fn reports_sound(event: BackupEvent) -> bool {
    event matches BackupEvent::IntegrityReport(text) && text@ == seq!['o', 'k']
}

/// The next stage and step of an update backup. Each step follows the success of
/// the one before: create the directory, copy the database into the pending file,
/// check it, give it its final name, rotate. A failed copy, or a check that does not
/// answer `ok`, removes the pending file; every other failure just stops.
pub open spec fn backup_next(stage: BackupStage, event: BackupEvent) -> (BackupStage, BackupStep) {
    match stage {
        BackupStage::Preparing => if event is Done {
            (BackupStage::Copying, BackupStep::CopyToPending)
        } else {
            (BackupStage::Finished, BackupStep::Fail)
        },
        BackupStage::Copying => match event {
            BackupEvent::Done => (BackupStage::Checking, BackupStep::CheckPending),
            BackupEvent::Failed(_) => (BackupStage::Finished, BackupStep::DiscardPending),
            BackupEvent::IntegrityReport(_) => (BackupStage::Finished, BackupStep::Fail),
        },
        BackupStage::Checking => match event {
            BackupEvent::IntegrityReport(_) => if reports_sound(event) {
                (BackupStage::Publishing, BackupStep::Publish)
            } else {
                (BackupStage::Finished, BackupStep::DiscardPending)
            },
            _ => (BackupStage::Finished, BackupStep::Fail),
        },
        BackupStage::Publishing => if event is Done {
            (BackupStage::Rotating, BackupStep::Rotate)
        } else {
            (BackupStage::Finished, BackupStep::Fail)
        },
        BackupStage::Rotating => if event is Done {
            (BackupStage::Finished, BackupStep::Succeed)
        } else {
            (BackupStage::Finished, BackupStep::Fail)
        },
        BackupStage::Finished => (BackupStage::Finished, BackupStep::Fail),
    }
}

/// The error of a failed copy or check is reported as it came; every other error a
/// backup ends with is `backup_failed`.
pub open spec fn is_backup_failed(error: AppError) -> bool {
    error.code@ == "backup_failed"@ && error.message@
        == "Unable to protect the library before updating."@
}

pub open spec fn forwards_error(stage: BackupStage, event: BackupEvent) -> bool {
    (stage is Copying || stage is Checking) && event is Failed
}

/// Decides the next step of an update backup from the outcome of the last one (see
/// `backup_next`).
pub fn advance_backup(stage: BackupStage, event: BackupEvent) -> (r: (BackupStage, BackupAction))
    ensures
        (r.0, step_of(r.1)) == backup_next(stage, event),
        forall|e: AppError|
            (r.1 == BackupAction::Fail(e) || r.1 == BackupAction::DiscardPending(e)) ==> (if forwards_error(
                stage,
                event,
            ) {
                event == BackupEvent::Failed(e)
            } else {
                is_backup_failed(e)
            }),
{
    match stage {
        BackupStage::Preparing => match event {
            BackupEvent::Done => (BackupStage::Copying, BackupAction::CopyToPending),
            _ => (BackupStage::Finished, BackupAction::Fail(AppError::backup_failed())),
        },
        BackupStage::Copying => match event {
            BackupEvent::Done => (BackupStage::Checking, BackupAction::CheckPending),
            BackupEvent::Failed(error) => (BackupStage::Finished, BackupAction::DiscardPending(error)),
            BackupEvent::IntegrityReport(_) => (
                BackupStage::Finished,
                BackupAction::Fail(AppError::backup_failed()),
            ),
        },
        BackupStage::Checking => match event {
            BackupEvent::IntegrityReport(text) => {
                if integrity_check_passed(text.as_str()) {
                    (BackupStage::Publishing, BackupAction::Publish)
                } else {
                    (BackupStage::Finished, BackupAction::DiscardPending(AppError::backup_failed()))
                }
            },
            BackupEvent::Failed(error) => (BackupStage::Finished, BackupAction::Fail(error)),
            BackupEvent::Done => (BackupStage::Finished, BackupAction::Fail(AppError::backup_failed())),
        },
        BackupStage::Publishing => match event {
            BackupEvent::Done => (BackupStage::Rotating, BackupAction::Rotate),
            _ => (BackupStage::Finished, BackupAction::Fail(AppError::backup_failed())),
        },
        BackupStage::Rotating => match event {
            BackupEvent::Done => (BackupStage::Finished, BackupAction::Succeed),
            _ => (BackupStage::Finished, BackupAction::Fail(AppError::backup_failed())),
        },
        BackupStage::Finished => (BackupStage::Finished, BackupAction::Fail(AppError::backup_failed())),
    }
}

} // verus!

verus! {

/// The stage an update backup is at once the runner has reported `events`, one for
/// each action, starting from `CreateDirectory`.
pub open spec fn backup_stage_after(events: Seq<BackupEvent>) -> BackupStage
    decreases events.len(),
{
    if events.len() == 0 {
        BackupStage::Preparing
    } else {
        backup_next(backup_stage_after(events.drop_last()), events.last()).0
    }
}

/// The steps an update backup asks for when the runner reports `events`: first
/// `CreateDirectory`, then one step for each event.
pub open spec fn backup_steps(events: Seq<BackupEvent>) -> Seq<BackupStep>
    decreases events.len(),
{
    if events.len() == 0 {
        seq![BackupStep::CreateDirectory]
    } else {
        backup_steps(events.drop_last()).push(
            backup_next(backup_stage_after(events.drop_last()), events.last()).1,
        )
    }
}

/// Each stage is entered by its own step only.
proof fn stage_follows_its_step(events: Seq<BackupEvent>)
    ensures
        backup_steps(events).len() == events.len() + 1,
        backup_stage_after(events) is Preparing <==> events.len() == 0,
        backup_stage_after(events) is Copying ==> backup_steps(events).last()
            == BackupStep::CopyToPending,
        backup_stage_after(events) is Checking ==> backup_steps(events).last()
            == BackupStep::CheckPending,
        backup_stage_after(events) is Publishing ==> backup_steps(events).last()
            == BackupStep::Publish,
        backup_stage_after(events) is Rotating ==> backup_steps(events).last()
            == BackupStep::Rotate,
    decreases events.len(),
{
    if events.len() > 0 {
        stage_follows_its_step(events.drop_last());
    }
}

/// Over any run of an update backup: the pending copy gets its final name only right
/// after its integrity check answered `ok`, that check only right after the copy
/// succeeded, and older backups are rotated only right after the new backup got its
/// final name. So no backup is ever removed before a new one is in place.
pub proof fn backup_steps_keep_their_order(events: Seq<BackupEvent>, i: int)
    requires
        0 < i < backup_steps(events).len(),
    ensures
        backup_steps(events)[i] == BackupStep::Rotate ==> backup_steps(events)[i - 1]
            == BackupStep::Publish && events[i - 1] is Done,
        backup_steps(events)[i] == BackupStep::Publish ==> backup_steps(events)[i - 1]
            == BackupStep::CheckPending && reports_sound(events[i - 1]),
        backup_steps(events)[i] == BackupStep::CheckPending ==> backup_steps(events)[i - 1]
            == BackupStep::CopyToPending && events[i - 1] is Done,
    decreases events.len(),
{
    stage_follows_its_step(events);
    let prefix = events.drop_last();
    stage_follows_its_step(prefix);
    if i < events.len() {
        backup_steps_keep_their_order(prefix, i);
        assert(backup_steps(events)[i] == backup_steps(prefix)[i]);
        assert(backup_steps(events)[i - 1] == backup_steps(prefix)[i - 1]);
        assert(events[i - 1] == prefix[i - 1]);
    } else {
        assert(backup_steps(events)[i - 1] == backup_steps(prefix).last());
    }
}

} // verus!
