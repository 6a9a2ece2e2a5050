//! The protocol by which the ledger is written: the file that holds it is
//! copied to a backup, the new content is written to a temporary file, and
//! that file takes the place of the old one in a single step.

use vstd::prelude::*;

verus! {

/// The step of writing that failed.
#[derive(Clone, Copy, Debug, PartialEq, Eq, Structural)]
pub enum PersistFailure {
    Directory,
    Backup,
    Write,
    Replace,
}

/// Where the writing of the ledger stands: the step that is under way.
#[derive(Clone, Copy, Debug, PartialEq, Eq, Structural)]
pub enum PersistStage {
    PreparingDirectory,
    BackingUp,
    Writing,
    Replacing,
    /// The new ledger is in place.
    Finished,
    /// The ledger on disk is as it was before.
    Failed(PersistFailure),
}

/// How a step on the file system ended.
#[derive(Clone, Copy, Debug, PartialEq, Eq, Structural)]
pub enum FileOutcome {
    Done,
    /// The file to work on does not exist.
    Missing,
    Failed,
}

/// What is to be done next.
#[derive(Clone, Copy, Debug, PartialEq, Eq, Structural)]
pub enum PersistAction {
    /// Make sure that the directory of the ledger exists.
    PrepareDirectory,
    /// Copy the ledger file to the backup file.
    BackUp,
    /// Write the new content to the temporary file.
    WriteTemporary,
    /// Move the temporary file to the place of the ledger file.
    Replace,
    /// Nothing more: the ledger was written.
    Stop,
    /// Nothing more: the ledger was not written.
    GiveUp(PersistFailure),
}

/// The stage that follows `stage` after `outcome`.
///
/// A ledger file that does not exist yet cannot be backed up, which is
/// no failure: there is nothing to keep. Every other step must be done for
/// the next to begin.
pub open spec fn persist_transition(stage: PersistStage, outcome: FileOutcome) -> PersistStage {
    match stage {
        PersistStage::PreparingDirectory => if outcome is Done {
            PersistStage::BackingUp
        } else {
            PersistStage::Failed(PersistFailure::Directory)
        },
        PersistStage::BackingUp => if outcome is Failed {
            PersistStage::Failed(PersistFailure::Backup)
        } else {
            PersistStage::Writing
        },
        PersistStage::Writing => if outcome is Done {
            PersistStage::Replacing
        } else {
            PersistStage::Failed(PersistFailure::Write)
        },
        PersistStage::Replacing => if outcome is Done {
            PersistStage::Finished
        } else {
            PersistStage::Failed(PersistFailure::Replace)
        },
        PersistStage::Finished => PersistStage::Finished,
        PersistStage::Failed(failure) => PersistStage::Failed(failure),
    }
}

/// The action that a stage asks for.
pub open spec fn persist_action_of(stage: PersistStage) -> PersistAction {
    match stage {
        PersistStage::PreparingDirectory => PersistAction::PrepareDirectory,
        PersistStage::BackingUp => PersistAction::BackUp,
        PersistStage::Writing => PersistAction::WriteTemporary,
        PersistStage::Replacing => PersistAction::Replace,
        PersistStage::Finished => PersistAction::Stop,
        PersistStage::Failed(failure) => PersistAction::GiveUp(failure),
    }
}

/// The ledger file is replaced only by a temporary file that was written
/// in full: replacing follows writing, and only where writing was done.
pub proof fn law_replace_follows_write(stage: PersistStage, outcome: FileOutcome)
    requires
        persist_transition(stage, outcome) == PersistStage::Replacing,
    ensures
        stage == PersistStage::Writing,
        outcome == FileOutcome::Done,
{
}

/// Nothing is written before the backup was tried, and a backup that
/// failed for another reason than a missing file stops the writing.
pub proof fn law_write_follows_backup(stage: PersistStage, outcome: FileOutcome)
    requires
        persist_transition(stage, outcome) == PersistStage::Writing,
    ensures
        stage == PersistStage::BackingUp,
        outcome == FileOutcome::Done || outcome == FileOutcome::Missing,
{
}

/// On the first run, when there is no ledger file yet, the ledger is
/// written all the same.
pub proof fn law_first_run_is_written()
    ensures
        ({
            let backing = persist_transition(PersistStage::PreparingDirectory, FileOutcome::Done);
            let writing = persist_transition(backing, FileOutcome::Missing);
            let replacing = persist_transition(writing, FileOutcome::Done);
            persist_transition(replacing, FileOutcome::Done) == PersistStage::Finished
        }),
{
}

impl PersistStage {
    /// The stage in which the writing begins.
    pub fn begin() -> (stage: PersistStage)
        ensures
            stage == PersistStage::PreparingDirectory,
    {
        PersistStage::PreparingDirectory
    }

    /// The action that this stage asks for.
    pub fn action(&self) -> (action: PersistAction)
        ensures
            action == persist_action_of(*self),
    {
        match self {
                PersistStage::PreparingDirectory => PersistAction::PrepareDirectory,
            PersistStage::BackingUp => PersistAction::BackUp,
            PersistStage::Writing => PersistAction::WriteTemporary,
            PersistStage::Replacing => PersistAction::Replace,
            PersistStage::Finished => PersistAction::Stop,
            PersistStage::Failed(failure) => PersistAction::GiveUp(*failure),
        }
    }

    /// Takes the outcome of the step that was under way and gives the
    /// stage that follows.
    pub fn advance(self, outcome: FileOutcome) -> (next: PersistStage)
        ensures
            next == persist_transition(self, outcome),
    {
        match self {
                PersistStage::PreparingDirectory => match outcome {
                FileOutcome::Done => PersistStage::BackingUp,
                _ => PersistStage::Failed(PersistFailure::Directory),
            },
            PersistStage::BackingUp => match outcome {
                FileOutcome::Failed => PersistStage::Failed(PersistFailure::Backup),
                _ => PersistStage::Writing,
            },
            PersistStage::Writing => match outcome {
                FileOutcome::Done => PersistStage::Replacing,
                _ => PersistStage::Failed(PersistFailure::Write),
            },
            PersistStage::Replacing => match outcome {
                FileOutcome::Done => PersistStage::Finished,
                _ => PersistStage::Failed(PersistFailure::Replace),
            },
            PersistStage::Finished => PersistStage::Finished,
            PersistStage::Failed(failure) => PersistStage::Failed(failure),
        }
    }
}

} // verus!
