//! The backup-then-swap update, one filesystem step at a time.
//!
//! The caller performs each action and reports how it went. Every step is
//! its own filesystem operation; the sequence as a whole is not atomic, and
//! a failed step ends the run where it stands, with nothing rolled back.
use vstd::prelude::*;
use crate::error::LifecycleError;
use crate::lifecycle::UpdatePlan;

verus! {

/// Where an update stands: the step whose outcome it waits for.
#[derive(Clone, Copy, Debug, PartialEq, Eq, Structural)]
pub enum UpdateStage {
    CreatingBackupDir,
    AllocatingBackup,
    MovingOldToBackup,
    PlacingNew,
    Over,
}

/// The next thing for the caller to do.
#[derive(Debug, PartialEq, Eq)]
pub enum UpdateAction {
    /// Create this directory and its parents; an existing one is fine.
    CreateBackupDir { path: String },
    /// Allocate a unique path for this target and report it.
    AllocateBackup { target: String },
    /// Rename the old file into the backup directory.
    MoveOldToBackup { from: String, to: String },
    /// Rename the new file to its destination, replacing what is there.
    PlaceNew { from: String, to: String },
    /// The update is over, with this result.
    Finished { result: Result<String, LifecycleError> },
}

/// How a filesystem step went.
#[derive(Clone, Debug, PartialEq, Eq)]
pub enum StepOutcome {
    Done,
    Failed { message: String },
}

/// An update in progress.
pub struct UpdateRun {
    pub plan: UpdatePlan,
    pub stage: UpdateStage,
    /// The allocated backup path, once known.
    pub backup: String,
}

/// The action that ends a run after a failed step.
pub open spec fn failed_with(message: String) -> UpdateAction {
    UpdateAction::Finished { result: Err(LifecycleError::IoError { message }) }
}

impl UpdateRun {
    /// Starts an update: its first step creates the backup directory.
    pub fn begin(plan: UpdatePlan) -> (r: (UpdateRun, UpdateAction))
        ensures
            r.0.plan == plan,
            r.0.stage == UpdateStage::CreatingBackupDir,
            r.1 == (UpdateAction::CreateBackupDir { path: plan.backup_dir }),
    {
        let path = plan.backup_dir.clone();
        (
            UpdateRun { plan, stage: UpdateStage::CreatingBackupDir, backup: String::new() },
            UpdateAction::CreateBackupDir { path },
        )
    }

    /// Takes the outcome of a create or rename step and gives the next action.
    pub fn step_finished(&mut self, outcome: StepOutcome) -> (r: UpdateAction)
        requires
            old(self).stage == UpdateStage::CreatingBackupDir || old(self).stage
                == UpdateStage::MovingOldToBackup || old(self).stage == UpdateStage::PlacingNew,
        ensures
            final(self).plan == old(self).plan,
            final(self).backup == old(self).backup,
            match outcome {
                StepOutcome::Failed { message } => {
                    &&& final(self).stage == UpdateStage::Over
                    &&& r == failed_with(message)
                },
                StepOutcome::Done => match old(self).stage {
                    UpdateStage::CreatingBackupDir => {
                        &&& final(self).stage == UpdateStage::AllocatingBackup
                        &&& r == (UpdateAction::AllocateBackup {
                            target: old(self).plan.backup_target,
                        })
                    },
                    UpdateStage::MovingOldToBackup => {
                        &&& final(self).stage == UpdateStage::PlacingNew
                        &&& r == (UpdateAction::PlaceNew {
                            from: old(self).plan.new_temp_path,
                            to: old(self).plan.dest,
                        })
                    },
                    _ => {
                        &&& final(self).stage == UpdateStage::Over
                        &&& r == (UpdateAction::Finished {
                            result: Ok(old(self).plan.new_filename),
                        })
                    },
                },
            },
    {
        match outcome {
            StepOutcome::Failed { message } => {
                self.stage = UpdateStage::Over;
                UpdateAction::Finished { result: Err(LifecycleError::IoError { message }) }
            },
            StepOutcome::Done => match self.stage {
                UpdateStage::CreatingBackupDir => {
                    self.stage = UpdateStage::AllocatingBackup;
                    UpdateAction::AllocateBackup { target: self.plan.backup_target.clone() }
                },
                UpdateStage::MovingOldToBackup => {
                    self.stage = UpdateStage::PlacingNew;
                    UpdateAction::PlaceNew {
                        from: self.plan.new_temp_path.clone(),
                        to: self.plan.dest.clone(),
                    }
                },
                _ => {
                    self.stage = UpdateStage::Over;
                    UpdateAction::Finished { result: Ok(self.plan.new_filename.clone()) }
                },
            },
        }
    }

    /// Takes the allocated backup path and gives the rename of the old file to it.
    pub fn backup_allocated(&mut self, path: String) -> (r: UpdateAction)
        requires
            old(self).stage == UpdateStage::AllocatingBackup,
        ensures
            final(self).plan == old(self).plan,
            final(self).stage == UpdateStage::MovingOldToBackup,
            final(self).backup == path,
            r == (UpdateAction::MoveOldToBackup { from: old(self).plan.old_path, to: path }),
    {
        self.stage = UpdateStage::MovingOldToBackup;
        self.backup = path.clone();
        UpdateAction::MoveOldToBackup { from: self.plan.old_path.clone(), to: path }
    }
}

} // verus!
