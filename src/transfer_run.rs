//! Moves and fetches, one filesystem or network step at a time.
//!
//! The caller performs each action and reports how it went. A failed step
//! ends the run and is surfaced as it is: nothing is retried, copied instead
//! of renamed, or cleaned up (a fetch that fails after writing its temporary
//! file leaves that file in place).
use vstd::prelude::*;
use crate::error::LifecycleError;
use crate::lifecycle::{check_status, is_success_status, FetchPlan, MovePlan};
use crate::update_run::StepOutcome;

verus! {

/// Where a move stands: the step whose outcome it waits for.
#[derive(Clone, Copy, Debug, PartialEq, Eq, Structural)]
pub enum MoveStage {
    CreatingDir,
    Allocating,
    Renaming,
    Over,
}

/// The next thing for the caller to do in a move or a fetch.
#[derive(Debug, PartialEq, Eq)]
pub enum TransferAction {
    /// Create this directory and its parents; an existing one is fine.
    CreateDir { path: String },
    /// Fetch this URL, following at most ten redirects, and report the outcome.
    Download { url: String },
    /// Write the whole response body to this path.
    WriteTemp { path: String },
    /// Allocate a unique path for this target and report it.
    Allocate { target: String },
    /// Rename `from` to `to`; a rename across volumes fails and is not copied.
    Rename { from: String, to: String },
    /// The operation is over, with this result.
    Finished { result: Result<String, LifecycleError> },
}

/// How a fetch's request went.
#[derive(Clone, Debug, PartialEq, Eq)]
pub enum DownloadOutcome {
    /// The server answered with this status, and for a 2xx the body was read.
    Received { status: u16 },
    /// The request or the reading of the body failed.
    TransferFailed { message: String },
}

/// The action that ends a run after a failed filesystem step.
pub open spec fn io_failure(message: String) -> TransferAction {
    TransferAction::Finished { result: Err(LifecycleError::IoError { message }) }
}

/// A move in progress.
pub struct MoveRun {
    pub plan: MovePlan,
    pub stage: MoveStage,
    /// The allocated destination, once known.
    pub placed: String,
}

impl MoveRun {
    /// Starts a move: create the destination's directory where there is one,
    /// else allocate the destination.
    pub fn begin(plan: MovePlan) -> (r: (MoveRun, TransferAction))
        ensures
            r.0.plan == plan,
            match plan.create_dir {
                Some(d) => r.0.stage == MoveStage::CreatingDir && r.1 == (TransferAction::CreateDir {
                    path: d,
                }),
                None => r.0.stage == MoveStage::Allocating && r.1 == (TransferAction::Allocate {
                    target: plan.to,
                }),
            },
    {
        match plan.create_dir.clone() {
            Some(d) => (
                MoveRun { plan, stage: MoveStage::CreatingDir, placed: String::new() },
                TransferAction::CreateDir { path: d },
            ),
            None => {
                let target = plan.to.clone();
                (
                    MoveRun { plan, stage: MoveStage::Allocating, placed: String::new() },
                    TransferAction::Allocate { target },
                )
            },
        }
    }

    /// Takes the outcome of the directory creation or the rename.
    pub fn step_finished(&mut self, outcome: StepOutcome) -> (r: TransferAction)
        requires
            old(self).stage == MoveStage::CreatingDir || old(self).stage == MoveStage::Renaming,
        ensures
            final(self).plan == old(self).plan,
            final(self).placed == old(self).placed,
            match outcome {
                StepOutcome::Failed { message } => final(self).stage == MoveStage::Over && r
                    == io_failure(message),
                StepOutcome::Done => if old(self).stage == MoveStage::CreatingDir {
                    final(self).stage == MoveStage::Allocating && r == (TransferAction::Allocate {
                        target: old(self).plan.to,
                    })
                } else {
                    final(self).stage == MoveStage::Over && r == (TransferAction::Finished {
                        result: Ok(old(self).placed),
                    })
                },
            },
    {
        match outcome {
            StepOutcome::Failed { message } => {
                self.stage = MoveStage::Over;
                TransferAction::Finished { result: Err(LifecycleError::IoError { message }) }
            },
            StepOutcome::Done => if self.stage == MoveStage::CreatingDir {
                self.stage = MoveStage::Allocating;
                TransferAction::Allocate { target: self.plan.to.clone() }
            } else {
                self.stage = MoveStage::Over;
                TransferAction::Finished { result: Ok(self.placed.clone()) }
            },
        }
    }

    /// Takes the allocated destination and gives the rename to it.
    pub fn allocated(&mut self, path: String) -> (r: TransferAction)
        requires
            old(self).stage == MoveStage::Allocating,
        ensures
            final(self).plan == old(self).plan,
            final(self).stage == MoveStage::Renaming,
            final(self).placed == path,
            r == (TransferAction::Rename { from: old(self).plan.from, to: path }),
    {
        self.stage = MoveStage::Renaming;
        self.placed = path.clone();
        TransferAction::Rename { from: self.plan.from.clone(), to: path }
    }
}

/// Where a fetch stands: the step whose outcome it waits for.
#[derive(Clone, Copy, Debug, PartialEq, Eq, Structural)]
pub enum FetchStage {
    CreatingDir,
    Downloading,
    WritingTemp,
    Allocating,
    Renaming,
    Over,
}

/// A fetch in progress.
pub struct FetchRun {
    pub plan: FetchPlan,
    pub stage: FetchStage,
    /// The allocated destination, once known.
    pub placed: String,
}

impl FetchRun {
    /// Starts a fetch: create the destination's directory where there is
    /// one, else download.
    pub fn begin(plan: FetchPlan) -> (r: (FetchRun, TransferAction))
        ensures
            r.0.plan == plan,
            match plan.create_dir {
                Some(d) => r.0.stage == FetchStage::CreatingDir && r.1
                    == (TransferAction::CreateDir { path: d }),
                None => r.0.stage == FetchStage::Downloading && r.1 == (TransferAction::Download {
                    url: plan.url,
                }),
            },
    {
        match plan.create_dir.clone() {
            Some(d) => (
                FetchRun { plan, stage: FetchStage::CreatingDir, placed: String::new() },
                TransferAction::CreateDir { path: d },
            ),
            None => {
                let url = plan.url.clone();
                (
                    FetchRun { plan, stage: FetchStage::Downloading, placed: String::new() },
                    TransferAction::Download { url },
                )
            },
        }
    }

    /// Takes the outcome of the request: a 2xx goes on to write the body to
    /// the temporary path; any other status, or a failed transfer, ends the
    /// fetch before anything is written.
    pub fn downloaded(&mut self, outcome: DownloadOutcome) -> (r: TransferAction)
        requires
            old(self).stage == FetchStage::Downloading,
        ensures
            final(self).plan == old(self).plan,
            final(self).placed == old(self).placed,
            match outcome {
                DownloadOutcome::Received { status } => if is_success_status(status) {
                    final(self).stage == FetchStage::WritingTemp && r == (TransferAction::WriteTemp {
                        path: old(self).plan.temp_path,
                    })
                } else {
                    final(self).stage == FetchStage::Over && r == (TransferAction::Finished {
                        result: Err(LifecycleError::RemoteError { status }),
                    })
                },
                DownloadOutcome::TransferFailed { message } => final(self).stage
                    == FetchStage::Over && r == (TransferAction::Finished {
                    result: Err(LifecycleError::NetworkError { message }),
                }),
            },
    {
        match outcome {
            DownloadOutcome::Received { status } => match check_status(status) {
                Ok(()) => {
                    self.stage = FetchStage::WritingTemp;
                    TransferAction::WriteTemp { path: self.plan.temp_path.clone() }
                },
                Err(e) => {
                    self.stage = FetchStage::Over;
                    TransferAction::Finished { result: Err(e) }
                },
            },
            DownloadOutcome::TransferFailed { message } => {
                self.stage = FetchStage::Over;
                TransferAction::Finished { result: Err(LifecycleError::NetworkError { message }) }
            },
        }
    }

    /// Takes the outcome of the directory creation, the write or the rename.
    pub fn step_finished(&mut self, outcome: StepOutcome) -> (r: TransferAction)
        requires
            old(self).stage == FetchStage::CreatingDir || old(self).stage == FetchStage::WritingTemp
                || old(self).stage == FetchStage::Renaming,
        ensures
            final(self).plan == old(self).plan,
            final(self).placed == old(self).placed,
            match outcome {
                StepOutcome::Failed { message } => final(self).stage == FetchStage::Over && r
                    == io_failure(message),
                StepOutcome::Done => match old(self).stage {
                    FetchStage::CreatingDir => final(self).stage == FetchStage::Downloading && r
                        == (TransferAction::Download { url: old(self).plan.url }),
                    FetchStage::WritingTemp => final(self).stage == FetchStage::Allocating && r
                        == (TransferAction::Allocate { target: old(self).plan.dest }),
                    _ => final(self).stage == FetchStage::Over && r == (TransferAction::Finished {
                        result: Ok(old(self).placed),
                    }),
                },
            },
    {
        match outcome {
            StepOutcome::Failed { message } => {
                self.stage = FetchStage::Over;
                TransferAction::Finished { result: Err(LifecycleError::IoError { message }) }
            },
            StepOutcome::Done => match self.stage {
                FetchStage::CreatingDir => {
                    self.stage = FetchStage::Downloading;
                    TransferAction::Download { url: self.plan.url.clone() }
                },
                FetchStage::WritingTemp => {
                    self.stage = FetchStage::Allocating;
                    TransferAction::Allocate { target: self.plan.dest.clone() }
                },
                _ => {
                    self.stage = FetchStage::Over;
                    TransferAction::Finished { result: Ok(self.placed.clone()) }
                },
            },
        }
    }

    /// Takes the allocated destination and gives the rename of the temporary file to it.
    pub fn allocated(&mut self, path: String) -> (r: TransferAction)
        requires
            old(self).stage == FetchStage::Allocating,
        ensures
            final(self).plan == old(self).plan,
            final(self).stage == FetchStage::Renaming,
            final(self).placed == path,
            r == (TransferAction::Rename { from: old(self).plan.temp_path, to: path }),
    {
        self.stage = FetchStage::Renaming;
        self.placed = path.clone();
        TransferAction::Rename { from: self.plan.temp_path.clone(), to: path }
    }
}

} // verus!
