use mod_lifecycle::error::LifecycleError;
use mod_lifecycle::lifecycle::{plan_fetch, plan_move};
use mod_lifecycle::transfer_run::{DownloadOutcome, FetchRun, FetchStage, MoveRun, MoveStage, TransferAction};
use mod_lifecycle::update_run::StepOutcome;

#[test]
fn move_into_new_directory_runs_all_steps() {
    let plan = plan_move("a/x.jar", "new/dir/x.jar", true, false).unwrap();
    let (mut run, a) = MoveRun::begin(plan);
    assert_eq!(a, TransferAction::CreateDir { path: "new/dir".to_string() });
    let a = run.step_finished(StepOutcome::Done);
    assert_eq!(a, TransferAction::Allocate { target: "new/dir/x.jar".to_string() });
    let a = run.allocated("new/dir/x (1).jar".to_string());
    assert_eq!(a, TransferAction::Rename { from: "a/x.jar".to_string(), to: "new/dir/x (1).jar".to_string() });
    let a = run.step_finished(StepOutcome::Done);
    assert_eq!(a, TransferAction::Finished { result: Ok("new/dir/x (1).jar".to_string()) });
    assert_eq!(run.stage, MoveStage::Over);
}

#[test]
fn move_without_directory_allocates_first_and_surfaces_rename_failure() {
    let plan = plan_move("a.jar", "b.jar", true, false).unwrap();
    let (mut run, a) = MoveRun::begin(plan);
    assert_eq!(a, TransferAction::Allocate { target: "b.jar".to_string() });
    run.allocated("b.jar".to_string());
    let a = run.step_finished(StepOutcome::Failed { message: "cross-device link".to_string() });
    assert_eq!(
        a,
        TransferAction::Finished { result: Err(LifecycleError::IoError { message: "cross-device link".to_string() }) }
    );
}

#[test]
fn fetch_success_places_temp_file() {
    let plan = plan_fetch("http://h/f.jar", "dl/f.jar").unwrap();
    let (mut run, a) = FetchRun::begin(plan);
    assert_eq!(a, TransferAction::CreateDir { path: "dl".to_string() });
    let a = run.step_finished(StepOutcome::Done);
    assert_eq!(a, TransferAction::Download { url: "http://h/f.jar".to_string() });
    let a = run.downloaded(DownloadOutcome::Received { status: 200 });
    assert_eq!(a, TransferAction::WriteTemp { path: "dl/f.tmp".to_string() });
    let a = run.step_finished(StepOutcome::Done);
    assert_eq!(a, TransferAction::Allocate { target: "dl/f.jar".to_string() });
    let a = run.allocated("dl/f.jar".to_string());
    assert_eq!(a, TransferAction::Rename { from: "dl/f.tmp".to_string(), to: "dl/f.jar".to_string() });
    let a = run.step_finished(StepOutcome::Done);
    assert_eq!(a, TransferAction::Finished { result: Ok("dl/f.jar".to_string()) });
}

#[test]
fn fetch_404_ends_before_writing() {
    let plan = plan_fetch("http://h/f.jar", "f.jar").unwrap();
    let (mut run, a) = FetchRun::begin(plan);
    assert_eq!(a, TransferAction::Download { url: "http://h/f.jar".to_string() });
    let a = run.downloaded(DownloadOutcome::Received { status: 404 });
    assert_eq!(a, TransferAction::Finished { result: Err(LifecycleError::RemoteError { status: 404 }) });
    assert_eq!(run.stage, FetchStage::Over);
}

#[test]
fn fetch_transfer_failure_is_network_error() {
    let plan = plan_fetch("http://h/f.jar", "f.jar").unwrap();
    let (mut run, _) = FetchRun::begin(plan);
    let a = run.downloaded(DownloadOutcome::TransferFailed { message: "timeout".to_string() });
    assert_eq!(a, TransferAction::Finished { result: Err(LifecycleError::NetworkError { message: "timeout".to_string() }) });
}

#[test]
fn fetch_failed_rename_leaves_temp_without_cleanup() {
    let plan = plan_fetch("http://h/f.jar", "f.jar").unwrap();
    let (mut run, _) = FetchRun::begin(plan);
    run.downloaded(DownloadOutcome::Received { status: 200 });
    run.step_finished(StepOutcome::Done);
    run.allocated("f.jar".to_string());
    let a = run.step_finished(StepOutcome::Failed { message: "denied".to_string() });
    assert_eq!(a, TransferAction::Finished { result: Err(LifecycleError::IoError { message: "denied".to_string() }) });
}
