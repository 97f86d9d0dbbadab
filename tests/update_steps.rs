use mod_lifecycle::error::LifecycleError;
use mod_lifecycle::lifecycle::plan_update;
use mod_lifecycle::update_run::{StepOutcome, UpdateAction, UpdateRun, UpdateStage};

fn start() -> (UpdateRun, UpdateAction) {
    let plan = plan_update("Mods/foo.jar", "tmp/foo.jar.new", "Mods", "foo-2.jar", true, true).unwrap();
    UpdateRun::begin(plan)
}

#[test]
fn successful_update_runs_all_steps_in_order() {
    let (mut run, a) = start();
    assert_eq!(a, UpdateAction::CreateBackupDir { path: "Mods.backup".to_string() });
    let a = run.step_finished(StepOutcome::Done);
    assert_eq!(a, UpdateAction::AllocateBackup { target: "Mods.backup/foo.jar.bak".to_string() });
    let a = run.backup_allocated("Mods.backup/foo.jar (1).bak".to_string());
    assert_eq!(
        a,
        UpdateAction::MoveOldToBackup {
            from: "Mods/foo.jar".to_string(),
            to: "Mods.backup/foo.jar (1).bak".to_string()
        }
    );
    let a = run.step_finished(StepOutcome::Done);
    assert_eq!(
        a,
        UpdateAction::PlaceNew { from: "tmp/foo.jar.new".to_string(), to: "Mods/foo-2.jar".to_string() }
    );
    let a = run.step_finished(StepOutcome::Done);
    assert_eq!(a, UpdateAction::Finished { result: Ok("foo-2.jar".to_string()) });
    assert_eq!(run.stage, UpdateStage::Over);
    assert_eq!(run.backup, "Mods.backup/foo.jar (1).bak");
}

#[test]
fn failed_placement_stops_without_rollback() {
    let (mut run, _) = start();
    run.step_finished(StepOutcome::Done);
    run.backup_allocated("Mods.backup/foo.jar.bak".to_string());
    run.step_finished(StepOutcome::Done);
    let a = run.step_finished(StepOutcome::Failed { message: "disk full".to_string() });
    assert_eq!(
        a,
        UpdateAction::Finished { result: Err(LifecycleError::IoError { message: "disk full".to_string() }) }
    );
    assert_eq!(run.stage, UpdateStage::Over);
    assert_eq!(run.backup, "Mods.backup/foo.jar.bak");
}

#[test]
fn failed_backup_dir_ends_before_any_rename() {
    let (mut run, _) = start();
    let a = run.step_finished(StepOutcome::Failed { message: "denied".to_string() });
    assert_eq!(
        a,
        UpdateAction::Finished { result: Err(LifecycleError::IoError { message: "denied".to_string() }) }
    );
}
