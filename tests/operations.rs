use mod_lifecycle::checks::{
    check_existing, check_launch_target, check_open_target, file_manager_program, path_access,
    plan_write_text,
};
use mod_lifecycle::error::{InputField, LifecycleError};
use mod_lifecycle::platform::Platform;
use mod_lifecycle::lifecycle::{
    check_status, clean_path, disabled_dir_path, ensure_dir_step, mods_dir_path, plan_fetch,
    plan_fetch_clean, plan_move, plan_move_clean, plan_update, plan_update_clean, sidecar_path,
    sidecar_path_clean, DirStep,
};

#[test]
fn clean_path_trims_white_space() {
    assert_eq!(clean_path("  Mods/a.jar \n"), "Mods/a.jar");
}

#[test]
fn move_of_missing_source_is_not_found() {
    let r = plan_move(" a/x.jar ", "b/x.jar", false, false);
    assert_eq!(r.unwrap_err(), LifecycleError::NotFound { path: "a/x.jar".to_string() });
}

#[test]
fn move_of_directory_is_invalid_source() {
    let r = plan_move("a/x", "b/x", true, true);
    assert_eq!(r.unwrap_err(), LifecycleError::InvalidSource { path: "a/x".to_string() });
}

#[test]
fn move_creates_destination_parent() {
    let p = plan_move("a/x.jar", " new/dir/x.jar ", true, false).unwrap();
    assert_eq!(p.from, "a/x.jar");
    assert_eq!(p.to, "new/dir/x.jar");
    assert_eq!(p.create_dir.as_deref(), Some("new/dir"));
    let q = plan_move("a/x.jar", "x.jar", true, false).unwrap();
    assert_eq!(q.create_dir, None);
    let r = plan_move("a/x.jar", "/x.jar", true, false).unwrap();
    assert_eq!(r.create_dir.as_deref(), Some("/"));
}

#[test]
fn fetch_with_empty_url_is_refused() {
    let r = plan_fetch("   ", "dl/a.jar");
    assert_eq!(r.unwrap_err(), LifecycleError::InvalidInput { field: InputField::Url });
}

#[test]
fn fetch_writes_a_temp_file_beside_the_destination() {
    let p = plan_fetch(" https://example.org/a.jar ", "dl/a.jar").unwrap();
    assert_eq!(p.url, "https://example.org/a.jar");
    assert_eq!(p.dest, "dl/a.jar");
    assert_eq!(p.temp_path, "dl/a.tmp");
    assert_eq!(p.create_dir.as_deref(), Some("dl"));
}

#[test]
fn status_2xx_is_success_other_is_remote_error() {
    assert_eq!(check_status(200), Ok(()));
    assert_eq!(check_status(299), Ok(()));
    assert_eq!(check_status(404), Err(LifecycleError::RemoteError { status: 404 }));
    assert_eq!(check_status(199), Err(LifecycleError::RemoteError { status: 199 }));
    assert_eq!(check_status(300), Err(LifecycleError::RemoteError { status: 300 }));
}

#[test]
fn update_plan_for_mods_folder() {
    let p = plan_update("Mods/foo.jar", "tmp/foo.jar.new", "Mods", "foo-2.jar", true, true).unwrap();
    assert_eq!(p.old_path, "Mods/foo.jar");
    assert_eq!(p.new_temp_path, "tmp/foo.jar.new");
    assert_eq!(p.backup_dir, "Mods.backup");
    assert_eq!(p.backup_target, "Mods.backup/foo.jar.bak");
    assert_eq!(p.dest, "Mods/foo-2.jar");
    assert_eq!(p.new_filename, "foo-2.jar");
}

#[test]
fn update_plan_in_nested_folder() {
    let p = plan_update("/g/Mods/a.jar", "/t/n", "/g/Mods", " a.jar ", true, true).unwrap();
    assert_eq!(p.backup_dir, "/g/Mods.backup");
    assert_eq!(p.backup_target, "/g/Mods.backup/a.jar.bak");
    assert_eq!(p.dest, "/g/Mods/a.jar");
    assert_eq!(p.new_filename, "a.jar");
}

#[test]
fn update_errors_in_order() {
    let e = plan_update("o.jar", "n.jar", "Mods", "", false, false).unwrap_err();
    assert_eq!(e, LifecycleError::NotFound { path: "o.jar".to_string() });
    let e = plan_update("o.jar", "n.jar", "Mods", "", true, false).unwrap_err();
    assert_eq!(e, LifecycleError::NotFound { path: "n.jar".to_string() });
    let e = plan_update("o.jar", "n.jar", "Mods", "  ", true, true).unwrap_err();
    assert_eq!(e, LifecycleError::InvalidInput { field: InputField::Filename });
}

#[test]
fn disabled_sidecar_name() {
    assert_eq!(disabled_dir_path("Mods").unwrap(), "Mods.disabled");
    assert_eq!(disabled_dir_path(" /g/Mods ").unwrap(), "/g/Mods.disabled");
    assert_eq!(
        disabled_dir_path(" ").unwrap_err(),
        LifecycleError::InvalidInput { field: InputField::Path }
    );
    assert_eq!(sidecar_path("data/Mods", "backup").unwrap(), "data/Mods.backup");
}

#[test]
fn mods_dir_must_not_be_empty() {
    assert_eq!(mods_dir_path(" Mods ").unwrap(), "Mods");
    assert!(mods_dir_path("").is_err());
}

#[test]
fn sidecar_created_then_present() {
    let p = "Mods.disabled".to_string();
    assert_eq!(ensure_dir_step(&p, false, false), Ok(DirStep::Create));
    assert_eq!(ensure_dir_step(&p, true, true), Ok(DirStep::AlreadyPresent));
}

#[test]
fn sidecar_occupied_by_file_is_invalid_state() {
    let p = "Mods.disabled".to_string();
    assert_eq!(ensure_dir_step(&p, true, false), Err(LifecycleError::InvalidState { path: p.clone() }));
}

#[test]
fn access_needs_existing_directory() {
    let a = path_access(true, true, true);
    assert!(a.exists && a.is_dir && a.writable);
    let b = path_access(false, true, true);
    assert!(!b.exists && !b.is_dir && !b.writable);
    let c = path_access(true, false, true);
    assert!(c.exists && !c.is_dir && !c.writable);
}

#[test]
fn text_write_plan() {
    let p = plan_write_text(" out/profile.json ").unwrap();
    assert_eq!(p.path, "out/profile.json");
    assert_eq!(p.create_dir.as_deref(), Some("out"));
    assert!(plan_write_text("  ").is_err());
}

#[test]
fn existing_checks() {
    assert_eq!(check_existing(" a.txt ", true, true).unwrap(), "a.txt");
    assert_eq!(
        check_existing("a.txt", true, false).unwrap_err(),
        LifecycleError::NotFound { path: "a.txt".to_string() }
    );
    assert_eq!(check_open_target(" ", true).unwrap_err(), LifecycleError::InvalidInput { field: InputField::Path });
    assert_eq!(check_open_target("x", true).unwrap(), "x");
}

#[test]
fn launch_target_checks() {
    assert_eq!(check_launch_target("", true, false).unwrap_err(), LifecycleError::InvalidInput { field: InputField::Path });
    assert_eq!(check_launch_target("g", false, false).unwrap_err(), LifecycleError::NotFound { path: "g".to_string() });
    assert_eq!(check_launch_target("g", true, true).unwrap_err(), LifecycleError::InvalidSource { path: "g".to_string() });
    assert_eq!(check_launch_target(" g ", true, false).unwrap(), "g");
}

#[test]
fn file_manager_per_platform() {
    assert_eq!(file_manager_program(Platform::Windows).as_deref(), Some("explorer"));
    assert_eq!(file_manager_program(Platform::MacOs).as_deref(), Some("open"));
    assert_eq!(file_manager_program(Platform::Linux).as_deref(), Some("xdg-open"));
    assert_eq!(file_manager_program(Platform::Other), None);
}

#[test]
fn update_onto_existing_name_is_no_error() {
    let p = plan_update("Mods/foo.jar", "tmp/foo.jar.new", "Mods", "foo.jar", true, true).unwrap();
    assert_eq!(p.dest, "Mods/foo.jar");
    assert_eq!(p.backup_target, "Mods.backup/foo.jar.bak");
    assert_eq!(p.new_filename, "foo.jar");
}

#[test]
fn update_of_unnamed_old_file_backs_up_as_mod() {
    let p = plan_update("/", "n.jar", "Mods", "x.jar", true, true).unwrap();
    assert_eq!(p.backup_target, "Mods.backup/mod.bak");
}

#[test]
fn update_plan_with_backslash_paths() {
    let p = plan_update("C:\\g\\Mods\\a.jar", "C:\\t\\n", "C:\\g\\Mods", "b.jar", true, true).unwrap();
    assert_eq!(p.backup_dir, "C:\\g\\Mods.backup");
    assert_eq!(p.backup_target, "C:\\g\\Mods.backup/a.jar.bak");
    assert_eq!(p.dest, "C:\\g\\Mods/b.jar");
}

#[test]
fn backup_dir_is_named_after_destination() {
    let p = plan_update("Games/Addons/a.jar", "t/n", "Games/Addons", "b.jar", true, true).unwrap();
    assert_eq!(p.backup_dir, "Games/Addons.backup");
    assert_eq!(p.backup_target, "Games/Addons.backup/a.jar.bak");
    assert_eq!(p.dest, "Games/Addons/b.jar");
}

#[test]
fn trailing_separator_is_set_aside() {
    assert_eq!(disabled_dir_path("/m/Mods/").unwrap(), "/m/Mods.disabled");
    assert_eq!(disabled_dir_path("Mods//").unwrap(), "Mods.disabled");
    let p = plan_update("Mods/a.jar", "t/n", "Mods/", "b.jar", true, true).unwrap();
    assert_eq!(p.backup_dir, "Mods.backup");
    assert_eq!(p.dest, "Mods/b.jar");
    let m = plan_move("a.jar", "x/y/", true, false).unwrap();
    assert_eq!(m.create_dir.as_deref(), Some("x"));
}

#[test]
fn clean_plans_take_paths_as_given() {
    let p = plan_update_clean("Mods/foo.jar", "tmp/foo.jar.new", "Mods", "foo-2.jar", true, true).unwrap();
    assert_eq!(p.backup_target, "Mods.backup/foo.jar.bak");
    assert_eq!(p.dest, "Mods/foo-2.jar");
    let m = plan_move_clean("a.jar", "b/c.jar", true, false).unwrap();
    assert_eq!(m.create_dir.as_deref(), Some("b"));
    let f = plan_fetch_clean("http://x/y", "d/e.jar").unwrap();
    assert_eq!(f.temp_path, "d/e.tmp");
    assert!(plan_fetch_clean("", "d/e.jar").is_err());
    assert_eq!(sidecar_path_clean("Mods", "disabled").unwrap(), "Mods.disabled");
    assert!(sidecar_path_clean("", "disabled").is_err());
}

#[test]
fn clean_path_trims_unicode_white_space_only() {
    assert_eq!(clean_path("\u{3000}\u{a0}Mods\t\u{2028}"), "Mods");
    assert_eq!(clean_path("\u{200b}Mods"), "\u{200b}Mods");
}
