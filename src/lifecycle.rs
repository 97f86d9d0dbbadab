//! The decisions of each file-lifecycle operation. The caller observes the
//! filesystem, hands the observations in, and performs the steps of the plan
//! that comes back.
use vstd::prelude::*;
use crate::error::{InputField, LifecycleError};
use crate::path_text::{
    file_name, join, join_of, names_entry, names_entry_of, parent_dir, parent_dir_of, push_all,
    split_path, with_extension, with_extension_of,
};
use crate::text::{chars_of, string_of, trim_text, trimmed};

verus! {

/// The extension that marks a directory of disabled mods.
pub open spec fn disabled_suffix() -> Seq<char> {
    "disabled"@
}

/// The extension of a file that is still being fetched.
pub open spec fn temp_suffix() -> Seq<char> {
    "tmp"@
}

/// The extension that marks a directory of replaced files.
pub open spec fn backup_suffix() -> Seq<char> {
    "backup"@
}

/// Appended to a file name to name its backup.
pub open spec fn backup_ending() -> Seq<char> {
    ".bak"@
}

/// Stands for the name of a replaced file that has none.
pub open spec fn unnamed_mod() -> Seq<char> {
    "mod"@
}

pub open spec fn opt_view(o: Option<String>) -> Option<Seq<char>> {
    match o {
        Some(s) => Some(s@),
        None => None,
    }
}

/// The directory to create before a file is placed at `p`; none when `p`
/// lies in the current directory.
pub open spec fn dir_to_create(p: Seq<char>) -> Option<Seq<char>> {
    if parent_dir(p).len() == 0 {
        None
    } else {
        Some(parent_dir(p))
    }
}

/// The directory that receives the files replaced in `final_dir`: its sidecar
/// with the `backup` extension (`Mods` gives `Mods.backup`).
pub open spec fn backup_dir_for(final_dir: Seq<char>) -> Seq<char> {
    with_extension(final_dir, backup_suffix())
}

/// The backup name for the file at `old`.
pub open spec fn backup_file_name(old: Seq<char>) -> Seq<char> {
    if names_entry(file_name(old)) {
        file_name(old) + backup_ending()
    } else {
        unnamed_mod() + backup_ending()
    }
}

/// The status codes that count as success: 2xx.
pub open spec fn is_success_status(status: u16) -> bool {
    200 <= status < 300
}

/// What to do about a directory that must exist.
#[derive(Clone, Copy, Debug, PartialEq, Eq, Structural)]
pub enum DirStep {
    /// It is there already: nothing to do, nothing created.
    AlreadyPresent,
    /// It is absent: create it and its parents.
    Create,
}

/// The step for a directory that must exist, given whether something is
/// there and whether it is a directory; none when something else is in the way.
pub open spec fn dir_step_for(exists: bool, is_dir: bool) -> Option<DirStep> {
    if !exists {
        Some(DirStep::Create)
    } else if is_dir {
        Some(DirStep::AlreadyPresent)
    } else {
        None
    }
}

/// A validated move: rename `from` to the path allocated for `to`, after
/// creating `create_dir` where there is one.
#[derive(Clone, Debug)]
pub struct MovePlan {
    pub from: String,
    pub to: String,
    pub create_dir: Option<String>,
}

/// A validated fetch: download `url`, write it to `temp_path`, then rename
/// that to the path allocated for `dest`.
#[derive(Clone, Debug)]
pub struct FetchPlan {
    pub url: String,
    pub dest: String,
    pub create_dir: Option<String>,
    pub temp_path: String,
}

/// A validated update: create `backup_dir`, rename `old_path` to the path
/// allocated for `backup_target`, rename `new_temp_path` to `dest` (replacing
/// what is there), and report `new_filename`.
#[derive(Clone, Debug)]
pub struct UpdatePlan {
    pub old_path: String,
    pub new_temp_path: String,
    pub backup_dir: String,
    pub backup_target: String,
    pub dest: String,
    pub new_filename: String,
}

/// The path as the operations read it: without surrounding white space.
pub fn clean_path(s: &str) -> (r: String)
    ensures
        r@ == trimmed(s@),
{
    let t = trim_text(s);
    string_of(&t)
}

fn create_dir_of(p: &Vec<char>) -> (r: Option<String>)
    ensures
        opt_view(r) == dir_to_create(p@),
{
    let d = parent_dir_of(p);
    if d.len() == 0 {
        None
    } else {
        Some(string_of(&d))
    }
}

/// The sidecar of an already cleaned `base_dir`: its name with the extension
/// replaced by `suffix`. An empty base is refused.
pub fn sidecar_path_clean(base_dir: &str, suffix: &str) -> (r: Result<String, LifecycleError>)
    ensures
        r is Err <==> base_dir@.len() == 0,
        match r {
            Ok(p) => p@ == with_extension(base_dir@, suffix@),
            Err(e) => e == LifecycleError::InvalidInput { field: InputField::Path },
        },
{
    let base = chars_of(base_dir);
    if base.len() == 0 {
        return Err(LifecycleError::InvalidInput { field: InputField::Path });
    }
    let ext = chars_of(suffix);
    Ok(string_of(&with_extension_of(&base, &ext)))
}

/// The sidecar of `base_dir`: its name with the extension replaced by `suffix`.
/// An empty base is refused.
pub fn sidecar_path(base_dir: &str, suffix: &str) -> (r: Result<String, LifecycleError>)
    ensures
        r is Err <==> trimmed(base_dir@).len() == 0,
        match r {
            Ok(p) => p@ == with_extension(trimmed(base_dir@), suffix@),
            Err(e) => e == LifecycleError::InvalidInput { field: InputField::Path },
        },
{
    let base = clean_path(base_dir);
    sidecar_path_clean(base.as_str(), suffix)
}

/// The directory that holds the disabled mods of `mods_dir`: `Mods` gives `Mods.disabled`.
pub fn disabled_dir_path(mods_dir: &str) -> (r: Result<String, LifecycleError>)
    ensures
        r is Err <==> trimmed(mods_dir@).len() == 0,
        match r {
            Ok(p) => p@ == with_extension(trimmed(mods_dir@), disabled_suffix()),
            Err(e) => e == LifecycleError::InvalidInput { field: InputField::Path },
        },
{
    sidecar_path(mods_dir, "disabled")
}

/// The mods directory as given, refused when empty.
pub fn mods_dir_path(path: &str) -> (r: Result<String, LifecycleError>)
    ensures
        r is Err <==> trimmed(path@).len() == 0,
        match r {
            Ok(p) => p@ == trimmed(path@),
            Err(e) => e == LifecycleError::InvalidInput { field: InputField::Path },
        },
{
    let p = trim_text(path);
    if p.len() == 0 {
        Err(LifecycleError::InvalidInput { field: InputField::Path })
    } else {
        Ok(string_of(&p))
    }
}

/// Decides about a directory at `path` that must exist, given whether
/// something is there and whether it is a directory.
pub fn ensure_dir_step(path: &String, exists: bool, is_dir: bool) -> (r: Result<
    DirStep,
    LifecycleError,
>)
    ensures
        match dir_step_for(exists, is_dir) {
            Some(step) => r == Ok::<DirStep, LifecycleError>(step),
            None => r == Err::<DirStep, LifecycleError>(
                LifecycleError::InvalidState { path: *path },
            ),
        },
{
    if !exists {
        Ok(DirStep::Create)
    } else if is_dir {
        Ok(DirStep::AlreadyPresent)
    } else {
        Err(LifecycleError::InvalidState { path: path.clone() })
    }
}

/// Validates a move of the cleaned path `from` to the cleaned path `to`.
/// `from_exists` and `from_is_dir` describe `from`.
pub fn plan_move_clean(from: &str, to: &str, from_exists: bool, from_is_dir: bool) -> (r: Result<
    MovePlan,
    LifecycleError,
>)
    ensures
        r is Ok <==> from_exists && !from_is_dir,
        match r {
            Ok(p) => p.from@ == from@ && p.to@ == to@ && opt_view(p.create_dir) == dir_to_create(
                to@,
            ),
            Err(e) => if !from_exists {
                e is NotFound && e->NotFound_path@ == from@
            } else {
                e is InvalidSource && e->InvalidSource_path@ == from@
            },
        },
{
    if !from_exists {
        return Err(LifecycleError::NotFound { path: from.to_owned() });
    }
    if from_is_dir {
        return Err(LifecycleError::InvalidSource { path: from.to_owned() });
    }
    let t = chars_of(to);
    Ok(MovePlan { from: from.to_owned(), to: to.to_owned(), create_dir: create_dir_of(&t) })
}

/// Validates a move of `from_path` to `to_path`. `from_exists` and
/// `from_is_dir` describe the cleaned source path.
pub fn plan_move(from_path: &str, to_path: &str, from_exists: bool, from_is_dir: bool) -> (r:
    Result<MovePlan, LifecycleError>)
    ensures
        r is Ok <==> from_exists && !from_is_dir,
        match r {
            Ok(p) => p.from@ == trimmed(from_path@) && p.to@ == trimmed(to_path@) && opt_view(
                p.create_dir,
            ) == dir_to_create(trimmed(to_path@)),
            Err(e) => if !from_exists {
                e is NotFound && e->NotFound_path@ == trimmed(from_path@)
            } else {
                e is InvalidSource && e->InvalidSource_path@ == trimmed(from_path@)
            },
        },
{
    let from = clean_path(from_path);
    let to = clean_path(to_path);
    plan_move_clean(from.as_str(), to.as_str(), from_exists, from_is_dir)
}

/// Validates a fetch of the cleaned `url` to the cleaned `dest`: an empty URL is refused.
pub fn plan_fetch_clean(url: &str, dest: &str) -> (r: Result<FetchPlan, LifecycleError>)
    ensures
        r is Err <==> url@.len() == 0,
        match r {
            Ok(p) => p.url@ == url@ && p.dest@ == dest@ && opt_view(p.create_dir) == dir_to_create(
                dest@,
            ) && p.temp_path@ == with_extension(dest@, temp_suffix()),
            Err(e) => e == LifecycleError::InvalidInput { field: InputField::Url },
        },
{
    let u = chars_of(url);
    if u.len() == 0 {
        return Err(LifecycleError::InvalidInput { field: InputField::Url });
    }
    let d = chars_of(dest);
    let temp = with_extension_of(&d, &chars_of("tmp"));
    Ok(
        FetchPlan {
            url: url.to_owned(),
            dest: dest.to_owned(),
            create_dir: create_dir_of(&d),
            temp_path: string_of(&temp),
        },
    )
}

/// Validates a fetch of `url` to `dest_path`: an empty URL is refused.
pub fn plan_fetch(url: &str, dest_path: &str) -> (r: Result<FetchPlan, LifecycleError>)
    ensures
        r is Err <==> trimmed(url@).len() == 0,
        match r {
            Ok(p) => p.url@ == trimmed(url@) && p.dest@ == trimmed(dest_path@) && opt_view(
                p.create_dir,
            ) == dir_to_create(trimmed(dest_path@)) && p.temp_path@ == with_extension(
                trimmed(dest_path@),
                temp_suffix(),
            ),
            Err(e) => e == LifecycleError::InvalidInput { field: InputField::Url },
        },
{
    let u = clean_path(url);
    let d = clean_path(dest_path);
    plan_fetch_clean(u.as_str(), d.as_str())
}

/// Accepts a 2xx status and turns any other into a remote error that names it.
pub fn check_status(status: u16) -> (r: Result<(), LifecycleError>)
    ensures
        r is Ok <==> is_success_status(status),
        r is Err ==> r == Err::<(), LifecycleError>(LifecycleError::RemoteError { status }),
{
    if 200 <= status && status < 300 {
        Ok(())
    } else {
        Err(LifecycleError::RemoteError { status })
    }
}

/// Validates an update that replaces the cleaned path `old` by `new_temp`,
/// placed in `final_dir` as `new_filename` (all cleaned). `old_exists` and
/// `new_exists` describe `old` and `new_temp`. The checks come in that
/// order: old file, new file, name.
pub fn plan_update_clean(
    old: &str,
    new_temp: &str,
    final_dir: &str,
    new_filename: &str,
    old_exists: bool,
    new_exists: bool,
) -> (r: Result<UpdatePlan, LifecycleError>)
    ensures
        r is Ok <==> old_exists && new_exists && new_filename@.len() > 0,
        match r {
            Ok(p) => {
                &&& p.old_path@ == old@
                &&& p.new_temp_path@ == new_temp@
                &&& p.backup_dir@ == backup_dir_for(final_dir@)
                &&& p.backup_target@ == join(
                    backup_dir_for(final_dir@),
                    backup_file_name(old@),
                )
                &&& p.dest@ == join(final_dir@, new_filename@)
                &&& p.new_filename@ == new_filename@
            },
            Err(e) => if !old_exists {
                e is NotFound && e->NotFound_path@ == old@
            } else if !new_exists {
                e is NotFound && e->NotFound_path@ == new_temp@
            } else {
                e == LifecycleError::InvalidInput { field: InputField::Filename }
            },
        },
{
    if !old_exists {
        return Err(LifecycleError::NotFound { path: old.to_owned() });
    }
    if !new_exists {
        return Err(LifecycleError::NotFound { path: new_temp.to_owned() });
    }
    let name = chars_of(new_filename);
    if name.len() == 0 {
        return Err(LifecycleError::InvalidInput { field: InputField::Filename });
    }
    let dir = chars_of(final_dir);
    let backup_dir = with_extension_of(&dir, &chars_of("backup"));
    let (_, old_name) = split_path(&chars_of(old));
    let mut backup_name = if names_entry_of(&old_name) {
        old_name
    } else {
        chars_of("mod")
    };
    push_all(&mut backup_name, &chars_of(".bak"));
    let backup_target = join_of(&backup_dir, &backup_name);
    let dest = join_of(&dir, &name);
    Ok(
        UpdatePlan {
            old_path: old.to_owned(),
            new_temp_path: new_temp.to_owned(),
            backup_dir: string_of(&backup_dir),
            backup_target: string_of(&backup_target),
            dest: string_of(&dest),
            new_filename: new_filename.to_owned(),
        },
    )
}

/// Validates an update that replaces `old_path` by `new_temp_path`, placed
/// in `final_dir` as `new_filename`. `old_exists` and `new_exists` describe
/// the cleaned paths. The checks come in that order: old file, new file, name.
pub fn plan_update(
    old_path: &str,
    new_temp_path: &str,
    final_dir: &str,
    new_filename: &str,
    old_exists: bool,
    new_exists: bool,
) -> (r: Result<UpdatePlan, LifecycleError>)
    ensures
        r is Ok <==> old_exists && new_exists && trimmed(new_filename@).len() > 0,
        match r {
            Ok(p) => {
                &&& p.old_path@ == trimmed(old_path@)
                &&& p.new_temp_path@ == trimmed(new_temp_path@)
                &&& p.backup_dir@ == backup_dir_for(trimmed(final_dir@))
                &&& p.backup_target@ == join(
                    backup_dir_for(trimmed(final_dir@)),
                    backup_file_name(trimmed(old_path@)),
                )
                &&& p.dest@ == join(trimmed(final_dir@), trimmed(new_filename@))
                &&& p.new_filename@ == trimmed(new_filename@)
            },
            Err(e) => if !old_exists {
                e is NotFound && e->NotFound_path@ == trimmed(old_path@)
            } else if !new_exists {
                e is NotFound && e->NotFound_path@ == trimmed(new_temp_path@)
            } else {
                e == LifecycleError::InvalidInput { field: InputField::Filename }
            },
        },
{
    let old = clean_path(old_path);
    let new_temp = clean_path(new_temp_path);
    let dir = clean_path(final_dir);
    let name = clean_path(new_filename);
    plan_update_clean(
        old.as_str(),
        new_temp.as_str(),
        dir.as_str(),
        name.as_str(),
        old_exists,
        new_exists,
    )
}

} // verus!
