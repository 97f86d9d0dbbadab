//! Validation of the paths that the remaining commands act on.
use vstd::prelude::*;
use crate::error::{InputField, LifecycleError};
use crate::lifecycle::{dir_to_create, opt_view};
use crate::path_text::parent_dir_of;
use crate::platform::Platform;
use crate::text::{chars_of, string_of, trim_text, trimmed};

verus! {

/// What a path offers: whether it exists, is a directory, and takes new files.
#[derive(Clone, Copy, Debug, PartialEq, Eq, Structural)]
pub struct PathAccess {
    pub exists: bool,
    pub is_dir: bool,
    pub writable: bool,
}

/// A validated text write: create `create_dir` where there is one, then write `path`.
#[derive(Clone, Debug)]
pub struct WritePlan {
    pub path: String,
    pub create_dir: Option<String>,
}

/// Combines what was observed of a path: only an existing directory counts
/// as a directory, and only a directory that took a probe file as writable.
pub fn path_access(exists: bool, is_dir: bool, writable: bool) -> (r: PathAccess)
    ensures
        r.exists == exists,
        r.is_dir == (exists && is_dir),
        r.writable == (exists && is_dir && writable),
{
    let d = exists && is_dir;
    PathAccess { exists, is_dir: d, writable: d && writable }
}

/// Validates a text write to `path`: an empty path is refused.
pub fn plan_write_text(path: &str) -> (r: Result<WritePlan, LifecycleError>)
    ensures
        r is Err <==> trimmed(path@).len() == 0,
        match r {
            Ok(p) => p.path@ == trimmed(path@) && opt_view(p.create_dir) == dir_to_create(
                trimmed(path@),
            ),
            Err(e) => e == LifecycleError::InvalidInput { field: InputField::Path },
        },
{
    let p = trim_text(path);
    if p.len() == 0 {
        return Err(LifecycleError::InvalidInput { field: InputField::Path });
    }
    let d = parent_dir_of(&p);
    let create_dir = if d.len() == 0 {
        None
    } else {
        Some(string_of(&d))
    };
    Ok(WritePlan { path: string_of(&p), create_dir })
}

/// A path that must name an existing entry of the expected kind; `exists`
/// and `right_kind` describe the cleaned path.
pub fn check_existing(path: &str, exists: bool, right_kind: bool) -> (r: Result<
    String,
    LifecycleError,
>)
    ensures
        r is Ok <==> exists && right_kind,
        match r {
            Ok(p) => p@ == trimmed(path@),
            Err(e) => e is NotFound && e->NotFound_path@ == trimmed(path@),
        },
{
    let p = string_of(&trim_text(path));
    if exists && right_kind {
        Ok(p)
    } else {
        Err(LifecycleError::NotFound { path: p })
    }
}

/// Validates the program to launch: a non-empty path to an existing entry
/// that is not a directory.
pub fn check_launch_target(exe_path: &str, exists: bool, is_dir: bool) -> (r: Result<
    String,
    LifecycleError,
>)
    ensures
        r is Ok <==> trimmed(exe_path@).len() > 0 && exists && !is_dir,
        match r {
            Ok(p) => p@ == trimmed(exe_path@),
            Err(e) => if trimmed(exe_path@).len() == 0 {
                e == LifecycleError::InvalidInput { field: InputField::Path }
            } else if !exists {
                e is NotFound && e->NotFound_path@ == trimmed(exe_path@)
            } else {
                e is InvalidSource && e->InvalidSource_path@ == trimmed(exe_path@)
            },
        },
{
    let t = trim_text(exe_path);
    if t.len() == 0 {
        return Err(LifecycleError::InvalidInput { field: InputField::Path });
    }
    let p = string_of(&t);
    if !exists {
        Err(LifecycleError::NotFound { path: p })
    } else if is_dir {
        Err(LifecycleError::InvalidSource { path: p })
    } else {
        Ok(p)
    }
}

/// Validates a path to show in the file manager: non-empty and existing.
pub fn check_open_target(path: &str, exists: bool) -> (r: Result<String, LifecycleError>)
    ensures
        r is Ok <==> trimmed(path@).len() > 0 && exists,
        match r {
            Ok(p) => p@ == trimmed(path@),
            Err(e) => if trimmed(path@).len() == 0 {
                e == LifecycleError::InvalidInput { field: InputField::Path }
            } else {
                e is NotFound && e->NotFound_path@ == trimmed(path@)
            },
        },
{
    let t = trim_text(path);
    if t.len() == 0 {
        return Err(LifecycleError::InvalidInput { field: InputField::Path });
    }
    let p = string_of(&t);
    if exists {
        Ok(p)
    } else {
        Err(LifecycleError::NotFound { path: p })
    }
}

/// The program that opens a path in the platform's file manager.
pub open spec fn file_manager_spec(platform: Platform) -> Option<Seq<char>> {
    match platform {
        Platform::Windows => Some("explorer"@),
        Platform::MacOs => Some("open"@),
        Platform::Linux => Some("xdg-open"@),
        Platform::Other => None,
    }
}

/// The program that opens a path in the platform's file manager; none
/// where the platform has no known one.
pub fn file_manager_program(platform: Platform) -> (r: Option<String>)
    ensures
        opt_view(r) == file_manager_spec(platform),
{
    match platform {
        Platform::Windows => Some(string_of(&chars_of("explorer"))),
        Platform::MacOs => Some(string_of(&chars_of("open"))),
        Platform::Linux => Some(string_of(&chars_of("xdg-open"))),
        Platform::Other => None,
    }
}

} // verus!
