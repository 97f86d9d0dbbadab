//! An abstract filesystem and the effect of each operation's plan on it.
//!
//! A filesystem maps each existing path to `None` for a directory or to
//! `Some(content)` for a file. Each operation below performs, step by step,
//! the plan that its validating function returns.
use vstd::prelude::*;
use crate::lifecycle::{
    backup_dir_for, backup_file_name, dir_step_for, dir_to_create, is_success_status, temp_suffix, DirStep,
};
use crate::path_text::{join, with_extension};
use crate::unique::{
    allocated, has_free_candidate, lemma_free_target_kept, lemma_taken_target_moved,
};

verus! {

pub type FsState = Map<Seq<char>, Option<Seq<u8>>>;

pub open spec fn is_file(fs: FsState, p: Seq<char>) -> bool {
    fs.contains_key(p) && fs[p] is Some
}

pub open spec fn is_dir(fs: FsState, p: Seq<char>) -> bool {
    fs.contains_key(p) && fs[p] is None
}

/// Creates directory `d` unless something is there.
pub open spec fn make_dir(fs: FsState, d: Seq<char>) -> FsState {
    if fs.contains_key(d) {
        fs
    } else {
        fs.insert(d, None)
    }
}

pub open spec fn make_dir_opt(fs: FsState, d: Option<Seq<char>>) -> FsState {
    match d {
        Some(d) => make_dir(fs, d),
        None => fs,
    }
}

/// Renames `from` to `to`, replacing what is at `to`.
pub open spec fn rename(fs: FsState, from: Seq<char>, to: Seq<char>) -> FsState {
    fs.remove(from).insert(to, fs[from])
}

/// Nothing can block allocation for `target`: it is free, or a numbered name is.
pub open spec fn can_allocate(target: Seq<char>, taken: Set<Seq<char>>) -> bool {
    !taken.contains(target) || has_free_candidate(target, taken)
}

/// A move: create the destination's directory, then rename the source to
/// the path allocated for the destination. Gives the new state and that path.
pub open spec fn move_effect(fs: FsState, from: Seq<char>, to: Seq<char>) -> (FsState, Seq<char>) {
    let fs1 = make_dir_opt(fs, dir_to_create(to));
    let placed = allocated(to, fs1.dom());
    (rename(fs1, from, placed), placed)
}

/// A fetch whose response had `status` and `body`: create the destination's
/// directory; on success write the body to the temporary path and rename it
/// to the path allocated for the destination.
pub open spec fn fetch_effect(fs: FsState, dest: Seq<char>, status: u16, body: Seq<u8>) -> (
    FsState,
    Result<Seq<char>, u16>,
) {
    let fs1 = make_dir_opt(fs, dir_to_create(dest));
    if !is_success_status(status) {
        (fs1, Err(status))
    } else {
        let temp = with_extension(dest, temp_suffix());
        let fs2 = fs1.insert(temp, Some(body));
        let placed = allocated(dest, fs2.dom());
        (rename(fs2, temp, placed), Ok(placed))
    }
}

/// The backup path that an update allocates for `old`.
pub open spec fn update_backup(fs: FsState, old: Seq<char>, final_dir: Seq<char>) -> Seq<char> {
    let fs1 = make_dir(fs, backup_dir_for(final_dir));
    allocated(join(backup_dir_for(final_dir), backup_file_name(old)), fs1.dom())
}

/// An update: create the backup directory, move the old file to its
/// allocated backup path, then rename the new file to its destination
/// without a collision check. Gives the new state and the reported name.
pub open spec fn update_effect(
    fs: FsState,
    old: Seq<char>,
    new_temp: Seq<char>,
    final_dir: Seq<char>,
    name: Seq<char>,
) -> (FsState, Seq<char>) {
    let fs1 = make_dir(fs, backup_dir_for(final_dir));
    let fs2 = rename(fs1, old, update_backup(fs, old, final_dir));
    (rename(fs2, new_temp, join(final_dir, name)), name)
}

/// Making sure that a directory exists at `p`: the step taken, its effect,
/// and whether it created the directory (`Err` when something else is there).
pub open spec fn ensure_dir_effect(fs: FsState, p: Seq<char>) -> (FsState, Result<bool, ()>) {
    match dir_step_for(fs.contains_key(p), is_dir(fs, p)) {
        Some(DirStep::Create) => (fs.insert(p, None), Ok(true)),
        Some(DirStep::AlreadyPresent) => (fs, Ok(false)),
        None => (fs, Err(())),
    }
}

proof fn lemma_allocated_free(target: Seq<char>, taken: Set<Seq<char>>)
    requires
        can_allocate(target, taken),
    ensures
        !taken.contains(allocated(target, taken)),
{
    if taken.contains(target) {
        lemma_taken_target_moved(target, taken);
    } else {
        lemma_free_target_kept(target, taken);
    }
}

/// A move into a directory that does not exist yet creates that directory,
/// places the source's content at the returned path, and leaves nothing at
/// the source.
pub proof fn lemma_move_creates_parent(fs: FsState, from: Seq<char>, to: Seq<char>)
    requires
        is_file(fs, from),
        dir_to_create(to) is Some,
        !fs.contains_key(dir_to_create(to)->Some_0),
        can_allocate(to, fs.dom().insert(dir_to_create(to)->Some_0)),
    ensures
        ({
            let (after, placed) = move_effect(fs, from, to);
            &&& is_dir(after, dir_to_create(to)->Some_0)
            &&& after.contains_key(placed) && after[placed] == fs[from]
            &&& !after.contains_key(from)
        }),
{
    let d = dir_to_create(to)->Some_0;
    let fs1 = make_dir_opt(fs, dir_to_create(to));
    assert(fs1.dom() =~= fs.dom().insert(d));
    lemma_allocated_free(to, fs1.dom());
}

/// A successful fetch leaves the body, exactly, at the returned path; a
/// failed status is reported as such and creates or changes no file.
pub proof fn lemma_fetch_places_body(fs: FsState, dest: Seq<char>, status: u16, body: Seq<u8>)
    ensures
        ({
            let (after, res) = fetch_effect(fs, dest, status, body);
            if is_success_status(status) {
                res is Ok && after.contains_key(res->Ok_0) && after[res->Ok_0] == Some(body)
            } else {
                &&& res == Err::<Seq<char>, u16>(status)
                &&& forall|p: Seq<char>| #[trigger]
                    is_file(after, p) ==> is_file(fs, p) && after[p] == fs[p]
            }
        }),
{
}

/// After an update the new content sits at the destination, whatever was
/// there before, and the call reports the new name.
pub proof fn lemma_update_replaces_destination(
    fs: FsState,
    old: Seq<char>,
    new_temp: Seq<char>,
    final_dir: Seq<char>,
    name: Seq<char>,
)
    requires
        is_file(fs, old),
        is_file(fs, new_temp),
        old != new_temp,
        can_allocate(
            join(backup_dir_for(final_dir), backup_file_name(old)),
            make_dir(fs, backup_dir_for(final_dir)).dom(),
        ),
    ensures
        ({
            let (after, reported) = update_effect(fs, old, new_temp, final_dir, name);
            &&& after.contains_key(join(final_dir, name))
            &&& after[join(final_dir, name)] == fs[new_temp]
            &&& reported == name
        }),
{
    let fs1 = make_dir(fs, backup_dir_for(final_dir));
    lemma_allocated_free(join(backup_dir_for(final_dir), backup_file_name(old)), fs1.dom());
}

/// After an update the old content sits in the backup path, unless the new
/// file's destination is that very path, and the new content at the destination.
pub proof fn lemma_update_keeps_backup(
    fs: FsState,
    old: Seq<char>,
    new_temp: Seq<char>,
    final_dir: Seq<char>,
    name: Seq<char>,
)
    requires
        is_file(fs, old),
        is_file(fs, new_temp),
        old != new_temp,
        can_allocate(
            join(backup_dir_for(final_dir), backup_file_name(old)),
            make_dir(fs, backup_dir_for(final_dir)).dom(),
        ),
        update_backup(fs, old, final_dir) != join(final_dir, name),
    ensures
        ({
            let (after, reported) = update_effect(fs, old, new_temp, final_dir, name);
            let backup = update_backup(fs, old, final_dir);
            &&& after.contains_key(backup) && after[backup] == fs[old]
            &&& after.contains_key(join(final_dir, name))
            &&& after[join(final_dir, name)] == fs[new_temp]
            &&& reported == name
        }),
{
    let fs1 = make_dir(fs, backup_dir_for(final_dir));
    lemma_allocated_free(join(backup_dir_for(final_dir), backup_file_name(old)), fs1.dom());
}

/// Making sure twice that an absent directory exists creates it the first
/// time only; it is a directory after both.
pub proof fn lemma_ensure_dir_twice(fs: FsState, p: Seq<char>)
    requires
        !fs.contains_key(p),
    ensures
        ({
            let (after1, first) = ensure_dir_effect(fs, p);
            let (after2, second) = ensure_dir_effect(after1, p);
            &&& first == Ok::<bool, ()>(true) && second == Ok::<bool, ()>(false)
            &&& is_dir(after1, p) && is_dir(after2, p)
        }),
{
}

} // verus!
