//! Paths as sequences of characters. Both `/` and `\` separate components,
//! so that paths of either convention split alike; joining adds `/`.
//!
//! Trailing separators are not part of a path's last component: `a/b/` names
//! `b` in `a`, as `a/b` does. With them set aside, a path is split at its last
//! separator into a directory part (which keeps that separator) and a file
//! name. A file name is split at its last dot into
//! a stem and an extension, except that a leading dot starts no extension.
use vstd::prelude::*;

verus! {

/// A character that separates path components.
pub open spec fn is_sep(c: char) -> bool {
    c == '/' || c == '\\'
}

/// The path without its trailing separators; a lone separator (the root) is kept.
pub open spec fn without_trailing_seps(p: Seq<char>) -> Seq<char>
    decreases p.len(),
{
    if p.len() > 1 && is_sep(p.last()) {
        without_trailing_seps(p.drop_last())
    } else {
        p
    }
}

/// The number of characters up to and including the last separator; 0 when
/// the sequence has none.
pub open spec fn dir_len(p: Seq<char>) -> nat
    decreases p.len(),
{
    if p.len() == 0 {
        0
    } else if is_sep(p.last()) {
        p.len()
    } else {
        dir_len(p.drop_last())
    }
}

/// Everything up to and including the last separator, trailing separators set aside.
pub open spec fn dir_part(p: Seq<char>) -> Seq<char> {
    let q = without_trailing_seps(p);
    q.subrange(0, dir_len(q) as int)
}

/// The last component: everything after the last separator, trailing
/// separators set aside.
pub open spec fn file_name(p: Seq<char>) -> Seq<char> {
    let q = without_trailing_seps(p);
    q.subrange(dir_len(q) as int, q.len() as int)
}

/// A file name that names an entry: neither empty nor `..`.
pub open spec fn names_entry(name: Seq<char>) -> bool {
    name.len() > 0 && name != seq!['.', '.']
}

/// The index of the last dot; -1 when there is none.
pub open spec fn last_dot(s: Seq<char>) -> int
    decreases s.len(),
{
    if s.len() == 0 {
        -1
    } else if s.last() == '.' {
        s.len() - 1
    } else {
        last_dot(s.drop_last())
    }
}

/// The name has an extension: a dot that is not its first character.
pub open spec fn has_extension(name: Seq<char>) -> bool {
    names_entry(name) && last_dot(name) > 0
}

/// The name without its extension and the dot before it.
pub open spec fn stem(name: Seq<char>) -> Seq<char> {
    if has_extension(name) {
        name.subrange(0, last_dot(name))
    } else {
        name
    }
}

/// What follows the last dot (meaningful where `has_extension` holds).
pub open spec fn extension(name: Seq<char>) -> Seq<char> {
    name.subrange(last_dot(name) + 1, name.len() as int)
}

/// The directory that holds the path: its directory part without trailing
/// separators, unless that part is the root.
pub open spec fn parent_dir(p: Seq<char>) -> Seq<char> {
    without_trailing_seps(dir_part(p))
}

/// `name` inside directory `dir`.
pub open spec fn join(dir: Seq<char>, name: Seq<char>) -> Seq<char> {
    if dir.len() == 0 {
        name
    } else if is_sep(dir.last()) {
        dir + name
    } else {
        dir + seq!['/'] + name
    }
}

/// The path with the extension of its file name replaced by `ext` (removed
/// when `ext` is empty); unchanged when it has no file name.
pub open spec fn with_extension(p: Seq<char>, ext: Seq<char>) -> Seq<char> {
    if names_entry(file_name(p)) {
        dir_part(p) + stem(file_name(p)) + if ext.len() == 0 {
            Seq::<char>::empty()
        } else {
            seq!['.'] + ext
        }
    } else {
        p
    }
}

pub(crate) fn dir_len_of(p: &Vec<char>) -> (r: usize)
    ensures
        r == dir_len(p@),
        r <= p@.len(),
{
    let mut i: usize = p.len();
    assert(p@.subrange(0, i as int) =~= p@);
    while i > 0 && p[i - 1] != '/' && p[i - 1] != '\\'
        invariant
            i <= p@.len(),
            dir_len(p@.subrange(0, i as int)) == dir_len(p@),
        decreases i,
    {
        assert(p@.subrange(0, i as int).drop_last() =~= p@.subrange(0, i - 1));
        i = i - 1;
    }
    i
}

/// The length of `p` without its trailing separators.
fn stripped_len(p: &Vec<char>) -> (r: usize)
    ensures
        r <= p@.len(),
        p@.subrange(0, r as int) == without_trailing_seps(p@),
{
    let mut i: usize = p.len();
    assert(p@.subrange(0, i as int) =~= p@);
    while i > 1 && (p[i - 1] == '/' || p[i - 1] == '\\')
        invariant
            i <= p@.len(),
            without_trailing_seps(p@.subrange(0, i as int)) == without_trailing_seps(p@),
        decreases i,
    {
        assert(p@.subrange(0, i as int).drop_last() =~= p@.subrange(0, i - 1));
        i = i - 1;
    }
    i
}

/// Splits `p` into its directory part and its file name.
pub(crate) fn split_path(p: &Vec<char>) -> (r: (Vec<char>, Vec<char>))
    ensures
        r.0@ == dir_part(p@),
        r.1@ == file_name(p@),
{
    let n = stripped_len(p);
    let q = slice_of(p, 0, n);
    let k = dir_len_of(&q);
    (slice_of(&q, 0, k), slice_of(&q, k, n))
}

/// The characters of `v` from `lo` up to `hi`.
pub(crate) fn slice_of(v: &Vec<char>, lo: usize, hi: usize) -> (r: Vec<char>)
    requires
        lo <= hi <= v@.len(),
    ensures
        r@ == v@.subrange(lo as int, hi as int),
{
    let mut r: Vec<char> = Vec::new();
    let mut i: usize = lo;
    while i < hi
        invariant
            lo <= i <= hi <= v@.len(),
            r@ == v@.subrange(lo as int, i as int),
        decreases hi - i,
    {
        r.push(v[i]);
        assert(r@ =~= v@.subrange(lo as int, i + 1));
        i = i + 1;
    }
    r
}

/// Appends the characters of `w` to `v`.
pub(crate) fn push_all(v: &mut Vec<char>, w: &Vec<char>)
    ensures
        final(v)@ == old(v)@ + w@,
{
    let mut i: usize = 0;
    while i < w.len()
        invariant
            i <= w@.len(),
            v@ == old(v)@ + w@.subrange(0, i as int),
        decreases w@.len() - i,
    {
        v.push(w[i]);
        assert(v@ =~= old(v)@ + w@.subrange(0, i + 1));
        i = i + 1;
    }
    assert(w@.subrange(0, w@.len() as int) =~= w@);
}

fn last_dot_of(s: &Vec<char>) -> (r: Option<usize>)
    ensures
        match r {
            Some(i) => i == last_dot(s@) && i < s@.len(),
            None => last_dot(s@) == -1,
        },
{
    let mut i: usize = s.len();
    assert(s@.subrange(0, i as int) =~= s@);
    while i > 0 && s[i - 1] != '.'
        invariant
            i <= s@.len(),
            last_dot(s@.subrange(0, i as int)) == last_dot(s@),
        decreases i,
    {
        assert(s@.subrange(0, i as int).drop_last() =~= s@.subrange(0, i - 1));
        i = i - 1;
    }
    if i == 0 {
        None
    } else {
        Some(i - 1)
    }
}

pub(crate) fn names_entry_of(name: &Vec<char>) -> (r: bool)
    ensures
        r == names_entry(name@),
{
    if name.len() == 0 {
        false
    } else if name.len() == 2 && name[0] == '.' && name[1] == '.' {
        assert(name@ =~= seq!['.', '.']);
        false
    } else {
        true
    }
}

/// Splits a file name into its stem and, where it has one, its extension.
pub(crate) fn split_name(name: &Vec<char>) -> (r: (Vec<char>, Option<Vec<char>>))
    ensures
        r.0@ == stem(name@),
        match r.1 {
            Some(e) => has_extension(name@) && e@ == extension(name@),
            None => !has_extension(name@),
        },
{
    if !names_entry_of(name) {
        return (name.clone(), None);
    }
    match last_dot_of(name) {
        Some(d) => {
            let n = name.len();
            if d == 0 {
                (name.clone(), None)
            } else {
                (slice_of(name, 0, d), Some(slice_of(name, d + 1, n)))
            }
        },
        None => (name.clone(), None),
    }
}

/// `name` inside directory `dir`.
pub(crate) fn join_of(dir: &Vec<char>, name: &Vec<char>) -> (r: Vec<char>)
    ensures
        r@ == join(dir@, name@),
{
    let mut r = dir.clone();
    if dir.len() > 0 && dir[dir.len() - 1] != '/' && dir[dir.len() - 1] != '\\' {
        r.push('/');
    }
    push_all(&mut r, name);
    r
}

/// The directory that holds `p`.
pub(crate) fn parent_dir_of(p: &Vec<char>) -> (r: Vec<char>)
    ensures
        r@ == parent_dir(p@),
{
    let (d, _) = split_path(p);
    let n = stripped_len(&d);
    slice_of(&d, 0, n)
}

/// `p` with the extension of its file name replaced by `ext`.
pub(crate) fn with_extension_of(p: &Vec<char>, ext: &Vec<char>) -> (r: Vec<char>)
    ensures
        r@ == with_extension(p@, ext@),
{
    let (d, name) = split_path(p);
    if !names_entry_of(&name) {
        return p.clone();
    }
    let (st, _) = split_name(&name);
    let mut r = d;
    push_all(&mut r, &st);
    if ext.len() > 0 {
        r.push('.');
        push_all(&mut r, ext);
    }
    assert(r@ =~= with_extension(p@, ext@));
    r
}

} // verus!
