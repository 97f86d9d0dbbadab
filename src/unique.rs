//! Unique-name allocation: a path that is free, found by numbered suffixes.
use vstd::prelude::*;
use crate::path_text::{
    dir_len, is_sep, last_dot, split_path, without_trailing_seps, dir_part, extension, file_name, has_extension, names_entry, names_entry_of, push_all,
    split_name, stem,
};
use crate::text::{chars_of, string_of};

verus! {

/// The largest suffix number tried before the allocator gives up.
pub const MAX_SUFFIX: u64 = 999;

pub open spec fn digit_chars() -> Seq<char> {
    seq!['0', '1', '2', '3', '4', '5', '6', '7', '8', '9']
}

/// The decimal digits of `n`, without leading zeros.
pub open spec fn decimal(n: nat) -> Seq<char>
    decreases n,
{
    if n < 10 {
        seq![digit_chars()[n as int]]
    } else {
        decimal(n / 10).push(digit_chars()[(n % 10) as int])
    }
}

/// The stem that numbered names are built on; `file` when the name names no entry.
pub open spec fn base_name(name: Seq<char>) -> Seq<char> {
    if names_entry(name) {
        stem(name)
    } else {
        seq!['f', 'i', 'l', 'e']
    }
}

/// `{stem} ({n})`, followed by `.{ext}` where the name has an extension.
pub open spec fn numbered_name(name: Seq<char>, n: nat) -> Seq<char> {
    base_name(name) + seq![' ', '('] + decimal(n) + seq![')'] + if has_extension(name) {
        seq!['.'] + extension(name)
    } else {
        Seq::<char>::empty()
    }
}

/// The `n`-th candidate for `target`: the numbered name in the same directory.
pub open spec fn candidate(target: Seq<char>, n: nat) -> Seq<char> {
    dir_part(target) + numbered_name(file_name(target), n)
}

/// The first candidate from number `n` on that is not taken; `target` when all are.
pub open spec fn first_free(target: Seq<char>, taken: Set<Seq<char>>, n: nat) -> Seq<char>
    decreases 1000 - n,
{
    if n > MAX_SUFFIX {
        target
    } else if !taken.contains(candidate(target, n)) {
        candidate(target, n)
    } else {
        first_free(target, taken, n + 1)
    }
}

/// The path allocated for `target` when the paths in `taken` exist.
pub open spec fn allocated(target: Seq<char>, taken: Set<Seq<char>>) -> Seq<char> {
    if !taken.contains(target) {
        target
    } else {
        first_free(target, taken, 1)
    }
}

/// Some candidate for `target` is free.
pub open spec fn has_free_candidate(target: Seq<char>, taken: Set<Seq<char>>) -> bool {
    exists|n: nat| 1 <= n <= MAX_SUFFIX && !taken.contains(#[trigger] candidate(target, n))
}

/// Every answer of the existence check `f` agrees with membership in `taken`.
pub open spec fn answers_from<F: Fn(&str) -> bool>(f: F, taken: Set<Seq<char>>) -> bool {
    forall|p: &str, b: bool| #[trigger] f.ensures((p,), b) ==> b == taken.contains(p@)
}

fn digit_of(d: u64) -> (r: char)
    requires
        d < 10,
    ensures
        r == digit_chars()[d as int],
{
    let ds: Vec<char> = vec!['0', '1', '2', '3', '4', '5', '6', '7', '8', '9'];
    assert(ds@ =~= digit_chars());
    ds[d as usize]
}

fn decimal_of(n: u64) -> (r: Vec<char>)
    requires
        1 <= n <= MAX_SUFFIX,
    ensures
        r@ == decimal(n as nat),
{
    if n < 10 {
        let r = vec![digit_of(n)];
        assert(r@ =~= decimal(n as nat));
        r
    } else if n < 100 {
        let r = vec![digit_of(n / 10), digit_of(n % 10)];
        assert(decimal((n / 10) as nat) =~= seq![digit_chars()[(n / 10) as int]]);
        assert(r@ =~= decimal(n as nat));
        r
    } else {
        let r = vec![digit_of(n / 100), digit_of(n / 10 % 10), digit_of(n % 10)];
        assert(n / 10 / 10 == n / 100);
        assert(decimal((n / 100) as nat) =~= seq![digit_chars()[(n / 100) as int]]);
        assert(decimal((n / 10) as nat) =~= decimal((n / 100) as nat).push(
            digit_chars()[(n / 10 % 10) as int],
        ));
        assert(r@ =~= decimal(n as nat));
        r
    }
}

/// The `n`-th candidate, built from the directory part, base and extension of the target.
fn candidate_of(dir: &Vec<char>, base: &Vec<char>, ext: &Option<Vec<char>>, n: u64) -> (r: Vec<char>)
    requires
        1 <= n <= MAX_SUFFIX,
    ensures
        r@ == dir@ + base@ + seq![' ', '('] + decimal(n as nat) + seq![')'] + match ext {
            Some(e) => seq!['.'] + e@,
            None => Seq::<char>::empty(),
        },
{
    let mut r = dir.clone();
    push_all(&mut r, base);
    r.push(' ');
    r.push('(');
    let digits = decimal_of(n);
    push_all(&mut r, &digits);
    r.push(')');
    match ext {
        Some(e) => {
            r.push('.');
            push_all(&mut r, e);
        },
        None => {},
    }
    assert(r@ =~= dir@ + base@ + seq![' ', '('] + decimal(n as nat) + seq![')'] + match ext {
        Some(e) => seq!['.'] + e@,
        None => Seq::<char>::empty(),
    });
    r
}

/// Returns a path that the existence check `is_taken` reports free: `target`
/// itself when it is free, else the first free of `{stem} (1){.ext}` up to
/// `{stem} (999){.ext}` in the same directory, else `target` unchanged.
pub fn unique_file_path<F: Fn(&str) -> bool>(target: &str, is_taken: F) -> (r: String)
    requires
        forall|p: &str| is_taken.requires((p,)),
    ensures
        forall|taken: Set<Seq<char>>| #[trigger]
            answers_from(is_taken, taken) ==> r@ == allocated(target@, taken),
        r@ == target@ || exists|n: nat| 1 <= n <= MAX_SUFFIX && r@ == candidate(target@, n),
{
    if !is_taken(target) {
        return target.to_owned();
    }
    let t = chars_of(target);
    let (dir, name) = split_path(&t);
    let (st, ext) = split_name(&name);
    let base = if names_entry_of(&name) {
        st
    } else {
        vec!['f', 'i', 'l', 'e']
    };
    let mut n: u64 = 1;
    while n <= MAX_SUFFIX
        invariant
            1 <= n <= MAX_SUFFIX + 1,
            t@ == target@,
            dir@ == dir_part(target@),
            name@ == file_name(target@),
            base@ == base_name(name@),
            match ext {
                Some(e) => has_extension(name@) && e@ == extension(name@),
                None => !has_extension(name@),
            },
            forall|p: &str| is_taken.requires((p,)),
            forall|taken: Set<Seq<char>>| #[trigger]
                answers_from(is_taken, taken) ==> taken.contains(target@) && first_free(
                    target@,
                    taken,
                    1,
                ) == first_free(target@, taken, n as nat),
        decreases MAX_SUFFIX + 1 - n,
    {
        let c = candidate_of(&dir, &base, &ext, n);
        assert(c@ =~= candidate(target@, n as nat));
        let cs = string_of(&c);
        let found = is_taken(cs.as_str());
        if !found {
            return cs;
        }
        n = n + 1;
    }
    target.to_owned()
}

proof fn lemma_last_dot_bounded(s: Seq<char>)
    ensures
        -1 <= last_dot(s) < s.len(),
    decreases s.len(),
{
    if s.len() > 0 && s.last() != '.' {
        lemma_last_dot_bounded(s.drop_last());
    }
}

proof fn lemma_dir_len_bounded(p: Seq<char>)
    ensures
        dir_len(p) <= p.len(),
    decreases p.len(),
{
    if p.len() > 0 && p.last() != '/' {
        lemma_dir_len_bounded(p.drop_last());
    }
}

proof fn lemma_stripped(p: Seq<char>)
    ensures
        without_trailing_seps(p).len() <= p.len(),
        without_trailing_seps(p) == p.subrange(0, without_trailing_seps(p).len() as int),
        without_trailing_seps(p).len() <= 1 || !is_sep(without_trailing_seps(p).last()),
        without_trailing_seps(p) != p ==> p.len() > 1 && is_sep(p.last()),
    decreases p.len(),
{
    if p.len() > 1 && is_sep(p.last()) {
        lemma_stripped(p.drop_last());
        let q = without_trailing_seps(p.drop_last());
        assert(q == p.subrange(0, q.len() as int));
    } else {
        assert(p == p.subrange(0, p.len() as int));
    }
}

/// No candidate equals its target: it is longer than the target without its
/// trailing separators, and ends in something other than a separator.
proof fn lemma_candidate_differs(target: Seq<char>, n: nat)
    ensures
        candidate(target, n) != target,
{
    let q = without_trailing_seps(target);
    let name = file_name(target);
    lemma_stripped(target);
    lemma_dir_len_bounded(q);
    lemma_last_dot_bounded(name);
    if name == seq!['.', '.'] {
        assert(name.len() == 2);
    }
    assert(decimal(n).len() >= 1);
    let c = candidate(target, n);
    assert(c.len() > q.len());
    if c == target {
        assert(q != target);
        assert(is_sep(target.last()));
        if has_extension(name) {
            let e = extension(name);
            if e.len() == 0 {
                assert(c.last() == '.');
            } else {
                assert(c.last() == e.last());
                assert(e.last() == name.last());
                assert(name.last() == q.last());
                assert(q.len() > 1);
            }
        } else {
            assert(c.last() == ')');
        }
    }
}

/// The search from number `m` on ends at a free candidate when one at or after `m` is free.
proof fn lemma_first_free_is_free(target: Seq<char>, taken: Set<Seq<char>>, m: nat, n: nat)
    requires
        1 <= m <= n <= MAX_SUFFIX,
        !taken.contains(candidate(target, n)),
    ensures
        !taken.contains(first_free(target, taken, m)),
        exists|k: nat| m <= k <= n && first_free(target, taken, m) == candidate(target, k),
    decreases n - m,
{
    if taken.contains(candidate(target, m)) {
        lemma_first_free_is_free(target, taken, m + 1, n);
        let k = choose|k: nat| m + 1 <= k <= n && first_free(target, taken, m + 1) == candidate(target, k);
        assert(first_free(target, taken, m) == candidate(target, k));
    } else {
        assert(first_free(target, taken, m) == candidate(target, m));
    }
}

/// A path that does not exist is allocated as itself.
pub proof fn lemma_free_target_kept(target: Seq<char>, taken: Set<Seq<char>>)
    requires
        !taken.contains(target),
    ensures
        allocated(target, taken) == target,
{
}

/// A path that exists is never handed back while a numbered name is still
/// free: the allocated path differs from it and does not exist.
pub proof fn lemma_taken_target_moved(target: Seq<char>, taken: Set<Seq<char>>)
    requires
        taken.contains(target),
        has_free_candidate(target, taken),
    ensures
        allocated(target, taken) != target,
        !taken.contains(allocated(target, taken)),
{
    let n = choose|n: nat| 1 <= n <= MAX_SUFFIX && !taken.contains(#[trigger] candidate(target, n));
    lemma_first_free_is_free(target, taken, 1, n);
    let k = choose|k: nat| 1 <= k <= n && first_free(target, taken, 1) == candidate(target, k);
    lemma_candidate_differs(target, k);
}

/// When the target and its first numbered name exist and the second does
/// not, the second is allocated.
pub proof fn lemma_second_number_taken_next(target: Seq<char>, taken: Set<Seq<char>>)
    requires
        taken.contains(target),
        taken.contains(candidate(target, 1)),
        !taken.contains(candidate(target, 2)),
    ensures
        allocated(target, taken) == candidate(target, 2),
{
    assert(first_free(target, taken, 1) == first_free(target, taken, 2));
}

} // verus!
