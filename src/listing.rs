//! The listing of a mods directory: file names in ascending order.
use vstd::prelude::*;
use crate::text::chars_of;

verus! {

/// `a` comes no later than `b`: ordered by code point, character by
/// character, a prefix first (the order of `str`, as UTF-8 keeps it).
pub open spec fn name_le(a: Seq<char>, b: Seq<char>) -> bool
    decreases a.len(),
{
    if a.len() == 0 {
        true
    } else if b.len() == 0 {
        false
    } else if a[0] != b[0] {
        a[0] < b[0]
    } else {
        name_le(a.drop_first(), b.drop_first())
    }
}

/// Each name comes no later than the next.
pub open spec fn names_sorted(v: Seq<String>) -> bool {
    forall|j: int| 0 <= j < v.len() - 1 ==> name_le(#[trigger] v[j]@, v[j + 1]@)
}

proof fn lemma_name_le_total(a: Seq<char>, b: Seq<char>)
    ensures
        name_le(a, b) || name_le(b, a),
    decreases a.len(),
{
    if a.len() > 0 && b.len() > 0 && a[0] == b[0] {
        lemma_name_le_total(a.drop_first(), b.drop_first());
    }
}

fn name_le_of(a: &String, b: &String) -> (r: bool)
    ensures
        r == name_le(a@, b@),
{
    let x = chars_of(a.as_str());
    let y = chars_of(b.as_str());
    let mut i: usize = 0;
    assert(x@.subrange(0, x@.len() as int) =~= x@);
    assert(y@.subrange(0, y@.len() as int) =~= y@);
    while i < x.len() && i < y.len() && x[i] == y[i]
        invariant
            i <= x@.len(),
            i <= y@.len(),
            name_le(x@, y@) == name_le(
                x@.subrange(i as int, x@.len() as int),
                y@.subrange(i as int, y@.len() as int),
            ),
        decreases x@.len() - i,
    {
        assert(x@.subrange(i as int, x@.len() as int).drop_first() =~= x@.subrange(
            i + 1,
            x@.len() as int,
        ));
        assert(y@.subrange(i as int, y@.len() as int).drop_first() =~= y@.subrange(
            i + 1,
            y@.len() as int,
        ));
        i = i + 1;
    }
    if i == x.len() {
        true
    } else if i == y.len() {
        false
    } else {
        x[i] < y[i]
    }
}

/// The names in ascending order: the same names, each as often as given.
pub fn sorted_file_names(names: Vec<String>) -> (r: Vec<String>)
    ensures
        r@.to_multiset() == names@.to_multiset(),
        names_sorted(r@),
{
    let mut r: Vec<String> = Vec::new();
    let mut i: usize = 0;
    assert(r@ =~= names@.subrange(0, 0));
    while i < names.len()
        invariant
            i <= names@.len(),
            r@.to_multiset() == names@.subrange(0, i as int).to_multiset(),
            names_sorted(r@),
        decreases names@.len() - i,
    {
        let x = names[i].clone();
        let mut k: usize = 0;
        while k < r.len() && name_le_of(&r[k], &x)
            invariant
                k <= r@.len(),
                forall|j: int| 0 <= j < k ==> name_le(#[trigger] r@[j]@, x@),
            decreases r@.len() - k,
        {
            k = k + 1;
        }
        proof {
            if k < r@.len() {
                lemma_name_le_total(r@[k as int]@, x@);
            }
        }
        let ghost before = r@;
        r.insert(k, x);
        proof {
            assert(r@ == before.insert(k as int, x));
            vstd::seq_lib::to_multiset_insert(before, k as int, x);
            assert(names@.subrange(0, i + 1) =~= names@.subrange(0, i as int).push(names@[i as int]));
            vstd::seq_lib::to_multiset_build(names@.subrange(0, i as int), names@[i as int]);
            assert forall|j: int| 0 <= j < r@.len() - 1 implies name_le(#[trigger] r@[j]@, r@[j + 1]@) by {
                if j < k - 1 {
                    assert(r@[j] == before[j] && r@[j + 1] == before[j + 1]);
                } else if j == k - 1 {
                    assert(r@[j] == before[j]);
                } else if j == k {
                } else {
                    assert(r@[j] == before[j - 1] && r@[j + 1] == before[j]);
                }
            }
        }
        i = i + 1;
    }
    assert(names@.subrange(0, names@.len() as int) =~= names@);
    r
}

} // verus!
