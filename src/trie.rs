use crate::hash::HashOf;
use crate::nibble::u4;
use vstd::prelude::*;

verus! {

/// Whether `p` is an initial segment of `q`.
pub open spec fn is_prefix(p: Seq<u4>, q: Seq<u4>) -> bool {
    p.len() <= q.len() && q.subrange(0, p.len() as int) == p
}

/// The children of a trie node, as key paths and digests.
pub open spec fn children_view<X>(c: Seq<(Vec<u4>, HashOf<X>)>) -> Seq<(Seq<u4>, Seq<u8>)> {
    Seq::new(c.len(), |i: int| (c[i].0@, c[i].1@))
}

/// A children table is a map: every key is a non-empty path, and no key
/// occurs twice.
pub open spec fn children_wf(c: Seq<(Seq<u4>, Seq<u8>)>) -> bool {
    &&& forall|i: int| 0 <= i < c.len() ==> #[trigger] c[i].0.len() > 0
    &&& forall|i: int, j: int|
        0 <= i < c.len() && 0 <= j < c.len() && i != j ==> #[trigger] c[i].0 != #[trigger] c[j].0
}

/// Whether the path `q` begins with the path `p`.
pub fn starts_with(q: &[u4], p: &[u4]) -> (r: bool)
    ensures
        r == is_prefix(p@, q@),
{
    if p.len() > q.len() {
        return false;
    }
    let mut i: usize = 0;
    while i < p.len()
        invariant
            i <= p@.len(),
            p@.len() <= q@.len(),
            forall|j: int| 0 <= j < i ==> q@[j] == p@[j],
        decreases p@.len() - i,
    {
        if q[i] != p[i] {
            assert(q@.subrange(0, p@.len() as int)[i as int] != p@[i as int]);
            return false;
        }
        i = i + 1;
    }
    assert(q@.subrange(0, p@.len() as int) =~= p@);
    true
}

/// Whether two paths are equal.
pub fn path_eq(a: &[u4], b: &[u4]) -> (r: bool)
    ensures
        r == (a@ == b@),
{
    if a.len() != b.len() {
        return false;
    }
    let r = starts_with(a, b);
    proof {
        if r {
            assert(a@ =~= b@);
        }
        if a@ == b@ {
            assert(a@.subrange(0, b@.len() as int) =~= b@);
        }
    }
    r
}

/// Whether `whole` is the path `parent` followed by the path `key`.
pub fn is_extension(whole: &[u4], parent: &[u4], key: &[u4]) -> (r: bool)
    ensures
        r == (whole@ == parent@ + key@),
{
    if whole.len() < parent.len() || whole.len() - parent.len() != key.len() || !starts_with(
        whole,
        parent,
    ) {
        proof {
            if whole@.len() == parent@.len() + key@.len() {
                assert(!is_prefix(parent@, whole@));
                assert((parent@ + key@).subrange(0, parent@.len() as int) =~= parent@);
            }
        }
        return false;
    }
    let n = parent.len();
    let total = whole.len();
    let mut i: usize = 0;
    while i < key.len()
        invariant
            i <= key@.len(),
            n == parent@.len(),
            whole@.len() == n + key@.len(),
            total == whole@.len(),
            forall|j: int| 0 <= j < i ==> whole@[n + j] == key@[j],
        decreases key@.len() - i,
    {
        if whole[n + i] != key[i] {
            assert((parent@ + key@)[n + i] == key@[i as int]);
            return false;
        }
        i = i + 1;
    }
    assert(whole@.subrange(0, n as int) =~= parent@);
    assert(whole@ =~= parent@ + key@) by {
        assert forall|j: int| 0 <= j < whole@.len() implies whole@[j] == (parent@ + key@)[j] by {
            if j < n {
                assert(whole@.subrange(0, n as int)[j] == whole@[j]);
            } else {
                assert(whole@[n + (j - n)] == key@[j - n]);
            }
        }
    }
    true
}

/// The index of a child whose key is an initial segment of `rest`: one step
/// of descent towards the path that `rest` remains of. `None` when no key is.
pub fn find_prefix_key<X>(children: &Vec<(Vec<u4>, HashOf<X>)>, rest: &[u4]) -> (r: Option<usize>)
    ensures
        r matches Some(i) ==> i < children@.len() && is_prefix(children@[i as int].0@, rest@),
        r is None ==> forall|i: int|
            0 <= i < children@.len() ==> !is_prefix(#[trigger] children@[i].0@, rest@),
{
    let mut i: usize = 0;
    while i < children.len()
        invariant
            i <= children@.len(),
            forall|j: int| 0 <= j < i ==> !is_prefix(#[trigger] children@[j].0@, rest@),
        decreases children@.len() - i,
    {
        if starts_with(rest, children[i].0.as_slice()) {
            return Some(i);
        }
        i = i + 1;
    }
    None
}

/// The index of the child stored under exactly `key`, if there is one.
pub fn find_key<X>(children: &Vec<(Vec<u4>, HashOf<X>)>, key: &[u4]) -> (r: Option<usize>)
    ensures
        r matches Some(i) ==> i < children@.len() && children@[i as int].0@ == key@,
        r is None ==> forall|i: int| 0 <= i < children@.len() ==> #[trigger] children@[i].0@ != key@,
{
    let mut i: usize = 0;
    while i < children.len()
        invariant
            i <= children@.len(),
            forall|j: int| 0 <= j < i ==> #[trigger] children@[j].0@ != key@,
        decreases children@.len() - i,
    {
        if path_eq(children[i].0.as_slice(), key) {
            return Some(i);
        }
        i = i + 1;
    }
    None
}

/// Descending from a node along a consistent child keeps the node's path an
/// initial segment of the target: if the parent lies on the way to `target`,
/// its key is an initial segment of what remains of `target`, and the child's
/// path is the parent's followed by the key, then the child lies on the way too.
pub proof fn lemma_descent_stays_on_path(
    parent: Seq<u4>,
    key: Seq<u4>,
    child: Seq<u4>,
    target: Seq<u4>,
)
    requires
        is_prefix(parent, target),
        is_prefix(key, target.subrange(parent.len() as int, target.len() as int)),
        child == parent + key,
    ensures
        is_prefix(child, target),
        child.len() > parent.len() || key.len() == 0,
{
    let rest = target.subrange(parent.len() as int, target.len() as int);
    assert(target.subrange(0, child.len() as int) =~= child) by {
        assert forall|j: int| 0 <= j < child.len() implies target[j] == child[j] by {
            if j < parent.len() {
                assert(target.subrange(0, parent.len() as int)[j] == target[j]);
            } else {
                assert(rest.subrange(0, key.len() as int)[j - parent.len()] == rest[j
                    - parent.len()]);
            }
        }
    }
}

} // verus!
