use crate::tree::{insert_step, is_blank, known, PoseidonMerkleTree, PoseidonMerkleTreeError, TreeView};
use crate::zero_values::MAX_LEVELS;
use vstd::arithmetic::power2::pow2;
use vstd::prelude::*;

verus! {

/// Inserting `leaves` in order into the tree `s`: the result of each insertion and the
/// tree at the end.
pub open spec fn run(s: TreeView, leaves: Seq<[u8; 32]>) -> (Seq<Result<u32, PoseidonMerkleTreeError>>, TreeView)
    decreases leaves.len(),
{
    if leaves.len() == 0 {
        (Seq::empty(), s)
    } else {
        let before = run(s, leaves.drop_last());
        let step = insert_step(before.1, leaves.last());
        (before.0.push(step.0), step.1)
    }
}

/// The root that the `j`-th insertion of `leaves` into `s` wrote (counting from 1).
pub open spec fn root_of(s: TreeView, leaves: Seq<[u8; 32]>, j: int) -> [u8; 32] {
    let t = run(s, leaves.take(j)).1;
    t.roots[t.cursor]
}

/// Whether the hash accepted the leaf of every insertion of `leaves` into `s`.
pub open spec fn no_leaf_rejected(s: TreeView, leaves: Seq<[u8; 32]>) -> bool {
    forall|k: int|
        0 <= k < leaves.len() ==> #[trigger] run(s, leaves).0[k] != Err::<u32, _>(
            PoseidonMerkleTreeError::InvalidLeaf,
        )
}

/// A run gives one result per leaf and keeps the height.
pub proof fn lemma_run_len(s: TreeView, leaves: Seq<[u8; 32]>)
    ensures
        run(s, leaves).0.len() == leaves.len(),
        run(s, leaves).1.levels == s.levels,
    decreases leaves.len(),
{
    if leaves.len() > 0 {
        lemma_run_len(s, leaves.drop_last());
    }
}

/// The results of a run's first leaves are those of the run on those leaves alone.
proof fn lemma_run_prefix(s: TreeView, leaves: Seq<[u8; 32]>)
    requires
        leaves.len() > 0,
    ensures
        forall|k: int|
            0 <= k < leaves.len() - 1 ==> #[trigger] run(s, leaves).0[k] == run(
                s,
                leaves.drop_last(),
            ).0[k],
        no_leaf_rejected(s, leaves) ==> no_leaf_rejected(s, leaves.drop_last()),
{
    lemma_run_len(s, leaves.drop_last());
    if no_leaf_rejected(s, leaves) {
        assert forall|k: int| 0 <= k < leaves.drop_last().len() implies #[trigger] run(
            s,
            leaves.drop_last(),
        ).0[k] != Err::<u32, _>(PoseidonMerkleTreeError::InvalidLeaf) by {
            assert(run(s, leaves).0[k] == run(s, leaves.drop_last()).0[k]);
        }
    }
}

/// The count of leaves along a run from an empty tree, where the hash accepts every leaf.
proof fn lemma_run_counts(s: TreeView, leaves: Seq<[u8; 32]>)
    requires
        s.count == 0,
        no_leaf_rejected(s, leaves),
    ensures
        run(s, leaves).1.count == if leaves.len() <= pow2(s.levels) {
            leaves.len()
        } else {
            pow2(s.levels)
        },
        forall|k: int|
            0 <= k < leaves.len() && k < pow2(s.levels) ==> #[trigger] run(s, leaves).0[k] == Ok::<
                u32,
                PoseidonMerkleTreeError,
            >((k + 1) as u32),
        forall|k: int|
            pow2(s.levels) <= k < leaves.len() ==> #[trigger] run(s, leaves).0[k] == Err::<u32, _>(
                PoseidonMerkleTreeError::MerkleTreeFull,
            ),
        leaves.len() > pow2(s.levels) ==> run(s, leaves).1 == run(
            s,
            leaves.take(pow2(s.levels) as int),
        ).1,
    decreases leaves.len(),
{
    if leaves.len() > 0 {
        let p = leaves.drop_last();
        lemma_run_prefix(s, leaves);
        lemma_run_counts(s, p);
        lemma_run_len(s, p);
        lemma_run_len(s, leaves);
        let n = leaves.len() - 1;
        assert(run(s, leaves).0[n] != Err::<u32, _>(PoseidonMerkleTreeError::InvalidLeaf));
        if n == pow2(s.levels) {
            assert(p =~= leaves.take(pow2(s.levels) as int));
        } else if n > pow2(s.levels) {
            assert(p.take(pow2(s.levels) as int) =~= leaves.take(pow2(s.levels) as int));
        }
    }
}

/// A tree of height `d` takes exactly `2^d` leaves: from an empty tree, where the hash
/// accepts every leaf, the `k`-th insertion returns `k` up to `2^d`, and every later
/// one fails with `MerkleTreeFull` and leaves the tree as it was.
pub proof fn lemma_capacity(t: PoseidonMerkleTree, leaves: Seq<[u8; 32]>)
    requires
        t.is_empty_of_height(t.levels),
        no_leaf_rejected(t@, leaves),
    ensures
        run(t@, leaves).0.len() == leaves.len(),
        forall|k: int|
            0 <= k < leaves.len() && k < pow2(t.levels as nat) ==> #[trigger] run(t@, leaves).0[k]
                == Ok::<u32, PoseidonMerkleTreeError>((k + 1) as u32),
        forall|k: int|
            pow2(t.levels as nat) <= k < leaves.len() ==> #[trigger] run(t@, leaves).0[k] == Err::<
                u32,
                _,
            >(PoseidonMerkleTreeError::MerkleTreeFull),
        leaves.len() > pow2(t.levels as nat) ==> run(t@, leaves).1 == run(
            t@,
            leaves.take(pow2(t.levels as nat) as int),
        ).1,
{
    lemma_run_len(t@, leaves);
    lemma_run_counts(t@, leaves);
}

/// The history along a run from an empty tree that stays within the tree's capacity and
/// whose leaves the hash accepts: the slot of each of the last `MAX_LEVELS` insertions
/// holds the root it wrote.
proof fn lemma_history(s: TreeView, leaves: Seq<[u8; 32]>)
    requires
        s.count == 0,
        s.cursor == 0,
        s.roots.len() == MAX_LEVELS,
        leaves.len() <= pow2(s.levels),
        no_leaf_rejected(s, leaves),
    ensures
        run(s, leaves).1.roots.len() == MAX_LEVELS,
        run(s, leaves).1.cursor == (leaves.len() as int) % (MAX_LEVELS as int),
        run(s, leaves).1.count == leaves.len(),
        forall|j: int|
            1 <= j <= leaves.len() && leaves.len() - MAX_LEVELS < j ==> run(s, leaves).1.roots[j
                % (MAX_LEVELS as int)] == #[trigger] root_of(s, leaves, j),
    decreases leaves.len(),
{
    if leaves.len() > 0 {
        let p = leaves.drop_last();
        let n = leaves.len() as int;
        lemma_run_prefix(s, leaves);
        lemma_history(s, p);
        lemma_run_len(s, p);
        assert(run(s, leaves).0[n - 1] != Err::<u32, _>(PoseidonMerkleTreeError::InvalidLeaf));
        assert(leaves.take(n) =~= leaves);
        assert forall|j: int|
            1 <= j <= n && n - MAX_LEVELS < j implies run(s, leaves).1.roots[j
            % (MAX_LEVELS as int)] == #[trigger] root_of(s, leaves, j) by {
            if j < n {
                assert(leaves.take(j) =~= p.take(j));
                assert(root_of(s, p, j) == root_of(s, leaves, j));
            }
        }
    }
}

/// The window of recent roots. After `k` insertions into an empty tree, all within its
/// capacity and all accepted by the hash, the root written by each of the last
/// `MAX_LEVELS` insertions (by every insertion, where `k <= MAX_LEVELS`) is recognised,
/// unless it is all zero. Once `k >= MAX_LEVELS`, the history holds those roots and
/// nothing else: an older root is recognised only where it equals one of them.
pub proof fn lemma_recent_roots_known(t: PoseidonMerkleTree, leaves: Seq<[u8; 32]>)
    requires
        t.is_empty_of_height(t.levels),
        leaves.len() <= pow2(t.levels as nat),
        no_leaf_rejected(t@, leaves),
    ensures
        forall|j: int|
            1 <= j <= leaves.len() && leaves.len() - MAX_LEVELS < j && !is_blank(
                #[trigger] root_of(t@, leaves, j),
            ) ==> known(run(t@, leaves).1, root_of(t@, leaves, j)),
        leaves.len() >= MAX_LEVELS ==> forall|root: [u8; 32]|
            #[trigger] known(run(t@, leaves).1, root) <==> !is_blank(root) && exists|j: int|
                leaves.len() - MAX_LEVELS < j <= leaves.len() && root_of(t@, leaves, j) == root,
{
    let s = t@;
    let n = leaves.len() as int;
    let m = MAX_LEVELS as int;
    lemma_history(s, leaves);
    let f = run(s, leaves).1;
    assert forall|j: int|
        1 <= j <= n && n - m < j && !is_blank(#[trigger] root_of(s, leaves, j)) implies known(
        f,
        root_of(s, leaves, j),
    ) by {
        assert(f.roots[j % m] == root_of(s, leaves, j));
    }
    if n >= m {
        assert forall|root: [u8; 32]| #[trigger]
            known(f, root) <==> !is_blank(root) && exists|j: int|
                n - m < j <= n && root_of(s, leaves, j) == root by {
            if known(f, root) {
                let i = choose|i: int| 0 <= i < f.roots.len() && f.roots[i] == root;
                let j = n - ((n - i) % m);
                assert(j % m == i);
                assert(f.roots[j % m] == root_of(s, leaves, j));
            }
            if !is_blank(root) && exists|j: int| n - m < j <= n && root_of(s, leaves, j) == root {
                let j = choose|j: int| n - m < j <= n && root_of(s, leaves, j) == root;
                assert(f.roots[j % m] == root_of(s, leaves, j));
            }
        }
    }
}

/// No tree accepts the all-zero value as a root.
pub proof fn lemma_zero_never_known(s: TreeView, root: [u8; 32])
    requires
        is_blank(root),
    ensures
        !known(s, root),
{
}

/// Two empty trees of the same height that take the same leaves in the same order give
/// the same results and end equal: same frontier, same history, same counters.
pub proof fn lemma_deterministic(a: PoseidonMerkleTree, b: PoseidonMerkleTree, leaves: Seq<[u8; 32]>)
    requires
        a.is_empty_of_height(a.levels),
        b.is_empty_of_height(a.levels),
    ensures
        run(a@, leaves) == run(b@, leaves),
{
    assert forall|j: int| 0 <= j < MAX_LEVELS implies a.roots@[j] == b.roots@[j] by {
        if j > 0 {
            assert(a.roots@[j] =~= b.roots@[j]);
        }
    }
    assert(a@.roots =~= b@.roots);
    assert(a@.frontier =~= b@.frontier);
}

} // verus!
