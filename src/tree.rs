use crate::poseidon::{hash_pair, poseidon_hash};
use crate::zero_values::{zero_value, zeros, MAX_LEVELS};
use vstd::arithmetic::power2::{lemma2_to64, lemma_pow2_strictly_increases, lemma_pow2_unfold, pow2};
use vstd::prelude::*;

verus! {

/// Why an operation on a tree was refused.
#[derive(Debug, Clone, Copy, PartialEq, Eq)]
pub enum PoseidonMerkleTreeError {
    /// A tree deeper than `MAX_LEVELS` was asked for.
    InvalidLevels,
    /// Every leaf position of the tree is taken.
    MerkleTreeFull,
    /// The hasher could not be obtained. Each tree hashes through a hasher of its own,
    /// with no lock shared between trees, so no operation of this crate returns it.
    PoseidonLockError,
    /// The Poseidon hash rejected one of its inputs: the leaf does not encode an
    /// element of the BN254 scalar field.
    InvalidLeaf,
}

/// An append-only Merkle tree of fixed height over Poseidon hashes, which keeps the
/// roots of its last `MAX_LEVELS` states.
#[derive(Debug, Clone, PartialEq)]
pub struct PoseidonMerkleTree {
    /// The height of the tree: it holds up to `2^levels` leaves.
    pub levels: u32,
    /// For each level, the last left-hand node written there (the frontier).
    pub filled_subtrees: Vec<[u8; 32]>,
    /// A ring of the most recent roots; slots never written hold zero bytes.
    pub roots: Vec<[u8; 32]>,
    /// The slot of `roots` written last.
    pub current_root_index: u32,
    /// How many leaves the tree holds, which is also the position of the next one.
    pub next_index: u32,
}

/// Whether all 32 bytes of `h` are zero.
pub open spec fn is_blank(h: [u8; 32]) -> bool {
    forall|k: int| 0 <= k < 32 ==> h[k] == 0
}

/// The root of a tree of height `levels` that holds no leaf, as recorded at construction.
/// A tree of height 0 starts from the placeholder leaf itself.
pub open spec fn empty_root(levels: nat) -> [u8; 32] {
    if levels == 0 {
        zero_value(0)
    } else {
        zero_value(levels - 1)
    }
}

/// The slot of the root history that follows slot `i`.
pub open spec fn next_slot(i: int) -> int {
    (i + 1) % (MAX_LEVELS as int)
}

/// Hashing a node up from `level` to the top of a tree of height `frontier.len()`:
/// `index` is the node's position within its level and `frontier` the left-hand nodes
/// recorded so far. At each level a left child is paired with the empty subtree and
/// recorded, a right child is paired with the recorded left node. Gives the root and
/// the frontier afterwards, or `None` where the hash rejects an input on the way.
pub open spec fn climb(frontier: Seq<[u8; 32]>, index: nat, node: [u8; 32], level: nat) -> Option<([u8; 32], Seq<[u8; 32]>)>
    decreases frontier.len() - level,
{
    if level >= frontier.len() {
        Some((node, frontier))
    } else {
        let left = if index % 2 == 0 { node } else { frontier[level as int] };
        let right = if index % 2 == 0 { zero_value(level as int) } else { node };
        match poseidon_hash(left, right) {
            Some(parent) => climb(frontier.update(level as int, left), index / 2, parent, level + 1),
            None => None,
        }
    }
}

/// What a tree holds, as mathematical values.
pub struct TreeView {
    pub levels: nat,
    pub frontier: Seq<[u8; 32]>,
    pub roots: Seq<[u8; 32]>,
    pub cursor: int,
    pub count: nat,
}

impl View for PoseidonMerkleTree {
    type V = TreeView;

    open spec fn view(&self) -> TreeView {
        TreeView {
            levels: self.levels as nat,
            frontier: self.filled_subtrees@,
            roots: self.roots@,
            cursor: self.current_root_index as int,
            count: self.next_index as nat,
        }
    }
}

/// Whether the tree `s` accepts `root`: it is not all zero and some slot of the history
/// holds it.
pub open spec fn known(s: TreeView, root: [u8; 32]) -> bool {
    &&& !is_blank(root)
    &&& exists|j: int| 0 <= j < s.roots.len() && s.roots[j] == root
}

/// Inserting `leaf` into a tree `s`: the result and the tree afterwards.
///
/// A full tree refuses with `MerkleTreeFull`, and a leaf that the hash rejects on its
/// path with `InvalidLeaf`; both leave the tree as it was. Otherwise the frontier is
/// replaced by the one the path gives, its root is written into the next slot of the
/// history, which becomes the current one, and the count of leaves, which is returned,
/// grows by one.
pub open spec fn insert_step(s: TreeView, leaf: [u8; 32]) -> (Result<u32, PoseidonMerkleTreeError>, TreeView) {
    if s.count >= pow2(s.levels) {
        (Err(PoseidonMerkleTreeError::MerkleTreeFull), s)
    } else {
        match climb(s.frontier, s.count, leaf, 0) {
            None => (Err(PoseidonMerkleTreeError::InvalidLeaf), s),
            Some(out) => {
                let slot = next_slot(s.cursor);
                (
                    Ok((s.count + 1) as u32),
                    TreeView {
                        frontier: out.1,
                        roots: s.roots.update(slot, out.0),
                        cursor: slot,
                        count: s.count + 1,
                        ..s
                    },
                )
            },
        }
    }
}

impl PoseidonMerkleTree {
    /// The largest size of a tree in its stored form: the height, the frontier with its
    /// length, the root history, the cursor and the leaf count.
    pub const SIZE: usize = 4 + 32 * MAX_LEVELS + 32 * MAX_LEVELS + 4 + 4;

    /// The shape every tree keeps: a bounded height, one frontier entry per level, a
    /// full ring of roots with the cursor inside it, and no more leaves than positions.
    pub open spec fn wf(&self) -> bool {
        &&& self.levels <= MAX_LEVELS
        &&& self.filled_subtrees@.len() == self.levels
        &&& self.roots@.len() == MAX_LEVELS
        &&& self.current_root_index < MAX_LEVELS
        &&& self.next_index <= pow2(self.levels as nat)
    }

    /// A well-formed tree of height `levels` that holds no leaf: the frontier holds the
    /// empty subtree of each level, and the history holds the empty tree's root in
    /// slot 0 and zeros elsewhere.
    pub open spec fn is_empty_of_height(&self, levels: u32) -> bool {
        &&& self.wf()
        &&& self.levels == levels
        &&& self.filled_subtrees@ == Seq::new(levels as nat, |i: int| zero_value(i))
        &&& self.roots@[0] == empty_root(levels as nat)
        &&& forall|j: int| 1 <= j < MAX_LEVELS ==> is_blank(#[trigger] self.roots@[j])
        &&& self.current_root_index == 0
        &&& self.next_index == 0
    }

    /// Builds an empty tree of height `levels`: the frontier holds the empty subtree of
    /// each level, and the history holds the empty tree's root in slot 0 and zeros
    /// elsewhere. Heights above `MAX_LEVELS` are refused.
    pub fn new(levels: u32) -> (r: Result<PoseidonMerkleTree, PoseidonMerkleTreeError>)
        ensures
            match r {
                Ok(t) => levels <= MAX_LEVELS && t.is_empty_of_height(levels),
                Err(e) => levels > MAX_LEVELS && e == PoseidonMerkleTreeError::InvalidLevels,
            },
    {
        if levels > MAX_LEVELS as u32 {
            return Err(PoseidonMerkleTreeError::InvalidLevels);
        }
        let mut filled_subtrees: Vec<[u8; 32]> = Vec::new();
        let mut i: u32 = 0;
        while i < levels
            invariant
                i <= levels <= MAX_LEVELS,
                filled_subtrees@ == Seq::new(i as nat, |k: int| zero_value(k)),
            decreases levels - i,
        {
            filled_subtrees.push(zeros(i));
            i = i + 1;
        }
        let first = if levels == 0 { zeros(0) } else { zeros(levels - 1) };
        let mut roots: Vec<[u8; 32]> = Vec::new();
        roots.push(first);
        while roots.len() < MAX_LEVELS
            invariant
                1 <= roots@.len() <= MAX_LEVELS,
                roots@[0] == empty_root(levels as nat),
                forall|j: int| 1 <= j < roots@.len() ==> is_blank(#[trigger] roots@[j]),
            decreases MAX_LEVELS - roots@.len(),
        {
            roots.push([0u8; 32]);
        }
        proof {
            lemma_pow2_pos_any(levels as nat);
        }
        Ok(PoseidonMerkleTree {
            levels,
            filled_subtrees,
            roots,
            current_root_index: 0,
            next_index: 0,
        })
    }

    /// Appends `leaf` at position `next_index` and records the new root in the history.
    ///
    /// On success returns the number of leaves now held (one more than the position
    /// just filled). A full tree is refused with `MerkleTreeFull`, and a leaf that the
    /// hash rejects somewhere on its path with `InvalidLeaf`; a refused call leaves the
    /// tree as it was.
    pub fn insert(&mut self, leaf: &[u8; 32]) -> (r: Result<u32, PoseidonMerkleTreeError>)
        requires
            old(self).wf(),
        ensures
            final(self).wf(),
            (r, final(self)@) == insert_step(old(self)@, *leaf),
    {
        if self.next_index == capacity(self.levels) {
            return Err(PoseidonMerkleTreeError::MerkleTreeFull);
        }
        let levels = self.levels;
        let mut frontier = copy_hashes(&self.filled_subtrees);
        let mut index = self.next_index;
        let mut node = *leaf;
        let mut i: u32 = 0;
        while i < levels
            invariant
                self.wf(),
                *self == *old(self),
                self.next_index < pow2(self.levels as nat),
                levels == self.levels,
                i <= levels,
                frontier@.len() == levels,
                climb(frontier@, index as nat, node, i as nat) == climb(
                    old(self).filled_subtrees@,
                    old(self).next_index as nat,
                    *leaf,
                    0,
                ),
            decreases levels - i,
        {
            let left: [u8; 32];
            let right: [u8; 32];
            if index % 2 == 0 {
                left = node;
                right = zeros(i);
            } else {
                left = frontier[i as usize];
                right = node;
            }
            match hash_pair(&left, &right) {
                Some(parent) => {
                    frontier.set(i as usize, left);
                    node = parent;
                },
                None => {
                    return Err(PoseidonMerkleTreeError::InvalidLeaf);
                },
            }
            index = index / 2;
            i = i + 1;
        }
        let slot = (self.current_root_index + 1) % (MAX_LEVELS as u32);
        self.filled_subtrees = frontier;
        self.current_root_index = slot;
        self.roots.set(slot as usize, node);
        self.next_index = self.next_index + 1;
        Ok(self.next_index)
    }
    /// Whether `root` is one of the roots the history holds. The all-zero value is never
    /// accepted, since unwritten slots hold it. The history is searched from the current
    /// slot backwards, so the most recent roots are found first.
    pub fn is_known_root(&self, root: [u8; 32]) -> (r: bool)
        requires
            self.wf(),
        ensures
            r == known(self@, root),
    {
        if is_zero_hash(&root) {
            return false;
        }
        let ring = MAX_LEVELS as u32;
        let mut i = self.current_root_index;
        let mut step: u32 = 0;
        while step < ring
            invariant
                self.wf(),
                !is_blank(root),
                ring == MAX_LEVELS,
                step <= ring,
                i < ring,
                i == (self.current_root_index - step) % (ring as int),
                forall|t: int|
                    0 <= t < step ==> self.roots@[#[trigger] ((self.current_root_index - t) % (ring as int))] != root,
            decreases ring - step,
        {
            if same_hash(&self.roots[i as usize], &root) {
                assert(self@.roots[i as int] == root);
                return true;
            }
            i = if i == 0 { ring - 1 } else { i - 1 };
            step = step + 1;
        }
        assert forall|j: int| 0 <= j < MAX_LEVELS implies self.roots@[j] != root by {
            let t = (self.current_root_index - j) % (ring as int);
            assert((self.current_root_index - t) % (ring as int) == j);
        }
        false
    }
}

/// Whether two hashes hold the same bytes.
fn same_hash(a: &[u8; 32], b: &[u8; 32]) -> (r: bool)
    ensures
        r == (*a == *b),
{
    let mut k: usize = 0;
    while k < 32
        invariant
            k <= 32,
            forall|j: int| 0 <= j < k ==> a[j] == b[j],
        decreases 32 - k,
    {
        if a[k] != b[k] {
            return false;
        }
        k = k + 1;
    }
    assert(*a =~= *b);
    true
}

/// Whether every byte of `h` is zero.
fn is_zero_hash(h: &[u8; 32]) -> (r: bool)
    ensures
        r == is_blank(*h),
{
    let mut k: usize = 0;
    while k < 32
        invariant
            k <= 32,
            forall|j: int| 0 <= j < k ==> h[j] == 0,
        decreases 32 - k,
    {
        if h[k] != 0 {
            return false;
        }
        k = k + 1;
    }
    true
}

/// `2^levels`, the number of leaves a tree of that height holds.
fn capacity(levels: u32) -> (r: u32)
    requires
        levels <= MAX_LEVELS,
    ensures
        r == pow2(levels as nat),
{
    let mut r: u32 = 1;
    let mut i: u32 = 0;
    proof {
        lemma2_to64();
    }
    while i < levels
        invariant
            i <= levels <= MAX_LEVELS,
            r == pow2(i as nat),
        decreases levels - i,
    {
        proof {
            lemma_pow2_unfold((i + 1) as nat);
            if i + 1 < 20 {
                lemma_pow2_strictly_increases((i + 1) as nat, 20);
            }
            lemma2_to64();
        }
        r = r * 2;
        i = i + 1;
    }
    r
}

/// A copy of a list of hashes.
fn copy_hashes(v: &Vec<[u8; 32]>) -> (r: Vec<[u8; 32]>)
    ensures
        r@ == v@,
{
    let mut r: Vec<[u8; 32]> = Vec::new();
    let mut k: usize = 0;
    while k < v.len()
        invariant
            k <= v@.len(),
            r@ == v@.subrange(0, k as int),
        decreases v@.len() - k,
    {
        r.push(v[k]);
        k = k + 1;
    }
    assert(r@ =~= v@);
    r
}

proof fn lemma_pow2_pos_any(e: nat)
    ensures
        pow2(e) > 0,
{
    vstd::arithmetic::power2::lemma_pow2_pos(e);
}

} // verus!
