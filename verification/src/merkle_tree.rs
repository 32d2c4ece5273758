//! A sparse Merkle tree of fixed height whose leaves are appended in pairs,
//! and the membership paths that it hands out.

use crate::field::{lemma_equal_values, lemma_modulus_bounds, modulus, values, Fr};
use crate::merkle_spec::{
    ancestor, climb, contract_root, contract_state, empty_hash, flatten, hash_pair, is_empty_chain,
    lemma_ancestor_bounds, lemma_ancestor_monotone, lemma_ancestor_neighbours,
    lemma_ancestor_shift, lemma_ancestor_zero, lemma_contract_length,
    lemma_contract_root_is_merkle_root, lemma_empty_node, lemma_node_frame,
    lemma_path_leads_to_root, lemma_replay, lemma_span_step, merkle_path, merkle_root, node,
    path_index, path_root, replay, span,
};
use crate::poseidon_opt::{params_t3, PoseidonOptimized, PoseidonParams};
use vstd::prelude::*;

verus! {

/// Why a tree or a path refused a request.
#[derive(Debug, Clone, Copy, PartialEq, Eq)]
pub enum MerkleError {
    /// Two more leaves do not fit under the tree's height.
    TreeFull { capacity: usize },
    /// Leaves come in pairs.
    OddLeafCount,
    /// No leaf has this index.
    IndexOutOfBounds { index: usize, len: usize },
    /// The path does not lead from the leaf to the root.
    NotAMember,
}

/// The numbers that a sequence of pairs of elements stands for.
pub open spec fn pair_values(s: Seq<(Fr, Fr)>) -> Seq<(nat, nat)> {
    Seq::new(s.len(), |i: int| (s[i].0@, s[i].1@))
}

/// A membership path: for each level the left and the right child of the
/// leaf's ancestor one level up.
#[derive(Debug, Clone, Copy, PartialEq)]
pub struct Path<const N: usize> {
    pub path: [(Fr, Fr); N],
}

impl<const N: usize> View for Path<N> {
    type V = Seq<(nat, nat)>;

    open spec fn view(&self) -> Seq<(nat, nat)> {
        pair_values(self.path@)
    }
}

impl<const N: usize> Path<N> {
    /// The path whose every entry is zero.
    pub fn empty() -> (r: Self)
        ensures
            r@ == Seq::new(N as nat, |i: int| (0nat, 0nat)),
    {
        let z = Fr::zero();
        let r = Self { path: [(z, z);N] };
        assert(r@ =~= Seq::new(N as nat, |i: int| (0nat, 0nat)));
        r
    }

    /// The root that the path leads to from `leaf`.
    pub fn calculate_root(&self, leaf: &Fr, hasher: &PoseidonOptimized) -> (r: Result<
        Fr,
        MerkleError,
    >)
        requires
            hasher.wf(),
            hasher.t == 3,
        ensures
            r is Ok,
            r.unwrap()@ == path_root(hasher@, leaf@, self@, N as nat),
    {
        let mut previous_hash = *leaf;
        let mut i: usize = 0;
        while i < N
            invariant
                hasher.wf(),
                hasher.t == 3,
                i <= N,
                previous_hash@ == path_root(hasher@, leaf@, self@, i as nat),
            decreases N - i,
        {
            let (p_left_hash, p_right_hash) = self.path[i];
            let previous_is_left = previous_hash == p_left_hash;
            proof {
                lemma_equal_values(previous_hash, p_left_hash);
            }
            let left_hash = if previous_is_left {
                previous_hash
            } else {
                p_left_hash
            };
            let right_hash = if previous_is_left {
                p_right_hash
            } else {
                previous_hash
            };
            previous_hash = hasher.hash2(&left_hash, &right_hash);
            i += 1;
        }
        Ok(previous_hash)
    }

    /// Whether the path leads from `leaf` to `root_hash`.
    pub fn check_membership(&self, root_hash: &Fr, leaf: &Fr, hasher: &PoseidonOptimized) -> (r:
        Result<bool, MerkleError>)
        requires
            hasher.wf(),
            hasher.t == 3,
        ensures
            r is Ok,
            r.unwrap() == (path_root(hasher@, leaf@, self@, N as nat) == root_hash@),
    {
        match self.calculate_root(leaf, hasher) {
            Ok(root) => {
                proof {
                    lemma_equal_values(root, *root_hash);
                }
                Ok(root == *root_hash)
            },
            Err(e) => Err(e),
        }
    }

    /// The index of `leaf` as the path's sides tell it: a leaf that stands
    /// right counts one, and level `l` counts two to the power `l` where the
    /// hash of the pair below is not the left entry.
    pub fn get_index(&self, root_hash: &Fr, leaf: &Fr, hasher: &PoseidonOptimized) -> (r: Result<
        Fr,
        MerkleError,
    >)
        requires
            hasher.wf(),
            hasher.t == 3,
            1 <= N <= 64,
        ensures
            r is Ok <==> path_root(hasher@, leaf@, self@, N as nat) == root_hash@,
            match r {
                Ok(index) => index@ == path_index(hasher@, leaf@, self@, N as nat),
                Err(e) => e == MerkleError::NotAMember,
            },
    {
        let ghost h = hasher@;
        let is_member = match self.check_membership(root_hash, leaf, hasher) {
            Ok(b) => b,
            Err(e) => {
                return Err(e);
            },
        };
        if !is_member {
            return Err(MerkleError::NotAMember);
        }
        let first = self.path[0];
        let is_left = *leaf == first.0;
        proof {
            lemma_equal_values(*leaf, first.0);
            lemma_modulus_bounds();
            lemma_span_64();
            lemma_span_step(0);
        }
        let mut index = if is_left {
            Fr::zero()
        } else {
            Fr::from_u64(1)
        };
        let mut prev = hasher.hash2(&first.0, &first.1);
        let mut bit: u64 = 1;
        let mut level: usize = 1;
        while level < N
            invariant
                hasher.wf(),
                hasher.t == 3,
                h == hasher@,
                1 <= level <= N <= 64,
                bit == span((level - 1) as nat),
                index@ == path_index(h, leaf@, self@, level as nat),
                index@ < span(level as nat),
                span(64) == 0x1_0000_0000_0000_0000,
                span(64) < modulus(),
                prev@ == hash_pair(h, self@[level - 1].0, self@[level - 1].1),
            decreases N - level,
        {
            let (left_hash, right_hash) = self.path[level];
            proof {
                lemma_span_step((level - 1) as nat);
                lemma_span_step(level as nat);
                lemma_span_grows((level + 1) as nat, 64);
                lemma_equal_values(prev, left_hash);
            }
            bit = bit * 2;
            if prev != left_hash {
                let bit_value = Fr::from_u64(bit);
                proof {
                    vstd::arithmetic::div_mod::lemma_small_mod(
                        index@ + bit_value@,
                        modulus(),
                    );
                }
                index = index.add(&bit_value);
            }
            prev = hasher.hash2(&left_hash, &right_hash);
            level += 1;
        }
        Ok(index)
    }
}

/// One step of the replay that finds the nodes at height `level`: after
/// pair `q` has climbed, the hash at that height is the node above the pair,
/// that node is the last one listed or the next, and the nodes listed to its
/// left are what they were.
pub proof fn lemma_level_step(
    h: PoseidonParams,
    e: Seq<nat>,
    leaves: Seq<nat>,
    level: nat,
    q: nat,
    nodes_before: Seq<nat>,
)
    requires
        is_empty_chain(h, e),
        1 <= level <= e.len(),
        2 * q + 2 <= leaves.len(),
        q == 0 ==> nodes_before.len() == 0,
        q >= 1 ==> nodes_before.len() == ancestor((q - 1) as nat, (level - 1) as nat) + 1,
        forall|j: int|
            0 <= j < nodes_before.len() ==> #[trigger] nodes_before[j] == node(
                h,
                e[0],
                leaves.take((2 * q) as int),
                level,
                j as nat,
            ),
    ensures
        replay(h, e, leaves.take((2 * q + 2) as int), level) == climb(
            h,
            e,
            replay(h, e, leaves.take((2 * q) as int), level).0,
            hash_pair(h, leaves[(2 * q) as int], leaves[(2 * q + 1) as int]),
            q,
            1,
            level,
        ),
        replay(h, e, leaves.take((2 * q + 2) as int), level).1 == node(
            h,
            e[0],
            leaves.take((2 * q + 2) as int),
            level,
            ancestor(q, (level - 1) as nat),
        ),
        ancestor(q, (level - 1) as nat) <= nodes_before.len() <= ancestor(q, (level - 1) as nat)
            + 1,
        forall|j: int|
            0 <= j < ancestor(q, (level - 1) as nat) ==> #[trigger] nodes_before[j] == node(
                h,
                e[0],
                leaves.take((2 * q + 2) as int),
                level,
                j as nat,
            ),
{
    let prefix = leaves.take((2 * q) as int);
    let longer = leaves.take((2 * q + 2) as int);
    let below = (level - 1) as nat;
    let pos = ancestor(q, below);
    assert(longer.take(longer.len() - 2) =~= prefix);
    assert(longer[longer.len() - 2] == leaves[(2 * q) as int]);
    assert(longer[longer.len() - 1] == leaves[(2 * q + 1) as int]);
    lemma_replay(h, e, longer, level);
    if q >= 1 {
        lemma_ancestor_neighbours(q, below);
    } else {
        lemma_ancestor_zero(below);
    }
    lemma_ancestor_bounds(q, below);
    lemma_span_step(below);
    let s = span(below);
    assert forall|j: int| 0 <= j < pos implies #[trigger] nodes_before[j] == node(
        h,
        e[0],
        longer,
        level,
        j as nat,
    ) by {
        assert((j + 1) * span(level) <= prefix.len()) by (nonlinear_arith)
            requires
                j + 1 <= pos,
                pos * s <= q,
                span(level) == 2 * s,
                prefix.len() == 2 * q,
                s >= 1,
        ;
        lemma_node_frame(h, e[0], prefix, longer, level, j as nat);
    }
}

/// Two to the power 64 leaves lie under height 64.
pub proof fn lemma_span_64()
    ensures
        span(64) == 0x1_0000_0000_0000_0000,
{
    reveal_with_fuel(span, 9);
    assert(span(8) == 0x100);
    assert(span(16) == 0x1_0000);
    assert(span(24) == 0x100_0000);
    assert(span(32) == 0x1_0000_0000);
    assert(span(40) == 0x100_0000_0000);
    assert(span(48) == 0x1_0000_0000_0000);
    assert(span(56) == 0x100_0000_0000_0000);
    assert(span(64) == 0x1_0000_0000_0000_0000);
}

/// What a tree holds, as numbers.
pub struct TreeState {
    /// The leaves in the order of their insertion.
    pub leaves: Seq<nat>,
    /// For each level the left child that was cached last.
    pub subtrees: Seq<nat>,
    /// The hashes of the empty subtrees of each height.
    pub empty_hashes: Seq<nat>,
    /// The current root.
    pub root: nat,
}

/// An append-only Merkle tree of height `N` that takes its leaves in pairs.
#[derive(Debug, Clone, PartialEq)]
pub struct SparseMerkleTree<const N: usize> {
    leaves: Vec<Fr>,
    subtrees: Vec<Fr>,
    empty_hashes: Vec<Fr>,
    root: Fr,
}

impl<const N: usize> View for SparseMerkleTree<N> {
    type V = TreeState;

    closed spec fn view(&self) -> TreeState {
        TreeState {
            leaves: values(self.leaves@),
            subtrees: values(self.subtrees@),
            empty_hashes: values(self.empty_hashes@),
            root: self.root@,
        }
    }
}

/// The number of leaves that fit under height `n`, where a `usize` holds it.
pub fn capacity(n: usize) -> (r: Option<usize>)
    ensures
        match r {
            Some(c) => c == span(n as nat),
            None => span(n as nat) > usize::MAX,
        },
{
    let mut c: usize = 1;
    let mut i: usize = 0;
    while i < n
        invariant
            i <= n,
            c == span(i as nat),
        decreases n - i,
    {
        if c > usize::MAX / 2 {
            proof {
                lemma_span_grows((i + 1) as nat, n as nat);
            }
            return None;
        }
        c = c * 2;
        i += 1;
    }
    Some(c)
}

/// More levels hold at least as many leaves.
pub proof fn lemma_span_grows(a: nat, b: nat)
    requires
        a <= b,
    ensures
        1 <= span(a) <= span(b),
    decreases b,
{
    if a < b {
        lemma_span_grows(a, (b - 1) as nat);
    } else if a > 0 {
        lemma_span_grows((a - 1) as nat, (a - 1) as nat);
    }
}

/// The insertion recurrence on the cached left children, from level one up to,
/// not including, level `top`.
fn climb_levels(
    empty_hashes: &Vec<Fr>,
    subtrees: &mut Vec<Fr>,
    hash: Fr,
    index: usize,
    top: usize,
    hasher: &PoseidonOptimized,
) -> (r: (Fr, usize))
    requires
        hasher.wf(),
        hasher.t == 3,
        1 <= top <= empty_hashes@.len(),
        top <= old(subtrees)@.len(),
    ensures
        final(subtrees)@.len() == old(subtrees)@.len(),
        (values(final(subtrees)@), r.0@) == climb(
            hasher@,
            values(empty_hashes@),
            values(old(subtrees)@),
            hash@,
            index as nat,
            1,
            top as nat,
        ),
        r.1 == ancestor(index as nat, (top - 1) as nat),
{
    let ghost h = hasher@;
    let ghost e = values(empty_hashes@);
    let ghost goal = climb(h, e, values(subtrees@), hash@, index as nat, 1, top as nat);
    let mut current_index = index;
    let mut current_level_hash = hash;
    let mut i: usize = 1;
    while i < top
        invariant
            hasher.wf(),
            hasher.t == 3,
            h == hasher@,
            e == values(empty_hashes@),
            1 <= i <= top,
            top <= empty_hashes@.len(),
            top <= subtrees@.len(),
            subtrees@.len() == old(subtrees)@.len(),
            climb(
                h,
                e,
                values(subtrees@),
                current_level_hash@,
                current_index as nat,
                i as nat,
                top as nat,
            ) == goal,
            current_index == ancestor(index as nat, (i - 1) as nat),
        decreases top - i,
    {
        let left: Fr;
        let right: Fr;
        let ghost st = values(subtrees@);
        if current_index % 2 == 0 {
            left = current_level_hash;
            right = empty_hashes[i];
            subtrees.set(i, current_level_hash);
            assert(values(subtrees@) =~= st.update(i as int, current_level_hash@));
        } else {
            left = subtrees[i];
            right = current_level_hash;
        }
        current_level_hash = hasher.hash2(&left, &right);
        current_index /= 2;
        i += 1;
    }
    (current_level_hash, current_index)
}

impl<const N: usize> SparseMerkleTree<N> {
    /// The tree is what the insertion of its leaves, pair by pair, into an
    /// empty tree gives under the hash with parameters `h`.
    pub open spec fn wf(&self, h: PoseidonParams) -> bool {
        let s = self@;
        &&& N >= 1
        &&& s.empty_hashes.len() == N
        &&& is_empty_chain(h, s.empty_hashes)
        &&& s.leaves.len() % 2 == 0
        &&& s.leaves.len() <= span(N as nat)
        &&& (s.subtrees, s.root) == contract_state(h, s.empty_hashes, s.leaves)
    }

    /// The tree without leaves over the empty leaf `empty_leaf`.
    pub fn new_empty(hasher: &PoseidonOptimized, empty_leaf: &Fr) -> (r: Self)
        requires
            hasher.wf(),
            hasher.t == 3,
            N >= 1,
        ensures
            r.wf(hasher@),
            r@.leaves == Seq::<nat>::empty(),
            r@.empty_hashes[0] == empty_leaf@,
    {
        let ghost h = hasher@;
        let mut empty_hashes: Vec<Fr> = Vec::new();
        empty_hashes.push(*empty_leaf);
        let mut empty_hash_value = *empty_leaf;
        let mut i: usize = 1;
        while i < N
            invariant
                hasher.wf(),
                hasher.t == 3,
                h == hasher@,
                1 <= i <= N,
                empty_hashes@.len() == i,
                empty_hashes@[0] == *empty_leaf,
                empty_hash_value == empty_hashes@[i - 1],
                forall|l: int|
                    0 <= l < i ==> (#[trigger] empty_hashes@[l])@ == empty_hash(
                        h,
                        empty_leaf@,
                        l as nat,
                    ),
            decreases N - i,
        {
            empty_hash_value = hasher.hash2(&empty_hash_value, &empty_hash_value);
            empty_hashes.push(empty_hash_value);
            i += 1;
        }
        let subtrees = empty_hashes.clone();
        let root = empty_hashes[N - 1];
        let r = SparseMerkleTree { leaves: Vec::new(), subtrees, empty_hashes, root };
        assert(values(r.subtrees@) =~= values(r.empty_hashes@));
        assert(r@.leaves =~= Seq::<nat>::empty());
        r
    }

    /// The tree that holds the given pairs of leaves, inserted in order.
    pub fn new(leaf_pairs: &[(Fr, Fr)], hasher: &PoseidonOptimized, empty_leaf: &Fr) -> (r:
        Result<Self, MerkleError>)
        requires
            hasher.wf(),
            hasher.t == 3,
            N >= 1,
        ensures
            r is Ok <==> 2 * leaf_pairs@.len() <= span(N as nat),
            match r {
                Ok(tree) => {
                    &&& tree.wf(hasher@)
                    &&& tree@.leaves == flatten(pair_values(leaf_pairs@))
                    &&& tree@.empty_hashes[0] == empty_leaf@
                },
                Err(e) => e matches MerkleError::TreeFull { capacity } && capacity == span(N as nat),
            },
    {
        let mut smt = Self::new_empty(hasher, empty_leaf);
        assert(smt@.leaves =~= flatten(pair_values(leaf_pairs@.take(0))));
        match smt.insert_batch(leaf_pairs, hasher) {
            Ok(()) => {
                assert(leaf_pairs@.take(leaf_pairs@.len() as int) =~= leaf_pairs@);
                assert(smt@.leaves =~= flatten(pair_values(leaf_pairs@)));
                Ok(smt)
            },
            Err(e) => Err(e),
        }
    }

    /// Appends two leaves and recomputes the root along their path.
    pub fn insert_pair(&mut self, leaf1: Fr, leaf2: Fr, hasher: &PoseidonOptimized) -> (r: Result<
        (),
        MerkleError,
    >)
        requires
            hasher.wf(),
            hasher.t == 3,
            old(self).wf(hasher@),
        ensures
            final(self).wf(hasher@),
            final(self)@.empty_hashes == old(self)@.empty_hashes,
            r is Ok <==> old(self)@.leaves.len() + 2 <= span(N as nat),
            match r {
                Ok(()) => final(self)@.leaves == old(self)@.leaves.push(leaf1@).push(leaf2@),
                Err(e) => {
                    &&& e matches MerkleError::TreeFull { capacity } && capacity == span(N as nat)
                    &&& final(self)@ == old(self)@
                },
            },
    {
        let ghost h = hasher@;
        let ghost before = self@;
        match capacity(N) {
            Some(max_leaves) => {
                proof {
                    lemma_span_grows(1, N as nat);
                }
                if self.leaves.len() > max_leaves - 2 {
                    return Err(MerkleError::TreeFull { capacity: max_leaves });
                }
            },
            None => {},
        }
        proof {
            lemma_contract_length(h, before.empty_hashes, before.leaves);
        }
        self.leaves.push(leaf1);
        self.leaves.push(leaf2);
        assert(values(self.leaves@) =~= before.leaves.push(leaf1@).push(leaf2@));
        assert(values(self.leaves@).take(values(self.leaves@).len() - 2) =~= before.leaves);
        let current_index = (self.leaves.len() - 2) / 2;
        let pair_hash = hasher.hash2(&leaf1, &leaf2);
        let (root, _) = climb_levels(
            &self.empty_hashes,
            &mut self.subtrees,
            pair_hash,
            current_index,
            N,
            hasher,
        );
        self.root = root;
        Ok(())
    }

    /// Appends one leaf together with the empty leaf.
    pub fn insert(&mut self, leaf: Fr, hasher: &PoseidonOptimized) -> (r: Result<(), MerkleError>)
        requires
            hasher.wf(),
            hasher.t == 3,
            old(self).wf(hasher@),
        ensures
            final(self).wf(hasher@),
            final(self)@.empty_hashes == old(self)@.empty_hashes,
            r is Ok <==> old(self)@.leaves.len() + 2 <= span(N as nat),
            match r {
                Ok(()) => final(self)@.leaves == old(self)@.leaves.push(leaf@).push(
                    old(self)@.empty_hashes[0],
                ),
                Err(e) => {
                    &&& e matches MerkleError::TreeFull { capacity } && capacity == span(N as nat)
                    &&& final(self)@ == old(self)@
                },
            },
    {
        let empty_leaf = self.empty_hashes[0];
        self.insert_pair(leaf, empty_leaf, hasher)
    }

    /// Appends the pairs in order and stops at the first that does not fit.
    pub fn insert_batch(&mut self, leaf_pairs: &[(Fr, Fr)], hasher: &PoseidonOptimized) -> (r:
        Result<(), MerkleError>)
        requires
            hasher.wf(),
            hasher.t == 3,
            old(self).wf(hasher@),
        ensures
            final(self).wf(hasher@),
            final(self)@.empty_hashes == old(self)@.empty_hashes,
            r is Ok <==> old(self)@.leaves.len() + 2 * leaf_pairs@.len() <= span(N as nat),
            match r {
                Ok(()) => final(self)@.leaves == old(self)@.leaves + flatten(
                    pair_values(leaf_pairs@),
                ),
                Err(e) => {
                    &&& e matches MerkleError::TreeFull { capacity } && capacity == span(N as nat)
                    &&& final(self)@.leaves == old(self)@.leaves + flatten(
                        pair_values(
                            leaf_pairs@.take((span(N as nat) - old(self)@.leaves.len()) / 2),
                        ),
                    )
                },
            },
    {
        let ghost before = self@;
        let n = leaf_pairs.len();
        let mut i: usize = 0;
        assert(self@.leaves =~= before.leaves + flatten(pair_values(leaf_pairs@.take(0))));
        while i < n
            invariant
                hasher.wf(),
                hasher.t == 3,
                self.wf(hasher@),
                self@.empty_hashes == before.empty_hashes,
                before == old(self)@,
                n == leaf_pairs@.len(),
                i <= n,
                before.leaves.len() % 2 == 0,
                self@.leaves == before.leaves + flatten(pair_values(leaf_pairs@.take(i as int))),
            decreases n - i,
        {
            let (leaf1, leaf2) = leaf_pairs[i];
            let ghost mid = self@;
            let outcome = self.insert_pair(leaf1, leaf2, hasher);
            if let Err(e) = outcome {
                assert(span(N as nat) == 2 * span((N - 1) as nat));
                assert(flatten(pair_values(leaf_pairs@.take(i as int))).len() == 2 * i);
                assert(mid.leaves.len() == before.leaves.len() + 2 * i);
                assert(i == (span(N as nat) - before.leaves.len()) / 2);
                return Err(e);
            }
            assert(self@.leaves =~= before.leaves + flatten(
                pair_values(leaf_pairs@.take(i + 1)),
            ));
            i += 1;
        }
        assert(leaf_pairs@.take(n as int) =~= leaf_pairs@);
        Ok(())
    }

    /// The hash of every pair of leaves, in order.
    fn pair_hashes(&self, hasher: &PoseidonOptimized) -> (r: Vec<Fr>)
        requires
            hasher.wf(),
            hasher.t == 3,
            self@.leaves.len() % 2 == 0,
            self@.empty_hashes.len() >= 1,
        ensures
            2 * r@.len() == self@.leaves.len(),
            forall|p: int|
                0 <= p < r@.len() ==> (#[trigger] r@[p])@ == hash_pair(
                    hasher@,
                    self@.leaves[2 * p],
                    self@.leaves[2 * p + 1],
                ),
    {
        let len = self.leaves.len();
        let num_pairs = len / 2 + len % 2;
        let mut pair_hashes: Vec<Fr> = Vec::new();
        let mut p: usize = 0;
        while p < num_pairs
            invariant
                hasher.wf(),
                hasher.t == 3,
                len == self.leaves@.len(),
                len % 2 == 0,
                self.empty_hashes@.len() >= 1,
                2 * num_pairs == len,
                p <= num_pairs,
                pair_hashes@.len() == p,
                forall|q: int|
                    0 <= q < p ==> (#[trigger] pair_hashes@[q])@ == hash_pair(
                        hasher@,
                        self@.leaves[2 * q],
                        self@.leaves[2 * q + 1],
                    ),
            decreases num_pairs - p,
        {
            let left = self.leaves[p * 2];
            let right = if p * 2 + 1 < len {
                self.leaves[p * 2 + 1]
            } else {
                self.empty_hashes[0]
            };
            pair_hashes.push(hasher.hash2(&left, &right));
            p += 1;
        }
        pair_hashes
    }

    /// The nodes at height `level`, from the left up to the last that holds a
    /// leaf, found by inserting the pairs one after the other into an empty
    /// cache and climbing up to that height.
    fn level_nodes(&self, pair_hashes: &Vec<Fr>, level: usize, hasher: &PoseidonOptimized) -> (r:
        Vec<Fr>)
        requires
            hasher.wf(),
            hasher.t == 3,
            self.wf(hasher@),
            1 <= level <= N,
            2 * pair_hashes@.len() == self@.leaves.len(),
            forall|p: int|
                0 <= p < pair_hashes@.len() ==> (#[trigger] pair_hashes@[p])@ == hash_pair(
                    hasher@,
                    self@.leaves[2 * p],
                    self@.leaves[2 * p + 1],
                ),
        ensures
            pair_hashes@.len() >= 1 ==> r@.len() == ancestor(
                (pair_hashes@.len() - 1) as nat,
                (level - 1) as nat,
            ) + 1,
            forall|j: int|
                0 <= j < r@.len() ==> (#[trigger] r@[j])@ == node(
                    hasher@,
                    self@.empty_hashes[0],
                    self@.leaves,
                    level as nat,
                    j as nat,
                ),
    {
        let ghost h = hasher@;
        let ghost e = self@.empty_hashes;
        let ghost leaves = self@.leaves;
        let num_pairs = pair_hashes.len();
        let mut level_subtrees = self.empty_hashes.clone();
        let mut child_hashes: Vec<Fr> = Vec::new();
        let mut pair_idx: usize = 0;
        assert(values(level_subtrees@) =~= e);
        assert(leaves.take(0).len() == 0);
        while pair_idx < num_pairs
            invariant
                hasher.wf(),
                hasher.t == 3,
                h == hasher@,
                self.wf(h),
                e == self@.empty_hashes,
                leaves == self@.leaves,
                1 <= level <= N,
                num_pairs == pair_hashes@.len(),
                2 * num_pairs == leaves.len(),
                forall|p: int|
                    0 <= p < pair_hashes@.len() ==> (#[trigger] pair_hashes@[p])@ == hash_pair(
                        h,
                        leaves[2 * p],
                        leaves[2 * p + 1],
                    ),
                pair_idx <= num_pairs,
                level_subtrees@.len() == N,
                values(level_subtrees@) == replay(
                    h,
                    e,
                    leaves.take(2 * pair_idx),
                    level as nat,
                ).0,
                pair_idx == 0 ==> child_hashes@.len() == 0,
                pair_idx >= 1 ==> child_hashes@.len() == ancestor(
                    (pair_idx - 1) as nat,
                    (level - 1) as nat,
                ) + 1,
                forall|j: int|
                    0 <= j < child_hashes@.len() ==> (#[trigger] child_hashes@[j])@ == node(
                        h,
                        e[0],
                        leaves.take(2 * pair_idx),
                        level as nat,
                        j as nat,
                    ),
            decreases num_pairs - pair_idx,
        {
            let ghost nodes_before = values(child_hashes@);
            let pair_hash = pair_hashes[pair_idx];
            let (hash, level_pos) = climb_levels(
                &self.empty_hashes,
                &mut level_subtrees,
                pair_hash,
                pair_idx,
                level,
                hasher,
            );
            proof {
                lemma_level_step(
                    h,
                    e,
                    leaves,
                    level as nat,
                    pair_idx as nat,
                    nodes_before,
                );
            }
            let fill = self.empty_hashes[level - 1];
            while child_hashes.len() <= level_pos
                invariant
                    level_pos <= nodes_before.len(),
                    nodes_before.len() <= child_hashes@.len() <= level_pos + 1,
                    forall|j: int|
                        0 <= j < nodes_before.len() ==> (#[trigger] child_hashes@[j])@
                            == nodes_before[j],
                decreases level_pos + 1 - child_hashes@.len(),
            {
                child_hashes.push(fill);
            }
            child_hashes.set(level_pos, hash);
            pair_idx += 1;
        }
        assert(leaves.take(2 * num_pairs) =~= leaves);
        child_hashes
    }

    /// The membership path of the leaf at `index`.
    pub fn generate_membership_proof(&self, index: usize) -> (r: Result<Path<N>, MerkleError>)
        requires
            self.wf(params_t3()),
        ensures
            r is Ok <==> index < self@.leaves.len(),
            match r {
                Ok(path) => {
                    &&& path@ == merkle_path(
                        params_t3(),
                        self@.empty_hashes[0],
                        self@.leaves,
                        index as nat,
                        N as nat,
                    )
                    &&& path_root(params_t3(), self@.leaves[index as int], path@, N as nat)
                        == self@.root
                },
                Err(e) => e == (MerkleError::IndexOutOfBounds {
                    index,
                    len: self@.leaves.len() as usize,
                }),
            },
    {
        let len = self.leaves.len();
        if index >= len {
            return Err(MerkleError::IndexOutOfBounds { index, len });
        }
        let ghost h = params_t3();
        let ghost e = self@.empty_hashes;
        let ghost leaves = self@.leaves;
        let ghost goal = merkle_path(h, e[0], leaves, index as nat, N as nat);
        let zero = Fr::zero();
        let mut path = [(zero, zero);N];
        let hasher = PoseidonOptimized::new_t3();

        let pair_index = index / 2;
        let leaf_left = self.leaves[pair_index * 2];
        let leaf_right = if pair_index * 2 + 1 < len {
            self.leaves[pair_index * 2 + 1]
        } else {
            self.empty_hashes[0]
        };
        path[0] = (leaf_left, leaf_right);
        proof {
            assert(ancestor(index as nat, 0) == index);
            assert(ancestor(index as nat, 1) == pair_index);
            assert(ancestor(pair_index as nat, 0) == pair_index);
            assert(leaf_left@ == node(h, e[0], leaves, 0, 2 * (pair_index as nat)));
            assert(leaf_right@ == node(h, e[0], leaves, 0, 2 * (pair_index as nat) + 1));
            assert(hash_pair(h, leaf_left@, leaf_right@) == node(
                h,
                e[0],
                leaves,
                1,
                pair_index as nat,
            ));
        }

        let mut current_hash = hasher.hash2(&leaf_left, &leaf_right);
        let mut current_index = pair_index;

        let pair_hashes = self.pair_hashes(&hasher);
        let num_pairs = pair_hashes.len();

        let mut level_child_hashes: Vec<Vec<Fr>> = Vec::new();
        let mut level: usize = 1;
        while level < N
            invariant
                hasher.wf(),
                hasher.t == 3,
                h == hasher@,
                self.wf(h),
                e == self@.empty_hashes,
                leaves == self@.leaves,
                1 <= level <= N,
                num_pairs == pair_hashes@.len(),
                num_pairs >= 1,
                2 * pair_hashes@.len() == leaves.len(),
                forall|p: int|
                    0 <= p < pair_hashes@.len() ==> (#[trigger] pair_hashes@[p])@ == hash_pair(
                        h,
                        leaves[2 * p],
                        leaves[2 * p + 1],
                    ),
                level_child_hashes@.len() == level - 1,
                forall|l: int|
                    0 <= l < level - 1 ==> (#[trigger] level_child_hashes@[l])@.len() == ancestor(
                        (num_pairs - 1) as nat,
                        l as nat,
                    ) + 1,
                forall|l: int, j: int|
                    0 <= l < level - 1 && 0 <= j < level_child_hashes@[l]@.len() ==> (
                    #[trigger] level_child_hashes@[l]@[j])@ == node(
                        h,
                        e[0],
                        leaves,
                        (l + 1) as nat,
                        j as nat,
                    ),
            decreases N - level,
        {
            let child_hashes = self.level_nodes(&pair_hashes, level, &hasher);
            level_child_hashes.push(child_hashes);
            level += 1;
        }

        let mut level: usize = 1;
        while level < N
            invariant
                hasher.wf(),
                hasher.t == 3,
                h == hasher@,
                self.wf(h),
                e == self@.empty_hashes,
                leaves == self@.leaves,
                goal == merkle_path(h, e[0], leaves, index as nat, N as nat),
                index < leaves.len(),
                pair_index == index / 2,
                1 <= level <= N,
                2 * num_pairs == leaves.len(),
                level_child_hashes@.len() == N - 1,
                forall|l: int|
                    0 <= l < N - 1 ==> (#[trigger] level_child_hashes@[l])@.len() == ancestor(
                        (num_pairs - 1) as nat,
                        l as nat,
                    ) + 1,
                forall|l: int, j: int|
                    0 <= l < N - 1 && 0 <= j < level_child_hashes@[l]@.len() ==> (
                    #[trigger] level_child_hashes@[l]@[j])@ == node(
                        h,
                        e[0],
                        leaves,
                        (l + 1) as nat,
                        j as nat,
                    ),
                current_index == ancestor(pair_index as nat, (level - 1) as nat),
                current_hash@ == node(h, e[0], leaves, level as nat, current_index as nat),
                forall|l: int|
                    0 <= l < level ==> (#[trigger] path@[l]).0@ == goal[l].0 && path@[l].1@
                        == goal[l].1,
            decreases N - level,
        {
            let is_left = current_index % 2 == 0;
            let level_idx = level - 1;
            let child_hashes = &level_child_hashes[level_idx];
            let ghost up = ancestor(index as nat, (level + 1) as nat);
            let ghost path_before = path@;
            proof {
                let below = (level - 1) as nat;
                assert(ancestor(pair_index as nat, level as nat) == current_index / 2);
                assert(forall|j: int|
                    0 <= j < child_hashes@.len() ==> (#[trigger] child_hashes@[j])@ == node(
                        h,
                        e[0],
                        leaves,
                        level as nat,
                        j as nat,
                    )) by {
                    assert(forall|j: int|
                        0 <= j < child_hashes@.len() ==> child_hashes@[j]
                            == level_child_hashes@[level_idx as int]@[j]);
                }
                lemma_ancestor_shift(index as nat, level as nat);
                lemma_ancestor_shift(index as nat, below);
                lemma_ancestor_monotone(pair_index as nat, (num_pairs - 1) as nat, below);
                lemma_ancestor_bounds((num_pairs - 1) as nat, below);
                lemma_span_step(below);
                let last = ancestor((num_pairs - 1) as nat, below);
                let s = span(below);
                if is_left && current_index + 1 >= child_hashes@.len() {
                    assert((current_index + 1) * span(level as nat) >= leaves.len())
                        by (nonlinear_arith)
                        requires
                            current_index + 1 >= last + 1,
                            num_pairs - 1 < (last + 1) * s,
                            span(level as nat) == 2 * s,
                            leaves.len() == 2 * num_pairs,
                            s >= 1,
                    ;
                    lemma_empty_node(h, e[0], leaves, level as nat, (current_index + 1) as nat);
                }
            }
            let sibling = if is_left {
                let sibling_pos = current_index + 1;
                if sibling_pos < child_hashes.len() {
                    child_hashes[sibling_pos]
                } else {
                    self.empty_hashes[level]
                }
            } else {
                if current_index > 0 && current_index - 1 < child_hashes.len() {
                    child_hashes[current_index - 1]
                } else {
                    self.subtrees[level]
                }
            };
            proof {
                assert(up == current_index / 2);
                if is_left {
                    if current_index + 1 < child_hashes@.len() {
                        assert(sibling == child_hashes@[current_index + 1]);
                    } else {
                        assert(sibling == self.empty_hashes@[level as int]);
                        assert(e[level as int] == empty_hash(h, e[0], level as nat));
                    }
                    assert(sibling@ == node(
                        h,
                        e[0],
                        leaves,
                        level as nat,
                        (current_index + 1) as nat,
                    ));
                } else {
                    assert(sibling@ == node(
                        h,
                        e[0],
                        leaves,
                        level as nat,
                        (current_index - 1) as nat,
                    ));
                }
            }
            path[level] = if is_left {
                (current_hash, sibling)
            } else {
                (sibling, current_hash)
            };
            current_hash = if is_left {
                hasher.hash2(&current_hash, &sibling)
            } else {
                hasher.hash2(&sibling, &current_hash)
            };
            proof {
                assert(path@ == path_before.update(level as int, path@[level as int]));
                assert(path@[level as int].0@ == node(h, e[0], leaves, level as nat, 2 * up));
                assert(path@[level as int].1@ == node(h, e[0], leaves, level as nat, 2 * up + 1));
                assert(current_hash@ == node(h, e[0], leaves, (level + 1) as nat, up));
                assert forall|l: int| 0 <= l < level + 1 implies (#[trigger] path@[l]).0@
                    == goal[l].0 && path@[l].1@ == goal[l].1 by {
                    if l < level {
                        assert(path@[l] == path_before[l]);
                    }
                }
            }
            current_index /= 2;
            level += 1;
        }
        let r = Path { path };
        proof {
            assert(r@ =~= goal);
            self.lemma_generated_path_verifies(h, index as nat);
        }
        Ok(r)
    }

    /// Appends the leaves two by two and stops at the first pair that does
    /// not fit; an odd number of leaves is refused as a whole.
    pub fn bulk_insert(&mut self, leaves: &[Fr], hasher: &PoseidonOptimized) -> (r: Result<
        (),
        MerkleError,
    >)
        requires
            hasher.wf(),
            hasher.t == 3,
            old(self).wf(hasher@),
        ensures
            final(self).wf(hasher@),
            final(self)@.empty_hashes == old(self)@.empty_hashes,
            r is Ok <==> leaves@.len() % 2 == 0 && old(self)@.leaves.len() + leaves@.len() <= span(
                N as nat,
            ),
            match r {
                Ok(()) => final(self)@.leaves == old(self)@.leaves + values(leaves@),
                Err(e) => if leaves@.len() % 2 != 0 {
                    &&& e == MerkleError::OddLeafCount
                    &&& final(self)@ == old(self)@
                } else {
                    &&& e matches MerkleError::TreeFull { capacity } && capacity == span(N as nat)
                    &&& final(self)@.leaves == old(self)@.leaves + values(leaves@).take(
                        span(N as nat) - old(self)@.leaves.len(),
                    )
                },
            },
    {
        let n = leaves.len();
        if n % 2 != 0 {
            return Err(MerkleError::OddLeafCount);
        }
        let ghost before = self@;
        let mut i: usize = 0;
        assert(self@.leaves =~= before.leaves + values(leaves@).take(0));
        while i < n
            invariant
                hasher.wf(),
                hasher.t == 3,
                self.wf(hasher@),
                self@.empty_hashes == before.empty_hashes,
                before == old(self)@,
                n == leaves@.len(),
                n % 2 == 0,
                i % 2 == 0,
                i <= n,
                before.leaves.len() % 2 == 0,
                self@.leaves == before.leaves + values(leaves@).take(i as int),
            decreases n - i,
        {
            let ghost mid = self@;
            let outcome = self.insert_pair(leaves[i], leaves[i + 1], hasher);
            if let Err(e) = outcome {
                assert(span(N as nat) == 2 * span((N - 1) as nat));
                assert(mid.leaves.len() == before.leaves.len() + i);
                return Err(e);
            }
            assert(self@.leaves =~= before.leaves + values(leaves@).take(i + 2));
            i += 2;
        }
        assert(values(leaves@).take(n as int) =~= values(leaves@));
        Ok(())
    }

    /// Whether `path` leads from the leaf at `index` to the root, under the
    /// hash with the standard parameters. No leaf at `index`: no.
    pub fn verify_path(&self, index: usize, path: &Path<N>) -> (r: Result<bool, MerkleError>)
        ensures
            r is Ok,
            r.unwrap() == (index < self@.leaves.len() && path_root(
                params_t3(),
                self@.leaves[index as int],
                path@,
                N as nat,
            ) == self@.root),
    {
        if index >= self.leaves.len() {
            return Ok(false);
        }
        let leaf = self.leaves[index];
        let hasher = PoseidonOptimized::new_t3();
        path.check_membership(&self.root, &leaf, &hasher)
    }

    /// The root is the one that the insertion recurrence gives for the
    /// leaves, and it is the top node of the tree over them.
    pub proof fn lemma_root(&self, h: PoseidonParams)
        requires
            self.wf(h),
        ensures
            self@.root == contract_root(h, self@.empty_hashes, self@.leaves),
            self@.root == merkle_root(h, self@.empty_hashes, self@.leaves),
    {
        lemma_contract_root_is_merkle_root(h, self@.empty_hashes, self@.leaves);
    }

    /// The path that the tree hands out for a leaf leads from that leaf to
    /// the tree's root.
    pub proof fn lemma_generated_path_verifies(&self, h: PoseidonParams, index: nat)
        requires
            self.wf(h),
            index < self@.leaves.len(),
        ensures
            path_root(
                h,
                self@.leaves[index as int],
                merkle_path(h, self@.empty_hashes[0], self@.leaves, index, N as nat),
                N as nat,
            ) == self@.root,
    {
        lemma_path_leads_to_root(h, self@.empty_hashes, self@.leaves, index);
    }

    /// The current root.
    pub fn root(&self) -> (r: Fr)
        ensures
            r@ == self@.root,
    {
        self.root
    }

    /// The number of leaves.
    pub fn len(&self) -> (r: usize)
        ensures
            r == self@.leaves.len(),
    {
        self.leaves.len()
    }

    /// Whether the tree has no leaves.
    pub fn is_empty(&self) -> (r: bool)
        ensures
            r == (self@.leaves.len() == 0),
    {
        self.leaves.len() == 0
    }

    /// Whether no further leaf fits.
    pub fn is_full(&self) -> (r: bool)
        ensures
            r == (self@.leaves.len() >= span(N as nat)),
    {
        let n = self.leaves.len();
        match capacity(N) {
            Some(c) => n >= c,
            None => false,
        }
    }

    /// The leaves in the order of their insertion.
    pub fn leaves(&self) -> (r: &[Fr])
        ensures
            values(r@) == self@.leaves,
    {
        self.leaves.as_slice()
    }
}

} // verus!
