//! Membership paths as variables of a circuit.

use crate::constraints::{
    alike, extends, field_at, is_bool, is_field, lemma_alike_chain, lemma_alike_push,
    lemma_alike_same, Circuit, Op, Slot,
};
use crate::field::Fr;
use crate::merkle_spec::{merkle_path, path_root};
use crate::merkle_tree::{Path, SparseMerkleTree};
use crate::poseidon_gadget::{hash_prog, lemma_hash_prog, PoseidonOptimizedVar};
use crate::poseidon_opt::{params_t3, PoseidonParams};
use vstd::prelude::*;

verus! {

/// The slots that the witnesses of a path leave: level by level, left before
/// right.
pub open spec fn path_slots(path: Seq<(nat, nat)>) -> Seq<Slot> {
    Seq::new(
        2 * path.len(),
        |k: int|
            if k % 2 == 0 {
                Slot::Field(path[k / 2].0)
            } else {
                Slot::Field(path[k / 2].1)
            },
    )
}

/// The operations that allocate the entries of a path as witnesses: level
/// by level, left before right.
pub open spec fn path_witness_ops(path: Seq<(Fr, Fr)>) -> Seq<Op> {
    Seq::new(
        2 * path.len(),
        |k: int|
            if k % 2 == 0 {
                Op::Witness(path[k / 2].0)
            } else {
                Op::Witness(path[k / 2].1)
            },
    )
}

/// The positions of the entries of a path of height `n` that is allocated
/// from position `start` on.
pub open spec fn path_positions(start: nat, n: nat) -> Seq<(usize, usize)> {
    Seq::new(n, |l: int| ((start + 2 * l) as usize, (start + 2 * l + 1) as usize))
}

/// The program behind the first `n` levels of a path from the variable
/// `leaf`, and the position of the running hash: for each level the test
/// whether the running hash is the left entry, the two selections, and the
/// hash of what was selected.
pub open spec fn root_hash_prog(
    h: PoseidonParams,
    p: Seq<Op>,
    ids: Seq<(usize, usize)>,
    leaf: usize,
    n: nat,
) -> (Seq<Op>, usize)
    decreases n,
{
    if n == 0 {
        (p, leaf)
    } else {
        let before = root_hash_prog(h, p, ids, leaf, (n - 1) as nat);
        let is_left = before.0.len() as usize;
        let entry = ids[n - 1];
        hash_prog(
            h,
            before.0.push(Op::IsEq(before.1, entry.0)).push(
                Op::Select(is_left, before.1, entry.0),
            ).push(Op::Select(is_left, entry.1, before.1)),
            seq![(before.0.len() + 1) as usize, (before.0.len() + 2) as usize],
        )
    }
}

/// The program behind the membership check, and the position of its boolean:
/// the root's computation, then the test whether it is the variable `root`.
pub open spec fn check_membership_prog(
    h: PoseidonParams,
    p: Seq<Op>,
    ids: Seq<(usize, usize)>,
    root: usize,
    leaf: usize,
) -> (Seq<Op>, usize) {
    let computed = root_hash_prog(h, p, ids, leaf, ids.len());
    (computed.0.push(Op::IsEq(root, computed.1)), computed.0.len() as usize)
}

/// A membership path whose entries are variables of a circuit.
#[derive(Debug, Clone, Copy)]
pub struct PathVar<const N: usize> {
    path: [(usize, usize); N],
}

impl<const N: usize> PathVar<N> {
    /// The positions of the entries.
    pub closed spec fn ids(&self) -> Seq<(usize, usize)> {
        self.path@
    }

    /// Every entry is a field variable of the circuit.
    pub open spec fn allocated(&self, c: Circuit) -> bool {
        forall|l: int|
            0 <= l < N ==> is_field(c.slots(), (#[trigger] self.ids()[l]).0 as int) && is_field(
                c.slots(),
                self.ids()[l].1 as int,
            )
    }

    /// The values of the entries in the circuit.
    pub open spec fn values(&self, c: Circuit) -> Seq<(nat, nat)> {
        Seq::new(
            N as nat,
            |l: int|
                (
                    field_at(c.slots(), self.ids()[l].0 as int),
                    field_at(c.slots(), self.ids()[l].1 as int),
                ),
        )
    }

    /// Variables keep their kinds and values when operations are appended.
    pub proof fn lemma_extends(&self, after: Circuit, before: Circuit)
        requires
            extends(after.slots(), before.slots()),
            self.allocated(before),
        ensures
            self.allocated(after),
            self.values(after) == self.values(before),
    {
        assert forall|l: int| 0 <= l < N implies is_field(
            after.slots(),
            (#[trigger] self.ids()[l]).0 as int,
        ) && is_field(after.slots(), self.ids()[l].1 as int) && field_at(
            after.slots(),
            self.ids()[l].0 as int,
        ) == field_at(before.slots(), self.ids()[l].0 as int) && field_at(
            after.slots(),
            self.ids()[l].1 as int,
        ) == field_at(before.slots(), self.ids()[l].1 as int) by {
            assert(is_field(before.slots(), self.ids()[l].0 as int));
            assert(is_field(before.slots(), self.ids()[l].1 as int));
        }
        assert(self.values(after) =~= self.values(before));
    }

    /// Allocates the entries of a path as private witnesses, level by level,
    /// left before right.
    pub fn new_witness(c: &mut Circuit, path: &Path<N>) -> (r: Self)
        requires
            old(c).wf(),
        ensures
            final(c).continues(*old(c)),
            final(c).slots() == old(c).slots() + path_slots(path@),
            final(c).ops() == old(c).ops() + path_witness_ops(path.path@),
            r.ids() == path_positions(old(c).ops().len(), N as nat),
            r.allocated(*final(c)),
            r.values(*final(c)) == path@,
    {
        let ghost c0 = *c;
        let mut ids = [(0usize, 0usize);N];
        let mut i: usize = 0;
        assert(c.slots() =~= c0.slots() + path_slots(path@).take(0));
        assert(c.ops() =~= c0.ops() + path_witness_ops(path.path@).take(0));
        while i < N
            invariant
                i <= N,
                c.continues(c0),
                path@.len() == N,
                c.ops() == c0.ops() + path_witness_ops(path.path@).take(2 * i),
                forall|l: int|
                    0 <= l < i ==> #[trigger] ids@[l] == path_positions(c0.ops().len(), N as nat)[l],
                c.slots() == c0.slots() + path_slots(path@).take(2 * i),
                forall|l: int|
                    0 <= l < i ==> is_field(c.slots(), (#[trigger] ids@[l]).0 as int) && is_field(
                        c.slots(),
                        ids@[l].1 as int,
                    ) && field_at(c.slots(), ids@[l].0 as int) == path@[l].0 && field_at(
                        c.slots(),
                        ids@[l].1 as int,
                    ) == path@[l].1,
            decreases N - i,
        {
            let ghost before = *c;
            let ghost earlier = ids@;
            let (l, r) = path.path[i];
            let l_hash = c.witness(l);
            let r_hash = c.witness(r);
            ids[i] = (l_hash, r_hash);
            assert(c.ops() =~= c0.ops() + path_witness_ops(path.path@).take(2 * i + 2)) by {
                let whole = path_witness_ops(path.path@);
                assert(whole[2 * i] == Op::Witness(l));
                assert(whole[2 * i + 1] == Op::Witness(r));
                assert(whole.take(2 * i + 2) =~= whole.take(2 * i).push(whole[2 * i]).push(
                    whole[2 * i + 1],
                ));
            }
            assert(c.slots() =~= c0.slots() + path_slots(path@).take(2 * i + 2)) by {
                let whole = path_slots(path@);
                assert(whole[2 * i] == Slot::Field(path@[i as int].0));
                assert(whole[2 * i + 1] == Slot::Field(path@[i as int].1));
                assert(whole.take(2 * i + 2) =~= whole.take(2 * i).push(whole[2 * i]).push(
                    whole[2 * i + 1],
                ));
            }
            assert forall|k: int| 0 <= k < i + 1 implies is_field(
                c.slots(),
                (#[trigger] ids@[k]).0 as int,
            ) && is_field(c.slots(), ids@[k].1 as int) && field_at(c.slots(), ids@[k].0 as int)
                == path@[k].0 && field_at(c.slots(), ids@[k].1 as int) == path@[k].1 by {
                if k < i {
                    assert(ids@[k] == earlier[k]);
                    assert(is_field(before.slots(), earlier[k].0 as int));
                    assert(is_field(before.slots(), earlier[k].1 as int));
                }
            }
            i += 1;
        }
        let r = PathVar { path: ids };
        assert(r.values(*c) =~= path@);
        assert(path_slots(path@).take(2 * N) =~= path_slots(path@));
        assert(path_witness_ops(path.path@).take(2 * N) =~= path_witness_ops(path.path@));
        assert(r.ids() =~= path_positions(c0.ops().len(), N as nat));
        r
    }

    /// The operations that compute the root to which the path leads from the
    /// variable `leaf`, and the variable that holds it.
    pub fn root_hash(&self, c: &mut Circuit, leaf: usize, hasher: &PoseidonOptimizedVar) -> (r:
        usize)
        requires
            old(c).wf(),
            hasher.wf(),
            hasher.t == 3,
            is_field(old(c).slots(), leaf as int),
            self.allocated(*old(c)),
        ensures
            final(c).continues(*old(c)),
            is_field(final(c).slots(), r as int),
            final(c).field(r) == path_root(
                hasher@,
                old(c).field(leaf),
                self.values(*old(c)),
                N as nat,
            ),
            (final(c).ops(), r) == root_hash_prog(hasher@, old(c).ops(), self.ids(), leaf, N as nat),
    {
        let ghost c0 = *c;
        let ghost h = hasher@;
        let ghost leaf_value = c.field(leaf);
        let ghost pv = self.values(c0);
        let mut previous_hash = leaf;
        let mut i: usize = 0;
        while i < N
            invariant
                hasher.wf(),
                hasher.t == 3,
                h == hasher@,
                i <= N,
                c.continues(c0),
                self.allocated(c0),
                pv == self.values(c0),
                is_field(c.slots(), previous_hash as int),
                (c.ops(), previous_hash) == root_hash_prog(hasher@, c0.ops(), self.ids(), leaf, i as nat),
                c.field(previous_hash) == path_root(h, leaf_value, pv, i as nat),
            decreases N - i,
        {
            proof {
                self.lemma_extends(*c, c0);
                assert(self.values(*c)[i as int] == pv[i as int]);
            }
            let (p_left_hash, p_right_hash) = self.path[i];
            let previous_is_left = c.is_eq(previous_hash, p_left_hash);
            let left_hash = c.select(previous_is_left, previous_hash, p_left_hash);
            let right_hash = c.select(previous_is_left, p_right_hash, previous_hash);
            previous_hash = hasher.hash2(c, left_hash, right_hash);
            i += 1;
        }
        previous_hash
    }

    /// The operations that decide whether the path leads from the variable
    /// `leaf` to the variable `root`, and the boolean that says so.
    pub fn check_membership(
        &self,
        c: &mut Circuit,
        root: usize,
        leaf: usize,
        hasher: &PoseidonOptimizedVar,
    ) -> (r: usize)
        requires
            old(c).wf(),
            hasher.wf(),
            hasher.t == 3,
            is_field(old(c).slots(), root as int),
            is_field(old(c).slots(), leaf as int),
            self.allocated(*old(c)),
        ensures
            final(c).continues(*old(c)),
            is_bool(final(c).slots(), r as int),
            final(c).boolean(r) == (old(c).field(root) == path_root(
                hasher@,
                old(c).field(leaf),
                self.values(*old(c)),
                N as nat,
            )),
            (final(c).ops(), r) == check_membership_prog(
                hasher@,
                old(c).ops(),
                self.ids(),
                root,
                leaf,
            ),
    {
        let computed_root = self.root_hash(c, leaf, hasher);
        c.is_eq(root, computed_root)
    }
}

/// The membership check accepts what the tree hands out: where the
/// variables of a path carry the path that a tree generates for a leaf, and
/// two more carry that leaf and the tree's root, the root is the one to which
/// the path leads from the leaf, which is what the check's boolean says.
pub proof fn lemma_generated_path_is_accepted<const N: usize>(
    tree: SparseMerkleTree<N>,
    index: nat,
    c: Circuit,
    path: PathVar<N>,
    root: usize,
    leaf: usize,
)
    requires
        tree.wf(params_t3()),
        index < tree@.leaves.len(),
        path.values(c) == merkle_path(
            params_t3(),
            tree@.empty_hashes[0],
            tree@.leaves,
            index,
            N as nat,
        ),
        c.field(leaf) == tree@.leaves[index as int],
        c.field(root) == tree@.root,
    ensures
        c.field(root) == path_root(params_t3(), c.field(leaf), path.values(c), N as nat),
{
    tree.lemma_generated_path_verifies(params_t3(), index);
}

/// The operations that compute a path's root depend on the length of the
/// program before and on the positions, not on what the program before holds.
pub proof fn lemma_root_hash_prog(
    h: PoseidonParams,
    p: Seq<Op>,
    q: Seq<Op>,
    ids: Seq<(usize, usize)>,
    leaf: usize,
    n: nat,
)
    requires
        p.len() == q.len(),
    ensures
        alike(root_hash_prog(h, p, ids, leaf, n).0, p, root_hash_prog(h, q, ids, leaf, n).0, q),
        root_hash_prog(h, p, ids, leaf, n).1 == root_hash_prog(h, q, ids, leaf, n).1,
    decreases n,
{
    if n > 0 {
        lemma_root_hash_prog(h, p, q, ids, leaf, (n - 1) as nat);
        let a = root_hash_prog(h, p, ids, leaf, (n - 1) as nat);
        let b = root_hash_prog(h, q, ids, leaf, (n - 1) as nat);
        let is_left = a.0.len() as usize;
        let entry = ids[n - 1];
        let op1 = Op::IsEq(a.1, entry.0);
        let op2 = Op::Select(is_left, a.1, entry.0);
        let op3 = Op::Select(is_left, entry.1, a.1);
        lemma_alike_push(a.0, p, b.0, q, op1);
        lemma_alike_push(a.0.push(op1), p, b.0.push(op1), q, op2);
        lemma_alike_push(a.0.push(op1).push(op2), p, b.0.push(op1).push(op2), q, op3);
        let a3 = a.0.push(op1).push(op2).push(op3);
        let b3 = b.0.push(op1).push(op2).push(op3);
        let inputs = seq![(a.0.len() + 1) as usize, (a.0.len() + 2) as usize];
        lemma_hash_prog(h, a3, b3, inputs);
        lemma_alike_chain(hash_prog(h, a3, inputs).0, a3, p, hash_prog(h, b3, inputs).0, b3, q);
    } else {
        lemma_alike_same(p, q);
    }
}

/// The operations of the membership check depend on the length of the
/// program before and on the positions, not on what the program before holds.
pub proof fn lemma_check_membership_prog(
    h: PoseidonParams,
    p: Seq<Op>,
    q: Seq<Op>,
    ids: Seq<(usize, usize)>,
    root: usize,
    leaf: usize,
)
    requires
        p.len() == q.len(),
    ensures
        alike(
            check_membership_prog(h, p, ids, root, leaf).0,
            p,
            check_membership_prog(h, q, ids, root, leaf).0,
            q,
        ),
        check_membership_prog(h, p, ids, root, leaf).1 == check_membership_prog(
            h,
            q,
            ids,
            root,
            leaf,
        ).1,
{
    lemma_root_hash_prog(h, p, q, ids, leaf, ids.len());
    let a = root_hash_prog(h, p, ids, leaf, ids.len());
    let b = root_hash_prog(h, q, ids, leaf, ids.len());
    lemma_alike_push(a.0, p, b.0, q, Op::IsEq(root, a.1));
}

} // verus!
