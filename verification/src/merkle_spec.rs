//! The mathematics of the paired-insertion Merkle tree: what a node of the
//! tree is, what one insertion does to the cached state, and why the two
//! agree.

use crate::poseidon_opt::{poseidon, PoseidonParams};
use vstd::prelude::*;

verus! {

/// The hash of a left and a right child.
pub open spec fn hash_pair(h: PoseidonParams, a: nat, b: nat) -> nat {
    poseidon(h, seq![a, b])
}

/// The hash of an empty subtree of height `l` over the empty leaf `z`.
pub open spec fn empty_hash(h: PoseidonParams, z: nat, l: nat) -> nat
    decreases l,
{
    if l == 0 {
        z
    } else {
        hash_pair(h, empty_hash(h, z, (l - 1) as nat), empty_hash(h, z, (l - 1) as nat))
    }
}

/// `e` lists the hashes of the empty subtrees of heights zero and up.
pub open spec fn is_empty_chain(h: PoseidonParams, e: Seq<nat>) -> bool {
    &&& e.len() >= 1
    &&& forall|l: int| 0 <= l < e.len() ==> #[trigger] e[l] == empty_hash(h, e[0], l as nat)
}

/// The number of leaves under a node of height `l`: two to the power `l`.
pub open spec fn span(l: nat) -> nat
    decreases l,
{
    if l == 0 {
        1
    } else {
        2 * span((l - 1) as nat)
    }
}

/// One level of a path: the running hash takes the side where its twin
/// stands, the left one if the left entry equals it.
pub open spec fn path_step(h: PoseidonParams, prev: nat, pair: (nat, nat)) -> nat {
    if prev == pair.0 {
        hash_pair(h, prev, pair.1)
    } else {
        hash_pair(h, pair.0, prev)
    }
}

/// The running hash after the first `n` levels of `path`, from `leaf`.
pub open spec fn path_root(h: PoseidonParams, leaf: nat, path: Seq<(nat, nat)>, n: nat) -> nat
    decreases n,
{
    if n == 0 {
        leaf
    } else {
        path_step(h, path_root(h, leaf, path, (n - 1) as nat), path[n - 1])
    }
}

/// The index that a path's sides spell for `leaf` over its first `n` levels,
/// `n` at least one: one if the leaf is not the first left entry, and for
/// each further level `l` two to the power `l` if the hash of the pair below
/// is not the left entry at `l`.
pub open spec fn path_index(h: PoseidonParams, leaf: nat, path: Seq<(nat, nat)>, n: nat) -> nat
    decreases n,
{
    if n <= 1 {
        if leaf == path[0].0 {
            0
        } else {
            1
        }
    } else {
        let below = hash_pair(h, path[n - 2].0, path[n - 2].1);
        path_index(h, leaf, path, (n - 1) as nat) + if below != path[n - 1].0 {
            span((n - 1) as nat)
        } else {
            0
        }
    }
}

/// The insertion recurrence from level `l` up to, not including, level
/// `top`: a node with an even index is cached as the left child and hashed
/// with the empty subtree to its right; one with an odd index is hashed with
/// the cached left child. Gives the cache and the hash at level `top`.
pub open spec fn climb(
    h: PoseidonParams,
    e: Seq<nat>,
    st: Seq<nat>,
    hash: nat,
    idx: nat,
    l: nat,
    top: nat,
) -> (Seq<nat>, nat)
    decreases top - l,
{
    if l >= top {
        (st, hash)
    } else if idx % 2 == 0 {
        climb(h, e, st.update(l as int, hash), hash_pair(h, hash, e[l as int]), idx / 2, l + 1, top)
    } else {
        climb(h, e, st, hash_pair(h, st[l as int], hash), idx / 2, l + 1, top)
    }
}

/// The cache and the hash at level `top` after the leaves were inserted pair
/// by pair, each climbing up to level `top`, into an empty tree over the
/// empty hashes `e`.
pub open spec fn replay(h: PoseidonParams, e: Seq<nat>, leaves: Seq<nat>, top: nat) -> (
    Seq<nat>,
    nat,
)
    decreases leaves.len(),
{
    if leaves.len() < 2 {
        (e, e[top - 1])
    } else {
        let n = leaves.len();
        let before = replay(h, e, leaves.take(n - 2), top);
        climb(
            h,
            e,
            before.0,
            hash_pair(h, leaves[n - 2], leaves[n - 1]),
            ((n - 2) / 2) as nat,
            1,
            top,
        )
    }
}

/// The cache and the root after the leaves were inserted pair by pair into
/// an empty tree whose height is the length of `e`.
pub open spec fn contract_state(h: PoseidonParams, e: Seq<nat>, leaves: Seq<nat>) -> (
    Seq<nat>,
    nat,
) {
    replay(h, e, leaves, e.len())
}

/// The root that the insertion recurrence gives for a sequence of leaves.
pub open spec fn contract_root(h: PoseidonParams, e: Seq<nat>, leaves: Seq<nat>) -> nat {
    contract_state(h, e, leaves).1
}

/// The node at height `l` and position `j` of the tree over `leaves`, where
/// every leaf that is not there is the empty leaf `z`.
pub open spec fn node(h: PoseidonParams, z: nat, leaves: Seq<nat>, l: nat, j: nat) -> nat
    decreases l,
{
    if l == 0 {
        if j < leaves.len() {
            leaves[j as int]
        } else {
            z
        }
    } else {
        hash_pair(
            h,
            node(h, z, leaves, (l - 1) as nat, 2 * j),
            node(h, z, leaves, (l - 1) as nat, 2 * j + 1),
        )
    }
}

/// The position, `l` levels up, of the ancestor of position `x`.
pub open spec fn ancestor(x: nat, l: nat) -> nat
    decreases l,
{
    if l == 0 {
        x
    } else {
        ancestor(x, (l - 1) as nat) / 2
    }
}

/// The membership path of leaf `index`: at level `l` the two children of the
/// leaf's ancestor at height `l + 1`.
pub open spec fn merkle_path(
    h: PoseidonParams,
    z: nat,
    leaves: Seq<nat>,
    index: nat,
    n: nat,
) -> Seq<(nat, nat)> {
    Seq::new(
        n,
        |l: int|
            (
                node(h, z, leaves, l as nat, 2 * ancestor(index, (l + 1) as nat)),
                node(h, z, leaves, l as nat, 2 * ancestor(index, (l + 1) as nat) + 1),
            ),
    )
}

/// The root of the tree of the height that `e` has over `leaves`: the top
/// node, and for a tree without leaves the last entry of `e`.
pub open spec fn merkle_root(h: PoseidonParams, e: Seq<nat>, leaves: Seq<nat>) -> nat {
    if leaves.len() == 0 {
        e[e.len() - 1]
    } else {
        node(h, e[0], leaves, e.len(), 0)
    }
}

/// The leaves that a sequence of pairs gives, each pair left before right.
pub open spec fn flatten(pairs: Seq<(nat, nat)>) -> Seq<nat> {
    Seq::new(
        2 * pairs.len(),
        |i: int|
            if i % 2 == 0 {
                pairs[i / 2].0
            } else {
                pairs[i / 2].1
            },
    )
}

/// The recurrence keeps the cache's length.
pub proof fn lemma_climb_length(
    h: PoseidonParams,
    e: Seq<nat>,
    st: Seq<nat>,
    hash: nat,
    idx: nat,
    l: nat,
    top: nat,
)
    requires
        top <= st.len(),
    ensures
        climb(h, e, st, hash, idx, l, top).0.len() == st.len(),
    decreases top - l,
{
    if l < top {
        if idx % 2 == 0 {
            lemma_climb_length(
                h,
                e,
                st.update(l as int, hash),
                hash_pair(h, hash, e[l as int]),
                idx / 2,
                l + 1,
                top,
            );
        } else {
            lemma_climb_length(h, e, st, hash_pair(h, st[l as int], hash), idx / 2, l + 1, top);
        }
    }
}

/// The cache has one entry for each level.
pub proof fn lemma_replay_length(h: PoseidonParams, e: Seq<nat>, leaves: Seq<nat>, top: nat)
    requires
        top <= e.len(),
    ensures
        replay(h, e, leaves, top).0.len() == e.len(),
    decreases leaves.len(),
{
    if leaves.len() >= 2 {
        let n = leaves.len();
        lemma_replay_length(h, e, leaves.take(n - 2), top);
        lemma_climb_length(
            h,
            e,
            replay(h, e, leaves.take(n - 2), top).0,
            hash_pair(h, leaves[n - 2], leaves[n - 1]),
            ((n - 2) / 2) as nat,
            1,
            top,
        );
    }
}

/// The cache has one entry for each level.
pub proof fn lemma_contract_length(h: PoseidonParams, e: Seq<nat>, leaves: Seq<nat>)
    ensures
        contract_state(h, e, leaves).0.len() == e.len(),
{
    lemma_replay_length(h, e, leaves, e.len());
}

/// A level's span is positive and doubles with each level.
pub proof fn lemma_span_step(l: nat)
    ensures
        span(l) >= 1,
        span(l + 1) == 2 * span(l),
    decreases l,
{
    if l > 0 {
        lemma_span_step((l - 1) as nat);
    }
}

/// The ancestor `l` levels up covers the positions from its own times the
/// span of `l` levels on, one span long.
pub proof fn lemma_ancestor_bounds(x: nat, l: nat)
    ensures
        ancestor(x, l) * span(l) <= x < (ancestor(x, l) + 1) * span(l),
    decreases l,
{
    if l > 0 {
        let m = (l - 1) as nat;
        lemma_ancestor_bounds(x, m);
        lemma_span_step(m);
        let a = ancestor(x, m);
        let b = a / 2;
        let s = span(m);
        assert(b * (2 * s) <= a * s) by (nonlinear_arith)
            requires
                2 * b <= a,
                s >= 0,
        ;
        assert((a + 1) * s <= (b + 1) * (2 * s)) by (nonlinear_arith)
            requires
                a + 1 <= 2 * b + 2,
                s >= 0,
        ;
        assert(ancestor(x, l) == b);
        assert(span(l) == 2 * s);
    } else {
        assert(ancestor(x, 0) == x);
        assert(span(0) == 1);
        assert(x * 1 == x && (x + 1) * 1 == x + 1) by (nonlinear_arith);
    }
}

/// Position zero is its own ancestor at every height.
pub proof fn lemma_ancestor_zero(l: nat)
    ensures
        ancestor(0, l) == 0,
    decreases l,
{
    if l > 0 {
        lemma_ancestor_zero((l - 1) as nat);
    }
}

/// Ancestors keep the order of positions.
pub proof fn lemma_ancestor_monotone(x: nat, y: nat, l: nat)
    requires
        x <= y,
    ensures
        ancestor(x, l) <= ancestor(y, l),
    decreases l,
{
    if l > 0 {
        lemma_ancestor_monotone(x, y, (l - 1) as nat);
    }
}

/// The ancestor one level further up is the ancestor of the parent.
pub proof fn lemma_ancestor_shift(x: nat, l: nat)
    ensures
        ancestor(x, l + 1) == ancestor(x / 2, l),
    decreases l,
{
    if l > 0 {
        lemma_ancestor_shift(x, (l - 1) as nat);
        assert(ancestor(x, l + 1) == ancestor(x, l) / 2);
        assert(ancestor(x / 2, l) == ancestor(x / 2, (l - 1) as nat) / 2);
    } else {
        assert(ancestor(x, 0) == x);
        assert(ancestor(x, 1) == ancestor(x, 0) / 2);
        assert(ancestor(x / 2, 0) == x / 2);
    }
}

/// The ancestors of two neighbours are the same or neighbours.
pub proof fn lemma_ancestor_neighbours(k: nat, l: nat)
    requires
        k >= 1,
    ensures
        ancestor((k - 1) as nat, l) == ancestor(k, l) || ancestor((k - 1) as nat, l) + 1
            == ancestor(k, l),
    decreases l,
{
    if l > 0 {
        lemma_ancestor_neighbours(k, (l - 1) as nat);
    }
}

/// Above a level where a position's ancestor is a right child, the position
/// and its left neighbour have the same ancestors.
pub proof fn lemma_ancestor_joins(k: nat, m: nat, l: nat)
    requires
        k >= 1,
        ancestor(k, m) % 2 == 1,
        m < l,
    ensures
        ancestor((k - 1) as nat, l) == ancestor(k, l),
    decreases l,
{
    if l == m + 1 {
        lemma_ancestor_neighbours(k, m);
    } else {
        lemma_ancestor_joins(k, m, (l - 1) as nat);
    }
}

/// A node to the right of all leaves is the empty subtree of its height.
pub proof fn lemma_empty_node(h: PoseidonParams, z: nat, leaves: Seq<nat>, l: nat, j: nat)
    requires
        j * span(l) >= leaves.len(),
    ensures
        node(h, z, leaves, l, j) == empty_hash(h, z, l),
    decreases l,
{
    if l > 0 {
        let m = (l - 1) as nat;
        lemma_span_step(m);
        assert((2 * j) * span(m) == j * (2 * span(m))) by (nonlinear_arith);
        assert((2 * j + 1) * span(m) >= (2 * j) * span(m)) by (nonlinear_arith)
            requires
                span(m) >= 0,
        ;
        lemma_empty_node(h, z, leaves, m, 2 * j);
        lemma_empty_node(h, z, leaves, m, 2 * j + 1);
    } else {
        assert(span(0) == 1);
        assert(j * 1 == j) by (nonlinear_arith);
    }
}

/// A node whose leaves are all there stays what it is when leaves are
/// appended.
pub proof fn lemma_node_frame(
    h: PoseidonParams,
    z: nat,
    a: Seq<nat>,
    b: Seq<nat>,
    l: nat,
    j: nat,
)
    requires
        (j + 1) * span(l) <= a.len(),
        a.len() <= b.len(),
        forall|i: int| 0 <= i < a.len() ==> a[i] == b[i],
    ensures
        node(h, z, a, l, j) == node(h, z, b, l, j),
    decreases l,
{
    if l > 0 {
        let m = (l - 1) as nat;
        lemma_span_step(m);
        assert((2 * j + 2) * span(m) == (j + 1) * (2 * span(m))) by (nonlinear_arith);
        assert((2 * j + 1) * span(m) <= (2 * j + 2) * span(m)) by (nonlinear_arith)
            requires
                span(m) >= 0,
        ;
        lemma_node_frame(h, z, a, b, m, 2 * j);
        lemma_node_frame(h, z, a, b, m, 2 * j + 1);
    } else {
        assert(span(0) == 1);
        assert((j + 1) * 1 == j + 1) by (nonlinear_arith);
    }
}

/// What the climb of a new pair of leaves gives, from level `l` on: the
/// nodes of the tree with the pair on the way up, and a cache that holds for
/// every level the left child of the pair's ancestor one level up.
pub proof fn lemma_climb(
    h: PoseidonParams,
    e: Seq<nat>,
    old_leaves: Seq<nat>,
    a: nat,
    b: nat,
    st: Seq<nat>,
    hash: nat,
    l: nat,
    top: nat,
)
    requires
        is_empty_chain(h, e),
        top <= e.len(),
        top <= st.len(),
        1 <= l <= top,
        old_leaves.len() % 2 == 0,
        hash == node(
            h,
            e[0],
            old_leaves.push(a).push(b),
            l,
            ancestor(old_leaves.len() / 2, (l - 1) as nat),
        ),
        forall|m: int|
            1 <= m < l ==> #[trigger] st[m] == node(
                h,
                e[0],
                old_leaves.push(a).push(b),
                m as nat,
                2 * ancestor(old_leaves.len() / 2, m as nat),
            ),
        old_leaves.len() >= 2 ==> forall|m: int|
            l <= m < top ==> #[trigger] st[m] == node(
                h,
                e[0],
                old_leaves,
                m as nat,
                2 * ancestor((old_leaves.len() / 2 - 1) as nat, m as nat),
            ),
    ensures
        climb(h, e, st, hash, ancestor(old_leaves.len() / 2, (l - 1) as nat), l, top).1 == node(
            h,
            e[0],
            old_leaves.push(a).push(b),
            top,
            ancestor(old_leaves.len() / 2, (top - 1) as nat),
        ),
        forall|m: int|
            1 <= m < top ==> #[trigger] climb(
                h,
                e,
                st,
                hash,
                ancestor(old_leaves.len() / 2, (l - 1) as nat),
                l,
                top,
            ).0[m] == node(
                h,
                e[0],
                old_leaves.push(a).push(b),
                m as nat,
                2 * ancestor(old_leaves.len() / 2, m as nat),
            ),
    decreases top - l,
{
    if l < top {
        let z = e[0];
        let leaves = old_leaves.push(a).push(b);
        let k = old_leaves.len() / 2;
        let below = (l - 1) as nat;
        let idx = ancestor(k, below);
        let up = ancestor(k, l);
        assert(up == idx / 2);
        lemma_ancestor_bounds(k, below);
        lemma_span_step(below);
        let s = span(below);
        if idx % 2 == 0 {
            let st2 = st.update(l as int, hash);
            let hash2 = hash_pair(h, hash, e[l as int]);
            assert((idx + 1) * span(l) >= leaves.len()) by (nonlinear_arith)
                requires
                    k < (idx + 1) * s,
                    span(l) == 2 * s,
                    leaves.len() == 2 * k + 2,
            ;
            lemma_empty_node(h, z, leaves, l, idx + 1);
            assert(hash2 == node(h, z, leaves, l + 1, up));
            assert forall|m: int| 1 <= m < l + 1 implies #[trigger] st2[m] == node(
                h,
                z,
                leaves,
                m as nat,
                2 * ancestor(k, m as nat),
            ) by {
                if m == l {
                } else {
                    assert(st2[m] == st[m]);
                }
            }
            if old_leaves.len() >= 2 {
                assert forall|m: int| l + 1 <= m < top implies #[trigger] st2[m] == node(
                    h,
                    z,
                    old_leaves,
                    m as nat,
                    2 * ancestor((k - 1) as nat, m as nat),
                ) by {
                    assert(st2[m] == st[m]);
                }
            }
            lemma_climb(h, e, old_leaves, a, b, st2, hash2, l + 1, top);
        } else {
            let hash2 = hash_pair(h, st[l as int], hash);
            assert(k >= 1) by (nonlinear_arith)
                requires
                    idx * s <= k,
                    idx >= 1,
                    s >= 1,
            ;
            lemma_ancestor_joins(k, below, l);
            assert(st[l as int] == node(h, z, old_leaves, l, 2 * up));
            assert(2 * up + 1 == idx);
            assert((2 * up + 1) * span(l) <= old_leaves.len()) by (nonlinear_arith)
                requires
                    idx * s <= k,
                    2 * up + 1 == idx,
                    span(l) == 2 * s,
                    old_leaves.len() == 2 * k,
            ;
            lemma_node_frame(h, z, old_leaves, leaves, l, 2 * up);
            assert(hash2 == node(h, z, leaves, l + 1, up));
            assert forall|m: int| 1 <= m < l + 1 implies #[trigger] st[m] == node(
                h,
                z,
                leaves,
                m as nat,
                2 * ancestor(k, m as nat),
            ) by {
            }
            lemma_climb(h, e, old_leaves, a, b, st, hash2, l + 1, top);
        }
    }
}

/// What the insertion recurrence computes: after at least one pair, the hash
/// at level `top` is the node above the last pair, and the cache holds for
/// every level the left child of the last pair's ancestor one level up.
pub proof fn lemma_replay(h: PoseidonParams, e: Seq<nat>, leaves: Seq<nat>, top: nat)
    requires
        is_empty_chain(h, e),
        1 <= top <= e.len(),
        leaves.len() % 2 == 0,
        leaves.len() >= 2,
    ensures
        replay(h, e, leaves, top).0.len() == e.len(),
        replay(h, e, leaves, top).1 == node(
            h,
            e[0],
            leaves,
            top,
            ancestor((leaves.len() / 2 - 1) as nat, (top - 1) as nat),
        ),
        forall|m: int|
            1 <= m < top ==> #[trigger] replay(h, e, leaves, top).0[m] == node(
                h,
                e[0],
                leaves,
                m as nat,
                2 * ancestor((leaves.len() / 2 - 1) as nat, m as nat),
            ),
    decreases leaves.len(),
{
    let n = leaves.len();
    let old_leaves = leaves.take(n - 2);
    let a = leaves[n - 2];
    let b = leaves[n - 1];
    assert(old_leaves.push(a).push(b) =~= leaves);
    lemma_replay_length(h, e, leaves, top);
    lemma_replay_length(h, e, old_leaves, top);
    if old_leaves.len() >= 2 {
        lemma_replay(h, e, old_leaves, top);
    }
    let before = replay(h, e, old_leaves, top);
    let hash = hash_pair(h, a, b);
    let k = old_leaves.len() / 2;
    assert(ancestor(k, 0) == k);
    assert(node(h, e[0], leaves, 0, 2 * k) == a);
    assert(node(h, e[0], leaves, 0, 2 * k + 1) == b);
    assert(hash == node(h, e[0], leaves, 1, k));
    lemma_climb(h, e, old_leaves, a, b, before.0, hash, 1, top);
}

/// The root that the insertion recurrence computes is the root of the tree
/// over the leaves, for every even number of leaves that fits under the
/// height.
pub proof fn lemma_contract_root_is_merkle_root(h: PoseidonParams, e: Seq<nat>, leaves: Seq<nat>)
    requires
        is_empty_chain(h, e),
        leaves.len() % 2 == 0,
        leaves.len() <= span(e.len()),
    ensures
        contract_root(h, e, leaves) == merkle_root(h, e, leaves),
{
    if leaves.len() >= 2 {
        let top = e.len();
        lemma_replay(h, e, leaves, top);
        let p = (leaves.len() / 2 - 1) as nat;
        let below = (top - 1) as nat;
        lemma_ancestor_bounds(p, below);
        lemma_span_step(below);
        let anc = ancestor(p, below);
        assert(anc == 0) by (nonlinear_arith)
            requires
                anc * span(below) <= p,
                2 * p + 2 <= 2 * span(below),
                anc >= 0,
        ;
    }
}

/// The membership path of a leaf leads from the leaf to the node above it at
/// every height.
pub proof fn lemma_path_climbs(
    h: PoseidonParams,
    z: nat,
    leaves: Seq<nat>,
    index: nat,
    n: nat,
    height: nat,
)
    requires
        index < leaves.len(),
        n <= height,
    ensures
        path_root(h, leaves[index as int], merkle_path(h, z, leaves, index, height), n) == node(
            h,
            z,
            leaves,
            n,
            ancestor(index, n),
        ),
    decreases n,
{
    if n > 0 {
        let m = (n - 1) as nat;
        lemma_path_climbs(h, z, leaves, index, m, height);
        let path = merkle_path(h, z, leaves, index, height);
        let prev = path_root(h, leaves[index as int], path, m);
        let cur = ancestor(index, m);
        let up = ancestor(index, n);
        assert(up == cur / 2);
        assert(path[m as int] == (
            node(h, z, leaves, m, 2 * up),
            node(h, z, leaves, m, 2 * up + 1),
        ));
        assert(cur == 2 * up || cur == 2 * up + 1);
    }
}

/// The membership path of every leaf leads to the root of the tree.
pub proof fn lemma_path_leads_to_root(
    h: PoseidonParams,
    e: Seq<nat>,
    leaves: Seq<nat>,
    index: nat,
)
    requires
        is_empty_chain(h, e),
        leaves.len() % 2 == 0,
        leaves.len() <= span(e.len()),
        index < leaves.len(),
    ensures
        path_root(h, leaves[index as int], merkle_path(h, e[0], leaves, index, e.len()), e.len())
            == merkle_root(h, e, leaves),
        merkle_root(h, e, leaves) == contract_root(h, e, leaves),
{
    let n = e.len();
    lemma_path_climbs(h, e[0], leaves, index, n, n);
    lemma_ancestor_bounds(index, n);
    let anc = ancestor(index, n);
    assert(anc == 0) by (nonlinear_arith)
        requires
            anc * span(n) <= index,
            index < span(n),
            anc >= 0,
    ;
    lemma_contract_root_is_merkle_root(h, e, leaves);
}

} // verus!
