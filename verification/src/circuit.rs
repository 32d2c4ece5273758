//! The transaction statement: two notes spent, two notes created, value
//! conserved, and the circuit that demands it.

use crate::constants::N_INS;
use crate::field::{
    le_bytes, lemma_limbs_bound, limbs_below, limbs_mul_add, limbs_value, modulus, top_weight,
    values, Fr,
};
use crate::merkle_spec::{
    contract_root, is_empty_chain, lemma_path_leads_to_root, merkle_path, path_root, span,
};
use crate::merkle_tree::Path;
use crate::poseidon_opt::{params_t3, poseidon1, poseidon3, poseidon4};
use vstd::arithmetic::power2::{lemma2_to64, lemma_pow2_pos, lemma_pow2_unfold, pow2};
use vstd::prelude::*;

verus! {

/// Why the inputs of a circuit were refused.
#[derive(Debug, Clone, Copy, PartialEq, Eq)]
pub enum CircuitError {
    /// The path index of this input is not below two to the power of the
    /// tree's height.
    PathIndexOutOfRange { input: usize },
}

/// The values of a transaction circuit, as numbers.
pub struct CircuitValues {
    pub vortex: nat,
    pub root: nat,
    pub public_amount: nat,
    pub input_nullifier_0: nat,
    pub input_nullifier_1: nat,
    pub output_commitment_0: nat,
    pub output_commitment_1: nat,
    pub hashed_account_secret: nat,
    pub account_secret: nat,
    pub in_private_keys: Seq<nat>,
    pub in_amounts: Seq<nat>,
    pub in_blindings: Seq<nat>,
    pub in_path_indices: Seq<nat>,
    pub merkle_paths: Seq<Seq<(nat, nat)>>,
    pub out_public_keys: Seq<nat>,
    pub out_amounts: Seq<nat>,
    pub out_blindings: Seq<nat>,
}

/// The public key that belongs to a private key.
pub open spec fn public_key(private_key: nat) -> nat {
    poseidon1(private_key)
}

/// The commitment to a note.
pub open spec fn commitment(amount: nat, public_key: nat, blinding: nat, vortex: nat) -> nat {
    poseidon4(amount, public_key, blinding, vortex)
}

/// The signature that binds a note at an index of the tree to its owner.
pub open spec fn signature(private_key: nat, commitment: nat, path_index: nat) -> nat {
    poseidon3(private_key, commitment, path_index)
}

/// The nullifier of a note at an index of the tree.
pub open spec fn nullifier(private_key: nat, commitment: nat, path_index: nat) -> nat {
    poseidon3(commitment, path_index, signature(private_key, commitment, path_index))
}

/// The commitment of the note that input `i` spends.
pub open spec fn input_commitment(v: CircuitValues, i: int) -> nat {
    commitment(v.in_amounts[i], public_key(v.in_private_keys[i]), v.in_blindings[i], v.vortex)
}

/// The public nullifier of input `i`.
pub open spec fn input_nullifier(v: CircuitValues, i: int) -> nat {
    if i == 0 {
        v.input_nullifier_0
    } else {
        v.input_nullifier_1
    }
}

/// The public commitment of output `j`.
pub open spec fn output_commitment(v: CircuitValues, j: int) -> nat {
    if j == 0 {
        v.output_commitment_0
    } else {
        v.output_commitment_1
    }
}

/// The account secret hashes to the public hash, unless that is zero.
pub open spec fn account_bound(v: CircuitValues) -> bool {
    v.hashed_account_secret != 0 ==> poseidon1(v.account_secret) == v.hashed_account_secret
}

/// A note is spent rightly: its nullifier is the public one, its amount
/// takes at most 248 bits, and unless the amount is zero its commitment lies
/// in the tree of height `height` under the public root.
pub open spec fn spend_valid(
    private_key: nat,
    amount: nat,
    blinding: nat,
    path_index: nat,
    path: Seq<(nat, nat)>,
    vortex: nat,
    root: nat,
    public_nullifier: nat,
    height: nat,
) -> bool {
    let note = commitment(amount, public_key(private_key), blinding, vortex);
    &&& nullifier(private_key, note, path_index) == public_nullifier
    &&& amount < pow2(248)
    &&& amount != 0 ==> path_root(params_t3(), note, path, height) == root
}

/// A note is created rightly: its commitment is the public one and its
/// amount takes at most 248 bits.
pub open spec fn mint_valid(
    amount: nat,
    public_key: nat,
    blinding: nat,
    vortex: nat,
    public_commitment: nat,
) -> bool {
    &&& commitment(amount, public_key, blinding, vortex) == public_commitment
    &&& amount < pow2(248)
}

/// Input `i` is spent rightly.
pub open spec fn input_valid(v: CircuitValues, i: int, height: nat) -> bool {
    spend_valid(
        v.in_private_keys[i],
        v.in_amounts[i],
        v.in_blindings[i],
        v.in_path_indices[i],
        v.merkle_paths[i],
        v.vortex,
        v.root,
        input_nullifier(v, i),
        height,
    )
}

/// Output `j` is created rightly.
pub open spec fn output_valid(v: CircuitValues, j: int) -> bool {
    mint_valid(
        v.out_amounts[j],
        v.out_public_keys[j],
        v.out_blindings[j],
        v.vortex,
        output_commitment(v, j),
    )
}

/// What goes in, with the public amount, is what comes out, in the field.
pub open spec fn value_conserved(v: CircuitValues) -> bool {
    (v.in_amounts[0] + v.in_amounts[1] + v.public_amount) % modulus() == (v.out_amounts[0]
        + v.out_amounts[1]) % modulus()
}

/// The statement that a transaction proves, for a tree of height `height`.
pub open spec fn statement(v: CircuitValues, height: nat) -> bool {
    &&& account_bound(v)
    &&& input_valid(v, 0, height)
    &&& input_valid(v, 1, height)
    &&& output_valid(v, 0)
    &&& output_valid(v, 1)
    &&& v.input_nullifier_0 != v.input_nullifier_1
    &&& value_conserved(v)
}

/// A spend of two notes that lie in a tree meets the statement: where the
/// paths are the tree's paths of the two commitments and the root is the
/// tree's, the nullifiers and the output commitments are derived from the
/// notes, every amount takes at most 248 bits, value is conserved and no
/// account is bound. That the two nullifiers differ is asked for: of two
/// different notes it holds unless the hash collides.
pub proof fn lemma_spend_of_tree_notes_is_valid(
    v: CircuitValues,
    e: Seq<nat>,
    leaves: Seq<nat>,
    index_0: nat,
    index_1: nat,
)
    requires
        is_empty_chain(params_t3(), e),
        leaves.len() % 2 == 0,
        leaves.len() <= span(e.len()),
        index_0 < leaves.len(),
        index_1 < leaves.len(),
        leaves[index_0 as int] == input_commitment(v, 0),
        leaves[index_1 as int] == input_commitment(v, 1),
        v.merkle_paths[0] == merkle_path(params_t3(), e[0], leaves, index_0, e.len()),
        v.merkle_paths[1] == merkle_path(params_t3(), e[0], leaves, index_1, e.len()),
        v.root == contract_root(params_t3(), e, leaves),
        v.input_nullifier_0 == nullifier(
            v.in_private_keys[0],
            input_commitment(v, 0),
            v.in_path_indices[0],
        ),
        v.input_nullifier_1 == nullifier(
            v.in_private_keys[1],
            input_commitment(v, 1),
            v.in_path_indices[1],
        ),
        v.output_commitment_0 == commitment(
            v.out_amounts[0],
            v.out_public_keys[0],
            v.out_blindings[0],
            v.vortex,
        ),
        v.output_commitment_1 == commitment(
            v.out_amounts[1],
            v.out_public_keys[1],
            v.out_blindings[1],
            v.vortex,
        ),
        v.in_amounts[0] < pow2(248),
        v.in_amounts[1] < pow2(248),
        v.out_amounts[0] < pow2(248),
        v.out_amounts[1] < pow2(248),
        value_conserved(v),
        v.hashed_account_secret == 0,
        v.input_nullifier_0 != v.input_nullifier_1,
    ensures
        statement(v, e.len()),
{
    lemma_path_leads_to_root(params_t3(), e, leaves, index_0);
    lemma_path_leads_to_root(params_t3(), e, leaves, index_1);
}

/// The public inputs in the order in which the circuit allocates them.
pub open spec fn public_input_values(v: CircuitValues) -> Seq<nat> {
    seq![
        v.vortex,
        v.root,
        v.public_amount,
        v.input_nullifier_0,
        v.input_nullifier_1,
        v.output_commitment_0,
        v.output_commitment_1,
        v.hashed_account_secret,
    ]
}

/// The bytes of a sequence of elements, each in its 32-byte encoding.
pub open spec fn serialized(values: Seq<nat>) -> Seq<u8>
    decreases values.len(),
{
    if values.len() == 0 {
        Seq::empty()
    } else {
        serialized(values.drop_last()) + le_bytes(values.last(), 32)
    }
}

/// The inputs of the transaction circuit for a tree of height `H`.
#[derive(Debug, Clone)]
pub struct TransactionCircuit<const H: usize> {
    pub vortex: Fr,
    pub root: Fr,
    pub public_amount: Fr,
    pub input_nullifier_0: Fr,
    pub input_nullifier_1: Fr,
    pub output_commitment_0: Fr,
    pub output_commitment_1: Fr,
    pub hashed_account_secret: Fr,
    pub account_secret: Fr,
    pub in_private_keys: [Fr; 2],
    pub in_amounts: [Fr; 2],
    pub in_blindings: [Fr; 2],
    pub in_path_indices: [Fr; 2],
    pub merkle_paths: [Path<H>; 2],
    pub out_public_keys: [Fr; 2],
    pub out_amounts: [Fr; 2],
    pub out_blindings: [Fr; 2],
}

impl<const H: usize> View for TransactionCircuit<H> {
    type V = CircuitValues;

    open spec fn view(&self) -> CircuitValues {
        CircuitValues {
            vortex: self.vortex@,
            root: self.root@,
            public_amount: self.public_amount@,
            input_nullifier_0: self.input_nullifier_0@,
            input_nullifier_1: self.input_nullifier_1@,
            output_commitment_0: self.output_commitment_0@,
            output_commitment_1: self.output_commitment_1@,
            hashed_account_secret: self.hashed_account_secret@,
            account_secret: self.account_secret@,
            in_private_keys: values(self.in_private_keys@),
            in_amounts: values(self.in_amounts@),
            in_blindings: values(self.in_blindings@),
            in_path_indices: values(self.in_path_indices@),
            merkle_paths: Seq::new(2, |i: int| self.merkle_paths@[i]@),
            out_public_keys: values(self.out_public_keys@),
            out_amounts: values(self.out_amounts@),
            out_blindings: values(self.out_blindings@),
        }
    }
}

/// The limbs of two to the power `n`, where 256 bits hold it.
pub fn power_of_two_limbs(n: usize) -> (r: Option<(u64, u64, u64, u64)>)
    ensures
        match r {
            Some(l) => limbs_value(l.0, l.1, l.2, l.3) == pow2(n as nat),
            None => pow2(n as nat) >= top_weight(),
        },
{
    let mut l: (u64, u64, u64, u64) = (1, 0, 0, 0);
    let mut i: usize = 0;
    proof {
        lemma2_to64();
    }
    while i < n
        invariant
            i <= n,
            limbs_value(l.0, l.1, l.2, l.3) == pow2(i as nat),
        decreases n - i,
    {
        let (l0, l1, l2, l3, carry) = limbs_mul_add(l.0, l.1, l.2, l.3, 2, 0);
        proof {
            lemma_pow2_unfold((i + 1) as nat);
        }
        if carry != 0 {
            proof {
                assert(carry * top_weight() >= top_weight()) by (nonlinear_arith)
                    requires
                        carry >= 1,
                        top_weight() >= 0,
                ;
                lemma_pow2_grows((i + 1) as nat, n as nat);
            }
            return None;
        }
        proof {
            assert(carry * top_weight() == 0) by (nonlinear_arith)
                requires
                    carry == 0,
            ;
        }
        l = (l0, l1, l2, l3);
        i += 1;
    }
    Some(l)
}

/// A larger exponent gives no smaller power of two.
pub proof fn lemma_pow2_grows(a: nat, b: nat)
    requires
        a <= b,
    ensures
        pow2(a) <= pow2(b),
    decreases b - a,
{
    if a < b {
        lemma_pow2_grows(a, (b - 1) as nat);
        lemma_pow2_unfold(b);
        lemma_pow2_pos((b - 1) as nat);
    }
}

/// Whether an element is below two to the power `n`.
pub fn below_power_of_two(x: &Fr, n: usize) -> (r: bool)
    ensures
        r == (x@ < pow2(n as nat)),
{
    let l = x.limbs();
    match power_of_two_limbs(n) {
        Some(b) => limbs_below(l[0], l[1], l[2], l[3], b.0, b.1, b.2, b.3),
        None => {
            proof {
                lemma_limbs_bound(l[0], l[1], l[2], l[3]);
            }
            true
        },
    }
}

impl<const H: usize> TransactionCircuit<H> {
    /// The circuit whose every value is zero.
    pub fn empty() -> (r: Self)
        ensures
            r@.vortex == 0,
            r@.root == 0,
            r@.public_amount == 0,
            r@.input_nullifier_0 == 0,
            r@.input_nullifier_1 == 0,
            r@.output_commitment_0 == 0,
            r@.output_commitment_1 == 0,
            r@.hashed_account_secret == 0,
            r@.account_secret == 0,
            r@.in_private_keys == seq![0nat, 0nat],
            r@.in_amounts == seq![0nat, 0nat],
            r@.in_blindings == seq![0nat, 0nat],
            r@.in_path_indices == seq![0nat, 0nat],
            r@.merkle_paths == seq![
                Seq::new(H as nat, |i: int| (0nat, 0nat)),
                Seq::new(H as nat, |i: int| (0nat, 0nat)),
            ],
            r@.out_public_keys == seq![0nat, 0nat],
            r@.out_amounts == seq![0nat, 0nat],
            r@.out_blindings == seq![0nat, 0nat],
    {
        let z = Fr::zero();
        let r = Self {
            vortex: z,
            root: z,
            public_amount: z,
            input_nullifier_0: z,
            input_nullifier_1: z,
            output_commitment_0: z,
            output_commitment_1: z,
            hashed_account_secret: z,
            account_secret: z,
            in_private_keys: [z, z],
            in_amounts: [z, z],
            in_blindings: [z, z],
            in_path_indices: [z, z],
            merkle_paths: [Path::empty(), Path::empty()],
            out_public_keys: [z, z],
            out_amounts: [z, z],
            out_blindings: [z, z],
        };
        assert(r@.in_private_keys =~= seq![0nat, 0nat]);
        assert(r@.in_amounts =~= seq![0nat, 0nat]);
        assert(r@.in_blindings =~= seq![0nat, 0nat]);
        assert(r@.in_path_indices =~= seq![0nat, 0nat]);
        assert(r@.out_public_keys =~= seq![0nat, 0nat]);
        assert(r@.out_amounts =~= seq![0nat, 0nat]);
        assert(r@.out_blindings =~= seq![0nat, 0nat]);
        assert(r@.merkle_paths =~= seq![
            Seq::new(H as nat, |i: int| (0nat, 0nat)),
            Seq::new(H as nat, |i: int| (0nat, 0nat)),
        ]);
        r
    }

    /// The circuit with the given values, unless a path index is not below
    /// two to the power `H`; the first such input is named.
    pub fn new(
        vortex: Fr,
        root: Fr,
        public_amount: Fr,
        input_nullifier_0: Fr,
        input_nullifier_1: Fr,
        output_commitment_0: Fr,
        output_commitment_1: Fr,
        hashed_account_secret: Fr,
        account_secret: Fr,
        in_private_keys: [Fr; 2],
        in_amounts: [Fr; 2],
        in_blindings: [Fr; 2],
        in_path_indices: [Fr; 2],
        merkle_paths: [Path<H>; 2],
        out_public_keys: [Fr; 2],
        out_amounts: [Fr; 2],
        out_blindings: [Fr; 2],
    ) -> (r: Result<Self, CircuitError>)
        ensures
            r is Ok <==> in_path_indices@[0]@ < pow2(H as nat) && in_path_indices@[1]@ < pow2(
                H as nat,
            ),
            match r {
                Ok(circuit) => circuit == (Self {
                    vortex,
                    root,
                    public_amount,
                    input_nullifier_0,
                    input_nullifier_1,
                    output_commitment_0,
                    output_commitment_1,
                    hashed_account_secret,
                    account_secret,
                    in_private_keys,
                    in_amounts,
                    in_blindings,
                    in_path_indices,
                    merkle_paths,
                    out_public_keys,
                    out_amounts,
                    out_blindings,
                }),
                Err(e) => e == (CircuitError::PathIndexOutOfRange {
                    input: if in_path_indices@[0]@ < pow2(H as nat) {
                        1usize
                    } else {
                        0usize
                    },
                }),
            },
    {
        let mut i: usize = 0;
        while i < N_INS
            invariant
                i <= N_INS,
                forall|k: int| 0 <= k < i ==> (#[trigger] in_path_indices@[k])@ < pow2(H as nat),
            decreases N_INS - i,
        {
            if !below_power_of_two(&in_path_indices[i], H) {
                return Err(CircuitError::PathIndexOutOfRange { input: i });
            }
            i += 1;
        }
        Ok(
            Self {
                vortex,
                root,
                public_amount,
                input_nullifier_0,
                input_nullifier_1,
                output_commitment_0,
                output_commitment_1,
                hashed_account_secret,
                account_secret,
                in_private_keys,
                in_amounts,
                in_blindings,
                in_path_indices,
                merkle_paths,
                out_public_keys,
                out_amounts,
                out_blindings,
            },
        )
    }

    /// The public inputs in the order in which the circuit allocates them.
    pub fn get_public_inputs(&self) -> (r: Vec<Fr>)
        ensures
            values(r@) == public_input_values(self@),
    {
        let mut r: Vec<Fr> = Vec::new();
        r.push(self.vortex);
        r.push(self.root);
        r.push(self.public_amount);
        r.push(self.input_nullifier_0);
        r.push(self.input_nullifier_1);
        r.push(self.output_commitment_0);
        r.push(self.output_commitment_1);
        r.push(self.hashed_account_secret);
        assert(values(r@) =~= public_input_values(self@));
        r
    }

    /// The public inputs, each in its 32-byte encoding, one after the other
    /// in the order of their allocation.
    pub fn get_public_inputs_serialized(&self) -> (r: Result<Vec<u8>, CircuitError>)
        ensures
            r is Ok,
            r.unwrap()@ == serialized(public_input_values(self@)),
    {
        let public_inputs = self.get_public_inputs();
        let ghost vals = values(public_inputs@);
        let mut out: Vec<u8> = Vec::new();
        let n = public_inputs.len();
        let mut i: usize = 0;
        assert(vals.take(0) =~= Seq::<nat>::empty());
        while i < n
            invariant
                n == public_inputs@.len(),
                vals == values(public_inputs@),
                i <= n,
                out@ == serialized(vals.take(i as int)),
            decreases n - i,
        {
            proof {
                assert(vals.take(i + 1).drop_last() =~= vals.take(i as int));
                assert(vals.take(i + 1).last() == public_inputs@[i as int]@);
            }
            public_inputs[i].serialize_compressed(&mut out);
            i += 1;
        }
        assert(vals.take(n as int) =~= vals);
        Ok(out)
    }
}

} // verus!
