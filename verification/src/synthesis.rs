//! The transaction statement as operations of a circuit.

use crate::circuit::{
    account_bound, commitment, input_valid, mint_valid, nullifier, output_valid, public_input_values,
    public_key, spend_valid, statement, value_conserved, CircuitValues, TransactionCircuit,
};
use crate::constants::{MAX_AMOUNT_BITS, N_INS, N_OUTS};
use crate::constraints::{
    alike, extends, is_bits, is_bool, is_field, lemma_alike_chain, lemma_alike_push,
    lemma_alike_same, lemma_run_len, same_growth, Circuit, Op, Slot,
};
use crate::field::{
    bits_le, lemma_modulus_bounds, limb_base, modulus, Fr, MODULUS_L0, MODULUS_L1, MODULUS_L2,
    MODULUS_L3,
};
use crate::merkle_gadget::{
    check_membership_prog, lemma_check_membership_prog, path_positions, path_slots,
    path_witness_ops, PathVar,
};
use crate::poseidon_gadget::{hash_prog, lemma_hash_prog, PoseidonOptimizedVar};
use crate::poseidon_opt::{params_t2, params_t3, params_t4, params_t5};
use vstd::arithmetic::div_mod::{
    lemma_basic_div, lemma_div_denominator, lemma_fundamental_div_mod, lemma_multiply_divide_lt,
};
use vstd::arithmetic::power2::{
    lemma2_to64, lemma2_to64_rest, lemma_pow2_adds, lemma_pow2_pos, pow2,
};
use vstd::prelude::*;

verus! {

/// The modulus takes 254 bits.
pub proof fn lemma_modulus_below_pow2_254()
    ensures
        modulus() < pow2(254),
{
    lemma2_to64();
    lemma2_to64_rest();
    lemma_pow2_adds(64, 64);
    lemma_pow2_adds(128, 64);
    lemma_pow2_adds(192, 62);
    let b = limb_base() as int;
    let p192 = pow2(192) as int;
    assert(pow2(62) == 0x4000_0000_0000_0000);
    assert(pow2(254) == p192 * 0x4000_0000_0000_0000);
    assert(modulus() == MODULUS_L0 + b * (MODULUS_L1 + b * (MODULUS_L2 + b * MODULUS_L3)));
    assert(p192 == b * b * b) by (nonlinear_arith)
        requires
            pow2(128) == b * b,
            p192 == pow2(128) * b,
    ;
    assert(MODULUS_L0 + b * (MODULUS_L1 + b * (MODULUS_L2 + b * MODULUS_L3)) < (b * b * b)
        * 0x4000_0000_0000_0000) by (nonlinear_arith)
        requires
            b == 0x1_0000_0000_0000_0000,
            MODULUS_L0 < b,
            MODULUS_L1 < b,
            MODULUS_L2 < b,
            MODULUS_L3 < 0x4000_0000_0000_0000 - 1,
    ;
}

/// Dividing by two to the power `248 + j` is dividing by two to the power
/// 248 and then by two to the power `j`.
pub proof fn lemma_shifted_quotient(v: nat, j: nat)
    ensures
        (v as int) / (pow2(248 + j) as int) == ((v as int) / (pow2(248) as int)) / (pow2(j) as int),
{
    lemma_pow2_adds(248, j);
    lemma_pow2_pos(j);
    lemma_pow2_pos(248);
    lemma_div_denominator(v as int, pow2(248) as int, pow2(j) as int);
}

/// A number below the modulus takes at most 248 bits exactly if its six
/// bits from bit 248 on are zero.
pub proof fn lemma_high_bits(v: nat)
    requires
        v < modulus(),
    ensures
        (forall|k: int| 248 <= k < 254 ==> !(#[trigger] bits_le(v, 254)[k])) <==> v < pow2(248),
{
    lemma_modulus_below_pow2_254();
    lemma2_to64();
    lemma_pow2_pos(248);
    let d = pow2(248) as int;
    let w = (v as int) / d;
    lemma_pow2_adds(248, 6);
    lemma_multiply_divide_lt(v as int, d, 64);
    assert(0 <= w < 64);
    lemma_shifted_quotient(v, 0);
    lemma_shifted_quotient(v, 1);
    lemma_shifted_quotient(v, 2);
    lemma_shifted_quotient(v, 3);
    lemma_shifted_quotient(v, 4);
    lemma_shifted_quotient(v, 5);
    if v < pow2(248) {
        lemma_basic_div(v as int, d);
        assert forall|k: int| 248 <= k < 254 implies !(#[trigger] bits_le(v, 254)[k]) by {
            let j = (k - 248) as nat;
            assert((v as int) / (pow2(248 + j) as int) == w / (pow2(j) as int));
            assert(w == 0);
            lemma_pow2_pos(j);
            lemma_basic_div(0, pow2(j) as int);
        }
    }
    if forall|k: int| 248 <= k < 254 ==> !(#[trigger] bits_le(v, 254)[k]) {
        assert(!bits_le(v, 254)[248]);
        assert(!bits_le(v, 254)[249]);
        assert(!bits_le(v, 254)[250]);
        assert(!bits_le(v, 254)[251]);
        assert(!bits_le(v, 254)[252]);
        assert(!bits_le(v, 254)[253]);
        assert((v as int) / (pow2(248 + 0) as int) == w / (pow2(0) as int));
        assert((v as int) / (pow2(248 + 1) as int) == w / (pow2(1) as int));
        assert((v as int) / (pow2(248 + 2) as int) == w / (pow2(2) as int));
        assert((v as int) / (pow2(248 + 3) as int) == w / (pow2(3) as int));
        assert((v as int) / (pow2(248 + 4) as int) == w / (pow2(4) as int));
        assert((v as int) / (pow2(248 + 5) as int) == w / (pow2(5) as int));
        assert((w / 1) % 2 == 0);
        assert((w / 2) % 2 == 0);
        assert((w / 4) % 2 == 0);
        assert((w / 8) % 2 == 0);
        assert((w / 16) % 2 == 0);
        assert((w / 32) % 2 == 0);
        assert(w == 0);
        lemma_fundamental_div_mod(v as int, d);
    }
}

/// The operations on the first `n` of the six high bits of a decomposition
/// at position `start`, with the flag of a value that is not zero behind it:
/// for each bit the bit, the constant false, and the demand that the two are
/// equal under the flag.
pub open spec fn high_bit_ops(start: usize, n: nat) -> Seq<Op>
    decreases n,
{
    if n == 0 {
        Seq::empty()
    } else {
        let j = (n - 1) as nat;
        high_bit_ops(start, j) + seq![
            Op::Bit(start, (248 + j) as usize),
            Op::BoolConstant(false),
            Op::BoolConditionalEnforceEqual(
                (start + 2 + 3 * j) as usize,
                (start + 3 + 3 * j) as usize,
                (start + 1) as usize,
            ),
        ]
    }
}

/// The operations of the range check of the variable `value`, with the flag
/// `value_is_zero`, appended from position `start` on: the decomposition, the
/// negated flag, and the operations on the six high bits.
pub open spec fn range_check_ops(value: usize, value_is_zero: usize, start: usize) -> Seq<Op> {
    seq![Op::ToBitsLe(value), Op::Not(value_is_zero)] + high_bit_ops(start, 6)
}

/// The operations that demand that the variable `value` takes at most 248
/// bits: its 254 bits, and for each of the six from bit 248 on the demand
/// that it is zero unless the value is zero.
pub fn enforce_range_check(c: &mut Circuit, value: usize, value_is_zero: usize)
    requires
        old(c).wf(),
        is_field(old(c).slots(), value as int),
        is_bool(old(c).slots(), value_is_zero as int),
        old(c).boolean(value_is_zero) == (old(c).field(value) == 0),
    ensures
        final(c).wf(),
        extends(final(c).slots(), old(c).slots()),
        final(c).inputs() == old(c).inputs(),
        final(c).holds() == (old(c).holds() && old(c).field(value) < pow2(248)),
        final(c).ops() == old(c).ops() + range_check_ops(
            value,
            value_is_zero,
            old(c).ops().len() as usize,
        ),
{
    let ghost c0 = *c;
    let ghost v = c.field(value);
    let start = c.len();
    let value_bits = c.to_bits_le(value);
    let value_is_non_zero = c.not(value_is_zero);
    let ghost head = seq![Op::ToBitsLe(value), Op::Not(value_is_zero)];
    assert(c.ops() =~= c0.ops() + head + high_bit_ops(start, 0));
    let mut k: usize = MAX_AMOUNT_BITS;
    while k < 254
        invariant
            248 <= k <= 254,
            c.wf(),
            start == c0.ops().len(),
            value_bits == start,
            value_is_non_zero == start + 1,
            head == seq![Op::ToBitsLe(value), Op::Not(value_is_zero)],
            c.ops() == c0.ops() + head + high_bit_ops(start, (k - 248) as nat),
            extends(c.slots(), c0.slots()),
            c.inputs() == c0.inputs(),
            is_bits(c.slots(), value_bits as int),
            c.slots()[value_bits as int] == Slot::Bits(bits_le(v, 254)),
            is_bool(c.slots(), value_is_non_zero as int),
            c.boolean(value_is_non_zero) == (v != 0),
            c.holds() == (c0.holds() && (v != 0 ==> forall|j: int|
                248 <= j < k ==> !(#[trigger] bits_le(v, 254)[j]))),
        decreases 254 - k,
    {
        let ghost before = c.ops();
        proof {
            lemma_run_len(before);
            lemma_high_bit_ops_len(start, (k - 248) as nat);
        }
        let bit = c.bit(value_bits, k);
        let off = c.bool_constant(false);
        c.bool_conditional_enforce_equal(bit, off, value_is_non_zero);
        assert(c.ops() =~= c0.ops() + head + high_bit_ops(start, (k + 1 - 248) as nat));
        k += 1;
    }
    proof {
        lemma_high_bits(v);
        lemma_pow2_pos(248);
        assert(c.ops() =~= c0.ops() + range_check_ops(value, value_is_zero, start));
    }
}

/// The operations on `n` high bits are three for each.
pub proof fn lemma_high_bit_ops_len(start: usize, n: nat)
    ensures
        high_bit_ops(start, n).len() == 3 * n,
    decreases n,
{
    if n > 0 {
        lemma_high_bit_ops_len(start, (n - 1) as nat);
    }
}

/// The positions of the variables that a transaction circuit allocates.
pub struct Wires<const H: usize> {
    pub vortex: usize,
    pub root: usize,
    pub public_amount: usize,
    pub input_nullifiers: [usize; 2],
    pub output_commitments: [usize; 2],
    pub hashed_account_secret: usize,
    pub account_secret: usize,
    pub in_private_keys: [usize; 2],
    pub in_amounts: [usize; 2],
    pub in_blindings: [usize; 2],
    pub in_path_indices: [usize; 2],
    pub merkle_paths: [PathVar<H>; 2],
    pub out_public_keys: [usize; 2],
    pub out_amounts: [usize; 2],
    pub out_blindings: [usize; 2],
}

/// The two positions are field variables with the two values.
#[verifier::opaque]
pub open spec fn carries_two(c: Circuit, ids: Seq<usize>, vals: Seq<nat>) -> bool {
    &&& ids.len() == 2
    &&& vals.len() == 2
    &&& is_field(c.slots(), ids[0] as int)
    &&& is_field(c.slots(), ids[1] as int)
    &&& c.field(ids[0]) == vals[0]
    &&& c.field(ids[1]) == vals[1]
}

/// The position is a field variable with the value.
#[verifier::opaque]
pub open spec fn carries_one(c: Circuit, id: usize, val: nat) -> bool {
    is_field(c.slots(), id as int) && c.field(id) == val
}

/// The entries of the path are field variables with the values.
#[verifier::opaque]
pub open spec fn carries_path<const H: usize>(
    c: Circuit,
    path: PathVar<H>,
    vals: Seq<(nat, nat)>,
) -> bool {
    path.allocated(c) && path.values(c) == vals
}

/// A variable keeps its kind and value when operations are appended.
pub proof fn lemma_one_extends(after: Circuit, before: Circuit, id: usize, val: nat)
    requires
        extends(after.slots(), before.slots()),
        carries_one(before, id, val),
    ensures
        carries_one(after, id, val),
{
    reveal(carries_one);
}

/// Two variables keep their kinds and values when operations are appended.
pub proof fn lemma_two_extends(after: Circuit, before: Circuit, ids: Seq<usize>, vals: Seq<nat>)
    requires
        extends(after.slots(), before.slots()),
        carries_two(before, ids, vals),
    ensures
        carries_two(after, ids, vals),
{
    reveal(carries_two);
}

/// The entries of a path keep their kinds and values when operations are
/// appended.
pub proof fn lemma_path_extends<const H: usize>(
    after: Circuit,
    before: Circuit,
    path: PathVar<H>,
    vals: Seq<(nat, nat)>,
)
    requires
        extends(after.slots(), before.slots()),
        carries_path(before, path, vals),
    ensures
        carries_path(after, path, vals),
{
    reveal(carries_path);
    path.lemma_extends(after, before);
}

/// Every public position is a variable of the circuit with the value that
/// the transaction gives it.
pub open spec fn carries_public<const H: usize>(w: Wires<H>, c: Circuit, v: CircuitValues) -> bool {
    &&& carries_one(c, w.vortex, v.vortex)
    &&& carries_one(c, w.root, v.root)
    &&& carries_one(c, w.public_amount, v.public_amount)
    &&& carries_two(c, w.input_nullifiers@, seq![v.input_nullifier_0, v.input_nullifier_1])
    &&& carries_two(c, w.output_commitments@, seq![v.output_commitment_0, v.output_commitment_1])
    &&& carries_one(c, w.hashed_account_secret, v.hashed_account_secret)
}

/// Every position of an input's witness is a variable of the circuit with
/// the value that the transaction gives it.
pub open spec fn carries_inputs<const H: usize>(w: Wires<H>, c: Circuit, v: CircuitValues) -> bool {
    &&& carries_one(c, w.account_secret, v.account_secret)
    &&& carries_two(c, w.in_private_keys@, v.in_private_keys)
    &&& carries_two(c, w.in_amounts@, v.in_amounts)
    &&& carries_two(c, w.in_blindings@, v.in_blindings)
    &&& carries_two(c, w.in_path_indices@, v.in_path_indices)
    &&& v.merkle_paths.len() == 2
    &&& carries_path(c, w.merkle_paths@[0], v.merkle_paths[0])
    &&& carries_path(c, w.merkle_paths@[1], v.merkle_paths[1])
}

/// Every position of an output's witness is a variable of the circuit with
/// the value that the transaction gives it.
pub open spec fn carries_outputs<const H: usize>(w: Wires<H>, c: Circuit, v: CircuitValues) -> bool {
    &&& carries_two(c, w.out_public_keys@, v.out_public_keys)
    &&& carries_two(c, w.out_amounts@, v.out_amounts)
    &&& carries_two(c, w.out_blindings@, v.out_blindings)
}

impl<const H: usize> Wires<H> {
    /// Every position is a variable of the circuit with the value that the
    /// transaction gives it.
    pub open spec fn carries(&self, c: Circuit, v: CircuitValues) -> bool {
        &&& carries_public(*self, c, v)
        &&& carries_inputs(*self, c, v)
        &&& carries_outputs(*self, c, v)
    }

    /// Variables keep their kinds and values when operations are appended.
    pub proof fn lemma_extends(&self, after: Circuit, before: Circuit, v: CircuitValues)
        requires
            extends(after.slots(), before.slots()),
            self.carries(before, v),
        ensures
            self.carries(after, v),
    {
        lemma_one_extends(after, before, self.vortex, v.vortex);
        lemma_one_extends(after, before, self.root, v.root);
        lemma_one_extends(after, before, self.public_amount, v.public_amount);
        lemma_two_extends(
            after,
            before,
            self.input_nullifiers@,
            seq![v.input_nullifier_0, v.input_nullifier_1],
        );
        lemma_two_extends(
            after,
            before,
            self.output_commitments@,
            seq![v.output_commitment_0, v.output_commitment_1],
        );
        lemma_one_extends(after, before, self.hashed_account_secret, v.hashed_account_secret);
        lemma_one_extends(after, before, self.account_secret, v.account_secret);
        lemma_two_extends(after, before, self.in_private_keys@, v.in_private_keys);
        lemma_two_extends(after, before, self.in_amounts@, v.in_amounts);
        lemma_two_extends(after, before, self.in_blindings@, v.in_blindings);
        lemma_two_extends(after, before, self.in_path_indices@, v.in_path_indices);
        lemma_path_extends(after, before, self.merkle_paths@[0], v.merkle_paths[0]);
        lemma_path_extends(after, before, self.merkle_paths@[1], v.merkle_paths[1]);
        lemma_two_extends(after, before, self.out_public_keys@, v.out_public_keys);
        lemma_two_extends(after, before, self.out_amounts@, v.out_amounts);
        lemma_two_extends(after, before, self.out_blindings@, v.out_blindings);
    }
}

/// The amounts of a transaction are field elements.
pub open spec fn amounts_reduced(v: CircuitValues) -> bool {
    &&& v.in_amounts.len() == 2
    &&& v.out_amounts.len() == 2
    &&& v.in_amounts[0] < modulus()
    &&& v.in_amounts[1] < modulus()
    &&& v.out_amounts[0] < modulus()
    &&& v.out_amounts[1] < modulus()
    &&& v.public_amount < modulus()
}

/// The slots that the eight public inputs leave, in their fixed order.
pub open spec fn input_slots(v: CircuitValues) -> Seq<Slot> {
    Seq::new(8, |k: int| Slot::Input(public_input_values(v)[k]))
}

/// The slots that two witnesses leave.
pub open spec fn pair_slots(vals: Seq<nat>) -> Seq<Slot> {
    seq![Slot::Field(vals[0]), Slot::Field(vals[1])]
}

/// The slots that the witnesses of the inputs leave: the account secret,
/// then the two private keys, amounts, blindings and path indices, then the
/// two paths.
pub open spec fn spend_slots(v: CircuitValues) -> Seq<Slot> {
    seq![Slot::Field(v.account_secret)] + pair_slots(v.in_private_keys) + pair_slots(
        v.in_amounts,
    ) + pair_slots(v.in_blindings) + pair_slots(v.in_path_indices) + path_slots(
        v.merkle_paths[0],
    ) + path_slots(v.merkle_paths[1])
}

/// The slots that the witnesses of the outputs leave: the two public keys,
/// amounts and blindings.
pub open spec fn mint_slots(v: CircuitValues) -> Seq<Slot> {
    pair_slots(v.out_public_keys) + pair_slots(v.out_amounts) + pair_slots(v.out_blindings)
}

/// The slots that the allocation of a transaction leaves: the public inputs
/// first, then the witnesses of the inputs, then those of the outputs.
pub open spec fn allocation_slots(v: CircuitValues) -> Seq<Slot> {
    input_slots(v) + spend_slots(v) + mint_slots(v)
}

/// The operations that allocate two witnesses.
pub open spec fn pair_ops(vals: Seq<Fr>) -> Seq<Op> {
    seq![Op::Witness(vals[0]), Op::Witness(vals[1])]
}

/// The positions of two variables allocated one after the other from
/// position `start` on.
pub open spec fn pair_positions(start: nat) -> Seq<usize> {
    seq![start as usize, (start + 1) as usize]
}

/// The operations that allocate the eight public inputs of a transaction.
pub open spec fn input_ops<const H: usize>(tx: TransactionCircuit<H>) -> Seq<Op> {
    seq![
        Op::Input(tx.vortex),
        Op::Input(tx.root),
        Op::Input(tx.public_amount),
        Op::Input(tx.input_nullifier_0),
        Op::Input(tx.input_nullifier_1),
        Op::Input(tx.output_commitment_0),
        Op::Input(tx.output_commitment_1),
        Op::Input(tx.hashed_account_secret),
    ]
}

/// The operations that allocate the witnesses of the inputs.
pub open spec fn spend_ops<const H: usize>(tx: TransactionCircuit<H>) -> Seq<Op> {
    seq![Op::Witness(tx.account_secret)] + pair_ops(tx.in_private_keys@) + pair_ops(
        tx.in_amounts@,
    ) + pair_ops(tx.in_blindings@) + pair_ops(tx.in_path_indices@) + path_witness_ops(
        tx.merkle_paths@[0].path@,
    ) + path_witness_ops(tx.merkle_paths@[1].path@)
}

/// The operations that allocate the witnesses of the outputs.
pub open spec fn mint_ops<const H: usize>(tx: TransactionCircuit<H>) -> Seq<Op> {
    pair_ops(tx.out_public_keys@) + pair_ops(tx.out_amounts@) + pair_ops(tx.out_blindings@)
}

/// The operations that allocate the variables of a transaction: the public
/// inputs first, then the witnesses of the inputs, then those of the outputs.
/// They differ between two transactions in the values only.
pub open spec fn allocation_ops<const H: usize>(tx: TransactionCircuit<H>) -> Seq<Op> {
    input_ops(tx) + spend_ops(tx) + mint_ops(tx)
}

/// The positions of the variables of a transaction, as numbers.
pub struct Positions {
    pub vortex: usize,
    pub root: usize,
    pub public_amount: usize,
    pub input_nullifiers: Seq<usize>,
    pub output_commitments: Seq<usize>,
    pub hashed_account_secret: usize,
    pub account_secret: usize,
    pub in_private_keys: Seq<usize>,
    pub in_amounts: Seq<usize>,
    pub in_blindings: Seq<usize>,
    pub in_path_indices: Seq<usize>,
    pub merkle_paths: Seq<Seq<(usize, usize)>>,
    pub out_public_keys: Seq<usize>,
    pub out_amounts: Seq<usize>,
    pub out_blindings: Seq<usize>,
}

/// The positions of the variables of a transaction for a tree of height
/// `height` that is allocated from position `start` on.
pub open spec fn positions_at(start: nat, height: nat) -> Positions {
    Positions {
        vortex: start as usize,
        root: (start + 1) as usize,
        public_amount: (start + 2) as usize,
        input_nullifiers: pair_positions(start + 3),
        output_commitments: pair_positions(start + 5),
        hashed_account_secret: (start + 7) as usize,
        account_secret: (start + 8) as usize,
        in_private_keys: pair_positions(start + 9),
        in_amounts: pair_positions(start + 11),
        in_blindings: pair_positions(start + 13),
        in_path_indices: pair_positions(start + 15),
        merkle_paths: seq![
            path_positions(start + 17, height),
            path_positions(start + 17 + 2 * height, height),
        ],
        out_public_keys: pair_positions(start + 17 + 4 * height),
        out_amounts: pair_positions(start + 19 + 4 * height),
        out_blindings: pair_positions(start + 21 + 4 * height),
    }
}

impl<const H: usize> Wires<H> {
    /// The positions as numbers.
    pub open spec fn positions(&self) -> Positions {
        Positions {
            vortex: self.vortex,
            root: self.root,
            public_amount: self.public_amount,
            input_nullifiers: self.input_nullifiers@,
            output_commitments: self.output_commitments@,
            hashed_account_secret: self.hashed_account_secret,
            account_secret: self.account_secret,
            in_private_keys: self.in_private_keys@,
            in_amounts: self.in_amounts@,
            in_blindings: self.in_blindings@,
            in_path_indices: self.in_path_indices@,
            merkle_paths: seq![self.merkle_paths@[0].ids(), self.merkle_paths@[1].ids()],
            out_public_keys: self.out_public_keys@,
            out_amounts: self.out_amounts@,
            out_blindings: self.out_blindings@,
        }
    }
}

/// Allocates a public input.
fn input_one(c: &mut Circuit, val: &Fr) -> (r: usize)
    requires
        old(c).wf(),
    ensures
        final(c).wf(),
        extends(final(c).slots(), old(c).slots()),
        final(c).holds() == old(c).holds(),
        final(c).inputs() == old(c).inputs().push(val@),
        final(c).slots() == old(c).slots().push(Slot::Input(val@)),
        final(c).ops() == old(c).ops().push(Op::Input(*val)),
        r == old(c).ops().len(),
        carries_one(*final(c), r, val@),
{
    reveal(carries_one);
    c.input(*val)
}

/// Allocates a private witness.
fn witness_one(c: &mut Circuit, val: &Fr) -> (r: usize)
    requires
        old(c).wf(),
    ensures
        final(c).continues(*old(c)),
        final(c).slots() == old(c).slots().push(Slot::Field(val@)),
        final(c).ops() == old(c).ops().push(Op::Witness(*val)),
        r == old(c).ops().len(),
        carries_one(*final(c), r, val@),
{
    reveal(carries_one);
    c.witness(*val)
}

/// Allocates two private witnesses.
fn witness_pair(c: &mut Circuit, vals: &[Fr; 2]) -> (r: [usize; 2])
    requires
        old(c).wf(),
    ensures
        final(c).continues(*old(c)),
        final(c).slots() == old(c).slots() + pair_slots(crate::field::values(vals@)),
        final(c).ops() == old(c).ops() + pair_ops(vals@),
        r@ == pair_positions(old(c).ops().len()),
        carries_two(*final(c), r@, crate::field::values(vals@)),
{
    reveal(carries_two);
    let ghost before = c.slots();
    let ghost ops_before = c.ops();
    let a = c.witness(vals[0]);
    let b = c.witness(vals[1]);
    assert(c.slots() =~= before + pair_slots(crate::field::values(vals@)));
    assert(c.ops() =~= ops_before + pair_ops(vals@));
    let r = [a, b];
    assert(r@ =~= pair_positions(ops_before.len()));
    r
}

/// Allocates the entries of a path as private witnesses.
fn witness_path<const H: usize>(c: &mut Circuit, path: &crate::merkle_tree::Path<H>) -> (r:
    PathVar<H>)
    requires
        old(c).wf(),
    ensures
        final(c).continues(*old(c)),
        final(c).slots() == old(c).slots() + path_slots(path@),
        final(c).ops() == old(c).ops() + path_witness_ops(path.path@),
        r.ids() == path_positions(old(c).ops().len(), H as nat),
        carries_path(*final(c), r, path@),
{
    reveal(carries_path);
    PathVar::new_witness(c, path)
}

/// The positions of the eight public inputs.
struct PublicWires {
    vortex: usize,
    root: usize,
    public_amount: usize,
    input_nullifiers: [usize; 2],
    output_commitments: [usize; 2],
    hashed_account_secret: usize,
}

/// Allocates the eight public inputs in their fixed order.
fn allocate_public<const H: usize>(tx: &TransactionCircuit<H>, c: &mut Circuit) -> (p: PublicWires)
    requires
        old(c).wf(),
    ensures
        final(c).wf(),
        extends(final(c).slots(), old(c).slots()),
        final(c).holds() == old(c).holds(),
        final(c).inputs() == old(c).inputs() + public_input_values(tx@),
        final(c).slots() == old(c).slots() + input_slots(tx@),
        final(c).ops() == old(c).ops() + input_ops(*tx),
        p.vortex == old(c).ops().len(),
        p.root == old(c).ops().len() + 1,
        p.public_amount == old(c).ops().len() + 2,
        p.input_nullifiers@ == pair_positions(old(c).ops().len() + 3),
        p.output_commitments@ == pair_positions(old(c).ops().len() + 5),
        p.hashed_account_secret == old(c).ops().len() + 7,
        carries_one(*final(c), p.vortex, tx@.vortex),
        carries_one(*final(c), p.root, tx@.root),
        carries_one(*final(c), p.public_amount, tx@.public_amount),
        carries_two(
            *final(c),
            p.input_nullifiers@,
            seq![tx@.input_nullifier_0, tx@.input_nullifier_1],
        ),
        carries_two(
            *final(c),
            p.output_commitments@,
            seq![tx@.output_commitment_0, tx@.output_commitment_1],
        ),
        carries_one(*final(c), p.hashed_account_secret, tx@.hashed_account_secret),
{
    let ghost v = tx@;
    let ghost c0 = *c;
    let vortex = input_one(c, &tx.vortex);
    let ghost c1 = *c;
    let root = input_one(c, &tx.root);
    let ghost c2 = *c;
    let public_amount = input_one(c, &tx.public_amount);
    let ghost c3 = *c;
    let input_nullifier_0 = input_one(c, &tx.input_nullifier_0);
    let ghost c4 = *c;
    let input_nullifier_1 = input_one(c, &tx.input_nullifier_1);
    let ghost c5 = *c;
    let output_commitment_0 = input_one(c, &tx.output_commitment_0);
    let ghost c6 = *c;
    let output_commitment_1 = input_one(c, &tx.output_commitment_1);
    let ghost c7 = *c;
    let hashed_account_secret = input_one(c, &tx.hashed_account_secret);
    let p = PublicWires {
        vortex,
        root,
        public_amount,
        input_nullifiers: [input_nullifier_0, input_nullifier_1],
        output_commitments: [output_commitment_0, output_commitment_1],
        hashed_account_secret,
    };
    proof {
        assert(c.inputs() =~= c0.inputs() + public_input_values(v));
        assert(c.slots() =~= c0.slots() + input_slots(v));
        assert(c.ops() =~= c0.ops() + input_ops(*tx));
        assert(p.input_nullifiers@ =~= pair_positions(c0.ops().len() + 3));
        assert(p.output_commitments@ =~= pair_positions(c0.ops().len() + 5));
        assert(extends(c.slots(), c1.slots()));
        assert(extends(c.slots(), c2.slots()));
        assert(extends(c.slots(), c3.slots()));
        assert(extends(c.slots(), c4.slots()));
        assert(extends(c.slots(), c5.slots()));
        assert(extends(c.slots(), c6.slots()));
        assert(extends(c.slots(), c7.slots()));
        lemma_one_extends(*c, c1, vortex, v.vortex);
        lemma_one_extends(*c, c2, root, v.root);
        lemma_one_extends(*c, c3, public_amount, v.public_amount);
        lemma_one_extends(*c, c4, input_nullifier_0, v.input_nullifier_0);
        lemma_one_extends(*c, c5, input_nullifier_1, v.input_nullifier_1);
        lemma_one_extends(*c, c6, output_commitment_0, v.output_commitment_0);
        lemma_one_extends(*c, c7, output_commitment_1, v.output_commitment_1);
        reveal(carries_one);
        reveal(carries_two);
    }
    p
}

/// The positions of the witnesses of the inputs.
struct SpendWires<const H: usize> {
    account_secret: usize,
    in_private_keys: [usize; 2],
    in_amounts: [usize; 2],
    in_blindings: [usize; 2],
    in_path_indices: [usize; 2],
    merkle_paths: [PathVar<H>; 2],
}

/// The positions of the witnesses of the inputs that are single elements.
struct ScalarWires {
    account_secret: usize,
    in_private_keys: [usize; 2],
    in_amounts: [usize; 2],
    in_blindings: [usize; 2],
    in_path_indices: [usize; 2],
}

/// The operations that allocate the account secret and the two private keys,
/// amounts, blindings and path indices.
pub open spec fn scalar_ops<const H: usize>(tx: TransactionCircuit<H>) -> Seq<Op> {
    seq![Op::Witness(tx.account_secret)] + pair_ops(tx.in_private_keys@) + pair_ops(
        tx.in_amounts@,
    ) + pair_ops(tx.in_blindings@) + pair_ops(tx.in_path_indices@)
}

/// The slots that those operations leave.
pub open spec fn scalar_slots(v: CircuitValues) -> Seq<Slot> {
    seq![Slot::Field(v.account_secret)] + pair_slots(v.in_private_keys) + pair_slots(
        v.in_amounts,
    ) + pair_slots(v.in_blindings) + pair_slots(v.in_path_indices)
}

/// Allocates the account secret, then the two private keys, amounts,
/// blindings and path indices.
fn allocate_scalars<const H: usize>(tx: &TransactionCircuit<H>, c: &mut Circuit) -> (w:
    ScalarWires)
    requires
        old(c).wf(),
    ensures
        final(c).continues(*old(c)),
        final(c).slots() == old(c).slots() + scalar_slots(tx@),
        final(c).ops() == old(c).ops() + scalar_ops(*tx),
        final(c).ops().len() == old(c).ops().len() + 9,
        w.account_secret == old(c).ops().len(),
        w.in_private_keys@ == pair_positions(old(c).ops().len() + 1),
        w.in_amounts@ == pair_positions(old(c).ops().len() + 3),
        w.in_blindings@ == pair_positions(old(c).ops().len() + 5),
        w.in_path_indices@ == pair_positions(old(c).ops().len() + 7),
        carries_one(*final(c), w.account_secret, tx@.account_secret),
        carries_two(*final(c), w.in_private_keys@, tx@.in_private_keys),
        carries_two(*final(c), w.in_amounts@, tx@.in_amounts),
        carries_two(*final(c), w.in_blindings@, tx@.in_blindings),
        carries_two(*final(c), w.in_path_indices@, tx@.in_path_indices),
{
    let ghost v = tx@;
    let ghost c0 = *c;
    let account_secret = witness_one(c, &tx.account_secret);
    let ghost c1 = *c;
    let in_private_keys = witness_pair(c, &tx.in_private_keys);
    let ghost c2 = *c;
    let in_amounts = witness_pair(c, &tx.in_amounts);
    let ghost c3 = *c;
    let in_blindings = witness_pair(c, &tx.in_blindings);
    let ghost c4 = *c;
    let in_path_indices = witness_pair(c, &tx.in_path_indices);
    proof {
        assert(c.ops() =~= c0.ops() + scalar_ops(*tx));
        assert(c.slots() =~= c0.slots() + scalar_slots(v));
        assert(extends(c.slots(), c1.slots()));
        assert(extends(c.slots(), c2.slots()));
        assert(extends(c.slots(), c3.slots()));
        assert(extends(c.slots(), c4.slots()));
        lemma_one_extends(*c, c1, account_secret, v.account_secret);
        lemma_two_extends(*c, c2, in_private_keys@, v.in_private_keys);
        lemma_two_extends(*c, c3, in_amounts@, v.in_amounts);
        lemma_two_extends(*c, c4, in_blindings@, v.in_blindings);
    }
    ScalarWires { account_secret, in_private_keys, in_amounts, in_blindings, in_path_indices }
}

/// Allocates the witnesses of the inputs: the account secret, then the two
/// private keys, amounts, blindings and path indices, then the two paths.
fn allocate_spends<const H: usize>(tx: &TransactionCircuit<H>, c: &mut Circuit) -> (w: SpendWires<
    H,
>)
    requires
        old(c).wf(),
    ensures
        final(c).continues(*old(c)),
        final(c).slots() == old(c).slots() + spend_slots(tx@),
        final(c).ops() == old(c).ops() + spend_ops(*tx),
        final(c).ops().len() == old(c).ops().len() + 9 + 4 * H,
        w.account_secret == old(c).ops().len(),
        w.in_private_keys@ == pair_positions(old(c).ops().len() + 1),
        w.in_amounts@ == pair_positions(old(c).ops().len() + 3),
        w.in_blindings@ == pair_positions(old(c).ops().len() + 5),
        w.in_path_indices@ == pair_positions(old(c).ops().len() + 7),
        w.merkle_paths@[0].ids() == path_positions(old(c).ops().len() + 9, H as nat),
        w.merkle_paths@[1].ids() == path_positions(
            (old(c).ops().len() + 9 + 2 * H) as nat,
            H as nat,
        ),
        carries_one(*final(c), w.account_secret, tx@.account_secret),
        carries_two(*final(c), w.in_private_keys@, tx@.in_private_keys),
        carries_two(*final(c), w.in_amounts@, tx@.in_amounts),
        carries_two(*final(c), w.in_blindings@, tx@.in_blindings),
        carries_two(*final(c), w.in_path_indices@, tx@.in_path_indices),
        carries_path(*final(c), w.merkle_paths@[0], tx@.merkle_paths[0]),
        carries_path(*final(c), w.merkle_paths@[1], tx@.merkle_paths[1]),
{
    let ghost v = tx@;
    let ghost c0 = *c;
    let s = allocate_scalars(tx, c);
    let ghost c1 = *c;
    let path_0 = witness_path(c, &tx.merkle_paths[0]);
    let ghost c2 = *c;
    let path_1 = witness_path(c, &tx.merkle_paths[1]);
    proof {
        let first = path_witness_ops(tx.merkle_paths@[0].path@);
        let second = path_witness_ops(tx.merkle_paths@[1].path@);
        assert(spend_ops(*tx) =~= scalar_ops(*tx) + first + second);
        assert(c.ops() =~= c0.ops() + (scalar_ops(*tx) + first + second));
        assert(spend_slots(v) =~= scalar_slots(v) + path_slots(v.merkle_paths[0]) + path_slots(
            v.merkle_paths[1],
        ));
        assert(c.slots() =~= c0.slots() + (scalar_slots(v) + path_slots(v.merkle_paths[0])
            + path_slots(v.merkle_paths[1])));
        assert(extends(c.slots(), c1.slots()));
        assert(extends(c.slots(), c2.slots()));
        lemma_one_extends(*c, c1, s.account_secret, v.account_secret);
        lemma_two_extends(*c, c1, s.in_private_keys@, v.in_private_keys);
        lemma_two_extends(*c, c1, s.in_amounts@, v.in_amounts);
        lemma_two_extends(*c, c1, s.in_blindings@, v.in_blindings);
        lemma_two_extends(*c, c1, s.in_path_indices@, v.in_path_indices);
        lemma_path_extends(*c, c2, path_0, v.merkle_paths[0]);
    }
    SpendWires {
        account_secret: s.account_secret,
        in_private_keys: s.in_private_keys,
        in_amounts: s.in_amounts,
        in_blindings: s.in_blindings,
        in_path_indices: s.in_path_indices,
        merkle_paths: [path_0, path_1],
    }
}

/// The positions of the witnesses of the outputs.
struct MintWires {
    out_public_keys: [usize; 2],
    out_amounts: [usize; 2],
    out_blindings: [usize; 2],
}

/// Allocates the witnesses of the outputs: the two public keys, amounts and
/// blindings.
fn allocate_mints<const H: usize>(tx: &TransactionCircuit<H>, c: &mut Circuit) -> (w: MintWires)
    requires
        old(c).wf(),
    ensures
        final(c).continues(*old(c)),
        final(c).slots() == old(c).slots() + mint_slots(tx@),
        final(c).ops() == old(c).ops() + mint_ops(*tx),
        w.out_public_keys@ == pair_positions(old(c).ops().len()),
        w.out_amounts@ == pair_positions(old(c).ops().len() + 2),
        w.out_blindings@ == pair_positions(old(c).ops().len() + 4),
        carries_two(*final(c), w.out_public_keys@, tx@.out_public_keys),
        carries_two(*final(c), w.out_amounts@, tx@.out_amounts),
        carries_two(*final(c), w.out_blindings@, tx@.out_blindings),
{
    let ghost v = tx@;
    let ghost c0 = *c;
    let out_public_keys = witness_pair(c, &tx.out_public_keys);
    let ghost c1 = *c;
    let out_amounts = witness_pair(c, &tx.out_amounts);
    let ghost c2 = *c;
    let out_blindings = witness_pair(c, &tx.out_blindings);
    proof {
        assert(c.ops() =~= c0.ops() + mint_ops(*tx));
        assert(c.slots() =~= c0.slots() + mint_slots(v));
        assert(extends(c.slots(), c1.slots()));
        assert(extends(c.slots(), c2.slots()));
        lemma_two_extends(*c, c1, out_public_keys@, v.out_public_keys);
        lemma_two_extends(*c, c2, out_amounts@, v.out_amounts);
    }
    MintWires { out_public_keys, out_amounts, out_blindings }
}

/// Allocates the variables of a transaction: the eight public inputs in
/// their fixed order, then the witnesses.
fn allocate<const H: usize>(tx: &TransactionCircuit<H>, c: &mut Circuit) -> (w: Wires<H>)
    requires
        old(c).wf(),
    ensures
        final(c).wf(),
        extends(final(c).slots(), old(c).slots()),
        final(c).holds() == old(c).holds(),
        final(c).inputs() == old(c).inputs() + public_input_values(tx@),
        final(c).slots() == old(c).slots() + allocation_slots(tx@),
        final(c).ops() == old(c).ops() + allocation_ops(*tx),
        w.positions() == positions_at(old(c).ops().len(), H as nat),
        w.carries(*final(c), tx@),
        amounts_reduced(tx@),
{
    let ghost v = tx@;
    let ghost c0 = *c;
    let p = allocate_public(tx, c);
    let ghost c1 = *c;
    let s = allocate_spends(tx, c);
    let ghost c2 = *c;
    let m = allocate_mints(tx, c);
    let w = Wires {
        vortex: p.vortex,
        root: p.root,
        public_amount: p.public_amount,
        input_nullifiers: p.input_nullifiers,
        output_commitments: p.output_commitments,
        hashed_account_secret: p.hashed_account_secret,
        account_secret: s.account_secret,
        in_private_keys: s.in_private_keys,
        in_amounts: s.in_amounts,
        in_blindings: s.in_blindings,
        in_path_indices: s.in_path_indices,
        merkle_paths: s.merkle_paths,
        out_public_keys: m.out_public_keys,
        out_amounts: m.out_amounts,
        out_blindings: m.out_blindings,
    };
    let a0 = tx.in_amounts[0];
    let a1 = tx.in_amounts[1];
    let o0 = tx.out_amounts[0];
    let o1 = tx.out_amounts[1];
    let pa = tx.public_amount;
    proof {
        use_type_invariant(&a0);
        use_type_invariant(&a1);
        use_type_invariant(&o0);
        use_type_invariant(&o1);
        use_type_invariant(&pa);
        assert(c.slots() =~= c0.slots() + allocation_slots(v));
        assert(c.ops() =~= c0.ops() + allocation_ops(*tx));
        assert(input_ops(*tx).len() == 8);
        assert(w.positions().merkle_paths =~= positions_at(c0.ops().len(), H as nat).merkle_paths);
        assert(extends(c.slots(), c0.slots()));
        assert(extends(c.slots(), c1.slots()));
        assert(extends(c.slots(), c2.slots()));
        lemma_one_extends(*c, c1, p.vortex, v.vortex);
        lemma_one_extends(*c, c1, p.root, v.root);
        lemma_one_extends(*c, c1, p.public_amount, v.public_amount);
        lemma_two_extends(
            *c,
            c1,
            p.input_nullifiers@,
            seq![v.input_nullifier_0, v.input_nullifier_1],
        );
        lemma_two_extends(
            *c,
            c1,
            p.output_commitments@,
            seq![v.output_commitment_0, v.output_commitment_1],
        );
        lemma_one_extends(*c, c1, p.hashed_account_secret, v.hashed_account_secret);
        lemma_one_extends(*c, c2, s.account_secret, v.account_secret);
        lemma_two_extends(*c, c2, s.in_private_keys@, v.in_private_keys);
        lemma_two_extends(*c, c2, s.in_amounts@, v.in_amounts);
        lemma_two_extends(*c, c2, s.in_blindings@, v.in_blindings);
        lemma_two_extends(*c, c2, s.in_path_indices@, v.in_path_indices);
        lemma_path_extends(*c, c2, s.merkle_paths@[0], v.merkle_paths[0]);
        lemma_path_extends(*c, c2, s.merkle_paths@[1], v.merkle_paths[1]);
    }
    w
}

/// The program behind the derivation of a note that is spent, and the
/// positions of its commitment and its nullifier: the public key, the
/// commitment, the signature and the nullifier, each a hash.
pub open spec fn note_prog(
    p: Seq<Op>,
    private_key: usize,
    amount: usize,
    blinding: usize,
    path_index: usize,
    vortex: usize,
) -> (Seq<Op>, usize, usize) {
    let key = hash_prog(params_t2(), p, seq![private_key]);
    let note = hash_prog(params_t5(), key.0, seq![amount, key.1, blinding, vortex]);
    let sig = hash_prog(params_t4(), note.0, seq![private_key, note.1, path_index]);
    let nul = hash_prog(params_t4(), sig.0, seq![note.1, path_index, sig.1]);
    (nul.0, note.1, nul.1)
}

/// The program behind the spending of one note, and the position of the sum
/// with its amount added.
pub open spec fn spend_note_prog(
    p: Seq<Op>,
    private_key: usize,
    amount: usize,
    blinding: usize,
    path_index: usize,
    path: Seq<(usize, usize)>,
    vortex: usize,
    root: usize,
    public_nullifier: usize,
    zero: usize,
    sum: usize,
) -> (Seq<Op>, usize) {
    let note = note_prog(p, private_key, amount, blinding, path_index, vortex);
    let is_zero = (note.0.len() + 1) as usize;
    let ops1 = note.0.push(Op::EnforceEqual(note.2, public_nullifier)).push(Op::IsEq(amount, zero));
    let ops2 = ops1 + range_check_ops(amount, is_zero, ops1.len() as usize);
    let member = check_membership_prog(params_t3(), ops2, path, root, note.1);
    (
        member.0.push(Op::Not(is_zero)).push(Op::BoolConstant(true)).push(
            Op::BoolConditionalEnforceEqual(
                member.1,
                (member.0.len() + 1) as usize,
                member.0.len() as usize,
            ),
        ).push(Op::Add(sum, amount)),
        (member.0.len() + 3) as usize,
    )
}

/// The program behind the creation of one note, and the position of the sum
/// with its amount added.
pub open spec fn mint_note_prog(
    p: Seq<Op>,
    amount: usize,
    public_key: usize,
    blinding: usize,
    vortex: usize,
    public_commitment: usize,
    zero: usize,
    sum: usize,
) -> (Seq<Op>, usize) {
    let note = hash_prog(params_t5(), p, seq![amount, public_key, blinding, vortex]);
    let ops1 = note.0.push(Op::EnforceEqual(note.1, public_commitment)).push(
        Op::IsEq(amount, zero),
    );
    let ops2 = ops1 + range_check_ops(amount, (note.0.len() + 1) as usize, ops1.len() as usize);
    (ops2.push(Op::Add(sum, amount)), ops2.len() as usize)
}

/// The program behind the binding of the account.
pub open spec fn bind_account_prog(p: Seq<Op>, w: Positions, zero: usize) -> Seq<Op> {
    let expected = hash_prog(params_t2(), p, seq![w.account_secret]);
    expected.0.push(Op::IsEq(w.hashed_account_secret, zero)).push(
        Op::Not(expected.0.len() as usize),
    ).push(
        Op::ConditionalEnforceEqual(
            expected.1,
            w.hashed_account_secret,
            (expected.0.len() + 1) as usize,
        ),
    )
}

/// The program behind the spending of the first `n` input notes, from the
/// constant zero as sum on, and the position of the sum.
pub open spec fn spend_notes_prog(p: Seq<Op>, w: Positions, zero: usize, n: nat) -> (
    Seq<Op>,
    usize,
)
    decreases n,
{
    if n == 0 {
        (p.push(Op::Constant(Fr::spec_zero())), p.len() as usize)
    } else {
        let before = spend_notes_prog(p, w, zero, (n - 1) as nat);
        spend_note_prog(
            before.0,
            w.in_private_keys[n - 1],
            w.in_amounts[n - 1],
            w.in_blindings[n - 1],
            w.in_path_indices[n - 1],
            w.merkle_paths[n - 1],
            w.vortex,
            w.root,
            w.input_nullifiers[n - 1],
            zero,
            before.1,
        )
    }
}

/// The program behind the creation of the first `n` output notes, from the
/// constant zero as sum on, and the position of the sum.
pub open spec fn mint_notes_prog(p: Seq<Op>, w: Positions, zero: usize, n: nat) -> (
    Seq<Op>,
    usize,
)
    decreases n,
{
    if n == 0 {
        (p.push(Op::Constant(Fr::spec_zero())), p.len() as usize)
    } else {
        let before = mint_notes_prog(p, w, zero, (n - 1) as nat);
        mint_note_prog(
            before.0,
            w.out_amounts[n - 1],
            w.out_public_keys[n - 1],
            w.out_blindings[n - 1],
            w.vortex,
            w.output_commitments[n - 1],
            zero,
            before.1,
        )
    }
}

/// The program behind the two demands on the whole transaction.
pub open spec fn close_prog(p: Seq<Op>, w: Positions, sum_ins: usize, sum_outs: usize) -> Seq<Op> {
    p.push(Op::EnforceNotEqual(w.input_nullifiers[0], w.input_nullifiers[1])).push(
        Op::Add(sum_ins, w.public_amount),
    ).push(Op::EnforceEqual((p.len() + 1) as usize, sum_outs))
}

/// The program of a transaction behind its allocation: the operations
/// depend on the program before and on the positions of the variables, not
/// on any value that a variable carries.
pub open spec fn statement_prog(p: Seq<Op>, w: Positions) -> Seq<Op> {
    let zero = p.len() as usize;
    let bound = bind_account_prog(p.push(Op::Constant(Fr::spec_zero())), w, zero);
    let spent = spend_notes_prog(bound, w, zero, 2);
    let minted = mint_notes_prog(spent.0, w, zero, 2);
    close_prog(minted.0, w, spent.1, minted.1)
}

/// The whole program of a transaction for a tree of height `H` behind
/// the program `p`: the allocation, which carries the values, and the
/// program of the statement on the positions that the allocation gives.
pub open spec fn transaction_prog<const H: usize>(tx: TransactionCircuit<H>, p: Seq<Op>) -> Seq<
    Op,
> {
    statement_prog(p + allocation_ops(tx), positions_at(p.len(), H as nat))
}

/// The operations that derive a note that is spent: its public key,
/// commitment, signature and nullifier.
fn derive_note(
    c: &mut Circuit,
    hasher_t2: &PoseidonOptimizedVar,
    hasher_t4: &PoseidonOptimizedVar,
    hasher_t5: &PoseidonOptimizedVar,
    private_key: usize,
    amount: usize,
    blinding: usize,
    path_index: usize,
    vortex: usize,
) -> (r: (usize, usize))
    requires
        old(c).wf(),
        hasher_t2.wf() && hasher_t2.t == 2 && hasher_t2@ == params_t2(),
        hasher_t4.wf() && hasher_t4.t == 4 && hasher_t4@ == params_t4(),
        hasher_t5.wf() && hasher_t5.t == 5 && hasher_t5@ == params_t5(),
        is_field(old(c).slots(), private_key as int),
        is_field(old(c).slots(), amount as int),
        is_field(old(c).slots(), blinding as int),
        is_field(old(c).slots(), path_index as int),
        is_field(old(c).slots(), vortex as int),
    ensures
        final(c).continues(*old(c)),
        is_field(final(c).slots(), r.0 as int),
        is_field(final(c).slots(), r.1 as int),
        final(c).field(r.0) == commitment(
            old(c).field(amount),
            public_key(old(c).field(private_key)),
            old(c).field(blinding),
            old(c).field(vortex),
        ),
        final(c).field(r.1) == nullifier(
            old(c).field(private_key),
            final(c).field(r.0),
            old(c).field(path_index),
        ),
        (final(c).ops(), r.0, r.1) == note_prog(
            old(c).ops(),
            private_key,
            amount,
            blinding,
            path_index,
            vortex,
        ),
{
    let ghost c0 = *c;
    let public_key = hasher_t2.hash1(c, private_key);
    let commitment = hasher_t5.hash4(c, amount, public_key, blinding, vortex);
    let ghost c1 = *c;
    assert(extends(c1.slots(), c0.slots()));
    let signature = hasher_t4.hash3(c, private_key, commitment, path_index);
    let ghost c2 = *c;
    assert(extends(c2.slots(), c0.slots()));
    let nullifier = hasher_t4.hash3(c, commitment, path_index, signature);
    assert(extends(c.slots(), c1.slots()));
    (commitment, nullifier)
}

/// The operations that spend one note: its derivation, the demand that the
/// nullifier is the public one, the range check of the amount, and the
/// demand that the commitment lies under the root unless the amount is zero.
/// Gives the sum with the amount added.
fn spend_note<const H: usize>(
    c: &mut Circuit,
    hasher_t2: &PoseidonOptimizedVar,
    hasher_t3: &PoseidonOptimizedVar,
    hasher_t4: &PoseidonOptimizedVar,
    hasher_t5: &PoseidonOptimizedVar,
    private_key: usize,
    amount: usize,
    blinding: usize,
    path_index: usize,
    path: &PathVar<H>,
    vortex: usize,
    root: usize,
    public_nullifier: usize,
    zero: usize,
    sum: usize,
) -> (r: usize)
    requires
        old(c).wf(),
        hasher_t2.wf() && hasher_t2.t == 2 && hasher_t2@ == params_t2(),
        hasher_t3.wf() && hasher_t3.t == 3 && hasher_t3@ == params_t3(),
        hasher_t4.wf() && hasher_t4.t == 4 && hasher_t4@ == params_t4(),
        hasher_t5.wf() && hasher_t5.t == 5 && hasher_t5@ == params_t5(),
        is_field(old(c).slots(), private_key as int),
        is_field(old(c).slots(), amount as int),
        is_field(old(c).slots(), blinding as int),
        is_field(old(c).slots(), path_index as int),
        is_field(old(c).slots(), vortex as int),
        is_field(old(c).slots(), root as int),
        is_field(old(c).slots(), public_nullifier as int),
        is_field(old(c).slots(), zero as int),
        is_field(old(c).slots(), sum as int),
        path.allocated(*old(c)),
        old(c).field(zero) == 0,
    ensures
        final(c).wf(),
        extends(final(c).slots(), old(c).slots()),
        final(c).inputs() == old(c).inputs(),
        is_field(final(c).slots(), r as int),
        final(c).field(r) == (old(c).field(sum) + old(c).field(amount)) % modulus(),
        final(c).holds() == (old(c).holds() && spend_valid(
            old(c).field(private_key),
            old(c).field(amount),
            old(c).field(blinding),
            old(c).field(path_index),
            path.values(*old(c)),
            old(c).field(vortex),
            old(c).field(root),
            old(c).field(public_nullifier),
            H as nat,
        )),
        (final(c).ops(), r) == spend_note_prog(
            old(c).ops(),
            private_key,
            amount,
            blinding,
            path_index,
            path.ids(),
            vortex,
            root,
            public_nullifier,
            zero,
            sum,
        ),
{
    let ghost c0 = *c;
    let (commitment, nullifier) = derive_note(
        c,
        hasher_t2,
        hasher_t4,
        hasher_t5,
        private_key,
        amount,
        blinding,
        path_index,
        vortex,
    );
    let ghost c1 = *c;
    c.enforce_equal(nullifier, public_nullifier);
    let amount_is_zero = c.is_eq(amount, zero);
    let ghost c2 = *c;
    assert(extends(c2.slots(), c0.slots()));
    enforce_range_check(c, amount, amount_is_zero);
    let ghost c3 = *c;
    assert(extends(c3.slots(), c0.slots()));
    proof {
        path.lemma_extends(c3, c0);
    }
    let membership = path.check_membership(c, root, commitment, hasher_t3);
    let ghost c4 = *c;
    assert(extends(c4.slots(), c2.slots()));
    assert(extends(c4.slots(), c0.slots()));
    finish_spend(c, membership, amount_is_zero, sum, amount)
}

/// The last operations of a spend: the demand that the membership holds
/// unless the amount is zero, and the sum with the amount added.
fn finish_spend(
    c: &mut Circuit,
    membership: usize,
    amount_is_zero: usize,
    sum: usize,
    amount: usize,
) -> (r: usize)
    requires
        old(c).wf(),
        is_bool(old(c).slots(), membership as int),
        is_bool(old(c).slots(), amount_is_zero as int),
        is_field(old(c).slots(), sum as int),
        is_field(old(c).slots(), amount as int),
    ensures
        final(c).wf(),
        extends(final(c).slots(), old(c).slots()),
        final(c).inputs() == old(c).inputs(),
        is_field(final(c).slots(), r as int),
        final(c).field(r) == (old(c).field(sum) + old(c).field(amount)) % modulus(),
        final(c).holds() == (old(c).holds() && (!old(c).boolean(amount_is_zero) ==> old(
            c,
        ).boolean(membership))),
        r == old(c).ops().len() + 3,
        final(c).ops() == old(c).ops().push(Op::Not(amount_is_zero)).push(
            Op::BoolConstant(true),
        ).push(
            Op::BoolConditionalEnforceEqual(
                membership,
                (old(c).ops().len() + 1) as usize,
                old(c).ops().len() as usize,
            ),
        ).push(Op::Add(sum, amount)),
{
    let ghost c0 = *c;
    let amount_is_non_zero = c.not(amount_is_zero);
    let on = c.bool_constant(true);
    c.bool_conditional_enforce_equal(membership, on, amount_is_non_zero);
    assert(extends(c.slots(), c0.slots()));
    c.add(sum, amount)
}

/// The operations that create one note: its commitment, the demand that it
/// is the public one, and the range check of the amount. Gives the sum with
/// the amount added.
fn mint_note(
    c: &mut Circuit,
    hasher_t5: &PoseidonOptimizedVar,
    amount: usize,
    public_key: usize,
    blinding: usize,
    vortex: usize,
    public_commitment: usize,
    zero: usize,
    sum: usize,
) -> (r: usize)
    requires
        old(c).wf(),
        hasher_t5.wf() && hasher_t5.t == 5 && hasher_t5@ == params_t5(),
        is_field(old(c).slots(), amount as int),
        is_field(old(c).slots(), public_key as int),
        is_field(old(c).slots(), blinding as int),
        is_field(old(c).slots(), vortex as int),
        is_field(old(c).slots(), public_commitment as int),
        is_field(old(c).slots(), zero as int),
        is_field(old(c).slots(), sum as int),
        old(c).field(zero) == 0,
    ensures
        final(c).wf(),
        extends(final(c).slots(), old(c).slots()),
        final(c).inputs() == old(c).inputs(),
        is_field(final(c).slots(), r as int),
        final(c).field(r) == (old(c).field(sum) + old(c).field(amount)) % modulus(),
        final(c).holds() == (old(c).holds() && mint_valid(
            old(c).field(amount),
            old(c).field(public_key),
            old(c).field(blinding),
            old(c).field(vortex),
            old(c).field(public_commitment),
        )),
        (final(c).ops(), r) == mint_note_prog(
            old(c).ops(),
            amount,
            public_key,
            blinding,
            vortex,
            public_commitment,
            zero,
            sum,
        ),
{
    let ghost c0 = *c;
    let expected_commitment = hasher_t5.hash4(c, amount, public_key, blinding, vortex);
    c.enforce_equal(expected_commitment, public_commitment);
    let amount_is_zero = c.is_eq(amount, zero);
    let ghost c1 = *c;
    assert(extends(c1.slots(), c0.slots()));
    enforce_range_check(c, amount, amount_is_zero);
    let ghost c2 = *c;
    assert(extends(c2.slots(), c0.slots()));
    proof {
        lemma_run_len(c2.ops());
    }
    c.add(sum, amount)
}

/// Sums in the field: adding one by one from zero, reducing each time, is
/// adding all and reducing once.
pub proof fn lemma_sums(a: nat, b: nat, d: nat)
    ensures
        ((((0 + a) % modulus() + b) % modulus()) + d) % modulus() == (a + b + d) % modulus(),
        ((0 + a) % modulus() + b) % modulus() == (a + b) % modulus(),
{
    let p = modulus() as int;
    lemma_modulus_bounds();
    vstd::arithmetic::div_mod::lemma_add_mod_noop_right(b as int, a as int, p);
    vstd::arithmetic::div_mod::lemma_add_mod_noop_right(d as int, (a + b) as int, p);
    assert((a % modulus() + b) == (b + a % modulus()));
    assert(((a + b) % modulus() + d) == (d + (a + b) % modulus()));
}

/// The operations that bind the account: the hash of the account secret,
/// and the demand that it is the public hash unless that is zero.
fn bind_account<const H: usize>(
    tx: &TransactionCircuit<H>,
    c: &mut Circuit,
    w: &Wires<H>,
    hasher_t2: &PoseidonOptimizedVar,
    zero: usize,
)
    requires
        old(c).wf(),
        hasher_t2.wf() && hasher_t2.t == 2 && hasher_t2@ == params_t2(),
        w.carries(*old(c), tx@),
        carries_one(*old(c), zero, 0),
    ensures
        final(c).wf(),
        extends(final(c).slots(), old(c).slots()),
        final(c).inputs() == old(c).inputs(),
        final(c).holds() == (old(c).holds() && account_bound(tx@)),
        final(c).ops() == bind_account_prog(old(c).ops(), w.positions(), zero),
{
    reveal(carries_one);
    let ghost c0 = *c;
    let expected_hashed_account_secret = hasher_t2.hash1(c, w.account_secret);
    let hashed_is_zero = c.is_eq(w.hashed_account_secret, zero);
    let hashed_account_secret_is_non_zero = c.not(hashed_is_zero);
    assert(extends(c.slots(), c0.slots()));
    c.conditional_enforce_equal(
        expected_hashed_account_secret,
        w.hashed_account_secret,
        hashed_account_secret_is_non_zero,
    );
}

/// The operations that spend input `i`, and the sum with its amount added.
fn spend_input<const H: usize>(
    tx: &TransactionCircuit<H>,
    c: &mut Circuit,
    w: &Wires<H>,
    hasher_t2: &PoseidonOptimizedVar,
    hasher_t3: &PoseidonOptimizedVar,
    hasher_t4: &PoseidonOptimizedVar,
    hasher_t5: &PoseidonOptimizedVar,
    zero: usize,
    sum: usize,
    i: usize,
) -> (r: usize)
    requires
        old(c).wf(),
        hasher_t2.wf() && hasher_t2.t == 2 && hasher_t2@ == params_t2(),
        hasher_t3.wf() && hasher_t3.t == 3 && hasher_t3@ == params_t3(),
        hasher_t4.wf() && hasher_t4.t == 4 && hasher_t4@ == params_t4(),
        hasher_t5.wf() && hasher_t5.t == 5 && hasher_t5@ == params_t5(),
        w.carries(*old(c), tx@),
        carries_one(*old(c), zero, 0),
        is_field(old(c).slots(), sum as int),
        i < 2,
    ensures
        final(c).wf(),
        extends(final(c).slots(), old(c).slots()),
        final(c).inputs() == old(c).inputs(),
        is_field(final(c).slots(), r as int),
        final(c).field(r) == (old(c).field(sum) + tx@.in_amounts[i as int]) % modulus(),
        final(c).holds() == (old(c).holds() && input_valid(tx@, i as int, H as nat)),
        (final(c).ops(), r) == spend_note_prog(
            old(c).ops(),
            w.positions().in_private_keys[i as int],
            w.positions().in_amounts[i as int],
            w.positions().in_blindings[i as int],
            w.positions().in_path_indices[i as int],
            w.positions().merkle_paths[i as int],
            w.positions().vortex,
            w.positions().root,
            w.positions().input_nullifiers[i as int],
            zero,
            sum,
        ),
{
    let ghost before = *c;
    let ghost v = tx@;
    proof {
        reveal(carries_one);
        reveal(carries_two);
        reveal(carries_path);
    }
    let r = spend_note(
        c,
        hasher_t2,
        hasher_t3,
        hasher_t4,
        hasher_t5,
        w.in_private_keys[i],
        w.in_amounts[i],
        w.in_blindings[i],
        w.in_path_indices[i],
        &w.merkle_paths[i],
        w.vortex,
        w.root,
        w.input_nullifiers[i],
        zero,
        sum,
    );
    proof {
        assert(input_valid(v, i as int, H as nat) == spend_valid(
            before.field(w.in_private_keys@[i as int]),
            before.field(w.in_amounts@[i as int]),
            before.field(w.in_blindings@[i as int]),
            before.field(w.in_path_indices@[i as int]),
            w.merkle_paths@[i as int].values(before),
            before.field(w.vortex),
            before.field(w.root),
            before.field(w.input_nullifiers@[i as int]),
            H as nat,
        ));
        assert(w.positions().merkle_paths[i as int] == w.merkle_paths@[i as int].ids());
    }
    r
}

/// The operations that spend the two input notes, and the sum of their
/// amounts.
fn spend_notes<const H: usize>(
    tx: &TransactionCircuit<H>,
    c: &mut Circuit,
    w: &Wires<H>,
    hasher_t2: &PoseidonOptimizedVar,
    hasher_t3: &PoseidonOptimizedVar,
    hasher_t4: &PoseidonOptimizedVar,
    hasher_t5: &PoseidonOptimizedVar,
    zero: usize,
) -> (sum_ins: usize)
    requires
        old(c).wf(),
        hasher_t2.wf() && hasher_t2.t == 2 && hasher_t2@ == params_t2(),
        hasher_t3.wf() && hasher_t3.t == 3 && hasher_t3@ == params_t3(),
        hasher_t4.wf() && hasher_t4.t == 4 && hasher_t4@ == params_t4(),
        hasher_t5.wf() && hasher_t5.t == 5 && hasher_t5@ == params_t5(),
        w.carries(*old(c), tx@),
        carries_one(*old(c), zero, 0),
    ensures
        final(c).wf(),
        extends(final(c).slots(), old(c).slots()),
        final(c).inputs() == old(c).inputs(),
        final(c).holds() == (old(c).holds() && input_valid(tx@, 0, H as nat) && input_valid(
            tx@,
            1,
            H as nat,
        )),
        carries_one(*final(c), sum_ins, (tx@.in_amounts[0] + tx@.in_amounts[1]) % modulus()),
        (final(c).ops(), sum_ins) == spend_notes_prog(old(c).ops(), w.positions(), zero, 2),
{
    let ghost v = tx@;
    let ghost c0 = *c;
    let ghost pos = w.positions();
    let self_tx = tx;
    let mut sum_ins = c.constant(Fr::zero());
    let mut i: usize = 0;
    proof {
        reveal(carries_one);
    }
    while i < N_INS
        invariant
            i <= 2,
            c.wf(),
            extends(c.slots(), c0.slots()),
            c.inputs() == c0.inputs(),
            w.carries(c0, v),
            v == self_tx@,
            pos == w.positions(),
            carries_one(c0, zero, 0),
            hasher_t2.wf() && hasher_t2.t == 2 && hasher_t2@ == params_t2(),
            hasher_t3.wf() && hasher_t3.t == 3 && hasher_t3@ == params_t3(),
            hasher_t4.wf() && hasher_t4.t == 4 && hasher_t4@ == params_t4(),
            hasher_t5.wf() && hasher_t5.t == 5 && hasher_t5@ == params_t5(),
            is_field(c.slots(), sum_ins as int),
            (c.ops(), sum_ins) == spend_notes_prog(c0.ops(), pos, zero, i as nat),
            i == 0 ==> c.field(sum_ins) == 0,
            i == 1 ==> c.field(sum_ins) == (0 + v.in_amounts[0]) % modulus(),
            i == 2 ==> c.field(sum_ins) == ((0 + v.in_amounts[0]) % modulus() + v.in_amounts[1])
                % modulus(),
            c.holds() == (c0.holds() && forall|k: int|
                0 <= k < i ==> #[trigger] input_valid(v, k, H as nat)),
        decreases 2 - i,
    {
        let ghost before = *c;
        proof {
            w.lemma_extends(before, c0, v);
            lemma_one_extends(before, c0, zero, 0);
        }
        sum_ins = spend_input(
            self_tx,
            c,
            w,
            hasher_t2,
            hasher_t3,
            hasher_t4,
            hasher_t5,
            zero,
            sum_ins,
            i,
        );
        i += 1;
    }
    proof {
        lemma_sums(v.in_amounts[0], v.in_amounts[1], 0);
        reveal(carries_one);
    }
    sum_ins
}

/// The operations that create the two output notes, and the sum of their
/// amounts.
fn mint_notes<const H: usize>(
    tx: &TransactionCircuit<H>,
    c: &mut Circuit,
    w: &Wires<H>,
    hasher_t5: &PoseidonOptimizedVar,
    zero: usize,
) -> (sum_outs: usize)
    requires
        old(c).wf(),
        hasher_t5.wf() && hasher_t5.t == 5 && hasher_t5@ == params_t5(),
        w.carries(*old(c), tx@),
        carries_one(*old(c), zero, 0),
    ensures
        final(c).wf(),
        extends(final(c).slots(), old(c).slots()),
        final(c).inputs() == old(c).inputs(),
        final(c).holds() == (old(c).holds() && output_valid(tx@, 0) && output_valid(tx@, 1)),
        carries_one(*final(c), sum_outs, (tx@.out_amounts[0] + tx@.out_amounts[1]) % modulus()),
        (final(c).ops(), sum_outs) == mint_notes_prog(old(c).ops(), w.positions(), zero, 2),
{
    let ghost v = tx@;
    let ghost c0 = *c;
    let ghost pos = w.positions();
    let mut sum_outs = c.constant(Fr::zero());
    let mut j: usize = 0;
    proof {
        reveal(carries_one);
    }
    while j < N_OUTS
        invariant
            j <= 2,
            c.wf(),
            extends(c.slots(), c0.slots()),
            c.inputs() == c0.inputs(),
            w.carries(c0, v),
            pos == w.positions(),
            carries_one(c0, zero, 0),
            hasher_t5.wf() && hasher_t5.t == 5 && hasher_t5@ == params_t5(),
            is_field(c.slots(), sum_outs as int),
            (c.ops(), sum_outs) == mint_notes_prog(c0.ops(), pos, zero, j as nat),
            j == 0 ==> c.field(sum_outs) == 0,
            j == 1 ==> c.field(sum_outs) == (0 + v.out_amounts[0]) % modulus(),
            j == 2 ==> c.field(sum_outs) == ((0 + v.out_amounts[0]) % modulus()
                + v.out_amounts[1]) % modulus(),
            c.holds() == (c0.holds() && forall|k: int|
                0 <= k < j ==> #[trigger] output_valid(v, k)),
        decreases 2 - j,
    {
        let ghost before = *c;
        proof {
            w.lemma_extends(before, c0, v);
            lemma_one_extends(before, c0, zero, 0);
            reveal(carries_one);
            reveal(carries_two);
        }
        sum_outs = mint_note(
            c,
            hasher_t5,
            w.out_amounts[j],
            w.out_public_keys[j],
            w.out_blindings[j],
            w.vortex,
            w.output_commitments[j],
            zero,
            sum_outs,
        );
        proof {
            assert(output_valid(v, j as int) == mint_valid(
                before.field(w.out_amounts@[j as int]),
                before.field(w.out_public_keys@[j as int]),
                before.field(w.out_blindings@[j as int]),
                before.field(w.vortex),
                before.field(w.output_commitments@[j as int]),
            ));
        }
        j += 1;
    }
    proof {
        lemma_sums(v.out_amounts[0], v.out_amounts[1], 0);
        reveal(carries_one);
    }
    sum_outs
}

/// The operations of the two demands on the whole transaction: the
/// nullifiers differ, and the inputs with the public amount are the outputs.
fn close_transaction<const H: usize>(
    tx: &TransactionCircuit<H>,
    c: &mut Circuit,
    w: &Wires<H>,
    sum_ins: usize,
    sum_outs: usize,
)
    requires
        old(c).wf(),
        w.carries(*old(c), tx@),
        carries_one(*old(c), sum_ins, (tx@.in_amounts[0] + tx@.in_amounts[1]) % modulus()),
        carries_one(*old(c), sum_outs, (tx@.out_amounts[0] + tx@.out_amounts[1]) % modulus()),
    ensures
        final(c).wf(),
        extends(final(c).slots(), old(c).slots()),
        final(c).inputs() == old(c).inputs(),
        final(c).holds() == (old(c).holds() && tx@.input_nullifier_0 != tx@.input_nullifier_1
            && value_conserved(tx@)),
        final(c).ops() == close_prog(old(c).ops(), w.positions(), sum_ins, sum_outs),
{
    let ghost v = tx@;
    let ghost c0 = *c;
    proof {
        reveal(carries_one);
        reveal(carries_two);
    }
    c.enforce_not_equal(w.input_nullifiers[0], w.input_nullifiers[1]);
    let total = c.add(sum_ins, w.public_amount);
    proof {
        let p = modulus() as int;
        lemma_modulus_bounds();
        vstd::arithmetic::div_mod::lemma_add_mod_noop_right(
            v.public_amount as int,
            (v.in_amounts[0] + v.in_amounts[1]) as int,
            p,
        );
        assert(((v.in_amounts[0] + v.in_amounts[1]) % modulus() + v.public_amount) == (
        v.public_amount + (v.in_amounts[0] + v.in_amounts[1]) % modulus()));
    }
    c.enforce_equal(total, sum_outs);
}

impl<const H: usize> TransactionCircuit<H> {
    /// Appends the circuit of the transaction: first the eight public inputs
    /// in their fixed order, then the witnesses in theirs, then the
    /// operations whose demands together are the statement. Which operations
    /// are appended is stated; apart from the values of the allocation they
    /// are the same for every transaction.
    pub fn generate_constraints(&self, c: &mut Circuit)
        requires
            old(c).wf(),
        ensures
            final(c).wf(),
            extends(final(c).slots(), old(c).slots() + allocation_slots(self@)),
            final(c).inputs() == old(c).inputs() + public_input_values(self@),
            final(c).holds() == (old(c).holds() && statement(self@, H as nat)),
            final(c).ops() == transaction_prog(*self, old(c).ops()),
    {
        let ghost v = self@;
        let ghost c0 = *c;
        let w = allocate(self, c);
        let ghost c1 = *c;

        let hasher_t2 = PoseidonOptimizedVar::new_t2();
        let hasher_t3 = PoseidonOptimizedVar::new_t3();
        let hasher_t4 = PoseidonOptimizedVar::new_t4();
        let hasher_t5 = PoseidonOptimizedVar::new_t5();

        let zero = c.constant(Fr::zero());
        let ghost c2 = *c;
        proof {
            reveal(carries_one);
            assert(carries_one(c2, zero, 0));
            w.lemma_extends(c2, c1, v);
        }
        bind_account(self, c, &w, &hasher_t2, zero);
        let ghost c3 = *c;
        proof {
            w.lemma_extends(c3, c2, v);
            lemma_one_extends(c3, c2, zero, 0);
        }
        let sum_ins = spend_notes(
            self,
            c,
            &w,
            &hasher_t2,
            &hasher_t3,
            &hasher_t4,
            &hasher_t5,
            zero,
        );
        let ghost c4 = *c;
        proof {
            w.lemma_extends(c4, c3, v);
            lemma_one_extends(c4, c3, zero, 0);
        }
        let sum_outs = mint_notes(self, c, &w, &hasher_t5, zero);
        let ghost c5 = *c;
        proof {
            w.lemma_extends(c5, c4, v);
            lemma_one_extends(
                c5,
                c4,
                sum_ins,
                (v.in_amounts[0] + v.in_amounts[1]) % modulus(),
            );
        }
        close_transaction(self, c, &w, sum_ins, sum_outs);
        proof {
            assert(extends(c.slots(), c1.slots()));
        }
    }
}

/// Appending the same operations continues alike.
pub proof fn lemma_alike_append(a: Seq<Op>, p: Seq<Op>, b: Seq<Op>, q: Seq<Op>, ops: Seq<Op>)
    requires
        alike(a, p, b, q),
    ensures
        alike(a + ops, p, b + ops, q),
{
    reveal(same_growth);
}

/// The operations that derive a note depend on the length of the program
/// before and on the positions, not on what the program before holds.
pub proof fn lemma_note_prog(
    p: Seq<Op>,
    q: Seq<Op>,
    private_key: usize,
    amount: usize,
    blinding: usize,
    path_index: usize,
    vortex: usize,
)
    requires
        p.len() == q.len(),
    ensures
        alike(
            note_prog(p, private_key, amount, blinding, path_index, vortex).0,
            p,
            note_prog(q, private_key, amount, blinding, path_index, vortex).0,
            q,
        ),
        note_prog(p, private_key, amount, blinding, path_index, vortex).1 == note_prog(
            q,
            private_key,
            amount,
            blinding,
            path_index,
            vortex,
        ).1,
        note_prog(p, private_key, amount, blinding, path_index, vortex).2 == note_prog(
            q,
            private_key,
            amount,
            blinding,
            path_index,
            vortex,
        ).2,
{
    let in1 = seq![private_key];
    lemma_hash_prog(params_t2(), p, q, in1);
    let a1 = hash_prog(params_t2(), p, in1);
    let b1 = hash_prog(params_t2(), q, in1);
    let in2 = seq![amount, a1.1, blinding, vortex];
    lemma_hash_prog(params_t5(), a1.0, b1.0, in2);
    let a2 = hash_prog(params_t5(), a1.0, in2);
    let b2 = hash_prog(params_t5(), b1.0, in2);
    lemma_alike_chain(a2.0, a1.0, p, b2.0, b1.0, q);
    let in3 = seq![private_key, a2.1, path_index];
    lemma_hash_prog(params_t4(), a2.0, b2.0, in3);
    let a3 = hash_prog(params_t4(), a2.0, in3);
    let b3 = hash_prog(params_t4(), b2.0, in3);
    lemma_alike_chain(a3.0, a2.0, p, b3.0, b2.0, q);
    let in4 = seq![a2.1, path_index, a3.1];
    lemma_hash_prog(params_t4(), a3.0, b3.0, in4);
    let a4 = hash_prog(params_t4(), a3.0, in4);
    let b4 = hash_prog(params_t4(), b3.0, in4);
    lemma_alike_chain(a4.0, a3.0, p, b4.0, b3.0, q);
}

/// The operations that spend a note depend on the length of the program
/// before and on the positions, not on what the program before holds.
pub proof fn lemma_spend_note_prog(
    p: Seq<Op>,
    q: Seq<Op>,
    private_key: usize,
    amount: usize,
    blinding: usize,
    path_index: usize,
    path: Seq<(usize, usize)>,
    vortex: usize,
    root: usize,
    public_nullifier: usize,
    zero: usize,
    sum: usize,
)
    requires
        p.len() == q.len(),
    ensures
        alike(
            spend_note_prog(
                p,
                private_key,
                amount,
                blinding,
                path_index,
                path,
                vortex,
                root,
                public_nullifier,
                zero,
                sum,
            ).0,
            p,
            spend_note_prog(
                q,
                private_key,
                amount,
                blinding,
                path_index,
                path,
                vortex,
                root,
                public_nullifier,
                zero,
                sum,
            ).0,
            q,
        ),
        spend_note_prog(
            p,
            private_key,
            amount,
            blinding,
            path_index,
            path,
            vortex,
            root,
            public_nullifier,
            zero,
            sum,
        ).1 == spend_note_prog(
            q,
            private_key,
            amount,
            blinding,
            path_index,
            path,
            vortex,
            root,
            public_nullifier,
            zero,
            sum,
        ).1,
{
    lemma_note_prog(p, q, private_key, amount, blinding, path_index, vortex);
    let a = note_prog(p, private_key, amount, blinding, path_index, vortex);
    let b = note_prog(q, private_key, amount, blinding, path_index, vortex);
    let is_zero = (a.0.len() + 1) as usize;
    let op1 = Op::EnforceEqual(a.2, public_nullifier);
    let op2 = Op::IsEq(amount, zero);
    lemma_alike_push(a.0, p, b.0, q, op1);
    lemma_alike_push(a.0.push(op1), p, b.0.push(op1), q, op2);
    let a1 = a.0.push(op1).push(op2);
    let b1 = b.0.push(op1).push(op2);
    let range = range_check_ops(amount, is_zero, a1.len() as usize);
    lemma_alike_append(a1, p, b1, q, range);
    let a2 = a1 + range;
    let b2 = b1 + range;
    lemma_check_membership_prog(params_t3(), a2, b2, path, root, a.1);
    let ma = check_membership_prog(params_t3(), a2, path, root, a.1);
    let mb = check_membership_prog(params_t3(), b2, path, root, a.1);
    lemma_alike_chain(ma.0, a2, p, mb.0, b2, q);
    let op3 = Op::Not(is_zero);
    let op4 = Op::BoolConstant(true);
    let op5 = Op::BoolConditionalEnforceEqual(
        ma.1,
        (ma.0.len() + 1) as usize,
        ma.0.len() as usize,
    );
    let op6 = Op::Add(sum, amount);
    lemma_alike_push(ma.0, p, mb.0, q, op3);
    lemma_alike_push(ma.0.push(op3), p, mb.0.push(op3), q, op4);
    lemma_alike_push(ma.0.push(op3).push(op4), p, mb.0.push(op3).push(op4), q, op5);
    lemma_alike_push(
        ma.0.push(op3).push(op4).push(op5),
        p,
        mb.0.push(op3).push(op4).push(op5),
        q,
        op6,
    );
}

/// The operations that create a note depend on the length of the program
/// before and on the positions, not on what the program before holds.
pub proof fn lemma_mint_note_prog(
    p: Seq<Op>,
    q: Seq<Op>,
    amount: usize,
    public_key: usize,
    blinding: usize,
    vortex: usize,
    public_commitment: usize,
    zero: usize,
    sum: usize,
)
    requires
        p.len() == q.len(),
    ensures
        alike(
            mint_note_prog(p, amount, public_key, blinding, vortex, public_commitment, zero, sum).0,
            p,
            mint_note_prog(q, amount, public_key, blinding, vortex, public_commitment, zero, sum).0,
            q,
        ),
        mint_note_prog(p, amount, public_key, blinding, vortex, public_commitment, zero, sum).1
            == mint_note_prog(
            q,
            amount,
            public_key,
            blinding,
            vortex,
            public_commitment,
            zero,
            sum,
        ).1,
{
    let inputs = seq![amount, public_key, blinding, vortex];
    lemma_hash_prog(params_t5(), p, q, inputs);
    let a = hash_prog(params_t5(), p, inputs);
    let b = hash_prog(params_t5(), q, inputs);
    let op1 = Op::EnforceEqual(a.1, public_commitment);
    let op2 = Op::IsEq(amount, zero);
    lemma_alike_push(a.0, p, b.0, q, op1);
    lemma_alike_push(a.0.push(op1), p, b.0.push(op1), q, op2);
    let a1 = a.0.push(op1).push(op2);
    let b1 = b.0.push(op1).push(op2);
    let range = range_check_ops(amount, (a.0.len() + 1) as usize, a1.len() as usize);
    lemma_alike_append(a1, p, b1, q, range);
    lemma_alike_push(a1 + range, p, b1 + range, q, Op::Add(sum, amount));
}

/// The operations that spend the input notes depend on the length of the
/// program before and on the positions, not on what the program before holds.
pub proof fn lemma_spend_notes_prog(p: Seq<Op>, q: Seq<Op>, w: Positions, zero: usize, n: nat)
    requires
        p.len() == q.len(),
    ensures
        alike(spend_notes_prog(p, w, zero, n).0, p, spend_notes_prog(q, w, zero, n).0, q),
        spend_notes_prog(p, w, zero, n).1 == spend_notes_prog(q, w, zero, n).1,
    decreases n,
{
    if n > 0 {
        lemma_spend_notes_prog(p, q, w, zero, (n - 1) as nat);
        let a = spend_notes_prog(p, w, zero, (n - 1) as nat);
        let b = spend_notes_prog(q, w, zero, (n - 1) as nat);
        lemma_spend_note_prog(
            a.0,
            b.0,
            w.in_private_keys[n - 1],
            w.in_amounts[n - 1],
            w.in_blindings[n - 1],
            w.in_path_indices[n - 1],
            w.merkle_paths[n - 1],
            w.vortex,
            w.root,
            w.input_nullifiers[n - 1],
            zero,
            a.1,
        );
        lemma_alike_chain(
            spend_notes_prog(p, w, zero, n).0,
            a.0,
            p,
            spend_notes_prog(q, w, zero, n).0,
            b.0,
            q,
        );
    } else {
        lemma_alike_same(p, q);
        lemma_alike_push(p, p, q, q, Op::Constant(Fr::spec_zero()));
    }
}

/// The operations that create the output notes depend on the length of the
/// program before and on the positions, not on what the program before holds.
pub proof fn lemma_mint_notes_prog(p: Seq<Op>, q: Seq<Op>, w: Positions, zero: usize, n: nat)
    requires
        p.len() == q.len(),
    ensures
        alike(mint_notes_prog(p, w, zero, n).0, p, mint_notes_prog(q, w, zero, n).0, q),
        mint_notes_prog(p, w, zero, n).1 == mint_notes_prog(q, w, zero, n).1,
    decreases n,
{
    if n > 0 {
        lemma_mint_notes_prog(p, q, w, zero, (n - 1) as nat);
        let a = mint_notes_prog(p, w, zero, (n - 1) as nat);
        let b = mint_notes_prog(q, w, zero, (n - 1) as nat);
        lemma_mint_note_prog(
            a.0,
            b.0,
            w.out_amounts[n - 1],
            w.out_public_keys[n - 1],
            w.out_blindings[n - 1],
            w.vortex,
            w.output_commitments[n - 1],
            zero,
            a.1,
        );
        lemma_alike_chain(
            mint_notes_prog(p, w, zero, n).0,
            a.0,
            p,
            mint_notes_prog(q, w, zero, n).0,
            b.0,
            q,
        );
    } else {
        lemma_alike_same(p, q);
        lemma_alike_push(p, p, q, q, Op::Constant(Fr::spec_zero()));
    }
}

/// The operations of a statement depend on the length of the program before
/// and on the positions, not on what the program before holds.
pub proof fn lemma_statement_prog(p: Seq<Op>, q: Seq<Op>, w: Positions)
    requires
        p.len() == q.len(),
    ensures
        alike(statement_prog(p, w), p, statement_prog(q, w), q),
{
    let zero = p.len() as usize;
    let op0 = Op::Constant(Fr::spec_zero());
    lemma_alike_same(p, q);
    lemma_alike_push(p, p, q, q, op0);
    let ops0 = p.push(op0);
    let q0 = q.push(op0);
    let inputs = seq![w.account_secret];
    lemma_hash_prog(params_t2(), ops0, q0, inputs);
    let ea = hash_prog(params_t2(), ops0, inputs);
    let eb = hash_prog(params_t2(), q0, inputs);
    lemma_alike_chain(ea.0, ops0, p, eb.0, q0, q);
    let op1 = Op::IsEq(w.hashed_account_secret, zero);
    let op2 = Op::Not(ea.0.len() as usize);
    let op3 = Op::ConditionalEnforceEqual(
        ea.1,
        w.hashed_account_secret,
        (ea.0.len() + 1) as usize,
    );
    lemma_alike_push(ea.0, p, eb.0, q, op1);
    lemma_alike_push(ea.0.push(op1), p, eb.0.push(op1), q, op2);
    lemma_alike_push(ea.0.push(op1).push(op2), p, eb.0.push(op1).push(op2), q, op3);
    let a1 = bind_account_prog(ops0, w, zero);
    let b1 = bind_account_prog(q0, w, zero);
    lemma_spend_notes_prog(a1, b1, w, zero, 2);
    let sa = spend_notes_prog(a1, w, zero, 2);
    let sb = spend_notes_prog(b1, w, zero, 2);
    lemma_alike_chain(sa.0, a1, p, sb.0, b1, q);
    lemma_mint_notes_prog(sa.0, sb.0, w, zero, 2);
    let ma = mint_notes_prog(sa.0, w, zero, 2);
    let mb = mint_notes_prog(sb.0, w, zero, 2);
    lemma_alike_chain(ma.0, sa.0, p, mb.0, sb.0, q);
    let op4 = Op::EnforceNotEqual(w.input_nullifiers[0], w.input_nullifiers[1]);
    let op5 = Op::Add(sa.1, w.public_amount);
    let op6 = Op::EnforceEqual((ma.0.len() + 1) as usize, ma.1);
    lemma_alike_push(ma.0, p, mb.0, q, op4);
    lemma_alike_push(ma.0.push(op4), p, mb.0.push(op4), q, op5);
    lemma_alike_push(ma.0.push(op4).push(op5), p, mb.0.push(op4).push(op5), q, op6);
}

/// Two witnesses give one program: behind programs of one length the
/// programs of two transactions begin with the program before and the
/// allocation, which differ in the values that they carry only, and go on
/// with the same operations.
pub proof fn lemma_one_program<const H: usize>(
    first: TransactionCircuit<H>,
    second: TransactionCircuit<H>,
    p: Seq<Op>,
    q: Seq<Op>,
)
    requires
        p.len() == q.len(),
    ensures
        allocation_ops(first).len() == 23 + 4 * H,
        allocation_ops(second).len() == 23 + 4 * H,
        alike(
            transaction_prog(first, p),
            p + allocation_ops(first),
            transaction_prog(second, q),
            q + allocation_ops(second),
        ),
{
    assert(allocation_ops(first).len() == 23 + 4 * H);
    assert(allocation_ops(second).len() == 23 + 4 * H);
    lemma_statement_prog(
        p + allocation_ops(first),
        q + allocation_ops(second),
        positions_at(p.len(), H as nat),
    );
}

} // verus!
