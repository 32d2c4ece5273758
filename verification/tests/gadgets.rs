use ark_bn254::{Bn254, Fr as ArkFr};
use ark_crypto_primitives::snark::SNARK;
use ark_ff::{BigInt, PrimeField};
use ark_groth16::{Groth16, Proof};
use ark_serialize::{CanonicalDeserialize, CanonicalSerialize};
use ark_r1cs_std::alloc::AllocVar;
use ark_r1cs_std::boolean::Boolean;
use ark_r1cs_std::convert::ToBitsGadget;
use ark_r1cs_std::eq::EqGadget;
use ark_r1cs_std::fields::fp::FpVar;
use ark_r1cs_std::fields::FieldVar;
use ark_r1cs_std::select::CondSelectGadget;
use ark_r1cs_std::R1CSVar;
use ark_relations::r1cs::{
    ConstraintSynthesizer, ConstraintSystem, ConstraintSystemRef, SynthesisError,
};
use rand_chacha::ChaCha20Rng;
use rand_core::SeedableRng;
use vortex::bindings::ProofOutput;
use vortex::circuit::TransactionCircuit;
use vortex::constraints::{Circuit, Op};
use vortex::field::Fr;
use vortex::merkle_gadget::PathVar;
use vortex::merkle_tree::{Path, SparseMerkleTree};
use vortex::poseidon_gadget::PoseidonOptimizedVar;
use vortex::poseidon_opt::{hash1, hash2, hash3, hash4, PoseidonOptimized};
use vortex::synthesis::enforce_range_check;

const EMPTY_LEAF: &str = vortex::constants::ZERO_VALUE;

const LEVELS: usize = 4;

const DEPLOYED: usize = vortex::constants::MERKLE_TREE_LEVEL;

fn zero_value() -> Fr {
    Fr::parse(EMPTY_LEAF).expect("the empty leaf is a field element")
}

fn to_ark(x: &Fr) -> ArkFr {
    ArkFr::from_bigint(BigInt::new(x.limbs())).expect("a canonical representative")
}

fn from_ark(x: ArkFr) -> Fr {
    let l = x.into_bigint().0;
    Fr::from_limbs(l[0], l[1], l[2], l[3]).expect("a canonical representative")
}

enum Made {
    Field(FpVar<ArkFr>),
    Bool(Boolean<ArkFr>),
    Bits(Vec<Boolean<ArkFr>>),
    Check,
}

fn field(made: &[Made], i: usize) -> Result<&FpVar<ArkFr>, SynthesisError> {
    match made.get(i) {
        Some(Made::Field(v)) => Ok(v),
        _ => Err(SynthesisError::AssignmentMissing),
    }
}

fn boolean(made: &[Made], i: usize) -> Result<&Boolean<ArkFr>, SynthesisError> {
    match made.get(i) {
        Some(Made::Bool(b)) => Ok(b),
        _ => Err(SynthesisError::AssignmentMissing),
    }
}

fn bit(made: &[Made], i: usize, k: usize) -> Result<Boolean<ArkFr>, SynthesisError> {
    match made.get(i) {
        Some(Made::Bits(b)) if k < b.len() => Ok(b[k].clone()),
        _ => Err(SynthesisError::AssignmentMissing),
    }
}

/// Performs the operations on a constraint system, one call for each.
fn synthesize(
    ops: &[Op],
    cs: ConstraintSystemRef<ArkFr>,
) -> Result<Vec<Made>, SynthesisError> {
    let mut made: Vec<Made> = Vec::with_capacity(ops.len());
    for op in ops {
        let next = match *op {
            Op::Input(v) => Made::Field(FpVar::new_input(cs.clone(), || Ok(to_ark(&v)))?),
            Op::Witness(v) => Made::Field(FpVar::new_witness(cs.clone(), || Ok(to_ark(&v)))?),
            Op::Constant(v) => Made::Field(FpVar::Constant(to_ark(&v))),
            Op::Add(a, b) => Made::Field(field(&made, a)? + field(&made, b)?),
            Op::AddConstant(a, k) => Made::Field(field(&made, a)? + to_ark(&k)),
            Op::Mul(a, b) => Made::Field(field(&made, a)? * field(&made, b)?),
            Op::MulConstant(a, k) => Made::Field(field(&made, a)? * to_ark(&k)),
            Op::Square(a) => Made::Field(field(&made, a)?.square()?),
            Op::Select(c, a, b) => Made::Field(FpVar::conditionally_select(
                boolean(&made, c)?,
                field(&made, a)?,
                field(&made, b)?,
            )?),
            Op::IsEq(a, b) => Made::Bool(field(&made, a)?.is_eq(field(&made, b)?)?),
            Op::Not(x) => Made::Bool(!boolean(&made, x)?.clone()),
            Op::BoolConstant(b) => Made::Bool(Boolean::constant(b)),
            Op::ToBitsLe(a) => Made::Bits(field(&made, a)?.to_bits_le()?),
            Op::Bit(x, k) => Made::Bool(bit(&made, x, k)?),
            Op::EnforceEqual(a, b) => {
                field(&made, a)?.enforce_equal(field(&made, b)?)?;
                Made::Check
            }
            Op::ConditionalEnforceEqual(a, b, c) => {
                field(&made, a)?
                    .conditional_enforce_equal(field(&made, b)?, boolean(&made, c)?)?;
                Made::Check
            }
            Op::EnforceNotEqual(a, b) => {
                field(&made, a)?.enforce_not_equal(field(&made, b)?)?;
                Made::Check
            }
            Op::BoolConditionalEnforceEqual(x, y, c) => {
                boolean(&made, x)?
                    .conditional_enforce_equal(boolean(&made, y)?, boolean(&made, c)?)?;
                Made::Check
            }
        };
        made.push(next);
    }
    Ok(made)
}

/// Whether the constraint system of the circuit is satisfied; a synthesis
/// that fails counts as not satisfied.
fn satisfied_on_constraint_system(c: &Circuit) -> bool {
    let cs = ConstraintSystem::<ArkFr>::new_ref();
    match synthesize(c.operations(), cs.clone()) {
        Ok(_) => cs.is_satisfied().unwrap(),
        Err(_) => false,
    }
}

/// Both ways of checking a circuit agree; gives their verdict.
fn satisfied(c: &Circuit) -> bool {
    let native = c.is_satisfied();
    assert_eq!(native, satisfied_on_constraint_system(c));
    native
}

struct Program(Vec<Op>);

impl ConstraintSynthesizer<ArkFr> for Program {
    fn generate_constraints(self, cs: ConstraintSystemRef<ArkFr>) -> Result<(), SynthesisError> {
        synthesize(&self.0, cs).map(|_| ())
    }
}

fn program<const H: usize>(tx: &TransactionCircuit<H>) -> Circuit {
    let mut c = Circuit::new();
    tx.generate_constraints(&mut c);
    c
}

fn nullifier_of(private_key: &Fr, commitment: &Fr, path_index: &Fr) -> Fr {
    let signature = hash3(private_key, commitment, path_index);
    hash3(commitment, path_index, &signature)
}

/// A transaction that moves nothing: two inputs and two outputs of amount
/// zero, with empty paths.
fn zero_value_transaction(
    hashed_account_secret: Fr,
    account_secret: Fr,
) -> TransactionCircuit<DEPLOYED> {
    let vortex = Fr::from_u64(0);

    let private_key_0 = Fr::from_u64(12345);
    let public_key_0 = hash1(&private_key_0);
    let amount_0 = Fr::from_u64(0);
    let blinding_0 = Fr::from_u64(999);
    let path_index_0 = Fr::from_u64(0);
    let commitment_0 = hash4(&amount_0, &public_key_0, &blinding_0, &vortex);
    let signature_0 = hash3(&private_key_0, &commitment_0, &path_index_0);
    let nullifier_0 = hash3(&commitment_0, &path_index_0, &signature_0);

    let private_key_1 = Fr::from_u64(67890);
    let public_key_1 = hash1(&private_key_1);
    let amount_1 = Fr::from_u64(0);
    let blinding_1 = Fr::from_u64(888);
    let path_index_1 = Fr::from_u64(1);
    let commitment_1 = hash4(&amount_1, &public_key_1, &blinding_1, &vortex);
    let signature_1 = hash3(&private_key_1, &commitment_1, &path_index_1);
    let nullifier_1 = hash3(&commitment_1, &path_index_1, &signature_1);

    let out_public_key_0 = public_key_0;
    let out_amount_0 = Fr::from_u64(0);
    let out_blinding_0 = Fr::from_u64(777);
    let out_commitment_0 = hash4(&out_amount_0, &out_public_key_0, &out_blinding_0, &vortex);

    let out_public_key_1 = public_key_1;
    let out_amount_1 = Fr::from_u64(0);
    let out_blinding_1 = Fr::from_u64(666);
    let out_commitment_1 = hash4(&out_amount_1, &out_public_key_1, &out_blinding_1, &vortex);

    let merkle_paths = [Path::empty(), Path::empty()];

    TransactionCircuit::new(
        vortex,
        Fr::from_u64(0),
        Fr::from_u64(0),
        nullifier_0,
        nullifier_1,
        out_commitment_0,
        out_commitment_1,
        hashed_account_secret,
        account_secret,
        [private_key_0, private_key_1],
        [amount_0, amount_1],
        [blinding_0, blinding_1],
        [path_index_0, path_index_1],
        merkle_paths,
        [out_public_key_0, out_public_key_1],
        [out_amount_0, out_amount_1],
        [out_blinding_0, out_blinding_1],
    )
    .unwrap()
}

#[test]
fn test_circuit_with_valid_inputs() {
    let circuit = zero_value_transaction(Fr::from_u64(0), Fr::from_u64(0));

    let c = program(&circuit);

    println!("Constraints: {}", c.len());
    let is_satisfied = satisfied(&c);
    println!("Satisfied: {}", is_satisfied);

    assert!(is_satisfied);
}

#[test]
fn test_account_secret_verification() {
    {
        let account_secret = Fr::from_u64(42);
        let hashed_account_secret = hash1(&account_secret);
        let circuit = zero_value_transaction(hashed_account_secret, account_secret);
        assert!(
            satisfied(&program(&circuit)),
            "Circuit should be satisfied when hashed_account_secret is non-zero and secret is correct"
        );
    }

    {
        let account_secret = Fr::from_u64(42);
        let wrong_hashed_account_secret = hash1(&Fr::from_u64(99));
        let circuit = zero_value_transaction(wrong_hashed_account_secret, account_secret);
        assert!(
            !satisfied(&program(&circuit)),
            "Circuit should NOT be satisfied when hashed_account_secret is non-zero and secret is incorrect"
        );
    }

    {
        let account_secret = Fr::from_u64(44);
        let hashed_account_secret = Fr::zero();
        let circuit = zero_value_transaction(hashed_account_secret, account_secret);
        assert!(
            satisfied(&program(&circuit)),
            "Circuit should be satisfied when hashed_account_secret is 0 (check is skipped)"
        );
    }
}

#[test]
fn test_path_verification_matches_circuit() {
    let hasher = PoseidonOptimized::new_t3();
    let empty_leaf = zero_value();

    let leaf = Fr::from_u64(100);
    let sibling_leaf = Fr::from_u64(200);

    let pair_hash = hasher.hash2(&leaf, &sibling_leaf);
    let empty_hash_1 = hasher.hash2(&empty_leaf, &empty_leaf);
    let level1_hash = hasher.hash2(&pair_hash, &empty_hash_1);

    let mut path = Path::<4>::empty();
    path.path[0] = (leaf, sibling_leaf);
    path.path[1] = (pair_hash, empty_hash_1);
    path.path[2] = (level1_hash, empty_hash_1);
    path.path[3] = (hasher.hash2(&level1_hash, &empty_hash_1), empty_hash_1);

    let computed_root = path.calculate_root(&leaf, &hasher).unwrap();

    let mut c = Circuit::new();
    let root_var = c.input(computed_root);
    let leaf_var = c.witness(leaf);
    let path_var = PathVar::new_witness(&mut c, &path);
    let hasher_var = PoseidonOptimizedVar::new_t3();

    let circuit_root = path_var.root_hash(&mut c, leaf_var, &hasher_var);
    c.enforce_equal(circuit_root, root_var);

    assert!(satisfied(&c));
    println!("✓ Path verification matches circuit");
}

#[test]
fn test_path_var_constraint_generation() {
    let hasher = PoseidonOptimized::new_t3();
    let empty_leaf = zero_value();

    let leaf_pairs = vec![(Fr::from_u64(1), Fr::from_u64(2))];
    let tree = SparseMerkleTree::<4>::new(&leaf_pairs, &hasher, &empty_leaf).unwrap();
    let root = tree.root();
    let path = tree.generate_membership_proof(0).unwrap();
    let leaf = Fr::from_u64(1);

    let mut c = Circuit::new();
    let root_var = c.input(root);
    let leaf_var = c.witness(leaf);
    let path_var = PathVar::new_witness(&mut c, &path);
    let hasher_var = PoseidonOptimizedVar::new_t3();

    let is_member = path_var.check_membership(&mut c, root_var, leaf_var, &hasher_var);

    let cs = ConstraintSystem::<ArkFr>::new_ref();
    let made = synthesize(c.operations(), cs.clone()).unwrap();
    match &made[is_member] {
        Made::Bool(b) => assert!(b.value().unwrap()),
        _ => panic!("membership is a boolean"),
    }
    assert!(cs.is_satisfied().unwrap());
    assert!(c.is_satisfied());

    println!(
        "Merkle path verification constraints: {}",
        cs.num_constraints()
    );
}

#[test]
fn test_native_and_gadget_root_match() {
    let hasher = PoseidonOptimized::new_t3();
    let empty_leaf = zero_value();

    let leaf_pairs = vec![
        (Fr::from_u64(10), Fr::from_u64(20)),
        (Fr::from_u64(30), Fr::from_u64(40)),
    ];

    let tree = SparseMerkleTree::<4>::new(&leaf_pairs, &hasher, &empty_leaf).unwrap();
    let root = tree.root();

    let index = 1usize;
    let path = tree.generate_membership_proof(index).unwrap();
    let leaf = tree.leaves()[index];

    let native_root = path.calculate_root(&leaf, &hasher).unwrap();
    assert_eq!(native_root, root);

    let mut c = Circuit::new();
    let root_var = c.input(root);
    let leaf_var = c.witness(leaf);
    let path_var = PathVar::new_witness(&mut c, &path);
    let hasher_var = PoseidonOptimizedVar::new_t3();

    let computed_root_var = path_var.root_hash(&mut c, leaf_var, &hasher_var);
    c.enforce_equal(computed_root_var, root_var);

    assert!(satisfied(&c));
    println!("✓ Native and circuit roots match");
}

#[test]
fn test_constraint_gadget_matches_native() {
    let x = Fr::from_u64(1);
    let y = Fr::from_u64(2);

    let native_hash = hash2(&x, &y);

    let mut c = Circuit::new();
    let x_var = c.witness(x);
    let y_var = c.witness(y);

    let hasher_var = PoseidonOptimizedVar::new_t3();
    let hash_var = hasher_var.hash2(&mut c, x_var, y_var);

    let cs = ConstraintSystem::<ArkFr>::new_ref();
    let made = synthesize(c.operations(), cs.clone()).unwrap();
    match &made[hash_var] {
        Made::Field(v) => assert_eq!(from_ark(v.value().unwrap()), native_hash),
        _ => panic!("the hash is a field variable"),
    }

    assert!(cs.is_satisfied().unwrap());
}

#[test]
fn gadget_matches_native_for_every_width() {
    let inputs: Vec<Fr> = (1..=4u64).map(|i| Fr::from_u64(1000 + i)).collect();
    let mut c = Circuit::new();
    let ids: Vec<usize> = inputs.iter().map(|x| c.witness(*x)).collect();
    let h1 = PoseidonOptimizedVar::new_t2().hash1(&mut c, ids[0]);
    let h2 = PoseidonOptimizedVar::new_t3().hash2(&mut c, ids[0], ids[1]);
    let h3 = PoseidonOptimizedVar::new_t4().hash3(&mut c, ids[0], ids[1], ids[2]);
    let h4 = PoseidonOptimizedVar::new_t5().hash4(&mut c, ids[0], ids[1], ids[2], ids[3]);
    let expected = [
        (h1, hash1(&inputs[0])),
        (h2, hash2(&inputs[0], &inputs[1])),
        (h3, hash3(&inputs[0], &inputs[1], &inputs[2])),
        (h4, hash4(&inputs[0], &inputs[1], &inputs[2], &inputs[3])),
    ];
    let cs = ConstraintSystem::<ArkFr>::new_ref();
    let made = synthesize(c.operations(), cs.clone()).unwrap();
    for (id, native) in expected {
        match &made[id] {
            Made::Field(v) => assert_eq!(from_ark(v.value().unwrap()), native),
            _ => panic!("the hash is a field variable"),
        }
    }
    assert!(cs.is_satisfied().unwrap());
    // three constraints for each S-box on a variable; lane zero of the first
    // round is a constant
    let sboxes = (8 * 2 + 56 - 1) + (8 * 3 + 57 - 1) + (8 * 4 + 56 - 1) + (8 * 5 + 60 - 1);
    assert_eq!(cs.num_constraints(), 3 * sboxes);
}

/// A spend of two notes of a tree into two new notes.
struct Scenario {
    vortex: Fr,
    root: Fr,
    public_amount: Fr,
    nullifiers: [Fr; 2],
    commitments: [Fr; 2],
    private_keys: [Fr; 2],
    amounts: [Fr; 2],
    blindings: [Fr; 2],
    indices: [Fr; 2],
    paths: [Path<LEVELS>; 2],
    out_public_keys: [Fr; 2],
    out_amounts: [Fr; 2],
    out_blindings: [Fr; 2],
}

impl Scenario {
    /// Two notes of 70 and 30 at the indices 0 and 1, spent into notes of 60
    /// and 45 with a deposit of 5.
    fn spend() -> Self {
        let hasher = PoseidonOptimized::new_t3();
        let vortex = Fr::from_u64(7);
        let private_keys = [Fr::from_u64(12345), Fr::from_u64(67890)];
        let amounts = [Fr::from_u64(70), Fr::from_u64(30)];
        let blindings = [Fr::from_u64(999), Fr::from_u64(888)];
        let indices = [Fr::from_u64(0), Fr::from_u64(1)];
        let notes = [
            hash4(&amounts[0], &hash1(&private_keys[0]), &blindings[0], &vortex),
            hash4(&amounts[1], &hash1(&private_keys[1]), &blindings[1], &vortex),
        ];
        let tree =
            SparseMerkleTree::<LEVELS>::new(&[(notes[0], notes[1])], &hasher, &zero_value())
                .unwrap();
        let paths = [
            tree.generate_membership_proof(0).unwrap(),
            tree.generate_membership_proof(1).unwrap(),
        ];
        let out_public_keys = [hash1(&Fr::from_u64(11)), hash1(&Fr::from_u64(22))];
        let out_amounts = [Fr::from_u64(60), Fr::from_u64(45)];
        let out_blindings = [Fr::from_u64(777), Fr::from_u64(666)];
        Scenario {
            vortex,
            root: tree.root(),
            public_amount: Fr::from_u64(5),
            nullifiers: [
                nullifier_of(&private_keys[0], &notes[0], &indices[0]),
                nullifier_of(&private_keys[1], &notes[1], &indices[1]),
            ],
            commitments: [
                hash4(&out_amounts[0], &out_public_keys[0], &out_blindings[0], &vortex),
                hash4(&out_amounts[1], &out_public_keys[1], &out_blindings[1], &vortex),
            ],
            private_keys,
            amounts,
            blindings,
            indices,
            paths,
            out_public_keys,
            out_amounts,
            out_blindings,
        }
    }

    fn circuit(&self) -> TransactionCircuit<LEVELS> {
        TransactionCircuit::new(
            self.vortex,
            self.root,
            self.public_amount,
            self.nullifiers[0],
            self.nullifiers[1],
            self.commitments[0],
            self.commitments[1],
            Fr::zero(),
            Fr::zero(),
            self.private_keys,
            self.amounts,
            self.blindings,
            self.indices,
            self.paths,
            self.out_public_keys,
            self.out_amounts,
            self.out_blindings,
        )
        .unwrap()
    }
}

#[test]
fn all_zero_witness_does_not_know_its_nullifiers() {
    // the nullifier of a note is a hash, never zero here, and the two
    // all-zero notes would share it
    let empty = TransactionCircuit::<LEVELS>::empty();
    assert_eq!(empty.get_public_inputs(), vec![Fr::zero(); 8]);
    assert!(!satisfied(&program(&empty)));
}

#[test]
fn correct_spend_is_satisfied() {
    let c = program(&Scenario::spend().circuit());
    assert!(satisfied(&c));
}

#[test]
fn unbalanced_spend_is_not_satisfied() {
    let mut s = Scenario::spend();
    s.public_amount = Fr::from_u64(6);
    assert!(!satisfied(&program(&s.circuit())));
}

#[test]
fn withdrawal_is_the_negated_amount() {
    // 70 + 30 - 40 = 60 + 0
    let mut s = Scenario::spend();
    s.out_amounts[1] = Fr::zero();
    s.commitments[1] = hash4(&s.out_amounts[1], &s.out_public_keys[1], &s.out_blindings[1], &s.vortex);
    let minus_forty = Fr::parse(
        "21888242871839275222246405745257275088548364400416034343698204186575808495577",
    )
    .unwrap();
    assert_eq!(minus_forty.add(&Fr::from_u64(40)), Fr::zero());
    assert_eq!(minus_forty, minus(&Fr::zero(), &Fr::from_u64(40)));
    s.public_amount = minus_forty;
    assert!(satisfied(&program(&s.circuit())));
}

#[test]
fn repeated_nullifier_is_not_satisfied() {
    // the same note spent twice in one transaction: every other demand holds
    let mut s = Scenario::spend();
    s.private_keys[1] = s.private_keys[0];
    s.amounts[1] = s.amounts[0];
    s.blindings[1] = s.blindings[0];
    s.indices[1] = s.indices[0];
    s.paths[1] = s.paths[0];
    s.nullifiers[1] = s.nullifiers[0];
    s.public_amount = Fr::from_u64(0);
    s.out_amounts = [Fr::from_u64(70), Fr::from_u64(70)];
    s.commitments = [
        hash4(&s.out_amounts[0], &s.out_public_keys[0], &s.out_blindings[0], &s.vortex),
        hash4(&s.out_amounts[1], &s.out_public_keys[1], &s.out_blindings[1], &s.vortex),
    ];
    assert!(!satisfied(&program(&s.circuit())));
}

#[test]
fn wrong_nullifier_is_not_satisfied() {
    let mut s = Scenario::spend();
    s.nullifiers[0] = Fr::from_u64(1);
    assert!(!satisfied(&program(&s.circuit())));
}

#[test]
fn wrong_output_commitment_is_not_satisfied() {
    let mut s = Scenario::spend();
    s.commitments[1] = s.commitments[0];
    assert!(!satisfied(&program(&s.circuit())));
}

#[test]
fn wrong_merkle_path_is_not_satisfied() {
    let mut s = Scenario::spend();
    s.paths[0].path[2].1 = Fr::from_u64(5);
    assert!(!satisfied(&program(&s.circuit())));

    let mut s = Scenario::spend();
    s.root = Fr::from_u64(5);
    assert!(!satisfied(&program(&s.circuit())));
}

#[test]
fn zero_amount_input_needs_no_merkle_path() {
    let mut s = Scenario::spend();
    s.amounts[1] = Fr::zero();
    let note = hash4(&s.amounts[1], &hash1(&s.private_keys[1]), &s.blindings[1], &s.vortex);
    s.nullifiers[1] = nullifier_of(&s.private_keys[1], &note, &s.indices[1]);
    s.paths[1] = Path::empty();
    s.out_amounts[1] = Fr::from_u64(15);
    s.commitments[1] =
        hash4(&s.out_amounts[1], &s.out_public_keys[1], &s.out_blindings[1], &s.vortex);
    assert!(satisfied(&program(&s.circuit())));
}

fn two_to_the_248() -> Fr {
    Fr::parse(&format!("0x1{}", "0".repeat(62))).unwrap()
}

fn two_to_the_248_minus_one() -> Fr {
    Fr::parse(&format!("0x{}", "f".repeat(62))).unwrap()
}

fn minus(a: &Fr, b: &Fr) -> Fr {
    from_ark(to_ark(a) - to_ark(b))
}

fn range_check_of(value: Fr) -> Circuit {
    let mut c = Circuit::new();
    let v = c.witness(value);
    let zero = c.constant(Fr::zero());
    let is_zero = c.is_eq(v, zero);
    enforce_range_check(&mut c, v, is_zero);
    c
}

#[test]
fn range_check_is_the_same_operations_for_every_value() {
    let a = range_check_of(Fr::zero());
    let b = range_check_of(two_to_the_248());
    assert_eq!(a.len(), 3 + 2 + 3 * 6);
    assert_eq!(a.operations()[1..], b.operations()[1..]);
    assert_eq!(a.operations()[3], Op::ToBitsLe(0));
    assert_eq!(a.operations()[4], Op::Not(2));
    assert_eq!(a.operations()[5], Op::Bit(3, 248));
    assert_eq!(a.operations()[6], Op::BoolConstant(false));
    assert_eq!(a.operations()[7], Op::BoolConditionalEnforceEqual(5, 6, 4));
    assert_eq!(a.operations()[22], Op::BoolConditionalEnforceEqual(20, 21, 4));
}

#[test]
fn range_check_passes_up_to_248_bits() {
    assert!(satisfied(&range_check_of(Fr::zero())));
    assert!(satisfied(&range_check_of(Fr::from_u64(1))));
    assert!(satisfied(&range_check_of(Fr::from_u64(u64::MAX))));
    assert!(satisfied(&range_check_of(two_to_the_248_minus_one())));
}

#[test]
fn range_check_fails_from_249_bits_on() {
    assert!(!satisfied(&range_check_of(two_to_the_248())));
    assert!(!satisfied(&range_check_of(two_to_the_248().add(&Fr::from_u64(1)))));
    let minus_one = Fr::parse(
        "21888242871839275222246405745257275088548364400416034343698204186575808495616",
    )
    .unwrap();
    assert_eq!(minus_one, minus(&Fr::zero(), &Fr::from_u64(1)));
    assert!(!satisfied(&range_check_of(minus_one)));
}

#[test]
fn amount_of_249_bits_is_not_satisfied() {
    let mut s = Scenario::spend();
    // outputs of 2^248 - 1 and 0 from inputs of 100: the balance holds
    s.out_amounts = [two_to_the_248_minus_one(), Fr::zero()];
    s.commitments = [
        hash4(&s.out_amounts[0], &s.out_public_keys[0], &s.out_blindings[0], &s.vortex),
        hash4(&s.out_amounts[1], &s.out_public_keys[1], &s.out_blindings[1], &s.vortex),
    ];
    s.public_amount = minus(&s.out_amounts[0], &Fr::from_u64(100));
    assert!(satisfied(&program(&s.circuit())));

    s.out_amounts = [two_to_the_248(), Fr::zero()];
    s.commitments[0] =
        hash4(&s.out_amounts[0], &s.out_public_keys[0], &s.out_blindings[0], &s.vortex);
    s.public_amount = minus(&s.out_amounts[0], &Fr::from_u64(100));
    assert!(!satisfied(&program(&s.circuit())));
}

#[test]
fn public_inputs_come_first_and_in_their_order() {
    let s = Scenario::spend();
    let circuit = s.circuit();
    let c = program(&circuit);
    let expected = vec![
        s.vortex,
        s.root,
        s.public_amount,
        s.nullifiers[0],
        s.nullifiers[1],
        s.commitments[0],
        s.commitments[1],
        Fr::zero(),
    ];
    assert_eq!(circuit.get_public_inputs(), expected);
    assert_eq!(c.public_input_values(), expected);
    for (i, x) in expected.iter().enumerate() {
        assert_eq!(c.operations()[i], Op::Input(*x));
    }
    let cs = ConstraintSystem::<ArkFr>::new_ref();
    synthesize(c.operations(), cs.clone()).unwrap();
    assert_eq!(cs.num_instance_variables(), 9);
    let instance: Vec<Fr> = cs
        .borrow()
        .unwrap()
        .instance_assignment
        .iter()
        .skip(1)
        .map(|x| from_ark(*x))
        .collect();
    assert_eq!(instance, expected);
}

#[test]
fn witnesses_follow_the_public_inputs_in_their_order() {
    let s = Scenario::spend();
    let c = program(&s.circuit());
    let mut expected = vec![
        Fr::zero(),
        s.private_keys[0],
        s.private_keys[1],
        s.amounts[0],
        s.amounts[1],
        s.blindings[0],
        s.blindings[1],
        s.indices[0],
        s.indices[1],
    ];
    for path in &s.paths {
        for (left, right) in &path.path {
            expected.push(*left);
            expected.push(*right);
        }
    }
    expected.extend_from_slice(&s.out_public_keys);
    expected.extend_from_slice(&s.out_amounts);
    expected.extend_from_slice(&s.out_blindings);
    assert_eq!(expected.len(), 9 + 4 * LEVELS + 6);
    for (i, x) in expected.iter().enumerate() {
        assert_eq!(c.operations()[8 + i], Op::Witness(*x));
    }
}

#[test]
fn circuit_has_the_same_shape_for_every_witness() {
    let a = program(&TransactionCircuit::<LEVELS>::empty());
    let b = program(&Scenario::spend().circuit());
    assert_eq!(a.len(), b.len());
    // behind the allocation the two programs are the same operations
    let allocated = 8 + 9 + 4 * LEVELS + 6;
    assert_eq!(a.operations()[allocated..], b.operations()[allocated..]);
    assert_ne!(a.operations()[..allocated], b.operations()[..allocated]);
    let csa = ConstraintSystem::<ArkFr>::new_ref();
    let csb = ConstraintSystem::<ArkFr>::new_ref();
    synthesize(b.operations(), csb.clone()).unwrap();
    csa.set_mode(ark_relations::r1cs::SynthesisMode::Setup);
    synthesize(a.operations(), csa.clone()).unwrap();
    assert_eq!(csa.num_constraints(), csb.num_constraints());
    assert_eq!(csa.num_witness_variables(), csb.num_witness_variables());
    assert_eq!(csa.num_instance_variables(), csb.num_instance_variables());
}

#[test]
fn prove_and_verify_round_trip() {
    let mut rng = ChaCha20Rng::from_seed([0u8; 32]);
    let setup = Program(program(&TransactionCircuit::<1>::empty()).operations().to_vec());
    let (pk, vk) = Groth16::<Bn254>::circuit_specific_setup(setup, &mut rng).unwrap();

    let hasher = PoseidonOptimized::new_t3();
    let vortex = Fr::from_u64(3);
    let private_keys = [Fr::from_u64(5), Fr::from_u64(6)];
    let amounts = [Fr::from_u64(8), Fr::from_u64(2)];
    let blindings = [Fr::from_u64(9), Fr::from_u64(10)];
    let indices = [Fr::from_u64(0), Fr::from_u64(1)];
    let notes = [
        hash4(&amounts[0], &hash1(&private_keys[0]), &blindings[0], &vortex),
        hash4(&amounts[1], &hash1(&private_keys[1]), &blindings[1], &vortex),
    ];
    let tree = SparseMerkleTree::<1>::new(&[(notes[0], notes[1])], &hasher, &zero_value()).unwrap();
    let out_amounts = [Fr::from_u64(4), Fr::from_u64(6)];
    let out_keys = [Fr::from_u64(21), Fr::from_u64(22)];
    let out_blindings = [Fr::from_u64(31), Fr::from_u64(32)];
    let circuit = TransactionCircuit::<1>::new(
        vortex,
        tree.root(),
        Fr::zero(),
        nullifier_of(&private_keys[0], &notes[0], &indices[0]),
        nullifier_of(&private_keys[1], &notes[1], &indices[1]),
        hash4(&out_amounts[0], &out_keys[0], &out_blindings[0], &vortex),
        hash4(&out_amounts[1], &out_keys[1], &out_blindings[1], &vortex),
        Fr::zero(),
        Fr::zero(),
        private_keys,
        amounts,
        blindings,
        indices,
        [
            tree.generate_membership_proof(0).unwrap(),
            tree.generate_membership_proof(1).unwrap(),
        ],
        out_keys,
        out_amounts,
        out_blindings,
    )
    .unwrap();
    let c = program(&circuit);
    assert!(c.is_satisfied());

    let proof =
        Groth16::<Bn254>::prove(&pk, Program(c.operations().to_vec()), &mut rng).unwrap();
    let mut public_inputs: Vec<ArkFr> =
        circuit.get_public_inputs().iter().map(to_ark).collect();
    assert!(Groth16::<Bn254>::verify(&vk, &public_inputs, &proof).unwrap());

    let mut tampered = public_inputs.clone();
    tampered[2] = to_ark(&Fr::from_u64(1));
    assert!(!Groth16::<Bn254>::verify(&vk, &tampered, &proof).unwrap());

    // the proof output carries the proof and the public inputs as text
    let mut encoded = |point: &dyn Fn(&mut Vec<u8>)| {
        let mut bytes = Vec::new();
        point(&mut bytes);
        bytes
    };
    let a = encoded(&|b| proof.a.serialize_compressed(b).unwrap());
    let b = encoded(&|b| proof.b.serialize_compressed(b).unwrap());
    let c_bytes = encoded(&|b| proof.c.serialize_compressed(b).unwrap());
    let whole = encoded(&|b| proof.serialize_compressed(b).unwrap());
    assert_eq!((a.len(), b.len(), c_bytes.len(), whole.len()), (32, 64, 32, 128));
    let mut out = ProofOutput::assemble(&circuit, a, b, c_bytes).unwrap();
    assert_eq!(out.proof_bytes(), Ok(whole));
    assert_eq!(out.public_inputs.len(), 8);
    assert_eq!(out.public_inputs_serialized_hex.len(), 8 * 64);

    let read = |out: &ProofOutput| -> Option<bool> {
        let bytes = out.proof_bytes().ok()?;
        let proof = Proof::<Bn254>::deserialize_compressed(&bytes[..]).ok()?;
        let inputs: Vec<ArkFr> = out.public_input_elements().ok()?.iter().map(to_ark).collect();
        Groth16::<Bn254>::verify(&vk, &inputs, &proof).ok()
    };
    assert_eq!(read(&out), Some(true));

    // a flipped byte of the proof's text: no proof, or one that does not verify
    let flipped: String = out
        .proof_serialized_hex
        .chars()
        .enumerate()
        .map(|(i, ch)| if i == 5 { if ch == '0' { '1' } else { '0' } } else { ch })
        .collect();
    out.proof_serialized_hex = flipped;
    assert_ne!(read(&out), Some(true));
}
