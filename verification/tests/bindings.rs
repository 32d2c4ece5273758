use vortex::bindings::{
    create_circuit_from_input, fr_to_string, parse_field_element, parse_merkle_path, poseidon1,
    poseidon2, poseidon3, poseidon4, BindingError, ProofInput, ProofOutput,
};
use vortex::circuit::TransactionCircuit;
use vortex::field::Fr;

const MODULUS: &str =
    "21888242871839275222246405745257275088548364400416034343698204186575808495617";

const MODULUS_MINUS_ONE: &str =
    "21888242871839275222246405745257275088548364400416034343698204186575808495616";

fn texts(items: &[&str]) -> Vec<String> {
    items.iter().map(|s| s.to_string()).collect()
}

fn zero_path(levels: usize) -> Vec<[String; 2]> {
    (0..levels).map(|_| ["0".to_string(), "0".to_string()]).collect()
}

fn zero_input(levels: usize) -> ProofInput {
    let zero = || "0".to_string();
    ProofInput {
        vortex: zero(),
        root: zero(),
        public_amount: zero(),
        input_nullifier_0: zero(),
        input_nullifier_1: zero(),
        output_commitment_0: zero(),
        output_commitment_1: zero(),
        hashed_account_secret: zero(),
        account_secret: zero(),
        in_private_key_0: zero(),
        in_private_key_1: zero(),
        in_amount_0: zero(),
        in_amount_1: zero(),
        in_blinding_0: zero(),
        in_blinding_1: zero(),
        in_path_index_0: zero(),
        in_path_index_1: zero(),
        merkle_path_0: zero_path(levels),
        merkle_path_1: zero_path(levels),
        out_public_key_0: zero(),
        out_public_key_1: zero(),
        out_amount_0: zero(),
        out_amount_1: zero(),
        out_blinding_0: zero(),
        out_blinding_1: zero(),
    }
}

#[test]
fn poseidon_of_texts_gives_the_known_hashes() {
    assert_eq!(
        poseidon1("1".to_string()).unwrap(),
        "18586133768512220936620570745912940619677854269274689475585506675881198879027"
    );
    assert_eq!(
        poseidon2(texts(&["1", "2"])).unwrap(),
        "7853200120776062878684798364095072458815029376092732009249414926327459813530"
    );
    assert_eq!(
        poseidon3(texts(&["1", "2", "3"])).unwrap(),
        "6542985608222806190361240322586112750744169038454362455181422643027100751666"
    );
    assert_eq!(
        poseidon4(texts(&["1", "2", "3", "4"])).unwrap(),
        "18821383157269793795438455681495246036402687001665670618754263018637548127333"
    );
    assert_eq!(poseidon2(texts(&["0x1", "0x02"])), poseidon2(texts(&["1", "2"])));
}

#[test]
fn poseidon_of_texts_refuses_wrong_counts_and_texts() {
    assert!(matches!(poseidon2(texts(&["1"])), Err(BindingError::InputError(_))));
    assert!(matches!(poseidon3(texts(&["1", "2"])), Err(BindingError::InputError(_))));
    assert!(matches!(poseidon4(texts(&["1", "2", "3", "4", "5"])), Err(BindingError::InputError(_))));
    assert!(matches!(poseidon1("x".to_string()), Err(BindingError::ParseError(_))));
    assert!(matches!(poseidon2(texts(&["1", ""])), Err(BindingError::ParseError(_))));
    assert!(matches!(poseidon3(texts(&["1", "-2", "3"])), Err(BindingError::ParseError(_))));
    assert!(matches!(poseidon4(texts(&["1", "2", "3", MODULUS])), Err(BindingError::ParseError(_))));
}

#[test]
fn field_elements_are_read_from_decimal_and_hexadecimal() {
    assert_eq!(parse_field_element("0"), Ok(Fr::zero()));
    assert_eq!(parse_field_element("007"), Ok(Fr::from_u64(7)));
    assert_eq!(parse_field_element("18446744073709551615"), Ok(Fr::from_u64(u64::MAX)));
    assert_eq!(parse_field_element("0xff"), Ok(Fr::from_u64(255)));
    assert_eq!(parse_field_element("0XAb"), Ok(Fr::from_u64(171)));
    assert_eq!(parse_field_element("0x10"), Ok(Fr::from_u64(16)));
    assert_eq!(parse_field_element(" 0x10 "), Ok(Fr::from_u64(16)));
    assert_eq!(parse_field_element("\t16\r\n"), Ok(Fr::from_u64(16)));
    assert_eq!(parse_field_element("\u{a0}\u{2003}16\u{3000}"), Ok(Fr::from_u64(16)));
    assert_eq!(Fr::parse(" 0x10 "), None);
    assert_eq!(Fr::parse("0x10"), Some(Fr::from_u64(16)));
    assert_eq!(
        parse_field_element("18446744073709551616").unwrap().limbs(),
        [0, 1, 0, 0]
    );
    assert_eq!(
        parse_field_element("0x100000000000000000000000000000000").unwrap().limbs(),
        [0, 0, 1, 0]
    );
    let top = parse_field_element(MODULUS_MINUS_ONE).unwrap();
    assert_eq!(
        top.limbs(),
        [0x43e1f593f0000000, 0x2833e84879b97091, 0xb85045b68181585d, 0x30644e72e131a029]
    );
    assert_eq!(
        parse_field_element("0x30644e72e131a029b85045b68181585d2833e84879b9709143e1f593f0000000"),
        Ok(top)
    );
}

#[test]
fn texts_that_are_no_field_elements_are_refused() {
    for text in [
        "",
        " ",
        "1 1",
        "0x 10",
        "0 x10",
        "\u{200b}1",
        "+1",
        "-1",
        "1_000",
        "12a",
        "0x",
        "0xg",
        "x10",
        MODULUS,
        "0x30644e72e131a029b85045b68181585d2833e84879b9709143e1f593f0000001",
        "115792089237316195423570985008687907853269984665640564039457584007913129639936",
        "999999999999999999999999999999999999999999999999999999999999999999999999999999999",
    ] {
        assert!(
            matches!(parse_field_element(text), Err(BindingError::ParseError(_))),
            "{:?}",
            text
        );
    }
}

#[test]
fn field_elements_are_written_in_decimal() {
    assert_eq!(fr_to_string(&Fr::zero()), "0");
    assert_eq!(fr_to_string(&Fr::from_u64(1234567890)), "1234567890");
    let top = parse_field_element(MODULUS_MINUS_ONE).unwrap();
    assert_eq!(fr_to_string(&top), MODULUS_MINUS_ONE);
    assert_eq!(top.add(&Fr::one()), Fr::zero());
    for text in ["5", "18446744073709551616", "340282366920938463463374607431768211456"] {
        assert_eq!(fr_to_string(&parse_field_element(text).unwrap()), text);
    }
}

#[test]
fn messages_begin_with_the_kind() {
    let detail = "what went wrong".to_string();
    assert_eq!(
        BindingError::ParseError(detail.clone()).message(),
        "Failed to parse field element: what went wrong"
    );
    assert_eq!(
        BindingError::KeyError(detail.clone()).message(),
        "Failed to deserialize key: what went wrong"
    );
    assert_eq!(
        BindingError::ProofError(detail.clone()).message(),
        "Failed to generate proof: what went wrong"
    );
    assert_eq!(
        BindingError::VerifyError(detail.clone()).message(),
        "Failed to verify proof: what went wrong"
    );
    assert_eq!(
        BindingError::SerializationError(detail.clone()).message(),
        "Serialization error: what went wrong"
    );
    assert_eq!(
        BindingError::InputError(detail.clone()).message(),
        "Invalid input: what went wrong"
    );
    assert_eq!(
        BindingError::InternalError(detail).message(),
        "Internal error: what went wrong"
    );
}

#[test]
fn merkle_path_is_read_level_by_level() {
    let data = vec![
        ["1".to_string(), "2".to_string()],
        ["0x3".to_string(), "4".to_string()],
    ];
    let path = parse_merkle_path::<2>(&data).unwrap();
    assert_eq!(
        path.path,
        [(Fr::from_u64(1), Fr::from_u64(2)), (Fr::from_u64(3), Fr::from_u64(4))]
    );
    assert!(matches!(parse_merkle_path::<3>(&data), Err(BindingError::ParseError(_))));
    assert!(matches!(parse_merkle_path::<1>(&data), Err(BindingError::ParseError(_))));
    assert!(matches!(parse_merkle_path::<0>(&data), Err(BindingError::ParseError(_))));
    assert!(parse_merkle_path::<0>(&Vec::new()).is_ok());
    let bad = vec![["1".to_string(), "two".to_string()]];
    assert!(matches!(parse_merkle_path::<1>(&bad), Err(BindingError::ParseError(_))));
}

#[test]
fn circuit_is_read_from_the_proof_input() {
    let mut input = zero_input(3);
    input.vortex = "1".to_string();
    input.root = "2".to_string();
    input.public_amount = "3".to_string();
    input.input_nullifier_0 = "4".to_string();
    input.input_nullifier_1 = "5".to_string();
    input.output_commitment_0 = "6".to_string();
    input.output_commitment_1 = "7".to_string();
    input.hashed_account_secret = "8".to_string();
    input.account_secret = "9".to_string();
    input.in_private_key_0 = "10".to_string();
    input.in_private_key_1 = "11".to_string();
    input.in_amount_0 = "12".to_string();
    input.in_amount_1 = "13".to_string();
    input.in_blinding_0 = "14".to_string();
    input.in_blinding_1 = "15".to_string();
    input.in_path_index_0 = "6".to_string();
    input.in_path_index_1 = "7".to_string();
    input.merkle_path_0[1] = ["16".to_string(), "17".to_string()];
    input.merkle_path_1[2] = ["18".to_string(), "19".to_string()];
    input.out_public_key_0 = "20".to_string();
    input.out_public_key_1 = "21".to_string();
    input.out_amount_0 = "22".to_string();
    input.out_amount_1 = "23".to_string();
    input.out_blinding_0 = "24".to_string();
    input.out_blinding_1 = "25".to_string();

    let c: TransactionCircuit<3> = create_circuit_from_input(&input).unwrap();
    let f = Fr::from_u64;
    assert_eq!(c.get_public_inputs(), vec![f(1), f(2), f(3), f(4), f(5), f(6), f(7), f(8)]);
    assert_eq!(c.account_secret, f(9));
    assert_eq!(c.in_private_keys, [f(10), f(11)]);
    assert_eq!(c.in_amounts, [f(12), f(13)]);
    assert_eq!(c.in_blindings, [f(14), f(15)]);
    assert_eq!(c.in_path_indices, [f(6), f(7)]);
    assert_eq!(c.merkle_paths[0].path, [(f(0), f(0)), (f(16), f(17)), (f(0), f(0))]);
    assert_eq!(c.merkle_paths[1].path, [(f(0), f(0)), (f(0), f(0)), (f(18), f(19))]);
    assert_eq!(c.out_public_keys, [f(20), f(21)]);
    assert_eq!(c.out_amounts, [f(22), f(23)]);
    assert_eq!(c.out_blindings, [f(24), f(25)]);
}

#[test]
fn proof_input_is_refused_by_kind() {
    let parse = |input: &ProofInput| {
        matches!(create_circuit_from_input::<3>(input), Err(BindingError::ParseError(_)))
    };
    let refused = |input: &ProofInput| {
        matches!(create_circuit_from_input::<3>(input), Err(BindingError::InputError(_)))
    };
    assert!(create_circuit_from_input::<3>(&zero_input(3)).is_ok());

    let mut input = zero_input(3);
    input.out_blinding_1 = "".to_string();
    assert!(parse(&input));

    let mut input = zero_input(3);
    input.vortex = MODULUS.to_string();
    assert!(parse(&input));

    let mut input = zero_input(3);
    input.merkle_path_1[0][1] = "z".to_string();
    assert!(parse(&input));

    assert!(parse(&zero_input(2)));
    assert!(parse(&zero_input(4)));

    let mut input = zero_input(3);
    input.merkle_path_0.pop();
    assert!(parse(&input));

    let mut input = zero_input(3);
    input.in_path_index_1 = "8".to_string();
    assert!(refused(&input));
    input.in_path_index_1 = "7".to_string();
    assert!(create_circuit_from_input::<3>(&input).is_ok());
    input.in_path_index_0 = "18446744073709551616".to_string();
    assert!(refused(&input));

    // what cannot be read counts before an index that is too large
    let mut input = zero_input(3);
    input.in_path_index_0 = "8".to_string();
    input.out_amount_0 = "?".to_string();
    assert!(parse(&input));
    let mut input = zero_input(2);
    input.in_path_index_0 = "8".to_string();
    assert!(parse(&input));
}

#[test]
fn path_index_is_held_against_the_height() {
    let z = Fr::zero();
    let make = |i0: u64, i1: u64| {
        TransactionCircuit::<3>::new(
            z, z, z, z, z, z, z, z, z,
            [z, z], [z, z], [z, z],
            [Fr::from_u64(i0), Fr::from_u64(i1)],
            [vortex::merkle_tree::Path::empty(), vortex::merkle_tree::Path::empty()],
            [z, z], [z, z], [z, z],
        )
    };
    assert!(make(7, 7).is_ok());
    assert_eq!(
        make(8, 0).unwrap_err(),
        vortex::circuit::CircuitError::PathIndexOutOfRange { input: 0 }
    );
    assert_eq!(
        make(0, 8).unwrap_err(),
        vortex::circuit::CircuitError::PathIndexOutOfRange { input: 1 }
    );
    assert_eq!(
        make(9, 9).unwrap_err(),
        vortex::circuit::CircuitError::PathIndexOutOfRange { input: 0 }
    );
}

#[test]
fn public_inputs_are_encoded_one_after_the_other() {
    let mut input = zero_input(1);
    input.vortex = "1".to_string();
    input.root = "258".to_string();
    input.public_amount = MODULUS_MINUS_ONE.to_string();
    input.hashed_account_secret = "18446744073709551616".to_string();
    let c: TransactionCircuit<1> = create_circuit_from_input(&input).unwrap();
    let bytes = c.get_public_inputs_serialized().unwrap();
    assert_eq!(bytes.len(), 8 * 32);
    let mut expected = vec![0u8; 256];
    expected[0] = 1;
    expected[32] = 2;
    expected[33] = 1;
    let top: [u64; 4] =
        [0x43e1f593f0000000, 0x2833e84879b97091, 0xb85045b68181585d, 0x30644e72e131a029];
    for (i, limb) in top.iter().enumerate() {
        expected[64 + 8 * i..64 + 8 * i + 8].copy_from_slice(&limb.to_le_bytes());
    }
    expected[7 * 32 + 8] = 1;
    assert_eq!(bytes, expected);
}

#[test]
fn proof_output_is_assembled_and_read_back() {
    let mut input = zero_input(1);
    input.vortex = "1".to_string();
    input.root = "0x0102".to_string();
    let c: TransactionCircuit<1> = create_circuit_from_input(&input).unwrap();
    let out = ProofOutput::assemble(&c, vec![0x00, 0x0f], vec![0xa0], vec![0xff])
        .unwrap();
    assert_eq!(out.proof_a, vec![0x00, 0x0f]);
    assert_eq!(out.proof_b, vec![0xa0]);
    assert_eq!(out.proof_c, vec![0xff]);
    assert_eq!(out.public_inputs, texts(&["1", "258", "0", "0", "0", "0", "0", "0"]));
    assert_eq!(out.proof_serialized_hex, "000fa0ff");
    let mut hex = String::new();
    hex.push_str("01");
    hex.push_str(&"0".repeat(62));
    hex.push_str("0201");
    hex.push_str(&"0".repeat(60));
    hex.push_str(&"0".repeat(6 * 64));
    assert_eq!(out.public_inputs_serialized_hex, hex);

    assert_eq!(out.proof_bytes(), Ok(vec![0x00, 0x0f, 0xa0, 0xff]));
    assert_eq!(out.public_input_elements(), Ok(c.get_public_inputs()));
}

#[test]
fn serialized_public_inputs_of_the_zero_circuit_are_zero_bytes() {
    let c = TransactionCircuit::<1>::empty();
    assert_eq!(c.get_public_inputs_serialized(), Ok(vec![0u8; 256]));
    let out = ProofOutput::assemble(&c, vec![], vec![], vec![]).unwrap();
    assert_eq!(out.public_inputs_serialized_hex, "0".repeat(512));
    assert_eq!(out.proof_serialized_hex, "");
}

#[test]
fn trimming_sets_white_space_aside() {
    assert_eq!(vortex::field::trim("  a b \n"), "a b");
    assert_eq!(vortex::field::trim("\u{2028}x\u{85}"), "x");
    assert_eq!(vortex::field::trim(" \t "), "");
    assert_eq!(vortex::field::trim(""), "");
    assert_eq!(vortex::field::trim("x"), "x");
    for text in [" a\u{1680}", "\u{205f}\u{202f}q ", "\u{200b} ", "\u{180e}a", "é \u{2029}"] {
        assert_eq!(vortex::field::trim(text), text.trim());
    }
    for code in 0u32..0x3100 {
        if let Some(ch) = char::from_u32(code) {
            assert_eq!(vortex::field::is_blank_char(ch), ch.is_whitespace(), "{:x}", code);
        }
    }
}

#[test]
fn proof_output_with_bad_texts_is_refused() {
    let c = TransactionCircuit::<1>::empty();
    let mut out = ProofOutput::assemble(&c, vec![1], vec![2], vec![3]).unwrap();
    out.proof_serialized_hex = "0AfF".to_string();
    assert_eq!(out.proof_bytes(), Ok(vec![0x0a, 0xff]));
    out.proof_serialized_hex = "abc".to_string();
    assert!(matches!(out.proof_bytes(), Err(BindingError::ParseError(_))));
    out.proof_serialized_hex = "zz".to_string();
    assert!(matches!(out.proof_bytes(), Err(BindingError::ParseError(_))));
    out.proof_serialized_hex = "".to_string();
    assert_eq!(out.proof_bytes(), Ok(vec![]));
    out.public_inputs[3] = "-".to_string();
    assert!(matches!(out.public_input_elements(), Err(BindingError::ParseError(_))));
}
