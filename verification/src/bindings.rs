//! The text interface of the library: field elements as decimal or
//! hexadecimal strings, byte strings as hexadecimal text, and the proof input
//! and output objects.

use crate::circuit::{
    public_input_values, serialized, CircuitError, CircuitValues, TransactionCircuit,
};
use crate::field::{
    decimal_digits, digit_value, lemma_decimal_first_digit, lemma_decimal_round_trip, modulus,
    number_value, trim, trimmed, values, Fr,
};
use crate::merkle_tree::Path;
use crate::poseidon_opt::{hash1, hash2, hash3, hash4};
use vstd::arithmetic::power2::pow2;
use vstd::prelude::*;
use vstd::string::*;

verus! {

/// The error of `hex`'s decoder, carried through unread.
#[verifier::external_type_specification]
#[verifier::external_body]
pub struct ExFromHexError(hex::FromHexError);

/// A failure, by its kind, with a text for the reader.
#[derive(Debug, Clone, PartialEq, Eq)]
pub enum BindingError {
    /// A field element or other text could not be read.
    ParseError(String),
    /// A proving or verifying key could not be decoded.
    KeyError(String),
    /// The prover failed.
    ProofError(String),
    /// The verifier failed; not the same as a proof that does not verify.
    VerifyError(String),
    /// An encoder failed.
    SerializationError(String),
    /// The input is well-formed but not acceptable.
    InputError(String),
    /// Anything else.
    InternalError(String),
}

impl BindingError {
    /// What every message of the error's kind begins with.
    pub open spec fn prefix(&self) -> Seq<char> {
        match self {
            BindingError::ParseError(_) => "Failed to parse field element: "@,
            BindingError::KeyError(_) => "Failed to deserialize key: "@,
            BindingError::ProofError(_) => "Failed to generate proof: "@,
            BindingError::VerifyError(_) => "Failed to verify proof: "@,
            BindingError::SerializationError(_) => "Serialization error: "@,
            BindingError::InputError(_) => "Invalid input: "@,
            BindingError::InternalError(_) => "Internal error: "@,
        }
    }

    /// The text that the error carries.
    pub open spec fn detail(&self) -> Seq<char> {
        match self {
            BindingError::ParseError(s) => s@,
            BindingError::KeyError(s) => s@,
            BindingError::ProofError(s) => s@,
            BindingError::VerifyError(s) => s@,
            BindingError::SerializationError(s) => s@,
            BindingError::InputError(s) => s@,
            BindingError::InternalError(s) => s@,
        }
    }

    /// The message: what the kind's messages begin with, then the text that
    /// the error carries.
    pub fn message(&self) -> (r: String)
        ensures
            r@ == self.prefix() + self.detail(),
    {
        match self {
            BindingError::ParseError(s) => String::from_str(
                "Failed to parse field element: ",
            ).concat(s.as_str()),
            BindingError::KeyError(s) => String::from_str("Failed to deserialize key: ").concat(
                s.as_str(),
            ),
            BindingError::ProofError(s) => String::from_str("Failed to generate proof: ").concat(
                s.as_str(),
            ),
            BindingError::VerifyError(s) => String::from_str("Failed to verify proof: ").concat(
                s.as_str(),
            ),
            BindingError::SerializationError(s) => String::from_str(
                "Serialization error: ",
            ).concat(s.as_str()),
            BindingError::InputError(s) => String::from_str("Invalid input: ").concat(s.as_str()),
            BindingError::InternalError(s) => String::from_str("Internal error: ").concat(
                s.as_str(),
            ),
        }
    }
}

/// The field element that a text stands for: with the white space around
/// it set aside, a decimal number, or a hexadecimal one behind `0x`, below
/// the modulus.
pub open spec fn field_value(s: Seq<char>) -> Option<nat> {
    match number_value(trimmed(s)) {
        Some(v) => if v < modulus() {
            Some(v)
        } else {
            None
        },
        None => None,
    }
}

/// The lower-case hexadecimal digit of a number below sixteen.
pub open spec fn hex_char(d: nat) -> char {
    if d < 10 {
        ((48 + d) as u8) as char
    } else {
        ((87 + d) as u8) as char
    }
}

/// The hexadecimal text of a byte string: two lower-case digits for each
/// byte, the high one first.
pub open spec fn hex_text(bytes: Seq<u8>) -> Seq<char> {
    Seq::new(
        2 * bytes.len(),
        |i: int|
            if i % 2 == 0 {
                hex_char((bytes[i / 2] / 16) as nat)
            } else {
                hex_char((bytes[i / 2] % 16) as nat)
            },
    )
}

/// The text is an even number of hexadecimal digits.
pub open spec fn is_hex_text(s: Seq<char>) -> bool {
    &&& s.len() % 2 == 0
    &&& forall|i: int| 0 <= i < s.len() ==> digit_value(#[trigger] s[i], 16) is Some
}

/// The byte string that a hexadecimal text stands for.
pub open spec fn hex_bytes(s: Seq<char>) -> Seq<u8> {
    Seq::new(
        s.len() / 2,
        |i: int|
            (digit_value(s[2 * i], 16).unwrap() * 16 + digit_value(s[2 * i + 1], 16).unwrap()) as u8,
    )
}

/// The hexadecimal text of a byte string, by `hex::encode`: two lower-case
/// digits for each byte, the high one first.
#[verifier::external_body]
fn hex_encode(bytes: &[u8]) -> (r: String)
    ensures
        r@ == hex_text(bytes@),
{
    hex::encode(bytes)
}

/// The byte string of a hexadecimal text, by `hex::decode`: it succeeds on
/// an even number of digits of either case and gives the bytes that they
/// stand for.
#[verifier::external_body]
fn hex_decode(s: &str) -> (r: Result<Vec<u8>, hex::FromHexError>)
    ensures
        r is Ok <==> is_hex_text(s@),
        r is Ok ==> r.unwrap()@ == hex_bytes(s@),
{
    hex::decode(s)
}

/// Reads a field element from its text.
pub fn parse_field_element(s: &str) -> (r: Result<Fr, BindingError>)
    ensures
        r is Ok <==> field_value(s@) is Some,
        match r {
            Ok(x) => x@ == field_value(s@).unwrap(),
            Err(e) => e is ParseError,
        },
{
    match Fr::parse(trim(s)) {
        Some(x) => Ok(x),
        None => Err(
            BindingError::ParseError(String::from_str("Failed to parse '").concat(s).concat("'")),
        ),
    }
}

/// The decimal text of a field element is read back as the element.
pub proof fn lemma_decimal_text_reads_back(v: nat)
    requires
        v < modulus(),
    ensures
        field_value(decimal_digits(v)) == Some(v),
{
    lemma_decimal_round_trip(v);
    lemma_decimal_first_digit(v);
}

/// The hexadecimal text of a byte string is read back as the byte string.
pub proof fn lemma_hex_text_reads_back(bytes: Seq<u8>)
    ensures
        is_hex_text(hex_text(bytes)),
        hex_bytes(hex_text(bytes)) == bytes,
{
    let text = hex_text(bytes);
    assert forall|d: nat| d < 16 implies digit_value(#[trigger] hex_char(d), 16) == Some(d) by {
        if d < 10 {
            assert((((48 + d) as u8) as char) as u32 == 48 + d);
        } else {
            assert((((87 + d) as u8) as char) as u32 == 87 + d);
        }
    }
    assert forall|i: int| 0 <= i < text.len() implies digit_value(
        #[trigger] text[i],
        16,
    ) is Some by {
        let b = bytes[i / 2];
        if i % 2 == 0 {
            assert(text[i] == hex_char((b / 16) as nat));
        } else {
            assert(text[i] == hex_char((b % 16) as nat));
        }
    }
    assert forall|k: int| 0 <= k < bytes.len() implies #[trigger] hex_bytes(text)[k] == bytes[k] by {
        let b = bytes[k];
        assert(text[2 * k] == hex_char((b / 16) as nat));
        assert(text[2 * k + 1] == hex_char((b % 16) as nat));
    }
    assert(hex_bytes(text) =~= bytes);
}

/// Appends bytes to a vector.
fn append_bytes(out: &mut Vec<u8>, bytes: &Vec<u8>)
    ensures
        final(out)@ == old(out)@ + bytes@,
{
    let n = bytes.len();
    let ghost before = out@;
    let mut i: usize = 0;
    while i < n
        invariant
            n == bytes@.len(),
            i <= n,
            out@ == before + bytes@.take(i as int),
        decreases n - i,
    {
        out.push(bytes[i]);
        assert(out@ =~= before + bytes@.take(i + 1));
        i += 1;
    }
    assert(bytes@.take(n as int) =~= bytes@);
}

/// The decimal text of a field element.
pub fn fr_to_string(f: &Fr) -> (r: String)
    ensures
        r@ == decimal_digits(f@),
{
    f.to_decimal()
}

/// The field elements that texts stand for, if all of them stand for one.
pub open spec fn field_values(texts: Seq<String>) -> Option<Seq<nat>> {
    if forall|i: int| 0 <= i < texts.len() ==> field_value(#[trigger] texts[i]@) is Some {
        Some(Seq::new(texts.len(), |i: int| field_value(texts[i]@).unwrap()))
    } else {
        None
    }
}

/// Reads field elements from their texts.
pub fn parse_field_elements(texts: &Vec<String>) -> (r: Result<Vec<Fr>, BindingError>)
    ensures
        r is Ok <==> field_values(texts@) is Some,
        match r {
            Ok(v) => v@.len() == texts@.len() && values(v@) == field_values(texts@).unwrap(),
            Err(e) => e is ParseError,
        },
{
    let n = texts.len();
    let mut out: Vec<Fr> = Vec::new();
    let mut i: usize = 0;
    while i < n
        invariant
            n == texts@.len(),
            i <= n,
            out@.len() == i,
            forall|k: int| 0 <= k < i ==> field_value(#[trigger] texts@[k]@) == Some(out@[k]@),
        decreases n - i,
    {
        match parse_field_element(texts[i].as_str()) {
            Ok(x) => {
                out.push(x);
            },
            Err(e) => {
                return Err(e);
            },
        }
        i += 1;
    }
    assert(values(out@) =~= field_values(texts@).unwrap());
    Ok(out)
}

/// The Poseidon hash of one field element, from text to text.
pub fn poseidon1(input: String) -> (r: Result<String, BindingError>)
    ensures
        r is Ok <==> field_value(input@) is Some,
        match r {
            Ok(s) => s@ == decimal_digits(crate::poseidon_opt::poseidon1(field_value(input@).unwrap())),
            Err(e) => e is ParseError,
        },
{
    match parse_field_element(input.as_str()) {
        Ok(x) => Ok(fr_to_string(&hash1(&x))),
        Err(e) => Err(e),
    }
}

/// The Poseidon hash of two field elements, from text to text.
pub fn poseidon2(inputs: Vec<String>) -> (r: Result<String, BindingError>)
    ensures
        r is Ok <==> inputs@.len() == 2 && field_values(inputs@) is Some,
        match r {
            Ok(s) => s@ == decimal_digits(
                crate::poseidon_opt::poseidon2(field_values(inputs@).unwrap()[0], field_values(inputs@).unwrap()[1]),
            ),
            Err(e) => if inputs@.len() != 2 {
                e is InputError
            } else {
                e is ParseError
            },
        },
{
    if inputs.len() != 2 {
        return Err(BindingError::InputError(String::from_str("poseidon2 requires 2 inputs")));
    }
    match parse_field_elements(&inputs) {
        Ok(frs) => Ok(fr_to_string(&hash2(&frs[0], &frs[1]))),
        Err(e) => Err(e),
    }
}

/// The Poseidon hash of three field elements, from text to text.
pub fn poseidon3(inputs: Vec<String>) -> (r: Result<String, BindingError>)
    ensures
        r is Ok <==> inputs@.len() == 3 && field_values(inputs@) is Some,
        match r {
            Ok(s) => s@ == decimal_digits(
                crate::poseidon_opt::poseidon3(
                    field_values(inputs@).unwrap()[0],
                    field_values(inputs@).unwrap()[1],
                    field_values(inputs@).unwrap()[2],
                ),
            ),
            Err(e) => if inputs@.len() != 3 {
                e is InputError
            } else {
                e is ParseError
            },
        },
{
    if inputs.len() != 3 {
        return Err(BindingError::InputError(String::from_str("poseidon3 requires 3 inputs")));
    }
    match parse_field_elements(&inputs) {
        Ok(frs) => Ok(fr_to_string(&hash3(&frs[0], &frs[1], &frs[2]))),
        Err(e) => Err(e),
    }
}

/// The Poseidon hash of four field elements, from text to text.
pub fn poseidon4(inputs: Vec<String>) -> (r: Result<String, BindingError>)
    ensures
        r is Ok <==> inputs@.len() == 4 && field_values(inputs@) is Some,
        match r {
            Ok(s) => s@ == decimal_digits(
                crate::poseidon_opt::poseidon4(
                    field_values(inputs@).unwrap()[0],
                    field_values(inputs@).unwrap()[1],
                    field_values(inputs@).unwrap()[2],
                    field_values(inputs@).unwrap()[3],
                ),
            ),
            Err(e) => if inputs@.len() != 4 {
                e is InputError
            } else {
                e is ParseError
            },
        },
{
    if inputs.len() != 4 {
        return Err(BindingError::InputError(String::from_str("poseidon4 requires 4 inputs")));
    }
    match parse_field_elements(&inputs) {
        Ok(frs) => Ok(fr_to_string(&hash4(&frs[0], &frs[1], &frs[2], &frs[3]))),
        Err(e) => Err(e),
    }
}

/// The inputs of a proof, every field element as text.
#[derive(Debug, Clone)]
pub struct ProofInput {
    pub vortex: String,
    pub root: String,
    pub public_amount: String,
    pub input_nullifier_0: String,
    pub input_nullifier_1: String,
    pub output_commitment_0: String,
    pub output_commitment_1: String,
    pub hashed_account_secret: String,
    pub account_secret: String,
    pub in_private_key_0: String,
    pub in_private_key_1: String,
    pub in_amount_0: String,
    pub in_amount_1: String,
    pub in_blinding_0: String,
    pub in_blinding_1: String,
    pub in_path_index_0: String,
    pub in_path_index_1: String,
    /// For each level of the first input's path the left and the right entry.
    pub merkle_path_0: Vec<[String; 2]>,
    /// For each level of the second input's path the left and the right entry.
    pub merkle_path_1: Vec<[String; 2]>,
    pub out_public_key_0: String,
    pub out_public_key_1: String,
    pub out_amount_0: String,
    pub out_amount_1: String,
    pub out_blinding_0: String,
    pub out_blinding_1: String,
}

/// The result of a proof.
#[derive(Debug, Clone)]
pub struct ProofOutput {
    /// The compressed encoding of the proof's first element.
    pub proof_a: Vec<u8>,
    /// The compressed encoding of the proof's second element.
    pub proof_b: Vec<u8>,
    /// The compressed encoding of the proof's third element.
    pub proof_c: Vec<u8>,
    /// The public inputs as decimal texts, in the order of their allocation.
    pub public_inputs: Vec<String>,
    /// The compressed encoding of the whole proof as hexadecimal text.
    pub proof_serialized_hex: String,
    /// The encodings of the public inputs, one after the other, as
    /// hexadecimal text.
    pub public_inputs_serialized_hex: String,
}

/// The kinds of refusal of a proof input.
pub enum Refusal {
    /// A text stands for no field element, or a path has not the tree's
    /// height.
    Parse,
    /// A path index is too large for the tree's height.
    Input,
}

/// Every entry of a path's text stands for a field element.
pub open spec fn path_parses(path: Seq<[String; 2]>) -> bool {
    forall|l: int|
        0 <= l < path.len() ==> field_value((#[trigger] path[l])@[0]@) is Some && field_value(
            path[l]@[1]@,
        ) is Some
}

/// The path that a path's text stands for.
pub open spec fn path_values(path: Seq<[String; 2]>) -> Seq<(nat, nat)> {
    Seq::new(
        path.len(),
        |l: int| (field_value(path[l]@[0]@).unwrap(), field_value(path[l]@[1]@).unwrap()),
    )
}

/// A path's text has one level for each level of the tree, and every entry
/// stands for a field element.
pub open spec fn path_reads(path: Seq<[String; 2]>, height: nat) -> bool {
    path.len() == height && path_parses(path)
}

/// The texts before the paths, in the order in which they are read.
pub open spec fn head_texts(input: ProofInput) -> Seq<Seq<char>> {
    seq![
        input.vortex@,
        input.root@,
        input.public_amount@,
        input.input_nullifier_0@,
        input.input_nullifier_1@,
        input.output_commitment_0@,
        input.output_commitment_1@,
        input.hashed_account_secret@,
        input.account_secret@,
        input.in_private_key_0@,
        input.in_private_key_1@,
        input.in_amount_0@,
        input.in_amount_1@,
        input.in_blinding_0@,
        input.in_blinding_1@,
        input.in_path_index_0@,
        input.in_path_index_1@,
    ]
}

/// The texts behind the paths, in the order in which they are read.
pub open spec fn tail_texts(input: ProofInput) -> Seq<Seq<char>> {
    seq![
        input.out_public_key_0@,
        input.out_public_key_1@,
        input.out_amount_0@,
        input.out_amount_1@,
        input.out_blinding_0@,
        input.out_blinding_1@,
    ]
}

/// Every text of the sequence stands for a field element.
pub open spec fn all_parse(texts: Seq<Seq<char>>) -> bool {
    forall|i: int| 0 <= i < texts.len() ==> field_value(#[trigger] texts[i]) is Some
}

/// Every text before the paths stands for a field element.
pub open spec fn head_parses(input: ProofInput) -> bool {
    all_parse(head_texts(input))
}

/// Every text behind the paths stands for a field element.
pub open spec fn tail_parses(input: ProofInput) -> bool {
    all_parse(tail_texts(input))
}

/// The texts of a sequence of string slices.
pub open spec fn slices_text(texts: Seq<&str>) -> Seq<Seq<char>> {
    Seq::new(texts.len(), |i: int| texts[i]@)
}

/// Reads field elements from their texts.
fn parse_all(texts: &Vec<&str>) -> (r: Result<Vec<Fr>, BindingError>)
    ensures
        r is Ok <==> all_parse(slices_text(texts@)),
        match r {
            Ok(v) => v@.len() == texts@.len() && forall|i: int|
                0 <= i < texts@.len() ==> field_value(texts@[i]@) == Some((#[trigger] v@[i])@),
            Err(e) => e is ParseError,
        },
{
    let n = texts.len();
    let mut out: Vec<Fr> = Vec::new();
    let mut i: usize = 0;
    while i < n
        invariant
            n == texts@.len(),
            i <= n,
            out@.len() == i,
            forall|k: int| 0 <= k < i ==> field_value(texts@[k]@) == Some((#[trigger] out@[k])@),
        decreases n - i,
    {
        match parse_field_element(texts[i]) {
            Ok(x) => {
                out.push(x);
            },
            Err(e) => {
                assert(field_value(slices_text(texts@)[i as int]) is None);
                return Err(e);
            },
        }
        i += 1;
    }
    assert forall|k: int| 0 <= k < n implies field_value(
        #[trigger] slices_text(texts@)[k],
    ) is Some by {
        assert(field_value(texts@[k]@) == Some(out@[k]@));
    }
    Ok(out)
}

/// Why a proof input is refused, if it is: for a text or a path that
/// cannot be read, or else for a path index that is not below two to the
/// power of the tree's height.
pub open spec fn refusal(input: ProofInput, height: nat) -> Option<Refusal> {
    if !(head_parses(input) && path_reads(input.merkle_path_0@, height) && path_reads(
        input.merkle_path_1@,
        height,
    ) && tail_parses(input)) {
        Some(Refusal::Parse)
    } else if !(field_value(input.in_path_index_0@).unwrap() < pow2(height) && field_value(
        input.in_path_index_1@,
    ).unwrap() < pow2(height)) {
        Some(Refusal::Input)
    } else {
        None
    }
}

/// Reads a membership path of the tree's height from its text.
pub fn parse_merkle_path<const H: usize>(path_data: &Vec<[String; 2]>) -> (r: Result<
    Path<H>,
    BindingError,
>)
    ensures
        r is Ok <==> path_reads(path_data@, H as nat),
        match r {
            Ok(path) => path@ == path_values(path_data@),
            Err(e) => e is ParseError,
        },
{
    if path_data.len() != H {
        return Err(BindingError::ParseError(String::from_str("Invalid Merkle path length")));
    }
    let zero = Fr::zero();
    let mut path = [(zero, zero);H];
    let mut i: usize = 0;
    while i < H
        invariant
            path_data@.len() == H,
            i <= H,
            forall|l: int|
                0 <= l < i ==> field_value((#[trigger] path_data@[l])@[0]@) == Some(path@[l].0@)
                    && field_value(path_data@[l]@[1]@) == Some(path@[l].1@),
        decreases H - i,
    {
        let pair = &path_data[i];
        let left = match parse_field_element(pair[0].as_str()) {
            Ok(x) => x,
            Err(e) => {
                return Err(e);
            },
        };
        let right = match parse_field_element(pair[1].as_str()) {
            Ok(x) => x,
            Err(e) => {
                return Err(e);
            },
        };
        path[i] = (left, right);
        i += 1;
    }
    let r = Path { path };
    assert(r@ =~= path_values(path_data@));
    Ok(r)
}

/// Reads the field elements before the paths of a proof input.
fn parse_head(input: &ProofInput) -> (r: Result<Vec<Fr>, BindingError>)
    ensures
        r is Ok <==> head_parses(*input),
        match r {
            Ok(v) => v@.len() == 17 && forall|i: int|
                0 <= i < 17 ==> field_value(head_texts(*input)[i]) == Some((#[trigger] v@[i])@),
            Err(e) => e is ParseError,
        },
{
    let mut texts: Vec<&str> = Vec::new();
    texts.push(input.vortex.as_str());
    texts.push(input.root.as_str());
    texts.push(input.public_amount.as_str());
    texts.push(input.input_nullifier_0.as_str());
    texts.push(input.input_nullifier_1.as_str());
    texts.push(input.output_commitment_0.as_str());
    texts.push(input.output_commitment_1.as_str());
    texts.push(input.hashed_account_secret.as_str());
    texts.push(input.account_secret.as_str());
    texts.push(input.in_private_key_0.as_str());
    texts.push(input.in_private_key_1.as_str());
    texts.push(input.in_amount_0.as_str());
    texts.push(input.in_amount_1.as_str());
    texts.push(input.in_blinding_0.as_str());
    texts.push(input.in_blinding_1.as_str());
    texts.push(input.in_path_index_0.as_str());
    texts.push(input.in_path_index_1.as_str());
    assert(slices_text(texts@) =~= head_texts(*input));
    parse_all(&texts)
}

/// Reads the field elements behind the paths of a proof input.
fn parse_tail(input: &ProofInput) -> (r: Result<Vec<Fr>, BindingError>)
    ensures
        r is Ok <==> tail_parses(*input),
        match r {
            Ok(v) => v@.len() == 6 && forall|i: int|
                0 <= i < 6 ==> field_value(tail_texts(*input)[i]) == Some((#[trigger] v@[i])@),
            Err(e) => e is ParseError,
        },
{
    let mut texts: Vec<&str> = Vec::new();
    texts.push(input.out_public_key_0.as_str());
    texts.push(input.out_public_key_1.as_str());
    texts.push(input.out_amount_0.as_str());
    texts.push(input.out_amount_1.as_str());
    texts.push(input.out_blinding_0.as_str());
    texts.push(input.out_blinding_1.as_str());
    assert(slices_text(texts@) =~= tail_texts(*input));
    parse_all(&texts)
}

/// The values of a circuit are those that the texts of a proof input stand
/// for.
pub open spec fn reads_as(v: CircuitValues, input: ProofInput) -> bool {
    &&& v.vortex == field_value(input.vortex@).unwrap()
    &&& v.root == field_value(input.root@).unwrap()
    &&& v.public_amount == field_value(input.public_amount@).unwrap()
    &&& v.input_nullifier_0 == field_value(input.input_nullifier_0@).unwrap()
    &&& v.input_nullifier_1 == field_value(input.input_nullifier_1@).unwrap()
    &&& v.output_commitment_0 == field_value(input.output_commitment_0@).unwrap()
    &&& v.output_commitment_1 == field_value(input.output_commitment_1@).unwrap()
    &&& v.hashed_account_secret == field_value(input.hashed_account_secret@).unwrap()
    &&& v.account_secret == field_value(input.account_secret@).unwrap()
    &&& v.in_private_keys == seq![
        field_value(input.in_private_key_0@).unwrap(),
        field_value(input.in_private_key_1@).unwrap(),
    ]
    &&& v.in_amounts == seq![
        field_value(input.in_amount_0@).unwrap(),
        field_value(input.in_amount_1@).unwrap(),
    ]
    &&& v.in_blindings == seq![
        field_value(input.in_blinding_0@).unwrap(),
        field_value(input.in_blinding_1@).unwrap(),
    ]
    &&& v.in_path_indices == seq![
        field_value(input.in_path_index_0@).unwrap(),
        field_value(input.in_path_index_1@).unwrap(),
    ]
    &&& v.merkle_paths == seq![
        path_values(input.merkle_path_0@),
        path_values(input.merkle_path_1@),
    ]
    &&& v.out_public_keys == seq![
        field_value(input.out_public_key_0@).unwrap(),
        field_value(input.out_public_key_1@).unwrap(),
    ]
    &&& v.out_amounts == seq![
        field_value(input.out_amount_0@).unwrap(),
        field_value(input.out_amount_1@).unwrap(),
    ]
    &&& v.out_blindings == seq![
        field_value(input.out_blinding_0@).unwrap(),
        field_value(input.out_blinding_1@).unwrap(),
    ]
}

/// The circuit of the elements that were read, unless a path index is too
/// large.
fn circuit_of<const H: usize>(
    input: &ProofInput,
    head: &Vec<Fr>,
    merkle_path_0: Path<H>,
    merkle_path_1: Path<H>,
    tail: &Vec<Fr>,
) -> (r: Result<TransactionCircuit<H>, CircuitError>)
    requires
        head@.len() == 17,
        tail@.len() == 6,
        forall|i: int|
            0 <= i < 17 ==> field_value(head_texts(*input)[i]) == Some((#[trigger] head@[i])@),
        forall|i: int|
            0 <= i < 6 ==> field_value(tail_texts(*input)[i]) == Some((#[trigger] tail@[i])@),
        merkle_path_0@ == path_values(input.merkle_path_0@),
        merkle_path_1@ == path_values(input.merkle_path_1@),
    ensures
        r is Ok <==> field_value(input.in_path_index_0@).unwrap() < pow2(H as nat) && field_value(
            input.in_path_index_1@,
        ).unwrap() < pow2(H as nat),
        r is Ok ==> reads_as(r.unwrap()@, *input),
{
    proof {
        assert(head_texts(*input)[0] == input.vortex@);
        assert(head_texts(*input)[1] == input.root@);
        assert(head_texts(*input)[2] == input.public_amount@);
        assert(head_texts(*input)[3] == input.input_nullifier_0@);
        assert(head_texts(*input)[4] == input.input_nullifier_1@);
        assert(head_texts(*input)[5] == input.output_commitment_0@);
        assert(head_texts(*input)[6] == input.output_commitment_1@);
        assert(head_texts(*input)[7] == input.hashed_account_secret@);
        assert(head_texts(*input)[8] == input.account_secret@);
        assert(head_texts(*input)[9] == input.in_private_key_0@);
        assert(head_texts(*input)[10] == input.in_private_key_1@);
        assert(head_texts(*input)[11] == input.in_amount_0@);
        assert(head_texts(*input)[12] == input.in_amount_1@);
        assert(head_texts(*input)[13] == input.in_blinding_0@);
        assert(head_texts(*input)[14] == input.in_blinding_1@);
        assert(head_texts(*input)[15] == input.in_path_index_0@);
        assert(head_texts(*input)[16] == input.in_path_index_1@);
        assert(tail_texts(*input)[0] == input.out_public_key_0@);
        assert(tail_texts(*input)[1] == input.out_public_key_1@);
        assert(tail_texts(*input)[2] == input.out_amount_0@);
        assert(tail_texts(*input)[3] == input.out_amount_1@);
        assert(tail_texts(*input)[4] == input.out_blinding_0@);
        assert(tail_texts(*input)[5] == input.out_blinding_1@);
    }
    let made = TransactionCircuit::new(
        head[0],
        head[1],
        head[2],
        head[3],
        head[4],
        head[5],
        head[6],
        head[7],
        head[8],
        [head[9], head[10]],
        [head[11], head[12]],
        [head[13], head[14]],
        [head[15], head[16]],
        [merkle_path_0, merkle_path_1],
        [tail[0], tail[1]],
        [tail[2], tail[3]],
        [tail[4], tail[5]],
    );
    proof {
        if made is Ok {
            let v = made.unwrap()@;
            assert(v.in_private_keys =~= seq![head@[9]@, head@[10]@]);
            assert(v.in_amounts =~= seq![head@[11]@, head@[12]@]);
            assert(v.in_blindings =~= seq![head@[13]@, head@[14]@]);
            assert(v.in_path_indices =~= seq![head@[15]@, head@[16]@]);
            assert(v.merkle_paths =~= seq![merkle_path_0@, merkle_path_1@]);
            assert(v.out_public_keys =~= seq![tail@[0]@, tail@[1]@]);
            assert(v.out_amounts =~= seq![tail@[2]@, tail@[3]@]);
            assert(v.out_blindings =~= seq![tail@[4]@, tail@[5]@]);
        }
    }
    made
}

/// Reads the inputs of a transaction circuit for a tree of height `H` from
/// their texts.
pub fn create_circuit_from_input<const H: usize>(input: &ProofInput) -> (r: Result<
    TransactionCircuit<H>,
    BindingError,
>)
    ensures
        r is Ok <==> refusal(*input, H as nat) is None,
        match r {
            Ok(circuit) => reads_as(circuit@, *input),
            Err(e) => match refusal(*input, H as nat) {
                Some(Refusal::Input) => e is InputError,
                _ => e is ParseError,
            },
        },
{
    let head = match parse_head(input) {
        Ok(x) => x,
        Err(e) => {
            return Err(e);
        },
    };
    let merkle_path_0 = match parse_merkle_path::<H>(&input.merkle_path_0) {
        Ok(x) => x,
        Err(e) => {
            return Err(e);
        },
    };
    let merkle_path_1 = match parse_merkle_path::<H>(&input.merkle_path_1) {
        Ok(x) => x,
        Err(e) => {
            return Err(e);
        },
    };
    let tail = match parse_tail(input) {
        Ok(x) => x,
        Err(e) => {
            return Err(e);
        },
    };
    match circuit_of(input, &head, merkle_path_0, merkle_path_1, &tail) {
        Ok(circuit) => Ok(circuit),
        Err(_) => Err(
            BindingError::InputError(
                String::from_str("Input path index exceeds tree capacity"),
            ),
        ),
    }
}

/// The decimal texts of a sequence of numbers.
pub open spec fn decimal_texts(vals: Seq<nat>) -> Seq<Seq<char>> {
    Seq::new(vals.len(), |i: int| decimal_digits(vals[i]))
}

/// The texts of a sequence of strings.
pub open spec fn texts_of(strings: Seq<String>) -> Seq<Seq<char>> {
    Seq::new(strings.len(), |i: int| strings[i]@)
}

impl ProofOutput {
    /// The proof output for a circuit and the encodings of the three elements
    /// of its proof: the elements as they are, the public inputs as decimal
    /// texts, the three elements one after the other as hexadecimal text, and
    /// the encoded public inputs as hexadecimal text. What is written is read
    /// back as it was.
    pub fn assemble<const H: usize>(
        circuit: &TransactionCircuit<H>,
        proof_a: Vec<u8>,
        proof_b: Vec<u8>,
        proof_c: Vec<u8>,
    ) -> (r: Result<ProofOutput, BindingError>)
        ensures
            r is Ok,
            ({
                let out = r.unwrap();
                &&& out.proof_a == proof_a
                &&& out.proof_b == proof_b
                &&& out.proof_c == proof_c
                &&& texts_of(out.public_inputs@) == decimal_texts(public_input_values(circuit@))
                &&& out.proof_serialized_hex@ == hex_text(proof_a@ + proof_b@ + proof_c@)
                &&& out.public_inputs_serialized_hex@ == hex_text(
                    serialized(public_input_values(circuit@)),
                )
                &&& field_values(out.public_inputs@) == Some(public_input_values(circuit@))
                &&& is_hex_text(out.proof_serialized_hex@)
                &&& hex_bytes(out.proof_serialized_hex@) == proof_a@ + proof_b@ + proof_c@
            }),
    {
        let public_inputs_field = circuit.get_public_inputs();
        let public_inputs_serialized = match circuit.get_public_inputs_serialized() {
            Ok(bytes) => bytes,
            Err(_) => vstd::pervasive::unreached(),
        };
        let n = public_inputs_field.len();
        let mut public_inputs: Vec<String> = Vec::new();
        let mut i: usize = 0;
        while i < n
            invariant
                n == public_inputs_field@.len(),
                i <= n,
                public_inputs@.len() == i,
                forall|k: int|
                    0 <= k < i ==> (#[trigger] public_inputs@[k])@ == decimal_digits(
                        public_inputs_field@[k]@,
                    ) && field_value(public_inputs@[k]@) == Some(public_inputs_field@[k]@),
            decreases n - i,
        {
            let x = public_inputs_field[i];
            proof {
                use_type_invariant(&x);
                lemma_decimal_text_reads_back(x@);
            }
            public_inputs.push(fr_to_string(&x));
            i += 1;
        }
        let mut whole: Vec<u8> = Vec::new();
        append_bytes(&mut whole, &proof_a);
        append_bytes(&mut whole, &proof_b);
        append_bytes(&mut whole, &proof_c);
        proof {
            assert(texts_of(public_inputs@) =~= decimal_texts(values(public_inputs_field@)));
            assert(field_values(public_inputs@).unwrap() =~= values(public_inputs_field@));
            assert(whole@ =~= proof_a@ + proof_b@ + proof_c@);
            lemma_hex_text_reads_back(whole@);
        }
        Ok(
            ProofOutput {
                proof_a,
                proof_b,
                proof_c,
                public_inputs,
                proof_serialized_hex: hex_encode(whole.as_slice()),
                public_inputs_serialized_hex: hex_encode(public_inputs_serialized.as_slice()),
            },
        )
    }

    /// The bytes of the proof, read from the hexadecimal text.
    pub fn proof_bytes(&self) -> (r: Result<Vec<u8>, BindingError>)
        ensures
            r is Ok <==> is_hex_text(self.proof_serialized_hex@),
            match r {
                Ok(bytes) => bytes@ == hex_bytes(self.proof_serialized_hex@),
                Err(e) => e is ParseError,
            },
    {
        match hex_decode(self.proof_serialized_hex.as_str()) {
            Ok(bytes) => Ok(bytes),
            Err(_) => Err(BindingError::ParseError(String::from_str("Failed to decode proof hex"))),
        }
    }

    /// The public inputs as field elements, read from their texts.
    pub fn public_input_elements(&self) -> (r: Result<Vec<Fr>, BindingError>)
        ensures
            r is Ok <==> field_values(self.public_inputs@) is Some,
            match r {
                Ok(v) => v@.len() == self.public_inputs@.len() && values(v@) == field_values(
                    self.public_inputs@,
                ).unwrap(),
                Err(e) => e is ParseError,
            },
    {
        parse_field_elements(&self.public_inputs)
    }
}

} // verus!
