//! Elements of the BN254 scalar field, held as four 64-bit limbs of their
//! canonical representative. The arithmetic itself is done by `ark-ff`.

use vstd::arithmetic::power2::pow2;
use vstd::prelude::*;

verus! {

/// Two to the power 64, the weight of one limb.
pub open spec fn limb_base() -> nat {
    0x1_0000_0000_0000_0000
}

/// The number that four little-endian 64-bit limbs stand for.
pub open spec fn limbs_value(l0: u64, l1: u64, l2: u64, l3: u64) -> nat {
    (l0 as nat) + limb_base() * ((l1 as nat) + limb_base() * ((l2 as nat) + limb_base() * (
    l3 as nat)))
}

/// The lowest limb of the modulus.
pub const MODULUS_L0: u64 = 0x43e1f593f0000001;

/// The second limb of the modulus.
pub const MODULUS_L1: u64 = 0x2833e84879b97091;

/// The third limb of the modulus.
pub const MODULUS_L2: u64 = 0xb85045b68181585d;

/// The highest limb of the modulus.
pub const MODULUS_L3: u64 = 0x30644e72e131a029;

/// The prime order of the BN254 scalar field,
/// 21888242871839275222246405745257275088548364400416034343698204186575808495617.
pub open spec fn modulus() -> nat {
    limbs_value(MODULUS_L0, MODULUS_L1, MODULUS_L2, MODULUS_L3)
}

/// The error of `ark-serialize`'s encoders, carried through unread.
#[verifier::external_type_specification]
#[verifier::external_body]
pub struct ExSerializationError(ark_serialize::SerializationError);

/// An element of the field: the canonical representative, below the modulus.
#[derive(Clone, Copy, Debug, PartialEq, Eq, Structural, Hash)]
pub struct Fr {
    l0: u64,
    l1: u64,
    l2: u64,
    l3: u64,
}

impl View for Fr {
    type V = nat;

    closed spec fn view(&self) -> nat {
        limbs_value(self.l0, self.l1, self.l2, self.l3)
    }
}

impl Fr {
    /// Every element is its own canonical representative.
    #[verifier::type_invariant]
    pub open spec fn canonical(&self) -> bool {
        self@ < modulus()
    }

    /// The element zero.
    pub closed spec fn spec_zero() -> Fr {
        Fr { l0: 0, l1: 0, l2: 0, l3: 0 }
    }

    /// The element zero.
    pub fn zero() -> (r: Fr)
        ensures
            r@ == 0,
            r == Fr::spec_zero(),
    {
        Fr { l0: 0, l1: 0, l2: 0, l3: 0 }
    }

    /// The element one.
    pub fn one() -> (r: Fr)
        ensures
            r@ == 1,
    {
        Fr { l0: 1, l1: 0, l2: 0, l3: 0 }
    }

    /// The element of a number that 64 bits hold.
    pub fn from_u64(x: u64) -> (r: Fr)
        ensures
            r@ == x,
    {
        Fr { l0: x, l1: 0, l2: 0, l3: 0 }
    }

    /// The element that four limbs stand for, if they stand for a number
    /// below the modulus.
    pub fn from_limbs(l0: u64, l1: u64, l2: u64, l3: u64) -> (r: Option<Fr>)
        ensures
            r is Some <==> limbs_value(l0, l1, l2, l3) < modulus(),
            r is Some ==> r.unwrap()@ == limbs_value(l0, l1, l2, l3),
    {
        if limbs_below(l0, l1, l2, l3, MODULUS_L0, MODULUS_L1, MODULUS_L2, MODULUS_L3) {
            Some(Fr { l0, l1, l2, l3 })
        } else {
            None
        }
    }

    /// The four limbs of the element, least significant first.
    pub fn limbs(&self) -> (r: [u64; 4])
        ensures
            limbs_value(r[0], r[1], r[2], r[3]) == self@,
    {
        [self.l0, self.l1, self.l2, self.l3]
    }

    /// Whether the element is zero.
    pub fn is_zero(&self) -> (r: bool)
        ensures
            r == (self@ == 0),
    {
        self.l0 == 0 && self.l1 == 0 && self.l2 == 0 && self.l3 == 0
    }

    /// Whether this element's representative is below the other's.
    pub fn lt(&self, other: &Fr) -> (r: bool)
        ensures
            r == (self@ < other@),
    {
        limbs_below(self.l0, self.l1, self.l2, self.l3, other.l0, other.l1, other.l2, other.l3)
    }

    /// The element that a string of decimal digits, or of hexadecimal digits
    /// behind `0x`, stands for; none if the string is no such number or the
    /// number is not below the modulus.
    pub fn parse(s: &str) -> (r: Option<Fr>)
        ensures
            r is Some <==> number_value(s@) is Some && number_value(s@).unwrap() < modulus(),
            r is Some ==> r.unwrap()@ == number_value(s@).unwrap(),
    {
        let n = s.unicode_len();
        let hex = n >= 2 && s.get_char(0) == '0' && (s.get_char(1) == 'x' || s.get_char(1) == 'X');
        if hex {
            if n == 2 {
                None
            } else {
                Self::parse_digits(s, 2, 16)
            }
        } else if n == 0 {
            None
        } else {
            assert(s@.subrange(0, n as int) =~= s@);
            Self::parse_digits(s, 0, 10)
        }
    }

    /// The element that the digits of `s` from `start` on stand for.
    fn parse_digits(s: &str, start: usize, radix: u64) -> (r: Option<Fr>)
        requires
            start <= s@.len(),
            radix == 10 || radix == 16,
        ensures
            r is Some <==> digits_value(s@.subrange(start as int, s@.len() as int), radix as nat)
                is Some && digits_value(
                s@.subrange(start as int, s@.len() as int),
                radix as nat,
            ).unwrap() < modulus(),
            r is Some ==> r.unwrap()@ == digits_value(
                s@.subrange(start as int, s@.len() as int),
                radix as nat,
            ).unwrap(),
    {
        let n = s.unicode_len();
        let ghost digits = s@.subrange(start as int, n as int);
        let mut acc = Fr::zero();
        let mut i: usize = start;
        assert(digits.take(0) =~= Seq::<char>::empty());
        while i < n
            invariant
                n == s@.len(),
                start <= i <= n,
                radix == 10 || radix == 16,
                digits == s@.subrange(start as int, n as int),
                digits_value(digits.take(i - start), radix as nat) == Some(acc@),
            decreases n - i,
        {
            let c = s.get_char(i);
            proof {
                use_type_invariant(&acc);
                lemma_parse_step(digits, (i - start) as nat, radix as nat);
            }
            let d = match digit_of(c, radix) {
                Some(d) => d,
                None => {
                    return None;
                },
            };
            let (l0, l1, l2, l3, carry) = limbs_mul_add(acc.l0, acc.l1, acc.l2, acc.l3, radix, d);
            if carry != 0 {
                proof {
                    lemma_carry_exceeds(l0, l1, l2, l3, carry);
                }
                return None;
            }
            acc = match Fr::from_limbs(l0, l1, l2, l3) {
                Some(x) => x,
                None => {
                    return None;
                },
            };
            i += 1;
        }
        proof {
            use_type_invariant(&acc);
            assert(digits.take(n - start) =~= digits);
        }
        Some(acc)
    }

    /// The sum of two elements.
    pub fn add(&self, other: &Fr) -> (r: Fr)
        ensures
            r@ == (self@ + other@) % modulus(),
    {
        proof {
            use_type_invariant(self);
            use_type_invariant(other);
        }
        fr_add(self, other)
    }

    /// The product of two elements.
    pub fn mul(&self, other: &Fr) -> (r: Fr)
        ensures
            r@ == (self@ * other@) % modulus(),
    {
        proof {
            use_type_invariant(self);
            use_type_invariant(other);
        }
        fr_mul(self, other)
    }

    /// The square of an element.
    pub fn square(&self) -> (r: Fr)
        ensures
            r@ == (self@ * self@) % modulus(),
    {
        proof {
            use_type_invariant(self);
        }
        fr_square(self)
    }

    /// The element that four limbs stand for, reduced by the modulus.
    pub(crate) fn from_limbs_reduced(l0: u64, l1: u64, l2: u64, l3: u64) -> (r: Fr)
        ensures
            r@ == limbs_value(l0, l1, l2, l3) % modulus(),
    {
        fr_from_limbs_reduced(l0, l1, l2, l3)
    }

    /// The 254 bits of the element, least significant first.
    pub fn to_bits_le(&self) -> (r: Vec<bool>)
        ensures
            r@ == bits_le(self@, 254),
    {
        proof {
            use_type_invariant(self);
        }
        let all = fr_to_bits_le(self);
        let mut bits: Vec<bool> = Vec::new();
        let mut i: usize = 0;
        while i < 254
            invariant
                i <= 254,
                all@.len() == 256,
                bits@.len() == i,
                forall|k: int| 0 <= k < i ==> bits@[k] == all@[k],
            decreases 254 - i,
        {
            bits.push(all[i]);
            i += 1;
        }
        assert(bits@ =~= bits_le(self@, 254));
        bits
    }

    /// Appends the 32 bytes of the element's compressed encoding, least
    /// significant first, and says that it did.
    pub fn serialize_compressed(&self, out: &mut Vec<u8>) -> (r: bool)
        ensures
            r,
            final(out)@ == old(out)@ + le_bytes(self@, 32),
    {
        proof {
            use_type_invariant(self);
        }
        match fr_serialize_compressed(self, out) {
            Ok(()) => true,
            Err(_) => false,
        }
    }

    /// The decimal digits of the element, without leading zeros.
    pub fn to_decimal(&self) -> (r: String)
        ensures
            r@ == decimal_digits(self@),
    {
        proof {
            use_type_invariant(self);
        }
        fr_to_decimal(self)
    }

}

/// The lowest `n` bits of a number, least significant first.
pub open spec fn bits_le(v: nat, n: nat) -> Seq<bool> {
    Seq::new(n, |i: int| (v / pow2(i as nat)) % 2 == 1)
}

/// Two to the power 256, the weight of what four limbs cannot hold.
pub open spec fn top_weight() -> nat {
    limb_base() * limb_base() * limb_base() * limb_base()
}

/// A number with a carry out of the fourth limb is not below the modulus.
pub proof fn lemma_carry_exceeds(l0: u64, l1: u64, l2: u64, l3: u64, carry: u64)
    requires
        carry != 0,
    ensures
        limbs_value(l0, l1, l2, l3) + carry * top_weight() >= modulus(),
{
    assert(carry * top_weight() >= top_weight()) by (nonlinear_arith)
        requires
            carry >= 1,
            top_weight() >= 0,
    ;
    lemma_limbs_bound(MODULUS_L0, MODULUS_L1, MODULUS_L2, MODULUS_L3);
}

/// Four limbs stand for a number below two to the power 256.
pub proof fn lemma_limbs_bound(l0: u64, l1: u64, l2: u64, l3: u64)
    ensures
        limbs_value(l0, l1, l2, l3) < top_weight(),
{
    let b = limb_base() as int;
    assert(l0 + b * (l1 + b * (l2 + b * l3)) < b * b * b * b) by (nonlinear_arith)
        requires
            b == 0x1_0000_0000_0000_0000,
            0 <= l0 < b,
            0 <= l1 < b,
            0 <= l2 < b,
            0 <= l3 < b,
    ;
    assert(top_weight() == b * b * b * b) by (nonlinear_arith)
        requires
            top_weight() == limb_base() * limb_base() * limb_base() * limb_base(),
            b == limb_base(),
    ;
}

/// One more digit: the beginning of `n + 1` characters stands for the
/// beginning of `n` times the radix plus the digit, and the whole string
/// stands for no less, if it stands for a number at all.
pub proof fn lemma_parse_step(s: Seq<char>, n: nat, radix: nat)
    requires
        n < s.len(),
        radix >= 1,
        digits_value(s.take(n as int), radix) is Some,
    ensures
        digits_value(s.take(n + 1 as int), radix) == match digit_value(s[n as int], radix) {
            Some(d) => Some(digits_value(s.take(n as int), radix).unwrap() * radix + d),
            None => None::<nat>,
        },
        digits_value(s, radix) is Some ==> digits_value(s.take(n + 1 as int), radix) is Some
            && digits_value(s.take(n + 1 as int), radix).unwrap() <= digits_value(s, radix).unwrap(),
{
    assert(s.take(n + 1 as int).drop_last() =~= s.take(n as int));
    assert(s.take(n + 1 as int).last() == s[n as int]);
    lemma_digits_grow(s, n + 1, radix);
}

/// Whether the number of the first four limbs is below that of the last four.
pub fn limbs_below(a0: u64, a1: u64, a2: u64, a3: u64, b0: u64, b1: u64, b2: u64, b3: u64) -> (r:
    bool)
    ensures
        r == (limbs_value(a0, a1, a2, a3) < limbs_value(b0, b1, b2, b3)),
{
    if a3 != b3 {
        a3 < b3
    } else if a2 != b2 {
        a2 < b2
    } else if a1 != b1 {
        a1 < b1
    } else {
        a0 < b0
    }
}

/// The limbs of `value * m + d` and what is carried out of the top limb.
pub fn limbs_mul_add(l0: u64, l1: u64, l2: u64, l3: u64, m: u64, d: u64) -> (r: (
    u64,
    u64,
    u64,
    u64,
    u64,
))
    ensures
        limbs_value(r.0, r.1, r.2, r.3) + r.4 * top_weight() == limbs_value(l0, l1, l2, l3) * m + d,
{
    let base: u128 = 0x1_0000_0000_0000_0000;
    assert(l0 * m <= 0xffff_ffff_ffff_ffff * 0xffff_ffff_ffff_ffff) by (nonlinear_arith)
        requires
            l0 <= 0xffff_ffff_ffff_ffff,
            m <= 0xffff_ffff_ffff_ffff,
    ;
    assert(l1 * m <= 0xffff_ffff_ffff_ffff * 0xffff_ffff_ffff_ffff) by (nonlinear_arith)
        requires
            l1 <= 0xffff_ffff_ffff_ffff,
            m <= 0xffff_ffff_ffff_ffff,
    ;
    assert(l2 * m <= 0xffff_ffff_ffff_ffff * 0xffff_ffff_ffff_ffff) by (nonlinear_arith)
        requires
            l2 <= 0xffff_ffff_ffff_ffff,
            m <= 0xffff_ffff_ffff_ffff,
    ;
    assert(l3 * m <= 0xffff_ffff_ffff_ffff * 0xffff_ffff_ffff_ffff) by (nonlinear_arith)
        requires
            l3 <= 0xffff_ffff_ffff_ffff,
            m <= 0xffff_ffff_ffff_ffff,
    ;
    let t0: u128 = (l0 as u128) * (m as u128) + (d as u128);
    let n0 = (t0 % base) as u64;
    let c0 = t0 / base;
    let t1: u128 = (l1 as u128) * (m as u128) + c0;
    let n1 = (t1 % base) as u64;
    let c1 = t1 / base;
    let t2: u128 = (l2 as u128) * (m as u128) + c1;
    let n2 = (t2 % base) as u64;
    let c2 = t2 / base;
    let t3: u128 = (l3 as u128) * (m as u128) + c2;
    let n3 = (t3 % base) as u64;
    let c3 = (t3 / base) as u64;
    proof {
        let b = limb_base() as int;
        assert(top_weight() == b * b * b * b) by (nonlinear_arith)
            requires
                top_weight() == limb_base() * limb_base() * limb_base() * limb_base(),
                b == limb_base(),
        ;
        assert(limbs_value(n0, n1, n2, n3) + c3 * (b * b * b * b) == limbs_value(l0, l1, l2, l3)
            * m + d) by (nonlinear_arith)
            requires
                b == 0x1_0000_0000_0000_0000,
                limbs_value(n0, n1, n2, n3) == n0 + b * (n1 + b * (n2 + b * n3)),
                limbs_value(l0, l1, l2, l3) == l0 + b * (l1 + b * (l2 + b * l3)),
                n0 + b * c0 == l0 * m + d,
                n1 + b * c1 == l1 * m + c0,
                n2 + b * c2 == l2 * m + c1,
                n3 + b * c3 == l3 * m + c2,
        ;
    }
    (n0, n1, n2, n3, c3)
}

/// The character is white space: a blank, a tab, a line end or one of the
/// other characters that Unicode gives the property `White_Space`.
pub open spec fn is_blank(c: char) -> bool {
    let code = c as u32;
    ||| 9 <= code <= 13
    ||| code == 0x20
    ||| code == 0x85
    ||| code == 0xA0
    ||| code == 0x1680
    ||| 0x2000 <= code <= 0x200A
    ||| code == 0x2028
    ||| code == 0x2029
    ||| code == 0x202F
    ||| code == 0x205F
    ||| code == 0x3000
}

/// The text without the white space at its beginning.
pub open spec fn trim_start(s: Seq<char>) -> Seq<char>
    decreases s.len(),
{
    if s.len() > 0 && is_blank(s[0]) {
        trim_start(s.drop_first())
    } else {
        s
    }
}

/// The text without the white space at its end.
pub open spec fn trim_end(s: Seq<char>) -> Seq<char>
    decreases s.len(),
{
    if s.len() > 0 && is_blank(s.last()) {
        trim_end(s.drop_last())
    } else {
        s
    }
}

/// The text without the white space around it.
pub open spec fn trimmed(s: Seq<char>) -> Seq<char> {
    trim_end(trim_start(s))
}

/// Whether the character is white space.
pub fn is_blank_char(c: char) -> (r: bool)
    ensures
        r == is_blank(c),
{
    let code = c as u32;
    (9 <= code && code <= 13) || code == 0x20 || code == 0x85 || code == 0xA0 || code == 0x1680
        || (0x2000 <= code && code <= 0x200A) || code == 0x2028 || code == 0x2029 || code
        == 0x202F || code == 0x205F || code == 0x3000
}

/// The text without the white space around it.
pub fn trim(s: &str) -> (r: &str)
    ensures
        r@ == trimmed(s@),
{
    let n = s.unicode_len();
    let mut from: usize = 0;
    let mut looking = true;
    assert(s@.subrange(0, n as int) =~= s@);
    while looking && from < n
        invariant
            n == s@.len(),
            from <= n,
            trim_start(s@) == trim_start(s@.subrange(from as int, n as int)),
            !looking ==> from < n && !is_blank(s@[from as int]),
        decreases n - from + if looking { 1nat } else { 0nat },
    {
        if is_blank_char(s.get_char(from)) {
            assert(s@.subrange(from as int, n as int).drop_first() =~= s@.subrange(
                from + 1,
                n as int,
            ));
            from += 1;
        } else {
            looking = false;
        }
    }
    let ghost rest = s@.subrange(from as int, n as int);
    assert(trim_start(s@) == rest);
    let mut to: usize = n;
    let mut looking = true;
    while looking && to > from
        invariant
            n == s@.len(),
            from <= to <= n,
            rest == s@.subrange(from as int, n as int),
            trim_end(rest) == trim_end(s@.subrange(from as int, to as int)),
            !looking ==> to > from && !is_blank(s@[to - 1]),
        decreases to - from + if looking { 1nat } else { 0nat },
    {
        if is_blank_char(s.get_char(to - 1)) {
            assert(s@.subrange(from as int, to as int).drop_last() =~= s@.subrange(
                from as int,
                to - 1,
            ));
            to -= 1;
        } else {
            looking = false;
        }
    }
    assert(trim_end(rest) == s@.subrange(from as int, to as int));
    s.substring_char(from, to)
}

/// A text that neither begins nor ends with white space is its own trimmed
/// form.
pub proof fn lemma_trimmed_unchanged(s: Seq<char>)
    requires
        s.len() > 0 ==> !is_blank(s[0]) && !is_blank(s.last()),
    ensures
        trimmed(s) == s,
{
}

/// The value of a digit in the given radix, ten or sixteen.
pub open spec fn digit_value(c: char, radix: nat) -> Option<nat> {
    let code = c as u32;
    if 48 <= code <= 57 {
        Some((code - 48) as nat)
    } else if radix == 16 && 97 <= code <= 102 {
        Some((code - 87) as nat)
    } else if radix == 16 && 65 <= code <= 70 {
        Some((code - 55) as nat)
    } else {
        None
    }
}

/// The number that a string of digits stands for; none if a character is no
/// digit of the radix. The empty string stands for zero.
pub open spec fn digits_value(s: Seq<char>, radix: nat) -> Option<nat>
    decreases s.len(),
{
    if s.len() == 0 {
        Some(0)
    } else {
        match (digits_value(s.drop_last(), radix), digit_value(s.last(), radix)) {
            (Some(v), Some(d)) => Some(v * radix + d),
            _ => None,
        }
    }
}

/// The number that a string stands for: hexadecimal digits behind `0x` or
/// `0X`, or else decimal digits, at least one digit in either form.
pub open spec fn number_value(s: Seq<char>) -> Option<nat> {
    if s.len() >= 2 && s[0] == '0' && (s[1] == 'x' || s[1] == 'X') {
        if s.len() == 2 {
            None
        } else {
            digits_value(s.subrange(2, s.len() as int), 16)
        }
    } else if s.len() == 0 {
        None
    } else {
        digits_value(s, 10)
    }
}

/// The character of a digit below ten.
pub open spec fn digit_char(d: nat) -> char {
    ((48 + d) as u8) as char
}

/// The decimal digits of a number, without leading zeros.
pub open spec fn decimal_digits(v: nat) -> Seq<char>
    decreases v,
{
    if v < 10 {
        seq![digit_char(v)]
    } else {
        decimal_digits(v / 10).push(digit_char(v % 10))
    }
}

/// The value of a digit in the given radix, ten or sixteen.
pub fn digit_of(c: char, radix: u64) -> (r: Option<u64>)
    ensures
        r is Some <==> digit_value(c, radix as nat) is Some,
        r is Some ==> r.unwrap() == digit_value(c, radix as nat).unwrap() && r.unwrap() < 16,
{
    let code = c as u32;
    if 48 <= code && code <= 57 {
        Some((code - 48) as u64)
    } else if radix == 16 && 97 <= code && code <= 102 {
        Some((code - 87) as u64)
    } else if radix == 16 && 65 <= code && code <= 70 {
        Some((code - 55) as u64)
    } else {
        None
    }
}

/// A string that stands for a number stands for one at least as large as
/// each of its beginnings does, and its beginnings stand for numbers too.
pub proof fn lemma_digits_grow(s: Seq<char>, n: nat, radix: nat)
    requires
        n <= s.len(),
        radix >= 1,
    ensures
        digits_value(s, radix) is Some ==> digits_value(s.take(n as int), radix) is Some
            && digits_value(s.take(n as int), radix).unwrap() <= digits_value(s, radix).unwrap(),
    decreases s.len(),
{
    if n == s.len() {
        assert(s.take(n as int) =~= s);
    } else {
        assert(s.drop_last().take(n as int) =~= s.take(n as int));
        lemma_digits_grow(s.drop_last(), n, radix);
        if digits_value(s, radix) is Some {
            let v = digits_value(s.drop_last(), radix).unwrap();
            assert(v * radix >= v) by (nonlinear_arith)
                requires
                    radix >= 1,
                    v >= 0,
            ;
        }
    }
}

/// Reading back the decimal digits of a number gives the number.
pub proof fn lemma_decimal_round_trip(v: nat)
    ensures
        digits_value(decimal_digits(v), 10) == Some(v),
        decimal_digits(v).len() >= 1,
        number_value(decimal_digits(v)) == Some(v),
    decreases v,
{
    if v < 10 {
        let s = seq![digit_char(v)];
        assert(s.drop_last() =~= Seq::<char>::empty());
        assert(digits_value(s.drop_last(), 10) == Some(0nat));
        assert(digit_value(s.last(), 10) == Some(v));
    } else {
        lemma_decimal_round_trip(v / 10);
        let s = decimal_digits(v);
        assert(s.drop_last() =~= decimal_digits(v / 10));
        assert(digit_value(s.last(), 10) == Some(v % 10));
    }
    let s = decimal_digits(v);
    lemma_decimal_first_digit(v);
}

/// The decimal digits of a number begin with a digit, never with the mark of
/// a hexadecimal number.
pub proof fn lemma_decimal_first_digit(v: nat)
    ensures
        decimal_digits(v).len() >= 1,
        decimal_digits(v).len() >= 2 ==> decimal_digits(v)[1] != 'x' && decimal_digits(v)[1] != 'X',
        !is_blank(decimal_digits(v)[0]),
        !is_blank(decimal_digits(v).last()),
        trimmed(decimal_digits(v)) == decimal_digits(v),
    decreases v,
{
    if v >= 10 {
        lemma_decimal_first_digit(v / 10);
        let s = decimal_digits(v);
        let t = decimal_digits(v / 10);
        if t.len() >= 2 {
            assert(s[1] == t[1]);
        } else {
            assert(s[1] == digit_char(v % 10));
        }
        assert(s[0] == t[0]);
        assert(s.last() == digit_char(v % 10));
    }
    lemma_trimmed_unchanged(decimal_digits(v));
}

/// The element whose limbs are the four lowest digits of a number to the
/// base of two to the power 64.
pub closed spec fn element(n: nat) -> Fr {
    Fr {
        l0: (n % limb_base()) as u64,
        l1: ((n / limb_base()) % limb_base()) as u64,
        l2: ((n / limb_base() / limb_base()) % limb_base()) as u64,
        l3: ((n / limb_base() / limb_base() / limb_base()) % limb_base()) as u64,
    }
}

/// An element is the element of the number that it stands for.
pub proof fn lemma_element(x: Fr)
    ensures
        element(x@) == x,
{
    let b = limb_base() as int;
    let r2 = x.l2 + b * x.l3;
    let r1 = x.l1 + b * r2;
    let n = x@ as int;
    assert(n == r1 * b + x.l0) by (nonlinear_arith)
        requires
            n == x.l0 + b * r1,
    ;
    vstd::arithmetic::div_mod::lemma_fundamental_div_mod_converse(n, b, r1, x.l0 as int);
    assert(r1 == r2 * b + x.l1) by (nonlinear_arith)
        requires
            r1 == x.l1 + b * r2,
    ;
    vstd::arithmetic::div_mod::lemma_fundamental_div_mod_converse(r1, b, r2, x.l1 as int);
    assert(r2 == x.l3 * b + x.l2) by (nonlinear_arith)
        requires
            r2 == x.l2 + b * x.l3,
    ;
    vstd::arithmetic::div_mod::lemma_fundamental_div_mod_converse(r2, b, x.l3 as int, x.l2 as int);
    vstd::arithmetic::div_mod::lemma_small_mod(x.l3 as nat, b as nat);
}

/// Two elements are equal exactly if they stand for the same number.
pub proof fn lemma_equal_values(a: Fr, b: Fr)
    ensures
        (a == b) <==> (a@ == b@),
{
    if a@ == b@ {
        let base = limb_base() as int;
        let a2 = a.l2 + base * a.l3;
        let b2 = b.l2 + base * b.l3;
        let a1 = a.l1 + base * a2;
        let b1 = b.l1 + base * b2;
        lemma_digit_split(a.l0 as int, a1, b.l0 as int, b1, base);
        lemma_digit_split(a.l1 as int, a2, b.l1 as int, b2, base);
        lemma_digit_split(a.l2 as int, a.l3 as int, b.l2 as int, b.l3 as int, base);
    }
}

/// A number splits in one way only into a digit and the rest.
pub proof fn lemma_digit_split(x: int, p: int, y: int, q: int, base: int)
    requires
        base > 0,
        0 <= x < base,
        0 <= y < base,
        x + base * p == y + base * q,
    ensures
        x == y,
        p == q,
{
    if p > q {
        assert(base * p >= base * q + base) by (nonlinear_arith)
            requires
                p >= q + 1,
                base > 0,
        ;
    } else if p < q {
        assert(base * q >= base * p + base) by (nonlinear_arith)
            requires
                q >= p + 1,
                base > 0,
        ;
    }
}

/// The modulus is a number above one.
pub proof fn lemma_modulus_bounds()
    ensures
        modulus() > 1,
{
}

/// The numbers that a sequence of elements stands for.
pub open spec fn values(s: Seq<Fr>) -> Seq<nat> {
    Seq::new(s.len(), |i: int| s[i]@)
}

/// Product in the field, computed by `ark-ff`'s `Mul` for `Fp`: the product
/// of the two representatives, reduced by the modulus. The limbs of a
/// canonical representative go in by `Fp::new` and come out by
/// `PrimeField::into_bigint`, here and in the wrappers below.
#[verifier::external_body]
fn fr_mul(a: &Fr, b: &Fr) -> (r: Fr)
    requires
        a@ < modulus(),
        b@ < modulus(),
    ensures
        r@ == (a@ * b@) % modulus(),
{
    let x = ark_bn254::Fr::new(ark_ff::BigInt([a.l0, a.l1, a.l2, a.l3]));
    let y = ark_bn254::Fr::new(ark_ff::BigInt([b.l0, b.l1, b.l2, b.l3]));
    let z = ark_ff::PrimeField::into_bigint(x * y).0;
    Fr { l0: z[0], l1: z[1], l2: z[2], l3: z[3] }
}

/// Sum in the field, computed by `ark-ff`'s `Add` for `Fp`: the sum of the
/// two representatives, reduced by the modulus.
#[verifier::external_body]
fn fr_add(a: &Fr, b: &Fr) -> (r: Fr)
    requires
        a@ < modulus(),
        b@ < modulus(),
    ensures
        r@ == (a@ + b@) % modulus(),
{
    let x = ark_bn254::Fr::new(ark_ff::BigInt([a.l0, a.l1, a.l2, a.l3]));
    let y = ark_bn254::Fr::new(ark_ff::BigInt([b.l0, b.l1, b.l2, b.l3]));
    let z = ark_ff::PrimeField::into_bigint(x + y).0;
    Fr { l0: z[0], l1: z[1], l2: z[2], l3: z[3] }
}

/// Square in the field, computed by `ark-ff`'s `Field::square`.
#[verifier::external_body]
fn fr_square(a: &Fr) -> (r: Fr)
    requires
        a@ < modulus(),
    ensures
        r@ == (a@ * a@) % modulus(),
{
    let x = ark_bn254::Fr::new(ark_ff::BigInt([a.l0, a.l1, a.l2, a.l3]));
    let z = ark_ff::PrimeField::into_bigint(ark_ff::Field::square(&x)).0;
    Fr { l0: z[0], l1: z[1], l2: z[2], l3: z[3] }
}

/// The bits of an element, by `ark-ff`'s `BigInteger::to_bits_le` on the
/// element's canonical representative: the 256 bits of the four limbs, least
/// significant first.
#[verifier::external_body]
fn fr_to_bits_le(a: &Fr) -> (r: Vec<bool>)
    requires
        a@ < modulus(),
    ensures
        r@.len() == 256,
        forall|i: int| 0 <= i < 256 ==> r@[i] == ((a@ / pow2(i as nat)) % 2 == 1),
{
    let x = ark_bn254::Fr::new(ark_ff::BigInt([a.l0, a.l1, a.l2, a.l3]));
    ark_ff::BigInteger::to_bits_le(&ark_ff::PrimeField::into_bigint(x))
}

/// The first `n` bytes of a number, least significant first.
pub open spec fn le_bytes(v: nat, n: nat) -> Seq<u8> {
    Seq::new(n, |i: int| ((v / pow2((8 * i) as nat)) % 256) as u8)
}

/// Appends the compressed encoding of an element, by `ark-serialize`'s
/// `CanonicalSerialize::serialize_compressed` for `Fp`: the 32 bytes of the
/// canonical representative, least significant first. Into a vector the
/// encoder of an element without flags has no way to fail.
#[verifier::external_body]
fn fr_serialize_compressed(a: &Fr, out: &mut Vec<u8>) -> (r: Result<
    (),
    ark_serialize::SerializationError,
>)
    requires
        a@ < modulus(),
    ensures
        r is Ok,
        final(out)@ == old(out)@ + le_bytes(a@, 32),
{
    let x = ark_bn254::Fr::new(ark_ff::BigInt([a.l0, a.l1, a.l2, a.l3]));
    ark_serialize::CanonicalSerialize::serialize_compressed(&x, out)
}

/// The decimal digits of an element, by the `Display` of `ark-ff`'s `BigInt`
/// on the element's canonical representative: the digits of the number
/// without leading zeros, `0` for zero.
#[verifier::external_body]
fn fr_to_decimal(a: &Fr) -> (r: String)
    requires
        a@ < modulus(),
    ensures
        r@ == decimal_digits(a@),
{
    let x = ark_bn254::Fr::new(ark_ff::BigInt([a.l0, a.l1, a.l2, a.l3]));
    ark_ff::PrimeField::into_bigint(x).to_string()
}

/// The element that 256 bits stand for, by `ark-ff`'s
/// `PrimeField::from_le_bytes_mod_order`: the number read from the limbs,
/// reduced by the modulus.
#[verifier::external_body]
fn fr_from_limbs_reduced(l0: u64, l1: u64, l2: u64, l3: u64) -> (r: Fr)
    ensures
        r@ == limbs_value(l0, l1, l2, l3) % modulus(),
{
    let mut bytes = [0u8; 32];
    bytes[0..8].copy_from_slice(&l0.to_le_bytes());
    bytes[8..16].copy_from_slice(&l1.to_le_bytes());
    bytes[16..24].copy_from_slice(&l2.to_le_bytes());
    bytes[24..32].copy_from_slice(&l3.to_le_bytes());
    let x = <ark_bn254::Fr as ark_ff::PrimeField>::from_le_bytes_mod_order(&bytes);
    let z = ark_ff::PrimeField::into_bigint(x).0;
    Fr { l0: z[0], l1: z[1], l2: z[2], l3: z[3] }
}

} // verus!
