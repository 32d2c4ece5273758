//! The Poseidon hash over the BN254 scalar field in its form with sparse
//! partial rounds, for one to four inputs.

use crate::field::{digits_value, lemma_modulus_bounds, modulus, values, Fr};
use crate::poseidon_constants_opt::{
    constants_t2, constants_t3, constants_t4, constants_t5, matrix_values, spec_c_t2, spec_c_t3,
    spec_c_t4, spec_c_t5, spec_m_t2, spec_m_t3, spec_m_t4, spec_m_t5, spec_p_t2, spec_p_t3,
    spec_p_t4, spec_p_t5, spec_s_t2, spec_s_t3, spec_s_t4, spec_s_t5,
};
use vstd::arithmetic::div_mod::{
    lemma_add_mod_noop, lemma_add_mod_noop_right, lemma_mul_mod_noop, lemma_mul_mod_noop_left,
    lemma_small_mod,
};
use vstd::prelude::*;

verus! {

/// The parameters of one instance of the permutation, as numbers.
pub struct PoseidonParams {
    /// Width of the state.
    pub t: nat,
    /// Number of full rounds.
    pub n_rounds_f: nat,
    /// Number of partial rounds.
    pub n_rounds_p: nat,
    /// Round constants.
    pub c: Seq<nat>,
    /// Coefficients of the sparse partial-round mixes.
    pub s: Seq<nat>,
    /// The mixing matrix of the full rounds.
    pub m: Seq<Seq<nat>>,
    /// The matrix of the full round that precedes the partial rounds.
    pub p: Seq<Seq<nat>>,
}

/// The S-box: the fifth power.
pub open spec fn sbox(x: nat) -> nat {
    (x * x * x * x * x) % modulus()
}

/// The S-box on every lane.
pub open spec fn sbox_layer(state: Seq<nat>) -> Seq<nat> {
    Seq::new(state.len(), |i: int| sbox(state[i]))
}

/// Lane `i` gets the constant at `offset + i` added.
pub open spec fn add_round_constants(state: Seq<nat>, c: Seq<nat>, offset: int) -> Seq<nat> {
    Seq::new(state.len(), |i: int| (state[i] + c[offset + i]) % modulus())
}

/// The sum of `matrix[j][i] * state[j]` over the first `n` lanes `j`.
pub open spec fn column_sum(matrix: Seq<Seq<nat>>, state: Seq<nat>, i: int, n: nat) -> nat
    decreases n,
{
    if n == 0 {
        0
    } else {
        column_sum(matrix, state, i, (n - 1) as nat) + matrix[n - 1][i] * state[n - 1]
    }
}

/// The state multiplied by a matrix: lane `i` of the result is the sum of
/// `matrix[j][i] * state[j]` over all lanes `j`.
pub open spec fn mix_layer(state: Seq<nat>, matrix: Seq<Seq<nat>>) -> Seq<nat> {
    Seq::new(state.len(), |i: int| column_sum(matrix, state, i, state.len()) % modulus())
}

/// One full round: S-box on every lane, the constants from `offset` on, then
/// the mix with `matrix`.
pub open spec fn full_round(
    state: Seq<nat>,
    c: Seq<nat>,
    offset: int,
    matrix: Seq<Seq<nat>>,
) -> Seq<nat> {
    mix_layer(add_round_constants(sbox_layer(state), c, offset), matrix)
}

/// The state after the first `n` full rounds.
pub open spec fn opening_rounds(h: PoseidonParams, state: Seq<nat>, n: nat) -> Seq<nat>
    decreases n,
{
    if n == 0 {
        state
    } else {
        full_round(opening_rounds(h, state, (n - 1) as nat), h.c, (n * h.t) as int, h.m)
    }
}

/// Where the constants of the partial rounds begin.
pub open spec fn partial_offset(h: PoseidonParams) -> int {
    ((h.n_rounds_f / 2 + 1) * h.t) as int
}

/// The sum of `s[base + j] * state[j]` over the first `n` lanes `j`.
pub open spec fn sparse_sum(s: Seq<nat>, base: int, state: Seq<nat>, n: nat) -> nat
    decreases n,
{
    if n == 0 {
        0
    } else {
        sparse_sum(s, base, state, (n - 1) as nat) + s[base + n - 1] * state[n - 1]
    }
}

/// Partial round `r`: S-box and constant on lane zero only, then the sparse
/// mix with stride `2t - 1`.
pub open spec fn partial_round(h: PoseidonParams, state: Seq<nat>, r: nat) -> Seq<nat> {
    let x0 = (sbox(state[0]) + h.c[partial_offset(h) + r]) % modulus();
    let st = state.update(0, x0);
    let base = (2 * h.t - 1) * r;
    Seq::new(
        state.len(),
        |k: int|
            if k == 0 {
                sparse_sum(h.s, base, st, h.t) % modulus()
            } else {
                (st[k] + x0 * h.s[base + h.t + k - 1]) % modulus()
            },
    )
}

/// The state after the first `n` partial rounds.
pub open spec fn partial_rounds(h: PoseidonParams, state: Seq<nat>, n: nat) -> Seq<nat>
    decreases n,
{
    if n == 0 {
        state
    } else {
        partial_round(h, partial_rounds(h, state, (n - 1) as nat), (n - 1) as nat)
    }
}

/// The state after the first `n` full rounds that follow the partial rounds.
pub open spec fn closing_rounds(h: PoseidonParams, state: Seq<nat>, n: nat) -> Seq<nat>
    decreases n,
{
    if n == 0 {
        state
    } else {
        full_round(
            closing_rounds(h, state, (n - 1) as nat),
            h.c,
            partial_offset(h) + h.n_rounds_p + (n - 1) * h.t,
            h.m,
        )
    }
}

/// The whole permutation.
pub open spec fn permutation(h: PoseidonParams, state: Seq<nat>) -> Seq<nat> {
    let half = (h.n_rounds_f / 2) as nat;
    let s1 = add_round_constants(state, h.c, 0);
    let s2 = opening_rounds(h, s1, (half - 1) as nat);
    let s3 = full_round(s2, h.c, (half * h.t) as int, h.p);
    let s4 = partial_rounds(h, s3, h.n_rounds_p);
    let s5 = closing_rounds(h, s4, (half - 1) as nat);
    mix_layer(sbox_layer(s5), h.m)
}

/// The hash of `inputs`: lane zero of the permutation of the state that
/// holds zero and then the inputs.
pub open spec fn poseidon(h: PoseidonParams, inputs: Seq<nat>) -> nat {
    permutation(h, seq![0nat] + inputs)[0]
}

/// How many round constants an instance reads.
pub open spec fn constants_needed(t: int, n_rounds_f: int, n_rounds_p: int) -> int {
    (n_rounds_f / 2 + 1) * t + n_rounds_p + (n_rounds_f / 2 - 1) * t
}

/// The standard parameters for state width two.
pub open spec fn params_t2() -> PoseidonParams {
    PoseidonParams {
        t: 2,
        n_rounds_f: 8,
        n_rounds_p: 56,
        c: spec_c_t2(),
        s: spec_s_t2(),
        m: spec_m_t2(),
        p: spec_p_t2(),
    }
}

/// The standard parameters for state width three.
pub open spec fn params_t3() -> PoseidonParams {
    PoseidonParams {
        t: 3,
        n_rounds_f: 8,
        n_rounds_p: 57,
        c: spec_c_t3(),
        s: spec_s_t3(),
        m: spec_m_t3(),
        p: spec_p_t3(),
    }
}

/// The standard parameters for state width four.
pub open spec fn params_t4() -> PoseidonParams {
    PoseidonParams {
        t: 4,
        n_rounds_f: 8,
        n_rounds_p: 56,
        c: spec_c_t4(),
        s: spec_s_t4(),
        m: spec_m_t4(),
        p: spec_p_t4(),
    }
}

/// The standard parameters for state width five.
pub open spec fn params_t5() -> PoseidonParams {
    PoseidonParams {
        t: 5,
        n_rounds_f: 8,
        n_rounds_p: 60,
        c: spec_c_t5(),
        s: spec_s_t5(),
        m: spec_m_t5(),
        p: spec_p_t5(),
    }
}

/// Poseidon hasher for a fixed state width, with its tables.
#[derive(Clone)]
pub struct PoseidonOptimized {
    pub t: usize,
    pub n_rounds_f: usize,
    pub n_rounds_p: usize,
    pub c: Vec<Fr>,
    pub s: Vec<Fr>,
    pub m: Vec<Vec<Fr>>,
    pub p: Vec<Vec<Fr>>,
}

impl View for PoseidonOptimized {
    type V = PoseidonParams;

    open spec fn view(&self) -> PoseidonParams {
        PoseidonParams {
            t: self.t as nat,
            n_rounds_f: self.n_rounds_f as nat,
            n_rounds_p: self.n_rounds_p as nat,
            c: values(self.c@),
            s: values(self.s@),
            m: matrix_values(self.m@),
            p: matrix_values(self.p@),
        }
    }
}

/// A matrix has at least `t` rows of at least `t` elements.
pub open spec fn covers(matrix: Seq<Vec<Fr>>, t: int) -> bool {
    &&& matrix.len() >= t
    &&& forall|j: int| 0 <= j < t ==> (#[trigger] matrix[j])@.len() >= t
}

impl PoseidonOptimized {
    /// The tables are long enough for the width and the round numbers.
    pub open spec fn wf(&self) -> bool {
        &&& self.t >= 1
        &&& self.n_rounds_f >= 2
        &&& self.c@.len() >= constants_needed(
            self.t as int,
            self.n_rounds_f as int,
            self.n_rounds_p as int,
        )
        &&& self.s@.len() >= (2 * self.t - 1) * self.n_rounds_p
        &&& covers(self.m@, self.t as int)
        &&& covers(self.p@, self.t as int)
    }

    /// The hasher for one input, of state width two.
    pub fn new_t2() -> (r: Self)
        ensures
            r.wf(),
            r@ == params_t2(),
    {
        let (c, s, m, p) = constants_t2();
        Self { t: 2, n_rounds_f: 8, n_rounds_p: 56, c, s, m, p }
    }

    /// The hasher for two inputs, of state width three.
    pub fn new_t3() -> (r: Self)
        ensures
            r.wf(),
            r@ == params_t3(),
    {
        let (c, s, m, p) = constants_t3();
        Self { t: 3, n_rounds_f: 8, n_rounds_p: 57, c, s, m, p }
    }

    /// The hasher for three inputs, of state width four.
    pub fn new_t4() -> (r: Self)
        ensures
            r.wf(),
            r@ == params_t4(),
    {
        let (c, s, m, p) = constants_t4();
        Self { t: 4, n_rounds_f: 8, n_rounds_p: 56, c, s, m, p }
    }

    /// The hasher for four inputs, of state width five.
    pub fn new_t5() -> (r: Self)
        ensures
            r.wf(),
            r@ == params_t5(),
    {
        let (c, s, m, p) = constants_t5();
        Self { t: 5, n_rounds_f: 8, n_rounds_p: 60, c, s, m, p }
    }

    /// The S-box: the fifth power, by two squarings and a product.
    fn pow5(x: Fr) -> (r: Fr)
        ensures
            r@ == sbox(x@),
    {
        let x2 = x.square();
        let x4 = x2.square();
        let r = x4.mul(&x);
        proof {
            let p = modulus() as int;
            let a = (x@ * x@) as int;
            lemma_modulus_bounds();
            lemma_mul_mod_noop(a, a, p);
            lemma_mul_mod_noop_left(a * a, x@ as int, p);
            assert((a * a) * x@ == x@ * x@ * x@ * x@ * x@) by (nonlinear_arith)
                requires
                    a == x@ * x@,
            ;
        }
        r
    }

    /// The S-box on every lane.
    fn sbox_layer(state: &Vec<Fr>) -> (r: Vec<Fr>)
        ensures
            r@.len() == state@.len(),
            values(r@) == sbox_layer(values(state@)),
    {
        let n = state.len();
        let mut out: Vec<Fr> = Vec::new();
        let mut i: usize = 0;
        while i < n
            invariant
                n == state@.len(),
                i <= n,
                out@.len() == i,
                forall|k: int| 0 <= k < i ==> (#[trigger] out@[k])@ == sbox(state@[k]@),
            decreases n - i,
        {
            out.push(Self::pow5(state[i]));
            i += 1;
        }
        assert(values(out@) =~= sbox_layer(values(state@)));
        out
    }

    /// Adds to lane `i` the round constant at `offset + i`.
    fn add_round_constants(&self, state: &mut Vec<Fr>, offset: usize)
        requires
            offset + old(state)@.len() <= self.c@.len(),
        ensures
            final(state)@.len() == old(state)@.len(),
            values(final(state)@) == add_round_constants(
                values(old(state)@),
                values(self.c@),
                offset as int,
            ),
    {
        let n = state.len();
        let limit = self.c.len();
        let ghost before = state@;
        let mut i: usize = 0;
        while i < n
            invariant
                n == state@.len(),
                n == before.len(),
                limit == self.c@.len(),
                offset + n <= limit,
                i <= n,
                forall|k: int|
                    0 <= k < i ==> (#[trigger] state@[k])@ == (before[k]@ + self.c@[offset + k]@)
                        % modulus(),
                forall|k: int| i <= k < n ==> #[trigger] state@[k] == before[k],
            decreases n - i,
        {
            let v = state[i].add(&self.c[offset + i]);
            state.set(i, v);
            i += 1;
        }
        assert(values(state@) =~= add_round_constants(
            values(before),
            values(self.c@),
            offset as int,
        ));
    }

    /// The state multiplied by a matrix.
    fn mix(&self, state: &Vec<Fr>, matrix: &Vec<Vec<Fr>>) -> (r: Vec<Fr>)
        requires
            state@.len() == self.t,
            covers(matrix@, self.t as int),
        ensures
            r@.len() == state@.len(),
            values(r@) == mix_layer(values(state@), matrix_values(matrix@)),
    {
        let t = self.t;
        let ghost sv = values(state@);
        let ghost mv = matrix_values(matrix@);
        let mut result: Vec<Fr> = Vec::new();
        let mut i: usize = 0;
        while i < t
            invariant
                t == self.t,
                state@.len() == t,
                covers(matrix@, t as int),
                sv == values(state@),
                mv == matrix_values(matrix@),
                i <= t,
                result@.len() == i,
                forall|k: int|
                    0 <= k < i ==> (#[trigger] result@[k])@ == column_sum(mv, sv, k, t as nat)
                        % modulus(),
            decreases t - i,
        {
            let mut acc = Fr::zero();
            let mut j: usize = 0;
            proof {
                lemma_modulus_bounds();
                lemma_small_mod(0, modulus());
            }
            while j < t
                invariant
                    state@.len() == t,
                    covers(matrix@, t as int),
                    sv == values(state@),
                    mv == matrix_values(matrix@),
                    i < t,
                    j <= t,
                    acc@ == column_sum(mv, sv, i as int, j as nat) % modulus(),
                decreases t - j,
            {
                let prod = matrix[j][i].mul(&state[j]);
                proof {
                    let term = mv[j as int][i as int] * sv[j as int];
                    assert(term == matrix@[j as int]@[i as int]@ * state@[j as int]@);
                    lemma_add_mod_noop(
                        column_sum(mv, sv, i as int, j as nat) as int,
                        term as int,
                        modulus() as int,
                    );
                }
                acc = acc.add(&prod);
                j += 1;
            }
            result.push(acc);
            i += 1;
        }
        assert(values(result@) =~= mix_layer(sv, mv));
        result
    }

    /// One partial round: S-box and constant on lane zero, then the sparse mix.
    fn partial_round(&self, state: &mut Vec<Fr>, r: usize)
        requires
            self.wf(),
            old(state)@.len() == self.t,
            r < self.n_rounds_p,
        ensures
            final(state)@.len() == self.t,
            values(final(state)@) == partial_round(self@, values(old(state)@), r as nat),
    {
        let t = self.t;
        let ghost h = self@;
        let ghost before = values(state@);
        proof {
            lemma_modulus_bounds();
            lemma_small_mod(0, modulus());
            lemma_table_bounds(
                t as int,
                self.n_rounds_f as int,
                self.n_rounds_p as int,
                r as int,
            );
        }
        let c_len = self.c.len();
        let s_len = self.s.len();
        let lane0 = Self::pow5(state[0]);
        let x0 = lane0.add(&self.c[(self.n_rounds_f / 2 + 1) * t + r]);
        state.set(0, x0);
        let ghost st = values(state@);
        assert(st =~= before.update(0, x0@));
        let stride = t + (t - 1);
        let base = stride * r;
        let mut s0 = Fr::zero();
        let mut j: usize = 0;
        while j < t
            invariant
                t == self.t,
                state@.len() == t,
                st == values(state@),
                s_len == self.s@.len(),
                base + 2 * t - 1 <= s_len,
                j <= t,
                s0@ == sparse_sum(values(self.s@), base as int, st, j as nat) % modulus(),
            decreases t - j,
        {
            let prod = self.s[base + j].mul(&state[j]);
            proof {
                let term = values(self.s@)[base + j] * st[j as int];
                lemma_add_mod_noop(
                    sparse_sum(values(self.s@), base as int, st, j as nat) as int,
                    term as int,
                    modulus() as int,
                );
            }
            s0 = s0.add(&prod);
            j += 1;
        }
        let mut k: usize = 1;
        while k < t
            invariant
                t == self.t,
                t >= 1,
                state@.len() == t,
                st.len() == t,
                s_len == self.s@.len(),
                base + 2 * t - 1 <= s_len,
                1 <= k <= t,
                state@[0] == x0,
                forall|i: int|
                    1 <= i < k ==> (#[trigger] state@[i])@ == (st[i] + x0@ * self.s@[base + t + i
                        - 1]@) % modulus(),
                forall|i: int| k <= i < t ==> (#[trigger] state@[i])@ == st[i],
            decreases t - k,
        {
            let prod = x0.mul(&self.s[base + t + k - 1]);
            proof {
                lemma_add_mod_noop_right(
                    st[k as int] as int,
                    (x0@ * self.s@[base + t + k - 1]@) as int,
                    modulus() as int,
                );
            }
            let v = state[k].add(&prod);
            state.set(k, v);
            k += 1;
        }
        state.set(0, s0);
        assert(values(state@) =~= partial_round(h, before, r as nat));
    }

    /// The hash of `inputs`, one fewer than the state is wide.
    pub fn hash(&self, inputs: &[Fr]) -> (r: Fr)
        requires
            self.wf(),
            inputs@.len() == self.t - 1,
        ensures
            r@ == poseidon(self@, values(inputs@)),
    {
        let t = self.t;
        let half = self.n_rounds_f / 2;
        let rounds_p = self.n_rounds_p;
        let c_len = self.c.len();
        let ghost h = self@;
        proof {
            lemma_full_round_bounds(t as int, half as int, rounds_p as int);
        }
        let mut state: Vec<Fr> = Vec::new();
        state.push(Fr::zero());
        let mut i: usize = 0;
        while i < inputs.len()
            invariant
                i <= inputs@.len(),
                state@.len() == i + 1,
                state@[0]@ == 0,
                forall|k: int| 1 <= k <= i ==> #[trigger] state@[k] == inputs@[k - 1],
            decreases inputs@.len() - i,
        {
            state.push(inputs[i]);
            i += 1;
        }
        assert(values(state@) =~= seq![0nat] + values(inputs@));
        self.add_round_constants(&mut state, 0);
        let ghost s1 = values(state@);
        let mut r: usize = 0;
        while r < half - 1
            invariant
                self.wf(),
                t == self.t,
                half == self.n_rounds_f / 2,
                half >= 1,
                c_len == self.c@.len(),
                h == self@,
                forall|q: int| 0 <= q < half - 1 ==> 0 <= #[trigger] ((q + 1) * t) && (q + 1) * t + t <= c_len,
                r <= half - 1,
                state@.len() == t,
                values(state@) == opening_rounds(h, s1, r as nat),
            decreases half - 1 - r,
        {
            state = Self::sbox_layer(&state);
            assert(0 <= (r + 1) * t && (r + 1) * t + t <= c_len);
            self.add_round_constants(&mut state, (r + 1) * t);
            state = self.mix(&state, &self.m);
            r += 1;
        }
        let ghost s2 = values(state@);
        state = Self::sbox_layer(&state);
        self.add_round_constants(&mut state, half * t);
        state = self.mix(&state, &self.p);
        let ghost s3 = values(state@);
        assert(s3 == full_round(s2, h.c, (half * t) as int, h.p));
        let mut r: usize = 0;
        while r < rounds_p
            invariant
                self.wf(),
                t == self.t,
                rounds_p == self.n_rounds_p,
                h == self@,
                r <= rounds_p,
                state@.len() == t,
                values(state@) == partial_rounds(h, s3, r as nat),
            decreases rounds_p - r,
        {
            self.partial_round(&mut state, r);
            r += 1;
        }
        let ghost s4 = values(state@);
        let mut r: usize = 0;
        while r < half - 1
            invariant
                self.wf(),
                t == self.t,
                half == self.n_rounds_f / 2,
                half >= 1,
                rounds_p == self.n_rounds_p,
                c_len == self.c@.len(),
                h == self@,
                0 <= (half + 1) * t,
                (half + 1) * t + rounds_p <= c_len,
                forall|q: int|
                    0 <= q < half - 1 ==> 0 <= #[trigger] (q * t) && (half + 1) * t + rounds_p + q * t
                        + t <= c_len,
                r <= half - 1,
                state@.len() == t,
                values(state@) == closing_rounds(h, s4, r as nat),
            decreases half - 1 - r,
        {
            state = Self::sbox_layer(&state);
            assert(0 <= r * t && (half + 1) * t + rounds_p + r * t + t <= c_len);
            self.add_round_constants(&mut state, (half + 1) * t + rounds_p + r * t);
            state = self.mix(&state, &self.m);
            r += 1;
        }
        state = Self::sbox_layer(&state);
        state = self.mix(&state, &self.m);
        state[0]
    }

    /// The hash of one element.
    pub fn hash1(&self, x: &Fr) -> (r: Fr)
        requires
            self.wf(),
            self.t == 2,
        ensures
            r@ == poseidon(self@, seq![x@]),
    {
        let inputs = [*x];
        assert(values(inputs@) =~= seq![x@]);
        self.hash(inputs.as_slice())
    }

    /// The hash of two elements.
    pub fn hash2(&self, x: &Fr, y: &Fr) -> (r: Fr)
        requires
            self.wf(),
            self.t == 3,
        ensures
            r@ == poseidon(self@, seq![x@, y@]),
    {
        let inputs = [*x, *y];
        assert(values(inputs@) =~= seq![x@, y@]);
        self.hash(inputs.as_slice())
    }

    /// The hash of three elements.
    pub fn hash3(&self, x: &Fr, y: &Fr, z: &Fr) -> (r: Fr)
        requires
            self.wf(),
            self.t == 4,
        ensures
            r@ == poseidon(self@, seq![x@, y@, z@]),
    {
        let inputs = [*x, *y, *z];
        assert(values(inputs@) =~= seq![x@, y@, z@]);
        self.hash(inputs.as_slice())
    }

    /// The hash of four elements.
    pub fn hash4(&self, x: &Fr, y: &Fr, z: &Fr, w: &Fr) -> (r: Fr)
        requires
            self.wf(),
            self.t == 5,
        ensures
            r@ == poseidon(self@, seq![x@, y@, z@, w@]),
    {
        let inputs = [*x, *y, *z, *w];
        assert(values(inputs@) =~= seq![x@, y@, z@, w@]);
        self.hash(inputs.as_slice())
    }
}

/// The Poseidon hash of one element.
pub open spec fn poseidon1(x: nat) -> nat {
    poseidon(params_t2(), seq![x])
}

/// The Poseidon hash of two elements.
pub open spec fn poseidon2(x: nat, y: nat) -> nat {
    poseidon(params_t3(), seq![x, y])
}

/// The Poseidon hash of three elements.
pub open spec fn poseidon3(x: nat, y: nat, z: nat) -> nat {
    poseidon(params_t4(), seq![x, y, z])
}

/// The Poseidon hash of four elements.
pub open spec fn poseidon4(x: nat, y: nat, z: nat, w: nat) -> nat {
    poseidon(params_t5(), seq![x, y, z, w])
}

/// The element that a string of decimal digits stands for.
pub fn fr_from_str(s: &str) -> (r: Fr)
    requires
        s@.len() >= 1,
        digits_value(s@, 10) is Some,
        digits_value(s@, 10).unwrap() < modulus(),
    ensures
        r@ == digits_value(s@, 10).unwrap(),
{
    proof {
        if s@.len() >= 2 {
            let t = s@.take(2);
            crate::field::lemma_digits_grow(s@, 2, 10);
            assert(t.drop_last().drop_last() =~= Seq::<char>::empty());
            assert(t.last() == s@[1]);
        }
    }
    match Fr::parse(s) {
        Some(x) => x,
        None => vstd::pervasive::unreached(),
    }
}

/// The Poseidon hash of one element, with the standard parameters.
pub fn hash1(x: &Fr) -> (r: Fr)
    ensures
        r@ == poseidon1(x@),
{
    PoseidonOptimized::new_t2().hash1(x)
}

/// The Poseidon hash of two elements, with the standard parameters.
pub fn hash2(x: &Fr, y: &Fr) -> (r: Fr)
    ensures
        r@ == poseidon2(x@, y@),
{
    PoseidonOptimized::new_t3().hash2(x, y)
}

/// The Poseidon hash of three elements, with the standard parameters.
pub fn hash3(x: &Fr, y: &Fr, z: &Fr) -> (r: Fr)
    ensures
        r@ == poseidon3(x@, y@, z@),
{
    PoseidonOptimized::new_t4().hash3(x, y, z)
}

/// The Poseidon hash of four elements, with the standard parameters.
pub fn hash4(x: &Fr, y: &Fr, z: &Fr, w: &Fr) -> (r: Fr)
    ensures
        r@ == poseidon4(x@, y@, z@, w@),
{
    PoseidonOptimized::new_t5().hash4(x, y, z, w)
}

/// The constants of every full round lie within the table of a well-formed
/// hasher with `half` full rounds on each side of `rounds_p` partial ones.
pub proof fn lemma_full_round_bounds(t: int, half: int, rounds_p: int)
    requires
        t >= 1,
        half >= 1,
        rounds_p >= 0,
    ensures
        t <= (half + 1) * t + rounds_p + (half - 1) * t,
        forall|q: int|
            0 <= q < half - 1 ==> 0 <= #[trigger] ((q + 1) * t) && (q + 1) * t + t <= (half + 1) * t
                + rounds_p + (half - 1) * t,
        0 <= half * t,
        half * t + t <= (half + 1) * t + rounds_p + (half - 1) * t,
        0 <= (half + 1) * t,
        forall|q: int|
            0 <= q < half - 1 ==> 0 <= #[trigger] (q * t) && (half + 1) * t + rounds_p + q * t + t <= (
            half + 1) * t + rounds_p + (half - 1) * t,
{
    assert(0 <= (half - 1) * t) by (nonlinear_arith)
        requires
            half >= 1,
            t >= 1,
    ;
    assert(half * t + t == (half + 1) * t) by (nonlinear_arith);
    assert(0 <= half * t) by (nonlinear_arith)
        requires
            half >= 1,
            t >= 1,
    ;
    assert(t <= (half + 1) * t) by (nonlinear_arith)
        requires
            half >= 1,
            t >= 1,
    ;
    assert forall|q: int| 0 <= q < half - 1 implies 0 <= #[trigger] ((q + 1) * t) && (q + 1) * t
        + t <= (half + 1) * t + rounds_p + (half - 1) * t by {
        assert(0 <= (q + 1) * t && (q + 1) * t + t <= (half + 1) * t) by (nonlinear_arith)
            requires
                0 <= q,
                q + 2 <= half + 1,
                t >= 1,
        ;
    }
    assert forall|q: int| 0 <= q < half - 1 implies 0 <= #[trigger] (q * t) && (half + 1) * t
        + rounds_p + q * t + t <= (half + 1) * t + rounds_p + (half - 1) * t by {
        assert(0 <= q * t && q * t + t <= (half - 1) * t) by (nonlinear_arith)
            requires
                0 <= q,
                q + 1 <= half - 1,
                t >= 1,
        ;
    }
}

/// The indices that partial round `r` reads lie within tables of the
/// lengths that a well-formed hasher has.
pub proof fn lemma_table_bounds(t: int, n_rounds_f: int, n_rounds_p: int, r: int)
    requires
        t >= 1,
        n_rounds_f >= 2,
        0 <= r < n_rounds_p,
    ensures
        0 <= (n_rounds_f / 2 + 1) * t,
        (n_rounds_f / 2 + 1) * t + r < constants_needed(t, n_rounds_f, n_rounds_p),
        0 <= (t * 2 - 1) * r,
        2 * t - 1 <= (2 * t - 1) * n_rounds_p,
        (t * 2 - 1) * r + 2 * t - 1 <= (2 * t - 1) * n_rounds_p,
{
    let half = n_rounds_f / 2;
    assert(0 <= (half + 1) * t) by (nonlinear_arith)
        requires
            half >= 1,
            t >= 1,
    ;
    assert(0 <= (half - 1) * t) by (nonlinear_arith)
        requires
            half >= 1,
            t >= 1,
    ;
    assert(0 <= (t * 2 - 1) * r) by (nonlinear_arith)
        requires
            t >= 1,
            r >= 0,
    ;
    assert((t * 2 - 1) * r + 2 * t - 1 == (2 * t - 1) * (r + 1)) by (nonlinear_arith);
    assert((2 * t - 1) * (r + 1) <= (2 * t - 1) * n_rounds_p) by (nonlinear_arith)
        requires
            t >= 1,
            r + 1 <= n_rounds_p,
    ;
}

} // verus!
