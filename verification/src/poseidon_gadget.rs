//! The Poseidon hash as operations of a circuit: the same rounds as the
//! native hash, on variables.

use crate::constraints::{
    alike, all_fields, extends, field_at, fields_at, is_field, lemma_alike_chain,
    lemma_alike_push, lemma_alike_same, lemma_extends_fields, same_growth, Circuit, Op,
};
use crate::field::{element, lemma_element, lemma_modulus_bounds, modulus, values, Fr};
use crate::poseidon_constants_opt::{
    constants_t2, constants_t3, constants_t4, constants_t5, matrix_values,
};
use crate::poseidon_opt::{
    add_round_constants, closing_rounds, column_sum, constants_needed, covers, full_round,
    lemma_full_round_bounds, lemma_table_bounds, mix_layer, opening_rounds, params_t2, params_t3,
    params_t4, params_t5, partial_round, partial_rounds, poseidon, sbox, sbox_layer, sparse_sum,
    PoseidonOptimized, PoseidonParams,
};
use vstd::arithmetic::div_mod::{
    lemma_add_mod_noop, lemma_add_mod_noop_right, lemma_mul_mod_noop, lemma_mul_mod_noop_left,
    lemma_small_mod,
};
use vstd::prelude::*;

verus! {

/// The operations of the S-box on the variable `x` behind the program `p`,
/// and the position of the result.
pub open spec fn pow5_prog(p: Seq<Op>, x: usize) -> (Seq<Op>, usize) {
    (
        p.push(Op::Square(x)).push(Op::Square(p.len() as usize)).push(
            Op::Mul((p.len() + 1) as usize, x),
        ),
        (p.len() + 2) as usize,
    )
}

/// The program behind the S-boxes on the first `n` lanes, and the positions
/// of their results.
pub open spec fn sbox_layer_prog(p: Seq<Op>, state: Seq<usize>, n: nat) -> (Seq<Op>, Seq<usize>)
    decreases n,
{
    if n == 0 {
        (p, Seq::empty())
    } else {
        let before = sbox_layer_prog(p, state, (n - 1) as nat);
        let step = pow5_prog(before.0, state[n - 1]);
        (step.0, before.1.push(step.1))
    }
}

/// The program behind the additions of round constants to the first `n`
/// lanes, and the state with the positions of the sums in those lanes.
pub open spec fn add_constants_prog(
    p: Seq<Op>,
    state: Seq<usize>,
    constants: Seq<nat>,
    offset: int,
    n: nat,
) -> (Seq<Op>, Seq<usize>)
    decreases n,
{
    if n == 0 {
        (p, state)
    } else {
        let before = add_constants_prog(p, state, constants, offset, (n - 1) as nat);
        (
            before.0.push(Op::AddConstant(state[n - 1], element(constants[offset + n - 1]))),
            before.1.update(n - 1, before.0.len() as usize),
        )
    }
}

/// The program behind the sum of the first `n` products of a lane with its
/// coefficient, from the constant zero on, and the position of the sum.
pub open spec fn weighted_sum_prog(
    p: Seq<Op>,
    state: Seq<usize>,
    weights: Seq<nat>,
    n: nat,
) -> (Seq<Op>, usize)
    decreases n,
{
    if n == 0 {
        (p.push(Op::Constant(Fr::spec_zero())), p.len() as usize)
    } else {
        let before = weighted_sum_prog(p, state, weights, (n - 1) as nat);
        (
            before.0.push(Op::MulConstant(state[n - 1], element(weights[n - 1]))).push(
                Op::Add(before.1, before.0.len() as usize),
            ),
            (before.0.len() + 1) as usize,
        )
    }
}

/// Column `i` of a matrix.
pub open spec fn matrix_column(matrix: Seq<Seq<nat>>, i: int, t: nat) -> Seq<nat> {
    Seq::new(t, |j: int| matrix[j][i])
}

/// The program behind the first `n` lanes of the state multiplied by a
/// matrix, and the positions of those lanes.
pub open spec fn mix_prog(p: Seq<Op>, state: Seq<usize>, matrix: Seq<Seq<nat>>, t: nat, n: nat) -> (
    Seq<Op>,
    Seq<usize>,
)
    decreases n,
{
    if n == 0 {
        (p, Seq::empty())
    } else {
        let before = mix_prog(p, state, matrix, t, (n - 1) as nat);
        let row = weighted_sum_prog(before.0, state, matrix_column(matrix, n - 1, t), t);
        (row.0, before.1.push(row.1))
    }
}

/// The program behind the lanes one to `n - 1` of a sparse mix: to each the
/// product of lane zero with the lane's coefficient is added.
pub open spec fn sparse_lanes_prog(
    p: Seq<Op>,
    state: Seq<usize>,
    x0: usize,
    weights: Seq<nat>,
    n: nat,
) -> (Seq<Op>, Seq<usize>)
    decreases n,
{
    if n <= 1 {
        (p, state)
    } else {
        let before = sparse_lanes_prog(p, state, x0, weights, (n - 1) as nat);
        (
            before.0.push(Op::MulConstant(x0, element(weights[n - 1]))).push(
                Op::Add(state[n - 1], before.0.len() as usize),
            ),
            before.1.update(n - 1, (before.0.len() + 1) as usize),
        )
    }
}

/// The coefficients of lane zero's sum in partial round `r`.
pub open spec fn sparse_row(s: Seq<nat>, t: nat, r: nat) -> Seq<nat> {
    Seq::new(t, |j: int| s[(t + (t - 1)) * r + j])
}

/// The coefficients by which lane zero is added to the other lanes in
/// partial round `r`; the entry for lane zero is not read.
pub open spec fn sparse_column(s: Seq<nat>, t: nat, r: nat) -> Seq<nat> {
    Seq::new(t, |k: int| s[(t + (t - 1)) * r + t + k - 1])
}

/// The program behind one partial round, and the positions of the state
/// after it.
pub open spec fn partial_round_prog(
    h: PoseidonParams,
    p: Seq<Op>,
    state: Seq<usize>,
    r: nat,
) -> (Seq<Op>, Seq<usize>) {
    let t = h.t;
    let lane0 = pow5_prog(p, state[0]);
    let x0 = lane0.0.len() as usize;
    let ops1 = lane0.0.push(Op::AddConstant(lane0.1, element(h.c[((h.n_rounds_f / 2 + 1) * t + r) as int])));
    let st = state.update(0, x0);
    let sum = weighted_sum_prog(ops1, st, sparse_row(h.s, t, r), t);
    let lanes = sparse_lanes_prog(sum.0, st, x0, sparse_column(h.s, t, r), t);
    (lanes.0, lanes.1.update(0, sum.1))
}

/// The program behind one full round, and the positions of the state after
/// it.
pub open spec fn full_round_prog(
    h: PoseidonParams,
    p: Seq<Op>,
    state: Seq<usize>,
    offset: int,
    matrix: Seq<Seq<nat>>,
) -> (Seq<Op>, Seq<usize>) {
    let a = sbox_layer_prog(p, state, state.len());
    let b = add_constants_prog(a.0, a.1, h.c, offset, a.1.len());
    mix_prog(b.0, b.1, matrix, h.t, h.t)
}

/// The program behind the first `n` full rounds.
pub open spec fn opening_prog(h: PoseidonParams, p: Seq<Op>, state: Seq<usize>, n: nat) -> (
    Seq<Op>,
    Seq<usize>,
)
    decreases n,
{
    if n == 0 {
        (p, state)
    } else {
        let before = opening_prog(h, p, state, (n - 1) as nat);
        full_round_prog(h, before.0, before.1, (n * h.t) as int, h.m)
    }
}

/// The program behind the first `n` partial rounds.
pub open spec fn partial_prog(h: PoseidonParams, p: Seq<Op>, state: Seq<usize>, n: nat) -> (
    Seq<Op>,
    Seq<usize>,
)
    decreases n,
{
    if n == 0 {
        (p, state)
    } else {
        let before = partial_prog(h, p, state, (n - 1) as nat);
        partial_round_prog(h, before.0, before.1, (n - 1) as nat)
    }
}

/// The program behind the first `n` full rounds that follow the partial
/// rounds.
pub open spec fn closing_prog(h: PoseidonParams, p: Seq<Op>, state: Seq<usize>, n: nat) -> (
    Seq<Op>,
    Seq<usize>,
)
    decreases n,
{
    if n == 0 {
        (p, state)
    } else {
        let before = closing_prog(h, p, state, (n - 1) as nat);
        full_round_prog(
            h,
            before.0,
            before.1,
            ((h.n_rounds_f / 2 + 1) * h.t + h.n_rounds_p + (n - 1) * h.t) as int,
            h.m,
        )
    }
}

/// The program behind the hash of the variables `inputs`, and the position
/// of the hash: the operations depend on the hasher's tables, on the program
/// before and on the positions of the inputs, not on any value that a
/// variable carries.
#[verifier::opaque]
pub open spec fn hash_prog(h: PoseidonParams, p: Seq<Op>, inputs: Seq<usize>) -> (
    Seq<Op>,
    usize,
) {
    let half = (h.n_rounds_f / 2) as nat;
    let state = seq![p.len() as usize] + inputs;
    let s1 = add_constants_prog(p.push(Op::Constant(Fr::spec_zero())), state, h.c, 0, state.len());
    let s2 = opening_prog(h, s1.0, s1.1, (half - 1) as nat);
    let s3 = full_round_prog(h, s2.0, s2.1, (half * h.t) as int, h.p);
    let s4 = partial_prog(h, s3.0, s3.1, h.n_rounds_p);
    let s5 = closing_prog(h, s4.0, s4.1, (half - 1) as nat);
    let a = sbox_layer_prog(s5.0, s5.1, s5.1.len());
    let m = mix_prog(a.0, a.1, h.m, h.t, h.t);
    (m.0, m.1[0])
}

/// The Poseidon hasher for variables of a circuit, with its tables.
#[derive(Clone)]
pub struct PoseidonOptimizedVar {
    pub t: usize,
    pub n_rounds_f: usize,
    pub n_rounds_p: usize,
    pub c: Vec<Fr>,
    pub s: Vec<Fr>,
    pub m: Vec<Vec<Fr>>,
    pub p: Vec<Vec<Fr>>,
}

impl View for PoseidonOptimizedVar {
    type V = PoseidonParams;

    open spec fn view(&self) -> PoseidonParams {
        PoseidonParams {
            t: self.t as nat,
            n_rounds_f: self.n_rounds_f as nat,
            n_rounds_p: self.n_rounds_p as nat,
            c: values(self.c@),
            s: values(self.s@),
            m: matrix_values(self.m@),
            p: matrix_values(self.p@),
        }
    }
}

impl PoseidonOptimizedVar {
    /// The tables are long enough for the width and the round numbers.
    pub open spec fn wf(&self) -> bool {
        &&& self.t >= 1
        &&& self.n_rounds_f >= 2
        &&& self.c@.len() >= constants_needed(
            self.t as int,
            self.n_rounds_f as int,
            self.n_rounds_p as int,
        )
        &&& self.s@.len() >= (2 * self.t - 1) * self.n_rounds_p
        &&& covers(self.m@, self.t as int)
        &&& covers(self.p@, self.t as int)
    }

    /// The hasher for one input, of state width two.
    pub fn new_t2() -> (r: Self)
        ensures
            r.wf(),
            r@ == params_t2(),
    {
        let (c, s, m, p) = constants_t2();
        Self { t: 2, n_rounds_f: 8, n_rounds_p: 56, c, s, m, p }
    }

    /// The hasher for two inputs, of state width three.
    pub fn new_t3() -> (r: Self)
        ensures
            r.wf(),
            r@ == params_t3(),
    {
        let (c, s, m, p) = constants_t3();
        Self { t: 3, n_rounds_f: 8, n_rounds_p: 57, c, s, m, p }
    }

    /// The hasher for three inputs, of state width four.
    pub fn new_t4() -> (r: Self)
        ensures
            r.wf(),
            r@ == params_t4(),
    {
        let (c, s, m, p) = constants_t4();
        Self { t: 4, n_rounds_f: 8, n_rounds_p: 56, c, s, m, p }
    }

    /// The hasher for four inputs, of state width five.
    pub fn new_t5() -> (r: Self)
        ensures
            r.wf(),
            r@ == params_t5(),
    {
        let (c, s, m, p) = constants_t5();
        Self { t: 5, n_rounds_f: 8, n_rounds_p: 60, c, s, m, p }
    }

    /// The hasher for variables with the tables of a native hasher.
    pub fn new_variable(hasher: &PoseidonOptimized) -> (r: Self)
        ensures
            r@ == hasher@,
            hasher.wf() ==> r.wf(),
    {
        let r = Self {
            t: hasher.t,
            n_rounds_f: hasher.n_rounds_f,
            n_rounds_p: hasher.n_rounds_p,
            c: hasher.c.clone(),
            s: hasher.s.clone(),
            m: hasher.m.clone(),
            p: hasher.p.clone(),
        };
        assert(values(r.c@) =~= values(hasher.c@));
        assert(values(r.s@) =~= values(hasher.s@));
        assert(matrix_values(r.m@) =~= matrix_values(hasher.m@));
        assert(matrix_values(r.p@) =~= matrix_values(hasher.p@));
        r
    }

    /// The S-box on a variable: two squarings and a product.
    fn pow5_var(c: &mut Circuit, x: usize) -> (r: usize)
        requires
            old(c).wf(),
            is_field(old(c).slots(), x as int),
        ensures
            final(c).continues(*old(c)),
            is_field(final(c).slots(), r as int),
            final(c).field(r) == sbox(old(c).field(x)),
            (final(c).ops(), r) == pow5_prog(old(c).ops(), x),
    {
        let ghost v = c.field(x);
        let x2 = c.square(x);
        let x4 = c.square(x2);
        let r = c.mul(x4, x);
        proof {
            let p = modulus() as int;
            let a = (v * v) as int;
            lemma_modulus_bounds();
            lemma_mul_mod_noop(a, a, p);
            lemma_mul_mod_noop_left(a * a, v as int, p);
            assert((a * a) * v == v * v * v * v * v) by (nonlinear_arith)
                requires
                    a == v * v,
            ;
        }
        r
    }

    /// The S-box on every lane.
    fn sbox_layer_var(c: &mut Circuit, state: &Vec<usize>) -> (r: Vec<usize>)
        requires
            old(c).wf(),
            all_fields(old(c).slots(), state@),
        ensures
            final(c).continues(*old(c)),
            r@.len() == state@.len(),
            all_fields(final(c).slots(), r@),
            fields_at(final(c).slots(), r@) == sbox_layer(fields_at(old(c).slots(), state@)),
            (final(c).ops(), r@) == sbox_layer_prog(old(c).ops(), state@, state@.len()),
    {
        let ghost c0 = *c;
        let ghost sv = fields_at(c0.slots(), state@);
        let n = state.len();
        let mut out: Vec<usize> = Vec::new();
        let mut i: usize = 0;
        while i < n
            invariant
                n == state@.len(),
                i <= n,
                c.continues(c0),
                all_fields(c0.slots(), state@),
                sv == fields_at(c0.slots(), state@),
                out@.len() == i,
                all_fields(c.slots(), out@),
                (c.ops(), out@) == sbox_layer_prog(c0.ops(), state@, i as nat),
                forall|k: int| 0 <= k < i ==> field_at(c.slots(), #[trigger] out@[k] as int) == sbox(sv[k]),
            decreases n - i,
        {
            let ghost before = *c;
            proof {
                lemma_extends_fields(c.slots(), c0.slots(), state@);
            }
            let r = Self::pow5_var(c, state[i]);
            proof {
                lemma_extends_fields(c.slots(), before.slots(), out@);
                assert(fields_at(before.slots(), state@)[i as int] == sv[i as int]);
            }
            out.push(r);
            assert forall|k: int| 0 <= k < i + 1 implies is_field(c.slots(), #[trigger] out@[k] as int)
                && field_at(c.slots(), out@[k] as int) == sbox(sv[k]) by {
                if k < i {
                    assert(fields_at(c.slots(), out@.drop_last())[k] == fields_at(
                        before.slots(),
                        out@.drop_last(),
                    )[k]);
                    assert(out@.drop_last()[k] == out@[k]);
                }
            }
            i += 1;
        }
        assert(fields_at(c.slots(), out@) =~= sbox_layer(sv));
        out
    }

    /// Adds to lane `i` the round constant at `offset + i`.
    fn add_round_constants_var(&self, c: &mut Circuit, state: &mut Vec<usize>, offset: usize)
        requires
            old(c).wf(),
            all_fields(old(c).slots(), old(state)@),
            offset + old(state)@.len() <= self.c@.len(),
        ensures
            final(c).continues(*old(c)),
            final(state)@.len() == old(state)@.len(),
            all_fields(final(c).slots(), final(state)@),
            fields_at(final(c).slots(), final(state)@) == add_round_constants(
                fields_at(old(c).slots(), old(state)@),
                values(self.c@),
                offset as int,
            ),
            (final(c).ops(), final(state)@) == add_constants_prog(
                old(c).ops(),
                old(state)@,
                values(self.c@),
                offset as int,
                old(state)@.len(),
            ),
    {
        let ghost c0 = *c;
        let ghost ids0 = state@;
        let ghost sv = fields_at(c0.slots(), ids0);
        let n = state.len();
        let limit = self.c.len();
        let mut i: usize = 0;
        while i < n
            invariant
                n == state@.len(),
                n == ids0.len(),
                limit == self.c@.len(),
                offset + n <= limit,
                i <= n,
                c.continues(c0),
                sv == fields_at(c0.slots(), ids0),
                all_fields(c.slots(), state@),
                (c.ops(), state@) == add_constants_prog(
                    c0.ops(),
                    ids0,
                    values(self.c@),
                    offset as int,
                    i as nat,
                ),
                forall|k: int| i <= k < n ==> state@[k] == ids0[k],
                forall|k: int|
                    0 <= k < i ==> field_at(c.slots(), #[trigger] state@[k] as int) == (sv[k]
                        + self.c@[offset + k]@) % modulus(),
                forall|k: int|
                    i <= k < n ==> field_at(c.slots(), #[trigger] state@[k] as int) == sv[k],
            decreases n - i,
        {
            let ghost before = *c;
            let ghost ids = state@;
            proof {
                lemma_element(self.c@[offset + i]);
            }
            let id = c.add_constant(state[i], self.c[offset + i]);
            proof {
                lemma_extends_fields(c.slots(), before.slots(), ids);
            }
            state.set(i, id);
            assert forall|k: int| 0 <= k < n implies is_field(c.slots(), #[trigger] state@[k] as int)
                && field_at(c.slots(), state@[k] as int) == (if k < i + 1 {
                (sv[k] + self.c@[offset + k]@) % modulus()
            } else {
                sv[k]
            }) by {
                if k != i {
                    assert(state@[k] == ids[k]);
                    assert(fields_at(c.slots(), ids)[k] == fields_at(before.slots(), ids)[k]);
                    assert(is_field(c.slots(), ids[k] as int));
                }
            }
            i += 1;
        }
        assert(fields_at(c.slots(), state@) =~= add_round_constants(
            sv,
            values(self.c@),
            offset as int,
        ));
    }

    /// The state multiplied by a matrix.
    fn mix_var(&self, c: &mut Circuit, state: &Vec<usize>, matrix: &Vec<Vec<Fr>>) -> (r: Vec<
        usize,
    >)
        requires
            old(c).wf(),
            state@.len() == self.t,
            covers(matrix@, self.t as int),
            all_fields(old(c).slots(), state@),
        ensures
            final(c).continues(*old(c)),
            r@.len() == state@.len(),
            all_fields(final(c).slots(), r@),
            fields_at(final(c).slots(), r@) == mix_layer(
                fields_at(old(c).slots(), state@),
                matrix_values(matrix@),
            ),
            (final(c).ops(), r@) == mix_prog(
                old(c).ops(),
                state@,
                matrix_values(matrix@),
                self.t as nat,
                self.t as nat,
            ),
    {
        let t = self.t;
        let ghost c0 = *c;
        let ghost sv = fields_at(c0.slots(), state@);
        let ghost mv = matrix_values(matrix@);
        let mut result: Vec<usize> = Vec::new();
        let mut i: usize = 0;
        while i < t
            invariant
                t == self.t,
                state@.len() == t,
                covers(matrix@, t as int),
                c.continues(c0),
                all_fields(c0.slots(), state@),
                sv == fields_at(c0.slots(), state@),
                mv == matrix_values(matrix@),
                i <= t,
                result@.len() == i,
                all_fields(c.slots(), result@),
                (c.ops(), result@) == mix_prog(c0.ops(), state@, mv, t as nat, i as nat),
                forall|k: int|
                    0 <= k < i ==> field_at(c.slots(), #[trigger] result@[k] as int) == column_sum(
                        mv,
                        sv,
                        k,
                        t as nat,
                    ) % modulus(),
            decreases t - i,
        {
            let ghost row_start = *c;
            let ghost column = matrix_column(mv, i as int, t as nat);
            let mut acc = c.constant(Fr::zero());
            let mut j: usize = 0;
            proof {
                lemma_modulus_bounds();
                lemma_small_mod(0, modulus());
            }
            while j < t
                invariant
                    t == self.t,
                    state@.len() == t,
                    covers(matrix@, t as int),
                    c.continues(c0),
                    extends(c.slots(), row_start.slots()),
                    all_fields(c0.slots(), state@),
                    sv == fields_at(c0.slots(), state@),
                    mv == matrix_values(matrix@),
                    i < t,
                    j <= t,
                    is_field(c.slots(), acc as int),
                    column == matrix_column(mv, i as int, t as nat),
                    (c.ops(), acc) == weighted_sum_prog(row_start.ops(), state@, column, j as nat),
                    c.field(acc) == column_sum(mv, sv, i as int, j as nat) % modulus(),
                decreases t - j,
            {
                proof {
                    lemma_extends_fields(c.slots(), c0.slots(), state@);
                    assert(fields_at(c.slots(), state@)[j as int] == sv[j as int]);
                }
                let prod = c.mul_constant(state[j], matrix[j][i]);
                proof {
                    assert(column[j as int] == matrix@[j as int]@[i as int]@);
                    lemma_element(matrix@[j as int]@[i as int]);
                    let term = mv[j as int][i as int] * sv[j as int];
                    assert(mv[j as int][i as int] == matrix@[j as int]@[i as int]@);
                    assert(c.field(prod) == (sv[j as int] * matrix@[j as int]@[i as int]@)
                        % modulus());
                    assert(sv[j as int] * matrix@[j as int]@[i as int]@ == term)
                        by (nonlinear_arith)
                        requires
                            term == mv[j as int][i as int] * sv[j as int],
                            mv[j as int][i as int] == matrix@[j as int]@[i as int]@,
                    ;
                    lemma_add_mod_noop(
                        column_sum(mv, sv, i as int, j as nat) as int,
                        term as int,
                        modulus() as int,
                    );
                }
                acc = c.add(acc, prod);
                j += 1;
            }
            proof {
                lemma_extends_fields(c.slots(), row_start.slots(), result@);
            }
            let ghost earlier = result@;
            result.push(acc);
            assert forall|k: int| 0 <= k < i + 1 implies is_field(
                c.slots(),
                #[trigger] result@[k] as int,
            ) && field_at(c.slots(), result@[k] as int) == column_sum(mv, sv, k, t as nat)
                % modulus() by {
                if k < i {
                    assert(result@[k] == earlier[k]);
                    assert(fields_at(c.slots(), earlier)[k] == fields_at(
                        row_start.slots(),
                        earlier,
                    )[k]);
                    assert(is_field(c.slots(), earlier[k] as int));
                }
            }
            i += 1;
        }
        assert(fields_at(c.slots(), result@) =~= mix_layer(sv, mv));
        result
    }

    /// One partial round: S-box and constant on lane zero, then the sparse mix.
    fn partial_round_var(&self, c: &mut Circuit, state: &mut Vec<usize>, r: usize)
        requires
            self.wf(),
            old(c).wf(),
            old(state)@.len() == self.t,
            all_fields(old(c).slots(), old(state)@),
            r < self.n_rounds_p,
        ensures
            final(c).continues(*old(c)),
            final(state)@.len() == self.t,
            all_fields(final(c).slots(), final(state)@),
            fields_at(final(c).slots(), final(state)@) == partial_round(
                self@,
                fields_at(old(c).slots(), old(state)@),
                r as nat,
            ),
            (final(c).ops(), final(state)@) == partial_round_prog(
                self@,
                old(c).ops(),
                old(state)@,
                r as nat,
            ),
    {
        let t = self.t;
        let ghost h = self@;
        let ghost c0 = *c;
        let ghost ids0 = state@;
        let ghost before = fields_at(c0.slots(), ids0);
        proof {
            lemma_modulus_bounds();
            lemma_small_mod(0, modulus());
            lemma_table_bounds(
                t as int,
                self.n_rounds_f as int,
                self.n_rounds_p as int,
                r as int,
            );
            assert(before[0] == field_at(c0.slots(), ids0[0] as int));
        }
        let c_len = self.c.len();
        let s_len = self.s.len();
        let lane0 = Self::pow5_var(c, state[0]);
        proof {
            lemma_element(self.c@[(self.n_rounds_f / 2 + 1) * t + r]);
        }
        let x0 = c.add_constant(lane0, self.c[(self.n_rounds_f / 2 + 1) * t + r]);
        let ghost c1 = *c;
        let ghost x0v = c1.field(x0);
        proof {
            lemma_extends_fields(c1.slots(), c0.slots(), ids0);
        }
        state.set(0, x0);
        let ghost ids1 = state@;
        let ghost st = fields_at(c1.slots(), ids1);
        proof {
            assert forall|k: int| 0 <= k < t implies is_field(c1.slots(), #[trigger] ids1[k] as int)
                && field_at(c1.slots(), ids1[k] as int) == before.update(0, x0v)[k] by {
                if k != 0 {
                    assert(ids1[k] == ids0[k]);
                    assert(fields_at(c1.slots(), ids0)[k] == fields_at(c0.slots(), ids0)[k]);
                    assert(is_field(c1.slots(), ids0[k] as int));
                }
            }
            assert(st =~= before.update(0, x0v));
        }
        let stride = t + (t - 1);
        let base = stride * r;
        let ghost row = sparse_row(values(self.s@), t as nat, r as nat);
        let ghost column = sparse_column(values(self.s@), t as nat, r as nat);
        let ghost sum_start = *c;
        let mut s0 = c.constant(Fr::zero());
        let mut j: usize = 0;
        while j < t
            invariant
                t == self.t,
                state@.len() == t,
                state@ == ids1,
                base == (t + (t - 1)) * r,
                row == sparse_row(values(self.s@), t as nat, r as nat),
                (c.ops(), s0) == weighted_sum_prog(sum_start.ops(), ids1, row, j as nat),
                c.continues(c0),
                extends(c.slots(), c1.slots()),
                all_fields(c1.slots(), ids1),
                st == fields_at(c1.slots(), ids1),
                s_len == self.s@.len(),
                base + 2 * t - 1 <= s_len,
                j <= t,
                is_field(c.slots(), s0 as int),
                c.field(s0) == sparse_sum(values(self.s@), base as int, st, j as nat) % modulus(),
            decreases t - j,
        {
            proof {
                lemma_extends_fields(c.slots(), c1.slots(), ids1);
                assert(fields_at(c.slots(), ids1)[j as int] == st[j as int]);
            }
            let prod = c.mul_constant(state[j], self.s[base + j]);
            proof {
                assert(row[j as int] == self.s@[base + j]@);
                lemma_element(self.s@[base + j]);
                let term = values(self.s@)[base + j] * st[j as int];
                assert(st[j as int] * self.s@[base + j]@ == term) by (nonlinear_arith)
                    requires
                        term == values(self.s@)[base + j] * st[j as int],
                        values(self.s@)[base + j] == self.s@[base + j]@,
                ;
                lemma_add_mod_noop(
                    sparse_sum(values(self.s@), base as int, st, j as nat) as int,
                    term as int,
                    modulus() as int,
                );
            }
            s0 = c.add(s0, prod);
            j += 1;
        }
        let ghost lanes_start = *c;
        let mut k: usize = 1;
        while k < t
            invariant
                t == self.t,
                t >= 1,
                state@.len() == t,
                base == (t + (t - 1)) * r,
                column == sparse_column(values(self.s@), t as nat, r as nat),
                (c.ops(), state@) == sparse_lanes_prog(lanes_start.ops(), ids1, x0, column, k as nat),
                forall|i: int| k <= i < t ==> state@[i] == ids1[i],
                c.continues(c0),
                extends(c.slots(), c1.slots()),
                all_fields(c1.slots(), ids1),
                st == fields_at(c1.slots(), ids1),
                st.len() == t,
                s_len == self.s@.len(),
                base + 2 * t - 1 <= s_len,
                1 <= k <= t,
                is_field(c.slots(), x0 as int),
                c.field(x0) == x0v,
                is_field(c.slots(), s0 as int),
                c.field(s0) == sparse_sum(values(self.s@), base as int, st, t as nat) % modulus(),
                all_fields(c.slots(), state@),
                forall|i: int|
                    1 <= i < k ==> field_at(c.slots(), #[trigger] state@[i] as int) == (st[i] + x0v
                        * self.s@[base + t + i - 1]@) % modulus(),
                forall|i: int|
                    k <= i < t ==> field_at(c.slots(), #[trigger] state@[i] as int) == st[i],
            decreases t - k,
        {
            let ghost prev = *c;
            let ghost ids = state@;
            let prod = c.mul_constant(x0, self.s[base + t + k - 1]);
            let v = c.add(state[k], prod);
            proof {
                assert(column[k as int] == self.s@[base + t + k - 1]@);
                lemma_element(self.s@[base + t + k - 1]);
                lemma_add_mod_noop_right(
                    st[k as int] as int,
                    (x0v * self.s@[base + t + k - 1]@) as int,
                    modulus() as int,
                );
                lemma_extends_fields(c.slots(), prev.slots(), ids);
            }
            state.set(k, v);
            assert forall|i: int| 0 <= i < t implies is_field(c.slots(), #[trigger] state@[i] as int)
                by {
                if i != k {
                    assert(state@[i] == ids[i]);
                    assert(is_field(c.slots(), ids[i] as int));
                }
            }
            assert forall|i: int| 1 <= i < k + 1 implies field_at(
                c.slots(),
                #[trigger] state@[i] as int,
            ) == (st[i] + x0v * self.s@[base + t + i - 1]@) % modulus() by {
                if i != k {
                    assert(state@[i] == ids[i]);
                    assert(fields_at(c.slots(), ids)[i] == fields_at(prev.slots(), ids)[i]);
                }
            }
            assert forall|i: int| k + 1 <= i < t implies field_at(
                c.slots(),
                #[trigger] state@[i] as int,
            ) == st[i] by {
                assert(state@[i] == ids[i]);
                assert(fields_at(c.slots(), ids)[i] == fields_at(prev.slots(), ids)[i]);
            }
            k += 1;
        }
        state.set(0, s0);
        assert(all_fields(c.slots(), state@));
        assert(fields_at(c.slots(), state@) =~= partial_round(h, before, r as nat));
    }

    /// The hash of the variables `inputs`, one fewer than the state is wide:
    /// the operations of all rounds, and the variable that holds the hash.
    pub fn hash(&self, c: &mut Circuit, inputs: &[usize]) -> (r: usize)
        requires
            self.wf(),
            old(c).wf(),
            inputs@.len() == self.t - 1,
            all_fields(old(c).slots(), inputs@),
        ensures
            final(c).continues(*old(c)),
            is_field(final(c).slots(), r as int),
            final(c).field(r) == poseidon(self@, fields_at(old(c).slots(), inputs@)),
            (final(c).ops(), r) == hash_prog(self@, old(c).ops(), inputs@),
    {
        let t = self.t;
        let half = self.n_rounds_f / 2;
        let rounds_p = self.n_rounds_p;
        let c_len = self.c.len();
        let ghost h = self@;
        let ghost c0 = *c;
        let ghost iv = fields_at(c0.slots(), inputs@);
        proof {
            lemma_full_round_bounds(t as int, half as int, rounds_p as int);
        }
        let mut state: Vec<usize> = Vec::new();
        let zero = c.constant(Fr::zero());
        state.push(zero);
        let mut i: usize = 0;
        while i < inputs.len()
            invariant
                i <= inputs@.len(),
                state@.len() == i + 1,
                state@[0] == zero,
                forall|k: int| 1 <= k <= i ==> #[trigger] state@[k] == inputs@[k - 1],
            decreases inputs@.len() - i,
        {
            state.push(inputs[i]);
            i += 1;
        }
        proof {
            lemma_extends_fields(c.slots(), c0.slots(), inputs@);
            assert forall|k: int| 0 <= k < state@.len() implies is_field(
                c.slots(),
                #[trigger] state@[k] as int,
            ) by {
                if k > 0 {
                    assert(is_field(c.slots(), inputs@[k - 1] as int));
                }
            }
            assert forall|k: int| 1 <= k < state@.len() implies field_at(
                c.slots(),
                #[trigger] state@[k] as int,
            ) == iv[k - 1] by {
                assert(fields_at(c.slots(), inputs@)[k - 1] == iv[k - 1]);
            }
            assert(fields_at(c.slots(), state@) =~= seq![0nat] + iv);
        }
        let ghost state0 = state@;
        assert(state0 =~= seq![c0.ops().len() as usize] + inputs@);
        self.add_round_constants_var(c, &mut state, 0);
        let ghost s1 = fields_at(c.slots(), state@);
        let ghost ops1 = (c.ops(), state@);
        let mut r: usize = 0;
        while r < half - 1
            invariant
                self.wf(),
                t == self.t,
                half == self.n_rounds_f / 2,
                half >= 1,
                c_len == self.c@.len(),
                h == self@,
                forall|q: int|
                    0 <= q < half - 1 ==> 0 <= #[trigger] ((q + 1) * t) && (q + 1) * t + t
                        <= c_len,
                r <= half - 1,
                c.continues(c0),
                (c.ops(), state@) == opening_prog(self@, ops1.0, ops1.1, r as nat),
                state@.len() == t,
                all_fields(c.slots(), state@),
                fields_at(c.slots(), state@) == opening_rounds(h, s1, r as nat),
            decreases half - 1 - r,
        {
            state = Self::sbox_layer_var(c, &state);
            assert(0 <= (r + 1) * t && (r + 1) * t + t <= c_len);
            self.add_round_constants_var(c, &mut state, (r + 1) * t);
            state = self.mix_var(c, &state, &self.m);
            r += 1;
        }
        let ghost s2 = fields_at(c.slots(), state@);
        state = Self::sbox_layer_var(c, &state);
        self.add_round_constants_var(c, &mut state, half * t);
        state = self.mix_var(c, &state, &self.p);
        let ghost s3 = fields_at(c.slots(), state@);
        let ghost ops3 = (c.ops(), state@);
        assert(s3 == full_round(s2, h.c, (half * t) as int, h.p));
        let mut r: usize = 0;
        while r < rounds_p
            invariant
                self.wf(),
                t == self.t,
                rounds_p == self.n_rounds_p,
                h == self@,
                r <= rounds_p,
                c.continues(c0),
                (c.ops(), state@) == partial_prog(self@, ops3.0, ops3.1, r as nat),
                state@.len() == t,
                all_fields(c.slots(), state@),
                fields_at(c.slots(), state@) == partial_rounds(h, s3, r as nat),
            decreases rounds_p - r,
        {
            self.partial_round_var(c, &mut state, r);
            r += 1;
        }
        let ghost s4 = fields_at(c.slots(), state@);
        let ghost ops4 = (c.ops(), state@);
        let mut r: usize = 0;
        while r < half - 1
            invariant
                self.wf(),
                t == self.t,
                half == self.n_rounds_f / 2,
                half >= 1,
                rounds_p == self.n_rounds_p,
                c_len == self.c@.len(),
                h == self@,
                0 <= (half + 1) * t,
                (half + 1) * t + rounds_p <= c_len,
                forall|q: int|
                    0 <= q < half - 1 ==> 0 <= #[trigger] (q * t) && (half + 1) * t + rounds_p + q
                        * t + t <= c_len,
                r <= half - 1,
                c.continues(c0),
                (c.ops(), state@) == closing_prog(self@, ops4.0, ops4.1, r as nat),
                state@.len() == t,
                all_fields(c.slots(), state@),
                fields_at(c.slots(), state@) == closing_rounds(h, s4, r as nat),
            decreases half - 1 - r,
        {
            state = Self::sbox_layer_var(c, &state);
            assert(0 <= r * t && (half + 1) * t + rounds_p + r * t + t <= c_len);
            self.add_round_constants_var(c, &mut state, (half + 1) * t + rounds_p + r * t);
            state = self.mix_var(c, &state, &self.m);
            r += 1;
        }
        state = Self::sbox_layer_var(c, &state);
        state = self.mix_var(c, &state, &self.m);
        proof {
            assert(fields_at(c.slots(), state@)[0] == field_at(c.slots(), state@[0] as int));
            reveal(hash_prog);
        }
        state[0]
    }

    /// The hash of one variable.
    pub fn hash1(&self, c: &mut Circuit, x: usize) -> (r: usize)
        requires
            self.wf(),
            self.t == 2,
            old(c).wf(),
            is_field(old(c).slots(), x as int),
        ensures
            final(c).continues(*old(c)),
            is_field(final(c).slots(), r as int),
            final(c).field(r) == poseidon(self@, seq![old(c).field(x)]),
            (final(c).ops(), r) == hash_prog(self@, old(c).ops(), seq![x]),
    {
        let inputs = [x];
        assert(inputs@ =~= seq![x]);
        assert(fields_at(c.slots(), inputs@) =~= seq![c.field(x)]);
        self.hash(c, inputs.as_slice())
    }

    /// The hash of two variables.
    pub fn hash2(&self, c: &mut Circuit, x: usize, y: usize) -> (r: usize)
        requires
            self.wf(),
            self.t == 3,
            old(c).wf(),
            is_field(old(c).slots(), x as int),
            is_field(old(c).slots(), y as int),
        ensures
            final(c).continues(*old(c)),
            is_field(final(c).slots(), r as int),
            final(c).field(r) == poseidon(self@, seq![old(c).field(x), old(c).field(y)]),
            (final(c).ops(), r) == hash_prog(self@, old(c).ops(), seq![x, y]),
    {
        let inputs = [x, y];
        assert(inputs@ =~= seq![x, y]);
        assert(fields_at(c.slots(), inputs@) =~= seq![c.field(x), c.field(y)]);
        self.hash(c, inputs.as_slice())
    }

    /// The hash of three variables.
    pub fn hash3(&self, c: &mut Circuit, x: usize, y: usize, z: usize) -> (r: usize)
        requires
            self.wf(),
            self.t == 4,
            old(c).wf(),
            is_field(old(c).slots(), x as int),
            is_field(old(c).slots(), y as int),
            is_field(old(c).slots(), z as int),
        ensures
            final(c).continues(*old(c)),
            is_field(final(c).slots(), r as int),
            final(c).field(r) == poseidon(
                self@,
                seq![old(c).field(x), old(c).field(y), old(c).field(z)],
            ),
            (final(c).ops(), r) == hash_prog(self@, old(c).ops(), seq![x, y, z]),
    {
        let inputs = [x, y, z];
        assert(inputs@ =~= seq![x, y, z]);
        assert(fields_at(c.slots(), inputs@) =~= seq![c.field(x), c.field(y), c.field(z)]);
        self.hash(c, inputs.as_slice())
    }

    /// The hash of four variables.
    pub fn hash4(&self, c: &mut Circuit, x: usize, y: usize, z: usize, w: usize) -> (r: usize)
        requires
            self.wf(),
            self.t == 5,
            old(c).wf(),
            is_field(old(c).slots(), x as int),
            is_field(old(c).slots(), y as int),
            is_field(old(c).slots(), z as int),
            is_field(old(c).slots(), w as int),
        ensures
            final(c).continues(*old(c)),
            is_field(final(c).slots(), r as int),
            final(c).field(r) == poseidon(
                self@,
                seq![old(c).field(x), old(c).field(y), old(c).field(z), old(c).field(w)],
            ),
            (final(c).ops(), r) == hash_prog(self@, old(c).ops(), seq![x, y, z, w]),
    {
        let inputs = [x, y, z, w];
        assert(inputs@ =~= seq![x, y, z, w]);
        assert(fields_at(c.slots(), inputs@) =~= seq![
            c.field(x),
            c.field(y),
            c.field(z),
            c.field(w),
        ]);
        self.hash(c, inputs.as_slice())
    }
}

/// The S-box's operations depend on the length of the program before and on
/// the position of the variable, not on what the program before holds.
pub proof fn lemma_pow5_prog(p: Seq<Op>, q: Seq<Op>, x: usize)
    requires
        p.len() == q.len(),
    ensures
        alike(pow5_prog(p, x).0, p, pow5_prog(q, x).0, q),
        pow5_prog(p, x).1 == pow5_prog(q, x).1,
{
    reveal(same_growth);
}

/// The operations of the S-boxes depend on the length of the program before
/// and on the positions, not on what the program before holds.
pub proof fn lemma_sbox_layer_prog(p: Seq<Op>, q: Seq<Op>, state: Seq<usize>, n: nat)
    requires
        p.len() == q.len(),
    ensures
        alike(sbox_layer_prog(p, state, n).0, p, sbox_layer_prog(q, state, n).0, q),
        sbox_layer_prog(p, state, n).1 == sbox_layer_prog(q, state, n).1,
    decreases n,
{
    if n > 0 {
        lemma_sbox_layer_prog(p, q, state, (n - 1) as nat);
        let a = sbox_layer_prog(p, state, (n - 1) as nat).0;
        let b = sbox_layer_prog(q, state, (n - 1) as nat).0;
        lemma_pow5_prog(a, b, state[n - 1]);
        lemma_alike_chain(pow5_prog(a, state[n - 1]).0, a, p, pow5_prog(b, state[n - 1]).0, b, q);
    } else {
        lemma_alike_same(p, q);
    }
}

/// The operations that add round constants depend on the length of the
/// program before and on the positions, not on what the program before holds.
pub proof fn lemma_add_constants_prog(
    p: Seq<Op>,
    q: Seq<Op>,
    state: Seq<usize>,
    constants: Seq<nat>,
    offset: int,
    n: nat,
)
    requires
        p.len() == q.len(),
    ensures
        alike(
            add_constants_prog(p, state, constants, offset, n).0,
            p,
            add_constants_prog(q, state, constants, offset, n).0,
            q,
        ),
        add_constants_prog(p, state, constants, offset, n).1 == add_constants_prog(
            q,
            state,
            constants,
            offset,
            n,
        ).1,
    decreases n,
{
    reveal(same_growth);
    if n > 0 {
        lemma_add_constants_prog(p, q, state, constants, offset, (n - 1) as nat);
    }
}

/// The operations of a weighted sum depend on the length of the program
/// before and on the positions, not on what the program before holds.
pub proof fn lemma_weighted_sum_prog(
    p: Seq<Op>,
    q: Seq<Op>,
    state: Seq<usize>,
    weights: Seq<nat>,
    n: nat,
)
    requires
        p.len() == q.len(),
    ensures
        alike(
            weighted_sum_prog(p, state, weights, n).0,
            p,
            weighted_sum_prog(q, state, weights, n).0,
            q,
        ),
        weighted_sum_prog(p, state, weights, n).1 == weighted_sum_prog(q, state, weights, n).1,
    decreases n,
{
    reveal(same_growth);
    if n > 0 {
        lemma_weighted_sum_prog(p, q, state, weights, (n - 1) as nat);
    }
}

/// The operations of a mix depend on the length of the program before and
/// on the positions, not on what the program before holds.
pub proof fn lemma_mix_prog(
    p: Seq<Op>,
    q: Seq<Op>,
    state: Seq<usize>,
    matrix: Seq<Seq<nat>>,
    t: nat,
    n: nat,
)
    requires
        p.len() == q.len(),
    ensures
        alike(mix_prog(p, state, matrix, t, n).0, p, mix_prog(q, state, matrix, t, n).0, q),
        mix_prog(p, state, matrix, t, n).1 == mix_prog(q, state, matrix, t, n).1,
    decreases n,
{
    if n > 0 {
        lemma_mix_prog(p, q, state, matrix, t, (n - 1) as nat);
        let a = mix_prog(p, state, matrix, t, (n - 1) as nat).0;
        let b = mix_prog(q, state, matrix, t, (n - 1) as nat).0;
        let column = matrix_column(matrix, n - 1, t);
        lemma_weighted_sum_prog(a, b, state, column, t);
        lemma_alike_chain(
            weighted_sum_prog(a, state, column, t).0,
            a,
            p,
            weighted_sum_prog(b, state, column, t).0,
            b,
            q,
        );
    } else {
        lemma_alike_same(p, q);
    }
}

/// The operations on the lanes of a sparse mix depend on the length of the
/// program before and on the positions, not on what the program before holds.
pub proof fn lemma_sparse_lanes_prog(
    p: Seq<Op>,
    q: Seq<Op>,
    state: Seq<usize>,
    x0: usize,
    weights: Seq<nat>,
    n: nat,
)
    requires
        p.len() == q.len(),
    ensures
        alike(
            sparse_lanes_prog(p, state, x0, weights, n).0,
            p,
            sparse_lanes_prog(q, state, x0, weights, n).0,
            q,
        ),
        sparse_lanes_prog(p, state, x0, weights, n).1 == sparse_lanes_prog(
            q,
            state,
            x0,
            weights,
            n,
        ).1,
    decreases n,
{
    reveal(same_growth);
    if n > 1 {
        lemma_sparse_lanes_prog(p, q, state, x0, weights, (n - 1) as nat);
    }
}

/// The operations of a partial round depend on the length of the program
/// before and on the positions, not on what the program before holds.
pub proof fn lemma_partial_round_prog(
    h: PoseidonParams,
    p: Seq<Op>,
    q: Seq<Op>,
    state: Seq<usize>,
    r: nat,
)
    requires
        p.len() == q.len(),
    ensures
        alike(partial_round_prog(h, p, state, r).0, p, partial_round_prog(h, q, state, r).0, q),
        partial_round_prog(h, p, state, r).1 == partial_round_prog(h, q, state, r).1,
{
    let t = h.t;
    lemma_pow5_prog(p, q, state[0]);
    let la = pow5_prog(p, state[0]);
    let lb = pow5_prog(q, state[0]);
    let op = Op::AddConstant(la.1, element(h.c[((h.n_rounds_f / 2 + 1) * t + r) as int]));
    let a1 = la.0.push(op);
    let b1 = lb.0.push(op);
    lemma_alike_push(la.0, p, lb.0, q, op);
    let x0 = la.0.len() as usize;
    let st = state.update(0, x0);
    let row = sparse_row(h.s, t, r);
    let column = sparse_column(h.s, t, r);
    lemma_weighted_sum_prog(a1, b1, st, row, t);
    let sa = weighted_sum_prog(a1, st, row, t);
    let sb = weighted_sum_prog(b1, st, row, t);
    lemma_alike_chain(sa.0, a1, p, sb.0, b1, q);
    lemma_sparse_lanes_prog(sa.0, sb.0, st, x0, column, t);
    lemma_alike_chain(
        sparse_lanes_prog(sa.0, st, x0, column, t).0,
        sa.0,
        p,
        sparse_lanes_prog(sb.0, st, x0, column, t).0,
        sb.0,
        q,
    );
}

/// The operations of a full round depend on the length of the program
/// before and on the positions, not on what the program before holds.
pub proof fn lemma_full_round_prog(
    h: PoseidonParams,
    p: Seq<Op>,
    q: Seq<Op>,
    state: Seq<usize>,
    offset: int,
    matrix: Seq<Seq<nat>>,
)
    requires
        p.len() == q.len(),
    ensures
        alike(
            full_round_prog(h, p, state, offset, matrix).0,
            p,
            full_round_prog(h, q, state, offset, matrix).0,
            q,
        ),
        full_round_prog(h, p, state, offset, matrix).1 == full_round_prog(
            h,
            q,
            state,
            offset,
            matrix,
        ).1,
{
    lemma_sbox_layer_prog(p, q, state, state.len());
    let a = sbox_layer_prog(p, state, state.len());
    let b = sbox_layer_prog(q, state, state.len());
    lemma_add_constants_prog(a.0, b.0, a.1, h.c, offset, a.1.len());
    let a2 = add_constants_prog(a.0, a.1, h.c, offset, a.1.len());
    let b2 = add_constants_prog(b.0, b.1, h.c, offset, b.1.len());
    lemma_alike_chain(a2.0, a.0, p, b2.0, b.0, q);
    lemma_mix_prog(a2.0, b2.0, a2.1, matrix, h.t, h.t);
    lemma_alike_chain(
        mix_prog(a2.0, a2.1, matrix, h.t, h.t).0,
        a2.0,
        p,
        mix_prog(b2.0, b2.1, matrix, h.t, h.t).0,
        b2.0,
        q,
    );
}

/// The operations of the opening rounds depend on the length of the
/// program before and on the positions, not on what the program before holds.
pub proof fn lemma_opening_prog(
    h: PoseidonParams,
    p: Seq<Op>,
    q: Seq<Op>,
    state: Seq<usize>,
    n: nat,
)
    requires
        p.len() == q.len(),
    ensures
        alike(opening_prog(h, p, state, n).0, p, opening_prog(h, q, state, n).0, q),
        opening_prog(h, p, state, n).1 == opening_prog(h, q, state, n).1,
    decreases n,
{
    if n > 0 {
        lemma_opening_prog(h, p, q, state, (n - 1) as nat);
        let a = opening_prog(h, p, state, (n - 1) as nat);
        let b = opening_prog(h, q, state, (n - 1) as nat);
        lemma_full_round_prog(h, a.0, b.0, a.1, (n * h.t) as int, h.m);
        lemma_alike_chain(
            full_round_prog(h, a.0, a.1, (n * h.t) as int, h.m).0,
            a.0,
            p,
            full_round_prog(h, b.0, b.1, (n * h.t) as int, h.m).0,
            b.0,
            q,
        );
    } else {
        lemma_alike_same(p, q);
    }
}

/// The operations of the partial rounds depend on the length of the
/// program before and on the positions, not on what the program before holds.
pub proof fn lemma_partial_prog(
    h: PoseidonParams,
    p: Seq<Op>,
    q: Seq<Op>,
    state: Seq<usize>,
    n: nat,
)
    requires
        p.len() == q.len(),
    ensures
        alike(partial_prog(h, p, state, n).0, p, partial_prog(h, q, state, n).0, q),
        partial_prog(h, p, state, n).1 == partial_prog(h, q, state, n).1,
    decreases n,
{
    if n > 0 {
        lemma_partial_prog(h, p, q, state, (n - 1) as nat);
        let a = partial_prog(h, p, state, (n - 1) as nat);
        let b = partial_prog(h, q, state, (n - 1) as nat);
        lemma_partial_round_prog(h, a.0, b.0, a.1, (n - 1) as nat);
        lemma_alike_chain(
            partial_round_prog(h, a.0, a.1, (n - 1) as nat).0,
            a.0,
            p,
            partial_round_prog(h, b.0, b.1, (n - 1) as nat).0,
            b.0,
            q,
        );
    } else {
        lemma_alike_same(p, q);
    }
}

/// The operations of the closing rounds depend on the length of the
/// program before and on the positions, not on what the program before holds.
pub proof fn lemma_closing_prog(
    h: PoseidonParams,
    p: Seq<Op>,
    q: Seq<Op>,
    state: Seq<usize>,
    n: nat,
)
    requires
        p.len() == q.len(),
    ensures
        alike(closing_prog(h, p, state, n).0, p, closing_prog(h, q, state, n).0, q),
        closing_prog(h, p, state, n).1 == closing_prog(h, q, state, n).1,
    decreases n,
{
    if n > 0 {
        lemma_closing_prog(h, p, q, state, (n - 1) as nat);
        let a = closing_prog(h, p, state, (n - 1) as nat);
        let b = closing_prog(h, q, state, (n - 1) as nat);
        let offset = ((h.n_rounds_f / 2 + 1) * h.t + h.n_rounds_p + (n - 1) * h.t) as int;
        lemma_full_round_prog(h, a.0, b.0, a.1, offset, h.m);
        lemma_alike_chain(
            full_round_prog(h, a.0, a.1, offset, h.m).0,
            a.0,
            p,
            full_round_prog(h, b.0, b.1, offset, h.m).0,
            b.0,
            q,
        );
    } else {
        lemma_alike_same(p, q);
    }
}

/// The operations of a hash depend on the parameters, on the length of the
/// program before and on the positions of the inputs, not on what the
/// program before holds: two programs of one length are continued alike.
pub proof fn lemma_hash_prog(h: PoseidonParams, p: Seq<Op>, q: Seq<Op>, inputs: Seq<usize>)
    requires
        p.len() == q.len(),
    ensures
        alike(hash_prog(h, p, inputs).0, p, hash_prog(h, q, inputs).0, q),
        hash_prog(h, p, inputs).1 == hash_prog(h, q, inputs).1,
{
    reveal(hash_prog);
    let half = (h.n_rounds_f / 2) as nat;
    let zero = Op::Constant(Fr::spec_zero());
    let state = seq![p.len() as usize] + inputs;
    let ops0 = p.push(zero);
    let q0 = q.push(zero);
    lemma_alike_same(p, q);
    lemma_alike_push(p, p, q, q, zero);
    lemma_add_constants_prog(ops0, q0, state, h.c, 0, state.len());
    let a1 = add_constants_prog(ops0, state, h.c, 0, state.len());
    let b1 = add_constants_prog(q0, state, h.c, 0, state.len());
    lemma_alike_chain(a1.0, ops0, p, b1.0, q0, q);
    lemma_opening_prog(h, a1.0, b1.0, a1.1, (half - 1) as nat);
    let a2 = opening_prog(h, a1.0, a1.1, (half - 1) as nat);
    let b2 = opening_prog(h, b1.0, b1.1, (half - 1) as nat);
    lemma_alike_chain(a2.0, a1.0, p, b2.0, b1.0, q);
    lemma_full_round_prog(h, a2.0, b2.0, a2.1, (half * h.t) as int, h.p);
    let a3 = full_round_prog(h, a2.0, a2.1, (half * h.t) as int, h.p);
    let b3 = full_round_prog(h, b2.0, b2.1, (half * h.t) as int, h.p);
    lemma_alike_chain(a3.0, a2.0, p, b3.0, b2.0, q);
    lemma_partial_prog(h, a3.0, b3.0, a3.1, h.n_rounds_p);
    let a4 = partial_prog(h, a3.0, a3.1, h.n_rounds_p);
    let b4 = partial_prog(h, b3.0, b3.1, h.n_rounds_p);
    lemma_alike_chain(a4.0, a3.0, p, b4.0, b3.0, q);
    lemma_closing_prog(h, a4.0, b4.0, a4.1, (half - 1) as nat);
    let a5 = closing_prog(h, a4.0, a4.1, (half - 1) as nat);
    let b5 = closing_prog(h, b4.0, b4.1, (half - 1) as nat);
    lemma_alike_chain(a5.0, a4.0, p, b5.0, b4.0, q);
    lemma_sbox_layer_prog(a5.0, b5.0, a5.1, a5.1.len());
    let a6 = sbox_layer_prog(a5.0, a5.1, a5.1.len());
    let b6 = sbox_layer_prog(b5.0, b5.1, b5.1.len());
    lemma_alike_chain(a6.0, a5.0, p, b6.0, b5.0, q);
    lemma_mix_prog(a6.0, b6.0, a6.1, h.m, h.t, h.t);
    lemma_alike_chain(
        mix_prog(a6.0, a6.1, h.m, h.t, h.t).0,
        a6.0,
        p,
        mix_prog(b6.0, b6.1, h.m, h.t, h.t).0,
        b6.0,
        q,
    );
}

} // verus!
