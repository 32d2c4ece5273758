//! Loading of the Poseidon parameter tables into field elements.

use crate::field::{limbs_value, modulus, values, Fr};
use crate::poseidon_tables as tables;
use vstd::prelude::*;

verus! {

/// The elements that a table of limbs holds, four limbs to an element.
pub open spec fn table_values(limbs: Seq<u64>) -> Seq<nat> {
    Seq::new(
        limbs.len() / 4,
        |i: int|
            limbs_value(limbs[4 * i], limbs[4 * i + 1], limbs[4 * i + 2], limbs[4 * i + 3])
                % modulus(),
    )
}

/// The rows of a square matrix of width `t` that a flat sequence holds.
pub open spec fn matrix_rows(flat: Seq<nat>, t: nat) -> Seq<Seq<nat>> {
    Seq::new(t, |j: int| Seq::new(t, |i: int| flat[j * t + i]))
}

/// The numbers that the rows of a matrix of elements stand for.
pub open spec fn matrix_values(m: Seq<Vec<Fr>>) -> Seq<Seq<nat>> {
    Seq::new(m.len(), |j: int| values(m[j]@))
}

/// A matrix has exactly `t` rows of exactly `t` elements.
pub open spec fn is_square(m: Seq<Vec<Fr>>, t: int) -> bool {
    &&& m.len() == t
    &&& forall|j: int| 0 <= j < t ==> (#[trigger] m[j])@.len() == t
}

/// Appends the elements of a table of limbs to `out`.
pub fn load_table(out: &mut Vec<Fr>, limbs: &[u64])
    ensures
        values(final(out)@) == values(old(out)@) + table_values(limbs@),
        final(out)@.len() == old(out)@.len() + limbs@.len() / 4,
{
    let n = limbs.len() / 4;
    let ghost before = out@;
    let mut i: usize = 0;
    while i < n
        invariant
            n == limbs@.len() / 4,
            limbs@.len() <= usize::MAX,
            i <= n,
            out@.len() == before.len() + i,
            forall|k: int| 0 <= k < before.len() ==> out@[k] == before[k],
            forall|k: int|
                before.len() <= k < out@.len() ==> (#[trigger] out@[k])@ == table_values(
                    limbs@,
                )[k - before.len()],
        decreases n - i,
    {
        let x = Fr::from_limbs_reduced(
            limbs[4 * i],
            limbs[4 * i + 1],
            limbs[4 * i + 2],
            limbs[4 * i + 3],
        );
        out.push(x);
        i += 1;
    }
    assert(values(out@) =~= values(before) + table_values(limbs@));
}

/// Cuts a flat vector of `t * t` elements into the rows of a matrix.
pub fn load_matrix(flat: &Vec<Fr>, t: usize) -> (r: Vec<Vec<Fr>>)
    requires
        flat@.len() == t * t,
    ensures
        matrix_values(r@) == matrix_rows(values(flat@), t as nat),
        is_square(r@, t as int),
{
    let mut rows: Vec<Vec<Fr>> = Vec::new();
    let total = flat.len();
    let mut j: usize = 0;
    while j < t
        invariant
            flat@.len() == t * t,
            total == t * t,
            j <= t,
            rows@.len() == j,
            forall|k: int| 0 <= k < j ==> (#[trigger] rows@[k])@.len() == t,
            forall|k: int|
                0 <= k < j ==> values((#[trigger] rows@[k])@) == matrix_rows(
                    values(flat@),
                    t as nat,
                )[k],
        decreases t - j,
    {
        let mut row: Vec<Fr> = Vec::new();
        let mut i: usize = 0;
        proof {
            lemma_row_fits(j as int, t as int);
        }
        while i < t
            invariant
                flat@.len() == t * t,
                total == t * t,
                j < t,
                i <= t,
                0 <= j * t,
                j * t + t <= t * t,
                row@.len() == i,
                forall|k: int| 0 <= k < i ==> #[trigger] row@[k] == flat@[j * t + k],
            decreases t - i,
        {
            row.push(flat[j * t + i]);
            i += 1;
        }
        assert(values(row@) =~= matrix_rows(values(flat@), t as nat)[j as int]);
        rows.push(row);
        j += 1;
    }
    assert(matrix_values(rows@) =~= matrix_rows(values(flat@), t as nat));
    rows
}

/// Row `j` of a square matrix of width `t` lies within its `t * t` elements.
pub proof fn lemma_row_fits(j: int, t: int)
    requires
        0 <= j < t,
    ensures
        0 <= j * t,
        j * t + t <= t * t,
{
    assert(j * t + t == (j + 1) * t) by (nonlinear_arith);
    assert((j + 1) * t <= t * t) by (nonlinear_arith)
        requires
            0 <= j + 1 <= t,
    ;
    assert(0 <= j * t) by (nonlinear_arith)
        requires
            0 <= j,
            0 <= t,
    ;
}

/// The round constants for state width two.
pub closed spec fn spec_c_t2() -> Seq<nat> {
    table_values(tables::T2_C@)
}

/// The sparse coefficients for state width two.
pub closed spec fn spec_s_t2() -> Seq<nat> {
    table_values(tables::T2_S_0@) + table_values(tables::T2_S_1@)
}

/// The mixing matrix for state width two.
pub closed spec fn spec_m_t2() -> Seq<Seq<nat>> {
    matrix_rows(table_values(tables::T2_M@), 2)
}

/// The matrix applied before the partial rounds, for state width two.
pub closed spec fn spec_p_t2() -> Seq<Seq<nat>> {
    matrix_rows(table_values(tables::T2_P@), 2)
}

/// The four tables for state width two: round constants, sparse
/// coefficients, mixing matrix and the matrix before the partial rounds.
pub fn constants_t2() -> (r: (Vec<Fr>, Vec<Fr>, Vec<Vec<Fr>>, Vec<Vec<Fr>>))
    ensures
        values(r.0@) == spec_c_t2(),
        r.0@.len() == 72,
        values(r.1@) == spec_s_t2(),
        r.1@.len() == 168,
        matrix_values(r.2@) == spec_m_t2(),
        is_square(r.2@, 2),
        matrix_values(r.3@) == spec_p_t2(),
        is_square(r.3@, 2),
{
    let mut c: Vec<Fr> = Vec::new();
    load_table(&mut c, tables::T2_C.as_slice());
    let mut s: Vec<Fr> = Vec::new();
    load_table(&mut s, tables::T2_S_0.as_slice());
    load_table(&mut s, tables::T2_S_1.as_slice());
    let mut m_flat: Vec<Fr> = Vec::new();
    load_table(&mut m_flat, tables::T2_M.as_slice());
    let mut p_flat: Vec<Fr> = Vec::new();
    load_table(&mut p_flat, tables::T2_P.as_slice());
    assert(values(c@) =~= spec_c_t2());
    assert(values(s@) =~= spec_s_t2());
    assert(values(m_flat@) =~= table_values(tables::T2_M@));
    assert(values(p_flat@) =~= table_values(tables::T2_P@));
    let m = load_matrix(&m_flat, 2);
    let p = load_matrix(&p_flat, 2);
    (c, s, m, p)
}

/// The round constants for state width three.
pub closed spec fn spec_c_t3() -> Seq<nat> {
    table_values(tables::T3_C@)
}

/// The sparse coefficients for state width three.
pub closed spec fn spec_s_t3() -> Seq<nat> {
    table_values(tables::T3_S_0@) + table_values(tables::T3_S_1@) + table_values(tables::T3_S_2@)
}

/// The mixing matrix for state width three.
pub closed spec fn spec_m_t3() -> Seq<Seq<nat>> {
    matrix_rows(table_values(tables::T3_M@), 3)
}

/// The matrix applied before the partial rounds, for state width three.
pub closed spec fn spec_p_t3() -> Seq<Seq<nat>> {
    matrix_rows(table_values(tables::T3_P@), 3)
}

/// The four tables for state width three: round constants, sparse
/// coefficients, mixing matrix and the matrix before the partial rounds.
pub fn constants_t3() -> (r: (Vec<Fr>, Vec<Fr>, Vec<Vec<Fr>>, Vec<Vec<Fr>>))
    ensures
        values(r.0@) == spec_c_t3(),
        r.0@.len() == 81,
        values(r.1@) == spec_s_t3(),
        r.1@.len() == 285,
        matrix_values(r.2@) == spec_m_t3(),
        is_square(r.2@, 3),
        matrix_values(r.3@) == spec_p_t3(),
        is_square(r.3@, 3),
{
    let mut c: Vec<Fr> = Vec::new();
    load_table(&mut c, tables::T3_C.as_slice());
    let mut s: Vec<Fr> = Vec::new();
    load_table(&mut s, tables::T3_S_0.as_slice());
    load_table(&mut s, tables::T3_S_1.as_slice());
    load_table(&mut s, tables::T3_S_2.as_slice());
    let mut m_flat: Vec<Fr> = Vec::new();
    load_table(&mut m_flat, tables::T3_M.as_slice());
    let mut p_flat: Vec<Fr> = Vec::new();
    load_table(&mut p_flat, tables::T3_P.as_slice());
    assert(values(c@) =~= spec_c_t3());
    assert(values(s@) =~= spec_s_t3());
    assert(values(m_flat@) =~= table_values(tables::T3_M@));
    assert(values(p_flat@) =~= table_values(tables::T3_P@));
    let m = load_matrix(&m_flat, 3);
    let p = load_matrix(&p_flat, 3);
    (c, s, m, p)
}

/// The round constants for state width four.
pub closed spec fn spec_c_t4() -> Seq<nat> {
    table_values(tables::T4_C@)
}

/// The sparse coefficients for state width four.
pub closed spec fn spec_s_t4() -> Seq<nat> {
    table_values(tables::T4_S_0@) + table_values(tables::T4_S_1@) + table_values(tables::T4_S_2@) + table_values(tables::T4_S_3@)
}

/// The mixing matrix for state width four.
pub closed spec fn spec_m_t4() -> Seq<Seq<nat>> {
    matrix_rows(table_values(tables::T4_M@), 4)
}

/// The matrix applied before the partial rounds, for state width four.
pub closed spec fn spec_p_t4() -> Seq<Seq<nat>> {
    matrix_rows(table_values(tables::T4_P@), 4)
}

/// The four tables for state width four: round constants, sparse
/// coefficients, mixing matrix and the matrix before the partial rounds.
pub fn constants_t4() -> (r: (Vec<Fr>, Vec<Fr>, Vec<Vec<Fr>>, Vec<Vec<Fr>>))
    ensures
        values(r.0@) == spec_c_t4(),
        r.0@.len() == 88,
        values(r.1@) == spec_s_t4(),
        r.1@.len() == 392,
        matrix_values(r.2@) == spec_m_t4(),
        is_square(r.2@, 4),
        matrix_values(r.3@) == spec_p_t4(),
        is_square(r.3@, 4),
{
    let mut c: Vec<Fr> = Vec::new();
    load_table(&mut c, tables::T4_C.as_slice());
    let mut s: Vec<Fr> = Vec::new();
    load_table(&mut s, tables::T4_S_0.as_slice());
    load_table(&mut s, tables::T4_S_1.as_slice());
    load_table(&mut s, tables::T4_S_2.as_slice());
    load_table(&mut s, tables::T4_S_3.as_slice());
    let mut m_flat: Vec<Fr> = Vec::new();
    load_table(&mut m_flat, tables::T4_M.as_slice());
    let mut p_flat: Vec<Fr> = Vec::new();
    load_table(&mut p_flat, tables::T4_P.as_slice());
    assert(values(c@) =~= spec_c_t4());
    assert(values(s@) =~= spec_s_t4());
    assert(values(m_flat@) =~= table_values(tables::T4_M@));
    assert(values(p_flat@) =~= table_values(tables::T4_P@));
    let m = load_matrix(&m_flat, 4);
    let p = load_matrix(&p_flat, 4);
    (c, s, m, p)
}

/// The round constants for state width five.
pub closed spec fn spec_c_t5() -> Seq<nat> {
    table_values(tables::T5_C@)
}

/// The sparse coefficients for state width five.
pub closed spec fn spec_s_t5() -> Seq<nat> {
    table_values(tables::T5_S_0@) + table_values(tables::T5_S_1@) + table_values(tables::T5_S_2@) + table_values(tables::T5_S_3@) + table_values(tables::T5_S_4@)
}

/// The mixing matrix for state width five.
pub closed spec fn spec_m_t5() -> Seq<Seq<nat>> {
    matrix_rows(table_values(tables::T5_M@), 5)
}

/// The matrix applied before the partial rounds, for state width five.
pub closed spec fn spec_p_t5() -> Seq<Seq<nat>> {
    matrix_rows(table_values(tables::T5_P@), 5)
}

/// The four tables for state width five: round constants, sparse
/// coefficients, mixing matrix and the matrix before the partial rounds.
pub fn constants_t5() -> (r: (Vec<Fr>, Vec<Fr>, Vec<Vec<Fr>>, Vec<Vec<Fr>>))
    ensures
        values(r.0@) == spec_c_t5(),
        r.0@.len() == 100,
        values(r.1@) == spec_s_t5(),
        r.1@.len() == 540,
        matrix_values(r.2@) == spec_m_t5(),
        is_square(r.2@, 5),
        matrix_values(r.3@) == spec_p_t5(),
        is_square(r.3@, 5),
{
    let mut c: Vec<Fr> = Vec::new();
    load_table(&mut c, tables::T5_C.as_slice());
    let mut s: Vec<Fr> = Vec::new();
    load_table(&mut s, tables::T5_S_0.as_slice());
    load_table(&mut s, tables::T5_S_1.as_slice());
    load_table(&mut s, tables::T5_S_2.as_slice());
    load_table(&mut s, tables::T5_S_3.as_slice());
    load_table(&mut s, tables::T5_S_4.as_slice());
    let mut m_flat: Vec<Fr> = Vec::new();
    load_table(&mut m_flat, tables::T5_M.as_slice());
    let mut p_flat: Vec<Fr> = Vec::new();
    load_table(&mut p_flat, tables::T5_P.as_slice());
    assert(values(c@) =~= spec_c_t5());
    assert(values(s@) =~= spec_s_t5());
    assert(values(m_flat@) =~= table_values(tables::T5_M@));
    assert(values(p_flat@) =~= table_values(tables::T5_P@));
    let m = load_matrix(&m_flat, 5);
    let p = load_matrix(&p_flat, 5);
    (c, s, m, p)
}

} // verus!
