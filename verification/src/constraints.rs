//! A circuit as a list of operations on field and boolean variables, each
//! operation naming its operands by the positions of earlier operations, and
//! what such a list computes and demands under the values it carries.

use crate::field::{bits_le, lemma_equal_values, lemma_modulus_bounds, modulus, values, Fr};
use vstd::prelude::*;

verus! {

/// One operation of a circuit. An operand is the position of the earlier
/// operation that made it.
#[derive(Debug, Clone, Copy, PartialEq, Eq)]
pub enum Op {
    /// A public input with its value.
    Input(Fr),
    /// A private witness with its value.
    Witness(Fr),
    /// A constant.
    Constant(Fr),
    /// The sum of two variables.
    Add(usize, usize),
    /// The sum of a variable and a constant.
    AddConstant(usize, Fr),
    /// The product of two variables.
    Mul(usize, usize),
    /// The product of a variable and a constant.
    MulConstant(usize, Fr),
    /// The square of a variable.
    Square(usize),
    /// The second operand if the boolean first operand is true, else the
    /// third.
    Select(usize, usize, usize),
    /// Whether two variables are equal.
    IsEq(usize, usize),
    /// The negation of a boolean.
    Not(usize),
    /// A boolean constant.
    BoolConstant(bool),
    /// The 254 bits of a variable, least significant first.
    ToBitsLe(usize),
    /// One bit out of a bit decomposition.
    Bit(usize, usize),
    /// Demands that two variables are equal.
    EnforceEqual(usize, usize),
    /// Demands that two variables are equal if the boolean third operand is
    /// true.
    ConditionalEnforceEqual(usize, usize, usize),
    /// Demands that two variables differ.
    EnforceNotEqual(usize, usize),
    /// Demands that two booleans are equal if the boolean third operand is
    /// true.
    BoolConditionalEnforceEqual(usize, usize, usize),
}

/// What an operation leaves at its position.
pub enum Slot {
    /// The value of a public input.
    Input(nat),
    /// The value of a field variable.
    Field(nat),
    /// The value of a boolean.
    Bool(bool),
    /// The bits of a decomposition.
    Bits(Seq<bool>),
    /// Whether a demand is met.
    Check(bool),
}

/// The field value at a position; zero where there is none.
pub open spec fn field_at(slots: Seq<Slot>, i: int) -> nat {
    if 0 <= i < slots.len() {
        match slots[i] {
            Slot::Input(v) => v,
            Slot::Field(v) => v,
            _ => 0,
        }
    } else {
        0
    }
}

/// The boolean at a position; false where there is none.
pub open spec fn bool_at(slots: Seq<Slot>, i: int) -> bool {
    if 0 <= i < slots.len() {
        match slots[i] {
            Slot::Bool(b) => b,
            _ => false,
        }
    } else {
        false
    }
}

/// Bit `k` of the decomposition at a position; false where there is none.
pub open spec fn bit_at(slots: Seq<Slot>, i: int, k: int) -> bool {
    if 0 <= i < slots.len() {
        match slots[i] {
            Slot::Bits(b) => 0 <= k < b.len() && b[k],
            _ => false,
        }
    } else {
        false
    }
}

/// There is a field variable at the position.
pub open spec fn is_field(slots: Seq<Slot>, i: int) -> bool {
    0 <= i < slots.len() && (slots[i] is Input || slots[i] is Field)
}

/// There is a boolean at the position.
pub open spec fn is_bool(slots: Seq<Slot>, i: int) -> bool {
    0 <= i < slots.len() && slots[i] is Bool
}

/// There is a decomposition into 254 bits at the position.
pub open spec fn is_bits(slots: Seq<Slot>, i: int) -> bool {
    0 <= i < slots.len() && slots[i] is Bits && slots[i]->Bits_0.len() == 254
}

/// What an operation leaves behind the slots of the operations before it.
pub open spec fn eval(slots: Seq<Slot>, op: Op) -> Slot {
    match op {
        Op::Input(v) => Slot::Input(v@),
        Op::Witness(v) => Slot::Field(v@),
        Op::Constant(v) => Slot::Field(v@),
        Op::Add(a, b) => Slot::Field(
            (field_at(slots, a as int) + field_at(slots, b as int)) % modulus(),
        ),
        Op::AddConstant(a, c) => Slot::Field((field_at(slots, a as int) + c@) % modulus()),
        Op::Mul(a, b) => Slot::Field(
            (field_at(slots, a as int) * field_at(slots, b as int)) % modulus(),
        ),
        Op::MulConstant(a, c) => Slot::Field((field_at(slots, a as int) * c@) % modulus()),
        Op::Square(a) => Slot::Field(
            (field_at(slots, a as int) * field_at(slots, a as int)) % modulus(),
        ),
        Op::Select(c, a, b) => Slot::Field(
            if bool_at(slots, c as int) {
                field_at(slots, a as int)
            } else {
                field_at(slots, b as int)
            },
        ),
        Op::IsEq(a, b) => Slot::Bool(field_at(slots, a as int) == field_at(slots, b as int)),
        Op::Not(x) => Slot::Bool(!bool_at(slots, x as int)),
        Op::BoolConstant(b) => Slot::Bool(b),
        Op::ToBitsLe(a) => Slot::Bits(bits_le(field_at(slots, a as int), 254)),
        Op::Bit(x, k) => Slot::Bool(bit_at(slots, x as int, k as int)),
        Op::EnforceEqual(a, b) => Slot::Check(
            field_at(slots, a as int) == field_at(slots, b as int),
        ),
        Op::ConditionalEnforceEqual(a, b, c) => Slot::Check(
            bool_at(slots, c as int) ==> field_at(slots, a as int) == field_at(slots, b as int),
        ),
        Op::EnforceNotEqual(a, b) => Slot::Check(
            field_at(slots, a as int) != field_at(slots, b as int),
        ),
        Op::BoolConditionalEnforceEqual(x, y, c) => Slot::Check(
            bool_at(slots, c as int) ==> bool_at(slots, x as int) == bool_at(slots, y as int),
        ),
    }
}

/// The operands of an operation are earlier variables of the kinds that it
/// works on.
pub open spec fn typed(slots: Seq<Slot>, op: Op) -> bool {
    match op {
        Op::Input(_) => true,
        Op::Witness(_) => true,
        Op::Constant(_) => true,
        Op::Add(a, b) => is_field(slots, a as int) && is_field(slots, b as int),
        Op::AddConstant(a, _) => is_field(slots, a as int),
        Op::Mul(a, b) => is_field(slots, a as int) && is_field(slots, b as int),
        Op::MulConstant(a, _) => is_field(slots, a as int),
        Op::Square(a) => is_field(slots, a as int),
        Op::Select(c, a, b) => is_bool(slots, c as int) && is_field(slots, a as int) && is_field(
            slots,
            b as int,
        ),
        Op::IsEq(a, b) => is_field(slots, a as int) && is_field(slots, b as int),
        Op::Not(x) => is_bool(slots, x as int),
        Op::BoolConstant(_) => true,
        Op::ToBitsLe(a) => is_field(slots, a as int),
        Op::Bit(x, k) => is_bits(slots, x as int) && k < 254,
        Op::EnforceEqual(a, b) => is_field(slots, a as int) && is_field(slots, b as int),
        Op::ConditionalEnforceEqual(a, b, c) => is_field(slots, a as int) && is_field(
            slots,
            b as int,
        ) && is_bool(slots, c as int),
        Op::EnforceNotEqual(a, b) => is_field(slots, a as int) && is_field(slots, b as int),
        Op::BoolConditionalEnforceEqual(x, y, c) => is_bool(slots, x as int) && is_bool(
            slots,
            y as int,
        ) && is_bool(slots, c as int),
    }
}

/// The slots that a list of operations leaves, one for each operation.
pub open spec fn run(ops: Seq<Op>) -> Seq<Slot>
    decreases ops.len(),
{
    if ops.len() == 0 {
        Seq::empty()
    } else {
        let before = run(ops.drop_last());
        before.push(eval(before, ops.last()))
    }
}

/// Every operation of the list has operands of the right kinds.
pub open spec fn well_typed(ops: Seq<Op>) -> bool
    decreases ops.len(),
{
    if ops.len() == 0 {
        true
    } else {
        well_typed(ops.drop_last()) && typed(run(ops.drop_last()), ops.last())
    }
}

/// Every demand among the slots is met.
pub open spec fn all_hold(slots: Seq<Slot>) -> bool
    decreases slots.len(),
{
    if slots.len() == 0 {
        true
    } else {
        all_hold(slots.drop_last()) && match slots.last() {
            Slot::Check(ok) => ok,
            _ => true,
        }
    }
}

/// The values of the public inputs among the slots, in their order.
pub open spec fn public_inputs(slots: Seq<Slot>) -> Seq<nat>
    decreases slots.len(),
{
    if slots.len() == 0 {
        Seq::empty()
    } else {
        match slots.last() {
            Slot::Input(v) => public_inputs(slots.drop_last()).push(v),
            _ => public_inputs(slots.drop_last()),
        }
    }
}

/// Every field value among the slots is below the modulus.
pub open spec fn reduced(slots: Seq<Slot>) -> bool {
    forall|i: int|
        0 <= i < slots.len() ==> match #[trigger] slots[i] {
            Slot::Input(v) => v < modulus(),
            Slot::Field(v) => v < modulus(),
            _ => true,
        }
}

/// The second sequence of slots begins with the first.
pub open spec fn extends(after: Seq<Slot>, before: Seq<Slot>) -> bool {
    &&& before.len() <= after.len()
    &&& forall|i: int| 0 <= i < before.len() ==> after[i] == before[i]
}

/// A list of operations leaves one slot for each of them.
pub proof fn lemma_run_len(ops: Seq<Op>)
    ensures
        run(ops).len() == ops.len(),
    decreases ops.len(),
{
    if ops.len() > 0 {
        lemma_run_len(ops.drop_last());
    }
}

/// A circuit under construction: the operations so far.
pub struct Circuit {
    ops: Vec<Op>,
}

impl Circuit {
    /// Every operation so far has operands of the right kinds, and every
    /// field variable carries a value below the modulus.
    pub open spec fn wf(&self) -> bool {
        well_typed(self.ops()) && reduced(self.slots())
    }

    /// The operations so far.
    pub closed spec fn ops(&self) -> Seq<Op> {
        self.ops@
    }

    /// The slots that the operations so far leave.
    pub open spec fn slots(&self) -> Seq<Slot> {
        run(self.ops())
    }

    /// Every demand so far is met by the values that the circuit carries.
    pub open spec fn holds(&self) -> bool {
        all_hold(self.slots())
    }

    /// The values of the public inputs so far, in the order of their
    /// allocation.
    pub open spec fn inputs(&self) -> Seq<nat> {
        public_inputs(self.slots())
    }

    /// The value of the field variable at `i`.
    pub open spec fn field(&self, i: usize) -> nat {
        field_at(self.slots(), i as int)
    }

    /// The value of the boolean at `i`.
    pub open spec fn boolean(&self, i: usize) -> bool {
        bool_at(self.slots(), i as int)
    }

    /// This circuit continues `before` with operations that add neither
    /// inputs nor demands.
    pub open spec fn continues(&self, before: Circuit) -> bool {
        &&& self.wf()
        &&& extends(self.slots(), before.slots())
        &&& self.holds() == before.holds()
        &&& self.inputs() == before.inputs()
    }

    /// The circuit without operations.
    pub fn new() -> (r: Self)
        ensures
            r.wf(),
            r.ops() == Seq::<Op>::empty(),
            r.slots() == Seq::<Slot>::empty(),
            r.holds(),
            r.inputs() == Seq::<nat>::empty(),
    {
        Circuit { ops: Vec::new() }
    }

    /// The operations in their order.
    pub fn operations(&self) -> (r: &[Op])
        ensures
            r@ == self.ops(),
    {
        self.ops.as_slice()
    }

    /// The number of operations.
    pub fn len(&self) -> (r: usize)
        ensures
            r == self.ops().len(),
            r == self.slots().len(),
    {
        proof {
            lemma_run_len(self.ops@);
        }
        self.ops.len()
    }

    /// Appends an operation whose operands are earlier variables of the
    /// right kinds, and gives its position.
    pub fn push(&mut self, op: Op) -> (id: usize)
        requires
            old(self).wf(),
            typed(old(self).slots(), op),
        ensures
            final(self).wf(),
            id == old(self).slots().len(),
            id == old(self).ops().len(),
            final(self).ops() == old(self).ops().push(op),
            final(self).slots() == old(self).slots().push(eval(old(self).slots(), op)),
            final(self).holds() == (old(self).holds() && match eval(old(self).slots(), op) {
                Slot::Check(ok) => ok,
                _ => true,
            }),
            final(self).inputs() == match eval(old(self).slots(), op) {
                Slot::Input(v) => old(self).inputs().push(v),
                _ => old(self).inputs(),
            },
    {
        match op {
            Op::Input(v) => {
                proof {
                    use_type_invariant(&v);
                }
            },
            Op::Witness(v) => {
                proof {
                    use_type_invariant(&v);
                }
            },
            Op::Constant(v) => {
                proof {
                    use_type_invariant(&v);
                }
            },
            _ => {},
        }
        proof {
            let before = run(self.ops@);
            let slot = eval(before, op);
            lemma_run_len(self.ops@);
            lemma_modulus_bounds();
            assert(self.ops@.push(op).drop_last() =~= self.ops@);
            assert(before.push(slot).drop_last() =~= before);
            assert(match slot {
                Slot::Input(v) => v < modulus(),
                Slot::Field(v) => v < modulus(),
                _ => true,
            }) by {
                match op {
                    Op::Select(cond, a, b) => {
                        assert(is_field(before, a as int) && is_field(before, b as int));
                    },
                    _ => {},
                }
            }
            assert forall|i: int| 0 <= i < before.push(slot).len() implies match #[trigger] before.push(
                slot,
            )[i] {
                Slot::Input(v) => v < modulus(),
                Slot::Field(v) => v < modulus(),
                _ => true,
            } by {
                if i < before.len() {
                    assert(before.push(slot)[i] == before[i]);
                }
            }
        }
        let id = self.ops.len();
        self.ops.push(op);
        id
    }

    /// Allocates a public input with its value.
    pub fn input(&mut self, v: Fr) -> (id: usize)
        requires
            old(self).wf(),
        ensures
            final(self).wf(),
            extends(final(self).slots(), old(self).slots()),
            final(self).slots().len() == old(self).slots().len() + 1,
            final(self).holds() == old(self).holds(),
            final(self).inputs() == old(self).inputs().push(v@),
            id == old(self).slots().len(),
            id == old(self).ops().len(),
            is_field(final(self).slots(), id as int),
            final(self).field(id) == v@,
            final(self).slots() == old(self).slots().push(Slot::Input(v@)),
            final(self).ops() == old(self).ops().push(Op::Input(v)),
    {
        self.push(Op::Input(v))
    }

    /// Allocates a private witness with its value.
    pub fn witness(&mut self, v: Fr) -> (id: usize)
        requires
            old(self).wf(),
        ensures
            final(self).continues(*old(self)),
            final(self).slots().len() == old(self).slots().len() + 1,
            id == old(self).slots().len(),
            id == old(self).ops().len(),
            is_field(final(self).slots(), id as int),
            final(self).field(id) == v@,
            final(self).slots() == old(self).slots().push(Slot::Field(v@)),
            final(self).ops() == old(self).ops().push(Op::Witness(v)),
    {
        self.push(Op::Witness(v))
    }

    /// A constant.
    pub fn constant(&mut self, v: Fr) -> (id: usize)
        requires
            old(self).wf(),
        ensures
            final(self).continues(*old(self)),
            final(self).slots().len() == old(self).slots().len() + 1,
            id == old(self).slots().len(),
            id == old(self).ops().len(),
            is_field(final(self).slots(), id as int),
            final(self).field(id) == v@,
            final(self).ops() == old(self).ops().push(Op::Constant(v)),
    {
        self.push(Op::Constant(v))
    }

    /// The sum of two variables.
    pub fn add(&mut self, a: usize, b: usize) -> (id: usize)
        requires
            old(self).wf(),
            is_field(old(self).slots(), a as int),
            is_field(old(self).slots(), b as int),
        ensures
            final(self).continues(*old(self)),
            final(self).slots().len() == old(self).slots().len() + 1,
            id == old(self).slots().len(),
            id == old(self).ops().len(),
            is_field(final(self).slots(), id as int),
            final(self).field(id) == (old(self).field(a) + old(self).field(b)) % modulus(),
            final(self).ops() == old(self).ops().push(Op::Add(a, b)),
    {
        self.push(Op::Add(a, b))
    }

    /// The sum of a variable and a constant.
    pub fn add_constant(&mut self, a: usize, k: Fr) -> (id: usize)
        requires
            old(self).wf(),
            is_field(old(self).slots(), a as int),
        ensures
            final(self).continues(*old(self)),
            final(self).slots().len() == old(self).slots().len() + 1,
            id == old(self).slots().len(),
            id == old(self).ops().len(),
            is_field(final(self).slots(), id as int),
            final(self).field(id) == (old(self).field(a) + k@) % modulus(),
            final(self).ops() == old(self).ops().push(Op::AddConstant(a, k)),
    {
        self.push(Op::AddConstant(a, k))
    }

    /// The product of two variables.
    pub fn mul(&mut self, a: usize, b: usize) -> (id: usize)
        requires
            old(self).wf(),
            is_field(old(self).slots(), a as int),
            is_field(old(self).slots(), b as int),
        ensures
            final(self).continues(*old(self)),
            final(self).slots().len() == old(self).slots().len() + 1,
            id == old(self).slots().len(),
            id == old(self).ops().len(),
            is_field(final(self).slots(), id as int),
            final(self).field(id) == (old(self).field(a) * old(self).field(b)) % modulus(),
            final(self).ops() == old(self).ops().push(Op::Mul(a, b)),
    {
        self.push(Op::Mul(a, b))
    }

    /// The product of a variable and a constant.
    pub fn mul_constant(&mut self, a: usize, k: Fr) -> (id: usize)
        requires
            old(self).wf(),
            is_field(old(self).slots(), a as int),
        ensures
            final(self).continues(*old(self)),
            final(self).slots().len() == old(self).slots().len() + 1,
            id == old(self).slots().len(),
            id == old(self).ops().len(),
            is_field(final(self).slots(), id as int),
            final(self).field(id) == (old(self).field(a) * k@) % modulus(),
            final(self).ops() == old(self).ops().push(Op::MulConstant(a, k)),
    {
        self.push(Op::MulConstant(a, k))
    }

    /// The square of a variable.
    pub fn square(&mut self, a: usize) -> (id: usize)
        requires
            old(self).wf(),
            is_field(old(self).slots(), a as int),
        ensures
            final(self).continues(*old(self)),
            final(self).slots().len() == old(self).slots().len() + 1,
            id == old(self).slots().len(),
            id == old(self).ops().len(),
            is_field(final(self).slots(), id as int),
            final(self).field(id) == (old(self).field(a) * old(self).field(a)) % modulus(),
            final(self).ops() == old(self).ops().push(Op::Square(a)),
    {
        self.push(Op::Square(a))
    }

    /// The variable `a` if the boolean `cond` is true, else `b`.
    pub fn select(&mut self, cond: usize, a: usize, b: usize) -> (id: usize)
        requires
            old(self).wf(),
            is_bool(old(self).slots(), cond as int),
            is_field(old(self).slots(), a as int),
            is_field(old(self).slots(), b as int),
        ensures
            final(self).continues(*old(self)),
            final(self).slots().len() == old(self).slots().len() + 1,
            id == old(self).slots().len(),
            id == old(self).ops().len(),
            is_field(final(self).slots(), id as int),
            final(self).field(id) == if old(self).boolean(cond) {
                old(self).field(a)
            } else {
                old(self).field(b)
            },
            final(self).ops() == old(self).ops().push(Op::Select(cond, a, b)),
    {
        self.push(Op::Select(cond, a, b))
    }

    /// Whether two variables are equal, as a boolean.
    pub fn is_eq(&mut self, a: usize, b: usize) -> (id: usize)
        requires
            old(self).wf(),
            is_field(old(self).slots(), a as int),
            is_field(old(self).slots(), b as int),
        ensures
            final(self).continues(*old(self)),
            final(self).slots().len() == old(self).slots().len() + 1,
            id == old(self).slots().len(),
            id == old(self).ops().len(),
            is_bool(final(self).slots(), id as int),
            final(self).boolean(id) == (old(self).field(a) == old(self).field(b)),
            final(self).ops() == old(self).ops().push(Op::IsEq(a, b)),
    {
        self.push(Op::IsEq(a, b))
    }

    /// The negation of a boolean.
    pub fn not(&mut self, x: usize) -> (id: usize)
        requires
            old(self).wf(),
            is_bool(old(self).slots(), x as int),
        ensures
            final(self).continues(*old(self)),
            final(self).slots().len() == old(self).slots().len() + 1,
            id == old(self).slots().len(),
            id == old(self).ops().len(),
            is_bool(final(self).slots(), id as int),
            final(self).boolean(id) == !old(self).boolean(x),
            final(self).ops() == old(self).ops().push(Op::Not(x)),
    {
        self.push(Op::Not(x))
    }

    /// A boolean constant.
    pub fn bool_constant(&mut self, b: bool) -> (id: usize)
        requires
            old(self).wf(),
        ensures
            final(self).continues(*old(self)),
            final(self).slots().len() == old(self).slots().len() + 1,
            id == old(self).slots().len(),
            id == old(self).ops().len(),
            is_bool(final(self).slots(), id as int),
            final(self).boolean(id) == b,
            final(self).ops() == old(self).ops().push(Op::BoolConstant(b)),
    {
        self.push(Op::BoolConstant(b))
    }

    /// The 254 bits of a variable, least significant first.
    pub fn to_bits_le(&mut self, a: usize) -> (id: usize)
        requires
            old(self).wf(),
            is_field(old(self).slots(), a as int),
        ensures
            final(self).continues(*old(self)),
            final(self).slots().len() == old(self).slots().len() + 1,
            id == old(self).slots().len(),
            id == old(self).ops().len(),
            is_bits(final(self).slots(), id as int),
            final(self).slots()[id as int] == Slot::Bits(bits_le(old(self).field(a), 254)),
            final(self).ops() == old(self).ops().push(Op::ToBitsLe(a)),
    {
        self.push(Op::ToBitsLe(a))
    }

    /// Bit `k` of a bit decomposition, as a boolean.
    pub fn bit(&mut self, x: usize, k: usize) -> (id: usize)
        requires
            old(self).wf(),
            is_bits(old(self).slots(), x as int),
            k < 254,
        ensures
            final(self).continues(*old(self)),
            final(self).slots().len() == old(self).slots().len() + 1,
            id == old(self).slots().len(),
            id == old(self).ops().len(),
            is_bool(final(self).slots(), id as int),
            final(self).boolean(id) == bit_at(old(self).slots(), x as int, k as int),
            final(self).ops() == old(self).ops().push(Op::Bit(x, k)),
    {
        self.push(Op::Bit(x, k))
    }

    /// Demands that two variables are equal.
    pub fn enforce_equal(&mut self, a: usize, b: usize)
        requires
            old(self).wf(),
            is_field(old(self).slots(), a as int),
            is_field(old(self).slots(), b as int),
        ensures
            final(self).wf(),
            extends(final(self).slots(), old(self).slots()),
            final(self).slots().len() == old(self).slots().len() + 1,
            final(self).inputs() == old(self).inputs(),
            final(self).holds() == (old(self).holds() && (old(self).field(a) == old(self).field(b))),
            final(self).ops() == old(self).ops().push(Op::EnforceEqual(a, b)),
    {
        self.push(Op::EnforceEqual(a, b));
    }

    /// Demands that two variables are equal if the boolean `cond` is true.
    pub fn conditional_enforce_equal(&mut self, a: usize, b: usize, cond: usize)
        requires
            old(self).wf(),
            is_field(old(self).slots(), a as int),
            is_field(old(self).slots(), b as int),
            is_bool(old(self).slots(), cond as int),
        ensures
            final(self).wf(),
            extends(final(self).slots(), old(self).slots()),
            final(self).slots().len() == old(self).slots().len() + 1,
            final(self).inputs() == old(self).inputs(),
            final(self).holds() == (old(self).holds() && (old(self).boolean(cond) ==> old(self).field(a) == old(self).field(b))),
            final(self).ops() == old(self).ops().push(Op::ConditionalEnforceEqual(a, b, cond)),
    {
        self.push(Op::ConditionalEnforceEqual(a, b, cond));
    }

    /// Demands that two variables differ.
    pub fn enforce_not_equal(&mut self, a: usize, b: usize)
        requires
            old(self).wf(),
            is_field(old(self).slots(), a as int),
            is_field(old(self).slots(), b as int),
        ensures
            final(self).wf(),
            extends(final(self).slots(), old(self).slots()),
            final(self).slots().len() == old(self).slots().len() + 1,
            final(self).inputs() == old(self).inputs(),
            final(self).holds() == (old(self).holds() && (old(self).field(a) != old(self).field(b))),
            final(self).ops() == old(self).ops().push(Op::EnforceNotEqual(a, b)),
    {
        self.push(Op::EnforceNotEqual(a, b));
    }

    /// Demands that two booleans are equal if the boolean `cond` is true.
    pub fn bool_conditional_enforce_equal(&mut self, x: usize, y: usize, cond: usize)
        requires
            old(self).wf(),
            is_bool(old(self).slots(), x as int),
            is_bool(old(self).slots(), y as int),
            is_bool(old(self).slots(), cond as int),
        ensures
            final(self).wf(),
            extends(final(self).slots(), old(self).slots()),
            final(self).slots().len() == old(self).slots().len() + 1,
            final(self).inputs() == old(self).inputs(),
            final(self).holds() == (old(self).holds() && (old(self).boolean(cond) ==> old(self).boolean(x) == old(self).boolean(y))),
            final(self).ops() == old(self).ops().push(Op::BoolConditionalEnforceEqual(x, y, cond)),
    {
        self.push(Op::BoolConditionalEnforceEqual(x, y, cond));
    }
}

/// There is a field variable at each of the positions.
pub open spec fn all_fields(slots: Seq<Slot>, ids: Seq<usize>) -> bool {
    forall|k: int| 0 <= k < ids.len() ==> is_field(slots, #[trigger] ids[k] as int)
}

/// The field values at the positions.
pub open spec fn fields_at(slots: Seq<Slot>, ids: Seq<usize>) -> Seq<nat> {
    Seq::new(ids.len(), |k: int| field_at(slots, ids[k] as int))
}

/// Variables keep their kinds and values when operations are appended.
pub proof fn lemma_extends_fields(after: Seq<Slot>, before: Seq<Slot>, ids: Seq<usize>)
    requires
        extends(after, before),
        all_fields(before, ids),
    ensures
        all_fields(after, ids),
        fields_at(after, ids) == fields_at(before, ids),
{
    assert forall|k: int| 0 <= k < ids.len() implies is_field(after, #[trigger] ids[k] as int)
        && field_at(after, ids[k] as int) == field_at(before, ids[k] as int) by {
        assert(is_field(before, ids[k] as int));
    }
    assert(fields_at(after, ids) =~= fields_at(before, ids));
}

/// What an operation leaves at its position, computed.
#[derive(Debug, Clone)]
pub enum Value {
    /// The value of a public input.
    Input(Fr),
    /// The value of a field variable.
    Field(Fr),
    /// The value of a boolean.
    Bool(bool),
    /// The bits of a decomposition.
    Bits(Vec<bool>),
    /// Whether a demand is met.
    Check(bool),
}

impl View for Value {
    type V = Slot;

    open spec fn view(&self) -> Slot {
        match self {
            Value::Input(v) => Slot::Input(v@),
            Value::Field(v) => Slot::Field(v@),
            Value::Bool(b) => Slot::Bool(*b),
            Value::Bits(b) => Slot::Bits(b@),
            Value::Check(ok) => Slot::Check(*ok),
        }
    }
}

/// The slots that computed values stand for.
pub open spec fn slots_of(vals: Seq<Value>) -> Seq<Slot> {
    Seq::new(vals.len(), |i: int| vals[i]@)
}

/// The field value at a position; zero where there is none.
fn field_value(vals: &Vec<Value>, i: usize) -> (r: Fr)
    ensures
        r@ == field_at(slots_of(vals@), i as int),
{
    if i < vals.len() {
        match &vals[i] {
            Value::Input(v) => *v,
            Value::Field(v) => *v,
            _ => Fr::zero(),
        }
    } else {
        Fr::zero()
    }
}

/// The boolean at a position; false where there is none.
fn bool_value(vals: &Vec<Value>, i: usize) -> (r: bool)
    ensures
        r == bool_at(slots_of(vals@), i as int),
{
    if i < vals.len() {
        match &vals[i] {
            Value::Bool(b) => *b,
            _ => false,
        }
    } else {
        false
    }
}

/// Bit `k` of the decomposition at a position; false where there is none.
fn bit_value(vals: &Vec<Value>, i: usize, k: usize) -> (r: bool)
    ensures
        r == bit_at(slots_of(vals@), i as int, k as int),
{
    if i < vals.len() {
        match &vals[i] {
            Value::Bits(b) => k < b.len() && b[k],
            _ => false,
        }
    } else {
        false
    }
}

/// What an operation leaves behind the values of the operations before it.
fn evaluate_op(vals: &Vec<Value>, op: &Op) -> (r: Value)
    ensures
        r@ == eval(slots_of(vals@), *op),
{
    match *op {
        Op::Input(v) => Value::Input(v),
        Op::Witness(v) => Value::Field(v),
        Op::Constant(v) => Value::Field(v),
        Op::Add(a, b) => Value::Field(field_value(vals, a).add(&field_value(vals, b))),
        Op::AddConstant(a, k) => Value::Field(field_value(vals, a).add(&k)),
        Op::Mul(a, b) => Value::Field(field_value(vals, a).mul(&field_value(vals, b))),
        Op::MulConstant(a, k) => Value::Field(field_value(vals, a).mul(&k)),
        Op::Square(a) => {
            let x = field_value(vals, a);
            Value::Field(x.mul(&x))
        },
        Op::Select(cond, a, b) => Value::Field(
            if bool_value(vals, cond) {
                field_value(vals, a)
            } else {
                field_value(vals, b)
            },
        ),
        Op::IsEq(a, b) => {
            let x = field_value(vals, a);
            let y = field_value(vals, b);
            proof {
                lemma_equal_values(x, y);
            }
            Value::Bool(x == y)
        },
        Op::Not(x) => Value::Bool(!bool_value(vals, x)),
        Op::BoolConstant(b) => Value::Bool(b),
        Op::ToBitsLe(a) => Value::Bits(field_value(vals, a).to_bits_le()),
        Op::Bit(x, k) => Value::Bool(bit_value(vals, x, k)),
        Op::EnforceEqual(a, b) => {
            let x = field_value(vals, a);
            let y = field_value(vals, b);
            proof {
                lemma_equal_values(x, y);
            }
            Value::Check(x == y)
        },
        Op::ConditionalEnforceEqual(a, b, cond) => {
            let x = field_value(vals, a);
            let y = field_value(vals, b);
            proof {
                lemma_equal_values(x, y);
            }
            Value::Check(!bool_value(vals, cond) || x == y)
        },
        Op::EnforceNotEqual(a, b) => {
            let x = field_value(vals, a);
            let y = field_value(vals, b);
            proof {
                lemma_equal_values(x, y);
            }
            Value::Check(x != y)
        },
        Op::BoolConditionalEnforceEqual(x, y, cond) => Value::Check(
            !bool_value(vals, cond) || bool_value(vals, x) == bool_value(vals, y),
        ),
    }
}

impl Circuit {
    /// The value that every operation leaves, computed in order.
    pub fn evaluate(&self) -> (r: Vec<Value>)
        ensures
            slots_of(r@) == self.slots(),
    {
        let n = self.ops.len();
        let mut vals: Vec<Value> = Vec::new();
        let mut i: usize = 0;
        assert(self.ops@.take(0) =~= Seq::<Op>::empty());
        assert(slots_of(vals@) =~= run(self.ops@.take(0)));
        while i < n
            invariant
                n == self.ops@.len(),
                i <= n,
                vals@.len() == i,
                slots_of(vals@) == run(self.ops@.take(i as int)),
            decreases n - i,
        {
            let ghost before = slots_of(vals@);
            let v = evaluate_op(&vals, &self.ops[i]);
            vals.push(v);
            proof {
                assert(self.ops@.take(i + 1).drop_last() =~= self.ops@.take(i as int));
                assert(self.ops@.take(i + 1).last() == self.ops@[i as int]);
                assert(slots_of(vals@) =~= before.push(eval(before, self.ops@[i as int])));
            }
            i += 1;
        }
        assert(self.ops@.take(n as int) =~= self.ops@);
        vals
    }

    /// Whether the values that the circuit carries meet every demand.
    pub fn is_satisfied(&self) -> (r: bool)
        ensures
            r == self.holds(),
    {
        let vals = self.evaluate();
        let ghost slots = slots_of(vals@);
        let n = vals.len();
        let mut ok = true;
        let mut i: usize = 0;
        assert(slots.take(0) =~= Seq::<Slot>::empty());
        while i < n
            invariant
                n == vals@.len(),
                slots == slots_of(vals@),
                i <= n,
                ok == all_hold(slots.take(i as int)),
            decreases n - i,
        {
            proof {
                assert(slots.take(i + 1).drop_last() =~= slots.take(i as int));
                assert(slots.take(i + 1).last() == vals@[i as int]@);
            }
            match &vals[i] {
                Value::Check(passed) => {
                    ok = ok && *passed;
                },
                _ => {},
            }
            i += 1;
        }
        assert(slots.take(n as int) =~= slots);
        ok
    }

    /// The values of the public inputs in the order of their allocation.
    pub fn public_input_values(&self) -> (r: Vec<Fr>)
        ensures
            values(r@) == self.inputs(),
    {
        let vals = self.evaluate();
        let ghost slots = slots_of(vals@);
        let n = vals.len();
        let mut out: Vec<Fr> = Vec::new();
        let mut i: usize = 0;
        assert(slots.take(0) =~= Seq::<Slot>::empty());
        assert(values(out@) =~= public_inputs(slots.take(0)));
        while i < n
            invariant
                n == vals@.len(),
                slots == slots_of(vals@),
                i <= n,
                values(out@) == public_inputs(slots.take(i as int)),
            decreases n - i,
        {
            let ghost before = values(out@);
            proof {
                assert(slots.take(i + 1).drop_last() =~= slots.take(i as int));
                assert(slots.take(i + 1).last() == vals@[i as int]@);
            }
            match &vals[i] {
                Value::Input(v) => {
                    out.push(*v);
                    assert(values(out@) =~= before.push(v@));
                },
                _ => {},
            }
            i += 1;
        }
        assert(slots.take(n as int) =~= slots);
        out
    }
}

/// The program `a` holds `p` and `b` holds `q` at their beginnings, and
/// behind them the two hold the same operations.
#[verifier::opaque]
pub open spec fn same_growth(a: Seq<Op>, p: Seq<Op>, b: Seq<Op>, q: Seq<Op>) -> bool {
    &&& forall|i: int| 0 <= i < p.len() && i < a.len() ==> a[i] == #[trigger] p[i]
    &&& forall|i: int| 0 <= i < q.len() && i < b.len() ==> b[i] == #[trigger] q[i]
    &&& forall|i: int| p.len() <= i < a.len() && i < b.len() ==> #[trigger] a[i] == b[i]
}

/// The program `a` continues the program `p` by the operations by which `b`
/// continues `q`, a program as long as `p`.
pub open spec fn alike(a: Seq<Op>, p: Seq<Op>, b: Seq<Op>, q: Seq<Op>) -> bool {
    &&& p.len() == q.len()
    &&& a.len() == b.len()
    &&& p.len() <= a.len()
    &&& same_growth(a, p, b, q)
}

/// Continuing alike twice is continuing alike.
pub proof fn lemma_alike_chain(
    a2: Seq<Op>,
    a: Seq<Op>,
    p: Seq<Op>,
    b2: Seq<Op>,
    b: Seq<Op>,
    q: Seq<Op>,
)
    requires
        alike(a, p, b, q),
        alike(a2, a, b2, b),
    ensures
        alike(a2, p, b2, q),
{
    reveal(same_growth);
    assert forall|i: int| 0 <= i < p.len() implies a2[i] == #[trigger] p[i] by {
        assert(a2[i] == a[i]);
    }
    assert forall|i: int| 0 <= i < q.len() implies b2[i] == #[trigger] q[i] by {
        assert(b2[i] == b[i]);
    }
    assert forall|i: int| p.len() <= i < a2.len() implies #[trigger] a2[i] == b2[i] by {
        if i < a.len() {
            assert(a2[i] == a[i]);
            assert(b2[i] == b[i]);
            assert(a[i] == b[i]);
        }
    }
}

/// One more operation continues alike.
pub proof fn lemma_alike_push(a: Seq<Op>, p: Seq<Op>, b: Seq<Op>, q: Seq<Op>, op: Op)
    requires
        alike(a, p, b, q),
    ensures
        alike(a.push(op), p, b.push(op), q),
{
    reveal(same_growth);
}

/// A program continues itself by nothing.
pub proof fn lemma_alike_same(p: Seq<Op>, q: Seq<Op>)
    requires
        p.len() == q.len(),
    ensures
        alike(p, p, q, q),
{
    reveal(same_growth);
}

} // verus!
