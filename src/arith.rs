//! The operations on vectors: each computes new values and records a node.
//!
//! Vectors combined by one operation must have the same length.
use vstd::prelude::*;
use crate::node::{Addition, Division, Multiplication, Node, Subtraction};
use crate::scalar::{add_spec, add_w, div_spec, div_w, mul_spec, mul_w, sub_spec, sub_w};
use crate::tape::{node_ok, GradVec, Tape};

verus! {

/// The elementwise binary operations.
#[derive(Clone, Copy)]
enum BinOp {
    Add,
    Sub,
    Mul,
    Div,
}

spec fn bin_spec(op: BinOp, x: i64, y: i64) -> i64 {
    match op {
        BinOp::Add => add_spec(x, y),
        BinOp::Sub => sub_spec(x, y),
        BinOp::Mul => mul_spec(x, y),
        BinOp::Div => div_spec(x, y),
    }
}

fn zip_with(op: BinOp, a: &Vec<i64>, b: &Vec<i64>) -> (r: Vec<i64>)
    requires
        a@.len() == b@.len(),
    ensures
        r@.len() == a@.len(),
        forall|i: int| 0 <= i < a@.len() ==> r@[i] == bin_spec(op, a@[i], b@[i]),
{
    let n = a.len();
    let mut r: Vec<i64> = Vec::with_capacity(n);
    let mut i: usize = 0;
    while i < n
        invariant
            i <= n,
            n == a@.len(),
            n == b@.len(),
            r@.len() == i,
            forall|j: int| 0 <= j < i ==> r@[j] == bin_spec(op, a@[j], b@[j]),
        decreases n - i,
    {
        let v = match op {
            BinOp::Add => add_w(a[i], b[i]),
            BinOp::Sub => sub_w(a[i], b[i]),
            BinOp::Mul => mul_w(a[i], b[i]),
            BinOp::Div => div_w(a[i], b[i]),
        };
        r.push(v);
        i += 1;
    }
    r
}

/// What every operation on `lhs` (and `rhs`) ensures of the tape and of
/// its result `r`, besides the result's values: the result has a new buffer,
/// which aliases no earlier one, and a new node.
pub open spec fn records(old: Tape, new: Tape, r: GradVec, node: Node) -> bool {
    &&& new.wf()
    &&& new.extends(old)
    &&& new.holds(r)
    &&& r.buf() == old.bufs().len()
    &&& r.node() == old.nodes().len()
    &&& new.nodes()[r.node() as int] == node
}

/// Preconditions of an operation on two vectors.
pub open spec fn operands_ok(tape: Tape, lhs: GradVec, rhs: GradVec) -> bool {
    &&& tape.wf()
    &&& tape.holds(lhs)
    &&& tape.holds(rhs)
    &&& tape.len_of(lhs) == tape.len_of(rhs)
}

impl GradVec {
    /// Pushes the values `op` gives on the two vectors, with node `node`.
    fn binary(&self, tape: &mut Tape, rhs: &GradVec, op: BinOp, node: Node) -> (r: GradVec)
        requires
            operands_ok(*old(tape), *self, *rhs),
            node_ok(
                old(tape).nodes().push(node),
                old(tape).bufs().push(Seq::new(old(tape).len_of(*self), |i: int| 0i64)),
                old(tape).lens().push(old(tape).len_of(*self)),
                old(tape).nodes().len() as int,
            ),
        ensures
            records(*old(tape), *final(tape), r, node),
            final(tape).values_of(r) == Seq::new(
                old(tape).len_of(*self),
                |i: int| bin_spec(op, old(tape).values_of(*self)[i], old(tape).values_of(*rhs)[i]),
            ),
    {
        let values = zip_with(op, tape.buf(self.data), tape.buf(rhs.data));
        let ghost n = values@.len();
        assert(old(tape).bufs().push(values@)[old(tape).bufs().len() as int].len() == n);
        assert(node_ok(
            old(tape).nodes().push(node),
            old(tape).bufs().push(values@),
            old(tape).lens().push(n),
            old(tape).nodes().len() as int,
        ));
        let r = tape.push_vec(values, node);
        assert(old(tape).nodes().is_prefix_of(final(tape).nodes()));
        assert(old(tape).bufs().is_prefix_of(final(tape).bufs()));
        assert(old(tape).lens().is_prefix_of(final(tape).lens()));
        assert(final(tape).values_of(r) =~= Seq::new(
            n,
            |i: int| bin_spec(op, old(tape).values_of(*self)[i], old(tape).values_of(*rhs)[i]),
        ));
        r
    }

    /// Elementwise sum.
    pub fn add(&self, tape: &mut Tape, rhs: &GradVec) -> (r: GradVec)
        requires
            operands_ok(*old(tape), *self, *rhs),
        ensures
            records(
                *old(tape),
                *final(tape),
                r,
                Node::Add(Addition { lhs_grad: self.node() as usize, rhs_grad: rhs.node() as usize }),
            ),
            final(tape).values_of(r) == Seq::new(
                old(tape).len_of(*self),
                |i: int| add_spec(old(tape).values_of(*self)[i], old(tape).values_of(*rhs)[i]),
            ),
    {
        let node = Node::Add(Addition { lhs_grad: self.grad, rhs_grad: rhs.grad });
        let r = self.binary(tape, rhs, BinOp::Add, node);
        assert(final(tape).values_of(r) =~= Seq::new(
            old(tape).len_of(*self),
            |i: int| add_spec(old(tape).values_of(*self)[i], old(tape).values_of(*rhs)[i]),
        ));
        r
    }

    /// Elementwise difference.
    pub fn sub(&self, tape: &mut Tape, rhs: &GradVec) -> (r: GradVec)
        requires
            operands_ok(*old(tape), *self, *rhs),
        ensures
            records(
                *old(tape),
                *final(tape),
                r,
                Node::Sub(Subtraction { lhs_grad: self.node() as usize, rhs_grad: rhs.node() as usize }),
            ),
            final(tape).values_of(r) == Seq::new(
                old(tape).len_of(*self),
                |i: int| sub_spec(old(tape).values_of(*self)[i], old(tape).values_of(*rhs)[i]),
            ),
    {
        let node = Node::Sub(Subtraction { lhs_grad: self.grad, rhs_grad: rhs.grad });
        let r = self.binary(tape, rhs, BinOp::Sub, node);
        assert(final(tape).values_of(r) =~= Seq::new(
            old(tape).len_of(*self),
            |i: int| sub_spec(old(tape).values_of(*self)[i], old(tape).values_of(*rhs)[i]),
        ));
        r
    }

    /// Elementwise product. The node keeps both operands' buffers.
    pub fn mul(&self, tape: &mut Tape, rhs: &GradVec) -> (r: GradVec)
        requires
            operands_ok(*old(tape), *self, *rhs),
        ensures
            records(
                *old(tape),
                *final(tape),
                r,
                Node::Mul(
                    Multiplication {
                        lhs: self.buf() as usize,
                        rhs: rhs.buf() as usize,
                        lhs_grad: self.node() as usize,
                        rhs_grad: rhs.node() as usize,
                    },
                ),
            ),
            final(tape).values_of(r) == Seq::new(
                old(tape).len_of(*self),
                |i: int| mul_spec(old(tape).values_of(*self)[i], old(tape).values_of(*rhs)[i]),
            ),
    {
        let node = Node::Mul(
            Multiplication { lhs: self.data, rhs: rhs.data, lhs_grad: self.grad, rhs_grad: rhs.grad },
        );
        let r = self.binary(tape, rhs, BinOp::Mul, node);
        assert(final(tape).values_of(r) =~= Seq::new(
            old(tape).len_of(*self),
            |i: int| mul_spec(old(tape).values_of(*self)[i], old(tape).values_of(*rhs)[i]),
        ));
        r
    }

    /// Elementwise quotient, rounded toward zero (see `div_spec` for a zero
    /// divisor). The values are the quotients themselves, and the node keeps
    /// both operands' buffers for the quotient rule
    /// `(dl * r - l * dr) / (r * r)`.
    pub fn div(&self, tape: &mut Tape, rhs: &GradVec) -> (r: GradVec)
        requires
            operands_ok(*old(tape), *self, *rhs),
        ensures
            records(
                *old(tape),
                *final(tape),
                r,
                Node::Div(
                    Division {
                        lhs: self.buf() as usize,
                        rhs: rhs.buf() as usize,
                        lhs_grad: self.node() as usize,
                        rhs_grad: rhs.node() as usize,
                    },
                ),
            ),
            final(tape).values_of(r) == Seq::new(
                old(tape).len_of(*self),
                |i: int| div_spec(old(tape).values_of(*self)[i], old(tape).values_of(*rhs)[i]),
            ),
    {
        let node = Node::Div(
            Division { lhs: self.data, rhs: rhs.data, lhs_grad: self.grad, rhs_grad: rhs.grad },
        );
        let r = self.binary(tape, rhs, BinOp::Div, node);
        assert(final(tape).values_of(r) =~= Seq::new(
            old(tape).len_of(*self),
            |i: int| div_spec(old(tape).values_of(*self)[i], old(tape).values_of(*rhs)[i]),
        ));
        r
    }

    /// Adds `rhs` to every entry. The result keeps this vector's node: the
    /// constant is no variable, and the result has this vector's gradients.
    pub fn add_scalar(&self, tape: &mut Tape, rhs: i64) -> (r: GradVec)
        requires
            old(tape).wf(),
            old(tape).holds(*self),
        ensures
            final(tape).wf(),
            final(tape).extends(*old(tape)),
            final(tape).holds(r),
            final(tape).nodes() == old(tape).nodes(),
            r.buf() == old(tape).bufs().len(),
            r.node() == self.node(),
            final(tape).values_of(r) == Seq::new(
                old(tape).len_of(*self),
                |i: int| add_spec(old(tape).values_of(*self)[i], rhs),
            ),
    {
        let a = tape.buf(self.data);
        let n = a.len();
        let mut values: Vec<i64> = Vec::with_capacity(n);
        let mut i: usize = 0;
        while i < n
            invariant
                i <= n,
                n == a@.len(),
                values@.len() == i,
                forall|j: int| 0 <= j < i ==> values@[j] == add_spec(a@[j], rhs),
            decreases n - i,
        {
            values.push(add_w(a[i], rhs));
            i += 1;
        }
        let r = tape.push_buf(values, self.grad);
        assert(old(tape).bufs().is_prefix_of(final(tape).bufs()));
        assert(final(tape).values_of(r) =~= Seq::new(
            old(tape).len_of(*self),
            |i: int| add_spec(old(tape).values_of(*self)[i], rhs),
        ));
        r
    }
}

} // verus!
