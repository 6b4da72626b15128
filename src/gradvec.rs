//! Making vectors, asking for gradients, and replacing values.
use vstd::prelude::*;
use crate::node::{EmptyGrad, Node};
use crate::tape::{GradVec, Tape};

verus! {

/// A replacement of a vector's values had the wrong length.
#[derive(Clone, Copy, Debug, PartialEq, Eq)]
pub struct DiffLenErr {
    /// The length of the vector.
    pub req: usize,
    /// The length of the values offered.
    pub act: usize,
}

impl GradVec {
    /// Wraps `values` as a new independent vector, with a fresh leaf node.
    pub fn from(tape: &mut Tape, values: Vec<i64>) -> (r: GradVec)
        requires
            old(tape).wf(),
        ensures
            final(tape).wf(),
            final(tape).extends(*old(tape)),
            final(tape).holds(r),
            final(tape).values_of(r) == values@,
            r.buf() == old(tape).bufs().len(),
            r.node() == old(tape).nodes().len(),
            final(tape).nodes()[r.node() as int] == Node::Leaf(EmptyGrad),
    {
        proof {
            assert(old(tape).nodes().is_prefix_of(old(tape).nodes().push(Node::Leaf(EmptyGrad))));
        }
        tape.push_vec(values, Node::Leaf(EmptyGrad))
    }

    /// A new independent vector as long as `gv`, each entry `value`.
    pub fn from_scalar(tape: &mut Tape, gv: &GradVec, value: i64) -> (r: GradVec)
        requires
            old(tape).wf(),
            old(tape).holds(*gv),
        ensures
            final(tape).wf(),
            final(tape).extends(*old(tape)),
            final(tape).holds(r),
            final(tape).values_of(r) == Seq::new(old(tape).len_of(*gv), |i: int| value),
            r.buf() == old(tape).bufs().len(),
            r.node() == old(tape).nodes().len(),
            final(tape).nodes()[r.node() as int] == Node::Leaf(EmptyGrad),
    {
        let n = tape.buf(gv.data).len();
        let values = Tape::filled(n, value);
        GradVec::from(tape, values)
    }

    /// The vector's values.
    pub fn values(&self, tape: &Tape) -> (r: Vec<i64>)
        requires
            tape.holds(*self),
        ensures
            r@ == tape.values_of(*self),
    {
        tape.buf(self.data).clone()
    }

    /// The vector's length.
    pub fn len(&self, tape: &Tape) -> (r: usize)
        requires
            tape.holds(*self),
        ensures
            r == tape.len_of(*self),
    {
        tape.buf(self.data).len()
    }

    /// Derivative of this vector with respect to `dx`, entry by entry.
    pub fn evaluate_grad(&self, tape: &Tape, dx: &GradVec) -> (r: Vec<i64>)
        requires
            tape.wf(),
            tape.holds(*self),
            tape.holds(*dx),
        ensures
            r@ == tape.gradient(*self, *dx),
            r@.len() == tape.len_of(*dx),
    {
        let n = tape.buf(dx.data).len();
        if tape.buf(self.data).len() != n {
            Tape::filled(n, 0)
        } else {
            tape.eval(self.grad, dx.grad, n)
        }
    }

    /// Replaces the vector's values and gives it a fresh leaf node, which
    /// detaches it from every expression built before. Buffers that those
    /// expressions keep of this vector see the new values.
    pub fn mutate(&mut self, tape: &mut Tape, data: Vec<i64>) -> (r: Result<(), DiffLenErr>)
        requires
            old(tape).wf(),
            old(tape).holds(*old(self)),
        ensures
            final(tape).wf(),
            final(tape).holds(*final(self)),
            old(tape).len_of(*old(self)) == data@.len() <==> r is Ok,
            r is Ok ==> {
                &&& final(tape).nodes() == old(tape).nodes().push(Node::Leaf(EmptyGrad))
                &&& final(tape).lens() == old(tape).lens().push(data@.len())
                &&& final(tape).bufs() == old(tape).bufs().update(old(self).buf() as int, data@)
                &&& final(self).buf() == old(self).buf()
                &&& final(self).node() == old(tape).nodes().len()
            },
            r is Err ==> {
                &&& *final(tape) == *old(tape)
                &&& *final(self) == *old(self)
                &&& r == Err::<(), DiffLenErr>(
                    DiffLenErr { req: old(tape).len_of(*old(self)) as usize, act: data@.len() as usize },
                )
            },
    {
        let self_len = tape.buf(self.data).len();
        let data_len = data.len();
        if self_len == data_len {
            let grad = tape.push_leaf(self_len);
            tape.set_buf(self.data, data);
            self.grad = grad;
            Ok(())
        } else {
            Err(DiffLenErr { req: self_len, act: data_len })
        }
    }
}

} // verus!
