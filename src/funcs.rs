//! Unary operations on vectors.
use vstd::prelude::*;
use crate::arith::records;
use crate::node::{Absolute, Negation, Node};
use crate::scalar::{abs_spec, abs_w, neg_spec, neg_w};
use crate::tape::{GradVec, Tape};

verus! {

impl GradVec {
    /// Elementwise negation.
    pub fn neg(&self, tape: &mut Tape) -> (r: GradVec)
        requires
            old(tape).wf(),
            old(tape).holds(*self),
        ensures
            records(*old(tape), *final(tape), r, Node::Neg(Negation { grad: self.node() as usize })),
            final(tape).values_of(r) == Seq::new(
                old(tape).len_of(*self),
                |i: int| neg_spec(old(tape).values_of(*self)[i]),
            ),
    {
        let a = tape.buf(self.data);
        let n = a.len();
        let mut values: Vec<i64> = Vec::with_capacity(n);
        let mut i: usize = 0;
        while i < n
            invariant
                i <= n,
                n == a@.len(),
                values@.len() == i,
                forall|j: int| 0 <= j < i ==> values@[j] == neg_spec(a@[j]),
            decreases n - i,
        {
            values.push(neg_w(a[i]));
            i += 1;
        }
        let r = tape.push_vec(values, Node::Neg(Negation { grad: self.grad }));
        assert(old(tape).nodes().is_prefix_of(final(tape).nodes()));
        assert(old(tape).bufs().is_prefix_of(final(tape).bufs()));
        assert(old(tape).lens().is_prefix_of(final(tape).lens()));
        assert(final(tape).values_of(r) =~= Seq::new(
            old(tape).len_of(*self),
            |i: int| neg_spec(old(tape).values_of(*self)[i]),
        ));
        r
    }

    /// Elementwise magnitude. The node keeps this vector's buffer: where an
    /// entry of it is negative the derivative changes sign.
    pub fn abs(&self, tape: &mut Tape) -> (r: GradVec)
        requires
            old(tape).wf(),
            old(tape).holds(*self),
        ensures
            records(
                *old(tape),
                *final(tape),
                r,
                Node::Abs(Absolute { input: self.buf() as usize, grad: self.node() as usize }),
            ),
            final(tape).values_of(r) == Seq::new(
                old(tape).len_of(*self),
                |i: int| abs_spec(old(tape).values_of(*self)[i]),
            ),
    {
        let a = tape.buf(self.data);
        let n = a.len();
        let mut values: Vec<i64> = Vec::with_capacity(n);
        let mut i: usize = 0;
        while i < n
            invariant
                i <= n,
                n == a@.len(),
                values@.len() == i,
                forall|j: int| 0 <= j < i ==> values@[j] == abs_spec(a@[j]),
            decreases n - i,
        {
            values.push(abs_w(a[i]));
            i += 1;
        }
        let r = tape.push_vec(values, Node::Abs(Absolute { input: self.data, grad: self.grad }));
        assert(old(tape).nodes().is_prefix_of(final(tape).nodes()));
        assert(old(tape).bufs().is_prefix_of(final(tape).bufs()));
        assert(old(tape).lens().is_prefix_of(final(tape).lens()));
        assert(final(tape).values_of(r) =~= Seq::new(
            old(tape).len_of(*self),
            |i: int| abs_spec(old(tape).values_of(*self)[i]),
        ));
        r
    }
}

} // verus!
