//! Gradient descent over the vectors of a tape.
use vstd::prelude::*;
use crate::node::Node;
use crate::scalar::{mul_spec, mul_w, sub_spec, sub_w};
use crate::tape::{grad_of, GradVec, Tape};

verus! {

/// Buffers after one descent step on `params`, in order, for the loss
/// `loss`: each parameter's buffer loses `lr` times the gradient of the loss
/// with respect to it, where that gradient is taken after the updates of
/// the parameters before it.
pub open spec fn descend(
    nodes: Seq<Node>,
    bufs: Seq<Seq<i64>>,
    lr: i64,
    loss: GradVec,
    params: Seq<GradVec>,
) -> Seq<Seq<i64>>
    decreases params.len(),
{
    if params.len() == 0 {
        bufs
    } else {
        let prev = descend(nodes, bufs, lr, loss, params.drop_last());
        let p = params.last();
        let x = prev[p.buf() as int];
        let g = grad_of(nodes, prev, loss, p);
        prev.update(p.buf() as int, Seq::new(x.len(), |i: int| sub_spec(x[i], mul_spec(lr, g[i]))))
    }
}

/// Fixed-rate gradient descent on a list of parameter vectors.
pub struct GradientDescent {
    params: Vec<GradVec>,
    lr: i64,
}

impl GradientDescent {
    pub closed spec fn params(self) -> Seq<GradVec> {
        self.params@
    }

    pub closed spec fn lr(self) -> i64 {
        self.lr
    }

    pub fn new(lr: i64, params: Vec<GradVec>) -> (r: GradientDescent)
        ensures
            r.lr() == lr,
            r.params() == params@,
    {
        GradientDescent { params, lr }
    }

    /// One descent step: for each parameter in order, takes the gradient of
    /// `v` with respect to it and moves its values against that gradient.
    /// The parameters keep their nodes.
    pub fn step(&self, tape: &mut Tape, v: &GradVec)
        requires
            old(tape).wf(),
            old(tape).holds(*v),
            forall|i: int| 0 <= i < self.params().len() ==> old(tape).holds(#[trigger] self.params()[i]),
        ensures
            final(tape).wf(),
            final(tape).nodes() == old(tape).nodes(),
            final(tape).lens() == old(tape).lens(),
            final(tape).bufs() == descend(old(tape).nodes(), old(tape).bufs(), self.lr(), *v, self.params()),
    {
        let mut k: usize = 0;
        while k < self.params.len()
            invariant
                k <= self.params@.len(),
                tape.wf(),
                tape.nodes() == old(tape).nodes(),
                tape.lens() == old(tape).lens(),
                tape.bufs().len() == old(tape).bufs().len(),
                forall|b: int| 0 <= b < tape.bufs().len() ==> #[trigger] tape.bufs()[b].len() == old(tape).bufs()[b].len(),
                tape.bufs() == descend(old(tape).nodes(), old(tape).bufs(), self.lr, *v, self.params@.take(k as int)),
                tape.holds(*v),
                forall|i: int| 0 <= i < self.params().len() ==> old(tape).holds(#[trigger] self.params()[i]),
            decreases self.params@.len() - k,
        {
            let p = self.params[k];
            assert(old(tape).holds(self.params()[k as int]));
            let g = v.evaluate_grad(tape, &p);
            let x = tape.buf(p.data);
            let n = x.len();
            let mut values: Vec<i64> = Vec::with_capacity(n);
            let mut i: usize = 0;
            while i < n
                invariant
                    i <= n,
                    n == x@.len(),
                    n == g@.len(),
                    values@.len() == i,
                    forall|j: int| 0 <= j < i ==> values@[j] == sub_spec(x@[j], mul_spec(self.lr, g@[j])),
                decreases n - i,
            {
                values.push(sub_w(x[i], mul_w(self.lr, g[i])));
                i += 1;
            }
            let ghost before = tape.bufs();
            tape.set_buf(p.data, values);
            proof {
                let ps = self.params@.take(k as int + 1);
                assert(ps.drop_last() =~= self.params@.take(k as int));
                assert(ps.last() == p);
                assert(values@ =~= Seq::new(
                    x@.len(),
                    |j: int| sub_spec(x@[j], mul_spec(self.lr, g@[j])),
                ));
            }
            k += 1;
        }
        assert(self.params@.take(self.params@.len() as int) =~= self.params@);
    }
}

} // verus!
