//! The arena that owns value buffers and computation nodes, the handle type
//! [`GradVec`], and the gradient query.
use vstd::prelude::*;
use crate::node::{EmptyGrad, Node};
use crate::scalar::{
    add_spec, add_w, div_spec, div_w, mul_spec, mul_w, neg_spec, neg_w, sub_spec, sub_w,
};

verus! {

/// `n` ones.
pub open spec fn ones(n: nat) -> Seq<i64> {
    Seq::new(n, |i: int| 1i64)
}

/// `n` zeros.
pub open spec fn zeros(n: nat) -> Seq<i64> {
    Seq::new(n, |i: int| 0i64)
}

/// Whether node `k` is well formed at position `k` of `nodes`, where `lens`
/// gives the length of every node: its operand nodes come before it and
/// have its length, and the buffers it keeps exist and have its length.
pub open spec fn node_ok(nodes: Seq<Node>, bufs: Seq<Seq<i64>>, lens: Seq<nat>, k: int) -> bool {
    let n = lens[k];
    let below = |j: usize| j < k && lens[j as int] == n;
    let buf = |b: usize| b < bufs.len() && bufs[b as int].len() == n;
    match nodes[k] {
        Node::Leaf(_) => true,
        Node::Add(a) => below(a.lhs_grad) && below(a.rhs_grad),
        Node::Sub(s) => below(s.lhs_grad) && below(s.rhs_grad),
        Node::Mul(m) => below(m.lhs_grad) && below(m.rhs_grad) && buf(m.lhs) && buf(m.rhs),
        Node::Div(d) => below(d.lhs_grad) && below(d.rhs_grad) && buf(d.lhs) && buf(d.rhs),
        Node::Neg(g) => below(g.grad),
        Node::Abs(a) => below(a.grad) && buf(a.input),
    }
}

/// Derivative, position by position, of the vector whose node is `k` with
/// respect to the vector whose node is `t`, both of length `n`.
///
/// Node `t` itself has derivative one, a leaf that is not `t` zero; every
/// other node applies its rule to the derivatives of its operands and to
/// the buffers it keeps, as those buffers hold now.
pub open spec fn grad_at(nodes: Seq<Node>, bufs: Seq<Seq<i64>>, k: nat, t: nat, n: nat) -> Seq<i64>
    decreases k,
{
    if k == t {
        ones(n)
    } else if k >= nodes.len() {
        zeros(n)
    } else {
        match nodes[k as int] {
            Node::Leaf(_) => zeros(n),
            Node::Add(a) => if a.lhs_grad < k && a.rhs_grad < k {
                let dl = grad_at(nodes, bufs, a.lhs_grad as nat, t, n);
                let dr = grad_at(nodes, bufs, a.rhs_grad as nat, t, n);
                Seq::new(n, |i: int| add_spec(dl[i], dr[i]))
            } else {
                zeros(n)
            },
            Node::Sub(s) => if s.lhs_grad < k && s.rhs_grad < k {
                let dl = grad_at(nodes, bufs, s.lhs_grad as nat, t, n);
                let dr = grad_at(nodes, bufs, s.rhs_grad as nat, t, n);
                Seq::new(n, |i: int| sub_spec(dl[i], dr[i]))
            } else {
                zeros(n)
            },
            Node::Mul(m) => if m.lhs_grad < k && m.rhs_grad < k {
                let dl = grad_at(nodes, bufs, m.lhs_grad as nat, t, n);
                let dr = grad_at(nodes, bufs, m.rhs_grad as nat, t, n);
                let l = bufs[m.lhs as int];
                let r = bufs[m.rhs as int];
                Seq::new(n, |i: int| add_spec(mul_spec(dl[i], r[i]), mul_spec(l[i], dr[i])))
            } else {
                zeros(n)
            },
            Node::Div(d) => if d.lhs_grad < k && d.rhs_grad < k {
                let dl = grad_at(nodes, bufs, d.lhs_grad as nat, t, n);
                let dr = grad_at(nodes, bufs, d.rhs_grad as nat, t, n);
                let l = bufs[d.lhs as int];
                let r = bufs[d.rhs as int];
                Seq::new(
                    n,
                    |i: int|
                        div_spec(
                            sub_spec(mul_spec(dl[i], r[i]), mul_spec(l[i], dr[i])),
                            mul_spec(r[i], r[i]),
                        ),
                )
            } else {
                zeros(n)
            },
            Node::Neg(g) => if g.grad < k {
                let dc = grad_at(nodes, bufs, g.grad as nat, t, n);
                Seq::new(n, |i: int| neg_spec(dc[i]))
            } else {
                zeros(n)
            },
            Node::Abs(a) => if a.grad < k {
                let dc = grad_at(nodes, bufs, a.grad as nat, t, n);
                let x = bufs[a.input as int];
                Seq::new(n, |i: int| if x[i] < 0 { neg_spec(dc[i]) } else { dc[i] })
            } else {
                zeros(n)
            },
        }
    }
}

/// Derivative of `out` with respect to `target`, one entry per entry of
/// `target`, over the given nodes and buffers. Vectors of different lengths
/// depend on each other nowhere.
pub open spec fn grad_of(nodes: Seq<Node>, bufs: Seq<Seq<i64>>, out: GradVec, target: GradVec) -> Seq<i64> {
    let n = bufs[target.buf() as int].len();
    if bufs[out.buf() as int].len() != n {
        zeros(n)
    } else {
        grad_at(nodes, bufs, out.node(), target.node(), n)
    }
}

/// Owner of every value buffer and computation node of a family of vectors.
///
/// Nodes are never changed or removed once pushed; buffers keep their length
/// but their contents may be replaced, and every node that keeps a buffer
/// then sees the new contents.
pub struct Tape {
    pub(crate) nodes: Vec<Node>,
    pub(crate) bufs: Vec<Vec<i64>>,
    pub(crate) lens: Ghost<Seq<nat>>,
}

/// A differentiable vector: the buffer that holds its values and the node
/// that records how they were produced, both in a [`Tape`].
#[derive(Clone, Copy, Debug, PartialEq, Eq)]
pub struct GradVec {
    pub(crate) data: usize,
    pub(crate) grad: usize,
}

impl GradVec {
    /// Index of the vector's buffer.
    pub open(crate) spec fn buf(self) -> nat {
        self.data as nat
    }

    /// Index of the vector's node; the identity of the vector in gradient
    /// queries.
    pub open(crate) spec fn node(self) -> nat {
        self.grad as nat
    }
}

impl Tape {
    pub open(crate) spec fn nodes(self) -> Seq<Node> {
        self.nodes@
    }

    pub open(crate) spec fn bufs(self) -> Seq<Seq<i64>> {
        self.bufs@.map_values(|b: Vec<i64>| b@)
    }

    /// Length of the vectors of each node.
    pub open(crate) spec fn lens(self) -> Seq<nat> {
        self.lens@
    }

    pub open spec fn wf(self) -> bool {
        &&& self.lens().len() == self.nodes().len()
        &&& forall|k: int| 0 <= k < self.nodes().len() ==> node_ok(self.nodes(), self.bufs(), self.lens(), k)
    }

    /// `v` names a buffer and a node of this tape, of one length.
    pub open spec fn holds(self, v: GradVec) -> bool {
        &&& v.buf() < self.bufs().len()
        &&& v.node() < self.nodes().len()
        &&& self.bufs()[v.buf() as int].len() == self.lens()[v.node() as int]
    }

    pub open spec fn values_of(self, v: GradVec) -> Seq<i64> {
        self.bufs()[v.buf() as int]
    }

    pub open spec fn len_of(self, v: GradVec) -> nat {
        self.values_of(v).len()
    }

    /// Derivative of `out` with respect to `target`, one entry per entry of
    /// `target`. Vectors of different lengths depend on each other nowhere.
    pub open spec fn gradient(self, out: GradVec, target: GradVec) -> Seq<i64> {
        grad_of(self.nodes(), self.bufs(), out, target)
    }

    /// `self` is `old` with nodes and buffers appended, nothing else changed.
    pub open spec fn extends(self, old: Tape) -> bool {
        &&& old.nodes().is_prefix_of(self.nodes())
        &&& old.bufs().is_prefix_of(self.bufs())
        &&& old.lens().is_prefix_of(self.lens())
    }

    /// An empty tape.
    pub fn new() -> (r: Tape)
        ensures
            r.wf(),
            r.nodes().len() == 0,
            r.bufs().len() == 0,
    {
        Tape { nodes: Vec::new(), bufs: Vec::new(), lens: Ghost(Seq::empty()) }
    }

    pub(crate) fn filled(n: usize, x: i64) -> (r: Vec<i64>)
        ensures
            r@ == Seq::new(n as nat, |i: int| x),
    {
        let mut r: Vec<i64> = Vec::with_capacity(n);
        let mut i: usize = 0;
        while i < n
            invariant
                i <= n,
                r@.len() == i,
                forall|j: int| 0 <= j < i ==> r@[j] == x,
            decreases n - i,
        {
            r.push(x);
            i += 1;
        }
        assert(r@ =~= Seq::new(n as nat, |i: int| x));
        r
    }

    /// Derivative of node `k` with respect to node `t`, for vectors of
    /// length `n`: a new vector on every call, nothing cached.
    pub(crate) fn eval(&self, k: usize, t: usize, n: usize) -> (r: Vec<i64>)
        requires
            self.wf(),
            k < self.nodes().len(),
            self.lens()[k as int] == n,
        ensures
            r@ == grad_at(self.nodes(), self.bufs(), k as nat, t as nat, n as nat),
        decreases k,
    {
        if k == t {
            return Self::filled(n, 1);
        }
        assert(node_ok(self.nodes(), self.bufs(), self.lens(), k as int));
        match self.nodes[k] {
            Node::Leaf(_) => Self::filled(n, 0),
            Node::Add(a) => {
                let dl = self.eval(a.lhs_grad, t, n);
                let dr = self.eval(a.rhs_grad, t, n);
                let mut r: Vec<i64> = Vec::with_capacity(n);
                let mut i: usize = 0;
                while i < n
                    invariant
                        i <= n,
                        dl@.len() == n,
                        dr@.len() == n,
                        r@.len() == i,
                        forall|j: int| 0 <= j < i ==> r@[j] == add_spec(dl@[j], dr@[j]),
                    decreases n - i,
                {
                    r.push(add_w(dl[i], dr[i]));
                    i += 1;
                }
                assert(r@ =~= grad_at(self.nodes(), self.bufs(), k as nat, t as nat, n as nat));
                r
            },
            Node::Sub(s) => {
                let dl = self.eval(s.lhs_grad, t, n);
                let dr = self.eval(s.rhs_grad, t, n);
                let mut r: Vec<i64> = Vec::with_capacity(n);
                let mut i: usize = 0;
                while i < n
                    invariant
                        i <= n,
                        dl@.len() == n,
                        dr@.len() == n,
                        r@.len() == i,
                        forall|j: int| 0 <= j < i ==> r@[j] == sub_spec(dl@[j], dr@[j]),
                    decreases n - i,
                {
                    r.push(sub_w(dl[i], dr[i]));
                    i += 1;
                }
                assert(r@ =~= grad_at(self.nodes(), self.bufs(), k as nat, t as nat, n as nat));
                r
            },
            Node::Mul(m) => {
                let dl = self.eval(m.lhs_grad, t, n);
                let dr = self.eval(m.rhs_grad, t, n);
                let l = &self.bufs[m.lhs];
                let rv = &self.bufs[m.rhs];
                let mut r: Vec<i64> = Vec::with_capacity(n);
                let mut i: usize = 0;
                while i < n
                    invariant
                        i <= n,
                        dl@.len() == n,
                        dr@.len() == n,
                        l@.len() == n,
                        rv@.len() == n,
                        r@.len() == i,
                        forall|j: int|
                            0 <= j < i ==> r@[j] == add_spec(
                                mul_spec(dl@[j], rv@[j]),
                                mul_spec(l@[j], dr@[j]),
                            ),
                    decreases n - i,
                {
                    r.push(add_w(mul_w(dl[i], rv[i]), mul_w(l[i], dr[i])));
                    i += 1;
                }
                assert(r@ =~= grad_at(self.nodes(), self.bufs(), k as nat, t as nat, n as nat));
                r
            },
            Node::Div(d) => {
                let dl = self.eval(d.lhs_grad, t, n);
                let dr = self.eval(d.rhs_grad, t, n);
                let l = &self.bufs[d.lhs];
                let rv = &self.bufs[d.rhs];
                let mut r: Vec<i64> = Vec::with_capacity(n);
                let mut i: usize = 0;
                while i < n
                    invariant
                        i <= n,
                        dl@.len() == n,
                        dr@.len() == n,
                        l@.len() == n,
                        rv@.len() == n,
                        r@.len() == i,
                        forall|j: int|
                            0 <= j < i ==> r@[j] == div_spec(
                                sub_spec(mul_spec(dl@[j], rv@[j]), mul_spec(l@[j], dr@[j])),
                                mul_spec(rv@[j], rv@[j]),
                            ),
                    decreases n - i,
                {
                    let num = sub_w(mul_w(dl[i], rv[i]), mul_w(l[i], dr[i]));
                    r.push(div_w(num, mul_w(rv[i], rv[i])));
                    i += 1;
                }
                assert(r@ =~= grad_at(self.nodes(), self.bufs(), k as nat, t as nat, n as nat));
                r
            },
            Node::Neg(g) => {
                let dc = self.eval(g.grad, t, n);
                let mut r: Vec<i64> = Vec::with_capacity(n);
                let mut i: usize = 0;
                while i < n
                    invariant
                        i <= n,
                        dc@.len() == n,
                        r@.len() == i,
                        forall|j: int| 0 <= j < i ==> r@[j] == neg_spec(dc@[j]),
                    decreases n - i,
                {
                    r.push(neg_w(dc[i]));
                    i += 1;
                }
                assert(r@ =~= grad_at(self.nodes(), self.bufs(), k as nat, t as nat, n as nat));
                r
            },
            Node::Abs(a) => {
                let dc = self.eval(a.grad, t, n);
                let x = &self.bufs[a.input];
                let mut r: Vec<i64> = Vec::with_capacity(n);
                let mut i: usize = 0;
                while i < n
                    invariant
                        i <= n,
                        dc@.len() == n,
                        x@.len() == n,
                        r@.len() == i,
                        forall|j: int|
                            0 <= j < i ==> r@[j] == if x@[j] < 0 {
                                neg_spec(dc@[j])
                            } else {
                                dc@[j]
                            },
                    decreases n - i,
                {
                    if x[i] < 0 {
                        r.push(neg_w(dc[i]));
                    } else {
                        r.push(dc[i]);
                    }
                    i += 1;
                }
                assert(r@ =~= grad_at(self.nodes(), self.bufs(), k as nat, t as nat, n as nat));
                r
            },
        }
    }

    /// Appends a buffer and a node, of one length: the parts of a new vector.
    pub(crate) fn push_vec(&mut self, values: Vec<i64>, node: Node) -> (r: GradVec)
        requires
            old(self).wf(),
            node_ok(
                old(self).nodes().push(node),
                old(self).bufs().push(values@),
                old(self).lens().push(values@.len()),
                old(self).nodes().len() as int,
            ),
        ensures
            final(self).wf(),
            final(self).nodes() == old(self).nodes().push(node),
            final(self).bufs() == old(self).bufs().push(values@),
            final(self).lens() == old(self).lens().push(values@.len()),
            r.buf() == old(self).bufs().len(),
            r.node() == old(self).nodes().len(),
            final(self).holds(r),
    {
        let ghost n = values@.len();
        let data = self.bufs.len();
        let grad = self.nodes.len();
        self.bufs.push(values);
        self.nodes.push(node);
        self.lens = Ghost(self.lens@.push(n));
        assert(self.bufs() =~= old(self).bufs().push(self.bufs@[data as int]@));
        assert forall|k: int| 0 <= k < self.nodes().len() implies node_ok(
            self.nodes(),
            self.bufs(),
            self.lens(),
            k,
        ) by {
            if k < grad {
                assert(node_ok(old(self).nodes(), old(self).bufs(), old(self).lens(), k));
            }
        }
        GradVec { data, grad }
    }

    /// Buffer `b`.
    pub(crate) fn buf(&self, b: usize) -> (r: &Vec<i64>)
        requires
            b < self.bufs().len(),
        ensures
            r@ == self.bufs()[b as int],
    {
        &self.bufs[b]
    }

    /// Appends a leaf node for vectors of length `n`.
    pub(crate) fn push_leaf(&mut self, n: usize) -> (r: usize)
        requires
            old(self).wf(),
        ensures
            final(self).wf(),
            final(self).nodes() == old(self).nodes().push(Node::Leaf(EmptyGrad)),
            final(self).bufs() == old(self).bufs(),
            final(self).lens() == old(self).lens().push(n as nat),
            r == old(self).nodes().len(),
    {
        let r = self.nodes.len();
        self.nodes.push(Node::Leaf(EmptyGrad));
        self.lens = Ghost(self.lens@.push(n as nat));
        assert forall|k: int| 0 <= k < self.nodes().len() implies node_ok(
            self.nodes(),
            self.bufs(),
            self.lens(),
            k,
        ) by {
            if k < r {
                assert(node_ok(old(self).nodes(), old(self).bufs(), old(self).lens(), k));
            }
        }
        r
    }

    /// Appends a buffer as the values of a vector whose node is `grad`.
    pub(crate) fn push_buf(&mut self, values: Vec<i64>, grad: usize) -> (r: GradVec)
        requires
            old(self).wf(),
            grad < old(self).nodes().len(),
            old(self).lens()[grad as int] == values@.len(),
        ensures
            final(self).wf(),
            final(self).nodes() == old(self).nodes(),
            final(self).bufs() == old(self).bufs().push(values@),
            final(self).lens() == old(self).lens(),
            r.buf() == old(self).bufs().len(),
            r.node() == grad,
            final(self).holds(r),
    {
        let data = self.bufs.len();
        self.bufs.push(values);
        assert(self.bufs() =~= old(self).bufs().push(self.bufs@[data as int]@));
        assert forall|k: int| 0 <= k < self.nodes().len() implies node_ok(
            self.nodes(),
            self.bufs(),
            self.lens(),
            k,
        ) by {
            assert(node_ok(old(self).nodes(), old(self).bufs(), old(self).lens(), k));
        }
        GradVec { data, grad }
    }

    /// Replaces the contents of buffer `b` by values of the same length.
    pub(crate) fn set_buf(&mut self, b: usize, values: Vec<i64>)
        requires
            old(self).wf(),
            b < old(self).bufs().len(),
            old(self).bufs()[b as int].len() == values@.len(),
        ensures
            final(self).wf(),
            final(self).nodes() == old(self).nodes(),
            final(self).bufs() == old(self).bufs().update(b as int, values@),
            final(self).lens() == old(self).lens(),
    {
        self.bufs.set(b, values);
        assert(self.bufs() =~= old(self).bufs().update(b as int, self.bufs@[b as int]@));
        assert forall|k: int| 0 <= k < self.nodes().len() implies node_ok(
            self.nodes(),
            self.bufs(),
            self.lens(),
            k,
        ) by {
            assert(node_ok(old(self).nodes(), old(self).bufs(), old(self).lens(), k));
        }
    }
}

} // verus!
