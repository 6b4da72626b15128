//! Rules that gradients obey, proved over the tape's model.
use vstd::prelude::*;
use crate::node::{Addition, Division, EmptyGrad, Multiplication, Node};
use crate::scalar::{div_spec, lemma_div_by_square, lemma_units, mul_spec, neg_spec};
use crate::tape::{grad_at, node_ok, ones, zeros, GradVec, Tape};

verus! {

/// A vector held by a tape stays held, with the same values and the same
/// gradients, when the tape grows.
pub proof fn lemma_extends(old: Tape, new: Tape, out: GradVec, target: GradVec)
    requires
        old.wf(),
        new.extends(old),
        old.holds(out),
        old.holds(target),
    ensures
        new.holds(out),
        new.holds(target),
        new.values_of(out) == old.values_of(out),
        new.values_of(target) == old.values_of(target),
        new.gradient(out, target) == old.gradient(out, target),
{
    assert(new.bufs()[out.buf() as int] == old.bufs()[out.buf() as int]);
    assert(new.bufs()[target.buf() as int] == old.bufs()[target.buf() as int]);
    assert(new.lens()[out.node() as int] == old.lens()[out.node() as int]);
    assert(new.lens()[target.node() as int] == old.lens()[target.node() as int]);
    if old.len_of(out) == old.len_of(target) {
        lemma_grad_at_extends(old, new, out.node(), target.node(), old.len_of(target));
    }
}

proof fn lemma_grad_at_extends(old: Tape, new: Tape, k: nat, t: nat, n: nat)
    requires
        old.wf(),
        new.extends(old),
        k < old.nodes().len(),
        old.lens()[k as int] == n,
    ensures
        grad_at(new.nodes(), new.bufs(), k, t, n) == grad_at(old.nodes(), old.bufs(), k, t, n),
    decreases k,
{
    assert(node_ok(old.nodes(), old.bufs(), old.lens(), k as int));
    assert(new.nodes()[k as int] == old.nodes()[k as int]);
    if k != t {
        match old.nodes()[k as int] {
            Node::Leaf(_) => {},
            Node::Add(a) => {
                lemma_grad_at_extends(old, new, a.lhs_grad as nat, t, n);
                lemma_grad_at_extends(old, new, a.rhs_grad as nat, t, n);
            },
            Node::Sub(s) => {
                lemma_grad_at_extends(old, new, s.lhs_grad as nat, t, n);
                lemma_grad_at_extends(old, new, s.rhs_grad as nat, t, n);
            },
            Node::Mul(m) => {
                lemma_grad_at_extends(old, new, m.lhs_grad as nat, t, n);
                lemma_grad_at_extends(old, new, m.rhs_grad as nat, t, n);
                assert(new.bufs()[m.lhs as int] == old.bufs()[m.lhs as int]);
                assert(new.bufs()[m.rhs as int] == old.bufs()[m.rhs as int]);
            },
            Node::Div(d) => {
                lemma_grad_at_extends(old, new, d.lhs_grad as nat, t, n);
                lemma_grad_at_extends(old, new, d.rhs_grad as nat, t, n);
                assert(new.bufs()[d.lhs as int] == old.bufs()[d.lhs as int]);
                assert(new.bufs()[d.rhs as int] == old.bufs()[d.rhs as int]);
            },
            Node::Neg(g) => {
                lemma_grad_at_extends(old, new, g.grad as nat, t, n);
            },
            Node::Abs(a) => {
                lemma_grad_at_extends(old, new, a.grad as nat, t, n);
                assert(new.bufs()[a.input as int] == old.bufs()[a.input as int]);
            },
        }
    }
}

/// Mutating a vector replaces its own buffer only: every vector with
/// another buffer, such as the result of an earlier operation on it, keeps
/// its values. Nodes that keep the mutated buffer see the new values.
pub proof fn lemma_mutation_keeps_others(old: Tape, new: Tape, a: GradVec, data: Seq<i64>, c: GradVec)
    requires
        old.holds(a),
        old.holds(c),
        new.bufs() == old.bufs().update(a.buf() as int, data),
        c.buf() != a.buf(),
    ensures
        new.values_of(c) == old.values_of(c),
{
}

/// `v` is an independent vector: its node is a leaf.
pub open spec fn is_leaf(tape: Tape, v: GradVec) -> bool {
    tape.nodes()[v.node() as int] == Node::Leaf(EmptyGrad)
}

/// Every vector is its own derivative: the gradient of a vector with
/// respect to itself is all ones.
pub proof fn lemma_identity(tape: Tape, v: GradVec)
    requires
        tape.wf(),
        tape.holds(v),
    ensures
        tape.gradient(v, v) == ones(tape.len_of(v)),
{
}

/// Two vectors made independently from plain values do not depend on each
/// other: the gradient of one with respect to the other is all zeros.
pub proof fn lemma_independence(tape: Tape, a: GradVec, b: GradVec)
    requires
        tape.wf(),
        tape.holds(a),
        tape.holds(b),
        is_leaf(tape, a),
        a.node() != b.node(),
    ensures
        tape.gradient(a, b) == zeros(tape.len_of(b)),
{
}

/// Node `t` is newer than node `k`, so node `k` does not depend on it.
proof fn lemma_newer_target(tape: Tape, k: nat, t: nat, n: nat)
    requires
        tape.wf(),
        k < tape.nodes().len(),
        k < t,
    ensures
        grad_at(tape.nodes(), tape.bufs(), k, t, n) == zeros(n),
    decreases k,
{
    let nodes = tape.nodes();
    let bufs = tape.bufs();
    assert(node_ok(nodes, bufs, tape.lens(), k as int));
    let g = grad_at(nodes, bufs, k, t, n);
    match nodes[k as int] {
        Node::Leaf(_) => {},
        Node::Add(a) => {
            lemma_newer_target(tape, a.lhs_grad as nat, t, n);
            lemma_newer_target(tape, a.rhs_grad as nat, t, n);
            assert forall|i: int| 0 <= i < n implies g[i] == 0i64 by {
                lemma_units(0);
            }
        },
        Node::Sub(s) => {
            lemma_newer_target(tape, s.lhs_grad as nat, t, n);
            lemma_newer_target(tape, s.rhs_grad as nat, t, n);
            assert forall|i: int| 0 <= i < n implies g[i] == 0i64 by {
                lemma_units(0);
            }
        },
        Node::Mul(m) => {
            lemma_newer_target(tape, m.lhs_grad as nat, t, n);
            lemma_newer_target(tape, m.rhs_grad as nat, t, n);
            assert forall|i: int| 0 <= i < n implies g[i] == 0i64 by {
                lemma_units(bufs[m.lhs as int][i]);
                lemma_units(bufs[m.rhs as int][i]);
                lemma_units(0);
            }
        },
        Node::Div(d) => {
            lemma_newer_target(tape, d.lhs_grad as nat, t, n);
            lemma_newer_target(tape, d.rhs_grad as nat, t, n);
            assert forall|i: int| 0 <= i < n implies g[i] == 0i64 by {
                lemma_units(bufs[d.lhs as int][i]);
                lemma_units(bufs[d.rhs as int][i]);
                lemma_units(0);
            }
        },
        Node::Neg(c) => {
            lemma_newer_target(tape, c.grad as nat, t, n);
        },
        Node::Abs(c) => {
            lemma_newer_target(tape, c.grad as nat, t, n);
        },
    }
    assert(g =~= zeros(n));
}

/// A vector does not depend on a vector whose node is newer than its own.
/// After `mutate`, the mutated vector's node is newer than every node made
/// before, so every expression built before has zero gradient with respect
/// to the mutated vector: the mutation detaches it from those expressions.
pub proof fn lemma_detached(tape: Tape, c: GradVec, a: GradVec)
    requires
        tape.wf(),
        tape.holds(c),
        tape.holds(a),
        c.node() < a.node(),
    ensures
        tape.gradient(c, a) == zeros(tape.len_of(a)),
{
    lemma_newer_target(tape, c.node(), a.node(), tape.len_of(a));
}

/// Sum rule: for `c = a + b` with `a` and `b` independent, the gradient of
/// `c` with respect to each of them is all ones.
pub proof fn lemma_sum_rule(tape: Tape, a: GradVec, b: GradVec, c: GradVec)
    requires
        tape.wf(),
        tape.holds(a),
        tape.holds(b),
        tape.holds(c),
        is_leaf(tape, a),
        is_leaf(tape, b),
        a.node() != b.node(),
        tape.len_of(a) == tape.len_of(b),
        tape.len_of(c) == tape.len_of(a),
        tape.nodes()[c.node() as int] == Node::Add(
            Addition { lhs_grad: a.node() as usize, rhs_grad: b.node() as usize },
        ),
    ensures
        tape.gradient(c, a) == ones(tape.len_of(a)),
        tape.gradient(c, b) == ones(tape.len_of(b)),
{
    let n = tape.len_of(a);
    assert(node_ok(tape.nodes(), tape.bufs(), tape.lens(), c.node() as int));
    assert(grad_at(tape.nodes(), tape.bufs(), a.node(), a.node(), n) == ones(n));
    assert(grad_at(tape.nodes(), tape.bufs(), b.node(), a.node(), n) == zeros(n));
    assert(grad_at(tape.nodes(), tape.bufs(), a.node(), b.node(), n) == zeros(n));
    assert(grad_at(tape.nodes(), tape.bufs(), b.node(), b.node(), n) == ones(n));
    assert(tape.gradient(c, a) =~= ones(n)) by {
        lemma_units(1);
    }
    assert(tape.gradient(c, b) =~= ones(n)) by {
        lemma_units(1);
    }
}

/// Product rule: for `c = a * b` with `a` and `b` independent, the
/// gradient of `c` with respect to `a` is the values of `b`, and with
/// respect to `b` the values of `a`.
pub proof fn lemma_product_rule(tape: Tape, a: GradVec, b: GradVec, c: GradVec)
    requires
        tape.wf(),
        tape.holds(a),
        tape.holds(b),
        tape.holds(c),
        is_leaf(tape, a),
        is_leaf(tape, b),
        a.node() != b.node(),
        tape.len_of(a) == tape.len_of(b),
        tape.len_of(c) == tape.len_of(a),
        tape.nodes()[c.node() as int] == Node::Mul(
            Multiplication {
                lhs: a.buf() as usize,
                rhs: b.buf() as usize,
                lhs_grad: a.node() as usize,
                rhs_grad: b.node() as usize,
            },
        ),
    ensures
        tape.gradient(c, a) == tape.values_of(b),
        tape.gradient(c, b) == tape.values_of(a),
{
    let n = tape.len_of(a);
    assert(node_ok(tape.nodes(), tape.bufs(), tape.lens(), c.node() as int));
    assert(grad_at(tape.nodes(), tape.bufs(), a.node(), a.node(), n) == ones(n));
    assert(grad_at(tape.nodes(), tape.bufs(), b.node(), a.node(), n) == zeros(n));
    assert(grad_at(tape.nodes(), tape.bufs(), a.node(), b.node(), n) == zeros(n));
    assert(grad_at(tape.nodes(), tape.bufs(), b.node(), b.node(), n) == ones(n));
    assert forall|i: int| 0 <= i < n implies #[trigger] tape.gradient(c, a)[i] == tape.values_of(b)[i] by {
        lemma_units(tape.values_of(a)[i]);
        lemma_units(tape.values_of(b)[i]);
    }
    assert forall|i: int| 0 <= i < n implies #[trigger] tape.gradient(c, b)[i] == tape.values_of(a)[i] by {
        lemma_units(tape.values_of(a)[i]);
        lemma_units(tape.values_of(b)[i]);
    }
    assert(tape.gradient(c, a) =~= tape.values_of(b));
    assert(tape.gradient(c, b) =~= tape.values_of(a));
}

/// A vector multiplied by itself: for `c = a * a` with `a` independent,
/// both paths from `c` to `a` count, and the gradient is twice `a`.
pub proof fn lemma_square_rule(tape: Tape, a: GradVec, c: GradVec)
    requires
        tape.wf(),
        tape.holds(a),
        tape.holds(c),
        is_leaf(tape, a),
        tape.len_of(c) == tape.len_of(a),
        tape.nodes()[c.node() as int] == Node::Mul(
            Multiplication {
                lhs: a.buf() as usize,
                rhs: a.buf() as usize,
                lhs_grad: a.node() as usize,
                rhs_grad: a.node() as usize,
            },
        ),
    ensures
        tape.gradient(c, a) == Seq::new(tape.len_of(a), |i: int| mul_spec(2, tape.values_of(a)[i])),
{
    let n = tape.len_of(a);
    let x = tape.values_of(a);
    assert(node_ok(tape.nodes(), tape.bufs(), tape.lens(), c.node() as int));
    assert(grad_at(tape.nodes(), tape.bufs(), a.node(), a.node(), n) == ones(n));
    assert forall|i: int| 0 <= i < n implies #[trigger] tape.gradient(c, a)[i] == mul_spec(2, x[i]) by {
        lemma_units(x[i]);
    }
    assert(tape.gradient(c, a) =~= Seq::new(n, |i: int| mul_spec(2, x[i])));
}

/// Quotient rule: for `c = a / b` with `a` and `b` independent, the
/// gradient with respect to `a` is `b / b²` and with respect to `b` is
/// `-a / b²`, taken over the divisor `b` itself. Where `b²` does not
/// overflow, the first is `1 / b`.
pub proof fn lemma_quotient_rule(tape: Tape, a: GradVec, b: GradVec, c: GradVec)
    requires
        tape.wf(),
        tape.holds(a),
        tape.holds(b),
        tape.holds(c),
        is_leaf(tape, a),
        is_leaf(tape, b),
        a.node() != b.node(),
        tape.len_of(a) == tape.len_of(b),
        tape.len_of(c) == tape.len_of(a),
        tape.nodes()[c.node() as int] == Node::Div(
            Division {
                lhs: a.buf() as usize,
                rhs: b.buf() as usize,
                lhs_grad: a.node() as usize,
                rhs_grad: b.node() as usize,
            },
        ),
    ensures
        tape.gradient(c, a) == Seq::new(
            tape.len_of(a),
            |i: int| div_spec(tape.values_of(b)[i], mul_spec(tape.values_of(b)[i], tape.values_of(b)[i])),
        ),
        tape.gradient(c, b) == Seq::new(
            tape.len_of(a),
            |i: int|
                div_spec(neg_spec(tape.values_of(a)[i]), mul_spec(tape.values_of(b)[i], tape.values_of(b)[i])),
        ),
        forall|i: int|
            0 <= i < tape.len_of(a) && -3037000499 <= #[trigger] tape.values_of(b)[i] <= 3037000499
                ==> tape.gradient(c, a)[i] == div_spec(1, tape.values_of(b)[i]),
{
    let n = tape.len_of(a);
    let x = tape.values_of(a);
    let y = tape.values_of(b);
    assert(node_ok(tape.nodes(), tape.bufs(), tape.lens(), c.node() as int));
    assert(grad_at(tape.nodes(), tape.bufs(), a.node(), a.node(), n) == ones(n));
    assert(grad_at(tape.nodes(), tape.bufs(), b.node(), a.node(), n) == zeros(n));
    assert(grad_at(tape.nodes(), tape.bufs(), a.node(), b.node(), n) == zeros(n));
    assert(grad_at(tape.nodes(), tape.bufs(), b.node(), b.node(), n) == ones(n));
    assert forall|i: int| 0 <= i < n implies #[trigger] tape.gradient(c, a)[i] == div_spec(y[i], mul_spec(y[i], y[i])) by {
        lemma_units(x[i]);
        lemma_units(y[i]);
    }
    assert forall|i: int| 0 <= i < n implies #[trigger] tape.gradient(c, b)[i] == div_spec(neg_spec(x[i]), mul_spec(y[i], y[i])) by {
        lemma_units(x[i]);
        lemma_units(y[i]);
    }
    assert(tape.gradient(c, a) =~= Seq::new(n, |i: int| div_spec(y[i], mul_spec(y[i], y[i]))));
    assert forall|i: int| 0 <= i < n && -3037000499 <= #[trigger] y[i] <= 3037000499 implies tape.gradient(c, a)[i] == div_spec(1, y[i]) by {
        lemma_div_by_square(y[i]);
    }
    assert(tape.gradient(c, b) =~= Seq::new(n, |i: int| div_spec(neg_spec(x[i]), mul_spec(y[i], y[i]))));
}

} // verus!
