//! Computation nodes: how each vector of a tape was produced.
//!
//! Operands are named by index: `*_grad` fields and `grad` name nodes of the
//! same tape, `lhs`, `rhs` and `input` name its value buffers.
use vstd::prelude::*;

verus! {

/// The node of a vector made from plain values: an independent variable or
/// a constant.
#[derive(Clone, Copy, Debug, PartialEq, Eq)]
pub struct EmptyGrad;

/// Elementwise sum of two vectors.
#[derive(Clone, Copy, Debug, PartialEq, Eq)]
pub struct Addition {
    pub lhs_grad: usize,
    pub rhs_grad: usize,
}

/// Elementwise difference of two vectors.
#[derive(Clone, Copy, Debug, PartialEq, Eq)]
pub struct Subtraction {
    pub lhs_grad: usize,
    pub rhs_grad: usize,
}

/// Elementwise product; keeps the operands' buffers for the product rule.
#[derive(Clone, Copy, Debug, PartialEq, Eq)]
pub struct Multiplication {
    pub lhs: usize,
    pub rhs: usize,
    pub lhs_grad: usize,
    pub rhs_grad: usize,
}

/// Elementwise quotient; keeps the operands' buffers for the quotient rule.
#[derive(Clone, Copy, Debug, PartialEq, Eq)]
pub struct Division {
    pub lhs: usize,
    pub rhs: usize,
    pub lhs_grad: usize,
    pub rhs_grad: usize,
}

/// Elementwise negation.
#[derive(Clone, Copy, Debug, PartialEq, Eq)]
pub struct Negation {
    pub grad: usize,
}

/// Elementwise magnitude; keeps the buffer of its input for the sign rule.
#[derive(Clone, Copy, Debug, PartialEq, Eq)]
pub struct Absolute {
    pub input: usize,
    pub grad: usize,
}

/// A computation node of any kind.
#[derive(Clone, Copy, Debug, PartialEq, Eq)]
pub enum Node {
    Leaf(EmptyGrad),
    Add(Addition),
    Sub(Subtraction),
    Mul(Multiplication),
    Div(Division),
    Neg(Negation),
    Abs(Absolute),
}

} // verus!
