//! Automatic differentiation over fixed-length vectors of `i64`, with a
//! gradient-descent optimizer built on top of it.
//!
//! Vectors are handles into a [`Tape`], an arena that owns every value
//! buffer and every computation node. A node records how a vector was
//! produced; a gradient query walks the nodes below the output and applies
//! the differentiation rule of each one. The query variable is recognised by
//! node identity, which in the arena is the node's index.
//!
//! Scalars follow the arithmetic of `i64` in release builds: addition,
//! subtraction, multiplication and negation wrap on overflow.
//! Division rounds toward zero and gives zero for a zero divisor; its values
//! are the quotients, and its derivative is the quotient rule
//! `(dl * r - l * dr) / (r * r)` over the divisor `r`.
//!
//! Vectors combined by one operation must have the same length. A gradient
//! query between vectors of different lengths is all zeros, since neither
//! can depend on the other.
mod arith;
mod funcs;
mod gradvec;
pub mod laws;
mod layer;
mod node;
mod scalar;
mod optim;
mod tape;
mod utils;

pub use node::{Absolute, Addition, Division, EmptyGrad, Multiplication, Negation, Node, Subtraction};
pub use gradvec::DiffLenErr;
pub use layer::Layer;
pub use optim::GradientDescent;
pub use utils::diag;
pub use tape::{GradVec, Tape};
