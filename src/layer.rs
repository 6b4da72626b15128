//! A network layer: a link in a chain of layers, with no behaviour yet.
use vstd::prelude::*;

verus! {

/// One layer of a network and the layers after it.
pub struct Layer {
    next: Option<Box<Layer>>,
}

} // verus!
