//! The conversion of a WebNN graph into a TensorRT network.

use vstd::prelude::*;

pub mod arrange;
pub mod borders;
pub mod broadcast;
pub mod constants;
pub mod conv;
pub mod elementwise;
pub mod forms;
pub mod formulas;
pub mod frame;
pub mod geometry;
pub mod growth;
pub mod inner;
pub mod laws;
pub mod layers;
pub mod matrix;
pub mod meaning;
pub mod names;
pub mod network;
pub mod normalization;
pub mod numbers;
pub mod pad;
pub mod pieces;
pub mod pool;
pub mod quantize;
pub mod reduce;
pub mod replay;
pub mod scope;
pub mod select;
pub mod session;
pub mod shapes;
pub mod steps;
pub mod types;

verus! {

/// The converter to TensorRT.
pub struct TrtxConverter;

impl TrtxConverter {
    /// A converter.
    pub fn new() -> (c: TrtxConverter)
        ensures
            c == TrtxConverter,
    {
        TrtxConverter
    }
}

impl Default for TrtxConverter {
    fn default() -> (c: TrtxConverter)
        ensures
            c == TrtxConverter,
    {
        TrtxConverter
    }
}

} // verus!
