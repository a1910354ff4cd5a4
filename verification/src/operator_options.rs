//! The options of WebNN operations.

use crate::scalar::Scalar;
use vstd::prelude::*;

verus! {

/// A dimension whose size is known only up to a bound.
#[derive(Debug, Clone, PartialEq, Eq, Hash)]
pub struct MLDynamicDimension {
    pub name: String,
    pub max_size: u32,
}

/// One dimension of a shape that an operation asks for.
#[derive(Debug, Clone, PartialEq, Eq, Hash)]
pub enum MLDimension {
    Static(u32),
    Dynamic(MLDynamicDimension),
}

/// The size of a dimension, or its bound where the size is not fixed.
pub open spec fn ml_size(d: MLDimension) -> u32 {
    match d {
        MLDimension::Static(n) => n,
        MLDimension::Dynamic(d) => d.max_size,
    }
}

/// The sizes of a shape.
pub open spec fn ml_sizes(shape: Seq<MLDimension>) -> Seq<u32> {
    shape.map_values(|d: MLDimension| ml_size(d))
}

impl MLDimension {
    /// The size, or its bound where the size is not fixed.
    pub fn static_or_max(&self) -> (n: u32)
        ensures
            n == ml_size(*self),
    {
        match self {
            MLDimension::Static(n) => *n,
            MLDimension::Dynamic(d) => d.max_size,
        }
    }
}

/// The sizes of a shape, each bounded by its maximum where it is not fixed.
pub fn mldimensions_static_or_max(shape: &Vec<MLDimension>) -> (sizes: Vec<u32>)
    ensures
        sizes@ == ml_sizes(shape@),
{
    let mut sizes: Vec<u32> = Vec::with_capacity(shape.len());
    let mut i: usize = 0;
    while i < shape.len()
        invariant
            i <= shape.len(),
            sizes@.len() == i,
            forall|k: int| 0 <= k < i ==> #[trigger] sizes@[k] == ml_size(shape@[k]),
        decreases shape.len() - i,
    {
        sizes.push(shape[i].static_or_max());
        i = i + 1;
    }
    assert(sizes@ =~= ml_sizes(shape@));
    sizes
}

/// A floating-point value as its bit patterns and as the integers that it converts to. Conversions
/// drop the fraction and stop at the ends of the integer type; what is not a number converts to 0.
#[derive(Debug, Clone, Copy, PartialEq, Eq, Structural, Hash)]
pub struct FloatReading {
    pub bits: Scalar,
    pub to_i8: i8,
    pub to_u8: u8,
    pub to_i32: i32,
    pub to_i64: i64,
}

/// A number in the options of an operation, as the graph file spells it.
#[derive(Debug, Clone, PartialEq, Eq, Hash)]
pub enum MLNumber {
    /// An integer from 0 up.
    Unsigned { value: u64, reading: FloatReading },
    /// A negative integer.
    Negative { value: i64, reading: FloatReading },
    /// A number with a fraction or an exponent, with the `i64` and the `u64` that it truncates to
    /// where it lies in their ranges.
    Float { reading: FloatReading, truncated_i64: Option<i64>, truncated_u64: Option<u64> },
    /// A string, with its value where it spells a decimal number.
    Text { text: String, number: Option<FloatReading> },
    /// Anything else.
    Other,
}

#[derive(Debug, Clone, Hash)]
pub struct MLEluOptions {
    pub alpha: Scalar,
}

#[derive(Debug, Clone, Hash)]
pub struct MLLeakyReluOptions {
    pub alpha: Scalar,
}

#[derive(Debug, Clone, Hash)]
pub struct MLHardSigmoidOptions {
    pub alpha: Scalar,
    pub beta: Scalar,
}

#[derive(Debug, Clone, Hash)]
pub struct MLLinearOptions {
    pub alpha: Scalar,
    pub beta: Scalar,
}

#[derive(Debug, Clone, Hash)]
pub struct MLGemmOptions {
    pub c: Option<u32>,
    pub alpha: Scalar,
    pub beta: Scalar,
    pub a_transpose: bool,
    pub b_transpose: bool,
}

#[derive(Debug, Clone, Hash)]
pub struct MLBatchNormalizationOptions {
    pub scale: Option<u32>,
    pub bias: Option<u32>,
    pub axis: u32,
    pub epsilon: Scalar,
}

#[derive(Debug, Clone, Hash)]
pub struct MLInstanceNormalizationOptions {
    pub scale: Option<u32>,
    pub bias: Option<u32>,
    pub epsilon: Scalar,
    pub layout: String,
}

#[derive(Debug, Clone, Hash)]
pub struct MLLayerNormalizationOptions {
    pub scale: Option<u32>,
    pub bias: Option<u32>,
    pub axes: Option<Vec<u32>>,
    pub epsilon: Scalar,
}

#[derive(Debug, Clone, Hash)]
pub struct MLReduceOptions {
    pub axes: Option<Vec<u32>>,
    pub keep_dimensions: bool,
}

#[derive(Debug, Clone, Hash)]
pub struct MLSliceOptions {
    pub strides: Vec<u32>,
}

#[derive(Debug, Clone, Hash)]
pub struct MLSplitOptions {
    pub axis: u32,
}

#[derive(Debug, Clone, Hash)]
pub struct MLGatherOptions {
    pub axis: u32,
}

#[derive(Debug, Clone, Hash)]
pub struct MLScatterOptions {
    pub axis: u32,
}

#[derive(Debug, Clone, Hash)]
pub struct MLArgMinMaxOptions {
    pub keep_dimensions: bool,
}

#[derive(Debug, Clone, Hash)]
pub struct MLClampOptions {
    pub min_value: Option<MLNumber>,
    pub max_value: Option<MLNumber>,
}

#[derive(Debug, Clone, Hash)]
pub struct MLPadOptions {
    pub mode: String,
    pub value: Option<MLNumber>,
}

#[derive(Debug, Clone, Hash)]
pub struct MLReverseOptions {
    pub axes: Option<Vec<u32>>,
}

#[derive(Debug, Clone, Hash)]
pub struct MLCumulativeSumOptions {
    pub exclusive: bool,
    pub reversed: bool,
}

#[derive(Debug, Clone, Hash)]
pub struct MLTriangularOptions {
    pub upper: Option<bool>,
    pub diagonal: i32,
}

#[derive(Debug, Clone, Hash)]
pub struct MLTransposeOptions {
    pub permutation: Vec<u32>,
}

/// The scales are bit patterns of `f32` values; `scales_text` is the list of them in decimal, as
/// messages show it.
#[derive(Debug, Clone, Hash)]
pub struct MLResample2dOptions {
    pub mode: String,
    pub scales: Vec<u32>,
    pub scales_text: String,
    pub sizes: Option<Vec<u32>>,
    pub axes: Vec<u32>,
}

#[derive(Debug, Clone, Hash)]
pub struct MLConv2dOptions {
    pub padding: Vec<u32>,
    pub strides: Vec<u32>,
    pub dilations: Vec<u32>,
    pub groups: u32,
    pub input_layout: String,
    pub filter_layout: String,
    pub bias: Option<u32>,
}

#[derive(Debug, Clone, Hash)]
pub struct MLConvTranspose2dOptions {
    pub padding: Vec<u32>,
    pub strides: Vec<u32>,
    pub dilations: Vec<u32>,
    pub output_padding: Vec<u32>,
    pub output_sizes: Option<Vec<u32>>,
    pub groups: u32,
    pub input_layout: String,
    pub filter_layout: String,
    pub bias: Option<u32>,
}

#[derive(Debug, Clone, Hash)]
pub struct MLPool2dOptions {
    pub window_dimensions: Option<Vec<u32>>,
    pub padding: Vec<u32>,
    pub strides: Vec<u32>,
    pub dilations: Vec<u32>,
    pub layout: String,
    pub output_shape_rounding: String,
    pub output_sizes: Option<Vec<u32>>,
}

} // verus!
