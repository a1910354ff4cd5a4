//! The limits of single operations: for each of their operands, the tensors that are supported.

use super::MLTensorLimits;
use vstd::prelude::*;

verus! {

/// The limits of batch normalization.
#[derive(Debug, Clone, PartialEq)]
pub struct MLBatchNormalizationSupportLimits {
    pub input: MLTensorLimits,
    pub mean: MLTensorLimits,
    pub variance: MLTensorLimits,
    pub scale: MLTensorLimits,
    pub bias: MLTensorLimits,
    pub output: MLTensorLimits,
}

/// The limits of an operation on two operands.
#[derive(Debug, Clone, PartialEq)]
pub struct MLBinarySupportLimits {
    pub a: MLTensorLimits,
    pub b: MLTensorLimits,
    pub output: MLTensorLimits,
}

/// The limits of a concatenation.
#[derive(Debug, Clone, PartialEq)]
pub struct MLConcatSupportLimits {
    pub inputs: MLTensorLimits,
    pub output: MLTensorLimits,
}

/// The limits of a convolution.
#[derive(Debug, Clone, PartialEq)]
pub struct MLConv2dSupportLimits {
    pub input: MLTensorLimits,
    pub filter: MLTensorLimits,
    pub bias: MLTensorLimits,
    pub output: MLTensorLimits,
}

/// The limits of a gather.
#[derive(Debug, Clone, PartialEq)]
pub struct MLGatherSupportLimits {
    pub input: MLTensorLimits,
    pub indices: MLTensorLimits,
    pub output: MLTensorLimits,
}

/// The limits of a general matrix multiplication.
#[derive(Debug, Clone, PartialEq)]
pub struct MLGemmSupportLimits {
    pub a: MLTensorLimits,
    pub b: MLTensorLimits,
    pub c: MLTensorLimits,
    pub output: MLTensorLimits,
}

/// The limits of a gated recurrent unit.
#[derive(Debug, Clone, PartialEq)]
pub struct MLGruSupportLimits {
    pub input: MLTensorLimits,
    pub weight: MLTensorLimits,
    pub recurrent_weight: MLTensorLimits,
    pub bias: MLTensorLimits,
    pub recurrent_bias: MLTensorLimits,
    pub initial_hidden_state: MLTensorLimits,
    pub output0: MLTensorLimits,
    pub output1: MLTensorLimits,
}

/// The limits of one cell of a gated recurrent unit.
#[derive(Debug, Clone, PartialEq)]
pub struct MLGruCellSupportLimits {
    pub input: MLTensorLimits,
    pub weight: MLTensorLimits,
    pub recurrent_weight: MLTensorLimits,
    pub hidden_state: MLTensorLimits,
    pub bias: MLTensorLimits,
    pub recurrent_bias: MLTensorLimits,
    pub output: MLTensorLimits,
}

/// The limits of a logical negation.
#[derive(Debug, Clone, PartialEq)]
pub struct MLLogicalNotSupportLimits {
    pub a: MLTensorLimits,
    pub output: MLTensorLimits,
}

/// The limits of a long short-term memory.
#[derive(Debug, Clone, PartialEq)]
pub struct MLLstmSupportLimits {
    pub input: MLTensorLimits,
    pub weight: MLTensorLimits,
    pub recurrent_weight: MLTensorLimits,
    pub bias: MLTensorLimits,
    pub recurrent_bias: MLTensorLimits,
    pub peephole_weight: MLTensorLimits,
    pub initial_hidden_state: MLTensorLimits,
    pub initial_cell_state: MLTensorLimits,
    pub output0: MLTensorLimits,
    pub output1: MLTensorLimits,
    pub output2: MLTensorLimits,
}

/// The limits of one cell of a long short-term memory.
#[derive(Debug, Clone, PartialEq)]
pub struct MLLstmCellSupportLimits {
    pub input: MLTensorLimits,
    pub weight: MLTensorLimits,
    pub recurrent_weight: MLTensorLimits,
    pub hidden_state: MLTensorLimits,
    pub cell_state: MLTensorLimits,
    pub bias: MLTensorLimits,
    pub recurrent_bias: MLTensorLimits,
    pub peephole_weight: MLTensorLimits,
    pub output0: MLTensorLimits,
    pub output1: MLTensorLimits,
}

/// The limits of an instance or layer normalization.
#[derive(Debug, Clone, PartialEq)]
pub struct MLNormalizationSupportLimits {
    pub input: MLTensorLimits,
    pub scale: MLTensorLimits,
    pub bias: MLTensorLimits,
    pub output: MLTensorLimits,
}

/// The limits of a rectifier with a slope.
#[derive(Debug, Clone, PartialEq)]
pub struct MLPreluSupportLimits {
    pub input: MLTensorLimits,
    pub slope: MLTensorLimits,
    pub output: MLTensorLimits,
}

/// The limits of a quantization or dequantization.
#[derive(Debug, Clone, PartialEq)]
pub struct MLQuantizeDequantizeLinearSupportLimits {
    pub input: MLTensorLimits,
    pub scale: MLTensorLimits,
    pub zero_point: MLTensorLimits,
    pub output: MLTensorLimits,
}

/// The limits of a scatter.
#[derive(Debug, Clone, PartialEq)]
pub struct MLScatterSupportLimits {
    pub input: MLTensorLimits,
    pub indices: MLTensorLimits,
    pub updates: MLTensorLimits,
    pub output: MLTensorLimits,
}

/// The limits of an operation on one operand.
#[derive(Debug, Clone, PartialEq)]
pub struct MLSingleInputSupportLimits {
    pub input: MLTensorLimits,
    pub output: MLTensorLimits,
}

/// The limits of a split.
#[derive(Debug, Clone, PartialEq)]
pub struct MLSplitSupportLimits {
    pub input: MLTensorLimits,
    pub outputs: MLTensorLimits,
}

/// The limits of a selection.
#[derive(Debug, Clone, PartialEq)]
pub struct MLWhereSupportLimits {
    pub condition: MLTensorLimits,
    pub true_value: MLTensorLimits,
    pub false_value: MLTensorLimits,
    pub output: MLTensorLimits,
}

} // verus!
