//! What a WebNN context supports: for each operation, the element types and ranks of its operands.

use crate::data_type::DataType;
use vstd::prelude::*;

mod types;

pub use types::{
    MLBatchNormalizationSupportLimits, MLBinarySupportLimits, MLConcatSupportLimits,
    MLConv2dSupportLimits, MLGatherSupportLimits, MLGemmSupportLimits, MLGruCellSupportLimits,
    MLGruSupportLimits, MLLogicalNotSupportLimits, MLLstmCellSupportLimits, MLLstmSupportLimits,
    MLNormalizationSupportLimits, MLPreluSupportLimits, MLQuantizeDequantizeLinearSupportLimits,
    MLScatterSupportLimits, MLSingleInputSupportLimits, MLSplitSupportLimits, MLWhereSupportLimits,
};

verus! {

/// The layout that operations which depend on it prefer.
#[derive(Debug, Clone, Copy, PartialEq, Eq, Structural, Hash)]
pub enum MLInputOperandLayout {
    Nchw,
    Nhwc,
}

impl Default for MLInputOperandLayout {
    fn default() -> (l: MLInputOperandLayout)
        ensures
            l == MLInputOperandLayout::Nhwc,
    {
        MLInputOperandLayout::Nhwc
    }
}

/// The least and the greatest rank that are supported.
#[derive(Debug, Clone, Copy, PartialEq, Eq, Structural)]
pub struct MLRankRange {
    pub min: u32,
    pub max: u32,
}

impl Default for MLRankRange {
    fn default() -> (r: MLRankRange)
        ensures
            r.min == 0,
            r.max == 0,
    {
        MLRankRange { min: 0, max: 0 }
    }
}

/// The element types and the ranks that are supported.
#[derive(Debug, Clone, PartialEq)]
pub struct MLTensorLimits {
    pub data_types: Vec<DataType>,
    pub rank_range: MLRankRange,
}

impl MLTensorLimits {
    /// Whether no element type is listed and the only rank is 0.
    pub open spec fn is_unset(self) -> bool {
        &&& self.data_types@ == Seq::<DataType>::empty()
        &&& self.rank_range.min == 0
        &&& self.rank_range.max == 0
    }
}

impl Default for MLTensorLimits {
    fn default() -> (l: MLTensorLimits)
        ensures
            l.is_unset(),
    {
        MLTensorLimits { data_types: Vec::new(), rank_range: MLRankRange { min: 0, max: 0 } }
    }
}

/// The limits of a context: those of all tensors, and those of each operation that is described.
#[derive(Debug, Clone, PartialEq)]
pub struct MLOpSupportLimits {
    pub preferred_input_layout: MLInputOperandLayout,
    pub max_tensor_byte_length: u64,
    pub input: MLTensorLimits,
    pub constant: MLTensorLimits,
    pub output: MLTensorLimits,
    pub arg_min: Option<MLSingleInputSupportLimits>,
    pub arg_max: Option<MLSingleInputSupportLimits>,
    pub batch_normalization: Option<MLBatchNormalizationSupportLimits>,
    pub cast: Option<MLSingleInputSupportLimits>,
    pub clamp: Option<MLSingleInputSupportLimits>,
    pub concat: Option<MLConcatSupportLimits>,
    pub conv2d: Option<MLConv2dSupportLimits>,
    pub conv_transpose2d: Option<MLConv2dSupportLimits>,
    pub cumulative_sum: Option<MLSingleInputSupportLimits>,
    pub add: Option<MLBinarySupportLimits>,
    pub sub: Option<MLBinarySupportLimits>,
    pub mul: Option<MLBinarySupportLimits>,
    pub div: Option<MLBinarySupportLimits>,
    pub max: Option<MLBinarySupportLimits>,
    pub min: Option<MLBinarySupportLimits>,
    pub pow: Option<MLBinarySupportLimits>,
    pub equal: Option<MLBinarySupportLimits>,
    pub not_equal: Option<MLBinarySupportLimits>,
    pub greater: Option<MLBinarySupportLimits>,
    pub greater_or_equal: Option<MLBinarySupportLimits>,
    pub lesser: Option<MLBinarySupportLimits>,
    pub lesser_or_equal: Option<MLBinarySupportLimits>,
    pub logical_not: Option<MLLogicalNotSupportLimits>,
    pub logical_and: Option<MLBinarySupportLimits>,
    pub logical_or: Option<MLBinarySupportLimits>,
    pub logical_xor: Option<MLBinarySupportLimits>,
    pub is_na_n: Option<MLLogicalNotSupportLimits>,
    pub is_infinite: Option<MLLogicalNotSupportLimits>,
    pub abs: Option<MLSingleInputSupportLimits>,
    pub ceil: Option<MLSingleInputSupportLimits>,
    pub cos: Option<MLSingleInputSupportLimits>,
    pub erf: Option<MLSingleInputSupportLimits>,
    pub exp: Option<MLSingleInputSupportLimits>,
    pub floor: Option<MLSingleInputSupportLimits>,
    pub identity: Option<MLSingleInputSupportLimits>,
    pub log: Option<MLSingleInputSupportLimits>,
    pub neg: Option<MLSingleInputSupportLimits>,
    pub reciprocal: Option<MLSingleInputSupportLimits>,
    pub round_even: Option<MLSingleInputSupportLimits>,
    pub sin: Option<MLSingleInputSupportLimits>,
    pub sign: Option<MLSingleInputSupportLimits>,
    pub sqrt: Option<MLSingleInputSupportLimits>,
    pub tan: Option<MLSingleInputSupportLimits>,
    pub dequantize_linear: Option<MLQuantizeDequantizeLinearSupportLimits>,
    pub quantize_linear: Option<MLQuantizeDequantizeLinearSupportLimits>,
    pub elu: Option<MLSingleInputSupportLimits>,
    pub expand: Option<MLSingleInputSupportLimits>,
    pub gather: Option<MLGatherSupportLimits>,
    pub gather_elements: Option<MLGatherSupportLimits>,
    pub gather_nd: Option<MLGatherSupportLimits>,
    pub gelu: Option<MLSingleInputSupportLimits>,
    pub gemm: Option<MLGemmSupportLimits>,
    pub gru: Option<MLGruSupportLimits>,
    pub gru_cell: Option<MLGruCellSupportLimits>,
    pub hard_sigmoid: Option<MLSingleInputSupportLimits>,
    pub hard_swish: Option<MLSingleInputSupportLimits>,
    pub instance_normalization: Option<MLNormalizationSupportLimits>,
    pub layer_normalization: Option<MLNormalizationSupportLimits>,
    pub leaky_relu: Option<MLSingleInputSupportLimits>,
    pub linear: Option<MLSingleInputSupportLimits>,
    pub lstm: Option<MLLstmSupportLimits>,
    pub lstm_cell: Option<MLLstmCellSupportLimits>,
    pub matmul: Option<MLBinarySupportLimits>,
    pub pad: Option<MLSingleInputSupportLimits>,
    pub average_pool2d: Option<MLSingleInputSupportLimits>,
    pub l2_pool2d: Option<MLSingleInputSupportLimits>,
    pub max_pool2d: Option<MLSingleInputSupportLimits>,
    pub prelu: Option<MLPreluSupportLimits>,
    pub reduce_l1: Option<MLSingleInputSupportLimits>,
    pub reduce_l2: Option<MLSingleInputSupportLimits>,
    pub reduce_log_sum: Option<MLSingleInputSupportLimits>,
    pub reduce_log_sum_exp: Option<MLSingleInputSupportLimits>,
    pub reduce_max: Option<MLSingleInputSupportLimits>,
    pub reduce_mean: Option<MLSingleInputSupportLimits>,
    pub reduce_min: Option<MLSingleInputSupportLimits>,
    pub reduce_product: Option<MLSingleInputSupportLimits>,
    pub reduce_sum: Option<MLSingleInputSupportLimits>,
    pub reduce_sum_square: Option<MLSingleInputSupportLimits>,
    pub relu: Option<MLSingleInputSupportLimits>,
    pub resample2d: Option<MLSingleInputSupportLimits>,
    pub reshape: Option<MLSingleInputSupportLimits>,
    pub reverse: Option<MLSingleInputSupportLimits>,
    pub scatter_elements: Option<MLScatterSupportLimits>,
    pub scatter_nd: Option<MLScatterSupportLimits>,
    pub sigmoid: Option<MLSingleInputSupportLimits>,
    pub slice: Option<MLSingleInputSupportLimits>,
    pub softmax: Option<MLSingleInputSupportLimits>,
    pub softplus: Option<MLSingleInputSupportLimits>,
    pub softsign: Option<MLSingleInputSupportLimits>,
    pub split: Option<MLSplitSupportLimits>,
    pub tanh: Option<MLSingleInputSupportLimits>,
    pub tile: Option<MLSingleInputSupportLimits>,
    pub transpose: Option<MLSingleInputSupportLimits>,
    pub triangular: Option<MLSingleInputSupportLimits>,
    pub where_: Option<MLWhereSupportLimits>,
}

impl MLOpSupportLimits {
    /// Whether no operation is described.
    pub open spec fn describes_nothing(self) -> bool {
        &&& self.arg_min is None
        &&& self.arg_max is None
        &&& self.batch_normalization is None
        &&& self.cast is None
        &&& self.clamp is None
        &&& self.concat is None
        &&& self.conv2d is None
        &&& self.conv_transpose2d is None
        &&& self.cumulative_sum is None
        &&& self.add is None
        &&& self.sub is None
        &&& self.mul is None
        &&& self.div is None
        &&& self.max is None
        &&& self.min is None
        &&& self.pow is None
        &&& self.equal is None
        &&& self.not_equal is None
        &&& self.greater is None
        &&& self.greater_or_equal is None
        &&& self.lesser is None
        &&& self.lesser_or_equal is None
        &&& self.logical_not is None
        &&& self.logical_and is None
        &&& self.logical_or is None
        &&& self.logical_xor is None
        &&& self.is_na_n is None
        &&& self.is_infinite is None
        &&& self.abs is None
        &&& self.ceil is None
        &&& self.cos is None
        &&& self.erf is None
        &&& self.exp is None
        &&& self.floor is None
        &&& self.identity is None
        &&& self.log is None
        &&& self.neg is None
        &&& self.reciprocal is None
        &&& self.round_even is None
        &&& self.sin is None
        &&& self.sign is None
        &&& self.sqrt is None
        &&& self.tan is None
        &&& self.dequantize_linear is None
        &&& self.quantize_linear is None
        &&& self.elu is None
        &&& self.expand is None
        &&& self.gather is None
        &&& self.gather_elements is None
        &&& self.gather_nd is None
        &&& self.gelu is None
        &&& self.gemm is None
        &&& self.gru is None
        &&& self.gru_cell is None
        &&& self.hard_sigmoid is None
        &&& self.hard_swish is None
        &&& self.instance_normalization is None
        &&& self.layer_normalization is None
        &&& self.leaky_relu is None
        &&& self.linear is None
        &&& self.lstm is None
        &&& self.lstm_cell is None
        &&& self.matmul is None
        &&& self.pad is None
        &&& self.average_pool2d is None
        &&& self.l2_pool2d is None
        &&& self.max_pool2d is None
        &&& self.prelu is None
        &&& self.reduce_l1 is None
        &&& self.reduce_l2 is None
        &&& self.reduce_log_sum is None
        &&& self.reduce_log_sum_exp is None
        &&& self.reduce_max is None
        &&& self.reduce_mean is None
        &&& self.reduce_min is None
        &&& self.reduce_product is None
        &&& self.reduce_sum is None
        &&& self.reduce_sum_square is None
        &&& self.relu is None
        &&& self.resample2d is None
        &&& self.reshape is None
        &&& self.reverse is None
        &&& self.scatter_elements is None
        &&& self.scatter_nd is None
        &&& self.sigmoid is None
        &&& self.slice is None
        &&& self.softmax is None
        &&& self.softplus is None
        &&& self.softsign is None
        &&& self.split is None
        &&& self.tanh is None
        &&& self.tile is None
        &&& self.transpose is None
        &&& self.triangular is None
        &&& self.where_ is None
    }
}

impl Default for MLOpSupportLimits {
    fn default() -> (l: MLOpSupportLimits)
        ensures
            l.preferred_input_layout == MLInputOperandLayout::Nhwc,
            l.max_tensor_byte_length == 0,
            l.input.is_unset(),
            l.constant.is_unset(),
            l.output.is_unset(),
            l.describes_nothing(),
    {
        MLOpSupportLimits {
            preferred_input_layout: MLInputOperandLayout::Nhwc,
            max_tensor_byte_length: 0,
            input: MLTensorLimits::default(),
            constant: MLTensorLimits::default(),
            output: MLTensorLimits::default(),
            arg_min: None,
            arg_max: None,
            batch_normalization: None,
            cast: None,
            clamp: None,
            concat: None,
            conv2d: None,
            conv_transpose2d: None,
            cumulative_sum: None,
            add: None,
            sub: None,
            mul: None,
            div: None,
            max: None,
            min: None,
            pow: None,
            equal: None,
            not_equal: None,
            greater: None,
            greater_or_equal: None,
            lesser: None,
            lesser_or_equal: None,
            logical_not: None,
            logical_and: None,
            logical_or: None,
            logical_xor: None,
            is_na_n: None,
            is_infinite: None,
            abs: None,
            ceil: None,
            cos: None,
            erf: None,
            exp: None,
            floor: None,
            identity: None,
            log: None,
            neg: None,
            reciprocal: None,
            round_even: None,
            sin: None,
            sign: None,
            sqrt: None,
            tan: None,
            dequantize_linear: None,
            quantize_linear: None,
            elu: None,
            expand: None,
            gather: None,
            gather_elements: None,
            gather_nd: None,
            gelu: None,
            gemm: None,
            gru: None,
            gru_cell: None,
            hard_sigmoid: None,
            hard_swish: None,
            instance_normalization: None,
            layer_normalization: None,
            leaky_relu: None,
            linear: None,
            lstm: None,
            lstm_cell: None,
            matmul: None,
            pad: None,
            average_pool2d: None,
            l2_pool2d: None,
            max_pool2d: None,
            prelu: None,
            reduce_l1: None,
            reduce_l2: None,
            reduce_log_sum: None,
            reduce_log_sum_exp: None,
            reduce_max: None,
            reduce_mean: None,
            reduce_min: None,
            reduce_product: None,
            reduce_sum: None,
            reduce_sum_square: None,
            relu: None,
            resample2d: None,
            reshape: None,
            reverse: None,
            scatter_elements: None,
            scatter_nd: None,
            sigmoid: None,
            slice: None,
            softmax: None,
            softplus: None,
            softsign: None,
            split: None,
            tanh: None,
            tile: None,
            transpose: None,
            triangular: None,
            where_: None,
        }
    }
}

} // verus!
