//! The operations of a WebNN graph.

use crate::operator_options::{
    MLArgMinMaxOptions, MLBatchNormalizationOptions, MLClampOptions, MLConv2dOptions,
    MLConvTranspose2dOptions, MLCumulativeSumOptions, MLDimension, MLEluOptions, MLGatherOptions,
    MLGemmOptions, MLHardSigmoidOptions, MLInstanceNormalizationOptions,
    MLLayerNormalizationOptions, MLLeakyReluOptions, MLLinearOptions, MLPadOptions,
    MLPool2dOptions, MLReduceOptions, MLResample2dOptions, MLReverseOptions, MLScatterOptions,
    MLSliceOptions, MLSplitOptions, MLTransposeOptions, MLTriangularOptions,
};
use vstd::prelude::*;

verus! {

/// What an operation computes, with the parameters that are not operands.
#[allow(inconsistent_fields)]
#[derive(Debug, Clone, Hash)]
pub enum OperationKind {
    Add,
    Sub,
    Mul,
    Div,
    Pow,
    Max,
    Min,
    Relu,
    Sigmoid,
    Tanh,
    Elu { options: Option<MLEluOptions> },
    Softsign,
    Softplus,
    Gelu,
    LeakyRelu { options: Option<MLLeakyReluOptions> },
    Prelu,
    HardSigmoid { options: Option<MLHardSigmoidOptions> },
    HardSwish,
    Exp,
    Log,
    Sqrt,
    Reciprocal,
    Abs,
    Neg,
    Sin,
    Cos,
    Tan,
    Ceil,
    Floor,
    Erf,
    Sign,
    Identity,
    Cast,
    QuantizeLinear,
    DequantizeLinear,
    Matmul,
    Gemm { options: Option<MLGemmOptions> },
    Conv2d { options: Option<MLConv2dOptions> },
    ConvTranspose2d { options: Option<MLConvTranspose2dOptions> },
    AveragePool2d { options: Option<MLPool2dOptions> },
    MaxPool2d { options: Option<MLPool2dOptions> },
    L2Pool2d { options: Option<MLPool2dOptions> },
    GlobalAveragePool { options: Option<MLPool2dOptions> },
    GlobalMaxPool { options: Option<MLPool2dOptions> },
    BatchNormalization { options: Option<MLBatchNormalizationOptions> },
    InstanceNormalization { options: Option<MLInstanceNormalizationOptions> },
    LayerNormalization { options: Option<MLLayerNormalizationOptions> },
    ReduceSum { options: Option<MLReduceOptions> },
    ReduceMean { options: Option<MLReduceOptions> },
    ReduceMax { options: Option<MLReduceOptions> },
    ReduceMin { options: Option<MLReduceOptions> },
    ReduceProduct { options: Option<MLReduceOptions> },
    ReduceL1 { options: Option<MLReduceOptions> },
    ReduceL2 { options: Option<MLReduceOptions> },
    ReduceLogSum { options: Option<MLReduceOptions> },
    ReduceLogSumExp { options: Option<MLReduceOptions> },
    ReduceSumSquare { options: Option<MLReduceOptions> },
    Slice { starts: Vec<u32>, sizes: Vec<MLDimension>, options: Option<MLSliceOptions> },
    Split { splits: Vec<u32>, options: Option<MLSplitOptions> },
    /// `axes` is absent where every dimension of size 1 goes.
    Squeeze { axes: Option<Vec<u32>> },
    /// `axes` is absent where the attribute is missing, and empty inside where it is not a list.
    Unsqueeze { axes: Option<Option<Vec<u32>>> },
    Expand { new_shape: Vec<MLDimension> },
    Tile { repetitions: Vec<u32> },
    Equal,
    Greater,
    GreaterOrEqual,
    Lesser,
    LesserOrEqual,
    NotEqual,
    LogicalAnd,
    LogicalOr,
    LogicalXor,
    LogicalNot,
    Gather { options: Option<MLGatherOptions> },
    GatherND,
    GatherElements { options: Option<MLGatherOptions> },
    ScatterElements { options: Option<MLScatterOptions> },
    ScatterND,
    ArgMax { axis: u32, options: Option<MLArgMinMaxOptions> },
    ArgMin { axis: u32, options: Option<MLArgMinMaxOptions> },
    Clamp { options: Option<MLClampOptions> },
    Where,
    Linear { options: Option<MLLinearOptions> },
    Pad {
        beginning_padding: Vec<u32>,
        ending_padding: Vec<u32>,
        options: Option<MLPadOptions>,
    },
    Softmax { axis: u32 },
    Concat { axis: u32 },
    IsNaN,
    IsInfinite,
    RoundEven,
    Reverse { options: Option<MLReverseOptions> },
    CumulativeSum { axis: u32, options: Option<MLCumulativeSumOptions> },
    Triangular { options: Option<MLTriangularOptions> },
    Transpose { options: Option<MLTransposeOptions> },
    Reshape { new_shape: Vec<MLDimension> },
    Resample2d { options: Option<MLResample2dOptions> },
    /// An operation that is known by its name alone.
    Other { name: String },
}

/// The WebNN name of an operation.
pub open spec fn op_type_name(kind: OperationKind) -> Seq<char> {
    match kind {
        OperationKind::Add => "add"@,
        OperationKind::Sub => "sub"@,
        OperationKind::Mul => "mul"@,
        OperationKind::Div => "div"@,
        OperationKind::Pow => "pow"@,
        OperationKind::Max => "max"@,
        OperationKind::Min => "min"@,
        OperationKind::Relu => "relu"@,
        OperationKind::Sigmoid => "sigmoid"@,
        OperationKind::Tanh => "tanh"@,
        OperationKind::Elu { .. } => "elu"@,
        OperationKind::Softsign => "softsign"@,
        OperationKind::Softplus => "softplus"@,
        OperationKind::Gelu => "gelu"@,
        OperationKind::LeakyRelu { .. } => "leakyRelu"@,
        OperationKind::Prelu => "prelu"@,
        OperationKind::HardSigmoid { .. } => "hardSigmoid"@,
        OperationKind::HardSwish => "hardSwish"@,
        OperationKind::Exp => "exp"@,
        OperationKind::Log => "log"@,
        OperationKind::Sqrt => "sqrt"@,
        OperationKind::Reciprocal => "reciprocal"@,
        OperationKind::Abs => "abs"@,
        OperationKind::Neg => "neg"@,
        OperationKind::Sin => "sin"@,
        OperationKind::Cos => "cos"@,
        OperationKind::Tan => "tan"@,
        OperationKind::Ceil => "ceil"@,
        OperationKind::Floor => "floor"@,
        OperationKind::Erf => "erf"@,
        OperationKind::Sign => "sign"@,
        OperationKind::Identity => "identity"@,
        OperationKind::Cast => "cast"@,
        OperationKind::QuantizeLinear => "quantizeLinear"@,
        OperationKind::DequantizeLinear => "dequantizeLinear"@,
        OperationKind::Matmul => "matmul"@,
        OperationKind::Gemm { .. } => "gemm"@,
        OperationKind::Conv2d { .. } => "conv2d"@,
        OperationKind::ConvTranspose2d { .. } => "convTranspose2d"@,
        OperationKind::AveragePool2d { .. } => "averagePool2d"@,
        OperationKind::MaxPool2d { .. } => "maxPool2d"@,
        OperationKind::L2Pool2d { .. } => "l2Pool2d"@,
        OperationKind::GlobalAveragePool { .. } => "globalAveragePool"@,
        OperationKind::GlobalMaxPool { .. } => "globalMaxPool"@,
        OperationKind::BatchNormalization { .. } => "batchNormalization"@,
        OperationKind::InstanceNormalization { .. } => "instanceNormalization"@,
        OperationKind::LayerNormalization { .. } => "layerNormalization"@,
        OperationKind::ReduceSum { .. } => "reduceSum"@,
        OperationKind::ReduceMean { .. } => "reduceMean"@,
        OperationKind::ReduceMax { .. } => "reduceMax"@,
        OperationKind::ReduceMin { .. } => "reduceMin"@,
        OperationKind::ReduceProduct { .. } => "reduceProduct"@,
        OperationKind::ReduceL1 { .. } => "reduceL1"@,
        OperationKind::ReduceL2 { .. } => "reduceL2"@,
        OperationKind::ReduceLogSum { .. } => "reduceLogSum"@,
        OperationKind::ReduceLogSumExp { .. } => "reduceLogSumExp"@,
        OperationKind::ReduceSumSquare { .. } => "reduceSumSquare"@,
        OperationKind::Slice { .. } => "slice"@,
        OperationKind::Split { .. } => "split"@,
        OperationKind::Squeeze { .. } => "squeeze"@,
        OperationKind::Unsqueeze { .. } => "unsqueeze"@,
        OperationKind::Expand { .. } => "expand"@,
        OperationKind::Tile { .. } => "tile"@,
        OperationKind::Equal => "equal"@,
        OperationKind::Greater => "greater"@,
        OperationKind::GreaterOrEqual => "greaterOrEqual"@,
        OperationKind::Lesser => "lesser"@,
        OperationKind::LesserOrEqual => "lesserOrEqual"@,
        OperationKind::NotEqual => "notEqual"@,
        OperationKind::LogicalAnd => "logicalAnd"@,
        OperationKind::LogicalOr => "logicalOr"@,
        OperationKind::LogicalXor => "logicalXor"@,
        OperationKind::LogicalNot => "logicalNot"@,
        OperationKind::Gather { .. } => "gather"@,
        OperationKind::GatherND => "gatherND"@,
        OperationKind::GatherElements { .. } => "gatherElements"@,
        OperationKind::ScatterElements { .. } => "scatterElements"@,
        OperationKind::ScatterND => "scatterND"@,
        OperationKind::ArgMax { .. } => "argMax"@,
        OperationKind::ArgMin { .. } => "argMin"@,
        OperationKind::Clamp { .. } => "clamp"@,
        OperationKind::Where => "where"@,
        OperationKind::Linear { .. } => "linear"@,
        OperationKind::Pad { .. } => "pad"@,
        OperationKind::Softmax { .. } => "softmax"@,
        OperationKind::Concat { .. } => "concat"@,
        OperationKind::IsNaN => "isNaN"@,
        OperationKind::IsInfinite => "isInfinite"@,
        OperationKind::RoundEven => "roundEven"@,
        OperationKind::Reverse { .. } => "reverse"@,
        OperationKind::CumulativeSum { .. } => "cumulativeSum"@,
        OperationKind::Triangular { .. } => "triangular"@,
        OperationKind::Transpose { .. } => "transpose"@,
        OperationKind::Reshape { .. } => "reshape"@,
        OperationKind::Resample2d { .. } => "resample2d"@,
        OperationKind::Other { name } => name@,
    }
}

/// The least number of input operands that an operation takes.
pub open spec fn arity(kind: OperationKind) -> nat {
    match kind {
        OperationKind::Add
        | OperationKind::Sub
        | OperationKind::Mul
        | OperationKind::Div
        | OperationKind::Pow
        | OperationKind::Max
        | OperationKind::Min
        | OperationKind::Prelu
        | OperationKind::QuantizeLinear
        | OperationKind::DequantizeLinear
        | OperationKind::Matmul
        | OperationKind::Gemm { .. }
        | OperationKind::Conv2d { .. }
        | OperationKind::ConvTranspose2d { .. }
        | OperationKind::Equal
        | OperationKind::Greater
        | OperationKind::GreaterOrEqual
        | OperationKind::Lesser
        | OperationKind::LesserOrEqual
        | OperationKind::NotEqual
        | OperationKind::LogicalAnd
        | OperationKind::LogicalOr
        | OperationKind::LogicalXor
        | OperationKind::Gather { .. }
        | OperationKind::GatherND
        | OperationKind::GatherElements { .. } => 2,
        OperationKind::BatchNormalization { .. }
        | OperationKind::ScatterElements { .. }
        | OperationKind::ScatterND
        | OperationKind::Where => 3,
        OperationKind::Other { .. } => 0,
        _ => 1,
    }
}

/// The least number of output operands that an operation has.
pub open spec fn output_arity(kind: OperationKind) -> nat {
    match kind {
        OperationKind::Cast | OperationKind::Concat { .. } | OperationKind::Split { .. } => 0,
        OperationKind::Other { .. } => 0,
        _ => 1,
    }
}

fn arity_of(kind: &OperationKind) -> (n: usize)
    ensures
        n == arity(*kind),
{
    match kind {
        OperationKind::Add
        | OperationKind::Sub
        | OperationKind::Mul
        | OperationKind::Div
        | OperationKind::Pow
        | OperationKind::Max
        | OperationKind::Min
        | OperationKind::Prelu
        | OperationKind::QuantizeLinear
        | OperationKind::DequantizeLinear
        | OperationKind::Matmul
        | OperationKind::Gemm { .. }
        | OperationKind::Conv2d { .. }
        | OperationKind::ConvTranspose2d { .. }
        | OperationKind::Equal
        | OperationKind::Greater
        | OperationKind::GreaterOrEqual
        | OperationKind::Lesser
        | OperationKind::LesserOrEqual
        | OperationKind::NotEqual
        | OperationKind::LogicalAnd
        | OperationKind::LogicalOr
        | OperationKind::LogicalXor
        | OperationKind::Gather { .. }
        | OperationKind::GatherND
        | OperationKind::GatherElements { .. } => 2,
        OperationKind::BatchNormalization { .. }
        | OperationKind::ScatterElements { .. }
        | OperationKind::ScatterND
        | OperationKind::Where => 3,
        OperationKind::Other { .. } => 0,
        _ => 1,
    }
}

fn output_arity_of(kind: &OperationKind) -> (n: usize)
    ensures
        n == output_arity(*kind),
{
    match kind {
        OperationKind::Cast | OperationKind::Concat { .. } | OperationKind::Split { .. } => 0,
        OperationKind::Other { .. } => 0,
        _ => 1,
    }
}

/// An operation of a graph: what it computes, the operands that it reads and those that it writes.
#[derive(Debug, Clone, Hash)]
pub struct Operation {
    pub kind: OperationKind,
    pub inputs: Vec<u32>,
    pub outputs: Vec<u32>,
}

impl Operation {
    /// Whether the operation has the operands that its kind takes.
    pub open spec fn well_formed(self) -> bool {
        &&& arity(self.kind) <= self.inputs@.len()
        &&& output_arity(self.kind) <= self.outputs@.len()
    }

    /// Whether the operation has the operands that its kind takes.
    pub fn is_well_formed(&self) -> (b: bool)
        ensures
            b == self.well_formed(),
    {
        arity_of(&self.kind) <= self.inputs.len() && output_arity_of(&self.kind)
            <= self.outputs.len()
    }

    /// The WebNN name of the operation.
    pub fn op_type(&self) -> (s: &str)
        ensures
            s@ == op_type_name(self.kind),
    {
        match &self.kind {
            OperationKind::Add => "add",
            OperationKind::Sub => "sub",
            OperationKind::Mul => "mul",
            OperationKind::Div => "div",
            OperationKind::Pow => "pow",
            OperationKind::Max => "max",
            OperationKind::Min => "min",
            OperationKind::Relu => "relu",
            OperationKind::Sigmoid => "sigmoid",
            OperationKind::Tanh => "tanh",
            OperationKind::Elu { .. } => "elu",
            OperationKind::Softsign => "softsign",
            OperationKind::Softplus => "softplus",
            OperationKind::Gelu => "gelu",
            OperationKind::LeakyRelu { .. } => "leakyRelu",
            OperationKind::Prelu => "prelu",
            OperationKind::HardSigmoid { .. } => "hardSigmoid",
            OperationKind::HardSwish => "hardSwish",
            OperationKind::Exp => "exp",
            OperationKind::Log => "log",
            OperationKind::Sqrt => "sqrt",
            OperationKind::Reciprocal => "reciprocal",
            OperationKind::Abs => "abs",
            OperationKind::Neg => "neg",
            OperationKind::Sin => "sin",
            OperationKind::Cos => "cos",
            OperationKind::Tan => "tan",
            OperationKind::Ceil => "ceil",
            OperationKind::Floor => "floor",
            OperationKind::Erf => "erf",
            OperationKind::Sign => "sign",
            OperationKind::Identity => "identity",
            OperationKind::Cast => "cast",
            OperationKind::QuantizeLinear => "quantizeLinear",
            OperationKind::DequantizeLinear => "dequantizeLinear",
            OperationKind::Matmul => "matmul",
            OperationKind::Gemm { .. } => "gemm",
            OperationKind::Conv2d { .. } => "conv2d",
            OperationKind::ConvTranspose2d { .. } => "convTranspose2d",
            OperationKind::AveragePool2d { .. } => "averagePool2d",
            OperationKind::MaxPool2d { .. } => "maxPool2d",
            OperationKind::L2Pool2d { .. } => "l2Pool2d",
            OperationKind::GlobalAveragePool { .. } => "globalAveragePool",
            OperationKind::GlobalMaxPool { .. } => "globalMaxPool",
            OperationKind::BatchNormalization { .. } => "batchNormalization",
            OperationKind::InstanceNormalization { .. } => "instanceNormalization",
            OperationKind::LayerNormalization { .. } => "layerNormalization",
            OperationKind::ReduceSum { .. } => "reduceSum",
            OperationKind::ReduceMean { .. } => "reduceMean",
            OperationKind::ReduceMax { .. } => "reduceMax",
            OperationKind::ReduceMin { .. } => "reduceMin",
            OperationKind::ReduceProduct { .. } => "reduceProduct",
            OperationKind::ReduceL1 { .. } => "reduceL1",
            OperationKind::ReduceL2 { .. } => "reduceL2",
            OperationKind::ReduceLogSum { .. } => "reduceLogSum",
            OperationKind::ReduceLogSumExp { .. } => "reduceLogSumExp",
            OperationKind::ReduceSumSquare { .. } => "reduceSumSquare",
            OperationKind::Slice { .. } => "slice",
            OperationKind::Split { .. } => "split",
            OperationKind::Squeeze { .. } => "squeeze",
            OperationKind::Unsqueeze { .. } => "unsqueeze",
            OperationKind::Expand { .. } => "expand",
            OperationKind::Tile { .. } => "tile",
            OperationKind::Equal => "equal",
            OperationKind::Greater => "greater",
            OperationKind::GreaterOrEqual => "greaterOrEqual",
            OperationKind::Lesser => "lesser",
            OperationKind::LesserOrEqual => "lesserOrEqual",
            OperationKind::NotEqual => "notEqual",
            OperationKind::LogicalAnd => "logicalAnd",
            OperationKind::LogicalOr => "logicalOr",
            OperationKind::LogicalXor => "logicalXor",
            OperationKind::LogicalNot => "logicalNot",
            OperationKind::Gather { .. } => "gather",
            OperationKind::GatherND => "gatherND",
            OperationKind::GatherElements { .. } => "gatherElements",
            OperationKind::ScatterElements { .. } => "scatterElements",
            OperationKind::ScatterND => "scatterND",
            OperationKind::ArgMax { .. } => "argMax",
            OperationKind::ArgMin { .. } => "argMin",
            OperationKind::Clamp { .. } => "clamp",
            OperationKind::Where => "where",
            OperationKind::Linear { .. } => "linear",
            OperationKind::Pad { .. } => "pad",
            OperationKind::Softmax { .. } => "softmax",
            OperationKind::Concat { .. } => "concat",
            OperationKind::IsNaN => "isNaN",
            OperationKind::IsInfinite => "isInfinite",
            OperationKind::RoundEven => "roundEven",
            OperationKind::Reverse { .. } => "reverse",
            OperationKind::CumulativeSum { .. } => "cumulativeSum",
            OperationKind::Triangular { .. } => "triangular",
            OperationKind::Transpose { .. } => "transpose",
            OperationKind::Reshape { .. } => "reshape",
            OperationKind::Resample2d { .. } => "resample2d",
            OperationKind::Other { name } => name.as_str(),
        }
    }

    /// The operands that the operation reads.
    pub fn input_operands(&self) -> (ids: &Vec<u32>)
        ensures
            ids == self.inputs,
    {
        &self.inputs
    }

    /// The operands that the operation writes.
    pub fn output_operands_slice(&self) -> (ids: &[u32])
        ensures
            ids@ == self.outputs@,
    {
        self.outputs.as_slice()
    }
}

} // verus!
