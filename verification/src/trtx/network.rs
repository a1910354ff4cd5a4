//! The conversion of a whole graph: its inputs, constants, operations and outputs.

use crate::data_type::DataType;
use crate::error::{Error, GraphError};
use crate::graph::{
    byte_length_of, max_sizes, DefaultWeightsContext, GraphInfo, OperandKind, WeightsContext,
};
use crate::operators::{Operation, OperationKind};
use crate::text::{decimal, say};
use crate::trtx::TrtxConverter;
use crate::trtx::arrange::{
    concat_op, expand_op, narrow_dims, narrow_dims_vec, resample2d_op, reshape_op, reverse_op,
    slice_op, split_op, squeeze_op, tile_op, transpose_op, unsqueeze_op,
};
use crate::trtx::broadcast::{as_dims, as_dims_vec};
use crate::trtx::conv::{conv2d_op, conv_transpose2d_op};
use crate::trtx::elementwise::{
    activation_op, comparison_op, elementwise_op, elu_op, greater_or_equal_op, hard_sigmoid_op,
    hard_swish_op, identity_op, is_infinite_op, is_nan_op, leaky_relu_op, lesser_or_equal_op,
    linear_op, logical_binary_op, not_equal_op, prelu_op, round_even_op, unary_op,
};
use crate::trtx::growth::{conversion_grows, stage_grows};
use crate::trtx::matrix::{gemm_op, matmul_op};
use crate::trtx::names::engine_name;
use crate::trtx::normalization::{
    batch_normalization_op, instance_normalization_op, layer_normalization_op,
};
use crate::trtx::pad::pad_op;
use crate::trtx::pool::{global_pooling_op, l2_pool2d_op, pooling_op};
use crate::trtx::quantize::{cast_op, dequantize_linear_op, logical_not_op, quantize_linear_op};
use crate::trtx::reduce::{
    reduce_l1_op, reduce_l2_op, reduce_log_sum_exp_op, reduce_log_sum_op, reduce_op,
    reduce_sum_square_op,
};
use crate::trtx::replay::conversion_repeats;
use crate::trtx::select::{
    arg_max_op, arg_min_op, clamp_op, cumulative_sum_op, gather_elements_op, gather_nd_op,
    gather_op, scatter_elements_op, scatter_nd_op, softmax_op, triangular_op, where_op,
};
use crate::trtx::session::{
    does, group_stopped, outcome, store, Halt, HaltOf, HaltView, Network, Reply, ReplyOf,
    ReplyView, Request, RequestOf, RequestView, Run, TensorMap, Weights, WeightsOf,
};
use crate::trtx::steps::group_layers_stopped;
use crate::trtx::types::{
    trt_type, trt_type_of, ActivationType, ConstantStorage, ElementWiseOperation, PoolingType,
    ReduceOperation, Tensor, TrtDataType, UnaryOperation,
};
use std::collections::HashSet;
use vstd::prelude::*;

verus! {

broadcast use {group_stopped, group_layers_stopped};

/// One operation added to the network, by its kind. `promoted` holds the constants that were
/// promoted to 32-bit integers.
#[verifier::opaque]
pub open spec fn operation_added(
    n: Run,
    m: Map<u32, Tensor>,
    graph: GraphInfo,
    op: Operation,
    promoted: Set<u32>,
) -> (Run, Map<u32, Tensor>) {
    if n.halt is Some {
        (n, m)
    } else {
        match op.kind {
            OperationKind::Add => elementwise_op(n, m, op, ElementWiseOperation::kSUM),
            OperationKind::Sub => elementwise_op(n, m, op, ElementWiseOperation::kSUB),
            OperationKind::Mul => elementwise_op(n, m, op, ElementWiseOperation::kPROD),
            OperationKind::Div => elementwise_op(n, m, op, ElementWiseOperation::kDIV),
            OperationKind::Pow => elementwise_op(n, m, op, ElementWiseOperation::kPOW),
            OperationKind::Max => elementwise_op(n, m, op, ElementWiseOperation::kMAX),
            OperationKind::Min => elementwise_op(n, m, op, ElementWiseOperation::kMIN),
            OperationKind::Relu => activation_op(n, m, op, ActivationType::kRELU),
            OperationKind::Sigmoid => activation_op(n, m, op, ActivationType::kSIGMOID),
            OperationKind::Tanh => activation_op(n, m, op, ActivationType::kTANH),
            OperationKind::Elu { .. } => elu_op(n, m, graph, op),
            OperationKind::Softsign => activation_op(n, m, op, ActivationType::kSOFTSIGN),
            OperationKind::Softplus => activation_op(n, m, op, ActivationType::kSOFTPLUS),
            OperationKind::Gelu => activation_op(n, m, op, ActivationType::kGELU_ERF),
            OperationKind::LeakyRelu { .. } => leaky_relu_op(n, m, graph, op),
            OperationKind::Prelu => prelu_op(n, m, op),
            OperationKind::HardSigmoid { .. } => hard_sigmoid_op(n, m, graph, op),
            OperationKind::HardSwish => hard_swish_op(n, m, graph, op),
            OperationKind::Exp => unary_op(n, m, op, UnaryOperation::kEXP),
            OperationKind::Log => unary_op(n, m, op, UnaryOperation::kLOG),
            OperationKind::Sqrt => unary_op(n, m, op, UnaryOperation::kSQRT),
            OperationKind::Reciprocal => unary_op(n, m, op, UnaryOperation::kRECIP),
            OperationKind::Abs => unary_op(n, m, op, UnaryOperation::kABS),
            OperationKind::Neg => unary_op(n, m, op, UnaryOperation::kNEG),
            OperationKind::Sin => unary_op(n, m, op, UnaryOperation::kSIN),
            OperationKind::Cos => unary_op(n, m, op, UnaryOperation::kCOS),
            OperationKind::Tan => unary_op(n, m, op, UnaryOperation::kTAN),
            OperationKind::Ceil => unary_op(n, m, op, UnaryOperation::kCEIL),
            OperationKind::Floor => unary_op(n, m, op, UnaryOperation::kFLOOR),
            OperationKind::Erf => unary_op(n, m, op, UnaryOperation::kERF),
            OperationKind::Sign => unary_op(n, m, op, UnaryOperation::kSIGN),
            OperationKind::Identity => identity_op(n, m, op),
            OperationKind::Cast => cast_op(n, m, graph, op, promoted),
            OperationKind::QuantizeLinear => quantize_linear_op(n, m, graph, op),
            OperationKind::DequantizeLinear => dequantize_linear_op(n, m, graph, op),
            OperationKind::Matmul => matmul_op(n, m, op),
            OperationKind::Gemm { .. } => gemm_op(n, m, graph, op),
            OperationKind::Conv2d { .. } => conv2d_op(n, m, graph, op),
            OperationKind::ConvTranspose2d { .. } => conv_transpose2d_op(n, m, graph, op),
            OperationKind::AveragePool2d { .. } => pooling_op(
                n,
                m,
                graph,
                op,
                PoolingType::kAVERAGE,
            ),
            OperationKind::MaxPool2d { .. } => pooling_op(n, m, graph, op, PoolingType::kMAX),
            OperationKind::GlobalAveragePool { .. } => global_pooling_op(
                n,
                m,
                op,
                PoolingType::kAVERAGE,
            ),
            OperationKind::GlobalMaxPool { .. } => global_pooling_op(n, m, op, PoolingType::kMAX),
            OperationKind::BatchNormalization { .. } => batch_normalization_op(n, m, graph, op),
            OperationKind::InstanceNormalization { .. } => instance_normalization_op(
                n,
                m,
                graph,
                op,
            ),
            OperationKind::LayerNormalization { .. } => layer_normalization_op(n, m, graph, op),
            OperationKind::ReduceSum { .. } => reduce_op(n, m, op, ReduceOperation::kSUM),
            OperationKind::ReduceMean { .. } => reduce_op(n, m, op, ReduceOperation::kAVG),
            OperationKind::ReduceMax { .. } => reduce_op(n, m, op, ReduceOperation::kMAX),
            OperationKind::ReduceMin { .. } => reduce_op(n, m, op, ReduceOperation::kMIN),
            OperationKind::ReduceProduct { .. } => reduce_op(n, m, op, ReduceOperation::kPROD),
            OperationKind::ReduceL1 { .. } => reduce_l1_op(n, m, op),
            OperationKind::ReduceL2 { .. } => reduce_l2_op(n, m, graph, op),
            OperationKind::ReduceLogSum { .. } => reduce_log_sum_op(n, m, op),
            OperationKind::ReduceLogSumExp { .. } => reduce_log_sum_exp_op(n, m, op),
            OperationKind::ReduceSumSquare { .. } => reduce_sum_square_op(n, m, op),
            OperationKind::Slice { .. } => slice_op(n, m, op),
            OperationKind::Split { .. } => split_op(n, m, op),
            OperationKind::Squeeze { .. } => squeeze_op(n, m, op),
            OperationKind::Unsqueeze { .. } => unsqueeze_op(n, m, op),
            OperationKind::Expand { .. } => expand_op(n, m, graph, op),
            OperationKind::Tile { .. } => tile_op(n, m, op),
            OperationKind::Equal => comparison_op(n, m, op, ElementWiseOperation::kEQUAL),
            OperationKind::Greater => comparison_op(n, m, op, ElementWiseOperation::kGREATER),
            OperationKind::GreaterOrEqual => greater_or_equal_op(n, m, op),
            OperationKind::Lesser => comparison_op(n, m, op, ElementWiseOperation::kLESS),
            OperationKind::LesserOrEqual => lesser_or_equal_op(n, m, op),
            OperationKind::NotEqual => not_equal_op(n, m, op),
            OperationKind::LogicalAnd => logical_binary_op(
                n,
                m,
                graph,
                op,
                ElementWiseOperation::kAND,
            ),
            OperationKind::LogicalOr => logical_binary_op(
                n,
                m,
                graph,
                op,
                ElementWiseOperation::kOR,
            ),
            OperationKind::LogicalXor => logical_binary_op(
                n,
                m,
                graph,
                op,
                ElementWiseOperation::kXOR,
            ),
            OperationKind::LogicalNot => logical_not_op(n, m, graph, op),
            OperationKind::Gather { .. } => gather_op(n, m, graph, op),
            OperationKind::GatherND => gather_nd_op(n, m, graph, op),
            OperationKind::ScatterElements { .. } => scatter_elements_op(n, m, op),
            OperationKind::ScatterND => scatter_nd_op(n, m, op),
            OperationKind::ArgMax { .. } => arg_max_op(n, m, graph, op),
            OperationKind::ArgMin { .. } => arg_min_op(n, m, graph, op),
            OperationKind::Clamp { .. } => clamp_op(n, m, graph, op),
            OperationKind::Where => where_op(n, m, graph, op),
            OperationKind::Linear { .. } => linear_op(n, m, graph, op),
            OperationKind::Pad { .. } => pad_op(n, m, op),
            OperationKind::Softmax { .. } => softmax_op(n, m, op),
            OperationKind::Concat { .. } => concat_op(n, m, op),
            OperationKind::IsNaN => is_nan_op(n, m, op),
            OperationKind::IsInfinite => is_infinite_op(n, m, op),
            OperationKind::RoundEven => round_even_op(n, m, op),
            OperationKind::GatherElements { .. } => gather_elements_op(n, m, graph, op),
            OperationKind::L2Pool2d { .. } => l2_pool2d_op(n, m, graph, op),
            OperationKind::Reverse { .. } => reverse_op(n, m, graph, op),
            OperationKind::CumulativeSum { .. } => cumulative_sum_op(n, m, graph, op),
            OperationKind::Triangular { .. } => triangular_op(n, m, graph, op),
            OperationKind::Transpose { .. } => transpose_op(n, m, op),
            OperationKind::Reshape { .. } => reshape_op(n, m, op),
            OperationKind::Resample2d { .. } => resample2d_op(n, m, graph, op),
            OperationKind::Other { name } => (n.fail("Unsupported operation: "@ + name@), m),
        }
    }
}

/// The operand `k` added as an input of the network, where it is one.
pub open spec fn input_added(n: Run, m: Map<u32, Tensor>, graph: GraphInfo, k: nat) -> (
    Run,
    Map<u32, Tensor>,
) {
    let o = graph.operands@[k as int];
    let id = k as u32;
    if o.kind != OperandKind::Input {
        (n, m)
    } else {
        let name = engine_name(graph.operands@, id);
        let (n, t) = n.ask(
            RequestOf::AddInput { name, dtype: trt_type(o.descriptor.data_type), dims: as_dims(max_sizes(o.descriptor.shape@)) },
            "Failed to add input "@ + name + ": "@,
        );
        let (n, _) = n.ask(
            RequestOf::SetTensorName { tensor: Tensor { id: t }, name },
            "Failed to set input name: "@,
        );
        store(n, m, id, Tensor { id: t })
    }
}

/// The low half of each 64-bit integer of a list of bytes, least significant byte first.
pub open spec fn low_halves(data: Seq<u8>) -> Seq<u8> {
    Seq::new(data.len() / 8 * 4, |i: int| data[i / 4 * 8 + i % 4])
}

/// The low half of a 64-bit integer is the 32-bit integer that it is truncated to.
pub proof fn low_half_truncates(x: u64)
    ensures
        low_halves(crate::scalar::le8(x)) =~= crate::scalar::le4(x as u32),
{
    assert(x as u32 == x % 0x1_0000_0000) by (bit_vector);
    let bytes = crate::scalar::le8(x);
    let low = crate::scalar::le4(x as u32);
    assert(bytes.len() == 8);
    assert(low.len() == 4);
    assert forall|i: int| 0 <= i < 4 implies low_halves(bytes)[i] == low[i] by {
        assert(i / 4 * 8 + i % 4 == i);
    }
}

fn low_halves_of(data: &Vec<u8>) -> (v: Vec<u8>)
    ensures
        v@ == low_halves(data@),
{
    let count: usize = data.len() / 8;
    let mut v: Vec<u8> = Vec::with_capacity(count * 4);
    let mut c: usize = 0;
    while c < count
        invariant
            c <= count,
            count == data.len() / 8,
            v@.len() == c * 4,
            forall|i: int| 0 <= i < c * 4 ==> #[trigger] v@[i] == data@[i / 4 * 8 + i % 4],
        decreases count - c,
    {
        v.push(data[c * 8]);
        v.push(data[c * 8 + 1]);
        v.push(data[c * 8 + 2]);
        v.push(data[c * 8 + 3]);
        c = c + 1;
    }
    assert(v@ =~= low_halves(data@));
    v
}

/// Whether the constants of a type are held by TensorRT as signed bytes.
pub open spec fn held_as_bytes(t: DataType) -> bool {
    t == DataType::Int8 || t == DataType::Uint8 || t == DataType::Int4 || t == DataType::Uint4
}

/// How TensorRT is handed the constant `k`, whose bytes answered the request at `at`: bytes and
/// 4-bit integers as signed bytes, 64-bit signed integers as 32-bit ones, anything else as it is.
pub open spec fn constant_request(
    t: DataType,
    dims: Seq<i64>,
    data: Seq<u8>,
    at: usize,
    k: u32,
) -> RequestView {
    let name = Some(decimal(k as nat));
    if held_as_bytes(t) {
        RequestOf::AddConstant {
            dims,
            weights: WeightsOf::Reply(at),
            dtype: TrtDataType::kINT8,
            name,
            storage: ConstantStorage::Copied,
        }
    } else if t == DataType::Int64 {
        RequestOf::AddConstant {
            dims,
            weights: WeightsOf::Bytes(low_halves(data)),
            dtype: TrtDataType::kINT32,
            name,
            storage: ConstantStorage::Copied,
        }
    } else {
        RequestOf::AddConstant {
            dims,
            weights: WeightsOf::Reply(at),
            dtype: trt_type(t),
            name,
            storage: ConstantStorage::Borrowed,
        }
    }
}

/// The operand `k` added as a constant of the network, where it is one. Its bytes must be as many
/// as its shape and type take, and at least one.
pub open spec fn constant_added(n: Run, m: Map<u32, Tensor>, graph: GraphInfo, k: nat) -> (
    Run,
    Map<u32, Tensor>,
) {
    let o = graph.operands@[k as int];
    let id = k as u32;
    if o.kind != OperandKind::Constant {
        (n, m)
    } else {
        let (n, at) = n.ask(
            RequestOf::ConstantData { operand: id },
            "Operand "@ + decimal(id as nat) + " is not a constant: "@,
        );
        let data = n.bytes(at);
        let expected = byte_length_of(o.descriptor);
        let n = n.reject_if(
            expected is None,
            "Constant operand "@ + decimal(k) + " has invalid shape for byte length"@,
        );
        let n = n.reject_if(
            data.len() != expected->0,
            "Constant data size mismatch: expected "@ + decimal(expected->0) + " bytes, got "@
                + decimal(data.len()) + " bytes for operand "@ + decimal(k),
        );
        let n = n.reject_if(
            data.len() == 0,
            "Constant operand "@ + decimal(k) + " has empty data"@,
        );
        let (n, l) = n.ask(
            constant_request(
                o.descriptor.data_type,
                narrow_dims(max_sizes(o.descriptor.shape@)),
                data,
                at,
                id,
            ),
            "Failed to add constant (operand "@ + decimal(k) + "): "@,
        );
        let (n, t) = n.output(l, "Failed to get constant layer output: "@);
        store(n, m, id, t)
    }
}

/// The operand `k` named and marked as an output of the network, where it is one.
pub open spec fn output_marked(n: Run, m: Map<u32, Tensor>, graph: GraphInfo, k: nat) -> (
    Run,
    Map<u32, Tensor>,
) {
    let id = k as u32;
    if graph.operands@[k as int].kind != OperandKind::Output {
        (n, m)
    } else {
        let (n, t) = n.find(m, id, "Output operand "@, " not found in tensor map"@);
        let n = n.tell(
            RequestOf::SetTensorName { tensor: t, name: engine_name(graph.operands@, id) },
        );
        let n = n.tell(RequestOf::MarkOutput { tensor: t });
        (n, m)
    }
}

/// What a conversion does next.
#[derive(Clone, Copy, PartialEq, Eq, Structural, Debug)]
pub enum Stage {
    /// The operand at this position is added, if it is an input.
    Input(usize),
    /// The operand at this position is added, if it is a constant.
    Constant(usize),
    /// The operation at this position is added.
    Operation(usize),
    /// The operand at this position is marked, if it is an output.
    Output(usize),
    /// Nothing is left to do.
    Complete,
}

/// What a conversion does at a stage. Where nothing stands at the position, it does nothing.
pub open spec fn stage_done(n: Run, m: Map<u32, Tensor>, graph: GraphInfo, stage: Stage) -> (
    Run,
    Map<u32, Tensor>,
) {
    if n.halt is Some {
        (n, m)
    } else {
        match stage {
            Stage::Input(k) => if k < graph.operands.len() {
                input_added(n, m, graph, k as nat)
            } else {
                (n, m)
            },
            Stage::Constant(k) => if k < graph.operands.len() {
                constant_added(n, m, graph, k as nat)
            } else {
                (n, m)
            },
            Stage::Operation(k) => if k < graph.operations.len() {
                operation_added(n, m, graph, graph.operations@[k as int], Set::empty())
            } else {
                (n, m)
            },
            Stage::Output(k) => if k < graph.operands.len() {
                output_marked(n, m, graph, k as nat)
            } else {
                (n, m)
            },
            Stage::Complete => (n, m),
        }
    }
}

/// The stage that follows: first all inputs, then all constants, then all operations, then all
/// outputs.
pub open spec fn next_stage(graph: GraphInfo, stage: Stage) -> Stage {
    match stage {
        Stage::Input(k) => if k < graph.operands.len() {
            Stage::Input((k + 1) as usize)
        } else {
            Stage::Constant(0)
        },
        Stage::Constant(k) => if k < graph.operands.len() {
            Stage::Constant((k + 1) as usize)
        } else {
            Stage::Operation(0)
        },
        Stage::Operation(k) => if k < graph.operations.len() {
            Stage::Operation((k + 1) as usize)
        } else {
            Stage::Output(0)
        },
        Stage::Output(k) => if k < graph.operands.len() {
            Stage::Output((k + 1) as usize)
        } else {
            Stage::Complete
        },
        Stage::Complete => Stage::Complete,
    }
}

/// How many steps a conversion takes from a stage on.
pub open spec fn steps_left(graph: GraphInfo, stage: Stage) -> nat {
    let p = graph.operands.len() as nat;
    let q = graph.operations.len() as nat;
    match stage {
        Stage::Input(k) => left_of(p, k) + (p + 1) + (q + 1) + (p + 1),
        Stage::Constant(k) => left_of(p, k) + (q + 1) + (p + 1),
        Stage::Operation(k) => left_of(q, k) + (p + 1),
        Stage::Output(k) => left_of(p, k),
        Stage::Complete => 0,
    }
}

/// How many positions are left from `k` on, and the one past the end.
pub open spec fn left_of(count: nat, k: usize) -> nat {
    if k < count {
        (count - k + 1) as nat
    } else {
        1
    }
}

/// What a conversion does from a stage on.
pub open spec fn built_from(n: Run, m: Map<u32, Tensor>, graph: GraphInfo, stage: Stage) -> (
    Run,
    Map<u32, Tensor>,
)
    decreases steps_left(graph, stage),
{
    if stage == Stage::Complete {
        (n, m)
    } else {
        let (n, m) = stage_done(n, m, graph, stage);
        built_from(n, m, graph, next_stage(graph, stage))
    }
}

/// The conversion of a whole graph.
pub open spec fn network_built(n: Run, graph: GraphInfo) -> (Run, Map<u32, Tensor>) {
    built_from(n, Map::empty(), graph, Stage::Input(0))
}

/// Once a conversion has stopped, it stays so.
pub(crate) proof fn built_stays(n: Run, m: Map<u32, Tensor>, graph: GraphInfo, stage: Stage)
    requires
        n.halt is Some,
    ensures
        built_from(n, m, graph, stage) == (n, m),
    decreases steps_left(graph, stage),
{
    if stage != Stage::Complete {
        built_stays(n, m, graph, next_stage(graph, stage));
    }
}

impl GraphInfo {
    /// Whether every operation has the operands that its kind takes.
    pub open spec fn well_formed(self) -> bool {
        forall|i: int| 0 <= i < self.operations@.len() ==> #[trigger] self.operations@[i].well_formed()
    }

    /// Whether every operation has the operands that its kind takes.
    pub fn is_well_formed(&self) -> (b: bool)
        ensures
            b == self.well_formed(),
    {
        let mut i: usize = 0;
        while i < self.operations.len()
            invariant
                i <= self.operations.len(),
                forall|k: int| 0 <= k < i ==> #[trigger] self.operations@[k].well_formed(),
            decreases self.operations.len() - i,
        {
            if !self.operations[i].is_well_formed() {
                assert(!self.operations@[i as int].well_formed());
                return false;
            }
            i = i + 1;
        }
        true
    }
}

/// Whether the operation at a stage, where there is one, has the operands that its kind takes.
pub open spec fn stage_ready(graph: GraphInfo, stage: Stage) -> bool {
    match stage {
        Stage::Operation(k) => k < graph.operations@.len()
            ==> graph.operations@[k as int].well_formed(),
        _ => true,
    }
}

/// Whether every operation that a conversion reaches from a stage on has the operands that its kind
/// takes.
pub open spec fn ready_from(n: Run, m: Map<u32, Tensor>, graph: GraphInfo, stage: Stage) -> bool
    decreases steps_left(graph, stage),
{
    stage == Stage::Complete || n.halt is Some || {
        let (after, tensors) = stage_done(n, m, graph, stage);
        stage_ready(graph, stage) && ready_from(after, tensors, graph, next_stage(graph, stage))
    }
}

/// Whether every operation that a conversion with these replies reaches has the operands that its
/// kind takes.
pub open spec fn ready(graph: GraphInfo, replies: Seq<ReplyView>) -> bool {
    ready_from(begun(replies), Map::empty(), graph, Stage::Input(0))
}

/// Where every operation of a graph has the operands that its kind takes, so has every one that a
/// conversion reaches.
pub proof fn well_formed_is_ready(n: Run, m: Map<u32, Tensor>, graph: GraphInfo, stage: Stage)
    requires
        graph.well_formed(),
    ensures
        ready_from(n, m, graph, stage),
    decreases steps_left(graph, stage),
{
    if stage != Stage::Complete && n.halt is None {
        let (after, tensors) = stage_done(n, m, graph, stage);
        well_formed_is_ready(after, tensors, graph, next_stage(graph, stage));
    }
}

/// A conversion under way: what is done next, and the tensors of the operands so far.
pub struct Build {
    pub stage: Stage,
    pub tensors: TensorMap,
}

impl Build {
    /// A conversion that has not begun.
    pub fn new() -> (b: Build)
        ensures
            b.stage == Stage::Input(0),
            b.tensors@ == Map::<u32, Tensor>::empty(),
    {
        Build { stage: Stage::Input(0), tensors: TensorMap::new() }
    }

    /// Whether the operation that is added next, where it is one, has the operands that its kind
    /// takes.
    pub fn is_ready(&self, graph: &GraphInfo) -> (b: bool)
        ensures
            b == stage_ready(*graph, self.stage),
    {
        match self.stage {
            Stage::Operation(k) => k >= graph.operations.len()
                || graph.operations[k].is_well_formed(),
            _ => true,
        }
    }

    /// Takes one step. Where it stops short, the conversion stays at the step, with the tensors
    /// from before it, so that the step can be taken again once the missing reply is there.
    pub fn step(&mut self, graph: &GraphInfo, net: &mut Network) -> (r: Result<(), Halt>)
        requires
            stage_ready(*graph, old(self).stage),
        ensures
            outcome(final(net)@, r) == stage_done(
                old(net)@,
                old(self).tensors@,
                *graph,
                old(self).stage,
            ).0,
            r is Ok ==> {
                &&& final(self).stage == next_stage(*graph, old(self).stage)
                &&& final(self).tensors@ == stage_done(
                    old(net)@,
                    old(self).tensors@,
                    *graph,
                    old(self).stage,
                ).1
            },
            r is Err ==> {
                &&& final(self).stage == old(self).stage
                &&& final(self).tensors@ == old(self).tensors@
            },
    {
        broadcast use vstd::std_specs::hash::group_hash_axioms;

        let mut tensors = TensorMap { map: self.tensors.map.clone() };
        let operands: usize = graph.operands.len();
        let operations: usize = graph.operations.len();
        let next = match self.stage {
            Stage::Input(k) => if k < operands {
                TrtxConverter::add_input(graph, net, &mut tensors, k)?;
                Stage::Input(k + 1)
            } else {
                Stage::Constant(0)
            },
            Stage::Constant(k) => if k < operands {
                TrtxConverter::add_constant(graph, net, &mut tensors, k)?;
                Stage::Constant(k + 1)
            } else {
                Stage::Operation(0)
            },
            Stage::Operation(k) => if k < operations {
                let promoted: HashSet<u32> = HashSet::new();
                TrtxConverter::add_operation(
                    graph,
                    net,
                    &mut tensors,
                    &promoted,
                    &graph.operations[k],
                )?;
                Stage::Operation(k + 1)
            } else {
                Stage::Output(0)
            },
            Stage::Output(k) => if k < operands {
                TrtxConverter::mark_output(graph, net, &mut tensors, k)?;
                Stage::Output(k + 1)
            } else {
                Stage::Complete
            },
            Stage::Complete => Stage::Complete,
        };
        self.stage = next;
        self.tensors = tensors;
        Ok(())
    }
}

/// What answers the request for a constant that `r` came of.
pub open spec fn reply_of(r: Result<&[u8], Error>) -> ReplyView {
    match r {
        Ok(bytes) => ReplyOf::Bytes(bytes@),
        Err(e) => ReplyOf::Failed(crate::error::error_text(e)),
    }
}

/// A conversation with these replies that has not begun.
pub open spec fn begun(replies: Seq<ReplyView>) -> Run {
    Run { requests: Seq::empty(), replies, halt: None }
}

/// Whether the request is for the bytes of a constant, and the context gave the reply for it on its
/// way from one state to the next.
pub open spec fn resolved<'w, C: WeightsContext<'w>>(
    graph: GraphInfo,
    request: RequestView,
    reply: ReplyView,
    before: C,
    after: C,
) -> bool {
    request matches RequestOf::ConstantData { operand } && resolves(
        graph,
        operand,
        reply,
        before,
        after,
    )
}

/// Whether the context went from its state at `k` to the next with the reply that stands `k` places
/// behind the first `given` ones.
pub open spec fn resolved_at<'w, C: WeightsContext<'w>>(
    graph: GraphInfo,
    n: Run,
    given: nat,
    states: Seq<C>,
    k: int,
) -> bool {
    resolved(graph, n.requests[given + k], n.replies[given + k], states[k], states[k + 1])
}

/// Whether the context went through these states, one after the other, with one reply behind the
/// first `given` ones for each step.
pub open spec fn resolved_in_turn<'w, C: WeightsContext<'w>>(
    graph: GraphInfo,
    n: Run,
    given: nat,
    states: Seq<C>,
) -> bool {
    &&& states.len() == n.replies.len() - given + 1
    &&& forall|k: int|
        0 <= k < n.replies.len() - given ==> #[trigger] resolved_at(graph, n, given, states, k)
}

/// Whether the replies of a conversation begin with those given, and any others answer requests that
/// were made.
pub open spec fn begins_with(given: Seq<ReplyView>, n: Run) -> bool {
    &&& given.len() <= n.replies.len()
    &&& n.replies.take(given.len() as int) == given
    &&& given.len() < n.replies.len() ==> n.replies.len() <= n.requests.len()
}

/// Whether the replies of a conversation are those given, followed by those of a context to the
/// requests that were still open, which took it from the state `before` to the state `after`.
pub open spec fn continues<'w, C: WeightsContext<'w>>(
    graph: GraphInfo,
    given: Seq<ReplyView>,
    n: Run,
    before: C,
    after: C,
) -> bool {
    &&& begins_with(given, n)
    &&& exists|states: Seq<C>|
        #[trigger] resolved_in_turn(graph, n, given.len(), states) && states.first() == before
            && states.last() == after
}

/// Whether a conversion may come to have these replies: those given, and behind them those of a
/// context that starts at the state `before` and goes through these states.
pub open spec fn came_about<'w, C: WeightsContext<'w>>(
    graph: GraphInfo,
    given: Seq<ReplyView>,
    replies: Seq<ReplyView>,
    states: Seq<C>,
    before: C,
) -> bool {
    let n = network_built(begun(replies), graph).0;
    begins_with(given, n) && resolved_in_turn(graph, n, given.len(), states) && states.first()
        == before
}

/// Whether every operation that a conversion reaches has the operands that its kind takes, whatever
/// the context resolves the constants to.
pub open spec fn stays_ready<'w, C: WeightsContext<'w>>(
    graph: GraphInfo,
    given: Seq<ReplyView>,
    before: C,
) -> bool {
    forall|replies: Seq<ReplyView>, states: Seq<C>|
        #[trigger] came_about(graph, given, replies, states, before) ==> ready(graph, replies)
}

/// Where every operation of a graph has the operands that its kind takes, a conversion may take any
/// replies and any context.
pub proof fn well_formed_stays_ready<'w, C: WeightsContext<'w>>(
    graph: GraphInfo,
    given: Seq<ReplyView>,
    before: C,
)
    requires
        graph.well_formed(),
    ensures
        stays_ready(graph, given, before),
{
    assert forall|replies: Seq<ReplyView>, states: Seq<C>|
        #[trigger] came_about(graph, given, replies, states, before) implies ready(
        graph,
        replies,
    ) by {
        well_formed_is_ready(begun(replies), Map::empty(), graph, Stage::Input(0));
    }
}

proof fn resolved_alike<'w, C: WeightsContext<'w>>(
    graph: GraphInfo,
    n: Run,
    other: Run,
    given: nat,
    states: Seq<C>,
)
    requires
        resolved_in_turn(graph, n, given, states),
        other.requests == n.requests,
        other.replies == n.replies,
    ensures
        resolved_in_turn(graph, other, given, states),
{
    assert forall|k: int| 0 <= k < other.replies.len() - given implies #[trigger] resolved_at(
        graph,
        other,
        given,
        states,
        k,
    ) by {
        assert(resolved_at(graph, n, given, states, k));
    }
}

/// The default context stays as it is, and gives each reply from that state.
pub proof fn default_context_stays<'w>(
    graph: GraphInfo,
    given: Seq<ReplyView>,
    n: Run,
    before: DefaultWeightsContext<'w>,
    after: DefaultWeightsContext<'w>,
)
    requires
        continues(graph, given, n, before, after),
    ensures
        after == before,
        forall|i: int|
            given.len() <= i < n.replies.len() ==> resolved(
                graph,
                #[trigger] n.requests[i],
                n.replies[i],
                before,
                before,
            ),
{
    let states = choose|states: Seq<DefaultWeightsContext<'w>>|
        #[trigger] resolved_in_turn(graph, n, given.len(), states) && states.first() == before
            && states.last() == after;
    assert forall|k: int| 0 <= k < states.len() implies states[k] == before by {
        default_states_stay(graph, n, given.len(), states, k);
    }
    assert forall|i: int| given.len() <= i < n.replies.len() implies resolved(
        graph,
        #[trigger] n.requests[i],
        n.replies[i],
        before,
        before,
    ) by {
        assert(resolved_at(graph, n, given.len(), states, i - given.len()));
    }
}

proof fn default_states_stay<'w>(
    graph: GraphInfo,
    n: Run,
    given: nat,
    states: Seq<DefaultWeightsContext<'w>>,
    k: int,
)
    requires
        resolved_in_turn(graph, n, given, states),
        0 <= k < states.len(),
    ensures
        states[k] == states.first(),
    decreases k,
{
    if k > 0 {
        default_states_stay(graph, n, given, states, k - 1);
        assert(resolved_at(graph, n, given, states, k - 1));
    }
}

/// A conversation that has not begun repeats one with fewer replies.
proof fn extends_replies(replies: Seq<ReplyView>, reply: ReplyView)
    ensures
        begun(replies.push(reply)).repeats(begun(replies)),
{
    reveal(Run::repeats);
    assert(replies.push(reply).take(replies.len() as int) =~= replies);
}

/// Whether the context may give the reply for the operand `id` on its way from one state to the next.
pub open spec fn resolves<'w, C: WeightsContext<'w>>(
    graph: GraphInfo,
    id: u32,
    reply: ReplyView,
    before: C,
    after: C,
) -> bool {
    exists|r: Result<&'w [u8], Error>|
        reply == #[trigger] reply_of(r) && #[trigger] resolution_allowed(
            graph,
            id,
            before,
            after,
            r,
        )
}

/// Whether resolving the operand `id` may end in `r`.
pub open spec fn resolution_allowed<'w, C: WeightsContext<'w>>(
    graph: GraphInfo,
    id: u32,
    before: C,
    after: C,
    r: Result<&'w [u8], Error>,
) -> bool {
    if graph.has_constant(id) {
        C::allows(
            before,
            &graph.constant_operand_ids_to_handles@[id],
            &graph.operands@[id as int].descriptor,
            id,
            after,
            r,
        )
    } else {
        r == Err::<&[u8], Error>(
            Error::GraphBuilderError {
                source: crate::error::GraphBuilderError::MissingConstantId { id },
            },
        ) && after == before
    }
}

fn bytes_of(s: &[u8]) -> (v: Vec<u8>)
    ensures
        v@ == s@,
{
    let mut v: Vec<u8> = Vec::with_capacity(s.len());
    let mut i: usize = 0;
    while i < s.len()
        invariant
            i <= s.len(),
            v@ == s@.take(i as int),
        decreases s.len() - i,
    {
        v.push(s[i]);
        proof {
            assert(s@.take(i + 1) =~= s@.take(i as int).push(s@[i as int]));
        }
        i = i + 1;
    }
    proof {
        assert(s@.take(s@.len() as int) =~= s@);
    }
    v
}

impl TrtxConverter {
    /// Adds the operand `k` as an input of the network, where it is one.
    pub fn add_input(
        graph: &GraphInfo,
        net: &mut Network,
        tensors: &mut TensorMap,
        k: usize,
    ) -> (r: Result<(), Halt>)
        requires
            k < graph.operands@.len(),
        ensures
            does(
                final(net)@,
                r,
                final(tensors)@,
                input_added(old(net)@, old(tensors)@, *graph, k as nat),
            ),
    {
        let o = &graph.operands[k];
        if o.kind != OperandKind::Input {
            return Ok(());
        }
        let id: u32 = k as u32;
        let name = Self::engine_io_tensor_name(graph, id);
        let t: usize = net.ask(
            Request::AddInput { name: name.clone(), dtype: trt_type_of(o.descriptor.data_type), dims: as_dims_vec(&o.descriptor.static_or_max_shape()) },
            say("Failed to add input ").str(name.as_str()).str(": ").text.as_str(),
        )?;
        net.ask(
            Request::SetTensorName { tensor: Tensor { id: t }, name },
            "Failed to set input name: ",
        )?;
        tensors.insert(id, Tensor { id: t });
        Ok(())
    }

    /// Adds the operand `k` as a constant of the network, where it is one.
    pub fn add_constant(
        graph: &GraphInfo,
        net: &mut Network,
        tensors: &mut TensorMap,
        k: usize,
    ) -> (r: Result<(), Halt>)
        requires
            k < graph.operands@.len(),
        ensures
            does(
                final(net)@,
                r,
                final(tensors)@,
                constant_added(old(net)@, old(tensors)@, *graph, k as nat),
            ),
    {
        let o = &graph.operands[k];
        if o.kind != OperandKind::Constant {
            return Ok(());
        }
        let id: u32 = k as u32;
        let at: usize = net.ask(
            Request::ConstantData { operand: id },
            say("Operand ").num32(id).str(" is not a constant: ").text.as_str(),
        )?;
        let length: usize = net.bytes_len(at);
        let expected: usize = match o.descriptor.byte_length() {
            Some(expected) => expected, None => {
                return Err(
                    say("Constant operand ").num(k).str(" has invalid shape for byte length")
                        .halt(),
                );
            },
        };
        if length != expected {
            return Err(
                say(
                    "Constant data size mismatch: expected ",
                ).num(expected).str(" bytes, got ").num(length).str(" bytes for operand ").num(k).halt(),
            );
        }
        if length == 0 {
            return Err(say("Constant operand ").num(k).str(" has empty data").halt());
        }
        let t = o.descriptor.data_type;
        let dims = narrow_dims_vec(&o.descriptor.static_or_max_shape());
        let name = Some(Self::constant_weight_name(id));
        let request = if matches!(
            t,
            DataType::Int8 | DataType::Uint8 | DataType::Int4 | DataType::Uint4,
        ) {
            Request::AddConstant {
                dims, weights: Weights::Reply(
                    at,
                ), dtype: TrtDataType::kINT8, name, storage: ConstantStorage::Copied
            }
        } else if t == DataType::Int64 {
            Request::AddConstant {
                dims, weights: Weights::Bytes(
                    low_halves_of(&net.bytes(at)),
                ), dtype: TrtDataType::kINT32, name, storage: ConstantStorage::Copied
            }
        } else {
            Request::AddConstant {
                dims, weights: Weights::Reply(at), dtype: trt_type_of(t), name, storage: ConstantStorage::Borrowed
            }
        };
        let l: usize = net.ask(
            request,
            say("Failed to add constant (operand ").num(k).str("): ").text.as_str(),
        )?;
        let t = net.output(l, "Failed to get constant layer output: ")?;
        tensors.insert(id, t);
        Ok(())
    }

    /// Names and marks the operand `k` as an output of the network, where it is one.
    pub fn mark_output(
        graph: &GraphInfo,
        net: &mut Network,
        tensors: &mut TensorMap,
        k: usize,
    ) -> (r: Result<(), Halt>)
        requires
            k < graph.operands@.len(),
        ensures
            does(
                final(net)@,
                r,
                final(tensors)@,
                output_marked(old(net)@, old(tensors)@, *graph, k as nat),
            ),
    {
        let id: u32 = k as u32;
        if graph.operands[k].kind != OperandKind::Output {
            return Ok(());
        }
        let t = tensors.find(id, "Output operand ", " not found in tensor map")?;
        net.tell(
            Request::SetTensorName { tensor: t, name: Self::engine_io_tensor_name(graph, id) },
        )?;
        net.tell(Request::MarkOutput { tensor: t })?;
        Ok(())
    }

    /// Adds one operation to the network. `promoted` holds the constants that were promoted to
    /// 32-bit integers.
    pub fn add_operation(
        graph: &GraphInfo,
        net: &mut Network,
        tensors: &mut TensorMap,
        promoted: &HashSet<u32>,
        operation: &Operation,
    ) -> (r: Result<(), Halt>)
        requires
            operation.well_formed(),
        ensures
            does(
                final(net)@,
                r,
                final(tensors)@,
                operation_added(old(net)@, old(tensors)@, *graph, *operation, promoted@),
            ),
    {
        proof {
            reveal(operation_added);
        }
        match &operation.kind {
            OperationKind::Add => Self::add_elementwise_op(
                net,
                tensors,
                operation,
                ElementWiseOperation::kSUM,
            ),
            OperationKind::Sub => Self::add_elementwise_op(
                net,
                tensors,
                operation,
                ElementWiseOperation::kSUB,
            ),
            OperationKind::Mul => Self::add_elementwise_op(
                net,
                tensors,
                operation,
                ElementWiseOperation::kPROD,
            ),
            OperationKind::Div => Self::add_elementwise_op(
                net,
                tensors,
                operation,
                ElementWiseOperation::kDIV,
            ),
            OperationKind::Pow => Self::add_elementwise_op(
                net,
                tensors,
                operation,
                ElementWiseOperation::kPOW,
            ),
            OperationKind::Max => Self::add_elementwise_op(
                net,
                tensors,
                operation,
                ElementWiseOperation::kMAX,
            ),
            OperationKind::Min => Self::add_elementwise_op(
                net,
                tensors,
                operation,
                ElementWiseOperation::kMIN,
            ),
            OperationKind::Relu => Self::add_activation_op(
                net,
                tensors,
                operation,
                ActivationType::kRELU,
            ),
            OperationKind::Sigmoid => Self::add_activation_op(
                net,
                tensors,
                operation,
                ActivationType::kSIGMOID,
            ),
            OperationKind::Tanh => Self::add_activation_op(
                net,
                tensors,
                operation,
                ActivationType::kTANH,
            ),
            OperationKind::Elu { .. } => Self::add_elu_op(graph, net, tensors, operation),
            OperationKind::Softsign => Self::add_activation_op(
                net,
                tensors,
                operation,
                ActivationType::kSOFTSIGN,
            ),
            OperationKind::Softplus => Self::add_activation_op(
                net,
                tensors,
                operation,
                ActivationType::kSOFTPLUS,
            ),
            OperationKind::Gelu => Self::add_activation_op(
                net,
                tensors,
                operation,
                ActivationType::kGELU_ERF,
            ),
            OperationKind::LeakyRelu { .. } => Self::add_leaky_relu_op(
                graph,
                net,
                tensors,
                operation,
            ),
            OperationKind::Prelu => Self::add_prelu_op(net, tensors, operation),
            OperationKind::HardSigmoid { .. } => Self::add_hard_sigmoid_op(
                graph,
                net,
                tensors,
                operation,
            ),
            OperationKind::HardSwish => Self::add_hard_swish_op(graph, net, tensors, operation),
            OperationKind::Exp => Self::add_unary_op(net, tensors, operation, UnaryOperation::kEXP),
            OperationKind::Log => Self::add_unary_op(net, tensors, operation, UnaryOperation::kLOG),
            OperationKind::Sqrt => Self::add_unary_op(
                net,
                tensors,
                operation,
                UnaryOperation::kSQRT,
            ),
            OperationKind::Reciprocal => Self::add_unary_op(
                net,
                tensors,
                operation,
                UnaryOperation::kRECIP,
            ),
            OperationKind::Abs => Self::add_unary_op(net, tensors, operation, UnaryOperation::kABS),
            OperationKind::Neg => Self::add_unary_op(net, tensors, operation, UnaryOperation::kNEG),
            OperationKind::Sin => Self::add_unary_op(net, tensors, operation, UnaryOperation::kSIN),
            OperationKind::Cos => Self::add_unary_op(net, tensors, operation, UnaryOperation::kCOS),
            OperationKind::Tan => Self::add_unary_op(net, tensors, operation, UnaryOperation::kTAN),
            OperationKind::Ceil => Self::add_unary_op(
                net,
                tensors,
                operation,
                UnaryOperation::kCEIL,
            ),
            OperationKind::Floor => Self::add_unary_op(
                net,
                tensors,
                operation,
                UnaryOperation::kFLOOR,
            ),
            OperationKind::Erf => Self::add_unary_op(net, tensors, operation, UnaryOperation::kERF),
            OperationKind::Sign => Self::add_unary_op(
                net,
                tensors,
                operation,
                UnaryOperation::kSIGN,
            ),
            OperationKind::Identity => Self::add_identity_op(net, tensors, operation),
            OperationKind::Cast => Self::add_cast_op(graph, net, tensors, operation, promoted),
            OperationKind::QuantizeLinear => Self::add_quantize_linear_op(
                graph,
                net,
                tensors,
                operation,
            ),
            OperationKind::DequantizeLinear => Self::add_dequantize_linear_op(
                graph,
                net,
                tensors,
                operation,
            ),
            OperationKind::Matmul => Self::add_matmul_op(net, tensors, operation),
            OperationKind::Gemm { .. } => Self::add_gemm_op(graph, net, tensors, operation),
            OperationKind::Conv2d { .. } => Self::add_conv2d_op(graph, net, tensors, operation),
            OperationKind::ConvTranspose2d { .. } => Self::add_conv_transpose2d_op(
                graph,
                net,
                tensors,
                operation,
            ),
            OperationKind::AveragePool2d { .. } => Self::add_pooling_op(
                graph,
                net,
                tensors,
                operation,
                PoolingType::kAVERAGE,
            ),
            OperationKind::MaxPool2d { .. } => Self::add_pooling_op(
                graph,
                net,
                tensors,
                operation,
                PoolingType::kMAX,
            ),
            OperationKind::GlobalAveragePool { .. } => Self::add_global_pooling_op(
                net,
                tensors,
                operation,
                PoolingType::kAVERAGE,
            ),
            OperationKind::GlobalMaxPool { .. } => Self::add_global_pooling_op(
                net,
                tensors,
                operation,
                PoolingType::kMAX,
            ),
            OperationKind::BatchNormalization { .. } => Self::add_batch_normalization_op(
                graph,
                net,
                tensors,
                operation,
            ),
            OperationKind::InstanceNormalization { .. } => Self::add_instance_normalization_op(
                graph,
                net,
                tensors,
                operation,
            ),
            OperationKind::LayerNormalization { .. } => Self::add_layer_normalization_op(
                graph,
                net,
                tensors,
                operation,
            ),
            OperationKind::ReduceSum { .. } => Self::add_reduce_op(
                net,
                tensors,
                operation,
                ReduceOperation::kSUM,
            ),
            OperationKind::ReduceMean { .. } => Self::add_reduce_op(
                net,
                tensors,
                operation,
                ReduceOperation::kAVG,
            ),
            OperationKind::ReduceMax { .. } => Self::add_reduce_op(
                net,
                tensors,
                operation,
                ReduceOperation::kMAX,
            ),
            OperationKind::ReduceMin { .. } => Self::add_reduce_op(
                net,
                tensors,
                operation,
                ReduceOperation::kMIN,
            ),
            OperationKind::ReduceProduct { .. } => Self::add_reduce_op(
                net,
                tensors,
                operation,
                ReduceOperation::kPROD,
            ),
            OperationKind::ReduceL1 { .. } => Self::add_reduce_l1_op(net, tensors, operation),
            OperationKind::ReduceL2 { .. } => Self::add_reduce_l2_op(
                graph,
                net,
                tensors,
                operation,
            ),
            OperationKind::ReduceLogSum { .. } => Self::add_reduce_log_sum_op(
                net,
                tensors,
                operation,
            ),
            OperationKind::ReduceLogSumExp { .. } => Self::add_reduce_log_sum_exp_op(
                net,
                tensors,
                operation,
            ),
            OperationKind::ReduceSumSquare { .. } => Self::add_reduce_sum_square_op(
                net,
                tensors,
                operation,
            ),
            OperationKind::Slice { .. } => Self::add_slice_op(net, tensors, operation),
            OperationKind::Split { .. } => Self::add_split_op(net, tensors, operation),
            OperationKind::Squeeze { .. } => Self::add_squeeze_op(net, tensors, operation),
            OperationKind::Unsqueeze { .. } => Self::add_unsqueeze_op(net, tensors, operation),
            OperationKind::Expand { .. } => Self::add_expand_op(graph, net, tensors, operation),
            OperationKind::Tile { .. } => Self::add_tile_op(net, tensors, operation),
            OperationKind::Equal => Self::add_comparison_op(
                net,
                tensors,
                operation,
                ElementWiseOperation::kEQUAL,
            ),
            OperationKind::Greater => Self::add_comparison_op(
                net,
                tensors,
                operation,
                ElementWiseOperation::kGREATER,
            ),
            OperationKind::GreaterOrEqual => Self::add_greater_or_equal_op(net, tensors, operation),
            OperationKind::Lesser => Self::add_comparison_op(
                net,
                tensors,
                operation,
                ElementWiseOperation::kLESS,
            ),
            OperationKind::LesserOrEqual => Self::add_lesser_or_equal_op(net, tensors, operation),
            OperationKind::NotEqual => Self::add_not_equal_op(net, tensors, operation),
            OperationKind::LogicalAnd => Self::add_logical_binary_op(
                graph,
                net,
                tensors,
                operation,
                ElementWiseOperation::kAND,
            ),
            OperationKind::LogicalOr => Self::add_logical_binary_op(
                graph,
                net,
                tensors,
                operation,
                ElementWiseOperation::kOR,
            ),
            OperationKind::LogicalXor => Self::add_logical_binary_op(
                graph,
                net,
                tensors,
                operation,
                ElementWiseOperation::kXOR,
            ),
            OperationKind::LogicalNot => Self::add_logical_not_op(graph, net, tensors, operation),
            OperationKind::Gather { .. } => Self::add_gather_op(graph, net, tensors, operation),
            OperationKind::GatherND => Self::add_gather_nd_op(graph, net, tensors, operation),
            OperationKind::ScatterElements { .. } => Self::add_scatter_elements_op(
                net,
                tensors,
                operation,
            ),
            OperationKind::ScatterND => Self::add_scatter_nd_op(net, tensors, operation),
            OperationKind::ArgMax { .. } => Self::add_arg_max_op(graph, net, tensors, operation),
            OperationKind::ArgMin { .. } => Self::add_arg_min_op(graph, net, tensors, operation),
            OperationKind::Clamp { .. } => Self::add_clamp_op(graph, net, tensors, operation),
            OperationKind::Where => Self::add_where_op(graph, net, tensors, operation),
            OperationKind::Linear { .. } => Self::add_linear_op(graph, net, tensors, operation),
            OperationKind::Pad { .. } => Self::add_pad_op(net, tensors, operation),
            OperationKind::Softmax { .. } => Self::add_softmax_op(net, tensors, operation),
            OperationKind::Concat { .. } => Self::add_concat_op(net, tensors, operation),
            OperationKind::IsNaN => Self::add_is_nan_op(net, tensors, operation),
            OperationKind::IsInfinite => Self::add_is_infinite_op(net, tensors, operation),
            OperationKind::RoundEven => Self::add_round_even_op(net, tensors, operation),
            OperationKind::GatherElements { .. } => Self::add_gather_elements_op(
                graph,
                net,
                tensors,
                operation,
            ),
            OperationKind::L2Pool2d { .. } => Self::add_l2_pool2d_op(
                graph,
                net,
                tensors,
                operation,
            ),
            OperationKind::Reverse { .. } => Self::add_reverse_op(graph, net, tensors, operation),
            OperationKind::CumulativeSum { .. } => Self::add_cumulative_sum_op(
                graph,
                net,
                tensors,
                operation,
            ),
            OperationKind::Triangular { .. } => Self::add_triangular_op(
                graph,
                net,
                tensors,
                operation,
            ),
            OperationKind::Transpose { .. } => Self::add_transpose_op(net, tensors, operation),
            OperationKind::Reshape { .. } => Self::add_reshape_op(net, tensors, operation),
            OperationKind::Resample2d { .. } => Self::add_resample2d_op(
                graph,
                net,
                tensors,
                operation,
            ),
            OperationKind::Other { name } => Err(
                say("Unsupported operation: ").str(name.as_str()).halt(),
            ),
        }
    }

    /// The reply to the request for the bytes of the operand `id`, as `context` resolves it.
    pub fn constant_reply<'w, C: WeightsContext<'w>>(
        graph: &'w GraphInfo,
        id: u32,
        context: &mut C,
    ) -> (reply: Reply)
        ensures
            resolves(*graph, id, reply@, *old(context), *final(context)),
    {
        let r = graph.resolve_constant(id, context);
        proof {
            assert(resolution_allowed(*graph, id, *old(context), *context, r));
        }
        let ghost resolved = r;
        let reply = match r {
            Ok(bytes) => ReplyOf::Bytes(bytes_of(bytes)),
            Err(e) => ReplyOf::Failed(e.message()),
        };
        proof {
            assert(reply@ == reply_of(resolved));
        }
        reply
    }

    /// Converts a whole graph, as far as the replies of `net` go.
    pub fn convert_with_replies(graph: &GraphInfo, net: &mut Network) -> (r: Result<(), Halt>)
        requires
            ready_from(old(net)@, Map::empty(), *graph, Stage::Input(0)),
        ensures
            outcome(final(net)@, r) == network_built(old(net)@, *graph).0,
            final(net)@.replies == old(net)@.replies,
    {
        let ghost start = net@;
        let mut build = Build::new();
        while !matches!(build.stage, Stage::Complete)
            invariant
                ready_from(net@, build.tensors@, *graph, build.stage),
                start == old(net)@,
                net@.replies == start.replies,
                built_from(net@, build.tensors@, *graph, build.stage) == network_built(
                    start,
                    *graph,
                ),
            decreases steps_left(*graph, build.stage),
        {
            let ghost before = net@;
            proof {
                stage_grows(before, build.tensors@, *graph, build.stage);
                reveal(Run::grows);
            }
            match build.step(graph, net) {
                Ok(_) => {},
                Err(h) => {
                    proof {
                        let (n, m) = stage_done(before, build.tensors@, *graph, build.stage);
                        built_stays(n, m, *graph, next_stage(*graph, build.stage));
                    }
                    return Err(h);
                },
            }
        }
        Ok(())
    }

    /// Converts a whole graph. Where it stops for the bytes of a constant, `context` resolves it and
    /// the conversion starts over with the reply. It stops short only for a reply that `context`
    /// cannot give.
    pub fn build_network_with_weight_context<'w, C: WeightsContext<'w>>(
        graph: &'w GraphInfo,
        net: &mut Network,
        context: &mut C,
    ) -> (r: Result<(), Halt>)
        requires
            stays_ready(*graph, old(net)@.replies, *old(context)),
            old(net)@.requests.len() == 0,
        ensures
            outcome(final(net)@, r) == network_built(begun(final(net)@.replies), *graph).0,
            continues(*graph, old(net)@.replies, final(net)@, *old(context), *final(context)),
            r matches Err(h) && h@ == HaltView::Pending ==> !(final(net)@.requests.last()
                is ConstantData),
    {
        let ghost given = net@.replies;
        let ghost mut states: Seq<C> = seq![*context];
        proof {
            assert(given.take(given.len() as int) =~= given);
            conversion_grows(begun(given), *graph);
            reveal(Run::grows);
        }
        loop
            invariant
                stays_ready(*graph, given, *old(context)),
                net@.requests.len() == 0,
                net@.halt is None,
                given == old(net)@.replies,
                begins_with(given, network_built(begun(net@.replies), *graph).0),
                resolved_in_turn(
                    *graph,
                    network_built(begun(net@.replies), *graph).0,
                    given.len(),
                    states,
                ),
                states.first() == *old(context),
                states.last() == *context,
            decreases usize::MAX - net.replies.len(),
        {
            let ghost first = begun(net@.replies);
            proof {
                assert(net@.requests =~= Seq::empty());
                assert(net@ == first);
                conversion_grows(first, *graph);
                reveal(Run::grows);
            }
            proof {
                assert(came_about(*graph, given, net@.replies, states, *old(context)));
            }
            let r = Self::convert_with_replies(graph, net);
            proof {
                resolved_alike(
                    *graph,
                    network_built(first, *graph).0,
                    net@,
                    given.len(),
                    states,
                );
            }
            if !matches!(r, Err(HaltOf::Pending)) {
                return r;
            }
            match net.awaited_constant() {
                Some(id) => {
                    let ghost held = net@;
                    let ghost prior = *context;
                    let reply = Self::constant_reply(graph, id, context);
                    proof {
                        assert(resolved(*graph, held.requests.last(), reply@, prior, *context));
                    }
                    net.answer(reply);
                    net.rewind(0);
                    proof {
                        let later = begun(net@.replies);
                        extends_replies(held.replies, reply@);
                        conversion_grows(later, *graph);
                        conversion_repeats(first, later, *graph);
                        reveal(Run::repeats);
                        let now = network_built(later, *graph).0;
                        let before = network_built(first, *graph).0;
                        let passed = states;
                        states = states.push(*context);
                        assert forall|k: int|
                            0 <= k < now.replies.len() - given.len() implies #[trigger] resolved_at(
                            *graph,
                            now,
                            given.len(),
                            states,
                            k,
                        ) by {
                            let i = given.len() + k;
                            assert(now.requests[i] == now.requests.take(
                                before.requests.len() as int,
                            )[i]);
                            if i < held.replies.len() {
                                assert(resolved_at(*graph, before, given.len(), passed, k));
                            } else {
                                assert(states[k] == passed.last());
                                assert(now.requests[i] == held.requests.last());
                                assert(now.replies[i] == reply@);
                            }
                        }
                        assert(now.replies.take(given.len() as int) =~= held.replies.take(
                            given.len() as int,
                        ));
                    }
                },
                None => {
                    return r;
                },
            }
        }
    }

    /// Converts a whole graph whose constants it holds itself or that are zeros, which `zero_map`
    /// has.
    pub fn build_network<'w>(
        graph: &'w GraphInfo,
        net: &mut Network,
        zero_map: Option<&'w [u8]>,
    ) -> (r: Result<(), Halt>)
        requires
            stays_ready(*graph, old(net)@.replies, (DefaultWeightsContext { zero_map })),
            old(net)@.requests.len() == 0,
        ensures
            outcome(final(net)@, r) == network_built(begun(final(net)@.replies), *graph).0,
            continues(
                *graph,
                old(net)@.replies,
                final(net)@,
                (DefaultWeightsContext { zero_map }),
                (DefaultWeightsContext { zero_map }),
            ),
            r matches Err(h) && h@ == HaltView::Pending ==> !(final(net)@.requests.last()
                is ConstantData),
    {
        let mut context = DefaultWeightsContext { zero_map };
        let ghost given = net@.replies;
        let r = Self::build_network_with_weight_context(graph, net, &mut context);
        proof {
            default_context_stays(
                *graph,
                given,
                net@,
                DefaultWeightsContext { zero_map },
                context,
            );
        }
        r
    }

    /// The name of the format.
    pub fn format(&self) -> (s: &'static str)
        ensures
            s@ == "trtx"@,
    {
        "trtx"
    }

    /// Refuses a graph with dimensions that are not fixed.
    pub fn check_convertible(graph: &GraphInfo) -> (r: Result<(), GraphError>)
        ensures
            match r {
                Ok(_) => !graph.is_dynamic(),
                Err(e) => graph.is_dynamic() && e is ConversionFailed && e->ConversionFailed_format@
                    == "trtx"@ && e->ConversionFailed_reason@
                    == "TODO: TRTX converter does not support graphs with dynamic dimensions"@,
            },
    {
        if graph.has_dynamic_dimensions() {
            Err(
                GraphError::ConversionFailed {
                    format: say("trtx").text,
                    reason: say(
                        "TODO: TRTX converter does not support graphs with dynamic dimensions",
                    ).text,
                },
            )
        } else {
            Ok(())
        }
    }
}

} // verus!
