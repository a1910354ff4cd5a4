//! What an operation does to the tensors of the operands: it gives one to each of its outputs and
//! leaves those of all other operands as they are.

use crate::graph::GraphInfo;
use crate::operators::{Operation, OperationKind};
use crate::trtx::arrange::{
    concat_op, expand_op, resample2d_op, reshape_op, reverse_op, slice_op, split_op, split_part,
    split_parts, squeeze_op, tile_op, transpose_op, unsqueeze_op,
};
use crate::trtx::conv::{conv2d_op, conv_transpose2d_op};
use crate::trtx::elementwise::{
    activation_op, comparison_op, elementwise_op, elu_op, greater_or_equal_op, hard_sigmoid_op,
    hard_swish_op, identity_op, is_infinite_op, is_nan_op, leaky_relu_op, lesser_or_equal_op,
    linear_op, logical_binary_op, not_equal_op, prelu_op, round_even_op, unary_op,
};
use crate::trtx::growth::{
    group_grows, grows_bytes_to_float, grows_floats_to_int32, grows_split_part, grows_split_parts,
    grows_step_cast, grows_step_identity, grows_stopped,
};
use crate::trtx::matrix::{gemm_op, matmul_op};
use crate::trtx::network::operation_added;
use crate::trtx::normalization::{
    batch_normalization_op, instance_normalization_op, layer_norm_of_scalar,
    layer_norm_over_nothing, layer_normalization_op,
};
use crate::trtx::pad::pad_op;
use crate::trtx::pool::{global_pooling_op, l2_pool2d_op, pooling_op};
use crate::trtx::quantize::{cast_op, dequantize_linear_op, logical_not_op, quantize_linear_op};
use crate::trtx::reduce::{
    reduce_l1_op, reduce_l2_op, reduce_log_sum_exp_op, reduce_log_sum_op, reduce_op,
    reduce_sum_square_op,
};
use crate::trtx::select::{
    arg_max_op, arg_min_op, clamp_op, cumulative_sum_op, gather_elements_op, gather_nd_op,
    gather_op, scatter_elements_op, scatter_nd_op, softmax_op, triangular_op, where_op,
};
use crate::trtx::session::Run;
use crate::trtx::types::{
    ActivationType, ElementWiseOperation, PoolingType, ReduceOperation, Tensor, UnaryOperation,
};
use vstd::prelude::*;

verus! {

/// Whether `after` and `before` hold the same for the operand `id`.
pub open spec fn same_at(after: Map<u32, Tensor>, before: Map<u32, Tensor>, id: u32) -> bool {
    &&& after.contains_key(id) == before.contains_key(id)
    &&& after.contains_key(id) ==> after[id] == before[id]
}

/// Whether `step` leaves the tensors `before` as they are but for those of the outputs of `op`.
/// Unless it has stopped, it has given a tensor to the first output, and a split to every output.
pub open spec fn sets_outputs(
    step: (Run, Map<u32, Tensor>),
    before: Map<u32, Tensor>,
    op: Operation,
) -> bool {
    &&& forall|id: u32|
        #![trigger same_at(step.1, before, id)]
        !op.outputs@.contains(id) ==> same_at(step.1, before, id)
    &&& step.0.halt is None && op.outputs@.len() > 0 ==> step.1.contains_key(op.outputs@[0])
    &&& step.0.halt is None && op.kind is Split ==> forall|i: int|
        0 <= i < op.outputs@.len() ==> step.1.contains_key(#[trigger] op.outputs@[i])
}

proof fn sets_split_parts(
    n: Run,
    m: Map<u32, Tensor>,
    op: Operation,
    d: Seq<i64>,
    axis: nat,
    sizes: Seq<i32>,
    k: nat,
)
    requires
        k <= op.outputs@.len(),
    ensures
        ({
            let step = split_parts(n, m, op, d, axis, sizes, k);
            &&& forall|id: u32|
                #![trigger same_at(step.1, m, id)]
                !op.outputs@.contains(id) ==> same_at(step.1, m, id)
            &&& step.0.halt is None ==> forall|i: int|
                0 <= i < k ==> step.1.contains_key(#[trigger] op.outputs@[i])
        }),
    decreases k,
{
    if k > 0 {
        broadcast use {group_grows, grows_split_part};

        reveal(Run::grows);
        sets_split_parts(n, m, op, d, axis, sizes, (k - 1) as nat);
        let before = split_parts(n, m, op, d, axis, sizes, (k - 1) as nat);
        let step = split_part(before.0, before.1, op, d, axis, sizes, (k - 1) as nat);
        assert(step.0.grows(before.0));
        assert forall|id: u32| !op.outputs@.contains(id) implies #[trigger] same_at(
            step.1,
            m,
            id,
        ) by {
            assert(same_at(before.1, m, id));
            assert(op.outputs@.contains(op.outputs@[k - 1]));
        }
    }
}

proof fn sets_split_op(n: Run, m: Map<u32, Tensor>, op: Operation)
    requires
        op.kind is Split,
    ensures
        sets_outputs(split_op(n, m, op), m, op),
{
    broadcast use {group_grows, grows_split_parts};

    reveal(Run::grows);
    let step = split_op(n, m, op);
    assert forall|d: Seq<i64>, axis: nat, sizes: Seq<i32>, n: Run|
        sizes.len() == op.outputs@.len() implies sets_outputs(
        #[trigger] split_parts(n, m, op, d, axis, sizes, sizes.len()),
        m,
        op,
    ) by {
        sets_split_parts(n, m, op, d, axis, sizes, sizes.len());
    }
}

proof fn sets_slice_op(n: Run, m: Map<u32, Tensor>, op: Operation)
    requires
        !(op.kind is Split),
        op.outputs@.len() >= 1,
    ensures
        sets_outputs(slice_op(n, m, op), m, op),
{
}

proof fn sets_squeeze_op(n: Run, m: Map<u32, Tensor>, op: Operation)
    requires
        !(op.kind is Split),
        op.outputs@.len() >= 1,
    ensures
        sets_outputs(squeeze_op(n, m, op), m, op),
{
}

proof fn sets_unsqueeze_op(n: Run, m: Map<u32, Tensor>, op: Operation)
    requires
        !(op.kind is Split),
        op.outputs@.len() >= 1,
    ensures
        sets_outputs(unsqueeze_op(n, m, op), m, op),
{
}

proof fn sets_expand_op(n: Run, m: Map<u32, Tensor>, graph: GraphInfo, op: Operation)
    requires
        !(op.kind is Split),
        op.outputs@.len() >= 1,
    ensures
        sets_outputs(expand_op(n, m, graph, op), m, op),
{
}

proof fn sets_tile_op(n: Run, m: Map<u32, Tensor>, op: Operation)
    requires
        !(op.kind is Split),
        op.outputs@.len() >= 1,
    ensures
        sets_outputs(tile_op(n, m, op), m, op),
{
}

proof fn sets_concat_op(n: Run, m: Map<u32, Tensor>, op: Operation)
    requires
        !(op.kind is Split),
    ensures
        sets_outputs(concat_op(n, m, op), m, op),
{
}

proof fn sets_transpose_op(n: Run, m: Map<u32, Tensor>, op: Operation)
    requires
        !(op.kind is Split),
        op.outputs@.len() >= 1,
    ensures
        sets_outputs(transpose_op(n, m, op), m, op),
{
}

proof fn sets_reshape_op(n: Run, m: Map<u32, Tensor>, op: Operation)
    requires
        !(op.kind is Split),
        op.outputs@.len() >= 1,
    ensures
        sets_outputs(reshape_op(n, m, op), m, op),
{
}

proof fn sets_resample2d_op(n: Run, m: Map<u32, Tensor>, graph: GraphInfo, op: Operation)
    requires
        !(op.kind is Split),
        op.outputs@.len() >= 1,
    ensures
        sets_outputs(resample2d_op(n, m, graph, op), m, op),
{
}

proof fn sets_reverse_op(n: Run, m: Map<u32, Tensor>, graph: GraphInfo, op: Operation)
    requires
        !(op.kind is Split),
        op.outputs@.len() >= 1,
    ensures
        sets_outputs(reverse_op(n, m, graph, op), m, op),
{
}

proof fn sets_conv2d_op(n: Run, m: Map<u32, Tensor>, graph: GraphInfo, op: Operation)
    requires
        !(op.kind is Split),
        op.outputs@.len() >= 1,
    ensures
        sets_outputs(conv2d_op(n, m, graph, op), m, op),
{
}

proof fn sets_conv_transpose2d_op(n: Run, m: Map<u32, Tensor>, graph: GraphInfo, op: Operation)
    requires
        !(op.kind is Split),
        op.outputs@.len() >= 1,
    ensures
        sets_outputs(conv_transpose2d_op(n, m, graph, op), m, op),
{
}

proof fn sets_elementwise_op(n: Run, m: Map<u32, Tensor>, op: Operation, code: ElementWiseOperation)
    requires
        !(op.kind is Split),
        op.outputs@.len() >= 1,
    ensures
        sets_outputs(elementwise_op(n, m, op, code), m, op),
{
}

proof fn sets_comparison_op(n: Run, m: Map<u32, Tensor>, op: Operation, code: ElementWiseOperation)
    requires
        !(op.kind is Split),
        op.outputs@.len() >= 1,
    ensures
        sets_outputs(comparison_op(n, m, op, code), m, op),
{
}

proof fn sets_logical_binary_op(
    n: Run,
    m: Map<u32, Tensor>,
    graph: GraphInfo,
    op: Operation,
    code: ElementWiseOperation,
)
    requires
        !(op.kind is Split),
        op.outputs@.len() >= 1,
    ensures
        sets_outputs(logical_binary_op(n, m, graph, op, code), m, op),
{
}

proof fn sets_greater_or_equal_op(n: Run, m: Map<u32, Tensor>, op: Operation)
    requires
        !(op.kind is Split),
        op.outputs@.len() >= 1,
    ensures
        sets_outputs(greater_or_equal_op(n, m, op), m, op),
{
}

proof fn sets_lesser_or_equal_op(n: Run, m: Map<u32, Tensor>, op: Operation)
    requires
        !(op.kind is Split),
        op.outputs@.len() >= 1,
    ensures
        sets_outputs(lesser_or_equal_op(n, m, op), m, op),
{
}

proof fn sets_not_equal_op(n: Run, m: Map<u32, Tensor>, op: Operation)
    requires
        !(op.kind is Split),
        op.outputs@.len() >= 1,
    ensures
        sets_outputs(not_equal_op(n, m, op), m, op),
{
}

proof fn sets_activation_op(n: Run, m: Map<u32, Tensor>, op: Operation, kind: ActivationType)
    requires
        !(op.kind is Split),
        op.outputs@.len() >= 1,
    ensures
        sets_outputs(activation_op(n, m, op, kind), m, op),
{
}

proof fn sets_unary_op(n: Run, m: Map<u32, Tensor>, op: Operation, code: UnaryOperation)
    requires
        !(op.kind is Split),
        op.outputs@.len() >= 1,
    ensures
        sets_outputs(unary_op(n, m, op, code), m, op),
{
}

proof fn sets_identity_op(n: Run, m: Map<u32, Tensor>, op: Operation)
    requires
        !(op.kind is Split),
        op.outputs@.len() >= 1,
    ensures
        sets_outputs(identity_op(n, m, op), m, op),
{
}

proof fn sets_round_even_op(n: Run, m: Map<u32, Tensor>, op: Operation)
    requires
        !(op.kind is Split),
        op.outputs@.len() >= 1,
    ensures
        sets_outputs(round_even_op(n, m, op), m, op),
{
}

proof fn sets_is_nan_op(n: Run, m: Map<u32, Tensor>, op: Operation)
    requires
        !(op.kind is Split),
        op.outputs@.len() >= 1,
    ensures
        sets_outputs(is_nan_op(n, m, op), m, op),
{
}

proof fn sets_is_infinite_op(n: Run, m: Map<u32, Tensor>, op: Operation)
    requires
        !(op.kind is Split),
        op.outputs@.len() >= 1,
    ensures
        sets_outputs(is_infinite_op(n, m, op), m, op),
{
}

proof fn sets_elu_op(n: Run, m: Map<u32, Tensor>, graph: GraphInfo, op: Operation)
    requires
        !(op.kind is Split),
        op.outputs@.len() >= 1,
    ensures
        sets_outputs(elu_op(n, m, graph, op), m, op),
{
}

proof fn sets_leaky_relu_op(n: Run, m: Map<u32, Tensor>, graph: GraphInfo, op: Operation)
    requires
        !(op.kind is Split),
        op.outputs@.len() >= 1,
    ensures
        sets_outputs(leaky_relu_op(n, m, graph, op), m, op),
{
}

proof fn sets_prelu_op(n: Run, m: Map<u32, Tensor>, op: Operation)
    requires
        !(op.kind is Split),
        op.outputs@.len() >= 1,
    ensures
        sets_outputs(prelu_op(n, m, op), m, op),
{
}

proof fn sets_hard_sigmoid_op(n: Run, m: Map<u32, Tensor>, graph: GraphInfo, op: Operation)
    requires
        !(op.kind is Split),
        op.outputs@.len() >= 1,
    ensures
        sets_outputs(hard_sigmoid_op(n, m, graph, op), m, op),
{
}

proof fn sets_hard_swish_op(n: Run, m: Map<u32, Tensor>, graph: GraphInfo, op: Operation)
    requires
        !(op.kind is Split),
        op.outputs@.len() >= 1,
    ensures
        sets_outputs(hard_swish_op(n, m, graph, op), m, op),
{
}

proof fn sets_linear_op(n: Run, m: Map<u32, Tensor>, graph: GraphInfo, op: Operation)
    requires
        !(op.kind is Split),
        op.outputs@.len() >= 1,
    ensures
        sets_outputs(linear_op(n, m, graph, op), m, op),
{
}

proof fn sets_matmul_op(n: Run, m: Map<u32, Tensor>, op: Operation)
    requires
        !(op.kind is Split),
        op.outputs@.len() >= 1,
    ensures
        sets_outputs(matmul_op(n, m, op), m, op),
{
}

proof fn sets_gemm_op(n: Run, m: Map<u32, Tensor>, graph: GraphInfo, op: Operation)
    requires
        !(op.kind is Split),
        op.outputs@.len() >= 1,
    ensures
        sets_outputs(gemm_op(n, m, graph, op), m, op),
{
}

proof fn sets_cast_op(
    n: Run,
    m: Map<u32, Tensor>,
    graph: GraphInfo,
    op: Operation,
    promoted: Set<u32>,
)
    requires
        !(op.kind is Split),
    ensures
        sets_outputs(cast_op(n, m, graph, op, promoted), m, op),
{
    broadcast use {
        group_grows, grows_stopped, grows_step_identity, grows_bytes_to_float,
        grows_floats_to_int32, grows_step_cast,
    };

}

proof fn sets_quantize_linear_op(n: Run, m: Map<u32, Tensor>, graph: GraphInfo, op: Operation)
    requires
        !(op.kind is Split),
        op.outputs@.len() >= 1,
    ensures
        sets_outputs(quantize_linear_op(n, m, graph, op), m, op),
{
}

proof fn sets_dequantize_linear_op(n: Run, m: Map<u32, Tensor>, graph: GraphInfo, op: Operation)
    requires
        !(op.kind is Split),
        op.outputs@.len() >= 1,
    ensures
        sets_outputs(dequantize_linear_op(n, m, graph, op), m, op),
{
}

proof fn sets_pooling_op(
    n: Run,
    m: Map<u32, Tensor>,
    graph: GraphInfo,
    op: Operation,
    kind: PoolingType,
)
    requires
        !(op.kind is Split),
        op.outputs@.len() >= 1,
    ensures
        sets_outputs(pooling_op(n, m, graph, op, kind), m, op),
{
}

proof fn sets_global_pooling_op(n: Run, m: Map<u32, Tensor>, op: Operation, kind: PoolingType)
    requires
        !(op.kind is Split),
        op.outputs@.len() >= 1,
    ensures
        sets_outputs(global_pooling_op(n, m, op, kind), m, op),
{
}

proof fn sets_batch_normalization_op(n: Run, m: Map<u32, Tensor>, graph: GraphInfo, op: Operation)
    requires
        !(op.kind is Split),
        op.outputs@.len() >= 1,
    ensures
        sets_outputs(batch_normalization_op(n, m, graph, op), m, op),
{
}

proof fn sets_instance_normalization_op(
    n: Run,
    m: Map<u32, Tensor>,
    graph: GraphInfo,
    op: Operation,
)
    requires
        !(op.kind is Split),
        op.outputs@.len() >= 1,
    ensures
        sets_outputs(instance_normalization_op(n, m, graph, op), m, op),
{
}

proof fn sets_layer_normalization_op(n: Run, m: Map<u32, Tensor>, graph: GraphInfo, op: Operation)
    requires
        !(op.kind is Split),
        op.outputs@.len() >= 1,
    ensures
        sets_outputs(layer_normalization_op(n, m, graph, op), m, op),
{
    reveal(layer_norm_of_scalar);
    reveal(layer_norm_over_nothing);
}

proof fn sets_reduce_op(n: Run, m: Map<u32, Tensor>, op: Operation, reduction: ReduceOperation)
    requires
        !(op.kind is Split),
        op.outputs@.len() >= 1,
    ensures
        sets_outputs(reduce_op(n, m, op, reduction), m, op),
{
}

proof fn sets_reduce_l1_op(n: Run, m: Map<u32, Tensor>, op: Operation)
    requires
        !(op.kind is Split),
        op.outputs@.len() >= 1,
    ensures
        sets_outputs(reduce_l1_op(n, m, op), m, op),
{
}

proof fn sets_reduce_l2_op(n: Run, m: Map<u32, Tensor>, graph: GraphInfo, op: Operation)
    requires
        !(op.kind is Split),
        op.outputs@.len() >= 1,
    ensures
        sets_outputs(reduce_l2_op(n, m, graph, op), m, op),
{
}

proof fn sets_reduce_log_sum_op(n: Run, m: Map<u32, Tensor>, op: Operation)
    requires
        !(op.kind is Split),
        op.outputs@.len() >= 1,
    ensures
        sets_outputs(reduce_log_sum_op(n, m, op), m, op),
{
}

proof fn sets_reduce_log_sum_exp_op(n: Run, m: Map<u32, Tensor>, op: Operation)
    requires
        !(op.kind is Split),
        op.outputs@.len() >= 1,
    ensures
        sets_outputs(reduce_log_sum_exp_op(n, m, op), m, op),
{
}

proof fn sets_reduce_sum_square_op(n: Run, m: Map<u32, Tensor>, op: Operation)
    requires
        !(op.kind is Split),
        op.outputs@.len() >= 1,
    ensures
        sets_outputs(reduce_sum_square_op(n, m, op), m, op),
{
}

proof fn sets_logical_not_op(n: Run, m: Map<u32, Tensor>, graph: GraphInfo, op: Operation)
    requires
        !(op.kind is Split),
        op.outputs@.len() >= 1,
    ensures
        sets_outputs(logical_not_op(n, m, graph, op), m, op),
{
}

proof fn sets_gather_op(n: Run, m: Map<u32, Tensor>, graph: GraphInfo, op: Operation)
    requires
        !(op.kind is Split),
        op.outputs@.len() >= 1,
    ensures
        sets_outputs(gather_op(n, m, graph, op), m, op),
{
}

proof fn sets_gather_nd_op(n: Run, m: Map<u32, Tensor>, graph: GraphInfo, op: Operation)
    requires
        !(op.kind is Split),
        op.outputs@.len() >= 1,
    ensures
        sets_outputs(gather_nd_op(n, m, graph, op), m, op),
{
}

proof fn sets_scatter_elements_op(n: Run, m: Map<u32, Tensor>, op: Operation)
    requires
        !(op.kind is Split),
        op.outputs@.len() >= 1,
    ensures
        sets_outputs(scatter_elements_op(n, m, op), m, op),
{
}

proof fn sets_scatter_nd_op(n: Run, m: Map<u32, Tensor>, op: Operation)
    requires
        !(op.kind is Split),
        op.outputs@.len() >= 1,
    ensures
        sets_outputs(scatter_nd_op(n, m, op), m, op),
{
}

proof fn sets_arg_max_op(n: Run, m: Map<u32, Tensor>, graph: GraphInfo, op: Operation)
    requires
        !(op.kind is Split),
        op.outputs@.len() >= 1,
    ensures
        sets_outputs(arg_max_op(n, m, graph, op), m, op),
{
}

proof fn sets_arg_min_op(n: Run, m: Map<u32, Tensor>, graph: GraphInfo, op: Operation)
    requires
        !(op.kind is Split),
        op.outputs@.len() >= 1,
    ensures
        sets_outputs(arg_min_op(n, m, graph, op), m, op),
{
}

proof fn sets_clamp_op(n: Run, m: Map<u32, Tensor>, graph: GraphInfo, op: Operation)
    requires
        !(op.kind is Split),
        op.outputs@.len() >= 1,
    ensures
        sets_outputs(clamp_op(n, m, graph, op), m, op),
{
}

proof fn sets_where_op(n: Run, m: Map<u32, Tensor>, graph: GraphInfo, op: Operation)
    requires
        !(op.kind is Split),
        op.outputs@.len() >= 1,
    ensures
        sets_outputs(where_op(n, m, graph, op), m, op),
{
}

proof fn sets_pad_op(n: Run, m: Map<u32, Tensor>, op: Operation)
    requires
        !(op.kind is Split),
        op.outputs@.len() >= 1,
    ensures
        sets_outputs(pad_op(n, m, op), m, op),
{
}

proof fn sets_softmax_op(n: Run, m: Map<u32, Tensor>, op: Operation)
    requires
        !(op.kind is Split),
        op.outputs@.len() >= 1,
    ensures
        sets_outputs(softmax_op(n, m, op), m, op),
{
}

proof fn sets_gather_elements_op(n: Run, m: Map<u32, Tensor>, graph: GraphInfo, op: Operation)
    requires
        !(op.kind is Split),
        op.outputs@.len() >= 1,
    ensures
        sets_outputs(gather_elements_op(n, m, graph, op), m, op),
{
}

proof fn sets_l2_pool2d_op(n: Run, m: Map<u32, Tensor>, graph: GraphInfo, op: Operation)
    requires
        !(op.kind is Split),
        op.outputs@.len() >= 1,
    ensures
        sets_outputs(l2_pool2d_op(n, m, graph, op), m, op),
{
}

proof fn sets_cumulative_sum_op(n: Run, m: Map<u32, Tensor>, graph: GraphInfo, op: Operation)
    requires
        !(op.kind is Split),
        op.outputs@.len() >= 1,
    ensures
        sets_outputs(cumulative_sum_op(n, m, graph, op), m, op),
{
}

proof fn sets_triangular_op(n: Run, m: Map<u32, Tensor>, graph: GraphInfo, op: Operation)
    requires
        !(op.kind is Split),
        op.outputs@.len() >= 1,
    ensures
        sets_outputs(triangular_op(n, m, graph, op), m, op),
{
}

/// An operation gives a tensor to each of its outputs, unless the conversation stops, and changes
/// nothing for any other operand.
pub proof fn operation_sets_its_outputs(
    n: Run,
    m: Map<u32, Tensor>,
    graph: GraphInfo,
    op: Operation,
    promoted: Set<u32>,
)
    requires
        op.well_formed(),
    ensures
        sets_outputs(operation_added(n, m, graph, op, promoted), m, op),
{
    reveal(operation_added);
    match op.kind {
        OperationKind::Add => sets_elementwise_op(n, m, op, ElementWiseOperation::kSUM),
        OperationKind::Sub => sets_elementwise_op(n, m, op, ElementWiseOperation::kSUB),
        OperationKind::Mul => sets_elementwise_op(n, m, op, ElementWiseOperation::kPROD),
        OperationKind::Div => sets_elementwise_op(n, m, op, ElementWiseOperation::kDIV),
        OperationKind::Pow => sets_elementwise_op(n, m, op, ElementWiseOperation::kPOW),
        OperationKind::Max => sets_elementwise_op(n, m, op, ElementWiseOperation::kMAX),
        OperationKind::Min => sets_elementwise_op(n, m, op, ElementWiseOperation::kMIN),
        OperationKind::Relu => sets_activation_op(n, m, op, ActivationType::kRELU),
        OperationKind::Sigmoid => sets_activation_op(n, m, op, ActivationType::kSIGMOID),
        OperationKind::Tanh => sets_activation_op(n, m, op, ActivationType::kTANH),
        OperationKind::Elu { .. } => sets_elu_op(n, m, graph, op),
        OperationKind::Softsign => sets_activation_op(n, m, op, ActivationType::kSOFTSIGN),
        OperationKind::Softplus => sets_activation_op(n, m, op, ActivationType::kSOFTPLUS),
        OperationKind::Gelu => sets_activation_op(n, m, op, ActivationType::kGELU_ERF),
        OperationKind::LeakyRelu { .. } => sets_leaky_relu_op(n, m, graph, op),
        OperationKind::Prelu => sets_prelu_op(n, m, op),
        OperationKind::HardSigmoid { .. } => sets_hard_sigmoid_op(n, m, graph, op),
        OperationKind::HardSwish => sets_hard_swish_op(n, m, graph, op),
        OperationKind::Exp => sets_unary_op(n, m, op, UnaryOperation::kEXP),
        OperationKind::Log => sets_unary_op(n, m, op, UnaryOperation::kLOG),
        OperationKind::Sqrt => sets_unary_op(n, m, op, UnaryOperation::kSQRT),
        OperationKind::Reciprocal => sets_unary_op(n, m, op, UnaryOperation::kRECIP),
        OperationKind::Abs => sets_unary_op(n, m, op, UnaryOperation::kABS),
        OperationKind::Neg => sets_unary_op(n, m, op, UnaryOperation::kNEG),
        OperationKind::Sin => sets_unary_op(n, m, op, UnaryOperation::kSIN),
        OperationKind::Cos => sets_unary_op(n, m, op, UnaryOperation::kCOS),
        OperationKind::Tan => sets_unary_op(n, m, op, UnaryOperation::kTAN),
        OperationKind::Ceil => sets_unary_op(n, m, op, UnaryOperation::kCEIL),
        OperationKind::Floor => sets_unary_op(n, m, op, UnaryOperation::kFLOOR),
        OperationKind::Erf => sets_unary_op(n, m, op, UnaryOperation::kERF),
        OperationKind::Sign => sets_unary_op(n, m, op, UnaryOperation::kSIGN),
        OperationKind::Identity => sets_identity_op(n, m, op),
        OperationKind::Cast => sets_cast_op(n, m, graph, op, promoted),
        OperationKind::QuantizeLinear => sets_quantize_linear_op(n, m, graph, op),
        OperationKind::DequantizeLinear => sets_dequantize_linear_op(n, m, graph, op),
        OperationKind::Matmul => sets_matmul_op(n, m, op),
        OperationKind::Gemm { .. } => sets_gemm_op(n, m, graph, op),
        OperationKind::Conv2d { .. } => sets_conv2d_op(n, m, graph, op),
        OperationKind::ConvTranspose2d { .. } => sets_conv_transpose2d_op(n, m, graph, op),
        OperationKind::AveragePool2d { .. } => sets_pooling_op(
            n,
            m,
            graph,
            op,
            PoolingType::kAVERAGE,
        ),
        OperationKind::MaxPool2d { .. } => sets_pooling_op(n, m, graph, op, PoolingType::kMAX),
        OperationKind::GlobalAveragePool { .. } => sets_global_pooling_op(
            n,
            m,
            op,
            PoolingType::kAVERAGE,
        ),
        OperationKind::GlobalMaxPool { .. } => sets_global_pooling_op(n, m, op, PoolingType::kMAX),
        OperationKind::BatchNormalization { .. } => sets_batch_normalization_op(n, m, graph, op),
        OperationKind::InstanceNormalization { .. } => sets_instance_normalization_op(
            n,
            m,
            graph,
            op,
        ),
        OperationKind::LayerNormalization { .. } => sets_layer_normalization_op(n, m, graph, op),
        OperationKind::ReduceSum { .. } => sets_reduce_op(n, m, op, ReduceOperation::kSUM),
        OperationKind::ReduceMean { .. } => sets_reduce_op(n, m, op, ReduceOperation::kAVG),
        OperationKind::ReduceMax { .. } => sets_reduce_op(n, m, op, ReduceOperation::kMAX),
        OperationKind::ReduceMin { .. } => sets_reduce_op(n, m, op, ReduceOperation::kMIN),
        OperationKind::ReduceProduct { .. } => sets_reduce_op(n, m, op, ReduceOperation::kPROD),
        OperationKind::ReduceL1 { .. } => sets_reduce_l1_op(n, m, op),
        OperationKind::ReduceL2 { .. } => sets_reduce_l2_op(n, m, graph, op),
        OperationKind::ReduceLogSum { .. } => sets_reduce_log_sum_op(n, m, op),
        OperationKind::ReduceLogSumExp { .. } => sets_reduce_log_sum_exp_op(n, m, op),
        OperationKind::ReduceSumSquare { .. } => sets_reduce_sum_square_op(n, m, op),
        OperationKind::Slice { .. } => sets_slice_op(n, m, op),
        OperationKind::Split { .. } => sets_split_op(n, m, op),
        OperationKind::Squeeze { .. } => sets_squeeze_op(n, m, op),
        OperationKind::Unsqueeze { .. } => sets_unsqueeze_op(n, m, op),
        OperationKind::Expand { .. } => sets_expand_op(n, m, graph, op),
        OperationKind::Tile { .. } => sets_tile_op(n, m, op),
        OperationKind::Equal => sets_comparison_op(n, m, op, ElementWiseOperation::kEQUAL),
        OperationKind::Greater => sets_comparison_op(n, m, op, ElementWiseOperation::kGREATER),
        OperationKind::GreaterOrEqual => sets_greater_or_equal_op(n, m, op),
        OperationKind::Lesser => sets_comparison_op(n, m, op, ElementWiseOperation::kLESS),
        OperationKind::LesserOrEqual => sets_lesser_or_equal_op(n, m, op),
        OperationKind::NotEqual => sets_not_equal_op(n, m, op),
        OperationKind::LogicalAnd => sets_logical_binary_op(
            n,
            m,
            graph,
            op,
            ElementWiseOperation::kAND,
        ),
        OperationKind::LogicalOr => sets_logical_binary_op(
            n,
            m,
            graph,
            op,
            ElementWiseOperation::kOR,
        ),
        OperationKind::LogicalXor => sets_logical_binary_op(
            n,
            m,
            graph,
            op,
            ElementWiseOperation::kXOR,
        ),
        OperationKind::LogicalNot => sets_logical_not_op(n, m, graph, op),
        OperationKind::Gather { .. } => sets_gather_op(n, m, graph, op),
        OperationKind::GatherND => sets_gather_nd_op(n, m, graph, op),
        OperationKind::ScatterElements { .. } => sets_scatter_elements_op(n, m, op),
        OperationKind::ScatterND => sets_scatter_nd_op(n, m, op),
        OperationKind::ArgMax { .. } => sets_arg_max_op(n, m, graph, op),
        OperationKind::ArgMin { .. } => sets_arg_min_op(n, m, graph, op),
        OperationKind::Clamp { .. } => sets_clamp_op(n, m, graph, op),
        OperationKind::Where => sets_where_op(n, m, graph, op),
        OperationKind::Linear { .. } => sets_linear_op(n, m, graph, op),
        OperationKind::Pad { .. } => sets_pad_op(n, m, op),
        OperationKind::Softmax { .. } => sets_softmax_op(n, m, op),
        OperationKind::Concat { .. } => sets_concat_op(n, m, op),
        OperationKind::IsNaN => sets_is_nan_op(n, m, op),
        OperationKind::IsInfinite => sets_is_infinite_op(n, m, op),
        OperationKind::RoundEven => sets_round_even_op(n, m, op),
        OperationKind::GatherElements { .. } => sets_gather_elements_op(n, m, graph, op),
        OperationKind::L2Pool2d { .. } => sets_l2_pool2d_op(n, m, graph, op),
        OperationKind::Reverse { .. } => sets_reverse_op(n, m, graph, op),
        OperationKind::CumulativeSum { .. } => sets_cumulative_sum_op(n, m, graph, op),
        OperationKind::Triangular { .. } => sets_triangular_op(n, m, graph, op),
        OperationKind::Transpose { .. } => sets_transpose_op(n, m, op),
        OperationKind::Reshape { .. } => sets_reshape_op(n, m, op),
        OperationKind::Resample2d { .. } => sets_resample2d_op(n, m, graph, op),
        OperationKind::Other { .. } => {},
    }
}

} // verus!
