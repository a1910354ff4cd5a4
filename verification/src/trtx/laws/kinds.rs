//! Which step of a conversion each kind of operation takes.

use crate::graph::GraphInfo;
use crate::operators::Operation;
use crate::trtx::arrange::{
    concat_op, expand_op, resample2d_op, reshape_op, reverse_op, slice_op, split_op, squeeze_op,
    tile_op, transpose_op, unsqueeze_op,
};
use crate::trtx::conv::{conv2d_op, conv_transpose2d_op};
use crate::trtx::elementwise::{
    activation_op, comparison_op, elementwise_op, elu_op, greater_or_equal_op, hard_sigmoid_op,
    hard_swish_op, identity_op, is_infinite_op, is_nan_op, leaky_relu_op, lesser_or_equal_op,
    linear_op, logical_binary_op, not_equal_op, prelu_op, round_even_op, unary_op,
};
use crate::trtx::matrix::{gemm_op, matmul_op};
use crate::trtx::network::operation_added;
use crate::trtx::normalization::{
    batch_normalization_op, instance_normalization_op, layer_normalization_op,
};
use crate::trtx::pad::pad_op;
use crate::trtx::pool::{global_pooling_op, l2_pool2d_op, pooling_op};
use crate::trtx::quantize::{cast_op, dequantize_linear_op, logical_not_op, quantize_linear_op};
use crate::trtx::reduce::{
    reduce_l1_op, reduce_l2_op, reduce_log_sum_exp_op, reduce_log_sum_op, reduce_op,
    reduce_sum_square_op,
};
use crate::trtx::select::{
    arg_max_op, arg_min_op, clamp_op, cumulative_sum_op, gather_elements_op, gather_nd_op,
    gather_op, scatter_elements_op, scatter_nd_op, softmax_op, triangular_op, where_op,
};
use crate::trtx::session::Run;
use crate::trtx::types::{
    ActivationType, ElementWiseOperation, PoolingType, ReduceOperation, Tensor, UnaryOperation,
};
use vstd::prelude::*;

verus! {

pub(crate) proof fn add_is_added(
    n: Run,
    m: Map<u32, Tensor>,
    graph: GraphInfo,
    op: Operation,
    promoted: Set<u32>,
)
    requires
        operation_added(n, m, graph, op, promoted).0.goes_on(),
        op.kind is Add,
    ensures
        n.halt is None,
        operation_added(n, m, graph, op, promoted) == elementwise_op(n, m, op, ElementWiseOperation::kSUM),
{
    reveal(operation_added);
}

pub(crate) proof fn sub_is_added(
    n: Run,
    m: Map<u32, Tensor>,
    graph: GraphInfo,
    op: Operation,
    promoted: Set<u32>,
)
    requires
        operation_added(n, m, graph, op, promoted).0.goes_on(),
        op.kind is Sub,
    ensures
        n.halt is None,
        operation_added(n, m, graph, op, promoted) == elementwise_op(n, m, op, ElementWiseOperation::kSUB),
{
    reveal(operation_added);
}

pub(crate) proof fn mul_is_added(
    n: Run,
    m: Map<u32, Tensor>,
    graph: GraphInfo,
    op: Operation,
    promoted: Set<u32>,
)
    requires
        operation_added(n, m, graph, op, promoted).0.goes_on(),
        op.kind is Mul,
    ensures
        n.halt is None,
        operation_added(n, m, graph, op, promoted) == elementwise_op(n, m, op, ElementWiseOperation::kPROD),
{
    reveal(operation_added);
}

pub(crate) proof fn div_is_added(
    n: Run,
    m: Map<u32, Tensor>,
    graph: GraphInfo,
    op: Operation,
    promoted: Set<u32>,
)
    requires
        operation_added(n, m, graph, op, promoted).0.goes_on(),
        op.kind is Div,
    ensures
        n.halt is None,
        operation_added(n, m, graph, op, promoted) == elementwise_op(n, m, op, ElementWiseOperation::kDIV),
{
    reveal(operation_added);
}

pub(crate) proof fn pow_is_added(
    n: Run,
    m: Map<u32, Tensor>,
    graph: GraphInfo,
    op: Operation,
    promoted: Set<u32>,
)
    requires
        operation_added(n, m, graph, op, promoted).0.goes_on(),
        op.kind is Pow,
    ensures
        n.halt is None,
        operation_added(n, m, graph, op, promoted) == elementwise_op(n, m, op, ElementWiseOperation::kPOW),
{
    reveal(operation_added);
}

pub(crate) proof fn max_is_added(
    n: Run,
    m: Map<u32, Tensor>,
    graph: GraphInfo,
    op: Operation,
    promoted: Set<u32>,
)
    requires
        operation_added(n, m, graph, op, promoted).0.goes_on(),
        op.kind is Max,
    ensures
        n.halt is None,
        operation_added(n, m, graph, op, promoted) == elementwise_op(n, m, op, ElementWiseOperation::kMAX),
{
    reveal(operation_added);
}

pub(crate) proof fn min_is_added(
    n: Run,
    m: Map<u32, Tensor>,
    graph: GraphInfo,
    op: Operation,
    promoted: Set<u32>,
)
    requires
        operation_added(n, m, graph, op, promoted).0.goes_on(),
        op.kind is Min,
    ensures
        n.halt is None,
        operation_added(n, m, graph, op, promoted) == elementwise_op(n, m, op, ElementWiseOperation::kMIN),
{
    reveal(operation_added);
}

pub(crate) proof fn relu_is_added(
    n: Run,
    m: Map<u32, Tensor>,
    graph: GraphInfo,
    op: Operation,
    promoted: Set<u32>,
)
    requires
        operation_added(n, m, graph, op, promoted).0.goes_on(),
        op.kind is Relu,
    ensures
        n.halt is None,
        operation_added(n, m, graph, op, promoted) == activation_op(n, m, op, ActivationType::kRELU),
{
    reveal(operation_added);
}

pub(crate) proof fn sigmoid_is_added(
    n: Run,
    m: Map<u32, Tensor>,
    graph: GraphInfo,
    op: Operation,
    promoted: Set<u32>,
)
    requires
        operation_added(n, m, graph, op, promoted).0.goes_on(),
        op.kind is Sigmoid,
    ensures
        n.halt is None,
        operation_added(n, m, graph, op, promoted) == activation_op(n, m, op, ActivationType::kSIGMOID),
{
    reveal(operation_added);
}

pub(crate) proof fn tanh_is_added(
    n: Run,
    m: Map<u32, Tensor>,
    graph: GraphInfo,
    op: Operation,
    promoted: Set<u32>,
)
    requires
        operation_added(n, m, graph, op, promoted).0.goes_on(),
        op.kind is Tanh,
    ensures
        n.halt is None,
        operation_added(n, m, graph, op, promoted) == activation_op(n, m, op, ActivationType::kTANH),
{
    reveal(operation_added);
}

pub(crate) proof fn elu_is_added(
    n: Run,
    m: Map<u32, Tensor>,
    graph: GraphInfo,
    op: Operation,
    promoted: Set<u32>,
)
    requires
        operation_added(n, m, graph, op, promoted).0.goes_on(),
        op.kind is Elu,
    ensures
        n.halt is None,
        operation_added(n, m, graph, op, promoted) == elu_op(n, m, graph, op),
{
    reveal(operation_added);
}

pub(crate) proof fn softsign_is_added(
    n: Run,
    m: Map<u32, Tensor>,
    graph: GraphInfo,
    op: Operation,
    promoted: Set<u32>,
)
    requires
        operation_added(n, m, graph, op, promoted).0.goes_on(),
        op.kind is Softsign,
    ensures
        n.halt is None,
        operation_added(n, m, graph, op, promoted) == activation_op(n, m, op, ActivationType::kSOFTSIGN),
{
    reveal(operation_added);
}

pub(crate) proof fn softplus_is_added(
    n: Run,
    m: Map<u32, Tensor>,
    graph: GraphInfo,
    op: Operation,
    promoted: Set<u32>,
)
    requires
        operation_added(n, m, graph, op, promoted).0.goes_on(),
        op.kind is Softplus,
    ensures
        n.halt is None,
        operation_added(n, m, graph, op, promoted) == activation_op(n, m, op, ActivationType::kSOFTPLUS),
{
    reveal(operation_added);
}

pub(crate) proof fn gelu_is_added(
    n: Run,
    m: Map<u32, Tensor>,
    graph: GraphInfo,
    op: Operation,
    promoted: Set<u32>,
)
    requires
        operation_added(n, m, graph, op, promoted).0.goes_on(),
        op.kind is Gelu,
    ensures
        n.halt is None,
        operation_added(n, m, graph, op, promoted) == activation_op(n, m, op, ActivationType::kGELU_ERF),
{
    reveal(operation_added);
}

pub(crate) proof fn leaky_relu_is_added(
    n: Run,
    m: Map<u32, Tensor>,
    graph: GraphInfo,
    op: Operation,
    promoted: Set<u32>,
)
    requires
        operation_added(n, m, graph, op, promoted).0.goes_on(),
        op.kind is LeakyRelu,
    ensures
        n.halt is None,
        operation_added(n, m, graph, op, promoted) == leaky_relu_op(n, m, graph, op),
{
    reveal(operation_added);
}

pub(crate) proof fn prelu_is_added(
    n: Run,
    m: Map<u32, Tensor>,
    graph: GraphInfo,
    op: Operation,
    promoted: Set<u32>,
)
    requires
        operation_added(n, m, graph, op, promoted).0.goes_on(),
        op.kind is Prelu,
    ensures
        n.halt is None,
        operation_added(n, m, graph, op, promoted) == prelu_op(n, m, op),
{
    reveal(operation_added);
}

pub(crate) proof fn hard_sigmoid_is_added(
    n: Run,
    m: Map<u32, Tensor>,
    graph: GraphInfo,
    op: Operation,
    promoted: Set<u32>,
)
    requires
        operation_added(n, m, graph, op, promoted).0.goes_on(),
        op.kind is HardSigmoid,
    ensures
        n.halt is None,
        operation_added(n, m, graph, op, promoted) == hard_sigmoid_op(n, m, graph, op),
{
    reveal(operation_added);
}

pub(crate) proof fn hard_swish_is_added(
    n: Run,
    m: Map<u32, Tensor>,
    graph: GraphInfo,
    op: Operation,
    promoted: Set<u32>,
)
    requires
        operation_added(n, m, graph, op, promoted).0.goes_on(),
        op.kind is HardSwish,
    ensures
        n.halt is None,
        operation_added(n, m, graph, op, promoted) == hard_swish_op(n, m, graph, op),
{
    reveal(operation_added);
}

pub(crate) proof fn exp_is_added(
    n: Run,
    m: Map<u32, Tensor>,
    graph: GraphInfo,
    op: Operation,
    promoted: Set<u32>,
)
    requires
        operation_added(n, m, graph, op, promoted).0.goes_on(),
        op.kind is Exp,
    ensures
        n.halt is None,
        operation_added(n, m, graph, op, promoted) == unary_op(n, m, op, UnaryOperation::kEXP),
{
    reveal(operation_added);
}

pub(crate) proof fn log_is_added(
    n: Run,
    m: Map<u32, Tensor>,
    graph: GraphInfo,
    op: Operation,
    promoted: Set<u32>,
)
    requires
        operation_added(n, m, graph, op, promoted).0.goes_on(),
        op.kind is Log,
    ensures
        n.halt is None,
        operation_added(n, m, graph, op, promoted) == unary_op(n, m, op, UnaryOperation::kLOG),
{
    reveal(operation_added);
}

pub(crate) proof fn sqrt_is_added(
    n: Run,
    m: Map<u32, Tensor>,
    graph: GraphInfo,
    op: Operation,
    promoted: Set<u32>,
)
    requires
        operation_added(n, m, graph, op, promoted).0.goes_on(),
        op.kind is Sqrt,
    ensures
        n.halt is None,
        operation_added(n, m, graph, op, promoted) == unary_op(n, m, op, UnaryOperation::kSQRT),
{
    reveal(operation_added);
}

pub(crate) proof fn reciprocal_is_added(
    n: Run,
    m: Map<u32, Tensor>,
    graph: GraphInfo,
    op: Operation,
    promoted: Set<u32>,
)
    requires
        operation_added(n, m, graph, op, promoted).0.goes_on(),
        op.kind is Reciprocal,
    ensures
        n.halt is None,
        operation_added(n, m, graph, op, promoted) == unary_op(n, m, op, UnaryOperation::kRECIP),
{
    reveal(operation_added);
}

pub(crate) proof fn abs_is_added(
    n: Run,
    m: Map<u32, Tensor>,
    graph: GraphInfo,
    op: Operation,
    promoted: Set<u32>,
)
    requires
        operation_added(n, m, graph, op, promoted).0.goes_on(),
        op.kind is Abs,
    ensures
        n.halt is None,
        operation_added(n, m, graph, op, promoted) == unary_op(n, m, op, UnaryOperation::kABS),
{
    reveal(operation_added);
}

pub(crate) proof fn neg_is_added(
    n: Run,
    m: Map<u32, Tensor>,
    graph: GraphInfo,
    op: Operation,
    promoted: Set<u32>,
)
    requires
        operation_added(n, m, graph, op, promoted).0.goes_on(),
        op.kind is Neg,
    ensures
        n.halt is None,
        operation_added(n, m, graph, op, promoted) == unary_op(n, m, op, UnaryOperation::kNEG),
{
    reveal(operation_added);
}

pub(crate) proof fn sin_is_added(
    n: Run,
    m: Map<u32, Tensor>,
    graph: GraphInfo,
    op: Operation,
    promoted: Set<u32>,
)
    requires
        operation_added(n, m, graph, op, promoted).0.goes_on(),
        op.kind is Sin,
    ensures
        n.halt is None,
        operation_added(n, m, graph, op, promoted) == unary_op(n, m, op, UnaryOperation::kSIN),
{
    reveal(operation_added);
}

pub(crate) proof fn cos_is_added(
    n: Run,
    m: Map<u32, Tensor>,
    graph: GraphInfo,
    op: Operation,
    promoted: Set<u32>,
)
    requires
        operation_added(n, m, graph, op, promoted).0.goes_on(),
        op.kind is Cos,
    ensures
        n.halt is None,
        operation_added(n, m, graph, op, promoted) == unary_op(n, m, op, UnaryOperation::kCOS),
{
    reveal(operation_added);
}

pub(crate) proof fn tan_is_added(
    n: Run,
    m: Map<u32, Tensor>,
    graph: GraphInfo,
    op: Operation,
    promoted: Set<u32>,
)
    requires
        operation_added(n, m, graph, op, promoted).0.goes_on(),
        op.kind is Tan,
    ensures
        n.halt is None,
        operation_added(n, m, graph, op, promoted) == unary_op(n, m, op, UnaryOperation::kTAN),
{
    reveal(operation_added);
}

pub(crate) proof fn ceil_is_added(
    n: Run,
    m: Map<u32, Tensor>,
    graph: GraphInfo,
    op: Operation,
    promoted: Set<u32>,
)
    requires
        operation_added(n, m, graph, op, promoted).0.goes_on(),
        op.kind is Ceil,
    ensures
        n.halt is None,
        operation_added(n, m, graph, op, promoted) == unary_op(n, m, op, UnaryOperation::kCEIL),
{
    reveal(operation_added);
}

pub(crate) proof fn floor_is_added(
    n: Run,
    m: Map<u32, Tensor>,
    graph: GraphInfo,
    op: Operation,
    promoted: Set<u32>,
)
    requires
        operation_added(n, m, graph, op, promoted).0.goes_on(),
        op.kind is Floor,
    ensures
        n.halt is None,
        operation_added(n, m, graph, op, promoted) == unary_op(n, m, op, UnaryOperation::kFLOOR),
{
    reveal(operation_added);
}

pub(crate) proof fn erf_is_added(
    n: Run,
    m: Map<u32, Tensor>,
    graph: GraphInfo,
    op: Operation,
    promoted: Set<u32>,
)
    requires
        operation_added(n, m, graph, op, promoted).0.goes_on(),
        op.kind is Erf,
    ensures
        n.halt is None,
        operation_added(n, m, graph, op, promoted) == unary_op(n, m, op, UnaryOperation::kERF),
{
    reveal(operation_added);
}

pub(crate) proof fn sign_is_added(
    n: Run,
    m: Map<u32, Tensor>,
    graph: GraphInfo,
    op: Operation,
    promoted: Set<u32>,
)
    requires
        operation_added(n, m, graph, op, promoted).0.goes_on(),
        op.kind is Sign,
    ensures
        n.halt is None,
        operation_added(n, m, graph, op, promoted) == unary_op(n, m, op, UnaryOperation::kSIGN),
{
    reveal(operation_added);
}

pub(crate) proof fn identity_is_added(
    n: Run,
    m: Map<u32, Tensor>,
    graph: GraphInfo,
    op: Operation,
    promoted: Set<u32>,
)
    requires
        operation_added(n, m, graph, op, promoted).0.goes_on(),
        op.kind is Identity,
    ensures
        n.halt is None,
        operation_added(n, m, graph, op, promoted) == identity_op(n, m, op),
{
    reveal(operation_added);
}

pub(crate) proof fn cast_is_added(
    n: Run,
    m: Map<u32, Tensor>,
    graph: GraphInfo,
    op: Operation,
    promoted: Set<u32>,
)
    requires
        operation_added(n, m, graph, op, promoted).0.goes_on(),
        op.kind is Cast,
    ensures
        n.halt is None,
        operation_added(n, m, graph, op, promoted) == cast_op(n, m, graph, op, promoted),
{
    reveal(operation_added);
}

pub(crate) proof fn quantize_linear_is_added(
    n: Run,
    m: Map<u32, Tensor>,
    graph: GraphInfo,
    op: Operation,
    promoted: Set<u32>,
)
    requires
        operation_added(n, m, graph, op, promoted).0.goes_on(),
        op.kind is QuantizeLinear,
    ensures
        n.halt is None,
        operation_added(n, m, graph, op, promoted) == quantize_linear_op(n, m, graph, op),
{
    reveal(operation_added);
}

pub(crate) proof fn dequantize_linear_is_added(
    n: Run,
    m: Map<u32, Tensor>,
    graph: GraphInfo,
    op: Operation,
    promoted: Set<u32>,
)
    requires
        operation_added(n, m, graph, op, promoted).0.goes_on(),
        op.kind is DequantizeLinear,
    ensures
        n.halt is None,
        operation_added(n, m, graph, op, promoted) == dequantize_linear_op(n, m, graph, op),
{
    reveal(operation_added);
}

pub(crate) proof fn matmul_is_added(
    n: Run,
    m: Map<u32, Tensor>,
    graph: GraphInfo,
    op: Operation,
    promoted: Set<u32>,
)
    requires
        operation_added(n, m, graph, op, promoted).0.goes_on(),
        op.kind is Matmul,
    ensures
        n.halt is None,
        operation_added(n, m, graph, op, promoted) == matmul_op(n, m, op),
{
    reveal(operation_added);
}

pub(crate) proof fn gemm_is_added(
    n: Run,
    m: Map<u32, Tensor>,
    graph: GraphInfo,
    op: Operation,
    promoted: Set<u32>,
)
    requires
        operation_added(n, m, graph, op, promoted).0.goes_on(),
        op.kind is Gemm,
    ensures
        n.halt is None,
        operation_added(n, m, graph, op, promoted) == gemm_op(n, m, graph, op),
{
    reveal(operation_added);
}

pub(crate) proof fn conv2d_is_added(
    n: Run,
    m: Map<u32, Tensor>,
    graph: GraphInfo,
    op: Operation,
    promoted: Set<u32>,
)
    requires
        operation_added(n, m, graph, op, promoted).0.goes_on(),
        op.kind is Conv2d,
    ensures
        n.halt is None,
        operation_added(n, m, graph, op, promoted) == conv2d_op(n, m, graph, op),
{
    reveal(operation_added);
}

pub(crate) proof fn conv_transpose2d_is_added(
    n: Run,
    m: Map<u32, Tensor>,
    graph: GraphInfo,
    op: Operation,
    promoted: Set<u32>,
)
    requires
        operation_added(n, m, graph, op, promoted).0.goes_on(),
        op.kind is ConvTranspose2d,
    ensures
        n.halt is None,
        operation_added(n, m, graph, op, promoted) == conv_transpose2d_op(n, m, graph, op),
{
    reveal(operation_added);
}

pub(crate) proof fn average_pool2d_is_added(
    n: Run,
    m: Map<u32, Tensor>,
    graph: GraphInfo,
    op: Operation,
    promoted: Set<u32>,
)
    requires
        operation_added(n, m, graph, op, promoted).0.goes_on(),
        op.kind is AveragePool2d,
    ensures
        n.halt is None,
        operation_added(n, m, graph, op, promoted) == pooling_op(n, m, graph, op, PoolingType::kAVERAGE),
{
    reveal(operation_added);
}

pub(crate) proof fn max_pool2d_is_added(
    n: Run,
    m: Map<u32, Tensor>,
    graph: GraphInfo,
    op: Operation,
    promoted: Set<u32>,
)
    requires
        operation_added(n, m, graph, op, promoted).0.goes_on(),
        op.kind is MaxPool2d,
    ensures
        n.halt is None,
        operation_added(n, m, graph, op, promoted) == pooling_op(n, m, graph, op, PoolingType::kMAX),
{
    reveal(operation_added);
}

pub(crate) proof fn global_average_pool_is_added(
    n: Run,
    m: Map<u32, Tensor>,
    graph: GraphInfo,
    op: Operation,
    promoted: Set<u32>,
)
    requires
        operation_added(n, m, graph, op, promoted).0.goes_on(),
        op.kind is GlobalAveragePool,
    ensures
        n.halt is None,
        operation_added(n, m, graph, op, promoted) == global_pooling_op(n, m, op, PoolingType::kAVERAGE),
{
    reveal(operation_added);
}

pub(crate) proof fn global_max_pool_is_added(
    n: Run,
    m: Map<u32, Tensor>,
    graph: GraphInfo,
    op: Operation,
    promoted: Set<u32>,
)
    requires
        operation_added(n, m, graph, op, promoted).0.goes_on(),
        op.kind is GlobalMaxPool,
    ensures
        n.halt is None,
        operation_added(n, m, graph, op, promoted) == global_pooling_op(n, m, op, PoolingType::kMAX),
{
    reveal(operation_added);
}

pub(crate) proof fn batch_normalization_is_added(
    n: Run,
    m: Map<u32, Tensor>,
    graph: GraphInfo,
    op: Operation,
    promoted: Set<u32>,
)
    requires
        operation_added(n, m, graph, op, promoted).0.goes_on(),
        op.kind is BatchNormalization,
    ensures
        n.halt is None,
        operation_added(n, m, graph, op, promoted) == batch_normalization_op(n, m, graph, op),
{
    reveal(operation_added);
}

pub(crate) proof fn instance_normalization_is_added(
    n: Run,
    m: Map<u32, Tensor>,
    graph: GraphInfo,
    op: Operation,
    promoted: Set<u32>,
)
    requires
        operation_added(n, m, graph, op, promoted).0.goes_on(),
        op.kind is InstanceNormalization,
    ensures
        n.halt is None,
        operation_added(n, m, graph, op, promoted) == instance_normalization_op(n, m, graph, op),
{
    reveal(operation_added);
}

pub(crate) proof fn layer_normalization_is_added(
    n: Run,
    m: Map<u32, Tensor>,
    graph: GraphInfo,
    op: Operation,
    promoted: Set<u32>,
)
    requires
        operation_added(n, m, graph, op, promoted).0.goes_on(),
        op.kind is LayerNormalization,
    ensures
        n.halt is None,
        operation_added(n, m, graph, op, promoted) == layer_normalization_op(n, m, graph, op),
{
    reveal(operation_added);
}

pub(crate) proof fn reduce_sum_is_added(
    n: Run,
    m: Map<u32, Tensor>,
    graph: GraphInfo,
    op: Operation,
    promoted: Set<u32>,
)
    requires
        operation_added(n, m, graph, op, promoted).0.goes_on(),
        op.kind is ReduceSum,
    ensures
        n.halt is None,
        operation_added(n, m, graph, op, promoted) == reduce_op(n, m, op, ReduceOperation::kSUM),
{
    reveal(operation_added);
}

pub(crate) proof fn reduce_mean_is_added(
    n: Run,
    m: Map<u32, Tensor>,
    graph: GraphInfo,
    op: Operation,
    promoted: Set<u32>,
)
    requires
        operation_added(n, m, graph, op, promoted).0.goes_on(),
        op.kind is ReduceMean,
    ensures
        n.halt is None,
        operation_added(n, m, graph, op, promoted) == reduce_op(n, m, op, ReduceOperation::kAVG),
{
    reveal(operation_added);
}

pub(crate) proof fn reduce_max_is_added(
    n: Run,
    m: Map<u32, Tensor>,
    graph: GraphInfo,
    op: Operation,
    promoted: Set<u32>,
)
    requires
        operation_added(n, m, graph, op, promoted).0.goes_on(),
        op.kind is ReduceMax,
    ensures
        n.halt is None,
        operation_added(n, m, graph, op, promoted) == reduce_op(n, m, op, ReduceOperation::kMAX),
{
    reveal(operation_added);
}

pub(crate) proof fn reduce_min_is_added(
    n: Run,
    m: Map<u32, Tensor>,
    graph: GraphInfo,
    op: Operation,
    promoted: Set<u32>,
)
    requires
        operation_added(n, m, graph, op, promoted).0.goes_on(),
        op.kind is ReduceMin,
    ensures
        n.halt is None,
        operation_added(n, m, graph, op, promoted) == reduce_op(n, m, op, ReduceOperation::kMIN),
{
    reveal(operation_added);
}

pub(crate) proof fn reduce_product_is_added(
    n: Run,
    m: Map<u32, Tensor>,
    graph: GraphInfo,
    op: Operation,
    promoted: Set<u32>,
)
    requires
        operation_added(n, m, graph, op, promoted).0.goes_on(),
        op.kind is ReduceProduct,
    ensures
        n.halt is None,
        operation_added(n, m, graph, op, promoted) == reduce_op(n, m, op, ReduceOperation::kPROD),
{
    reveal(operation_added);
}

pub(crate) proof fn reduce_l1_is_added(
    n: Run,
    m: Map<u32, Tensor>,
    graph: GraphInfo,
    op: Operation,
    promoted: Set<u32>,
)
    requires
        operation_added(n, m, graph, op, promoted).0.goes_on(),
        op.kind is ReduceL1,
    ensures
        n.halt is None,
        operation_added(n, m, graph, op, promoted) == reduce_l1_op(n, m, op),
{
    reveal(operation_added);
}

pub(crate) proof fn reduce_l2_is_added(
    n: Run,
    m: Map<u32, Tensor>,
    graph: GraphInfo,
    op: Operation,
    promoted: Set<u32>,
)
    requires
        operation_added(n, m, graph, op, promoted).0.goes_on(),
        op.kind is ReduceL2,
    ensures
        n.halt is None,
        operation_added(n, m, graph, op, promoted) == reduce_l2_op(n, m, graph, op),
{
    reveal(operation_added);
}

pub(crate) proof fn reduce_log_sum_is_added(
    n: Run,
    m: Map<u32, Tensor>,
    graph: GraphInfo,
    op: Operation,
    promoted: Set<u32>,
)
    requires
        operation_added(n, m, graph, op, promoted).0.goes_on(),
        op.kind is ReduceLogSum,
    ensures
        n.halt is None,
        operation_added(n, m, graph, op, promoted) == reduce_log_sum_op(n, m, op),
{
    reveal(operation_added);
}

pub(crate) proof fn reduce_log_sum_exp_is_added(
    n: Run,
    m: Map<u32, Tensor>,
    graph: GraphInfo,
    op: Operation,
    promoted: Set<u32>,
)
    requires
        operation_added(n, m, graph, op, promoted).0.goes_on(),
        op.kind is ReduceLogSumExp,
    ensures
        n.halt is None,
        operation_added(n, m, graph, op, promoted) == reduce_log_sum_exp_op(n, m, op),
{
    reveal(operation_added);
}

pub(crate) proof fn reduce_sum_square_is_added(
    n: Run,
    m: Map<u32, Tensor>,
    graph: GraphInfo,
    op: Operation,
    promoted: Set<u32>,
)
    requires
        operation_added(n, m, graph, op, promoted).0.goes_on(),
        op.kind is ReduceSumSquare,
    ensures
        n.halt is None,
        operation_added(n, m, graph, op, promoted) == reduce_sum_square_op(n, m, op),
{
    reveal(operation_added);
}

pub(crate) proof fn slice_is_added(
    n: Run,
    m: Map<u32, Tensor>,
    graph: GraphInfo,
    op: Operation,
    promoted: Set<u32>,
)
    requires
        operation_added(n, m, graph, op, promoted).0.goes_on(),
        op.kind is Slice,
    ensures
        n.halt is None,
        operation_added(n, m, graph, op, promoted) == slice_op(n, m, op),
{
    reveal(operation_added);
}

pub(crate) proof fn split_is_added(
    n: Run,
    m: Map<u32, Tensor>,
    graph: GraphInfo,
    op: Operation,
    promoted: Set<u32>,
)
    requires
        operation_added(n, m, graph, op, promoted).0.goes_on(),
        op.kind is Split,
    ensures
        n.halt is None,
        operation_added(n, m, graph, op, promoted) == split_op(n, m, op),
{
    reveal(operation_added);
}

pub(crate) proof fn squeeze_is_added(
    n: Run,
    m: Map<u32, Tensor>,
    graph: GraphInfo,
    op: Operation,
    promoted: Set<u32>,
)
    requires
        operation_added(n, m, graph, op, promoted).0.goes_on(),
        op.kind is Squeeze,
    ensures
        n.halt is None,
        operation_added(n, m, graph, op, promoted) == squeeze_op(n, m, op),
{
    reveal(operation_added);
}

pub(crate) proof fn unsqueeze_is_added(
    n: Run,
    m: Map<u32, Tensor>,
    graph: GraphInfo,
    op: Operation,
    promoted: Set<u32>,
)
    requires
        operation_added(n, m, graph, op, promoted).0.goes_on(),
        op.kind is Unsqueeze,
    ensures
        n.halt is None,
        operation_added(n, m, graph, op, promoted) == unsqueeze_op(n, m, op),
{
    reveal(operation_added);
}

pub(crate) proof fn expand_is_added(
    n: Run,
    m: Map<u32, Tensor>,
    graph: GraphInfo,
    op: Operation,
    promoted: Set<u32>,
)
    requires
        operation_added(n, m, graph, op, promoted).0.goes_on(),
        op.kind is Expand,
    ensures
        n.halt is None,
        operation_added(n, m, graph, op, promoted) == expand_op(n, m, graph, op),
{
    reveal(operation_added);
}

pub(crate) proof fn tile_is_added(
    n: Run,
    m: Map<u32, Tensor>,
    graph: GraphInfo,
    op: Operation,
    promoted: Set<u32>,
)
    requires
        operation_added(n, m, graph, op, promoted).0.goes_on(),
        op.kind is Tile,
    ensures
        n.halt is None,
        operation_added(n, m, graph, op, promoted) == tile_op(n, m, op),
{
    reveal(operation_added);
}

pub(crate) proof fn equal_is_added(
    n: Run,
    m: Map<u32, Tensor>,
    graph: GraphInfo,
    op: Operation,
    promoted: Set<u32>,
)
    requires
        operation_added(n, m, graph, op, promoted).0.goes_on(),
        op.kind is Equal,
    ensures
        n.halt is None,
        operation_added(n, m, graph, op, promoted) == comparison_op(n, m, op, ElementWiseOperation::kEQUAL),
{
    reveal(operation_added);
}

pub(crate) proof fn greater_is_added(
    n: Run,
    m: Map<u32, Tensor>,
    graph: GraphInfo,
    op: Operation,
    promoted: Set<u32>,
)
    requires
        operation_added(n, m, graph, op, promoted).0.goes_on(),
        op.kind is Greater,
    ensures
        n.halt is None,
        operation_added(n, m, graph, op, promoted) == comparison_op(n, m, op, ElementWiseOperation::kGREATER),
{
    reveal(operation_added);
}

pub(crate) proof fn greater_or_equal_is_added(
    n: Run,
    m: Map<u32, Tensor>,
    graph: GraphInfo,
    op: Operation,
    promoted: Set<u32>,
)
    requires
        operation_added(n, m, graph, op, promoted).0.goes_on(),
        op.kind is GreaterOrEqual,
    ensures
        n.halt is None,
        operation_added(n, m, graph, op, promoted) == greater_or_equal_op(n, m, op),
{
    reveal(operation_added);
}

pub(crate) proof fn lesser_is_added(
    n: Run,
    m: Map<u32, Tensor>,
    graph: GraphInfo,
    op: Operation,
    promoted: Set<u32>,
)
    requires
        operation_added(n, m, graph, op, promoted).0.goes_on(),
        op.kind is Lesser,
    ensures
        n.halt is None,
        operation_added(n, m, graph, op, promoted) == comparison_op(n, m, op, ElementWiseOperation::kLESS),
{
    reveal(operation_added);
}

pub(crate) proof fn lesser_or_equal_is_added(
    n: Run,
    m: Map<u32, Tensor>,
    graph: GraphInfo,
    op: Operation,
    promoted: Set<u32>,
)
    requires
        operation_added(n, m, graph, op, promoted).0.goes_on(),
        op.kind is LesserOrEqual,
    ensures
        n.halt is None,
        operation_added(n, m, graph, op, promoted) == lesser_or_equal_op(n, m, op),
{
    reveal(operation_added);
}

pub(crate) proof fn not_equal_is_added(
    n: Run,
    m: Map<u32, Tensor>,
    graph: GraphInfo,
    op: Operation,
    promoted: Set<u32>,
)
    requires
        operation_added(n, m, graph, op, promoted).0.goes_on(),
        op.kind is NotEqual,
    ensures
        n.halt is None,
        operation_added(n, m, graph, op, promoted) == not_equal_op(n, m, op),
{
    reveal(operation_added);
}

pub(crate) proof fn logical_and_is_added(
    n: Run,
    m: Map<u32, Tensor>,
    graph: GraphInfo,
    op: Operation,
    promoted: Set<u32>,
)
    requires
        operation_added(n, m, graph, op, promoted).0.goes_on(),
        op.kind is LogicalAnd,
    ensures
        n.halt is None,
        operation_added(n, m, graph, op, promoted) == logical_binary_op(n, m, graph, op, ElementWiseOperation::kAND),
{
    reveal(operation_added);
}

pub(crate) proof fn logical_or_is_added(
    n: Run,
    m: Map<u32, Tensor>,
    graph: GraphInfo,
    op: Operation,
    promoted: Set<u32>,
)
    requires
        operation_added(n, m, graph, op, promoted).0.goes_on(),
        op.kind is LogicalOr,
    ensures
        n.halt is None,
        operation_added(n, m, graph, op, promoted) == logical_binary_op(n, m, graph, op, ElementWiseOperation::kOR),
{
    reveal(operation_added);
}

pub(crate) proof fn logical_xor_is_added(
    n: Run,
    m: Map<u32, Tensor>,
    graph: GraphInfo,
    op: Operation,
    promoted: Set<u32>,
)
    requires
        operation_added(n, m, graph, op, promoted).0.goes_on(),
        op.kind is LogicalXor,
    ensures
        n.halt is None,
        operation_added(n, m, graph, op, promoted) == logical_binary_op(n, m, graph, op, ElementWiseOperation::kXOR),
{
    reveal(operation_added);
}

pub(crate) proof fn logical_not_is_added(
    n: Run,
    m: Map<u32, Tensor>,
    graph: GraphInfo,
    op: Operation,
    promoted: Set<u32>,
)
    requires
        operation_added(n, m, graph, op, promoted).0.goes_on(),
        op.kind is LogicalNot,
    ensures
        n.halt is None,
        operation_added(n, m, graph, op, promoted) == logical_not_op(n, m, graph, op),
{
    reveal(operation_added);
}

pub(crate) proof fn gather_is_added(
    n: Run,
    m: Map<u32, Tensor>,
    graph: GraphInfo,
    op: Operation,
    promoted: Set<u32>,
)
    requires
        operation_added(n, m, graph, op, promoted).0.goes_on(),
        op.kind is Gather,
    ensures
        n.halt is None,
        operation_added(n, m, graph, op, promoted) == gather_op(n, m, graph, op),
{
    reveal(operation_added);
}

pub(crate) proof fn gather_nd_is_added(
    n: Run,
    m: Map<u32, Tensor>,
    graph: GraphInfo,
    op: Operation,
    promoted: Set<u32>,
)
    requires
        operation_added(n, m, graph, op, promoted).0.goes_on(),
        op.kind is GatherND,
    ensures
        n.halt is None,
        operation_added(n, m, graph, op, promoted) == gather_nd_op(n, m, graph, op),
{
    reveal(operation_added);
}

pub(crate) proof fn scatter_elements_is_added(
    n: Run,
    m: Map<u32, Tensor>,
    graph: GraphInfo,
    op: Operation,
    promoted: Set<u32>,
)
    requires
        operation_added(n, m, graph, op, promoted).0.goes_on(),
        op.kind is ScatterElements,
    ensures
        n.halt is None,
        operation_added(n, m, graph, op, promoted) == scatter_elements_op(n, m, op),
{
    reveal(operation_added);
}

pub(crate) proof fn scatter_nd_is_added(
    n: Run,
    m: Map<u32, Tensor>,
    graph: GraphInfo,
    op: Operation,
    promoted: Set<u32>,
)
    requires
        operation_added(n, m, graph, op, promoted).0.goes_on(),
        op.kind is ScatterND,
    ensures
        n.halt is None,
        operation_added(n, m, graph, op, promoted) == scatter_nd_op(n, m, op),
{
    reveal(operation_added);
}

pub(crate) proof fn arg_max_is_added(
    n: Run,
    m: Map<u32, Tensor>,
    graph: GraphInfo,
    op: Operation,
    promoted: Set<u32>,
)
    requires
        operation_added(n, m, graph, op, promoted).0.goes_on(),
        op.kind is ArgMax,
    ensures
        n.halt is None,
        operation_added(n, m, graph, op, promoted) == arg_max_op(n, m, graph, op),
{
    reveal(operation_added);
}

pub(crate) proof fn arg_min_is_added(
    n: Run,
    m: Map<u32, Tensor>,
    graph: GraphInfo,
    op: Operation,
    promoted: Set<u32>,
)
    requires
        operation_added(n, m, graph, op, promoted).0.goes_on(),
        op.kind is ArgMin,
    ensures
        n.halt is None,
        operation_added(n, m, graph, op, promoted) == arg_min_op(n, m, graph, op),
{
    reveal(operation_added);
}

pub(crate) proof fn clamp_is_added(
    n: Run,
    m: Map<u32, Tensor>,
    graph: GraphInfo,
    op: Operation,
    promoted: Set<u32>,
)
    requires
        operation_added(n, m, graph, op, promoted).0.goes_on(),
        op.kind is Clamp,
    ensures
        n.halt is None,
        operation_added(n, m, graph, op, promoted) == clamp_op(n, m, graph, op),
{
    reveal(operation_added);
}

pub(crate) proof fn where_is_added(
    n: Run,
    m: Map<u32, Tensor>,
    graph: GraphInfo,
    op: Operation,
    promoted: Set<u32>,
)
    requires
        operation_added(n, m, graph, op, promoted).0.goes_on(),
        op.kind is Where,
    ensures
        n.halt is None,
        operation_added(n, m, graph, op, promoted) == where_op(n, m, graph, op),
{
    reveal(operation_added);
}

pub(crate) proof fn linear_is_added(
    n: Run,
    m: Map<u32, Tensor>,
    graph: GraphInfo,
    op: Operation,
    promoted: Set<u32>,
)
    requires
        operation_added(n, m, graph, op, promoted).0.goes_on(),
        op.kind is Linear,
    ensures
        n.halt is None,
        operation_added(n, m, graph, op, promoted) == linear_op(n, m, graph, op),
{
    reveal(operation_added);
}

pub(crate) proof fn pad_is_added(
    n: Run,
    m: Map<u32, Tensor>,
    graph: GraphInfo,
    op: Operation,
    promoted: Set<u32>,
)
    requires
        operation_added(n, m, graph, op, promoted).0.goes_on(),
        op.kind is Pad,
    ensures
        n.halt is None,
        operation_added(n, m, graph, op, promoted) == pad_op(n, m, op),
{
    reveal(operation_added);
}

pub(crate) proof fn softmax_is_added(
    n: Run,
    m: Map<u32, Tensor>,
    graph: GraphInfo,
    op: Operation,
    promoted: Set<u32>,
)
    requires
        operation_added(n, m, graph, op, promoted).0.goes_on(),
        op.kind is Softmax,
    ensures
        n.halt is None,
        operation_added(n, m, graph, op, promoted) == softmax_op(n, m, op),
{
    reveal(operation_added);
}

pub(crate) proof fn concat_is_added(
    n: Run,
    m: Map<u32, Tensor>,
    graph: GraphInfo,
    op: Operation,
    promoted: Set<u32>,
)
    requires
        operation_added(n, m, graph, op, promoted).0.goes_on(),
        op.kind is Concat,
    ensures
        n.halt is None,
        operation_added(n, m, graph, op, promoted) == concat_op(n, m, op),
{
    reveal(operation_added);
}

pub(crate) proof fn is_nan_is_added(
    n: Run,
    m: Map<u32, Tensor>,
    graph: GraphInfo,
    op: Operation,
    promoted: Set<u32>,
)
    requires
        operation_added(n, m, graph, op, promoted).0.goes_on(),
        op.kind is IsNaN,
    ensures
        n.halt is None,
        operation_added(n, m, graph, op, promoted) == is_nan_op(n, m, op),
{
    reveal(operation_added);
}

pub(crate) proof fn is_infinite_is_added(
    n: Run,
    m: Map<u32, Tensor>,
    graph: GraphInfo,
    op: Operation,
    promoted: Set<u32>,
)
    requires
        operation_added(n, m, graph, op, promoted).0.goes_on(),
        op.kind is IsInfinite,
    ensures
        n.halt is None,
        operation_added(n, m, graph, op, promoted) == is_infinite_op(n, m, op),
{
    reveal(operation_added);
}

pub(crate) proof fn round_even_is_added(
    n: Run,
    m: Map<u32, Tensor>,
    graph: GraphInfo,
    op: Operation,
    promoted: Set<u32>,
)
    requires
        operation_added(n, m, graph, op, promoted).0.goes_on(),
        op.kind is RoundEven,
    ensures
        n.halt is None,
        operation_added(n, m, graph, op, promoted) == round_even_op(n, m, op),
{
    reveal(operation_added);
}

pub(crate) proof fn gather_elements_is_added(
    n: Run,
    m: Map<u32, Tensor>,
    graph: GraphInfo,
    op: Operation,
    promoted: Set<u32>,
)
    requires
        operation_added(n, m, graph, op, promoted).0.goes_on(),
        op.kind is GatherElements,
    ensures
        n.halt is None,
        operation_added(n, m, graph, op, promoted) == gather_elements_op(n, m, graph, op),
{
    reveal(operation_added);
}

pub(crate) proof fn l2_pool2d_is_added(
    n: Run,
    m: Map<u32, Tensor>,
    graph: GraphInfo,
    op: Operation,
    promoted: Set<u32>,
)
    requires
        operation_added(n, m, graph, op, promoted).0.goes_on(),
        op.kind is L2Pool2d,
    ensures
        n.halt is None,
        operation_added(n, m, graph, op, promoted) == l2_pool2d_op(n, m, graph, op),
{
    reveal(operation_added);
}

pub(crate) proof fn reverse_is_added(
    n: Run,
    m: Map<u32, Tensor>,
    graph: GraphInfo,
    op: Operation,
    promoted: Set<u32>,
)
    requires
        operation_added(n, m, graph, op, promoted).0.goes_on(),
        op.kind is Reverse,
    ensures
        n.halt is None,
        operation_added(n, m, graph, op, promoted) == reverse_op(n, m, graph, op),
{
    reveal(operation_added);
}

pub(crate) proof fn cumulative_sum_is_added(
    n: Run,
    m: Map<u32, Tensor>,
    graph: GraphInfo,
    op: Operation,
    promoted: Set<u32>,
)
    requires
        operation_added(n, m, graph, op, promoted).0.goes_on(),
        op.kind is CumulativeSum,
    ensures
        n.halt is None,
        operation_added(n, m, graph, op, promoted) == cumulative_sum_op(n, m, graph, op),
{
    reveal(operation_added);
}

pub(crate) proof fn triangular_is_added(
    n: Run,
    m: Map<u32, Tensor>,
    graph: GraphInfo,
    op: Operation,
    promoted: Set<u32>,
)
    requires
        operation_added(n, m, graph, op, promoted).0.goes_on(),
        op.kind is Triangular,
    ensures
        n.halt is None,
        operation_added(n, m, graph, op, promoted) == triangular_op(n, m, graph, op),
{
    reveal(operation_added);
}

pub(crate) proof fn transpose_is_added(
    n: Run,
    m: Map<u32, Tensor>,
    graph: GraphInfo,
    op: Operation,
    promoted: Set<u32>,
)
    requires
        operation_added(n, m, graph, op, promoted).0.goes_on(),
        op.kind is Transpose,
    ensures
        n.halt is None,
        operation_added(n, m, graph, op, promoted) == transpose_op(n, m, op),
{
    reveal(operation_added);
}

pub(crate) proof fn reshape_is_added(
    n: Run,
    m: Map<u32, Tensor>,
    graph: GraphInfo,
    op: Operation,
    promoted: Set<u32>,
)
    requires
        operation_added(n, m, graph, op, promoted).0.goes_on(),
        op.kind is Reshape,
    ensures
        n.halt is None,
        operation_added(n, m, graph, op, promoted) == reshape_op(n, m, op),
{
    reveal(operation_added);
}

pub(crate) proof fn resample2d_is_added(
    n: Run,
    m: Map<u32, Tensor>,
    graph: GraphInfo,
    op: Operation,
    promoted: Set<u32>,
)
    requires
        operation_added(n, m, graph, op, promoted).0.goes_on(),
        op.kind is Resample2d,
    ensures
        n.halt is None,
        operation_added(n, m, graph, op, promoted) == resample2d_op(n, m, graph, op),
{
    reveal(operation_added);
}

} // verus!
