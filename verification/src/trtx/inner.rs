//! Constants and operations work inside the network: they add no input to it and mark no output.

use crate::data_type::DataType;
use crate::graph::GraphInfo;
use crate::operator_options::FloatReading;
use crate::operators::Operation;
use crate::scalar::{Known, Scalar};
use crate::trtx::arrange::{
    concat_op, expand_op, found_inputs, resample2d_op, resample_sizes, resampled, reshape_op,
    reverse_op, scaled_extent, slice_op, split_op, split_part, split_parts, squeeze_op, tile_axes,
    tile_axis, tile_op, transpose_op, unsqueeze_op,
};
use crate::trtx::broadcast::{
    broadcast_pair, broadcast_to, int32_to_float32, scalar_shape, static_sizes, to_bool,
    to_float16, to_float32,
};
use crate::trtx::conv::{
    adjusted, check_bias, conv2d_op, conv_filter, conv_parameters, conv_result, conv_source,
    conv_transpose2d_op, conv_weights, convolved, deconvolved, fitted, ConvPlan, FilterPlan,
};
use crate::trtx::elementwise::{
    activation_op, binary_inputs, comparison_op, elementwise_op, elu_op, greater_or_equal_op,
    hard_sigmoid_op, hard_swish_op, identity_op, is_infinite_op, is_nan_op, leaky_relu_op,
    lesser_or_equal_op, linear_op, logical_binary_op, not_equal_op, prelu_op, promoted,
    round_even_op, unary_op,
};
use crate::trtx::matrix::{gemm_op, matmul_op, raised, scaled, summed};
use crate::trtx::network::{constant_added, operation_added};
use crate::trtx::normalization::{
    batch_normalization_op, channel_stats, filled, guarded_variance, instance_normalization_op,
    instance_normalized, layer_bias, layer_norm_of_scalar, layer_norm_over_nothing,
    layer_normalization_op, layer_normalized, layer_parameter,
};
use crate::trtx::pad::{
    filler, pad_axes, pad_axis, pad_axis_constant, pad_axis_edge, pad_axis_reflect, pad_last_axes,
    pad_op, slab, slabs, PadMode,
};
use crate::trtx::pool::{
    average_pool_dilated, cell, cells, channels_last, channels_second, combine, combined,
    dilated_extents, dilated_pool, dilated_result, global_pooling_op, grid_row, grid_rows, joined,
    l2_pool2d_op, l2_pool_dilated, max_pool_dilated, outside_constant, pool_settings, pool_window,
    pooled_dilated, pooling_op, rounds_up, summed_squares, tap, taps, Dilated, Grid, PoolPlan,
};
use crate::trtx::quantize::{
    aligned, block_axes, block_axis, block_part, block_parts, byte_values, bytes_to_float,
    cast_op, clamped_to, dequantize_linear_op, dequantize_zero, floats_to_int32, in_type,
    is_scalar, logical_not_op, prepended, quantize_linear_op, quantize_zero, quantized,
    truth_constant, unsigned_reading, with_axis,
};
use crate::trtx::reduce::{
    over_axes, reduce_l1_op, reduce_l2_op, reduce_log_sum_exp_op, reduce_log_sum_op, reduce_op,
    reduce_sum_square_op,
};
use crate::trtx::select::{
    arg_max_op, arg_min_op, arg_reduced, clamp_op, cumulative_sum_op, extreme_positions,
    gather_elements_indices, gather_elements_op, gather_indices, gather_nd_indices, gather_nd_op,
    gather_op, scatter_elements_op, scatter_nd_op, softmax_op, triangular_op, where_op,
};
use crate::trtx::session::{HaltView, RequestView, Run};
use crate::trtx::shapes::{elements, mask};
use crate::trtx::types::{
    ActivationType, ElementWiseOperation, MatrixOperation, PoolingType, ReduceOperation,
    ResizeMode, Tensor, TopKOperation, TrtDataType, UnaryOperation,
};
use vstd::prelude::*;

verus! {

/// Whether a request neither adds an input nor marks an output.
pub open spec fn is_inner(request: RequestView) -> bool {
    !(request is AddInput) && !(request is MarkOutput)
}

impl Run {
    /// Whether this conversation comes of another by requests that neither add an input nor mark an
    /// output.
    #[verifier::opaque]
    pub open spec fn works(self, from: Run) -> bool {
        &&& from.requests.len() <= self.requests.len()
        &&& self.requests.take(from.requests.len() as int) == from.requests
        &&& forall|i: int|
            from.requests.len() <= i < self.requests.len() ==> is_inner(#[trigger] self.requests[i])
    }
}

pub(crate) broadcast proof fn works_not(n: Run)
    ensures
        #[trigger] n.works(n),
{
    reveal(Run::works);
    assert(n.requests.take(n.requests.len() as int) =~= n.requests);
}

pub(crate) broadcast proof fn works_on(a: Run, b: Run, c: Run)
    requires
        #[trigger] b.works(a),
        #[trigger] c.works(b),
    ensures
        c.works(a),
{
    reveal(Run::works);
    assert(c.requests.take(a.requests.len() as int) =~= b.requests.take(
        a.requests.len() as int,
    ));
    assert forall|i: int| a.requests.len() <= i < c.requests.len() implies is_inner(
        #[trigger] c.requests[i],
    ) by {
        if i < b.requests.len() {
            assert(c.requests.take(b.requests.len() as int)[i] == b.requests[i]);
        }
    }
}

pub(crate) broadcast proof fn works_ask(n: Run, request: RequestView, label: Seq<char>)
    requires
        is_inner(request),
    ensures
        (#[trigger] n.ask(request, label)).0.works(n),
{
    reveal(Run::ask);
    reveal(Run::works);
    let asked = n.requests.push(request);
    assert(asked.take(n.requests.len() as int) =~= n.requests);
    assert(n.requests.take(n.requests.len() as int) =~= n.requests);
}

pub(crate) broadcast proof fn works_infer(n: Run, request: RequestView)
    requires
        is_inner(request),
    ensures
        (#[trigger] n.infer(request)).0.works(n),
{
    reveal(Run::infer);
    reveal(Run::works);
    let asked = n.requests.push(request);
    assert(asked.take(n.requests.len() as int) =~= n.requests);
    assert(n.requests.take(n.requests.len() as int) =~= n.requests);
}

pub(crate) broadcast proof fn works_tell(n: Run, request: RequestView)
    requires
        is_inner(request),
    ensures
        (#[trigger] n.tell(request)).works(n),
{
    reveal(Run::tell);
    reveal(Run::works);
    let asked = n.requests.push(request);
    assert(asked.take(n.requests.len() as int) =~= n.requests);
    assert(n.requests.take(n.requests.len() as int) =~= n.requests);
}

pub(crate) broadcast proof fn works_stop(n: Run, why: HaltView)
    ensures
        (#[trigger] n.stop(why)).works(n),
{
    reveal(Run::works);
    assert(n.requests.take(n.requests.len() as int) =~= n.requests);
}

pub(crate) broadcast proof fn works_dims(n: Run, tensor: Tensor, label: Seq<char>)
    ensures
        (#[trigger] n.dims(tensor, label)).0.works(n),
{
    broadcast use {works_not, works_stop};

    reveal(Run::dims);
}

pub broadcast group group_works {
    works_not,
    works_on,
    works_ask,
    works_infer,
    works_tell,
    works_stop,
    works_dims,
}

pub(crate) broadcast proof fn works_step_output(n: Run, layer: usize, label: Seq<char>)
    ensures
        (#[trigger] n.output(layer, label)).0.works(n),
{
    broadcast use group_works;

    reveal(Run::output);
}

pub(crate) broadcast proof fn works_step_layer(
    n: Run,
    request: RequestView,
    add_label: Seq<char>,
    output_label: Seq<char>,
)
    requires
        is_inner(request),
    ensures
        (#[trigger] n.layer(request, add_label, output_label)).0.works(n),
{
    broadcast use {group_works, works_step_output};

    reveal(Run::layer);
}

pub(crate) broadcast proof fn works_step_identity(
    n: Run,
    input: Tensor,
    add_label: Seq<char>,
    output_label: Seq<char>,
)
    ensures
        (#[trigger] n.identity(input, add_label, output_label)).0.works(n),
{
    broadcast use {group_works, works_step_layer};

    reveal(Run::identity);
}

pub(crate) broadcast proof fn works_step_slice(
    n: Run,
    input: Tensor,
    start: Seq<i64>,
    size: Seq<i64>,
    stride: Seq<i64>,
    add_label: Seq<char>,
    output_label: Seq<char>,
)
    ensures
        (#[trigger] n.slice(input, start, size, stride, add_label, output_label)).0.works(n),
{
    broadcast use {group_works, works_step_layer};

    reveal(Run::slice);
}

pub(crate) broadcast proof fn works_slice_op(n: Run, m: Map<u32, Tensor>, op: Operation)
    ensures
        (#[trigger] slice_op(n, m, op)).0.works(n),
{
    broadcast use {group_works, works_step_identity, works_step_slice};

}

pub(crate) broadcast proof fn works_split_part(
    n: Run,
    m: Map<u32, Tensor>,
    op: Operation,
    d: Seq<i64>,
    axis: nat,
    sizes: Seq<i32>,
    k: nat,
)
    ensures
        (#[trigger] split_part(n, m, op, d, axis, sizes, k)).0.works(n),
{
    broadcast use {group_works, works_step_slice};

}

pub(crate) broadcast proof fn works_split_parts(
    n: Run,
    m: Map<u32, Tensor>,
    op: Operation,
    d: Seq<i64>,
    axis: nat,
    sizes: Seq<i32>,
    k: nat,
)
    ensures
        (#[trigger] split_parts(n, m, op, d, axis, sizes, k)).0.works(n),
    decreases k,
{
    broadcast use {group_works, works_split_part};

    if k > 0 {
        works_split_parts(n, m, op, d, axis, sizes, (k - 1) as nat);
    }
}

pub(crate) broadcast proof fn works_split_op(n: Run, m: Map<u32, Tensor>, op: Operation)
    ensures
        (#[trigger] split_op(n, m, op)).0.works(n),
{
    broadcast use {group_works, works_split_parts};

}

pub(crate) broadcast proof fn works_step_reshape(
    n: Run,
    input: Tensor,
    dims: Seq<i64>,
    add_label: Seq<char>,
    set_label: Seq<char>,
    output_label: Seq<char>,
)
    ensures
        (#[trigger] n.reshape(input, dims, add_label, set_label, output_label)).0.works(n),
{
    broadcast use {group_works, works_step_output};

    reveal(Run::reshape);
}

pub(crate) broadcast proof fn works_squeeze_op(n: Run, m: Map<u32, Tensor>, op: Operation)
    ensures
        (#[trigger] squeeze_op(n, m, op)).0.works(n),
{
    broadcast use {group_works, works_step_reshape};

}

pub(crate) broadcast proof fn works_unsqueeze_op(n: Run, m: Map<u32, Tensor>, op: Operation)
    ensures
        (#[trigger] unsqueeze_op(n, m, op)).0.works(n),
{
    broadcast use {group_works, works_step_reshape};

}

pub(crate) broadcast proof fn works_elements(n: Run, dims: Seq<i64>)
    ensures
        (#[trigger] elements(n, dims)).0.works(n),
{
    broadcast use group_works;

}

pub(crate) broadcast proof fn works_step_add_constant(
    n: Run,
    dims: Seq<i64>,
    bytes: Seq<u8>,
    dtype: TrtDataType,
    label: Seq<char>,
)
    ensures
        (#[trigger] n.add_constant(dims, bytes, dtype, label)).0.works(n),
{
    broadcast use group_works;

    reveal(Run::add_constant);
}

pub(crate) broadcast proof fn works_step_constant(
    n: Run,
    dims: Seq<i64>,
    bytes: Seq<u8>,
    dtype: TrtDataType,
    add_label: Seq<char>,
    output_label: Seq<char>,
)
    ensures
        (#[trigger] n.constant(dims, bytes, dtype, add_label, output_label)).0.works(n),
{
    broadcast use {group_works, works_step_add_constant, works_step_output};

    reveal(Run::constant);
}

pub(crate) broadcast proof fn works_step_resize(
    n: Run,
    input: Tensor,
    dims: Seq<i64>,
    add_label: Seq<char>,
    output_label: Seq<char>,
)
    ensures
        (#[trigger] n.resize(input, dims, add_label, output_label)).0.works(n),
{
    broadcast use {group_works, works_step_output};

    reveal(Run::resize);
}

pub(crate) broadcast proof fn works_broadcast_pair(
    n: Run,
    t0: Tensor,
    t1: Tensor,
    op_name: Seq<char>,
)
    ensures
        (#[trigger] broadcast_pair(n, t0, t1, op_name)).0.works(n),
{
    broadcast use {group_works, works_step_resize, works_step_identity, works_step_reshape};

    reveal(broadcast_pair);
}

pub(crate) broadcast proof fn works_step_elementwise(
    n: Run,
    a: Tensor,
    b: Tensor,
    op: ElementWiseOperation,
    add_label: Seq<char>,
    output_label: Seq<char>,
)
    ensures
        (#[trigger] n.elementwise(a, b, op, add_label, output_label)).0.works(n),
{
    broadcast use {group_works, works_step_layer};

    reveal(Run::elementwise);
}

pub(crate) broadcast proof fn works_expand_op(
    n: Run,
    m: Map<u32, Tensor>,
    graph: GraphInfo,
    op: Operation,
)
    ensures
        (#[trigger] expand_op(n, m, graph, op)).0.works(n),
{
    broadcast use {
        group_works, works_elements, works_step_constant, works_broadcast_pair,
        works_step_elementwise,
    };

}

pub(crate) broadcast proof fn works_step_concat(
    n: Run,
    inputs: Seq<Tensor>,
    axis: i32,
    add_label: Seq<char>,
    output_label: Seq<char>,
)
    ensures
        (#[trigger] n.concat(inputs, axis, add_label, output_label)).0.works(n),
{
    broadcast use {group_works, works_step_output};

    reveal(Run::concat);
}

pub(crate) broadcast proof fn works_tile_axis(n: Run, t: Tensor, axis: nat, count: u32)
    ensures
        (#[trigger] tile_axis(n, t, axis, count)).0.works(n),
{
    broadcast use {group_works, works_step_concat};

}

pub(crate) broadcast proof fn works_tile_axes(n: Run, x: Tensor, counts: Seq<u32>, k: nat)
    ensures
        (#[trigger] tile_axes(n, x, counts, k)).0.works(n),
    decreases k,
{
    broadcast use {group_works, works_tile_axis};

    if k > 0 {
        works_tile_axes(n, x, counts, (k - 1) as nat);
    }
}

pub(crate) broadcast proof fn works_tile_op(n: Run, m: Map<u32, Tensor>, op: Operation)
    ensures
        (#[trigger] tile_op(n, m, op)).0.works(n),
{
    broadcast use {group_works, works_tile_axes, works_step_identity};

}

pub(crate) broadcast proof fn works_found_inputs(n: Run, m: Map<u32, Tensor>, ids: Seq<u32>, k: nat)
    ensures
        (#[trigger] found_inputs(n, m, ids, k)).0.works(n),
    decreases k,
{
    broadcast use group_works;

    if k > 0 {
        works_found_inputs(n, m, ids, (k - 1) as nat);
    }
}

pub(crate) broadcast proof fn works_concat_op(n: Run, m: Map<u32, Tensor>, op: Operation)
    ensures
        (#[trigger] concat_op(n, m, op)).0.works(n),
{
    broadcast use {group_works, works_found_inputs, works_step_output};

}

pub(crate) broadcast proof fn works_step_transpose(
    n: Run,
    input: Tensor,
    order: Seq<i32>,
    add_label: Seq<char>,
    set_label: Seq<char>,
    output_label: Seq<char>,
)
    ensures
        (#[trigger] n.transpose(input, order, add_label, set_label, output_label)).0.works(n),
{
    broadcast use {group_works, works_step_output};

    reveal(Run::transpose);
}

pub(crate) broadcast proof fn works_transpose_op(n: Run, m: Map<u32, Tensor>, op: Operation)
    ensures
        (#[trigger] transpose_op(n, m, op)).0.works(n),
{
    broadcast use {group_works, works_step_transpose};

}

pub(crate) broadcast proof fn works_reshape_op(n: Run, m: Map<u32, Tensor>, op: Operation)
    ensures
        (#[trigger] reshape_op(n, m, op)).0.works(n),
{
    broadcast use {group_works, works_step_reshape};

}

pub(crate) broadcast proof fn works_scaled_extent(n: Run, extent: i64, scale: u32)
    ensures
        (#[trigger] scaled_extent(n, extent, scale)).0.works(n),
{
    broadcast use group_works;

    reveal(scaled_extent);
}

pub(crate) broadcast proof fn works_resample_sizes(n: Run, op: Operation, extents: (i64, i64))
    ensures
        (#[trigger] resample_sizes(n, op, extents)).0.works(n),
{
    broadcast use {group_works, works_scaled_extent};

    reveal(resample_sizes);
}

pub(crate) broadcast proof fn works_resampled(n: Run, x: Tensor, dims: Seq<i64>, mode: ResizeMode)
    ensures
        (#[trigger] resampled(n, x, dims, mode)).0.works(n),
{
    broadcast use {group_works, works_step_output};

    reveal(resampled);
}

pub(crate) broadcast proof fn works_resample2d_op(
    n: Run,
    m: Map<u32, Tensor>,
    graph: GraphInfo,
    op: Operation,
)
    ensures
        (#[trigger] resample2d_op(n, m, graph, op)).0.works(n),
{
    broadcast use {group_works, works_resample_sizes, works_resampled};

}

pub(crate) broadcast proof fn works_reverse_op(
    n: Run,
    m: Map<u32, Tensor>,
    graph: GraphInfo,
    op: Operation,
)
    ensures
        (#[trigger] reverse_op(n, m, graph, op)).0.works(n),
{
    broadcast use {group_works, works_step_slice};

}

pub(crate) broadcast proof fn works_step_cast(
    n: Run,
    input: Tensor,
    dtype: TrtDataType,
    add_label: Seq<char>,
    output_label: Seq<char>,
)
    ensures
        (#[trigger] n.cast(input, dtype, add_label, output_label)).0.works(n),
{
    broadcast use {group_works, works_step_layer};

    reveal(Run::cast);
}

pub(crate) broadcast proof fn works_to_bool(n: Run, input: Tensor)
    ensures
        (#[trigger] to_bool(n, input)).0.works(n),
{
    broadcast use {group_works, works_step_cast};

}

pub(crate) broadcast proof fn works_to_float32(n: Run, input: Tensor)
    ensures
        (#[trigger] to_float32(n, input)).0.works(n),
{
    broadcast use {group_works, works_step_cast};

}

pub(crate) broadcast proof fn works_int32_to_float32(n: Run, input: Tensor)
    ensures
        (#[trigger] int32_to_float32(n, input)).0.works(n),
{
    broadcast use {group_works, works_step_cast};

}

pub(crate) broadcast proof fn works_to_float16(n: Run, input: Tensor)
    ensures
        (#[trigger] to_float16(n, input)).0.works(n),
{
    broadcast use {group_works, works_step_cast};

}

pub(crate) broadcast proof fn works_scalar_shape(
    n: Run,
    input: Tensor,
    descriptor_rank: nat,
    label: Seq<char>,
)
    ensures
        (#[trigger] scalar_shape(n, input, descriptor_rank, label)).0.works(n),
{
    broadcast use group_works;

}

pub(crate) broadcast proof fn works_static_sizes(n: Run, graph: GraphInfo, id: u32)
    ensures
        (#[trigger] static_sizes(n, graph, id)).0.works(n),
{
    broadcast use group_works;

}

pub(crate) broadcast proof fn works_broadcast_to(
    n: Run,
    t: Tensor,
    from: Seq<i64>,
    target: Seq<i64>,
    label: Seq<char>,
)
    ensures
        (#[trigger] broadcast_to(n, t, from, target, label)).0.works(n),
{
    broadcast use {group_works, works_step_identity, works_step_reshape, works_step_resize};

    reveal(broadcast_to);
}

pub(crate) broadcast proof fn works_check_bias(
    n: Run,
    graph: GraphInfo,
    bias: Option<u32>,
    name: Seq<char>,
)
    ensures
        (#[trigger] check_bias(n, graph, bias, name)).0.works(n),
{
    broadcast use group_works;

    reveal(check_bias);
}

pub(crate) broadcast proof fn works_conv_source(
    n: Run,
    x: Tensor,
    nhwc: bool,
    half: bool,
    name: Seq<char>,
)
    ensures
        (#[trigger] conv_source(n, x, nhwc, half, name)).0.works(n),
{
    broadcast use {group_works, works_step_transpose, works_step_cast};

    reveal(conv_source);
}

pub(crate) broadcast proof fn works_conv_result(
    n: Run,
    x: Tensor,
    nhwc: bool,
    half: bool,
    name: Seq<char>,
)
    ensures
        (#[trigger] conv_result(n, x, nhwc, half, name)).0.works(n),
{
    broadcast use {group_works, works_step_cast, works_step_transpose};

    reveal(conv_result);
}

pub(crate) broadcast proof fn works_conv_weights(
    n: Run,
    filter: Tensor,
    filter_half: bool,
    bias: Option<Tensor>,
    bias_half: bool,
    order: Option<Seq<i32>>,
    name: Seq<char>,
)
    ensures
        (#[trigger] conv_weights(n, filter, filter_half, bias, bias_half, order, name)).0.works(n),
{
    broadcast use {group_works, works_step_cast, works_step_transpose};

    reveal(conv_weights);
}

pub(crate) broadcast proof fn works_conv_filter(
    n: Run,
    graph: GraphInfo,
    op: Operation,
    purpose: Seq<char>,
    name: Seq<char>,
)
    ensures
        (#[trigger] conv_filter(n, graph, op, purpose, name)).0.works(n),
{
    broadcast use {group_works, works_check_bias};

    reveal(conv_filter);
}

pub(crate) broadcast proof fn works_conv_parameters(
    n: Run,
    m: Map<u32, Tensor>,
    graph: GraphInfo,
    op: Operation,
    half: bool,
    name: Seq<char>,
)
    ensures
        (#[trigger] conv_parameters(n, m, graph, op, half, name)).0.works(n),
{
    broadcast use {group_works, works_conv_weights};

    reveal(conv_parameters);
}

pub(crate) broadcast proof fn works_convolved(
    n: Run,
    source: Tensor,
    f: Tensor,
    bias: Option<Tensor>,
    filter: FilterPlan,
    plan: ConvPlan,
)
    ensures
        (#[trigger] convolved(n, source, f, bias, filter, plan)).0.works(n),
{
    broadcast use {group_works, works_step_output};

    reveal(convolved);
}

pub(crate) broadcast proof fn works_step_padding(
    n: Run,
    input: Tensor,
    pre: (i64, i64),
    post: (i64, i64),
    add_label: Seq<char>,
    output_label: Seq<char>,
)
    ensures
        (#[trigger] n.padding(input, pre, post, add_label, output_label)).0.works(n),
{
    broadcast use {group_works, works_step_layer};

    reveal(Run::padding);
}

pub(crate) broadcast proof fn works_conv2d_op(
    n: Run,
    m: Map<u32, Tensor>,
    graph: GraphInfo,
    op: Operation,
)
    ensures
        (#[trigger] conv2d_op(n, m, graph, op)).0.works(n),
{
    broadcast use {
        group_works, works_conv_filter, works_conv_source, works_step_identity,
        works_step_padding, works_conv_parameters, works_convolved, works_conv_result,
    };

}

pub(crate) broadcast proof fn works_fitted(
    n: Run,
    t: Tensor,
    batch: i32,
    current: (i32, i32),
    target: (i32, i32, i32),
)
    ensures
        (#[trigger] fitted(n, t, batch, current, target)).0.works(n),
{
    broadcast use {group_works, works_step_slice, works_step_padding};

    reveal(fitted);
}

pub(crate) broadcast proof fn works_adjusted(
    n: Run,
    graph: GraphInfo,
    op: Operation,
    t: Tensor,
    kernel: (i32, i32),
    output_maps: i32,
)
    ensures
        (#[trigger] adjusted(n, graph, op, t, kernel, output_maps)).0.works(n),
{
    broadcast use {group_works, works_fitted};

    reveal(adjusted);
}

pub(crate) broadcast proof fn works_deconvolved(
    n: Run,
    source: Tensor,
    f: Tensor,
    bias: Option<Tensor>,
    filter: FilterPlan,
    plan: ConvPlan,
    extra: (i32, i32),
)
    ensures
        (#[trigger] deconvolved(n, source, f, bias, filter, plan, extra)).0.works(n),
{
    broadcast use {group_works, works_step_output, works_step_padding};

    reveal(deconvolved);
}

pub(crate) broadcast proof fn works_conv_transpose2d_op(
    n: Run,
    m: Map<u32, Tensor>,
    graph: GraphInfo,
    op: Operation,
)
    ensures
        (#[trigger] conv_transpose2d_op(n, m, graph, op)).0.works(n),
{
    broadcast use {
        group_works, works_conv_filter, works_conv_source, works_step_identity,
        works_conv_parameters, works_deconvolved, works_adjusted, works_conv_result,
    };

}

pub(crate) broadcast proof fn works_binary_inputs(n: Run, m: Map<u32, Tensor>, op: Operation)
    ensures
        (#[trigger] binary_inputs(n, m, op)).0.works(n),
{
    broadcast use {group_works, works_broadcast_pair};

}

pub(crate) broadcast proof fn works_elementwise_op(
    n: Run,
    m: Map<u32, Tensor>,
    op: Operation,
    code: ElementWiseOperation,
)
    ensures
        (#[trigger] elementwise_op(n, m, op, code)).0.works(n),
{
    broadcast use {group_works, works_binary_inputs, works_step_elementwise};

}

pub(crate) broadcast proof fn works_comparison_op(
    n: Run,
    m: Map<u32, Tensor>,
    op: Operation,
    code: ElementWiseOperation,
)
    ensures
        (#[trigger] comparison_op(n, m, op, code)).0.works(n),
{
    broadcast use {group_works, works_binary_inputs, works_step_elementwise, works_to_float32};

}

pub(crate) broadcast proof fn works_promoted(n: Run, graph: GraphInfo, id: u32, t: Tensor)
    ensures
        (#[trigger] promoted(n, graph, id, t)).0.works(n),
{
    broadcast use {group_works, works_to_float32};

}

pub(crate) broadcast proof fn works_logical_binary_op(
    n: Run,
    m: Map<u32, Tensor>,
    graph: GraphInfo,
    op: Operation,
    code: ElementWiseOperation,
)
    ensures
        (#[trigger] logical_binary_op(n, m, graph, op, code)).0.works(n),
{
    broadcast use {
        group_works, works_promoted, works_broadcast_pair, works_to_bool,
        works_step_elementwise, works_to_float32,
    };

}

pub(crate) broadcast proof fn works_greater_or_equal_op(n: Run, m: Map<u32, Tensor>, op: Operation)
    ensures
        (#[trigger] greater_or_equal_op(n, m, op)).0.works(n),
{
    broadcast use {group_works, works_binary_inputs, works_step_elementwise, works_to_float32};

}

pub(crate) broadcast proof fn works_lesser_or_equal_op(n: Run, m: Map<u32, Tensor>, op: Operation)
    ensures
        (#[trigger] lesser_or_equal_op(n, m, op)).0.works(n),
{
    broadcast use {group_works, works_binary_inputs, works_step_elementwise, works_to_float32};

}

pub(crate) broadcast proof fn works_step_unary(
    n: Run,
    input: Tensor,
    op: UnaryOperation,
    add_label: Seq<char>,
    output_label: Seq<char>,
)
    ensures
        (#[trigger] n.unary(input, op, add_label, output_label)).0.works(n),
{
    broadcast use {group_works, works_step_layer};

    reveal(Run::unary);
}

pub(crate) broadcast proof fn works_not_equal_op(n: Run, m: Map<u32, Tensor>, op: Operation)
    ensures
        (#[trigger] not_equal_op(n, m, op)).0.works(n),
{
    broadcast use {
        group_works, works_binary_inputs, works_step_elementwise, works_step_unary,
        works_to_float32,
    };

}

pub(crate) broadcast proof fn works_step_activation(
    n: Run,
    input: Tensor,
    kind: ActivationType,
    add_label: Seq<char>,
    output_label: Seq<char>,
)
    ensures
        (#[trigger] n.activation(input, kind, add_label, output_label)).0.works(n),
{
    broadcast use {group_works, works_step_layer};

    reveal(Run::activation);
}

pub(crate) broadcast proof fn works_activation_op(
    n: Run,
    m: Map<u32, Tensor>,
    op: Operation,
    kind: ActivationType,
)
    ensures
        (#[trigger] activation_op(n, m, op, kind)).0.works(n),
{
    broadcast use {group_works, works_step_activation};

}

pub(crate) broadcast proof fn works_unary_op(
    n: Run,
    m: Map<u32, Tensor>,
    op: Operation,
    code: UnaryOperation,
)
    ensures
        (#[trigger] unary_op(n, m, op, code)).0.works(n),
{
    broadcast use {group_works, works_step_unary};

}

pub(crate) broadcast proof fn works_identity_op(n: Run, m: Map<u32, Tensor>, op: Operation)
    ensures
        (#[trigger] identity_op(n, m, op)).0.works(n),
{
    broadcast use {group_works, works_step_identity};

}

pub(crate) broadcast proof fn works_round_even_op(n: Run, m: Map<u32, Tensor>, op: Operation)
    ensures
        (#[trigger] round_even_op(n, m, op)).0.works(n),
{
    broadcast use {group_works, works_step_unary};

}

pub(crate) broadcast proof fn works_is_nan_op(n: Run, m: Map<u32, Tensor>, op: Operation)
    ensures
        (#[trigger] is_nan_op(n, m, op)).0.works(n),
{
    broadcast use {group_works, works_step_elementwise, works_step_unary, works_to_float32};

}

pub(crate) broadcast proof fn works_is_infinite_op(n: Run, m: Map<u32, Tensor>, op: Operation)
    ensures
        (#[trigger] is_infinite_op(n, m, op)).0.works(n),
{
    broadcast use {
        group_works, works_step_unary, works_step_constant, works_step_elementwise,
        works_to_float32,
    };

}

pub(crate) broadcast proof fn works_elu_op(
    n: Run,
    m: Map<u32, Tensor>,
    graph: GraphInfo,
    op: Operation,
)
    ensures
        (#[trigger] elu_op(n, m, graph, op)).0.works(n),
{
    broadcast use {
        group_works, works_activation_op, works_scalar_shape, works_step_activation,
        works_step_unary, works_step_constant, works_broadcast_pair, works_step_elementwise,
    };

}

pub(crate) broadcast proof fn works_leaky_relu_op(
    n: Run,
    m: Map<u32, Tensor>,
    graph: GraphInfo,
    op: Operation,
)
    ensures
        (#[trigger] leaky_relu_op(n, m, graph, op)).0.works(n),
{
    broadcast use {
        group_works, works_scalar_shape, works_step_constant, works_step_activation,
        works_step_elementwise,
    };

}

pub(crate) broadcast proof fn works_prelu_op(n: Run, m: Map<u32, Tensor>, op: Operation)
    ensures
        (#[trigger] prelu_op(n, m, op)).0.works(n),
{
    broadcast use {group_works, works_broadcast_pair, works_step_layer};

}

pub(crate) broadcast proof fn works_hard_sigmoid_op(
    n: Run,
    m: Map<u32, Tensor>,
    graph: GraphInfo,
    op: Operation,
)
    ensures
        (#[trigger] hard_sigmoid_op(n, m, graph, op)).0.works(n),
{
    broadcast use {
        group_works, works_step_activation, works_step_add_constant, works_step_output,
        works_step_elementwise,
    };

}

pub(crate) broadcast proof fn works_hard_swish_op(
    n: Run,
    m: Map<u32, Tensor>,
    graph: GraphInfo,
    op: Operation,
)
    ensures
        (#[trigger] hard_swish_op(n, m, graph, op)).0.works(n),
{
    broadcast use {group_works, works_step_add_constant, works_step_output, works_step_elementwise};

}

pub(crate) broadcast proof fn works_linear_op(
    n: Run,
    m: Map<u32, Tensor>,
    graph: GraphInfo,
    op: Operation,
)
    ensures
        (#[trigger] linear_op(n, m, graph, op)).0.works(n),
{
    broadcast use {
        group_works, works_scalar_shape, works_step_constant, works_step_elementwise,
        works_step_identity,
    };

}

pub(crate) broadcast proof fn works_raised(n: Run, t: Tensor, d: Seq<i64>, rank: nat)
    ensures
        (#[trigger] raised(n, t, d, rank)).0.works(n),
{
    broadcast use {group_works, works_step_reshape};

    reveal(raised);
}

pub(crate) broadcast proof fn works_step_matrix_multiply(
    n: Run,
    a: Tensor,
    op_a: MatrixOperation,
    b: Tensor,
    op_b: MatrixOperation,
    add_label: Seq<char>,
    output_label: Seq<char>,
)
    ensures
        (#[trigger] n.matrix_multiply(a, op_a, b, op_b, add_label, output_label)).0.works(n),
{
    broadcast use {group_works, works_step_layer};

    reveal(Run::matrix_multiply);
}

pub(crate) broadcast proof fn works_matmul_op(n: Run, m: Map<u32, Tensor>, op: Operation)
    ensures
        (#[trigger] matmul_op(n, m, op)).0.works(n),
{
    broadcast use {group_works, works_raised, works_step_matrix_multiply};

}

pub(crate) broadcast proof fn works_scaled(
    n: Run,
    t: Tensor,
    factor: Scalar,
    dt: DataType,
    whole: Seq<char>,
    name: Seq<char>,
    add_label: Seq<char>,
    output_label: Seq<char>,
)
    ensures
        (#[trigger] scaled(n, t, factor, dt, whole, name, add_label, output_label)).0.works(n),
{
    broadcast use {group_works, works_elements, works_step_constant, works_step_elementwise};

    reveal(scaled);
}

pub(crate) broadcast proof fn works_summed(n: Run, t: Tensor, c: Tensor, add_label: Seq<char>)
    ensures
        (#[trigger] summed(n, t, c, add_label)).0.works(n),
{
    broadcast use {group_works, works_broadcast_pair, works_step_elementwise};

    reveal(summed);
}

pub(crate) broadcast proof fn works_gemm_op(
    n: Run,
    m: Map<u32, Tensor>,
    graph: GraphInfo,
    op: Operation,
)
    ensures
        (#[trigger] gemm_op(n, m, graph, op)).0.works(n),
{
    broadcast use {group_works, works_step_matrix_multiply, works_scaled, works_summed};

}

pub(crate) broadcast proof fn works_bytes_to_float(
    n: Run,
    x: Tensor,
    sizes: Seq<u32>,
    shuffle_name: Seq<char>,
    purpose: Seq<char>,
    dequantize_name: Seq<char>,
)
    ensures
        (#[trigger] bytes_to_float(n, x, sizes, shuffle_name, purpose, dequantize_name)).0.works(n),
{
    broadcast use {group_works, works_step_output, works_step_constant};

    reveal(bytes_to_float);
}

pub(crate) broadcast proof fn works_floats_to_int32(n: Run, t: Tensor)
    ensures
        (#[trigger] floats_to_int32(n, t)).0.works(n),
{
    broadcast use {group_works, works_step_output};

    reveal(floats_to_int32);
}

pub(crate) broadcast proof fn works_cast_op(
    n: Run,
    m: Map<u32, Tensor>,
    graph: GraphInfo,
    op: Operation,
    promoted: Set<u32>,
)
    ensures
        (#[trigger] cast_op(n, m, graph, op, promoted)).0.works(n),
{
    broadcast use {
        group_works, works_step_identity, works_bytes_to_float, works_floats_to_int32,
        works_step_cast,
    };

}

pub(crate) broadcast proof fn works_is_scalar(n: Run, t: Tensor)
    ensures
        (#[trigger] is_scalar(n, t)).0.works(n),
{
    broadcast use group_works;

    reveal(is_scalar);
}

pub(crate) broadcast proof fn works_quantize_zero(
    n: Run,
    graph: GraphInfo,
    op: Operation,
    given: Tensor,
    out: DataType,
)
    ensures
        (#[trigger] quantize_zero(n, graph, op, given, out)).0.works(n),
{
    broadcast use {group_works, works_step_constant};

    reveal(quantize_zero);
}

pub(crate) broadcast proof fn works_step_dequantize(
    n: Run,
    input: Tensor,
    scale: Tensor,
    dtype: TrtDataType,
    add_label: Seq<char>,
    output_label: Seq<char>,
)
    ensures
        (#[trigger] n.dequantize(input, scale, dtype, add_label, output_label)).0.works(n),
{
    broadcast use {group_works, works_step_layer};

    reveal(Run::dequantize);
}

pub(crate) broadcast proof fn works_step_select(
    n: Run,
    condition: Tensor,
    on_true: Tensor,
    on_false: Tensor,
    add_label: Seq<char>,
    output_label: Seq<char>,
)
    ensures
        (#[trigger] n.select(condition, on_true, on_false, add_label, output_label)).0.works(n),
{
    broadcast use {group_works, works_step_layer};

    reveal(Run::select);
}

pub(crate) broadcast proof fn works_unsigned_reading(
    n: Run,
    t: Tensor,
    ty: TrtDataType,
    label: Seq<char>,
)
    ensures
        (#[trigger] unsigned_reading(n, t, ty, label)).0.works(n),
{
    broadcast use {
        group_works, works_step_constant, works_step_elementwise, works_to_bool,
        works_step_select,
    };

    reveal(unsigned_reading);
}

pub(crate) broadcast proof fn works_byte_values(
    n: Run,
    t: Tensor,
    ty: TrtDataType,
    label: Seq<char>,
    source: DataType,
)
    ensures
        (#[trigger] byte_values(n, t, ty, label, source)).0.works(n),
{
    broadcast use {
        group_works, works_step_constant, works_step_dequantize, works_unsigned_reading,
        works_step_elementwise,
    };

    reveal(byte_values);
}

pub(crate) broadcast proof fn works_with_axis(n: Run, t: Tensor, label: Seq<char>)
    ensures
        (#[trigger] with_axis(n, t, label)).0.works(n),
{
    broadcast use {group_works, works_step_reshape, works_step_identity};

    reveal(with_axis);
}

pub(crate) broadcast proof fn works_prepended(n: Run, t: Tensor, rank: nat, label: Seq<char>)
    ensures
        (#[trigger] prepended(n, t, rank, label)).0.works(n),
{
    broadcast use {group_works, works_step_identity, works_step_reshape};

    reveal(prepended);
}

pub(crate) broadcast proof fn works_slab(
    n: Run,
    x: Tensor,
    d: Seq<i64>,
    axis: nat,
    at: i64,
    add_label: Seq<char>,
    output_label: Seq<char>,
)
    ensures
        (#[trigger] slab(n, x, d, axis, at, add_label, output_label)).0.works(n),
{
    broadcast use {group_works, works_step_slice};

    reveal(slab);
}

pub(crate) broadcast proof fn works_block_part(
    n: Run,
    x: Tensor,
    d: Seq<i64>,
    axis: nat,
    k: nat,
    times: i64,
    label: Seq<char>,
)
    ensures
        (#[trigger] block_part(n, x, d, axis, k, times, label)).0.works(n),
{
    broadcast use {group_works, works_slab, works_step_concat};

    reveal(block_part);
}

pub(crate) broadcast proof fn works_block_parts(
    n: Run,
    x: Tensor,
    d: Seq<i64>,
    axis: nat,
    k: nat,
    times: i64,
    label: Seq<char>,
)
    ensures
        (#[trigger] block_parts(n, x, d, axis, k, times, label)).0.works(n),
    decreases k,
{
    broadcast use {group_works, works_block_part};

    if k > 0 {
        works_block_parts(n, x, d, axis, (k - 1) as nat, times, label);
    }
}

pub(crate) broadcast proof fn works_block_axis(
    n: Run,
    t: Tensor,
    axis: nat,
    target: u32,
    label: Seq<char>,
)
    ensures
        (#[trigger] block_axis(n, t, axis, target, label)).0.works(n),
{
    broadcast use {group_works, works_block_parts, works_step_concat};

    reveal(block_axis);
}

pub(crate) broadcast proof fn works_block_axes(
    n: Run,
    t: Tensor,
    sizes: Seq<u32>,
    k: nat,
    label: Seq<char>,
)
    ensures
        (#[trigger] block_axes(n, t, sizes, k, label)).0.works(n),
    decreases k,
{
    broadcast use {group_works, works_block_axis};

    if k > 0 {
        works_block_axes(n, t, sizes, (k - 1) as nat, label);
    }
}

pub(crate) broadcast proof fn works_aligned(
    n: Run,
    t: Tensor,
    sizes: Seq<u32>,
    label: Seq<char>,
    as_float: Option<TrtDataType>,
    source: DataType,
)
    ensures
        (#[trigger] aligned(n, t, sizes, label, as_float, source)).0.works(n),
{
    broadcast use {
        group_works, works_byte_values, works_with_axis, works_prepended, works_block_axes,
    };

    reveal(aligned);
}

pub(crate) broadcast proof fn works_in_type(n: Run, t: Tensor, ty: TrtDataType, what: Seq<char>)
    ensures
        (#[trigger] in_type(n, t, ty, what)).0.works(n),
{
    broadcast use {group_works, works_step_cast};

    reveal(in_type);
}

pub(crate) broadcast proof fn works_clamped_to(
    n: Run,
    t: Tensor,
    ty: TrtDataType,
    range: (Known, Known),
)
    ensures
        (#[trigger] clamped_to(n, t, ty, range)).0.works(n),
{
    broadcast use {group_works, works_step_constant, works_step_elementwise};

    reveal(clamped_to);
}

pub(crate) broadcast proof fn works_quantized(
    n: Run,
    x: Tensor,
    scale: Tensor,
    zero: Tensor,
    float_ty: TrtDataType,
    out_ty: TrtDataType,
    out: DataType,
)
    ensures
        (#[trigger] quantized(n, x, scale, zero, float_ty, out_ty, out)).0.works(n),
{
    broadcast use {
        group_works, works_with_axis, works_in_type, works_step_elementwise, works_step_unary,
        works_clamped_to, works_step_cast,
    };

    reveal(quantized);
}

pub(crate) broadcast proof fn works_quantize_linear_op(
    n: Run,
    m: Map<u32, Tensor>,
    graph: GraphInfo,
    op: Operation,
)
    ensures
        (#[trigger] quantize_linear_op(n, m, graph, op)).0.works(n),
{
    broadcast use {
        group_works, works_is_scalar, works_quantize_zero, works_aligned, works_quantized,
        works_step_reshape, works_with_axis, works_step_layer,
    };

}

pub(crate) broadcast proof fn works_dequantize_zero(
    n: Run,
    zero: Tensor,
    ty: TrtDataType,
    source: DataType,
    scalar: bool,
    rank: nat,
)
    ensures
        (#[trigger] dequantize_zero(n, zero, ty, source, scalar, rank)).0.works(n),
{
    broadcast use {
        group_works, works_byte_values, works_with_axis, works_is_scalar, works_step_identity,
    };

    reveal(dequantize_zero);
}

pub(crate) broadcast proof fn works_dequantize_linear_op(
    n: Run,
    m: Map<u32, Tensor>,
    graph: GraphInfo,
    op: Operation,
)
    ensures
        (#[trigger] dequantize_linear_op(n, m, graph, op)).0.works(n),
{
    broadcast use {
        group_works, works_with_axis, works_step_dequantize, works_dequantize_zero,
        works_step_cast, works_step_elementwise,
    };

}

pub(crate) broadcast proof fn works_pool_window(n: Run, graph: GraphInfo, id: u32, plan: PoolPlan)
    ensures
        (#[trigger] pool_window(n, graph, id, plan)).0.works(n),
{
    broadcast use group_works;

    reveal(pool_window);
}

pub(crate) broadcast proof fn works_channels_second(n: Run, t: Tensor, nhwc: bool, what: Seq<char>)
    ensures
        (#[trigger] channels_second(n, t, nhwc, what)).0.works(n),
{
    broadcast use {group_works, works_step_transpose};

    reveal(channels_second);
}

pub(crate) broadcast proof fn works_rounds_up(n: Run, output: u32, plan: PoolPlan)
    ensures
        (#[trigger] rounds_up(n, output, plan)).0.works(n),
{
    broadcast use group_works;

    reveal(rounds_up);
}

pub(crate) broadcast proof fn works_dilated_extents(
    n: Run,
    output: u32,
    d: Seq<i64>,
    window: (u32, u32),
    plan: PoolPlan,
    kind: Dilated,
)
    ensures
        (#[trigger] dilated_extents(n, output, d, window, plan, kind)).0.works(n),
{
    broadcast use {group_works, works_rounds_up};

    reveal(dilated_extents);
}

pub(crate) broadcast proof fn works_step_add_owned_constant(
    n: Run,
    dims: Seq<i64>,
    bytes: Seq<u8>,
    dtype: TrtDataType,
    label: Seq<char>,
)
    ensures
        (#[trigger] n.add_owned_constant(dims, bytes, dtype, label)).0.works(n),
{
    broadcast use group_works;

    reveal(Run::add_owned_constant);
}

pub(crate) broadcast proof fn works_outside_constant(n: Run, d: Seq<i64>, kind: Dilated)
    ensures
        (#[trigger] outside_constant(n, d, kind)).0.works(n),
{
    broadcast use {group_works, works_step_add_owned_constant};

    reveal(outside_constant);
}

pub(crate) broadcast proof fn works_tap(n: Run, g: Grid, row: nat, col: nat, k: nat)
    ensures
        (#[trigger] tap(n, g, row, col, k)).0.works(n),
{
    broadcast use {group_works, works_step_slice, works_step_output};

    reveal(tap);
}

pub(crate) broadcast proof fn works_taps(n: Run, g: Grid, row: nat, col: nat, k: nat)
    ensures
        (#[trigger] taps(n, g, row, col, k)).0.works(n),
    decreases k,
{
    broadcast use {group_works, works_tap};

    if k > 0 {
        works_taps(n, g, row, col, (k - 1) as nat);
    }
}

pub(crate) broadcast proof fn works_combine(n: Run, kind: Dilated, a: Tensor, b: Tensor)
    ensures
        (#[trigger] combine(n, kind, a, b)).0.works(n),
{
    broadcast use {group_works, works_step_elementwise};

    reveal(combine);
}

pub(crate) broadcast proof fn works_combined(n: Run, kind: Dilated, list: Seq<Tensor>, k: nat)
    ensures
        (#[trigger] combined(n, kind, list, k)).0.works(n),
    decreases k,
{
    broadcast use {group_works, works_combine};

    if k > 1 {
        works_combined(n, kind, list, (k - 1) as nat);
    }
}

pub(crate) broadcast proof fn works_cell(n: Run, g: Grid, row: nat, col: nat)
    ensures
        (#[trigger] cell(n, g, row, col)).0.works(n),
{
    broadcast use {group_works, works_taps, works_combined};

    reveal(cell);
}

pub(crate) broadcast proof fn works_cells(n: Run, g: Grid, row: nat, k: nat)
    ensures
        (#[trigger] cells(n, g, row, k)).0.works(n),
    decreases k,
{
    broadcast use {group_works, works_cell};

    if k > 0 {
        works_cells(n, g, row, (k - 1) as nat);
    }
}

pub(crate) broadcast proof fn works_joined(n: Run, parts: Seq<Tensor>, axis: i32)
    ensures
        (#[trigger] joined(n, parts, axis)).0.works(n),
{
    broadcast use {group_works, works_step_identity, works_step_concat};

    reveal(joined);
}

pub(crate) broadcast proof fn works_grid_row(n: Run, g: Grid, row: nat, width: nat)
    ensures
        (#[trigger] grid_row(n, g, row, width)).0.works(n),
{
    broadcast use {group_works, works_cells, works_joined};

    reveal(grid_row);
}

pub(crate) broadcast proof fn works_grid_rows(n: Run, g: Grid, width: nat, k: nat)
    ensures
        (#[trigger] grid_rows(n, g, width, k)).0.works(n),
    decreases k,
{
    broadcast use {group_works, works_grid_row};

    if k > 0 {
        works_grid_rows(n, g, width, (k - 1) as nat);
    }
}

pub(crate) broadcast proof fn works_dilated_pool(
    n: Run,
    x: Tensor,
    output: u32,
    window: (u32, u32),
    plan: PoolPlan,
    kind: Dilated,
)
    ensures
        (#[trigger] dilated_pool(n, x, output, window, plan, kind)).0.works(n),
{
    broadcast use {
        group_works, works_dilated_extents, works_outside_constant, works_grid_rows,
        works_joined,
    };

    reveal(dilated_pool);
}

pub(crate) broadcast proof fn works_dilated_result(
    n: Run,
    graph: GraphInfo,
    output: u32,
    t: Tensor,
    kind: Dilated,
)
    ensures
        (#[trigger] dilated_result(n, graph, output, t, kind)).0.works(n),
{
    broadcast use {group_works, works_step_cast};

    reveal(dilated_result);
}

pub(crate) broadcast proof fn works_max_pool_dilated(
    n: Run,
    graph: GraphInfo,
    x: Tensor,
    output: u32,
    plan: PoolPlan,
    window: (u32, u32),
)
    ensures
        (#[trigger] max_pool_dilated(n, graph, x, output, plan, window)).0.works(n),
{
    broadcast use {group_works, works_dilated_pool, works_dilated_result};

    reveal(max_pool_dilated);
}

pub(crate) broadcast proof fn works_average_pool_dilated(
    n: Run,
    graph: GraphInfo,
    x: Tensor,
    output: u32,
    plan: PoolPlan,
    window: (u32, u32),
)
    ensures
        (#[trigger] average_pool_dilated(n, graph, x, output, plan, window)).0.works(n),
{
    broadcast use {
        group_works, works_dilated_pool, works_step_add_owned_constant, works_step_output,
        works_step_elementwise, works_dilated_result,
    };

    reveal(average_pool_dilated);
}

pub(crate) broadcast proof fn works_pooled_dilated(
    n: Run,
    graph: GraphInfo,
    op: Operation,
    x: Tensor,
    kind: PoolingType,
    window: (u32, u32),
)
    ensures
        (#[trigger] pooled_dilated(n, graph, op, x, kind, window)).0.works(n),
{
    broadcast use {
        group_works, works_step_cast, works_max_pool_dilated, works_average_pool_dilated,
        works_step_transpose,
    };

    reveal(pooled_dilated);
}

pub(crate) broadcast proof fn works_pool_settings(n: Run, l: usize, plan: PoolPlan, up: bool)
    ensures
        (#[trigger] pool_settings(n, l, plan, up)).0.works(n),
{
    broadcast use group_works;

    reveal(pool_settings);
}

pub(crate) broadcast proof fn works_channels_last(n: Run, t: Tensor, nhwc: bool, what: Seq<char>)
    ensures
        (#[trigger] channels_last(n, t, nhwc, what)).0.works(n),
{
    broadcast use {group_works, works_step_transpose};

    reveal(channels_last);
}

pub(crate) broadcast proof fn works_pooling_op(
    n: Run,
    m: Map<u32, Tensor>,
    graph: GraphInfo,
    op: Operation,
    kind: PoolingType,
)
    ensures
        (#[trigger] pooling_op(n, m, graph, op, kind)).0.works(n),
{
    broadcast use {
        group_works, works_pool_window, works_channels_second, works_pooled_dilated,
        works_rounds_up, works_pool_settings, works_step_output, works_channels_last,
    };

}

pub(crate) broadcast proof fn works_global_pooling_op(
    n: Run,
    m: Map<u32, Tensor>,
    op: Operation,
    kind: PoolingType,
)
    ensures
        (#[trigger] global_pooling_op(n, m, op, kind)).0.works(n),
{
    broadcast use {group_works, works_channels_second, works_step_layer, works_channels_last};

}

pub(crate) broadcast proof fn works_channel_stats(
    n: Run,
    stats: Tensor,
    input: Tensor,
    axis: i64,
    op_name: Seq<char>,
)
    ensures
        (#[trigger] channel_stats(n, stats, input, axis, op_name)).0.works(n),
{
    broadcast use {group_works, works_step_transpose, works_step_reshape};

    reveal(channel_stats);
}

pub(crate) broadcast proof fn works_step_named_layer(
    n: Run,
    request: RequestView,
    name: Seq<char>,
    add_label: Seq<char>,
    output_label: Seq<char>,
)
    requires
        is_inner(request),
    ensures
        (#[trigger] n.named_layer(request, name, add_label, output_label)).0.works(n),
{
    broadcast use {group_works, works_step_output};

    reveal(Run::named_layer);
}

pub(crate) broadcast proof fn works_guarded_variance(
    n: Run,
    graph: GraphInfo,
    op: Operation,
    variance: Tensor,
    epsilon: Scalar,
)
    ensures
        (#[trigger] guarded_variance(n, graph, op, variance, epsilon)).0.works(n),
{
    broadcast use {group_works, works_elements, works_step_constant, works_step_elementwise};

    reveal(guarded_variance);
}

pub(crate) broadcast proof fn works_batch_normalization_op(
    n: Run,
    m: Map<u32, Tensor>,
    graph: GraphInfo,
    op: Operation,
)
    ensures
        (#[trigger] batch_normalization_op(n, m, graph, op)).0.works(n),
{
    broadcast use {
        group_works, works_channel_stats, works_step_named_layer, works_guarded_variance,
    };

}

pub(crate) broadcast proof fn works_step_reduce(
    n: Run,
    input: Tensor,
    op: ReduceOperation,
    axes: u32,
    keep_dims: bool,
    add_label: Seq<char>,
    output_label: Seq<char>,
)
    ensures
        (#[trigger] n.reduce(input, op, axes, keep_dims, add_label, output_label)).0.works(n),
{
    broadcast use {group_works, works_step_layer};

    reveal(Run::reduce);
}

pub(crate) broadcast proof fn works_instance_normalized(
    n: Run,
    graph: GraphInfo,
    op: Operation,
    x: Tensor,
    bits: u32,
    epsilon: Scalar,
)
    ensures
        (#[trigger] instance_normalized(n, graph, op, x, bits, epsilon)).0.works(n),
{
    broadcast use {
        group_works, works_step_reduce, works_step_elementwise, works_elements,
        works_step_constant, works_step_unary,
    };

    reveal(instance_normalized);
}

pub(crate) broadcast proof fn works_instance_normalization_op(
    n: Run,
    m: Map<u32, Tensor>,
    graph: GraphInfo,
    op: Operation,
)
    ensures
        (#[trigger] instance_normalization_op(n, m, graph, op)).0.works(n),
{
    broadcast use {
        group_works, works_instance_normalized, works_step_reshape, works_step_elementwise,
    };

}

pub(crate) broadcast proof fn works_layer_norm_of_scalar(
    n: Run,
    m: Map<u32, Tensor>,
    graph: GraphInfo,
    op: Operation,
    bias: Option<u32>,
)
    ensures
        (#[trigger] layer_norm_of_scalar(n, m, graph, op, bias)).0.works(n),
{
    broadcast use {group_works, works_step_constant, works_step_reshape, works_step_elementwise};

    reveal(layer_norm_of_scalar);
}

pub(crate) broadcast proof fn works_filled(
    n: Run,
    dims: Seq<i64>,
    count: nat,
    s: Scalar,
    t: DataType,
    add_label: Seq<
    char,
>,
    output_label: Seq<char>,
)
    ensures
        (#[trigger] filled(n, dims, count, s, t, add_label, output_label)).0.works(n),
{
    broadcast use {group_works, works_step_constant};

}

pub(crate) broadcast proof fn works_layer_bias(
    n: Run,
    graph: GraphInfo,
    id: u32,
    bias: Tensor,
    d: Seq<i64>,
    count: nat,
    dt: DataType,
)
    ensures
        (#[trigger] layer_bias(n, graph, id, bias, d, count, dt)).0.works(n),
{
    broadcast use {group_works, works_step_constant, works_filled, works_broadcast_pair};

    reveal(layer_bias);
}

pub(crate) broadcast proof fn works_layer_norm_over_nothing(
    n: Run,
    m: Map<u32, Tensor>,
    graph: GraphInfo,
    op: Operation,
    bias: Option<u32>,
    d: Seq<i64>,
)
    ensures
        (#[trigger] layer_norm_over_nothing(n, m, graph, op, bias, d)).0.works(n),
{
    broadcast use {
        group_works, works_elements, works_filled, works_layer_bias, works_step_elementwise,
    };

    reveal(layer_norm_over_nothing);
}

pub(crate) broadcast proof fn works_mask(n: Run, axes: Seq<u32>)
    ensures
        (#[trigger] mask(n, axes)).0.works(n),
{
    broadcast use group_works;

}

pub(crate) broadcast proof fn works_layer_normalized(
    n: Run,
    graph: GraphInfo,
    op: Operation,
    x: Tensor,
    bits: u32,
    epsilon: Scalar,
)
    ensures
        (#[trigger] layer_normalized(n, graph, op, x, bits, epsilon)).0.works(n),
{
    broadcast use {
        group_works, works_step_reduce, works_step_elementwise, works_elements,
        works_step_constant, works_step_unary,
    };

    reveal(layer_normalized);
}

pub(crate) broadcast proof fn works_layer_parameter(
    n: Run,
    tensor: Tensor,
    result: Tensor,
    op_name: Seq<char>,
    axes: Seq<u32>,
)
    ensures
        (#[trigger] layer_parameter(n, tensor, result, op_name, axes)).0.works(n),
{
    broadcast use {group_works, works_step_identity, works_step_output};

    reveal(layer_parameter);
}

pub(crate) broadcast proof fn works_layer_normalization_op(
    n: Run,
    m: Map<u32, Tensor>,
    graph: GraphInfo,
    op: Operation,
)
    ensures
        (#[trigger] layer_normalization_op(n, m, graph, op)).0.works(n),
{
    broadcast use {
        group_works, works_layer_norm_of_scalar, works_layer_norm_over_nothing, works_mask,
        works_layer_normalized, works_layer_parameter, works_step_elementwise,
    };

}

pub(crate) broadcast proof fn works_over_axes(
    n: Run,
    t: Tensor,
    op: ReduceOperation,
    axes: Seq<u32>,
    keep: bool,
    add_label: Seq<char>,
    output_label: Seq<char>,
)
    ensures
        (#[trigger] over_axes(n, t, op, axes, keep, add_label, output_label)).0.works(n),
{
    broadcast use {group_works, works_mask, works_step_reduce};

    reveal(over_axes);
}

pub(crate) broadcast proof fn works_reduce_op(
    n: Run,
    m: Map<u32, Tensor>,
    op: Operation,
    reduction: ReduceOperation,
)
    ensures
        (#[trigger] reduce_op(n, m, op, reduction)).0.works(n),
{
    broadcast use {group_works, works_step_identity, works_over_axes};

}

pub(crate) broadcast proof fn works_reduce_l1_op(n: Run, m: Map<u32, Tensor>, op: Operation)
    ensures
        (#[trigger] reduce_l1_op(n, m, op)).0.works(n),
{
    broadcast use {group_works, works_step_unary, works_over_axes};

}

pub(crate) broadcast proof fn works_reduce_l2_op(
    n: Run,
    m: Map<u32, Tensor>,
    graph: GraphInfo,
    op: Operation,
)
    ensures
        (#[trigger] reduce_l2_op(n, m, graph, op)).0.works(n),
{
    broadcast use {
        group_works, works_step_elementwise, works_step_unary, works_mask, works_to_float32,
        works_step_reduce, works_to_float16,
    };

}

pub(crate) broadcast proof fn works_reduce_log_sum_op(n: Run, m: Map<u32, Tensor>, op: Operation)
    ensures
        (#[trigger] reduce_log_sum_op(n, m, op)).0.works(n),
{
    broadcast use {group_works, works_step_unary, works_over_axes};

}

pub(crate) broadcast proof fn works_reduce_log_sum_exp_op(
    n: Run,
    m: Map<u32, Tensor>,
    op: Operation,
)
    ensures
        (#[trigger] reduce_log_sum_exp_op(n, m, op)).0.works(n),
{
    broadcast use {group_works, works_step_unary, works_step_identity, works_over_axes};

}

pub(crate) broadcast proof fn works_reduce_sum_square_op(n: Run, m: Map<u32, Tensor>, op: Operation)
    ensures
        (#[trigger] reduce_sum_square_op(n, m, op)).0.works(n),
{
    broadcast use {group_works, works_step_elementwise, works_over_axes};

}

pub(crate) broadcast proof fn works_truth_constant(n: Run, id: u32, sizes: Seq<u32>)
    ensures
        (#[trigger] truth_constant(n, id, sizes)).0.works(n),
{
    broadcast use {group_works, works_elements, works_step_constant};

    reveal(truth_constant);
}

pub(crate) broadcast proof fn works_logical_not_op(
    n: Run,
    m: Map<u32, Tensor>,
    graph: GraphInfo,
    op: Operation,
)
    ensures
        (#[trigger] logical_not_op(n, m, graph, op)).0.works(n),
{
    broadcast use {
        group_works, works_truth_constant, works_to_bool, works_step_unary, works_to_float32,
    };

}

pub(crate) broadcast proof fn works_gather_indices(
    n: Run,
    indices: Tensor,
    shape: Seq<i64>,
    low: Seq<u8>,
    high: Seq<u8>,
)
    ensures
        (#[trigger] gather_indices(n, indices, shape, low, high)).0.works(n),
{
    broadcast use {group_works, works_step_add_constant, works_step_output, works_step_elementwise};

    reveal(gather_indices);
}

pub(crate) broadcast proof fn works_gather_op(
    n: Run,
    m: Map<u32, Tensor>,
    graph: GraphInfo,
    op: Operation,
)
    ensures
        (#[trigger] gather_op(n, m, graph, op)).0.works(n),
{
    broadcast use {group_works, works_gather_indices, works_step_layer};

}

pub(crate) broadcast proof fn works_gather_nd_indices(
    n: Run,
    indices: Tensor,
    shape: Seq<i64>,
    low: Seq<u8>,
    high: Seq<u8>,
)
    ensures
        (#[trigger] gather_nd_indices(n, indices, shape, low, high)).0.works(n),
{
    broadcast use {group_works, works_step_add_constant, works_step_output, works_step_elementwise};

    reveal(gather_nd_indices);
}

pub(crate) broadcast proof fn works_gather_nd_op(
    n: Run,
    m: Map<u32, Tensor>,
    graph: GraphInfo,
    op: Operation,
)
    ensures
        (#[trigger] gather_nd_op(n, m, graph, op)).0.works(n),
{
    broadcast use {group_works, works_elements, works_gather_nd_indices, works_step_output};

}

pub(crate) broadcast proof fn works_scatter_elements_op(n: Run, m: Map<u32, Tensor>, op: Operation)
    ensures
        (#[trigger] scatter_elements_op(n, m, op)).0.works(n),
{
    broadcast use {group_works, works_step_output};

}

pub(crate) broadcast proof fn works_scatter_nd_op(n: Run, m: Map<u32, Tensor>, op: Operation)
    ensures
        (#[trigger] scatter_nd_op(n, m, op)).0.works(n),
{
    broadcast use {group_works, works_step_layer};

}

pub(crate) broadcast proof fn works_extreme_positions(
    n: Run,
    x: Tensor,
    op: TopKOperation,
    axes: u32,
    label: Seq<char>,
)
    ensures
        (#[trigger] extreme_positions(n, x, op, axes, label)).0.works(n),
{
    broadcast use group_works;

    reveal(extreme_positions);
}

pub(crate) broadcast proof fn works_arg_reduced(
    n: Run,
    graph: GraphInfo,
    id: u32,
    x: Tensor,
    axis: u32,
    keep_dims: bool,
    op: TopKOperation,
    label: Seq<char>,
)
    ensures
        (#[trigger] arg_reduced(n, graph, id, x, axis, keep_dims, op, label)).0.works(n),
{
    broadcast use {group_works, works_step_reshape, works_extreme_positions, works_step_transpose};

    reveal(arg_reduced);
}

pub(crate) broadcast proof fn works_arg_max_op(
    n: Run,
    m: Map<u32, Tensor>,
    graph: GraphInfo,
    op: Operation,
)
    ensures
        (#[trigger] arg_max_op(n, m, graph, op)).0.works(n),
{
    broadcast use {group_works, works_arg_reduced, works_int32_to_float32};

}

pub(crate) broadcast proof fn works_arg_min_op(
    n: Run,
    m: Map<u32, Tensor>,
    graph: GraphInfo,
    op: Operation,
)
    ensures
        (#[trigger] arg_min_op(n, m, graph, op)).0.works(n),
{
    broadcast use {group_works, works_arg_reduced, works_int32_to_float32};

}

pub(crate) broadcast proof fn works_clamp_op(
    n: Run,
    m: Map<u32, Tensor>,
    graph: GraphInfo,
    op: Operation,
)
    ensures
        (#[trigger] clamp_op(n, m, graph, op)).0.works(n),
{
    broadcast use {group_works, works_scalar_shape, works_step_constant, works_step_elementwise};

}

pub(crate) broadcast proof fn works_where_op(
    n: Run,
    m: Map<u32, Tensor>,
    graph: GraphInfo,
    op: Operation,
)
    ensures
        (#[trigger] where_op(n, m, graph, op)).0.works(n),
{
    broadcast use {
        group_works, works_static_sizes, works_to_float32, works_broadcast_to, works_to_bool,
        works_step_select,
    };

}

pub(crate) broadcast proof fn works_pad_last_axes(
    n: Run,
    x: Tensor,
    d: Seq<i64>,
    pre: Seq<i32>,
    post: Seq<i32>,
)
    ensures
        (#[trigger] pad_last_axes(n, x, d, pre, post)).0.works(n),
{
    broadcast use {group_works, works_step_reshape, works_step_identity, works_step_padding};

    reveal(pad_last_axes);
}

pub(crate) broadcast proof fn works_pad_axis_edge(n: Run, x: Tensor, axis: nat, pre: i32, post: i32)
    ensures
        (#[trigger] pad_axis_edge(n, x, axis, pre, post)).0.works(n),
{
    broadcast use {group_works, works_step_identity, works_slab, works_step_concat};

    reveal(pad_axis_edge);
}

pub(crate) broadcast proof fn works_slabs(
    n: Run,
    x: Tensor,
    d: Seq<i64>,
    axis: nat,
    positions: Seq<i64>,
    k: nat,
    add_label: Seq<char>,
    output_label: Seq<char>,
)
    ensures
        (#[trigger] slabs(n, x, d, axis, positions, k, add_label, output_label)).0.works(n),
    decreases k,
{
    broadcast use {group_works, works_slab};

    if k > 0 {
        works_slabs(n, x, d, axis, positions, (k - 1) as nat, add_label, output_label);
    }
}

pub(crate) broadcast proof fn works_pad_axis_reflect(
    n: Run,
    x: Tensor,
    axis: nat,
    pre: i32,
    post: i32,
)
    ensures
        (#[trigger] pad_axis_reflect(n, x, axis, pre, post)).0.works(n),
{
    broadcast use {group_works, works_step_identity, works_slabs, works_step_concat};

    reveal(pad_axis_reflect);
}

pub(crate) broadcast proof fn works_filler(
    n: Run,
    d: Seq<i64>,
    axis: nat,
    extent: i32,
    unit: Seq<u8>,
    dtype: TrtDataType,
)
    ensures
        (#[trigger] filler(n, d, axis, extent, unit, dtype)).0.works(n),
{
    broadcast use {group_works, works_elements, works_step_constant};

    reveal(filler);
}

pub(crate) broadcast proof fn works_pad_axis_constant(
    n: Run,
    x: Tensor,
    axis: nat,
    pre: i32,
    post: i32,
    fill: FloatReading,
)
    ensures
        (#[trigger] pad_axis_constant(n, x, axis, pre, post, fill)).0.works(n),
{
    broadcast use {group_works, works_step_identity, works_filler, works_step_concat};

    reveal(pad_axis_constant);
}

pub(crate) broadcast proof fn works_pad_axis(
    n: Run,
    x: Tensor,
    axis: nat,
    pre: i32,
    post: i32,
    mode: PadMode,
    fill: FloatReading,
)
    ensures
        (#[trigger] pad_axis(n, x, axis, pre, post, mode, fill)).0.works(n),
{
    broadcast use {
        group_works, works_pad_axis_edge, works_pad_axis_reflect, works_pad_axis_constant,
    };

    reveal(pad_axis);
}

pub(crate) broadcast proof fn works_pad_axes(
    n: Run,
    x: Tensor,
    pre: Seq<i32>,
    post: Seq<i32>,
    k: nat,
    mode: PadMode,
    fill: FloatReading,
)
    ensures
        (#[trigger] pad_axes(n, x, pre, post, k, mode, fill)).0.works(n),
    decreases k,
{
    broadcast use {group_works, works_pad_axis};

    if k > 0 {
        works_pad_axes(n, x, pre, post, (k - 1) as nat, mode, fill);
    }
}

pub(crate) broadcast proof fn works_pad_op(n: Run, m: Map<u32, Tensor>, op: Operation)
    ensures
        (#[trigger] pad_op(n, m, op)).0.works(n),
{
    broadcast use {group_works, works_step_identity, works_pad_last_axes, works_pad_axes};

}

pub(crate) broadcast proof fn works_softmax_op(n: Run, m: Map<u32, Tensor>, op: Operation)
    ensures
        (#[trigger] softmax_op(n, m, op)).0.works(n),
{
    broadcast use {group_works, works_step_layer};

}

pub(crate) broadcast proof fn works_gather_elements_indices(
    n: Run,
    indices: Tensor,
    shape: Seq<i64>,
    low: Seq<u8>,
    high: Seq<u8>,
)
    ensures
        (#[trigger] gather_elements_indices(n, indices, shape, low, high)).0.works(n),
{
    broadcast use {group_works, works_step_add_constant, works_step_output, works_step_elementwise};

    reveal(gather_elements_indices);
}

pub(crate) broadcast proof fn works_gather_elements_op(
    n: Run,
    m: Map<u32, Tensor>,
    graph: GraphInfo,
    op: Operation,
)
    ensures
        (#[trigger] gather_elements_op(n, m, graph, op)).0.works(n),
{
    broadcast use {group_works, works_gather_elements_indices, works_step_output};

}

pub(crate) broadcast proof fn works_l2_pool_dilated(
    n: Run,
    x: Tensor,
    output: u32,
    plan: PoolPlan,
    window: (u32, u32),
)
    ensures
        (#[trigger] l2_pool_dilated(n, x, output, plan, window)).0.works(n),
{
    broadcast use {group_works, works_dilated_pool};

    reveal(l2_pool_dilated);
}

pub(crate) broadcast proof fn works_summed_squares(
    n: Run,
    x: Tensor,
    output: u32,
    plan: PoolPlan,
    window: (u32, u32),
    half: bool,
)
    ensures
        (#[trigger] summed_squares(n, x, output, plan, window, half)).0.works(n),
{
    broadcast use {
        group_works, works_rounds_up, works_pool_settings, works_step_output, works_step_cast,
        works_step_add_owned_constant, works_step_elementwise,
    };

    reveal(summed_squares);
}

pub(crate) broadcast proof fn works_l2_pool2d_op(
    n: Run,
    m: Map<u32, Tensor>,
    graph: GraphInfo,
    op: Operation,
)
    ensures
        (#[trigger] l2_pool2d_op(n, m, graph, op)).0.works(n),
{
    broadcast use {
        group_works, works_step_elementwise, works_pool_window, works_channels_second,
        works_step_cast, works_l2_pool_dilated, works_summed_squares, works_channels_last,
        works_step_unary,
    };

}

pub(crate) broadcast proof fn works_cumulative_sum_op(
    n: Run,
    m: Map<u32, Tensor>,
    graph: GraphInfo,
    op: Operation,
)
    ensures
        (#[trigger] cumulative_sum_op(n, m, graph, op)).0.works(n),
{
    broadcast use {group_works, works_step_constant, works_step_layer};

}

pub(crate) broadcast proof fn works_triangular_op(
    n: Run,
    m: Map<u32, Tensor>,
    graph: GraphInfo,
    op: Operation,
)
    ensures
        (#[trigger] triangular_op(n, m, graph, op)).0.works(n),
{
    broadcast use {
        group_works, works_step_add_owned_constant, works_step_output, works_step_elementwise,
    };

}

pub(crate) broadcast proof fn works_operation_added(
    n: Run,
    m: Map<u32, Tensor>,
    graph: GraphInfo,
    op: Operation,
    promoted: Set<u32>,
)
    ensures
        (#[trigger] operation_added(n, m, graph, op, promoted)).0.works(n),
{
    broadcast use {
        group_works, works_elementwise_op, works_activation_op, works_elu_op,
        works_leaky_relu_op, works_prelu_op, works_hard_sigmoid_op, works_hard_swish_op,
        works_unary_op, works_identity_op, works_cast_op, works_quantize_linear_op,
        works_dequantize_linear_op, works_matmul_op, works_gemm_op, works_conv2d_op,
        works_conv_transpose2d_op, works_pooling_op, works_global_pooling_op,
        works_batch_normalization_op, works_instance_normalization_op,
        works_layer_normalization_op, works_reduce_op, works_reduce_l1_op, works_reduce_l2_op,
        works_reduce_log_sum_op, works_reduce_log_sum_exp_op, works_reduce_sum_square_op,
        works_slice_op, works_split_op, works_squeeze_op, works_unsqueeze_op, works_expand_op,
        works_tile_op, works_comparison_op, works_greater_or_equal_op, works_lesser_or_equal_op,
        works_not_equal_op, works_logical_binary_op, works_logical_not_op, works_gather_op,
        works_gather_nd_op, works_scatter_elements_op, works_scatter_nd_op, works_arg_max_op,
        works_arg_min_op, works_clamp_op, works_where_op, works_linear_op, works_pad_op,
        works_softmax_op, works_concat_op, works_is_nan_op, works_is_infinite_op,
        works_round_even_op, works_gather_elements_op, works_l2_pool2d_op, works_reverse_op,
        works_cumulative_sum_op, works_triangular_op, works_transpose_op, works_reshape_op,
        works_resample2d_op,
    };

    reveal(operation_added);
}

pub(crate) broadcast proof fn works_constant_added(
    n: Run,
    m: Map<u32, Tensor>,
    graph: GraphInfo,
    k: nat,
)
    ensures
        (#[trigger] constant_added(n, m, graph, k)).0.works(n),
{
    broadcast use {group_works, works_step_output};

}

} // verus!
