//! A conversion only ever adds to the conversation: it takes back no request and changes no
//! reply, and once it has stopped it does nothing more.

use crate::data_type::DataType;
use crate::graph::GraphInfo;
use crate::operator_options::FloatReading;
use crate::operators::Operation;
use crate::scalar::{Known, Scalar};
use crate::trtx::arrange::{
    concat_op, expand_op, found_inputs, resample2d_op, resample_sizes, resampled, reshape_op,
    reverse_op, scaled_extent, slice_op, split_op, split_part, split_parts, squeeze_op, tile_axes,
    tile_axis, tile_op, transpose_op, unsqueeze_op,
};
use crate::trtx::broadcast::{
    broadcast_pair, broadcast_to, int32_to_float32, scalar_shape, static_sizes, to_bool,
    to_float16, to_float32,
};
use crate::trtx::conv::{
    adjusted, check_bias, conv2d_op, conv_filter, conv_parameters, conv_result, conv_source,
    conv_transpose2d_op, conv_weights, convolved, deconvolved, fitted, ConvPlan, FilterPlan,
};
use crate::trtx::elementwise::{
    activation_op, binary_inputs, comparison_op, elementwise_op, elu_op, greater_or_equal_op,
    hard_sigmoid_op, hard_swish_op, identity_op, is_infinite_op, is_nan_op, leaky_relu_op,
    lesser_or_equal_op, linear_op, logical_binary_op, not_equal_op, prelu_op, promoted,
    round_even_op, unary_op,
};
use crate::trtx::matrix::{gemm_op, matmul_op, raised, scaled, summed};
use crate::trtx::network::{
    built_from, constant_added, input_added, network_built, next_stage, operation_added,
    output_marked, stage_done, steps_left, Stage,
};
use crate::trtx::normalization::{
    batch_normalization_op, channel_stats, filled, guarded_variance, instance_normalization_op,
    instance_normalized, layer_bias, layer_norm_of_scalar, layer_norm_over_nothing,
    layer_normalization_op, layer_normalized, layer_parameter,
};
use crate::trtx::pad::{
    filler, pad_axes, pad_axis, pad_axis_constant, pad_axis_edge, pad_axis_reflect, pad_last_axes,
    pad_op, slab, slabs, PadMode,
};
use crate::trtx::pool::{
    average_pool_dilated, cell, cells, channels_last, channels_second, combine, combined,
    dilated_extents, dilated_pool, dilated_result, global_pooling_op, grid_row, grid_rows, joined,
    l2_pool2d_op, l2_pool_dilated, max_pool_dilated, outside_constant, pool_settings, pool_window,
    pooled_dilated, pooling_op, rounds_up, summed_squares, tap, taps, Dilated, Grid, PoolPlan,
};
use crate::trtx::quantize::{
    aligned, block_axes, block_axis, block_part, block_parts, byte_values, bytes_to_float,
    cast_op, clamped_to, dequantize_linear_op, dequantize_zero, floats_to_int32, in_type,
    is_scalar, logical_not_op, prepended, quantize_linear_op, quantize_zero, quantized,
    truth_constant, unsigned_reading, with_axis,
};
use crate::trtx::reduce::{
    over_axes, reduce_l1_op, reduce_l2_op, reduce_log_sum_exp_op, reduce_log_sum_op, reduce_op,
    reduce_sum_square_op,
};
use crate::trtx::select::{
    arg_max_op, arg_min_op, arg_reduced, clamp_op, cumulative_sum_op, extreme_positions,
    gather_elements_indices, gather_elements_op, gather_indices, gather_nd_indices, gather_nd_op,
    gather_op, scatter_elements_op, scatter_nd_op, softmax_op, triangular_op, where_op,
};
use crate::trtx::session::{HaltView, RequestView, Run};
use crate::trtx::shapes::{elements, mask};
use crate::trtx::types::{
    ActivationType, ElementWiseOperation, MatrixOperation, PoolingType, ReduceOperation,
    ResizeMode, Tensor, TopKOperation, TrtDataType, UnaryOperation,
};
use vstd::prelude::*;

verus! {

impl Run {
    /// Whether the replies keep up with the requests: each request has its reply but for the last
    /// of a conversation that waits for one.
    pub open spec fn in_step(self) -> bool {
        if self.halt == Some(HaltView::Pending) {
            self.requests.len() == self.replies.len() + 1
        } else {
            self.requests.len() <= self.replies.len()
        }
    }

    /// Whether this conversation comes of another by going on: the replies are the same, the
    /// requests of the other are the first of its own, where the other has stopped nothing was
    /// added, and where its replies kept up with its requests they still do.
    #[verifier::opaque]
    pub open spec fn grows(self, from: Run) -> bool {
        &&& from.in_step() ==> self.in_step()
        &&& self.replies == from.replies
        &&& from.requests.len() <= self.requests.len()
        &&& self.requests.take(from.requests.len() as int) == from.requests
        &&& from.halt is Some ==> self == from
    }
}

pub(crate) broadcast proof fn grows_not(n: Run)
    ensures
        #[trigger] n.grows(n),
{
    reveal(Run::grows);
    assert(n.requests.take(n.requests.len() as int) =~= n.requests);
}

pub(crate) broadcast proof fn grows_on(a: Run, b: Run, c: Run)
    requires
        #[trigger] b.grows(a),
        #[trigger] c.grows(b),
    ensures
        c.grows(a),
{
    reveal(Run::grows);
    assert(c.requests.take(a.requests.len() as int) =~= b.requests.take(
        a.requests.len() as int,
    ));
}

pub(crate) broadcast proof fn grows_ask(n: Run, request: RequestView, label: Seq<char>)
    ensures
        (#[trigger] n.ask(request, label)).0.grows(n),
{
    reveal(Run::ask);
    reveal(Run::grows);
    let asked = n.requests.push(request);
    assert(asked.take(n.requests.len() as int) =~= n.requests);
    assert(n.requests.take(n.requests.len() as int) =~= n.requests);
}

pub(crate) broadcast proof fn grows_infer(n: Run, request: RequestView)
    ensures
        (#[trigger] n.infer(request)).0.grows(n),
{
    reveal(Run::infer);
    reveal(Run::grows);
    let asked = n.requests.push(request);
    assert(asked.take(n.requests.len() as int) =~= n.requests);
    assert(n.requests.take(n.requests.len() as int) =~= n.requests);
}

pub(crate) broadcast proof fn grows_tell(n: Run, request: RequestView)
    ensures
        (#[trigger] n.tell(request)).grows(n),
{
    reveal(Run::tell);
    reveal(Run::grows);
    let asked = n.requests.push(request);
    assert(asked.take(n.requests.len() as int) =~= n.requests);
    assert(n.requests.take(n.requests.len() as int) =~= n.requests);
}

pub(crate) broadcast proof fn grows_stop(n: Run, why: HaltView)
    requires
        why != HaltView::Pending,
    ensures
        (#[trigger] n.stop(why)).grows(n),
{
    reveal(Run::grows);
    assert(n.requests.take(n.requests.len() as int) =~= n.requests);
}

pub(crate) broadcast proof fn grows_dims(n: Run, tensor: Tensor, label: Seq<char>)
    ensures
        (#[trigger] n.dims(tensor, label)).0.grows(n),
{
    broadcast use {grows_not, grows_stop};

    reveal(Run::dims);
}

pub(crate) broadcast proof fn grows_stopped(n: Run, after: Run)
    requires
        #[trigger] after.grows(n),
        n.halt is Some,
    ensures
        after == n,
{
    reveal(Run::grows);
}

pub broadcast group group_grows {
    grows_not,
    grows_on,
    grows_ask,
    grows_infer,
    grows_tell,
    grows_stop,
    grows_dims,
}

pub(crate) broadcast proof fn grows_step_output(n: Run, layer: usize, label: Seq<char>)
    ensures
        (#[trigger] n.output(layer, label)).0.grows(n),
{
    broadcast use group_grows;

    reveal(Run::output);
}

pub(crate) broadcast proof fn grows_step_layer(
    n: Run,
    request: RequestView,
    add_label: Seq<char>,
    output_label: Seq<char>,
)
    ensures
        (#[trigger] n.layer(request, add_label, output_label)).0.grows(n),
{
    broadcast use {group_grows, grows_step_output};

    reveal(Run::layer);
}

pub(crate) broadcast proof fn grows_step_identity(
    n: Run,
    input: Tensor,
    add_label: Seq<char>,
    output_label: Seq<char>,
)
    ensures
        (#[trigger] n.identity(input, add_label, output_label)).0.grows(n),
{
    broadcast use {group_grows, grows_step_layer};

    reveal(Run::identity);
}

pub(crate) broadcast proof fn grows_step_slice(
    n: Run,
    input: Tensor,
    start: Seq<i64>,
    size: Seq<i64>,
    stride: Seq<i64>,
    add_label: Seq<char>,
    output_label: Seq<char>,
)
    ensures
        (#[trigger] n.slice(input, start, size, stride, add_label, output_label)).0.grows(n),
{
    broadcast use {group_grows, grows_step_layer};

    reveal(Run::slice);
}

pub(crate) broadcast proof fn grows_slice_op(n: Run, m: Map<u32, Tensor>, op: Operation)
    ensures
        (#[trigger] slice_op(n, m, op)).0.grows(n),
{
    broadcast use {group_grows, grows_step_identity, grows_step_slice};

}

pub(crate) broadcast proof fn grows_split_part(
    n: Run,
    m: Map<u32, Tensor>,
    op: Operation,
    d: Seq<i64>,
    axis: nat,
    sizes: Seq<i32>,
    k: nat,
)
    ensures
        (#[trigger] split_part(n, m, op, d, axis, sizes, k)).0.grows(n),
{
    broadcast use {group_grows, grows_step_slice};

}

pub(crate) broadcast proof fn grows_split_parts(
    n: Run,
    m: Map<u32, Tensor>,
    op: Operation,
    d: Seq<i64>,
    axis: nat,
    sizes: Seq<i32>,
    k: nat,
)
    ensures
        (#[trigger] split_parts(n, m, op, d, axis, sizes, k)).0.grows(n),
    decreases k,
{
    broadcast use {group_grows, grows_split_part};

    if k > 0 {
        grows_split_parts(n, m, op, d, axis, sizes, (k - 1) as nat);
    }
}

pub(crate) broadcast proof fn grows_split_op(n: Run, m: Map<u32, Tensor>, op: Operation)
    ensures
        (#[trigger] split_op(n, m, op)).0.grows(n),
{
    broadcast use {group_grows, grows_split_parts};

}

pub(crate) broadcast proof fn grows_step_reshape(
    n: Run,
    input: Tensor,
    dims: Seq<i64>,
    add_label: Seq<char>,
    set_label: Seq<char>,
    output_label: Seq<char>,
)
    ensures
        (#[trigger] n.reshape(input, dims, add_label, set_label, output_label)).0.grows(n),
{
    broadcast use {group_grows, grows_step_output};

    reveal(Run::reshape);
}

pub(crate) broadcast proof fn grows_squeeze_op(n: Run, m: Map<u32, Tensor>, op: Operation)
    ensures
        (#[trigger] squeeze_op(n, m, op)).0.grows(n),
{
    broadcast use {group_grows, grows_step_reshape};

}

pub(crate) broadcast proof fn grows_unsqueeze_op(n: Run, m: Map<u32, Tensor>, op: Operation)
    ensures
        (#[trigger] unsqueeze_op(n, m, op)).0.grows(n),
{
    broadcast use {group_grows, grows_step_reshape};

}

pub(crate) broadcast proof fn grows_elements(n: Run, dims: Seq<i64>)
    ensures
        (#[trigger] elements(n, dims)).0.grows(n),
{
    broadcast use group_grows;

}

pub(crate) broadcast proof fn grows_step_add_constant(
    n: Run,
    dims: Seq<i64>,
    bytes: Seq<u8>,
    dtype: TrtDataType,
    label: Seq<char>,
)
    ensures
        (#[trigger] n.add_constant(dims, bytes, dtype, label)).0.grows(n),
{
    broadcast use group_grows;

    reveal(Run::add_constant);
}

pub(crate) broadcast proof fn grows_step_constant(
    n: Run,
    dims: Seq<i64>,
    bytes: Seq<u8>,
    dtype: TrtDataType,
    add_label: Seq<char>,
    output_label: Seq<char>,
)
    ensures
        (#[trigger] n.constant(dims, bytes, dtype, add_label, output_label)).0.grows(n),
{
    broadcast use {group_grows, grows_step_add_constant, grows_step_output};

    reveal(Run::constant);
}

pub(crate) broadcast proof fn grows_step_resize(
    n: Run,
    input: Tensor,
    dims: Seq<i64>,
    add_label: Seq<char>,
    output_label: Seq<char>,
)
    ensures
        (#[trigger] n.resize(input, dims, add_label, output_label)).0.grows(n),
{
    broadcast use {group_grows, grows_step_output};

    reveal(Run::resize);
}

pub(crate) broadcast proof fn grows_broadcast_pair(
    n: Run,
    t0: Tensor,
    t1: Tensor,
    op_name: Seq<char>,
)
    ensures
        (#[trigger] broadcast_pair(n, t0, t1, op_name)).0.grows(n),
{
    broadcast use {group_grows, grows_step_resize, grows_step_identity, grows_step_reshape};

    reveal(broadcast_pair);
}

pub(crate) broadcast proof fn grows_step_elementwise(
    n: Run,
    a: Tensor,
    b: Tensor,
    op: ElementWiseOperation,
    add_label: Seq<char>,
    output_label: Seq<char>,
)
    ensures
        (#[trigger] n.elementwise(a, b, op, add_label, output_label)).0.grows(n),
{
    broadcast use {group_grows, grows_step_layer};

    reveal(Run::elementwise);
}

pub(crate) broadcast proof fn grows_expand_op(
    n: Run,
    m: Map<u32, Tensor>,
    graph: GraphInfo,
    op: Operation,
)
    ensures
        (#[trigger] expand_op(n, m, graph, op)).0.grows(n),
{
    broadcast use {
        group_grows, grows_elements, grows_step_constant, grows_broadcast_pair,
        grows_step_elementwise,
    };

}

pub(crate) broadcast proof fn grows_step_concat(
    n: Run,
    inputs: Seq<Tensor>,
    axis: i32,
    add_label: Seq<char>,
    output_label: Seq<char>,
)
    ensures
        (#[trigger] n.concat(inputs, axis, add_label, output_label)).0.grows(n),
{
    broadcast use {group_grows, grows_step_output};

    reveal(Run::concat);
}

pub(crate) broadcast proof fn grows_tile_axis(n: Run, t: Tensor, axis: nat, count: u32)
    ensures
        (#[trigger] tile_axis(n, t, axis, count)).0.grows(n),
{
    broadcast use {group_grows, grows_step_concat};

}

pub(crate) broadcast proof fn grows_tile_axes(n: Run, x: Tensor, counts: Seq<u32>, k: nat)
    ensures
        (#[trigger] tile_axes(n, x, counts, k)).0.grows(n),
    decreases k,
{
    broadcast use {group_grows, grows_tile_axis};

    if k > 0 {
        grows_tile_axes(n, x, counts, (k - 1) as nat);
    }
}

pub(crate) broadcast proof fn grows_tile_op(n: Run, m: Map<u32, Tensor>, op: Operation)
    ensures
        (#[trigger] tile_op(n, m, op)).0.grows(n),
{
    broadcast use {group_grows, grows_tile_axes, grows_step_identity};

}

pub(crate) broadcast proof fn grows_found_inputs(n: Run, m: Map<u32, Tensor>, ids: Seq<u32>, k: nat)
    ensures
        (#[trigger] found_inputs(n, m, ids, k)).0.grows(n),
    decreases k,
{
    broadcast use group_grows;

    if k > 0 {
        grows_found_inputs(n, m, ids, (k - 1) as nat);
    }
}

pub(crate) broadcast proof fn grows_concat_op(n: Run, m: Map<u32, Tensor>, op: Operation)
    ensures
        (#[trigger] concat_op(n, m, op)).0.grows(n),
{
    broadcast use {group_grows, grows_found_inputs, grows_step_output};

}

pub(crate) broadcast proof fn grows_step_transpose(
    n: Run,
    input: Tensor,
    order: Seq<i32>,
    add_label: Seq<char>,
    set_label: Seq<char>,
    output_label: Seq<char>,
)
    ensures
        (#[trigger] n.transpose(input, order, add_label, set_label, output_label)).0.grows(n),
{
    broadcast use {group_grows, grows_step_output};

    reveal(Run::transpose);
}

pub(crate) broadcast proof fn grows_transpose_op(n: Run, m: Map<u32, Tensor>, op: Operation)
    ensures
        (#[trigger] transpose_op(n, m, op)).0.grows(n),
{
    broadcast use {group_grows, grows_step_transpose};

}

pub(crate) broadcast proof fn grows_reshape_op(n: Run, m: Map<u32, Tensor>, op: Operation)
    ensures
        (#[trigger] reshape_op(n, m, op)).0.grows(n),
{
    broadcast use {group_grows, grows_step_reshape};

}

pub(crate) broadcast proof fn grows_scaled_extent(n: Run, extent: i64, scale: u32)
    ensures
        (#[trigger] scaled_extent(n, extent, scale)).0.grows(n),
{
    broadcast use group_grows;

    reveal(scaled_extent);
}

pub(crate) broadcast proof fn grows_resample_sizes(n: Run, op: Operation, extents: (i64, i64))
    ensures
        (#[trigger] resample_sizes(n, op, extents)).0.grows(n),
{
    broadcast use {group_grows, grows_scaled_extent};

    reveal(resample_sizes);
}

pub(crate) broadcast proof fn grows_resampled(n: Run, x: Tensor, dims: Seq<i64>, mode: ResizeMode)
    ensures
        (#[trigger] resampled(n, x, dims, mode)).0.grows(n),
{
    broadcast use {group_grows, grows_step_output};

    reveal(resampled);
}

pub(crate) broadcast proof fn grows_resample2d_op(
    n: Run,
    m: Map<u32, Tensor>,
    graph: GraphInfo,
    op: Operation,
)
    ensures
        (#[trigger] resample2d_op(n, m, graph, op)).0.grows(n),
{
    broadcast use {group_grows, grows_resample_sizes, grows_resampled};

}

pub(crate) broadcast proof fn grows_reverse_op(
    n: Run,
    m: Map<u32, Tensor>,
    graph: GraphInfo,
    op: Operation,
)
    ensures
        (#[trigger] reverse_op(n, m, graph, op)).0.grows(n),
{
    broadcast use {group_grows, grows_step_slice};

}

pub(crate) broadcast proof fn grows_step_cast(
    n: Run,
    input: Tensor,
    dtype: TrtDataType,
    add_label: Seq<char>,
    output_label: Seq<char>,
)
    ensures
        (#[trigger] n.cast(input, dtype, add_label, output_label)).0.grows(n),
{
    broadcast use {group_grows, grows_step_layer};

    reveal(Run::cast);
}

pub(crate) broadcast proof fn grows_to_bool(n: Run, input: Tensor)
    ensures
        (#[trigger] to_bool(n, input)).0.grows(n),
{
    broadcast use {group_grows, grows_step_cast};

}

pub(crate) broadcast proof fn grows_to_float32(n: Run, input: Tensor)
    ensures
        (#[trigger] to_float32(n, input)).0.grows(n),
{
    broadcast use {group_grows, grows_step_cast};

}

pub(crate) broadcast proof fn grows_int32_to_float32(n: Run, input: Tensor)
    ensures
        (#[trigger] int32_to_float32(n, input)).0.grows(n),
{
    broadcast use {group_grows, grows_step_cast};

}

pub(crate) broadcast proof fn grows_to_float16(n: Run, input: Tensor)
    ensures
        (#[trigger] to_float16(n, input)).0.grows(n),
{
    broadcast use {group_grows, grows_step_cast};

}

pub(crate) broadcast proof fn grows_scalar_shape(
    n: Run,
    input: Tensor,
    descriptor_rank: nat,
    label: Seq<char>,
)
    ensures
        (#[trigger] scalar_shape(n, input, descriptor_rank, label)).0.grows(n),
{
    broadcast use group_grows;

}

pub(crate) broadcast proof fn grows_static_sizes(n: Run, graph: GraphInfo, id: u32)
    ensures
        (#[trigger] static_sizes(n, graph, id)).0.grows(n),
{
    broadcast use group_grows;

}

pub(crate) broadcast proof fn grows_broadcast_to(
    n: Run,
    t: Tensor,
    from: Seq<i64>,
    target: Seq<i64>,
    label: Seq<char>,
)
    ensures
        (#[trigger] broadcast_to(n, t, from, target, label)).0.grows(n),
{
    broadcast use {group_grows, grows_step_identity, grows_step_reshape, grows_step_resize};

    reveal(broadcast_to);
}

pub(crate) broadcast proof fn grows_check_bias(
    n: Run,
    graph: GraphInfo,
    bias: Option<u32>,
    name: Seq<char>,
)
    ensures
        (#[trigger] check_bias(n, graph, bias, name)).0.grows(n),
{
    broadcast use group_grows;

    reveal(check_bias);
}

pub(crate) broadcast proof fn grows_conv_source(
    n: Run,
    x: Tensor,
    nhwc: bool,
    half: bool,
    name: Seq<char>,
)
    ensures
        (#[trigger] conv_source(n, x, nhwc, half, name)).0.grows(n),
{
    broadcast use {group_grows, grows_step_transpose, grows_step_cast};

    reveal(conv_source);
}

pub(crate) broadcast proof fn grows_conv_result(
    n: Run,
    x: Tensor,
    nhwc: bool,
    half: bool,
    name: Seq<char>,
)
    ensures
        (#[trigger] conv_result(n, x, nhwc, half, name)).0.grows(n),
{
    broadcast use {group_grows, grows_step_cast, grows_step_transpose};

    reveal(conv_result);
}

pub(crate) broadcast proof fn grows_conv_weights(
    n: Run,
    filter: Tensor,
    filter_half: bool,
    bias: Option<Tensor>,
    bias_half: bool,
    order: Option<Seq<i32>>,
    name: Seq<char>,
)
    ensures
        (#[trigger] conv_weights(n, filter, filter_half, bias, bias_half, order, name)).0.grows(n),
{
    broadcast use {group_grows, grows_step_cast, grows_step_transpose};

    reveal(conv_weights);
}

pub(crate) broadcast proof fn grows_conv_filter(
    n: Run,
    graph: GraphInfo,
    op: Operation,
    purpose: Seq<char>,
    name: Seq<char>,
)
    ensures
        (#[trigger] conv_filter(n, graph, op, purpose, name)).0.grows(n),
{
    broadcast use {group_grows, grows_check_bias};

    reveal(conv_filter);
}

pub(crate) broadcast proof fn grows_conv_parameters(
    n: Run,
    m: Map<u32, Tensor>,
    graph: GraphInfo,
    op: Operation,
    half: bool,
    name: Seq<char>,
)
    ensures
        (#[trigger] conv_parameters(n, m, graph, op, half, name)).0.grows(n),
{
    broadcast use {group_grows, grows_conv_weights};

    reveal(conv_parameters);
}

pub(crate) broadcast proof fn grows_convolved(
    n: Run,
    source: Tensor,
    f: Tensor,
    bias: Option<Tensor>,
    filter: FilterPlan,
    plan: ConvPlan,
)
    ensures
        (#[trigger] convolved(n, source, f, bias, filter, plan)).0.grows(n),
{
    broadcast use {group_grows, grows_step_output};

    reveal(convolved);
}

pub(crate) broadcast proof fn grows_step_padding(
    n: Run,
    input: Tensor,
    pre: (i64, i64),
    post: (i64, i64),
    add_label: Seq<char>,
    output_label: Seq<char>,
)
    ensures
        (#[trigger] n.padding(input, pre, post, add_label, output_label)).0.grows(n),
{
    broadcast use {group_grows, grows_step_layer};

    reveal(Run::padding);
}

pub(crate) broadcast proof fn grows_conv2d_op(
    n: Run,
    m: Map<u32, Tensor>,
    graph: GraphInfo,
    op: Operation,
)
    ensures
        (#[trigger] conv2d_op(n, m, graph, op)).0.grows(n),
{
    broadcast use {
        group_grows, grows_conv_filter, grows_conv_source, grows_step_identity,
        grows_step_padding, grows_conv_parameters, grows_convolved, grows_conv_result,
    };

}

pub(crate) broadcast proof fn grows_fitted(
    n: Run,
    t: Tensor,
    batch: i32,
    current: (i32, i32),
    target: (i32, i32, i32),
)
    ensures
        (#[trigger] fitted(n, t, batch, current, target)).0.grows(n),
{
    broadcast use {group_grows, grows_step_slice, grows_step_padding};

    reveal(fitted);
}

pub(crate) broadcast proof fn grows_adjusted(
    n: Run,
    graph: GraphInfo,
    op: Operation,
    t: Tensor,
    kernel: (i32, i32),
    output_maps: i32,
)
    ensures
        (#[trigger] adjusted(n, graph, op, t, kernel, output_maps)).0.grows(n),
{
    broadcast use {group_grows, grows_fitted};

    reveal(adjusted);
}

pub(crate) broadcast proof fn grows_deconvolved(
    n: Run,
    source: Tensor,
    f: Tensor,
    bias: Option<Tensor>,
    filter: FilterPlan,
    plan: ConvPlan,
    extra: (i32, i32),
)
    ensures
        (#[trigger] deconvolved(n, source, f, bias, filter, plan, extra)).0.grows(n),
{
    broadcast use {group_grows, grows_step_output, grows_step_padding};

    reveal(deconvolved);
}

pub(crate) broadcast proof fn grows_conv_transpose2d_op(
    n: Run,
    m: Map<u32, Tensor>,
    graph: GraphInfo,
    op: Operation,
)
    ensures
        (#[trigger] conv_transpose2d_op(n, m, graph, op)).0.grows(n),
{
    broadcast use {
        group_grows, grows_conv_filter, grows_conv_source, grows_step_identity,
        grows_conv_parameters, grows_deconvolved, grows_adjusted, grows_conv_result,
    };

}

pub(crate) broadcast proof fn grows_binary_inputs(n: Run, m: Map<u32, Tensor>, op: Operation)
    ensures
        (#[trigger] binary_inputs(n, m, op)).0.grows(n),
{
    broadcast use {group_grows, grows_broadcast_pair};

}

pub(crate) broadcast proof fn grows_elementwise_op(
    n: Run,
    m: Map<u32, Tensor>,
    op: Operation,
    code: ElementWiseOperation,
)
    ensures
        (#[trigger] elementwise_op(n, m, op, code)).0.grows(n),
{
    broadcast use {group_grows, grows_binary_inputs, grows_step_elementwise};

}

pub(crate) broadcast proof fn grows_comparison_op(
    n: Run,
    m: Map<u32, Tensor>,
    op: Operation,
    code: ElementWiseOperation,
)
    ensures
        (#[trigger] comparison_op(n, m, op, code)).0.grows(n),
{
    broadcast use {group_grows, grows_binary_inputs, grows_step_elementwise, grows_to_float32};

}

pub(crate) broadcast proof fn grows_promoted(n: Run, graph: GraphInfo, id: u32, t: Tensor)
    ensures
        (#[trigger] promoted(n, graph, id, t)).0.grows(n),
{
    broadcast use {group_grows, grows_to_float32};

}

pub(crate) broadcast proof fn grows_logical_binary_op(
    n: Run,
    m: Map<u32, Tensor>,
    graph: GraphInfo,
    op: Operation,
    code: ElementWiseOperation,
)
    ensures
        (#[trigger] logical_binary_op(n, m, graph, op, code)).0.grows(n),
{
    broadcast use {
        group_grows, grows_promoted, grows_broadcast_pair, grows_to_bool,
        grows_step_elementwise, grows_to_float32,
    };

}

pub(crate) broadcast proof fn grows_greater_or_equal_op(n: Run, m: Map<u32, Tensor>, op: Operation)
    ensures
        (#[trigger] greater_or_equal_op(n, m, op)).0.grows(n),
{
    broadcast use {group_grows, grows_binary_inputs, grows_step_elementwise, grows_to_float32};

}

pub(crate) broadcast proof fn grows_lesser_or_equal_op(n: Run, m: Map<u32, Tensor>, op: Operation)
    ensures
        (#[trigger] lesser_or_equal_op(n, m, op)).0.grows(n),
{
    broadcast use {group_grows, grows_binary_inputs, grows_step_elementwise, grows_to_float32};

}

pub(crate) broadcast proof fn grows_step_unary(
    n: Run,
    input: Tensor,
    op: UnaryOperation,
    add_label: Seq<char>,
    output_label: Seq<char>,
)
    ensures
        (#[trigger] n.unary(input, op, add_label, output_label)).0.grows(n),
{
    broadcast use {group_grows, grows_step_layer};

    reveal(Run::unary);
}

pub(crate) broadcast proof fn grows_not_equal_op(n: Run, m: Map<u32, Tensor>, op: Operation)
    ensures
        (#[trigger] not_equal_op(n, m, op)).0.grows(n),
{
    broadcast use {
        group_grows, grows_binary_inputs, grows_step_elementwise, grows_step_unary,
        grows_to_float32,
    };

}

pub(crate) broadcast proof fn grows_step_activation(
    n: Run,
    input: Tensor,
    kind: ActivationType,
    add_label: Seq<char>,
    output_label: Seq<char>,
)
    ensures
        (#[trigger] n.activation(input, kind, add_label, output_label)).0.grows(n),
{
    broadcast use {group_grows, grows_step_layer};

    reveal(Run::activation);
}

pub(crate) broadcast proof fn grows_activation_op(
    n: Run,
    m: Map<u32, Tensor>,
    op: Operation,
    kind: ActivationType,
)
    ensures
        (#[trigger] activation_op(n, m, op, kind)).0.grows(n),
{
    broadcast use {group_grows, grows_step_activation};

}

pub(crate) broadcast proof fn grows_unary_op(
    n: Run,
    m: Map<u32, Tensor>,
    op: Operation,
    code: UnaryOperation,
)
    ensures
        (#[trigger] unary_op(n, m, op, code)).0.grows(n),
{
    broadcast use {group_grows, grows_step_unary};

}

pub(crate) broadcast proof fn grows_identity_op(n: Run, m: Map<u32, Tensor>, op: Operation)
    ensures
        (#[trigger] identity_op(n, m, op)).0.grows(n),
{
    broadcast use {group_grows, grows_step_identity};

}

pub(crate) broadcast proof fn grows_round_even_op(n: Run, m: Map<u32, Tensor>, op: Operation)
    ensures
        (#[trigger] round_even_op(n, m, op)).0.grows(n),
{
    broadcast use {group_grows, grows_step_unary};

}

pub(crate) broadcast proof fn grows_is_nan_op(n: Run, m: Map<u32, Tensor>, op: Operation)
    ensures
        (#[trigger] is_nan_op(n, m, op)).0.grows(n),
{
    broadcast use {group_grows, grows_step_elementwise, grows_step_unary, grows_to_float32};

}

pub(crate) broadcast proof fn grows_is_infinite_op(n: Run, m: Map<u32, Tensor>, op: Operation)
    ensures
        (#[trigger] is_infinite_op(n, m, op)).0.grows(n),
{
    broadcast use {
        group_grows, grows_step_unary, grows_step_constant, grows_step_elementwise,
        grows_to_float32,
    };

}

pub(crate) broadcast proof fn grows_elu_op(
    n: Run,
    m: Map<u32, Tensor>,
    graph: GraphInfo,
    op: Operation,
)
    ensures
        (#[trigger] elu_op(n, m, graph, op)).0.grows(n),
{
    broadcast use {
        group_grows, grows_activation_op, grows_scalar_shape, grows_step_activation,
        grows_step_unary, grows_step_constant, grows_broadcast_pair, grows_step_elementwise,
    };

}

pub(crate) broadcast proof fn grows_leaky_relu_op(
    n: Run,
    m: Map<u32, Tensor>,
    graph: GraphInfo,
    op: Operation,
)
    ensures
        (#[trigger] leaky_relu_op(n, m, graph, op)).0.grows(n),
{
    broadcast use {
        group_grows, grows_scalar_shape, grows_step_constant, grows_step_activation,
        grows_step_elementwise,
    };

}

pub(crate) broadcast proof fn grows_prelu_op(n: Run, m: Map<u32, Tensor>, op: Operation)
    ensures
        (#[trigger] prelu_op(n, m, op)).0.grows(n),
{
    broadcast use {group_grows, grows_broadcast_pair, grows_step_layer};

}

pub(crate) broadcast proof fn grows_hard_sigmoid_op(
    n: Run,
    m: Map<u32, Tensor>,
    graph: GraphInfo,
    op: Operation,
)
    ensures
        (#[trigger] hard_sigmoid_op(n, m, graph, op)).0.grows(n),
{
    broadcast use {
        group_grows, grows_step_activation, grows_step_add_constant, grows_step_output,
        grows_step_elementwise,
    };

}

pub(crate) broadcast proof fn grows_hard_swish_op(
    n: Run,
    m: Map<u32, Tensor>,
    graph: GraphInfo,
    op: Operation,
)
    ensures
        (#[trigger] hard_swish_op(n, m, graph, op)).0.grows(n),
{
    broadcast use {group_grows, grows_step_add_constant, grows_step_output, grows_step_elementwise};

}

pub(crate) broadcast proof fn grows_linear_op(
    n: Run,
    m: Map<u32, Tensor>,
    graph: GraphInfo,
    op: Operation,
)
    ensures
        (#[trigger] linear_op(n, m, graph, op)).0.grows(n),
{
    broadcast use {
        group_grows, grows_scalar_shape, grows_step_constant, grows_step_elementwise,
        grows_step_identity,
    };

}

pub(crate) broadcast proof fn grows_raised(n: Run, t: Tensor, d: Seq<i64>, rank: nat)
    ensures
        (#[trigger] raised(n, t, d, rank)).0.grows(n),
{
    broadcast use {group_grows, grows_step_reshape};

    reveal(raised);
}

pub(crate) broadcast proof fn grows_step_matrix_multiply(
    n: Run,
    a: Tensor,
    op_a: MatrixOperation,
    b: Tensor,
    op_b: MatrixOperation,
    add_label: Seq<char>,
    output_label: Seq<char>,
)
    ensures
        (#[trigger] n.matrix_multiply(a, op_a, b, op_b, add_label, output_label)).0.grows(n),
{
    broadcast use {group_grows, grows_step_layer};

    reveal(Run::matrix_multiply);
}

pub(crate) broadcast proof fn grows_matmul_op(n: Run, m: Map<u32, Tensor>, op: Operation)
    ensures
        (#[trigger] matmul_op(n, m, op)).0.grows(n),
{
    broadcast use {group_grows, grows_raised, grows_step_matrix_multiply};

}

pub(crate) broadcast proof fn grows_scaled(
    n: Run,
    t: Tensor,
    factor: Scalar,
    dt: DataType,
    whole: Seq<char>,
    name: Seq<char>,
    add_label: Seq<char>,
    output_label: Seq<char>,
)
    ensures
        (#[trigger] scaled(n, t, factor, dt, whole, name, add_label, output_label)).0.grows(n),
{
    broadcast use {group_grows, grows_elements, grows_step_constant, grows_step_elementwise};

    reveal(scaled);
}

pub(crate) broadcast proof fn grows_summed(n: Run, t: Tensor, c: Tensor, add_label: Seq<char>)
    ensures
        (#[trigger] summed(n, t, c, add_label)).0.grows(n),
{
    broadcast use {group_grows, grows_broadcast_pair, grows_step_elementwise};

    reveal(summed);
}

pub(crate) broadcast proof fn grows_gemm_op(
    n: Run,
    m: Map<u32, Tensor>,
    graph: GraphInfo,
    op: Operation,
)
    ensures
        (#[trigger] gemm_op(n, m, graph, op)).0.grows(n),
{
    broadcast use {group_grows, grows_step_matrix_multiply, grows_scaled, grows_summed};

}

pub(crate) broadcast proof fn grows_bytes_to_float(
    n: Run,
    x: Tensor,
    sizes: Seq<u32>,
    shuffle_name: Seq<char>,
    purpose: Seq<char>,
    dequantize_name: Seq<char>,
)
    ensures
        (#[trigger] bytes_to_float(n, x, sizes, shuffle_name, purpose, dequantize_name)).0.grows(n),
{
    broadcast use {group_grows, grows_step_output, grows_step_constant};

    reveal(bytes_to_float);
}

pub(crate) broadcast proof fn grows_floats_to_int32(n: Run, t: Tensor)
    ensures
        (#[trigger] floats_to_int32(n, t)).0.grows(n),
{
    broadcast use {group_grows, grows_step_output};

    reveal(floats_to_int32);
}

pub(crate) broadcast proof fn grows_cast_op(
    n: Run,
    m: Map<u32, Tensor>,
    graph: GraphInfo,
    op: Operation,
    promoted: Set<u32>,
)
    ensures
        (#[trigger] cast_op(n, m, graph, op, promoted)).0.grows(n),
{
    broadcast use {
        group_grows, grows_step_identity, grows_bytes_to_float, grows_floats_to_int32,
        grows_step_cast,
    };

}

pub(crate) broadcast proof fn grows_is_scalar(n: Run, t: Tensor)
    ensures
        (#[trigger] is_scalar(n, t)).0.grows(n),
{
    broadcast use group_grows;

    reveal(is_scalar);
}

pub(crate) broadcast proof fn grows_quantize_zero(
    n: Run,
    graph: GraphInfo,
    op: Operation,
    given: Tensor,
    out: DataType,
)
    ensures
        (#[trigger] quantize_zero(n, graph, op, given, out)).0.grows(n),
{
    broadcast use {group_grows, grows_step_constant};

    reveal(quantize_zero);
}

pub(crate) broadcast proof fn grows_step_dequantize(
    n: Run,
    input: Tensor,
    scale: Tensor,
    dtype: TrtDataType,
    add_label: Seq<char>,
    output_label: Seq<char>,
)
    ensures
        (#[trigger] n.dequantize(input, scale, dtype, add_label, output_label)).0.grows(n),
{
    broadcast use {group_grows, grows_step_layer};

    reveal(Run::dequantize);
}

pub(crate) broadcast proof fn grows_step_select(
    n: Run,
    condition: Tensor,
    on_true: Tensor,
    on_false: Tensor,
    add_label: Seq<char>,
    output_label: Seq<char>,
)
    ensures
        (#[trigger] n.select(condition, on_true, on_false, add_label, output_label)).0.grows(n),
{
    broadcast use {group_grows, grows_step_layer};

    reveal(Run::select);
}

pub(crate) broadcast proof fn grows_unsigned_reading(
    n: Run,
    t: Tensor,
    ty: TrtDataType,
    label: Seq<char>,
)
    ensures
        (#[trigger] unsigned_reading(n, t, ty, label)).0.grows(n),
{
    broadcast use {
        group_grows, grows_step_constant, grows_step_elementwise, grows_to_bool,
        grows_step_select,
    };

    reveal(unsigned_reading);
}

pub(crate) broadcast proof fn grows_byte_values(
    n: Run,
    t: Tensor,
    ty: TrtDataType,
    label: Seq<char>,
    source: DataType,
)
    ensures
        (#[trigger] byte_values(n, t, ty, label, source)).0.grows(n),
{
    broadcast use {
        group_grows, grows_step_constant, grows_step_dequantize, grows_unsigned_reading,
        grows_step_elementwise,
    };

    reveal(byte_values);
}

pub(crate) broadcast proof fn grows_with_axis(n: Run, t: Tensor, label: Seq<char>)
    ensures
        (#[trigger] with_axis(n, t, label)).0.grows(n),
{
    broadcast use {group_grows, grows_step_reshape, grows_step_identity};

    reveal(with_axis);
}

pub(crate) broadcast proof fn grows_prepended(n: Run, t: Tensor, rank: nat, label: Seq<char>)
    ensures
        (#[trigger] prepended(n, t, rank, label)).0.grows(n),
{
    broadcast use {group_grows, grows_step_identity, grows_step_reshape};

    reveal(prepended);
}

pub(crate) broadcast proof fn grows_slab(
    n: Run,
    x: Tensor,
    d: Seq<i64>,
    axis: nat,
    at: i64,
    add_label: Seq<char>,
    output_label: Seq<char>,
)
    ensures
        (#[trigger] slab(n, x, d, axis, at, add_label, output_label)).0.grows(n),
{
    broadcast use {group_grows, grows_step_slice};

    reveal(slab);
}

pub(crate) broadcast proof fn grows_block_part(
    n: Run,
    x: Tensor,
    d: Seq<i64>,
    axis: nat,
    k: nat,
    times: i64,
    label: Seq<char>,
)
    ensures
        (#[trigger] block_part(n, x, d, axis, k, times, label)).0.grows(n),
{
    broadcast use {group_grows, grows_slab, grows_step_concat};

    reveal(block_part);
}

pub(crate) broadcast proof fn grows_block_parts(
    n: Run,
    x: Tensor,
    d: Seq<i64>,
    axis: nat,
    k: nat,
    times: i64,
    label: Seq<char>,
)
    ensures
        (#[trigger] block_parts(n, x, d, axis, k, times, label)).0.grows(n),
    decreases k,
{
    broadcast use {group_grows, grows_block_part};

    if k > 0 {
        grows_block_parts(n, x, d, axis, (k - 1) as nat, times, label);
    }
}

pub(crate) broadcast proof fn grows_block_axis(
    n: Run,
    t: Tensor,
    axis: nat,
    target: u32,
    label: Seq<char>,
)
    ensures
        (#[trigger] block_axis(n, t, axis, target, label)).0.grows(n),
{
    broadcast use {group_grows, grows_block_parts, grows_step_concat};

    reveal(block_axis);
}

pub(crate) broadcast proof fn grows_block_axes(
    n: Run,
    t: Tensor,
    sizes: Seq<u32>,
    k: nat,
    label: Seq<char>,
)
    ensures
        (#[trigger] block_axes(n, t, sizes, k, label)).0.grows(n),
    decreases k,
{
    broadcast use {group_grows, grows_block_axis};

    if k > 0 {
        grows_block_axes(n, t, sizes, (k - 1) as nat, label);
    }
}

pub(crate) broadcast proof fn grows_aligned(
    n: Run,
    t: Tensor,
    sizes: Seq<u32>,
    label: Seq<char>,
    as_float: Option<TrtDataType>,
    source: DataType,
)
    ensures
        (#[trigger] aligned(n, t, sizes, label, as_float, source)).0.grows(n),
{
    broadcast use {
        group_grows, grows_byte_values, grows_with_axis, grows_prepended, grows_block_axes,
    };

    reveal(aligned);
}

pub(crate) broadcast proof fn grows_in_type(n: Run, t: Tensor, ty: TrtDataType, what: Seq<char>)
    ensures
        (#[trigger] in_type(n, t, ty, what)).0.grows(n),
{
    broadcast use {group_grows, grows_step_cast};

    reveal(in_type);
}

pub(crate) broadcast proof fn grows_clamped_to(
    n: Run,
    t: Tensor,
    ty: TrtDataType,
    range: (Known, Known),
)
    ensures
        (#[trigger] clamped_to(n, t, ty, range)).0.grows(n),
{
    broadcast use {group_grows, grows_step_constant, grows_step_elementwise};

    reveal(clamped_to);
}

pub(crate) broadcast proof fn grows_quantized(
    n: Run,
    x: Tensor,
    scale: Tensor,
    zero: Tensor,
    float_ty: TrtDataType,
    out_ty: TrtDataType,
    out: DataType,
)
    ensures
        (#[trigger] quantized(n, x, scale, zero, float_ty, out_ty, out)).0.grows(n),
{
    broadcast use {
        group_grows, grows_with_axis, grows_in_type, grows_step_elementwise, grows_step_unary,
        grows_clamped_to, grows_step_cast,
    };

    reveal(quantized);
}

pub(crate) broadcast proof fn grows_quantize_linear_op(
    n: Run,
    m: Map<u32, Tensor>,
    graph: GraphInfo,
    op: Operation,
)
    ensures
        (#[trigger] quantize_linear_op(n, m, graph, op)).0.grows(n),
{
    broadcast use {
        group_grows, grows_is_scalar, grows_quantize_zero, grows_aligned, grows_quantized,
        grows_step_reshape, grows_with_axis, grows_step_layer,
    };

}

pub(crate) broadcast proof fn grows_dequantize_zero(
    n: Run,
    zero: Tensor,
    ty: TrtDataType,
    source: DataType,
    scalar: bool,
    rank: nat,
)
    ensures
        (#[trigger] dequantize_zero(n, zero, ty, source, scalar, rank)).0.grows(n),
{
    broadcast use {
        group_grows, grows_byte_values, grows_with_axis, grows_is_scalar, grows_step_identity,
    };

    reveal(dequantize_zero);
}

pub(crate) broadcast proof fn grows_dequantize_linear_op(
    n: Run,
    m: Map<u32, Tensor>,
    graph: GraphInfo,
    op: Operation,
)
    ensures
        (#[trigger] dequantize_linear_op(n, m, graph, op)).0.grows(n),
{
    broadcast use {
        group_grows, grows_with_axis, grows_step_dequantize, grows_dequantize_zero,
        grows_step_cast, grows_step_elementwise,
    };

}

pub(crate) broadcast proof fn grows_pool_window(n: Run, graph: GraphInfo, id: u32, plan: PoolPlan)
    ensures
        (#[trigger] pool_window(n, graph, id, plan)).0.grows(n),
{
    broadcast use group_grows;

    reveal(pool_window);
}

pub(crate) broadcast proof fn grows_channels_second(n: Run, t: Tensor, nhwc: bool, what: Seq<char>)
    ensures
        (#[trigger] channels_second(n, t, nhwc, what)).0.grows(n),
{
    broadcast use {group_grows, grows_step_transpose};

    reveal(channels_second);
}

pub(crate) broadcast proof fn grows_rounds_up(n: Run, output: u32, plan: PoolPlan)
    ensures
        (#[trigger] rounds_up(n, output, plan)).0.grows(n),
{
    broadcast use group_grows;

    reveal(rounds_up);
}

pub(crate) broadcast proof fn grows_dilated_extents(
    n: Run,
    output: u32,
    d: Seq<i64>,
    window: (u32, u32),
    plan: PoolPlan,
    kind: Dilated,
)
    ensures
        (#[trigger] dilated_extents(n, output, d, window, plan, kind)).0.grows(n),
{
    broadcast use {group_grows, grows_rounds_up};

    reveal(dilated_extents);
}

pub(crate) broadcast proof fn grows_step_add_owned_constant(
    n: Run,
    dims: Seq<i64>,
    bytes: Seq<u8>,
    dtype: TrtDataType,
    label: Seq<char>,
)
    ensures
        (#[trigger] n.add_owned_constant(dims, bytes, dtype, label)).0.grows(n),
{
    broadcast use group_grows;

    reveal(Run::add_owned_constant);
}

pub(crate) broadcast proof fn grows_outside_constant(n: Run, d: Seq<i64>, kind: Dilated)
    ensures
        (#[trigger] outside_constant(n, d, kind)).0.grows(n),
{
    broadcast use {group_grows, grows_step_add_owned_constant};

    reveal(outside_constant);
}

pub(crate) broadcast proof fn grows_tap(n: Run, g: Grid, row: nat, col: nat, k: nat)
    ensures
        (#[trigger] tap(n, g, row, col, k)).0.grows(n),
{
    broadcast use {group_grows, grows_step_slice, grows_step_output};

    reveal(tap);
}

pub(crate) broadcast proof fn grows_taps(n: Run, g: Grid, row: nat, col: nat, k: nat)
    ensures
        (#[trigger] taps(n, g, row, col, k)).0.grows(n),
    decreases k,
{
    broadcast use {group_grows, grows_tap};

    if k > 0 {
        grows_taps(n, g, row, col, (k - 1) as nat);
    }
}

pub(crate) broadcast proof fn grows_combine(n: Run, kind: Dilated, a: Tensor, b: Tensor)
    ensures
        (#[trigger] combine(n, kind, a, b)).0.grows(n),
{
    broadcast use {group_grows, grows_step_elementwise};

    reveal(combine);
}

pub(crate) broadcast proof fn grows_combined(n: Run, kind: Dilated, list: Seq<Tensor>, k: nat)
    ensures
        (#[trigger] combined(n, kind, list, k)).0.grows(n),
    decreases k,
{
    broadcast use {group_grows, grows_combine};

    if k > 1 {
        grows_combined(n, kind, list, (k - 1) as nat);
    }
}

pub(crate) broadcast proof fn grows_cell(n: Run, g: Grid, row: nat, col: nat)
    ensures
        (#[trigger] cell(n, g, row, col)).0.grows(n),
{
    broadcast use {group_grows, grows_taps, grows_combined};

    reveal(cell);
}

pub(crate) broadcast proof fn grows_cells(n: Run, g: Grid, row: nat, k: nat)
    ensures
        (#[trigger] cells(n, g, row, k)).0.grows(n),
    decreases k,
{
    broadcast use {group_grows, grows_cell};

    if k > 0 {
        grows_cells(n, g, row, (k - 1) as nat);
    }
}

pub(crate) broadcast proof fn grows_joined(n: Run, parts: Seq<Tensor>, axis: i32)
    ensures
        (#[trigger] joined(n, parts, axis)).0.grows(n),
{
    broadcast use {group_grows, grows_step_identity, grows_step_concat};

    reveal(joined);
}

pub(crate) broadcast proof fn grows_grid_row(n: Run, g: Grid, row: nat, width: nat)
    ensures
        (#[trigger] grid_row(n, g, row, width)).0.grows(n),
{
    broadcast use {group_grows, grows_cells, grows_joined};

    reveal(grid_row);
}

pub(crate) broadcast proof fn grows_grid_rows(n: Run, g: Grid, width: nat, k: nat)
    ensures
        (#[trigger] grid_rows(n, g, width, k)).0.grows(n),
    decreases k,
{
    broadcast use {group_grows, grows_grid_row};

    if k > 0 {
        grows_grid_rows(n, g, width, (k - 1) as nat);
    }
}

pub(crate) broadcast proof fn grows_dilated_pool(
    n: Run,
    x: Tensor,
    output: u32,
    window: (u32, u32),
    plan: PoolPlan,
    kind: Dilated,
)
    ensures
        (#[trigger] dilated_pool(n, x, output, window, plan, kind)).0.grows(n),
{
    broadcast use {
        group_grows, grows_dilated_extents, grows_outside_constant, grows_grid_rows,
        grows_joined,
    };

    reveal(dilated_pool);
}

pub(crate) broadcast proof fn grows_dilated_result(
    n: Run,
    graph: GraphInfo,
    output: u32,
    t: Tensor,
    kind: Dilated,
)
    ensures
        (#[trigger] dilated_result(n, graph, output, t, kind)).0.grows(n),
{
    broadcast use {group_grows, grows_step_cast};

    reveal(dilated_result);
}

pub(crate) broadcast proof fn grows_max_pool_dilated(
    n: Run,
    graph: GraphInfo,
    x: Tensor,
    output: u32,
    plan: PoolPlan,
    window: (u32, u32),
)
    ensures
        (#[trigger] max_pool_dilated(n, graph, x, output, plan, window)).0.grows(n),
{
    broadcast use {group_grows, grows_dilated_pool, grows_dilated_result};

    reveal(max_pool_dilated);
}

pub(crate) broadcast proof fn grows_average_pool_dilated(
    n: Run,
    graph: GraphInfo,
    x: Tensor,
    output: u32,
    plan: PoolPlan,
    window: (u32, u32),
)
    ensures
        (#[trigger] average_pool_dilated(n, graph, x, output, plan, window)).0.grows(n),
{
    broadcast use {
        group_grows, grows_dilated_pool, grows_step_add_owned_constant, grows_step_output,
        grows_step_elementwise, grows_dilated_result,
    };

    reveal(average_pool_dilated);
}

pub(crate) broadcast proof fn grows_pooled_dilated(
    n: Run,
    graph: GraphInfo,
    op: Operation,
    x: Tensor,
    kind: PoolingType,
    window: (u32, u32),
)
    ensures
        (#[trigger] pooled_dilated(n, graph, op, x, kind, window)).0.grows(n),
{
    broadcast use {
        group_grows, grows_step_cast, grows_max_pool_dilated, grows_average_pool_dilated,
        grows_step_transpose,
    };

    reveal(pooled_dilated);
}

pub(crate) broadcast proof fn grows_pool_settings(n: Run, l: usize, plan: PoolPlan, up: bool)
    ensures
        (#[trigger] pool_settings(n, l, plan, up)).0.grows(n),
{
    broadcast use group_grows;

    reveal(pool_settings);
}

pub(crate) broadcast proof fn grows_channels_last(n: Run, t: Tensor, nhwc: bool, what: Seq<char>)
    ensures
        (#[trigger] channels_last(n, t, nhwc, what)).0.grows(n),
{
    broadcast use {group_grows, grows_step_transpose};

    reveal(channels_last);
}

pub(crate) broadcast proof fn grows_pooling_op(
    n: Run,
    m: Map<u32, Tensor>,
    graph: GraphInfo,
    op: Operation,
    kind: PoolingType,
)
    ensures
        (#[trigger] pooling_op(n, m, graph, op, kind)).0.grows(n),
{
    broadcast use {
        group_grows, grows_pool_window, grows_channels_second, grows_pooled_dilated,
        grows_rounds_up, grows_pool_settings, grows_step_output, grows_channels_last,
    };

}

pub(crate) broadcast proof fn grows_global_pooling_op(
    n: Run,
    m: Map<u32, Tensor>,
    op: Operation,
    kind: PoolingType,
)
    ensures
        (#[trigger] global_pooling_op(n, m, op, kind)).0.grows(n),
{
    broadcast use {group_grows, grows_channels_second, grows_step_layer, grows_channels_last};

}

pub(crate) broadcast proof fn grows_channel_stats(
    n: Run,
    stats: Tensor,
    input: Tensor,
    axis: i64,
    op_name: Seq<char>,
)
    ensures
        (#[trigger] channel_stats(n, stats, input, axis, op_name)).0.grows(n),
{
    broadcast use {group_grows, grows_step_transpose, grows_step_reshape};

    reveal(channel_stats);
}

pub(crate) broadcast proof fn grows_step_named_layer(
    n: Run,
    request: RequestView,
    name: Seq<char>,
    add_label: Seq<char>,
    output_label: Seq<char>,
)
    ensures
        (#[trigger] n.named_layer(request, name, add_label, output_label)).0.grows(n),
{
    broadcast use {group_grows, grows_step_output};

    reveal(Run::named_layer);
}

pub(crate) broadcast proof fn grows_guarded_variance(
    n: Run,
    graph: GraphInfo,
    op: Operation,
    variance: Tensor,
    epsilon: Scalar,
)
    ensures
        (#[trigger] guarded_variance(n, graph, op, variance, epsilon)).0.grows(n),
{
    broadcast use {group_grows, grows_elements, grows_step_constant, grows_step_elementwise};

    reveal(guarded_variance);
}

pub(crate) broadcast proof fn grows_batch_normalization_op(
    n: Run,
    m: Map<u32, Tensor>,
    graph: GraphInfo,
    op: Operation,
)
    ensures
        (#[trigger] batch_normalization_op(n, m, graph, op)).0.grows(n),
{
    broadcast use {
        group_grows, grows_channel_stats, grows_step_named_layer, grows_guarded_variance,
    };

}

pub(crate) broadcast proof fn grows_step_reduce(
    n: Run,
    input: Tensor,
    op: ReduceOperation,
    axes: u32,
    keep_dims: bool,
    add_label: Seq<char>,
    output_label: Seq<char>,
)
    ensures
        (#[trigger] n.reduce(input, op, axes, keep_dims, add_label, output_label)).0.grows(n),
{
    broadcast use {group_grows, grows_step_layer};

    reveal(Run::reduce);
}

pub(crate) broadcast proof fn grows_instance_normalized(
    n: Run,
    graph: GraphInfo,
    op: Operation,
    x: Tensor,
    bits: u32,
    epsilon: Scalar,
)
    ensures
        (#[trigger] instance_normalized(n, graph, op, x, bits, epsilon)).0.grows(n),
{
    broadcast use {
        group_grows, grows_step_reduce, grows_step_elementwise, grows_elements,
        grows_step_constant, grows_step_unary,
    };

    reveal(instance_normalized);
}

pub(crate) broadcast proof fn grows_instance_normalization_op(
    n: Run,
    m: Map<u32, Tensor>,
    graph: GraphInfo,
    op: Operation,
)
    ensures
        (#[trigger] instance_normalization_op(n, m, graph, op)).0.grows(n),
{
    broadcast use {
        group_grows, grows_instance_normalized, grows_step_reshape, grows_step_elementwise,
    };

}

pub(crate) broadcast proof fn grows_layer_norm_of_scalar(
    n: Run,
    m: Map<u32, Tensor>,
    graph: GraphInfo,
    op: Operation,
    bias: Option<u32>,
)
    ensures
        (#[trigger] layer_norm_of_scalar(n, m, graph, op, bias)).0.grows(n),
{
    broadcast use {group_grows, grows_step_constant, grows_step_reshape, grows_step_elementwise};

    reveal(layer_norm_of_scalar);
}

pub(crate) broadcast proof fn grows_filled(
    n: Run,
    dims: Seq<i64>,
    count: nat,
    s: Scalar,
    t: DataType,
    add_label: Seq<
    char,
>,
    output_label: Seq<char>,
)
    ensures
        (#[trigger] filled(n, dims, count, s, t, add_label, output_label)).0.grows(n),
{
    broadcast use {group_grows, grows_step_constant};

}

pub(crate) broadcast proof fn grows_layer_bias(
    n: Run,
    graph: GraphInfo,
    id: u32,
    bias: Tensor,
    d: Seq<i64>,
    count: nat,
    dt: DataType,
)
    ensures
        (#[trigger] layer_bias(n, graph, id, bias, d, count, dt)).0.grows(n),
{
    broadcast use {group_grows, grows_step_constant, grows_filled, grows_broadcast_pair};

    reveal(layer_bias);
}

pub(crate) broadcast proof fn grows_layer_norm_over_nothing(
    n: Run,
    m: Map<u32, Tensor>,
    graph: GraphInfo,
    op: Operation,
    bias: Option<u32>,
    d: Seq<i64>,
)
    ensures
        (#[trigger] layer_norm_over_nothing(n, m, graph, op, bias, d)).0.grows(n),
{
    broadcast use {
        group_grows, grows_elements, grows_filled, grows_layer_bias, grows_step_elementwise,
    };

    reveal(layer_norm_over_nothing);
}

pub(crate) broadcast proof fn grows_mask(n: Run, axes: Seq<u32>)
    ensures
        (#[trigger] mask(n, axes)).0.grows(n),
{
    broadcast use group_grows;

}

pub(crate) broadcast proof fn grows_layer_normalized(
    n: Run,
    graph: GraphInfo,
    op: Operation,
    x: Tensor,
    bits: u32,
    epsilon: Scalar,
)
    ensures
        (#[trigger] layer_normalized(n, graph, op, x, bits, epsilon)).0.grows(n),
{
    broadcast use {
        group_grows, grows_step_reduce, grows_step_elementwise, grows_elements,
        grows_step_constant, grows_step_unary,
    };

    reveal(layer_normalized);
}

pub(crate) broadcast proof fn grows_layer_parameter(
    n: Run,
    tensor: Tensor,
    result: Tensor,
    op_name: Seq<char>,
    axes: Seq<u32>,
)
    ensures
        (#[trigger] layer_parameter(n, tensor, result, op_name, axes)).0.grows(n),
{
    broadcast use {group_grows, grows_step_identity, grows_step_output};

    reveal(layer_parameter);
}

pub(crate) broadcast proof fn grows_layer_normalization_op(
    n: Run,
    m: Map<u32, Tensor>,
    graph: GraphInfo,
    op: Operation,
)
    ensures
        (#[trigger] layer_normalization_op(n, m, graph, op)).0.grows(n),
{
    broadcast use {
        group_grows, grows_layer_norm_of_scalar, grows_layer_norm_over_nothing, grows_mask,
        grows_layer_normalized, grows_layer_parameter, grows_step_elementwise,
    };

}

pub(crate) broadcast proof fn grows_over_axes(
    n: Run,
    t: Tensor,
    op: ReduceOperation,
    axes: Seq<u32>,
    keep: bool,
    add_label: Seq<char>,
    output_label: Seq<char>,
)
    ensures
        (#[trigger] over_axes(n, t, op, axes, keep, add_label, output_label)).0.grows(n),
{
    broadcast use {group_grows, grows_mask, grows_step_reduce};

    reveal(over_axes);
}

pub(crate) broadcast proof fn grows_reduce_op(
    n: Run,
    m: Map<u32, Tensor>,
    op: Operation,
    reduction: ReduceOperation,
)
    ensures
        (#[trigger] reduce_op(n, m, op, reduction)).0.grows(n),
{
    broadcast use {group_grows, grows_step_identity, grows_over_axes};

}

pub(crate) broadcast proof fn grows_reduce_l1_op(n: Run, m: Map<u32, Tensor>, op: Operation)
    ensures
        (#[trigger] reduce_l1_op(n, m, op)).0.grows(n),
{
    broadcast use {group_grows, grows_step_unary, grows_over_axes};

}

pub(crate) broadcast proof fn grows_reduce_l2_op(
    n: Run,
    m: Map<u32, Tensor>,
    graph: GraphInfo,
    op: Operation,
)
    ensures
        (#[trigger] reduce_l2_op(n, m, graph, op)).0.grows(n),
{
    broadcast use {
        group_grows, grows_step_elementwise, grows_step_unary, grows_mask, grows_to_float32,
        grows_step_reduce, grows_to_float16,
    };

}

pub(crate) broadcast proof fn grows_reduce_log_sum_op(n: Run, m: Map<u32, Tensor>, op: Operation)
    ensures
        (#[trigger] reduce_log_sum_op(n, m, op)).0.grows(n),
{
    broadcast use {group_grows, grows_step_unary, grows_over_axes};

}

pub(crate) broadcast proof fn grows_reduce_log_sum_exp_op(
    n: Run,
    m: Map<u32, Tensor>,
    op: Operation,
)
    ensures
        (#[trigger] reduce_log_sum_exp_op(n, m, op)).0.grows(n),
{
    broadcast use {group_grows, grows_step_unary, grows_step_identity, grows_over_axes};

}

pub(crate) broadcast proof fn grows_reduce_sum_square_op(n: Run, m: Map<u32, Tensor>, op: Operation)
    ensures
        (#[trigger] reduce_sum_square_op(n, m, op)).0.grows(n),
{
    broadcast use {group_grows, grows_step_elementwise, grows_over_axes};

}

pub(crate) broadcast proof fn grows_truth_constant(n: Run, id: u32, sizes: Seq<u32>)
    ensures
        (#[trigger] truth_constant(n, id, sizes)).0.grows(n),
{
    broadcast use {group_grows, grows_elements, grows_step_constant};

    reveal(truth_constant);
}

pub(crate) broadcast proof fn grows_logical_not_op(
    n: Run,
    m: Map<u32, Tensor>,
    graph: GraphInfo,
    op: Operation,
)
    ensures
        (#[trigger] logical_not_op(n, m, graph, op)).0.grows(n),
{
    broadcast use {
        group_grows, grows_truth_constant, grows_to_bool, grows_step_unary, grows_to_float32,
    };

}

pub(crate) broadcast proof fn grows_gather_indices(
    n: Run,
    indices: Tensor,
    shape: Seq<i64>,
    low: Seq<u8>,
    high: Seq<u8>,
)
    ensures
        (#[trigger] gather_indices(n, indices, shape, low, high)).0.grows(n),
{
    broadcast use {group_grows, grows_step_add_constant, grows_step_output, grows_step_elementwise};

    reveal(gather_indices);
}

pub(crate) broadcast proof fn grows_gather_op(
    n: Run,
    m: Map<u32, Tensor>,
    graph: GraphInfo,
    op: Operation,
)
    ensures
        (#[trigger] gather_op(n, m, graph, op)).0.grows(n),
{
    broadcast use {group_grows, grows_gather_indices, grows_step_layer};

}

pub(crate) broadcast proof fn grows_gather_nd_indices(
    n: Run,
    indices: Tensor,
    shape: Seq<i64>,
    low: Seq<u8>,
    high: Seq<u8>,
)
    ensures
        (#[trigger] gather_nd_indices(n, indices, shape, low, high)).0.grows(n),
{
    broadcast use {group_grows, grows_step_add_constant, grows_step_output, grows_step_elementwise};

    reveal(gather_nd_indices);
}

pub(crate) broadcast proof fn grows_gather_nd_op(
    n: Run,
    m: Map<u32, Tensor>,
    graph: GraphInfo,
    op: Operation,
)
    ensures
        (#[trigger] gather_nd_op(n, m, graph, op)).0.grows(n),
{
    broadcast use {group_grows, grows_elements, grows_gather_nd_indices, grows_step_output};

}

pub(crate) broadcast proof fn grows_scatter_elements_op(n: Run, m: Map<u32, Tensor>, op: Operation)
    ensures
        (#[trigger] scatter_elements_op(n, m, op)).0.grows(n),
{
    broadcast use {group_grows, grows_step_output};

}

pub(crate) broadcast proof fn grows_scatter_nd_op(n: Run, m: Map<u32, Tensor>, op: Operation)
    ensures
        (#[trigger] scatter_nd_op(n, m, op)).0.grows(n),
{
    broadcast use {group_grows, grows_step_layer};

}

pub(crate) broadcast proof fn grows_extreme_positions(
    n: Run,
    x: Tensor,
    op: TopKOperation,
    axes: u32,
    label: Seq<char>,
)
    ensures
        (#[trigger] extreme_positions(n, x, op, axes, label)).0.grows(n),
{
    broadcast use group_grows;

    reveal(extreme_positions);
}

pub(crate) broadcast proof fn grows_arg_reduced(
    n: Run,
    graph: GraphInfo,
    id: u32,
    x: Tensor,
    axis: u32,
    keep_dims: bool,
    op: TopKOperation,
    label: Seq<char>,
)
    ensures
        (#[trigger] arg_reduced(n, graph, id, x, axis, keep_dims, op, label)).0.grows(n),
{
    broadcast use {group_grows, grows_step_reshape, grows_extreme_positions, grows_step_transpose};

    reveal(arg_reduced);
}

pub(crate) broadcast proof fn grows_arg_max_op(
    n: Run,
    m: Map<u32, Tensor>,
    graph: GraphInfo,
    op: Operation,
)
    ensures
        (#[trigger] arg_max_op(n, m, graph, op)).0.grows(n),
{
    broadcast use {group_grows, grows_arg_reduced, grows_int32_to_float32};

}

pub(crate) broadcast proof fn grows_arg_min_op(
    n: Run,
    m: Map<u32, Tensor>,
    graph: GraphInfo,
    op: Operation,
)
    ensures
        (#[trigger] arg_min_op(n, m, graph, op)).0.grows(n),
{
    broadcast use {group_grows, grows_arg_reduced, grows_int32_to_float32};

}

pub(crate) broadcast proof fn grows_clamp_op(
    n: Run,
    m: Map<u32, Tensor>,
    graph: GraphInfo,
    op: Operation,
)
    ensures
        (#[trigger] clamp_op(n, m, graph, op)).0.grows(n),
{
    broadcast use {group_grows, grows_scalar_shape, grows_step_constant, grows_step_elementwise};

}

pub(crate) broadcast proof fn grows_where_op(
    n: Run,
    m: Map<u32, Tensor>,
    graph: GraphInfo,
    op: Operation,
)
    ensures
        (#[trigger] where_op(n, m, graph, op)).0.grows(n),
{
    broadcast use {
        group_grows, grows_static_sizes, grows_to_float32, grows_broadcast_to, grows_to_bool,
        grows_step_select,
    };

}

pub(crate) broadcast proof fn grows_pad_last_axes(
    n: Run,
    x: Tensor,
    d: Seq<i64>,
    pre: Seq<i32>,
    post: Seq<i32>,
)
    ensures
        (#[trigger] pad_last_axes(n, x, d, pre, post)).0.grows(n),
{
    broadcast use {group_grows, grows_step_reshape, grows_step_identity, grows_step_padding};

    reveal(pad_last_axes);
}

pub(crate) broadcast proof fn grows_pad_axis_edge(n: Run, x: Tensor, axis: nat, pre: i32, post: i32)
    ensures
        (#[trigger] pad_axis_edge(n, x, axis, pre, post)).0.grows(n),
{
    broadcast use {group_grows, grows_step_identity, grows_slab, grows_step_concat};

    reveal(pad_axis_edge);
}

pub(crate) broadcast proof fn grows_slabs(
    n: Run,
    x: Tensor,
    d: Seq<i64>,
    axis: nat,
    positions: Seq<i64>,
    k: nat,
    add_label: Seq<char>,
    output_label: Seq<char>,
)
    ensures
        (#[trigger] slabs(n, x, d, axis, positions, k, add_label, output_label)).0.grows(n),
    decreases k,
{
    broadcast use {group_grows, grows_slab};

    if k > 0 {
        grows_slabs(n, x, d, axis, positions, (k - 1) as nat, add_label, output_label);
    }
}

pub(crate) broadcast proof fn grows_pad_axis_reflect(
    n: Run,
    x: Tensor,
    axis: nat,
    pre: i32,
    post: i32,
)
    ensures
        (#[trigger] pad_axis_reflect(n, x, axis, pre, post)).0.grows(n),
{
    broadcast use {group_grows, grows_step_identity, grows_slabs, grows_step_concat};

    reveal(pad_axis_reflect);
}

pub(crate) broadcast proof fn grows_filler(
    n: Run,
    d: Seq<i64>,
    axis: nat,
    extent: i32,
    unit: Seq<u8>,
    dtype: TrtDataType,
)
    ensures
        (#[trigger] filler(n, d, axis, extent, unit, dtype)).0.grows(n),
{
    broadcast use {group_grows, grows_elements, grows_step_constant};

    reveal(filler);
}

pub(crate) broadcast proof fn grows_pad_axis_constant(
    n: Run,
    x: Tensor,
    axis: nat,
    pre: i32,
    post: i32,
    fill: FloatReading,
)
    ensures
        (#[trigger] pad_axis_constant(n, x, axis, pre, post, fill)).0.grows(n),
{
    broadcast use {group_grows, grows_step_identity, grows_filler, grows_step_concat};

    reveal(pad_axis_constant);
}

pub(crate) broadcast proof fn grows_pad_axis(
    n: Run,
    x: Tensor,
    axis: nat,
    pre: i32,
    post: i32,
    mode: PadMode,
    fill: FloatReading,
)
    ensures
        (#[trigger] pad_axis(n, x, axis, pre, post, mode, fill)).0.grows(n),
{
    broadcast use {
        group_grows, grows_pad_axis_edge, grows_pad_axis_reflect, grows_pad_axis_constant,
    };

    reveal(pad_axis);
}

pub(crate) broadcast proof fn grows_pad_axes(
    n: Run,
    x: Tensor,
    pre: Seq<i32>,
    post: Seq<i32>,
    k: nat,
    mode: PadMode,
    fill: FloatReading,
)
    ensures
        (#[trigger] pad_axes(n, x, pre, post, k, mode, fill)).0.grows(n),
    decreases k,
{
    broadcast use {group_grows, grows_pad_axis};

    if k > 0 {
        grows_pad_axes(n, x, pre, post, (k - 1) as nat, mode, fill);
    }
}

pub(crate) broadcast proof fn grows_pad_op(n: Run, m: Map<u32, Tensor>, op: Operation)
    ensures
        (#[trigger] pad_op(n, m, op)).0.grows(n),
{
    broadcast use {group_grows, grows_step_identity, grows_pad_last_axes, grows_pad_axes};

}

pub(crate) broadcast proof fn grows_softmax_op(n: Run, m: Map<u32, Tensor>, op: Operation)
    ensures
        (#[trigger] softmax_op(n, m, op)).0.grows(n),
{
    broadcast use {group_grows, grows_step_layer};

}

pub(crate) broadcast proof fn grows_gather_elements_indices(
    n: Run,
    indices: Tensor,
    shape: Seq<i64>,
    low: Seq<u8>,
    high: Seq<u8>,
)
    ensures
        (#[trigger] gather_elements_indices(n, indices, shape, low, high)).0.grows(n),
{
    broadcast use {group_grows, grows_step_add_constant, grows_step_output, grows_step_elementwise};

    reveal(gather_elements_indices);
}

pub(crate) broadcast proof fn grows_gather_elements_op(
    n: Run,
    m: Map<u32, Tensor>,
    graph: GraphInfo,
    op: Operation,
)
    ensures
        (#[trigger] gather_elements_op(n, m, graph, op)).0.grows(n),
{
    broadcast use {group_grows, grows_gather_elements_indices, grows_step_output};

}

pub(crate) broadcast proof fn grows_l2_pool_dilated(
    n: Run,
    x: Tensor,
    output: u32,
    plan: PoolPlan,
    window: (u32, u32),
)
    ensures
        (#[trigger] l2_pool_dilated(n, x, output, plan, window)).0.grows(n),
{
    broadcast use {group_grows, grows_dilated_pool};

    reveal(l2_pool_dilated);
}

pub(crate) broadcast proof fn grows_summed_squares(
    n: Run,
    x: Tensor,
    output: u32,
    plan: PoolPlan,
    window: (u32, u32),
    half: bool,
)
    ensures
        (#[trigger] summed_squares(n, x, output, plan, window, half)).0.grows(n),
{
    broadcast use {
        group_grows, grows_rounds_up, grows_pool_settings, grows_step_output, grows_step_cast,
        grows_step_add_owned_constant, grows_step_elementwise,
    };

    reveal(summed_squares);
}

pub(crate) broadcast proof fn grows_l2_pool2d_op(
    n: Run,
    m: Map<u32, Tensor>,
    graph: GraphInfo,
    op: Operation,
)
    ensures
        (#[trigger] l2_pool2d_op(n, m, graph, op)).0.grows(n),
{
    broadcast use {
        group_grows, grows_step_elementwise, grows_pool_window, grows_channels_second,
        grows_step_cast, grows_l2_pool_dilated, grows_summed_squares, grows_channels_last,
        grows_step_unary,
    };

}

pub(crate) broadcast proof fn grows_cumulative_sum_op(
    n: Run,
    m: Map<u32, Tensor>,
    graph: GraphInfo,
    op: Operation,
)
    ensures
        (#[trigger] cumulative_sum_op(n, m, graph, op)).0.grows(n),
{
    broadcast use {group_grows, grows_step_constant, grows_step_layer};

}

pub(crate) broadcast proof fn grows_triangular_op(
    n: Run,
    m: Map<u32, Tensor>,
    graph: GraphInfo,
    op: Operation,
)
    ensures
        (#[trigger] triangular_op(n, m, graph, op)).0.grows(n),
{
    broadcast use {
        group_grows, grows_step_add_owned_constant, grows_step_output, grows_step_elementwise,
    };

}

pub(crate) broadcast proof fn grows_operation_added(
    n: Run,
    m: Map<u32, Tensor>,
    graph: GraphInfo,
    op: Operation,
    promoted: Set<u32>,
)
    ensures
        (#[trigger] operation_added(n, m, graph, op, promoted)).0.grows(n),
{
    broadcast use {
        group_grows, grows_elementwise_op, grows_activation_op, grows_elu_op,
        grows_leaky_relu_op, grows_prelu_op, grows_hard_sigmoid_op, grows_hard_swish_op,
        grows_unary_op, grows_identity_op, grows_cast_op, grows_quantize_linear_op,
        grows_dequantize_linear_op, grows_matmul_op, grows_gemm_op, grows_conv2d_op,
        grows_conv_transpose2d_op, grows_pooling_op, grows_global_pooling_op,
        grows_batch_normalization_op, grows_instance_normalization_op,
        grows_layer_normalization_op, grows_reduce_op, grows_reduce_l1_op, grows_reduce_l2_op,
        grows_reduce_log_sum_op, grows_reduce_log_sum_exp_op, grows_reduce_sum_square_op,
        grows_slice_op, grows_split_op, grows_squeeze_op, grows_unsqueeze_op, grows_expand_op,
        grows_tile_op, grows_comparison_op, grows_greater_or_equal_op, grows_lesser_or_equal_op,
        grows_not_equal_op, grows_logical_binary_op, grows_logical_not_op, grows_gather_op,
        grows_gather_nd_op, grows_scatter_elements_op, grows_scatter_nd_op, grows_arg_max_op,
        grows_arg_min_op, grows_clamp_op, grows_where_op, grows_linear_op, grows_pad_op,
        grows_softmax_op, grows_concat_op, grows_is_nan_op, grows_is_infinite_op,
        grows_round_even_op, grows_gather_elements_op, grows_l2_pool2d_op, grows_reverse_op,
        grows_cumulative_sum_op, grows_triangular_op, grows_transpose_op, grows_reshape_op,
        grows_resample2d_op,
    };

    reveal(operation_added);
}

pub(crate) broadcast proof fn grows_input_added(
    n: Run,
    m: Map<u32, Tensor>,
    graph: GraphInfo,
    k: nat,
)
    ensures
        (#[trigger] input_added(n, m, graph, k)).0.grows(n),
{
    broadcast use group_grows;

}

pub(crate) broadcast proof fn grows_constant_added(
    n: Run,
    m: Map<u32, Tensor>,
    graph: GraphInfo,
    k: nat,
)
    ensures
        (#[trigger] constant_added(n, m, graph, k)).0.grows(n),
{
    broadcast use {group_grows, grows_step_output};

}

pub(crate) broadcast proof fn grows_output_marked(
    n: Run,
    m: Map<u32, Tensor>,
    graph: GraphInfo,
    k: nat,
)
    ensures
        (#[trigger] output_marked(n, m, graph, k)).0.grows(n),
{
    broadcast use group_grows;

}

pub(crate) broadcast proof fn grows_stage_done(
    n: Run,
    m: Map<u32, Tensor>,
    graph: GraphInfo,
    stage: Stage,
)
    ensures
        (#[trigger] stage_done(n, m, graph, stage)).0.grows(n),
{
    broadcast use {
        group_grows, grows_input_added, grows_constant_added, grows_operation_added,
        grows_output_marked,
    };

}

pub(crate) broadcast proof fn grows_built_from(
    n: Run,
    m: Map<u32, Tensor>,
    graph: GraphInfo,
    stage: Stage,
)
    ensures
        (#[trigger] built_from(n, m, graph, stage)).0.grows(n),
    decreases steps_left(graph, stage),
{
    broadcast use {group_grows, grows_stage_done};

    if stage != Stage::Complete {
        let (after, tensors) = stage_done(n, m, graph, stage);
        grows_built_from(after, tensors, graph, next_stage(graph, stage));
    }
}

pub(crate) broadcast proof fn grows_network_built(n: Run, graph: GraphInfo)
    ensures
        (#[trigger] network_built(n, graph)).0.grows(n),
{
    broadcast use {group_grows, grows_built_from};

}


/// A conversion takes back no request, changes no reply, and adds nothing once it has stopped.
pub proof fn conversion_grows(n: Run, graph: GraphInfo)
    ensures
        network_built(n, graph).0.grows(n),
{
    broadcast use grows_network_built;

}

/// A step of a conversion takes back no request, changes no reply, and adds nothing once the
/// conversion has stopped.
pub proof fn stage_grows(n: Run, m: Map<u32, Tensor>, graph: GraphInfo, stage: Stage)
    ensures
        stage_done(n, m, graph, stage).0.grows(n),
{
    broadcast use grows_stage_done;

}

} // verus!
