//! A conversion that is started over with more replies makes the same requests again.

use crate::data_type::DataType;
use crate::graph::GraphInfo;
use crate::operator_options::FloatReading;
use crate::operators::Operation;
use crate::scalar::{Known, Scalar};
use crate::trtx::arrange::{
    concat_op, expand_op, found_inputs, resample2d_op, resample_sizes, resampled, reshape_op,
    reverse_op, scaled_extent, slice_op, split_op, split_part, split_parts, squeeze_op, tile_axes,
    tile_axis, tile_op, transpose_op, unsqueeze_op,
};
use crate::trtx::broadcast::{
    broadcast_pair, broadcast_to, int32_to_float32, scalar_shape, static_sizes, to_bool,
    to_float16, to_float32,
};
use crate::trtx::conv::{
    adjusted, check_bias, conv2d_op, conv_filter, conv_parameters, conv_result, conv_source,
    conv_transpose2d_op, conv_weights, convolved, deconvolved, fitted, ConvPlan, FilterPlan,
};
use crate::trtx::elementwise::{
    activation_op, binary_inputs, comparison_op, elementwise_op, elu_op, greater_or_equal_op,
    hard_sigmoid_op, hard_swish_op, identity_op, is_infinite_op, is_nan_op, leaky_relu_op,
    lesser_or_equal_op, linear_op, logical_binary_op, not_equal_op, prelu_op, promoted,
    round_even_op, unary_op,
};
use crate::trtx::growth::{
    group_grows, grows_activation_op, grows_adjusted, grows_aligned, grows_arg_max_op,
    grows_arg_min_op, grows_arg_reduced, grows_average_pool_dilated, grows_batch_normalization_op,
    grows_binary_inputs, grows_block_axes, grows_block_axis, grows_block_part, grows_block_parts,
    grows_broadcast_pair, grows_broadcast_to, grows_built_from, grows_byte_values,
    grows_bytes_to_float, grows_cast_op, grows_cell, grows_cells, grows_channel_stats,
    grows_channels_last, grows_channels_second, grows_check_bias, grows_clamp_op,
    grows_clamped_to, grows_combine, grows_combined, grows_comparison_op, grows_concat_op,
    grows_constant_added, grows_conv2d_op, grows_conv_filter, grows_conv_parameters,
    grows_conv_result, grows_conv_source, grows_conv_transpose2d_op, grows_conv_weights,
    grows_convolved, grows_cumulative_sum_op, grows_deconvolved, grows_dequantize_linear_op,
    grows_dequantize_zero, grows_dilated_extents, grows_dilated_pool, grows_dilated_result,
    grows_elements, grows_elementwise_op, grows_elu_op, grows_expand_op, grows_extreme_positions,
    grows_filled, grows_filler, grows_fitted, grows_floats_to_int32, grows_found_inputs,
    grows_gather_elements_indices, grows_gather_elements_op, grows_gather_indices,
    grows_gather_nd_indices, grows_gather_nd_op, grows_gather_op, grows_gemm_op,
    grows_global_pooling_op, grows_greater_or_equal_op, grows_grid_row, grows_grid_rows,
    grows_guarded_variance, grows_hard_sigmoid_op, grows_hard_swish_op, grows_identity_op,
    grows_in_type, grows_input_added, grows_instance_normalization_op, grows_instance_normalized,
    grows_int32_to_float32, grows_is_infinite_op, grows_is_nan_op, grows_is_scalar, grows_joined,
    grows_l2_pool2d_op, grows_l2_pool_dilated, grows_layer_bias, grows_layer_norm_of_scalar,
    grows_layer_norm_over_nothing, grows_layer_normalization_op, grows_layer_normalized,
    grows_layer_parameter, grows_leaky_relu_op, grows_lesser_or_equal_op, grows_linear_op,
    grows_logical_binary_op, grows_logical_not_op, grows_mask, grows_matmul_op,
    grows_max_pool_dilated, grows_not_equal_op, grows_operation_added, grows_output_marked,
    grows_outside_constant, grows_over_axes, grows_pad_axes, grows_pad_axis,
    grows_pad_axis_constant, grows_pad_axis_edge, grows_pad_axis_reflect, grows_pad_last_axes,
    grows_pad_op, grows_pool_settings, grows_pool_window, grows_pooled_dilated, grows_pooling_op,
    grows_prelu_op, grows_prepended, grows_promoted, grows_quantize_linear_op,
    grows_quantize_zero, grows_quantized, grows_raised, grows_reduce_l1_op, grows_reduce_l2_op,
    grows_reduce_log_sum_exp_op, grows_reduce_log_sum_op, grows_reduce_op,
    grows_reduce_sum_square_op, grows_resample2d_op, grows_resample_sizes, grows_resampled,
    grows_reshape_op, grows_reverse_op, grows_round_even_op, grows_rounds_up, grows_scalar_shape,
    grows_scaled, grows_scaled_extent, grows_scatter_elements_op, grows_scatter_nd_op, grows_slab,
    grows_slabs, grows_slice_op, grows_softmax_op, grows_split_op, grows_split_part,
    grows_split_parts, grows_squeeze_op, grows_stage_done, grows_static_sizes,
    grows_step_activation, grows_step_add_constant, grows_step_add_owned_constant,
    grows_step_cast, grows_step_concat, grows_step_constant, grows_step_dequantize,
    grows_step_elementwise, grows_step_identity, grows_step_layer, grows_step_matrix_multiply,
    grows_step_named_layer, grows_step_output, grows_step_padding, grows_step_reduce,
    grows_step_reshape, grows_step_resize, grows_step_select, grows_step_slice,
    grows_step_transpose, grows_step_unary, grows_stopped, grows_summed, grows_summed_squares,
    grows_tap, grows_taps, grows_tile_axes, grows_tile_axis, grows_tile_op, grows_to_bool,
    grows_to_float16, grows_to_float32, grows_transpose_op, grows_triangular_op,
    grows_truth_constant, grows_unary_op, grows_unsigned_reading, grows_unsqueeze_op,
    grows_where_op, grows_with_axis,
};
use crate::trtx::matrix::{gemm_op, matmul_op, raised, scaled, summed};
use crate::trtx::network::{
    built_from, constant_added, input_added, network_built, next_stage, operation_added,
    output_marked, stage_done, steps_left, Stage,
};
use crate::trtx::normalization::{
    batch_normalization_op, channel_stats, filled, guarded_variance, instance_normalization_op,
    instance_normalized, layer_bias, layer_norm_of_scalar, layer_norm_over_nothing,
    layer_normalization_op, layer_normalized, layer_parameter,
};
use crate::trtx::pad::{
    filler, pad_axes, pad_axis, pad_axis_constant, pad_axis_edge, pad_axis_reflect, pad_last_axes,
    pad_op, slab, slabs, PadMode,
};
use crate::trtx::pool::{
    average_pool_dilated, cell, cells, channels_last, channels_second, combine, combined,
    dilated_extents, dilated_pool, dilated_result, global_pooling_op, grid_row, grid_rows, joined,
    l2_pool2d_op, l2_pool_dilated, max_pool_dilated, outside_constant, pool_settings, pool_window,
    pooled_dilated, pooling_op, rounds_up, summed_squares, tap, taps, Dilated, Grid, PoolPlan,
};
use crate::trtx::quantize::{
    aligned, block_axes, block_axis, block_part, block_parts, byte_values, bytes_to_float,
    cast_op, clamped_to, dequantize_linear_op, dequantize_zero, floats_to_int32, in_type,
    is_scalar, logical_not_op, prepended, quantize_linear_op, quantize_zero, quantized,
    truth_constant, unsigned_reading, with_axis,
};
use crate::trtx::reduce::{
    over_axes, reduce_l1_op, reduce_l2_op, reduce_log_sum_exp_op, reduce_log_sum_op, reduce_op,
    reduce_sum_square_op,
};
use crate::trtx::select::{
    arg_max_op, arg_min_op, arg_reduced, clamp_op, cumulative_sum_op, extreme_positions,
    gather_elements_indices, gather_elements_op, gather_indices, gather_nd_indices, gather_nd_op,
    gather_op, scatter_elements_op, scatter_nd_op, softmax_op, triangular_op, where_op,
};
use crate::trtx::session::{HaltView, RequestView, Run};
use crate::trtx::shapes::{elements, mask};
use crate::trtx::types::{
    ActivationType, ElementWiseOperation, MatrixOperation, PoolingType, ReduceOperation,
    ResizeMode, Tensor, TopKOperation, TrtDataType, UnaryOperation,
};
use vstd::prelude::*;

verus! {

impl Run {
    /// Whether this conversation repeats another with at least its replies. Where the other waits
    /// for a reply, its requests are the first of those made here; otherwise the two have made the
    /// same requests and have stopped alike, or both go on.
    #[verifier::opaque]
    pub open spec fn repeats(self, other: Run) -> bool {
        &&& other.replies.len() <= self.replies.len()
        &&& self.replies.take(other.replies.len() as int) == other.replies
        &&& if other.halt == Some(HaltView::Pending) {
            &&& other.requests.len() <= self.requests.len()
            &&& self.requests.take(other.requests.len() as int) == other.requests
        } else {
            &&& self.requests == other.requests
            &&& self.halt == other.halt
            &&& other.halt is None ==> other.requests.len() <= other.replies.len()
        }
    }
}

/// Whether two steps lead to conversations of which the first repeats the second, and give the
/// same value unless the second has stopped.
pub open spec fn same_end<T>(later: (Run, T), first: (Run, T)) -> bool {
    &&& later.0.repeats(first.0)
    &&& first.0.halt is None ==> later.1 == first.1
}

broadcast proof fn repeats_on(n: Run, later: Run, after: Run)
    requires
        #[trigger] later.repeats(n),
        #[trigger] after.grows(later),
        n.halt == Some(HaltView::Pending),
    ensures
        after.repeats(n),
{
    reveal(Run::grows);
    reveal(Run::repeats);
    assert(after.requests.take(n.requests.len() as int) =~= later.requests.take(
        n.requests.len() as int,
    ));
}

broadcast proof fn repeats_halt(n: Run, later: Run)
    requires
        #[trigger] later.repeats(n),
        n.halt != Some(HaltView::Pending),
    ensures
        later.halt == n.halt,
{
    reveal(Run::repeats);
}

broadcast proof fn repeats_reply(n: Run, later: Run, position: usize)
    requires
        #[trigger] later.repeats(n),
        n.halt is None,
    ensures
        #[trigger] later.reply(position) == #[trigger] n.reply(position),
{
    reveal(Run::repeats);
    if position < n.requests.len() {
        assert(later.replies.take(n.replies.len() as int)[position as int]
            == later.replies[position as int]);
    }
}

broadcast proof fn repeats_ask(n: Run, later: Run, request: RequestView, label: Seq<char>)
    requires
        #[trigger] later.repeats(n),
    ensures
        same_end(#[trigger] later.ask(request, label), #[trigger] n.ask(request, label)),
{
    repeated_request(n, later, request);
    reveal(Run::ask);
    reveal(Run::repeats);
}

broadcast proof fn repeats_infer(n: Run, later: Run, request: RequestView)
    requires
        #[trigger] later.repeats(n),
    ensures
        same_end(#[trigger] later.infer(request), #[trigger] n.infer(request)),
{
    repeated_request(n, later, request);
    reveal(Run::infer);
    reveal(Run::repeats);
}

broadcast proof fn repeats_tell(n: Run, later: Run, request: RequestView)
    requires
        #[trigger] later.repeats(n),
    ensures
        (#[trigger] later.tell(request)).repeats(#[trigger] n.tell(request)),
{
    repeated_request(n, later, request);
    reveal(Run::tell);
    reveal(Run::repeats);
}

proof fn repeated_request(n: Run, later: Run, request: RequestView)
    requires
        later.repeats(n),
    ensures
        n.halt is None && n.requests.len() < n.replies.len() ==> later.replies[n.requests.len() as int]
            == n.replies[n.requests.len() as int],
        n.halt is None ==> later.requests.push(request).take((n.requests.len() + 1) as int)
            == n.requests.push(request),
        later.requests.len() >= n.requests.len() ==> later.requests.push(request).take(
            n.requests.len() as int,
        ) == later.requests.take(n.requests.len() as int),
{
    reveal(Run::repeats);
    if n.halt is None {
        if n.requests.len() < n.replies.len() {
            assert(later.replies.take(n.replies.len() as int)[n.requests.len() as int]
                == later.replies[n.requests.len() as int]);
        }
        assert(later.requests.push(request).take((n.requests.len() + 1) as int)
            =~= n.requests.push(request));
    }
    if later.requests.len() >= n.requests.len() {
        assert(later.requests.push(request).take(n.requests.len() as int) =~= later.requests.take(
            n.requests.len() as int,
        ));
    }
}

broadcast proof fn repeats_stop(n: Run, later: Run, why: HaltView)
    requires
        #[trigger] later.repeats(n),
        why != HaltView::Pending,
    ensures
        (#[trigger] later.stop(why)).repeats(#[trigger] n.stop(why)),
{
    reveal(Run::repeats);
}

broadcast proof fn repeats_dims(n: Run, later: Run, tensor: Tensor, label: Seq<char>)
    requires
        #[trigger] later.repeats(n),
    ensures
        same_end(#[trigger] later.dims(tensor, label), #[trigger] n.dims(tensor, label)),
{
    broadcast use {group_grows, grows_stopped, repeats_on, repeats_halt, repeats_reply, repeats_stop};

    reveal(Run::dims);
}

broadcast group group_repeats {
    grows_stopped,
    repeats_on,
    repeats_halt,
    repeats_reply,
    repeats_ask,
    repeats_infer,
    repeats_tell,
    repeats_stop,
    repeats_dims,
}

broadcast proof fn repeats_step_output(n: Run, later: Run, layer: usize, label: Seq<char>)
    requires
        #[trigger] later.repeats(n),
    ensures
        same_end(#[trigger] later.output(layer, label), #[trigger] n.output(layer, label)),
{
    broadcast use {group_grows, group_repeats};

    reveal(Run::output);
}

broadcast proof fn repeats_step_layer(
    n: Run,
    later: Run,
    request: RequestView,
    add_label: Seq<char>,
    output_label: Seq<char>,
)
    requires
        #[trigger] later.repeats(n),
    ensures
        same_end(
            #[trigger] later.layer(request, add_label, output_label),
            #[trigger] n.layer(request, add_label, output_label),
        ),
{
    broadcast use {group_grows, group_repeats, grows_step_output, repeats_step_output};

    reveal(Run::layer);
}

broadcast proof fn repeats_step_identity(
    n: Run,
    later: Run,
    input: Tensor,
    add_label: Seq<char>,
    output_label: Seq<char>,
)
    requires
        #[trigger] later.repeats(n),
    ensures
        same_end(
            #[trigger] later.identity(input, add_label, output_label),
            #[trigger] n.identity(input, add_label, output_label),
        ),
{
    broadcast use {group_grows, group_repeats, grows_step_layer, repeats_step_layer};

    reveal(Run::identity);
}

broadcast proof fn repeats_step_slice(
    n: Run,
    later: Run,
    input: Tensor,
    start: Seq<i64>,
    size: Seq<i64>,
    stride: Seq<i64>,
    add_label: Seq<char>,
    output_label: Seq<char>,
)
    requires
        #[trigger] later.repeats(n),
    ensures
        same_end(
            #[trigger] later.slice(input, start, size, stride, add_label, output_label),
            #[trigger] n.slice(input, start, size, stride, add_label, output_label),
        ),
{
    broadcast use {group_grows, group_repeats, grows_step_layer, repeats_step_layer};

    reveal(Run::slice);
}

broadcast proof fn repeats_slice_op(n: Run, later: Run, m: Map<u32, Tensor>, op: Operation)
    requires
        #[trigger] later.repeats(n),
    ensures
        same_end(#[trigger] slice_op(later, m, op), #[trigger] slice_op(n, m, op)),
{
    broadcast use {
        group_grows, group_repeats, grows_step_identity, grows_step_slice,
        repeats_step_identity, repeats_step_slice,
    };

}

broadcast proof fn repeats_split_part(
    n: Run,
    later: Run,
    m: Map<u32, Tensor>,
    op: Operation,
    d: Seq<i64>,
    axis: nat,
    sizes: Seq<i32>,
    k: nat,
)
    requires
        #[trigger] later.repeats(n),
    ensures
        same_end(
            #[trigger] split_part(later, m, op, d, axis, sizes, k),
            #[trigger] split_part(n, m, op, d, axis, sizes, k),
        ),
{
    broadcast use {group_grows, group_repeats, grows_step_slice, repeats_step_slice};

}

broadcast proof fn repeats_split_parts(
    n: Run,
    later: Run,
    m: Map<u32, Tensor>,
    op: Operation,
    d: Seq<i64>,
    axis: nat,
    sizes: Seq<i32>,
    k: nat,
)
    requires
        #[trigger] later.repeats(n),
    ensures
        same_end(
            #[trigger] split_parts(later, m, op, d, axis, sizes, k),
            #[trigger] split_parts(n, m, op, d, axis, sizes, k),
        ),
    decreases k,
{
    broadcast use {
        group_grows, group_repeats, grows_split_part, repeats_split_part, grows_split_parts,
    };

    if k > 0 {
        repeats_split_parts(n, later, m, op, d, axis, sizes, (k - 1) as nat);
    }
}

broadcast proof fn repeats_split_op(n: Run, later: Run, m: Map<u32, Tensor>, op: Operation)
    requires
        #[trigger] later.repeats(n),
    ensures
        same_end(#[trigger] split_op(later, m, op), #[trigger] split_op(n, m, op)),
{
    broadcast use {group_grows, group_repeats, grows_split_parts, repeats_split_parts};

}

broadcast proof fn repeats_step_reshape(
    n: Run,
    later: Run,
    input: Tensor,
    dims: Seq<i64>,
    add_label: Seq<char>,
    set_label: Seq<char>,
    output_label: Seq<char>,
)
    requires
        #[trigger] later.repeats(n),
    ensures
        same_end(
            #[trigger] later.reshape(input, dims, add_label, set_label, output_label),
            #[trigger] n.reshape(input, dims, add_label, set_label, output_label),
        ),
{
    broadcast use {group_grows, group_repeats, grows_step_output, repeats_step_output};

    reveal(Run::reshape);
}

broadcast proof fn repeats_squeeze_op(n: Run, later: Run, m: Map<u32, Tensor>, op: Operation)
    requires
        #[trigger] later.repeats(n),
    ensures
        same_end(#[trigger] squeeze_op(later, m, op), #[trigger] squeeze_op(n, m, op)),
{
    broadcast use {group_grows, group_repeats, grows_step_reshape, repeats_step_reshape};

}

broadcast proof fn repeats_unsqueeze_op(n: Run, later: Run, m: Map<u32, Tensor>, op: Operation)
    requires
        #[trigger] later.repeats(n),
    ensures
        same_end(#[trigger] unsqueeze_op(later, m, op), #[trigger] unsqueeze_op(n, m, op)),
{
    broadcast use {group_grows, group_repeats, grows_step_reshape, repeats_step_reshape};

}

broadcast proof fn repeats_elements(n: Run, later: Run, dims: Seq<i64>)
    requires
        #[trigger] later.repeats(n),
    ensures
        same_end(#[trigger] elements(later, dims), #[trigger] elements(n, dims)),
{
    broadcast use {group_grows, group_repeats};

}

broadcast proof fn repeats_step_add_constant(
    n: Run,
    later: Run,
    dims: Seq<i64>,
    bytes: Seq<u8>,
    dtype: TrtDataType,
    label: Seq<char>,
)
    requires
        #[trigger] later.repeats(n),
    ensures
        same_end(
            #[trigger] later.add_constant(dims, bytes, dtype, label),
            #[trigger] n.add_constant(dims, bytes, dtype, label),
        ),
{
    broadcast use {group_grows, group_repeats};

    reveal(Run::add_constant);
}

broadcast proof fn repeats_step_constant(
    n: Run,
    later: Run,
    dims: Seq<i64>,
    bytes: Seq<u8>,
    dtype: TrtDataType,
    add_label: Seq<char>,
    output_label: Seq<char>,
)
    requires
        #[trigger] later.repeats(n),
    ensures
        same_end(
            #[trigger] later.constant(dims, bytes, dtype, add_label, output_label),
            #[trigger] n.constant(dims, bytes, dtype, add_label, output_label),
        ),
{
    broadcast use {
        group_grows, group_repeats, grows_step_add_constant, grows_step_output,
        repeats_step_add_constant, repeats_step_output,
    };

    reveal(Run::constant);
}

broadcast proof fn repeats_step_resize(
    n: Run,
    later: Run,
    input: Tensor,
    dims: Seq<i64>,
    add_label: Seq<char>,
    output_label: Seq<char>,
)
    requires
        #[trigger] later.repeats(n),
    ensures
        same_end(
            #[trigger] later.resize(input, dims, add_label, output_label),
            #[trigger] n.resize(input, dims, add_label, output_label),
        ),
{
    broadcast use {group_grows, group_repeats, grows_step_output, repeats_step_output};

    reveal(Run::resize);
}

broadcast proof fn repeats_broadcast_pair(
    n: Run,
    later: Run,
    t0: Tensor,
    t1: Tensor,
    op_name: Seq<char>,
)
    requires
        #[trigger] later.repeats(n),
    ensures
        same_end(
            #[trigger] broadcast_pair(later, t0, t1, op_name),
            #[trigger] broadcast_pair(n, t0, t1, op_name),
        ),
{
    broadcast use {
        group_grows, group_repeats, grows_step_resize, grows_step_identity, grows_step_reshape,
        repeats_step_resize, repeats_step_identity, repeats_step_reshape,
    };

    reveal(broadcast_pair);
}

broadcast proof fn repeats_step_elementwise(
    n: Run,
    later: Run,
    a: Tensor,
    b: Tensor,
    op: ElementWiseOperation,
    add_label: Seq<char>,
    output_label: Seq<char>,
)
    requires
        #[trigger] later.repeats(n),
    ensures
        same_end(
            #[trigger] later.elementwise(a, b, op, add_label, output_label),
            #[trigger] n.elementwise(a, b, op, add_label, output_label),
        ),
{
    broadcast use {group_grows, group_repeats, grows_step_layer, repeats_step_layer};

    reveal(Run::elementwise);
}

broadcast proof fn repeats_expand_op(
    n: Run,
    later: Run,
    m: Map<u32, Tensor>,
    graph: GraphInfo,
    op: Operation,
)
    requires
        #[trigger] later.repeats(n),
    ensures
        same_end(#[trigger] expand_op(later, m, graph, op), #[trigger] expand_op(n, m, graph, op)),
{
    broadcast use {
        group_grows, group_repeats, grows_elements, grows_step_constant, grows_broadcast_pair,
        grows_step_elementwise, repeats_elements, repeats_step_constant, repeats_broadcast_pair,
        repeats_step_elementwise,
    };

}

broadcast proof fn repeats_step_concat(
    n: Run,
    later: Run,
    inputs: Seq<Tensor>,
    axis: i32,
    add_label: Seq<char>,
    output_label: Seq<char>,
)
    requires
        #[trigger] later.repeats(n),
    ensures
        same_end(
            #[trigger] later.concat(inputs, axis, add_label, output_label),
            #[trigger] n.concat(inputs, axis, add_label, output_label),
        ),
{
    broadcast use {group_grows, group_repeats, grows_step_output, repeats_step_output};

    reveal(Run::concat);
}

broadcast proof fn repeats_tile_axis(n: Run, later: Run, t: Tensor, axis: nat, count: u32)
    requires
        #[trigger] later.repeats(n),
    ensures
        same_end(
            #[trigger] tile_axis(later, t, axis, count),
            #[trigger] tile_axis(n, t, axis, count),
        ),
{
    broadcast use {group_grows, group_repeats, grows_step_concat, repeats_step_concat};

}

broadcast proof fn repeats_tile_axes(n: Run, later: Run, x: Tensor, counts: Seq<u32>, k: nat)
    requires
        #[trigger] later.repeats(n),
    ensures
        same_end(#[trigger] tile_axes(later, x, counts, k), #[trigger] tile_axes(n, x, counts, k)),
    decreases k,
{
    broadcast use {group_grows, group_repeats, grows_tile_axis, repeats_tile_axis, grows_tile_axes};

    if k > 0 {
        repeats_tile_axes(n, later, x, counts, (k - 1) as nat);
    }
}

broadcast proof fn repeats_tile_op(n: Run, later: Run, m: Map<u32, Tensor>, op: Operation)
    requires
        #[trigger] later.repeats(n),
    ensures
        same_end(#[trigger] tile_op(later, m, op), #[trigger] tile_op(n, m, op)),
{
    broadcast use {
        group_grows, group_repeats, grows_tile_axes, grows_step_identity, repeats_tile_axes,
        repeats_step_identity,
    };

}

broadcast proof fn repeats_found_inputs(
    n: Run,
    later: Run,
    m: Map<u32, Tensor>,
    ids: Seq<u32>,
    k: nat,
)
    requires
        #[trigger] later.repeats(n),
    ensures
        same_end(#[trigger] found_inputs(later, m, ids, k), #[trigger] found_inputs(n, m, ids, k)),
    decreases k,
{
    broadcast use {group_grows, group_repeats, grows_found_inputs};

    if k > 0 {
        repeats_found_inputs(n, later, m, ids, (k - 1) as nat);
    }
}

broadcast proof fn repeats_concat_op(n: Run, later: Run, m: Map<u32, Tensor>, op: Operation)
    requires
        #[trigger] later.repeats(n),
    ensures
        same_end(#[trigger] concat_op(later, m, op), #[trigger] concat_op(n, m, op)),
{
    broadcast use {
        group_grows, group_repeats, grows_found_inputs, grows_step_output, repeats_found_inputs,
        repeats_step_output,
    };

}

broadcast proof fn repeats_step_transpose(
    n: Run,
    later: Run,
    input: Tensor,
    order: Seq<i32>,
    add_label: Seq<char>,
    set_label: Seq<char>,
    output_label: Seq<char>,
)
    requires
        #[trigger] later.repeats(n),
    ensures
        same_end(
            #[trigger] later.transpose(input, order, add_label, set_label, output_label),
            #[trigger] n.transpose(input, order, add_label, set_label, output_label),
        ),
{
    broadcast use {group_grows, group_repeats, grows_step_output, repeats_step_output};

    reveal(Run::transpose);
}

broadcast proof fn repeats_transpose_op(n: Run, later: Run, m: Map<u32, Tensor>, op: Operation)
    requires
        #[trigger] later.repeats(n),
    ensures
        same_end(#[trigger] transpose_op(later, m, op), #[trigger] transpose_op(n, m, op)),
{
    broadcast use {group_grows, group_repeats, grows_step_transpose, repeats_step_transpose};

}

broadcast proof fn repeats_reshape_op(n: Run, later: Run, m: Map<u32, Tensor>, op: Operation)
    requires
        #[trigger] later.repeats(n),
    ensures
        same_end(#[trigger] reshape_op(later, m, op), #[trigger] reshape_op(n, m, op)),
{
    broadcast use {group_grows, group_repeats, grows_step_reshape, repeats_step_reshape};

}

broadcast proof fn repeats_scaled_extent(n: Run, later: Run, extent: i64, scale: u32)
    requires
        #[trigger] later.repeats(n),
    ensures
        same_end(
            #[trigger] scaled_extent(later, extent, scale),
            #[trigger] scaled_extent(n, extent, scale),
        ),
{
    broadcast use {group_grows, group_repeats};

    reveal(scaled_extent);
}

broadcast proof fn repeats_resample_sizes(n: Run, later: Run, op: Operation, extents: (i64, i64))
    requires
        #[trigger] later.repeats(n),
    ensures
        same_end(
            #[trigger] resample_sizes(later, op, extents),
            #[trigger] resample_sizes(n, op, extents),
        ),
{
    broadcast use {group_grows, group_repeats, grows_scaled_extent, repeats_scaled_extent};

    reveal(resample_sizes);
}

broadcast proof fn repeats_resampled(
    n: Run,
    later: Run,
    x: Tensor,
    dims: Seq<i64>,
    mode: ResizeMode,
)
    requires
        #[trigger] later.repeats(n),
    ensures
        same_end(
            #[trigger] resampled(later, x, dims, mode),
            #[trigger] resampled(n, x, dims, mode),
        ),
{
    broadcast use {group_grows, group_repeats, grows_step_output, repeats_step_output};

    reveal(resampled);
}

broadcast proof fn repeats_resample2d_op(
    n: Run,
    later: Run,
    m: Map<u32, Tensor>,
    graph: GraphInfo,
    op: Operation,
)
    requires
        #[trigger] later.repeats(n),
    ensures
        same_end(
            #[trigger] resample2d_op(later, m, graph, op),
            #[trigger] resample2d_op(n, m, graph, op),
        ),
{
    broadcast use {
        group_grows, group_repeats, grows_resample_sizes, grows_resampled,
        repeats_resample_sizes, repeats_resampled,
    };

}

broadcast proof fn repeats_reverse_op(
    n: Run,
    later: Run,
    m: Map<u32, Tensor>,
    graph: GraphInfo,
    op: Operation,
)
    requires
        #[trigger] later.repeats(n),
    ensures
        same_end(
            #[trigger] reverse_op(later, m, graph, op),
            #[trigger] reverse_op(n, m, graph, op),
        ),
{
    broadcast use {group_grows, group_repeats, grows_step_slice, repeats_step_slice};

}

broadcast proof fn repeats_step_cast(
    n: Run,
    later: Run,
    input: Tensor,
    dtype: TrtDataType,
    add_label: Seq<char>,
    output_label: Seq<char>,
)
    requires
        #[trigger] later.repeats(n),
    ensures
        same_end(
            #[trigger] later.cast(input, dtype, add_label, output_label),
            #[trigger] n.cast(input, dtype, add_label, output_label),
        ),
{
    broadcast use {group_grows, group_repeats, grows_step_layer, repeats_step_layer};

    reveal(Run::cast);
}

broadcast proof fn repeats_to_bool(n: Run, later: Run, input: Tensor)
    requires
        #[trigger] later.repeats(n),
    ensures
        same_end(#[trigger] to_bool(later, input), #[trigger] to_bool(n, input)),
{
    broadcast use {group_grows, group_repeats, grows_step_cast, repeats_step_cast};

}

broadcast proof fn repeats_to_float32(n: Run, later: Run, input: Tensor)
    requires
        #[trigger] later.repeats(n),
    ensures
        same_end(#[trigger] to_float32(later, input), #[trigger] to_float32(n, input)),
{
    broadcast use {group_grows, group_repeats, grows_step_cast, repeats_step_cast};

}

broadcast proof fn repeats_int32_to_float32(n: Run, later: Run, input: Tensor)
    requires
        #[trigger] later.repeats(n),
    ensures
        same_end(#[trigger] int32_to_float32(later, input), #[trigger] int32_to_float32(n, input)),
{
    broadcast use {group_grows, group_repeats, grows_step_cast, repeats_step_cast};

}

broadcast proof fn repeats_to_float16(n: Run, later: Run, input: Tensor)
    requires
        #[trigger] later.repeats(n),
    ensures
        same_end(#[trigger] to_float16(later, input), #[trigger] to_float16(n, input)),
{
    broadcast use {group_grows, group_repeats, grows_step_cast, repeats_step_cast};

}

broadcast proof fn repeats_scalar_shape(
    n: Run,
    later: Run,
    input: Tensor,
    descriptor_rank: nat,
    label: Seq<char>,
)
    requires
        #[trigger] later.repeats(n),
    ensures
        same_end(
            #[trigger] scalar_shape(later, input, descriptor_rank, label),
            #[trigger] scalar_shape(n, input, descriptor_rank, label),
        ),
{
    broadcast use {group_grows, group_repeats};

}

broadcast proof fn repeats_static_sizes(n: Run, later: Run, graph: GraphInfo, id: u32)
    requires
        #[trigger] later.repeats(n),
    ensures
        same_end(#[trigger] static_sizes(later, graph, id), #[trigger] static_sizes(n, graph, id)),
{
    broadcast use {group_grows, group_repeats};

}

broadcast proof fn repeats_broadcast_to(
    n: Run,
    later: Run,
    t: Tensor,
    from: Seq<i64>,
    target: Seq<i64>,
    label: Seq<char>,
)
    requires
        #[trigger] later.repeats(n),
    ensures
        same_end(
            #[trigger] broadcast_to(later, t, from, target, label),
            #[trigger] broadcast_to(n, t, from, target, label),
        ),
{
    broadcast use {
        group_grows, group_repeats, grows_step_identity, grows_step_reshape, grows_step_resize,
        repeats_step_identity, repeats_step_reshape, repeats_step_resize,
    };

    reveal(broadcast_to);
}

broadcast proof fn repeats_check_bias(
    n: Run,
    later: Run,
    graph: GraphInfo,
    bias: Option<u32>,
    name: Seq<char>,
)
    requires
        #[trigger] later.repeats(n),
    ensures
        same_end(
            #[trigger] check_bias(later, graph, bias, name),
            #[trigger] check_bias(n, graph, bias, name),
        ),
{
    broadcast use {group_grows, group_repeats};

    reveal(check_bias);
}

broadcast proof fn repeats_conv_source(
    n: Run,
    later: Run,
    x: Tensor,
    nhwc: bool,
    half: bool,
    name: Seq<char>,
)
    requires
        #[trigger] later.repeats(n),
    ensures
        same_end(
            #[trigger] conv_source(later, x, nhwc, half, name),
            #[trigger] conv_source(n, x, nhwc, half, name),
        ),
{
    broadcast use {
        group_grows, group_repeats, grows_step_transpose, grows_step_cast,
        repeats_step_transpose, repeats_step_cast,
    };

    reveal(conv_source);
}

broadcast proof fn repeats_conv_result(
    n: Run,
    later: Run,
    x: Tensor,
    nhwc: bool,
    half: bool,
    name: Seq<char>,
)
    requires
        #[trigger] later.repeats(n),
    ensures
        same_end(
            #[trigger] conv_result(later, x, nhwc, half, name),
            #[trigger] conv_result(n, x, nhwc, half, name),
        ),
{
    broadcast use {
        group_grows, group_repeats, grows_step_cast, grows_step_transpose, repeats_step_cast,
        repeats_step_transpose,
    };

    reveal(conv_result);
}

broadcast proof fn repeats_conv_weights(
    n: Run,
    later: Run,
    filter: Tensor,
    filter_half: bool,
    bias: Option<Tensor>,
    bias_half: bool,
    order: Option<Seq<i32>>,
    name: Seq<char>,
)
    requires
        #[trigger] later.repeats(n),
    ensures
        same_end(
            #[trigger] conv_weights(later, filter, filter_half, bias, bias_half, order, name),
            #[trigger] conv_weights(n, filter, filter_half, bias, bias_half, order, name),
        ),
{
    broadcast use {
        group_grows, group_repeats, grows_step_cast, grows_step_transpose, repeats_step_cast,
        repeats_step_transpose,
    };

    reveal(conv_weights);
}

broadcast proof fn repeats_conv_filter(
    n: Run,
    later: Run,
    graph: GraphInfo,
    op: Operation,
    purpose: Seq<char>,
    name: Seq<char>,
)
    requires
        #[trigger] later.repeats(n),
    ensures
        same_end(
            #[trigger] conv_filter(later, graph, op, purpose, name),
            #[trigger] conv_filter(n, graph, op, purpose, name),
        ),
{
    broadcast use {group_grows, group_repeats, grows_check_bias, repeats_check_bias};

    reveal(conv_filter);
}

broadcast proof fn repeats_conv_parameters(
    n: Run,
    later: Run,
    m: Map<u32, Tensor>,
    graph: GraphInfo,
    op: Operation,
    half: bool,
    name: Seq<char>,
)
    requires
        #[trigger] later.repeats(n),
    ensures
        same_end(
            #[trigger] conv_parameters(later, m, graph, op, half, name),
            #[trigger] conv_parameters(n, m, graph, op, half, name),
        ),
{
    broadcast use {group_grows, group_repeats, grows_conv_weights, repeats_conv_weights};

    reveal(conv_parameters);
}

broadcast proof fn repeats_convolved(
    n: Run,
    later: Run,
    source: Tensor,
    f: Tensor,
    bias: Option<Tensor>,
    filter: FilterPlan,
    plan: ConvPlan,
)
    requires
        #[trigger] later.repeats(n),
    ensures
        same_end(
            #[trigger] convolved(later, source, f, bias, filter, plan),
            #[trigger] convolved(n, source, f, bias, filter, plan),
        ),
{
    broadcast use {group_grows, group_repeats, grows_step_output, repeats_step_output};

    reveal(convolved);
}

broadcast proof fn repeats_step_padding(
    n: Run,
    later: Run,
    input: Tensor,
    pre: (i64, i64),
    post: (i64, i64),
    add_label: Seq<char>,
    output_label: Seq<char>,
)
    requires
        #[trigger] later.repeats(n),
    ensures
        same_end(
            #[trigger] later.padding(input, pre, post, add_label, output_label),
            #[trigger] n.padding(input, pre, post, add_label, output_label),
        ),
{
    broadcast use {group_grows, group_repeats, grows_step_layer, repeats_step_layer};

    reveal(Run::padding);
}

broadcast proof fn repeats_conv2d_op(
    n: Run,
    later: Run,
    m: Map<u32, Tensor>,
    graph: GraphInfo,
    op: Operation,
)
    requires
        #[trigger] later.repeats(n),
    ensures
        same_end(#[trigger] conv2d_op(later, m, graph, op), #[trigger] conv2d_op(n, m, graph, op)),
{
    broadcast use {
        group_grows, group_repeats, grows_conv_filter, grows_conv_source, grows_step_identity,
        grows_step_padding, grows_conv_parameters, grows_convolved, grows_conv_result,
        repeats_conv_filter, repeats_conv_source, repeats_step_identity, repeats_step_padding,
        repeats_conv_parameters, repeats_convolved, repeats_conv_result,
    };

}

broadcast proof fn repeats_fitted(
    n: Run,
    later: Run,
    t: Tensor,
    batch: i32,
    current: (i32, i32),
    target: (i32, i32, i32),
)
    requires
        #[trigger] later.repeats(n),
    ensures
        same_end(
            #[trigger] fitted(later, t, batch, current, target),
            #[trigger] fitted(n, t, batch, current, target),
        ),
{
    broadcast use {
        group_grows, group_repeats, grows_step_slice, grows_step_padding, repeats_step_slice,
        repeats_step_padding,
    };

    reveal(fitted);
}

broadcast proof fn repeats_adjusted(
    n: Run,
    later: Run,
    graph: GraphInfo,
    op: Operation,
    t: Tensor,
    kernel: (i32, i32),
    output_maps: i32,
)
    requires
        #[trigger] later.repeats(n),
    ensures
        same_end(
            #[trigger] adjusted(later, graph, op, t, kernel, output_maps),
            #[trigger] adjusted(n, graph, op, t, kernel, output_maps),
        ),
{
    broadcast use {group_grows, group_repeats, grows_fitted, repeats_fitted};

    reveal(adjusted);
}

broadcast proof fn repeats_deconvolved(
    n: Run,
    later: Run,
    source: Tensor,
    f: Tensor,
    bias: Option<Tensor>,
    filter: FilterPlan,
    plan: ConvPlan,
    extra: (i32, i32),
)
    requires
        #[trigger] later.repeats(n),
    ensures
        same_end(
            #[trigger] deconvolved(later, source, f, bias, filter, plan, extra),
            #[trigger] deconvolved(n, source, f, bias, filter, plan, extra),
        ),
{
    broadcast use {
        group_grows, group_repeats, grows_step_output, grows_step_padding, repeats_step_output,
        repeats_step_padding,
    };

    reveal(deconvolved);
}

broadcast proof fn repeats_conv_transpose2d_op(
    n: Run,
    later: Run,
    m: Map<u32, Tensor>,
    graph: GraphInfo,
    op: Operation,
)
    requires
        #[trigger] later.repeats(n),
    ensures
        same_end(
            #[trigger] conv_transpose2d_op(later, m, graph, op),
            #[trigger] conv_transpose2d_op(n, m, graph, op),
        ),
{
    broadcast use {
        group_grows, group_repeats, grows_conv_filter, grows_conv_source, grows_step_identity,
        grows_conv_parameters, grows_deconvolved, grows_adjusted, grows_conv_result,
        repeats_conv_filter, repeats_conv_source, repeats_step_identity,
        repeats_conv_parameters, repeats_deconvolved, repeats_adjusted, repeats_conv_result,
    };

}

broadcast proof fn repeats_binary_inputs(n: Run, later: Run, m: Map<u32, Tensor>, op: Operation)
    requires
        #[trigger] later.repeats(n),
    ensures
        same_end(#[trigger] binary_inputs(later, m, op), #[trigger] binary_inputs(n, m, op)),
{
    broadcast use {group_grows, group_repeats, grows_broadcast_pair, repeats_broadcast_pair};

}

broadcast proof fn repeats_elementwise_op(
    n: Run,
    later: Run,
    m: Map<u32, Tensor>,
    op: Operation,
    code: ElementWiseOperation,
)
    requires
        #[trigger] later.repeats(n),
    ensures
        same_end(
            #[trigger] elementwise_op(later, m, op, code),
            #[trigger] elementwise_op(n, m, op, code),
        ),
{
    broadcast use {
        group_grows, group_repeats, grows_binary_inputs, grows_step_elementwise,
        repeats_binary_inputs, repeats_step_elementwise,
    };

}

broadcast proof fn repeats_comparison_op(
    n: Run,
    later: Run,
    m: Map<u32, Tensor>,
    op: Operation,
    code: ElementWiseOperation,
)
    requires
        #[trigger] later.repeats(n),
    ensures
        same_end(
            #[trigger] comparison_op(later, m, op, code),
            #[trigger] comparison_op(n, m, op, code),
        ),
{
    broadcast use {
        group_grows, group_repeats, grows_binary_inputs, grows_step_elementwise,
        grows_to_float32, repeats_binary_inputs, repeats_step_elementwise, repeats_to_float32,
    };

}

broadcast proof fn repeats_promoted(n: Run, later: Run, graph: GraphInfo, id: u32, t: Tensor)
    requires
        #[trigger] later.repeats(n),
    ensures
        same_end(#[trigger] promoted(later, graph, id, t), #[trigger] promoted(n, graph, id, t)),
{
    broadcast use {group_grows, group_repeats, grows_to_float32, repeats_to_float32};

}

broadcast proof fn repeats_logical_binary_op(
    n: Run,
    later: Run,
    m: Map<u32, Tensor>,
    graph: GraphInfo,
    op: Operation,
    code: ElementWiseOperation,
)
    requires
        #[trigger] later.repeats(n),
    ensures
        same_end(
            #[trigger] logical_binary_op(later, m, graph, op, code),
            #[trigger] logical_binary_op(n, m, graph, op, code),
        ),
{
    broadcast use {
        group_grows, group_repeats, grows_promoted, grows_broadcast_pair, grows_to_bool,
        grows_step_elementwise, grows_to_float32, repeats_promoted, repeats_broadcast_pair,
        repeats_to_bool, repeats_step_elementwise, repeats_to_float32,
    };

}

broadcast proof fn repeats_greater_or_equal_op(
    n: Run,
    later: Run,
    m: Map<u32, Tensor>,
    op: Operation,
)
    requires
        #[trigger] later.repeats(n),
    ensures
        same_end(
            #[trigger] greater_or_equal_op(later, m, op),
            #[trigger] greater_or_equal_op(n, m, op),
        ),
{
    broadcast use {
        group_grows, group_repeats, grows_binary_inputs, grows_step_elementwise,
        grows_to_float32, repeats_binary_inputs, repeats_step_elementwise, repeats_to_float32,
    };

}

broadcast proof fn repeats_lesser_or_equal_op(
    n: Run,
    later: Run,
    m: Map<u32, Tensor>,
    op: Operation,
)
    requires
        #[trigger] later.repeats(n),
    ensures
        same_end(
            #[trigger] lesser_or_equal_op(later, m, op),
            #[trigger] lesser_or_equal_op(n, m, op),
        ),
{
    broadcast use {
        group_grows, group_repeats, grows_binary_inputs, grows_step_elementwise,
        grows_to_float32, repeats_binary_inputs, repeats_step_elementwise, repeats_to_float32,
    };

}

broadcast proof fn repeats_step_unary(
    n: Run,
    later: Run,
    input: Tensor,
    op: UnaryOperation,
    add_label: Seq<char>,
    output_label: Seq<char>,
)
    requires
        #[trigger] later.repeats(n),
    ensures
        same_end(
            #[trigger] later.unary(input, op, add_label, output_label),
            #[trigger] n.unary(input, op, add_label, output_label),
        ),
{
    broadcast use {group_grows, group_repeats, grows_step_layer, repeats_step_layer};

    reveal(Run::unary);
}

broadcast proof fn repeats_not_equal_op(n: Run, later: Run, m: Map<u32, Tensor>, op: Operation)
    requires
        #[trigger] later.repeats(n),
    ensures
        same_end(#[trigger] not_equal_op(later, m, op), #[trigger] not_equal_op(n, m, op)),
{
    broadcast use {
        group_grows, group_repeats, grows_binary_inputs, grows_step_elementwise,
        grows_step_unary, grows_to_float32, repeats_binary_inputs, repeats_step_elementwise,
        repeats_step_unary, repeats_to_float32,
    };

}

broadcast proof fn repeats_step_activation(
    n: Run,
    later: Run,
    input: Tensor,
    kind: ActivationType,
    add_label: Seq<char>,
    output_label: Seq<char>,
)
    requires
        #[trigger] later.repeats(n),
    ensures
        same_end(
            #[trigger] later.activation(input, kind, add_label, output_label),
            #[trigger] n.activation(input, kind, add_label, output_label),
        ),
{
    broadcast use {group_grows, group_repeats, grows_step_layer, repeats_step_layer};

    reveal(Run::activation);
}

broadcast proof fn repeats_activation_op(
    n: Run,
    later: Run,
    m: Map<u32, Tensor>,
    op: Operation,
    kind: ActivationType,
)
    requires
        #[trigger] later.repeats(n),
    ensures
        same_end(
            #[trigger] activation_op(later, m, op, kind),
            #[trigger] activation_op(n, m, op, kind),
        ),
{
    broadcast use {group_grows, group_repeats, grows_step_activation, repeats_step_activation};

}

broadcast proof fn repeats_unary_op(
    n: Run,
    later: Run,
    m: Map<u32, Tensor>,
    op: Operation,
    code: UnaryOperation,
)
    requires
        #[trigger] later.repeats(n),
    ensures
        same_end(#[trigger] unary_op(later, m, op, code), #[trigger] unary_op(n, m, op, code)),
{
    broadcast use {group_grows, group_repeats, grows_step_unary, repeats_step_unary};

}

broadcast proof fn repeats_identity_op(n: Run, later: Run, m: Map<u32, Tensor>, op: Operation)
    requires
        #[trigger] later.repeats(n),
    ensures
        same_end(#[trigger] identity_op(later, m, op), #[trigger] identity_op(n, m, op)),
{
    broadcast use {group_grows, group_repeats, grows_step_identity, repeats_step_identity};

}

broadcast proof fn repeats_round_even_op(n: Run, later: Run, m: Map<u32, Tensor>, op: Operation)
    requires
        #[trigger] later.repeats(n),
    ensures
        same_end(#[trigger] round_even_op(later, m, op), #[trigger] round_even_op(n, m, op)),
{
    broadcast use {group_grows, group_repeats, grows_step_unary, repeats_step_unary};

}

broadcast proof fn repeats_is_nan_op(n: Run, later: Run, m: Map<u32, Tensor>, op: Operation)
    requires
        #[trigger] later.repeats(n),
    ensures
        same_end(#[trigger] is_nan_op(later, m, op), #[trigger] is_nan_op(n, m, op)),
{
    broadcast use {
        group_grows, group_repeats, grows_step_elementwise, grows_step_unary, grows_to_float32,
        repeats_step_elementwise, repeats_step_unary, repeats_to_float32,
    };

}

broadcast proof fn repeats_is_infinite_op(n: Run, later: Run, m: Map<u32, Tensor>, op: Operation)
    requires
        #[trigger] later.repeats(n),
    ensures
        same_end(#[trigger] is_infinite_op(later, m, op), #[trigger] is_infinite_op(n, m, op)),
{
    broadcast use {
        group_grows, group_repeats, grows_step_unary, grows_step_constant,
        grows_step_elementwise, grows_to_float32, repeats_step_unary, repeats_step_constant,
        repeats_step_elementwise, repeats_to_float32,
    };

}

broadcast proof fn repeats_elu_op(
    n: Run,
    later: Run,
    m: Map<u32, Tensor>,
    graph: GraphInfo,
    op: Operation,
)
    requires
        #[trigger] later.repeats(n),
    ensures
        same_end(#[trigger] elu_op(later, m, graph, op), #[trigger] elu_op(n, m, graph, op)),
{
    broadcast use {
        group_grows, group_repeats, grows_activation_op, grows_scalar_shape,
        grows_step_activation, grows_step_unary, grows_step_constant, grows_broadcast_pair,
        grows_step_elementwise, repeats_activation_op, repeats_scalar_shape,
        repeats_step_activation, repeats_step_unary, repeats_step_constant,
        repeats_broadcast_pair, repeats_step_elementwise,
    };

}

broadcast proof fn repeats_leaky_relu_op(
    n: Run,
    later: Run,
    m: Map<u32, Tensor>,
    graph: GraphInfo,
    op: Operation,
)
    requires
        #[trigger] later.repeats(n),
    ensures
        same_end(
            #[trigger] leaky_relu_op(later, m, graph, op),
            #[trigger] leaky_relu_op(n, m, graph, op),
        ),
{
    broadcast use {
        group_grows, group_repeats, grows_scalar_shape, grows_step_constant,
        grows_step_activation, grows_step_elementwise, repeats_scalar_shape,
        repeats_step_constant, repeats_step_activation, repeats_step_elementwise,
    };

}

broadcast proof fn repeats_prelu_op(n: Run, later: Run, m: Map<u32, Tensor>, op: Operation)
    requires
        #[trigger] later.repeats(n),
    ensures
        same_end(#[trigger] prelu_op(later, m, op), #[trigger] prelu_op(n, m, op)),
{
    broadcast use {
        group_grows, group_repeats, grows_broadcast_pair, grows_step_layer,
        repeats_broadcast_pair, repeats_step_layer,
    };

}

broadcast proof fn repeats_hard_sigmoid_op(
    n: Run,
    later: Run,
    m: Map<u32, Tensor>,
    graph: GraphInfo,
    op: Operation,
)
    requires
        #[trigger] later.repeats(n),
    ensures
        same_end(
            #[trigger] hard_sigmoid_op(later, m, graph, op),
            #[trigger] hard_sigmoid_op(n, m, graph, op),
        ),
{
    broadcast use {
        group_grows, group_repeats, grows_step_activation, grows_step_add_constant,
        grows_step_output, grows_step_elementwise, repeats_step_activation,
        repeats_step_add_constant, repeats_step_output, repeats_step_elementwise,
    };

}

broadcast proof fn repeats_hard_swish_op(
    n: Run,
    later: Run,
    m: Map<u32, Tensor>,
    graph: GraphInfo,
    op: Operation,
)
    requires
        #[trigger] later.repeats(n),
    ensures
        same_end(
            #[trigger] hard_swish_op(later, m, graph, op),
            #[trigger] hard_swish_op(n, m, graph, op),
        ),
{
    broadcast use {
        group_grows, group_repeats, grows_step_add_constant, grows_step_output,
        grows_step_elementwise, repeats_step_add_constant, repeats_step_output,
        repeats_step_elementwise,
    };

}

broadcast proof fn repeats_linear_op(
    n: Run,
    later: Run,
    m: Map<u32, Tensor>,
    graph: GraphInfo,
    op: Operation,
)
    requires
        #[trigger] later.repeats(n),
    ensures
        same_end(#[trigger] linear_op(later, m, graph, op), #[trigger] linear_op(n, m, graph, op)),
{
    broadcast use {
        group_grows, group_repeats, grows_scalar_shape, grows_step_constant,
        grows_step_elementwise, grows_step_identity, repeats_scalar_shape,
        repeats_step_constant, repeats_step_elementwise, repeats_step_identity,
    };

}

broadcast proof fn repeats_raised(n: Run, later: Run, t: Tensor, d: Seq<i64>, rank: nat)
    requires
        #[trigger] later.repeats(n),
    ensures
        same_end(#[trigger] raised(later, t, d, rank), #[trigger] raised(n, t, d, rank)),
{
    broadcast use {group_grows, group_repeats, grows_step_reshape, repeats_step_reshape};

    reveal(raised);
}

broadcast proof fn repeats_step_matrix_multiply(
    n: Run,
    later: Run,
    a: Tensor,
    op_a: MatrixOperation,
    b: Tensor,
    op_b: MatrixOperation,
    add_label: Seq<char>,
    output_label: Seq<char>,
)
    requires
        #[trigger] later.repeats(n),
    ensures
        same_end(
            #[trigger] later.matrix_multiply(a, op_a, b, op_b, add_label, output_label),
            #[trigger] n.matrix_multiply(a, op_a, b, op_b, add_label, output_label),
        ),
{
    broadcast use {group_grows, group_repeats, grows_step_layer, repeats_step_layer};

    reveal(Run::matrix_multiply);
}

broadcast proof fn repeats_matmul_op(n: Run, later: Run, m: Map<u32, Tensor>, op: Operation)
    requires
        #[trigger] later.repeats(n),
    ensures
        same_end(#[trigger] matmul_op(later, m, op), #[trigger] matmul_op(n, m, op)),
{
    broadcast use {
        group_grows, group_repeats, grows_raised, grows_step_matrix_multiply, repeats_raised,
        repeats_step_matrix_multiply,
    };

}

broadcast proof fn repeats_scaled(
    n: Run,
    later: Run,
    t: Tensor,
    factor: Scalar,
    dt: DataType,
    whole: Seq<char>,
    name: Seq<char>,
    add_label: Seq<char>,
    output_label: Seq<char>,
)
    requires
        #[trigger] later.repeats(n),
    ensures
        same_end(
            #[trigger] scaled(later, t, factor, dt, whole, name, add_label, output_label),
            #[trigger] scaled(n, t, factor, dt, whole, name, add_label, output_label),
        ),
{
    broadcast use {
        group_grows, group_repeats, grows_elements, grows_step_constant, grows_step_elementwise,
        repeats_elements, repeats_step_constant, repeats_step_elementwise,
    };

    reveal(scaled);
}

broadcast proof fn repeats_summed(n: Run, later: Run, t: Tensor, c: Tensor, add_label: Seq<char>)
    requires
        #[trigger] later.repeats(n),
    ensures
        same_end(#[trigger] summed(later, t, c, add_label), #[trigger] summed(n, t, c, add_label)),
{
    broadcast use {
        group_grows, group_repeats, grows_broadcast_pair, grows_step_elementwise,
        repeats_broadcast_pair, repeats_step_elementwise,
    };

    reveal(summed);
}

broadcast proof fn repeats_gemm_op(
    n: Run,
    later: Run,
    m: Map<u32, Tensor>,
    graph: GraphInfo,
    op: Operation,
)
    requires
        #[trigger] later.repeats(n),
    ensures
        same_end(#[trigger] gemm_op(later, m, graph, op), #[trigger] gemm_op(n, m, graph, op)),
{
    broadcast use {
        group_grows, group_repeats, grows_step_matrix_multiply, grows_scaled, grows_summed,
        repeats_step_matrix_multiply, repeats_scaled, repeats_summed,
    };

}

broadcast proof fn repeats_bytes_to_float(
    n: Run,
    later: Run,
    x: Tensor,
    sizes: Seq<u32>,
    shuffle_name: Seq<char>,
    purpose: Seq<char>,
    dequantize_name: Seq<char>,
)
    requires
        #[trigger] later.repeats(n),
    ensures
        same_end(
            #[trigger] bytes_to_float(later, x, sizes, shuffle_name, purpose, dequantize_name),
            #[trigger] bytes_to_float(n, x, sizes, shuffle_name, purpose, dequantize_name),
        ),
{
    broadcast use {
        group_grows, group_repeats, grows_step_output, grows_step_constant, repeats_step_output,
        repeats_step_constant,
    };

    reveal(bytes_to_float);
}

broadcast proof fn repeats_floats_to_int32(n: Run, later: Run, t: Tensor)
    requires
        #[trigger] later.repeats(n),
    ensures
        same_end(#[trigger] floats_to_int32(later, t), #[trigger] floats_to_int32(n, t)),
{
    broadcast use {group_grows, group_repeats, grows_step_output, repeats_step_output};

    reveal(floats_to_int32);
}

broadcast proof fn repeats_cast_op(
    n: Run,
    later: Run,
    m: Map<u32, Tensor>,
    graph: GraphInfo,
    op: Operation,
    promoted: Set<u32>,
)
    requires
        #[trigger] later.repeats(n),
    ensures
        same_end(
            #[trigger] cast_op(later, m, graph, op, promoted),
            #[trigger] cast_op(n, m, graph, op, promoted),
        ),
{
    broadcast use {
        group_grows, group_repeats, grows_step_identity, grows_bytes_to_float,
        grows_floats_to_int32, grows_step_cast, repeats_step_identity, repeats_bytes_to_float,
        repeats_floats_to_int32, repeats_step_cast,
    };

}

broadcast proof fn repeats_is_scalar(n: Run, later: Run, t: Tensor)
    requires
        #[trigger] later.repeats(n),
    ensures
        same_end(#[trigger] is_scalar(later, t), #[trigger] is_scalar(n, t)),
{
    broadcast use {group_grows, group_repeats};

    reveal(is_scalar);
}

broadcast proof fn repeats_quantize_zero(
    n: Run,
    later: Run,
    graph: GraphInfo,
    op: Operation,
    given: Tensor,
    out: DataType,
)
    requires
        #[trigger] later.repeats(n),
    ensures
        same_end(
            #[trigger] quantize_zero(later, graph, op, given, out),
            #[trigger] quantize_zero(n, graph, op, given, out),
        ),
{
    broadcast use {group_grows, group_repeats, grows_step_constant, repeats_step_constant};

    reveal(quantize_zero);
}

broadcast proof fn repeats_step_dequantize(
    n: Run,
    later: Run,
    input: Tensor,
    scale: Tensor,
    dtype: TrtDataType,
    add_label: Seq<char>,
    output_label: Seq<char>,
)
    requires
        #[trigger] later.repeats(n),
    ensures
        same_end(
            #[trigger] later.dequantize(input, scale, dtype, add_label, output_label),
            #[trigger] n.dequantize(input, scale, dtype, add_label, output_label),
        ),
{
    broadcast use {group_grows, group_repeats, grows_step_layer, repeats_step_layer};

    reveal(Run::dequantize);
}

broadcast proof fn repeats_step_select(
    n: Run,
    later: Run,
    condition: Tensor,
    on_true: Tensor,
    on_false: Tensor,
    add_label: Seq<char>,
    output_label: Seq<char>,
)
    requires
        #[trigger] later.repeats(n),
    ensures
        same_end(
            #[trigger] later.select(condition, on_true, on_false, add_label, output_label),
            #[trigger] n.select(condition, on_true, on_false, add_label, output_label),
        ),
{
    broadcast use {group_grows, group_repeats, grows_step_layer, repeats_step_layer};

    reveal(Run::select);
}

broadcast proof fn repeats_unsigned_reading(
    n: Run,
    later: Run,
    t: Tensor,
    ty: TrtDataType,
    label: Seq<char>,
)
    requires
        #[trigger] later.repeats(n),
    ensures
        same_end(
            #[trigger] unsigned_reading(later, t, ty, label),
            #[trigger] unsigned_reading(n, t, ty, label),
        ),
{
    broadcast use {
        group_grows, group_repeats, grows_step_constant, grows_step_elementwise, grows_to_bool,
        grows_step_select, repeats_step_constant, repeats_step_elementwise, repeats_to_bool,
        repeats_step_select,
    };

    reveal(unsigned_reading);
}

broadcast proof fn repeats_byte_values(
    n: Run,
    later: Run,
    t: Tensor,
    ty: TrtDataType,
    label: Seq<char>,
    source: DataType,
)
    requires
        #[trigger] later.repeats(n),
    ensures
        same_end(
            #[trigger] byte_values(later, t, ty, label, source),
            #[trigger] byte_values(n, t, ty, label, source),
        ),
{
    broadcast use {
        group_grows, group_repeats, grows_step_constant, grows_step_dequantize,
        grows_unsigned_reading, grows_step_elementwise, repeats_step_constant,
        repeats_step_dequantize, repeats_unsigned_reading, repeats_step_elementwise,
    };

    reveal(byte_values);
}

broadcast proof fn repeats_with_axis(n: Run, later: Run, t: Tensor, label: Seq<char>)
    requires
        #[trigger] later.repeats(n),
    ensures
        same_end(#[trigger] with_axis(later, t, label), #[trigger] with_axis(n, t, label)),
{
    broadcast use {
        group_grows, group_repeats, grows_step_reshape, grows_step_identity,
        repeats_step_reshape, repeats_step_identity,
    };

    reveal(with_axis);
}

broadcast proof fn repeats_prepended(n: Run, later: Run, t: Tensor, rank: nat, label: Seq<char>)
    requires
        #[trigger] later.repeats(n),
    ensures
        same_end(
            #[trigger] prepended(later, t, rank, label),
            #[trigger] prepended(n, t, rank, label),
        ),
{
    broadcast use {
        group_grows, group_repeats, grows_step_identity, grows_step_reshape,
        repeats_step_identity, repeats_step_reshape,
    };

    reveal(prepended);
}

broadcast proof fn repeats_slab(
    n: Run,
    later: Run,
    x: Tensor,
    d: Seq<i64>,
    axis: nat,
    at: i64,
    add_label: Seq<char>,
    output_label: Seq<char>,
)
    requires
        #[trigger] later.repeats(n),
    ensures
        same_end(
            #[trigger] slab(later, x, d, axis, at, add_label, output_label),
            #[trigger] slab(n, x, d, axis, at, add_label, output_label),
        ),
{
    broadcast use {group_grows, group_repeats, grows_step_slice, repeats_step_slice};

    reveal(slab);
}

broadcast proof fn repeats_block_part(
    n: Run,
    later: Run,
    x: Tensor,
    d: Seq<i64>,
    axis: nat,
    k: nat,
    times: i64,
    label: Seq<char>,
)
    requires
        #[trigger] later.repeats(n),
    ensures
        same_end(
            #[trigger] block_part(later, x, d, axis, k, times, label),
            #[trigger] block_part(n, x, d, axis, k, times, label),
        ),
{
    broadcast use {
        group_grows, group_repeats, grows_slab, grows_step_concat, repeats_slab,
        repeats_step_concat,
    };

    reveal(block_part);
}

broadcast proof fn repeats_block_parts(
    n: Run,
    later: Run,
    x: Tensor,
    d: Seq<i64>,
    axis: nat,
    k: nat,
    times: i64,
    label: Seq<char>,
)
    requires
        #[trigger] later.repeats(n),
    ensures
        same_end(
            #[trigger] block_parts(later, x, d, axis, k, times, label),
            #[trigger] block_parts(n, x, d, axis, k, times, label),
        ),
    decreases k,
{
    broadcast use {
        group_grows, group_repeats, grows_block_part, repeats_block_part, grows_block_parts,
    };

    if k > 0 {
        repeats_block_parts(n, later, x, d, axis, (k - 1) as nat, times, label);
    }
}

broadcast proof fn repeats_block_axis(
    n: Run,
    later: Run,
    t: Tensor,
    axis: nat,
    target: u32,
    label: Seq<char>,
)
    requires
        #[trigger] later.repeats(n),
    ensures
        same_end(
            #[trigger] block_axis(later, t, axis, target, label),
            #[trigger] block_axis(n, t, axis, target, label),
        ),
{
    broadcast use {
        group_grows, group_repeats, grows_block_parts, grows_step_concat, repeats_block_parts,
        repeats_step_concat,
    };

    reveal(block_axis);
}

broadcast proof fn repeats_block_axes(
    n: Run,
    later: Run,
    t: Tensor,
    sizes: Seq<u32>,
    k: nat,
    label: Seq<char>,
)
    requires
        #[trigger] later.repeats(n),
    ensures
        same_end(
            #[trigger] block_axes(later, t, sizes, k, label),
            #[trigger] block_axes(n, t, sizes, k, label),
        ),
    decreases k,
{
    broadcast use {
        group_grows, group_repeats, grows_block_axis, repeats_block_axis, grows_block_axes,
    };

    if k > 0 {
        repeats_block_axes(n, later, t, sizes, (k - 1) as nat, label);
    }
}

broadcast proof fn repeats_aligned(
    n: Run,
    later: Run,
    t: Tensor,
    sizes: Seq<u32>,
    label: Seq<char>,
    as_float: Option<TrtDataType>,
    source: DataType,
)
    requires
        #[trigger] later.repeats(n),
    ensures
        same_end(
            #[trigger] aligned(later, t, sizes, label, as_float, source),
            #[trigger] aligned(n, t, sizes, label, as_float, source),
        ),
{
    broadcast use {
        group_grows, group_repeats, grows_byte_values, grows_with_axis, grows_prepended,
        grows_block_axes, repeats_byte_values, repeats_with_axis, repeats_prepended,
        repeats_block_axes,
    };

    reveal(aligned);
}

broadcast proof fn repeats_in_type(n: Run, later: Run, t: Tensor, ty: TrtDataType, what: Seq<char>)
    requires
        #[trigger] later.repeats(n),
    ensures
        same_end(#[trigger] in_type(later, t, ty, what), #[trigger] in_type(n, t, ty, what)),
{
    broadcast use {group_grows, group_repeats, grows_step_cast, repeats_step_cast};

    reveal(in_type);
}

broadcast proof fn repeats_clamped_to(
    n: Run,
    later: Run,
    t: Tensor,
    ty: TrtDataType,
    range: (Known, Known),
)
    requires
        #[trigger] later.repeats(n),
    ensures
        same_end(
            #[trigger] clamped_to(later, t, ty, range),
            #[trigger] clamped_to(n, t, ty, range),
        ),
{
    broadcast use {
        group_grows, group_repeats, grows_step_constant, grows_step_elementwise,
        repeats_step_constant, repeats_step_elementwise,
    };

    reveal(clamped_to);
}

broadcast proof fn repeats_quantized(
    n: Run,
    later: Run,
    x: Tensor,
    scale: Tensor,
    zero: Tensor,
    float_ty: TrtDataType,
    out_ty: TrtDataType,
    out: DataType,
)
    requires
        #[trigger] later.repeats(n),
    ensures
        same_end(
            #[trigger] quantized(later, x, scale, zero, float_ty, out_ty, out),
            #[trigger] quantized(n, x, scale, zero, float_ty, out_ty, out),
        ),
{
    broadcast use {
        group_grows, group_repeats, grows_with_axis, grows_in_type, grows_step_elementwise,
        grows_step_unary, grows_clamped_to, grows_step_cast, repeats_with_axis, repeats_in_type,
        repeats_step_elementwise, repeats_step_unary, repeats_clamped_to, repeats_step_cast,
    };

    reveal(quantized);
}

broadcast proof fn repeats_quantize_linear_op(
    n: Run,
    later: Run,
    m: Map<u32, Tensor>,
    graph: GraphInfo,
    op: Operation,
)
    requires
        #[trigger] later.repeats(n),
    ensures
        same_end(
            #[trigger] quantize_linear_op(later, m, graph, op),
            #[trigger] quantize_linear_op(n, m, graph, op),
        ),
{
    broadcast use {
        group_grows, group_repeats, grows_is_scalar, grows_quantize_zero, grows_aligned,
        grows_quantized, grows_step_reshape, grows_with_axis, grows_step_layer,
        repeats_is_scalar, repeats_quantize_zero, repeats_aligned, repeats_quantized,
        repeats_step_reshape, repeats_with_axis, repeats_step_layer,
    };

}

broadcast proof fn repeats_dequantize_zero(
    n: Run,
    later: Run,
    zero: Tensor,
    ty: TrtDataType,
    source: DataType,
    scalar: bool,
    rank: nat,
)
    requires
        #[trigger] later.repeats(n),
    ensures
        same_end(
            #[trigger] dequantize_zero(later, zero, ty, source, scalar, rank),
            #[trigger] dequantize_zero(n, zero, ty, source, scalar, rank),
        ),
{
    broadcast use {
        group_grows, group_repeats, grows_byte_values, grows_with_axis, grows_is_scalar,
        grows_step_identity, repeats_byte_values, repeats_with_axis, repeats_is_scalar,
        repeats_step_identity,
    };

    reveal(dequantize_zero);
}

broadcast proof fn repeats_dequantize_linear_op(
    n: Run,
    later: Run,
    m: Map<u32, Tensor>,
    graph: GraphInfo,
    op: Operation,
)
    requires
        #[trigger] later.repeats(n),
    ensures
        same_end(
            #[trigger] dequantize_linear_op(later, m, graph, op),
            #[trigger] dequantize_linear_op(n, m, graph, op),
        ),
{
    broadcast use {
        group_grows, group_repeats, grows_with_axis, grows_step_dequantize,
        grows_dequantize_zero, grows_step_cast, grows_step_elementwise, repeats_with_axis,
        repeats_step_dequantize, repeats_dequantize_zero, repeats_step_cast,
        repeats_step_elementwise,
    };

}

broadcast proof fn repeats_pool_window(
    n: Run,
    later: Run,
    graph: GraphInfo,
    id: u32,
    plan: PoolPlan,
)
    requires
        #[trigger] later.repeats(n),
    ensures
        same_end(
            #[trigger] pool_window(later, graph, id, plan),
            #[trigger] pool_window(n, graph, id, plan),
        ),
{
    broadcast use {group_grows, group_repeats};

    reveal(pool_window);
}

broadcast proof fn repeats_channels_second(
    n: Run,
    later: Run,
    t: Tensor,
    nhwc: bool,
    what: Seq<char>,
)
    requires
        #[trigger] later.repeats(n),
    ensures
        same_end(
            #[trigger] channels_second(later, t, nhwc, what),
            #[trigger] channels_second(n, t, nhwc, what),
        ),
{
    broadcast use {group_grows, group_repeats, grows_step_transpose, repeats_step_transpose};

    reveal(channels_second);
}

broadcast proof fn repeats_rounds_up(n: Run, later: Run, output: u32, plan: PoolPlan)
    requires
        #[trigger] later.repeats(n),
    ensures
        same_end(#[trigger] rounds_up(later, output, plan), #[trigger] rounds_up(n, output, plan)),
{
    broadcast use {group_grows, group_repeats};

    reveal(rounds_up);
}

broadcast proof fn repeats_dilated_extents(
    n: Run,
    later: Run,
    output: u32,
    d: Seq<i64>,
    window: (u32, u32),
    plan: PoolPlan,
    kind: Dilated,
)
    requires
        #[trigger] later.repeats(n),
    ensures
        same_end(
            #[trigger] dilated_extents(later, output, d, window, plan, kind),
            #[trigger] dilated_extents(n, output, d, window, plan, kind),
        ),
{
    broadcast use {group_grows, group_repeats, grows_rounds_up, repeats_rounds_up};

    reveal(dilated_extents);
}

broadcast proof fn repeats_step_add_owned_constant(
    n: Run,
    later: Run,
    dims: Seq<i64>,
    bytes: Seq<u8>,
    dtype: TrtDataType,
    label: Seq<char>,
)
    requires
        #[trigger] later.repeats(n),
    ensures
        same_end(
            #[trigger] later.add_owned_constant(dims, bytes, dtype, label),
            #[trigger] n.add_owned_constant(dims, bytes, dtype, label),
        ),
{
    broadcast use {group_grows, group_repeats};

    reveal(Run::add_owned_constant);
}

broadcast proof fn repeats_outside_constant(n: Run, later: Run, d: Seq<i64>, kind: Dilated)
    requires
        #[trigger] later.repeats(n),
    ensures
        same_end(
            #[trigger] outside_constant(later, d, kind),
            #[trigger] outside_constant(n, d, kind),
        ),
{
    broadcast use {
        group_grows, group_repeats, grows_step_add_owned_constant,
        repeats_step_add_owned_constant,
    };

    reveal(outside_constant);
}

broadcast proof fn repeats_tap(n: Run, later: Run, g: Grid, row: nat, col: nat, k: nat)
    requires
        #[trigger] later.repeats(n),
    ensures
        same_end(#[trigger] tap(later, g, row, col, k), #[trigger] tap(n, g, row, col, k)),
{
    broadcast use {
        group_grows, group_repeats, grows_step_slice, grows_step_output, repeats_step_slice,
        repeats_step_output,
    };

    reveal(tap);
}

broadcast proof fn repeats_taps(n: Run, later: Run, g: Grid, row: nat, col: nat, k: nat)
    requires
        #[trigger] later.repeats(n),
    ensures
        same_end(#[trigger] taps(later, g, row, col, k), #[trigger] taps(n, g, row, col, k)),
    decreases k,
{
    broadcast use {group_grows, group_repeats, grows_tap, repeats_tap, grows_taps};

    if k > 0 {
        repeats_taps(n, later, g, row, col, (k - 1) as nat);
    }
}

broadcast proof fn repeats_combine(n: Run, later: Run, kind: Dilated, a: Tensor, b: Tensor)
    requires
        #[trigger] later.repeats(n),
    ensures
        same_end(#[trigger] combine(later, kind, a, b), #[trigger] combine(n, kind, a, b)),
{
    broadcast use {group_grows, group_repeats, grows_step_elementwise, repeats_step_elementwise};

    reveal(combine);
}

broadcast proof fn repeats_combined(n: Run, later: Run, kind: Dilated, list: Seq<Tensor>, k: nat)
    requires
        #[trigger] later.repeats(n),
    ensures
        same_end(#[trigger] combined(later, kind, list, k), #[trigger] combined(n, kind, list, k)),
    decreases k,
{
    broadcast use {group_grows, group_repeats, grows_combine, repeats_combine, grows_combined};

    if k > 1 {
        repeats_combined(n, later, kind, list, (k - 1) as nat);
    }
}

broadcast proof fn repeats_cell(n: Run, later: Run, g: Grid, row: nat, col: nat)
    requires
        #[trigger] later.repeats(n),
    ensures
        same_end(#[trigger] cell(later, g, row, col), #[trigger] cell(n, g, row, col)),
{
    broadcast use {
        group_grows, group_repeats, grows_taps, grows_combined, repeats_taps, repeats_combined,
    };

    reveal(cell);
}

broadcast proof fn repeats_cells(n: Run, later: Run, g: Grid, row: nat, k: nat)
    requires
        #[trigger] later.repeats(n),
    ensures
        same_end(#[trigger] cells(later, g, row, k), #[trigger] cells(n, g, row, k)),
    decreases k,
{
    broadcast use {group_grows, group_repeats, grows_cell, repeats_cell, grows_cells};

    if k > 0 {
        repeats_cells(n, later, g, row, (k - 1) as nat);
    }
}

broadcast proof fn repeats_joined(n: Run, later: Run, parts: Seq<Tensor>, axis: i32)
    requires
        #[trigger] later.repeats(n),
    ensures
        same_end(#[trigger] joined(later, parts, axis), #[trigger] joined(n, parts, axis)),
{
    broadcast use {
        group_grows, group_repeats, grows_step_identity, grows_step_concat,
        repeats_step_identity, repeats_step_concat,
    };

    reveal(joined);
}

broadcast proof fn repeats_grid_row(n: Run, later: Run, g: Grid, row: nat, width: nat)
    requires
        #[trigger] later.repeats(n),
    ensures
        same_end(#[trigger] grid_row(later, g, row, width), #[trigger] grid_row(n, g, row, width)),
{
    broadcast use {
        group_grows, group_repeats, grows_cells, grows_joined, repeats_cells, repeats_joined,
    };

    reveal(grid_row);
}

broadcast proof fn repeats_grid_rows(n: Run, later: Run, g: Grid, width: nat, k: nat)
    requires
        #[trigger] later.repeats(n),
    ensures
        same_end(#[trigger] grid_rows(later, g, width, k), #[trigger] grid_rows(n, g, width, k)),
    decreases k,
{
    broadcast use {group_grows, group_repeats, grows_grid_row, repeats_grid_row, grows_grid_rows};

    if k > 0 {
        repeats_grid_rows(n, later, g, width, (k - 1) as nat);
    }
}

broadcast proof fn repeats_dilated_pool(
    n: Run,
    later: Run,
    x: Tensor,
    output: u32,
    window: (u32, u32),
    plan: PoolPlan,
    kind: Dilated,
)
    requires
        #[trigger] later.repeats(n),
    ensures
        same_end(
            #[trigger] dilated_pool(later, x, output, window, plan, kind),
            #[trigger] dilated_pool(n, x, output, window, plan, kind),
        ),
{
    broadcast use {
        group_grows, group_repeats, grows_dilated_extents, grows_outside_constant,
        grows_grid_rows, grows_joined, repeats_dilated_extents, repeats_outside_constant,
        repeats_grid_rows, repeats_joined,
    };

    reveal(dilated_pool);
}

broadcast proof fn repeats_dilated_result(
    n: Run,
    later: Run,
    graph: GraphInfo,
    output: u32,
    t: Tensor,
    kind: Dilated,
)
    requires
        #[trigger] later.repeats(n),
    ensures
        same_end(
            #[trigger] dilated_result(later, graph, output, t, kind),
            #[trigger] dilated_result(n, graph, output, t, kind),
        ),
{
    broadcast use {group_grows, group_repeats, grows_step_cast, repeats_step_cast};

    reveal(dilated_result);
}

broadcast proof fn repeats_max_pool_dilated(
    n: Run,
    later: Run,
    graph: GraphInfo,
    x: Tensor,
    output: u32,
    plan: PoolPlan,
    window: (u32, u32),
)
    requires
        #[trigger] later.repeats(n),
    ensures
        same_end(
            #[trigger] max_pool_dilated(later, graph, x, output, plan, window),
            #[trigger] max_pool_dilated(n, graph, x, output, plan, window),
        ),
{
    broadcast use {
        group_grows, group_repeats, grows_dilated_pool, grows_dilated_result,
        repeats_dilated_pool, repeats_dilated_result,
    };

    reveal(max_pool_dilated);
}

broadcast proof fn repeats_average_pool_dilated(
    n: Run,
    later: Run,
    graph: GraphInfo,
    x: Tensor,
    output: u32,
    plan: PoolPlan,
    window: (u32, u32),
)
    requires
        #[trigger] later.repeats(n),
    ensures
        same_end(
            #[trigger] average_pool_dilated(later, graph, x, output, plan, window),
            #[trigger] average_pool_dilated(n, graph, x, output, plan, window),
        ),
{
    broadcast use {
        group_grows, group_repeats, grows_dilated_pool, grows_step_add_owned_constant,
        grows_step_output, grows_step_elementwise, grows_dilated_result, repeats_dilated_pool,
        repeats_step_add_owned_constant, repeats_step_output, repeats_step_elementwise,
        repeats_dilated_result,
    };

    reveal(average_pool_dilated);
}

broadcast proof fn repeats_pooled_dilated(
    n: Run,
    later: Run,
    graph: GraphInfo,
    op: Operation,
    x: Tensor,
    kind: PoolingType,
    window: (u32, u32),
)
    requires
        #[trigger] later.repeats(n),
    ensures
        same_end(
            #[trigger] pooled_dilated(later, graph, op, x, kind, window),
            #[trigger] pooled_dilated(n, graph, op, x, kind, window),
        ),
{
    broadcast use {
        group_grows, group_repeats, grows_step_cast, grows_max_pool_dilated,
        grows_average_pool_dilated, grows_step_transpose, repeats_step_cast,
        repeats_max_pool_dilated, repeats_average_pool_dilated, repeats_step_transpose,
    };

    reveal(pooled_dilated);
}

broadcast proof fn repeats_pool_settings(n: Run, later: Run, l: usize, plan: PoolPlan, up: bool)
    requires
        #[trigger] later.repeats(n),
    ensures
        same_end(
            #[trigger] pool_settings(later, l, plan, up),
            #[trigger] pool_settings(n, l, plan, up),
        ),
{
    broadcast use {group_grows, group_repeats};

    reveal(pool_settings);
}

broadcast proof fn repeats_channels_last(n: Run, later: Run, t: Tensor, nhwc: bool, what: Seq<char>)
    requires
        #[trigger] later.repeats(n),
    ensures
        same_end(
            #[trigger] channels_last(later, t, nhwc, what),
            #[trigger] channels_last(n, t, nhwc, what),
        ),
{
    broadcast use {group_grows, group_repeats, grows_step_transpose, repeats_step_transpose};

    reveal(channels_last);
}

broadcast proof fn repeats_pooling_op(
    n: Run,
    later: Run,
    m: Map<u32, Tensor>,
    graph: GraphInfo,
    op: Operation,
    kind: PoolingType,
)
    requires
        #[trigger] later.repeats(n),
    ensures
        same_end(
            #[trigger] pooling_op(later, m, graph, op, kind),
            #[trigger] pooling_op(n, m, graph, op, kind),
        ),
{
    broadcast use {
        group_grows, group_repeats, grows_pool_window, grows_channels_second,
        grows_pooled_dilated, grows_rounds_up, grows_pool_settings, grows_step_output,
        grows_channels_last, repeats_pool_window, repeats_channels_second,
        repeats_pooled_dilated, repeats_rounds_up, repeats_pool_settings, repeats_step_output,
        repeats_channels_last,
    };

}

broadcast proof fn repeats_global_pooling_op(
    n: Run,
    later: Run,
    m: Map<u32, Tensor>,
    op: Operation,
    kind: PoolingType,
)
    requires
        #[trigger] later.repeats(n),
    ensures
        same_end(
            #[trigger] global_pooling_op(later, m, op, kind),
            #[trigger] global_pooling_op(n, m, op, kind),
        ),
{
    broadcast use {
        group_grows, group_repeats, grows_channels_second, grows_step_layer,
        grows_channels_last, repeats_channels_second, repeats_step_layer, repeats_channels_last,
    };

}

broadcast proof fn repeats_channel_stats(
    n: Run,
    later: Run,
    stats: Tensor,
    input: Tensor,
    axis: i64,
    op_name: Seq<char>,
)
    requires
        #[trigger] later.repeats(n),
    ensures
        same_end(
            #[trigger] channel_stats(later, stats, input, axis, op_name),
            #[trigger] channel_stats(n, stats, input, axis, op_name),
        ),
{
    broadcast use {
        group_grows, group_repeats, grows_step_transpose, grows_step_reshape,
        repeats_step_transpose, repeats_step_reshape,
    };

    reveal(channel_stats);
}

broadcast proof fn repeats_step_named_layer(
    n: Run,
    later: Run,
    request: RequestView,
    name: Seq<char>,
    add_label: Seq<char>,
    output_label: Seq<char>,
)
    requires
        #[trigger] later.repeats(n),
    ensures
        same_end(
            #[trigger] later.named_layer(request, name, add_label, output_label),
            #[trigger] n.named_layer(request, name, add_label, output_label),
        ),
{
    broadcast use {group_grows, group_repeats, grows_step_output, repeats_step_output};

    reveal(Run::named_layer);
}

broadcast proof fn repeats_guarded_variance(
    n: Run,
    later: Run,
    graph: GraphInfo,
    op: Operation,
    variance: Tensor,
    epsilon: Scalar,
)
    requires
        #[trigger] later.repeats(n),
    ensures
        same_end(
            #[trigger] guarded_variance(later, graph, op, variance, epsilon),
            #[trigger] guarded_variance(n, graph, op, variance, epsilon),
        ),
{
    broadcast use {
        group_grows, group_repeats, grows_elements, grows_step_constant, grows_step_elementwise,
        repeats_elements, repeats_step_constant, repeats_step_elementwise,
    };

    reveal(guarded_variance);
}

broadcast proof fn repeats_batch_normalization_op(
    n: Run,
    later: Run,
    m: Map<u32, Tensor>,
    graph: GraphInfo,
    op: Operation,
)
    requires
        #[trigger] later.repeats(n),
    ensures
        same_end(
            #[trigger] batch_normalization_op(later, m, graph, op),
            #[trigger] batch_normalization_op(n, m, graph, op),
        ),
{
    broadcast use {
        group_grows, group_repeats, grows_channel_stats, grows_step_named_layer,
        grows_guarded_variance, repeats_channel_stats, repeats_step_named_layer,
        repeats_guarded_variance,
    };

}

broadcast proof fn repeats_step_reduce(
    n: Run,
    later: Run,
    input: Tensor,
    op: ReduceOperation,
    axes: u32,
    keep_dims: bool,
    add_label: Seq<char>,
    output_label: Seq<char>,
)
    requires
        #[trigger] later.repeats(n),
    ensures
        same_end(
            #[trigger] later.reduce(input, op, axes, keep_dims, add_label, output_label),
            #[trigger] n.reduce(input, op, axes, keep_dims, add_label, output_label),
        ),
{
    broadcast use {group_grows, group_repeats, grows_step_layer, repeats_step_layer};

    reveal(Run::reduce);
}

broadcast proof fn repeats_instance_normalized(
    n: Run,
    later: Run,
    graph: GraphInfo,
    op: Operation,
    x: Tensor,
    bits: u32,
    epsilon: Scalar,
)
    requires
        #[trigger] later.repeats(n),
    ensures
        same_end(
            #[trigger] instance_normalized(later, graph, op, x, bits, epsilon),
            #[trigger] instance_normalized(n, graph, op, x, bits, epsilon),
        ),
{
    broadcast use {
        group_grows, group_repeats, grows_step_reduce, grows_step_elementwise, grows_elements,
        grows_step_constant, grows_step_unary, repeats_step_reduce, repeats_step_elementwise,
        repeats_elements, repeats_step_constant, repeats_step_unary,
    };

    reveal(instance_normalized);
}

broadcast proof fn repeats_instance_normalization_op(
    n: Run,
    later: Run,
    m: Map<u32, Tensor>,
    graph: GraphInfo,
    op: Operation,
)
    requires
        #[trigger] later.repeats(n),
    ensures
        same_end(
            #[trigger] instance_normalization_op(later, m, graph, op),
            #[trigger] instance_normalization_op(n, m, graph, op),
        ),
{
    broadcast use {
        group_grows, group_repeats, grows_instance_normalized, grows_step_reshape,
        grows_step_elementwise, repeats_instance_normalized, repeats_step_reshape,
        repeats_step_elementwise,
    };

}

broadcast proof fn repeats_layer_norm_of_scalar(
    n: Run,
    later: Run,
    m: Map<u32, Tensor>,
    graph: GraphInfo,
    op: Operation,
    bias: Option<u32>,
)
    requires
        #[trigger] later.repeats(n),
    ensures
        same_end(
            #[trigger] layer_norm_of_scalar(later, m, graph, op, bias),
            #[trigger] layer_norm_of_scalar(n, m, graph, op, bias),
        ),
{
    broadcast use {
        group_grows, group_repeats, grows_step_constant, grows_step_reshape,
        grows_step_elementwise, repeats_step_constant, repeats_step_reshape,
        repeats_step_elementwise,
    };

    reveal(layer_norm_of_scalar);
}

broadcast proof fn repeats_filled(
    n: Run,
    later: Run,
    dims: Seq<i64>,
    count: nat,
    s: Scalar,
    t: DataType,
    add_label: Seq<
    char,
>,
    output_label: Seq<char>,
)
    requires
        #[trigger] later.repeats(n),
    ensures
        same_end(
            #[trigger] filled(later, dims, count, s, t, add_label, output_label),
            #[trigger] filled(n, dims, count, s, t, add_label, output_label),
        ),
{
    broadcast use {group_grows, group_repeats, grows_step_constant, repeats_step_constant};

}

broadcast proof fn repeats_layer_bias(
    n: Run,
    later: Run,
    graph: GraphInfo,
    id: u32,
    bias: Tensor,
    d: Seq<i64>,
    count: nat,
    dt: DataType,
)
    requires
        #[trigger] later.repeats(n),
    ensures
        same_end(
            #[trigger] layer_bias(later, graph, id, bias, d, count, dt),
            #[trigger] layer_bias(n, graph, id, bias, d, count, dt),
        ),
{
    broadcast use {
        group_grows, group_repeats, grows_step_constant, grows_filled, grows_broadcast_pair,
        repeats_step_constant, repeats_filled, repeats_broadcast_pair,
    };

    reveal(layer_bias);
}

broadcast proof fn repeats_layer_norm_over_nothing(
    n: Run,
    later: Run,
    m: Map<u32, Tensor>,
    graph: GraphInfo,
    op: Operation,
    bias: Option<u32>,
    d: Seq<i64>,
)
    requires
        #[trigger] later.repeats(n),
    ensures
        same_end(
            #[trigger] layer_norm_over_nothing(later, m, graph, op, bias, d),
            #[trigger] layer_norm_over_nothing(n, m, graph, op, bias, d),
        ),
{
    broadcast use {
        group_grows, group_repeats, grows_elements, grows_filled, grows_layer_bias,
        grows_step_elementwise, repeats_elements, repeats_filled, repeats_layer_bias,
        repeats_step_elementwise,
    };

    reveal(layer_norm_over_nothing);
}

broadcast proof fn repeats_mask(n: Run, later: Run, axes: Seq<u32>)
    requires
        #[trigger] later.repeats(n),
    ensures
        same_end(#[trigger] mask(later, axes), #[trigger] mask(n, axes)),
{
    broadcast use {group_grows, group_repeats};

}

broadcast proof fn repeats_layer_normalized(
    n: Run,
    later: Run,
    graph: GraphInfo,
    op: Operation,
    x: Tensor,
    bits: u32,
    epsilon: Scalar,
)
    requires
        #[trigger] later.repeats(n),
    ensures
        same_end(
            #[trigger] layer_normalized(later, graph, op, x, bits, epsilon),
            #[trigger] layer_normalized(n, graph, op, x, bits, epsilon),
        ),
{
    broadcast use {
        group_grows, group_repeats, grows_step_reduce, grows_step_elementwise, grows_elements,
        grows_step_constant, grows_step_unary, repeats_step_reduce, repeats_step_elementwise,
        repeats_elements, repeats_step_constant, repeats_step_unary,
    };

    reveal(layer_normalized);
}

broadcast proof fn repeats_layer_parameter(
    n: Run,
    later: Run,
    tensor: Tensor,
    result: Tensor,
    op_name: Seq<char>,
    axes: Seq<u32>,
)
    requires
        #[trigger] later.repeats(n),
    ensures
        same_end(
            #[trigger] layer_parameter(later, tensor, result, op_name, axes),
            #[trigger] layer_parameter(n, tensor, result, op_name, axes),
        ),
{
    broadcast use {
        group_grows, group_repeats, grows_step_identity, grows_step_output,
        repeats_step_identity, repeats_step_output,
    };

    reveal(layer_parameter);
}

broadcast proof fn repeats_layer_normalization_op(
    n: Run,
    later: Run,
    m: Map<u32, Tensor>,
    graph: GraphInfo,
    op: Operation,
)
    requires
        #[trigger] later.repeats(n),
    ensures
        same_end(
            #[trigger] layer_normalization_op(later, m, graph, op),
            #[trigger] layer_normalization_op(n, m, graph, op),
        ),
{
    broadcast use {
        group_grows, group_repeats, grows_layer_norm_of_scalar, grows_layer_norm_over_nothing,
        grows_mask, grows_layer_normalized, grows_layer_parameter, grows_step_elementwise,
        repeats_layer_norm_of_scalar, repeats_layer_norm_over_nothing, repeats_mask,
        repeats_layer_normalized, repeats_layer_parameter, repeats_step_elementwise,
    };

}

broadcast proof fn repeats_over_axes(
    n: Run,
    later: Run,
    t: Tensor,
    op: ReduceOperation,
    axes: Seq<u32>,
    keep: bool,
    add_label: Seq<char>,
    output_label: Seq<char>,
)
    requires
        #[trigger] later.repeats(n),
    ensures
        same_end(
            #[trigger] over_axes(later, t, op, axes, keep, add_label, output_label),
            #[trigger] over_axes(n, t, op, axes, keep, add_label, output_label),
        ),
{
    broadcast use {
        group_grows, group_repeats, grows_mask, grows_step_reduce, repeats_mask,
        repeats_step_reduce,
    };

    reveal(over_axes);
}

broadcast proof fn repeats_reduce_op(
    n: Run,
    later: Run,
    m: Map<u32, Tensor>,
    op: Operation,
    reduction: ReduceOperation,
)
    requires
        #[trigger] later.repeats(n),
    ensures
        same_end(
            #[trigger] reduce_op(later, m, op, reduction),
            #[trigger] reduce_op(n, m, op, reduction),
        ),
{
    broadcast use {
        group_grows, group_repeats, grows_step_identity, grows_over_axes, repeats_step_identity,
        repeats_over_axes,
    };

}

broadcast proof fn repeats_reduce_l1_op(n: Run, later: Run, m: Map<u32, Tensor>, op: Operation)
    requires
        #[trigger] later.repeats(n),
    ensures
        same_end(#[trigger] reduce_l1_op(later, m, op), #[trigger] reduce_l1_op(n, m, op)),
{
    broadcast use {
        group_grows, group_repeats, grows_step_unary, grows_over_axes, repeats_step_unary,
        repeats_over_axes,
    };

}

broadcast proof fn repeats_reduce_l2_op(
    n: Run,
    later: Run,
    m: Map<u32, Tensor>,
    graph: GraphInfo,
    op: Operation,
)
    requires
        #[trigger] later.repeats(n),
    ensures
        same_end(
            #[trigger] reduce_l2_op(later, m, graph, op),
            #[trigger] reduce_l2_op(n, m, graph, op),
        ),
{
    broadcast use {
        group_grows, group_repeats, grows_step_elementwise, grows_step_unary, grows_mask,
        grows_to_float32, grows_step_reduce, grows_to_float16, repeats_step_elementwise,
        repeats_step_unary, repeats_mask, repeats_to_float32, repeats_step_reduce,
        repeats_to_float16,
    };

}

broadcast proof fn repeats_reduce_log_sum_op(n: Run, later: Run, m: Map<u32, Tensor>, op: Operation)
    requires
        #[trigger] later.repeats(n),
    ensures
        same_end(
            #[trigger] reduce_log_sum_op(later, m, op),
            #[trigger] reduce_log_sum_op(n, m, op),
        ),
{
    broadcast use {
        group_grows, group_repeats, grows_step_unary, grows_over_axes, repeats_step_unary,
        repeats_over_axes,
    };

}

broadcast proof fn repeats_reduce_log_sum_exp_op(
    n: Run,
    later: Run,
    m: Map<u32, Tensor>,
    op: Operation,
)
    requires
        #[trigger] later.repeats(n),
    ensures
        same_end(
            #[trigger] reduce_log_sum_exp_op(later, m, op),
            #[trigger] reduce_log_sum_exp_op(n, m, op),
        ),
{
    broadcast use {
        group_grows, group_repeats, grows_step_unary, grows_step_identity, grows_over_axes,
        repeats_step_unary, repeats_step_identity, repeats_over_axes,
    };

}

broadcast proof fn repeats_reduce_sum_square_op(
    n: Run,
    later: Run,
    m: Map<u32, Tensor>,
    op: Operation,
)
    requires
        #[trigger] later.repeats(n),
    ensures
        same_end(
            #[trigger] reduce_sum_square_op(later, m, op),
            #[trigger] reduce_sum_square_op(n, m, op),
        ),
{
    broadcast use {
        group_grows, group_repeats, grows_step_elementwise, grows_over_axes,
        repeats_step_elementwise, repeats_over_axes,
    };

}

broadcast proof fn repeats_truth_constant(n: Run, later: Run, id: u32, sizes: Seq<u32>)
    requires
        #[trigger] later.repeats(n),
    ensures
        same_end(
            #[trigger] truth_constant(later, id, sizes),
            #[trigger] truth_constant(n, id, sizes),
        ),
{
    broadcast use {
        group_grows, group_repeats, grows_elements, grows_step_constant, repeats_elements,
        repeats_step_constant,
    };

    reveal(truth_constant);
}

broadcast proof fn repeats_logical_not_op(
    n: Run,
    later: Run,
    m: Map<u32, Tensor>,
    graph: GraphInfo,
    op: Operation,
)
    requires
        #[trigger] later.repeats(n),
    ensures
        same_end(
            #[trigger] logical_not_op(later, m, graph, op),
            #[trigger] logical_not_op(n, m, graph, op),
        ),
{
    broadcast use {
        group_grows, group_repeats, grows_truth_constant, grows_to_bool, grows_step_unary,
        grows_to_float32, repeats_truth_constant, repeats_to_bool, repeats_step_unary,
        repeats_to_float32,
    };

}

broadcast proof fn repeats_gather_indices(
    n: Run,
    later: Run,
    indices: Tensor,
    shape: Seq<i64>,
    low: Seq<u8>,
    high: Seq<u8>,
)
    requires
        #[trigger] later.repeats(n),
    ensures
        same_end(
            #[trigger] gather_indices(later, indices, shape, low, high),
            #[trigger] gather_indices(n, indices, shape, low, high),
        ),
{
    broadcast use {
        group_grows, group_repeats, grows_step_add_constant, grows_step_output,
        grows_step_elementwise, repeats_step_add_constant, repeats_step_output,
        repeats_step_elementwise,
    };

    reveal(gather_indices);
}

broadcast proof fn repeats_gather_op(
    n: Run,
    later: Run,
    m: Map<u32, Tensor>,
    graph: GraphInfo,
    op: Operation,
)
    requires
        #[trigger] later.repeats(n),
    ensures
        same_end(#[trigger] gather_op(later, m, graph, op), #[trigger] gather_op(n, m, graph, op)),
{
    broadcast use {
        group_grows, group_repeats, grows_gather_indices, grows_step_layer,
        repeats_gather_indices, repeats_step_layer,
    };

}

broadcast proof fn repeats_gather_nd_indices(
    n: Run,
    later: Run,
    indices: Tensor,
    shape: Seq<i64>,
    low: Seq<u8>,
    high: Seq<u8>,
)
    requires
        #[trigger] later.repeats(n),
    ensures
        same_end(
            #[trigger] gather_nd_indices(later, indices, shape, low, high),
            #[trigger] gather_nd_indices(n, indices, shape, low, high),
        ),
{
    broadcast use {
        group_grows, group_repeats, grows_step_add_constant, grows_step_output,
        grows_step_elementwise, repeats_step_add_constant, repeats_step_output,
        repeats_step_elementwise,
    };

    reveal(gather_nd_indices);
}

broadcast proof fn repeats_gather_nd_op(
    n: Run,
    later: Run,
    m: Map<u32, Tensor>,
    graph: GraphInfo,
    op: Operation,
)
    requires
        #[trigger] later.repeats(n),
    ensures
        same_end(
            #[trigger] gather_nd_op(later, m, graph, op),
            #[trigger] gather_nd_op(n, m, graph, op),
        ),
{
    broadcast use {
        group_grows, group_repeats, grows_elements, grows_gather_nd_indices, grows_step_output,
        repeats_elements, repeats_gather_nd_indices, repeats_step_output,
    };

}

broadcast proof fn repeats_scatter_elements_op(
    n: Run,
    later: Run,
    m: Map<u32, Tensor>,
    op: Operation,
)
    requires
        #[trigger] later.repeats(n),
    ensures
        same_end(
            #[trigger] scatter_elements_op(later, m, op),
            #[trigger] scatter_elements_op(n, m, op),
        ),
{
    broadcast use {group_grows, group_repeats, grows_step_output, repeats_step_output};

}

broadcast proof fn repeats_scatter_nd_op(n: Run, later: Run, m: Map<u32, Tensor>, op: Operation)
    requires
        #[trigger] later.repeats(n),
    ensures
        same_end(#[trigger] scatter_nd_op(later, m, op), #[trigger] scatter_nd_op(n, m, op)),
{
    broadcast use {group_grows, group_repeats, grows_step_layer, repeats_step_layer};

}

broadcast proof fn repeats_extreme_positions(
    n: Run,
    later: Run,
    x: Tensor,
    op: TopKOperation,
    axes: u32,
    label: Seq<char>,
)
    requires
        #[trigger] later.repeats(n),
    ensures
        same_end(
            #[trigger] extreme_positions(later, x, op, axes, label),
            #[trigger] extreme_positions(n, x, op, axes, label),
        ),
{
    broadcast use {group_grows, group_repeats};

    reveal(extreme_positions);
}

broadcast proof fn repeats_arg_reduced(
    n: Run,
    later: Run,
    graph: GraphInfo,
    id: u32,
    x: Tensor,
    axis: u32,
    keep_dims: bool,
    op: TopKOperation,
    label: Seq<char>,
)
    requires
        #[trigger] later.repeats(n),
    ensures
        same_end(
            #[trigger] arg_reduced(later, graph, id, x, axis, keep_dims, op, label),
            #[trigger] arg_reduced(n, graph, id, x, axis, keep_dims, op, label),
        ),
{
    broadcast use {
        group_grows, group_repeats, grows_step_reshape, grows_extreme_positions,
        grows_step_transpose, repeats_step_reshape, repeats_extreme_positions,
        repeats_step_transpose,
    };

    reveal(arg_reduced);
}

broadcast proof fn repeats_arg_max_op(
    n: Run,
    later: Run,
    m: Map<u32, Tensor>,
    graph: GraphInfo,
    op: Operation,
)
    requires
        #[trigger] later.repeats(n),
    ensures
        same_end(
            #[trigger] arg_max_op(later, m, graph, op),
            #[trigger] arg_max_op(n, m, graph, op),
        ),
{
    broadcast use {
        group_grows, group_repeats, grows_arg_reduced, grows_int32_to_float32,
        repeats_arg_reduced, repeats_int32_to_float32,
    };

}

broadcast proof fn repeats_arg_min_op(
    n: Run,
    later: Run,
    m: Map<u32, Tensor>,
    graph: GraphInfo,
    op: Operation,
)
    requires
        #[trigger] later.repeats(n),
    ensures
        same_end(
            #[trigger] arg_min_op(later, m, graph, op),
            #[trigger] arg_min_op(n, m, graph, op),
        ),
{
    broadcast use {
        group_grows, group_repeats, grows_arg_reduced, grows_int32_to_float32,
        repeats_arg_reduced, repeats_int32_to_float32,
    };

}

broadcast proof fn repeats_clamp_op(
    n: Run,
    later: Run,
    m: Map<u32, Tensor>,
    graph: GraphInfo,
    op: Operation,
)
    requires
        #[trigger] later.repeats(n),
    ensures
        same_end(#[trigger] clamp_op(later, m, graph, op), #[trigger] clamp_op(n, m, graph, op)),
{
    broadcast use {
        group_grows, group_repeats, grows_scalar_shape, grows_step_constant,
        grows_step_elementwise, repeats_scalar_shape, repeats_step_constant,
        repeats_step_elementwise,
    };

}

broadcast proof fn repeats_where_op(
    n: Run,
    later: Run,
    m: Map<u32, Tensor>,
    graph: GraphInfo,
    op: Operation,
)
    requires
        #[trigger] later.repeats(n),
    ensures
        same_end(#[trigger] where_op(later, m, graph, op), #[trigger] where_op(n, m, graph, op)),
{
    broadcast use {
        group_grows, group_repeats, grows_static_sizes, grows_to_float32, grows_broadcast_to,
        grows_to_bool, grows_step_select, repeats_static_sizes, repeats_to_float32,
        repeats_broadcast_to, repeats_to_bool, repeats_step_select,
    };

}

broadcast proof fn repeats_pad_last_axes(
    n: Run,
    later: Run,
    x: Tensor,
    d: Seq<i64>,
    pre: Seq<i32>,
    post: Seq<i32>,
)
    requires
        #[trigger] later.repeats(n),
    ensures
        same_end(
            #[trigger] pad_last_axes(later, x, d, pre, post),
            #[trigger] pad_last_axes(n, x, d, pre, post),
        ),
{
    broadcast use {
        group_grows, group_repeats, grows_step_reshape, grows_step_identity, grows_step_padding,
        repeats_step_reshape, repeats_step_identity, repeats_step_padding,
    };

    reveal(pad_last_axes);
}

broadcast proof fn repeats_pad_axis_edge(
    n: Run,
    later: Run,
    x: Tensor,
    axis: nat,
    pre: i32,
    post: i32,
)
    requires
        #[trigger] later.repeats(n),
    ensures
        same_end(
            #[trigger] pad_axis_edge(later, x, axis, pre, post),
            #[trigger] pad_axis_edge(n, x, axis, pre, post),
        ),
{
    broadcast use {
        group_grows, group_repeats, grows_step_identity, grows_slab, grows_step_concat,
        repeats_step_identity, repeats_slab, repeats_step_concat,
    };

    reveal(pad_axis_edge);
}

broadcast proof fn repeats_slabs(
    n: Run,
    later: Run,
    x: Tensor,
    d: Seq<i64>,
    axis: nat,
    positions: Seq<i64>,
    k: nat,
    add_label: Seq<char>,
    output_label: Seq<char>,
)
    requires
        #[trigger] later.repeats(n),
    ensures
        same_end(
            #[trigger] slabs(later, x, d, axis, positions, k, add_label, output_label),
            #[trigger] slabs(n, x, d, axis, positions, k, add_label, output_label),
        ),
    decreases k,
{
    broadcast use {group_grows, group_repeats, grows_slab, repeats_slab, grows_slabs};

    if k > 0 {
        repeats_slabs(n, later, x, d, axis, positions, (k - 1) as nat, add_label, output_label);
    }
}

broadcast proof fn repeats_pad_axis_reflect(
    n: Run,
    later: Run,
    x: Tensor,
    axis: nat,
    pre: i32,
    post: i32,
)
    requires
        #[trigger] later.repeats(n),
    ensures
        same_end(
            #[trigger] pad_axis_reflect(later, x, axis, pre, post),
            #[trigger] pad_axis_reflect(n, x, axis, pre, post),
        ),
{
    broadcast use {
        group_grows, group_repeats, grows_step_identity, grows_slabs, grows_step_concat,
        repeats_step_identity, repeats_slabs, repeats_step_concat,
    };

    reveal(pad_axis_reflect);
}

broadcast proof fn repeats_filler(
    n: Run,
    later: Run,
    d: Seq<i64>,
    axis: nat,
    extent: i32,
    unit: Seq<u8>,
    dtype: TrtDataType,
)
    requires
        #[trigger] later.repeats(n),
    ensures
        same_end(
            #[trigger] filler(later, d, axis, extent, unit, dtype),
            #[trigger] filler(n, d, axis, extent, unit, dtype),
        ),
{
    broadcast use {
        group_grows, group_repeats, grows_elements, grows_step_constant, repeats_elements,
        repeats_step_constant,
    };

    reveal(filler);
}

broadcast proof fn repeats_pad_axis_constant(
    n: Run,
    later: Run,
    x: Tensor,
    axis: nat,
    pre: i32,
    post: i32,
    fill: FloatReading,
)
    requires
        #[trigger] later.repeats(n),
    ensures
        same_end(
            #[trigger] pad_axis_constant(later, x, axis, pre, post, fill),
            #[trigger] pad_axis_constant(n, x, axis, pre, post, fill),
        ),
{
    broadcast use {
        group_grows, group_repeats, grows_step_identity, grows_filler, grows_step_concat,
        repeats_step_identity, repeats_filler, repeats_step_concat,
    };

    reveal(pad_axis_constant);
}

broadcast proof fn repeats_pad_axis(
    n: Run,
    later: Run,
    x: Tensor,
    axis: nat,
    pre: i32,
    post: i32,
    mode: PadMode,
    fill: FloatReading,
)
    requires
        #[trigger] later.repeats(n),
    ensures
        same_end(
            #[trigger] pad_axis(later, x, axis, pre, post, mode, fill),
            #[trigger] pad_axis(n, x, axis, pre, post, mode, fill),
        ),
{
    broadcast use {
        group_grows, group_repeats, grows_pad_axis_edge, grows_pad_axis_reflect,
        grows_pad_axis_constant, repeats_pad_axis_edge, repeats_pad_axis_reflect,
        repeats_pad_axis_constant,
    };

    reveal(pad_axis);
}

broadcast proof fn repeats_pad_axes(
    n: Run,
    later: Run,
    x: Tensor,
    pre: Seq<i32>,
    post: Seq<i32>,
    k: nat,
    mode: PadMode,
    fill: FloatReading,
)
    requires
        #[trigger] later.repeats(n),
    ensures
        same_end(
            #[trigger] pad_axes(later, x, pre, post, k, mode, fill),
            #[trigger] pad_axes(n, x, pre, post, k, mode, fill),
        ),
    decreases k,
{
    broadcast use {group_grows, group_repeats, grows_pad_axis, repeats_pad_axis, grows_pad_axes};

    if k > 0 {
        repeats_pad_axes(n, later, x, pre, post, (k - 1) as nat, mode, fill);
    }
}

broadcast proof fn repeats_pad_op(n: Run, later: Run, m: Map<u32, Tensor>, op: Operation)
    requires
        #[trigger] later.repeats(n),
    ensures
        same_end(#[trigger] pad_op(later, m, op), #[trigger] pad_op(n, m, op)),
{
    broadcast use {
        group_grows, group_repeats, grows_step_identity, grows_pad_last_axes, grows_pad_axes,
        repeats_step_identity, repeats_pad_last_axes, repeats_pad_axes,
    };

}

broadcast proof fn repeats_softmax_op(n: Run, later: Run, m: Map<u32, Tensor>, op: Operation)
    requires
        #[trigger] later.repeats(n),
    ensures
        same_end(#[trigger] softmax_op(later, m, op), #[trigger] softmax_op(n, m, op)),
{
    broadcast use {group_grows, group_repeats, grows_step_layer, repeats_step_layer};

}

broadcast proof fn repeats_gather_elements_indices(
    n: Run,
    later: Run,
    indices: Tensor,
    shape: Seq<i64>,
    low: Seq<u8>,
    high: Seq<u8>,
)
    requires
        #[trigger] later.repeats(n),
    ensures
        same_end(
            #[trigger] gather_elements_indices(later, indices, shape, low, high),
            #[trigger] gather_elements_indices(n, indices, shape, low, high),
        ),
{
    broadcast use {
        group_grows, group_repeats, grows_step_add_constant, grows_step_output,
        grows_step_elementwise, repeats_step_add_constant, repeats_step_output,
        repeats_step_elementwise,
    };

    reveal(gather_elements_indices);
}

broadcast proof fn repeats_gather_elements_op(
    n: Run,
    later: Run,
    m: Map<u32, Tensor>,
    graph: GraphInfo,
    op: Operation,
)
    requires
        #[trigger] later.repeats(n),
    ensures
        same_end(
            #[trigger] gather_elements_op(later, m, graph, op),
            #[trigger] gather_elements_op(n, m, graph, op),
        ),
{
    broadcast use {
        group_grows, group_repeats, grows_gather_elements_indices, grows_step_output,
        repeats_gather_elements_indices, repeats_step_output,
    };

}

broadcast proof fn repeats_l2_pool_dilated(
    n: Run,
    later: Run,
    x: Tensor,
    output: u32,
    plan: PoolPlan,
    window: (u32, u32),
)
    requires
        #[trigger] later.repeats(n),
    ensures
        same_end(
            #[trigger] l2_pool_dilated(later, x, output, plan, window),
            #[trigger] l2_pool_dilated(n, x, output, plan, window),
        ),
{
    broadcast use {group_grows, group_repeats, grows_dilated_pool, repeats_dilated_pool};

    reveal(l2_pool_dilated);
}

broadcast proof fn repeats_summed_squares(
    n: Run,
    later: Run,
    x: Tensor,
    output: u32,
    plan: PoolPlan,
    window: (u32, u32),
    half: bool,
)
    requires
        #[trigger] later.repeats(n),
    ensures
        same_end(
            #[trigger] summed_squares(later, x, output, plan, window, half),
            #[trigger] summed_squares(n, x, output, plan, window, half),
        ),
{
    broadcast use {
        group_grows, group_repeats, grows_rounds_up, grows_pool_settings, grows_step_output,
        grows_step_cast, grows_step_add_owned_constant, grows_step_elementwise,
        repeats_rounds_up, repeats_pool_settings, repeats_step_output, repeats_step_cast,
        repeats_step_add_owned_constant, repeats_step_elementwise,
    };

    reveal(summed_squares);
}

broadcast proof fn repeats_l2_pool2d_op(
    n: Run,
    later: Run,
    m: Map<u32, Tensor>,
    graph: GraphInfo,
    op: Operation,
)
    requires
        #[trigger] later.repeats(n),
    ensures
        same_end(
            #[trigger] l2_pool2d_op(later, m, graph, op),
            #[trigger] l2_pool2d_op(n, m, graph, op),
        ),
{
    broadcast use {
        group_grows, group_repeats, grows_step_elementwise, grows_pool_window,
        grows_channels_second, grows_step_cast, grows_l2_pool_dilated, grows_summed_squares,
        grows_channels_last, grows_step_unary, repeats_step_elementwise, repeats_pool_window,
        repeats_channels_second, repeats_step_cast, repeats_l2_pool_dilated,
        repeats_summed_squares, repeats_channels_last, repeats_step_unary,
    };

}

broadcast proof fn repeats_cumulative_sum_op(
    n: Run,
    later: Run,
    m: Map<u32, Tensor>,
    graph: GraphInfo,
    op: Operation,
)
    requires
        #[trigger] later.repeats(n),
    ensures
        same_end(
            #[trigger] cumulative_sum_op(later, m, graph, op),
            #[trigger] cumulative_sum_op(n, m, graph, op),
        ),
{
    broadcast use {
        group_grows, group_repeats, grows_step_constant, grows_step_layer,
        repeats_step_constant, repeats_step_layer,
    };

}

broadcast proof fn repeats_triangular_op(
    n: Run,
    later: Run,
    m: Map<u32, Tensor>,
    graph: GraphInfo,
    op: Operation,
)
    requires
        #[trigger] later.repeats(n),
    ensures
        same_end(
            #[trigger] triangular_op(later, m, graph, op),
            #[trigger] triangular_op(n, m, graph, op),
        ),
{
    broadcast use {
        group_grows, group_repeats, grows_step_add_owned_constant, grows_step_output,
        grows_step_elementwise, repeats_step_add_owned_constant, repeats_step_output,
        repeats_step_elementwise,
    };

}

broadcast proof fn repeats_operation_added(
    n: Run,
    later: Run,
    m: Map<u32, Tensor>,
    graph: GraphInfo,
    op: Operation,
    promoted: Set<u32>,
)
    requires
        #[trigger] later.repeats(n),
    ensures
        same_end(
            #[trigger] operation_added(later, m, graph, op, promoted),
            #[trigger] operation_added(n, m, graph, op, promoted),
        ),
{
    broadcast use {
        group_grows, group_repeats, grows_elementwise_op, grows_activation_op, grows_elu_op,
        grows_leaky_relu_op, grows_prelu_op, grows_hard_sigmoid_op, grows_hard_swish_op,
        grows_unary_op, grows_identity_op, grows_cast_op, grows_quantize_linear_op,
        grows_dequantize_linear_op, grows_matmul_op, grows_gemm_op, grows_conv2d_op,
        grows_conv_transpose2d_op, grows_pooling_op, grows_global_pooling_op,
        grows_batch_normalization_op, grows_instance_normalization_op,
        grows_layer_normalization_op, grows_reduce_op, grows_reduce_l1_op, grows_reduce_l2_op,
        grows_reduce_log_sum_op, grows_reduce_log_sum_exp_op, grows_reduce_sum_square_op,
        grows_slice_op, grows_split_op, grows_squeeze_op, grows_unsqueeze_op, grows_expand_op,
        grows_tile_op, grows_comparison_op, grows_greater_or_equal_op, grows_lesser_or_equal_op,
        grows_not_equal_op, grows_logical_binary_op, grows_logical_not_op, grows_gather_op,
        grows_gather_nd_op, grows_scatter_elements_op, grows_scatter_nd_op, grows_arg_max_op,
        grows_arg_min_op, grows_clamp_op, grows_where_op, grows_linear_op, grows_pad_op,
        grows_softmax_op, grows_concat_op, grows_is_nan_op, grows_is_infinite_op,
        grows_round_even_op, grows_gather_elements_op, grows_l2_pool2d_op, grows_reverse_op,
        grows_cumulative_sum_op, grows_triangular_op, grows_transpose_op, grows_reshape_op,
        grows_resample2d_op, repeats_elementwise_op, repeats_activation_op, repeats_elu_op,
        repeats_leaky_relu_op, repeats_prelu_op, repeats_hard_sigmoid_op, repeats_hard_swish_op,
        repeats_unary_op, repeats_identity_op, repeats_cast_op, repeats_quantize_linear_op,
        repeats_dequantize_linear_op, repeats_matmul_op, repeats_gemm_op, repeats_conv2d_op,
        repeats_conv_transpose2d_op, repeats_pooling_op, repeats_global_pooling_op,
        repeats_batch_normalization_op, repeats_instance_normalization_op,
        repeats_layer_normalization_op, repeats_reduce_op, repeats_reduce_l1_op,
        repeats_reduce_l2_op, repeats_reduce_log_sum_op, repeats_reduce_log_sum_exp_op,
        repeats_reduce_sum_square_op, repeats_slice_op, repeats_split_op, repeats_squeeze_op,
        repeats_unsqueeze_op, repeats_expand_op, repeats_tile_op, repeats_comparison_op,
        repeats_greater_or_equal_op, repeats_lesser_or_equal_op, repeats_not_equal_op,
        repeats_logical_binary_op, repeats_logical_not_op, repeats_gather_op,
        repeats_gather_nd_op, repeats_scatter_elements_op, repeats_scatter_nd_op,
        repeats_arg_max_op, repeats_arg_min_op, repeats_clamp_op, repeats_where_op,
        repeats_linear_op, repeats_pad_op, repeats_softmax_op, repeats_concat_op,
        repeats_is_nan_op, repeats_is_infinite_op, repeats_round_even_op,
        repeats_gather_elements_op, repeats_l2_pool2d_op, repeats_reverse_op,
        repeats_cumulative_sum_op, repeats_triangular_op, repeats_transpose_op,
        repeats_reshape_op, repeats_resample2d_op,
    };

    reveal(operation_added);
}

broadcast proof fn repeats_input_added(
    n: Run,
    later: Run,
    m: Map<u32, Tensor>,
    graph: GraphInfo,
    k: nat,
)
    requires
        #[trigger] later.repeats(n),
    ensures
        same_end(
            #[trigger] input_added(later, m, graph, k),
            #[trigger] input_added(n, m, graph, k),
        ),
{
    broadcast use {group_grows, group_repeats};

}

broadcast proof fn repeats_constant_added(
    n: Run,
    later: Run,
    m: Map<u32, Tensor>,
    graph: GraphInfo,
    k: nat,
)
    requires
        #[trigger] later.repeats(n),
    ensures
        same_end(
            #[trigger] constant_added(later, m, graph, k),
            #[trigger] constant_added(n, m, graph, k),
        ),
{
    broadcast use {group_grows, group_repeats, grows_step_output, repeats_step_output};

}

broadcast proof fn repeats_output_marked(
    n: Run,
    later: Run,
    m: Map<u32, Tensor>,
    graph: GraphInfo,
    k: nat,
)
    requires
        #[trigger] later.repeats(n),
    ensures
        same_end(
            #[trigger] output_marked(later, m, graph, k),
            #[trigger] output_marked(n, m, graph, k),
        ),
{
    broadcast use {group_grows, group_repeats};

}

broadcast proof fn repeats_stage_done(
    n: Run,
    later: Run,
    m: Map<u32, Tensor>,
    graph: GraphInfo,
    stage: Stage,
)
    requires
        #[trigger] later.repeats(n),
    ensures
        same_end(
            #[trigger] stage_done(later, m, graph, stage),
            #[trigger] stage_done(n, m, graph, stage),
        ),
{
    broadcast use {
        group_grows, group_repeats, grows_input_added, grows_constant_added,
        grows_operation_added, grows_output_marked, repeats_input_added, repeats_constant_added,
        repeats_operation_added, repeats_output_marked,
    };

}

broadcast proof fn repeats_built_from(
    n: Run,
    later: Run,
    m: Map<u32, Tensor>,
    graph: GraphInfo,
    stage: Stage,
)
    requires
        #[trigger] later.repeats(n),
    ensures
        same_end(
            #[trigger] built_from(later, m, graph, stage),
            #[trigger] built_from(n, m, graph, stage),
        ),
    decreases steps_left(graph, stage),
{
    broadcast use {
        group_grows, group_repeats, grows_stage_done, repeats_stage_done, grows_built_from,
    };

    if stage != Stage::Complete {
        let (after, tensors) = stage_done(n, m, graph, stage);
        let (after_later, tensors_later) = stage_done(later, m, graph, stage);
        let next = next_stage(graph, stage);
        repeats_built_from(after, after_later, tensors, graph, next);
        grows_built_from(after, tensors, graph, next);
        grows_built_from(after_later, tensors_later, graph, next);
    }
}

broadcast proof fn repeats_network_built(n: Run, later: Run, graph: GraphInfo)
    requires
        #[trigger] later.repeats(n),
    ensures
        same_end(#[trigger] network_built(later, graph), #[trigger] network_built(n, graph)),
{
    broadcast use {group_grows, group_repeats, grows_built_from, repeats_built_from};

}

/// A conversion that is started over with more replies makes the same requests again. Where it
/// had not come to wait for a reply, it ends as before.
pub proof fn conversion_repeats(n: Run, later: Run, graph: GraphInfo)
    requires
        later.repeats(n),
    ensures
        same_end(network_built(later, graph), network_built(n, graph)),
{
    broadcast use repeats_network_built;

}

/// A step that is taken again with more replies makes the same requests again. Where it had not
/// come to wait for a reply, it ends as before.
pub proof fn stage_repeats(
    n: Run,
    later: Run,
    m: Map<u32, Tensor>,
    graph: GraphInfo,
    stage: Stage,
)
    requires
        later.repeats(n),
    ensures
        same_end(stage_done(later, m, graph, stage), stage_done(n, m, graph, stage)),
{
    broadcast use repeats_stage_done;

}

} // verus!
