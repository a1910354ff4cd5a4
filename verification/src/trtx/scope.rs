//! A conversion names nothing that it has not been given: each request speaks only of layers and
//! tensors that answered earlier requests.

use crate::data_type::DataType;
use crate::graph::GraphInfo;
use crate::operator_options::FloatReading;
use crate::operators::Operation;
use crate::scalar::{Known, Scalar};
use crate::trtx::arrange::{
    concat_op, expand_op, found_inputs, resample2d_op, resample_sizes, resampled, reshape_op,
    reverse_op, scaled_extent, slice_op, split_op, split_part, split_parts, squeeze_op, tile_axes,
    tile_axis, tile_op, transpose_op, unsqueeze_op,
};
use crate::trtx::broadcast::{
    broadcast_pair, broadcast_to, int32_to_float32, scalar_shape, static_sizes, to_bool,
    to_float16, to_float32,
};
use crate::trtx::conv::{
    adjusted, check_bias, conv2d_op, conv_filter, conv_parameters, conv_result, conv_source,
    conv_transpose2d_op, conv_weights, convolved, deconvolved, fitted, ConvPlan, FilterPlan,
};
use crate::trtx::elementwise::{
    activation_op, binary_inputs, comparison_op, elementwise_op, elu_op, greater_or_equal_op,
    hard_sigmoid_op, hard_swish_op, identity_op, is_infinite_op, is_nan_op, leaky_relu_op,
    lesser_or_equal_op, linear_op, logical_binary_op, not_equal_op, prelu_op, promoted,
    round_even_op, unary_op,
};
use crate::trtx::growth::{
    group_grows, grows_activation_op, grows_adjusted, grows_aligned, grows_arg_max_op,
    grows_arg_min_op, grows_arg_reduced, grows_average_pool_dilated, grows_batch_normalization_op,
    grows_binary_inputs, grows_block_axes, grows_block_axis, grows_block_part, grows_block_parts,
    grows_broadcast_pair, grows_broadcast_to, grows_built_from, grows_byte_values,
    grows_bytes_to_float, grows_cast_op, grows_cell, grows_cells, grows_channel_stats,
    grows_channels_last, grows_channels_second, grows_check_bias, grows_clamp_op,
    grows_clamped_to, grows_combine, grows_combined, grows_comparison_op, grows_concat_op,
    grows_constant_added, grows_conv2d_op, grows_conv_filter, grows_conv_parameters,
    grows_conv_result, grows_conv_source, grows_conv_transpose2d_op, grows_conv_weights,
    grows_convolved, grows_cumulative_sum_op, grows_deconvolved, grows_dequantize_linear_op,
    grows_dequantize_zero, grows_dilated_extents, grows_dilated_pool, grows_dilated_result,
    grows_elements, grows_elementwise_op, grows_elu_op, grows_expand_op, grows_extreme_positions,
    grows_filled, grows_filler, grows_fitted, grows_floats_to_int32, grows_found_inputs,
    grows_gather_elements_indices, grows_gather_elements_op, grows_gather_indices,
    grows_gather_nd_indices, grows_gather_nd_op, grows_gather_op, grows_gemm_op,
    grows_global_pooling_op, grows_greater_or_equal_op, grows_grid_row, grows_grid_rows,
    grows_guarded_variance, grows_hard_sigmoid_op, grows_hard_swish_op, grows_identity_op,
    grows_in_type, grows_input_added, grows_instance_normalization_op, grows_instance_normalized,
    grows_int32_to_float32, grows_is_infinite_op, grows_is_nan_op, grows_is_scalar, grows_joined,
    grows_l2_pool2d_op, grows_l2_pool_dilated, grows_layer_bias, grows_layer_norm_of_scalar,
    grows_layer_norm_over_nothing, grows_layer_normalization_op, grows_layer_normalized,
    grows_layer_parameter, grows_leaky_relu_op, grows_lesser_or_equal_op, grows_linear_op,
    grows_logical_binary_op, grows_logical_not_op, grows_mask, grows_matmul_op,
    grows_max_pool_dilated, grows_not_equal_op, grows_operation_added, grows_output_marked,
    grows_outside_constant, grows_over_axes, grows_pad_axes, grows_pad_axis,
    grows_pad_axis_constant, grows_pad_axis_edge, grows_pad_axis_reflect, grows_pad_last_axes,
    grows_pad_op, grows_pool_settings, grows_pool_window, grows_pooled_dilated, grows_pooling_op,
    grows_prelu_op, grows_prepended, grows_promoted, grows_quantize_linear_op,
    grows_quantize_zero, grows_quantized, grows_raised, grows_reduce_l1_op, grows_reduce_l2_op,
    grows_reduce_log_sum_exp_op, grows_reduce_log_sum_op, grows_reduce_op,
    grows_reduce_sum_square_op, grows_resample2d_op, grows_resample_sizes, grows_resampled,
    grows_reshape_op, grows_reverse_op, grows_round_even_op, grows_rounds_up, grows_scalar_shape,
    grows_scaled, grows_scaled_extent, grows_scatter_elements_op, grows_scatter_nd_op, grows_slab,
    grows_slabs, grows_slice_op, grows_softmax_op, grows_split_op, grows_split_part,
    grows_split_parts, grows_squeeze_op, grows_stage_done, grows_static_sizes,
    grows_step_activation, grows_step_add_constant, grows_step_add_owned_constant,
    grows_step_cast, grows_step_concat, grows_step_constant, grows_step_dequantize,
    grows_step_elementwise, grows_step_identity, grows_step_layer, grows_step_matrix_multiply,
    grows_step_named_layer, grows_step_output, grows_step_padding, grows_step_reduce,
    grows_step_reshape, grows_step_resize, grows_step_select, grows_step_slice,
    grows_step_transpose, grows_step_unary, grows_stopped, grows_summed, grows_summed_squares,
    grows_tap, grows_taps, grows_tile_axes, grows_tile_axis, grows_tile_op, grows_to_bool,
    grows_to_float16, grows_to_float32, grows_transpose_op, grows_triangular_op,
    grows_truth_constant, grows_unary_op, grows_unsigned_reading, grows_unsqueeze_op,
    grows_where_op, grows_with_axis,
};
use crate::trtx::matrix::{gemm_op, matmul_op, raised, scaled, summed};
use crate::trtx::meaning::all_known;
use crate::trtx::network::{
    begun, built_from, constant_added, input_added, network_built, next_stage, operation_added,
    output_marked, stage_done, steps_left, Stage,
};
use crate::trtx::normalization::{
    batch_normalization_op, channel_stats, filled, guarded_variance, instance_normalization_op,
    instance_normalized, layer_bias, layer_norm_of_scalar, layer_norm_over_nothing,
    layer_normalization_op, layer_normalized, layer_parameter,
};
use crate::trtx::pad::{
    filler, pad_axes, pad_axis, pad_axis_constant, pad_axis_edge, pad_axis_reflect, pad_last_axes,
    pad_op, slab, slabs, PadMode,
};
use crate::trtx::pool::{
    average_pool_dilated, cell, cells, channels_last, channels_second, combine, combined,
    dilated_extents, dilated_pool, dilated_result, global_pooling_op, grid_row, grid_rows, joined,
    l2_pool2d_op, l2_pool_dilated, max_pool_dilated, outside_constant, pool_settings, pool_window,
    pooled_dilated, pooling_op, rounds_up, summed_squares, tap, taps, Dilated, Grid, PoolPlan,
};
use crate::trtx::quantize::{
    aligned, block_axes, block_axis, block_part, block_parts, byte_values, bytes_to_float,
    cast_op, clamped_to, dequantize_linear_op, dequantize_zero, floats_to_int32, in_type,
    is_scalar, logical_not_op, prepended, quantize_linear_op, quantize_zero, quantized,
    truth_constant, unsigned_reading, with_axis,
};
use crate::trtx::reduce::{
    over_axes, reduce_l1_op, reduce_l2_op, reduce_log_sum_exp_op, reduce_log_sum_op, reduce_op,
    reduce_sum_square_op,
};
use crate::trtx::select::{
    arg_max_op, arg_min_op, arg_reduced, clamp_op, cumulative_sum_op, extreme_positions,
    gather_elements_indices, gather_elements_op, gather_indices, gather_nd_indices, gather_nd_op,
    gather_op, scatter_elements_op, scatter_nd_op, softmax_op, triangular_op, where_op,
};
use crate::trtx::session::{HaltView, ReplyView, RequestOf, RequestView, Run};
use crate::trtx::shapes::{elements, mask};
use crate::trtx::types::{
    ActivationType, ElementWiseOperation, Layer, MatrixOperation, PoolingType, ReduceOperation,
    ResizeMode, Tensor, TopKOperation, TrtDataType, UnaryOperation,
};
use vstd::prelude::*;

verus! {

/// Whether the answer to a request is a layer.
pub open spec fn gives_layer(request: RequestView) -> bool {
    ||| request is AddConstant
    ||| request is AddIdentity
    ||| request is AddCast
    ||| request is AddElementwise
    ||| request is AddActivation
    ||| request is AddUnary
    ||| request is AddParametricRelu
    ||| request is AddShuffle
    ||| request is AddResize
    ||| request is AddReduce
    ||| request is AddSlice
    ||| request is AddConcatenation
    ||| request is AddMatrixMultiply
    ||| request is AddPooling
    ||| request is AddConvolution
    ||| request is AddDeconvolution
    ||| request is AddPadding
    ||| request is AddQuantize
    ||| request is AddDequantize
    ||| request is AddGather
    ||| request is AddScatter
    ||| request is AddTopK
    ||| request is AddSelect
    ||| request is AddSoftmax
    ||| request is AddCumulative
}

/// Whether the answer to a request is a tensor.
pub open spec fn gives_tensor(request: RequestView) -> bool {
    request is AddInput || request is Output
}

impl Run {
    /// Whether a tensor answered a request, unless the conversation has stopped.
    #[verifier::opaque]
    pub open spec fn sees(self, t: Tensor) -> bool {
        self.goes_on() ==> t.id < self.requests.len() && gives_tensor(self.requests[t.id as int])
    }

    /// Whether a layer answered a request, unless the conversation has stopped.
    #[verifier::opaque]
    pub open spec fn sees_layer(self, l: Layer) -> bool {
        self.goes_on() ==> l.id < self.requests.len() && gives_layer(self.requests[l.id as int])
    }

    /// Whether all tensors of a list answered requests, unless the conversation has stopped.
    pub open spec fn sees_all(self, list: Seq<Tensor>) -> bool {
        forall|i: int| 0 <= i < list.len() ==> self.sees(#[trigger] list[i])
    }

    /// Whether a tensor, if there is one, answered a request, unless the conversation has stopped.
    pub open spec fn sees_any(self, t: Option<Tensor>) -> bool {
        t is Some ==> self.sees(t->0)
    }

    /// Whether all tensors of a map answered requests, unless the conversation has stopped.
    pub open spec fn sees_map(self, m: Map<u32, Tensor>) -> bool {
        forall|id: u32| #[trigger] m.contains_key(id) ==> self.sees(m[id])
    }

    /// Whether the tensor and the layer of a grid answered requests and its windows are not empty,
    /// unless the conversation has stopped.
    pub open spec fn sees_grid(self, g: Grid) -> bool {
        &&& self.sees(g.x)
        &&& self.sees_layer(Layer { id: g.outside })
        &&& self.halt is Some || (g.kernel.0 > 0 && g.kernel.1 > 0)
    }

    /// Whether a request speaks only of layers and tensors that answered requests.
    pub open spec fn can_ask(self, request: RequestView) -> bool {
        match request {
            RequestOf::AddIdentity { input } => self.sees(input),
            RequestOf::AddCast { input, .. } => self.sees(input),
            RequestOf::AddElementwise { a, b, .. } => self.sees(a) && self.sees(b),
            RequestOf::AddActivation { input, .. } => self.sees(input),
            RequestOf::AddUnary { input, .. } => self.sees(input),
            RequestOf::AddParametricRelu { input, slope } => self.sees(input) && self.sees(slope),
            RequestOf::AddShuffle { input } => self.sees(input),
            RequestOf::AddResize { input } => self.sees(input),
            RequestOf::AddReduce { input, .. } => self.sees(input),
            RequestOf::AddSlice { input, .. } => self.sees(input),
            RequestOf::AddConcatenation { inputs } => self.sees_all(inputs),
            RequestOf::AddMatrixMultiply { a, b, .. } => self.sees(a) && self.sees(b),
            RequestOf::AddPooling { input, .. } => self.sees(input),
            RequestOf::AddConvolution { input, .. } => self.sees(input),
            RequestOf::AddDeconvolution { input, .. } => self.sees(input),
            RequestOf::AddPadding { input, .. } => self.sees(input),
            RequestOf::AddQuantize { input, scale, .. } => self.sees(input) && self.sees(scale),
            RequestOf::AddDequantize { input, scale, .. } => self.sees(input) && self.sees(scale),
            RequestOf::AddGather { data, indices, .. } => self.sees(data) && self.sees(indices),
            RequestOf::AddScatter { data, indices, updates, .. } => {
                &&& self.sees(data)
                &&& self.sees(indices)
                &&& self.sees(updates)
            },
            RequestOf::AddTopK { input, .. } => self.sees(input),
            RequestOf::AddSelect { condition, on_true, on_false } => {
                &&& self.sees(condition)
                &&& self.sees(on_true)
                &&& self.sees(on_false)
            },
            RequestOf::AddSoftmax { input, .. } => self.sees(input),
            RequestOf::AddCumulative { input, axis, .. } => self.sees(input) && self.sees(axis),
            RequestOf::Output { layer, .. } => self.sees_layer(layer),
            RequestOf::SetFirstTranspose { layer, .. } => self.sees_layer(layer),
            RequestOf::SetReshapeDimensions { layer, .. } => self.sees_layer(layer),
            RequestOf::SetOutputDimensions { layer, .. } => self.sees_layer(layer),
            RequestOf::SetResizeMode { layer, .. } => self.sees_layer(layer),
            RequestOf::SetCoordinateTransformation { layer, .. } => self.sees_layer(layer),
            RequestOf::SetNearestRounding { layer, .. } => self.sees_layer(layer),
            RequestOf::SetAxis { layer, .. } => self.sees_layer(layer),
            RequestOf::SetGatherMode { layer, .. } => self.sees_layer(layer),
            RequestOf::SetInput { layer, tensor, .. } => {
                &&& self.sees_layer(layer)
                &&& self.sees(tensor)
            },
            RequestOf::SetStride { layer, .. } => self.sees_layer(layer),
            RequestOf::SetPadding { layer, .. } => self.sees_layer(layer),
            RequestOf::SetPrePadding { layer, .. } => self.sees_layer(layer),
            RequestOf::SetPostPadding { layer, .. } => self.sees_layer(layer),
            RequestOf::SetPaddingMode { layer, .. } => self.sees_layer(layer),
            RequestOf::SetDilation { layer, .. } => self.sees_layer(layer),
            RequestOf::SetNumGroups { layer, .. } => self.sees_layer(layer),
            RequestOf::SetAverageCountExcludesPadding { layer, .. } => self.sees_layer(layer),
            RequestOf::SetLayerName { layer, .. } => self.sees_layer(layer),
            RequestOf::SetTensorName { tensor, .. } => self.sees(tensor),
            RequestOf::MarkOutput { tensor } => self.sees(tensor),
            _ => true,
        }
    }

    /// The conversation before the request at `i` was made.
    pub open spec fn before(self, i: int) -> Run {
        Run { requests: self.requests.take(i), replies: self.replies, halt: None }
    }

    /// Whether each request speaks only of layers and tensors that answered earlier ones, as far as
    /// positions can number them.
    #[verifier::opaque]
    pub open spec fn scoped(self) -> bool {
        forall|i: int|
            0 <= i < self.requests.len() && i <= usize::MAX ==> self.before(i).can_ask(
                #[trigger] self.requests[i],
            )
    }
}

broadcast proof fn sees_on(n: Run, after: Run, t: Tensor)
    requires
        #[trigger] after.grows(n),
        n.sees(t),
    ensures
        #[trigger] after.sees(t),
{
    reveal(Run::grows);
    reveal(Run::sees);
    if after.goes_on() {
        assert(after.requests.take(n.requests.len() as int)[t.id as int] == after.requests[t.id as int]);
    }
}

broadcast proof fn sees_layer_on(n: Run, after: Run, l: Layer)
    requires
        #[trigger] after.grows(n),
        n.sees_layer(l),
    ensures
        #[trigger] after.sees_layer(l),
{
    reveal(Run::grows);
    reveal(Run::sees_layer);
    if after.goes_on() {
        assert(after.requests.take(n.requests.len() as int)[l.id as int] == after.requests[l.id as int]);
    }
}

broadcast proof fn sees_grid_on(n: Run, after: Run, g: Grid)
    requires
        #[trigger] after.grows(n),
        n.sees_grid(g),
    ensures
        #[trigger] after.sees_grid(g),
{
    broadcast use {sees_on, sees_layer_on, grows_stopped};

}

broadcast proof fn sees_stopped(n: Run, t: Tensor)
    requires
        n.halt is Some,
    ensures
        #[trigger] n.sees(t),
{
    reveal(Run::sees);
}

broadcast proof fn sees_layer_stopped(n: Run, l: Layer)
    requires
        n.halt is Some,
    ensures
        #[trigger] n.sees_layer(l),
{
    reveal(Run::sees_layer);
}

/// One more request is as good as those before it.
proof fn scoped_push(n: Run, request: RequestView, after: Run)
    requires
        n.scoped(),
        n.halt is None,
        n.can_ask(request),
        after.requests == n.requests.push(request),
        after.replies == n.replies,
    ensures
        after.scoped(),
{
    reveal(Run::scoped);
    assert forall|i: int|
        0 <= i < after.requests.len() && i <= usize::MAX implies after.before(i).can_ask(
        #[trigger] after.requests[i],
    ) by {
        if i < n.requests.len() {
            assert(after.requests.take(i) =~= n.requests.take(i));
            assert(n.before(i).can_ask(n.requests[i]));
        } else {
            assert(after.requests.take(i) =~= n.requests);
            assert(after.before(i) == n);
        }
    }
}

broadcast proof fn scoped_ask(n: Run, request: RequestView, label: Seq<char>)
    requires
        n.scoped(),
        n.can_ask(request),
    ensures
        ({
            let (after, at) = #[trigger] n.ask(request, label);
            &&& after.scoped()
            &&& gives_layer(request) ==> after.sees_layer(Layer { id: at })
            &&& gives_tensor(request) ==> after.sees(Tensor { id: at })
        }),
{
    reveal(Run::ask);
    reveal(Run::sees);
    reveal(Run::sees_layer);
    let (after, at) = n.ask(request, label);
    if n.halt is None {
        scoped_push(n, request, after);
    }
}

broadcast proof fn scoped_infer(n: Run, request: RequestView)
    requires
        n.scoped(),
        n.can_ask(request),
    ensures
        (#[trigger] n.infer(request)).0.scoped(),
{
    reveal(Run::infer);
    let (after, _) = n.infer(request);
    if n.halt is None {
        scoped_push(n, request, after);
    }
}

broadcast proof fn scoped_tell(n: Run, request: RequestView)
    requires
        n.scoped(),
        n.can_ask(request),
    ensures
        (#[trigger] n.tell(request)).scoped(),
{
    reveal(Run::tell);
    let after = n.tell(request);
    if n.halt is None {
        scoped_push(n, request, after);
    }
}

broadcast proof fn scoped_stop(n: Run, why: HaltView)
    requires
        n.scoped(),
    ensures
        (#[trigger] n.stop(why)).scoped(),
{
    reveal(Run::scoped);
    let after = n.stop(why);
    assert forall|i: int|
        0 <= i < after.requests.len() && i <= usize::MAX implies after.before(i).can_ask(
        #[trigger] after.requests[i],
    ) by {
        assert(after.before(i) == n.before(i));
        assert(n.before(i).can_ask(n.requests[i]));
    }
}

broadcast proof fn scoped_dims(n: Run, tensor: Tensor, label: Seq<char>)
    requires
        n.scoped(),
    ensures
        (#[trigger] n.dims(tensor, label)).0.scoped(),
{
    broadcast use scoped_stop;

    reveal(Run::dims);
}

broadcast group group_scope {
    sees_on,
    sees_layer_on,
    sees_grid_on,
    grows_stopped,
    sees_stopped,
    sees_layer_stopped,
    scoped_ask,
    scoped_infer,
    scoped_tell,
    scoped_stop,
    scoped_dims,
}

proof fn taps_len(n: Run, g: Grid, row: nat, col: nat, k: nat)
    ensures
        taps(n, g, row, col, k).1.len() == k,
    decreases k,
{
    if k > 0 {
        taps_len(n, g, row, col, (k - 1) as nat);
    }
}

broadcast proof fn scoped_step_output(n: Run, layer: usize, label: Seq<char>)
    requires
        n.scoped(),
        n.sees_layer(Layer { id: layer }),
    ensures
        ({
            let (after, t) = #[trigger] n.output(layer, label);
            after.scoped() && after.sees(t)
        }),
{
    broadcast use {group_grows, group_scope};

    reveal(Run::output);
}

broadcast proof fn scoped_step_layer(
    n: Run,
    request: RequestView,
    add_label: Seq<char>,
    output_label: Seq<char>,
)
    requires
        n.scoped(),
        n.can_ask(request),
        gives_layer(request),
    ensures
        ({
            let (after, t) = #[trigger] n.layer(request, add_label, output_label);
            after.scoped() && after.sees(t)
        }),
{
    broadcast use {group_grows, group_scope, grows_step_output, scoped_step_output};

    reveal(Run::layer);
}

broadcast proof fn scoped_step_identity(
    n: Run,
    input: Tensor,
    add_label: Seq<char>,
    output_label: Seq<char>,
)
    requires
        n.scoped(),
        n.sees(input),
    ensures
        ({
            let (after, t) = #[trigger] n.identity(input, add_label, output_label);
            after.scoped() && after.sees(t)
        }),
{
    broadcast use {group_grows, group_scope, grows_step_layer, scoped_step_layer};

    reveal(Run::identity);
}

broadcast proof fn scoped_step_slice(
    n: Run,
    input: Tensor,
    start: Seq<i64>,
    size: Seq<i64>,
    stride: Seq<i64>,
    add_label: Seq<char>,
    output_label: Seq<char>,
)
    requires
        n.scoped(),
        n.sees(input),
    ensures
        ({
            let (after, t) = #[trigger] n.slice(
                input, start, size, stride, add_label, output_label,
            );
            after.scoped() && after.sees(t)
        }),
{
    broadcast use {group_grows, group_scope, grows_step_layer, scoped_step_layer};

    reveal(Run::slice);
}

broadcast proof fn scoped_slice_op(n: Run, m: Map<u32, Tensor>, op: Operation)
    requires
        n.scoped(),
        n.sees_map(m),
    ensures
        ({
            let (after, tensors) = #[trigger] slice_op(n, m, op);
            after.scoped() && after.sees_map(tensors)
        }),
{
    broadcast use {
        group_grows, group_scope, grows_step_identity, grows_step_slice, scoped_step_identity,
        scoped_step_slice,
    };

}

broadcast proof fn scoped_split_part(
    n: Run,
    m: Map<u32, Tensor>,
    op: Operation,
    d: Seq<i64>,
    axis: nat,
    sizes: Seq<i32>,
    k: nat,
)
    requires
        n.scoped(),
        n.sees_map(m),
    ensures
        ({
            let (after, tensors) = #[trigger] split_part(n, m, op, d, axis, sizes, k);
            after.scoped() && after.sees_map(tensors)
        }),
{
    broadcast use {group_grows, group_scope, grows_step_slice, scoped_step_slice};

}

broadcast proof fn scoped_split_parts(
    n: Run,
    m: Map<u32, Tensor>,
    op: Operation,
    d: Seq<i64>,
    axis: nat,
    sizes: Seq<i32>,
    k: nat,
)
    requires
        n.scoped(),
        n.sees_map(m),
    ensures
        ({
            let (after, tensors) = #[trigger] split_parts(n, m, op, d, axis, sizes, k);
            after.scoped() && after.sees_map(tensors)
        }),
    decreases k,
{
    broadcast use {
        group_grows, group_scope, grows_split_part, scoped_split_part, grows_split_parts,
    };

    if k > 0 {
        scoped_split_parts(n, m, op, d, axis, sizes, (k - 1) as nat);
    }
}

broadcast proof fn scoped_split_op(n: Run, m: Map<u32, Tensor>, op: Operation)
    requires
        n.scoped(),
        n.sees_map(m),
    ensures
        ({
            let (after, tensors) = #[trigger] split_op(n, m, op);
            after.scoped() && after.sees_map(tensors)
        }),
{
    broadcast use {group_grows, group_scope, grows_split_parts, scoped_split_parts};

}

broadcast proof fn scoped_step_reshape(
    n: Run,
    input: Tensor,
    dims: Seq<i64>,
    add_label: Seq<char>,
    set_label: Seq<char>,
    output_label: Seq<char>,
)
    requires
        n.scoped(),
        n.sees(input),
    ensures
        ({
            let (after, t) = #[trigger] n.reshape(input, dims, add_label, set_label, output_label);
            after.scoped() && after.sees(t)
        }),
{
    broadcast use {group_grows, group_scope, grows_step_output, scoped_step_output};

    reveal(Run::reshape);
}

broadcast proof fn scoped_squeeze_op(n: Run, m: Map<u32, Tensor>, op: Operation)
    requires
        n.scoped(),
        n.sees_map(m),
    ensures
        ({
            let (after, tensors) = #[trigger] squeeze_op(n, m, op);
            after.scoped() && after.sees_map(tensors)
        }),
{
    broadcast use {group_grows, group_scope, grows_step_reshape, scoped_step_reshape};

}

broadcast proof fn scoped_unsqueeze_op(n: Run, m: Map<u32, Tensor>, op: Operation)
    requires
        n.scoped(),
        n.sees_map(m),
    ensures
        ({
            let (after, tensors) = #[trigger] unsqueeze_op(n, m, op);
            after.scoped() && after.sees_map(tensors)
        }),
{
    broadcast use {group_grows, group_scope, grows_step_reshape, scoped_step_reshape};

}

broadcast proof fn scoped_elements(n: Run, dims: Seq<i64>)
    requires
        n.scoped(),
    ensures
        (#[trigger] elements(n, dims)).0.scoped(),
{
    broadcast use {group_grows, group_scope};

}

broadcast proof fn scoped_step_add_constant(
    n: Run,
    dims: Seq<i64>,
    bytes: Seq<u8>,
    dtype: TrtDataType,
    label: Seq<char>,
)
    requires
        n.scoped(),
    ensures
        ({
            let (after, l) = #[trigger] n.add_constant(dims, bytes, dtype, label);
            after.scoped() && after.sees_layer(Layer { id: l })
        }),
{
    broadcast use {group_grows, group_scope};

    reveal(Run::add_constant);
}

broadcast proof fn scoped_step_constant(
    n: Run,
    dims: Seq<i64>,
    bytes: Seq<u8>,
    dtype: TrtDataType,
    add_label: Seq<char>,
    output_label: Seq<char>,
)
    requires
        n.scoped(),
    ensures
        ({
            let (after, t) = #[trigger] n.constant(dims, bytes, dtype, add_label, output_label);
            after.scoped() && after.sees(t)
        }),
{
    broadcast use {
        group_grows, group_scope, grows_step_add_constant, grows_step_output,
        scoped_step_add_constant, scoped_step_output,
    };

    reveal(Run::constant);
}

broadcast proof fn scoped_step_resize(
    n: Run,
    input: Tensor,
    dims: Seq<i64>,
    add_label: Seq<char>,
    output_label: Seq<char>,
)
    requires
        n.scoped(),
        n.sees(input),
    ensures
        ({
            let (after, t) = #[trigger] n.resize(input, dims, add_label, output_label);
            after.scoped() && after.sees(t)
        }),
{
    broadcast use {group_grows, group_scope, grows_step_output, scoped_step_output};

    reveal(Run::resize);
}

broadcast proof fn scoped_broadcast_pair(n: Run, t0: Tensor, t1: Tensor, op_name: Seq<char>)
    requires
        n.scoped(),
        n.sees(t0),
        n.sees(t1),
    ensures
        ({
            let (after, (a, b)) = #[trigger] broadcast_pair(n, t0, t1, op_name);
            after.scoped() && after.sees(a) && after.sees(b)
        }),
{
    broadcast use {
        group_grows, group_scope, grows_step_resize, grows_step_identity, grows_step_reshape,
        scoped_step_resize, scoped_step_identity, scoped_step_reshape,
    };

    reveal(broadcast_pair);
}

broadcast proof fn scoped_step_elementwise(
    n: Run,
    a: Tensor,
    b: Tensor,
    op: ElementWiseOperation,
    add_label: Seq<char>,
    output_label: Seq<char>,
)
    requires
        n.scoped(),
        n.sees(a),
        n.sees(b),
    ensures
        ({
            let (after, t) = #[trigger] n.elementwise(a, b, op, add_label, output_label);
            after.scoped() && after.sees(t)
        }),
{
    broadcast use {group_grows, group_scope, grows_step_layer, scoped_step_layer};

    reveal(Run::elementwise);
}

broadcast proof fn scoped_expand_op(n: Run, m: Map<u32, Tensor>, graph: GraphInfo, op: Operation)
    requires
        n.scoped(),
        n.sees_map(m),
    ensures
        ({
            let (after, tensors) = #[trigger] expand_op(n, m, graph, op);
            after.scoped() && after.sees_map(tensors)
        }),
{
    broadcast use {
        group_grows, group_scope, grows_elements, grows_step_constant, grows_broadcast_pair,
        grows_step_elementwise, scoped_elements, scoped_step_constant, scoped_broadcast_pair,
        scoped_step_elementwise,
    };

}

broadcast proof fn scoped_step_concat(
    n: Run,
    inputs: Seq<Tensor>,
    axis: i32,
    add_label: Seq<char>,
    output_label: Seq<char>,
)
    requires
        n.scoped(),
        n.sees_all(inputs),
    ensures
        ({
            let (after, t) = #[trigger] n.concat(inputs, axis, add_label, output_label);
            after.scoped() && after.sees(t)
        }),
{
    broadcast use {group_grows, group_scope, grows_step_output, scoped_step_output};

    reveal(Run::concat);
}

broadcast proof fn scoped_tile_axis(n: Run, t: Tensor, axis: nat, count: u32)
    requires
        n.scoped(),
        n.sees(t),
    ensures
        ({
            let (after, t) = #[trigger] tile_axis(n, t, axis, count);
            after.scoped() && after.sees(t)
        }),
{
    broadcast use {group_grows, group_scope, grows_step_concat, scoped_step_concat};

}

broadcast proof fn scoped_tile_axes(n: Run, x: Tensor, counts: Seq<u32>, k: nat)
    requires
        n.scoped(),
        n.sees(x),
    ensures
        ({
            let (after, t) = #[trigger] tile_axes(n, x, counts, k);
            after.scoped() && after.sees(t)
        }),
    decreases k,
{
    broadcast use {group_grows, group_scope, grows_tile_axis, scoped_tile_axis, grows_tile_axes};

    if k > 0 {
        scoped_tile_axes(n, x, counts, (k - 1) as nat);
    }
}

broadcast proof fn scoped_tile_op(n: Run, m: Map<u32, Tensor>, op: Operation)
    requires
        n.scoped(),
        n.sees_map(m),
    ensures
        ({
            let (after, tensors) = #[trigger] tile_op(n, m, op);
            after.scoped() && after.sees_map(tensors)
        }),
{
    broadcast use {
        group_grows, group_scope, grows_tile_axes, grows_step_identity, scoped_tile_axes,
        scoped_step_identity,
    };

}

broadcast proof fn scoped_found_inputs(n: Run, m: Map<u32, Tensor>, ids: Seq<u32>, k: nat)
    requires
        n.scoped(),
        n.sees_map(m),
    ensures
        ({
            let (after, list) = #[trigger] found_inputs(n, m, ids, k);
            after.scoped() && after.sees_all(list)
        }),
    decreases k,
{
    broadcast use {group_grows, group_scope, grows_found_inputs};

    if k > 0 {
        scoped_found_inputs(n, m, ids, (k - 1) as nat);
    }
}

broadcast proof fn scoped_concat_op(n: Run, m: Map<u32, Tensor>, op: Operation)
    requires
        n.scoped(),
        n.sees_map(m),
    ensures
        ({
            let (after, tensors) = #[trigger] concat_op(n, m, op);
            after.scoped() && after.sees_map(tensors)
        }),
{
    broadcast use {
        group_grows, group_scope, grows_found_inputs, grows_step_output, scoped_found_inputs,
        scoped_step_output,
    };

}

broadcast proof fn scoped_step_transpose(
    n: Run,
    input: Tensor,
    order: Seq<i32>,
    add_label: Seq<char>,
    set_label: Seq<char>,
    output_label: Seq<char>,
)
    requires
        n.scoped(),
        n.sees(input),
    ensures
        ({
            let (after, t) = #[trigger] n.transpose(
                input, order, add_label, set_label, output_label,
            );
            after.scoped() && after.sees(t)
        }),
{
    broadcast use {group_grows, group_scope, grows_step_output, scoped_step_output};

    reveal(Run::transpose);
}

broadcast proof fn scoped_transpose_op(n: Run, m: Map<u32, Tensor>, op: Operation)
    requires
        n.scoped(),
        n.sees_map(m),
    ensures
        ({
            let (after, tensors) = #[trigger] transpose_op(n, m, op);
            after.scoped() && after.sees_map(tensors)
        }),
{
    broadcast use {group_grows, group_scope, grows_step_transpose, scoped_step_transpose};

}

broadcast proof fn scoped_reshape_op(n: Run, m: Map<u32, Tensor>, op: Operation)
    requires
        n.scoped(),
        n.sees_map(m),
    ensures
        ({
            let (after, tensors) = #[trigger] reshape_op(n, m, op);
            after.scoped() && after.sees_map(tensors)
        }),
{
    broadcast use {group_grows, group_scope, grows_step_reshape, scoped_step_reshape};

}

broadcast proof fn scoped_scaled_extent(n: Run, extent: i64, scale: u32)
    requires
        n.scoped(),
    ensures
        (#[trigger] scaled_extent(n, extent, scale)).0.scoped(),
{
    broadcast use {group_grows, group_scope};

    reveal(scaled_extent);
}

broadcast proof fn scoped_resample_sizes(n: Run, op: Operation, extents: (i64, i64))
    requires
        n.scoped(),
    ensures
        (#[trigger] resample_sizes(n, op, extents)).0.scoped(),
{
    broadcast use {group_grows, group_scope, grows_scaled_extent, scoped_scaled_extent};

    reveal(resample_sizes);
}

broadcast proof fn scoped_resampled(n: Run, x: Tensor, dims: Seq<i64>, mode: ResizeMode)
    requires
        n.scoped(),
        n.sees(x),
    ensures
        ({
            let (after, t) = #[trigger] resampled(n, x, dims, mode);
            after.scoped() && after.sees(t)
        }),
{
    broadcast use {group_grows, group_scope, grows_step_output, scoped_step_output};

    reveal(resampled);
}

broadcast proof fn scoped_resample2d_op(
    n: Run,
    m: Map<u32, Tensor>,
    graph: GraphInfo,
    op: Operation,
)
    requires
        n.scoped(),
        n.sees_map(m),
    ensures
        ({
            let (after, tensors) = #[trigger] resample2d_op(n, m, graph, op);
            after.scoped() && after.sees_map(tensors)
        }),
{
    broadcast use {
        group_grows, group_scope, grows_resample_sizes, grows_resampled, scoped_resample_sizes,
        scoped_resampled,
    };

}

broadcast proof fn scoped_reverse_op(n: Run, m: Map<u32, Tensor>, graph: GraphInfo, op: Operation)
    requires
        n.scoped(),
        n.sees_map(m),
    ensures
        ({
            let (after, tensors) = #[trigger] reverse_op(n, m, graph, op);
            after.scoped() && after.sees_map(tensors)
        }),
{
    broadcast use {group_grows, group_scope, grows_step_slice, scoped_step_slice};

}

broadcast proof fn scoped_step_cast(
    n: Run,
    input: Tensor,
    dtype: TrtDataType,
    add_label: Seq<char>,
    output_label: Seq<char>,
)
    requires
        n.scoped(),
        n.sees(input),
    ensures
        ({
            let (after, t) = #[trigger] n.cast(input, dtype, add_label, output_label);
            after.scoped() && after.sees(t)
        }),
{
    broadcast use {group_grows, group_scope, grows_step_layer, scoped_step_layer};

    reveal(Run::cast);
}

broadcast proof fn scoped_to_bool(n: Run, input: Tensor)
    requires
        n.scoped(),
        n.sees(input),
    ensures
        ({
            let (after, t) = #[trigger] to_bool(n, input);
            after.scoped() && after.sees(t)
        }),
{
    broadcast use {group_grows, group_scope, grows_step_cast, scoped_step_cast};

}

broadcast proof fn scoped_to_float32(n: Run, input: Tensor)
    requires
        n.scoped(),
        n.sees(input),
    ensures
        ({
            let (after, t) = #[trigger] to_float32(n, input);
            after.scoped() && after.sees(t)
        }),
{
    broadcast use {group_grows, group_scope, grows_step_cast, scoped_step_cast};

}

broadcast proof fn scoped_int32_to_float32(n: Run, input: Tensor)
    requires
        n.scoped(),
        n.sees(input),
    ensures
        ({
            let (after, t) = #[trigger] int32_to_float32(n, input);
            after.scoped() && after.sees(t)
        }),
{
    broadcast use {group_grows, group_scope, grows_step_cast, scoped_step_cast};

}

broadcast proof fn scoped_to_float16(n: Run, input: Tensor)
    requires
        n.scoped(),
        n.sees(input),
    ensures
        ({
            let (after, t) = #[trigger] to_float16(n, input);
            after.scoped() && after.sees(t)
        }),
{
    broadcast use {group_grows, group_scope, grows_step_cast, scoped_step_cast};

}

broadcast proof fn scoped_scalar_shape(
    n: Run,
    input: Tensor,
    descriptor_rank: nat,
    label: Seq<char>,
)
    requires
        n.scoped(),
        n.sees(input),
    ensures
        (#[trigger] scalar_shape(n, input, descriptor_rank, label)).0.scoped(),
{
    broadcast use {group_grows, group_scope};

}

broadcast proof fn scoped_static_sizes(n: Run, graph: GraphInfo, id: u32)
    requires
        n.scoped(),
    ensures
        (#[trigger] static_sizes(n, graph, id)).0.scoped(),
{
    broadcast use {group_grows, group_scope};

}

broadcast proof fn scoped_broadcast_to(
    n: Run,
    t: Tensor,
    from: Seq<i64>,
    target: Seq<i64>,
    label: Seq<char>,
)
    requires
        n.scoped(),
        n.sees(t),
    ensures
        ({
            let (after, t) = #[trigger] broadcast_to(n, t, from, target, label);
            after.scoped() && after.sees(t)
        }),
{
    broadcast use {
        group_grows, group_scope, grows_step_identity, grows_step_reshape, grows_step_resize,
        scoped_step_identity, scoped_step_reshape, scoped_step_resize,
    };

    reveal(broadcast_to);
}

broadcast proof fn scoped_check_bias(n: Run, graph: GraphInfo, bias: Option<u32>, name: Seq<char>)
    requires
        n.scoped(),
    ensures
        (#[trigger] check_bias(n, graph, bias, name)).0.scoped(),
{
    broadcast use {group_grows, group_scope};

    reveal(check_bias);
}

broadcast proof fn scoped_conv_source(n: Run, x: Tensor, nhwc: bool, half: bool, name: Seq<char>)
    requires
        n.scoped(),
        n.sees(x),
    ensures
        ({
            let (after, t) = #[trigger] conv_source(n, x, nhwc, half, name);
            after.scoped() && after.sees(t)
        }),
{
    broadcast use {
        group_grows, group_scope, grows_step_transpose, grows_step_cast, scoped_step_transpose,
        scoped_step_cast,
    };

    reveal(conv_source);
}

broadcast proof fn scoped_conv_result(n: Run, x: Tensor, nhwc: bool, half: bool, name: Seq<char>)
    requires
        n.scoped(),
        n.sees(x),
    ensures
        ({
            let (after, t) = #[trigger] conv_result(n, x, nhwc, half, name);
            after.scoped() && after.sees(t)
        }),
{
    broadcast use {
        group_grows, group_scope, grows_step_cast, grows_step_transpose, scoped_step_cast,
        scoped_step_transpose,
    };

    reveal(conv_result);
}

broadcast proof fn scoped_conv_weights(
    n: Run,
    filter: Tensor,
    filter_half: bool,
    bias: Option<Tensor>,
    bias_half: bool,
    order: Option<Seq<i32>>,
    name: Seq<char>,
)
    requires
        n.scoped(),
        n.sees(filter),
        n.sees_any(bias),
    ensures
        ({
            let (after, (a, b)) = #[trigger] conv_weights(
                n, filter, filter_half, bias, bias_half, order, name,
            );
            after.scoped() && after.sees(a) && after.sees_any(b)
        }),
{
    broadcast use {
        group_grows, group_scope, grows_step_cast, grows_step_transpose, scoped_step_cast,
        scoped_step_transpose,
    };

    reveal(conv_weights);
}

broadcast proof fn scoped_conv_filter(
    n: Run,
    graph: GraphInfo,
    op: Operation,
    purpose: Seq<char>,
    name: Seq<char>,
)
    requires
        n.scoped(),
    ensures
        (#[trigger] conv_filter(n, graph, op, purpose, name)).0.scoped(),
{
    broadcast use {group_grows, group_scope, grows_check_bias, scoped_check_bias};

    reveal(conv_filter);
}

broadcast proof fn scoped_conv_parameters(
    n: Run,
    m: Map<u32, Tensor>,
    graph: GraphInfo,
    op: Operation,
    half: bool,
    name: Seq<char>,
)
    requires
        n.scoped(),
        n.sees_map(m),
    ensures
        ({
            let (after, (a, b)) = #[trigger] conv_parameters(n, m, graph, op, half, name);
            after.scoped() && after.sees(a) && after.sees_any(b)
        }),
{
    broadcast use {group_grows, group_scope, grows_conv_weights, scoped_conv_weights};

    reveal(conv_parameters);
}

broadcast proof fn scoped_convolved(
    n: Run,
    source: Tensor,
    f: Tensor,
    bias: Option<Tensor>,
    filter: FilterPlan,
    plan: ConvPlan,
)
    requires
        n.scoped(),
        n.sees(source),
        n.sees(f),
        n.sees_any(bias),
    ensures
        ({
            let (after, t) = #[trigger] convolved(n, source, f, bias, filter, plan);
            after.scoped() && after.sees(t)
        }),
{
    broadcast use {group_grows, group_scope, grows_step_output, scoped_step_output};

    reveal(convolved);
}

broadcast proof fn scoped_step_padding(
    n: Run,
    input: Tensor,
    pre: (i64, i64),
    post: (i64, i64),
    add_label: Seq<char>,
    output_label: Seq<char>,
)
    requires
        n.scoped(),
        n.sees(input),
    ensures
        ({
            let (after, t) = #[trigger] n.padding(input, pre, post, add_label, output_label);
            after.scoped() && after.sees(t)
        }),
{
    broadcast use {group_grows, group_scope, grows_step_layer, scoped_step_layer};

    reveal(Run::padding);
}

broadcast proof fn scoped_conv2d_op(n: Run, m: Map<u32, Tensor>, graph: GraphInfo, op: Operation)
    requires
        n.scoped(),
        n.sees_map(m),
    ensures
        ({
            let (after, tensors) = #[trigger] conv2d_op(n, m, graph, op);
            after.scoped() && after.sees_map(tensors)
        }),
{
    broadcast use {
        group_grows, group_scope, grows_conv_filter, grows_conv_source, grows_step_identity,
        grows_step_padding, grows_conv_parameters, grows_convolved, grows_conv_result,
        scoped_conv_filter, scoped_conv_source, scoped_step_identity, scoped_step_padding,
        scoped_conv_parameters, scoped_convolved, scoped_conv_result,
    };

}

broadcast proof fn scoped_fitted(
    n: Run,
    t: Tensor,
    batch: i32,
    current: (i32, i32),
    target: (i32, i32, i32),
)
    requires
        n.scoped(),
        n.sees(t),
    ensures
        ({
            let (after, t) = #[trigger] fitted(n, t, batch, current, target);
            after.scoped() && after.sees(t)
        }),
{
    broadcast use {
        group_grows, group_scope, grows_step_slice, grows_step_padding, scoped_step_slice,
        scoped_step_padding,
    };

    reveal(fitted);
}

broadcast proof fn scoped_adjusted(
    n: Run,
    graph: GraphInfo,
    op: Operation,
    t: Tensor,
    kernel: (i32, i32),
    output_maps: i32,
)
    requires
        n.scoped(),
        n.sees(t),
    ensures
        ({
            let (after, t) = #[trigger] adjusted(n, graph, op, t, kernel, output_maps);
            after.scoped() && after.sees(t)
        }),
{
    broadcast use {group_grows, group_scope, grows_fitted, scoped_fitted};

    reveal(adjusted);
}

broadcast proof fn scoped_deconvolved(
    n: Run,
    source: Tensor,
    f: Tensor,
    bias: Option<Tensor>,
    filter: FilterPlan,
    plan: ConvPlan,
    extra: (i32, i32),
)
    requires
        n.scoped(),
        n.sees(source),
        n.sees(f),
        n.sees_any(bias),
    ensures
        ({
            let (after, t) = #[trigger] deconvolved(n, source, f, bias, filter, plan, extra);
            after.scoped() && after.sees(t)
        }),
{
    broadcast use {
        group_grows, group_scope, grows_step_output, grows_step_padding, scoped_step_output,
        scoped_step_padding,
    };

    reveal(deconvolved);
}

broadcast proof fn scoped_conv_transpose2d_op(
    n: Run,
    m: Map<u32, Tensor>,
    graph: GraphInfo,
    op: Operation,
)
    requires
        n.scoped(),
        n.sees_map(m),
    ensures
        ({
            let (after, tensors) = #[trigger] conv_transpose2d_op(n, m, graph, op);
            after.scoped() && after.sees_map(tensors)
        }),
{
    broadcast use {
        group_grows, group_scope, grows_conv_filter, grows_conv_source, grows_step_identity,
        grows_conv_parameters, grows_deconvolved, grows_adjusted, grows_conv_result,
        scoped_conv_filter, scoped_conv_source, scoped_step_identity, scoped_conv_parameters,
        scoped_deconvolved, scoped_adjusted, scoped_conv_result,
    };

}

broadcast proof fn scoped_binary_inputs(n: Run, m: Map<u32, Tensor>, op: Operation)
    requires
        n.scoped(),
        n.sees_map(m),
    ensures
        ({
            let (after, (a, b)) = #[trigger] binary_inputs(n, m, op);
            after.scoped() && after.sees(a) && after.sees(b)
        }),
{
    broadcast use {group_grows, group_scope, grows_broadcast_pair, scoped_broadcast_pair};

}

broadcast proof fn scoped_elementwise_op(
    n: Run,
    m: Map<u32, Tensor>,
    op: Operation,
    code: ElementWiseOperation,
)
    requires
        n.scoped(),
        n.sees_map(m),
    ensures
        ({
            let (after, tensors) = #[trigger] elementwise_op(n, m, op, code);
            after.scoped() && after.sees_map(tensors)
        }),
{
    broadcast use {
        group_grows, group_scope, grows_binary_inputs, grows_step_elementwise,
        scoped_binary_inputs, scoped_step_elementwise,
    };

}

broadcast proof fn scoped_comparison_op(
    n: Run,
    m: Map<u32, Tensor>,
    op: Operation,
    code: ElementWiseOperation,
)
    requires
        n.scoped(),
        n.sees_map(m),
    ensures
        ({
            let (after, tensors) = #[trigger] comparison_op(n, m, op, code);
            after.scoped() && after.sees_map(tensors)
        }),
{
    broadcast use {
        group_grows, group_scope, grows_binary_inputs, grows_step_elementwise, grows_to_float32,
        scoped_binary_inputs, scoped_step_elementwise, scoped_to_float32,
    };

}

broadcast proof fn scoped_promoted(n: Run, graph: GraphInfo, id: u32, t: Tensor)
    requires
        n.scoped(),
        n.sees(t),
    ensures
        ({
            let (after, t) = #[trigger] promoted(n, graph, id, t);
            after.scoped() && after.sees(t)
        }),
{
    broadcast use {group_grows, group_scope, grows_to_float32, scoped_to_float32};

}

broadcast proof fn scoped_logical_binary_op(
    n: Run,
    m: Map<u32, Tensor>,
    graph: GraphInfo,
    op: Operation,
    code: ElementWiseOperation,
)
    requires
        n.scoped(),
        n.sees_map(m),
    ensures
        ({
            let (after, tensors) = #[trigger] logical_binary_op(n, m, graph, op, code);
            after.scoped() && after.sees_map(tensors)
        }),
{
    broadcast use {
        group_grows, group_scope, grows_promoted, grows_broadcast_pair, grows_to_bool,
        grows_step_elementwise, grows_to_float32, scoped_promoted, scoped_broadcast_pair,
        scoped_to_bool, scoped_step_elementwise, scoped_to_float32,
    };

}

broadcast proof fn scoped_greater_or_equal_op(n: Run, m: Map<u32, Tensor>, op: Operation)
    requires
        n.scoped(),
        n.sees_map(m),
    ensures
        ({
            let (after, tensors) = #[trigger] greater_or_equal_op(n, m, op);
            after.scoped() && after.sees_map(tensors)
        }),
{
    broadcast use {
        group_grows, group_scope, grows_binary_inputs, grows_step_elementwise, grows_to_float32,
        scoped_binary_inputs, scoped_step_elementwise, scoped_to_float32,
    };

}

broadcast proof fn scoped_lesser_or_equal_op(n: Run, m: Map<u32, Tensor>, op: Operation)
    requires
        n.scoped(),
        n.sees_map(m),
    ensures
        ({
            let (after, tensors) = #[trigger] lesser_or_equal_op(n, m, op);
            after.scoped() && after.sees_map(tensors)
        }),
{
    broadcast use {
        group_grows, group_scope, grows_binary_inputs, grows_step_elementwise, grows_to_float32,
        scoped_binary_inputs, scoped_step_elementwise, scoped_to_float32,
    };

}

broadcast proof fn scoped_step_unary(
    n: Run,
    input: Tensor,
    op: UnaryOperation,
    add_label: Seq<char>,
    output_label: Seq<char>,
)
    requires
        n.scoped(),
        n.sees(input),
    ensures
        ({
            let (after, t) = #[trigger] n.unary(input, op, add_label, output_label);
            after.scoped() && after.sees(t)
        }),
{
    broadcast use {group_grows, group_scope, grows_step_layer, scoped_step_layer};

    reveal(Run::unary);
}

broadcast proof fn scoped_not_equal_op(n: Run, m: Map<u32, Tensor>, op: Operation)
    requires
        n.scoped(),
        n.sees_map(m),
    ensures
        ({
            let (after, tensors) = #[trigger] not_equal_op(n, m, op);
            after.scoped() && after.sees_map(tensors)
        }),
{
    broadcast use {
        group_grows, group_scope, grows_binary_inputs, grows_step_elementwise, grows_step_unary,
        grows_to_float32, scoped_binary_inputs, scoped_step_elementwise, scoped_step_unary,
        scoped_to_float32,
    };

}

broadcast proof fn scoped_step_activation(
    n: Run,
    input: Tensor,
    kind: ActivationType,
    add_label: Seq<char>,
    output_label: Seq<char>,
)
    requires
        n.scoped(),
        n.sees(input),
    ensures
        ({
            let (after, t) = #[trigger] n.activation(input, kind, add_label, output_label);
            after.scoped() && after.sees(t)
        }),
{
    broadcast use {group_grows, group_scope, grows_step_layer, scoped_step_layer};

    reveal(Run::activation);
}

broadcast proof fn scoped_activation_op(
    n: Run,
    m: Map<u32, Tensor>,
    op: Operation,
    kind: ActivationType,
)
    requires
        n.scoped(),
        n.sees_map(m),
    ensures
        ({
            let (after, tensors) = #[trigger] activation_op(n, m, op, kind);
            after.scoped() && after.sees_map(tensors)
        }),
{
    broadcast use {group_grows, group_scope, grows_step_activation, scoped_step_activation};

}

broadcast proof fn scoped_unary_op(n: Run, m: Map<u32, Tensor>, op: Operation, code: UnaryOperation)
    requires
        n.scoped(),
        n.sees_map(m),
    ensures
        ({
            let (after, tensors) = #[trigger] unary_op(n, m, op, code);
            after.scoped() && after.sees_map(tensors)
        }),
{
    broadcast use {group_grows, group_scope, grows_step_unary, scoped_step_unary};

}

broadcast proof fn scoped_identity_op(n: Run, m: Map<u32, Tensor>, op: Operation)
    requires
        n.scoped(),
        n.sees_map(m),
    ensures
        ({
            let (after, tensors) = #[trigger] identity_op(n, m, op);
            after.scoped() && after.sees_map(tensors)
        }),
{
    broadcast use {group_grows, group_scope, grows_step_identity, scoped_step_identity};

}

broadcast proof fn scoped_round_even_op(n: Run, m: Map<u32, Tensor>, op: Operation)
    requires
        n.scoped(),
        n.sees_map(m),
    ensures
        ({
            let (after, tensors) = #[trigger] round_even_op(n, m, op);
            after.scoped() && after.sees_map(tensors)
        }),
{
    broadcast use {group_grows, group_scope, grows_step_unary, scoped_step_unary};

}

broadcast proof fn scoped_is_nan_op(n: Run, m: Map<u32, Tensor>, op: Operation)
    requires
        n.scoped(),
        n.sees_map(m),
    ensures
        ({
            let (after, tensors) = #[trigger] is_nan_op(n, m, op);
            after.scoped() && after.sees_map(tensors)
        }),
{
    broadcast use {
        group_grows, group_scope, grows_step_elementwise, grows_step_unary, grows_to_float32,
        scoped_step_elementwise, scoped_step_unary, scoped_to_float32,
    };

}

broadcast proof fn scoped_is_infinite_op(n: Run, m: Map<u32, Tensor>, op: Operation)
    requires
        n.scoped(),
        n.sees_map(m),
    ensures
        ({
            let (after, tensors) = #[trigger] is_infinite_op(n, m, op);
            after.scoped() && after.sees_map(tensors)
        }),
{
    broadcast use {
        group_grows, group_scope, grows_step_unary, grows_step_constant, grows_step_elementwise,
        grows_to_float32, scoped_step_unary, scoped_step_constant, scoped_step_elementwise,
        scoped_to_float32,
    };

}

broadcast proof fn scoped_elu_op(n: Run, m: Map<u32, Tensor>, graph: GraphInfo, op: Operation)
    requires
        n.scoped(),
        n.sees_map(m),
    ensures
        ({
            let (after, tensors) = #[trigger] elu_op(n, m, graph, op);
            after.scoped() && after.sees_map(tensors)
        }),
{
    broadcast use {
        group_grows, group_scope, grows_activation_op, grows_scalar_shape,
        grows_step_activation, grows_step_unary, grows_step_constant, grows_broadcast_pair,
        grows_step_elementwise, scoped_activation_op, scoped_scalar_shape,
        scoped_step_activation, scoped_step_unary, scoped_step_constant, scoped_broadcast_pair,
        scoped_step_elementwise,
    };

}

broadcast proof fn scoped_leaky_relu_op(
    n: Run,
    m: Map<u32, Tensor>,
    graph: GraphInfo,
    op: Operation,
)
    requires
        n.scoped(),
        n.sees_map(m),
    ensures
        ({
            let (after, tensors) = #[trigger] leaky_relu_op(n, m, graph, op);
            after.scoped() && after.sees_map(tensors)
        }),
{
    broadcast use {
        group_grows, group_scope, grows_scalar_shape, grows_step_constant,
        grows_step_activation, grows_step_elementwise, scoped_scalar_shape,
        scoped_step_constant, scoped_step_activation, scoped_step_elementwise,
    };

}

broadcast proof fn scoped_prelu_op(n: Run, m: Map<u32, Tensor>, op: Operation)
    requires
        n.scoped(),
        n.sees_map(m),
    ensures
        ({
            let (after, tensors) = #[trigger] prelu_op(n, m, op);
            after.scoped() && after.sees_map(tensors)
        }),
{
    broadcast use {
        group_grows, group_scope, grows_broadcast_pair, grows_step_layer, scoped_broadcast_pair,
        scoped_step_layer,
    };

}

broadcast proof fn scoped_hard_sigmoid_op(
    n: Run,
    m: Map<u32, Tensor>,
    graph: GraphInfo,
    op: Operation,
)
    requires
        n.scoped(),
        n.sees_map(m),
    ensures
        ({
            let (after, tensors) = #[trigger] hard_sigmoid_op(n, m, graph, op);
            after.scoped() && after.sees_map(tensors)
        }),
{
    broadcast use {
        group_grows, group_scope, grows_step_activation, grows_step_add_constant,
        grows_step_output, grows_step_elementwise, scoped_step_activation,
        scoped_step_add_constant, scoped_step_output, scoped_step_elementwise,
    };

}

broadcast proof fn scoped_hard_swish_op(
    n: Run,
    m: Map<u32, Tensor>,
    graph: GraphInfo,
    op: Operation,
)
    requires
        n.scoped(),
        n.sees_map(m),
    ensures
        ({
            let (after, tensors) = #[trigger] hard_swish_op(n, m, graph, op);
            after.scoped() && after.sees_map(tensors)
        }),
{
    broadcast use {
        group_grows, group_scope, grows_step_add_constant, grows_step_output,
        grows_step_elementwise, scoped_step_add_constant, scoped_step_output,
        scoped_step_elementwise,
    };

}

broadcast proof fn scoped_linear_op(n: Run, m: Map<u32, Tensor>, graph: GraphInfo, op: Operation)
    requires
        n.scoped(),
        n.sees_map(m),
    ensures
        ({
            let (after, tensors) = #[trigger] linear_op(n, m, graph, op);
            after.scoped() && after.sees_map(tensors)
        }),
{
    broadcast use {
        group_grows, group_scope, grows_scalar_shape, grows_step_constant,
        grows_step_elementwise, grows_step_identity, scoped_scalar_shape, scoped_step_constant,
        scoped_step_elementwise, scoped_step_identity,
    };

}

broadcast proof fn scoped_raised(n: Run, t: Tensor, d: Seq<i64>, rank: nat)
    requires
        n.scoped(),
        n.sees(t),
    ensures
        ({
            let (after, t) = #[trigger] raised(n, t, d, rank);
            after.scoped() && after.sees(t)
        }),
{
    broadcast use {group_grows, group_scope, grows_step_reshape, scoped_step_reshape};

    reveal(raised);
}

broadcast proof fn scoped_step_matrix_multiply(
    n: Run,
    a: Tensor,
    op_a: MatrixOperation,
    b: Tensor,
    op_b: MatrixOperation,
    add_label: Seq<char>,
    output_label: Seq<char>,
)
    requires
        n.scoped(),
        n.sees(a),
        n.sees(b),
    ensures
        ({
            let (after, t) = #[trigger] n.matrix_multiply(
                a, op_a, b, op_b, add_label, output_label,
            );
            after.scoped() && after.sees(t)
        }),
{
    broadcast use {group_grows, group_scope, grows_step_layer, scoped_step_layer};

    reveal(Run::matrix_multiply);
}

broadcast proof fn scoped_matmul_op(n: Run, m: Map<u32, Tensor>, op: Operation)
    requires
        n.scoped(),
        n.sees_map(m),
    ensures
        ({
            let (after, tensors) = #[trigger] matmul_op(n, m, op);
            after.scoped() && after.sees_map(tensors)
        }),
{
    broadcast use {
        group_grows, group_scope, grows_raised, grows_step_matrix_multiply, scoped_raised,
        scoped_step_matrix_multiply,
    };

}

broadcast proof fn scoped_scaled(
    n: Run,
    t: Tensor,
    factor: Scalar,
    dt: DataType,
    whole: Seq<char>,
    name: Seq<char>,
    add_label: Seq<char>,
    output_label: Seq<char>,
)
    requires
        n.scoped(),
        n.sees(t),
    ensures
        ({
            let (after, t) = #[trigger] scaled(
                n, t, factor, dt, whole, name, add_label, output_label,
            );
            after.scoped() && after.sees(t)
        }),
{
    broadcast use {
        group_grows, group_scope, grows_elements, grows_step_constant, grows_step_elementwise,
        scoped_elements, scoped_step_constant, scoped_step_elementwise,
    };

    reveal(scaled);
}

broadcast proof fn scoped_summed(n: Run, t: Tensor, c: Tensor, add_label: Seq<char>)
    requires
        n.scoped(),
        n.sees(t),
        n.sees(c),
    ensures
        ({
            let (after, t) = #[trigger] summed(n, t, c, add_label);
            after.scoped() && after.sees(t)
        }),
{
    broadcast use {
        group_grows, group_scope, grows_broadcast_pair, grows_step_elementwise,
        scoped_broadcast_pair, scoped_step_elementwise,
    };

    reveal(summed);
}

broadcast proof fn scoped_gemm_op(n: Run, m: Map<u32, Tensor>, graph: GraphInfo, op: Operation)
    requires
        n.scoped(),
        n.sees_map(m),
    ensures
        ({
            let (after, tensors) = #[trigger] gemm_op(n, m, graph, op);
            after.scoped() && after.sees_map(tensors)
        }),
{
    broadcast use {
        group_grows, group_scope, grows_step_matrix_multiply, grows_scaled, grows_summed,
        scoped_step_matrix_multiply, scoped_scaled, scoped_summed,
    };

}

broadcast proof fn scoped_bytes_to_float(
    n: Run,
    x: Tensor,
    sizes: Seq<u32>,
    shuffle_name: Seq<char>,
    purpose: Seq<char>,
    dequantize_name: Seq<char>,
)
    requires
        n.scoped(),
        n.sees(x),
    ensures
        ({
            let (after, t) = #[trigger] bytes_to_float(
                n, x, sizes, shuffle_name, purpose, dequantize_name,
            );
            after.scoped() && after.sees(t)
        }),
{
    broadcast use {
        group_grows, group_scope, grows_step_output, grows_step_constant, scoped_step_output,
        scoped_step_constant,
    };

    reveal(bytes_to_float);
}

broadcast proof fn scoped_floats_to_int32(n: Run, t: Tensor)
    requires
        n.scoped(),
        n.sees(t),
    ensures
        ({
            let (after, t) = #[trigger] floats_to_int32(n, t);
            after.scoped() && after.sees(t)
        }),
{
    broadcast use {group_grows, group_scope, grows_step_output, scoped_step_output};

    reveal(floats_to_int32);
}

broadcast proof fn scoped_cast_op(
    n: Run,
    m: Map<u32, Tensor>,
    graph: GraphInfo,
    op: Operation,
    promoted: Set<u32>,
)
    requires
        n.scoped(),
        n.sees_map(m),
    ensures
        ({
            let (after, tensors) = #[trigger] cast_op(n, m, graph, op, promoted);
            after.scoped() && after.sees_map(tensors)
        }),
{
    broadcast use {
        group_grows, group_scope, grows_step_identity, grows_bytes_to_float,
        grows_floats_to_int32, grows_step_cast, scoped_step_identity, scoped_bytes_to_float,
        scoped_floats_to_int32, scoped_step_cast,
    };

}

broadcast proof fn scoped_is_scalar(n: Run, t: Tensor)
    requires
        n.scoped(),
        n.sees(t),
    ensures
        (#[trigger] is_scalar(n, t)).0.scoped(),
{
    broadcast use {group_grows, group_scope};

    reveal(is_scalar);
}

broadcast proof fn scoped_quantize_zero(
    n: Run,
    graph: GraphInfo,
    op: Operation,
    given: Tensor,
    out: DataType,
)
    requires
        n.scoped(),
        n.sees(given),
    ensures
        ({
            let (after, (t, _)) = #[trigger] quantize_zero(n, graph, op, given, out);
            after.scoped() && after.sees(t)
        }),
{
    broadcast use {group_grows, group_scope, grows_step_constant, scoped_step_constant};

    reveal(quantize_zero);
}

broadcast proof fn scoped_step_dequantize(
    n: Run,
    input: Tensor,
    scale: Tensor,
    dtype: TrtDataType,
    add_label: Seq<char>,
    output_label: Seq<char>,
)
    requires
        n.scoped(),
        n.sees(input),
        n.sees(scale),
    ensures
        ({
            let (after, t) = #[trigger] n.dequantize(input, scale, dtype, add_label, output_label);
            after.scoped() && after.sees(t)
        }),
{
    broadcast use {group_grows, group_scope, grows_step_layer, scoped_step_layer};

    reveal(Run::dequantize);
}

broadcast proof fn scoped_step_select(
    n: Run,
    condition: Tensor,
    on_true: Tensor,
    on_false: Tensor,
    add_label: Seq<char>,
    output_label: Seq<char>,
)
    requires
        n.scoped(),
        n.sees(condition),
        n.sees(on_true),
        n.sees(on_false),
    ensures
        ({
            let (after, t) = #[trigger] n.select(
                condition, on_true, on_false, add_label, output_label,
            );
            after.scoped() && after.sees(t)
        }),
{
    broadcast use {group_grows, group_scope, grows_step_layer, scoped_step_layer};

    reveal(Run::select);
}

broadcast proof fn scoped_unsigned_reading(n: Run, t: Tensor, ty: TrtDataType, label: Seq<char>)
    requires
        n.scoped(),
        n.sees(t),
    ensures
        ({
            let (after, t) = #[trigger] unsigned_reading(n, t, ty, label);
            after.scoped() && after.sees(t)
        }),
{
    broadcast use {
        group_grows, group_scope, grows_step_constant, grows_step_elementwise, grows_to_bool,
        grows_step_select, scoped_step_constant, scoped_step_elementwise, scoped_to_bool,
        scoped_step_select,
    };

    reveal(unsigned_reading);
}

broadcast proof fn scoped_byte_values(
    n: Run,
    t: Tensor,
    ty: TrtDataType,
    label: Seq<char>,
    source: DataType,
)
    requires
        n.scoped(),
        n.sees(t),
    ensures
        ({
            let (after, t) = #[trigger] byte_values(n, t, ty, label, source);
            after.scoped() && after.sees(t)
        }),
{
    broadcast use {
        group_grows, group_scope, grows_step_constant, grows_step_dequantize,
        grows_unsigned_reading, grows_step_elementwise, scoped_step_constant,
        scoped_step_dequantize, scoped_unsigned_reading, scoped_step_elementwise,
    };

    reveal(byte_values);
}

broadcast proof fn scoped_with_axis(n: Run, t: Tensor, label: Seq<char>)
    requires
        n.scoped(),
        n.sees(t),
    ensures
        ({
            let (after, t) = #[trigger] with_axis(n, t, label);
            after.scoped() && after.sees(t)
        }),
{
    broadcast use {
        group_grows, group_scope, grows_step_reshape, grows_step_identity, scoped_step_reshape,
        scoped_step_identity,
    };

    reveal(with_axis);
}

broadcast proof fn scoped_prepended(n: Run, t: Tensor, rank: nat, label: Seq<char>)
    requires
        n.scoped(),
        n.sees(t),
    ensures
        ({
            let (after, t) = #[trigger] prepended(n, t, rank, label);
            after.scoped() && after.sees(t)
        }),
{
    broadcast use {
        group_grows, group_scope, grows_step_identity, grows_step_reshape, scoped_step_identity,
        scoped_step_reshape,
    };

    reveal(prepended);
}

broadcast proof fn scoped_slab(
    n: Run,
    x: Tensor,
    d: Seq<i64>,
    axis: nat,
    at: i64,
    add_label: Seq<char>,
    output_label: Seq<char>,
)
    requires
        n.scoped(),
        n.sees(x),
    ensures
        ({
            let (after, t) = #[trigger] slab(n, x, d, axis, at, add_label, output_label);
            after.scoped() && after.sees(t)
        }),
{
    broadcast use {group_grows, group_scope, grows_step_slice, scoped_step_slice};

    reveal(slab);
}

broadcast proof fn scoped_block_part(
    n: Run,
    x: Tensor,
    d: Seq<i64>,
    axis: nat,
    k: nat,
    times: i64,
    label: Seq<char>,
)
    requires
        n.scoped(),
        n.sees(x),
    ensures
        ({
            let (after, t) = #[trigger] block_part(n, x, d, axis, k, times, label);
            after.scoped() && after.sees(t)
        }),
{
    broadcast use {
        group_grows, group_scope, grows_slab, grows_step_concat, scoped_slab,
        scoped_step_concat,
    };

    reveal(block_part);
}

broadcast proof fn scoped_block_parts(
    n: Run,
    x: Tensor,
    d: Seq<i64>,
    axis: nat,
    k: nat,
    times: i64,
    label: Seq<char>,
)
    requires
        n.scoped(),
        n.sees(x),
    ensures
        ({
            let (after, list) = #[trigger] block_parts(n, x, d, axis, k, times, label);
            after.scoped() && after.sees_all(list)
        }),
    decreases k,
{
    broadcast use {
        group_grows, group_scope, grows_block_part, scoped_block_part, grows_block_parts,
    };

    if k > 0 {
        scoped_block_parts(n, x, d, axis, (k - 1) as nat, times, label);
    }
}

broadcast proof fn scoped_block_axis(n: Run, t: Tensor, axis: nat, target: u32, label: Seq<char>)
    requires
        n.scoped(),
        n.sees(t),
    ensures
        ({
            let (after, t) = #[trigger] block_axis(n, t, axis, target, label);
            after.scoped() && after.sees(t)
        }),
{
    broadcast use {
        group_grows, group_scope, grows_block_parts, grows_step_concat, scoped_block_parts,
        scoped_step_concat,
    };

    reveal(block_axis);
}

broadcast proof fn scoped_block_axes(n: Run, t: Tensor, sizes: Seq<u32>, k: nat, label: Seq<char>)
    requires
        n.scoped(),
        n.sees(t),
    ensures
        ({
            let (after, t) = #[trigger] block_axes(n, t, sizes, k, label);
            after.scoped() && after.sees(t)
        }),
    decreases k,
{
    broadcast use {group_grows, group_scope, grows_block_axis, scoped_block_axis, grows_block_axes};

    if k > 0 {
        scoped_block_axes(n, t, sizes, (k - 1) as nat, label);
    }
}

broadcast proof fn scoped_aligned(
    n: Run,
    t: Tensor,
    sizes: Seq<u32>,
    label: Seq<char>,
    as_float: Option<TrtDataType>,
    source: DataType,
)
    requires
        n.scoped(),
        n.sees(t),
    ensures
        ({
            let (after, t) = #[trigger] aligned(n, t, sizes, label, as_float, source);
            after.scoped() && after.sees(t)
        }),
{
    broadcast use {
        group_grows, group_scope, grows_byte_values, grows_with_axis, grows_prepended,
        grows_block_axes, scoped_byte_values, scoped_with_axis, scoped_prepended,
        scoped_block_axes,
    };

    reveal(aligned);
}

broadcast proof fn scoped_in_type(n: Run, t: Tensor, ty: TrtDataType, what: Seq<char>)
    requires
        n.scoped(),
        n.sees(t),
    ensures
        ({
            let (after, t) = #[trigger] in_type(n, t, ty, what);
            after.scoped() && after.sees(t)
        }),
{
    broadcast use {group_grows, group_scope, grows_step_cast, scoped_step_cast};

    reveal(in_type);
}

broadcast proof fn scoped_clamped_to(n: Run, t: Tensor, ty: TrtDataType, range: (Known, Known))
    requires
        n.scoped(),
        n.sees(t),
    ensures
        ({
            let (after, t) = #[trigger] clamped_to(n, t, ty, range);
            after.scoped() && after.sees(t)
        }),
{
    broadcast use {
        group_grows, group_scope, grows_step_constant, grows_step_elementwise,
        scoped_step_constant, scoped_step_elementwise,
    };

    reveal(clamped_to);
}

broadcast proof fn scoped_quantized(
    n: Run,
    x: Tensor,
    scale: Tensor,
    zero: Tensor,
    float_ty: TrtDataType,
    out_ty: TrtDataType,
    out: DataType,
)
    requires
        n.scoped(),
        n.sees(x),
        n.sees(scale),
        n.sees(zero),
    ensures
        ({
            let (after, t) = #[trigger] quantized(n, x, scale, zero, float_ty, out_ty, out);
            after.scoped() && after.sees(t)
        }),
{
    broadcast use {
        group_grows, group_scope, grows_with_axis, grows_in_type, grows_step_elementwise,
        grows_step_unary, grows_clamped_to, grows_step_cast, scoped_with_axis, scoped_in_type,
        scoped_step_elementwise, scoped_step_unary, scoped_clamped_to, scoped_step_cast,
    };

    reveal(quantized);
}

broadcast proof fn scoped_quantize_linear_op(
    n: Run,
    m: Map<u32, Tensor>,
    graph: GraphInfo,
    op: Operation,
)
    requires
        n.scoped(),
        n.sees_map(m),
    ensures
        ({
            let (after, tensors) = #[trigger] quantize_linear_op(n, m, graph, op);
            after.scoped() && after.sees_map(tensors)
        }),
{
    broadcast use {
        group_grows, group_scope, grows_is_scalar, grows_quantize_zero, grows_aligned,
        grows_quantized, grows_step_reshape, grows_with_axis, grows_step_layer,
        scoped_is_scalar, scoped_quantize_zero, scoped_aligned, scoped_quantized,
        scoped_step_reshape, scoped_with_axis, scoped_step_layer,
    };

}

broadcast proof fn scoped_dequantize_zero(
    n: Run,
    zero: Tensor,
    ty: TrtDataType,
    source: DataType,
    scalar: bool,
    rank: nat,
)
    requires
        n.scoped(),
        n.sees(zero),
    ensures
        ({
            let (after, t) = #[trigger] dequantize_zero(n, zero, ty, source, scalar, rank);
            after.scoped() && after.sees(t)
        }),
{
    broadcast use {
        group_grows, group_scope, grows_byte_values, grows_with_axis, grows_is_scalar,
        grows_step_identity, scoped_byte_values, scoped_with_axis, scoped_is_scalar,
        scoped_step_identity,
    };

    reveal(dequantize_zero);
}

broadcast proof fn scoped_dequantize_linear_op(
    n: Run,
    m: Map<u32, Tensor>,
    graph: GraphInfo,
    op: Operation,
)
    requires
        n.scoped(),
        n.sees_map(m),
    ensures
        ({
            let (after, tensors) = #[trigger] dequantize_linear_op(n, m, graph, op);
            after.scoped() && after.sees_map(tensors)
        }),
{
    broadcast use {
        group_grows, group_scope, grows_with_axis, grows_step_dequantize, grows_dequantize_zero,
        grows_step_cast, grows_step_elementwise, scoped_with_axis, scoped_step_dequantize,
        scoped_dequantize_zero, scoped_step_cast, scoped_step_elementwise,
    };

}

broadcast proof fn scoped_pool_window(n: Run, graph: GraphInfo, id: u32, plan: PoolPlan)
    requires
        n.scoped(),
    ensures
        (#[trigger] pool_window(n, graph, id, plan)).0.scoped(),
{
    broadcast use {group_grows, group_scope};

    reveal(pool_window);
}

broadcast proof fn scoped_channels_second(n: Run, t: Tensor, nhwc: bool, what: Seq<char>)
    requires
        n.scoped(),
        n.sees(t),
    ensures
        ({
            let (after, t) = #[trigger] channels_second(n, t, nhwc, what);
            after.scoped() && after.sees(t)
        }),
{
    broadcast use {group_grows, group_scope, grows_step_transpose, scoped_step_transpose};

    reveal(channels_second);
}

broadcast proof fn scoped_rounds_up(n: Run, output: u32, plan: PoolPlan)
    requires
        n.scoped(),
    ensures
        (#[trigger] rounds_up(n, output, plan)).0.scoped(),
{
    broadcast use {group_grows, group_scope};

    reveal(rounds_up);
}

broadcast proof fn scoped_dilated_extents(
    n: Run,
    output: u32,
    d: Seq<i64>,
    window: (u32, u32),
    plan: PoolPlan,
    kind: Dilated,
)
    requires
        n.scoped(),
    ensures
        (#[trigger] dilated_extents(n, output, d, window, plan, kind)).0.scoped(),
{
    broadcast use {group_grows, group_scope, grows_rounds_up, scoped_rounds_up};

    reveal(dilated_extents);
}

broadcast proof fn scoped_step_add_owned_constant(
    n: Run,
    dims: Seq<i64>,
    bytes: Seq<u8>,
    dtype: TrtDataType,
    label: Seq<char>,
)
    requires
        n.scoped(),
    ensures
        ({
            let (after, l) = #[trigger] n.add_owned_constant(dims, bytes, dtype, label);
            after.scoped() && after.sees_layer(Layer { id: l })
        }),
{
    broadcast use {group_grows, group_scope};

    reveal(Run::add_owned_constant);
}

broadcast proof fn scoped_outside_constant(n: Run, d: Seq<i64>, kind: Dilated)
    requires
        n.scoped(),
    ensures
        ({
            let (after, l) = #[trigger] outside_constant(n, d, kind);
            after.scoped() && after.sees_layer(Layer { id: l })
        }),
{
    broadcast use {
        group_grows, group_scope, grows_step_add_owned_constant, scoped_step_add_owned_constant,
    };

    reveal(outside_constant);
}

broadcast proof fn scoped_tap(n: Run, g: Grid, row: nat, col: nat, k: nat)
    requires
        n.scoped(),
        n.sees_grid(g),
    ensures
        ({
            let (after, t) = #[trigger] tap(n, g, row, col, k);
            after.scoped() && after.sees(t)
        }),
{
    broadcast use {
        group_grows, group_scope, grows_step_slice, grows_step_output, scoped_step_slice,
        scoped_step_output,
    };

    reveal(tap);
}

broadcast proof fn scoped_taps(n: Run, g: Grid, row: nat, col: nat, k: nat)
    requires
        n.scoped(),
        n.sees_grid(g),
    ensures
        ({
            let (after, list) = #[trigger] taps(n, g, row, col, k);
            after.scoped() && after.sees_all(list)
        }),
    decreases k,
{
    broadcast use {group_grows, group_scope, grows_tap, scoped_tap, grows_taps};

    if k > 0 {
        scoped_taps(n, g, row, col, (k - 1) as nat);
    }
}

broadcast proof fn scoped_combine(n: Run, kind: Dilated, a: Tensor, b: Tensor)
    requires
        n.scoped(),
        n.sees(a),
        n.sees(b),
    ensures
        ({
            let (after, t) = #[trigger] combine(n, kind, a, b);
            after.scoped() && after.sees(t)
        }),
{
    broadcast use {group_grows, group_scope, grows_step_elementwise, scoped_step_elementwise};

    reveal(combine);
}

broadcast proof fn scoped_combined(n: Run, kind: Dilated, list: Seq<Tensor>, k: nat)
    requires
        n.scoped(),
        n.sees_all(list),
        n.halt is Some || 1 <= k <= list.len(),
    ensures
        ({
            let (after, t) = #[trigger] combined(n, kind, list, k);
            after.scoped() && after.sees(t)
        }),
    decreases k,
{
    broadcast use {group_grows, group_scope, grows_combine, scoped_combine, grows_combined};

    if k > 1 {
        scoped_combined(n, kind, list, (k - 1) as nat);
    }
}

broadcast proof fn scoped_cell(n: Run, g: Grid, row: nat, col: nat)
    requires
        n.scoped(),
        n.sees_grid(g),
    ensures
        ({
            let (after, t) = #[trigger] cell(n, g, row, col);
            after.scoped() && after.sees(t)
        }),
{
    broadcast use {
        group_grows, group_scope, grows_taps, grows_combined, scoped_taps, scoped_combined,
    };

    reveal(cell);
    taps_len(n, g, row, col, (g.kernel.0 * g.kernel.1) as nat);
    if n.halt is None {
        assert(g.kernel.0 * g.kernel.1 >= 1) by (nonlinear_arith)
            requires
                g.kernel.0 > 0,
                g.kernel.1 > 0,
        ;
    }
}

broadcast proof fn scoped_cells(n: Run, g: Grid, row: nat, k: nat)
    requires
        n.scoped(),
        n.sees_grid(g),
    ensures
        ({
            let (after, list) = #[trigger] cells(n, g, row, k);
            after.scoped() && after.sees_all(list)
        }),
    decreases k,
{
    broadcast use {group_grows, group_scope, grows_cell, scoped_cell, grows_cells};

    if k > 0 {
        scoped_cells(n, g, row, (k - 1) as nat);
    }
}

broadcast proof fn scoped_joined(n: Run, parts: Seq<Tensor>, axis: i32)
    requires
        n.scoped(),
        n.sees_all(parts),
    ensures
        ({
            let (after, t) = #[trigger] joined(n, parts, axis);
            after.scoped() && after.sees(t)
        }),
{
    broadcast use {
        group_grows, group_scope, grows_step_identity, grows_step_concat, scoped_step_identity,
        scoped_step_concat,
    };

    reveal(joined);
}

broadcast proof fn scoped_grid_row(n: Run, g: Grid, row: nat, width: nat)
    requires
        n.scoped(),
        n.sees_grid(g),
    ensures
        ({
            let (after, t) = #[trigger] grid_row(n, g, row, width);
            after.scoped() && after.sees(t)
        }),
{
    broadcast use {
        group_grows, group_scope, grows_cells, grows_joined, scoped_cells, scoped_joined,
    };

    reveal(grid_row);
}

broadcast proof fn scoped_grid_rows(n: Run, g: Grid, width: nat, k: nat)
    requires
        n.scoped(),
        n.sees_grid(g),
    ensures
        ({
            let (after, list) = #[trigger] grid_rows(n, g, width, k);
            after.scoped() && after.sees_all(list)
        }),
    decreases k,
{
    broadcast use {group_grows, group_scope, grows_grid_row, scoped_grid_row, grows_grid_rows};

    if k > 0 {
        scoped_grid_rows(n, g, width, (k - 1) as nat);
    }
}

broadcast proof fn scoped_dilated_pool(
    n: Run,
    x: Tensor,
    output: u32,
    window: (u32, u32),
    plan: PoolPlan,
    kind: Dilated,
)
    requires
        n.scoped(),
        n.sees(x),
    ensures
        ({
            let (after, t) = #[trigger] dilated_pool(n, x, output, window, plan, kind);
            after.scoped() && after.sees(t)
        }),
{
    broadcast use {
        group_grows, group_scope, grows_dilated_extents, grows_outside_constant,
        grows_grid_rows, grows_joined, scoped_dilated_extents, scoped_outside_constant,
        scoped_grid_rows, scoped_joined,
    };

    reveal(dilated_pool);
}

broadcast proof fn scoped_dilated_result(
    n: Run,
    graph: GraphInfo,
    output: u32,
    t: Tensor,
    kind: Dilated,
)
    requires
        n.scoped(),
        n.sees(t),
    ensures
        ({
            let (after, t) = #[trigger] dilated_result(n, graph, output, t, kind);
            after.scoped() && after.sees(t)
        }),
{
    broadcast use {group_grows, group_scope, grows_step_cast, scoped_step_cast};

    reveal(dilated_result);
}

broadcast proof fn scoped_max_pool_dilated(
    n: Run,
    graph: GraphInfo,
    x: Tensor,
    output: u32,
    plan: PoolPlan,
    window: (u32, u32),
)
    requires
        n.scoped(),
        n.sees(x),
    ensures
        ({
            let (after, t) = #[trigger] max_pool_dilated(n, graph, x, output, plan, window);
            after.scoped() && after.sees(t)
        }),
{
    broadcast use {
        group_grows, group_scope, grows_dilated_pool, grows_dilated_result, scoped_dilated_pool,
        scoped_dilated_result,
    };

    reveal(max_pool_dilated);
}

broadcast proof fn scoped_average_pool_dilated(
    n: Run,
    graph: GraphInfo,
    x: Tensor,
    output: u32,
    plan: PoolPlan,
    window: (u32, u32),
)
    requires
        n.scoped(),
        n.sees(x),
    ensures
        ({
            let (after, t) = #[trigger] average_pool_dilated(n, graph, x, output, plan, window);
            after.scoped() && after.sees(t)
        }),
{
    broadcast use {
        group_grows, group_scope, grows_dilated_pool, grows_step_add_owned_constant,
        grows_step_output, grows_step_elementwise, grows_dilated_result, scoped_dilated_pool,
        scoped_step_add_owned_constant, scoped_step_output, scoped_step_elementwise,
        scoped_dilated_result,
    };

    reveal(average_pool_dilated);
}

broadcast proof fn scoped_pooled_dilated(
    n: Run,
    graph: GraphInfo,
    op: Operation,
    x: Tensor,
    kind: PoolingType,
    window: (u32, u32),
)
    requires
        n.scoped(),
        n.sees(x),
    ensures
        ({
            let (after, t) = #[trigger] pooled_dilated(n, graph, op, x, kind, window);
            after.scoped() && after.sees(t)
        }),
{
    broadcast use {
        group_grows, group_scope, grows_step_cast, grows_max_pool_dilated,
        grows_average_pool_dilated, grows_step_transpose, scoped_step_cast,
        scoped_max_pool_dilated, scoped_average_pool_dilated, scoped_step_transpose,
    };

    reveal(pooled_dilated);
}

broadcast proof fn scoped_pool_settings(n: Run, l: usize, plan: PoolPlan, up: bool)
    requires
        n.scoped(),
        n.sees_layer(Layer { id: l }),
    ensures
        (#[trigger] pool_settings(n, l, plan, up)).0.scoped(),
{
    broadcast use {group_grows, group_scope};

    reveal(pool_settings);
}

broadcast proof fn scoped_channels_last(n: Run, t: Tensor, nhwc: bool, what: Seq<char>)
    requires
        n.scoped(),
        n.sees(t),
    ensures
        ({
            let (after, t) = #[trigger] channels_last(n, t, nhwc, what);
            after.scoped() && after.sees(t)
        }),
{
    broadcast use {group_grows, group_scope, grows_step_transpose, scoped_step_transpose};

    reveal(channels_last);
}

broadcast proof fn scoped_pooling_op(
    n: Run,
    m: Map<u32, Tensor>,
    graph: GraphInfo,
    op: Operation,
    kind: PoolingType,
)
    requires
        n.scoped(),
        n.sees_map(m),
    ensures
        ({
            let (after, tensors) = #[trigger] pooling_op(n, m, graph, op, kind);
            after.scoped() && after.sees_map(tensors)
        }),
{
    broadcast use {
        group_grows, group_scope, grows_pool_window, grows_channels_second,
        grows_pooled_dilated, grows_rounds_up, grows_pool_settings, grows_step_output,
        grows_channels_last, scoped_pool_window, scoped_channels_second, scoped_pooled_dilated,
        scoped_rounds_up, scoped_pool_settings, scoped_step_output, scoped_channels_last,
    };

}

broadcast proof fn scoped_global_pooling_op(
    n: Run,
    m: Map<u32, Tensor>,
    op: Operation,
    kind: PoolingType,
)
    requires
        n.scoped(),
        n.sees_map(m),
    ensures
        ({
            let (after, tensors) = #[trigger] global_pooling_op(n, m, op, kind);
            after.scoped() && after.sees_map(tensors)
        }),
{
    broadcast use {
        group_grows, group_scope, grows_channels_second, grows_step_layer, grows_channels_last,
        scoped_channels_second, scoped_step_layer, scoped_channels_last,
    };

}

broadcast proof fn scoped_channel_stats(
    n: Run,
    stats: Tensor,
    input: Tensor,
    axis: i64,
    op_name: Seq<char>,
)
    requires
        n.scoped(),
        n.sees(stats),
        n.sees(input),
    ensures
        ({
            let (after, t) = #[trigger] channel_stats(n, stats, input, axis, op_name);
            after.scoped() && after.sees(t)
        }),
{
    broadcast use {
        group_grows, group_scope, grows_step_transpose, grows_step_reshape,
        scoped_step_transpose, scoped_step_reshape,
    };

    reveal(channel_stats);
}

broadcast proof fn scoped_step_named_layer(
    n: Run,
    request: RequestView,
    name: Seq<char>,
    add_label: Seq<char>,
    output_label: Seq<char>,
)
    requires
        n.scoped(),
        n.can_ask(request),
        gives_layer(request),
    ensures
        ({
            let (after, t) = #[trigger] n.named_layer(request, name, add_label, output_label);
            after.scoped() && after.sees(t)
        }),
{
    broadcast use {group_grows, group_scope, grows_step_output, scoped_step_output};

    reveal(Run::named_layer);
}

broadcast proof fn scoped_guarded_variance(
    n: Run,
    graph: GraphInfo,
    op: Operation,
    variance: Tensor,
    epsilon: Scalar,
)
    requires
        n.scoped(),
        n.sees(variance),
    ensures
        ({
            let (after, t) = #[trigger] guarded_variance(n, graph, op, variance, epsilon);
            after.scoped() && after.sees(t)
        }),
{
    broadcast use {
        group_grows, group_scope, grows_elements, grows_step_constant, grows_step_elementwise,
        scoped_elements, scoped_step_constant, scoped_step_elementwise,
    };

    reveal(guarded_variance);
}

broadcast proof fn scoped_batch_normalization_op(
    n: Run,
    m: Map<u32, Tensor>,
    graph: GraphInfo,
    op: Operation,
)
    requires
        n.scoped(),
        n.sees_map(m),
    ensures
        ({
            let (after, tensors) = #[trigger] batch_normalization_op(n, m, graph, op);
            after.scoped() && after.sees_map(tensors)
        }),
{
    broadcast use {
        group_grows, group_scope, grows_channel_stats, grows_step_named_layer,
        grows_guarded_variance, scoped_channel_stats, scoped_step_named_layer,
        scoped_guarded_variance,
    };

}

broadcast proof fn scoped_step_reduce(
    n: Run,
    input: Tensor,
    op: ReduceOperation,
    axes: u32,
    keep_dims: bool,
    add_label: Seq<char>,
    output_label: Seq<char>,
)
    requires
        n.scoped(),
        n.sees(input),
    ensures
        ({
            let (after, t) = #[trigger] n.reduce(
                input, op, axes, keep_dims, add_label, output_label,
            );
            after.scoped() && after.sees(t)
        }),
{
    broadcast use {group_grows, group_scope, grows_step_layer, scoped_step_layer};

    reveal(Run::reduce);
}

broadcast proof fn scoped_instance_normalized(
    n: Run,
    graph: GraphInfo,
    op: Operation,
    x: Tensor,
    bits: u32,
    epsilon: Scalar,
)
    requires
        n.scoped(),
        n.sees(x),
    ensures
        ({
            let (after, t) = #[trigger] instance_normalized(n, graph, op, x, bits, epsilon);
            after.scoped() && after.sees(t)
        }),
{
    broadcast use {
        group_grows, group_scope, grows_step_reduce, grows_step_elementwise, grows_elements,
        grows_step_constant, grows_step_unary, scoped_step_reduce, scoped_step_elementwise,
        scoped_elements, scoped_step_constant, scoped_step_unary,
    };

    reveal(instance_normalized);
}

broadcast proof fn scoped_instance_normalization_op(
    n: Run,
    m: Map<u32, Tensor>,
    graph: GraphInfo,
    op: Operation,
)
    requires
        n.scoped(),
        n.sees_map(m),
    ensures
        ({
            let (after, tensors) = #[trigger] instance_normalization_op(n, m, graph, op);
            after.scoped() && after.sees_map(tensors)
        }),
{
    broadcast use {
        group_grows, group_scope, grows_instance_normalized, grows_step_reshape,
        grows_step_elementwise, scoped_instance_normalized, scoped_step_reshape,
        scoped_step_elementwise,
    };

}

broadcast proof fn scoped_layer_norm_of_scalar(
    n: Run,
    m: Map<u32, Tensor>,
    graph: GraphInfo,
    op: Operation,
    bias: Option<u32>,
)
    requires
        n.scoped(),
        n.sees_map(m),
    ensures
        ({
            let (after, tensors) = #[trigger] layer_norm_of_scalar(n, m, graph, op, bias);
            after.scoped() && after.sees_map(tensors)
        }),
{
    broadcast use {
        group_grows, group_scope, grows_step_constant, grows_step_reshape,
        grows_step_elementwise, scoped_step_constant, scoped_step_reshape,
        scoped_step_elementwise,
    };

    reveal(layer_norm_of_scalar);
}

broadcast proof fn scoped_filled(
    n: Run,
    dims: Seq<i64>,
    count: nat,
    s: Scalar,
    t: DataType,
    add_label: Seq< char, >,
    output_label: Seq<char>,
)
    requires
        n.scoped(),
    ensures
        ({
            let (after, t) = #[trigger] filled(n, dims, count, s, t, add_label, output_label);
            after.scoped() && after.sees(t)
        }),
{
    broadcast use {group_grows, group_scope, grows_step_constant, scoped_step_constant};

}

broadcast proof fn scoped_layer_bias(
    n: Run,
    graph: GraphInfo,
    id: u32,
    bias: Tensor,
    d: Seq<i64>,
    count: nat,
    dt: DataType,
)
    requires
        n.scoped(),
        n.sees(bias),
    ensures
        ({
            let (after, t) = #[trigger] layer_bias(n, graph, id, bias, d, count, dt);
            after.scoped() && after.sees(t)
        }),
{
    broadcast use {
        group_grows, group_scope, grows_step_constant, grows_filled, grows_broadcast_pair,
        scoped_step_constant, scoped_filled, scoped_broadcast_pair,
    };

    reveal(layer_bias);
}

broadcast proof fn scoped_layer_norm_over_nothing(
    n: Run,
    m: Map<u32, Tensor>,
    graph: GraphInfo,
    op: Operation,
    bias: Option<u32>,
    d: Seq<i64>,
)
    requires
        n.scoped(),
        n.sees_map(m),
    ensures
        ({
            let (after, tensors) = #[trigger] layer_norm_over_nothing(n, m, graph, op, bias, d);
            after.scoped() && after.sees_map(tensors)
        }),
{
    broadcast use {
        group_grows, group_scope, grows_elements, grows_filled, grows_layer_bias,
        grows_step_elementwise, scoped_elements, scoped_filled, scoped_layer_bias,
        scoped_step_elementwise,
    };

    reveal(layer_norm_over_nothing);
}

broadcast proof fn scoped_mask(n: Run, axes: Seq<u32>)
    requires
        n.scoped(),
    ensures
        (#[trigger] mask(n, axes)).0.scoped(),
{
    broadcast use {group_grows, group_scope};

}

broadcast proof fn scoped_layer_normalized(
    n: Run,
    graph: GraphInfo,
    op: Operation,
    x: Tensor,
    bits: u32,
    epsilon: Scalar,
)
    requires
        n.scoped(),
        n.sees(x),
    ensures
        ({
            let (after, t) = #[trigger] layer_normalized(n, graph, op, x, bits, epsilon);
            after.scoped() && after.sees(t)
        }),
{
    broadcast use {
        group_grows, group_scope, grows_step_reduce, grows_step_elementwise, grows_elements,
        grows_step_constant, grows_step_unary, scoped_step_reduce, scoped_step_elementwise,
        scoped_elements, scoped_step_constant, scoped_step_unary,
    };

    reveal(layer_normalized);
}

broadcast proof fn scoped_layer_parameter(
    n: Run,
    tensor: Tensor,
    result: Tensor,
    op_name: Seq<char>,
    axes: Seq<u32>,
)
    requires
        n.scoped(),
        n.sees(tensor),
        n.sees(result),
    ensures
        ({
            let (after, t) = #[trigger] layer_parameter(n, tensor, result, op_name, axes);
            after.scoped() && after.sees(t)
        }),
{
    broadcast use {
        group_grows, group_scope, grows_step_identity, grows_step_output, scoped_step_identity,
        scoped_step_output,
    };

    reveal(layer_parameter);
}

broadcast proof fn scoped_layer_normalization_op(
    n: Run,
    m: Map<u32, Tensor>,
    graph: GraphInfo,
    op: Operation,
)
    requires
        n.scoped(),
        n.sees_map(m),
    ensures
        ({
            let (after, tensors) = #[trigger] layer_normalization_op(n, m, graph, op);
            after.scoped() && after.sees_map(tensors)
        }),
{
    broadcast use {
        group_grows, group_scope, grows_layer_norm_of_scalar, grows_layer_norm_over_nothing,
        grows_mask, grows_layer_normalized, grows_layer_parameter, grows_step_elementwise,
        scoped_layer_norm_of_scalar, scoped_layer_norm_over_nothing, scoped_mask,
        scoped_layer_normalized, scoped_layer_parameter, scoped_step_elementwise,
    };

}

broadcast proof fn scoped_over_axes(
    n: Run,
    t: Tensor,
    op: ReduceOperation,
    axes: Seq<u32>,
    keep: bool,
    add_label: Seq<char>,
    output_label: Seq<char>,
)
    requires
        n.scoped(),
        n.sees(t),
    ensures
        ({
            let (after, t) = #[trigger] over_axes(n, t, op, axes, keep, add_label, output_label);
            after.scoped() && after.sees(t)
        }),
{
    broadcast use {
        group_grows, group_scope, grows_mask, grows_step_reduce, scoped_mask,
        scoped_step_reduce,
    };

    reveal(over_axes);
}

broadcast proof fn scoped_reduce_op(
    n: Run,
    m: Map<u32, Tensor>,
    op: Operation,
    reduction: ReduceOperation,
)
    requires
        n.scoped(),
        n.sees_map(m),
    ensures
        ({
            let (after, tensors) = #[trigger] reduce_op(n, m, op, reduction);
            after.scoped() && after.sees_map(tensors)
        }),
{
    broadcast use {
        group_grows, group_scope, grows_step_identity, grows_over_axes, scoped_step_identity,
        scoped_over_axes,
    };

}

broadcast proof fn scoped_reduce_l1_op(n: Run, m: Map<u32, Tensor>, op: Operation)
    requires
        n.scoped(),
        n.sees_map(m),
    ensures
        ({
            let (after, tensors) = #[trigger] reduce_l1_op(n, m, op);
            after.scoped() && after.sees_map(tensors)
        }),
{
    broadcast use {
        group_grows, group_scope, grows_step_unary, grows_over_axes, scoped_step_unary,
        scoped_over_axes,
    };

}

broadcast proof fn scoped_reduce_l2_op(n: Run, m: Map<u32, Tensor>, graph: GraphInfo, op: Operation)
    requires
        n.scoped(),
        n.sees_map(m),
    ensures
        ({
            let (after, tensors) = #[trigger] reduce_l2_op(n, m, graph, op);
            after.scoped() && after.sees_map(tensors)
        }),
{
    broadcast use {
        group_grows, group_scope, grows_step_elementwise, grows_step_unary, grows_mask,
        grows_to_float32, grows_step_reduce, grows_to_float16, scoped_step_elementwise,
        scoped_step_unary, scoped_mask, scoped_to_float32, scoped_step_reduce,
        scoped_to_float16,
    };

}

broadcast proof fn scoped_reduce_log_sum_op(n: Run, m: Map<u32, Tensor>, op: Operation)
    requires
        n.scoped(),
        n.sees_map(m),
    ensures
        ({
            let (after, tensors) = #[trigger] reduce_log_sum_op(n, m, op);
            after.scoped() && after.sees_map(tensors)
        }),
{
    broadcast use {
        group_grows, group_scope, grows_step_unary, grows_over_axes, scoped_step_unary,
        scoped_over_axes,
    };

}

broadcast proof fn scoped_reduce_log_sum_exp_op(n: Run, m: Map<u32, Tensor>, op: Operation)
    requires
        n.scoped(),
        n.sees_map(m),
    ensures
        ({
            let (after, tensors) = #[trigger] reduce_log_sum_exp_op(n, m, op);
            after.scoped() && after.sees_map(tensors)
        }),
{
    broadcast use {
        group_grows, group_scope, grows_step_unary, grows_step_identity, grows_over_axes,
        scoped_step_unary, scoped_step_identity, scoped_over_axes,
    };

}

broadcast proof fn scoped_reduce_sum_square_op(n: Run, m: Map<u32, Tensor>, op: Operation)
    requires
        n.scoped(),
        n.sees_map(m),
    ensures
        ({
            let (after, tensors) = #[trigger] reduce_sum_square_op(n, m, op);
            after.scoped() && after.sees_map(tensors)
        }),
{
    broadcast use {
        group_grows, group_scope, grows_step_elementwise, grows_over_axes,
        scoped_step_elementwise, scoped_over_axes,
    };

}

broadcast proof fn scoped_truth_constant(n: Run, id: u32, sizes: Seq<u32>)
    requires
        n.scoped(),
    ensures
        ({
            let (after, t) = #[trigger] truth_constant(n, id, sizes);
            after.scoped() && after.sees(t)
        }),
{
    broadcast use {
        group_grows, group_scope, grows_elements, grows_step_constant, scoped_elements,
        scoped_step_constant,
    };

    reveal(truth_constant);
}

broadcast proof fn scoped_logical_not_op(
    n: Run,
    m: Map<u32, Tensor>,
    graph: GraphInfo,
    op: Operation,
)
    requires
        n.scoped(),
        n.sees_map(m),
    ensures
        ({
            let (after, tensors) = #[trigger] logical_not_op(n, m, graph, op);
            after.scoped() && after.sees_map(tensors)
        }),
{
    broadcast use {
        group_grows, group_scope, grows_truth_constant, grows_to_bool, grows_step_unary,
        grows_to_float32, scoped_truth_constant, scoped_to_bool, scoped_step_unary,
        scoped_to_float32,
    };

}

broadcast proof fn scoped_gather_indices(
    n: Run,
    indices: Tensor,
    shape: Seq<i64>,
    low: Seq<u8>,
    high: Seq<u8>,
)
    requires
        n.scoped(),
        n.sees(indices),
    ensures
        ({
            let (after, t) = #[trigger] gather_indices(n, indices, shape, low, high);
            after.scoped() && after.sees(t)
        }),
{
    broadcast use {
        group_grows, group_scope, grows_step_add_constant, grows_step_output,
        grows_step_elementwise, scoped_step_add_constant, scoped_step_output,
        scoped_step_elementwise,
    };

    reveal(gather_indices);
}

broadcast proof fn scoped_gather_op(n: Run, m: Map<u32, Tensor>, graph: GraphInfo, op: Operation)
    requires
        n.scoped(),
        n.sees_map(m),
    ensures
        ({
            let (after, tensors) = #[trigger] gather_op(n, m, graph, op);
            after.scoped() && after.sees_map(tensors)
        }),
{
    broadcast use {
        group_grows, group_scope, grows_gather_indices, grows_step_layer, scoped_gather_indices,
        scoped_step_layer,
    };

}

broadcast proof fn scoped_gather_nd_indices(
    n: Run,
    indices: Tensor,
    shape: Seq<i64>,
    low: Seq<u8>,
    high: Seq<u8>,
)
    requires
        n.scoped(),
        n.sees(indices),
    ensures
        ({
            let (after, t) = #[trigger] gather_nd_indices(n, indices, shape, low, high);
            after.scoped() && after.sees(t)
        }),
{
    broadcast use {
        group_grows, group_scope, grows_step_add_constant, grows_step_output,
        grows_step_elementwise, scoped_step_add_constant, scoped_step_output,
        scoped_step_elementwise,
    };

    reveal(gather_nd_indices);
}

broadcast proof fn scoped_gather_nd_op(n: Run, m: Map<u32, Tensor>, graph: GraphInfo, op: Operation)
    requires
        n.scoped(),
        n.sees_map(m),
    ensures
        ({
            let (after, tensors) = #[trigger] gather_nd_op(n, m, graph, op);
            after.scoped() && after.sees_map(tensors)
        }),
{
    broadcast use {
        group_grows, group_scope, grows_elements, grows_gather_nd_indices, grows_step_output,
        scoped_elements, scoped_gather_nd_indices, scoped_step_output,
    };

}

broadcast proof fn scoped_scatter_elements_op(n: Run, m: Map<u32, Tensor>, op: Operation)
    requires
        n.scoped(),
        n.sees_map(m),
    ensures
        ({
            let (after, tensors) = #[trigger] scatter_elements_op(n, m, op);
            after.scoped() && after.sees_map(tensors)
        }),
{
    broadcast use {group_grows, group_scope, grows_step_output, scoped_step_output};

}

broadcast proof fn scoped_scatter_nd_op(n: Run, m: Map<u32, Tensor>, op: Operation)
    requires
        n.scoped(),
        n.sees_map(m),
    ensures
        ({
            let (after, tensors) = #[trigger] scatter_nd_op(n, m, op);
            after.scoped() && after.sees_map(tensors)
        }),
{
    broadcast use {group_grows, group_scope, grows_step_layer, scoped_step_layer};

}

broadcast proof fn scoped_extreme_positions(
    n: Run,
    x: Tensor,
    op: TopKOperation,
    axes: u32,
    label: Seq<char>,
)
    requires
        n.scoped(),
        n.sees(x),
    ensures
        ({
            let (after, t) = #[trigger] extreme_positions(n, x, op, axes, label);
            after.scoped() && after.sees(t)
        }),
{
    broadcast use {group_grows, group_scope};

    reveal(extreme_positions);
}

broadcast proof fn scoped_arg_reduced(
    n: Run,
    graph: GraphInfo,
    id: u32,
    x: Tensor,
    axis: u32,
    keep_dims: bool,
    op: TopKOperation,
    label: Seq<char>,
)
    requires
        n.scoped(),
        n.sees(x),
    ensures
        ({
            let (after, t) = #[trigger] arg_reduced(n, graph, id, x, axis, keep_dims, op, label);
            after.scoped() && after.sees(t)
        }),
{
    broadcast use {
        group_grows, group_scope, grows_step_reshape, grows_extreme_positions,
        grows_step_transpose, scoped_step_reshape, scoped_extreme_positions,
        scoped_step_transpose,
    };

    reveal(arg_reduced);
}

broadcast proof fn scoped_arg_max_op(n: Run, m: Map<u32, Tensor>, graph: GraphInfo, op: Operation)
    requires
        n.scoped(),
        n.sees_map(m),
    ensures
        ({
            let (after, tensors) = #[trigger] arg_max_op(n, m, graph, op);
            after.scoped() && after.sees_map(tensors)
        }),
{
    broadcast use {
        group_grows, group_scope, grows_arg_reduced, grows_int32_to_float32, scoped_arg_reduced,
        scoped_int32_to_float32,
    };

}

broadcast proof fn scoped_arg_min_op(n: Run, m: Map<u32, Tensor>, graph: GraphInfo, op: Operation)
    requires
        n.scoped(),
        n.sees_map(m),
    ensures
        ({
            let (after, tensors) = #[trigger] arg_min_op(n, m, graph, op);
            after.scoped() && after.sees_map(tensors)
        }),
{
    broadcast use {
        group_grows, group_scope, grows_arg_reduced, grows_int32_to_float32, scoped_arg_reduced,
        scoped_int32_to_float32,
    };

}

broadcast proof fn scoped_clamp_op(n: Run, m: Map<u32, Tensor>, graph: GraphInfo, op: Operation)
    requires
        n.scoped(),
        n.sees_map(m),
    ensures
        ({
            let (after, tensors) = #[trigger] clamp_op(n, m, graph, op);
            after.scoped() && after.sees_map(tensors)
        }),
{
    broadcast use {
        group_grows, group_scope, grows_scalar_shape, grows_step_constant,
        grows_step_elementwise, scoped_scalar_shape, scoped_step_constant,
        scoped_step_elementwise,
    };

}

broadcast proof fn scoped_where_op(n: Run, m: Map<u32, Tensor>, graph: GraphInfo, op: Operation)
    requires
        n.scoped(),
        n.sees_map(m),
    ensures
        ({
            let (after, tensors) = #[trigger] where_op(n, m, graph, op);
            after.scoped() && after.sees_map(tensors)
        }),
{
    broadcast use {
        group_grows, group_scope, grows_static_sizes, grows_to_float32, grows_broadcast_to,
        grows_to_bool, grows_step_select, scoped_static_sizes, scoped_to_float32,
        scoped_broadcast_to, scoped_to_bool, scoped_step_select,
    };

}

broadcast proof fn scoped_pad_last_axes(
    n: Run,
    x: Tensor,
    d: Seq<i64>,
    pre: Seq<i32>,
    post: Seq<i32>,
)
    requires
        n.scoped(),
        n.sees(x),
    ensures
        ({
            let (after, t) = #[trigger] pad_last_axes(n, x, d, pre, post);
            after.scoped() && after.sees(t)
        }),
{
    broadcast use {
        group_grows, group_scope, grows_step_reshape, grows_step_identity, grows_step_padding,
        scoped_step_reshape, scoped_step_identity, scoped_step_padding,
    };

    reveal(pad_last_axes);
}

broadcast proof fn scoped_pad_axis_edge(n: Run, x: Tensor, axis: nat, pre: i32, post: i32)
    requires
        n.scoped(),
        n.sees(x),
    ensures
        ({
            let (after, t) = #[trigger] pad_axis_edge(n, x, axis, pre, post);
            after.scoped() && after.sees(t)
        }),
{
    broadcast use {
        group_grows, group_scope, grows_step_identity, grows_slab, grows_step_concat,
        scoped_step_identity, scoped_slab, scoped_step_concat,
    };

    reveal(pad_axis_edge);
}

broadcast proof fn scoped_slabs(
    n: Run,
    x: Tensor,
    d: Seq<i64>,
    axis: nat,
    positions: Seq<i64>,
    k: nat,
    add_label: Seq<char>,
    output_label: Seq<char>,
)
    requires
        n.scoped(),
        n.sees(x),
    ensures
        ({
            let (after, list) = #[trigger] slabs(
                n, x, d, axis, positions, k, add_label, output_label,
            );
            after.scoped() && after.sees_all(list)
        }),
    decreases k,
{
    broadcast use {group_grows, group_scope, grows_slab, scoped_slab, grows_slabs};

    if k > 0 {
        scoped_slabs(n, x, d, axis, positions, (k - 1) as nat, add_label, output_label);
    }
}

broadcast proof fn scoped_pad_axis_reflect(n: Run, x: Tensor, axis: nat, pre: i32, post: i32)
    requires
        n.scoped(),
        n.sees(x),
    ensures
        ({
            let (after, t) = #[trigger] pad_axis_reflect(n, x, axis, pre, post);
            after.scoped() && after.sees(t)
        }),
{
    broadcast use {
        group_grows, group_scope, grows_step_identity, grows_slabs, grows_step_concat,
        scoped_step_identity, scoped_slabs, scoped_step_concat,
    };

    reveal(pad_axis_reflect);
}

broadcast proof fn scoped_filler(
    n: Run,
    d: Seq<i64>,
    axis: nat,
    extent: i32,
    unit: Seq<u8>,
    dtype: TrtDataType,
)
    requires
        n.scoped(),
    ensures
        ({
            let (after, t) = #[trigger] filler(n, d, axis, extent, unit, dtype);
            after.scoped() && after.sees(t)
        }),
{
    broadcast use {
        group_grows, group_scope, grows_elements, grows_step_constant, scoped_elements,
        scoped_step_constant,
    };

    reveal(filler);
}

broadcast proof fn scoped_pad_axis_constant(
    n: Run,
    x: Tensor,
    axis: nat,
    pre: i32,
    post: i32,
    fill: FloatReading,
)
    requires
        n.scoped(),
        n.sees(x),
    ensures
        ({
            let (after, t) = #[trigger] pad_axis_constant(n, x, axis, pre, post, fill);
            after.scoped() && after.sees(t)
        }),
{
    broadcast use {
        group_grows, group_scope, grows_step_identity, grows_filler, grows_step_concat,
        scoped_step_identity, scoped_filler, scoped_step_concat,
    };

    reveal(pad_axis_constant);
}

broadcast proof fn scoped_pad_axis(
    n: Run,
    x: Tensor,
    axis: nat,
    pre: i32,
    post: i32,
    mode: PadMode,
    fill: FloatReading,
)
    requires
        n.scoped(),
        n.sees(x),
    ensures
        ({
            let (after, t) = #[trigger] pad_axis(n, x, axis, pre, post, mode, fill);
            after.scoped() && after.sees(t)
        }),
{
    broadcast use {
        group_grows, group_scope, grows_pad_axis_edge, grows_pad_axis_reflect,
        grows_pad_axis_constant, scoped_pad_axis_edge, scoped_pad_axis_reflect,
        scoped_pad_axis_constant,
    };

    reveal(pad_axis);
}

broadcast proof fn scoped_pad_axes(
    n: Run,
    x: Tensor,
    pre: Seq<i32>,
    post: Seq<i32>,
    k: nat,
    mode: PadMode,
    fill: FloatReading,
)
    requires
        n.scoped(),
        n.sees(x),
    ensures
        ({
            let (after, t) = #[trigger] pad_axes(n, x, pre, post, k, mode, fill);
            after.scoped() && after.sees(t)
        }),
    decreases k,
{
    broadcast use {group_grows, group_scope, grows_pad_axis, scoped_pad_axis, grows_pad_axes};

    if k > 0 {
        scoped_pad_axes(n, x, pre, post, (k - 1) as nat, mode, fill);
    }
}

broadcast proof fn scoped_pad_op(n: Run, m: Map<u32, Tensor>, op: Operation)
    requires
        n.scoped(),
        n.sees_map(m),
    ensures
        ({
            let (after, tensors) = #[trigger] pad_op(n, m, op);
            after.scoped() && after.sees_map(tensors)
        }),
{
    broadcast use {
        group_grows, group_scope, grows_step_identity, grows_pad_last_axes, grows_pad_axes,
        scoped_step_identity, scoped_pad_last_axes, scoped_pad_axes,
    };

}

broadcast proof fn scoped_softmax_op(n: Run, m: Map<u32, Tensor>, op: Operation)
    requires
        n.scoped(),
        n.sees_map(m),
    ensures
        ({
            let (after, tensors) = #[trigger] softmax_op(n, m, op);
            after.scoped() && after.sees_map(tensors)
        }),
{
    broadcast use {group_grows, group_scope, grows_step_layer, scoped_step_layer};

}

broadcast proof fn scoped_gather_elements_indices(
    n: Run,
    indices: Tensor,
    shape: Seq<i64>,
    low: Seq<u8>,
    high: Seq<u8>,
)
    requires
        n.scoped(),
        n.sees(indices),
    ensures
        ({
            let (after, t) = #[trigger] gather_elements_indices(n, indices, shape, low, high);
            after.scoped() && after.sees(t)
        }),
{
    broadcast use {
        group_grows, group_scope, grows_step_add_constant, grows_step_output,
        grows_step_elementwise, scoped_step_add_constant, scoped_step_output,
        scoped_step_elementwise,
    };

    reveal(gather_elements_indices);
}

broadcast proof fn scoped_gather_elements_op(
    n: Run,
    m: Map<u32, Tensor>,
    graph: GraphInfo,
    op: Operation,
)
    requires
        n.scoped(),
        n.sees_map(m),
    ensures
        ({
            let (after, tensors) = #[trigger] gather_elements_op(n, m, graph, op);
            after.scoped() && after.sees_map(tensors)
        }),
{
    broadcast use {
        group_grows, group_scope, grows_gather_elements_indices, grows_step_output,
        scoped_gather_elements_indices, scoped_step_output,
    };

}

broadcast proof fn scoped_l2_pool_dilated(
    n: Run,
    x: Tensor,
    output: u32,
    plan: PoolPlan,
    window: (u32, u32),
)
    requires
        n.scoped(),
        n.sees(x),
    ensures
        ({
            let (after, t) = #[trigger] l2_pool_dilated(n, x, output, plan, window);
            after.scoped() && after.sees(t)
        }),
{
    broadcast use {group_grows, group_scope, grows_dilated_pool, scoped_dilated_pool};

    reveal(l2_pool_dilated);
}

broadcast proof fn scoped_summed_squares(
    n: Run,
    x: Tensor,
    output: u32,
    plan: PoolPlan,
    window: (u32, u32),
    half: bool,
)
    requires
        n.scoped(),
        n.sees(x),
    ensures
        ({
            let (after, t) = #[trigger] summed_squares(n, x, output, plan, window, half);
            after.scoped() && after.sees(t)
        }),
{
    broadcast use {
        group_grows, group_scope, grows_rounds_up, grows_pool_settings, grows_step_output,
        grows_step_cast, grows_step_add_owned_constant, grows_step_elementwise,
        scoped_rounds_up, scoped_pool_settings, scoped_step_output, scoped_step_cast,
        scoped_step_add_owned_constant, scoped_step_elementwise,
    };

    reveal(summed_squares);
}

broadcast proof fn scoped_l2_pool2d_op(n: Run, m: Map<u32, Tensor>, graph: GraphInfo, op: Operation)
    requires
        n.scoped(),
        n.sees_map(m),
    ensures
        ({
            let (after, tensors) = #[trigger] l2_pool2d_op(n, m, graph, op);
            after.scoped() && after.sees_map(tensors)
        }),
{
    broadcast use {
        group_grows, group_scope, grows_step_elementwise, grows_pool_window,
        grows_channels_second, grows_step_cast, grows_l2_pool_dilated, grows_summed_squares,
        grows_channels_last, grows_step_unary, scoped_step_elementwise, scoped_pool_window,
        scoped_channels_second, scoped_step_cast, scoped_l2_pool_dilated, scoped_summed_squares,
        scoped_channels_last, scoped_step_unary,
    };

}

broadcast proof fn scoped_cumulative_sum_op(
    n: Run,
    m: Map<u32, Tensor>,
    graph: GraphInfo,
    op: Operation,
)
    requires
        n.scoped(),
        n.sees_map(m),
    ensures
        ({
            let (after, tensors) = #[trigger] cumulative_sum_op(n, m, graph, op);
            after.scoped() && after.sees_map(tensors)
        }),
{
    broadcast use {
        group_grows, group_scope, grows_step_constant, grows_step_layer, scoped_step_constant,
        scoped_step_layer,
    };

}

broadcast proof fn scoped_triangular_op(
    n: Run,
    m: Map<u32, Tensor>,
    graph: GraphInfo,
    op: Operation,
)
    requires
        n.scoped(),
        n.sees_map(m),
    ensures
        ({
            let (after, tensors) = #[trigger] triangular_op(n, m, graph, op);
            after.scoped() && after.sees_map(tensors)
        }),
{
    broadcast use {
        group_grows, group_scope, grows_step_add_owned_constant, grows_step_output,
        grows_step_elementwise, scoped_step_add_owned_constant, scoped_step_output,
        scoped_step_elementwise,
    };

}

broadcast proof fn scoped_operation_added(
    n: Run,
    m: Map<u32, Tensor>,
    graph: GraphInfo,
    op: Operation,
    promoted: Set<u32>,
)
    requires
        n.scoped(),
        n.sees_map(m),
    ensures
        ({
            let (after, tensors) = #[trigger] operation_added(n, m, graph, op, promoted);
            after.scoped() && after.sees_map(tensors)
        }),
{
    broadcast use {
        group_grows, group_scope, grows_elementwise_op, grows_activation_op, grows_elu_op,
        grows_leaky_relu_op, grows_prelu_op, grows_hard_sigmoid_op, grows_hard_swish_op,
        grows_unary_op, grows_identity_op, grows_cast_op, grows_quantize_linear_op,
        grows_dequantize_linear_op, grows_matmul_op, grows_gemm_op, grows_conv2d_op,
        grows_conv_transpose2d_op, grows_pooling_op, grows_global_pooling_op,
        grows_batch_normalization_op, grows_instance_normalization_op,
        grows_layer_normalization_op, grows_reduce_op, grows_reduce_l1_op, grows_reduce_l2_op,
        grows_reduce_log_sum_op, grows_reduce_log_sum_exp_op, grows_reduce_sum_square_op,
        grows_slice_op, grows_split_op, grows_squeeze_op, grows_unsqueeze_op, grows_expand_op,
        grows_tile_op, grows_comparison_op, grows_greater_or_equal_op, grows_lesser_or_equal_op,
        grows_not_equal_op, grows_logical_binary_op, grows_logical_not_op, grows_gather_op,
        grows_gather_nd_op, grows_scatter_elements_op, grows_scatter_nd_op, grows_arg_max_op,
        grows_arg_min_op, grows_clamp_op, grows_where_op, grows_linear_op, grows_pad_op,
        grows_softmax_op, grows_concat_op, grows_is_nan_op, grows_is_infinite_op,
        grows_round_even_op, grows_gather_elements_op, grows_l2_pool2d_op, grows_reverse_op,
        grows_cumulative_sum_op, grows_triangular_op, grows_transpose_op, grows_reshape_op,
        grows_resample2d_op, scoped_elementwise_op, scoped_activation_op, scoped_elu_op,
        scoped_leaky_relu_op, scoped_prelu_op, scoped_hard_sigmoid_op, scoped_hard_swish_op,
        scoped_unary_op, scoped_identity_op, scoped_cast_op, scoped_quantize_linear_op,
        scoped_dequantize_linear_op, scoped_matmul_op, scoped_gemm_op, scoped_conv2d_op,
        scoped_conv_transpose2d_op, scoped_pooling_op, scoped_global_pooling_op,
        scoped_batch_normalization_op, scoped_instance_normalization_op,
        scoped_layer_normalization_op, scoped_reduce_op, scoped_reduce_l1_op,
        scoped_reduce_l2_op, scoped_reduce_log_sum_op, scoped_reduce_log_sum_exp_op,
        scoped_reduce_sum_square_op, scoped_slice_op, scoped_split_op, scoped_squeeze_op,
        scoped_unsqueeze_op, scoped_expand_op, scoped_tile_op, scoped_comparison_op,
        scoped_greater_or_equal_op, scoped_lesser_or_equal_op, scoped_not_equal_op,
        scoped_logical_binary_op, scoped_logical_not_op, scoped_gather_op, scoped_gather_nd_op,
        scoped_scatter_elements_op, scoped_scatter_nd_op, scoped_arg_max_op, scoped_arg_min_op,
        scoped_clamp_op, scoped_where_op, scoped_linear_op, scoped_pad_op, scoped_softmax_op,
        scoped_concat_op, scoped_is_nan_op, scoped_is_infinite_op, scoped_round_even_op,
        scoped_gather_elements_op, scoped_l2_pool2d_op, scoped_reverse_op,
        scoped_cumulative_sum_op, scoped_triangular_op, scoped_transpose_op, scoped_reshape_op,
        scoped_resample2d_op,
    };

    reveal(operation_added);
}

broadcast proof fn scoped_input_added(n: Run, m: Map<u32, Tensor>, graph: GraphInfo, k: nat)
    requires
        n.scoped(),
        n.sees_map(m),
    ensures
        ({
            let (after, tensors) = #[trigger] input_added(n, m, graph, k);
            after.scoped() && after.sees_map(tensors)
        }),
{
    broadcast use {group_grows, group_scope};

}

broadcast proof fn scoped_constant_added(n: Run, m: Map<u32, Tensor>, graph: GraphInfo, k: nat)
    requires
        n.scoped(),
        n.sees_map(m),
    ensures
        ({
            let (after, tensors) = #[trigger] constant_added(n, m, graph, k);
            after.scoped() && after.sees_map(tensors)
        }),
{
    broadcast use {group_grows, group_scope, grows_step_output, scoped_step_output};

}

broadcast proof fn scoped_output_marked(n: Run, m: Map<u32, Tensor>, graph: GraphInfo, k: nat)
    requires
        n.scoped(),
        n.sees_map(m),
    ensures
        ({
            let (after, tensors) = #[trigger] output_marked(n, m, graph, k);
            after.scoped() && after.sees_map(tensors)
        }),
{
    broadcast use {group_grows, group_scope};

}

broadcast proof fn scoped_stage_done(n: Run, m: Map<u32, Tensor>, graph: GraphInfo, stage: Stage)
    requires
        n.scoped(),
        n.sees_map(m),
    ensures
        ({
            let (after, tensors) = #[trigger] stage_done(n, m, graph, stage);
            after.scoped() && after.sees_map(tensors)
        }),
{
    broadcast use {
        group_grows, group_scope, grows_input_added, grows_constant_added,
        grows_operation_added, grows_output_marked, scoped_input_added, scoped_constant_added,
        scoped_operation_added, scoped_output_marked,
    };

}

broadcast proof fn scoped_built_from(n: Run, m: Map<u32, Tensor>, graph: GraphInfo, stage: Stage)
    requires
        n.scoped(),
        n.sees_map(m),
    ensures
        ({
            let (after, tensors) = #[trigger] built_from(n, m, graph, stage);
            after.scoped() && after.sees_map(tensors)
        }),
    decreases steps_left(graph, stage),
{
    broadcast use {group_grows, group_scope, grows_stage_done, scoped_stage_done, grows_built_from};

    if stage != Stage::Complete {
        let (after, tensors) = stage_done(n, m, graph, stage);
        scoped_built_from(after, tensors, graph, next_stage(graph, stage));
    }
}

broadcast proof fn scoped_network_built(n: Run, graph: GraphInfo)
    requires
        n.scoped(),
    ensures
        ({
            let (after, tensors) = #[trigger] network_built(n, graph);
            after.scoped() && after.sees_map(tensors)
        }),
{
    broadcast use {group_grows, group_scope, grows_built_from, scoped_built_from};

}

/// An operation names only layers and tensors that answered earlier requests, and gives only such
/// tensors to its outputs.
pub proof fn operation_is_scoped(
    n: Run,
    m: Map<u32, Tensor>,
    graph: GraphInfo,
    op: Operation,
    promoted: Set<u32>,
)
    requires
        n.scoped(),
        n.sees_map(m),
    ensures
        ({
            let (after, tensors) = operation_added(n, m, graph, op, promoted);
            after.scoped() && after.sees_map(tensors)
        }),
{
    broadcast use scoped_operation_added;

}

/// A step of a conversion names only layers and tensors that answered earlier requests, and keeps
/// only such tensors.
pub proof fn stage_is_scoped(n: Run, m: Map<u32, Tensor>, graph: GraphInfo, stage: Stage)
    requires
        n.scoped(),
        n.sees_map(m),
    ensures
        ({
            let (after, tensors) = stage_done(n, m, graph, stage);
            after.scoped() && after.sees_map(tensors)
        }),
{
    broadcast use scoped_stage_done;

}

/// A conversion names only layers and tensors that answered earlier requests, whatever the replies
/// are.
pub proof fn conversion_is_scoped(replies: Seq<ReplyView>, graph: GraphInfo)
    ensures
        network_built(begun(replies), graph).0.scoped(),
{
    broadcast use scoped_network_built;

    reveal(Run::scoped);
}

/// The tensors that a conversion keeps while it goes on answered requests that were made.
pub proof fn seen_is_known(n: Run, m: Map<u32, Tensor>)
    requires
        n.sees_map(m),
        n.goes_on(),
    ensures
        all_known(n, m),
{
    reveal(Run::sees);
}

} // verus!
