//! The formulas of the operations that work by several layers: reductions, normalizations, matrix
//! products and the like.

use crate::data_type::DataType;
use crate::graph::{max_sizes, size_of_dim, GraphInfo};
use crate::operators::Operation;
use crate::scalar::{
    exceeds, float_bytes, float_type, is_nan, known, le4, near_one, product_bits, repeated,
    roughly_one, Known, Scalar, ONE_MILLIONTH, SINGLE_EPSILON,
};
use crate::text::decimal;
use crate::trtx::arrange::{expand_op, narrow_dims, wanted_shape};
use crate::trtx::broadcast::{
    as_dims, broadcast_pair, broadcast_to, first_conflict, joint_dims, left_padded, must_stretch,
};
use crate::trtx::elementwise::{
    activation_op, identity_op, is_eight_bit, is_infinite_op, linear_coefficients, linear_op,
    logical_binary_op, prelu_op, round_even_op, trt_float_bytes, unary_op,
};
use crate::trtx::growth::{
    group_grows, grows_broadcast_to, grows_byte_values, grows_bytes_to_float, grows_channel_stats,
    grows_channels_last, grows_channels_second, grows_clamped_to, grows_dequantize_zero,
    grows_elements, grows_filled, grows_floats_to_int32, grows_gather_elements_indices,
    grows_gather_indices, grows_gather_nd_indices, grows_guarded_variance, grows_in_type,
    grows_instance_normalized, grows_is_scalar, grows_layer_bias, grows_layer_normalized,
    grows_layer_parameter, grows_mask, grows_over_axes, grows_pool_settings, grows_pool_window,
    grows_promoted, grows_quantized, grows_raised, grows_rounds_up, grows_scaled,
    grows_static_sizes, grows_step_add_owned_constant, grows_step_dequantize, grows_step_identity,
    grows_step_matrix_multiply, grows_step_named_layer, grows_step_output, grows_step_reshape,
    grows_step_resize, grows_step_select, grows_step_transpose, grows_summed,
    grows_summed_squares, grows_to_bool, grows_to_float16, grows_to_float32, grows_truth_constant,
    grows_with_axis,
};
use crate::trtx::matrix::{
    gemm_forms, gemm_op, gemm_terms, matmul_op, raised, scaled, summed, type_or_float,
};
use crate::trtx::meaning::{
    active, as_float, both, constant_of, group_means, input, layer_is_kept, means_ask,
    means_dequantize, means_layer_output, means_matrix_multiply, means_named_layer, means_reshape,
    means_resize, means_select, means_transpose, of, result, term_is_kept, went_on, went_through,
    Term,
};
use crate::trtx::normalization::{
    batch_axis, batch_epsilon, batch_normalization_op, batch_scale_bias, channel_stats, filled,
    guarded_variance, instance_epsilon, instance_nchw, instance_normalization_op,
    instance_normalized, instance_scale_bias, layer_axes, layer_bias, layer_norm_of_scalar,
    layer_norm_over_nothing, layer_normalization_op, layer_normalized, layer_options,
    layer_parameter,
};
use crate::trtx::pad::not_below_zero;
use crate::trtx::pool::{
    channels_last, channels_second, global_pooling_op, l2_pool2d_op, pool_plan, pool_window,
    pooling_op, summed_squares, PoolPlan,
};
use crate::trtx::quantize::{
    byte_values, bytes_to_float, cast_op, clamped_to, dequantize_linear_op, dequantize_zero,
    float_only, floats_to_int32, group_quantize_stopped, in_type, is_byte, logical_not_op,
    quantized, quantized_range, unsigned_reading, with_axis,
};
use crate::trtx::reduce::{
    over_axes, reduce_axes, reduce_l1_op, reduce_l2_op, reduce_log_sum_exp_op, reduce_log_sum_op,
    reduce_op, reduce_sum_square_op,
};
use crate::trtx::select::{
    bound_bytes, clamp_bounds, clamp_op, gather_axis, gather_elements_indices, gather_elements_op,
    gather_indices, gather_nd_indices, gather_nd_op, gather_op, index_bounds, mask_bytes,
    mask_count, range_bytes, small_product, triangle_plan, triangular_op, where_op,
};
use crate::trtx::session::{group_stopped, ReplyOf, ReplyView, RequestOf, RequestView, Run};
use crate::trtx::shapes::{axes_mask, elements, extent_product, mask};
use crate::trtx::steps::group_layers_stopped;
use crate::trtx::types::{
    trt_type, ActivationType, ElementWiseOperation, Layer, MatrixOperation, PoolingType,
    ReduceOperation, Tensor, TrtDataType, UnaryOperation,
};
use vstd::prelude::*;

verus! {

/// An activation is that function of the input.
pub proof fn activation_means(n: Run, m: Map<u32, Tensor>, op: Operation, kind: ActivationType)
    requires
        went_through(n, m, activation_op(n, m, op, kind)),
    ensures
        result(op, activation_op(n, m, op, kind)) == active(kind, input(n, m, op, 0)),
{
    broadcast use {group_grows, group_means};

}

/// A unary operation is that function of the input.
pub proof fn unary_means(n: Run, m: Map<u32, Tensor>, op: Operation, code: UnaryOperation)
    requires
        went_through(n, m, unary_op(n, m, op, code)),
    ensures
        result(op, unary_op(n, m, op, code)) == of(code, input(n, m, op, 0)),
{
    broadcast use {group_grows, group_means};

}

/// An identity passes its input through.
pub proof fn identity_means(n: Run, m: Map<u32, Tensor>, op: Operation)
    requires
        went_through(n, m, identity_op(n, m, op)),
    ensures
        result(op, identity_op(n, m, op)) == input(n, m, op, 0),
{
    broadcast use {group_grows, group_means};

}

/// Rounding halves to even is what TensorRT calls rounding.
pub proof fn round_even_means(n: Run, m: Map<u32, Tensor>, op: Operation)
    requires
        went_through(n, m, round_even_op(n, m, op)),
    ensures
        result(op, round_even_op(n, m, op)) == of(UnaryOperation::kROUND, input(n, m, op, 0)),
{
    broadcast use {group_grows, group_means};

}

/// A parametric rectifier multiplies what is negative by the slope.
pub proof fn prelu_means(n: Run, m: Map<u32, Tensor>, op: Operation)
    requires
        went_through(n, m, prelu_op(n, m, op)),
    ensures
        result(op, prelu_op(n, m, op)) == Term::Sloped(
            Box::new(input(n, m, op, 0)),
            Box::new(input(n, m, op, 1)),
        ),
{
    broadcast use {group_grows, group_means};

}

/// A linear function is `alpha * x + beta`; a factor of 1 and a summand of 0 leave no trace.
pub proof fn linear_means(n: Run, m: Map<u32, Tensor>, graph: GraphInfo, op: Operation)
    requires
        went_through(n, m, linear_op(n, m, graph, op)),
    ensures
        ({
            let x = input(n, m, op, 0);
            let (alpha, beta) = linear_coefficients(op.kind);
            let product = if near_one(alpha.single) || is_nan(alpha.single) {
                x
            } else {
                both(ElementWiseOperation::kPROD, x, constant_of(graph, op, alpha))
            };
            result(op, linear_op(n, m, graph, op)) == if exceeds(beta.single, SINGLE_EPSILON) {
                both(ElementWiseOperation::kSUM, product, constant_of(graph, op, beta))
            } else {
                product
            }
        }),
{
    broadcast use {group_grows, group_means};

}

/// Truth values of a term: whether an element is other than 0.
pub open spec fn as_bool(a: Term) -> Term {
    Term::Cast(TrtDataType::kBOOL, Box::new(a))
}

/// The operand of a logical operation, which comes as floats.
pub open spec fn logical_input(
    n: Run,
    m: Map<u32, Tensor>,
    graph: GraphInfo,
    op: Operation,
    i: int,
) -> Term {
    let x = input(n, m, op, i);
    as_bool(
        if is_eight_bit(graph, op.inputs@[i]) {
            as_float(x)
        } else {
            x
        },
    )
}

/// A logical operation combines the truth values of its inputs and gives ones and zeros in `f32`.
pub proof fn logical_binary_means(
    n: Run,
    m: Map<u32, Tensor>,
    graph: GraphInfo,
    op: Operation,
    code: ElementWiseOperation,
)
    requires
        went_through(n, m, logical_binary_op(n, m, graph, op, code)),
    ensures
        result(op, logical_binary_op(n, m, graph, op, code)) == as_float(
            both(
                code,
                logical_input(n, m, graph, op, 0),
                logical_input(n, m, graph, op, 1),
            ),
        ),
{
    broadcast use {
        group_grows, group_means, grows_promoted, grows_to_bool, grows_to_float32,
    };

}

/// An element is infinite where its absolute value equals infinity.
pub proof fn is_infinite_means(n: Run, m: Map<u32, Tensor>, op: Operation)
    requires
        went_through(n, m, is_infinite_op(n, m, op)),
    ensures
        exists|ty: TrtDataType|
            (ty == TrtDataType::kHALF || ty == TrtDataType::kFLOAT) && result(
                op,
                is_infinite_op(n, m, op),
            ) == as_float(
                both(
                    ElementWiseOperation::kEQUAL,
                    of(UnaryOperation::kABS, input(n, m, op, 0)),
                    #[trigger] infinity(ty),
                ),
            ),
{
    broadcast use {group_grows, group_means, grows_to_float32};

    let (after, abs) = n.unary(
        m[op.inputs@[0]],
        UnaryOperation::kABS,
        "Failed to create ABS layer for isInfinite: "@,
        "Failed to get ABS output: "@,
    );
    let (after, _) = after.dims(abs, "isInfinite: abs output dimensions: "@);
    let ty = after.dtype(abs);
    assert(result(op, is_infinite_op(n, m, op)) == as_float(
        both(
            ElementWiseOperation::kEQUAL,
            of(UnaryOperation::kABS, input(n, m, op, 0)),
            infinity(ty),
        ),
    ));
}

/// Infinity as a constant.
pub open spec fn infinity(ty: TrtDataType) -> Term {
    Term::Constant(trt_float_bytes(known(Known::Infinity), ty), ty)
}

/// A clamp is `max(lower, min(x, upper))`.
pub proof fn clamp_means(n: Run, m: Map<u32, Tensor>, graph: GraphInfo, op: Operation)
    requires
        went_through(n, m, clamp_op(n, m, graph, op)),
    ensures
        ({
            let x = input(n, m, op, 0);
            let t = graph.operands@[op.inputs@[0] as int].descriptor.data_type;
            let (lower, upper) = clamp_bounds(op.kind);
            result(op, clamp_op(n, m, graph, op)) == both(
                ElementWiseOperation::kMAX,
                Term::Constant(bound_bytes(lower, t, false), trt_type(t)),
                both(
                    ElementWiseOperation::kMIN,
                    x,
                    Term::Constant(bound_bytes(upper, t, true), trt_type(t)),
                ),
            )
        }),
{
    broadcast use {group_grows, group_means};

}

/// A constant filled with one number, in the element type `t`.
pub open spec fn filled_with(x: Scalar, t: DataType, count: nat) -> Term {
    Term::Constant(repeated(float_bytes(x, t), count), float_type(t))
}

/// An expansion multiplies the input by ones of the new shape.
pub proof fn expand_means(n: Run, m: Map<u32, Tensor>, graph: GraphInfo, op: Operation)
    requires
        went_through(n, m, expand_op(n, m, graph, op)),
    ensures
        exists|count: nat|
            result(op, expand_op(n, m, graph, op)) == both(
                ElementWiseOperation::kPROD,
                input(n, m, op, 0),
                #[trigger] filled_with(
                    known(Known::One),
                    graph.operands@[op.inputs@[0] as int].descriptor.data_type,
                    count,
                ),
            ),
{
    broadcast use {group_grows, group_means, grows_elements};

    let product = elements(n, not_below_zero(narrow_dims(wanted_shape(op.kind)))).1;
    let count = if product == 0 {
        1nat
    } else {
        product
    };
    let t = graph.operands@[op.inputs@[0] as int].descriptor.data_type;
    assert(result(op, expand_op(n, m, graph, op)) == both(
        ElementWiseOperation::kPROD,
        input(n, m, op, 0),
        filled_with(known(Known::One), t, count),
    ));
}

pub(crate) broadcast proof fn means_over_axes(
    n: Run,
    t: Tensor,
    op: ReduceOperation,
    axes: Seq<u32>,
    keep: bool,
    add_label: Seq<char>,
    output_label: Seq<char>,
)
    requires
        over_axes(n, t, op, axes, keep, add_label, output_label).0.goes_on(),
        n.has(t),
    ensures
        ({
            let (after, r) = #[trigger] over_axes(n, t, op, axes, keep, add_label, output_label);
            &&& after.has(r)
            &&& axes_mask(axes) is Some
            &&& after.term(r) == Term::Reduce(op, axes_mask(axes)->0, Box::new(n.term(t)))
        }),
{
    broadcast use {group_grows, group_means, grows_mask};

    reveal(over_axes);
}

/// A term reduced over axes; over none it is the term itself.
pub open spec fn reduced(op: ReduceOperation, axes: Seq<u32>, x: Term) -> Term {
    if axes.len() == 0 {
        x
    } else {
        Term::Reduce(op, axes_mask(axes)->0, Box::new(x))
    }
}

/// A reduction reduces its input over the given axes, and over all of them where none are given.
pub proof fn reduce_means(n: Run, m: Map<u32, Tensor>, op: Operation, code: ReduceOperation)
    requires
        went_through(n, m, reduce_op(n, m, op, code)),
    ensures
        exists|rank: nat|
            result(op, reduce_op(n, m, op, code)) == reduced(
                code,
                #[trigger] reduce_axes(op.kind, rank),
                input(n, m, op, 0),
            ),
{
    broadcast use {group_grows, group_means, means_over_axes, grows_over_axes};

}

/// The L1 norm is the sum of absolute values.
pub proof fn reduce_l1_means(n: Run, m: Map<u32, Tensor>, op: Operation)
    requires
        went_through(n, m, reduce_l1_op(n, m, op)),
    ensures
        exists|rank: nat|
            result(op, reduce_l1_op(n, m, op)) == reduced(
                ReduceOperation::kSUM,
                #[trigger] reduce_axes(op.kind, rank),
                of(UnaryOperation::kABS, input(n, m, op, 0)),
            ),
{
    broadcast use {group_grows, group_means, means_over_axes, grows_over_axes};

}

/// The sum of squares, over no axis the square.
pub proof fn reduce_sum_square_means(n: Run, m: Map<u32, Tensor>, op: Operation)
    requires
        went_through(n, m, reduce_sum_square_op(n, m, op)),
    ensures
        exists|rank: nat|
            result(op, reduce_sum_square_op(n, m, op)) == reduced(
                ReduceOperation::kSUM,
                #[trigger] reduce_axes(op.kind, rank),
                both(ElementWiseOperation::kPROD, input(n, m, op, 0), input(n, m, op, 0)),
            ),
{
    broadcast use {group_grows, group_means, means_over_axes, grows_over_axes};

}

/// The logarithm of the sum.
pub proof fn reduce_log_sum_means(n: Run, m: Map<u32, Tensor>, op: Operation)
    requires
        went_through(n, m, reduce_log_sum_op(n, m, op)),
    ensures
        exists|rank: nat|
            result(op, reduce_log_sum_op(n, m, op)) == of(
                UnaryOperation::kLOG,
                reduced(
                    ReduceOperation::kSUM,
                    #[trigger] reduce_axes(op.kind, rank),
                    input(n, m, op, 0),
                ),
            ),
{
    broadcast use {group_grows, group_means, means_over_axes, grows_over_axes};

}

/// The logarithm of the sum of exponentials, over no axis the input itself.
pub proof fn reduce_log_sum_exp_means(n: Run, m: Map<u32, Tensor>, op: Operation)
    requires
        went_through(n, m, reduce_log_sum_exp_op(n, m, op)),
    ensures
        exists|rank: nat|
            ({
                let axes = #[trigger] reduce_axes(op.kind, rank);
                let x = input(n, m, op, 0);
                result(op, reduce_log_sum_exp_op(n, m, op)) == if axes.len() == 0 {
                    x
                } else {
                    of(
                        UnaryOperation::kLOG,
                        reduced(ReduceOperation::kSUM, axes, of(UnaryOperation::kEXP, x)),
                    )
                }
            }),
{
    broadcast use {group_grows, group_means, means_over_axes, grows_over_axes};

}

/// The L2 norm is the square root of the sum of squares. The sum is taken in `f32`, and goes back to
/// half precision where the input has it.
pub proof fn reduce_l2_means(n: Run, m: Map<u32, Tensor>, graph: GraphInfo, op: Operation)
    requires
        went_through(n, m, reduce_l2_op(n, m, graph, op)),
    ensures
        exists|rank: nat|
            ({
                let axes = #[trigger] reduce_axes(op.kind, rank);
                let x = input(n, m, op, 0);
                let square = both(ElementWiseOperation::kPROD, x, x);
                let root = of(
                    UnaryOperation::kSQRT,
                    reduced(ReduceOperation::kSUM, axes, as_float(square)),
                );
                result(op, reduce_l2_op(n, m, graph, op)) == if axes.len() == 0 {
                    of(UnaryOperation::kSQRT, square)
                } else if type_or_float(graph, op.inputs@[0]) == DataType::Float16 {
                    Term::Cast(TrtDataType::kHALF, Box::new(root))
                } else {
                    root
                }
            }),
{
    broadcast use {
        group_grows, group_means, grows_mask, grows_to_float32, grows_to_float16,
    };

}

/// What is centered, over the square root of the guarded variance.
pub open spec fn normalized(centered: Term, variance: Term, guard: Term) -> Term {
    both(
        ElementWiseOperation::kDIV,
        centered,
        of(UnaryOperation::kSQRT, both(ElementWiseOperation::kSUM, variance, guard)),
    )
}

/// A term times the scale plus the bias, where they are given.
pub open spec fn adjusted(
    n: Run,
    m: Map<u32, Tensor>,
    t: Term,
    scale: Option<u32>,
    bias: Option<u32>,
) -> Term {
    let t = match scale {
        Some(id) => both(ElementWiseOperation::kPROD, t, n.term(m[id])),
        None => t,
    };
    match bias {
        Some(id) => both(ElementWiseOperation::kSUM, t, n.term(m[id])),
        None => t,
    }
}

pub(crate) broadcast proof fn means_channel_stats(
    n: Run,
    stats: Tensor,
    input: Tensor,
    axis: i64,
    op_name: Seq<char>,
)
    requires
        channel_stats(n, stats, input, axis, op_name).0.goes_on(),
        n.has(stats),
    ensures
        ({
            let (after, t) = #[trigger] channel_stats(n, stats, input, axis, op_name);
            after.has(t) && after.term(t) == n.term(stats)
        }),
{
    broadcast use {
        group_grows, group_means, means_reshape, means_transpose, grows_step_reshape,
        grows_step_transpose,
    };

    reveal(channel_stats);
}

/// The element type of the first operand of an operation.
pub open spec fn first_type(graph: GraphInfo, op: Operation) -> DataType {
    graph.operands@[op.inputs@[0] as int].descriptor.data_type
}

proof fn means_guarded_variance(
    n: Run,
    graph: GraphInfo,
    op: Operation,
    variance: Tensor,
    epsilon: Scalar,
) -> (count: nat)
    requires
        guarded_variance(n, graph, op, variance, epsilon).0.goes_on(),
        n.has(variance),
    ensures
        ({
            let (after, t) = guarded_variance(n, graph, op, variance, epsilon);
            &&& after.has(t)
            &&& after.term(t) == both(
                ElementWiseOperation::kSUM,
                n.term(variance),
                filled_with(epsilon, first_type(graph, op), count),
            )
        }),
{
    broadcast use {group_grows, group_means, grows_elements};

    reveal(guarded_variance);
    let (n, dv) = n.dims(variance, "BatchNorm: failed to get variance dimensions: "@);
    elements(n, dv).1
}

/// Batch normalization is `(x - mean) / sqrt(variance + epsilon) * scale + bias`.
pub proof fn batch_normalization_means(n: Run, m: Map<u32, Tensor>, graph: GraphInfo, op: Operation)
    requires
        went_through(n, m, batch_normalization_op(n, m, graph, op)),
    ensures
        ({
            let (scale, bias) = batch_scale_bias(op.kind);
            let (x, mean, variance) = (
                input(n, m, op, 0),
                input(n, m, op, 1),
                input(n, m, op, 2),
            );
            exists|count: nat|
                result(op, batch_normalization_op(n, m, graph, op)) == adjusted(
                    n,
                    m,
                    normalized(
                        both(ElementWiseOperation::kSUB, x, mean),
                        variance,
                        #[trigger] filled_with(
                            batch_epsilon(op.kind),
                            first_type(graph, op),
                            count,
                        ),
                    ),
                    scale,
                    bias,
                )
        }),
{
    broadcast use {
        group_grows, group_means, means_channel_stats, means_named_layer, grows_channel_stats,
        grows_step_named_layer, grows_step_output, grows_guarded_variance,
    };

    let axis = batch_axis(op.kind);
    let (x, mean, variance) = (m[op.inputs@[0]], m[op.inputs@[1]], m[op.inputs@[2]]);
    let (a, mean) = channel_stats(n, mean, x, axis, "batch_norm_sub"@);
    let (a, _) = a.named_layer(
        RequestOf::AddElementwise { a: x, b: mean, op: ElementWiseOperation::kSUB },
        "batch_norm_sub"@,
        "Failed to add sub for batch norm: "@,
        "Failed to get sub output: "@,
    );
    let (a, variance) = channel_stats(a, variance, x, axis, "batch_norm_var"@);
    let (b, _) = guarded_variance(a, graph, op, variance, batch_epsilon(op.kind));
    assert(b.goes_on());
    let count = means_guarded_variance(a, graph, op, variance, batch_epsilon(op.kind));
}

proof fn means_instance_normalized(
    n: Run,
    graph: GraphInfo,
    op: Operation,
    x: Tensor,
    bits: u32,
    epsilon: Scalar,
) -> (count: nat)
    requires
        instance_normalized(n, graph, op, x, bits, epsilon).0.goes_on(),
        n.has(x),
    ensures
        ({
            let (after, t) = instance_normalized(n, graph, op, x, bits, epsilon);
            &&& after.has(t)
            &&& after.term(t) == standardized(
                n.term(x),
                bits,
                filled_with(epsilon, first_type(graph, op), count),
            )
        }),
{
    broadcast use {group_grows, group_means, grows_elements};

    reveal(instance_normalized);
    let (n, mean) = n.reduce(
        x,
        ReduceOperation::kAVG,
        bits,
        true,
        "Failed to add mean reduce for instance norm: "@,
        "Failed to get mean output: "@,
    );
    let (n, centered) = n.elementwise(
        x,
        mean,
        ElementWiseOperation::kSUB,
        "Failed to add sub for instance norm: "@,
        "Failed to get sub output: "@,
    );
    let (n, squared) = n.elementwise(
        centered,
        centered,
        ElementWiseOperation::kPROD,
        "Failed to add square for instance norm: "@,
        "Failed to get square output: "@,
    );
    let (n, variance) = n.reduce(
        squared,
        ReduceOperation::kAVG,
        bits,
        true,
        "Failed to add variance reduce for instance norm: "@,
        "Failed to get variance output: "@,
    );
    let (n, dv) = n.dims(variance, "InstanceNorm: failed to get variance dimensions: "@);
    elements(n, dv).1
}

/// A term less its mean over the axes of `bits`, over its guarded deviation.
pub open spec fn standardized(x: Term, bits: u32, guard: Term) -> Term {
    let mean = Term::Reduce(ReduceOperation::kAVG, bits, Box::new(x));
    let centered = both(ElementWiseOperation::kSUB, x, mean);
    let variance = Term::Reduce(
        ReduceOperation::kAVG,
        bits,
        Box::new(both(ElementWiseOperation::kPROD, centered, centered)),
    );
    normalized(centered, variance, guard)
}

/// Instance normalization is `(x - mean) / sqrt(variance + epsilon) * scale + bias`, with the
/// statistics over the two spatial axes.
pub proof fn instance_normalization_means(
    n: Run,
    m: Map<u32, Tensor>,
    graph: GraphInfo,
    op: Operation,
)
    requires
        went_through(n, m, instance_normalization_op(n, m, graph, op)),
    ensures
        ({
            let (scale, bias) = instance_scale_bias(graph, op);
            let bits = if instance_nchw(op.kind) {
                12u32
            } else {
                6u32
            };
            exists|count: nat|
                result(op, instance_normalization_op(n, m, graph, op)) == adjusted(
                    n,
                    m,
                    standardized(
                        input(n, m, op, 0),
                        bits,
                        #[trigger] filled_with(
                            instance_epsilon(op.kind),
                            first_type(graph, op),
                            count,
                        ),
                    ),
                    scale,
                    bias,
                )
        }),
{
    broadcast use {
        group_grows, group_means, means_reshape, grows_step_reshape, grows_instance_normalized,
    };

    let x = m[op.inputs@[0]];
    let (a, _) = n.dims(x, "InstanceNorm: failed to get input dimensions: "@);
    let bits = if instance_nchw(op.kind) {
        12u32
    } else {
        6u32
    };
    let (b, _) = instance_normalized(a, graph, op, x, bits, instance_epsilon(op.kind));
    assert(b.goes_on());
    assert(a.term(x) == n.term(x));
    let count = means_instance_normalized(a, graph, op, x, bits, instance_epsilon(op.kind));
}

proof fn means_layer_normalized(
    n: Run,
    graph: GraphInfo,
    op: Operation,
    x: Tensor,
    bits: u32,
    epsilon: Scalar,
) -> (count: nat)
    requires
        layer_normalized(n, graph, op, x, bits, epsilon).0.goes_on(),
        n.has(x),
    ensures
        ({
            let (after, t) = layer_normalized(n, graph, op, x, bits, epsilon);
            &&& after.has(t)
            &&& after.term(t) == standardized(
                n.term(x),
                bits,
                filled_with(epsilon, first_type(graph, op), count),
            )
        }),
{
    broadcast use {group_grows, group_means, grows_elements};

    reveal(layer_normalized);
    let (n, mean) = n.reduce(
        x,
        ReduceOperation::kAVG,
        bits,
        true,
        "Failed to add mean reduce for layer norm: "@,
        "Failed to get mean output: "@,
    );
    let (n, centered) = n.elementwise(
        x,
        mean,
        ElementWiseOperation::kSUB,
        "Failed to add sub for layer norm: "@,
        "Failed to get sub output: "@,
    );
    let (n, squared) = n.elementwise(
        centered,
        centered,
        ElementWiseOperation::kPROD,
        "Failed to add square for layer norm: "@,
        "Failed to get square output: "@,
    );
    let (n, variance) = n.reduce(
        squared,
        ReduceOperation::kAVG,
        bits,
        true,
        "Failed to add variance reduce for layer norm: "@,
        "Failed to get variance output: "@,
    );
    let (n, dv) = n.dims(variance, "LayerNorm: failed to get variance dimensions: "@);
    elements(n, dv).1
}

pub(crate) broadcast proof fn means_layer_parameter(
    n: Run,
    tensor: Tensor,
    like: Tensor,
    op_name: Seq<char>,
    axes: Seq<u32>,
)
    requires
        layer_parameter(n, tensor, like, op_name, axes).0.goes_on(),
        n.has(tensor),
    ensures
        ({
            let (after, t) = #[trigger] layer_parameter(n, tensor, like, op_name, axes);
            after.has(t) && after.term(t) == n.term(tensor)
        }),
{
    broadcast use {group_grows, group_means};

    reveal(layer_parameter);
    let (a, dr) = n.dims(like, "LayerNorm "@ + op_name + ": result dims: "@);
    let (a, dt) = a.dims(tensor, "LayerNorm "@ + op_name + ": tensor dims: "@);
    let (after, t) = layer_parameter(n, tensor, like, op_name, axes);
    if dt.len() < dr.len() {
        assert(after.grows(a)) by {
            broadcast use grows_step_output;

        }
        assert(a.term(tensor) == n.term(tensor));
        assert(after.requests[a.requests.len() as int] == RequestView::AddShuffle {
            input: tensor,
        }) by {
            reveal(Run::ask);
            reveal(Run::output);
        }
        assert(after.requests[t.id as int] == RequestView::Output {
            layer: Layer { id: a.requests.len() as usize },
            index: 0,
        } && t.id > a.requests.len() && t.id < after.requests.len()) by {
            reveal(Run::ask);
            reveal(Run::output);
        }
        assert(after.term(tensor) == a.term(tensor));
    }
}

/// Layer normalization is `(x - mean) / sqrt(variance + epsilon) * scale + bias`, with the
/// statistics over the given axes, or over all but the first. Over no axis every element is its own
/// mean; what is left of the formula there is the bias, or 0.
pub proof fn layer_normalization_means(
    n: Run,
    m: Map<u32, Tensor>,
    graph: GraphInfo,
    op: Operation,
    rank: nat,
)
    requires
        went_through(n, m, layer_normalization_op(n, m, graph, op)),
        rank == n.dims(m[op.inputs@[0]], "Failed to get input shape: "@).1.len(),
        rank > 0,
        layer_axes(layer_options(op.kind).3, rank).len() > 0,
    ensures
        ({
            let (scale, bias, epsilon, given) = layer_options(op.kind);
            let bits = axes_mask(layer_axes(given, rank));
            &&& bits is Some
            &&& exists|count: nat|
                result(op, layer_normalization_op(n, m, graph, op)) == adjusted(
                    n,
                    m,
                    standardized(
                        input(n, m, op, 0),
                        bits->0,
                        #[trigger] filled_with(epsilon, first_type(graph, op), count),
                    ),
                    scale,
                    bias,
                )
        }),
{
    broadcast use {
        group_grows, group_means, means_layer_parameter, grows_layer_parameter, grows_mask,
        grows_layer_normalized,
    };

    let x = m[op.inputs@[0]];
    let (a, _) = n.dims(x, "Failed to get input shape: "@);
    let (scale, bias, epsilon, given) = layer_options(op.kind);
    let (a, bits) = mask(a, layer_axes(given, rank));
    let (b, _) = layer_normalized(a, graph, op, x, bits, epsilon);
    assert(b.goes_on());
    assert(a.term(x) == n.term(x));
    let count = means_layer_normalized(a, graph, op, x, bits, epsilon);
}

pub(crate) broadcast proof fn means_raised(n: Run, t: Tensor, d: Seq<i64>, rank: nat)
    requires
        raised(n, t, d, rank).0.goes_on(),
        n.has(t),
    ensures
        ({
            let (after, r) = #[trigger] raised(n, t, d, rank);
            after.has(r) && after.term(r) == n.term(t)
        }),
{
    broadcast use {group_grows, group_means, means_reshape, grows_step_reshape};

    reveal(raised);
}

/// A matrix product is that of the inputs as they are.
pub proof fn matmul_means(n: Run, m: Map<u32, Tensor>, op: Operation)
    requires
        went_through(n, m, matmul_op(n, m, op)),
    ensures
        result(op, matmul_op(n, m, op)) == Term::MatrixProduct(
            MatrixOperation::kNONE,
            Box::new(input(n, m, op, 0)),
            MatrixOperation::kNONE,
            Box::new(input(n, m, op, 1)),
        ),
{
    broadcast use {
        group_grows, group_means, means_raised, means_matrix_multiply, grows_raised,
        grows_step_matrix_multiply,
    };

}

/// Whether a term is another times a factor. A factor of 1 leaves no trace.
pub open spec fn is_scaled(scaled: Term, t: Term, factor: Scalar, dt: DataType) -> bool {
    if roughly_one(factor.single) || is_nan(factor.single) {
        scaled == t
    } else {
        exists|count: nat|
            scaled == both(
                ElementWiseOperation::kPROD,
                t,
                #[trigger] filled_with(factor, dt, count),
            )
    }
}

pub(crate) broadcast proof fn means_scaled(
    n: Run,
    t: Tensor,
    factor: Scalar,
    dt: DataType,
    whole: Seq<char>,
    name: Seq<char>,
    add_label: Seq<char>,
    output_label: Seq<char>,
)
    requires
        scaled(n, t, factor, dt, whole, name, add_label, output_label).0.goes_on(),
        n.has(t),
    ensures
        ({
            let (after, r) = #[trigger] scaled(
                n,
                t,
                factor,
                dt,
                whole,
                name,
                add_label,
                output_label,
            );
            &&& after.has(r)
            &&& exists|count: nat|
                after.term(r) == both(
                    ElementWiseOperation::kPROD,
                    n.term(t),
                    #[trigger] filled_with(factor, dt, count),
                )
        }),
{
    broadcast use {group_grows, group_means, grows_elements};

    reveal(scaled);
    let (after, r) = scaled(n, t, factor, dt, whole, name, add_label, output_label);
    let (a, d) = n.dims(t, "Failed to get "@ + whole + " dimensions: "@);
    assert(after.term(r) == both(
        ElementWiseOperation::kPROD,
        n.term(t),
        filled_with(factor, dt, elements(a, d).1),
    ));
}

pub(crate) broadcast proof fn means_summed(n: Run, t: Tensor, c: Tensor, add_label: Seq<char>)
    requires
        summed(n, t, c, add_label).0.goes_on(),
        n.has(t),
        n.has(c),
    ensures
        ({
            let (after, r) = #[trigger] summed(n, t, c, add_label);
            &&& after.has(r)
            &&& after.term(r) == both(ElementWiseOperation::kSUM, n.term(t), n.term(c))
        }),
{
    broadcast use {group_grows, group_means};

    reveal(summed);
}

/// Whether a term is the product of two matrices times `alpha`, plus the summand times `beta`. A
/// summand whose factor is 0 is left out.
pub open spec fn is_gemm(n: Run, m: Map<u32, Tensor>, graph: GraphInfo, op: Operation, r: Term) -> bool {
    let (alpha, beta, summand) = gemm_terms(op.kind);
    let (form_a, form_b) = gemm_forms(op.kind);
    let dt = type_or_float(graph, op.inputs@[0]);
    let product = Term::MatrixProduct(
        form_a,
        Box::new(input(n, m, op, 0)),
        form_b,
        Box::new(input(n, m, op, 1)),
    );
    if summand is Some && exceeds(beta.single, ONE_MILLIONTH) {
        exists|p: Term, c: Term|
            r == #[trigger] both(ElementWiseOperation::kSUM, p, c) && is_scaled(
                p,
                product,
                alpha,
                dt,
            ) && is_scaled(c, n.term(m[summand->0]), beta, dt)
    } else {
        is_scaled(r, product, alpha, dt)
    }
}

/// A general matrix product is `alpha * a * b + beta * c`.
pub proof fn gemm_means(n: Run, m: Map<u32, Tensor>, graph: GraphInfo, op: Operation)
    requires
        went_through(n, m, gemm_op(n, m, graph, op)),
    ensures
        is_gemm(n, m, graph, op, result(op, gemm_op(n, m, graph, op))),
{
    broadcast use {
        group_grows, group_means, means_matrix_multiply, means_scaled, means_summed,
        grows_step_matrix_multiply, grows_scaled, grows_summed,
    };

}

/// The layer normalization of a scalar, which is its own mean, is the bias, or 0.
pub proof fn layer_normalization_of_scalar_means(
    n: Run,
    m: Map<u32, Tensor>,
    graph: GraphInfo,
    op: Operation,
)
    requires
        went_through(n, m, layer_normalization_op(n, m, graph, op)),
        n.dims(m[op.inputs@[0]], "Failed to get input shape: "@).1.len() == 0,
    ensures
        result(op, layer_normalization_op(n, m, graph, op)) == adjusted(
            n,
            m,
            constant_of(graph, op, known(Known::Zero)),
            None,
            layer_options(op.kind).1,
        ),
{
    broadcast use {group_grows, group_means, means_reshape, grows_step_reshape};

    reveal(layer_norm_of_scalar);
}

/// The number of bytes of an element of a type that a normalization is computed in.
pub open spec fn element_width(t: DataType) -> nat {
    if t == DataType::Float16 {
        2
    } else {
        4
    }
}

/// Whether the request at `i` asked for the bytes of the operand `id` and the reply gave them.
pub open spec fn bytes_given(n: Run, id: u32, i: int, data: Seq<u8>) -> bool {
    &&& 0 <= i < n.requests.len()
    &&& i < n.replies.len()
    &&& n.requests[i] == (RequestView::ConstantData { operand: id })
    &&& n.replies[i] == (ReplyView::Bytes(data))
}

/// `count` times the value of a constant with these bytes: its first element, read in the type `t`.
pub open spec fn value_repeated(data: Seq<u8>, t: DataType, count: nat) -> Term {
    Term::Constant(repeated(data.take(element_width(t) as int), count), float_type(t))
}

/// Whether a term is the value of the constant operand `id`, as the conversation was given it, in
/// the type `t`.
pub open spec fn is_constant_value(n: Run, id: u32, t: DataType, count: nat, bias: Term) -> bool {
    exists|i: int, data: Seq<u8>|
        #[trigger] bytes_given(n, id, i, data) && data.len() >= element_width(t) && bias
            == value_repeated(data, t, count)
}

proof fn constant_bias_is_given(
    n: Run,
    graph: GraphInfo,
    id: u32,
    bias: Tensor,
    d: Seq<i64>,
    count: nat,
    t: DataType,
) -> (data: Seq<u8>)
    requires
        layer_bias(n, graph, id, bias, d, count, t).0.goes_on(),
        graph.constant_operand_ids_to_handles@.contains_key(id),
    ensures
        ({
            let (after, r) = layer_bias(n, graph, id, bias, d, count, t);
            &&& bytes_given(after, id, n.requests.len() as int, data)
            &&& data.len() >= element_width(t)
            &&& after.term(r) == value_repeated(data, t, count)
        }),
{
    broadcast use {group_grows, group_means};

    reveal(layer_bias);
    let (a, at) = n.ask(
        RequestOf::ConstantData { operand: id },
        "Operand "@ + decimal(id as nat) + " is not a constant: "@,
    );
    let after = layer_bias(n, graph, id, bias, d, count, t).0;
    assert(after.grows(a));
    assert(a.goes_on());
    reveal(Run::ask);
    reveal(Run::grows);
    let i = n.requests.len() as int;
    assert(after.requests.take(a.requests.len() as int)[i] == after.requests[i]);
    a.bytes(at)
}

/// The layer normalization over no axis is zeros, plus the bias where there is one. A constant bias
/// is the value of the constant in the type of the result, for every element; a bias that is no
/// constant is taken as it is.
pub proof fn layer_normalization_over_nothing_means(
    n: Run,
    m: Map<u32, Tensor>,
    graph: GraphInfo,
    op: Operation,
    rank: nat,
)
    requires
        went_through(n, m, layer_normalization_op(n, m, graph, op)),
        rank == n.dims(m[op.inputs@[0]], "Failed to get input shape: "@).1.len(),
        rank > 0,
        layer_axes(layer_options(op.kind).3, rank).len() == 0,
    ensures
        ({
            let r = result(op, layer_normalization_op(n, m, graph, op));
            exists|count: nat|
                ({
                    let zeros = #[trigger] filled_with(
                        known(Known::Zero),
                        first_type(graph, op),
                        count,
                    );
                    match layer_options(op.kind).1 {
                        None => r == zeros,
                        Some(id) => exists|bias: Term|
                            r == #[trigger] both(ElementWiseOperation::kSUM, zeros, bias) && if
                                graph.constant_operand_ids_to_handles@.contains_key(id) {
                                is_constant_value(
                                    layer_normalization_op(n, m, graph, op).0,
                                    id,
                                    first_type(graph, op),
                                    count,
                                    bias,
                                )
                            } else {
                                bias == n.term(m[id])
                            },
                    }
                })
        }),
{
    broadcast use {
        group_grows, group_means, grows_elements, grows_filled, grows_layer_bias,
    };

    reveal(layer_norm_over_nothing);
    reveal(layer_bias);
    let (a, d) = n.dims(m[op.inputs@[0]], "Failed to get input shape: "@);
    let count = elements(a, d).1;
    let zeros = filled_with(known(Known::Zero), first_type(graph, op), count);
    if let Some(id) = layer_options(op.kind).1 {
        let (b, t) = filled(
            a,
            d,
            count,
            known(Known::Zero),
            first_type(graph, op),
            "LayerNorm axes=[]: failed to add zeros constant: "@,
            "LayerNorm axes=[]: zero const output: "@,
        );
        let t = first_type(graph, op);
        let (c, bias) = layer_bias(b, graph, id, m[id], d, count, t);
        if graph.constant_operand_ids_to_handles@.contains_key(id) {
            let end = layer_normalization_op(n, m, graph, op).0;
            assert(end.grows(c));
            assert(c.goes_on());
            let data = constant_bias_is_given(b, graph, id, m[id], d, count, t);
            let i = b.requests.len() as int;
            reveal(Run::grows);
            assert(end.requests.take(c.requests.len() as int)[i] == end.requests[i]);
            assert(bytes_given(end, id, i, data));
        }
        assert(result(op, layer_normalization_op(n, m, graph, op)) == both(
            ElementWiseOperation::kSUM,
            zeros,
            c.term(bias),
        ));
    }
}

pub(crate) broadcast proof fn means_with_axis(n: Run, t: Tensor, label: Seq<char>)
    requires
        with_axis(n, t, label).0.goes_on(),
        n.has(t),
    ensures
        ({
            let (after, r) = #[trigger] with_axis(n, t, label);
            after.has(r) && after.term(r) == n.term(t)
        }),
{
    broadcast use {group_grows, group_means, means_reshape, grows_step_reshape};

    reveal(with_axis);
}

/// Whether a term is another, perhaps cast to a type.
pub open spec fn comes_from(t: Term, x: Term, ty: TrtDataType) -> bool {
    t == x || t == Term::Cast(ty, Box::new(x))
}

pub(crate) broadcast proof fn means_in_type(n: Run, t: Tensor, ty: TrtDataType, what: Seq<char>)
    requires
        in_type(n, t, ty, what).0.goes_on(),
        n.has(t),
    ensures
        ({
            let (after, r) = #[trigger] in_type(n, t, ty, what);
            after.has(r) && comes_from(after.term(r), n.term(t), ty)
        }),
{
    broadcast use {group_grows, group_means};

    reveal(in_type);
}

/// A number as a constant of a floating-point type.
pub open spec fn number(x: Known, ty: TrtDataType) -> Term {
    Term::Constant(trt_float_bytes(known(x), ty), ty)
}

pub(crate) broadcast proof fn means_clamped_to(
    n: Run,
    t: Tensor,
    ty: TrtDataType,
    range: (Known, Known),
)
    requires
        clamped_to(n, t, ty, range).0.goes_on(),
        n.has(t),
    ensures
        ({
            let (after, r) = #[trigger] clamped_to(n, t, ty, range);
            &&& after.has(r)
            &&& after.term(r) == both(
                ElementWiseOperation::kMIN,
                both(ElementWiseOperation::kMAX, n.term(t), number(range.0, ty)),
                number(range.1, ty),
            )
        }),
{
    broadcast use {group_grows, group_means};

    reveal(clamped_to);
}

/// The type that a quantization is computed in.
pub open spec fn working_type(out: DataType, float_ty: TrtDataType) -> TrtDataType {
    if out == DataType::Int32 || out == DataType::Uint32 {
        TrtDataType::kFLOAT
    } else {
        float_ty
    }
}

proof fn means_quotient(
    n: Run,
    x: Tensor,
    scale: Tensor,
    zero: Tensor,
    ty: TrtDataType,
    out_ty: TrtDataType,
    range: (Known, Known),
)
    requires
        n.has(x),
        n.has(scale),
        n.has(zero),
    ensures
        ({
            let (after, r) = quotient(n, x, scale, zero, ty, out_ty, range);
            after.goes_on() ==> after.has(r) && after.term(r) == rounded(
                n.term(x),
                n.term(scale),
                n.term(zero),
                range,
                ty,
                out_ty,
            )
        }),
{
    broadcast use {group_grows, group_means, means_clamped_to, grows_clamped_to};

}

/// The steps of a quantization after its operands are in one type.
spec fn quotient(
    n: Run,
    x: Tensor,
    scale: Tensor,
    zero: Tensor,
    ty: TrtDataType,
    out_ty: TrtDataType,
    range: (Known, Known),
) -> (Run, Tensor) {
    let (n, t) = n.elementwise(
        x,
        scale,
        ElementWiseOperation::kDIV,
        "quantizeLinear manual div: "@,
        "quantizeLinear manual div output: "@,
    );
    let (n, t) = n.unary(
        t,
        UnaryOperation::kROUND,
        "quantizeLinear manual round: "@,
        "quantizeLinear manual round output: "@,
    );
    let (n, t) = n.elementwise(
        t,
        zero,
        ElementWiseOperation::kSUM,
        "quantizeLinear manual add zero_point: "@,
        "quantizeLinear manual add output: "@,
    );
    let (n, t) = clamped_to(n, t, ty, range);
    n.cast(t, out_ty, "quantizeLinear manual output cast: "@, "quantizeLinear manual output: "@)
}

/// Quantization by single operations is `clip(round(x / scale) + zero_point, least, greatest)`, cast
/// to the type of the result.
pub proof fn quantized_means(
    n: Run,
    x: Tensor,
    scale: Tensor,
    zero: Tensor,
    float_ty: TrtDataType,
    out_ty: TrtDataType,
    out: DataType,
)
    requires
        quantized(n, x, scale, zero, float_ty, out_ty, out).0.goes_on(),
        n.has(x),
        n.has(scale),
        n.has(zero),
    ensures
        ({
            let ty = working_type(out, float_ty);
            let (after, r) = quantized(n, x, scale, zero, float_ty, out_ty, out);
            &&& quantized_range(out) is Some
            &&& exists|a: Term, b: Term, z: Term|
                #![trigger rounded(a, b, z, quantized_range(out)->0, ty, out_ty)]
                comes_from(a, n.term(x), ty) && comes_from(b, n.term(scale), ty) && comes_from(
                    z,
                    n.term(zero),
                    ty,
                ) && after.term(r) == rounded(a, b, z, quantized_range(out)->0, ty, out_ty)
        }),
{
    reveal(quantized);
    let ty = working_type(out, float_ty);
    let range = quantized_range(out)->0;
    let (n1, x1) = with_axis(n, x, "quantizeLinear input"@);
    let (n2, s1) = with_axis(n1, scale, "quantizeLinear scale"@);
    let (n3, z1) = with_axis(n2, zero, "quantizeLinear zero_point"@);
    let (n4, a) = in_type(n3, x1, ty, "input"@);
    let (n5, b) = in_type(n4, s1, ty, "scale"@);
    let (n6, z) = in_type(n5, z1, ty, "zero_point"@);
    let (after, r) = quotient(n6, a, b, z, ty, out_ty, range);
    assert(after.grows(n6)) by {
        broadcast use {group_grows, group_means, grows_clamped_to};

    }
    assert(quantized_range(out) is Some) by {
        broadcast use {
            group_grows, went_on, group_stopped, group_layers_stopped, group_quantize_stopped,
        };

        assert(quantized(n, x, scale, zero, float_ty, out_ty, out).0.grows(n)) by {
            broadcast use grows_quantized;

        }
    }
    assert(quantized(n, x, scale, zero, float_ty, out_ty, out) == (after, r));
    assert(n6.has(a) && n6.has(b) && n6.has(z) && comes_from(n6.term(a), n.term(x), ty)
        && comes_from(n6.term(b), n.term(scale), ty) && comes_from(n6.term(z), n.term(zero), ty))
        by {
        broadcast use {
            group_grows, went_on, term_is_kept, means_with_axis, means_in_type, grows_with_axis,
            grows_in_type,
        };

    }
    means_quotient(n6, a, b, z, ty, out_ty, range);
}

/// A quotient rounded, shifted and clipped.
pub open spec fn rounded(
    x: Term,
    scale: Term,
    zero: Term,
    range: (Known, Known),
    ty: TrtDataType,
    out_ty: TrtDataType,
) -> Term {
    Term::Cast(
        out_ty,
        Box::new(
            both(
                ElementWiseOperation::kMIN,
                both(
                    ElementWiseOperation::kMAX,
                    both(
                        ElementWiseOperation::kSUM,
                        of(UnaryOperation::kROUND, both(ElementWiseOperation::kDIV, x, scale)),
                        zero,
                    ),
                    number(range.0, ty),
                ),
                number(range.1, ty),
            ),
        ),
    )
}

pub(crate) proof fn knows_byte_values(n: Run, t: Tensor, ty: TrtDataType, label: Seq<char>, source: DataType)
    requires
        byte_values(n, t, ty, label, source).0.goes_on(),
        n.has(t),
    ensures
        ({
            let (after, r) = byte_values(n, t, ty, label, source);
            after.has(r)
        }),
{
    broadcast use {group_grows, group_means, means_dequantize, grows_step_dequantize};

    reveal(byte_values);
    reveal(unsigned_reading);
    reveal(Run::select);
}

pub(crate) broadcast proof fn knows_dequantize_zero(
    n: Run,
    zero: Tensor,
    ty: TrtDataType,
    source: DataType,
    scalar: bool,
    rank: nat,
)
    requires
        dequantize_zero(n, zero, ty, source, scalar, rank).0.goes_on(),
        n.has(zero),
    ensures
        ({
            let (after, r) = #[trigger] dequantize_zero(n, zero, ty, source, scalar, rank);
            after.has(r)
        }),
{
    broadcast use {
        group_grows, group_means, means_with_axis, grows_with_axis, grows_byte_values,
        grows_is_scalar,
    };

    reveal(dequantize_zero);
    if is_byte(n.dtype(zero)) {
        let label = "dequantizeLinear zero_point"@;
        assert(byte_values(n, zero, ty, label, source).0.goes_on());
        knows_byte_values(n, zero, ty, label, source);
    }
}

/// Dequantization is `x * scale`, less the zero point times the scale where there is one.
pub proof fn dequantize_linear_means(n: Run, m: Map<u32, Tensor>, graph: GraphInfo, op: Operation)
    requires
        went_through(n, m, dequantize_linear_op(n, m, graph, op)),
    ensures
        ({
            let scale = input(n, m, op, 1);
            let product = Term::Dequantized(Box::new(input(n, m, op, 0)), Box::new(scale));
            let r = result(op, dequantize_linear_op(n, m, graph, op));
            if op.inputs@.len() > 2 {
                exists|zero: Term|
                    r == both(
                        ElementWiseOperation::kSUB,
                        product,
                        #[trigger] both(ElementWiseOperation::kPROD, zero, scale),
                    )
            } else {
                r == product
            }
        }),
{
    broadcast use {
        group_grows, group_means, means_with_axis, means_dequantize,
        grows_with_axis, grows_step_dequantize, grows_dequantize_zero,
        knows_dequantize_zero,
    };

    if op.inputs@.len() > 2 {
        let (a, x) = (n, m[op.inputs@[0]]);
        let scale = m[op.inputs@[1]];
        let (a, dx) = a.dims(x, "dequantizeLinear input dimensions: "@);
        let (a, ds) = a.dims(scale, "dequantizeLinear scale dimensions: "@);
        let from = graph.operands@[op.inputs@[0] as int].descriptor;
        let by = graph.operands@[op.inputs@[1] as int].descriptor;
        let z = graph.operands@[op.inputs@[2] as int].descriptor;
        let to = graph.operands@[op.outputs@[0] as int].descriptor;
        let scalar = (from.shape@.len() == 0 && by.shape@.len() == 0) || (dx.len() == 0 && ds.len()
            == 0);
        let (a, x) = if scalar {
            (a, x)
        } else {
            with_axis(a, x, "dequantizeLinear input"@)
        };
        let (a, scale) = if scalar {
            (a, scale)
        } else {
            with_axis(a, scale, "dequantizeLinear scale"@)
        };
        let ty = float_only(by.data_type)->0;
        let (a, t) = a.dequantize(
            x,
            scale,
            float_only(to.data_type)->0,
            "Failed to add dequantize layer: "@,
            "Failed to get dequantize output: "@,
        );
        let (a, zero) = dequantize_zero(
            a,
            m[op.inputs@[2]],
            ty,
            z.data_type,
            scalar,
            z.shape@.len(),
        );
        let (a, zero) = a.cast(
            zero,
            ty,
            "dequantizeLinear zero_point cast: "@,
            "dequantizeLinear zero_point cast output: "@,
        );
        assert(result(op, dequantize_linear_op(n, m, graph, op)) == both(
            ElementWiseOperation::kSUB,
            Term::Dequantized(Box::new(input(n, m, op, 0)), Box::new(input(n, m, op, 1))),
            both(ElementWiseOperation::kPROD, a.term(zero), input(n, m, op, 1)),
        ));
    }
}

pub(crate) broadcast proof fn means_broadcast_to(
    n: Run,
    t: Tensor,
    from: Seq<i64>,
    target: Seq<i64>,
    label: Seq<char>,
)
    requires
        broadcast_to(n, t, from, target, label).0.goes_on(),
        n.has(t),
    ensures
        ({
            let (after, r) = #[trigger] broadcast_to(n, t, from, target, label);
            after.has(r) && after.term(r) == n.term(t)
        }),
{
    broadcast use {
        group_grows, group_means, means_reshape, means_resize, grows_step_reshape,
        grows_step_resize,
    };

    reveal(broadcast_to);
}

/// A selection takes the second input where the first is other than 0, and else the third.
pub proof fn where_means(n: Run, m: Map<u32, Tensor>, graph: GraphInfo, op: Operation)
    requires
        went_through(n, m, where_op(n, m, graph, op)),
    ensures
        result(op, where_op(n, m, graph, op)) == Term::Selected(
            Box::new(logical_input(n, m, graph, op, 0)),
            Box::new(input(n, m, op, 1)),
            Box::new(input(n, m, op, 2)),
        ),
{
    broadcast use {
        group_grows, group_means, means_broadcast_to, means_select, grows_broadcast_to,
        grows_static_sizes, grows_step_select, grows_to_bool, grows_to_float32,
    };

}

pub(crate) broadcast proof fn means_channels_second(
    n: Run,
    t: Tensor,
    nhwc: bool,
    what: Seq<char>,
)
    requires
        channels_second(n, t, nhwc, what).0.goes_on(),
        n.has(t),
    ensures
        ({
            let (after, r) = #[trigger] channels_second(n, t, nhwc, what);
            after.has(r) && after.term(r) == n.term(t)
        }),
{
    broadcast use {group_grows, group_means, means_transpose, grows_step_transpose};

    reveal(channels_second);
}

pub(crate) broadcast proof fn means_channels_last(n: Run, t: Tensor, nhwc: bool, what: Seq<char>)
    requires
        channels_last(n, t, nhwc, what).0.goes_on(),
        n.has(t),
    ensures
        ({
            let (after, r) = #[trigger] channels_last(n, t, nhwc, what);
            after.has(r) && after.term(r) == n.term(t)
        }),
{
    broadcast use {group_grows, group_means, means_transpose, grows_step_transpose};

    reveal(channels_last);
}

/// A term pooled over windows of a height and a width.
pub open spec fn pooled_over(kind: PoolingType, window: (i64, i64), x: Term) -> Term {
    Term::Pooled(kind, window, Box::new(x))
}

/// A term pooled over windows of a number of rows and columns.
pub open spec fn pooled(kind: PoolingType, window: (u32, u32), x: Term) -> Term {
    pooled_over(kind, (window.0 as i64, window.1 as i64), x)
}

/// A pooling without dilations pools its input over the windows of the options, or over the whole
/// input where they give none.
pub proof fn pooling_means(
    n: Run,
    m: Map<u32, Tensor>,
    graph: GraphInfo,
    op: Operation,
    kind: PoolingType,
)
    requires
        went_through(n, m, pooling_op(n, m, graph, op, kind)),
        pool_plan(op.kind).dilations == (1u32, 1u32),
    ensures
        result(op, pooling_op(n, m, graph, op, kind)) == pooled(
            kind,
            pool_window(n, graph, op.inputs@[0], pool_plan(op.kind)).1,
            input(n, m, op, 0),
        ),
{
    broadcast use {
        group_grows, group_means, means_channels_second, means_channels_last, means_ask,
        means_layer_output, layer_is_kept, grows_channels_second, grows_channels_last,
        grows_pool_window, grows_rounds_up, grows_pool_settings,
    };

}

/// A pooling over the whole input pools it over one window, whatever its size.
pub proof fn global_pooling_means(
    n: Run,
    m: Map<u32, Tensor>,
    op: Operation,
    kind: PoolingType,
)
    requires
        went_through(n, m, global_pooling_op(n, m, op, kind)),
    ensures
        exists|window: (i64, i64)|
            result(op, global_pooling_op(n, m, op, kind)) == #[trigger] pooled_over(
                kind,
                window,
                input(n, m, op, 0),
            ),
{
    broadcast use {
        group_grows, group_means, means_channels_second, means_channels_last,
        grows_channels_second, grows_channels_last,
    };

    let (a, x) = channels_second(n, m[op.inputs@[0]], pool_plan(op.kind).nhwc, "globalPool"@);
    let d = a.dims(x, "Failed to get input dimensions: "@).1;
    assert(result(op, global_pooling_op(n, m, op, kind)) == pooled_over(
        kind,
        (d[2], d[3]),
        input(n, m, op, 0),
    ));
}

pub(crate) broadcast proof fn means_summed_squares(
    n: Run,
    x: Tensor,
    output: u32,
    plan: PoolPlan,
    window: (u32, u32),
    half: bool,
)
    requires
        summed_squares(n, x, output, plan, window, half).0.goes_on(),
        n.has(x),
    ensures
        ({
            let (after, t) = #[trigger] summed_squares(n, x, output, plan, window, half);
            &&& after.has(t)
            &&& after.term(t) == both(
                ElementWiseOperation::kPROD,
                ({
                    let mean = pooled(PoolingType::kAVERAGE, window, n.term(x));
                    if half {
                        as_float(mean)
                    } else {
                        mean
                    }
                }),
                window_area(window),
            )
        }),
{
    broadcast use {
        group_grows, group_means, means_ask, means_layer_output, layer_is_kept, grows_rounds_up,
        grows_pool_settings, grows_step_add_owned_constant,
    };

    reveal(summed_squares);
    reveal(Run::add_owned_constant);
}

/// The number of elements of a window, as a constant in `f32`.
pub open spec fn window_area(window: (u32, u32)) -> Term {
    Term::Constant(le4(product_bits(window.0 as nat, window.1 as nat)), TrtDataType::kFLOAT)
}

/// An L2 pooling without dilations is the square root of the sum of squares over a window, which is
/// their mean times the number of elements of the window. The sum is taken in `f32`, and goes back
/// to half precision where the input has it.
pub proof fn l2_pool2d_means(n: Run, m: Map<u32, Tensor>, graph: GraphInfo, op: Operation)
    requires
        went_through(n, m, l2_pool2d_op(n, m, graph, op)),
        pool_plan(op.kind).dilations == (1u32, 1u32),
    ensures
        ({
            let x = input(n, m, op, 0);
            let window = pool_window(n, graph, op.inputs@[0], pool_plan(op.kind)).1;
            let mean = pooled(
                PoolingType::kAVERAGE,
                window,
                both(ElementWiseOperation::kPROD, x, x),
            );
            let half = type_or_float(graph, op.inputs@[0]) == DataType::Float16;
            result(op, l2_pool2d_op(n, m, graph, op)) == if half {
                Term::Cast(TrtDataType::kHALF, Box::new(root_of_sum(as_float(mean), window)))
            } else {
                root_of_sum(mean, window)
            }
        }),
{
    broadcast use {
        group_grows, group_means, means_channels_second, means_channels_last,
        means_summed_squares, grows_channels_second, grows_channels_last, grows_pool_window,
        grows_summed_squares,
    };

    reveal(pool_window);
}

/// The square root of a mean times the number of elements of the window.
pub open spec fn root_of_sum(mean: Term, window: (u32, u32)) -> Term {
    of(UnaryOperation::kSQRT, both(ElementWiseOperation::kPROD, mean, window_area(window)))
}

/// Logical negation gives ones and zeros in `f32`. A constant of bytes is read anew, as truth values.
pub proof fn logical_not_means(n: Run, m: Map<u32, Tensor>, graph: GraphInfo, op: Operation)
    requires
        went_through(n, m, logical_not_op(n, m, graph, op)),
        graph.constant_operand_ids_to_handles@.contains_key(op.inputs@[0]) ==> !is_eight_bit(
            graph,
            op.inputs@[0],
        ),
    ensures
        result(op, logical_not_op(n, m, graph, op)) == as_float(
            of(UnaryOperation::kNOT, as_bool(input(n, m, op, 0))),
        ),
{
    broadcast use {
        group_grows, group_means, grows_to_bool, grows_to_float32, grows_truth_constant,
    };

}

/// Bytes as numbers: times 1.
pub open spec fn bytes_as_numbers(x: Term) -> Term {
    Term::Dequantized(
        Box::new(x),
        Box::new(Term::Constant(le4(known(Known::One).single), TrtDataType::kFLOAT)),
    )
}

pub(crate) broadcast proof fn means_bytes_to_float(
    n: Run,
    x: Tensor,
    sizes: Seq<u32>,
    shuffle_name: Seq<char>,
    purpose: Seq<char>,
    dequantize_name: Seq<char>,
)
    requires
        bytes_to_float(n, x, sizes, shuffle_name, purpose, dequantize_name).0.goes_on(),
        n.has(x),
    ensures
        ({
            let (after, t) = #[trigger] bytes_to_float(
                n,
                x,
                sizes,
                shuffle_name,
                purpose,
                dequantize_name,
            );
            after.has(t) && after.term(t) == bytes_as_numbers(n.term(x))
        }),
{
    broadcast use {group_grows, group_means, means_ask, means_layer_output, layer_is_kept};

    reveal(bytes_to_float);
}

pub(crate) broadcast proof fn means_floats_to_int32(n: Run, x: Tensor)
    requires
        floats_to_int32(n, x).0.goes_on(),
        n.has(x),
    ensures
        ({
            let (after, t) = #[trigger] floats_to_int32(n, x);
            after.has(t) && after.term(t) == Term::Cast(TrtDataType::kINT32, Box::new(n.term(x)))
        }),
{
    broadcast use {group_grows, group_means, means_ask, means_layer_output, layer_is_kept};

    reveal(floats_to_int32);
}

/// A cast converts its input to the type of the output. Bytes that become numbers of four bytes are
/// dequantized with the scale 1 first; a constant of them that was promoted holds integers already.
pub proof fn cast_means(
    n: Run,
    m: Map<u32, Tensor>,
    graph: GraphInfo,
    op: Operation,
    promoted: Set<u32>,
)
    requires
        went_through(n, m, cast_op(n, m, graph, op, promoted)),
    ensures
        ({
            let id = op.inputs@[0];
            let x = input(n, m, op, 0);
            let target = graph.operands@[op.outputs@[0] as int].descriptor.data_type;
            result(op, cast_op(n, m, graph, op, promoted)) == if is_eight_bit(graph, id) && target
                == DataType::Int32 && promoted.contains(id) {
                x
            } else if is_eight_bit(graph, id) && target == DataType::Float32 {
                bytes_as_numbers(x)
            } else if is_eight_bit(graph, id) && target == DataType::Int32 {
                Term::Cast(TrtDataType::kINT32, Box::new(bytes_as_numbers(x)))
            } else {
                Term::Cast(trt_type(target), Box::new(x))
            }
        }),
{
    broadcast use {
        group_grows, group_means, means_bytes_to_float, means_floats_to_int32,
        grows_bytes_to_float, grows_floats_to_int32,
    };

}

/// Integers clipped to the range between two constants.
pub open spec fn clipped(x: Term, low: Seq<u8>, high: Seq<u8>) -> Term {
    both(
        ElementWiseOperation::kMAX,
        Term::Constant(low, TrtDataType::kINT32),
        both(ElementWiseOperation::kMIN, x, Term::Constant(high, TrtDataType::kINT32)),
    )
}

pub(crate) broadcast proof fn means_gather_indices(
    n: Run,
    indices: Tensor,
    shape: Seq<i64>,
    low: Seq<u8>,
    high: Seq<u8>,
)
    requires
        gather_indices(n, indices, shape, low, high).0.goes_on(),
        n.has(indices),
    ensures
        ({
            let (after, t) = #[trigger] gather_indices(n, indices, shape, low, high);
            after.has(t) && after.term(t) == clipped(n.term(indices), low, high)
        }),
{
    broadcast use {group_grows, group_means};

    reveal(gather_indices);
}

pub(crate) broadcast proof fn means_gather_nd_indices(
    n: Run,
    indices: Tensor,
    shape: Seq<i64>,
    low: Seq<u8>,
    high: Seq<u8>,
)
    requires
        gather_nd_indices(n, indices, shape, low, high).0.goes_on(),
        n.has(indices),
    ensures
        ({
            let (after, t) = #[trigger] gather_nd_indices(n, indices, shape, low, high);
            after.has(t) && after.term(t) == clipped(n.term(indices), low, high)
        }),
{
    broadcast use {group_grows, group_means};

    reveal(gather_nd_indices);
}

pub(crate) broadcast proof fn means_gather_elements_indices(
    n: Run,
    indices: Tensor,
    shape: Seq<i64>,
    low: Seq<u8>,
    high: Seq<u8>,
)
    requires
        gather_elements_indices(n, indices, shape, low, high).0.goes_on(),
        n.has(indices),
    ensures
        ({
            let (after, t) = #[trigger] gather_elements_indices(n, indices, shape, low, high);
            after.has(t) && after.term(t) == clipped(n.term(indices), low, high)
        }),
{
    broadcast use {group_grows, group_means};

    reveal(gather_elements_indices);
}

/// Indices into the axis of a gathering, clipped to those that the axis has.
pub open spec fn clipped_to_axis(graph: GraphInfo, op: Operation, x: Term, count: nat) -> Term {
    let shape = graph.operands@[op.inputs@[0] as int].descriptor.shape@;
    let (least, greatest) = index_bounds(size_of_dim(shape[gather_axis(op.kind) as int]));
    clipped(x, repeated(le4(least as u32), count), repeated(le4(greatest as u32), count))
}

/// A gathering takes elements along its axis, at indices that are clipped to those of the axis.
pub proof fn gather_means(n: Run, m: Map<u32, Tensor>, graph: GraphInfo, op: Operation)
    requires
        went_through(n, m, gather_op(n, m, graph, op)),
    ensures
        exists|count: nat|
            result(op, gather_op(n, m, graph, op)) == Term::Gathered(
                gather_axis(op.kind),
                Box::new(input(n, m, op, 0)),
                Box::new(#[trigger] clipped_to_axis(graph, op, input(n, m, op, 1), count)),
            ),
{
    broadcast use {group_grows, group_means, means_gather_indices, grows_gather_indices};

    let sizes = max_sizes(graph.operands@[op.inputs@[1] as int].descriptor.shape@);
    assert(result(op, gather_op(n, m, graph, op)) == Term::Gathered(
        gather_axis(op.kind),
        Box::new(input(n, m, op, 0)),
        Box::new(clipped_to_axis(graph, op, input(n, m, op, 1), small_product(sizes)->0)),
    ));
}

/// A gathering element by element takes elements along its axis, at indices that are clipped to
/// those of the axis.
pub proof fn gather_elements_means(n: Run, m: Map<u32, Tensor>, graph: GraphInfo, op: Operation)
    requires
        went_through(n, m, gather_elements_op(n, m, graph, op)),
    ensures
        exists|count: nat|
            result(op, gather_elements_op(n, m, graph, op)) == Term::Gathered(
                gather_axis(op.kind),
                Box::new(input(n, m, op, 0)),
                Box::new(#[trigger] clipped_to_axis(graph, op, input(n, m, op, 1), count)),
            ),
{
    broadcast use {
        group_grows, group_means, means_gather_elements_indices, grows_gather_elements_indices,
        means_ask, means_layer_output, layer_is_kept,
    };

    let sizes = max_sizes(graph.operands@[op.inputs@[1] as int].descriptor.shape@);
    assert(result(op, gather_elements_op(n, m, graph, op)) == Term::Gathered(
        gather_axis(op.kind),
        Box::new(input(n, m, op, 0)),
        Box::new(clipped_to_axis(graph, op, input(n, m, op, 1), small_product(sizes)->0)),
    ));
}

/// The number of components of the index tuples of a gathering.
pub open spec fn tuple_length(graph: GraphInfo, op: Operation) -> nat {
    max_sizes(graph.operands@[op.inputs@[1] as int].descriptor.shape@).last() as nat
}

/// Index tuples, each component clipped to the indices that its axis has.
pub open spec fn clipped_to_axes(graph: GraphInfo, op: Operation, x: Term, count: nat) -> Term {
    let shape = graph.operands@[op.inputs@[0] as int].descriptor.shape@;
    let k = tuple_length(graph, op);
    clipped(
        x,
        repeated(range_bytes(shape, k, false)->0, count),
        repeated(range_bytes(shape, k, true)->0, count),
    )
}

/// A gathering by index tuples takes elements at tuples each component of which is clipped to the
/// indices of its axis.
pub proof fn gather_nd_means(n: Run, m: Map<u32, Tensor>, graph: GraphInfo, op: Operation)
    requires
        went_through(n, m, gather_nd_op(n, m, graph, op)),
    ensures
        exists|count: nat|
            result(op, gather_nd_op(n, m, graph, op)) == Term::Gathered(
                0,
                Box::new(input(n, m, op, 0)),
                Box::new(#[trigger] clipped_to_axes(graph, op, input(n, m, op, 1), count)),
            ),
{
    broadcast use {
        group_grows, group_means, means_gather_nd_indices, grows_gather_nd_indices,
        grows_elements, means_ask, means_layer_output, layer_is_kept,
    };

    let sizes = max_sizes(graph.operands@[op.inputs@[1] as int].descriptor.shape@);
    let count = elements(n, as_dims(sizes.take(sizes.len() - 1))).1;
    assert(result(op, gather_nd_op(n, m, graph, op)) == Term::Gathered(
        0,
        Box::new(input(n, m, op, 0)),
        Box::new(clipped_to_axes(graph, op, input(n, m, op, 1), count)),
    ));
}

/// A triangle of a matrix is its product with a mask of ones inside and zeros outside.
pub proof fn triangular_means(n: Run, m: Map<u32, Tensor>, graph: GraphInfo, op: Operation)
    requires
        went_through(n, m, triangular_op(n, m, graph, op)),
    ensures
        ({
            let (upper, diagonal) = triangle_plan(op.kind);
            let o = graph.operands@[op.inputs@[0] as int].descriptor;
            let sizes = max_sizes(o.shape@);
            let (rows, columns) = (sizes[sizes.len() - 2] as nat, sizes.last() as nat);
            let count = mask_count(extent_product(as_dims(sizes)), rows, columns);
            &&& count is Some
            &&& result(op, triangular_op(n, m, graph, op)) == both(
                ElementWiseOperation::kPROD,
                input(n, m, op, 0),
                Term::Constant(
                    mask_bytes(o.data_type, upper, diagonal, rows, columns, count->0),
                    float_type(o.data_type),
                ),
            )
        }),
{
    broadcast use {
        group_grows, group_means, means_ask, means_layer_output, layer_is_kept,
        grows_step_add_owned_constant,
    };

    reveal(Run::add_owned_constant);
}

/// The dimensions that a tensor was found to have.
pub open spec fn found_dims(n: Run, t: Tensor) -> Option<Seq<i64>> {
    match n.reply(t.id) {
        Some(ReplyOf::Tensor { dims: Ok(dims), .. }) => Some(dims),
        _ => None,
    }
}

/// The dimensions that the network was asked to give a tensor: those of the input of a copy, or
/// those that were set when it was made.
pub open spec fn wanted_dims(n: Run, t: Tensor) -> Option<Seq<i64>> {
    match n.requests[t.id as int] {
        RequestOf::Output { layer, .. } => match n.requests[layer.id as int] {
            RequestOf::AddIdentity { input } => found_dims(n, input),
            RequestOf::AddResize { .. } => match n.requests[layer.id + 1] {
                RequestOf::SetOutputDimensions { layer: l, dims } if l == layer => Some(dims),
                _ => None,
            },
            RequestOf::AddShuffle { .. } => match n.requests[layer.id + 1] {
                RequestOf::SetReshapeDimensions { layer: l, dims } if l == layer => Some(dims),
                _ => None,
            },
            _ => None,
        },
        _ => None,
    }
}

/// Whether two shapes broadcast with each other: with ones put before the shorter one, the
/// dimensions along each axis are the same or one of them is 1.
pub open spec fn conform(a: Seq<i64>, b: Seq<i64>) -> bool {
    let (p, q) = (left_padded(a, b.len()), left_padded(b, a.len()));
    forall|i: int|
        0 <= i < p.len() ==> #[trigger] p[i] == q[i] || p[i] == 1 || q[i] == 1
}

/// The dimension of a shape along the axis `i` of so many axes, 1 where the shape is too short to
/// have one.
pub open spec fn extent_along(d: Seq<i64>, rank: nat, i: int) -> i64 {
    if i < rank - d.len() {
        1
    } else {
        d[i - (rank - d.len())]
    }
}

/// The number of axes of the longer of two shapes.
pub open spec fn joint_rank(a: Seq<i64>, b: Seq<i64>) -> nat {
    if a.len() < b.len() {
        b.len()
    } else {
        a.len()
    }
}

/// Whether two shapes broadcast with each other along the axis `i` of the longer one: their
/// dimensions there are the same or one of them is 1.
pub open spec fn conform_along(a: Seq<i64>, b: Seq<i64>, i: int) -> bool {
    let (x, y) = (extent_along(a, joint_rank(a, b), i), extent_along(b, joint_rank(a, b), i));
    x == y || x == 1 || y == 1
}

/// Shapes broadcast with each other if and only if they do along each axis, counted from the last.
pub proof fn conform_axis_by_axis(a: Seq<i64>, b: Seq<i64>)
    ensures
        conform(a, b) <==> forall|i: int|
            0 <= i < joint_rank(a, b) ==> #[trigger] conform_along(a, b, i),
{
    let (p, q) = (left_padded(a, b.len()), left_padded(b, a.len()));
    if conform(a, b) {
        assert forall|i: int| 0 <= i < joint_rank(a, b) implies #[trigger] conform_along(
            a,
            b,
            i,
        ) by {
            assert(p[i] == q[i] || p[i] == 1 || q[i] == 1);
        }
    }
    if forall|i: int| 0 <= i < joint_rank(a, b) ==> #[trigger] conform_along(a, b, i) {
        assert forall|i: int| 0 <= i < p.len() implies #[trigger] p[i] == q[i] || p[i] == 1
            || q[i] == 1 by {
            assert(conform_along(a, b, i));
        }
    }
}

proof fn identity_is_logged(n: Run, input: Tensor, add_label: Seq<char>, output_label: Seq<char>)
    ensures
        ({
            let (after, t) = n.identity(input, add_label, output_label);
            after.goes_on() ==> {
                &&& t.id == n.requests.len() + 1
                &&& after.replies == n.replies
                &&& after.requests == n.requests.push(RequestOf::AddIdentity { input }).push(
                    RequestOf::Output { layer: Layer { id: n.requests.len() as usize }, index: 0 },
                )
            }
        }),
{
    reveal(Run::identity);
    reveal(Run::layer);
    reveal(Run::output);
    reveal(Run::ask);
}

proof fn resize_is_logged(
    n: Run,
    input: Tensor,
    dims: Seq<i64>,
    add_label: Seq<char>,
    output_label: Seq<char>,
)
    ensures
        ({
            let (after, t) = n.resize(input, dims, add_label, output_label);
            let layer = Layer { id: n.requests.len() as usize };
            after.goes_on() ==> {
                &&& t.id == n.requests.len() + 2
                &&& after.replies == n.replies
                &&& after.requests == n.requests.push(RequestOf::AddResize { input }).push(
                    RequestOf::SetOutputDimensions { layer, dims },
                ).push(RequestOf::Output { layer, index: 0 })
            }
        }),
{
    reveal(Run::resize);
    reveal(Run::output);
    reveal(Run::ask);
    reveal(Run::tell);
}

proof fn reshape_is_logged(
    n: Run,
    input: Tensor,
    dims: Seq<i64>,
    add_label: Seq<char>,
    set_label: Seq<char>,
    output_label: Seq<char>,
)
    ensures
        ({
            let (after, t) = n.reshape(input, dims, add_label, set_label, output_label);
            let layer = Layer { id: n.requests.len() as usize };
            after.goes_on() ==> {
                &&& t.id == n.requests.len() + 2
                &&& after.replies == n.replies
                &&& after.requests == n.requests.push(RequestOf::AddShuffle { input }).push(
                    RequestOf::SetReshapeDimensions { layer, dims },
                ).push(RequestOf::Output { layer, index: 0 })
            }
        }),
{
    reveal(Run::reshape);
    reveal(Run::output);
    reveal(Run::ask);
}

/// The dimensions that two tensors of the dimensions `a` and `b` are brought to: the first of the
/// two shapes.
pub open spec fn brought_to(a: Seq<i64>, b: Seq<i64>) -> Seq<i64> {
    if a.len() < b.len() {
        left_padded(a, b.len())
    } else if a.len() == b.len() && must_stretch(a, b) {
        joint_dims(a, b)
    } else {
        a
    }
}

/// Whether a shape comes of another by ones before it and by more in place of ones.
pub open spec fn expands(r: Seq<i64>, a: Seq<i64>) -> bool {
    let p = left_padded(a, r.len());
    &&& r.len() == p.len()
    &&& forall|i: int| 0 <= i < r.len() ==> #[trigger] r[i] == p[i] || p[i] == 1
}

proof fn no_conflict(a: Seq<i64>, b: Seq<i64>, from: nat)
    requires
        a.len() == b.len(),
        first_conflict(a, b, from) is None,
    ensures
        forall|i: int|
            from <= i < a.len() ==> #[trigger] a[i] == b[i] || a[i] == 1 || b[i] == 1,
    decreases a.len() - from,
{
    if from < a.len() {
        no_conflict(a, b, from + 1);
    }
}

/// Two tensors that are brought together have the same rank, their shapes broadcast with each other,
/// and nothing but dimensions of 1 was expanded. Tensors whose shapes do not broadcast are refused.
pub proof fn broadcast_pair_conforms(n: Run, t0: Tensor, t1: Tensor, op_name: Seq<char>)
    requires
        broadcast_pair(n, t0, t1, op_name).0.goes_on(),
        n.has(t0),
        n.has(t1),
    ensures
        ({
            let (after, (a, b)) = broadcast_pair(n, t0, t1, op_name);
            &&& found_dims(n, t0) matches Some(d0)
            &&& found_dims(n, t1) matches Some(d1)
            &&& conform(d0, d1)
            &&& wanted_dims(after, a) == Some(brought_to(d0, d1))
            &&& wanted_dims(after, b) == Some(brought_to(d1, d0))
            &&& brought_to(d0, d1).len() == brought_to(d1, d0).len()
            &&& conform(brought_to(d0, d1), brought_to(d1, d0))
            &&& d0.len() == d1.len() ==> brought_to(d0, d1) == brought_to(d1, d0)
            &&& expands(brought_to(d0, d1), d0)
            &&& expands(brought_to(d1, d0), d1)
        }),
{
    reveal(broadcast_pair);
    reveal(Run::dims);
    let d0 = found_dims(n, t0)->0;
    let d1 = found_dims(n, t1)->0;
    let (after, (a, b)) = broadcast_pair(n, t0, t1, op_name);
    assert(found_dims(n, t0) is Some && found_dims(n, t1) is Some);
    let copy0 = ("Failed to clone tensor0: "@, "Failed to get identity output: "@);
    let copy1 = ("Failed to clone tensor1: "@, "Failed to get identity output: "@);
    let kept = ("Failed to clone kept tensor: "@, "Failed to get identity output: "@);
    let size0 = ("Failed to add resize layer for tensor0: "@, "Failed to get resize output: "@);
    let size1 = ("Failed to add resize layer for tensor1: "@, "Failed to get resize output: "@);
    let add = "Failed to add shuffle layer for broadcasting: "@;
    let set = "Failed to set reshape dimensions: "@;
    let output = "Failed to get reshape output: "@;
    no_conflict(left_padded(d0, d1.len()), left_padded(d1, d0.len()), 0);
    assert(conform(d0, d1));
    if d0.len() == d1.len() {
        assert(conform(brought_to(d0, d1), brought_to(d1, d0)));
        assert(brought_to(d0, d1) =~= brought_to(d1, d0));
        let middle = if must_stretch(d0, d1) {
            resize_is_logged(n, t0, joint_dims(d0, d1), size0.0, size0.1);
            n.resize(t0, joint_dims(d0, d1), size0.0, size0.1).0
        } else {
            identity_is_logged(n, t0, copy0.0, copy0.1);
            n.identity(t0, copy0.0, copy0.1).0
        };
        if must_stretch(d1, d0) {
            resize_is_logged(middle, t1, joint_dims(d1, d0), size1.0, size1.1);
        } else {
            identity_is_logged(middle, t1, copy1.0, copy1.1);
        }
        broadcast use {
            group_grows, went_on, grows_step_identity, grows_step_resize,
        };

        assert(after.grows(middle));
    } else if d0.len() < d1.len() {
        let middle = n.reshape(t0, left_padded(d0, d1.len()), add, set, output).0;
        reshape_is_logged(n, t0, left_padded(d0, d1.len()), add, set, output);
        identity_is_logged(middle, t1, kept.0, kept.1);
        broadcast use {
            group_grows, went_on, grows_step_identity, grows_step_reshape,
        };

        assert(after.grows(middle));
    } else {
        let middle = n.reshape(t1, left_padded(d1, d0.len()), add, set, output).0;
        reshape_is_logged(n, t1, left_padded(d1, d0.len()), add, set, output);
        identity_is_logged(middle, t0, kept.0, kept.1);
        broadcast use {
            group_grows, went_on, grows_step_identity, grows_step_reshape,
        };

        assert(after.grows(middle));
    }
}

} // verus!
