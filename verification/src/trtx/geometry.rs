//! What convolutions, paddings and poolings with dilations compute: which element of the input
//! stands where, and where each padding lands.

use crate::data_type::DataType;
use crate::graph::{max_sizes, GraphInfo};
use crate::operator_options::FloatReading;
use crate::operators::{Operation, OperationKind};
use crate::text::decimal;
use crate::scalar::{known, le4, product_bits, reciprocal_bits, repeated};
use crate::trtx::broadcast::{left_padded, ones, zeros};
use crate::trtx::conv::{
    absorbed, adjusted, check_bias, conv2d_op, conv_filter, conv_parameters, conv_plan, conv_result,
    conv_source, conv_transpose2d_op, conv_weights, convolved, deconv_extents, deconv_target,
    deconvolved, filter_order, filter_plan, filter_turn, fits_i32, fitted, lesser, output_maps, output_padding, small_size,
    spatial_sizes, tensor_of, widened, ConvPlan, FilterPlan,
};
use crate::trtx::forms::{
    earlier_is, ask_sets, bias_form, constant_stays, form_is_kept, forms_add_owned_constant, forms_are_kept,
    forms_concat, forms_constant_output, forms_padding, forms_transpose, group_forms, is_constant,
    layer_is_new, layer_is_set, set_now, shaped, tell_sets, Form, Settings, Window,
};
use crate::trtx::growth::{
    group_grows, grows_adjusted, grows_average_pool_dilated, grows_cell, grows_cells,
    grows_channels_last, grows_channels_second, grows_check_bias, grows_combine, grows_combined,
    grows_conv_filter, grows_conv_parameters, grows_conv_result, grows_conv_source,
    grows_conv_weights, grows_convolved, grows_deconvolved, grows_dilated_extents,
    grows_dilated_pool, grows_dilated_result, grows_elements, grows_filler, grows_fitted,
    grows_grid_row, grows_grid_rows, grows_joined, grows_max_pool_dilated, grows_outside_constant,
    grows_pad_axes, grows_pad_axis, grows_pad_last_axes, grows_pool_settings, grows_pool_window,
    grows_pooled_dilated, grows_rounds_up, grows_slab, grows_slabs, grows_step_add_owned_constant,
    grows_step_layer, grows_step_output, grows_step_padding, grows_stopped, grows_summed_squares, grows_tap, grows_taps,
};
use crate::trtx::laws::words::reported;
use crate::trtx::matrix::type_or_float;
use crate::trtx::meaning::{all_known, went_on, went_through};
use crate::trtx::pad::{
    copies, fill_bytes, filler, is_zero, last_two, mirror_after, mirror_before, not_below_zero,
    pad_amounts, pad_axes, pad_axis, pad_axis_constant, pad_axis_edge, pad_axis_reflect, pad_fill,
    pad_last_axes, pad_mode, pad_op, pad_options, padded_dims, slab, slabs, unpadded, PadMode,
};
use crate::trtx::pool::{
    average_pool_dilated, cell, cells, channels_last, channels_second, combine, combined,
    dilated_extents, dilated_fault, global_pooling_op, summed_squares, dilated_name, dilated_pool, dilated_result, dilated_rule,
    grid_of, grid_row, grid_rows, inside, joined, l2_pool2d_op, l2_pool_dilated, max_pool_dilated,
    outside_constant, pool_plan, pool_settings, pool_window, pooled_dilated, pooling_op,
    rounds_up, tap, tap_place, taps, Dilated, Grid, PoolPlan,
};
use crate::trtx::session::{ReplyOf, RequestOf, RequestView, Run};
use crate::trtx::shapes::extent_product;
use crate::trtx::types::{
    ElementWiseOperation, Layer, PaddingMode, PoolingType, Tensor, TrtDataType, UnaryOperation,
};
use vstd::prelude::*;

verus! {

/// The form of the first output of an operation.
pub open spec fn made(op: Operation, step: (Run, Map<u32, Tensor>)) -> Form {
    step.0.form(step.1[op.outputs@[0]])
}

/// The form of the operand `i` of an operation.
pub open spec fn given(n: Run, m: Map<u32, Tensor>, op: Operation, i: int) -> Form {
    n.form(m[op.inputs@[i]])
}

/// A form with its axes in another order, where `turn` holds.
pub open spec fn turned_if(turn: bool, order: Seq<i32>, f: Form) -> Form {
    if turn {
        Form::Turned(order, Box::new(f))
    } else {
        f
    }
}

/// A form in another type, where `cast` holds.
pub open spec fn cast_if(cast: bool, ty: TrtDataType, f: Form) -> Form {
    if cast {
        Form::Cast(ty, Box::new(f))
    } else {
        f
    }
}

/// A form with zeros round its rows and columns, where there are any to be put.
pub open spec fn padded_if(pre: (i64, i64), post: (i64, i64), f: Form) -> Form {
    if pre == (0i64, 0i64) && post == (0i64, 0i64) {
        f
    } else {
        Form::Padded(pre, post, Box::new(f))
    }
}

/// The source of a convolution: single precision, channels second.
pub open spec fn source_form(x: Form, nhwc: bool, half: bool) -> Form {
    cast_if(half, TrtDataType::kFLOAT, turned_if(nhwc, seq![0i32, 3, 1, 2], x))
}

/// The result of a convolution in the precision and the layout of its input.
pub open spec fn result_form(x: Form, nhwc: bool, half: bool) -> Form {
    turned_if(nhwc, seq![0i32, 2, 3, 1], cast_if(half, TrtDataType::kHALF, x))
}

/// The filter of a convolution: single precision, its axes in the order that TensorRT wants.
pub open spec fn filter_form(f: Form, half: bool, order: Option<Seq<i32>>) -> Form {
    let f = cast_if(half, TrtDataType::kFLOAT, f);
    match order {
        Some(order) => Form::Turned(order, Box::new(f)),
        None => f,
    }
}

/// The bias of a convolution in single precision.
pub open spec fn single_bias(b: Option<Box<Form>>, half: bool) -> Option<Box<Form>> {
    match b {
        Some(b) => Some(Box::new(cast_if(half, TrtDataType::kFLOAT, *b))),
        None => None,
    }
}

pub(crate) broadcast proof fn forms_conv_source(
    n: Run,
    x: Tensor,
    nhwc: bool,
    half: bool,
    name: Seq<char>,
)
    requires
        conv_source(n, x, nhwc, half, name).0.goes_on(),
        n.has(x),
    ensures
        ({
            let (after, t) = #[trigger] conv_source(n, x, nhwc, half, name);
            after.has(t) && after.form(t) == source_form(n.form(x), nhwc, half)
        }),
{
    broadcast use {group_grows, group_forms};

    reveal(conv_source);
}

pub(crate) broadcast proof fn forms_conv_result(
    n: Run,
    x: Tensor,
    nhwc: bool,
    half: bool,
    name: Seq<char>,
)
    requires
        conv_result(n, x, nhwc, half, name).0.goes_on(),
        n.has(x),
    ensures
        ({
            let (after, t) = #[trigger] conv_result(n, x, nhwc, half, name);
            after.has(t) && after.form(t) == result_form(n.form(x), nhwc, half)
        }),
{
    broadcast use {group_grows, group_forms};

    reveal(conv_result);
}

/// Whether a bias, where there is one, answered a request that was made.
pub open spec fn has_bias(n: Run, bias: Option<Tensor>) -> bool {
    bias matches Some(b) ==> n.has(b)
}

pub(crate) broadcast proof fn forms_conv_weights(
    n: Run,
    filter: Tensor,
    filter_half: bool,
    bias: Option<Tensor>,
    bias_half: bool,
    order: Option<Seq<i32>>,
    name: Seq<char>,
)
    requires
        conv_weights(n, filter, filter_half, bias, bias_half, order, name).0.goes_on(),
        n.has(filter),
        has_bias(n, bias),
    ensures
        ({
            let (after, (f, b)) = #[trigger] conv_weights(
                n,
                filter,
                filter_half,
                bias,
                bias_half,
                order,
                name,
            );
            &&& after.has(f)
            &&& has_bias(after, b)
            &&& after.form(f) == filter_form(n.form(filter), filter_half, order)
            &&& bias_form(after, b) == single_bias(bias_form(n, bias), bias_half)
        }),
{
    broadcast use {group_grows, group_forms};

    reveal(conv_weights);
}

pub(crate) broadcast proof fn forms_convolved(
    n: Run,
    source: Tensor,
    f: Tensor,
    bias: Option<Tensor>,
    filter: FilterPlan,
    plan: ConvPlan,
)
    requires
        convolved(n, source, f, bias, filter, plan).0.goes_on(),
        n.has(source),
        n.has(f),
        has_bias(n, bias),
    ensures
        ({
            let (after, t) = #[trigger] convolved(n, source, f, bias, filter, plan);
            after.has(t) && after.form(t) == Form::Convolved(
                Window {
                    kernel: widened(filter.kernel),
                    stride: widened(plan.strides),
                    dilation: widened(plan.dilations),
                    pre: (0, 0),
                    post: (0, 0),
                },
                filter.output_maps as i64,
                plan.groups as i64,
                Box::new(n.form(source)),
                Box::new(n.form(f)),
                bias_form(n, bias),
            )
        }),
{
    broadcast use {group_grows, grows_stopped, grows_step_output, went_on};

    reveal(convolved);
    let request = RequestView::AddConvolution {
        input: source,
        output_maps: filter.output_maps,
        kernel: filter.kernel,
    };
    let (a, l) = n.ask(request, "Failed to add convolution (tensor weights): "@);
    let layer = Layer { id: l };
    let (b, _) = a.ask(
        RequestOf::SetInput { layer, index: 1, tensor: f },
        "Conv2d set_input(1) filter: "@,
    );
    let c = if let Some(t) = bias {
        b.ask(
            RequestOf::SetInput { layer, index: 2, tensor: t },
            "Conv2d set_input(2) bias: "@,
        ).0
    } else {
        b
    };
    let d = c.tell(RequestOf::SetStride { layer, stride: widened(plan.strides) });
    let e = d.tell(RequestOf::SetPadding { layer, padding: (0, 0) });
    let g = e.tell(RequestOf::SetDilation { layer, dilation: widened(plan.dilations) });
    let h = g.tell(RequestOf::SetNumGroups { layer, groups: plan.groups as i64 });
    layer_is_new(n, request, "Failed to add convolution (tensor weights): "@);
    ask_sets(
        a,
        RequestOf::SetInput { layer, index: 1, tensor: f },
        "Conv2d set_input(1) filter: "@,
        l,
    );
    if let Some(t) = bias {
        ask_sets(
            b,
            RequestOf::SetInput { layer, index: 2, tensor: t },
            "Conv2d set_input(2) bias: "@,
            l,
        );
    }
    tell_sets(c, RequestOf::SetStride { layer, stride: widened(plan.strides) }, l);
    tell_sets(d, RequestOf::SetPadding { layer, padding: (0, 0) }, l);
    tell_sets(e, RequestOf::SetDilation { layer, dilation: widened(plan.dilations) }, l);
    tell_sets(g, RequestOf::SetNumGroups { layer, groups: plan.groups as i64 }, l);
    broadcast use earlier_is;

    reveal(shaped);
    layer_is_set(h, l, "Failed to get convolution output: "@);
    form_is_kept(n, h, source);
    form_is_kept(n, h, f);
    if let Some(t) = bias {
        form_is_kept(n, h, t);
    }
}

/// What the filter of a convolution says of it.
pub open spec fn filter_of(graph: GraphInfo, op: Operation) -> FilterPlan {
    let d = graph.operands@[op.inputs@[1] as int].descriptor;
    filter_plan(op.kind, max_sizes(d.shape@), d.data_type)
}

proof fn filter_is_read(
    n: Run,
    graph: GraphInfo,
    op: Operation,
    purpose: Seq<char>,
    name: Seq<char>,
)
    requires
        conv_filter(n, graph, op, purpose, name).0.goes_on(),
    ensures
        conv_filter(n, graph, op, purpose, name).1 == filter_of(graph, op),
{
    broadcast use {group_grows, grows_stopped, went_on, grows_check_bias};

    reveal(conv_filter);
}

/// Whether the operand `id` holds numbers in half precision.
pub open spec fn is_half(graph: GraphInfo, id: u32) -> bool {
    type_or_float(graph, id) == DataType::Float16
}

/// The filter of a convolution as TensorRT takes it.
pub open spec fn filter_given(n: Run, m: Map<u32, Tensor>, graph: GraphInfo, op: Operation) -> Form {
    filter_form(given(n, m, op, 1), filter_of(graph, op).half, filter_turn(op.kind))
}

/// The bias of a convolution as TensorRT takes it.
pub open spec fn bias_given(
    n: Run,
    m: Map<u32, Tensor>,
    graph: GraphInfo,
    op: Operation,
) -> Option<Box<Form>> {
    let bias = conv_plan(op.kind).bias;
    single_bias(bias_form(n, tensor_of(m, bias)), bias is Some && is_half(graph, bias->0))
}

proof fn parameters_are_given(
    n: Run,
    m: Map<u32, Tensor>,
    first: Run,
    graph: GraphInfo,
    op: Operation,
    half: bool,
    name: Seq<char>,
)
    requires
        conv_parameters(n, m, graph, op, half, name).0.goes_on(),
        all_known(first, m),
        n.grows(first),
        half == filter_of(graph, op).half,
    ensures
        ({
            let (after, (f, b)) = conv_parameters(n, m, graph, op, half, name);
            &&& after.has(f)
            &&& has_bias(after, b)
            &&& after.form(f) == filter_given(first, m, graph, op)
            &&& bias_form(after, b) == bias_given(first, m, graph, op)
        }),
{
    broadcast use {
        group_grows, group_forms, grows_conv_weights, forms_conv_weights,
    };

    reveal(conv_parameters);
    let bias = tensor_of(m, conv_plan(op.kind).bias);
    if let Some(b) = bias {
        form_is_kept(first, n, b);
    }
}

/// The paddings that the options of a convolution put before the rows and the columns. The options
/// list the beginning and the ending of the height, then those of the width.
pub open spec fn beginnings(padding: Seq<u32>) -> (i64, i64) {
    if padding.len() >= 4 {
        (padding[0] as i32 as i64, padding[2] as i32 as i64)
    } else {
        (0, 0)
    }
}

/// The paddings that the options of a convolution put behind the rows and the columns.
pub open spec fn endings(padding: Seq<u32>) -> (i64, i64) {
    if padding.len() >= 4 {
        (padding[1] as i32 as i64, padding[3] as i32 as i64)
    } else {
        (0, 0)
    }
}

/// The paddings of the options of a convolution.
pub open spec fn padding_option(kind: OperationKind) -> Seq<u32> {
    match kind {
        OperationKind::Conv2d { options: Some(o) } => o.padding@,
        OperationKind::ConvTranspose2d { options: Some(o) } => o.padding@,
        _ => seq![],
    }
}

/// The beginnings and the endings of the paddings are those of the options.
pub proof fn paddings_land(kind: OperationKind)
    ensures
        widened(conv_plan(kind).pre) == beginnings(padding_option(kind)),
        widened(conv_plan(kind).post) == endings(padding_option(kind)),
{
    reveal(conv_plan);
}

/// A convolution convolves its input, with the paddings of the options round it, with the filter:
/// the beginning of the height above, its ending below, the beginning of the width to the left and
/// its ending to the right. It is computed with the channels second and in single precision, and the
/// result has the layout and the precision of the input.
pub proof fn conv2d_means(n: Run, m: Map<u32, Tensor>, graph: GraphInfo, op: Operation)
    requires
        went_through(n, m, conv2d_op(n, m, graph, op)),
    ensures
        ({
            let plan = conv_plan(op.kind);
            let filter = filter_of(graph, op);
            let half = is_half(graph, op.inputs@[0]);
            let source = padded_if(
                beginnings(padding_option(op.kind)),
                endings(padding_option(op.kind)),
                source_form(given(n, m, op, 0), plan.nhwc, half),
            );
            made(op, conv2d_op(n, m, graph, op)) == result_form(
                Form::Convolved(
                    Window {
                        kernel: widened(filter.kernel),
                        stride: widened(plan.strides),
                        dilation: widened(plan.dilations),
                        pre: (0, 0),
                        post: (0, 0),
                    },
                    filter.output_maps as i64,
                    plan.groups as i64,
                    Box::new(source),
                    Box::new(filter_given(n, m, graph, op)),
                    bias_given(n, m, graph, op),
                ),
                plan.nhwc,
                half,
            )
        }),
{
    broadcast use {
        group_grows, group_forms, grows_conv_filter, grows_conv_source, grows_conv_parameters,
        grows_convolved, grows_conv_result, forms_conv_source, forms_convolved, forms_conv_result,
    };

    paddings_land(op.kind);
    let plan = conv_plan(op.kind);
    let (a, filter) = conv_filter(n, graph, op, ""@, "Conv2d"@);
    let half = is_half(graph, op.inputs@[0]);
    let (b, source) = conv_source(a, m[op.inputs@[0]], plan.nhwc, half, "Conv2d"@);
    let (c, source) = if plan.pre == (0i32, 0i32) && plan.post == (0i32, 0i32) {
        b.identity(source, "Failed to add identity layer: "@, "Failed to get identity output: "@)
    } else {
        b.padding(
            source,
            widened(plan.pre),
            widened(plan.post),
            "Failed to add padding layer: "@,
            "Failed to get padding layer output: "@,
        )
    };
    let (d, (f, bias)) = conv_parameters(c, m, graph, op, filter.half, "Conv2d"@);
    let (e, t) = convolved(d, source, f, bias, filter, plan);
    assert(d.goes_on());
    assert(a.goes_on());
    filter_is_read(n, graph, op, ""@, "Conv2d"@);
    parameters_are_given(c, m, n, graph, op, filter.half, "Conv2d"@);
}

/// The filter of a convolution that went through has four axes, in a layout that is known.
pub(crate) proof fn conv_filter_is_known(
    n: Run,
    m: Map<u32, Tensor>,
    graph: GraphInfo,
    op: Operation,
)
    requires
        went_through(n, m, conv2d_op(n, m, graph, op)),
    ensures
        op.inputs@[1] < graph.operands@.len(),
        graph.operands@[op.inputs@[1] as int].descriptor.shape@.len() == 4,
        filter_order(op.kind) is Some,
        fits_i32(output_maps(op.kind, max_sizes(graph.operands@[op.inputs@[1] as int].descriptor.shape@))),
        conv_plan(op.kind).bias matches Some(id) ==> id < graph.operands@.len(),
{
    broadcast use {
        group_grows, group_forms, grows_conv_filter, grows_conv_source, grows_conv_parameters,
        grows_convolved, grows_conv_result,
    };

    let (a, filter) = conv_filter(n, graph, op, ""@, "Conv2d"@);
    assert(a.goes_on());
    filter_is_accepted(n, graph, op, ""@, "Conv2d"@);
}

proof fn filter_is_accepted(
    n: Run,
    graph: GraphInfo,
    op: Operation,
    purpose: Seq<char>,
    name: Seq<char>,
)
    requires
        conv_filter(n, graph, op, purpose, name).0.goes_on(),
    ensures
        op.inputs@[1] < graph.operands@.len(),
        graph.operands@[op.inputs@[1] as int].descriptor.shape@.len() == 4,
        filter_order(op.kind) is Some,
        fits_i32(output_maps(op.kind, max_sizes(graph.operands@[op.inputs@[1] as int].descriptor.shape@))),
        conv_plan(op.kind).bias matches Some(id) ==> id < graph.operands@.len(),
{
    broadcast use {group_grows, grows_stopped, went_on, grows_check_bias};

    reveal(conv_filter);
    reveal(check_bias);
}

/// A transposed convolution with these settings: what is to be added to the output is taken from
/// what is trimmed, first behind and then in front, and the rest is put behind.
pub open spec fn deconvolved_form(
    source: Form,
    f: Form,
    bias: Option<Box<Form>>,
    filter: FilterPlan,
    plan: ConvPlan,
    extra: (i32, i32),
) -> Form {
    let h = absorbed(plan.pre.0 as int, plan.post.0 as int, extra.0 as int);
    let w = absorbed(plan.pre.1 as int, plan.post.1 as int, extra.1 as int);
    let whole = Form::Deconvolved(
        Window {
            kernel: widened(filter.kernel),
            stride: widened(plan.strides),
            dilation: widened(plan.dilations),
            pre: (h.0 as i64, w.0 as i64),
            post: (h.1 as i64, w.1 as i64),
        },
        filter.output_maps as i64,
        plan.groups as i64,
        Box::new(source),
        Box::new(f),
        bias,
    );
    if h.2 != 0 || w.2 != 0 {
        Form::Padded((0, 0), (h.2 as i64, w.2 as i64), Box::new(whole))
    } else {
        whole
    }
}

pub(crate) broadcast proof fn forms_deconvolved(
    n: Run,
    source: Tensor,
    f: Tensor,
    bias: Option<Tensor>,
    filter: FilterPlan,
    plan: ConvPlan,
    extra: (i32, i32),
)
    requires
        deconvolved(n, source, f, bias, filter, plan, extra).0.goes_on(),
        n.has(source),
        n.has(f),
        has_bias(n, bias),
    ensures
        ({
            let (after, t) = #[trigger] deconvolved(n, source, f, bias, filter, plan, extra);
            after.has(t) && after.form(t) == deconvolved_form(
                n.form(source),
                n.form(f),
                bias_form(n, bias),
                filter,
                plan,
                extra,
            )
        }),
{
    broadcast use {group_grows, grows_stopped, grows_step_output, grows_step_padding, went_on};

    reveal(deconvolved);
    let request = RequestView::AddDeconvolution {
        input: source,
        output_maps: filter.output_maps as i64,
        kernel: widened(filter.kernel),
    };
    let (a, l) = n.ask(request, "Failed to add deconvolution (tensor weights): "@);
    let layer = Layer { id: l };
    let set_filter = RequestView::SetInput { layer, index: 1, tensor: f };
    let (b, _) = a.ask(set_filter, "convTranspose2d set_input(1) filter: "@);
    let c = if let Some(t) = bias {
        b.ask(
            RequestOf::SetInput { layer, index: 2, tensor: t },
            "convTranspose2d set_input(2) bias: "@,
        ).0
    } else {
        b
    };
    let set_stride = RequestView::SetStride { layer, stride: widened(plan.strides) };
    let (d, _) = c.ask(set_stride, "convTranspose2d set_stride: "@);
    let set_dilation = RequestView::SetDilation { layer, dilation: widened(plan.dilations) };
    let (e, _) = d.ask(set_dilation, "convTranspose2d set_dilation: "@);
    let h = absorbed(plan.pre.0 as int, plan.post.0 as int, extra.0 as int);
    let w = absorbed(plan.pre.1 as int, plan.post.1 as int, extra.1 as int);
    let set_pre = RequestView::SetPrePadding { layer, padding: (h.0 as i64, w.0 as i64) };
    let (g, _) = e.ask(set_pre, "convTranspose2d set_pre_padding: "@);
    let set_post = RequestView::SetPostPadding { layer, padding: (h.1 as i64, w.1 as i64) };
    let (i, _) = g.ask(set_post, "convTranspose2d set_post_padding: "@);
    let set_groups = RequestView::SetNumGroups { layer, groups: plan.groups as i64 };
    let (j, _) = i.ask(set_groups, "convTranspose2d set_num_groups: "@);
    layer_is_new(n, request, "Failed to add deconvolution (tensor weights): "@);
    ask_sets(a, set_filter, "convTranspose2d set_input(1) filter: "@, l);
    if let Some(t) = bias {
        ask_sets(
            b,
            RequestOf::SetInput { layer, index: 2, tensor: t },
            "convTranspose2d set_input(2) bias: "@,
            l,
        );
    }
    ask_sets(c, set_stride, "convTranspose2d set_stride: "@, l);
    ask_sets(d, set_dilation, "convTranspose2d set_dilation: "@, l);
    ask_sets(e, set_pre, "convTranspose2d set_pre_padding: "@, l);
    ask_sets(g, set_post, "convTranspose2d set_post_padding: "@, l);
    ask_sets(i, set_groups, "convTranspose2d set_num_groups: "@, l);
    broadcast use earlier_is;

    reveal(shaped);
    layer_is_set(j, l, "Failed to get deconvolution output: "@);
    form_is_kept(n, j, source);
    form_is_kept(n, j, f);
    if let Some(t) = bias {
        form_is_kept(n, j, t);
    }
    let (k, t) = j.output(l, "Failed to get deconvolution output: "@);
    if h.2 != 0 || w.2 != 0 {
        forms_padding(
            k,
            t,
            (0, 0),
            (h.2 as i64, w.2 as i64),
            "convTranspose2d outputPadding remainder: "@,
            "convTranspose2d outputPadding remainder output: "@,
        );
    }
}

/// A form brought from the height and width `current` to those of `target`: its first rows and
/// columns where it has more, with zeros behind where it has fewer.
pub open spec fn fitted_form(
    f: Form,
    batch: i32,
    current: (i32, i32),
    target: (i32, i32, i32),
) -> Form {
    let rows = lesser(current.0 as int, target.0 as int) as i32;
    let columns = lesser(current.1 as int, target.1 as int) as i32;
    let part = if rows < current.0 || columns < current.1 {
        Form::Sliced(
            seq![0i64, 0, 0, 0],
            seq![batch as i64, target.2 as i64, rows as i64, columns as i64],
            seq![1i64, 1, 1, 1],
            Box::new(f),
        )
    } else {
        f
    };
    let more = (target.0 as i64 - rows as i64, target.1 as i64 - columns as i64);
    if more.0 > 0 || more.1 > 0 {
        Form::Padded((0, 0), (more.0 as i64, more.1 as i64), Box::new(part))
    } else {
        part
    }
}

/// The result of a transposed convolution, brought to the height and width that the options or the
/// output operand ask for.
pub open spec fn adjusted_form(
    graph: GraphInfo,
    op: Operation,
    f: Form,
    kernel: (i32, i32),
    output_maps: i32,
) -> Form {
    let id = op.inputs@[0];
    let plan = conv_plan(op.kind);
    let target = deconv_target(graph, op, plan.nhwc, output_maps);
    let goal = target->0;
    if id < graph.operands@.len() && graph.operands@[id as int].descriptor.shape@.len() == 4
        && target is Some && goal.0 > 0 && goal.1 > 0 {
        let shape = graph.operands@[id as int].descriptor.shape@;
        let (h, w) = deconv_extents(
            spatial_sizes(shape, plan.nhwc),
            kernel,
            plan,
            output_padding(op.kind),
        );
        fitted_form(f, small_size(shape[0]), (h as i32, w as i32), goal)
    } else {
        f
    }
}

pub(crate) broadcast proof fn forms_adjusted(
    n: Run,
    graph: GraphInfo,
    op: Operation,
    t: Tensor,
    kernel: (i32, i32),
    output_maps: i32,
)
    requires
        adjusted(n, graph, op, t, kernel, output_maps).0.goes_on(),
        n.has(t),
    ensures
        ({
            let (after, r) = #[trigger] adjusted(n, graph, op, t, kernel, output_maps);
            after.has(r) && after.form(r) == adjusted_form(
                graph,
                op,
                n.form(t),
                kernel,
                output_maps,
            )
        }),
{
    broadcast use {group_grows, group_forms, grows_fitted};

    reveal(adjusted);
    reveal(fitted);
}

/// A transposed convolution spreads its input with the filter and trims the result by the paddings
/// of the options: the beginning of the height above, its ending below, the beginning of the width to
/// the left and its ending to the right. What the options add to the output is trimmed less, and the
/// result is brought to the sizes that are asked for. It is computed with the channels second and in
/// single precision, and the result has the layout and the precision of the input.
pub proof fn conv_transpose2d_means(n: Run, m: Map<u32, Tensor>, graph: GraphInfo, op: Operation)
    requires
        went_through(n, m, conv_transpose2d_op(n, m, graph, op)),
    ensures
        ({
            let plan = conv_plan(op.kind);
            let filter = filter_of(graph, op);
            let half = is_half(graph, op.inputs@[0]);
            let whole = deconvolved_form(
                source_form(given(n, m, op, 0), plan.nhwc, half),
                filter_given(n, m, graph, op),
                bias_given(n, m, graph, op),
                filter,
                plan,
                output_padding(op.kind),
            );
            &&& made(op, conv_transpose2d_op(n, m, graph, op)) == result_form(
                adjusted_form(graph, op, whole, filter.kernel, filter.output_maps),
                plan.nhwc,
                half,
            )
            &&& widened(plan.pre) == beginnings(padding_option(op.kind))
            &&& widened(plan.post) == endings(padding_option(op.kind))
        }),
{
    broadcast use {
        group_grows, group_forms, grows_conv_filter, grows_conv_source, grows_conv_parameters,
        grows_deconvolved, grows_adjusted, grows_conv_result, forms_conv_source,
        forms_deconvolved, forms_adjusted, forms_conv_result,
    };

    paddings_land(op.kind);
    let plan = conv_plan(op.kind);
    let name = "convTranspose2d"@;
    let (a, filter) = conv_filter(n, graph, op, " for convTranspose2d"@, name);
    let half = is_half(graph, op.inputs@[0]);
    let (b, source) = conv_source(a, m[op.inputs@[0]], plan.nhwc, half, name);
    let (c, source) = b.identity(
        source,
        "convTranspose2d identity: "@,
        "convTranspose2d identity output: "@,
    );
    let (d, (f, bias)) = conv_parameters(c, m, graph, op, filter.half, name);
    let (e, t) = deconvolved(d, source, f, bias, filter, plan, output_padding(op.kind));
    assert(d.goes_on());
    assert(a.goes_on());
    filter_is_read(n, graph, op, " for convTranspose2d"@, name);
    parameters_are_given(c, m, n, graph, op, filter.half, name);
}

/// The filter of a transposed convolution that went through has four axes, in a layout that is known,
/// and the height and the width of what it leaves fit in 32 bits where they are looked at.
pub(crate) proof fn deconv_filter_is_known(
    n: Run,
    m: Map<u32, Tensor>,
    graph: GraphInfo,
    op: Operation,
)
    requires
        went_through(n, m, conv_transpose2d_op(n, m, graph, op)),
    ensures
        op.inputs@[1] < graph.operands@.len(),
        graph.operands@[op.inputs@[1] as int].descriptor.shape@.len() == 4,
        filter_order(op.kind) is Some,
        fits_i32(output_maps(op.kind, max_sizes(graph.operands@[op.inputs@[1] as int].descriptor.shape@))),
        conv_plan(op.kind).bias matches Some(id) ==> id < graph.operands@.len(),
        ({
            let id = op.inputs@[0];
            let plan = conv_plan(op.kind);
            let filter = filter_of(graph, op);
            let target = deconv_target(graph, op, plan.nhwc, filter.output_maps);
            let shape = graph.operands@[id as int].descriptor.shape@;
            let (h, w) = deconv_extents(
                spatial_sizes(shape, plan.nhwc),
                filter.kernel,
                plan,
                output_padding(op.kind),
            );
            let goal = target->0;
            id < graph.operands@.len() && shape.len() == 4 && target is Some && goal.0 > 0
                && goal.1 > 0 ==> fits_i32(h) && fits_i32(w)
        }),
{
    broadcast use {
        group_grows, group_forms, grows_conv_filter, grows_conv_source, grows_conv_parameters,
        grows_deconvolved, grows_adjusted, grows_conv_result,
    };

    let name = "convTranspose2d"@;
    let plan = conv_plan(op.kind);
    let (a, filter) = conv_filter(n, graph, op, " for convTranspose2d"@, name);
    let half = is_half(graph, op.inputs@[0]);
    let (b, source) = conv_source(a, m[op.inputs@[0]], plan.nhwc, half, name);
    let (c, source) = b.identity(
        source,
        "convTranspose2d identity: "@,
        "convTranspose2d identity output: "@,
    );
    let (d, (f, bias)) = conv_parameters(c, m, graph, op, filter.half, name);
    let (e, t) = deconvolved(d, source, f, bias, filter, plan, output_padding(op.kind));
    let (g, r) = adjusted(e, graph, op, t, filter.kernel, filter.output_maps);
    assert(g.goes_on());
    assert(a.goes_on());
    filter_is_read(n, graph, op, " for convTranspose2d"@, name);
    filter_is_accepted(n, graph, op, " for convTranspose2d"@, name);
    extents_are_small(e, graph, op, t, filter.kernel, filter.output_maps);
}

proof fn extents_are_small(
    n: Run,
    graph: GraphInfo,
    op: Operation,
    t: Tensor,
    kernel: (i32, i32),
    output_maps: i32,
)
    requires
        adjusted(n, graph, op, t, kernel, output_maps).0.goes_on(),
    ensures
        ({
            let id = op.inputs@[0];
            let plan = conv_plan(op.kind);
            let target = deconv_target(graph, op, plan.nhwc, output_maps);
            let shape = graph.operands@[id as int].descriptor.shape@;
            let (h, w) = deconv_extents(
                spatial_sizes(shape, plan.nhwc),
                kernel,
                plan,
                output_padding(op.kind),
            );
            let goal = target->0;
            id < graph.operands@.len() && shape.len() == 4 && target is Some && goal.0 > 0
                && goal.1 > 0 ==> fits_i32(h) && fits_i32(w)
        }),
{
    broadcast use {group_grows, grows_stopped, went_on, grows_fitted};

    reveal(adjusted);
}

/// The slab of a form at `at` along `axis`, one element thick. `d` are the dimensions.
pub open spec fn slab_form(f: Form, d: Seq<i64>, axis: nat, at: i64) -> Form {
    Form::Sliced(
        zeros(d.len()).update(axis as int, at),
        d.update(axis as int, 1),
        ones(d.len()),
        Box::new(f),
    )
}

/// A block of the dimensions of `d`, but for `extent` along `axis`, filled with `unit`, where there
/// is any.
pub open spec fn block(
    d: Seq<i64>,
    axis: nat,
    extent: i32,
    unit: Seq<u8>,
    ty: TrtDataType,
) -> Seq<Form> {
    let shape = d.update(axis as int, extent as i64);
    if extent > 0 {
        seq![Form::Constant(shape, repeated(unit, extent_product(not_below_zero(shape))->0), ty)]
    } else {
        seq![]
    }
}

/// `count` times the same form, none where it is negative.
pub open spec fn form_copies(f: Form, count: i32) -> Seq<Form> {
    Seq::new(
        if count < 0 {
            0
        } else {
            count as nat
        },
        |i: int| f,
    )
}

/// A form of the dimensions `d` and the type `ty`, padded along one axis: with blocks of the number
/// that fills, with copies of its first and its last slab, or with the slabs that mirror those next
/// to its edges.
pub open spec fn padded_axis(
    f: Form,
    d: Seq<i64>,
    ty: TrtDataType,
    axis: nat,
    pre: i32,
    post: i32,
    mode: PadMode,
    fill: FloatReading,
) -> Form {
    let extent = d[axis as int];
    Form::Joined(
        axis as i32,
        match mode {
            PadMode::Constant => block(d, axis, pre, fill_bytes(fill, ty)->0, ty).push(f) + block(
                d,
                axis,
                post,
                fill_bytes(fill, ty)->0,
                ty,
            ),
            PadMode::Edge => form_copies(slab_form(f, d, axis, 0), pre).push(f) + form_copies(
                slab_form(f, d, axis, (extent - 1) as i64),
                post,
            ),
            PadMode::Reflect => slab_forms(f, d, axis, mirror_before(pre)).push(f) + slab_forms(
                f,
                d,
                axis,
                mirror_after(extent, post),
            ),
        },
    )
}

/// The slabs of a form at these positions along `axis`.
pub open spec fn slab_forms(f: Form, d: Seq<i64>, axis: nat, positions: Seq<i64>) -> Seq<Form> {
    Seq::new(positions.len(), |i: int| slab_form(f, d, axis, positions[i]))
}

/// Whether `to` is `from` padded along one axis, of whatever dimensions and type it has.
pub open spec fn is_padded_along(
    from: Form,
    to: Form,
    axis: nat,
    pre: i32,
    post: i32,
    mode: PadMode,
    fill: FloatReading,
) -> bool {
    if pre <= 0 && post <= 0 {
        to == from
    } else {
        exists|d: Seq<i64>, ty: TrtDataType|
            axis < d.len() && to == #[trigger] padded_axis(
                from,
                d,
                ty,
                axis,
                pre,
                post,
                mode,
                fill,
            )
    }
}

/// Whether the form at `i + 1` is the one at `i` padded along the axis `i`.
pub open spec fn padded_step(
    steps: Seq<Form>,
    pre: Seq<i32>,
    post: Seq<i32>,
    i: int,
    mode: PadMode,
    fill: FloatReading,
) -> bool {
    is_padded_along(steps[i], steps[i + 1], i as nat, pre[i], post[i], mode, fill)
}

/// Whether each form is the one before it padded along the next of the first `k` axes.
pub open spec fn padded_through(
    steps: Seq<Form>,
    pre: Seq<i32>,
    post: Seq<i32>,
    k: nat,
    mode: PadMode,
    fill: FloatReading,
) -> bool {
    &&& steps.len() == k + 1
    &&& forall|i: int| 0 <= i < k ==> #[trigger] padded_step(steps, pre, post, i, mode, fill)
}

/// Whether `to` is `from` padded along the first `k` axes, one after the other.
pub open spec fn is_padded(
    from: Form,
    to: Form,
    pre: Seq<i32>,
    post: Seq<i32>,
    k: nat,
    mode: PadMode,
    fill: FloatReading,
) -> bool {
    exists|steps: Seq<Form>| #[trigger]
        padded_through(steps, pre, post, k, mode, fill) && steps.first() == from && steps.last()
            == to
}

pub(crate) broadcast proof fn forms_slab(
    n: Run,
    x: Tensor,
    d: Seq<i64>,
    axis: nat,
    at: i64,
    add_label: Seq<char>,
    output_label: Seq<char>,
)
    requires
        slab(n, x, d, axis, at, add_label, output_label).0.goes_on(),
        n.has(x),
    ensures
        ({
            let (after, t) = #[trigger] slab(n, x, d, axis, at, add_label, output_label);
            after.has(t) && after.form(t) == slab_form(n.form(x), d, axis, at)
        }),
{
    broadcast use {group_grows, group_forms};

    reveal(slab);
}

proof fn forms_slabs(
    n: Run,
    x: Tensor,
    d: Seq<i64>,
    axis: nat,
    positions: Seq<i64>,
    k: nat,
    add_label: Seq<char>,
    output_label: Seq<char>,
)
    requires
        slabs(n, x, d, axis, positions, k, add_label, output_label).0.goes_on(),
        n.has(x),
        k <= positions.len(),
    ensures
        ({
            let (after, list) = slabs(n, x, d, axis, positions, k, add_label, output_label);
            &&& after.has_all(list)
            &&& after.forms(list) == slab_forms(n.form(x), d, axis, positions.take(k as int))
        }),
    decreases k,
{
    broadcast use {group_grows, group_forms, grows_slab, grows_slabs, forms_slab};

    if k > 0 {
        let (a, cut) = slabs(
            n,
            x,
            d,
            axis,
            positions,
            (k - 1) as nat,
            add_label,
            output_label,
        );
        let (b, t) = slab(a, x, d, axis, positions[k - 1], add_label, output_label);
        assert(a.goes_on());
        forms_slabs(n, x, d, axis, positions, (k - 1) as nat, add_label, output_label);
        pushed_forms(a, b, cut, t);
        assert(slab_forms(n.form(x), d, axis, positions.take(k as int)) =~= slab_forms(
            n.form(x),
            d,
            axis,
            positions.take(k - 1),
        ).push(slab_form(n.form(x), d, axis, positions[k - 1])));
    } else {
        assert(n.forms(seq![]) =~= slab_forms(n.form(x), d, axis, positions.take(0)));
    }
}

/// One more tensor behind a list of them.
pub(crate) proof fn pushed_forms(n: Run, after: Run, list: Seq<Tensor>, t: Tensor)
    requires
        after.grows(n),
        n.has_all(list),
        after.has(t),
    ensures
        after.has_all(list.push(t)),
        after.forms(list.push(t)) == n.forms(list).push(after.form(t)),
{
    forms_are_kept(n, after, list);
    assert forall|i: int| 0 <= i < list.len() + 1 implies after.has(
        #[trigger] list.push(t)[i],
    ) by {
        if i < list.len() {
            assert(after.has(list[i]));
        }
    }
    assert(after.forms(list.push(t)) =~= after.forms(list).push(after.form(t)));
}

/// Lists of tensors one behind the other.
proof fn added_forms(n: Run, a: Seq<Tensor>, b: Seq<Tensor>)
    requires
        n.has_all(a),
        n.has_all(b),
    ensures
        n.has_all(a + b),
        n.forms(a + b) == n.forms(a) + n.forms(b),
{
    assert forall|i: int| 0 <= i < (a + b).len() implies n.has(#[trigger] (a + b)[i]) by {
        if i < a.len() {
            assert(n.has(a[i]));
        } else {
            assert(n.has(b[i - a.len()]));
        }
    }
    assert(n.forms(a + b) =~= n.forms(a) + n.forms(b));
}

/// Copies of a tensor.
proof fn copied_forms(n: Run, t: Tensor, count: i32)
    requires
        n.has(t),
    ensures
        n.has_all(copies(t, count as i64)),
        n.forms(copies(t, count as i64)) == form_copies(n.form(t), count),
{
    assert(n.forms(copies(t, count as i64)) =~= form_copies(n.form(t), count));
}

/// A tensor padded along one axis with copies of its edges is put together as [`padded_axis`] says.
pub proof fn forms_pad_axis_edge(n: Run, x: Tensor, axis: nat, pre: i32, post: i32, fill: FloatReading)
    requires
        pad_axis_edge(n, x, axis, pre, post).0.goes_on(),
        n.has(x),
    ensures
        ({
            let (after, t) = pad_axis_edge(n, x, axis, pre, post);
            after.has(t) && is_padded_along(
                n.form(x),
                after.form(t),
                axis,
                pre,
                post,
                PadMode::Edge,
                fill,
            )
        }),
{
    broadcast use {group_grows, group_forms, grows_slab, forms_slab};

    reveal(pad_axis_edge);
    if pre > 0 || post > 0 {
        let (a, d) = n.dims(x, "Pad edge: dimensions: "@);
        let (b, first) = slab(
            a,
            x,
            d,
            axis,
            0,
            "Pad edge: left slice: "@,
            "Pad edge: left slice output: "@,
        );
        let (c, last) = slab(
            b,
            x,
            d,
            axis,
            (d[axis as int] - 1) as i64,
            "Pad edge: right slice: "@,
            "Pad edge: right slice output: "@,
        );
        let left = copies(first, pre as i64);
        let right = copies(last, post as i64);
        assert(c.goes_on());
        form_is_kept(n, c, x);
        form_is_kept(b, c, first);
        copied_forms(c, first, pre);
        copied_forms(c, last, post);
        pushed_forms(c, c, left, x);
        added_forms(c, left.push(x), right);
        forms_concat(
            c,
            left.push(x) + right,
            axis as i32,
            "Pad edge: concat: "@,
            "Pad edge: concat out: "@,
        );
        let t = pad_axis_edge(n, x, axis, pre, post);
        assert(t.0.form(t.1) == padded_axis(
            n.form(x),
            d,
            TrtDataType::kFLOAT,
            axis,
            pre,
            post,
            PadMode::Edge,
            fill,
        ));
    }
}

/// A tensor padded along one axis with its mirror image is put together as [`padded_axis`] says.
pub proof fn forms_pad_axis_reflect(
    n: Run,
    x: Tensor,
    axis: nat,
    pre: i32,
    post: i32,
    fill: FloatReading,
)
    requires
        pad_axis_reflect(n, x, axis, pre, post).0.goes_on(),
        n.has(x),
    ensures
        ({
            let (after, t) = pad_axis_reflect(n, x, axis, pre, post);
            after.has(t) && is_padded_along(
                n.form(x),
                after.form(t),
                axis,
                pre,
                post,
                PadMode::Reflect,
                fill,
            )
        }),
{
    broadcast use {group_grows, group_forms, grows_slabs};

    reveal(pad_axis_reflect);
    if pre > 0 || post > 0 {
        let (a, d) = n.dims(x, "Pad reflect: dimensions: "@);
        let before = mirror_before(pre);
        let after = mirror_after(d[axis as int], post);
        let (b, left) = slabs(
            a,
            x,
            d,
            axis,
            before,
            before.len(),
            "Pad reflect: pre slice: "@,
            "Pad reflect: pre slice out: "@,
        );
        let (c, right) = slabs(
            b,
            x,
            d,
            axis,
            after,
            after.len(),
            "Pad reflect: post slice: "@,
            "Pad reflect: post slice out: "@,
        );
        assert(c.goes_on());
        assert(b.goes_on());
        form_is_kept(n, a, x);
        form_is_kept(n, b, x);
        form_is_kept(n, c, x);
        forms_slabs(
            a,
            x,
            d,
            axis,
            before,
            before.len(),
            "Pad reflect: pre slice: "@,
            "Pad reflect: pre slice out: "@,
        );
        forms_slabs(
            b,
            x,
            d,
            axis,
            after,
            after.len(),
            "Pad reflect: post slice: "@,
            "Pad reflect: post slice out: "@,
        );
        assert(before.take(before.len() as int) =~= before);
        assert(after.take(after.len() as int) =~= after);
        pushed_forms(b, c, left, x);
        added_forms(c, left.push(x), right);
        forms_concat(
            c,
            left.push(x) + right,
            axis as i32,
            "Pad reflect: concat: "@,
            "Pad reflect: concat out: "@,
        );
        let t = pad_axis_reflect(n, x, axis, pre, post);
        assert(t.0.form(t.1) == padded_axis(
            n.form(x),
            d,
            TrtDataType::kFLOAT,
            axis,
            pre,
            post,
            PadMode::Reflect,
            fill,
        ));
    }
}

proof fn forms_filler(
    n: Run,
    d: Seq<i64>,
    axis: nat,
    extent: i32,
    unit: Seq<u8>,
    dtype: TrtDataType,
)
    requires
        filler(n, d, axis, extent, unit, dtype).0.goes_on(),
        extent > 0,
    ensures
        ({
            let (after, t) = filler(n, d, axis, extent, unit, dtype);
            after.has(t) && seq![after.form(t)] == block(d, axis, extent, unit, dtype)
        }),
{
    broadcast use {group_grows, group_forms, grows_elements};

    reveal(filler);
}

/// One block of a padding with a constant, where there is any.
proof fn forms_block(n: Run, d: Seq<i64>, axis: nat, extent: i32, unit: Seq<u8>, dtype: TrtDataType)
    requires
        n.goes_on(),
        extent > 0 ==> filler(n, d, axis, extent, unit, dtype).0.goes_on(),
    ensures
        ({
            let (after, list) = if extent > 0 {
                let (after, t) = filler(n, d, axis, extent, unit, dtype);
                (after, seq![t])
            } else {
                (n, seq![])
            };
            after.has_all(list) && after.forms(list) == block(d, axis, extent, unit, dtype)
        }),
{
    if extent > 0 {
        forms_filler(n, d, axis, extent, unit, dtype);
        let (after, t) = filler(n, d, axis, extent, unit, dtype);
        assert(after.forms(seq![t]) =~= seq![after.form(t)]);
    } else {
        assert(n.forms(seq![]) =~= block(d, axis, extent, unit, dtype));
    }
}

/// A tensor padded along one axis with a number is put together as [`padded_axis`] says.
pub proof fn forms_pad_axis_constant(
    n: Run,
    x: Tensor,
    axis: nat,
    pre: i32,
    post: i32,
    fill: FloatReading,
)
    requires
        pad_axis_constant(n, x, axis, pre, post, fill).0.goes_on(),
        n.has(x),
    ensures
        ({
            let (after, t) = pad_axis_constant(n, x, axis, pre, post, fill);
            after.has(t) && is_padded_along(
                n.form(x),
                after.form(t),
                axis,
                pre,
                post,
                PadMode::Constant,
                fill,
            )
        }),
{
    broadcast use {group_grows, group_forms, grows_filler};

    reveal(pad_axis_constant);
    if pre > 0 || post > 0 {
        let (a, d) = n.dims(x, "Pad concat: dimensions: "@);
        let dtype = a.dtype(x);
        let unit = fill_bytes(fill, dtype)->0;
        let (b, before) = if pre > 0 {
            let (b, t) = filler(a, d, axis, pre, unit, dtype);
            (b, seq![t])
        } else {
            (a, seq![])
        };
        let (c, after) = if post > 0 {
            let (c, t) = filler(b, d, axis, post, unit, dtype);
            (c, seq![t])
        } else {
            (b, seq![])
        };
        assert(c.goes_on());
        assert(b.goes_on());
        form_is_kept(n, c, x);
        forms_block(a, d, axis, pre, unit, dtype);
        forms_block(b, d, axis, post, unit, dtype);
        pushed_forms(b, c, before, x);
        added_forms(c, before.push(x), after);
        forms_concat(
            c,
            before.push(x) + after,
            axis as i32,
            "Pad concat: concat: "@,
            "Pad concat: concat out: "@,
        );
        let t = pad_axis_constant(n, x, axis, pre, post, fill);
        assert(t.0.form(t.1) == padded_axis(
            n.form(x),
            d,
            dtype,
            axis,
            pre,
            post,
            PadMode::Constant,
            fill,
        ));
    }
}

proof fn forms_pad_axes(
    n: Run,
    x: Tensor,
    pre: Seq<i32>,
    post: Seq<i32>,
    k: nat,
    mode: PadMode,
    fill: FloatReading,
)
    requires
        pad_axes(n, x, pre, post, k, mode, fill).0.goes_on(),
        n.has(x),
    ensures
        ({
            let (after, t) = pad_axes(n, x, pre, post, k, mode, fill);
            after.has(t) && is_padded(n.form(x), after.form(t), pre, post, k, mode, fill)
        }),
    decreases k,
{
    broadcast use {group_grows, grows_stopped, went_on, grows_pad_axes, grows_pad_axis};

    if k > 0 {
        let (a, t) = pad_axes(n, x, pre, post, (k - 1) as nat, mode, fill);
        let axis = (k - 1) as nat;
        let (b, r) = pad_axis(a, t, axis, pre[k - 1], post[k - 1], mode, fill);
        assert(b.goes_on());
        assert(a.goes_on());
        forms_pad_axes(n, x, pre, post, axis, mode, fill);
        reveal(pad_axis);
        if pre[k - 1] != 0 || post[k - 1] != 0 {
            match mode {
                PadMode::Edge => forms_pad_axis_edge(a, t, axis, pre[k - 1], post[k - 1], fill),
                PadMode::Reflect => forms_pad_axis_reflect(
                    a,
                    t,
                    axis,
                    pre[k - 1],
                    post[k - 1],
                    fill,
                ),
                PadMode::Constant => forms_pad_axis_constant(
                    a,
                    t,
                    axis,
                    pre[k - 1],
                    post[k - 1],
                    fill,
                ),
            }
        }
        let steps = choose|steps: Seq<Form>| #[trigger]
            padded_through(steps, pre, post, axis, mode, fill) && steps.first() == n.form(x)
                && steps.last() == a.form(t);
        let more = steps.push(b.form(r));
        assert forall|i: int| 0 <= i < k implies #[trigger] padded_step(
            more,
            pre,
            post,
            i,
            mode,
            fill,
        ) by {
            if i < axis {
                assert(padded_step(steps, pre, post, i, mode, fill));
            }
        }
        assert(padded_through(more, pre, post, k, mode, fill));
    } else {
        assert(padded_through(seq![n.form(x)], pre, post, 0, mode, fill));
    }
}

/// A form of the dimensions `d` with zeros round its last two axes, put there by a layer that takes
/// four axes or more.
pub open spec fn padded_behind(f: Form, d: Seq<i64>, pre: Seq<i32>, post: Seq<i32>) -> Form {
    if d.len() < 4 {
        Form::Reshaped(
            padded_dims(d, pre, post)->0,
            Box::new(
                Form::Padded(
                    last_two(pre),
                    last_two(post),
                    Box::new(Form::Reshaped(left_padded(d, 4), Box::new(f))),
                ),
            ),
        )
    } else {
        Form::Padded(last_two(pre), last_two(post), Box::new(f))
    }
}

/// Padding puts, along each axis, as many elements before the input as the beginning padding says of
/// the axis and as many behind it as the ending padding says: a number, copies of what stands at the
/// edge, or its mirror image. Zeros along the last two axes alone are put there at once.
pub proof fn pad_means(n: Run, m: Map<u32, Tensor>, op: Operation)
    requires
        went_through(n, m, pad_op(n, m, op)),
    ensures
        ({
            let x = given(n, m, op, 0);
            let end = made(op, pad_op(n, m, op));
            let (pre, post) = pad_amounts(op.kind);
            let options = pad_options(op.kind)->0;
            let mode = pad_mode(options.mode@);
            let fill = pad_fill(options);
            &&& pre.len() == post.len() == reported(n, m[op.inputs@[0]]).len()
            &&& if unpadded(pre, post, pre.len() as int) {
                end == x
            } else if mode == Some(PadMode::Constant) && is_zero(fill) && unpadded(
                pre,
                post,
                pre.len() - 2,
            ) {
                end == padded_behind(x, reported(n, m[op.inputs@[0]]), pre, post)
            } else {
                is_padded(x, end, pre, post, pre.len(), mode->0, fill)
            }
        }),
{
    broadcast use {group_grows, group_forms, grows_pad_axes, grows_pad_last_axes};

    let x = m[op.inputs@[0]];
    let (a, d) = n.dims(x, "Failed to get input dimensions: "@);
    let (pre, post) = pad_amounts(op.kind);
    let options = pad_options(op.kind)->0;
    let mode = pad_mode(options.mode@);
    let fill = pad_fill(options);
    assert(d == reported(n, x)) by {
        reveal(Run::dims);
    }
    if unpadded(pre, post, pre.len() as int) {
    } else if mode == Some(PadMode::Constant) && is_zero(fill) && unpadded(
        pre,
        post,
        pre.len() - 2,
    ) {
        reveal(pad_last_axes);
    } else {
        assert(pad_axes(a, x, pre, post, pre.len(), mode->0, fill).0.goes_on());
        form_is_kept(n, a, x);
        forms_pad_axes(a, x, pre, post, pre.len(), mode->0, fill);
    }
}

/// Where the elements of the windows of a pooling with dilations lie.
pub open spec fn layout_of(kind: Dilated, d: Seq<i64>, window: (u32, u32), plan: PoolPlan) -> Grid {
    grid_of(kind, Tensor { id: 0 }, d, window, plan, 0)
}

/// One element of the window of a cell: that of the input at its place, or what stands outside.
pub open spec fn tap_form(g: Grid, x: Form, outside: Form, row: nat, col: nat, k: nat) -> Form {
    let at = tap_place(g, row, col, k);
    if inside(g, at) {
        Form::Sliced(
            seq![0i64, 0, at.0 as i64, at.1 as i64],
            seq![g.depth.0, g.depth.1, 1i64, 1],
            seq![1i64, 1, 1, 1],
            Box::new(x),
        )
    } else {
        outside
    }
}

/// The first `k` elements of the window of a cell.
pub open spec fn tap_forms(
    g: Grid,
    x: Form,
    outside: Form,
    row: nat,
    col: nat,
    k: nat,
) -> Seq<Form> {
    Seq::new(k, |i: int| tap_form(g, x, outside, row, col, i as nat))
}

/// The first `k` forms of a list, which are at least one, combined from the left.
pub open spec fn combined_form(kind: Dilated, list: Seq<Form>, k: nat) -> Form
    decreases k,
{
    if k <= 1 {
        list[0]
    } else {
        Form::Elementwise(
            dilated_rule(kind).0,
            Box::new(combined_form(kind, list, (k - 1) as nat)),
            Box::new(list[k - 1]),
        )
    }
}

/// One cell of the output: the elements of its window, combined.
pub open spec fn cell_form(g: Grid, x: Form, outside: Form, row: nat, col: nat) -> Form {
    let count = (g.kernel.0 * g.kernel.1) as nat;
    combined_form(g.kind, tap_forms(g, x, outside, row, col, count), count)
}

/// The first `k` cells of a row of the output.
pub open spec fn cell_forms(g: Grid, x: Form, outside: Form, row: nat, k: nat) -> Seq<Form> {
    Seq::new(k, |i: int| cell_form(g, x, outside, row, i as nat))
}

/// Forms put together along one axis; a single one is passed on.
pub open spec fn joined_form(parts: Seq<Form>, axis: i32) -> Form {
    if parts.len() == 1 {
        parts[0]
    } else {
        Form::Joined(axis, parts)
    }
}

/// The first `k` rows of the output, each of `width` cells.
pub open spec fn row_forms(g: Grid, x: Form, outside: Form, width: nat, k: nat) -> Seq<Form> {
    Seq::new(k, |i: int| joined_form(cell_forms(g, x, outside, i as nat, width), 3))
}

/// What stands outside the input of a pooling with dilations: negative infinity for a maximum, zeros
/// for a sum.
pub open spec fn outside_form(kind: Dilated, d: Seq<i64>) -> Form {
    Form::Constant(
        seq![d[0], d[1], 1i64, 1],
        repeated(
            le4(known(dilated_rule(kind).1).single),
            ((d[0] * d[1]) as i64 as usize) as nat,
        ),
        TrtDataType::kFLOAT,
    )
}

/// A pooling with dilations of a form with the dimensions `d`: `rows` rows of `columns` cells, each
/// the combined elements of its window.
pub open spec fn dilated_form(
    kind: Dilated,
    x: Form,
    d: Seq<i64>,
    window: (u32, u32),
    plan: PoolPlan,
    rows: nat,
    columns: nat,
) -> Form {
    joined_form(
        row_forms(layout_of(kind, d, window, plan), x, outside_form(kind, d), columns, rows),
        2,
    )
}

/// The beginnings of the paddings of the options of a pooling shift its windows up and to the left:
/// element `(i, j)` of the window of the cell in row `r` and column `c` lies `beginning` less than
/// `r * stride + i * dilation` down, and likewise to the right.
pub proof fn windows_land(
    kind: Dilated,
    d: Seq<i64>,
    window: (u32, u32),
    plan: PoolPlan,
    row: nat,
    col: nat,
    i: nat,
    j: nat,
)
    requires
        i < window.0,
        j < window.1,
    ensures
        ({
            let k = (i * window.1 + j) as nat;
            let at = tap_place(layout_of(kind, d, window, plan), row, col, k);
            &&& k < window.0 * window.1
            &&& at.0 == row * (plan.strides.0 as i32) + i * (plan.dilations.0 as i32) - (
            plan.padding.0 as i32)
            &&& at.1 == col * (plan.strides.1 as i32) + j * (plan.dilations.1 as i32) - (
            plan.padding.2 as i32)
        }),
{
    let w = window.1 as int;
    let k = i * w + j;
    assert(0 <= i * w) by (nonlinear_arith)
        requires
            0 <= i,
            0 <= w,
    ;
    assert(k < window.0 * w) by (nonlinear_arith)
        requires
            k == i * w + j,
            j < w,
            i + 1 <= window.0,
    ;
    vstd::arithmetic::div_mod::lemma_fundamental_div_mod_converse(k, w, i as int, j as int);
}

/// Whether a grid is laid out like another, for tensors of its own.
spec fn laid_out(g: Grid, other: Grid) -> bool {
    g == (Grid { x: g.x, outside: g.outside, ..other })
}

/// Whether the input and the constant of a grid have these forms.
spec fn grid_is(n: Run, g: Grid, x: Form, dims: Seq<i64>, bytes: Seq<u8>) -> bool {
    n.has(g.x) && n.form(g.x) == x && is_constant(n, g.outside, dims, bytes, TrtDataType::kFLOAT)
}

proof fn grid_is_kept(n: Run, after: Run, g: Grid, x: Form, dims: Seq<i64>, bytes: Seq<u8>)
    requires
        after.grows(n),
        grid_is(n, g, x, dims, bytes),
    ensures
        grid_is(after, g, x, dims, bytes),
{
    form_is_kept(n, after, g.x);
    constant_stays(n, after, g.outside, dims, bytes, TrtDataType::kFLOAT);
}

proof fn forms_tap(
    n: Run,
    g: Grid,
    x: Form,
    dims: Seq<i64>,
    bytes: Seq<u8>,
    row: nat,
    col: nat,
    k: nat,
)
    requires
        tap(n, g, row, col, k).0.goes_on(),
        grid_is(n, g, x, dims, bytes),
    ensures
        ({
            let (after, t) = tap(n, g, row, col, k);
            let outside = Form::Constant(dims, bytes, TrtDataType::kFLOAT);
            after.has(t) && after.form(t) == tap_form(g, x, outside, row, col, k)
        }),
{
    broadcast use {group_grows, group_forms, forms_constant_output};

    reveal(tap);
}

proof fn forms_taps(
    n: Run,
    g: Grid,
    x: Form,
    dims: Seq<i64>,
    bytes: Seq<u8>,
    row: nat,
    col: nat,
    k: nat,
)
    requires
        taps(n, g, row, col, k).0.goes_on(),
        grid_is(n, g, x, dims, bytes),
    ensures
        ({
            let (after, list) = taps(n, g, row, col, k);
            let outside = Form::Constant(dims, bytes, TrtDataType::kFLOAT);
            after.has_all(list) && after.forms(list) == tap_forms(g, x, outside, row, col, k)
        }),
    decreases k,
{
    broadcast use {group_grows, grows_stopped, went_on, grows_tap, grows_taps};

    let outside = Form::Constant(dims, bytes, TrtDataType::kFLOAT);
    if k > 0 {
        let (a, list) = taps(n, g, row, col, (k - 1) as nat);
        let (b, t) = tap(a, g, row, col, (k - 1) as nat);
        assert(a.goes_on());
        forms_taps(n, g, x, dims, bytes, row, col, (k - 1) as nat);
        grid_is_kept(n, a, g, x, dims, bytes);
        forms_tap(a, g, x, dims, bytes, row, col, (k - 1) as nat);
        pushed_forms(a, b, list, t);
        assert(tap_forms(g, x, outside, row, col, k) =~= tap_forms(
            g,
            x,
            outside,
            row,
            col,
            (k - 1) as nat,
        ).push(tap_form(g, x, outside, row, col, (k - 1) as nat)));
    } else {
        assert(n.forms(seq![]) =~= tap_forms(g, x, outside, row, col, 0));
    }
}

proof fn forms_combined(n: Run, kind: Dilated, list: Seq<Tensor>, k: nat)
    requires
        combined(n, kind, list, k).0.goes_on(),
        n.has_all(list),
        1 <= k <= list.len(),
    ensures
        ({
            let (after, t) = combined(n, kind, list, k);
            after.has(t) && after.form(t) == combined_form(kind, n.forms(list), k)
        }),
    decreases k,
{
    broadcast use {group_grows, group_forms, grows_combined, grows_combine};

    if k > 1 {
        let (a, t) = combined(n, kind, list, (k - 1) as nat);
        assert(n.has(list[k - 1]));
        assert(combine(a, kind, t, list[k - 1]).0.goes_on());
        assert(a.goes_on());
        forms_combined(n, kind, list, (k - 1) as nat);
        form_is_kept(n, a, list[k - 1]);
        reveal(combine);
    } else {
        assert(n.has(list[0]));
    }
}

proof fn forms_cell(
    n: Run,
    g: Grid,
    x: Form,
    dims: Seq<i64>,
    bytes: Seq<u8>,
    row: nat,
    col: nat,
)
    requires
        cell(n, g, row, col).0.goes_on(),
        grid_is(n, g, x, dims, bytes),
        g.kernel.0 * g.kernel.1 >= 1,
    ensures
        ({
            let (after, t) = cell(n, g, row, col);
            let outside = Form::Constant(dims, bytes, TrtDataType::kFLOAT);
            after.has(t) && after.form(t) == cell_form(g, x, outside, row, col)
        }),
{
    broadcast use {group_grows, grows_stopped, went_on, grows_taps, grows_combined};

    reveal(cell);
    let count = (g.kernel.0 * g.kernel.1) as nat;
    let (a, list) = taps(n, g, row, col, count);
    assert(a.goes_on());
    forms_taps(n, g, x, dims, bytes, row, col, count);
    assert(a.forms(list).len() == count);
    forms_combined(a, g.kind, list, count);
}

proof fn forms_cells(
    n: Run,
    g: Grid,
    x: Form,
    dims: Seq<i64>,
    bytes: Seq<u8>,
    row: nat,
    k: nat,
)
    requires
        cells(n, g, row, k).0.goes_on(),
        grid_is(n, g, x, dims, bytes),
        g.kernel.0 * g.kernel.1 >= 1,
    ensures
        ({
            let (after, list) = cells(n, g, row, k);
            let outside = Form::Constant(dims, bytes, TrtDataType::kFLOAT);
            after.has_all(list) && after.forms(list) == cell_forms(g, x, outside, row, k)
        }),
    decreases k,
{
    broadcast use {group_grows, grows_stopped, went_on, grows_cell, grows_cells};

    let outside = Form::Constant(dims, bytes, TrtDataType::kFLOAT);
    if k > 0 {
        let (a, list) = cells(n, g, row, (k - 1) as nat);
        let (b, t) = cell(a, g, row, (k - 1) as nat);
        assert(a.goes_on());
        forms_cells(n, g, x, dims, bytes, row, (k - 1) as nat);
        grid_is_kept(n, a, g, x, dims, bytes);
        forms_cell(a, g, x, dims, bytes, row, (k - 1) as nat);
        pushed_forms(a, b, list, t);
        assert(cell_forms(g, x, outside, row, k) =~= cell_forms(
            g,
            x,
            outside,
            row,
            (k - 1) as nat,
        ).push(cell_form(g, x, outside, row, (k - 1) as nat)));
    } else {
        assert(n.forms(seq![]) =~= cell_forms(g, x, outside, row, 0));
    }
}

proof fn forms_joined(n: Run, parts: Seq<Tensor>, axis: i32)
    requires
        joined(n, parts, axis).0.goes_on(),
        n.has_all(parts),
    ensures
        ({
            let (after, t) = joined(n, parts, axis);
            after.has(t) && after.form(t) == joined_form(n.forms(parts), axis)
        }),
{
    broadcast use {group_grows, group_forms, forms_concat};

    reveal(joined);
    if parts.len() == 1 {
        assert(n.has(parts[0]));
    }
}

proof fn forms_grid_rows(
    n: Run,
    g: Grid,
    x: Form,
    dims: Seq<i64>,
    bytes: Seq<u8>,
    width: nat,
    k: nat,
)
    requires
        grid_rows(n, g, width, k).0.goes_on(),
        grid_is(n, g, x, dims, bytes),
        g.kernel.0 * g.kernel.1 >= 1,
    ensures
        ({
            let (after, list) = grid_rows(n, g, width, k);
            let outside = Form::Constant(dims, bytes, TrtDataType::kFLOAT);
            after.has_all(list) && after.forms(list) == row_forms(g, x, outside, width, k)
        }),
    decreases k,
{
    broadcast use {
        group_grows, grows_stopped, went_on, grows_grid_row, grows_grid_rows, grows_cells,
        grows_joined,
    };

    let outside = Form::Constant(dims, bytes, TrtDataType::kFLOAT);
    if k > 0 {
        let row = (k - 1) as nat;
        let (a, list) = grid_rows(n, g, width, row);
        let (b, t) = grid_row(a, g, row, width);
        assert(a.goes_on());
        forms_grid_rows(n, g, x, dims, bytes, width, row);
        grid_is_kept(n, a, g, x, dims, bytes);
        reveal(grid_row);
        let (c, parts) = cells(a, g, row, width);
        assert(c.goes_on());
        forms_cells(a, g, x, dims, bytes, row, width);
        forms_joined(c, parts, 3);
        pushed_forms(a, b, list, t);
        assert(row_forms(g, x, outside, width, k) =~= row_forms(g, x, outside, width, row).push(
            joined_form(cell_forms(g, x, outside, row, width), 3),
        ));
    } else {
        assert(n.forms(seq![]) =~= row_forms(g, x, outside, width, 0));
    }
}

/// Whether `to` is `from` pooled with dilations, of whatever dimensions it has.
pub open spec fn is_pooled(
    kind: Dilated,
    from: Form,
    to: Form,
    window: (u32, u32),
    plan: PoolPlan,
) -> bool {
    exists|d: Seq<i64>, rows: nat, columns: nat|
        dilated_fault(d, window, plan, kind) is None && rows > 0 && columns > 0 && to
            == #[trigger] dilated_form(kind, from, d, window, plan, rows, columns)
}

proof fn rows_are_alike(g: Grid, other: Grid, x: Form, outside: Form, width: nat, k: nat)
    requires
        laid_out(g, other),
    ensures
        row_forms(g, x, outside, width, k) == row_forms(other, x, outside, width, k),
{
    assert forall|row: nat| #[trigger]
        cell_forms(g, x, outside, row, width) == cell_forms(other, x, outside, row, width) by {
        assert forall|col: nat| #[trigger]
            cell_form(g, x, outside, row, col) == cell_form(other, x, outside, row, col) by {
            let count = (g.kernel.0 * g.kernel.1) as nat;
            assert(tap_forms(g, x, outside, row, col, count) =~= tap_forms(
                other,
                x,
                outside,
                row,
                col,
                count,
            ));
        }
        assert(cell_forms(g, x, outside, row, width) =~= cell_forms(
            other,
            x,
            outside,
            row,
            width,
        ));
    }
    assert(row_forms(g, x, outside, width, k) =~= row_forms(other, x, outside, width, k));
}

proof fn forms_dilated_pool(
    n: Run,
    x: Tensor,
    output: u32,
    window: (u32, u32),
    plan: PoolPlan,
    kind: Dilated,
)
    requires
        dilated_pool(n, x, output, window, plan, kind).0.goes_on(),
        n.has(x),
    ensures
        ({
            let (after, t) = dilated_pool(n, x, output, window, plan, kind);
            after.has(t) && is_pooled(kind, n.form(x), after.form(t), window, plan)
        }),
{
    broadcast use {
        group_grows, grows_stopped, went_on, grows_dilated_extents, grows_outside_constant,
        grows_grid_rows, grows_joined, grows_step_add_owned_constant, forms_add_owned_constant,
    };

    reveal(dilated_pool);
    let name = dilated_name(kind);
    let (a, d) = n.dims(x, name + " input dimensions: "@);
    let (b, (rows, columns)) = dilated_extents(a, output, d, window, plan, kind);
    let (c, outside) = outside_constant(b, d, kind);
    let g = grid_of(kind, x, d, window, plan, outside);
    let (e, list) = grid_rows(c, g, columns as nat, rows as nat);
    assert(e.goes_on());
    assert(c.goes_on());
    let dims = seq![d[0], d[1], 1i64, 1];
    let bytes = repeated(
        le4(known(dilated_rule(kind).1).single),
        ((d[0] * d[1]) as i64 as usize) as nat,
    );
    reveal(outside_constant);
    assert(is_constant(c, outside, dims, bytes, TrtDataType::kFLOAT));
    form_is_kept(n, c, x);
    assert(g.kernel.0 * g.kernel.1 >= 1) by (nonlinear_arith)
        requires
            g.kernel.0 >= 1,
            g.kernel.1 >= 1,
    ;
    forms_grid_rows(c, g, n.form(x), dims, bytes, columns as nat, rows as nat);
    forms_joined(e, list, 2);
    rows_are_alike(
        g,
        layout_of(kind, d, window, plan),
        n.form(x),
        outside_form(kind, d),
        columns as nat,
        rows as nat,
    );
    let (after, t) = dilated_pool(n, x, output, window, plan, kind);
    assert(after.form(t) == dilated_form(
        kind,
        n.form(x),
        d,
        window,
        plan,
        rows as nat,
        columns as nat,
    ));
}

/// A form in half precision where the operand `output` is.
pub open spec fn half_if_output(graph: GraphInfo, output: u32, f: Form) -> Form {
    let t = graph.operands@[output as int].descriptor.data_type;
    cast_if(t == DataType::Float16, TrtDataType::kHALF, f)
}

/// The mean of a window from its sum: the sum times one over the number of elements.
pub open spec fn mean_form(sum: Form, window: (u32, u32)) -> Form {
    Form::Elementwise(
        ElementWiseOperation::kPROD,
        Box::new(sum),
        Box::new(
            Form::Constant(
                ones(4),
                le4(reciprocal_bits((window.0 * window.1) as nat)),
                TrtDataType::kFLOAT,
            ),
        ),
    )
}

proof fn forms_dilated_result(n: Run, graph: GraphInfo, output: u32, t: Tensor, kind: Dilated)
    requires
        dilated_result(n, graph, output, t, kind).0.goes_on(),
        n.has(t),
    ensures
        ({
            let (after, r) = dilated_result(n, graph, output, t, kind);
            after.has(r) && after.form(r) == half_if_output(graph, output, n.form(t))
        }),
{
    broadcast use {group_grows, group_forms};

    reveal(dilated_result);
}

/// Whether `to` is what a pooling with dilations makes of `from`: the maximum over each window, or
/// the mean, in the precision of the operand `output`.
pub open spec fn is_pooled_to(
    graph: GraphInfo,
    output: u32,
    kind: PoolingType,
    from: Form,
    to: Form,
    window: (u32, u32),
    plan: PoolPlan,
) -> bool {
    if kind == PoolingType::kMAX {
        exists|f: Form|
            is_pooled(Dilated::Max, from, f, window, plan) && to == #[trigger] half_if_output(
                graph,
                output,
                f,
            )
    } else {
        exists|f: Form|
            is_pooled(Dilated::Average, from, f, window, plan) && to == half_if_output(
                graph,
                output,
                #[trigger] mean_form(f, window),
            )
    }
}

/// A maximum over windows with dilations is put together window by window.
pub proof fn forms_max_pool_dilated(
    n: Run,
    graph: GraphInfo,
    x: Tensor,
    output: u32,
    plan: PoolPlan,
    window: (u32, u32),
)
    requires
        max_pool_dilated(n, graph, x, output, plan, window).0.goes_on(),
        n.has(x),
    ensures
        ({
            let (after, t) = max_pool_dilated(n, graph, x, output, plan, window);
            after.has(t) && is_pooled_to(
                graph,
                output,
                PoolingType::kMAX,
                n.form(x),
                after.form(t),
                window,
                plan,
            )
        }),
{
    broadcast use {
        group_grows, grows_stopped, went_on, grows_dilated_pool, grows_dilated_result,
    };

    reveal(max_pool_dilated);
    let (a, t) = dilated_pool(n, x, output, window, plan, Dilated::Max);
    assert(a.goes_on());
    forms_dilated_pool(n, x, output, window, plan, Dilated::Max);
    forms_dilated_result(a, graph, output, t, Dilated::Max);
}

/// A mean over windows with dilations is put together window by window, each sum times one over the
/// number of elements of the window.
pub proof fn forms_average_pool_dilated(
    n: Run,
    graph: GraphInfo,
    x: Tensor,
    output: u32,
    plan: PoolPlan,
    window: (u32, u32),
)
    requires
        average_pool_dilated(n, graph, x, output, plan, window).0.goes_on(),
        n.has(x),
    ensures
        ({
            let (after, t) = average_pool_dilated(n, graph, x, output, plan, window);
            after.has(t) && is_pooled_to(
                graph,
                output,
                PoolingType::kAVERAGE,
                n.form(x),
                after.form(t),
                window,
                plan,
            )
        }),
{
    broadcast use {
        group_grows, group_forms, grows_dilated_pool, grows_dilated_result,
        grows_step_add_owned_constant, forms_add_owned_constant, forms_constant_output,
    };

    reveal(average_pool_dilated);
    let (a, t) = dilated_pool(n, x, output, window, plan, Dilated::Average);
    let (b, l) = a.add_owned_constant(
        ones(4),
        le4(reciprocal_bits((window.0 * window.1) as nat)),
        TrtDataType::kFLOAT,
        "dilated average pool inv scale constant: "@,
    );
    let (c, inverse) = b.output(l, "dilated average pool inv scale output: "@);
    let (d, r) = c.elementwise(
        t,
        inverse,
        ElementWiseOperation::kPROD,
        "dilated average pool multiply by 1/n: "@,
        "dilated average pool prod output: "@,
    );
    assert(d.goes_on());
    assert(c.goes_on());
    assert(b.goes_on());
    assert(a.goes_on());
    forms_dilated_pool(n, x, output, window, plan, Dilated::Average);
    form_is_kept(a, c, t);
    assert(d.form(r) == mean_form(a.form(t), window));
    forms_dilated_result(d, graph, output, r, Dilated::Average);
}

proof fn forms_pooled_dilated(
    n: Run,
    graph: GraphInfo,
    op: Operation,
    x: Tensor,
    kind: PoolingType,
    window: (u32, u32),
)
    requires
        pooled_dilated(n, graph, op, x, kind, window).0.goes_on(),
        n.has(x),
    ensures
        ({
            let (after, t) = pooled_dilated(n, graph, op, x, kind, window);
            let plan = pool_plan(op.kind);
            let from = cast_if(is_half(graph, op.inputs@[0]), TrtDataType::kFLOAT, n.form(x));
            after.has(t) && is_pooled_then_turned(
                graph,
                op,
                kind,
                from,
                after.form(t),
                window,
            )
        }),
{
    broadcast use {
        group_grows, group_forms, grows_max_pool_dilated, grows_average_pool_dilated,
    };

    reveal(pooled_dilated);
    let plan = pool_plan(op.kind);
    let half = is_half(graph, op.inputs@[0]);
    let output = op.outputs@[0];
    let (a, y) = if half {
        n.cast(
            x,
            TrtDataType::kFLOAT,
            "pool2d dilated Half->Float: "@,
            "pool2d dilated cast output: "@,
        )
    } else {
        (n, x)
    };
    let (b, t) = if kind == PoolingType::kMAX {
        max_pool_dilated(a, graph, y, output, plan, window)
    } else {
        average_pool_dilated(a, graph, y, output, plan, window)
    };
    assert(b.goes_on());
    assert(a.goes_on());
    assert(a.form(y) == cast_if(half, TrtDataType::kFLOAT, n.form(x)));
    if kind == PoolingType::kMAX {
        forms_max_pool_dilated(a, graph, y, output, plan, window);
    } else {
        forms_average_pool_dilated(a, graph, y, output, plan, window);
    }
    let f = b.form(t);
    assert(is_pooled_to(graph, output, kind, a.form(y), f, window, plan));
}

/// Whether `to` is what a pooling with dilations makes of `from`, with the channels last where the
/// layout has them last.
pub open spec fn is_pooled_then_turned(
    graph: GraphInfo,
    op: Operation,
    kind: PoolingType,
    from: Form,
    to: Form,
    window: (u32, u32),
) -> bool {
    let plan = pool_plan(op.kind);
    exists|f: Form|
        #[trigger] is_pooled_to(graph, op.outputs@[0], kind, from, f, window, plan) && to
            == turned_if(plan.nhwc, seq![0i32, 2, 3, 1], f)
}

/// A pooling with dilations combines the elements of each window by itself: it takes the maximum of
/// those inside the input, or the sum of them over the number of elements of the window. It is
/// computed with the channels second and in single precision.
pub proof fn dilated_pooling_means(
    n: Run,
    m: Map<u32, Tensor>,
    graph: GraphInfo,
    op: Operation,
    kind: PoolingType,
)
    requires
        went_through(n, m, pooling_op(n, m, graph, op, kind)),
        pool_plan(op.kind).dilations != (1u32, 1u32),
    ensures
        is_pooled_then_turned(
            graph,
            op,
            kind,
            source_form(
                given(n, m, op, 0),
                pool_plan(op.kind).nhwc,
                is_half(graph, op.inputs@[0]),
            ),
            made(op, pooling_op(n, m, graph, op, kind)),
            pool_window(n, graph, op.inputs@[0], pool_plan(op.kind)).1,
        ),
{
    broadcast use {
        group_grows, grows_stopped, went_on, grows_pool_window, grows_channels_second,
        grows_pooled_dilated, form_is_kept, forms_transpose,
    };

    let plan = pool_plan(op.kind);
    let id = op.inputs@[0];
    let (a, window) = pool_window(n, graph, id, plan);
    let (b, x) = channels_second(a, m[id], plan.nhwc, "pool2d"@);
    let (c, t) = pooled_dilated(b, graph, op, x, kind, window);
    assert(c.goes_on());
    assert(b.goes_on());
    assert(a.goes_on());
    assert(n.has(m[id]));
    assert(a.form(m[id]) == n.form(m[id]));
    reveal(channels_second);
    assert(b.form(x) == turned_if(plan.nhwc, seq![0i32, 3, 1, 2], n.form(m[id])));
    assert(b.has(x));
    forms_pooled_dilated(b, graph, op, x, kind, window);
}

proof fn forms_channels_second(n: Run, x: Tensor, nhwc: bool, what: Seq<char>)
    requires
        channels_second(n, x, nhwc, what).0.goes_on(),
        n.has(x),
    ensures
        ({
            let (after, t) = channels_second(n, x, nhwc, what);
            after.has(t) && after.form(t) == turned_if(nhwc, seq![0i32, 3, 1, 2], n.form(x))
        }),
{
    broadcast use {group_grows, group_forms};

    reveal(channels_second);
}

proof fn forms_channels_last(n: Run, x: Tensor, nhwc: bool, what: Seq<char>)
    requires
        channels_last(n, x, nhwc, what).0.goes_on(),
        n.has(x),
    ensures
        ({
            let (after, t) = channels_last(n, x, nhwc, what);
            after.has(t) && after.form(t) == turned_if(nhwc, seq![0i32, 2, 3, 1], n.form(x))
        }),
{
    broadcast use {group_grows, group_forms};

    reveal(channels_last);
}

/// An L2 pooling with dilations sums the squares of each window by itself and takes the square root.
/// The squares are those of the input; they are summed with the channels second and in single
/// precision.
pub proof fn dilated_l2_pool2d_means(n: Run, m: Map<u32, Tensor>, graph: GraphInfo, op: Operation)
    requires
        went_through(n, m, l2_pool2d_op(n, m, graph, op)),
        pool_plan(op.kind).dilations != (1u32, 1u32),
    ensures
        ({
            let plan = pool_plan(op.kind);
            let window = pool_window(n, graph, op.inputs@[0], plan).1;
            let half = is_half(graph, op.inputs@[0]);
            let x = given(n, m, op, 0);
            let squares = Form::Elementwise(
                ElementWiseOperation::kPROD,
                Box::new(x),
                Box::new(x),
            );
            exists|f: Form|
                #[trigger] is_pooled(
                    Dilated::L2,
                    source_form(squares, plan.nhwc, half),
                    f,
                    window,
                    plan,
                ) && made(op, l2_pool2d_op(n, m, graph, op)) == cast_if(
                    half,
                    TrtDataType::kHALF,
                    Form::Unary(
                        UnaryOperation::kSQRT,
                        Box::new(turned_if(plan.nhwc, seq![0i32, 2, 3, 1], f)),
                    ),
                )
        }),
{
    broadcast use {
        group_grows, group_forms, grows_pool_window, grows_channels_second, grows_channels_last,
        grows_dilated_pool,
    };

    let plan = pool_plan(op.kind);
    let id = op.inputs@[0];
    let half = is_half(graph, id);
    let (a, squares) = n.elementwise(
        m[id],
        m[id],
        ElementWiseOperation::kPROD,
        "Failed to create square layer for l2Pool2d: "@,
        "Failed to get squared output: "@,
    );
    let (b, window) = pool_window(a, graph, id, plan);
    reveal(pool_window);
    reveal(l2_pool_dilated);
    let (c, x) = channels_second(b, squares, plan.nhwc, "l2Pool2d"@);
    let (d, y) = if half {
        c.cast(
            x,
            TrtDataType::kFLOAT,
            "l2Pool2d dilated Half->Float: "@,
            "l2Pool2d dilated cast output: "@,
        )
    } else {
        (c, x)
    };
    let (e, t) = dilated_pool(d, y, op.outputs@[0], window, plan, Dilated::L2);
    assert(e.goes_on());
    assert(d.goes_on());
    assert(c.goes_on());
    assert(b.goes_on());
    assert(a.goes_on());
    assert(n.has(m[id]));
    form_is_kept(a, b, squares);
    forms_channels_second(b, squares, plan.nhwc, "l2Pool2d"@);
    assert(d.has(y));
    forms_dilated_pool(d, y, op.outputs@[0], window, plan, Dilated::L2);
    let (g, u) = channels_last(e, t, plan.nhwc, "l2Pool2d"@);
    assert(g.goes_on());
    forms_channels_last(e, t, plan.nhwc, "l2Pool2d"@);
    assert(window == pool_window(n, graph, id, plan).1);
    assert(is_pooled(
        Dilated::L2,
        source_form(
            Form::Elementwise(
                ElementWiseOperation::kPROD,
                Box::new(given(n, m, op, 0)),
                Box::new(given(n, m, op, 0)),
            ),
            plan.nhwc,
            half,
        ),
        e.form(t),
        window,
        plan,
    ));
}

proof fn forms_pool_settings(n: Run, l: usize, plan: PoolPlan, up: bool)
    requires
        pool_settings(n, l, plan, up).0.goes_on(),
        l < n.requests.len(),
    ensures
        ({
            let after = pool_settings(n, l, plan, up).0;
            let s = set_now(n, l);
            &&& l < after.requests.len()
            &&& after.requests[l as int] == n.requests[l as int]
            &&& set_now(after, l) == Settings {
                stride: (plan.strides.0 as i64, plan.strides.1 as i64),
                pre: (plan.padding.0 as i64, plan.padding.2 as i64),
                post: (plan.padding.1 as i64, plan.padding.3 as i64),
                rounds_up: up || s.rounds_up,
                ..s
            }
        }),
{
    broadcast use {group_grows, grows_stopped, went_on};

    reveal(pool_settings);
    let layer = Layer { id: l };
    let stride = RequestView::SetStride {
        layer,
        stride: (plan.strides.0 as i64, plan.strides.1 as i64),
    };
    let pre = RequestView::SetPrePadding {
        layer,
        padding: (plan.padding.0 as i64, plan.padding.2 as i64),
    };
    let post = RequestView::SetPostPadding {
        layer,
        padding: (plan.padding.1 as i64, plan.padding.3 as i64),
    };
    let a = n.tell(stride);
    let b = a.tell(pre);
    let c = b.tell(post);
    assert(c.goes_on());
    assert(b.goes_on());
    assert(a.goes_on());
    tell_sets(n, stride, l);
    tell_sets(a, pre, l);
    tell_sets(b, post, l);
    if up {
        tell_sets(
            c,
            RequestOf::SetPaddingMode { layer, mode: PaddingMode::kEXPLICIT_ROUND_UP },
            l,
        );
    }
}

/// The window of a pooling without dilations: the beginnings of its paddings above and to the left,
/// the endings below and to the right.
pub open spec fn pool_window_form(window: (u32, u32), plan: PoolPlan) -> Window {
    Window {
        kernel: (window.0 as i64, window.1 as i64),
        stride: (plan.strides.0 as i64, plan.strides.1 as i64),
        dilation: (1, 1),
        pre: (plan.padding.0 as i64, plan.padding.2 as i64),
        post: (plan.padding.1 as i64, plan.padding.3 as i64),
    }
}

proof fn forms_pool_layer(
    n: Run,
    x: Tensor,
    kind: PoolingType,
    window: (u32, u32),
    plan: PoolPlan,
    up: bool,
)
    requires
        n.has(x),
        ({
            let (a, l) = n.ask(
                RequestOf::AddPooling { input: x, kind, window: (window.0 as i64, window.1 as i64) },
                "Failed to add pooling: "@,
            );
            let b = pool_settings(a, l, plan, up).0;
            b.output(l, "Failed to get layer output: "@).0.goes_on()
        }),
    ensures
        ({
            let (a, l) = n.ask(
                RequestOf::AddPooling { input: x, kind, window: (window.0 as i64, window.1 as i64) },
                "Failed to add pooling: "@,
            );
            let b = pool_settings(a, l, plan, up).0;
            let (after, t) = b.output(l, "Failed to get layer output: "@);
            &&& after.has(t)
            &&& after.form(t) == Form::Pooled(
                kind,
                pool_window_form(window, plan),
                up,
                None,
                Box::new(n.form(x)),
            )
        }),
{
    broadcast use {group_grows, grows_stopped, went_on, grows_pool_settings, grows_step_output};

    let request = RequestView::AddPooling {
        input: x,
        kind,
        window: (window.0 as i64, window.1 as i64),
    };
    let (a, l) = n.ask(request, "Failed to add pooling: "@);
    let b = pool_settings(a, l, plan, up).0;
    assert(b.goes_on());
    assert(a.goes_on());
    layer_is_new(n, request, "Failed to add pooling: "@);
    forms_pool_settings(a, l, plan, up);
    form_is_kept(n, b, x);
    broadcast use earlier_is;

    reveal(shaped);
    layer_is_set(b, l, "Failed to get layer output: "@);
}

/// A pooling without dilations moves a window of the options over its input, with the strides and the
/// paddings of the options. Its output is rounded up where the sizes of the output, or else the
/// options, say so.
pub proof fn pooling_windows_land(
    n: Run,
    m: Map<u32, Tensor>,
    graph: GraphInfo,
    op: Operation,
    kind: PoolingType,
)
    requires
        went_through(n, m, pooling_op(n, m, graph, op, kind)),
        pool_plan(op.kind).dilations == (1u32, 1u32),
    ensures
        ({
            let plan = pool_plan(op.kind);
            let (a, window) = pool_window(n, graph, op.inputs@[0], plan);
            let b = channels_second(a, m[op.inputs@[0]], plan.nhwc, "pool2d"@).0;
            let up = rounds_up(b, op.outputs@[0], plan).1;
            made(op, pooling_op(n, m, graph, op, kind)) == turned_if(
                plan.nhwc,
                seq![0i32, 2, 3, 1],
                Form::Pooled(
                    kind,
                    pool_window_form(window, plan),
                    up,
                    None,
                    Box::new(turned_if(plan.nhwc, seq![0i32, 3, 1, 2], given(n, m, op, 0))),
                ),
            )
        }),
{
    broadcast use {
        group_grows, grows_stopped, went_on, grows_pool_window, grows_channels_second,
        grows_channels_last, grows_rounds_up, grows_pool_settings, grows_step_output,
    };

    let plan = pool_plan(op.kind);
    let id = op.inputs@[0];
    let (a, window) = pool_window(n, graph, id, plan);
    let (b, x) = channels_second(a, m[id], plan.nhwc, "pool2d"@);
    let (c, up) = rounds_up(b, op.outputs@[0], plan);
    let request = RequestView::AddPooling {
        input: x,
        kind,
        window: (window.0 as i64, window.1 as i64),
    };
    let (d, l) = c.ask(request, "Failed to add pooling: "@);
    let e = pool_settings(d, l, plan, up).0;
    let (f, t) = e.output(l, "Failed to get layer output: "@);
    assert(f.goes_on());
    assert(e.goes_on());
    assert(d.goes_on());
    assert(c.goes_on());
    assert(b.goes_on());
    assert(a.goes_on());
    assert(n.has(m[id]));
    form_is_kept(n, a, m[id]);
    forms_channels_second(a, m[id], plan.nhwc, "pool2d"@);
    form_is_kept(b, c, x);
    forms_pool_layer(c, x, kind, window, plan, up);
    assert(channels_last(f, t, plan.nhwc, "pool2d"@).0.goes_on());
    forms_channels_last(f, t, plan.nhwc, "pool2d"@);
}

/// Whether the rounding of a pooling was asked for at position `k`, and is up where the reply says so
/// or, where it says nothing, where `ceil` holds.
pub open spec fn rounding_is(n: Run, output: u32, k: int, ceil: bool, up: bool) -> bool {
    &&& 0 <= k < n.requests.len()
    &&& k < n.replies.len()
    &&& n.requests[k] == (RequestView::InferPoolRounding { output })
    &&& up == match n.replies[k] {
        ReplyOf::Extent(e) => e == 1,
        _ => ceil,
    }
}

pub(crate) proof fn rounding_is_asked(n: Run, after: Run, output: u32, plan: PoolPlan)
    requires
        rounds_up(n, output, plan).0.goes_on(),
        after.grows(rounds_up(n, output, plan).0),
    ensures
        rounding_is(
            after,
            output,
            n.requests.len() as int,
            plan.ceil,
            rounds_up(n, output, plan).1,
        ),
{
    broadcast use {group_grows, grows_stopped, went_on};

    reveal(rounds_up);
    reveal(Run::ask);
    reveal(Run::grows);
    let a = rounds_up(n, output, plan).0;
    assert(after.requests.take(a.requests.len() as int)[n.requests.len() as int]
        == after.requests[n.requests.len() as int]);
}

/// A pooling by squares takes the average over the windows of the options, with the padding counted,
/// so that the average times the area of the window is the sum.
pub proof fn l2_windows_land(n: Run, m: Map<u32, Tensor>, graph: GraphInfo, op: Operation)
    requires
        went_through(n, m, l2_pool2d_op(n, m, graph, op)),
        pool_plan(op.kind).dilations == (1u32, 1u32),
    ensures
        ({
            let plan = pool_plan(op.kind);
            let window = pool_window(n, graph, op.inputs@[0], plan).1;
            let half = is_half(graph, op.inputs@[0]);
            let x = given(n, m, op, 0);
            let squares = Form::Elementwise(ElementWiseOperation::kPROD, Box::new(x), Box::new(x));
            exists|k: int, up: bool|
                {
                    &&& #[trigger] rounding_is(
                        l2_pool2d_op(n, m, graph, op).0,
                        op.outputs@[0],
                        k,
                        plan.ceil,
                        up,
                    )
                    &&& made(op, l2_pool2d_op(n, m, graph, op)) == cast_if(
                        half,
                        TrtDataType::kHALF,
                        Form::Unary(
                            UnaryOperation::kSQRT,
                            Box::new(
                                turned_if(
                                    plan.nhwc,
                                    seq![0i32, 2, 3, 1],
                                    Form::Elementwise(
                                        ElementWiseOperation::kPROD,
                                        Box::new(
                                            cast_if(
                                                half,
                                                TrtDataType::kFLOAT,
                                                Form::Pooled(
                                                    PoolingType::kAVERAGE,
                                                    pool_window_form(window, plan),
                                                    up,
                                                    Some(false),
                                                    Box::new(
                                                        turned_if(
                                                            plan.nhwc,
                                                            seq![0i32, 3, 1, 2],
                                                            squares,
                                                        ),
                                                    ),
                                                ),
                                            ),
                                        ),
                                        Box::new(
                                            Form::Constant(
                                                ones(4),
                                                le4(
                                                    product_bits(
                                                        window.0 as nat,
                                                        window.1 as nat,
                                                    ),
                                                ),
                                                TrtDataType::kFLOAT,
                                            ),
                                        ),
                                    ),
                                ),
                            ),
                        ),
                    )
                }
        }),
{
    broadcast use {
        group_grows, group_forms, grows_pool_window, grows_channels_second, grows_channels_last,
        grows_summed_squares,
    };

    let plan = pool_plan(op.kind);
    let id = op.inputs@[0];
    let half = is_half(graph, id);
    let output = op.outputs@[0];
    let (a, squares) = n.elementwise(
        m[id],
        m[id],
        ElementWiseOperation::kPROD,
        "Failed to create square layer for l2Pool2d: "@,
        "Failed to get squared output: "@,
    );
    let (b, window) = pool_window(a, graph, id, plan);
    let (c, turned) = channels_second(b, squares, plan.nhwc, "l2Pool2d"@);
    let (d, sums) = summed_squares(c, turned, output, plan, window, half);
    let (e, back) = channels_last(d, sums, plan.nhwc, "l2Pool2d"@);
    let end = l2_pool2d_op(n, m, graph, op).0;
    assert(e.goes_on());
    assert(d.goes_on());
    assert(c.goes_on());
    assert(b.goes_on());
    assert(a.goes_on());
    assert(window == pool_window(n, graph, id, plan).1) by {
        reveal(pool_window);
    }
    form_is_kept(a, b, squares);
    forms_channels_second(b, squares, plan.nhwc, "l2Pool2d"@);
    forms_summed_squares(c, turned, output, plan, window, half);
    forms_channels_last(d, sums, plan.nhwc, "l2Pool2d"@);
    assert(end.grows(d));
    let up = rounds_up(c, output, plan).1;
    assert(rounds_up(c, output, plan).0.goes_on() && d.grows(rounds_up(c, output, plan).0)) by {
        reveal(summed_squares);
        broadcast use {grows_rounds_up, grows_pool_settings, grows_step_add_owned_constant};
    }
    rounding_is_asked(c, end, output, plan);
}

proof fn forms_summed_squares(
    n: Run,
    x: Tensor,
    output: u32,
    plan: PoolPlan,
    window: (u32, u32),
    half: bool,
)
    requires
        summed_squares(n, x, output, plan, window, half).0.goes_on(),
        n.has(x),
    ensures
        ({
            let (after, t) = summed_squares(n, x, output, plan, window, half);
            &&& after.has(t)
            &&& after.form(t) == Form::Elementwise(
                ElementWiseOperation::kPROD,
                Box::new(
                    cast_if(
                        half,
                        TrtDataType::kFLOAT,
                        Form::Pooled(
                            PoolingType::kAVERAGE,
                            pool_window_form(window, plan),
                            rounds_up(n, output, plan).1,
                            Some(false),
                            Box::new(n.form(x)),
                        ),
                    ),
                ),
                Box::new(
                    Form::Constant(
                        ones(4),
                        le4(product_bits(window.0 as nat, window.1 as nat)),
                        TrtDataType::kFLOAT,
                    ),
                ),
            )
        }),
{
    broadcast use {
        group_grows, group_forms, earlier_is, grows_rounds_up, grows_pool_settings,
        grows_step_add_owned_constant, forms_add_owned_constant, forms_constant_output,
        constant_stays,
    };

    reveal(summed_squares);
    let (a, up) = rounds_up(n, output, plan);
    let request = RequestView::AddPooling {
        input: x,
        kind: PoolingType::kAVERAGE,
        window: (window.0 as i64, window.1 as i64),
    };
    let (b, l) = a.ask(request, "Failed to create pooling layer for l2Pool2d: "@);
    let c = pool_settings(b, l, plan, up).0;
    let excluding = RequestView::SetAverageCountExcludesPadding {
        layer: Layer { id: l },
        excludes: false,
    };
    let d = c.tell(excluding);
    let (e, t) = d.output(l, "Failed to get pooled output: "@);
    assert(e.goes_on());
    assert(d.goes_on());
    assert(c.goes_on());
    assert(b.goes_on());
    assert(a.goes_on());
    layer_is_new(a, request, "Failed to create pooling layer for l2Pool2d: "@);
    forms_pool_settings(b, l, plan, up);
    tell_sets(c, excluding, l);
    layer_is_set(d, l, "Failed to get pooled output: "@);
    form_is_kept(n, d, x);
    assert(e.form(t) == Form::Pooled(
        PoolingType::kAVERAGE,
        pool_window_form(window, plan),
        up,
        Some(false),
        Box::new(n.form(x)),
    )) by {
        reveal(shaped);
    }
}

/// A pooling over everything takes the whole height and width that TensorRT reports of its input, with
/// the channels second.
pub proof fn global_windows_land(
    n: Run,
    m: Map<u32, Tensor>,
    graph: GraphInfo,
    op: Operation,
    kind: PoolingType,
)
    requires
        went_through(n, m, global_pooling_op(n, m, op, kind)),
    ensures
        ({
            let plan = pool_plan(op.kind);
            let (a, x) = channels_second(n, m[op.inputs@[0]], plan.nhwc, "globalPool"@);
            let d = a.dims(x, "Failed to get input dimensions: "@).1;
            &&& d.len() >= 4
            &&& made(op, global_pooling_op(n, m, op, kind)) == turned_if(
                plan.nhwc,
                seq![0i32, 2, 3, 1],
                Form::Pooled(
                    kind,
                    Window {
                        kernel: (d[2], d[3]),
                        stride: (1, 1),
                        dilation: (1, 1),
                        pre: (0, 0),
                        post: (0, 0),
                    },
                    false,
                    None,
                    Box::new(turned_if(plan.nhwc, seq![0i32, 3, 1, 2], given(n, m, op, 0))),
                ),
            )
        }),
{
    broadcast use {
        group_grows, group_forms, earlier_is, grows_channels_second, grows_channels_last,
        grows_step_layer,
    };

    let plan = pool_plan(op.kind);
    let id = op.inputs@[0];
    let (a, x) = channels_second(n, m[id], plan.nhwc, "globalPool"@);
    let d = a.dims(x, "Failed to get input dimensions: "@).1;
    let request = RequestView::AddPooling { input: x, kind, window: (d[2], d[3]) };
    let read = a.dims(x, "Failed to get input dimensions: "@).0;
    let accepted = read.reject_if(
        d.len() < 4,
        "Global pooling requires 4D input, got "@ + decimal(d.len()) + "D"@,
    );
    let (c, t) = accepted.layer(
        request,
        "Failed to add global pooling: "@,
        "Failed to get layer output: "@,
    );
    assert(global_pooling_op(n, m, op, kind).0.grows(channels_last(c, t, plan.nhwc, "globalPool"@).0));
    assert(c.goes_on());
    assert(accepted.goes_on());
    assert(read.goes_on());
    assert(accepted == a) by {
        reveal(Run::dims);
    }
    assert(channels_last(c, t, plan.nhwc, "globalPool"@).0.goes_on());
    assert(c.goes_on());
    assert(a.goes_on());
    assert(n.has(m[id]));
    forms_channels_second(n, m[id], plan.nhwc, "globalPool"@);
    let (b, l) = a.ask(request, "Failed to add global pooling: "@);
    assert(c.form(t) == Form::Pooled(
        kind,
        Window {
            kernel: (d[2], d[3]),
            stride: (1, 1),
            dilation: (1, 1),
            pre: (0, 0),
            post: (0, 0),
        },
        false,
        None,
        Box::new(a.form(x)),
    ) && c.has(t)) by {
        reveal(Run::layer);
        reveal(shaped);
        layer_is_new(a, request, "Failed to add global pooling: "@);
        layer_is_set(b, l, "Failed to get layer output: "@);
        form_is_kept(a, b, x);
    }
    forms_channels_last(c, t, plan.nhwc, "globalPool"@);
}

/// Where the rounding of a pooling was asked for, and what it is.
pub(crate) proof fn rounding_is_asked_by(
    n: Run,
    m: Map<u32, Tensor>,
    graph: GraphInfo,
    op: Operation,
    kind: PoolingType,
) -> (asked: (int, bool))
    requires
        went_through(n, m, pooling_op(n, m, graph, op, kind)),
        pool_plan(op.kind).dilations == (1u32, 1u32),
    ensures
        ({
            let plan = pool_plan(op.kind);
            let a = pool_window(n, graph, op.inputs@[0], plan).0;
            let b = channels_second(a, m[op.inputs@[0]], plan.nhwc, "pool2d"@).0;
            &&& asked.1 == rounds_up(b, op.outputs@[0], plan).1
            &&& rounding_is(
                pooling_op(n, m, graph, op, kind).0,
                op.outputs@[0],
                asked.0,
                plan.ceil,
                asked.1,
            )
        }),
{
    broadcast use {
        group_grows, grows_stopped, went_on, grows_pool_window, grows_channels_second,
        grows_channels_last, grows_rounds_up, grows_pool_settings, grows_step_output,
    };

    let plan = pool_plan(op.kind);
    let id = op.inputs@[0];
    let (a, window) = pool_window(n, graph, id, plan);
    let (b, x) = channels_second(a, m[id], plan.nhwc, "pool2d"@);
    let (c, up) = rounds_up(b, op.outputs@[0], plan);
    let request = RequestView::AddPooling {
        input: x,
        kind,
        window: (window.0 as i64, window.1 as i64),
    };
    let (d, l) = c.ask(request, "Failed to add pooling: "@);
    let e = pool_settings(d, l, plan, up).0;
    let (f, t) = e.output(l, "Failed to get layer output: "@);
    let end = pooling_op(n, m, graph, op, kind).0;
    assert(end.grows(f));
    assert(f.grows(e));
    assert(e.grows(d));
    assert(d.grows(c));
    rounding_is_asked(b, end, op.outputs@[0], plan);
    (b.requests.len() as int, up)
}

/// The tensor whose height and width a pooling over everything takes for its window.
pub(crate) proof fn channels_are_reported(
    n: Run,
    m: Map<u32, Tensor>,
    op: Operation,
    kind: PoolingType,
) -> (t: Tensor)
    requires
        went_through(n, m, global_pooling_op(n, m, op, kind)),
    ensures
        ({
            let plan = pool_plan(op.kind);
            let (a, x) = channels_second(n, m[op.inputs@[0]], plan.nhwc, "globalPool"@);
            let end = global_pooling_op(n, m, op, kind).0;
            &&& t == x
            &&& reported(end, t) == a.dims(x, "Failed to get input dimensions: "@).1
            &&& end.form(t) == turned_if(plan.nhwc, seq![0i32, 3, 1, 2], given(n, m, op, 0))
        }),
{
    broadcast use {
        group_grows, group_forms, grows_channels_second, grows_channels_last, grows_step_layer,
    };

    let plan = pool_plan(op.kind);
    let id = op.inputs@[0];
    let (a, x) = channels_second(n, m[id], plan.nhwc, "globalPool"@);
    let (read, d) = a.dims(x, "Failed to get input dimensions: "@);
    let accepted = read.reject_if(
        d.len() < 4,
        "Global pooling requires 4D input, got "@ + decimal(d.len()) + "D"@,
    );
    let request = RequestView::AddPooling { input: x, kind, window: (d[2], d[3]) };
    let (c, t) = accepted.layer(
        request,
        "Failed to add global pooling: "@,
        "Failed to get layer output: "@,
    );
    let end = global_pooling_op(n, m, op, kind).0;
    assert(end.grows(channels_last(c, t, plan.nhwc, "globalPool"@).0));
    assert(c.goes_on());
    assert(accepted.goes_on());
    assert(read.goes_on());
    assert(accepted == a) by {
        reveal(Run::dims);
    }
    assert(end.grows(a));
    assert(n.has(m[id]));
    forms_channels_second(n, m[id], plan.nhwc, "globalPool"@);
    form_is_kept(a, end, x);
    assert(reported(end, x) == d) by {
        reveal(Run::dims);
        reveal(Run::grows);
    }
    x
}

} // verus!
