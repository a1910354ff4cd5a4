//! Convolutions and transposed convolutions.

use crate::graph::GraphInfo;
use crate::operator_options::{MLConv2dOptions, MLConvTranspose2dOptions};
use crate::operators::{Operation, OperationKind};
use crate::trtx::conv::{
    absorbed, absorbing_keeps_length, conv_filter_order, conv_filter_order_reads_layout,
    conv_plan, deconv_filter_order, deconv_filter_order_reads_layout, filter_turn, output_padding,
};
use crate::trtx::forms::{Form, Window};
use crate::trtx::geometry::{
    beginnings, bias_given, conv2d_means, conv_filter_is_known, conv_transpose2d_means,
    deconv_filter_is_known, deconvolved_form, endings, filter_given, filter_of, given, is_half,
    made, padded_if, source_form,
};
use crate::trtx::laws::kinds::{conv2d_is_added, conv_transpose2d_is_added};
use crate::trtx::laws::words::{cast_where, first_two, holds_halves, shape, size, turned_where};
use crate::trtx::meaning::went_through;
use crate::trtx::network::operation_added;
use crate::trtx::session::Run;
use crate::trtx::types::{Tensor, TrtDataType};
use vstd::prelude::*;

verus! {

/// The bias of a convolution: the tensor of the operand that the options name, in single precision.
pub open spec fn bias_named(
    n: Run,
    m: Map<u32, Tensor>,
    graph: GraphInfo,
    bias: Option<u32>,
) -> Option<Box<Form>> {
    match bias {
        Some(id) => if m.contains_key(id) {
            Some(
                Box::new(
                    cast_where(holds_halves(graph, id), TrtDataType::kFLOAT, n.form(m[id])),
                ),
            )
        } else {
            None
        },
        None => None,
    }
}

/// The axis of a filter whose letter in the layout is `letter`.
pub open spec fn axis_of(letter: char, layout: Seq<char>) -> int {
    choose|p: int| 0 <= p < 4 && #[trigger] layout[p] == letter
}

/// The size of the axis of a filter whose letter in the layout is `letter`, read as `i32`.
pub open spec fn extent_of(letter: char, graph: GraphInfo, id: u32, layout: Seq<char>) -> i32 {
    size(shape(graph, id)[axis_of(letter, layout)]) as i32
}

/// A filter in single precision, with its axes in the order that the letters of `wanted` name.
pub open spec fn filter_in(
    n: Run,
    m: Map<u32, Tensor>,
    graph: GraphInfo,
    op: Operation,
    layout: Seq<char>,
    wanted: Seq<char>,
) -> Form {
    turned_where(
        layout != wanted,
        Seq::new(4, |i: int| axis_of(wanted[i], layout) as i32),
        cast_where(
            holds_halves(graph, op.inputs@[1]),
            TrtDataType::kFLOAT,
            given(n, m, op, 1),
        ),
    )
}

/// The layout of a filter, and `otherwise` where none is given.
pub open spec fn layout_or(layout: Seq<char>, otherwise: Seq<char>) -> Seq<char> {
    if layout.len() == 0 {
        otherwise
    } else {
        layout
    }
}

/// Where each letter of a layout names one axis, the axis of a letter is the one that names it.
proof fn letters_name_axes(layout: Seq<char>, wanted: Seq<char>, order: Seq<i32>)
    requires
        layout.len() == 4,
        order.len() == 4,
        wanted.len() == 4,
        wanted.no_duplicates(),
        forall|i: int|
            #![trigger order[i]]
            0 <= i < 4 ==> 0 <= order[i] < 4 && layout[order[i] as int] == wanted[i],
        forall|i: int, j: int|
            #![trigger order[i], order[j]]
            0 <= i < 4 && 0 <= j < 4 && i != j ==> order[i] != order[j],
    ensures
        forall|i: int| 0 <= i < 4 ==> axis_of(#[trigger] wanted[i], layout) == order[i],
        order == Seq::new(4, |i: int| axis_of(wanted[i], layout) as i32),
{
    assert forall|i: int| 0 <= i < 4 implies axis_of(#[trigger] wanted[i], layout) == order[i] by {
        let c = wanted[i];
        let p = axis_of(c, layout);
        assert(layout[order[i] as int] == c);
        assert(0 <= p < 4 && layout[p] == c);
        assert(order[0] == p || order[1] == p || order[2] == p || order[3] == p);
        if order[0] == p {
            assert(wanted[0] == c);
        } else if order[1] == p {
            assert(wanted[1] == c);
        } else if order[2] == p {
            assert(wanted[2] == c);
        } else {
            assert(wanted[3] == c);
        }
    }
    assert(order =~= Seq::new(4, |i: int| axis_of(wanted[i], layout) as i32));
}

/// The order of the axes of a filter in a known layout is the one that the letters of the layout give.
proof fn conv_letters(layout: Seq<char>)
    requires
        conv_filter_order(layout) is Some,
    ensures
        layout.len() == 4,
        conv_filter_order(layout)->0 == Seq::new(4, |i: int| axis_of("oihw"@[i], layout) as i32),
        axis_of('o', layout) == conv_filter_order(layout)->0[0],
        axis_of('h', layout) == conv_filter_order(layout)->0[2],
        axis_of('w', layout) == conv_filter_order(layout)->0[3],
        forall|i: int| 0 <= i < 4 ==> 0 <= #[trigger] conv_filter_order(layout)->0[i] < 4,
{
    reveal_strlit("oihw");
    let order = conv_filter_order(layout)->0;
    conv_filter_order_reads_layout(layout, 0, 1);
    assert forall|i: int, j: int|
        #![trigger order[i], order[j]]
        0 <= i < 4 && 0 <= j < 4 implies 0 <= order[i] < 4 && layout[order[i] as int] == "oihw"@[i]
        && (i != j ==> order[i] != order[j]) by {
        conv_filter_order_reads_layout(layout, i, j);
    }
    letters_name_axes(layout, "oihw"@, order);
    assert("oihw"@[0] == 'o' && "oihw"@[2] == 'h' && "oihw"@[3] == 'w');
}

/// The options of a convolution, or those that stand for none: no padding, strides and dilations of 1, one
/// group and no bias.
pub open spec fn conv_asked(options: Option<MLConv2dOptions>, o: MLConv2dOptions) -> bool {
    match options {
        Some(given) => given == o,
        None => {
            &&& o.padding@.len() == 0 && o.strides@.len() == 0 && o.dilations@.len() == 0
            &&& o.groups == 1
            &&& o.input_layout@.len() == 0 && o.filter_layout@.len() == 0
            &&& o.bias is None
        },
    }
}

/// A convolution of the options: its strides, its dilations and its groups are those that the options
/// list; its input has the paddings of the options round it; its window and its output maps are what
/// the letters of the filter layout say of the filter; its filter has the axes output channel, input
/// channel, height and width, in this order; its bias is the operand that the options name. An input
/// whose layout is the text "nhwc" is turned to put the channels second, and the result is turned
/// back; an input with any other layout is not turned. Half precision is computed in single precision.
pub proof fn conv2d_follows_options(
    n: Run,
    m: Map<u32, Tensor>,
    graph: GraphInfo,
    op: Operation,
    promoted: Set<u32>,
    options: Option<MLConv2dOptions>,
    o: MLConv2dOptions,
)
    requires
        conv_asked(options, o),
        went_through(n, m, operation_added(n, m, graph, op, promoted)),
        op.kind == (OperationKind::Conv2d { options }),
    ensures
        ({
            let last = o.input_layout@ == "nhwc"@;
            let half = holds_halves(graph, op.inputs@[0]);
            let layout = layout_or(o.filter_layout@, "oihw"@);
            let x = cast_where(
                half,
                TrtDataType::kFLOAT,
                turned_where(last, seq![0i32, 3, 1, 2], given(n, m, op, 0)),
            );
            made(op, operation_added(n, m, graph, op, promoted)) == turned_where(
                last,
                seq![0i32, 2, 3, 1],
                cast_where(
                    half,
                    TrtDataType::kHALF,
                    Form::Convolved(
                        Window {
                            kernel: (
                                extent_of('h', graph, op.inputs@[1], layout) as i64,
                                extent_of('w', graph, op.inputs@[1], layout) as i64,
                            ),
                            stride: first_two(o.strides@, 1),
                            dilation: first_two(o.dilations@, 1),
                            pre: (0, 0),
                            post: (0, 0),
                        },
                        extent_of('o', graph, op.inputs@[1], layout) as i64,
                        o.groups as i32 as i64,
                        Box::new(padded_if(beginnings(o.padding@), endings(o.padding@), x)),
                        Box::new(filter_in(n, m, graph, op, layout, "oihw"@)),
                        bias_named(n, m, graph, o.bias),
                    ),
                ),
            )
        }),
{
    reveal_strlit("nhwc");
    conv2d_is_added(n, m, graph, op, promoted);
    reveal(conv_plan);
    reveal(filter_turn);
    conv2d_means(n, m, graph, op);
    conv_filter_is_known(n, m, graph, op);
    let layout = layout_or(o.filter_layout@, "oihw"@);
    conv_letters(layout);
}

/// Whether trimming `cut.0` before and `cut.1` behind and adding `cut.2` behind makes a length the
/// same as trimming `pre` and `post` and adding `extra`, with as little added as can be: what is to be
/// added is taken first from what is trimmed behind, then from what is trimmed before.
pub open spec fn trims_alike(pre: i32, post: i32, extra: i32, cut: (i64, i64, i64)) -> bool {
    &&& 0 <= cut.0 <= pre
    &&& 0 <= cut.1 <= post
    &&& 0 <= cut.2
    &&& cut.2 - cut.0 - cut.1 == extra - pre - post
    &&& cut.0 < pre ==> cut.1 == 0
    &&& cut.2 > 0 ==> cut.0 == 0 && cut.1 == 0
}

/// The lengths that a transposed convolution leaves along one axis of its input: as many strides as
/// there are steps between its elements, the window, and what the paddings take and give.
pub open spec fn spread_length(
    input: int,
    stride: int,
    window: int,
    dilation: int,
    pre: int,
    post: int,
    extra: int,
) -> int {
    (input - 1) * stride + (window - 1) * dilation + 1 - pre - post + extra
}

/// A form of some height and width brought to another: rows and columns past the end are cut, and
/// those that lack are zeros behind.
pub open spec fn brought_to(
    f: Form,
    batches: i32,
    channels: i32,
    own: (int, int),
    wanted: (i32, i32),
) -> Form {
    let rows = if own.0 < wanted.0 {
        own.0
    } else {
        wanted.0 as int
    };
    let columns = if own.1 < wanted.1 {
        own.1
    } else {
        wanted.1 as int
    };
    let part = if own.0 > wanted.0 || own.1 > wanted.1 {
        Form::Sliced(
            seq![0i64, 0, 0, 0],
            seq![batches as i64, channels as i64, rows as i64, columns as i64],
            seq![1i64, 1, 1, 1],
            Box::new(f),
        )
    } else {
        f
    };
    if own.0 < wanted.0 || own.1 < wanted.1 {
        Form::Padded(
            (0, 0),
            ((wanted.0 - rows) as i64, (wanted.1 - columns) as i64),
            Box::new(part),
        )
    } else {
        part
    }
}

/// The height, the width and the channels of an operand with four axes, in the layout that has the
/// channels last or second.
pub open spec fn planes(graph: GraphInfo, id: u32, last: bool) -> (i32, i32, i32) {
    let d = shape(graph, id);
    if last {
        (size(d[1]) as i32, size(d[2]) as i32, size(d[3]) as i32)
    } else {
        (size(d[2]) as i32, size(d[3]) as i32, size(d[1]) as i32)
    }
}

/// The order of the axes of a filter in a known layout is the one that the letters of the layout give.
proof fn deconv_letters(layout: Seq<char>)
    requires
        deconv_filter_order(layout) is Some,
    ensures
        layout.len() == 4,
        deconv_filter_order(layout)->0 == Seq::new(4, |i: int| axis_of("iohw"@[i], layout) as i32),
        axis_of('o', layout) == deconv_filter_order(layout)->0[1],
        axis_of('h', layout) == deconv_filter_order(layout)->0[2],
        axis_of('w', layout) == deconv_filter_order(layout)->0[3],
        forall|i: int| 0 <= i < 4 ==> 0 <= #[trigger] deconv_filter_order(layout)->0[i] < 4,
{
    reveal_strlit("iohw");
    let order = deconv_filter_order(layout)->0;
    deconv_filter_order_reads_layout(layout, 0, 1);
    assert forall|i: int, j: int|
        #![trigger order[i], order[j]]
        0 <= i < 4 && 0 <= j < 4 implies 0 <= order[i] < 4 && layout[order[i] as int] == "iohw"@[i]
        && (i != j ==> order[i] != order[j]) by {
        deconv_filter_order_reads_layout(layout, i, j);
    }
    letters_name_axes(layout, "iohw"@, order);
    assert("iohw"@[1] == 'o' && "iohw"@[2] == 'h' && "iohw"@[3] == 'w');
}

/// The sizes that a transposed convolution is asked for: those of the options, or else those of its
/// output operand, where it has four axes.
pub open spec fn sizes_asked(
    graph: GraphInfo,
    op: Operation,
    o: MLConvTranspose2dOptions,
    maps: i32,
) -> Option<(i32, i32, i32)> {
    let id = op.outputs@[0];
    if o.output_sizes is Some && o.output_sizes->0@.len() >= 2 {
        Some((o.output_sizes->0@[0] as i32, o.output_sizes->0@[1] as i32, maps))
    } else if id < graph.operands@.len() && shape(graph, id).len() == 4 {
        Some(planes(graph, id, o.input_layout@ == "nhwc"@))
    } else {
        None
    }
}

/// A transposed convolution with these trimmings, and with what is still to be added behind.
pub open spec fn spread_form(
    n: Run,
    m: Map<u32, Tensor>,
    graph: GraphInfo,
    op: Operation,
    o: MLConvTranspose2dOptions,
    h: (i64, i64, i64),
    w: (i64, i64, i64),
) -> Form {
    let layout = layout_or(o.filter_layout@, "iohw"@);
    let whole = Form::Deconvolved(
        Window {
            kernel: (
                extent_of('h', graph, op.inputs@[1], layout) as i64,
                extent_of('w', graph, op.inputs@[1], layout) as i64,
            ),
            stride: first_two(o.strides@, 1),
            dilation: first_two(o.dilations@, 1),
            pre: (h.0, w.0),
            post: (h.1, w.1),
        },
        (extent_of('o', graph, op.inputs@[1], layout) * (o.groups as i32)) as i64,
        o.groups as i32 as i64,
        Box::new(
            cast_where(
                holds_halves(graph, op.inputs@[0]),
                TrtDataType::kFLOAT,
                turned_where(
                    o.input_layout@ == "nhwc"@,
                    seq![0i32, 3, 1, 2],
                    given(n, m, op, 0),
                ),
            ),
        ),
        Box::new(filter_in(n, m, graph, op, layout, "iohw"@)),
        bias_named(n, m, graph, o.bias),
    );
    if h.2 == 0 && w.2 == 0 {
        whole
    } else {
        Form::Padded((0, 0), (h.2, w.2), Box::new(whole))
    }
}

/// The options of a transposed convolution, or those that stand for none: no padding, strides and
/// dilations of 1, one group and no bias.
pub open spec fn conv_transpose_asked(options: Option<MLConvTranspose2dOptions>, o: MLConvTranspose2dOptions) -> bool {
    match options {
        Some(given) => given == o,
        None => {
            &&& o.padding@.len() == 0 && o.strides@.len() == 0 && o.dilations@.len() == 0
            &&& o.output_padding@.len() == 0 && o.output_sizes is None
            &&& o.groups == 1
            &&& o.input_layout@.len() == 0 && o.filter_layout@.len() == 0
            &&& o.bias is None
        },
    }
}

/// A transposed convolution of the options: its strides, dilations, groups, filter and bias are those
/// that the options give, it has as many output maps as the filter has output channels in all groups,
/// and what it trims and adds makes up for the paddings and the output paddings of the options. The
/// result has the sizes that are asked for. An input whose layout is the text "nhwc" is turned to put
/// the channels second, and the result is turned back.
pub proof fn conv_transpose2d_follows_options(
    n: Run,
    m: Map<u32, Tensor>,
    graph: GraphInfo,
    op: Operation,
    promoted: Set<u32>,
    options: Option<MLConvTranspose2dOptions>,
    o: MLConvTranspose2dOptions,
)
    requires
        conv_transpose_asked(options, o),
        went_through(n, m, operation_added(n, m, graph, op, promoted)),
        op.kind == (OperationKind::ConvTranspose2d { options }),
        forall|i: int| 0 <= i < o.padding@.len() ==> #[trigger] o.padding@[i] <= i32::MAX,
        forall|i: int|
            0 <= i < o.output_padding@.len() ==> #[trigger] o.output_padding@[i] <= i32::MAX,
    ensures
        ({
            let last = o.input_layout@ == "nhwc"@;
            let half = holds_halves(graph, op.inputs@[0]);
            let layout = layout_or(o.filter_layout@, "iohw"@);
            let maps = extent_of('o', graph, op.inputs@[1], layout) * (o.groups as i32);
            let pre = beginnings(o.padding@);
            let post = endings(o.padding@);
            let extra = first_two(o.output_padding@, 0);
            let stride = first_two(o.strides@, 1);
            let dilation = first_two(o.dilations@, 1);
            let asked = sizes_asked(graph, op, o, maps as i32);
            let goal = asked->0;
            exists|h: (i64, i64, i64), w: (i64, i64, i64)|
                {
                    let whole = #[trigger] spread_form(n, m, graph, op, o, h, w);
                    let (height, width, _) = planes(graph, op.inputs@[0], last);
                    let end = if op.inputs@[0] < graph.operands@.len() && shape(
                        graph,
                        op.inputs@[0],
                    ).len() == 4 && asked is Some && goal.0 > 0 && goal.1 > 0 {
                        brought_to(
                            whole,
                            size(shape(graph, op.inputs@[0])[0]) as i32,
                            goal.2,
                            (
                                spread_length(
                                    height as int,
                                    stride.0 as int,
                                    extent_of('h', graph, op.inputs@[1], layout) as int,
                                    dilation.0 as int,
                                    pre.0 as int,
                                    post.0 as int,
                                    extra.0 as int,
                                ),
                                spread_length(
                                    width as int,
                                    stride.1 as int,
                                    extent_of('w', graph, op.inputs@[1], layout) as int,
                                    dilation.1 as int,
                                    pre.1 as int,
                                    post.1 as int,
                                    extra.1 as int,
                                ),
                            ),
                            (goal.0, goal.1),
                        )
                    } else {
                        whole
                    };
                    &&& trims_alike(pre.0 as i32, post.0 as i32, extra.0 as i32, h)
                    &&& trims_alike(pre.1 as i32, post.1 as i32, extra.1 as i32, w)
                    &&& made(op, operation_added(n, m, graph, op, promoted)) == turned_where(
                        last,
                        seq![0i32, 2, 3, 1],
                        cast_where(half, TrtDataType::kHALF, end),
                    )
                }
        }),
{
    reveal_strlit("nhwc");
    conv_transpose2d_is_added(n, m, graph, op, promoted);
    reveal(conv_plan);
    reveal(filter_turn);
    conv_transpose2d_means(n, m, graph, op);
    deconv_filter_is_known(n, m, graph, op);
    let layout = layout_or(o.filter_layout@, "iohw"@);
    deconv_letters(layout);
    let plan = conv_plan(op.kind);
    let extra = output_padding(op.kind);
    let a = absorbed(plan.pre.0 as int, plan.post.0 as int, extra.0 as int);
    let b = absorbed(plan.pre.1 as int, plan.post.1 as int, extra.1 as int);
    let h = (a.0 as i64, a.1 as i64, a.2 as i64);
    let w = (b.0 as i64, b.1 as i64, b.2 as i64);
    absorbing_keeps_length(plan.pre.0 as int, plan.post.0 as int, extra.0 as int);
    absorbing_keeps_length(plan.pre.1 as int, plan.post.1 as int, extra.1 as int);
    let whole = spread_form(n, m, graph, op, o, h, w);
    assert(whole == deconvolved_form(
        source_form(given(n, m, op, 0), plan.nhwc, is_half(graph, op.inputs@[0])),
        filter_given(n, m, graph, op),
        bias_given(n, m, graph, op),
        filter_of(graph, op),
        plan,
        extra,
    ));
}

} // verus!
