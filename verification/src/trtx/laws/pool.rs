//! Poolings.

use crate::graph::GraphInfo;
use crate::operator_options::MLPool2dOptions;
use crate::operators::{Operation, OperationKind};
use crate::scalar::{le4, product_bits};
use crate::text::ascii_lowercase;
use crate::trtx::broadcast::ones;
use crate::trtx::forms::{Form, Window};
use crate::trtx::geometry::{
    channels_are_reported, dilated_pooling_means, given, global_windows_land, is_pooled_to,
    l2_windows_land, made, pooling_windows_land, rounding_is, rounding_is_asked_by,
};
use crate::trtx::laws::kinds::{
    average_pool2d_is_added, global_average_pool_is_added, global_max_pool_is_added,
    l2_pool2d_is_added, max_pool2d_is_added,
};
use crate::trtx::laws::words::{
    cast_where, four_bytes_hold, holds_halves, in_small_letters, number_in, reported, shape, size,
    turned_where,
};
use crate::trtx::meaning::went_through;
use crate::trtx::network::operation_added;
use crate::trtx::pool::{pool_plan, pool_window, PoolPlan};
use crate::trtx::session::Run;
use crate::trtx::types::{ElementWiseOperation, PoolingType, Tensor, TrtDataType, UnaryOperation};
use vstd::prelude::*;

verus! {

/// An entry of a list, and 1 where there is none.
pub open spec fn entry(list: Seq<u32>, i: int) -> u32 {
    if i < list.len() {
        list[i]
    } else {
        1
    }
}

/// An entry of the paddings, which are none unless all four are given.
pub open spec fn padding(list: Seq<u32>, i: int) -> u32 {
    if list.len() >= 4 {
        list[i]
    } else {
        0
    }
}

/// The window of a pooling: the one of the options, or else the whole height and width that the graph
/// gives the input.
pub open spec fn window_wanted(graph: GraphInfo, id: u32, o: MLPool2dOptions) -> (u32, u32) {
    let d = shape(graph, id);
    if o.window_dimensions is Some && o.window_dimensions->0@.len() >= 2 {
        (o.window_dimensions->0@[0], o.window_dimensions->0@[1])
    } else if in_small_letters(o.layout@) == "nhwc"@ {
        (size(d[1]), size(d[2]))
    } else {
        (size(d[2]), size(d[3]))
    }
}

/// How the window of a pooling without dilations moves over the input: in the strides of the options,
/// over an input with the paddings of the options round it. The options list the beginning and the
/// ending of the height, then those of the width.
pub open spec fn window_moved(graph: GraphInfo, id: u32, o: MLPool2dOptions) -> Window {
    let window = window_wanted(graph, id, o);
    Window {
        kernel: (window.0 as i64, window.1 as i64),
        stride: (entry(o.strides@, 0) as i64, entry(o.strides@, 1) as i64),
        dilation: (1, 1),
        pre: (padding(o.padding@, 0) as i64, padding(o.padding@, 2) as i64),
        post: (padding(o.padding@, 1) as i64, padding(o.padding@, 3) as i64),
    }
}

/// Whether options ask for no dilation.
pub open spec fn undilated(o: MLPool2dOptions) -> bool {
    entry(o.dilations@, 0) == 1 && entry(o.dilations@, 1) == 1
}

/// The options of a pooling, or those that stand for none: the whole input for a window, no padding, and
/// strides and dilations of 1.
pub open spec fn pool_asked(options: Option<MLPool2dOptions>, o: MLPool2dOptions) -> bool {
    match options {
        Some(given) => given == o,
        None => {
            &&& o.window_dimensions is None && o.output_sizes is None
            &&& o.padding@.len() == 0 && o.strides@.len() == 0 && o.dilations@.len() == 0
            &&& o.layout@.len() == 0 && o.output_shape_rounding@.len() == 0
        },
    }
}

proof fn plan_is_of_options(kind: OperationKind, options: Option<MLPool2dOptions>, o: MLPool2dOptions)
    requires
        pool_asked(options, o),
        kind == (OperationKind::AveragePool2d { options }) || kind == (
        OperationKind::MaxPool2d { options }) || kind == (OperationKind::L2Pool2d { options }) || kind == (OperationKind::GlobalAveragePool { options }) || kind == (
        OperationKind::GlobalMaxPool { options }),
    ensures
        ({
            let plan = pool_plan(kind);
            &&& plan.nhwc == (o.layout@ == "nhwc"@)
            &&& plan.nhwc_any_case == (in_small_letters(o.layout@) == "nhwc"@)
            &&& plan.strides == (entry(o.strides@, 0), entry(o.strides@, 1))
            &&& plan.dilations == (entry(o.dilations@, 0), entry(o.dilations@, 1))
            &&& plan.padding == (
                padding(o.padding@, 0),
                padding(o.padding@, 1),
                padding(o.padding@, 2),
                padding(o.padding@, 3),
            )
            &&& plan.ceil == (in_small_letters(o.output_shape_rounding@) == "ceil"@)
            &&& plan.window == if o.window_dimensions is Some && o.window_dimensions->0@.len() >= 2 {
                Some((o.window_dimensions->0@[0], o.window_dimensions->0@[1]))
            } else {
                None
            }
        }),
{
    reveal(pool_plan);
    reveal_strlit("nhwc");
    reveal_strlit("ceil");
    assert(in_small_letters(o.layout@) =~= ascii_lowercase(o.layout@));
    assert(in_small_letters(o.output_shape_rounding@) =~= ascii_lowercase(
        o.output_shape_rounding@,
    ));
}

/// A maximum or an average over windows takes the windows, the strides and the paddings of the
/// options. Where their layout is the text "nhwc", the input is turned to put the channels second and
/// the result is turned back; with any other layout no axis is turned. The sizes are rounded as the
/// sizes of the output imply or, where they imply nothing, up where the options say "ceil".
pub proof fn pooling_follows_options(
    n: Run,
    m: Map<u32, Tensor>,
    graph: GraphInfo,
    op: Operation,
    promoted: Set<u32>,
    options: Option<MLPool2dOptions>,
    o: MLPool2dOptions,
)
    requires
        pool_asked(options, o),
        went_through(n, m, operation_added(n, m, graph, op, promoted)),
        op.kind == (OperationKind::AveragePool2d { options }) || op.kind == (
        OperationKind::MaxPool2d { options }),
        undilated(o),
    ensures
        ({
            let step = operation_added(n, m, graph, op, promoted);
            let last = o.layout@ == "nhwc"@;
            let ceil = in_small_letters(o.output_shape_rounding@) == "ceil"@;
            exists|k: int, up: bool|
                #[trigger] rounding_is(step.0, op.outputs@[0], k, ceil, up) && made(op, step)
                    == turned_where(
                    last,
                    seq![0i32, 2, 3, 1],
                    Form::Pooled(
                        if op.kind is MaxPool2d {
                            PoolingType::kMAX
                        } else {
                            PoolingType::kAVERAGE
                        },
                        window_moved(graph, op.inputs@[0], o),
                        up,
                        None,
                        Box::new(turned_where(last, seq![0i32, 3, 1, 2], given(n, m, op, 0))),
                    ),
                )
        }),
{
    let kind = if op.kind is MaxPool2d {
        max_pool2d_is_added(n, m, graph, op, promoted);
        PoolingType::kMAX
    } else {
        average_pool2d_is_added(n, m, graph, op, promoted);
        PoolingType::kAVERAGE
    };
    plan_is_of_options(op.kind, options, o);
    pooling_windows_land(n, m, graph, op, kind);
    let (k, up) = rounding_is_asked_by(n, m, graph, op, kind);
    assert(pool_window(n, graph, op.inputs@[0], pool_plan(op.kind)).1 == window_wanted(
        graph,
        op.inputs@[0],
        o,
    )) by {
        reveal(pool_window);
    }
}

/// The square root of the sum of squares over windows: the average of the squares over the windows of
/// the options, with the padding counted, times the area of the window, and the square root of that.
pub proof fn l2_pooling_follows_options(
    n: Run,
    m: Map<u32, Tensor>,
    graph: GraphInfo,
    op: Operation,
    promoted: Set<u32>,
    options: Option<MLPool2dOptions>,
    o: MLPool2dOptions,
)
    requires
        pool_asked(options, o),
        went_through(n, m, operation_added(n, m, graph, op, promoted)),
        op.kind == (OperationKind::L2Pool2d { options }),
        undilated(o),
    ensures
        ({
            let step = operation_added(n, m, graph, op, promoted);
            let last = o.layout@ == "nhwc"@;
            let half = holds_halves(graph, op.inputs@[0]);
            let ceil = in_small_letters(o.output_shape_rounding@) == "ceil"@;
            let window = window_wanted(graph, op.inputs@[0], o);
            let x = given(n, m, op, 0);
            exists|k: int, up: bool, area: Seq<u8>|
                {
                    &&& #[trigger] rounding_is(step.0, op.outputs@[0], k, ceil, up)
                    &&& #[trigger] number_in(area) == product_bits(window.0 as nat, window.1 as nat)
                    &&& area.len() == 4
                    &&& made(op, step) == cast_where(
                        half,
                        TrtDataType::kHALF,
                        Form::Unary(
                            UnaryOperation::kSQRT,
                            Box::new(
                                turned_where(
                                    last,
                                    seq![0i32, 2, 3, 1],
                                    Form::Elementwise(
                                        ElementWiseOperation::kPROD,
                                        Box::new(
                                            cast_where(
                                                half,
                                                TrtDataType::kFLOAT,
                                                Form::Pooled(
                                                    PoolingType::kAVERAGE,
                                                    window_moved(graph, op.inputs@[0], o),
                                                    up,
                                                    Some(false),
                                                    Box::new(
                                                        turned_where(
                                                            last,
                                                            seq![0i32, 3, 1, 2],
                                                            Form::Elementwise(
                                                                ElementWiseOperation::kPROD,
                                                                Box::new(x),
                                                                Box::new(x),
                                                            ),
                                                        ),
                                                    ),
                                                ),
                                            ),
                                        ),
                                        Box::new(
                                            Form::Constant(
                                                seq![1i64, 1, 1, 1],
                                                area,
                                                TrtDataType::kFLOAT,
                                            ),
                                        ),
                                    ),
                                ),
                            ),
                        ),
                    )
                }
        }),
{
    l2_pool2d_is_added(n, m, graph, op, promoted);
    plan_is_of_options(op.kind, options, o);
    l2_windows_land(n, m, graph, op);
    let plan = pool_plan(op.kind);
    let window = window_wanted(graph, op.inputs@[0], o);
    assert(pool_window(n, graph, op.inputs@[0], plan).1 == window) by {
        reveal(pool_window);
    }
    let ceil = in_small_letters(o.output_shape_rounding@) == "ceil"@;
    let step = operation_added(n, m, graph, op, promoted);
    four_bytes_hold(product_bits(window.0 as nat, window.1 as nat));
    assert(ones(4) =~= seq![1i64, 1, 1, 1]);
    let area = le4(product_bits(window.0 as nat, window.1 as nat));
    assert(number_in(area) == product_bits(window.0 as nat, window.1 as nat));
}

/// A maximum or an average over everything has one window, which is the whole height and width that
/// TensorRT reports of the input once its channels are second.
pub proof fn global_pooling_follows_options(
    n: Run,
    m: Map<u32, Tensor>,
    graph: GraphInfo,
    op: Operation,
    promoted: Set<u32>,
    options: Option<MLPool2dOptions>,
    o: MLPool2dOptions,
)
    requires
        pool_asked(options, o),
        went_through(n, m, operation_added(n, m, graph, op, promoted)),
        op.kind == (OperationKind::GlobalAveragePool { options }) || op.kind == (
        OperationKind::GlobalMaxPool { options }),
    ensures
        ({
            let step = operation_added(n, m, graph, op, promoted);
            let last = o.layout@ == "nhwc"@;
            let source = turned_where(last, seq![0i32, 3, 1, 2], given(n, m, op, 0));
            exists|t: Tensor|
                {
                    let d = #[trigger] reported(step.0, t);
                    &&& step.0.form(t) == source
                    &&& d.len() >= 4
                    &&& made(op, step) == turned_where(
                        last,
                        seq![0i32, 2, 3, 1],
                        Form::Pooled(
                            if op.kind is GlobalMaxPool {
                                PoolingType::kMAX
                            } else {
                                PoolingType::kAVERAGE
                            },
                            Window {
                                kernel: (d[2], d[3]),
                                stride: (1, 1),
                                dilation: (1, 1),
                                pre: (0, 0),
                                post: (0, 0),
                            },
                            false,
                            None,
                            Box::new(source),
                        ),
                    )
                }
        }),
{
    let kind = if op.kind is GlobalMaxPool {
        global_max_pool_is_added(n, m, graph, op, promoted);
        PoolingType::kMAX
    } else {
        global_average_pool_is_added(n, m, graph, op, promoted);
        PoolingType::kAVERAGE
    };
    plan_is_of_options(op.kind, options, o);
    global_windows_land(n, m, graph, op, kind);
    let t = channels_are_reported(n, m, op, kind);
    let d = reported(operation_added(n, m, graph, op, promoted).0, t);
}

/// What the options of a pooling ask for.
pub open spec fn plan_asked(o: MLPool2dOptions) -> PoolPlan {
    PoolPlan {
        window: if o.window_dimensions is Some && o.window_dimensions->0@.len() >= 2 {
            Some((o.window_dimensions->0@[0], o.window_dimensions->0@[1]))
        } else {
            None
        },
        nhwc: o.layout@ == "nhwc"@,
        nhwc_any_case: in_small_letters(o.layout@) == "nhwc"@,
        strides: (entry(o.strides@, 0), entry(o.strides@, 1)),
        dilations: (entry(o.dilations@, 0), entry(o.dilations@, 1)),
        padding: (
            padding(o.padding@, 0),
            padding(o.padding@, 1),
            padding(o.padding@, 2),
            padding(o.padding@, 3),
        ),
        sized: o.output_sizes is Some && o.output_sizes->0@.len() >= 2,
        ceil: in_small_letters(o.output_shape_rounding@) == "ceil"@,
    }
}

/// Whether a form is a pooling with dilations of another, as the options ask for it, turned back where
/// the layout is "nhwc".
pub open spec fn is_dilated_pooling(
    f: Form,
    from: Form,
    graph: GraphInfo,
    op: Operation,
    kind: PoolingType,
    o: MLPool2dOptions,
) -> bool {
    exists|g: Form|
        #[trigger] is_pooled_to(
            graph,
            op.outputs@[0],
            kind,
            from,
            g,
            window_wanted(graph, op.inputs@[0], o),
            plan_asked(o),
        ) && f == turned_where(o.layout@ == "nhwc"@, seq![0i32, 2, 3, 1], g)
}

/// A maximum or an average over windows with dilations takes the windows, the strides, the dilations
/// and the paddings of the options, in the layout of the options, on numbers in single precision.
pub proof fn dilated_pooling_follows_options(
    n: Run,
    m: Map<u32, Tensor>,
    graph: GraphInfo,
    op: Operation,
    promoted: Set<u32>,
    options: Option<MLPool2dOptions>,
    o: MLPool2dOptions,
)
    requires
        pool_asked(options, o),
        went_through(n, m, operation_added(n, m, graph, op, promoted)),
        op.kind == (OperationKind::AveragePool2d { options }) || op.kind == (
        OperationKind::MaxPool2d { options }),
        !undilated(o),
    ensures
        is_dilated_pooling(
            made(op, operation_added(n, m, graph, op, promoted)),
            cast_where(
                holds_halves(graph, op.inputs@[0]),
                TrtDataType::kFLOAT,
                turned_where(o.layout@ == "nhwc"@, seq![0i32, 3, 1, 2], given(n, m, op, 0)),
            ),
            graph,
            op,
            if op.kind is MaxPool2d {
                PoolingType::kMAX
            } else {
                PoolingType::kAVERAGE
            },
            o,
        ),
{
    let kind = if op.kind is MaxPool2d {
        max_pool2d_is_added(n, m, graph, op, promoted);
        PoolingType::kMAX
    } else {
        average_pool2d_is_added(n, m, graph, op, promoted);
        PoolingType::kAVERAGE
    };
    plan_is_of_options(op.kind, options, o);
    dilated_pooling_means(n, m, graph, op, kind);
    let plan = pool_plan(op.kind);
    assert(plan == plan_asked(o)) by {
        reveal(pool_plan);
    }
    assert(pool_window(n, graph, op.inputs@[0], plan).1 == window_wanted(
        graph,
        op.inputs@[0],
        o,
    )) by {
        reveal(pool_window);
    }
}

} // verus!
