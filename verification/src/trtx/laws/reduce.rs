//! Reductions.

use crate::graph::GraphInfo;
use crate::operator_options::MLReduceOptions;
use crate::operators::{Operation, OperationKind};
use crate::trtx::forms::{group_forms, group_wide_forms, Form};
use crate::trtx::geometry::{given, made};
use crate::trtx::growth::{group_grows, grows_mask, grows_over_axes};
use crate::trtx::laws::kinds;
use crate::trtx::laws::words::{cast_where, holds_halves, reported};
use crate::trtx::meaning::went_through;
use crate::trtx::network::operation_added;
use crate::trtx::reduce::{keeps_dims, over_axes, reduce_axes};
use crate::trtx::session::Run;
use crate::trtx::shapes::{axes_mask, mask, mask_holds_axes};
use crate::trtx::types::{
    ElementWiseOperation, ReduceOperation, Tensor, TrtDataType, UnaryOperation,
};
use vstd::prelude::*;

verus! {

/// The axes that the options of a reduction list, where they do.
pub open spec fn listed(options: Option<MLReduceOptions>) -> Option<Seq<u32>> {
    match options {
        Some(o) => match o.axes {
            Some(axes) => Some(axes@),
            None => None,
        },
        None => None,
    }
}

/// Whether a reduction of a form of so many axes goes over an axis: one of those listed, or any where
/// none are.
pub open spec fn goes_over(options: Option<MLReduceOptions>, rank: nat, axis: u32) -> bool {
    match listed(options) {
        Some(axes) => axes.contains(axis),
        None => axis < rank,
    }
}

/// Whether a form is another reduced over the axes of the options, which stay with the extent 1
/// exactly where the options keep them. Over no axis it is the form itself.
pub open spec fn is_reduced(
    to: Form,
    from: Form,
    code: ReduceOperation,
    options: Option<MLReduceOptions>,
    rank: nat,
) -> bool {
    if over_nothing(options, rank) {
        to == from
    } else {
        match to {
            Form::Reduced(c, bits, keep, f) => {
                &&& c == code
                &&& *f == from
                &&& keep == match options {
                    Some(o) => o.keep_dimensions,
                    None => false,
                }
                &&& forall|axis: u32|
                    axis < 32 ==> ((#[trigger] (bits >> axis)) & 1 == 1 <==> goes_over(
                        options,
                        rank,
                        axis,
                    ))
            },
            _ => false,
        }
    }
}

/// Whether a reduction goes over no axis.
pub open spec fn over_nothing(options: Option<MLReduceOptions>, rank: nat) -> bool {
    match listed(options) {
        Some(axes) => axes.len() == 0,
        None => rank == 0,
    }
}

broadcast proof fn forms_over_axes(
    n: Run,
    t: Tensor,
    op: ReduceOperation,
    axes: Seq<u32>,
    keep: bool,
    add_label: Seq<char>,
    output_label: Seq<char>,
)
    requires
        over_axes(n, t, op, axes, keep, add_label, output_label).0.goes_on(),
        n.has(t),
    ensures
        ({
            let (after, r) = #[trigger] over_axes(n, t, op, axes, keep, add_label, output_label);
            &&& axes_mask(axes) is Some
            &&& after.has(r)
            &&& after.form(r) == Form::Reduced(op, axes_mask(axes)->0, keep, Box::new(n.form(t)))
        }),
{
    broadcast use {group_grows, group_forms, group_wide_forms, grows_mask};

    reveal(over_axes);
    let (a, bits) = mask(n, axes);
    assert(a.goes_on());
}

/// The mask of the axes of a reduction has the bits of the axes that it goes over.
proof fn mask_is_of_options(
    kind: OperationKind,
    options: Option<MLReduceOptions>,
    rank: nat,
    to: Form,
    from: Form,
    code: ReduceOperation,
)
    requires
        crate::trtx::reduce::reduce_options(kind) == options,
        rank <= u32::MAX,
        ({
            let axes = reduce_axes(kind, rank);
            if axes.len() == 0 {
                to == from
            } else {
                axes_mask(axes) is Some && to == Form::Reduced(
                    code,
                    axes_mask(axes)->0,
                    keeps_dims(kind),
                    Box::new(from),
                )
            }
        }),
    ensures
        is_reduced(to, from, code, options, rank),
        over_nothing(options, rank) == (reduce_axes(kind, rank).len() == 0),
{
    reveal(reduce_axes);
    reveal(keeps_dims);
    let axes = reduce_axes(kind, rank);
    if axes.len() > 0 {
        let bits = axes_mask(axes)->0;
        assert forall|axis: u32| axis < 32 implies ((#[trigger] (bits >> axis)) & 1 == 1
            <==> goes_over(options, rank, axis)) by {
            mask_holds_axes(axes, axis);
            if listed(options) is None {
                if axis < rank {
                    assert(axes[axis as int] == axis);
                }
                if axes.contains(axis) {
                    let i = choose|i: int| 0 <= i < axes.len() && axes[i] == axis;
                    assert(axes[i] == i as u32);
                }
            }
        }
    }
}

/// What a plain reduction reduces by.
pub open spec fn plain(kind: OperationKind) -> Option<ReduceOperation> {
    match kind {
        OperationKind::ReduceSum { .. } => Some(ReduceOperation::kSUM),
        OperationKind::ReduceMean { .. } => Some(ReduceOperation::kAVG),
        OperationKind::ReduceMax { .. } => Some(ReduceOperation::kMAX),
        OperationKind::ReduceMin { .. } => Some(ReduceOperation::kMIN),
        OperationKind::ReduceProduct { .. } => Some(ReduceOperation::kPROD),
        _ => None,
    }
}

/// Whether a kind is one of reductions with these options.
pub open spec fn has_options(kind: OperationKind, o: Option<MLReduceOptions>) -> bool {
    match kind {
        OperationKind::ReduceSum { options } => options == o,
        OperationKind::ReduceMean { options } => options == o,
        OperationKind::ReduceMax { options } => options == o,
        OperationKind::ReduceMin { options } => options == o,
        OperationKind::ReduceProduct { options } => options == o,
        OperationKind::ReduceL1 { options } => options == o,
        OperationKind::ReduceL2 { options } => options == o,
        OperationKind::ReduceLogSum { options } => options == o,
        OperationKind::ReduceLogSumExp { options } => options == o,
        OperationKind::ReduceSumSquare { options } => options == o,
        _ => false,
    }
}

/// A sum, a mean, a maximum, a minimum or a product goes over the axes of its options.
pub proof fn reduction_follows_options(
    n: Run,
    m: Map<u32, Tensor>,
    graph: GraphInfo,
    op: Operation,
    promoted: Set<u32>,
    options: Option<MLReduceOptions>,
)
    requires
        went_through(n, m, operation_added(n, m, graph, op, promoted)),
        plain(op.kind) is Some,
        has_options(op.kind, options),
        reported(n, m[op.inputs@[0]]).len() <= u32::MAX,
    ensures
        is_reduced(
            made(op, operation_added(n, m, graph, op, promoted)),
            given(n, m, op, 0),
            plain(op.kind)->0,
            options,
            reported(n, m[op.inputs@[0]]).len(),
        ),
{
    broadcast use {group_grows, group_forms, grows_over_axes, forms_over_axes};

    match op.kind {
        OperationKind::ReduceSum { .. } => kinds::reduce_sum_is_added(n, m, graph, op, promoted),
        OperationKind::ReduceMean { .. } => kinds::reduce_mean_is_added(n, m, graph, op, promoted),
        OperationKind::ReduceMax { .. } => kinds::reduce_max_is_added(n, m, graph, op, promoted),
        OperationKind::ReduceMin { .. } => kinds::reduce_min_is_added(n, m, graph, op, promoted),
        _ => kinds::reduce_product_is_added(n, m, graph, op, promoted),
    }
    reveal(Run::dims);
    mask_is_of_options(
        op.kind,
        options,
        reported(n, m[op.inputs@[0]]).len(),
        made(op, operation_added(n, m, graph, op, promoted)),
        given(n, m, op, 0),
        plain(op.kind)->0,
    );
}

/// A sum of absolute values, and a sum of squares, go over the axes of their options.
pub proof fn sum_of_parts_follows_options(
    n: Run,
    m: Map<u32, Tensor>,
    graph: GraphInfo,
    op: Operation,
    promoted: Set<u32>,
    options: Option<MLReduceOptions>,
)
    requires
        went_through(n, m, operation_added(n, m, graph, op, promoted)),
        op.kind is ReduceL1 || op.kind is ReduceSumSquare,
        has_options(op.kind, options),
        reported(n, m[op.inputs@[0]]).len() <= u32::MAX,
    ensures
        ({
            let x = given(n, m, op, 0);
            is_reduced(
                made(op, operation_added(n, m, graph, op, promoted)),
                if op.kind is ReduceL1 {
                    Form::Unary(UnaryOperation::kABS, Box::new(x))
                } else {
                    Form::Elementwise(ElementWiseOperation::kPROD, Box::new(x), Box::new(x))
                },
                ReduceOperation::kSUM,
                options,
                reported(n, m[op.inputs@[0]]).len(),
            )
        }),
{
    broadcast use {group_grows, group_forms, grows_over_axes, forms_over_axes};

    reveal(Run::dims);
    let x = given(n, m, op, 0);
    let rank = reported(n, m[op.inputs@[0]]).len();
    if op.kind is ReduceL1 {
        kinds::reduce_l1_is_added(n, m, graph, op, promoted);
    } else {
        kinds::reduce_sum_square_is_added(n, m, graph, op, promoted);
    }
    replies_stay_known(n);
    mask_is_of_options(
        op.kind,
        options,
        rank,
        made(op, operation_added(n, m, graph, op, promoted)),
        if op.kind is ReduceL1 {
            Form::Unary(UnaryOperation::kABS, Box::new(x))
        } else {
            Form::Elementwise(ElementWiseOperation::kPROD, Box::new(x), Box::new(x))
        },
        ReduceOperation::kSUM,
    );
}

proof fn replies_stay_known(n: Run)
    ensures
        forall|after: Run| #[trigger] after.grows(n) ==> after.replies == n.replies,
{
    assert forall|after: Run| #[trigger] after.grows(n) implies after.replies == n.replies by {
        reveal(Run::grows);
    }
}

/// The logarithm of a sum over the axes of the options.
pub proof fn log_of_sum_follows_options(
    n: Run,
    m: Map<u32, Tensor>,
    graph: GraphInfo,
    op: Operation,
    promoted: Set<u32>,
    options: Option<MLReduceOptions>,
)
    requires
        went_through(n, m, operation_added(n, m, graph, op, promoted)),
        op.kind is ReduceLogSum,
        has_options(op.kind, options),
        reported(n, m[op.inputs@[0]]).len() <= u32::MAX,
    ensures
        ({
            let rank = reported(n, m[op.inputs@[0]]).len();
            made(op, operation_added(n, m, graph, op, promoted)) matches Form::Unary(
                UnaryOperation::kLOG,
                sum,
            ) && is_reduced(*sum, given(n, m, op, 0), ReduceOperation::kSUM, options, rank)
        }),
{
    broadcast use {group_grows, group_forms, grows_over_axes, forms_over_axes};

    reveal(Run::dims);
    let rank = reported(n, m[op.inputs@[0]]).len();
    kinds::reduce_log_sum_is_added(n, m, graph, op, promoted);
    mask_is_of_options(
        op.kind,
        options,
        rank,
        *made(op, operation_added(n, m, graph, op, promoted))->Unary_1,
        given(n, m, op, 0),
        ReduceOperation::kSUM,
    );
}

/// The logarithm of a sum of exponentials over the axes of the options; over no axis it is the input.
pub proof fn log_of_exponentials_follows_options(
    n: Run,
    m: Map<u32, Tensor>,
    graph: GraphInfo,
    op: Operation,
    promoted: Set<u32>,
    options: Option<MLReduceOptions>,
)
    requires
        went_through(n, m, operation_added(n, m, graph, op, promoted)),
        op.kind is ReduceLogSumExp,
        has_options(op.kind, options),
        reported(n, m[op.inputs@[0]]).len() <= u32::MAX,
    ensures
        ({
            let x = given(n, m, op, 0);
            let rank = reported(n, m[op.inputs@[0]]).len();
            let end = made(op, operation_added(n, m, graph, op, promoted));
            if over_nothing(options, rank) {
                end == x
            } else {
                end matches Form::Unary(UnaryOperation::kLOG, sum) && is_reduced(
                    *sum,
                    Form::Unary(UnaryOperation::kEXP, Box::new(x)),
                    ReduceOperation::kSUM,
                    options,
                    rank,
                )
            }
        }),
{
    broadcast use {group_grows, group_forms, grows_over_axes, forms_over_axes};

    reveal(Run::dims);
    replies_stay_known(n);
    let x = given(n, m, op, 0);
    let rank = reported(n, m[op.inputs@[0]]).len();
    kinds::reduce_log_sum_exp_is_added(n, m, graph, op, promoted);
    let end = made(op, operation_added(n, m, graph, op, promoted));
    let e = Form::Unary(UnaryOperation::kEXP, Box::new(x));
    if reduce_axes(op.kind, rank).len() == 0 {
        mask_is_of_options(op.kind, options, rank, e, e, ReduceOperation::kSUM);
    } else {
        mask_is_of_options(op.kind, options, rank, *end->Unary_1, e, ReduceOperation::kSUM);
    }
}

/// The square root of a sum of squares over the axes of the options, summed in single precision. Over
/// no axis it is the square root of the square.
pub proof fn root_of_squares_follows_options(
    n: Run,
    m: Map<u32, Tensor>,
    graph: GraphInfo,
    op: Operation,
    promoted: Set<u32>,
    options: Option<MLReduceOptions>,
)
    requires
        went_through(n, m, operation_added(n, m, graph, op, promoted)),
        op.kind is ReduceL2,
        has_options(op.kind, options),
        reported(n, m[op.inputs@[0]]).len() <= u32::MAX,
    ensures
        ({
            let x = given(n, m, op, 0);
            let square = Form::Elementwise(ElementWiseOperation::kPROD, Box::new(x), Box::new(x));
            let rank = reported(n, m[op.inputs@[0]]).len();
            let end = made(op, operation_added(n, m, graph, op, promoted));
            if over_nothing(options, rank) {
                end == Form::Unary(UnaryOperation::kSQRT, Box::new(square))
            } else {
                exists|sum: Form|
                    #[trigger] is_reduced(
                        sum,
                        Form::Cast(TrtDataType::kFLOAT, Box::new(square)),
                        ReduceOperation::kSUM,
                        options,
                        rank,
                    ) && end == cast_where(
                        holds_halves(graph, op.inputs@[0]),
                        TrtDataType::kHALF,
                        Form::Unary(UnaryOperation::kSQRT, Box::new(sum)),
                    )
            }
        }),
{
    broadcast use {group_grows, group_forms, group_wide_forms, grows_mask};

    reveal(Run::dims);
    replies_stay_known(n);
    let x = given(n, m, op, 0);
    let square = Form::Elementwise(ElementWiseOperation::kPROD, Box::new(x), Box::new(x));
    let rank = reported(n, m[op.inputs@[0]]).len();
    kinds::reduce_l2_is_added(n, m, graph, op, promoted);
    let axes = reduce_axes(op.kind, rank);
    let from = Form::Cast(TrtDataType::kFLOAT, Box::new(square));
    if axes.len() == 0 {
        mask_is_of_options(op.kind, options, rank, from, from, ReduceOperation::kSUM);
    } else {
        let (a, t) = n.elementwise(
            m[op.inputs@[0]],
            m[op.inputs@[0]],
            ElementWiseOperation::kPROD,
            "Failed to add square for L2: "@,
            "Failed to get square output: "@,
        );
        assert(mask(a, axes).0.goes_on());
        let sum = Form::Reduced(
            ReduceOperation::kSUM,
            axes_mask(axes)->0,
            keeps_dims(op.kind),
            Box::new(from),
        );
        mask_is_of_options(op.kind, options, rank, sum, from, ReduceOperation::kSUM);
    }
}

} // verus!
