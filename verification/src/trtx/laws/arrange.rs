//! Operations that move, repeat or leave out elements.

use crate::graph::GraphInfo;
use crate::operator_options::{
    MLDimension, MLReverseOptions, MLSliceOptions, MLSplitOptions, MLTransposeOptions,
};
use crate::operators::{Operation, OperationKind};
use crate::trtx::arrange::{
    even_part, even_parts, even_parts_add_up, names_axis, reverse_axes, slice_covers, squeezed,
    sum_of, unnamed_axes, unsqueezed,
};
use crate::trtx::forms::Form;
use crate::trtx::geometry::{given, made};
use crate::trtx::laws::kinds::{
    concat_is_added, reshape_is_added, reverse_is_added, slice_is_added, split_is_added,
    squeeze_is_added, tile_is_added, transpose_is_added, unsqueeze_is_added,
};
use crate::trtx::laws::words::{reported, shape, size};
use crate::trtx::meaning::went_through;
use crate::trtx::network::operation_added;
use crate::trtx::pieces::{
    all_given, concat_means, has_own_outputs, reshape_means, reverse_means, slice_means,
    split_cut, split_means, split_piece, squeeze_means, tile_means, tiled, transpose_means,
    unsqueeze_means,
};
use crate::trtx::session::Run;
use crate::trtx::types::Tensor;
use vstd::prelude::*;

verus! {

/// Whether a form is another with its axes in an order.
pub open spec fn is_turned(to: Form, from: Form, order: Seq<int>) -> bool {
    match to {
        Form::Turned(axes, f) => {
            &&& *f == from
            &&& axes.len() == order.len()
            &&& forall|i: int| 0 <= i < order.len() ==> #[trigger] axes[i] == order[i]
        },
        _ => false,
    }
}

/// The axes of a transposition: axis `i` of the result is the axis of the input at place `i` of the
/// permutation. Only where no permutation is given do the axes stand backwards.
pub proof fn transpose_follows_options(
    n: Run,
    m: Map<u32, Tensor>,
    graph: GraphInfo,
    op: Operation,
    promoted: Set<u32>,
    options: Option<MLTransposeOptions>,
)
    requires
        went_through(n, m, operation_added(n, m, graph, op, promoted)),
        op.kind == (OperationKind::Transpose { options }),
    ensures
        ({
            let rank = reported(n, m[op.inputs@[0]]).len();
            let end = made(op, operation_added(n, m, graph, op, promoted));
            let x = given(n, m, op, 0);
            if options is Some && options->0.permutation@.len() > 0 {
                let permutation = options->0.permutation@;
                permutation.len() == rank && is_turned(
                    end,
                    x,
                    Seq::new(rank, |i: int| permutation[i] as i32 as int),
                )
            } else {
                is_turned(end, x, Seq::new(rank, |i: int| (rank - 1 - i) as i32 as int))
            }
        }),
{
    transpose_is_added(n, m, graph, op, promoted);
    transpose_means(n, m, op);
}

/// The size that an operation asks for, or its bound where the size is not fixed.
pub open spec fn size_asked(d: MLDimension) -> u32 {
    match d {
        MLDimension::Static(n) => n,
        MLDimension::Dynamic(d) => d.max_size,
    }
}

/// A reshape gives its input the sizes that it asks for.
pub proof fn reshape_follows_shape(
    n: Run,
    m: Map<u32, Tensor>,
    graph: GraphInfo,
    op: Operation,
    promoted: Set<u32>,
    new_shape: Vec<MLDimension>,
)
    requires
        went_through(n, m, operation_added(n, m, graph, op, promoted)),
        op.kind == (OperationKind::Reshape { new_shape }),
    ensures
        match made(op, operation_added(n, m, graph, op, promoted)) {
            Form::Reshaped(dims, f) => {
                &&& *f == given(n, m, op, 0)
                &&& dims.len() == new_shape@.len()
                &&& forall|i: int|
                    0 <= i < dims.len() ==> #[trigger] dims[i] == size_asked(new_shape@[i])
            },
            _ => false,
        },
{
    reshape_is_added(n, m, graph, op, promoted);
    reshape_means(n, m, op);
}

/// Whether `count` elements, `stride` apart, are those of a stretch of `extent`: the last one lies in
/// it, and the next one would not.
pub open spec fn covers(count: i64, extent: int, stride: int) -> bool {
    &&& (count - 1) * stride < extent
    &&& extent <= count * stride
}

/// A slice starts where it is told, and takes elements in the strides of the options, as many as there
/// are in the stretch that it is told. Without starts or sizes it is the input.
pub proof fn slice_follows_options(
    n: Run,
    m: Map<u32, Tensor>,
    graph: GraphInfo,
    op: Operation,
    promoted: Set<u32>,
    starts: Vec<u32>,
    sizes: Vec<MLDimension>,
    o: MLSliceOptions,
)
    requires
        went_through(n, m, operation_added(n, m, graph, op, promoted)),
        op.kind == (OperationKind::Slice { starts, sizes, options: Some(o) }),
        starts@.len() == sizes@.len(),
        o.strides@.len() == 0 || o.strides@.len() == starts@.len(),
        forall|i: int| 0 <= i < sizes@.len() ==> size_asked(#[trigger] sizes@[i]) <= i32::MAX,
        forall|i: int| 0 <= i < o.strides@.len() ==> 0 < #[trigger] o.strides@[i] <= i32::MAX,
    ensures
        ({
            let x = given(n, m, op, 0);
            match made(op, operation_added(n, m, graph, op, promoted)) {
                Form::Sliced(from, count, step, f) if starts@.len() > 0 => {
                    &&& *f == x
                    &&& from.len() == starts@.len()
                    &&& count.len() == starts@.len()
                    &&& step.len() == starts@.len()
                    &&& forall|i: int|
                        0 <= i < starts@.len() ==> {
                            &&& #[trigger] from[i] == starts@[i] as i32
                            &&& step[i] == if o.strides@.len() == 0 {
                                1
                            } else {
                                o.strides@[i] as int
                            }
                            &&& covers(count[i], size_asked(sizes@[i]) as int, step[i] as int)
                        }
                },
                end => starts@.len() == 0 && end == x,
            }
        }),
{
    slice_is_added(n, m, graph, op, promoted);
    slice_means(n, m, op);
    if starts@.len() > 0 {
        let end = made(op, operation_added(n, m, graph, op, promoted));
        assert forall|i: int| 0 <= i < starts@.len() implies covers(
            end->Sliced_1[i],
            size_asked(sizes@[i]) as int,
            end->Sliced_2[i] as int,
        ) by {
            let extent = size_asked(sizes@[i]) as i32 as i64;
            let stride = end->Sliced_2[i];
            let step = stride as int;
            assert(step > 0);
            if extent > 0 && stride > 1 {
                slice_covers(extent, stride);
            } else if stride > 1 {
                assert((step - 1) / step == 0) by (nonlinear_arith)
                    requires
                        step > 1,
                ;
                assert(end->Sliced_1[i] == 0);
                assert((0 - 1) * step < 0 && 0 * step == 0) by (nonlinear_arith)
                    requires
                        step > 1,
                ;
            } else {
                assert(end->Sliced_1[i] == extent);
                assert(step == 1);
                assert((extent - 1) * step == extent - 1 && extent * step == extent)
                    by (nonlinear_arith)
                    requires
                        step == 1,
                ;
            }
        }
    }
}

/// The parts of a split, in the order of its outputs: along the axis of the options each starts where
/// the one before it ends, and along the others each is as long as the input. The sizes are those that
/// are listed; where none are, they are those of a division into parts as even as can be, with the
/// longer ones first.
pub proof fn split_follows_options(
    n: Run,
    m: Map<u32, Tensor>,
    graph: GraphInfo,
    op: Operation,
    promoted: Set<u32>,
    splits: Vec<u32>,
    o: MLSplitOptions,
    j: int,
)
    requires
        went_through(n, m, operation_added(n, m, graph, op, promoted)),
        op.kind == (OperationKind::Split { splits, options: Some(o) }),
        has_own_outputs(op),
        o.axis < reported(n, m[op.inputs@[0]]).len(),
        o.axis <= i32::MAX,
        0 <= reported(n, m[op.inputs@[0]])[o.axis as int] <= i32::MAX,
        forall|i: int| 0 <= i < splits@.len() ==> #[trigger] splits@[i] <= 0x00FF_FFFF,
        splits@.len() <= 0x00FF_FFFF,
        op.outputs@.len() <= 0x00FF_FFFF,
        0 <= j < op.outputs@.len(),
    ensures
        ({
            let d = reported(n, m[op.inputs@[0]]);
            let step = operation_added(n, m, graph, op, promoted);
            let count = op.outputs@.len();
            let axis = o.axis as int;
            let part = step.0.form(step.1[op.outputs@[j]]);
            let next = step.0.form(step.1[op.outputs@[j + 1]]);
            &&& part is Sliced
            &&& *part->Sliced_3 == given(n, m, op, 0)
            &&& part->Sliced_0.len() == d.len()
            &&& part->Sliced_1.len() == d.len()
            &&& part->Sliced_2.len() == d.len()
            &&& forall|i: int|
                0 <= i < d.len() && i != axis ==> #[trigger] part->Sliced_0[i] == 0
                    && part->Sliced_1[i] == d[i]
            &&& forall|i: int| 0 <= i < d.len() ==> #[trigger] part->Sliced_2[i] == 1
            &&& j == 0 ==> part->Sliced_0[axis] == 0
            &&& j + 1 < count ==> next->Sliced_0[axis] == part->Sliced_0[axis]
                + part->Sliced_1[axis]
            &&& splits@.len() > 0 ==> count == splits@.len() && part->Sliced_1[axis] == splits@[j]
            &&& splits@.len() == 0 ==> {
                &&& part->Sliced_1[axis] == d[axis] as int / count as int || part->Sliced_1[axis]
                    == d[axis] as int / count as int + 1
                &&& j + 1 < count ==> next->Sliced_1[axis] <= part->Sliced_1[axis]
                &&& j + 1 == count ==> part->Sliced_0[axis] + part->Sliced_1[axis] == d[axis]
            }
        }),
{
    split_is_added(n, m, graph, op, promoted);
    split_means(n, m, op);
    let d = reported(n, m[op.inputs@[0]]);
    let (axis, sizes) = split_cut(op, d);
    let count = op.outputs@.len();
    assert(axis == o.axis);
    let extent = d[axis as int] as i32;
    if splits@.len() == 0 {
        even_parts_add_up(extent, count, count);
        assert(sum_of(sizes, count) == extent);
        even_sums_are_small(extent, count, j as nat);
        even_sums_are_small(extent, count, (j + 1) as nat);
    } else {
        listed_sums_are_small(splits@, sizes, j as nat);
        listed_sums_are_small(splits@, sizes, (j + 1) as nat);
    }
    let step = operation_added(n, m, graph, op, promoted);
    let part = step.0.form(step.1[op.outputs@[j]]);
    assert(part == split_piece(given(n, m, op, 0), d, axis, sizes, j));
    assert(sum_of(sizes, (j + 1) as nat) == sum_of(sizes, j as nat) + sizes[j]);
    if j + 1 < count {
        let next = step.0.form(step.1[op.outputs@[j + 1]]);
        assert(next == split_piece(given(n, m, op, 0), d, axis, sizes, j + 1));
        assert(next->Sliced_0[axis as int] == sum_of(sizes, (j + 1) as nat));
    }
    assert(part->Sliced_0[axis as int] == sum_of(sizes, j as nat));
    assert(part->Sliced_1[axis as int] == sizes[j]);
    if splits@.len() == 0 {
        let (e, c) = (extent as int, count as int);
        let (q, r) = (e / c, e % c);
        assert(0 <= r < c && e - q * c == r && q >= 0 && q <= e && (r > 0 ==> q + 1 <= e))
            by (nonlinear_arith)
            requires
                q == e / c,
                r == e % c,
                e >= 0,
                c > 0,
        ;
        assert(sizes[j] == even_part(extent, count, j));
        assert(sizes[j] == e / c || sizes[j] == e / c + 1);
    }
}

proof fn listed_sums_are_small(splits: Seq<u32>, sizes: Seq<i32>, k: nat)
    requires
        sizes.len() == splits.len(),
        forall|i: int| 0 <= i < splits.len() ==> #[trigger] sizes[i] == splits[i] as i32,
        forall|i: int| 0 <= i < splits.len() ==> #[trigger] splits[i] <= 0x00FF_FFFF,
        k <= splits.len(),
        splits.len() <= 0x00FF_FFFF,
    ensures
        0 <= sum_of(sizes, k) <= k * 0x00FF_FFFF,
        k * 0x00FF_FFFF <= 0xFFFF_FFFF_FFFF,
    decreases k,
{
    if k > 0 {
        listed_sums_are_small(splits, sizes, (k - 1) as nat);
        assert(sizes[k - 1] == splits[k - 1]);
    }
}

proof fn even_sums_are_small(extent: i32, count: nat, k: nat)
    requires
        extent >= 0,
        0 < count,
        k <= count,
    ensures
        0 <= sum_of(even_parts(extent, count), k) <= extent,
{
    even_parts_add_up(extent, count, k);
    let (e, c) = (extent as int, count as int);
    let (q, r) = (e / c, e % c);
    assert(c * q + r == e && 0 <= r < c && q >= 0 && k * q <= c * q && k * q >= 0) by (nonlinear_arith)
        requires
            q == e / c,
            r == e % c,
            e >= 0,
            c > 0,
            0 <= k <= c,
    ;
}

/// How many of the first `k` axes a squeeze leaves.
pub open spec fn left(d: Seq<i64>, axes: Option<Vec<u32>>, k: nat) -> nat
    decreases k,
{
    if k == 0 {
        0
    } else if squeezes(d, axes, k - 1) {
        left(d, axes, (k - 1) as nat)
    } else {
        left(d, axes, (k - 1) as nat) + 1
    }
}

/// Whether a squeeze takes an axis out: it has extent 1, and is one of those listed where some are.
pub open spec fn squeezes(d: Seq<i64>, axes: Option<Vec<u32>>, i: int) -> bool {
    d[i] == 1 && (axes is Some ==> exists|j: int|
        0 <= j < axes->0@.len() && #[trigger] axes->0@[j] == i)
}

/// A squeeze takes out the axes of extent 1 that are listed, or all of extent 1 where none are, and
/// leaves the others in their order.
pub proof fn squeeze_follows_axes(
    n: Run,
    m: Map<u32, Tensor>,
    graph: GraphInfo,
    op: Operation,
    promoted: Set<u32>,
    axes: Option<Vec<u32>>,
)
    requires
        went_through(n, m, operation_added(n, m, graph, op, promoted)),
        op.kind == (OperationKind::Squeeze { axes }),
    ensures
        ({
            let d = reported(n, m[op.inputs@[0]]);
            match made(op, operation_added(n, m, graph, op, promoted)) {
                Form::Reshaped(dims, f) => {
                    &&& *f == given(n, m, op, 0)
                    &&& dims.len() == left(d, axes, d.len())
                    &&& forall|i: int|
                        0 <= i < d.len() && !squeezes(d, axes, i) ==> left(d, axes, i as nat)
                            < dims.len() && dims[left(d, axes, i as nat) as int] == #[trigger] d[i]
                },
                _ => false,
            }
        }),
{
    squeeze_is_added(n, m, graph, op, promoted);
    squeeze_means(n, m, op);
    let d = reported(n, m[op.inputs@[0]]);
    squeezed_leaves(d, axes, d.len());
}

proof fn squeezed_leaves(d: Seq<i64>, axes: Option<Vec<u32>>, k: nat)
    requires
        k <= d.len(),
    ensures
        ({
            let list = match axes {
                Some(v) => Some(v@),
                None => None,
            };
            let dims = squeezed(d, list, k);
            &&& dims.len() == left(d, axes, k)
            &&& forall|i: int|
                0 <= i < k && !squeezes(d, axes, i) ==> left(d, axes, i as nat) < dims.len()
                    && dims[left(d, axes, i as nat) as int] == #[trigger] d[i]
        }),
    decreases k,
{
    if k > 0 {
        squeezed_leaves(d, axes, (k - 1) as nat);
        let list = match axes {
            Some(v) => Some(v@),
            None => None,
        };
        let i = k - 1;
        if axes is Some {
            assert(names_axis(axes->0@, i) == exists|j: int|
                0 <= j < axes->0@.len() && #[trigger] axes->0@[j] == i);
        }
        let before = squeezed(d, list, (k - 1) as nat);
        let after = squeezed(d, list, k);
        assert forall|q: int| 0 <= q < k && !squeezes(d, axes, q) implies left(d, axes, q as nat)
            < after.len() && after[left(d, axes, q as nat) as int] == #[trigger] d[q] by {
            if q < k - 1 {
                assert(d[q] == before[left(d, axes, q as nat) as int]);
            }
        }
    }
}

/// How many of the axes below `k` are listed.
pub open spec fn listed_below(axes: Seq<u32>, k: nat) -> nat
    decreases k,
{
    if k == 0 {
        0
    } else if axes.contains((k - 1) as u32) && k - 1 <= u32::MAX {
        listed_below(axes, (k - 1) as nat) + 1
    } else {
        listed_below(axes, (k - 1) as nat)
    }
}

/// An unsqueeze gives its result an axis of extent 1 at each place that is listed; the other places
/// hold the extents of the input, in their order.
pub proof fn unsqueeze_follows_axes(
    n: Run,
    m: Map<u32, Tensor>,
    graph: GraphInfo,
    op: Operation,
    promoted: Set<u32>,
    axes: Vec<u32>,
)
    requires
        went_through(n, m, operation_added(n, m, graph, op, promoted)),
        op.kind == (OperationKind::Unsqueeze { axes: Some(Some(axes)) }),
    ensures
        ({
            let d = reported(n, m[op.inputs@[0]]);
            match made(op, operation_added(n, m, graph, op, promoted)) {
                Form::Reshaped(dims, f) => {
                    &&& *f == given(n, m, op, 0)
                    &&& dims.len() == d.len() + axes@.len()
                    &&& forall|i: int|
                        0 <= i < dims.len() ==> #[trigger] dims[i] == if axes@.contains(i as u32)
                            && i <= u32::MAX {
                            1
                        } else {
                            d[i - listed_below(axes@, i as nat)]
                        }
                },
                _ => false,
            }
        }),
{
    unsqueeze_is_added(n, m, graph, op, promoted);
    unsqueeze_means(n, m, op);
    let d = reported(n, m[op.inputs@[0]]);
    unsqueezed_holds(d, axes@, d.len() + axes@.len());
}

proof fn names_is_contains(axes: Seq<u32>, i: int)
    requires
        0 <= i,
    ensures
        names_axis(axes, i) == (axes.contains(i as u32) && i <= u32::MAX),
{
    if names_axis(axes, i) {
        let j = choose|j: int| 0 <= j < axes.len() && #[trigger] axes[j] == i;
        assert(axes[j] == i as u32);
    }
    if axes.contains(i as u32) && i <= u32::MAX {
        let j = choose|j: int| 0 <= j < axes.len() && axes[j] == i as u32;
        assert(axes[j] == i);
    }
}

proof fn unsqueezed_holds(d: Seq<i64>, axes: Seq<u32>, k: nat)
    ensures
        unsqueezed(d, axes, k).len() == k,
        unnamed_axes(axes, k) == k - listed_below(axes, k),
        forall|i: int|
            0 <= i < k ==> #[trigger] unsqueezed(d, axes, k)[i] == if axes.contains(i as u32) && i
                <= u32::MAX {
                1
            } else {
                d[i - listed_below(axes, i as nat)]
            },
    decreases k,
{
    if k > 0 {
        unsqueezed_holds(d, axes, (k - 1) as nat);
        names_is_contains(axes, k - 1);
    }
}

/// A tiling joins its input with itself, axis after axis, as often as the repetitions say.
pub proof fn tile_follows_repetitions(
    n: Run,
    m: Map<u32, Tensor>,
    graph: GraphInfo,
    op: Operation,
    promoted: Set<u32>,
    repetitions: Vec<u32>,
)
    requires
        went_through(n, m, operation_added(n, m, graph, op, promoted)),
        op.kind == (OperationKind::Tile { repetitions }),
    ensures
        made(op, operation_added(n, m, graph, op, promoted)) == tiled(
            given(n, m, op, 0),
            repetitions@,
            repetitions@.len(),
        ),
{
    tile_is_added(n, m, graph, op, promoted);
    tile_means(n, m, op);
}

/// A concatenation joins all its inputs, in their order, along the axis that it is given.
pub proof fn concat_follows_axis(
    n: Run,
    m: Map<u32, Tensor>,
    graph: GraphInfo,
    op: Operation,
    promoted: Set<u32>,
    axis: u32,
)
    requires
        went_through(n, m, operation_added(n, m, graph, op, promoted)),
        op.kind == (OperationKind::Concat { axis }),
        axis < reported(n, m[op.inputs@[0]]).len(),
        axis <= i32::MAX,
    ensures
        made(op, operation_added(n, m, graph, op, promoted)) == Form::Joined(
            axis as i32,
            Seq::new(op.inputs@.len(), |i: int| n.form(m[op.inputs@[i]])),
        ),
{
    concat_is_added(n, m, graph, op, promoted);
    concat_means(n, m, op);
    assert(all_given(n, m, op) =~= Seq::new(
        op.inputs@.len(),
        |i: int| n.form(m[op.inputs@[i]]),
    ));
}

/// Whether a reversal reverses an axis: one of those listed where axes are listed, and else any.
pub open spec fn reverses(options: Option<MLReverseOptions>, i: int) -> bool {
    options is Some && options->0.axes is Some ==> exists|j: int|
        0 <= j < options->0.axes->0@.len() && #[trigger] options->0.axes->0@[j] == i
}

/// A reversal reads the axes that it reverses from the last element backwards, and the others from
/// the first forwards; the sizes stay.
pub proof fn reverse_follows_options(
    n: Run,
    m: Map<u32, Tensor>,
    graph: GraphInfo,
    op: Operation,
    promoted: Set<u32>,
    options: Option<MLReverseOptions>,
)
    requires
        went_through(n, m, operation_added(n, m, graph, op, promoted)),
        op.kind == (OperationKind::Reverse { options }),
        shape(graph, op.inputs@[0]).len() <= u32::MAX,
    ensures
        ({
            let d = shape(graph, op.inputs@[0]);
            match made(op, operation_added(n, m, graph, op, promoted)) {
                Form::Sliced(from, count, step, f) => {
                    &&& *f == given(n, m, op, 0)
                    &&& from.len() == d.len()
                    &&& count.len() == d.len()
                    &&& step.len() == d.len()
                    &&& forall|i: int|
                        0 <= i < d.len() ==> {
                            &&& #[trigger] count[i] == size(d[i])
                            &&& reverses(options, i) ==> step[i] == -1 && from[i] == (size(d[i])
                                - 1) as i64
                            &&& !reverses(options, i) ==> step[i] == 1 && from[i] == 0
                        }
                },
                _ => false,
            }
        }),
{
    reverse_is_added(n, m, graph, op, promoted);
    reverse_means(n, m, graph, op);
    let d = shape(graph, op.inputs@[0]);
    let axes = reverse_axes(op.kind, d.len());
    assert forall|i: int| 0 <= i < d.len() implies axes.contains(i as u32) == reverses(
        options,
        i,
    ) by {
        if options is Some && options->0.axes is Some {
            let list = options->0.axes->0@;
            names_is_contains(list, i);
            assert(names_axis(list, i) == exists|j: int|
                0 <= j < list.len() && #[trigger] list[j] == i);
        } else {
            assert(axes[i] == i as u32);
        }
    }
}

} // verus!
