//! What slices, splits, concatenations, tilings, reversals, transpositions, reshapes and scatterings
//! put where, and along which axes softmaxes, running sums and searches for positions go.

use crate::data_type::DataType;
use crate::graph::{max_sizes, GraphInfo};
use crate::operators::Operation;
use crate::scalar::le4;
use crate::text::decimal;
use crate::trtx::arrange::{
    axis_order, concat_axis, concat_op, concat_place, even_parts, found_inputs, repeats,
    reshape_op, reverse_axes, reverse_op, reverse_starts, reverse_strides, slice_lengths,
    slice_op, slice_plan, split_op, split_part, split_parts, split_plan, squeeze_axes, squeeze_op,
    squeezed, sum_of, tile_axes, tile_axis, tile_counts, tile_op, transpose_op, unsqueeze_list,
    unsqueeze_op, unsqueezed, wanted_shape, distinct_axes, unsqueeze_axes,
};
use crate::trtx::broadcast::{as_dims, int32_to_float32, left_padded, ones, zeros};
use crate::trtx::forms::{
    earlier_is, shaped, all_before, form_is_kept, forms_are_kept, forms_concat, forms_constant, group_forms,
    layer_is_new, layer_is_set, output_is_formed, tell_sets, Form,
};
use crate::trtx::formulas::knows_byte_values;
use crate::trtx::geometry::{forms_slab, given, made, pushed_forms, slab_form};
use crate::trtx::growth::{
    group_grows, grows_arg_reduced, grows_block_axes, grows_block_axis, grows_block_part,
    grows_block_parts, grows_byte_values, grows_extreme_positions, grows_int32_to_float32,
    grows_prepended, grows_slab, grows_split_part, grows_split_parts, grows_step_concat,
    grows_step_constant, grows_step_output, grows_stopped, grows_tile_axes, grows_tile_axis,
    grows_with_axis,
};
use crate::trtx::laws::words::reported;
use crate::trtx::meaning::{all_known, went_on, went_through};
use crate::trtx::pad::{as_signed, copies, slab};
use crate::trtx::quantize::{
    aligned, as_sizes, block_axes, block_axis, block_part, block_parts, broadcasts, byte_values,
    is_byte, prepended, with_axis,
};
use crate::trtx::select::{
    arg_max_op, arg_min_op, arg_plan, arg_reduced, cumulative_sum_op, extreme_positions,
    running_plan, scatter_axis, scatter_elements_op, scatter_nd_op, softmax_axis, softmax_op,
};
use crate::trtx::session::{RequestOf, RequestView, Run};
use crate::trtx::shapes::{moved_axis, swapped_axes};
use crate::trtx::types::{
    CumulativeOperation, Layer, ScatterMode, Tensor, TopKOperation, TrtDataType,
};
use vstd::prelude::*;

verus! {

/// A slice takes the elements of its input from the starts on, as many as the strides leave of the
/// extents. Without starts or extents it is a copy.
pub proof fn slice_means(n: Run, m: Map<u32, Tensor>, op: Operation)
    requires
        went_through(n, m, slice_op(n, m, op)),
    ensures
        ({
            let (starts, extents, strides) = slice_plan(op.kind);
            made(op, slice_op(n, m, op)) == if starts.len() == 0 || extents.len() == 0 {
                given(n, m, op, 0)
            } else {
                Form::Sliced(
                    starts,
                    slice_lengths(extents, strides),
                    strides,
                    Box::new(given(n, m, op, 0)),
                )
            }
        }),
{
    broadcast use {group_grows, group_forms};

}

/// A reversal takes its input backwards along the named axes.
pub proof fn reverse_means(n: Run, m: Map<u32, Tensor>, graph: GraphInfo, op: Operation)
    requires
        went_through(n, m, reverse_op(n, m, graph, op)),
    ensures
        ({
            let sizes = max_sizes(graph.operands@[op.inputs@[0] as int].descriptor.shape@);
            let axes = reverse_axes(op.kind, sizes.len());
            made(op, reverse_op(n, m, graph, op)) == Form::Sliced(
                reverse_starts(sizes, axes),
                as_dims(sizes),
                reverse_strides(sizes.len(), axes),
                Box::new(given(n, m, op, 0)),
            )
        }),
{
    broadcast use {group_grows, group_forms};

}

/// A form with the axes in the order that a transposition of so many axes gives them.
pub open spec fn transposed(op: Operation, f: Form, rank: nat) -> Form {
    Form::Turned(axis_order(op.kind, rank), Box::new(f))
}

/// A transposition puts the axes of its input in the order of the permutation, or else backwards.
pub proof fn transpose_means(n: Run, m: Map<u32, Tensor>, op: Operation)
    requires
        went_through(n, m, transpose_op(n, m, op)),
    ensures
        ({
            let rank = reported(n, m[op.inputs@[0]]).len();
            axis_order(op.kind, rank).len() == rank && made(op, transpose_op(n, m, op))
                == transposed(op, given(n, m, op, 0), rank)
        }),
{
    broadcast use {group_grows, group_forms};

    reveal(Run::dims);

    let d = n.dims(m[op.inputs@[0]], "Transpose: failed to get input dimensions: "@).1;
    assert(made(op, transpose_op(n, m, op)) == transposed(op, given(n, m, op, 0), d.len()));
}

/// A reshape gives the elements of its input the shape that is asked for.
pub proof fn reshape_means(n: Run, m: Map<u32, Tensor>, op: Operation)
    requires
        went_through(n, m, reshape_op(n, m, op)),
    ensures
        made(op, reshape_op(n, m, op)) == Form::Reshaped(
            as_dims(wanted_shape(op.kind)),
            Box::new(given(n, m, op, 0)),
        ),
{
    broadcast use {group_grows, group_forms};

}

/// `count` times the same form, one behind the other along `axis`.
pub open spec fn repeated_along(f: Form, axis: nat, count: u32) -> Form {
    if count <= 1 {
        f
    } else {
        Form::Joined(axis as i32, Seq::new(count as nat, |i: int| f))
    }
}

/// A form after its first `k` axes have been tiled.
pub open spec fn tiled(f: Form, counts: Seq<u32>, k: nat) -> Form
    decreases k,
{
    if k == 0 {
        f
    } else {
        repeated_along(tiled(f, counts, (k - 1) as nat), (k - 1) as nat, counts[k - 1])
    }
}

proof fn forms_tile_axes(n: Run, x: Tensor, counts: Seq<u32>, k: nat)
    requires
        tile_axes(n, x, counts, k).0.goes_on(),
        n.has(x),
    ensures
        ({
            let (after, t) = tile_axes(n, x, counts, k);
            after.has(t) && after.form(t) == tiled(n.form(x), counts, k)
        }),
    decreases k,
{
    broadcast use {group_grows, grows_stopped, went_on, grows_tile_axes, grows_tile_axis};

    if k > 0 {
        let (a, t) = tile_axes(n, x, counts, (k - 1) as nat);
        let count = counts[k - 1];
        assert(tile_axis(a, t, (k - 1) as nat, count).0.goes_on());
        assert(a.goes_on());
        forms_tile_axes(n, x, counts, (k - 1) as nat);
        if count > 1 {
            let list = copies(t, count as i64);
            forms_concat(
                a,
                list,
                (k - 1) as i32,
                "Failed to add concatenation for tile axis "@ + decimal((k - 1) as nat) + ": "@,
                "Failed to get concat output for tile axis "@ + decimal((k - 1) as nat) + ": "@,
            );
            assert(a.forms(list) =~= Seq::new(count as nat, |i: int| a.form(t)));
        }
    }
}

proof fn untiled(f: Form, counts: Seq<u32>, k: nat)
    requires
        !repeats(counts),
        k <= counts.len(),
    ensures
        tiled(f, counts, k) == f,
    decreases k,
{
    if k > 0 {
        untiled(f, counts, (k - 1) as nat);
        assert(!(counts[k - 1] > 1));
    }
}

/// A tiling repeats its input along each axis, one after the other.
pub proof fn tile_means(n: Run, m: Map<u32, Tensor>, op: Operation)
    requires
        went_through(n, m, tile_op(n, m, op)),
    ensures
        ({
            let counts = tile_counts(op.kind);
            made(op, tile_op(n, m, op)) == tiled(given(n, m, op, 0), counts, counts.len())
        }),
{
    broadcast use {group_grows, group_forms, grows_tile_axes};

    let x = m[op.inputs@[0]];
    let counts = tile_counts(op.kind);
    let a = n.dims(x, "Tile: input dimensions: "@).0;
    if repeats(counts) {
        assert(tile_axes(a, x, counts, counts.len()).0.goes_on());
        forms_tile_axes(a, x, counts, counts.len());
    } else {
        untiled(n.form(x), counts, counts.len());
    }
}

/// The forms of the inputs of an operation.
pub open spec fn all_given(n: Run, m: Map<u32, Tensor>, op: Operation) -> Seq<Form> {
    Seq::new(op.inputs@.len(), |i: int| given(n, m, op, i))
}

proof fn inputs_are_found(n: Run, m: Map<u32, Tensor>, ids: Seq<u32>, k: nat)
    requires
        found_inputs(n, m, ids, k).0.halt is None,
        all_known(n, m),
        k <= ids.len(),
    ensures
        ({
            let (after, list) = found_inputs(n, m, ids, k);
            &&& after == n
            &&& n.has_all(list)
            &&& list.len() == k
            &&& forall|i: int| 0 <= i < k ==> #[trigger] list[i] == m[ids[i]]
        }),
    decreases k,
{
    if k > 0 {
        inputs_are_found(n, m, ids, (k - 1) as nat);
        let (after, list) = found_inputs(n, m, ids, k);
        assert(m.contains_key(ids[k - 1]));
        assert forall|i: int| 0 <= i < list.len() implies n.has(#[trigger] list[i]) by {
            if i < k - 1 {
                assert(list[i] == found_inputs(n, m, ids, (k - 1) as nat).1[i]);
            }
        }
    }
}

/// Forms one behind the other along the axis of a concatenation of so many axes.
pub open spec fn concatenated(op: Operation, list: Seq<Form>, rank: nat) -> Form {
    Form::Joined(concat_place(concat_axis(op.kind), rank), list)
}

/// A concatenation puts its inputs one behind the other along its axis.
pub proof fn concat_means(n: Run, m: Map<u32, Tensor>, op: Operation)
    requires
        went_through(n, m, concat_op(n, m, op)),
    ensures
        op.inputs@.len() > 0,
        made(op, concat_op(n, m, op)) == concatenated(
            op,
            all_given(n, m, op),
            reported(n, m[op.inputs@[0]]).len(),
        ),
{
    broadcast use {group_grows, grows_stopped, went_on, grows_step_output};

    let (a, list) = found_inputs(n, m, op.inputs@, op.inputs@.len());
    let request = RequestView::AddConcatenation { inputs: list };
    let (b, l) = a.ask(request, "Failed to add concatenation: "@);
    let (c, d) = b.dims(list[0], "Concat: failed to get input dimensions: "@);
    let axis = concat_place(concat_axis(op.kind), d.len());
    let set = RequestView::SetAxis { layer: Layer { id: l }, axis };
    let e = c.tell(set);
    let (f, t) = e.output(l, "Failed to get layer output: "@);
    assert(f.goes_on());
    assert(e.goes_on());
    assert(c.goes_on());
    assert(b.goes_on());
    inputs_are_found(n, m, op.inputs@, op.inputs@.len());
    layer_is_new(a, request, "Failed to add concatenation: "@);
    reveal(Run::dims);
    assert(c == b);
    tell_sets(c, set, l);
    broadcast use earlier_is;

    reveal(shaped);
    layer_is_set(e, l, "Failed to get layer output: "@);
    forms_are_kept(n, e, list);
    assert forall|i: int| 0 <= i < list.len() implies (#[trigger] list[i]).id
        < e.requests.len() by {
        assert(e.has(list[i]));
    }
    assert(all_before(list, e.requests.len() as usize));
    assert(e.forms(list) =~= all_given(n, m, op));
    let joined = f.form(t);
    assert(joined->Joined_1 =~= e.forms(list));
    assert(made(op, concat_op(n, m, op)) == concatenated(op, all_given(n, m, op), d.len()));
    assert(list[0] == m[op.inputs@[0]]);
    assert(n.replies == b.replies) by {
        reveal(Run::grows);
    }
}

/// The axis and the sizes of the parts of a split of an input of the dimensions `d`.
pub open spec fn split_cut(op: Operation, d: Seq<i64>) -> (nat, Seq<i32>) {
    let (splits, given) = split_plan(op.kind)->0;
    let axis = moved_axis(given as i32 as int, d.len()) as nat;
    (
        axis,
        if splits.len() == 0 {
            even_parts(d[axis as int] as i32, op.outputs@.len())
        } else {
            as_signed(splits)
        },
    )
}

/// Part `k` of a form of the dimensions `d`: as much of it along the axis as the sizes say, from
/// where the parts before it end.
pub open spec fn split_piece(f: Form, d: Seq<i64>, axis: nat, sizes: Seq<i32>, k: int) -> Form {
    Form::Sliced(
        zeros(d.len()).update(axis as int, sum_of(sizes, k as nat) as i64),
        d.update(axis as int, sizes[k] as i64),
        ones(d.len()),
        Box::new(f),
    )
}

/// Whether the outputs of an operation are operands of their own.
pub open spec fn has_own_outputs(op: Operation) -> bool {
    &&& op.outputs@.no_duplicates()
    &&& !op.outputs@.contains(op.inputs@[0])
}

proof fn forms_split_parts(
    n: Run,
    m: Map<u32, Tensor>,
    op: Operation,
    d: Seq<i64>,
    axis: nat,
    sizes: Seq<i32>,
    k: nat,
)
    requires
        split_parts(n, m, op, d, axis, sizes, k).0.goes_on(),
        m.contains_key(op.inputs@[0]),
        n.has(m[op.inputs@[0]]),
        has_own_outputs(op),
        k <= op.outputs@.len(),
    ensures
        ({
            let (after, tensors) = split_parts(n, m, op, d, axis, sizes, k);
            let id = op.inputs@[0];
            &&& tensors.contains_key(id)
            &&& tensors[id] == m[id]
            &&& forall|j: int|
                0 <= j < k ==> after.has(tensors[#[trigger] op.outputs@[j]]) && after.form(
                    tensors[op.outputs@[j]],
                ) == split_piece(n.form(m[id]), d, axis, sizes, j)
        }),
    decreases k,
{
    broadcast use {group_grows, group_forms, grows_split_parts, grows_split_part};

    if k > 0 {
        let id = op.inputs@[0];
        let last = (k - 1) as nat;
        let (a, tensors) = split_parts(n, m, op, d, axis, sizes, last);
        let (b, more) = split_part(a, tensors, op, d, axis, sizes, last);
        assert(b.goes_on());
        assert(a.goes_on());
        forms_split_parts(n, m, op, d, axis, sizes, last);
        form_is_kept(n, a, m[id]);
        assert(op.outputs@.contains(op.outputs@[last as int]));
        assert forall|j: int| 0 <= j < k implies b.has(more[#[trigger] op.outputs@[j]]) && b.form(
            more[op.outputs@[j]],
        ) == split_piece(n.form(m[id]), d, axis, sizes, j) by {
            if j < last {
                assert(op.outputs@[j] != op.outputs@[last as int]);
                form_is_kept(a, b, tensors[op.outputs@[j]]);
            }
        }
    }
}

/// Whether the outputs of a split are the parts of `f`, where it has the dimensions `d`.
pub open spec fn is_split(
    op: Operation,
    step: (Run, Map<u32, Tensor>),
    f: Form,
    d: Seq<i64>,
) -> bool {
    let (axis, sizes) = split_cut(op, d);
    &&& sizes.len() == op.outputs@.len()
    &&& forall|k: int|
        0 <= k < op.outputs@.len() ==> step.0.form(step.1[#[trigger] op.outputs@[k]])
            == split_piece(f, d, axis, sizes, k)
}

/// The outputs of a split are the parts of its input along one axis, one behind the other, of the
/// sizes that are given or else of even ones. The outputs are operands of their own.
pub proof fn split_means(n: Run, m: Map<u32, Tensor>, op: Operation)
    requires
        went_through(n, m, split_op(n, m, op)),
        has_own_outputs(op),
    ensures
        split_plan(op.kind) is Some,
        is_split(
            op,
            split_op(n, m, op),
            given(n, m, op, 0),
            reported(n, m[op.inputs@[0]]),
        ),
{
    broadcast use {group_grows, grows_stopped, went_on, grows_split_parts};

    let x = m[op.inputs@[0]];
    let (a, d) = n.dims(x, "Failed to get input shape: "@);
    let (axis, sizes) = split_cut(op, d);
    reveal(Run::dims);
    assert(m.contains_key(op.inputs@[0]));
    assert(split_op(n, m, op) == split_parts(n, m, op, d, axis, sizes, sizes.len()));
    forms_split_parts(n, m, op, d, axis, sizes, sizes.len());
    assert(is_split(op, split_op(n, m, op), given(n, m, op, 0), d));
}

/// The elements of a form under other dimensions.
pub open spec fn reshaped(f: Form, dims: Seq<i64>) -> Form {
    Form::Reshaped(dims, Box::new(f))
}

/// A squeeze leaves out the named dimensions of its input, or else all that are 1.
pub proof fn squeeze_means(n: Run, m: Map<u32, Tensor>, op: Operation)
    requires
        went_through(n, m, squeeze_op(n, m, op)),
    ensures
        ({
            let d = reported(n, m[op.inputs@[0]]);
            made(op, squeeze_op(n, m, op)) == reshaped(
                given(n, m, op, 0),
                squeezed(d, squeeze_axes(op.kind), d.len()),
            )
        }),
{
    broadcast use {group_grows, group_forms};

    reveal(Run::dims);

    let d = n.dims(m[op.inputs@[0]], "Failed to get input dimensions for squeeze: "@).1;
    assert(made(op, squeeze_op(n, m, op)) == reshaped(
        given(n, m, op, 0),
        squeezed(d, squeeze_axes(op.kind), d.len()),
    ));
}

/// An unsqueeze puts dimensions of 1 at the named axes of the result.
pub proof fn unsqueeze_means(n: Run, m: Map<u32, Tensor>, op: Operation)
    requires
        went_through(n, m, unsqueeze_op(n, m, op)),
    ensures
        ({
            let axes = unsqueeze_list(op.kind);
            let d = reported(n, m[op.inputs@[0]]);
            &&& unsqueeze_axes(op.kind) == (true, true)
            &&& distinct_axes(axes, d.len() + axes.len())
            &&& made(op, unsqueeze_op(n, m, op)) == reshaped(
                given(n, m, op, 0),
                unsqueezed(d, axes, d.len() + axes.len()),
            )
        }),
{
    broadcast use {group_grows, group_forms};

    reveal(Run::dims);

    let axes = unsqueeze_list(op.kind);
    let d = n.dims(m[op.inputs@[0]], "Failed to get input dimensions for unsqueeze: "@).1;
    assert(made(op, unsqueeze_op(n, m, op)) == reshaped(
        given(n, m, op, 0),
        unsqueezed(d, axes, d.len() + axes.len()),
    ));
}

/// A softmax is taken along the axis that is named.
pub proof fn softmax_means(n: Run, m: Map<u32, Tensor>, op: Operation)
    requires
        went_through(n, m, softmax_op(n, m, op)),
    ensures
        softmax_axis(op.kind) < 32,
        made(op, softmax_op(n, m, op)) == Form::Softmax(
            1u32 << softmax_axis(op.kind),
            Box::new(given(n, m, op, 0)),
        ),
{
    broadcast use {group_grows, grows_stopped, went_on, grows_step_output};

    reveal(Run::layer);
    let x = m[op.inputs@[0]];
    let request = RequestView::AddSoftmax { input: x, axes: 1u32 << softmax_axis(op.kind) };
    let (a, l) = n.ask(request, "Failed to add softmax: "@);
    assert(a.output(l, "Failed to get layer output: "@).0.goes_on());
    assert(a.goes_on());
    layer_is_new(n, request, "Failed to add softmax: "@);
    broadcast use earlier_is;

    reveal(shaped);
    layer_is_set(a, l, "Failed to get layer output: "@);
    form_is_kept(n, a, x);
}

/// A running sum runs along the axis that is named, with or without the element itself and from
/// either end, as the options say.
pub proof fn cumulative_sum_means(n: Run, m: Map<u32, Tensor>, graph: GraphInfo, op: Operation)
    requires
        went_through(n, m, cumulative_sum_op(n, m, graph, op)),
    ensures
        ({
            let (axis, exclusive, reverse) = running_plan(op.kind);
            made(op, cumulative_sum_op(n, m, graph, op)) == Form::RunningSum(
                exclusive,
                reverse,
                Box::new(Form::Constant(zeros(0), le4(axis), TrtDataType::kINT32)),
                Box::new(given(n, m, op, 0)),
            )
        }),
{
    broadcast use {
        group_grows, grows_stopped, went_on, grows_step_output, grows_step_constant,
        forms_constant,
    };

    reveal(Run::layer);
    let x = m[op.inputs@[0]];
    let (axis, exclusive, reverse) = running_plan(op.kind);
    let (a, at) = n.constant(
        zeros(0),
        le4(axis),
        TrtDataType::kINT32,
        "Failed to create axis constant: "@,
        "Failed to get axis constant output: "@,
    );
    let request = RequestView::AddCumulative {
        input: x,
        axis: at,
        op: CumulativeOperation::kSUM,
        exclusive,
        reverse,
    };
    let (b, l) = a.ask(request, "Failed to add cumulative sum layer: "@);
    assert(b.output(l, "Failed to get cumulative sum output: "@).0.goes_on());
    assert(b.goes_on());
    assert(a.goes_on());
    layer_is_new(a, request, "Failed to add cumulative sum layer: "@);
    broadcast use earlier_is;

    reveal(shaped);
    layer_is_set(b, l, "Failed to get cumulative sum output: "@);
    form_is_kept(n, b, x);
    form_is_kept(a, b, at);
}

/// The inputs of a scattering put together.
pub open spec fn scattered(
    n: Run,
    m: Map<u32, Tensor>,
    op: Operation,
    mode: ScatterMode,
    axis: Option<i32>,
) -> Form {
    Form::Scattered(
        mode,
        axis,
        Box::new(given(n, m, op, 0)),
        Box::new(given(n, m, op, 1)),
        Box::new(given(n, m, op, 2)),
    )
}

/// A scattering by index tuples replaces the elements at the places that its second input names by
/// those of its third.
pub proof fn scatter_nd_means(n: Run, m: Map<u32, Tensor>, op: Operation)
    requires
        went_through(n, m, scatter_nd_op(n, m, op)),
    ensures
        made(op, scatter_nd_op(n, m, op)) == scattered(n, m, op, ScatterMode::kND, None),
{
    broadcast use {group_grows, grows_stopped, went_on, grows_step_output};

    reveal(Run::layer);
    let request = RequestView::AddScatter {
        data: m[op.inputs@[0]],
        indices: m[op.inputs@[1]],
        updates: m[op.inputs@[2]],
        mode: ScatterMode::kND,
    };
    let (a, l) = n.ask(request, "Failed to add scatterND layer: "@);
    assert(a.output(l, "Failed to get scatterND output: "@).0.goes_on());
    assert(a.goes_on());
    layer_is_new(n, request, "Failed to add scatterND layer: "@);
    broadcast use earlier_is;

    reveal(shaped);
    layer_is_set(a, l, "Failed to get scatterND output: "@);
    form_is_kept(n, a, m[op.inputs@[0]]);
    form_is_kept(n, a, m[op.inputs@[1]]);
    form_is_kept(n, a, m[op.inputs@[2]]);
}

/// A scattering element by element replaces the elements at the places that its second input names
/// along the axis of the options, 0 where there are none, by those of its third.
pub proof fn scatter_elements_means(n: Run, m: Map<u32, Tensor>, op: Operation)
    requires
        went_through(n, m, scatter_elements_op(n, m, op)),
    ensures
        made(op, scatter_elements_op(n, m, op)) == scattered(
            n,
            m,
            op,
            ScatterMode::kELEMENT,
            Some(scatter_axis(op.kind)),
        ),
{
    broadcast use {group_grows, grows_stopped, went_on, grows_step_output};

    let request = RequestView::AddScatter {
        data: m[op.inputs@[0]],
        indices: m[op.inputs@[1]],
        updates: m[op.inputs@[2]],
        mode: ScatterMode::kELEMENT,
    };
    let (a, l) = n.ask(request, "Failed to add scatterElements layer: "@);
    let set = RequestView::SetAxis { layer: Layer { id: l }, axis: scatter_axis(op.kind) };
    let b = a.tell(set);
    assert(b.output(l, "Failed to get scatterElements output: "@).0.goes_on());
    assert(b.goes_on());
    assert(a.goes_on());
    layer_is_new(n, request, "Failed to add scatterElements layer: "@);
    tell_sets(a, set, l);
    broadcast use earlier_is;

    reveal(shaped);
    layer_is_set(b, l, "Failed to get scatterElements output: "@);
    form_is_kept(n, b, m[op.inputs@[0]]);
    form_is_kept(n, b, m[op.inputs@[1]]);
    form_is_kept(n, b, m[op.inputs@[2]]);
}

proof fn forms_extreme_positions(
    n: Run,
    x: Tensor,
    op: TopKOperation,
    axes: u32,
    label: Seq<char>,
)
    requires
        extreme_positions(n, x, op, axes, label).0.goes_on(),
        n.has(x),
    ensures
        ({
            let (after, t) = extreme_positions(n, x, op, axes, label);
            after.has(t) && after.form(t) == Form::Extremes(op, axes, Box::new(n.form(x)))
        }),
{
    broadcast use {group_grows, grows_stopped, went_on};

    reveal(extreme_positions);
    let request = RequestView::AddTopK { input: x, op, k: 1, axes };
    let (a, l) = n.ask(request, label + ": topK layer: "@);
    assert(a.goes_on());
    layer_is_new(n, request, label + ": topK layer: "@);
    broadcast use earlier_is;

    reveal(shaped);
    output_is_formed(a, l, 1, label + ": topK indices output: "@);
    form_is_kept(n, a, x);
}

/// The positions of the extreme elements of a form of these sizes along one axis. A list becomes a
/// column first; an axis that TensorRT does not look along changes places with the last one, and
/// back.
pub open spec fn extremes(f: Form, sizes: Seq<u32>, axis: u32, op: TopKOperation) -> Form {
    let rank = sizes.len();
    if rank == 1 {
        Form::Extremes(op, 1, Box::new(reshaped(f, seq![sizes[0] as i64, 1i64])))
    } else if rank >= 5 && axis < rank - 4 {
        let order = swapped_axes(rank, axis as int, rank - 1);
        Form::Turned(
            order,
            Box::new(
                Form::Extremes(
                    op,
                    1u32 << ((rank - 1) as u32),
                    Box::new(Form::Turned(order, Box::new(f))),
                ),
            ),
        )
    } else {
        Form::Extremes(op, 1u32 << axis, Box::new(f))
    }
}

proof fn forms_arg_reduced(
    n: Run,
    graph: GraphInfo,
    id: u32,
    x: Tensor,
    axis: u32,
    keep_dims: bool,
    op: TopKOperation,
    label: Seq<char>,
)
    requires
        arg_reduced(n, graph, id, x, axis, keep_dims, op, label).0.goes_on(),
        n.has(x),
    ensures
        ({
            let (after, t) = arg_reduced(n, graph, id, x, axis, keep_dims, op, label);
            let sizes = max_sizes(graph.operands@[id as int].descriptor.shape@);
            let shape = n.infer(
                RequestOf::InferArgReduceShape { shape: as_dims(sizes), axis, keep_dims },
            ).1;
            &&& axis < sizes.len() <= 8
            &&& after.has(t)
            &&& after.form(t) == reshaped(extremes(n.form(x), sizes, axis, op), shape)
        }),
{
    broadcast use {group_grows, group_forms, grows_extreme_positions};

    reveal(arg_reduced);
    let sizes = max_sizes(graph.operands@[id as int].descriptor.shape@);
    let rank = sizes.len();
    let (a, shape) = n.infer(
        RequestOf::InferArgReduceShape { shape: as_dims(sizes), axis, keep_dims },
    );
    assert(a.goes_on());
    form_is_kept(n, a, x);
    if rank == 1 {
        let (b, t) = a.reshape(
            x,
            seq![sizes[0] as i64, 1i64],
            label + ": unsqueeze 1D input for TopK: "@,
            label + ": set [N,1] reshape: "@,
            label + ": rank-2 TopK input: "@,
        );
        assert(extreme_positions(b, t, op, 1, label).0.goes_on());
        assert(b.goes_on());
        assert(b.has(t));
        forms_extreme_positions(b, t, op, 1, label);
    } else if rank >= 5 && axis < rank - 4 {
        let order = swapped_axes(rank, axis as int, rank - 1);
        let (b, t) = a.transpose(
            x,
            order,
            label + ": pre-transpose shuffle for TopK: "@,
            label + ": set pre-transpose: "@,
            label + ": pre-shuffle output: "@,
        );
        let axes = 1u32 << ((rank - 1) as u32);
        assert(extreme_positions(b, t, op, axes, label).0.goes_on());
        assert(b.goes_on());
        assert(b.has(t));
        forms_extreme_positions(b, t, op, axes, label);
    } else {
        assert(extreme_positions(a, x, op, 1u32 << axis, label).0.goes_on());
        forms_extreme_positions(a, x, op, 1u32 << axis, label);
    }
}

/// What a search for the greatest or the least elements of an input along an axis makes of it: their
/// positions, in the shape of the reduction, as `f32` values.
pub open spec fn positions_found(
    n: Run,
    graph: GraphInfo,
    op: Operation,
    f: Form,
    what: TopKOperation,
) -> Form {
    let (axis, keep_dims) = arg_plan(op.kind);
    let sizes = max_sizes(graph.operands@[op.inputs@[0] as int].descriptor.shape@);
    let shape = n.infer(
        RequestOf::InferArgReduceShape { shape: as_dims(sizes), axis, keep_dims },
    ).1;
    Form::Cast(TrtDataType::kFLOAT, Box::new(reshaped(extremes(f, sizes, axis, what), shape)))
}

/// An arg-max gives the positions of the greatest elements along its axis.
pub proof fn arg_max_means(n: Run, m: Map<u32, Tensor>, graph: GraphInfo, op: Operation)
    requires
        went_through(n, m, arg_max_op(n, m, graph, op)),
    ensures
        made(op, arg_max_op(n, m, graph, op)) == positions_found(
            n,
            graph,
            op,
            given(n, m, op, 0),
            TopKOperation::kMAX,
        ),
{
    broadcast use {group_grows, group_forms, grows_arg_reduced, grows_int32_to_float32};

    let x = m[op.inputs@[0]];
    let (axis, keep_dims) = arg_plan(op.kind);
    let what = TopKOperation::kMAX;
    let (a, t) = arg_reduced(n, graph, op.inputs@[0], x, axis, keep_dims, what, "ArgMax"@);
    assert(a.goes_on());
    forms_arg_reduced(n, graph, op.inputs@[0], x, axis, keep_dims, what, "ArgMax"@);
    reveal(int32_to_float32);
}

/// An arg-min gives the positions of the least elements along its axis.
pub proof fn arg_min_means(n: Run, m: Map<u32, Tensor>, graph: GraphInfo, op: Operation)
    requires
        went_through(n, m, arg_min_op(n, m, graph, op)),
    ensures
        made(op, arg_min_op(n, m, graph, op)) == positions_found(
            n,
            graph,
            op,
            given(n, m, op, 0),
            TopKOperation::kMIN,
        ),
{
    broadcast use {group_grows, group_forms, grows_arg_reduced, grows_int32_to_float32};

    let x = m[op.inputs@[0]];
    let (axis, keep_dims) = arg_plan(op.kind);
    let what = TopKOperation::kMIN;
    let (a, t) = arg_reduced(n, graph, op.inputs@[0], x, axis, keep_dims, what, "ArgMin"@);
    assert(a.goes_on());
    forms_arg_reduced(n, graph, op.inputs@[0], x, axis, keep_dims, what, "ArgMin"@);
    reveal(int32_to_float32);
}

/// Slab `k` of a form of the dimensions `d` along `axis`, `times` times in a row.
pub open spec fn block(f: Form, d: Seq<i64>, axis: nat, k: int, times: i64) -> Form {
    Form::Joined(axis as i32, Seq::new(times as nat, |i: int| slab_form(f, d, axis, k as i64)))
}

/// The first `k` slabs of a form along `axis`, each `times` times in a row.
pub open spec fn blocks(f: Form, d: Seq<i64>, axis: nat, k: nat, times: i64) -> Seq<Form> {
    Seq::new(k, |i: int| block(f, d, axis, i, times))
}

/// How often each slab is taken along an axis of the extent `own` for the extent `target`.
pub open spec fn times_taken(own: i64, target: u32) -> i64 {
    (target as int / own as int) as i64
}

/// A form of the dimensions `d` stretched along `axis` to the extent `target`: each slab as often in
/// a row as it takes. It stays as it is where it has the extent, or where nothing is left of it.
pub open spec fn stretched_along(f: Form, d: Seq<i64>, axis: nat, target: u32) -> Form {
    let own = d[axis as int];
    if own == target || times_taken(own, target) <= 1 {
        f
    } else {
        Form::Joined(axis as i32, blocks(f, d, axis, own as nat, times_taken(own, target)))
    }
}

/// Whether the extent `own` of a form along an axis can be stretched to `target`: it is as long, or
/// its slabs fill it in equal blocks.
pub open spec fn can_stretch(own: i64, target: u32) -> bool {
    own == target || (own > 0 && target as int % own as int == 0)
}

/// Where a parameter that holds one value per block is stretched to the extent of its input, place
/// `j` along the axis reads the value of the block that `j` lies in: slab `j / times`, where each
/// block is `times` long. The blocks fill the extent.
pub proof fn blocks_stay_together(f: Form, d: Seq<i64>, axis: nat, target: u32, j: int)
    requires
        axis < d.len(),
        d[axis as int] != target,
        can_stretch(d[axis as int], target),
        0 <= j < target,
    ensures
        ({
            let times = times_taken(d[axis as int], target);
            let parts = stretched_along(f, d, axis, target)->Joined_1;
            &&& times > 1
            &&& d[axis as int] * times == target
            &&& parts.len() == d[axis as int]
            &&& 0 <= j / (times as int) < parts.len()
            &&& parts[j / times as int]->Joined_1.len() == times
            &&& parts[j / times as int]->Joined_1[j % times as int] == slab_form(
                f,
                d,
                axis,
                (j / times as int) as i64,
            )
        }),
{
    let own = d[axis as int] as int;
    let t = target as int;
    vstd::arithmetic::div_mod::lemma_fundamental_div_mod(t, own);
    let q = t / own;
    assert(own * q == t);
    assert(q >= 0) by (nonlinear_arith)
        requires
            own * q == t,
            own > 0,
            t > 0,
    ;
    assert(q > 1) by (nonlinear_arith)
        requires
            own * q == t,
            own > 0,
            t > 0,
            own != t,
    ;
    assert(q <= t) by (nonlinear_arith)
        requires
            own * q == t,
            own > 0,
            q > 1,
    ;
    let times = times_taken(d[axis as int], target);
    assert(times == q);
    vstd::arithmetic::div_mod::lemma_fundamental_div_mod(j, q);
    assert(0 <= j % q < q);
    let k = j / q;
    assert(0 <= k < own) by (nonlinear_arith)
        requires
            j == q * k + j % q,
            0 <= j < own * q,
            0 <= j % q < q,
            q > 1,
    ;
    let parts = stretched_along(f, d, axis, target)->Joined_1;
    assert(parts[k] == block(f, d, axis, k, times));
}

proof fn forms_block_part(
    n: Run,
    x: Tensor,
    d: Seq<i64>,
    axis: nat,
    k: nat,
    times: i64,
    label: Seq<char>,
)
    requires
        block_part(n, x, d, axis, k, times, label).0.goes_on(),
        n.has(x),
        times > 0,
    ensures
        ({
            let (after, t) = block_part(n, x, d, axis, k, times, label);
            after.has(t) && after.form(t) == block(n.form(x), d, axis, k as int, times)
        }),
{
    broadcast use {group_grows, grows_stopped, went_on, grows_slab, grows_step_concat, forms_slab};

    reveal(block_part);
    let place = " ax="@ + decimal(axis) + " k="@ + decimal(k) + ": "@;
    let (a, t) = slab(
        n,
        x,
        d,
        axis,
        k as i64,
        label + ": block tile slice"@ + place,
        label + ": block tile slice output"@ + place,
    );
    let list = copies(t, times);
    assert(a.goes_on());
    forms_concat(
        a,
        list,
        axis as i32,
        label + ": block tile dup concat"@ + place,
        label + ": block tile dup out"@ + place,
    );
    assert(a.forms(list) =~= Seq::new(
        times as nat,
        |i: int| slab_form(n.form(x), d, axis, k as i64),
    ));
}

proof fn forms_block_parts(
    n: Run,
    x: Tensor,
    d: Seq<i64>,
    axis: nat,
    k: nat,
    times: i64,
    label: Seq<char>,
)
    requires
        block_parts(n, x, d, axis, k, times, label).0.goes_on(),
        n.has(x),
        times > 0,
    ensures
        ({
            let (after, list) = block_parts(n, x, d, axis, k, times, label);
            after.has_all(list) && after.forms(list) == blocks(n.form(x), d, axis, k, times)
        }),
    decreases k,
{
    broadcast use {group_grows, grows_stopped, went_on, grows_block_part, grows_block_parts};

    if k > 0 {
        let last = (k - 1) as nat;
        let (a, list) = block_parts(n, x, d, axis, last, times, label);
        let (b, t) = block_part(a, x, d, axis, last, times, label);
        assert(b.goes_on());
        assert(a.goes_on());
        forms_block_parts(n, x, d, axis, last, times, label);
        form_is_kept(n, a, x);
        forms_block_part(a, x, d, axis, last, times, label);
        pushed_forms(a, b, list, t);
        assert(blocks(n.form(x), d, axis, k, times) =~= blocks(
            n.form(x),
            d,
            axis,
            last,
            times,
        ).push(block(n.form(x), d, axis, last as int, times)));
    } else {
        assert(n.forms(seq![]) =~= blocks(n.form(x), d, axis, 0, times));
    }
}

/// Whether `to` is `from` stretched along `axis` to the extent `target`, of whatever dimensions it
/// has.
pub open spec fn is_stretched_along(from: Form, to: Form, axis: nat, target: u32) -> bool {
    exists|d: Seq<i64>|
        axis < d.len() && can_stretch(d[axis as int], target) && to == #[trigger] stretched_along(
            from,
            d,
            axis,
            target,
        )
}

proof fn forms_block_axis(n: Run, t: Tensor, axis: nat, target: u32, label: Seq<char>)
    requires
        block_axis(n, t, axis, target, label).0.goes_on(),
        n.has(t),
    ensures
        ({
            let (after, r) = block_axis(n, t, axis, target, label);
            after.has(r) && is_stretched_along(n.form(t), after.form(r), axis, target)
        }),
{
    broadcast use {group_grows, grows_stopped, went_on, grows_block_parts, grows_step_concat};

    reveal(block_axis);
    let (a, d) = n.dims(t, label + ": block tile cur dimensions: "@);
    let own = d[axis as int];
    let (after, r) = block_axis(n, t, axis, target, label);
    assert(a.goes_on());
    form_is_kept(n, a, t);
    assert(axis < d.len() && can_stretch(own, target));
    if own != target && times_taken(own, target) > 1 {
        let times = times_taken(own, target);
        let (b, parts) = block_parts(a, t, d, axis, own as nat, times, label);
        assert(b.goes_on());
        forms_block_parts(a, t, d, axis, own as nat, times, label);
        forms_concat(
            b,
            parts,
            axis as i32,
            label + ": block tile merge concat ax="@ + decimal(axis) + ": "@,
            label + ": block tile merge out ax="@ + decimal(axis) + ": "@,
        );
    }
    assert(after.form(r) == stretched_along(n.form(t), d, axis, target));
}

/// Whether the form at `i + 1` is the one at `i` stretched along the axis `i`.
pub open spec fn stretched_step(steps: Seq<Form>, sizes: Seq<u32>, i: int) -> bool {
    is_stretched_along(steps[i], steps[i + 1], i as nat, sizes[i])
}

/// Whether each form is the one before it stretched along the next of the first `k` axes.
pub open spec fn stretched_through(steps: Seq<Form>, sizes: Seq<u32>, k: nat) -> bool {
    &&& steps.len() == k + 1
    &&& forall|i: int| 0 <= i < k ==> #[trigger] stretched_step(steps, sizes, i)
}

/// Whether `to` is `from` stretched along the first `k` axes to these sizes, one after the other.
pub open spec fn is_stretched(from: Form, to: Form, sizes: Seq<u32>, k: nat) -> bool {
    exists|steps: Seq<Form>| #[trigger]
        stretched_through(steps, sizes, k) && steps.first() == from && steps.last() == to
}

/// Blocks are stretched axis after axis, each slab as often in a row as the size along the axis
/// takes.
pub proof fn block_axes_mean(n: Run, t: Tensor, sizes: Seq<u32>, k: nat, label: Seq<char>)
    requires
        block_axes(n, t, sizes, k, label).0.goes_on(),
        n.has(t),
    ensures
        ({
            let (after, r) = block_axes(n, t, sizes, k, label);
            after.has(r) && is_stretched(n.form(t), after.form(r), sizes, k)
        }),
    decreases k,
{
    broadcast use {group_grows, grows_stopped, went_on, grows_block_axis, grows_block_axes};

    if k > 0 {
        let axis = (k - 1) as nat;
        let (a, u) = block_axes(n, t, sizes, axis, label);
        let (b, r) = block_axis(a, u, axis, sizes[k - 1], label);
        assert(b.goes_on());
        assert(a.goes_on());
        block_axes_mean(n, t, sizes, axis, label);
        forms_block_axis(a, u, axis, sizes[k - 1], label);
        let steps = choose|steps: Seq<Form>| #[trigger]
            stretched_through(steps, sizes, axis) && steps.first() == n.form(t) && steps.last()
                == a.form(u);
        let more = steps.push(b.form(r));
        assert forall|i: int| 0 <= i < k implies #[trigger] stretched_step(more, sizes, i) by {
            if i < axis {
                assert(stretched_step(steps, sizes, i));
            }
        }
        assert(stretched_through(more, sizes, k));
    } else {
        assert(stretched_through(seq![n.form(t)], sizes, 0));
    }
}

/// Whether `to` is `from`, perhaps under other dimensions.
pub open spec fn is_reshaped(from: Form, to: Form) -> bool {
    to == from || exists|dims: Seq<i64>| to == #[trigger] reshaped(from, dims)
}

pub(crate) proof fn forms_with_axis(n: Run, t: Tensor, label: Seq<char>)
    requires
        with_axis(n, t, label).0.goes_on(),
        n.has(t),
    ensures
        ({
            let (after, r) = with_axis(n, t, label);
            after.has(r) && is_reshaped(n.form(t), after.form(r))
        }),
{
    broadcast use {group_grows, group_forms};

    reveal(with_axis);
    let (after, r) = with_axis(n, t, label);
    assert(after.form(r) == n.form(t) || after.form(r) == reshaped(n.form(t), ones(1)));
}

proof fn forms_prepended(n: Run, t: Tensor, rank: nat, label: Seq<char>)
    requires
        prepended(n, t, rank, label).0.goes_on(),
        n.has(t),
    ensures
        ({
            let (after, r) = prepended(n, t, rank, label);
            after.has(r) && is_reshaped(n.form(t), after.form(r))
        }),
{
    broadcast use {group_grows, group_forms};

    reveal(prepended);
    let d = n.dims(t, label + ": prepend dimensions: "@).1;
    let (after, r) = prepended(n, t, rank, label);
    assert(after.form(r) == n.form(t) || after.form(r) == reshaped(
        n.form(t),
        left_padded(d, rank),
    ));
}

/// The values of a parameter of a quantization: those of its bytes where it holds bytes that are to
/// be numbers, else its own.
pub open spec fn parameter_values(
    n: Run,
    t: Tensor,
    label: Seq<char>,
    as_float: Option<TrtDataType>,
    source: DataType,
) -> (Run, Tensor) {
    if as_float is Some && is_byte(n.dtype(t)) {
        byte_values(n, t, as_float->0, label, source)
    } else {
        (n, t)
    }
}

/// Whether `to` is `from` under the rank of an input of these sizes, as it is or stretched to them.
pub open spec fn is_aligned(from: Form, to: Form, sizes: Seq<u32>) -> bool {
    exists|flat: Form, ranked: Form|
        #![trigger is_reshaped(from, flat), is_reshaped(flat, ranked)]
        is_reshaped(from, flat) && is_reshaped(flat, ranked) && (to == ranked || is_stretched(
            ranked,
            to,
            sizes,
            sizes.len(),
        ))
}

/// A scale or a zero point is brought to the rank of its input and, where it holds one value per
/// block, stretched to the sizes of the input, each block in place.
pub proof fn aligned_means(
    n: Run,
    t: Tensor,
    sizes: Seq<u32>,
    label: Seq<char>,
    as_float: Option<TrtDataType>,
    source: DataType,
)
    requires
        aligned(n, t, sizes, label, as_float, source).0.goes_on(),
        n.has(t),
    ensures
        ({
            let (after, r) = aligned(n, t, sizes, label, as_float, source);
            let (a, v) = parameter_values(n, t, label, as_float, source);
            after.has(r) && is_aligned(a.form(v), after.form(r), sizes)
        }),
{
    broadcast use {
        group_grows, grows_stopped, went_on, grows_byte_values, grows_with_axis, grows_prepended,
        grows_block_axes,
    };

    reveal(aligned);
    let (a, v) = parameter_values(n, t, label, as_float, source);
    let (b, flat) = with_axis(a, v, label);
    assert(b.goes_on());
    assert(a.goes_on());
    assert(a.has(v)) by {
        if as_float is Some && is_byte(n.dtype(t)) {
            knows_byte_values(n, t, as_float->0, label, source);
        }
    }
    forms_with_axis(a, v, label);
    let (after, r) = aligned(n, t, sizes, label, as_float, source);
    if sizes.len() == 0 {
        assert(is_reshaped(b.form(flat), b.form(flat)));
    } else {
        let (c, ranked) = prepended(b, flat, sizes.len(), label);
        let (e, d) = c.dims(ranked, label + ": aligned param dimensions: "@);
        assert(e.goes_on());
        assert(c.goes_on());
        forms_prepended(b, flat, sizes.len(), label);
        form_is_kept(c, e, ranked);
        let own = as_sizes(d);
        if !(own == sizes || broadcasts(own, sizes)) {
            assert(block_axes(e, ranked, sizes, sizes.len(), label).0.goes_on());
            block_axes_mean(e, ranked, sizes, sizes.len(), label);
        }
        assert(is_reshaped(b.form(flat), c.form(ranked)));
    }
}

} // verus!
