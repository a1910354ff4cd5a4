//! Operations that choose elements, and those that run along an axis.

use crate::data_type::DataType;
use crate::graph::{Dimension, GraphInfo};
use crate::operator_options::{
    MLArgMinMaxOptions, MLClampOptions, MLCumulativeSumOptions, MLGatherOptions, MLNumber,
    MLScatterOptions, MLTriangularOptions,
};
use crate::operators::{Operation, OperationKind};
use crate::scalar::{le4, repeated, Scalar};
use crate::trtx::broadcast::as_dims;
use crate::trtx::forms::{
    constant_stays, earlier_is, form_is_kept, forms_constant_output, group_forms, is_constant,
    layer_is_new, layer_is_set, shaped, tell_sets, Form,
};
use crate::trtx::formulas::{clamp_means, triangular_means, where_means};
use crate::trtx::geometry::{given, made};
use crate::trtx::growth::{
    group_grows, grows_elements, grows_gather_elements_indices, grows_gather_indices,
    grows_gather_nd_indices, grows_step_add_constant, grows_step_layer, grows_step_output,
    grows_stopped,
};
use crate::trtx::laws::kinds;
use crate::trtx::laws::elementwise::{is_byte_operand, one, zero};
use crate::trtx::laws::words::{
    bytes_hold, element, float_bytes_hold, four_bytes_hold, no_number, number_in, numbers_for,
    repeated_holds, repeated_length, shape, size, two_bytes_hold,
};
use crate::trtx::meaning::{input, result, went_on, went_through, Term};
use crate::trtx::network::operation_added;
use crate::trtx::pieces::{
    arg_max_means, arg_min_means, cumulative_sum_means, extremes, scatter_elements_means,
    scatter_nd_means, softmax_means,
};
use crate::trtx::select::{
    gather_elements_indices, gather_indices, gather_nd_indices, in_triangle, index_range,
    mask_bytes, mask_count, range_bytes, small_product,
};
use crate::trtx::session::{RequestOf, Run};
use crate::trtx::shapes::extent_product;
use crate::trtx::types::{
    ElementWiseOperation, GatherMode, Layer, ScatterMode, Tensor, TopKOperation, TrtDataType,
};
use vstd::prelude::*;

verus! {

/// A softmax runs along the axis that it is given.
pub proof fn softmax_follows_axis(
    n: Run,
    m: Map<u32, Tensor>,
    graph: GraphInfo,
    op: Operation,
    promoted: Set<u32>,
    axis: u32,
)
    requires
        went_through(n, m, operation_added(n, m, graph, op, promoted)),
        op.kind == (OperationKind::Softmax { axis }),
    ensures
        axis < 32,
        made(op, operation_added(n, m, graph, op, promoted)) == Form::Softmax(
            1u32 << axis,
            Box::new(given(n, m, op, 0)),
        ),
{
    kinds::softmax_is_added(n, m, graph, op, promoted);
    softmax_means(n, m, op);
}

/// A running sum runs along the axis that it is given, leaves the element itself out exactly where the
/// options exclude it, and runs from the end exactly where they reverse it.
pub proof fn cumulative_sum_follows_options(
    n: Run,
    m: Map<u32, Tensor>,
    graph: GraphInfo,
    op: Operation,
    promoted: Set<u32>,
    axis: u32,
    options: Option<MLCumulativeSumOptions>,
)
    requires
        went_through(n, m, operation_added(n, m, graph, op, promoted)),
        op.kind == (OperationKind::CumulativeSum { axis, options }),
    ensures
        match made(op, operation_added(n, m, graph, op, promoted)) {
            Form::RunningSum(exclusive, reversed, at, x) => {
                &&& exclusive == (options is Some && options->0.exclusive)
                &&& reversed == (options is Some && options->0.reversed)
                &&& *x == given(n, m, op, 0)
                &&& match *at {
                    Form::Constant(dims, bytes, TrtDataType::kINT32) => dims.len() == 0
                        && bytes.len() == 4 && number_in(bytes) == axis,
                    _ => false,
                }
            },
            _ => false,
        },
{
    kinds::cumulative_sum_is_added(n, m, graph, op, promoted);
    cumulative_sum_means(n, m, graph, op);
    four_bytes_hold(axis);
}

/// A scattering element by element replaces elements of the first input, along the axis of the
/// options, at the places that the second names, by those of the third.
pub proof fn scatter_elements_follows_options(
    n: Run,
    m: Map<u32, Tensor>,
    graph: GraphInfo,
    op: Operation,
    promoted: Set<u32>,
    options: Option<MLScatterOptions>,
)
    requires
        went_through(n, m, operation_added(n, m, graph, op, promoted)),
        op.kind == (OperationKind::ScatterElements { options }),
    ensures
        made(op, operation_added(n, m, graph, op, promoted)) == Form::Scattered(
            ScatterMode::kELEMENT,
            Some(
                match options {
                    Some(o) => o.axis as i32,
                    None => 0i32,
                },
            ),
            Box::new(given(n, m, op, 0)),
            Box::new(given(n, m, op, 1)),
            Box::new(given(n, m, op, 2)),
        ),
{
    kinds::scatter_elements_is_added(n, m, graph, op, promoted);
    scatter_elements_means(n, m, op);
}

/// A scattering by index tuples replaces the parts of the first input that the tuples of the second
/// name by those of the third.
pub proof fn scatter_nd_replaces(
    n: Run,
    m: Map<u32, Tensor>,
    graph: GraphInfo,
    op: Operation,
    promoted: Set<u32>,
)
    requires
        went_through(n, m, operation_added(n, m, graph, op, promoted)),
        op.kind is ScatterND,
    ensures
        made(op, operation_added(n, m, graph, op, promoted)) == Form::Scattered(
            ScatterMode::kND,
            None,
            Box::new(given(n, m, op, 0)),
            Box::new(given(n, m, op, 1)),
            Box::new(given(n, m, op, 2)),
        ),
{
    kinds::scatter_nd_is_added(n, m, graph, op, promoted);
    scatter_nd_means(n, m, op);
}

/// The positions of the greatest or the least elements are sought along the axis that is given, and
/// have the shape of a reduction over that axis, which stays exactly where the options keep it.
pub proof fn positions_follow_options(
    n: Run,
    m: Map<u32, Tensor>,
    graph: GraphInfo,
    op: Operation,
    promoted: Set<u32>,
    axis: u32,
    options: Option<MLArgMinMaxOptions>,
)
    requires
        went_through(n, m, operation_added(n, m, graph, op, promoted)),
        op.kind == (OperationKind::ArgMax { axis, options }) || op.kind == (
        OperationKind::ArgMin { axis, options }),
    ensures
        ({
            let d = shape(graph, op.inputs@[0]);
            let sizes = Seq::new(d.len(), |i: int| size(d[i]));
            let keep = options is Some && options->0.keep_dimensions;
            let wanted = n.infer(
                RequestOf::InferArgReduceShape {
                    shape: Seq::new(d.len(), |i: int| size(d[i]) as i64),
                    axis,
                    keep_dims: keep,
                },
            ).1;
            made(op, operation_added(n, m, graph, op, promoted)) == Form::Cast(
                TrtDataType::kFLOAT,
                Box::new(
                    Form::Reshaped(
                        wanted,
                        Box::new(
                            extremes(
                                given(n, m, op, 0),
                                sizes,
                                axis,
                                if op.kind is ArgMax {
                                    TopKOperation::kMAX
                                } else {
                                    TopKOperation::kMIN
                                },
                            ),
                        ),
                    ),
                ),
            )
        }),
{
    let d = shape(graph, op.inputs@[0]);
    let sizes = Seq::new(d.len(), |i: int| size(d[i]));
    assert(crate::graph::max_sizes(d) =~= sizes);
    assert(as_dims(sizes) =~= Seq::new(d.len(), |i: int| size(d[i]) as i64));
    if op.kind is ArgMax {
        kinds::arg_max_is_added(n, m, graph, op, promoted);
        arg_max_means(n, m, graph, op);
    } else {
        kinds::arg_min_is_added(n, m, graph, op, promoted);
        arg_min_means(n, m, graph, op);
    }
}

/// Whether bytes hold the same pattern of 32 bits over and over.
pub open spec fn repeats_pattern(bytes: Seq<u8>, x: nat) -> bool {
    forall|i: int|
        0 <= i < bytes.len() as int / 4 ==> number_in(#[trigger] bytes.subrange(4 * i, 4 * i + 4))
            == x
}

/// Whether a form is another with each index into an axis of `extent` elements moved to the nearest
/// one that the axis has, counted from the start or, negative, from the end: between the constants
/// `-extent`, as 32 bits, and `extent - 1`.
pub open spec fn is_clipped(to: Form, from: Form, extent: u32) -> bool {
    match to {
        Form::Elementwise(ElementWiseOperation::kMAX, least, below) => match (*least, *below) {
            (
                Form::Constant(_, low, TrtDataType::kINT32),
                Form::Elementwise(ElementWiseOperation::kMIN, x, greatest),
            ) => *x == from && match *greatest {
                Form::Constant(_, high, TrtDataType::kINT32) => repeats_pattern(
                    low,
                    ((0x1_0000_0000 - extent) % 0x1_0000_0000) as nat,
                ) && repeats_pattern(high, ((extent + 0xFFFF_FFFF) % 0x1_0000_0000) as nat),
                _ => false,
            },
            _ => false,
        },
        _ => false,
    }
}

proof fn repeated_repeats(x: u32, count: nat)
    ensures
        repeats_pattern(repeated(le4(x), count), x as nat),
{
    let bytes = repeated(le4(x), count);
    four_bytes_hold(x);
    repeated_length(le4(x), count);
    assert forall|i: int| 0 <= i < bytes.len() as int / 4 implies number_in(
        #[trigger] bytes.subrange(4 * i, 4 * i + 4),
    ) == x by {
        repeated_holds(le4(x), count, i);
    }
}

broadcast proof fn adds_constant(
    n: Run,
    dims: Seq<i64>,
    bytes: Seq<u8>,
    dtype: TrtDataType,
    label: Seq<char>,
)
    requires
        n.add_constant(dims, bytes, dtype, label).0.goes_on(),
    ensures
        is_constant(
            (#[trigger] n.add_constant(dims, bytes, dtype, label)).0,
            n.add_constant(dims, bytes, dtype, label).1,
            dims,
            bytes,
            dtype,
        ),
{
    reveal(Run::add_constant);
    reveal(Run::ask);
}

/// Indices between two constants.
pub open spec fn between(f: Form, dims: Seq<i64>, low: Seq<u8>, high: Seq<u8>) -> Form {
    Form::Elementwise(
        ElementWiseOperation::kMAX,
        Box::new(Form::Constant(dims, low, TrtDataType::kINT32)),
        Box::new(
            Form::Elementwise(
                ElementWiseOperation::kMIN,
                Box::new(f),
                Box::new(Form::Constant(dims, high, TrtDataType::kINT32)),
            ),
        ),
    )
}

broadcast proof fn forms_gather_indices(
    n: Run,
    indices: Tensor,
    dims: Seq<i64>,
    low: Seq<u8>,
    high: Seq<u8>,
)
    requires
        gather_indices(n, indices, dims, low, high).0.goes_on(),
        n.has(indices),
    ensures
        ({
            let (after, t) = #[trigger] gather_indices(n, indices, dims, low, high);
            after.has(t) && after.form(t) == between(n.form(indices), dims, low, high)
        }),
{
    broadcast use {
        group_grows, group_forms, grows_step_add_constant, adds_constant, forms_constant_output,
        constant_stays,
    };

    reveal(gather_indices);
}

broadcast proof fn forms_gather_elements_indices(
    n: Run,
    indices: Tensor,
    dims: Seq<i64>,
    low: Seq<u8>,
    high: Seq<u8>,
)
    requires
        gather_elements_indices(n, indices, dims, low, high).0.goes_on(),
        n.has(indices),
    ensures
        ({
            let (after, t) = #[trigger] gather_elements_indices(n, indices, dims, low, high);
            after.has(t) && after.form(t) == between(n.form(indices), dims, low, high)
        }),
{
    broadcast use {
        group_grows, group_forms, grows_step_add_constant, adds_constant, forms_constant_output,
        constant_stays,
    };

    reveal(gather_elements_indices);
}

broadcast proof fn forms_gather(
    n: Run,
    data: Tensor,
    indices: Tensor,
    axis: i32,
    add_label: Seq<char>,
    output_label: Seq<char>,
)
    requires
        n.layer(
            RequestOf::AddGather { data, indices, axis },
            add_label,
            output_label,
        ).0.goes_on(),
        n.has(data),
        n.has(indices),
    ensures
        ({
            let (after, t) = #[trigger] n.layer(
                RequestOf::AddGather { data, indices, axis },
                add_label,
                output_label,
            );
            after.has(t) && after.form(t) == Form::Gathered(
                axis,
                None,
                Box::new(n.form(data)),
                Box::new(n.form(indices)),
            )
        }),
{
    broadcast use {group_grows, grows_stopped, grows_step_output, went_on, earlier_is};

    reveal(Run::layer);
    reveal(shaped);
    let request = RequestOf::AddGather { data, indices, axis };
    let (r, l) = n.ask(request, add_label);
    layer_is_new(n, request, add_label);
    layer_is_set(r, l, output_label);
    form_is_kept(n, r, data);
    form_is_kept(n, r, indices);
}

proof fn forms_gather_in_mode(
    n: Run,
    data: Tensor,
    indices: Tensor,
    axis: i32,
    mode: GatherMode,
    add_label: Seq<char>,
    output_label: Seq<char>,
)
    requires
        ({
            let (a, l) = n.ask(RequestOf::AddGather { data, indices, axis }, add_label);
            let b = a.tell(RequestOf::SetGatherMode { layer: Layer { id: l }, mode });
            b.output(l, output_label).0.goes_on()
        }),
        n.has(data),
        n.has(indices),
    ensures
        ({
            let (a, l) = n.ask(RequestOf::AddGather { data, indices, axis }, add_label);
            let b = a.tell(RequestOf::SetGatherMode { layer: Layer { id: l }, mode });
            let (after, t) = b.output(l, output_label);
            after.has(t) && after.form(t) == Form::Gathered(
                axis,
                Some(mode),
                Box::new(n.form(data)),
                Box::new(n.form(indices)),
            )
        }),
{
    broadcast use {group_grows, grows_stopped, grows_step_output, went_on, earlier_is};

    reveal(shaped);
    let request = RequestOf::AddGather { data, indices, axis };
    let (r, l) = n.ask(request, add_label);
    let set = RequestOf::SetGatherMode { layer: Layer { id: l }, mode };
    let s = r.tell(set);
    layer_is_new(n, request, add_label);
    tell_sets(r, set, l);
    layer_is_set(s, l, output_label);
    form_is_kept(n, s, data);
    form_is_kept(n, s, indices);
}

/// A gathering takes elements of the first input along the axis of the options, at the places that the
/// second names; places past the ends of the axis are moved to its ends. A gathering element by element
/// takes one element for each index.
pub proof fn gather_follows_options(
    n: Run,
    m: Map<u32, Tensor>,
    graph: GraphInfo,
    op: Operation,
    promoted: Set<u32>,
    options: Option<MLGatherOptions>,
)
    requires
        went_through(n, m, operation_added(n, m, graph, op, promoted)),
        op.kind == (OperationKind::Gather { options }) || op.kind == (
        OperationKind::GatherElements { options }),
    ensures
        ({
            let axis = match options {
                Some(o) => o.axis as i32,
                None => 0i32,
            };
            &&& 0 <= axis < shape(graph, op.inputs@[0]).len()
            &&& match made(op, operation_added(n, m, graph, op, promoted)) {
                Form::Gathered(along, mode, x, indices) => {
                    &&& along == axis
                    &&& mode == if op.kind is Gather {
                        None
                    } else {
                        Some(GatherMode::kELEMENT)
                    }
                    &&& *x == given(n, m, op, 0)
                    &&& is_clipped(
                        *indices,
                        given(n, m, op, 1),
                        size(shape(graph, op.inputs@[0])[axis as int]),
                    )
                },
                _ => false,
            }
        }),
{
    broadcast use {
        group_grows, group_forms, grows_gather_indices, grows_gather_elements_indices,
        grows_step_layer, forms_gather_indices, forms_gather_elements_indices, forms_gather,
    };

    let axis = crate::trtx::select::gather_axis(op.kind);
    let extent = size(shape(graph, op.inputs@[0])[axis as int]);
    let sizes = crate::graph::max_sizes(shape(graph, op.inputs@[1]));
    let count = small_product(sizes)->0;
    let range = index_range(extent);
    let (least, greatest) = range->0;
    let dims = crate::trtx::arrange::narrow_dims(sizes);
    let low = repeated(le4(least as u32), count);
    let high = repeated(le4(greatest as u32), count);
    repeated_repeats(least as u32, count);
    repeated_repeats(greatest as u32, count);
    bounds_as_patterns(extent);
    let x = m[op.inputs@[0]];
    if op.kind is Gather {
        kinds::gather_is_added(n, m, graph, op, promoted);
        let (a, t) = gather_indices(n, m[op.inputs@[1]], dims, low, high);
        assert(a.goes_on());
    } else {
        kinds::gather_elements_is_added(n, m, graph, op, promoted);
        let (a, t) = gather_elements_indices(n, m[op.inputs@[1]], dims, low, high);
        let (b, l) = a.ask(
            RequestOf::AddGather { data: x, indices: t, axis },
            "Failed to create gather layer: "@,
        );
        let c = b.tell(
            RequestOf::SetGatherMode { layer: Layer { id: l }, mode: GatherMode::kELEMENT },
        );
        assert(c.output(l, "Failed to get gatherElements output: "@).0.goes_on());
        assert(a.goes_on());
        form_is_kept(n, a, x);
        forms_gather_in_mode(
            a,
            x,
            t,
            axis,
            GatherMode::kELEMENT,
            "Failed to create gather layer: "@,
            "Failed to get gatherElements output: "@,
        );
    }
}

proof fn bounds_as_patterns(extent: u32)
    ensures
        index_range(extent) matches Some(r) ==> {
            &&& (r.0 as u32) as int == (0x1_0000_0000 - extent) % 0x1_0000_0000
            &&& (r.1 as u32) as int == (extent + 0xFFFF_FFFF) % 0x1_0000_0000
        },
{
    let e = extent as i32;
    assert(e as u32 == extent) by (bit_vector)
        requires
            e == extent as i32,
    ;
    if e != i32::MIN {
        let least = (-e) as i32;
        let greatest = (e - 1) as i32;
        assert((least as u32) as int == (0x1_0000_0000 - extent) % 0x1_0000_0000 && (
        greatest as u32) as int == (extent + 0xFFFF_FFFF) % 0x1_0000_0000) by {
            assert(e >= 0 ==> extent == e) by (bit_vector)
                requires
                    e == extent as i32,
            ;
            assert(e < 0 ==> extent == e + 0x1_0000_0000) by (bit_vector)
                requires
                    e == extent as i32,
            ;
            signed_pattern(least);
            signed_pattern(greatest);
        }
    }
}

proof fn signed_pattern(x: i32)
    ensures
        (x as u32) as int == if x < 0 {
            x + 0x1_0000_0000
        } else {
            x as int
        },
{
    assert(x < 0 ==> (x as u32) == x + 0x1_0000_0000) by (bit_vector);
    assert(x >= 0 ==> (x as u32) == x) by (bit_vector);
}

/// A selection takes the second input where the first is true, else the third.
pub proof fn where_selects(
    n: Run,
    m: Map<u32, Tensor>,
    graph: GraphInfo,
    op: Operation,
    promoted: Set<u32>,
)
    requires
        went_through(n, m, operation_added(n, m, graph, op, promoted)),
        op.kind is Where,
    ensures
        ({
            let c = input(n, m, op, 0);
            result(op, operation_added(n, m, graph, op, promoted)) == Term::Selected(
                Box::new(
                    Term::Cast(
                        TrtDataType::kBOOL,
                        if is_byte_operand(graph, op.inputs@[0]) {
                            Box::new(Term::Cast(TrtDataType::kFLOAT, Box::new(c)))
                        } else {
                            Box::new(c)
                        },
                    ),
                ),
                Box::new(input(n, m, op, 1)),
                Box::new(input(n, m, op, 2)),
            )
        }),
{
    kinds::where_is_added(n, m, graph, op, promoted);
    where_means(n, m, graph, op);
}

/// The number that a bound of a clamp holds in floating point, where it is given as a number.
pub open spec fn bound_given(v: Option<MLNumber>) -> Option<Scalar> {
    match v {
        Some(MLNumber::Unsigned { reading, .. }) => Some(reading.bits),
        Some(MLNumber::Negative { reading, .. }) => Some(reading.bits),
        Some(MLNumber::Float { reading, .. }) => Some(reading.bits),
        _ => None,
    }
}

/// The options of a clamp, or those that stand for none: no bounds.
pub open spec fn clamp_asked(options: Option<MLClampOptions>, o: MLClampOptions) -> bool {
    match options {
        Some(given) => given == o,
        None => {
            &&& o.min_value is None && o.max_value is None
        },
    }
}

/// A clamp of floating-point elements is `max(lower, min(x, upper))`, with the least and the greatest
/// value of the options as the bounds; a bound that is not given is an infinity.
pub proof fn clamp_follows_options(
    n: Run,
    m: Map<u32, Tensor>,
    graph: GraphInfo,
    op: Operation,
    promoted: Set<u32>,
    options: Option<MLClampOptions>,
    o: MLClampOptions,
)
    requires
        clamp_asked(options, o),
        went_through(n, m, operation_added(n, m, graph, op, promoted)),
        op.kind == (OperationKind::Clamp { options }),
        element(graph, op.inputs@[0]) == DataType::Float32 || element(graph, op.inputs@[0])
            == DataType::Float16,
        o.min_value is None || (bound_given(o.min_value) matches Some(x) && !no_number(x.single)),
        o.max_value is None || (bound_given(o.max_value) matches Some(x) && !no_number(x.single)),
    ensures
        ({
            let t = element(graph, op.inputs@[0]);
            let least = if o.min_value is None {
                Scalar { single: 0xFF80_0000, half: 0xFC00 }
            } else {
                bound_given(o.min_value)->0
            };
            let greatest = if o.max_value is None {
                Scalar { single: 0x7F80_0000, half: 0x7C00 }
            } else {
                bound_given(o.max_value)->0
            };
            match result(op, operation_added(n, m, graph, op, promoted)) {
                Term::Elementwise(ElementWiseOperation::kMAX, low, below) => match (*low, *below) {
                    (
                        Term::Constant(a, low_type),
                        Term::Elementwise(ElementWiseOperation::kMIN, x, high),
                    ) => low_type == numbers_for(t) && bytes_hold(a, least, t) && *x == input(
                        n,
                        m,
                        op,
                        0,
                    ) && match *high {
                        Term::Constant(b, high_type) => high_type == numbers_for(t) && bytes_hold(
                            b,
                            greatest,
                            t,
                        ),
                        _ => false,
                    },
                    _ => false,
                },
                _ => false,
            }
        }),
{
    kinds::clamp_is_added(n, m, graph, op, promoted);
    clamp_means(n, m, graph, op);
    let least = if o.min_value is None {
        Scalar { single: 0xFF80_0000, half: 0xFC00 }
    } else {
        bound_given(o.min_value)->0
    };
    let greatest = if o.max_value is None {
        Scalar { single: 0x7F80_0000, half: 0x7C00 }
    } else {
        bound_given(o.max_value)->0
    };
    four_bytes_hold(least.single);
    two_bytes_hold(least.half);
    four_bytes_hold(greatest.single);
    two_bytes_hold(greatest.half);
}

/// Whether the element in a row and a column belongs to a triangle: an upper one has the elements
/// from the diagonal on to the right, a lower one those up to the diagonal.
pub open spec fn belongs(upper: bool, diagonal: i32, row: int, column: int) -> bool {
    if upper {
        column - row >= diagonal
    } else {
        column - row <= diagonal
    }
}

/// The width of a number that goes with elements of a type, in bytes.
pub open spec fn width(t: DataType) -> nat {
    if t == DataType::Float16 {
        2
    } else {
        4
    }
}

/// A triangle of a matrix is its product with a mask that holds 1 where an element belongs to the
/// triangle of the options, and 0 elsewhere, row by row. Without options it is the upper one from the
/// main diagonal.
pub proof fn triangular_follows_options(
    n: Run,
    m: Map<u32, Tensor>,
    graph: GraphInfo,
    op: Operation,
    promoted: Set<u32>,
    options: Option<MLTriangularOptions>,
    k: int,
)
    requires
        went_through(n, m, operation_added(n, m, graph, op, promoted)),
        op.kind == (OperationKind::Triangular { options }),
        ({
            let d = shape(graph, op.inputs@[0]);
            &&& d.len() >= 2
            &&& 0 < size(d[d.len() - 2]) <= i32::MAX
            &&& 0 < size(d[d.len() - 1]) <= i32::MAX
        }),
    ensures
        ({
            let d = shape(graph, op.inputs@[0]);
            let t = element(graph, op.inputs@[0]);
            let rows = size(d[d.len() - 2]) as int;
            let columns = size(d[d.len() - 1]) as int;
            let upper = match options {
                Some(o) => o.upper != Some(false),
                None => true,
            };
            let diagonal = match options {
                Some(o) => o.diagonal,
                None => 0,
            };
            match result(op, operation_added(n, m, graph, op, promoted)) {
                Term::Elementwise(ElementWiseOperation::kPROD, x, mask) => *x == input(n, m, op, 0)
                    && match *mask {
                    Term::Constant(bytes, ty) => ty == numbers_for(t) && (0 <= k && (k + 1)
                        * width(t) <= bytes.len() ==> bytes_hold(
                        bytes.subrange(k * width(t), k * width(t) + width(t)),
                        if belongs(upper, diagonal, k / columns % rows, k % columns) {
                            one()
                        } else {
                            zero()
                        },
                        t,
                    )),
                    _ => false,
                },
                _ => false,
            }
        }),
{
    kinds::triangular_is_added(n, m, graph, op, promoted);
    triangular_means(n, m, graph, op);
    let d = shape(graph, op.inputs@[0]);
    let t = element(graph, op.inputs@[0]);
    let sizes = crate::graph::max_sizes(d);
    let rows = size(d[d.len() - 2]) as nat;
    let columns = size(d[d.len() - 1]) as nat;
    let (upper, diagonal) = crate::trtx::select::triangle_plan(op.kind);
    let count = mask_count(extent_product(as_dims(sizes)), rows, columns)->0;
    float_bytes_hold(one(), t);
    mask_length(t, upper, diagonal, rows, columns, count);
    if 0 <= k && (k + 1) * width(t) <= count * width(t) {
        assert(k < count) by (nonlinear_arith)
            requires
                (k + 1) * width(t) <= count * width(t),
                width(t) > 0,
        ;
        mask_holds(t, upper, diagonal, rows, columns, count, k);
    }
}

proof fn mask_length(t: DataType, upper: bool, diagonal: i32, rows: nat, columns: nat, count: nat)
    ensures
        mask_bytes(t, upper, diagonal, rows, columns, count).len() == count * width(t),
    decreases count,
{
    if count > 0 {
        mask_length(t, upper, diagonal, rows, columns, (count - 1) as nat);
        float_bytes_hold(one(), t);
        float_bytes_hold(zero(), t);
        assert((count - 1) * width(t) + width(t) == count * width(t)) by (nonlinear_arith);
    } else {
        assert(0 * width(t) == 0) by (nonlinear_arith);
    }
}

proof fn mask_holds(
    t: DataType,
    upper: bool,
    diagonal: i32,
    rows: nat,
    columns: nat,
    count: nat,
    k: int,
)
    requires
        0 <= k < count,
        0 < rows <= i32::MAX,
        0 < columns <= i32::MAX,
    ensures
        bytes_hold(
            mask_bytes(t, upper, diagonal, rows, columns, count).subrange(
                k * width(t),
                k * width(t) + width(t),
            ),
            if belongs(upper, diagonal, k / columns as int % rows as int, k % columns as int) {
                one()
            } else {
                zero()
            },
            t,
        ),
    decreases count,
{
    let all = mask_bytes(t, upper, diagonal, rows, columns, count);
    let less = mask_bytes(t, upper, diagonal, rows, columns, (count - 1) as nat);
    mask_length(t, upper, diagonal, rows, columns, count);
    mask_length(t, upper, diagonal, rows, columns, (count - 1) as nat);
    float_bytes_hold(one(), t);
    float_bytes_hold(zero(), t);
    let w = width(t) as int;
    let (r, c) = (rows as int, columns as int);
    let i = k / c % r;
    let j = k % c;
    assert(0 <= j < c && 0 <= i < r && 0 <= k * w && k * w + w <= count * w && (count - 1) * w + w
        == count * w) by (nonlinear_arith)
        requires
            j == k % c,
            i == k / c % r,
            0 <= k < count,
            0 < r,
            0 < c,
            w > 0,
    ;
    if k == count - 1 {
        assert(in_triangle(upper, diagonal, i as usize, j as usize) == belongs(
            upper,
            diagonal,
            i,
            j,
        ));
        assert(all.subrange(k * w, k * w + w) =~= crate::scalar::float_bytes(
            crate::scalar::known(
                if in_triangle(upper, diagonal, i as usize, j as usize) {
                    crate::scalar::Known::One
                } else {
                    crate::scalar::Known::Zero
                },
            ),
            t,
        ));
    } else {
        mask_holds(t, upper, diagonal, rows, columns, (count - 1) as nat, k);
        assert(k * w + w <= (count - 1) * w) by (nonlinear_arith)
            requires
                0 <= k < count - 1,
                w > 0,
        ;
        assert(all.subrange(k * w, k * w + w) =~= less.subrange(k * w, k * w + w));
    }
}

/// Whether bytes hold the least, or the greatest, index into each of the first `k` axes, in four bytes
/// each. An index counts from the start of its axis or, negative, from its end.
pub open spec fn bounds_tuple(bytes: Seq<u8>, axes: Seq<Dimension>, k: nat, greatest: bool) -> bool {
    &&& bytes.len() == 4 * k
    &&& forall|j: int|
        0 <= j < k ==> #[trigger] number_in(bytes.subrange(4 * j, 4 * j + 4)) == if greatest {
            (size(axes[j]) + 0xFFFF_FFFF) % 0x1_0000_0000
        } else {
            (0x1_0000_0000 - size(axes[j])) % 0x1_0000_0000
        }
}

/// Whether bytes hold such bounds over and over.
pub open spec fn bounds_tuples(
    bytes: Seq<u8>,
    axes: Seq<Dimension>,
    k: nat,
    greatest: bool,
    count: nat,
) -> bool {
    let width = 4 * k;
    &&& bytes.len() == count * width
    &&& forall|i: int|
        0 <= i < count ==> bounds_tuple(
            #[trigger] bytes.subrange(i * width, i * width + width),
            axes,
            k,
            greatest,
        )
}

/// Whether a form is index tuples, each index moved between the ends of its axis.
pub open spec fn is_clipped_to_axes(f: Form, from: Form, axes: Seq<Dimension>, k: nat) -> bool {
    exists|dims: Seq<i64>, low: Seq<u8>, high: Seq<u8>, count: nat|
        #![trigger between(from, dims, low, high), bounds_tuples(low, axes, k, false, count)]
        f == between(from, dims, low, high) && bounds_tuples(low, axes, k, false, count)
            && bounds_tuples(high, axes, k, true, count)
}

/// A gathering by tuples takes, for each tuple of indices along the last axis of the second input, what
/// stands there in the first; each index is moved between the ends of its axis.
pub proof fn gather_nd_takes(
    n: Run,
    m: Map<u32, Tensor>,
    graph: GraphInfo,
    op: Operation,
    promoted: Set<u32>,
)
    requires
        went_through(n, m, operation_added(n, m, graph, op, promoted)),
        op.kind is GatherND,
    ensures
        ({
            let by = shape(graph, op.inputs@[1]);
            &&& by.len() > 0
            &&& 0 < size(by.last()) <= shape(graph, op.inputs@[0]).len()
            &&& match made(op, operation_added(n, m, graph, op, promoted)) {
                Form::Gathered(along, mode, x, indices) => {
                    &&& along == 0
                    &&& mode == Some(GatherMode::kND)
                    &&& *x == given(n, m, op, 0)
                    &&& is_clipped_to_axes(
                        *indices,
                        given(n, m, op, 1),
                        shape(graph, op.inputs@[0]),
                        size(by.last()) as nat,
                    )
                },
                _ => false,
            }
        }),
{
    broadcast use {
        group_grows, group_forms, grows_gather_nd_indices, grows_elements, grows_step_layer,
    };

    kinds::gather_nd_is_added(n, m, graph, op, promoted);
    let x = m[op.inputs@[0]];
    let axes = shape(graph, op.inputs@[0]);
    let by = shape(graph, op.inputs@[1]);
    let sizes = crate::graph::max_sizes(by);
    assert(by.len() > 0);
    let k = sizes.last();
    assert(k == size(by.last()));
    let low = range_bytes(axes, k as nat, false)->0;
    let high = range_bytes(axes, k as nat, true)->0;
    let count = extent_product(as_dims(sizes.take(sizes.len() - 1)))->0;
    let (lows, highs) = (repeated(low, count), repeated(high, count));
    let (a, t) = gather_nd_indices(n, m[op.inputs@[1]], as_dims(sizes), lows, highs);
    let (b, l) = a.ask(
        RequestOf::AddGather { data: x, indices: t, axis: 0 },
        "Failed to add gatherND layer: "@,
    );
    let c = b.tell(RequestOf::SetGatherMode { layer: Layer { id: l }, mode: GatherMode::kND });
    assert(c.output(l, "Failed to get gatherND output: "@).0.goes_on());
    assert(a.goes_on());
    form_is_kept(n, a, x);
    forms_gather_nd_indices(n, m[op.inputs@[1]], as_dims(sizes), lows, highs);
    forms_gather_in_mode(
        a,
        x,
        t,
        0,
        GatherMode::kND,
        "Failed to add gatherND layer: "@,
        "Failed to get gatherND output: "@,
    );
    bounds_repeat(axes, k as nat, false, count);
    bounds_repeat(axes, k as nat, true, count);
    assert(between(n.form(m[op.inputs@[1]]), as_dims(sizes), lows, highs) == a.form(t));
}

proof fn forms_gather_nd_indices(
    n: Run,
    indices: Tensor,
    dims: Seq<i64>,
    low: Seq<u8>,
    high: Seq<u8>,
)
    requires
        gather_nd_indices(n, indices, dims, low, high).0.goes_on(),
        n.has(indices),
    ensures
        ({
            let (after, t) = gather_nd_indices(n, indices, dims, low, high);
            after.has(t) && after.form(t) == between(n.form(indices), dims, low, high)
        }),
{
    broadcast use {
        group_grows, group_forms, grows_step_add_constant, adds_constant, forms_constant_output,
        constant_stays,
    };

    reveal(gather_nd_indices);
}

proof fn bounds_hold(axes: Seq<Dimension>, k: nat, greatest: bool)
    requires
        range_bytes(axes, k, greatest) is Some,
    ensures
        bounds_tuple(range_bytes(axes, k, greatest)->0, axes, k, greatest),
    decreases k,
{
    if k > 0 {
        bounds_hold(axes, (k - 1) as nat, greatest);
        let all = range_bytes(axes, k, greatest)->0;
        let less = range_bytes(axes, (k - 1) as nat, greatest)->0;
        bounds_as_patterns(size(axes[k - 1]));
        let r = index_range(size(axes[k - 1]))->0;
        let last = if greatest {
            r.1 as u32
        } else {
            r.0 as u32
        };
        four_bytes_hold(last);
        assert(all == less + le4(last));
        assert forall|j: int| 0 <= j < k implies #[trigger] number_in(
            all.subrange(4 * j, 4 * j + 4),
        ) == if greatest {
            (size(axes[j]) + 0xFFFF_FFFF) % 0x1_0000_0000
        } else {
            (0x1_0000_0000 - size(axes[j])) % 0x1_0000_0000
        } by {
            if j == k - 1 {
                assert(all.subrange(4 * j, 4 * j + 4) =~= le4(last));
            } else {
                assert(all.subrange(4 * j, 4 * j + 4) =~= less.subrange(4 * j, 4 * j + 4));
            }
        }
    }
}

proof fn bounds_repeat(axes: Seq<Dimension>, k: nat, greatest: bool, count: nat)
    requires
        range_bytes(axes, k, greatest) is Some,
    ensures
        bounds_tuples(
            repeated(range_bytes(axes, k, greatest)->0, count),
            axes,
            k,
            greatest,
            count,
        ),
{
    bounds_hold(axes, k, greatest);
    let unit = range_bytes(axes, k, greatest)->0;
    repeated_length(unit, count);
    let width = 4 * k;
    assert forall|i: int| 0 <= i < count implies bounds_tuple(
        #[trigger] repeated(unit, count).subrange(i * width, i * width + width),
        axes,
        k,
        greatest,
    ) by {
        repeated_holds(unit, count, i);
    }
}

} // verus!
