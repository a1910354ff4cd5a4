//! Instance and layer normalization.

use crate::data_type::DataType;
use crate::graph::GraphInfo;
use crate::operator_options::{MLInstanceNormalizationOptions, MLLayerNormalizationOptions};
use crate::operators::{Operation, OperationKind};
use crate::scalar::{float_bytes, float_type, repeated, Scalar};
use crate::text::{ascii_lowercase, has_word, word_at};
use crate::trtx::broadcast::ones;
use crate::trtx::forms::{
    ask_sets, earlier_is, form_is_kept, group_forms, group_wide_forms, layer_is_new, layer_is_set,
    shaped, Form,
};
use crate::trtx::geometry::{given, made};
use crate::trtx::growth::{
    group_grows, grows_elements, grows_instance_normalized, grows_layer_normalized,
    grows_layer_parameter, grows_mask, grows_step_output, grows_step_reshape, grows_stopped,
};
use crate::trtx::laws::kinds::{instance_normalization_is_added, layer_normalization_is_added};
use crate::trtx::laws::normalization::{is_filled, is_quotient};
use crate::trtx::laws::words::{
    bytes_repeat, element, filled_with_is_numbers, float_bytes_hold, in_small_letters, reported,
};
use crate::trtx::meaning::{went_on, went_through};
use crate::trtx::network::operation_added;
use crate::trtx::normalization::{
    ascending_order, channel_shape, instance_epsilon, instance_nchw, instance_normalized,
    instance_scale_bias, layer_axes, layer_normalization_op, layer_normalized, layer_options,
    layer_parameter, name_or_empty, named_scale_bias, narrowed, spread_over_axes,
};
use crate::trtx::session::{RequestOf, Run};
use crate::trtx::shapes::{
    ascending, ascending_is_sorted, elements, first_position, found_where_contained, mask,
    mask_holds_axes, position_holds,
};
use crate::trtx::types::{ElementWiseOperation, Layer, ReduceOperation, Tensor};
use vstd::prelude::*;

verus! {

/// Whether a form is `(x - mean) / sqrt(variance + epsilon)`, with the mean and the variance taken
/// over the axes whose bits are set.
pub open spec fn is_standardized(q: Form, x: Form, bits: u32, epsilon: Scalar, t: DataType) -> bool {
    let mean = Form::Reduced(ReduceOperation::kAVG, bits, true, Box::new(x));
    let centered = Form::Elementwise(ElementWiseOperation::kSUB, Box::new(x), Box::new(mean));
    let variance = Form::Reduced(
        ReduceOperation::kAVG,
        bits,
        true,
        Box::new(
            Form::Elementwise(
                ElementWiseOperation::kPROD,
                Box::new(centered),
                Box::new(centered),
            ),
        ),
    );
    exists|guard: Form|
        #[trigger] is_quotient(q, x, mean, variance, guard) && is_filled(guard, epsilon, t)
}

/// A form times another, where there is one.
pub open spec fn scaled_by(q: Form, scale: Option<Form>) -> Form {
    match scale {
        Some(s) => Form::Elementwise(ElementWiseOperation::kPROD, Box::new(q), Box::new(s)),
        None => q,
    }
}

/// A form plus another, where there is one.
pub open spec fn shifted_by(q: Form, bias: Option<Form>) -> Form {
    match bias {
        Some(b) => Form::Elementwise(ElementWiseOperation::kSUM, Box::new(q), Box::new(b)),
        None => q,
    }
}

/// A parameter by channel, with its elements along the axis of the channels, which are the second or
/// the last, and the extent 1 along every other.
pub open spec fn by_channel(
    n: Run,
    m: Map<u32, Tensor>,
    id: Option<u32>,
    d: Seq<i64>,
    second: bool,
) -> Option<Form> {
    let at = if second {
        1
    } else {
        d.len() - 1
    };
    match id {
        Some(id) => Some(
            Form::Reshaped(
                Seq::new(
                    d.len(),
                    |i: int|
                        if i == at {
                            d[at]
                        } else {
                            1
                        },
                ),
                Box::new(n.form(m[id])),
            ),
        ),
        None => None,
    }
}

/// Whether an operand is an input of an operation past the first, with a name that holds a word.
pub open spec fn is_named_input(graph: GraphInfo, op: Operation, id: u32, word: Seq<char>) -> bool {
    exists|i: int|
        1 <= i < op.inputs@.len() && #[trigger] op.inputs@[i] == id && id < graph.operands@.len()
            && (graph.operands@[id as int].name matches Some(s) && exists|at: int|
            0 <= at && at + word.len() <= s@.len() && in_small_letters(
                #[trigger] s@.subrange(at, at + word.len()),
            ) == word)
}

/// Whether a scale or a bias is the one that the options name or, where they name none, an input with
/// a name that holds the word.
pub open spec fn is_parameter(
    graph: GraphInfo,
    op: Operation,
    found: Option<u32>,
    named: Option<u32>,
    word: Seq<char>,
) -> bool {
    &&& named is Some ==> found == named
    &&& named is None && found is Some ==> is_named_input(graph, op, found->0, word)
}

proof fn names_are_looked_through(
    graph: GraphInfo,
    op: Operation,
    from: nat,
    scale: Option<u32>,
    bias: Option<u32>,
)
    requires
        from >= 1,
    ensures
        ({
            let r = named_scale_bias(graph, op.inputs@, from, scale, bias);
            is_parameter(graph, op, r.0, scale, "scale"@) && is_parameter(
                graph,
                op,
                r.1,
                bias,
                "bias"@,
            )
        }),
    decreases op.inputs@.len() - from,
{
    if from < op.inputs@.len() {
        let id = op.inputs@[from as int];
        let name = name_or_empty(graph, id);
        if scale is None && has_word(name, "scale"@) {
            names_are_looked_through(graph, op, from + 1, Some(id), bias);
            word_is_in_name(graph, op, from as int, "scale"@);
        } else if bias is None && has_word(name, "bias"@) {
            names_are_looked_through(graph, op, from + 1, scale, Some(id));
            word_is_in_name(graph, op, from as int, "bias"@);
        } else {
            names_are_looked_through(graph, op, from + 1, scale, bias);
        }
    }
}

proof fn word_is_in_name(graph: GraphInfo, op: Operation, i: int, word: Seq<char>)
    requires
        1 <= i < op.inputs@.len(),
        has_word(name_or_empty(graph, op.inputs@[i]), word),
        word == "scale"@ || word == "bias"@,
    ensures
        is_named_input(graph, op, op.inputs@[i], word),
{
    reveal_strlit("scale");
    reveal_strlit("bias");
    let id = op.inputs@[i];
    let name = name_or_empty(graph, id);
    let at = choose|at: int| #[trigger] word_at(name, word, at);
    assert(word_at(name, word, at));
    assert(name.len() > 0);
    let part = name.subrange(at, at + word.len());
    assert(in_small_letters(part) =~= ascii_lowercase(part));
}

proof fn forms_instance_normalized(
    n: Run,
    graph: GraphInfo,
    op: Operation,
    x: Tensor,
    bits: u32,
    epsilon: Scalar,
)
    requires
        instance_normalized(n, graph, op, x, bits, epsilon).0.goes_on(),
        n.has(x),
    ensures
        ({
            let (after, t) = instance_normalized(n, graph, op, x, bits, epsilon);
            after.has(t) && is_standardized(
                after.form(t),
                n.form(x),
                bits,
                epsilon,
                element(graph, op.inputs@[0]),
            )
        }),
{
    broadcast use {group_grows, group_forms, group_wide_forms, grows_elements};

    reveal(instance_normalized);
    let (after, t) = instance_normalized(n, graph, op, x, bits, epsilon);
    let (a, mean) = n.reduce(
        x,
        ReduceOperation::kAVG,
        bits,
        true,
        "Failed to add mean reduce for instance norm: "@,
        "Failed to get mean output: "@,
    );
    let (b, centered) = a.elementwise(
        x,
        mean,
        ElementWiseOperation::kSUB,
        "Failed to add sub for instance norm: "@,
        "Failed to get sub output: "@,
    );
    let (c, squared) = b.elementwise(
        centered,
        centered,
        ElementWiseOperation::kPROD,
        "Failed to add square for instance norm: "@,
        "Failed to get square output: "@,
    );
    let (d, variance) = c.reduce(
        squared,
        ReduceOperation::kAVG,
        bits,
        true,
        "Failed to add variance reduce for instance norm: "@,
        "Failed to get variance output: "@,
    );
    let (e, dv) = d.dims(variance, "InstanceNorm: failed to get variance dimensions: "@);
    let dt = element(graph, op.inputs@[0]);
    let count = elements(e, dv).1;
    let bytes = repeated(float_bytes(epsilon, dt), count);
    let guard = Form::Constant(dv, bytes, float_type(dt));
    filled_with_is_numbers(epsilon, dt, count);
    float_bytes_hold(epsilon, dt);
    assert(bytes_repeat(guard->Constant_1, epsilon, dt, count));
    assert(is_quotient(after.form(t), n.form(x), a.form(mean), d.form(variance), guard));
}

proof fn forms_layer_normalized(
    n: Run,
    graph: GraphInfo,
    op: Operation,
    x: Tensor,
    bits: u32,
    epsilon: Scalar,
)
    requires
        layer_normalized(n, graph, op, x, bits, epsilon).0.goes_on(),
        n.has(x),
    ensures
        ({
            let (after, t) = layer_normalized(n, graph, op, x, bits, epsilon);
            after.has(t) && is_standardized(
                after.form(t),
                n.form(x),
                bits,
                epsilon,
                element(graph, op.inputs@[0]),
            )
        }),
{
    broadcast use {group_grows, group_forms, group_wide_forms, grows_elements};

    reveal(layer_normalized);
    let (after, t) = layer_normalized(n, graph, op, x, bits, epsilon);
    let (a, mean) = n.reduce(
        x,
        ReduceOperation::kAVG,
        bits,
        true,
        "Failed to add mean reduce for layer norm: "@,
        "Failed to get mean output: "@,
    );
    let (b, centered) = a.elementwise(
        x,
        mean,
        ElementWiseOperation::kSUB,
        "Failed to add sub for layer norm: "@,
        "Failed to get sub output: "@,
    );
    let (c, squared) = b.elementwise(
        centered,
        centered,
        ElementWiseOperation::kPROD,
        "Failed to add square for layer norm: "@,
        "Failed to get square output: "@,
    );
    let (d, variance) = c.reduce(
        squared,
        ReduceOperation::kAVG,
        bits,
        true,
        "Failed to add variance reduce for layer norm: "@,
        "Failed to get variance output: "@,
    );
    let (e, dv) = d.dims(variance, "LayerNorm: failed to get variance dimensions: "@);
    let dt = element(graph, op.inputs@[0]);
    let count = elements(e, dv).1;
    let bytes = repeated(float_bytes(epsilon, dt), count);
    let guard = Form::Constant(dv, bytes, float_type(dt));
    filled_with_is_numbers(epsilon, dt, count);
    float_bytes_hold(epsilon, dt);
    assert(bytes_repeat(guard->Constant_1, epsilon, dt, count));
    assert(is_quotient(after.form(t), n.form(x), a.form(mean), d.form(variance), guard));
}

/// Whether a form is `(x - mean) / sqrt(variance + epsilon) * scale + bias`, with the mean and the
/// variance over the axes whose bits are set, and the scale and the bias by channel.
pub open spec fn is_instance_normal(
    r: Form,
    n: Run,
    m: Map<u32, Tensor>,
    graph: GraphInfo,
    op: Operation,
    bits: u32,
    second: bool,
    epsilon: Scalar,
    named_scale: Option<u32>,
    named_bias: Option<u32>,
) -> bool {
    let d = reported(n, m[op.inputs@[0]]);
    exists|q: Form, scale: Option<u32>, bias: Option<u32>|
        {
            &&& is_standardized(
                q,
                given(n, m, op, 0),
                bits,
                epsilon,
                element(graph, op.inputs@[0]),
            )
            &&& is_parameter(graph, op, scale, named_scale, "scale"@)
            &&& is_parameter(graph, op, bias, named_bias, "bias"@)
            &&& r == shifted_by(
                #[trigger] scaled_by(q, by_channel(n, m, scale, d, second)),
                #[trigger] by_channel(n, m, bias, d, second),
            )
        }
}

/// The options of an instance normalization, or those that stand for none: neither scale nor bias, the
/// channels second, and the guard 0.00001.
pub open spec fn instance_asked(options: Option<MLInstanceNormalizationOptions>, o: MLInstanceNormalizationOptions) -> bool {
    match options {
        Some(given) => given == o,
        None => {
            &&& o.scale is None && o.bias is None
            &&& o.layout@.len() == 0
            &&& o.epsilon == (Scalar { single: 0x3727_C5AC, half: 0x00A8 })
        },
    }
}

/// An instance normalization is `(x - mean) / sqrt(variance + epsilon) * scale + bias` with the
/// epsilon of the options. Where their layout is "nchw", or empty, the mean and the variance go over
/// the axes 2 and 3 and the scale and the bias lie along axis 1; with any other layout they go over the
/// axes 1 and 2, and the scale and the bias lie along the last axis. The scale and the bias are those
/// that the options name or, where they name none, inputs that are named so.
pub proof fn instance_normalization_follows_options(
    n: Run,
    m: Map<u32, Tensor>,
    graph: GraphInfo,
    op: Operation,
    promoted: Set<u32>,
    options: Option<MLInstanceNormalizationOptions>,
    o: MLInstanceNormalizationOptions,
)
    requires
        instance_asked(options, o),
        went_through(n, m, operation_added(n, m, graph, op, promoted)),
        op.kind == (OperationKind::InstanceNormalization { options }),
        reported(n, m[op.inputs@[0]]).len() > 0,
    ensures
        ({
            let second = o.layout@.len() == 0 || o.layout@ == "nchw"@;
            let d = reported(n, m[op.inputs@[0]]);
            let bits = if second {
                0b1100u32
            } else {
                0b0110u32
            };
            is_instance_normal(
                made(op, operation_added(n, m, graph, op, promoted)),
                n,
                m,
                graph,
                op,
                bits,
                second,
                o.epsilon,
                o.scale,
                o.bias,
            )
        }),
{
    broadcast use {
        group_grows, group_forms, group_wide_forms, grows_instance_normalized,
        grows_step_reshape,
    };

    instance_normalization_is_added(n, m, graph, op, promoted);
    reveal(Run::dims);
    let x = m[op.inputs@[0]];
    let nchw = instance_nchw(op.kind);
    let bits = if nchw {
        12u32
    } else {
        6u32
    };
    let epsilon = instance_epsilon(op.kind);
    let d = reported(n, x);
    let (a, t) = instance_normalized(n, graph, op, x, bits, epsilon);
    let (scale, bias) = instance_scale_bias(graph, op);
    assert(a.goes_on());
    forms_instance_normalized(n, graph, op, x, bits, epsilon);
    names_are_looked_through(graph, op, 1, o.scale, o.bias);
    let shape = channel_shape(d, nchw);
    let at = if nchw {
        1
    } else {
        d.len() - 1
    };
    assert(shape =~= Seq::new(
        d.len(),
        |i: int|
            if i == at {
                d[at]
            } else {
                1
            },
    ));
    let q = a.form(t);
    if let Some(id) = scale {
        assert(n.has(m[id]));
        form_is_kept(n, a, m[id]);
    }
    if let Some(id) = bias {
        assert(n.has(m[id]));
    }
    assert(made(op, operation_added(n, m, graph, op, promoted)) == shifted_by(
        scaled_by(q, by_channel(n, m, scale, d, nchw)),
        by_channel(n, m, bias, d, nchw),
    ));
    assert(is_instance_normal(
        made(op, operation_added(n, m, graph, op, promoted)),
        n,
        m,
        graph,
        op,
        bits,
        nchw,
        epsilon,
        o.scale,
        o.bias,
    ));
}

/// Whether an axis is one of those listed.
pub open spec fn is_listed(axes: Seq<u32>, i: int) -> bool {
    exists|j: int| 0 <= j < axes.len() && #[trigger] axes[j] == i
}

/// Whether a form is a parameter of a layer normalization, brought to so many axes: where it has as
/// many axes as are listed, its axis `j` stands at the place that the list names at `j`, and every
/// other axis has the extent 1; its axes are turned into ascending order first. Where it has another
/// number of axes, they stand last. Where it has as many axes as are wanted, it is as it was.
pub open spec fn stands_on(to: Form, from: Form, own: Seq<i64>, axes: Seq<u32>, rank: nat) -> bool {
    if own.len() >= rank {
        to == from
    } else {
        match to {
            Form::Reshaped(dims, f) => {
                &&& dims.len() == rank
                &&& own.len() == axes.len() ==> {
                    &&& forall|j: int|
                        0 <= j < axes.len() && axes[j] < rank ==> dims[#[trigger] axes[j] as int]
                            == own[j] as i32
                    &&& forall|i: int|
                        0 <= i < rank && !is_listed(axes, i) ==> #[trigger] dims[i] == 1
                    &&& is_ascending(axes) ==> *f == from
                    &&& !is_ascending(axes) ==> match *f {
                        Form::Turned(order, g) => *g == from && ascends_in(order, axes),
                        _ => false,
                    }
                }
                &&& own.len() != axes.len() ==> {
                    &&& *f == from
                    &&& forall|i: int| 0 <= i < rank - own.len() ==> #[trigger] dims[i] == 1
                    &&& forall|i: int|
                        rank - own.len() <= i < rank ==> #[trigger] dims[i] == own[i - (rank
                            - own.len())] as i32
                }
            },
            _ => false,
        }
    }
}

/// Whether a list is in ascending order where it is walked in the given order.
pub open spec fn ascends_in(order: Seq<i32>, axes: Seq<u32>) -> bool {
    &&& order.len() == axes.len()
    &&& forall|k: int| 0 <= k < order.len() ==> 0 <= #[trigger] order[k] < axes.len()
    &&& forall|k: int, l: int|
        #![trigger order[k], order[l]]
        0 <= k < l < order.len() ==> axes[order[k] as int] < axes[order[l] as int]
}

/// Whether a list ascends.
pub open spec fn is_ascending(axes: Seq<u32>) -> bool {
    forall|k: int, l: int| 0 <= k < l < axes.len() ==> axes[k] < axes[l]
}

proof fn forms_layer_parameter(
    n: Run,
    tensor: Tensor,
    result: Tensor,
    op_name: Seq<char>,
    axes: Seq<u32>,
)
    requires
        layer_parameter(n, tensor, result, op_name, axes).0.goes_on(),
        n.has(tensor),
        axes.no_duplicates(),
        axes.len() <= i32::MAX,
        reported(n, result).len() <= u32::MAX,
    ensures
        ({
            let (after, t) = layer_parameter(n, tensor, result, op_name, axes);
            after.has(t) && stands_on(
                after.form(t),
                n.form(tensor),
                reported(n, tensor),
                axes,
                reported(n, result).len(),
            )
        }),
{
    broadcast use {
        group_grows, group_forms, earlier_is, grows_stopped, went_on, grows_step_output,
    };

    reveal(layer_parameter);
    reveal(Run::dims);
    let dr = reported(n, result);
    let dt = reported(n, tensor);
    let (after, t) = layer_parameter(n, tensor, result, op_name, axes);
    ascending_when_sorted(axes);
    if dt.len() < dr.len() {
        let request = RequestOf::AddShuffle { input: tensor };
        let add = "LayerNorm "@ + op_name + ": shuffle: "@;
        let (a, l) = n.ask(request, add);
        let turns = dt.len() == axes.len() && axes != ascending(axes);
        let turn = RequestOf::SetFirstTranspose {
            layer: Layer { id: l },
            order: ascending_order(axes),
        };
        let turn_label = "LayerNorm "@ + op_name + ": set transpose: "@;
        let b = if turns {
            a.ask(turn, turn_label).0
        } else {
            a
        };
        let shape = if dt.len() == axes.len() {
            spread_over_axes(dt, axes, dr.len())
        } else {
            ones((dr.len() - dt.len()) as nat) + narrowed(dt)
        };
        let set = RequestOf::SetReshapeDimensions { layer: Layer { id: l }, dims: shape };
        let set_label = "LayerNorm "@ + op_name + ": set reshape: "@;
        let (c, _) = b.ask(set, set_label);
        layer_is_new(n, request, add);
        if turns {
            ask_sets(a, turn, turn_label, l);
        }
        ask_sets(b, set, set_label, l);
        layer_is_set(c, l, "LayerNorm "@ + op_name + ": shuffle output: "@);
        form_is_kept(n, c, tensor);
        reveal(shaped);
        let turned = if turns {
            Form::Turned(ascending_order(axes), Box::new(n.form(tensor)))
        } else {
            n.form(tensor)
        };
        assert(after.form(t) == Form::Reshaped(shape, Box::new(turned)));
        if dt.len() == axes.len() {
            parameter_stands(n.form(tensor), dt, axes, dr.len());
        } else {
            assert(forall|i: int| 0 <= i < dr.len() - dt.len() ==> #[trigger] shape[i] == 1);
        }
    } else {
        assert(after.form(t) == n.form(tensor));
    }
}

proof fn parameter_stands(from: Form, own: Seq<i64>, axes: Seq<u32>, rank: nat)
    requires
        axes.no_duplicates(),
        axes.len() <= i32::MAX,
        own.len() == axes.len() < rank <= u32::MAX,
    ensures
        stands_on(
            Form::Reshaped(
                spread_over_axes(own, axes, rank),
                Box::new(
                    if axes != ascending(axes) {
                        Form::Turned(ascending_order(axes), Box::new(from))
                    } else {
                        from
                    },
                ),
            ),
            from,
            own,
            axes,
            rank,
        ),
{
    ascending_when_sorted(axes);
    spread_stands(own, axes, rank);
    order_ascends(axes);
}

proof fn ascending_when_sorted(axes: Seq<u32>)
    requires
        axes.no_duplicates(),
    ensures
        is_ascending(axes) <==> axes == ascending(axes),
    decreases axes.len(),
{
    ascending_is_sorted(axes);
    if axes == ascending(axes) {
        assert forall|k: int, l: int| 0 <= k < l < axes.len() implies axes[k] < axes[l] by {
            assert(ascending(axes)[k] <= ascending(axes)[l]);
        }
    }
    if is_ascending(axes) && axes.len() > 0 {
        let front = axes.drop_last();
        assert(front.no_duplicates());
        assert(is_ascending(front));
        ascending_when_sorted(front);
        assert(front == ascending(front));
        if front.len() > 0 {
            assert(axes[axes.len() - 2] < axes[axes.len() - 1]);
        }
        assert(front.push(axes.last()) =~= axes);
    }
}

proof fn order_ascends(axes: Seq<u32>)
    requires
        axes.no_duplicates(),
        axes.len() <= i32::MAX,
    ensures
        ascends_in(ascending_order(axes), axes),
{
    broadcast use vstd::seq_lib::group_to_multiset_ensures;

    ascending_is_sorted(axes);
    let sorted = ascending(axes);
    let order = ascending_order(axes);
    axes.lemma_multiset_has_no_duplicates();
    sorted.lemma_multiset_has_no_duplicates_conv();
    assert forall|k: int| 0 <= k < order.len() implies 0 <= #[trigger] order[k] < axes.len()
        && axes[order[k] as int] == sorted[k] by {
        assert(sorted.contains(sorted[k]));
        assert(sorted.to_multiset().count(sorted[k]) > 0);
        assert(axes.contains(sorted[k]));
        let j = choose|j: int| 0 <= j < axes.len() && axes[j] == sorted[k];
        found_where_contained(axes, sorted[k], 0, j);
    }
    assert forall|k: int, l: int|
        #![trigger order[k], order[l]]
        0 <= k < l < order.len() implies axes[order[k] as int] < axes[order[l] as int] by {
        assert(sorted[k] <= sorted[l]);
        assert(sorted[k] != sorted[l]);
    }
}

proof fn spread_stands(own: Seq<i64>, axes: Seq<u32>, rank: nat)
    requires
        axes.no_duplicates(),
        own.len() == axes.len(),
        rank <= u32::MAX,
    ensures
        ({
            let dims = spread_over_axes(own, axes, rank);
            &&& forall|j: int|
                0 <= j < axes.len() && axes[j] < rank ==> dims[#[trigger] axes[j] as int]
                    == own[j] as i32
            &&& forall|i: int| 0 <= i < rank && !is_listed(axes, i) ==> #[trigger] dims[i] == 1
        }),
{
    let dims = spread_over_axes(own, axes, rank);
    assert forall|j: int| 0 <= j < axes.len() && axes[j] < rank implies dims[#[trigger] axes[j] as int]
        == own[j] as i32 by {
        found_where_contained(axes, axes[j], 0, j);
        let p = first_position(axes, axes[j], 0)->0;
        assert(axes[p as int] == axes[j]);
    }
    assert forall|i: int| 0 <= i < rank && !is_listed(axes, i) implies #[trigger] dims[i] == 1 by {
        position_holds(axes, i as u32, 0);
        if axes.contains(i as u32) {
            let j = choose|j: int| 0 <= j < axes.len() && axes[j] == i as u32;
            assert(axes[j] == i);
        }
    }
}

/// Whether a form is another combined with a parameter of a layer normalization, brought to the axes
/// of a tensor that is the other.
pub open spec fn combined_on(
    end: Run,
    to: Form,
    from: Form,
    code: ElementWiseOperation,
    n: Run,
    m: Map<u32, Tensor>,
    id: Option<u32>,
    axes: Seq<u32>,
) -> bool {
    match id {
        Some(id) => match to {
            Form::Elementwise(c, a, p) => c == code && *a == from && exists|t: Tensor|
                end.form(t) == from && ((#[trigger] reported(end, t)).len() <= u32::MAX
                    ==> stands_on(
                    *p,
                    n.form(m[id]),
                    reported(n, m[id]),
                    axes,
                    reported(end, t).len(),
                )),
            _ => false,
        },
        None => to == from,
    }
}

/// Whether a form is `(x - mean) / sqrt(variance + epsilon) * scale + bias`, with the mean and the
/// variance over the axes of a list.
pub open spec fn is_layer_normal(
    end: Run,
    r: Form,
    n: Run,
    m: Map<u32, Tensor>,
    graph: GraphInfo,
    op: Operation,
    axes: Seq<u32>,
    epsilon: Scalar,
    scale: Option<u32>,
    bias: Option<u32>,
) -> bool {
    exists|q: Form, s: Form, bits: u32|
        {
            &&& #[trigger] is_standardized(
                q,
                given(n, m, op, 0),
                bits,
                epsilon,
                element(graph, op.inputs@[0]),
            )
            &&& forall|axis: u32|
                axis < 32 ==> ((#[trigger] (bits >> axis)) & 1 == 1 <==> axes.contains(axis))
            &&& #[trigger] combined_on(
                end,
                s,
                q,
                ElementWiseOperation::kPROD,
                n,
                m,
                scale,
                axes,
            )
            &&& combined_on(end, r, s, ElementWiseOperation::kSUM, n, m, bias, axes)
        }
}

/// The options of a layer normalization, or those that stand for none: neither scale nor bias, no axes,
/// and the guard 0.00001.
pub open spec fn layer_asked(options: Option<MLLayerNormalizationOptions>, o: MLLayerNormalizationOptions) -> bool {
    match options {
        Some(given) => given == o,
        None => {
            &&& o.scale is None && o.bias is None
            &&& o.axes is None
            &&& o.epsilon == (Scalar { single: 0x3727_C5AC, half: 0x00A8 })
        },
    }
}

/// A layer normalization is `(x - mean) / sqrt(variance + epsilon) * scale + bias` with the epsilon,
/// the scale and the bias of the options, and with the mean and the variance over the axes that the
/// options list or, where they list none, over all but the first. The axes of the scale and of the
/// bias stand at those axes of the input, in the order of the list.
pub proof fn layer_normalization_follows_options(
    n: Run,
    m: Map<u32, Tensor>,
    graph: GraphInfo,
    op: Operation,
    promoted: Set<u32>,
    options: Option<MLLayerNormalizationOptions>,
    o: MLLayerNormalizationOptions,
)
    requires
        layer_asked(options, o),
        went_through(n, m, operation_added(n, m, graph, op, promoted)),
        op.kind == (OperationKind::LayerNormalization { options }),
        o.axes is Some ==> o.axes->0@.len() > 0 && o.axes->0@.no_duplicates()
            && o.axes->0@.len() <= i32::MAX,
        o.axes is None ==> reported(n, m[op.inputs@[0]]).len() > 1,
        0 < reported(n, m[op.inputs@[0]]).len() <= i32::MAX,
    ensures
        is_layer_normal(
            operation_added(n, m, graph, op, promoted).0,
            made(op, operation_added(n, m, graph, op, promoted)),
            n,
            m,
            graph,
            op,
            match o.axes {
                Some(axes) => axes@,
                None => Seq::new(
                    (reported(n, m[op.inputs@[0]]).len() - 1) as nat,
                    |i: int| (i + 1) as u32,
                ),
            },
            o.epsilon,
            o.scale,
            o.bias,
        ),
{
    layer_normalization_is_added(n, m, graph, op, promoted);
    let rank = reported(n, m[op.inputs@[0]]).len();
    let axes = layer_axes(layer_options(op.kind).3, rank);
    if o.axes is None {
        assert(axes =~= Seq::new((rank - 1) as nat, |i: int| (i + 1) as u32));
    }
    layer_normal(n, m, graph, op, axes);
}

proof fn layer_normal(
    n: Run,
    m: Map<u32, Tensor>,
    graph: GraphInfo,
    op: Operation,
    axes: Seq<u32>,
)
    requires
        went_through(n, m, layer_normalization_op(n, m, graph, op)),
        axes == layer_axes(layer_options(op.kind).3, reported(n, m[op.inputs@[0]]).len()),
        axes.len() > 0,
        axes.no_duplicates(),
        axes.len() <= i32::MAX,
        reported(n, m[op.inputs@[0]]).len() > 0,
    ensures
        is_layer_normal(
            layer_normalization_op(n, m, graph, op).0,
            made(op, layer_normalization_op(n, m, graph, op)),
            n,
            m,
            graph,
            op,
            axes,
            layer_options(op.kind).2,
            layer_options(op.kind).0,
            layer_options(op.kind).1,
        ),
{
    broadcast use {
        group_grows, group_forms, grows_mask, grows_layer_normalized, grows_layer_parameter,
    };

    reveal(Run::dims);
    let x = m[op.inputs@[0]];
    let end = layer_normalization_op(n, m, graph, op).0;
    let (scale, bias, epsilon, _) = layer_options(op.kind);
    let (z, bits) = mask(n, axes);
    let (a, t) = layer_normalized(z, graph, op, x, bits, epsilon);
    let (b, p) = match scale {
        Some(id) => layer_parameter(a, m[id], t, "scale"@, axes),
        None => (a, t),
    };
    let (c, u) = match scale {
        Some(_) => b.elementwise(
            t,
            p,
            ElementWiseOperation::kPROD,
            "Failed to add scale: "@,
            "Failed to get mul output: "@,
        ),
        None => (a, t),
    };
    let (d, q) = match bias {
        Some(id) => layer_parameter(c, m[id], u, "bias"@, axes),
        None => (c, u),
    };
    let (e, v) = match bias {
        Some(_) => d.elementwise(
            u,
            q,
            ElementWiseOperation::kSUM,
            "Failed to add bias: "@,
            "Failed to get add output: "@,
        ),
        None => (c, u),
    };
    assert(end.grows(e) && e.goes_on());
    assert(e.grows(d) && d.goes_on());
    assert(d.grows(c) && c.goes_on());
    assert(c.grows(b) && b.goes_on());
    assert(b.grows(a) && a.goes_on());
    assert(z.goes_on());
    assert(z == n);
    assert(n.has(x));
    forms_layer_normalized(n, graph, op, x, bits, epsilon);
    assert forall|axis: u32| axis < 32 implies ((#[trigger] (bits >> axis)) & 1 == 1
        <==> axes.contains(axis)) by {
        mask_holds_axes(axes, axis);
    }
    assert(a.grows(n) && c.grows(n) && end.grows(n) && end.grows(a) && end.grows(c));
    assert(a.replies == n.replies && c.replies == n.replies && end.replies == n.replies) by {
        reveal(Run::grows);
    }
    form_is_kept(a, end, t);
    let quotient = a.form(t);
    let scaled = c.form(u);
    if let Some(id) = scale {
        assert(n.has(m[id]));
        form_is_kept(n, a, m[id]);
        form_is_kept(a, b, t);
        if reported(a, t).len() <= u32::MAX {
            forms_layer_parameter(a, m[id], t, "scale"@, axes);
        } else {
            parameter_is_had(a, m[id], t, "scale"@, axes);
        }
        assert(reported(end, t) == reported(a, t));
    }
    assert(combined_on(end, scaled, quotient, ElementWiseOperation::kPROD, n, m, scale, axes));
    form_is_kept(c, end, u);
    let r = made(op, layer_normalization_op(n, m, graph, op));
    if let Some(id) = bias {
        assert(n.has(m[id]));
        form_is_kept(n, c, m[id]);
        form_is_kept(c, d, u);
        if reported(c, u).len() <= u32::MAX {
            forms_layer_parameter(c, m[id], u, "bias"@, axes);
        } else {
            parameter_is_had(c, m[id], u, "bias"@, axes);
        }
        assert(reported(end, u) == reported(c, u));
    }
    assert(r == e.form(v));
    assert(combined_on(end, r, scaled, ElementWiseOperation::kSUM, n, m, bias, axes));
    assert(is_standardized(
        quotient,
        given(n, m, op, 0),
        bits,
        epsilon,
        element(graph, op.inputs@[0]),
    ));
}

proof fn parameter_is_had(
    n: Run,
    tensor: Tensor,
    result: Tensor,
    op_name: Seq<char>,
    axes: Seq<u32>,
)
    requires
        layer_parameter(n, tensor, result, op_name, axes).0.goes_on(),
        n.has(tensor),
    ensures
        layer_parameter(n, tensor, result, op_name, axes).0.has(
            layer_parameter(n, tensor, result, op_name, axes).1,
        ),
{
    broadcast use {
        group_grows, group_forms, earlier_is, grows_stopped, went_on, grows_step_output,
    };

    reveal(layer_parameter);
    reveal(Run::output);
    reveal(Run::ask);
}

} // verus!
