//! Normalizations.

use crate::data_type::DataType;
use crate::graph::GraphInfo;
use crate::operator_options::MLBatchNormalizationOptions;
use crate::operators::{Operation, OperationKind};
use crate::scalar::{float_bytes, float_type, repeated, Scalar};
use crate::trtx::forms::{
    earlier_is, form_is_kept, group_forms, layer_is_new, layer_is_set, shaped, tell_sets, Form,
};
use crate::trtx::geometry::{given, made};
use crate::trtx::growth::{
    group_grows, grows_channel_stats, grows_elements, grows_guarded_variance,
    grows_step_named_layer, grows_step_output, grows_stopped,
};
use crate::trtx::laws::kinds::batch_normalization_is_added;
use crate::trtx::laws::words::{
    bytes_repeat, element, filled_with_is_numbers, float_bytes_hold, numbers_for, reported,
};
use crate::trtx::meaning::{went_on, went_through};
use crate::trtx::network::operation_added;
use crate::trtx::normalization::{
    batch_axis, batch_epsilon, batch_normalization_op, batch_scale_bias, channel_first,
    channel_stats, channels, guarded_variance, spike,
};
use crate::trtx::session::{RequestOf, Run};
use crate::trtx::shapes::{elements, moved_axis, signed_product, swapped_axes};
use crate::trtx::types::{ElementWiseOperation, Layer, Tensor, UnaryOperation};
use vstd::prelude::*;

verus! {

/// The dimensions of a form that was made of another, which has the dimensions `own`, by turning and
/// reshaping it.
pub open spec fn dims_over(to: Form, from: Form, own: Seq<i64>) -> Seq<i64>
    decreases to,
{
    if to == from {
        own
    } else {
        match to {
            Form::Turned(order, f) => {
                let d = dims_over(*f, from, own);
                Seq::new(order.len(), |i: int| d[order[i] as int])
            },
            Form::Reshaped(dims, _) => dims,
            _ => own,
        }
    }
}

/// Whether a form was made of another by turning and reshaping it alone.
pub open spec fn is_moved(to: Form, from: Form) -> bool
    decreases to,
{
    to == from || match to {
        Form::Turned(_, f) => is_moved(*f, from),
        Form::Reshaped(_, f) => is_moved(*f, from),
        _ => false,
    }
}

/// Whether a form holds the elements of another along one of so many axes: every other axis has the
/// extent 1.
pub open spec fn lies_along(to: Form, from: Form, own: Seq<i64>, rank: nat, axis: int) -> bool {
    let d = dims_over(to, from, own);
    &&& is_moved(to, from)
    &&& d.len() == rank
    &&& forall|i: int| 0 <= i < rank && i != axis ==> #[trigger] d[i] == 1
    &&& own.len() == 1 && own[0] > 0 ==> d[axis] == own[0]
}

/// Whether a form is another combined with a parameter that lies along an axis of it.
pub open spec fn combined_along(
    end: Run,
    to: Form,
    from: Form,
    code: ElementWiseOperation,
    parameter: Form,
    own: Seq<i64>,
    axis: int,
) -> bool {
    match to {
        Form::Elementwise(c, a, p) => c == code && *a == from && exists|t: Tensor|
            end.form(t) == from && (axis < (#[trigger] reported(end, t)).len() <= i32::MAX
                ==> lies_along(
                *p,
                parameter,
                own,
                reported(end, t).len(),
                axis,
            )),
        _ => false,
    }
}

/// Whether a form is a constant that holds a number over and over.
pub open spec fn is_filled(f: Form, x: Scalar, t: DataType) -> bool {
    match f {
        Form::Constant(_, bytes, ty) => ty == numbers_for(t) && exists|count: nat| #[trigger]
            bytes_repeat(bytes, x, t, count),
        _ => false,
    }
}

/// Whether a form is `(x - mean) / sqrt(variance + guard)`.
pub open spec fn is_quotient(f: Form, x: Form, mean: Form, variance: Form, guard: Form) -> bool {
    f == Form::Elementwise(
        ElementWiseOperation::kDIV,
        Box::new(Form::Elementwise(ElementWiseOperation::kSUB, Box::new(x), Box::new(mean))),
        Box::new(
            Form::Unary(
                UnaryOperation::kSQRT,
                Box::new(
                    Form::Elementwise(
                        ElementWiseOperation::kSUM,
                        Box::new(variance),
                        Box::new(guard),
                    ),
                ),
            ),
        ),
    )
}

broadcast proof fn forms_named_elementwise(
    n: Run,
    a: Tensor,
    b: Tensor,
    op: ElementWiseOperation,
    name: Seq<char>,
    add_label: Seq<char>,
    output_label: Seq<char>,
)
    requires
        n.named_layer(
            RequestOf::AddElementwise { a, b, op },
            name,
            add_label,
            output_label,
        ).0.goes_on(),
        n.has(a),
        n.has(b),
    ensures
        ({
            let (after, t) = #[trigger] n.named_layer(
                RequestOf::AddElementwise { a, b, op },
                name,
                add_label,
                output_label,
            );
            after.has(t) && after.form(t) == Form::Elementwise(
                op,
                Box::new(n.form(a)),
                Box::new(n.form(b)),
            )
        }),
{
    broadcast use {group_grows, grows_stopped, grows_step_output, went_on, earlier_is};

    reveal(Run::named_layer);
    reveal(shaped);
    let request = RequestOf::AddElementwise { a, b, op };
    let (r, l) = n.ask(request, add_label);
    let set = RequestOf::SetLayerName { layer: Layer { id: l }, name };
    let s = r.tell(set);
    layer_is_new(n, request, add_label);
    tell_sets(r, set, l);
    layer_is_set(s, l, output_label);
    form_is_kept(n, s, a);
    form_is_kept(n, s, b);
}

broadcast proof fn forms_named_unary(
    n: Run,
    input: Tensor,
    op: UnaryOperation,
    name: Seq<char>,
    add_label: Seq<char>,
    output_label: Seq<char>,
)
    requires
        n.named_layer(
            RequestOf::AddUnary { input, op },
            name,
            add_label,
            output_label,
        ).0.goes_on(),
        n.has(input),
    ensures
        ({
            let (after, t) = #[trigger] n.named_layer(
                RequestOf::AddUnary { input, op },
                name,
                add_label,
                output_label,
            );
            after.has(t) && after.form(t) == Form::Unary(op, Box::new(n.form(input)))
        }),
{
    broadcast use {group_grows, grows_stopped, grows_step_output, went_on, earlier_is};

    reveal(Run::named_layer);
    reveal(shaped);
    let request = RequestOf::AddUnary { input, op };
    let (r, l) = n.ask(request, add_label);
    let set = RequestOf::SetLayerName { layer: Layer { id: l }, name };
    let s = r.tell(set);
    layer_is_new(n, request, add_label);
    tell_sets(r, set, l);
    layer_is_set(s, l, output_label);
    form_is_kept(n, s, input);
}

/// A form is not one that it was made of.
proof fn moved_differs(order: Seq<i32>, dims: Seq<i64>, f: Form)
    ensures
        Form::Turned(order, Box::new(f)) != f,
        Form::Reshaped(dims, Box::new(f)) != f,
        Form::Turned(order, Box::new(Form::Reshaped(dims, Box::new(f)))) != f,
{
    let a = Form::Turned(order, Box::new(f));
    let b = Form::Reshaped(dims, Box::new(f));
    let c = Form::Turned(order, Box::new(b));
    if a == f {
        assert(decreases_to!(a => *a->Turned_1));
    }
    if b == f {
        assert(decreases_to!(b => *b->Reshaped_1));
    }
    if c == f {
        assert(decreases_to!(c => *c->Turned_1));
        assert(decreases_to!(*c->Turned_1 => *b->Reshaped_1));
    }
}

/// Statistics by channel lie along the axis that they are brought to.
proof fn stats_lie_along(
    n: Run,
    stats: Tensor,
    input: Tensor,
    axis: i64,
    op_name: Seq<char>,
)
    requires
        channel_stats(n, stats, input, axis, op_name).0.goes_on(),
        n.has(stats),
        n.has(input),
        0 <= axis,
    ensures
        ({
            let (after, t) = channel_stats(n, stats, input, axis, op_name);
            let rank = reported(n, input).len();
            &&& after.has(t)
            &&& axis < rank <= i32::MAX ==> lies_along(
                after.form(t),
                n.form(stats),
                reported(n, stats),
                rank,
                axis as int,
            )
        }),
{
    broadcast use {group_grows, group_forms};

    reveal(channel_stats);
    reveal(Run::dims);
    let (after, t) = channel_stats(n, stats, input, axis, op_name);
    let f = n.form(stats);
    let di = reported(n, input);
    let ds = reported(n, stats);
    let rank = di.len();
    let at = moved_axis(axis as int, rank);
    let c = channels(ds) as i64;
    if axis < rank && rank <= i32::MAX {
        assert(at == axis);
        channels_of_one(ds);
        reveal_with_fuel(dims_over, 3);
        reveal_with_fuel(is_moved, 3);
        if channel_first(ds, rank, at, c as int) {
            let order = swapped_axes(rank, 0, at);
            moved_differs(order, seq![], f);
            assert(after.form(t) == Form::Turned(order, Box::new(f)));
            assert(dims_over(f, f, ds) == ds);
            let d = dims_over(after.form(t), f, ds);
            assert(d =~= Seq::new(order.len(), |i: int| ds[order[i] as int]));
            assert forall|i: int| 0 <= i < rank && i != axis implies #[trigger] d[i] == 1 by {
                assert(d[i] == ds[order[i] as int]);
                if i == 0 {
                    assert(order[i] == at as i32);
                    assert(at as i32 == at);
                } else {
                    assert(order[i] == i as i32);
                    assert(i as i32 == i);
                }
            }
        } else if ds.len() == 1 {
            let flat = spike(rank, rank - 1, c);
            let order = swapped_axes(rank, at, rank - 1);
            moved_differs(order, flat, f);
            let g = Form::Reshaped(flat, Box::new(f));
            assert(after.form(t) == Form::Turned(order, Box::new(g)));
            assert(dims_over(g, f, ds) == flat);
            let d = dims_over(after.form(t), f, ds);
            assert(d =~= Seq::new(order.len(), |i: int| flat[order[i] as int]));
            assert forall|i: int| 0 <= i < rank && i != axis implies #[trigger] d[i] == 1 by {
                assert(d[i] == flat[order[i] as int]);
            }
        } else {
            let dims = spike(rank, at, c);
            moved_differs(seq![], dims, f);
            assert(after.form(t) == Form::Reshaped(dims, Box::new(f)));
        }
    }
}

proof fn channels_of_one(d: Seq<i64>)
    ensures
        d.len() == 1 && d[0] > 0 ==> channels(d) == d[0],
        1 <= channels(d) <= i64::MAX,
{
    reveal_with_fuel(signed_product, 2);
}

proof fn forms_guarded_variance(
    n: Run,
    graph: GraphInfo,
    op: Operation,
    variance: Tensor,
    epsilon: Scalar,
) -> (guard: Form)
    requires
        guarded_variance(n, graph, op, variance, epsilon).0.goes_on(),
        n.has(variance),
    ensures
        ({
            let (after, t) = guarded_variance(n, graph, op, variance, epsilon);
            &&& after.has(t)
            &&& after.form(t) == Form::Elementwise(
                ElementWiseOperation::kSUM,
                Box::new(n.form(variance)),
                Box::new(guard),
            )
            &&& is_filled(guard, epsilon, element(graph, op.inputs@[0]))
        }),
{
    broadcast use {group_grows, group_forms, grows_elements};

    reveal(guarded_variance);
    let (a, dv) = n.dims(variance, "BatchNorm: failed to get variance dimensions: "@);
    let dt = element(graph, op.inputs@[0]);
    let count = elements(a, dv).1;
    filled_with_is_numbers(epsilon, dt, count);
    float_bytes_hold(epsilon, dt);
    let bytes = repeated(float_bytes(epsilon, dt), count);
    assert(bytes_repeat(bytes, epsilon, dt, count));
    let guard = Form::Constant(dv, bytes, float_type(dt));
    assert(bytes_repeat(guard->Constant_1, epsilon, dt, count));
    guard
}

/// Whether a form is `(x - mean) / sqrt(variance + epsilon) * scale + bias`, with the mean, the
/// variance, the scale and the bias along an axis.
pub open spec fn is_batch_normal(
    end: Run,
    n: Run,
    m: Map<u32, Tensor>,
    graph: GraphInfo,
    op: Operation,
    r: Form,
    axis: int,
    epsilon: Scalar,
    scale: Option<u32>,
    bias: Option<u32>,
) -> bool {
    let rank = reported(n, m[op.inputs@[0]]).len();
    exists|mean: Form, variance: Form, guard: Form, q: Form, s: Form|
        {
            &&& #[trigger] is_quotient(q, given(n, m, op, 0), mean, variance, guard)
            &&& #[trigger] is_normal(end, n, m, q, s, r, scale, bias, axis)
            &&& is_filled(guard, epsilon, element(graph, op.inputs@[0]))
            &&& axis < rank <= i32::MAX ==> lies_along(
                mean,
                given(n, m, op, 1),
                reported(n, m[op.inputs@[1]]),
                rank,
                axis,
            )
            &&& axis < rank <= i32::MAX ==> lies_along(
                variance,
                given(n, m, op, 2),
                reported(n, m[op.inputs@[2]]),
                rank,
                axis,
            )
        }
}

proof fn batch_normal(n: Run, m: Map<u32, Tensor>, graph: GraphInfo, op: Operation)
    requires
        went_through(n, m, batch_normalization_op(n, m, graph, op)),
    ensures
        is_batch_normal(
            batch_normalization_op(n, m, graph, op).0,
            n,
            m,
            graph,
            op,
            made(op, batch_normalization_op(n, m, graph, op)),
            batch_axis(op.kind) as int,
            batch_epsilon(op.kind),
            batch_scale_bias(op.kind).0,
            batch_scale_bias(op.kind).1,
        ),
{
    broadcast use {
        group_grows, group_forms, grows_channel_stats, grows_guarded_variance,
        grows_step_named_layer, forms_named_elementwise, forms_named_unary,
    };

    let axis = batch_axis(op.kind);
    let epsilon = batch_epsilon(op.kind);
    let (scale, bias) = batch_scale_bias(op.kind);
    let x = m[op.inputs@[0]];
    let end = batch_normalization_op(n, m, graph, op).0;
    let (a, mean) = channel_stats(n, m[op.inputs@[1]], x, axis, "batch_norm_sub"@);
    let (b, centered) = a.named_layer(
        RequestOf::AddElementwise { a: x, b: mean, op: ElementWiseOperation::kSUB },
        "batch_norm_sub"@,
        "Failed to add sub for batch norm: "@,
        "Failed to get sub output: "@,
    );
    let (c, variance) = channel_stats(b, m[op.inputs@[2]], x, axis, "batch_norm_var"@);
    let (d, guarded) = guarded_variance(c, graph, op, variance, epsilon);
    let (e, deviation) = d.named_layer(
        RequestOf::AddUnary { input: guarded, op: UnaryOperation::kSQRT },
        "batch_norm_sqrt_var"@,
        "Failed to add sqrt for batch norm: "@,
        "Failed to get sqrt output: "@,
    );
    let (f, t) = e.named_layer(
        RequestOf::AddElementwise { a: centered, b: deviation, op: ElementWiseOperation::kDIV },
        "batch_norm_div"@,
        "Failed to add div for batch norm: "@,
        "Failed to get div output: "@,
    );
    let (g, p) = match scale {
        Some(id) => channel_stats(f, m[id], t, axis, "batch_norm_scale"@),
        None => (f, t),
    };
    let (h, u) = match scale {
        Some(_) => g.named_layer(
            RequestOf::AddElementwise { a: t, b: p, op: ElementWiseOperation::kPROD },
            "batch_norm_scale_mul"@,
            "Failed to add mul for scale: "@,
            "Failed to get mul output: "@,
        ),
        None => (f, t),
    };
    let (k, q) = match bias {
        Some(id) => channel_stats(h, m[id], u, axis, "batch_norm_bias"@),
        None => (h, u),
    };
    let (l, v) = match bias {
        Some(_) => k.named_layer(
            RequestOf::AddElementwise { a: u, b: q, op: ElementWiseOperation::kSUM },
            "batch_norm_bias_add"@,
            "Failed to add bias: "@,
            "Failed to get add output: "@,
        ),
        None => (h, u),
    };
    assert(end.grows(l) && l.goes_on());
    assert(l.grows(k) && k.goes_on());
    assert(k.grows(h) && h.goes_on());
    assert(h.grows(g) && g.goes_on());
    assert(g.grows(f) && f.goes_on());
    assert(e.goes_on() && d.goes_on() && c.goes_on() && b.goes_on() && a.goes_on());
    assert(n.has(x) && n.has(m[op.inputs@[1]]) && n.has(m[op.inputs@[2]]));
    assert(b.grows(n) && f.grows(n) && h.grows(n) && end.grows(n));
    form_is_kept(n, b, m[op.inputs@[2]]);
    form_is_kept(n, b, x);
    form_is_kept(n, a, x);
    replies_stay(n, b);
    replies_stay(n, f);
    replies_stay(n, h);
    replies_stay(n, end);
    stats_lie_along(n, m[op.inputs@[1]], x, axis, "batch_norm_sub"@);
    stats_lie_along(b, m[op.inputs@[2]], x, axis, "batch_norm_var"@);
    let guard = forms_guarded_variance(c, graph, op, variance, epsilon);
    let quotient = f.form(t);
    assert(is_quotient(quotient, n.form(x), a.form(mean), c.form(variance), guard));
    if let Some(id) = scale {
        assert(n.has(m[id]));
        form_is_kept(n, f, m[id]);
        stats_lie_along(f, m[id], t, axis, "batch_norm_scale"@);
    }
    let scaled = h.form(u);
    if let Some(id) = bias {
        assert(n.has(m[id]));
        form_is_kept(n, h, m[id]);
        stats_lie_along(h, m[id], u, axis, "batch_norm_bias"@);
    }
    form_is_kept(f, end, t);
    form_is_kept(h, end, u);
    let made = made(op, batch_normalization_op(n, m, graph, op));
    assert(made == l.form(v));
    if let Some(id) = scale {
        assert(reported(end, t) == reported(f, t));
        assert(scaled == Form::Elementwise(
            ElementWiseOperation::kPROD,
            Box::new(quotient),
            Box::new(g.form(p)),
        ));
        assert(combined_along(
            end,
            scaled,
            quotient,
            ElementWiseOperation::kPROD,
            n.form(m[id]),
            reported(n, m[id]),
            axis as int,
        ));
    }
    if let Some(id) = bias {
        assert(reported(end, u) == reported(h, u));
        assert(made == Form::Elementwise(
            ElementWiseOperation::kSUM,
            Box::new(scaled),
            Box::new(k.form(q)),
        ));
        assert(combined_along(
            end,
            made,
            scaled,
            ElementWiseOperation::kSUM,
            n.form(m[id]),
            reported(n, m[id]),
            axis as int,
        ));
    }
    assert(is_normal(end, n, m, quotient, scaled, made, scale, bias, axis as int));
    assert(is_quotient(quotient, given(n, m, op, 0), a.form(mean), c.form(variance), guard));
}

/// A batch normalization is `(x - mean) / sqrt(variance + epsilon) * scale + bias`. The mean, the
/// variance, the scale and the bias lie along the axis that the options name: they enter with their
/// elements along that axis and the extent 1 along every other. Epsilon, the scale and the bias are
/// those of the options; where no scale or bias is named, there is none.
pub proof fn batch_normalization_follows_options(
    n: Run,
    m: Map<u32, Tensor>,
    graph: GraphInfo,
    op: Operation,
    promoted: Set<u32>,
    options: Option<MLBatchNormalizationOptions>,
)
    requires
        went_through(n, m, operation_added(n, m, graph, op, promoted)),
        op.kind == (OperationKind::BatchNormalization { options }),
    ensures
        ({
            let axis = match options {
                Some(o) => o.axis as int,
                None => 1,
            };
            let epsilon = match options {
                Some(o) => o.epsilon,
                None => (Scalar { single: 0x3727_C5AC, half: 0x00A8 }),
            };
            let scale = match options {
                Some(o) => o.scale,
                None => None,
            };
            let bias = match options {
                Some(o) => o.bias,
                None => None,
            };
            is_batch_normal(
                operation_added(n, m, graph, op, promoted).0,
                n,
                m,
                graph,
                op,
                made(op, operation_added(n, m, graph, op, promoted)),
                axis,
                epsilon,
                scale,
                bias,
            )
        }),
{
    batch_normalization_is_added(n, m, graph, op, promoted);
    batch_normal(n, m, graph, op);
}

proof fn replies_stay(n: Run, after: Run)
    requires
        after.grows(n),
    ensures
        after.replies == n.replies,
{
    reveal(Run::grows);
}

/// Whether a form is a quotient times a scale plus a bias, where these are named.
pub open spec fn is_normal(
    end: Run,
    n: Run,
    m: Map<u32, Tensor>,
    q: Form,
    s: Form,
    r: Form,
    scale: Option<u32>,
    bias: Option<u32>,
    axis: int,
) -> bool {
    &&& match scale {
        Some(id) => combined_along(
            end,
            s,
            q,
            ElementWiseOperation::kPROD,
            n.form(m[id]),
            reported(n, m[id]),
            axis,
        ),
        None => s == q,
    }
    &&& match bias {
        Some(id) => combined_along(
            end,
            r,
            s,
            ElementWiseOperation::kSUM,
            n.form(m[id]),
            reported(n, m[id]),
            axis,
        ),
        None => r == s,
    }
}

} // verus!
