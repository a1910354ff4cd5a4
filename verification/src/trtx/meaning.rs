//! What the tensors of a network are computed from, and the formulas that operations compute.

use crate::data_type::DataType;
use crate::graph::GraphInfo;
use crate::operators::Operation;
use crate::scalar::{
    float_bytes, float_type, known, near_one, roughly_one_fifth, roughly_one_half, Known, Scalar,
};
use crate::trtx::broadcast::broadcast_pair;
use crate::trtx::elementwise::{
    comparison_op, elementwise_op, elu_alpha, elu_op, greater_or_equal_op,
    hard_sigmoid_coefficients, hard_sigmoid_op, hard_swish_op, is_nan_op, leaky_alpha,
    leaky_relu_op, lesser_or_equal_op, not_equal_op,
};
use crate::trtx::growth::{
    group_grows, grows_broadcast_pair, grows_scalar_shape, grows_step_activation,
    grows_step_add_constant, grows_step_cast, grows_step_constant, grows_step_elementwise,
    grows_step_identity, grows_step_layer, grows_step_output, grows_step_reduce,
    grows_step_reshape, grows_step_resize, grows_step_unary, grows_stopped,
};
use crate::trtx::session::{RequestOf, RequestView, Run, WeightsOf};
use crate::trtx::types::{
    ActivationType, ElementWiseOperation, Layer, MatrixOperation, PoolingType, ReduceOperation,
    Tensor, TrtDataType, UnaryOperation,
};
use vstd::prelude::*;

verus! {

/// How the elements of a tensor are computed. Copies are left out, and so are the layers that only
/// choose, move or repeat elements.
pub enum Term {
    /// The tensor that answered the request at this position, of which no more is said.
    Source(usize),
    /// A constant with these bytes.
    Constant(Seq<u8>, TrtDataType),
    Cast(TrtDataType, Box<Term>),
    Unary(UnaryOperation, Box<Term>),
    Activation(ActivationType, Box<Term>),
    Elementwise(ElementWiseOperation, Box<Term>, Box<Term>),
    Reduce(ReduceOperation, u32, Box<Term>),
    /// The second term times the first where the first is negative, else the first.
    Sloped(Box<Term>, Box<Term>),
    /// The product of two matrices, each as it is or transposed.
    MatrixProduct(MatrixOperation, Box<Term>, MatrixOperation, Box<Term>),
    /// The first term, which holds integers, times the second.
    Dequantized(Box<Term>, Box<Term>),
    /// The second term where the first is true, else the third.
    Selected(Box<Term>, Box<Term>, Box<Term>),
    /// A term pooled over windows of this height and width.
    Pooled(PoolingType, (i64, i64), Box<Term>),
    /// Elements of the first term, at the places along an axis that the second names.
    Gathered(i32, Box<Term>, Box<Term>),
}

/// The term of the tensor that answered the request at `at`.
pub open spec fn term(log: Seq<RequestView>, at: usize) -> Term
    decreases at,
{
    if at >= log.len() {
        Term::Source(at)
    } else {
        match log[at as int] {
            RequestOf::Output { layer, .. } => if layer.id >= at {
                Term::Source(at)
            } else {
                match log[layer.id as int] {
                    RequestOf::AddConstant { weights: WeightsOf::Bytes(bytes), dtype, .. } =>
                        Term::Constant(bytes, dtype),
                    RequestOf::AddIdentity { input } => if input.id < at {
                        term(log, input.id)
                    } else {
                        Term::Source(at)
                    },
                    RequestOf::AddShuffle { input } => if input.id < at {
                        term(log, input.id)
                    } else {
                        Term::Source(at)
                    },
                    RequestOf::AddResize { input } => if input.id < at {
                        term(log, input.id)
                    } else {
                        Term::Source(at)
                    },
                    RequestOf::AddCast { input, dtype } => if input.id < at {
                        Term::Cast(dtype, Box::new(term(log, input.id)))
                    } else {
                        Term::Source(at)
                    },
                    RequestOf::AddUnary { input, op } => if input.id < at {
                        Term::Unary(op, Box::new(term(log, input.id)))
                    } else {
                        Term::Source(at)
                    },
                    RequestOf::AddActivation { input, kind } => if input.id < at {
                        Term::Activation(kind, Box::new(term(log, input.id)))
                    } else {
                        Term::Source(at)
                    },
                    RequestOf::AddReduce { input, op, axes, .. } => if input.id < at {
                        Term::Reduce(op, axes, Box::new(term(log, input.id)))
                    } else {
                        Term::Source(at)
                    },
                    RequestOf::AddElementwise { a, b, op } => if a.id < at && b.id < at {
                        Term::Elementwise(
                            op,
                            Box::new(term(log, a.id)),
                            Box::new(term(log, b.id)),
                        )
                    } else {
                        Term::Source(at)
                    },
                    RequestOf::AddParametricRelu { input, slope } => if input.id < at && slope.id
                        < at {
                        Term::Sloped(
                            Box::new(term(log, input.id)),
                            Box::new(term(log, slope.id)),
                        )
                    } else {
                        Term::Source(at)
                    },
                    RequestOf::AddMatrixMultiply { a, op_a, b, op_b } => if a.id < at && b.id < at {
                        Term::MatrixProduct(
                            op_a,
                            Box::new(term(log, a.id)),
                            op_b,
                            Box::new(term(log, b.id)),
                        )
                    } else {
                        Term::Source(at)
                    },
                    RequestOf::AddSelect { condition, on_true, on_false } => if condition.id < at
                        && on_true.id < at && on_false.id < at {
                        Term::Selected(
                            Box::new(term(log, condition.id)),
                            Box::new(term(log, on_true.id)),
                            Box::new(term(log, on_false.id)),
                        )
                    } else {
                        Term::Source(at)
                    },
                    RequestOf::AddPooling { input, kind, window } => if input.id < at {
                        Term::Pooled(kind, window, Box::new(term(log, input.id)))
                    } else {
                        Term::Source(at)
                    },
                    RequestOf::AddGather { data, indices, axis } => if data.id < at && indices.id
                        < at {
                        Term::Gathered(
                            axis,
                            Box::new(term(log, data.id)),
                            Box::new(term(log, indices.id)),
                        )
                    } else {
                        Term::Source(at)
                    },
                    RequestOf::AddDequantize { input, scale, .. } => if input.id < at && scale.id < at {
                        Term::Dequantized(
                            Box::new(term(log, input.id)),
                            Box::new(term(log, scale.id)),
                        )
                    } else {
                        Term::Source(at)
                    },
                    _ => Term::Source(at),
                }
            },
            _ => Term::Source(at),
        }
    }
}

impl Run {
    /// The term of a tensor.
    pub open spec fn term(self, t: Tensor) -> Term {
        term(self.requests, t.id)
    }

    /// Whether a tensor answered a request that was made.
    pub open spec fn has(self, t: Tensor) -> bool {
        t.id < self.requests.len()
    }

    /// Whether the conversation goes on, with no more requests than positions can number.
    pub open spec fn goes_on(self) -> bool {
        self.halt is None && self.requests.len() <= usize::MAX
    }
}

/// What the output of a layer that is added now is computed from.
pub open spec fn computed(n: Run, request: RequestView) -> Option<Term> {
    match request {
        RequestOf::AddConstant { weights: WeightsOf::Bytes(bytes), dtype, .. } => Some(
            Term::Constant(bytes, dtype),
        ),
        RequestOf::AddIdentity { input } => if n.has(input) {
            Some(n.term(input))
        } else {
            None
        },
        RequestOf::AddShuffle { input } => if n.has(input) {
            Some(n.term(input))
        } else {
            None
        },
        RequestOf::AddResize { input } => if n.has(input) {
            Some(n.term(input))
        } else {
            None
        },
        RequestOf::AddCast { input, dtype } => if n.has(input) {
            Some(Term::Cast(dtype, Box::new(n.term(input))))
        } else {
            None
        },
        RequestOf::AddUnary { input, op } => if n.has(input) {
            Some(Term::Unary(op, Box::new(n.term(input))))
        } else {
            None
        },
        RequestOf::AddActivation { input, kind } => if n.has(input) {
            Some(Term::Activation(kind, Box::new(n.term(input))))
        } else {
            None
        },
        RequestOf::AddReduce { input, op, axes, .. } => if n.has(input) {
            Some(Term::Reduce(op, axes, Box::new(n.term(input))))
        } else {
            None
        },
        RequestOf::AddElementwise { a, b, op } => if n.has(a) && n.has(b) {
            Some(Term::Elementwise(op, Box::new(n.term(a)), Box::new(n.term(b))))
        } else {
            None
        },
        RequestOf::AddParametricRelu { input, slope } => if n.has(input) && n.has(slope) {
            Some(Term::Sloped(Box::new(n.term(input)), Box::new(n.term(slope))))
        } else {
            None
        },
        RequestOf::AddSelect { condition, on_true, on_false } => if n.has(condition) && n.has(
            on_true,
        ) && n.has(on_false) {
            Some(
                Term::Selected(
                    Box::new(n.term(condition)),
                    Box::new(n.term(on_true)),
                    Box::new(n.term(on_false)),
                ),
            )
        } else {
            None
        },
        RequestOf::AddPooling { input, kind, window } => if n.has(input) {
            Some(Term::Pooled(kind, window, Box::new(n.term(input))))
        } else {
            None
        },
        RequestOf::AddGather { data, indices, axis } => if n.has(data) && n.has(indices) {
            Some(Term::Gathered(axis, Box::new(n.term(data)), Box::new(n.term(indices))))
        } else {
            None
        },
        RequestOf::AddDequantize { input, scale, .. } => if n.has(input) && n.has(scale) {
            Some(Term::Dequantized(Box::new(n.term(input)), Box::new(n.term(scale))))
        } else {
            None
        },
        RequestOf::AddMatrixMultiply { a, op_a, b, op_b } => if n.has(a) && n.has(b) {
            Some(Term::MatrixProduct(op_a, Box::new(n.term(a)), op_b, Box::new(n.term(b))))
        } else {
            None
        },
        _ => None,
    }
}

/// Whether a term is what a layer that is added now computes, where that is known.
pub open spec fn is_computed(n: Run, request: RequestView, t: Term) -> bool {
    computed(n, request) is Some ==> t == computed(n, request)->0
}

/// The positions of the tensors that a layer computes on.
spec fn inputs_of(request: RequestView) -> (usize, usize, usize) {
    match request {
        RequestOf::AddIdentity { input } => (input.id, input.id, input.id),
        RequestOf::AddShuffle { input } => (input.id, input.id, input.id),
        RequestOf::AddResize { input } => (input.id, input.id, input.id),
        RequestOf::AddCast { input, .. } => (input.id, input.id, input.id),
        RequestOf::AddUnary { input, .. } => (input.id, input.id, input.id),
        RequestOf::AddActivation { input, .. } => (input.id, input.id, input.id),
        RequestOf::AddReduce { input, .. } => (input.id, input.id, input.id),
        RequestOf::AddElementwise { a, b, .. } => (a.id, b.id, b.id),
        RequestOf::AddParametricRelu { input, slope } => (input.id, slope.id, slope.id),
        RequestOf::AddMatrixMultiply { a, b, .. } => (a.id, b.id, b.id),
        RequestOf::AddDequantize { input, scale, .. } => (input.id, scale.id, scale.id),
        RequestOf::AddPooling { input, .. } => (input.id, input.id, input.id),
        RequestOf::AddGather { data, indices, .. } => (data.id, indices.id, indices.id),
        RequestOf::AddSelect { condition, on_true, on_false } => (
            condition.id,
            on_true.id,
            on_false.id,
        ),
        _ => (0, 0, 0),
    }
}

/// A term depends on the requests up to its own alone.
proof fn term_of_prefix(log: Seq<RequestView>, longer: Seq<RequestView>, at: usize)
    requires
        log.len() <= longer.len(),
        longer.take(log.len() as int) == log,
        at < log.len(),
    ensures
        term(longer, at) == term(log, at),
    decreases at,
{
    assert forall|i: int| 0 <= i < log.len() implies #[trigger] longer[i] == log[i] by {
        assert(longer.take(log.len() as int)[i] == longer[i]);
    }
    if let RequestOf::Output { layer, .. } = log[at as int] {
        if layer.id < at {
            let (x, y, z) = inputs_of(log[layer.id as int]);
            assert(longer[layer.id as int] == log[layer.id as int]);
            if x < at {
                term_of_prefix(log, longer, x);
            }
            if y < at {
                term_of_prefix(log, longer, y);
            }
            if z < at {
                term_of_prefix(log, longer, z);
            }
        }
    }
}

pub(crate) broadcast proof fn term_is_kept(n: Run, after: Run, t: Tensor)
    requires
        #[trigger] after.grows(n),
        n.has(t),
    ensures
        #[trigger] after.term(t) == n.term(t),
        after.has(t),
{
    reveal(Run::grows);
    term_of_prefix(n.requests, after.requests, t.id);
}

pub(crate) broadcast proof fn went_on(n: Run, after: Run)
    requires
        #[trigger] after.grows(n),
        after.goes_on(),
    ensures
        n.goes_on(),
{
    reveal(Run::grows);
}

/// Adding a layer and taking its output makes two requests, and the second is the tensor.
proof fn layer_is_logged(n: Run, request: RequestView, add_label: Seq<char>, output_label: Seq<char>)
    ensures
        ({
            let (after, t) = n.layer(request, add_label, output_label);
            after.goes_on() ==> {
                &&& t.id == n.requests.len() + 1
                &&& after.requests == n.requests.push(request).push(
                    RequestOf::Output { layer: Layer { id: n.requests.len() as usize }, index: 0 },
                )
            }
        }),
{
    reveal(Run::layer);
    reveal(Run::output);
    reveal(Run::ask);
}

pub(crate) broadcast proof fn means_layer(
    n: Run,
    request: RequestView,
    add_label: Seq<char>,
    output_label: Seq<char>,
)
    requires
        n.layer(request, add_label, output_label).0.goes_on(),
    ensures
        ({
            let (after, t) = #[trigger] n.layer(request, add_label, output_label);
            &&& after.has(t)
            &&& is_computed(n, request, after.term(t))
        }),
{
    layer_is_logged(n, request, add_label, output_label);
    let (after, t) = n.layer(request, add_label, output_label);
    assert(after.requests.take(n.requests.len() as int) =~= n.requests);
    assert(after.requests[t.id as int] == RequestView::Output {
        layer: Layer { id: n.requests.len() as usize },
        index: 0,
    });
    assert(after.requests[n.requests.len() as int] == request);
    let (x, y, z) = inputs_of(request);
    if x < n.requests.len() {
        term_of_prefix(n.requests, after.requests, x);
    }
    if y < n.requests.len() {
        term_of_prefix(n.requests, after.requests, y);
    }
    if z < n.requests.len() {
        term_of_prefix(n.requests, after.requests, z);
    }
}

pub(crate) broadcast proof fn means_identity(
    n: Run,
    input: Tensor,
    add_label: Seq<char>,
    output_label: Seq<char>,
)
    requires
        n.identity(input, add_label, output_label).0.goes_on(),
    ensures
        ({
            let (after, t) = #[trigger] n.identity(input, add_label, output_label);
            &&& after.has(t)
            &&& is_computed(n, RequestOf::AddIdentity { input }, after.term(t))
        }),
{
    reveal(Run::identity);
    means_layer(n, RequestOf::AddIdentity { input }, add_label, output_label);
}

pub(crate) broadcast proof fn means_cast(
    n: Run,
    input: Tensor,
    dtype: TrtDataType,
    add_label: Seq<char>,
    output_label: Seq<char>,
)
    requires
        n.cast(input, dtype, add_label, output_label).0.goes_on(),
    ensures
        ({
            let (after, t) = #[trigger] n.cast(input, dtype, add_label, output_label);
            &&& after.has(t)
            &&& is_computed(n, RequestOf::AddCast { input, dtype }, after.term(t))
        }),
{
    reveal(Run::cast);
    means_layer(n, RequestOf::AddCast { input, dtype }, add_label, output_label);
}

pub(crate) broadcast proof fn means_unary(
    n: Run,
    input: Tensor,
    op: UnaryOperation,
    add_label: Seq<char>,
    output_label: Seq<char>,
)
    requires
        n.unary(input, op, add_label, output_label).0.goes_on(),
    ensures
        ({
            let (after, t) = #[trigger] n.unary(input, op, add_label, output_label);
            &&& after.has(t)
            &&& is_computed(n, RequestOf::AddUnary { input, op }, after.term(t))
        }),
{
    reveal(Run::unary);
    means_layer(n, RequestOf::AddUnary { input, op }, add_label, output_label);
}

pub(crate) broadcast proof fn means_activation(
    n: Run,
    input: Tensor,
    kind: ActivationType,
    add_label: Seq<char>,
    output_label: Seq<char>,
)
    requires
        n.activation(input, kind, add_label, output_label).0.goes_on(),
    ensures
        ({
            let (after, t) = #[trigger] n.activation(input, kind, add_label, output_label);
            &&& after.has(t)
            &&& is_computed(n, RequestOf::AddActivation { input, kind }, after.term(t))
        }),
{
    reveal(Run::activation);
    means_layer(n, RequestOf::AddActivation { input, kind }, add_label, output_label);
}

pub(crate) broadcast proof fn means_elementwise(
    n: Run,
    a: Tensor,
    b: Tensor,
    op: ElementWiseOperation,
    add_label: Seq<char>,
    output_label: Seq<char>,
)
    requires
        n.elementwise(a, b, op, add_label, output_label).0.goes_on(),
    ensures
        ({
            let (after, t) = #[trigger] n.elementwise(a, b, op, add_label, output_label);
            &&& after.has(t)
            &&& is_computed(n, RequestOf::AddElementwise { a, b, op }, after.term(t))
        }),
{
    reveal(Run::elementwise);
    means_layer(n, RequestOf::AddElementwise { a, b, op }, add_label, output_label);
}

pub(crate) broadcast proof fn means_reduce(
    n: Run,
    input: Tensor,
    op: ReduceOperation,
    axes: u32,
    keep_dims: bool,
    add_label: Seq<char>,
    output_label: Seq<char>,
)
    requires
        n.reduce(input, op, axes, keep_dims, add_label, output_label).0.goes_on(),
    ensures
        ({
            let (after, t) = #[trigger] n.reduce(
                input,
                op,
                axes,
                keep_dims,
                add_label,
                output_label,
            );
            &&& after.has(t)
            &&& is_computed(n, RequestOf::AddReduce { input, op, axes, keep_dims }, after.term(t))
        }),
{
    reveal(Run::reduce);
    means_layer(n, RequestOf::AddReduce { input, op, axes, keep_dims }, add_label, output_label);
}

pub(crate) broadcast proof fn means_add_constant(
    n: Run,
    dims: Seq<i64>,
    bytes: Seq<u8>,
    dtype: TrtDataType,
    label: Seq<char>,
)
    requires
        n.add_constant(dims, bytes, dtype, label).0.goes_on(),
    ensures
        ({
            let (after, l) = #[trigger] n.add_constant(dims, bytes, dtype, label);
            &&& l < after.requests.len()
            &&& holds_constant(after, l, bytes, dtype)
        }),
{
    reveal(Run::add_constant);
    reveal(Run::ask);
}

/// Whether the layer at `l` is a constant with these bytes.
pub open spec fn holds_constant(n: Run, l: usize, bytes: Seq<u8>, dtype: TrtDataType) -> bool {
    &&& l < n.requests.len()
    &&& n.requests[l as int] matches RequestOf::AddConstant {
        weights: WeightsOf::Bytes(b),
        dtype: t,
        ..
    } && b == bytes && t == dtype
}

pub(crate) broadcast proof fn constant_is_kept(
    n: Run,
    after: Run,
    l: usize,
    bytes: Seq<u8>,
    dtype: TrtDataType,
)
    requires
        #[trigger] after.grows(n),
        #[trigger] holds_constant(n, l, bytes, dtype),
    ensures
        holds_constant(after, l, bytes, dtype),
{
    reveal(Run::grows);
    assert(after.requests.take(n.requests.len() as int)[l as int] == after.requests[l as int]);
}

pub(crate) broadcast proof fn means_output(
    n: Run,
    l: usize,
    label: Seq<char>,
    bytes: Seq<u8>,
    dtype: TrtDataType,
)
    requires
        n.output(l, label).0.goes_on(),
        #[trigger] holds_constant(n, l, bytes, dtype),
    ensures
        (#[trigger] n.output(l, label)).0.has(n.output(l, label).1),
        n.output(l, label).0.term(n.output(l, label).1) == Term::Constant(bytes, dtype),
{
    reveal(Run::output);
    reveal(Run::ask);
    let (after, t) = n.output(l, label);
    assert(after.requests[t.id as int] == RequestView::Output { layer: Layer { id: l }, index: 0 });
    assert(after.requests[l as int] == n.requests[l as int]);
}

pub(crate) broadcast proof fn means_constant(
    n: Run,
    dims: Seq<i64>,
    bytes: Seq<u8>,
    dtype: TrtDataType,
    add_label: Seq<char>,
    output_label: Seq<char>,
)
    requires
        n.constant(dims, bytes, dtype, add_label, output_label).0.goes_on(),
    ensures
        ({
            let (after, t) = #[trigger] n.constant(dims, bytes, dtype, add_label, output_label);
            after.has(t) && after.term(t) == Term::Constant(bytes, dtype)
        }),
{
    broadcast use {group_grows, grows_step_output, grows_step_add_constant, went_on};

    reveal(Run::constant);
    let (added, l) = n.add_constant(dims, bytes, dtype, add_label);
    assert(added.output(l, output_label).0.grows(added));
    means_add_constant(n, dims, bytes, dtype, add_label);
    means_output(added, l, output_label, bytes, dtype);
}

pub(crate) broadcast proof fn means_reshape(
    n: Run,
    input: Tensor,
    dims: Seq<i64>,
    add_label: Seq<char>,
    set_label: Seq<char>,
    output_label: Seq<char>,
)
    requires
        n.reshape(input, dims, add_label, set_label, output_label).0.goes_on(),
        n.has(input),
    ensures
        ({
            let (after, t) = #[trigger] n.reshape(
                input,
                dims,
                add_label,
                set_label,
                output_label,
            );
            after.has(t) && after.term(t) == n.term(input)
        }),
{
    reveal(Run::reshape);
    reveal(Run::output);
    reveal(Run::ask);
    let (after, t) = n.reshape(input, dims, add_label, set_label, output_label);
    assert(after.requests[n.requests.len() as int] == RequestView::AddShuffle { input });
    assert(after.requests[t.id as int] == RequestView::Output {
        layer: Layer { id: n.requests.len() as usize },
        index: 0,
    });
    assert(after.requests.take(n.requests.len() as int) =~= n.requests);
    term_of_prefix(n.requests, after.requests, input.id);
}

pub(crate) broadcast proof fn means_transpose(
    n: Run,
    input: Tensor,
    order: Seq<i32>,
    add_label: Seq<char>,
    set_label: Seq<char>,
    output_label: Seq<char>,
)
    requires
        n.transpose(input, order, add_label, set_label, output_label).0.goes_on(),
        n.has(input),
    ensures
        ({
            let (after, t) = #[trigger] n.transpose(
                input,
                order,
                add_label,
                set_label,
                output_label,
            );
            after.has(t) && after.term(t) == n.term(input)
        }),
{
    reveal(Run::transpose);
    reveal(Run::output);
    reveal(Run::ask);
    let (after, t) = n.transpose(input, order, add_label, set_label, output_label);
    assert(after.requests[n.requests.len() as int] == RequestView::AddShuffle { input });
    assert(after.requests[t.id as int] == RequestView::Output {
        layer: Layer { id: n.requests.len() as usize },
        index: 0,
    });
    assert(after.requests.take(n.requests.len() as int) =~= n.requests);
    term_of_prefix(n.requests, after.requests, input.id);
}

pub(crate) broadcast proof fn means_named_layer(
    n: Run,
    request: RequestView,
    name: Seq<char>,
    add_label: Seq<char>,
    output_label: Seq<char>,
)
    requires
        n.named_layer(request, name, add_label, output_label).0.goes_on(),
    ensures
        ({
            let (after, t) = #[trigger] n.named_layer(request, name, add_label, output_label);
            &&& after.has(t)
            &&& is_computed(n, request, after.term(t))
        }),
{
    reveal(Run::named_layer);
    reveal(Run::output);
    reveal(Run::ask);
    reveal(Run::tell);
    let (after, t) = n.named_layer(request, name, add_label, output_label);
    assert(after.requests[n.requests.len() as int] == request);
    assert(after.requests[t.id as int] == RequestView::Output {
        layer: Layer { id: n.requests.len() as usize },
        index: 0,
    });
    assert(after.requests.take(n.requests.len() as int) =~= n.requests);
    let (x, y, z) = inputs_of(request);
    if x < n.requests.len() {
        term_of_prefix(n.requests, after.requests, x);
    }
    if y < n.requests.len() {
        term_of_prefix(n.requests, after.requests, y);
    }
    if z < n.requests.len() {
        term_of_prefix(n.requests, after.requests, z);
    }
}

pub(crate) broadcast proof fn means_matrix_multiply(
    n: Run,
    a: Tensor,
    op_a: MatrixOperation,
    b: Tensor,
    op_b: MatrixOperation,
    add_label: Seq<char>,
    output_label: Seq<char>,
)
    requires
        n.matrix_multiply(a, op_a, b, op_b, add_label, output_label).0.goes_on(),
    ensures
        ({
            let (after, t) = #[trigger] n.matrix_multiply(
                a,
                op_a,
                b,
                op_b,
                add_label,
                output_label,
            );
            &&& after.has(t)
            &&& is_computed(n, RequestOf::AddMatrixMultiply { a, op_a, b, op_b }, after.term(t))
        }),
{
    reveal(Run::matrix_multiply);
    means_layer(n, RequestOf::AddMatrixMultiply { a, op_a, b, op_b }, add_label, output_label);
}

pub(crate) broadcast proof fn means_dequantize(
    n: Run,
    input: Tensor,
    scale: Tensor,
    dtype: TrtDataType,
    add_label: Seq<char>,
    output_label: Seq<char>,
)
    requires
        n.dequantize(input, scale, dtype, add_label, output_label).0.goes_on(),
    ensures
        ({
            let (after, t) = #[trigger] n.dequantize(
                input,
                scale,
                dtype,
                add_label,
                output_label,
            );
            &&& after.has(t)
            &&& is_computed(n, RequestOf::AddDequantize { input, scale, dtype }, after.term(t))
        }),
{
    reveal(Run::dequantize);
    means_layer(n, RequestOf::AddDequantize { input, scale, dtype }, add_label, output_label);
}

pub(crate) broadcast proof fn means_select(
    n: Run,
    condition: Tensor,
    on_true: Tensor,
    on_false: Tensor,
    add_label: Seq<char>,
    output_label: Seq<char>,
)
    requires
        n.select(condition, on_true, on_false, add_label, output_label).0.goes_on(),
    ensures
        ({
            let (after, t) = #[trigger] n.select(
                condition,
                on_true,
                on_false,
                add_label,
                output_label,
            );
            &&& after.has(t)
            &&& is_computed(
                n,
                RequestOf::AddSelect { condition, on_true, on_false },
                after.term(t),
            )
        }),
{
    reveal(Run::select);
    means_layer(
        n,
        RequestOf::AddSelect { condition, on_true, on_false },
        add_label,
        output_label,
    );
}

/// Whether the request at `l` is this one.
pub open spec fn holds_layer(n: Run, l: usize, request: RequestView) -> bool {
    l < n.requests.len() && n.requests[l as int] == request
}

pub(crate) broadcast proof fn layer_is_kept(n: Run, after: Run, l: usize, request: RequestView)
    requires
        #[trigger] after.grows(n),
        #[trigger] holds_layer(n, l, request),
    ensures
        holds_layer(after, l, request),
{
    reveal(Run::grows);
    assert(after.requests.take(n.requests.len() as int)[l as int] == after.requests[l as int]);
}

pub(crate) broadcast proof fn means_ask(n: Run, request: RequestView, label: Seq<char>)
    requires
        n.ask(request, label).0.goes_on(),
    ensures
        holds_layer((#[trigger] n.ask(request, label)).0, n.ask(request, label).1, request),
{
    reveal(Run::ask);
}

pub(crate) broadcast proof fn means_layer_output(
    n: Run,
    l: usize,
    label: Seq<char>,
    request: RequestView,
)
    requires
        n.output(l, label).0.goes_on(),
        #[trigger] holds_layer(n, l, request),
    ensures
        (#[trigger] n.output(l, label)).0.has(n.output(l, label).1),
        is_computed(n, request, n.output(l, label).0.term(n.output(l, label).1)),
{
    reveal(Run::output);
    reveal(Run::ask);
    let (after, t) = n.output(l, label);
    assert(after.requests[t.id as int] == RequestView::Output { layer: Layer { id: l }, index: 0 });
    assert(after.requests[l as int] == n.requests[l as int]);
    assert(after.requests.take(n.requests.len() as int) =~= n.requests);
    let (x, y, z) = inputs_of(request);
    if x < n.requests.len() {
        term_of_prefix(n.requests, after.requests, x);
    }
    if y < n.requests.len() {
        term_of_prefix(n.requests, after.requests, y);
    }
    if z < n.requests.len() {
        term_of_prefix(n.requests, after.requests, z);
    }
}

pub(crate) broadcast proof fn means_resize(
    n: Run,
    input: Tensor,
    dims: Seq<i64>,
    add_label: Seq<char>,
    output_label: Seq<char>,
)
    requires
        n.resize(input, dims, add_label, output_label).0.goes_on(),
        n.has(input),
    ensures
        ({
            let (after, t) = #[trigger] n.resize(input, dims, add_label, output_label);
            after.has(t) && after.term(t) == n.term(input)
        }),
{
    reveal(Run::resize);
    reveal(Run::output);
    reveal(Run::ask);
    reveal(Run::tell);
    let (after, t) = n.resize(input, dims, add_label, output_label);
    assert(after.requests[n.requests.len() as int] == RequestView::AddResize { input });
    assert(after.requests[t.id as int] == RequestView::Output {
        layer: Layer { id: n.requests.len() as usize },
        index: 0,
    });
    assert(after.requests.take(n.requests.len() as int) =~= n.requests);
    term_of_prefix(n.requests, after.requests, input.id);
}

pub(crate) broadcast proof fn means_broadcast_pair(n: Run, t0: Tensor, t1: Tensor, op_name: Seq<char>)
    requires
        broadcast_pair(n, t0, t1, op_name).0.goes_on(),
        n.has(t0),
        n.has(t1),
    ensures
        ({
            let (after, (a, b)) = #[trigger] broadcast_pair(n, t0, t1, op_name);
            &&& after.has(a)
            &&& after.has(b)
            &&& after.term(a) == n.term(t0)
            &&& after.term(b) == n.term(t1)
        }),
{
    broadcast use {
        group_grows, grows_step_identity, grows_step_resize, grows_step_reshape, grows_stopped,
        went_on, term_is_kept, means_identity, means_resize, means_reshape,
    };

    reveal(broadcast_pair);
}

pub broadcast group group_means {
    grows_step_activation,
    grows_step_add_constant,
    grows_step_cast,
    grows_step_constant,
    grows_step_elementwise,
    grows_step_identity,
    grows_step_layer,
    grows_step_output,
    grows_step_reduce,
    grows_step_unary,
    grows_broadcast_pair,
    grows_scalar_shape,
    grows_stopped,
    went_on,
    term_is_kept,
    constant_is_kept,
    means_layer,
    means_identity,
    means_cast,
    means_unary,
    means_activation,
    means_elementwise,
    means_reduce,
    means_add_constant,
    means_output,
    means_constant,
    means_broadcast_pair,
}

/// Whether every tensor of a map answered a request that was made.
pub open spec fn all_known(n: Run, m: Map<u32, Tensor>) -> bool {
    forall|id: u32| #[trigger] m.contains_key(id) ==> n.has(m[id])
}

/// Whether a step from a map of known tensors went through.
pub open spec fn went_through(n: Run, m: Map<u32, Tensor>, step: (Run, Map<u32, Tensor>)) -> bool {
    all_known(n, m) && step.0.goes_on()
}

/// The term of the first output of an operation.
pub open spec fn result(op: Operation, step: (Run, Map<u32, Tensor>)) -> Term {
    step.0.term(step.1[op.outputs@[0]])
}

/// The term of the operand `i` of an operation.
pub open spec fn input(n: Run, m: Map<u32, Tensor>, op: Operation, i: int) -> Term {
    n.term(m[op.inputs@[i]])
}

/// Two terms combined.
pub open spec fn both(op: ElementWiseOperation, a: Term, b: Term) -> Term {
    Term::Elementwise(op, Box::new(a), Box::new(b))
}

/// A function of a term.
pub open spec fn of(op: UnaryOperation, a: Term) -> Term {
    Term::Unary(op, Box::new(a))
}

/// An activation of a term.
pub open spec fn active(kind: ActivationType, a: Term) -> Term {
    Term::Activation(kind, Box::new(a))
}

/// A term as `f32` values.
pub open spec fn as_float(a: Term) -> Term {
    Term::Cast(TrtDataType::kFLOAT, Box::new(a))
}

/// A number in the element type of the first operand of an operation.
pub open spec fn constant_of(graph: GraphInfo, op: Operation, x: Scalar) -> Term {
    let t = graph.operands@[op.inputs@[0] as int].descriptor.data_type;
    Term::Constant(float_bytes(x, t), float_type(t))
}

/// A binary operation combines its inputs.
pub proof fn elementwise_means(
    n: Run,
    m: Map<u32, Tensor>,
    op: Operation,
    code: ElementWiseOperation,
)
    requires
        went_through(n, m, elementwise_op(n, m, op, code)),
    ensures
        result(op, elementwise_op(n, m, op, code)) == both(
            code,
            input(n, m, op, 0),
            input(n, m, op, 1),
        ),
{
    broadcast use {group_grows, group_means};

}

/// A comparison gives ones and zeros in `f32`.
pub proof fn comparison_means(
    n: Run,
    m: Map<u32, Tensor>,
    op: Operation,
    code: ElementWiseOperation,
)
    requires
        went_through(n, m, comparison_op(n, m, op, code)),
    ensures
        result(op, comparison_op(n, m, op, code)) == as_float(
            both(code, input(n, m, op, 0), input(n, m, op, 1)),
        ),
{
    broadcast use {group_grows, group_means};

}

/// Greater or equal is greater, or equal.
pub proof fn greater_or_equal_means(n: Run, m: Map<u32, Tensor>, op: Operation)
    requires
        went_through(n, m, greater_or_equal_op(n, m, op)),
    ensures
        ({
            let (a, b) = (input(n, m, op, 0), input(n, m, op, 1));
            result(op, greater_or_equal_op(n, m, op)) == as_float(
                both(
                    ElementWiseOperation::kOR,
                    both(ElementWiseOperation::kGREATER, a, b),
                    both(ElementWiseOperation::kEQUAL, a, b),
                ),
            )
        }),
{
    broadcast use {group_grows, group_means};

}

/// Lesser or equal is less, or equal.
pub proof fn lesser_or_equal_means(n: Run, m: Map<u32, Tensor>, op: Operation)
    requires
        went_through(n, m, lesser_or_equal_op(n, m, op)),
    ensures
        ({
            let (a, b) = (input(n, m, op, 0), input(n, m, op, 1));
            result(op, lesser_or_equal_op(n, m, op)) == as_float(
                both(
                    ElementWiseOperation::kOR,
                    both(ElementWiseOperation::kLESS, a, b),
                    both(ElementWiseOperation::kEQUAL, a, b),
                ),
            )
        }),
{
    broadcast use {group_grows, group_means};

}

/// Not equal is the negation of equal.
pub proof fn not_equal_means(n: Run, m: Map<u32, Tensor>, op: Operation)
    requires
        went_through(n, m, not_equal_op(n, m, op)),
    ensures
        result(op, not_equal_op(n, m, op)) == as_float(
            of(
                UnaryOperation::kNOT,
                both(ElementWiseOperation::kEQUAL, input(n, m, op, 0), input(n, m, op, 1)),
            ),
        ),
{
    broadcast use {group_grows, group_means};

}

/// What is not a number is what differs from itself.
pub proof fn is_nan_means(n: Run, m: Map<u32, Tensor>, op: Operation)
    requires
        went_through(n, m, is_nan_op(n, m, op)),
    ensures
        ({
            let x = input(n, m, op, 0);
            result(op, is_nan_op(n, m, op)) == as_float(
                of(UnaryOperation::kNOT, both(ElementWiseOperation::kEQUAL, x, x)),
            )
        }),
{
    broadcast use {group_grows, group_means};

}

/// A leaky rectifier is the positive part plus `alpha` times the negative part, which is the value
/// less its positive part.
pub proof fn leaky_relu_means(n: Run, m: Map<u32, Tensor>, graph: GraphInfo, op: Operation)
    requires
        went_through(n, m, leaky_relu_op(n, m, graph, op)),
    ensures
        ({
            let x = input(n, m, op, 0);
            let positive = active(ActivationType::kRELU, x);
            let alpha = constant_of(graph, op, leaky_alpha(op.kind));
            result(op, leaky_relu_op(n, m, graph, op)) == both(
                ElementWiseOperation::kSUM,
                positive,
                both(
                    ElementWiseOperation::kPROD,
                    both(ElementWiseOperation::kSUB, x, positive),
                    alpha,
                ),
            )
        }),
{
    broadcast use {group_grows, group_means};

}

/// An exponential linear unit is the positive part plus `alpha` times what `exp(x) - 1` has below
/// 0. Where `alpha` is 1, TensorRT has it as an activation.
pub proof fn elu_means(n: Run, m: Map<u32, Tensor>, graph: GraphInfo, op: Operation)
    requires
        went_through(n, m, elu_op(n, m, graph, op)),
    ensures
        ({
            let x = input(n, m, op, 0);
            let alpha = elu_alpha(op.kind);
            let t = graph.operands@[op.inputs@[0] as int].descriptor.data_type;
            result(op, elu_op(n, m, graph, op)) == if near_one(alpha.single) && t
                != DataType::Float16 {
                active(ActivationType::kELU, x)
            } else {
                both(
                    ElementWiseOperation::kSUM,
                    active(ActivationType::kRELU, x),
                    both(
                        ElementWiseOperation::kPROD,
                        both(
                            ElementWiseOperation::kMIN,
                            both(
                                ElementWiseOperation::kSUB,
                                of(UnaryOperation::kEXP, x),
                                constant_of(graph, op, known(Known::One)),
                            ),
                            constant_of(graph, op, known(Known::Zero)),
                        ),
                        constant_of(graph, op, alpha),
                    ),
                )
            }
        }),
{
    broadcast use {group_grows, group_means};

}

/// A hard sigmoid is `max(0, min(alpha * x + beta, 1))`. Where `alpha` is 0.2 and `beta` is 0.5,
/// TensorRT has it as an activation.
pub proof fn hard_sigmoid_means(n: Run, m: Map<u32, Tensor>, graph: GraphInfo, op: Operation)
    requires
        went_through(n, m, hard_sigmoid_op(n, m, graph, op)),
    ensures
        ({
            let x = input(n, m, op, 0);
            let (alpha, beta) = hard_sigmoid_coefficients(op.kind);
            result(op, hard_sigmoid_op(n, m, graph, op)) == if roughly_one_fifth(alpha.single)
                && roughly_one_half(beta.single) {
                active(ActivationType::kHARD_SIGMOID, x)
            } else {
                both(
                    ElementWiseOperation::kMAX,
                    constant_of(graph, op, known(Known::Zero)),
                    both(
                        ElementWiseOperation::kMIN,
                        both(
                            ElementWiseOperation::kSUM,
                            both(
                                ElementWiseOperation::kPROD,
                                x,
                                constant_of(graph, op, alpha),
                            ),
                            constant_of(graph, op, beta),
                        ),
                        constant_of(graph, op, known(Known::One)),
                    ),
                )
            }
        }),
{
    broadcast use {group_grows, group_means};

}

/// A hard swish is `x * max(0, min(6, x + 3)) / 6`.
pub proof fn hard_swish_means(n: Run, m: Map<u32, Tensor>, graph: GraphInfo, op: Operation)
    requires
        went_through(n, m, hard_swish_op(n, m, graph, op)),
    ensures
        ({
            let x = input(n, m, op, 0);
            let six = constant_of(graph, op, known(Known::Six));
            result(op, hard_swish_op(n, m, graph, op)) == both(
                ElementWiseOperation::kDIV,
                both(
                    ElementWiseOperation::kPROD,
                    x,
                    both(
                        ElementWiseOperation::kMAX,
                        constant_of(graph, op, known(Known::Zero)),
                        both(
                            ElementWiseOperation::kMIN,
                            six,
                            both(
                                ElementWiseOperation::kSUM,
                                x,
                                constant_of(graph, op, known(Known::Three)),
                            ),
                        ),
                    ),
                ),
                six,
            )
        }),
{
    broadcast use {group_grows, group_means};

}

} // verus!
