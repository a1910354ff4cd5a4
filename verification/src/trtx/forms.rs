//! How the tensors of a network are put together: which parts of which tensors stand where, and what
//! the layers with a geometry are set to.

use crate::trtx::growth::{
    group_grows, grows_step_activation, grows_step_cast, grows_step_concat, grows_step_constant,
    grows_step_dequantize, grows_step_elementwise, grows_step_identity,
    grows_step_matrix_multiply, grows_step_output, grows_step_padding, grows_step_reduce,
    grows_step_reshape, grows_step_resize, grows_step_select, grows_step_slice,
    grows_step_transpose, grows_step_unary, grows_stopped,
};
use crate::trtx::meaning::went_on;
use crate::trtx::session::{RequestOf, RequestView, Run, WeightsOf};
use crate::trtx::types::{
    ActivationType, ElementWiseOperation, GatherMode, Layer, MatrixOperation, PaddingMode,
    PoolingType, ReduceOperation, ResizeCoordinateTransformation, ResizeMode, ResizeRoundMode,
    ScatterMode, Tensor, TopKOperation, TrtDataType, UnaryOperation,
};
use vstd::prelude::*;

verus! {

/// What a layer was set to.
pub struct Settings {
    pub order: Option<Seq<i32>>,
    pub dims: Option<Seq<i64>>,
    pub axis: Option<i32>,
    pub filter: Option<Tensor>,
    pub bias: Option<Tensor>,
    pub stride: (i64, i64),
    pub dilation: (i64, i64),
    pub pre: (i64, i64),
    pub post: (i64, i64),
    pub groups: i64,
    pub rounds_up: bool,
    /// Whether an average leaves the padding out, as far as the layer was told.
    pub excludes_padding: Option<bool>,
    /// The dimensions that a resize brings its input to, and how it reads the elements between.
    pub extents: Option<Seq<i64>>,
    pub resizing: Resizing,
    pub gathering: Option<GatherMode>,
}

/// How a resize reads the elements between those of its input, as far as it was told.
pub struct Resizing {
    pub mode: Option<ResizeMode>,
    pub coordinates: Option<ResizeCoordinateTransformation>,
    pub rounding: Option<ResizeRoundMode>,
}

/// What a layer is set to when it is added.
pub open spec fn unset() -> Settings {
    Settings {
        order: None,
        dims: None,
        axis: None,
        filter: None,
        bias: None,
        stride: (1, 1),
        dilation: (1, 1),
        pre: (0, 0),
        post: (0, 0),
        groups: 1,
        rounds_up: false,
        excludes_padding: None,
        extents: None,
        resizing: Resizing { mode: None, coordinates: None, rounding: None },
        gathering: None,
    }
}

/// What a request sets of a layer.
pub open spec fn set_by(request: RequestView, l: usize, s: Settings) -> Settings {
    match request {
        RequestOf::SetFirstTranspose { layer, order } => if layer.id == l {
            Settings { order: Some(order), ..s }
        } else {
            s
        },
        RequestOf::SetReshapeDimensions { layer, dims } => if layer.id == l {
            Settings { dims: Some(dims), ..s }
        } else {
            s
        },
        RequestOf::SetAxis { layer, axis } => if layer.id == l {
            Settings { axis: Some(axis), ..s }
        } else {
            s
        },
        RequestOf::SetInput { layer, index, tensor } => if layer.id == l && index == 1 {
            Settings { filter: Some(tensor), ..s }
        } else if layer.id == l && index == 2 {
            Settings { bias: Some(tensor), ..s }
        } else {
            s
        },
        RequestOf::SetStride { layer, stride } => if layer.id == l {
            Settings { stride, ..s }
        } else {
            s
        },
        RequestOf::SetDilation { layer, dilation } => if layer.id == l {
            Settings { dilation, ..s }
        } else {
            s
        },
        RequestOf::SetPadding { layer, padding } => if layer.id == l {
            Settings { pre: padding, post: padding, ..s }
        } else {
            s
        },
        RequestOf::SetPrePadding { layer, padding } => if layer.id == l {
            Settings { pre: padding, ..s }
        } else {
            s
        },
        RequestOf::SetPostPadding { layer, padding } => if layer.id == l {
            Settings { post: padding, ..s }
        } else {
            s
        },
        RequestOf::SetNumGroups { layer, groups } => if layer.id == l {
            Settings { groups, ..s }
        } else {
            s
        },
        RequestOf::SetPaddingMode { layer, mode } => if layer.id == l {
            Settings { rounds_up: mode == PaddingMode::kEXPLICIT_ROUND_UP, ..s }
        } else {
            s
        },
        RequestOf::SetOutputDimensions { layer, dims } => if layer.id == l {
            Settings { extents: Some(dims), ..s }
        } else {
            s
        },
        RequestOf::SetResizeMode { layer, mode } => if layer.id == l {
            Settings { resizing: Resizing { mode: Some(mode), ..s.resizing }, ..s }
        } else {
            s
        },
        RequestOf::SetCoordinateTransformation { layer, mode } => if layer.id == l {
            Settings { resizing: Resizing { coordinates: Some(mode), ..s.resizing }, ..s }
        } else {
            s
        },
        RequestOf::SetNearestRounding { layer, mode } => if layer.id == l {
            Settings { resizing: Resizing { rounding: Some(mode), ..s.resizing }, ..s }
        } else {
            s
        },
        RequestOf::SetAverageCountExcludesPadding { layer, excludes } => if layer.id == l {
            Settings { excludes_padding: Some(excludes), ..s }
        } else {
            s
        },
        RequestOf::SetGatherMode { layer, mode } => if layer.id == l {
            Settings { gathering: Some(mode), ..s }
        } else {
            s
        },
        _ => s,
    }
}

/// What the layer at `l` is set to by the requests before `end`.
#[verifier::opaque]
pub open spec fn settings(log: Seq<RequestView>, l: usize, end: nat) -> Settings
    decreases end,
{
    if end <= l + 1 {
        unset()
    } else {
        set_by(log[end - 1], l, settings(log, l, (end - 1) as nat))
    }
}

/// The window of a convolution layer, of a transposed one, or of a pooling layer, and how it is
/// moved over the input.
pub struct Window {
    pub kernel: (i64, i64),
    pub stride: (i64, i64),
    pub dilation: (i64, i64),
    /// What is put before the rows and the columns; a transposed convolution trims it.
    pub pre: (i64, i64),
    /// What is put behind the rows and the columns; a transposed convolution trims it.
    pub post: (i64, i64),
}

/// How a tensor is put together. Copies are left out.
pub enum Form {
    /// The tensor that answered the request at this position, of which no more is said.
    Source(usize),
    /// A constant with these dimensions and bytes.
    Constant(Seq<i64>, Seq<u8>, TrtDataType),
    /// The axes in another order: axis `i` is axis `order[i]` of the form.
    Turned(Seq<i32>, Box<Form>),
    /// The elements in the same order under other dimensions.
    Reshaped(Seq<i64>, Box<Form>),
    Cast(TrtDataType, Box<Form>),
    Unary(UnaryOperation, Box<Form>),
    Elementwise(ElementWiseOperation, Box<Form>, Box<Form>),
    /// Zeros before and behind the rows and the columns, which are the last two axes.
    Padded((i64, i64), (i64, i64), Box<Form>),
    /// A part: where it starts, its size and the distance of its elements.
    Sliced(Seq<i64>, Seq<i64>, Seq<i64>, Box<Form>),
    /// Forms one behind the other along an axis.
    Joined(i32, Seq<Form>),
    /// A convolution of the first form with the second, by output maps and groups, and a bias.
    Convolved(Window, i64, i64, Box<Form>, Box<Form>, Option<Box<Form>>),
    /// A transposed convolution of the first form with the second, and a bias.
    Deconvolved(Window, i64, i64, Box<Form>, Box<Form>, Option<Box<Form>>),
    /// A pooling; its output is rounded up where the flag is set, and an average leaves the padding
    /// out or counts it as it was told.
    Pooled(PoolingType, Window, bool, Option<bool>, Box<Form>),
    /// A softmax along the axes whose bits are set.
    Softmax(u32, Box<Form>),
    /// The running sums of the second form along the axis that the first holds, without the element
    /// itself where the first flag is set, and from the end where the second is.
    RunningSum(bool, bool, Box<Form>, Box<Form>),
    /// The first form with the elements at the places that the second names replaced by the third.
    Scattered(ScatterMode, Option<i32>, Box<Form>, Box<Form>, Box<Form>),
    /// The positions of the greatest or the least elements along the axes whose bits are set.
    Extremes(TopKOperation, u32, Box<Form>),
    /// A form brought to these dimensions.
    Resized(Seq<i64>, Resizing, Box<Form>),
    /// A reduction over the axes whose bits are set, which stay as axes of extent 1 where the flag is
    /// set.
    Reduced(ReduceOperation, u32, bool, Box<Form>),
    Activation(ActivationType, Box<Form>),
    /// The product of two matrices, each as it is or transposed.
    Product(MatrixOperation, Box<Form>, MatrixOperation, Box<Form>),
    /// Elements of the first form, at the places along an axis that the second names.
    Gathered(i32, Option<GatherMode>, Box<Form>, Box<Form>),
    /// The second form where the first is true, else the third.
    Selected(Box<Form>, Box<Form>, Box<Form>),
    /// The second form times the first where the first is negative, else the first.
    Sloped(Box<Form>, Box<Form>),
    /// The first form, which holds integers, times the second.
    Dequantized(TrtDataType, Box<Form>, Box<Form>),
}

/// The window that a layer was set to.
pub open spec fn window_of(kernel: (i64, i64), s: Settings) -> Window {
    Window { kernel, stride: s.stride, dilation: s.dilation, pre: s.pre, post: s.post }
}

/// Whether tensors answered requests before `at`.
pub open spec fn all_before(ts: Seq<Tensor>, at: usize) -> bool {
    forall|i: int| 0 <= i < ts.len() ==> (#[trigger] ts[i]).id < at
}

/// Whether a tensor, where there is one, answered a request before `at`.
pub open spec fn before(t: Option<Tensor>, at: usize) -> bool {
    t matches Some(t) ==> t.id < at
}

/// The form of an output of a layer with these settings that is taken at `at`, from the forms `f` of
/// the tensors before it.
#[verifier::opaque]
pub open spec fn shaped(
    request: RequestView,
    s: Settings,
    index: i32,
    at: usize,
    f: spec_fn(usize) -> Form,
) -> Form {
    match request {
        RequestOf::AddConstant { dims, weights: WeightsOf::Bytes(bytes), dtype, .. } =>
            Form::Constant(dims, bytes, dtype),
        RequestOf::AddIdentity { input } => if input.id < at {
            f(input.id)
        } else {
            Form::Source(at)
        },
        RequestOf::AddShuffle { input } => if input.id < at && s.order is Some && s.dims is None {
            Form::Turned(s.order->0, Box::new(f(input.id)))
        } else if input.id < at && s.order is None && s.dims is Some {
            Form::Reshaped(s.dims->0, Box::new(f(input.id)))
        } else if input.id < at && s.order is Some && s.dims is Some {
            Form::Reshaped(s.dims->0, Box::new(Form::Turned(s.order->0, Box::new(f(input.id)))))
        } else {
            Form::Source(at)
        },
        RequestOf::AddCast { input, dtype } => if input.id < at {
            Form::Cast(dtype, Box::new(f(input.id)))
        } else {
            Form::Source(at)
        },
        RequestOf::AddUnary { input, op } => if input.id < at {
            Form::Unary(op, Box::new(f(input.id)))
        } else {
            Form::Source(at)
        },
        RequestOf::AddElementwise { a, b, op } => if a.id < at && b.id < at {
            Form::Elementwise(op, Box::new(f(a.id)), Box::new(f(b.id)))
        } else {
            Form::Source(at)
        },
        RequestOf::AddPadding { input, pre, post } => if input.id < at {
            Form::Padded(pre, post, Box::new(f(input.id)))
        } else {
            Form::Source(at)
        },
        RequestOf::AddSlice { input, start, size, stride } => if input.id < at {
            Form::Sliced(start, size, stride, Box::new(f(input.id)))
        } else {
            Form::Source(at)
        },
        RequestOf::AddConcatenation { inputs } => if all_before(inputs, at) && s.axis is Some {
            Form::Joined(
                s.axis->0,
                Seq::new(
                    inputs.len(),
                    |i: int|
                        if inputs[i].id < at {
                            f(inputs[i].id)
                        } else {
                            Form::Source(at)
                        },
                ),
            )
        } else {
            Form::Source(at)
        },
        RequestOf::AddConvolution { input, output_maps, kernel } => if input.id < at
            && s.filter is Some && s.filter->0.id < at && before(s.bias, at) {
            Form::Convolved(
                window_of((kernel.0 as i64, kernel.1 as i64), s),
                output_maps as i64,
                s.groups,
                Box::new(f(input.id)),
                Box::new(f(s.filter->0.id)),
                if s.bias is Some && s.bias->0.id < at {
                    Some(Box::new(f(s.bias->0.id)))
                } else {
                    None
                },
            )
        } else {
            Form::Source(at)
        },
        RequestOf::AddDeconvolution { input, output_maps, kernel } => if input.id < at
            && s.filter is Some && s.filter->0.id < at && before(s.bias, at) {
            Form::Deconvolved(
                window_of(kernel, s),
                output_maps,
                s.groups,
                Box::new(f(input.id)),
                Box::new(f(s.filter->0.id)),
                if s.bias is Some && s.bias->0.id < at {
                    Some(Box::new(f(s.bias->0.id)))
                } else {
                    None
                },
            )
        } else {
            Form::Source(at)
        },
        RequestOf::AddPooling { input, kind, window } => if input.id < at {
            Form::Pooled(
                kind,
                window_of(window, s),
                s.rounds_up,
                s.excludes_padding,
                Box::new(f(input.id)),
            )
        } else {
            Form::Source(at)
        },
        RequestOf::AddSoftmax { input, axes } => if input.id < at {
            Form::Softmax(axes, Box::new(f(input.id)))
        } else {
            Form::Source(at)
        },
        RequestOf::AddCumulative { input, axis, exclusive, reverse, .. } => if input.id < at
            && axis.id < at {
            Form::RunningSum(
                exclusive,
                reverse,
                Box::new(f(axis.id)),
                Box::new(f(input.id)),
            )
        } else {
            Form::Source(at)
        },
        RequestOf::AddScatter { data, indices, updates, mode } => if data.id < at && indices.id < at
            && updates.id < at {
            Form::Scattered(
                mode,
                s.axis,
                Box::new(f(data.id)),
                Box::new(f(indices.id)),
                Box::new(f(updates.id)),
            )
        } else {
            Form::Source(at)
        },
        RequestOf::AddTopK { input, op, k, axes } => if input.id < at && k == 1 && index == 1 {
            Form::Extremes(op, axes, Box::new(f(input.id)))
        } else {
            Form::Source(at)
        },
        RequestOf::AddResize { input } => if input.id < at && s.extents is Some {
            Form::Resized(s.extents->0, s.resizing, Box::new(f(input.id)))
        } else {
            Form::Source(at)
        },
        RequestOf::AddReduce { input, op, axes, keep_dims } => if input.id < at {
            Form::Reduced(op, axes, keep_dims, Box::new(f(input.id)))
        } else {
            Form::Source(at)
        },
        RequestOf::AddActivation { input, kind } => if input.id < at {
            Form::Activation(kind, Box::new(f(input.id)))
        } else {
            Form::Source(at)
        },
        RequestOf::AddMatrixMultiply { a, op_a, b, op_b } => if a.id < at && b.id < at {
            Form::Product(
                op_a,
                Box::new(f(a.id)),
                op_b,
                Box::new(f(b.id)),
            )
        } else {
            Form::Source(at)
        },
        RequestOf::AddGather { data, indices, axis } => if data.id < at && indices.id < at {
            Form::Gathered(
                axis,
                s.gathering,
                Box::new(f(data.id)),
                Box::new(f(indices.id)),
            )
        } else {
            Form::Source(at)
        },
        RequestOf::AddSelect { condition, on_true, on_false } => if condition.id < at
            && on_true.id < at && on_false.id < at {
            Form::Selected(
                Box::new(f(condition.id)),
                Box::new(f(on_true.id)),
                Box::new(f(on_false.id)),
            )
        } else {
            Form::Source(at)
        },
        RequestOf::AddParametricRelu { input, slope } => if input.id < at && slope.id < at {
            Form::Sloped(Box::new(f(input.id)), Box::new(f(slope.id)))
        } else {
            Form::Source(at)
        },
        RequestOf::AddDequantize { input, scale, dtype } => if input.id < at && scale.id < at {
            Form::Dequantized(
                dtype,
                Box::new(f(input.id)),
                Box::new(f(scale.id)),
            )
        } else {
            Form::Source(at)
        },
        _ => Form::Source(at),
    }
}

/// The forms of the tensors before `at`.
#[verifier::opaque]
pub open spec fn earlier(log: Seq<RequestView>, at: usize) -> spec_fn(usize) -> Form
    decreases at, 0nat,
{
    |id: usize|
        if id < at {
            form(log, id)
        } else {
            Form::Source(id)
        }
}

/// The form of the tensor that answered the request at `at`.
#[verifier::opaque]
pub open spec fn form(log: Seq<RequestView>, at: usize) -> Form
    decreases at, 1nat,
{
    if at >= log.len() {
        Form::Source(at)
    } else {
        match log[at as int] {
            RequestOf::Output { layer, index } => if layer.id < at {
                shaped(
                    log[layer.id as int],
                    settings(log, layer.id, at as nat),
                    index,
                    at,
                    earlier(log, at),
                )
            } else {
                Form::Source(at)
            },
            _ => Form::Source(at),
        }
    }
}

impl Run {
    /// The form of a tensor.
    pub open spec fn form(self, t: Tensor) -> Form {
        form(self.requests, t.id)
    }

    /// Whether tensors answered requests that were made.
    pub open spec fn has_all(self, ts: Seq<Tensor>) -> bool {
        forall|i: int| 0 <= i < ts.len() ==> self.has(#[trigger] ts[i])
    }

    /// The forms of tensors.
    pub open spec fn forms(self, ts: Seq<Tensor>) -> Seq<Form> {
        Seq::new(ts.len(), |i: int| self.form(ts[i]))
    }
}

/// The form of the output at `index` that is taken now of a layer with these settings.
pub open spec fn formed(n: Run, request: RequestView, s: Settings, index: i32) -> Form {
    shaped(
        request,
        s,
        index,
        n.requests.len() as usize,
        earlier(n.requests, n.requests.len() as usize),
    )
}

/// The form of a bias, where there is one.
pub open spec fn bias_form(n: Run, bias: Option<Tensor>) -> Option<Box<Form>> {
    match bias {
        Some(b) => Some(Box::new(n.form(b))),
        None => None,
    }
}

/// Settings depend on the requests before their end alone.
proof fn settings_of_prefix(
    log: Seq<RequestView>,
    longer: Seq<RequestView>,
    l: usize,
    end: nat,
)
    requires
        log.len() <= longer.len(),
        longer.take(log.len() as int) == log,
        end <= log.len(),
    ensures
        settings(longer, l, end) == settings(log, l, end),
    decreases end,
{
    reveal(settings);
    if end > l + 1 {
        settings_of_prefix(log, longer, l, (end - 1) as nat);
        assert(longer.take(log.len() as int)[end - 1] == longer[end - 1]);
    }
}

pub(crate) broadcast proof fn earlier_is(log: Seq<RequestView>, at: usize, id: usize)
    ensures
        (#[trigger] earlier(log, at)(id)) == if id < at {
            form(log, id)
        } else {
            Form::Source(id)
        },
{
    reveal_with_fuel(earlier, 2);
    reveal_with_fuel(form, 2);
}

/// The positions of the tensors that a layer with these settings works on, but for those that a
/// concatenation joins.
pub open spec fn sources_of(request: RequestView, s: Settings) -> (usize, usize, usize) {
    let filter = if s.filter is Some {
        s.filter->0.id
    } else {
        0
    };
    let bias = if s.bias is Some {
        s.bias->0.id
    } else {
        0
    };
    match request {
        RequestOf::AddIdentity { input } => (input.id, 0, 0),
        RequestOf::AddShuffle { input } => (input.id, 0, 0),
        RequestOf::AddCast { input, .. } => (input.id, 0, 0),
        RequestOf::AddUnary { input, .. } => (input.id, 0, 0),
        RequestOf::AddElementwise { a, b, .. } => (a.id, b.id, 0),
        RequestOf::AddPadding { input, .. } => (input.id, 0, 0),
        RequestOf::AddSlice { input, .. } => (input.id, 0, 0),
        RequestOf::AddPooling { input, .. } => (input.id, 0, 0),
        RequestOf::AddResize { input } => (input.id, 0, 0),
        RequestOf::AddReduce { input, .. } => (input.id, 0, 0),
        RequestOf::AddActivation { input, .. } => (input.id, 0, 0),
        RequestOf::AddMatrixMultiply { a, b, .. } => (a.id, b.id, 0),
        RequestOf::AddGather { data, indices, .. } => (data.id, indices.id, 0),
        RequestOf::AddSelect { condition, on_true, on_false } => (
            condition.id,
            on_true.id,
            on_false.id,
        ),
        RequestOf::AddParametricRelu { input, slope } => (input.id, slope.id, 0),
        RequestOf::AddDequantize { input, scale, .. } => (input.id, scale.id, 0),
        RequestOf::AddSoftmax { input, .. } => (input.id, 0, 0),
        RequestOf::AddCumulative { input, axis, .. } => (input.id, axis.id, 0),
        RequestOf::AddScatter { data, indices, updates, .. } => (data.id, indices.id, updates.id),
        RequestOf::AddTopK { input, .. } => (input.id, 0, 0),
        RequestOf::AddConvolution { input, .. } => (input.id, filter, bias),
        RequestOf::AddDeconvolution { input, .. } => (input.id, filter, bias),
        _ => (0, 0, 0),
    }
}

/// Of a layer that works on a tensor that was not there before it, nothing is said.
pub proof fn later_sources_say_nothing(
    request: RequestView,
    s: Settings,
    index: i32,
    at: usize,
    f: spec_fn(usize) -> Form,
)
    requires
        at > 0,
        ({
            let (x, y, z) = sources_of(request, s);
            x >= at || y >= at || z >= at
        }),
    ensures
        shaped(request, s, index, at, f) == Form::Source(at),
{
    reveal(shaped);
}

/// A form depends on the requests up to its own alone.
proof fn form_of_prefix(log: Seq<RequestView>, longer: Seq<RequestView>, at: usize)
    requires
        log.len() <= longer.len(),
        longer.take(log.len() as int) == log,
        at < log.len(),
    ensures
        form(longer, at) == form(log, at),
    decreases at,
{
    reveal(form);
    reveal(earlier);
    assert(longer.take(log.len() as int)[at as int] == longer[at as int]);
    if let RequestOf::Output { layer, .. } = log[at as int] {
        if layer.id < at {
            assert(longer.take(log.len() as int)[layer.id as int] == longer[layer.id as int]);
            settings_of_prefix(log, longer, layer.id, at as nat);
            assert forall|id: usize| id < at implies #[trigger] form(longer, id) == form(log, id) by {
                form_of_prefix(log, longer, id);
            }
            assert forall|id: usize| #[trigger] earlier(longer, at)(id) == earlier(log, at)(id) by {
                earlier_is(longer, at, id);
                earlier_is(log, at, id);
            }
            assert(earlier(longer, at) =~= earlier(log, at));
        }
    }
}

pub(crate) broadcast proof fn form_is_kept(n: Run, after: Run, t: Tensor)
    requires
        #[trigger] after.grows(n),
        n.has(t),
    ensures
        #[trigger] after.form(t) == n.form(t),
        after.has(t),
{
    reveal(Run::grows);
    form_of_prefix(n.requests, after.requests, t.id);
}

pub(crate) broadcast proof fn forms_are_kept(n: Run, after: Run, ts: Seq<Tensor>)
    requires
        #[trigger] after.grows(n),
        n.has_all(ts),
    ensures
        #[trigger] after.forms(ts) == n.forms(ts),
        after.has_all(ts),
{
    assert forall|i: int| 0 <= i < ts.len() implies #[trigger] after.form(ts[i]) == n.form(ts[i])
        && after.has(ts[i]) by {
        assert(n.has(ts[i]));
        form_is_kept(n, after, ts[i]);
    }
    assert forall|i: int| 0 <= i < ts.len() implies after.has(#[trigger] ts[i]) by {
        assert(n.has(ts[i]));
        form_is_kept(n, after, ts[i]);
    }
    assert(after.forms(ts) =~= n.forms(ts));
}

/// The output that is taken of a layer has the form that the layer and its settings give it.
pub(crate) proof fn output_is_formed(n: Run, l: usize, index: i32, label: Seq<char>)
    requires
        n.ask(RequestOf::Output { layer: Layer { id: l }, index }, label).0.goes_on(),
        l < n.requests.len(),
    ensures
        ({
            let (after, t) = n.ask(RequestOf::Output { layer: Layer { id: l }, index }, label);
            &&& t < after.requests.len()
            &&& form(after.requests, t) == formed(n, n.requests[l as int], set_now(n, l), index)
        }),
{
    reveal(Run::ask);
    reveal(form);
    reveal(earlier);
    let (after, t) = n.ask(RequestOf::Output { layer: Layer { id: l }, index }, label);
    assert(after.requests[t as int] == RequestView::Output { layer: Layer { id: l }, index });
    assert(after.requests[l as int] == n.requests[l as int]);
    assert(after.requests.take(n.requests.len() as int) =~= n.requests);
    settings_of_prefix(n.requests, after.requests, l, n.requests.len());
    let at = n.requests.len() as usize;
    assert forall|id: usize| id < at implies #[trigger] form(after.requests, id) == form(
        n.requests,
        id,
    ) by {
        form_of_prefix(n.requests, after.requests, id);
    }
    assert forall|id: usize| #[trigger]
        earlier(after.requests, at)(id) == earlier(n.requests, at)(id) by {
        earlier_is(after.requests, at, id);
        earlier_is(n.requests, at, id);
    }
    assert(earlier(after.requests, at) =~= earlier(n.requests, at));
}

/// The first output of a layer has the form that the layer and its settings give it.
pub(crate) proof fn layer_is_set(n: Run, l: usize, label: Seq<char>)
    requires
        n.output(l, label).0.goes_on(),
        l < n.requests.len(),
    ensures
        ({
            let (after, t) = n.output(l, label);
            &&& after.has(t)
            &&& after.form(t) == formed(n, n.requests[l as int], set_now(n, l), 0)
        }),
{
    reveal(Run::output);
    output_is_formed(n, l, 0, label);
}

/// What the layer at `l` is set to, as far as the conversation has come.
pub open spec fn set_now(n: Run, l: usize) -> Settings {
    settings(n.requests, l, n.requests.len())
}

/// A layer that is added now is the last request, and nothing of it is set.
pub(crate) proof fn layer_is_new(n: Run, request: RequestView, label: Seq<char>)
    requires
        n.ask(request, label).0.goes_on(),
    ensures
        ({
            let (after, l) = n.ask(request, label);
            l < after.requests.len() && after.requests[l as int] == request && set_now(after, l)
                == unset()
        }),
{
    reveal(settings);
    reveal(Run::ask);
}

pub(crate) proof fn ask_sets(n: Run, request: RequestView, label: Seq<char>, l: usize)
    requires
        n.ask(request, label).0.goes_on(),
        l < n.requests.len(),
    ensures
        ({
            let after = n.ask(request, label).0;
            &&& set_now(after, l) == set_by(request, l, set_now(n, l))
            &&& l < after.requests.len()
            &&& after.requests[l as int] == n.requests[l as int]
        }),
{
    reveal(settings);
    reveal(Run::ask);
    let after = n.ask(request, label).0;
    assert(after.requests.take(n.requests.len() as int) =~= n.requests);
    settings_of_prefix(n.requests, after.requests, l, n.requests.len());
}

pub(crate) proof fn tell_sets(n: Run, request: RequestView, l: usize)
    requires
        n.tell(request).goes_on(),
        l < n.requests.len(),
    ensures
        ({
            let after = n.tell(request);
            &&& set_now(after, l) == set_by(request, l, set_now(n, l))
            &&& l < after.requests.len()
            &&& after.requests[l as int] == n.requests[l as int]
        }),
{
    reveal(settings);
    reveal(Run::tell);
    let after = n.tell(request);
    assert(after.requests.take(n.requests.len() as int) =~= n.requests);
    settings_of_prefix(n.requests, after.requests, l, n.requests.len());
}

pub(crate) broadcast proof fn forms_identity(
    n: Run,
    input: Tensor,
    add_label: Seq<char>,
    output_label: Seq<char>,
)
    requires
        n.identity(input, add_label, output_label).0.goes_on(),
        n.has(input),
    ensures
        ({
            let (after, t) = #[trigger] n.identity(input, add_label, output_label);
            after.has(t) && after.form(t) == n.form(input)
        }),
{
    broadcast use {group_grows, grows_stopped, grows_step_output, went_on};

    reveal(Run::identity);
    reveal(Run::layer);
    let (a, l) = n.ask(RequestOf::AddIdentity { input }, add_label);
    layer_is_new(n, RequestOf::AddIdentity { input }, add_label);
    broadcast use earlier_is;

    reveal(shaped);
    layer_is_set(a, l, output_label);
    form_is_kept(n, a, input);
}

pub(crate) broadcast proof fn forms_cast(
    n: Run,
    input: Tensor,
    dtype: TrtDataType,
    add_label: Seq<char>,
    output_label: Seq<char>,
)
    requires
        n.cast(input, dtype, add_label, output_label).0.goes_on(),
        n.has(input),
    ensures
        ({
            let (after, t) = #[trigger] n.cast(input, dtype, add_label, output_label);
            after.has(t) && after.form(t) == Form::Cast(dtype, Box::new(n.form(input)))
        }),
{
    broadcast use {group_grows, grows_stopped, grows_step_output, went_on};

    reveal(Run::cast);
    reveal(Run::layer);
    let (a, l) = n.ask(RequestOf::AddCast { input, dtype }, add_label);
    layer_is_new(n, RequestOf::AddCast { input, dtype }, add_label);
    broadcast use earlier_is;

    reveal(shaped);
    layer_is_set(a, l, output_label);
    form_is_kept(n, a, input);
}

pub(crate) broadcast proof fn forms_unary(
    n: Run,
    input: Tensor,
    op: UnaryOperation,
    add_label: Seq<char>,
    output_label: Seq<char>,
)
    requires
        n.unary(input, op, add_label, output_label).0.goes_on(),
        n.has(input),
    ensures
        ({
            let (after, t) = #[trigger] n.unary(input, op, add_label, output_label);
            after.has(t) && after.form(t) == Form::Unary(op, Box::new(n.form(input)))
        }),
{
    broadcast use {group_grows, grows_stopped, grows_step_output, went_on};

    reveal(Run::unary);
    reveal(Run::layer);
    let (a, l) = n.ask(RequestOf::AddUnary { input, op }, add_label);
    layer_is_new(n, RequestOf::AddUnary { input, op }, add_label);
    broadcast use earlier_is;

    reveal(shaped);
    layer_is_set(a, l, output_label);
    form_is_kept(n, a, input);
}

pub(crate) broadcast proof fn forms_elementwise(
    n: Run,
    a: Tensor,
    b: Tensor,
    op: ElementWiseOperation,
    add_label: Seq<char>,
    output_label: Seq<char>,
)
    requires
        n.elementwise(a, b, op, add_label, output_label).0.goes_on(),
        n.has(a),
        n.has(b),
    ensures
        ({
            let (after, t) = #[trigger] n.elementwise(a, b, op, add_label, output_label);
            after.has(t) && after.form(t) == Form::Elementwise(
                op,
                Box::new(n.form(a)),
                Box::new(n.form(b)),
            )
        }),
{
    broadcast use {group_grows, grows_stopped, grows_step_output, went_on};

    reveal(Run::elementwise);
    reveal(Run::layer);
    let (r, l) = n.ask(RequestOf::AddElementwise { a, b, op }, add_label);
    layer_is_new(n, RequestOf::AddElementwise { a, b, op }, add_label);
    broadcast use earlier_is;

    reveal(shaped);
    layer_is_set(r, l, output_label);
    form_is_kept(n, r, a);
    form_is_kept(n, r, b);
}

pub(crate) broadcast proof fn forms_padding(
    n: Run,
    input: Tensor,
    pre: (i64, i64),
    post: (i64, i64),
    add_label: Seq<char>,
    output_label: Seq<char>,
)
    requires
        n.padding(input, pre, post, add_label, output_label).0.goes_on(),
        n.has(input),
    ensures
        ({
            let (after, t) = #[trigger] n.padding(input, pre, post, add_label, output_label);
            after.has(t) && after.form(t) == Form::Padded(pre, post, Box::new(n.form(input)))
        }),
{
    broadcast use {group_grows, grows_stopped, grows_step_output, went_on};

    reveal(Run::padding);
    reveal(Run::layer);
    let (a, l) = n.ask(RequestOf::AddPadding { input, pre, post }, add_label);
    layer_is_new(n, RequestOf::AddPadding { input, pre, post }, add_label);
    broadcast use earlier_is;

    reveal(shaped);
    layer_is_set(a, l, output_label);
    form_is_kept(n, a, input);
}

pub(crate) broadcast proof fn forms_slice(
    n: Run,
    input: Tensor,
    start: Seq<i64>,
    size: Seq<i64>,
    stride: Seq<i64>,
    add_label: Seq<char>,
    output_label: Seq<char>,
)
    requires
        n.slice(input, start, size, stride, add_label, output_label).0.goes_on(),
        n.has(input),
    ensures
        ({
            let (after, t) = #[trigger] n.slice(input, start, size, stride, add_label, output_label);
            after.has(t) && after.form(t) == Form::Sliced(
                start,
                size,
                stride,
                Box::new(n.form(input)),
            )
        }),
{
    broadcast use {group_grows, grows_stopped, grows_step_output, went_on};

    reveal(Run::slice);
    reveal(Run::layer);
    let (a, l) = n.ask(RequestOf::AddSlice { input, start, size, stride }, add_label);
    layer_is_new(n, RequestOf::AddSlice { input, start, size, stride }, add_label);
    broadcast use earlier_is;

    reveal(shaped);
    layer_is_set(a, l, output_label);
    form_is_kept(n, a, input);
}

pub(crate) broadcast proof fn forms_reshape(
    n: Run,
    input: Tensor,
    dims: Seq<i64>,
    add_label: Seq<char>,
    set_label: Seq<char>,
    output_label: Seq<char>,
)
    requires
        n.reshape(input, dims, add_label, set_label, output_label).0.goes_on(),
        n.has(input),
    ensures
        ({
            let (after, t) = #[trigger] n.reshape(
                input,
                dims,
                add_label,
                set_label,
                output_label,
            );
            after.has(t) && after.form(t) == Form::Reshaped(dims, Box::new(n.form(input)))
        }),
{
    broadcast use {group_grows, grows_stopped, grows_step_output, went_on};

    reveal(Run::reshape);
    let (a, l) = n.ask(RequestOf::AddShuffle { input }, add_label);
    let request = RequestOf::SetReshapeDimensions { layer: Layer { id: l }, dims };
    let (b, _) = a.ask(request, set_label);
    layer_is_new(n, RequestOf::AddShuffle { input }, add_label);
    ask_sets(a, request, set_label, l);
    broadcast use earlier_is;

    reveal(shaped);
    layer_is_set(b, l, output_label);
    form_is_kept(n, b, input);
}

pub(crate) broadcast proof fn forms_transpose(
    n: Run,
    input: Tensor,
    order: Seq<i32>,
    add_label: Seq<char>,
    set_label: Seq<char>,
    output_label: Seq<char>,
)
    requires
        n.transpose(input, order, add_label, set_label, output_label).0.goes_on(),
        n.has(input),
    ensures
        ({
            let (after, t) = #[trigger] n.transpose(
                input,
                order,
                add_label,
                set_label,
                output_label,
            );
            after.has(t) && after.form(t) == Form::Turned(order, Box::new(n.form(input)))
        }),
{
    broadcast use {group_grows, grows_stopped, grows_step_output, went_on};

    reveal(Run::transpose);
    let (a, l) = n.ask(RequestOf::AddShuffle { input }, add_label);
    let request = RequestOf::SetFirstTranspose { layer: Layer { id: l }, order };
    let (b, _) = a.ask(request, set_label);
    layer_is_new(n, RequestOf::AddShuffle { input }, add_label);
    ask_sets(a, request, set_label, l);
    broadcast use earlier_is;

    reveal(shaped);
    layer_is_set(b, l, output_label);
    form_is_kept(n, b, input);
}

pub(crate) broadcast proof fn forms_concat(
    n: Run,
    inputs: Seq<Tensor>,
    axis: i32,
    add_label: Seq<char>,
    output_label: Seq<char>,
)
    requires
        n.concat(inputs, axis, add_label, output_label).0.goes_on(),
        n.has_all(inputs),
    ensures
        ({
            let (after, t) = #[trigger] n.concat(inputs, axis, add_label, output_label);
            after.has(t) && after.form(t) == Form::Joined(axis, n.forms(inputs))
        }),
{
    broadcast use {group_grows, grows_stopped, grows_step_output, went_on};

    reveal(Run::concat);
    let (a, l) = n.ask(RequestOf::AddConcatenation { inputs }, add_label);
    let request = RequestOf::SetAxis { layer: Layer { id: l }, axis };
    let b = a.tell(request);
    layer_is_new(n, RequestOf::AddConcatenation { inputs }, add_label);
    tell_sets(a, request, l);
    broadcast use earlier_is;

    reveal(shaped);
    layer_is_set(b, l, output_label);
    forms_are_kept(n, b, inputs);
    assert(all_before(inputs, b.requests.len() as usize)) by {
        assert forall|i: int| 0 <= i < inputs.len() implies (#[trigger] inputs[i]).id
            < b.requests.len() by {
            assert(n.has(inputs[i]));
        }
    }
    let joined = formed(
        b,
        RequestOf::AddConcatenation { inputs },
        settings(b.requests, l, b.requests.len()),
        0,
    );
    assert forall|i: int| 0 <= i < inputs.len() implies joined->Joined_1[i] == b.forms(
        inputs,
    )[i] by {
        assert(inputs[i].id < b.requests.len());
    }
    assert(joined->Joined_1 =~= b.forms(inputs));
}

pub(crate) broadcast proof fn forms_reduce(
    n: Run,
    input: Tensor,
    op: ReduceOperation,
    axes: u32,
    keep_dims: bool,
    add_label: Seq<char>,
    output_label: Seq<char>,
)
    requires
        n.reduce(input, op, axes, keep_dims, add_label, output_label).0.goes_on(),
        n.has(input),
    ensures
        ({
            let (after, t) = #[trigger] n.reduce(input, op, axes, keep_dims, add_label, output_label);
            after.has(t) && after.form(t) == Form::Reduced(op, axes, keep_dims, Box::new(n.form(input)))
        }),
{
    broadcast use {group_grows, grows_stopped, grows_step_output, went_on};

    reveal(Run::reduce);
    reveal(Run::layer);
    let (r, l) = n.ask(RequestOf::AddReduce { input, op, axes, keep_dims }, add_label);
    layer_is_new(n, RequestOf::AddReduce { input, op, axes, keep_dims }, add_label);
    broadcast use earlier_is;

    reveal(shaped);
    layer_is_set(r, l, output_label);
    form_is_kept(n, r, input);
}

pub(crate) broadcast proof fn forms_activation(
    n: Run,
    input: Tensor,
    kind: ActivationType,
    add_label: Seq<char>,
    output_label: Seq<char>,
)
    requires
        n.activation(input, kind, add_label, output_label).0.goes_on(),
        n.has(input),
    ensures
        ({
            let (after, t) = #[trigger] n.activation(input, kind, add_label, output_label);
            after.has(t) && after.form(t) == Form::Activation(kind, Box::new(n.form(input)))
        }),
{
    broadcast use {group_grows, grows_stopped, grows_step_output, went_on};

    reveal(Run::activation);
    reveal(Run::layer);
    let (r, l) = n.ask(RequestOf::AddActivation { input, kind }, add_label);
    layer_is_new(n, RequestOf::AddActivation { input, kind }, add_label);
    broadcast use earlier_is;

    reveal(shaped);
    layer_is_set(r, l, output_label);
    form_is_kept(n, r, input);
}

pub(crate) broadcast proof fn forms_matrix_multiply(
    n: Run,
    a: Tensor,
    op_a: MatrixOperation,
    b: Tensor,
    op_b: MatrixOperation,
    add_label: Seq<char>,
    output_label: Seq<char>,
)
    requires
        n.matrix_multiply(a, op_a, b, op_b, add_label, output_label).0.goes_on(),
        n.has(a),
        n.has(b),
    ensures
        ({
            let (after, t) = #[trigger] n.matrix_multiply(a, op_a, b, op_b, add_label, output_label);
            after.has(t) && after.form(t) == Form::Product(op_a, Box::new(n.form(a)), op_b, Box::new(n.form(b)))
        }),
{
    broadcast use {group_grows, grows_stopped, grows_step_output, went_on};

    reveal(Run::matrix_multiply);
    reveal(Run::layer);
    let (r, l) = n.ask(RequestOf::AddMatrixMultiply { a, op_a, b, op_b }, add_label);
    layer_is_new(n, RequestOf::AddMatrixMultiply { a, op_a, b, op_b }, add_label);
    broadcast use earlier_is;

    reveal(shaped);
    layer_is_set(r, l, output_label);
    form_is_kept(n, r, a);
    form_is_kept(n, r, b);
}

pub(crate) broadcast proof fn forms_select(
    n: Run,
    condition: Tensor,
    on_true: Tensor,
    on_false: Tensor,
    add_label: Seq<char>,
    output_label: Seq<char>,
)
    requires
        n.select(condition, on_true, on_false, add_label, output_label).0.goes_on(),
        n.has(condition),
        n.has(on_true),
        n.has(on_false),
    ensures
        ({
            let (after, t) = #[trigger] n.select(condition, on_true, on_false, add_label, output_label);
            after.has(t) && after.form(t) == Form::Selected(
                Box::new(n.form(condition)),
                Box::new(n.form(on_true)),
                Box::new(n.form(on_false)),
            )
        }),
{
    broadcast use {group_grows, grows_stopped, grows_step_output, went_on};

    reveal(Run::select);
    reveal(Run::layer);
    let (r, l) = n.ask(RequestOf::AddSelect { condition, on_true, on_false }, add_label);
    layer_is_new(n, RequestOf::AddSelect { condition, on_true, on_false }, add_label);
    broadcast use earlier_is;

    reveal(shaped);
    layer_is_set(r, l, output_label);
    form_is_kept(n, r, condition);
    form_is_kept(n, r, on_true);
    form_is_kept(n, r, on_false);
}

pub(crate) broadcast proof fn forms_dequantize(
    n: Run,
    input: Tensor,
    scale: Tensor,
    dtype: TrtDataType,
    add_label: Seq<char>,
    output_label: Seq<char>,
)
    requires
        n.dequantize(input, scale, dtype, add_label, output_label).0.goes_on(),
        n.has(input),
        n.has(scale),
    ensures
        ({
            let (after, t) = #[trigger] n.dequantize(input, scale, dtype, add_label, output_label);
            after.has(t) && after.form(t) == Form::Dequantized(
                dtype,
                Box::new(n.form(input)),
                Box::new(n.form(scale)),
            )
        }),
{
    broadcast use {group_grows, grows_stopped, grows_step_output, went_on};

    reveal(Run::dequantize);
    reveal(Run::layer);
    let (r, l) = n.ask(RequestOf::AddDequantize { input, scale, dtype }, add_label);
    layer_is_new(n, RequestOf::AddDequantize { input, scale, dtype }, add_label);
    broadcast use earlier_is;

    reveal(shaped);
    layer_is_set(r, l, output_label);
    form_is_kept(n, r, input);
    form_is_kept(n, r, scale);
}

pub(crate) broadcast proof fn forms_resize(
    n: Run,
    input: Tensor,
    dims: Seq<i64>,
    add_label: Seq<char>,
    output_label: Seq<char>,
)
    requires
        n.resize(input, dims, add_label, output_label).0.goes_on(),
        n.has(input),
    ensures
        ({
            let (after, t) = #[trigger] n.resize(input, dims, add_label, output_label);
            after.has(t) && after.form(t) == Form::Resized(
                dims,
                unset().resizing,
                Box::new(n.form(input)),
            )
        }),
{
    broadcast use {group_grows, grows_stopped, grows_step_output, went_on};

    reveal(Run::resize);
    let (a, l) = n.ask(RequestOf::AddResize { input }, add_label);
    let request = RequestOf::SetOutputDimensions { layer: Layer { id: l }, dims };
    let b = a.tell(request);
    layer_is_new(n, RequestOf::AddResize { input }, add_label);
    tell_sets(a, request, l);
    broadcast use earlier_is;

    reveal(shaped);
    layer_is_set(b, l, output_label);
    form_is_kept(n, b, input);
}

/// Whether the layer at `l` is a constant that the network holds.
pub open spec fn is_constant(
    n: Run,
    l: usize,
    dims: Seq<i64>,
    bytes: Seq<u8>,
    dtype: TrtDataType,
) -> bool {
    &&& l < n.requests.len()
    &&& n.requests[l as int] matches RequestOf::AddConstant {
        dims: d,
        weights: WeightsOf::Bytes(b),
        dtype: t,
        ..
    }
    &&& d == dims
    &&& b == bytes
    &&& t == dtype
}

pub(crate) broadcast proof fn constant_stays(
    n: Run,
    after: Run,
    l: usize,
    dims: Seq<i64>,
    bytes: Seq<u8>,
    dtype: TrtDataType,
)
    requires
        #[trigger] after.grows(n),
        #[trigger] is_constant(n, l, dims, bytes, dtype),
    ensures
        is_constant(after, l, dims, bytes, dtype),
{
    reveal(Run::grows);
    assert(after.requests.take(n.requests.len() as int)[l as int] == after.requests[l as int]);
}

pub(crate) broadcast proof fn forms_add_owned_constant(
    n: Run,
    dims: Seq<i64>,
    bytes: Seq<u8>,
    dtype: TrtDataType,
    label: Seq<char>,
)
    requires
        n.add_owned_constant(dims, bytes, dtype, label).0.goes_on(),
    ensures
        is_constant(
            (#[trigger] n.add_owned_constant(dims, bytes, dtype, label)).0,
            n.add_owned_constant(dims, bytes, dtype, label).1,
            dims,
            bytes,
            dtype,
        ),
{
    reveal(Run::add_owned_constant);
    reveal(Run::ask);
}

pub(crate) broadcast proof fn forms_constant_output(
    n: Run,
    l: usize,
    label: Seq<char>,
    dims: Seq<i64>,
    bytes: Seq<u8>,
    dtype: TrtDataType,
)
    requires
        n.output(l, label).0.goes_on(),
        #[trigger] is_constant(n, l, dims, bytes, dtype),
    ensures
        ({
            let (after, t) = #[trigger] n.output(l, label);
            after.has(t) && after.form(t) == Form::Constant(dims, bytes, dtype)
        }),
{
    broadcast use earlier_is;

    reveal(shaped);
    layer_is_set(n, l, label);
}

pub(crate) broadcast proof fn forms_constant(
    n: Run,
    dims: Seq<i64>,
    bytes: Seq<u8>,
    dtype: TrtDataType,
    add_label: Seq<char>,
    output_label: Seq<char>,
)
    requires
        n.constant(dims, bytes, dtype, add_label, output_label).0.goes_on(),
    ensures
        ({
            let (after, t) = #[trigger] n.constant(dims, bytes, dtype, add_label, output_label);
            after.has(t) && after.form(t) == Form::Constant(dims, bytes, dtype)
        }),
{
    broadcast use {group_grows, grows_stopped, grows_step_output, went_on};

    reveal(Run::constant);
    reveal(Run::add_constant);
    reveal(Run::ask);
    let (a, l) = n.add_constant(dims, bytes, dtype, add_label);
    broadcast use earlier_is;

    reveal(shaped);
    layer_is_set(a, l, output_label);
}

pub broadcast group group_forms {
    grows_step_cast,
    grows_step_concat,
    grows_step_constant,
    grows_step_elementwise,
    grows_step_identity,
    grows_step_output,
    grows_step_padding,
    grows_step_reshape,
    grows_step_slice,
    grows_step_transpose,
    grows_step_unary,
    grows_stopped,
    went_on,
    form_is_kept,
    forms_identity,
    forms_cast,
    forms_unary,
    forms_elementwise,
    forms_padding,
    forms_slice,
    forms_reshape,
    forms_transpose,
    forms_constant,
}

/// The layers that compute on more than one element at a time.
pub broadcast group group_wide_forms {
    grows_step_activation,
    grows_step_dequantize,
    grows_step_matrix_multiply,
    grows_step_reduce,
    grows_step_resize,
    grows_step_select,
    forms_reduce,
    forms_activation,
    forms_matrix_multiply,
    forms_select,
    forms_dequantize,
    forms_resize,
}

} // verus!
