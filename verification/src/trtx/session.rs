//! The building of a TensorRT network as a conversation.
//!
//! Building a network takes answers from TensorRT: whether a layer was accepted, and which
//! dimensions and element type the tensors have that come out of it. A [`Network`] holds the
//! requests made so far and the replies received so far. The conversion makes each request in
//! turn. Where the reply is there, it goes on; where it is not, it stops with [`Halt::Pending`],
//! and the caller performs the last request, adds the reply and starts again.

use crate::graph::{GraphInfo, Operand};
use crate::scalar::extend_bytes;
use crate::text::{decimal, join2, say, Message};
use crate::trtx::types::{
    ActivationType, ConstantStorage, CumulativeOperation, ElementWiseOperation, GatherMode, Layer,
    MatrixOperation, PaddingMode, PoolingType, ReduceOperation, ResizeCoordinateTransformation,
    ResizeMode, ResizeRoundMode, ScatterMode, Tensor, TopKOperation, TrtDataType, UnaryOperation,
};
use std::collections::HashMap;
use vstd::prelude::*;

verus! {

/// The bytes of a constant: given outright, or those of an earlier reply.
#[derive(Debug)]
pub enum WeightsOf<B> {
    Bytes(B),
    /// The bytes that answer the request at this position.
    Reply(usize),
}

/// One call on the network under construction. The parameters stand for the ways in which lists
/// of `i64`, lists of `i32`, bytes, lists of tensors and text are held: as vectors and strings in
/// code, as sequences in contracts.
#[allow(inconsistent_fields)]
#[derive(Debug)]
pub enum RequestOf<D, P, B, T, S> {
    AddInput { name: S, dtype: TrtDataType, dims: D },
    AddConstant {
        dims: D,
        weights: WeightsOf<B>,
        dtype: TrtDataType,
        name: Option<S>,
        storage: ConstantStorage,
    },
    AddIdentity { input: Tensor },
    AddCast { input: Tensor, dtype: TrtDataType },
    AddElementwise { a: Tensor, b: Tensor, op: ElementWiseOperation },
    AddActivation { input: Tensor, kind: ActivationType },
    AddUnary { input: Tensor, op: UnaryOperation },
    AddParametricRelu { input: Tensor, slope: Tensor },
    AddShuffle { input: Tensor },
    AddResize { input: Tensor },
    AddReduce { input: Tensor, op: ReduceOperation, axes: u32, keep_dims: bool },
    AddSlice { input: Tensor, start: D, size: D, stride: D },
    AddConcatenation { inputs: T },
    AddMatrixMultiply { a: Tensor, op_a: MatrixOperation, b: Tensor, op_b: MatrixOperation },
    AddPooling { input: Tensor, kind: PoolingType, window: (i64, i64) },
    AddConvolution { input: Tensor, output_maps: i32, kernel: (i32, i32) },
    AddDeconvolution { input: Tensor, output_maps: i64, kernel: (i64, i64) },
    AddPadding { input: Tensor, pre: (i64, i64), post: (i64, i64) },
    AddQuantize { input: Tensor, scale: Tensor, dtype: TrtDataType },
    AddDequantize { input: Tensor, scale: Tensor, dtype: TrtDataType },
    AddGather { data: Tensor, indices: Tensor, axis: i32 },
    AddScatter { data: Tensor, indices: Tensor, updates: Tensor, mode: ScatterMode },
    AddTopK { input: Tensor, op: TopKOperation, k: i32, axes: u32 },
    AddSelect { condition: Tensor, on_true: Tensor, on_false: Tensor },
    AddSoftmax { input: Tensor, axes: u32 },
    AddCumulative {
        input: Tensor,
        axis: Tensor,
        op: CumulativeOperation,
        exclusive: bool,
        reverse: bool,
    },
    /// Takes the output tensor at `index` of a layer.
    Output { layer: Layer, index: i32 },
    SetFirstTranspose { layer: Layer, order: P },
    SetReshapeDimensions { layer: Layer, dims: D },
    SetOutputDimensions { layer: Layer, dims: D },
    SetResizeMode { layer: Layer, mode: ResizeMode },
    SetCoordinateTransformation { layer: Layer, mode: ResizeCoordinateTransformation },
    SetNearestRounding { layer: Layer, mode: ResizeRoundMode },
    SetAxis { layer: Layer, axis: i32 },
    SetGatherMode { layer: Layer, mode: GatherMode },
    SetInput { layer: Layer, index: i32, tensor: Tensor },
    SetStride { layer: Layer, stride: (i64, i64) },
    SetPadding { layer: Layer, padding: (i64, i64) },
    SetPrePadding { layer: Layer, padding: (i64, i64) },
    SetPostPadding { layer: Layer, padding: (i64, i64) },
    SetPaddingMode { layer: Layer, mode: PaddingMode },
    SetDilation { layer: Layer, dilation: (i64, i64) },
    SetNumGroups { layer: Layer, groups: i64 },
    SetAverageCountExcludesPadding { layer: Layer, excludes: bool },
    SetLayerName { layer: Layer, name: S },
    SetTensorName { tensor: Tensor, name: S },
    MarkOutput { tensor: Tensor },
    /// Asks for the bytes of a constant operand of the graph.
    ConstantData { operand: u32 },
    /// Asks for `extent` times the `f32` with the bit pattern `scale`, computed in double
    /// precision, rounded half away from zero, and at least 1.
    ScaledExtent { extent: i64, scale: u32 },
    /// Asks for the shape that an arg-min or arg-max along `axis` has.
    InferArgReduceShape { shape: D, axis: u32, keep_dims: bool },
    /// Asks for the shape that a selection between two tensors has.
    InferWhereShape { condition: D, on_true: D, on_false: D },
    /// Asks for the shape that a pooling has, in NCHW order.
    InferPool2dShape {
        shape: D,
        window: (u32, u32),
        strides: (u32, u32),
        dilations: (u32, u32),
        padding: (u32, u32, u32, u32),
        ceil: bool,
    },
    /// Asks which rounding the output sizes imply of the pooling that writes the operand `output`:
    /// an extent of 1 for up, an extent of 0 for down, and nothing where they imply none.
    InferPoolRounding { output: u32 },
}

/// What a request is answered.
#[derive(Debug)]
pub enum ReplyOf<D, B, S> {
    /// The call succeeded and there is nothing more to tell.
    Done,
    /// A tensor: its dimensions, or why they cannot be had, and its element type.
    Tensor { dims: Result<D, S>, dtype: TrtDataType },
    Bytes(B),
    Extent(i64),
    Shape(D),
    /// The call failed, with this message.
    Failed(S),
}

/// Why a conversion stopped.
#[derive(Debug)]
pub enum HaltOf<S> {
    /// The last request has no reply yet.
    Pending,
    /// The graph cannot be converted, for this reason.
    Failed(S),
    /// A value of the graph or of a reply lies outside the range the conversion computes on: an
    /// index past the end, an axis that no 32-bit mask holds, a count that overflows.
    OutOfRange,
    /// Shape inference refused the operation, with this message.
    InferenceFailed(S),
}

pub type Weights = WeightsOf<Vec<u8>>;

pub type Request = RequestOf<Vec<i64>, Vec<i32>, Vec<u8>, Vec<Tensor>, String>;

pub type Reply = ReplyOf<Vec<i64>, Vec<u8>, String>;

pub type Halt = HaltOf<String>;

/// A request as contracts see it.
pub type RequestView = RequestOf<Seq<i64>, Seq<i32>, Seq<u8>, Seq<Tensor>, Seq<char>>;

/// A reply as contracts see it.
pub type ReplyView = ReplyOf<Seq<i64>, Seq<u8>, Seq<char>>;

/// A halt as contracts see it.
pub type HaltView = HaltOf<Seq<char>>;

impl View for WeightsOf<Vec<u8>> {
    type V = WeightsOf<Seq<u8>>;

    open spec fn view(&self) -> WeightsOf<Seq<u8>> {
        match self {
            WeightsOf::Bytes(b) => WeightsOf::Bytes(b@),
            WeightsOf::Reply(i) => WeightsOf::Reply(*i),
        }
    }
}

impl View for RequestOf<Vec<i64>, Vec<i32>, Vec<u8>, Vec<Tensor>, String> {
    type V = RequestView;

    open spec fn view(&self) -> RequestView {
        match *self {
            RequestOf::AddInput { name, dtype, dims } => RequestOf::AddInput {
                name: name@,
                dtype,
                dims: dims@,
            },
            RequestOf::AddConstant { dims, weights, dtype, name, storage } => RequestOf::AddConstant {
                dims: dims@,
                weights: weights@,
                dtype,
                name: match name {
                    Some(s) => Some(s@),
                    None => None,
                },
                storage,
            },
            RequestOf::AddIdentity { input } => RequestOf::AddIdentity { input },
            RequestOf::AddCast { input, dtype } => RequestOf::AddCast { input, dtype },
            RequestOf::AddElementwise { a, b, op } => RequestOf::AddElementwise { a, b, op },
            RequestOf::AddActivation { input, kind } => RequestOf::AddActivation { input, kind },
            RequestOf::AddUnary { input, op } => RequestOf::AddUnary { input, op },
            RequestOf::AddParametricRelu { input, slope } => RequestOf::AddParametricRelu {
                input,
                slope,
            },
            RequestOf::AddShuffle { input } => RequestOf::AddShuffle { input },
            RequestOf::AddResize { input } => RequestOf::AddResize { input },
            RequestOf::AddReduce { input, op, axes, keep_dims } => RequestOf::AddReduce {
                input,
                op,
                axes,
                keep_dims,
            },
            RequestOf::AddSlice { input, start, size, stride } => RequestOf::AddSlice {
                input,
                start: start@,
                size: size@,
                stride: stride@,
            },
            RequestOf::AddConcatenation { inputs } => RequestOf::AddConcatenation {
                inputs: inputs@,
            },
            RequestOf::AddMatrixMultiply { a, op_a, b, op_b } => RequestOf::AddMatrixMultiply {
                a,
                op_a,
                b,
                op_b,
            },
            RequestOf::AddPooling { input, kind, window } => RequestOf::AddPooling {
                input,
                kind,
                window,
            },
            RequestOf::AddConvolution { input, output_maps, kernel } => RequestOf::AddConvolution {
                input,
                output_maps,
                kernel,
            },
            RequestOf::AddDeconvolution { input, output_maps, kernel } =>
                RequestOf::AddDeconvolution { input, output_maps, kernel },
            RequestOf::AddPadding { input, pre, post } => RequestOf::AddPadding {
                input,
                pre,
                post,
            },
            RequestOf::AddQuantize { input, scale, dtype } => RequestOf::AddQuantize {
                input,
                scale,
                dtype,
            },
            RequestOf::AddDequantize { input, scale, dtype } => RequestOf::AddDequantize {
                input,
                scale,
                dtype,
            },
            RequestOf::AddGather { data, indices, axis } => RequestOf::AddGather {
                data,
                indices,
                axis,
            },
            RequestOf::AddScatter { data, indices, updates, mode } => RequestOf::AddScatter {
                data,
                indices,
                updates,
                mode,
            },
            RequestOf::AddTopK { input, op, k, axes } => RequestOf::AddTopK { input, op, k, axes },
            RequestOf::AddSelect { condition, on_true, on_false } => RequestOf::AddSelect {
                condition,
                on_true,
                on_false,
            },
            RequestOf::AddSoftmax { input, axes } => RequestOf::AddSoftmax { input, axes },
            RequestOf::AddCumulative { input, axis, op, exclusive, reverse } =>
                RequestOf::AddCumulative { input, axis, op, exclusive, reverse },
            RequestOf::Output { layer, index } => RequestOf::Output { layer, index },
            RequestOf::SetFirstTranspose { layer, order } => RequestOf::SetFirstTranspose {
                layer,
                order: order@,
            },
            RequestOf::SetReshapeDimensions { layer, dims } => RequestOf::SetReshapeDimensions {
                layer,
                dims: dims@,
            },
            RequestOf::SetOutputDimensions { layer, dims } => RequestOf::SetOutputDimensions {
                layer,
                dims: dims@,
            },
            RequestOf::SetResizeMode { layer, mode } => RequestOf::SetResizeMode { layer, mode },
            RequestOf::SetCoordinateTransformation { layer, mode } =>
                RequestOf::SetCoordinateTransformation { layer, mode },
            RequestOf::SetNearestRounding { layer, mode } => RequestOf::SetNearestRounding {
                layer,
                mode,
            },
            RequestOf::SetAxis { layer, axis } => RequestOf::SetAxis { layer, axis },
            RequestOf::SetGatherMode { layer, mode } => RequestOf::SetGatherMode { layer, mode },
            RequestOf::SetInput { layer, index, tensor } => RequestOf::SetInput {
                layer,
                index,
                tensor,
            },
            RequestOf::SetStride { layer, stride } => RequestOf::SetStride { layer, stride },
            RequestOf::SetPadding { layer, padding } => RequestOf::SetPadding { layer, padding },
            RequestOf::SetPrePadding { layer, padding } => RequestOf::SetPrePadding {
                layer,
                padding,
            },
            RequestOf::SetPostPadding { layer, padding } => RequestOf::SetPostPadding {
                layer,
                padding,
            },
            RequestOf::SetPaddingMode { layer, mode } => RequestOf::SetPaddingMode { layer, mode },
            RequestOf::SetDilation { layer, dilation } => RequestOf::SetDilation {
                layer,
                dilation,
            },
            RequestOf::SetNumGroups { layer, groups } => RequestOf::SetNumGroups { layer, groups },
            RequestOf::SetAverageCountExcludesPadding { layer, excludes } =>
                RequestOf::SetAverageCountExcludesPadding { layer, excludes },
            RequestOf::SetLayerName { layer, name } => RequestOf::SetLayerName {
                layer,
                name: name@,
            },
            RequestOf::SetTensorName { tensor, name } => RequestOf::SetTensorName {
                tensor,
                name: name@,
            },
            RequestOf::MarkOutput { tensor } => RequestOf::MarkOutput { tensor },
            RequestOf::ConstantData { operand } => RequestOf::ConstantData { operand },
            RequestOf::ScaledExtent { extent, scale } => RequestOf::ScaledExtent {
                extent,
                scale,
            },
            RequestOf::InferArgReduceShape { shape, axis, keep_dims } =>
                RequestOf::InferArgReduceShape { shape: shape@, axis, keep_dims },
            RequestOf::InferWhereShape { condition, on_true, on_false } =>
                RequestOf::InferWhereShape {
                condition: condition@,
                on_true: on_true@,
                on_false: on_false@,
            },
            RequestOf::InferPool2dShape { shape, window, strides, dilations, padding, ceil } =>
                RequestOf::InferPool2dShape {
                shape: shape@,
                window,
                strides,
                dilations,
                padding,
                ceil,
            },
            RequestOf::InferPoolRounding { output } => RequestOf::InferPoolRounding { output },
        }
    }
}

impl View for ReplyOf<Vec<i64>, Vec<u8>, String> {
    type V = ReplyView;

    open spec fn view(&self) -> ReplyView {
        match *self {
            ReplyOf::Done => ReplyOf::Done,
            ReplyOf::Tensor { dims, dtype } => ReplyOf::Tensor {
                dims: match dims {
                    Ok(d) => Ok(d@),
                    Err(e) => Err(e@),
                },
                dtype,
            },
            ReplyOf::Bytes(b) => ReplyOf::Bytes(b@),
            ReplyOf::Extent(e) => ReplyOf::Extent(e),
            ReplyOf::Shape(d) => ReplyOf::Shape(d@),
            ReplyOf::Failed(m) => ReplyOf::Failed(m@),
        }
    }
}

impl View for HaltOf<String> {
    type V = HaltView;

    open spec fn view(&self) -> HaltView {
        match *self {
            HaltOf::Pending => HaltOf::Pending,
            HaltOf::Failed(m) => HaltOf::Failed(m@),
            HaltOf::OutOfRange => HaltOf::OutOfRange,
            HaltOf::InferenceFailed(m) => HaltOf::InferenceFailed(m@),
        }
    }
}

/// How far a conversation has come: the requests made, the replies at hand, and why it stopped,
/// if it did. A conversation that has stopped takes no further step.
pub struct Run {
    pub requests: Seq<RequestView>,
    pub replies: Seq<ReplyView>,
    pub halt: Option<HaltView>,
}

impl Run {
    /// Stops here, unless it has stopped already.
    pub open spec fn stop(self, why: HaltView) -> Run {
        if self.halt is Some {
            self
        } else {
            Run { halt: Some(why), ..self }
        }
    }

    /// Stops with `reason`, unless it has stopped already.
    pub open spec fn fail(self, reason: Seq<char>) -> Run {
        self.stop(HaltOf::Failed(reason))
    }

    /// Makes a request. A failed reply stops the conversation, with `label` before its message.
    /// The result is the position of the request.
    #[verifier::opaque]
    pub open spec fn ask(self, request: RequestView, label: Seq<char>) -> (Run, usize) {
        if self.halt is Some {
            (self, 0)
        } else {
            let asked = Run { requests: self.requests.push(request), ..self };
            if self.requests.len() >= self.replies.len() {
                (asked.stop(HaltOf::Pending), 0)
            } else {
                match self.replies[self.requests.len() as int] {
                    ReplyOf::Failed(message) => (asked.fail(label + message), 0),
                    _ => (asked, self.requests.len() as usize),
                }
            }
        }
    }

    /// Asks for a shape. A failed reply stops the conversation as a refusal of shape inference.
    #[verifier::opaque]
    pub open spec fn infer(self, request: RequestView) -> (Run, Seq<i64>) {
        if self.halt is Some {
            (self, seq![])
        } else {
            let asked = Run { requests: self.requests.push(request), ..self };
            if self.requests.len() >= self.replies.len() {
                (asked.stop(HaltOf::Pending), seq![])
            } else {
                match self.replies[self.requests.len() as int] {
                    ReplyOf::Failed(message) => (
                        asked.stop(HaltOf::InferenceFailed(message)),
                        seq![],
                    ),
                    ReplyOf::Shape(shape) => (asked, shape),
                    _ => (asked.fail("no shape"@), seq![]),
                }
            }
        }
    }

    /// Makes a request whose outcome does not matter.
    #[verifier::opaque]
    pub open spec fn tell(self, request: RequestView) -> Run {
        if self.halt is Some {
            self
        } else {
            let asked = Run { requests: self.requests.push(request), ..self };
            if self.requests.len() >= self.replies.len() {
                asked.stop(HaltOf::Pending)
            } else {
                asked
            }
        }
    }

    /// The dimensions of a tensor. Where they cannot be had, the conversation stops, with `label`
    /// before the message.
    #[verifier::opaque]
    pub open spec fn dims(self, tensor: Tensor, label: Seq<char>) -> (Run, Seq<i64>) {
        if self.halt is Some {
            (self, seq![])
        } else {
            match self.reply(tensor.id) {
                Some(ReplyOf::Tensor { dims: Ok(dims), .. }) => (self, dims),
                Some(ReplyOf::Tensor { dims: Err(message), .. }) => (
                    self.fail(label + message),
                    seq![],
                ),
                _ => (self.fail(label + "no such tensor"@), seq![]),
            }
        }
    }

    /// The reply to the request at `position`, where that request was made and answered.
    pub open spec fn reply(self, position: usize) -> Option<ReplyView> {
        if position < self.requests.len() && position < self.replies.len() {
            Some(self.replies[position as int])
        } else {
            None
        }
    }

    /// The element type of a tensor.
    pub open spec fn dtype(self, tensor: Tensor) -> TrtDataType {
        match self.reply(tensor.id) {
            Some(ReplyOf::Tensor { dtype, .. }) => dtype,
            _ => TrtDataType::kFLOAT,
        }
    }

    /// The bytes that answered the request at `position`.
    pub open spec fn bytes(self, position: usize) -> Seq<u8> {
        match self.reply(position) {
            Some(ReplyOf::Bytes(bytes)) => bytes,
            _ => seq![],
        }
    }

    /// The extent that answered the request at `position`.
    pub open spec fn extent(self, position: usize) -> Option<i64> {
        match self.reply(position) {
            Some(ReplyOf::Extent(extent)) => Some(extent),
            _ => None,
        }
    }

    /// The shape that answered the request at `position`.
    pub open spec fn shape(self, position: usize) -> Seq<i64> {
        match self.reply(position) {
            Some(ReplyOf::Shape(shape)) => shape,
            _ => seq![],
        }
    }

    /// The tensor of an operand. Where there is none, the conversation stops; the reason names the
    /// operand between `before` and `after`.
    pub open spec fn find(
        self,
        tensors: Map<u32, Tensor>,
        id: u32,
        before: Seq<char>,
        after: Seq<char>,
    ) -> (Run, Tensor) {
        if tensors.contains_key(id) {
            (self, tensors[id])
        } else {
            (self.fail(before + decimal(id as nat) + after), Tensor { id: 0 })
        }
    }

    /// The operand with the number `id`. Where the graph has none, the conversation stops; the
    /// reason names the operand between `before` and `after`.
    pub open spec fn operand(
        self,
        graph: GraphInfo,
        id: u32,
        before: Seq<char>,
        after: Seq<char>,
    ) -> (Run, Operand) {
        if id < graph.operands@.len() {
            (self, graph.operands@[id as int])
        } else {
            (self.fail(before + decimal(id as nat) + after), graph.operands@[id as int])
        }
    }

    /// Stops with `reason` where `wrong` holds.
    pub open spec fn reject_if(self, wrong: bool, reason: Seq<char>) -> Run {
        if wrong {
            self.fail(reason)
        } else {
            self
        }
    }
}

/// A conversation that has stopped stays as it is.
pub broadcast proof fn stopped_ask(run: Run, request: RequestView, label: Seq<char>)
    requires
        run.halt is Some,
    ensures
        #[trigger] run.ask(request, label) == (run, 0usize),
{
    reveal(Run::ask);
}

pub broadcast proof fn stopped_tell(run: Run, request: RequestView)
    requires
        run.halt is Some,
    ensures
        #[trigger] run.tell(request) == run,
{
    reveal(Run::tell);
}

pub broadcast proof fn stopped_dims(run: Run, tensor: Tensor, label: Seq<char>)
    requires
        run.halt is Some,
    ensures
        (#[trigger] run.dims(tensor, label)).0 == run,
{
    reveal(Run::dims);
}

pub broadcast proof fn stopped_infer(run: Run, request: RequestView)
    requires
        run.halt is Some,
    ensures
        (#[trigger] run.infer(request)).0 == run,
{
    reveal(Run::infer);
}

pub broadcast group group_stopped {
    stopped_ask,
    stopped_infer,
    stopped_tell,
    stopped_dims,
}

/// The conversation after a step that ended in `r`.
pub open spec fn outcome<T>(after: Run, r: Result<T, Halt>) -> Run {
    match r {
        Ok(_) => after,
        Err(h) => Run { halt: Some(h@), ..after },
    }
}

/// Whether a step that ended in `r` is `step`: the conversation that it leads to, and the value
/// that it gives.
pub open spec fn gives<T>(after: Run, r: Result<T, Halt>, step: (Run, T)) -> bool {
    &&& outcome(after, r) == step.0
    &&& r matches Ok(value) ==> value == step.1
}

/// Gives the operand `id` the tensor `t`, unless the conversation has stopped.
pub open spec fn store(n: Run, m: Map<u32, Tensor>, id: u32, t: Tensor) -> (
    Run,
    Map<u32, Tensor>,
) {
    (
        n,
        if n.halt is Some {
            m
        } else {
            m.insert(id, t)
        },
    )
}

/// Whether an operation that ended in `r` with the tensors `m` is `step`.
pub open spec fn does(
    after: Run,
    r: Result<(), Halt>,
    m: Map<u32, Tensor>,
    step: (Run, Map<u32, Tensor>),
) -> bool {
    outcome(after, r) == step.0 && m == step.1
}

/// The tensors of the operands that have one so far.
pub struct TensorMap {
    pub map: HashMap<u32, Tensor>,
}

impl View for TensorMap {
    type V = Map<u32, Tensor>;

    open spec fn view(&self) -> Map<u32, Tensor> {
        self.map@
    }
}

impl TensorMap {
    /// No tensors.
    pub fn new() -> (m: TensorMap)
        ensures
            m@ == Map::<u32, Tensor>::empty(),
    {
        broadcast use vstd::std_specs::hash::group_hash_axioms;

        TensorMap { map: HashMap::new() }
    }

    /// The tensor of an operand, or a reason that names the operand between `before` and `after`.
    pub fn find(&self, id: u32, before: &str, after: &str) -> (r: Result<Tensor, Halt>)
        ensures
            r matches Ok(t) ==> self@.contains_key(id) && t == self@[id],
            r matches Err(h) ==> !self@.contains_key(id) && h@ == HaltView::Failed(
                before@ + decimal(id as nat) + after@,
            ),
    {
        broadcast use vstd::std_specs::hash::group_hash_axioms;

        match self.map.get(&id) {
            Some(t) => Ok(*t),
            None => Err(say(before).num32(id).str(after).halt()),
        }
    }

    /// The tensor of an operand, if it has one.
    pub fn get(&self, id: u32) -> (r: Option<Tensor>)
        ensures
            r == (if self@.contains_key(id) {
                Some(self@[id])
            } else {
                None
            }),
    {
        broadcast use vstd::std_specs::hash::group_hash_axioms;

        match self.map.get(&id) {
            Some(t) => Some(*t),
            None => None,
        }
    }

    /// Gives an operand a tensor.
    pub fn insert(&mut self, id: u32, tensor: Tensor)
        ensures
            final(self)@ == old(self)@.insert(id, tensor),
    {
        broadcast use vstd::std_specs::hash::group_hash_axioms;

        self.map.insert(id, tensor);
    }
}

impl Message {
    /// The text as the reason why a conversion failed.
    pub fn halt(self) -> (h: Halt)
        ensures
            h@ == HaltView::Failed(self@),
    {
        HaltOf::Failed(self.text)
    }
}

/// The operand with the number `id`, or a reason that names it between `before` and `after`.
pub fn find_operand<'a>(graph: &'a GraphInfo, id: u32, before: &str, after: &str) -> (r: Result<
    &'a Operand,
    Halt,
>)
    ensures
        r matches Ok(o) ==> id < graph.operands@.len() && *o == graph.operands@[id as int],
        r matches Err(h) ==> id >= graph.operands@.len() && h@ == HaltView::Failed(
            before@ + decimal(id as nat) + after@,
        ),
{
    match graph.operand(id) {
        Some(o) => Ok(o),
        None => Err(say(before).num32(id).str(after).halt()),
    }
}

/// The requests made and the replies received in the building of one network.
pub struct Network {
    pub requests: Vec<Request>,
    pub replies: Vec<Reply>,
}

/// The requests of a list as contracts see them.
pub open spec fn request_views(s: Seq<Request>) -> Seq<RequestView> {
    s.map_values(|r: Request| r@)
}

/// The replies of a list as contracts see them.
pub open spec fn reply_views(s: Seq<Reply>) -> Seq<ReplyView> {
    s.map_values(|r: Reply| r@)
}

impl View for Network {
    type V = Run;

    open spec fn view(&self) -> Run {
        Run {
            requests: request_views(self.requests@),
            replies: reply_views(self.replies@),
            halt: None,
        }
    }
}

/// A copy of `v`.
pub fn copy_i64(v: &Vec<i64>) -> (c: Vec<i64>)
    ensures
        c@ == v@,
{
    let mut c: Vec<i64> = Vec::new();
    let mut i: usize = 0;
    while i < v.len()
        invariant
            i <= v.len(),
            c@ == v@.take(i as int),
        decreases v.len() - i,
    {
        c.push(v[i]);
        proof {
            assert(v@.take(i + 1) =~= v@.take(i as int).push(v@[i as int]));
        }
        i = i + 1;
    }
    proof {
        assert(v@.take(v@.len() as int) =~= v@);
    }
    c
}

impl Network {
    /// A network with no requests and no replies.
    pub fn new() -> (n: Network)
        ensures
            n@.requests == Seq::<RequestView>::empty(),
            n@.replies == Seq::<ReplyView>::empty(),
    {
        let n = Network { requests: Vec::new(), replies: Vec::new() };
        proof {
            assert(n@.requests =~= Seq::<RequestView>::empty());
            assert(n@.replies =~= Seq::<ReplyView>::empty());
        }
        n
    }

    /// Makes a request whose failure stops the conversation, with `label` before the message.
    pub fn ask(&mut self, request: Request, label: &str) -> (r: Result<usize, Halt>)
        ensures
            outcome(final(self)@, r) == old(self)@.ask(request@, label@).0,
            r matches Ok(i) ==> i == old(self)@.ask(request@, label@).1,
    {
        let position: usize = self.requests.len();
        proof {
            reveal(Run::ask);
            assert(request_views(self.requests@.push(request)) =~= request_views(
                self.requests@,
            ).push(request@));
        }
        self.requests.push(request);
        if position >= self.replies.len() {
            return Err(HaltOf::Pending);
        }
        match &self.replies[position] {
            ReplyOf::Failed(message) => Err(HaltOf::Failed(join2(label, message.as_str()))),
            _ => Ok(position),
        }
    }

    /// Makes a request whose outcome does not matter.
    pub fn tell(&mut self, request: Request) -> (r: Result<(), Halt>)
        ensures
            outcome(final(self)@, r) == old(self)@.tell(request@),
    {
        let position: usize = self.requests.len();
        proof {
            reveal(Run::tell);
            assert(request_views(self.requests@.push(request)) =~= request_views(
                self.requests@,
            ).push(request@));
        }
        self.requests.push(request);
        if position >= self.replies.len() {
            return Err(HaltOf::Pending);
        }
        Ok(())
    }

    /// Asks for a shape.
    pub fn infer(&mut self, request: Request) -> (r: Result<Vec<i64>, Halt>)
        ensures
            outcome(final(self)@, r) == old(self)@.infer(request@).0,
            r matches Ok(d) ==> d@ == old(self)@.infer(request@).1,
    {
        let position: usize = self.requests.len();
        proof {
            reveal(Run::infer);
            assert(request_views(self.requests@.push(request)) =~= request_views(
                self.requests@,
            ).push(request@));
        }
        self.requests.push(request);
        if position >= self.replies.len() {
            return Err(HaltOf::Pending);
        }
        match &self.replies[position] {
            ReplyOf::Failed(message) => Err(HaltOf::InferenceFailed(message.clone())),
            ReplyOf::Shape(shape) => Ok(copy_i64(shape)),
            _ => Err(HaltOf::Failed(say("no shape").text)),
        }
    }

    /// The bytes that answered the request at `position`.
    pub fn bytes(&self, position: usize) -> (b: Vec<u8>)
        ensures
            b@ == self@.bytes(position),
    {
        if position < self.requests.len() && position < self.replies.len() {
            match &self.replies[position] {
                ReplyOf::Bytes(bytes) => {
                    let mut b: Vec<u8> = Vec::new();
                    extend_bytes(&mut b, bytes);
                    assert(b@ =~= bytes@);
                    b
                },
                _ => Vec::new(),
            }
        } else {
            Vec::new()
        }
    }

    /// The number of bytes that answered the request at `position`.
    pub fn bytes_len(&self, position: usize) -> (n: usize)
        ensures
            n == self@.bytes(position).len(),
    {
        if position < self.requests.len() && position < self.replies.len() {
            match &self.replies[position] {
                ReplyOf::Bytes(bytes) => bytes.len(),
                _ => 0,
            }
        } else {
            0
        }
    }

    /// The constant operand whose bytes the last request asks for, where it does and has no reply.
    pub fn awaited_constant(&self) -> (id: Option<u32>)
        ensures
            id matches Some(id) ==> self@.requests.len() > self@.replies.len() && self@.requests.last()
                == (RequestView::ConstantData { operand: id }),
            id is None && self@.requests.len() > self@.replies.len() ==> !(self@.requests.last()
                is ConstantData),
    {
        let n: usize = self.requests.len();
        if n > self.replies.len() {
            match &self.requests[n - 1] {
                RequestOf::ConstantData { operand } => Some(*operand),
                _ => None,
            }
        } else {
            None
        }
    }

    /// Adds a reply.
    pub fn answer(&mut self, reply: Reply)
        ensures
            final(self)@.requests == old(self)@.requests,
            final(self)@.replies == old(self)@.replies.push(reply@),
    {
        proof {
            assert(reply_views(self.replies@.push(reply)) =~= reply_views(self.replies@).push(
                reply@,
            ));
        }
        self.replies.push(reply);
    }

    /// Goes back to where only the first `to` requests had been made. The replies stay.
    pub fn rewind(&mut self, to: usize)
        requires
            to <= old(self)@.requests.len(),
        ensures
            final(self)@.requests == old(self)@.requests.take(to as int),
            final(self)@.replies == old(self)@.replies,
    {
        self.requests.truncate(to);
        proof {
            assert(self@.requests =~= old(self)@.requests.take(to as int));
        }
    }

    /// The extent that answered the request at `position`.
    pub fn extent(&self, position: usize) -> (e: Option<i64>)
        ensures
            e == self@.extent(position),
    {
        if position < self.requests.len() && position < self.replies.len() {
            match &self.replies[position] {
                ReplyOf::Extent(extent) => Some(*extent),
                _ => None,
            }
        } else {
            None
        }
    }

    /// The shape that answered the request at `position`.
    pub fn shape(&self, position: usize) -> (d: Vec<i64>)
        ensures
            d@ == self@.shape(position),
    {
        if position < self.requests.len() && position < self.replies.len() {
            match &self.replies[position] {
                ReplyOf::Shape(shape) => copy_i64(shape),
                _ => Vec::new(),
            }
        } else {
            Vec::new()
        }
    }

    /// The dimensions of a tensor.
    pub fn dims(&self, tensor: Tensor, label: &str) -> (r: Result<Vec<i64>, Halt>)
        ensures
            outcome(self@, r) == self@.dims(tensor, label@).0,
            r matches Ok(d) ==> d@ == self@.dims(tensor, label@).1,
    {
        proof {
            reveal(Run::dims);
        }
        if tensor.id < self.requests.len() && tensor.id < self.replies.len() {
            match &self.replies[tensor.id] {
                ReplyOf::Tensor { dims, .. } => match dims {
                    Ok(d) => Ok(copy_i64(d)),
                    Err(message) => Err(HaltOf::Failed(join2(label, message.as_str()))),
                },
                _ => Err(HaltOf::Failed(join2(label, "no such tensor"))),
            }
        } else {
            Err(HaltOf::Failed(join2(label, "no such tensor")))
        }
    }

    /// The element type of a tensor.
    pub fn dtype(&self, tensor: Tensor) -> (r: TrtDataType)
        ensures
            r == self@.dtype(tensor),
    {
        if tensor.id < self.requests.len() && tensor.id < self.replies.len() {
            match &self.replies[tensor.id] {
                ReplyOf::Tensor { dtype, .. } => *dtype,
                _ => TrtDataType::kFLOAT,
            }
        } else {
            TrtDataType::kFLOAT
        }
    }
}

} // verus!
