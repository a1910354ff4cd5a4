//! Normalization: over a batch, over an instance and over a layer.

use crate::data_type::DataType;
use crate::graph::{GraphInfo, Operand};
use crate::operators::{Operation, OperationKind};
use crate::scalar::{
    float_bytes, float_bytes_of, float_type, float_type_of, known, repeat_bytes, repeated, Known,
    Scalar,
};
use crate::text::{contains_ignoring_case, decimal, has_word, same_text, say};
use crate::trtx::broadcast::{broadcast_pair, group_broadcast_stopped, ones, ones_vec};
use crate::trtx::session::{
    copy_i64, does, find_operand, gives, group_stopped, store, Halt, HaltOf, Network, Request,
    RequestOf, Run, TensorMap,
};
use crate::trtx::shapes::{
    ascending, ascending_vec, axis_range, axis_range_vec, elements, elements_of, first_position,
    mask, mask_of, moved_axis, moved_axis_of, position_of, signed_product, signed_product_of,
    swapped_axes, swapped_axes_vec,
};
use crate::trtx::steps::group_layers_stopped;
use crate::trtx::types::{ElementWiseOperation, Layer, ReduceOperation, Tensor, UnaryOperation};
use crate::trtx::TrtxConverter;
use vstd::prelude::*;

verus! {

broadcast use {group_stopped, group_layers_stopped, group_broadcast_stopped};

/// Ones in `rank` dimensions, but for `c` at `at`.
pub open spec fn spike(rank: nat, at: int, c: i64) -> Seq<i64> {
    Seq::new(
        rank,
        |i: int|
            if i == at {
                c
            } else {
                1i64
            },
    )
}

/// Ones in `rank` dimensions, but for `c` at `at`.
pub fn spike_vec(rank: usize, at: usize, c: i64) -> (v: Vec<i64>)
    ensures
        v@ == spike(rank as nat, at as int, c),
{
    let mut v: Vec<i64> = Vec::with_capacity(rank);
    let mut i: usize = 0;
    while i < rank
        invariant
            i <= rank,
            v@.len() == i,
            forall|k: int| 0 <= k < i ==> #[trigger] v@[k] == spike(rank as nat, at as int, c)[k],
        decreases rank - i,
    {
        if i == at {
            v.push(c);
        } else {
            v.push(1);
        }
        i = i + 1;
    }
    assert(v@ =~= spike(rank as nat, at as int, c));
    v
}

/// Whether `dims` has `rank` dimensions, of which the first holds all `c` elements and belongs at
/// `at`.
pub open spec fn channel_first(dims: Seq<i64>, rank: nat, at: int, c: int) -> bool {
    &&& rank >= 2
    &&& dims.len() == rank
    &&& dims[0] == c
    &&& dims[at] != c
    &&& forall|i: int| 1 <= i < dims.len() ==> #[trigger] dims[i] == 1
}

fn is_channel_first(dims: &Vec<i64>, rank: usize, at: usize, c: i64) -> (b: bool)
    requires
        rank >= 2 ==> at < rank,
    ensures
        b == channel_first(dims@, rank as nat, at as int, c as int),
{
    if rank < 2 || dims.len() != rank || dims[0] != c || dims[at] == c {
        return false;
    }
    let mut i: usize = 1;
    while i < dims.len()
        invariant
            1 <= i <= dims.len(),
            forall|k: int| 1 <= k < i ==> #[trigger] dims@[k] == 1,
        decreases dims.len() - i,
    {
        if dims[i] != 1 {
            assert(dims@[i as int] != 1);
            return false;
        }
        i = i + 1;
    }
    true
}

/// The number of channels that statistics of the dimensions `dims` hold.
pub open spec fn channels(dims: Seq<i64>) -> int {
    match signed_product(dims) {
        Some(p) => if p < 1 {
            1
        } else {
            p
        },
        None => 1,
    }
}

/// Per-channel statistics reshaped so that the channels lie along `axis` of `input`, with ones
/// elsewhere.
#[verifier::opaque]
pub open spec fn channel_stats(
    n: Run,
    stats: Tensor,
    input: Tensor,
    axis: i64,
    op_name: Seq<char>,
) -> (Run, Tensor) {
    let (n, di) = n.dims(input, "Failed to get input dims for "@ + op_name + ": "@);
    let (n, ds) = n.dims(stats, "Failed to get stats dims for "@ + op_name + ": "@);
    let rank = di.len();
    let at = moved_axis(axis as int, rank);
    let c = channels(ds) as i64;
    if signed_product(ds) is None {
        (n.stop(HaltOf::OutOfRange), stats)
    } else if channel_first(ds, rank, at, c as int) {
        n.transpose(
            stats,
            swapped_axes(rank, 0, at),
            "Failed to add shuffle for "@ + op_name + " (4D transpose): "@,
            "Failed to set transpose for "@ + op_name + ": "@,
            "Failed to get shuffle output for "@ + op_name + ": "@,
        )
    } else if ds.len() == 1 {
        let (n, t) = n.reshape(
            stats,
            spike(rank, rank - 1, c),
            "Failed to add shuffle for "@ + op_name + ": "@,
            "Failed to set reshape for "@ + op_name + ": "@,
            "Failed to get shuffle output for "@ + op_name + ": "@,
        );
        if rank == 0 {
            (n.stop(HaltOf::OutOfRange), t)
        } else {
            n.transpose(
                t,
                swapped_axes(rank, at, rank - 1),
                "Failed to add second shuffle for "@ + op_name + ": "@,
                "Failed to set second transpose for "@ + op_name + ": "@,
                "Failed to get second shuffle output for "@ + op_name + ": "@,
            )
        }
    } else {
        n.reshape(
            stats,
            spike(rank, at, c),
            "Failed to add shuffle for "@ + op_name + ": "@,
            "Failed to set reshape for "@ + op_name + ": "@,
            "Failed to get shuffle output for "@ + op_name + ": "@,
        )
    }
}

pub broadcast proof fn stopped_channel_stats(
    n: Run,
    stats: Tensor,
    input: Tensor,
    axis: i64,
    op_name: Seq<char>,
)
    requires
        n.halt is Some,
    ensures
        (#[trigger] channel_stats(n, stats, input, axis, op_name)).0 == n,
{
    reveal(channel_stats);
}

/// The axis of the channels of a batch normalization, 1 where none is given.
pub open spec fn batch_axis(kind: OperationKind) -> i64 {
    match kind {
        OperationKind::BatchNormalization { options: Some(o) } => o.axis as i64,
        _ => 1,
    }
}

/// The scale and the bias of a batch normalization, where they are given.
pub open spec fn batch_scale_bias(kind: OperationKind) -> (Option<u32>, Option<u32>) {
    match kind {
        OperationKind::BatchNormalization { options: Some(o) } => (o.scale, o.bias),
        _ => (None, None),
    }
}

/// The guard against division by zero of a batch normalization.
pub open spec fn batch_epsilon(kind: OperationKind) -> Scalar {
    match kind {
        OperationKind::BatchNormalization { options: Some(o) } => o.epsilon,
        _ => known(Known::DefaultEpsilon),
    }
}

/// The variance of a batch normalization plus the guard, in the type of the input.
#[verifier::opaque]
pub open spec fn guarded_variance(
    n: Run,
    graph: GraphInfo,
    op: Operation,
    variance: Tensor,
    epsilon: Scalar,
) -> (Run, Tensor) {
    let (n, dv) = n.dims(variance, "BatchNorm: failed to get variance dimensions: "@);
    let (n, operand) = n.operand(
        graph,
        op.inputs@[0],
        "BatchNorm: input operand "@,
        " not found in graph"@,
    );
    let dt = operand.descriptor.data_type;
    let (n, count) = elements(n, dv);
    let (n, guard) = n.constant(
        dv,
        repeated(float_bytes(epsilon, dt), count),
        float_type(dt),
        "BatchNorm: failed to add epsilon constant: "@,
        "BatchNorm: epsilon const output: "@,
    );
    n.elementwise(
        variance,
        guard,
        ElementWiseOperation::kSUM,
        "BatchNorm: variance + epsilon: "@,
        "BatchNorm: var_plus_eps output: "@,
    )
}

pub broadcast proof fn stopped_guarded_variance(
    n: Run,
    graph: GraphInfo,
    op: Operation,
    variance: Tensor,
    epsilon: Scalar,
)
    requires
        n.halt is Some,
    ensures
        (#[trigger] guarded_variance(n, graph, op, variance, epsilon)).0 == n,
{
    reveal(guarded_variance);
}

/// Batch normalization: `(x - mean) / sqrt(variance + epsilon) * scale + bias`, with the statistics
/// along the channel axis.
pub open spec fn batch_normalization_op(
    n: Run,
    m: Map<u32, Tensor>,
    graph: GraphInfo,
    op: Operation,
) -> (Run, Map<u32, Tensor>) {
    let (n, x) = n.find(m, op.inputs@[0], "Input operand "@, " not found"@);
    let (n, mean) = n.find(m, op.inputs@[1], "Mean operand "@, " not found"@);
    let (n, variance) = n.find(m, op.inputs@[2], "Variance operand "@, " not found"@);
    let axis = batch_axis(op.kind);
    let (scale, bias) = batch_scale_bias(op.kind);
    let (n, mean) = channel_stats(n, mean, x, axis, "batch_norm_sub"@);
    let (n, centered) = n.named_layer(
        RequestOf::AddElementwise { a: x, b: mean, op: ElementWiseOperation::kSUB },
        "batch_norm_sub"@,
        "Failed to add sub for batch norm: "@,
        "Failed to get sub output: "@,
    );
    let (n, variance) = channel_stats(n, variance, x, axis, "batch_norm_var"@);
    let (n, guarded) = guarded_variance(n, graph, op, variance, batch_epsilon(op.kind));
    let (n, deviation) = n.named_layer(
        RequestOf::AddUnary { input: guarded, op: UnaryOperation::kSQRT },
        "batch_norm_sqrt_var"@,
        "Failed to add sqrt for batch norm: "@,
        "Failed to get sqrt output: "@,
    );
    let (n, t) = n.named_layer(
        RequestOf::AddElementwise { a: centered, b: deviation, op: ElementWiseOperation::kDIV },
        "batch_norm_div"@,
        "Failed to add div for batch norm: "@,
        "Failed to get div output: "@,
    );
    let (n, t) = if let Some(id) = scale {
        let (n, s) = n.find(m, id, "Scale operand "@, " not found"@);
        let (n, s) = channel_stats(n, s, t, axis, "batch_norm_scale"@);
        n.named_layer(
            RequestOf::AddElementwise { a: t, b: s, op: ElementWiseOperation::kPROD },
            "batch_norm_scale_mul"@,
            "Failed to add mul for scale: "@,
            "Failed to get mul output: "@,
        )
    } else {
        (n, t)
    };
    let (n, t) = if let Some(id) = bias {
        let (n, b) = n.find(m, id, "Bias operand "@, " not found"@);
        let (n, b) = channel_stats(n, b, t, axis, "batch_norm_bias"@);
        n.named_layer(
            RequestOf::AddElementwise { a: t, b, op: ElementWiseOperation::kSUM },
            "batch_norm_bias_add"@,
            "Failed to add bias: "@,
            "Failed to get add output: "@,
        )
    } else {
        (n, t)
    };
    store(n, m, op.outputs@[0], t)
}

/// The guard of an instance normalization, 0.00001 where none is given.
pub open spec fn instance_epsilon(kind: OperationKind) -> Scalar {
    match kind {
        OperationKind::InstanceNormalization { options: Some(o) } => o.epsilon,
        _ => known(Known::DefaultEpsilon),
    }
}

/// Whether an instance normalization has the channels second. It does where no layout is given.
pub open spec fn instance_nchw(kind: OperationKind) -> bool {
    match kind {
        OperationKind::InstanceNormalization { options: Some(o) } => o.layout@.len() == 0
            || o.layout@ == "nchw"@,
        _ => true,
    }
}

/// The name of an operand, or nothing where it has none.
pub open spec fn name_or_empty(graph: GraphInfo, id: u32) -> Seq<char> {
    if id < graph.operands@.len() {
        match graph.operands@[id as int].name {
            Some(s) => s@,
            None => seq![],
        }
    } else {
        seq![]
    }
}

/// The scale and the bias after the inputs from `from` on have been looked through: an operand
/// whose name holds the word fills a place that is still empty.
pub open spec fn named_scale_bias(
    graph: GraphInfo,
    inputs: Seq<u32>,
    from: nat,
    scale: Option<u32>,
    bias: Option<u32>,
) -> (Option<u32>, Option<u32>)
    decreases inputs.len() - from,
{
    if from >= inputs.len() {
        (scale, bias)
    } else {
        let id = inputs[from as int];
        let name = name_or_empty(graph, id);
        if scale is None && has_word(name, "scale"@) {
            named_scale_bias(graph, inputs, from + 1, Some(id), bias)
        } else if bias is None && has_word(name, "bias"@) {
            named_scale_bias(graph, inputs, from + 1, scale, Some(id))
        } else {
            named_scale_bias(graph, inputs, from + 1, scale, bias)
        }
    }
}

/// The scale and the bias of an instance normalization: those of the options, and else inputs that
/// are named so.
pub open spec fn instance_scale_bias(graph: GraphInfo, op: Operation) -> (Option<u32>, Option<u32>) {
    let (scale, bias) = match op.kind {
        OperationKind::InstanceNormalization { options: Some(o) } => (o.scale, o.bias),
        _ => (None::<u32>, None::<u32>),
    };
    if scale is None || bias is None {
        named_scale_bias(graph, op.inputs@, 1, scale, bias)
    } else {
        (scale, bias)
    }
}

fn instance_scale_bias_of(graph: &GraphInfo, operation: &Operation) -> (r: (
    Option<u32>,
    Option<u32>,
))
    ensures
        r == instance_scale_bias(*graph, *operation),
{
    let (mut scale, mut bias): (Option<u32>, Option<u32>) = match &operation.kind {
        OperationKind::InstanceNormalization { options: Some(o) } => (o.scale, o.bias),
        _ => (None, None),
    };
    if scale.is_some() && bias.is_some() {
        return (scale, bias);
    }
    let mut i: usize = 1;
    while i < operation.inputs.len()
        invariant
            1 <= i,
            instance_scale_bias(*graph, *operation) == named_scale_bias(
                *graph,
                operation.inputs@,
                i as nat,
                scale,
                bias,
            ),
        decreases operation.inputs.len() - i,
    {
        let id: u32 = operation.inputs[i];
        let (holds_scale, holds_bias) = match graph.operand(id) {
            Some(o) => match &o.name {
                Some(s) => (
                    contains_ignoring_case(s.as_str(), "scale"),
                    contains_ignoring_case(s.as_str(), "bias"),
                ),
                None => {
                    proof {
                        crate::text::no_word_in_nothing();
                    }
                    (false, false)
                },
            },
            None => {
                proof {
                    crate::text::no_word_in_nothing();
                }
                (false, false)
            },
        };
        if scale.is_none() && holds_scale {
            scale = Some(id);
        } else if bias.is_none() && holds_bias {
            bias = Some(id);
        }
        i = i + 1;
    }
    (scale, bias)
}

/// Ones in the dimensions of the input, but for the channels.
pub open spec fn channel_shape(dims: Seq<i64>, nchw: bool) -> Seq<i64> {
    if dims.len() == 0 {
        seq![1i64]
    } else if nchw {
        spike(dims.len(), 1, dims[1])
    } else {
        spike(dims.len(), dims.len() - 1, dims.last())
    }
}

/// The input of an instance normalization, centered and divided by its deviation over the axes of
/// `bits`: `(x - mean) / sqrt(variance + epsilon)`.
#[verifier::opaque]
pub open spec fn instance_normalized(
    n: Run,
    graph: GraphInfo,
    op: Operation,
    x: Tensor,
    bits: u32,
    epsilon: Scalar,
) -> (Run, Tensor) {
    let (n, mean) = n.reduce(
        x,
        ReduceOperation::kAVG,
        bits,
        true,
        "Failed to add mean reduce for instance norm: "@,
        "Failed to get mean output: "@,
    );
    let (n, centered) = n.elementwise(
        x,
        mean,
        ElementWiseOperation::kSUB,
        "Failed to add sub for instance norm: "@,
        "Failed to get sub output: "@,
    );
    let (n, squared) = n.elementwise(
        centered,
        centered,
        ElementWiseOperation::kPROD,
        "Failed to add square for instance norm: "@,
        "Failed to get square output: "@,
    );
    let (n, variance) = n.reduce(
        squared,
        ReduceOperation::kAVG,
        bits,
        true,
        "Failed to add variance reduce for instance norm: "@,
        "Failed to get variance output: "@,
    );
    let (n, dv) = n.dims(variance, "InstanceNorm: failed to get variance dimensions: "@);
    let (n, operand) = n.operand(
        graph,
        op.inputs@[0],
        "InstanceNorm: input operand "@,
        " not found in graph"@,
    );
    let dt = operand.descriptor.data_type;
    let (n, count) = elements(n, dv);
    let (n, guard) = n.constant(
        dv,
        repeated(float_bytes(epsilon, dt), count),
        float_type(dt),
        "InstanceNorm: failed to add epsilon constant: "@,
        "InstanceNorm: epsilon const output: "@,
    );
    let (n, guarded) = n.elementwise(
        variance,
        guard,
        ElementWiseOperation::kSUM,
        "InstanceNorm: variance + epsilon: "@,
        "InstanceNorm: var_plus_eps output: "@,
    );
    let (n, deviation) = n.unary(
        guarded,
        UnaryOperation::kSQRT,
        "Failed to add sqrt for instance norm: "@,
        "Failed to get sqrt output: "@,
    );
    let (n, t) = n.elementwise(
        centered,
        deviation,
        ElementWiseOperation::kDIV,
        "Failed to add div for instance norm: "@,
        "Failed to get div output: "@,
    );
    (n, t)
}

pub broadcast proof fn stopped_instance_normalized(
    n: Run,
    graph: GraphInfo,
    op: Operation,
    x: Tensor,
    bits: u32,
    epsilon: Scalar,
)
    requires
        n.halt is Some,
    ensures
        (#[trigger] instance_normalized(n, graph, op, x, bits, epsilon)).0 == n,
{
    reveal(instance_normalized);
}

fn channel_shape_vec(dims: &Vec<i64>, nchw: bool) -> (v: Vec<i64>)
    requires
        nchw ==> dims@.len() != 1,
    ensures
        v@ == channel_shape(dims@, nchw),
{
    if dims.len() == 0 {
        let v = ones_vec(1);
        assert(v@ =~= seq![1i64]);
        v
    } else if nchw {
        spike_vec(dims.len(), 1, dims[1])
    } else {
        spike_vec(dims.len(), dims.len() - 1, dims[dims.len() - 1])
    }
}

/// Instance normalization: `(x - mean) / sqrt(variance + epsilon) * scale + bias`, with the
/// statistics over the two spatial axes.
pub open spec fn instance_normalization_op(
    n: Run,
    m: Map<u32, Tensor>,
    graph: GraphInfo,
    op: Operation,
) -> (Run, Map<u32, Tensor>) {
    let (n, x) = n.find(m, op.inputs@[0], "Input operand "@, " not found"@);
    let (n, d) = n.dims(x, "InstanceNorm: failed to get input dimensions: "@);
    let nchw = instance_nchw(op.kind);
    let bits = if nchw {
        12u32
    } else {
        6u32
    };
    let (n, t) = instance_normalized(n, graph, op, x, bits, instance_epsilon(op.kind));
    let n = if nchw && d.len() == 1 {
        n.stop(HaltOf::OutOfRange)
    } else {
        n
    };
    let shape = channel_shape(d, nchw);
    let (scale, bias) = instance_scale_bias(graph, op);
    let (n, t) = if let Some(id) = scale {
        let (n, s) = n.find(m, id, "Scale operand "@, " not found"@);
        let (n, s) = n.reshape(
            s,
            shape,
            "InstanceNorm: failed to add shuffle for scale: "@,
            "InstanceNorm: failed to set scale reshape: "@,
            "InstanceNorm: failed to get scale shuffle output: "@,
        );
        n.elementwise(
            t,
            s,
            ElementWiseOperation::kPROD,
            "Failed to add mul for scale: "@,
            "Failed to get mul output: "@,
        )
    } else {
        (n, t)
    };
    let (n, t) = if let Some(id) = bias {
        let (n, b) = n.find(m, id, "Bias operand "@, " not found"@);
        let (n, b) = n.reshape(
            b,
            shape,
            "InstanceNorm: failed to add shuffle for bias: "@,
            "InstanceNorm: failed to set bias reshape: "@,
            "InstanceNorm: failed to get bias shuffle output: "@,
        );
        n.elementwise(
            t,
            b,
            ElementWiseOperation::kSUM,
            "Failed to add bias: "@,
            "Failed to get add output: "@,
        )
    } else {
        (n, t)
    };
    store(n, m, op.outputs@[0], t)
}

/// The scale, the bias, the guard and the axes of a layer normalization.
pub open spec fn layer_options(kind: OperationKind) -> (
    Option<u32>,
    Option<u32>,
    Scalar,
    Option<Seq<u32>>,
) {
    match kind {
        OperationKind::LayerNormalization { options: Some(o) } => (
            o.scale,
            o.bias,
            o.epsilon,
            match o.axes {
                Some(axes) => Some(axes@),
                None => None,
            },
        ),
        _ => (None, None, known(Known::DefaultEpsilon), None),
    }
}

/// The axes of a layer normalization: those given, and else all but the first.
pub open spec fn layer_axes(given: Option<Seq<u32>>, rank: nat) -> Seq<u32> {
    match given {
        Some(axes) => axes,
        None => axis_range(1, rank),
    }
}

/// The dimensions of a parameter of a layer normalization along the axes that it belongs to, and
/// ones along the others.
pub open spec fn spread_over_axes(dims: Seq<i64>, axes: Seq<u32>, rank: nat) -> Seq<i64> {
    Seq::new(
        rank,
        |i: int|
            match first_position(axes, i as u32, 0) {
                Some(j) => (dims[j as int] as i32) as i64,
                None => 1i64,
            },
    )
}

/// For each axis in ascending order, where it stands in the list.
pub open spec fn ascending_order(axes: Seq<u32>) -> Seq<i32> {
    ascending(axes).map_values(
        |a: u32|
            match first_position(axes, a, 0) {
                Some(j) => j as i32,
                None => 0i32,
            },
    )
}

fn spread_over_axes_vec(dims: &Vec<i64>, axes: &Vec<u32>, rank: usize) -> (v: Vec<i64>)
    requires
        dims@.len() == axes@.len(),
    ensures
        v@ == spread_over_axes(dims@, axes@, rank as nat),
{
    let mut v: Vec<i64> = Vec::with_capacity(rank);
    let mut i: usize = 0;
    while i < rank
        invariant
            i <= rank,
            dims@.len() == axes@.len(),
            v@.len() == i,
            forall|k: int|
                0 <= k < i ==> #[trigger] v@[k] == spread_over_axes(dims@, axes@, rank as nat)[k],
        decreases rank - i,
    {
        match position_of(axes, i as u32) {
            Some(j) => {
                v.push((dims[j] as i32) as i64);
            },
            None => {
                v.push(1);
            },
        }
        i = i + 1;
    }
    assert(v@ =~= spread_over_axes(dims@, axes@, rank as nat));
    v
}

fn ascending_order_vec(axes: &Vec<u32>) -> (v: Vec<i32>)
    ensures
        v@ == ascending_order(axes@),
{
    let sorted = ascending_vec(axes);
    let mut v: Vec<i32> = Vec::with_capacity(sorted.len());
    let mut i: usize = 0;
    while i < sorted.len()
        invariant
            i <= sorted.len(),
            sorted@ == ascending(axes@),
            v@.len() == i,
            forall|k: int| 0 <= k < i ==> #[trigger] v@[k] == ascending_order(axes@)[k],
        decreases sorted.len() - i,
    {
        match position_of(axes, sorted[i]) {
            Some(j) => {
                v.push(j as i32);
            },
            None => {
                v.push(0);
            },
        }
        i = i + 1;
    }
    assert(v@ =~= ascending_order(axes@));
    v
}

/// A constant filled with one number.
pub open spec fn filled(n: Run, dims: Seq<i64>, count: nat, s: Scalar, t: DataType, add_label: Seq<
    char,
>, output_label: Seq<char>) -> (Run, Tensor) {
    n.constant(dims, repeated(float_bytes(s, t), count), float_type(t), add_label, output_label)
}

/// The dimensions, each as it reads after passing through 32 bits.
pub open spec fn narrowed(dims: Seq<i64>) -> Seq<i64> {
    dims.map_values(|d: i64| (d as i32) as i64)
}

/// The dimensions, each as it reads after passing through 32 bits.
pub fn narrowed_vec(dims: &Vec<i64>) -> (v: Vec<i64>)
    ensures
        v@ == narrowed(dims@),
{
    let mut v: Vec<i64> = Vec::with_capacity(dims.len());
    let mut i: usize = 0;
    while i < dims.len()
        invariant
            i <= dims.len(),
            v@.len() == i,
            forall|k: int| 0 <= k < i ==> #[trigger] v@[k] == narrowed(dims@)[k],
        decreases dims.len() - i,
    {
        v.push((dims[i] as i32) as i64);
        i = i + 1;
    }
    assert(v@ =~= narrowed(dims@));
    v
}

/// A scale or a bias of a layer normalization, reshaped to the rank of `result`: its dimensions
/// stand along the axes, in ascending order, with ones elsewhere.
#[verifier::opaque]
pub open spec fn layer_parameter(
    n: Run,
    tensor: Tensor,
    result: Tensor,
    op_name: Seq<char>,
    axes: Seq<u32>,
) -> (Run, Tensor) {
    let (n, dr) = n.dims(result, "LayerNorm "@ + op_name + ": result dims: "@);
    let (n, dt) = n.dims(tensor, "LayerNorm "@ + op_name + ": tensor dims: "@);
    if dt.len() >= dr.len() {
        n.identity(
            tensor,
            "LayerNorm "@ + op_name + ": identity: "@,
            "LayerNorm "@ + op_name + ": identity output: "@,
        )
    } else {
        let (n, l) = n.ask(
            RequestOf::AddShuffle { input: tensor },
            "LayerNorm "@ + op_name + ": shuffle: "@,
        );
        let n = if dt.len() == axes.len() && axes != ascending(axes) {
            n.ask(
                RequestOf::SetFirstTranspose { layer: Layer { id: l }, order: ascending_order(
                    axes,
                ) },
                "LayerNorm "@ + op_name + ": set transpose: "@,
            ).0
        } else {
            n
        };
        let shape = if dt.len() == axes.len() {
            spread_over_axes(dt, axes, dr.len())
        } else {
            ones((dr.len() - dt.len()) as nat) + narrowed(dt)
        };
        let (n, _) = n.ask(
            RequestOf::SetReshapeDimensions { layer: Layer { id: l }, dims: shape },
            "LayerNorm "@ + op_name + ": set reshape: "@,
        );
        n.output(l, "LayerNorm "@ + op_name + ": shuffle output: "@)
    }
}

pub broadcast proof fn stopped_layer_parameter(
    n: Run,
    tensor: Tensor,
    result: Tensor,
    op_name: Seq<char>,
    axes: Seq<u32>,
)
    requires
        n.halt is Some,
    ensures
        (#[trigger] layer_parameter(n, tensor, result, op_name, axes)).0 == n,
{
    reveal(layer_parameter);
}

/// The layer normalization of a scalar: the bias, or 0.
#[verifier::opaque]
pub open spec fn layer_norm_of_scalar(
    n: Run,
    m: Map<u32, Tensor>,
    graph: GraphInfo,
    op: Operation,
    bias: Option<u32>,
) -> (Run, Map<u32, Tensor>) {
    let (n, operand) = n.operand(graph, op.inputs@[0], "Input operand "@, " not found in graph"@);
    let dt = operand.descriptor.data_type;
    let (n, t) = n.constant(
        crate::trtx::broadcast::zeros(0),
        float_bytes(known(Known::Zero), dt),
        float_type(dt),
        "LayerNorm 0D: failed to add zero constant: "@,
        "LayerNorm 0D: zero const output: "@,
    );
    let (n, t) = if let Some(id) = bias {
        let (n, b) = n.find(m, id, "Bias operand "@, " not found"@);
        let (n, b) = n.reshape(
            b,
            crate::trtx::broadcast::zeros(0),
            "LayerNorm 0D: failed to add bias shuffle: "@,
            "LayerNorm 0D: failed to set bias reshape: "@,
            "LayerNorm 0D: bias shuffle output: "@,
        );
        n.elementwise(
            t,
            b,
            ElementWiseOperation::kSUM,
            "LayerNorm 0D: failed to add bias: "@,
            "LayerNorm 0D: bias add output: "@,
        )
    } else {
        (n, t)
    };
    store(n, m, op.outputs@[0], t)
}

/// A bias stretched to the dimensions of the input: a constant is filled in anew with its first
/// element, another tensor is broadcast.
#[verifier::opaque]
pub open spec fn layer_bias(
    n: Run,
    graph: GraphInfo,
    id: u32,
    bias: Tensor,
    d: Seq<i64>,
    count: nat,
    dt: DataType,
) -> (Run, Tensor) {
    if graph.constant_operand_ids_to_handles@.contains_key(id) {
        let (n, at) = n.ask(
            RequestOf::ConstantData { operand: id },
            "Operand "@ + decimal(id as nat) + " is not a constant: "@,
        );
        let data = n.bytes(at);
        let width = if dt == DataType::Float16 {
            2nat
        } else {
            4nat
        };
        let n = if data.len() < width {
            n.stop(HaltOf::OutOfRange)
        } else {
            n
        };
        n.constant(
            d,
            repeated(data.take(width as int), count),
            float_type(dt),
            "LayerNorm axes=[]: failed to add bias constant: "@,
            "LayerNorm axes=[]: bias const output: "@,
        )
    } else {
        let (n, one) = filled(
            n,
            d,
            count,
            known(Known::One),
            dt,
            "LayerNorm axes=[]: failed to add ones constant: "@,
            "LayerNorm axes=[]: ones const output: "@,
        );
        let (n, (b, _)) = broadcast_pair(n, bias, one, "layer_norm_axes_empty_bias"@);
        (n, b)
    }
}

pub broadcast proof fn stopped_layer_bias(
    n: Run,
    graph: GraphInfo,
    id: u32,
    bias: Tensor,
    d: Seq<i64>,
    count: nat,
    dt: DataType,
)
    requires
        n.halt is Some,
    ensures
        (#[trigger] layer_bias(n, graph, id, bias, d, count, dt)).0 == n,
{
    reveal(layer_bias);
}

/// The first `n` bytes of `v`.
pub fn first_bytes(v: &Vec<u8>, n: usize) -> (b: Vec<u8>)
    requires
        n <= v@.len(),
    ensures
        b@ == v@.take(n as int),
{
    let mut b: Vec<u8> = Vec::with_capacity(n);
    let mut i: usize = 0;
    while i < n
        invariant
            i <= n <= v@.len(),
            b@ == v@.take(i as int),
        decreases n - i,
    {
        b.push(v[i]);
        proof {
            assert(v@.take(i + 1) =~= v@.take(i as int).push(v@[i as int]));
        }
        i = i + 1;
    }
    b
}

/// The layer normalization over no axis: every element is its own mean, so the result is the bias
/// or 0.
#[verifier::opaque]
pub open spec fn layer_norm_over_nothing(
    n: Run,
    m: Map<u32, Tensor>,
    graph: GraphInfo,
    op: Operation,
    bias: Option<u32>,
    d: Seq<i64>,
) -> (Run, Map<u32, Tensor>) {
    let (n, operand) = n.operand(graph, op.inputs@[0], "Input operand "@, " not found in graph"@);
    let dt = operand.descriptor.data_type;
    let (n, count) = elements(n, d);
    let (n, t) = filled(
        n,
        d,
        count,
        known(Known::Zero),
        dt,
        "LayerNorm axes=[]: failed to add zeros constant: "@,
        "LayerNorm axes=[]: zero const output: "@,
    );
    let (n, t) = if let Some(id) = bias {
        let (n, b) = n.find(m, id, "Bias operand "@, " not found"@);
        let (n, b) = layer_bias(n, graph, id, b, d, count, dt);
        n.elementwise(
            t,
            b,
            ElementWiseOperation::kSUM,
            "LayerNorm axes=[]: failed to add bias: "@,
            "LayerNorm axes=[]: bias add output: "@,
        )
    } else {
        (n, t)
    };
    store(n, m, op.outputs@[0], t)
}

/// The input of a layer normalization, centered and divided by its deviation over the axes of
/// `bits`.
#[verifier::opaque]
pub open spec fn layer_normalized(
    n: Run,
    graph: GraphInfo,
    op: Operation,
    x: Tensor,
    bits: u32,
    epsilon: Scalar,
) -> (Run, Tensor) {
    let (n, mean) = n.reduce(
        x,
        ReduceOperation::kAVG,
        bits,
        true,
        "Failed to add mean reduce for layer norm: "@,
        "Failed to get mean output: "@,
    );
    let (n, centered) = n.elementwise(
        x,
        mean,
        ElementWiseOperation::kSUB,
        "Failed to add sub for layer norm: "@,
        "Failed to get sub output: "@,
    );
    let (n, squared) = n.elementwise(
        centered,
        centered,
        ElementWiseOperation::kPROD,
        "Failed to add square for layer norm: "@,
        "Failed to get square output: "@,
    );
    let (n, variance) = n.reduce(
        squared,
        ReduceOperation::kAVG,
        bits,
        true,
        "Failed to add variance reduce for layer norm: "@,
        "Failed to get variance output: "@,
    );
    let (n, dv) = n.dims(variance, "LayerNorm: failed to get variance dimensions: "@);
    let (n, operand) = n.operand(graph, op.inputs@[0], "Input operand "@, " not found in graph"@);
    let dt = operand.descriptor.data_type;
    let (n, count) = elements(n, dv);
    let (n, guard) = n.constant(
        dv,
        repeated(float_bytes(epsilon, dt), count),
        float_type(dt),
        "LayerNorm: failed to add epsilon constant: "@,
        "LayerNorm: epsilon const output: "@,
    );
    let (n, guarded) = n.elementwise(
        variance,
        guard,
        ElementWiseOperation::kSUM,
        "LayerNorm: variance + epsilon: "@,
        "LayerNorm: variance+eps output: "@,
    );
    let (n, deviation) = n.unary(
        guarded,
        UnaryOperation::kSQRT,
        "Failed to add sqrt for layer norm: "@,
        "Failed to get sqrt output: "@,
    );
    let (n, t) = n.elementwise(
        centered,
        deviation,
        ElementWiseOperation::kDIV,
        "Failed to add div for layer norm: "@,
        "Failed to get div output: "@,
    );
    (n, t)
}

pub broadcast proof fn stopped_layer_normalized(
    n: Run,
    graph: GraphInfo,
    op: Operation,
    x: Tensor,
    bits: u32,
    epsilon: Scalar,
)
    requires
        n.halt is Some,
    ensures
        (#[trigger] layer_normalized(n, graph, op, x, bits, epsilon)).0 == n,
{
    reveal(layer_normalized);
}

fn layer_axes_vec(kind: &OperationKind, rank: usize) -> (v: Vec<u32>)
    ensures
        v@ == layer_axes(layer_options(*kind).3, rank as nat),
{
    match kind {
        OperationKind::LayerNormalization { options: Some(o) } => match &o.axes {
            Some(axes) => {
                let v = axes.clone();
                assert(v@ =~= axes@);
                v
            },
            None => axis_range_vec(1, rank),
        },
        _ => axis_range_vec(1, rank),
    }
}

/// Layer normalization: `(x - mean) / sqrt(variance + epsilon) * scale + bias`, with the statistics
/// over the given axes.
pub open spec fn layer_normalization_op(
    n: Run,
    m: Map<u32, Tensor>,
    graph: GraphInfo,
    op: Operation,
) -> (Run, Map<u32, Tensor>) {
    let (n, x) = n.find(m, op.inputs@[0], "Input operand "@, " not found"@);
    let (n, d) = n.dims(x, "Failed to get input shape: "@);
    let n = n.reject_if(
        !(op.kind is LayerNormalization),
        "add_layer_normalization_op: expected LayerNormalization operation"@,
    );
    let (scale, bias, epsilon, given) = layer_options(op.kind);
    let axes = layer_axes(given, d.len());
    if n.halt is Some {
        (n, m)
    } else if d.len() == 0 {
        layer_norm_of_scalar(n, m, graph, op, bias)
    } else if axes.len() == 0 {
        layer_norm_over_nothing(n, m, graph, op, bias, d)
    } else {
        let (n, bits) = mask(n, axes);
        let (n, t) = layer_normalized(n, graph, op, x, bits, epsilon);
        let (n, t) = if let Some(id) = scale {
            let (n, s) = n.find(m, id, "LayerNorm scale operand "@, " not found"@);
            let (n, s) = layer_parameter(n, s, t, "scale"@, axes);
            n.elementwise(
                t,
                s,
                ElementWiseOperation::kPROD,
                "Failed to add scale: "@,
                "Failed to get mul output: "@,
            )
        } else {
            (n, t)
        };
        let (n, t) = if let Some(id) = bias {
            let (n, b) = n.find(m, id, "LayerNorm bias operand "@, " not found"@);
            let (n, b) = layer_parameter(n, b, t, "bias"@, axes);
            n.elementwise(
                t,
                b,
                ElementWiseOperation::kSUM,
                "Failed to add bias: "@,
                "Failed to get add output: "@,
            )
        } else {
            (n, t)
        };
        store(n, m, op.outputs@[0], t)
    }
}

pub broadcast group group_normalization_stopped {
    stopped_channel_stats,
    stopped_guarded_variance,
    stopped_instance_normalized,
    stopped_layer_parameter,
    stopped_layer_bias,
    stopped_layer_normalized,
}

impl TrtxConverter {
    /// Reshapes per-channel statistics so that they broadcast along `axis` of `input`. A list of
    /// channels is put last and then moved, because TensorRT may otherwise take it for the first
    /// dimension.
    pub fn reshape_batch_norm_stats_for_broadcast(
        net: &mut Network,
        stats: Tensor,
        input: Tensor,
        axis: i64,
        op_name: &str,
    ) -> (r: Result<Tensor, Halt>)
        ensures
            gives(final(net)@, r, channel_stats(old(net)@, stats, input, axis, op_name@)),
    {
        proof {
            reveal(channel_stats);
            broadcast use group_normalization_stopped;

        }
        let di = net.dims(
            input,
            say("Failed to get input dims for ").str(op_name).str(": ").text.as_str(),
        )?;
        let ds = net.dims(
            stats,
            say("Failed to get stats dims for ").str(op_name).str(": ").text.as_str(),
        )?;
        let rank: usize = di.len();
        let at: usize = moved_axis_of(axis, rank);
        let product: i64 = signed_product_of(&ds)?;
        let c: i64 = if product < 1 {
            1
        } else {
            product
        };
        let add_label = say("Failed to add shuffle for ").str(op_name).str(": ").text;
        let set_label = say("Failed to set reshape for ").str(op_name).str(": ").text;
        let output_label = say("Failed to get shuffle output for ").str(op_name).str(": ").text;
        if is_channel_first(&ds, rank, at, c) {
            return net.transpose(
                stats,
                swapped_axes_vec(rank, 0, at),
                say("Failed to add shuffle for ").str(op_name)
                    .str(" (4D transpose): ").text.as_str(),
                say("Failed to set transpose for ").str(op_name).str(": ").text.as_str(),
                output_label.as_str(),
            );
        }
        if ds.len() == 1 {
            let last: usize = if rank == 0 {
                0
            } else {
                rank - 1
            };
            proof {
                assert(spike(rank as nat, last as int, c) =~= spike(rank as nat, rank - 1, c));
            }
            let t = net.reshape(
                stats,
                spike_vec(rank, last, c),
                add_label.as_str(),
                set_label.as_str(),
                output_label.as_str(),
            )?;
            if rank == 0 {
                return Err(HaltOf::OutOfRange);
            }
            return net.transpose(
                t,
                swapped_axes_vec(rank, at, last),
                say("Failed to add second shuffle for ").str(op_name).str(": ").text.as_str(),
                say("Failed to set second transpose for ").str(op_name).str(": ").text.as_str(),
                say(
                    "Failed to get second shuffle output for ",
                ).str(op_name).str(": ").text.as_str(),
            );
        }
        net.reshape(
            stats,
            spike_vec(rank, at, c),
            add_label.as_str(),
            set_label.as_str(),
            output_label.as_str(),
        )
    }

    /// Adds the guard against division by zero to the variance of a batch normalization.
    fn guarded_variance(
        net: &mut Network,
        graph: &GraphInfo,
        operation: &Operation,
        variance: Tensor,
        epsilon: Scalar,
    ) -> (r: Result<Tensor, Halt>)
        requires
            operation.inputs@.len() >= 1,
        ensures
            gives(
                final(net)@,
                r,
                guarded_variance(old(net)@, *graph, *operation, variance, epsilon),
            ),
    {
        proof {
            reveal(guarded_variance);
            broadcast use group_normalization_stopped;

        }
        let dv = net.dims(variance, "BatchNorm: failed to get variance dimensions: ")?;
        let operand = find_operand(
            graph,
            operation.inputs[0],
            "BatchNorm: input operand ",
            " not found in graph",
        )?;
        let dt = operand.descriptor.data_type;
        let count: usize = elements_of(&dv)?;
        let guard = net.constant(
            copy_i64(&dv),
            repeat_bytes(&float_bytes_of(epsilon, dt), count),
            float_type_of(dt),
            "BatchNorm: failed to add epsilon constant: ",
            "BatchNorm: epsilon const output: ",
        )?;
        net.elementwise(
            variance,
            guard,
            ElementWiseOperation::kSUM,
            "BatchNorm: variance + epsilon: ",
            "BatchNorm: var_plus_eps output: ",
        )
    }

    /// Adds a batch normalization.
    pub fn add_batch_normalization_op(
        graph: &GraphInfo,
        net: &mut Network,
        tensors: &mut TensorMap,
        operation: &Operation,
    ) -> (r: Result<(), Halt>)
        requires
            operation.inputs@.len() >= 3,
            operation.outputs@.len() >= 1,
        ensures
            does(
                final(net)@,
                r,
                final(tensors)@,
                batch_normalization_op(old(net)@, old(tensors)@, *graph, *operation),
            ),
    {
        proof {
            broadcast use group_normalization_stopped;

        }
        let x = tensors.find(operation.inputs[0], "Input operand ", " not found")?;
        let mean = tensors.find(operation.inputs[1], "Mean operand ", " not found")?;
        let variance = tensors.find(operation.inputs[2], "Variance operand ", " not found")?;
        let (axis, scale, bias, epsilon): (i64, Option<u32>, Option<u32>, Scalar) =
            match &operation.kind {
            OperationKind::BatchNormalization { options: Some(o) } => (
                o.axis as i64,
                o.scale,
                o.bias,
                o.epsilon,
            ),
            _ => (1, None, None, Known::DefaultEpsilon.scalar()),
        };
        let mean = Self::reshape_batch_norm_stats_for_broadcast(
            net,
            mean,
            x,
            axis,
            "batch_norm_sub",
        )?;
        let centered = net.named_layer(
            Request::AddElementwise { a: x, b: mean, op: ElementWiseOperation::kSUB },
            "batch_norm_sub",
            "Failed to add sub for batch norm: ",
            "Failed to get sub output: ",
        )?;
        let variance = Self::reshape_batch_norm_stats_for_broadcast(
            net,
            variance,
            x,
            axis,
            "batch_norm_var",
        )?;
        let guarded = Self::guarded_variance(net, graph, operation, variance, epsilon)?;
        let deviation = net.named_layer(
            Request::AddUnary { input: guarded, op: UnaryOperation::kSQRT },
            "batch_norm_sqrt_var",
            "Failed to add sqrt for batch norm: ",
            "Failed to get sqrt output: ",
        )?;
        let t = net.named_layer(
            Request::AddElementwise { a: centered, b: deviation, op: ElementWiseOperation::kDIV },
            "batch_norm_div",
            "Failed to add div for batch norm: ",
            "Failed to get div output: ",
        )?;
        let t = if let Some(id) = scale {
            let s = tensors.find(id, "Scale operand ", " not found")?;
            let s = Self::reshape_batch_norm_stats_for_broadcast(
                net,
                s,
                t,
                axis,
                "batch_norm_scale",
            )?;
            net.named_layer(
                Request::AddElementwise { a: t, b: s, op: ElementWiseOperation::kPROD },
                "batch_norm_scale_mul",
                "Failed to add mul for scale: ",
                "Failed to get mul output: ",
            )?
        } else {
            t
        };
        let t = if let Some(id) = bias {
            let b = tensors.find(id, "Bias operand ", " not found")?;
            let b = Self::reshape_batch_norm_stats_for_broadcast(
                net,
                b,
                t,
                axis,
                "batch_norm_bias",
            )?;
            net.named_layer(
                Request::AddElementwise { a: t, b, op: ElementWiseOperation::kSUM },
                "batch_norm_bias_add",
                "Failed to add bias: ",
                "Failed to get add output: ",
            )?
        } else {
            t
        };
        tensors.insert(operation.outputs[0], t);
        Ok(())
    }

    /// Centers `x` and divides it by its deviation.
    pub fn instance_normalized(
        net: &mut Network,
        graph: &GraphInfo,
        op: &Operation,
        x: Tensor,
        bits: u32,
        epsilon: Scalar,
    ) -> (r: Result<Tensor, Halt>)
        requires
            op.inputs@.len() >= 1,
        ensures
            gives(final(net)@, r, instance_normalized(old(net)@, *graph, *op, x, bits, epsilon)),
    {
        proof {
            reveal(instance_normalized);
            broadcast use group_normalization_stopped;

        }
        let mean = net.reduce(
            x,
            ReduceOperation::kAVG,
            bits,
            true,
            "Failed to add mean reduce for instance norm: ",
            "Failed to get mean output: ",
        )?;
        let centered = net.elementwise(
            x,
            mean,
            ElementWiseOperation::kSUB,
            "Failed to add sub for instance norm: ",
            "Failed to get sub output: ",
        )?;
        let squared = net.elementwise(
            centered,
            centered,
            ElementWiseOperation::kPROD,
            "Failed to add square for instance norm: ",
            "Failed to get square output: ",
        )?;
        let variance = net.reduce(
            squared,
            ReduceOperation::kAVG,
            bits,
            true,
            "Failed to add variance reduce for instance norm: ",
            "Failed to get variance output: ",
        )?;
        let dv = net.dims(variance, "InstanceNorm: failed to get variance dimensions: ")?;
        let operand = find_operand(
            graph,
            op.inputs[0],
            "InstanceNorm: input operand ",
            " not found in graph",
        )?;
        let dt = operand.descriptor.data_type;
        let count: usize = elements_of(&dv)?;
        let guard = net.constant(
            copy_i64(&dv),
            repeat_bytes(&float_bytes_of(epsilon, dt), count),
            float_type_of(dt),
            "InstanceNorm: failed to add epsilon constant: ",
            "InstanceNorm: epsilon const output: ",
        )?;
        let guarded = net.elementwise(
            variance,
            guard,
            ElementWiseOperation::kSUM,
            "InstanceNorm: variance + epsilon: ",
            "InstanceNorm: var_plus_eps output: ",
        )?;
        let deviation = net.unary(
            guarded,
            UnaryOperation::kSQRT,
            "Failed to add sqrt for instance norm: ",
            "Failed to get sqrt output: ",
        )?;
        let t = net.elementwise(
            centered,
            deviation,
            ElementWiseOperation::kDIV,
            "Failed to add div for instance norm: ",
            "Failed to get div output: ",
        )?;
        Ok(t)
    }

    /// Adds an instance normalization.
    pub fn add_instance_normalization_op(
        graph: &GraphInfo,
        net: &mut Network,
        tensors: &mut TensorMap,
        operation: &Operation,
    ) -> (r: Result<(), Halt>)
        requires
            operation.inputs@.len() >= 1,
            operation.outputs@.len() >= 1,
        ensures
            does(
                final(net)@,
                r,
                final(tensors)@,
                instance_normalization_op(old(net)@, old(tensors)@, *graph, *operation),
            ),
    {
        proof {
            broadcast use group_normalization_stopped;

        }
        let x = tensors.find(operation.inputs[0], "Input operand ", " not found")?;
        let d = net.dims(x, "InstanceNorm: failed to get input dimensions: ")?;
        let (nchw, epsilon): (bool, Scalar) = match &operation.kind {
            OperationKind::InstanceNormalization { options: Some(o) } => (
                same_text(o.layout.as_str(), "") || same_text(o.layout.as_str(), "nchw"),
                o.epsilon,
            ),
            _ => (true, Known::DefaultEpsilon.scalar()),
        };
        proof {
            reveal_strlit("");
            if operation.kind is InstanceNormalization && operation.kind->InstanceNormalization_options is Some {
                let layout = operation.kind->InstanceNormalization_options->0.layout@;
                assert(layout.len() == 0 <==> layout =~= ""@);
            }
        }
        let bits: u32 = if nchw {
            12u32
        } else {
            6u32
        };
        let t = Self::instance_normalized(net, graph, operation, x, bits, epsilon)?;
        if nchw && d.len() == 1 {
            return Err(HaltOf::OutOfRange);
        }
        let shape = channel_shape_vec(&d, nchw);
        let (scale, bias) = instance_scale_bias_of(graph, operation);
        let t = if let Some(id) = scale {
            let s = tensors.find(id, "Scale operand ", " not found")?;
            let s = net.reshape(
                s,
                copy_i64(&shape),
                "InstanceNorm: failed to add shuffle for scale: ",
                "InstanceNorm: failed to set scale reshape: ",
                "InstanceNorm: failed to get scale shuffle output: ",
            )?;
            net.elementwise(
                t,
                s,
                ElementWiseOperation::kPROD,
                "Failed to add mul for scale: ",
                "Failed to get mul output: ",
            )?
        } else {
            t
        };
        let t = if let Some(id) = bias {
            let b = tensors.find(id, "Bias operand ", " not found")?;
            let b = net.reshape(
                b,
                copy_i64(&shape),
                "InstanceNorm: failed to add shuffle for bias: ",
                "InstanceNorm: failed to set bias reshape: ",
                "InstanceNorm: failed to get bias shuffle output: ",
            )?;
            net.elementwise(
                t,
                b,
                ElementWiseOperation::kSUM,
                "Failed to add bias: ",
                "Failed to get add output: ",
            )?
        } else {
            t
        };
        tensors.insert(operation.outputs[0], t);
        Ok(())
    }

    /// Reshapes a scale or a bias so that it broadcasts to `result`.
    pub fn reshape_scale_bias_to_result_rank(
        net: &mut Network,
        tensor: Tensor,
        result: Tensor,
        op_name: &str,
        axes: &Vec<u32>,
    ) -> (r: Result<Tensor, Halt>)
        ensures
            gives(final(net)@, r, layer_parameter(old(net)@, tensor, result, op_name@, axes@)),
    {
        proof {
            reveal(layer_parameter);
            broadcast use group_normalization_stopped;

        }
        let dr = net.dims(
            result,
            say("LayerNorm ").str(op_name).str(": result dims: ").text.as_str(),
        )?;
        let dt = net.dims(
            tensor,
            say("LayerNorm ").str(op_name).str(": tensor dims: ").text.as_str(),
        )?;
        if dt.len() >= dr.len() {
            return net.identity(
                tensor,
                say("LayerNorm ").str(op_name).str(": identity: ").text.as_str(),
                say("LayerNorm ").str(op_name).str(": identity output: ").text.as_str(),
            );
        }
        let along_axes = dt.len() == axes.len();
        let shape = if along_axes {
            spread_over_axes_vec(&dt, axes, dr.len())
        } else {
            let mut v = ones_vec(dr.len() - dt.len());
            let mut tail = narrowed_vec(&dt);
            v.append(&mut tail);
            v
        };
        let l: usize = net.ask(
            Request::AddShuffle { input: tensor },
            say("LayerNorm ").str(op_name).str(": shuffle: ").text.as_str(),
        )?;
        if along_axes && !crate::graph::same_ids(axes, &ascending_vec(axes)) {
            net.ask(
                Request::SetFirstTranspose { layer: Layer { id: l }, order: ascending_order_vec(
                    axes,
                ) },
                say("LayerNorm ").str(op_name).str(": set transpose: ").text.as_str(),
            )?;
        }
        net.ask(
            Request::SetReshapeDimensions { layer: Layer { id: l }, dims: shape },
            say("LayerNorm ").str(op_name).str(": set reshape: ").text.as_str(),
        )?;
        net.output(l, say("LayerNorm ").str(op_name).str(": shuffle output: ").text.as_str())
    }

    /// Adds the layer normalization of a scalar: mean and element agree, so the result is the bias
    /// or 0.
    pub fn layer_norm_of_scalar(
        graph: &GraphInfo,
        net: &mut Network,
        tensors: &mut TensorMap,
        operation: &Operation,
        bias: Option<u32>,
    ) -> (r: Result<(), Halt>)
        requires
            operation.inputs@.len() >= 1,
            operation.outputs@.len() >= 1,
        ensures
            does(
                final(net)@,
                r,
                final(tensors)@,
                layer_norm_of_scalar(old(net)@, old(tensors)@, *graph, *operation, bias),
            ),
    {
        proof {
            reveal(layer_norm_of_scalar);
            broadcast use group_normalization_stopped;

            assert(crate::trtx::broadcast::zeros(0) =~= Seq::<i64>::empty());
        }
        let operand = find_operand(
            graph,
            operation.inputs[0],
            "Input operand ",
            " not found in graph",
        )?;
        let dt = operand.descriptor.data_type;
        let t = net.constant(
            Vec::new(),
            float_bytes_of(Known::Zero.scalar(), dt),
            float_type_of(dt),
            "LayerNorm 0D: failed to add zero constant: ",
            "LayerNorm 0D: zero const output: ",
        )?;
        let t = if let Some(id) = bias {
            let b = tensors.find(id, "Bias operand ", " not found")?;
            let b = net.reshape(
                b,
                Vec::new(),
                "LayerNorm 0D: failed to add bias shuffle: ",
                "LayerNorm 0D: failed to set bias reshape: ",
                "LayerNorm 0D: bias shuffle output: ",
            )?;
            net.elementwise(
                t,
                b,
                ElementWiseOperation::kSUM,
                "LayerNorm 0D: failed to add bias: ",
                "LayerNorm 0D: bias add output: ",
            )?
        } else {
            t
        };
        tensors.insert(operation.outputs[0], t);
        Ok(())
    }

    /// Stretches a bias to the dimensions of the input.
    pub fn layer_bias(
        net: &mut Network,
        graph: &GraphInfo,
        id: u32,
        bias: Tensor,
        d: &Vec<i64>,
        count: usize,
        dt: DataType,
    ) -> (r: Result<Tensor, Halt>)
        ensures
            gives(final(net)@, r, layer_bias(old(net)@, *graph, id, bias, d@, count as nat, dt)),
    {
        proof {
            reveal(layer_bias);
            broadcast use group_normalization_stopped;

            broadcast use vstd::std_specs::hash::group_hash_axioms;
        }
        if graph.constant_operand_ids_to_handles.contains_key(&id) {
            let at: usize = net.ask(
                Request::ConstantData { operand: id },
                say("Operand ").num32(id).str(" is not a constant: ").text.as_str(),
            )?;
            let data = net.bytes(at);
            let width: usize = if dt == DataType::Float16 {
                2
            } else {
                4
            };
            if data.len() < width {
                return Err(HaltOf::OutOfRange);
            }
            let unit = first_bytes(&data, width);
            net.constant(
                copy_i64(d),
                repeat_bytes(&unit, count),
                float_type_of(dt),
                "LayerNorm axes=[]: failed to add bias constant: ",
                "LayerNorm axes=[]: bias const output: ",
            )
        } else {
            let one = net.constant(
                copy_i64(d),
                repeat_bytes(&float_bytes_of(Known::One.scalar(), dt), count),
                float_type_of(dt),
                "LayerNorm axes=[]: failed to add ones constant: ",
                "LayerNorm axes=[]: ones const output: ",
            )?;
            let (b, _) = Self::ensure_broadcast_compatible(
                net,
                bias,
                one,
                "layer_norm_axes_empty_bias",
            )?;
            Ok(b)
        }
    }

    /// Adds the layer normalization over no axis.
    pub fn layer_norm_over_nothing(
        graph: &GraphInfo,
        net: &mut Network,
        tensors: &mut TensorMap,
        operation: &Operation,
        bias: Option<u32>,
        d: &Vec<i64>,
    ) -> (r: Result<(), Halt>)
        requires
            operation.inputs@.len() >= 1,
            operation.outputs@.len() >= 1,
        ensures
            does(
                final(net)@,
                r,
                final(tensors)@,
                layer_norm_over_nothing(old(net)@, old(tensors)@, *graph, *operation, bias, d@),
            ),
    {
        proof {
            reveal(layer_norm_over_nothing);
            broadcast use group_normalization_stopped;

        }
        let operand = find_operand(
            graph,
            operation.inputs[0],
            "Input operand ",
            " not found in graph",
        )?;
        let dt = operand.descriptor.data_type;
        let count: usize = elements_of(d)?;
        let t = net.constant(
            copy_i64(d),
            repeat_bytes(&float_bytes_of(Known::Zero.scalar(), dt), count),
            float_type_of(dt),
            "LayerNorm axes=[]: failed to add zeros constant: ",
            "LayerNorm axes=[]: zero const output: ",
        )?;
        let t = if let Some(id) = bias {
            let b = tensors.find(id, "Bias operand ", " not found")?;
            let b = Self::layer_bias(net, graph, id, b, d, count, dt)?;
            net.elementwise(
                t,
                b,
                ElementWiseOperation::kSUM,
                "LayerNorm axes=[]: failed to add bias: ",
                "LayerNorm axes=[]: bias add output: ",
            )?
        } else {
            t
        };
        tensors.insert(operation.outputs[0], t);
        Ok(())
    }

    /// Centers `x` and divides it by its deviation.
    pub fn layer_normalized(
        net: &mut Network,
        graph: &GraphInfo,
        op: &Operation,
        x: Tensor,
        bits: u32,
        epsilon: Scalar,
    ) -> (r: Result<Tensor, Halt>)
        requires
            op.inputs@.len() >= 1,
        ensures
            gives(final(net)@, r, layer_normalized(old(net)@, *graph, *op, x, bits, epsilon)),
    {
        proof {
            reveal(layer_normalized);
            broadcast use group_normalization_stopped;

        }
        let mean = net.reduce(
            x,
            ReduceOperation::kAVG,
            bits,
            true,
            "Failed to add mean reduce for layer norm: ",
            "Failed to get mean output: ",
        )?;
        let centered = net.elementwise(
            x,
            mean,
            ElementWiseOperation::kSUB,
            "Failed to add sub for layer norm: ",
            "Failed to get sub output: ",
        )?;
        let squared = net.elementwise(
            centered,
            centered,
            ElementWiseOperation::kPROD,
            "Failed to add square for layer norm: ",
            "Failed to get square output: ",
        )?;
        let variance = net.reduce(
            squared,
            ReduceOperation::kAVG,
            bits,
            true,
            "Failed to add variance reduce for layer norm: ",
            "Failed to get variance output: ",
        )?;
        let dv = net.dims(variance, "LayerNorm: failed to get variance dimensions: ")?;
        let operand = find_operand(graph, op.inputs[0], "Input operand ", " not found in graph")?;
        let dt = operand.descriptor.data_type;
        let count: usize = elements_of(&dv)?;
        let guard = net.constant(
            copy_i64(&dv),
            repeat_bytes(&float_bytes_of(epsilon, dt), count),
            float_type_of(dt),
            "LayerNorm: failed to add epsilon constant: ",
            "LayerNorm: epsilon const output: ",
        )?;
        let guarded = net.elementwise(
            variance,
            guard,
            ElementWiseOperation::kSUM,
            "LayerNorm: variance + epsilon: ",
            "LayerNorm: variance+eps output: ",
        )?;
        let deviation = net.unary(
            guarded,
            UnaryOperation::kSQRT,
            "Failed to add sqrt for layer norm: ",
            "Failed to get sqrt output: ",
        )?;
        let t = net.elementwise(
            centered,
            deviation,
            ElementWiseOperation::kDIV,
            "Failed to add div for layer norm: ",
            "Failed to get div output: ",
        )?;
        Ok(t)
    }

    /// Adds a layer normalization.
    pub fn add_layer_normalization_op(
        graph: &GraphInfo,
        net: &mut Network,
        tensors: &mut TensorMap,
        operation: &Operation,
    ) -> (r: Result<(), Halt>)
        requires
            operation.inputs@.len() >= 1,
            operation.outputs@.len() >= 1,
        ensures
            does(
                final(net)@,
                r,
                final(tensors)@,
                layer_normalization_op(old(net)@, old(tensors)@, *graph, *operation),
            ),
    {
        proof {
            broadcast use group_normalization_stopped;

        }
        let x = tensors.find(operation.inputs[0], "Input operand ", " not found")?;
        let d = net.dims(x, "Failed to get input shape: ")?;
        let (scale, bias, epsilon): (Option<u32>, Option<u32>, Scalar) = match &operation.kind {
            OperationKind::LayerNormalization { options: Some(o) } => (o.scale, o.bias, o.epsilon),
            OperationKind::LayerNormalization { options: None } => (
                None,
                None,
                Known::DefaultEpsilon.scalar(),
            ),
            _ => {
                return Err(
                    say(
                        "add_layer_normalization_op: expected LayerNormalization operation",
                    ).halt(),
                );
            },
        };
        if d.len() == 0 {
            return Self::layer_norm_of_scalar(graph, net, tensors, operation, bias);
        }
        let axes = layer_axes_vec(&operation.kind, d.len());
        if axes.len() == 0 {
            return Self::layer_norm_over_nothing(graph, net, tensors, operation, bias, &d);
        }
        let bits: u32 = mask_of(&axes)?;
        let t = Self::layer_normalized(net, graph, operation, x, bits, epsilon)?;
        let t = if let Some(id) = scale {
            let s = tensors.find(id, "LayerNorm scale operand ", " not found")?;
            let s = Self::reshape_scale_bias_to_result_rank(net, s, t, "scale", &axes)?;
            net.elementwise(
                t,
                s,
                ElementWiseOperation::kPROD,
                "Failed to add scale: ",
                "Failed to get mul output: ",
            )?
        } else {
            t
        };
        let t = if let Some(id) = bias {
            let b = tensors.find(id, "LayerNorm bias operand ", " not found")?;
            let b = Self::reshape_scale_bias_to_result_rank(net, b, t, "bias", &axes)?;
            net.elementwise(
                t,
                b,
                ElementWiseOperation::kSUM,
                "Failed to add bias: ",
                "Failed to get add output: ",
            )?
        } else {
            t
        };
        tensors.insert(operation.outputs[0], t);
        Ok(())
    }
}

} // verus!
