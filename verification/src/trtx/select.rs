//! Operations that pick elements or weigh them: gathering, scattering, extreme positions, clamps,
//! selections, running sums, triangles and softmax.

use crate::data_type::DataType;
use crate::graph::{get_static_or_max_size, max_sizes, size_of_dim, Dimension, GraphInfo};
use crate::operator_options::{FloatReading, MLNumber};
use crate::operators::{Operation, OperationKind};
use crate::scalar::{
    extend_bytes, float_bytes, float_bytes_of, float_type, float_type_of, is_nan, is_nan_bits,
    known, le2, le2_bytes, le4, le4_bytes, le8, le8_bytes, repeat_bytes, repeated, Known,
};
use crate::text::{decimal, say, signed_decimal};
use crate::trtx::arrange::{narrow_dims, narrow_dims_vec};
use crate::trtx::broadcast::{
    as_dims, as_dims_vec, broadcast_to, group_broadcast_stopped, int32_to_float32, scalar_shape,
    static_sizes, to_bool, to_float32, zeros,
};
use crate::trtx::numbers::{
    bound_i64, bound_reading, bound_u64, special, special_reading,
};
use crate::trtx::session::{
    copy_i64, does, find_operand, gives, group_stopped, store, Halt, HaltOf, Network, Request,
    RequestOf, Run, TensorMap,
};
use crate::trtx::shapes::{elements, elements_of, swapped_axes, swapped_axes_vec};
use crate::trtx::steps::group_layers_stopped;
use crate::trtx::types::{
    trt_type, trt_type_of, CumulativeOperation, ElementWiseOperation, GatherMode, Layer,
    ScatterMode, Tensor, TopKOperation, TrtDataType,
};
use crate::trtx::TrtxConverter;
use vstd::prelude::*;

verus! {

broadcast use {group_stopped, group_layers_stopped, group_broadcast_stopped};

/// The axis of a gathering, read as `i32`, 0 where none is given.
pub open spec fn gather_axis(kind: OperationKind) -> i32 {
    match kind {
        OperationKind::Gather { options: Some(o) } => o.axis as i32,
        OperationKind::GatherElements { options: Some(o) } => o.axis as i32,
        _ => 0,
    }
}

fn gather_axis_of(kind: &OperationKind) -> (a: i32)
    ensures
        a == gather_axis(*kind),
{
    match kind {
        OperationKind::Gather { options: Some(o) } => o.axis as i32,
        OperationKind::GatherElements { options: Some(o) } => o.axis as i32,
        _ => 0,
    }
}

/// The product of sizes, where it and every product along the way fit in 32 bits.
pub open spec fn small_product(sizes: Seq<u32>) -> Option<nat>
    decreases sizes.len(),
{
    if sizes.len() == 0 {
        Some(1)
    } else {
        match small_product(sizes.drop_last()) {
            Some(p) => if p * sizes.last() <= u32::MAX {
                Some((p * sizes.last()) as nat)
            } else {
                None
            },
            None => None,
        }
    }
}

proof fn small_overflow_stays(sizes: Seq<u32>, i: int)
    requires
        0 <= i <= sizes.len(),
        small_product(sizes.take(i)) is None,
    ensures
        small_product(sizes) is None,
    decreases sizes.len() - i,
{
    if i == sizes.len() {
        assert(sizes.take(i) =~= sizes);
    } else {
        assert(sizes.take(i + 1).drop_last() =~= sizes.take(i));
        small_overflow_stays(sizes, i + 1);
    }
}

fn small_product_of(sizes: &Vec<u32>) -> (r: Option<u32>)
    ensures
        match r {
            Some(p) => small_product(sizes@) == Some(p as nat),
            None => small_product(sizes@) is None,
        },
{
    let mut p: u32 = 1;
    let mut i: usize = 0;
    while i < sizes.len()
        invariant
            i <= sizes.len(),
            small_product(sizes@.take(i as int)) == Some(p as nat),
        decreases sizes.len() - i,
    {
        proof {
            assert(sizes@.take(i + 1).drop_last() =~= sizes@.take(i as int));
        }
        match p.checked_mul(sizes[i]) {
            Some(next) => {
                p = next;
            },
            None => {
                proof {
                    small_overflow_stays(sizes@, i + 1);
                }
                return None;
            },
        }
        i = i + 1;
    }
    proof {
        assert(sizes@.take(sizes@.len() as int) =~= sizes@);
    }
    Some(p)
}

/// The least and the greatest index into an axis, counted from its start or, negative, from its
/// end. An axis past the range of `i32` has none.
pub open spec fn index_range(size: u32) -> Option<(i32, i32)> {
    let extent = size as i32;
    if extent == i32::MIN {
        None
    } else {
        Some(((-extent) as i32, (extent - 1) as i32))
    }
}

fn index_range_of(size: u32) -> (r: Option<(i32, i32)>)
    ensures
        r == index_range(size),
{
    let extent: i32 = size as i32;
    if extent == i32::MIN {
        None
    } else {
        Some((-extent, extent - 1))
    }
}

/// The range of the indices into an axis that has one.
pub open spec fn index_bounds(size: u32) -> (i32, i32) {
    index_range(size)->0
}

/// Every index that is clamped to the range of an axis names an element of it.
pub proof fn index_range_is_valid(size: u32, i: i32)
    requires
        0 < size <= i32::MAX,
        index_range(size) is Some,
        index_bounds(size).0 <= i <= index_bounds(size).1,
    ensures
        0 <= (if i < 0 {
            i + size
        } else {
            i as int
        }) < size,
{
}

/// Indices of a gathering, clamped between constants.
#[verifier::opaque]
pub open spec fn gather_indices(
    n: Run,
    indices: Tensor,
    shape: Seq<i64>,
    low: Seq<u8>,
    high: Seq<u8>,
) -> (Run, Tensor) {
    let (n, l) = n.add_constant(
        shape,
        low,
        TrtDataType::kINT32,
        "Failed to add gather clamp min constant: "@,
    );
    let (n, u) = n.add_constant(
        shape,
        high,
        TrtDataType::kINT32,
        "Failed to add gather clamp max constant: "@,
    );
    let (n, least) = n.output(l, "Failed to get clamp min output: "@);
    let (n, greatest) = n.output(u, "Failed to get clamp max output: "@);
    let (n, t) = n.elementwise(
        indices,
        greatest,
        ElementWiseOperation::kMIN,
        "Failed to add gather indices clamp (min): "@,
        "Failed to get gather clamp upper output: "@,
    );
    n.elementwise(
        least,
        t,
        ElementWiseOperation::kMAX,
        "Failed to add gather indices clamp (max): "@,
        "Failed to get gather clamped indices output: "@,
    )
}

pub broadcast proof fn stopped_gather_indices(
    n: Run,
    indices: Tensor,
    shape: Seq<i64>,
    low: Seq<u8>,
    high: Seq<u8>,
)
    requires
        n.halt is Some,
    ensures
        (#[trigger] gather_indices(n, indices, shape, low, high)).0 == n,
{
    reveal(gather_indices);
}

/// Indices of a gathering by index tuples, clamped between constants.
#[verifier::opaque]
pub open spec fn gather_nd_indices(
    n: Run,
    indices: Tensor,
    shape: Seq<i64>,
    low: Seq<u8>,
    high: Seq<u8>,
) -> (Run, Tensor) {
    let (n, l) = n.add_constant(shape, low, TrtDataType::kINT32, "gatherND: clamp min constant: "@);
    let (n, u) = n.add_constant(
        shape,
        high,
        TrtDataType::kINT32,
        "gatherND: clamp max constant: "@,
    );
    let (n, least) = n.output(l, "gatherND: clamp min output: "@);
    let (n, greatest) = n.output(u, "gatherND: clamp max output: "@);
    let (n, t) = n.elementwise(
        indices,
        greatest,
        ElementWiseOperation::kMIN,
        "gatherND: indices clamp upper: "@,
        "gatherND: clamp upper tensor: "@,
    );
    n.elementwise(
        least,
        t,
        ElementWiseOperation::kMAX,
        "gatherND: indices clamp lower: "@,
        "gatherND: clamped indices: "@,
    )
}

pub broadcast proof fn stopped_gather_nd_indices(
    n: Run,
    indices: Tensor,
    shape: Seq<i64>,
    low: Seq<u8>,
    high: Seq<u8>,
)
    requires
        n.halt is Some,
    ensures
        (#[trigger] gather_nd_indices(n, indices, shape, low, high)).0 == n,
{
    reveal(gather_nd_indices);
}

/// Indices of a gathering element by element, clamped between constants.
#[verifier::opaque]
pub open spec fn gather_elements_indices(
    n: Run,
    indices: Tensor,
    shape: Seq<i64>,
    low: Seq<u8>,
    high: Seq<u8>,
) -> (Run, Tensor) {
    let (n, l) = n.add_constant(
        shape,
        low,
        TrtDataType::kINT32,
        "gatherElements: clamp min constant: "@,
    );
    let (n, u) = n.add_constant(
        shape,
        high,
        TrtDataType::kINT32,
        "gatherElements: clamp max constant: "@,
    );
    let (n, least) = n.output(l, "gatherElements: clamp min output: "@);
    let (n, greatest) = n.output(u, "gatherElements: clamp max output: "@);
    let (n, t) = n.elementwise(
        indices,
        greatest,
        ElementWiseOperation::kMIN,
        "gatherElements: indices clamp (min upper): "@,
        "gatherElements: clamp upper output: "@,
    );
    n.elementwise(
        least,
        t,
        ElementWiseOperation::kMAX,
        "gatherElements: indices clamp (max lower): "@,
        "gatherElements: clamped indices output: "@,
    )
}

pub broadcast proof fn stopped_gather_elements_indices(
    n: Run,
    indices: Tensor,
    shape: Seq<i64>,
    low: Seq<u8>,
    high: Seq<u8>,
)
    requires
        n.halt is Some,
    ensures
        (#[trigger] gather_elements_indices(n, indices, shape, low, high)).0 == n,
{
    reveal(gather_elements_indices);
}

/// A gathering along one axis. The indices are clamped to those of the axis.
pub open spec fn gather_op(
    n: Run,
    m: Map<u32, Tensor>,
    graph: GraphInfo,
    op: Operation,
) -> (Run, Map<u32, Tensor>) {
    let (n, x) = n.find(m, op.inputs@[0], "Input operand "@, " not found"@);
    let (n, indices) = n.find(m, op.inputs@[1], "Indices operand "@, " not found"@);
    let axis = gather_axis(op.kind);
    let (n, data) = n.operand(graph, op.inputs@[0], "Data operand "@, " not found in graph"@);
    let rank = data.descriptor.shape@.len();
    let n = n.reject_if(
        axis < 0 || axis >= rank,
        "Gather axis "@ + signed_decimal(axis as int) + " out of bounds for shape with "@
            + decimal(rank) + " dimensions"@,
    );
    let (n, by) = n.operand(graph, op.inputs@[1], "Indices operand "@, " not found in graph"@);
    let range = index_range(size_of_dim(data.descriptor.shape@[axis as int]));
    let sizes = max_sizes(by.descriptor.shape@);
    let count = small_product(sizes);
    let n = if range is None || count is None {
        n.stop(HaltOf::OutOfRange)
    } else {
        n
    };
    let (least, greatest) = range->0;
    let (n, indices) = gather_indices(
        n,
        indices,
        narrow_dims(sizes),
        repeated(le4(least as u32), count->0),
        repeated(le4(greatest as u32), count->0),
    );
    let (n, t) = n.layer(
        RequestOf::AddGather { data: x, indices, axis },
        "Failed to add gather layer: "@,
        "Failed to get gather output: "@,
    );
    store(n, m, op.outputs@[0], t)
}

/// A gathering element by element. The indices are clamped to those of the axis.
pub open spec fn gather_elements_op(
    n: Run,
    m: Map<u32, Tensor>,
    graph: GraphInfo,
    op: Operation,
) -> (Run, Map<u32, Tensor>) {
    let (n, x) = n.find(m, op.inputs@[0], "Data operand "@, " not found"@);
    let (n, indices) = n.find(m, op.inputs@[1], "Indices operand "@, " not found"@);
    let axis = gather_axis(op.kind);
    let (n, data) = n.operand(
        graph,
        op.inputs@[0],
        "gatherElements: data operand "@,
        " not in graph"@,
    );
    let rank = data.descriptor.shape@.len();
    let n = n.reject_if(
        axis < 0 || axis >= rank,
        "gatherElements axis "@ + signed_decimal(axis as int) + " out of bounds for rank "@
            + decimal(rank),
    );
    let (n, by) = n.operand(
        graph,
        op.inputs@[1],
        "gatherElements: indices operand "@,
        " not in graph"@,
    );
    let range = index_range(size_of_dim(data.descriptor.shape@[axis as int]));
    let sizes = max_sizes(by.descriptor.shape@);
    let count = small_product(sizes);
    let n = if range is None || count is None {
        n.stop(HaltOf::OutOfRange)
    } else {
        n
    };
    let (least, greatest) = range->0;
    let (n, indices) = gather_elements_indices(
        n,
        indices,
        narrow_dims(sizes),
        repeated(le4(least as u32), count->0),
        repeated(le4(greatest as u32), count->0),
    );
    let (n, l) = n.ask(
        RequestOf::AddGather { data: x, indices, axis },
        "Failed to create gather layer: "@,
    );
    let n = n.tell(RequestOf::SetGatherMode { layer: Layer { id: l }, mode: GatherMode::kELEMENT });
    let (n, t) = n.output(l, "Failed to get gatherElements output: "@);
    store(n, m, op.outputs@[0], t)
}

/// The least indices, or the greatest ones, into the first `k` axes, as bytes. An axis past the
/// range of `i32` has none.
pub open spec fn range_bytes(shape: Seq<Dimension>, k: nat, greatest: bool) -> Option<Seq<u8>>
    decreases k,
{
    if k == 0 {
        Some(seq![])
    } else {
        let range = index_range(size_of_dim(shape[k - 1]));
        match range_bytes(shape, (k - 1) as nat, greatest) {
            Some(bytes) => match range {
                Some(r) => Some(
                    bytes + le4(
                        if greatest {
                            r.1 as u32
                        } else {
                            r.0 as u32
                        },
                    ),
                ),
                None => None,
            },
            None => None,
        }
    }
}

proof fn no_range_stays(shape: Seq<Dimension>, k: nat, more: nat, greatest: bool)
    requires
        k <= more,
        range_bytes(shape, k, greatest) is None,
    ensures
        range_bytes(shape, more, greatest) is None,
    decreases more - k,
{
    if k < more {
        no_range_stays(shape, k, (more - 1) as nat, greatest);
    }
}

fn range_bytes_of(shape: &Vec<Dimension>, k: usize, greatest: bool) -> (r: Option<Vec<u8>>)
    requires
        k <= shape@.len(),
    ensures
        match r {
            Some(v) => range_bytes(shape@, k as nat, greatest) == Some(v@),
            None => range_bytes(shape@, k as nat, greatest) is None,
        },
{
    let mut bytes: Vec<u8> = Vec::new();
    let mut i: usize = 0;
    while i < k
        invariant
            i <= k <= shape@.len(),
            range_bytes(shape@, i as nat, greatest) == Some(bytes@),
        decreases k - i,
    {
        match index_range_of(get_static_or_max_size(&shape[i])) {
            Some(r) => {
                let unit = le4_bytes(
                    if greatest {
                        r.1 as u32
                    } else {
                        r.0 as u32
                    },
                );
                extend_bytes(&mut bytes, &unit);
            },
            None => {
                proof {
                    assert(range_bytes(shape@, (i + 1) as nat, greatest) is None);
                    no_range_stays(shape@, (i + 1) as nat, k as nat, greatest);
                }
                return None;
            },
        }
        i = i + 1;
    }
    Some(bytes)
}

fn leading(v: &Vec<u32>, n: usize) -> (r: Vec<u32>)
    requires
        n <= v@.len(),
    ensures
        r@ == v@.take(n as int),
{
    let mut r: Vec<u32> = Vec::with_capacity(n);
    let mut i: usize = 0;
    while i < n
        invariant
            i <= n <= v@.len(),
            r@ == v@.take(i as int),
        decreases n - i,
    {
        r.push(v[i]);
        proof {
            assert(v@.take(i + 1) =~= v@.take(i as int).push(v@[i as int]));
        }
        i = i + 1;
    }
    r
}

/// A gathering by index tuples. Each component is clamped to the indices of its axis.
pub open spec fn gather_nd_op(
    n: Run,
    m: Map<u32, Tensor>,
    graph: GraphInfo,
    op: Operation,
) -> (Run, Map<u32, Tensor>) {
    let (n, x) = n.find(m, op.inputs@[0], "Input operand "@, " not found"@);
    let (n, indices) = n.find(m, op.inputs@[1], "Indices operand "@, " not found"@);
    let (n, data) = n.operand(graph, op.inputs@[0], "gatherND: data operand "@, " not in graph"@);
    let (n, by) = n.operand(graph, op.inputs@[1], "gatherND: indices operand "@, " not in graph"@);
    let shape = data.descriptor.shape@;
    let sizes = max_sizes(by.descriptor.shape@);
    let k = if sizes.len() == 0 {
        1u32
    } else {
        sizes.last()
    };
    let n = n.reject_if(
        k == 0 || k > shape.len(),
        "gatherND: invalid indices last dim "@ + decimal(k as nat) + " for data rank "@
            + decimal(shape.len()),
    );
    let low = range_bytes(shape, k as nat, false);
    let high = range_bytes(shape, k as nat, true);
    let n = if low is None || high is None {
        n.stop(HaltOf::OutOfRange)
    } else {
        n
    };
    let n = n.reject_if(sizes.len() == 0, "gatherND: indices tensor must have rank >= 1"@);
    let (n, count) = elements(n, as_dims(sizes.take(sizes.len() - 1)));
    let (n, indices) = gather_nd_indices(
        n,
        indices,
        as_dims(sizes),
        repeated(low->0, count),
        repeated(high->0, count),
    );
    let (n, l) = n.ask(
        RequestOf::AddGather { data: x, indices, axis: 0 },
        "Failed to add gatherND layer: "@,
    );
    let n = n.tell(RequestOf::SetGatherMode { layer: Layer { id: l }, mode: GatherMode::kND });
    let (n, t) = n.output(l, "Failed to get gatherND output: "@);
    store(n, m, op.outputs@[0], t)
}

/// The axis of a scattering, read as `i32`, 0 where none is given.
pub open spec fn scatter_axis(kind: OperationKind) -> i32 {
    match kind {
        OperationKind::ScatterElements { options: Some(o) } => o.axis as i32,
        _ => 0,
    }
}

/// A scattering element by element.
pub open spec fn scatter_elements_op(
    n: Run,
    m: Map<u32, Tensor>,
    op: Operation,
) -> (Run, Map<u32, Tensor>) {
    let (n, x) = n.find(m, op.inputs@[0], "Data operand "@, " not found"@);
    let (n, indices) = n.find(m, op.inputs@[1], "Indices operand "@, " not found"@);
    let (n, updates) = n.find(m, op.inputs@[2], "Updates operand "@, " not found"@);
    let (n, l) = n.ask(
        RequestOf::AddScatter { data: x, indices, updates, mode: ScatterMode::kELEMENT },
        "Failed to add scatterElements layer: "@,
    );
    let n = n.tell(RequestOf::SetAxis { layer: Layer { id: l }, axis: scatter_axis(op.kind) });
    let (n, t) = n.output(l, "Failed to get scatterElements output: "@);
    store(n, m, op.outputs@[0], t)
}

/// A scattering by index tuples.
pub open spec fn scatter_nd_op(
    n: Run,
    m: Map<u32, Tensor>,
    op: Operation,
) -> (Run, Map<u32, Tensor>) {
    let (n, x) = n.find(m, op.inputs@[0], "Data operand "@, " not found"@);
    let (n, indices) = n.find(m, op.inputs@[1], "Indices operand "@, " not found"@);
    let (n, updates) = n.find(m, op.inputs@[2], "Updates operand "@, " not found"@);
    let (n, t) = n.layer(
        RequestOf::AddScatter { data: x, indices, updates, mode: ScatterMode::kND },
        "Failed to add scatterND layer: "@,
        "Failed to get scatterND output: "@,
    );
    store(n, m, op.outputs@[0], t)
}

/// The positions of the extreme elements along one axis: the second output of a top-k layer.
#[verifier::opaque]
pub open spec fn extreme_positions(
    n: Run,
    x: Tensor,
    op: TopKOperation,
    axes: u32,
    label: Seq<char>,
) -> (Run, Tensor) {
    let (n, l) = n.ask(RequestOf::AddTopK { input: x, op, k: 1, axes }, label + ": topK layer: "@);
    let (n, t) = n.ask(
        RequestOf::Output { layer: Layer { id: l }, index: 1 },
        label + ": topK indices output: "@,
    );
    (n, Tensor { id: t })
}

pub broadcast proof fn stopped_extreme_positions(
    n: Run,
    x: Tensor,
    op: TopKOperation,
    axes: u32,
    label: Seq<char>,
)
    requires
        n.halt is Some,
    ensures
        (#[trigger] extreme_positions(n, x, op, axes, label)).0 == n,
{
    reveal(extreme_positions);
}

/// The positions of the extreme elements along `axis`, in the shape that the reduction has.
/// TensorRT looks along the last four axes only, so an axis before them changes places with the
/// last one, and back afterwards.
#[verifier::opaque]
pub open spec fn arg_reduced(
    n: Run,
    graph: GraphInfo,
    id: u32,
    x: Tensor,
    axis: u32,
    keep_dims: bool,
    op: TopKOperation,
    label: Seq<char>,
) -> (Run, Tensor) {
    let (n, o) = n.operand(graph, id, label + " input operand "@, " not in graph"@);
    let sizes = max_sizes(o.descriptor.shape@);
    let rank = sizes.len();
    let n = n.reject_if(
        rank > 8,
        label + ": TensorRT shuffle transpose uses at most 8 axes, got rank "@ + decimal(rank),
    );
    let n = n.reject_if(
        axis >= rank,
        label + ": axis "@ + decimal(axis as nat) + " out of range for rank "@ + decimal(rank),
    );
    let (n, shape) = n.infer(
        RequestOf::InferArgReduceShape { shape: as_dims(sizes), axis, keep_dims },
    );
    let (n, t) = if rank == 1 {
        let (n, t) = n.reshape(
            x,
            seq![sizes[0] as i64, 1i64],
            label + ": unsqueeze 1D input for TopK: "@,
            label + ": set [N,1] reshape: "@,
            label + ": rank-2 TopK input: "@,
        );
        extreme_positions(n, t, op, 1, label)
    } else if rank >= 5 && axis < rank - 4 {
        let order = swapped_axes(rank, axis as int, rank - 1);
        let (n, t) = n.transpose(
            x,
            order,
            label + ": pre-transpose shuffle for TopK: "@,
            label + ": set pre-transpose: "@,
            label + ": pre-shuffle output: "@,
        );
        let (n, t) = extreme_positions(n, t, op, 1u32 << ((rank - 1) as u32), label);
        n.transpose(
            t,
            order,
            label + ": post-transpose shuffle: "@,
            label + ": set post-transpose: "@,
            label + ": post-shuffle output: "@,
        )
    } else {
        extreme_positions(n, x, op, 1u32 << axis, label)
    };
    n.reshape(
        t,
        shape,
        label + ": shuffle for output shape: "@,
        label + ": set reshape dimensions: "@,
        label + ": shuffle output: "@,
    )
}

pub broadcast proof fn stopped_arg_reduced(
    n: Run,
    graph: GraphInfo,
    id: u32,
    x: Tensor,
    axis: u32,
    keep_dims: bool,
    op: TopKOperation,
    label: Seq<char>,
)
    requires
        n.halt is Some,
    ensures
        (#[trigger] arg_reduced(n, graph, id, x, axis, keep_dims, op, label)).0 == n,
{
    broadcast use {stopped_extreme_positions};

    reveal(arg_reduced);
}

/// The axis of a search for positions, and whether it keeps the axis.
pub open spec fn arg_plan(kind: OperationKind) -> (u32, bool) {
    match kind {
        OperationKind::ArgMax { axis, options } => (
            axis,
            match options {
                Some(o) => o.keep_dimensions,
                None => false,
            },
        ),
        OperationKind::ArgMin { axis, options } => (
            axis,
            match options {
                Some(o) => o.keep_dimensions,
                None => false,
            },
        ),
        _ => (0, false),
    }
}

/// The positions of the greatest elements along an axis, as `f32` values.
pub open spec fn arg_max_op(
    n: Run,
    m: Map<u32, Tensor>,
    graph: GraphInfo,
    op: Operation,
) -> (Run, Map<u32, Tensor>) {
    let (n, x) = n.find(m, op.inputs@[0], "Input operand "@, " not found"@);
    let n = n.reject_if(!(op.kind is ArgMax), "expected ArgMax operation"@);
    let (axis, keep_dims) = arg_plan(op.kind);
    let (n, t) = arg_reduced(
        n,
        graph,
        op.inputs@[0],
        x,
        axis,
        keep_dims,
        TopKOperation::kMAX,
        "ArgMax"@,
    );
    let (n, t) = int32_to_float32(n, t);
    store(n, m, op.outputs@[0], t)
}

/// The positions of the least elements along an axis, as `f32` values.
pub open spec fn arg_min_op(
    n: Run,
    m: Map<u32, Tensor>,
    graph: GraphInfo,
    op: Operation,
) -> (Run, Map<u32, Tensor>) {
    let (n, x) = n.find(m, op.inputs@[0], "Input operand "@, " not found"@);
    let n = n.reject_if(!(op.kind is ArgMin), "expected ArgMin operation"@);
    let (axis, keep_dims) = arg_plan(op.kind);
    let (n, t) = arg_reduced(
        n,
        graph,
        op.inputs@[0],
        x,
        axis,
        keep_dims,
        TopKOperation::kMIN,
        "ArgMin"@,
    );
    let (n, t) = int32_to_float32(n, t);
    store(n, m, op.outputs@[0], t)
}

/// The bounds that a clamp is given, the lower and the upper one.
pub open spec fn clamp_bounds(kind: OperationKind) -> (Option<MLNumber>, Option<MLNumber>) {
    match kind {
        OperationKind::Clamp { options: Some(o) } => (o.min_value, o.max_value),
        _ => (None, None),
    }
}

/// A bound as a floating-point value. One that is not given, or not a number, does not bound.
pub open spec fn float_bound(v: Option<MLNumber>, unbounded: Known) -> FloatReading {
    match v {
        Some(v) => match bound_reading(v) {
            Some(x) => if is_nan(x.bits.single) {
                special(unbounded)
            } else {
                x
            },
            None => special(unbounded),
        },
        None => special(unbounded),
    }
}

/// A bound as an `i64`, and `unbounded` where there is none.
pub open spec fn wide_bound(v: Option<MLNumber>, unbounded: i64) -> i64 {
    match v {
        Some(v) => match bound_i64(v) {
            Some(i) => i,
            None => unbounded,
        },
        None => unbounded,
    }
}

/// A bound as an `i32`, moved into its range.
pub open spec fn int32_bound(v: Option<MLNumber>, unbounded: i32) -> i32 {
    let i = wide_bound(v, unbounded as i64);
    if i < i32::MIN {
        i32::MIN
    } else if i > i32::MAX {
        i32::MAX
    } else {
        i as i32
    }
}

/// A bound as a `u32`, moved into its range.
pub open spec fn uint32_bound(v: Option<MLNumber>, unbounded: u32) -> u32 {
    let u = match v {
        Some(v) => match bound_u64(v) {
            Some(u) => u,
            None => unbounded as u64,
        },
        None => unbounded as u64,
    };
    if u > u32::MAX {
        u32::MAX
    } else {
        u as u32
    }
}

/// The bytes of one bound of a clamp of elements of the given type.
pub open spec fn bound_bytes(v: Option<MLNumber>, t: DataType, upper: bool) -> Seq<u8> {
    let x = float_bound(
        v,
        if upper {
            Known::Infinity
        } else {
            Known::NegInfinity
        },
    );
    match t {
        DataType::Int8 => seq![x.to_i8 as u8],
        DataType::Uint8 => seq![x.to_u8],
        DataType::Int32 => le4(
            int32_bound(
                v,
                if upper {
                    i32::MAX
                } else {
                    i32::MIN
                },
            ) as u32,
        ),
        DataType::Uint32 => le4(
            uint32_bound(
                v,
                if upper {
                    u32::MAX
                } else {
                    0
                },
            ),
        ),
        DataType::Int64 | DataType::Uint64 => le8(
            wide_bound(
                v,
                if upper {
                    i64::MAX
                } else {
                    i64::MIN
                },
            ) as u64,
        ),
        DataType::Float16 => le2(x.bits.half),
        _ => le4(x.bits.single),
    }
}

fn float_bound_of(v: &Option<MLNumber>, unbounded: Known) -> (x: FloatReading)
    ensures
        x == float_bound(*v, unbounded),
{
    match v {
        Some(v) => match TrtxConverter::parse_clamp_bound_f32(v) {
            Some(x) => if is_nan_bits(x.bits.single) {
                special_reading(unbounded)
            } else {
                x
            },
            None => special_reading(unbounded),
        },
        None => special_reading(unbounded),
    }
}

fn wide_bound_of(v: &Option<MLNumber>, unbounded: i64) -> (i: i64)
    ensures
        i == wide_bound(*v, unbounded),
{
    match v {
        Some(v) => match TrtxConverter::parse_i64(v) {
            Some(i) => i,
            None => unbounded,
        },
        None => unbounded,
    }
}

fn int32_bound_of(v: &Option<MLNumber>, unbounded: i32) -> (r: i32)
    ensures
        r == int32_bound(*v, unbounded),
{
    let i: i64 = wide_bound_of(v, unbounded as i64);
    if i < i32::MIN as i64 {
        i32::MIN
    } else if i > i32::MAX as i64 {
        i32::MAX
    } else {
        i as i32
    }
}

fn uint32_bound_of(v: &Option<MLNumber>, unbounded: u32) -> (r: u32)
    ensures
        r == uint32_bound(*v, unbounded),
{
    let u: u64 = match v {
        Some(v) => match TrtxConverter::parse_u64(v) {
            Some(u) => u,
            None => unbounded as u64,
        },
        None => unbounded as u64,
    };
    if u > u32::MAX as u64 {
        u32::MAX
    } else {
        u as u32
    }
}

fn single_byte(b: u8) -> (v: Vec<u8>)
    ensures
        v@ == seq![b],
{
    let mut v: Vec<u8> = Vec::with_capacity(1);
    v.push(b);
    assert(v@ =~= seq![b]);
    v
}

fn bound_bytes_of(v: &Option<MLNumber>, t: DataType, upper: bool) -> (b: Vec<u8>)
    ensures
        b@ == bound_bytes(*v, t, upper),
{
    let x = float_bound_of(
        v,
        if upper {
            Known::Infinity
        } else {
            Known::NegInfinity
        },
    );
    match t {
        DataType::Int8 => single_byte(x.to_i8 as u8),
        DataType::Uint8 => single_byte(x.to_u8),
        DataType::Int32 => le4_bytes(
            int32_bound_of(
                v,
                if upper {
                    i32::MAX
                } else {
                    i32::MIN
                },
            ) as u32,
        ),
        DataType::Uint32 => le4_bytes(
            uint32_bound_of(
                v,
                if upper {
                    u32::MAX
                } else {
                    0
                },
            ),
        ),
        DataType::Int64 | DataType::Uint64 => le8_bytes(
            wide_bound_of(
                v,
                if upper {
                    i64::MAX
                } else {
                    i64::MIN
                },
            ) as u64,
        ),
        DataType::Float16 => le2_bytes(x.bits.half),
        _ => le4_bytes(x.bits.single),
    }
}

/// A clamp: `max(lower, min(x, upper))`, with the bounds as constants of the type of the input.
pub open spec fn clamp_op(
    n: Run,
    m: Map<u32, Tensor>,
    graph: GraphInfo,
    op: Operation,
) -> (Run, Map<u32, Tensor>) {
    let (n, x) = n.find(m, op.inputs@[0], "Input operand "@, " not found"@);
    let (n, o) = n.operand(graph, op.inputs@[0], "Input operand "@, " not found in graph"@);
    let dt = o.descriptor.data_type;
    let (n, shape) = scalar_shape(n, x, o.descriptor.shape@.len(), "clamp"@);
    let (lower, upper) = clamp_bounds(op.kind);
    let (n, greatest) = n.constant(
        shape,
        bound_bytes(upper, dt, true),
        trt_type(dt),
        "Failed to add max constant: "@,
        "Failed to get max constant output: "@,
    );
    let (n, t) = n.elementwise(
        x,
        greatest,
        ElementWiseOperation::kMIN,
        "Failed to add upper clamp: "@,
        "Failed to get upper clamp output: "@,
    );
    let (n, least) = n.constant(
        shape,
        bound_bytes(lower, dt, false),
        trt_type(dt),
        "Failed to add min constant: "@,
        "Failed to get min constant output: "@,
    );
    let (n, t) = n.elementwise(
        least,
        t,
        ElementWiseOperation::kMAX,
        "Failed to add lower clamp: "@,
        "Failed to get clamp output: "@,
    );
    store(n, m, op.outputs@[0], t)
}

/// A selection between two tensors. All three inputs are stretched to their common shape.
pub open spec fn where_op(
    n: Run,
    m: Map<u32, Tensor>,
    graph: GraphInfo,
    op: Operation,
) -> (Run, Map<u32, Tensor>) {
    let (n, c) = n.find(m, op.inputs@[0], "Condition operand "@, " not found"@);
    let (n, a) = n.find(m, op.inputs@[1], "True value operand "@, " not found"@);
    let (n, b) = n.find(m, op.inputs@[2], "False value operand "@, " not found"@);
    let (n, sc) = static_sizes(n, graph, op.inputs@[0]);
    let (n, sa) = static_sizes(n, graph, op.inputs@[1]);
    let (n, sb) = static_sizes(n, graph, op.inputs@[2]);
    let (n, shape) = n.infer(
        RequestOf::InferWhereShape { condition: as_dims(sc), on_true: as_dims(sa), on_false: as_dims(sb) },
    );
    let byte = graph.operands@[op.inputs@[0] as int].descriptor.data_type;
    let (n, c) = if byte == DataType::Uint8 || byte == DataType::Int8 {
        to_float32(n, c)
    } else {
        (n, c)
    };
    let (n, c) = broadcast_to(n, c, as_dims(sc), shape, "where_cond"@);
    let (n, a) = broadcast_to(n, a, as_dims(sa), shape, "where_true"@);
    let (n, b) = broadcast_to(n, b, as_dims(sb), shape, "where_false"@);
    let (n, c) = to_bool(n, c);
    let (n, t) = n.select(
        c,
        a,
        b,
        "Failed to add select layer: "@,
        "Failed to get select output: "@,
    );
    store(n, m, op.outputs@[0], t)
}

/// The axis of a softmax.
pub open spec fn softmax_axis(kind: OperationKind) -> u32 {
    match kind {
        OperationKind::Softmax { axis } => axis,
        _ => 0,
    }
}

/// A softmax along one axis.
pub open spec fn softmax_op(n: Run, m: Map<u32, Tensor>, op: Operation) -> (Run, Map<u32, Tensor>) {
    let (n, x) = n.find(m, op.inputs@[0], "Input operand "@, " not found"@);
    let n = n.reject_if(!(op.kind is Softmax), "expected Softmax operation"@);
    let axis = softmax_axis(op.kind);
    let n = if axis < 32 {
        n
    } else {
        n.stop(HaltOf::OutOfRange)
    };
    let (n, t) = n.layer(
        RequestOf::AddSoftmax { input: x, axes: 1u32 << axis },
        "Failed to add softmax: "@,
        "Failed to get layer output: "@,
    );
    store(n, m, op.outputs@[0], t)
}

/// The axis of a running sum, and whether it leaves out the element itself and runs backwards.
pub open spec fn running_plan(kind: OperationKind) -> (u32, bool, bool) {
    match kind {
        OperationKind::CumulativeSum { axis, options } => match options {
            Some(o) => (axis, o.exclusive, o.reversed),
            None => (axis, false, false),
        },
        _ => (0, false, false),
    }
}

/// A running sum along one axis.
pub open spec fn cumulative_sum_op(
    n: Run,
    m: Map<u32, Tensor>,
    graph: GraphInfo,
    op: Operation,
) -> (Run, Map<u32, Tensor>) {
    let (n, x) = n.find(m, op.inputs@[0], "Input operand "@, " not found"@);
    let (axis, exclusive, reverse) = running_plan(op.kind);
    let id = op.inputs@[0];
    let n = if id < graph.operands@.len() {
        n
    } else {
        n.stop(HaltOf::OutOfRange)
    };
    let rank = graph.operands@[id as int].descriptor.shape@.len();
    let n = n.reject_if(
        axis >= rank,
        "CumulativeSum axis "@ + decimal(axis as nat) + " out of range for rank "@ + decimal(rank),
    );
    let (n, at) = n.constant(
        zeros(0),
        le4(axis),
        TrtDataType::kINT32,
        "Failed to create axis constant: "@,
        "Failed to get axis constant output: "@,
    );
    let (n, t) = n.layer(
        RequestOf::AddCumulative { input: x, axis: at, op: CumulativeOperation::kSUM, exclusive, reverse },
        "Failed to add cumulative sum layer: "@,
        "Failed to get cumulative sum output: "@,
    );
    store(n, m, op.outputs@[0], t)
}

/// Whether a triangle is the upper one, and the diagonal it starts from.
pub open spec fn triangle_plan(kind: OperationKind) -> (bool, i32) {
    match kind {
        OperationKind::Triangular { options: Some(o) } => (
            match o.upper {
                Some(b) => b,
                None => true,
            },
            o.diagonal,
        ),
        _ => (true, 0),
    }
}

/// Whether the element in row `i` and column `j` belongs to a triangle.
pub open spec fn in_triangle(upper: bool, diagonal: i32, i: usize, j: usize) -> bool {
    if upper {
        j as i32 >= i as i32 + diagonal
    } else {
        j as i32 <= i as i32 + diagonal
    }
}

/// The upper triangle and the lower one of the same diagonal cover a matrix, and share the
/// diagonal only.
pub proof fn triangles_cover(diagonal: i32, i: usize, j: usize)
    ensures
        in_triangle(true, diagonal, i, j) || in_triangle(false, diagonal, i, j),
        in_triangle(true, diagonal, i, j) && in_triangle(false, diagonal, i, j) ==> j as i32 == i as i32
            + diagonal,
{
}

/// The bytes of the first `k` elements of a mask for matrices of `rows` rows and `columns`
/// columns, row by row: 1 inside the triangle and 0 outside it.
pub open spec fn mask_bytes(
    t: DataType,
    upper: bool,
    diagonal: i32,
    rows: nat,
    columns: nat,
    k: nat,
) -> Seq<u8>
    decreases k,
{
    if k == 0 {
        seq![]
    } else {
        let e = (k - 1) as int;
        let i = (e / columns as int % rows as int) as usize;
        let j = (e % columns as int) as usize;
        mask_bytes(t, upper, diagonal, rows, columns, (k - 1) as nat) + float_bytes(
            known(
                if in_triangle(upper, diagonal, i, j) {
                    Known::One
                } else {
                    Known::Zero
                },
            ),
            t,
        )
    }
}

fn mask_bytes_of(
    t: DataType,
    upper: bool,
    diagonal: i32,
    rows: usize,
    columns: usize,
    count: usize,
) -> (b: Vec<u8>)
    requires
        rows > 0,
        columns > 0,
    ensures
        b@ == mask_bytes(t, upper, diagonal, rows as nat, columns as nat, count as nat),
{
    let mut b: Vec<u8> = Vec::new();
    let mut k: usize = 0;
    while k < count
        invariant
            k <= count,
            rows > 0,
            columns > 0,
            b@ == mask_bytes(t, upper, diagonal, rows as nat, columns as nat, k as nat),
        decreases count - k,
    {
        let i: usize = k / columns % rows;
        let j: usize = k % columns;
        let edge: i64 = i as i32 as i64 + diagonal as i64;
        let keep = if upper {
            j as i32 as i64 >= edge
        } else {
            j as i32 as i64 <= edge
        };
        let unit = float_bytes_of(
            if keep {
                Known::One.scalar()
            } else {
                Known::Zero.scalar()
            },
            t,
        );
        extend_bytes(&mut b, &unit);
        k = k + 1;
    }
    b
}

/// The number of elements of a mask: those of whole matrices. Where there is no matrix to count by,
/// or a product overflows, there is none.
pub open spec fn mask_count(total: Option<nat>, rows: nat, columns: nat) -> Option<nat> {
    let area = rows * columns;
    match total {
        Some(n) => if area == 0 || area > usize::MAX {
            None
        } else {
            Some(n / area * area)
        },
        None => None,
    }
}

/// A triangle of each matrix of a tensor: its product with a mask.
pub open spec fn triangular_op(
    n: Run,
    m: Map<u32, Tensor>,
    graph: GraphInfo,
    op: Operation,
) -> (Run, Map<u32, Tensor>) {
    let (n, x) = n.find(m, op.inputs@[0], "Input operand "@, " not found"@);
    let (upper, diagonal) = triangle_plan(op.kind);
    let id = op.inputs@[0];
    let n = if id < graph.operands@.len() {
        n
    } else {
        n.stop(HaltOf::OutOfRange)
    };
    let o = graph.operands@[id as int];
    let dt = o.descriptor.data_type;
    let sizes = max_sizes(o.descriptor.shape@);
    let rank = sizes.len();
    let n = n.reject_if(
        rank < 2,
        "Triangular requires at least 2D tensor, got "@ + decimal(rank) + "D"@,
    );
    let rows = sizes[rank - 2] as nat;
    let columns = sizes[rank - 1] as nat;
    let count = mask_count(crate::trtx::shapes::extent_product(as_dims(sizes)), rows, columns);
    let n = if count is None {
        n.stop(HaltOf::OutOfRange)
    } else {
        n
    };
    let (n, l) = n.add_owned_constant(
        as_dims(sizes),
        mask_bytes(dt, upper, diagonal, rows, columns, count->0),
        float_type(dt),
        "Failed to add constant mask for triangular: "@,
    );
    let (n, mask) = n.output(l, "Failed to get mask tensor: "@);
    let (n, t) = n.elementwise(
        x,
        mask,
        ElementWiseOperation::kPROD,
        "Failed to add elementwise multiply for triangular: "@,
        "Failed to get triangular output: "@,
    );
    store(n, m, op.outputs@[0], t)
}

proof fn whole_matrices(total: int, area: int)
    requires
        0 <= total,
        0 < area,
    ensures
        0 <= total / area * area <= total,
{
    vstd::arithmetic::div_mod::lemma_fundamental_div_mod(total, area);
    vstd::arithmetic::div_mod::lemma_div_pos_is_pos(total, area);
    let q = total / area;
    assert(q * area == area * q) by (nonlinear_arith);
    assert(q * area >= 0) by (nonlinear_arith)
        requires
            q >= 0,
            area > 0,
    ;
}

proof fn area_positive(a: int, b: int)
    by (nonlinear_arith)
    requires
        a >= 0,
        b >= 0,
        a * b != 0,
    ensures
        a > 0,
        b > 0,
{
}

pub broadcast group group_select_stopped {
    stopped_gather_indices,
    stopped_gather_nd_indices,
    stopped_gather_elements_indices,
    stopped_extreme_positions,
    stopped_arg_reduced,
}

impl TrtxConverter {
    /// Clamps indices.
    pub fn gather_indices(
        net: &mut Network,
        indices: Tensor,
        shape: &Vec<i64>,
        low: Vec<u8>,
        high: Vec<u8>,
    ) -> (r: Result<Tensor, Halt>)
        ensures
            gives(final(net)@, r, gather_indices(old(net)@, indices, shape@, low@, high@)),
    {
        proof {
            reveal(gather_indices);
            broadcast use group_select_stopped;

        }
        let l: usize = net.add_constant(
            copy_i64(shape),
            low,
            TrtDataType::kINT32,
            "Failed to add gather clamp min constant: ",
        )?;
        let u: usize = net.add_constant(
            copy_i64(shape),
            high,
            TrtDataType::kINT32,
            "Failed to add gather clamp max constant: ",
        )?;
        let least = net.output(l, "Failed to get clamp min output: ")?;
        let greatest = net.output(u, "Failed to get clamp max output: ")?;
        let t = net.elementwise(
            indices,
            greatest,
            ElementWiseOperation::kMIN,
            "Failed to add gather indices clamp (min): ",
            "Failed to get gather clamp upper output: ",
        )?;
        net.elementwise(
            least,
            t,
            ElementWiseOperation::kMAX,
            "Failed to add gather indices clamp (max): ",
            "Failed to get gather clamped indices output: ",
        )
    }

    /// Clamps indices.
    pub fn gather_nd_indices(
        net: &mut Network,
        indices: Tensor,
        shape: &Vec<i64>,
        low: Vec<u8>,
        high: Vec<u8>,
    ) -> (r: Result<Tensor, Halt>)
        ensures
            gives(final(net)@, r, gather_nd_indices(old(net)@, indices, shape@, low@, high@)),
    {
        proof {
            reveal(gather_nd_indices);
            broadcast use group_select_stopped;

        }
        let l: usize = net.add_constant(
            copy_i64(shape),
            low,
            TrtDataType::kINT32,
            "gatherND: clamp min constant: ",
        )?;
        let u: usize = net.add_constant(
            copy_i64(shape),
            high,
            TrtDataType::kINT32,
            "gatherND: clamp max constant: ",
        )?;
        let least = net.output(l, "gatherND: clamp min output: ")?;
        let greatest = net.output(u, "gatherND: clamp max output: ")?;
        let t = net.elementwise(
            indices,
            greatest,
            ElementWiseOperation::kMIN,
            "gatherND: indices clamp upper: ",
            "gatherND: clamp upper tensor: ",
        )?;
        net.elementwise(
            least,
            t,
            ElementWiseOperation::kMAX,
            "gatherND: indices clamp lower: ",
            "gatherND: clamped indices: ",
        )
    }

    /// Clamps indices.
    pub fn gather_elements_indices(
        net: &mut Network,
        indices: Tensor,
        shape: &Vec<i64>,
        low: Vec<u8>,
        high: Vec<u8>,
    ) -> (r: Result<Tensor, Halt>)
        ensures
            gives(final(net)@, r, gather_elements_indices(old(net)@, indices, shape@, low@, high@)),
    {
        proof {
            reveal(gather_elements_indices);
            broadcast use group_select_stopped;

        }
        let l: usize = net.add_constant(
            copy_i64(shape),
            low,
            TrtDataType::kINT32,
            "gatherElements: clamp min constant: ",
        )?;
        let u: usize = net.add_constant(
            copy_i64(shape),
            high,
            TrtDataType::kINT32,
            "gatherElements: clamp max constant: ",
        )?;
        let least = net.output(l, "gatherElements: clamp min output: ")?;
        let greatest = net.output(u, "gatherElements: clamp max output: ")?;
        let t = net.elementwise(
            indices,
            greatest,
            ElementWiseOperation::kMIN,
            "gatherElements: indices clamp (min upper): ",
            "gatherElements: clamp upper output: ",
        )?;
        net.elementwise(
            least,
            t,
            ElementWiseOperation::kMAX,
            "gatherElements: indices clamp (max lower): ",
            "gatherElements: clamped indices output: ",
        )
    }

    /// Adds a gathering along one axis.
    pub fn add_gather_op(
        graph: &GraphInfo,
        net: &mut Network,
        tensors: &mut TensorMap,
        operation: &Operation,
    ) -> (r: Result<(), Halt>)
        requires
            operation.inputs@.len() >= 2,
            operation.outputs@.len() >= 1,
        ensures
            does(
                final(net)@,
                r,
                final(tensors)@,
                gather_op(old(net)@, old(tensors)@, *graph, *operation),
            ),
    {
        proof {
            broadcast use group_select_stopped;

        }
        let x = tensors.find(operation.inputs[0], "Input operand ", " not found")?;
        let indices = tensors.find(operation.inputs[1], "Indices operand ", " not found")?;
        let axis: i32 = gather_axis_of(&operation.kind);
        let data = find_operand(
            graph,
            operation.inputs[0],
            "Data operand ",
            " not found in graph",
        )?;
        let rank: usize = data.descriptor.shape.len();
        if axis < 0 || axis as usize >= rank {
            return Err(
                say("Gather axis ").signed(axis as i64).str(" out of bounds for shape with ")
                    .num(rank).str(" dimensions").halt(),
            );
        }
        let by = find_operand(
            graph,
            operation.inputs[1],
            "Indices operand ",
            " not found in graph",
        )?;
        let sizes = by.descriptor.static_or_max_shape();
        let (least, greatest): (i32, i32) = match index_range_of(
            get_static_or_max_size(&data.descriptor.shape[axis as usize]),
        ) {
            Some(range) => range, None => {
                return Err(HaltOf::OutOfRange);
            },
        };
        let count: u32 = match small_product_of(&sizes) {
            Some(count) => count, None => {
                return Err(HaltOf::OutOfRange);
            },
        };
        let low = repeat_bytes(&le4_bytes(least as u32), count as usize);
        let high = repeat_bytes(&le4_bytes(greatest as u32), count as usize);
        let indices = Self::gather_indices(net, indices, &narrow_dims_vec(&sizes), low, high)?;
        let t = net.layer(
            Request::AddGather { data: x, indices, axis },
            "Failed to add gather layer: ",
            "Failed to get gather output: ",
        )?;
        tensors.insert(operation.outputs[0], t);
        Ok(())
    }

    /// Adds a gathering element by element.
    pub fn add_gather_elements_op(
        graph: &GraphInfo,
        net: &mut Network,
        tensors: &mut TensorMap,
        operation: &Operation,
    ) -> (r: Result<(), Halt>)
        requires
            operation.inputs@.len() >= 2,
            operation.outputs@.len() >= 1,
        ensures
            does(
                final(net)@,
                r,
                final(tensors)@,
                gather_elements_op(old(net)@, old(tensors)@, *graph, *operation),
            ),
    {
        proof {
            broadcast use group_select_stopped;

        }
        let x = tensors.find(operation.inputs[0], "Data operand ", " not found")?;
        let indices = tensors.find(operation.inputs[1], "Indices operand ", " not found")?;
        let axis: i32 = gather_axis_of(&operation.kind);
        let data = find_operand(
            graph,
            operation.inputs[0],
            "gatherElements: data operand ",
            " not in graph",
        )?;
        let rank: usize = data.descriptor.shape.len();
        if axis < 0 || axis as usize >= rank {
            return Err(
                say("gatherElements axis ").signed(axis as i64).str(" out of bounds for rank ")
                    .num(rank).halt(),
            );
        }
        let by = find_operand(
            graph,
            operation.inputs[1],
            "gatherElements: indices operand ",
            " not in graph",
        )?;
        let sizes = by.descriptor.static_or_max_shape();
        let (least, greatest): (i32, i32) = match index_range_of(
            get_static_or_max_size(&data.descriptor.shape[axis as usize]),
        ) {
            Some(range) => range, None => {
                return Err(HaltOf::OutOfRange);
            },
        };
        let count: u32 = match small_product_of(&sizes) {
            Some(count) => count, None => {
                return Err(HaltOf::OutOfRange);
            },
        };
        let low = repeat_bytes(&le4_bytes(least as u32), count as usize);
        let high = repeat_bytes(&le4_bytes(greatest as u32), count as usize);
        let indices = Self::gather_elements_indices(
            net,
            indices,
            &narrow_dims_vec(&sizes),
            low,
            high,
        )?;
        let l: usize = net.ask(
            Request::AddGather { data: x, indices, axis },
            "Failed to create gather layer: ",
        )?;
        net.tell(Request::SetGatherMode { layer: Layer { id: l }, mode: GatherMode::kELEMENT })?;
        let t = net.output(l, "Failed to get gatherElements output: ")?;
        tensors.insert(operation.outputs[0], t);
        Ok(())
    }

    /// Adds a gathering by index tuples.
    pub fn add_gather_nd_op(
        graph: &GraphInfo,
        net: &mut Network,
        tensors: &mut TensorMap,
        operation: &Operation,
    ) -> (r: Result<(), Halt>)
        requires
            operation.inputs@.len() >= 2,
            operation.outputs@.len() >= 1,
        ensures
            does(
                final(net)@,
                r,
                final(tensors)@,
                gather_nd_op(old(net)@, old(tensors)@, *graph, *operation),
            ),
    {
        proof {
            broadcast use group_select_stopped;

        }
        let x = tensors.find(operation.inputs[0], "Input operand ", " not found")?;
        let indices = tensors.find(operation.inputs[1], "Indices operand ", " not found")?;
        let data = find_operand(
            graph,
            operation.inputs[0],
            "gatherND: data operand ",
            " not in graph",
        )?;
        let by = find_operand(
            graph,
            operation.inputs[1],
            "gatherND: indices operand ",
            " not in graph",
        )?;
        let shape = &data.descriptor.shape;
        let sizes = by.descriptor.static_or_max_shape();
        let rank: usize = sizes.len();
        let k: u32 = if rank == 0 {
            1
        } else {
            sizes[rank - 1]
        };
        if k == 0 || k as usize > shape.len() {
            return Err(
                say("gatherND: invalid indices last dim ").num32(k).str(" for data rank ")
                    .num(shape.len()).halt(),
            );
        }
        let low = match range_bytes_of(shape, k as usize, false) {
            Some(v) => v, None => {
                return Err(HaltOf::OutOfRange);
            },
        };
        let high = match range_bytes_of(shape, k as usize, true) {
            Some(v) => v, None => {
                return Err(HaltOf::OutOfRange);
            },
        };
        if rank == 0 {
            return Err(say("gatherND: indices tensor must have rank >= 1").halt());
        }
        let count: usize = elements_of(&as_dims_vec(&leading(&sizes, rank - 1)))?;
        let indices = Self::gather_nd_indices(
            net,
            indices,
            &as_dims_vec(&sizes),
            repeat_bytes(&low, count),
            repeat_bytes(&high, count),
        )?;
        let l: usize = net.ask(
            Request::AddGather { data: x, indices, axis: 0 },
            "Failed to add gatherND layer: ",
        )?;
        net.tell(Request::SetGatherMode { layer: Layer { id: l }, mode: GatherMode::kND })?;
        let t = net.output(l, "Failed to get gatherND output: ")?;
        tensors.insert(operation.outputs[0], t);
        Ok(())
    }

    /// Adds a scattering element by element.
    pub fn add_scatter_elements_op(
        net: &mut Network,
        tensors: &mut TensorMap,
        operation: &Operation,
    ) -> (r: Result<(), Halt>)
        requires
            operation.inputs@.len() >= 3,
            operation.outputs@.len() >= 1,
        ensures
            does(
                final(net)@,
                r,
                final(tensors)@,
                scatter_elements_op(old(net)@, old(tensors)@, *operation),
            ),
    {
        proof {
            broadcast use group_select_stopped;

        }
        let axis: i32 = match &operation.kind {
            OperationKind::ScatterElements { options: Some(o) } => o.axis as i32,
            _ => 0,
        };
        let x = tensors.find(operation.inputs[0], "Data operand ", " not found")?;
        let indices = tensors.find(operation.inputs[1], "Indices operand ", " not found")?;
        let updates = tensors.find(operation.inputs[2], "Updates operand ", " not found")?;
        let l: usize = net.ask(
            Request::AddScatter { data: x, indices, updates, mode: ScatterMode::kELEMENT },
            "Failed to add scatterElements layer: ",
        )?;
        net.tell(Request::SetAxis { layer: Layer { id: l }, axis: axis })?;
        let t = net.output(l, "Failed to get scatterElements output: ")?;
        tensors.insert(operation.outputs[0], t);
        Ok(())
    }

    /// Adds a scattering by index tuples.
    pub fn add_scatter_nd_op(
        net: &mut Network,
        tensors: &mut TensorMap,
        operation: &Operation,
    ) -> (r: Result<(), Halt>)
        requires
            operation.inputs@.len() >= 3,
            operation.outputs@.len() >= 1,
        ensures
            does(
                final(net)@,
                r,
                final(tensors)@,
                scatter_nd_op(old(net)@, old(tensors)@, *operation),
            ),
    {
        proof {
            broadcast use group_select_stopped;

        }
        let x = tensors.find(operation.inputs[0], "Data operand ", " not found")?;
        let indices = tensors.find(operation.inputs[1], "Indices operand ", " not found")?;
        let updates = tensors.find(operation.inputs[2], "Updates operand ", " not found")?;
        let t = net.layer(
            Request::AddScatter { data: x, indices, updates, mode: ScatterMode::kND },
            "Failed to add scatterND layer: ",
            "Failed to get scatterND output: ",
        )?;
        tensors.insert(operation.outputs[0], t);
        Ok(())
    }

    /// Adds a top-k layer and takes the positions.
    pub fn extreme_positions(
        net: &mut Network,
        x: Tensor,
        op: TopKOperation,
        axes: u32,
        label: &str,
    ) -> (r: Result<Tensor, Halt>)
        ensures
            gives(final(net)@, r, extreme_positions(old(net)@, x, op, axes, label@)),
    {
        proof {
            reveal(extreme_positions);
            broadcast use group_select_stopped;

        }
        let l: usize = net.ask(
            Request::AddTopK { input: x, op, k: 1, axes },
            say(label).str(": topK layer: ").text.as_str(),
        )?;
        let t: usize = net.ask(
            Request::Output { layer: Layer { id: l }, index: 1 },
            say(label).str(": topK indices output: ").text.as_str(),
        )?;
        Ok(Tensor { id: t })
    }

    /// Adds the search for the positions of the extreme elements.
    pub fn add_arg_reduce_common(
        net: &mut Network,
        graph: &GraphInfo,
        id: u32,
        x: Tensor,
        axis: u32,
        keep_dims: bool,
        op: TopKOperation,
        label: &str,
    ) -> (r: Result<Tensor, Halt>)
        ensures
            gives(
                final(net)@,
                r,
                arg_reduced(old(net)@, *graph, id, x, axis, keep_dims, op, label@),
            ),
    {
        proof {
            reveal(arg_reduced);
            broadcast use group_select_stopped;

        }
        let o = find_operand(
            graph,
            id,
            say(label).str(" input operand ").text.as_str(),
            " not in graph",
        )?;
        let sizes = o.descriptor.static_or_max_shape();
        let rank: usize = sizes.len();
        if rank > 8 {
            return Err(
                say(label).str(
                    ": TensorRT shuffle transpose uses at most 8 axes, got rank ",
                ).num(rank).halt(),
            );
        }
        if axis as usize >= rank {
            return Err(
                say(label).str(": axis ").num32(axis).str(" out of range for rank ").num(rank)
                    .halt(),
            );
        }
        let shape = net.infer(
            Request::InferArgReduceShape { shape: as_dims_vec(&sizes), axis, keep_dims },
        )?;
        let t = if rank == 1 {
            let mut column: Vec<i64> = Vec::with_capacity(2);
            column.push(sizes[0] as i64);
            column.push(1);
            proof {
                assert(column@ =~= seq![sizes@[0] as i64, 1i64]);
            }
            let t = net.reshape(
                x,
                column,
                say(label).str(": unsqueeze 1D input for TopK: ").text.as_str(),
                say(label).str(": set [N,1] reshape: ").text.as_str(),
                say(label).str(": rank-2 TopK input: ").text.as_str(),
            )?;
            Self::extreme_positions(net, t, op, 1, label)?
        } else if rank >= 5 && (axis as usize) < rank - 4 {
            let t = net.transpose(
                x,
                swapped_axes_vec(rank, axis as usize, rank - 1),
                say(label).str(": pre-transpose shuffle for TopK: ").text.as_str(),
                say(label).str(": set pre-transpose: ").text.as_str(),
                say(label).str(": pre-shuffle output: ").text.as_str(),
            )?;
            let t = Self::extreme_positions(net, t, op, 1u32 << ((rank - 1) as u32), label)?;
            net.transpose(
                t,
                swapped_axes_vec(rank, axis as usize, rank - 1),
                say(label).str(": post-transpose shuffle: ").text.as_str(),
                say(label).str(": set post-transpose: ").text.as_str(),
                say(label).str(": post-shuffle output: ").text.as_str(),
            )?
        } else {
            Self::extreme_positions(net, x, op, 1u32 << axis, label)?
        };
        net.reshape(
            t,
            shape,
            say(label).str(": shuffle for output shape: ").text.as_str(),
            say(label).str(": set reshape dimensions: ").text.as_str(),
            say(label).str(": shuffle output: ").text.as_str(),
        )
    }

    /// Adds the search for the positions of the greatest elements.
    pub fn add_arg_max_op(
        graph: &GraphInfo,
        net: &mut Network,
        tensors: &mut TensorMap,
        operation: &Operation,
    ) -> (r: Result<(), Halt>)
        requires
            operation.inputs@.len() >= 1,
            operation.outputs@.len() >= 1,
        ensures
            does(
                final(net)@,
                r,
                final(tensors)@,
                arg_max_op(old(net)@, old(tensors)@, *graph, *operation),
            ),
    {
        proof {
            broadcast use group_select_stopped;

        }
        let x = tensors.find(operation.inputs[0], "Input operand ", " not found")?;
        let (axis, keep_dims): (u32, bool) = match &operation.kind {
            OperationKind::ArgMax { axis, options } => (*axis, match options { Some(o) => o.keep_dimensions, None => false, }),
            _ => {
                return Err(say("expected ArgMax operation").halt());
            },
        };
        let t = Self::add_arg_reduce_common(
            net,
            graph,
            operation.inputs[0],
            x,
            axis,
            keep_dims,
            TopKOperation::kMAX,
            "ArgMax",
        )?;
        let t = Self::cast_int32_to_float32(net, t)?;
        tensors.insert(operation.outputs[0], t);
        Ok(())
    }

    /// Adds the search for the positions of the least elements.
    pub fn add_arg_min_op(
        graph: &GraphInfo,
        net: &mut Network,
        tensors: &mut TensorMap,
        operation: &Operation,
    ) -> (r: Result<(), Halt>)
        requires
            operation.inputs@.len() >= 1,
            operation.outputs@.len() >= 1,
        ensures
            does(
                final(net)@,
                r,
                final(tensors)@,
                arg_min_op(old(net)@, old(tensors)@, *graph, *operation),
            ),
    {
        proof {
            broadcast use group_select_stopped;

        }
        let x = tensors.find(operation.inputs[0], "Input operand ", " not found")?;
        let (axis, keep_dims): (u32, bool) = match &operation.kind {
            OperationKind::ArgMin { axis, options } => (*axis, match options { Some(o) => o.keep_dimensions, None => false, }),
            _ => {
                return Err(say("expected ArgMin operation").halt());
            },
        };
        let t = Self::add_arg_reduce_common(
            net,
            graph,
            operation.inputs[0],
            x,
            axis,
            keep_dims,
            TopKOperation::kMIN,
            "ArgMin",
        )?;
        let t = Self::cast_int32_to_float32(net, t)?;
        tensors.insert(operation.outputs[0], t);
        Ok(())
    }

    /// Adds a clamp.
    pub fn add_clamp_op(
        graph: &GraphInfo,
        net: &mut Network,
        tensors: &mut TensorMap,
        operation: &Operation,
    ) -> (r: Result<(), Halt>)
        requires
            operation.inputs@.len() >= 1,
            operation.outputs@.len() >= 1,
        ensures
            does(
                final(net)@,
                r,
                final(tensors)@,
                clamp_op(old(net)@, old(tensors)@, *graph, *operation),
            ),
    {
        proof {
            broadcast use group_select_stopped;

        }
        let x = tensors.find(operation.inputs[0], "Input operand ", " not found")?;
        let o = find_operand(graph, operation.inputs[0], "Input operand ", " not found in graph")?;
        let dt = o.descriptor.data_type;
        let shape = Self::trtx_broadcast_ones_for_elementwise_scalar(
            net,
            x,
            o.descriptor.shape.len(),
            "clamp",
        )?;
        let unbounded: Option<MLNumber> = None;
        let (lower, upper) = match &operation.kind {
            OperationKind::Clamp { options: Some(o) } => (&o.min_value, &o.max_value),
            _ => (&unbounded, &unbounded),
        };
        let greatest = net.constant(
            copy_i64(&shape),
            bound_bytes_of(upper, dt, true),
            trt_type_of(dt),
            "Failed to add max constant: ",
            "Failed to get max constant output: ",
        )?;
        let t = net.elementwise(
            x,
            greatest,
            ElementWiseOperation::kMIN,
            "Failed to add upper clamp: ",
            "Failed to get upper clamp output: ",
        )?;
        let least = net.constant(
            shape,
            bound_bytes_of(lower, dt, false),
            trt_type_of(dt),
            "Failed to add min constant: ",
            "Failed to get min constant output: ",
        )?;
        let t = net.elementwise(
            least,
            t,
            ElementWiseOperation::kMAX,
            "Failed to add lower clamp: ",
            "Failed to get clamp output: ",
        )?;
        tensors.insert(operation.outputs[0], t);
        Ok(())
    }

    /// Adds a selection.
    pub fn add_where_op(
        graph: &GraphInfo,
        net: &mut Network,
        tensors: &mut TensorMap,
        operation: &Operation,
    ) -> (r: Result<(), Halt>)
        requires
            operation.inputs@.len() >= 3,
            operation.outputs@.len() >= 1,
        ensures
            does(
                final(net)@,
                r,
                final(tensors)@,
                where_op(old(net)@, old(tensors)@, *graph, *operation),
            ),
    {
        proof {
            broadcast use group_select_stopped;

        }
        let c = tensors.find(operation.inputs[0], "Condition operand ", " not found")?;
        let a = tensors.find(operation.inputs[1], "True value operand ", " not found")?;
        let b = tensors.find(operation.inputs[2], "False value operand ", " not found")?;
        let sc = as_dims_vec(&Self::operand_shape_u32_static(net, graph, operation.inputs[0])?);
        let sa = as_dims_vec(&Self::operand_shape_u32_static(net, graph, operation.inputs[1])?);
        let sb = as_dims_vec(&Self::operand_shape_u32_static(net, graph, operation.inputs[2])?);
        let shape = net.infer(
            Request::InferWhereShape { condition: copy_i64(&sc), on_true: copy_i64(&sa), on_false: copy_i64(&sb) },
        )?;
        let byte = match graph.operand(operation.inputs[0]) {
            Some(o) => matches!(
                o.descriptor.data_type,
                DataType::Uint8 | DataType::Int8,
            ), None => false,
        };
        let c = if byte {
            Self::cast_to_float32(net, c)?
        } else {
            c
        };
        let c = Self::broadcast_trtx_tensor_to_dims(net, c, &sc, &shape, "where_cond")?;
        let a = Self::broadcast_trtx_tensor_to_dims(net, a, &sa, &shape, "where_true")?;
        let b = Self::broadcast_trtx_tensor_to_dims(net, b, &sb, &shape, "where_false")?;
        let c = Self::cast_to_bool(net, c)?;
        let t = net.select(
            c,
            a,
            b,
            "Failed to add select layer: ",
            "Failed to get select output: ",
        )?;
        tensors.insert(operation.outputs[0], t);
        Ok(())
    }

    /// Adds a softmax.
    pub fn add_softmax_op(
        net: &mut Network,
        tensors: &mut TensorMap,
        operation: &Operation,
    ) -> (r: Result<(), Halt>)
        requires
            operation.inputs@.len() >= 1,
            operation.outputs@.len() >= 1,
        ensures
            does(final(net)@, r, final(tensors)@, softmax_op(old(net)@, old(tensors)@, *operation)),
    {
        proof {
            broadcast use group_select_stopped;

        }
        let x = tensors.find(operation.inputs[0], "Input operand ", " not found")?;
        let axis: u32 = match &operation.kind {
            OperationKind::Softmax { axis } => *axis,
            _ => {
                return Err(say("expected Softmax operation").halt());
            },
        };
        if axis >= 32 {
            return Err(HaltOf::OutOfRange);
        }
        let t = net.layer(
            Request::AddSoftmax { input: x, axes: 1u32 << axis },
            "Failed to add softmax: ",
            "Failed to get layer output: ",
        )?;
        tensors.insert(operation.outputs[0], t);
        Ok(())
    }

    /// Adds a running sum.
    pub fn add_cumulative_sum_op(
        graph: &GraphInfo,
        net: &mut Network,
        tensors: &mut TensorMap,
        operation: &Operation,
    ) -> (r: Result<(), Halt>)
        requires
            operation.inputs@.len() >= 1,
            operation.outputs@.len() >= 1,
        ensures
            does(
                final(net)@,
                r,
                final(tensors)@,
                cumulative_sum_op(old(net)@, old(tensors)@, *graph, *operation),
            ),
    {
        proof {
            broadcast use group_select_stopped;

            assert(zeros(0) =~= Seq::<i64>::empty());
        }
        let x = tensors.find(operation.inputs[0], "Input operand ", " not found")?;
        let (axis, exclusive, reverse): (u32, bool, bool) = match &operation.kind {
            OperationKind::CumulativeSum { axis, options } => match options {
                Some(o) => (*axis, o.exclusive, o.reversed),
                None => (*axis, false, false),
            },
            _ => (0, false, false),
        };
        let o = match graph.operand(operation.inputs[0]) {
            Some(o) => o, None => {
                return Err(HaltOf::OutOfRange);
            },
        };
        let rank: usize = o.descriptor.shape.len();
        if axis as usize >= rank {
            return Err(
                say("CumulativeSum axis ").num32(axis).str(" out of range for rank ").num(rank)
                    .halt(),
            );
        }
        let at = net.constant(
            Vec::new(),
            le4_bytes(axis),
            TrtDataType::kINT32,
            "Failed to create axis constant: ",
            "Failed to get axis constant output: ",
        )?;
        let t = net.layer(
            Request::AddCumulative { input: x, axis: at, op: CumulativeOperation::kSUM, exclusive, reverse },
            "Failed to add cumulative sum layer: ",
            "Failed to get cumulative sum output: ",
        )?;
        tensors.insert(operation.outputs[0], t);
        Ok(())
    }

    /// Adds a triangle.
    pub fn add_triangular_op(
        graph: &GraphInfo,
        net: &mut Network,
        tensors: &mut TensorMap,
        operation: &Operation,
    ) -> (r: Result<(), Halt>)
        requires
            operation.inputs@.len() >= 1,
            operation.outputs@.len() >= 1,
        ensures
            does(
                final(net)@,
                r,
                final(tensors)@,
                triangular_op(old(net)@, old(tensors)@, *graph, *operation),
            ),
    {
        proof {
            broadcast use group_select_stopped;

        }
        let x = tensors.find(operation.inputs[0], "Input operand ", " not found")?;
        let (upper, diagonal): (bool, i32) = match &operation.kind {
            OperationKind::Triangular { options: Some(o) } => (match o.upper { Some(b) => b, None => true, }, o.diagonal),
            _ => (true, 0),
        };
        let o = match graph.operand(operation.inputs[0]) {
            Some(o) => o, None => {
                return Err(HaltOf::OutOfRange);
            },
        };
        let dt = o.descriptor.data_type;
        let sizes = o.descriptor.static_or_max_shape();
        let rank: usize = sizes.len();
        if rank < 2 {
            return Err(
                say("Triangular requires at least 2D tensor, got ").num(rank).str("D").halt(),
            );
        }
        let rows: usize = sizes[rank - 2] as usize;
        let columns: usize = sizes[rank - 1] as usize;
        let dims = as_dims_vec(&sizes);
        let total: usize = elements_of(&dims)?;
        let area: usize = match rows.checked_mul(columns) {
            Some(area) => area, None => {
                return Err(HaltOf::OutOfRange);
            },
        };
        if area == 0 {
            return Err(HaltOf::OutOfRange);
        }
        proof {
            whole_matrices(total as int, area as int);
            area_positive(rows as int, columns as int);
        }
        let count: usize = total / area * area;
        let l: usize = net.add_owned_constant(
            dims,
            mask_bytes_of(dt, upper, diagonal, rows, columns, count),
            float_type_of(dt),
            "Failed to add constant mask for triangular: ",
        )?;
        let mask = net.output(l, "Failed to get mask tensor: ")?;
        let t = net.elementwise(
            x,
            mask,
            ElementWiseOperation::kPROD,
            "Failed to add elementwise multiply for triangular: ",
            "Failed to get triangular output: ",
        )?;
        tensors.insert(operation.outputs[0], t);
        Ok(())
    }
}

} // verus!
