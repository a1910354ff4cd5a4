//! Operations that rearrange elements: slices, splits, tiles, concatenations, transposes,
//! reshapes, resampling and reversal.

use crate::graph::{max_sizes, GraphInfo};
use crate::operator_options::{ml_sizes, mldimensions_static_or_max, MLResample2dOptions};
use crate::operators::{Operation, OperationKind};
use crate::scalar::{
    float_bytes, float_bytes_of, float_type, float_type_of, known, repeat_bytes, repeated, Known,
};
use crate::text::{ascii_lowercase, bracket_list, decimal, ints32, same_ignoring_case, say};
use crate::trtx::broadcast::{
    as_dims, as_dims_vec, broadcast_pair, group_broadcast_stopped, ones, ones_vec, zeros, zeros_vec,
};
use crate::trtx::pad::{as_signed, as_signed_vec, copies, not_below_zero, not_below_zero_vec, push_copies};
use crate::trtx::session::{
    copy_i64, does, find_operand, gives, group_stopped, outcome, store, Halt, HaltOf, Network,
    Request, RequestOf, Run, TensorMap,
};
use crate::trtx::shapes::{elements, elements_of, moved_axis, moved_axis_of, with_entry};
use crate::trtx::steps::group_layers_stopped;
use crate::trtx::types::{
    ElementWiseOperation, Layer, ResizeCoordinateTransformation, ResizeMode, ResizeRoundMode,
    Tensor,
};
use crate::trtx::TrtxConverter;
use vstd::prelude::*;

verus! {

broadcast use {group_stopped, group_layers_stopped, group_broadcast_stopped};

/// A quotient with its fraction dropped, by a positive divisor.
pub open spec fn truncated(a: int, b: int) -> int {
    if a >= 0 {
        a / b
    } else {
        -((-a) / b)
    }
}

fn truncated_of(a: i64, b: i64) -> (q: i64)
    requires
        b > 0,
        a > i64::MIN,
    ensures
        q == truncated(a as int, b as int),
{
    proof {
        if a >= 0 {
            vstd::arithmetic::div_mod::lemma_div_basics(a as int);
            vstd::arithmetic::div_mod::lemma_div_is_ordered_by_denominator(a as int, 1, b as int);
            vstd::arithmetic::div_mod::lemma_div_pos_is_pos(a as int, b as int);
        } else {
            vstd::arithmetic::div_mod::lemma_div_basics(-a as int);
            vstd::arithmetic::div_mod::lemma_div_is_ordered_by_denominator(-a as int, 1, b as int);
            vstd::arithmetic::div_mod::lemma_div_pos_is_pos(-a as int, b as int);
        }
    }
    if a >= 0 {
        a / b
    } else {
        -((-a) / b)
    }
}

/// The numbers of a list, each read as `i32`, as dimensions.
pub open spec fn narrow_dims(v: Seq<u32>) -> Seq<i64> {
    v.map_values(|u: u32| (u as i32) as i64)
}

/// The numbers of a list, each read as `i32`, as dimensions.
pub fn narrow_dims_vec(v: &Vec<u32>) -> (r: Vec<i64>)
    ensures
        r@ == narrow_dims(v@),
{
    let mut r: Vec<i64> = Vec::with_capacity(v.len());
    let mut i: usize = 0;
    while i < v.len()
        invariant
            i <= v.len(),
            r@.len() == i,
            forall|k: int| 0 <= k < i ==> #[trigger] r@[k] == narrow_dims(v@)[k],
        decreases v.len() - i,
    {
        r.push((v[i] as i32) as i64);
        i = i + 1;
    }
    assert(r@ =~= narrow_dims(v@));
    r
}

/// The number of elements that a slice takes from a stretch of `extent` in steps of `stride`: the
/// quotient rounded up. A step of 0 takes none.
pub open spec fn slice_length(extent: i64, stride: i64) -> i64 {
    let step = if stride < 0 {
        -stride
    } else {
        stride as int
    };
    if stride == 0 {
        0
    } else if stride == 1 {
        extent
    } else {
        truncated(extent + step - 1, step) as i64
    }
}

/// The lengths of a slice along each axis.
pub open spec fn slice_lengths(extents: Seq<i64>, strides: Seq<i64>) -> Seq<i64> {
    Seq::new(
        if extents.len() < strides.len() {
            extents.len()
        } else {
            strides.len()
        },
        |i: int| slice_length(extents[i], strides[i]),
    )
}

/// The last element of a slice lies inside its stretch, and one more would not.
pub proof fn slice_covers(extent: i64, stride: i64)
    requires
        0 < extent <= i32::MAX,
        1 < stride <= i32::MAX,
    ensures
        (slice_length(extent, stride) - 1) * stride < extent,
        slice_length(extent, stride) * stride >= extent,
{
    let a = extent + stride - 1;
    let q = a / stride as int;
    vstd::arithmetic::div_mod::lemma_fundamental_div_mod(a, stride as int);
    vstd::arithmetic::div_mod::lemma_div_basics(a);
    vstd::arithmetic::div_mod::lemma_div_is_ordered_by_denominator(a, 1, stride as int);
    vstd::arithmetic::div_mod::lemma_div_pos_is_pos(a, stride as int);
    assert((q - 1) * stride == stride * q - stride) by (nonlinear_arith);
    assert(q * stride == stride * q) by (nonlinear_arith);
}

fn slice_lengths_vec(extents: &Vec<i64>, strides: &Vec<i64>) -> (v: Vec<i64>)
    requires
        forall|i: int| 0 <= i < extents@.len() ==> i32::MIN <= #[trigger] extents@[i] <= i32::MAX,
        forall|i: int| 0 <= i < strides@.len() ==> i32::MIN <= #[trigger] strides@[i] <= i32::MAX,
    ensures
        v@ == slice_lengths(extents@, strides@),
{
    let mut v: Vec<i64> = Vec::new();
    let mut i: usize = 0;
    while i < extents.len() && i < strides.len()
        invariant
            i <= extents.len(),
            i <= strides.len(),
            v@.len() == i,
            forall|k: int|
                0 <= k < extents@.len() ==> i32::MIN <= #[trigger] extents@[k] <= i32::MAX,
            forall|k: int|
                0 <= k < strides@.len() ==> i32::MIN <= #[trigger] strides@[k] <= i32::MAX,
            forall|k: int|
                0 <= k < i ==> #[trigger] v@[k] == slice_length(extents@[k], strides@[k]),
        decreases extents.len() - i,
    {
        let extent: i64 = extents[i];
        let stride: i64 = strides[i];
        if stride == 0 {
            v.push(0);
        } else if stride == 1 {
            v.push(extent);
        } else {
            let step: i64 = if stride < 0 {
                -stride
            } else {
                stride
            };
            v.push(truncated_of(extent + step - 1, step));
        }
        i = i + 1;
    }
    assert(v@ =~= slice_lengths(extents@, strides@));
    v
}

/// The starts, the extents and the strides of a slice. The strides are 1 where none are given.
pub open spec fn slice_plan(kind: OperationKind) -> (Seq<i64>, Seq<i64>, Seq<i64>) {
    match kind {
        OperationKind::Slice { starts, sizes, options: Some(o) } => (
            narrow_dims(starts@),
            narrow_dims(ml_sizes(sizes@)),
            if o.strides@.len() == 0 {
                ones(starts@.len())
            } else {
                narrow_dims(o.strides@)
            },
        ),
        _ => (seq![], seq![], seq![]),
    }
}

/// Whether an operation is a slice with its options.
pub open spec fn has_slice_options(kind: OperationKind) -> bool {
    match kind {
        OperationKind::Slice { options, .. } => options is Some,
        _ => false,
    }
}

/// A slice. TensorRT takes the number of elements along each axis in place of the extent of the
/// stretch.
pub open spec fn slice_op(n: Run, m: Map<u32, Tensor>, op: Operation) -> (Run, Map<u32, Tensor>) {
    let (n, x) = n.find(m, op.inputs@[0], "Input operand "@, " not found"@);
    let n = n.reject_if(!(op.kind is Slice), "expected Slice operation"@);
    let n = n.reject_if(!has_slice_options(op.kind), "Slice operation missing options"@);
    let (starts, extents, strides) = slice_plan(op.kind);
    let (n, t) = if starts.len() == 0 || extents.len() == 0 {
        n.identity(x, "Slice no-op identity: "@, "Slice no-op output: "@)
    } else {
        n.slice(
            x,
            starts,
            slice_lengths(extents, strides),
            strides,
            "Failed to add slice layer: "@,
            "Failed to get layer output: "@,
        )
    };
    store(n, m, op.outputs@[0], t)
}

/// The sum of the first `k` sizes.
pub open spec fn sum_of(sizes: Seq<i32>, k: nat) -> int
    decreases k,
{
    if k == 0 {
        0
    } else {
        sum_of(sizes, (k - 1) as nat) + sizes[k - 1]
    }
}

/// The size of part `i` of `count` even parts of an extent: the remainder is spread over the first
/// ones.
pub open spec fn even_part(extent: i32, count: nat, i: int) -> i32 {
    let base = truncated(extent as int, count as int);
    let rest = extent - base * count;
    (base + (if rest < 0 || i < rest {
        1int
    } else {
        0
    })) as i32
}

/// The sizes of `count` even parts of an extent.
pub open spec fn even_parts(extent: i32, count: nat) -> Seq<i32> {
    Seq::new(count, |i: int| even_part(extent, count, i))
}

/// Even parts add up to the extent.
pub proof fn even_parts_add_up(extent: i32, count: nat, k: nat)
    requires
        0 <= extent,
        0 < count,
        k <= count,
    ensures
        sum_of(even_parts(extent, count), k) == k * (extent as int / count as int) + (if k
            < extent as int % count as int {
            k as int
        } else {
            extent as int % count as int
        }),
        k == count ==> sum_of(even_parts(extent, count), k) == extent,
    decreases k,
{
    let base = extent as int / count as int;
    let rest = extent as int % count as int;
    vstd::arithmetic::div_mod::lemma_fundamental_div_mod(extent as int, count as int);
    assert(base * count == count * base) by (nonlinear_arith);
    assert(extent - base * count == rest);
    if k > 0 {
        even_parts_add_up(extent, count, (k - 1) as nat);
        let j = (k - 1) as nat;
        assert(k * base == j * base + base) by (nonlinear_arith)
            requires
                k == j + 1,
        ;
        vstd::arithmetic::div_mod::lemma_div_basics(extent as int);
        vstd::arithmetic::div_mod::lemma_div_is_ordered_by_denominator(
            extent as int,
            1,
            count as int,
        );
        vstd::arithmetic::div_mod::lemma_div_pos_is_pos(extent as int, count as int);
        assert(0 <= base <= extent);
        assert(even_parts(extent, count)[k - 1] == even_part(extent, count, k - 1));
        if k - 1 < rest {
            assert(base + 1 <= extent) by (nonlinear_arith)
                requires
                    extent == base * count + rest,
                    rest >= 1,
                    count >= 1,
                    base >= 0,
            ;
        }
    }
    if k == 0 {
        assert(k * base == 0) by (nonlinear_arith)
            requires
                k == 0,
        ;
    }
    if k == count {
        assert(k * base == count * base);
    }
}

fn even_parts_vec(extent: i32, count: usize) -> (v: Vec<i32>)
    requires
        0 < count <= i32::MAX,
    ensures
        v@ == even_parts(extent, count as nat),
{
    let base: i64 = truncated_of(extent as i64, count as i64);
    proof {
        truncation_bounds(extent as int, count as int);
    }
    let rest: i64 = extent as i64 - base * count as i64;
    let mut v: Vec<i32> = Vec::with_capacity(count);
    let mut i: usize = 0;
    while i < count
        invariant
            i <= count,
            0 < count <= i32::MAX,
            base == truncated(extent as int, count as int),
            rest == extent - base * count,
            -0x8000_0000 <= base <= 0x7FFF_FFFF,
            v@.len() == i,
            forall|k: int| 0 <= k < i ==> #[trigger] v@[k] == even_part(extent, count as nat, k),
        decreases count - i,
    {
        let part: i64 = if rest < 0 || (i as i64) < rest {
            base + 1
        } else {
            base
        };
        v.push(part as i32);
        i = i + 1;
    }
    assert(v@ =~= even_parts(extent, count as nat));
    v
}

proof fn truncation_bounds(a: int, b: int)
    requires
        -0x8000_0000 <= a <= 0x7FFF_FFFF,
        0 < b <= 0x7FFF_FFFF,
    ensures
        -0x8000_0000 <= truncated(a, b) <= 0x7FFF_FFFF,
        -0x8000_0000 <= truncated(a, b) * b <= 0x7FFF_FFFF,
{
    let x = if a >= 0 {
        a
    } else {
        -a
    };
    vstd::arithmetic::div_mod::lemma_fundamental_div_mod(x, b);
    vstd::arithmetic::div_mod::lemma_div_pos_is_pos(x, b);
    let q = x / b;
    assert(b * q <= x);
    assert(q <= x) by (nonlinear_arith)
        requires
            b * q <= x,
            b >= 1,
            q >= 0,
    ;
    assert(q * b == b * q) by (nonlinear_arith);
    assert((-q) * b == -(b * q)) by (nonlinear_arith);
    assert(b * q >= 0) by (nonlinear_arith)
        requires
            b > 0,
            q >= 0,
    ;
}

/// The parts that a split asks for, and its axis, where it has its options.
pub open spec fn split_plan(kind: OperationKind) -> Option<(Seq<u32>, u32)> {
    match kind {
        OperationKind::Split { splits, options: Some(o) } => Some((splits@, o.axis)),
        _ => None,
    }
}

/// One part of a split: the slice of the input that starts where the parts before it end.
pub open spec fn split_part(
    n: Run,
    m: Map<u32, Tensor>,
    op: Operation,
    d: Seq<i64>,
    axis: nat,
    sizes: Seq<i32>,
    k: nat,
) -> (Run, Map<u32, Tensor>) {
    let (n, x) = n.find(m, op.inputs@[0], "Input operand "@, " not found"@);
    let n = if axis < d.len() {
        n
    } else {
        n.stop(HaltOf::OutOfRange)
    };
    let (n, t) = n.slice(
        x,
        zeros(d.len()).update(axis as int, sum_of(sizes, k) as i64),
        d.update(axis as int, sizes[k as int] as i64),
        ones(d.len()),
        "Failed to add slice layer for split "@ + decimal(k) + ": "@,
        "Failed to get layer output for split "@ + decimal(k) + ": "@,
    );
    store(n, m, op.outputs@[k as int], t)
}

/// The first `k` parts of a split.
pub open spec fn split_parts(
    n: Run,
    m: Map<u32, Tensor>,
    op: Operation,
    d: Seq<i64>,
    axis: nat,
    sizes: Seq<i32>,
    k: nat,
) -> (Run, Map<u32, Tensor>)
    decreases k,
{
    if k == 0 {
        (n, m)
    } else {
        let (n, m) = split_parts(n, m, op, d, axis, sizes, (k - 1) as nat);
        split_part(n, m, op, d, axis, sizes, (k - 1) as nat)
    }
}

/// Once a split has stopped, it stays so.
proof fn split_parts_stay(
    n: Run,
    m: Map<u32, Tensor>,
    op: Operation,
    d: Seq<i64>,
    axis: nat,
    sizes: Seq<i32>,
    k: nat,
    more: nat,
)
    requires
        k <= more,
        split_parts(n, m, op, d, axis, sizes, k).0.halt is Some,
    ensures
        split_parts(n, m, op, d, axis, sizes, more) == split_parts(n, m, op, d, axis, sizes, k),
    decreases more - k,
{
    if k < more {
        split_parts_stay(n, m, op, d, axis, sizes, k, (more - 1) as nat);
    }
}

proof fn sum_bound(sizes: Seq<i32>, k: nat)
    requires
        k <= 0x7FFF_FFFF,
    ensures
        -0x8000_0000 * k <= sum_of(sizes, k) <= 0x7FFF_FFFF * k,
    decreases k,
{
    if k > 0 {
        sum_bound(sizes, (k - 1) as nat);
    }
}

/// A split into parts along one axis. Without sizes the parts are even.
pub open spec fn split_op(n: Run, m: Map<u32, Tensor>, op: Operation) -> (Run, Map<u32, Tensor>) {
    let (n, x) = n.find(m, op.inputs@[0], "Input operand "@, " not found"@);
    let (n, d) = n.dims(x, "Failed to get input shape: "@);
    let plan = split_plan(op.kind);
    let n = n.reject_if(plan is None, "Split operation missing options"@);
    let (splits, given) = plan->0;
    let axis = moved_axis(given as i32 as int, d.len()) as nat;
    let count = op.outputs@.len();
    let even = splits.len() == 0;
    let n = n.reject_if(even && count == 0, "Split operation 'splits' missing and no outputs"@);
    let n = if even && (d.len() == 0 || count > i32::MAX) {
        n.stop(HaltOf::OutOfRange)
    } else {
        n
    };
    let sizes = if even {
        even_parts(d[axis as int] as i32, count)
    } else {
        as_signed(splits)
    };
    let n = n.reject_if(
        count != sizes.len(),
        "Split: "@ + decimal(sizes.len()) + " outputs expected, "@ + decimal(count) + " operands"@,
    );
    let n = if sizes.len() > i32::MAX {
        n.stop(HaltOf::OutOfRange)
    } else {
        n
    };
    if n.halt is Some {
        (n, m)
    } else {
        split_parts(n, m, op, d, axis, sizes, sizes.len())
    }
}

/// Whether a list of axes names axis `i`.
pub open spec fn names_axis(axes: Seq<u32>, i: int) -> bool {
    exists|j: int| 0 <= j < axes.len() && #[trigger] axes[j] == i
}

/// The axes that a squeeze names; none stands for every axis.
pub open spec fn squeeze_axes(kind: OperationKind) -> Option<Seq<u32>> {
    match kind {
        OperationKind::Squeeze { axes: Some(list) } => Some(list@),
        _ => None,
    }
}

/// What a squeeze leaves of the first `k` dimensions: those of size 1 go, of the named axes where
/// some are named.
pub open spec fn squeezed(d: Seq<i64>, axes: Option<Seq<u32>>, k: nat) -> Seq<i64>
    decreases k,
{
    if k == 0 {
        seq![]
    } else {
        let i = k - 1;
        let rest = squeezed(d, axes, i as nat);
        let named = match axes {
            Some(list) => names_axis(list, i),
            None => true,
        };
        if named && d[i] == 1 {
            rest
        } else {
            rest.push(d[i])
        }
    }
}

/// A squeeze: the input reshaped without dimensions of size 1.
pub open spec fn squeeze_op(n: Run, m: Map<u32, Tensor>, op: Operation) -> (Run, Map<u32, Tensor>) {
    let (n, x) = n.find(m, op.inputs@[0], "Input operand "@, " not found"@);
    let (n, d) = n.dims(x, "Failed to get input dimensions for squeeze: "@);
    let (n, t) = n.reshape(
        x,
        squeezed(d, squeeze_axes(op.kind), d.len()),
        "Failed to add shuffle layer for squeeze: "@,
        "Failed to set reshape dimensions: "@,
        "Failed to get layer output: "@,
    );
    store(n, m, op.outputs@[0], t)
}

/// Whether an unsqueeze names its axes, and whether it does so by a list.
pub open spec fn unsqueeze_axes(kind: OperationKind) -> (bool, bool) {
    match kind {
        OperationKind::Unsqueeze { axes } => (
            axes is Some,
            match axes {
                Some(list) => list is Some,
                None => false,
            },
        ),
        _ => (false, false),
    }
}

/// The axes that an unsqueeze lists.
pub open spec fn unsqueeze_list(kind: OperationKind) -> Seq<u32> {
    match kind {
        OperationKind::Unsqueeze { axes: Some(Some(list)) } => list@,
        _ => seq![],
    }
}

/// How many of the first `k` axes are not named.
pub open spec fn unnamed_axes(axes: Seq<u32>, k: nat) -> nat
    decreases k,
{
    if k == 0 {
        0
    } else if names_axis(axes, k - 1) {
        unnamed_axes(axes, (k - 1) as nat)
    } else {
        unnamed_axes(axes, (k - 1) as nat) + 1
    }
}

/// The first `k` dimensions of an unsqueezed shape: 1 at the named axes, and the dimensions of the
/// input in order at the others.
pub open spec fn unsqueezed(d: Seq<i64>, axes: Seq<u32>, k: nat) -> Seq<i64>
    decreases k,
{
    if k == 0 {
        seq![]
    } else {
        let i = (k - 1) as nat;
        let entry = if names_axis(axes, i as int) {
            1i64
        } else {
            d[unnamed_axes(axes, i) as int]
        };
        unsqueezed(d, axes, i).push(entry)
    }
}

/// Whether a list names each of its axes once, and axes below `rank` only.
pub open spec fn distinct_axes(axes: Seq<u32>, rank: nat) -> bool {
    &&& axes.no_duplicates()
    &&& forall|j: int| 0 <= j < axes.len() ==> #[trigger] axes[j] < rank
}

/// An unsqueeze: the input reshaped with dimensions of size 1 at the named axes of the result.
pub open spec fn unsqueeze_op(n: Run, m: Map<u32, Tensor>, op: Operation) -> (Run, Map<u32, Tensor>) {
    let (n, x) = n.find(m, op.inputs@[0], "Input operand "@, " not found"@);
    let (named, listed) = unsqueeze_axes(op.kind);
    let n = n.reject_if(!named, "Unsqueeze operation missing 'axes' attribute"@);
    let n = n.reject_if(!listed, "Invalid 'axes' attribute format"@);
    let axes = unsqueeze_list(op.kind);
    let (n, d) = n.dims(x, "Failed to get input dimensions for unsqueeze: "@);
    let n = n.reject_if(
        !distinct_axes(axes, d.len() + axes.len()),
        "Invalid 'axes' attribute format"@,
    );
    let (n, t) = n.reshape(
        x,
        unsqueezed(d, axes, d.len() + axes.len()),
        "Failed to add shuffle layer for unsqueeze: "@,
        "Failed to set reshape dimensions: "@,
        "Failed to get layer output: "@,
    );
    store(n, m, op.outputs@[0], t)
}

/// The shape that an operation asks for, where it is of the kind that has one.
pub open spec fn wanted_shape(kind: OperationKind) -> Seq<u32> {
    match kind {
        OperationKind::Expand { new_shape } => ml_sizes(new_shape@),
        OperationKind::Reshape { new_shape } => ml_sizes(new_shape@),
        _ => seq![],
    }
}

/// An expansion: the product with ones of the new shape.
pub open spec fn expand_op(
    n: Run,
    m: Map<u32, Tensor>,
    graph: GraphInfo,
    op: Operation,
) -> (Run, Map<u32, Tensor>) {
    let (n, x) = n.find(m, op.inputs@[0], "Input operand "@, " not found"@);
    let n = n.reject_if(
        !(op.kind is Expand),
        "Internal error: add_expand_op called for non-expand"@,
    );
    let shape = narrow_dims(wanted_shape(op.kind));
    let (n, product) = elements(n, not_below_zero(shape));
    let count = if product == 0 {
        1nat
    } else {
        product
    };
    let (n, o) = n.operand(graph, op.inputs@[0], "Input operand "@, " not found in graph"@);
    let dt = o.descriptor.data_type;
    let (n, c) = n.constant(
        shape,
        repeated(float_bytes(known(Known::One), dt), count),
        float_type(dt),
        "Failed to create ones constant for expand: "@,
        "Failed to get ones constant output: "@,
    );
    let (n, (a, b)) = broadcast_pair(n, x, c, "expand"@);
    let (n, t) = n.elementwise(
        a,
        b,
        ElementWiseOperation::kPROD,
        "Failed to add multiply for expand: "@,
        "Failed to get expand output: "@,
    );
    store(n, m, op.outputs@[0], t)
}

/// The repetitions of a tiling.
pub open spec fn tile_counts(kind: OperationKind) -> Seq<u32> {
    match kind {
        OperationKind::Tile { repetitions } => repetitions@,
        _ => seq![],
    }
}

/// A tensor after its first `k` axes have been tiled.
pub open spec fn tile_axes(n: Run, x: Tensor, counts: Seq<u32>, k: nat) -> (Run, Tensor)
    decreases k,
{
    if k == 0 {
        (n, x)
    } else {
        let (n, t) = tile_axes(n, x, counts, (k - 1) as nat);
        tile_axis(n, t, (k - 1) as nat, counts[k - 1])
    }
}

/// A tensor after one axis has been tiled.
pub open spec fn tile_axis(n: Run, t: Tensor, axis: nat, count: u32) -> (Run, Tensor) {
    if count <= 1 {
        (n, t)
    } else {
        n.concat(
            copies(t, count as i64),
            axis as i32,
            "Failed to add concatenation for tile axis "@ + decimal(axis) + ": "@,
            "Failed to get concat output for tile axis "@ + decimal(axis) + ": "@,
        )
    }
}

/// Once the tiling has stopped, it stays so.
proof fn tile_axes_stay(n: Run, x: Tensor, counts: Seq<u32>, k: nat, more: nat)
    requires
        k <= more,
        tile_axes(n, x, counts, k).0.halt is Some,
    ensures
        tile_axes(n, x, counts, more).0 == tile_axes(n, x, counts, k).0,
    decreases more - k,
{
    if k < more {
        tile_axes_stay(n, x, counts, k, (more - 1) as nat);
    }
}

/// Whether some axis is to be repeated.
pub open spec fn repeats(counts: Seq<u32>) -> bool {
    exists|i: int| 0 <= i < counts.len() && #[trigger] counts[i] > 1
}

fn has_repeats(counts: &Vec<u32>) -> (b: bool)
    ensures
        b == repeats(counts@),
{
    let mut i: usize = 0;
    while i < counts.len()
        invariant
            i <= counts.len(),
            forall|k: int| 0 <= k < i ==> #[trigger] counts@[k] <= 1,
        decreases counts.len() - i,
    {
        if counts[i] > 1 {
            assert(counts@[i as int] > 1);
            return true;
        }
        i = i + 1;
    }
    false
}

/// A tiling: axis after axis, the tensor is concatenated with itself. Where no axis is repeated it
/// is a copy.
pub open spec fn tile_op(n: Run, m: Map<u32, Tensor>, op: Operation) -> (Run, Map<u32, Tensor>) {
    let n = n.reject_if(!(op.kind is Tile), "Tile operation expected"@);
    let id = op.inputs@[0];
    let counts = tile_counts(op.kind);
    let (n, x) = n.find(m, id, "Tile: input operand "@, " not found"@);
    let (n, d) = n.dims(x, "Tile: input dimensions: "@);
    let n = n.reject_if(
        counts.len() != d.len(),
        "Tile: repetitions length "@ + decimal(counts.len()) + " must equal input rank "@
            + decimal(d.len()) + " (WebNN tile)"@,
    );
    if n.halt is Some {
        (n, m)
    } else if repeats(counts) {
        let (n, t) = tile_axes(n, x, counts, counts.len());
        store(n, m, op.outputs@[0], t)
    } else {
        let (n, t) = n.identity(x, "Tile: identity: "@, "Tile: identity output: "@);
        store(n, m, op.outputs@[0], t)
    }
}

/// The tensors of the first `k` inputs. The first one that has none stops the conversation.
pub open spec fn found_inputs(n: Run, m: Map<u32, Tensor>, ids: Seq<u32>, k: nat) -> (
    Run,
    Seq<Tensor>,
)
    decreases k,
{
    if k == 0 {
        (n, seq![])
    } else {
        let (n, list) = found_inputs(n, m, ids, (k - 1) as nat);
        let (n, t) = n.find(m, ids[k - 1], "Input operand "@, " not found"@);
        (n, list.push(t))
    }
}

/// A conversation that has stopped stays so while inputs are looked up.
pub broadcast proof fn stopped_found_inputs(n: Run, m: Map<u32, Tensor>, ids: Seq<u32>, k: nat)
    requires
        n.halt is Some,
    ensures
        (#[trigger] found_inputs(n, m, ids, k)).0 == n,
    decreases k,
{
    if k > 0 {
        stopped_found_inputs(n, m, ids, (k - 1) as nat);
    }
}

/// Once the looking up of inputs has stopped, it stays so.
proof fn found_inputs_stay(n: Run, m: Map<u32, Tensor>, ids: Seq<u32>, k: nat, more: nat)
    requires
        k <= more,
        found_inputs(n, m, ids, k).0.halt is Some,
    ensures
        found_inputs(n, m, ids, more).0 == found_inputs(n, m, ids, k).0,
    decreases more - k,
{
    if k < more {
        found_inputs_stay(n, m, ids, k, (more - 1) as nat);
    }
}

/// The axis of a concatenation, read as `i32`.
pub open spec fn concat_axis(kind: OperationKind) -> i32 {
    match kind {
        OperationKind::Concat { axis } => axis as i32,
        _ => 0,
    }
}

/// The axis of a concatenation of tensors of a rank: the one given, moved between the first axis and
/// the last. Scalars have no axis, and -1 stands for it.
pub open spec fn concat_place(axis: i32, rank: nat) -> i32 {
    if rank == 0 {
        -1i32
    } else {
        moved_axis(axis as int, rank) as i32
    }
}

/// A concatenation.
pub open spec fn concat_op(n: Run, m: Map<u32, Tensor>, op: Operation) -> (Run, Map<u32, Tensor>) {
    let (n, list) = found_inputs(n, m, op.inputs@, op.inputs@.len());
    let (n, l) = n.ask(
        RequestOf::AddConcatenation { inputs: list },
        "Failed to add concatenation: "@,
    );
    let n = if list.len() == 0 {
        n.stop(HaltOf::OutOfRange)
    } else {
        n
    };
    let (n, d) = n.dims(list[0], "Concat: failed to get input dimensions: "@);
    let axis = concat_place(concat_axis(op.kind), d.len());
    let n = n.tell(RequestOf::SetAxis { layer: Layer { id: l }, axis });
    let (n, t) = n.output(l, "Failed to get layer output: "@);
    let n = n.reject_if(op.outputs@.len() == 0, "Concat: operation has no output operand"@);
    store(n, m, op.outputs@[0], t)
}

/// The axes in reverse order.
pub open spec fn reversed_axes(rank: nat) -> Seq<i32> {
    Seq::new(rank, |i: int| (rank - 1 - i) as i32)
}

fn reversed_axes_vec(rank: usize) -> (v: Vec<i32>)
    ensures
        v@ == reversed_axes(rank as nat),
{
    let mut v: Vec<i32> = Vec::with_capacity(rank);
    let mut i: usize = 0;
    while i < rank
        invariant
            i <= rank,
            v@.len() == i,
            forall|k: int| 0 <= k < i ==> #[trigger] v@[k] == (rank - 1 - k) as i32,
        decreases rank - i,
    {
        v.push((rank - 1 - i) as i32);
        i = i + 1;
    }
    assert(v@ =~= reversed_axes(rank as nat));
    v
}

/// Reversing the axes twice is no change.
pub proof fn reversal_is_self_inverse(rank: nat, i: int)
    requires
        0 <= i < rank,
        rank <= i32::MAX,
    ensures
        0 <= reversed_axes(rank)[i] < rank,
        reversed_axes(rank)[reversed_axes(rank)[i] as int] == i,
{
}

/// The order of the axes of a transposition: the one given, or else the reverse one.
pub open spec fn axis_order(kind: OperationKind, rank: nat) -> Seq<i32> {
    match kind {
        OperationKind::Transpose { options: Some(o) } => if o.permutation@.len() == 0 {
            reversed_axes(rank)
        } else {
            as_signed(o.permutation@)
        },
        _ => reversed_axes(rank),
    }
}

fn axis_order_of(kind: &OperationKind, rank: usize) -> (v: Vec<i32>)
    ensures
        v@ == axis_order(*kind, rank as nat),
{
    match kind {
        OperationKind::Transpose { options: Some(o) } => if o.permutation.len() == 0 {
            reversed_axes_vec(rank)
        } else {
            as_signed_vec(&o.permutation)
        },
        _ => reversed_axes_vec(rank),
    }
}

/// A transposition.
pub open spec fn transpose_op(n: Run, m: Map<u32, Tensor>, op: Operation) -> (Run, Map<u32, Tensor>) {
    let (n, x) = n.find(m, op.inputs@[0], "Input operand "@, " not found"@);
    let (n, d) = n.dims(x, "Transpose: failed to get input dimensions: "@);
    let order = axis_order(op.kind, d.len());
    let n = n.reject_if(
        order.len() != d.len(),
        "Transpose: permutation length "@ + decimal(order.len()) + " does not match rank "@
            + decimal(d.len()),
    );
    let (n, t) = n.transpose(
        x,
        order,
        "Failed to add shuffle (transpose): "@,
        "Failed to set transpose permutation: "@,
        "Failed to get layer output: "@,
    );
    store(n, m, op.outputs@[0], t)
}

/// A reshape.
pub open spec fn reshape_op(n: Run, m: Map<u32, Tensor>, op: Operation) -> (Run, Map<u32, Tensor>) {
    let (n, x) = n.find(m, op.inputs@[0], "Input operand "@, " not found"@);
    let n = n.reject_if(!(op.kind is Reshape), "reshape operation expected"@);
    let sizes = wanted_shape(op.kind);
    let n = n.reject_if(sizes.len() == 0, "reshape operation missing 'newShape'"@);
    let (n, t) = n.reshape(
        x,
        as_dims(sizes),
        "Failed to add shuffle (reshape): "@,
        "Failed to set reshape dimensions: "@,
        "Failed to get layer output: "@,
    );
    store(n, m, op.outputs@[0], t)
}

/// The options of a resampling, where it has some.
pub open spec fn resample_options(kind: OperationKind) -> Option<MLResample2dOptions> {
    match kind {
        OperationKind::Resample2d { options } => options,
        _ => None,
    }
}

/// The axes that the options of a resampling give.
pub open spec fn given_axes(kind: OperationKind) -> Seq<u32> {
    match resample_options(kind) {
        Some(o) => o.axes@,
        None => seq![],
    }
}

/// The axes of a resampling, 2 and 3 where two are not given.
pub open spec fn resample_axes(kind: OperationKind) -> (u32, u32) {
    let axes = given_axes(kind);
    if axes.len() == 2 {
        (axes[0], axes[1])
    } else {
        (2, 3)
    }
}

/// The mode of a resampling: nearest neighbour, unless the options ask for a linear one.
pub open spec fn resample_mode(kind: OperationKind) -> ResizeMode {
    match resample_options(kind) {
        Some(o) => if ascii_lowercase(o.mode@) == "linear"@ {
            ResizeMode::kLINEAR
        } else {
            ResizeMode::kNEAREST
        },
        None => ResizeMode::kNEAREST,
    }
}

/// The extent of an axis as TensorRT knows it, or else as the graph does, and at least 1.
pub open spec fn known_extent(known: Seq<i64>, declared: Seq<i64>, i: int) -> i64 {
    if i < known.len() && known[i] > 0 {
        known[i]
    } else if i < declared.len() && declared[i] > 1 {
        declared[i]
    } else {
        1
    }
}

/// The extents of the four axes of the input of a resampling.
pub open spec fn known_extents(known: Seq<i64>, declared: Seq<i64>) -> Seq<i64> {
    seq![
        known_extent(known, declared, 0),
        known_extent(known, declared, 1),
        known_extent(known, declared, 2),
        known_extent(known, declared, 3),
    ]
}

fn known_extent_of(known: &Vec<i64>, declared: &Vec<i64>, i: usize) -> (e: i64)
    ensures
        e == known_extent(known@, declared@, i as int),
{
    if i < known.len() && known[i] > 0 {
        known[i]
    } else if i < declared.len() && declared[i] > 1 {
        declared[i]
    } else {
        1
    }
}

fn known_extents_vec(known: &Vec<i64>, declared: &Vec<i64>) -> (v: Vec<i64>)
    ensures
        v@ == known_extents(known@, declared@),
{
    let mut v: Vec<i64> = Vec::with_capacity(4);
    v.push(known_extent_of(known, declared, 0));
    v.push(known_extent_of(known, declared, 1));
    v.push(known_extent_of(known, declared, 2));
    v.push(known_extent_of(known, declared, 3));
    assert(v@ =~= known_extents(known@, declared@));
    v
}

/// An extent times a scale. Where no extent comes back, the conversation stops.
#[verifier::opaque]
pub open spec fn scaled_extent(n: Run, extent: i64, scale: u32) -> (Run, i64) {
    let (n, at) = n.ask(RequestOf::ScaledExtent { extent, scale }, ""@);
    let scaled = n.extent(at);
    let n = if scaled is None {
        n.stop(HaltOf::OutOfRange)
    } else {
        n
    };
    (n, scaled->0)
}

pub broadcast proof fn stopped_scaled_extent(n: Run, extent: i64, scale: u32)
    requires
        n.halt is Some,
    ensures
        (#[trigger] scaled_extent(n, extent, scale)).0 == n,
{
    reveal(scaled_extent);
}

/// The sizes that the options of a resampling give, if they do.
pub open spec fn given_sizes(kind: OperationKind) -> Option<Seq<u32>> {
    match resample_options(kind) {
        Some(o) => match o.sizes {
            Some(v) => Some(v@),
            None => None,
        },
        None => None,
    }
}

/// The scales that the options of a resampling give, and the text that shows them.
pub open spec fn given_scales(kind: OperationKind) -> (Seq<u32>, Seq<char>) {
    match resample_options(kind) {
        Some(o) => (o.scales@, o.scales_text@),
        None => (seq![], seq![]),
    }
}

/// The sizes of a resampling along its two axes: those given, or else the extents times the scales.
#[verifier::opaque]
pub open spec fn resample_sizes(n: Run, op: Operation, extents: (i64, i64)) -> (Run, (i64, i64)) {
    let sizes = given_sizes(op.kind);
    let (scales, shown) = given_scales(op.kind);
    if sizes is Some {
        let n = n.reject_if(
            sizes->0.len() != 2,
            "resample2d: sizes must have length 2, got "@ + bracket_list(ints32(sizes->0)),
        );
        (n, (sizes->0[0] as i64, sizes->0[1] as i64))
    } else {
        let n = n.reject_if(
            scales.len() != 0 && scales.len() != 2,
            "resample2d: scales must have length 2 or be omitted (default [1, 1]), got "@ + shown,
        );
        let one = known(Known::One).single;
        let (n, a) = scaled_extent(n, extents.0, if scales.len() == 2 { scales[0] } else { one });
        let (n, b) = scaled_extent(n, extents.1, if scales.len() == 2 { scales[1] } else { one });
        (n, (a, b))
    }
}

pub broadcast proof fn stopped_resample_sizes(n: Run, op: Operation, extents: (i64, i64))
    requires
        n.halt is Some,
    ensures
        (#[trigger] resample_sizes(n, op, extents)).0 == n,
{
    broadcast use {stopped_scaled_extent};

    reveal(resample_sizes);
}

/// A resize layer with the half-pixel grid; nearest neighbours are rounded half up.
#[verifier::opaque]
pub open spec fn resampled(n: Run, x: Tensor, dims: Seq<i64>, mode: ResizeMode) -> (Run, Tensor) {
    let (n, l) = n.ask(RequestOf::AddResize { input: x }, "Failed to add resize layer: "@);
    let n = n.tell(RequestOf::SetOutputDimensions { layer: Layer { id: l }, dims });
    let n = n.tell(RequestOf::SetResizeMode { layer: Layer { id: l }, mode });
    let n = n.tell(
        RequestOf::SetCoordinateTransformation { layer: Layer { id: l }, mode: ResizeCoordinateTransformation::kHALF_PIXEL },
    );
    let n = if mode == ResizeMode::kNEAREST {
        n.tell(
            RequestOf::SetNearestRounding { layer: Layer { id: l }, mode: ResizeRoundMode::kHALF_UP },
        )
    } else {
        n
    };
    n.output(l, "Failed to get resize output: "@)
}

pub broadcast proof fn stopped_resampled(n: Run, x: Tensor, dims: Seq<i64>, mode: ResizeMode)
    requires
        n.halt is Some,
    ensures
        (#[trigger] resampled(n, x, dims, mode)).0 == n,
{
    reveal(resampled);
}

/// A resampling of two axes of a tensor with four.
pub open spec fn resample2d_op(
    n: Run,
    m: Map<u32, Tensor>,
    graph: GraphInfo,
    op: Operation,
) -> (Run, Map<u32, Tensor>) {
    let n = n.reject_if(!(op.kind is Resample2d), "resample2d: expected Operation::Resample2d"@);
    let id = op.inputs@[0];
    let (n, x) = n.find(m, id, "resample2d: input operand "@, " not found"@);
    let (n, o) = n.operand(graph, id, "resample2d: operand "@, " missing from graph"@);
    let (n, d) = n.dims(x, "resample2d: input dimensions: "@);
    let declared = as_dims(max_sizes(o.descriptor.shape@));
    let rank = if d.len() != 0 {
        d.len()
    } else {
        declared.len()
    };
    let n = n.reject_if(rank == 0, "resample2d: cannot determine input rank"@);
    let n = n.reject_if(
        rank != 4,
        "resample2d: WebNN requires a 4-D input tensor, got rank "@ + decimal(rank),
    );
    let extents = known_extents(d, declared);
    let (a, b) = resample_axes(op.kind);
    let n = n.reject_if(
        a >= 4 || b >= 4 || a == b,
        "resample2d: axes must be two distinct valid indices for rank "@ + decimal(rank) + ", got "@
            + bracket_list(ints32(given_axes(op.kind))),
    );
    let (n, sizes) = resample_sizes(n, op, (extents[a as int], extents[b as int]));
    let (n, t) = resampled(
        n,
        x,
        extents.update(a as int, sizes.0).update(b as int, sizes.1),
        resample_mode(op.kind),
    );
    store(n, m, op.outputs@[0], t)
}

/// The axes that a reversal reverses: those given, and else all.
pub open spec fn reverse_axes(kind: OperationKind, rank: nat) -> Seq<u32> {
    match kind {
        OperationKind::Reverse { options: Some(o) } => match o.axes {
            Some(axes) => axes@,
            None => crate::trtx::shapes::axis_range(0, rank),
        },
        _ => crate::trtx::shapes::axis_range(0, rank),
    }
}

fn reverse_axes_of(kind: &OperationKind, rank: usize) -> (v: Vec<u32>)
    ensures
        v@ == reverse_axes(*kind, rank as nat),
{
    match kind {
        OperationKind::Reverse { options: Some(o) } => match &o.axes {
            Some(axes) => {
                let v = axes.clone();
                assert(v@ =~= axes@);
                v
            },
            None => crate::trtx::shapes::axis_range_vec(0, rank),
        },
        _ => crate::trtx::shapes::axis_range_vec(0, rank),
    }
}

/// The first entry of a list of axes from `from` on that cannot be reversed: there is no such axis,
/// or it has no element.
pub open spec fn first_irreversible(sizes: Seq<u32>, axes: Seq<u32>, from: nat) -> Option<nat>
    decreases axes.len() - from,
{
    if from >= axes.len() {
        None
    } else if axes[from as int] >= sizes.len() || sizes[axes[from as int] as int] == 0 {
        Some(from)
    } else {
        first_irreversible(sizes, axes, from + 1)
    }
}

/// The first element that a reversal reads along each axis: the last one of a reversed axis.
pub open spec fn reverse_starts(sizes: Seq<u32>, axes: Seq<u32>) -> Seq<i64> {
    Seq::new(
        sizes.len(),
        |i: int|
            if axes.contains(i as u32) {
                (sizes[i] - 1) as i64
            } else {
                0i64
            },
    )
}

/// The step that a reversal takes along each axis.
pub open spec fn reverse_strides(rank: nat, axes: Seq<u32>) -> Seq<i64> {
    Seq::new(
        rank,
        |i: int|
            if axes.contains(i as u32) {
                -1i64
            } else {
                1i64
            },
    )
}

fn reverse_starts_vec(sizes: &Vec<u32>, axes: &Vec<u32>) -> (r: (Vec<i64>, Vec<i64>))
    ensures
        r.0@ == reverse_starts(sizes@, axes@),
        r.1@ == reverse_strides(sizes@.len(), axes@),
{
    let mut starts: Vec<i64> = Vec::with_capacity(sizes.len());
    let mut strides: Vec<i64> = Vec::with_capacity(sizes.len());
    let mut i: usize = 0;
    while i < sizes.len()
        invariant
            i <= sizes.len(),
            starts@.len() == i,
            strides@.len() == i,
            forall|k: int| 0 <= k < i ==> #[trigger] starts@[k] == reverse_starts(sizes@, axes@)[k],
            forall|k: int|
                0 <= k < i ==> #[trigger] strides@[k] == reverse_strides(
                    sizes@.len(),
                    axes@,
                )[k],
        decreases sizes.len() - i,
    {
        match crate::trtx::shapes::position_of(axes, i as u32) {
            Some(at) => {
                proof {
                    crate::trtx::shapes::position_holds(axes@, i as u32, 0);
                }
                starts.push(sizes[i] as i64 - 1);
                strides.push(-1);
            },
            None => {
                proof {
                    if axes@.contains(i as u32) {
                        let k = choose|k: int| 0 <= k < axes@.len() && axes@[k] == i as u32;
                        crate::trtx::shapes::found_where_contained(axes@, i as u32, 0, k);
                    }
                }
                starts.push(0);
                strides.push(1);
            },
        }
        i = i + 1;
    }
    assert(starts@ =~= reverse_starts(sizes@, axes@));
    assert(strides@ =~= reverse_strides(sizes@.len(), axes@));
    (starts, strides)
}

fn find_irreversible(sizes: &Vec<u32>, axes: &Vec<u32>) -> (r: Option<usize>)
    ensures
        match r {
            Some(i) => first_irreversible(sizes@, axes@, 0) == Some(i as nat) && i < axes@.len(),
            None => first_irreversible(sizes@, axes@, 0) is None,
        },
{
    let mut i: usize = 0;
    while i < axes.len()
        invariant
            i <= axes.len(),
            first_irreversible(sizes@, axes@, 0) == first_irreversible(sizes@, axes@, i as nat),
        decreases axes.len() - i,
    {
        let axis: usize = axes[i] as usize;
        if axis >= sizes.len() || sizes[axis] == 0 {
            return Some(i);
        }
        i = i + 1;
    }
    None
}

/// A reversal: a slice that runs backwards along the reversed axes.
pub open spec fn reverse_op(
    n: Run,
    m: Map<u32, Tensor>,
    graph: GraphInfo,
    op: Operation,
) -> (Run, Map<u32, Tensor>) {
    let (n, x) = n.find(m, op.inputs@[0], "Input operand "@, " not found"@);
    let id = op.inputs@[0];
    let n = if id < graph.operands@.len() {
        n
    } else {
        n.stop(HaltOf::OutOfRange)
    };
    let sizes = max_sizes(graph.operands@[id as int].descriptor.shape@);
    let axes = reverse_axes(op.kind, sizes.len());
    let fault = first_irreversible(sizes, axes, 0);
    let axis = axes[fault->0 as int];
    let n = n.reject_if(
        fault is Some && axis >= sizes.len(),
        "Reverse axis "@ + decimal(axis as nat) + " out of range for rank "@ + decimal(sizes.len()),
    );
    let n = if fault is Some {
        n.stop(HaltOf::OutOfRange)
    } else {
        n
    };
    let (n, t) = n.slice(
        x,
        reverse_starts(sizes, axes),
        as_dims(sizes),
        reverse_strides(sizes.len(), axes),
        "Failed to add slice layer for reverse: "@,
        "Failed to get reverse output: "@,
    );
    store(n, m, op.outputs@[0], t)
}

pub broadcast group group_arrange_stopped {
    stopped_found_inputs,
    stopped_scaled_extent,
    stopped_resample_sizes,
    stopped_resampled,
}

/// Whether a list of axes names axis `i`.
fn has_axis(axes: &Vec<u32>, i: u128) -> (b: bool)
    ensures
        b == names_axis(axes@, i as int),
{
    let mut j: usize = 0;
    while j < axes.len()
        invariant
            j <= axes.len(),
            forall|t: int| 0 <= t < j ==> #[trigger] axes@[t] != i,
        decreases axes.len() - j,
    {
        if axes[j] as u128 == i {
            return true;
        }
        j += 1;
    }
    false
}

/// What a squeeze leaves of a shape.
fn squeezed_vec(d: &Vec<i64>, axes: Option<&Vec<u32>>) -> (v: Vec<i64>)
    ensures
        v@ == squeezed(
            d@,
            match axes {
                Some(list) => Some(list@),
                None => None,
            },
            d@.len(),
        ),
{
    let ghost listed = match axes {
        Some(list) => Some(list@),
        None => None,
    };
    let mut v: Vec<i64> = Vec::new();
    let mut i: usize = 0;
    while i < d.len()
        invariant
            i <= d.len(),
            listed == (match axes {
                Some(list) => Some(list@),
                None => None,
            }),
            v@ == squeezed(d@, listed, i as nat),
        decreases d.len() - i,
    {
        let named = match axes {
            Some(list) => has_axis(list, i as u128),
            None => true,
        };
        if !(named && d[i] == 1) {
            v.push(d[i]);
        }
        i += 1;
    }
    v
}

/// No fewer axes are unnamed among more.
proof fn unnamed_axes_grow(axes: Seq<u32>, k: nat, more: nat)
    requires
        k <= more,
    ensures
        unnamed_axes(axes, k) <= unnamed_axes(axes, more),
    decreases more,
{
    if k < more {
        unnamed_axes_grow(axes, k, (more - 1) as nat);
    }
}

/// One more axis leaves one fewer unnamed.
proof fn one_more_named(axes: Seq<u32>, a: u32, k: nat)
    requires
        !names_axis(axes, a as int),
    ensures
        unnamed_axes(axes.push(a), k) == unnamed_axes(axes, k) - if a < k {
            1int
        } else {
            0int
        },
    decreases k,
{
    if k > 0 {
        one_more_named(axes, a, (k - 1) as nat);
        let more = axes.push(a);
        assert(more[axes.len() as int] == a);
        assert(names_axis(more, a as int));
        if names_axis(axes, k - 1) {
            let j = choose|j: int| 0 <= j < axes.len() && #[trigger] axes[j] == k - 1;
            assert(more[j] == k - 1);
        } else if names_axis(more, k - 1) {
            let j = choose|j: int| 0 <= j < more.len() && #[trigger] more[j] == k - 1;
            assert(j == axes.len() || axes[j] == k - 1);
        }
    }
}

/// Axes that are named once each leave the others.
proof fn unnamed_are_the_rest(axes: Seq<u32>, rank: nat)
    requires
        distinct_axes(axes, rank),
    ensures
        unnamed_axes(axes, rank) + axes.len() == rank,
    decreases axes.len(),
{
    if axes.len() == 0 {
        none_named(axes, rank);
    } else {
        let fewer = axes.drop_last();
        unnamed_are_the_rest(fewer, rank);
        assert(fewer.push(axes.last()) =~= axes);
        if names_axis(fewer, axes.last() as int) {
            let j = choose|j: int| 0 <= j < fewer.len() && #[trigger] fewer[j] == axes.last();
            assert(axes[j] == axes[axes.len() - 1]);
        }
        one_more_named(fewer, axes.last(), rank);
    }
}

proof fn none_named(axes: Seq<u32>, k: nat)
    requires
        axes.len() == 0,
    ensures
        unnamed_axes(axes, k) == k,
    decreases k,
{
    if k > 0 {
        none_named(axes, (k - 1) as nat);
    }
}

/// What a squeeze leaves, the dimensions that are not named in order.
proof fn squeezed_keeps(d: Seq<i64>, axes: Seq<u32>, k: nat)
    requires
        k <= d.len(),
        forall|i: int| 0 <= i < d.len() && #[trigger] names_axis(axes, i) ==> d[i] == 1,
    ensures
        squeezed(d, Some(axes), k).len() == unnamed_axes(axes, k),
        forall|i: int|
            0 <= i < k && !#[trigger] names_axis(axes, i) ==> unnamed_axes(axes, i as nat)
                < unnamed_axes(axes, k) && squeezed(d, Some(axes), k)[unnamed_axes(
                axes,
                i as nat,
            ) as int] == d[i],
    decreases k,
{
    if k > 0 {
        squeezed_keeps(d, axes, (k - 1) as nat);
    }
}

/// An unsqueeze along the axes that a squeeze took away gives the shape back.
pub proof fn unsqueeze_undoes_squeeze(d: Seq<i64>, axes: Seq<u32>)
    requires
        distinct_axes(axes, d.len()),
        forall|j: int| 0 <= j < axes.len() ==> d[(#[trigger] axes[j]) as int] == 1,
    ensures
        ({
            let left = squeezed(d, Some(axes), d.len());
            &&& distinct_axes(axes, left.len() + axes.len())
            &&& unsqueezed(left, axes, left.len() + axes.len()) == d
        }),
{
    let left = squeezed(d, Some(axes), d.len());
    assert forall|i: int| 0 <= i < d.len() && #[trigger] names_axis(axes, i) implies d[i] == 1 by {
        let j = choose|j: int| 0 <= j < axes.len() && #[trigger] axes[j] == i;
        assert(d[axes[j] as int] == 1);
    }
    squeezed_keeps(d, axes, d.len());
    unnamed_are_the_rest(axes, d.len());
    unsqueezed_gives(d, axes, left, d.len());
    assert(d.take(d.len() as int) =~= d);
}

proof fn unsqueezed_gives(d: Seq<i64>, axes: Seq<u32>, left: Seq<i64>, k: nat)
    requires
        k <= d.len(),
        forall|i: int| 0 <= i < d.len() && #[trigger] names_axis(axes, i) ==> d[i] == 1,
        forall|i: int|
            0 <= i < d.len() && !#[trigger] names_axis(axes, i) ==> left[unnamed_axes(
                axes,
                i as nat,
            ) as int] == d[i],
    ensures
        unsqueezed(left, axes, k) == d.take(k as int),
    decreases k,
{
    if k > 0 {
        unsqueezed_gives(d, axes, left, (k - 1) as nat);
        assert(d.take(k as int) =~= d.take(k - 1).push(d[k - 1]));
    } else {
        assert(d.take(0) =~= Seq::empty());
    }
}

/// An axis that is named twice, or that lies past the rank, leaves more unnamed.
proof fn unnamed_are_more(axes: Seq<u32>, rank: nat)
    ensures
        unnamed_axes(axes, rank) + axes.len() >= rank,
        unnamed_axes(axes, rank) + axes.len() == rank ==> distinct_axes(axes, rank),
    decreases axes.len(),
{
    if axes.len() == 0 {
        none_named(axes, rank);
    } else {
        let fewer = axes.drop_last();
        let a = axes.last();
        unnamed_are_more(fewer, rank);
        assert(fewer.push(a) =~= axes);
        if names_axis(fewer, a as int) {
            same_named(fewer, a, rank);
        } else {
            one_more_named(fewer, a, rank);
            assert forall|i: int, j: int|
                0 <= i < axes.len() && 0 <= j < axes.len() && i != j && distinct_axes(
                    fewer,
                    rank,
                ) implies axes[i] != axes[j] by {
                assert(i < fewer.len() ==> fewer[i] == axes[i]);
                assert(j < fewer.len() ==> fewer[j] == axes[j]);
            }
            assert forall|j: int|
                0 <= j < axes.len() && distinct_axes(fewer, rank) && a < rank implies #[trigger] axes[j]
                < rank by {
                assert(j < fewer.len() ==> fewer[j] == axes[j]);
            }
        }
    }
}

/// An axis that is named already changes nothing.
proof fn same_named(axes: Seq<u32>, a: u32, k: nat)
    requires
        names_axis(axes, a as int),
    ensures
        unnamed_axes(axes.push(a), k) == unnamed_axes(axes, k),
    decreases k,
{
    if k > 0 {
        same_named(axes, a, (k - 1) as nat);
        let more = axes.push(a);
        if names_axis(axes, k - 1) {
            let j = choose|j: int| 0 <= j < axes.len() && #[trigger] axes[j] == k - 1;
            assert(more[j] == k - 1);
        } else if names_axis(more, k - 1) {
            let j = choose|j: int| 0 <= j < more.len() && #[trigger] more[j] == k - 1;
            assert(j == axes.len() || axes[j] == k - 1);
        }
    }
}

/// The unsqueezed shape, where the axes are axes of it and none is named twice.
fn unsqueezed_vec(d: &Vec<i64>, axes: &Vec<u32>) -> (r: Option<Vec<i64>>)
    ensures
        r is Some == distinct_axes(axes@, d@.len() + axes@.len()),
        r matches Some(v) ==> v@ == unsqueezed(d@, axes@, d@.len() + axes@.len()),
{
    let rank: u128 = d.len() as u128 + axes.len() as u128;
    let mut v: Vec<i64> = Vec::new();
    let mut used: usize = 0;
    let mut i: u128 = 0;
    while i < rank
        invariant
            i <= rank,
            rank == d@.len() + axes@.len(),
            used <= d@.len(),
            used == unnamed_axes(axes@, i as nat),
            v@ == unsqueezed(d@, axes@, i as nat),
        decreases rank - i,
    {
        if has_axis(axes, i) {
            v.push(1);
        } else if used < d.len() {
            v.push(d[used]);
            used += 1;
        } else {
            proof {
                unnamed_axes_grow(axes@, (i + 1) as nat, rank as nat);
                if distinct_axes(axes@, rank as nat) {
                    unnamed_are_the_rest(axes@, rank as nat);
                }
            }
            return None;
        }
        i += 1;
    }
    proof {
        unnamed_are_more(axes@, rank as nat);
    }
    Some(v)
}

impl TrtxConverter {
    /// Adds a slice.
    pub fn add_slice_op(
        net: &mut Network,
        tensors: &mut TensorMap,
        operation: &Operation,
    ) -> (r: Result<(), Halt>)
        requires
            operation.inputs@.len() >= 1,
            operation.outputs@.len() >= 1,
        ensures
            does(final(net)@, r, final(tensors)@, slice_op(old(net)@, old(tensors)@, *operation)),
    {
        proof {
            broadcast use group_arrange_stopped;

        }
        let x = tensors.find(operation.inputs[0], "Input operand ", " not found")?;
        let (starts, sizes, options) = match &operation.kind {
            OperationKind::Slice { starts, sizes, options } => (starts, sizes, options),
            _ => {
                return Err(say("expected Slice operation").halt());
            },
        };
        let options = match options {
            Some(o) => o, None => {
                return Err(say("Slice operation missing options").halt());
            },
        };
        let t = if starts.len() == 0 || sizes.len() == 0 {
            net.identity(x, "Slice no-op identity: ", "Slice no-op output: ")?
        } else {
            let extents = narrow_dims_vec(&mldimensions_static_or_max(sizes));
            let strides = if options.strides.len() == 0 {
                ones_vec(starts.len())
            } else {
                narrow_dims_vec(&options.strides)
            };
            let lengths = slice_lengths_vec(&extents, &strides);
            net.slice(
                x,
                narrow_dims_vec(starts),
                lengths,
                strides,
                "Failed to add slice layer: ",
                "Failed to get layer output: ",
            )?
        };
        tensors.insert(operation.outputs[0], t);
        Ok(())
    }

    /// Adds one part of a split.
    fn split_part(
        net: &mut Network,
        tensors: &mut TensorMap,
        operation: &Operation,
        d: &Vec<i64>,
        axis: usize,
        sizes: &Vec<i32>,
        k: usize,
        offset: i64,
    ) -> (r: Result<(), Halt>)
        requires
            operation.inputs@.len() >= 1,
            k < operation.outputs@.len(),
            k < sizes@.len(),
            offset == sum_of(sizes@, k as nat),
        ensures
            does(
                final(net)@,
                r,
                final(tensors)@,
                split_part(
                    old(net)@,
                    old(tensors)@,
                    *operation,
                    d@,
                    axis as nat,
                    sizes@,
                    k as nat,
                ),
            ),
    {
        let x = tensors.find(operation.inputs[0], "Input operand ", " not found")?;
        if axis >= d.len() {
            return Err(HaltOf::OutOfRange);
        }
        let t = net.slice(
            x,
            with_entry(&zeros_vec(d.len()), axis, offset),
            with_entry(d, axis, sizes[k] as i64),
            ones_vec(d.len()),
            say("Failed to add slice layer for split ").num(k).str(": ").text.as_str(),
            say("Failed to get layer output for split ").num(k).str(": ").text.as_str(),
        )?;
        tensors.insert(operation.outputs[k], t);
        Ok(())
    }

    /// Adds all parts of a split.
    fn split_all(
        net: &mut Network,
        tensors: &mut TensorMap,
        operation: &Operation,
        d: &Vec<i64>,
        axis: usize,
        sizes: &Vec<i32>,
    ) -> (r: Result<(), Halt>)
        requires
            operation.inputs@.len() >= 1,
            sizes@.len() == operation.outputs@.len(),
            sizes@.len() <= i32::MAX,
        ensures
            does(
                final(net)@,
                r,
                final(tensors)@,
                split_parts(
                    old(net)@,
                    old(tensors)@,
                    *operation,
                    d@,
                    axis as nat,
                    sizes@,
                    sizes@.len(),
                ),
            ),
    {
        let ghost start = net@;
        let ghost held = tensors@;
        let mut offset: i64 = 0;
        let mut k: usize = 0;
        while k < sizes.len()
            invariant
                k <= sizes.len(),
                operation.inputs@.len() >= 1,
                sizes@.len() == operation.outputs@.len(),
                sizes@.len() <= i32::MAX,
                start == old(net)@,
                held == old(tensors)@,
                offset == sum_of(sizes@, k as nat),
                (net@, tensors@) == split_parts(
                    start,
                    held,
                    *operation,
                    d@,
                    axis as nat,
                    sizes@,
                    k as nat,
                ),
            decreases sizes.len() - k,
        {
            match Self::split_part(net, tensors, operation, d, axis, sizes, k, offset) {
                Ok(_) => {},
                Err(h) => {
                    proof {
                        split_parts_stay(
                            start,
                            held,
                            *operation,
                            d@,
                            axis as nat,
                            sizes@,
                            (k + 1) as nat,
                            sizes@.len(),
                        );
                    }
                    return Err(h);
                },
            }
            proof {
                sum_bound(sizes@, k as nat);
            }
            offset = offset + sizes[k] as i64;
            k = k + 1;
        }
        Ok(())
    }

    /// Adds a split.
    pub fn add_split_op(
        net: &mut Network,
        tensors: &mut TensorMap,
        operation: &Operation,
    ) -> (r: Result<(), Halt>)
        requires
            operation.inputs@.len() >= 1,
        ensures
            does(final(net)@, r, final(tensors)@, split_op(old(net)@, old(tensors)@, *operation)),
    {
        proof {
            broadcast use group_arrange_stopped;

        }
        let x = tensors.find(operation.inputs[0], "Input operand ", " not found")?;
        let d = net.dims(x, "Failed to get input shape: ")?;
        let (splits, options) = match &operation.kind {
            OperationKind::Split { splits, options: Some(o) } => (splits, o),
            _ => {
                return Err(say("Split operation missing options").halt());
            },
        };
        let axis: usize = moved_axis_of((options.axis as i32) as i64, d.len());
        let count: usize = operation.outputs.len();
        let sizes: Vec<i32> = if splits.len() == 0 {
            if count == 0 {
                return Err(say("Split operation 'splits' missing and no outputs").halt());
            }
            if d.len() == 0 || count > i32::MAX as usize {
                return Err(HaltOf::OutOfRange);
            }
            even_parts_vec(d[axis] as i32, count)
        } else {
            as_signed_vec(splits)
        };
        if count != sizes.len() {
            return Err(
                say("Split: ").num(sizes.len()).str(" outputs expected, ").num(count)
                    .str(" operands").halt(),
            );
        }
        if sizes.len() > i32::MAX as usize {
            return Err(HaltOf::OutOfRange);
        }
        Self::split_all(net, tensors, operation, &d, axis, &sizes)
    }

    /// Adds a squeeze.
    pub fn add_squeeze_op(
        net: &mut Network,
        tensors: &mut TensorMap,
        operation: &Operation,
    ) -> (r: Result<(), Halt>)
        requires
            operation.inputs@.len() >= 1,
            operation.outputs@.len() >= 1,
        ensures
            does(final(net)@, r, final(tensors)@, squeeze_op(old(net)@, old(tensors)@, *operation)),
    {
        proof {
            broadcast use group_arrange_stopped;

        }
        let x = tensors.find(operation.inputs[0], "Input operand ", " not found")?;
        let d = net.dims(x, "Failed to get input dimensions for squeeze: ")?;
        let left = match &operation.kind {
            OperationKind::Squeeze { axes: Some(list) } => squeezed_vec(&d, Some(list)),
            _ => squeezed_vec(&d, None),
        };
        let t = net.reshape(
            x,
            left,
            "Failed to add shuffle layer for squeeze: ",
            "Failed to set reshape dimensions: ",
            "Failed to get layer output: ",
        )?;
        tensors.insert(operation.outputs[0], t);
        Ok(())
    }

    /// Adds an unsqueeze.
    pub fn add_unsqueeze_op(
        net: &mut Network,
        tensors: &mut TensorMap,
        operation: &Operation,
    ) -> (r: Result<(), Halt>)
        requires
            operation.inputs@.len() >= 1,
            operation.outputs@.len() >= 1,
        ensures
            does(
                final(net)@,
                r,
                final(tensors)@,
                unsqueeze_op(old(net)@, old(tensors)@, *operation),
            ),
    {
        proof {
            broadcast use group_arrange_stopped;

        }
        let x = tensors.find(operation.inputs[0], "Input operand ", " not found")?;
        let axes = match &operation.kind {
            OperationKind::Unsqueeze { axes: Some(Some(list)) } => list,
            OperationKind::Unsqueeze { axes: Some(None) } => {
                return Err(say("Invalid 'axes' attribute format").halt());
            },
            _ => {
                return Err(say("Unsqueeze operation missing 'axes' attribute").halt());
            },
        };
        let d = net.dims(x, "Failed to get input dimensions for unsqueeze: ")?;
        let filled = match unsqueezed_vec(&d, axes) {
            Some(filled) => filled,
            None => {
                return Err(say("Invalid 'axes' attribute format").halt());
            },
        };
        let t = net.reshape(
            x,
            filled,
            "Failed to add shuffle layer for unsqueeze: ",
            "Failed to set reshape dimensions: ",
            "Failed to get layer output: ",
        )?;
        tensors.insert(operation.outputs[0], t);
        Ok(())
    }

    /// Adds an expansion.
    pub fn add_expand_op(
        graph: &GraphInfo,
        net: &mut Network,
        tensors: &mut TensorMap,
        operation: &Operation,
    ) -> (r: Result<(), Halt>)
        requires
            operation.inputs@.len() >= 1,
            operation.outputs@.len() >= 1,
        ensures
            does(
                final(net)@,
                r,
                final(tensors)@,
                expand_op(old(net)@, old(tensors)@, *graph, *operation),
            ),
    {
        proof {
            broadcast use group_arrange_stopped;

        }
        let x = tensors.find(operation.inputs[0], "Input operand ", " not found")?;
        let shape = match &operation.kind {
            OperationKind::Expand { new_shape } => narrow_dims_vec(&mldimensions_static_or_max(new_shape)),
            _ => {
                return Err(say("Internal error: add_expand_op called for non-expand").halt());
            },
        };
        let product: usize = elements_of(&not_below_zero_vec(&shape))?;
        let count: usize = if product == 0 {
            1
        } else {
            product
        };
        let o = find_operand(graph, operation.inputs[0], "Input operand ", " not found in graph")?;
        let dt = o.descriptor.data_type;
        let c = net.constant(
            shape,
            repeat_bytes(&float_bytes_of(Known::One.scalar(), dt), count),
            float_type_of(dt),
            "Failed to create ones constant for expand: ",
            "Failed to get ones constant output: ",
        )?;
        let (a, b) = Self::ensure_broadcast_compatible(net, x, c, "expand")?;
        let t = net.elementwise(
            a,
            b,
            ElementWiseOperation::kPROD,
            "Failed to add multiply for expand: ",
            "Failed to get expand output: ",
        )?;
        tensors.insert(operation.outputs[0], t);
        Ok(())
    }

    /// Tiles one axis.
    fn tile_axis(net: &mut Network, t: Tensor, axis: usize, count: u32) -> (r: Result<
        Tensor,
        Halt,
    >)
        ensures
            gives(final(net)@, r, tile_axis(old(net)@, t, axis as nat, count)),
    {
        if count <= 1 {
            return Ok(t);
        }
        let mut list: Vec<Tensor> = Vec::new();
        push_copies(&mut list, t, count as i64);
        proof {
            assert(list@ =~= copies(t, count as i64));
        }
        net.concat(
            list,
            axis as i32,
            say("Failed to add concatenation for tile axis ").num(axis).str(": ").text.as_str(),
            say("Failed to get concat output for tile axis ").num(axis).str(": ").text.as_str(),
        )
    }

    /// Tiles all axes, one after the other.
    fn tile_all(net: &mut Network, x: Tensor, counts: &Vec<u32>) -> (r: Result<Tensor, Halt>)
        ensures
            gives(final(net)@, r, tile_axes(old(net)@, x, counts@, counts@.len())),
    {
        let ghost start = net@;
        let mut t: Tensor = x;
        let mut k: usize = 0;
        while k < counts.len()
            invariant
                k <= counts.len(),
                start == old(net)@,
                (net@, t) == tile_axes(start, x, counts@, k as nat),
            decreases counts.len() - k,
        {
            match Self::tile_axis(net, t, k, counts[k]) {
                Ok(next) => {
                    t = next;
                },
                Err(h) => {
                    proof {
                        tile_axes_stay(start, x, counts@, (k + 1) as nat, counts@.len());
                    }
                    return Err(h);
                },
            }
            k = k + 1;
        }
        Ok(t)
    }

    /// Adds a tiling.
    pub fn add_tile_op(
        net: &mut Network,
        tensors: &mut TensorMap,
        operation: &Operation,
    ) -> (r: Result<(), Halt>)
        requires
            operation.inputs@.len() >= 1,
            operation.outputs@.len() >= 1,
        ensures
            does(final(net)@, r, final(tensors)@, tile_op(old(net)@, old(tensors)@, *operation)),
    {
        proof {
            broadcast use group_arrange_stopped;

        }
        let counts = match &operation.kind {
            OperationKind::Tile { repetitions } => repetitions,
            _ => {
                return Err(say("Tile operation expected").halt());
            },
        };
        let id: u32 = operation.inputs[0];
        let x = tensors.find(id, "Tile: input operand ", " not found")?;
        let d = net.dims(x, "Tile: input dimensions: ")?;
        if counts.len() != d.len() {
            return Err(
                say("Tile: repetitions length ").num(counts.len()).str(" must equal input rank ")
                    .num(d.len()).str(" (WebNN tile)").halt(),
            );
        }
        if has_repeats(counts) {
            let t = Self::tile_all(net, x, counts)?;
            tensors.insert(operation.outputs[0], t);
        } else {
            let t = net.identity(x, "Tile: identity: ", "Tile: identity output: ")?;
            tensors.insert(operation.outputs[0], t);
        }
        Ok(())
    }

    /// The tensors of all inputs.
    fn found_inputs(net: &Network, tensors: &TensorMap, ids: &Vec<u32>) -> (r: Result<
        Vec<Tensor>,
        Halt,
    >)
        ensures
            outcome(net@, r) == found_inputs(net@, tensors@, ids@, ids@.len()).0,
            r matches Ok(v) ==> v@ == found_inputs(net@, tensors@, ids@, ids@.len()).1,
    {
        let mut list: Vec<Tensor> = Vec::with_capacity(ids.len());
        let mut k: usize = 0;
        while k < ids.len()
            invariant
                k <= ids.len(),
                (net@, list@) == found_inputs(net@, tensors@, ids@, k as nat),
            decreases ids.len() - k,
        {
            match tensors.find(ids[k], "Input operand ", " not found") {
                Ok(t) => {
                    list.push(t);
                },
                Err(h) => {
                    proof {
                        found_inputs_stay(net@, tensors@, ids@, (k + 1) as nat, ids@.len());
                    }
                    return Err(h);
                },
            }
            k = k + 1;
        }
        Ok(list)
    }

    /// Adds a concatenation.
    pub fn add_concat_op(
        net: &mut Network,
        tensors: &mut TensorMap,
        operation: &Operation,
    ) -> (r: Result<(), Halt>)
        ensures
            does(final(net)@, r, final(tensors)@, concat_op(old(net)@, old(tensors)@, *operation)),
    {
        proof {
            broadcast use group_arrange_stopped;

        }
        let list = Self::found_inputs(net, tensors, &operation.inputs)?;
        let count: usize = list.len();
        let first = if count == 0 {
            Tensor {
                id: 0
            }
        } else {
            list[0]
        };
        let l: usize = net.ask(
            Request::AddConcatenation { inputs: list },
            "Failed to add concatenation: ",
        )?;
        if count == 0 {
            return Err(HaltOf::OutOfRange);
        }
        let d = net.dims(first, "Concat: failed to get input dimensions: ")?;
        let given: i32 = match &operation.kind {
            OperationKind::Concat { axis } => *axis as i32,
            _ => 0,
        };
        let axis: i32 = if d.len() == 0 {
            -1
        } else {
            moved_axis_of(given as i64, d.len()) as i32
        };
        net.tell(Request::SetAxis { layer: Layer { id: l }, axis })?;
        let t = net.output(l, "Failed to get layer output: ")?;
        if operation.outputs.len() == 0 {
            return Err(say("Concat: operation has no output operand").halt());
        }
        tensors.insert(operation.outputs[0], t);
        Ok(())
    }

    /// Adds a transposition.
    pub fn add_transpose_op(
        net: &mut Network,
        tensors: &mut TensorMap,
        operation: &Operation,
    ) -> (r: Result<(), Halt>)
        requires
            operation.inputs@.len() >= 1,
            operation.outputs@.len() >= 1,
        ensures
            does(
                final(net)@,
                r,
                final(tensors)@,
                transpose_op(old(net)@, old(tensors)@, *operation),
            ),
    {
        proof {
            broadcast use group_arrange_stopped;

        }
        let x = tensors.find(operation.inputs[0], "Input operand ", " not found")?;
        let d = net.dims(x, "Transpose: failed to get input dimensions: ")?;
        let order = axis_order_of(&operation.kind, d.len());
        if order.len() != d.len() {
            return Err(
                say("Transpose: permutation length ").num(order.len()).str(" does not match rank ")
                    .num(d.len()).halt(),
            );
        }
        let t = net.transpose(
            x,
            order,
            "Failed to add shuffle (transpose): ",
            "Failed to set transpose permutation: ",
            "Failed to get layer output: ",
        )?;
        tensors.insert(operation.outputs[0], t);
        Ok(())
    }

    /// Adds a reshape.
    pub fn add_reshape_op(
        net: &mut Network,
        tensors: &mut TensorMap,
        operation: &Operation,
    ) -> (r: Result<(), Halt>)
        requires
            operation.inputs@.len() >= 1,
            operation.outputs@.len() >= 1,
        ensures
            does(final(net)@, r, final(tensors)@, reshape_op(old(net)@, old(tensors)@, *operation)),
    {
        proof {
            broadcast use group_arrange_stopped;

        }
        let x = tensors.find(operation.inputs[0], "Input operand ", " not found")?;
        let sizes = match &operation.kind {
            OperationKind::Reshape { new_shape } => mldimensions_static_or_max(new_shape),
            _ => {
                return Err(say("reshape operation expected").halt());
            },
        };
        if sizes.len() == 0 {
            return Err(say("reshape operation missing 'newShape'").halt());
        }
        let t = net.reshape(
            x,
            as_dims_vec(&sizes),
            "Failed to add shuffle (reshape): ",
            "Failed to set reshape dimensions: ",
            "Failed to get layer output: ",
        )?;
        tensors.insert(operation.outputs[0], t);
        Ok(())
    }

    /// Asks for an extent times a scale.
    pub fn scaled_extent(net: &mut Network, extent: i64, scale: u32) -> (r: Result<i64, Halt>)
        ensures
            gives(final(net)@, r, scaled_extent(old(net)@, extent, scale)),
    {
        proof {
            reveal(scaled_extent);
            broadcast use group_arrange_stopped;

        }
        let at: usize = net.ask(Request::ScaledExtent { extent, scale }, "")?;
        match net.extent(at) {
            Some(e) => Ok(e), None => Err(HaltOf::OutOfRange),
        }
    }

    /// The sizes of a resampling along its two axes.
    pub fn resample_sizes(
        net: &mut Network,
        op: &Operation,
        extents: (i64, i64),
    ) -> (r: Result<(i64, i64), Halt>)
        ensures
            gives(final(net)@, r, resample_sizes(old(net)@, *op, extents)),
    {
        proof {
            reveal(resample_sizes);
            broadcast use group_arrange_stopped;

        }
        let options = match &op.kind {
            OperationKind::Resample2d { options: Some(o) } => Some(o),
            _ => None,
        };
        let one: u32 = Known::One.scalar().single;
        let (mut a, mut b): (u32, u32) = (one, one);
        if let Some(o) = options {
            if let Some(sizes) = &o.sizes {
                if sizes.len() != 2 {
                    return Err(
                        say("resample2d: sizes must have length 2, got ").list32(sizes).halt(),
                    );
                }
                return Ok((sizes[0] as i64, sizes[1] as i64));
            }
            if o.scales.len() != 0 && o.scales.len() != 2 {
                return Err(
                    say(
                        "resample2d: scales must have length 2 or be omitted (default [1, 1]), got ",
                    ).str(o.scales_text.as_str()).halt(),
                );
            }
            if o.scales.len() == 2 {
                a = o.scales[0];
                b = o.scales[1];
            }
        }
        let first: i64 = Self::scaled_extent(net, extents.0, a)?;
        let second: i64 = Self::scaled_extent(net, extents.1, b)?;
        Ok((first, second))
    }

    /// Adds a resize layer with its settings.
    pub fn resampled(
        net: &mut Network,
        x: Tensor,
        dims: &Vec<i64>,
        mode: ResizeMode,
    ) -> (r: Result<Tensor, Halt>)
        ensures
            gives(final(net)@, r, resampled(old(net)@, x, dims@, mode)),
    {
        proof {
            reveal(resampled);
            broadcast use group_arrange_stopped;

        }
        let l: usize = net.ask(Request::AddResize { input: x }, "Failed to add resize layer: ")?;
        net.tell(Request::SetOutputDimensions { layer: Layer { id: l }, dims: copy_i64(dims) })?;
        net.tell(Request::SetResizeMode { layer: Layer { id: l }, mode })?;
        net.tell(
            Request::SetCoordinateTransformation { layer: Layer { id: l }, mode: ResizeCoordinateTransformation::kHALF_PIXEL },
        )?;
        if mode == ResizeMode::kNEAREST {
            net.tell(
                Request::SetNearestRounding { layer: Layer { id: l }, mode: ResizeRoundMode::kHALF_UP },
            )?;
        }
        net.output(l, "Failed to get resize output: ")
    }

    /// Adds a resampling.
    pub fn add_resample2d_op(
        graph: &GraphInfo,
        net: &mut Network,
        tensors: &mut TensorMap,
        operation: &Operation,
    ) -> (r: Result<(), Halt>)
        requires
            operation.inputs@.len() >= 1,
            operation.outputs@.len() >= 1,
        ensures
            does(
                final(net)@,
                r,
                final(tensors)@,
                resample2d_op(old(net)@, old(tensors)@, *graph, *operation),
            ),
    {
        proof {
            broadcast use group_arrange_stopped;

        }
        let options = match &operation.kind {
            OperationKind::Resample2d { options } => options,
            _ => {
                return Err(say("resample2d: expected Operation::Resample2d").halt());
            },
        };
        let id: u32 = operation.inputs[0];
        let x = tensors.find(id, "resample2d: input operand ", " not found")?;
        let o = find_operand(graph, id, "resample2d: operand ", " missing from graph")?;
        let d = net.dims(x, "resample2d: input dimensions: ")?;
        let declared = as_dims_vec(&o.descriptor.static_or_max_shape());
        let rank: usize = if d.len() != 0 {
            d.len()
        } else {
            declared.len()
        };
        if rank == 0 {
            return Err(say("resample2d: cannot determine input rank").halt());
        }
        if rank != 4 {
            return Err(
                say("resample2d: WebNN requires a 4-D input tensor, got rank ").num(rank).halt(),
            );
        }
        let extents = known_extents_vec(&d, &declared);
        let none: Vec<u32> = Vec::new();
        proof {
            assert(none@ =~= seq![]);
        }
        let axes: &Vec<u32> = match options {
            Some(o) => &o.axes, None => &none,
        };
        let (a, b): (u32, u32) = if axes.len() == 2 {
            (axes[0], axes[1])
        } else {
            (2, 3)
        };
        if a >= 4 || b >= 4 || a == b {
            return Err(
                say(
                    "resample2d: axes must be two distinct valid indices for rank ",
                ).num(rank).str(", got ").list32(axes).halt(),
            );
        }
        let sizes: (i64, i64) = Self::resample_sizes(
            net,
            operation,
            (extents[a as usize], extents[b as usize]),
        )?;
        let dims = with_entry(&with_entry(&extents, a as usize, sizes.0), b as usize, sizes.1);
        let mode = match options {
            Some(o) => if same_ignoring_case(o.mode.as_str(), "linear") {
                ResizeMode::kLINEAR
            } else {
                ResizeMode::kNEAREST
            }
            , None => ResizeMode::kNEAREST,
        };
        let t = Self::resampled(net, x, &dims, mode)?;
        tensors.insert(operation.outputs[0], t);
        Ok(())
    }

    /// Adds a reversal.
    pub fn add_reverse_op(
        graph: &GraphInfo,
        net: &mut Network,
        tensors: &mut TensorMap,
        operation: &Operation,
    ) -> (r: Result<(), Halt>)
        requires
            operation.inputs@.len() >= 1,
            operation.outputs@.len() >= 1,
        ensures
            does(
                final(net)@,
                r,
                final(tensors)@,
                reverse_op(old(net)@, old(tensors)@, *graph, *operation),
            ),
    {
        proof {
            broadcast use group_arrange_stopped;

        }
        let x = tensors.find(operation.inputs[0], "Input operand ", " not found")?;
        let o = match graph.operand(operation.inputs[0]) {
            Some(o) => o, None => {
                return Err(HaltOf::OutOfRange);
            },
        };
        let sizes = o.descriptor.static_or_max_shape();
        let axes = reverse_axes_of(&operation.kind, sizes.len());
        if let Some(at) = find_irreversible(&sizes, &axes) {
            if axes[at] as usize >= sizes.len() {
                return Err(
                    say("Reverse axis ").num32(axes[at]).str(" out of range for rank ")
                        .num(sizes.len()).halt(),
                );
            }
            return Err(HaltOf::OutOfRange);
        }
        let (starts, strides) = reverse_starts_vec(&sizes, &axes);
        let t = net.slice(
            x,
            starts,
            as_dims_vec(&sizes),
            strides,
            "Failed to add slice layer for reverse: ",
            "Failed to get reverse output: ",
        )?;
        tensors.insert(operation.outputs[0], t);
        Ok(())
    }
}

} // verus!
