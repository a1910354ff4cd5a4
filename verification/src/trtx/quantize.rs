//! Casts, logical negation, quantization and dequantization.

use crate::data_type::{data_type_name, DataType};
use crate::graph::{max_sizes, GraphInfo};
use crate::operators::Operation;
use crate::scalar::{known, le4, le4_bytes, Known};
use crate::text::{bracket_list, decimal, ints32, say, signed_decimal};
use crate::trtx::TrtxConverter;
use crate::trtx::broadcast::{
    as_dims, as_dims_vec, group_broadcast_stopped, left_padded, left_padded_vec, ones, ones_vec,
    to_bool, to_float32, zeros,
};
use crate::trtx::elementwise::{trt_float_bytes, trt_float_bytes_of};
use crate::trtx::pad::{copies, group_pad_stopped, push_copies, slab};
use crate::trtx::session::{
    copy_i64, does, find_operand, gives, group_stopped, outcome, store, Halt, HaltOf, Network,
    Request, RequestOf, Run, TensorMap,
};
use crate::trtx::shapes::{elements, elements_of};
use crate::trtx::steps::group_layers_stopped;
use crate::trtx::types::{
    trt_data_type_name, trt_type, trt_type_of, ElementWiseOperation, Layer, Tensor, TrtDataType,
    UnaryOperation,
};
use std::collections::HashSet;
use vstd::prelude::*;

verus! {

broadcast use {
    group_stopped,
    group_layers_stopped,
    group_broadcast_stopped,
    group_pad_stopped,
    vstd::std_specs::hash::group_hash_axioms,
};

/// Whether a type is stored in one byte per element and must be dequantized before it is used.
pub open spec fn is_byte(t: TrtDataType) -> bool {
    t == TrtDataType::kINT8 || t == TrtDataType::kUINT8
}

/// Whether a type is a floating-point type of the quantization layers.
pub open spec fn is_float(t: TrtDataType) -> bool {
    t == TrtDataType::kFLOAT || t == TrtDataType::kHALF
}

/// Each of the first `count` bytes as a truth value: 0 for 0, and 1 for anything else.
pub open spec fn truth_bytes(data: Seq<u8>, count: nat) -> Seq<u8> {
    Seq::new(
        if count < data.len() {
            count
        } else {
            data.len()
        },
        |i: int|
            if data[i] == 0 {
                0u8
            } else {
                1u8
            },
    )
}

fn truth_bytes_of(data: &Vec<u8>, count: usize) -> (v: Vec<u8>)
    ensures
        v@ == truth_bytes(data@, count as nat),
{
    let mut v: Vec<u8> = Vec::new();
    let mut i: usize = 0;
    while i < data.len() && i < count
        invariant
            i <= data.len(),
            i <= count,
            v@.len() == i,
            forall|k: int|
                0 <= k < i ==> #[trigger] v@[k] == (if data@[k] == 0 {
                    0u8
                } else {
                    1u8
                }),
        decreases data.len() - i,
    {
        v.push(
            if data[i] == 0 {
                0
            } else {
                1
            },
        );
        i = i + 1;
    }
    assert(v@ =~= truth_bytes(data@, count as nat));
    v
}

/// A constant operand of bytes as a constant of truth values.
#[verifier::opaque]
pub open spec fn truth_constant(n: Run, id: u32, sizes: Seq<u32>) -> (Run, Tensor) {
    let (n, at) = n.ask(
        RequestOf::ConstantData { operand: id },
        "Operand "@ + decimal(id as nat) + " is not a constant: "@,
    );
    let data = n.bytes(at);
    let shape = as_dims(sizes);
    let (n, count) = elements(n, shape);
    n.constant(
        shape,
        truth_bytes(data, count),
        TrtDataType::kBOOL,
        "LogicalNot: failed to add BOOL constant: "@,
        "LogicalNot: BOOL constant output: "@,
    )
}

pub broadcast proof fn stopped_truth_constant(n: Run, id: u32, sizes: Seq<u32>)
    requires
        n.halt is Some,
    ensures
        (#[trigger] truth_constant(n, id, sizes)).0 == n,
{
    reveal(truth_constant);
}

/// Logical negation. A constant of bytes is turned into truth values first, without a cast.
pub open spec fn logical_not_op(
    n: Run,
    m: Map<u32, Tensor>,
    graph: GraphInfo,
    op: Operation,
) -> (Run, Map<u32, Tensor>) {
    let id = op.inputs@[0];
    let (n, x) = n.find(m, id, "Input operand "@, " not found"@);
    let (n, t) = if graph.constant_operand_ids_to_handles@.contains_key(id) {
        let (n, o) = n.operand(graph, id, "Operand "@, " not in graph"@);
        if o.descriptor.data_type == DataType::Uint8 || o.descriptor.data_type == DataType::Int8 {
            truth_constant(n, id, max_sizes(o.descriptor.shape@))
        } else {
            to_bool(n, x)
        }
    } else {
        to_bool(n, x)
    };
    let (n, t) = n.unary(
        t,
        UnaryOperation::kNOT,
        "Failed to add logical NOT: "@,
        "Failed to get layer output: "@,
    );
    let (n, t) = to_float32(n, t);
    store(n, m, op.outputs@[0], t)
}

/// A tensor of bytes as `f32` values: TensorRT dequantizes it with the scale 1, as it does not cast
/// it.
#[verifier::opaque]
pub open spec fn bytes_to_float(
    n: Run,
    x: Tensor,
    sizes: Seq<u32>,
    shuffle_name: Seq<char>,
    purpose: Seq<char>,
    dequantize_name: Seq<char>,
) -> (Run, Tensor) {
    let (n, l) = n.ask(
        RequestOf::AddShuffle { input: x },
        "Cast: failed to add reshape shuffle: "@,
    );
    let n = n.tell(RequestOf::SetLayerName { layer: Layer { id: l }, name: shuffle_name });
    let (n, _) = n.ask(
        RequestOf::SetReshapeDimensions { layer: Layer { id: l }, dims: as_dims(sizes) },
        "Cast: failed to set reshape dimensions: "@,
    );
    let (n, t) = n.output(l, "Cast: failed to get reshape output: "@);
    let n = n.tell(RequestOf::SetTensorName { tensor: t, name: "cast_flat_reshape_4d"@ });
    let (n, scale) = n.constant(
        zeros(0),
        le4(known(Known::One).single),
        TrtDataType::kFLOAT,
        purpose + ": "@,
        purpose + ": get scale output: "@,
    );
    let (n, l) = n.ask(
        RequestOf::AddDequantize { input: t, scale, dtype: TrtDataType::kFLOAT },
        "Failed to add dequantize for "@ + purpose + ": "@,
    );
    let n = n.tell(RequestOf::SetLayerName { layer: Layer { id: l }, name: dequantize_name });
    let (n, t) = n.output(l, "Failed to get dequantize output: "@);
    let n = n.tell(RequestOf::SetTensorName { tensor: t, name: dequantize_name });
    (n, t)
}

pub broadcast proof fn stopped_bytes_to_float(
    n: Run,
    x: Tensor,
    sizes: Seq<u32>,
    shuffle_name: Seq<char>,
    purpose: Seq<char>,
    dequantize_name: Seq<char>,
)
    requires
        n.halt is Some,
    ensures
        (#[trigger] bytes_to_float(n, x, sizes, shuffle_name, purpose, dequantize_name)).0 == n,
{
    reveal(bytes_to_float);
}

/// A tensor of `f32` values as 32-bit integers, with its layer and its result named.
#[verifier::opaque]
pub open spec fn floats_to_int32(n: Run, t: Tensor) -> (Run, Tensor) {
    let (n, l) = n.ask(
        RequestOf::AddCast { input: t, dtype: TrtDataType::kINT32 },
        "Failed to add cast to INT32: "@,
    );
    let n = n.tell(
        RequestOf::SetLayerName { layer: Layer { id: l }, name: "cast_flat_cast_int32"@ },
    );
    let (n, t) = n.output(l, "Failed to get cast output: "@);
    let n = n.tell(RequestOf::SetTensorName { tensor: t, name: "cast_flat_cast_int32"@ });
    (n, t)
}

pub broadcast proof fn stopped_floats_to_int32(n: Run, t: Tensor)
    requires
        n.halt is Some,
    ensures
        (#[trigger] floats_to_int32(n, t)).0 == n,
{
    reveal(floats_to_int32);
}

/// A cast. Bytes become `f32` values and 32-bit integers by way of dequantization. A constant that
/// was promoted to 32-bit integers holds them already.
pub open spec fn cast_op(
    n: Run,
    m: Map<u32, Tensor>,
    graph: GraphInfo,
    op: Operation,
    promoted: Set<u32>,
) -> (Run, Map<u32, Tensor>) {
    let id = op.inputs@[0];
    let (n, x) = n.find(m, id, "Cast input operand "@, " not found"@);
    let n = n.reject_if(op.outputs@.len() == 0, "Cast operation has no output"@);
    let output = op.outputs@[0];
    let (n, to) = n.operand(graph, output, "Cast output operand "@, " not found in graph"@);
    let (n, from) = n.operand(graph, id, "Cast input operand "@, " not found in graph"@);
    let byte = from.descriptor.data_type == DataType::Int8 || from.descriptor.data_type == DataType::Uint8;
    let target = to.descriptor.data_type;
    let sizes = max_sizes(from.descriptor.shape@);
    let (n, t) = if byte && target == DataType::Int32 && promoted.contains(id) {
        n.identity(
            x,
            "Failed to add identity for promoted scalar cast: "@,
            "Failed to get identity output: "@,
        )
    } else {
        let (n, _) = n.dims(x, "Cast: failed to get input dimensions: "@);
        if byte && target == DataType::Float32 {
            bytes_to_float(
                n,
                x,
                sizes,
                "cast_flat_reshape_4d"@,
                "int8->float32 cast"@,
                "cast_flat_dq_f32"@,
            )
        } else if byte && target == DataType::Int32 {
            let (n, t) = bytes_to_float(
                n,
                x,
                sizes,
                "cast_flat_reshape_4d_int32"@,
                "int8->int32 cast"@,
                "cast_flat_dq_int32"@,
            );
            floats_to_int32(n, t)
        } else {
            n.cast(
                x,
                trt_type(target),
                "Failed to add cast layer: "@,
                "Failed to get cast output: "@,
            )
        }
    };
    store(n, m, output, t)
}

/// A tensor with at least one axis, which the quantization layers want: a scalar becomes a list of
/// one.
#[verifier::opaque]
pub open spec fn with_axis(n: Run, t: Tensor, label: Seq<char>) -> (Run, Tensor) {
    let (n, d) = n.dims(t, label + ": dimensions: "@);
    if d.len() == 0 {
        n.reshape(
            t,
            ones(1),
            label + ": rank-1 shuffle: "@,
            label + ": reshape [1]: "@,
            label + ": shuffle output: "@,
        )
    } else {
        n.identity(t, label + ": identity: "@, label + ": identity output: "@)
    }
}

pub broadcast proof fn stopped_with_axis(n: Run, t: Tensor, label: Seq<char>)
    requires
        n.halt is Some,
    ensures
        (#[trigger] with_axis(n, t, label)).0 == n,
{
    reveal(with_axis);
}

/// A tensor with ones put before its dimensions until it has the given rank.
#[verifier::opaque]
pub open spec fn prepended(n: Run, t: Tensor, rank: nat, label: Seq<char>) -> (Run, Tensor) {
    let (n, d) = n.dims(t, label + ": prepend dimensions: "@);
    if d.len() == rank {
        n.identity(t, label + ": prepend identity: "@, label + ": prepend identity output: "@)
    } else {
        let n = n.reject_if(
            d.len() > rank,
            label + ": tensor rank "@ + decimal(d.len()) + " exceeds target rank "@ + decimal(rank),
        );
        n.reshape(
            t,
            left_padded(d, rank),
            label + ": prepend shuffle: "@,
            label + ": prepend reshape: "@,
            label + ": prepend shuffle output: "@,
        )
    }
}

pub broadcast proof fn stopped_prepended(n: Run, t: Tensor, rank: nat, label: Seq<char>)
    requires
        n.halt is Some,
    ensures
        (#[trigger] prepended(n, t, rank, label)).0 == n,
{
    reveal(prepended);
}

/// Values that were read as signed bytes, read as unsigned ones: a negative one is raised by 256.
#[verifier::opaque]
pub open spec fn unsigned_reading(
    n: Run,
    t: Tensor,
    ty: TrtDataType,
    label: Seq<char>,
) -> (Run, Tensor) {
    let (n, d) = n.dims(t, label + " uint8 storage fix dimensions: "@);
    let n = n.reject_if(!is_float(ty), label + " uint8 storage fix: expected float DQ output"@);
    let shape = ones(d.len());
    let (n, zero) = n.constant(
        shape,
        trt_float_bytes(known(Known::Zero), ty),
        ty,
        label + " uint8 zp fix zero: "@,
        label + " uint8 zp fix zero out: "@,
    );
    let (n, wrap) = n.constant(
        shape,
        trt_float_bytes(known(Known::TwoFiftySix), ty),
        ty,
        label + " uint8 zp fix 256: "@,
        label + " uint8 zp fix 256 out: "@,
    );
    let (n, less) = n.elementwise(
        t,
        zero,
        ElementWiseOperation::kLESS,
        label + " uint8 zp fix less0: "@,
        label + " uint8 zp fix less0 out: "@,
    );
    let (n, negative) = to_bool(n, less);
    let (n, shifted) = n.elementwise(
        t,
        wrap,
        ElementWiseOperation::kSUM,
        label + " uint8 zp fix +256: "@,
        label + " uint8 zp fix +256 out: "@,
    );
    n.select(
        negative,
        shifted,
        t,
        label + " uint8 zp fix select: "@,
        label + " uint8 zp fix select out: "@,
    )
}

pub broadcast proof fn stopped_unsigned_reading(
    n: Run,
    t: Tensor,
    ty: TrtDataType,
    label: Seq<char>,
)
    requires
        n.halt is Some,
    ensures
        (#[trigger] unsigned_reading(n, t, ty, label)).0 == n,
{
    reveal(unsigned_reading);
}

/// Bytes as floating-point values, by dequantization with the scale 1. Unsigned bytes that TensorRT
/// holds as signed ones are raised where they read negative; those that it holds as unsigned ones
/// are raised by 128.
#[verifier::opaque]
pub open spec fn byte_values(
    n: Run,
    t: Tensor,
    ty: TrtDataType,
    label: Seq<char>,
    source: DataType,
) -> (Run, Tensor) {
    let from = n.dtype(t);
    let n = n.reject_if(
        !is_float(ty),
        label + " identity DQ expects kFLOAT/kHALF output, got "@ + trt_data_type_name(ty),
    );
    let (n, scale) = n.constant(
        zeros(0),
        trt_float_bytes(known(Known::One), ty),
        ty,
        label + " identity DQ scale constant: "@,
        label + " identity DQ scale tensor: "@,
    );
    let (n, t) = n.dequantize(
        t,
        scale,
        ty,
        label + " identity DQ: "@,
        label + " identity DQ output: "@,
    );
    if source == DataType::Uint8 && from == TrtDataType::kINT8 {
        unsigned_reading(n, t, ty, label)
    } else if source == DataType::Uint8 && from == TrtDataType::kUINT8 {
        let (n, d) = n.dims(t, label + " kUINT8 DQ+128 dimensions: "@);
        let (n, bias) = n.constant(
            ones(d.len()),
            trt_float_bytes(known(Known::OneTwentyEight), ty),
            ty,
            label + " kUINT8 +128 bias: "@,
            label + " kUINT8 +128 tensor: "@,
        );
        n.elementwise(
            t,
            bias,
            ElementWiseOperation::kSUM,
            label + " kUINT8 +128 sum: "@,
            label + " kUINT8 +128 output: "@,
        )
    } else {
        (n, t)
    }
}

pub broadcast proof fn stopped_byte_values(
    n: Run,
    t: Tensor,
    ty: TrtDataType,
    label: Seq<char>,
    source: DataType,
)
    requires
        n.halt is Some,
    ensures
        (#[trigger] byte_values(n, t, ty, label, source)).0 == n,
{
    broadcast use {stopped_unsigned_reading};

    reveal(byte_values);
}

/// The dimensions, each read as `u32`.
pub open spec fn as_sizes(d: Seq<i64>) -> Seq<u32> {
    d.map_values(|x: i64| x as u32)
}

fn as_sizes_vec(d: &Vec<i64>) -> (v: Vec<u32>)
    ensures
        v@ == as_sizes(d@),
{
    let mut v: Vec<u32> = Vec::with_capacity(d.len());
    let mut i: usize = 0;
    while i < d.len()
        invariant
            i <= d.len(),
            v@.len() == i,
            forall|k: int| 0 <= k < i ==> #[trigger] v@[k] == as_sizes(d@)[k],
        decreases d.len() - i,
    {
        v.push(d[i] as u32);
        i = i + 1;
    }
    assert(v@ =~= as_sizes(d@));
    v
}

/// Whether `a` broadcasts to `b`: each of its sizes is 1 or the size there.
pub open spec fn broadcasts(a: Seq<u32>, b: Seq<u32>) -> bool {
    forall|i: int|
        0 <= i < a.len() && i < b.len() ==> #[trigger] a[i] == 1 || a[i] == b[i]
}

/// Whether blocks of `a` fill `b`: each of its sizes divides the size there.
pub open spec fn fills(a: Seq<u32>, b: Seq<u32>) -> bool {
    forall|i: int|
        0 <= i < a.len() && i < b.len() ==> #[trigger] a[i] > 0 && b[i] as int % a[i] as int == 0
}

fn broadcasts_to(a: &Vec<u32>, b: &Vec<u32>) -> (r: bool)
    ensures
        r == broadcasts(a@, b@),
{
    let mut i: usize = 0;
    while i < a.len() && i < b.len()
        invariant
            i <= a.len(),
            i <= b.len(),
            forall|k: int| 0 <= k < i ==> #[trigger] a@[k] == 1 || a@[k] == b@[k],
        decreases a.len() - i,
    {
        if !(a[i] == 1 || a[i] == b[i]) {
            assert(!(a@[i as int] == 1 || a@[i as int] == b@[i as int]));
            return false;
        }
        i = i + 1;
    }
    true
}

fn fills_up(a: &Vec<u32>, b: &Vec<u32>) -> (r: bool)
    ensures
        r == fills(a@, b@),
{
    let mut i: usize = 0;
    while i < a.len() && i < b.len()
        invariant
            i <= a.len(),
            i <= b.len(),
            forall|k: int|
                0 <= k < i ==> #[trigger] a@[k] > 0 && b@[k] as int % a@[k] as int == 0,
        decreases a.len() - i,
    {
        if a[i] == 0 || b[i] % a[i] != 0 {
            assert(!(a@[i as int] > 0 && b@[i as int] as int % a@[i as int] as int == 0));
            return false;
        }
        assert(a@[i as int] > 0 && b@[i as int] as int % a@[i as int] as int == 0);
        i = i + 1;
    }
    true
}

/// The slab of `x` at `k` along `axis`, `times` times in a row.
#[verifier::opaque]
pub open spec fn block_part(
    n: Run,
    x: Tensor,
    d: Seq<i64>,
    axis: nat,
    k: nat,
    times: i64,
    label: Seq<char>,
) -> (Run, Tensor) {
    let place = " ax="@ + decimal(axis) + " k="@ + decimal(k) + ": "@;
    let (n, t) = slab(
        n,
        x,
        d,
        axis,
        k as i64,
        label + ": block tile slice"@ + place,
        label + ": block tile slice output"@ + place,
    );
    n.concat(
        copies(t, times),
        axis as i32,
        label + ": block tile dup concat"@ + place,
        label + ": block tile dup out"@ + place,
    )
}

pub broadcast proof fn stopped_block_part(
    n: Run,
    x: Tensor,
    d: Seq<i64>,
    axis: nat,
    k: nat,
    times: i64,
    label: Seq<char>,
)
    requires
        n.halt is Some,
    ensures
        (#[trigger] block_part(n, x, d, axis, k, times, label)).0 == n,
{
    reveal(block_part);
}

/// The first `k` slabs of `x` along `axis`, each `times` times in a row.
pub open spec fn block_parts(
    n: Run,
    x: Tensor,
    d: Seq<i64>,
    axis: nat,
    k: nat,
    times: i64,
    label: Seq<char>,
) -> (Run, Seq<Tensor>)
    decreases k,
{
    if k == 0 {
        (n, seq![])
    } else {
        let (n, parts) = block_parts(n, x, d, axis, (k - 1) as nat, times, label);
        let (n, t) = block_part(n, x, d, axis, (k - 1) as nat, times, label);
        (n, parts.push(t))
    }
}

/// Once the repeating of slabs has stopped, it stays so.
proof fn block_parts_stay(
    n: Run,
    x: Tensor,
    d: Seq<i64>,
    axis: nat,
    k: nat,
    more: nat,
    times: i64,
    label: Seq<char>,
)
    requires
        k <= more,
        block_parts(n, x, d, axis, k, times, label).0.halt is Some,
    ensures
        block_parts(n, x, d, axis, more, times, label).0 == block_parts(
            n,
            x,
            d,
            axis,
            k,
            times,
            label,
        ).0,
    decreases more - k,
{
    broadcast use stopped_block_part;

    if k < more {
        block_parts_stay(n, x, d, axis, k, (more - 1) as nat, times, label);
    }
}

/// A conversation that has stopped repeats no slabs.
pub broadcast proof fn stopped_block_parts(
    n: Run,
    x: Tensor,
    d: Seq<i64>,
    axis: nat,
    k: nat,
    times: i64,
    label: Seq<char>,
)
    requires
        n.halt is Some,
    ensures
        (#[trigger] block_parts(n, x, d, axis, k, times, label)).0 == n,
    decreases k,
{
    broadcast use stopped_block_part;

    if k > 0 {
        stopped_block_parts(n, x, d, axis, (k - 1) as nat, times, label);
    }
}

/// A tensor stretched along one axis to the extent `target`, each of its slabs as often in a row as
/// it takes.
#[verifier::opaque]
pub open spec fn block_axis(
    n: Run,
    t: Tensor,
    axis: nat,
    target: u32,
    label: Seq<char>,
) -> (Run, Tensor) {
    let (n, d) = n.dims(t, label + ": block tile cur dimensions: "@);
    let n = if axis < d.len() {
        n
    } else {
        n.stop(HaltOf::OutOfRange)
    };
    let p = d[axis as int];
    if axis < d.len() && p == target {
        (n, t)
    } else {
        let n = n.reject_if(
            p <= 0 || target as int % p as int != 0,
            label + ": block tile ax="@ + decimal(axis) + ": dim "@ + signed_decimal(p as int)
                + " cannot expand to "@ + decimal(target as nat),
        );
        let times = (target as int / p as int) as i64;
        if n.halt is Some || times <= 1 {
            (n, t)
        } else {
            let (n, parts) = block_parts(n, t, d, axis, p as nat, times, label);
            n.concat(
                parts,
                axis as i32,
                label + ": block tile merge concat ax="@ + decimal(axis) + ": "@,
                label + ": block tile merge out ax="@ + decimal(axis) + ": "@,
            )
        }
    }
}

pub broadcast proof fn stopped_block_axis(
    n: Run,
    t: Tensor,
    axis: nat,
    target: u32,
    label: Seq<char>,
)
    requires
        n.halt is Some,
    ensures
        (#[trigger] block_axis(n, t, axis, target, label)).0 == n,
{
    broadcast use {stopped_block_parts};

    reveal(block_axis);
}

proof fn block_count_fits(target: int, p: int)
    requires
        0 < p,
        0 <= target <= u32::MAX,
        target / p > 1,
    ensures
        p <= u32::MAX,
{
    if p > target {
        vstd::arithmetic::div_mod::lemma_basic_div(target, p);
    }
}

/// A tensor stretched along the first `k` axes to the given sizes.
pub open spec fn block_axes(n: Run, t: Tensor, sizes: Seq<u32>, k: nat, label: Seq<char>) -> (
    Run,
    Tensor,
)
    decreases k,
{
    if k == 0 {
        (n, t)
    } else {
        let (n, t) = block_axes(n, t, sizes, (k - 1) as nat, label);
        block_axis(n, t, (k - 1) as nat, sizes[k - 1], label)
    }
}

/// Once the stretching of axes has stopped, it stays so.
proof fn block_axes_stay(
    n: Run,
    t: Tensor,
    sizes: Seq<u32>,
    k: nat,
    more: nat,
    label: Seq<char>,
)
    requires
        k <= more,
        block_axes(n, t, sizes, k, label).0.halt is Some,
    ensures
        block_axes(n, t, sizes, more, label).0 == block_axes(n, t, sizes, k, label).0,
    decreases more - k,
{
    broadcast use stopped_block_axis;

    if k < more {
        block_axes_stay(n, t, sizes, k, (more - 1) as nat, label);
    }
}

/// A conversation that has stopped stretches nothing.
pub broadcast proof fn stopped_block_axes(
    n: Run,
    t: Tensor,
    sizes: Seq<u32>,
    k: nat,
    label: Seq<char>,
)
    requires
        n.halt is Some,
    ensures
        (#[trigger] block_axes(n, t, sizes, k, label)).0 == n,
    decreases k,
{
    broadcast use stopped_block_axis;

    if k > 0 {
        stopped_block_axes(n, t, sizes, (k - 1) as nat, label);
    }
}

/// A scale or a zero point brought to the rank of the input that it belongs to. Bytes are
/// dequantized first; blocks are stretched, each in place, where their sizes divide those of the
/// input.
#[verifier::opaque]
pub open spec fn aligned(
    n: Run,
    t: Tensor,
    sizes: Seq<u32>,
    label: Seq<char>,
    as_float: Option<TrtDataType>,
    source: DataType,
) -> (Run, Tensor) {
    let (n, t) = if as_float is Some && is_byte(n.dtype(t)) {
        byte_values(n, t, as_float->0, label, source)
    } else {
        (n, t)
    };
    let (n, t) = with_axis(n, t, label);
    if sizes.len() == 0 {
        (n, t)
    } else {
        let (n, t) = prepended(n, t, sizes.len(), label);
        let (n, d) = n.dims(t, label + ": aligned param dimensions: "@);
        let own = as_sizes(d);
        if own == sizes || broadcasts(own, sizes) {
            (n, t)
        } else {
            let n = n.reject_if(
                !fills(own, sizes),
                label + ": shape "@ + bracket_list(ints32(own))
                    + " is not broadcastable or block-tileable to input "@
                    + bracket_list(ints32(sizes)),
            );
            block_axes(n, t, sizes, sizes.len(), label)
        }
    }
}

pub broadcast proof fn stopped_aligned(
    n: Run,
    t: Tensor,
    sizes: Seq<u32>,
    label: Seq<char>,
    as_float: Option<TrtDataType>,
    source: DataType,
)
    requires
        n.halt is Some,
    ensures
        (#[trigger] aligned(n, t, sizes, label, as_float, source)).0 == n,
{
    broadcast use {stopped_byte_values, stopped_with_axis, stopped_prepended, stopped_block_axes};

    reveal(aligned);
}

/// The least and the greatest value of a quantized type.
pub open spec fn quantized_range(t: DataType) -> Option<(Known, Known)> {
    match t {
        DataType::Int8 => Some((Known::Int8Min, Known::Int8Max)),
        DataType::Uint8 => Some((Known::Zero, Known::Uint8Max)),
        DataType::Int4 => Some((Known::MinusEight, Known::Seven)),
        DataType::Uint4 => Some((Known::Zero, Known::Fifteen)),
        DataType::Int32 => Some((Known::Int32Min, Known::Int32Max)),
        DataType::Uint32 => Some((Known::Zero, Known::Uint32Max)),
        _ => None,
    }
}

fn quantized_range_of(t: DataType) -> (r: Option<(Known, Known)>)
    ensures
        r == quantized_range(t),
{
    match t {
        DataType::Int8 => Some((Known::Int8Min, Known::Int8Max)),
        DataType::Uint8 => Some((Known::Zero, Known::Uint8Max)),
        DataType::Int4 => Some((Known::MinusEight, Known::Seven)),
        DataType::Uint4 => Some((Known::Zero, Known::Fifteen)),
        DataType::Int32 => Some((Known::Int32Min, Known::Int32Max)),
        DataType::Uint32 => Some((Known::Zero, Known::Uint32Max)),
        _ => None,
    }
}

/// A tensor in the type that a quantization is computed in.
#[verifier::opaque]
pub open spec fn in_type(n: Run, t: Tensor, ty: TrtDataType, what: Seq<char>) -> (Run, Tensor) {
    if n.dtype(t) == ty {
        (n, t)
    } else {
        n.cast(
            t,
            ty,
            "quantizeLinear manual "@ + what + " to compute fp: "@,
            "quantizeLinear manual "@ + what + " cast out: "@,
        )
    }
}

pub broadcast proof fn stopped_in_type(n: Run, t: Tensor, ty: TrtDataType, what: Seq<char>)
    requires
        n.halt is Some,
    ensures
        (#[trigger] in_type(n, t, ty, what)).0 == n,
{
    reveal(in_type);
}

/// Values clamped to the range of a quantized type.
#[verifier::opaque]
pub open spec fn clamped_to(
    n: Run,
    t: Tensor,
    ty: TrtDataType,
    range: (Known, Known),
) -> (Run, Tensor) {
    let (n, d) = n.dims(t, "quantizeLinear manual summed dimensions: "@);
    let n = n.reject_if(
        !is_float(ty),
        "quantizeLinear manual clamp: unsupported compute type "@ + trt_data_type_name(ty),
    );
    let shape = ones(d.len());
    let (n, least) = n.constant(
        shape,
        trt_float_bytes(known(range.0), ty),
        ty,
        "quantizeLinear manual qmin constant: "@,
        "quantizeLinear manual qmin output: "@,
    );
    let (n, greatest) = n.constant(
        shape,
        trt_float_bytes(known(range.1), ty),
        ty,
        "quantizeLinear manual qmax constant: "@,
        "quantizeLinear manual qmax output: "@,
    );
    let (n, t) = n.elementwise(
        t,
        least,
        ElementWiseOperation::kMAX,
        "quantizeLinear manual clamp max(qmin): "@,
        "quantizeLinear manual clamp lo output: "@,
    );
    n.elementwise(
        t,
        greatest,
        ElementWiseOperation::kMIN,
        "quantizeLinear manual clamp min(qmax): "@,
        "quantizeLinear manual clamp hi output: "@,
    )
}

pub broadcast proof fn stopped_clamped_to(n: Run, t: Tensor, ty: TrtDataType, range: (Known, Known))
    requires
        n.halt is Some,
    ensures
        (#[trigger] clamped_to(n, t, ty, range)).0 == n,
{
    reveal(clamped_to);
}

/// Quantization by single operations: `clamp(round(x / scale) + zero)`. Results of 32 bits are
/// computed in single precision.
#[verifier::opaque]
pub open spec fn quantized(
    n: Run,
    x: Tensor,
    scale: Tensor,
    zero: Tensor,
    float_ty: TrtDataType,
    out_ty: TrtDataType,
    out: DataType,
) -> (Run, Tensor) {
    let range = quantized_range(out);
    let n = n.reject_if(
        range is None,
        "quantizeLinear elementwise fallback: unsupported output dtype "@ + data_type_name(out),
    );
    let ty = if out == DataType::Int32 || out == DataType::Uint32 {
        TrtDataType::kFLOAT
    } else {
        float_ty
    };
    let (n, x) = with_axis(n, x, "quantizeLinear input"@);
    let (n, scale) = with_axis(n, scale, "quantizeLinear scale"@);
    let (n, zero) = with_axis(n, zero, "quantizeLinear zero_point"@);
    let (n, x) = in_type(n, x, ty, "input"@);
    let (n, scale) = in_type(n, scale, ty, "scale"@);
    let (n, zero) = in_type(n, zero, ty, "zero_point"@);
    let (n, t) = n.elementwise(
        x,
        scale,
        ElementWiseOperation::kDIV,
        "quantizeLinear manual div: "@,
        "quantizeLinear manual div output: "@,
    );
    let (n, t) = n.unary(
        t,
        UnaryOperation::kROUND,
        "quantizeLinear manual round: "@,
        "quantizeLinear manual round output: "@,
    );
    let (n, t) = n.elementwise(
        t,
        zero,
        ElementWiseOperation::kSUM,
        "quantizeLinear manual add zero_point: "@,
        "quantizeLinear manual add output: "@,
    );
    let (n, t) = clamped_to(n, t, ty, range->0);
    n.cast(t, out_ty, "quantizeLinear manual output cast: "@, "quantizeLinear manual output: "@)
}

pub broadcast proof fn stopped_quantized(
    n: Run,
    x: Tensor,
    scale: Tensor,
    zero: Tensor,
    float_ty: TrtDataType,
    out_ty: TrtDataType,
    out: DataType,
)
    requires
        n.halt is Some,
    ensures
        (#[trigger] quantized(n, x, scale, zero, float_ty, out_ty, out)).0 == n,
{
    broadcast use {stopped_with_axis, stopped_in_type, stopped_clamped_to};

    reveal(quantized);
}

/// The type and the bytes of the zero point that a quantization takes where none is given.
pub open spec fn zero_point_of(out: DataType) -> Option<(TrtDataType, Seq<u8>)> {
    match out {
        DataType::Int8 | DataType::Int4 => Some((TrtDataType::kINT8, seq![0u8])),
        DataType::Uint8 | DataType::Uint4 => Some((TrtDataType::kUINT8, seq![0u8])),
        DataType::Int32 | DataType::Uint32 => Some(
            (TrtDataType::kINT32, seq![0u8, 0u8, 0u8, 0u8]),
        ),
        _ => None,
    }
}

fn zero_bytes(n: usize) -> (v: Vec<u8>)
    ensures
        v@ == Seq::new(n as nat, |i: int| 0u8),
{
    let mut v: Vec<u8> = Vec::with_capacity(n);
    let mut i: usize = 0;
    while i < n
        invariant
            i <= n,
            v@ == Seq::new(i as nat, |k: int| 0u8),
        decreases n - i,
    {
        v.push(0);
        proof {
            assert(v@ =~= Seq::new((i + 1) as nat, |k: int| 0u8));
        }
        i = i + 1;
    }
    v
}

fn default_zero_point(out: DataType) -> (r: Option<(TrtDataType, Vec<u8>)>)
    ensures
        match r {
            Some((ty, bytes)) => zero_point_of(out) == Some((ty, bytes@)),
            None => zero_point_of(out) is None,
        },
{
    proof {
        assert(Seq::new(1, |i: int| 0u8) =~= seq![0u8]);
        assert(Seq::new(4, |i: int| 0u8) =~= seq![0u8, 0u8, 0u8, 0u8]);
    }
    match out {
        DataType::Int8 | DataType::Int4 => Some((TrtDataType::kINT8, zero_bytes(1))),
        DataType::Uint8 | DataType::Uint4 => Some((TrtDataType::kUINT8, zero_bytes(1))),
        DataType::Int32 | DataType::Uint32 => Some((TrtDataType::kINT32, zero_bytes(4))),
        _ => None,
    }
}

/// Whether TensorRT's quantization layer does not give results of the type.
pub open spec fn beyond_layer(t: DataType) -> bool {
    t == DataType::Uint8 || t == DataType::Int4 || t == DataType::Uint4 || t == DataType::Int32
        || t == DataType::Uint32
}

/// Whether a tensor is a scalar.
#[verifier::opaque]
pub open spec fn is_scalar(n: Run, t: Tensor) -> (Run, bool) {
    let (n, d) = n.dims(t, "tensor dimensions: "@);
    (n, d.len() == 0)
}

pub broadcast proof fn stopped_is_scalar(n: Run, t: Tensor)
    requires
        n.halt is Some,
    ensures
        (#[trigger] is_scalar(n, t)).0 == n,
{
    reveal(is_scalar);
}

/// The zero point of a quantization and the type of its operand: the given one, or a constant 0.
#[verifier::opaque]
pub open spec fn quantize_zero(
    n: Run,
    graph: GraphInfo,
    op: Operation,
    given: Tensor,
    out: DataType,
) -> (Run, (Tensor, DataType)) {
    if op.inputs@.len() > 2 {
        let (n, _) = n.operand(
            graph,
            op.inputs@[1],
            "quantizeLinear scale operand "@,
            " missing from graph"@,
        );
        let (n, z) = n.operand(
            graph,
            op.inputs@[2],
            "quantizeLinear zero_point operand "@,
            " missing from graph"@,
        );
        (n, (given, z.descriptor.data_type))
    } else {
        let (ty, bytes) = zero_point_of(out)->0;
        let (n, zero) = n.constant(
            ones(1),
            bytes,
            ty,
            "quantizeLinear default zero_point constant: "@,
            "quantizeLinear default zero_point output: "@,
        );
        let (n, _) = n.operand(
            graph,
            op.inputs@[1],
            "quantizeLinear scale operand "@,
            " missing from graph"@,
        );
        (n, (zero, out))
    }
}

pub broadcast proof fn stopped_quantize_zero(
    n: Run,
    graph: GraphInfo,
    op: Operation,
    given: Tensor,
    out: DataType,
)
    requires
        n.halt is Some,
    ensures
        (#[trigger] quantize_zero(n, graph, op, given, out)).0 == n,
{
    reveal(quantize_zero);
}

/// Quantization. TensorRT's layer is used where nothing is a scalar, there is no zero point and the
/// layer gives the type; otherwise it is put together from single operations.
pub open spec fn quantize_linear_op(
    n: Run,
    m: Map<u32, Tensor>,
    graph: GraphInfo,
    op: Operation,
) -> (Run, Map<u32, Tensor>) {
    let id = op.inputs@[0];
    let scale_id = op.inputs@[1];
    let third = op.inputs@.len() > 2;
    let (n, to) = n.operand(
        graph,
        op.outputs@[0],
        "quantizeLinear output operand "@,
        " not found"@,
    );
    let out = to.descriptor.data_type;
    let (n, from) = n.operand(graph, id, "quantizeLinear input operand "@, " not found"@);
    let float_ty = trt_type(from.descriptor.data_type);
    let n = n.reject_if(
        !is_float(float_ty),
        "quantizeLinear expects float16 or float32 input, got "@
            + data_type_name(from.descriptor.data_type),
    );
    let (n, x) = n.find(m, id, "Input operand "@, " not found"@);
    let (n, scalar_x) = is_scalar(n, x);
    let (n, scale) = n.find(m, scale_id, "Scale operand "@, " not found"@);
    let (n, scalar_scale) = is_scalar(n, scale);
    let (n, zero) = if third {
        n.find(m, op.inputs@[2], "Zero point operand "@, " not found"@)
    } else {
        (n, scale)
    };
    let (n, _) = if third {
        is_scalar(n, zero)
    } else {
        (n, false)
    };
    let sizes = max_sizes(from.descriptor.shape@);
    let (n, t) = if scalar_x || scalar_scale || third || beyond_layer(out) {
        let n = n.reject_if(
            !third && zero_point_of(out) is None,
            "quantizeLinear default zero point: unsupported output dtype "@ + data_type_name(out),
        );
        let (n, (zero, source)) = quantize_zero(n, graph, op, zero, out);
        let (n, scale) = aligned(n, scale, sizes, "quantizeLinear scale"@, None, DataType::Int8);
        let (n, zero) = aligned(
            n,
            zero,
            sizes,
            "quantizeLinear zero_point"@,
            Some(float_ty),
            source,
        );
        let (n, t) = quantized(n, x, scale, zero, float_ty, trt_type(out), out);
        if sizes.len() == 0 {
            n.reshape(
                t,
                zeros(0),
                "quantizeLinear scalar output shuffle: "@,
                "quantizeLinear scalar output reshape: "@,
                "quantizeLinear scalar shuffle output: "@,
            )
        } else {
            (n, t)
        }
    } else {
        let (n, x) = with_axis(n, x, "quantizeLinear input"@);
        let (n, scale) = with_axis(n, scale, "quantizeLinear scale"@);
        n.layer(
            RequestOf::AddQuantize { input: x, scale, dtype: trt_type(out) },
            "Failed to add quantize layer: "@,
            "Failed to get quantize output: "@,
        )
    };
    store(n, m, op.outputs@[0], t)
}

/// The TensorRT type of a floating-point WebNN type.
pub open spec fn float_only(t: DataType) -> Option<TrtDataType> {
    match t {
        DataType::Float32 => Some(TrtDataType::kFLOAT),
        DataType::Float16 => Some(TrtDataType::kHALF),
        _ => None,
    }
}

fn float_only_of(t: DataType) -> (r: Option<TrtDataType>)
    ensures
        r == float_only(t),
{
    match t {
        DataType::Float32 => Some(TrtDataType::kFLOAT),
        DataType::Float16 => Some(TrtDataType::kHALF),
        _ => None,
    }
}

/// The zero point of a dequantization as a tensor that can be cast. A scalar stays one where
/// everything is scalar.
#[verifier::opaque]
pub open spec fn dequantize_zero(
    n: Run,
    zero: Tensor,
    ty: TrtDataType,
    source: DataType,
    scalar: bool,
    rank: nat,
) -> (Run, Tensor) {
    if is_byte(n.dtype(zero)) {
        let (n, t) = byte_values(n, zero, ty, "dequantizeLinear zero_point"@, source);
        if scalar && rank == 0 {
            (n, t)
        } else {
            with_axis(n, t, "dequantizeLinear zero_point"@)
        }
    } else {
        let (n, flat) = if scalar && rank == 0 {
            is_scalar(n, zero)
        } else {
            (n, false)
        };
        if flat {
            n.identity(
                zero,
                "dequantizeLinear zero_point identity: "@,
                "dequantizeLinear zero_point identity output: "@,
            )
        } else {
            with_axis(n, zero, "dequantizeLinear zero_point"@)
        }
    }
}

pub broadcast proof fn stopped_dequantize_zero(
    n: Run,
    zero: Tensor,
    ty: TrtDataType,
    source: DataType,
    scalar: bool,
    rank: nat,
)
    requires
        n.halt is Some,
    ensures
        (#[trigger] dequantize_zero(n, zero, ty, source, scalar, rank)).0 == n,
{
    broadcast use {stopped_byte_values, stopped_with_axis, stopped_is_scalar};

    reveal(dequantize_zero);
}

/// Dequantization: `x * scale - zero * scale`.
pub open spec fn dequantize_linear_op(
    n: Run,
    m: Map<u32, Tensor>,
    graph: GraphInfo,
    op: Operation,
) -> (Run, Map<u32, Tensor>) {
    let id = op.inputs@[0];
    let scale_id = op.inputs@[1];
    let (n, to) = n.operand(
        graph,
        op.outputs@[0],
        "dequantizeLinear output operand "@,
        " not found"@,
    );
    let out_ty = float_only(to.descriptor.data_type);
    let n = n.reject_if(
        out_ty is None,
        "dequantizeLinear expects float16 or float32 output, got "@
            + data_type_name(to.descriptor.data_type),
    );
    let (n, from) = n.operand(graph, id, "dequantizeLinear input operand "@, " not found"@);
    let (n, by) = n.operand(graph, scale_id, "dequantizeLinear scale operand "@, " not found"@);
    let float_ty = float_only(by.descriptor.data_type);
    let n = n.reject_if(
        float_ty is None,
        "dequantizeLinear expects float16 or float32 scale, got "@
            + data_type_name(by.descriptor.data_type),
    );
    let (n, x) = n.find(m, id, "Input operand "@, " not found"@);
    let (n, scale) = n.find(m, scale_id, "Scale operand "@, " not found"@);
    let (n, dx) = n.dims(x, "dequantizeLinear input dimensions: "@);
    let (n, ds) = n.dims(scale, "dequantizeLinear scale dimensions: "@);
    let declared = from.descriptor.shape@.len() == 0 && by.descriptor.shape@.len() == 0;
    let scalar = declared || (dx.len() == 0 && ds.len() == 0);
    let (n, x) = if scalar {
        (n, x)
    } else {
        with_axis(n, x, "dequantizeLinear input"@)
    };
    let (n, scale) = if scalar {
        (n, scale)
    } else {
        with_axis(n, scale, "dequantizeLinear scale"@)
    };
    let (n, t) = n.dequantize(
        x,
        scale,
        out_ty->0,
        "Failed to add dequantize layer: "@,
        "Failed to get dequantize output: "@,
    );
    let (n, t) = if op.inputs@.len() > 2 {
        let (n, zero) = n.find(m, op.inputs@[2], "Zero point operand "@, " not found"@);
        let (n, z) = n.operand(
            graph,
            op.inputs@[2],
            "dequantizeLinear zero_point operand "@,
            " not in graph"@,
        );
        let (n, zero) = dequantize_zero(
            n,
            zero,
            float_ty->0,
            z.descriptor.data_type,
            scalar,
            z.descriptor.shape@.len(),
        );
        let (n, zero) = n.cast(
            zero,
            float_ty->0,
            "dequantizeLinear zero_point cast: "@,
            "dequantizeLinear zero_point cast output: "@,
        );
        let (n, shift) = n.elementwise(
            zero,
            scale,
            ElementWiseOperation::kPROD,
            "dequantizeLinear zero_point * scale: "@,
            "dequantizeLinear zero_point * scale output: "@,
        );
        n.elementwise(
            t,
            shift,
            ElementWiseOperation::kSUB,
            "dequantizeLinear subtract zp*scale: "@,
            "dequantizeLinear corrected output: "@,
        )
    } else {
        (n, t)
    };
    store(n, m, op.outputs@[0], t)
}

pub broadcast group group_quantize_stopped {
    stopped_truth_constant,
    stopped_bytes_to_float,
    stopped_floats_to_int32,
    stopped_with_axis,
    stopped_prepended,
    stopped_unsigned_reading,
    stopped_byte_values,
    stopped_block_part,
    stopped_block_parts,
    stopped_block_axis,
    stopped_block_axes,
    stopped_aligned,
    stopped_in_type,
    stopped_clamped_to,
    stopped_quantized,
    stopped_is_scalar,
    stopped_quantize_zero,
    stopped_dequantize_zero,
}

impl TrtxConverter {
    /// Adds the truth values of a constant operand of bytes as a constant.
    pub fn truth_constant(net: &mut Network, id: u32, sizes: &Vec<u32>) -> (r: Result<Tensor, Halt>)
        ensures
            gives(final(net)@, r, truth_constant(old(net)@, id, sizes@)),
    {
        proof {
            reveal(truth_constant);
            broadcast use group_quantize_stopped;

        }
        let at: usize = net.ask(
            Request::ConstantData { operand: id },
            say("Operand ").num32(id).str(" is not a constant: ").text.as_str(),
        )?;
        let data = net.bytes(at);
        let shape = as_dims_vec(sizes);
        let count: usize = elements_of(&shape)?;
        net.constant(
            shape,
            truth_bytes_of(&data, count),
            TrtDataType::kBOOL,
            "LogicalNot: failed to add BOOL constant: ",
            "LogicalNot: BOOL constant output: ",
        )
    }

    /// Adds a logical negation.
    pub fn add_logical_not_op(
        graph: &GraphInfo,
        net: &mut Network,
        tensors: &mut TensorMap,
        operation: &Operation,
    ) -> (r: Result<(), Halt>)
        requires
            operation.inputs@.len() >= 1,
            operation.outputs@.len() >= 1,
        ensures
            does(
                final(net)@,
                r,
                final(tensors)@,
                logical_not_op(old(net)@, old(tensors)@, *graph, *operation),
            ),
    {
        proof {
            broadcast use group_quantize_stopped;

        }
        let id: u32 = operation.inputs[0];
        let x = tensors.find(id, "Input operand ", " not found")?;
        let t = if graph.constant_operand_ids_to_handles.contains_key(&id) {
            let o = find_operand(graph, id, "Operand ", " not in graph")?;
            if o.descriptor.data_type == DataType::Uint8 || o.descriptor.data_type == DataType::Int8 {
                Self::truth_constant(net, id, &o.descriptor.static_or_max_shape())?
            } else {
                Self::cast_to_bool(net, x)?
            }
        } else {
            Self::cast_to_bool(net, x)?
        };
        let t = net.unary(
            t,
            UnaryOperation::kNOT,
            "Failed to add logical NOT: ",
            "Failed to get layer output: ",
        )?;
        let t = Self::cast_to_float32(net, t)?;
        tensors.insert(operation.outputs[0], t);
        Ok(())
    }

    /// Turns a tensor of bytes into `f32` values.
    pub fn bytes_to_float(
        net: &mut Network,
        x: Tensor,
        sizes: &Vec<u32>,
        shuffle_name: &str,
        purpose: &str,
        dequantize_name: &str,
    ) -> (r: Result<Tensor, Halt>)
        ensures
            gives(
                final(net)@,
                r,
                bytes_to_float(old(net)@, x, sizes@, shuffle_name@, purpose@, dequantize_name@),
            ),
    {
        proof {
            reveal(bytes_to_float);
            broadcast use group_quantize_stopped;

            assert(zeros(0) =~= Seq::<i64>::empty());
        }
        let l: usize = net.ask(
            Request::AddShuffle { input: x },
            "Cast: failed to add reshape shuffle: ",
        )?;
        net.tell(Request::SetLayerName { layer: Layer { id: l }, name: shuffle_name.to_owned() })?;
        net.ask(
            Request::SetReshapeDimensions { layer: Layer { id: l }, dims: as_dims_vec(sizes) },
            "Cast: failed to set reshape dimensions: ",
        )?;
        let t = net.output(l, "Cast: failed to get reshape output: ")?;
        net.tell(Request::SetTensorName { tensor: t, name: "cast_flat_reshape_4d".to_owned() })?;
        let scale = net.constant(
            Vec::new(),
            le4_bytes(Known::One.scalar().single),
            TrtDataType::kFLOAT,
            say(purpose).str(": ").text.as_str(),
            say(purpose).str(": get scale output: ").text.as_str(),
        )?;
        let l: usize = net.ask(
            Request::AddDequantize { input: t, scale, dtype: TrtDataType::kFLOAT },
            say("Failed to add dequantize for ").str(purpose).str(": ").text.as_str(),
        )?;
        net.tell(
            Request::SetLayerName { layer: Layer { id: l }, name: dequantize_name.to_owned() },
        )?;
        let t = net.output(l, "Failed to get dequantize output: ")?;
        net.tell(Request::SetTensorName { tensor: t, name: dequantize_name.to_owned() })?;
        Ok(t)
    }

    /// Turns a tensor of `f32` values into 32-bit integers.
    pub fn floats_to_int32(net: &mut Network, t: Tensor) -> (r: Result<Tensor, Halt>)
        ensures
            gives(final(net)@, r, floats_to_int32(old(net)@, t)),
    {
        proof {
            reveal(floats_to_int32);
            broadcast use group_quantize_stopped;

        }
        let l: usize = net.ask(
            Request::AddCast { input: t, dtype: TrtDataType::kINT32 },
            "Failed to add cast to INT32: ",
        )?;
        net.tell(
            Request::SetLayerName { layer: Layer { id: l }, name: "cast_flat_cast_int32".to_owned(
            ) },
        )?;
        let t = net.output(l, "Failed to get cast output: ")?;
        net.tell(Request::SetTensorName { tensor: t, name: "cast_flat_cast_int32".to_owned() })?;
        Ok(t)
    }

    /// Adds a cast. `promoted` holds the constants that were promoted to 32-bit integers.
    pub fn add_cast_op(
        graph: &GraphInfo,
        net: &mut Network,
        tensors: &mut TensorMap,
        operation: &Operation,
        promoted: &HashSet<u32>,
    ) -> (r: Result<(), Halt>)
        requires
            operation.inputs@.len() >= 1,
        ensures
            does(
                final(net)@,
                r,
                final(tensors)@,
                cast_op(old(net)@, old(tensors)@, *graph, *operation, promoted@),
            ),
    {
        proof {
            broadcast use group_quantize_stopped;

        }
        let id: u32 = operation.inputs[0];
        let x = tensors.find(id, "Cast input operand ", " not found")?;
        if operation.outputs.len() == 0 {
            return Err(say("Cast operation has no output").halt());
        }
        let output: u32 = operation.outputs[0];
        let to = find_operand(graph, output, "Cast output operand ", " not found in graph")?;
        let from = find_operand(graph, id, "Cast input operand ", " not found in graph")?;
        let byte = from.descriptor.data_type == DataType::Int8 || from.descriptor.data_type == DataType::Uint8;
        let target = to.descriptor.data_type;
        let sizes = from.descriptor.static_or_max_shape();
        let t = if byte && target == DataType::Int32 && promoted.contains(&id) {
            net.identity(
                x,
                "Failed to add identity for promoted scalar cast: ",
                "Failed to get identity output: ",
            )?
        } else {
            net.dims(x, "Cast: failed to get input dimensions: ")?;
            if byte && target == DataType::Float32 {
                Self::bytes_to_float(
                    net,
                    x,
                    &sizes,
                    "cast_flat_reshape_4d",
                    "int8->float32 cast",
                    "cast_flat_dq_f32",
                )?
            } else if byte && target == DataType::Int32 {
                let t = Self::bytes_to_float(
                    net,
                    x,
                    &sizes,
                    "cast_flat_reshape_4d_int32",
                    "int8->int32 cast",
                    "cast_flat_dq_int32",
                )?;
                Self::floats_to_int32(net, t)?
            } else {
                net.cast(
                    x,
                    trt_type_of(target),
                    "Failed to add cast layer: ",
                    "Failed to get cast output: ",
                )?
            }
        };
        tensors.insert(output, t);
        Ok(())
    }

    /// Gives a scalar an axis.
    pub fn trtx_qdq_ensure_rank1(
        net: &mut Network,
        t: Tensor,
        label: &str,
    ) -> (r: Result<Tensor, Halt>)
        ensures
            gives(final(net)@, r, with_axis(old(net)@, t, label@)),
    {
        proof {
            reveal(with_axis);
            broadcast use group_quantize_stopped;

        }
        let d = net.dims(t, say(label).str(": dimensions: ").text.as_str())?;
        if d.len() == 0 {
            net.reshape(
                t,
                ones_vec(1),
                say(label).str(": rank-1 shuffle: ").text.as_str(),
                say(label).str(": reshape [1]: ").text.as_str(),
                say(label).str(": shuffle output: ").text.as_str(),
            )
        } else {
            net.identity(
                t,
                say(label).str(": identity: ").text.as_str(),
                say(label).str(": identity output: ").text.as_str(),
            )
        }
    }

    /// Puts ones before the dimensions of a tensor.
    pub fn trtx_prepend_ones_to_trt_rank(
        net: &mut Network,
        t: Tensor,
        rank: usize,
        label: &str,
    ) -> (r: Result<Tensor, Halt>)
        ensures
            gives(final(net)@, r, prepended(old(net)@, t, rank as nat, label@)),
    {
        proof {
            reveal(prepended);
            broadcast use group_quantize_stopped;

        }
        let d = net.dims(t, say(label).str(": prepend dimensions: ").text.as_str())?;
        if d.len() == rank {
            net.identity(
                t,
                say(label).str(": prepend identity: ").text.as_str(),
                say(label).str(": prepend identity output: ").text.as_str(),
            )
        } else {
            if d.len() > rank {
                return Err(
                    say(label).str(": tensor rank ").num(d.len()).str(" exceeds target rank ")
                        .num(rank).halt(),
                );
            }
            net.reshape(
                t,
                left_padded_vec(&d, rank),
                say(label).str(": prepend shuffle: ").text.as_str(),
                say(label).str(": prepend reshape: ").text.as_str(),
                say(label).str(": prepend shuffle output: ").text.as_str(),
            )
        }
    }

    /// Raises the negative values by 256.
    pub fn trtx_int8_dq_reinterpret_uint8_storage(
        net: &mut Network,
        t: Tensor,
        ty: TrtDataType,
        label: &str,
    ) -> (r: Result<Tensor, Halt>)
        ensures
            gives(final(net)@, r, unsigned_reading(old(net)@, t, ty, label@)),
    {
        proof {
            reveal(unsigned_reading);
            broadcast use group_quantize_stopped;

        }
        let d = net.dims(t, say(label).str(" uint8 storage fix dimensions: ").text.as_str())?;
        if !(ty == TrtDataType::kFLOAT || ty == TrtDataType::kHALF) {
            return Err(say(label).str(" uint8 storage fix: expected float DQ output").halt());
        }
        let shape = ones_vec(d.len());
        let zero = net.constant(
            copy_i64(&shape),
            trt_float_bytes_of(Known::Zero.scalar(), ty),
            ty,
            say(label).str(" uint8 zp fix zero: ").text.as_str(),
            say(label).str(" uint8 zp fix zero out: ").text.as_str(),
        )?;
        let wrap = net.constant(
            copy_i64(&shape),
            trt_float_bytes_of(Known::TwoFiftySix.scalar(), ty),
            ty,
            say(label).str(" uint8 zp fix 256: ").text.as_str(),
            say(label).str(" uint8 zp fix 256 out: ").text.as_str(),
        )?;
        let less = net.elementwise(
            t,
            zero,
            ElementWiseOperation::kLESS,
            say(label).str(" uint8 zp fix less0: ").text.as_str(),
            say(label).str(" uint8 zp fix less0 out: ").text.as_str(),
        )?;
        let negative = Self::cast_to_bool(net, less)?;
        let shifted = net.elementwise(
            t,
            wrap,
            ElementWiseOperation::kSUM,
            say(label).str(" uint8 zp fix +256: ").text.as_str(),
            say(label).str(" uint8 zp fix +256 out: ").text.as_str(),
        )?;
        net.select(
            negative,
            shifted,
            t,
            say(label).str(" uint8 zp fix select: ").text.as_str(),
            say(label).str(" uint8 zp fix select out: ").text.as_str(),
        )
    }

    /// Turns bytes into floating-point values.
    pub fn trtx_int8_uint8_identity_dequantize(
        net: &mut Network,
        t: Tensor,
        ty: TrtDataType,
        label: &str,
        source: DataType,
    ) -> (r: Result<Tensor, Halt>)
        ensures
            gives(final(net)@, r, byte_values(old(net)@, t, ty, label@, source)),
    {
        proof {
            reveal(byte_values);
            broadcast use group_quantize_stopped;

            assert(zeros(0) =~= Seq::<i64>::empty());
        }
        let from = net.dtype(t);
        if !(ty == TrtDataType::kFLOAT || ty == TrtDataType::kHALF) {
            return Err(
                say(label).str(
                    " identity DQ expects kFLOAT/kHALF output, got ",
                ).str(ty.name()).halt(),
            );
        }
        let scale = net.constant(
            Vec::new(),
            trt_float_bytes_of(Known::One.scalar(), ty),
            ty,
            say(label).str(" identity DQ scale constant: ").text.as_str(),
            say(label).str(" identity DQ scale tensor: ").text.as_str(),
        )?;
        let t = net.dequantize(
            t,
            scale,
            ty,
            say(label).str(" identity DQ: ").text.as_str(),
            say(label).str(" identity DQ output: ").text.as_str(),
        )?;
        if source == DataType::Uint8 && from == TrtDataType::kINT8 {
            Self::trtx_int8_dq_reinterpret_uint8_storage(net, t, ty, label)
        } else if source == DataType::Uint8 && from == TrtDataType::kUINT8 {
            let d = net.dims(t, say(label).str(" kUINT8 DQ+128 dimensions: ").text.as_str())?;
            let bias = net.constant(
                ones_vec(d.len()),
                trt_float_bytes_of(Known::OneTwentyEight.scalar(), ty),
                ty,
                say(label).str(" kUINT8 +128 bias: ").text.as_str(),
                say(label).str(" kUINT8 +128 tensor: ").text.as_str(),
            )?;
            net.elementwise(
                t,
                bias,
                ElementWiseOperation::kSUM,
                say(label).str(" kUINT8 +128 sum: ").text.as_str(),
                say(label).str(" kUINT8 +128 output: ").text.as_str(),
            )
        } else {
            Ok(t)
        }
    }

    /// Repeats one slab.
    pub fn block_part(
        net: &mut Network,
        x: Tensor,
        d: &Vec<i64>,
        axis: usize,
        k: usize,
        times: i64,
        label: &str,
    ) -> (r: Result<Tensor, Halt>)
        requires
            axis < d@.len(),
        ensures
            gives(
                final(net)@,
                r,
                block_part(old(net)@, x, d@, axis as nat, k as nat, times, label@),
            ),
    {
        proof {
            reveal(block_part);
            broadcast use group_quantize_stopped;

        }
        let place = say(" ax=").num(axis).str(" k=").num(k).str(": ").text;
        let t = Self::slab(
            net,
            x,
            d,
            axis,
            k as i64,
            say(label).str(": block tile slice").str(place.as_str()).text.as_str(),
            say(label).str(": block tile slice output").str(place.as_str()).text.as_str(),
        )?;
        let mut v: Vec<Tensor> = Vec::new();
        push_copies(&mut v, t, times);
        proof {
            assert(v@ =~= copies(t, times));
        }
        net.concat(
            v,
            axis as i32,
            say(label).str(": block tile dup concat").str(place.as_str()).text.as_str(),
            say(label).str(": block tile dup out").str(place.as_str()).text.as_str(),
        )
    }

    /// Repeats each of the first `count` slabs of `x` along `axis`.
    fn repeat_slabs(
        net: &mut Network,
        x: Tensor,
        d: &Vec<i64>,
        axis: usize,
        count: usize,
        times: i64,
        label: &str,
    ) -> (r: Result<Vec<Tensor>, Halt>)
        requires
            axis < d@.len(),
        ensures
            outcome(final(net)@, r) == block_parts(
                old(net)@,
                x,
                d@,
                axis as nat,
                count as nat,
                times,
                label@,
            ).0,
            r matches Ok(v) ==> v@ == block_parts(
                old(net)@,
                x,
                d@,
                axis as nat,
                count as nat,
                times,
                label@,
            ).1,
    {
        let ghost start = net@;
        let mut parts: Vec<Tensor> = Vec::new();
        let mut k: usize = 0;
        while k < count
            invariant
                k <= count,
                axis < d@.len(),
                start == old(net)@,
                (net@, parts@) == block_parts(start, x, d@, axis as nat, k as nat, times, label@),
            decreases count - k,
        {
            match Self::block_part(net, x, d, axis, k, times, label) {
                Ok(t) => {
                    parts.push(t);
                },
                Err(h) => {
                    proof {
                        block_parts_stay(
                            start,
                            x,
                            d@,
                            axis as nat,
                            (k + 1) as nat,
                            count as nat,
                            times,
                            label@,
                        );
                    }
                    return Err(h);
                },
            }
            k = k + 1;
        }
        Ok(parts)
    }

    /// Stretches one axis by repeating each slab in place.
    pub fn block_axis(
        net: &mut Network,
        t: Tensor,
        axis: usize,
        target: u32,
        label: &str,
    ) -> (r: Result<Tensor, Halt>)
        ensures
            gives(final(net)@, r, block_axis(old(net)@, t, axis as nat, target, label@)),
    {
        proof {
            reveal(block_axis);
            broadcast use group_quantize_stopped;

        }
        let d = net.dims(t, say(label).str(": block tile cur dimensions: ").text.as_str())?;
        if axis >= d.len() {
            return Err(HaltOf::OutOfRange);
        }
        let p: i64 = d[axis];
        if p == target as i64 {
            return Ok(t);
        }
        if p <= 0 || target as i64 % p != 0 {
            return Err(
                say(label).str(": block tile ax=").num(axis).str(": dim ").signed(p)
                    .str(" cannot expand to ").num32(target).halt(),
            );
        }
        let times: i64 = target as i64 / p;
        if times <= 1 {
            return Ok(t);
        }
        proof {
            block_count_fits(target as int, p as int);
        }
        let parts = Self::repeat_slabs(net, t, &d, axis, p as usize, times, label)?;
        net.concat(
            parts,
            axis as i32,
            say(label).str(": block tile merge concat ax=").num(axis).str(": ").text.as_str(),
            say(label).str(": block tile merge out ax=").num(axis).str(": ").text.as_str(),
        )
    }

    /// Stretches all axes to the given sizes.
    fn block_all_axes(net: &mut Network, t: Tensor, sizes: &Vec<u32>, label: &str) -> (r: Result<
        Tensor,
        Halt,
    >)
        ensures
            gives(final(net)@, r, block_axes(old(net)@, t, sizes@, sizes@.len(), label@)),
    {
        let ghost start = net@;
        let mut cur = t;
        let mut k: usize = 0;
        while k < sizes.len()
            invariant
                k <= sizes.len(),
                start == old(net)@,
                (net@, cur) == block_axes(start, t, sizes@, k as nat, label@),
            decreases sizes.len() - k,
        {
            match Self::block_axis(net, cur, k, sizes[k], label) {
                Ok(next) => {
                    cur = next;
                },
                Err(h) => {
                    proof {
                        block_axes_stay(
                            start,
                            t,
                            sizes@,
                            (k + 1) as nat,
                            sizes@.len(),
                            label@,
                        );
                    }
                    return Err(h);
                },
            }
            k = k + 1;
        }
        Ok(cur)
    }

    /// Brings a scale or a zero point to the rank of the input, and its blocks to the sizes of the
    /// input.
    pub fn trtx_align_quantize_param_for_elementwise(
        net: &mut Network,
        t: Tensor,
        sizes: &Vec<u32>,
        label: &str,
        as_float: Option<TrtDataType>,
        source: DataType,
    ) -> (r: Result<Tensor, Halt>)
        ensures
            gives(final(net)@, r, aligned(old(net)@, t, sizes@, label@, as_float, source)),
    {
        proof {
            reveal(aligned);
            broadcast use group_quantize_stopped;

        }
        let dtype = net.dtype(t);
        let t = if let Some(ty) = as_float {
            if dtype == TrtDataType::kINT8 || dtype == TrtDataType::kUINT8 {
                Self::trtx_int8_uint8_identity_dequantize(net, t, ty, label, source)?
            } else {
                t
            }
        } else {
            t
        };
        let t = Self::trtx_qdq_ensure_rank1(net, t, label)?;
        if sizes.len() == 0 {
            return Ok(t);
        }
        let t = Self::trtx_prepend_ones_to_trt_rank(net, t, sizes.len(), label)?;
        let d = net.dims(t, say(label).str(": aligned param dimensions: ").text.as_str())?;
        let own = as_sizes_vec(&d);
        if crate::graph::same_ids(&own, sizes) || broadcasts_to(&own, sizes) {
            return Ok(t);
        }
        if !fills_up(&own, sizes) {
            return Err(
                say(label).str(": shape ").list32(&own).str(
                    " is not broadcastable or block-tileable to input ",
                ).list32(sizes).halt(),
            );
        }
        Self::block_all_axes(net, t, sizes, label)
    }

    /// Casts a tensor to the type that a quantization is computed in.
    pub fn in_type(
        net: &mut Network,
        t: Tensor,
        ty: TrtDataType,
        what: &str,
    ) -> (r: Result<Tensor, Halt>)
        ensures
            gives(final(net)@, r, in_type(old(net)@, t, ty, what@)),
    {
        proof {
            reveal(in_type);
            broadcast use group_quantize_stopped;

        }
        if net.dtype(t) == ty {
            Ok(t)
        } else {
            net.cast(
                t,
                ty,
                say("quantizeLinear manual ").str(what).str(" to compute fp: ").text.as_str(),
                say("quantizeLinear manual ").str(what).str(" cast out: ").text.as_str(),
            )
        }
    }

    /// Clamps values to the range of a quantized type.
    pub fn clamped_to(
        net: &mut Network,
        t: Tensor,
        ty: TrtDataType,
        range: (Known, Known),
    ) -> (r: Result<Tensor, Halt>)
        ensures
            gives(final(net)@, r, clamped_to(old(net)@, t, ty, range)),
    {
        proof {
            reveal(clamped_to);
            broadcast use group_quantize_stopped;

        }
        let d = net.dims(t, "quantizeLinear manual summed dimensions: ")?;
        if !(ty == TrtDataType::kFLOAT || ty == TrtDataType::kHALF) {
            return Err(
                say("quantizeLinear manual clamp: unsupported compute type ").str(ty.name()).halt(),
            );
        }
        let shape = ones_vec(d.len());
        let least = net.constant(
            copy_i64(&shape),
            trt_float_bytes_of(range.0.scalar(), ty),
            ty,
            "quantizeLinear manual qmin constant: ",
            "quantizeLinear manual qmin output: ",
        )?;
        let greatest = net.constant(
            copy_i64(&shape),
            trt_float_bytes_of(range.1.scalar(), ty),
            ty,
            "quantizeLinear manual qmax constant: ",
            "quantizeLinear manual qmax output: ",
        )?;
        let t = net.elementwise(
            t,
            least,
            ElementWiseOperation::kMAX,
            "quantizeLinear manual clamp max(qmin): ",
            "quantizeLinear manual clamp lo output: ",
        )?;
        net.elementwise(
            t,
            greatest,
            ElementWiseOperation::kMIN,
            "quantizeLinear manual clamp min(qmax): ",
            "quantizeLinear manual clamp hi output: ",
        )
    }

    /// Adds a quantization by single operations.
    pub fn add_quantize_linear_elementwise_manual(
        net: &mut Network,
        x: Tensor,
        scale: Tensor,
        zero: Tensor,
        float_ty: TrtDataType,
        out_ty: TrtDataType,
        out: DataType,
    ) -> (r: Result<Tensor, Halt>)
        ensures
            gives(final(net)@, r, quantized(old(net)@, x, scale, zero, float_ty, out_ty, out)),
    {
        proof {
            reveal(quantized);
            broadcast use group_quantize_stopped;

        }
        let range = match quantized_range_of(out) {
            Some(range) => range, None => {
                return Err(
                    say(
                        "quantizeLinear elementwise fallback: unsupported output dtype ",
                    ).str(out.name()).halt(),
                );
            },
        };
        let ty = if out == DataType::Int32 || out == DataType::Uint32 {
            TrtDataType::kFLOAT
        } else {
            float_ty
        };
        let x = Self::trtx_qdq_ensure_rank1(net, x, "quantizeLinear input")?;
        let scale = Self::trtx_qdq_ensure_rank1(net, scale, "quantizeLinear scale")?;
        let zero = Self::trtx_qdq_ensure_rank1(net, zero, "quantizeLinear zero_point")?;
        let x = Self::in_type(net, x, ty, "input")?;
        let scale = Self::in_type(net, scale, ty, "scale")?;
        let zero = Self::in_type(net, zero, ty, "zero_point")?;
        let t = net.elementwise(
            x,
            scale,
            ElementWiseOperation::kDIV,
            "quantizeLinear manual div: ",
            "quantizeLinear manual div output: ",
        )?;
        let t = net.unary(
            t,
            UnaryOperation::kROUND,
            "quantizeLinear manual round: ",
            "quantizeLinear manual round output: ",
        )?;
        let t = net.elementwise(
            t,
            zero,
            ElementWiseOperation::kSUM,
            "quantizeLinear manual add zero_point: ",
            "quantizeLinear manual add output: ",
        )?;
        let t = Self::clamped_to(net, t, ty, range)?;
        net.cast(t, out_ty, "quantizeLinear manual output cast: ", "quantizeLinear manual output: ")
    }

    /// Whether a tensor is a scalar.
    pub fn trtx_tensor_dims_empty(net: &Network, t: Tensor) -> (r: Result<bool, Halt>)
        ensures
            outcome(net@, r) == is_scalar(net@, t).0,
            r matches Ok(v) ==> v == is_scalar(net@, t).1,
    {
        proof {
            reveal(is_scalar);
            broadcast use group_quantize_stopped;

        }
        let d = net.dims(t, "tensor dimensions: ")?;
        Ok(d.len() == 0)
    }

    /// The zero point of a quantization and the type of its operand.
    pub fn quantize_zero(
        net: &mut Network,
        graph: &GraphInfo,
        op: &Operation,
        given: Tensor,
        out: DataType,
    ) -> (r: Result<(Tensor, DataType), Halt>)
        requires
            op.inputs@.len() >= 2,
            op.inputs@.len() == 2 ==> zero_point_of(out) is Some,
        ensures
            gives(final(net)@, r, quantize_zero(old(net)@, *graph, *op, given, out)),
    {
        proof {
            reveal(quantize_zero);
            broadcast use group_quantize_stopped;

        }
        if op.inputs.len() > 2 {
            find_operand(
                graph,
                op.inputs[1],
                "quantizeLinear scale operand ",
                " missing from graph",
            )?;
            let z = find_operand(
                graph,
                op.inputs[2],
                "quantizeLinear zero_point operand ",
                " missing from graph",
            )?;
            return Ok((given, z.descriptor.data_type));
        }
        match default_zero_point(out) {
            Some((ty, bytes)) => {
                let zero = net.constant(
                    ones_vec(1),
                    bytes,
                    ty,
                    "quantizeLinear default zero_point constant: ",
                    "quantizeLinear default zero_point output: ",
                )?;
                find_operand(
                    graph,
                    op.inputs[1],
                    "quantizeLinear scale operand ",
                    " missing from graph",
                )?;
                Ok((zero, out))
            }
            , None => Ok((given, out)),
        }
    }

    /// Adds a quantization.
    pub fn add_quantize_linear_op(
        graph: &GraphInfo,
        net: &mut Network,
        tensors: &mut TensorMap,
        operation: &Operation,
    ) -> (r: Result<(), Halt>)
        requires
            operation.inputs@.len() >= 2,
            operation.outputs@.len() >= 1,
        ensures
            does(
                final(net)@,
                r,
                final(tensors)@,
                quantize_linear_op(old(net)@, old(tensors)@, *graph, *operation),
            ),
    {
        proof {
            broadcast use group_quantize_stopped;

            assert(zeros(0) =~= Seq::<i64>::empty());
        }
        let id: u32 = operation.inputs[0];
        let scale_id: u32 = operation.inputs[1];
        let third = operation.inputs.len() > 2;
        let to = find_operand(
            graph,
            operation.outputs[0],
            "quantizeLinear output operand ",
            " not found",
        )?;
        let out = to.descriptor.data_type;
        let from = find_operand(graph, id, "quantizeLinear input operand ", " not found")?;
        let float_ty = trt_type_of(from.descriptor.data_type);
        if !(float_ty == TrtDataType::kFLOAT || float_ty == TrtDataType::kHALF) {
            return Err(
                say(
                    "quantizeLinear expects float16 or float32 input, got ",
                ).str(from.descriptor.data_type.name()).halt(),
            );
        }
        let x = tensors.find(id, "Input operand ", " not found")?;
        let scalar_x = Self::trtx_tensor_dims_empty(net, x)?;
        let scale = tensors.find(scale_id, "Scale operand ", " not found")?;
        let scalar_scale = Self::trtx_tensor_dims_empty(net, scale)?;
        let zero = if third {
            tensors.find(operation.inputs[2], "Zero point operand ", " not found")?
        } else {
            scale
        };
        if third {
            Self::trtx_tensor_dims_empty(net, zero)?;
        }
        let sizes = from.descriptor.static_or_max_shape();
        let beyond = matches!(
            out,
            DataType::Uint8 | DataType::Int4 | DataType::Uint4 | DataType::Int32 | DataType::Uint32,
        );
        let t = if scalar_x || scalar_scale || third || beyond {
            if !third && default_zero_point(out).is_none() {
                return Err(
                    say(
                        "quantizeLinear default zero point: unsupported output dtype ",
                    ).str(out.name()).halt(),
                );
            }
            let (zero, source) = Self::quantize_zero(net, graph, operation, zero, out)?;
            let scale = Self::trtx_align_quantize_param_for_elementwise(
                net,
                scale,
                &sizes,
                "quantizeLinear scale",
                None,
                DataType::Int8,
            )?;
            let zero = Self::trtx_align_quantize_param_for_elementwise(
                net,
                zero,
                &sizes,
                "quantizeLinear zero_point",
                Some(float_ty),
                source,
            )?;
            let t = Self::add_quantize_linear_elementwise_manual(
                net,
                x,
                scale,
                zero,
                float_ty,
                trt_type_of(out),
                out,
            )?;
            if sizes.len() == 0 {
                net.reshape(
                    t,
                    Vec::new(),
                    "quantizeLinear scalar output shuffle: ",
                    "quantizeLinear scalar output reshape: ",
                    "quantizeLinear scalar shuffle output: ",
                )?
            } else {
                t
            }
        } else {
            let x = Self::trtx_qdq_ensure_rank1(net, x, "quantizeLinear input")?;
            let scale = Self::trtx_qdq_ensure_rank1(net, scale, "quantizeLinear scale")?;
            net.layer(
                Request::AddQuantize { input: x, scale, dtype: trt_type_of(out) },
                "Failed to add quantize layer: ",
                "Failed to get quantize output: ",
            )?
        };
        tensors.insert(operation.outputs[0], t);
        Ok(())
    }

    /// Brings the zero point of a dequantization to a form that can be cast.
    pub fn dequantize_zero(
        net: &mut Network,
        zero: Tensor,
        ty: TrtDataType,
        source: DataType,
        scalar: bool,
        rank: usize,
    ) -> (r: Result<Tensor, Halt>)
        ensures
            gives(
                final(net)@,
                r,
                dequantize_zero(old(net)@, zero, ty, source, scalar, rank as nat),
            ),
    {
        proof {
            reveal(dequantize_zero);
            broadcast use group_quantize_stopped;

        }
        let dtype = net.dtype(zero);
        if dtype == TrtDataType::kINT8 || dtype == TrtDataType::kUINT8 {
            let t = Self::trtx_int8_uint8_identity_dequantize(
                net,
                zero,
                ty,
                "dequantizeLinear zero_point",
                source,
            )?;
            if scalar && rank == 0 {
                Ok(t)
            } else {
                Self::trtx_qdq_ensure_rank1(net, t, "dequantizeLinear zero_point")
            }
        } else {
            let flat = if scalar && rank == 0 {
                Self::trtx_tensor_dims_empty(net, zero)?
            } else {
                false
            };
            if flat {
                net.identity(
                    zero,
                    "dequantizeLinear zero_point identity: ",
                    "dequantizeLinear zero_point identity output: ",
                )
            } else {
                Self::trtx_qdq_ensure_rank1(net, zero, "dequantizeLinear zero_point")
            }
        }
    }

    /// Adds a dequantization.
    pub fn add_dequantize_linear_op(
        graph: &GraphInfo,
        net: &mut Network,
        tensors: &mut TensorMap,
        operation: &Operation,
    ) -> (r: Result<(), Halt>)
        requires
            operation.inputs@.len() >= 2,
            operation.outputs@.len() >= 1,
        ensures
            does(
                final(net)@,
                r,
                final(tensors)@,
                dequantize_linear_op(old(net)@, old(tensors)@, *graph, *operation),
            ),
    {
        proof {
            broadcast use group_quantize_stopped;

        }
        let id: u32 = operation.inputs[0];
        let scale_id: u32 = operation.inputs[1];
        let to = find_operand(
            graph,
            operation.outputs[0],
            "dequantizeLinear output operand ",
            " not found",
        )?;
        let out_ty = match float_only_of(to.descriptor.data_type) {
            Some(ty) => ty, None => {
                return Err(
                    say(
                        "dequantizeLinear expects float16 or float32 output, got ",
                    ).str(to.descriptor.data_type.name()).halt(),
                );
            },
        };
        let from = find_operand(graph, id, "dequantizeLinear input operand ", " not found")?;
        let by = find_operand(graph, scale_id, "dequantizeLinear scale operand ", " not found")?;
        let float_ty = match float_only_of(by.descriptor.data_type) {
            Some(ty) => ty, None => {
                return Err(
                    say(
                        "dequantizeLinear expects float16 or float32 scale, got ",
                    ).str(by.descriptor.data_type.name()).halt(),
                );
            },
        };
        let x = tensors.find(id, "Input operand ", " not found")?;
        let scale = tensors.find(scale_id, "Scale operand ", " not found")?;
        let dx = net.dims(x, "dequantizeLinear input dimensions: ")?;
        let ds = net.dims(scale, "dequantizeLinear scale dimensions: ")?;
        let declared = from.descriptor.shape.len() == 0 && by.descriptor.shape.len() == 0;
        let scalar = declared || (dx.len() == 0 && ds.len() == 0);
        let x = if scalar {
            x
        } else {
            Self::trtx_qdq_ensure_rank1(net, x, "dequantizeLinear input")?
        };
        let scale = if scalar {
            scale
        } else {
            Self::trtx_qdq_ensure_rank1(net, scale, "dequantizeLinear scale")?
        };
        let t = net.dequantize(
            x,
            scale,
            out_ty,
            "Failed to add dequantize layer: ",
            "Failed to get dequantize output: ",
        )?;
        let t = if operation.inputs.len() > 2 {
            let zero = tensors.find(operation.inputs[2], "Zero point operand ", " not found")?;
            let z = find_operand(
                graph,
                operation.inputs[2],
                "dequantizeLinear zero_point operand ",
                " not in graph",
            )?;
            let zero = Self::dequantize_zero(
                net,
                zero,
                float_ty,
                z.descriptor.data_type,
                scalar,
                z.descriptor.shape.len(),
            )?;
            let zero = net.cast(
                zero,
                float_ty,
                "dequantizeLinear zero_point cast: ",
                "dequantizeLinear zero_point cast output: ",
            )?;
            let shift = net.elementwise(
                zero,
                scale,
                ElementWiseOperation::kPROD,
                "dequantizeLinear zero_point * scale: ",
                "dequantizeLinear zero_point * scale output: ",
            )?;
            net.elementwise(
                t,
                shift,
                ElementWiseOperation::kSUB,
                "dequantizeLinear subtract zp*scale: ",
                "dequantizeLinear corrected output: ",
            )?
        } else {
            t
        };
        tensors.insert(operation.outputs[0], t);
        Ok(())
    }
}

} // verus!
