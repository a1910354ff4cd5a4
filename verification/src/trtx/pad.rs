//! Padding with a constant, with the edge, and by reflection.

use crate::operator_options::{FloatReading, MLPadOptions};
use crate::operators::{Operation, OperationKind};
use crate::scalar::{
    le2, le2_bytes, le4, le4_bytes, le8, le8_bytes, magnitude, magnitude_of, repeat_bytes,
    repeated, Known,
};
use crate::text::{
    ascii_lowercase, debug_quoted, decimal, quoted, same_ignoring_case, say, signed_decimal,
};
use crate::trtx::broadcast::{left_padded, left_padded_vec, ones, ones_vec, zeros, zeros_vec};
use crate::trtx::numbers::{pad_number, special, special_reading};
use crate::trtx::session::{
    does, gives, group_stopped, outcome, store, Halt, HaltOf, Network, Run, TensorMap,
};
use crate::trtx::shapes::{elements, elements_of, with_entry};
use crate::trtx::steps::group_layers_stopped;
use crate::trtx::types::{trt_data_type_name, Tensor, TrtDataType};
use crate::trtx::TrtxConverter;
use vstd::prelude::*;

verus! {

broadcast use {group_stopped, group_layers_stopped};

/// What a tensor is padded with.
#[derive(Clone, Copy, PartialEq, Eq, Structural, Debug)]
pub enum PadMode {
    /// One value.
    Constant,
    /// The first and the last element along the axis.
    Edge,
    /// The elements next to the first and the last, mirrored.
    Reflect,
}

/// The mode that a word names, whatever the case of its letters.
pub open spec fn pad_mode(mode: Seq<char>) -> Option<PadMode> {
    let word = ascii_lowercase(mode);
    if word.len() == 0 || word == "constant"@ {
        Some(PadMode::Constant)
    } else if word == "edge"@ {
        Some(PadMode::Edge)
    } else if word == "reflection"@ || word == "reflect"@ {
        Some(PadMode::Reflect)
    } else {
        None
    }
}

fn pad_mode_of(mode: &str) -> (r: Option<PadMode>)
    ensures
        r == pad_mode(mode@),
{
    if mode.unicode_len() == 0 || same_ignoring_case(mode, "constant") {
        Some(PadMode::Constant)
    } else if same_ignoring_case(mode, "edge") {
        Some(PadMode::Edge)
    } else if same_ignoring_case(mode, "reflection") || same_ignoring_case(mode, "reflect") {
        Some(PadMode::Reflect)
    } else {
        None
    }
}

/// The bytes of one element of the given type that holds the number. Types without such bytes are
/// not filled.
pub open spec fn fill_bytes(fill: FloatReading, t: TrtDataType) -> Option<Seq<u8>> {
    match t {
        TrtDataType::kFLOAT => Some(le4(fill.bits.single)),
        TrtDataType::kHALF => Some(le2(fill.bits.half)),
        TrtDataType::kINT32 => Some(le4(fill.to_i32 as u32)),
        TrtDataType::kINT64 => Some(le8(fill.to_i64 as u64)),
        TrtDataType::kINT8 => Some(seq![fill.to_i8 as u8]),
        TrtDataType::kUINT8 | TrtDataType::kBOOL => Some(
            seq![
                if is_zero(fill) {
                    0u8
                } else {
                    1u8
                },
            ],
        ),
        _ => None,
    }
}

/// Whether the number is 0, of either sign.
pub open spec fn is_zero(x: FloatReading) -> bool {
    magnitude(x.bits.single) == 0
}

fn is_zero_reading(x: &FloatReading) -> (b: bool)
    ensures
        b == is_zero(*x),
{
    magnitude_of(x.bits.single) == 0
}

fn one_byte(b: u8) -> (v: Vec<u8>)
    ensures
        v@ == seq![b],
{
    let mut v: Vec<u8> = Vec::with_capacity(1);
    v.push(b);
    assert(v@ =~= seq![b]);
    v
}

fn fill_bytes_of(fill: &FloatReading, t: TrtDataType) -> (r: Option<Vec<u8>>)
    ensures
        match r {
            Some(v) => fill_bytes(*fill, t) == Some(v@),
            None => fill_bytes(*fill, t) is None,
        },
{
    match t {
        TrtDataType::kFLOAT => Some(le4_bytes(fill.bits.single)),
        TrtDataType::kHALF => Some(le2_bytes(fill.bits.half)),
        TrtDataType::kINT32 => Some(le4_bytes(fill.to_i32 as u32)),
        TrtDataType::kINT64 => Some(le8_bytes(fill.to_i64 as u64)),
        TrtDataType::kINT8 => Some(one_byte(fill.to_i8 as u8)),
        TrtDataType::kUINT8 | TrtDataType::kBOOL => Some(
            one_byte(
                if is_zero_reading(fill) {
                    0
                } else {
                    1
                },
            ),
        ),
        _ => None,
    }
}

/// The dimensions with 0 in place of what is negative.
pub open spec fn not_below_zero(dims: Seq<i64>) -> Seq<i64> {
    dims.map_values(
        |d: i64|
            if d < 0 {
                0i64
            } else {
                d
            },
    )
}

pub fn not_below_zero_vec(dims: &Vec<i64>) -> (v: Vec<i64>)
    ensures
        v@ == not_below_zero(dims@),
{
    let mut v: Vec<i64> = Vec::with_capacity(dims.len());
    let mut i: usize = 0;
    while i < dims.len()
        invariant
            i <= dims.len(),
            v@.len() == i,
            forall|k: int| 0 <= k < i ==> #[trigger] v@[k] == not_below_zero(dims@)[k],
        decreases dims.len() - i,
    {
        if dims[i] < 0 {
            v.push(0);
        } else {
            v.push(dims[i]);
        }
        i = i + 1;
    }
    assert(v@ =~= not_below_zero(dims@));
    v
}

/// `count` times the same tensor, none where it is negative.
pub open spec fn copies(t: Tensor, count: i64) -> Seq<Tensor> {
    Seq::new(
        if count < 0 {
            0
        } else {
            count as nat
        },
        |i: int| t,
    )
}

pub fn push_copies(v: &mut Vec<Tensor>, t: Tensor, count: i64)
    ensures
        final(v)@ == old(v)@ + copies(t, count),
{
    let mut i: i64 = 0;
    let ghost start = v@;
    while i < count
        invariant
            0 <= i,
            count >= 0 ==> i <= count,
            count < 0 ==> i == 0,
            v@ == start + copies(t, i),
        decreases count - i,
    {
        v.push(t);
        proof {
            assert(start + copies(t, (i + 1) as i64) =~= (start + copies(t, i)).push(t));
        }
        i = i + 1;
    }
    proof {
        assert(copies(t, i) =~= copies(t, count));
    }
}

/// A constant tensor of the dimensions of `d`, but for `extent` along `axis`, filled with `unit`.
#[verifier::opaque]
pub open spec fn filler(
    n: Run,
    d: Seq<i64>,
    axis: nat,
    extent: i32,
    unit: Seq<u8>,
    dtype: TrtDataType,
) -> (Run, Tensor) {
    let shape = d.update(axis as int, extent as i64);
    let (n, count) = elements(n, not_below_zero(shape));
    n.constant(
        shape,
        repeated(unit, count),
        dtype,
        "Pad concat: constant: "@,
        "Pad concat: constant output: "@,
    )
}

pub broadcast proof fn stopped_filler(
    n: Run,
    d: Seq<i64>,
    axis: nat,
    extent: i32,
    unit: Seq<u8>,
    dtype: TrtDataType,
)
    requires
        n.halt is Some,
    ensures
        (#[trigger] filler(n, d, axis, extent, unit, dtype)).0 == n,
{
    reveal(filler);
}

/// A tensor padded along one axis with a constant, by concatenation.
#[verifier::opaque]
pub open spec fn pad_axis_constant(
    n: Run,
    x: Tensor,
    axis: nat,
    pre: i32,
    post: i32,
    fill: FloatReading,
) -> (Run, Tensor) {
    if pre <= 0 && post <= 0 {
        n.identity(x, "Pad concat: identity: "@, "Pad concat: identity output: "@)
    } else {
        let (n, d) = n.dims(x, "Pad concat: dimensions: "@);
        let n = n.reject_if(
            axis >= d.len(),
            "Pad concat: axis "@ + decimal(axis) + " >= rank "@ + decimal(d.len()),
        );
        let dtype = n.dtype(x);
        let n = n.reject_if(
            fill_bytes(fill, dtype) is None,
            "Pad concat: unsupported TensorRT dtype for constant fill: "@
                + trt_data_type_name(dtype),
        );
        let unit = fill_bytes(fill, dtype)->0;
        let (n, before) = if pre > 0 {
            let (n, t) = filler(n, d, axis, pre, unit, dtype);
            (n, seq![t])
        } else {
            (n, seq![])
        };
        let (n, after) = if post > 0 {
            let (n, t) = filler(n, d, axis, post, unit, dtype);
            (n, seq![t])
        } else {
            (n, seq![])
        };
        n.concat(
            before.push(x) + after,
            axis as i32,
            "Pad concat: concat: "@,
            "Pad concat: concat out: "@,
        )
    }
}

pub broadcast proof fn stopped_pad_axis_constant(
    n: Run,
    x: Tensor,
    axis: nat,
    pre: i32,
    post: i32,
    fill: FloatReading,
)
    requires
        n.halt is Some,
    ensures
        (#[trigger] pad_axis_constant(n, x, axis, pre, post, fill)).0 == n,
{
    broadcast use {stopped_filler};

    reveal(pad_axis_constant);
}

/// The slab of `x` at `at` along `axis`, one element thick.
#[verifier::opaque]
pub open spec fn slab(
    n: Run,
    x: Tensor,
    d: Seq<i64>,
    axis: nat,
    at: i64,
    add_label: Seq<char>,
    output_label: Seq<char>,
) -> (Run, Tensor) {
    n.slice(
        x,
        zeros(d.len()).update(axis as int, at),
        d.update(axis as int, 1),
        ones(d.len()),
        add_label,
        output_label,
    )
}

pub broadcast proof fn stopped_slab(
    n: Run,
    x: Tensor,
    d: Seq<i64>,
    axis: nat,
    at: i64,
    add_label: Seq<char>,
    output_label: Seq<char>,
)
    requires
        n.halt is Some,
    ensures
        (#[trigger] slab(n, x, d, axis, at, add_label, output_label)).0 == n,
{
    reveal(slab);
}

/// A tensor padded along one axis with copies of its first and its last slab.
#[verifier::opaque]
pub open spec fn pad_axis_edge(n: Run, x: Tensor, axis: nat, pre: i32, post: i32) -> (Run, Tensor) {
    if pre <= 0 && post <= 0 {
        n.identity(x, "Pad edge: identity: "@, "Pad edge: identity output: "@)
    } else {
        let (n, d) = n.dims(x, "Pad edge: dimensions: "@);
        let n = n.reject_if(
            axis >= d.len(),
            "Pad edge: axis "@ + decimal(axis) + " >= rank "@ + decimal(d.len()),
        );
        let extent = d[axis as int];
        let n = n.reject_if(
            extent <= 0,
            "Pad edge: non-positive dim "@ + signed_decimal(extent as int) + " on axis "@
                + decimal(axis),
        );
        let (n, first) = slab(
            n,
            x,
            d,
            axis,
            0,
            "Pad edge: left slice: "@,
            "Pad edge: left slice output: "@,
        );
        let (n, last) = slab(
            n,
            x,
            d,
            axis,
            (extent - 1) as i64,
            "Pad edge: right slice: "@,
            "Pad edge: right slice output: "@,
        );
        n.concat(
            copies(first, pre as i64).push(x) + copies(last, post as i64),
            axis as i32,
            "Pad edge: concat: "@,
            "Pad edge: concat out: "@,
        )
    }
}

pub broadcast proof fn stopped_pad_axis_edge(n: Run, x: Tensor, axis: nat, pre: i32, post: i32)
    requires
        n.halt is Some,
    ensures
        (#[trigger] pad_axis_edge(n, x, axis, pre, post)).0 == n,
{
    broadcast use {stopped_slab};

    reveal(pad_axis_edge);
}

/// The slabs of `x` along `axis` at the first `k` of the given positions.
pub open spec fn slabs(
    n: Run,
    x: Tensor,
    d: Seq<i64>,
    axis: nat,
    positions: Seq<i64>,
    k: nat,
    add_label: Seq<char>,
    output_label: Seq<char>,
) -> (Run, Seq<Tensor>)
    decreases k,
{
    if k == 0 {
        (n, seq![])
    } else {
        let (n, cut) = slabs(
            n,
            x,
            d,
            axis,
            positions,
            (k - 1) as nat,
            add_label,
            output_label,
        );
        let (n, t) = slab(n, x, d, axis, positions[k - 1], add_label, output_label);
        (n, cut.push(t))
    }
}

/// Once the cutting of slabs has stopped, it stays so.
proof fn slabs_stay(
    n: Run,
    x: Tensor,
    d: Seq<i64>,
    axis: nat,
    positions: Seq<i64>,
    k: nat,
    more: nat,
    add_label: Seq<char>,
    output_label: Seq<char>,
)
    requires
        k <= more,
        slabs(n, x, d, axis, positions, k, add_label, output_label).0.halt is Some,
    ensures
        slabs(n, x, d, axis, positions, more, add_label, output_label).0 == slabs(
            n,
            x,
            d,
            axis,
            positions,
            k,
            add_label,
            output_label,
        ).0,
    decreases more - k,
{
    broadcast use stopped_slab;

    if k < more {
        slabs_stay(n, x, d, axis, positions, k, (more - 1) as nat, add_label, output_label);
    }
}

/// A conversation that has stopped cuts no slabs.
pub broadcast proof fn stopped_slabs(
    n: Run,
    x: Tensor,
    d: Seq<i64>,
    axis: nat,
    positions: Seq<i64>,
    k: nat,
    add_label: Seq<char>,
    output_label: Seq<char>,
)
    requires
        n.halt is Some,
    ensures
        (#[trigger] slabs(n, x, d, axis, positions, k, add_label, output_label)).0 == n,
    decreases k,
{
    broadcast use stopped_slab;

    if k > 0 {
        stopped_slabs(n, x, d, axis, positions, (k - 1) as nat, add_label, output_label);
    }
}

/// The positions that reflect the start of an axis, farthest first: `pre`, and so on down to 1.
pub open spec fn mirror_before(pre: i32) -> Seq<i64> {
    Seq::new(
        if pre < 0 {
            0
        } else {
            pre as nat
        },
        |i: int| (pre - i) as i64,
    )
}

/// The positions that reflect the end of an axis, nearest first.
pub open spec fn mirror_after(extent: i64, post: i32) -> Seq<i64> {
    Seq::new(
        if post < 0 {
            0
        } else {
            post as nat
        },
        |i: int| (extent - 2 - i) as i64,
    )
}

/// The positions of a reflection lie inside the axis, and none is the edge that is reflected in.
pub proof fn reflection_stays_inside(extent: i64, pre: i32, post: i32, i: int)
    requires
        0 < extent,
        pre < extent,
        post < extent,
    ensures
        0 <= i < mirror_before(pre).len() ==> 0 < mirror_before(pre)[i] < extent,
        0 <= i < mirror_after(extent, post).len() ==> 0 <= mirror_after(extent, post)[i] < extent
            - 1,
{
}

fn mirror_before_vec(pre: i32) -> (v: Vec<i64>)
    ensures
        v@ == mirror_before(pre),
{
    let mut v: Vec<i64> = Vec::new();
    let mut i: i32 = 0;
    while i < pre
        invariant
            0 <= i,
            pre >= 0 ==> i <= pre,
            pre < 0 ==> i == 0,
            v@.len() == i,
            forall|k: int| 0 <= k < i ==> #[trigger] v@[k] == (pre - k) as i64,
        decreases pre - i,
    {
        v.push((pre - i) as i64);
        i = i + 1;
    }
    assert(v@ =~= mirror_before(pre));
    v
}

fn mirror_after_vec(extent: i64, post: i32) -> (v: Vec<i64>)
    requires
        0 < extent,
        post < extent,
    ensures
        v@ == mirror_after(extent, post),
{
    let mut v: Vec<i64> = Vec::new();
    let mut i: i32 = 0;
    while i < post
        invariant
            0 <= i,
            0 < extent,
            post < extent,
            post >= 0 ==> i <= post,
            post < 0 ==> i == 0,
            v@.len() == i,
            forall|k: int| 0 <= k < i ==> #[trigger] v@[k] == (extent - 2 - k) as i64,
        decreases post - i,
    {
        v.push(extent - 2 - i as i64);
        i = i + 1;
    }
    assert(v@ =~= mirror_after(extent, post));
    v
}

/// A tensor padded along one axis with the mirror image of what lies next to its edges. The padding
/// must be shorter than the axis.
#[verifier::opaque]
pub open spec fn pad_axis_reflect(
    n: Run,
    x: Tensor,
    axis: nat,
    pre: i32,
    post: i32,
) -> (Run, Tensor) {
    if pre <= 0 && post <= 0 {
        n.identity(x, "Pad reflect: identity: "@, "Pad reflect: identity output: "@)
    } else {
        let (n, d) = n.dims(x, "Pad reflect: dimensions: "@);
        let n = n.reject_if(
            axis >= d.len(),
            "Pad reflect: axis "@ + decimal(axis) + " >= rank "@ + decimal(d.len()),
        );
        let extent = d[axis as int];
        let n = n.reject_if(
            extent <= 0,
            "Pad reflect: non-positive dim "@ + signed_decimal(extent as int) + " on axis "@
                + decimal(axis),
        );
        let n = n.reject_if(
            pre >= extent || post >= extent,
            "Pad reflect: axis "@ + decimal(axis) + " dim "@ + signed_decimal(extent as int)
                + " requires pre/post padding each < dim (got pre="@ + signed_decimal(pre as int)
                + " post="@ + signed_decimal(post as int) + ")"@,
        );
        let before = mirror_before(pre);
        let after = mirror_after(extent, post);
        let (n, left) = slabs(
            n,
            x,
            d,
            axis,
            before,
            before.len(),
            "Pad reflect: pre slice: "@,
            "Pad reflect: pre slice out: "@,
        );
        let (n, right) = slabs(
            n,
            x,
            d,
            axis,
            after,
            after.len(),
            "Pad reflect: post slice: "@,
            "Pad reflect: post slice out: "@,
        );
        n.concat(
            left.push(x) + right,
            axis as i32,
            "Pad reflect: concat: "@,
            "Pad reflect: concat out: "@,
        )
    }
}

pub broadcast proof fn stopped_pad_axis_reflect(n: Run, x: Tensor, axis: nat, pre: i32, post: i32)
    requires
        n.halt is Some,
    ensures
        (#[trigger] pad_axis_reflect(n, x, axis, pre, post)).0 == n,
{
    broadcast use {stopped_slabs};

    reveal(pad_axis_reflect);
}

proof fn seq_facts()
    ensures
        forall|s: Seq<Tensor>| #[trigger] (Seq::<Tensor>::empty() + s) == s,
{
    assert forall|s: Seq<Tensor>| #[trigger] (Seq::<Tensor>::empty() + s) == s by {
        assert(Seq::<Tensor>::empty() + s =~= s);
    }
}

/// A tensor padded along one axis.
#[verifier::opaque]
pub open spec fn pad_axis(
    n: Run,
    x: Tensor,
    axis: nat,
    pre: i32,
    post: i32,
    mode: PadMode,
    fill: FloatReading,
) -> (Run, Tensor) {
    if pre == 0 && post == 0 {
        (n, x)
    } else if mode == PadMode::Edge {
        pad_axis_edge(n, x, axis, pre, post)
    } else if mode == PadMode::Reflect {
        pad_axis_reflect(n, x, axis, pre, post)
    } else {
        pad_axis_constant(n, x, axis, pre, post, fill)
    }
}

pub broadcast proof fn stopped_pad_axis(
    n: Run,
    x: Tensor,
    axis: nat,
    pre: i32,
    post: i32,
    mode: PadMode,
    fill: FloatReading,
)
    requires
        n.halt is Some,
    ensures
        (#[trigger] pad_axis(n, x, axis, pre, post, mode, fill)).0 == n,
{
    broadcast use {stopped_pad_axis_edge, stopped_pad_axis_reflect, stopped_pad_axis_constant};

    reveal(pad_axis);
}

/// A tensor padded along the first `k` of its axes, one after the other.
pub open spec fn pad_axes(
    n: Run,
    x: Tensor,
    pre: Seq<i32>,
    post: Seq<i32>,
    k: nat,
    mode: PadMode,
    fill: FloatReading,
) -> (Run, Tensor)
    decreases k,
{
    if k == 0 {
        (n, x)
    } else {
        let (n, t) = pad_axes(n, x, pre, post, (k - 1) as nat, mode, fill);
        pad_axis(n, t, (k - 1) as nat, pre[k - 1], post[k - 1], mode, fill)
    }
}

/// Once the padding of axes has stopped, it stays so.
proof fn pad_axes_stay(
    n: Run,
    x: Tensor,
    pre: Seq<i32>,
    post: Seq<i32>,
    k: nat,
    more: nat,
    mode: PadMode,
    fill: FloatReading,
)
    requires
        k <= more,
        pad_axes(n, x, pre, post, k, mode, fill).0.halt is Some,
    ensures
        pad_axes(n, x, pre, post, more, mode, fill).0 == pad_axes(
            n,
            x,
            pre,
            post,
            k,
            mode,
            fill,
        ).0,
    decreases more - k,
{
    broadcast use stopped_pad_axis;

    if k < more {
        pad_axes_stay(n, x, pre, post, k, (more - 1) as nat, mode, fill);
    }
}

/// A conversation that has stopped pads nothing.
pub broadcast proof fn stopped_pad_axes(
    n: Run,
    x: Tensor,
    pre: Seq<i32>,
    post: Seq<i32>,
    k: nat,
    mode: PadMode,
    fill: FloatReading,
)
    requires
        n.halt is Some,
    ensures
        (#[trigger] pad_axes(n, x, pre, post, k, mode, fill)).0 == n,
    decreases k,
{
    broadcast use stopped_pad_axis;

    if k > 0 {
        stopped_pad_axes(n, x, pre, post, (k - 1) as nat, mode, fill);
    }
}

/// The numbers of a list, each read as `i32`.
pub open spec fn as_signed(v: Seq<u32>) -> Seq<i32> {
    v.map_values(|u: u32| u as i32)
}

pub fn as_signed_vec(v: &Vec<u32>) -> (r: Vec<i32>)
    ensures
        r@ == as_signed(v@),
{
    let mut r: Vec<i32> = Vec::with_capacity(v.len());
    let mut i: usize = 0;
    while i < v.len()
        invariant
            i <= v.len(),
            r@.len() == i,
            forall|k: int| 0 <= k < i ==> #[trigger] r@[k] == as_signed(v@)[k],
        decreases v.len() - i,
    {
        r.push(v[i] as i32);
        i = i + 1;
    }
    assert(r@ =~= as_signed(v@));
    r
}

/// Whether none of the first `k` axes is padded.
pub open spec fn unpadded(pre: Seq<i32>, post: Seq<i32>, k: int) -> bool {
    forall|i: int| 0 <= i < k ==> #[trigger] pre[i] == 0 && post[i] == 0
}

fn is_unpadded(pre: &Vec<i32>, post: &Vec<i32>, k: usize) -> (b: bool)
    requires
        k <= pre@.len(),
        pre@.len() == post@.len(),
    ensures
        b == unpadded(pre@, post@, k as int),
{
    let mut i: usize = 0;
    while i < k
        invariant
            i <= k <= pre@.len(),
            pre@.len() == post@.len(),
            unpadded(pre@, post@, i as int),
        decreases k - i,
    {
        if pre[i] != 0 || post[i] != 0 {
            assert(!(pre@[i as int] == 0 && post@[i as int] == 0));
            return false;
        }
        proof {
            assert forall|j: int| 0 <= j < i + 1 implies #[trigger] pre@[j] == 0 && post@[j] == 0 by {
                assert(j < i || j == i);
            }
        }
        i = i + 1;
    }
    true
}

/// The paddings of the last two axes, with 0 for an axis that is not there.
pub open spec fn last_two(p: Seq<i32>) -> (i64, i64) {
    (
        if p.len() >= 2 {
            p[p.len() - 2] as i64
        } else {
            0
        },
        if p.len() >= 1 {
            p.last() as i64
        } else {
            0
        },
    )
}

fn last_two_of(p: &Vec<i32>) -> (r: (i64, i64))
    ensures
        r == last_two(p@),
{
    let n: usize = p.len();
    (
        if n >= 2 {
            p[n - 2] as i64
        } else {
            0
        },
        if n >= 1 {
            p[n - 1] as i64
        } else {
            0
        },
    )
}

/// The extent of one axis after padding.
pub open spec fn padded_extent(d: i64, pre: i32, post: i32) -> int {
    d + pre + post
}

/// The dimensions after padding, where each fits in 64 bits.
pub open spec fn padded_dims(d: Seq<i64>, pre: Seq<i32>, post: Seq<i32>) -> Option<Seq<i64>> {
    if forall|i: int|
        0 <= i < d.len() ==> i64::MIN <= #[trigger] padded_extent(d[i], pre[i], post[i])
            <= i64::MAX {
        Some(Seq::new(d.len(), |i: int| padded_extent(d[i], pre[i], post[i]) as i64))
    } else {
        None
    }
}

fn padded_dims_of(d: &Vec<i64>, pre: &Vec<i32>, post: &Vec<i32>) -> (r: Option<Vec<i64>>)
    requires
        pre@.len() == d@.len(),
        post@.len() == d@.len(),
    ensures
        match r {
            Some(v) => padded_dims(d@, pre@, post@) == Some(v@),
            None => padded_dims(d@, pre@, post@) is None,
        },
{
    let mut v: Vec<i64> = Vec::with_capacity(d.len());
    let mut i: usize = 0;
    while i < d.len()
        invariant
            i <= d.len(),
            pre@.len() == d@.len(),
            post@.len() == d@.len(),
            v@.len() == i,
            forall|k: int|
                0 <= k < i ==> i64::MIN <= #[trigger] padded_extent(d@[k], pre@[k], post@[k])
                    <= i64::MAX && v@[k] == padded_extent(d@[k], pre@[k], post@[k]),
        decreases d.len() - i,
    {
        let extent: i128 = d[i] as i128 + pre[i] as i128 + post[i] as i128;
        assert(extent == padded_extent(d@[i as int], pre@[i as int], post@[i as int]));
        if extent < i64::MIN as i128 || extent > i64::MAX as i128 {
            return None;
        }
        v.push(extent as i64);
        i = i + 1;
    }
    proof {
        assert(v@ =~= Seq::new(
            d@.len(),
            |k: int| padded_extent(d@[k], pre@[k], post@[k]) as i64,
        ));
    }
    Some(v)
}

/// The paddings of a padding before and after each axis.
pub open spec fn pad_amounts(kind: OperationKind) -> (Seq<i32>, Seq<i32>) {
    match kind {
        OperationKind::Pad { beginning_padding, ending_padding, .. } => (
            as_signed(beginning_padding@),
            as_signed(ending_padding@),
        ),
        _ => (seq![], seq![]),
    }
}

/// The options of a padding.
pub open spec fn pad_options(kind: OperationKind) -> Option<MLPadOptions> {
    match kind {
        OperationKind::Pad { options, .. } => options,
        _ => None,
    }
}

/// The number that a padding fills with, 0 where the options give none.
pub open spec fn pad_fill(o: MLPadOptions) -> FloatReading {
    match o.value {
        Some(v) => match pad_number(v) {
            Some(x) => x,
            None => special(Known::Zero),
        },
        None => special(Known::Zero),
    }
}

fn pad_fill_of(o: &MLPadOptions) -> (x: FloatReading)
    ensures
        x == pad_fill(*o),
{
    match &o.value {
        Some(v) => match TrtxConverter::pad_mlnumber_to_f32(v) {
            Some(x) => x,
            None => special_reading(Known::Zero),
        },
        None => special_reading(Known::Zero),
    }
}

/// A tensor padded with zeros along its last two axes by a padding layer, which takes four axes or
/// more.
#[verifier::opaque]
pub open spec fn pad_last_axes(
    n: Run,
    x: Tensor,
    d: Seq<i64>,
    pre: Seq<i32>,
    post: Seq<i32>,
) -> (Run, Tensor) {
    let rank = d.len();
    let (n, t) = if rank < 4 {
        n.reshape(
            x,
            left_padded(d, 4),
            "Failed to create reshape layer for padding: "@,
            "Failed to set reshape dimensions: "@,
            "Failed to get reshape output: "@,
        )
    } else {
        n.identity(x, "Failed to create identity layer: "@, "Failed to get identity output: "@)
    };
    let (n, t) = n.padding(
        t,
        last_two(pre),
        last_two(post),
        "Failed to add padding layer: "@,
        "Failed to get padding output: "@,
    );
    if rank < 4 {
        let shape = padded_dims(d, pre, post);
        let n = if shape is Some {
            n
        } else {
            n.stop(HaltOf::OutOfRange)
        };
        n.reshape(
            t,
            shape->0,
            "Failed to create reshape-back layer: "@,
            "Failed to set reshape-back dimensions: "@,
            "Failed to get reshape-back output: "@,
        )
    } else {
        (n, t)
    }
}

pub broadcast proof fn stopped_pad_last_axes(
    n: Run,
    x: Tensor,
    d: Seq<i64>,
    pre: Seq<i32>,
    post: Seq<i32>,
)
    requires
        n.halt is Some,
    ensures
        (#[trigger] pad_last_axes(n, x, d, pre, post)).0 == n,
{
    reveal(pad_last_axes);
}

/// Padding. Zeros along the last two axes alone take a padding layer; anything else is put together
/// axis by axis.
pub open spec fn pad_op(n: Run, m: Map<u32, Tensor>, op: Operation) -> (Run, Map<u32, Tensor>) {
    let (n, x) = n.find(m, op.inputs@[0], "Input operand "@, " not found"@);
    let n = n.reject_if(!(op.kind is Pad), "expected Pad operation"@);
    let n = n.reject_if(pad_options(op.kind) is None, "Pad operation missing options"@);
    let options = pad_options(op.kind)->0;
    let (pre, post) = pad_amounts(op.kind);
    let (n, d) = n.dims(x, "Failed to get input dimensions: "@);
    let n = n.reject_if(
        pre.len() != post.len(),
        "Pad: beginningPadding len "@ + decimal(pre.len()) + " != endingPadding len "@
            + decimal(post.len()),
    );
    let n = n.reject_if(
        pre.len() != d.len(),
        "Pad: padding length "@ + decimal(pre.len()) + " does not match input rank "@
            + decimal(d.len()),
    );
    let mode = pad_mode(options.mode@);
    let fill = pad_fill(options);
    let (n, t) = if unpadded(pre, post, pre.len() as int) {
        n.identity(x, "Pad no-op: failed to add identity: "@, "Pad no-op: identity output: "@)
    } else {
        let n = n.reject_if(
            mode is None,
            "Pad: TensorRT pad supports constant, edge, and reflection mode (got "@
                + debug_quoted(options.mode@) + ")"@,
        );
        if mode == Some(PadMode::Constant) && is_zero(fill) && unpadded(pre, post, pre.len() - 2) {
            pad_last_axes(n, x, d, pre, post)
        } else {
            pad_axes(n, x, pre, post, pre.len(), mode->0, fill)
        }
    };
    store(n, m, op.outputs@[0], t)
}

pub broadcast group group_pad_stopped {
    stopped_filler,
    stopped_pad_axis_constant,
    stopped_slab,
    stopped_pad_axis_edge,
    stopped_slabs,
    stopped_pad_axis_reflect,
    stopped_pad_axis,
    stopped_pad_axes,
    stopped_pad_last_axes,
}

impl TrtxConverter {
    /// Adds a constant tensor filled with one element.
    pub fn filler(
        net: &mut Network,
        d: &Vec<i64>,
        axis: usize,
        extent: i32,
        unit: &Vec<u8>,
        dtype: TrtDataType,
    ) -> (r: Result<Tensor, Halt>)
        requires
            axis < d@.len(),
        ensures
            gives(final(net)@, r, filler(old(net)@, d@, axis as nat, extent, unit@, dtype)),
    {
        proof {
            reveal(filler);
            broadcast use group_pad_stopped;

        }
        let shape = with_entry(d, axis, extent as i64);
        let count: usize = elements_of(&not_below_zero_vec(&shape))?;
        net.constant(
            shape,
            repeat_bytes(unit, count),
            dtype,
            "Pad concat: constant: ",
            "Pad concat: constant output: ",
        )
    }

    /// Pads one axis by concatenating tensors filled with a constant.
    pub fn trtx_pad_axis_constant_concat(
        net: &mut Network,
        x: Tensor,
        axis: usize,
        pre: i32,
        post: i32,
        fill: FloatReading,
    ) -> (r: Result<Tensor, Halt>)
        ensures
            gives(final(net)@, r, pad_axis_constant(old(net)@, x, axis as nat, pre, post, fill)),
    {
        proof {
            reveal(pad_axis_constant);
            broadcast use group_pad_stopped;

        }
        if pre <= 0 && post <= 0 {
            return net.identity(x, "Pad concat: identity: ", "Pad concat: identity output: ");
        }
        let d = net.dims(x, "Pad concat: dimensions: ")?;
        if axis >= d.len() {
            return Err(say("Pad concat: axis ").num(axis).str(" >= rank ").num(d.len()).halt());
        }
        let dtype = net.dtype(x);
        let unit = match fill_bytes_of(&fill, dtype) {
            Some(unit) => unit, None => {
                return Err(
                    say(
                        "Pad concat: unsupported TensorRT dtype for constant fill: ",
                    ).str(dtype.name()).halt(),
                );
            },
        };
        let mut pieces: Vec<Tensor> = Vec::new();
        if pre > 0 {
            let t = Self::filler(net, &d, axis, pre, &unit, dtype)?;
            pieces.push(t);
            proof {
                assert(pieces@ =~= seq![t]);
            }
        }
        pieces.push(x);
        if post > 0 {
            let ghost start = pieces@;
            let t = Self::filler(net, &d, axis, post, &unit, dtype)?;
            pieces.push(t);
            proof {
                assert(pieces@ =~= start + seq![t]);
            }
        } else {
            proof {
                assert(pieces@ =~= pieces@ + Seq::<Tensor>::empty());
            }
        }
        net.concat(pieces, axis as i32, "Pad concat: concat: ", "Pad concat: concat out: ")
    }

    /// Cuts out one slab.
    pub fn slab(
        net: &mut Network,
        x: Tensor,
        d: &Vec<i64>,
        axis: usize,
        at: i64,
        add_label: &str,
        output_label: &str,
    ) -> (r: Result<Tensor, Halt>)
        requires
            axis < d@.len(),
        ensures
            gives(
                final(net)@,
                r,
                slab(old(net)@, x, d@, axis as nat, at, add_label@, output_label@),
            ),
    {
        proof {
            reveal(slab);
            broadcast use group_pad_stopped;

        }
        net.slice(
            x,
            with_entry(&zeros_vec(d.len()), axis, at),
            with_entry(d, axis, 1),
            ones_vec(d.len()),
            add_label,
            output_label,
        )
    }

    /// Pads one axis with copies of the first and the last slab.
    pub fn trtx_pad_axis_edge_concat(
        net: &mut Network,
        x: Tensor,
        axis: usize,
        pre: i32,
        post: i32,
    ) -> (r: Result<Tensor, Halt>)
        ensures
            gives(final(net)@, r, pad_axis_edge(old(net)@, x, axis as nat, pre, post)),
    {
        proof {
            reveal(pad_axis_edge);
            broadcast use group_pad_stopped;

        }
        if pre <= 0 && post <= 0 {
            return net.identity(x, "Pad edge: identity: ", "Pad edge: identity output: ");
        }
        let d = net.dims(x, "Pad edge: dimensions: ")?;
        if axis >= d.len() {
            return Err(say("Pad edge: axis ").num(axis).str(" >= rank ").num(d.len()).halt());
        }
        let extent: i64 = d[axis];
        if extent <= 0 {
            return Err(
                say("Pad edge: non-positive dim ").signed(extent).str(" on axis ").num(axis).halt(),
            );
        }
        let first = Self::slab(
            net,
            x,
            &d,
            axis,
            0,
            "Pad edge: left slice: ",
            "Pad edge: left slice output: ",
        )?;
        let last = Self::slab(
            net,
            x,
            &d,
            axis,
            extent - 1,
            "Pad edge: right slice: ",
            "Pad edge: right slice output: ",
        )?;
        let mut pieces: Vec<Tensor> = Vec::new();
        push_copies(&mut pieces, first, pre as i64);
        proof {
            assert(pieces@ =~= copies(first, pre as i64));
        }
        pieces.push(x);
        push_copies(&mut pieces, last, post as i64);
        net.concat(pieces, axis as i32, "Pad edge: concat: ", "Pad edge: concat out: ")
    }

    /// Cuts out slabs at the given positions and adds them to `pieces`.
    fn cut_slabs(
        net: &mut Network,
        x: Tensor,
        d: &Vec<i64>,
        axis: usize,
        positions: &Vec<i64>,
        add_label: &str,
        output_label: &str,
        pieces: &mut Vec<Tensor>,
    ) -> (r: Result<(), Halt>)
        requires
            axis < d@.len(),
        ensures
            outcome(final(net)@, r) == slabs(
                old(net)@,
                x,
                d@,
                axis as nat,
                positions@,
                positions@.len(),
                add_label@,
                output_label@,
            ).0,
            r is Ok ==> final(pieces)@ == old(pieces)@ + slabs(
                old(net)@,
                x,
                d@,
                axis as nat,
                positions@,
                positions@.len(),
                add_label@,
                output_label@,
            ).1,
    {
        let ghost start = net@;
        let ghost before = pieces@;
        let mut k: usize = 0;
        proof {
            assert(pieces@ =~= before + Seq::<Tensor>::empty());
        }
        while k < positions.len()
            invariant
                k <= positions.len(),
                axis < d@.len(),
                net@ == slabs(
                    start,
                    x,
                    d@,
                    axis as nat,
                    positions@,
                    k as nat,
                    add_label@,
                    output_label@,
                ).0,
                pieces@ == before + slabs(
                    start,
                    x,
                    d@,
                    axis as nat,
                    positions@,
                    k as nat,
                    add_label@,
                    output_label@,
                ).1,
                start == old(net)@,
                before == old(pieces)@,
            decreases positions.len() - k,
        {
            match Self::slab(net, x, d, axis, positions[k], add_label, output_label) {
                Ok(t) => {
                    pieces.push(t);
                    proof {
                        let cut = slabs(
                            start,
                            x,
                            d@,
                            axis as nat,
                            positions@,
                            k as nat,
                            add_label@,
                            output_label@,
                        ).1;
                        assert((before + cut).push(t) =~= before + cut.push(t));
                    }
                },
                Err(h) => {
                    proof {
                        slabs_stay(
                            start,
                            x,
                            d@,
                            axis as nat,
                            positions@,
                            (k + 1) as nat,
                            positions@.len(),
                            add_label@,
                            output_label@,
                        );
                    }
                    return Err(h);
                },
            }
            k = k + 1;
        }
        Ok(())
    }

    /// Pads one axis by reflection.
    pub fn trtx_pad_axis_reflect_concat(
        net: &mut Network,
        x: Tensor,
        axis: usize,
        pre: i32,
        post: i32,
    ) -> (r: Result<Tensor, Halt>)
        ensures
            gives(final(net)@, r, pad_axis_reflect(old(net)@, x, axis as nat, pre, post)),
    {
        proof {
            reveal(pad_axis_reflect);
            broadcast use group_pad_stopped;

            seq_facts();
        }
        if pre <= 0 && post <= 0 {
            return net.identity(x, "Pad reflect: identity: ", "Pad reflect: identity output: ");
        }
        let d = net.dims(x, "Pad reflect: dimensions: ")?;
        if axis >= d.len() {
            return Err(say("Pad reflect: axis ").num(axis).str(" >= rank ").num(d.len()).halt());
        }
        let extent: i64 = d[axis];
        if extent <= 0 {
            return Err(
                say("Pad reflect: non-positive dim ").signed(extent).str(" on axis ").num(axis)
                    .halt(),
            );
        }
        if pre as i64 >= extent || post as i64 >= extent {
            return Err(
                say("Pad reflect: axis ").num(axis).str(" dim ").signed(extent).str(
                    " requires pre/post padding each < dim (got pre=",
                ).signed(pre as i64).str(" post=").signed(post as i64).str(")").halt(),
            );
        }
        let mut pieces: Vec<Tensor> = Vec::new();
        Self::cut_slabs(
            net,
            x,
            &d,
            axis,
            &mirror_before_vec(pre),
            "Pad reflect: pre slice: ",
            "Pad reflect: pre slice out: ",
            &mut pieces,
        )?;
        let ghost left = pieces@;
        proof {
            assert(Seq::<Tensor>::empty() + left =~= left);
        }
        pieces.push(x);
        Self::cut_slabs(
            net,
            x,
            &d,
            axis,
            &mirror_after_vec(extent, post),
            "Pad reflect: post slice: ",
            "Pad reflect: post slice out: ",
            &mut pieces,
        )?;
        net.concat(pieces, axis as i32, "Pad reflect: concat: ", "Pad reflect: concat out: ")
    }

    /// Pads one axis.
    pub fn pad_axis(
        net: &mut Network,
        x: Tensor,
        axis: usize,
        pre: i32,
        post: i32,
        mode: PadMode,
        fill: FloatReading,
    ) -> (r: Result<Tensor, Halt>)
        ensures
            gives(final(net)@, r, pad_axis(old(net)@, x, axis as nat, pre, post, mode, fill)),
    {
        proof {
            reveal(pad_axis);
            broadcast use group_pad_stopped;

        }
        if pre == 0 && post == 0 {
            return Ok(x);
        }
        match mode {
            PadMode::Edge => Self::trtx_pad_axis_edge_concat(net, x, axis, pre, post), PadMode::Reflect => Self::trtx_pad_axis_reflect_concat(net, x, axis, pre, post), PadMode::Constant => Self::trtx_pad_axis_constant_concat(net, x, axis, pre, post, fill),
        }
    }

    /// Pads all axes, one after the other.
    fn pad_all_axes(
        net: &mut Network,
        x: Tensor,
        pre: &Vec<i32>,
        post: &Vec<i32>,
        mode: PadMode,
        fill: FloatReading,
    ) -> (r: Result<Tensor, Halt>)
        requires
            pre@.len() == post@.len(),
        ensures
            gives(
                final(net)@,
                r,
                pad_axes(old(net)@, x, pre@, post@, pre@.len(), mode, fill),
            ),
    {
        let ghost start = net@;
        let mut t = x;
        let mut k: usize = 0;
        while k < pre.len()
            invariant
                k <= pre.len(),
                pre@.len() == post@.len(),
                start == old(net)@,
                (net@, t) == pad_axes(start, x, pre@, post@, k as nat, mode, fill),
            decreases pre.len() - k,
        {
            match Self::pad_axis(net, t, k, pre[k], post[k], mode, fill) {
                Ok(padded) => {
                    t = padded;
                },
                Err(h) => {
                    proof {
                        pad_axes_stay(
                            start,
                            x,
                            pre@,
                            post@,
                            (k + 1) as nat,
                            pre@.len(),
                            mode,
                            fill,
                        );
                    }
                    return Err(h);
                },
            }
            k = k + 1;
        }
        Ok(t)
    }

    /// Pads the last two axes with zeros.
    pub fn pad_last_axes(
        net: &mut Network,
        x: Tensor,
        d: &Vec<i64>,
        pre: &Vec<i32>,
        post: &Vec<i32>,
    ) -> (r: Result<Tensor, Halt>)
        requires
            pre@.len() == d@.len(),
            post@.len() == d@.len(),
        ensures
            gives(final(net)@, r, pad_last_axes(old(net)@, x, d@, pre@, post@)),
    {
        proof {
            reveal(pad_last_axes);
            broadcast use group_pad_stopped;

        }
        let rank: usize = d.len();
        let t = if rank < 4 {
            net.reshape(
                x,
                left_padded_vec(d, 4),
                "Failed to create reshape layer for padding: ",
                "Failed to set reshape dimensions: ",
                "Failed to get reshape output: ",
            )?
        } else {
            net.identity(x, "Failed to create identity layer: ", "Failed to get identity output: ")?
        };
        let t = net.padding(
            t,
            last_two_of(pre),
            last_two_of(post),
            "Failed to add padding layer: ",
            "Failed to get padding output: ",
        )?;
        if rank < 4 {
            match padded_dims_of(d, pre, post) {
                Some(shape) => net.reshape(
                    t,
                    shape,
                    "Failed to create reshape-back layer: ",
                    "Failed to set reshape-back dimensions: ",
                    "Failed to get reshape-back output: ",
                ), None => Err(HaltOf::OutOfRange),
            }
        } else {
            Ok(t)
        }
    }

    /// Adds a padding.
    pub fn add_pad_op(
        net: &mut Network,
        tensors: &mut TensorMap,
        operation: &Operation,
    ) -> (r: Result<(), Halt>)
        requires
            operation.inputs@.len() >= 1,
            operation.outputs@.len() >= 1,
        ensures
            does(final(net)@, r, final(tensors)@, pad_op(old(net)@, old(tensors)@, *operation)),
    {
        proof {
            broadcast use group_pad_stopped;

        }
        let x = tensors.find(operation.inputs[0], "Input operand ", " not found")?;
        let (beginning, ending, options) = match &operation.kind {
            OperationKind::Pad { beginning_padding, ending_padding, options } => (beginning_padding, ending_padding, options),
            _ => {
                return Err(say("expected Pad operation").halt());
            },
        };
        let options = match options {
            Some(o) => o, None => {
                return Err(say("Pad operation missing options").halt());
            },
        };
        let pre = as_signed_vec(beginning);
        let post = as_signed_vec(ending);
        let d = net.dims(x, "Failed to get input dimensions: ")?;
        if pre.len() != post.len() {
            return Err(
                say("Pad: beginningPadding len ").num(pre.len()).str(" != endingPadding len ")
                    .num(post.len()).halt(),
            );
        }
        if pre.len() != d.len() {
            return Err(
                say("Pad: padding length ").num(pre.len()).str(" does not match input rank ")
                    .num(d.len()).halt(),
            );
        }
        let t = if is_unpadded(&pre, &post, pre.len()) {
            net.identity(x, "Pad no-op: failed to add identity: ", "Pad no-op: identity output: ")?
        } else {
            let mode = match pad_mode_of(options.mode.as_str()) {
                Some(mode) => mode, None => {
                    return Err(
                        say(
                            "Pad: TensorRT pad supports constant, edge, and reflection mode (got ",
                        ).str(quoted(options.mode.as_str()).as_str()).str(")").halt(),
                    );
                },
            };
            let fill = pad_fill_of(options);
            let leading: usize = if pre.len() >= 2 {
                pre.len() - 2
            } else {
                0
            };
            if mode == PadMode::Constant && is_zero_reading(&fill) && is_unpadded(
                &pre,
                &post,
                leading,
            ) {
                Self::pad_last_axes(net, x, &d, &pre, &post)?
            } else {
                Self::pad_all_axes(net, x, &pre, &post, mode, fill)?
            }
        };
        tensors.insert(operation.outputs[0], t);
        Ok(())
    }
}

} // verus!
