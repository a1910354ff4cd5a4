//! Operations that give a tensor other extents: expansion, resampling and padding.

use crate::data_type::DataType;
use crate::graph::GraphInfo;
use crate::operator_options::{
    FloatReading, MLDimension, MLNumber, MLPadOptions, MLResample2dOptions,
};
use crate::operators::{Operation, OperationKind};
use crate::scalar::le4;
use crate::trtx::arrange::{
    expand_op, known_extents, narrow_dims, resample2d_op, resample_axes, resample_mode,
    resample_sizes, resampled, scaled_extent, wanted_shape,
};
use crate::trtx::broadcast::{as_dims, broadcast_pair};
use crate::trtx::forms::{
    earlier_is, form_is_kept, group_forms, layer_is_new, layer_is_set, shaped, tell_sets, Form,
    Resizing,
};
use crate::trtx::geometry::{given, is_padded, made, pad_means, padded_behind};
use crate::trtx::growth::{
    group_grows, grows_broadcast_pair, grows_elements, grows_pad_axes, grows_pad_last_axes,
    grows_resample_sizes, grows_resampled, grows_scaled_extent, grows_step_output, grows_stopped,
};
use crate::trtx::laws::kinds;
use crate::trtx::laws::arrange::size_asked;
use crate::trtx::laws::elementwise::{forms_broadcast_pair, one, stretched, zero};
use crate::trtx::laws::words::{
    bytes_repeat, element, filled_with_is_numbers, four_bytes_hold, in_small_letters, number_in,
    numbers_for, reported, two_bytes_hold,
};
use crate::trtx::meaning::{went_on, went_through};
use crate::trtx::network::operation_added;
use crate::trtx::pad::{
    as_signed, fill_bytes, mirror_after, mirror_before, not_below_zero, pad_amounts, pad_fill,
    pad_mode, pad_options, unpadded, PadMode,
};
use crate::trtx::session::{ReplyOf, RequestOf, Run};
use crate::trtx::shapes::extent_product;
use crate::trtx::types::{
    ElementWiseOperation, Layer, ResizeCoordinateTransformation, ResizeMode, ResizeRoundMode,
    Tensor, TrtDataType,
};
use vstd::prelude::*;

verus! {

/// The number of elements of a tensor with these dimensions.
pub open spec fn volume(dims: Seq<i64>) -> int
    decreases dims.len(),
{
    if dims.len() == 0 {
        1
    } else {
        volume(dims.drop_last()) * dims.last()
    }
}

/// The product of extents is the number of elements, where there is one.
pub proof fn product_is_volume(dims: Seq<i64>)
    requires
        forall|i: int| 0 <= i < dims.len() ==> 0 <= #[trigger] dims[i] <= u32::MAX,
    ensures
        extent_product(dims) matches Some(n) ==> n == volume(dims),
    decreases dims.len(),
{
    if dims.len() > 0 {
        let front = dims.drop_last();
        assert(forall|i: int| 0 <= i < front.len() ==> #[trigger] front[i] == dims[i]);
        product_is_volume(front);
        assert(0 <= dims.last() <= u32::MAX);
        assert(dims.last() as usize == dims.last());
    }
}

/// Whether dimensions are the sizes that an operation asks for.
pub open spec fn has_sizes(dims: Seq<i64>, new_shape: Seq<MLDimension>) -> bool {
    &&& dims.len() == new_shape.len()
    &&& forall|i: int|
        0 <= i < dims.len() ==> #[trigger] dims[i] == (size_asked(new_shape[i]) as i32)
}

/// Whether bytes hold 1 once or more.
pub open spec fn holds_ones(bytes: Seq<u8>, t: DataType) -> bool {
    exists|count: nat| count > 0 && #[trigger] bytes_repeat(bytes, one(), t, count)
}

/// Whether a form is a tensor of ones with the sizes that an operation asks for.
pub open spec fn is_ones(f: Form, graph: GraphInfo, op: Operation, new_shape: Seq<MLDimension>) -> bool {
    match f {
        Form::Constant(dims, bytes, ty) => {
            &&& ty == numbers_for(element(graph, op.inputs@[0]))
            &&& has_sizes(dims, new_shape)
            &&& holds_ones(bytes, element(graph, op.inputs@[0]))
        },
        _ => false,
    }
}

/// Whether a form is another times ones of the sizes that an operation asks for, each stretched to the
/// other.
pub open spec fn is_expanded(
    f: Form,
    x: Form,
    own: Seq<i64>,
    graph: GraphInfo,
    op: Operation,
    new_shape: Seq<MLDimension>,
) -> bool {
    exists|ones: Form, new: Seq<i64>|
        is_ones(ones, graph, op, new_shape) && f == Form::Elementwise(
            ElementWiseOperation::kPROD,
            Box::new(#[trigger] stretched(x, own, new)),
            Box::new(#[trigger] stretched(ones, new, own)),
        )
}

/// An expansion is the product with ones of the sizes that it asks for.
pub proof fn expand_follows_shape(
    n: Run,
    m: Map<u32, Tensor>,
    graph: GraphInfo,
    op: Operation,
    promoted: Set<u32>,
    new_shape: Vec<MLDimension>,
)
    requires
        went_through(n, m, operation_added(n, m, graph, op, promoted)),
        op.kind == (OperationKind::Expand { new_shape }),
    ensures
        is_expanded(
            made(op, operation_added(n, m, graph, op, promoted)),
            given(n, m, op, 0),
            reported(n, m[op.inputs@[0]]),
            graph,
            op,
            new_shape@,
        ),
{
    broadcast use {
        group_grows, group_forms, grows_stopped, went_on, forms_broadcast_pair, grows_elements,
        grows_broadcast_pair,
    };

    kinds::expand_is_added(n, m, graph, op, promoted);
    let x = m[op.inputs@[0]];
    let shape = narrow_dims(wanted_shape(op.kind));
    let t = element(graph, op.inputs@[0]);
    let product = extent_product(not_below_zero(shape))->0;
    let count: nat = if product == 0 {
        1
    } else {
        product
    };
    let bytes = crate::scalar::repeated(crate::scalar::float_bytes(one(), t), count);
    filled_with_is_numbers(one(), t, count);
    let (a, c) = n.constant(
        shape,
        bytes,
        numbers_for(t),
        "Failed to create ones constant for expand: "@,
        "Failed to get ones constant output: "@,
    );
    let ones = Form::Constant(shape, bytes, numbers_for(t));
    assert(bytes_repeat(bytes, one(), t, count));
    assert forall|i: int| 0 <= i < shape.len() implies #[trigger] shape[i] == (size_asked(
        new_shape@[i],
    ) as i32) by {}
    assert(shape.len() == new_shape@.len());
    assert(holds_ones(bytes, t));
    assert(has_sizes(shape, new_shape@));
    assert(is_ones(ones, graph, op, new_shape@));
    let (b, (p, q)) = broadcast_pair(a, x, c, "expand"@);
    let (e, r) = b.elementwise(
        p,
        q,
        ElementWiseOperation::kPROD,
        "Failed to add multiply for expand: "@,
        "Failed to get expand output: "@,
    );
    assert(e.goes_on());
    assert(b.goes_on());
    assert(a.goes_on());
    form_is_kept(n, a, x);
    assert(reported(a, x) == reported(n, x)) by {
        reveal(Run::grows);
    }
    let new = reported(a, c);
    assert(made(op, expand_op(n, m, graph, op)) == Form::Elementwise(
        ElementWiseOperation::kPROD,
        Box::new(stretched(n.form(x), reported(n, x), new)),
        Box::new(stretched(ones, new, reported(n, x))),
    ));
}

/// Whether an extent was given for another, times a scale.
pub open spec fn is_scaled(end: Run, from: i64, scale: u32, to: i64) -> bool {
    exists|at: int|
        0 <= at < end.requests.len() && (#[trigger] end.requests[at] matches RequestOf::ScaledExtent {
            extent,
            scale: by,
        } && extent == from && by == scale) && (end.replies[at] matches ReplyOf::Extent(given)
            && given == to)
}

/// How a resampling fills its grid: from the centres of the elements, linearly where the options ask
/// for it, else from the nearest element, rounded half up.
pub open spec fn grid(linear: bool) -> Resizing {
    Resizing {
        mode: Some(
            if linear {
                ResizeMode::kLINEAR
            } else {
                ResizeMode::kNEAREST
            },
        ),
        coordinates: Some(ResizeCoordinateTransformation::kHALF_PIXEL),
        rounding: if linear {
            None
        } else {
            Some(ResizeRoundMode::kHALF_UP)
        },
    }
}

/// The options of a resampling, or those that stand for none: the nearest element, the scale 1 and the
/// last two axes.
pub open spec fn resample_asked(options: Option<MLResample2dOptions>, o: MLResample2dOptions) -> bool {
    match options {
        Some(given) => given == o,
        None => {
            &&& o.mode@.len() == 0
            &&& o.scales@.len() == 0 && o.sizes is None
            &&& o.axes@.len() == 0
        },
    }
}

/// A resampling gives the axes of the options the sizes of the options or, where there are none, their
/// extents times the scales of the options. The other extents stay. It is linear where the options say
/// so.
pub proof fn resample2d_follows_options(
    n: Run,
    m: Map<u32, Tensor>,
    graph: GraphInfo,
    op: Operation,
    promoted: Set<u32>,
    options: Option<MLResample2dOptions>,
    o: MLResample2dOptions,
)
    requires
        resample_asked(options, o),
        went_through(n, m, operation_added(n, m, graph, op, promoted)),
        op.kind == (OperationKind::Resample2d { options }),
        reported(n, m[op.inputs@[0]]).len() == 4,
        forall|i: int| 0 <= i < 4 ==> #[trigger] reported(n, m[op.inputs@[0]])[i] > 0,
    ensures
        ({
            let own = reported(n, m[op.inputs@[0]]);
            let (end, _) = operation_added(n, m, graph, op, promoted);
            let (a, b): (int, int) = if o.axes@.len() == 2 {
                (o.axes@[0] as int, o.axes@[1] as int)
            } else {
                (2, 3)
            };
            match made(op, operation_added(n, m, graph, op, promoted)) {
                Form::Resized(dims, how, f) => {
                    &&& *f == given(n, m, op, 0)
                    &&& how == grid(in_small_letters(o.mode@) == "linear"@)
                    &&& dims.len() == 4
                    &&& a < 4 && b < 4 && a != b
                    &&& forall|i: int| 0 <= i < 4 && i != a && i != b ==> dims[i] == own[i]
                    &&& match o.sizes {
                        Some(sizes) => dims[a] == sizes@[0] && dims[b] == sizes@[1],
                        None => {
                            &&& is_scaled(
                                end,
                                own[a],
                                if o.scales@.len() == 2 {
                                    o.scales@[0]
                                } else {
                                    one().single
                                },
                                dims[a],
                            )
                            &&& is_scaled(
                                end,
                                own[b],
                                if o.scales@.len() == 2 {
                                    o.scales@[1]
                                } else {
                                    one().single
                                },
                                dims[b],
                            )
                        },
                    }
                },
                _ => false,
            }
        }),
{
    reveal_strlit("linear");
    broadcast use {
        group_grows, group_forms, grows_stopped, went_on, grows_resample_sizes, grows_resampled,
        grows_scaled_extent,
    };

    kinds::resample2d_is_added(n, m, graph, op, promoted);
    reveal(Run::dims);
    let x = m[op.inputs@[0]];
    let own = reported(n, x);
    let declared = as_dims(
        crate::graph::max_sizes(graph.operands@[op.inputs@[0] as int].descriptor.shape@),
    );
    let extents = known_extents(own, declared);
    assert(extents =~= own);
    let (a, b) = resample_axes(op.kind);
    let (end, _) = resample2d_op(n, m, graph, op);
    let (c, sizes) = resample_sizes(n, op, (own[a as int], own[b as int]));
    let dims = own.update(a as int, sizes.0).update(b as int, sizes.1);
    let (d, t) = resampled(c, x, dims, resample_mode(op.kind));
    assert(d.goes_on() && c.goes_on());
    assert(end.grows(d) && end.grows(c));
    form_is_kept(n, c, x);
    forms_resampled(c, x, dims, resample_mode(op.kind));
    assert(crate::text::ascii_lowercase(o.mode@) =~= in_small_letters(o.mode@));
    reveal(resample_sizes);
    if o.sizes is None {
        let one = one().single;
        let (p, q) = if o.scales@.len() == 2 {
            (o.scales@[0], o.scales@[1])
        } else {
            (one, one)
        };
        let (e, to) = scaled_extent(n, own[a as int], p);
        assert(e.goes_on());
        scaled_is_answered(n, end, own[a as int], p);
        scaled_is_answered(e, end, own[b as int], q);
    }
}

proof fn scaled_is_answered(n: Run, end: Run, extent: i64, scale: u32)
    requires
        scaled_extent(n, extent, scale).0.goes_on(),
        end.grows(scaled_extent(n, extent, scale).0),
    ensures
        is_scaled(end, extent, scale, scaled_extent(n, extent, scale).1),
{
    reveal(scaled_extent);
    reveal(Run::ask);
    reveal(Run::grows);
    let after = scaled_extent(n, extent, scale).0;
    let at = n.requests.len() as int;
    assert(end.requests[at] == end.requests.take(after.requests.len() as int)[at]);
}

proof fn forms_resampled(n: Run, x: Tensor, dims: Seq<i64>, mode: ResizeMode)
    requires
        resampled(n, x, dims, mode).0.goes_on(),
        n.has(x),
        mode == ResizeMode::kLINEAR || mode == ResizeMode::kNEAREST,
    ensures
        ({
            let (after, t) = resampled(n, x, dims, mode);
            after.has(t) && after.form(t) == Form::Resized(
                dims,
                grid(mode == ResizeMode::kLINEAR),
                Box::new(n.form(x)),
            )
        }),
{
    broadcast use {group_grows, grows_stopped, grows_step_output, went_on};

    reveal(resampled);
    let request = RequestOf::AddResize { input: x };
    let (a, l) = n.ask(request, "Failed to add resize layer: "@);
    let extents = RequestOf::SetOutputDimensions { layer: Layer { id: l }, dims };
    let b = a.tell(extents);
    let way = RequestOf::SetResizeMode { layer: Layer { id: l }, mode };
    let c = b.tell(way);
    let centres = RequestOf::SetCoordinateTransformation {
        layer: Layer { id: l },
        mode: ResizeCoordinateTransformation::kHALF_PIXEL,
    };
    let d = c.tell(centres);
    let rounding = RequestOf::SetNearestRounding {
        layer: Layer { id: l },
        mode: ResizeRoundMode::kHALF_UP,
    };
    let e = if mode == ResizeMode::kNEAREST {
        d.tell(rounding)
    } else {
        d
    };
    layer_is_new(n, request, "Failed to add resize layer: "@);
    tell_sets(a, extents, l);
    tell_sets(b, way, l);
    tell_sets(c, centres, l);
    if mode == ResizeMode::kNEAREST {
        tell_sets(d, rounding, l);
    }
    broadcast use earlier_is;

    reveal(shaped);
    layer_is_set(e, l, "Failed to get resize output: "@);
    form_is_kept(n, e, x);
}

/// The way of padding that a word names, whatever the case of its letters.
pub open spec fn way_named(mode: Seq<char>) -> Option<PadMode> {
    let word = in_small_letters(mode);
    if word.len() == 0 || word == "constant"@ {
        Some(PadMode::Constant)
    } else if word == "edge"@ {
        Some(PadMode::Edge)
    } else if word == "reflection"@ || word == "reflect"@ {
        Some(PadMode::Reflect)
    } else {
        None
    }
}

/// The number that the options of a padding give, 0 where they give none.
pub open spec fn filling(o: MLPadOptions) -> FloatReading {
    match o.value {
        Some(MLNumber::Unsigned { reading, .. }) => reading,
        Some(MLNumber::Negative { reading, .. }) => reading,
        Some(MLNumber::Float { reading, .. }) => reading,
        _ => FloatReading { bits: zero(), to_i8: 0, to_u8: 0, to_i32: 0, to_i64: 0 },
    }
}

/// Numbers read as signed ones.
pub open spec fn signed(v: Seq<u32>) -> Seq<i32> {
    Seq::new(v.len(), |i: int| v[i] as i32)
}

/// Whether nothing is put before or behind the first `k` axes.
pub open spec fn adds_nothing(pre: Seq<i32>, post: Seq<i32>, k: int) -> bool {
    forall|i: int| 0 <= i < k ==> #[trigger] pre[i] == 0 && post[i] == 0
}

/// A padding puts, along each axis, as many elements before the input as the beginning padding says and
/// as many behind it as the ending padding says, in the way of the options: the number of the options,
/// or copies of the edge, or the mirror image.
pub proof fn pad_follows_options(
    n: Run,
    m: Map<u32, Tensor>,
    graph: GraphInfo,
    op: Operation,
    promoted: Set<u32>,
    beginning: Vec<u32>,
    ending: Vec<u32>,
    o: MLPadOptions,
)
    requires
        went_through(n, m, operation_added(n, m, graph, op, promoted)),
        op.kind == (OperationKind::Pad {
            beginning_padding: beginning,
            ending_padding: ending,
            options: Some(o),
        }),
        !(o.value matches Some(MLNumber::Text { .. })),
    ensures
        ({
            let x = given(n, m, op, 0);
            let end = made(op, operation_added(n, m, graph, op, promoted));
            let rank = reported(n, m[op.inputs@[0]]).len();
            let pre = signed(beginning@);
            let post = signed(ending@);
            let way = way_named(o.mode@);
            let none = filling(o).bits.single == 0 || filling(o).bits.single == 0x8000_0000;
            &&& beginning@.len() == rank && ending@.len() == rank
            &&& if adds_nothing(pre, post, rank as int) {
                end == x
            } else if way == Some(PadMode::Constant) && none && adds_nothing(pre, post, rank - 2) {
                end == padded_behind(x, reported(n, m[op.inputs@[0]]), pre, post)
            } else {
                way is Some && is_padded(x, end, pre, post, rank, way->0, filling(o))
            }
        }),
{
    kinds::pad_is_added(n, m, graph, op, promoted);
    broadcast use {group_grows, grows_stopped, went_on, grows_pad_axes, grows_pad_last_axes};

    reveal(Run::dims);
    pad_means(n, m, op);
    let rank = reported(n, m[op.inputs@[0]]).len();
    let (pre, post) = (signed(beginning@), signed(ending@));
    assert(as_signed(beginning@) =~= pre);
    assert(as_signed(ending@) =~= post);
    assert(adds_nothing(pre, post, rank as int) == unpadded(pre, post, rank as int));
    assert(adds_nothing(pre, post, rank - 2) == unpadded(pre, post, rank - 2));
    assert(crate::text::ascii_lowercase(o.mode@) =~= in_small_letters(o.mode@));
    assert(pad_mode(o.mode@) == way_named(o.mode@));
    assert(pad_fill(o) == filling(o));
    assert(pad_amounts(op.kind) == (as_signed(beginning@), as_signed(ending@)));
    assert(pad_options(op.kind) == Some(o));
    if !unpadded(pre, post, rank as int) {
        assert(pad_mode(o.mode@) is Some) by {
            broadcast use {group_grows, grows_stopped, went_on, grows_pad_axes, grows_pad_last_axes};

        }
    }
}

/// The positions that mirror the edges of an axis: those before it fall to 1, the second element, and
/// those behind it fall from the last element but one.
pub proof fn edges_are_mirrored(pre: i32, extent: i64, post: i32, i: int)
    requires
        pre >= 0,
        post >= 0,
        extent > post,
    ensures
        mirror_before(pre).len() == pre,
        mirror_after(extent, post).len() == post,
        0 <= i < pre ==> mirror_before(pre)[i] == pre - i,
        0 <= i < post ==> mirror_after(extent, post)[i] == extent - 2 - i,
{
}

/// A padding fills with the number that it is given, in the type of the tensor: its bit pattern in a
/// floating-point type, the integer that it is read as in an integer type, and, in a type of unsigned
/// bytes or truth values, 0 where it is 0, else 1.
pub proof fn filling_is_held(fill: FloatReading, ty: TrtDataType)
    ensures
        ({
            let bytes = fill_bytes(fill, ty)->0;
            &&& fill_bytes(fill, ty) is Some <==> ty == TrtDataType::kFLOAT || ty
                == TrtDataType::kHALF || ty == TrtDataType::kINT32 || ty == TrtDataType::kINT64
                || ty == TrtDataType::kINT8 || ty == TrtDataType::kUINT8 || ty
                == TrtDataType::kBOOL
            &&& ty == TrtDataType::kFLOAT ==> bytes.len() == 4 && number_in(bytes)
                == fill.bits.single
            &&& ty == TrtDataType::kHALF ==> bytes.len() == 2 && number_in(bytes) == fill.bits.half
            &&& ty == TrtDataType::kINT32 ==> bytes.len() == 4 && number_in(bytes)
                == fill.to_i32 as u32
            &&& ty == TrtDataType::kINT64 ==> bytes.len() == 8 && number_in(bytes.take(4))
                == fill.to_i64 as u64 % 0x1_0000_0000 && number_in(bytes.skip(4))
                == fill.to_i64 as u64 / 0x1_0000_0000
            &&& ty == TrtDataType::kINT8 ==> bytes == seq![fill.to_i8 as u8]
            &&& ty == TrtDataType::kUINT8 || ty == TrtDataType::kBOOL ==> bytes == seq![
                if fill.bits.single == 0 || fill.bits.single == 0x8000_0000 {
                    0u8
                } else {
                    1u8
                },
            ]
        }),
{
    four_bytes_hold(fill.bits.single);
    two_bytes_hold(fill.bits.half);
    four_bytes_hold(fill.to_i32 as u32);
    let wide = fill.to_i64 as u64;
    let (low, high) = ((wide % 0x1_0000_0000) as u32, (wide / 0x1_0000_0000) as u32);
    four_bytes_hold(low);
    four_bytes_hold(high);
    if ty == TrtDataType::kINT64 {
        let bytes = fill_bytes(fill, ty)->0;
        assert(bytes.take(4) =~= le4(low));
        assert(bytes.skip(4) =~= le4(high));
    }
}

} // verus!
