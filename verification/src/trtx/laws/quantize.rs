//! Quantization and what goes with it: dequantization, casts and negation.

use crate::data_type::DataType;
use crate::graph::{max_sizes, GraphInfo};
use crate::operators::Operation;
use crate::scalar::{known, Known, Scalar};
use crate::trtx::broadcast::{ones, zeros};
use crate::trtx::elementwise::trt_float_bytes;
use crate::trtx::forms::{
    form_is_kept, forms_cast, forms_elementwise, forms_reshape, forms_unary, group_forms,
    group_wide_forms, Form,
};
use crate::trtx::formulas::{cast_means, logical_not_means};
use crate::trtx::geometry::{given, made};
use crate::trtx::growth::{
    group_grows, grows_aligned, grows_block_axes, grows_byte_values, grows_clamped_to,
    grows_dequantize_zero, grows_in_type, grows_is_scalar, grows_prepended, grows_quantize_zero,
    grows_quantized, grows_step_cast, grows_step_elementwise, grows_step_reshape,
    grows_step_unary, grows_stopped, grows_to_bool, grows_unsigned_reading, grows_with_axis,
};
use crate::trtx::laws::kinds;
use crate::trtx::laws::elementwise::{is_byte_operand, one, zero};
use crate::trtx::laws::words::{
    element, four_bytes_hold, number_in, reported, shape, size, two_bytes_hold,
};
use crate::trtx::meaning::{input, result, went_on, went_through, Term};
use crate::trtx::network::operation_added;
use crate::trtx::pieces::{
    aligned_means, forms_with_axis, is_aligned, is_reshaped, parameter_values,
};
use crate::trtx::quantize::{
    aligned, byte_values, clamped_to, dequantize_linear_op, dequantize_zero, in_type, is_byte,
    is_scalar, quantize_linear_op, quantize_zero, quantized, quantized_range, unsigned_reading,
    with_axis,
};
use crate::trtx::session::Run;
use crate::trtx::types::{trt_type, ElementWiseOperation, Tensor, TrtDataType, UnaryOperation};
use vstd::prelude::*;

verus! {

/// The TensorRT type that holds elements of a type.
pub open spec fn held_as(t: DataType) -> TrtDataType {
    match t {
        DataType::Float32 => TrtDataType::kFLOAT,
        DataType::Float16 => TrtDataType::kHALF,
        DataType::Int8 => TrtDataType::kINT8,
        DataType::Uint8 | DataType::Uint4 => TrtDataType::kUINT8,
        DataType::Int32 | DataType::Uint32 => TrtDataType::kINT32,
        DataType::Int64 | DataType::Uint64 => TrtDataType::kINT64,
        DataType::Int4 => TrtDataType::kINT4,
    }
}

/// Whether a form is a constant that holds a number once, in a floating-point type.
pub open spec fn is_single(f: Form, x: Scalar, ty: TrtDataType) -> bool {
    match f {
        Form::Constant(_, bytes, t) => t == ty && if ty == TrtDataType::kHALF {
            bytes.len() == 2 && number_in(bytes) == x.half
        } else {
            bytes.len() == 4 && number_in(bytes) == x.single
        },
        _ => false,
    }
}

/// Whether a form is another, which holds bytes, times 1.
pub open spec fn is_times_one(f: Form, from: Form, ty: TrtDataType) -> bool {
    match f {
        Form::Dequantized(t, a, b) => t == ty && *a == from && is_single(*b, one(), ty),
        _ => false,
    }
}

/// Whether a form is another plus a number.
pub open spec fn is_raised(f: Form, from: Form, x: Scalar, ty: TrtDataType) -> bool {
    match f {
        Form::Elementwise(code, a, b) => code == ElementWiseOperation::kSUM && *a == from
            && is_single(*b, x, ty),
        _ => false,
    }
}

/// Whether a form is where another is negative.
pub open spec fn is_negative(f: Form, of: Form, ty: TrtDataType) -> bool {
    match f {
        Form::Cast(t, c) => t == TrtDataType::kBOOL && match *c {
            Form::Elementwise(code, a, b) => code == ElementWiseOperation::kLESS && *a == of
                && is_single(*b, zero(), ty),
            _ => false,
        },
        _ => false,
    }
}

/// Whether a form is the values of bytes as numbers. Unsigned bytes that are held as signed ones are
/// raised by 256 where they read negative; those that are held as unsigned ones are raised by 128.
pub open spec fn reads_bytes(
    f: Form,
    from: Form,
    ty: TrtDataType,
    source: DataType,
    held: TrtDataType,
) -> bool {
    if source == DataType::Uint8 && held == TrtDataType::kINT8 {
        match f {
            Form::Selected(c, raised, base) => {
                &&& is_times_one(*base, from, ty)
                &&& is_negative(*c, *base, ty)
                &&& is_raised(*raised, *base, (Scalar { single: 0x4380_0000, half: 0x5C00 }), ty)
            },
            _ => false,
        }
    } else if source == DataType::Uint8 && held == TrtDataType::kUINT8 {
        match f {
            Form::Elementwise(_, base, _) => is_times_one(*base, from, ty) && is_raised(
                f,
                *base,
                (Scalar { single: 0x4300_0000, half: 0x5800 }),
                ty,
            ),
            _ => false,
        }
    } else {
        is_times_one(f, from, ty)
    }
}

/// Whether a form is the values of a parameter: those of its bytes where it holds bytes, else its own.
pub open spec fn has_values(
    f: Form,
    from: Form,
    ty: TrtDataType,
    source: DataType,
    held: TrtDataType,
) -> bool {
    if held == TrtDataType::kINT8 || held == TrtDataType::kUINT8 {
        reads_bytes(f, from, ty, source, held)
    } else {
        f == from
    }
}

proof fn single_holds(x: Scalar, ty: TrtDataType, dims: Seq<i64>)
    ensures
        is_single(Form::Constant(dims, trt_float_bytes(x, ty), ty), x, ty),
{
    four_bytes_hold(x.single);
    two_bytes_hold(x.half);
}

proof fn forms_byte_values(n: Run, t: Tensor, ty: TrtDataType, label: Seq<char>, source: DataType)
    requires
        byte_values(n, t, ty, label, source).0.goes_on(),
        n.has(t),
    ensures
        ({
            let (after, r) = byte_values(n, t, ty, label, source);
            after.has(r) && reads_bytes(after.form(r), n.form(t), ty, source, n.dtype(t))
        }),
{
    broadcast use {
        group_grows, group_forms, group_wide_forms, grows_unsigned_reading, grows_to_bool,
    };

    reveal(byte_values);
    single_holds(one(), ty, zeros(0));
    let (a, scale) = n.constant(
        zeros(0),
        trt_float_bytes(known(Known::One), ty),
        ty,
        label + " identity DQ scale constant: "@,
        label + " identity DQ scale tensor: "@,
    );
    let (b, base) = a.dequantize(
        t,
        scale,
        ty,
        label + " identity DQ: "@,
        label + " identity DQ output: "@,
    );
    assert(b.goes_on());
    assert(a.goes_on());
    assert(is_times_one(b.form(base), n.form(t), ty));
    if source == DataType::Uint8 && n.dtype(t) == TrtDataType::kINT8 {
        forms_unsigned_reading(b, base, ty, label);
    } else if source == DataType::Uint8 && n.dtype(t) == TrtDataType::kUINT8 {
        let (c, d) = b.dims(base, label + " kUINT8 DQ+128 dimensions: "@);
        single_holds(known(Known::OneTwentyEight), ty, ones(d.len()));
    }
}

proof fn forms_unsigned_reading(n: Run, t: Tensor, ty: TrtDataType, label: Seq<char>)
    requires
        unsigned_reading(n, t, ty, label).0.goes_on(),
        n.has(t),
    ensures
        ({
            let (after, r) = unsigned_reading(n, t, ty, label);
            after.has(r) && match after.form(r) {
                Form::Selected(c, raised, base) => {
                    &&& *base == n.form(t)
                    &&& is_negative(*c, *base, ty)
                    &&& is_raised(
                        *raised,
                        *base,
                        (Scalar { single: 0x4380_0000, half: 0x5C00 }),
                        ty,
                    )
                },
                _ => false,
            }
        }),
{
    broadcast use {group_grows, group_forms, group_wide_forms, grows_to_bool};

    reveal(unsigned_reading);
    let d = n.dims(t, label + " uint8 storage fix dimensions: "@).1;
    single_holds(zero(), ty, ones(d.len()));
    single_holds(known(Known::TwoFiftySix), ty, ones(d.len()));
}

/// The floating-point type that numbers of a type are computed in.
pub open spec fn float_for(t: DataType) -> TrtDataType {
    if t == DataType::Float16 {
        TrtDataType::kHALF
    } else {
        TrtDataType::kFLOAT
    }
}

/// Whether a form is the zero point of a dequantization, as numbers.
pub open spec fn is_shift(
    f: Form,
    from: Form,
    ty: TrtDataType,
    source: DataType,
    held: TrtDataType,
) -> bool {
    exists|v: Form|
        #[trigger] has_values(v, from, ty, source, held) && is_reshaped(v, f)
}

/// Whether a form is `x * scale - zero * scale`, where there is a zero point, else `x * scale`.
pub open spec fn is_dequantized(
    f: Form,
    n: Run,
    m: Map<u32, Tensor>,
    graph: GraphInfo,
    op: Operation,
) -> bool {
    let ty = float_for(element(graph, op.inputs@[1]));
    let out = float_for(element(graph, op.outputs@[0]));
    exists|x: Form, scale: Form|
        #![trigger is_reshaped(given(n, m, op, 0), x), is_reshaped(given(n, m, op, 1), scale)]
        {
            &&& is_reshaped(given(n, m, op, 0), x)
            &&& is_reshaped(given(n, m, op, 1), scale)
            &&& if op.inputs@.len() > 2 {
                exists|zero: Form|
                    is_shift(
                        zero,
                        given(n, m, op, 2),
                        ty,
                        element(graph, op.inputs@[2]),
                        n.dtype(m[op.inputs@[2]]),
                    ) && f == #[trigger] corrected(out, x, scale, Form::Cast(ty, Box::new(zero)))
            } else {
                f == Form::Dequantized(out, Box::new(x), Box::new(scale))
            }
        }
}

/// `x * scale - zero * scale`.
pub open spec fn corrected(out: TrtDataType, x: Form, scale: Form, zero: Form) -> Form {
    Form::Elementwise(
        ElementWiseOperation::kSUB,
        Box::new(Form::Dequantized(out, Box::new(x), Box::new(scale))),
        Box::new(
            Form::Elementwise(ElementWiseOperation::kPROD, Box::new(zero), Box::new(scale)),
        ),
    )
}

proof fn forms_dequantize_zero(
    n: Run,
    zero: Tensor,
    ty: TrtDataType,
    source: DataType,
    scalar: bool,
    rank: nat,
)
    requires
        dequantize_zero(n, zero, ty, source, scalar, rank).0.goes_on(),
        n.has(zero),
    ensures
        ({
            let (after, r) = dequantize_zero(n, zero, ty, source, scalar, rank);
            after.has(r) && is_shift(after.form(r), n.form(zero), ty, source, n.dtype(zero))
        }),
{
    broadcast use {
        group_grows, group_forms, grows_byte_values, grows_with_axis, grows_is_scalar,
    };

    reveal(dequantize_zero);
    let label = "dequantizeLinear zero_point"@;
    let (after, r) = dequantize_zero(n, zero, ty, source, scalar, rank);
    if is_byte(n.dtype(zero)) {
        let (a, t) = byte_values(n, zero, ty, label, source);
        assert(a.goes_on());
        forms_byte_values(n, zero, ty, label, source);
        if !(scalar && rank == 0) {
            forms_with_axis(a, t, label);
        }
        assert(has_values(a.form(t), n.form(zero), ty, source, n.dtype(zero)));
        assert(is_reshaped(a.form(t), after.form(r)));
    } else {
        let (a, flat) = if scalar && rank == 0 {
            is_scalar(n, zero)
        } else {
            (n, false)
        };
        assert(a.goes_on());
        form_is_kept(n, a, zero);
        if !flat {
            forms_with_axis(a, zero, label);
        }
        assert(has_values(n.form(zero), n.form(zero), ty, source, n.dtype(zero)));
        assert(is_reshaped(n.form(zero), after.form(r)));
    }
}

/// Dequantization is `x * scale - zero * scale`, in the type of the scale, or `x * scale` without a
/// zero point.
pub proof fn dequantize_linear_computes(
    n: Run,
    m: Map<u32, Tensor>,
    graph: GraphInfo,
    op: Operation,
    promoted: Set<u32>,
)
    requires
        went_through(n, m, operation_added(n, m, graph, op, promoted)),
        op.kind is DequantizeLinear,
    ensures
        is_dequantized(made(op, operation_added(n, m, graph, op, promoted)), n, m, graph, op),
{
    broadcast use {
        group_grows, group_forms, group_wide_forms, grows_with_axis, grows_dequantize_zero,
    };

    kinds::dequantize_linear_is_added(n, m, graph, op, promoted);
    let x = m[op.inputs@[0]];
    let scale = m[op.inputs@[1]];
    let (a, dx) = n.dims(x, "dequantizeLinear input dimensions: "@);
    let (b, ds) = a.dims(scale, "dequantizeLinear scale dimensions: "@);
    let declared = shape(graph, op.inputs@[0]).len() == 0 && shape(graph, op.inputs@[1]).len() == 0;
    let scalar = declared || (dx.len() == 0 && ds.len() == 0);
    let (c, y) = if scalar {
        (b, x)
    } else {
        with_axis(b, x, "dequantizeLinear input"@)
    };
    let (d, s) = if scalar {
        (c, scale)
    } else {
        with_axis(c, scale, "dequantizeLinear scale"@)
    };
    let ty = float_for(element(graph, op.inputs@[1]));
    let out = float_for(element(graph, op.outputs@[0]));
    let (e, t) = d.dequantize(
        y,
        s,
        out,
        "Failed to add dequantize layer: "@,
        "Failed to get dequantize output: "@,
    );
    let end = dequantize_linear_op(n, m, graph, op).0;
    assert(end.grows(e) && e.goes_on());
    assert(d.goes_on());
    assert(c.goes_on());
    assert(b.goes_on());
    form_is_kept(n, b, x);
    form_is_kept(n, c, scale);
    if !scalar {
        forms_with_axis(b, x, "dequantizeLinear input"@);
        forms_with_axis(c, scale, "dequantizeLinear scale"@);
    }
    form_is_kept(c, d, y);
    assert(is_reshaped(given(n, m, op, 0), d.form(y)));
    assert(is_reshaped(given(n, m, op, 1), d.form(s)));
    let r = made(op, dequantize_linear_op(n, m, graph, op));
    if op.inputs@.len() > 2 {
        let zero = m[op.inputs@[2]];
        let source = element(graph, op.inputs@[2]);
        let rank = shape(graph, op.inputs@[2]).len();
        let (g, z) = dequantize_zero(e, zero, ty, source, scalar, rank);
        assert(g.goes_on());
        form_is_kept(n, e, zero);
        forms_dequantize_zero(e, zero, ty, source, scalar, rank);
        assert(e.dtype(zero) == n.dtype(zero)) by {
            reveal(Run::grows);
        }
        form_is_kept(d, g, s);
        form_is_kept(e, g, t);
        assert(r == corrected(
            out,
            d.form(y),
            d.form(s),
            Form::Cast(ty, Box::new(g.form(z))),
        ));
    } else {
        assert(r == Form::Dequantized(out, Box::new(d.form(y)), Box::new(d.form(s))));
    }
}

/// A cast gives elements the type of the output. Bytes that become numbers of four bytes are taken
/// times 1 first; a constant of bytes that was promoted holds 32-bit integers already.
pub proof fn cast_follows_output(
    n: Run,
    m: Map<u32, Tensor>,
    graph: GraphInfo,
    op: Operation,
    promoted: Set<u32>,
)
    requires
        went_through(n, m, operation_added(n, m, graph, op, promoted)),
        op.kind is Cast,
    ensures
        ({
            let id = op.inputs@[0];
            let x = input(n, m, op, 0);
            let target = element(graph, op.outputs@[0]);
            let r = result(op, operation_added(n, m, graph, op, promoted));
            if is_byte_operand(graph, id) && target == DataType::Int32 && promoted.contains(id) {
                r == x
            } else if is_byte_operand(graph, id) && target == DataType::Float32 {
                is_number_of(r, x)
            } else if is_byte_operand(graph, id) && target == DataType::Int32 {
                r matches Term::Cast(t, y) && t == TrtDataType::kINT32 && is_number_of(*y, x)
            } else {
                r == Term::Cast(held_as(target), Box::new(x))
            }
        }),
{
    kinds::cast_is_added(n, m, graph, op, promoted);
    cast_means(n, m, graph, op, promoted);
    four_bytes_hold(one().single);
}

/// Whether a term is another, which holds bytes, times 1.
pub open spec fn is_number_of(r: Term, x: Term) -> bool {
    match r {
        Term::Dequantized(a, b) => *a == x && match *b {
            Term::Constant(bytes, t) => t == TrtDataType::kFLOAT && bytes.len() == 4 && number_in(
                bytes,
            ) == one().single,
            _ => false,
        },
        _ => false,
    }
}

/// Logical negation gives 1 in `f32` where the input is 0, else 0.
pub proof fn logical_not_negates(
    n: Run,
    m: Map<u32, Tensor>,
    graph: GraphInfo,
    op: Operation,
    promoted: Set<u32>,
)
    requires
        went_through(n, m, operation_added(n, m, graph, op, promoted)),
        op.kind is LogicalNot,
        graph.constant_operand_ids_to_handles@.contains_key(op.inputs@[0]) ==> !is_byte_operand(
            graph,
            op.inputs@[0],
        ),
    ensures
        result(op, operation_added(n, m, graph, op, promoted)) == Term::Cast(
            TrtDataType::kFLOAT,
            Box::new(
                Term::Unary(
                    UnaryOperation::kNOT,
                    Box::new(Term::Cast(TrtDataType::kBOOL, Box::new(input(n, m, op, 0)))),
                ),
            ),
        ),
{
    kinds::logical_not_is_added(n, m, graph, op, promoted);
    logical_not_means(n, m, graph, op);
}

/// The least and the greatest number of a quantized type.
pub open spec fn least_and_greatest(t: DataType) -> (Scalar, Scalar) {
    match t {
        DataType::Int8 => (
            Scalar { single: 0xC300_0000, half: 0xD800 },
            Scalar { single: 0x42FE_0000, half: 0x57F0 },
        ),
        DataType::Uint8 => (zero(), Scalar { single: 0x437F_0000, half: 0x5BF8 }),
        DataType::Int4 => (
            Scalar { single: 0xC100_0000, half: 0xC800 },
            Scalar { single: 0x40E0_0000, half: 0x4700 },
        ),
        DataType::Uint4 => (zero(), Scalar { single: 0x4170_0000, half: 0x4B80 }),
        DataType::Int32 => (
            Scalar { single: 0xCF00_0000, half: 0xFC00 },
            Scalar { single: 0x4F00_0000, half: 0x7C00 },
        ),
        _ => (zero(), Scalar { single: 0x4F80_0000, half: 0x7C00 }),
    }
}

/// `min(max(round(x / scale) + zero, least), greatest)` in a type.
pub open spec fn clipped_sum(
    x: Form,
    scale: Form,
    zero: Form,
    least: Form,
    greatest: Form,
    ty: TrtDataType,
) -> Form {
    let quotient = Form::Elementwise(ElementWiseOperation::kDIV, Box::new(x), Box::new(scale));
    let rounded = Form::Unary(UnaryOperation::kROUND, Box::new(quotient));
    let sum = Form::Elementwise(ElementWiseOperation::kSUM, Box::new(rounded), Box::new(zero));
    let raised = Form::Elementwise(ElementWiseOperation::kMAX, Box::new(sum), Box::new(least));
    Form::Cast(
        ty,
        Box::new(
            Form::Elementwise(ElementWiseOperation::kMIN, Box::new(raised), Box::new(greatest)),
        ),
    )
}

/// Whether a form is another, perhaps under other dimensions and in a type.
pub open spec fn is_taken(f: Form, from: Form, ty: TrtDataType) -> bool {
    is_reshaped(from, f) || match f {
        Form::Cast(t, g) => t == ty && is_reshaped(from, *g),
        _ => false,
    }
}

/// Whether a form is another, aligned with sizes, perhaps in a type.
pub open spec fn is_drawn(f: Form, from: Form, sizes: Seq<u32>, ty: TrtDataType) -> bool {
    exists|to: Form| #[trigger] is_aligned(from, to, sizes) && is_taken(f, to, ty)
}

/// Whether a form is the zero point of a quantization, which is read from another.
pub open spec fn is_zero_point(
    end: Run,
    f: Form,
    from: Form,
    sizes: Seq<u32>,
    float_ty: TrtDataType,
    source: DataType,
    ty: TrtDataType,
) -> bool {
    exists|t: Tensor, v: Form|
        end.form(t) == from && #[trigger] has_values(v, from, float_ty, source, end.dtype(t))
            && is_drawn(f, v, sizes, ty)
}

/// Whether a form is the constant 0 that is the zero point where none is given.
pub open spec fn is_no_shift(f: Form, out: DataType) -> bool {
    match f {
        Form::Constant(dims, bytes, ty) => {
            &&& dims == seq![1i64]
            &&& number_in(bytes) == 0
            &&& bytes.len() == if ty == TrtDataType::kINT32 {
                4int
            } else {
                1
            }
            &&& ty == match out {
                DataType::Int8 | DataType::Int4 => TrtDataType::kINT8,
                DataType::Uint8 | DataType::Uint4 => TrtDataType::kUINT8,
                _ => TrtDataType::kINT32,
            }
        },
        _ => false,
    }
}

/// The sizes that the graph gives an operand.
pub open spec fn sizes_of(graph: GraphInfo, id: u32) -> Seq<u32> {
    Seq::new(shape(graph, id).len(), |i: int| size(shape(graph, id)[i]))
}

/// Whether a form is `clip(round(x / scale) + z)` of these parts, and each is what it should be.
pub open spec fn is_quantized_by(
    end: Run,
    f: Form,
    n: Run,
    m: Map<u32, Tensor>,
    graph: GraphInfo,
    op: Operation,
    parts: (Form, Form, Form, Form, Form),
    zero: Form,
) -> bool {
    let (x, scale, z, least, greatest) = parts;
    let out = element(graph, op.outputs@[0]);
    let float_ty = float_for(element(graph, op.inputs@[0]));
    let ty = if out == DataType::Int32 || out == DataType::Uint32 {
        TrtDataType::kFLOAT
    } else {
        float_ty
    };
    let sizes = sizes_of(graph, op.inputs@[0]);
    &&& f == clipped_sum(x, scale, z, least, greatest, held_as(out))
    &&& is_taken(x, given(n, m, op, 0), ty)
    &&& is_drawn(scale, given(n, m, op, 1), sizes, ty)
    &&& is_single(least, least_and_greatest(out).0, ty)
    &&& is_single(greatest, least_and_greatest(out).1, ty)
    &&& if op.inputs@.len() > 2 {
        zero == given(n, m, op, 2) && is_zero_point(
            end,
            z,
            zero,
            sizes,
            float_ty,
            element(graph, op.inputs@[2]),
            ty,
        )
    } else {
        is_no_shift(zero, out) && is_zero_point(end, z, zero, sizes, float_ty, out, ty)
    }
}

/// Whether a form is `clip(round(x / scale) + zero)`.
pub open spec fn is_quantized(
    end: Run,
    f: Form,
    n: Run,
    m: Map<u32, Tensor>,
    graph: GraphInfo,
    op: Operation,
) -> bool {
    exists|parts: (Form, Form, Form, Form, Form), zero: Form| #[trigger]
        is_quantized_by(end, f, n, m, graph, op, parts, zero)
}

proof fn forms_in_type(n: Run, t: Tensor, ty: TrtDataType, what: Seq<char>, from: Form)
    requires
        in_type(n, t, ty, what).0.goes_on(),
        n.has(t),
        is_reshaped(from, n.form(t)),
    ensures
        ({
            let (after, r) = in_type(n, t, ty, what);
            after.has(r) && is_taken(after.form(r), from, ty)
        }),
{
    broadcast use {group_grows, group_forms};

    reveal(in_type);
}

proof fn forms_quantized(
    n: Run,
    x: Tensor,
    scale: Tensor,
    zero: Tensor,
    float_ty: TrtDataType,
    out_ty: TrtDataType,
    out: DataType,
    ty: TrtDataType,
)
    requires
        quantized(n, x, scale, zero, float_ty, out_ty, out).0.goes_on(),
        n.has(x),
        n.has(scale),
        n.has(zero),
        ty == if out == DataType::Int32 || out == DataType::Uint32 {
            TrtDataType::kFLOAT
        } else {
            float_ty
        },
    ensures
        ({
            let (after, r) = quantized(n, x, scale, zero, float_ty, out_ty, out);
            after.has(r) && exists|a: Form, b: Form, z: Form, least: Form, greatest: Form|
                {
                    &&& after.form(r) == #[trigger] clipped_sum(a, b, z, least, greatest, out_ty)
                    &&& is_taken(a, n.form(x), ty)
                    &&& is_taken(b, n.form(scale), ty)
                    &&& is_taken(z, n.form(zero), ty)
                    &&& is_single(least, least_and_greatest(out).0, ty)
                    &&& is_single(greatest, least_and_greatest(out).1, ty)
                }
        }),
{
    broadcast use {
        group_grows, grows_stopped, went_on, grows_with_axis, grows_in_type, grows_clamped_to,
        grows_step_elementwise, grows_step_unary, grows_step_cast,
    };

    reveal(quantized);
    let range = quantized_range(out)->0;
    let (n1, x1) = with_axis(n, x, "quantizeLinear input"@);
    let (n2, s1) = with_axis(n1, scale, "quantizeLinear scale"@);
    let (n3, z1) = with_axis(n2, zero, "quantizeLinear zero_point"@);
    let (n4, a) = in_type(n3, x1, ty, "input"@);
    let (n5, b) = in_type(n4, s1, ty, "scale"@);
    let (n6, z) = in_type(n5, z1, ty, "zero_point"@);
    let (n7, q) = n6.elementwise(
        a,
        b,
        ElementWiseOperation::kDIV,
        "quantizeLinear manual div: "@,
        "quantizeLinear manual div output: "@,
    );
    let (n8, u) = n7.unary(
        q,
        UnaryOperation::kROUND,
        "quantizeLinear manual round: "@,
        "quantizeLinear manual round output: "@,
    );
    let (n9, v) = n8.elementwise(
        u,
        z,
        ElementWiseOperation::kSUM,
        "quantizeLinear manual add zero_point: "@,
        "quantizeLinear manual add output: "@,
    );
    let (n10, w) = clamped_to(n9, v, ty, range);
    let (after, r) = quantized(n, x, scale, zero, float_ty, out_ty, out);
    assert(quantized_range(out) is Some);
    assert(after.grows(n10) && n10.goes_on());
    assert(n9.goes_on());
    assert(n8.goes_on());
    assert(n7.goes_on());
    assert(n6.goes_on());
    assert(n5.goes_on());
    assert(n4.goes_on());
    assert(n3.goes_on());
    assert(n2.goes_on());
    assert(n1.goes_on());
    forms_with_axis(n, x, "quantizeLinear input"@);
    form_is_kept(n, n1, scale);
    forms_with_axis(n1, scale, "quantizeLinear scale"@);
    form_is_kept(n, n2, zero);
    forms_with_axis(n2, zero, "quantizeLinear zero_point"@);
    form_is_kept(n1, n3, x1);
    forms_in_type(n3, x1, ty, "input"@, n.form(x));
    form_is_kept(n2, n4, s1);
    forms_in_type(n4, s1, ty, "scale"@, n.form(scale));
    form_is_kept(n3, n5, z1);
    forms_in_type(n5, z1, ty, "zero_point"@, n.form(zero));
    form_is_kept(n4, n6, a);
    form_is_kept(n5, n6, b);
    forms_elementwise(
        n6,
        a,
        b,
        ElementWiseOperation::kDIV,
        "quantizeLinear manual div: "@,
        "quantizeLinear manual div output: "@,
    );
    forms_unary(
        n7,
        q,
        UnaryOperation::kROUND,
        "quantizeLinear manual round: "@,
        "quantizeLinear manual round output: "@,
    );
    form_is_kept(n6, n8, z);
    forms_elementwise(
        n8,
        u,
        z,
        ElementWiseOperation::kSUM,
        "quantizeLinear manual add zero_point: "@,
        "quantizeLinear manual add output: "@,
    );
    forms_clamped_to(n9, v, ty, range);
    forms_cast(
        n10,
        w,
        out_ty,
        "quantizeLinear manual output cast: "@,
        "quantizeLinear manual output: "@,
    );
    let (least, greatest) = choose|least: Form, greatest: Form|
        is_single(least, known(range.0), ty) && is_single(greatest, known(range.1), ty)
            && n10.form(w) == #[trigger] between(n9.form(v), least, greatest);
    assert(after.form(r) == clipped_sum(
        n6.form(a),
        n6.form(b),
        n6.form(z),
        least,
        greatest,
        out_ty,
    ));
}

/// A form between two others.
pub open spec fn between(f: Form, least: Form, greatest: Form) -> Form {
    Form::Elementwise(
        ElementWiseOperation::kMIN,
        Box::new(Form::Elementwise(ElementWiseOperation::kMAX, Box::new(f), Box::new(least))),
        Box::new(greatest),
    )
}

proof fn forms_clamped_to(n: Run, t: Tensor, ty: TrtDataType, range: (Known, Known))
    requires
        clamped_to(n, t, ty, range).0.goes_on(),
        n.has(t),
    ensures
        ({
            let (after, r) = clamped_to(n, t, ty, range);
            after.has(r) && exists|least: Form, greatest: Form|
                is_single(least, known(range.0), ty) && is_single(greatest, known(range.1), ty)
                    && after.form(r) == #[trigger] between(n.form(t), least, greatest)
        }),
{
    broadcast use {group_grows, group_forms};

    reveal(clamped_to);
    let d = n.dims(t, "quantizeLinear manual summed dimensions: "@).1;
    single_holds(known(range.0), ty, ones(d.len()));
    single_holds(known(range.1), ty, ones(d.len()));
    let (after, r) = clamped_to(n, t, ty, range);
    assert(after.form(r) == between(
        n.form(t),
        Form::Constant(ones(d.len()), trt_float_bytes(known(range.0), ty), ty),
        Form::Constant(ones(d.len()), trt_float_bytes(known(range.1), ty), ty),
    ));
}

/// Quantization is `clip(round(x / scale) + zero)`, with 0 in place of the zero point where none is
/// given, in the range of the type of the output. Where there is no zero point, nothing is a scalar
/// and the output is of 8 bits with a sign, the layer of TensorRT that does the same is used.
pub proof fn quantize_linear_computes(
    n: Run,
    m: Map<u32, Tensor>,
    graph: GraphInfo,
    op: Operation,
    promoted: Set<u32>,
)
    requires
        went_through(n, m, operation_added(n, m, graph, op, promoted)),
        op.kind is QuantizeLinear,
        op.inputs@.len() > 2 || element(graph, op.outputs@[0]) != DataType::Int8 || reported(
            n,
            m[op.inputs@[0]],
        ).len() == 0 || reported(n, m[op.inputs@[1]]).len() == 0,
        op.inputs@.len() > 2 || !(element(graph, op.outputs@[0]) is Float32 || element(
            graph,
            op.outputs@[0],
        ) is Float16 || element(graph, op.outputs@[0]) is Int64 || element(graph, op.outputs@[0])
            is Uint64),
    ensures
        ({
            let (end, _) = operation_added(n, m, graph, op, promoted);
            let r = made(op, operation_added(n, m, graph, op, promoted));
            if shape(graph, op.inputs@[0]).len() == 0 {
                r matches Form::Reshaped(dims, f) && dims.len() == 0 && is_quantized(
                    end,
                    *f,
                    n,
                    m,
                    graph,
                    op,
                )
            } else {
                is_quantized(end, r, n, m, graph, op)
            }
        }),
{
    broadcast use {
        group_grows, grows_stopped, went_on, grows_is_scalar, grows_quantize_zero, grows_aligned,
        grows_quantized, grows_step_reshape,
    };

    kinds::quantize_linear_is_added(n, m, graph, op, promoted);
    reveal(is_scalar);
    reveal(Run::dims);
    let x = m[op.inputs@[0]];
    let scale = m[op.inputs@[1]];
    let third = op.inputs@.len() > 2;
    let given_zero = if third {
        m[op.inputs@[2]]
    } else {
        scale
    };
    let out = element(graph, op.outputs@[0]);
    let float_ty = float_for(element(graph, op.inputs@[0]));
    let ty = if out == DataType::Int32 || out == DataType::Uint32 {
        TrtDataType::kFLOAT
    } else {
        float_ty
    };
    let sizes = max_sizes(shape(graph, op.inputs@[0]));
    assert(sizes =~= sizes_of(graph, op.inputs@[0]));
    let (a, (zero, source)) = quantize_zero(n, graph, op, given_zero, out);
    let (b, s) = aligned(a, scale, sizes, "quantizeLinear scale"@, None, DataType::Int8);
    let (c, z) = aligned(
        b,
        zero,
        sizes,
        "quantizeLinear zero_point"@,
        Some(float_ty),
        source,
    );
    let (d, t) = quantized(c, x, s, z, float_ty, trt_type(out), out);
    let end = quantize_linear_op(n, m, graph, op).0;
    assert(end.grows(d) && d.goes_on());
    assert(c.goes_on());
    assert(b.goes_on());
    assert(a.goes_on());
    let z0 = a.form(zero);
    assert(a.has(zero) && (third ==> zero == given_zero && source == element(graph, op.inputs@[2]))
        && (!third ==> is_no_shift(z0, out) && source == out)) by {
        reveal(quantize_zero);
        broadcast use group_forms;

        reveal_with_fuel(number_in, 5);
        assert(ones(1) =~= seq![1i64]);
    }
    form_is_kept(n, a, given_zero);
    form_is_kept(n, a, scale);
    aligned_means(a, scale, sizes, "quantizeLinear scale"@, None, DataType::Int8);
    form_is_kept(a, b, zero);
    aligned_means(b, zero, sizes, "quantizeLinear zero_point"@, Some(float_ty), source);
    form_is_kept(n, c, x);
    form_is_kept(b, c, s);
    forms_quantized(c, x, s, z, float_ty, trt_type(out), out, ty);
    let (p, q, k, least, greatest) = choose|
        p: Form,
        q: Form,
        k: Form,
        least: Form,
        greatest: Form,
    |
        {
            &&& d.form(t) == #[trigger] clipped_sum(p, q, k, least, greatest, trt_type(out))
            &&& is_taken(p, c.form(x), ty)
            &&& is_taken(q, c.form(s), ty)
            &&& is_taken(k, c.form(z), ty)
            &&& is_single(least, least_and_greatest(out).0, ty)
            &&& is_single(greatest, least_and_greatest(out).1, ty)
        };
    let (e, v) = parameter_values(
        b,
        zero,
        "quantizeLinear zero_point"@,
        Some(float_ty),
        source,
    );
    assert(e.goes_on()) by {
        reveal(aligned);
        broadcast use {grows_byte_values, grows_with_axis, grows_prepended, grows_block_axes};

    }
    assert(has_values(e.form(v), z0, float_ty, source, b.dtype(zero))) by {
        if is_byte(b.dtype(zero)) {
            forms_byte_values(b, zero, float_ty, "quantizeLinear zero_point"@, source);
        }
    }
    form_is_kept(a, end, zero);
    assert(end.dtype(zero) == b.dtype(zero)) by {
        reveal(Run::grows);
    }
    assert(is_drawn(k, e.form(v), sizes, ty));
    assert(is_zero_point(end, k, z0, sizes, float_ty, source, ty));
    assert(is_drawn(q, n.form(scale), sizes, ty));
    assert(is_quantized_by(
        end,
        d.form(t),
        n,
        m,
        graph,
        op,
        (p, q, k, least, greatest),
        z0,
    ));
    if sizes.len() == 0 {
        broadcast use forms_reshape;

    }
}

} // verus!
