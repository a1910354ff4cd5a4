//! Operations on elements: arithmetic, comparison, logic, activations and functions of one
//! element.

use crate::data_type::DataType;
use crate::graph::GraphInfo;
use crate::operators::{op_type_name, Operation, OperationKind};
use crate::scalar::{
    exceeds, float_bytes, float_bytes_of, float_type, float_type_of, is_above, is_nan, is_nan_bits,
    is_near_one, is_roughly_one_fifth, is_roughly_one_half, known, le2, le2_bytes, le4, le4_bytes,
    near_one, roughly_one_fifth, roughly_one_half, Known, Scalar, SINGLE_EPSILON,
};
use crate::text::say;
use crate::trtx::broadcast::{
    broadcast_pair, group_broadcast_stopped, ones, ones_vec, scalar_shape, to_bool, to_float32,
};
use crate::trtx::session::{
    copy_i64, does, find_operand, gives, group_stopped, store, Halt, Network, Request, RequestOf,
    Run, TensorMap,
};
use crate::trtx::steps::group_layers_stopped;
use crate::trtx::types::{
    trt_data_type_name, ActivationType, ElementWiseOperation, Tensor, TrtDataType, UnaryOperation,
};
use crate::trtx::TrtxConverter;
use vstd::prelude::*;

verus! {

broadcast use {group_stopped, group_layers_stopped, group_broadcast_stopped};

/// The bytes of `s` as an element of a tensor of a TensorRT float type.
pub open spec fn trt_float_bytes(s: Scalar, ty: TrtDataType) -> Seq<u8> {
    if ty == TrtDataType::kHALF {
        le2(s.half)
    } else {
        le4(s.single)
    }
}

/// The bytes of `s` as an element of a tensor of a TensorRT float type.
pub fn trt_float_bytes_of(s: Scalar, ty: TrtDataType) -> (b: Vec<u8>)
    ensures
        b@ == trt_float_bytes(s, ty),
{
    if ty == TrtDataType::kHALF {
        le2_bytes(s.half)
    } else {
        le4_bytes(s.single)
    }
}

/// The two inputs of a binary operation, stretched to a common shape.
pub open spec fn binary_inputs(n: Run, m: Map<u32, Tensor>, op: Operation) -> (
    Run,
    (Tensor, Tensor),
) {
    let (n, a) = n.find(m, op.inputs@[0], "Input operand "@, " not found"@);
    let (n, b) = n.find(m, op.inputs@[1], "Input operand "@, " not found"@);
    broadcast_pair(n, a, b, op_type_name(op.kind))
}

/// A binary operation: the inputs are stretched to a common shape and combined.
pub open spec fn elementwise_op(
    n: Run,
    m: Map<u32, Tensor>,
    op: Operation,
    code: ElementWiseOperation,
) -> (Run, Map<u32, Tensor>) {
    let (n, (a, b)) = binary_inputs(n, m, op);
    let (n, t) = n.elementwise(
        a,
        b,
        code,
        "Failed to add elementwise operation: "@,
        "Failed to get layer output: "@,
    );
    store(n, m, op.outputs@[0], t)
}

/// A comparison: a binary operation whose truth values are cast to `f32`.
pub open spec fn comparison_op(
    n: Run,
    m: Map<u32, Tensor>,
    op: Operation,
    code: ElementWiseOperation,
) -> (Run, Map<u32, Tensor>) {
    let (n, (a, b)) = binary_inputs(n, m, op);
    let (n, t) = n.elementwise(
        a,
        b,
        code,
        "Failed to add comparison operation: "@,
        "Failed to get layer output: "@,
    );
    let (n, t) = to_float32(n, t);
    store(n, m, op.outputs@[0], t)
}

/// Whether the operand `id` has one of the two eight-bit types.
pub open spec fn is_eight_bit(graph: GraphInfo, id: u32) -> bool {
    id < graph.operands@.len() && {
        let t = graph.operands@[id as int].descriptor.data_type;
        t == DataType::Uint8 || t == DataType::Int8
    }
}

/// `t` as `f32` values where the operand `id` has an eight-bit type.
pub open spec fn promoted(n: Run, graph: GraphInfo, id: u32, t: Tensor) -> (Run, Tensor) {
    if is_eight_bit(graph, id) {
        to_float32(n, t)
    } else {
        (n, t)
    }
}

/// A logical operation: the inputs are stretched as floats, cast to booleans and combined, and the
/// truth values are cast to `f32`.
pub open spec fn logical_binary_op(
    n: Run,
    m: Map<u32, Tensor>,
    graph: GraphInfo,
    op: Operation,
    code: ElementWiseOperation,
) -> (Run, Map<u32, Tensor>) {
    let (n, a) = n.find(m, op.inputs@[0], "Input operand "@, " not found"@);
    let (n, b) = n.find(m, op.inputs@[1], "Input operand "@, " not found"@);
    let (n, a) = promoted(n, graph, op.inputs@[0], a);
    let (n, b) = promoted(n, graph, op.inputs@[1], b);
    let (n, (a, b)) = broadcast_pair(n, a, b, op_type_name(op.kind));
    let (n, a) = to_bool(n, a);
    let (n, b) = to_bool(n, b);
    let (n, t) = n.elementwise(
        a,
        b,
        code,
        "Failed to add logical operation: "@,
        "Failed to get layer output: "@,
    );
    let (n, t) = to_float32(n, t);
    store(n, m, op.outputs@[0], t)
}

/// Whether the first input is greater than the second, or equal.
pub open spec fn greater_or_equal_op(
    n: Run,
    m: Map<u32, Tensor>,
    op: Operation,
) -> (Run, Map<u32, Tensor>) {
    let (n, (a, b)) = binary_inputs(n, m, op);
    let (n, strict) = n.elementwise(
        a,
        b,
        ElementWiseOperation::kGREATER,
        "Failed to add greater layer: "@,
        "Failed to get greater output: "@,
    );
    let (n, equal) = n.elementwise(
        a,
        b,
        ElementWiseOperation::kEQUAL,
        "Failed to add equal layer: "@,
        "Failed to get equal output: "@,
    );
    let (n, t) = n.elementwise(
        strict,
        equal,
        ElementWiseOperation::kOR,
        "Failed to add OR layer: "@,
        "Failed to get OR output: "@,
    );
    let (n, t) = to_float32(n, t);
    store(n, m, op.outputs@[0], t)
}

/// Whether the first input is less than the second, or equal.
pub open spec fn lesser_or_equal_op(
    n: Run,
    m: Map<u32, Tensor>,
    op: Operation,
) -> (Run, Map<u32, Tensor>) {
    let (n, (a, b)) = binary_inputs(n, m, op);
    let (n, strict) = n.elementwise(
        a,
        b,
        ElementWiseOperation::kLESS,
        "Failed to add lesser layer: "@,
        "Failed to get lesser output: "@,
    );
    let (n, equal) = n.elementwise(
        a,
        b,
        ElementWiseOperation::kEQUAL,
        "Failed to add equal layer: "@,
        "Failed to get equal output: "@,
    );
    let (n, t) = n.elementwise(
        strict,
        equal,
        ElementWiseOperation::kOR,
        "Failed to add OR layer: "@,
        "Failed to get OR output: "@,
    );
    let (n, t) = to_float32(n, t);
    store(n, m, op.outputs@[0], t)
}

/// The negation of equality.
pub open spec fn not_equal_op(n: Run, m: Map<u32, Tensor>, op: Operation) -> (Run, Map<u32, Tensor>) {
    let (n, (a, b)) = binary_inputs(n, m, op);
    let (n, equal) = n.elementwise(
        a,
        b,
        ElementWiseOperation::kEQUAL,
        "Failed to add equal layer: "@,
        "Failed to get equal output: "@,
    );
    let (n, t) = n.unary(
        equal,
        UnaryOperation::kNOT,
        "Failed to add NOT layer: "@,
        "Failed to get NOT output: "@,
    );
    let (n, t) = to_float32(n, t);
    store(n, m, op.outputs@[0], t)
}

/// An activation function of the input.
pub open spec fn activation_op(
    n: Run,
    m: Map<u32, Tensor>,
    op: Operation,
    kind: ActivationType,
) -> (Run, Map<u32, Tensor>) {
    let (n, x) = n.find(m, op.inputs@[0], "Input operand "@, " not found"@);
    let (n, t) = n.activation(
        x,
        kind,
        "Failed to add activation: "@,
        "Failed to get layer output: "@,
    );
    store(n, m, op.outputs@[0], t)
}

/// A function of each element of the input.
pub open spec fn unary_op(
    n: Run,
    m: Map<u32, Tensor>,
    op: Operation,
    code: UnaryOperation,
) -> (Run, Map<u32, Tensor>) {
    let (n, x) = n.find(m, op.inputs@[0], "Input operand "@, " not found"@);
    let (n, t) = n.unary(
        x,
        code,
        "Failed to add unary operation: "@,
        "Failed to get layer output: "@,
    );
    store(n, m, op.outputs@[0], t)
}

/// A copy of the input.
pub open spec fn identity_op(n: Run, m: Map<u32, Tensor>, op: Operation) -> (Run, Map<u32, Tensor>) {
    let (n, x) = n.find(m, op.inputs@[0], "Input operand "@, " not found"@);
    let (n, t) = n.identity(
        x,
        "Failed to add identity layer: "@,
        "Failed to get identity output: "@,
    );
    store(n, m, op.outputs@[0], t)
}

/// The input rounded to the nearest integer, halves to the even one.
pub open spec fn round_even_op(
    n: Run,
    m: Map<u32, Tensor>,
    op: Operation,
) -> (Run, Map<u32, Tensor>) {
    let (n, x) = n.find(m, op.inputs@[0], "Input operand "@, " not found"@);
    let (n, t) = n.unary(
        x,
        UnaryOperation::kROUND,
        "Failed to create ROUND layer: "@,
        "Failed to get roundEven output: "@,
    );
    store(n, m, op.outputs@[0], t)
}

/// Whether an element is not equal to itself.
pub open spec fn is_nan_op(n: Run, m: Map<u32, Tensor>, op: Operation) -> (Run, Map<u32, Tensor>) {
    let (n, x) = n.find(m, op.inputs@[0], "Input operand "@, " not found"@);
    let (n, same) = n.elementwise(
        x,
        x,
        ElementWiseOperation::kEQUAL,
        "Failed to create EQUAL layer for isNaN: "@,
        "Failed to get EQUAL output: "@,
    );
    let (n, t) = n.unary(
        same,
        UnaryOperation::kNOT,
        "Failed to create NOT layer for isNaN: "@,
        "Failed to get isNaN output: "@,
    );
    let (n, t) = to_float32(n, t);
    store(n, m, op.outputs@[0], t)
}

/// Whether the absolute value of an element is infinity.
pub open spec fn is_infinite_op(
    n: Run,
    m: Map<u32, Tensor>,
    op: Operation,
) -> (Run, Map<u32, Tensor>) {
    let (n, x) = n.find(m, op.inputs@[0], "Input operand "@, " not found"@);
    let (n, abs) = n.unary(
        x,
        UnaryOperation::kABS,
        "Failed to create ABS layer for isInfinite: "@,
        "Failed to get ABS output: "@,
    );
    let (n, d) = n.dims(abs, "isInfinite: abs output dimensions: "@);
    let ty = n.dtype(abs);
    let n = n.reject_if(
        ty != TrtDataType::kHALF && ty != TrtDataType::kFLOAT,
        "isInfinite: expected float16 or float32 abs tensor, got TRT dtype id "@
            + trt_data_type_name(ty),
    );
    let (n, infinity) = n.constant(
        ones(d.len()),
        trt_float_bytes(known(Known::Infinity), ty),
        ty,
        "Failed to create infinity constant: "@,
        "Failed to get infinity tensor: "@,
    );
    let (n, t) = n.elementwise(
        abs,
        infinity,
        ElementWiseOperation::kEQUAL,
        "Failed to create EQUAL layer for isInfinite: "@,
        "Failed to get isInfinite output: "@,
    );
    let (n, t) = to_float32(n, t);
    store(n, m, op.outputs@[0], t)
}

/// The factor of an ELU, 1 where none is given.
pub open spec fn elu_alpha(kind: OperationKind) -> Scalar {
    match kind {
        OperationKind::Elu { options: Some(o) } => o.alpha,
        _ => known(Known::One),
    }
}

/// ELU: `relu(x) + alpha * min(0, exp(x) - 1)`. TensorRT's own ELU serves where `alpha` is 1 and
/// the type is not `Float16`.
pub open spec fn elu_op(
    n: Run,
    m: Map<u32, Tensor>,
    graph: GraphInfo,
    op: Operation,
) -> (Run, Map<u32, Tensor>) {
    let (n, x) = n.find(m, op.inputs@[0], "Input operand "@, " not found"@);
    let (n, operand) = n.operand(graph, op.inputs@[0], "Input operand "@, " not found in graph"@);
    let dt = operand.descriptor.data_type;
    let alpha = elu_alpha(op.kind);
    if near_one(alpha.single) && dt != DataType::Float16 {
        activation_op(n, m, op, ActivationType::kELU)
    } else {
        let ty = float_type(dt);
        let (n, shape) = scalar_shape(n, x, operand.descriptor.shape@.len(), "elu"@);
        let (n, relu) = n.activation(
            x,
            ActivationType::kRELU,
            "Failed to add relu for elu: "@,
            "Failed to get relu output: "@,
        );
        let (n, exp) = n.unary(
            x,
            UnaryOperation::kEXP,
            "Failed to add exp for elu: "@,
            "Failed to get exp output: "@,
        );
        let (n, one) = n.constant(
            shape,
            float_bytes(known(Known::One), dt),
            ty,
            "Failed to create one constant for elu: "@,
            "Failed to get one constant output: "@,
        );
        let (n, (exp, one)) = broadcast_pair(n, exp, one, "elu_exp_sub"@);
        let (n, below) = n.elementwise(
            exp,
            one,
            ElementWiseOperation::kSUB,
            "Failed to subtract 1 for elu: "@,
            "Failed to get exp-1 output: "@,
        );
        let (n, zero) = n.constant(
            shape,
            float_bytes(known(Known::Zero), dt),
            ty,
            "Failed to create zero constant for elu: "@,
            "Failed to get zero constant output: "@,
        );
        let (n, (below, zero)) = broadcast_pair(n, below, zero, "elu_min"@);
        let (n, negative) = n.elementwise(
            below,
            zero,
            ElementWiseOperation::kMIN,
            "Failed to add min for elu: "@,
            "Failed to get neg part output: "@,
        );
        let (n, factor) = n.constant(
            shape,
            float_bytes(alpha, dt),
            ty,
            "Failed to create alpha constant for elu: "@,
            "Failed to get alpha constant output: "@,
        );
        let (n, (negative, factor)) = broadcast_pair(n, negative, factor, "elu_scale"@);
        let (n, scaled) = n.elementwise(
            negative,
            factor,
            ElementWiseOperation::kPROD,
            "Failed to multiply by alpha for elu: "@,
            "Failed to get scaled neg output: "@,
        );
        let (n, (relu, scaled)) = broadcast_pair(n, relu, scaled, "elu_add"@);
        let (n, t) = n.elementwise(
            relu,
            scaled,
            ElementWiseOperation::kSUM,
            "Failed to add elu parts: "@,
            "Failed to get elu output: "@,
        );
        store(n, m, op.outputs@[0], t)
    }
}

/// The slope of a leaky ReLU below 0, 0.01 where none is given.
pub open spec fn leaky_alpha(kind: OperationKind) -> Scalar {
    match kind {
        OperationKind::LeakyRelu { options: Some(o) } => o.alpha,
        _ => known(Known::OneHundredth),
    }
}

/// Leaky ReLU: `relu(x) + alpha * (x - relu(x))`.
pub open spec fn leaky_relu_op(
    n: Run,
    m: Map<u32, Tensor>,
    graph: GraphInfo,
    op: Operation,
) -> (Run, Map<u32, Tensor>) {
    let (n, x) = n.find(m, op.inputs@[0], "Input operand "@, " not found"@);
    let (n, operand) = n.operand(graph, op.inputs@[0], "Input operand "@, " not found in graph"@);
    let dt = operand.descriptor.data_type;
    let alpha = leaky_alpha(op.kind);
    let (n, shape) = scalar_shape(n, x, operand.descriptor.shape@.len(), "leakyRelu"@);
    let (n, factor) = n.constant(
        shape,
        float_bytes(alpha, dt),
        float_type(dt),
        "LeakyReLU: failed to add alpha constant: "@,
        "LeakyReLU: alpha const output: "@,
    );
    let (n, relu) = n.activation(
        x,
        ActivationType::kRELU,
        "Failed to add relu for leaky relu: "@,
        "Failed to get relu output: "@,
    );
    let (n, negative) = n.elementwise(
        x,
        relu,
        ElementWiseOperation::kSUB,
        "Failed to get min(0,x) for leaky relu: "@,
        "Failed to get neg part output: "@,
    );
    let (n, scaled) = n.elementwise(
        negative,
        factor,
        ElementWiseOperation::kPROD,
        "Failed to scale neg part for leaky relu: "@,
        "Failed to get scaled neg output: "@,
    );
    let (n, t) = n.elementwise(
        relu,
        scaled,
        ElementWiseOperation::kSUM,
        "Failed to add leaky relu parts: "@,
        "Failed to get leaky relu output: "@,
    );
    store(n, m, op.outputs@[0], t)
}

/// PReLU: the slope below 0 is a tensor.
pub open spec fn prelu_op(n: Run, m: Map<u32, Tensor>, op: Operation) -> (Run, Map<u32, Tensor>) {
    let (n, x) = n.find(m, op.inputs@[0], "Input operand "@, " not found"@);
    let (n, slope) = n.find(m, op.inputs@[1], "Slope operand "@, " not found"@);
    let (n, (x, slope)) = broadcast_pair(n, x, slope, "prelu_slope"@);
    let (n, t) = n.layer(
        RequestOf::AddParametricRelu { input: x, slope },
        "Failed to add parametric relu: "@,
        "Failed to get prelu output: "@,
    );
    store(n, m, op.outputs@[0], t)
}

/// The factor and the shift of a hard sigmoid, 0.2 and 0.5 where none are given.
pub open spec fn hard_sigmoid_coefficients(kind: OperationKind) -> (Scalar, Scalar) {
    match kind {
        OperationKind::HardSigmoid { options: Some(o) } => (o.alpha, o.beta),
        _ => (known(Known::OneFifth), known(Known::OneHalf)),
    }
}

/// Hard sigmoid: `max(0, min(alpha * x + beta, 1))`. TensorRT's own hard sigmoid serves where
/// `alpha` is 0.2 and `beta` is 0.5.
pub open spec fn hard_sigmoid_op(
    n: Run,
    m: Map<u32, Tensor>,
    graph: GraphInfo,
    op: Operation,
) -> (Run, Map<u32, Tensor>) {
    let (n, x) = n.find(m, op.inputs@[0], "Input operand "@, " not found"@);
    let (alpha, beta) = hard_sigmoid_coefficients(op.kind);
    if roughly_one_fifth(alpha.single) && roughly_one_half(beta.single) {
        let (n, t) = n.activation(
            x,
            ActivationType::kHARD_SIGMOID,
            "Failed to add hard sigmoid: "@,
            "Failed to get layer output: "@,
        );
        store(n, m, op.outputs@[0], t)
    } else {
        let (n, operand) = n.operand(
            graph,
            op.inputs@[0],
            "Input operand "@,
            " not found in graph"@,
        );
        let dt = operand.descriptor.data_type;
        let (n, d) = n.dims(x, "HardSigmoid: failed to get input dimensions: "@);
        let ty = float_type(dt);
        let (n, la) = n.add_constant(
            ones(d.len()),
            float_bytes(alpha, dt),
            ty,
            "HardSigmoid: failed to add alpha constant: "@,
        );
        let (n, lb) = n.add_constant(
            ones(d.len()),
            float_bytes(beta, dt),
            ty,
            "HardSigmoid: failed to add beta constant: "@,
        );
        let (n, lz) = n.add_constant(
            ones(d.len()),
            float_bytes(known(Known::Zero), dt),
            ty,
            "HardSigmoid: failed to add zero constant: "@,
        );
        let (n, lo) = n.add_constant(
            ones(d.len()),
            float_bytes(known(Known::One), dt),
            ty,
            "HardSigmoid: failed to add one constant: "@,
        );
        let (n, a) = n.output(la, "HardSigmoid: alpha const output: "@);
        let (n, b) = n.output(lb, "HardSigmoid: beta const output: "@);
        let (n, zero) = n.output(lz, "HardSigmoid: zero const output: "@);
        let (n, one) = n.output(lo, "HardSigmoid: one const output: "@);
        let (n, product) = n.elementwise(
            x,
            a,
            ElementWiseOperation::kPROD,
            "HardSigmoid: alpha*x: "@,
            "HardSigmoid: linear get output: "@,
        );
        let (n, linear) = n.elementwise(
            product,
            b,
            ElementWiseOperation::kSUM,
            "HardSigmoid: linear+beta: "@,
            "HardSigmoid: linear_out: "@,
        );
        let (n, upper) = n.elementwise(
            linear,
            one,
            ElementWiseOperation::kMIN,
            "HardSigmoid: min(1, linear): "@,
            "HardSigmoid: min1 output: "@,
        );
        let (n, t) = n.elementwise(
            zero,
            upper,
            ElementWiseOperation::kMAX,
            "HardSigmoid: max(0, ...): "@,
            "HardSigmoid: output: "@,
        );
        store(n, m, op.outputs@[0], t)
    }
}

/// Hard swish: `x * max(0, min(6, x + 3)) / 6`.
pub open spec fn hard_swish_op(
    n: Run,
    m: Map<u32, Tensor>,
    graph: GraphInfo,
    op: Operation,
) -> (Run, Map<u32, Tensor>) {
    let (n, x) = n.find(m, op.inputs@[0], "Input operand "@, " not found"@);
    let (n, operand) = n.operand(graph, op.inputs@[0], "Input operand "@, " not found in graph"@);
    let dt = operand.descriptor.data_type;
    let (n, d) = n.dims(x, "HardSwish: failed to get input dimensions: "@);
    let ty = float_type(dt);
    let (n, l3) = n.add_constant(
        ones(d.len()),
        float_bytes(known(Known::Three), dt),
        ty,
        "HardSwish: failed to add 3 constant: "@,
    );
    let (n, l6) = n.add_constant(
        ones(d.len()),
        float_bytes(known(Known::Six), dt),
        ty,
        "HardSwish: failed to add 6 constant: "@,
    );
    let (n, l0) = n.add_constant(
        ones(d.len()),
        float_bytes(known(Known::Zero), dt),
        ty,
        "HardSwish: failed to add zero constant: "@,
    );
    let (n, three) = n.output(l3, "HardSwish: 3 const output: "@);
    let (n, six) = n.output(l6, "HardSwish: 6 const output: "@);
    let (n, zero) = n.output(l0, "HardSwish: zero const output: "@);
    let (n, shifted) = n.elementwise(
        x,
        three,
        ElementWiseOperation::kSUM,
        "HardSwish: add(input, 3): "@,
        "HardSwish: x+3 output: "@,
    );
    let (n, upper) = n.elementwise(
        six,
        shifted,
        ElementWiseOperation::kMIN,
        "HardSwish: min(6, x+3): "@,
        "HardSwish: min6 output: "@,
    );
    let (n, inner) = n.elementwise(
        zero,
        upper,
        ElementWiseOperation::kMAX,
        "HardSwish: max(0, ...): "@,
        "HardSwish: inner output: "@,
    );
    let (n, product) = n.elementwise(
        x,
        inner,
        ElementWiseOperation::kPROD,
        "HardSwish: mul(input, inner): "@,
        "HardSwish: x*inner output: "@,
    );
    let (n, t) = n.elementwise(
        product,
        six,
        ElementWiseOperation::kDIV,
        "HardSwish: div(..., 6): "@,
        "HardSwish: output: "@,
    );
    store(n, m, op.outputs@[0], t)
}

/// The factor and the shift of a linear function, 1 and 0 where none are given.
pub open spec fn linear_coefficients(kind: OperationKind) -> (Scalar, Scalar) {
    match kind {
        OperationKind::Linear { options: Some(o) } => (o.alpha, o.beta),
        _ => (known(Known::One), known(Known::Zero)),
    }
}

/// Linear: `alpha * x + beta`. A factor of 1 is left out, and so is a shift of 0; what is not a
/// number counts as either.
pub open spec fn linear_op(
    n: Run,
    m: Map<u32, Tensor>,
    graph: GraphInfo,
    op: Operation,
) -> (Run, Map<u32, Tensor>) {
    let (n, x) = n.find(m, op.inputs@[0], "Input operand "@, " not found"@);
    let (n, operand) = n.operand(graph, op.inputs@[0], "Input operand "@, " not found in graph"@);
    let dt = operand.descriptor.data_type;
    let (n, shape) = scalar_shape(n, x, operand.descriptor.shape@.len(), "linear"@);
    let (alpha, beta) = linear_coefficients(op.kind);
    let (n, product) = if !near_one(alpha.single) && !is_nan(alpha.single) {
        let (n, a) = n.constant(
            shape,
            float_bytes(alpha, dt),
            float_type(dt),
            "Failed to create alpha constant: "@,
            "Failed to get alpha constant output: "@,
        );
        n.elementwise(
            x,
            a,
            ElementWiseOperation::kPROD,
            "Failed to multiply by alpha: "@,
            "Failed to get multiply output: "@,
        )
    } else {
        n.identity(x, "Failed to add identity layer: "@, "Failed to get identity output: "@)
    };
    let (n, t) = if exceeds(beta.single, SINGLE_EPSILON) {
        let (n, b) = n.constant(
            shape,
            float_bytes(beta, dt),
            float_type(dt),
            "Failed to create beta constant: "@,
            "Failed to get beta constant output: "@,
        );
        n.elementwise(
            product,
            b,
            ElementWiseOperation::kSUM,
            "Failed to add beta: "@,
            "Failed to get add output: "@,
        )
    } else {
        (n, product)
    };
    store(n, m, op.outputs@[0], t)
}

impl TrtxConverter {
    /// The two inputs of a binary operation, made compatible.
    pub fn binary_inputs(net: &mut Network, tensors: &TensorMap, operation: &Operation) -> (r: Result<
        (Tensor, Tensor),
        Halt,
    >)
        requires
            operation.inputs@.len() >= 2,
        ensures
            gives(final(net)@, r, binary_inputs(old(net)@, tensors@, *operation)),
    {
        let input0 = tensors.find(operation.inputs[0], "Input operand ", " not found")?;
        let input1 = tensors.find(operation.inputs[1], "Input operand ", " not found")?;
        Self::ensure_broadcast_compatible(net, input0, input1, operation.op_type())
    }

    /// Adds a binary operation.
    pub fn add_elementwise_op(
        net: &mut Network,
        tensors: &mut TensorMap,
        operation: &Operation,
        code: ElementWiseOperation,
    ) -> (r: Result<(), Halt>)
        requires
            operation.inputs@.len() >= 2,
            operation.outputs@.len() >= 1,
        ensures
            does(
                final(net)@,
                r,
                final(tensors)@,
                elementwise_op(old(net)@, old(tensors)@, *operation, code),
            ),
    {
        let (a, b) = Self::binary_inputs(net, tensors, operation)?;
        let t = net.elementwise(
            a,
            b,
            code,
            "Failed to add elementwise operation: ",
            "Failed to get layer output: ",
        )?;
        tensors.insert(operation.outputs[0], t);
        Ok(())
    }

    /// Adds a comparison.
    pub fn add_comparison_op(
        net: &mut Network,
        tensors: &mut TensorMap,
        operation: &Operation,
        code: ElementWiseOperation,
    ) -> (r: Result<(), Halt>)
        requires
            operation.inputs@.len() >= 2,
            operation.outputs@.len() >= 1,
        ensures
            does(
                final(net)@,
                r,
                final(tensors)@,
                comparison_op(old(net)@, old(tensors)@, *operation, code),
            ),
    {
        let (a, b) = Self::binary_inputs(net, tensors, operation)?;
        let t = net.elementwise(
            a,
            b,
            code,
            "Failed to add comparison operation: ",
            "Failed to get layer output: ",
        )?;
        let t = Self::cast_to_float32(net, t)?;
        tensors.insert(operation.outputs[0], t);
        Ok(())
    }

    /// Casts `t` to `f32` where the operand `id` has an eight-bit type.
    pub fn promoted(
        net: &mut Network,
        graph: &GraphInfo,
        id: u32,
        t: Tensor,
    ) -> (r: Result<Tensor, Halt>)
        ensures
            gives(final(net)@, r, promoted(old(net)@, *graph, id, t)),
    {
        let eight_bit = match graph.operand(id) {
            Some(
                o,
            ) => o.descriptor.data_type == DataType::Uint8 || o.descriptor.data_type == DataType::Int8, None => false,
        };
        if eight_bit {
            Self::cast_to_float32(net, t)
        } else {
            Ok(t)
        }
    }

    /// Adds a logical operation. TensorRT combines booleans only, and stretches none, so the inputs
    /// are stretched first and cast then.
    pub fn add_logical_binary_op(
        graph: &GraphInfo,
        net: &mut Network,
        tensors: &mut TensorMap,
        operation: &Operation,
        code: ElementWiseOperation,
    ) -> (r: Result<(), Halt>)
        requires
            operation.inputs@.len() >= 2,
            operation.outputs@.len() >= 1,
        ensures
            does(
                final(net)@,
                r,
                final(tensors)@,
                logical_binary_op(old(net)@, old(tensors)@, *graph, *operation, code),
            ),
    {
        let a = tensors.find(operation.inputs[0], "Input operand ", " not found")?;
        let b = tensors.find(operation.inputs[1], "Input operand ", " not found")?;
        let a = Self::promoted(net, graph, operation.inputs[0], a)?;
        let b = Self::promoted(net, graph, operation.inputs[1], b)?;
        let (a, b) = Self::ensure_broadcast_compatible(net, a, b, operation.op_type())?;
        let a = Self::cast_to_bool(net, a)?;
        let b = Self::cast_to_bool(net, b)?;
        let t = net.elementwise(
            a,
            b,
            code,
            "Failed to add logical operation: ",
            "Failed to get layer output: ",
        )?;
        let t = Self::cast_to_float32(net, t)?;
        tensors.insert(operation.outputs[0], t);
        Ok(())
    }

    /// Adds greaterOrEqual: greater, or equal.
    pub fn add_greater_or_equal_op(
        net: &mut Network,
        tensors: &mut TensorMap,
        operation: &Operation,
    ) -> (r: Result<(), Halt>)
        requires
            operation.inputs@.len() >= 2,
            operation.outputs@.len() >= 1,
        ensures
            does(
                final(net)@,
                r,
                final(tensors)@,
                greater_or_equal_op(old(net)@, old(tensors)@, *operation),
            ),
    {
        let (a, b) = Self::binary_inputs(net, tensors, operation)?;
        let strict = net.elementwise(
            a,
            b,
            ElementWiseOperation::kGREATER,
            "Failed to add greater layer: ",
            "Failed to get greater output: ",
        )?;
        let equal = net.elementwise(
            a,
            b,
            ElementWiseOperation::kEQUAL,
            "Failed to add equal layer: ",
            "Failed to get equal output: ",
        )?;
        let t = net.elementwise(
            strict,
            equal,
            ElementWiseOperation::kOR,
            "Failed to add OR layer: ",
            "Failed to get OR output: ",
        )?;
        let t = Self::cast_to_float32(net, t)?;
        tensors.insert(operation.outputs[0], t);
        Ok(())
    }

    /// Adds lesserOrEqual: lesser, or equal.
    pub fn add_lesser_or_equal_op(
        net: &mut Network,
        tensors: &mut TensorMap,
        operation: &Operation,
    ) -> (r: Result<(), Halt>)
        requires
            operation.inputs@.len() >= 2,
            operation.outputs@.len() >= 1,
        ensures
            does(
                final(net)@,
                r,
                final(tensors)@,
                lesser_or_equal_op(old(net)@, old(tensors)@, *operation),
            ),
    {
        let (a, b) = Self::binary_inputs(net, tensors, operation)?;
        let strict = net.elementwise(
            a,
            b,
            ElementWiseOperation::kLESS,
            "Failed to add lesser layer: ",
            "Failed to get lesser output: ",
        )?;
        let equal = net.elementwise(
            a,
            b,
            ElementWiseOperation::kEQUAL,
            "Failed to add equal layer: ",
            "Failed to get equal output: ",
        )?;
        let t = net.elementwise(
            strict,
            equal,
            ElementWiseOperation::kOR,
            "Failed to add OR layer: ",
            "Failed to get OR output: ",
        )?;
        let t = Self::cast_to_float32(net, t)?;
        tensors.insert(operation.outputs[0], t);
        Ok(())
    }

    /// Adds notEqual: not equal.
    pub fn add_not_equal_op(
        net: &mut Network,
        tensors: &mut TensorMap,
        operation: &Operation,
    ) -> (r: Result<(), Halt>)
        requires
            operation.inputs@.len() >= 2,
            operation.outputs@.len() >= 1,
        ensures
            does(
                final(net)@,
                r,
                final(tensors)@,
                not_equal_op(old(net)@, old(tensors)@, *operation),
            ),
    {
        let (a, b) = Self::binary_inputs(net, tensors, operation)?;
        let equal = net.elementwise(
            a,
            b,
            ElementWiseOperation::kEQUAL,
            "Failed to add equal layer: ",
            "Failed to get equal output: ",
        )?;
        let t = net.unary(
            equal,
            UnaryOperation::kNOT,
            "Failed to add NOT layer: ",
            "Failed to get NOT output: ",
        )?;
        let t = Self::cast_to_float32(net, t)?;
        tensors.insert(operation.outputs[0], t);
        Ok(())
    }

    /// Adds an activation.
    pub fn add_activation_op(
        net: &mut Network,
        tensors: &mut TensorMap,
        operation: &Operation,
        kind: ActivationType,
    ) -> (r: Result<(), Halt>)
        requires
            operation.inputs@.len() >= 1,
            operation.outputs@.len() >= 1,
        ensures
            does(
                final(net)@,
                r,
                final(tensors)@,
                activation_op(old(net)@, old(tensors)@, *operation, kind),
            ),
    {
        let x = tensors.find(operation.inputs[0], "Input operand ", " not found")?;
        let t = net.activation(
            x,
            kind,
            "Failed to add activation: ",
            "Failed to get layer output: ",
        )?;
        tensors.insert(operation.outputs[0], t);
        Ok(())
    }

    /// Adds a function of one element.
    pub fn add_unary_op(
        net: &mut Network,
        tensors: &mut TensorMap,
        operation: &Operation,
        code: UnaryOperation,
    ) -> (r: Result<(), Halt>)
        requires
            operation.inputs@.len() >= 1,
            operation.outputs@.len() >= 1,
        ensures
            does(
                final(net)@,
                r,
                final(tensors)@,
                unary_op(old(net)@, old(tensors)@, *operation, code),
            ),
    {
        let x = tensors.find(operation.inputs[0], "Input operand ", " not found")?;
        let t = net.unary(
            x,
            code,
            "Failed to add unary operation: ",
            "Failed to get layer output: ",
        )?;
        tensors.insert(operation.outputs[0], t);
        Ok(())
    }

    /// Adds an identity.
    pub fn add_identity_op(
        net: &mut Network,
        tensors: &mut TensorMap,
        operation: &Operation,
    ) -> (r: Result<(), Halt>)
        requires
            operation.inputs@.len() >= 1,
            operation.outputs@.len() >= 1,
        ensures
            does(
                final(net)@,
                r,
                final(tensors)@,
                identity_op(old(net)@, old(tensors)@, *operation),
            ),
    {
        let x = tensors.find(operation.inputs[0], "Input operand ", " not found")?;
        let t = net.identity(
            x,
            "Failed to add identity layer: ",
            "Failed to get identity output: ",
        )?;
        tensors.insert(operation.outputs[0], t);
        Ok(())
    }

    /// Adds roundEven. TensorRT's rounding takes halves to the even neighbour.
    pub fn add_round_even_op(
        net: &mut Network,
        tensors: &mut TensorMap,
        operation: &Operation,
    ) -> (r: Result<(), Halt>)
        requires
            operation.inputs@.len() >= 1,
            operation.outputs@.len() >= 1,
        ensures
            does(
                final(net)@,
                r,
                final(tensors)@,
                round_even_op(old(net)@, old(tensors)@, *operation),
            ),
    {
        let x = tensors.find(operation.inputs[0], "Input operand ", " not found")?;
        let t = net.unary(
            x,
            UnaryOperation::kROUND,
            "Failed to create ROUND layer: ",
            "Failed to get roundEven output: ",
        )?;
        tensors.insert(operation.outputs[0], t);
        Ok(())
    }

    /// Adds isNaN: only what is not a number differs from itself.
    pub fn add_is_nan_op(
        net: &mut Network,
        tensors: &mut TensorMap,
        operation: &Operation,
    ) -> (r: Result<(), Halt>)
        requires
            operation.inputs@.len() >= 1,
            operation.outputs@.len() >= 1,
        ensures
            does(final(net)@, r, final(tensors)@, is_nan_op(old(net)@, old(tensors)@, *operation)),
    {
        let x = tensors.find(operation.inputs[0], "Input operand ", " not found")?;
        let same = net.elementwise(
            x,
            x,
            ElementWiseOperation::kEQUAL,
            "Failed to create EQUAL layer for isNaN: ",
            "Failed to get EQUAL output: ",
        )?;
        let t = net.unary(
            same,
            UnaryOperation::kNOT,
            "Failed to create NOT layer for isNaN: ",
            "Failed to get isNaN output: ",
        )?;
        let t = Self::cast_to_float32(net, t)?;
        tensors.insert(operation.outputs[0], t);
        Ok(())
    }

    /// Adds isInfinite. The constant has the rank of the input: TensorRT combines no tensors of
    /// different rank.
    pub fn add_is_infinite_op(
        net: &mut Network,
        tensors: &mut TensorMap,
        operation: &Operation,
    ) -> (r: Result<(), Halt>)
        requires
            operation.inputs@.len() >= 1,
            operation.outputs@.len() >= 1,
        ensures
            does(
                final(net)@,
                r,
                final(tensors)@,
                is_infinite_op(old(net)@, old(tensors)@, *operation),
            ),
    {
        let x = tensors.find(operation.inputs[0], "Input operand ", " not found")?;
        let abs = net.unary(
            x,
            UnaryOperation::kABS,
            "Failed to create ABS layer for isInfinite: ",
            "Failed to get ABS output: ",
        )?;
        let d = net.dims(abs, "isInfinite: abs output dimensions: ")?;
        let ty = net.dtype(abs);
        if ty != TrtDataType::kHALF && ty != TrtDataType::kFLOAT {
            return Err(
                say(
                    "isInfinite: expected float16 or float32 abs tensor, got TRT dtype id ",
                ).str(ty.name()).halt(),
            );
        }
        let infinity = net.constant(
            ones_vec(d.len()),
            trt_float_bytes_of(Known::Infinity.scalar(), ty),
            ty,
            "Failed to create infinity constant: ",
            "Failed to get infinity tensor: ",
        )?;
        let t = net.elementwise(
            abs,
            infinity,
            ElementWiseOperation::kEQUAL,
            "Failed to create EQUAL layer for isInfinite: ",
            "Failed to get isInfinite output: ",
        )?;
        let t = Self::cast_to_float32(net, t)?;
        tensors.insert(operation.outputs[0], t);
        Ok(())
    }

    /// Adds an ELU.
    pub fn add_elu_op(
        graph: &GraphInfo,
        net: &mut Network,
        tensors: &mut TensorMap,
        operation: &Operation,
    ) -> (r: Result<(), Halt>)
        requires
            operation.inputs@.len() >= 1,
            operation.outputs@.len() >= 1,
        ensures
            does(
                final(net)@,
                r,
                final(tensors)@,
                elu_op(old(net)@, old(tensors)@, *graph, *operation),
            ),
    {
        let x = tensors.find(operation.inputs[0], "Input operand ", " not found")?;
        let operand = find_operand(
            graph,
            operation.inputs[0],
            "Input operand ",
            " not found in graph",
        )?;
        let dt = operand.descriptor.data_type;
        let alpha = match &operation.kind {
            OperationKind::Elu { options: Some(o) } => o.alpha,
            _ => Known::One.scalar(),
        };
        if is_near_one(alpha.single) && dt != DataType::Float16 {
            Self::add_activation_op(net, tensors, operation, ActivationType::kELU)
        } else {
            let ty = float_type_of(dt);
            let shape = Self::trtx_broadcast_ones_for_elementwise_scalar(
                &*net,
                x,
                operand.descriptor.shape.len(),
                "elu",
            )?;
            let relu = net.activation(
                x,
                ActivationType::kRELU,
                "Failed to add relu for elu: ",
                "Failed to get relu output: ",
            )?;
            let exp = net.unary(
                x,
                UnaryOperation::kEXP,
                "Failed to add exp for elu: ",
                "Failed to get exp output: ",
            )?;
            let one = net.constant(
                copy_i64(&shape),
                float_bytes_of(Known::One.scalar(), dt),
                ty,
                "Failed to create one constant for elu: ",
                "Failed to get one constant output: ",
            )?;
            let (exp, one) = Self::ensure_broadcast_compatible(net, exp, one, "elu_exp_sub")?;
            let below = net.elementwise(
                exp,
                one,
                ElementWiseOperation::kSUB,
                "Failed to subtract 1 for elu: ",
                "Failed to get exp-1 output: ",
            )?;
            let zero = net.constant(
                copy_i64(&shape),
                float_bytes_of(Known::Zero.scalar(), dt),
                ty,
                "Failed to create zero constant for elu: ",
                "Failed to get zero constant output: ",
            )?;
            let (below, zero) = Self::ensure_broadcast_compatible(net, below, zero, "elu_min")?;
            let negative = net.elementwise(
                below,
                zero,
                ElementWiseOperation::kMIN,
                "Failed to add min for elu: ",
                "Failed to get neg part output: ",
            )?;
            let factor = net.constant(
                copy_i64(&shape),
                float_bytes_of(alpha, dt),
                ty,
                "Failed to create alpha constant for elu: ",
                "Failed to get alpha constant output: ",
            )?;
            let (negative, factor) = Self::ensure_broadcast_compatible(
                net,
                negative,
                factor,
                "elu_scale",
            )?;
            let scaled = net.elementwise(
                negative,
                factor,
                ElementWiseOperation::kPROD,
                "Failed to multiply by alpha for elu: ",
                "Failed to get scaled neg output: ",
            )?;
            let (relu, scaled) = Self::ensure_broadcast_compatible(net, relu, scaled, "elu_add")?;
            let t = net.elementwise(
                relu,
                scaled,
                ElementWiseOperation::kSUM,
                "Failed to add elu parts: ",
                "Failed to get elu output: ",
            )?;
            tensors.insert(operation.outputs[0], t);
            Ok(())
        }
    }

    /// Adds a leaky ReLU, for every `alpha`, negative ones too.
    pub fn add_leaky_relu_op(
        graph: &GraphInfo,
        net: &mut Network,
        tensors: &mut TensorMap,
        operation: &Operation,
    ) -> (r: Result<(), Halt>)
        requires
            operation.inputs@.len() >= 1,
            operation.outputs@.len() >= 1,
        ensures
            does(
                final(net)@,
                r,
                final(tensors)@,
                leaky_relu_op(old(net)@, old(tensors)@, *graph, *operation),
            ),
    {
        let x = tensors.find(operation.inputs[0], "Input operand ", " not found")?;
        let operand = find_operand(
            graph,
            operation.inputs[0],
            "Input operand ",
            " not found in graph",
        )?;
        let dt = operand.descriptor.data_type;
        let alpha = match &operation.kind {
            OperationKind::LeakyRelu { options: Some(o) } => o.alpha,
            _ => Known::OneHundredth.scalar(),
        };
        let shape = Self::trtx_broadcast_ones_for_elementwise_scalar(
            &*net,
            x,
            operand.descriptor.shape.len(),
            "leakyRelu",
        )?;
        let factor = net.constant(
            copy_i64(&shape),
            float_bytes_of(alpha, dt),
            float_type_of(dt),
            "LeakyReLU: failed to add alpha constant: ",
            "LeakyReLU: alpha const output: ",
        )?;
        let relu = net.activation(
            x,
            ActivationType::kRELU,
            "Failed to add relu for leaky relu: ",
            "Failed to get relu output: ",
        )?;
        let negative = net.elementwise(
            x,
            relu,
            ElementWiseOperation::kSUB,
            "Failed to get min(0,x) for leaky relu: ",
            "Failed to get neg part output: ",
        )?;
        let scaled = net.elementwise(
            negative,
            factor,
            ElementWiseOperation::kPROD,
            "Failed to scale neg part for leaky relu: ",
            "Failed to get scaled neg output: ",
        )?;
        let t = net.elementwise(
            relu,
            scaled,
            ElementWiseOperation::kSUM,
            "Failed to add leaky relu parts: ",
            "Failed to get leaky relu output: ",
        )?;
        tensors.insert(operation.outputs[0], t);
        Ok(())
    }

    /// Adds a PReLU.
    pub fn add_prelu_op(
        net: &mut Network,
        tensors: &mut TensorMap,
        operation: &Operation,
    ) -> (r: Result<(), Halt>)
        requires
            operation.inputs@.len() >= 2,
            operation.outputs@.len() >= 1,
        ensures
            does(final(net)@, r, final(tensors)@, prelu_op(old(net)@, old(tensors)@, *operation)),
    {
        let x = tensors.find(operation.inputs[0], "Input operand ", " not found")?;
        let slope = tensors.find(operation.inputs[1], "Slope operand ", " not found")?;
        let (x, slope) = Self::ensure_broadcast_compatible(net, x, slope, "prelu_slope")?;
        let t = net.layer(
            Request::AddParametricRelu { input: x, slope },
            "Failed to add parametric relu: ",
            "Failed to get prelu output: ",
        )?;
        tensors.insert(operation.outputs[0], t);
        Ok(())
    }

    /// Adds a hard sigmoid.
    pub fn add_hard_sigmoid_op(
        graph: &GraphInfo,
        net: &mut Network,
        tensors: &mut TensorMap,
        operation: &Operation,
    ) -> (r: Result<(), Halt>)
        requires
            operation.inputs@.len() >= 1,
            operation.outputs@.len() >= 1,
        ensures
            does(
                final(net)@,
                r,
                final(tensors)@,
                hard_sigmoid_op(old(net)@, old(tensors)@, *graph, *operation),
            ),
    {
        let x = tensors.find(operation.inputs[0], "Input operand ", " not found")?;
        let (alpha, beta) = match &operation.kind {
            OperationKind::HardSigmoid { options: Some(o) } => (o.alpha, o.beta),
            _ => (Known::OneFifth.scalar(), Known::OneHalf.scalar()),
        };
        if is_roughly_one_fifth(alpha.single) && is_roughly_one_half(beta.single) {
            let t = net.activation(
                x,
                ActivationType::kHARD_SIGMOID,
                "Failed to add hard sigmoid: ",
                "Failed to get layer output: ",
            )?;
            tensors.insert(operation.outputs[0], t);
            Ok(())
        } else {
            let operand = find_operand(
                graph,
                operation.inputs[0],
                "Input operand ",
                " not found in graph",
            )?;
            let dt = operand.descriptor.data_type;
            let d = net.dims(x, "HardSigmoid: failed to get input dimensions: ")?;
            let ty = float_type_of(dt);
            let la = net.add_constant(
                ones_vec(d.len()),
                float_bytes_of(alpha, dt),
                ty,
                "HardSigmoid: failed to add alpha constant: ",
            )?;
            let lb = net.add_constant(
                ones_vec(d.len()),
                float_bytes_of(beta, dt),
                ty,
                "HardSigmoid: failed to add beta constant: ",
            )?;
            let lz = net.add_constant(
                ones_vec(d.len()),
                float_bytes_of(Known::Zero.scalar(), dt),
                ty,
                "HardSigmoid: failed to add zero constant: ",
            )?;
            let lo = net.add_constant(
                ones_vec(d.len()),
                float_bytes_of(Known::One.scalar(), dt),
                ty,
                "HardSigmoid: failed to add one constant: ",
            )?;
            let a = net.output(la, "HardSigmoid: alpha const output: ")?;
            let b = net.output(lb, "HardSigmoid: beta const output: ")?;
            let zero = net.output(lz, "HardSigmoid: zero const output: ")?;
            let one = net.output(lo, "HardSigmoid: one const output: ")?;
            let product = net.elementwise(
                x,
                a,
                ElementWiseOperation::kPROD,
                "HardSigmoid: alpha*x: ",
                "HardSigmoid: linear get output: ",
            )?;
            let linear = net.elementwise(
                product,
                b,
                ElementWiseOperation::kSUM,
                "HardSigmoid: linear+beta: ",
                "HardSigmoid: linear_out: ",
            )?;
            let upper = net.elementwise(
                linear,
                one,
                ElementWiseOperation::kMIN,
                "HardSigmoid: min(1, linear): ",
                "HardSigmoid: min1 output: ",
            )?;
            let t = net.elementwise(
                zero,
                upper,
                ElementWiseOperation::kMAX,
                "HardSigmoid: max(0, ...): ",
                "HardSigmoid: output: ",
            )?;
            tensors.insert(operation.outputs[0], t);
            Ok(())
        }
    }

    /// Adds a hard swish.
    pub fn add_hard_swish_op(
        graph: &GraphInfo,
        net: &mut Network,
        tensors: &mut TensorMap,
        operation: &Operation,
    ) -> (r: Result<(), Halt>)
        requires
            operation.inputs@.len() >= 1,
            operation.outputs@.len() >= 1,
        ensures
            does(
                final(net)@,
                r,
                final(tensors)@,
                hard_swish_op(old(net)@, old(tensors)@, *graph, *operation),
            ),
    {
        let x = tensors.find(operation.inputs[0], "Input operand ", " not found")?;
        let operand = find_operand(
            graph,
            operation.inputs[0],
            "Input operand ",
            " not found in graph",
        )?;
        let dt = operand.descriptor.data_type;
        let d = net.dims(x, "HardSwish: failed to get input dimensions: ")?;
        let ty = float_type_of(dt);
        let l3 = net.add_constant(
            ones_vec(d.len()),
            float_bytes_of(Known::Three.scalar(), dt),
            ty,
            "HardSwish: failed to add 3 constant: ",
        )?;
        let l6 = net.add_constant(
            ones_vec(d.len()),
            float_bytes_of(Known::Six.scalar(), dt),
            ty,
            "HardSwish: failed to add 6 constant: ",
        )?;
        let l0 = net.add_constant(
            ones_vec(d.len()),
            float_bytes_of(Known::Zero.scalar(), dt),
            ty,
            "HardSwish: failed to add zero constant: ",
        )?;
        let three = net.output(l3, "HardSwish: 3 const output: ")?;
        let six = net.output(l6, "HardSwish: 6 const output: ")?;
        let zero = net.output(l0, "HardSwish: zero const output: ")?;
        let shifted = net.elementwise(
            x,
            three,
            ElementWiseOperation::kSUM,
            "HardSwish: add(input, 3): ",
            "HardSwish: x+3 output: ",
        )?;
        let upper = net.elementwise(
            six,
            shifted,
            ElementWiseOperation::kMIN,
            "HardSwish: min(6, x+3): ",
            "HardSwish: min6 output: ",
        )?;
        let inner = net.elementwise(
            zero,
            upper,
            ElementWiseOperation::kMAX,
            "HardSwish: max(0, ...): ",
            "HardSwish: inner output: ",
        )?;
        let product = net.elementwise(
            x,
            inner,
            ElementWiseOperation::kPROD,
            "HardSwish: mul(input, inner): ",
            "HardSwish: x*inner output: ",
        )?;
        let t = net.elementwise(
            product,
            six,
            ElementWiseOperation::kDIV,
            "HardSwish: div(..., 6): ",
            "HardSwish: output: ",
        )?;
        tensors.insert(operation.outputs[0], t);
        Ok(())
    }

    /// Adds a linear function.
    pub fn add_linear_op(
        graph: &GraphInfo,
        net: &mut Network,
        tensors: &mut TensorMap,
        operation: &Operation,
    ) -> (r: Result<(), Halt>)
        requires
            operation.inputs@.len() >= 1,
            operation.outputs@.len() >= 1,
        ensures
            does(
                final(net)@,
                r,
                final(tensors)@,
                linear_op(old(net)@, old(tensors)@, *graph, *operation),
            ),
    {
        let x = tensors.find(operation.inputs[0], "Input operand ", " not found")?;
        let operand = find_operand(
            graph,
            operation.inputs[0],
            "Input operand ",
            " not found in graph",
        )?;
        let dt = operand.descriptor.data_type;
        let shape = Self::trtx_broadcast_ones_for_elementwise_scalar(
            net,
            x,
            operand.descriptor.shape.len(),
            "linear",
        )?;
        let (alpha, beta) = match &operation.kind {
            OperationKind::Linear { options: Some(o) } => (o.alpha, o.beta),
            _ => (Known::One.scalar(), Known::Zero.scalar()),
        };
        let product = if !is_near_one(alpha.single) && !is_nan_bits(alpha.single) {
            let a = net.constant(
                copy_i64(&shape),
                float_bytes_of(alpha, dt),
                float_type_of(dt),
                "Failed to create alpha constant: ",
                "Failed to get alpha constant output: ",
            )?;
            net.elementwise(
                x,
                a,
                ElementWiseOperation::kPROD,
                "Failed to multiply by alpha: ",
                "Failed to get multiply output: ",
            )?
        } else {
            net.identity(x, "Failed to add identity layer: ", "Failed to get identity output: ")?
        };
        let t = if is_above(beta.single, SINGLE_EPSILON) {
            let b = net.constant(
                shape,
                float_bytes_of(beta, dt),
                float_type_of(dt),
                "Failed to create beta constant: ",
                "Failed to get beta constant output: ",
            )?;
            net.elementwise(
                product,
                b,
                ElementWiseOperation::kSUM,
                "Failed to add beta: ",
                "Failed to get add output: ",
            )?
        } else {
            product
        };
        tensors.insert(operation.outputs[0], t);
        Ok(())
    }
}

} // verus!
