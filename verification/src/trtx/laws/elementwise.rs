//! Operations that compute element by element.

use crate::data_type::DataType;
use crate::graph::GraphInfo;
use crate::operator_options::{
    MLEluOptions, MLHardSigmoidOptions, MLLeakyReluOptions, MLLinearOptions,
};
use crate::operators::{Operation, OperationKind};
use crate::scalar::Scalar;
use crate::trtx::broadcast::{broadcast_pair, joint_dims, left_padded};
use crate::trtx::forms::{group_forms, group_wide_forms, unset, Form};
use crate::trtx::formulas::{is_infinite_means, linear_means, prelu_means};
use crate::trtx::geometry::{given, made};
use crate::trtx::growth::{group_grows, grows_broadcast_pair};
use crate::trtx::laws::kinds;
use crate::trtx::laws::words::{
    element, float_bytes_hold, four_bytes_hold, is_number, number_in, reported, two_bytes_hold,
};
use crate::trtx::meaning::{
    as_float, both, elu_means, hard_sigmoid_means, hard_swish_means, input, leaky_relu_means, of,
    result, went_through, Term,
};
use crate::trtx::network::operation_added;
use crate::trtx::session::Run;
use crate::trtx::types::{ActivationType, ElementWiseOperation, Tensor, TrtDataType, UnaryOperation};
use vstd::prelude::*;

verus! {

/// A form as it enters an operation with another: where it has fewer axes it has axes of extent 1 put
/// before them; where it has as many, and the extent 1 along an axis where the other has more, it is
/// stretched along every such axis; else it is as it was.
pub open spec fn stretched(f: Form, own: Seq<i64>, other: Seq<i64>) -> Form {
    if own.len() < other.len() {
        Form::Reshaped(
            Seq::new((other.len() - own.len()) as nat, |i: int| 1i64) + own,
            Box::new(f),
        )
    } else if own.len() == other.len() && (exists|i: int|
        0 <= i < own.len() && #[trigger] own[i] == 1 && other[i] != 1) {
        Form::Resized(
            Seq::new(
                own.len(),
                |i: int|
                    if own[i] == 1 {
                        other[i]
                    } else {
                        own[i]
                    },
            ),
            unset().resizing,
            Box::new(f),
        )
    } else {
        f
    }
}

pub(crate) broadcast proof fn forms_broadcast_pair(n: Run, t0: Tensor, t1: Tensor, op_name: Seq<char>)
    requires
        broadcast_pair(n, t0, t1, op_name).0.goes_on(),
        n.has(t0),
        n.has(t1),
    ensures
        ({
            let (after, (a, b)) = #[trigger] broadcast_pair(n, t0, t1, op_name);
            let (d0, d1) = (reported(n, t0), reported(n, t1));
            &&& after.has(a)
            &&& after.has(b)
            &&& after.form(a) == stretched(n.form(t0), d0, d1)
            &&& after.form(b) == stretched(n.form(t1), d1, d0)
        }),
{
    broadcast use {group_grows, group_forms, group_wide_forms};

    reveal(broadcast_pair);
    reveal(Run::dims);
    let (d0, d1) = (reported(n, t0), reported(n, t1));
    if d0.len() == d1.len() {
        assert(joint_dims(d0, d1) =~= Seq::new(
            d0.len(),
            |i: int|
                if d0[i] == 1 {
                    d1[i]
                } else {
                    d0[i]
                },
        ));
        assert(joint_dims(d1, d0) =~= Seq::new(
            d1.len(),
            |i: int|
                if d1[i] == 1 {
                    d0[i]
                } else {
                    d1[i]
                },
        ));
    } else if d0.len() < d1.len() {
        assert(left_padded(d0, d1.len()) =~= Seq::new(
            (d1.len() - d0.len()) as nat,
            |i: int| 1i64,
        ) + d0);
    } else {
        assert(left_padded(d1, d0.len()) =~= Seq::new(
            (d0.len() - d1.len()) as nat,
            |i: int| 1i64,
        ) + d1);
    }
}

/// The two inputs of an operation, each as it enters the operation with the other.
pub open spec fn first_in(n: Run, m: Map<u32, Tensor>, op: Operation) -> Form {
    stretched(
        given(n, m, op, 0),
        reported(n, m[op.inputs@[0]]),
        reported(n, m[op.inputs@[1]]),
    )
}

pub open spec fn second_in(n: Run, m: Map<u32, Tensor>, op: Operation) -> Form {
    stretched(
        given(n, m, op, 1),
        reported(n, m[op.inputs@[1]]),
        reported(n, m[op.inputs@[0]]),
    )
}

/// Two forms combined.
pub open spec fn combined(code: ElementWiseOperation, a: Form, b: Form) -> Form {
    Form::Elementwise(code, Box::new(a), Box::new(b))
}

/// Truth values as `f32` values.
pub open spec fn truth(f: Form) -> Form {
    Form::Cast(TrtDataType::kFLOAT, Box::new(f))
}

/// What a sum, a difference, a product, a quotient, a power, a maximum and a minimum combine their
/// inputs by.
pub open spec fn arithmetic(kind: OperationKind) -> Option<ElementWiseOperation> {
    match kind {
        OperationKind::Add => Some(ElementWiseOperation::kSUM),
        OperationKind::Sub => Some(ElementWiseOperation::kSUB),
        OperationKind::Mul => Some(ElementWiseOperation::kPROD),
        OperationKind::Div => Some(ElementWiseOperation::kDIV),
        OperationKind::Pow => Some(ElementWiseOperation::kPOW),
        OperationKind::Max => Some(ElementWiseOperation::kMAX),
        OperationKind::Min => Some(ElementWiseOperation::kMIN),
        _ => None,
    }
}

/// Arithmetic combines the first input with the second, in this order, as the kind says.
pub proof fn arithmetic_combines(
    n: Run,
    m: Map<u32, Tensor>,
    graph: GraphInfo,
    op: Operation,
    promoted: Set<u32>,
)
    requires
        went_through(n, m, operation_added(n, m, graph, op, promoted)),
        arithmetic(op.kind) is Some,
    ensures
        made(op, operation_added(n, m, graph, op, promoted)) == combined(
            arithmetic(op.kind)->0,
            first_in(n, m, op),
            second_in(n, m, op),
        ),
{
    broadcast use {group_grows, group_forms, grows_broadcast_pair, forms_broadcast_pair};

    match op.kind {
        OperationKind::Add => kinds::add_is_added(n, m, graph, op, promoted),
        OperationKind::Sub => kinds::sub_is_added(n, m, graph, op, promoted),
        OperationKind::Mul => kinds::mul_is_added(n, m, graph, op, promoted),
        OperationKind::Div => kinds::div_is_added(n, m, graph, op, promoted),
        OperationKind::Pow => kinds::pow_is_added(n, m, graph, op, promoted),
        OperationKind::Max => kinds::max_is_added(n, m, graph, op, promoted),
        _ => kinds::min_is_added(n, m, graph, op, promoted),
    }
}

/// What a comparison says of its inputs.
pub open spec fn compared(kind: OperationKind, a: Form, b: Form) -> Option<Form> {
    match kind {
        OperationKind::Equal => Some(combined(ElementWiseOperation::kEQUAL, a, b)),
        OperationKind::Greater => Some(combined(ElementWiseOperation::kGREATER, a, b)),
        OperationKind::Lesser => Some(combined(ElementWiseOperation::kLESS, a, b)),
        OperationKind::GreaterOrEqual => Some(
            combined(
                ElementWiseOperation::kOR,
                combined(ElementWiseOperation::kGREATER, a, b),
                combined(ElementWiseOperation::kEQUAL, a, b),
            ),
        ),
        OperationKind::LesserOrEqual => Some(
            combined(
                ElementWiseOperation::kOR,
                combined(ElementWiseOperation::kLESS, a, b),
                combined(ElementWiseOperation::kEQUAL, a, b),
            ),
        ),
        OperationKind::NotEqual => Some(
            Form::Unary(
                UnaryOperation::kNOT,
                Box::new(combined(ElementWiseOperation::kEQUAL, a, b)),
            ),
        ),
        _ => None,
    }
}

/// A comparison compares the first input with the second, in this order, as the kind says, and gives
/// the truth values as `f32` values.
pub proof fn comparison_compares(
    n: Run,
    m: Map<u32, Tensor>,
    graph: GraphInfo,
    op: Operation,
    promoted: Set<u32>,
)
    requires
        went_through(n, m, operation_added(n, m, graph, op, promoted)),
        compared(op.kind, first_in(n, m, op), second_in(n, m, op)) is Some,
    ensures
        made(op, operation_added(n, m, graph, op, promoted)) == truth(
            compared(op.kind, first_in(n, m, op), second_in(n, m, op))->0,
        ),
{
    broadcast use {group_grows, group_forms, grows_broadcast_pair, forms_broadcast_pair};

    match op.kind {
        OperationKind::Equal => kinds::equal_is_added(n, m, graph, op, promoted),
        OperationKind::Greater => kinds::greater_is_added(n, m, graph, op, promoted),
        OperationKind::Lesser => kinds::lesser_is_added(n, m, graph, op, promoted),
        OperationKind::GreaterOrEqual => kinds::greater_or_equal_is_added(n, m, graph, op, promoted),
        OperationKind::LesserOrEqual => kinds::lesser_or_equal_is_added(n, m, graph, op, promoted),
        _ => kinds::not_equal_is_added(n, m, graph, op, promoted),
    }
}

/// What a function of one input computes of each element.
pub open spec fn applied(kind: OperationKind, x: Form) -> Option<Form> {
    let unary = |code: UnaryOperation| Some(Form::Unary(code, Box::new(x)));
    let activation = |code: ActivationType| Some(Form::Activation(code, Box::new(x)));
    match kind {
        OperationKind::Exp => unary(UnaryOperation::kEXP),
        OperationKind::Log => unary(UnaryOperation::kLOG),
        OperationKind::Sqrt => unary(UnaryOperation::kSQRT),
        OperationKind::Reciprocal => unary(UnaryOperation::kRECIP),
        OperationKind::Abs => unary(UnaryOperation::kABS),
        OperationKind::Neg => unary(UnaryOperation::kNEG),
        OperationKind::Sin => unary(UnaryOperation::kSIN),
        OperationKind::Cos => unary(UnaryOperation::kCOS),
        OperationKind::Tan => unary(UnaryOperation::kTAN),
        OperationKind::Ceil => unary(UnaryOperation::kCEIL),
        OperationKind::Floor => unary(UnaryOperation::kFLOOR),
        OperationKind::Erf => unary(UnaryOperation::kERF),
        OperationKind::Sign => unary(UnaryOperation::kSIGN),
        OperationKind::RoundEven => unary(UnaryOperation::kROUND),
        OperationKind::Relu => activation(ActivationType::kRELU),
        OperationKind::Sigmoid => activation(ActivationType::kSIGMOID),
        OperationKind::Tanh => activation(ActivationType::kTANH),
        OperationKind::Softsign => activation(ActivationType::kSOFTSIGN),
        OperationKind::Softplus => activation(ActivationType::kSOFTPLUS),
        OperationKind::Gelu => activation(ActivationType::kGELU_ERF),
        OperationKind::Identity => Some(x),
        OperationKind::IsNaN => Some(
            truth(
                Form::Unary(
                    UnaryOperation::kNOT,
                    Box::new(combined(ElementWiseOperation::kEQUAL, x, x)),
                ),
            ),
        ),
        _ => None,
    }
}

/// A function of one input is the function that the kind names.
pub proof fn function_applies(
    n: Run,
    m: Map<u32, Tensor>,
    graph: GraphInfo,
    op: Operation,
    promoted: Set<u32>,
)
    requires
        went_through(n, m, operation_added(n, m, graph, op, promoted)),
        applied(op.kind, given(n, m, op, 0)) is Some,
    ensures
        made(op, operation_added(n, m, graph, op, promoted)) == applied(
            op.kind,
            given(n, m, op, 0),
        )->0,
{
    broadcast use {group_grows, group_forms, group_wide_forms};

    match op.kind {
        OperationKind::Exp => kinds::exp_is_added(n, m, graph, op, promoted),
        OperationKind::Log => kinds::log_is_added(n, m, graph, op, promoted),
        OperationKind::Sqrt => kinds::sqrt_is_added(n, m, graph, op, promoted),
        OperationKind::Reciprocal => kinds::reciprocal_is_added(n, m, graph, op, promoted),
        OperationKind::Abs => kinds::abs_is_added(n, m, graph, op, promoted),
        OperationKind::Neg => kinds::neg_is_added(n, m, graph, op, promoted),
        OperationKind::Sin => kinds::sin_is_added(n, m, graph, op, promoted),
        OperationKind::Cos => kinds::cos_is_added(n, m, graph, op, promoted),
        OperationKind::Tan => kinds::tan_is_added(n, m, graph, op, promoted),
        OperationKind::Ceil => kinds::ceil_is_added(n, m, graph, op, promoted),
        OperationKind::Floor => kinds::floor_is_added(n, m, graph, op, promoted),
        OperationKind::Erf => kinds::erf_is_added(n, m, graph, op, promoted),
        OperationKind::Sign => kinds::sign_is_added(n, m, graph, op, promoted),
        OperationKind::RoundEven => kinds::round_even_is_added(n, m, graph, op, promoted),
        OperationKind::Relu => kinds::relu_is_added(n, m, graph, op, promoted),
        OperationKind::Sigmoid => kinds::sigmoid_is_added(n, m, graph, op, promoted),
        OperationKind::Tanh => kinds::tanh_is_added(n, m, graph, op, promoted),
        OperationKind::Softsign => kinds::softsign_is_added(n, m, graph, op, promoted),
        OperationKind::Softplus => kinds::softplus_is_added(n, m, graph, op, promoted),
        OperationKind::Gelu => kinds::gelu_is_added(n, m, graph, op, promoted),
        OperationKind::Identity => kinds::identity_is_added(n, m, graph, op, promoted),
        _ => kinds::is_nan_is_added(n, m, graph, op, promoted),
    }
}

/// A truth value of an input: eight-bit elements are read as `f32` values first.
pub open spec fn is_byte_operand(graph: GraphInfo, id: u32) -> bool {
    id < graph.operands@.len() && (element(graph, id) == DataType::Uint8 || element(graph, id)
        == DataType::Int8)
}

/// A logical operation combines the truth values of its inputs, in their order, as the kind says, and
/// gives truth values as `f32` values.
pub proof fn logic_combines(
    n: Run,
    m: Map<u32, Tensor>,
    graph: GraphInfo,
    op: Operation,
    promoted: Set<u32>,
)
    requires
        went_through(n, m, operation_added(n, m, graph, op, promoted)),
        op.kind is LogicalAnd || op.kind is LogicalOr || op.kind is LogicalXor,
    ensures
        ({
            let code = if op.kind is LogicalAnd {
                ElementWiseOperation::kAND
            } else if op.kind is LogicalOr {
                ElementWiseOperation::kOR
            } else {
                ElementWiseOperation::kXOR
            };
            let truth_of = |i: int|
                {
                    let x = input(n, m, op, i);
                    Box::new(
                        Term::Cast(
                            TrtDataType::kBOOL,
                            if is_byte_operand(graph, op.inputs@[i]) {
                                Box::new(Term::Cast(TrtDataType::kFLOAT, Box::new(x)))
                            } else {
                                Box::new(x)
                            },
                        ),
                    )
                };
            result(op, operation_added(n, m, graph, op, promoted)) == Term::Cast(
                TrtDataType::kFLOAT,
                Box::new(Term::Elementwise(code, truth_of(0), truth_of(1))),
            )
        }),
{
    let code = if op.kind is LogicalAnd {
        kinds::logical_and_is_added(n, m, graph, op, promoted);
        ElementWiseOperation::kAND
    } else if op.kind is LogicalOr {
        kinds::logical_or_is_added(n, m, graph, op, promoted);
        ElementWiseOperation::kOR
    } else {
        kinds::logical_xor_is_added(n, m, graph, op, promoted);
        ElementWiseOperation::kXOR
    };
    crate::trtx::formulas::logical_binary_means(n, m, graph, op, code);
}

/// A parametric rectifier multiplies the negative elements of the first input by the second.
pub proof fn prelu_slopes(
    n: Run,
    m: Map<u32, Tensor>,
    graph: GraphInfo,
    op: Operation,
    promoted: Set<u32>,
)
    requires
        went_through(n, m, operation_added(n, m, graph, op, promoted)),
        op.kind is Prelu,
    ensures
        result(op, operation_added(n, m, graph, op, promoted)) == Term::Sloped(
            Box::new(input(n, m, op, 0)),
            Box::new(input(n, m, op, 1)),
        ),
{
    kinds::prelu_is_added(n, m, graph, op, promoted);
    prelu_means(n, m, op);
}

/// The patterns of 0, 1, 3 and 6 in single and in half precision.
pub open spec fn zero() -> Scalar {
    Scalar { single: 0, half: 0 }
}

pub open spec fn one() -> Scalar {
    Scalar { single: 0x3F80_0000, half: 0x3C00 }
}

pub open spec fn three() -> Scalar {
    Scalar { single: 0x4040_0000, half: 0x4200 }
}

pub open spec fn six() -> Scalar {
    Scalar { single: 0x40C0_0000, half: 0x4600 }
}

/// A leaky rectifier is the positive part plus `alpha` of the options, or 0.01, times what is left of
/// the input without its positive part.
pub proof fn leaky_relu_follows_options(
    n: Run,
    m: Map<u32, Tensor>,
    graph: GraphInfo,
    op: Operation,
    promoted: Set<u32>,
    options: Option<MLLeakyReluOptions>,
)
    requires
        went_through(n, m, operation_added(n, m, graph, op, promoted)),
        op.kind == (OperationKind::LeakyRelu { options }),
    ensures
        ({
            let x = input(n, m, op, 0);
            let positive = Term::Activation(ActivationType::kRELU, Box::new(x));
            let slope = match options {
                Some(o) => o.alpha,
                None => Scalar { single: 0x3C23_D70A, half: 0x211F },
            };
            exists|alpha: Term|
                is_number(alpha, slope, element(graph, op.inputs@[0])) && result(
                    op,
                    operation_added(n, m, graph, op, promoted),
                ) == both(
                    ElementWiseOperation::kSUM,
                    positive,
                    #[trigger] both(
                        ElementWiseOperation::kPROD,
                        both(ElementWiseOperation::kSUB, x, positive),
                        alpha,
                    ),
                )
        }),
{
    kinds::leaky_relu_is_added(n, m, graph, op, promoted);
    leaky_relu_means(n, m, graph, op);
    let slope = match options {
        Some(o) => o.alpha,
        None => Scalar { single: 0x3C23_D70A, half: 0x211F },
    };
    float_bytes_hold(slope, element(graph, op.inputs@[0]));
}

/// An exponential linear unit is the positive part plus `alpha` of the options, or 1, times what
/// `exp(x) - 1` has below 0. Where `alpha` lies within `f32::EPSILON` of 1 and the elements are not in
/// half precision, TensorRT has it as an activation.
pub proof fn elu_follows_options(
    n: Run,
    m: Map<u32, Tensor>,
    graph: GraphInfo,
    op: Operation,
    promoted: Set<u32>,
    options: Option<MLEluOptions>,
)
    requires
        went_through(n, m, operation_added(n, m, graph, op, promoted)),
        op.kind == (OperationKind::Elu { options }),
    ensures
        ({
            let x = input(n, m, op, 0);
            let t = element(graph, op.inputs@[0]);
            let factor = match options {
                Some(o) => o.alpha,
                None => one(),
            };
            let r = result(op, operation_added(n, m, graph, op, promoted));
            if 0x3F7F_FFFE <= factor.single <= 0x3F80_0001 && t != DataType::Float16 {
                r == Term::Activation(ActivationType::kELU, Box::new(x))
            } else {
                exists|c1: Term, c0: Term, alpha: Term|
                    {
                        &&& is_number(c1, one(), t)
                        &&& is_number(c0, zero(), t)
                        &&& is_number(alpha, factor, t)
                        &&& r == both(
                            ElementWiseOperation::kSUM,
                            Term::Activation(ActivationType::kRELU, Box::new(x)),
                            #[trigger] both(
                                ElementWiseOperation::kPROD,
                                both(
                                    ElementWiseOperation::kMIN,
                                    both(
                                        ElementWiseOperation::kSUB,
                                        Term::Unary(UnaryOperation::kEXP, Box::new(x)),
                                        c1,
                                    ),
                                    c0,
                                ),
                                alpha,
                            ),
                        )
                    }
            }
        }),
{
    kinds::elu_is_added(n, m, graph, op, promoted);
    elu_means(n, m, graph, op);
    let t = element(graph, op.inputs@[0]);
    let factor = match options {
        Some(o) => o.alpha,
        None => one(),
    };
    float_bytes_hold(factor, t);
    float_bytes_hold(one(), t);
    float_bytes_hold(zero(), t);
}

/// A hard sigmoid is `max(0, min(alpha * x + beta, 1))` with the numbers of the options, or 0.2 and
/// 0.5. Where they lie within one hundred-thousandth of 0.2 and 0.5, TensorRT has it as an activation.
pub proof fn hard_sigmoid_follows_options(
    n: Run,
    m: Map<u32, Tensor>,
    graph: GraphInfo,
    op: Operation,
    promoted: Set<u32>,
    options: Option<MLHardSigmoidOptions>,
)
    requires
        went_through(n, m, operation_added(n, m, graph, op, promoted)),
        op.kind == (OperationKind::HardSigmoid { options }),
    ensures
        ({
            let x = input(n, m, op, 0);
            let t = element(graph, op.inputs@[0]);
            let (factor, shift) = match options {
                Some(o) => (o.alpha, o.beta),
                None => (
                    Scalar { single: 0x3E4C_CCCD, half: 0x3266 },
                    Scalar { single: 0x3F00_0000, half: 0x3800 },
                ),
            };
            let r = result(op, operation_added(n, m, graph, op, promoted));
            if 0x3E4C_CA2E <= factor.single <= 0x3E4C_CF6C && 0x3EFF_FEB1 <= shift.single
                <= 0x3F00_00A7 {
                r == Term::Activation(ActivationType::kHARD_SIGMOID, Box::new(x))
            } else {
                exists|c0: Term, c1: Term, alpha: Term, beta: Term|
                    {
                        &&& is_number(c0, zero(), t)
                        &&& is_number(c1, one(), t)
                        &&& is_number(alpha, factor, t)
                        &&& is_number(beta, shift, t)
                        &&& r == #[trigger] both(
                            ElementWiseOperation::kMAX,
                            c0,
                            both(
                                ElementWiseOperation::kMIN,
                                both(
                                    ElementWiseOperation::kSUM,
                                    both(ElementWiseOperation::kPROD, x, alpha),
                                    beta,
                                ),
                                c1,
                            ),
                        )
                    }
            }
        }),
{
    kinds::hard_sigmoid_is_added(n, m, graph, op, promoted);
    hard_sigmoid_means(n, m, graph, op);
    let t = element(graph, op.inputs@[0]);
    let (factor, shift) = match options {
        Some(o) => (o.alpha, o.beta),
        None => (
            Scalar { single: 0x3E4C_CCCD, half: 0x3266 },
            Scalar { single: 0x3F00_0000, half: 0x3800 },
        ),
    };
    float_bytes_hold(factor, t);
    float_bytes_hold(shift, t);
    float_bytes_hold(one(), t);
    float_bytes_hold(zero(), t);
}

/// A hard swish is `x * max(0, min(6, x + 3)) / 6`.
pub proof fn hard_swish_computes(
    n: Run,
    m: Map<u32, Tensor>,
    graph: GraphInfo,
    op: Operation,
    promoted: Set<u32>,
)
    requires
        went_through(n, m, operation_added(n, m, graph, op, promoted)),
        op.kind is HardSwish,
    ensures
        ({
            let x = input(n, m, op, 0);
            let t = element(graph, op.inputs@[0]);
            exists|c0: Term, c3: Term, c6: Term|
                {
                    &&& is_number(c0, zero(), t)
                    &&& is_number(c3, three(), t)
                    &&& is_number(c6, six(), t)
                    &&& result(op, operation_added(n, m, graph, op, promoted)) == #[trigger] both(
                        ElementWiseOperation::kDIV,
                        both(
                            ElementWiseOperation::kPROD,
                            x,
                            both(
                                ElementWiseOperation::kMAX,
                                c0,
                                both(
                                    ElementWiseOperation::kMIN,
                                    c6,
                                    both(ElementWiseOperation::kSUM, x, c3),
                                ),
                            ),
                        ),
                        c6,
                    )
                }
        }),
{
    kinds::hard_swish_is_added(n, m, graph, op, promoted);
    hard_swish_means(n, m, graph, op);
    let t = element(graph, op.inputs@[0]);
    float_bytes_hold(zero(), t);
    float_bytes_hold(three(), t);
    float_bytes_hold(six(), t);
}

/// Whether a pattern is one of a value that is not a number.
pub open spec fn not_a_number(bits: u32) -> bool {
    0x7F80_0000 < bits < 0x8000_0000 || 0xFF80_0000 < bits
}

/// Whether the absolute value of a number exceeds `f32::EPSILON`.
pub open spec fn exceeds_epsilon(bits: u32) -> bool {
    0x3400_0000 < bits <= 0x7F80_0000 || 0xB400_0000 < bits <= 0xFF80_0000
}

/// Whether a term is another times a factor. A factor within `f32::EPSILON` of 1, or one that is not a
/// number, leaves no trace.
pub open spec fn is_multiple(p: Term, x: Term, factor: Scalar, t: DataType) -> bool {
    if 0x3F7F_FFFE <= factor.single <= 0x3F80_0001 || not_a_number(factor.single) {
        p == x
    } else {
        p matches Term::Elementwise(ElementWiseOperation::kPROD, a, alpha) && *a == x && is_number(
            *alpha,
            factor,
            t,
        )
    }
}

/// A linear function is `alpha * x + beta` with the numbers of the options, or 1 and 0. A factor
/// within `f32::EPSILON` of 1 is left out, and so is a shift within it of 0.
pub proof fn linear_follows_options(
    n: Run,
    m: Map<u32, Tensor>,
    graph: GraphInfo,
    op: Operation,
    promoted: Set<u32>,
    options: Option<MLLinearOptions>,
)
    requires
        went_through(n, m, operation_added(n, m, graph, op, promoted)),
        op.kind == (OperationKind::Linear { options }),
    ensures
        ({
            let x = input(n, m, op, 0);
            let t = element(graph, op.inputs@[0]);
            let (factor, shift) = match options {
                Some(o) => (o.alpha, o.beta),
                None => (one(), zero()),
            };
            let r = result(op, operation_added(n, m, graph, op, promoted));
            if exceeds_epsilon(shift.single) {
                r matches Term::Elementwise(ElementWiseOperation::kSUM, p, beta) && is_number(
                    *beta,
                    shift,
                    t,
                ) && is_multiple(*p, x, factor, t)
            } else {
                is_multiple(r, x, factor, t)
            }
        }),
{
    kinds::linear_is_added(n, m, graph, op, promoted);
    linear_means(n, m, graph, op);
    let x = input(n, m, op, 0);
    let t = element(graph, op.inputs@[0]);
    let (factor, shift) = match options {
        Some(o) => (o.alpha, o.beta),
        None => (one(), zero()),
    };
    float_bytes_hold(factor, t);
    float_bytes_hold(shift, t);
}

/// What is infinite is what has the absolute value infinity.
pub proof fn infinity_is_found(
    n: Run,
    m: Map<u32, Tensor>,
    graph: GraphInfo,
    op: Operation,
    promoted: Set<u32>,
)
    requires
        went_through(n, m, operation_added(n, m, graph, op, promoted)),
        op.kind is IsInfinite,
    ensures
        exists|bytes: Seq<u8>, ty: TrtDataType|
            {
                &&& ty == TrtDataType::kHALF ==> bytes.len() == 2 && number_in(bytes) == 0x7C00
                &&& ty == TrtDataType::kFLOAT ==> bytes.len() == 4 && number_in(bytes)
                    == 0x7F80_0000
                &&& ty == TrtDataType::kHALF || ty == TrtDataType::kFLOAT
                &&& result(op, operation_added(n, m, graph, op, promoted)) == as_float(
                    both(
                        ElementWiseOperation::kEQUAL,
                        of(UnaryOperation::kABS, input(n, m, op, 0)),
                        #[trigger] constant_term(bytes, ty),
                    ),
                )
            },
{
    kinds::is_infinite_is_added(n, m, graph, op, promoted);
    is_infinite_means(n, m, op);
    four_bytes_hold(0x7F80_0000);
    two_bytes_hold(0x7C00);
    let ty = choose|ty: TrtDataType|
        (ty == TrtDataType::kHALF || ty == TrtDataType::kFLOAT) && result(
            op,
            operation_added(n, m, graph, op, promoted),
        ) == as_float(
            both(
                ElementWiseOperation::kEQUAL,
                of(UnaryOperation::kABS, input(n, m, op, 0)),
                #[trigger] crate::trtx::formulas::infinity(ty),
            ),
        );
    let bytes = crate::trtx::formulas::infinity(ty)->Constant_0;
    assert(crate::trtx::formulas::infinity(ty) == constant_term(bytes, ty));
}

/// A constant.
pub open spec fn constant_term(bytes: Seq<u8>, ty: TrtDataType) -> Term {
    Term::Constant(bytes, ty)
}

} // verus!
