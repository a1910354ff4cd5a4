//! Matrix products.

use crate::data_type::DataType;
use crate::graph::GraphInfo;
use crate::operator_options::MLGemmOptions;
use crate::operators::{Operation, OperationKind};
use crate::scalar::Scalar;
use crate::trtx::broadcast::ones;
use crate::trtx::forms::{group_forms, group_wide_forms, Form};
use crate::trtx::formulas::{filled_with, gemm_means, is_scaled};
use crate::trtx::geometry::{given, made};
use crate::trtx::growth::{group_grows, grows_raised};
use crate::trtx::laws::kinds::{gemm_is_added, matmul_is_added};
use crate::trtx::laws::words::{
    about_one, element, filled_with_is_numbers, is_numbers, no_number, past_a_millionth, reported,
};
use crate::trtx::matrix::raised;
use crate::trtx::meaning::{both, input, result, went_through, Term};
use crate::trtx::network::operation_added;
use crate::trtx::session::Run;
use crate::trtx::types::{ElementWiseOperation, MatrixOperation, Tensor};
use vstd::prelude::*;

verus! {

/// Whether a term is another times a factor, by a constant in the precision of an element type. A
/// factor that is 1 up to a millionth, or not a number, leaves no trace.
pub open spec fn times(scaled: Term, t: Term, factor: Scalar, dt: DataType) -> bool {
    if about_one(factor.single) || no_number(factor.single) {
        scaled == t
    } else {
        scaled matches Term::Elementwise(ElementWiseOperation::kPROD, a, b) && *a == t
            && is_numbers(*b, factor, dt)
    }
}

proof fn scaled_is_times(scaled: Term, t: Term, factor: Scalar, dt: DataType)
    requires
        is_scaled(scaled, t, factor, dt),
    ensures
        times(scaled, t, factor, dt),
{
    if !(about_one(factor.single) || no_number(factor.single)) {
        let count = choose|count: nat|
            scaled == both(
                ElementWiseOperation::kPROD,
                t,
                #[trigger] filled_with(factor, dt, count),
            );
        filled_with_is_numbers(factor, dt, count);
    }
}

/// The options of a matrix product, or those that stand for none: nothing is transposed or added, and the
/// factors are 1.
pub open spec fn gemm_asked(options: Option<MLGemmOptions>, o: MLGemmOptions) -> bool {
    match options {
        Some(given) => given == o,
        None => {
            &&& !o.a_transpose && !o.b_transpose
            &&& o.c is None
            &&& o.alpha == (Scalar { single: 0x3F80_0000, half: 0x3C00 })
            &&& o.beta == (Scalar { single: 0x3F80_0000, half: 0x3C00 })
        },
    }
}

/// A general matrix product is `alpha * a * b + beta * c`, with the numbers and the summand of the
/// options. The first factor is transposed exactly where the options say so of the first, and the
/// second exactly where they say so of the second. A summand whose factor is 0 up to a millionth, or
/// not a number, is left out.
pub proof fn gemm_follows_options(
    n: Run,
    m: Map<u32, Tensor>,
    graph: GraphInfo,
    op: Operation,
    promoted: Set<u32>,
    options: Option<MLGemmOptions>,
    o: MLGemmOptions,
)
    requires
        gemm_asked(options, o),
        went_through(n, m, operation_added(n, m, graph, op, promoted)),
        op.kind == (OperationKind::Gemm { options }),
        op.inputs@[0] < graph.operands@.len(),
    ensures
        ({
            let r = result(op, operation_added(n, m, graph, op, promoted));
            let dt = element(graph, op.inputs@[0]);
            let product = Term::MatrixProduct(
                if o.a_transpose {
                    MatrixOperation::kTRANSPOSE
                } else {
                    MatrixOperation::kNONE
                },
                Box::new(input(n, m, op, 0)),
                if o.b_transpose {
                    MatrixOperation::kTRANSPOSE
                } else {
                    MatrixOperation::kNONE
                },
                Box::new(input(n, m, op, 1)),
            );
            if o.c is Some && past_a_millionth(o.beta.single) {
                r matches Term::Elementwise(ElementWiseOperation::kSUM, p, c) && times(
                    *p,
                    product,
                    o.alpha,
                    dt,
                ) && times(*c, n.term(m[o.c->0]), o.beta, dt)
            } else {
                times(r, product, o.alpha, dt)
            }
        }),
{
    gemm_is_added(n, m, graph, op, promoted);
    gemm_means(n, m, graph, op);
    let r = result(op, operation_added(n, m, graph, op, promoted));
    let dt = element(graph, op.inputs@[0]);
    let product = Term::MatrixProduct(
        if o.a_transpose {
            MatrixOperation::kTRANSPOSE
        } else {
            MatrixOperation::kNONE
        },
        Box::new(input(n, m, op, 0)),
        if o.b_transpose {
            MatrixOperation::kTRANSPOSE
        } else {
            MatrixOperation::kNONE
        },
        Box::new(input(n, m, op, 1)),
    );
    if o.c is Some && past_a_millionth(o.beta.single) {
        let (p, c) = choose|p: Term, c: Term|
            r == #[trigger] both(ElementWiseOperation::kSUM, p, c) && is_scaled(
                p,
                product,
                o.alpha,
                dt,
            ) && is_scaled(c, n.term(m[o.c->0]), o.beta, dt);
        scaled_is_times(p, product, o.alpha, dt);
        scaled_is_times(c, n.term(m[o.c->0]), o.beta, dt);
    } else {
        scaled_is_times(r, product, o.alpha, dt);
    }
}

/// A matrix with ones put before the dimensions that TensorRT reported of it, up to a rank.
pub open spec fn ranked(f: Form, d: Seq<i64>, rank: nat) -> Form {
    if d.len() < rank {
        Form::Reshaped(Seq::new((rank - d.len()) as nat, |i: int| 1i64) + d, Box::new(f))
    } else {
        f
    }
}

/// A matrix product multiplies its inputs as they are, the first from the left; the one of lower rank
/// has ones put before its dimensions.
pub proof fn matmul_multiplies(
    n: Run,
    m: Map<u32, Tensor>,
    graph: GraphInfo,
    op: Operation,
    promoted: Set<u32>,
)
    requires
        went_through(n, m, operation_added(n, m, graph, op, promoted)),
        op.kind is Matmul,
    ensures
        ({
            let (a, b) = (reported(n, m[op.inputs@[0]]), reported(n, m[op.inputs@[1]]));
            made(op, operation_added(n, m, graph, op, promoted)) == Form::Product(
                MatrixOperation::kNONE,
                Box::new(ranked(given(n, m, op, 0), a, b.len())),
                MatrixOperation::kNONE,
                Box::new(ranked(given(n, m, op, 1), b, a.len())),
            )
        }),
{
    broadcast use {
        group_grows, group_forms, group_wide_forms, grows_raised, forms_raised,
    };

    matmul_is_added(n, m, graph, op, promoted);
    reveal(Run::dims);
}

broadcast proof fn forms_raised(n: Run, t: Tensor, d: Seq<i64>, rank: nat)
    requires
        raised(n, t, d, rank).0.goes_on(),
        n.has(t),
    ensures
        ({
            let (after, r) = #[trigger] raised(n, t, d, rank);
            after.has(r) && after.form(r) == ranked(n.form(t), d, rank)
        }),
{
    broadcast use {group_grows, group_forms};

    reveal(raised);
    if d.len() < rank {
        assert(ones((rank - d.len()) as nat) =~= Seq::new((rank - d.len()) as nat, |i: int| 1i64));
    }
}

} // verus!
