//! Matrix products.

use crate::data_type::DataType;
use crate::graph::GraphInfo;
use crate::operators::{Operation, OperationKind};
use crate::scalar::{
    exceeds, float_bytes, float_bytes_of, float_type, float_type_of, is_above, is_nan, is_nan_bits,
    is_roughly_one, known, repeat_bytes, repeated, roughly_one, Known, Scalar, ONE_MILLIONTH,
};
use crate::text::say;
use crate::trtx::broadcast::{
    broadcast_pair, group_broadcast_stopped, left_padded, left_padded_vec,
};
use crate::trtx::session::{
    copy_i64, does, gives, group_stopped, store, Halt, Network, Run, TensorMap,
};
use crate::trtx::shapes::{elements, elements_of};
use crate::trtx::steps::group_layers_stopped;
use crate::trtx::types::{ElementWiseOperation, MatrixOperation, Tensor};
use crate::trtx::TrtxConverter;
use vstd::prelude::*;

verus! {

broadcast use {group_stopped, group_layers_stopped, group_broadcast_stopped};

/// A tensor with ones put before its dimensions, where `rank` is larger than its own rank.
#[verifier::opaque]
pub open spec fn raised(n: Run, t: Tensor, d: Seq<i64>, rank: nat) -> (Run, Tensor) {
    if d.len() < rank {
        n.reshape(
            t,
            left_padded(d, rank),
            "Matmul: unsqueeze shuffle: "@,
            "Matmul: set reshape: "@,
            "Matmul: shuffle output: "@,
        )
    } else {
        (n, t)
    }
}

pub broadcast proof fn stopped_raised(n: Run, t: Tensor, d: Seq<i64>, rank: nat)
    requires
        n.halt is Some,
    ensures
        (#[trigger] raised(n, t, d, rank)).0 == n,
{
    reveal(raised);
}

/// The matrix product of two tensors; the one of lower rank is given ones in front.
pub open spec fn matmul_op(n: Run, m: Map<u32, Tensor>, op: Operation) -> (Run, Map<u32, Tensor>) {
    let (n, a) = n.find(m, op.inputs@[0], "Input operand "@, " not found"@);
    let (n, b) = n.find(m, op.inputs@[1], "Input operand "@, " not found"@);
    let (n, da) = n.dims(a, "Matmul: input0 dimensions: "@);
    let (n, db) = n.dims(b, "Matmul: input1 dimensions: "@);
    let (n, a) = raised(n, a, da, db.len());
    let (n, b) = raised(n, b, db, da.len());
    let (n, t) = n.matrix_multiply(
        a,
        MatrixOperation::kNONE,
        b,
        MatrixOperation::kNONE,
        "Failed to add matrix multiply: "@,
        "Failed to get layer output: "@,
    );
    store(n, m, op.outputs@[0], t)
}

/// The parameters of a matrix product with a summand: the factor of the product, the factor of the
/// summand, and the summand.
pub open spec fn gemm_terms(kind: OperationKind) -> (Scalar, Scalar, Option<u32>) {
    match kind {
        OperationKind::Gemm { options: Some(o) } => (o.alpha, o.beta, o.c),
        _ => (known(Known::One), known(Known::One), None),
    }
}

/// How the two factors of a matrix product with a summand are read.
pub open spec fn gemm_forms(kind: OperationKind) -> (MatrixOperation, MatrixOperation) {
    match kind {
        OperationKind::Gemm { options: Some(o) } => (matrix_form(o.a_transpose), matrix_form(
            o.b_transpose,
        )),
        _ => (MatrixOperation::kNONE, MatrixOperation::kNONE),
    }
}

/// A matrix as it is, or transposed.
pub open spec fn matrix_form(transposed: bool) -> MatrixOperation {
    if transposed {
        MatrixOperation::kTRANSPOSE
    } else {
        MatrixOperation::kNONE
    }
}

fn matrix_form_of(transposed: bool) -> (f: MatrixOperation)
    ensures
        f == matrix_form(transposed),
{
    if transposed {
        MatrixOperation::kTRANSPOSE
    } else {
        MatrixOperation::kNONE
    }
}

/// The element type of an operand, `Float32` where the graph has no such operand.
pub open spec fn type_or_float(graph: GraphInfo, id: u32) -> DataType {
    if id < graph.operands@.len() {
        graph.operands@[id as int].descriptor.data_type
    } else {
        DataType::Float32
    }
}

/// The element type of an operand, `Float32` where the graph has no such operand.
pub fn type_or_float_of(graph: &GraphInfo, id: u32) -> (t: DataType)
    ensures
        t == type_or_float(*graph, id),
{
    match graph.operand(id) {
        Some(o) => o.descriptor.data_type,
        None => DataType::Float32,
    }
}

/// `t` times a factor, by a constant of the dimensions of `t`.
#[verifier::opaque]
pub open spec fn scaled(
    n: Run,
    t: Tensor,
    factor: Scalar,
    dt: DataType,
    whole: Seq<char>,
    name: Seq<char>,
    add_label: Seq<char>,
    output_label: Seq<char>,
) -> (Run, Tensor) {
    let (n, d) = n.dims(t, "Failed to get "@ + whole + " dimensions: "@);
    let (n, count) = elements(n, d);
    let (n, c) = n.constant(
        d,
        repeated(float_bytes(factor, dt), count),
        float_type(dt),
        "Failed to create "@ + name + " constant: "@,
        "Failed to get "@ + name + " tensor: "@,
    );
    n.elementwise(t, c, ElementWiseOperation::kPROD, add_label, output_label)
}

pub broadcast proof fn stopped_scaled(
    n: Run,
    t: Tensor,
    factor: Scalar,
    dt: DataType,
    whole: Seq<char>,
    name: Seq<char>,
    add_label: Seq<char>,
    output_label: Seq<char>,
)
    requires
        n.halt is Some,
    ensures
        (#[trigger] scaled(n, t, factor, dt, whole, name, add_label, output_label)).0 == n,
{
    reveal(scaled);
}

/// `t` plus a summand that is stretched to it: once to its rank, and once more to its dimensions.
#[verifier::opaque]
pub open spec fn summed(n: Run, t: Tensor, c: Tensor, add_label: Seq<char>) -> (Run, Tensor) {
    let (n, (a, c)) = broadcast_pair(n, t, c, "gemm_options_c"@);
    let (n, (a, c)) = broadcast_pair(n, a, c, "gemm_options_c"@);
    n.elementwise(a, c, ElementWiseOperation::kSUM, add_label, "Failed to get final GEMM output: "@)
}

pub broadcast proof fn stopped_summed(n: Run, t: Tensor, c: Tensor, add_label: Seq<char>)
    requires
        n.halt is Some,
    ensures
        (#[trigger] summed(n, t, c, add_label)).0 == n,
{
    reveal(summed);
}

/// `alpha * a * b + beta * c`. A factor that is 1 up to a millionth is left out, as is a summand
/// whose factor is 0 up to a millionth.
pub open spec fn gemm_op(
    n: Run,
    m: Map<u32, Tensor>,
    graph: GraphInfo,
    op: Operation,
) -> (Run, Map<u32, Tensor>) {
    let (n, a) = n.find(m, op.inputs@[0], "Input operand "@, " not found"@);
    let (n, b) = n.find(m, op.inputs@[1], "Input operand "@, " not found"@);
    let dt = type_or_float(graph, op.inputs@[0]);
    let (alpha, beta, summand) = gemm_terms(op.kind);
    let (form_a, form_b) = gemm_forms(op.kind);
    let (n, _) = n.dims(a, "Failed to get input A dimensions: "@);
    let (n, _) = n.dims(b, "Failed to get input B dimensions: "@);
    let (n, t) = n.matrix_multiply(
        a,
        form_a,
        b,
        form_b,
        "Failed to add GEMM matrix multiply: "@,
        "Failed to get GEMM layer output: "@,
    );
    let (n, t) = if roughly_one(alpha.single) || is_nan(alpha.single) {
        (n, t)
    } else {
        scaled(
            n,
            t,
            alpha,
            dt,
            "result"@,
            "alpha"@,
            "Failed to scale by alpha: "@,
            "Failed to get scaled output: "@,
        )
    };
    let (n, t) = if summand is Some && exceeds(beta.single, ONE_MILLIONTH) {
        let (n, c) = n.find(m, summand->0, "GEMM options.c operand "@, " not found"@);
        if roughly_one(beta.single) {
            summed(n, t, c, "Failed to add C to result: "@)
        } else {
            let (n, c) = scaled(
                n,
                c,
                beta,
                dt,
                "C"@,
                "beta"@,
                "Failed to scale C by beta: "@,
                "Failed to get scaled C: "@,
            );
            summed(n, t, c, "Failed to add scaled C to result: "@)
        }
    } else {
        (n, t)
    };
    store(n, m, op.outputs@[0], t)
}

pub broadcast group group_matrix_stopped {
    stopped_raised,
    stopped_scaled,
    stopped_summed,
}

impl TrtxConverter {
    /// Puts ones before the dimensions of a tensor.
    pub fn raised(
        net: &mut Network,
        t: Tensor,
        d: &Vec<i64>,
        rank: usize,
    ) -> (r: Result<Tensor, Halt>)
        ensures
            gives(final(net)@, r, raised(old(net)@, t, d@, rank as nat)),
    {
        proof {
            reveal(raised);
            broadcast use group_matrix_stopped;

        }
        if d.len() < rank {
            net.reshape(
                t,
                left_padded_vec(d, rank),
                "Matmul: unsqueeze shuffle: ",
                "Matmul: set reshape: ",
                "Matmul: shuffle output: ",
            )
        } else {
            Ok(t)
        }
    }

    /// Adds a matrix product.
    pub fn add_matmul_op(
        net: &mut Network,
        tensors: &mut TensorMap,
        operation: &Operation,
    ) -> (r: Result<(), Halt>)
        requires
            operation.inputs@.len() >= 2,
            operation.outputs@.len() >= 1,
        ensures
            does(final(net)@, r, final(tensors)@, matmul_op(old(net)@, old(tensors)@, *operation)),
    {
        proof {
            broadcast use group_matrix_stopped;

        }
        let a = tensors.find(operation.inputs[0], "Input operand ", " not found")?;
        let b = tensors.find(operation.inputs[1], "Input operand ", " not found")?;
        let da = net.dims(a, "Matmul: input0 dimensions: ")?;
        let db = net.dims(b, "Matmul: input1 dimensions: ")?;
        let a = Self::raised(net, a, &da, db.len())?;
        let b = Self::raised(net, b, &db, da.len())?;
        let t = net.matrix_multiply(
            a,
            MatrixOperation::kNONE,
            b,
            MatrixOperation::kNONE,
            "Failed to add matrix multiply: ",
            "Failed to get layer output: ",
        )?;
        tensors.insert(operation.outputs[0], t);
        Ok(())
    }

    /// Multiplies `t` by a factor.
    pub fn scaled(
        net: &mut Network,
        t: Tensor,
        factor: Scalar,
        dt: DataType,
        whole: &str,
        name: &str,
        add_label: &str,
        output_label: &str,
    ) -> (r: Result<Tensor, Halt>)
        ensures
            gives(
                final(net)@,
                r,
                scaled(old(net)@, t, factor, dt, whole@, name@, add_label@, output_label@),
            ),
    {
        proof {
            reveal(scaled);
            broadcast use group_matrix_stopped;

        }
        let d = net.dims(t, say("Failed to get ").str(whole).str(" dimensions: ").text.as_str())?;
        let count: usize = elements_of(&d)?;
        let c = net.constant(
            copy_i64(&d),
            repeat_bytes(&float_bytes_of(factor, dt), count),
            float_type_of(dt),
            say("Failed to create ").str(name).str(" constant: ").text.as_str(),
            say("Failed to get ").str(name).str(" tensor: ").text.as_str(),
        )?;
        net.elementwise(t, c, ElementWiseOperation::kPROD, add_label, output_label)
    }

    /// Adds a summand to `t`.
    pub fn summed(
        net: &mut Network,
        t: Tensor,
        c: Tensor,
        add_label: &str,
    ) -> (r: Result<Tensor, Halt>)
        ensures
            gives(final(net)@, r, summed(old(net)@, t, c, add_label@)),
    {
        proof {
            reveal(summed);
            broadcast use group_matrix_stopped;

        }
        let (a, c) = Self::ensure_broadcast_compatible(net, t, c, "gemm_options_c")?;
        let (a, c) = Self::ensure_broadcast_compatible(net, a, c, "gemm_options_c")?;
        net.elementwise(
            a,
            c,
            ElementWiseOperation::kSUM,
            add_label,
            "Failed to get final GEMM output: ",
        )
    }

    /// Adds a matrix product with a summand.
    pub fn add_gemm_op(
        graph: &GraphInfo,
        net: &mut Network,
        tensors: &mut TensorMap,
        operation: &Operation,
    ) -> (r: Result<(), Halt>)
        requires
            operation.inputs@.len() >= 2,
            operation.outputs@.len() >= 1,
        ensures
            does(
                final(net)@,
                r,
                final(tensors)@,
                gemm_op(old(net)@, old(tensors)@, *graph, *operation),
            ),
    {
        proof {
            broadcast use group_matrix_stopped;

        }
        let a = tensors.find(operation.inputs[0], "Input operand ", " not found")?;
        let b = tensors.find(operation.inputs[1], "Input operand ", " not found")?;
        let dt = type_or_float_of(graph, operation.inputs[0]);
        let (alpha, beta, summand): (Scalar, Scalar, Option<u32>) = match &operation.kind {
            OperationKind::Gemm { options: Some(o) } => (o.alpha, o.beta, o.c),
            _ => (Known::One.scalar(), Known::One.scalar(), None),
        };
        let (form_a, form_b) = match &operation.kind {
            OperationKind::Gemm { options: Some(o) } => (
                matrix_form_of(o.a_transpose),
                matrix_form_of(o.b_transpose),
            ),
            _ => (MatrixOperation::kNONE, MatrixOperation::kNONE),
        };
        net.dims(a, "Failed to get input A dimensions: ")?;
        net.dims(b, "Failed to get input B dimensions: ")?;
        let t = net.matrix_multiply(
            a,
            form_a,
            b,
            form_b,
            "Failed to add GEMM matrix multiply: ",
            "Failed to get GEMM layer output: ",
        )?;
        let t = if is_roughly_one(alpha.single) || is_nan_bits(alpha.single) {
            t
        } else {
            Self::scaled(
                net,
                t,
                alpha,
                dt,
                "result",
                "alpha",
                "Failed to scale by alpha: ",
                "Failed to get scaled output: ",
            )?
        };
        let t = if let Some(id) = summand {
            if is_above(beta.single, ONE_MILLIONTH) {
                let c = tensors.find(id, "GEMM options.c operand ", " not found")?;
                if is_roughly_one(beta.single) {
                    Self::summed(net, t, c, "Failed to add C to result: ")?
                } else {
                    let c = Self::scaled(
                        net,
                        c,
                        beta,
                        dt,
                        "C",
                        "beta",
                        "Failed to scale C by beta: ",
                        "Failed to get scaled C: ",
                    )?;
                    Self::summed(net, t, c, "Failed to add scaled C to result: ")?
                }
            } else {
                t
            }
        } else {
            t
        };
        tensors.insert(operation.outputs[0], t);
        Ok(())
    }
}

} // verus!
