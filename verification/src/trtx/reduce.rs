//! Reductions over axes.

use crate::data_type::DataType;
use crate::graph::GraphInfo;
use crate::operator_options::MLReduceOptions;
use crate::operators::{Operation, OperationKind};
use crate::trtx::broadcast::{group_broadcast_stopped, to_float16, to_float32};
use crate::trtx::matrix::{type_or_float, type_or_float_of};
use crate::trtx::session::{does, gives, group_stopped, store, Halt, Network, Run, TensorMap};
use crate::trtx::shapes::{axis_range, axis_range_vec, mask, mask_of};
use crate::trtx::steps::group_layers_stopped;
use crate::trtx::types::{ElementWiseOperation, ReduceOperation, Tensor, UnaryOperation};
use crate::trtx::TrtxConverter;
use vstd::prelude::*;

verus! {

broadcast use {group_stopped, group_layers_stopped, group_broadcast_stopped};

/// The options of a reduction.
pub open spec fn reduce_options(kind: OperationKind) -> Option<MLReduceOptions> {
    match kind {
        OperationKind::ReduceSum { options } => options,
        OperationKind::ReduceMean { options } => options,
        OperationKind::ReduceMax { options } => options,
        OperationKind::ReduceMin { options } => options,
        OperationKind::ReduceProduct { options } => options,
        OperationKind::ReduceL1 { options } => options,
        OperationKind::ReduceL2 { options } => options,
        OperationKind::ReduceLogSum { options } => options,
        OperationKind::ReduceLogSumExp { options } => options,
        OperationKind::ReduceSumSquare { options } => options,
        _ => None,
    }
}

fn reduce_options_of(kind: &OperationKind) -> (o: Option<&MLReduceOptions>)
    ensures
        match o {
            Some(o) => reduce_options(*kind) == Some(*o),
            None => reduce_options(*kind) is None,
        },
{
    match kind {
        OperationKind::ReduceSum { options: Some(o) } => Some(o),
        OperationKind::ReduceMean { options: Some(o) } => Some(o),
        OperationKind::ReduceMax { options: Some(o) } => Some(o),
        OperationKind::ReduceMin { options: Some(o) } => Some(o),
        OperationKind::ReduceProduct { options: Some(o) } => Some(o),
        OperationKind::ReduceL1 { options: Some(o) } => Some(o),
        OperationKind::ReduceL2 { options: Some(o) } => Some(o),
        OperationKind::ReduceLogSum { options: Some(o) } => Some(o),
        OperationKind::ReduceLogSumExp { options: Some(o) } => Some(o),
        OperationKind::ReduceSumSquare { options: Some(o) } => Some(o),
        _ => None,
    }
}

/// The axes of a reduction: those given, and else all.
#[verifier::opaque]
pub open spec fn reduce_axes(kind: OperationKind, rank: nat) -> Seq<u32> {
    match reduce_options(kind) {
        Some(o) => match o.axes {
            Some(axes) => axes@,
            None => axis_range(0, rank),
        },
        None => axis_range(0, rank),
    }
}

/// Whether a reduction keeps the axes that it reduces, with the extent 1.
#[verifier::opaque]
pub open spec fn keeps_dims(kind: OperationKind) -> bool {
    match reduce_options(kind) {
        Some(o) => o.keep_dimensions,
        None => false,
    }
}

fn reduce_axes_of(kind: &OperationKind, rank: usize) -> (v: Vec<u32>)
    ensures
        v@ == reduce_axes(*kind, rank as nat),
{
    proof {
        reveal(reduce_axes);
    }
    match reduce_options_of(kind) {
        Some(o) => match &o.axes {
            Some(axes) => {
                let v = axes.clone();
                assert(v@ =~= axes@);
                v
            },
            None => axis_range_vec(0, rank),
        },
        None => axis_range_vec(0, rank),
    }
}

fn keeps_dims_of(kind: &OperationKind) -> (b: bool)
    ensures
        b == keeps_dims(*kind),
{
    proof {
        reveal(keeps_dims);
    }
    match reduce_options_of(kind) {
        Some(o) => o.keep_dimensions,
        None => false,
    }
}

/// A tensor reduced over the given axes.
#[verifier::opaque]
pub open spec fn over_axes(
    n: Run,
    t: Tensor,
    op: ReduceOperation,
    axes: Seq<u32>,
    keep: bool,
    add_label: Seq<char>,
    output_label: Seq<char>,
) -> (Run, Tensor) {
    let (n, bits) = mask(n, axes);
    n.reduce(t, op, bits, keep, add_label, output_label)
}

pub broadcast proof fn stopped_over_axes(
    n: Run,
    t: Tensor,
    op: ReduceOperation,
    axes: Seq<u32>,
    keep: bool,
    add_label: Seq<char>,
    output_label: Seq<char>,
)
    requires
        n.halt is Some,
    ensures
        (#[trigger] over_axes(n, t, op, axes, keep, add_label, output_label)).0 == n,
{
    reveal(over_axes);
}

/// A reduction. Over no axis it is a copy.
pub open spec fn reduce_op(
    n: Run,
    m: Map<u32, Tensor>,
    op: Operation,
    reduction: ReduceOperation,
) -> (Run, Map<u32, Tensor>) {
    let (n, x) = n.find(m, op.inputs@[0], "Input operand "@, " not found"@);
    let (n, d) = n.dims(x, "Reduce: input dimensions: "@);
    let axes = reduce_axes(op.kind, d.len());
    let (n, t) = if axes.len() == 0 {
        n.identity(x, "Reduce axes=[] identity: "@, "Reduce axes=[] output: "@)
    } else {
        over_axes(
            n,
            x,
            reduction,
            axes,
            keeps_dims(op.kind),
            "Failed to add reduce operation: "@,
            "Failed to get layer output: "@,
        )
    };
    store(n, m, op.outputs@[0], t)
}

/// The sum of absolute values. Over no axis it is the absolute value.
pub open spec fn reduce_l1_op(n: Run, m: Map<u32, Tensor>, op: Operation) -> (Run, Map<u32, Tensor>) {
    let (n, x) = n.find(m, op.inputs@[0], "Input operand "@, " not found"@);
    let (n, t) = n.unary(
        x,
        UnaryOperation::kABS,
        "Failed to add abs for L1: "@,
        "Failed to get abs output: "@,
    );
    let (n, d) = n.dims(x, "ReduceL1: input dimensions: "@);
    let axes = reduce_axes(op.kind, d.len());
    let (n, t) = if axes.len() == 0 {
        (n, t)
    } else {
        over_axes(
            n,
            t,
            ReduceOperation::kSUM,
            axes,
            keeps_dims(op.kind),
            "Failed to add reduce for L1: "@,
            "Failed to get layer output: "@,
        )
    };
    store(n, m, op.outputs@[0], t)
}

/// The square root of the sum of squares, summed in single precision. Over no axis it is the square
/// root of the square.
pub open spec fn reduce_l2_op(
    n: Run,
    m: Map<u32, Tensor>,
    graph: GraphInfo,
    op: Operation,
) -> (Run, Map<u32, Tensor>) {
    let (n, x) = n.find(m, op.inputs@[0], "Input operand "@, " not found"@);
    let dt = type_or_float(graph, op.inputs@[0]);
    let (n, t) = n.elementwise(
        x,
        x,
        ElementWiseOperation::kPROD,
        "Failed to add square for L2: "@,
        "Failed to get square output: "@,
    );
    let (n, d) = n.dims(x, "ReduceL2: input dimensions: "@);
    let axes = reduce_axes(op.kind, d.len());
    let (n, t) = if axes.len() == 0 {
        n.unary(t, UnaryOperation::kSQRT, "ReduceL2 axes=[] sqrt: "@, "ReduceL2 axes=[] output: "@)
    } else {
        let (n, bits) = mask(n, axes);
        let (n, t) = to_float32(n, t);
        let (n, t) = n.reduce(
            t,
            ReduceOperation::kSUM,
            bits,
            keeps_dims(op.kind),
            "Failed to add reduce for L2: "@,
            "Failed to get sum output: "@,
        );
        let (n, t) = n.unary(
            t,
            UnaryOperation::kSQRT,
            "Failed to add sqrt for L2: "@,
            "Failed to get layer output: "@,
        );
        if dt == DataType::Float16 {
            to_float16(n, t)
        } else {
            (n, t)
        }
    };
    store(n, m, op.outputs@[0], t)
}

/// The logarithm of the sum. Over no axis it is the logarithm.
pub open spec fn reduce_log_sum_op(
    n: Run,
    m: Map<u32, Tensor>,
    op: Operation,
) -> (Run, Map<u32, Tensor>) {
    let (n, x) = n.find(m, op.inputs@[0], "Input operand "@, " not found"@);
    let (n, d) = n.dims(x, "ReduceLogSum: input dimensions: "@);
    let axes = reduce_axes(op.kind, d.len());
    let (n, t) = if axes.len() == 0 {
        n.unary(
            x,
            UnaryOperation::kLOG,
            "ReduceLogSum axes=[] log: "@,
            "ReduceLogSum axes=[] output: "@,
        )
    } else {
        let (n, t) = over_axes(
            n,
            x,
            ReduceOperation::kSUM,
            axes,
            keeps_dims(op.kind),
            "Failed to add reduce for LogSum: "@,
            "Failed to get sum output: "@,
        );
        n.unary(
            t,
            UnaryOperation::kLOG,
            "Failed to add log for LogSum: "@,
            "Failed to get layer output: "@,
        )
    };
    store(n, m, op.outputs@[0], t)
}

/// The logarithm of the sum of exponentials. Over no axis it is a copy.
pub open spec fn reduce_log_sum_exp_op(
    n: Run,
    m: Map<u32, Tensor>,
    op: Operation,
) -> (Run, Map<u32, Tensor>) {
    let (n, x) = n.find(m, op.inputs@[0], "Input operand "@, " not found"@);
    let (n, t) = n.unary(
        x,
        UnaryOperation::kEXP,
        "Failed to add exp for LogSumExp: "@,
        "Failed to get exp output: "@,
    );
    let (n, d) = n.dims(x, "ReduceLogSumExp: input dimensions: "@);
    let axes = reduce_axes(op.kind, d.len());
    let (n, t) = if axes.len() == 0 {
        n.identity(x, "ReduceLogSumExp axes=[] identity: "@, "ReduceLogSumExp axes=[] output: "@)
    } else {
        let (n, t) = over_axes(
            n,
            t,
            ReduceOperation::kSUM,
            axes,
            keeps_dims(op.kind),
            "Failed to add reduce for LogSumExp: "@,
            "Failed to get sum output: "@,
        );
        n.unary(
            t,
            UnaryOperation::kLOG,
            "Failed to add log for LogSumExp: "@,
            "Failed to get layer output: "@,
        )
    };
    store(n, m, op.outputs@[0], t)
}

/// The sum of squares. Over no axis it is the square.
pub open spec fn reduce_sum_square_op(
    n: Run,
    m: Map<u32, Tensor>,
    op: Operation,
) -> (Run, Map<u32, Tensor>) {
    let (n, x) = n.find(m, op.inputs@[0], "Input operand "@, " not found"@);
    let (n, t) = n.elementwise(
        x,
        x,
        ElementWiseOperation::kPROD,
        "Failed to add square for SumSquare: "@,
        "Failed to get square output: "@,
    );
    let (n, d) = n.dims(x, "ReduceSumSquare: input dimensions: "@);
    let axes = reduce_axes(op.kind, d.len());
    let (n, t) = if axes.len() == 0 {
        (n, t)
    } else {
        over_axes(
            n,
            t,
            ReduceOperation::kSUM,
            axes,
            keeps_dims(op.kind),
            "Failed to add reduce for SumSquare: "@,
            "Failed to get layer output: "@,
        )
    };
    store(n, m, op.outputs@[0], t)
}

pub broadcast group group_reduce_stopped {
    stopped_over_axes,
}

impl TrtxConverter {
    /// Reduces a tensor over the given axes.
    pub fn over_axes(
        net: &mut Network,
        t: Tensor,
        op: ReduceOperation,
        axes: &Vec<u32>,
        keep: bool,
        add_label: &str,
        output_label: &str,
    ) -> (r: Result<Tensor, Halt>)
        ensures
            gives(
                final(net)@,
                r,
                over_axes(old(net)@, t, op, axes@, keep, add_label@, output_label@),
            ),
    {
        proof {
            reveal(over_axes);
            broadcast use group_reduce_stopped;

        }
        let bits: u32 = mask_of(axes)?;
        net.reduce(t, op, bits, keep, add_label, output_label)
    }

    /// Adds a reduction.
    pub fn add_reduce_op(
        net: &mut Network,
        tensors: &mut TensorMap,
        operation: &Operation,
        reduction: ReduceOperation,
    ) -> (r: Result<(), Halt>)
        requires
            operation.inputs@.len() >= 1,
            operation.outputs@.len() >= 1,
        ensures
            does(
                final(net)@,
                r,
                final(tensors)@,
                reduce_op(old(net)@, old(tensors)@, *operation, reduction),
            ),
    {
        proof {
            broadcast use group_reduce_stopped;

        }
        let x = tensors.find(operation.inputs[0], "Input operand ", " not found")?;
        let d = net.dims(x, "Reduce: input dimensions: ")?;
        let axes = reduce_axes_of(&operation.kind, d.len());
        let t = if axes.len() == 0 {
            net.identity(x, "Reduce axes=[] identity: ", "Reduce axes=[] output: ")?
        } else {
            Self::over_axes(
                net,
                x,
                reduction,
                &axes,
                keeps_dims_of(&operation.kind),
                "Failed to add reduce operation: ",
                "Failed to get layer output: ",
            )?
        };
        tensors.insert(operation.outputs[0], t);
        Ok(())
    }

    /// Adds a sum of absolute values.
    pub fn add_reduce_l1_op(
        net: &mut Network,
        tensors: &mut TensorMap,
        operation: &Operation,
    ) -> (r: Result<(), Halt>)
        requires
            operation.inputs@.len() >= 1,
            operation.outputs@.len() >= 1,
        ensures
            does(
                final(net)@,
                r,
                final(tensors)@,
                reduce_l1_op(old(net)@, old(tensors)@, *operation),
            ),
    {
        proof {
            broadcast use group_reduce_stopped;

        }
        let x = tensors.find(operation.inputs[0], "Input operand ", " not found")?;
        let t = net.unary(
            x,
            UnaryOperation::kABS,
            "Failed to add abs for L1: ",
            "Failed to get abs output: ",
        )?;
        let d = net.dims(x, "ReduceL1: input dimensions: ")?;
        let axes = reduce_axes_of(&operation.kind, d.len());
        let t = if axes.len() == 0 {
            t
        } else {
            Self::over_axes(
                net,
                t,
                ReduceOperation::kSUM,
                &axes,
                keeps_dims_of(&operation.kind),
                "Failed to add reduce for L1: ",
                "Failed to get layer output: ",
            )?
        };
        tensors.insert(operation.outputs[0], t);
        Ok(())
    }

    /// Adds the square root of a sum of squares.
    pub fn add_reduce_l2_op(
        graph: &GraphInfo,
        net: &mut Network,
        tensors: &mut TensorMap,
        operation: &Operation,
    ) -> (r: Result<(), Halt>)
        requires
            operation.inputs@.len() >= 1,
            operation.outputs@.len() >= 1,
        ensures
            does(
                final(net)@,
                r,
                final(tensors)@,
                reduce_l2_op(old(net)@, old(tensors)@, *graph, *operation),
            ),
    {
        proof {
            broadcast use group_reduce_stopped;

        }
        let x = tensors.find(operation.inputs[0], "Input operand ", " not found")?;
        let dt = type_or_float_of(graph, operation.inputs[0]);
        let t = net.elementwise(
            x,
            x,
            ElementWiseOperation::kPROD,
            "Failed to add square for L2: ",
            "Failed to get square output: ",
        )?;
        let d = net.dims(x, "ReduceL2: input dimensions: ")?;
        let axes = reduce_axes_of(&operation.kind, d.len());
        let t = if axes.len() == 0 {
            net.unary(
                t,
                UnaryOperation::kSQRT,
                "ReduceL2 axes=[] sqrt: ",
                "ReduceL2 axes=[] output: ",
            )?
        } else {
            let bits: u32 = mask_of(&axes)?;
            let t = Self::cast_to_float32(net, t)?;
            let t = net.reduce(
                t,
                ReduceOperation::kSUM,
                bits,
                keeps_dims_of(&operation.kind),
                "Failed to add reduce for L2: ",
                "Failed to get sum output: ",
            )?;
            let t = net.unary(
                t,
                UnaryOperation::kSQRT,
                "Failed to add sqrt for L2: ",
                "Failed to get layer output: ",
            )?;
            if dt == DataType::Float16 {
                Self::cast_to_float16(net, t)?
            } else {
                t
            }
        };
        tensors.insert(operation.outputs[0], t);
        Ok(())
    }

    /// Adds the logarithm of a sum.
    pub fn add_reduce_log_sum_op(
        net: &mut Network,
        tensors: &mut TensorMap,
        operation: &Operation,
    ) -> (r: Result<(), Halt>)
        requires
            operation.inputs@.len() >= 1,
            operation.outputs@.len() >= 1,
        ensures
            does(
                final(net)@,
                r,
                final(tensors)@,
                reduce_log_sum_op(old(net)@, old(tensors)@, *operation),
            ),
    {
        proof {
            broadcast use group_reduce_stopped;

        }
        let x = tensors.find(operation.inputs[0], "Input operand ", " not found")?;
        let d = net.dims(x, "ReduceLogSum: input dimensions: ")?;
        let axes = reduce_axes_of(&operation.kind, d.len());
        let t = if axes.len() == 0 {
            net.unary(
                x,
                UnaryOperation::kLOG,
                "ReduceLogSum axes=[] log: ",
                "ReduceLogSum axes=[] output: ",
            )?
        } else {
            let t = Self::over_axes(
                net,
                x,
                ReduceOperation::kSUM,
                &axes,
                keeps_dims_of(&operation.kind),
                "Failed to add reduce for LogSum: ",
                "Failed to get sum output: ",
            )?;
            net.unary(
                t,
                UnaryOperation::kLOG,
                "Failed to add log for LogSum: ",
                "Failed to get layer output: ",
            )?
        };
        tensors.insert(operation.outputs[0], t);
        Ok(())
    }

    /// Adds the logarithm of a sum of exponentials.
    pub fn add_reduce_log_sum_exp_op(
        net: &mut Network,
        tensors: &mut TensorMap,
        operation: &Operation,
    ) -> (r: Result<(), Halt>)
        requires
            operation.inputs@.len() >= 1,
            operation.outputs@.len() >= 1,
        ensures
            does(
                final(net)@,
                r,
                final(tensors)@,
                reduce_log_sum_exp_op(old(net)@, old(tensors)@, *operation),
            ),
    {
        proof {
            broadcast use group_reduce_stopped;

        }
        let x = tensors.find(operation.inputs[0], "Input operand ", " not found")?;
        let t = net.unary(
            x,
            UnaryOperation::kEXP,
            "Failed to add exp for LogSumExp: ",
            "Failed to get exp output: ",
        )?;
        let d = net.dims(x, "ReduceLogSumExp: input dimensions: ")?;
        let axes = reduce_axes_of(&operation.kind, d.len());
        let t = if axes.len() == 0 {
            net.identity(
                x,
                "ReduceLogSumExp axes=[] identity: ",
                "ReduceLogSumExp axes=[] output: ",
            )?
        } else {
            let t = Self::over_axes(
                net,
                t,
                ReduceOperation::kSUM,
                &axes,
                keeps_dims_of(&operation.kind),
                "Failed to add reduce for LogSumExp: ",
                "Failed to get sum output: ",
            )?;
            net.unary(
                t,
                UnaryOperation::kLOG,
                "Failed to add log for LogSumExp: ",
                "Failed to get layer output: ",
            )?
        };
        tensors.insert(operation.outputs[0], t);
        Ok(())
    }

    /// Adds a sum of squares.
    pub fn add_reduce_sum_square_op(
        net: &mut Network,
        tensors: &mut TensorMap,
        operation: &Operation,
    ) -> (r: Result<(), Halt>)
        requires
            operation.inputs@.len() >= 1,
            operation.outputs@.len() >= 1,
        ensures
            does(
                final(net)@,
                r,
                final(tensors)@,
                reduce_sum_square_op(old(net)@, old(tensors)@, *operation),
            ),
    {
        proof {
            broadcast use group_reduce_stopped;

        }
        let x = tensors.find(operation.inputs[0], "Input operand ", " not found")?;
        let t = net.elementwise(
            x,
            x,
            ElementWiseOperation::kPROD,
            "Failed to add square for SumSquare: ",
            "Failed to get square output: ",
        )?;
        let d = net.dims(x, "ReduceSumSquare: input dimensions: ")?;
        let axes = reduce_axes_of(&operation.kind, d.len());
        let t = if axes.len() == 0 {
            t
        } else {
            Self::over_axes(
                net,
                t,
                ReduceOperation::kSUM,
                &axes,
                keeps_dims_of(&operation.kind),
                "Failed to add reduce for SumSquare: ",
                "Failed to get layer output: ",
            )?
        };
        tensors.insert(operation.outputs[0], t);
        Ok(())
    }
}

} // verus!
