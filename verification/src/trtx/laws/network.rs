//! What a network has besides its layers: inputs, constants and outputs.

use crate::data_type::DataType;
use crate::graph::{GraphInfo, OperandKind};
use crate::trtx::growth::{group_grows, grows_stopped};
use crate::trtx::laws::quantize::held_as;
use crate::trtx::laws::words::{shape, size};
use crate::trtx::meaning::went_on;
use crate::trtx::names::engine_name;
use crate::trtx::network::{stage_done, Stage};
use crate::trtx::session::{RequestOf, Run, WeightsOf};
use crate::trtx::types::{Tensor, TrtDataType};
use vstd::prelude::*;

verus! {

/// An operand that is an input becomes an input of the network, in its type, with its sizes or their
/// bounds, under its name.
pub proof fn input_is_added(n: Run, m: Map<u32, Tensor>, graph: GraphInfo, k: usize)
    requires
        stage_done(n, m, graph, Stage::Input(k)).0.goes_on(),
        k < graph.operands@.len() <= u32::MAX,
        graph.operands@[k as int].kind == OperandKind::Input,
    ensures
        ({
            let (end, tensors) = stage_done(n, m, graph, Stage::Input(k));
            let at = n.requests.len() as int;
            &&& tensors == m.insert(k as u32, Tensor { id: at as usize })
            &&& end.requests.len() == at + 2
            &&& match end.requests[at] {
                RequestOf::AddInput { name, dtype, dims } => {
                    &&& name == engine_name(graph.operands@, k as u32)
                    &&& dtype == held_as(graph.operands@[k as int].descriptor.data_type)
                    &&& dims.len() == shape(graph, k as u32).len()
                    &&& forall|i: int|
                        0 <= i < dims.len() ==> #[trigger] dims[i] == size(shape(graph, k as u32)[i])
                },
                _ => false,
            }
            &&& match end.requests[at + 1] {
                RequestOf::SetTensorName { tensor, name } => tensor.id == at && name
                    == engine_name(graph.operands@, k as u32),
                _ => false,
            }
        }),
{
    broadcast use {group_grows, grows_stopped, went_on};

    reveal(Run::ask);
}

/// Whether bytes hold the lower four of every eight others.
pub open spec fn lower_halves(bytes: Seq<u8>, data: Seq<u8>) -> bool {
    &&& bytes.len() == 4 * (data.len() / 8)
    &&& forall|i: int, j: int|
        0 <= i < data.len() / 8 && 0 <= j < 4 ==> bytes[#[trigger] (4 * i + j)] == data[8 * i + j]
}

/// An operand that is a constant becomes a constant of the network, with its sizes or their bounds. Its
/// bytes are asked for and handed on: bytes and 4-bit integers as signed bytes, 64-bit signed integers
/// as their lower halves, anything else in its type.
pub proof fn constant_is_added(n: Run, m: Map<u32, Tensor>, graph: GraphInfo, k: usize)
    requires
        stage_done(n, m, graph, Stage::Constant(k)).0.goes_on(),
        k < graph.operands@.len() <= u32::MAX,
        graph.operands@[k as int].kind == OperandKind::Constant,
    ensures
        ({
            let (end, tensors) = stage_done(n, m, graph, Stage::Constant(k));
            let at = n.requests.len() as int;
            let t = graph.operands@[k as int].descriptor.data_type;
            &&& tensors == m.insert(k as u32, Tensor { id: (at + 2) as usize })
            &&& end.requests.len() == at + 3
            &&& end.requests[at] matches RequestOf::ConstantData { operand } && operand == k
            &&& match end.requests[at + 1] {
                RequestOf::AddConstant { dims, weights, dtype, .. } => {
                    &&& dims.len() == shape(graph, k as u32).len()
                    &&& forall|i: int|
                        0 <= i < dims.len() ==> #[trigger] dims[i] == size(
                            shape(graph, k as u32)[i],
                        ) as i32
                    &&& dtype == match t {
                        DataType::Int8 | DataType::Uint8 | DataType::Int4 | DataType::Uint4 =>
                            TrtDataType::kINT8,
                        DataType::Int64 => TrtDataType::kINT32,
                        _ => held_as(t),
                    }
                    &&& if t == DataType::Int64 {
                        weights matches WeightsOf::Bytes(bytes) && lower_halves(
                            bytes,
                            end.bytes(at as usize),
                        )
                    } else {
                        weights matches WeightsOf::Reply(from) && from == at
                    }
                },
                _ => false,
            }
            &&& end.requests[at + 2] matches RequestOf::Output { layer, .. } && layer.id == at + 1
        }),
{
    broadcast use {group_grows, grows_stopped, went_on};

    reveal(Run::ask);
    reveal(Run::output);
    let at = n.requests.len() as int;
    let data = stage_done(n, m, graph, Stage::Constant(k)).0.bytes(at as usize);
    let low = crate::trtx::network::low_halves(data);
    assert forall|i: int, j: int| 0 <= i < data.len() / 8 && 0 <= j < 4 implies low[#[trigger] (4
        * i + j)] == data[8 * i + j] by {
        assert((4 * i + j) / 4 == i && (4 * i + j) % 4 == j);
    }
}

/// An operand that is an output is named and marked as an output of the network.
pub proof fn output_is_marked(n: Run, m: Map<u32, Tensor>, graph: GraphInfo, k: usize)
    requires
        stage_done(n, m, graph, Stage::Output(k)).0.goes_on(),
        k < graph.operands@.len() <= u32::MAX,
        graph.operands@[k as int].kind == OperandKind::Output,
    ensures
        ({
            let (end, tensors) = stage_done(n, m, graph, Stage::Output(k));
            let at = n.requests.len() as int;
            &&& m.contains_key(k as u32) && tensors == m
            &&& end.requests.len() == at + 2
            &&& match end.requests[at] {
                RequestOf::SetTensorName { tensor, name } => tensor == m[k as u32] && name
                    == engine_name(graph.operands@, k as u32),
                _ => false,
            }
            &&& end.requests[at + 1] matches RequestOf::MarkOutput { tensor } && tensor
                == m[k as u32]
        }),
{
    broadcast use {group_grows, grows_stopped, went_on};

    reveal(Run::tell);
}

/// Operands that are not inputs, constants or outputs leave the network as it is when those are added.
pub proof fn other_operands_are_left(n: Run, m: Map<u32, Tensor>, graph: GraphInfo, k: usize)
    requires
        k < graph.operands@.len() <= u32::MAX,
        n.halt is None,
    ensures
        graph.operands@[k as int].kind != OperandKind::Input ==> stage_done(
            n,
            m,
            graph,
            Stage::Input(k),
        ) == (n, m),
        graph.operands@[k as int].kind != OperandKind::Constant ==> stage_done(
            n,
            m,
            graph,
            Stage::Constant(k),
        ) == (n, m),
        graph.operands@[k as int].kind != OperandKind::Output ==> stage_done(
            n,
            m,
            graph,
            Stage::Output(k),
        ) == (n, m),
{
}

} // verus!
