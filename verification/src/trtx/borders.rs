//! The inputs and the outputs of a network that a whole graph was converted to are those of the
//! graph, under the names of its operands.

use crate::graph::{max_sizes, GraphInfo, OperandKind};
use crate::trtx::broadcast::as_dims;
use crate::trtx::inner::{is_inner, works_constant_added, works_operation_added};
use crate::trtx::names::engine_name;
use crate::trtx::network::{
    begun, built_from, built_stays, input_added, network_built, next_stage, output_marked,
    stage_done, steps_left, Stage,
};
use crate::trtx::session::{ReplyView, RequestOf, RequestView, Run};
use crate::trtx::types::{trt_type, Tensor};
use vstd::prelude::*;

verus! {

/// The requests of a conversation that add an input, in their order.
pub open spec fn inputs_in(log: Seq<RequestView>) -> Seq<RequestView>
    decreases log.len(),
{
    if log.len() == 0 {
        seq![]
    } else if log.last() is AddInput {
        inputs_in(log.drop_last()).push(log.last())
    } else {
        inputs_in(log.drop_last())
    }
}

/// The tensors that a conversation marks as outputs, in their order, each with the name that it was
/// given by the request before.
pub open spec fn outputs_in(log: Seq<RequestView>) -> Seq<(Tensor, Option<Seq<char>>)>
    decreases log.len(),
{
    if log.len() == 0 {
        seq![]
    } else {
        let before = outputs_in(log.drop_last());
        match log.last() {
            RequestOf::MarkOutput { tensor } => before.push((tensor, name_at(log, tensor))),
            _ => before,
        }
    }
}

/// The name that the last request but one gives a tensor, if it does.
pub open spec fn name_at(log: Seq<RequestView>, tensor: Tensor) -> Option<Seq<char>> {
    if log.len() < 2 {
        None
    } else {
        match log[log.len() - 2] {
            RequestOf::SetTensorName { tensor: t, name } => if t == tensor {
                Some(name)
            } else {
                None
            },
            _ => None,
        }
    }
}

/// The input that stands for the operand `k` of a graph.
pub open spec fn input_of(graph: GraphInfo, k: int) -> RequestView {
    let d = graph.operands@[k].descriptor;
    RequestOf::AddInput {
        name: engine_name(graph.operands@, k as u32),
        dtype: trt_type(d.data_type),
        dims: as_dims(max_sizes(d.shape@)),
    }
}

/// The inputs among the first `k` operands of a graph.
pub open spec fn graph_inputs(graph: GraphInfo, k: nat) -> Seq<RequestView>
    decreases k,
{
    if k == 0 {
        seq![]
    } else if graph.operands@[k - 1].kind == OperandKind::Input {
        graph_inputs(graph, (k - 1) as nat).push(input_of(graph, k - 1))
    } else {
        graph_inputs(graph, (k - 1) as nat)
    }
}

/// The outputs among the first `k` operands of a graph, each as its tensor and its name.
pub open spec fn graph_outputs(graph: GraphInfo, tensors: Map<u32, Tensor>, k: nat) -> Seq<
    (Tensor, Option<Seq<char>>),
>
    decreases k,
{
    if k == 0 {
        seq![]
    } else {
        let before = graph_outputs(graph, tensors, (k - 1) as nat);
        let id = (k - 1) as u32;
        if graph.operands@[k - 1].kind == OperandKind::Output {
            before.push((tensors[id], Some(engine_name(graph.operands@, id))))
        } else {
            before
        }
    }
}

/// What holds of the inputs and the outputs before a stage.
spec fn before_stage(n: Run, m: Map<u32, Tensor>, graph: GraphInfo, stage: Stage) -> bool {
    let count = graph.operands@.len();
    match stage {
        Stage::Input(k) => {
            &&& k <= count
            &&& inputs_in(n.requests) == graph_inputs(graph, k as nat)
            &&& outputs_in(n.requests) == graph_outputs(graph, m, 0)
        },
        Stage::Output(k) => {
            &&& k <= count
            &&& inputs_in(n.requests) == graph_inputs(graph, count)
            &&& outputs_in(n.requests) == graph_outputs(graph, m, k as nat)
        },
        Stage::Complete => {
            &&& inputs_in(n.requests) == graph_inputs(graph, count)
            &&& outputs_in(n.requests) == graph_outputs(graph, m, count)
        },
        _ => {
            &&& inputs_in(n.requests) == graph_inputs(graph, count)
            &&& outputs_in(n.requests) == graph_outputs(graph, m, 0)
        },
    }
}

proof fn logged(log: Seq<RequestView>, request: RequestView)
    ensures
        inputs_in(log.push(request)) == if request is AddInput {
            inputs_in(log).push(request)
        } else {
            inputs_in(log)
        },
        outputs_in(log.push(request)) == match request {
            RequestOf::MarkOutput { tensor } => outputs_in(log).push(
                (tensor, name_at(log.push(request), tensor)),
            ),
            _ => outputs_in(log),
        },
{
    assert(log.push(request).drop_last() =~= log);
}

/// Requests that neither add an input nor mark an output change neither list.
proof fn inner_requests_count_for_nothing(log: Seq<RequestView>, longer: Seq<RequestView>)
    requires
        log.len() <= longer.len(),
        longer.take(log.len() as int) == log,
        forall|i: int| log.len() <= i < longer.len() ==> is_inner(#[trigger] longer[i]),
    ensures
        inputs_in(longer) == inputs_in(log),
        outputs_in(longer) == outputs_in(log),
    decreases longer.len(),
{
    if longer.len() > log.len() {
        let shorter = longer.drop_last();
        assert(shorter.take(log.len() as int) =~= log);
        assert forall|i: int| log.len() <= i < shorter.len() implies is_inner(
            #[trigger] shorter[i],
        ) by {
            assert(is_inner(longer[i]));
        }
        inner_requests_count_for_nothing(log, shorter);
        assert(is_inner(longer[longer.len() - 1]));
    } else {
        assert(longer.take(log.len() as int) =~= longer);
    }
}

proof fn input_is_listed(n: Run, m: Map<u32, Tensor>, graph: GraphInfo, k: nat)
    requires
        n.halt is None,
        input_added(n, m, graph, k).0.halt is None,
    ensures
        ({
            let after = input_added(n, m, graph, k).0;
            &&& outputs_in(after.requests) == outputs_in(n.requests)
            &&& inputs_in(after.requests) == if graph.operands@[k as int].kind
                == OperandKind::Input {
                inputs_in(n.requests).push(input_of(graph, k as int))
            } else {
                inputs_in(n.requests)
            }
        }),
{
    reveal(Run::ask);
    if graph.operands@[k as int].kind == OperandKind::Input {
        let after = input_added(n, m, graph, k).0;
        let first = n.requests.push(input_of(graph, k as int));
        logged(n.requests, input_of(graph, k as int));
        logged(first, after.requests.last());
        assert(after.requests =~= first.push(after.requests.last()));
    }
}

proof fn output_is_listed(n: Run, m: Map<u32, Tensor>, graph: GraphInfo, k: nat)
    requires
        n.halt is None,
        output_marked(n, m, graph, k).0.halt is None,
    ensures
        ({
            let id = k as u32;
            let after = output_marked(n, m, graph, k).0;
            &&& inputs_in(after.requests) == inputs_in(n.requests)
            &&& outputs_in(after.requests) == if graph.operands@[k as int].kind
                == OperandKind::Output {
                outputs_in(n.requests).push((m[id], Some(engine_name(graph.operands@, id))))
            } else {
                outputs_in(n.requests)
            }
        }),
{
    reveal(Run::tell);
    if graph.operands@[k as int].kind == OperandKind::Output {
        let id = k as u32;
        let after = output_marked(n, m, graph, k).0;
        let named = RequestView::SetTensorName {
            tensor: m[id],
            name: engine_name(graph.operands@, id),
        };
        let first = n.requests.push(named);
        let marked = RequestView::MarkOutput { tensor: m[id] };
        logged(n.requests, named);
        logged(first, marked);
        assert(after.requests =~= first.push(marked));
        assert(after.requests[after.requests.len() - 2] == named);
    }
}

proof fn built_with_borders(n: Run, m: Map<u32, Tensor>, graph: GraphInfo, stage: Stage)
    requires
        before_stage(n, m, graph, stage),
    ensures
        ({
            let (end, tensors) = built_from(n, m, graph, stage);
            let count = graph.operands@.len();
            end.halt is None ==> {
                &&& inputs_in(end.requests) == graph_inputs(graph, count)
                &&& outputs_in(end.requests) == graph_outputs(graph, tensors, count)
            }
        }),
    decreases steps_left(graph, stage),
{
    if n.halt is Some {
        built_stays(n, m, graph, stage);
    } else if stage != Stage::Complete {
        let (after, tensors) = stage_done(n, m, graph, stage);
        let next = next_stage(graph, stage);
        if after.halt is Some {
            built_stays(after, tensors, graph, next);
        } else {
            match stage {
                Stage::Input(k) => {
                    if k < graph.operands.len() {
                        input_is_listed(n, m, graph, k as nat);
                    }
                },
                Stage::Constant(k) => {
                    if k < graph.operands.len() {
                        works_constant_added(n, m, graph, k as nat);
                        reveal(Run::works);
                        inner_requests_count_for_nothing(n.requests, after.requests);
                    }
                },
                Stage::Operation(k) => {
                    if k < graph.operations.len() {
                        works_operation_added(
                            n,
                            m,
                            graph,
                            graph.operations@[k as int],
                            Set::empty(),
                        );
                        reveal(Run::works);
                        inner_requests_count_for_nothing(n.requests, after.requests);
                    }
                },
                Stage::Output(k) => {
                    if k < graph.operands.len() {
                        output_is_listed(n, m, graph, k as nat);
                    }
                },
                Stage::Complete => {},
            }
            built_with_borders(after, tensors, graph, next);
        }
    }
}

/// A conversion that comes to its end has added the inputs of the graph and no others, in the order
/// of the operands, each with its name, type and dimensions. It has marked the outputs of the graph
/// and no others, in the order of the operands, each the tensor of its operand under its name.
pub proof fn borders_are_the_graphs(replies: Seq<ReplyView>, graph: GraphInfo)
    requires
        network_built(begun(replies), graph).0.halt is None,
    ensures
        ({
            let (end, tensors) = network_built(begun(replies), graph);
            let count = graph.operands@.len();
            &&& inputs_in(end.requests) == graph_inputs(graph, count)
            &&& outputs_in(end.requests) == graph_outputs(graph, tensors, count)
        }),
{
    built_with_borders(begun(replies), Map::empty(), graph, Stage::Input(0));
}

} // verus!
