//! What a conversion owes to the constants of a graph: it takes the bytes of each, and it marks no
//! output before it has them all.

use crate::graph::{byte_length_of, GraphInfo, OperandKind};
use crate::trtx::growth::stage_grows;
use crate::trtx::network::{
    begun, built_from, built_stays, constant_added, input_added, network_built, next_stage,
    stage_done, steps_left, Stage,
};
use crate::trtx::session::{HaltOf, ReplyOf, ReplyView, RequestView, Run};
use crate::trtx::types::Tensor;
use vstd::prelude::*;

verus! {

/// Whether bytes are as many as the operand `k` takes, and at least one.
pub open spec fn fits(graph: GraphInfo, k: int, data: Seq<u8>) -> bool {
    byte_length_of(graph.operands@[k].descriptor) == Some(data.len()) && data.len() > 0
}

/// Whether the request at `i` asked for the bytes of the operand `k` and the reply gave them.
pub open spec fn taken_at(n: Run, graph: GraphInfo, k: int, i: int) -> bool {
    &&& 0 <= i < n.requests.len()
    &&& i < n.replies.len()
    &&& n.requests[i] == (RequestView::ConstantData { operand: k as u32 })
    &&& n.replies[i] matches ReplyOf::Bytes(data) && fits(graph, k, data)
}

/// Whether the bytes of the operand `k` were asked for and given.
pub open spec fn taken(n: Run, graph: GraphInfo, k: int) -> bool {
    exists|i: int| taken_at(n, graph, k, i)
}

/// Whether the bytes of all constants among the first `count` operands were asked for and given.
pub open spec fn all_taken(n: Run, graph: GraphInfo, count: int) -> bool {
    forall|k: int|
        0 <= k < count && k < graph.operands@.len() && graph.operands@[k].kind
            == OperandKind::Constant ==> #[trigger] taken(n, graph, k)
}

/// Whether no output was marked.
pub open spec fn unmarked(n: Run) -> bool {
    forall|i: int| 0 <= i < n.requests.len() ==> !(#[trigger] n.requests[i] is MarkOutput)
}

/// What holds of the constants and the outputs before a stage.
spec fn before_stage(n: Run, graph: GraphInfo, stage: Stage) -> bool {
    match stage {
        Stage::Input(_) => unmarked(n),
        Stage::Constant(k) => unmarked(n) && all_taken(n, graph, k as int),
        _ => all_taken(n, graph, graph.operands@.len() as int),
    }
}

proof fn taken_stays(n: Run, later: Run, graph: GraphInfo, count: int)
    requires
        later.grows(n),
        all_taken(n, graph, count),
    ensures
        all_taken(later, graph, count),
{
    reveal(Run::grows);
    assert forall|k: int|
        0 <= k < count && k < graph.operands@.len() && graph.operands@[k].kind
            == OperandKind::Constant implies #[trigger] taken(later, graph, k) by {
        assert(taken(n, graph, k));
        let i = choose|i: int| taken_at(n, graph, k, i);
        assert(later.requests[i] == later.requests.take(n.requests.len() as int)[i]);
        assert(taken_at(later, graph, k, i));
    }
}

proof fn input_unmarked(n: Run, m: Map<u32, Tensor>, graph: GraphInfo, k: nat)
    requires
        unmarked(n),
    ensures
        unmarked(input_added(n, m, graph, k).0),
{
    reveal(Run::ask);
}

proof fn constant_unmarked(n: Run, m: Map<u32, Tensor>, graph: GraphInfo, k: nat)
    requires
        unmarked(n),
    ensures
        unmarked(constant_added(n, m, graph, k).0),
{
    reveal(Run::ask);
    reveal(Run::output);
}

proof fn constant_taken(n: Run, m: Map<u32, Tensor>, graph: GraphInfo, k: nat)
    requires
        n.halt is None,
        n.replies.len() <= usize::MAX,
        graph.operands@[k as int].kind == OperandKind::Constant,
        constant_added(n, m, graph, k).0.halt is None,
    ensures
        taken(constant_added(n, m, graph, k).0, graph, k as int),
{
    reveal(Run::ask);
    reveal(Run::output);
    assert(taken_at(constant_added(n, m, graph, k).0, graph, k as int, n.requests.len() as int));
}

/// A constant whose bytes cannot be had fails the conversion: where the reply is a failure, where
/// it is not as many bytes as the constant takes, and where it takes none or has no fixed size. No
/// request follows the one for the bytes, so that no output is marked.
pub proof fn refused_constant_fails(n: Run, m: Map<u32, Tensor>, graph: GraphInfo, k: usize)
    requires
        n.halt is None,
        n.requests.len() < n.replies.len() <= usize::MAX,
        k < graph.operands@.len(),
        graph.operands@[k as int].kind == OperandKind::Constant,
        !(n.replies[n.requests.len() as int] matches ReplyOf::Bytes(data) && fits(
            graph,
            k as int,
            data,
        )),
    ensures
        ({
            let end = built_from(n, m, graph, Stage::Constant(k));
            &&& end.0.halt matches Some(HaltOf::Failed(_))
            &&& end.0.requests == n.requests.push(
                RequestView::ConstantData { operand: k as u32 },
            )
            &&& end.1 == m
        }),
{
    reveal(Run::ask);
    reveal(Run::output);
    let (after, tensors) = stage_done(n, m, graph, Stage::Constant(k));
    assert(after.halt is Some);
    built_stays(after, tensors, graph, next_stage(graph, Stage::Constant(k)));
}

proof fn built_with_constants(n: Run, m: Map<u32, Tensor>, graph: GraphInfo, stage: Stage)
    requires
        n.replies.len() <= usize::MAX,
        before_stage(n, graph, stage),
    ensures
        ({
            let end = built_from(n, m, graph, stage).0;
            let count = graph.operands@.len() as int;
            &&& unmarked(end) || all_taken(end, graph, count)
            &&& end.halt is None ==> all_taken(end, graph, count)
        }),
    decreases steps_left(graph, stage),
{
    if n.halt is Some {
        built_stays(n, m, graph, stage);
    } else if stage != Stage::Complete {
        let (after, tensors) = stage_done(n, m, graph, stage);
        let next = next_stage(graph, stage);
        stage_grows(n, m, graph, stage);
        reveal(Run::grows);
        match stage {
            Stage::Input(k) => {
                if k < graph.operands.len() {
                    input_unmarked(n, m, graph, k as nat);
                }
            },
            Stage::Constant(k) => {
                taken_stays(n, after, graph, k as int);
                if k < graph.operands.len() {
                    constant_unmarked(n, m, graph, k as nat);
                    if after.halt is None && graph.operands@[k as int].kind
                        == OperandKind::Constant {
                        constant_taken(n, m, graph, k as nat);
                    }
                }
            },
            _ => {
                taken_stays(n, after, graph, graph.operands@.len() as int);
            },
        }
        if after.halt is Some {
            built_stays(after, tensors, graph, next);
        } else {
            built_with_constants(after, tensors, graph, next);
        }
    }
}

/// A conversion that comes to its end has taken the bytes of every constant, as many as the
/// constant takes. One that has marked an output has them all, wherever it stopped.
pub proof fn outputs_wait_for_constants(replies: Seq<ReplyView>, graph: GraphInfo)
    requires
        replies.len() <= usize::MAX,
    ensures
        ({
            let end = network_built(begun(replies), graph).0;
            let count = graph.operands@.len() as int;
            &&& end.halt is None ==> all_taken(end, graph, count)
            &&& !unmarked(end) ==> all_taken(end, graph, count)
        }),
{
    built_with_constants(begun(replies), Map::empty(), graph, Stage::Input(0));
}

} // verus!
