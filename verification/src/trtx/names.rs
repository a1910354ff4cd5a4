//! The names of the inputs, outputs and constants of a TensorRT engine.

use crate::graph::{GraphInfo, Operand, OperandKind};
use crate::text::{
    decimal, decimal_is_injective, decimal_text, same_text, say,
};
use crate::trtx::TrtxConverter;
use std::collections::HashMap;
use vstd::prelude::*;

verus! {

/// The name of a tensor whose operand has no name.
pub open spec fn fallback_name(id: nat) -> Seq<char> {
    "webnn_operand_"@ + decimal(id)
}

/// The name that an operand would have in the engine: its own one, unless it is empty.
pub open spec fn preferred_name(o: Operand) -> Option<Seq<char>> {
    match o.name {
        Some(s) => if s@.len() == 0 {
            None
        } else {
            Some(s@)
        },
        None => None,
    }
}

/// Whether an operand is an input or an output of the graph.
pub open spec fn crosses_boundary(o: Operand) -> bool {
    o.kind == OperandKind::Input || o.kind == OperandKind::Output
}

/// How many of the first `n` operands are inputs or outputs that would have the given name.
pub open spec fn bearers(operands: Seq<Operand>, name: Seq<char>, n: nat) -> nat
    decreases n,
{
    if n == 0 {
        0
    } else {
        let o = operands[n - 1];
        bearers(operands, name, (n - 1) as nat) + (if crosses_boundary(o) && preferred_name(o)
            == Some(name) {
            1nat
        } else {
            0
        })
    }
}

/// The name that the engine gives an input or output: the preferred one, with the number of the
/// operand after it where others prefer it too.
pub open spec fn boundary_name(operands: Seq<Operand>, id: u32) -> Seq<char> {
    match preferred_name(operands[id as int]) {
        Some(name) => if bearers(operands, name, operands.len()) > 1 {
            name + "_"@ + decimal(id as nat)
        } else {
            name
        },
        None => fallback_name(id as nat),
    }
}

/// The name that the engine gives an operand.
pub open spec fn engine_name(operands: Seq<Operand>, id: u32) -> Seq<char> {
    if id < operands.len() && crosses_boundary(operands[id as int]) {
        boundary_name(operands, id)
    } else {
        fallback_name(id as nat)
    }
}

/// More operands have at least as many bearers of a name.
proof fn bearers_grow(operands: Seq<Operand>, name: Seq<char>, n: nat, more: nat)
    requires
        n <= more,
    ensures
        bearers(operands, name, n) <= bearers(operands, name, more),
    decreases more - n,
{
    if n < more {
        bearers_grow(operands, name, n, (more - 1) as nat);
    }
}

/// Two inputs or outputs that prefer the same name have different names in the engine.
pub proof fn shared_names_are_told_apart(operands: Seq<Operand>, i: u32, j: u32)
    requires
        i < j < operands.len(),
        crosses_boundary(operands[i as int]),
        crosses_boundary(operands[j as int]),
        preferred_name(operands[i as int]) == preferred_name(operands[j as int]),
    ensures
        boundary_name(operands, i) != boundary_name(operands, j),
{
    decimal_is_injective(i as nat, j as nat);
    match preferred_name(operands[i as int]) {
        Some(name) => {
            bearers_grow(operands, name, i as nat + 1, j as nat);
            bearers_grow(operands, name, j as nat + 1, operands.len());
            assert(bearers(operands, name, operands.len()) > 1);
            let stem = name + "_"@;
            let a = boundary_name(operands, i);
            let b = boundary_name(operands, j);
            assert(a.subrange(stem.len() as int, a.len() as int) =~= decimal(i as nat));
            assert(b.subrange(stem.len() as int, b.len() as int) =~= decimal(j as nat));
        },
        None => {
            let stem = "webnn_operand_"@;
            let a = fallback_name(i as nat);
            let b = fallback_name(j as nat);
            assert(a.subrange(stem.len() as int, a.len() as int) =~= decimal(i as nat));
            assert(b.subrange(stem.len() as int, b.len() as int) =~= decimal(j as nat));
        },
    }
}

/// An input or output that alone prefers its name keeps it.
pub proof fn lone_names_are_kept(operands: Seq<Operand>, i: u32, name: Seq<char>)
    requires
        i < operands.len(),
        preferred_name(operands[i as int]) == Some(name),
        forall|j: int|
            0 <= j < operands.len() && j != i ==> !(crosses_boundary(#[trigger] operands[j])
                && preferred_name(operands[j]) == Some(name)),
    ensures
        boundary_name(operands, i) == name,
{
    lone_bearer(operands, i, name, operands.len());
}

proof fn lone_bearer(operands: Seq<Operand>, i: u32, name: Seq<char>, n: nat)
    requires
        n <= operands.len(),
        forall|j: int|
            0 <= j < operands.len() && j != i ==> !(crosses_boundary(#[trigger] operands[j])
                && preferred_name(operands[j]) == Some(name)),
    ensures
        bearers(operands, name, n) <= (if n > i {
            1nat
        } else {
            0
        }),
    decreases n,
{
    if n > 0 {
        lone_bearer(operands, i, name, (n - 1) as nat);
    }
}

fn preferred_name_of<'a>(o: &'a Operand) -> (r: Option<&'a str>)
    ensures
        match r {
            Some(s) => preferred_name(*o) == Some(s@),
            None => preferred_name(*o) is None,
        },
{
    match &o.name {
        Some(s) => {
            let t = s.as_str();
            if t.unicode_len() == 0 {
                None
            } else {
                Some(t)
            }
        },
        None => None,
    }
}

fn is_at_boundary(o: &Operand) -> (b: bool)
    ensures
        b == crosses_boundary(*o),
{
    matches!(o.kind, OperandKind::Input | OperandKind::Output)
}

fn is_shared(operands: &Vec<Operand>, name: &str) -> (b: bool)
    ensures
        b == (bearers(operands@, name@, operands@.len()) > 1),
{
    let mut found: bool = false;
    let mut i: usize = 0;
    while i < operands.len()
        invariant
            i <= operands.len(),
            bearers(operands@, name@, i as nat) == (if found {
                1nat
            } else {
                0
            }),
        decreases operands.len() - i,
    {
        let o = &operands[i];
        if is_at_boundary(o) {
            if let Some(s) = preferred_name_of(o) {
                if same_text(s, name) {
                    if found {
                        proof {
                            bearers_grow(operands@, name@, (i + 1) as nat, operands@.len());
                        }
                        return true;
                    }
                    found = true;
                }
            }
        }
        i = i + 1;
    }
    false
}

impl TrtxConverter {
    /// The name of a tensor whose operand has no name.
    pub fn engine_binding_name(operand_id: u32) -> (s: String)
        ensures
            s@ == fallback_name(operand_id as nat),
    {
        say("webnn_operand_").num32(operand_id).text
    }

    /// The name of the weights of a constant operand.
    pub fn constant_weight_name(operand_id: u32) -> (s: String)
        ensures
            s@ == decimal(operand_id as nat),
    {
        decimal_text(operand_id as u64)
    }

    fn boundary_name(graph: &GraphInfo, id: u32) -> (s: String)
        requires
            id < graph.operands@.len(),
        ensures
            s@ == boundary_name(graph.operands@, id),
    {
        match preferred_name_of(&graph.operands[id as usize]) {
            Some(name) => if is_shared(&graph.operands, name) {
                say(name).str("_").num32(id).text
            } else {
                name.to_owned()
            },
            None => Self::engine_binding_name(id),
        }
    }

    /// The names of the inputs and outputs of the graph in the engine, by operand. A name that
    /// several of them prefer gets the number of the operand after it; one without a name is named
    /// by its number alone.
    pub fn engine_io_binding_names(graph: &GraphInfo) -> (m: HashMap<u32, String>)
        ensures
            forall|id: u32| #[trigger]
                m@.contains_key(id) <==> id < graph.operands@.len() && crosses_boundary(
                    graph.operands@[id as int],
                ),
            forall|id: u32| #[trigger]
                m@.contains_key(id) ==> m@[id]@ == boundary_name(graph.operands@, id),
    {
        broadcast use vstd::std_specs::hash::group_hash_axioms;

        let mut m: HashMap<u32, String> = HashMap::new();
        let mut i: usize = 0;
        while i < graph.operands.len() && i <= u32::MAX as usize
            invariant
                i <= graph.operands.len(),
                i <= u32::MAX + 1,
                forall|id: u32| #[trigger]
                    m@.contains_key(id) <==> id < i && crosses_boundary(graph.operands@[id as int]),
                forall|id: u32| #[trigger]
                    m@.contains_key(id) ==> m@[id]@ == boundary_name(graph.operands@, id),
            decreases graph.operands.len() - i,
        {
            if is_at_boundary(&graph.operands[i]) {
                m.insert(i as u32, Self::boundary_name(graph, i as u32));
            }
            if i == u32::MAX as usize {
                return m;
            }
            i = i + 1;
        }
        m
    }

    /// The name that the engine gives an operand.
    pub fn engine_io_tensor_name(graph: &GraphInfo, operand_id: u32) -> (s: String)
        ensures
            s@ == engine_name(graph.operands@, operand_id),
    {
        if (operand_id as usize) < graph.operands.len() && is_at_boundary(
            &graph.operands[operand_id as usize],
        ) {
            Self::boundary_name(graph, operand_id)
        } else {
            Self::engine_binding_name(operand_id)
        }
    }
}

} // verus!
