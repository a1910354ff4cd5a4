//! Shapes, and the layers that make two tensors agree in shape.

use crate::graph::{get_static_or_max_size, max_sizes, GraphInfo};
use crate::text::{bracket_list, decimal, ints, join2, say, signed_decimal};
use crate::trtx::session::{
    copy_i64, find_operand, gives, group_stopped, outcome, Halt, Network, Run,
};
use crate::trtx::steps::group_layers_stopped;
use crate::trtx::types::{Tensor, TrtDataType};
use crate::trtx::TrtxConverter;
use vstd::prelude::*;

verus! {

broadcast use {group_stopped, group_layers_stopped};

/// `n` ones.
pub open spec fn ones(n: nat) -> Seq<i64> {
    Seq::new(n, |i: int| 1i64)
}

/// `n` zeros.
pub open spec fn zeros(n: nat) -> Seq<i64> {
    Seq::new(n, |i: int| 0i64)
}

/// The sizes as TensorRT takes them.
pub open spec fn as_dims(sizes: Seq<u32>) -> Seq<i64> {
    sizes.map_values(|d: u32| d as i64)
}

/// `dims` with ones before it, up to `rank` dimensions.
pub open spec fn left_padded(dims: Seq<i64>, rank: nat) -> Seq<i64> {
    if dims.len() < rank {
        ones((rank - dims.len()) as nat) + dims
    } else {
        dims
    }
}

/// `n` ones.
pub fn ones_vec(n: usize) -> (v: Vec<i64>)
    ensures
        v@ == ones(n as nat),
{
    let mut v: Vec<i64> = Vec::with_capacity(n);
    let mut i: usize = 0;
    while i < n
        invariant
            i <= n,
            v@.len() == i,
            forall|k: int| 0 <= k < i ==> #[trigger] v@[k] == 1,
        decreases n - i,
    {
        v.push(1);
        i = i + 1;
    }
    assert(v@ =~= ones(n as nat));
    v
}

/// `n` zeros.
pub fn zeros_vec(n: usize) -> (v: Vec<i64>)
    ensures
        v@ == zeros(n as nat),
{
    let mut v: Vec<i64> = Vec::with_capacity(n);
    let mut i: usize = 0;
    while i < n
        invariant
            i <= n,
            v@.len() == i,
            forall|k: int| 0 <= k < i ==> #[trigger] v@[k] == 0,
        decreases n - i,
    {
        v.push(0);
        i = i + 1;
    }
    assert(v@ =~= zeros(n as nat));
    v
}

/// `dims` with ones before it, up to `rank` dimensions.
pub fn left_padded_vec(dims: &Vec<i64>, rank: usize) -> (v: Vec<i64>)
    ensures
        v@ == left_padded(dims@, rank as nat),
{
    if dims.len() < rank {
        let mut v = ones_vec(rank - dims.len());
        let mut tail = copy_i64(dims);
        v.append(&mut tail);
        v
    } else {
        copy_i64(dims)
    }
}

/// The sizes as TensorRT takes them.
pub fn as_dims_vec(sizes: &Vec<u32>) -> (v: Vec<i64>)
    ensures
        v@ == as_dims(sizes@),
{
    let mut v: Vec<i64> = Vec::with_capacity(sizes.len());
    let mut i: usize = 0;
    while i < sizes.len()
        invariant
            i <= sizes.len(),
            v@.len() == i,
            forall|k: int| 0 <= k < i ==> #[trigger] v@[k] == sizes@[k],
        decreases sizes.len() - i,
    {
        v.push(sizes[i] as i64);
        i = i + 1;
    }
    assert(v@ =~= as_dims(sizes@));
    v
}

/// Whether two lists of dimensions are the same.
pub fn same_dims(a: &Vec<i64>, b: &Vec<i64>) -> (r: bool)
    ensures
        r == (a@ == b@),
{
    if a.len() != b.len() {
        return false;
    }
    let mut i: usize = 0;
    while i < a.len()
        invariant
            i <= a.len(),
            a@.len() == b@.len(),
            forall|k: int| 0 <= k < i ==> a@[k] == b@[k],
        decreases a.len() - i,
    {
        if a[i] != b[i] {
            return false;
        }
        i = i + 1;
    }
    assert(a@ =~= b@);
    true
}

/// The first axis from `from` on along which neither dimension can be stretched to the other.
pub open spec fn first_conflict(a: Seq<i64>, b: Seq<i64>, from: nat) -> Option<nat>
    decreases a.len() - from,
{
    if from >= a.len() {
        None
    } else if a[from as int] != b[from as int] && a[from as int] != 1 && b[from as int] != 1 {
        Some(from)
    } else {
        first_conflict(a, b, from + 1)
    }
}

/// Whether `a` has a dimension of 1 where `b` has another.
pub open spec fn must_stretch(a: Seq<i64>, b: Seq<i64>) -> bool {
    exists|i: int| 0 <= i < a.len() && #[trigger] a[i] == 1 && b[i] != 1
}

/// The shape that two shapes of one rank broadcast to: along each axis the dimension that is not 1,
/// if there is one.
pub open spec fn joint_dims(a: Seq<i64>, b: Seq<i64>) -> Seq<i64> {
    Seq::new(
        a.len(),
        |i: int|
            if a[i] != 1 {
                a[i]
            } else {
                b[i]
            },
    )
}

/// The message for shapes that do not broadcast: dimension `i` of `p` and `q`, which are the shapes
/// `d0` and `d1` with ones before the shorter one.
pub open spec fn conflict_text(
    op_name: Seq<char>,
    i: nat,
    p: Seq<i64>,
    q: Seq<i64>,
    d0: Seq<i64>,
    d1: Seq<i64>,
) -> Seq<char> {
    "Incompatible dimensions for broadcasting in "@ + op_name + ": dimension "@ + decimal(i)
        + " has "@ + signed_decimal(p[i as int] as int) + " vs "@ + signed_decimal(
        q[i as int] as int,
    ) + " (neither equal nor 1). Full shapes: "@ + bracket_list(ints(d0)) + " vs "@
        + bracket_list(ints(d1)) + "."@
}

/// Two tensors in shapes that TensorRT broadcasts. Where the ranks agree, a tensor with a dimension
/// of 1 where the other has more is resized to the shape that both broadcast to; where they differ,
/// the tensor of lower rank gets ones before its dimensions. A tensor that stays as it is is copied.
/// Shapes that do not broadcast are refused.
#[verifier::opaque]
pub open spec fn broadcast_pair(n: Run, t0: Tensor, t1: Tensor, op_name: Seq<char>) -> (
    Run,
    (Tensor, Tensor),
) {
    let (n, d0) = n.dims(t0, "Failed to get dimensions for tensor 0 in "@ + op_name + ": "@);
    let (n, d1) = n.dims(t1, "Failed to get dimensions for tensor 1 in "@ + op_name + ": "@);
    let p = left_padded(d0, d1.len());
    let q = left_padded(d1, d0.len());
    if n.halt is Some {
        (n, (t0, t1))
    } else if let Some(i) = first_conflict(p, q, 0) {
        (n.fail(conflict_text(op_name, i, p, q, d0, d1)), (t0, t1))
    } else if d0.len() == d1.len() {
        let (n, a) = if must_stretch(d0, d1) {
            n.resize(
                t0,
                joint_dims(d0, d1),
                "Failed to add resize layer for tensor0: "@,
                "Failed to get resize output: "@,
            )
        } else {
            n.identity(t0, "Failed to clone tensor0: "@, "Failed to get identity output: "@)
        };
        let (n, b) = if must_stretch(d1, d0) {
            n.resize(
                t1,
                joint_dims(d1, d0),
                "Failed to add resize layer for tensor1: "@,
                "Failed to get resize output: "@,
            )
        } else {
            n.identity(t1, "Failed to clone tensor1: "@, "Failed to get identity output: "@)
        };
        (n, (a, b))
    } else if d0.len() < d1.len() {
        let (n, a) = n.reshape(
            t0,
            p,
            "Failed to add shuffle layer for broadcasting: "@,
            "Failed to set reshape dimensions: "@,
            "Failed to get reshape output: "@,
        );
        let (n, b) = n.identity(
            t1,
            "Failed to clone kept tensor: "@,
            "Failed to get identity output: "@,
        );
        (n, (a, b))
    } else {
        let (n, b) = n.reshape(
            t1,
            q,
            "Failed to add shuffle layer for broadcasting: "@,
            "Failed to set reshape dimensions: "@,
            "Failed to get reshape output: "@,
        );
        let (n, a) = n.identity(
            t0,
            "Failed to clone kept tensor: "@,
            "Failed to get identity output: "@,
        );
        (n, (a, b))
    }
}

pub broadcast proof fn stopped_broadcast_pair(n: Run, t0: Tensor, t1: Tensor, op_name: Seq<char>)
    requires
        n.halt is Some,
    ensures
        (#[trigger] broadcast_pair(n, t0, t1, op_name)).0 == n,
{
    reveal(broadcast_pair);
}

fn conflict_of(a: &Vec<i64>, b: &Vec<i64>) -> (r: Option<usize>)
    requires
        a@.len() == b@.len(),
    ensures
        match r {
            Some(i) => first_conflict(a@, b@, 0) == Some(i as nat) && i < a@.len(),
            None => first_conflict(a@, b@, 0) is None,
        },
{
    let mut i: usize = 0;
    while i < a.len()
        invariant
            i <= a.len(),
            a@.len() == b@.len(),
            first_conflict(a@, b@, 0) == first_conflict(a@, b@, i as nat),
        decreases a.len() - i,
    {
        if a[i] != b[i] && a[i] != 1 && b[i] != 1 {
            return Some(i);
        }
        i = i + 1;
    }
    None
}

fn needs_stretch(a: &Vec<i64>, b: &Vec<i64>) -> (r: bool)
    requires
        a@.len() == b@.len(),
    ensures
        r == must_stretch(a@, b@),
{
    let mut i: usize = 0;
    while i < a.len()
        invariant
            i <= a.len(),
            a@.len() == b@.len(),
            forall|k: int| 0 <= k < i ==> !(#[trigger] a@[k] == 1 && b@[k] != 1),
        decreases a.len() - i,
    {
        if a[i] == 1 && b[i] != 1 {
            assert(a@[i as int] == 1);
            return true;
        }
        i = i + 1;
    }
    false
}

/// The shape that two shapes of one rank broadcast to.
fn joint_dims_vec(a: &Vec<i64>, b: &Vec<i64>) -> (v: Vec<i64>)
    requires
        a@.len() == b@.len(),
    ensures
        v@ == joint_dims(a@, b@),
{
    let mut v: Vec<i64> = Vec::with_capacity(a.len());
    let mut i: usize = 0;
    while i < a.len()
        invariant
            i <= a.len(),
            a@.len() == b@.len(),
            v@ == joint_dims(a@, b@).take(i as int),
        decreases a.len() - i,
    {
        v.push(
            if a[i] != 1 {
                a[i]
            } else {
                b[i]
            },
        );
        proof {
            assert(joint_dims(a@, b@).take(i + 1) =~= joint_dims(a@, b@).take(i as int).push(
                joint_dims(a@, b@)[i as int],
            ));
        }
        i = i + 1;
    }
    proof {
        assert(joint_dims(a@, b@).take(a@.len() as int) =~= joint_dims(a@, b@));
    }
    v
}

/// `input` as booleans.
pub open spec fn to_bool(n: Run, input: Tensor) -> (Run, Tensor) {
    n.cast(
        input,
        TrtDataType::kBOOL,
        "Failed to cast to BOOL: "@,
        "Failed to get cast output: "@,
    )
}

/// `input` as `f32` values.
pub open spec fn to_float32(n: Run, input: Tensor) -> (Run, Tensor) {
    n.cast(
        input,
        TrtDataType::kFLOAT,
        "Failed to cast to Float32: "@,
        "Failed to get cast output: "@,
    )
}

/// 32-bit integers as `f32` values.
pub open spec fn int32_to_float32(n: Run, input: Tensor) -> (Run, Tensor) {
    n.cast(
        input,
        TrtDataType::kFLOAT,
        "Failed to cast INT32 to Float32: "@,
        "Failed to get cast output: "@,
    )
}

/// `input` as `f16` values.
pub open spec fn to_float16(n: Run, input: Tensor) -> (Run, Tensor) {
    n.cast(
        input,
        TrtDataType::kHALF,
        "Failed to cast to Float16: "@,
        "Failed to get cast output: "@,
    )
}

/// Ones, as many as `input` has dimensions; where TensorRT knows none, as many as the descriptor
/// has.
pub open spec fn scalar_shape(n: Run, input: Tensor, descriptor_rank: nat, label: Seq<char>) -> (
    Run,
    Seq<i64>,
) {
    let (n, d) = n.dims(input, label + ": input dimensions: "@);
    (
        n,
        ones(
            if d.len() > 0 {
                d.len()
            } else {
                descriptor_rank
            },
        ),
    )
}

/// Whether one of the sizes is 0.
pub open spec fn has_zero(sizes: Seq<u32>) -> bool {
    exists|i: int| 0 <= i < sizes.len() && #[trigger] sizes[i] == 0
}

/// The sizes of an operand, which must not be 0.
pub open spec fn static_sizes(n: Run, graph: GraphInfo, id: u32) -> (Run, Seq<u32>) {
    let (n, o) = n.operand(graph, id, "operand "@, " not in graph"@);
    let sizes = max_sizes(o.descriptor.shape@);
    (
        n.reject_if(
            has_zero(sizes),
            "operand "@ + decimal(id as nat)
                + " needs static dimensions for TRTX broadcast (got 0)"@,
        ),
        sizes,
    )
}

/// The first dimension from `from` on that cannot be stretched to the target.
pub open spec fn first_unstretchable(dims: Seq<i64>, target: Seq<i64>, from: nat) -> Option<nat>
    decreases dims.len() - from,
{
    if from >= dims.len() {
        None
    } else if dims[from as int] != target[from as int] && dims[from as int] != 1 {
        Some(from)
    } else {
        first_unstretchable(dims, target, from + 1)
    }
}

/// `t`, which has the dimensions `from`, stretched to the dimensions `target`: ones are put before
/// the dimensions where there are too few, and dimensions of 1 are resized.
#[verifier::opaque]
pub open spec fn broadcast_to(
    n: Run,
    t: Tensor,
    from: Seq<i64>,
    target: Seq<i64>,
    label: Seq<char>,
) -> (Run, Tensor) {
    if from == target {
        n.identity(t, label + " broadcast identity: "@, label + " broadcast identity output: "@)
    } else {
        let dims = left_padded(from, target.len());
        let (n, t) = if from.len() < target.len() {
            n.reshape(
                t,
                dims,
                label + " broadcast shuffle: "@,
                label + " broadcast reshape: "@,
                label + " broadcast shuffle output: "@,
            )
        } else {
            (n, t)
        };
        if n.halt is Some {
            (n, t)
        } else if dims.len() != target.len() {
            (
                n.fail(
                    label + " broadcast: rank mismatch "@ + bracket_list(ints(dims)) + " vs "@
                        + bracket_list(ints(target)),
                ),
                t,
            )
        } else {
            match first_unstretchable(dims, target, 0) {
                Some(i) => (
                    n.fail(
                        label + " broadcast: cannot expand dim "@ + signed_decimal(
                            dims[i as int] as int,
                        ) + " to "@ + signed_decimal(target[i as int] as int),
                    ),
                    t,
                ),
                None => if dims == target {
                    (n, t)
                } else {
                    n.resize(
                        t,
                        target,
                        label + " broadcast resize: "@,
                        label + " broadcast resize output: "@,
                    )
                },
            }
        }
    }
}

pub broadcast proof fn stopped_broadcast_to(
    n: Run,
    t: Tensor,
    from: Seq<i64>,
    target: Seq<i64>,
    label: Seq<char>,
)
    requires
        n.halt is Some,
    ensures
        (#[trigger] broadcast_to(n, t, from, target, label)).0 == n,
{
    reveal(broadcast_to);
}

pub broadcast group group_broadcast_stopped {
    stopped_broadcast_pair,
    stopped_broadcast_to,
}

fn unstretchable_of(dims: &Vec<i64>, target: &Vec<i64>) -> (r: Option<usize>)
    requires
        dims@.len() == target@.len(),
    ensures
        match r {
            Some(i) => first_unstretchable(dims@, target@, 0) == Some(i as nat) && i < dims@.len(),
            None => first_unstretchable(dims@, target@, 0) is None,
        },
{
    let mut i: usize = 0;
    while i < dims.len()
        invariant
            i <= dims.len(),
            dims@.len() == target@.len(),
            first_unstretchable(dims@, target@, 0) == first_unstretchable(dims@, target@, i as nat),
        decreases dims.len() - i,
    {
        if dims[i] != target[i] && dims[i] != 1 {
            return Some(i);
        }
        i = i + 1;
    }
    None
}

impl TrtxConverter {
    /// Casts to booleans: 0 is false, everything else is true.
    pub fn cast_to_bool(net: &mut Network, input: Tensor) -> (r: Result<Tensor, Halt>)
        ensures
            gives(final(net)@, r, to_bool(old(net)@, input)),
    {
        net.cast(
            input,
            TrtDataType::kBOOL,
            "Failed to cast to BOOL: ",
            "Failed to get cast output: ",
        )
    }

    /// Casts to `f32`; false is 0 and true is 1.
    pub fn cast_to_float32(net: &mut Network, input: Tensor) -> (r: Result<Tensor, Halt>)
        ensures
            gives(final(net)@, r, to_float32(old(net)@, input)),
    {
        net.cast(
            input,
            TrtDataType::kFLOAT,
            "Failed to cast to Float32: ",
            "Failed to get cast output: ",
        )
    }

    /// Casts 32-bit integers to `f32` values.
    pub fn cast_int32_to_float32(net: &mut Network, input: Tensor) -> (r: Result<Tensor, Halt>)
        ensures
            gives(final(net)@, r, int32_to_float32(old(net)@, input)),
    {
        net.cast(
            input,
            TrtDataType::kFLOAT,
            "Failed to cast INT32 to Float32: ",
            "Failed to get cast output: ",
        )
    }

    /// Casts to `f16`.
    pub fn cast_to_float16(net: &mut Network, input: Tensor) -> (r: Result<Tensor, Halt>)
        ensures
            gives(final(net)@, r, to_float16(old(net)@, input)),
    {
        net.cast(
            input,
            TrtDataType::kHALF,
            "Failed to cast to Float16: ",
            "Failed to get cast output: ",
        )
    }

    /// The shape of a scalar that an elementwise layer combines with `input`.
    pub fn trtx_broadcast_ones_for_elementwise_scalar(
        net: &Network,
        input: Tensor,
        descriptor_rank: usize,
        op_label: &str,
    ) -> (r: Result<Vec<i64>, Halt>)
        ensures
            outcome(net@, r) == scalar_shape(net@, input, descriptor_rank as nat, op_label@).0,
            r matches Ok(d) ==> d@ == scalar_shape(
                net@,
                input,
                descriptor_rank as nat,
                op_label@,
            ).1,
    {
        let d = net.dims(input, join2(op_label, ": input dimensions: ").as_str())?;
        if d.len() > 0 {
            Ok(ones_vec(d.len()))
        } else {
            Ok(ones_vec(descriptor_rank))
        }
    }

    /// The sizes of an operand for broadcasting. They must all be known.
    pub fn operand_shape_u32_static(net: &Network, graph: &GraphInfo, id: u32) -> (r: Result<
        Vec<u32>,
        Halt,
    >)
        ensures
            outcome(net@, r) == static_sizes(net@, *graph, id).0,
            r matches Ok(d) ==> d@ == static_sizes(net@, *graph, id).1,
    {
        let operand = find_operand(graph, id, "operand ", " not in graph")?;
        let shape = &operand.descriptor.shape;
        let ghost sizes = max_sizes(shape@);
        let mut out: Vec<u32> = Vec::with_capacity(shape.len());
        let mut i: usize = 0;
        while i < shape.len()
            invariant
                i <= shape.len(),
                sizes == max_sizes(shape@),
                id < graph.operands@.len(),
                shape == graph.operands@[id as int].descriptor.shape,
                out@.len() == i,
                forall|k: int| 0 <= k < i ==> #[trigger] out@[k] == sizes[k] && out@[k] != 0,
            decreases shape.len() - i,
        {
            let s: u32 = get_static_or_max_size(&shape[i]);
            if s == 0 {
                assert(sizes[i as int] == 0);
                return Err(
                    say("operand ").num32(id).str(
                        " needs static dimensions for TRTX broadcast (got 0)",
                    ).halt(),
                );
            }
            out.push(s);
            i = i + 1;
        }
        proof {
            assert(out@ =~= sizes);
        }
        Ok(out)
    }

    /// Expands `tensor` from `from_dims` to `target_dims` (NumPy-style; dimensions must be
    /// conformable).
    pub fn broadcast_trtx_tensor_to_dims(
        net: &mut Network,
        tensor: Tensor,
        from_dims: &Vec<i64>,
        target_dims: &Vec<i64>,
        op_label: &str,
    ) -> (r: Result<Tensor, Halt>)
        ensures
            gives(
                final(net)@,
                r,
                broadcast_to(old(net)@, tensor, from_dims@, target_dims@, op_label@),
            ),
    {
        proof {
            reveal(broadcast_to);
        }
        if same_dims(from_dims, target_dims) {
            return net.identity(
                tensor,
                join2(op_label, " broadcast identity: ").as_str(),
                join2(op_label, " broadcast identity output: ").as_str(),
            );
        }
        let dims = left_padded_vec(from_dims, target_dims.len());
        let current = if from_dims.len() < target_dims.len() {
            net.reshape(
                tensor,
                copy_i64(&dims),
                join2(op_label, " broadcast shuffle: ").as_str(),
                join2(op_label, " broadcast reshape: ").as_str(),
                join2(op_label, " broadcast shuffle output: ").as_str(),
            )?
        } else {
            tensor
        };
        if dims.len() != target_dims.len() {
            return Err(
                say(op_label).str(" broadcast: rank mismatch ").list(&dims).str(" vs ").list(
                    target_dims,
                ).halt(),
            );
        }
        match unstretchable_of(&dims, target_dims) {
            Some(i) => {
                return Err(
                    say(op_label).str(" broadcast: cannot expand dim ").signed(dims[i]).str(
                        " to ",
                    ).signed(target_dims[i]).halt(),
                );
            },
            None => {},
        }
        if same_dims(&dims, target_dims) {
            return Ok(current);
        }
        net.resize(
            current,
            copy_i64(target_dims),
            join2(op_label, " broadcast resize: ").as_str(),
            join2(op_label, " broadcast resize output: ").as_str(),
        )
    }

    /// Makes two tensors compatible for an elementwise operation.
    pub fn ensure_broadcast_compatible(
        net: &mut Network,
        tensor0: Tensor,
        tensor1: Tensor,
        op_name: &str,
    ) -> (r: Result<(Tensor, Tensor), Halt>)
        ensures
            gives(final(net)@, r, broadcast_pair(old(net)@, tensor0, tensor1, op_name@)),
    {
        proof {
            reveal(broadcast_pair);
        }
        let dims0 = net.dims(
            tensor0,
            say("Failed to get dimensions for tensor 0 in ").str(op_name).str(": ").text.as_str(),
        )?;
        let dims1 = net.dims(
            tensor1,
            say("Failed to get dimensions for tensor 1 in ").str(op_name).str(": ").text.as_str(),
        )?;
        let padded0 = left_padded_vec(&dims0, dims1.len());
        let padded1 = left_padded_vec(&dims1, dims0.len());
        match conflict_of(&padded0, &padded1) {
            Some(i) => {
                return Err(
                    say("Incompatible dimensions for broadcasting in ").str(op_name).str(
                        ": dimension ",
                    ).num(i).str(" has ").signed(padded0[i]).str(" vs ").signed(padded1[i]).str(
                        " (neither equal nor 1). Full shapes: ",
                    ).list(&dims0).str(" vs ").list(&dims1).str(".").halt(),
                );
            },
            None => {},
        }
        if dims0.len() == dims1.len() {
            let a = if needs_stretch(&dims0, &dims1) {
                net.resize(
                    tensor0,
                    joint_dims_vec(&dims0, &dims1),
                    "Failed to add resize layer for tensor0: ",
                    "Failed to get resize output: ",
                )?
            } else {
                net.identity(
                    tensor0,
                    "Failed to clone tensor0: ",
                    "Failed to get identity output: ",
                )?
            };
            let b = if needs_stretch(&dims1, &dims0) {
                net.resize(
                    tensor1,
                    joint_dims_vec(&dims1, &dims0),
                    "Failed to add resize layer for tensor1: ",
                    "Failed to get resize output: ",
                )?
            } else {
                net.identity(
                    tensor1,
                    "Failed to clone tensor1: ",
                    "Failed to get identity output: ",
                )?
            };
            Ok((a, b))
        } else if dims0.len() < dims1.len() {
            let a = net.reshape(
                tensor0,
                padded0,
                "Failed to add shuffle layer for broadcasting: ",
                "Failed to set reshape dimensions: ",
                "Failed to get reshape output: ",
            )?;
            let b = net.identity(
                tensor1,
                "Failed to clone kept tensor: ",
                "Failed to get identity output: ",
            )?;
            Ok((a, b))
        } else {
            let b = net.reshape(
                tensor1,
                padded1,
                "Failed to add shuffle layer for broadcasting: ",
                "Failed to set reshape dimensions: ",
                "Failed to get reshape output: ",
            )?;
            let a = net.identity(
                tensor0,
                "Failed to clone kept tensor: ",
                "Failed to get identity output: ",
            )?;
            Ok((a, b))
        }
    }
}

} // verus!
