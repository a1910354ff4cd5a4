//! Pooling in two dimensions.

use crate::data_type::DataType;
use crate::graph::{get_static_or_max_size, size_of_dim, GraphInfo};
use crate::operator_options::MLPool2dOptions;
use crate::operators::{Operation, OperationKind};
use crate::scalar::{
    known, le4, le4_bytes, product_bits, product_bits_of, reciprocal_bits, reciprocal_bits_of,
    repeat_bytes, repeated, Known,
};
use crate::text::{
    ascii_lowercase, bracket_list, decimal, ints, same_ignoring_case, same_text, say,
};
use crate::trtx::broadcast::{ones, ones_vec};
use crate::trtx::matrix::{type_or_float, type_or_float_of};
use crate::trtx::session::{
    does, find_operand, gives, group_stopped, outcome, store, Halt, HaltOf, Network, Request,
    RequestOf, Run, TensorMap,
};
use crate::trtx::steps::group_layers_stopped;
use crate::trtx::types::{
    ElementWiseOperation, Layer, PaddingMode, PoolingType, Tensor, TrtDataType, UnaryOperation,
};
use crate::trtx::TrtxConverter;
use vstd::prelude::*;

verus! {

broadcast use {group_stopped, group_layers_stopped};

/// The most elements that a pooling with dilations reads, over all cells of its output.
pub const MAX_DILATED_POOL_TAPS: usize = 4096;

/// What a pooling takes from its options.
#[derive(Clone, Copy)]
pub struct PoolPlan {
    /// The window, where the options give one.
    pub window: Option<(u32, u32)>,
    /// Whether the layout is exactly `nhwc`.
    pub nhwc: bool,
    /// Whether the layout is `nhwc`, whatever the case of its letters.
    pub nhwc_any_case: bool,
    pub strides: (u32, u32),
    pub dilations: (u32, u32),
    /// The padding above, below, to the left and to the right.
    pub padding: (u32, u32, u32, u32),
    /// Whether the options give the sizes of the output.
    pub sized: bool,
    /// Whether sizes are rounded up.
    pub ceil: bool,
}

/// The entry of a list at `i`, 1 where it is shorter.
pub open spec fn entry_or_one(v: Seq<u32>, i: int) -> u32 {
    if i < v.len() {
        v[i]
    } else {
        1
    }
}

fn entry_or_one_of(v: &Vec<u32>, i: usize) -> (e: u32)
    ensures
        e == entry_or_one(v@, i as int),
{
    if i < v.len() {
        v[i]
    } else {
        1
    }
}

/// The plan that the options of a pooling make.
pub open spec fn plan_of_options(o: MLPool2dOptions) -> PoolPlan {
    PoolPlan {
        window: match o.window_dimensions {
            Some(w) => if w@.len() >= 2 {
                Some((w@[0], w@[1]))
            } else {
                None
            },
            None => None,
        },
        nhwc: o.layout@ == "nhwc"@,
        nhwc_any_case: ascii_lowercase(o.layout@) == "nhwc"@,
        strides: (entry_or_one(o.strides@, 0), entry_or_one(o.strides@, 1)),
        dilations: (entry_or_one(o.dilations@, 0), entry_or_one(o.dilations@, 1)),
        padding: if o.padding@.len() >= 4 {
            (o.padding@[0], o.padding@[1], o.padding@[2], o.padding@[3])
        } else {
            (0, 0, 0, 0)
        },
        sized: match o.output_sizes {
            Some(v) => v@.len() >= 2,
            None => false,
        },
        ceil: ascii_lowercase(o.output_shape_rounding@) == "ceil"@,
    }
}

/// The plan of a pooling without options.
pub open spec fn default_plan() -> PoolPlan {
    PoolPlan {
        window: None,
        nhwc: false,
        nhwc_any_case: false,
        strides: (1, 1),
        dilations: (1, 1),
        padding: (0, 0, 0, 0),
        sized: false,
        ceil: false,
    }
}

/// The plan of a pooling.
#[verifier::opaque]
pub open spec fn pool_plan(kind: OperationKind) -> PoolPlan {
    match kind {
        OperationKind::AveragePool2d { options: Some(o) } => plan_of_options(o),
        OperationKind::MaxPool2d { options: Some(o) } => plan_of_options(o),
        OperationKind::L2Pool2d { options: Some(o) } => plan_of_options(o),
        OperationKind::GlobalAveragePool { options: Some(o) } => plan_of_options(o),
        OperationKind::GlobalMaxPool { options: Some(o) } => plan_of_options(o),
        _ => default_plan(),
    }
}

fn plan_from_options(o: &MLPool2dOptions) -> (p: PoolPlan)
    ensures
        p == plan_of_options(*o),
{
    PoolPlan {
        window: match &o.window_dimensions {
            Some(w) => if w.len() >= 2 {
                Some((w[0], w[1]))
            } else {
                None
            },
            None => None,
        },
        nhwc: same_text(o.layout.as_str(), "nhwc"),
        nhwc_any_case: same_ignoring_case(o.layout.as_str(), "nhwc"),
        strides: (entry_or_one_of(&o.strides, 0), entry_or_one_of(&o.strides, 1)),
        dilations: (entry_or_one_of(&o.dilations, 0), entry_or_one_of(&o.dilations, 1)),
        padding: if o.padding.len() >= 4 {
            (o.padding[0], o.padding[1], o.padding[2], o.padding[3])
        } else {
            (0, 0, 0, 0)
        },
        sized: match &o.output_sizes {
            Some(v) => v.len() >= 2,
            None => false,
        },
        ceil: same_ignoring_case(o.output_shape_rounding.as_str(), "ceil"),
    }
}

fn pool_plan_of(kind: &OperationKind) -> (p: PoolPlan)
    ensures
        p == pool_plan(*kind),
{
    proof {
        reveal(pool_plan);
    }
    match kind {
        OperationKind::AveragePool2d { options: Some(o) } => plan_from_options(o),
        OperationKind::MaxPool2d { options: Some(o) } => plan_from_options(o),
        OperationKind::L2Pool2d { options: Some(o) } => plan_from_options(o),
        OperationKind::GlobalAveragePool { options: Some(o) } => plan_from_options(o),
        OperationKind::GlobalMaxPool { options: Some(o) } => plan_from_options(o),
        _ => PoolPlan {
            window: None,
            nhwc: false,
            nhwc_any_case: false,
            strides: (1, 1),
            dilations: (1, 1),
            padding: (0, 0, 0, 0),
            sized: false,
            ceil: false,
        },
    }
}

fn quad(a: i32, b: i32, c: i32, d: i32) -> (v: Vec<i32>)
    ensures
        v@ == seq![a, b, c, d],
{
    let mut v: Vec<i32> = Vec::with_capacity(4);
    v.push(a);
    v.push(b);
    v.push(c);
    v.push(d);
    assert(v@ =~= seq![a, b, c, d]);
    v
}

fn quad64(a: i64, b: i64, c: i64, d: i64) -> (v: Vec<i64>)
    ensures
        v@ == seq![a, b, c, d],
{
    let mut v: Vec<i64> = Vec::with_capacity(4);
    v.push(a);
    v.push(b);
    v.push(c);
    v.push(d);
    assert(v@ =~= seq![a, b, c, d]);
    v
}

/// The window of a pooling: that of the options, or else the whole height and width of the input.
#[verifier::opaque]
pub open spec fn pool_window(n: Run, graph: GraphInfo, id: u32, plan: PoolPlan) -> (Run, (u32, u32)) {
    if let Some(w) = plan.window {
        (n, w)
    } else {
        let (n, o) = n.operand(graph, id, "Pool2d input operand "@, " not found"@);
        let shape = o.descriptor.shape@;
        let n = n.reject_if(
            shape.len() != 4,
            "Pool2d default window requires 4D input, got "@ + decimal(shape.len()) + "D"@,
        );
        (
            n,
            if plan.nhwc_any_case { (
                size_of_dim(shape[1]),
                size_of_dim(shape[2]),
            ) } else { (size_of_dim(shape[2]), size_of_dim(shape[3])) },
        )
    }
}

pub broadcast proof fn stopped_pool_window(n: Run, graph: GraphInfo, id: u32, plan: PoolPlan)
    requires
        n.halt is Some,
    ensures
        (#[trigger] pool_window(n, graph, id, plan)).0 == n,
{
    reveal(pool_window);
}

/// Whether a pooling rounds its sizes up: as its output sizes imply, or else as the options say.
#[verifier::opaque]
pub open spec fn rounds_up(n: Run, output: u32, plan: PoolPlan) -> (Run, bool) {
    let (n, at) = n.ask(RequestOf::InferPoolRounding { output }, ""@);
    let implied = n.extent(at);
    let n = n.reject_if(
        implied is None && plan.sized,
        "pool2d output_sizes do not match floor or ceil implicit output shapes"@,
    );
    let n = n.reject_if(
        implied is Some && implied != Some(0i64) && implied != Some(1i64),
        "pool2d: unexpected ceil_mode value from output_sizes inference"@,
    );
    (n, if implied is Some { implied == Some(1i64) } else { plan.ceil })
}

pub broadcast proof fn stopped_rounds_up(n: Run, output: u32, plan: PoolPlan)
    requires
        n.halt is Some,
    ensures
        (#[trigger] rounds_up(n, output, plan)).0 == n,
{
    reveal(rounds_up);
}

/// Tensors put together along one axis; a single one is passed on.
#[verifier::opaque]
pub open spec fn joined(n: Run, parts: Seq<Tensor>, axis: i32) -> (Run, Tensor) {
    let n = n.reject_if(parts.len() == 0, "trtx_concat_tensors_along_axis: empty input list"@);
    if parts.len() == 1 {
        n.identity(parts[0], "pool concat identity: "@, "pool concat identity output: "@)
    } else {
        n.concat(parts, axis, "pool concat: "@, "pool concat output: "@)
    }
}

pub broadcast proof fn stopped_joined(n: Run, parts: Seq<Tensor>, axis: i32)
    requires
        n.halt is Some,
    ensures
        (#[trigger] joined(n, parts, axis)).0 == n,
{
    reveal(joined);
}

fn copy_tensors(v: &Vec<Tensor>) -> (c: Vec<Tensor>)
    ensures
        c@ == v@,
{
    let mut c: Vec<Tensor> = Vec::with_capacity(v.len());
    let mut i: usize = 0;
    while i < v.len()
        invariant
            i <= v.len(),
            c@ == v@.take(i as int),
        decreases v.len() - i,
    {
        c.push(v[i]);
        proof {
            assert(v@.take(i + 1) =~= v@.take(i as int).push(v@[i as int]));
        }
        i = i + 1;
    }
    proof {
        assert(v@.take(v@.len() as int) =~= v@);
    }
    c
}

/// What a pooling with dilations does with the elements of its window.
#[derive(Clone, Copy, PartialEq, Eq, Structural)]
pub enum Dilated {
    Max,
    Average,
    L2,
}

/// How messages name a pooling with dilations.
pub open spec fn dilated_name(kind: Dilated) -> Seq<char> {
    match kind {
        Dilated::Max => "dilated max pool"@,
        Dilated::Average => "dilated average pool"@,
        Dilated::L2 => "dilated l2 pool"@,
    }
}

/// How messages name what stands outside the input, and how it is combined.
pub open spec fn dilated_words(kind: Dilated) -> (Seq<char>, Seq<char>) {
    if kind == Dilated::Max {
        ("neg-inf"@, "max"@)
    } else {
        ("zero"@, "sum"@)
    }
}

/// What the elements of a window are combined with, and what stands outside the input.
pub open spec fn dilated_rule(kind: Dilated) -> (ElementWiseOperation, Known) {
    if kind == Dilated::Max {
        (ElementWiseOperation::kMAX, Known::NegInfinity)
    } else {
        (ElementWiseOperation::kSUM, Known::Zero)
    }
}

impl Dilated {
    fn name(self) -> (s: &'static str)
        ensures
            s@ == dilated_name(self),
    {
        match self {
            Dilated::Max => "dilated max pool",
            Dilated::Average => "dilated average pool",
            Dilated::L2 => "dilated l2 pool",
        }
    }

    fn words(self) -> (s: (&'static str, &'static str))
        ensures
            (s.0@, s.1@) == dilated_words(self),
    {
        match self {
            Dilated::Max => ("neg-inf", "max"),
            _ => ("zero", "sum"),
        }
    }

    fn rule(self) -> (r: (ElementWiseOperation, Known))
        ensures
            r == dilated_rule(self),
    {
        match self {
            Dilated::Max => (ElementWiseOperation::kMAX, Known::NegInfinity),
            _ => (ElementWiseOperation::kSUM, Known::Zero),
        }
    }
}

/// The grid that a pooling with dilations reads.
#[derive(Clone, Copy)]
pub struct Grid {
    pub kind: Dilated,
    pub x: Tensor,
    /// The number of batches and of channels.
    pub depth: (i64, i64),
    /// The height and the width of the input.
    pub input: (i32, i32),
    pub kernel: (u32, u32),
    pub strides: (u32, u32),
    pub dilations: (u32, u32),
    /// The padding above and to the left.
    pub pre: (u32, u32),
    /// The layer of the constant that stands outside the input.
    pub outside: usize,
}

/// Where, along one axis, element `k` of the window of cell `i` lies in the input.
pub open spec fn tap_position(i: int, stride: int, pre: int, k: int, dilation: int) -> int {
    i * stride - pre + k * dilation
}

/// The row and the column of the input that element `k` of the window of a cell reads. Elements
/// are counted row by row.
pub open spec fn tap_place(g: Grid, row: nat, col: nat, k: nat) -> (int, int) {
    (
        tap_position(
            row as int,
            g.strides.0 as i32 as int,
            g.pre.0 as i32 as int,
            k as int / g.kernel.1 as int,
            g.dilations.0 as i32 as int,
        ),
        tap_position(
            col as int,
            g.strides.1 as i32 as int,
            g.pre.1 as i32 as int,
            k as int % g.kernel.1 as int,
            g.dilations.1 as i32 as int,
        ),
    )
}

/// Whether a place lies inside the input.
pub open spec fn inside(g: Grid, at: (int, int)) -> bool {
    0 <= at.0 < g.input.0 && 0 <= at.1 < g.input.1
}

/// A tap inside the input reads it where the grid says: the places of two elements of a window
/// differ by the dilation for each step between them.
pub proof fn taps_are_spaced(g: Grid, row: nat, col: nat, k: nat)
    requires
        g.kernel.1 > 0,
        (k + 1) % g.kernel.1 as nat != 0,
    ensures
        tap_place(g, row, col, k + 1).0 == tap_place(g, row, col, k).0,
        tap_place(g, row, col, k + 1).1 == tap_place(g, row, col, k).1 + g.dilations.1 as i32,
{
    let w = g.kernel.1 as int;
    vstd::arithmetic::div_mod::lemma_fundamental_div_mod(k as int, w);
    let q = k as int / w;
    let r = k as int % w;
    if r + 1 == w {
        assert((q + 1) * w == w * q + w) by (nonlinear_arith);
        vstd::arithmetic::div_mod::lemma_fundamental_div_mod_converse((k + 1) as int, w, q + 1, 0);
    } else {
        assert(q * w == w * q) by (nonlinear_arith);
        vstd::arithmetic::div_mod::lemma_fundamental_div_mod_converse((k + 1) as int, w, q, r + 1);
        let d = g.dilations.1 as i32 as int;
        assert((r + 1) * d == r * d + d) by (nonlinear_arith);
    }
}

/// One element of the window of a cell: a slice of the input, or the constant outside it.
#[verifier::opaque]
pub open spec fn tap(n: Run, g: Grid, row: nat, col: nat, k: nat) -> (Run, Tensor) {
    let at = tap_place(g, row, col, k);
    let name = dilated_name(g.kind);
    if inside(g, at) {
        n.slice(
            g.x,
            seq![0i64, 0, at.0 as i64, at.1 as i64],
            seq![g.depth.0, g.depth.1, 1i64, 1],
            seq![1i64, 1, 1, 1],
            name + " slice: "@,
            name + " slice output: "@,
        )
    } else {
        n.output(g.outside, name + " "@ + dilated_words(g.kind).0 + " tap: "@)
    }
}

pub broadcast proof fn stopped_tap(n: Run, g: Grid, row: nat, col: nat, k: nat)
    requires
        n.halt is Some,
    ensures
        (#[trigger] tap(n, g, row, col, k)).0 == n,
{
    reveal(tap);
}

proof fn small_product(a: int, b: int)
    by (nonlinear_arith)
    requires
        0 <= a <= 0x1000,
        -0x8000_0000 <= b <= 0x7FFF_FFFF,
    ensures
        -0x800_0000_0000 <= a * b <= 0x800_0000_0000,
{
}

fn tap_position_of(i: usize, stride: i32, pre: i32, k: usize, dilation: i32) -> (p: i64)
    requires
        i <= MAX_DILATED_POOL_TAPS,
        k <= MAX_DILATED_POOL_TAPS,
    ensures
        p == tap_position(i as int, stride as int, pre as int, k as int, dilation as int),
{
    proof {
        small_product(i as int, stride as int);
        small_product(k as int, dilation as int);
    }
    i as i64 * stride as i64 - pre as i64 + k as i64 * dilation as i64
}

/// The first `k` elements of the window of a cell.
pub open spec fn taps(n: Run, g: Grid, row: nat, col: nat, k: nat) -> (Run, Seq<Tensor>)
    decreases k,
{
    if k == 0 {
        (n, seq![])
    } else {
        let (n, list) = taps(n, g, row, col, (k - 1) as nat);
        let (n, t) = tap(n, g, row, col, (k - 1) as nat);
        (n, list.push(t))
    }
}

/// The first `k` tensors of a list, which are at least one, combined from the left.
pub open spec fn combined(n: Run, kind: Dilated, list: Seq<Tensor>, k: nat) -> (Run, Tensor)
    decreases k,
{
    if k <= 1 {
        (n, list[0])
    } else {
        let (n, t) = combined(n, kind, list, (k - 1) as nat);
        combine(n, kind, t, list[k - 1])
    }
}

/// The first `k` cells of a row of the output.
pub open spec fn cells(n: Run, g: Grid, row: nat, k: nat) -> (Run, Seq<Tensor>)
    decreases k,
{
    if k == 0 {
        (n, seq![])
    } else {
        let (n, list) = cells(n, g, row, (k - 1) as nat);
        let (n, t) = cell(n, g, row, (k - 1) as nat);
        (n, list.push(t))
    }
}

/// The first `k` rows of the output, each of `width` cells.
pub open spec fn grid_rows(n: Run, g: Grid, width: nat, k: nat) -> (Run, Seq<Tensor>)
    decreases k,
{
    if k == 0 {
        (n, seq![])
    } else {
        let (n, list) = grid_rows(n, g, width, (k - 1) as nat);
        let (n, t) = grid_row(n, g, (k - 1) as nat, width);
        (n, list.push(t))
    }
}

/// Once the reading of a window has stopped, it stays so.
proof fn taps_stay(
    n: Run,
    g: Grid,
    row: nat,
    col: nat,
    k: nat,
    more: nat,
)
    requires
        k <= more,
        taps(n, g, row, col, k).0.halt is Some,
    ensures
        taps(n, g, row, col, more).0 == taps(n, g, row, col, k).0,
    decreases more - k,
{
    broadcast use stopped_tap;

    if k < more {
        taps_stay(n, g, row, col, k, (more - 1) as nat);
    }
}

pub broadcast proof fn stopped_taps(
    n: Run,
    g: Grid,
    row: nat,
    col: nat,
    k: nat,
)
    requires
        n.halt is Some,
    ensures
        (#[trigger] taps(n, g, row, col, k)).0 == n,
    decreases k,
{
    broadcast use stopped_tap;

    if k > 0 {
        stopped_taps(n, g, row, col, (k - 1) as nat);
    }
}

/// Two elements of a window combined.
#[verifier::opaque]
pub open spec fn combine(n: Run, kind: Dilated, a: Tensor, b: Tensor) -> (Run, Tensor) {
    let name = dilated_name(kind);
    let verb = dilated_words(kind).1;
    n.elementwise(
        a,
        b,
        dilated_rule(kind).0,
        name + " elementwise "@ + verb + ": "@,
        name + " "@ + verb + " output: "@,
    )
}

pub broadcast proof fn stopped_combine(n: Run, kind: Dilated, a: Tensor, b: Tensor)
    requires
        n.halt is Some,
    ensures
        (#[trigger] combine(n, kind, a, b)).0 == n,
{
    reveal(combine);
}

/// Once the combining of a window has stopped, it stays so.
proof fn combined_stay(
    n: Run,
    kind: Dilated,
    list: Seq<Tensor>,
    k: nat,
    more: nat,
)
    requires
        k <= more,
        k >= 1,
        combined(n, kind, list, k).0.halt is Some,
    ensures
        combined(n, kind, list, more).0 == combined(n, kind, list, k).0,
    decreases more - k,
{
    broadcast use stopped_combine;

    if k < more {
        combined_stay(n, kind, list, k, (more - 1) as nat);
    }
}

pub broadcast proof fn stopped_combined(
    n: Run,
    kind: Dilated,
    list: Seq<Tensor>,
    k: nat,
)
    requires
        n.halt is Some,
    ensures
        (#[trigger] combined(n, kind, list, k)).0 == n,
    decreases k,
{
    broadcast use stopped_combine;

    if k > 1 {
        stopped_combined(n, kind, list, (k - 1) as nat);
    }
}

/// One cell of the output: the elements of its window, combined.
#[verifier::opaque]
pub open spec fn cell(n: Run, g: Grid, row: nat, col: nat) -> (Run, Tensor) {
    let count = (g.kernel.0 * g.kernel.1) as nat;
    let (n, list) = taps(n, g, row, col, count);
    combined(n, g.kind, list, count)
}

pub broadcast proof fn stopped_cell(n: Run, g: Grid, row: nat, col: nat)
    requires
        n.halt is Some,
    ensures
        (#[trigger] cell(n, g, row, col)).0 == n,
{
    broadcast use {stopped_taps, stopped_combined};

    reveal(cell);
}

proof fn window_positive(a: int, b: int)
    by (nonlinear_arith)
    requires
        a > 0,
        b > 0,
    ensures
        a * b > 0,
{
}

proof fn taps_length(n: Run, g: Grid, row: nat, col: nat, k: nat)
    ensures
        taps(n, g, row, col, k).1.len() == k,
    decreases k,
{
    if k > 0 {
        taps_length(n, g, row, col, (k - 1) as nat);
    }
}

/// Once a row has stopped, it stays so.
proof fn cells_stay(
    n: Run,
    g: Grid,
    row: nat,
    k: nat,
    more: nat,
)
    requires
        k <= more,
        cells(n, g, row, k).0.halt is Some,
    ensures
        cells(n, g, row, more).0 == cells(n, g, row, k).0,
    decreases more - k,
{
    broadcast use stopped_cell;

    if k < more {
        cells_stay(n, g, row, k, (more - 1) as nat);
    }
}

pub broadcast proof fn stopped_cells(
    n: Run,
    g: Grid,
    row: nat,
    k: nat,
)
    requires
        n.halt is Some,
    ensures
        (#[trigger] cells(n, g, row, k)).0 == n,
    decreases k,
{
    broadcast use stopped_cell;

    if k > 0 {
        stopped_cells(n, g, row, (k - 1) as nat);
    }
}

/// One row of the output.
#[verifier::opaque]
pub open spec fn grid_row(n: Run, g: Grid, row: nat, width: nat) -> (Run, Tensor) {
    let (n, list) = cells(n, g, row, width);
    joined(n, list, 3)
}

pub broadcast proof fn stopped_grid_row(n: Run, g: Grid, row: nat, width: nat)
    requires
        n.halt is Some,
    ensures
        (#[trigger] grid_row(n, g, row, width)).0 == n,
{
    broadcast use {stopped_cells, stopped_joined};

    reveal(grid_row);
}

/// Once the grid has stopped, it stays so.
proof fn grid_rows_stay(
    n: Run,
    g: Grid,
    width: nat,
    k: nat,
    more: nat,
)
    requires
        k <= more,
        grid_rows(n, g, width, k).0.halt is Some,
    ensures
        grid_rows(n, g, width, more).0 == grid_rows(n, g, width, k).0,
    decreases more - k,
{
    broadcast use stopped_grid_row;

    if k < more {
        grid_rows_stay(n, g, width, k, (more - 1) as nat);
    }
}

pub broadcast proof fn stopped_grid_rows(
    n: Run,
    g: Grid,
    width: nat,
    k: nat,
)
    requires
        n.halt is Some,
    ensures
        (#[trigger] grid_rows(n, g, width, k)).0 == n,
    decreases k,
{
    broadcast use stopped_grid_row;

    if k > 0 {
        stopped_grid_rows(n, g, width, (k - 1) as nat);
    }
}

/// The dimensions as sizes: one past 32 bits counts as 0.
pub open spec fn size_dims(d: Seq<i64>) -> Seq<i64> {
    d.map_values(
        |x: i64|
            if 0 <= x <= u32::MAX {
                x
            } else {
                0i64
            },
    )
}

fn size_dims_vec(d: &Vec<i64>) -> (v: Vec<i64>)
    ensures
        v@ == size_dims(d@),
{
    let mut v: Vec<i64> = Vec::with_capacity(d.len());
    let mut i: usize = 0;
    while i < d.len()
        invariant
            i <= d.len(),
            v@.len() == i,
            forall|k: int| 0 <= k < i ==> #[trigger] v@[k] == size_dims(d@)[k],
        decreases d.len() - i,
    {
        let x: i64 = d[i];
        if 0 <= x && x <= u32::MAX as i64 {
            v.push(x);
        } else {
            v.push(0);
        }
        i = i + 1;
    }
    assert(v@ =~= size_dims(d@));
    v
}

/// The number of elements that a pooling reads over all cells of its output, or the largest
/// `usize` where it is more.
pub open spec fn tap_count(window: (u32, u32), rows: u32, columns: u32) -> nat {
    let exact = window.0 * window.1 * rows * columns;
    if exact > usize::MAX {
        usize::MAX as nat
    } else {
        exact as nat
    }
}

fn tap_count_of(window: (u32, u32), rows: u32, columns: u32) -> (c: usize)
    ensures
        c == tap_count(window, rows, columns),
{
    proof {
        assert(0 <= window.0 * window.1 <= 0xFFFF_FFFF * 0xFFFF_FFFF) by (nonlinear_arith)
            requires
                0 <= window.0 <= 0xFFFF_FFFF,
                0 <= window.1 <= 0xFFFF_FFFF,
        ;
        let area = window.0 * window.1;
        assert(0 <= area * rows <= 0xFFFF_FFFF * 0xFFFF_FFFF * 0xFFFF_FFFF) by (nonlinear_arith)
            requires
                0 <= area <= 0xFFFF_FFFF * 0xFFFF_FFFF,
                0 <= rows <= 0xFFFF_FFFF,
        ;
        let volume = area * rows;
        assert(0 <= volume * columns <= 0xFFFF_FFFF * 0xFFFF_FFFF * 0xFFFF_FFFF * 0xFFFF_FFFF)
            by (nonlinear_arith)
            requires
                0 <= volume <= 0xFFFF_FFFF * 0xFFFF_FFFF * 0xFFFF_FFFF,
                0 <= columns <= 0xFFFF_FFFF,
        ;
    }
    let exact: u128 = window.0 as u128 * window.1 as u128 * rows as u128 * columns as u128;
    if exact > usize::MAX as u128 {
        usize::MAX
    } else {
        exact as usize
    }
}

proof fn factors_are_small(a: int, b: int, rows: int, columns: int)
    by (nonlinear_arith)
    requires
        a > 0,
        b > 0,
        rows > 0,
        columns > 0,
        a * b * rows * columns <= 4096,
    ensures
        0 < a * b <= 4096,
        rows <= 4096,
        columns <= 4096,
{
}

/// The refusals of a pooling with dilations that its numbers alone decide.
pub open spec fn dilated_fault(
    d: Seq<i64>,
    window: (u32, u32),
    plan: PoolPlan,
    kind: Dilated,
) -> Option<Seq<char>> {
    let name = dilated_name(kind);
    if d.len() != 4 {
        Some(name + " expects 4D NCHW input, got "@ + decimal(d.len()) + "D"@)
    } else if d[0] <= 0 || d[1] <= 0 || d[2] <= 0 || d[3] <= 0 {
        Some(name + " invalid dims "@ + bracket_list(ints(d)))
    } else if window.0 == 0 || window.1 == 0 {
        Some(name + " zero window"@)
    } else if plan.strides.0 == 0 || plan.strides.1 == 0 {
        Some(name + " zero stride"@)
    } else if plan.dilations.0 == 0 || plan.dilations.1 == 0 {
        Some(name + " zero dilation"@)
    } else {
        None
    }
}

fn dilated_fault_of(d: &Vec<i64>, window: (u32, u32), plan: &PoolPlan, kind: Dilated) -> (r: Option<
    String,
>)
    ensures
        match r {
            Some(s) => dilated_fault(d@, window, *plan, kind) == Some(s@),
            None => dilated_fault(d@, window, *plan, kind) is None,
        },
{
    let name = kind.name();
    if d.len() != 4 {
        Some(say(name).str(" expects 4D NCHW input, got ").num(d.len()).str("D").text)
    } else if d[0] <= 0 || d[1] <= 0 || d[2] <= 0 || d[3] <= 0 {
        Some(say(name).str(" invalid dims ").list(d).text)
    } else if window.0 == 0 || window.1 == 0 {
        Some(say(name).str(" zero window").text)
    } else if plan.strides.0 == 0 || plan.strides.1 == 0 {
        Some(say(name).str(" zero stride").text)
    } else if plan.dilations.0 == 0 || plan.dilations.1 == 0 {
        Some(say(name).str(" zero dilation").text)
    } else {
        None
    }
}

/// The plan of a grid whose outside is the constant of the layer `outside`.
pub open spec fn grid_of(
    kind: Dilated,
    x: Tensor,
    d: Seq<i64>,
    window: (u32, u32),
    plan: PoolPlan,
    outside: usize,
) -> Grid {
    Grid {
        kind,
        x,
        depth: (d[0], d[1]),
        input: (d[2] as i32, d[3] as i32),
        kernel: window,
        strides: plan.strides,
        dilations: plan.dilations,
        pre: (plan.padding.0, plan.padding.2),
        outside,
    }
}

/// The rows and the columns of the output of a pooling with dilations.
#[verifier::opaque]
pub open spec fn dilated_extents(
    n: Run,
    output: u32,
    d: Seq<i64>,
    window: (u32, u32),
    plan: PoolPlan,
    kind: Dilated,
) -> (Run, (u32, u32)) {
    let (n, up) = rounds_up(n, output, plan);
    let (n, at) = n.ask(
        RequestOf::InferPool2dShape { shape: size_dims(
            d,
        ), window, strides: plan.strides, dilations: plan.dilations, padding: plan.padding, ceil: up },
        dilated_name(kind) + " shape inference: "@,
    );
    let shape = n.shape(at);
    let n = if shape.len() < 4 {
        n.stop(HaltOf::OutOfRange)
    } else {
        n
    };
    (n, (shape[2] as u32, shape[3] as u32))
}

pub broadcast proof fn stopped_dilated_extents(
    n: Run,
    output: u32,
    d: Seq<i64>,
    window: (u32, u32),
    plan: PoolPlan,
    kind: Dilated,
)
    requires
        n.halt is Some,
    ensures
        (#[trigger] dilated_extents(n, output, d, window, plan, kind)).0 == n,
{
    broadcast use {stopped_rounds_up};

    reveal(dilated_extents);
}

/// The layer of the constant that stands outside the input of a pooling with dilations.
#[verifier::opaque]
pub open spec fn outside_constant(n: Run, d: Seq<i64>, kind: Dilated) -> (Run, usize) {
    let count = d[0] * d[1];
    let n = if count > i64::MAX {
        n.stop(HaltOf::OutOfRange)
    } else {
        n
    };
    n.add_owned_constant(
        seq![d[0], d[1], 1i64, 1],
        repeated(le4(known(dilated_rule(kind).1).single), (count as i64 as usize) as nat),
        TrtDataType::kFLOAT,
        dilated_name(kind) + " "@ + dilated_words(kind).0 + " constant: "@,
    )
}

pub broadcast proof fn stopped_outside_constant(n: Run, d: Seq<i64>, kind: Dilated)
    requires
        n.halt is Some,
    ensures
        (#[trigger] outside_constant(n, d, kind)).0 == n,
{
    reveal(outside_constant);
}

/// The output of a pooling with dilations, cell by cell. TensorRT pools without dilations only, so
/// each element of a window is cut out by itself.
#[verifier::opaque]
pub open spec fn dilated_pool(
    n: Run,
    x: Tensor,
    output: u32,
    window: (u32, u32),
    plan: PoolPlan,
    kind: Dilated,
) -> (Run, Tensor) {
    let name = dilated_name(kind);
    let (n, d) = n.dims(x, name + " input dimensions: "@);
    let fault = dilated_fault(d, window, plan, kind);
    let n = n.reject_if(fault is Some, fault->0);
    let (n, (rows, columns)) = dilated_extents(n, output, d, window, plan, kind);
    let count = tap_count(window, rows, columns);
    let n = n.reject_if(
        count > MAX_DILATED_POOL_TAPS,
        name + " too many taps ("@ + decimal(count) + " > "@ + decimal(MAX_DILATED_POOL_TAPS as nat)
            + "); reduce size or dilation"@,
    );
    let (n, outside) = outside_constant(n, d, kind);
    let g = grid_of(kind, x, d, window, plan, outside);
    let n = n.reject_if(
        rows == 0 || columns == 0,
        "trtx_concat_tensors_along_axis: empty input list"@,
    );
    let (n, list) = grid_rows(n, g, columns as nat, rows as nat);
    joined(n, list, 2)
}

pub broadcast proof fn stopped_dilated_pool(
    n: Run,
    x: Tensor,
    output: u32,
    window: (u32, u32),
    plan: PoolPlan,
    kind: Dilated,
)
    requires
        n.halt is Some,
    ensures
        (#[trigger] dilated_pool(n, x, output, window, plan, kind)).0 == n,
{
    broadcast use {stopped_dilated_extents, stopped_outside_constant, stopped_grid_rows, stopped_joined};

    reveal(dilated_pool);
}

/// The result of a pooling with dilations in the precision of the output operand.
#[verifier::opaque]
pub open spec fn dilated_result(
    n: Run,
    graph: GraphInfo,
    output: u32,
    t: Tensor,
    kind: Dilated,
) -> (Run, Tensor) {
    let (n, o) = n.operand(graph, output, dilated_name(kind) + " output operand "@, " not found"@);
    if o.descriptor.data_type == DataType::Float16 {
        n.cast(
            t,
            TrtDataType::kHALF,
            dilated_name(kind) + " Float->Half: "@,
            dilated_name(kind) + " cast output: "@,
        )
    } else {
        (n, t)
    }
}

pub broadcast proof fn stopped_dilated_result(
    n: Run,
    graph: GraphInfo,
    output: u32,
    t: Tensor,
    kind: Dilated,
)
    requires
        n.halt is Some,
    ensures
        (#[trigger] dilated_result(n, graph, output, t, kind)).0 == n,
{
    reveal(dilated_result);
}

/// A maximum over windows with dilations.
#[verifier::opaque]
pub open spec fn max_pool_dilated(
    n: Run,
    graph: GraphInfo,
    x: Tensor,
    output: u32,
    plan: PoolPlan,
    window: (u32, u32),
) -> (Run, Tensor) {
    let (n, t) = dilated_pool(n, x, output, window, plan, Dilated::Max);
    dilated_result(n, graph, output, t, Dilated::Max)
}

pub broadcast proof fn stopped_max_pool_dilated(
    n: Run,
    graph: GraphInfo,
    x: Tensor,
    output: u32,
    plan: PoolPlan,
    window: (u32, u32),
)
    requires
        n.halt is Some,
    ensures
        (#[trigger] max_pool_dilated(n, graph, x, output, plan, window)).0 == n,
{
    broadcast use {stopped_dilated_pool, stopped_dilated_result};

    reveal(max_pool_dilated);
}

/// The mean over windows with dilations: the sum over each window, with 0 outside the input,
/// divided by the number of elements of the window.
#[verifier::opaque]
pub open spec fn average_pool_dilated(
    n: Run,
    graph: GraphInfo,
    x: Tensor,
    output: u32,
    plan: PoolPlan,
    window: (u32, u32),
) -> (Run, Tensor) {
    let (n, t) = dilated_pool(n, x, output, window, plan, Dilated::Average);
    let (n, l) = n.add_owned_constant(
        ones(4),
        le4(reciprocal_bits((window.0 * window.1) as nat)),
        TrtDataType::kFLOAT,
        "dilated average pool inv scale constant: "@,
    );
    let (n, inverse) = n.output(l, "dilated average pool inv scale output: "@);
    let (n, t) = n.elementwise(
        t,
        inverse,
        ElementWiseOperation::kPROD,
        "dilated average pool multiply by 1/n: "@,
        "dilated average pool prod output: "@,
    );
    dilated_result(n, graph, output, t, Dilated::Average)
}

pub broadcast proof fn stopped_average_pool_dilated(
    n: Run,
    graph: GraphInfo,
    x: Tensor,
    output: u32,
    plan: PoolPlan,
    window: (u32, u32),
)
    requires
        n.halt is Some,
    ensures
        (#[trigger] average_pool_dilated(n, graph, x, output, plan, window)).0 == n,
{
    broadcast use {stopped_dilated_pool, stopped_dilated_result};

    reveal(average_pool_dilated);
}

/// A pooling with dilations that did not stop has a window of at most as many elements as it may
/// read in all.
pub proof fn pooled_window_is_small(
    n: Run,
    x: Tensor,
    output: u32,
    window: (u32, u32),
    plan: PoolPlan,
    kind: Dilated,
)
    requires
        n.halt is None,
        dilated_pool(n, x, output, window, plan, kind).0.halt is None,
    ensures
        0 < window.0 * window.1 <= MAX_DILATED_POOL_TAPS,
{
    broadcast use {
        stopped_dilated_extents,
        stopped_outside_constant,
        stopped_grid_rows,
        stopped_joined,
    };

    reveal(dilated_pool);
    let name = dilated_name(kind);
    let (n, d) = n.dims(x, name + " input dimensions: "@);
    let fault = dilated_fault(d, window, plan, kind);
    let n = n.reject_if(fault is Some, fault->0);
    let (n, (rows, columns)) = dilated_extents(n, output, d, window, plan, kind);
    assert(rows > 0 && columns > 0);
    factors_are_small(window.0 as int, window.1 as int, rows as int, columns as int);
}

/// The sum of squares over windows with dilations; `x` holds the squares.
#[verifier::opaque]
pub open spec fn l2_pool_dilated(
    n: Run,
    x: Tensor,
    output: u32,
    plan: PoolPlan,
    window: (u32, u32),
) -> (Run, Tensor) {
    dilated_pool(n, x, output, window, plan, Dilated::L2)
}

pub broadcast proof fn stopped_l2_pool_dilated(
    n: Run,
    x: Tensor,
    output: u32,
    plan: PoolPlan,
    window: (u32, u32),
)
    requires
        n.halt is Some,
    ensures
        (#[trigger] l2_pool_dilated(n, x, output, plan, window)).0 == n,
{
    broadcast use {stopped_dilated_pool};

    reveal(l2_pool_dilated);
}

/// The settings of a pooling layer.
#[verifier::opaque]
pub open spec fn pool_settings(n: Run, l: usize, plan: PoolPlan, up: bool) -> (Run, ()) {
    let n = n.tell(
        RequestOf::SetStride { layer: Layer { id: l }, stride: (
            plan.strides.0 as i64,
            plan.strides.1 as i64,
        ) },
    );
    let n = n.tell(
        RequestOf::SetPrePadding { layer: Layer { id: l }, padding: (
            plan.padding.0 as i64,
            plan.padding.2 as i64,
        ) },
    );
    let n = n.tell(
        RequestOf::SetPostPadding { layer: Layer { id: l }, padding: (
            plan.padding.1 as i64,
            plan.padding.3 as i64,
        ) },
    );
    let n = if up {
        n.tell(
            RequestOf::SetPaddingMode { layer: Layer { id: l }, mode: PaddingMode::kEXPLICIT_ROUND_UP },
        )
    } else {
        n
    };
    (n, ())
}

pub broadcast proof fn stopped_pool_settings(n: Run, l: usize, plan: PoolPlan, up: bool)
    requires
        n.halt is Some,
    ensures
        (#[trigger] pool_settings(n, l, plan, up)).0 == n,
{
    reveal(pool_settings);
}

/// A tensor with the channels moved from the last to the second axis, where the layout has them
/// last.
#[verifier::opaque]
pub open spec fn channels_second(n: Run, t: Tensor, nhwc: bool, what: Seq<char>) -> (Run, Tensor) {
    if nhwc {
        n.transpose(
            t,
            seq![0i32, 3, 1, 2],
            what + " NHWC->NCHW shuffle: "@,
            what + " set_first_transpose NHWC: "@,
            what + " NHWC shuffle output: "@,
        )
    } else {
        (n, t)
    }
}

pub broadcast proof fn stopped_channels_second(n: Run, t: Tensor, nhwc: bool, what: Seq<char>)
    requires
        n.halt is Some,
    ensures
        (#[trigger] channels_second(n, t, nhwc, what)).0 == n,
{
    reveal(channels_second);
}

/// A tensor with the channels moved back from the second to the last axis, where the layout has
/// them last.
#[verifier::opaque]
pub open spec fn channels_last(n: Run, t: Tensor, nhwc: bool, what: Seq<char>) -> (Run, Tensor) {
    if nhwc {
        n.transpose(
            t,
            seq![0i32, 2, 3, 1],
            what + " NCHW->NHWC shuffle: "@,
            what + " set_first_transpose NCHW: "@,
            what + " NCHW shuffle output: "@,
        )
    } else {
        (n, t)
    }
}

pub broadcast proof fn stopped_channels_last(n: Run, t: Tensor, nhwc: bool, what: Seq<char>)
    requires
        n.halt is Some,
    ensures
        (#[trigger] channels_last(n, t, nhwc, what)).0 == n,
{
    reveal(channels_last);
}

/// The result of a pooling whose windows have dilations; `x` has the channels second.
#[verifier::opaque]
pub open spec fn pooled_dilated(
    n: Run,
    graph: GraphInfo,
    op: Operation,
    x: Tensor,
    kind: PoolingType,
    window: (u32, u32),
) -> (Run, Tensor) {
    let plan = pool_plan(op.kind);
    let half = type_or_float(graph, op.inputs@[0]) == DataType::Float16;
    let n = n.reject_if(
        kind != PoolingType::kMAX && kind != PoolingType::kAVERAGE,
        "TRTX: pooling with dilations other than 1 is only supported for maxPool2d and averagePool2d"@,
    );
    let (n, x) = if half {
        n.cast(
            x,
            TrtDataType::kFLOAT,
            "pool2d dilated Half->Float: "@,
            "pool2d dilated cast output: "@,
        )
    } else {
        (n, x)
    };
    let (n, t) = if kind == PoolingType::kMAX {
        max_pool_dilated(n, graph, x, op.outputs@[0], plan, window)
    } else {
        average_pool_dilated(n, graph, x, op.outputs@[0], plan, window)
    };
    if plan.nhwc {
        n.transpose(
            t,
            seq![0i32, 2, 3, 1],
            "pool2d dilated NCHW->NHWC shuffle: "@,
            "pool2d dilated NCHW->NHWC transpose: "@,
            "pool2d dilated NCHW shuffle output: "@,
        )
    } else {
        (n, t)
    }
}

pub broadcast proof fn stopped_pooled_dilated(
    n: Run,
    graph: GraphInfo,
    op: Operation,
    x: Tensor,
    kind: PoolingType,
    window: (u32, u32),
)
    requires
        n.halt is Some,
    ensures
        (#[trigger] pooled_dilated(n, graph, op, x, kind, window)).0 == n,
{
    broadcast use {stopped_max_pool_dilated, stopped_average_pool_dilated};

    reveal(pooled_dilated);
}

/// A pooling of `NCHW` or `NHWC` input.
pub open spec fn pooling_op(
    n: Run,
    m: Map<u32, Tensor>,
    graph: GraphInfo,
    op: Operation,
    kind: PoolingType,
) -> (Run, Map<u32, Tensor>) {
    let n = n.reject_if(
        !(op.kind is AveragePool2d || op.kind is MaxPool2d),
        "add_pooling_op: expected AveragePool2d or MaxPool2d"@,
    );
    let plan = pool_plan(op.kind);
    let (n, x) = n.find(m, op.inputs@[0], "Input operand "@, " not found"@);
    let (n, window) = pool_window(n, graph, op.inputs@[0], plan);
    let (n, x) = channels_second(n, x, plan.nhwc, "pool2d"@);
    let (n, t) = if plan.dilations != (1u32, 1u32) {
        pooled_dilated(n, graph, op, x, kind, window)
    } else {
        let (n, up) = rounds_up(n, op.outputs@[0], plan);
        let (n, l) = n.ask(
            RequestOf::AddPooling { input: x, kind, window: (window.0 as i64, window.1 as i64) },
            "Failed to add pooling: "@,
        );
        let (n, _) = pool_settings(n, l, plan, up);
        let (n, t) = n.output(l, "Failed to get layer output: "@);
        channels_last(n, t, plan.nhwc, "pool2d"@)
    };
    store(n, m, op.outputs@[0], t)
}

/// A pooling over the whole height and width of the input.
pub open spec fn global_pooling_op(
    n: Run,
    m: Map<u32, Tensor>,
    op: Operation,
    kind: PoolingType,
) -> (Run, Map<u32, Tensor>) {
    let n = n.reject_if(
        !(op.kind is GlobalAveragePool || op.kind is GlobalMaxPool),
        "add_global_pooling_op: expected globalAveragePool or globalMaxPool"@,
    );
    let plan = pool_plan(op.kind);
    let (n, x) = n.find(m, op.inputs@[0], "Input operand "@, " not found"@);
    let (n, x) = channels_second(n, x, plan.nhwc, "globalPool"@);
    let (n, d) = n.dims(x, "Failed to get input dimensions: "@);
    let n = n.reject_if(
        d.len() < 4,
        "Global pooling requires 4D input, got "@ + decimal(d.len()) + "D"@,
    );
    let (n, t) = n.layer(
        RequestOf::AddPooling { input: x, kind, window: (d[2], d[3]) },
        "Failed to add global pooling: "@,
        "Failed to get layer output: "@,
    );
    let (n, t) = channels_last(n, t, plan.nhwc, "globalPool"@);
    store(n, m, op.outputs@[0], t)
}

/// The sum of squares over windows: their mean, padding counted, times the number of elements of
/// the window; `x` holds the squares.
#[verifier::opaque]
pub open spec fn summed_squares(
    n: Run,
    x: Tensor,
    output: u32,
    plan: PoolPlan,
    window: (u32, u32),
    half: bool,
) -> (Run, Tensor) {
    let (n, up) = rounds_up(n, output, plan);
    let (n, l) = n.ask(
        RequestOf::AddPooling { input: x, kind: PoolingType::kAVERAGE, window: (
            window.0 as i64,
            window.1 as i64,
        ) },
        "Failed to create pooling layer for l2Pool2d: "@,
    );
    let (n, _) = pool_settings(n, l, plan, up);
    let n = n.tell(
        RequestOf::SetAverageCountExcludesPadding { layer: Layer { id: l }, excludes: false },
    );
    let (n, t) = n.output(l, "Failed to get pooled output: "@);
    let (n, t) = if half {
        n.cast(
            t,
            TrtDataType::kFLOAT,
            "l2Pool2d mean_sq Half->Float: "@,
            "l2Pool2d mean_sq cast output: "@,
        )
    } else {
        (n, t)
    };
    let (n, l) = n.add_owned_constant(
        ones(4),
        le4(product_bits(window.0 as nat, window.1 as nat)),
        TrtDataType::kFLOAT,
        "l2Pool2d kernel volume constant: "@,
    );
    let (n, volume) = n.output(l, "l2Pool2d kernel volume output: "@);
    n.elementwise(
        t,
        volume,
        ElementWiseOperation::kPROD,
        "l2Pool2d mean_sq to sum_sq: "@,
        "l2Pool2d sum_sq output: "@,
    )
}

pub broadcast proof fn stopped_summed_squares(
    n: Run,
    x: Tensor,
    output: u32,
    plan: PoolPlan,
    window: (u32, u32),
    half: bool,
)
    requires
        n.halt is Some,
    ensures
        (#[trigger] summed_squares(n, x, output, plan, window, half)).0 == n,
{
    broadcast use {stopped_rounds_up, stopped_pool_settings};

    reveal(summed_squares);
}

/// The square root of the sum of squares over windows.
pub open spec fn l2_pool2d_op(
    n: Run,
    m: Map<u32, Tensor>,
    graph: GraphInfo,
    op: Operation,
) -> (Run, Map<u32, Tensor>) {
    let n = n.reject_if(!(op.kind is L2Pool2d), "add_l2_pool2d_op: expected L2Pool2d"@);
    let (n, x) = n.find(m, op.inputs@[0], "Input operand "@, " not found"@);
    let (n, squares) = n.elementwise(
        x,
        x,
        ElementWiseOperation::kPROD,
        "Failed to create square layer for l2Pool2d: "@,
        "Failed to get squared output: "@,
    );
    let plan = pool_plan(op.kind);
    let (n, window) = pool_window(n, graph, op.inputs@[0], plan);
    let (n, squares) = channels_second(n, squares, plan.nhwc, "l2Pool2d"@);
    let half = type_or_float(graph, op.inputs@[0]) == DataType::Float16;
    let (n, t) = if plan.dilations != (1u32, 1u32) {
        let (n, squares) = if half {
            n.cast(
                squares,
                TrtDataType::kFLOAT,
                "l2Pool2d dilated Half->Float: "@,
                "l2Pool2d dilated cast output: "@,
            )
        } else {
            (n, squares)
        };
        l2_pool_dilated(n, squares, op.outputs@[0], plan, window)
    } else {
        summed_squares(n, squares, op.outputs@[0], plan, window, half)
    };
    let (n, t) = channels_last(n, t, plan.nhwc, "l2Pool2d"@);
    let (n, t) = n.unary(
        t,
        UnaryOperation::kSQRT,
        "Failed to create sqrt layer for l2Pool2d: "@,
        "Failed to get l2Pool2d output: "@,
    );
    let (n, t) = if half {
        n.cast(
            t,
            TrtDataType::kHALF,
            "l2Pool2d sqrt Float->Half: "@,
            "l2Pool2d sqrt half cast output: "@,
        )
    } else {
        (n, t)
    };
    store(n, m, op.outputs@[0], t)
}

pub broadcast group group_pool_stopped {
    stopped_pool_window,
    stopped_rounds_up,
    stopped_joined,
    stopped_tap,
    stopped_taps,
    stopped_combine,
    stopped_combined,
    stopped_cell,
    stopped_cells,
    stopped_grid_row,
    stopped_grid_rows,
    stopped_dilated_extents,
    stopped_outside_constant,
    stopped_dilated_pool,
    stopped_dilated_result,
    stopped_max_pool_dilated,
    stopped_average_pool_dilated,
    stopped_l2_pool_dilated,
    stopped_pool_settings,
    stopped_channels_second,
    stopped_channels_last,
    stopped_pooled_dilated,
    stopped_summed_squares,
}

impl TrtxConverter {
    /// The window of a pooling.
    pub fn pool2d_window_from_graph_input(
        net: &Network,
        graph: &GraphInfo,
        id: u32,
        plan: PoolPlan,
    ) -> (r: Result<(u32, u32), Halt>)
        ensures
            outcome(net@, r) == pool_window(net@, *graph, id, plan).0,
            r matches Ok(v) ==> v == pool_window(net@, *graph, id, plan).1,
    {
        proof {
            reveal(pool_window);
            broadcast use group_pool_stopped;

        }
        if let Some(w) = plan.window {
            return Ok(w);
        }
        let o = find_operand(graph, id, "Pool2d input operand ", " not found")?;
        let shape = &o.descriptor.shape;
        if shape.len() != 4 {
            return Err(
                say(
                    "Pool2d default window requires 4D input, got ",
                ).num(shape.len()).str("D").halt(),
            );
        }
        if plan.nhwc_any_case {
            Ok((get_static_or_max_size(&shape[1]), get_static_or_max_size(&shape[2])))
        } else {
            Ok((get_static_or_max_size(&shape[2]), get_static_or_max_size(&shape[3])))
        }
    }

    /// Whether a pooling rounds its sizes up.
    pub fn trtx_pool_padding_round_up(
        net: &mut Network,
        output: u32,
        plan: PoolPlan,
    ) -> (r: Result<bool, Halt>)
        ensures
            gives(final(net)@, r, rounds_up(old(net)@, output, plan)),
    {
        proof {
            reveal(rounds_up);
            broadcast use group_pool_stopped;

        }
        let at: usize = net.ask(Request::InferPoolRounding { output }, "")?;
        match net.extent(at) {
            Some(1) => Ok(true), Some(0) => Ok(false), Some(_) => Err(
                say("pool2d: unexpected ceil_mode value from output_sizes inference").halt(),
            ), None => if plan.sized {
                Err(
                    say(
                        "pool2d output_sizes do not match floor or ceil implicit output shapes",
                    ).halt(),
                )
            } else {
                Ok(plan.ceil)
            },
        }
    }

    /// Puts tensors together along one axis.
    pub fn trtx_concat_tensors_along_axis(
        net: &mut Network,
        parts: &Vec<Tensor>,
        axis: i32,
    ) -> (r: Result<Tensor, Halt>)
        ensures
            gives(final(net)@, r, joined(old(net)@, parts@, axis)),
    {
        proof {
            reveal(joined);
            broadcast use group_pool_stopped;

        }
        if parts.len() == 0 {
            return Err(say("trtx_concat_tensors_along_axis: empty input list").halt());
        }
        if parts.len() == 1 {
            return net.identity(
                parts[0],
                "pool concat identity: ",
                "pool concat identity output: ",
            );
        }
        net.concat(copy_tensors(parts), axis, "pool concat: ", "pool concat output: ")
    }

    /// Takes one element of the window of a cell.
    pub fn tap(
        net: &mut Network,
        g: Grid,
        row: usize,
        col: usize,
        k: usize,
    ) -> (r: Result<Tensor, Halt>)
        requires
            row <= MAX_DILATED_POOL_TAPS,
            col <= MAX_DILATED_POOL_TAPS,
            k <= MAX_DILATED_POOL_TAPS,
            g.kernel.1 > 0,
        ensures
            gives(final(net)@, r, tap(old(net)@, g, row as nat, col as nat, k as nat)),
    {
        proof {
            reveal(tap);
            broadcast use group_pool_stopped;

            vstd::arithmetic::div_mod::lemma_div_is_ordered_by_denominator(k as int, 1, g.kernel.1 as int);
            vstd::arithmetic::div_mod::lemma_div_basics(k as int);
            vstd::arithmetic::div_mod::lemma_mod_decreases(k as nat, g.kernel.1 as nat);
        }
        let name = g.kind.name();
        let w: usize = g.kernel.1 as usize;
        let h_at: i64 = tap_position_of(
            row,
            g.strides.0 as i32,
            g.pre.0 as i32,
            k / w,
            g.dilations.0 as i32,
        );
        let w_at: i64 = tap_position_of(
            col,
            g.strides.1 as i32,
            g.pre.1 as i32,
            k % w,
            g.dilations.1 as i32,
        );
        if 0 <= h_at && h_at < g.input.0 as i64 && 0 <= w_at && w_at < g.input.1 as i64 {
            net.slice(
                g.x,
                quad64(0, 0, h_at, w_at),
                quad64(g.depth.0, g.depth.1, 1, 1),
                quad64(1, 1, 1, 1),
                say(name).str(" slice: ").text.as_str(),
                say(name).str(" slice output: ").text.as_str(),
            )
        } else {
            net.output(
                g.outside,
                say(name).str(" ").str(g.kind.words().0).str(" tap: ").text.as_str(),
            )
        }
    }

    /// Combines two elements of a window.
    pub fn combine(
        net: &mut Network,
        kind: Dilated,
        a: Tensor,
        b: Tensor,
    ) -> (r: Result<Tensor, Halt>)
        ensures
            gives(final(net)@, r, combine(old(net)@, kind, a, b)),
    {
        proof {
            reveal(combine);
            broadcast use group_pool_stopped;

        }
        let name = kind.name();
        let verb = kind.words().1;
        net.elementwise(
            a,
            b,
            kind.rule().0,
            say(name).str(" elementwise ").str(verb).str(": ").text.as_str(),
            say(name).str(" ").str(verb).str(" output: ").text.as_str(),
        )
    }

    /// Reads the first `count` elements of the window of a cell.
    fn read_taps(
        net: &mut Network,
        g: Grid,
        row: usize,
        col: usize,
        count: usize,
    ) -> (r: Result<Vec<Tensor>, Halt>)
        requires
            row <= MAX_DILATED_POOL_TAPS,
            col <= MAX_DILATED_POOL_TAPS,
            count <= MAX_DILATED_POOL_TAPS,
            g.kernel.1 > 0,
        ensures
            outcome(final(net)@, r) == taps(old(net)@, g, row as nat, col as nat, count as nat).0,
            r matches Ok(v) ==> v@ == taps(old(net)@, g, row as nat, col as nat, count as nat).1,
    {
        let ghost start = net@;
        let mut list: Vec<Tensor> = Vec::new();
        let mut k: usize = 0;
        while k < count
            invariant
                k <= count,
                row <= MAX_DILATED_POOL_TAPS,
                col <= MAX_DILATED_POOL_TAPS,
                count <= MAX_DILATED_POOL_TAPS,
                g.kernel.1 > 0,
                start == old(net)@,
                (net@, list@) == taps(start, g, row as nat, col as nat, k as nat),
            decreases count - k,
        {
            match Self::tap(net, g, row, col, k) {
                Ok(t) => {
                    list.push(t);
                },
                Err(h) => {
                    proof {
                        taps_stay(start, g, row as nat, col as nat, (k + 1) as nat, count as nat);
                    }
                    return Err(h);
                },
            }
            k = k + 1;
        }
        Ok(list)
    }

    /// Combines the tensors of a list from the left.
    fn combine_all(net: &mut Network, kind: Dilated, list: &Vec<Tensor>) -> (r: Result<
        Tensor,
        Halt,
    >)
        requires
            list@.len() >= 1,
        ensures
            gives(final(net)@, r, combined(old(net)@, kind, list@, list@.len())),
    {
        let ghost start = net@;
        let mut acc = list[0];
        let mut k: usize = 1;
        while k < list.len()
            invariant
                1 <= k <= list.len(),
                start == old(net)@,
                (net@, acc) == combined(start, kind, list@, k as nat),
            decreases list.len() - k,
        {
            match Self::combine(net, kind, acc, list[k]) {
                Ok(t) => {
                    acc = t;
                },
                Err(h) => {
                    proof {
                        combined_stay(start, kind, list@, (k + 1) as nat, list@.len());
                    }
                    return Err(h);
                },
            }
            k = k + 1;
        }
        Ok(acc)
    }

    /// Computes one cell of the output.
    pub fn cell(net: &mut Network, g: Grid, row: usize, col: usize) -> (r: Result<Tensor, Halt>)
        requires
            row <= MAX_DILATED_POOL_TAPS,
            col <= MAX_DILATED_POOL_TAPS,
            g.kernel.0 > 0,
            g.kernel.1 > 0,
            g.kernel.0 * g.kernel.1 <= MAX_DILATED_POOL_TAPS,
        ensures
            gives(final(net)@, r, cell(old(net)@, g, row as nat, col as nat)),
    {
        proof {
            reveal(cell);
            broadcast use group_pool_stopped;

        }
        proof {
            window_positive(g.kernel.0 as int, g.kernel.1 as int);
            taps_length(net@, g, row as nat, col as nat, (g.kernel.0 * g.kernel.1) as nat);
        }
        let count: usize = (g.kernel.0 as u64 * g.kernel.1 as u64) as usize;
        let list = Self::read_taps(net, g, row, col, count)?;
        Self::combine_all(net, g.kind, &list)
    }

    /// Computes the first `count` cells of a row.
    fn read_cells(
        net: &mut Network,
        g: Grid,
        row: usize,
        count: usize,
    ) -> (r: Result<Vec<Tensor>, Halt>)
        requires
            row <= MAX_DILATED_POOL_TAPS,
            count <= MAX_DILATED_POOL_TAPS,
            g.kernel.0 > 0,
            g.kernel.1 > 0,
            g.kernel.0 * g.kernel.1 <= MAX_DILATED_POOL_TAPS,
        ensures
            outcome(final(net)@, r) == cells(old(net)@, g, row as nat, count as nat).0,
            r matches Ok(v) ==> v@ == cells(old(net)@, g, row as nat, count as nat).1,
    {
        let ghost start = net@;
        let mut list: Vec<Tensor> = Vec::new();
        let mut k: usize = 0;
        while k < count
            invariant
                k <= count,
                row <= MAX_DILATED_POOL_TAPS,
                count <= MAX_DILATED_POOL_TAPS,
                g.kernel.0 > 0,
                g.kernel.1 > 0,
                g.kernel.0 * g.kernel.1 <= MAX_DILATED_POOL_TAPS,
                start == old(net)@,
                (net@, list@) == cells(start, g, row as nat, k as nat),
            decreases count - k,
        {
            match Self::cell(net, g, row, k) {
                Ok(t) => {
                    list.push(t);
                },
                Err(h) => {
                    proof {
                        cells_stay(start, g, row as nat, (k + 1) as nat, count as nat);
                    }
                    return Err(h);
                },
            }
            k = k + 1;
        }
        Ok(list)
    }

    /// Computes one row of the output.
    pub fn grid_row(
        net: &mut Network,
        g: Grid,
        row: usize,
        width: usize,
    ) -> (r: Result<Tensor, Halt>)
        requires
            row <= MAX_DILATED_POOL_TAPS,
            width <= MAX_DILATED_POOL_TAPS,
            g.kernel.0 > 0,
            g.kernel.1 > 0,
            g.kernel.0 * g.kernel.1 <= MAX_DILATED_POOL_TAPS,
        ensures
            gives(final(net)@, r, grid_row(old(net)@, g, row as nat, width as nat)),
    {
        proof {
            reveal(grid_row);
            broadcast use group_pool_stopped;

        }
        let list = Self::read_cells(net, g, row, width)?;
        Self::trtx_concat_tensors_along_axis(net, &list, 3)
    }

    /// Computes the first `count` rows of the output.
    fn read_rows(
        net: &mut Network,
        g: Grid,
        width: usize,
        count: usize,
    ) -> (r: Result<Vec<Tensor>, Halt>)
        requires
            width <= MAX_DILATED_POOL_TAPS,
            count <= MAX_DILATED_POOL_TAPS,
            g.kernel.0 > 0,
            g.kernel.1 > 0,
            g.kernel.0 * g.kernel.1 <= MAX_DILATED_POOL_TAPS,
        ensures
            outcome(final(net)@, r) == grid_rows(old(net)@, g, width as nat, count as nat).0,
            r matches Ok(v) ==> v@ == grid_rows(old(net)@, g, width as nat, count as nat).1,
    {
        let ghost start = net@;
        let mut list: Vec<Tensor> = Vec::new();
        let mut k: usize = 0;
        while k < count
            invariant
                k <= count,
                width <= MAX_DILATED_POOL_TAPS,
                count <= MAX_DILATED_POOL_TAPS,
                g.kernel.0 > 0,
                g.kernel.1 > 0,
                g.kernel.0 * g.kernel.1 <= MAX_DILATED_POOL_TAPS,
                start == old(net)@,
                (net@, list@) == grid_rows(start, g, width as nat, k as nat),
            decreases count - k,
        {
            match Self::grid_row(net, g, k, width) {
                Ok(t) => {
                    list.push(t);
                },
                Err(h) => {
                    proof {
                        grid_rows_stay(start, g, width as nat, (k + 1) as nat, count as nat);
                    }
                    return Err(h);
                },
            }
            k = k + 1;
        }
        Ok(list)
    }

    /// The rows and the columns of the output of a pooling with dilations.
    pub fn dilated_extents(
        net: &mut Network,
        output: u32,
        d: &Vec<i64>,
        window: (u32, u32),
        plan: PoolPlan,
        kind: Dilated,
    ) -> (r: Result<(u32, u32), Halt>)
        ensures
            gives(final(net)@, r, dilated_extents(old(net)@, output, d@, window, plan, kind)),
    {
        proof {
            reveal(dilated_extents);
            broadcast use group_pool_stopped;

        }
        let up = Self::trtx_pool_padding_round_up(net, output, plan)?;
        let at: usize = net.ask(
            Request::InferPool2dShape { shape: size_dims_vec(
                d,
            ), window, strides: plan.strides, dilations: plan.dilations, padding: plan.padding, ceil: up },
            say(kind.name()).str(" shape inference: ").text.as_str(),
        )?;
        let shape = net.shape(at);
        if shape.len() < 4 {
            return Err(HaltOf::OutOfRange);
        }
        Ok((shape[2] as u32, shape[3] as u32))
    }

    /// Adds the constant that stands outside the input.
    pub fn outside_constant(
        net: &mut Network,
        d: &Vec<i64>,
        kind: Dilated,
    ) -> (r: Result<usize, Halt>)
        requires
            d@.len() == 4,
            d@[0] > 0,
            d@[1] > 0,
        ensures
            gives(final(net)@, r, outside_constant(old(net)@, d@, kind)),
    {
        proof {
            reveal(outside_constant);
            broadcast use group_pool_stopped;

            if d@[0] > 0 && d@[1] > 0 {
                window_positive(d@[0] as int, d@[1] as int);
            }
        }
        let count: i64 = match d[0].checked_mul(d[1]) {
            Some(count) => count, None => {
                return Err(HaltOf::OutOfRange);
            },
        };
        proof {
            window_positive(d@[0] as int, d@[1] as int);
        }
        net.add_owned_constant(
            quad64(d[0], d[1], 1, 1),
            repeat_bytes(&le4_bytes(kind.rule().1.scalar().single), count as usize),
            TrtDataType::kFLOAT,
            say(kind.name()).str(" ").str(kind.words().0).str(" constant: ").text.as_str(),
        )
    }

    /// Adds a pooling with dilations, cell by cell.
    pub fn dilated_pool(
        net: &mut Network,
        x: Tensor,
        output: u32,
        window: (u32, u32),
        plan: PoolPlan,
        kind: Dilated,
    ) -> (r: Result<Tensor, Halt>)
        ensures
            gives(final(net)@, r, dilated_pool(old(net)@, x, output, window, plan, kind)),
    {
        proof {
            reveal(dilated_pool);
            broadcast use group_pool_stopped;

        }
        let name = kind.name();
        let d = net.dims(x, say(name).str(" input dimensions: ").text.as_str())?;
        if let Some(fault) = dilated_fault_of(&d, window, &plan, kind) {
            return Err(HaltOf::Failed(fault));
        }
        let (rows, columns): (u32, u32) = Self::dilated_extents(
            net,
            output,
            &d,
            window,
            plan,
            kind,
        )?;
        let count: usize = tap_count_of(window, rows, columns);
        if count > MAX_DILATED_POOL_TAPS {
            return Err(
                say(name).str(" too many taps (").num(count).str(" > ").num(MAX_DILATED_POOL_TAPS)
                    .str("); reduce size or dilation").halt(),
            );
        }
        let outside: usize = Self::outside_constant(net, &d, kind)?;
        if rows == 0 || columns == 0 {
            return Err(say("trtx_concat_tensors_along_axis: empty input list").halt());
        }
        let g = Grid {
            kind, x, depth: (d[0], d[1]), input: (d[2] as i32, d[3] as i32), kernel: window, strides: plan.strides, dilations: plan.dilations, pre: (plan.padding.0, plan.padding.2), outside
        };
        proof {
            factors_are_small(window.0 as int, window.1 as int, rows as int, columns as int);
        }
        let list = Self::read_rows(net, g, columns as usize, rows as usize)?;
        Self::trtx_concat_tensors_along_axis(net, &list, 2)
    }

    /// Brings the result of a pooling with dilations to the precision of the output operand.
    pub fn dilated_result(
        net: &mut Network,
        graph: &GraphInfo,
        output: u32,
        t: Tensor,
        kind: Dilated,
    ) -> (r: Result<Tensor, Halt>)
        ensures
            gives(final(net)@, r, dilated_result(old(net)@, *graph, output, t, kind)),
    {
        proof {
            reveal(dilated_result);
            broadcast use group_pool_stopped;

        }
        let name = kind.name();
        let o = find_operand(
            graph,
            output,
            say(name).str(" output operand ").text.as_str(),
            " not found",
        )?;
        if o.descriptor.data_type == DataType::Float16 {
            net.cast(
                t,
                TrtDataType::kHALF,
                say(name).str(" Float->Half: ").text.as_str(),
                say(name).str(" cast output: ").text.as_str(),
            )
        } else {
            Ok(t)
        }
    }

    /// Adds a maximum over windows with dilations.
    pub fn add_max_pool2d_dilated_via_slices(
        net: &mut Network,
        graph: &GraphInfo,
        x: Tensor,
        output: u32,
        plan: PoolPlan,
        window: (u32, u32),
    ) -> (r: Result<Tensor, Halt>)
        ensures
            gives(final(net)@, r, max_pool_dilated(old(net)@, *graph, x, output, plan, window)),
    {
        proof {
            reveal(max_pool_dilated);
            broadcast use group_pool_stopped;

        }
        let t = Self::dilated_pool(net, x, output, window, plan, Dilated::Max)?;
        Self::dilated_result(net, graph, output, t, Dilated::Max)
    }

    /// Adds the mean over windows with dilations.
    pub fn add_average_pool2d_dilated_via_slices(
        net: &mut Network,
        graph: &GraphInfo,
        x: Tensor,
        output: u32,
        plan: PoolPlan,
        window: (u32, u32),
    ) -> (r: Result<Tensor, Halt>)
        ensures
            gives(final(net)@, r, average_pool_dilated(old(net)@, *graph, x, output, plan, window)),
    {
        proof {
            reveal(average_pool_dilated);
            broadcast use group_pool_stopped;

        }
        let ghost before = net@;
        let t = Self::dilated_pool(net, x, output, window, plan, Dilated::Average)?;
        proof {
            pooled_window_is_small(before, x, output, window, plan, Dilated::Average);
        }
        let area: u32 = window.0 * window.1;
        let l: usize = net.add_owned_constant(
            ones_vec(4),
            le4_bytes(reciprocal_bits_of(area)),
            TrtDataType::kFLOAT,
            "dilated average pool inv scale constant: ",
        )?;
        let inverse = net.output(l, "dilated average pool inv scale output: ")?;
        let t = net.elementwise(
            t,
            inverse,
            ElementWiseOperation::kPROD,
            "dilated average pool multiply by 1/n: ",
            "dilated average pool prod output: ",
        )?;
        Self::dilated_result(net, graph, output, t, Dilated::Average)
    }

    /// Adds the sum of squares over windows with dilations.
    pub fn add_l2_pool2d_dilated_via_slices(
        net: &mut Network,
        x: Tensor,
        output: u32,
        plan: PoolPlan,
        window: (u32, u32),
    ) -> (r: Result<Tensor, Halt>)
        ensures
            gives(final(net)@, r, l2_pool_dilated(old(net)@, x, output, plan, window)),
    {
        proof {
            reveal(l2_pool_dilated);
            broadcast use group_pool_stopped;

        }
        Self::dilated_pool(net, x, output, window, plan, Dilated::L2)
    }

    /// Makes the settings of a pooling layer.
    pub fn trtx_apply_pool2d_options(
        net: &mut Network,
        l: usize,
        plan: PoolPlan,
        up: bool,
    ) -> (r: Result<(), Halt>)
        ensures
            gives(final(net)@, r, pool_settings(old(net)@, l, plan, up)),
    {
        proof {
            reveal(pool_settings);
            broadcast use group_pool_stopped;

        }
        net.tell(
            Request::SetStride { layer: Layer { id: l }, stride: (
                plan.strides.0 as i64,
                plan.strides.1 as i64,
            ) },
        )?;
        net.tell(
            Request::SetPrePadding { layer: Layer { id: l }, padding: (
                plan.padding.0 as i64,
                plan.padding.2 as i64,
            ) },
        )?;
        net.tell(
            Request::SetPostPadding { layer: Layer { id: l }, padding: (
                plan.padding.1 as i64,
                plan.padding.3 as i64,
            ) },
        )?;
        if up {
            net.tell(
                Request::SetPaddingMode { layer: Layer { id: l }, mode: PaddingMode::kEXPLICIT_ROUND_UP },
            )?;
        }
        Ok(())
    }

    /// A tensor with the channels moved from the last to the second axis, where the layout has them
    /// last.
    pub fn channels_second(
        net: &mut Network,
        t: Tensor,
        nhwc: bool,
        what: &str,
    ) -> (r: Result<Tensor, Halt>)
        ensures
            gives(final(net)@, r, channels_second(old(net)@, t, nhwc, what@)),
    {
        proof {
            reveal(channels_second);
            broadcast use group_pool_stopped;

        }
        if nhwc {
            net.transpose(
                t,
                quad(0, 3, 1, 2),
                say(what).str(" NHWC->NCHW shuffle: ").text.as_str(),
                say(what).str(" set_first_transpose NHWC: ").text.as_str(),
                say(what).str(" NHWC shuffle output: ").text.as_str(),
            )
        } else {
            Ok(t)
        }
    }

    /// A tensor with the channels moved back from the second to the last axis, where the layout has
    /// them last.
    pub fn channels_last(
        net: &mut Network,
        t: Tensor,
        nhwc: bool,
        what: &str,
    ) -> (r: Result<Tensor, Halt>)
        ensures
            gives(final(net)@, r, channels_last(old(net)@, t, nhwc, what@)),
    {
        proof {
            reveal(channels_last);
            broadcast use group_pool_stopped;

        }
        if nhwc {
            net.transpose(
                t,
                quad(0, 2, 3, 1),
                say(what).str(" NCHW->NHWC shuffle: ").text.as_str(),
                say(what).str(" set_first_transpose NCHW: ").text.as_str(),
                say(what).str(" NCHW shuffle output: ").text.as_str(),
            )
        } else {
            Ok(t)
        }
    }

    /// Adds a pooling whose windows have dilations.
    pub fn pooled_dilated(
        net: &mut Network,
        graph: &GraphInfo,
        op: &Operation,
        x: Tensor,
        kind: PoolingType,
        window: (u32, u32),
    ) -> (r: Result<Tensor, Halt>)
        requires
            op.inputs@.len() >= 1,
            op.outputs@.len() >= 1,
        ensures
            gives(final(net)@, r, pooled_dilated(old(net)@, *graph, *op, x, kind, window)),
    {
        proof {
            reveal(pooled_dilated);
            broadcast use group_pool_stopped;

        }
        let plan = pool_plan_of(&op.kind);
        let half = type_or_float_of(graph, op.inputs[0]) == DataType::Float16;
        if kind != PoolingType::kMAX && kind != PoolingType::kAVERAGE {
            return Err(
                say(
                    "TRTX: pooling with dilations other than 1 is only supported for maxPool2d and averagePool2d",
                ).halt(),
            );
        }
        let x = if half {
            net.cast(
                x,
                TrtDataType::kFLOAT,
                "pool2d dilated Half->Float: ",
                "pool2d dilated cast output: ",
            )?
        } else {
            x
        };
        let t = if kind == PoolingType::kMAX {
            Self::add_max_pool2d_dilated_via_slices(net, graph, x, op.outputs[0], plan, window)?
        } else {
            Self::add_average_pool2d_dilated_via_slices(net, graph, x, op.outputs[0], plan, window)?
        };
        if plan.nhwc {
            net.transpose(
                t,
                quad(0, 2, 3, 1),
                "pool2d dilated NCHW->NHWC shuffle: ",
                "pool2d dilated NCHW->NHWC transpose: ",
                "pool2d dilated NCHW shuffle output: ",
            )
        } else {
            Ok(t)
        }
    }

    /// Adds a pooling.
    pub fn add_pooling_op(
        graph: &GraphInfo,
        net: &mut Network,
        tensors: &mut TensorMap,
        operation: &Operation,
        kind: PoolingType,
    ) -> (r: Result<(), Halt>)
        requires
            operation.inputs@.len() >= 1,
            operation.outputs@.len() >= 1,
        ensures
            does(
                final(net)@,
                r,
                final(tensors)@,
                pooling_op(old(net)@, old(tensors)@, *graph, *operation, kind),
            ),
    {
        proof {
            broadcast use group_pool_stopped;

        }
        if !matches!(
            operation.kind,
            OperationKind::AveragePool2d { .. } | OperationKind::MaxPool2d { .. },
        ) {
            return Err(say("add_pooling_op: expected AveragePool2d or MaxPool2d").halt());
        }
        let plan = pool_plan_of(&operation.kind);
        let x = tensors.find(operation.inputs[0], "Input operand ", " not found")?;
        let window: (u32, u32) = Self::pool2d_window_from_graph_input(
            net,
            graph,
            operation.inputs[0],
            plan,
        )?;
        let x = Self::channels_second(net, x, plan.nhwc, "pool2d")?;
        let t = if plan.dilations.0 != 1 || plan.dilations.1 != 1 {
            Self::pooled_dilated(net, graph, operation, x, kind, window)?
        } else {
            let up = Self::trtx_pool_padding_round_up(net, operation.outputs[0], plan)?;
            let l: usize = net.ask(
                Request::AddPooling { input: x, kind, window: (window.0 as i64, window.1 as i64) },
                "Failed to add pooling: ",
            )?;
            Self::trtx_apply_pool2d_options(net, l, plan, up)?;
            let t = net.output(l, "Failed to get layer output: ")?;
            Self::channels_last(net, t, plan.nhwc, "pool2d")?
        };
        tensors.insert(operation.outputs[0], t);
        Ok(())
    }

    /// Adds a pooling over the whole height and width.
    pub fn add_global_pooling_op(
        net: &mut Network,
        tensors: &mut TensorMap,
        operation: &Operation,
        kind: PoolingType,
    ) -> (r: Result<(), Halt>)
        requires
            operation.inputs@.len() >= 1,
            operation.outputs@.len() >= 1,
        ensures
            does(
                final(net)@,
                r,
                final(tensors)@,
                global_pooling_op(old(net)@, old(tensors)@, *operation, kind),
            ),
    {
        proof {
            broadcast use group_pool_stopped;

        }
        if !matches!(
            operation.kind,
            OperationKind::GlobalAveragePool { .. } | OperationKind::GlobalMaxPool { .. },
        ) {
            return Err(
                say("add_global_pooling_op: expected globalAveragePool or globalMaxPool").halt(),
            );
        }
        let plan = pool_plan_of(&operation.kind);
        let x = tensors.find(operation.inputs[0], "Input operand ", " not found")?;
        let x = Self::channels_second(net, x, plan.nhwc, "globalPool")?;
        let d = net.dims(x, "Failed to get input dimensions: ")?;
        if d.len() < 4 {
            return Err(say("Global pooling requires 4D input, got ").num(d.len()).str("D").halt());
        }
        let t = net.layer(
            Request::AddPooling { input: x, kind, window: (d[2], d[3]) },
            "Failed to add global pooling: ",
            "Failed to get layer output: ",
        )?;
        let t = Self::channels_last(net, t, plan.nhwc, "globalPool")?;
        tensors.insert(operation.outputs[0], t);
        Ok(())
    }

    /// Adds the sum of squares over windows.
    pub fn summed_squares(
        net: &mut Network,
        x: Tensor,
        output: u32,
        plan: PoolPlan,
        window: (u32, u32),
        half: bool,
    ) -> (r: Result<Tensor, Halt>)
        ensures
            gives(final(net)@, r, summed_squares(old(net)@, x, output, plan, window, half)),
    {
        proof {
            reveal(summed_squares);
            broadcast use group_pool_stopped;

        }
        let up = Self::trtx_pool_padding_round_up(net, output, plan)?;
        let l: usize = net.ask(
            Request::AddPooling { input: x, kind: PoolingType::kAVERAGE, window: (
                window.0 as i64,
                window.1 as i64,
            ) },
            "Failed to create pooling layer for l2Pool2d: ",
        )?;
        Self::trtx_apply_pool2d_options(net, l, plan, up)?;
        net.tell(
            Request::SetAverageCountExcludesPadding { layer: Layer { id: l }, excludes: false },
        )?;
        let t = net.output(l, "Failed to get pooled output: ")?;
        let t = if half {
            net.cast(
                t,
                TrtDataType::kFLOAT,
                "l2Pool2d mean_sq Half->Float: ",
                "l2Pool2d mean_sq cast output: ",
            )?
        } else {
            t
        };
        let l: usize = net.add_owned_constant(
            ones_vec(4),
            le4_bytes(product_bits_of(window.0, window.1)),
            TrtDataType::kFLOAT,
            "l2Pool2d kernel volume constant: ",
        )?;
        let volume = net.output(l, "l2Pool2d kernel volume output: ")?;
        net.elementwise(
            t,
            volume,
            ElementWiseOperation::kPROD,
            "l2Pool2d mean_sq to sum_sq: ",
            "l2Pool2d sum_sq output: ",
        )
    }

    /// Adds the square root of the sum of squares over windows.
    pub fn add_l2_pool2d_op(
        graph: &GraphInfo,
        net: &mut Network,
        tensors: &mut TensorMap,
        operation: &Operation,
    ) -> (r: Result<(), Halt>)
        requires
            operation.inputs@.len() >= 1,
            operation.outputs@.len() >= 1,
        ensures
            does(
                final(net)@,
                r,
                final(tensors)@,
                l2_pool2d_op(old(net)@, old(tensors)@, *graph, *operation),
            ),
    {
        proof {
            broadcast use group_pool_stopped;

        }
        if !matches!(operation.kind, OperationKind::L2Pool2d { .. }) {
            return Err(say("add_l2_pool2d_op: expected L2Pool2d").halt());
        }
        let x = tensors.find(operation.inputs[0], "Input operand ", " not found")?;
        let squares = net.elementwise(
            x,
            x,
            ElementWiseOperation::kPROD,
            "Failed to create square layer for l2Pool2d: ",
            "Failed to get squared output: ",
        )?;
        let plan = pool_plan_of(&operation.kind);
        let window: (u32, u32) = Self::pool2d_window_from_graph_input(
            net,
            graph,
            operation.inputs[0],
            plan,
        )?;
        let squares = Self::channels_second(net, squares, plan.nhwc, "l2Pool2d")?;
        let half = type_or_float_of(graph, operation.inputs[0]) == DataType::Float16;
        let t = if plan.dilations.0 != 1 || plan.dilations.1 != 1 {
            let squares = if half {
                net.cast(
                    squares,
                    TrtDataType::kFLOAT,
                    "l2Pool2d dilated Half->Float: ",
                    "l2Pool2d dilated cast output: ",
                )?
            } else {
                squares
            };
            Self::add_l2_pool2d_dilated_via_slices(
                net,
                squares,
                operation.outputs[0],
                plan,
                window,
            )?
        } else {
            Self::summed_squares(net, squares, operation.outputs[0], plan, window, half)?
        };
        let t = Self::channels_last(net, t, plan.nhwc, "l2Pool2d")?;
        let t = net.unary(
            t,
            UnaryOperation::kSQRT,
            "Failed to create sqrt layer for l2Pool2d: ",
            "Failed to get l2Pool2d output: ",
        )?;
        let t = if half {
            net.cast(
                t,
                TrtDataType::kHALF,
                "l2Pool2d sqrt Float->Half: ",
                "l2Pool2d sqrt half cast output: ",
            )?
        } else {
            t
        };
        tensors.insert(operation.outputs[0], t);
        Ok(())
    }
}

} // verus!
