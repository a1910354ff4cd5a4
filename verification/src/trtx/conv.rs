//! Convolution and transposed convolution in two dimensions.

use crate::data_type::{data_type_name, DataType};
use crate::error::GraphError;
use crate::graph::{get_static_or_max_size, max_sizes, size_of_dim, Dimension, GraphInfo};
use crate::operators::{Operation, OperationKind};
use crate::text::{decimal, same_text, say};
use crate::trtx::matrix::{type_or_float, type_or_float_of};
use crate::trtx::session::{
    does, find_operand, gives, group_stopped, outcome, store, Halt, HaltOf, Network, Request,
    RequestOf, Run, TensorMap,
};
use crate::trtx::steps::group_layers_stopped;
use crate::trtx::types::{Layer, Tensor, TrtDataType};
use crate::trtx::TrtxConverter;
use vstd::prelude::*;

verus! {

broadcast use {group_stopped, group_layers_stopped};

/// The axes of a filter in the given layout, in the order output channel, input channel, height,
/// width that TensorRT wants of a convolution.
#[verifier::opaque]
pub open spec fn conv_filter_order(layout: Seq<char>) -> Option<Seq<i32>> {
    if layout == "oihw"@ {
        Some(seq![0i32, 1, 2, 3])
    } else if layout == "hwio"@ {
        Some(seq![3i32, 2, 0, 1])
    } else if layout == "ohwi"@ {
        Some(seq![0i32, 3, 1, 2])
    } else if layout == "ihwo"@ {
        Some(seq![3i32, 0, 1, 2])
    } else if layout == "hwoi"@ {
        Some(seq![2i32, 3, 0, 1])
    } else {
        None
    }
}

/// The axes of a filter in the given layout, in the order input channel, output channel, height,
/// width that TensorRT wants of a transposed convolution.
#[verifier::opaque]
pub open spec fn deconv_filter_order(layout: Seq<char>) -> Option<Seq<i32>> {
    if layout == "iohw"@ {
        Some(seq![0i32, 1, 2, 3])
    } else if layout == "oihw"@ {
        Some(seq![1i32, 0, 2, 3])
    } else if layout == "hwio"@ {
        Some(seq![2i32, 3, 0, 1])
    } else if layout == "ohwi"@ {
        Some(seq![3i32, 0, 1, 2])
    } else if layout == "ihwo"@ {
        Some(seq![0i32, 3, 1, 2])
    } else if layout == "hwoi"@ {
        Some(seq![3i32, 2, 0, 1])
    } else {
        None
    }
}

/// The order of a layout names each axis once, and names the axes that the letters of the layout
/// say: output axis `i` of the transposed filter is the one whose letter is letter `i` of `oihw`.
pub proof fn conv_filter_order_reads_layout(layout: Seq<char>, i: int, j: int)
    requires
        conv_filter_order(layout) is Some,
        0 <= i < 4,
        0 <= j < 4,
    ensures
        layout.len() == 4,
        conv_filter_order(layout)->0.len() == 4,
        0 <= conv_filter_order(layout)->0[i] < 4,
        layout[conv_filter_order(layout)->0[i] as int] == "oihw"@[i],
        i != j ==> conv_filter_order(layout)->0[i] != conv_filter_order(layout)->0[j],
{
    reveal(conv_filter_order);
    reveal_strlit("oihw");
    reveal_strlit("hwio");
    reveal_strlit("ohwi");
    reveal_strlit("ihwo");
    reveal_strlit("hwoi");
}

/// The order of a layout names each axis once, and names the axes that the letters of the layout
/// say: output axis `i` of the transposed filter is the one whose letter is letter `i` of `iohw`.
pub proof fn deconv_filter_order_reads_layout(layout: Seq<char>, i: int, j: int)
    requires
        deconv_filter_order(layout) is Some,
        0 <= i < 4,
        0 <= j < 4,
    ensures
        layout.len() == 4,
        deconv_filter_order(layout)->0.len() == 4,
        0 <= deconv_filter_order(layout)->0[i] < 4,
        layout[deconv_filter_order(layout)->0[i] as int] == "iohw"@[i],
        i != j ==> deconv_filter_order(layout)->0[i] != deconv_filter_order(layout)->0[j],
{
    reveal(deconv_filter_order);
    reveal_strlit("iohw");
    reveal_strlit("oihw");
    reveal_strlit("hwio");
    reveal_strlit("ohwi");
    reveal_strlit("ihwo");
    reveal_strlit("hwoi");
}

/// The text, or `default` where it is empty.
pub open spec fn text_or(s: Seq<char>, default: Seq<char>) -> Seq<char> {
    if s.len() == 0 {
        default
    } else {
        s
    }
}

/// The text, or `default` where it is empty.
pub fn text_or_default<'a>(s: &'a str, default: &'a str) -> (r: &'a str)
    ensures
        r@ == text_or(s@, default@),
{
    if s.unicode_len() == 0 {
        default
    } else {
        s
    }
}

/// The first two numbers of a list, each read as `i32`, and `default` for both where it is shorter.
pub open spec fn pair_or(v: Seq<u32>, default: i32) -> (i32, i32) {
    if v.len() >= 2 {
        (v[0] as i32, v[1] as i32)
    } else {
        (default, default)
    }
}

fn pair_or_of(v: &Vec<u32>, default: i32) -> (p: (i32, i32))
    ensures
        p == pair_or(v@, default),
{
    if v.len() >= 2 {
        (v[0] as i32, v[1] as i32)
    } else {
        (default, default)
    }
}

/// The paddings of a list: those at the positions `i` and `j`, each read as `i32`, and none where
/// it has fewer than four entries.
pub open spec fn paddings(v: Seq<u32>, i: int, j: int) -> (i32, i32) {
    if v.len() >= 4 {
        (v[i] as i32, v[j] as i32)
    } else {
        (0, 0)
    }
}

fn paddings_of(v: &Vec<u32>, i: usize, j: usize) -> (p: (i32, i32))
    requires
        i < 4,
        j < 4,
    ensures
        p == paddings(v@, i as int, j as int),
{
    if v.len() >= 4 {
        (v[i] as i32, v[j] as i32)
    } else {
        (0, 0)
    }
}

/// A pair widened to 64 bits.
pub open spec fn widened(p: (i32, i32)) -> (i64, i64) {
    (p.0 as i64, p.1 as i64)
}

fn widened_of(p: (i32, i32)) -> (w: (i64, i64))
    ensures
        w == widened(p),
{
    (p.0 as i64, p.1 as i64)
}

/// What a convolution takes from its options, whether or not it is transposed.
pub struct ConvPlan {
    pub bias: Option<u32>,
    pub nhwc: bool,
    pub strides: (i32, i32),
    pub dilations: (i32, i32),
    pub groups: i32,
    /// The padding above and to the left of the input.
    pub pre: (i32, i32),
    /// The padding below and to the right of the input.
    pub post: (i32, i32),
}

/// What a convolution with the options of `kind` does.
#[verifier::opaque]
pub open spec fn conv_plan(kind: OperationKind) -> ConvPlan {
    match kind {
        OperationKind::Conv2d { options: Some(o) } => ConvPlan {
            bias: o.bias,
            nhwc: o.input_layout@ == "nhwc"@,
            strides: pair_or(o.strides@, 1),
            dilations: pair_or(o.dilations@, 1),
            groups: o.groups as i32,
            pre: paddings(o.padding@, 0, 2),
            post: paddings(o.padding@, 1, 3),
        },
        OperationKind::ConvTranspose2d { options: Some(o) } => ConvPlan {
            bias: o.bias,
            nhwc: o.input_layout@ == "nhwc"@,
            strides: pair_or(o.strides@, 1),
            dilations: pair_or(o.dilations@, 1),
            groups: o.groups as i32,
            pre: paddings(o.padding@, 0, 2),
            post: paddings(o.padding@, 1, 3),
        },
        _ => ConvPlan {
            bias: None,
            nhwc: false,
            strides: (1, 1),
            dilations: (1, 1),
            groups: 1,
            pre: (0, 0),
            post: (0, 0),
        },
    }
}

fn conv_plan_of(kind: &OperationKind) -> (p: ConvPlan)
    ensures
        p == conv_plan(*kind),
{
    proof {
        reveal(conv_plan);
    }
    match kind {
        OperationKind::Conv2d { options: Some(o) } => ConvPlan {
            bias: o.bias,
            nhwc: same_text(o.input_layout.as_str(), "nhwc"),
            strides: pair_or_of(&o.strides, 1),
            dilations: pair_or_of(&o.dilations, 1),
            groups: o.groups as i32,
            pre: paddings_of(&o.padding, 0, 2),
            post: paddings_of(&o.padding, 1, 3),
        },
        OperationKind::ConvTranspose2d { options: Some(o) } => ConvPlan {
            bias: o.bias,
            nhwc: same_text(o.input_layout.as_str(), "nhwc"),
            strides: pair_or_of(&o.strides, 1),
            dilations: pair_or_of(&o.dilations, 1),
            groups: o.groups as i32,
            pre: paddings_of(&o.padding, 0, 2),
            post: paddings_of(&o.padding, 1, 3),
        },
        _ => ConvPlan {
            bias: None,
            nhwc: false,
            strides: (1, 1),
            dilations: (1, 1),
            groups: 1,
            pre: (0, 0),
            post: (0, 0),
        },
    }
}

/// The layout of the filter of a convolution: the one given, or the one TensorRT wants.
pub open spec fn conv_filter_layout(kind: OperationKind) -> Seq<char> {
    match kind {
        OperationKind::Conv2d { options: Some(o) } => text_or(o.filter_layout@, "oihw"@),
        OperationKind::ConvTranspose2d { options: Some(o) } => text_or(o.filter_layout@, "iohw"@),
        OperationKind::ConvTranspose2d { .. } => "iohw"@,
        _ => "oihw"@,
    }
}

fn conv_filter_layout_of<'a>(kind: &'a OperationKind) -> (s: &'a str)
    ensures
        s@ == conv_filter_layout(*kind),
{
    match kind {
        OperationKind::Conv2d { options: Some(o) } => text_or_default(
            o.filter_layout.as_str(),
            "oihw",
        ),
        OperationKind::ConvTranspose2d { options: Some(o) } => text_or_default(
            o.filter_layout.as_str(),
            "iohw",
        ),
        OperationKind::ConvTranspose2d { options: None } => "iohw",
        _ => "oihw",
    }
}

/// Whether a type is one that TensorRT convolves.
pub open spec fn convolves(t: DataType) -> bool {
    t == DataType::Float32 || t == DataType::Float16
}

/// The tensor of an operand that may have none.
pub open spec fn tensor_of(m: Map<u32, Tensor>, id: Option<u32>) -> Option<Tensor> {
    match id {
        Some(id) => if m.contains_key(id) {
            Some(m[id])
        } else {
            None
        },
        None => None,
    }
}

fn tensor_of_operand(tensors: &TensorMap, id: Option<u32>) -> (t: Option<Tensor>)
    ensures
        t == tensor_of(tensors@, id),
{
    match id {
        Some(id) => tensors.get(id),
        None => None,
    }
}

/// Refuses a bias that TensorRT cannot add.
#[verifier::opaque]
pub open spec fn check_bias(
    n: Run,
    graph: GraphInfo,
    bias: Option<u32>,
    name: Seq<char>,
) -> (Run, ()) {
    if let Some(id) = bias {
        let (n, o) = n.operand(graph, id, "Bias operand "@, " not found"@);
        (
            n.reject_if(!convolves(o.descriptor.data_type), name + " bias data type "@
                + data_type_name(o.descriptor.data_type)
                + " not supported (use float32 or float16)"@),
            (),
        )
    } else {
        (n, ())
    }
}

pub broadcast proof fn stopped_check_bias(
    n: Run,
    graph: GraphInfo,
    bias: Option<u32>,
    name: Seq<char>,
)
    requires
        n.halt is Some,
    ensures
        (#[trigger] check_bias(n, graph, bias, name)).0 == n,
{
    reveal(check_bias);
}

fn quad(a: i32, b: i32, c: i32, d: i32) -> (v: Vec<i32>)
    ensures
        v@ == seq![a, b, c, d],
{
    let mut v: Vec<i32> = Vec::with_capacity(4);
    v.push(a);
    v.push(b);
    v.push(c);
    v.push(d);
    assert(v@ =~= seq![a, b, c, d]);
    v
}

/// The input of a convolution in single precision, with the channels second.
#[verifier::opaque]
pub open spec fn conv_source(
    n: Run,
    x: Tensor,
    nhwc: bool,
    half: bool,
    name: Seq<char>,
) -> (Run, Tensor) {
    let (n, t) = if nhwc {
        n.transpose(
            x,
            seq![0i32, 3, 1, 2],
            name + " NHWC->NCHW shuffle: "@,
            name + " set_first_transpose NHWC->NCHW: "@,
            name + " NHWC shuffle output: "@,
        )
    } else {
        (n, x)
    };
    if half {
        n.cast(t, TrtDataType::kFLOAT, name + " Half->Float cast: "@, name + " cast output: "@)
    } else {
        (n, t)
    }
}

pub broadcast proof fn stopped_conv_source(
    n: Run,
    x: Tensor,
    nhwc: bool,
    half: bool,
    name: Seq<char>,
)
    requires
        n.halt is Some,
    ensures
        (#[trigger] conv_source(n, x, nhwc, half, name)).0 == n,
{
    reveal(conv_source);
}

/// The result of a convolution in the precision and the layout of its input.
#[verifier::opaque]
pub open spec fn conv_result(
    n: Run,
    x: Tensor,
    nhwc: bool,
    half: bool,
    name: Seq<char>,
) -> (Run, Tensor) {
    let (n, t) = if half {
        n.cast(x, TrtDataType::kHALF, name + " Float->Half cast: "@, name + " cast output: "@)
    } else {
        (n, x)
    };
    if nhwc {
        n.transpose(
            t,
            seq![0i32, 2, 3, 1],
            name + " NCHW->NHWC shuffle: "@,
            name + " set_first_transpose NCHW->NHWC: "@,
            name + " NHWC output shuffle: "@,
        )
    } else {
        (n, t)
    }
}

pub broadcast proof fn stopped_conv_result(
    n: Run,
    x: Tensor,
    nhwc: bool,
    half: bool,
    name: Seq<char>,
)
    requires
        n.halt is Some,
    ensures
        (#[trigger] conv_result(n, x, nhwc, half, name)).0 == n,
{
    reveal(conv_result);
}

/// The filter and the bias of a convolution in single precision, the filter with its axes in the
/// given order.
#[verifier::opaque]
pub open spec fn conv_weights(
    n: Run,
    filter: Tensor,
    filter_half: bool,
    bias: Option<Tensor>,
    bias_half: bool,
    order: Option<Seq<i32>>,
    name: Seq<char>,
) -> (Run, (Tensor, Option<Tensor>)) {
    let (n, f) = if filter_half {
        n.cast(
            filter,
            TrtDataType::kFLOAT,
            name + " filter Half->Float cast: "@,
            name + " filter cast output: "@,
        )
    } else {
        (n, filter)
    };
    let (n, b) = if bias is Some && bias_half {
        let (n, t) = n.cast(
            bias->0,
            TrtDataType::kFLOAT,
            name + " bias Half->Float cast: "@,
            name + " bias cast output: "@,
        );
        (n, Some(t))
    } else {
        (n, bias)
    };
    let (n, f) = if let Some(order) = order {
        n.transpose(
            f,
            order,
            name + " filter layout shuffle: "@,
            name + " filter set_first_transpose: "@,
            name + " filter shuffle output: "@,
        )
    } else {
        (n, f)
    };
    (n, (f, b))
}

pub broadcast proof fn stopped_conv_weights(
    n: Run,
    filter: Tensor,
    filter_half: bool,
    bias: Option<Tensor>,
    bias_half: bool,
    order: Option<Seq<i32>>,
    name: Seq<char>,
)
    requires
        n.halt is Some,
    ensures
        (#[trigger] conv_weights(n, filter, filter_half, bias, bias_half, order, name)).0 == n,
{
    reveal(conv_weights);
}

/// The order as contracts see it.
pub open spec fn order_view(order: Option<[i32; 4]>) -> Option<Seq<i32>> {
    match order {
        Some(a) => Some(seq![a@[0], a@[1], a@[2], a@[3]]),
        None => None,
    }
}

/// The order of the axes of the filter of a convolution that TensorRT wants, where its layout is
/// known.
pub open spec fn filter_order(kind: OperationKind) -> Option<Seq<i32>> {
    if kind is ConvTranspose2d {
        deconv_filter_order(conv_filter_layout(kind))
    } else {
        conv_filter_order(conv_filter_layout(kind))
    }
}

/// The order in which the axes of the filter of a convolution are to be transposed, if they are.
#[verifier::opaque]
pub open spec fn filter_turn(kind: OperationKind) -> Option<Seq<i32>> {
    if conv_filter_layout(kind) == (if kind is ConvTranspose2d {
        "iohw"@
    } else {
        "oihw"@
    }) {
        None
    } else {
        filter_order(kind)
    }
}

/// The number of output maps of a convolution: the output channels of the filter, for a transposed
/// convolution those of all groups together.
pub open spec fn output_maps(kind: OperationKind, sizes: Seq<u32>) -> int {
    let order = filter_order(kind)->0;
    if kind is ConvTranspose2d {
        (sizes[order[1] as int] as i32) * conv_plan(kind).groups
    } else {
        sizes[order[0] as int] as i32 as int
    }
}

/// Whether a number is an `i32`.
pub open spec fn fits_i32(x: int) -> bool {
    i32::MIN <= x <= i32::MAX
}

proof fn product_bounds(a: int, b: int)
    by (nonlinear_arith)
    requires
        -0x1_0000_0000 <= a <= 0x1_0000_0000,
        -0x1_0000_0000 <= b <= 0x1_0000_0000,
    ensures
        -0x1_0000_0000_0000_0000 <= a * b <= 0x1_0000_0000_0000_0000,
{
}

/// What the filter of a convolution says of it.
pub struct FilterPlan {
    pub output_maps: i32,
    pub kernel: (i32, i32),
    pub half: bool,
}

/// What a filter of the given sizes and type says of a convolution.
pub open spec fn filter_plan(kind: OperationKind, sizes: Seq<u32>, t: DataType) -> FilterPlan {
    let order = filter_order(kind)->0;
    FilterPlan {
        output_maps: output_maps(kind, sizes) as i32,
        kernel: (sizes[order[2] as int] as i32, sizes[order[3] as int] as i32),
        half: t == DataType::Float16,
    }
}

/// What the filter of a convolution says of it. A filter that does not have four axes, whose layout
/// is not known or that TensorRT cannot convolve with is refused, and so is such a bias. Where the
/// number of output maps does not fit in 32 bits, the conversation stops.
#[verifier::opaque]
pub open spec fn conv_filter(
    n: Run,
    graph: GraphInfo,
    op: Operation,
    purpose: Seq<char>,
    name: Seq<char>,
) -> (Run, FilterPlan) {
    let (n, filter) = n.operand(graph, op.inputs@[1], "Filter operand "@, " not found"@);
    let t = filter.descriptor.data_type;
    let sizes = max_sizes(filter.descriptor.shape@);
    let n = n.reject_if(
        sizes.len() != 4,
        "Expected 4D filter shape"@ + purpose + ", got "@ + decimal(sizes.len()) + "D"@,
    );
    let n = n.reject_if(
        filter_order(op.kind) is None,
        "Unsupported filter_layout: "@ + conv_filter_layout(op.kind),
    );
    let n = if fits_i32(output_maps(op.kind, sizes)) {
        n
    } else {
        n.stop(HaltOf::OutOfRange)
    };
    let n = n.reject_if(
        !convolves(t),
        name + " filter data type "@ + data_type_name(t)
            + " not supported (use float32 or float16)"@,
    );
    let (n, _) = check_bias(n, graph, conv_plan(op.kind).bias, name);
    (n, filter_plan(op.kind, sizes, t))
}

pub broadcast proof fn stopped_conv_filter(
    n: Run,
    graph: GraphInfo,
    op: Operation,
    purpose: Seq<char>,
    name: Seq<char>,
)
    requires
        n.halt is Some,
    ensures
        (#[trigger] conv_filter(n, graph, op, purpose, name)).0 == n,
{
    broadcast use {stopped_check_bias};

    reveal(conv_filter);
}

fn filter_order_of(kind: &OperationKind) -> (r: Option<[i32; 4]>)
    ensures
        match r {
            Some(order) => filter_order(*kind) == Some(order@) && forall|i: int|
                0 <= i < 4 ==> 0 <= #[trigger] order@[i] < 4,
            None => filter_order(*kind) is None,
        },
{
    let layout = conv_filter_layout_of(kind);
    let r = if matches!(kind, OperationKind::ConvTranspose2d { .. }) {
        TrtxConverter::deconv_dynamic_filter_first_transpose(layout)
    } else {
        TrtxConverter::conv_dynamic_filter_first_transpose(layout)
    };
    match r {
        Ok(order) => {
            proof {
                assert forall|i: int| 0 <= i < 4 implies 0 <= #[trigger] order@[i] < 4 by {
                    if kind is ConvTranspose2d {
                        deconv_filter_order_reads_layout(layout@, i, i);
                    } else {
                        conv_filter_order_reads_layout(layout@, i, i);
                    }
                }
            }
            Some(order)
        },
        Err(_) => None,
    }
}

fn filter_turn_of(kind: &OperationKind) -> (r: Option<[i32; 4]>)
    ensures
        order_view(r) == filter_turn(*kind),
{
    proof {
        reveal(filter_turn);
    }
    let layout = conv_filter_layout_of(kind);
    let own = if matches!(kind, OperationKind::ConvTranspose2d { .. }) {
        "iohw"
    } else {
        "oihw"
    };
    if same_text(layout, own) {
        None
    } else {
        let r = filter_order_of(kind);
        proof {
            if let Some(order) = r {
                assert(order_view(r)->0 =~= order@);
            }
        }
        r
    }
}

/// The filter and the bias of a convolution as TensorRT takes them.
#[verifier::opaque]
pub open spec fn conv_parameters(
    n: Run,
    m: Map<u32, Tensor>,
    graph: GraphInfo,
    op: Operation,
    half: bool,
    name: Seq<char>,
) -> (Run, (Tensor, Option<Tensor>)) {
    let (n, f) = n.find(m, op.inputs@[1], "Filter operand "@, " tensor not found"@);
    let bias = conv_plan(op.kind).bias;
    let bias_half = bias is Some && type_or_float(graph, bias->0) == DataType::Float16;
    conv_weights(n, f, half, tensor_of(m, bias), bias_half, filter_turn(op.kind), name)
}

pub broadcast proof fn stopped_conv_parameters(
    n: Run,
    m: Map<u32, Tensor>,
    graph: GraphInfo,
    op: Operation,
    half: bool,
    name: Seq<char>,
)
    requires
        n.halt is Some,
    ensures
        (#[trigger] conv_parameters(n, m, graph, op, half, name)).0 == n,
{
    broadcast use stopped_conv_weights;

    reveal(conv_parameters);
}

/// A convolution layer with its settings. Padding has been put round the source already.
#[verifier::opaque]
pub open spec fn convolved(
    n: Run,
    source: Tensor,
    f: Tensor,
    bias: Option<Tensor>,
    filter: FilterPlan,
    plan: ConvPlan,
) -> (Run, Tensor) {
    let (n, l) = n.ask(
        RequestOf::AddConvolution { input: source, output_maps: filter.output_maps, kernel: filter.kernel },
        "Failed to add convolution (tensor weights): "@,
    );
    let (n, _) = n.ask(
        RequestOf::SetInput { layer: Layer { id: l }, index: 1, tensor: f },
        "Conv2d set_input(1) filter: "@,
    );
    let n = if let Some(b) = bias {
        n.ask(
            RequestOf::SetInput { layer: Layer { id: l }, index: 2, tensor: b },
            "Conv2d set_input(2) bias: "@,
        ).0
    } else {
        n
    };
    let n = n.tell(RequestOf::SetStride { layer: Layer { id: l }, stride: widened(plan.strides) });
    let n = n.tell(RequestOf::SetPadding { layer: Layer { id: l }, padding: (0, 0) });
    let n = n.tell(
        RequestOf::SetDilation { layer: Layer { id: l }, dilation: widened(plan.dilations) },
    );
    let n = n.tell(RequestOf::SetNumGroups { layer: Layer { id: l }, groups: plan.groups as i64 });
    n.output(l, "Failed to get convolution output: "@)
}

pub broadcast proof fn stopped_convolved(
    n: Run,
    source: Tensor,
    f: Tensor,
    bias: Option<Tensor>,
    filter: FilterPlan,
    plan: ConvPlan,
)
    requires
        n.halt is Some,
    ensures
        (#[trigger] convolved(n, source, f, bias, filter, plan)).0 == n,
{
    reveal(convolved);
}

/// A convolution of `NCHW` or `NHWC` input. It is computed in single precision; padding is put
/// round the input first.
pub open spec fn conv2d_op(
    n: Run,
    m: Map<u32, Tensor>,
    graph: GraphInfo,
    op: Operation,
) -> (Run, Map<u32, Tensor>) {
    let n = n.reject_if(!(op.kind is Conv2d), "add_conv2d_op: expected Conv2d operation"@);
    let plan = conv_plan(op.kind);
    let (n, filter) = conv_filter(n, graph, op, ""@, "Conv2d"@);
    let half = type_or_float(graph, op.inputs@[0]) == DataType::Float16;
    let (n, x) = n.find(m, op.inputs@[0], "Input operand "@, " not found"@);
    let (n, source) = conv_source(n, x, plan.nhwc, half, "Conv2d"@);
    let (n, source) = if plan.pre == (0i32, 0i32) && plan.post == (0i32, 0i32) {
        n.identity(source, "Failed to add identity layer: "@, "Failed to get identity output: "@)
    } else {
        n.padding(
            source,
            widened(plan.pre),
            widened(plan.post),
            "Failed to add padding layer: "@,
            "Failed to get padding layer output: "@,
        )
    };
    let (n, (f, bias)) = conv_parameters(n, m, graph, op, filter.half, "Conv2d"@);
    let (n, t) = convolved(n, source, f, bias, filter, plan);
    let (n, t) = conv_result(n, t, plan.nhwc, half, "Conv2d"@);
    store(n, m, op.outputs@[0], t)
}

/// The paddings that a transposed convolution trims from its output along one axis, before and
/// after, and what is then still to be added behind. WebNN adds `extra` to the output; TensorRT
/// trims less instead, first behind and then in front, as far as there is padding.
pub open spec fn absorbed(pre: int, post: int, extra: int) -> (int, int, int) {
    let post_left = at_least_zero(post - extra);
    let pre_left = at_least_zero(pre - at_least_zero(extra - post));
    (pre_left, post_left, at_least_zero(extra - (post - post_left) - (pre - pre_left)))
}

/// The larger of `x` and 0.
pub open spec fn at_least_zero(x: int) -> int {
    if x < 0 {
        0
    } else {
        x
    }
}

/// Trimming less and adding the rest makes the output longer by exactly `extra`.
pub proof fn absorbing_keeps_length(pre: int, post: int, extra: int)
    requires
        pre >= 0,
        post >= 0,
        extra >= 0,
    ensures
        ({
            let (pre_left, post_left, added) = absorbed(pre, post, extra);
            &&& 0 <= pre_left <= pre
            &&& 0 <= post_left <= post
            &&& added >= 0
            &&& added - pre_left - post_left == extra - pre - post
            &&& added > 0 ==> pre_left == 0 && post_left == 0
        }),
{
}

fn not_negative(x: i64) -> (r: i64)
    ensures
        r == at_least_zero(x as int),
{
    if x < 0 {
        0
    } else {
        x
    }
}

fn absorbed_of(pre: i32, post: i32, extra: i32) -> (r: (i64, i64, i64))
    ensures
        (r.0 as int, r.1 as int, r.2 as int) == absorbed(pre as int, post as int, extra as int),
{
    let pre: i64 = pre as i64;
    let post: i64 = post as i64;
    let extra: i64 = extra as i64;
    let post_left: i64 = not_negative(post - extra);
    let pre_left: i64 = not_negative(pre - not_negative(extra - post));
    (pre_left, post_left, not_negative(extra - (post - post_left) - (pre - pre_left)))
}

/// The extent of the output of a transposed convolution along one axis.
pub open spec fn deconv_extent(
    input: int,
    stride: int,
    kernel: int,
    dilation: int,
    pre: int,
    post: int,
    extra: int,
) -> int {
    (input - 1) * stride + ((kernel - 1) * dilation + 1) - pre - post + extra
}

/// What is to be added to the output of a transposed convolution, of the options of `kind`.
pub open spec fn output_padding(kind: OperationKind) -> (i32, i32) {
    match kind {
        OperationKind::ConvTranspose2d { options: Some(o) } => pair_or(o.output_padding@, 0),
        _ => (0, 0),
    }
}

fn output_padding_of(kind: &OperationKind) -> (p: (i32, i32))
    ensures
        p == output_padding(*kind),
{
    match kind {
        OperationKind::ConvTranspose2d { options: Some(o) } => pair_or_of(&o.output_padding, 0),
        _ => (0, 0),
    }
}

/// The size of a dimension, read as `i32`.
pub open spec fn small_size(d: Dimension) -> i32 {
    size_of_dim(d) as i32
}

fn small_size_of(d: &Dimension) -> (r: i32)
    ensures
        r == small_size(*d),
{
    get_static_or_max_size(d) as i32
}

/// The height, the width and the number of channels that the result of a transposed convolution
/// must have: those of the options, or else those of the output operand.
pub open spec fn deconv_target(
    graph: GraphInfo,
    op: Operation,
    nhwc: bool,
    output_maps: i32,
) -> Option<(i32, i32, i32)> {
    let sizes = match op.kind {
        OperationKind::ConvTranspose2d { options: Some(o) } => match o.output_sizes {
            Some(v) => v@,
            None => seq![],
        },
        _ => seq![],
    };
    let id = op.outputs@[0];
    if sizes.len() >= 2 {
        Some((sizes[0] as i32, sizes[1] as i32, output_maps))
    } else if id < graph.operands@.len() && graph.operands@[id as int].descriptor.shape@.len() == 4 {
        let shape = graph.operands@[id as int].descriptor.shape@;
        if nhwc {
            Some((small_size(shape[1]), small_size(shape[2]), small_size(shape[3])))
        } else {
            Some((small_size(shape[2]), small_size(shape[3]), small_size(shape[1])))
        }
    } else {
        None
    }
}

fn deconv_target_of(graph: &GraphInfo, operation: &Operation, nhwc: bool, output_maps: i32) -> (r:
    Option<(i32, i32, i32)>)
    requires
        operation.outputs@.len() >= 1,
    ensures
        r == deconv_target(*graph, *operation, nhwc, output_maps),
{
    if let OperationKind::ConvTranspose2d { options: Some(o) } = &operation.kind {
        if let Some(sizes) = &o.output_sizes {
            if sizes.len() >= 2 {
                return Some((sizes[0] as i32, sizes[1] as i32, output_maps));
            }
        }
    }
    if let Some(o) = graph.operand(operation.outputs[0]) {
        let shape = &o.descriptor.shape;
        if shape.len() == 4 {
            if nhwc {
                return Some(
                    (small_size_of(&shape[1]), small_size_of(&shape[2]), small_size_of(&shape[3])),
                );
            }
            return Some(
                (small_size_of(&shape[2]), small_size_of(&shape[3]), small_size_of(&shape[1])),
            );
        }
    }
    None
}

/// The smaller of two numbers.
pub open spec fn lesser(a: int, b: int) -> int {
    if a < b {
        a
    } else {
        b
    }
}

fn quad64(a: i64, b: i64, c: i64, d: i64) -> (v: Vec<i64>)
    ensures
        v@ == seq![a, b, c, d],
{
    let mut v: Vec<i64> = Vec::with_capacity(4);
    v.push(a);
    v.push(b);
    v.push(c);
    v.push(d);
    assert(v@ =~= seq![a, b, c, d]);
    v
}

/// The result of a transposed convolution brought from the height and width `current` to those of
/// `target`: cut where it is longer, padded where it is shorter.
#[verifier::opaque]
pub open spec fn fitted(
    n: Run,
    t: Tensor,
    batch: i32,
    current: (i32, i32),
    target: (i32, i32, i32),
) -> (Run, Tensor) {
    let (h, w) = current;
    let slice_h = lesser(h as int, target.0 as int) as i32;
    let slice_w = lesser(w as int, target.1 as int) as i32;
    let (n, t) = if slice_h < h || slice_w < w {
        n.slice(
            t,
            seq![0i64, 0, 0, 0],
            seq![batch as i64, target.2 as i64, slice_h as i64, slice_w as i64],
            seq![1i64, 1, 1, 1],
            "convTranspose2d outputSizes slice: "@,
            "convTranspose2d outputSizes slice output: "@,
        )
    } else {
        (n, t)
    };
    let pad = (target.0 as i64 - slice_h as i64, target.1 as i64 - slice_w as i64);
    if pad.0 > 0 || pad.1 > 0 {
        n.padding(
            t,
            (0, 0),
            (pad.0 as i64, pad.1 as i64),
            "convTranspose2d outputSizes pad: "@,
            "convTranspose2d outputSizes pad output: "@,
        )
    } else {
        (n, t)
    }
}

pub broadcast proof fn stopped_fitted(
    n: Run,
    t: Tensor,
    batch: i32,
    current: (i32, i32),
    target: (i32, i32, i32),
)
    requires
        n.halt is Some,
    ensures
        (#[trigger] fitted(n, t, batch, current, target)).0 == n,
{
    reveal(fitted);
}

/// The height and width of the input of a transposed convolution.
pub open spec fn spatial_sizes(shape: Seq<Dimension>, nhwc: bool) -> (i32, i32) {
    if nhwc {
        (small_size(shape[1]), small_size(shape[2]))
    } else {
        (small_size(shape[2]), small_size(shape[3]))
    }
}

/// The height and width of the output of a transposed convolution, before they are fitted.
pub open spec fn deconv_extents(
    input: (i32, i32),
    kernel: (i32, i32),
    plan: ConvPlan,
    extra: (i32, i32),
) -> (int, int) {
    (
        deconv_extent(
            input.0 as int,
            plan.strides.0 as int,
            kernel.0 as int,
            plan.dilations.0 as int,
            plan.pre.0 as int,
            plan.post.0 as int,
            extra.0 as int,
        ),
        deconv_extent(
            input.1 as int,
            plan.strides.1 as int,
            kernel.1 as int,
            plan.dilations.1 as int,
            plan.pre.1 as int,
            plan.post.1 as int,
            extra.1 as int,
        ),
    )
}

fn deconv_extent_of(
    input: i32,
    stride: i32,
    kernel: i32,
    dilation: i32,
    pre: i32,
    post: i32,
    extra: i32,
) -> (e: i128)
    ensures
        e == deconv_extent(
            input as int,
            stride as int,
            kernel as int,
            dilation as int,
            pre as int,
            post as int,
            extra as int,
        ),
{
    proof {
        product_bounds(input - 1, stride as int);
        product_bounds(kernel - 1, dilation as int);
    }
    (input as i128 - 1) * (stride as i128) + ((kernel as i128 - 1) * (dilation as i128) + 1)
        - pre as i128 - post as i128 + extra as i128
}

/// The result of a transposed convolution, brought to the height and width that the options or the
/// output operand ask for. Where its extents do not fit in 32 bits, the conversation stops.
#[verifier::opaque]
pub open spec fn adjusted(
    n: Run,
    graph: GraphInfo,
    op: Operation,
    t: Tensor,
    kernel: (i32, i32),
    output_maps: i32,
) -> (Run, Tensor) {
    let id = op.inputs@[0];
    let plan = conv_plan(op.kind);
    let target = deconv_target(graph, op, plan.nhwc, output_maps);
    let goal = target->0;
    if id < graph.operands@.len() && graph.operands@[id as int].descriptor.shape@.len() == 4 && target is Some && goal.0 > 0 && goal.1 > 0 {
        let shape = graph.operands@[id as int].descriptor.shape@;
        let (h, w) = deconv_extents(
            spatial_sizes(shape, plan.nhwc),
            kernel,
            plan,
            output_padding(op.kind),
        );
        let n = if fits_i32(h) && fits_i32(w) {
            n
        } else {
            n.stop(HaltOf::OutOfRange)
        };
        fitted(n, t, small_size(shape[0]), (h as i32, w as i32), goal)
    } else {
        (n, t)
    }
}

pub broadcast proof fn stopped_adjusted(
    n: Run,
    graph: GraphInfo,
    op: Operation,
    t: Tensor,
    kernel: (i32, i32),
    output_maps: i32,
)
    requires
        n.halt is Some,
    ensures
        (#[trigger] adjusted(n, graph, op, t, kernel, output_maps)).0 == n,
{
    broadcast use {stopped_fitted};

    reveal(adjusted);
}

/// A transposed convolution layer with its settings, and padding behind for what the trimming could
/// not make up for.
#[verifier::opaque]
pub open spec fn deconvolved(
    n: Run,
    source: Tensor,
    f: Tensor,
    bias: Option<Tensor>,
    filter: FilterPlan,
    plan: ConvPlan,
    extra: (i32, i32),
) -> (Run, Tensor) {
    let (n, l) = n.ask(
        RequestOf::AddDeconvolution { input: source, output_maps: filter.output_maps as i64, kernel: widened(filter.kernel) },
        "Failed to add deconvolution (tensor weights): "@,
    );
    let (n, _) = n.ask(
        RequestOf::SetInput { layer: Layer { id: l }, index: 1, tensor: f },
        "convTranspose2d set_input(1) filter: "@,
    );
    let n = if let Some(b) = bias {
        n.ask(
            RequestOf::SetInput { layer: Layer { id: l }, index: 2, tensor: b },
            "convTranspose2d set_input(2) bias: "@,
        ).0
    } else {
        n
    };
    let (n, _) = n.ask(
        RequestOf::SetStride { layer: Layer { id: l }, stride: widened(plan.strides) },
        "convTranspose2d set_stride: "@,
    );
    let (n, _) = n.ask(
        RequestOf::SetDilation { layer: Layer { id: l }, dilation: widened(plan.dilations) },
        "convTranspose2d set_dilation: "@,
    );
    let (pre_h, post_h, more_h) = absorbed(plan.pre.0 as int, plan.post.0 as int, extra.0 as int);
    let (pre_w, post_w, more_w) = absorbed(plan.pre.1 as int, plan.post.1 as int, extra.1 as int);
    let (n, _) = n.ask(
        RequestOf::SetPrePadding { layer: Layer { id: l }, padding: (pre_h as i64, pre_w as i64) },
        "convTranspose2d set_pre_padding: "@,
    );
    let (n, _) = n.ask(
        RequestOf::SetPostPadding { layer: Layer { id: l }, padding: (
            post_h as i64,
            post_w as i64,
        ) },
        "convTranspose2d set_post_padding: "@,
    );
    let (n, _) = n.ask(
        RequestOf::SetNumGroups { layer: Layer { id: l }, groups: plan.groups as i64 },
        "convTranspose2d set_num_groups: "@,
    );
    let (n, t) = n.output(l, "Failed to get deconvolution output: "@);
    if more_h != 0 || more_w != 0 {
        n.padding(
            t,
            (0, 0),
            (more_h as i64, more_w as i64),
            "convTranspose2d outputPadding remainder: "@,
            "convTranspose2d outputPadding remainder output: "@,
        )
    } else {
        (n, t)
    }
}

pub broadcast proof fn stopped_deconvolved(
    n: Run,
    source: Tensor,
    f: Tensor,
    bias: Option<Tensor>,
    filter: FilterPlan,
    plan: ConvPlan,
    extra: (i32, i32),
)
    requires
        n.halt is Some,
    ensures
        (#[trigger] deconvolved(n, source, f, bias, filter, plan, extra)).0 == n,
{
    reveal(deconvolved);
}

/// A transposed convolution of `NCHW` or `NHWC` input. Padding trims the output; what the options
/// add to the output is taken from the padding as far as it goes.
pub open spec fn conv_transpose2d_op(
    n: Run,
    m: Map<u32, Tensor>,
    graph: GraphInfo,
    op: Operation,
) -> (Run, Map<u32, Tensor>) {
    let n = n.reject_if(
        !(op.kind is ConvTranspose2d),
        "add_conv_transpose2d_op: expected ConvTranspose2d operation"@,
    );
    let plan = conv_plan(op.kind);
    let (n, filter) = conv_filter(n, graph, op, " for convTranspose2d"@, "convTranspose2d"@);
    let half = type_or_float(graph, op.inputs@[0]) == DataType::Float16;
    let (n, x) = n.find(m, op.inputs@[0], "Input operand "@, " not found"@);
    let (n, source) = conv_source(n, x, plan.nhwc, half, "convTranspose2d"@);
    let (n, source) = n.identity(
        source,
        "convTranspose2d identity: "@,
        "convTranspose2d identity output: "@,
    );
    let (n, (f, bias)) = conv_parameters(n, m, graph, op, filter.half, "convTranspose2d"@);
    let (n, t) = deconvolved(n, source, f, bias, filter, plan, output_padding(op.kind));
    let (n, t) = adjusted(n, graph, op, t, filter.kernel, filter.output_maps);
    let (n, t) = conv_result(n, t, plan.nhwc, half, "convTranspose2d"@);
    store(n, m, op.outputs@[0], t)
}

pub broadcast group group_conv_stopped {
    stopped_check_bias,
    stopped_conv_source,
    stopped_conv_result,
    stopped_conv_weights,
    stopped_conv_filter,
    stopped_conv_parameters,
    stopped_convolved,
    stopped_fitted,
    stopped_adjusted,
    stopped_deconvolved,
}

impl TrtxConverter {
    /// The order in which a transpose of the axes makes `oihw` of a filter in the given layout.
    pub fn conv_dynamic_filter_first_transpose(filter_layout: &str) -> (r: Result<[i32; 4], GraphError>)
        ensures
            match r {
                Ok(order) => conv_filter_order(filter_layout@) == Some(order@),
                Err(e) => conv_filter_order(filter_layout@) is None && e
                    is ConversionFailed && e->ConversionFailed_format@ == "trtx"@
                    && e->ConversionFailed_reason@
                    == "Unsupported filter_layout for dynamic conv2d kernel: "@ + filter_layout@,
            },
    {
        proof {
            reveal(conv_filter_order);
        }
        let order = if same_text(filter_layout, "oihw") {
            [0i32, 1, 2, 3]
        } else if same_text(filter_layout, "hwio") {
            [3i32, 2, 0, 1]
        } else if same_text(filter_layout, "ohwi") {
            [0i32, 3, 1, 2]
        } else if same_text(filter_layout, "ihwo") {
            [3i32, 0, 1, 2]
        } else if same_text(filter_layout, "hwoi") {
            [2i32, 3, 0, 1]
        } else {
            return Err(
                GraphError::ConversionFailed {
                    format: say("trtx").text,
                    reason: say("Unsupported filter_layout for dynamic conv2d kernel: ").str(
                        filter_layout,
                    ).text,
                },
            );
        };
        proof {
            assert(order@ =~= conv_filter_order(filter_layout@)->0);
        }
        Ok(order)
    }

    /// The order in which a transpose of the axes makes `iohw` of a filter in the given layout.
    pub fn deconv_dynamic_filter_first_transpose(filter_layout: &str) -> (r: Result<[i32; 4], GraphError>)
        ensures
            match r {
                Ok(order) => deconv_filter_order(filter_layout@) == Some(order@),
                Err(e) => deconv_filter_order(filter_layout@) is None && e
                    is ConversionFailed && e->ConversionFailed_format@ == "trtx"@
                    && e->ConversionFailed_reason@
                    == "Unsupported filter_layout for dynamic convTranspose2d kernel: "@ + filter_layout@,
            },
    {
        proof {
            reveal(deconv_filter_order);
        }
        let order = if same_text(filter_layout, "iohw") {
            [0i32, 1, 2, 3]
        } else if same_text(filter_layout, "oihw") {
            [1i32, 0, 2, 3]
        } else if same_text(filter_layout, "hwio") {
            [2i32, 3, 0, 1]
        } else if same_text(filter_layout, "ohwi") {
            [3i32, 0, 1, 2]
        } else if same_text(filter_layout, "ihwo") {
            [0i32, 3, 1, 2]
        } else if same_text(filter_layout, "hwoi") {
            [3i32, 2, 0, 1]
        } else {
            return Err(
                GraphError::ConversionFailed {
                    format: say("trtx").text,
                    reason: say("Unsupported filter_layout for dynamic convTranspose2d kernel: ").str(
                        filter_layout,
                    ).text,
                },
            );
        };
        proof {
            assert(order@ =~= deconv_filter_order(filter_layout@)->0);
        }
        Ok(order)
    }

    /// Refuses a bias that TensorRT cannot add.
    pub fn check_bias(
        net: &Network,
        graph: &GraphInfo,
        bias: Option<u32>,
        name: &str,
    ) -> (r: Result<(), Halt>)
        ensures
            outcome(net@, r) == check_bias(net@, *graph, bias, name@).0,
            r matches Ok(v) ==> v == check_bias(net@, *graph, bias, name@).1,
    {
        proof {
            reveal(check_bias);
            broadcast use group_conv_stopped;

        }
        if let Some(id) = bias {
            let o = find_operand(graph, id, "Bias operand ", " not found")?;
            if !matches!(o.descriptor.data_type, DataType::Float32 | DataType::Float16) {
                return Err(
                    say(name).str(" bias data type ").str(o.descriptor.data_type.name()).str(
                        " not supported (use float32 or float16)",
                    ).halt(),
                );
            }
        }
        Ok(())
    }

    /// Brings the input of a convolution to single precision, with the channels second.
    pub fn conv_source(
        net: &mut Network,
        x: Tensor,
        nhwc: bool,
        half: bool,
        name: &str,
    ) -> (r: Result<Tensor, Halt>)
        ensures
            gives(final(net)@, r, conv_source(old(net)@, x, nhwc, half, name@)),
    {
        proof {
            reveal(conv_source);
            broadcast use group_conv_stopped;

        }
        let t = if nhwc {
            net.transpose(
                x,
                quad(0, 3, 1, 2),
                say(name).str(" NHWC->NCHW shuffle: ").text.as_str(),
                say(name).str(" set_first_transpose NHWC->NCHW: ").text.as_str(),
                say(name).str(" NHWC shuffle output: ").text.as_str(),
            )?
        } else {
            x
        };
        if half {
            net.cast(
                t,
                TrtDataType::kFLOAT,
                say(name).str(" Half->Float cast: ").text.as_str(),
                say(name).str(" cast output: ").text.as_str(),
            )
        } else {
            Ok(t)
        }
    }

    /// Brings the result of a convolution to the precision and the layout of its input.
    pub fn conv_result(
        net: &mut Network,
        x: Tensor,
        nhwc: bool,
        half: bool,
        name: &str,
    ) -> (r: Result<Tensor, Halt>)
        ensures
            gives(final(net)@, r, conv_result(old(net)@, x, nhwc, half, name@)),
    {
        proof {
            reveal(conv_result);
            broadcast use group_conv_stopped;

        }
        let t = if half {
            net.cast(
                x,
                TrtDataType::kHALF,
                say(name).str(" Float->Half cast: ").text.as_str(),
                say(name).str(" cast output: ").text.as_str(),
            )?
        } else {
            x
        };
        if nhwc {
            net.transpose(
                t,
                quad(0, 2, 3, 1),
                say(name).str(" NCHW->NHWC shuffle: ").text.as_str(),
                say(name).str(" set_first_transpose NCHW->NHWC: ").text.as_str(),
                say(name).str(" NHWC output shuffle: ").text.as_str(),
            )
        } else {
            Ok(t)
        }
    }

    /// Brings the filter and the bias of a convolution to single precision, and the axes of the
    /// filter to the given order.
    pub fn conv_weights(
        net: &mut Network,
        filter: Tensor,
        filter_half: bool,
        bias: Option<Tensor>,
        bias_half: bool,
        order: Option<[i32; 4]>,
        name: &str,
    ) -> (r: Result<(Tensor, Option<Tensor>), Halt>)
        ensures
            gives(
                final(net)@,
                r,
                conv_weights(old(net)@, filter, filter_half, bias, bias_half, order_view(order), name@),
            ),
    {
        proof {
            reveal(conv_weights);
            broadcast use group_conv_stopped;

        }
        let f = if filter_half {
            net.cast(
                filter,
                TrtDataType::kFLOAT,
                say(name).str(" filter Half->Float cast: ").text.as_str(),
                say(name).str(" filter cast output: ").text.as_str(),
            )?
        } else {
            filter
        };
        let b = if let Some(t) = bias {
            if bias_half {
                let t = net.cast(
                    t,
                    TrtDataType::kFLOAT,
                    say(name).str(" bias Half->Float cast: ").text.as_str(),
                    say(name).str(" bias cast output: ").text.as_str(),
                )?;
                Some(t)
            } else {
                bias
            }
        } else {
            bias
        };
        let f = if let Some(order) = order {
            net.transpose(
                f,
                quad(order[0], order[1], order[2], order[3]),
                say(name).str(" filter layout shuffle: ").text.as_str(),
                say(name).str(" filter set_first_transpose: ").text.as_str(),
                say(name).str(" filter shuffle output: ").text.as_str(),
            )?
        } else {
            f
        };
        Ok((f, b))
    }

    /// Checks the filter and the bias of a convolution.
    pub fn conv_filter(
        net: &Network,
        graph: &GraphInfo,
        op: &Operation,
        purpose: &str,
        name: &str,
    ) -> (r: Result<FilterPlan, Halt>)
        requires
            op.inputs@.len() >= 2,
        ensures
            outcome(net@, r) == conv_filter(net@, *graph, *op, purpose@, name@).0,
            r matches Ok(v) ==> v == conv_filter(net@, *graph, *op, purpose@, name@).1,
    {
        proof {
            reveal(conv_filter);
            broadcast use group_conv_stopped;

        }
        let filter = find_operand(graph, op.inputs[1], "Filter operand ", " not found")?;
        let t = filter.descriptor.data_type;
        let sizes = filter.descriptor.static_or_max_shape();
        if sizes.len() != 4 {
            return Err(
                say("Expected 4D filter shape").str(purpose).str(", got ").num(sizes.len()).str("D")
                    .halt(),
            );
        }
        let order = match filter_order_of(&op.kind) {
            Some(order) => order, None => {
                return Err(
                    say("Unsupported filter_layout: ").str(conv_filter_layout_of(&op.kind)).halt(),
                );
            },
        };
        let plan = conv_plan_of(&op.kind);
        proof {
            product_bounds(sizes@[order@[1] as int] as i32 as int, plan.groups as int);
        }
        let maps: i128 = if matches!(op.kind, OperationKind::ConvTranspose2d { .. }) {
            (sizes[order[1] as usize] as i32) as i128 * plan.groups as i128
        } else {
            (sizes[order[0] as usize] as i32) as i128
        };
        if maps < i32::MIN as i128 || maps > i32::MAX as i128 {
            return Err(HaltOf::OutOfRange);
        }
        if !matches!(t, DataType::Float32 | DataType::Float16) {
            return Err(
                say(name).str(" filter data type ").str(t.name()).str(
                    " not supported (use float32 or float16)",
                ).halt(),
            );
        }
        Self::check_bias(net, graph, plan.bias, name)?;
        Ok(
            FilterPlan { output_maps: maps as i32, kernel: (
                sizes[order[2] as usize] as i32,
                sizes[order[3] as usize] as i32,
            ), half: t == DataType::Float16 },
        )
    }

    /// Brings the filter and the bias of a convolution to the form that TensorRT takes.
    fn conv_parameters(
        net: &mut Network,
        tensors: &TensorMap,
        graph: &GraphInfo,
        operation: &Operation,
        half: bool,
        name: &str,
    ) -> (r: Result<(Tensor, Option<Tensor>), Halt>)
        requires
            operation.inputs@.len() >= 2,
        ensures
            gives(
                final(net)@,
                r,
                conv_parameters(old(net)@, tensors@, *graph, *operation, half, name@),
            ),
    {
        proof {
            broadcast use group_conv_stopped;

            reveal(conv_parameters);
        }
        let f = tensors.find(operation.inputs[1], "Filter operand ", " tensor not found")?;
        let bias = conv_plan_of(&operation.kind).bias;
        let bias_half = match bias {
            Some(id) => type_or_float_of(graph, id) == DataType::Float16, None => false,
        };
        Self::conv_weights(
            net,
            f,
            half,
            tensor_of_operand(tensors, bias),
            bias_half,
            filter_turn_of(&operation.kind),
            name,
        )
    }

    /// Adds a convolution layer with its settings.
    pub fn convolved(
        net: &mut Network,
        source: Tensor,
        f: Tensor,
        bias: Option<Tensor>,
        filter: FilterPlan,
        plan: ConvPlan,
    ) -> (r: Result<Tensor, Halt>)
        ensures
            gives(final(net)@, r, convolved(old(net)@, source, f, bias, filter, plan)),
    {
        proof {
            reveal(convolved);
            broadcast use group_conv_stopped;

        }
        let l: usize = net.ask(
            Request::AddConvolution { input: source, output_maps: filter.output_maps, kernel: filter.kernel },
            "Failed to add convolution (tensor weights): ",
        )?;
        net.ask(
            Request::SetInput { layer: Layer { id: l }, index: 1, tensor: f },
            "Conv2d set_input(1) filter: ",
        )?;
        if let Some(b) = bias {
            net.ask(
                Request::SetInput { layer: Layer { id: l }, index: 2, tensor: b },
                "Conv2d set_input(2) bias: ",
            )?;
        }
        net.tell(Request::SetStride { layer: Layer { id: l }, stride: widened_of(plan.strides) })?;
        net.tell(Request::SetPadding { layer: Layer { id: l }, padding: (0, 0) })?;
        net.tell(
            Request::SetDilation { layer: Layer { id: l }, dilation: widened_of(plan.dilations) },
        )?;
        net.tell(Request::SetNumGroups { layer: Layer { id: l }, groups: plan.groups as i64 })?;
        net.output(l, "Failed to get convolution output: ")
    }

    /// Adds a convolution.
    pub fn add_conv2d_op(
        graph: &GraphInfo,
        net: &mut Network,
        tensors: &mut TensorMap,
        operation: &Operation,
    ) -> (r: Result<(), Halt>)
        requires
            operation.inputs@.len() >= 2,
            operation.outputs@.len() >= 1,
        ensures
            does(
                final(net)@,
                r,
                final(tensors)@,
                conv2d_op(old(net)@, old(tensors)@, *graph, *operation),
            ),
    {
        proof {
            broadcast use group_conv_stopped;

        }
        if !matches!(operation.kind, OperationKind::Conv2d { .. }) {
            return Err(say("add_conv2d_op: expected Conv2d operation").halt());
        }
        let plan = conv_plan_of(&operation.kind);
        let filter = Self::conv_filter(net, graph, operation, "", "Conv2d")?;
        let half = type_or_float_of(graph, operation.inputs[0]) == DataType::Float16;
        let x = tensors.find(operation.inputs[0], "Input operand ", " not found")?;
        let source = Self::conv_source(net, x, plan.nhwc, half, "Conv2d")?;
        let source = if plan.pre.0 == 0 && plan.pre.1 == 0 && plan.post.0 == 0 && plan.post.1 == 0 {
            net.identity(
                source,
                "Failed to add identity layer: ",
                "Failed to get identity output: ",
            )?
        } else {
            net.padding(
                source,
                widened_of(plan.pre),
                widened_of(plan.post),
                "Failed to add padding layer: ",
                "Failed to get padding layer output: ",
            )?
        };
        let (f, bias) = Self::conv_parameters(
            net,
            tensors,
            graph,
            operation,
            filter.half,
            "Conv2d",
        )?;
        let nhwc = plan.nhwc;
        let t = Self::convolved(net, source, f, bias, filter, plan)?;
        let t = Self::conv_result(net, t, nhwc, half, "Conv2d")?;
        tensors.insert(operation.outputs[0], t);
        Ok(())
    }

    /// Cuts and pads the result of a transposed convolution.
    pub fn fitted(
        net: &mut Network,
        t: Tensor,
        batch: i32,
        current: (i32, i32),
        target: (i32, i32, i32),
    ) -> (r: Result<Tensor, Halt>)
        ensures
            gives(final(net)@, r, fitted(old(net)@, t, batch, current, target)),
    {
        proof {
            reveal(fitted);
            broadcast use group_conv_stopped;

        }
        let (h, w) = current;
        let slice_h: i32 = if h < target.0 {
            h
        } else {
            target.0
        };
        let slice_w: i32 = if w < target.1 {
            w
        } else {
            target.1
        };
        let t = if slice_h < h || slice_w < w {
            net.slice(
                t,
                quad64(0, 0, 0, 0),
                quad64(batch as i64, target.2 as i64, slice_h as i64, slice_w as i64),
                quad64(1, 1, 1, 1),
                "convTranspose2d outputSizes slice: ",
                "convTranspose2d outputSizes slice output: ",
            )?
        } else {
            t
        };
        let pad: (i64, i64) = (target.0 as i64 - slice_h as i64, target.1 as i64 - slice_w as i64);
        if pad.0 > 0 || pad.1 > 0 {
            net.padding(
                t,
                (0, 0),
                pad,
                "convTranspose2d outputSizes pad: ",
                "convTranspose2d outputSizes pad output: ",
            )
        } else {
            Ok(t)
        }
    }

    /// Brings the result of a transposed convolution to the height and width it must have.
    pub fn adjusted(
        net: &mut Network,
        graph: &GraphInfo,
        op: &Operation,
        t: Tensor,
        kernel: (i32, i32),
        output_maps: i32,
    ) -> (r: Result<Tensor, Halt>)
        requires
            op.inputs@.len() >= 1,
            op.outputs@.len() >= 1,
        ensures
            gives(final(net)@, r, adjusted(old(net)@, *graph, *op, t, kernel, output_maps)),
    {
        proof {
            reveal(adjusted);
            broadcast use group_conv_stopped;

        }
        let plan = conv_plan_of(&op.kind);
        if let Some(target) = deconv_target_of(graph, op, plan.nhwc, output_maps) {
            if let Some(o) = graph.operand(op.inputs[0]) {
                let shape = &o.descriptor.shape;
                if shape.len() == 4 && target.0 > 0 && target.1 > 0 {
                    let (input_h, input_w): (i32, i32) = if plan.nhwc {
                        (small_size_of(&shape[1]), small_size_of(&shape[2]))
                    } else {
                        (small_size_of(&shape[2]), small_size_of(&shape[3]))
                    };
                    let extra = output_padding_of(&op.kind);
                    let h: i128 = deconv_extent_of(
                        input_h,
                        plan.strides.0,
                        kernel.0,
                        plan.dilations.0,
                        plan.pre.0,
                        plan.post.0,
                        extra.0,
                    );
                    let w: i128 = deconv_extent_of(
                        input_w,
                        plan.strides.1,
                        kernel.1,
                        plan.dilations.1,
                        plan.pre.1,
                        plan.post.1,
                        extra.1,
                    );
                    if h < i32::MIN as i128 || h > i32::MAX as i128 || w < i32::MIN as i128 || w > i32::MAX as i128 {
                        return Err(HaltOf::OutOfRange);
                    }
                    return Self::fitted(
                        net,
                        t,
                        small_size_of(&shape[0]),
                        (h as i32, w as i32),
                        target,
                    );
                }
            }
        }
        Ok(t)
    }

    /// Adds a transposed convolution layer with its settings.
    pub fn deconvolved(
        net: &mut Network,
        source: Tensor,
        f: Tensor,
        bias: Option<Tensor>,
        filter: FilterPlan,
        plan: ConvPlan,
        extra: (i32, i32),
    ) -> (r: Result<Tensor, Halt>)
        ensures
            gives(final(net)@, r, deconvolved(old(net)@, source, f, bias, filter, plan, extra)),
    {
        proof {
            reveal(deconvolved);
            broadcast use group_conv_stopped;

        }
        let l: usize = net.ask(
            Request::AddDeconvolution { input: source, output_maps: filter.output_maps as i64, kernel: widened_of(filter.kernel) },
            "Failed to add deconvolution (tensor weights): ",
        )?;
        net.ask(
            Request::SetInput { layer: Layer { id: l }, index: 1, tensor: f },
            "convTranspose2d set_input(1) filter: ",
        )?;
        if let Some(b) = bias {
            net.ask(
                Request::SetInput { layer: Layer { id: l }, index: 2, tensor: b },
                "convTranspose2d set_input(2) bias: ",
            )?;
        }
        net.ask(
            Request::SetStride { layer: Layer { id: l }, stride: widened_of(plan.strides) },
            "convTranspose2d set_stride: ",
        )?;
        net.ask(
            Request::SetDilation { layer: Layer { id: l }, dilation: widened_of(plan.dilations) },
            "convTranspose2d set_dilation: ",
        )?;
        let (pre_h, post_h, more_h): (i64, i64, i64) = absorbed_of(
            plan.pre.0,
            plan.post.0,
            extra.0,
        );
        let (pre_w, post_w, more_w): (i64, i64, i64) = absorbed_of(
            plan.pre.1,
            plan.post.1,
            extra.1,
        );
        net.ask(
            Request::SetPrePadding { layer: Layer { id: l }, padding: (pre_h, pre_w) },
            "convTranspose2d set_pre_padding: ",
        )?;
        net.ask(
            Request::SetPostPadding { layer: Layer { id: l }, padding: (post_h, post_w) },
            "convTranspose2d set_post_padding: ",
        )?;
        net.ask(
            Request::SetNumGroups { layer: Layer { id: l }, groups: plan.groups as i64 },
            "convTranspose2d set_num_groups: ",
        )?;
        let t = net.output(l, "Failed to get deconvolution output: ")?;
        if more_h != 0 || more_w != 0 {
            net.padding(
                t,
                (0, 0),
                (more_h, more_w),
                "convTranspose2d outputPadding remainder: ",
                "convTranspose2d outputPadding remainder output: ",
            )
        } else {
            Ok(t)
        }
    }

    /// Adds a transposed convolution.
    pub fn add_conv_transpose2d_op(
        graph: &GraphInfo,
        net: &mut Network,
        tensors: &mut TensorMap,
        operation: &Operation,
    ) -> (r: Result<(), Halt>)
        requires
            operation.inputs@.len() >= 2,
            operation.outputs@.len() >= 1,
        ensures
            does(
                final(net)@,
                r,
                final(tensors)@,
                conv_transpose2d_op(old(net)@, old(tensors)@, *graph, *operation),
            ),
    {
        proof {
            broadcast use group_conv_stopped;

        }
        if !matches!(operation.kind, OperationKind::ConvTranspose2d { .. }) {
            return Err(say("add_conv_transpose2d_op: expected ConvTranspose2d operation").halt());
        }
        let plan = conv_plan_of(&operation.kind);
        let nhwc = plan.nhwc;
        let filter = Self::conv_filter(
            net,
            graph,
            operation,
            " for convTranspose2d",
            "convTranspose2d",
        )?;
        let (kernel, output_maps): ((i32, i32), i32) = (filter.kernel, filter.output_maps);
        let half = type_or_float_of(graph, operation.inputs[0]) == DataType::Float16;
        let x = tensors.find(operation.inputs[0], "Input operand ", " not found")?;
        let source = Self::conv_source(net, x, nhwc, half, "convTranspose2d")?;
        let source = net.identity(
            source,
            "convTranspose2d identity: ",
            "convTranspose2d identity output: ",
        )?;
        let (f, bias) = Self::conv_parameters(
            net,
            tensors,
            graph,
            operation,
            filter.half,
            "convTranspose2d",
        )?;
        let t = Self::deconvolved(
            net,
            source,
            f,
            bias,
            filter,
            plan,
            output_padding_of(&operation.kind),
        )?;
        let t = Self::adjusted(net, graph, operation, t, kernel, output_maps)?;
        let t = Self::conv_result(net, t, nhwc, half, "convTranspose2d")?;
        tensors.insert(operation.outputs[0], t);
        Ok(())
    }
}

} // verus!
