//! The common ways of adding a layer and taking its output tensor, as steps of a conversation. A
//! label stands before the message of the call that fails.

use crate::trtx::session::{group_stopped, RequestOf, RequestView, Run, WeightsOf};
use crate::trtx::types::{
    ActivationType, ConstantStorage, ElementWiseOperation, Layer, MatrixOperation, ReduceOperation,
    Tensor, TrtDataType, UnaryOperation,
};
use vstd::prelude::*;

verus! {

broadcast use group_stopped;

impl Run {
    /// Takes the first output of a layer.
    #[verifier::opaque]
    pub open spec fn output(self, layer: usize, label: Seq<char>) -> (Run, Tensor) {
        let (n, t) = self.ask(RequestOf::Output { layer: Layer { id: layer }, index: 0 }, label);
        (n, Tensor { id: t })
    }

    /// Adds a layer and takes its first output.
    #[verifier::opaque]
    pub open spec fn layer(
        self,
        request: RequestView,
        add_label: Seq<char>,
        output_label: Seq<char>,
    ) -> (Run, Tensor) {
        let (n, l) = self.ask(request, add_label);
        n.output(l, output_label)
    }

    /// A copy of `input`.
    #[verifier::opaque]
    pub open spec fn identity(
        self,
        input: Tensor,
        add_label: Seq<char>,
        output_label: Seq<char>,
    ) -> (Run, Tensor) {
        self.layer(RequestOf::AddIdentity { input }, add_label, output_label)
    }

    /// `input` with the element type `dtype`.
    #[verifier::opaque]
    pub open spec fn cast(
        self,
        input: Tensor,
        dtype: TrtDataType,
        add_label: Seq<char>,
        output_label: Seq<char>,
    ) -> (Run, Tensor) {
        self.layer(RequestOf::AddCast { input, dtype }, add_label, output_label)
    }

    /// `a` and `b`, combined element by element.
    #[verifier::opaque]
    pub open spec fn elementwise(
        self,
        a: Tensor,
        b: Tensor,
        op: ElementWiseOperation,
        add_label: Seq<char>,
        output_label: Seq<char>,
    ) -> (Run, Tensor) {
        self.layer(RequestOf::AddElementwise { a, b, op }, add_label, output_label)
    }

    /// An activation function of `input`.
    #[verifier::opaque]
    pub open spec fn activation(
        self,
        input: Tensor,
        kind: ActivationType,
        add_label: Seq<char>,
        output_label: Seq<char>,
    ) -> (Run, Tensor) {
        self.layer(RequestOf::AddActivation { input, kind }, add_label, output_label)
    }

    /// A function of each element of `input`.
    #[verifier::opaque]
    pub open spec fn unary(
        self,
        input: Tensor,
        op: UnaryOperation,
        add_label: Seq<char>,
        output_label: Seq<char>,
    ) -> (Run, Tensor) {
        self.layer(RequestOf::AddUnary { input, op }, add_label, output_label)
    }

    /// A reduction of `input` over the axes of a mask.
    #[verifier::opaque]
    pub open spec fn reduce(
        self,
        input: Tensor,
        op: ReduceOperation,
        axes: u32,
        keep_dims: bool,
        add_label: Seq<char>,
        output_label: Seq<char>,
    ) -> (Run, Tensor) {
        self.layer(RequestOf::AddReduce { input, op, axes, keep_dims }, add_label, output_label)
    }

    /// A slice of `input`.
    #[verifier::opaque]
    pub open spec fn slice(
        self,
        input: Tensor,
        start: Seq<i64>,
        size: Seq<i64>,
        stride: Seq<i64>,
        add_label: Seq<char>,
        output_label: Seq<char>,
    ) -> (Run, Tensor) {
        self.layer(RequestOf::AddSlice { input, start, size, stride }, add_label, output_label)
    }

    /// `on_true` where `condition` holds, `on_false` elsewhere.
    #[verifier::opaque]
    pub open spec fn select(
        self,
        condition: Tensor,
        on_true: Tensor,
        on_false: Tensor,
        add_label: Seq<char>,
        output_label: Seq<char>,
    ) -> (Run, Tensor) {
        self.layer(RequestOf::AddSelect { condition, on_true, on_false }, add_label, output_label)
    }

    /// `input` times `scale`, as `dtype`.
    #[verifier::opaque]
    pub open spec fn dequantize(
        self,
        input: Tensor,
        scale: Tensor,
        dtype: TrtDataType,
        add_label: Seq<char>,
        output_label: Seq<char>,
    ) -> (Run, Tensor) {
        self.layer(RequestOf::AddDequantize { input, scale, dtype }, add_label, output_label)
    }

    /// `input` with zeros around its last two axes.
    #[verifier::opaque]
    pub open spec fn padding(
        self,
        input: Tensor,
        pre: (i64, i64),
        post: (i64, i64),
        add_label: Seq<char>,
        output_label: Seq<char>,
    ) -> (Run, Tensor) {
        self.layer(RequestOf::AddPadding { input, pre, post }, add_label, output_label)
    }

    /// The matrix product of `a` and `b`.
    #[verifier::opaque]
    pub open spec fn matrix_multiply(
        self,
        a: Tensor,
        op_a: MatrixOperation,
        b: Tensor,
        op_b: MatrixOperation,
        add_label: Seq<char>,
        output_label: Seq<char>,
    ) -> (Run, Tensor) {
        self.layer(RequestOf::AddMatrixMultiply { a, op_a, b, op_b }, add_label, output_label)
    }

    /// Adds a layer, names it, and takes its first output. Whether the name is taken does not
    /// matter.
    #[verifier::opaque]
    pub open spec fn named_layer(
        self,
        request: RequestView,
        name: Seq<char>,
        add_label: Seq<char>,
        output_label: Seq<char>,
    ) -> (Run, Tensor) {
        let (n, l) = self.ask(request, add_label);
        let n = n.tell(RequestOf::SetLayerName { layer: Layer { id: l }, name });
        n.output(l, output_label)
    }

    /// Adds a constant of which the network keeps a copy.
    #[verifier::opaque]
    pub open spec fn add_constant(
        self,
        dims: Seq<i64>,
        bytes: Seq<u8>,
        dtype: TrtDataType,
        label: Seq<char>,
    ) -> (Run, usize) {
        self.ask(
            RequestOf::AddConstant {
                dims,
                weights: WeightsOf::Bytes(bytes),
                dtype,
                name: None,
                storage: ConstantStorage::Copied,
            },
            label,
        )
    }

    /// A constant of which the network keeps a copy.
    #[verifier::opaque]
    pub open spec fn constant(
        self,
        dims: Seq<i64>,
        bytes: Seq<u8>,
        dtype: TrtDataType,
        add_label: Seq<char>,
        output_label: Seq<char>,
    ) -> (Run, Tensor) {
        let (n, l) = self.add_constant(dims, bytes, dtype, add_label);
        n.output(l, output_label)
    }

    /// Adds a constant that the network takes over.
    #[verifier::opaque]
    pub open spec fn add_owned_constant(
        self,
        dims: Seq<i64>,
        bytes: Seq<u8>,
        dtype: TrtDataType,
        label: Seq<char>,
    ) -> (Run, usize) {
        self.ask(
            RequestOf::AddConstant {
                dims,
                weights: WeightsOf::Bytes(bytes),
                dtype,
                name: None,
                storage: ConstantStorage::Owned,
            },
            label,
        )
    }

    /// A shuffle that gives `input` the dimensions `dims`.
    #[verifier::opaque]
    pub open spec fn reshape(
        self,
        input: Tensor,
        dims: Seq<i64>,
        add_label: Seq<char>,
        set_label: Seq<char>,
        output_label: Seq<char>,
    ) -> (Run, Tensor) {
        let (n, l) = self.ask(RequestOf::AddShuffle { input }, add_label);
        let (n, _) = n.ask(
            RequestOf::SetReshapeDimensions { layer: Layer { id: l }, dims },
            set_label,
        );
        n.output(l, output_label)
    }

    /// A shuffle that permutes the axes of `input`: output axis `i` is input axis `order[i]`.
    #[verifier::opaque]
    pub open spec fn transpose(
        self,
        input: Tensor,
        order: Seq<i32>,
        add_label: Seq<char>,
        set_label: Seq<char>,
        output_label: Seq<char>,
    ) -> (Run, Tensor) {
        let (n, l) = self.ask(RequestOf::AddShuffle { input }, add_label);
        let (n, _) = n.ask(
            RequestOf::SetFirstTranspose { layer: Layer { id: l }, order },
            set_label,
        );
        n.output(l, output_label)
    }

    /// A resize of `input` to the dimensions `dims`.
    #[verifier::opaque]
    pub open spec fn resize(
        self,
        input: Tensor,
        dims: Seq<i64>,
        add_label: Seq<char>,
        output_label: Seq<char>,
    ) -> (Run, Tensor) {
        let (n, l) = self.ask(RequestOf::AddResize { input }, add_label);
        let n = n.tell(RequestOf::SetOutputDimensions { layer: Layer { id: l }, dims });
        n.output(l, output_label)
    }

    /// A concatenation of `inputs` along `axis`.
    #[verifier::opaque]
    pub open spec fn concat(
        self,
        inputs: Seq<Tensor>,
        axis: i32,
        add_label: Seq<char>,
        output_label: Seq<char>,
    ) -> (Run, Tensor) {
        let (n, l) = self.ask(RequestOf::AddConcatenation { inputs }, add_label);
        let n = n.tell(RequestOf::SetAxis { layer: Layer { id: l }, axis });
        n.output(l, output_label)
    }
}

pub broadcast proof fn stopped_output(
    n: Run,
    layer: usize,
    label: Seq<char>,
)
    requires
        n.halt is Some,
    ensures
        (#[trigger] n.output(layer, label)).0 == n,
{
    reveal(Run::output);
    reveal(Run::layer);
    reveal(Run::add_constant);
}

pub broadcast proof fn stopped_layer(
    n: Run,
    request: RequestView,
    add_label: Seq<char>,
    output_label: Seq<char>,
)
    requires
        n.halt is Some,
    ensures
        (#[trigger] n.layer(request, add_label, output_label)).0 == n,
{
    reveal(Run::layer);
    reveal(Run::output);
    reveal(Run::add_constant);
}

pub broadcast proof fn stopped_identity(
    n: Run,
    input: Tensor,
    add_label: Seq<char>,
    output_label: Seq<char>,
)
    requires
        n.halt is Some,
    ensures
        (#[trigger] n.identity(input, add_label, output_label)).0 == n,
{
    reveal(Run::identity);
    reveal(Run::output);
    reveal(Run::layer);
    reveal(Run::add_constant);
}

pub broadcast proof fn stopped_cast(
    n: Run,
    input: Tensor,
    dtype: TrtDataType,
    add_label: Seq<char>,
    output_label: Seq<char>,
)
    requires
        n.halt is Some,
    ensures
        (#[trigger] n.cast(input, dtype, add_label, output_label)).0 == n,
{
    reveal(Run::cast);
    reveal(Run::output);
    reveal(Run::layer);
    reveal(Run::add_constant);
}

pub broadcast proof fn stopped_elementwise(
    n: Run,
    a: Tensor,
    b: Tensor,
    op: ElementWiseOperation,
    add_label: Seq<char>,
    output_label: Seq<char>,
)
    requires
        n.halt is Some,
    ensures
        (#[trigger] n.elementwise(a, b, op, add_label, output_label)).0 == n,
{
    reveal(Run::elementwise);
    reveal(Run::output);
    reveal(Run::layer);
    reveal(Run::add_constant);
}

pub broadcast proof fn stopped_activation(
    n: Run,
    input: Tensor,
    kind: ActivationType,
    add_label: Seq<char>,
    output_label: Seq<char>,
)
    requires
        n.halt is Some,
    ensures
        (#[trigger] n.activation(input, kind, add_label, output_label)).0 == n,
{
    reveal(Run::activation);
    reveal(Run::output);
    reveal(Run::layer);
    reveal(Run::add_constant);
}

pub broadcast proof fn stopped_unary(
    n: Run,
    input: Tensor,
    op: UnaryOperation,
    add_label: Seq<char>,
    output_label: Seq<char>,
)
    requires
        n.halt is Some,
    ensures
        (#[trigger] n.unary(input, op, add_label, output_label)).0 == n,
{
    reveal(Run::unary);
    reveal(Run::output);
    reveal(Run::layer);
    reveal(Run::add_constant);
}

pub broadcast proof fn stopped_reduce(
    n: Run,
    input: Tensor,
    op: ReduceOperation,
    axes: u32,
    keep_dims: bool,
    add_label: Seq<char>,
    output_label: Seq<char>,
)
    requires
        n.halt is Some,
    ensures
        (#[trigger] n.reduce(input, op, axes, keep_dims, add_label, output_label)).0 == n,
{
    reveal(Run::reduce);
    reveal(Run::output);
    reveal(Run::layer);
    reveal(Run::add_constant);
}

pub broadcast proof fn stopped_slice(
    n: Run,
    input: Tensor,
    start: Seq<i64>,
    size: Seq<i64>,
    stride: Seq<i64>,
    add_label: Seq<char>,
    output_label: Seq<char>,
)
    requires
        n.halt is Some,
    ensures
        (#[trigger] n.slice(input, start, size, stride, add_label, output_label)).0 == n,
{
    reveal(Run::slice);
    reveal(Run::output);
    reveal(Run::layer);
    reveal(Run::add_constant);
}

pub broadcast proof fn stopped_select(
    n: Run,
    condition: Tensor,
    on_true: Tensor,
    on_false: Tensor,
    add_label: Seq<char>,
    output_label: Seq<char>,
)
    requires
        n.halt is Some,
    ensures
        (#[trigger] n.select(condition, on_true, on_false, add_label, output_label)).0 == n,
{
    reveal(Run::select);
    reveal(Run::output);
    reveal(Run::layer);
    reveal(Run::add_constant);
}

pub broadcast proof fn stopped_dequantize(
    n: Run,
    input: Tensor,
    scale: Tensor,
    dtype: TrtDataType,
    add_label: Seq<char>,
    output_label: Seq<char>,
)
    requires
        n.halt is Some,
    ensures
        (#[trigger] n.dequantize(input, scale, dtype, add_label, output_label)).0 == n,
{
    reveal(Run::dequantize);
    reveal(Run::output);
    reveal(Run::layer);
    reveal(Run::add_constant);
}

pub broadcast proof fn stopped_padding(
    n: Run,
    input: Tensor,
    pre: (i64, i64),
    post: (i64, i64),
    add_label: Seq<char>,
    output_label: Seq<char>,
)
    requires
        n.halt is Some,
    ensures
        (#[trigger] n.padding(input, pre, post, add_label, output_label)).0 == n,
{
    reveal(Run::padding);
    reveal(Run::output);
    reveal(Run::layer);
    reveal(Run::add_constant);
}

pub broadcast proof fn stopped_matrix_multiply(
    n: Run,
    a: Tensor,
    op_a: MatrixOperation,
    b: Tensor,
    op_b: MatrixOperation,
    add_label: Seq<char>,
    output_label: Seq<char>,
)
    requires
        n.halt is Some,
    ensures
        (#[trigger] n.matrix_multiply(a, op_a, b, op_b, add_label, output_label)).0 == n,
{
    reveal(Run::matrix_multiply);
    reveal(Run::output);
    reveal(Run::layer);
    reveal(Run::add_constant);
}

pub broadcast proof fn stopped_named_layer(
    n: Run,
    request: RequestView,
    name: Seq<char>,
    add_label: Seq<char>,
    output_label: Seq<char>,
)
    requires
        n.halt is Some,
    ensures
        (#[trigger] n.named_layer(request, name, add_label, output_label)).0 == n,
{
    reveal(Run::named_layer);
    reveal(Run::output);
}

pub broadcast proof fn stopped_add_constant(
    n: Run,
    dims: Seq<i64>,
    bytes: Seq<u8>,
    dtype: TrtDataType,
    label: Seq<char>,
)
    requires
        n.halt is Some,
    ensures
        (#[trigger] n.add_constant(dims, bytes, dtype, label)).0 == n,
{
    reveal(Run::add_constant);
    reveal(Run::output);
    reveal(Run::layer);
}

pub broadcast proof fn stopped_constant(
    n: Run,
    dims: Seq<i64>,
    bytes: Seq<u8>,
    dtype: TrtDataType,
    add_label: Seq<char>,
    output_label: Seq<char>,
)
    requires
        n.halt is Some,
    ensures
        (#[trigger] n.constant(dims, bytes, dtype, add_label, output_label)).0 == n,
{
    reveal(Run::constant);
    reveal(Run::output);
    reveal(Run::layer);
    reveal(Run::add_constant);
}

pub broadcast proof fn stopped_add_owned_constant(
    n: Run,
    dims: Seq<i64>,
    bytes: Seq<u8>,
    dtype: TrtDataType,
    label: Seq<char>,
)
    requires
        n.halt is Some,
    ensures
        (#[trigger] n.add_owned_constant(dims, bytes, dtype, label)).0 == n,
{
    reveal(Run::add_owned_constant);
    reveal(Run::output);
    reveal(Run::layer);
    reveal(Run::add_constant);
}

pub broadcast proof fn stopped_reshape(
    n: Run,
    input: Tensor,
    dims: Seq<i64>,
    add_label: Seq<char>,
    set_label: Seq<char>,
    output_label: Seq<char>,
)
    requires
        n.halt is Some,
    ensures
        (#[trigger] n.reshape(input, dims, add_label, set_label, output_label)).0 == n,
{
    reveal(Run::reshape);
    reveal(Run::output);
    reveal(Run::layer);
    reveal(Run::add_constant);
}

pub broadcast proof fn stopped_transpose(
    n: Run,
    input: Tensor,
    order: Seq<i32>,
    add_label: Seq<char>,
    set_label: Seq<char>,
    output_label: Seq<char>,
)
    requires
        n.halt is Some,
    ensures
        (#[trigger] n.transpose(input, order, add_label, set_label, output_label)).0 == n,
{
    reveal(Run::transpose);
    reveal(Run::output);
    reveal(Run::layer);
    reveal(Run::add_constant);
}

pub broadcast proof fn stopped_resize(
    n: Run,
    input: Tensor,
    dims: Seq<i64>,
    add_label: Seq<char>,
    output_label: Seq<char>,
)
    requires
        n.halt is Some,
    ensures
        (#[trigger] n.resize(input, dims, add_label, output_label)).0 == n,
{
    reveal(Run::resize);
    reveal(Run::output);
    reveal(Run::layer);
    reveal(Run::add_constant);
}

pub broadcast proof fn stopped_concat(
    n: Run,
    inputs: Seq<Tensor>,
    axis: i32,
    add_label: Seq<char>,
    output_label: Seq<char>,
)
    requires
        n.halt is Some,
    ensures
        (#[trigger] n.concat(inputs, axis, add_label, output_label)).0 == n,
{
    reveal(Run::concat);
    reveal(Run::output);
    reveal(Run::layer);
    reveal(Run::add_constant);
}

/// A conversation that has stopped adds no layer.
pub broadcast group group_layers_stopped {
    stopped_output,
    stopped_layer,
    stopped_identity,
    stopped_cast,
    stopped_elementwise,
    stopped_activation,
    stopped_unary,
    stopped_reduce,
    stopped_slice,
    stopped_select,
    stopped_dequantize,
    stopped_padding,
    stopped_matrix_multiply,
    stopped_named_layer,
    stopped_add_constant,
    stopped_constant,
    stopped_add_owned_constant,
    stopped_reshape,
    stopped_transpose,
    stopped_resize,
    stopped_concat,
}

} // verus!
