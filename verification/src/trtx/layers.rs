//! The adding of layers to a network.

use crate::trtx::session::{gives, group_stopped, Halt, Network, Request, Run, WeightsOf};
use crate::trtx::steps::group_layers_stopped;
use crate::trtx::types::{
    ActivationType, ConstantStorage, ElementWiseOperation, Layer, MatrixOperation, ReduceOperation,
    Tensor, TrtDataType, UnaryOperation,
};
use vstd::prelude::*;

verus! {

broadcast use {group_stopped, group_layers_stopped};

impl Network {
    /// Takes the first output of a layer.
    pub fn output(&mut self, layer: usize, label: &str) -> (r: Result<Tensor, Halt>)
        ensures
            gives(final(self)@, r, old(self)@.output(layer, label@)),
    {
        proof {
            reveal(Run::output);
        }
        let t: usize = self.ask(Request::Output { layer: Layer { id: layer }, index: 0 }, label)?;
        Ok(Tensor { id: t })
    }

    /// Adds a layer and takes its first output.
    pub fn layer(&mut self, request: Request, add_label: &str, output_label: &str) -> (r: Result<
        Tensor,
        Halt,
    >)
        ensures
            gives(final(self)@, r, old(self)@.layer(request@, add_label@, output_label@)),
    {
        proof {
            reveal(Run::layer);
        }
        let l: usize = self.ask(request, add_label)?;
        self.output(l, output_label)
    }

    /// A copy of `input`.
    pub fn identity(
        &mut self,
        input: Tensor,
        add_label: &str,
        output_label: &str,
    ) -> (r: Result<Tensor, Halt>)
        ensures
            gives(
                final(self)@,
                r,
                old(self)@.identity(input, add_label@, output_label@),
            ),
    {
        proof {
            reveal(Run::identity);
        }
        self.layer(Request::AddIdentity { input }, add_label, output_label)
    }

    /// `input` with the element type `dtype`.
    pub fn cast(
        &mut self,
        input: Tensor,
        dtype: TrtDataType,
        add_label: &str,
        output_label: &str,
    ) -> (r: Result<Tensor, Halt>)
        ensures
            gives(
                final(self)@,
                r,
                old(self)@.cast(input, dtype, add_label@, output_label@),
            ),
    {
        proof {
            reveal(Run::cast);
        }
        self.layer(Request::AddCast { input, dtype }, add_label, output_label)
    }

    /// `a` and `b`, combined element by element.
    pub fn elementwise(
        &mut self,
        a: Tensor,
        b: Tensor,
        op: ElementWiseOperation,
        add_label: &str,
        output_label: &str,
    ) -> (r: Result<Tensor, Halt>)
        ensures
            gives(
                final(self)@,
                r,
                old(self)@.elementwise(a, b, op, add_label@, output_label@),
            ),
    {
        proof {
            reveal(Run::elementwise);
        }
        self.layer(Request::AddElementwise { a, b, op }, add_label, output_label)
    }

    /// An activation function of `input`.
    pub fn activation(
        &mut self,
        input: Tensor,
        kind: ActivationType,
        add_label: &str,
        output_label: &str,
    ) -> (r: Result<Tensor, Halt>)
        ensures
            gives(
                final(self)@,
                r,
                old(self)@.activation(input, kind, add_label@, output_label@),
            ),
    {
        proof {
            reveal(Run::activation);
        }
        self.layer(Request::AddActivation { input, kind }, add_label, output_label)
    }

    /// A function of each element of `input`.
    pub fn unary(
        &mut self,
        input: Tensor,
        op: UnaryOperation,
        add_label: &str,
        output_label: &str,
    ) -> (r: Result<Tensor, Halt>)
        ensures
            gives(
                final(self)@,
                r,
                old(self)@.unary(input, op, add_label@, output_label@),
            ),
    {
        proof {
            reveal(Run::unary);
        }
        self.layer(Request::AddUnary { input, op }, add_label, output_label)
    }

    /// A reduction of `input` over the axes of a mask.
    pub fn reduce(
        &mut self,
        input: Tensor,
        op: ReduceOperation,
        axes: u32,
        keep_dims: bool,
        add_label: &str,
        output_label: &str,
    ) -> (r: Result<Tensor, Halt>)
        ensures
            gives(
                final(self)@,
                r,
                old(self)@.reduce(input, op, axes, keep_dims, add_label@, output_label@),
            ),
    {
        proof {
            reveal(Run::reduce);
        }
        self.layer(Request::AddReduce { input, op, axes, keep_dims }, add_label, output_label)
    }

    /// A slice of `input`.
    pub fn slice(
        &mut self,
        input: Tensor,
        start: Vec<i64>,
        size: Vec<i64>,
        stride: Vec<i64>,
        add_label: &str,
        output_label: &str,
    ) -> (r: Result<Tensor, Halt>)
        ensures
            gives(
                final(self)@,
                r,
                old(self)@.slice(input, start@, size@, stride@, add_label@, output_label@),
            ),
    {
        proof {
            reveal(Run::slice);
        }
        self.layer(Request::AddSlice { input, start, size, stride }, add_label, output_label)
    }

    /// `on_true` where `condition` holds, `on_false` elsewhere.
    pub fn select(
        &mut self,
        condition: Tensor,
        on_true: Tensor,
        on_false: Tensor,
        add_label: &str,
        output_label: &str,
    ) -> (r: Result<Tensor, Halt>)
        ensures
            gives(
                final(self)@,
                r,
                old(self)@.select(condition, on_true, on_false, add_label@, output_label@),
            ),
    {
        proof {
            reveal(Run::select);
        }
        self.layer(Request::AddSelect { condition, on_true, on_false }, add_label, output_label)
    }

    /// `input` times `scale`, as `dtype`.
    pub fn dequantize(
        &mut self,
        input: Tensor,
        scale: Tensor,
        dtype: TrtDataType,
        add_label: &str,
        output_label: &str,
    ) -> (r: Result<Tensor, Halt>)
        ensures
            gives(
                final(self)@,
                r,
                old(self)@.dequantize(input, scale, dtype, add_label@, output_label@),
            ),
    {
        proof {
            reveal(Run::dequantize);
        }
        self.layer(Request::AddDequantize { input, scale, dtype }, add_label, output_label)
    }

    /// `input` with zeros around its last two axes.
    pub fn padding(
        &mut self,
        input: Tensor,
        pre: (i64, i64),
        post: (i64, i64),
        add_label: &str,
        output_label: &str,
    ) -> (r: Result<Tensor, Halt>)
        ensures
            gives(
                final(self)@,
                r,
                old(self)@.padding(input, pre, post, add_label@, output_label@),
            ),
    {
        proof {
            reveal(Run::padding);
        }
        self.layer(Request::AddPadding { input, pre, post }, add_label, output_label)
    }

    /// The matrix product of `a` and `b`.
    pub fn matrix_multiply(
        &mut self,
        a: Tensor,
        op_a: MatrixOperation,
        b: Tensor,
        op_b: MatrixOperation,
        add_label: &str,
        output_label: &str,
    ) -> (r: Result<Tensor, Halt>)
        ensures
            gives(
                final(self)@,
                r,
                old(self)@.matrix_multiply(a, op_a, b, op_b, add_label@, output_label@),
            ),
    {
        proof {
            reveal(Run::matrix_multiply);
        }
        self.layer(Request::AddMatrixMultiply { a, op_a, b, op_b }, add_label, output_label)
    }

    /// Adds a layer, names it, and takes its first output.
    pub fn named_layer(
        &mut self,
        request: Request,
        name: &str,
        add_label: &str,
        output_label: &str,
    ) -> (r: Result<Tensor, Halt>)
        ensures
            gives(
                final(self)@,
                r,
                old(self)@.named_layer(request@, name@, add_label@, output_label@),
            ),
    {
        proof {
            reveal(Run::named_layer);
        }
        let l: usize = self.ask(request, add_label)?;
        self.tell(Request::SetLayerName { layer: Layer { id: l }, name: name.to_owned() })?;
        self.output(l, output_label)
    }

    /// Adds a constant of which the network keeps a copy.
    pub fn add_constant(
        &mut self,
        dims: Vec<i64>,
        bytes: Vec<u8>,
        dtype: TrtDataType,
        label: &str,
    ) -> (r: Result<usize, Halt>)
        ensures
            gives(final(self)@, r, old(self)@.add_constant(dims@, bytes@, dtype, label@)),
    {
        proof {
            reveal(Run::add_constant);
        }
        self.ask(
            Request::AddConstant {
                dims,
                weights: WeightsOf::Bytes(bytes),
                dtype,
                name: None,
                storage: ConstantStorage::Copied,
            },
            label,
        )
    }

    /// A constant of which the network keeps a copy.
    pub fn constant(
        &mut self,
        dims: Vec<i64>,
        bytes: Vec<u8>,
        dtype: TrtDataType,
        add_label: &str,
        output_label: &str,
    ) -> (r: Result<Tensor, Halt>)
        ensures
            gives(
                final(self)@,
                r,
                old(self)@.constant(dims@, bytes@, dtype, add_label@, output_label@),
            ),
    {
        proof {
            reveal(Run::constant);
        }
        let l: usize = self.add_constant(dims, bytes, dtype, add_label)?;
        self.output(l, output_label)
    }

    /// Adds a constant that the network takes over.
    pub fn add_owned_constant(
        &mut self,
        dims: Vec<i64>,
        bytes: Vec<u8>,
        dtype: TrtDataType,
        label: &str,
    ) -> (r: Result<usize, Halt>)
        ensures
            gives(final(self)@, r, old(self)@.add_owned_constant(dims@, bytes@, dtype, label@)),
    {
        proof {
            reveal(Run::add_owned_constant);
        }
        self.ask(
            Request::AddConstant {
                dims,
                weights: WeightsOf::Bytes(bytes),
                dtype,
                name: None,
                storage: ConstantStorage::Owned,
            },
            label,
        )
    }

    /// A shuffle that gives `input` the dimensions `dims`.
    pub fn reshape(
        &mut self,
        input: Tensor,
        dims: Vec<i64>,
        add_label: &str,
        set_label: &str,
        output_label: &str,
    ) -> (r: Result<Tensor, Halt>)
        ensures
            gives(
                final(self)@,
                r,
                old(self)@.reshape(input, dims@, add_label@, set_label@, output_label@),
            ),
    {
        proof {
            reveal(Run::reshape);
        }
        let l: usize = self.ask(Request::AddShuffle { input }, add_label)?;
        self.ask(Request::SetReshapeDimensions { layer: Layer { id: l }, dims }, set_label)?;
        self.output(l, output_label)
    }

    /// A shuffle that permutes the axes of `input`: output axis `i` is input axis `order[i]`.
    pub fn transpose(
        &mut self,
        input: Tensor,
        order: Vec<i32>,
        add_label: &str,
        set_label: &str,
        output_label: &str,
    ) -> (r: Result<Tensor, Halt>)
        ensures
            gives(
                final(self)@,
                r,
                old(self)@.transpose(input, order@, add_label@, set_label@, output_label@),
            ),
    {
        proof {
            reveal(Run::transpose);
        }
        let l: usize = self.ask(Request::AddShuffle { input }, add_label)?;
        self.ask(Request::SetFirstTranspose { layer: Layer { id: l }, order }, set_label)?;
        self.output(l, output_label)
    }

    /// A resize of `input` to the dimensions `dims`.
    pub fn resize(
        &mut self,
        input: Tensor,
        dims: Vec<i64>,
        add_label: &str,
        output_label: &str,
    ) -> (r: Result<Tensor, Halt>)
        ensures
            gives(final(self)@, r, old(self)@.resize(input, dims@, add_label@, output_label@)),
    {
        proof {
            reveal(Run::resize);
        }
        let l: usize = self.ask(Request::AddResize { input }, add_label)?;
        self.tell(Request::SetOutputDimensions { layer: Layer { id: l }, dims })?;
        self.output(l, output_label)
    }

    /// A concatenation of `inputs` along `axis`.
    pub fn concat(
        &mut self,
        inputs: Vec<Tensor>,
        axis: i32,
        add_label: &str,
        output_label: &str,
    ) -> (r: Result<Tensor, Halt>)
        ensures
            gives(final(self)@, r, old(self)@.concat(inputs@, axis, add_label@, output_label@)),
    {
        proof {
            reveal(Run::concat);
        }
        let l: usize = self.ask(Request::AddConcatenation { inputs }, add_label)?;
        self.tell(Request::SetAxis { layer: Layer { id: l }, axis })?;
        self.output(l, output_label)
    }
}

} // verus!
