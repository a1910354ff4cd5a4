//! The identifier of a graph.
//!
//! A graph is written as a list of bytes, field by field: integers with the least significant byte
//! first, lists after their length, text in UTF-8 with the byte 255 behind it, and enums by the
//! number of the variant, in eight bytes, before its fields. The identifier holds the hash of
//! these bytes.

use crate::data_type::DataType;
use crate::graph::{Dimension, GraphInfo, Operand, OperandDescriptor, OperandKind};
use crate::operator_options::{
    FloatReading, MLArgMinMaxOptions, MLBatchNormalizationOptions, MLClampOptions,
    MLConv2dOptions, MLConvTranspose2dOptions, MLCumulativeSumOptions, MLDimension, MLEluOptions,
    MLGatherOptions, MLGemmOptions, MLHardSigmoidOptions, MLInstanceNormalizationOptions,
    MLLayerNormalizationOptions, MLLeakyReluOptions, MLLinearOptions, MLNumber, MLPadOptions,
    MLPool2dOptions, MLReduceOptions, MLResample2dOptions, MLReverseOptions, MLScatterOptions,
    MLSliceOptions, MLSplitOptions, MLTransposeOptions, MLTriangularOptions,
};
use crate::operators::{Operation, OperationKind};
use crate::scalar::{extend_bytes, le4, le4_bytes, le8, le8_bytes, Scalar};
use crate::text::{decimal, numeral, numeral_text, say};
use std::hash::Hasher;
use vstd::prelude::*;
use vstd::utf8::encode_utf8;

verus! {

/// The hash that `seahash::SeaHasher` gives a list of bytes.
pub uninterp spec fn sea_hash(bytes: Seq<u8>) -> u64;

/// Writes the bytes to a new `seahash::SeaHasher` and takes its `finish`: the hash is named
/// `sea_hash` of the bytes. The hasher starts from fixed seeds and reads bytes in little-endian
/// order on every machine, so the same bytes have the same hash.
#[verifier::external_body]
fn sea_hash_of(bytes: &Vec<u8>) -> (h: u64)
    ensures
        h == sea_hash(bytes@),
{
    let mut hasher = seahash::SeaHasher::new();
    hasher.write(bytes.as_slice());
    hasher.finish()
}

/// One byte.
pub open spec fn fed_byte(out: Seq<u8>, x: u8) -> Seq<u8> {
    out.push(x)
}

fn feed_byte(out: &mut Vec<u8>, x: u8)
    ensures
        final(out)@ == fed_byte(old(out)@, x),
{
    out.push(x);
}

/// A truth value as the byte 0 or 1.
pub open spec fn fed_flag(out: Seq<u8>, x: bool) -> Seq<u8> {
    fed_byte(
        out,
        if x {
            1
        } else {
            0
        },
    )
}

fn feed_flag(out: &mut Vec<u8>, x: bool)
    ensures
        final(out)@ == fed_flag(old(out)@, x),
{
    feed_byte(
        out,
        if x {
            1
        } else {
            0
        },
    );
}

/// A 32-bit integer.
pub open spec fn fed_word(out: Seq<u8>, x: u32) -> Seq<u8> {
    out + le4(x)
}

fn feed_word(out: &mut Vec<u8>, x: u32)
    ensures
        final(out)@ == fed_word(old(out)@, x),
{
    let b = le4_bytes(x);
    extend_bytes(out, &b);
}

/// A 64-bit integer.
pub open spec fn fed_long(out: Seq<u8>, x: u64) -> Seq<u8> {
    out + le8(x)
}

fn feed_long(out: &mut Vec<u8>, x: u64)
    ensures
        final(out)@ == fed_long(old(out)@, x),
{
    let b = le8_bytes(x);
    extend_bytes(out, &b);
}

/// A text, with the byte 255 behind it.
pub open spec fn fed_text(out: Seq<u8>, x: Seq<char>) -> Seq<u8> {
    fed_byte(out + encode_utf8(x), 255)
}

fn feed_text(out: &mut Vec<u8>, x: &str)
    ensures
        final(out)@ == fed_text(old(out)@, x@),
{
    let bytes = x.as_bytes();
    let ghost start = out@;
    let mut i: usize = 0;
    while i < bytes.len()
        invariant
            i <= bytes.len(),
            bytes@ == encode_utf8(x@),
            out@ == start + bytes@.take(i as int),
        decreases bytes.len() - i,
    {
        out.push(bytes[i]);
        proof {
            assert(out@ =~= start + bytes@.take(i + 1));
        }
        i = i + 1;
    }
    proof {
        assert(bytes@.take(bytes@.len() as int) =~= bytes@);
    }
    feed_byte(out, 255);
}

/// The first `k` of a list of 32-bit integers.
pub open spec fn fed_first_words(out: Seq<u8>, x: Seq<u32>, k: nat) -> Seq<u8>
    decreases k,
{
    if k == 0 {
        out
    } else {
        fed_word(fed_first_words(out, x, (k - 1) as nat), x[k - 1])
    }
}

/// A list of 32-bit integers.
pub open spec fn fed_words(out: Seq<u8>, x: Seq<u32>) -> Seq<u8> {
    fed_first_words(fed_long(out, x.len() as u64), x, x.len())
}

fn feed_words(out: &mut Vec<u8>, x: &Vec<u32>)
    ensures
        final(out)@ == fed_words(old(out)@, x@),
{
    feed_long(out, x.len() as u64);
    let ghost start = out@;
    let mut i: usize = 0;
    while i < x.len()
        invariant
            i <= x.len(),
            out@ == fed_first_words(start, x@, i as nat),
        decreases x.len() - i,
    {
        feed_word(out, x[i]);
        i = i + 1;
    }
}

/// A dimension.
pub open spec fn fed_dimension(out: Seq<u8>, x: Dimension) -> Seq<u8> {
    match x {
        Dimension::Static(n) => fed_word(fed_long(out, 0), n),
        Dimension::Dynamic(d) => fed_word(fed_text(fed_long(out, 1), d.name@), d.max_size),
    }
}

fn feed_dimension(out: &mut Vec<u8>, x: &Dimension)
    ensures
        final(out)@ == fed_dimension(old(out)@, *x),
{
    match x {
        Dimension::Static(n) => {
            feed_long(out, 0);
            feed_word(out, *n);
        },
        Dimension::Dynamic(d) => {
            feed_long(out, 1);
            feed_text(out, d.name.as_str());
            feed_word(out, d.max_size);
        },
    }
}

/// A dimension that an operation asks for.
pub open spec fn fed_ml_dimension(out: Seq<u8>, x: MLDimension) -> Seq<u8> {
    match x {
        MLDimension::Static(n) => fed_word(fed_long(out, 0), n),
        MLDimension::Dynamic(d) => fed_word(fed_text(fed_long(out, 1), d.name@), d.max_size),
    }
}

fn feed_ml_dimension(out: &mut Vec<u8>, x: &MLDimension)
    ensures
        final(out)@ == fed_ml_dimension(old(out)@, *x),
{
    match x {
        MLDimension::Static(n) => {
            feed_long(out, 0);
            feed_word(out, *n);
        },
        MLDimension::Dynamic(d) => {
            feed_long(out, 1);
            feed_text(out, d.name.as_str());
            feed_word(out, d.max_size);
        },
    }
}

/// The first `k` dimensions of a shape.
pub open spec fn fed_first_shape(out: Seq<u8>, x: Seq<Dimension>, k: nat) -> Seq<u8>
    decreases k,
{
    if k == 0 {
        out
    } else {
        fed_dimension(fed_first_shape(out, x, (k - 1) as nat), x[k - 1])
    }
}

/// A shape.
pub open spec fn fed_shape(out: Seq<u8>, x: Seq<Dimension>) -> Seq<u8> {
    fed_first_shape(fed_long(out, x.len() as u64), x, x.len())
}

fn feed_shape(out: &mut Vec<u8>, x: &Vec<Dimension>)
    ensures
        final(out)@ == fed_shape(old(out)@, x@),
{
    feed_long(out, x.len() as u64);
    let ghost start = out@;
    let mut i: usize = 0;
    while i < x.len()
        invariant
            i <= x.len(),
            out@ == fed_first_shape(start, x@, i as nat),
        decreases x.len() - i,
    {
        feed_dimension(out, &x[i]);
        i = i + 1;
    }
}

/// The first `k` dimensions of a shape that an operation asks for.
pub open spec fn fed_first_dimensions(out: Seq<u8>, x: Seq<MLDimension>, k: nat) -> Seq<u8>
    decreases k,
{
    if k == 0 {
        out
    } else {
        fed_ml_dimension(fed_first_dimensions(out, x, (k - 1) as nat), x[k - 1])
    }
}

/// A shape that an operation asks for.
pub open spec fn fed_dimensions(out: Seq<u8>, x: Seq<MLDimension>) -> Seq<u8> {
    fed_first_dimensions(fed_long(out, x.len() as u64), x, x.len())
}

fn feed_dimensions(out: &mut Vec<u8>, x: &Vec<MLDimension>)
    ensures
        final(out)@ == fed_dimensions(old(out)@, x@),
{
    feed_long(out, x.len() as u64);
    let ghost start = out@;
    let mut i: usize = 0;
    while i < x.len()
        invariant
            i <= x.len(),
            out@ == fed_first_dimensions(start, x@, i as nat),
        decreases x.len() - i,
    {
        feed_ml_dimension(out, &x[i]);
        i = i + 1;
    }
}

/// The number of an element type.
pub open spec fn type_number(x: DataType) -> u64 {
    match x {
        DataType::Int4 => 0,
        DataType::Uint4 => 1,
        DataType::Float16 => 2,
        DataType::Float32 => 3,
        DataType::Int32 => 4,
        DataType::Uint32 => 5,
        DataType::Int8 => 6,
        DataType::Uint8 => 7,
        DataType::Int64 => 8,
        DataType::Uint64 => 9,
    }
}

fn type_number_of(x: DataType) -> (n: u64)
    ensures
        n == type_number(x),
{
    match x {
        DataType::Int4 => 0,
        DataType::Uint4 => 1,
        DataType::Float16 => 2,
        DataType::Float32 => 3,
        DataType::Int32 => 4,
        DataType::Uint32 => 5,
        DataType::Int8 => 6,
        DataType::Uint8 => 7,
        DataType::Int64 => 8,
        DataType::Uint64 => 9,
    }
}

/// Different element types have different numbers.
pub proof fn type_numbers_differ(a: DataType, b: DataType)
    requires
        a != b,
    ensures
        type_number(a) != type_number(b),
{
}

/// The number of a kind of operand.
pub open spec fn role_number(x: OperandKind) -> u64 {
    match x {
        OperandKind::Input => 0,
        OperandKind::Constant => 1,
        OperandKind::Output => 2,
        OperandKind::Intermediate => 3,
    }
}

fn role_number_of(x: OperandKind) -> (n: u64)
    ensures
        n == role_number(x),
{
    match x {
        OperandKind::Input => 0,
        OperandKind::Constant => 1,
        OperandKind::Output => 2,
        OperandKind::Intermediate => 3,
    }
}

/// Different kinds of operands have different numbers.
pub proof fn role_numbers_differ(a: OperandKind, b: OperandKind)
    requires
        a != b,
    ensures
        role_number(a) != role_number(b),
{
}

/// A floating-point value, by its bit patterns.
pub open spec fn fed_scalar(out: Seq<u8>, x: Scalar) -> Seq<u8> {
    fed_word(fed_word(out, x.single), x.half as u32)
}

fn feed_scalar(out: &mut Vec<u8>, x: &Scalar)
    ensures
        final(out)@ == fed_scalar(old(out)@, *x),
{
    feed_word(out, x.single);
    feed_word(out, x.half as u32);
}

/// A floating-point value with the integers that it converts to.
pub open spec fn fed_reading(out: Seq<u8>, x: FloatReading) -> Seq<u8> {
    let out = fed_scalar(out, x.bits);
    let out = fed_byte(out, x.to_i8 as u8);
    let out = fed_byte(out, x.to_u8);
    let out = fed_word(out, x.to_i32 as u32);
    fed_long(out, x.to_i64 as u64)
}

fn feed_reading(out: &mut Vec<u8>, x: &FloatReading)
    ensures
        final(out)@ == fed_reading(old(out)@, *x),
{
    feed_scalar(out, &x.bits);
    feed_byte(out, x.to_i8 as u8);
    feed_byte(out, x.to_u8);
    feed_word(out, x.to_i32 as u32);
    feed_long(out, x.to_i64 as u64);
}

/// A number in the options of an operation.
pub open spec fn fed_number(out: Seq<u8>, x: MLNumber) -> Seq<u8> {
    match x {
        MLNumber::Unsigned { value, reading } => fed_reading(
            fed_long(fed_long(out, 0), value),
            reading,
        ),
        MLNumber::Negative { value, reading } => fed_reading(
            fed_long(fed_long(out, 1), value as u64),
            reading,
        ),
        MLNumber::Float { reading, truncated_i64, truncated_u64 } => {
            let out = fed_reading(fed_long(out, 2), reading);
            fed_opt_long(fed_opt_signed(out, truncated_i64), truncated_u64)
        },
        MLNumber::Text { text, number } => fed_opt_reading(
            fed_text(fed_long(out, 3), text@),
            number,
        ),
        MLNumber::Other => fed_long(out, 4),
    }
}

fn feed_number(out: &mut Vec<u8>, x: &MLNumber)
    ensures
        final(out)@ == fed_number(old(out)@, *x),
{
    match x {
        MLNumber::Unsigned { value, reading } => {
            feed_long(out, 0);
            feed_long(out, *value);
            feed_reading(out, reading);
        },
        MLNumber::Negative { value, reading } => {
            feed_long(out, 1);
            feed_long(out, *value as u64);
            feed_reading(out, reading);
        },
        MLNumber::Float { reading, truncated_i64, truncated_u64 } => {
            feed_long(out, 2);
            feed_reading(out, reading);
            feed_opt_signed(out, truncated_i64);
            feed_opt_long(out, truncated_u64);
        },
        MLNumber::Text { text, number } => {
            feed_long(out, 3);
            feed_text(out, text.as_str());
            feed_opt_reading(out, number);
        },
        MLNumber::Other => feed_long(out, 4),
    }
}

/// A value of type `Option<u32>`: 0 where there is none, else 1 and the value.
pub open spec fn fed_opt_word(out: Seq<u8>, x: Option<u32>) -> Seq<u8> {
    match x {
        None => fed_long(out, 0),
        Some(v) => fed_word(fed_long(out, 1), v),
    }
}

fn feed_opt_word(out: &mut Vec<u8>, x: &Option<u32>)
    ensures
        final(out)@ == fed_opt_word(old(out)@, *x),
{
    match x {
        None => feed_long(out, 0),
        Some(v) => {
            feed_long(out, 1);
            feed_word(out, *v);
        },
    }
}

/// A value of type `Option<Vec<u32>>`: 0 where there is none, else 1 and the value.
pub open spec fn fed_opt_words(out: Seq<u8>, x: Option<Vec<u32>>) -> Seq<u8> {
    match x {
        None => fed_long(out, 0),
        Some(v) => fed_words(fed_long(out, 1), v@),
    }
}

fn feed_opt_words(out: &mut Vec<u8>, x: &Option<Vec<u32>>)
    ensures
        final(out)@ == fed_opt_words(old(out)@, *x),
{
    match x {
        None => feed_long(out, 0),
        Some(v) => {
            feed_long(out, 1);
            feed_words(out, v);
        },
    }
}

/// A value of type `Option<MLNumber>`: 0 where there is none, else 1 and the value.
pub open spec fn fed_opt_number(out: Seq<u8>, x: Option<MLNumber>) -> Seq<u8> {
    match x {
        None => fed_long(out, 0),
        Some(v) => fed_number(fed_long(out, 1), v),
    }
}

fn feed_opt_number(out: &mut Vec<u8>, x: &Option<MLNumber>)
    ensures
        final(out)@ == fed_opt_number(old(out)@, *x),
{
    match x {
        None => feed_long(out, 0),
        Some(v) => {
            feed_long(out, 1);
            feed_number(out, v);
        },
    }
}

/// A value of type `Option<bool>`: 0 where there is none, else 1 and the value.
pub open spec fn fed_opt_flag(out: Seq<u8>, x: Option<bool>) -> Seq<u8> {
    match x {
        None => fed_long(out, 0),
        Some(v) => fed_flag(fed_long(out, 1), v),
    }
}

fn feed_opt_flag(out: &mut Vec<u8>, x: &Option<bool>)
    ensures
        final(out)@ == fed_opt_flag(old(out)@, *x),
{
    match x {
        None => feed_long(out, 0),
        Some(v) => {
            feed_long(out, 1);
            feed_flag(out, *v);
        },
    }
}

/// A value of type `Option<MLEluOptions>`: 0 where there is none, else 1 and the value.
pub open spec fn fed_opt_elu_options(out: Seq<u8>, x: Option<MLEluOptions>) -> Seq<u8> {
    match x {
        None => fed_long(out, 0),
        Some(v) => fed_elu_options(fed_long(out, 1), v),
    }
}

fn feed_opt_elu_options(out: &mut Vec<u8>, x: &Option<MLEluOptions>)
    ensures
        final(out)@ == fed_opt_elu_options(old(out)@, *x),
{
    match x {
        None => feed_long(out, 0),
        Some(v) => {
            feed_long(out, 1);
            feed_elu_options(out, v);
        },
    }
}

/// A value of type `Option<MLLeakyReluOptions>`: 0 where there is none, else 1 and the value.
pub open spec fn fed_opt_leaky_relu_options(out: Seq<u8>, x: Option<MLLeakyReluOptions>) -> Seq<u8> {
    match x {
        None => fed_long(out, 0),
        Some(v) => fed_leaky_relu_options(fed_long(out, 1), v),
    }
}

fn feed_opt_leaky_relu_options(out: &mut Vec<u8>, x: &Option<MLLeakyReluOptions>)
    ensures
        final(out)@ == fed_opt_leaky_relu_options(old(out)@, *x),
{
    match x {
        None => feed_long(out, 0),
        Some(v) => {
            feed_long(out, 1);
            feed_leaky_relu_options(out, v);
        },
    }
}

/// A value of type `Option<MLHardSigmoidOptions>`: 0 where there is none, else 1 and the value.
pub open spec fn fed_opt_hard_sigmoid_options(out: Seq<u8>, x: Option<MLHardSigmoidOptions>) -> Seq<u8> {
    match x {
        None => fed_long(out, 0),
        Some(v) => fed_hard_sigmoid_options(fed_long(out, 1), v),
    }
}

fn feed_opt_hard_sigmoid_options(out: &mut Vec<u8>, x: &Option<MLHardSigmoidOptions>)
    ensures
        final(out)@ == fed_opt_hard_sigmoid_options(old(out)@, *x),
{
    match x {
        None => feed_long(out, 0),
        Some(v) => {
            feed_long(out, 1);
            feed_hard_sigmoid_options(out, v);
        },
    }
}

/// A value of type `Option<MLGemmOptions>`: 0 where there is none, else 1 and the value.
pub open spec fn fed_opt_gemm_options(out: Seq<u8>, x: Option<MLGemmOptions>) -> Seq<u8> {
    match x {
        None => fed_long(out, 0),
        Some(v) => fed_gemm_options(fed_long(out, 1), v),
    }
}

fn feed_opt_gemm_options(out: &mut Vec<u8>, x: &Option<MLGemmOptions>)
    ensures
        final(out)@ == fed_opt_gemm_options(old(out)@, *x),
{
    match x {
        None => feed_long(out, 0),
        Some(v) => {
            feed_long(out, 1);
            feed_gemm_options(out, v);
        },
    }
}

/// A value of type `Option<MLConv2dOptions>`: 0 where there is none, else 1 and the value.
pub open spec fn fed_opt_conv2d_options(out: Seq<u8>, x: Option<MLConv2dOptions>) -> Seq<u8> {
    match x {
        None => fed_long(out, 0),
        Some(v) => fed_conv2d_options(fed_long(out, 1), v),
    }
}

fn feed_opt_conv2d_options(out: &mut Vec<u8>, x: &Option<MLConv2dOptions>)
    ensures
        final(out)@ == fed_opt_conv2d_options(old(out)@, *x),
{
    match x {
        None => feed_long(out, 0),
        Some(v) => {
            feed_long(out, 1);
            feed_conv2d_options(out, v);
        },
    }
}

/// A value of type `Option<MLConvTranspose2dOptions>`: 0 where there is none, else 1 and the value.
pub open spec fn fed_opt_conv_transpose2d_options(out: Seq<u8>, x: Option<MLConvTranspose2dOptions>) -> Seq<u8> {
    match x {
        None => fed_long(out, 0),
        Some(v) => fed_conv_transpose2d_options(fed_long(out, 1), v),
    }
}

fn feed_opt_conv_transpose2d_options(out: &mut Vec<u8>, x: &Option<MLConvTranspose2dOptions>)
    ensures
        final(out)@ == fed_opt_conv_transpose2d_options(old(out)@, *x),
{
    match x {
        None => feed_long(out, 0),
        Some(v) => {
            feed_long(out, 1);
            feed_conv_transpose2d_options(out, v);
        },
    }
}

/// A value of type `Option<MLPool2dOptions>`: 0 where there is none, else 1 and the value.
pub open spec fn fed_opt_pool2d_options(out: Seq<u8>, x: Option<MLPool2dOptions>) -> Seq<u8> {
    match x {
        None => fed_long(out, 0),
        Some(v) => fed_pool2d_options(fed_long(out, 1), v),
    }
}

fn feed_opt_pool2d_options(out: &mut Vec<u8>, x: &Option<MLPool2dOptions>)
    ensures
        final(out)@ == fed_opt_pool2d_options(old(out)@, *x),
{
    match x {
        None => feed_long(out, 0),
        Some(v) => {
            feed_long(out, 1);
            feed_pool2d_options(out, v);
        },
    }
}

/// A value of type `Option<MLBatchNormalizationOptions>`: 0 where there is none, else 1 and the value.
pub open spec fn fed_opt_batch_normalization_options(out: Seq<u8>, x: Option<MLBatchNormalizationOptions>) -> Seq<u8> {
    match x {
        None => fed_long(out, 0),
        Some(v) => fed_batch_normalization_options(fed_long(out, 1), v),
    }
}

fn feed_opt_batch_normalization_options(out: &mut Vec<u8>, x: &Option<MLBatchNormalizationOptions>)
    ensures
        final(out)@ == fed_opt_batch_normalization_options(old(out)@, *x),
{
    match x {
        None => feed_long(out, 0),
        Some(v) => {
            feed_long(out, 1);
            feed_batch_normalization_options(out, v);
        },
    }
}

/// A value of type `Option<MLInstanceNormalizationOptions>`: 0 where there is none, else 1 and the value.
pub open spec fn fed_opt_instance_normalization_options(out: Seq<u8>, x: Option<MLInstanceNormalizationOptions>) -> Seq<u8> {
    match x {
        None => fed_long(out, 0),
        Some(v) => fed_instance_normalization_options(fed_long(out, 1), v),
    }
}

fn feed_opt_instance_normalization_options(out: &mut Vec<u8>, x: &Option<MLInstanceNormalizationOptions>)
    ensures
        final(out)@ == fed_opt_instance_normalization_options(old(out)@, *x),
{
    match x {
        None => feed_long(out, 0),
        Some(v) => {
            feed_long(out, 1);
            feed_instance_normalization_options(out, v);
        },
    }
}

/// A value of type `Option<MLLayerNormalizationOptions>`: 0 where there is none, else 1 and the value.
pub open spec fn fed_opt_layer_normalization_options(out: Seq<u8>, x: Option<MLLayerNormalizationOptions>) -> Seq<u8> {
    match x {
        None => fed_long(out, 0),
        Some(v) => fed_layer_normalization_options(fed_long(out, 1), v),
    }
}

fn feed_opt_layer_normalization_options(out: &mut Vec<u8>, x: &Option<MLLayerNormalizationOptions>)
    ensures
        final(out)@ == fed_opt_layer_normalization_options(old(out)@, *x),
{
    match x {
        None => feed_long(out, 0),
        Some(v) => {
            feed_long(out, 1);
            feed_layer_normalization_options(out, v);
        },
    }
}

/// A value of type `Option<MLReduceOptions>`: 0 where there is none, else 1 and the value.
pub open spec fn fed_opt_reduce_options(out: Seq<u8>, x: Option<MLReduceOptions>) -> Seq<u8> {
    match x {
        None => fed_long(out, 0),
        Some(v) => fed_reduce_options(fed_long(out, 1), v),
    }
}

fn feed_opt_reduce_options(out: &mut Vec<u8>, x: &Option<MLReduceOptions>)
    ensures
        final(out)@ == fed_opt_reduce_options(old(out)@, *x),
{
    match x {
        None => feed_long(out, 0),
        Some(v) => {
            feed_long(out, 1);
            feed_reduce_options(out, v);
        },
    }
}

/// A value of type `Option<MLSliceOptions>`: 0 where there is none, else 1 and the value.
pub open spec fn fed_opt_slice_options(out: Seq<u8>, x: Option<MLSliceOptions>) -> Seq<u8> {
    match x {
        None => fed_long(out, 0),
        Some(v) => fed_slice_options(fed_long(out, 1), v),
    }
}

fn feed_opt_slice_options(out: &mut Vec<u8>, x: &Option<MLSliceOptions>)
    ensures
        final(out)@ == fed_opt_slice_options(old(out)@, *x),
{
    match x {
        None => feed_long(out, 0),
        Some(v) => {
            feed_long(out, 1);
            feed_slice_options(out, v);
        },
    }
}

/// A value of type `Option<MLSplitOptions>`: 0 where there is none, else 1 and the value.
pub open spec fn fed_opt_split_options(out: Seq<u8>, x: Option<MLSplitOptions>) -> Seq<u8> {
    match x {
        None => fed_long(out, 0),
        Some(v) => fed_split_options(fed_long(out, 1), v),
    }
}

fn feed_opt_split_options(out: &mut Vec<u8>, x: &Option<MLSplitOptions>)
    ensures
        final(out)@ == fed_opt_split_options(old(out)@, *x),
{
    match x {
        None => feed_long(out, 0),
        Some(v) => {
            feed_long(out, 1);
            feed_split_options(out, v);
        },
    }
}

/// A value of type `Option<MLGatherOptions>`: 0 where there is none, else 1 and the value.
pub open spec fn fed_opt_gather_options(out: Seq<u8>, x: Option<MLGatherOptions>) -> Seq<u8> {
    match x {
        None => fed_long(out, 0),
        Some(v) => fed_gather_options(fed_long(out, 1), v),
    }
}

fn feed_opt_gather_options(out: &mut Vec<u8>, x: &Option<MLGatherOptions>)
    ensures
        final(out)@ == fed_opt_gather_options(old(out)@, *x),
{
    match x {
        None => feed_long(out, 0),
        Some(v) => {
            feed_long(out, 1);
            feed_gather_options(out, v);
        },
    }
}

/// A value of type `Option<MLScatterOptions>`: 0 where there is none, else 1 and the value.
pub open spec fn fed_opt_scatter_options(out: Seq<u8>, x: Option<MLScatterOptions>) -> Seq<u8> {
    match x {
        None => fed_long(out, 0),
        Some(v) => fed_scatter_options(fed_long(out, 1), v),
    }
}

fn feed_opt_scatter_options(out: &mut Vec<u8>, x: &Option<MLScatterOptions>)
    ensures
        final(out)@ == fed_opt_scatter_options(old(out)@, *x),
{
    match x {
        None => feed_long(out, 0),
        Some(v) => {
            feed_long(out, 1);
            feed_scatter_options(out, v);
        },
    }
}

/// A value of type `Option<MLArgMinMaxOptions>`: 0 where there is none, else 1 and the value.
pub open spec fn fed_opt_arg_min_max_options(out: Seq<u8>, x: Option<MLArgMinMaxOptions>) -> Seq<u8> {
    match x {
        None => fed_long(out, 0),
        Some(v) => fed_arg_min_max_options(fed_long(out, 1), v),
    }
}

fn feed_opt_arg_min_max_options(out: &mut Vec<u8>, x: &Option<MLArgMinMaxOptions>)
    ensures
        final(out)@ == fed_opt_arg_min_max_options(old(out)@, *x),
{
    match x {
        None => feed_long(out, 0),
        Some(v) => {
            feed_long(out, 1);
            feed_arg_min_max_options(out, v);
        },
    }
}

/// A value of type `Option<MLClampOptions>`: 0 where there is none, else 1 and the value.
pub open spec fn fed_opt_clamp_options(out: Seq<u8>, x: Option<MLClampOptions>) -> Seq<u8> {
    match x {
        None => fed_long(out, 0),
        Some(v) => fed_clamp_options(fed_long(out, 1), v),
    }
}

fn feed_opt_clamp_options(out: &mut Vec<u8>, x: &Option<MLClampOptions>)
    ensures
        final(out)@ == fed_opt_clamp_options(old(out)@, *x),
{
    match x {
        None => feed_long(out, 0),
        Some(v) => {
            feed_long(out, 1);
            feed_clamp_options(out, v);
        },
    }
}

/// A value of type `Option<MLLinearOptions>`: 0 where there is none, else 1 and the value.
pub open spec fn fed_opt_linear_options(out: Seq<u8>, x: Option<MLLinearOptions>) -> Seq<u8> {
    match x {
        None => fed_long(out, 0),
        Some(v) => fed_linear_options(fed_long(out, 1), v),
    }
}

fn feed_opt_linear_options(out: &mut Vec<u8>, x: &Option<MLLinearOptions>)
    ensures
        final(out)@ == fed_opt_linear_options(old(out)@, *x),
{
    match x {
        None => feed_long(out, 0),
        Some(v) => {
            feed_long(out, 1);
            feed_linear_options(out, v);
        },
    }
}

/// A value of type `Option<MLPadOptions>`: 0 where there is none, else 1 and the value.
pub open spec fn fed_opt_pad_options(out: Seq<u8>, x: Option<MLPadOptions>) -> Seq<u8> {
    match x {
        None => fed_long(out, 0),
        Some(v) => fed_pad_options(fed_long(out, 1), v),
    }
}

fn feed_opt_pad_options(out: &mut Vec<u8>, x: &Option<MLPadOptions>)
    ensures
        final(out)@ == fed_opt_pad_options(old(out)@, *x),
{
    match x {
        None => feed_long(out, 0),
        Some(v) => {
            feed_long(out, 1);
            feed_pad_options(out, v);
        },
    }
}

/// A value of type `Option<MLReverseOptions>`: 0 where there is none, else 1 and the value.
pub open spec fn fed_opt_reverse_options(out: Seq<u8>, x: Option<MLReverseOptions>) -> Seq<u8> {
    match x {
        None => fed_long(out, 0),
        Some(v) => fed_reverse_options(fed_long(out, 1), v),
    }
}

fn feed_opt_reverse_options(out: &mut Vec<u8>, x: &Option<MLReverseOptions>)
    ensures
        final(out)@ == fed_opt_reverse_options(old(out)@, *x),
{
    match x {
        None => feed_long(out, 0),
        Some(v) => {
            feed_long(out, 1);
            feed_reverse_options(out, v);
        },
    }
}

/// A value of type `Option<MLCumulativeSumOptions>`: 0 where there is none, else 1 and the value.
pub open spec fn fed_opt_cumulative_sum_options(out: Seq<u8>, x: Option<MLCumulativeSumOptions>) -> Seq<u8> {
    match x {
        None => fed_long(out, 0),
        Some(v) => fed_cumulative_sum_options(fed_long(out, 1), v),
    }
}

fn feed_opt_cumulative_sum_options(out: &mut Vec<u8>, x: &Option<MLCumulativeSumOptions>)
    ensures
        final(out)@ == fed_opt_cumulative_sum_options(old(out)@, *x),
{
    match x {
        None => feed_long(out, 0),
        Some(v) => {
            feed_long(out, 1);
            feed_cumulative_sum_options(out, v);
        },
    }
}

/// A value of type `Option<MLTriangularOptions>`: 0 where there is none, else 1 and the value.
pub open spec fn fed_opt_triangular_options(out: Seq<u8>, x: Option<MLTriangularOptions>) -> Seq<u8> {
    match x {
        None => fed_long(out, 0),
        Some(v) => fed_triangular_options(fed_long(out, 1), v),
    }
}

fn feed_opt_triangular_options(out: &mut Vec<u8>, x: &Option<MLTriangularOptions>)
    ensures
        final(out)@ == fed_opt_triangular_options(old(out)@, *x),
{
    match x {
        None => feed_long(out, 0),
        Some(v) => {
            feed_long(out, 1);
            feed_triangular_options(out, v);
        },
    }
}

/// A value of type `Option<MLTransposeOptions>`: 0 where there is none, else 1 and the value.
pub open spec fn fed_opt_transpose_options(out: Seq<u8>, x: Option<MLTransposeOptions>) -> Seq<u8> {
    match x {
        None => fed_long(out, 0),
        Some(v) => fed_transpose_options(fed_long(out, 1), v),
    }
}

fn feed_opt_transpose_options(out: &mut Vec<u8>, x: &Option<MLTransposeOptions>)
    ensures
        final(out)@ == fed_opt_transpose_options(old(out)@, *x),
{
    match x {
        None => feed_long(out, 0),
        Some(v) => {
            feed_long(out, 1);
            feed_transpose_options(out, v);
        },
    }
}

/// A value of type `Option<MLResample2dOptions>`: 0 where there is none, else 1 and the value.
pub open spec fn fed_opt_resample2d_options(out: Seq<u8>, x: Option<MLResample2dOptions>) -> Seq<u8> {
    match x {
        None => fed_long(out, 0),
        Some(v) => fed_resample2d_options(fed_long(out, 1), v),
    }
}

fn feed_opt_resample2d_options(out: &mut Vec<u8>, x: &Option<MLResample2dOptions>)
    ensures
        final(out)@ == fed_opt_resample2d_options(old(out)@, *x),
{
    match x {
        None => feed_long(out, 0),
        Some(v) => {
            feed_long(out, 1);
            feed_resample2d_options(out, v);
        },
    }
}

/// A value of type `Option<i64>`: 0 where there is none, else 1 and the value.
pub open spec fn fed_opt_signed(out: Seq<u8>, x: Option<i64>) -> Seq<u8> {
    match x {
        None => fed_long(out, 0),
        Some(v) => fed_long(fed_long(out, 1), v as u64),
    }
}

fn feed_opt_signed(out: &mut Vec<u8>, x: &Option<i64>)
    ensures
        final(out)@ == fed_opt_signed(old(out)@, *x),
{
    match x {
        None => feed_long(out, 0),
        Some(v) => {
            feed_long(out, 1);
            feed_long(out, *v as u64);
        },
    }
}

/// A value of type `Option<u64>`: 0 where there is none, else 1 and the value.
pub open spec fn fed_opt_long(out: Seq<u8>, x: Option<u64>) -> Seq<u8> {
    match x {
        None => fed_long(out, 0),
        Some(v) => fed_long(fed_long(out, 1), v),
    }
}

fn feed_opt_long(out: &mut Vec<u8>, x: &Option<u64>)
    ensures
        final(out)@ == fed_opt_long(old(out)@, *x),
{
    match x {
        None => feed_long(out, 0),
        Some(v) => {
            feed_long(out, 1);
            feed_long(out, *v);
        },
    }
}

/// A value of type `Option<FloatReading>`: 0 where there is none, else 1 and the value.
pub open spec fn fed_opt_reading(out: Seq<u8>, x: Option<FloatReading>) -> Seq<u8> {
    match x {
        None => fed_long(out, 0),
        Some(v) => fed_reading(fed_long(out, 1), v),
    }
}

fn feed_opt_reading(out: &mut Vec<u8>, x: &Option<FloatReading>)
    ensures
        final(out)@ == fed_opt_reading(old(out)@, *x),
{
    match x {
        None => feed_long(out, 0),
        Some(v) => {
            feed_long(out, 1);
            feed_reading(out, v);
        },
    }
}

/// A value of type `Option<String>`: 0 where there is none, else 1 and the value.
pub open spec fn fed_opt_text(out: Seq<u8>, x: Option<String>) -> Seq<u8> {
    match x {
        None => fed_long(out, 0),
        Some(v) => fed_text(fed_long(out, 1), v@),
    }
}

fn feed_opt_text(out: &mut Vec<u8>, x: &Option<String>)
    ensures
        final(out)@ == fed_opt_text(old(out)@, *x),
{
    match x {
        None => feed_long(out, 0),
        Some(v) => {
            feed_long(out, 1);
            feed_text(out, v.as_str());
        },
    }
}

/// A value of type `Option<Option<Vec<u32>>>`: 0 where there is none, else 1 and the value.
pub open spec fn fed_opt_opt_words(out: Seq<u8>, x: Option<Option<Vec<u32>>>) -> Seq<u8> {
    match x {
        None => fed_long(out, 0),
        Some(v) => fed_opt_words(fed_long(out, 1), v),
    }
}

fn feed_opt_opt_words(out: &mut Vec<u8>, x: &Option<Option<Vec<u32>>>)
    ensures
        final(out)@ == fed_opt_opt_words(old(out)@, *x),
{
    match x {
        None => feed_long(out, 0),
        Some(v) => {
            feed_long(out, 1);
            feed_opt_words(out, v);
        },
    }
}

/// The options of type [`MLEluOptions`], field by field.
pub open spec fn fed_elu_options(out: Seq<u8>, x: MLEluOptions) -> Seq<u8> {
    fed_scalar(out, x.alpha)
}

fn feed_elu_options(out: &mut Vec<u8>, x: &MLEluOptions)
    ensures
        final(out)@ == fed_elu_options(old(out)@, *x),
{
    feed_scalar(out, &x.alpha);
}

/// The options of type [`MLLeakyReluOptions`], field by field.
pub open spec fn fed_leaky_relu_options(out: Seq<u8>, x: MLLeakyReluOptions) -> Seq<u8> {
    fed_scalar(out, x.alpha)
}

fn feed_leaky_relu_options(out: &mut Vec<u8>, x: &MLLeakyReluOptions)
    ensures
        final(out)@ == fed_leaky_relu_options(old(out)@, *x),
{
    feed_scalar(out, &x.alpha);
}

/// The options of type [`MLHardSigmoidOptions`], field by field.
pub open spec fn fed_hard_sigmoid_options(out: Seq<u8>, x: MLHardSigmoidOptions) -> Seq<u8> {
    let out = fed_scalar(out, x.alpha);
    fed_scalar(out, x.beta)
}

fn feed_hard_sigmoid_options(out: &mut Vec<u8>, x: &MLHardSigmoidOptions)
    ensures
        final(out)@ == fed_hard_sigmoid_options(old(out)@, *x),
{
    feed_scalar(out, &x.alpha);
    feed_scalar(out, &x.beta);
}

/// The options of type [`MLLinearOptions`], field by field.
pub open spec fn fed_linear_options(out: Seq<u8>, x: MLLinearOptions) -> Seq<u8> {
    let out = fed_scalar(out, x.alpha);
    fed_scalar(out, x.beta)
}

fn feed_linear_options(out: &mut Vec<u8>, x: &MLLinearOptions)
    ensures
        final(out)@ == fed_linear_options(old(out)@, *x),
{
    feed_scalar(out, &x.alpha);
    feed_scalar(out, &x.beta);
}

/// The options of type [`MLGemmOptions`], field by field.
pub open spec fn fed_gemm_options(out: Seq<u8>, x: MLGemmOptions) -> Seq<u8> {
    let out = fed_opt_word(out, x.c);
    let out = fed_scalar(out, x.alpha);
    let out = fed_scalar(out, x.beta);
    let out = fed_flag(out, x.a_transpose);
    fed_flag(out, x.b_transpose)
}

fn feed_gemm_options(out: &mut Vec<u8>, x: &MLGemmOptions)
    ensures
        final(out)@ == fed_gemm_options(old(out)@, *x),
{
    feed_opt_word(out, &x.c);
    feed_scalar(out, &x.alpha);
    feed_scalar(out, &x.beta);
    feed_flag(out, x.a_transpose);
    feed_flag(out, x.b_transpose);
}

/// The options of type [`MLBatchNormalizationOptions`], field by field.
pub open spec fn fed_batch_normalization_options(out: Seq<u8>, x: MLBatchNormalizationOptions) -> Seq<u8> {
    let out = fed_opt_word(out, x.scale);
    let out = fed_opt_word(out, x.bias);
    let out = fed_word(out, x.axis);
    fed_scalar(out, x.epsilon)
}

fn feed_batch_normalization_options(out: &mut Vec<u8>, x: &MLBatchNormalizationOptions)
    ensures
        final(out)@ == fed_batch_normalization_options(old(out)@, *x),
{
    feed_opt_word(out, &x.scale);
    feed_opt_word(out, &x.bias);
    feed_word(out, x.axis);
    feed_scalar(out, &x.epsilon);
}

/// The options of type [`MLInstanceNormalizationOptions`], field by field.
pub open spec fn fed_instance_normalization_options(out: Seq<u8>, x: MLInstanceNormalizationOptions) -> Seq<u8> {
    let out = fed_opt_word(out, x.scale);
    let out = fed_opt_word(out, x.bias);
    let out = fed_scalar(out, x.epsilon);
    fed_text(out, x.layout@)
}

fn feed_instance_normalization_options(out: &mut Vec<u8>, x: &MLInstanceNormalizationOptions)
    ensures
        final(out)@ == fed_instance_normalization_options(old(out)@, *x),
{
    feed_opt_word(out, &x.scale);
    feed_opt_word(out, &x.bias);
    feed_scalar(out, &x.epsilon);
    feed_text(out, x.layout.as_str());
}

/// The options of type [`MLLayerNormalizationOptions`], field by field.
pub open spec fn fed_layer_normalization_options(out: Seq<u8>, x: MLLayerNormalizationOptions) -> Seq<u8> {
    let out = fed_opt_word(out, x.scale);
    let out = fed_opt_word(out, x.bias);
    let out = fed_opt_words(out, x.axes);
    fed_scalar(out, x.epsilon)
}

fn feed_layer_normalization_options(out: &mut Vec<u8>, x: &MLLayerNormalizationOptions)
    ensures
        final(out)@ == fed_layer_normalization_options(old(out)@, *x),
{
    feed_opt_word(out, &x.scale);
    feed_opt_word(out, &x.bias);
    feed_opt_words(out, &x.axes);
    feed_scalar(out, &x.epsilon);
}

/// The options of type [`MLReduceOptions`], field by field.
pub open spec fn fed_reduce_options(out: Seq<u8>, x: MLReduceOptions) -> Seq<u8> {
    let out = fed_opt_words(out, x.axes);
    fed_flag(out, x.keep_dimensions)
}

fn feed_reduce_options(out: &mut Vec<u8>, x: &MLReduceOptions)
    ensures
        final(out)@ == fed_reduce_options(old(out)@, *x),
{
    feed_opt_words(out, &x.axes);
    feed_flag(out, x.keep_dimensions);
}

/// The options of type [`MLSliceOptions`], field by field.
pub open spec fn fed_slice_options(out: Seq<u8>, x: MLSliceOptions) -> Seq<u8> {
    fed_words(out, x.strides@)
}

fn feed_slice_options(out: &mut Vec<u8>, x: &MLSliceOptions)
    ensures
        final(out)@ == fed_slice_options(old(out)@, *x),
{
    feed_words(out, &x.strides);
}

/// The options of type [`MLSplitOptions`], field by field.
pub open spec fn fed_split_options(out: Seq<u8>, x: MLSplitOptions) -> Seq<u8> {
    fed_word(out, x.axis)
}

fn feed_split_options(out: &mut Vec<u8>, x: &MLSplitOptions)
    ensures
        final(out)@ == fed_split_options(old(out)@, *x),
{
    feed_word(out, x.axis);
}

/// The options of type [`MLGatherOptions`], field by field.
pub open spec fn fed_gather_options(out: Seq<u8>, x: MLGatherOptions) -> Seq<u8> {
    fed_word(out, x.axis)
}

fn feed_gather_options(out: &mut Vec<u8>, x: &MLGatherOptions)
    ensures
        final(out)@ == fed_gather_options(old(out)@, *x),
{
    feed_word(out, x.axis);
}

/// The options of type [`MLScatterOptions`], field by field.
pub open spec fn fed_scatter_options(out: Seq<u8>, x: MLScatterOptions) -> Seq<u8> {
    fed_word(out, x.axis)
}

fn feed_scatter_options(out: &mut Vec<u8>, x: &MLScatterOptions)
    ensures
        final(out)@ == fed_scatter_options(old(out)@, *x),
{
    feed_word(out, x.axis);
}

/// The options of type [`MLArgMinMaxOptions`], field by field.
pub open spec fn fed_arg_min_max_options(out: Seq<u8>, x: MLArgMinMaxOptions) -> Seq<u8> {
    fed_flag(out, x.keep_dimensions)
}

fn feed_arg_min_max_options(out: &mut Vec<u8>, x: &MLArgMinMaxOptions)
    ensures
        final(out)@ == fed_arg_min_max_options(old(out)@, *x),
{
    feed_flag(out, x.keep_dimensions);
}

/// The options of type [`MLClampOptions`], field by field.
pub open spec fn fed_clamp_options(out: Seq<u8>, x: MLClampOptions) -> Seq<u8> {
    let out = fed_opt_number(out, x.min_value);
    fed_opt_number(out, x.max_value)
}

fn feed_clamp_options(out: &mut Vec<u8>, x: &MLClampOptions)
    ensures
        final(out)@ == fed_clamp_options(old(out)@, *x),
{
    feed_opt_number(out, &x.min_value);
    feed_opt_number(out, &x.max_value);
}

/// The options of type [`MLPadOptions`], field by field.
pub open spec fn fed_pad_options(out: Seq<u8>, x: MLPadOptions) -> Seq<u8> {
    let out = fed_text(out, x.mode@);
    fed_opt_number(out, x.value)
}

fn feed_pad_options(out: &mut Vec<u8>, x: &MLPadOptions)
    ensures
        final(out)@ == fed_pad_options(old(out)@, *x),
{
    feed_text(out, x.mode.as_str());
    feed_opt_number(out, &x.value);
}

/// The options of type [`MLReverseOptions`], field by field.
pub open spec fn fed_reverse_options(out: Seq<u8>, x: MLReverseOptions) -> Seq<u8> {
    fed_opt_words(out, x.axes)
}

fn feed_reverse_options(out: &mut Vec<u8>, x: &MLReverseOptions)
    ensures
        final(out)@ == fed_reverse_options(old(out)@, *x),
{
    feed_opt_words(out, &x.axes);
}

/// The options of type [`MLCumulativeSumOptions`], field by field.
pub open spec fn fed_cumulative_sum_options(out: Seq<u8>, x: MLCumulativeSumOptions) -> Seq<u8> {
    let out = fed_flag(out, x.exclusive);
    fed_flag(out, x.reversed)
}

fn feed_cumulative_sum_options(out: &mut Vec<u8>, x: &MLCumulativeSumOptions)
    ensures
        final(out)@ == fed_cumulative_sum_options(old(out)@, *x),
{
    feed_flag(out, x.exclusive);
    feed_flag(out, x.reversed);
}

/// The options of type [`MLTriangularOptions`], field by field.
pub open spec fn fed_triangular_options(out: Seq<u8>, x: MLTriangularOptions) -> Seq<u8> {
    let out = fed_opt_flag(out, x.upper);
    fed_word(out, x.diagonal as u32)
}

fn feed_triangular_options(out: &mut Vec<u8>, x: &MLTriangularOptions)
    ensures
        final(out)@ == fed_triangular_options(old(out)@, *x),
{
    feed_opt_flag(out, &x.upper);
    feed_word(out, x.diagonal as u32);
}

/// The options of type [`MLTransposeOptions`], field by field.
pub open spec fn fed_transpose_options(out: Seq<u8>, x: MLTransposeOptions) -> Seq<u8> {
    fed_words(out, x.permutation@)
}

fn feed_transpose_options(out: &mut Vec<u8>, x: &MLTransposeOptions)
    ensures
        final(out)@ == fed_transpose_options(old(out)@, *x),
{
    feed_words(out, &x.permutation);
}

/// The options of type [`MLResample2dOptions`], field by field.
pub open spec fn fed_resample2d_options(out: Seq<u8>, x: MLResample2dOptions) -> Seq<u8> {
    let out = fed_text(out, x.mode@);
    let out = fed_words(out, x.scales@);
    let out = fed_text(out, x.scales_text@);
    let out = fed_opt_words(out, x.sizes);
    fed_words(out, x.axes@)
}

fn feed_resample2d_options(out: &mut Vec<u8>, x: &MLResample2dOptions)
    ensures
        final(out)@ == fed_resample2d_options(old(out)@, *x),
{
    feed_text(out, x.mode.as_str());
    feed_words(out, &x.scales);
    feed_text(out, x.scales_text.as_str());
    feed_opt_words(out, &x.sizes);
    feed_words(out, &x.axes);
}

/// The options of type [`MLConv2dOptions`], field by field.
pub open spec fn fed_conv2d_options(out: Seq<u8>, x: MLConv2dOptions) -> Seq<u8> {
    let out = fed_words(out, x.padding@);
    let out = fed_words(out, x.strides@);
    let out = fed_words(out, x.dilations@);
    let out = fed_word(out, x.groups);
    let out = fed_text(out, x.input_layout@);
    let out = fed_text(out, x.filter_layout@);
    fed_opt_word(out, x.bias)
}

fn feed_conv2d_options(out: &mut Vec<u8>, x: &MLConv2dOptions)
    ensures
        final(out)@ == fed_conv2d_options(old(out)@, *x),
{
    feed_words(out, &x.padding);
    feed_words(out, &x.strides);
    feed_words(out, &x.dilations);
    feed_word(out, x.groups);
    feed_text(out, x.input_layout.as_str());
    feed_text(out, x.filter_layout.as_str());
    feed_opt_word(out, &x.bias);
}

/// The options of type [`MLConvTranspose2dOptions`], field by field.
pub open spec fn fed_conv_transpose2d_options(out: Seq<u8>, x: MLConvTranspose2dOptions) -> Seq<u8> {
    let out = fed_words(out, x.padding@);
    let out = fed_words(out, x.strides@);
    let out = fed_words(out, x.dilations@);
    let out = fed_words(out, x.output_padding@);
    let out = fed_opt_words(out, x.output_sizes);
    let out = fed_word(out, x.groups);
    let out = fed_text(out, x.input_layout@);
    let out = fed_text(out, x.filter_layout@);
    fed_opt_word(out, x.bias)
}

fn feed_conv_transpose2d_options(out: &mut Vec<u8>, x: &MLConvTranspose2dOptions)
    ensures
        final(out)@ == fed_conv_transpose2d_options(old(out)@, *x),
{
    feed_words(out, &x.padding);
    feed_words(out, &x.strides);
    feed_words(out, &x.dilations);
    feed_words(out, &x.output_padding);
    feed_opt_words(out, &x.output_sizes);
    feed_word(out, x.groups);
    feed_text(out, x.input_layout.as_str());
    feed_text(out, x.filter_layout.as_str());
    feed_opt_word(out, &x.bias);
}

/// The options of type [`MLPool2dOptions`], field by field.
pub open spec fn fed_pool2d_options(out: Seq<u8>, x: MLPool2dOptions) -> Seq<u8> {
    let out = fed_opt_words(out, x.window_dimensions);
    let out = fed_words(out, x.padding@);
    let out = fed_words(out, x.strides@);
    let out = fed_words(out, x.dilations@);
    let out = fed_text(out, x.layout@);
    let out = fed_text(out, x.output_shape_rounding@);
    fed_opt_words(out, x.output_sizes)
}

fn feed_pool2d_options(out: &mut Vec<u8>, x: &MLPool2dOptions)
    ensures
        final(out)@ == fed_pool2d_options(old(out)@, *x),
{
    feed_opt_words(out, &x.window_dimensions);
    feed_words(out, &x.padding);
    feed_words(out, &x.strides);
    feed_words(out, &x.dilations);
    feed_text(out, x.layout.as_str());
    feed_text(out, x.output_shape_rounding.as_str());
    feed_opt_words(out, &x.output_sizes);
}

/// An operation kind: its number, then its parameters.
pub open spec fn fed_kind(out: Seq<u8>, x: OperationKind) -> Seq<u8> {
    match x {
        OperationKind::Add => fed_long(out, 0),
        OperationKind::Sub => fed_long(out, 1),
        OperationKind::Mul => fed_long(out, 2),
        OperationKind::Div => fed_long(out, 3),
        OperationKind::Pow => fed_long(out, 4),
        OperationKind::Max => fed_long(out, 5),
        OperationKind::Min => fed_long(out, 6),
        OperationKind::Relu => fed_long(out, 7),
        OperationKind::Sigmoid => fed_long(out, 8),
        OperationKind::Tanh => fed_long(out, 9),
        OperationKind::Elu { options } => fed_opt_elu_options(fed_long(out, 10), options),
        OperationKind::Softsign => fed_long(out, 11),
        OperationKind::Softplus => fed_long(out, 12),
        OperationKind::Gelu => fed_long(out, 13),
        OperationKind::LeakyRelu { options } => fed_opt_leaky_relu_options(
            fed_long(out, 14),
            options,
        ),
        OperationKind::Prelu => fed_long(out, 15),
        OperationKind::HardSigmoid { options } => fed_opt_hard_sigmoid_options(
            fed_long(out, 16),
            options,
        ),
        OperationKind::HardSwish => fed_long(out, 17),
        OperationKind::Exp => fed_long(out, 18),
        OperationKind::Log => fed_long(out, 19),
        OperationKind::Sqrt => fed_long(out, 20),
        OperationKind::Reciprocal => fed_long(out, 21),
        OperationKind::Abs => fed_long(out, 22),
        OperationKind::Neg => fed_long(out, 23),
        OperationKind::Sin => fed_long(out, 24),
        OperationKind::Cos => fed_long(out, 25),
        OperationKind::Tan => fed_long(out, 26),
        OperationKind::Ceil => fed_long(out, 27),
        OperationKind::Floor => fed_long(out, 28),
        OperationKind::Erf => fed_long(out, 29),
        OperationKind::Sign => fed_long(out, 30),
        OperationKind::Identity => fed_long(out, 31),
        OperationKind::Cast => fed_long(out, 32),
        OperationKind::QuantizeLinear => fed_long(out, 33),
        OperationKind::DequantizeLinear => fed_long(out, 34),
        OperationKind::Matmul => fed_long(out, 35),
        OperationKind::Gemm { options } => fed_opt_gemm_options(fed_long(out, 36), options),
        OperationKind::Conv2d { options } => fed_opt_conv2d_options(fed_long(out, 37), options),
        OperationKind::ConvTranspose2d { options } => fed_opt_conv_transpose2d_options(
            fed_long(out, 38),
            options,
        ),
        OperationKind::AveragePool2d { options } => fed_opt_pool2d_options(
            fed_long(out, 39),
            options,
        ),
        OperationKind::MaxPool2d { options } => fed_opt_pool2d_options(fed_long(out, 40), options),
        OperationKind::L2Pool2d { options } => fed_opt_pool2d_options(fed_long(out, 41), options),
        OperationKind::GlobalAveragePool { options } => fed_opt_pool2d_options(
            fed_long(out, 42),
            options,
        ),
        OperationKind::GlobalMaxPool { options } => fed_opt_pool2d_options(
            fed_long(out, 43),
            options,
        ),
        OperationKind::BatchNormalization { options } => fed_opt_batch_normalization_options(
            fed_long(out, 44),
            options,
        ),
        OperationKind::InstanceNormalization { options } => fed_opt_instance_normalization_options(
            fed_long(out, 45),
            options,
        ),
        OperationKind::LayerNormalization { options } => fed_opt_layer_normalization_options(
            fed_long(out, 46),
            options,
        ),
        OperationKind::ReduceSum { options } => fed_opt_reduce_options(fed_long(out, 47), options),
        OperationKind::ReduceMean { options } => fed_opt_reduce_options(fed_long(out, 48), options),
        OperationKind::ReduceMax { options } => fed_opt_reduce_options(fed_long(out, 49), options),
        OperationKind::ReduceMin { options } => fed_opt_reduce_options(fed_long(out, 50), options),
        OperationKind::ReduceProduct { options } => fed_opt_reduce_options(
            fed_long(out, 51),
            options,
        ),
        OperationKind::ReduceL1 { options } => fed_opt_reduce_options(fed_long(out, 52), options),
        OperationKind::ReduceL2 { options } => fed_opt_reduce_options(fed_long(out, 53), options),
        OperationKind::ReduceLogSum { options } => fed_opt_reduce_options(
            fed_long(out, 54),
            options,
        ),
        OperationKind::ReduceLogSumExp { options } => fed_opt_reduce_options(
            fed_long(out, 55),
            options,
        ),
        OperationKind::ReduceSumSquare { options } => fed_opt_reduce_options(
            fed_long(out, 56),
            options,
        ),
        OperationKind::Slice { starts, sizes, options } => {
            let out = fed_long(out, 57);
            let out = fed_words(out, starts@);
            let out = fed_dimensions(out, sizes@);
            fed_opt_slice_options(out, options)
        },
        OperationKind::Split { splits, options } => {
            let out = fed_long(out, 58);
            let out = fed_words(out, splits@);
            fed_opt_split_options(out, options)
        },
        OperationKind::Squeeze { axes } => fed_opt_words(fed_long(out, 59), axes),
        OperationKind::Unsqueeze { axes } => fed_opt_opt_words(fed_long(out, 60), axes),
        OperationKind::Expand { new_shape } => fed_dimensions(fed_long(out, 61), new_shape@),
        OperationKind::Tile { repetitions } => fed_words(fed_long(out, 62), repetitions@),
        OperationKind::Equal => fed_long(out, 63),
        OperationKind::Greater => fed_long(out, 64),
        OperationKind::GreaterOrEqual => fed_long(out, 65),
        OperationKind::Lesser => fed_long(out, 66),
        OperationKind::LesserOrEqual => fed_long(out, 67),
        OperationKind::NotEqual => fed_long(out, 68),
        OperationKind::LogicalAnd => fed_long(out, 69),
        OperationKind::LogicalOr => fed_long(out, 70),
        OperationKind::LogicalXor => fed_long(out, 71),
        OperationKind::LogicalNot => fed_long(out, 72),
        OperationKind::Gather { options } => fed_opt_gather_options(fed_long(out, 73), options),
        OperationKind::GatherND => fed_long(out, 74),
        OperationKind::GatherElements { options } => fed_opt_gather_options(
            fed_long(out, 75),
            options,
        ),
        OperationKind::ScatterElements { options } => fed_opt_scatter_options(
            fed_long(out, 76),
            options,
        ),
        OperationKind::ScatterND => fed_long(out, 77),
        OperationKind::ArgMax { axis, options } => {
            let out = fed_long(out, 78);
            let out = fed_word(out, axis);
            fed_opt_arg_min_max_options(out, options)
        },
        OperationKind::ArgMin { axis, options } => {
            let out = fed_long(out, 79);
            let out = fed_word(out, axis);
            fed_opt_arg_min_max_options(out, options)
        },
        OperationKind::Clamp { options } => fed_opt_clamp_options(fed_long(out, 80), options),
        OperationKind::Where => fed_long(out, 81),
        OperationKind::Linear { options } => fed_opt_linear_options(fed_long(out, 82), options),
        OperationKind::Pad { beginning_padding, ending_padding, options } => {
            let out = fed_long(out, 83);
            let out = fed_words(out, beginning_padding@);
            let out = fed_words(out, ending_padding@);
            fed_opt_pad_options(out, options)
        },
        OperationKind::Softmax { axis } => fed_word(fed_long(out, 84), axis),
        OperationKind::Concat { axis } => fed_word(fed_long(out, 85), axis),
        OperationKind::IsNaN => fed_long(out, 86),
        OperationKind::IsInfinite => fed_long(out, 87),
        OperationKind::RoundEven => fed_long(out, 88),
        OperationKind::Reverse { options } => fed_opt_reverse_options(fed_long(out, 89), options),
        OperationKind::CumulativeSum { axis, options } => {
            let out = fed_long(out, 90);
            let out = fed_word(out, axis);
            fed_opt_cumulative_sum_options(out, options)
        },
        OperationKind::Triangular { options } => fed_opt_triangular_options(
            fed_long(out, 91),
            options,
        ),
        OperationKind::Transpose { options } => fed_opt_transpose_options(
            fed_long(out, 92),
            options,
        ),
        OperationKind::Reshape { new_shape } => fed_dimensions(fed_long(out, 93), new_shape@),
        OperationKind::Resample2d { options } => fed_opt_resample2d_options(
            fed_long(out, 94),
            options,
        ),
        OperationKind::Other { name } => fed_text(fed_long(out, 95), name@),
    }
}

fn feed_kind(out: &mut Vec<u8>, x: &OperationKind)
    ensures
        final(out)@ == fed_kind(old(out)@, *x),
{
    match x {
        OperationKind::Add => feed_long(out, 0),
        OperationKind::Sub => feed_long(out, 1),
        OperationKind::Mul => feed_long(out, 2),
        OperationKind::Div => feed_long(out, 3),
        OperationKind::Pow => feed_long(out, 4),
        OperationKind::Max => feed_long(out, 5),
        OperationKind::Min => feed_long(out, 6),
        OperationKind::Relu => feed_long(out, 7),
        OperationKind::Sigmoid => feed_long(out, 8),
        OperationKind::Tanh => feed_long(out, 9),
        OperationKind::Elu { options } => {
            feed_long(out, 10);
            feed_opt_elu_options(out, options);
        },
        OperationKind::Softsign => feed_long(out, 11),
        OperationKind::Softplus => feed_long(out, 12),
        OperationKind::Gelu => feed_long(out, 13),
        OperationKind::LeakyRelu { options } => {
            feed_long(out, 14);
            feed_opt_leaky_relu_options(out, options);
        },
        OperationKind::Prelu => feed_long(out, 15),
        OperationKind::HardSigmoid { options } => {
            feed_long(out, 16);
            feed_opt_hard_sigmoid_options(out, options);
        },
        OperationKind::HardSwish => feed_long(out, 17),
        OperationKind::Exp => feed_long(out, 18),
        OperationKind::Log => feed_long(out, 19),
        OperationKind::Sqrt => feed_long(out, 20),
        OperationKind::Reciprocal => feed_long(out, 21),
        OperationKind::Abs => feed_long(out, 22),
        OperationKind::Neg => feed_long(out, 23),
        OperationKind::Sin => feed_long(out, 24),
        OperationKind::Cos => feed_long(out, 25),
        OperationKind::Tan => feed_long(out, 26),
        OperationKind::Ceil => feed_long(out, 27),
        OperationKind::Floor => feed_long(out, 28),
        OperationKind::Erf => feed_long(out, 29),
        OperationKind::Sign => feed_long(out, 30),
        OperationKind::Identity => feed_long(out, 31),
        OperationKind::Cast => feed_long(out, 32),
        OperationKind::QuantizeLinear => feed_long(out, 33),
        OperationKind::DequantizeLinear => feed_long(out, 34),
        OperationKind::Matmul => feed_long(out, 35),
        OperationKind::Gemm { options } => {
            feed_long(out, 36);
            feed_opt_gemm_options(out, options);
        },
        OperationKind::Conv2d { options } => {
            feed_long(out, 37);
            feed_opt_conv2d_options(out, options);
        },
        OperationKind::ConvTranspose2d { options } => {
            feed_long(out, 38);
            feed_opt_conv_transpose2d_options(out, options);
        },
        OperationKind::AveragePool2d { options } => {
            feed_long(out, 39);
            feed_opt_pool2d_options(out, options);
        },
        OperationKind::MaxPool2d { options } => {
            feed_long(out, 40);
            feed_opt_pool2d_options(out, options);
        },
        OperationKind::L2Pool2d { options } => {
            feed_long(out, 41);
            feed_opt_pool2d_options(out, options);
        },
        OperationKind::GlobalAveragePool { options } => {
            feed_long(out, 42);
            feed_opt_pool2d_options(out, options);
        },
        OperationKind::GlobalMaxPool { options } => {
            feed_long(out, 43);
            feed_opt_pool2d_options(out, options);
        },
        OperationKind::BatchNormalization { options } => {
            feed_long(out, 44);
            feed_opt_batch_normalization_options(out, options);
        },
        OperationKind::InstanceNormalization { options } => {
            feed_long(out, 45);
            feed_opt_instance_normalization_options(out, options);
        },
        OperationKind::LayerNormalization { options } => {
            feed_long(out, 46);
            feed_opt_layer_normalization_options(out, options);
        },
        OperationKind::ReduceSum { options } => {
            feed_long(out, 47);
            feed_opt_reduce_options(out, options);
        },
        OperationKind::ReduceMean { options } => {
            feed_long(out, 48);
            feed_opt_reduce_options(out, options);
        },
        OperationKind::ReduceMax { options } => {
            feed_long(out, 49);
            feed_opt_reduce_options(out, options);
        },
        OperationKind::ReduceMin { options } => {
            feed_long(out, 50);
            feed_opt_reduce_options(out, options);
        },
        OperationKind::ReduceProduct { options } => {
            feed_long(out, 51);
            feed_opt_reduce_options(out, options);
        },
        OperationKind::ReduceL1 { options } => {
            feed_long(out, 52);
            feed_opt_reduce_options(out, options);
        },
        OperationKind::ReduceL2 { options } => {
            feed_long(out, 53);
            feed_opt_reduce_options(out, options);
        },
        OperationKind::ReduceLogSum { options } => {
            feed_long(out, 54);
            feed_opt_reduce_options(out, options);
        },
        OperationKind::ReduceLogSumExp { options } => {
            feed_long(out, 55);
            feed_opt_reduce_options(out, options);
        },
        OperationKind::ReduceSumSquare { options } => {
            feed_long(out, 56);
            feed_opt_reduce_options(out, options);
        },
        OperationKind::Slice { starts, sizes, options } => {
            feed_long(out, 57);
            feed_words(out, starts);
            feed_dimensions(out, sizes);
            feed_opt_slice_options(out, options);
        },
        OperationKind::Split { splits, options } => {
            feed_long(out, 58);
            feed_words(out, splits);
            feed_opt_split_options(out, options);
        },
        OperationKind::Squeeze { axes } => {
            feed_long(out, 59);
            feed_opt_words(out, axes);
        },
        OperationKind::Unsqueeze { axes } => {
            feed_long(out, 60);
            feed_opt_opt_words(out, axes);
        },
        OperationKind::Expand { new_shape } => {
            feed_long(out, 61);
            feed_dimensions(out, new_shape);
        },
        OperationKind::Tile { repetitions } => {
            feed_long(out, 62);
            feed_words(out, repetitions);
        },
        OperationKind::Equal => feed_long(out, 63),
        OperationKind::Greater => feed_long(out, 64),
        OperationKind::GreaterOrEqual => feed_long(out, 65),
        OperationKind::Lesser => feed_long(out, 66),
        OperationKind::LesserOrEqual => feed_long(out, 67),
        OperationKind::NotEqual => feed_long(out, 68),
        OperationKind::LogicalAnd => feed_long(out, 69),
        OperationKind::LogicalOr => feed_long(out, 70),
        OperationKind::LogicalXor => feed_long(out, 71),
        OperationKind::LogicalNot => feed_long(out, 72),
        OperationKind::Gather { options } => {
            feed_long(out, 73);
            feed_opt_gather_options(out, options);
        },
        OperationKind::GatherND => feed_long(out, 74),
        OperationKind::GatherElements { options } => {
            feed_long(out, 75);
            feed_opt_gather_options(out, options);
        },
        OperationKind::ScatterElements { options } => {
            feed_long(out, 76);
            feed_opt_scatter_options(out, options);
        },
        OperationKind::ScatterND => feed_long(out, 77),
        OperationKind::ArgMax { axis, options } => {
            feed_long(out, 78);
            feed_word(out, *axis);
            feed_opt_arg_min_max_options(out, options);
        },
        OperationKind::ArgMin { axis, options } => {
            feed_long(out, 79);
            feed_word(out, *axis);
            feed_opt_arg_min_max_options(out, options);
        },
        OperationKind::Clamp { options } => {
            feed_long(out, 80);
            feed_opt_clamp_options(out, options);
        },
        OperationKind::Where => feed_long(out, 81),
        OperationKind::Linear { options } => {
            feed_long(out, 82);
            feed_opt_linear_options(out, options);
        },
        OperationKind::Pad { beginning_padding, ending_padding, options } => {
            feed_long(out, 83);
            feed_words(out, beginning_padding);
            feed_words(out, ending_padding);
            feed_opt_pad_options(out, options);
        },
        OperationKind::Softmax { axis } => {
            feed_long(out, 84);
            feed_word(out, *axis);
        },
        OperationKind::Concat { axis } => {
            feed_long(out, 85);
            feed_word(out, *axis);
        },
        OperationKind::IsNaN => feed_long(out, 86),
        OperationKind::IsInfinite => feed_long(out, 87),
        OperationKind::RoundEven => feed_long(out, 88),
        OperationKind::Reverse { options } => {
            feed_long(out, 89);
            feed_opt_reverse_options(out, options);
        },
        OperationKind::CumulativeSum { axis, options } => {
            feed_long(out, 90);
            feed_word(out, *axis);
            feed_opt_cumulative_sum_options(out, options);
        },
        OperationKind::Triangular { options } => {
            feed_long(out, 91);
            feed_opt_triangular_options(out, options);
        },
        OperationKind::Transpose { options } => {
            feed_long(out, 92);
            feed_opt_transpose_options(out, options);
        },
        OperationKind::Reshape { new_shape } => {
            feed_long(out, 93);
            feed_dimensions(out, new_shape);
        },
        OperationKind::Resample2d { options } => {
            feed_long(out, 94);
            feed_opt_resample2d_options(out, options);
        },
        OperationKind::Other { name } => {
            feed_long(out, 95);
            feed_text(out, name.as_str());
        },
    }
}

/// An operation.
pub open spec fn fed_operation(out: Seq<u8>, x: Operation) -> Seq<u8> {
    fed_words(fed_words(fed_kind(out, x.kind), x.inputs@), x.outputs@)
}

fn feed_operation(out: &mut Vec<u8>, x: &Operation)
    ensures
        final(out)@ == fed_operation(old(out)@, *x),
{
    feed_kind(out, &x.kind);
    feed_words(out, &x.inputs);
    feed_words(out, &x.outputs);
}

/// The first `k` operations of a graph.
pub open spec fn fed_first_operations(out: Seq<u8>, x: Seq<Operation>, k: nat) -> Seq<u8>
    decreases k,
{
    if k == 0 {
        out
    } else {
        fed_operation(fed_first_operations(out, x, (k - 1) as nat), x[k - 1])
    }
}

/// The operations of a graph.
pub open spec fn fed_operations(out: Seq<u8>, x: Seq<Operation>) -> Seq<u8> {
    fed_first_operations(fed_long(out, x.len() as u64), x, x.len())
}

fn feed_operations(out: &mut Vec<u8>, x: &Vec<Operation>)
    ensures
        final(out)@ == fed_operations(old(out)@, x@),
{
    feed_long(out, x.len() as u64);
    let ghost start = out@;
    let mut i: usize = 0;
    while i < x.len()
        invariant
            i <= x.len(),
            out@ == fed_first_operations(start, x@, i as nat),
        decreases x.len() - i,
    {
        feed_operation(out, &x[i]);
        i = i + 1;
    }
}

/// The descriptor of an operand.
pub open spec fn fed_descriptor(out: Seq<u8>, x: OperandDescriptor) -> Seq<u8> {
    let out = fed_long(out, type_number(x.data_type));
    fed_words(fed_shape(out, x.shape@), x.pending_permutation@)
}

fn feed_descriptor(out: &mut Vec<u8>, x: &OperandDescriptor)
    ensures
        final(out)@ == fed_descriptor(old(out)@, *x),
{
    feed_long(out, type_number_of(x.data_type));
    feed_shape(out, &x.shape);
    feed_words(out, &x.pending_permutation);
}

/// An operand.
pub open spec fn fed_operand(out: Seq<u8>, x: Operand) -> Seq<u8> {
    fed_opt_text(fed_descriptor(fed_long(out, role_number(x.kind)), x.descriptor), x.name)
}

fn feed_operand(out: &mut Vec<u8>, x: &Operand)
    ensures
        final(out)@ == fed_operand(old(out)@, *x),
{
    feed_long(out, role_number_of(x.kind));
    feed_descriptor(out, &x.descriptor);
    feed_opt_text(out, &x.name);
}

/// The first `k` operands of a graph.
pub open spec fn fed_first_operands(out: Seq<u8>, x: Seq<Operand>, k: nat) -> Seq<u8>
    decreases k,
{
    if k == 0 {
        out
    } else {
        fed_operand(fed_first_operands(out, x, (k - 1) as nat), x[k - 1])
    }
}

/// The operands of a graph.
pub open spec fn fed_operands(out: Seq<u8>, x: Seq<Operand>) -> Seq<u8> {
    fed_first_operands(fed_long(out, x.len() as u64), x, x.len())
}

fn feed_operands(out: &mut Vec<u8>, x: &Vec<Operand>)
    ensures
        final(out)@ == fed_operands(old(out)@, x@),
{
    feed_long(out, x.len() as u64);
    let ghost start = out@;
    let mut i: usize = 0;
    while i < x.len()
        invariant
            i <= x.len(),
            out@ == fed_first_operands(start, x@, i as nat),
        decreases x.len() - i,
    {
        feed_operand(out, &x[i]);
        i = i + 1;
    }
}

/// A graph without the bytes of its constants: the numbers of its inputs and outputs, its operands
/// and its operations.
pub open spec fn graph_bytes(graph: GraphInfo) -> Seq<u8> {
    let out = fed_words(seq![], graph.input_operands@);
    let out = fed_words(out, graph.output_operands@);
    let out = fed_operands(out, graph.operands@);
    fed_operations(out, graph.operations@)
}

/// An identifier: a hash in hexadecimal, a count and a suffix.
pub open spec fn identifier(hash: u64, count: nat, suffix: Seq<char>) -> Seq<char> {
    numeral(hash as nat, 16) + "_"@ + decimal(count) + "_"@ + suffix
}

/// An identifier: a hash in hexadecimal, a count and a suffix.
pub fn identifier_text(hash: u64, count: usize, suffix: &str) -> (s: String)
    ensures
        s@ == identifier(hash, count as nat, suffix@),
{
    say(numeral_text(hash, 16).as_str()).str("_").num(count).str("_").str(suffix).text
}

impl GraphInfo {
    /// The graph as a list of bytes, without the bytes of its constants.
    pub fn bytes_without_weights(&self) -> (b: Vec<u8>)
        ensures
            b@ == graph_bytes(*self),
    {
        let mut out: Vec<u8> = Vec::new();
        feed_words(&mut out, &self.input_operands);
        feed_words(&mut out, &self.output_operands);
        feed_operands(&mut out, &self.operands);
        feed_operations(&mut out, &self.operations);
        out
    }

    /// An identifier of the graph that does not depend on the bytes of its constants.
    pub fn hash_identifier_without_weights(&self, suffix: &str) -> (s: String)
        ensures
            s@ == identifier(sea_hash(graph_bytes(*self)), self.operands@.len(), suffix@),
    {
        let bytes = self.bytes_without_weights();
        identifier_text(sea_hash_of(&bytes), self.operands.len(), suffix)
    }
}

/// Two graphs that differ in their constants alone have the same identifier.
pub proof fn identifier_ignores_constants(a: GraphInfo, b: GraphInfo, suffix: Seq<char>)
    requires
        a.input_operands@ == b.input_operands@,
        a.output_operands@ == b.output_operands@,
        a.operands@ == b.operands@,
        a.operations@ == b.operations@,
    ensures
        identifier(sea_hash(graph_bytes(a)), a.operands@.len(), suffix) == identifier(
            sea_hash(graph_bytes(b)),
            b.operands@.len(),
            suffix,
        ),
{
}

} // verus!
