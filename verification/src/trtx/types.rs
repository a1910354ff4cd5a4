//! TensorRT's enumerations, under TensorRT's own names, and the handles of layers and tensors.

use crate::data_type::DataType;
use crate::error::GraphError;
use crate::trtx::TrtxConverter;
use vstd::prelude::*;

verus! {

/// The element type of a TensorRT tensor.
#[allow(non_camel_case_types)]
#[derive(Clone, Copy, Debug, PartialEq, Eq, Structural)]
pub enum TrtDataType {
    kFLOAT,
    kHALF,
    kINT8,
    kINT32,
    kBOOL,
    kUINT8,
    kFP8,
    kBF16,
    kINT64,
    kINT4,
    kFP4,
    kE8M0,
}

/// The name of an element type as messages show it.
pub open spec fn trt_data_type_name(t: TrtDataType) -> Seq<char> {
    match t {
        TrtDataType::kFLOAT => "kFLOAT"@,
        TrtDataType::kHALF => "kHALF"@,
        TrtDataType::kINT8 => "kINT8"@,
        TrtDataType::kINT32 => "kINT32"@,
        TrtDataType::kBOOL => "kBOOL"@,
        TrtDataType::kUINT8 => "kUINT8"@,
        TrtDataType::kFP8 => "kFP8"@,
        TrtDataType::kBF16 => "kBF16"@,
        TrtDataType::kINT64 => "kINT64"@,
        TrtDataType::kINT4 => "kINT4"@,
        TrtDataType::kFP4 => "kFP4"@,
        TrtDataType::kE8M0 => "kE8M0"@,
    }
}

/// The TensorRT type that holds elements of a WebNN type. TensorRT has no unsigned 32-bit and 64-bit
/// integers, which take the signed types of the same width, and no unsigned 4-bit integers, which
/// take a byte each.
pub open spec fn trt_type(t: DataType) -> TrtDataType {
    match t {
        DataType::Float32 => TrtDataType::kFLOAT,
        DataType::Float16 => TrtDataType::kHALF,
        DataType::Int8 => TrtDataType::kINT8,
        DataType::Int32 | DataType::Uint32 => TrtDataType::kINT32,
        DataType::Uint8 | DataType::Uint4 => TrtDataType::kUINT8,
        DataType::Int64 | DataType::Uint64 => TrtDataType::kINT64,
        DataType::Int4 => TrtDataType::kINT4,
    }
}

/// The TensorRT type that holds elements of a WebNN type.
pub fn trt_type_of(t: DataType) -> (r: TrtDataType)
    ensures
        r == trt_type(t),
{
    match t {
        DataType::Float32 => TrtDataType::kFLOAT,
        DataType::Float16 => TrtDataType::kHALF,
        DataType::Int8 => TrtDataType::kINT8,
        DataType::Int32 | DataType::Uint32 => TrtDataType::kINT32,
        DataType::Uint8 | DataType::Uint4 => TrtDataType::kUINT8,
        DataType::Int64 | DataType::Uint64 => TrtDataType::kINT64,
        DataType::Int4 => TrtDataType::kINT4,
    }
}

impl TrtxConverter {
    /// The TensorRT type that holds elements of a WebNN type. Every WebNN type has one.
    pub fn webnn_to_trt_dtype(dtype: DataType) -> (r: Result<TrtDataType, GraphError>)
        ensures
            r == Ok::<TrtDataType, GraphError>(trt_type(dtype)),
    {
        Ok(trt_type_of(dtype))
    }
}

impl TrtDataType {
    /// The name of the type as messages show it.
    pub fn name(self) -> (s: &'static str)
        ensures
            s@ == trt_data_type_name(self),
    {
        match self {
            TrtDataType::kFLOAT => "kFLOAT",
            TrtDataType::kHALF => "kHALF",
            TrtDataType::kINT8 => "kINT8",
            TrtDataType::kINT32 => "kINT32",
            TrtDataType::kBOOL => "kBOOL",
            TrtDataType::kUINT8 => "kUINT8",
            TrtDataType::kFP8 => "kFP8",
            TrtDataType::kBF16 => "kBF16",
            TrtDataType::kINT64 => "kINT64",
            TrtDataType::kINT4 => "kINT4",
            TrtDataType::kFP4 => "kFP4",
            TrtDataType::kE8M0 => "kE8M0",
        }
    }
}

#[allow(non_camel_case_types)]
#[derive(Clone, Copy, Debug, PartialEq, Eq, Structural)]
pub enum ElementWiseOperation {
    kSUM,
    kPROD,
    kMAX,
    kMIN,
    kSUB,
    kDIV,
    kPOW,
    kAND,
    kOR,
    kXOR,
    kEQUAL,
    kGREATER,
    kLESS,
}

#[allow(non_camel_case_types)]
#[derive(Clone, Copy, Debug, PartialEq, Eq, Structural)]
pub enum ActivationType {
    kRELU,
    kSIGMOID,
    kTANH,
    kELU,
    kSOFTSIGN,
    kSOFTPLUS,
    kHARD_SIGMOID,
    kGELU_ERF,
}

#[allow(non_camel_case_types)]
#[derive(Clone, Copy, Debug, PartialEq, Eq, Structural)]
pub enum UnaryOperation {
    kEXP,
    kLOG,
    kSQRT,
    kRECIP,
    kABS,
    kNEG,
    kSIN,
    kCOS,
    kTAN,
    kCEIL,
    kFLOOR,
    kERF,
    kNOT,
    kSIGN,
    kROUND,
}

#[allow(non_camel_case_types)]
#[derive(Clone, Copy, Debug, PartialEq, Eq, Structural)]
pub enum ReduceOperation {
    kSUM,
    kPROD,
    kMAX,
    kMIN,
    kAVG,
}

#[allow(non_camel_case_types)]
#[derive(Clone, Copy, Debug, PartialEq, Eq, Structural)]
pub enum PoolingType {
    kMAX,
    kAVERAGE,
    kMAX_AVERAGE_BLEND,
}

#[allow(non_camel_case_types)]
#[derive(Clone, Copy, Debug, PartialEq, Eq, Structural)]
pub enum PaddingMode {
    kEXPLICIT_ROUND_UP,
}

#[allow(non_camel_case_types)]
#[derive(Clone, Copy, Debug, PartialEq, Eq, Structural)]
pub enum MatrixOperation {
    kNONE,
    kTRANSPOSE,
}

#[allow(non_camel_case_types)]
#[derive(Clone, Copy, Debug, PartialEq, Eq, Structural)]
pub enum TopKOperation {
    kMAX,
    kMIN,
}

#[allow(non_camel_case_types)]
#[derive(Clone, Copy, Debug, PartialEq, Eq, Structural)]
pub enum GatherMode {
    kELEMENT,
    kND,
}

#[allow(non_camel_case_types)]
#[derive(Clone, Copy, Debug, PartialEq, Eq, Structural)]
pub enum ScatterMode {
    kELEMENT,
    kND,
}

#[allow(non_camel_case_types)]
#[derive(Clone, Copy, Debug, PartialEq, Eq, Structural)]
pub enum ResizeMode {
    kNEAREST,
    kLINEAR,
}

#[allow(non_camel_case_types)]
#[derive(Clone, Copy, Debug, PartialEq, Eq, Structural)]
pub enum ResizeCoordinateTransformation {
    kHALF_PIXEL,
}

#[allow(non_camel_case_types)]
#[derive(Clone, Copy, Debug, PartialEq, Eq, Structural)]
pub enum ResizeRoundMode {
    kHALF_UP,
}

#[allow(non_camel_case_types)]
#[derive(Clone, Copy, Debug, PartialEq, Eq, Structural)]
pub enum CumulativeOperation {
    kSUM,
}

/// How TensorRT is handed the bytes of a constant.
#[derive(Clone, Copy, Debug, PartialEq, Eq, Structural)]
pub enum ConstantStorage {
    /// The bytes stay with the caller for as long as the network lives.
    Borrowed,
    /// The network keeps a copy.
    Copied,
    /// The network takes the bytes over.
    Owned,
}

/// A layer of the network, by the position of the request that added it.
#[derive(Clone, Copy, Debug, PartialEq, Eq, Structural)]
pub struct Layer {
    pub id: usize,
}

/// A tensor of the network, by the position of the request that produced it.
#[derive(Clone, Copy, Debug, PartialEq, Eq, Structural)]
pub struct Tensor {
    pub id: usize,
}

} // verus!
