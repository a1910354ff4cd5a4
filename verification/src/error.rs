//! Errors, and the messages that they show.

use crate::data_type::{data_type_name, DataType};
use crate::graph::{
    constant_reference_text, descriptor_text, operand_listing, ConstantReference, Operand,
    OperandDescriptor,
};
use crate::text::{
    bracket_list, bracketed, bracketed_text, debug_quoted, decimal, ints32, quoted, say, texts,
};
use vstd::prelude::*;

verus! {

/// The numbers of a list of `usize` as integers.
pub open spec fn sizes(s: Seq<usize>) -> Seq<int> {
    s.map_values(|d: usize| d as int)
}

/// The strings of a list, each in quotes, with `, ` between them, in brackets.
pub open spec fn quoted_list(s: Seq<String>) -> Seq<char> {
    bracketed(s.map_values(|t: String| debug_quoted(t@)))
}

/// The strings of a list, each in quotes, with `, ` between them, in brackets.
fn quoted_list_text(v: &Vec<String>) -> (s: String)
    ensures
        s@ == quoted_list(v@),
{
    let mut parts: Vec<String> = Vec::new();
    let mut i: usize = 0;
    while i < v.len()
        invariant
            i <= v.len(),
            parts@.len() == i,
            forall|k: int| 0 <= k < i ==> #[trigger] parts@[k]@ == debug_quoted(v@[k]@),
        decreases v.len() - i,
    {
        parts.push(quoted(v[i].as_str()));
        i = i + 1;
    }
    proof {
        assert(texts(parts@) =~= v@.map_values(|t: String| debug_quoted(t@)));
    }
    bracketed_text(&parts)
}

/// What is wrong with a graph, or with an attempt to read, convert or run it.
#[allow(inconsistent_fields)]
#[derive(Debug)]
pub enum GraphError {
    /// graph file {path} could not be read: {source}
    Io { path: String, source: String },
    /// graph JSON could not be parsed: {source}
    Parse { source: String },
    /// graph must declare operands, operations, and outputs
    EmptyGraph,
    /// graph declares {count} operands which exceeds the u32 id space
    TooManyOperands { count: usize },
    /// operand {operand} has a shape that overflows element count
    OperandElementCountOverflow { operand: u32 },
    /// operand {operand} exceeds tensor byte limit ({byte_length} > {limit})
    TensorLimit { operand: u32, byte_length: usize, limit: usize },
    /// input operand {operand} is missing a name
    MissingInputName { operand: u32 },
    /// input operand name `{name}` is duplicated
    DuplicateInputName { name: String },
    /// output operand {operand} is missing a name
    MissingOutputName { operand: u32 },
    /// output operand name `{name}` is duplicated
    DuplicateOutputName { name: String },
    /// operand {operand} uses unsupported IO data type {data_type:?}
    UnsupportedIoDataType { operand: u32, data_type: DataType },
    /// constant operand {operand} does not have data associated with it
    MissingConstantData { operand: u32 },
    /// constant operand {operand} byte mismatch (expected {expected}, got {actual})
    ConstantLengthMismatch { operand: u32, expected: usize, actual: usize },
    /// graph input operand ids doesn't match the ids of OperandKind::Input: {input_ids:?} vs {input_ids_in_operands:?}
    InputIdListMismatch { input_ids: Vec<u32>, input_ids_in_operands: Vec<u32> },
    /// graph output operand ids doesn't match the ids of OperandKind::Input: {output_ids:?} vs {output_ids_in_operands:?}
    OutputIdListMismatch { output_ids: Vec<u32>, output_ids_in_operands: Vec<u32> },
    /// graph input operand list does not match operand table
    InputOperandListMismatch,
    /// graph output operand list does not match operand table
    OutputOperandListMismatch,
    /// operand id {operand} referenced by `{operation}` is invalid
    InvalidOperandReference { operation: String, operand: u32 },
    /// operation `{operation}` consumes operand {operand} before it is produced
    OperandNotReady { operation: String, operand: u32 },
    /// operation `{operation}` attempts to reuse operand {operand} as output
    OperandProducedTwice { operation: String, operand: u32 },
    /// graph output operand {operand} is never produced by any operation
    OutputNotProduced { operand: u32 },
    /// operand {operand} never feeds any operation
    OperandNeverUsed { operand: u32 },
    /// graph contains unused constant data entries
    UnusedConstantHandles,
    /// quantization validation failed for `{operation}`: {reason}
    QuantizationValidation { operation: String, reason: String },
    /// graph converter `{requested}` is not available. Supported: {available:?}
    UnknownConverter { requested: String, available: Vec<String> },
    /// graph conversion failed for {format}: {reason}
    ConversionFailed { format: String, reason: String },
    /// operand id {operand} is invalid for conversion
    InvalidConversionOperand { operand: u32 },
    /// graph could not be exported to {path}: {source}
    ExportIo { path: String, source: String },
    /// coreml runtime is only available on macOS with the `coreml-runtime` feature enabled
    CoremlRuntimeUnavailable,
    /// coreml runtime failed: {reason}
    CoremlRuntimeFailed { reason: String },
    /// coreml runtime only supports the coreml converter (got {format})
    UnsupportedRuntimeFormat { format: String },
    /// onnx runtime is only available with the `onnx-runtime` feature enabled
    OnnxRuntimeUnavailable,
    /// onnx runtime failed: {reason}
    OnnxRuntimeFailed { reason: String },
    /// tensorrt runtime is only available with the `trtx-runtime` or `trtx-runtime-mock` feature enabled
    TrtxRuntimeUnavailable,
    /// tensorrt runtime failed: {reason}
    TrtxRuntimeFailed { reason: String },
    /// shape inference failed: {reason}
    ShapeInferenceFailed { reason: String },
    /// graph uses dynamic dimensions but the `dynamic-inputs` feature is not enabled
    DynamicInputsFeatureDisabled,
    /// device tensor operation failed: {reason}
    DeviceTensorFailed { reason: String },
    /// device tensor has been destroyed
    DeviceTensorDestroyed,
    /// device tensor is not readable
    DeviceTensorNotReadable,
    /// device tensor is not writable
    DeviceTensorNotWritable,
    /// missing runtime {kind} tensor `{name}`
    RuntimeTensorMissing { kind: String, name: String },
    /// unexpected runtime {kind} tensor `{name}`
    RuntimeTensorUnexpected { kind: String, name: String },
    /// runtime {kind} tensor `{name}` rank mismatch (expected {expected_rank}, got {actual_rank})
    RuntimeTensorRankMismatch { kind: String, name: String, expected_rank: usize, actual_rank: usize },
    /// runtime {kind} tensor `{name}` dimension {axis} mismatch (expected {expected}, got {actual})
    RuntimeStaticDimensionMismatch { kind: String, name: String, axis: usize, expected: u32, actual: usize },
    /// runtime {kind} tensor `{name}` dynamic dimension `{dim_name}` at axis {axis} exceeds maxSize ({actual} > {max_size})
    RuntimeDynamicDimensionExceeded { kind: String, name: String, axis: usize, dim_name: String, max_size: u32, actual: usize },
    /// runtime dynamic dimension `{dim_name}` mismatch (expected {expected}, got {actual})
    RuntimeDynamicDimensionNameMismatch { dim_name: String, expected: usize, actual: usize },
    /// runtime tensor `{name}` shape {shape:?} overflows element count
    RuntimeTensorShapeOverflow { name: String, shape: Vec<usize> },
    /// runtime tensor `{name}` data length mismatch (expected {expected} elements, got {actual})
    RuntimeTensorDataLengthMismatch { name: String, expected: usize, actual: usize },
}

/// The message of a graph error.
pub open spec fn graph_error_text(e: GraphError) -> Seq<char> {
    match e {
        GraphError::Io { path, source } => "graph file "@ + path@ + " could not be read: "@ + source@,
        GraphError::Parse { source } => "graph JSON could not be parsed: "@ + source@,
        GraphError::EmptyGraph => "graph must declare operands, operations, and outputs"@,
        GraphError::TooManyOperands { count } => "graph declares "@ + decimal(count as nat) + " operands which exceeds the u32 id space"@,
        GraphError::OperandElementCountOverflow { operand } => "operand "@ + decimal(operand as nat) + " has a shape that overflows element count"@,
        GraphError::TensorLimit { operand, byte_length, limit } => "operand "@ + decimal(operand as nat) + " exceeds tensor byte limit ("@ + decimal(byte_length as nat) + " > "@ + decimal(limit as nat) + ")"@,
        GraphError::MissingInputName { operand } => "input operand "@ + decimal(operand as nat) + " is missing a name"@,
        GraphError::DuplicateInputName { name } => "input operand name `"@ + name@ + "` is duplicated"@,
        GraphError::MissingOutputName { operand } => "output operand "@ + decimal(operand as nat) + " is missing a name"@,
        GraphError::DuplicateOutputName { name } => "output operand name `"@ + name@ + "` is duplicated"@,
        GraphError::UnsupportedIoDataType { operand, data_type } => "operand "@ + decimal(operand as nat) + " uses unsupported IO data type "@ + data_type_name(data_type),
        GraphError::MissingConstantData { operand } => "constant operand "@ + decimal(operand as nat) + " does not have data associated with it"@,
        GraphError::ConstantLengthMismatch { operand, expected, actual } => "constant operand "@ + decimal(operand as nat) + " byte mismatch (expected "@ + decimal(expected as nat) + ", got "@ + decimal(actual as nat) + ")"@,
        GraphError::InputIdListMismatch { input_ids, input_ids_in_operands } => "graph input operand ids doesn't match the ids of OperandKind::Input: "@ + bracket_list(ints32(input_ids@)) + " vs "@ + bracket_list(ints32(input_ids_in_operands@)),
        GraphError::OutputIdListMismatch { output_ids, output_ids_in_operands } => "graph output operand ids doesn't match the ids of OperandKind::Input: "@ + bracket_list(ints32(output_ids@)) + " vs "@ + bracket_list(ints32(output_ids_in_operands@)),
        GraphError::InputOperandListMismatch => "graph input operand list does not match operand table"@,
        GraphError::OutputOperandListMismatch => "graph output operand list does not match operand table"@,
        GraphError::InvalidOperandReference { operation, operand } => "operand id "@ + decimal(operand as nat) + " referenced by `"@ + operation@ + "` is invalid"@,
        GraphError::OperandNotReady { operation, operand } => "operation `"@ + operation@ + "` consumes operand "@ + decimal(operand as nat) + " before it is produced"@,
        GraphError::OperandProducedTwice { operation, operand } => "operation `"@ + operation@ + "` attempts to reuse operand "@ + decimal(operand as nat) + " as output"@,
        GraphError::OutputNotProduced { operand } => "graph output operand "@ + decimal(operand as nat) + " is never produced by any operation"@,
        GraphError::OperandNeverUsed { operand } => "operand "@ + decimal(operand as nat) + " never feeds any operation"@,
        GraphError::UnusedConstantHandles => "graph contains unused constant data entries"@,
        GraphError::QuantizationValidation { operation, reason } => "quantization validation failed for `"@ + operation@ + "`: "@ + reason@,
        GraphError::UnknownConverter { requested, available } => "graph converter `"@ + requested@ + "` is not available. Supported: "@ + quoted_list(available@),
        GraphError::ConversionFailed { format, reason } => "graph conversion failed for "@ + format@ + ": "@ + reason@,
        GraphError::InvalidConversionOperand { operand } => "operand id "@ + decimal(operand as nat) + " is invalid for conversion"@,
        GraphError::ExportIo { path, source } => "graph could not be exported to "@ + path@ + ": "@ + source@,
        GraphError::CoremlRuntimeUnavailable => "coreml runtime is only available on macOS with the `coreml-runtime` feature enabled"@,
        GraphError::CoremlRuntimeFailed { reason } => "coreml runtime failed: "@ + reason@,
        GraphError::UnsupportedRuntimeFormat { format } => "coreml runtime only supports the coreml converter (got "@ + format@ + ")"@,
        GraphError::OnnxRuntimeUnavailable => "onnx runtime is only available with the `onnx-runtime` feature enabled"@,
        GraphError::OnnxRuntimeFailed { reason } => "onnx runtime failed: "@ + reason@,
        GraphError::TrtxRuntimeUnavailable => "tensorrt runtime is only available with the `trtx-runtime` or `trtx-runtime-mock` feature enabled"@,
        GraphError::TrtxRuntimeFailed { reason } => "tensorrt runtime failed: "@ + reason@,
        GraphError::ShapeInferenceFailed { reason } => "shape inference failed: "@ + reason@,
        GraphError::DynamicInputsFeatureDisabled => "graph uses dynamic dimensions but the `dynamic-inputs` feature is not enabled"@,
        GraphError::DeviceTensorFailed { reason } => "device tensor operation failed: "@ + reason@,
        GraphError::DeviceTensorDestroyed => "device tensor has been destroyed"@,
        GraphError::DeviceTensorNotReadable => "device tensor is not readable"@,
        GraphError::DeviceTensorNotWritable => "device tensor is not writable"@,
        GraphError::RuntimeTensorMissing { kind, name } => "missing runtime "@ + kind@ + " tensor `"@ + name@ + "`"@,
        GraphError::RuntimeTensorUnexpected { kind, name } => "unexpected runtime "@ + kind@ + " tensor `"@ + name@ + "`"@,
        GraphError::RuntimeTensorRankMismatch { kind, name, expected_rank, actual_rank } => "runtime "@ + kind@ + " tensor `"@ + name@ + "` rank mismatch (expected "@ + decimal(expected_rank as nat) + ", got "@ + decimal(actual_rank as nat) + ")"@,
        GraphError::RuntimeStaticDimensionMismatch { kind, name, axis, expected, actual } => "runtime "@ + kind@ + " tensor `"@ + name@ + "` dimension "@ + decimal(axis as nat) + " mismatch (expected "@ + decimal(expected as nat) + ", got "@ + decimal(actual as nat) + ")"@,
        GraphError::RuntimeDynamicDimensionExceeded { kind, name, axis, dim_name, max_size, actual } => "runtime "@ + kind@ + " tensor `"@ + name@ + "` dynamic dimension `"@ + dim_name@ + "` at axis "@ + decimal(axis as nat) + " exceeds maxSize ("@ + decimal(actual as nat) + " > "@ + decimal(max_size as nat) + ")"@,
        GraphError::RuntimeDynamicDimensionNameMismatch { dim_name, expected, actual } => "runtime dynamic dimension `"@ + dim_name@ + "` mismatch (expected "@ + decimal(expected as nat) + ", got "@ + decimal(actual as nat) + ")"@,
        GraphError::RuntimeTensorShapeOverflow { name, shape } => "runtime tensor `"@ + name@ + "` shape "@ + bracket_list(sizes(shape@)) + " overflows element count"@,
        GraphError::RuntimeTensorDataLengthMismatch { name, expected, actual } => "runtime tensor `"@ + name@ + "` data length mismatch (expected "@ + decimal(expected as nat) + " elements, got "@ + decimal(actual as nat) + ")"@,
    }
}

impl GraphError {
    /// The error for a graph file that could not be read.
    pub fn io(path: &str, source: &str) -> (e: GraphError)
        ensures
            e matches GraphError::Io { path: p, source: s } && p@ == path@ && s@ == source@,
    {
        GraphError::Io { path: path.to_owned(), source: source.to_owned() }
    }

    /// The error for a graph that could not be exported.
    pub fn export(path: &str, source: &str) -> (e: GraphError)
        ensures
            e matches GraphError::ExportIo { path: p, source: s } && p@ == path@ && s@ == source@,
    {
        GraphError::ExportIo { path: path.to_owned(), source: source.to_owned() }
    }

    /// The message that the error shows.
    pub fn message(&self) -> (s: String)
        ensures
            s@ == graph_error_text(*self),
    {
        let m = match self {
            GraphError::Io { path, source } => say("graph file ").str(path.as_str()).str(" could not be read: ").str(source.as_str()),
            GraphError::Parse { source } => say("graph JSON could not be parsed: ").str(source.as_str()),
            GraphError::EmptyGraph => say("graph must declare operands, operations, and outputs"),
            GraphError::TooManyOperands { count } => say("graph declares ").num(*count).str(" operands which exceeds the u32 id space"),
            GraphError::OperandElementCountOverflow { operand } => say("operand ").num32(*operand).str(" has a shape that overflows element count"),
            GraphError::TensorLimit { operand, byte_length, limit } => say("operand ").num32(*operand).str(" exceeds tensor byte limit (").num(*byte_length).str(" > ").num(*limit).str(")"),
            GraphError::MissingInputName { operand } => say("input operand ").num32(*operand).str(" is missing a name"),
            GraphError::DuplicateInputName { name } => say("input operand name `").str(name.as_str()).str("` is duplicated"),
            GraphError::MissingOutputName { operand } => say("output operand ").num32(*operand).str(" is missing a name"),
            GraphError::DuplicateOutputName { name } => say("output operand name `").str(name.as_str()).str("` is duplicated"),
            GraphError::UnsupportedIoDataType { operand, data_type } => say("operand ").num32(*operand).str(" uses unsupported IO data type ").str(data_type.name()),
            GraphError::MissingConstantData { operand } => say("constant operand ").num32(*operand).str(" does not have data associated with it"),
            GraphError::ConstantLengthMismatch { operand, expected, actual } => say("constant operand ").num32(*operand).str(" byte mismatch (expected ").num(*expected).str(", got ").num(*actual).str(")"),
            GraphError::InputIdListMismatch { input_ids, input_ids_in_operands } => say("graph input operand ids doesn't match the ids of OperandKind::Input: ").list32(input_ids).str(" vs ").list32(input_ids_in_operands),
            GraphError::OutputIdListMismatch { output_ids, output_ids_in_operands } => say("graph output operand ids doesn't match the ids of OperandKind::Input: ").list32(output_ids).str(" vs ").list32(output_ids_in_operands),
            GraphError::InputOperandListMismatch => say("graph input operand list does not match operand table"),
            GraphError::OutputOperandListMismatch => say("graph output operand list does not match operand table"),
            GraphError::InvalidOperandReference { operation, operand } => say("operand id ").num32(*operand).str(" referenced by `").str(operation.as_str()).str("` is invalid"),
            GraphError::OperandNotReady { operation, operand } => say("operation `").str(operation.as_str()).str("` consumes operand ").num32(*operand).str(" before it is produced"),
            GraphError::OperandProducedTwice { operation, operand } => say("operation `").str(operation.as_str()).str("` attempts to reuse operand ").num32(*operand).str(" as output"),
            GraphError::OutputNotProduced { operand } => say("graph output operand ").num32(*operand).str(" is never produced by any operation"),
            GraphError::OperandNeverUsed { operand } => say("operand ").num32(*operand).str(" never feeds any operation"),
            GraphError::UnusedConstantHandles => say("graph contains unused constant data entries"),
            GraphError::QuantizationValidation { operation, reason } => say("quantization validation failed for `").str(operation.as_str()).str("`: ").str(reason.as_str()),
            GraphError::UnknownConverter { requested, available } => say("graph converter `").str(requested.as_str()).str("` is not available. Supported: ").str(quoted_list_text(available).as_str()),
            GraphError::ConversionFailed { format, reason } => say("graph conversion failed for ").str(format.as_str()).str(": ").str(reason.as_str()),
            GraphError::InvalidConversionOperand { operand } => say("operand id ").num32(*operand).str(" is invalid for conversion"),
            GraphError::ExportIo { path, source } => say("graph could not be exported to ").str(path.as_str()).str(": ").str(source.as_str()),
            GraphError::CoremlRuntimeUnavailable => say("coreml runtime is only available on macOS with the `coreml-runtime` feature enabled"),
            GraphError::CoremlRuntimeFailed { reason } => say("coreml runtime failed: ").str(reason.as_str()),
            GraphError::UnsupportedRuntimeFormat { format } => say("coreml runtime only supports the coreml converter (got ").str(format.as_str()).str(")"),
            GraphError::OnnxRuntimeUnavailable => say("onnx runtime is only available with the `onnx-runtime` feature enabled"),
            GraphError::OnnxRuntimeFailed { reason } => say("onnx runtime failed: ").str(reason.as_str()),
            GraphError::TrtxRuntimeUnavailable => say("tensorrt runtime is only available with the `trtx-runtime` or `trtx-runtime-mock` feature enabled"),
            GraphError::TrtxRuntimeFailed { reason } => say("tensorrt runtime failed: ").str(reason.as_str()),
            GraphError::ShapeInferenceFailed { reason } => say("shape inference failed: ").str(reason.as_str()),
            GraphError::DynamicInputsFeatureDisabled => say("graph uses dynamic dimensions but the `dynamic-inputs` feature is not enabled"),
            GraphError::DeviceTensorFailed { reason } => say("device tensor operation failed: ").str(reason.as_str()),
            GraphError::DeviceTensorDestroyed => say("device tensor has been destroyed"),
            GraphError::DeviceTensorNotReadable => say("device tensor is not readable"),
            GraphError::DeviceTensorNotWritable => say("device tensor is not writable"),
            GraphError::RuntimeTensorMissing { kind, name } => say("missing runtime ").str(kind.as_str()).str(" tensor `").str(name.as_str()).str("`"),
            GraphError::RuntimeTensorUnexpected { kind, name } => say("unexpected runtime ").str(kind.as_str()).str(" tensor `").str(name.as_str()).str("`"),
            GraphError::RuntimeTensorRankMismatch { kind, name, expected_rank, actual_rank } => say("runtime ").str(kind.as_str()).str(" tensor `").str(name.as_str()).str("` rank mismatch (expected ").num(*expected_rank).str(", got ").num(*actual_rank).str(")"),
            GraphError::RuntimeStaticDimensionMismatch { kind, name, axis, expected, actual } => say("runtime ").str(kind.as_str()).str(" tensor `").str(name.as_str()).str("` dimension ").num(*axis).str(" mismatch (expected ").num32(*expected).str(", got ").num(*actual).str(")"),
            GraphError::RuntimeDynamicDimensionExceeded { kind, name, axis, dim_name, max_size, actual } => say("runtime ").str(kind.as_str()).str(" tensor `").str(name.as_str()).str("` dynamic dimension `").str(dim_name.as_str()).str("` at axis ").num(*axis).str(" exceeds maxSize (").num(*actual).str(" > ").num32(*max_size).str(")"),
            GraphError::RuntimeDynamicDimensionNameMismatch { dim_name, expected, actual } => say("runtime dynamic dimension `").str(dim_name.as_str()).str("` mismatch (expected ").num(*expected).str(", got ").num(*actual).str(")"),
            GraphError::RuntimeTensorShapeOverflow { name, shape } => say("runtime tensor `").str(name.as_str()).str("` shape ").sizes(shape).str(" overflows element count"),
            GraphError::RuntimeTensorDataLengthMismatch { name, expected, actual } => say("runtime tensor `").str(name.as_str()).str("` data length mismatch (expected ").num(*expected).str(" elements, got ").num(*actual).str(")"),
        };
        m.text
    }
}

/// What went wrong in the building of a graph.
#[allow(inconsistent_fields)]
#[derive(Debug)]
pub enum GraphBuilderError {
    MissingConstantId { id: u32 },
    UnresolvedConstant { id: u32, constant_ref: ConstantReference },
    FailedToGetZeroMap { offset: usize, len: usize },
    RequestedConstantDataForDynamicallyShapedConstant { id: u32, desc: OperandDescriptor },
    ZeroMapTooBig { offset: usize, len: usize, map_size: usize },
    EmptyOutputHashMap,
    RequestedInputAsOutput { operand: Operand, id: usize },
    RequestedConstantAsOutput { operand: Operand, id: usize },
    GraphAlreadyBuilt,
    InternalDataType { data_type: DataType },
    CacheError { source: String },
    InconsistentGraphInfo { message: String },
}

/// The message of a builder error.
pub open spec fn builder_error_text(e: GraphBuilderError) -> Seq<char> {
    match e {
        GraphBuilderError::MissingConstantId { id } => "Failed to constant for build with id "@
            + decimal(id as nat),
        GraphBuilderError::UnresolvedConstant { id, constant_ref } =>
            "Tried to get constant data from constant "@ + decimal(id as nat) + " "@
            + constant_reference_text(constant_ref) + " which is not resolved yet"@,
        GraphBuilderError::FailedToGetZeroMap { offset, len } =>
            "Failed to get zeroed map memory (offset="@ + decimal(offset as nat) + ", len="@
            + decimal(len as nat) + ")"@,
        GraphBuilderError::RequestedConstantDataForDynamicallyShapedConstant { id, desc } =>
            "Requested memory for dynamically size constant. Dynamically shaped constants are invalid! id="@
            + decimal(id as nat) + " descritpor="@ + descriptor_text(desc),
        GraphBuilderError::ZeroMapTooBig { offset, len, map_size } =>
            "Failed to get zeroed map memory (offset="@ + decimal(offset as nat) + ", len="@
            + decimal(len as nat) + ", map_size="@ + decimal(map_size as nat) + ")"@,
        GraphBuilderError::EmptyOutputHashMap =>
            "Failed to build: requested MLGraphBuilder.build with an empty output map"@,
        GraphBuilderError::RequestedInputAsOutput { operand, id } =>
            "Failed to build: requested an MLOperand with id "@ + decimal(id as nat)
            + " as an output that is already an input:\n"@ + operand_listing(operand),
        GraphBuilderError::RequestedConstantAsOutput { operand, id } =>
            "Failed to build: requested an MLOperand with id "@ + decimal(id as nat)
            + " as an output that is already an constant:\n"@ + operand_listing(operand),
        GraphBuilderError::GraphAlreadyBuilt =>
            "Graph already built: a MLGraphBuilder can only build one graph"@,
        GraphBuilderError::InternalDataType { data_type } =>
            "Internal data type cannot be converted to MLOperandDataType: "@ + data_type_name(
            data_type,
        ),
        GraphBuilderError::CacheError { source } => "A cache error occurred: "@ + source@,
        GraphBuilderError::InconsistentGraphInfo { message } =>
            "Internal error: inconsistent GraphInfo: "@ + message@,
    }
}

impl GraphBuilderError {
    /// The message that the error shows.
    pub fn message(&self) -> (s: String)
        ensures
            s@ == builder_error_text(*self),
    {
        let m = match self {
            GraphBuilderError::MissingConstantId { id } => say(
                "Failed to constant for build with id ",
            ).num32(*id),
            GraphBuilderError::UnresolvedConstant { id, constant_ref } => say(
                "Tried to get constant data from constant ",
            ).num32(*id).str(" ").str(constant_ref.debug_text().as_str()).str(
                " which is not resolved yet",
            ),
            GraphBuilderError::FailedToGetZeroMap { offset, len } => say(
                "Failed to get zeroed map memory (offset=",
            ).num(*offset).str(", len=").num(*len).str(")"),
            GraphBuilderError::RequestedConstantDataForDynamicallyShapedConstant { id, desc } => say(
                "Requested memory for dynamically size constant. Dynamically shaped constants are invalid! id=",
            ).num32(*id).str(" descritpor=").str(desc.debug_text().as_str()),
            GraphBuilderError::ZeroMapTooBig { offset, len, map_size } => say(
                "Failed to get zeroed map memory (offset=",
            ).num(*offset).str(", len=").num(*len).str(", map_size=").num(*map_size).str(")"),
            GraphBuilderError::EmptyOutputHashMap => say(
                "Failed to build: requested MLGraphBuilder.build with an empty output map",
            ),
            GraphBuilderError::RequestedInputAsOutput { operand, id } => say(
                "Failed to build: requested an MLOperand with id ",
            ).num(*id).str(" as an output that is already an input:\n").str(
                operand.debug_listing().as_str(),
            ),
            GraphBuilderError::RequestedConstantAsOutput { operand, id } => say(
                "Failed to build: requested an MLOperand with id ",
            ).num(*id).str(" as an output that is already an constant:\n").str(
                operand.debug_listing().as_str(),
            ),
            GraphBuilderError::GraphAlreadyBuilt => say(
                "Graph already built: a MLGraphBuilder can only build one graph",
            ),
            GraphBuilderError::InternalDataType { data_type } => say(
                "Internal data type cannot be converted to MLOperandDataType: ",
            ).str(data_type.name()),
            GraphBuilderError::CacheError { source } => say("A cache error occurred: ").str(
                source.as_str(),
            ),
            GraphBuilderError::InconsistentGraphInfo { message } => say(
                "Internal error: inconsistent GraphInfo: ",
            ).str(message.as_str()),
        };
        m.text
    }
}

/// What can go wrong in the use of the library. What went wrong elsewhere, in a backend or a driver,
/// is held as the text that it shows.
#[derive(Debug)]
pub enum Error {
    NoBackendAvialable,
    NoDeviceAvailable,
    ContextLost(String),
    GraphConversionError { source: GraphError },
    GraphBuilderError { source: GraphBuilderError },
    GraphBuildError { source: String },
    InferenceError { source: String },
    ContextCreationError { source: String },
    BuilderCreationError { source: String },
    TensorCapacityError {
        requested_shape: Vec<u64>,
        current_shape: Vec<u64>,
        requested_bytes: u64,
        required_bytes: u64,
    },
    GraphDispatchError { source: String },
    TrtxError { source: String },
    CudaError { source: String },
}

/// The message of an error.
pub open spec fn error_text(e: Error) -> Seq<char> {
    match e {
        Error::NoBackendAvialable => "No backend is avaialbel for context creation"@,
        Error::NoDeviceAvailable => "No device of selected type available"@,
        Error::ContextLost(why) => "Lost MLContext: "@ + why@,
        Error::GraphConversionError { source } => "Failed to convert graph: "@ + graph_error_text(
            source,
        ),
        Error::GraphBuilderError { source } =>
            "An error occurred while using the graph builder API: "@ + builder_error_text(source),
        Error::GraphBuildError { source } => "Failed to build graph: "@ + source@,
        Error::InferenceError { source } => "Failed to run inference: "@ + source@,
        Error::ContextCreationError { source } => "Failed to create context: "@ + source@,
        Error::BuilderCreationError { source } => "Failed to create builder: "@ + source@,
        Error::TensorCapacityError { requested_shape, current_shape, required_bytes, .. } =>
            "Set capacity error: requested to set capacity to max shape "@ + bracket_list(
            requested_shape@.map_values(|d: u64| d as int),
        ) + " with "@ + decimal(required_bytes as nat) + " bytes but current shape is "@
            + bracket_list(current_shape@.map_values(|d: u64| d as int)) + " which needs "@
            + decimal(required_bytes as nat) + " bytes"@,
        Error::GraphDispatchError { source } => "Failed to dispatch graph: "@ + source@,
        Error::TrtxError { source } => "An error in the Trtx: "@ + source@,
        Error::CudaError { source } => "An CUDA error occurred: "@ + source@,
    }
}

impl Error {
    /// The message that the error shows.
    pub fn message(&self) -> (s: String)
        ensures
            s@ == error_text(*self),
    {
        let m = match self {
            Error::NoBackendAvialable => say("No backend is avaialbel for context creation"),
            Error::NoDeviceAvailable => say("No device of selected type available"),
            Error::ContextLost(why) => say("Lost MLContext: ").str(why.as_str()),
            Error::GraphConversionError { source } => say("Failed to convert graph: ").str(
                source.message().as_str(),
            ),
            Error::GraphBuilderError { source } => say(
                "An error occurred while using the graph builder API: ",
            ).str(source.message().as_str()),
            Error::GraphBuildError { source } => say("Failed to build graph: ").str(
                source.as_str(),
            ),
            Error::InferenceError { source } => say("Failed to run inference: ").str(
                source.as_str(),
            ),
            Error::ContextCreationError { source } => say("Failed to create context: ").str(
                source.as_str(),
            ),
            Error::BuilderCreationError { source } => say("Failed to create builder: ").str(
                source.as_str(),
            ),
            Error::TensorCapacityError { requested_shape, current_shape, required_bytes, .. } => say(
                "Set capacity error: requested to set capacity to max shape ",
            ).list64(requested_shape).str(" with ").num64(*required_bytes).str(
                " bytes but current shape is ",
            ).list64(current_shape).str(" which needs ").num64(*required_bytes).str(" bytes"),
            Error::GraphDispatchError { source } => say("Failed to dispatch graph: ").str(
                source.as_str(),
            ),
            Error::TrtxError { source } => say("An error in the Trtx: ").str(source.as_str()),
            Error::CudaError { source } => say("An CUDA error occurred: ").str(source.as_str()),
        };
        m.text
    }
}

impl From<GraphError> for Error {
    fn from(source: GraphError) -> (e: Error) {
        Error::GraphConversionError { source }
    }
}

impl vstd::std_specs::convert::FromSpecImpl<GraphError> for Error {
    open spec fn obeys_from_spec() -> bool {
        true
    }

    open spec fn from_spec(source: GraphError) -> Error {
        Error::GraphConversionError { source }
    }
}

impl From<GraphBuilderError> for Error {
    fn from(source: GraphBuilderError) -> (e: Error) {
        Error::GraphBuilderError { source }
    }
}

impl vstd::std_specs::convert::FromSpecImpl<GraphBuilderError> for Error {
    open spec fn obeys_from_spec() -> bool {
        true
    }

    open spec fn from_spec(source: GraphBuilderError) -> Error {
        Error::GraphBuilderError { source }
    }
}

} // verus!
