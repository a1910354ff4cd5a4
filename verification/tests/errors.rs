use rustnn::error::{Error, GraphBuilderError, GraphError};
use rustnn::graph::{
    DataType, Dimension, DynamicDimension, Operand, OperandDescriptor, OperandKind,
};

#[test]
fn test_io_error_helper() {
    let graph_err = GraphError::io("test.json", "file not found");

    match graph_err {
        GraphError::Io { path, .. } => {
            assert_eq!(path, "test.json");
        }
        _ => panic!("Expected Io error variant"),
    }
}

#[test]
fn test_export_error_helper() {
    let graph_err = GraphError::export("/tmp/output.onnx", "permission denied");

    match graph_err {
        GraphError::ExportIo { path, .. } => {
            assert_eq!(path, "/tmp/output.onnx");
        }
        _ => panic!("Expected ExportIo error variant"),
    }
}

#[test]
fn test_empty_graph_error_message() {
    let err = GraphError::EmptyGraph;
    let msg = err.message();
    assert_eq!(msg, "graph must declare operands, operations, and outputs");
}

#[test]
fn test_too_many_operands_error() {
    let err = GraphError::TooManyOperands { count: 5_000_000 };
    let msg = err.message();
    assert!(msg.contains("5000000"));
    assert!(msg.contains("exceeds the u32 id space"));
}

#[test]
fn test_tensor_limit_error() {
    let err = GraphError::TensorLimit { operand: 42, byte_length: 2_000_000, limit: 1_000_000 };
    let msg = err.message();
    assert!(msg.contains("42"));
    assert!(msg.contains("2000000"));
    assert!(msg.contains("1000000"));
}

#[test]
fn test_duplicate_input_name_error() {
    let err = GraphError::DuplicateInputName { name: "input_tensor".to_string() };
    let msg = err.message();
    assert!(msg.contains("input_tensor"));
    assert!(msg.contains("duplicated"));
}

#[test]
fn test_constant_length_mismatch_error() {
    let err = GraphError::ConstantLengthMismatch { operand: 10, expected: 1024, actual: 512 };
    let msg = err.message();
    assert!(msg.contains("10"));
    assert!(msg.contains("1024"));
    assert!(msg.contains("512"));
}

#[test]
fn test_invalid_operand_reference_error() {
    let err = GraphError::InvalidOperandReference { operation: "relu_1".to_string(), operand: 99 };
    let msg = err.message();
    assert!(msg.contains("relu_1"));
    assert!(msg.contains("99"));
    assert!(msg.contains("invalid"));
}

#[test]
fn test_operand_not_ready_error() {
    let err = GraphError::OperandNotReady { operation: "conv2d".to_string(), operand: 5 };
    let msg = err.message();
    assert!(msg.contains("conv2d"));
    assert!(msg.contains("before it is produced"));
}

#[test]
fn test_conversion_failed_error() {
    let err = GraphError::ConversionFailed {
        format: "ONNX".to_string(),
        reason: "unsupported operation".to_string(),
    };
    let msg = err.message();
    assert!(msg.contains("ONNX"));
    assert!(msg.contains("unsupported operation"));
}

#[test]
fn test_runtime_unavailable_errors() {
    let coreml_err = GraphError::CoremlRuntimeUnavailable;
    assert!(coreml_err.message().contains("coreml runtime"));
    assert!(coreml_err.message().contains("macOS"));

    let onnx_err = GraphError::OnnxRuntimeUnavailable;
    assert!(onnx_err.message().contains("onnx runtime"));

    let trtx_err = GraphError::TrtxRuntimeUnavailable;
    assert!(trtx_err.message().contains("tensorrt runtime"));
}

#[test]
fn test_device_tensor_errors() {
    let destroyed_err = GraphError::DeviceTensorDestroyed;
    assert!(destroyed_err.message().contains("destroyed"));

    let not_readable_err = GraphError::DeviceTensorNotReadable;
    assert!(not_readable_err.message().contains("not readable"));

    let not_writable_err = GraphError::DeviceTensorNotWritable;
    assert!(not_writable_err.message().contains("not writable"));
}

#[test]
fn test_shape_inference_failed_error() {
    let err = GraphError::ShapeInferenceFailed { reason: "incompatible dimensions".to_string() };
    let msg = err.message();
    assert!(msg.contains("shape inference failed"));
    assert!(msg.contains("incompatible dimensions"));
}

#[test]
fn test_quantization_validation_error() {
    let err = GraphError::QuantizationValidation {
        operation: "quantizeLinear".to_string(),
        reason: "scale must be float32".to_string(),
    };
    let msg = err.message();
    assert!(msg.contains("quantizeLinear"));
    assert!(msg.contains("scale must be float32"));
}

#[test]
fn messages_show_lists_and_nested_errors() {
    let ids = GraphError::InputIdListMismatch {
        input_ids: vec![0, 3],
        input_ids_in_operands: vec![],
    };
    assert_eq!(
        ids.message(),
        "graph input operand ids doesn't match the ids of OperandKind::Input: [0, 3] vs []"
    );
    let outer = Error::GraphConversionError {
        source: GraphError::ConversionFailed {
            format: "trtx".to_string(),
            reason: "no".to_string(),
        },
    };
    assert_eq!(
        outer.message(),
        "Failed to convert graph: graph conversion failed for trtx: no"
    );
    let zeros = GraphBuilderError::ZeroMapTooBig { offset: 1, len: 2, map_size: 3 };
    assert_eq!(
        zeros.message(),
        "Failed to get zeroed map memory (offset=1, len=2, map_size=3)"
    );
}

fn listed(name: Option<&str>, shape: Vec<Dimension>, order: Vec<u32>) -> Operand {
    Operand {
        kind: OperandKind::Constant,
        descriptor: OperandDescriptor {
            data_type: DataType::Float32,
            shape,
            pending_permutation: order,
        },
        name: name.map(|s| s.to_string()),
    }
}

#[test]
fn operands_that_cannot_be_outputs_are_listed() {
    let sized = Dimension::Dynamic(DynamicDimension { name: "n".to_string(), max_size: 4 });
    for operand in [
        listed(Some("w\"x"), vec![Dimension::Static(2), sized], vec![1, 0]),
        listed(None, vec![], vec![]),
    ] {
        assert_eq!(operand.debug_listing(), format!("{:#?}", operand));
        let shown = format!("{:#?}", operand);
        assert_eq!(
            GraphBuilderError::RequestedInputAsOutput { operand: operand.clone(), id: 3 }.message(),
            format!(
                "Failed to build: requested an MLOperand with id 3 as an output that is already \
                 an input:\n{}",
                shown
            )
        );
        assert_eq!(
            GraphBuilderError::RequestedConstantAsOutput { operand, id: 4 }.message(),
            format!(
                "Failed to build: requested an MLOperand with id 4 as an output that is already \
                 an constant:\n{}",
                shown
            )
        );
    }
}

#[test]
fn errors_from_elsewhere_show_their_text() {
    let source = || "no device".to_string();
    for (e, message) in [
        (Error::GraphBuildError { source: source() }, "Failed to build graph: no device"),
        (Error::InferenceError { source: source() }, "Failed to run inference: no device"),
        (Error::ContextCreationError { source: source() }, "Failed to create context: no device"),
        (Error::BuilderCreationError { source: source() }, "Failed to create builder: no device"),
        (Error::GraphDispatchError { source: source() }, "Failed to dispatch graph: no device"),
        (Error::TrtxError { source: source() }, "An error in the Trtx: no device"),
        (Error::CudaError { source: source() }, "An CUDA error occurred: no device"),
    ] {
        assert_eq!(e.message(), message);
    }
    assert_eq!(
        GraphBuilderError::CacheError { source: source() }.message(),
        "A cache error occurred: no device"
    );
}

#[test]
fn a_capacity_that_is_too_small_is_described() {
    let e = Error::TensorCapacityError {
        requested_shape: vec![2, 3],
        current_shape: vec![4],
        requested_bytes: 24,
        required_bytes: 16,
    };
    assert_eq!(
        e.message(),
        "Set capacity error: requested to set capacity to max shape [2, 3] with 16 bytes but \
         current shape is [4] which needs 16 bytes"
    );
}
