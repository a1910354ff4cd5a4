use std::collections::HashMap;

use rustnn::digest::identifier_text;
use rustnn::error::{Error, GraphBuilderError, GraphError};
use rustnn::graph::{
    get_static_or_max_size, pack_int4, pack_uint4, pack_uint4_from_i32, to_dimension_vector,
    unpack_int4, unpack_uint4, ConstantData, ConstantReference, DataType, Dimension,
    DynamicDimension, GraphInfo, IdRef, Operand, OperandDescriptor, OperandKind,
};
use rustnn::operator_options::{MLDimension, MLDynamicDimension, MLEluOptions, MLReduceOptions};
use rustnn::operators::{Operation, OperationKind};
use rustnn::scalar::Known;

#[test]
fn test_data_type_bits_per_element() {
    assert_eq!(DataType::Int4.bits_per_element(), 4);
    assert_eq!(DataType::Uint4.bits_per_element(), 4);
    assert_eq!(DataType::Float16.bits_per_element(), 16);
    assert_eq!(DataType::Float32.bits_per_element(), 32);
    assert_eq!(DataType::Int32.bits_per_element(), 32);
    assert_eq!(DataType::Uint32.bits_per_element(), 32);
    assert_eq!(DataType::Int8.bits_per_element(), 8);
    assert_eq!(DataType::Uint8.bits_per_element(), 8);
    assert_eq!(DataType::Int64.bits_per_element(), 64);
    assert_eq!(DataType::Uint64.bits_per_element(), 64);
}

#[test]
fn test_data_type_bytes_per_element() {
    assert_eq!(DataType::Float16.bytes_per_element(), 2);
    assert_eq!(DataType::Float32.bytes_per_element(), 4);
    assert_eq!(DataType::Int32.bytes_per_element(), 4);
    assert_eq!(DataType::Uint32.bytes_per_element(), 4);
    assert_eq!(DataType::Int8.bytes_per_element(), 1);
    assert_eq!(DataType::Uint8.bytes_per_element(), 1);
    assert_eq!(DataType::Int64.bytes_per_element(), 8);
    assert_eq!(DataType::Uint64.bytes_per_element(), 8);
}

#[test]
fn test_data_type_storage_byte_length_int4() {
    assert_eq!(DataType::Int4.storage_byte_length(0), Some(0));
    assert_eq!(DataType::Int4.storage_byte_length(1), Some(1));
    assert_eq!(DataType::Int4.storage_byte_length(2), Some(1));
    assert_eq!(DataType::Int4.storage_byte_length(3), Some(2));
    assert_eq!(DataType::Int4.storage_byte_length(100), Some(50));
}

#[test]
fn storage_that_no_count_of_bits_holds() {
    assert_eq!(DataType::Int64.storage_byte_length(usize::MAX), None);
    assert_eq!(DataType::Int64.storage_byte_length(usize::MAX / 64 + 1), None);
}

#[test]
fn test_pack_unpack_int4() {
    let values = vec![-8_i32, 7, 0, -1];
    let packed = pack_int4(&values);
    assert_eq!(packed, vec![0x87, 0x0F]);
    assert_eq!(unpack_int4(&packed, values.len()), values);
}

#[test]
fn test_pack_unpack_uint4() {
    let values = vec![0_u8, 15, 7, 1];
    let packed = pack_uint4(&values);
    assert_eq!(packed, vec![0x0F, 0x71]);
    assert_eq!(unpack_uint4(&packed, values.len()), values);
}

#[test]
fn four_bit_values_are_cut_to_their_range() {
    let packed = pack_uint4_from_i32(&[-3, 16, 5]);
    assert_eq!(unpack_uint4(&packed, 3), vec![0, 15, 5]);
    let odd = pack_int4(&[3, -2, -7]);
    assert_eq!(odd.len(), 2);
    assert_eq!(unpack_int4(&odd, 3), vec![3, -2, -7]);
    assert_eq!(unpack_int4(&pack_int4(&[9, -9]), 2), vec![7, -8]);
}

#[test]
fn test_operand_descriptor_element_count() {
    let desc = OperandDescriptor {
        data_type: DataType::Int4,
        shape: to_dimension_vector(&[2, 3, 4]),
        pending_permutation: vec![],
    };
    assert_eq!(desc.element_count(), Some(24));
}

#[test]
fn test_operand_descriptor_byte_length_int4() {
    let desc = OperandDescriptor {
        data_type: DataType::Int4,
        shape: to_dimension_vector(&[10, 10]),
        pending_permutation: vec![],
    };
    assert_eq!(desc.byte_length(), Some(50));
}

#[test]
fn test_operand_descriptor_byte_length_uint4() {
    let desc = OperandDescriptor {
        data_type: DataType::Uint4,
        shape: to_dimension_vector(&[8, 16]),
        pending_permutation: vec![],
    };
    assert_eq!(desc.byte_length(), Some(64));
}

#[test]
fn test_operand_descriptor_byte_length_float32() {
    let desc = OperandDescriptor {
        data_type: DataType::Float32,
        shape: to_dimension_vector(&[4, 4]),
        pending_permutation: vec![],
    };
    assert_eq!(desc.byte_length(), Some(64));
}

fn dynamic(name: &str, max_size: u32) -> Dimension {
    Dimension::Dynamic(DynamicDimension { name: name.to_string(), max_size })
}

#[test]
fn dynamic_shapes_count_with_their_bounds() {
    let desc = OperandDescriptor {
        data_type: DataType::Float32,
        shape: vec![dynamic("batch", 8), Dimension::Static(3)],
        pending_permutation: vec![],
    };
    assert!(desc.has_dynamic_dimensions());
    assert_eq!(desc.static_shape(), None);
    assert_eq!(desc.static_or_max_shape(), vec![8, 3]);
    assert_eq!(get_static_or_max_size(&desc.shape[0]), 8);
    assert_eq!(desc.element_count(), Some(24));
    assert_eq!(desc.byte_length(), Some(96));
}

#[test]
fn element_counts_that_overflow_are_refused() {
    let desc = OperandDescriptor {
        data_type: DataType::Uint8,
        shape: to_dimension_vector(&[u32::MAX, u32::MAX, u32::MAX]),
        pending_permutation: vec![],
    };
    assert_eq!(desc.element_count(), None);
}

#[test]
fn dimensions_convert_both_ways() {
    let d = dynamic("n", 5);
    let m = MLDimension::from(d.clone());
    assert_eq!(
        m,
        MLDimension::Dynamic(MLDynamicDimension { name: "n".to_string(), max_size: 5 })
    );
    assert_eq!(Dimension::from(m), d);
    assert_eq!(Dimension::from(MLDimension::Static(7)), Dimension::Static(7));
}

fn operand(kind: OperandKind, shape: &[u32], name: Option<&str>) -> Operand {
    Operand {
        kind,
        descriptor: OperandDescriptor {
            data_type: DataType::Float32,
            shape: to_dimension_vector(shape),
            pending_permutation: vec![],
        },
        name: name.map(|s| s.to_string()),
    }
}

fn sample_io_graph() -> GraphInfo {
    GraphInfo {
        operands: vec![
            operand(OperandKind::Input, &[2, 2], Some("x")),
            operand(OperandKind::Output, &[2, 2], Some("y")),
        ],
        input_operands: vec![0],
        output_operands: vec![1],
        operations: vec![],
        constant_operand_ids_to_handles: HashMap::new(),
        id_to_constant_tensor_operand_map: HashMap::new(),
        quantized: false,
    }
}

#[test]
fn validate_io_operand_lists_accepts_consistent_graph() {
    sample_io_graph().validate_io_operand_lists().unwrap();
    assert!(sample_io_graph().io_binding_maps().is_ok());
}

#[test]
fn validate_io_operand_lists_rejects_extra_input_operand_id() {
    let mut graph = sample_io_graph();
    graph.input_operands.push(99);
    assert!(matches!(
        graph.validate_io_operand_lists(),
        Err(GraphError::InputIdListMismatch { .. })
    ));
}

#[test]
fn validate_io_operand_lists_rejects_invalid_operand_id_in_list() {
    let mut graph = sample_io_graph();
    graph.input_operands = vec![0, 99];
    graph.operands.push(operand(OperandKind::Input, &[1], Some("z")));
    assert!(matches!(
        graph.validate_io_operand_lists(),
        Err(GraphError::InputIdListMismatch { .. })
    ));
}

#[test]
fn validate_io_operand_lists_rejects_missing_input_in_list() {
    let mut graph = sample_io_graph();
    graph.operands.push(operand(OperandKind::Input, &[1], Some("z")));
    assert!(matches!(
        graph.validate_io_operand_lists(),
        Err(GraphError::InputIdListMismatch { .. })
    ));
}

#[test]
fn validate_io_operand_lists_rejects_wrong_kind_in_input_list() {
    let mut graph = sample_io_graph();
    graph.input_operands = vec![1];
    assert!(matches!(
        graph.validate_io_operand_lists(),
        Err(GraphError::InputIdListMismatch { .. })
    ));
}

#[test]
fn validate_io_operand_lists_rejects_output_kind_not_in_list() {
    let mut graph = sample_io_graph();
    graph.operands[0].kind = OperandKind::Output;
    graph.output_operands.push(0);
    assert!(matches!(
        graph.validate_io_operand_lists(),
        Err(GraphError::InputIdListMismatch { .. })
    ));
}

#[test]
fn a_wrong_list_of_outputs_is_refused_with_both_lists() {
    let mut graph = sample_io_graph();
    graph.output_operands = vec![];
    match graph.validate_io_operand_lists() {
        Err(GraphError::OutputIdListMismatch { output_ids, output_ids_in_operands }) => {
            assert_eq!(output_ids, Vec::<u32>::new());
            assert_eq!(output_ids_in_operands, vec![1]);
        }
        other => panic!("{:?}", other),
    }
}

#[test]
fn inputs_and_outputs_are_bound_by_name() {
    let graph = sample_io_graph();
    let (inputs, outputs) = graph.io_binding_maps().ok().unwrap();
    assert_eq!(inputs.get("x").unwrap().byte_length(), Some(16));
    assert_eq!(outputs.get("y").unwrap().byte_length(), Some(16));
    assert!(inputs.get("y").is_none());
    assert_eq!(inputs.len(), 1);
}

#[test]
fn unnamed_and_repeated_bindings_are_refused() {
    let mut graph = sample_io_graph();
    graph.operands[0].name = None;
    assert!(matches!(
        graph.io_binding_maps(),
        Err(GraphError::MissingInputName { operand: 0 })
    ));
    graph.operands[0].name = Some(String::new());
    assert!(matches!(
        graph.io_binding_maps(),
        Err(GraphError::MissingInputName { operand: 0 })
    ));
    graph.operands[0].name = Some("x".to_string());
    graph.operands[1].name = None;
    assert!(matches!(
        graph.io_binding_maps(),
        Err(GraphError::MissingOutputName { operand: 1 })
    ));

    let mut twice = sample_io_graph();
    twice.operands.push(operand(OperandKind::Input, &[1], Some("x")));
    twice.input_operands = vec![0, 2];
    match twice.io_binding_maps() {
        Err(GraphError::DuplicateInputName { name }) => assert_eq!(name, "x"),
        _ => panic!("the name is taken"),
    }
    twice.operands[2].kind = OperandKind::Output;
    twice.operands[2].name = Some("y".to_string());
    twice.input_operands = vec![0];
    twice.output_operands = vec![1, 2];
    match twice.io_binding_maps() {
        Err(GraphError::DuplicateOutputName { name }) => assert_eq!(name, "y"),
        _ => panic!("the name is taken"),
    }
}

#[test]
fn an_empty_graph_holds_nothing() {
    let graph = GraphInfo::default();
    assert!(graph.operands.is_empty());
    assert!(graph.operations.is_empty());
    assert!(graph.constant_operand_ids_to_handles.is_empty());
    assert!(!graph.quantized);
    assert!(!graph.has_dynamic_dimensions());
}

fn byte_descriptor(n: u32) -> OperandDescriptor {
    OperandDescriptor {
        data_type: DataType::Uint8,
        shape: to_dimension_vector(&[n]),
        pending_permutation: vec![],
    }
}

#[test]
fn an_added_constant_is_read_back() {
    let mut graph = sample_io_graph();
    let first = graph
        .add_constant_reference(
            byte_descriptor(3),
            ConstantReference::OwnedData(ConstantData { data: vec![1, 2, 3], label: None }),
            Some("w".to_string()),
        )
        .unwrap();
    let second = graph
        .add_constant_reference(byte_descriptor(2), ConstantReference::Zeroed, None)
        .unwrap();
    assert_eq!((first, second), (2, 3));
    assert_eq!(graph.operands[2].kind, OperandKind::Constant);
    assert_eq!(graph.constant_data(2, None).unwrap(), &[1, 2, 3]);
    let zeros = vec![0_u8; 10_073_741_824_usize.min(1 << 20)];
    assert!(graph.constant_data(3, None).is_err());
    assert_eq!(graph.constant_data(2, Some(&zeros)).unwrap(), &[1, 2, 3]);
}

#[test]
fn constants_that_are_not_there_are_refused() {
    let mut graph = sample_io_graph();
    match graph.constant_data(7, None) {
        Err(e) => assert_eq!(
            e.message(),
            "An error occurred while using the graph builder API: \
             Failed to constant for build with id 7"
        ),
        Ok(_) => panic!("there is no constant 7"),
    }
    let id = graph
        .add_constant_reference(
            byte_descriptor(2),
            ConstantReference::IdRef(IdRef { id: 9, label: Some("a\"b".to_string()) }),
            None,
        )
        .unwrap();
    match graph.constant_data(id, None) {
        Err(Error::GraphBuilderError { source }) => {
            assert!(matches!(source, GraphBuilderError::UnresolvedConstant { id: 2, .. }));
            assert_eq!(
                source.message(),
                "Tried to get constant data from constant 2 \
                 IdRef(IdRef { id: 9, label: Some(\"a\\\"b\") }) which is not resolved yet"
            );
        }
        _ => panic!("the constant is not resolved"),
    }
}

#[test]
fn zeros_need_a_shape_with_a_size() {
    let mut graph = sample_io_graph();
    let id = graph
        .add_constant_reference(
            OperandDescriptor {
                data_type: DataType::Uint8,
                shape: vec![dynamic("n", u32::MAX), Dimension::Static(u32::MAX), dynamic("m", 9)],
                pending_permutation: vec![],
            },
            ConstantReference::Zeroed,
            None,
        )
        .unwrap();
    match graph.constant_data(id, None) {
        Err(Error::GraphBuilderError {
            source: GraphBuilderError::RequestedConstantDataForDynamicallyShapedConstant {
                id: i,
                ..
            },
        }) => assert_eq!(i, id),
        _ => panic!("the shape has no size"),
    }
}

fn relu_graph() -> GraphInfo {
    let mut graph = sample_io_graph();
    graph.operations.push(Operation {
        kind: OperationKind::Relu,
        inputs: vec![0],
        outputs: vec![1],
    });
    graph
}

#[test]
fn an_identifier_holds_the_hash_the_count_and_the_suffix() {
    assert_eq!(identifier_text(0xdead_beef, 12, "trtx"), "deadbeef_12_trtx");
    assert_eq!(identifier_text(0, 0, ""), "0_0_");

    let graph = relu_graph();
    let bytes = graph.bytes_without_weights();
    let hash = seahash::hash(&bytes);
    assert_eq!(
        graph.hash_identifier_without_weights("engine"),
        format!("{:x}_{}_engine", hash, graph.operands.len())
    );
}

#[test]
fn graphs_are_written_field_by_field() {
    let graph = GraphInfo {
        operands: vec![operand(OperandKind::Output, &[7], Some("y"))],
        output_operands: vec![0],
        ..GraphInfo::default()
    };
    let mut expected: Vec<u8> = Vec::new();
    expected.extend(0u64.to_le_bytes());
    expected.extend(1u64.to_le_bytes());
    expected.extend(0u32.to_le_bytes());
    expected.extend(1u64.to_le_bytes());
    expected.extend(2u64.to_le_bytes());
    expected.extend(3u64.to_le_bytes());
    expected.extend(1u64.to_le_bytes());
    expected.extend(0u64.to_le_bytes());
    expected.extend(7u32.to_le_bytes());
    expected.extend(0u64.to_le_bytes());
    expected.extend(1u64.to_le_bytes());
    expected.extend(b"y");
    expected.push(0xff);
    expected.extend(0u64.to_le_bytes());
    assert_eq!(graph.bytes_without_weights(), expected);
}

#[test]
fn identifiers_ignore_constants_but_not_options() {
    let mut graph = relu_graph();
    let plain = graph.hash_identifier_without_weights("s");
    graph.constant_operand_ids_to_handles.insert(
        0,
        ConstantReference::OwnedData(ConstantData { data: vec![1], label: None }),
    );
    assert_eq!(graph.hash_identifier_without_weights("s"), plain);

    graph.operations[0].kind = OperationKind::Elu { options: None };
    let elu = graph.hash_identifier_without_weights("s");
    assert_ne!(elu, plain);
    graph.operations[0].kind = OperationKind::Elu {
        options: Some(MLEluOptions { alpha: Known::OneHalf.scalar() }),
    };
    let half = graph.hash_identifier_without_weights("s");
    assert_ne!(half, elu);
    graph.operations[0].kind = OperationKind::ReduceSum {
        options: Some(MLReduceOptions { axes: Some(vec![1]), keep_dimensions: false }),
    };
    let one = graph.hash_identifier_without_weights("s");
    graph.operations[0].kind = OperationKind::ReduceSum {
        options: Some(MLReduceOptions { axes: Some(vec![0]), keep_dimensions: false }),
    };
    assert_ne!(graph.hash_identifier_without_weights("s"), one);
}

#[test]
fn references_tell_their_kind() {
    let owned = ConstantReference::OwnedData(ConstantData { data: vec![7], label: None });
    assert_eq!(owned.as_owned_data().unwrap().data, [7]);
    assert!(!owned.is_zeroed() && !owned.is_zeroed_unique_ptr() && !owned.is_id_ref());
    assert!(owned.as_zeroed_unique_ptr().is_none() && owned.as_id_ref().is_none());

    let zeroed = ConstantReference::Zeroed;
    assert!(zeroed.is_zeroed() && zeroed.as_owned_data().is_none());

    let unique = ConstantReference::ZeroedUniquePtr { offset: 64 };
    assert!(unique.is_zeroed_unique_ptr() && !unique.is_zeroed());
    assert_eq!(unique.as_zeroed_unique_ptr(), Some(&64));

    let id = ConstantReference::IdRef(IdRef { id: 5, label: None });
    assert!(id.is_id_ref());
    assert_eq!(id.as_id_ref().unwrap().id, 5);
}

#[test]
fn an_operation_lists_its_operands() {
    let op = Operation { kind: OperationKind::Add, inputs: vec![1, 2], outputs: vec![3] };
    assert_eq!(op.input_operands(), &[1, 2]);
    assert_eq!(op.output_operands_slice(), &[3]);
    assert!(!rustnn::graph::dynamic_inputs_enabled());
}
