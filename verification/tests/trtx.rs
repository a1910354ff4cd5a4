use rustnn::graph::{
    to_dimension_vector, DataType, GraphInfo, Operand, OperandDescriptor, OperandKind,
};
use rustnn::trtx::types::TrtDataType;
use rustnn::trtx::TrtxConverter;

#[test]
fn test_webnn_to_trt_dtype() {
    assert!(matches!(
        TrtxConverter::webnn_to_trt_dtype(DataType::Float32).unwrap(),
        TrtDataType::kFLOAT
    ));
    assert!(matches!(
        TrtxConverter::webnn_to_trt_dtype(DataType::Float16).unwrap(),
        TrtDataType::kHALF
    ));
    assert!(matches!(
        TrtxConverter::webnn_to_trt_dtype(DataType::Int8).unwrap(),
        TrtDataType::kINT8
    ));
    assert!(matches!(
        TrtxConverter::webnn_to_trt_dtype(DataType::Int32).unwrap(),
        TrtDataType::kINT32
    ));
}

#[test]
fn test_engine_binding_name_stable() {
    assert_eq!(TrtxConverter::engine_binding_name(0).as_str(), "webnn_operand_0");
    assert_eq!(TrtxConverter::engine_binding_name(42).as_str(), "webnn_operand_42");
}

fn operand(kind: OperandKind, shape: &[u32], name: Option<&str>) -> Operand {
    Operand {
        kind,
        descriptor: OperandDescriptor {
            data_type: DataType::Float32,
            shape: to_dimension_vector(shape),
            pending_permutation: vec![],
        },
        name: name.map(|s| s.to_string()),
    }
}

#[test]
fn test_engine_io_binding_names_use_operand_names() {
    let graph = GraphInfo {
        operands: vec![
            operand(OperandKind::Input, &[1, 1], Some("lhs")),
            operand(OperandKind::Constant, &[1, 1], Some("c")),
            operand(OperandKind::Output, &[1, 1], Some("sum")),
        ],
        input_operands: vec![0],
        output_operands: vec![2],
        operations: vec![],
        constant_operand_ids_to_handles: Default::default(),
        id_to_constant_tensor_operand_map: Default::default(),
        quantized: false,
    };
    let m = TrtxConverter::engine_io_binding_names(&graph);
    assert_eq!(m.get(&0).map(String::as_str), Some("lhs"));
    assert_eq!(m.get(&2).map(String::as_str), Some("sum"));
    assert_eq!(m.get(&1), None);
}

#[test]
fn test_engine_io_binding_names_duplicate_disambiguation() {
    let graph = GraphInfo {
        operands: vec![
            operand(OperandKind::Input, &[1], Some("x")),
            operand(OperandKind::Input, &[1], Some("x")),
        ],
        input_operands: vec![0, 1],
        output_operands: vec![],
        operations: vec![],
        constant_operand_ids_to_handles: Default::default(),
        id_to_constant_tensor_operand_map: Default::default(),
        quantized: false,
    };
    let m = TrtxConverter::engine_io_binding_names(&graph);
    assert_eq!(m.get(&0).map(String::as_str), Some("x_0"));
    assert_eq!(m.get(&1).map(String::as_str), Some("x_1"));
}

#[test]
fn operands_without_a_name_are_named_by_number() {
    let graph = GraphInfo {
        operands: vec![
            operand(OperandKind::Input, &[1], None),
            operand(OperandKind::Output, &[1], Some("")),
        ],
        input_operands: vec![0],
        output_operands: vec![1],
        ..GraphInfo::default()
    };
    let m = TrtxConverter::engine_io_binding_names(&graph);
    assert_eq!(m.get(&0).map(String::as_str), Some("webnn_operand_0"));
    assert_eq!(m.get(&1).map(String::as_str), Some("webnn_operand_1"));
    assert_eq!(TrtxConverter::engine_io_tensor_name(&graph, 1), "webnn_operand_1");
    assert_eq!(TrtxConverter::constant_weight_name(17), "17");
}

#[test]
fn names_keep_their_white_space() {
    let graph = GraphInfo {
        operands: vec![
            operand(OperandKind::Input, &[1], Some(" a ")),
            operand(OperandKind::Input, &[1], Some("a")),
            operand(OperandKind::Output, &[1], Some(" ")),
        ],
        input_operands: vec![0, 1],
        output_operands: vec![2],
        ..GraphInfo::default()
    };
    let m = TrtxConverter::engine_io_binding_names(&graph);
    assert_eq!(m.get(&0).map(String::as_str), Some(" a "));
    assert_eq!(m.get(&1).map(String::as_str), Some("a"));
    assert_eq!(m.get(&2).map(String::as_str), Some(" "));
    assert_eq!(TrtxConverter::engine_io_tensor_name(&graph, 0), " a ");
}

#[test]
fn test_conv_dynamic_filter_first_transpose_hwio() {
    // HWIO -> OIHW: output[o,i,h,w] reads input[h,w,i,o].
    assert_eq!(
        TrtxConverter::conv_dynamic_filter_first_transpose("hwio").unwrap(),
        [3, 2, 0, 1]
    );
}

#[test]
fn test_deconv_dynamic_filter_first_transpose_oihw() {
    // OIHW -> IOHW: output[i,o,h,w] reads input[o,i,h,w].
    assert_eq!(
        TrtxConverter::deconv_dynamic_filter_first_transpose("oihw").unwrap(),
        [1, 0, 2, 3]
    );
}

#[test]
fn unknown_filter_layouts_are_refused() {
    assert!(TrtxConverter::conv_dynamic_filter_first_transpose("abcd").is_err());
    assert!(TrtxConverter::deconv_dynamic_filter_first_transpose("").is_err());
}

#[test]
fn the_format_is_named() {
    assert_eq!(TrtxConverter::new().format(), "trtx");
    assert_eq!(TrtxConverter::default().format(), "trtx");
}
