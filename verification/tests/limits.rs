use rustnn::graph::DataType;
use rustnn::limits::{
    MLConv2dSupportLimits, MLInputOperandLayout, MLOpSupportLimits, MLRankRange, MLTensorLimits,
};

fn sample_tensor_limits() -> MLTensorLimits {
    MLTensorLimits {
        data_types: vec![DataType::Float32],
        rank_range: MLRankRange { min: 1, max: 8 },
    }
}

#[test]
fn default_limits_describe_nothing() {
    let limits = MLOpSupportLimits::default();
    assert_eq!(limits.preferred_input_layout, MLInputOperandLayout::Nhwc);
    assert_eq!(limits.max_tensor_byte_length, 0);
    assert_eq!(limits.input, MLTensorLimits::default());
    assert!(limits.conv2d.is_none());
    assert!(limits.where_.is_none());
    assert_eq!(MLRankRange::default(), MLRankRange { min: 0, max: 0 });
    assert_eq!(MLInputOperandLayout::default(), MLInputOperandLayout::Nhwc);
}

#[test]
fn limits_keep_what_they_are_given() {
    let limits = MLOpSupportLimits {
        preferred_input_layout: MLInputOperandLayout::Nchw,
        max_tensor_byte_length: 268_435_456,
        input: sample_tensor_limits(),
        conv2d: Some(MLConv2dSupportLimits {
            input: sample_tensor_limits(),
            filter: sample_tensor_limits(),
            bias: sample_tensor_limits(),
            output: sample_tensor_limits(),
        }),
        ..Default::default()
    };
    let copy = limits.clone();
    assert_eq!(copy, limits);
    assert_eq!(copy.conv2d.unwrap().filter.rank_range.max, 8);
}
