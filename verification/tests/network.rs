//! Converts small graphs and carries out the networks that come of it.

use std::collections::{HashMap, HashSet};

use rustnn::error::{Error, GraphBuilderError};
use rustnn::graph::{
    to_dimension_vector, ConstantData, ConstantReference, DataType, GraphInfo, IdRef, Operand,
    OperandDescriptor, OperandKind, WeightsContext,
};
use rustnn::operator_options::{
    FloatReading, MLArgMinMaxOptions, MLBatchNormalizationOptions, MLClampOptions,
    MLConv2dOptions, MLConvTranspose2dOptions, MLCumulativeSumOptions, MLDimension, MLEluOptions,
    MLGatherOptions, MLGemmOptions, MLHardSigmoidOptions, MLInstanceNormalizationOptions,
    MLLayerNormalizationOptions, MLLeakyReluOptions, MLLinearOptions, MLNumber, MLPadOptions,
    MLPool2dOptions, MLReduceOptions, MLResample2dOptions, MLReverseOptions, MLScatterOptions,
    MLSliceOptions, MLSplitOptions, MLTransposeOptions, MLTriangularOptions,
};
use rustnn::operators::{Operation, OperationKind};
use rustnn::scalar::Scalar;
use rustnn::trtx::network::{Build, Stage};
use rustnn::trtx::session::{
    HaltOf, Network, Reply, ReplyOf, Request, RequestOf, TensorMap, WeightsOf,
};
use rustnn::trtx::types::{
    ActivationType, ConstantStorage, ElementWiseOperation, GatherMode, MatrixOperation,
    PoolingType, ReduceOperation, ResizeMode, ScatterMode, TopKOperation, TrtDataType,
    UnaryOperation,
};
use rustnn::trtx::TrtxConverter;

#[derive(Clone, Debug)]
struct Value {
    dims: Vec<i64>,
    data: Vec<f64>,
    dtype: TrtDataType,
}

#[derive(Default)]
struct Settings {
    transpose: Option<Vec<i32>>,
    reshape: Option<Vec<i64>>,
    out_dims: Option<Vec<i64>>,
    axis: i32,
    gather: Option<GatherMode>,
    inputs: HashMap<i32, usize>,
    stride: Option<(i64, i64)>,
    pre: (i64, i64),
    post: (i64, i64),
    dilation: Option<(i64, i64)>,
    groups: Option<i64>,
    excludes: Option<bool>,
    round_up: bool,
    linear: bool,
}

struct Machine {
    values: HashMap<usize, Value>,
    settings: HashMap<usize, Settings>,
    inputs: HashMap<String, Vec<f64>>,
    names: HashMap<usize, String>,
    outputs: Vec<usize>,
}

fn count(dims: &[i64]) -> usize {
    dims.iter().product::<i64>() as usize
}

fn place(dims: &[i64], mut flat: usize) -> Vec<i64> {
    let mut p = vec![0; dims.len()];
    for i in (0..dims.len()).rev() {
        p[i] = (flat as i64) % dims[i];
        flat /= dims[i] as usize;
    }
    p
}

fn index(dims: &[i64], p: &[i64]) -> usize {
    let mut flat = 0;
    for i in 0..dims.len() {
        assert!(p[i] >= 0 && p[i] < dims[i], "place {:?} in {:?}", p, dims);
        flat = flat * dims[i] + p[i];
    }
    flat as usize
}

fn bytes_to_numbers(bytes: &[u8], dtype: TrtDataType) -> Vec<f64> {
    match dtype {
        TrtDataType::kFLOAT => bytes
            .chunks(4)
            .map(|c| f32::from_le_bytes([c[0], c[1], c[2], c[3]]) as f64)
            .collect(),
        TrtDataType::kHALF => bytes
            .chunks(2)
            .map(|c| half::f16::from_le_bytes([c[0], c[1]]).to_f64())
            .collect(),
        TrtDataType::kINT32 => bytes
            .chunks(4)
            .map(|c| i32::from_le_bytes([c[0], c[1], c[2], c[3]]) as f64)
            .collect(),
        TrtDataType::kINT64 => bytes
            .chunks(8)
            .map(|c| {
                let mut b = [0u8; 8];
                b.copy_from_slice(c);
                i64::from_le_bytes(b) as f64
            })
            .collect(),
        TrtDataType::kINT8 => bytes.iter().map(|b| *b as i8 as f64).collect(),
        TrtDataType::kUINT8 | TrtDataType::kBOOL => bytes.iter().map(|b| *b as f64).collect(),
        other => panic!("constant of type {:?}", other),
    }
}

fn is_float(t: TrtDataType) -> bool {
    matches!(t, TrtDataType::kFLOAT | TrtDataType::kHALF)
}

fn erf(x: f64) -> f64 {
    let mut sum = 0.0;
    let mut term = x;
    let mut n = 0.0;
    while n < 200.0 {
        sum += term / (2.0 * n + 1.0);
        n += 1.0;
        term *= -x * x / n;
    }
    sum * 2.0 / std::f64::consts::PI.sqrt()
}

fn round_even(x: f64) -> f64 {
    let r = x.round();
    if (x - x.trunc()).abs() == 0.5 && r % 2.0 != 0.0 {
        r - x.signum()
    } else {
        r
    }
}

impl Machine {
    fn new(inputs: &[(&str, Vec<f64>)]) -> Machine {
        Machine {
            values: HashMap::new(),
            settings: HashMap::new(),
            inputs: inputs.iter().map(|(n, v)| (n.to_string(), v.clone())).collect(),
            names: HashMap::new(),
            outputs: vec![],
        }
    }

    fn set(&mut self, layer: usize) -> &mut Settings {
        self.settings.entry(layer).or_default()
    }

    fn tensor(&mut self, at: usize, v: Value) -> Reply {
        assert_eq!(count(&v.dims), v.data.len());
        let reply = ReplyOf::Tensor { dims: Ok(v.dims.clone()), dtype: v.dtype };
        self.values.insert(at, v);
        reply
    }

    fn get(&self, id: usize) -> Value {
        self.values[&id].clone()
    }

    fn perform(&mut self, at: usize, net: &Network) -> Reply {
        match &net.requests[at] {
            RequestOf::AddInput { name, dtype, dims } => {
                let data = self.inputs[name].clone();
                self.tensor(at, Value { dims: dims.clone(), data, dtype: *dtype })
            }
            RequestOf::Output { layer, index } => {
                let v = self.output(layer.id, *index, net);
                self.tensor(at, v)
            }
            RequestOf::SetFirstTranspose { layer, order } => {
                self.set(layer.id).transpose = Some(order.clone());
                ReplyOf::Done
            }
            RequestOf::SetReshapeDimensions { layer, dims } => {
                self.set(layer.id).reshape = Some(dims.clone());
                ReplyOf::Done
            }
            RequestOf::SetOutputDimensions { layer, dims } => {
                self.set(layer.id).out_dims = Some(dims.clone());
                ReplyOf::Done
            }
            RequestOf::SetResizeMode { layer, mode } => {
                self.set(layer.id).linear = *mode == ResizeMode::kLINEAR;
                ReplyOf::Done
            }
            RequestOf::SetAxis { layer, axis } => {
                self.set(layer.id).axis = *axis;
                ReplyOf::Done
            }
            RequestOf::SetGatherMode { layer, mode } => {
                self.set(layer.id).gather = Some(*mode);
                ReplyOf::Done
            }
            RequestOf::SetInput { layer, index, tensor } => {
                self.set(layer.id).inputs.insert(*index, tensor.id);
                ReplyOf::Done
            }
            RequestOf::SetStride { layer, stride } => {
                self.set(layer.id).stride = Some(*stride);
                ReplyOf::Done
            }
            RequestOf::SetPadding { layer, padding } => {
                self.set(layer.id).pre = *padding;
                self.set(layer.id).post = *padding;
                ReplyOf::Done
            }
            RequestOf::SetPrePadding { layer, padding } => {
                self.set(layer.id).pre = *padding;
                ReplyOf::Done
            }
            RequestOf::SetPostPadding { layer, padding } => {
                self.set(layer.id).post = *padding;
                ReplyOf::Done
            }
            RequestOf::SetPaddingMode { layer, .. } => {
                self.set(layer.id).round_up = true;
                ReplyOf::Done
            }
            RequestOf::SetDilation { layer, dilation } => {
                self.set(layer.id).dilation = Some(*dilation);
                ReplyOf::Done
            }
            RequestOf::SetNumGroups { layer, groups } => {
                self.set(layer.id).groups = Some(*groups);
                ReplyOf::Done
            }
            RequestOf::SetAverageCountExcludesPadding { layer, excludes } => {
                self.set(layer.id).excludes = Some(*excludes);
                ReplyOf::Done
            }
            RequestOf::SetTensorName { tensor, name } => {
                self.names.insert(tensor.id, name.clone());
                ReplyOf::Done
            }
            RequestOf::MarkOutput { tensor } => {
                self.outputs.push(tensor.id);
                ReplyOf::Done
            }
            RequestOf::ConstantData { operand } => panic!("constant {} was not resolved", operand),
            RequestOf::ScaledExtent { extent, scale } => {
                let scaled = (*extent as f64) * (f32::from_bits(*scale) as f64);
                ReplyOf::Extent((scaled.round() as i64).max(1))
            }
            RequestOf::InferArgReduceShape { shape, axis, keep_dims } => {
                let mut s = shape.clone();
                if *keep_dims {
                    s[*axis as usize] = 1;
                } else {
                    s.remove(*axis as usize);
                }
                ReplyOf::Shape(s)
            }
            RequestOf::InferWhereShape { condition, on_true, on_false } => {
                let rank = condition.len().max(on_true.len()).max(on_false.len());
                let mut s = vec![1; rank];
                for d in [condition, on_true, on_false] {
                    for i in 0..d.len() {
                        let j = rank - d.len() + i;
                        s[j] = s[j].max(d[i]);
                    }
                }
                ReplyOf::Shape(s)
            }
            RequestOf::InferPool2dShape { shape, window, strides, dilations, padding, ceil } => {
                let extent = |n: i64, w: u32, s: u32, d: u32, pre: u32, post: u32| {
                    let span = (w as i64 - 1) * d as i64 + 1;
                    let room = n + pre as i64 + post as i64 - span;
                    let s = s as i64;
                    (if *ceil { (room + s - 1) / s } else { room / s }) + 1
                };
                let h = extent(shape[2], window.0, strides.0, dilations.0, padding.0, padding.1);
                let w = extent(shape[3], window.1, strides.1, dilations.1, padding.2, padding.3);
                ReplyOf::Shape(vec![shape[0], shape[1], h, w])
            }
            RequestOf::InferPoolRounding { .. } => ReplyOf::Done,
            _ => ReplyOf::Done,
        }
    }

    fn elementwise(&self, a: usize, b: usize, op: ElementWiseOperation) -> Value {
        let (a, b) = (self.get(a), self.get(b));
        assert_eq!(a.dims.len(), b.dims.len(), "{:?} and {:?}", a.dims, b.dims);
        assert_eq!(a.dtype, b.dtype);
        let dims: Vec<i64> = a
            .dims
            .iter()
            .zip(&b.dims)
            .map(|(x, y)| {
                assert!(x == y || *x == 1 || *y == 1, "{:?} and {:?}", a.dims, b.dims);
                *x.max(y)
            })
            .collect();
        let at = |v: &Value, p: &[i64]| {
            let q: Vec<i64> = p.iter().zip(&v.dims).map(|(i, d)| (*i).min(d - 1)).collect();
            v.data[index(&v.dims, &q)]
        };
        let data = (0..count(&dims))
            .map(|i| {
                let p = place(&dims, i);
                let (x, y) = (at(&a, &p), at(&b, &p));
                let flag = |c: bool| if c { 1.0 } else { 0.0 };
                match op {
                    ElementWiseOperation::kSUM => x + y,
                    ElementWiseOperation::kPROD => x * y,
                    ElementWiseOperation::kMAX => x.max(y),
                    ElementWiseOperation::kMIN => x.min(y),
                    ElementWiseOperation::kSUB => x - y,
                    ElementWiseOperation::kDIV => {
                        if is_float(a.dtype) {
                            x / y
                        } else {
                            (x / y).trunc()
                        }
                    }
                    ElementWiseOperation::kPOW => x.powf(y),
                    ElementWiseOperation::kAND => flag(x != 0.0 && y != 0.0),
                    ElementWiseOperation::kOR => flag(x != 0.0 || y != 0.0),
                    ElementWiseOperation::kXOR => flag((x != 0.0) != (y != 0.0)),
                    ElementWiseOperation::kEQUAL => flag(x == y),
                    ElementWiseOperation::kGREATER => flag(x > y),
                    ElementWiseOperation::kLESS => flag(x < y),
                }
            })
            .collect();
        let logical = matches!(
            op,
            ElementWiseOperation::kAND | ElementWiseOperation::kOR | ElementWiseOperation::kXOR
        );
        if logical {
            assert_eq!(a.dtype, TrtDataType::kBOOL);
        }
        let dtype = match op {
            ElementWiseOperation::kEQUAL
            | ElementWiseOperation::kGREATER
            | ElementWiseOperation::kLESS => TrtDataType::kBOOL,
            _ => a.dtype,
        };
        Value { dims, data, dtype }
    }

    fn map(&self, id: usize, f: impl Fn(f64) -> f64) -> Value {
        let v = self.get(id);
        Value { data: v.data.iter().map(|x| f(*x)).collect(), ..v }
    }

    fn output(&mut self, layer: usize, output: i32, net: &Network) -> Value {
        let empty = Settings::default();
        let s = self.settings.get(&layer).unwrap_or(&empty);
        match &net.requests[layer] {
            RequestOf::AddConstant { dims, weights, dtype, .. } => {
                let bytes = match weights {
                    WeightsOf::Bytes(b) => b.clone(),
                    WeightsOf::Reply(at) => match &net.replies[*at] {
                        ReplyOf::Bytes(b) => b.clone(),
                        other => panic!("{:?}", other),
                    },
                };
                let data = bytes_to_numbers(&bytes, *dtype);
                Value { dims: dims.clone(), data, dtype: *dtype }
            }
            RequestOf::AddIdentity { input } => self.get(input.id),
            RequestOf::AddCast { input, dtype } => {
                let v = self.get(input.id);
                let data = v
                    .data
                    .iter()
                    .map(|x| match dtype {
                        TrtDataType::kBOOL => (*x != 0.0) as i32 as f64,
                        t if is_float(*t) => *x,
                        _ => x.trunc(),
                    })
                    .collect();
                Value { dims: v.dims, data, dtype: *dtype }
            }
            RequestOf::AddElementwise { a, b, op } => self.elementwise(a.id, b.id, *op),
            RequestOf::AddActivation { input, kind } => self.map(input.id, |x| match kind {
                ActivationType::kRELU => x.max(0.0),
                ActivationType::kSIGMOID => 1.0 / (1.0 + (-x).exp()),
                ActivationType::kTANH => x.tanh(),
                ActivationType::kELU => {
                    if x > 0.0 {
                        x
                    } else {
                        x.exp() - 1.0
                    }
                }
                ActivationType::kSOFTSIGN => x / (1.0 + x.abs()),
                ActivationType::kSOFTPLUS => (1.0 + x.exp()).ln(),
                ActivationType::kHARD_SIGMOID => (0.2 * x + 0.5).max(0.0).min(1.0),
                ActivationType::kGELU_ERF => 0.5 * x * (1.0 + erf(x / 2f64.sqrt())),
            }),
            RequestOf::AddUnary { input, op } => {
                let dtype = self.get(input.id).dtype;
                if *op == UnaryOperation::kNOT {
                    assert_eq!(dtype, TrtDataType::kBOOL);
                }
                self.map(input.id, |x| match op {
                    UnaryOperation::kEXP => x.exp(),
                    UnaryOperation::kLOG => x.ln(),
                    UnaryOperation::kSQRT => x.sqrt(),
                    UnaryOperation::kRECIP => 1.0 / x,
                    UnaryOperation::kABS => x.abs(),
                    UnaryOperation::kNEG => -x,
                    UnaryOperation::kSIN => x.sin(),
                    UnaryOperation::kCOS => x.cos(),
                    UnaryOperation::kTAN => x.tan(),
                    UnaryOperation::kCEIL => x.ceil(),
                    UnaryOperation::kFLOOR => x.floor(),
                    UnaryOperation::kERF => erf(x),
                    UnaryOperation::kNOT => 1.0 - x,
                    UnaryOperation::kSIGN => {
                        if x == 0.0 {
                            0.0
                        } else {
                            x.signum()
                        }
                    }
                    UnaryOperation::kROUND => round_even(x),
                })
            }
            RequestOf::AddParametricRelu { input, slope } => {
                let positive = self.map(input.id, |x| x.max(0.0));
                let negative = self.map(input.id, |x| x.min(0.0));
                let mut m = Machine::new(&[]);
                m.values.insert(0, positive);
                m.values.insert(1, negative);
                m.values.insert(2, self.get(slope.id));
                let scaled = m.elementwise(1, 2, ElementWiseOperation::kPROD);
                m.values.insert(3, scaled);
                m.elementwise(0, 3, ElementWiseOperation::kSUM)
            }
            RequestOf::AddShuffle { input } => {
                let v = self.get(input.id);
                let moved = match &s.transpose {
                    None => v,
                    Some(order) => {
                        assert_eq!(order.len(), v.dims.len());
                        let dims: Vec<i64> = order.iter().map(|i| v.dims[*i as usize]).collect();
                        let data = (0..count(&dims))
                            .map(|i| {
                                let p = place(&dims, i);
                                let mut q = vec![0; p.len()];
                                for k in 0..p.len() {
                                    q[order[k] as usize] = p[k];
                                }
                                v.data[index(&v.dims, &q)]
                            })
                            .collect();
                        Value { dims, data, dtype: v.dtype }
                    }
                };
                match &s.reshape {
                    None => moved,
                    Some(dims) => {
                        assert_eq!(count(dims), moved.data.len(), "{:?} to {:?}", moved.dims, dims);
                        Value { dims: dims.clone(), ..moved }
                    }
                }
            }
            RequestOf::AddResize { input } => {
                let v = self.get(input.id);
                let dims = s.out_dims.clone().unwrap();
                let linear = s.linear;
                let data = (0..count(&dims))
                    .map(|i| {
                        let p = place(&dims, i);
                        let mut sum = 0.0;
                        for corner in 0..(1usize << dims.len()) {
                            let mut weight = 1.0;
                            let mut q = vec![0; dims.len()];
                            for k in 0..dims.len() {
                                let scale = v.dims[k] as f64 / dims[k] as f64;
                                let c = (p[k] as f64 + 0.5) * scale - 0.5;
                                let high = corner >> k & 1 == 1;
                                let top = (v.dims[k] - 1) as f64;
                                if linear {
                                    let f = c - c.floor();
                                    weight *= if high { f } else { 1.0 - f };
                                    let at = c.floor() + if high { 1.0 } else { 0.0 };
                                    q[k] = at.max(0.0).min(top) as i64;
                                } else {
                                    weight *= if high { 0.0 } else { 1.0 };
                                    q[k] = (c + 0.5).floor().max(0.0).min(top) as i64;
                                }
                            }
                            sum += weight * v.data[index(&v.dims, &q)];
                        }
                        sum
                    })
                    .collect();
                Value { dims, data, dtype: v.dtype }
            }
            RequestOf::AddReduce { input, op, axes, keep_dims } => {
                let v = self.get(input.id);
                let mut dims = v.dims.clone();
                for (i, d) in dims.iter_mut().enumerate() {
                    if axes >> i & 1 == 1 {
                        *d = 1;
                    }
                }
                let mut data = vec![
                    match op {
                        ReduceOperation::kPROD => 1.0,
                        ReduceOperation::kMAX => f64::NEG_INFINITY,
                        ReduceOperation::kMIN => f64::INFINITY,
                        _ => 0.0,
                    };
                    count(&dims)
                ];
                for i in 0..v.data.len() {
                    let p: Vec<i64> = place(&v.dims, i)
                        .iter()
                        .zip(&dims)
                        .map(|(x, d)| (*x).min(d - 1))
                        .collect();
                    let j = index(&dims, &p);
                    let x = v.data[i];
                    data[j] = match op {
                        ReduceOperation::kPROD => data[j] * x,
                        ReduceOperation::kMAX => data[j].max(x),
                        ReduceOperation::kMIN => data[j].min(x),
                        _ => data[j] + x,
                    };
                }
                if *op == ReduceOperation::kAVG {
                    let n = (v.data.len() / data.len()) as f64;
                    data.iter_mut().for_each(|x| *x /= n);
                }
                let kept = if *keep_dims {
                    dims
                } else {
                    dims.iter()
                        .enumerate()
                        .filter(|(i, _)| axes >> i & 1 == 0)
                        .map(|(_, d)| *d)
                        .collect()
                };
                Value { dims: kept, data, dtype: v.dtype }
            }
            RequestOf::AddSlice { input, start, size, stride } => {
                let v = self.get(input.id);
                let data = (0..count(size))
                    .map(|i| {
                        let p: Vec<i64> = place(size, i)
                            .iter()
                            .enumerate()
                            .map(|(k, x)| start[k] + x * stride[k])
                            .collect();
                        v.data[index(&v.dims, &p)]
                    })
                    .collect();
                Value { dims: size.clone(), data, dtype: v.dtype }
            }
            RequestOf::AddConcatenation { inputs } => {
                let parts: Vec<Value> = inputs.iter().map(|t| self.get(t.id)).collect();
                let axis = s.axis as usize;
                let mut dims = parts[0].dims.clone();
                dims[axis] = parts.iter().map(|v| v.dims[axis]).sum();
                let data = (0..count(&dims))
                    .map(|i| {
                        let mut p = place(&dims, i);
                        let mut k = 0;
                        while p[axis] >= parts[k].dims[axis] {
                            p[axis] -= parts[k].dims[axis];
                            k += 1;
                        }
                        parts[k].data[index(&parts[k].dims, &p)]
                    })
                    .collect();
                Value { dims, data, dtype: parts[0].dtype }
            }
            RequestOf::AddMatrixMultiply { a, op_a, b, op_b } => {
                let (x, y) = (self.get(a.id), self.get(b.id));
                assert_eq!(x.dims.len(), y.dims.len());
                let r = x.dims.len();
                let turn = |d: &[i64], op: MatrixOperation| match op {
                    MatrixOperation::kNONE => (d[r - 2], d[r - 1]),
                    MatrixOperation::kTRANSPOSE => (d[r - 1], d[r - 2]),
                };
                let (m, k) = turn(&x.dims, *op_a);
                let (k2, n) = turn(&y.dims, *op_b);
                assert_eq!(k, k2);
                let mut dims: Vec<i64> =
                    (0..r - 2).map(|i| x.dims[i].max(y.dims[i])).collect();
                dims.extend([m, n]);
                let at = |v: &Value, p: &[i64], i: i64, j: i64, op: MatrixOperation| {
                    let mut q: Vec<i64> =
                        (0..r - 2).map(|t| p[t].min(v.dims[t] - 1)).collect();
                    match op {
                        MatrixOperation::kNONE => q.extend([i, j]),
                        MatrixOperation::kTRANSPOSE => q.extend([j, i]),
                    }
                    v.data[index(&v.dims, &q)]
                };
                let data = (0..count(&dims))
                    .map(|i| {
                        let p = place(&dims, i);
                        (0..k)
                            .map(|t| at(&x, &p, p[r - 2], t, *op_a) * at(&y, &p, t, p[r - 1], *op_b))
                            .sum()
                    })
                    .collect();
                Value { dims, data, dtype: x.dtype }
            }
            RequestOf::AddPooling { input, kind, window } => {
                let v = self.get(input.id);
                let (sh, sw) = s.stride.unwrap_or((1, 1));
                let extent = |n: i64, w: i64, st: i64, pre: i64, post: i64| {
                    let room = n + pre + post - w;
                    (if s.round_up { (room + st - 1) / st } else { room / st }) + 1
                };
                let h = extent(v.dims[2], window.0, sh, s.pre.0, s.post.0);
                let w = extent(v.dims[3], window.1, sw, s.pre.1, s.post.1);
                let dims = vec![v.dims[0], v.dims[1], h, w];
                let data = (0..count(&dims))
                    .map(|i| {
                        let p = place(&dims, i);
                        let mut taken: Vec<f64> = vec![];
                        for y in 0..window.0 {
                            for x in 0..window.1 {
                                let r = p[2] * sh - s.pre.0 + y;
                                let c = p[3] * sw - s.pre.1 + x;
                                if r >= 0 && r < v.dims[2] && c >= 0 && c < v.dims[3] {
                                    taken.push(v.data[index(&v.dims, &[p[0], p[1], r, c])]);
                                }
                            }
                        }
                        match kind {
                            PoolingType::kMAX => {
                                taken.iter().cloned().fold(f64::NEG_INFINITY, f64::max)
                            }
                            _ => {
                                let n = if s.excludes.unwrap_or(true) {
                                    taken.len() as f64
                                } else {
                                    (window.0 * window.1) as f64
                                };
                                taken.iter().sum::<f64>() / n
                            }
                        }
                    })
                    .collect();
                Value { dims, data, dtype: v.dtype }
            }
            RequestOf::AddConvolution { input, output_maps, kernel } => {
                let v = self.get(input.id);
                let f = self.get(s.inputs[&1]);
                let groups = s.groups.unwrap_or(1);
                let (sh, sw) = s.stride.unwrap_or((1, 1));
                let (dh, dw) = s.dilation.unwrap_or((1, 1));
                assert_eq!(f.dims[0], *output_maps as i64);
                assert_eq!((f.dims[2], f.dims[3]), (kernel.0 as i64, kernel.1 as i64));
                let h = (v.dims[2] + s.pre.0 + s.post.0 - (f.dims[2] - 1) * dh - 1) / sh + 1;
                let w = (v.dims[3] + s.pre.1 + s.post.1 - (f.dims[3] - 1) * dw - 1) / sw + 1;
                let dims = vec![v.dims[0], f.dims[0], h, w];
                let per = f.dims[0] / groups;
                let data = (0..count(&dims))
                    .map(|i| {
                        let p = place(&dims, i);
                        let g = p[1] / per;
                        let mut sum = match s.inputs.get(&2) {
                            Some(b) => self.get(*b).data[p[1] as usize],
                            None => 0.0,
                        };
                        for c in 0..f.dims[1] {
                            for y in 0..f.dims[2] {
                                for x in 0..f.dims[3] {
                                    let r = p[2] * sh - s.pre.0 + y * dh;
                                    let q = p[3] * sw - s.pre.1 + x * dw;
                                    if r >= 0 && r < v.dims[2] && q >= 0 && q < v.dims[3] {
                                        let from = [p[0], g * f.dims[1] + c, r, q];
                                        sum += v.data[index(&v.dims, &from)]
                                            * f.data[index(&f.dims, &[p[1], c, y, x])];
                                    }
                                }
                            }
                        }
                        sum
                    })
                    .collect();
                Value { dims, data, dtype: v.dtype }
            }
            RequestOf::AddDeconvolution { input, output_maps, kernel } => {
                let v = self.get(input.id);
                let f = self.get(s.inputs[&1]);
                let groups = s.groups.unwrap_or(1);
                let (sh, sw) = s.stride.unwrap_or((1, 1));
                let (dh, dw) = s.dilation.unwrap_or((1, 1));
                assert_eq!(f.dims[1] * groups, *output_maps);
                assert_eq!((f.dims[2], f.dims[3]), *kernel);
                let h = (v.dims[2] - 1) * sh + (f.dims[2] - 1) * dh + 1 - s.pre.0 - s.post.0;
                let w = (v.dims[3] - 1) * sw + (f.dims[3] - 1) * dw + 1 - s.pre.1 - s.post.1;
                let dims = vec![v.dims[0], *output_maps, h, w];
                let mut data = vec![0.0; count(&dims)];
                if let Some(b) = s.inputs.get(&2) {
                    let b = self.get(*b);
                    for i in 0..data.len() {
                        data[i] = b.data[place(&dims, i)[1] as usize];
                    }
                }
                let per = v.dims[1] / groups;
                for i in 0..v.data.len() {
                    let p = place(&v.dims, i);
                    let g = p[1] / per;
                    for o in 0..f.dims[1] {
                        for y in 0..f.dims[2] {
                            for x in 0..f.dims[3] {
                                let r = p[2] * sh + y * dh - s.pre.0;
                                let c = p[3] * sw + x * dw - s.pre.1;
                                if r >= 0 && r < h && c >= 0 && c < w {
                                    let to = index(&dims, &[p[0], g * f.dims[1] + o, r, c]);
                                    data[to] +=
                                        v.data[i] * f.data[index(&f.dims, &[p[1], o, y, x])];
                                }
                            }
                        }
                    }
                }
                Value { dims, data, dtype: v.dtype }
            }
            RequestOf::AddPadding { input, pre, post } => {
                let v = self.get(input.id);
                let r = v.dims.len();
                let mut dims = v.dims.clone();
                dims[r - 2] += pre.0 + post.0;
                dims[r - 1] += pre.1 + post.1;
                let data = (0..count(&dims))
                    .map(|i| {
                        let mut p = place(&dims, i);
                        p[r - 2] -= pre.0;
                        p[r - 1] -= pre.1;
                        let inside = p.iter().zip(&v.dims).all(|(x, d)| *x >= 0 && x < d);
                        if inside {
                            v.data[index(&v.dims, &p)]
                        } else {
                            0.0
                        }
                    })
                    .collect();
                Value { dims, data, dtype: v.dtype }
            }
            RequestOf::AddQuantize { input, scale, dtype } => {
                let v = self.get(input.id);
                let k = self.get(scale.id);
                assert_eq!(k.data.len(), 1);
                let data = v
                    .data
                    .iter()
                    .map(|x| round_even(x / k.data[0]).max(-128.0).min(127.0))
                    .collect();
                Value { dims: v.dims, data, dtype: *dtype }
            }
            RequestOf::AddDequantize { input, scale, dtype } => {
                let v = self.get(input.id);
                let k = self.get(scale.id);
                let axis = s.axis as usize;
                let data = (0..v.data.len())
                    .map(|i| {
                        let at = if k.data.len() == 1 {
                            0
                        } else {
                            place(&v.dims, i)[axis] as usize
                        };
                        v.data[i] * k.data[at]
                    })
                    .collect();
                Value { dims: v.dims, data, dtype: *dtype }
            }
            RequestOf::AddGather { data, indices, axis } => {
                let (d, ix) = (self.get(data.id), self.get(indices.id));
                let axis = *axis as usize;
                match s.gather {
                    Some(GatherMode::kELEMENT) => {
                        let data = (0..ix.data.len())
                            .map(|i| {
                                let mut p = place(&ix.dims, i);
                                p[axis] = ix.data[i] as i64;
                                d.data[index(&d.dims, &p)]
                            })
                            .collect();
                        Value { dims: ix.dims, data, dtype: d.dtype }
                    }
                    Some(GatherMode::kND) => {
                        let k = *ix.dims.last().unwrap() as usize;
                        let mut dims: Vec<i64> = ix.dims[..ix.dims.len() - 1].to_vec();
                        let rows = count(&dims);
                        dims.extend(&d.dims[k..]);
                        let inner = count(&d.dims[k..]);
                        let mut out = vec![];
                        for row in 0..rows {
                            let p: Vec<i64> =
                                (0..k).map(|j| ix.data[row * k + j] as i64).collect();
                            let from = index(&d.dims[..k], &p) * inner;
                            out.extend(&d.data[from..from + inner]);
                        }
                        Value { dims, data: out, dtype: d.dtype }
                    }
                    None => {
                        let mut dims: Vec<i64> = d.dims[..axis].to_vec();
                        dims.extend(&ix.dims);
                        dims.extend(&d.dims[axis + 1..]);
                        let n = ix.dims.len();
                        let data = (0..count(&dims))
                            .map(|i| {
                                let p = place(&dims, i);
                                let mut q: Vec<i64> = p[..axis].to_vec();
                                let row = index(&ix.dims, &p[axis..axis + n]);
                                let at = ix.data[row] as i64;
                                q.push(if at < 0 { at + d.dims[axis] } else { at });
                                q.extend(&p[axis + n..]);
                                d.data[index(&d.dims, &q)]
                            })
                            .collect();
                        Value { dims, data, dtype: d.dtype }
                    }
                }
            }
            RequestOf::AddScatter { data, indices, updates, mode } => {
                let mut d = self.get(data.id);
                let (ix, up) = (self.get(indices.id), self.get(updates.id));
                match mode {
                    ScatterMode::kELEMENT => {
                        for i in 0..ix.data.len() {
                            let mut p = place(&ix.dims, i);
                            p[s.axis as usize] = ix.data[i] as i64;
                            let to = index(&d.dims, &p);
                            d.data[to] = up.data[i];
                        }
                    }
                    ScatterMode::kND => {
                        let k = *ix.dims.last().unwrap() as usize;
                        let inner = count(&d.dims[k..]);
                        for row in 0..ix.data.len() / k {
                            let p: Vec<i64> =
                                (0..k).map(|j| ix.data[row * k + j] as i64).collect();
                            let to = index(&d.dims[..k], &p) * inner;
                            for j in 0..inner {
                                d.data[to + j] = up.data[row * inner + j];
                            }
                        }
                    }
                }
                d
            }
            RequestOf::AddTopK { input, op, k, axes } => {
                assert_eq!(*k, 1);
                let v = self.get(input.id);
                let axis = axes.trailing_zeros() as usize;
                let mut dims = v.dims.clone();
                dims[axis] = 1;
                let data = (0..count(&dims))
                    .map(|i| {
                        let mut p = place(&dims, i);
                        let mut best = 0;
                        let mut value = v.data[index(&v.dims, &p)];
                        for j in 1..v.dims[axis] {
                            p[axis] = j;
                            let x = v.data[index(&v.dims, &p)];
                            let better = match op {
                                TopKOperation::kMAX => x > value,
                                TopKOperation::kMIN => x < value,
                            };
                            if better {
                                best = j;
                                value = x;
                            }
                        }
                        if output == 0 {
                            value
                        } else {
                            best as f64
                        }
                    })
                    .collect();
                let dtype = if output == 0 { v.dtype } else { TrtDataType::kINT32 };
                Value { dims, data, dtype }
            }
            RequestOf::AddSelect { condition, on_true, on_false } => {
                let (c, t, f) = (self.get(condition.id), self.get(on_true.id), self.get(on_false.id));
                assert_eq!(c.dtype, TrtDataType::kBOOL);
                assert_eq!(t.dtype, f.dtype);
                assert_eq!((c.dims.len(), c.dims.len()), (t.dims.len(), f.dims.len()));
                let dims: Vec<i64> = (0..c.dims.len())
                    .map(|i| c.dims[i].max(t.dims[i]).max(f.dims[i]))
                    .collect();
                let at = |v: &Value, p: &[i64]| {
                    let q: Vec<i64> = p.iter().zip(&v.dims).map(|(i, d)| (*i).min(d - 1)).collect();
                    v.data[index(&v.dims, &q)]
                };
                let data = (0..count(&dims))
                    .map(|i| {
                        let p = place(&dims, i);
                        if at(&c, &p) != 0.0 {
                            at(&t, &p)
                        } else {
                            at(&f, &p)
                        }
                    })
                    .collect();
                Value { dims, data, dtype: t.dtype }
            }
            RequestOf::AddSoftmax { input, axes } => {
                let v = self.get(input.id);
                let axis = axes.trailing_zeros() as usize;
                let data = (0..v.data.len())
                    .map(|i| {
                        let mut p = place(&v.dims, i);
                        let sum: f64 = (0..v.dims[axis])
                            .map(|j| {
                                p[axis] = j;
                                v.data[index(&v.dims, &p)].exp()
                            })
                            .sum();
                        v.data[i].exp() / sum
                    })
                    .collect();
                Value { data, ..v }
            }
            RequestOf::AddCumulative { input, axis, exclusive, reverse, .. } => {
                let v = self.get(input.id);
                let axis = self.get(axis.id).data[0] as usize;
                let data = (0..v.data.len())
                    .map(|i| {
                        let mut p = place(&v.dims, i);
                        let here = p[axis];
                        let range: Vec<i64> = match (*reverse, *exclusive) {
                            (false, false) => (0..=here).collect(),
                            (false, true) => (0..here).collect(),
                            (true, false) => (here..v.dims[axis]).collect(),
                            (true, true) => (here + 1..v.dims[axis]).collect(),
                        };
                        range
                            .iter()
                            .map(|j| {
                                p[axis] = *j;
                                v.data[index(&v.dims, &p)]
                            })
                            .sum()
                    })
                    .collect();
                Value { data, ..v }
            }
            other => panic!("no layer: {:?}", other),
        }
    }
}

/// A graph under construction.
struct Sketch {
    graph: GraphInfo,
    given: Vec<(String, Vec<f64>)>,
}

impl Sketch {
    fn new() -> Sketch {
        Sketch { graph: GraphInfo::default(), given: vec![] }
    }

    fn operand(&mut self, kind: OperandKind, t: DataType, shape: &[u32], name: String) -> u32 {
        self.graph.operands.push(Operand {
            kind,
            descriptor: OperandDescriptor {
                data_type: t,
                shape: to_dimension_vector(shape),
                pending_permutation: vec![],
            },
            name: Some(name),
        });
        self.graph.operands.len() as u32 - 1
    }

    fn input(&mut self, t: DataType, shape: &[u32], data: &[f64]) -> u32 {
        let name = format!("in{}", self.graph.operands.len());
        let id = self.operand(OperandKind::Input, t, shape, name.clone());
        self.graph.input_operands.push(id);
        self.given.push((name, data.to_vec()));
        id
    }

    fn floats(&mut self, shape: &[u32], data: &[f64]) -> u32 {
        self.input(DataType::Float32, shape, data)
    }

    fn constant(&mut self, t: DataType, shape: &[u32], data: Vec<u8>) -> u32 {
        let name = format!("c{}", self.graph.operands.len());
        let id = self.operand(OperandKind::Constant, t, shape, name);
        self.graph.constant_operand_ids_to_handles.insert(
            id,
            ConstantReference::OwnedData(ConstantData { data, label: None }),
        );
        id
    }

    fn float_constant(&mut self, shape: &[u32], data: &[f32]) -> u32 {
        let bytes = data.iter().flat_map(|x| x.to_le_bytes()).collect();
        self.constant(DataType::Float32, shape, bytes)
    }

    fn int_constant(&mut self, shape: &[u32], data: &[i32]) -> u32 {
        let bytes = data.iter().flat_map(|x| x.to_le_bytes()).collect();
        self.constant(DataType::Int32, shape, bytes)
    }

    fn result(&mut self, t: DataType, shape: &[u32]) -> u32 {
        let name = format!("out{}", self.graph.operands.len());
        let id = self.operand(OperandKind::Output, t, shape, name);
        self.graph.output_operands.push(id);
        id
    }

    fn does(&mut self, kind: OperationKind, inputs: &[u32], outputs: &[u32]) {
        self.graph.operations.push(Operation {
            kind,
            inputs: inputs.to_vec(),
            outputs: outputs.to_vec(),
        });
    }

    fn run(&self) -> Result<Vec<Value>, String> {
        self.run_with(Machine::new(&[])).map(|(values, _)| values)
    }

    fn run_with(&self, mut machine: Machine) -> Result<(Vec<Value>, Network), String> {
        for (name, data) in &self.given {
            machine.inputs.insert(name.clone(), data.clone());
        }
        assert!(self.graph.is_well_formed());
        let mut net = Network::new();
        loop {
            match TrtxConverter::build_network(&self.graph, &mut net, None) {
                Ok(()) => break,
                Err(HaltOf::Pending) => {
                    let at = net.requests.len() - 1;
                    assert_eq!(at, net.replies.len());
                    let reply = machine.perform(at, &net);
                    net.answer(reply);
                    net.rewind(0);
                }
                Err(HaltOf::Failed(reason)) => return Err(reason),
                Err(HaltOf::OutOfRange) => return Err("out of range".to_string()),
                Err(HaltOf::InferenceFailed(reason)) => return Err(reason),
            }
        }
        let values = machine.outputs.iter().map(|id| machine.get(*id)).collect();
        Ok((values, net))
    }

    /// The only output.
    fn value(&self) -> Value {
        let mut values = self.run().unwrap();
        assert_eq!(values.len(), 1);
        values.remove(0)
    }
}

fn close(v: &Value, dims: &[i64], data: &[f64]) {
    assert_eq!(v.dims, dims);
    assert_eq!(v.data.len(), data.len());
    for (x, y) in v.data.iter().zip(data) {
        let same = (x.is_nan() && y.is_nan()) || x == y || (x - y).abs() < 1e-4;
        assert!(same, "{:?} is not {:?}", v.data, data);
    }
}

fn scalar(x: f32) -> Scalar {
    Scalar { single: x.to_bits(), half: half::f16::from_f32(x).to_bits() }
}

fn reading(x: f32) -> FloatReading {
    FloatReading {
        bits: scalar(x),
        to_i8: x as i8,
        to_u8: x as u8,
        to_i32: x as i32,
        to_i64: x as i64,
    }
}

fn number(x: f32) -> MLNumber {
    MLNumber::Float { reading: reading(x), truncated_i64: None, truncated_u64: None }
}

fn unary(kind: OperationKind, data: &[f64]) -> Value {
    let mut g = Sketch::new();
    let n = data.len() as u32;
    let x = g.floats(&[n], data);
    let y = g.result(DataType::Float32, &[n]);
    g.does(kind, &[x], &[y]);
    g.value()
}

fn binary(kind: OperationKind, a: &[f64], b: &[f64], t: DataType) -> Value {
    let mut g = Sketch::new();
    let n = a.len() as u32;
    let x = g.floats(&[n], a);
    let y = g.floats(&[n], b);
    let z = g.result(t, &[n]);
    g.does(kind, &[x, y], &[z]);
    g.value()
}

#[test]
fn arithmetic_is_element_by_element() {
    let (a, b) = ([6.0, -3.0, 2.0], [2.0, 3.0, 2.0]);
    let t = DataType::Float32;
    close(&binary(OperationKind::Add, &a, &b, t), &[3], &[8.0, 0.0, 4.0]);
    close(&binary(OperationKind::Sub, &a, &b, t), &[3], &[4.0, -6.0, 0.0]);
    close(&binary(OperationKind::Mul, &a, &b, t), &[3], &[12.0, -9.0, 4.0]);
    close(&binary(OperationKind::Div, &a, &b, t), &[3], &[3.0, -1.0, 1.0]);
    close(&binary(OperationKind::Max, &a, &b, t), &[3], &[6.0, 3.0, 2.0]);
    close(&binary(OperationKind::Min, &a, &b, t), &[3], &[2.0, -3.0, 2.0]);
    close(&binary(OperationKind::Pow, &a, &b, t), &[3], &[36.0, -27.0, 4.0]);
}

#[test]
fn arithmetic_broadcasts() {
    let mut g = Sketch::new();
    let x = g.floats(&[2, 3], &[1.0, 2.0, 3.0, 4.0, 5.0, 6.0]);
    let y = g.float_constant(&[3], &[10.0, 20.0, 30.0]);
    let z = g.result(DataType::Float32, &[2, 3]);
    g.does(OperationKind::Add, &[x, y], &[z]);
    close(&g.value(), &[2, 3], &[11.0, 22.0, 33.0, 14.0, 25.0, 36.0]);
}

#[test]
fn both_operands_are_stretched_to_their_joint_shape() {
    let mut g = Sketch::new();
    let x = g.floats(&[1, 3], &[1.0, 2.0, 3.0]);
    let y = g.floats(&[2, 1], &[10.0, 20.0]);
    let z = g.result(DataType::Float32, &[2, 3]);
    g.does(OperationKind::Add, &[x, y], &[z]);
    close(&g.value(), &[2, 3], &[11.0, 12.0, 13.0, 21.0, 22.0, 23.0]);
    let (_, net) = g.run_with(Machine::new(&[])).unwrap();
    let sizes: Vec<&Vec<i64>> = net
        .requests
        .iter()
        .filter_map(|r| match r {
            RequestOf::SetOutputDimensions { dims, .. } => Some(dims),
            _ => None,
        })
        .collect();
    assert_eq!(sizes, [&vec![2, 3], &vec![2, 3]]);
}

#[test]
fn shapes_that_do_not_broadcast_are_refused_whatever_their_ranks() {
    for (a, b) in [(vec![3, 5], vec![4]), (vec![4], vec![3, 5]), (vec![2, 3], vec![3, 2])] {
        let mut g = Sketch::new();
        let count = |s: &[u32]| s.iter().product::<u32>() as usize;
        let x = g.floats(&a, &vec![0.0; count(&a)]);
        let y = g.floats(&b, &vec![0.0; count(&b)]);
        let z = g.result(DataType::Float32, &[3, 5]);
        g.does(OperationKind::Add, &[x, y], &[z]);
        let reason = g.run().unwrap_err();
        assert!(reason.contains("broadcast"), "{}", reason);
    }
}

#[test]
fn comparisons_give_bytes() {
    let (a, b) = ([1.0, 2.0, 3.0], [2.0, 2.0, 2.0]);
    let t = DataType::Uint8;
    let cases = [
        (OperationKind::Equal, [0.0, 1.0, 0.0]),
        (OperationKind::NotEqual, [1.0, 0.0, 1.0]),
        (OperationKind::Greater, [0.0, 0.0, 1.0]),
        (OperationKind::GreaterOrEqual, [0.0, 1.0, 1.0]),
        (OperationKind::Lesser, [1.0, 0.0, 0.0]),
        (OperationKind::LesserOrEqual, [1.0, 1.0, 0.0]),
    ];
    for (kind, expected) in cases {
        close(&binary(kind, &a, &b, t), &[3], &expected);
    }
}

#[test]
fn logic_works_on_bytes() {
    let cases = [
        (OperationKind::LogicalAnd, [0.0, 0.0, 0.0, 1.0]),
        (OperationKind::LogicalOr, [0.0, 1.0, 1.0, 1.0]),
        (OperationKind::LogicalXor, [0.0, 1.0, 1.0, 0.0]),
    ];
    for (kind, expected) in cases {
        let mut g = Sketch::new();
        let x = g.input(DataType::Uint8, &[4], &[0.0, 0.0, 1.0, 1.0]);
        let y = g.input(DataType::Uint8, &[4], &[0.0, 1.0, 0.0, 1.0]);
        let z = g.result(DataType::Uint8, &[4]);
        g.does(kind, &[x, y], &[z]);
        close(&g.value(), &[4], &expected);
    }
    let mut g = Sketch::new();
    let x = g.input(DataType::Uint8, &[3], &[0.0, 1.0, 7.0]);
    let z = g.result(DataType::Uint8, &[3]);
    g.does(OperationKind::LogicalNot, &[x], &[z]);
    close(&g.value(), &[3], &[1.0, 0.0, 0.0]);
}

#[test]
fn functions_of_one_operand() {
    let x = [0.25, 1.0, 2.5];
    let of = |f: fn(f64) -> f64| x.iter().map(|v| f(*v)).collect::<Vec<f64>>();
    close(&unary(OperationKind::Exp, &x), &[3], &of(f64::exp));
    close(&unary(OperationKind::Log, &x), &[3], &of(f64::ln));
    close(&unary(OperationKind::Sqrt, &x), &[3], &of(f64::sqrt));
    close(&unary(OperationKind::Reciprocal, &x), &[3], &[4.0, 1.0, 0.4]);
    close(&unary(OperationKind::Sin, &x), &[3], &of(f64::sin));
    close(&unary(OperationKind::Cos, &x), &[3], &of(f64::cos));
    close(&unary(OperationKind::Tan, &x), &[3], &of(f64::tan));
    close(&unary(OperationKind::Erf, &x), &[3], &of(erf));
    close(&unary(OperationKind::Abs, &[-2.0, 3.0]), &[2], &[2.0, 3.0]);
    close(&unary(OperationKind::Neg, &[-2.0, 3.0]), &[2], &[2.0, -3.0]);
    close(&unary(OperationKind::Ceil, &[-1.5, 1.5]), &[2], &[-1.0, 2.0]);
    close(&unary(OperationKind::Floor, &[-1.5, 1.5]), &[2], &[-2.0, 1.0]);
    close(&unary(OperationKind::Sign, &[-2.0, 0.0, 3.0]), &[3], &[-1.0, 0.0, 1.0]);
    close(&unary(OperationKind::Identity, &x), &[3], &x);
    close(
        &unary(OperationKind::RoundEven, &[0.5, 1.5, 2.5, -0.5, -1.5, 2.4]),
        &[6],
        &[0.0, 2.0, 2.0, 0.0, -2.0, 2.0],
    );
}

#[test]
fn activations() {
    let x = [-2.0, 0.0, 3.0];
    close(&unary(OperationKind::Relu, &x), &[3], &[0.0, 0.0, 3.0]);
    close(&unary(OperationKind::Sigmoid, &x), &[3], &[0.1192029, 0.5, 0.9525741]);
    close(&unary(OperationKind::Tanh, &x), &[3], &[-0.9640276, 0.0, 0.9950548]);
    close(&unary(OperationKind::Softsign, &x), &[3], &[-0.6666667, 0.0, 0.75]);
    close(&unary(OperationKind::Softplus, &x), &[3], &[0.1269280, 0.6931472, 3.0485874]);
    close(&unary(OperationKind::Gelu, &x), &[3], &[-0.0455003, 0.0, 2.9959503]);
    close(
        &unary(OperationKind::Elu { options: None }, &x),
        &[3],
        &[(-2.0f64).exp() - 1.0, 0.0, 3.0],
    );
    let alpha = Some(MLEluOptions { alpha: scalar(0.5) });
    close(
        &unary(OperationKind::Elu { options: alpha }, &x),
        &[3],
        &[0.5 * ((-2.0f64).exp() - 1.0), 0.0, 3.0],
    );
    close(
        &unary(OperationKind::LeakyRelu { options: None }, &x),
        &[3],
        &[-0.02, 0.0, 3.0],
    );
    let alpha = Some(MLLeakyReluOptions { alpha: scalar(0.25) });
    close(&unary(OperationKind::LeakyRelu { options: alpha }, &x), &[3], &[-0.5, 0.0, 3.0]);
    close(
        &unary(OperationKind::HardSigmoid { options: None }, &[-4.0, 0.0, 1.0, 4.0]),
        &[4],
        &[0.0, 0.5, 0.7, 1.0],
    );
    let options = Some(MLHardSigmoidOptions { alpha: scalar(0.25), beta: scalar(0.25) });
    close(
        &unary(OperationKind::HardSigmoid { options }, &[-4.0, 0.0, 1.0, 4.0]),
        &[4],
        &[0.0, 0.25, 0.5, 1.0],
    );
    close(
        &unary(OperationKind::HardSwish, &[-4.0, -1.0, 1.0, 4.0]),
        &[4],
        &[0.0, -2.0 / 6.0, 4.0 / 6.0, 4.0],
    );
    let options = Some(MLLinearOptions { alpha: scalar(2.0), beta: scalar(-1.0) });
    close(&unary(OperationKind::Linear { options }, &x), &[3], &[-5.0, -1.0, 5.0]);
    close(&unary(OperationKind::Linear { options: None }, &x), &[3], &x);
}

#[test]
fn a_slope_of_its_own_for_each_channel() {
    let mut g = Sketch::new();
    let x = g.floats(&[2, 2], &[-1.0, -2.0, 3.0, -4.0]);
    let a = g.float_constant(&[2], &[0.5, 0.25]);
    let y = g.result(DataType::Float32, &[2, 2]);
    g.does(OperationKind::Prelu, &[x, a], &[y]);
    close(&g.value(), &[2, 2], &[-0.5, -0.5, 3.0, -1.0]);
}

#[test]
fn tests_for_special_values() {
    let mut g = Sketch::new();
    let x = g.floats(&[4], &[1.0, f64::NAN, f64::INFINITY, f64::NEG_INFINITY]);
    let y = g.result(DataType::Uint8, &[4]);
    g.does(OperationKind::IsNaN, &[x], &[y]);
    close(&g.value(), &[4], &[0.0, 1.0, 0.0, 0.0]);

    let mut g = Sketch::new();
    let x = g.floats(&[4], &[1.0, 2.0, f64::INFINITY, f64::NEG_INFINITY]);
    let y = g.result(DataType::Uint8, &[4]);
    g.does(OperationKind::IsInfinite, &[x], &[y]);
    close(&g.value(), &[4], &[0.0, 0.0, 1.0, 1.0]);
}

#[test]
fn clamping() {
    let x = [-5.0, 0.5, 5.0];
    let bounds = |lo: Option<f32>, hi: Option<f32>| OperationKind::Clamp {
        options: Some(MLClampOptions { min_value: lo.map(number), max_value: hi.map(number) }),
    };
    close(&unary(bounds(Some(-1.0), Some(1.0)), &x), &[3], &[-1.0, 0.5, 1.0]);
    close(&unary(bounds(Some(0.0), None), &x), &[3], &[0.0, 0.5, 5.0]);
    close(&unary(bounds(None, Some(0.0)), &x), &[3], &[-5.0, 0.0, 0.0]);
    close(&unary(OperationKind::Clamp { options: None }, &x), &[3], &x);
}

#[test]
fn selection_by_a_condition() {
    let mut g = Sketch::new();
    let c = g.input(DataType::Uint8, &[3], &[1.0, 0.0, 2.0]);
    let a = g.floats(&[2, 3], &[1.0, 2.0, 3.0, 4.0, 5.0, 6.0]);
    let b = g.floats(&[1], &[-1.0]);
    let y = g.result(DataType::Float32, &[2, 3]);
    g.does(OperationKind::Where, &[c, a, b], &[y]);
    close(&g.value(), &[2, 3], &[1.0, -1.0, 3.0, 4.0, -1.0, 6.0]);
}

#[test]
fn casts() {
    let mut g = Sketch::new();
    let x = g.floats(&[3], &[1.7, -1.7, 0.0]);
    let y = g.result(DataType::Int32, &[3]);
    g.does(OperationKind::Cast, &[x], &[y]);
    close(&g.value(), &[3], &[1.0, -1.0, 0.0]);
    assert_eq!(g.value().dtype, TrtDataType::kINT32);
}

#[test]
fn bytes_are_held_as_signed_bytes_and_cast_by_way_of_dequantization() {
    for shape in [vec![], vec![1, 1, 1, 1]] {
        let dims: Vec<i64> = shape.iter().map(|d: &u32| *d as i64).collect();
        for (t, byte, value) in [(DataType::Int8, 251u8, -5.0), (DataType::Uint8, 5, 5.0)] {
            let mut g = Sketch::new();
            let c = g.constant(t, &shape, vec![byte]);
            let a = g.result(DataType::Int32, &shape);
            let b = g.result(DataType::Float32, &shape);
            let i = g.result(t, &shape);
            g.does(OperationKind::Cast, &[c], &[a]);
            g.does(OperationKind::Cast, &[c], &[b]);
            g.does(OperationKind::Identity, &[c], &[i]);
            let (values, net) = g.run_with(Machine::new(&[])).unwrap();
            close(&values[0], &dims, &[value]);
            assert_eq!(values[0].dtype, TrtDataType::kINT32);
            close(&values[1], &dims, &[value]);
            assert_eq!(values[1].dtype, TrtDataType::kFLOAT);
            close(&values[2], &dims, &[value]);
            assert_eq!(values[2].dtype, TrtDataType::kINT8);
            assert!(matches!(
                &net.requests[1],
                RequestOf::AddConstant {
                    dtype: TrtDataType::kINT8,
                    weights: WeightsOf::Reply(0),
                    storage: ConstantStorage::Copied,
                    ..
                }
            ));
            let dequantized = net
                .requests
                .iter()
                .filter(|r| matches!(r, RequestOf::AddDequantize { .. }))
                .count();
            assert_eq!(dequantized, 2);
        }
    }
}

#[test]
fn a_promoted_constant_is_cast_to_an_integer_by_a_copy() {
    let mut g = Sketch::new();
    let x = g.input(DataType::Int8, &[], &[5.0]);
    let y = g.result(DataType::Int32, &[]);
    let operation = Operation { kind: OperationKind::Cast, inputs: vec![x], outputs: vec![y] };
    let promoted = HashSet::from([x]);
    let mut machine = Machine::new(&[("in0", vec![5.0])]);
    let mut net = Network::new();
    loop {
        let mut map = TensorMap::new();
        let r = TrtxConverter::add_input(&g.graph, &mut net, &mut map, 0).and_then(|_| {
            TrtxConverter::add_cast_op(&g.graph, &mut net, &mut map, &operation, &promoted)
        });
        match r {
            Ok(()) => break,
            Err(HaltOf::Pending) => {
                let at = net.requests.len() - 1;
                let reply = machine.perform(at, &net);
                net.answer(reply);
                net.rewind(0);
            }
            Err(other) => panic!("{:?}", other),
        }
    }
    assert!(net.requests.iter().any(|r| matches!(r, RequestOf::AddIdentity { .. })));
    assert!(!net.requests.iter().any(|r| matches!(r, RequestOf::AddCast { .. })));
}

#[test]
fn matrix_products() {
    let mut g = Sketch::new();
    let a = g.floats(&[2, 3], &[1.0, 2.0, 3.0, 4.0, 5.0, 6.0]);
    let b = g.floats(&[3, 2], &[1.0, 0.0, 0.0, 1.0, 1.0, 1.0]);
    let y = g.result(DataType::Float32, &[2, 2]);
    g.does(OperationKind::Matmul, &[a, b], &[y]);
    close(&g.value(), &[2, 2], &[4.0, 5.0, 10.0, 11.0]);

    let mut g = Sketch::new();
    let a = g.floats(&[2, 1, 3], &[1.0, 2.0, 3.0, 4.0, 5.0, 6.0]);
    let b = g.floats(&[3, 1], &[1.0, 1.0, 1.0]);
    let y = g.result(DataType::Float32, &[2, 1, 1]);
    g.does(OperationKind::Matmul, &[a, b], &[y]);
    close(&g.value(), &[2, 1, 1], &[6.0, 15.0]);
}

#[test]
fn general_matrix_products() {
    let mut g = Sketch::new();
    let a = g.floats(&[3, 2], &[1.0, 4.0, 2.0, 5.0, 3.0, 6.0]);
    let b = g.floats(&[2, 3], &[1.0, 0.0, 1.0, 0.0, 1.0, 1.0]);
    let c = g.float_constant(&[2], &[100.0, 200.0]);
    let y = g.result(DataType::Float32, &[2, 2]);
    let options = MLGemmOptions {
        c: Some(c),
        alpha: scalar(2.0),
        beta: scalar(0.5),
        a_transpose: true,
        b_transpose: true,
    };
    g.does(OperationKind::Gemm { options: Some(options) }, &[a, b], &[y]);
    close(&g.value(), &[2, 2], &[58.0, 110.0, 70.0, 122.0]);

    let mut g = Sketch::new();
    let a = g.floats(&[1, 2], &[1.0, 2.0]);
    let b = g.floats(&[2, 1], &[3.0, 4.0]);
    let y = g.result(DataType::Float32, &[1, 1]);
    g.does(OperationKind::Gemm { options: None }, &[a, b], &[y]);
    close(&g.value(), &[1, 1], &[11.0]);
}

fn conv_options() -> MLConv2dOptions {
    MLConv2dOptions {
        padding: vec![],
        strides: vec![],
        dilations: vec![],
        groups: 1,
        input_layout: "".to_string(),
        filter_layout: "".to_string(),
        bias: None,
    }
}

#[test]
fn convolution() {
    let mut g = Sketch::new();
    let x = g.floats(&[1, 1, 3, 3], &[1.0, 2.0, 3.0, 4.0, 5.0, 6.0, 7.0, 8.0, 9.0]);
    let f = g.float_constant(&[1, 1, 2, 2], &[1.0, 2.0, 3.0, 4.0]);
    let b = g.float_constant(&[1], &[0.5]);
    let y = g.result(DataType::Float32, &[1, 1, 2, 2]);
    let options = MLConv2dOptions { bias: Some(b), ..conv_options() };
    g.does(OperationKind::Conv2d { options: Some(options) }, &[x, f, b], &[y]);
    close(&g.value(), &[1, 1, 2, 2], &[37.5, 47.5, 67.5, 77.5]);
}

#[test]
fn convolution_with_padding_strides_and_groups() {
    let mut g = Sketch::new();
    let x = g.floats(&[1, 2, 2, 2], &[1.0, 2.0, 3.0, 4.0, 5.0, 6.0, 7.0, 8.0]);
    let f = g.float_constant(&[2, 1, 2, 2], &[1.0, 1.0, 1.0, 1.0, 2.0, 0.0, 0.0, 0.0]);
    let y = g.result(DataType::Float32, &[1, 2, 2, 2]);
    let options = MLConv2dOptions {
        padding: vec![1, 1, 1, 1],
        strides: vec![2, 2],
        groups: 2,
        ..conv_options()
    };
    g.does(OperationKind::Conv2d { options: Some(options) }, &[x, f], &[y]);
    close(&g.value(), &[1, 2, 2, 2], &[1.0, 2.0, 3.0, 4.0, 0.0, 0.0, 0.0, 16.0]);
}

#[test]
fn each_padding_of_a_convolution_lands_on_its_own_side() {
    let mut g = Sketch::new();
    let x = g.floats(&[1, 1, 1, 1], &[7.0]);
    let f = g.float_constant(&[1, 1, 1, 1], &[1.0]);
    let y = g.result(DataType::Float32, &[1, 1, 4, 8]);
    let options = MLConv2dOptions { padding: vec![1, 2, 3, 4], ..conv_options() };
    g.does(OperationKind::Conv2d { options: Some(options) }, &[x, f], &[y]);
    let (values, net) = g.run_with(Machine::new(&[])).unwrap();
    // One row above and two below, three columns to the left and four to the right.
    let mut expected = vec![0.0; 32];
    expected[8 + 3] = 7.0;
    close(&values[0], &[1, 1, 4, 8], &expected);
    assert!(net.requests.iter().any(|r| matches!(
        r,
        RequestOf::AddPadding { pre: (1, 3), post: (2, 4), .. }
    )));
}

#[test]
fn convolution_in_other_layouts() {
    let mut g = Sketch::new();
    // One channel, in nhwc order, with a filter in hwio order.
    let x = g.floats(&[1, 3, 3, 1], &[1.0, 2.0, 3.0, 4.0, 5.0, 6.0, 7.0, 8.0, 9.0]);
    let f = g.float_constant(&[2, 2, 1, 1], &[1.0, 2.0, 3.0, 4.0]);
    let y = g.result(DataType::Float32, &[1, 2, 2, 1]);
    let options = MLConv2dOptions {
        input_layout: "nhwc".to_string(),
        filter_layout: "hwio".to_string(),
        ..conv_options()
    };
    g.does(OperationKind::Conv2d { options: Some(options) }, &[x, f], &[y]);
    close(&g.value(), &[1, 2, 2, 1], &[37.0, 47.0, 67.0, 77.0]);
}

fn deconv_options() -> MLConvTranspose2dOptions {
    MLConvTranspose2dOptions {
        padding: vec![],
        strides: vec![],
        dilations: vec![],
        output_padding: vec![],
        output_sizes: None,
        groups: 1,
        input_layout: "".to_string(),
        filter_layout: "".to_string(),
        bias: None,
    }
}

#[test]
fn transposed_convolution() {
    let mut g = Sketch::new();
    let x = g.floats(&[1, 1, 2, 2], &[1.0, 2.0, 3.0, 4.0]);
    let f = g.float_constant(&[1, 1, 2, 2], &[1.0, 10.0, 100.0, 1000.0]);
    let y = g.result(DataType::Float32, &[1, 1, 3, 3]);
    g.does(OperationKind::ConvTranspose2d { options: Some(deconv_options()) }, &[x, f], &[y]);
    close(
        &g.value(),
        &[1, 1, 3, 3],
        &[1.0, 12.0, 20.0, 103.0, 1234.0, 2040.0, 300.0, 3400.0, 4000.0],
    );
}

#[test]
fn each_padding_of_a_transposed_convolution_trims_its_own_side() {
    let mut g = Sketch::new();
    let x = g.floats(&[1, 1, 1, 1], &[1.0]);
    let f = g.float_constant(
        &[1, 1, 3, 3],
        &[1.0, 2.0, 3.0, 4.0, 5.0, 6.0, 7.0, 8.0, 9.0],
    );
    let y = g.result(DataType::Float32, &[1, 1, 2, 1]);
    // One row above, and two columns to the right.
    let options = MLConvTranspose2dOptions { padding: vec![1, 0, 0, 2], ..deconv_options() };
    g.does(OperationKind::ConvTranspose2d { options: Some(options) }, &[x, f], &[y]);
    close(&g.value(), &[1, 1, 2, 1], &[4.0, 7.0]);
}

#[test]
fn transposed_convolution_with_strides_and_output_padding() {
    let mut g = Sketch::new();
    let x = g.floats(&[1, 1, 2, 2], &[1.0, 2.0, 3.0, 4.0]);
    let f = g.float_constant(&[1, 1, 2, 2], &[1.0, 1.0, 1.0, 1.0]);
    let y = g.result(DataType::Float32, &[1, 1, 5, 5]);
    let options = MLConvTranspose2dOptions {
        strides: vec![2, 2],
        output_padding: vec![1, 1],
        ..deconv_options()
    };
    g.does(OperationKind::ConvTranspose2d { options: Some(options) }, &[x, f], &[y]);
    close(
        &g.value(),
        &[1, 1, 5, 5],
        &[
            1.0, 1.0, 2.0, 2.0, 0.0, 1.0, 1.0, 2.0, 2.0, 0.0, 3.0, 3.0, 4.0, 4.0, 0.0, 3.0, 3.0,
            4.0, 4.0, 0.0, 0.0, 0.0, 0.0, 0.0, 0.0,
        ],
    );
}

fn pool_options(window: Option<Vec<u32>>) -> MLPool2dOptions {
    MLPool2dOptions {
        window_dimensions: window,
        padding: vec![],
        strides: vec![],
        dilations: vec![],
        layout: "".to_string(),
        output_shape_rounding: "".to_string(),
        output_sizes: None,
    }
}

fn pooled(kind: fn(Option<MLPool2dOptions>) -> OperationKind, o: MLPool2dOptions, out: &[u32]) -> Value {
    let mut g = Sketch::new();
    let data: Vec<f64> = (1..=16).map(|i| i as f64).collect();
    let x = g.floats(&[1, 1, 4, 4], &data);
    let y = g.result(DataType::Float32, out);
    g.does(kind(Some(o)), &[x], &[y]);
    g.value()
}

fn average(options: Option<MLPool2dOptions>) -> OperationKind {
    OperationKind::AveragePool2d { options }
}

fn greatest(options: Option<MLPool2dOptions>) -> OperationKind {
    OperationKind::MaxPool2d { options }
}

fn root(options: Option<MLPool2dOptions>) -> OperationKind {
    OperationKind::L2Pool2d { options }
}

#[test]
fn pooling() {
    let o = MLPool2dOptions { strides: vec![2, 2], ..pool_options(Some(vec![2, 2])) };
    close(&pooled(average, o.clone(), &[1, 1, 2, 2]), &[1, 1, 2, 2], &[3.5, 5.5, 11.5, 13.5]);
    close(&pooled(greatest, o.clone(), &[1, 1, 2, 2]), &[1, 1, 2, 2], &[6.0, 8.0, 14.0, 16.0]);
    let l2 = |a: f64, b: f64, c: f64, d: f64| (a * a + b * b + c * c + d * d).sqrt();
    close(
        &pooled(root, o, &[1, 1, 2, 2]),
        &[1, 1, 2, 2],
        &[
            l2(1.0, 2.0, 5.0, 6.0),
            l2(3.0, 4.0, 7.0, 8.0),
            l2(9.0, 10.0, 13.0, 14.0),
            l2(11.0, 12.0, 15.0, 16.0),
        ],
    );
}

#[test]
fn pooling_with_dilations() {
    let o = MLPool2dOptions { dilations: vec![2, 2], ..pool_options(Some(vec![2, 2])) };
    close(&pooled(greatest, o.clone(), &[1, 1, 2, 2]), &[1, 1, 2, 2], &[11.0, 12.0, 15.0, 16.0]);
    close(&pooled(average, o.clone(), &[1, 1, 2, 2]), &[1, 1, 2, 2], &[6.0, 7.0, 10.0, 11.0]);
    let l2 = |a: f64, b: f64, c: f64, d: f64| (a * a + b * b + c * c + d * d).sqrt();
    close(
        &pooled(root, o, &[1, 1, 2, 2]),
        &[1, 1, 2, 2],
        &[
            l2(1.0, 3.0, 9.0, 11.0),
            l2(2.0, 4.0, 10.0, 12.0),
            l2(5.0, 7.0, 13.0, 15.0),
            l2(6.0, 8.0, 14.0, 16.0),
        ],
    );
}

#[test]
fn each_padding_of_a_pooling_lands_on_its_own_side() {
    // One row above, and one column to the right.
    let padding = vec![1, 0, 0, 1];
    let o = MLPool2dOptions { padding, ..pool_options(Some(vec![2, 2])) };
    let mut g = Sketch::new();
    let x = g.floats(&[1, 1, 2, 2], &[1.0, 2.0, 3.0, 4.0]);
    let y = g.result(DataType::Float32, &[1, 1, 2, 2]);
    g.does(OperationKind::MaxPool2d { options: Some(o.clone()) }, &[x], &[y]);
    close(&g.value(), &[1, 1, 2, 2], &[2.0, 2.0, 4.0, 4.0]);

    let o = MLPool2dOptions { dilations: vec![2, 2], ..o };
    let mut g = Sketch::new();
    let x = g.floats(&[1, 1, 2, 3], &[1.0, 2.0, 3.0, 4.0, 5.0, 6.0]);
    let y = g.result(DataType::Float32, &[1, 1, 1, 2]);
    g.does(OperationKind::MaxPool2d { options: Some(o.clone()) }, &[x], &[y]);
    close(&g.value(), &[1, 1, 1, 2], &[6.0, 5.0]);

    let mut g = Sketch::new();
    let x = g.floats(&[1, 1, 2, 3], &[1.0, 2.0, 3.0, 4.0, 5.0, 6.0]);
    let y = g.result(DataType::Float32, &[1, 1, 1, 2]);
    g.does(OperationKind::AveragePool2d { options: Some(o.clone()) }, &[x], &[y]);
    close(&g.value(), &[1, 1, 1, 2], &[2.5, 1.25]);

    let mut g = Sketch::new();
    let x = g.floats(&[1, 1, 2, 3], &[1.0, 2.0, 3.0, 4.0, 5.0, 6.0]);
    let y = g.result(DataType::Float32, &[1, 1, 1, 2]);
    g.does(OperationKind::L2Pool2d { options: Some(o) }, &[x], &[y]);
    close(&g.value(), &[1, 1, 1, 2], &[52f64.sqrt(), 5.0]);
}

#[test]
fn pooling_over_the_whole_input() {
    close(&pooled(average, pool_options(None), &[1, 1, 1, 1]), &[1, 1, 1, 1], &[8.5]);
    close(&pooled(greatest, pool_options(None), &[1, 1, 1, 1]), &[1, 1, 1, 1], &[16.0]);
    let global = |options| OperationKind::GlobalAveragePool { options };
    close(&pooled(global, pool_options(None), &[1, 1, 1, 1]), &[1, 1, 1, 1], &[8.5]);
    let global = |options| OperationKind::GlobalMaxPool { options };
    close(&pooled(global, pool_options(None), &[1, 1, 1, 1]), &[1, 1, 1, 1], &[16.0]);
}

fn reduced(kind: fn(Option<MLReduceOptions>) -> OperationKind, axes: Option<Vec<u32>>, keep: bool) -> Value {
    let mut g = Sketch::new();
    let x = g.floats(&[2, 2], &[1.0, -2.0, 3.0, 4.0]);
    let y = g.result(DataType::Float32, &[2]);
    g.does(kind(Some(MLReduceOptions { axes, keep_dimensions: keep })), &[x], &[y]);
    g.value()
}

#[test]
fn reductions() {
    let last = Some(vec![1]);
    let v = |k: fn(Option<MLReduceOptions>) -> OperationKind| reduced(k, last.clone(), false);
    close(&v(|options| OperationKind::ReduceSum { options }), &[2], &[-1.0, 7.0]);
    close(&v(|options| OperationKind::ReduceMean { options }), &[2], &[-0.5, 3.5]);
    close(&v(|options| OperationKind::ReduceMax { options }), &[2], &[1.0, 4.0]);
    close(&v(|options| OperationKind::ReduceMin { options }), &[2], &[-2.0, 3.0]);
    close(&v(|options| OperationKind::ReduceProduct { options }), &[2], &[-2.0, 12.0]);
    close(&v(|options| OperationKind::ReduceL1 { options }), &[2], &[3.0, 7.0]);
    close(&v(|options| OperationKind::ReduceL2 { options }), &[2], &[5f64.sqrt(), 5.0]);
    close(&v(|options| OperationKind::ReduceSumSquare { options }), &[2], &[5.0, 25.0]);
    close(&v(|options| OperationKind::ReduceLogSum { options }), &[2], &[f64::NAN, 7f64.ln()]);
    let lse = |a: f64, b: f64| (a.exp() + b.exp()).ln();
    close(
        &v(|options| OperationKind::ReduceLogSumExp { options }),
        &[2],
        &[lse(1.0, -2.0), lse(3.0, 4.0)],
    );
    let sum = |options| OperationKind::ReduceSum { options };
    close(&reduced(sum, Some(vec![0]), true), &[1, 2], &[4.0, 2.0]);
    close(&reduced(sum, None, false), &[], &[6.0]);
    close(&reduced(sum, None, true), &[1, 1], &[6.0]);
}

#[test]
fn cutting_and_joining() {
    let mut g = Sketch::new();
    let x = g.floats(&[2, 4], &[1.0, 2.0, 3.0, 4.0, 5.0, 6.0, 7.0, 8.0]);
    let y = g.result(DataType::Float32, &[1, 2]);
    g.does(
        OperationKind::Slice {
            starts: vec![1, 0],
            sizes: vec![MLDimension::Static(1), MLDimension::Static(4)],
            options: Some(MLSliceOptions { strides: vec![1, 2] }),
        },
        &[x],
        &[y],
    );
    close(&g.value(), &[1, 2], &[5.0, 7.0]);

    let mut g = Sketch::new();
    let x = g.floats(&[2, 4], &[1.0, 2.0, 3.0, 4.0, 5.0, 6.0, 7.0, 8.0]);
    let a = g.result(DataType::Float32, &[2, 1]);
    let b = g.result(DataType::Float32, &[2, 3]);
    g.does(
        OperationKind::Split {
            splits: vec![1, 3],
            options: Some(MLSplitOptions { axis: 1 }),
        },
        &[x],
        &[a, b],
    );
    let parts = g.run().unwrap();
    close(&parts[0], &[2, 1], &[1.0, 5.0]);
    close(&parts[1], &[2, 3], &[2.0, 3.0, 4.0, 6.0, 7.0, 8.0]);

    let mut g = Sketch::new();
    let x = g.floats(&[1, 2], &[1.0, 2.0]);
    let y = g.floats(&[1, 1], &[3.0]);
    let z = g.result(DataType::Float32, &[1, 3]);
    g.does(OperationKind::Concat { axis: 1 }, &[x, y], &[z]);
    close(&g.value(), &[1, 3], &[1.0, 2.0, 3.0]);
}

#[test]
fn scalars_are_joined_along_no_axis() {
    let mut g = Sketch::new();
    let x = g.floats(&[], &[1.0]);
    let y = g.floats(&[], &[2.0]);
    let z = g.result(DataType::Float32, &[2]);
    g.does(OperationKind::Concat { axis: 0 }, &[x, y], &[z]);
    let mut machine = Machine::new(&[("in0", vec![1.0]), ("in1", vec![2.0])]);
    let mut net = Network::new();
    let axis = loop {
        match TrtxConverter::build_network(&g.graph, &mut net, None) {
            Err(HaltOf::Pending) => {}
            other => panic!("{:?}", other),
        }
        let at = net.requests.len() - 1;
        if let RequestOf::SetAxis { axis, .. } = &net.requests[at] {
            break *axis;
        }
        let reply = machine.perform(at, &net);
        net.answer(reply);
        net.rewind(0);
    };
    assert_eq!(axis, -1);
}

#[test]
fn tiling_leaves_operands_with_large_numbers_alone() {
    let mut g = Sketch::new();
    let x = g.floats(&[1, 2], &[1.0, 2.0]);
    let y = g.result(DataType::Float32, &[2, 4]);
    let operation = Operation {
        kind: OperationKind::Tile { repetitions: vec![2, 2] },
        inputs: vec![x],
        outputs: vec![y],
    };
    let mut machine = Machine::new(&[("in0", vec![1.0, 2.0])]);
    let mut net = Network::new();
    // The tensor of the input stands for operands far behind the others, too.
    let tensors = loop {
        let mut map = TensorMap::new();
        let r = TrtxConverter::add_input(&g.graph, &mut net, &mut map, 0).and_then(|_| {
            let t = map.find(0, "", "")?;
            map.insert(1_000_000, t);
            map.insert(1_000_001, t);
            TrtxConverter::add_tile_op(&mut net, &mut map, &operation)
        });
        match r {
            Ok(()) => break map,
            Err(HaltOf::Pending) => {
                let at = net.requests.len() - 1;
                let reply = machine.perform(at, &net);
                net.answer(reply);
                net.rewind(0);
            }
            Err(other) => panic!("{:?}", other),
        }
    };
    let input = tensors.find(0, "", "").unwrap();
    assert_eq!(tensors.find(1_000_000, "", "").unwrap(), input);
    assert_eq!(tensors.find(1_000_001, "", "").unwrap(), input);
    let tiled = machine.get(tensors.find(y, "", "").unwrap().id);
    close(&tiled, &[2, 4], &[1.0, 2.0, 1.0, 2.0, 1.0, 2.0, 1.0, 2.0]);
}

#[test]
fn an_even_split() {
    let mut g = Sketch::new();
    let x = g.floats(&[4], &[1.0, 2.0, 3.0, 4.0]);
    let a = g.result(DataType::Float32, &[2]);
    let b = g.result(DataType::Float32, &[2]);
    g.does(
        OperationKind::Split { splits: vec![], options: Some(MLSplitOptions { axis: 0 }) },
        &[x],
        &[a, b],
    );
    let parts = g.run().unwrap();
    close(&parts[0], &[2], &[1.0, 2.0]);
    close(&parts[1], &[2], &[3.0, 4.0]);
}

#[test]
fn rearranging() {
    let six = [1.0, 2.0, 3.0, 4.0, 5.0, 6.0];
    let arranged = |kind: OperationKind, shape: &[u32]| {
        let mut g = Sketch::new();
        let x = g.floats(&[2, 3], &six);
        let y = g.result(DataType::Float32, shape);
        g.does(kind, &[x], &[y]);
        g.value()
    };
    let permutation = MLTransposeOptions { permutation: vec![1, 0] };
    close(
        &arranged(OperationKind::Transpose { options: Some(permutation) }, &[3, 2]),
        &[3, 2],
        &[1.0, 4.0, 2.0, 5.0, 3.0, 6.0],
    );
    close(
        &arranged(OperationKind::Transpose { options: None }, &[3, 2]),
        &[3, 2],
        &[1.0, 4.0, 2.0, 5.0, 3.0, 6.0],
    );
    let new_shape = vec![MLDimension::Static(3), MLDimension::Static(2)];
    close(&arranged(OperationKind::Reshape { new_shape }, &[3, 2]), &[3, 2], &six);
    close(
        &arranged(OperationKind::Tile { repetitions: vec![2, 1] }, &[4, 3]),
        &[4, 3],
        &[1.0, 2.0, 3.0, 4.0, 5.0, 6.0, 1.0, 2.0, 3.0, 4.0, 5.0, 6.0],
    );
    close(&arranged(OperationKind::Tile { repetitions: vec![1, 1] }, &[2, 3]), &[2, 3], &six);
    let options = Some(MLReverseOptions { axes: Some(vec![1]) });
    close(
        &arranged(OperationKind::Reverse { options }, &[2, 3]),
        &[2, 3],
        &[3.0, 2.0, 1.0, 6.0, 5.0, 4.0],
    );
    let options = Some(MLTriangularOptions { upper: Some(true), diagonal: 0 });
    close(
        &arranged(OperationKind::Triangular { options }, &[2, 3]),
        &[2, 3],
        &[1.0, 2.0, 3.0, 0.0, 5.0, 6.0],
    );
    let options = Some(MLTriangularOptions { upper: Some(false), diagonal: 1 });
    close(
        &arranged(OperationKind::Triangular { options }, &[2, 3]),
        &[2, 3],
        &[1.0, 2.0, 0.0, 4.0, 5.0, 6.0],
    );
    let options = Some(MLCumulativeSumOptions { exclusive: false, reversed: false });
    close(
        &arranged(OperationKind::CumulativeSum { axis: 1, options }, &[2, 3]),
        &[2, 3],
        &[1.0, 3.0, 6.0, 4.0, 9.0, 15.0],
    );
    let options = Some(MLCumulativeSumOptions { exclusive: true, reversed: true });
    close(
        &arranged(OperationKind::CumulativeSum { axis: 0, options }, &[2, 3]),
        &[2, 3],
        &[4.0, 5.0, 6.0, 0.0, 0.0, 0.0],
    );
    let e: Vec<f64> = six.iter().map(|x: &f64| x.exp()).collect();
    let (s, t) = (e[0] + e[1] + e[2], e[3] + e[4] + e[5]);
    close(
        &arranged(OperationKind::Softmax { axis: 1 }, &[2, 3]),
        &[2, 3],
        &[e[0] / s, e[1] / s, e[2] / s, e[3] / t, e[4] / t, e[5] / t],
    );
}

fn squeezed(shape: &[u32], axes: Option<Vec<u32>>) -> Vec<i64> {
    let mut g = Sketch::new();
    let data: Vec<f64> = (0..shape.iter().product::<u32>()).map(|i| i as f64).collect();
    let x = g.floats(shape, &data);
    let y = g.result(DataType::Float32, shape);
    g.does(OperationKind::Squeeze { axes }, &[x], &[y]);
    let v = g.value();
    assert_eq!(v.data, data);
    v.dims
}

#[test]
fn squeezing() {
    assert_eq!(squeezed(&[1, 2, 1, 3], None), [2, 3]);
    assert_eq!(squeezed(&[1, 2, 1, 3], Some(vec![2])), [1, 2, 3]);
    assert_eq!(squeezed(&[1, 2, 1, 3], Some(vec![1, 0, 7])), [2, 1, 3]);
    assert_eq!(squeezed(&[1, 2], Some(vec![])), [1, 2]);
    assert_eq!(squeezed(&[1, 1], None), [] as [i64; 0]);
}

fn unsqueezed(shape: &[u32], axes: Option<Option<Vec<u32>>>) -> Result<Vec<i64>, String> {
    let mut g = Sketch::new();
    let data: Vec<f64> = (0..shape.iter().product::<u32>()).map(|i| i as f64).collect();
    let x = g.floats(shape, &data);
    let y = g.result(DataType::Float32, shape);
    g.does(OperationKind::Unsqueeze { axes }, &[x], &[y]);
    g.run().map(|mut values| {
        let v = values.remove(0);
        assert_eq!(v.data, data);
        v.dims
    })
}

#[test]
fn unsqueezing() {
    let listed = |axes: &[u32]| Some(Some(axes.to_vec()));
    assert_eq!(unsqueezed(&[2, 3], listed(&[0])).unwrap(), [1, 2, 3]);
    assert_eq!(unsqueezed(&[2, 3], listed(&[2, 0])).unwrap(), [1, 2, 1, 3]);
    assert_eq!(unsqueezed(&[2, 3], listed(&[2, 3])).unwrap(), [2, 3, 1, 1]);
    assert_eq!(unsqueezed(&[], listed(&[0])).unwrap(), [1]);
    assert_eq!(unsqueezed(&[2], listed(&[])).unwrap(), [2]);
    let wrong = "Invalid 'axes' attribute format";
    assert_eq!(unsqueezed(&[2, 3], listed(&[3])).unwrap_err(), wrong);
    assert_eq!(unsqueezed(&[2, 3], listed(&[1, 1])).unwrap_err(), wrong);
    assert_eq!(unsqueezed(&[2, 3], Some(None)).unwrap_err(), wrong);
    assert_eq!(
        unsqueezed(&[2, 3], None).unwrap_err(),
        "Unsqueeze operation missing 'axes' attribute"
    );
}

#[test]
fn an_unsqueeze_undoes_a_squeeze() {
    let mut g = Sketch::new();
    let x = g.floats(&[1, 2, 1, 3], &[1.0, 2.0, 3.0, 4.0, 5.0, 6.0]);
    let h = g.operand(OperandKind::Intermediate, DataType::Float32, &[2, 3], "h".to_string());
    let y = g.result(DataType::Float32, &[1, 2, 1, 3]);
    g.does(OperationKind::Squeeze { axes: None }, &[x], &[h]);
    g.does(OperationKind::Unsqueeze { axes: Some(Some(vec![0, 2])) }, &[h], &[y]);
    close(&g.value(), &[1, 2, 1, 3], &[1.0, 2.0, 3.0, 4.0, 5.0, 6.0]);
}

#[test]
fn expanding() {
    let mut g = Sketch::new();
    let x = g.floats(&[3], &[1.0, 2.0, 3.0]);
    let y = g.result(DataType::Float32, &[2, 3]);
    let new_shape = vec![MLDimension::Static(2), MLDimension::Static(3)];
    g.does(OperationKind::Expand { new_shape }, &[x], &[y]);
    close(&g.value(), &[2, 3], &[1.0, 2.0, 3.0, 1.0, 2.0, 3.0]);
}

#[test]
fn picking_by_index() {
    let mut g = Sketch::new();
    let x = g.floats(&[3, 2], &[1.0, 2.0, 3.0, 4.0, 5.0, 6.0]);
    let i = g.int_constant(&[2], &[2, 0]);
    let y = g.result(DataType::Float32, &[2, 2]);
    let options = Some(MLGatherOptions { axis: 0 });
    g.does(OperationKind::Gather { options }, &[x, i], &[y]);
    close(&g.value(), &[2, 2], &[5.0, 6.0, 1.0, 2.0]);

    let mut g = Sketch::new();
    let x = g.floats(&[2, 2], &[1.0, 2.0, 3.0, 4.0]);
    let i = g.int_constant(&[2, 2], &[1, 0, 0, 1]);
    let y = g.result(DataType::Float32, &[2, 2]);
    let options = Some(MLGatherOptions { axis: 0 });
    g.does(OperationKind::GatherElements { options }, &[x, i], &[y]);
    close(&g.value(), &[2, 2], &[3.0, 2.0, 1.0, 4.0]);

    let mut g = Sketch::new();
    let x = g.floats(&[2, 2], &[1.0, 2.0, 3.0, 4.0]);
    let i = g.int_constant(&[2, 2], &[1, 1, 0, 1]);
    let y = g.result(DataType::Float32, &[2]);
    g.does(OperationKind::GatherND, &[x, i], &[y]);
    close(&g.value(), &[2], &[4.0, 2.0]);
}

#[test]
fn indices_past_the_end_are_clamped() {
    let mut g = Sketch::new();
    let x = g.floats(&[3], &[1.0, 2.0, 3.0]);
    let i = g.int_constant(&[2], &[7, -1]);
    let y = g.result(DataType::Float32, &[2]);
    let options = Some(MLGatherOptions { axis: 0 });
    g.does(OperationKind::Gather { options }, &[x, i], &[y]);
    close(&g.value(), &[2], &[3.0, 3.0]);
}

#[test]
fn writing_by_index() {
    let mut g = Sketch::new();
    let x = g.floats(&[3], &[1.0, 2.0, 3.0]);
    let i = g.int_constant(&[2], &[2, 0]);
    let u = g.floats(&[2], &[10.0, 20.0]);
    let y = g.result(DataType::Float32, &[3]);
    let options = Some(MLScatterOptions { axis: 0 });
    g.does(OperationKind::ScatterElements { options }, &[x, i, u], &[y]);
    close(&g.value(), &[3], &[20.0, 2.0, 10.0]);

    let mut g = Sketch::new();
    let x = g.floats(&[2, 2], &[1.0, 2.0, 3.0, 4.0]);
    let i = g.int_constant(&[1, 1], &[1]);
    let u = g.floats(&[1, 2], &[10.0, 20.0]);
    let y = g.result(DataType::Float32, &[2, 2]);
    g.does(OperationKind::ScatterND, &[x, i, u], &[y]);
    close(&g.value(), &[2, 2], &[1.0, 2.0, 10.0, 20.0]);
}

#[test]
fn places_of_extremes() {
    for (kind, expected) in [(true, [2.0, 0.0]), (false, [0.0, 1.0])] {
        for keep in [true, false] {
            let mut g = Sketch::new();
            let x = g.floats(&[2, 3], &[1.0, 2.0, 3.0, 6.0, 4.0, 5.0]);
            let shape: &[u32] = if keep { &[2, 1] } else { &[2] };
            let y = g.result(DataType::Int32, shape);
            let options = Some(MLArgMinMaxOptions { keep_dimensions: keep });
            let kind = if kind {
                OperationKind::ArgMax { axis: 1, options }
            } else {
                OperationKind::ArgMin { axis: 1, options }
            };
            g.does(kind, &[x], &[y]);
            let dims: &[i64] = if keep { &[2, 1] } else { &[2] };
            close(&g.value(), dims, &expected);
        }
    }
}

fn padded(mode: &str, value: Option<MLNumber>) -> Value {
    let mut g = Sketch::new();
    let x = g.floats(&[2, 3], &[1.0, 2.0, 3.0, 4.0, 5.0, 6.0]);
    let y = g.result(DataType::Float32, &[3, 6]);
    g.does(
        OperationKind::Pad {
            beginning_padding: vec![1, 2],
            ending_padding: vec![0, 1],
            options: Some(MLPadOptions { mode: mode.to_string(), value }),
        },
        &[x],
        &[y],
    );
    g.value()
}

#[test]
fn padding() {
    close(
        &padded("constant", Some(number(9.0))),
        &[3, 6],
        &[
            9.0, 9.0, 9.0, 9.0, 9.0, 9.0, 9.0, 9.0, 1.0, 2.0, 3.0, 9.0, 9.0, 9.0, 4.0, 5.0, 6.0,
            9.0,
        ],
    );
    close(
        &padded("edge", None),
        &[3, 6],
        &[
            1.0, 1.0, 1.0, 2.0, 3.0, 3.0, 1.0, 1.0, 1.0, 2.0, 3.0, 3.0, 4.0, 4.0, 4.0, 5.0, 6.0,
            6.0,
        ],
    );
    close(
        &padded("reflection", None),
        &[3, 6],
        &[
            6.0, 5.0, 4.0, 5.0, 6.0, 5.0, 3.0, 2.0, 1.0, 2.0, 3.0, 2.0, 6.0, 5.0, 4.0, 5.0, 6.0,
            5.0,
        ],
    );
}

fn normalized(x: &[f64], epsilon: f64) -> Vec<f64> {
    let n = x.len() as f64;
    let mean = x.iter().sum::<f64>() / n;
    let var = x.iter().map(|v| (v - mean) * (v - mean)).sum::<f64>() / n;
    x.iter().map(|v| (v - mean) / (var + epsilon).sqrt()).collect()
}

#[test]
fn batch_normalization() {
    let mut g = Sketch::new();
    let x = g.floats(&[1, 2, 1, 2], &[1.0, 2.0, 3.0, 4.0]);
    let mean = g.float_constant(&[2], &[1.0, 3.0]);
    let variance = g.float_constant(&[2], &[4.0, 1.0]);
    let scale = g.float_constant(&[2], &[2.0, 10.0]);
    let bias = g.float_constant(&[2], &[0.5, -1.0]);
    let y = g.result(DataType::Float32, &[1, 2, 1, 2]);
    let options = MLBatchNormalizationOptions {
        scale: Some(scale),
        bias: Some(bias),
        axis: 1,
        epsilon: scalar(0.0),
    };
    g.does(
        OperationKind::BatchNormalization { options: Some(options) },
        &[x, mean, variance, scale, bias],
        &[y],
    );
    close(&g.value(), &[1, 2, 1, 2], &[0.5, 1.5, -1.0, 9.0]);
}

#[test]
fn batch_normalization_is_guarded() {
    let mut g = Sketch::new();
    let x = g.floats(&[1, 2, 1, 2], &[1.0, 2.0, 3.0, 4.0]);
    let mean = g.float_constant(&[2], &[1.0, 3.0]);
    let variance = g.float_constant(&[2], &[0.0, 3.0]);
    let y = g.result(DataType::Float32, &[1, 2, 1, 2]);
    let options = MLBatchNormalizationOptions {
        scale: None,
        bias: None,
        axis: 1,
        epsilon: scalar(0.25),
    };
    g.does(
        OperationKind::BatchNormalization { options: Some(options) },
        &[x, mean, variance],
        &[y],
    );
    let deviation = 3.25f64.sqrt();
    close(&g.value(), &[1, 2, 1, 2], &[0.0, 2.0, 0.0, 1.0 / deviation]);
    g.graph.operations[0].kind = OperationKind::BatchNormalization { options: None };
    let deviation = 3.00001f64.sqrt();
    let guarded = 1.0 / 1e-5f64.sqrt();
    let v = g.value();
    assert!((v.data[1] - guarded).abs() < 1e-2, "{:?}", v.data);
    assert!((v.data[3] - 1.0 / deviation).abs() < 1e-5, "{:?}", v.data);
}

#[test]
fn instance_normalization() {
    let mut g = Sketch::new();
    let x = g.floats(&[1, 2, 1, 3], &[1.0, 2.0, 4.0, 10.0, 0.0, 5.0]);
    let y = g.result(DataType::Float32, &[1, 2, 1, 3]);
    let options = MLInstanceNormalizationOptions {
        scale: None,
        bias: None,
        epsilon: scalar(0.5),
        layout: "nchw".to_string(),
    };
    g.does(OperationKind::InstanceNormalization { options: Some(options) }, &[x], &[y]);
    let mut expected = normalized(&[1.0, 2.0, 4.0], 0.5);
    expected.extend(normalized(&[10.0, 0.0, 5.0], 0.5));
    close(&g.value(), &[1, 2, 1, 3], &expected);
}

#[test]
fn layer_normalization() {
    let mut g = Sketch::new();
    let x = g.floats(&[2, 3], &[1.0, 2.0, 4.0, 10.0, 0.0, 5.0]);
    let scale = g.float_constant(&[3], &[1.0, 2.0, 3.0]);
    let bias = g.float_constant(&[3], &[0.0, 1.0, -1.0]);
    let y = g.result(DataType::Float32, &[2, 3]);
    let options = MLLayerNormalizationOptions {
        scale: Some(scale),
        bias: Some(bias),
        axes: Some(vec![1]),
        epsilon: scalar(0.5),
    };
    g.does(
        OperationKind::LayerNormalization { options: Some(options) },
        &[x, scale, bias],
        &[y],
    );
    let a = normalized(&[1.0, 2.0, 4.0], 0.5);
    let b = normalized(&[10.0, 0.0, 5.0], 0.5);
    let shaped = |v: &[f64]| vec![v[0], 2.0 * v[1] + 1.0, 3.0 * v[2] - 1.0];
    let mut expected = shaped(&a);
    expected.extend(shaped(&b));
    close(&g.value(), &[2, 3], &expected);
}

#[test]
fn layer_normalization_takes_its_own_operation_only() {
    let mut g = Sketch::new();
    let x = g.floats(&[2], &[1.0, 2.0]);
    let y = g.result(DataType::Float32, &[2]);
    let operation = Operation { kind: OperationKind::Relu, inputs: vec![x], outputs: vec![y] };
    let mut machine = Machine::new(&[("in0", vec![1.0, 2.0])]);
    let mut net = Network::new();
    let reason = loop {
        let mut map = TensorMap::new();
        let r = TrtxConverter::add_input(&g.graph, &mut net, &mut map, 0).and_then(|_| {
            TrtxConverter::add_layer_normalization_op(&g.graph, &mut net, &mut map, &operation)
        });
        match r {
            Err(HaltOf::Pending) => {
                let at = net.requests.len() - 1;
                let reply = machine.perform(at, &net);
                net.answer(reply);
                net.rewind(0);
            }
            Err(HaltOf::Failed(reason)) => break reason,
            other => panic!("{:?}", other),
        }
    };
    assert_eq!(reason, "add_layer_normalization_op: expected LayerNormalization operation");
}

#[test]
fn resampling() {
    let mut g = Sketch::new();
    let x = g.floats(&[1, 1, 2, 2], &[1.0, 2.0, 3.0, 4.0]);
    let y = g.result(DataType::Float32, &[1, 1, 4, 4]);
    let options = MLResample2dOptions {
        mode: "nearest-neighbor".to_string(),
        scales: vec![2f32.to_bits(), 2f32.to_bits()],
        scales_text: "[2.0, 2.0]".to_string(),
        sizes: None,
        axes: vec![2, 3],
    };
    g.does(OperationKind::Resample2d { options: Some(options) }, &[x], &[y]);
    close(
        &g.value(),
        &[1, 1, 4, 4],
        &[
            1.0, 1.0, 2.0, 2.0, 1.0, 1.0, 2.0, 2.0, 3.0, 3.0, 4.0, 4.0, 3.0, 3.0, 4.0, 4.0,
        ],
    );
}

#[test]
fn quantization_there_and_back() {
    let mut g = Sketch::new();
    let x = g.floats(&[4], &[-1.0, 0.0, 0.26, 100.0]);
    let scale = g.float_constant(&[1], &[0.5]);
    let zero = g.constant(DataType::Int8, &[1], vec![0]);
    let y = g.result(DataType::Int8, &[4]);
    g.does(OperationKind::QuantizeLinear, &[x, scale, zero], &[y]);
    close(&g.value(), &[4], &[-2.0, 0.0, 1.0, 127.0]);

    let mut g = Sketch::new();
    let x = g.constant(DataType::Int8, &[3], vec![254, 0, 127]);
    let scale = g.float_constant(&[1], &[0.5]);
    let zero = g.constant(DataType::Int8, &[1], vec![0]);
    let y = g.result(DataType::Float32, &[3]);
    g.does(OperationKind::DequantizeLinear, &[x, scale, zero], &[y]);
    close(&g.value(), &[3], &[-1.0, 0.0, 63.5]);
}

fn quantized(t: DataType, zero: Vec<u8>, data: &[f64]) -> Value {
    let mut g = Sketch::new();
    let x = g.floats(&[data.len() as u32], data);
    let scale = g.float_constant(&[1], &[0.5]);
    let zero = g.constant(t, &[1], zero);
    let y = g.result(t, &[data.len() as u32]);
    g.does(OperationKind::QuantizeLinear, &[x, scale, zero], &[y]);
    g.value()
}

#[test]
fn quantization_clips_to_the_range_of_the_type() {
    let data = [-100.0, -1.0, 0.0, 0.25, 0.75, 100.0, 1000.0];
    close(
        &quantized(DataType::Int8, vec![3], &data),
        &[7],
        &[-128.0, 1.0, 3.0, 3.0, 5.0, 127.0, 127.0],
    );
    close(
        &quantized(DataType::Uint8, vec![128], &data),
        &[7],
        &[0.0, 126.0, 128.0, 128.0, 130.0, 255.0, 255.0],
    );
    close(
        &quantized(DataType::Int32, vec![0xFF; 4], &data),
        &[7],
        &[-201.0, -3.0, -1.0, -1.0, 1.0, 199.0, 1999.0],
    );
}

#[test]
fn dequantization_takes_the_zero_point_off() {
    let mut g = Sketch::new();
    let x = g.constant(DataType::Int8, &[3], vec![0, 5, 251]);
    let scale = g.float_constant(&[1], &[0.5]);
    let zero = g.constant(DataType::Int8, &[1], vec![2]);
    let y = g.result(DataType::Float32, &[3]);
    g.does(OperationKind::DequantizeLinear, &[x, scale, zero], &[y]);
    close(&g.value(), &[3], &[-1.0, 1.5, -3.5]);

    let mut g = Sketch::new();
    let x = g.constant(DataType::Int8, &[3], vec![0, 5, 251]);
    let scale = g.float_constant(&[1], &[0.5]);
    let y = g.result(DataType::Float32, &[3]);
    g.does(OperationKind::DequantizeLinear, &[x, scale], &[y]);
    close(&g.value(), &[3], &[0.0, 2.5, -2.5]);
}

#[test]
fn a_lone_byte_is_dequantized() {
    let mut g = Sketch::new();
    let x = g.constant(DataType::Int8, &[], vec![251]);
    let scale = g.float_constant(&[], &[0.5]);
    let zero = g.constant(DataType::Int8, &[], vec![2]);
    let y = g.result(DataType::Float32, &[]);
    g.does(OperationKind::DequantizeLinear, &[x, scale, zero], &[y]);
    let (values, net) = g.run_with(Machine::new(&[])).unwrap();
    close(&values[0], &[], &[-3.5]);
    assert_eq!(values[0].dtype, TrtDataType::kFLOAT);
    assert!(net.requests.iter().any(|r| matches!(r, RequestOf::AddDequantize { .. })));
}

#[test]
fn quantization_with_a_lone_zero_point() {
    for (t, zero, expected) in [
        (DataType::Int8, 3u8, [-5.0, 3.0, 127.0]),
        (DataType::Int8, 253, [-11.0, -3.0, 127.0]),
        (DataType::Uint8, 200, [192.0, 200.0, 255.0]),
    ] {
        let mut g = Sketch::new();
        let x = g.floats(&[3], &[-4.0, 0.0, 1000.0]);
        let scale = g.float_constant(&[], &[0.5]);
        let zero = g.constant(t, &[], vec![zero]);
        let y = g.result(t, &[3]);
        g.does(OperationKind::QuantizeLinear, &[x, scale, zero], &[y]);
        close(&g.value(), &[3], &expected);
    }

    for (t, zero, expected) in [(DataType::Int8, 253u8, -11.0), (DataType::Uint8, 200, 192.0)] {
        let mut g = Sketch::new();
        let x = g.floats(&[], &[-4.0]);
        let scale = g.float_constant(&[], &[0.5]);
        let zero = g.constant(t, &[], vec![zero]);
        let y = g.result(t, &[]);
        g.does(OperationKind::QuantizeLinear, &[x, scale, zero], &[y]);
        close(&g.value(), &[], &[expected]);
    }
}

#[test]
fn dequantization_with_a_lone_zero_point() {
    let mut g = Sketch::new();
    let x = g.constant(DataType::Int8, &[3], vec![0, 5, 251]);
    let scale = g.float_constant(&[], &[0.5]);
    let zero = g.constant(DataType::Int8, &[], vec![254]);
    let y = g.result(DataType::Float32, &[3]);
    g.does(OperationKind::DequantizeLinear, &[x, scale, zero], &[y]);
    close(&g.value(), &[3], &[1.0, 3.5, -1.5]);
}

#[test]
fn lone_bytes_are_truth_values_too() {
    let mut g = Sketch::new();
    let c = g.constant(DataType::Uint8, &[], vec![7]);
    let x = g.floats(&[2], &[1.0, 0.0]);
    let a = g.result(DataType::Uint8, &[2]);
    let b = g.result(DataType::Uint8, &[]);
    let w = g.result(DataType::Float32, &[2]);
    g.does(OperationKind::LogicalAnd, &[x, c], &[a]);
    g.does(OperationKind::LogicalNot, &[c], &[b]);
    g.does(OperationKind::Where, &[c, x, x], &[w]);
    let values = g.run().unwrap();
    close(&values[0], &[2], &[1.0, 0.0]);
    close(&values[1], &[], &[0.0]);
    close(&values[2], &[2], &[1.0, 0.0]);
}

#[test]
fn parameters_of_blocks_are_stretched_in_place() {
    let mut g = Sketch::new();
    let x = g.floats(&[1, 4], &[8.0, 8.0, 8.0, 8.0]);
    let scale = g.float_constant(&[1, 2], &[1.0, 4.0]);
    let zero = g.constant(DataType::Int8, &[1, 2], vec![1, 2]);
    let y = g.result(DataType::Int8, &[1, 4]);
    g.does(OperationKind::QuantizeLinear, &[x, scale, zero], &[y]);
    close(&g.value(), &[1, 4], &[9.0, 9.0, 4.0, 4.0]);
}

#[test]
fn a_layer_normalization_over_no_axis_is_its_bias() {
    let mut g = Sketch::new();
    let x = g.floats(&[2, 2], &[1.0, 2.0, 3.0, 4.0]);
    let bias = g.float_constant(&[], &[2.5]);
    let y = g.result(DataType::Float32, &[2, 2]);
    let options = MLLayerNormalizationOptions {
        scale: None,
        bias: Some(bias),
        axes: Some(vec![]),
        epsilon: scalar(0.5),
    };
    g.does(OperationKind::LayerNormalization { options: Some(options) }, &[x, bias], &[y]);
    close(&g.value(), &[2, 2], &[2.5; 4]);
}

#[test]
fn quantization_of_other_types_is_refused() {
    let mut g = Sketch::new();
    let x = g.input(DataType::Int32, &[1], &[0.0]);
    let scale = g.float_constant(&[1], &[0.5]);
    let y = g.result(DataType::Int8, &[1]);
    g.does(OperationKind::QuantizeLinear, &[x, scale], &[y]);
    assert_eq!(
        g.run().unwrap_err(),
        "quantizeLinear expects float16 or float32 input, got Int32"
    );

    let mut g = Sketch::new();
    let x = g.constant(DataType::Int8, &[1], vec![0]);
    let scale = g.float_constant(&[1], &[0.5]);
    let y = g.result(DataType::Int32, &[1]);
    g.does(OperationKind::DequantizeLinear, &[x, scale], &[y]);
    assert_eq!(
        g.run().unwrap_err(),
        "dequantizeLinear expects float16 or float32 output, got Int32"
    );
}

/// The layer and the tensors that a request names.
fn named(r: &Request) -> Vec<usize> {
    match r {
        RequestOf::AddIdentity { input }
        | RequestOf::AddCast { input, .. }
        | RequestOf::AddActivation { input, .. }
        | RequestOf::AddUnary { input, .. }
        | RequestOf::AddShuffle { input }
        | RequestOf::AddResize { input }
        | RequestOf::AddReduce { input, .. }
        | RequestOf::AddSlice { input, .. }
        | RequestOf::AddPooling { input, .. }
        | RequestOf::AddConvolution { input, .. } => vec![input.id],
        RequestOf::AddElementwise { a, b, .. } | RequestOf::AddMatrixMultiply { a, b, .. } => {
            vec![a.id, b.id]
        }
        RequestOf::AddConcatenation { inputs } => inputs.iter().map(|t| t.id).collect(),
        RequestOf::Output { layer, .. }
        | RequestOf::SetReshapeDimensions { layer, .. }
        | RequestOf::SetFirstTranspose { layer, .. }
        | RequestOf::SetOutputDimensions { layer, .. }
        | RequestOf::SetAxis { layer, .. }
        | RequestOf::SetLayerName { layer, .. } => vec![layer.id],
        RequestOf::SetInput { layer, tensor, .. } => vec![layer.id, tensor.id],
        RequestOf::SetTensorName { tensor, .. } | RequestOf::MarkOutput { tensor } => {
            vec![tensor.id]
        }
        _ => vec![],
    }
}

#[test]
fn requests_name_only_what_came_before() {
    let mut g = Sketch::new();
    let x = g.floats(&[1, 2, 1, 2], &[1.0, 2.0, 3.0, 4.0]);
    let mean = g.float_constant(&[2], &[1.0, 3.0]);
    let variance = g.float_constant(&[2], &[4.0, 1.0]);
    let shape = [1, 2, 1, 2];
    let h = g.operand(OperandKind::Intermediate, DataType::Float32, &shape, "h".to_string());
    let y = g.result(DataType::Float32, &shape);
    g.does(OperationKind::BatchNormalization { options: None }, &[x, mean, variance], &[h]);
    g.does(OperationKind::Concat { axis: 0 }, &[h, x], &[y]);
    let (_, net) = g.run_with(Machine::new(&[])).unwrap();
    let mut seen = 0;
    for (i, r) in net.requests.iter().enumerate() {
        for id in named(r) {
            assert!(id < i, "request {} names {}", i, id);
            seen += 1;
        }
    }
    assert!(seen > 20);
}

#[test]
fn a_network_of_several_operations() {
    let mut g = Sketch::new();
    let x = g.floats(&[2, 2], &[1.0, -2.0, 3.0, -4.0]);
    let w = g.float_constant(&[2, 2], &[1.0, 1.0, 0.0, 1.0]);
    let h = g.operand(OperandKind::Intermediate, DataType::Float32, &[2, 2], "h".to_string());
    let y = g.result(DataType::Float32, &[2, 2]);
    g.does(OperationKind::Matmul, &[x, w], &[h]);
    g.does(OperationKind::Relu, &[h], &[y]);
    close(&g.value(), &[2, 2], &[1.0, 0.0, 3.0, 0.0]);
    let (_, net) = g.run_with(Machine::new(&[])).unwrap();
    let named: Vec<&String> = net
        .requests
        .iter()
        .filter_map(|r| match r {
            RequestOf::SetTensorName { name, .. } => Some(name),
            _ => None,
        })
        .collect();
    assert_eq!(named, ["in0", "out3"]);
    assert!(net.requests.iter().any(|r| matches!(
        r,
        RequestOf::AddConstant {
            storage: ConstantStorage::Borrowed,
            weights: WeightsOf::Reply(_),
            name: Some(_),
            ..
        }
    )));
}

#[test]
fn wide_integers_are_cut_to_their_low_halves() {
    let mut g = Sketch::new();
    let wide: [i64; 3] = [5, -6, 0x1_0000_0007];
    let bytes = wide.iter().flat_map(|x| x.to_le_bytes()).collect();
    let c = g.constant(DataType::Int64, &[3], bytes);
    let y = g.result(DataType::Int64, &[3]);
    g.does(OperationKind::Identity, &[c], &[y]);
    let v = g.value();
    assert_eq!(v.dtype, TrtDataType::kINT32);
    close(&v, &[3], &[5.0, -6.0, 7.0]);
}

#[test]
fn constants_of_the_wrong_size_are_refused() {
    let mut g = Sketch::new();
    let c = g.constant(DataType::Float32, &[2], vec![0, 0, 0, 0]);
    let y = g.result(DataType::Float32, &[2]);
    g.does(OperationKind::Identity, &[c], &[y]);
    assert_eq!(
        g.run().unwrap_err(),
        "Constant data size mismatch: expected 8 bytes, got 4 bytes for operand 0"
    );

    let mut g = Sketch::new();
    g.constant(DataType::Float32, &[0], vec![]);
    assert_eq!(g.run().unwrap_err(), "Constant operand 0 has empty data");

    let mut g = Sketch::new();
    g.operand(OperandKind::Constant, DataType::Float32, &[1], "c".to_string());
    let reason = g.run().unwrap_err();
    assert!(reason.starts_with("Operand 0 is not a constant: "), "{}", reason);
}

fn zeroed(constant: ConstantReference) -> Sketch {
    let mut g = Sketch::new();
    let c = g.operand(OperandKind::Constant, DataType::Float32, &[2], "c".to_string());
    g.graph.constant_operand_ids_to_handles.insert(c, constant);
    let y = g.result(DataType::Float32, &[2]);
    g.does(OperationKind::Identity, &[c], &[y]);
    g
}

#[test]
fn zeros_come_from_the_map_that_is_given() {
    let g = zeroed(ConstantReference::Zeroed);
    let zeros = [0u8; 16];

    let mut net = Network::new();
    match TrtxConverter::build_network(&g.graph, &mut net, None) {
        Err(HaltOf::Failed(reason)) => assert_eq!(
            reason,
            "Operand 0 is not a constant: An error occurred while using the graph builder API: \
             Failed to get zeroed map memory (offset=0, len=8)"
        ),
        other => panic!("{:?}", other),
    }
    assert_eq!(net.requests.len(), 1);

    let mut net = Network::new();
    match TrtxConverter::build_network(&g.graph, &mut net, Some(&zeros)) {
        Err(HaltOf::Pending) => {}
        other => panic!("{:?}", other),
    }
    assert!(matches!(&net.replies[0], ReplyOf::Bytes(b) if *b == vec![0u8; 8]));
    assert!(matches!(&net.requests[1], RequestOf::AddConstant { .. }));

    let mut net = Network::new();
    match TrtxConverter::build_network(&g.graph, &mut net, Some(&zeros[..4])) {
        Err(HaltOf::Failed(reason)) => assert!(
            reason.ends_with("Failed to get zeroed map memory (offset=0, len=8, map_size=4)"),
            "{}",
            reason
        ),
        other => panic!("{:?}", other),
    }
}

#[test]
fn a_constant_that_is_not_resolved_is_named_as_it_is() {
    let constant = ConstantReference::IdRef(IdRef { id: 7, label: Some("w".to_string()) });
    let g = zeroed(constant);
    match g.graph.constant_data(0, None) {
        Err(Error::GraphBuilderError {
            source: GraphBuilderError::UnresolvedConstant {
                id: 0,
                constant_ref: ConstantReference::IdRef(r),
            },
        }) => {
            assert_eq!(r.id, 7);
            assert_eq!(r.label.as_deref(), Some("w"));
        }
        other => panic!("{:?}", other),
    }
    let mut net = Network::new();
    match TrtxConverter::build_network(&g.graph, &mut net, None) {
        Err(HaltOf::Failed(reason)) => assert!(
            reason.contains("IdRef(IdRef { id: 7, label: Some(\"w\") })"),
            "{}",
            reason
        ),
        other => panic!("{:?}", other),
    }
    assert!(!net.requests.iter().any(|r| matches!(r, RequestOf::MarkOutput { .. })));
}

/// Counts how often it is asked, and gives that many bytes.
struct Counter {
    asked: usize,
}

impl<'a> WeightsContext<'a> for Counter {
    fn allows(
        _: Counter,
        _: &ConstantReference,
        _: &OperandDescriptor,
        _: u32,
        _: Counter,
        _: Result<&'a [u8], Error>,
    ) -> bool {
        unreachable!("no code calls it")
    }

    fn resolve(
        &mut self,
        constant_ref: &'a ConstantReference,
        _descriptor: &OperandDescriptor,
        _id: u32,
    ) -> Result<&'a [u8], Error> {
        self.asked += 1;
        match constant_ref {
            ConstantReference::OwnedData(d) => Ok(&d.data[..self.asked]),
            _ => Err(Error::ContextLost("gone".to_string())),
        }
    }
}

#[test]
fn a_context_is_asked_for_each_constant_in_turn() {
    let mut g = Sketch::new();
    let a = g.constant(DataType::Uint8, &[1], vec![1, 2, 3]);
    let b = g.constant(DataType::Uint8, &[2], vec![4, 5, 6]);
    let y = g.result(DataType::Uint8, &[2]);
    g.does(OperationKind::Add, &[a, b], &[y]);
    let mut machine = Machine::new(&[]);
    let mut net = Network::new();
    let mut context = Counter { asked: 0 };
    while net.replies.len() < 5 {
        match TrtxConverter::build_network_with_weight_context(&g.graph, &mut net, &mut context) {
            Err(HaltOf::Pending) => {}
            other => panic!("{:?}", other),
        }
        let at = net.requests.len() - 1;
        let reply = machine.perform(at, &net);
        net.answer(reply);
        net.rewind(0);
    }
    assert_eq!(context.asked, 2);
    let given: Vec<&Vec<u8>> = net
        .replies
        .iter()
        .filter_map(|r| match r {
            ReplyOf::Bytes(b) => Some(b),
            _ => None,
        })
        .collect();
    assert_eq!(given, [&vec![1], &vec![4, 5]]);
}

#[test]
fn what_cannot_be_converted_is_named() {
    let mut g = Sketch::new();
    let x = g.floats(&[1], &[0.0]);
    let y = g.result(DataType::Float32, &[1]);
    g.does(OperationKind::Other { name: "lstm".to_string() }, &[x], &[y]);
    assert_eq!(g.run().unwrap_err(), "Unsupported operation: lstm");

    let mut g = Sketch::new();
    g.result(DataType::Float32, &[1]);
    assert_eq!(g.run().unwrap_err(), "Output operand 0 not found in tensor map");

    let mut g = Sketch::new();
    let y = g.result(DataType::Float32, &[1]);
    g.does(OperationKind::Relu, &[y], &[y]);
    assert_eq!(g.run().unwrap_err(), "Input operand 0 not found");
}

#[test]
fn an_operation_that_fails_comes_before_one_that_lacks_operands() {
    let mut g = Sketch::new();
    let y = g.result(DataType::Float32, &[1]);
    g.does(OperationKind::Other { name: "gru".to_string() }, &[], &[y]);
    g.does(OperationKind::Add, &[], &[y]);
    assert!(!g.graph.is_well_formed());
    let mut net = Network::new();
    match TrtxConverter::build_network(&g.graph, &mut net, None) {
        Err(HaltOf::Failed(reason)) => assert_eq!(reason, "Unsupported operation: gru"),
        other => panic!("{:?}", other),
    }

    let mut net = Network::new();
    let mut build = Build::new();
    while build.stage != Stage::Operation(0) {
        assert!(build.is_ready(&g.graph));
        build.step(&g.graph, &mut net).unwrap();
    }
    assert!(build.is_ready(&g.graph));
    assert!(build.step(&g.graph, &mut net).is_err());
    build.stage = Stage::Operation(1);
    assert!(!build.is_ready(&g.graph));
}

#[test]
fn inputs_and_outputs_of_the_network_are_those_of_the_graph() {
    let mut g = Sketch::new();
    let x = g.floats(&[2], &[1.0, -2.0]);
    let c = g.float_constant(&[2], &[3.0, 4.0]);
    let y = g.result(DataType::Float32, &[2]);
    let z = g.floats(&[2], &[5.0, 6.0]);
    let w = g.result(DataType::Float32, &[2]);
    g.does(OperationKind::Mul, &[x, c], &[w]);
    g.does(OperationKind::Add, &[x, z], &[y]);
    let (values, net) = g.run_with(Machine::new(&[])).unwrap();
    close(&values[0], &[2], &[6.0, 4.0]);
    close(&values[1], &[2], &[3.0, -8.0]);
    let inputs: Vec<&str> = net
        .requests
        .iter()
        .filter_map(|r| match r {
            RequestOf::AddInput { name, .. } => Some(name.as_str()),
            _ => None,
        })
        .collect();
    assert_eq!(inputs, ["in0", "in3"]);
    let mut outputs = vec![];
    for pair in net.requests.windows(2) {
        if let (RequestOf::SetTensorName { tensor, name }, RequestOf::MarkOutput { tensor: t }) =
            (&pair[0], &pair[1])
        {
            assert_eq!(tensor, t);
            outputs.push(name.as_str());
        }
    }
    assert_eq!(outputs, ["out2", "out4"]);
}

#[test]
fn operations_without_their_operands_are_not_well_formed() {
    let mut g = Sketch::new();
    g.does(OperationKind::Add, &[0], &[1]);
    assert!(!g.graph.is_well_formed());
    g.graph.operations[0].inputs.push(0);
    assert!(g.graph.is_well_formed());
}

#[test]
fn a_refusal_of_the_network_is_passed_on() {
    let mut g = Sketch::new();
    let x = g.floats(&[1], &[0.0]);
    let y = g.result(DataType::Float32, &[1]);
    g.does(OperationKind::Relu, &[x], &[y]);
    let mut net = Network::new();
    net.answer(ReplyOf::Failed("no memory".to_string()));
    match TrtxConverter::build_network(&g.graph, &mut net, None) {
        Err(HaltOf::Failed(reason)) => assert_eq!(reason, "Failed to add input in0: no memory"),
        _ => panic!("the input was refused"),
    }
    assert_eq!(net.requests.len(), 1);
}

#[test]
fn a_conversion_taken_step_by_step_makes_the_same_requests() {
    let mut g = Sketch::new();
    let x = g.floats(&[2], &[1.0, -2.0]);
    let c = g.float_constant(&[2], &[3.0, 4.0]);
    let y = g.result(DataType::Float32, &[2]);
    g.does(OperationKind::Mul, &[x, c], &[y]);
    let (values, whole) = g.run_with(Machine::new(&[])).unwrap();
    close(&values[0], &[2], &[3.0, -8.0]);

    let mut machine = Machine::new(&[("in0", vec![1.0, -2.0])]);
    let mut net = Network::new();
    let mut build = Build::new();
    while build.stage != Stage::Complete {
        let made = net.requests.len();
        match build.step(&g.graph, &mut net) {
            Ok(()) => {}
            Err(HaltOf::Pending) => {
                let at = net.requests.len() - 1;
                let reply = match net.awaited_constant() {
                    Some(id) => ReplyOf::Bytes(g.graph.constant_data(id, None).unwrap().to_vec()),
                    None => machine.perform(at, &net),
                };
                net.answer(reply);
                net.rewind(made);
            }
            Err(other) => panic!("{:?}", other),
        }
    }
    assert_eq!(format!("{:?}", net.requests), format!("{:?}", whole.requests));
}

#[test]
fn dynamic_graphs_are_refused_before_conversion() {
    let mut g = Sketch::new();
    g.floats(&[1], &[0.0]);
    assert!(TrtxConverter::check_convertible(&g.graph).is_ok());
    g.graph.operands[0].descriptor.shape = vec![rustnn::graph::Dimension::Dynamic(
        rustnn::graph::DynamicDimension { name: "n".to_string(), max_size: 3 },
    )];
    let e = TrtxConverter::check_convertible(&g.graph).unwrap_err();
    assert_eq!(
        e.message(),
        "graph conversion failed for trtx: TODO: TRTX converter does not support graphs with \
         dynamic dimensions"
    );
}
