//! WebNN graphs: the graph types, their limits and errors, and the conversion of a graph into a
//! TensorRT network.

pub mod data_type;
pub mod digest;
pub mod error;
pub mod graph;
pub mod limits;
pub mod operator_options;
pub mod operators;
pub mod scalar;
pub mod text;
pub mod trtx;

pub use error::GraphError;
pub use graph::{ConstantData, DataType, GraphInfo, Operand, OperandDescriptor, OperandKind};
pub use operators::Operation;
