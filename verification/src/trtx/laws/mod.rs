//! What each kind of operation does to a network, stated on its operands and the fields of its
//! options.

pub mod arrange;
pub mod conv;
pub mod elementwise;
pub mod instance;
pub mod kinds;
pub mod matrix;
pub mod network;
pub mod normalization;
pub mod pool;
pub mod quantize;
pub mod reduce;
pub mod resize;
pub mod select;
pub mod words;
