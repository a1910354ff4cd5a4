//! The numbers that options hold, as the conversion reads them.

use crate::operator_options::{FloatReading, MLNumber};
use crate::scalar::{known, Known};
use crate::text::{
    ascii_lowercase, drop_trailing, parse_u64, same_ignoring_case, same_text, trim, trimmed,
    u64_value, without_trailing,
};
use crate::trtx::TrtxConverter;
use vstd::prelude::*;

verus! {

/// How 0, an infinity or a value that is not a number is read.
pub open spec fn special(k: Known) -> FloatReading {
    match k {
        Known::Infinity => FloatReading {
            bits: known(k),
            to_i8: i8::MAX,
            to_u8: u8::MAX,
            to_i32: i32::MAX,
            to_i64: i64::MAX,
        },
        Known::NegInfinity => FloatReading {
            bits: known(k),
            to_i8: i8::MIN,
            to_u8: 0,
            to_i32: i32::MIN,
            to_i64: i64::MIN,
        },
        _ => FloatReading { bits: known(k), to_i8: 0, to_u8: 0, to_i32: 0, to_i64: 0 },
    }
}

/// How 0, an infinity or a value that is not a number is read.
pub fn special_reading(k: Known) -> (r: FloatReading)
    ensures
        r == special(k),
{
    match k {
        Known::Infinity => FloatReading {
            bits: k.scalar(),
            to_i8: i8::MAX,
            to_u8: u8::MAX,
            to_i32: i32::MAX,
            to_i64: i64::MAX,
        },
        Known::NegInfinity => FloatReading {
            bits: k.scalar(),
            to_i8: i8::MIN,
            to_u8: 0,
            to_i32: i32::MIN,
            to_i64: i64::MIN,
        },
        _ => FloatReading { bits: k.scalar(), to_i8: 0, to_u8: 0, to_i32: 0, to_i64: 0 },
    }
}

/// The value that a word names, whatever the case of its letters.
pub open spec fn named_value(s: Seq<char>) -> Option<Known> {
    let word = ascii_lowercase(s);
    if word == "nan"@ {
        Some(Known::Nan)
    } else if word == "infinity"@ || word == "+infinity"@ || word == "inf"@ || word == "+inf"@ {
        Some(Known::Infinity)
    } else if word == "-infinity"@ || word == "-inf"@ {
        Some(Known::NegInfinity)
    } else {
        None
    }
}

fn named_value_of(s: &str) -> (r: Option<Known>)
    ensures
        r == named_value(s@),
{
    if same_ignoring_case(s, "nan") {
        Some(Known::Nan)
    } else if same_ignoring_case(s, "infinity") || same_ignoring_case(s, "+infinity")
        || same_ignoring_case(s, "inf") || same_ignoring_case(s, "+inf") {
        Some(Known::Infinity)
    } else if same_ignoring_case(s, "-infinity") || same_ignoring_case(s, "-inf") {
        Some(Known::NegInfinity)
    } else {
        None
    }
}

/// A number that a tensor is padded with: a number, the name of a special value, or a text that
/// spells a number.
pub open spec fn pad_number(v: MLNumber) -> Option<FloatReading> {
    match v {
        MLNumber::Unsigned { reading, .. } => Some(reading),
        MLNumber::Negative { reading, .. } => Some(reading),
        MLNumber::Float { reading, .. } => Some(reading),
        MLNumber::Text { text, number } => match named_value(trimmed(text@)) {
            Some(k) => Some(special(k)),
            None => number,
        },
        MLNumber::Other => None,
    }
}

/// The bound of a clamp as a floating-point value: a number, or the exact name of a special value.
pub open spec fn bound_reading(v: MLNumber) -> Option<FloatReading> {
    match v {
        MLNumber::Unsigned { reading, .. } => Some(reading),
        MLNumber::Negative { reading, .. } => Some(reading),
        MLNumber::Float { reading, .. } => Some(reading),
        MLNumber::Text { text, .. } => if text@ == "Infinity"@ {
            Some(special(Known::Infinity))
        } else if text@ == "-Infinity"@ {
            Some(special(Known::NegInfinity))
        } else if text@ == "NaN"@ {
            Some(special(Known::Nan))
        } else {
            None
        },
        MLNumber::Other => None,
    }
}

/// The bound of a clamp as an `i64`. An integer past its range keeps its low bits.
pub open spec fn bound_i64(v: MLNumber) -> Option<i64> {
    match v {
        MLNumber::Unsigned { value, .. } => Some(value as i64),
        MLNumber::Negative { value, .. } => Some(value),
        MLNumber::Float { truncated_i64, .. } => truncated_i64,
        _ => None,
    }
}

/// The bound of a clamp as a `u64`. A text may spell it, with letters `n` after it.
pub open spec fn bound_u64(v: MLNumber) -> Option<u64> {
    match v {
        MLNumber::Unsigned { value, .. } => Some(value),
        MLNumber::Float { truncated_u64, .. } => truncated_u64,
        MLNumber::Text { text, .. } => u64_value(trimmed(without_trailing(text@, 'n'))),
        _ => None,
    }
}

impl TrtxConverter {
    /// The number that a tensor is padded with, where `v` gives one.
    pub fn pad_mlnumber_to_f32(v: &MLNumber) -> (r: Option<FloatReading>)
        ensures
            r == pad_number(*v),
    {
        match v {
            MLNumber::Unsigned { reading, .. } => Some(*reading),
            MLNumber::Negative { reading, .. } => Some(*reading),
            MLNumber::Float { reading, .. } => Some(*reading),
            MLNumber::Text { text, number } => match named_value_of(trim(text.as_str())) {
                Some(k) => Some(special_reading(k)),
                None => *number,
            },
            MLNumber::Other => None,
        }
    }

    /// The bound of a clamp as a floating-point value.
    pub fn parse_clamp_bound_f32(v: &MLNumber) -> (r: Option<FloatReading>)
        ensures
            r == bound_reading(*v),
    {
        match v {
            MLNumber::Unsigned { reading, .. } => Some(*reading),
            MLNumber::Negative { reading, .. } => Some(*reading),
            MLNumber::Float { reading, .. } => Some(*reading),
            MLNumber::Text { text, .. } => if same_text(text.as_str(), "Infinity") {
                Some(special_reading(Known::Infinity))
            } else if same_text(text.as_str(), "-Infinity") {
                Some(special_reading(Known::NegInfinity))
            } else if same_text(text.as_str(), "NaN") {
                Some(special_reading(Known::Nan))
            } else {
                None
            },
            MLNumber::Other => None,
        }
    }

    /// The bound of a clamp as an `i64`.
    pub fn parse_i64(v: &MLNumber) -> (r: Option<i64>)
        ensures
            r == bound_i64(*v),
    {
        match v {
            MLNumber::Unsigned { value, .. } => Some(*value as i64),
            MLNumber::Negative { value, .. } => Some(*value),
            MLNumber::Float { truncated_i64, .. } => *truncated_i64,
            _ => None,
        }
    }

    /// The bound of a clamp as a `u64`.
    pub fn parse_u64(v: &MLNumber) -> (r: Option<u64>)
        ensures
            r == bound_u64(*v),
    {
        match v {
            MLNumber::Unsigned { value, .. } => Some(*value),
            MLNumber::Float { truncated_u64, .. } => *truncated_u64,
            MLNumber::Text { text, .. } => parse_u64(trim(drop_trailing(text.as_str(), 'n'))),
            _ => None,
        }
    }
}

} // verus!
