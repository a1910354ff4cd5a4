//! Numbers as bit patterns. The library holds the patterns of `f32` and `f16` values, compares them
//! and lays them out as bytes. Where it needs a whole number, a product of two or a reciprocal as an
//! `f32`, it rounds in integer arithmetic to the pattern that `f32` arithmetic gives.

use crate::data_type::DataType;
use crate::trtx::types::TrtDataType;
use vstd::arithmetic::power2::{lemma_pow2_pos, lemma_pow2_unfold, pow2};
use vstd::prelude::*;

verus! {

/// A number as the bit patterns of the nearest `f32` and of that `f32` rounded to `f16`.
#[derive(Debug, Clone, Copy, PartialEq, Eq, Structural, Hash)]
pub struct Scalar {
    pub single: u32,
    pub half: u16,
}

/// The numbers that conversions are written with.
#[derive(Debug, Clone, Copy, PartialEq, Eq, Structural)]
pub enum Known {
    /// 0.
    Zero,
    /// 0.00001, the usual guard against division by zero.
    DefaultEpsilon,
    /// 0.01.
    OneHundredth,
    /// 0.2.
    OneFifth,
    /// 0.5.
    OneHalf,
    /// 1.
    One,
    /// 3.
    Three,
    /// 6.
    Six,
    /// 7.
    Seven,
    /// 15.
    Fifteen,
    /// 127.
    Int8Max,
    /// 128.
    OneTwentyEight,
    /// 255.
    Uint8Max,
    /// 256.
    TwoFiftySix,
    /// -8.
    MinusEight,
    /// -128.
    Int8Min,
    /// -2147483648. It has no finite `f16`.
    Int32Min,
    /// 2147483647, which rounds to 2147483648. It has no finite `f16`.
    Int32Max,
    /// 4294967295, which rounds to 4294967296. It has no finite `f16`.
    Uint32Max,
    /// Positive infinity.
    Infinity,
    /// Negative infinity.
    NegInfinity,
    /// Not a number.
    Nan,
}

/// The bit patterns of a known number.
pub open spec fn known(k: Known) -> Scalar {
    match k {
        Known::Zero => Scalar { single: 0x0000_0000, half: 0x0000 },
        Known::DefaultEpsilon => Scalar { single: 0x3727_C5AC, half: 0x00A8 },
        Known::OneHundredth => Scalar { single: 0x3C23_D70A, half: 0x211F },
        Known::OneFifth => Scalar { single: 0x3E4C_CCCD, half: 0x3266 },
        Known::OneHalf => Scalar { single: 0x3F00_0000, half: 0x3800 },
        Known::One => Scalar { single: 0x3F80_0000, half: 0x3C00 },
        Known::Three => Scalar { single: 0x4040_0000, half: 0x4200 },
        Known::Six => Scalar { single: 0x40C0_0000, half: 0x4600 },
        Known::Seven => Scalar { single: 0x40E0_0000, half: 0x4700 },
        Known::Fifteen => Scalar { single: 0x4170_0000, half: 0x4B80 },
        Known::Int8Max => Scalar { single: 0x42FE_0000, half: 0x57F0 },
        Known::OneTwentyEight => Scalar { single: 0x4300_0000, half: 0x5800 },
        Known::Uint8Max => Scalar { single: 0x437F_0000, half: 0x5BF8 },
        Known::TwoFiftySix => Scalar { single: 0x4380_0000, half: 0x5C00 },
        Known::MinusEight => Scalar { single: 0xC100_0000, half: 0xC800 },
        Known::Int8Min => Scalar { single: 0xC300_0000, half: 0xD800 },
        Known::Int32Min => Scalar { single: 0xCF00_0000, half: 0xFC00 },
        Known::Int32Max => Scalar { single: 0x4F00_0000, half: 0x7C00 },
        Known::Uint32Max => Scalar { single: 0x4F80_0000, half: 0x7C00 },
        Known::Infinity => Scalar { single: 0x7F80_0000, half: 0x7C00 },
        Known::NegInfinity => Scalar { single: 0xFF80_0000, half: 0xFC00 },
        Known::Nan => Scalar { single: 0x7FC0_0000, half: 0x7E00 },
    }
}

impl Known {
    /// The bit patterns of the number.
    pub fn scalar(self) -> (s: Scalar)
        ensures
            s == known(self),
    {
        match self {
            Known::Zero => Scalar { single: 0x0000_0000, half: 0x0000 },
            Known::DefaultEpsilon => Scalar { single: 0x3727_C5AC, half: 0x00A8 },
            Known::OneHundredth => Scalar { single: 0x3C23_D70A, half: 0x211F },
            Known::OneFifth => Scalar { single: 0x3E4C_CCCD, half: 0x3266 },
            Known::OneHalf => Scalar { single: 0x3F00_0000, half: 0x3800 },
            Known::One => Scalar { single: 0x3F80_0000, half: 0x3C00 },
            Known::Three => Scalar { single: 0x4040_0000, half: 0x4200 },
            Known::Six => Scalar { single: 0x40C0_0000, half: 0x4600 },
            Known::Seven => Scalar { single: 0x40E0_0000, half: 0x4700 },
            Known::Fifteen => Scalar { single: 0x4170_0000, half: 0x4B80 },
            Known::Int8Max => Scalar { single: 0x42FE_0000, half: 0x57F0 },
            Known::OneTwentyEight => Scalar { single: 0x4300_0000, half: 0x5800 },
            Known::Uint8Max => Scalar { single: 0x437F_0000, half: 0x5BF8 },
            Known::TwoFiftySix => Scalar { single: 0x4380_0000, half: 0x5C00 },
            Known::MinusEight => Scalar { single: 0xC100_0000, half: 0xC800 },
            Known::Int8Min => Scalar { single: 0xC300_0000, half: 0xD800 },
            Known::Int32Min => Scalar { single: 0xCF00_0000, half: 0xFC00 },
            Known::Int32Max => Scalar { single: 0x4F00_0000, half: 0x7C00 },
            Known::Uint32Max => Scalar { single: 0x4F80_0000, half: 0x7C00 },
            Known::Infinity => Scalar { single: 0x7F80_0000, half: 0x7C00 },
            Known::NegInfinity => Scalar { single: 0xFF80_0000, half: 0xFC00 },
            Known::Nan => Scalar { single: 0x7FC0_0000, half: 0x7E00 },
        }
    }
}

/// The pattern of the absolute value.
pub open spec fn magnitude(bits: u32) -> u32 {
    if bits >= 0x8000_0000 {
        (bits - 0x8000_0000) as u32
    } else {
        bits
    }
}

/// Whether the pattern is one of a value that is not a number.
pub open spec fn is_nan(bits: u32) -> bool {
    magnitude(bits) > 0x7F80_0000
}

/// Whether the pattern lies from `lo` to `hi`.
pub open spec fn within(bits: u32, lo: u32, hi: u32) -> bool {
    lo <= bits <= hi
}

/// Whether the value lies within `f32::EPSILON` of 1.
pub open spec fn near_one(bits: u32) -> bool {
    within(bits, 0x3F7F_FFFE, 0x3F80_0001)
}

/// Whether the value lies within one millionth of 1.
pub open spec fn roughly_one(bits: u32) -> bool {
    within(bits, 0x3F7F_FFF0, 0x3F80_0008)
}

/// Whether the value lies within one hundred-thousandth of 0.2.
pub open spec fn roughly_one_fifth(bits: u32) -> bool {
    within(bits, 0x3E4C_CA2E, 0x3E4C_CF6C)
}

/// Whether the value lies within one hundred-thousandth of 0.5.
pub open spec fn roughly_one_half(bits: u32) -> bool {
    within(bits, 0x3EFF_FEB1, 0x3F00_00A7)
}

/// Whether the absolute value is a number above the value with the pattern `bound`.
pub open spec fn exceeds(bits: u32, bound: u32) -> bool {
    magnitude(bits) > bound && !is_nan(bits)
}

/// The pattern of `f32::EPSILON`.
pub const SINGLE_EPSILON: u32 = 0x3400_0000;

/// The pattern of one millionth.
pub const ONE_MILLIONTH: u32 = 0x3586_37BD;

/// The pattern of the absolute value.
pub fn magnitude_of(bits: u32) -> (m: u32)
    ensures
        m == magnitude(bits),
{
    if bits >= 0x8000_0000 {
        bits - 0x8000_0000
    } else {
        bits
    }
}

/// Whether the pattern is one of a value that is not a number.
pub fn is_nan_bits(bits: u32) -> (b: bool)
    ensures
        b == is_nan(bits),
{
    magnitude_of(bits) > 0x7F80_0000
}

/// Whether the value lies within `f32::EPSILON` of 1.
pub fn is_near_one(bits: u32) -> (b: bool)
    ensures
        b == near_one(bits),
{
    0x3F7F_FFFE <= bits && bits <= 0x3F80_0001
}

/// Whether the value lies within one millionth of 1.
pub fn is_roughly_one(bits: u32) -> (b: bool)
    ensures
        b == roughly_one(bits),
{
    0x3F7F_FFF0 <= bits && bits <= 0x3F80_0008
}

/// Whether the value lies within one hundred-thousandth of 0.2.
pub fn is_roughly_one_fifth(bits: u32) -> (b: bool)
    ensures
        b == roughly_one_fifth(bits),
{
    0x3E4C_CA2E <= bits && bits <= 0x3E4C_CF6C
}

/// Whether the value lies within one hundred-thousandth of 0.5.
pub fn is_roughly_one_half(bits: u32) -> (b: bool)
    ensures
        b == roughly_one_half(bits),
{
    0x3EFF_FEB1 <= bits && bits <= 0x3F00_00A7
}

/// Whether the absolute value is a number above the value with the pattern `bound`.
pub fn is_above(bits: u32, bound: u32) -> (b: bool)
    ensures
        b == exceeds(bits, bound),
{
    magnitude_of(bits) > bound && !is_nan_bits(bits)
}

/// The bytes of a 16-bit pattern, least significant first.
pub open spec fn le2(x: u16) -> Seq<u8> {
    seq![(x % 256) as u8, (x / 256) as u8]
}

/// The bytes of a 32-bit pattern, least significant first.
pub open spec fn le4(x: u32) -> Seq<u8> {
    seq![
        (x % 256) as u8,
        (x / 256 % 256) as u8,
        (x / 65536 % 256) as u8,
        (x / 16777216) as u8,
    ]
}

/// The bytes of a 64-bit pattern, least significant first.
pub open spec fn le8(x: u64) -> Seq<u8> {
    le4((x % 4294967296) as u32) + le4((x / 4294967296) as u32)
}

/// The bytes of a 16-bit pattern, least significant first.
pub fn le2_bytes(x: u16) -> (b: Vec<u8>)
    ensures
        b@ == le2(x),
{
    let mut b: Vec<u8> = Vec::with_capacity(2);
    b.push((x % 256) as u8);
    b.push((x / 256) as u8);
    assert(b@ =~= le2(x));
    b
}

/// The bytes of a 32-bit pattern, least significant first.
pub fn le4_bytes(x: u32) -> (b: Vec<u8>)
    ensures
        b@ == le4(x),
{
    let mut b: Vec<u8> = Vec::with_capacity(4);
    b.push((x % 256) as u8);
    b.push((x / 256 % 256) as u8);
    b.push((x / 65536 % 256) as u8);
    b.push((x / 16777216) as u8);
    assert(b@ =~= le4(x));
    b
}

/// The bytes of a 64-bit pattern, least significant first.
pub fn le8_bytes(x: u64) -> (b: Vec<u8>)
    ensures
        b@ == le8(x),
{
    let mut b = le4_bytes((x % 4294967296) as u32);
    let mut high = le4_bytes((x / 4294967296) as u32);
    b.append(&mut high);
    b
}

/// `unit`, `n` times over.
pub open spec fn repeated(unit: Seq<u8>, n: nat) -> Seq<u8>
    decreases n,
{
    if n == 0 {
        seq![]
    } else {
        repeated(unit, (n - 1) as nat) + unit
    }
}

/// Appends a copy of `unit` to `out`.
pub fn extend_bytes(out: &mut Vec<u8>, unit: &Vec<u8>)
    ensures
        final(out)@ == old(out)@ + unit@,
{
    let ghost start = out@;
    let mut i: usize = 0;
    while i < unit.len()
        invariant
            i <= unit.len(),
            out@ == start + unit@.take(i as int),
        decreases unit.len() - i,
    {
        out.push(unit[i]);
        proof {
            assert(start + unit@.take(i + 1) =~= (start + unit@.take(i as int)).push(
                unit@[i as int],
            ));
        }
        i = i + 1;
    }
    proof {
        assert(unit@.take(unit@.len() as int) =~= unit@);
    }
}

/// `unit`, `n` times over.
pub fn repeat_bytes(unit: &Vec<u8>, n: usize) -> (b: Vec<u8>)
    ensures
        b@ == repeated(unit@, n as nat),
{
    let mut b: Vec<u8> = Vec::new();
    let mut i: usize = 0;
    while i < n
        invariant
            i <= n,
            b@ == repeated(unit@, i as nat),
        decreases n - i,
    {
        extend_bytes(&mut b, unit);
        i = i + 1;
    }
    b
}

/// The bytes of `s` as an element of a float tensor of type `t`: the half pattern for `Float16`,
/// the single pattern for every other type.
pub open spec fn float_bytes(s: Scalar, t: DataType) -> Seq<u8> {
    if t == DataType::Float16 {
        le2(s.half)
    } else {
        le4(s.single)
    }
}

/// The TensorRT type that goes with `float_bytes`.
pub open spec fn float_type(t: DataType) -> TrtDataType {
    if t == DataType::Float16 {
        TrtDataType::kHALF
    } else {
        TrtDataType::kFLOAT
    }
}

/// The bytes of `s` as an element of a float tensor of type `t`.
pub fn float_bytes_of(s: Scalar, t: DataType) -> (b: Vec<u8>)
    ensures
        b@ == float_bytes(s, t),
{
    if t == DataType::Float16 {
        le2_bytes(s.half)
    } else {
        le4_bytes(s.single)
    }
}

/// The TensorRT type that goes with `float_bytes_of`.
pub fn float_type_of(t: DataType) -> (r: TrtDataType)
    ensures
        r == float_type(t),
{
    if t == DataType::Float16 {
        TrtDataType::kHALF
    } else {
        TrtDataType::kFLOAT
    }
}

/// The largest exponent whose power of two is not above `x`; 0 for 0.
pub open spec fn log2_floor(x: nat) -> nat
    decreases x,
{
    if x <= 1 {
        0
    } else {
        1 + log2_floor(x / 2)
    }
}

/// The 24 bits with which an `f32` holds the whole number `x`: its leading bits, rounded to the
/// nearest and, halfway, to the even one.
pub open spec fn significand(x: nat) -> nat {
    let e = log2_floor(x);
    if e <= 23 {
        x * pow2((23 - e) as nat)
    } else {
        let unit = pow2((e - 23) as nat);
        let q = x / unit;
        let r = x % unit;
        if 2 * r > unit || (2 * r == unit && q % 2 == 1) {
            q + 1
        } else {
            q
        }
    }
}

/// The whole number that `x` is rounded to when it is held as an `f32`.
pub open spec fn rounded_whole(x: nat) -> nat {
    let e = log2_floor(x);
    if e <= 23 {
        x
    } else {
        significand(x) * pow2((e - 23) as nat)
    }
}

/// The pattern of the `f32` that is nearest to the whole number `x`.
pub open spec fn whole_bits(x: nat) -> u32 {
    if x == 0 {
        0
    } else {
        ((126 + log2_floor(x)) * 0x80_0000 + significand(x)) as u32
    }
}

/// The pattern of the product of two whole numbers, each held as an `f32` and multiplied as such.
pub open spec fn product_bits(a: nat, b: nat) -> u32 {
    whole_bits(rounded_whole(a) * rounded_whole(b))
}

/// The exponent of `x` brackets it between two powers of two.
pub proof fn log2_brackets(x: nat)
    requires
        x > 0,
    ensures
        pow2(log2_floor(x)) <= x < 2 * pow2(log2_floor(x)),
    decreases x,
{
    if x <= 1 {
        vstd::arithmetic::power2::lemma2_to64();
    } else {
        log2_brackets(x / 2);
        lemma_pow2_unfold(log2_floor(x));
    }
}

/// Rounding a whole number to an `f32` moves it by at most half the distance of its neighbours.
pub proof fn rounding_is_nearest(x: nat)
    requires
        log2_floor(x) > 23,
    ensures
        2 * (rounded_whole(x) - x) <= pow2((log2_floor(x) - 23) as nat),
        2 * (x - rounded_whole(x)) <= pow2((log2_floor(x) - 23) as nat),
{
    let unit = pow2((log2_floor(x) - 23) as nat);
    lemma_pow2_pos((log2_floor(x) - 23) as nat);
    let q = x / unit;
    let r = x % unit;
    vstd::arithmetic::div_mod::lemma_fundamental_div_mod(x as int, unit as int);
    assert(x == q * unit + r) by (nonlinear_arith)
        requires
            x == unit * q + r,
    ;
    assert((q + 1) * unit == q * unit + unit) by (nonlinear_arith);
}

/// The exponent and its power of two.
fn power_below(x: u128) -> (r: (u32, u128))
    requires
        0 < x <= 0x1_0000_0000_0000_0000,
    ensures
        r.0 == log2_floor(x as nat),
        r.1 == pow2(r.0 as nat),
        r.0 <= 64,
{
    let mut e: u32 = 0;
    let mut p: u128 = 1;
    let mut rest: u128 = x;
    proof {
        vstd::arithmetic::power2::lemma2_to64();
        log2_brackets(x as nat);
        if log2_floor(x as nat) > 64 {
            vstd::arithmetic::power2::lemma_pow2_strictly_increases(
                64,
                log2_floor(x as nat),
            );
        }
    }
    while rest > 1
        invariant
            log2_floor(x as nat) == e + log2_floor(rest as nat),
            log2_floor(x as nat) <= 64,
            p == pow2(e as nat),
            e <= 64,
            p <= 0x1_0000_0000_0000_0000,
            rest >= 1,
        decreases rest,
    {
        proof {
            lemma_pow2_unfold((e + 1) as nat);
            vstd::arithmetic::power2::lemma2_to64();
            if e + 1 < 64 {
                vstd::arithmetic::power2::lemma_pow2_strictly_increases((e + 1) as nat, 64);
            }
        }
        rest = rest / 2;
        e = e + 1;
        p = p * 2;
    }
    (e, p)
}

/// The power of two with the given exponent.
fn power(e: u32) -> (p: u128)
    requires
        e <= 64,
    ensures
        p == pow2(e as nat),
        1 <= p <= 0x1_0000_0000_0000_0000,
{
    let mut i: u32 = 0;
    let mut p: u128 = 1;
    proof {
        vstd::arithmetic::power2::lemma2_to64();
    }
    while i < e
        invariant
            i <= e <= 64,
            p == pow2(i as nat),
            1 <= p <= 0x1_0000_0000_0000_0000,
        decreases e - i,
    {
        proof {
            lemma_pow2_unfold((i + 1) as nat);
            vstd::arithmetic::power2::lemma2_to64();
            if i + 1 < 64 {
                vstd::arithmetic::power2::lemma_pow2_strictly_increases((i + 1) as nat, 64);
            }
        }
        p = p * 2;
        i = i + 1;
    }
    p
}

/// The 24 bits of `x`, and the power of two that they count.
fn significand_of(x: u128) -> (r: (u32, u128, u128))
    requires
        0 < x <= 0x1_0000_0000_0000_0000,
    ensures
        r.0 == log2_floor(x as nat),
        r.0 <= 64,
        r.1 == significand(x as nat),
        0x80_0000 <= r.1 <= 0x100_0000,
        r.2 == rounded_whole(x as nat),
        r.2 <= 0x1_0000_0000_0000_0000,
{
    let (e, p): (u32, u128) = power_below(x);
    proof {
        log2_brackets(x as nat);
        vstd::arithmetic::power2::lemma2_to64();
    }
    if e <= 23 {
        let scale: u128 = power(23 - e);
        proof {
            vstd::arithmetic::power2::lemma_pow2_adds((23 - e) as nat, e as nat);
            assert(x * scale >= p * scale && x * scale < 2 * p * scale) by (nonlinear_arith)
                requires
                    p <= x < 2 * p,
                    scale >= 1,
            ;
            assert(p * scale == pow2(23)) by (nonlinear_arith)
                requires
                    p == pow2(e as nat),
                    scale == pow2((23 - e) as nat),
                    pow2((23 - e) as nat) * pow2(e as nat) == pow2(23),
            ;
            assert(2 * p * scale == 2 * (p * scale)) by (nonlinear_arith);
        }
        (e, x * scale, x)
    } else {
        let unit: u128 = power(e - 23);
        let q: u128 = x / unit;
        let r: u128 = x % unit;
        proof {
            vstd::arithmetic::power2::lemma_pow2_adds((e - 23) as nat, 23);
            vstd::arithmetic::div_mod::lemma_fundamental_div_mod(x as int, unit as int);
            assert(0x80_0000 <= q < 0x100_0000) by (nonlinear_arith)
                requires
                    unit * 0x80_0000 <= x < 2 * (unit * 0x80_0000),
                    x == unit * q + r,
                    0 <= r < unit,
            ;
        }
        let m: u128 = if 2 * r > unit || (2 * r == unit && q % 2 == 1) {
            q + 1
        } else {
            q
        };
        proof {
            assert(m * unit <= 0x1_0000_0000_0000_0000) by {
                rounding_fits(x as int, unit as int, q as int, r as int, m as int, e as nat);
            }
        }
        (e, m, m * unit)
    }
}

/// A number up to 2 to the 64 rounds to one up to 2 to the 64.
proof fn rounding_fits(x: int, unit: int, q: int, r: int, m: int, e: nat)
    requires
        23 < e <= 64,
        unit == pow2((e - 23) as nat),
        x <= 0x1_0000_0000_0000_0000,
        x == unit * q + r,
        0 <= r < unit,
        q < 0x100_0000,
        m == q || m == q + 1,
        pow2(e) <= x,
        2 * r > unit || 2 * r == unit || m == q,
    ensures
        m * unit <= 0x1_0000_0000_0000_0000,
{
    vstd::arithmetic::power2::lemma2_to64();
    if e == 64 {
        assert(x == pow2(64));
        vstd::arithmetic::power2::lemma_pow2_adds(41, 23);
        assert(unit * 0x80_0000 == x) by (nonlinear_arith)
            requires
                pow2(41) * pow2(23) == pow2(64),
                unit == pow2(41),
                pow2(23) == 0x80_0000,
                x == pow2(64),
        ;
        vstd::arithmetic::div_mod::lemma_fundamental_div_mod_converse(x, unit, q, r);
        vstd::arithmetic::div_mod::lemma_fundamental_div_mod_converse(x, unit, 0x80_0000, 0);
        assert(m * unit == x) by (nonlinear_arith)
            requires
                m == 0x80_0000,
                unit * 0x80_0000 == x,
        ;
    } else {
        vstd::arithmetic::power2::lemma_pow2_adds((e - 23) as nat, 24);
        if e + 1 < 64 {
            vstd::arithmetic::power2::lemma_pow2_strictly_increases((e + 1) as nat, 64);
        }
        assert(m * unit <= unit * 0x100_0000) by (nonlinear_arith)
            requires
                m <= 0x100_0000,
                unit >= 0,
        ;
    }
}

/// The pattern of the `f32` that is nearest to `x`.
fn whole_bits_of(x: u128) -> (bits: u32)
    requires
        x <= 0x1_0000_0000_0000_0000,
    ensures
        bits == whole_bits(x as nat),
{
    if x == 0 {
        0
    } else {
        let (e, m, _): (u32, u128, u128) = significand_of(x);
        (126 + e) * 0x80_0000 + m as u32
    }
}

/// The pattern of the product of two whole numbers, each held as an `f32`.
pub fn product_bits_of(a: u32, b: u32) -> (bits: u32)
    ensures
        bits == product_bits(a as nat, b as nat),
{
    let x: u128 = rounded_whole_of(a);
    let y: u128 = rounded_whole_of(b);
    proof {
        assert(x * y <= 0x1_0000_0000_0000_0000) by (nonlinear_arith)
            requires
                0 <= x <= 0x1_0000_0000,
                0 <= y <= 0x1_0000_0000,
        ;
    }
    whole_bits_of(x * y)
}

/// The whole number that `x` is rounded to when it is held as an `f32`.
fn rounded_whole_of(x: u32) -> (r: u128)
    ensures
        r == rounded_whole(x as nat),
        r <= 0x1_0000_0000,
{
    if x == 0 {
        0
    } else {
        let (e, m, whole): (u32, u128, u128) = significand_of(x as u128);
        proof {
            log2_brackets(x as nat);
            vstd::arithmetic::power2::lemma2_to64();
            if e >= 32 {
                if e > 32 {
                    vstd::arithmetic::power2::lemma_pow2_strictly_increases(32, e as nat);
                }
                assert(false);
            }
            if e > 23 {
                vstd::arithmetic::power2::lemma_pow2_adds((e - 23) as nat, 24);
                if e + 1 < 32 {
                    vstd::arithmetic::power2::lemma_pow2_strictly_increases((e + 1) as nat, 32);
                }
                assert(m * pow2((e - 23) as nat) <= pow2((e - 23) as nat) * 0x100_0000)
                    by (nonlinear_arith)
                    requires
                        m <= 0x100_0000,
                ;
            }
        }
        whole
    }
}

/// The 24 bits of the `f32` that is nearest to 1 divided by `n`, which is no power of two.
pub open spec fn reciprocal_significand(n: nat) -> nat {
    (2 * pow2(24 + log2_floor(n)) + n) / (2 * n)
}

/// The pattern of the `f32` that is nearest to 1 divided by `n`.
pub open spec fn reciprocal_bits(n: nat) -> u32 {
    let e = log2_floor(n);
    if n == pow2(e) {
        ((127 - e) * 0x80_0000) as u32
    } else {
        ((125 - e) * 0x80_0000 + reciprocal_significand(n)) as u32
    }
}

/// The 24 bits of a reciprocal are those of the nearest `f32`: they miss it by at most half of
/// their last one.
pub proof fn reciprocal_is_nearest(n: nat)
    requires
        n > 0,
    ensures
        2 * (reciprocal_significand(n) * n - pow2(24 + log2_floor(n))) <= n,
        2 * (pow2(24 + log2_floor(n)) - reciprocal_significand(n) * n) <= n,
{
    let p = pow2(24 + log2_floor(n));
    let m = reciprocal_significand(n);
    vstd::arithmetic::div_mod::lemma_fundamental_div_mod((2 * p + n) as int, (2 * n) as int);
    let r = (2 * p + n) % (2 * n);
    assert(2 * (m * n) == (2 * n) * m) by (nonlinear_arith);
}

/// The pattern of the `f32` that is nearest to 1 divided by `n`.
pub fn reciprocal_bits_of(n: u32) -> (bits: u32)
    requires
        0 < n <= 0x1000,
    ensures
        bits == reciprocal_bits(n as nat),
{
    let (e, p): (u32, u128) = power_below(n as u128);
    proof {
        log2_brackets(n as nat);
        vstd::arithmetic::power2::lemma2_to64();
        if e > 12 {
            vstd::arithmetic::power2::lemma_pow2_strictly_increases(12, e as nat);
        }
    }
    if n as u128 == p {
        (127 - e) * 0x80_0000
    } else {
        let top: u128 = power(24 + e);
        let m: u128 = (2 * top + n as u128) / (2 * n as u128);
        proof {
            vstd::arithmetic::power2::lemma_pow2_adds(24, e as nat);
            vstd::arithmetic::div_mod::lemma_fundamental_div_mod(
                (2 * top + n) as int,
                (2 * n) as int,
            );
            let r = (2 * top + n) % (2 * n as int);
            assert(m <= 0x200_0000) by (nonlinear_arith)
                requires
                    2 * top + n == (2 * n) * m + r,
                    r >= 0,
                    top == 0x100_0000 * p,
                    p <= n,
                    n > 0,
            ;
        }
        (125 - e) * 0x80_0000 + m as u32
    }
}

} // verus!
