//! Holds the bit patterns against the floating-point numbers of the machine.

use rustnn::graph::DataType;
use rustnn::operator_options::{FloatReading, MLNumber};
use rustnn::scalar::{
    float_bytes_of, is_above, is_nan_bits, is_near_one, is_roughly_one, is_roughly_one_fifth,
    is_roughly_one_half, magnitude_of, product_bits_of, reciprocal_bits_of, repeat_bytes, Known,
    Scalar, ONE_MILLIONTH, SINGLE_EPSILON,
};
use rustnn::trtx::TrtxConverter;

#[test]
fn known_numbers_have_their_patterns() {
    let table: [(Known, f32); 21] = [
        (Known::Zero, 0.0),
        (Known::DefaultEpsilon, 1e-5),
        (Known::OneHundredth, 0.01),
        (Known::OneFifth, 0.2),
        (Known::OneHalf, 0.5),
        (Known::One, 1.0),
        (Known::Three, 3.0),
        (Known::Six, 6.0),
        (Known::Seven, 7.0),
        (Known::Fifteen, 15.0),
        (Known::Int8Max, 127.0),
        (Known::OneTwentyEight, 128.0),
        (Known::Uint8Max, 255.0),
        (Known::TwoFiftySix, 256.0),
        (Known::MinusEight, -8.0),
        (Known::Int8Min, -128.0),
        (Known::Int32Min, i32::MIN as f32),
        (Known::Int32Max, i32::MAX as f32),
        (Known::Uint32Max, u32::MAX as f32),
        (Known::Infinity, f32::INFINITY),
        (Known::NegInfinity, f32::NEG_INFINITY),
    ];
    for (k, x) in table {
        let s = k.scalar();
        assert_eq!(s.single, x.to_bits(), "{:?}", k);
        assert_eq!(s.half, half::f16::from_f32(x).to_bits(), "{:?}", k);
    }
    assert!(f32::from_bits(Known::Nan.scalar().single).is_nan());
    assert!(half::f16::from_bits(Known::Nan.scalar().half).is_nan());
}

fn around(x: f32, steps: u32) -> impl Iterator<Item = u32> {
    x.to_bits() - steps..x.to_bits() + steps
}

#[test]
fn closeness_is_that_of_the_numbers() {
    for b in around(1.0, 100) {
        let x = f32::from_bits(b);
        assert_eq!(is_near_one(b), (x - 1.0).abs() <= f32::EPSILON);
        assert_eq!(is_roughly_one(b), !((x - 1.0).abs() > 1e-6));
    }
    for b in around(0.2, 2000) {
        assert_eq!(is_roughly_one_fifth(b), (f32::from_bits(b) - 0.2).abs() <= 1e-5);
    }
    for b in around(0.5, 2000) {
        assert_eq!(is_roughly_one_half(b), (f32::from_bits(b) - 0.5).abs() <= 1e-5);
    }
    for x in [0.0, -0.0, 2.0, -1.0, 0.2, 0.5, f32::INFINITY, f32::NAN, f32::MIN_POSITIVE] {
        let b = x.to_bits();
        assert_eq!(is_near_one(b), (x - 1.0).abs() <= f32::EPSILON);
        assert_eq!(is_roughly_one_fifth(b), (x - 0.2).abs() <= 1e-5);
        assert_eq!(is_roughly_one_half(b), (x - 0.5).abs() <= 1e-5);
    }
}

#[test]
fn magnitudes_are_compared_as_numbers() {
    assert_eq!(SINGLE_EPSILON, f32::EPSILON.to_bits());
    assert_eq!(ONE_MILLIONTH, 1e-6f32.to_bits());
    let values = [
        0.0,
        -0.0,
        1e-6,
        -1e-6,
        2e-6,
        -2e-6,
        f32::EPSILON,
        -f32::EPSILON,
        1.0,
        -1.0,
        f32::INFINITY,
        f32::NEG_INFINITY,
        f32::NAN,
        -f32::NAN,
    ];
    for x in values {
        let b = x.to_bits();
        assert_eq!(is_above(b, SINGLE_EPSILON), x.abs() > f32::EPSILON);
        assert_eq!(is_above(b, ONE_MILLIONTH), x.abs() > 1e-6);
        assert_eq!(is_nan_bits(b), x.is_nan());
        assert_eq!(magnitude_of(b), x.abs().to_bits());
    }
}

#[test]
fn products_of_whole_numbers_are_rounded_once() {
    let values =
        [0, 1, 2, 3, 7, 4096, 4097, 16_777_215, 16_777_217, 33_554_433, 2_147_483_649, u32::MAX];
    for a in values {
        for b in values {
            assert_eq!(product_bits_of(a, b), (a as f32 * b as f32).to_bits(), "{} * {}", a, b);
        }
    }
}

#[test]
fn reciprocals_are_the_nearest() {
    for n in 1..=0x1000u32 {
        assert_eq!(reciprocal_bits_of(n), (1.0f32 / n as f32).to_bits(), "1 / {}", n);
    }
}

#[test]
fn numbers_are_laid_out_in_their_type() {
    let s = Scalar { single: 1.5f32.to_bits(), half: half::f16::from_f32(1.5).to_bits() };
    assert_eq!(float_bytes_of(s, DataType::Float32), 1.5f32.to_le_bytes());
    assert_eq!(float_bytes_of(s, DataType::Float16), half::f16::from_f32(1.5).to_le_bytes());
    assert_eq!(repeat_bytes(&vec![1, 2], 3), [1, 2, 1, 2, 1, 2]);
    assert!(repeat_bytes(&vec![1, 2], 0).is_empty());
}

fn reading(x: f32) -> FloatReading {
    FloatReading {
        bits: Scalar { single: x.to_bits(), half: half::f16::from_f32(x).to_bits() },
        to_i8: x as i8,
        to_u8: x as u8,
        to_i32: x as i32,
        to_i64: x as i64,
    }
}

fn text(s: &str, number: Option<FloatReading>) -> MLNumber {
    MLNumber::Text { text: s.to_string(), number }
}

#[test]
fn padding_takes_numbers_and_special_words() {
    let infinity = Some(reading(f32::INFINITY));
    for word in ["Infinity", " +INF ", "inf", "+infinity"] {
        assert_eq!(TrtxConverter::pad_mlnumber_to_f32(&text(word, None)), infinity);
    }
    for word in ["-Infinity", "-inf"] {
        assert_eq!(
            TrtxConverter::pad_mlnumber_to_f32(&text(word, None)),
            Some(reading(f32::NEG_INFINITY))
        );
    }
    let nan = TrtxConverter::pad_mlnumber_to_f32(&text("NaN", None)).unwrap();
    assert!(f32::from_bits(nan.bits.single).is_nan());
    assert_eq!(
        TrtxConverter::pad_mlnumber_to_f32(&text("2.5", Some(reading(2.5)))),
        Some(reading(2.5))
    );
    assert_eq!(TrtxConverter::pad_mlnumber_to_f32(&text("two", None)), None);
    assert_eq!(TrtxConverter::pad_mlnumber_to_f32(&MLNumber::Other), None);
    let three = MLNumber::Unsigned { value: 3, reading: reading(3.0) };
    assert_eq!(TrtxConverter::pad_mlnumber_to_f32(&three), Some(reading(3.0)));
}

#[test]
fn bounds_take_the_exact_special_words() {
    assert_eq!(
        TrtxConverter::parse_clamp_bound_f32(&text("Infinity", None)),
        Some(reading(f32::INFINITY))
    );
    assert_eq!(
        TrtxConverter::parse_clamp_bound_f32(&text("-Infinity", None)),
        Some(reading(f32::NEG_INFINITY))
    );
    assert_eq!(TrtxConverter::parse_clamp_bound_f32(&text("infinity", None)), None);
    let minus = MLNumber::Negative { value: -4, reading: reading(-4.0) };
    assert_eq!(TrtxConverter::parse_clamp_bound_f32(&minus), Some(reading(-4.0)));
    assert_eq!(TrtxConverter::parse_i64(&minus), Some(-4));
    assert_eq!(TrtxConverter::parse_u64(&minus), None);
    let large = MLNumber::Unsigned { value: u64::MAX, reading: reading(u64::MAX as f32) };
    assert_eq!(TrtxConverter::parse_i64(&large), Some(-1));
    assert_eq!(TrtxConverter::parse_u64(&large), Some(u64::MAX));
    assert_eq!(TrtxConverter::parse_u64(&text(" 18446744073709551615n", None)), Some(u64::MAX));
    assert_eq!(TrtxConverter::parse_u64(&text("18446744073709551616", None)), None);
    assert_eq!(TrtxConverter::parse_u64(&text("", None)), None);
    let float = MLNumber::Float {
        reading: reading(2.5),
        truncated_i64: Some(2),
        truncated_u64: Some(2),
    };
    assert_eq!(TrtxConverter::parse_i64(&float), Some(2));
    assert_eq!(TrtxConverter::parse_u64(&float), Some(2));
}
