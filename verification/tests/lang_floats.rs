use conv::errors::{UnwrapOk, UnwrapOrInf, UnwrapOrInvalid};
use conv::float::{F32, F64};
use conv::{ApproxFrom, ApproxInto, DefaultApprox, FloatError, NoError, Overflow, RangeError};
use conv::{ValueFrom, ValueInto, Wrapping};
use std::fmt::Debug;

use conv::FloatError::Overflow as FO;
use conv::FloatError::Underflow as FU;

fn single(x: f32) -> F32 {
    F32::from_bits(x.to_bits())
}

fn double(x: f64) -> F64 {
    F64::from_bits(x.to_bits())
}

/// A small deterministic generator, so that a failure can be found again.
struct Sequence(u64);

impl Sequence {
    fn next(&mut self) -> u64 {
        self.0 = self.0.wrapping_mul(6364136223846793005).wrapping_add(1442695040888963407);
        let mut x = self.0;
        x ^= x >> 33;
        x = x.wrapping_mul(0xff51afd7ed558ccd);
        x ^= x >> 33;
        x
    }
}

/// What the arithmetic of the language gives for `f32`: the number is taken
/// apart into its whole part and the rest, both of which it holds exactly,
/// and these are compared with the bounds as integers.
fn expect_single<D>(x: f32, min: i128, max: i128, cast: fn(f32) -> D) -> Result<D, FloatError> {
    if x.is_nan() {
        return Err(FloatError::NotANumber);
    }
    let whole = x.trunc();
    let rest = if x.is_infinite() { 0.0 } else { x - whole };
    let w = whole as i128;
    if w < min || (w == min && rest < 0.0) {
        return Err(FloatError::Underflow);
    }
    if w > max || (w == max && rest > 0.0) {
        return Err(FloatError::Overflow);
    }
    Ok(cast(x))
}

/// What the arithmetic of the language gives for `f64`, found as for `f32`.
fn expect_double<D>(x: f64, min: i128, max: i128, cast: fn(f64) -> D) -> Result<D, FloatError> {
    if x.is_nan() {
        return Err(FloatError::NotANumber);
    }
    let whole = x.trunc();
    let rest = if x.is_infinite() { 0.0 } else { x - whole };
    let w = whole as i128;
    if w < min || (w == min && rest < 0.0) {
        return Err(FloatError::Underflow);
    }
    if w > max || (w == max && rest > 0.0) {
        return Err(FloatError::Overflow);
    }
    Ok(cast(x))
}

fn approx_single<D>(x: f32) -> Result<D, FloatError>
where
    D: ApproxFrom<F32, DefaultApprox, Err = FloatError>,
{
    single(x).approx_into()
}

fn approx_double<D>(x: f64) -> Result<D, FloatError>
where
    D: ApproxFrom<F64, DefaultApprox, Err = FloatError>,
{
    double(x).approx_into()
}

/// Compares the conversion with the language's arithmetic on the numbers
/// around every integer near a bound of the type, and on arbitrary encodings.
fn agree_single<D>(min: i128, max: i128, cast: fn(f32) -> D)
where
    D: ApproxFrom<F32, DefaultApprox, Err = FloatError> + PartialEq + Debug,
{
    let mut points = vec![0.0f32, -0.0, 0.5, -0.5, 0.999, -0.999, 1.0, -1.0, 1.5, -1.5];
    points.extend([f32::MIN_POSITIVE, -f32::MIN_POSITIVE, 1.0e-45, -1.0e-45]);
    points.extend([f32::MAX, f32::MIN, f32::INFINITY, f32::NEG_INFINITY, f32::NAN, -f32::NAN]);
    let (low, high) = (min as f32, max as f32);
    for bound in [low, high, low / 2.0, high / 2.0, 16_777_216.0, -16_777_216.0] {
        let mut up = bound;
        let mut down = bound;
        for _ in 0..300 {
            points.push(up);
            points.push(down);
            up = f32::from_bits(if up >= 0.0 { up.to_bits() + 1 } else { up.to_bits() - 1 });
            down = if down > 0.0 {
                f32::from_bits(down.to_bits() - 1)
            } else if down == 0.0 {
                -1.0e-45
            } else {
                f32::from_bits(down.to_bits() + 1)
            };
        }
        for step in 0..64 {
            let offset = step as f32 * 0.25;
            points.push(bound + offset);
            points.push(bound - offset);
        }
    }
    let mut sequence = Sequence(0x5eed);
    for _ in 0..20_000 {
        points.push(f32::from_bits(sequence.next() as u32));
    }
    for x in points {
        assert_eq!(approx_single::<D>(x), expect_single(x, min, max, cast), "from {:e}", x);
    }
}

fn agree_double<D>(min: i128, max: i128, cast: fn(f64) -> D)
where
    D: ApproxFrom<F64, DefaultApprox, Err = FloatError> + PartialEq + Debug,
{
    let mut points = vec![0.0f64, -0.0, 0.5, -0.5, 0.999, -0.999, 1.0, -1.0, 1.5, -1.5];
    points.extend([f64::MIN_POSITIVE, -f64::MIN_POSITIVE, 5.0e-324, -5.0e-324]);
    points.extend([f64::MAX, f64::MIN, f64::INFINITY, f64::NEG_INFINITY, f64::NAN, -f64::NAN]);
    let exact: f64 = 9_007_199_254_740_992.0;
    let (low, high) = (min as f64, max as f64);
    for bound in [low, high, low / 2.0, high / 2.0, exact, -exact] {
        let mut up = bound;
        let mut down = bound;
        for _ in 0..300 {
            points.push(up);
            points.push(down);
            up = f64::from_bits(if up >= 0.0 { up.to_bits() + 1 } else { up.to_bits() - 1 });
            down = if down > 0.0 {
                f64::from_bits(down.to_bits() - 1)
            } else if down == 0.0 {
                -5.0e-324
            } else {
                f64::from_bits(down.to_bits() + 1)
            };
        }
        for step in 0..64 {
            let offset = step as f64 * 0.25;
            points.push(bound + offset);
            points.push(bound - offset);
        }
    }
    let mut sequence = Sequence(0xd0b1e);
    for _ in 0..20_000 {
        points.push(f64::from_bits(sequence.next()));
    }
    for x in points {
        assert_eq!(approx_double::<D>(x), expect_double(x, min, max, cast), "from {:e}", x);
    }
}

#[test]
fn test_f32_to_int() {
    // Zero and one convert to themselves, and minus one where there is a sign.
    assert_eq!(approx_single::<i8>(-1.0), Ok(-1));
    assert_eq!(approx_single::<i8>(0.0), Ok(0));
    assert_eq!(approx_single::<i8>(1.0), Ok(1));
    assert_eq!(approx_single::<i16>(-1.0), Ok(-1));
    assert_eq!(approx_single::<i16>(0.0), Ok(0));
    assert_eq!(approx_single::<i16>(1.0), Ok(1));
    assert_eq!(approx_single::<i32>(-1.0), Ok(-1));
    assert_eq!(approx_single::<i32>(0.0), Ok(0));
    assert_eq!(approx_single::<i32>(1.0), Ok(1));
    assert_eq!(approx_single::<i64>(-1.0), Ok(-1));
    assert_eq!(approx_single::<i64>(0.0), Ok(0));
    assert_eq!(approx_single::<i64>(1.0), Ok(1));
    assert_eq!(approx_single::<u8>(0.0), Ok(0));
    assert_eq!(approx_single::<u8>(1.0), Ok(1));
    assert_eq!(approx_single::<u16>(0.0), Ok(0));
    assert_eq!(approx_single::<u16>(1.0), Ok(1));
    assert_eq!(approx_single::<u32>(0.0), Ok(0));
    assert_eq!(approx_single::<u32>(1.0), Ok(1));
    assert_eq!(approx_single::<u64>(0.0), Ok(0));
    assert_eq!(approx_single::<u64>(1.0), Ok(1));

    // Every value of the type, once it is a floating point number, converts
    // back to what the language makes of that number.
    for v in i8::MIN..=i8::MAX {
        assert_eq!(approx_single::<i8>(v as f32), Ok(v));
    }
    for v in i16::MIN..=i16::MAX {
        assert_eq!(approx_single::<i16>(v as f32), Ok(v));
    }
    for v in u8::MIN..=u8::MAX {
        assert_eq!(approx_single::<u8>(v as f32), Ok(v));
    }
    for v in u16::MIN..=u16::MAX {
        assert_eq!(approx_single::<u16>(v as f32), Ok(v));
    }
    let mut sequence = Sequence(32);
    for _ in 0..20_000 {
        let bits = sequence.next();
        // A value next to the greatest may round up to a number beyond it.
        let a = (bits as i32) as f32;
        let expected = expect_single(a, i32::MIN as i128, i32::MAX as i128, |x| x as i32);
        assert_eq!(approx_single::<i32>(a), expected);
        let b = (bits as i64) as f32;
        let expected = expect_single(b, i64::MIN as i128, i64::MAX as i128, |x| x as i64);
        assert_eq!(approx_single::<i64>(b), expected);
        let c = (bits as u32) as f32;
        let expected = expect_single(c, 0, u32::MAX as i128, |x| x as u32);
        assert_eq!(approx_single::<u32>(c), expected);
        let d = bits as f32;
        let expected = expect_single(d, 0, u64::MAX as i128, |x| x as u64);
        assert_eq!(approx_single::<u64>(d), expected);
        // Well within the range every value comes back as the language has it.
        let small = (bits as i32) >> 8;
        assert_eq!(approx_single::<i32>(small as f32), Ok(small));
        assert_eq!(approx_single::<i64>(small as f32), Ok(small as i64));
    }

    assert_eq!(approx_single::<i8>(-129.0), Err(FU));
    assert_eq!(approx_single::<i8>(128.0), Err(FO));
    assert_eq!(approx_single::<i16>(-32_769.0), Err(FU));
    assert_eq!(approx_single::<i16>(32_768.0), Err(FO));
    assert_eq!(approx_single::<i32>(-2_147_500_000.0), Err(FU));
    assert_eq!(approx_single::<i32>(2_147_500_000.0), Err(FO));
    assert_eq!(approx_single::<i64>(-9_223_373_000_000_000_000.0), Err(FU));
    assert_eq!(approx_single::<i64>(9_223_373_000_000_000_000.0), Err(FO));
    assert_eq!(approx_single::<u8>(-1.0), Err(FU));
    assert_eq!(approx_single::<u8>(256.0), Err(FO));
    assert_eq!(approx_single::<u16>(-1.0), Err(FU));
    assert_eq!(approx_single::<u16>(65_536.0), Err(FO));
    assert_eq!(approx_single::<u32>(-1.0), Err(FU));
    assert_eq!(approx_single::<u32>(4_294_968_000.0), Err(FO));
    assert_eq!(approx_single::<u64>(-1.0), Err(FU));
    assert_eq!(approx_single::<u64>(18_446_746_000_000_000_000.0), Err(FO));
}

#[test]
fn test_f64_to_int() {
    assert_eq!(approx_double::<i8>(-1.0), Ok(-1));
    assert_eq!(approx_double::<i8>(0.0), Ok(0));
    assert_eq!(approx_double::<i8>(1.0), Ok(1));
    assert_eq!(approx_double::<i16>(-1.0), Ok(-1));
    assert_eq!(approx_double::<i16>(0.0), Ok(0));
    assert_eq!(approx_double::<i16>(1.0), Ok(1));
    assert_eq!(approx_double::<i32>(-1.0), Ok(-1));
    assert_eq!(approx_double::<i32>(0.0), Ok(0));
    assert_eq!(approx_double::<i32>(1.0), Ok(1));
    assert_eq!(approx_double::<i64>(-1.0), Ok(-1));
    assert_eq!(approx_double::<i64>(0.0), Ok(0));
    assert_eq!(approx_double::<i64>(1.0), Ok(1));
    assert_eq!(approx_double::<u8>(0.0), Ok(0));
    assert_eq!(approx_double::<u8>(1.0), Ok(1));
    assert_eq!(approx_double::<u16>(0.0), Ok(0));
    assert_eq!(approx_double::<u16>(1.0), Ok(1));
    assert_eq!(approx_double::<u32>(0.0), Ok(0));
    assert_eq!(approx_double::<u32>(1.0), Ok(1));
    assert_eq!(approx_double::<u64>(0.0), Ok(0));
    assert_eq!(approx_double::<u64>(1.0), Ok(1));

    for v in i8::MIN..=i8::MAX {
        assert_eq!(approx_double::<i8>(v as f64), Ok(v));
    }
    for v in i16::MIN..=i16::MAX {
        assert_eq!(approx_double::<i16>(v as f64), Ok(v));
    }
    for v in u8::MIN..=u8::MAX {
        assert_eq!(approx_double::<u8>(v as f64), Ok(v));
    }
    for v in u16::MIN..=u16::MAX {
        assert_eq!(approx_double::<u16>(v as f64), Ok(v));
    }
    let mut sequence = Sequence(64);
    for _ in 0..20_000 {
        let bits = sequence.next();
        let a = bits as i32;
        assert_eq!(approx_double::<i32>(a as f64), Ok(a));
        // A value next to the greatest may round up to a number beyond it.
        let b = (bits as i64) as f64;
        let expected = expect_double(b, i64::MIN as i128, i64::MAX as i128, |x| x as i64);
        assert_eq!(approx_double::<i64>(b), expected);
        let c = bits as u32;
        assert_eq!(approx_double::<u32>(c as f64), Ok(c));
        let d = bits as f64;
        let expected = expect_double(d, 0, u64::MAX as i128, |x| x as u64);
        assert_eq!(approx_double::<u64>(d), expected);
        let small = (bits as i64) >> 11;
        assert_eq!(approx_double::<i64>(small as f64), Ok(small));
    }

    assert_eq!(approx_double::<i8>(-129.0), Err(FU));
    assert_eq!(approx_double::<i8>(128.0), Err(FO));
    assert_eq!(approx_double::<i16>(-32_769.0), Err(FU));
    assert_eq!(approx_double::<i16>(32_768.0), Err(FO));
    assert_eq!(approx_double::<i32>(-2_147_483_649.0), Err(FU));
    assert_eq!(approx_double::<i32>(2_147_483_648.0), Err(FO));
    assert_eq!(approx_double::<i64>(-9_223_372_036_854_778_000.0), Err(FU));
    assert_eq!(approx_double::<i64>(9_223_372_036_854_778_000.0), Err(FO));
    assert_eq!(approx_double::<u8>(-1.0), Err(FU));
    assert_eq!(approx_double::<u8>(256.0), Err(FO));
    assert_eq!(approx_double::<u16>(-1.0), Err(FU));
    assert_eq!(approx_double::<u16>(65_536.0), Err(FO));
    assert_eq!(approx_double::<u32>(-1.0), Err(FU));
    assert_eq!(approx_double::<u32>(4_294_967_296.0), Err(FO));
    assert_eq!(approx_double::<u64>(-1.0), Err(FU));
    assert_eq!(approx_double::<u64>(18_446_744_073_709_560_000.0), Err(FO));
}

#[test]
fn single_to_int_agrees_with_the_language() {
    agree_single::<i8>(i8::MIN as i128, i8::MAX as i128, |x| x as i8);
    agree_single::<i16>(i16::MIN as i128, i16::MAX as i128, |x| x as i16);
    agree_single::<i32>(i32::MIN as i128, i32::MAX as i128, |x| x as i32);
    agree_single::<i64>(i64::MIN as i128, i64::MAX as i128, |x| x as i64);
    agree_single::<isize>(isize::MIN as i128, isize::MAX as i128, |x| x as isize);
    agree_single::<u8>(u8::MIN as i128, u8::MAX as i128, |x| x as u8);
    agree_single::<u16>(u16::MIN as i128, u16::MAX as i128, |x| x as u16);
    agree_single::<u32>(u32::MIN as i128, u32::MAX as i128, |x| x as u32);
    agree_single::<u64>(u64::MIN as i128, u64::MAX as i128, |x| x as u64);
    agree_single::<usize>(usize::MIN as i128, usize::MAX as i128, |x| x as usize);
}

#[test]
fn double_to_int_agrees_with_the_language() {
    agree_double::<i8>(i8::MIN as i128, i8::MAX as i128, |x| x as i8);
    agree_double::<i16>(i16::MIN as i128, i16::MAX as i128, |x| x as i16);
    agree_double::<i32>(i32::MIN as i128, i32::MAX as i128, |x| x as i32);
    agree_double::<i64>(i64::MIN as i128, i64::MAX as i128, |x| x as i64);
    agree_double::<isize>(isize::MIN as i128, isize::MAX as i128, |x| x as isize);
    agree_double::<u8>(u8::MIN as i128, u8::MAX as i128, |x| x as u8);
    agree_double::<u16>(u16::MIN as i128, u16::MAX as i128, |x| x as u16);
    agree_double::<u32>(u32::MIN as i128, u32::MAX as i128, |x| x as u32);
    agree_double::<u64>(u64::MIN as i128, u64::MAX as i128, |x| x as u64);
    agree_double::<usize>(usize::MIN as i128, usize::MAX as i128, |x| x as usize);
}

#[test]
fn default_approximation_drops_the_fraction() {
    assert_eq!(approx_single::<u8>(41.0), Ok(41u8));
    assert_eq!(approx_single::<u8>(41.3), Ok(41u8));
    assert_eq!(approx_single::<u8>(41.5), Ok(41u8));
    assert_eq!(approx_single::<u8>(41.8), Ok(41u8));
    assert_eq!(approx_single::<u8>(42.0), Ok(42u8));
    assert_eq!(approx_single::<u8>(255.0), Ok(255u8));
    assert_eq!(approx_single::<u8>(256.0), Err(FloatError::Overflow));
    assert_eq!(approx_single::<i8>(-41.8), Ok(-41i8));
    assert_eq!(approx_double::<i8>(-41.8), Ok(-41i8));
}

#[test]
fn a_fraction_beyond_a_bound_is_out_of_range() {
    assert_eq!(approx_single::<u8>(-0.0), Ok(0u8));
    assert_eq!(approx_single::<u8>(-0.5), Err(FloatError::Underflow));
    assert_eq!(approx_single::<u8>(255.5), Err(FloatError::Overflow));
    assert_eq!(approx_single::<i8>(-128.0), Ok(-128i8));
    assert_eq!(approx_single::<i8>(-128.5), Err(FloatError::Underflow));
    assert_eq!(approx_double::<i8>(127.5), Err(FloatError::Overflow));
    assert_eq!(approx_double::<i8>(127.0), Ok(127i8));
}

#[test]
fn a_number_beyond_the_greatest_value_overflows() {
    // Single precision holds no number between the greatest `i32` and two to
    // the power of 31, which lies beyond it.
    assert_eq!(approx_single::<i32>(2_147_483_648.0), Err(FloatError::Overflow));
    assert_eq!(approx_single::<i32>(2_147_483_520.0), Ok(2_147_483_520));
    assert_eq!(approx_single::<i32>(-2_147_483_648.0), Ok(i32::MIN));
    assert_eq!(approx_single::<u32>(4_294_967_296.0), Err(FloatError::Overflow));
    assert_eq!(approx_single::<u32>(4_294_967_040.0), Ok(4_294_967_040));
    assert_eq!(approx_single::<i64>(9_223_372_036_854_775_808.0), Err(FloatError::Overflow));
    assert_eq!(approx_single::<i64>(-9_223_372_036_854_775_808.0), Ok(i64::MIN));
    assert_eq!(approx_single::<u64>(18_446_744_073_709_551_616.0), Err(FloatError::Overflow));
    assert_eq!(approx_single::<isize>(isize::MAX as f32), Err(FloatError::Overflow));
    assert_eq!(approx_single::<usize>(usize::MAX as f32), Err(FloatError::Overflow));
    assert_eq!(approx_double::<i64>(9_223_372_036_854_775_808.0), Err(FloatError::Overflow));
    assert_eq!(approx_double::<i64>(9_223_372_036_854_774_784.0), Ok(9_223_372_036_854_774_784));
    assert_eq!(approx_double::<i64>(-9_223_372_036_854_775_808.0), Ok(i64::MIN));
    assert_eq!(approx_double::<u64>(18_446_744_073_709_551_616.0), Err(FloatError::Overflow));
    assert_eq!(
        approx_double::<u64>(18_446_744_073_709_549_568.0),
        Ok(18_446_744_073_709_549_568)
    );
    assert_eq!(approx_double::<isize>(isize::MAX as f64), Err(FloatError::Overflow));
    assert_eq!(approx_double::<usize>(usize::MAX as f64), Err(FloatError::Overflow));
    // Double precision holds the bounds of the 32 bit types exactly.
    assert_eq!(approx_double::<i32>(2_147_483_647.5), Err(FloatError::Overflow));
    assert_eq!(approx_double::<i32>(2_147_483_647.0), Ok(i32::MAX));
    assert_eq!(approx_double::<i32>(2_147_483_648.0), Err(FloatError::Overflow));
    assert_eq!(approx_double::<u32>(4_294_967_295.0), Ok(u32::MAX));
    assert_eq!(approx_double::<u32>(4_294_967_296.0), Err(FloatError::Overflow));
}

#[test]
fn not_a_number_converts_to_no_integer() {
    let quiet = f32::NAN;
    let negative = -f32::NAN;
    let signalling = f32::from_bits(0x7f80_0001);
    for x in [quiet, negative, signalling] {
        assert_eq!(approx_single::<i8>(x), Err(FloatError::NotANumber));
        assert_eq!(approx_single::<u8>(x), Err(FloatError::NotANumber));
        assert_eq!(approx_single::<i64>(x), Err(FloatError::NotANumber));
        assert_eq!(approx_single::<u64>(x), Err(FloatError::NotANumber));
        assert_eq!(approx_single::<isize>(x), Err(FloatError::NotANumber));
    }
    for x in [f64::NAN, -f64::NAN, f64::from_bits(0x7ff0_0000_0000_0001)] {
        assert_eq!(approx_double::<i16>(x), Err(FloatError::NotANumber));
        assert_eq!(approx_double::<u16>(x), Err(FloatError::NotANumber));
        assert_eq!(approx_double::<i32>(x), Err(FloatError::NotANumber));
        assert_eq!(approx_double::<u32>(x), Err(FloatError::NotANumber));
        assert_eq!(approx_double::<usize>(x), Err(FloatError::NotANumber));
    }
    assert_eq!(approx_single::<i32>(f32::INFINITY), Err(FloatError::Overflow));
    assert_eq!(approx_single::<i32>(f32::NEG_INFINITY), Err(FloatError::Underflow));
}

fn widen(x: f32) -> f64 {
    let wide: Result<F64, NoError> = single(x).value_into();
    f64::from_bits(wide.unwrap_ok().to_bits())
}

fn narrow(x: f64) -> Result<f32, RangeError> {
    let narrow: Result<F32, RangeError> = double(x).approx_into();
    narrow.map(|y| f32::from_bits(y.to_bits()))
}

/// The numbers on which rounding and the limits of the formats show.
fn doubles_of_note() -> Vec<f64> {
    let mut points = vec![0.0f64, -0.0, 1.0, -1.0, 0.1, -0.1, 1.5, 16_777_217.0];
    points.extend([f64::MIN_POSITIVE, 5.0e-324, f64::MAX, f64::MIN]);
    let anchors = [
        f32::MAX as f64,
        f32::MIN_POSITIVE as f64,
        1.0e-45f32 as f64,
        1.0e-45f32 as f64 / 2.0,
        3.0e-45f32 as f64,
        1.0,
        16_777_216.0,
        1.0e38,
    ];
    for anchor in anchors {
        for sign in [1.0, -1.0] {
            let mut up = anchor;
            let mut down = anchor;
            for _ in 0..200 {
                points.push(sign * up);
                points.push(sign * down);
                up = f64::from_bits(up.to_bits() + 1);
                down = f64::from_bits(down.to_bits() - 1);
            }
            // Halfway between two single precision numbers, and next to it.
            let next = f32::from_bits((anchor as f32).to_bits() + 1) as f64;
            let half = (anchor as f32) as f64 / 2.0 + next / 2.0;
            points.push(sign * half);
            points.push(sign * f64::from_bits(half.to_bits() + 1));
            points.push(sign * f64::from_bits(half.to_bits() - 1));
        }
    }
    points
}

#[test]
fn test_f32() {
    // A number converts to itself, exactly and approximately.
    for x in [-1.0f32, 0.0, 1.0, 0.5, f32::MAX, f32::MIN_POSITIVE] {
        assert_eq!(<F32 as ValueFrom<F32>>::value_from(single(x)), Ok(single(x)));
        assert_eq!(<F32 as ApproxFrom<F32>>::approx_from(single(x)), Ok(single(x)));
        assert_eq!(<F32 as ApproxFrom<F32, Wrapping>>::approx_from(single(x)), Ok(single(x)));
    }
    // Double precision holds every single precision number.
    for x in [-1.0f32, 0.0, 1.0] {
        assert_eq!(<F64 as ValueFrom<F32>>::value_from(single(x)), Ok(double(x as f64)));
        assert_eq!(<F64 as ApproxFrom<F32>>::approx_from(single(x)), Ok(double(x as f64)));
        assert_eq!(
            <F64 as ApproxFrom<F32, Wrapping>>::approx_from(single(x)),
            Ok(double(x as f64))
        );
    }
    let mut points = vec![-0.0f32, 0.1, f32::MAX, f32::MIN, f32::MIN_POSITIVE, 1.0e-45, -1.0e-45];
    points.extend([f32::INFINITY, f32::NEG_INFINITY, 8.0e-39, 16_777_216.0, 3.0e-42]);
    let mut sequence = Sequence(0xf32);
    for _ in 0..100_000 {
        points.push(f32::from_bits(sequence.next() as u32));
    }
    for x in points {
        if x.is_nan() {
            assert!(widen(x).is_nan());
        } else {
            assert_eq!(widen(x).to_bits(), (x as f64).to_bits(), "from {:e}", x);
        }
    }
}

#[test]
fn test_f64() {
    // Single precision holds zero and one, so they are approximated exactly.
    for x in [-1.0f64, 0.0, 1.0] {
        assert_eq!(<F32 as ApproxFrom<F64>>::approx_from(double(x)), Ok(single(x as f32)));
    }
    for x in [-1.0f64, 0.0, 1.0, 0.1, f64::MAX, f64::MIN_POSITIVE] {
        assert_eq!(<F64 as ValueFrom<F64>>::value_from(double(x)), Ok(double(x)));
        assert_eq!(<F64 as ApproxFrom<F64>>::approx_from(double(x)), Ok(double(x)));
    }
    let mut points = doubles_of_note();
    let mut sequence = Sequence(0xf64);
    for _ in 0..100_000 {
        let bits = sequence.next();
        points.push(f64::from_bits(bits));
        // Most encodings lie far beyond single precision: bring some within.
        points.push((f32::from_bits(bits as u32) as f64) * (1.0 + (bits >> 40) as f64 * 1.0e-9));
    }
    for x in points {
        let expected = if !x.is_finite() {
            Ok(x as f32)
        } else if !(f32::MIN as f64 <= x) {
            Err(RangeError::Underflow)
        } else if !(x <= f32::MAX as f64) {
            Err(RangeError::Overflow)
        } else {
            Ok(x as f32)
        };
        match (narrow(x), expected) {
            (Ok(got), Ok(want)) if want.is_nan() => assert!(got.is_nan()),
            (Ok(got), Ok(want)) => assert_eq!(got.to_bits(), want.to_bits(), "from {:e}", x),
            (got, want) => assert_eq!(got, want, "from {:e}", x),
        }
    }
}

#[test]
fn narrowing_fails_beyond_single_precision_only() {
    assert_eq!(narrow(f32::MAX as f64), Ok(f32::MAX));
    assert_eq!(narrow(f32::MIN as f64), Ok(f32::MIN));
    assert_eq!(narrow(f64::from_bits((f32::MAX as f64).to_bits() + 1)), Err(RangeError::Overflow));
    assert_eq!(narrow(f64::from_bits((f32::MIN as f64).to_bits() + 1)), Err(RangeError::Underflow));
    assert_eq!(narrow(1.0e300), Err(RangeError::Overflow));
    assert_eq!(narrow(-1.0e300), Err(RangeError::Underflow));
    assert_eq!(narrow(f64::INFINITY), Ok(f32::INFINITY));
    assert_eq!(narrow(f64::NEG_INFINITY), Ok(f32::NEG_INFINITY));
    assert!(narrow(f64::NAN).unwrap().is_nan());
    // Too small for single precision is no failure: it rounds to zero.
    assert_eq!(narrow(1.0e-300), Ok(0.0));
    assert_eq!(narrow(-1.0e-300).map(f32::to_bits), Ok((-0.0f32).to_bits()));
}

#[test]
fn narrowing_rounds_to_the_nearest_and_to_even() {
    // 1 + 2^-24 lies halfway between 1 and the next number: the even one wins.
    assert_eq!(narrow(1.0 + 5.960464477539063e-8), Ok(1.0));
    // 1 + 3 * 2^-24 lies halfway too, and there the even one is above.
    assert_eq!(narrow(1.0 + 3.0 * 5.960464477539063e-8), Ok(1.0 + 4.0 * 5.9604645e-8));
    assert_eq!(narrow(0.1), Ok(0.1f32));
}

fn float_of<S>(src: S) -> f32
where
    F32: ApproxFrom<S, DefaultApprox, Err = NoError>,
{
    f32::from_bits(<F32 as ApproxFrom<S, DefaultApprox>>::approx_from(src).unwrap_ok().to_bits())
}

fn double_of<S>(src: S) -> f64
where
    F64: ApproxFrom<S, DefaultApprox, Err = NoError>,
{
    f64::from_bits(<F64 as ApproxFrom<S, DefaultApprox>>::approx_from(src).unwrap_ok().to_bits())
}

#[test]
fn approximating_an_integer_agrees_with_the_language() {
    for v in i16::MIN..=i16::MAX {
        assert_eq!(float_of(v).to_bits(), (v as f32).to_bits());
        assert_eq!(double_of(v).to_bits(), (v as f64).to_bits());
        assert_eq!(float_of(v as i8).to_bits(), (v as i8 as f32).to_bits());
        assert_eq!(float_of(v as u16).to_bits(), (v as u16 as f32).to_bits());
        assert_eq!(double_of(v as u8).to_bits(), (v as u8 as f64).to_bits());
    }
    let mut points: Vec<u64> = vec![0, 1, 2, 3, u64::MAX, u64::MAX - 1, 1 << 63, (1 << 63) - 1];
    for bits in [24u32, 25, 31, 32, 53, 54, 63] {
        for offset in 0..70u64 {
            points.push((1u64 << bits).wrapping_add(offset));
            points.push((1u64 << bits).wrapping_sub(offset));
            points.push((3u64 << (bits - 1)).wrapping_add(offset));
            points.push((3u64 << (bits - 1)).wrapping_sub(offset));
        }
    }
    let mut sequence = Sequence(0x1f);
    for _ in 0..100_000 {
        let bits = sequence.next();
        points.push(bits);
        points.push(bits >> (bits % 64));
    }
    for v in points {
        assert_eq!(float_of(v).to_bits(), (v as f32).to_bits(), "from {}", v);
        assert_eq!(float_of(v as i64).to_bits(), (v as i64 as f32).to_bits(), "from {}", v as i64);
        assert_eq!(float_of(v as u32).to_bits(), (v as u32 as f32).to_bits());
        assert_eq!(float_of(v as i32).to_bits(), (v as i32 as f32).to_bits());
        assert_eq!(float_of(v as usize).to_bits(), (v as usize as f32).to_bits());
        assert_eq!(float_of(v as isize).to_bits(), (v as isize as f32).to_bits());
        assert_eq!(double_of(v).to_bits(), (v as f64).to_bits(), "from {}", v);
        assert_eq!(double_of(v as i64).to_bits(), (v as i64 as f64).to_bits());
        assert_eq!(double_of(v as u32).to_bits(), (v as u32 as f64).to_bits());
        assert_eq!(double_of(v as i32).to_bits(), (v as i32 as f64).to_bits());
        assert_eq!(double_of(v as usize).to_bits(), (v as usize as f64).to_bits());
        assert_eq!(double_of(v as isize).to_bits(), (v as isize as f64).to_bits());
    }
}

#[test]
fn an_integer_is_exact_up_to_the_bound_of_the_format() {
    assert_eq!(<F32 as ValueFrom<i32>>::value_from(16_777_216), Ok(single(16_777_216.0)));
    assert_eq!(<F32 as ValueFrom<i32>>::value_from(16_777_217), Err(RangeError::Overflow));
    assert_eq!(<F32 as ValueFrom<i32>>::value_from(-16_777_216), Ok(single(-16_777_216.0)));
    assert_eq!(<F32 as ValueFrom<i32>>::value_from(-16_777_217), Err(RangeError::Underflow));
    assert_eq!(<F32 as ValueFrom<i64>>::value_from(16_777_218), Err(RangeError::Overflow));
    assert_eq!(<F32 as ValueFrom<isize>>::value_from(-16_777_217), Err(RangeError::Underflow));
    assert_eq!(<F32 as ValueFrom<u32>>::value_from(16_777_216), Ok(single(16_777_216.0)));
    assert_eq!(<F32 as ValueFrom<u32>>::value_from(16_777_217), Err(Overflow));
    assert_eq!(<F32 as ValueFrom<u64>>::value_from(u64::MAX), Err(Overflow));
    assert_eq!(<F32 as ValueFrom<usize>>::value_from(16_777_217), Err(Overflow));
    let bound: i64 = 9_007_199_254_740_992;
    assert_eq!(<F64 as ValueFrom<i64>>::value_from(bound), Ok(double(bound as f64)));
    assert_eq!(<F64 as ValueFrom<i64>>::value_from(bound + 1), Err(RangeError::Overflow));
    assert_eq!(<F64 as ValueFrom<i64>>::value_from(-bound), Ok(double(-bound as f64)));
    assert_eq!(<F64 as ValueFrom<i64>>::value_from(-bound - 1), Err(RangeError::Underflow));
    assert_eq!(<F64 as ValueFrom<u64>>::value_from(bound as u64), Ok(double(bound as f64)));
    assert_eq!(<F64 as ValueFrom<u64>>::value_from(bound as u64 + 1), Err(Overflow));
    assert_eq!(<F64 as ValueFrom<isize>>::value_from(-5), Ok(double(-5.0)));
    // Every value of the narrow types lies within the bound.
    for v in i16::MIN..=i16::MAX {
        assert_eq!(<F32 as ValueFrom<i16>>::value_from(v).unwrap_ok(), single(v as f32));
        let unsigned = v as u16;
        let exact = <F32 as ValueFrom<u16>>::value_from(unsigned).unwrap_ok();
        assert_eq!(exact, single(unsigned as f32));
        assert_eq!(<F64 as ValueFrom<i16>>::value_from(v).unwrap_ok(), double(v as f64));
    }
    assert_eq!(<F64 as ValueFrom<i32>>::value_from(i32::MIN).unwrap_ok(), double(i32::MIN as f64));
    assert_eq!(<F64 as ValueFrom<u32>>::value_from(u32::MAX).unwrap_ok(), double(u32::MAX as f64));
    assert_eq!(<F32 as ValueFrom<u8>>::value_from(0).unwrap_ok(), single(0.0));
    assert_eq!(<F32 as ValueFrom<i8>>::value_from(-128).unwrap_ok(), single(-128.0));
}

#[test]
fn an_exact_integer_comes_back_from_the_float() {
    let mut sequence = Sequence(0xbac);
    for _ in 0..20_000 {
        let v = (sequence.next() % 33_554_433) as i32 - 16_777_216;
        let x = <F32 as ValueFrom<i32>>::value_from(v).unwrap();
        assert_eq!(<i32 as ApproxFrom<F32>>::approx_from(x), Ok(v));
        let wide: F64 = <F64 as ValueFrom<F32>>::value_from(x).unwrap_ok();
        assert_eq!(wide, <F64 as ValueFrom<i32>>::value_from(v).unwrap_ok());
        assert_eq!(<F32 as ApproxFrom<F64>>::approx_from(wide), Ok(x));
    }
}

#[test]
fn unwrap_or_inf_goes_to_the_infinity_of_the_side() {
    let over: Result<F32, RangeError> = <F32 as ApproxFrom<F64>>::approx_from(double(1.0e300));
    assert_eq!(over.unwrap_or_inf(), single(f32::INFINITY));
    let under: Result<F32, RangeError> = <F32 as ApproxFrom<F64>>::approx_from(double(-1.0e300));
    assert_eq!(under.unwrap_or_inf(), single(f32::NEG_INFINITY));
    let fine: Result<F32, RangeError> = <F32 as ApproxFrom<F64>>::approx_from(double(2.5));
    assert_eq!(fine.unwrap_or_inf(), single(2.5));
    let beyond = <F32 as ValueFrom<u32>>::value_from(16_777_217);
    assert_eq!(beyond.unwrap_or_inf(), single(f32::INFINITY));
    let beyond = <F64 as ValueFrom<u64>>::value_from(u64::MAX);
    assert_eq!(beyond.unwrap_or_inf(), double(f64::INFINITY));
    assert_eq!(
        <F64 as ValueFrom<i64>>::value_from(i64::MIN).unwrap_or_inf(),
        double(f64::NEG_INFINITY)
    );
    assert_eq!(<F64 as ValueFrom<i32>>::value_from(7).unwrap_or_inf(), double(7.0));
}

#[test]
fn unwrap_or_invalid_gives_the_sentinel() {
    let bad = <F32 as ValueFrom<i32>>::value_from(16_777_217).unwrap_or_invalid();
    assert!(f32::from_bits(bad.to_bits()).is_nan());
    assert_eq!(bad.to_bits(), f32::NAN.to_bits());
    let good = <F32 as ValueFrom<i32>>::value_from(12).unwrap_or_invalid();
    assert_eq!(good, single(12.0));
    let wide = <F64 as ValueFrom<u64>>::value_from(u64::MAX).unwrap_or_invalid();
    assert_eq!(wide.to_bits(), f64::NAN.to_bits());
}

#[test]
fn exact_conversions_compose_through_the_formats() {
    let mut sequence = Sequence(0xc4a1);
    for _ in 0..20_000 {
        let a = (sequence.next() >> (sequence.next() % 64)) as i64 - (1 << 30);
        // i64 -> i32 -> F32 against i64 -> F32.
        let direct: Result<F32, RangeError> = a.value_into();
        let first: Result<i32, RangeError> = a.value_into();
        if let Ok(b) = first {
            let second: Result<F32, RangeError> = b.value_into();
            assert_eq!(second, direct, "from {}", a);
        }
        // i64 -> F32 -> F64 against i64 -> F64.
        if let Ok(x) = direct {
            let wide: F64 = <F64 as ValueFrom<F32>>::value_from(x).unwrap_ok();
            assert_eq!(<F64 as ValueFrom<i64>>::value_from(a), Ok(wide), "from {}", a);
            assert_eq!(f64::from_bits(wide.to_bits()), a as f64);
        }
    }
}
