use conv::errors::{UnwrapOk, UnwrapOrSaturate};
use conv::listed::try_from_listed;
use conv::Unrepresentable;
use conv::{ApproxFrom, ApproxInto, ApproxWith, DefaultApprox, NoError, Overflow, RangeError};
use conv::{TryFrom, TryInto, Underflow, ValueFrom, ValueInto, Wrapping};
use std::fmt::Debug;

/// A small deterministic generator, so that a failure can be found again.
struct Sequence(u64);

impl Sequence {
    fn next(&mut self) -> u64 {
        self.0 = self.0.wrapping_mul(6364136223846793005).wrapping_add(1442695040888963407);
        let mut x = self.0;
        x ^= x >> 33;
        x = x.wrapping_mul(0xff51afd7ed558ccd);
        x ^= x >> 33;
        x
    }
}

/// Values of 64 bits that lie near the bounds of every integer type, and
/// arbitrary ones.
fn values_of_note() -> Vec<u64> {
    let mut values = Vec::new();
    for bits in [0u32, 7, 8, 15, 16, 31, 32, 63] {
        for offset in 0..3u64 {
            let power = 1u64 << bits;
            values.push(power.wrapping_add(offset));
            values.push(power.wrapping_sub(offset));
            values.push(power.wrapping_neg().wrapping_add(offset));
            values.push(power.wrapping_neg().wrapping_sub(offset));
        }
    }
    values.extend([0, u64::MAX]);
    let mut sequence = Sequence(0x1234);
    for _ in 0..2_000 {
        let bits = sequence.next();
        values.push(bits);
        values.push(bits >> (bits % 64));
        values.push(((bits as i64) >> (bits % 64)) as u64);
    }
    values
}

/// On which side of `min..=max` the integer `v` lies, if on any.
fn side(v: i128, min: i128, max: i128) -> Option<RangeError> {
    if v < min {
        Some(RangeError::Underflow)
    } else if v > max {
        Some(RangeError::Overflow)
    } else {
        None
    }
}

fn exact_with_range_error<S, D>(src: S, wide: i128, min: i128, max: i128, cast: fn(S) -> D)
where
    S: Copy + Debug,
    D: ValueFrom<S, Err = RangeError> + ApproxFrom<S, DefaultApprox, Err = RangeError>,
    D: ApproxFrom<S, Wrapping, Err = NoError> + PartialEq + Debug,
{
    let expected = match side(wide, min, max) {
        Some(e) => Err(e),
        None => Ok(cast(src)),
    };
    assert_eq!(<D as ValueFrom<S>>::value_from(src), expected, "from {:?}", src);
    assert_eq!(<D as ApproxFrom<S, DefaultApprox>>::approx_from(src), expected);
    assert_eq!(<D as ApproxFrom<S, Wrapping>>::approx_from(src), Ok(cast(src)), "from {:?}", src);
}

fn exact_with_overflow<S, D>(src: S, wide: i128, min: i128, max: i128, cast: fn(S) -> D)
where
    S: Copy + Debug,
    D: ValueFrom<S, Err = Overflow> + ApproxFrom<S, DefaultApprox, Err = Overflow>,
    D: ApproxFrom<S, Wrapping, Err = NoError> + PartialEq + Debug,
{
    assert!(wide >= min);
    let expected = if wide > max { Err(Overflow) } else { Ok(cast(src)) };
    assert_eq!(<D as ValueFrom<S>>::value_from(src), expected, "from {:?}", src);
    assert_eq!(<D as ApproxFrom<S, DefaultApprox>>::approx_from(src), expected);
    assert_eq!(<D as ApproxFrom<S, Wrapping>>::approx_from(src), Ok(cast(src)), "from {:?}", src);
}

fn exact_with_underflow<S, D>(src: S, wide: i128, min: i128, max: i128, cast: fn(S) -> D)
where
    S: Copy + Debug,
    D: ValueFrom<S, Err = Underflow> + ApproxFrom<S, DefaultApprox, Err = Underflow>,
    D: ApproxFrom<S, Wrapping, Err = NoError> + PartialEq + Debug,
{
    assert!(wide <= max);
    let expected = if wide < min { Err(Underflow) } else { Ok(cast(src)) };
    assert_eq!(<D as ValueFrom<S>>::value_from(src), expected, "from {:?}", src);
    assert_eq!(<D as ApproxFrom<S, DefaultApprox>>::approx_from(src), expected);
    assert_eq!(<D as ApproxFrom<S, Wrapping>>::approx_from(src), Ok(cast(src)), "from {:?}", src);
}

fn exact_without_error<S, D>(src: S, wide: i128, min: i128, max: i128, cast: fn(S) -> D)
where
    S: Copy + Debug,
    D: ValueFrom<S, Err = NoError> + ApproxFrom<S, DefaultApprox, Err = NoError>,
    D: ApproxFrom<S, Wrapping, Err = NoError> + PartialEq + Debug,
{
    assert!(min <= wide && wide <= max);
    assert_eq!(<D as ValueFrom<S>>::value_from(src), Ok(cast(src)), "from {:?}", src);
    assert_eq!(<D as ApproxFrom<S, DefaultApprox>>::approx_from(src), Ok(cast(src)));
    assert_eq!(<D as ApproxFrom<S, Wrapping>>::approx_from(src), Ok(cast(src)), "from {:?}", src);
}

#[test]
fn value_from_reports_the_side_of_the_range() {
    assert_eq!(u8::value_from(0u8).unwrap_ok(), 0u8);
    assert_eq!(<u8 as ValueFrom<i8>>::value_from(0i8), Ok(0u8));
    assert_eq!(<u8 as ValueFrom<i8>>::value_from(-1i8), Err(Underflow));
    assert_eq!(<u8 as ValueFrom<i16>>::value_from(-1i16), Err(RangeError::Underflow));
    assert_eq!(<u8 as ValueFrom<i16>>::value_from(0i16), Ok(0u8));
    assert_eq!(<u8 as ValueFrom<i16>>::value_from(256i16), Err(RangeError::Overflow));
    assert_eq!(<u8 as ValueFrom<i16>>::value_from(255i16), Ok(255u8));
    assert_eq!(<i8 as ValueFrom<u8>>::value_from(127u8), Ok(127i8));
    assert_eq!(<i8 as ValueFrom<u8>>::value_from(128u8), Err(Overflow));
    assert_eq!(<i8 as ValueFrom<i16>>::value_from(-128i16), Ok(-128i8));
    assert_eq!(<i8 as ValueFrom<i16>>::value_from(-129i16), Err(RangeError::Underflow));
    assert_eq!(<i8 as ValueFrom<i16>>::value_from(128i16), Err(RangeError::Overflow));
    assert_eq!(<u64 as ValueFrom<i64>>::value_from(-1i64), Err(Underflow));
    assert_eq!(<u64 as ValueFrom<i64>>::value_from(i64::MAX), Ok(i64::MAX as u64));
    assert_eq!(<i64 as ValueFrom<u64>>::value_from(u64::MAX), Err(Overflow));
    assert_eq!(<i64 as ValueFrom<i8>>::value_from(-128i8).unwrap_ok(), -128i64);
    assert_eq!(<u16 as ValueFrom<u8>>::value_from(255u8).unwrap_ok(), 255u16);
}

#[test]
fn approx_with_names_the_scheme() {
    assert_eq!(<u8 as ApproxFrom<_, DefaultApprox>>::approx_from(400u16), Err(Overflow));
    assert_eq!(<u8 as ApproxFrom<_, Wrapping>>::approx_from(400u16), Ok(144u8));
    assert_eq!(400u16.approx(), Err::<u8, _>(Overflow));
    assert_eq!(400u16.approx_with::<Wrapping>(), Ok::<u8, NoError>(144u8));
    assert_eq!(400u16.approx_with::<DefaultApprox>(), Err::<u8, _>(Overflow));
    let r: Result<u8, NoError> = ApproxInto::<u8, Wrapping>::approx_into(400u16);
    assert_eq!(r, Ok(144u8));
}

#[test]
fn every_type_converts_to_itself() {
    assert_eq!(<i8 as ValueFrom<i8>>::value_from(-7).unwrap_ok(), -7);
    assert_eq!(<u64 as ValueFrom<u64>>::value_from(u64::MAX).unwrap_ok(), u64::MAX);
    assert_eq!(<isize as ValueFrom<isize>>::value_from(isize::MIN).unwrap_ok(), isize::MIN);
    assert_eq!(<i32 as ApproxFrom<i32>>::approx_from(i32::MIN).unwrap_ok(), i32::MIN);
    assert_eq!(<u16 as ApproxFrom<u16, Wrapping>>::approx_from(65_535).unwrap_ok(), 65_535);
    assert_eq!(<usize as TryFrom<usize>>::try_from(9).unwrap_ok(), 9);
    assert_eq!(<char as TryFrom<char>>::try_from('x').unwrap_ok(), 'x');
    assert_eq!(<char as ValueFrom<char>>::value_from('x').unwrap_ok(), 'x');
    assert_eq!(<String as ValueFrom<String>>::value_from("a".to_string()), Ok("a".to_string()));
    let into: Result<i64, NoError> = 5i64.value_into();
    assert_eq!(into, Ok(5));
    let tried: Result<u8, NoError> = TryInto::<u8>::try_into(5u8);
    assert_eq!(tried, Ok(5));
    let approximated: Result<u8, NoError> = ApproxInto::<u8>::approx_into(5u8);
    assert_eq!(approximated, Ok(5));
}

#[test]
fn exact_conversions_compose() {
    for bits in values_of_note() {
        let a = bits as i64;
        // i64 -> i32 -> i16 against i64 -> i16.
        let direct: Result<i16, RangeError> = a.value_into();
        let first: Result<i32, RangeError> = a.value_into();
        match first {
            Ok(b) => {
                let second: Result<i16, RangeError> = b.value_into();
                assert_eq!(second, direct, "from {}", a);
                if let Ok(c) = second {
                    assert_eq!(c as i64, a);
                    // And back, without loss.
                    assert_eq!(<i64 as ValueFrom<i16>>::value_from(c).unwrap_ok(), a);
                }
            }
            Err(_) => assert!(direct.is_err(), "from {}", a),
        }
        // i64 -> u32 -> u64 against i64 -> u64: a failed link fails the chain,
        // though the direct conversion may still succeed.
        let direct: Result<u64, Underflow> = a.value_into();
        let first: Result<u32, RangeError> = a.value_into();
        if let Ok(b) = first {
            let second: Result<u64, NoError> = b.value_into();
            assert_eq!(second.unwrap_ok(), direct.unwrap());
        }
    }
}

#[test]
fn signed_sources_agree_with_the_language() {
    for bits in values_of_note() {
        let a = bits as i64;
        let w = a as i128;
        exact_with_range_error::<i64, i8>(a, w, i8::MIN as i128, i8::MAX as i128, |x| x as i8);
        exact_with_range_error::<i64, i16>(a, w, i16::MIN as i128, i16::MAX as i128, |x| x as i16);
        exact_with_range_error::<i64, i32>(a, w, i32::MIN as i128, i32::MAX as i128, |x| x as i32);
        exact_with_range_error::<i64, u8>(a, w, 0, u8::MAX as i128, |x| x as u8);
        exact_with_range_error::<i64, u16>(a, w, 0, u16::MAX as i128, |x| x as u16);
        exact_with_range_error::<i64, u32>(a, w, 0, u32::MAX as i128, |x| x as u32);
        exact_with_underflow::<i64, u64>(a, w, 0, u64::MAX as i128, |x| x as u64);
        exact_with_range_error::<i64, isize>(
            a,
            w,
            isize::MIN as i128,
            isize::MAX as i128,
            |x| x as isize,
        );
        exact_with_range_error::<i64, usize>(a, w, 0, usize::MAX as i128, |x| x as usize);

        let b = bits as i32;
        let w = b as i128;
        exact_with_range_error::<i32, i8>(b, w, i8::MIN as i128, i8::MAX as i128, |x| x as i8);
        exact_with_range_error::<i32, i16>(b, w, i16::MIN as i128, i16::MAX as i128, |x| x as i16);
        exact_without_error::<i32, i64>(b, w, i64::MIN as i128, i64::MAX as i128, |x| x as i64);
        exact_with_range_error::<i32, u8>(b, w, 0, u8::MAX as i128, |x| x as u8);
        exact_with_range_error::<i32, u16>(b, w, 0, u16::MAX as i128, |x| x as u16);
        exact_with_underflow::<i32, u32>(b, w, 0, u32::MAX as i128, |x| x as u32);
        exact_with_underflow::<i32, u64>(b, w, 0, u64::MAX as i128, |x| x as u64);
        exact_without_error::<i32, isize>(b, w, isize::MIN as i128, isize::MAX as i128, |x| {
            x as isize
        });
        exact_with_underflow::<i32, usize>(b, w, 0, usize::MAX as i128, |x| x as usize);

        let c = bits as isize;
        let w = c as i128;
        exact_with_range_error::<isize, i8>(c, w, i8::MIN as i128, i8::MAX as i128, |x| x as i8);
        exact_with_range_error::<isize, i32>(c, w, i32::MIN as i128, i32::MAX as i128, |x| {
            x as i32
        });
        exact_without_error::<isize, i64>(c, w, i64::MIN as i128, i64::MAX as i128, |x| x as i64);
        exact_with_range_error::<isize, u32>(c, w, 0, u32::MAX as i128, |x| x as u32);
        exact_with_underflow::<isize, u64>(c, w, 0, u64::MAX as i128, |x| x as u64);
        exact_with_underflow::<isize, usize>(c, w, 0, usize::MAX as i128, |x| x as usize);
    }
    for a in i16::MIN..=i16::MAX {
        let w = a as i128;
        exact_with_range_error::<i16, i8>(a, w, i8::MIN as i128, i8::MAX as i128, |x| x as i8);
        exact_without_error::<i16, i32>(a, w, i32::MIN as i128, i32::MAX as i128, |x| x as i32);
        exact_without_error::<i16, i64>(a, w, i64::MIN as i128, i64::MAX as i128, |x| x as i64);
        exact_with_range_error::<i16, u8>(a, w, 0, u8::MAX as i128, |x| x as u8);
        exact_with_underflow::<i16, u16>(a, w, 0, u16::MAX as i128, |x| x as u16);
        exact_with_underflow::<i16, u32>(a, w, 0, u32::MAX as i128, |x| x as u32);
        exact_with_underflow::<i16, u64>(a, w, 0, u64::MAX as i128, |x| x as u64);
        exact_without_error::<i16, isize>(a, w, isize::MIN as i128, isize::MAX as i128, |x| {
            x as isize
        });
        exact_with_underflow::<i16, usize>(a, w, 0, usize::MAX as i128, |x| x as usize);
        let b = a as i8;
        let w = b as i128;
        exact_without_error::<i8, i16>(b, w, i16::MIN as i128, i16::MAX as i128, |x| x as i16);
        exact_without_error::<i8, i32>(b, w, i32::MIN as i128, i32::MAX as i128, |x| x as i32);
        exact_without_error::<i8, i64>(b, w, i64::MIN as i128, i64::MAX as i128, |x| x as i64);
        exact_with_underflow::<i8, u8>(b, w, 0, u8::MAX as i128, |x| x as u8);
        exact_with_underflow::<i8, u16>(b, w, 0, u16::MAX as i128, |x| x as u16);
        exact_with_underflow::<i8, u32>(b, w, 0, u32::MAX as i128, |x| x as u32);
        exact_with_underflow::<i8, u64>(b, w, 0, u64::MAX as i128, |x| x as u64);
        exact_without_error::<i8, isize>(b, w, isize::MIN as i128, isize::MAX as i128, |x| {
            x as isize
        });
        exact_with_underflow::<i8, usize>(b, w, 0, usize::MAX as i128, |x| x as usize);
    }
}

#[test]
fn unsigned_sources_agree_with_the_language() {
    for a in values_of_note() {
        let w = a as i128;
        exact_with_overflow::<u64, i8>(a, w, i8::MIN as i128, i8::MAX as i128, |x| x as i8);
        exact_with_overflow::<u64, i16>(a, w, i16::MIN as i128, i16::MAX as i128, |x| x as i16);
        exact_with_overflow::<u64, i32>(a, w, i32::MIN as i128, i32::MAX as i128, |x| x as i32);
        exact_with_overflow::<u64, i64>(a, w, i64::MIN as i128, i64::MAX as i128, |x| x as i64);
        exact_with_overflow::<u64, u8>(a, w, 0, u8::MAX as i128, |x| x as u8);
        exact_with_overflow::<u64, u16>(a, w, 0, u16::MAX as i128, |x| x as u16);
        exact_with_overflow::<u64, u32>(a, w, 0, u32::MAX as i128, |x| x as u32);
        exact_with_overflow::<u64, isize>(a, w, isize::MIN as i128, isize::MAX as i128, |x| {
            x as isize
        });
        exact_with_overflow::<u64, usize>(a, w, 0, usize::MAX as i128, |x| x as usize);

        let b = a as u32;
        let w = b as i128;
        exact_with_overflow::<u32, i8>(b, w, i8::MIN as i128, i8::MAX as i128, |x| x as i8);
        exact_with_overflow::<u32, i16>(b, w, i16::MIN as i128, i16::MAX as i128, |x| x as i16);
        exact_with_overflow::<u32, i32>(b, w, i32::MIN as i128, i32::MAX as i128, |x| x as i32);
        exact_without_error::<u32, i64>(b, w, i64::MIN as i128, i64::MAX as i128, |x| x as i64);
        exact_with_overflow::<u32, u8>(b, w, 0, u8::MAX as i128, |x| x as u8);
        exact_with_overflow::<u32, u16>(b, w, 0, u16::MAX as i128, |x| x as u16);
        exact_without_error::<u32, u64>(b, w, 0, u64::MAX as i128, |x| x as u64);
        exact_with_overflow::<u32, isize>(b, w, isize::MIN as i128, isize::MAX as i128, |x| {
            x as isize
        });
        exact_without_error::<u32, usize>(b, w, 0, usize::MAX as i128, |x| x as usize);

        let c = a as usize;
        let w = c as i128;
        exact_with_overflow::<usize, i8>(c, w, i8::MIN as i128, i8::MAX as i128, |x| x as i8);
        exact_with_overflow::<usize, i64>(c, w, i64::MIN as i128, i64::MAX as i128, |x| x as i64);
        exact_with_overflow::<usize, u32>(c, w, 0, u32::MAX as i128, |x| x as u32);
        exact_without_error::<usize, u64>(c, w, 0, u64::MAX as i128, |x| x as u64);
        exact_with_overflow::<usize, isize>(c, w, isize::MIN as i128, isize::MAX as i128, |x| {
            x as isize
        });
    }
    for a in u16::MIN..=u16::MAX {
        let w = a as i128;
        exact_with_overflow::<u16, i8>(a, w, i8::MIN as i128, i8::MAX as i128, |x| x as i8);
        exact_with_overflow::<u16, i16>(a, w, i16::MIN as i128, i16::MAX as i128, |x| x as i16);
        exact_without_error::<u16, i32>(a, w, i32::MIN as i128, i32::MAX as i128, |x| x as i32);
        exact_without_error::<u16, i64>(a, w, i64::MIN as i128, i64::MAX as i128, |x| x as i64);
        exact_with_overflow::<u16, u8>(a, w, 0, u8::MAX as i128, |x| x as u8);
        exact_without_error::<u16, u32>(a, w, 0, u32::MAX as i128, |x| x as u32);
        exact_without_error::<u16, u64>(a, w, 0, u64::MAX as i128, |x| x as u64);
        exact_without_error::<u16, isize>(a, w, isize::MIN as i128, isize::MAX as i128, |x| {
            x as isize
        });
        exact_without_error::<u16, usize>(a, w, 0, usize::MAX as i128, |x| x as usize);
        let b = a as u8;
        let w = b as i128;
        exact_with_overflow::<u8, i8>(b, w, i8::MIN as i128, i8::MAX as i128, |x| x as i8);
        exact_without_error::<u8, i16>(b, w, i16::MIN as i128, i16::MAX as i128, |x| x as i16);
        exact_without_error::<u8, i32>(b, w, i32::MIN as i128, i32::MAX as i128, |x| x as i32);
        exact_without_error::<u8, i64>(b, w, i64::MIN as i128, i64::MAX as i128, |x| x as i64);
        exact_without_error::<u8, u16>(b, w, 0, u16::MAX as i128, |x| x as u16);
        exact_without_error::<u8, u32>(b, w, 0, u32::MAX as i128, |x| x as u32);
        exact_without_error::<u8, u64>(b, w, 0, u64::MAX as i128, |x| x as u64);
        exact_without_error::<u8, isize>(b, w, isize::MIN as i128, isize::MAX as i128, |x| {
            x as isize
        });
        exact_without_error::<u8, usize>(b, w, 0, usize::MAX as i128, |x| x as usize);
    }
}

#[test]
fn wrapping_keeps_the_low_bits() {
    assert_eq!(<u8 as ApproxFrom<u16, Wrapping>>::approx_from(400), Ok(144));
    assert_eq!(<i8 as ApproxFrom<u16, Wrapping>>::approx_from(400), Ok(-112));
    assert_eq!(<u8 as ApproxFrom<i8, Wrapping>>::approx_from(-1), Ok(255));
    assert_eq!(<i8 as ApproxFrom<u8, Wrapping>>::approx_from(255), Ok(-1));
    assert_eq!(<u64 as ApproxFrom<i64, Wrapping>>::approx_from(-1), Ok(u64::MAX));
    assert_eq!(<i64 as ApproxFrom<u64, Wrapping>>::approx_from(u64::MAX), Ok(-1));
    assert_eq!(<i64 as ApproxFrom<u64, Wrapping>>::approx_from(1 << 63), Ok(i64::MIN));
    assert_eq!(<u32 as ApproxFrom<i64, Wrapping>>::approx_from(i64::MIN), Ok(0));
    assert_eq!(<i16 as ApproxFrom<i32, Wrapping>>::approx_from(0x1_8000), Ok(i16::MIN));
    assert_eq!(<u16 as ApproxFrom<u8, Wrapping>>::approx_from(200), Ok(200));
    assert_eq!(<usize as ApproxFrom<i8, Wrapping>>::approx_from(-1), Ok(usize::MAX));
    assert_eq!(<isize as ApproxFrom<usize, Wrapping>>::approx_from(usize::MAX), Ok(-1));
}

#[test]
fn unwrap_or_saturate_clamps() {
    assert_eq!(<u8 as ValueFrom<i16>>::value_from(-1i16).unwrap_or_saturate(), 0u8);
    assert_eq!(<u8 as ValueFrom<i16>>::value_from(0i16).unwrap_or_saturate(), 0u8);
    assert_eq!(<u8 as ValueFrom<i16>>::value_from(256i16).unwrap_or_saturate(), 255u8);
    let r: Result<u8, RangeError> = 300i16.value_into();
    assert_eq!(r.unwrap_or_saturate(), 255u8);
    assert_eq!(<i8 as ValueFrom<i64>>::value_from(i64::MIN).unwrap_or_saturate(), i8::MIN);
    assert_eq!(<i8 as ValueFrom<i64>>::value_from(i64::MAX).unwrap_or_saturate(), i8::MAX);
    assert_eq!(<i64 as ValueFrom<u64>>::value_from(u64::MAX).unwrap_or_saturate(), i64::MAX);
    assert_eq!(<u64 as ValueFrom<i64>>::value_from(-5).unwrap_or_saturate(), 0);
    assert_eq!(<u64 as ValueFrom<i64>>::value_from(5).unwrap_or_saturate(), 5);
    assert_eq!(<u64 as ValueFrom<u8>>::value_from(5).unwrap_or_saturate(), 5);
    assert_eq!(<isize as ValueFrom<u64>>::value_from(u64::MAX).unwrap_or_saturate(), isize::MAX);
    assert_eq!(<usize as ValueFrom<i8>>::value_from(-1).unwrap_or_saturate(), usize::MIN);
}

#[test]
fn unwrap_or_saturate_on_what_it_returned_changes_nothing() {
    for v in [-300i16, -1, 0, 17, 255, 256, 4000] {
        let once = <u8 as ValueFrom<i16>>::value_from(v).unwrap_or_saturate();
        let again: Result<u8, RangeError> = Ok(once);
        assert_eq!(again.unwrap_or_saturate(), once);
        let twice = <u8 as ValueFrom<u8>>::value_from(once).unwrap_or_saturate();
        assert_eq!(twice, once);
        assert_eq!(<u8 as ValueFrom<i16>>::value_from(v).unwrap_or_saturate(), once);
    }
    let over: Result<i32, RangeError> = Err(RangeError::Overflow);
    assert_eq!(over.unwrap_or_saturate(), i32::MAX);
    let under: Result<i32, RangeError> = Err(RangeError::Underflow);
    assert_eq!(under.unwrap_or_saturate(), i32::MIN);
    let only_over: Result<u16, Overflow> = Err(Overflow);
    assert_eq!(only_over.unwrap_or_saturate(), u16::MAX);
    let only_under: Result<u16, Underflow> = Err(Underflow);
    assert_eq!(only_under.unwrap_or_saturate(), u16::MIN);
}

#[test]
fn a_listed_domain_takes_its_values_only() {
    let valid = [3i32, -1, 40, 3];
    assert_eq!(try_from_listed(3, &valid), Ok(0));
    assert_eq!(try_from_listed(-1, &valid), Ok(1));
    assert_eq!(try_from_listed(40, &valid), Ok(2));
    assert_eq!(try_from_listed(4, &valid), Err(Unrepresentable(4)));
    assert_eq!(try_from_listed(0, &valid), Err(Unrepresentable(0)));
    assert_eq!(try_from_listed(7u8, &[]), Err(Unrepresentable(7u8)));
    assert_eq!(try_from_listed(u64::MAX, &[0, u64::MAX]), Ok(1));
}

#[test]
fn exact_conversions_compose_through_every_kind_of_link() {
    for bits in values_of_note() {
        // u64 -> u16 -> i8 against u64 -> i8.
        let direct: Result<i8, Overflow> = bits.value_into();
        let first: Result<u16, Overflow> = bits.value_into();
        if let Ok(b) = first {
            let second: Result<i8, Overflow> = b.value_into();
            assert_eq!(second, direct, "from {}", bits);
        }
        // By way of the source itself, and of the destination itself.
        let same: u64 = <u64 as ValueFrom<u64>>::value_from(bits).unwrap_ok();
        let by_source: Result<i8, Overflow> = same.value_into();
        assert_eq!(by_source, direct);
        if let Ok(c) = direct {
            assert_eq!(<i8 as ValueFrom<i8>>::value_from(c), Ok(c));
        }
    }
}
