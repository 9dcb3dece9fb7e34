use conv::errors::{UnwrapOk, UnwrapOrInvalid};
use conv::float::F32;
use conv::{FloatError, GeneralError, NoError, Overflow, RangeError, Underflow, Unrepresentable};
use conv::{ValueFrom, ValueInto};

#[test]
fn widening_is_the_same_by_every_path() {
    let direct: GeneralError = Underflow.into();
    let by_range: GeneralError = RangeError::from(Underflow).into();
    let by_float: GeneralError = FloatError::from(Underflow).into();
    let by_both: GeneralError = FloatError::from(RangeError::from(Underflow)).into();
    assert_eq!(direct, GeneralError::Underflow);
    assert_eq!(by_range, direct);
    assert_eq!(by_float, direct);
    assert_eq!(by_both, direct);

    let direct: GeneralError = Overflow.into();
    let by_range: GeneralError = RangeError::from(Overflow).into();
    let by_float: GeneralError = FloatError::from(Overflow).into();
    let by_both: GeneralError = FloatError::from(RangeError::from(Overflow)).into();
    assert_eq!(direct, GeneralError::Overflow);
    assert_eq!(by_range, direct);
    assert_eq!(by_float, direct);
    assert_eq!(by_both, direct);

    assert_eq!(FloatError::from(RangeError::from(Underflow)), FloatError::from(Underflow));
    assert_eq!(FloatError::from(RangeError::from(Overflow)), FloatError::from(Overflow));
}

#[test]
fn every_error_has_its_image() {
    assert_eq!(RangeError::from(Underflow), RangeError::Underflow);
    assert_eq!(RangeError::from(Overflow), RangeError::Overflow);
    assert_eq!(FloatError::from(Underflow), FloatError::Underflow);
    assert_eq!(FloatError::from(Overflow), FloatError::Overflow);
    assert_eq!(FloatError::from(RangeError::Underflow), FloatError::Underflow);
    assert_eq!(FloatError::from(RangeError::Overflow), FloatError::Overflow);
    assert_eq!(GeneralError::from(Underflow), GeneralError::Underflow);
    assert_eq!(GeneralError::from(Overflow), GeneralError::Overflow);
    assert_eq!(GeneralError::from(RangeError::Underflow), GeneralError::Underflow);
    assert_eq!(GeneralError::from(RangeError::Overflow), GeneralError::Overflow);
    assert_eq!(GeneralError::from(FloatError::Underflow), GeneralError::Underflow);
    assert_eq!(GeneralError::from(FloatError::Overflow), GeneralError::Overflow);
    assert_eq!(GeneralError::from(FloatError::NotANumber), GeneralError::Unrepresentable);
    assert_eq!(GeneralError::from(Unrepresentable(7u8)), GeneralError::Unrepresentable);
    assert_eq!(GeneralError::from(Unrepresentable('x')), GeneralError::Unrepresentable);
}

fn narrow(v: i16) -> Result<u8, GeneralError> {
    let exact: Result<u8, RangeError> = v.value_into();
    match exact {
        Ok(small) => Ok(small),
        Err(e) => Err(e.into()),
    }
}

fn many_errors(v: i16) -> Result<u8, GeneralError> {
    let same: u8 = match 0u8.value_into() {
        Ok(x) => x,
        Err(e) => {
            let never: NoError = e;
            return Err(never.into());
        }
    };
    let from_signed: u8 = <u8 as ValueFrom<i8>>::value_from(0i8)?;
    let narrowed = narrow(v)?;
    Ok(same + from_signed + narrowed)
}

#[test]
fn errors_widen_on_the_way_out() {
    assert_eq!(many_errors(7), Ok(7));
    assert_eq!(many_errors(-1), Err(GeneralError::Underflow));
    assert_eq!(many_errors(256), Err(GeneralError::Overflow));
}

#[test]
fn errors_are_described() {
    assert_eq!(GeneralError::Underflow.description(), "conversion resulted in underflow");
    assert_eq!(GeneralError::Overflow.description(), "conversion resulted in overflow");
    assert_eq!(
        GeneralError::Unrepresentable.description(),
        "could not convert unrepresentable value"
    );
    assert_eq!(Underflow.description(), "conversion resulted in underflow");
    assert_eq!(Overflow.description(), "conversion resulted in overflow");
    assert_eq!(RangeError::Underflow.description(), "conversion resulted in underflow");
    assert_eq!(RangeError::Overflow.description(), "conversion resulted in overflow");
    assert_eq!(FloatError::Underflow.description(), "conversion resulted in underflow");
    assert_eq!(FloatError::Overflow.description(), "conversion resulted in overflow");
    assert_eq!(
        FloatError::NotANumber.description(),
        "conversion target does not support not-a-number"
    );
    assert_eq!(Unrepresentable(3u8).description(), "could not convert unrepresentable value");
}

#[test]
fn errors_compare_by_variant() {
    assert!(RangeError::Underflow < RangeError::Overflow);
    assert!(FloatError::Overflow < FloatError::NotANumber);
    assert!(GeneralError::Underflow < GeneralError::Unrepresentable);
    assert!(Unrepresentable(1u8) < Unrepresentable(2u8));
    assert_eq!(Underflow, Underflow.clone());
    assert_ne!(RangeError::Underflow, RangeError::Overflow);
    assert_eq!(format!("{:?}", RangeError::Overflow), "Overflow");
    assert_eq!(format!("{:?}", Unrepresentable(5u8)), "Unrepresentable(5)");
}

#[test]
fn unwrap_ok_takes_the_value_out() {
    assert_eq!(<u16 as ValueFrom<u8>>::value_from(9).unwrap_ok(), 9u16);
    let kept: Result<String, NoError> = Ok("kept".to_string());
    assert_eq!(kept.unwrap_ok(), "kept");
}

#[test]
fn unwrap_or_invalid_takes_any_error() {
    let refused: Result<F32, Unrepresentable<u8>> = Err(Unrepresentable(1));
    assert_eq!(refused.unwrap_or_invalid().to_bits(), f32::NAN.to_bits());
    let fine: Result<F32, GeneralError> = Ok(F32::from_bits(1.0f32.to_bits()));
    assert_eq!(fine.unwrap_or_invalid().to_bits(), 1.0f32.to_bits());
}
