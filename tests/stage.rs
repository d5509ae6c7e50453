use pynta_drivers::stage::{error_or, Axis, AxisInfo, Errors, MCL_ARGUMENT_ERROR, MCL_DEV_ERROR};

#[test]
fn it_works() {
    assert_eq!(2 + 2, 4);
}

#[test]
fn status_codes_decode() {
    assert_eq!(Errors::from(0), Errors::NoError);
    assert_eq!(Errors::from(-1), Errors::GeneralError);
    assert_eq!(Errors::from(-2), Errors::DevError);
    assert_eq!(Errors::from(-3), Errors::DevNotAttached);
    assert_eq!(Errors::from(-4), Errors::UsageError);
    assert_eq!(Errors::from(-5), Errors::DevNotReady);
    assert_eq!(Errors::from(-6), Errors::ArgumentError);
    assert_eq!(Errors::from(-7), Errors::InvalidAxis);
    assert_eq!(Errors::from(-8), Errors::InvalidHandle);
    assert_eq!(Errors::from(-42), Errors::UnknownError(-42));
    assert_eq!(Errors::from(7), Errors::UnknownError(7));
}

#[test]
fn status_as_result() {
    assert_eq!(Result::<(), Errors>::from(Errors::NoError), Ok(()));
    assert_eq!(Result::<(), Errors>::from(Errors::DevNotReady), Err(Errors::DevNotReady));
}

#[test]
fn error_or_passes_value_on_success_only() {
    assert_eq!(error_or(0, 17u32), Ok(17));
    assert_eq!(error_or(MCL_DEV_ERROR, 17u32), Err(Errors::DevError));
    assert_eq!(error_or(MCL_ARGUMENT_ERROR, "x"), Err(Errors::ArgumentError));
    assert_eq!(error_or(-99, ()), Err(Errors::UnknownError(-99)));
}

#[test]
fn axis_bitmap_lookup() {
    let info = AxisInfo::new(0b0010_0101);
    assert_eq!(info.axis_is_available(1), Ok(true));
    assert_eq!(info.axis_is_available(2), Ok(false));
    assert_eq!(info.axis_is_available(3), Ok(true));
    assert_eq!(info.axis_is_available(6), Ok(true));
    assert_eq!(info.axis_is_available(0), Err(Errors::ArgumentError));
    assert_eq!(info.axis_is_available(7), Err(Errors::ArgumentError));
    assert!(info.axis_M1_is_available());
    assert!(!info.axis_M2_is_available());
    assert!(info.axis_M3_is_available());
    assert!(!info.axis_M4_is_available());
    assert!(!info.axis_M5_is_available());
    assert!(info.axis_M6_is_available());
}

#[test]
fn axis_codes() {
    assert_eq!(Axis::NoAxis.code(), 0);
    assert_eq!(Axis::M1.code(), 1);
    assert_eq!(Axis::M2.code(), 2);
    assert_eq!(Axis::M6.code(), 6);
}
