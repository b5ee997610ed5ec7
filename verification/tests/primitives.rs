use std::cell::RefCell;

use error_handle::handle::Handle;
use error_handle::primitive::{
    BorrowFailure, BorrowMutFailure, FormatFailure, FromUtf16Failure, FromUtf8Failure,
    ParseBoolFailure, ParseFloatFailure, ParseIntFailure, TryFromIntFailure, Utf8Failure,
};
use error_handle::text::TextError;

#[test]
fn parse_bool_adapter() {
    let inner = "maybe".parse::<bool>().unwrap_err();
    let h = Handle::new(ParseBoolFailure { inner });
    assert_eq!(h.description(), "failed to parse bool");
    assert!(h.cause().is_none());
    assert!(h.is::<ParseBoolFailure>());
    assert!(!h.is::<TextError>());
    assert!(h.downcast::<ParseBoolFailure>().is_ok());
}

#[test]
fn parse_int_adapter() {
    let inner = "12x".parse::<i32>().unwrap_err();
    let h = Handle::new(ParseIntFailure { inner });
    assert_eq!(h.description(), "unable to parse integer");
    assert!(h.cause().is_none());
    assert!(h.is::<ParseIntFailure>());
    assert!(!h.is::<ParseBoolFailure>());
}

#[test]
fn parse_float_adapter() {
    let inner = "1.2.3".parse::<f64>().unwrap_err();
    let h = Handle::new(ParseFloatFailure { inner });
    assert_eq!(h.description(), "invalid float literal");
    assert!(h.cause().is_none());
    assert!(h.is::<ParseFloatFailure>());
    assert!(!h.is::<ParseIntFailure>());
}

#[test]
fn try_from_int_adapter() {
    let inner = u8::try_from(300i32).unwrap_err();
    let h = Handle::new(TryFromIntFailure { inner });
    assert_eq!(h.description(), "out of range integral type conversion attempted");
    assert!(h.cause().is_none());
    assert!(h.is::<TryFromIntFailure>());
    assert!(!h.is::<ParseIntFailure>());
}

#[test]
fn utf8_adapter() {
    let inner = std::str::from_utf8(&[0xff]).unwrap_err();
    let h = Handle::new(Utf8Failure { inner });
    assert_eq!(h.description(), "invalid utf-8: corrupt contents");
    assert!(h.cause().is_none());
    assert!(h.is::<Utf8Failure>());
    assert!(!h.is::<FromUtf8Failure>());
}

#[test]
fn from_utf8_adapter() {
    let inner = String::from_utf8(vec![0xff]).unwrap_err();
    let h = Handle::new(FromUtf8Failure { inner });
    assert_eq!(h.description(), "invalid utf-8");
    assert!(h.cause().is_none());
    assert!(h.is::<FromUtf8Failure>());
    assert!(!h.is::<Utf8Failure>());
}

#[test]
fn from_utf16_adapter() {
    let inner = String::from_utf16(&[0xd800]).unwrap_err();
    let h = Handle::new(FromUtf16Failure { inner });
    assert_eq!(h.description(), "invalid utf-16");
    assert!(h.cause().is_none());
    assert!(h.is::<FromUtf16Failure>());
    assert!(!h.is::<FromUtf8Failure>());
}

#[test]
fn format_adapter() {
    let h = Handle::new(FormatFailure { inner: std::fmt::Error });
    assert_eq!(h.description(), "an error occurred when formatting an argument");
    assert!(h.cause().is_none());
    assert!(h.is::<FormatFailure>());
    assert!(!h.is::<TextError>());
}

#[test]
fn borrow_adapters() {
    let cell = RefCell::new(0u8);

    let held = cell.borrow_mut();
    let inner = cell.try_borrow().unwrap_err();
    drop(held);
    let h = Handle::new(BorrowFailure { inner });
    assert_eq!(h.description(), "already mutably borrowed");
    assert!(h.cause().is_none());
    assert!(h.is::<BorrowFailure>());
    assert!(!h.is::<BorrowMutFailure>());

    let held = cell.borrow();
    let inner = cell.try_borrow_mut().unwrap_err();
    drop(held);
    let h = Handle::new(BorrowMutFailure { inner });
    assert_eq!(h.description(), "already borrowed");
    assert!(h.cause().is_none());
    assert!(h.is::<BorrowMutFailure>());
    assert!(!h.is::<BorrowFailure>());
}
