use error_handle::handle::Handle;
use error_handle::text::{TextError, WrapError};

fn a_value() -> TextError {
    TextError { text: String::from("A-desc") }
}

#[test]
fn downcasting() {
    let mut a = Handle::new(a_value());
    assert_eq!(a.downcast_ref::<TextError>(), Some(&a_value()));
    assert!(a.downcast_ref::<WrapError>().is_none());
    assert_eq!(a.downcast_mut::<TextError>(), Some(&mut a_value()));
    assert!(a.downcast_mut::<WrapError>().is_none());

    let a = Handle::new(a_value());
    match a.downcast::<WrapError>() {
        Ok(..) => panic!("expected error"),
        Err(e) => assert_eq!(e.downcast::<TextError>().unwrap(), a_value()),
    }
}
