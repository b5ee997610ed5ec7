use error_handle::capability::Error;
use error_handle::erased::{chain_depth, Erased};
use error_handle::handle::Handle;
use error_handle::markers::Markers;
use error_handle::primitive::ParseIntFailure;
use error_handle::text::{TextError, WrapError};

#[test]
fn erase_probe_and_recover() {
    // A has description "A-desc" and no cause; B has "B-desc" and no cause.
    let a = TextError { text: String::from("A-desc") };
    let h = Handle::new(a);

    assert!(h.downcast_ref::<WrapError>().is_none());
    let back = h.downcast_ref::<TextError>().unwrap();
    assert_eq!(back.text, "A-desc");
    assert_eq!(back.description(), "A-desc");

    let h = match h.downcast::<WrapError>() {
        Ok(..) => panic!("expected the original handle back"),
        Err(h) => h,
    };
    assert!(h.is::<TextError>());
    assert_eq!(h.description(), "A-desc");

    let a = h.downcast::<TextError>().unwrap();
    assert_eq!(a, TextError { text: String::from("A-desc") });

    let b = WrapError { text: String::from("B-desc"), cause: None };
    let hb = Handle::new(b);
    assert!(hb.is::<WrapError>());
    assert!(!hb.is::<TextError>());
    assert_eq!(hb.description(), "B-desc");
    assert!(hb.cause().is_none());
}

#[test]
fn text_handle_describes_verbatim() {
    let h = Handle::from_text("disk full");
    assert_eq!(h.description(), "disk full");
    assert!(h.cause().is_none());

    let h = Handle::from_text("oops");
    assert_eq!(h.description(), "oops");

    let h = Handle::from_string(String::from("oops"));
    assert_eq!(h.description(), "oops");
    assert_eq!(h.markers(), Markers::Shareable);
}

#[test]
fn wrapper_reveals_its_cause() {
    let a = TextError { text: String::from("A-desc") };
    let c = WrapError {
        text: String::from("C-desc"),
        cause: Some(Box::new(a.erase())),
    };
    let cause = c.cause().expect("authored cause");
    assert_eq!(cause.description(), "A-desc");

    let h = Handle::new(c);
    assert_eq!(h.description(), "C-desc");
    let cause = h.cause().expect("authored cause");
    assert_eq!(cause.description(), "A-desc");
    assert!(cause.cause().is_none());
}

#[test]
fn parse_failure_adapter() {
    let primitive = "not a number".parse::<i32>().unwrap_err();
    let h = Handle::new(ParseIntFailure { inner: primitive });
    assert_eq!(h.description(), "unable to parse integer");
    assert!(!h.description().is_empty());
    assert!(h.cause().is_none());

    let recovered = h.downcast::<ParseIntFailure>().unwrap();
    assert_eq!(recovered.inner, "not a number".parse::<i32>().unwrap_err());
}

#[test]
fn narrowing_never_widens() {
    let h = Handle::from_text("oops");
    assert_eq!(h.markers(), Markers::Shareable);

    let h = h.narrow(Markers::Transferable);
    assert_eq!(h.markers(), Markers::Transferable);
    assert_eq!(h.description(), "oops");

    let h = h.narrow(Markers::Unmarked);
    assert_eq!(h.markers(), Markers::Unmarked);
    assert_eq!(h.description(), "oops");

    // A failed recovery hands back the same view, never a stronger one.
    let h = match h.downcast::<WrapError>() {
        Ok(..) => panic!("expected the original handle back"),
        Err(h) => h,
    };
    assert_eq!(h.markers(), Markers::Unmarked);

    // Once narrowed to unmarked, shareability is never regained: a widening
    // request is refused and the handle comes back unchanged.
    let h = match h.try_narrow(Markers::Shareable) {
        Ok(..) => panic!("widening must be refused"),
        Err(h) => h,
    };
    assert_eq!(h.markers(), Markers::Unmarked);
    let h = h.try_narrow(Markers::Unmarked).expect("narrowing to the same view is allowed");
    assert_eq!(h.markers(), Markers::Unmarked);
    assert_eq!(h.description(), "oops");
}

#[test]
fn cause_chain_walk_ends_at_authored_depth() {
    let root = TextError { text: String::from("root") }.erase();
    assert_eq!(chain_depth(&root), 0);

    let mid = WrapError { text: String::from("mid"), cause: Some(Box::new(root)) }.erase();
    assert_eq!(chain_depth(&mid), 1);

    let top = WrapError { text: String::from("top"), cause: Some(Box::new(mid)) }.erase();
    assert_eq!(chain_depth(&top), 2);

    let h = Handle::from_text("no cause at all");
    assert_eq!(chain_depth(h.as_erased()), 0);

    // Walk by hand: exactly two steps until a value without a cause.
    let first = top.cause().expect("authored cause");
    assert_eq!(first.description(), "mid");
    let second = first.cause().expect("authored cause");
    assert_eq!(second.description(), "root");
    assert!(second.cause().is_none());
}

#[test]
fn mutable_downcast_edits_in_place() {
    let mut h = Handle::new(TextError { text: String::from("before") });
    {
        let inner = h.downcast_mut::<TextError>().expect("contains a text error");
        inner.text = String::from("after");
    }
    assert_eq!(h.description(), "after");
    assert!(h.downcast_mut::<WrapError>().is_none());
    assert_eq!(h.description(), "after");
    assert_eq!(h.markers(), Markers::Shareable);
}

#[test]
fn tags_agree_with_probes() {
    let h = Handle::new(TextError { text: String::from("x") });
    assert_eq!(h.tag(), error_handle::capability::Tag::Text);
    let v: Erased = TextError { text: String::from("x") }.erase();
    assert_eq!(v.tag(), error_handle::capability::Tag::Text);
    let t = TextError { text: String::from("x") };
    assert_eq!(t.type_id(), error_handle::capability::Tag::Text);
    assert_eq!(TextError::runtime_tag(), error_handle::capability::Tag::Text);
}
