//! Conversion adapters: error values built from text alone, and the wrapper
//! value that carries a lower-level cause across an abstraction boundary.

use vstd::prelude::*;
use crate::capability::{Error, Tag};
use crate::erased::Erased;

verus! {

/// An error value made from owned text alone.
///
/// Its description is the text, verbatim, and it has no cause. Text carries
/// no context-bound resource, so a handle built from it supports the
/// strongest marker view.
#[derive(Debug, PartialEq, Eq)]
pub struct TextError {
    /// The description, verbatim.
    pub text: String,
}

impl Error for TextError {
    open spec fn desc(&self) -> Seq<char> {
        self.text@
    }

    open spec fn cause_spec(&self) -> Option<Erased> {
        None
    }

    open spec fn tag() -> Tag {
        Tag::Text
    }

    open spec fn erased(&self) -> Erased {
        Erased::Text(*self)
    }

    proof fn erased_has_tag(&self) {
    }

    proof fn erased_injective(a: &Self, b: &Self) {
    }

    fn description(&self) -> (s: &str) {
        self.text.as_str()
    }

    fn cause(&self) -> (c: Option<&Erased>) {
        None
    }

    fn type_id(&self) -> (t: Tag) {
        Tag::Text
    }

    fn runtime_tag() -> (t: Tag) {
        Tag::Text
    }

    fn erase(self) -> (e: Erased) {
        Erased::Text(self)
    }

    fn project_ref(e: &Erased) -> (r: Option<&Self>) {
        match e {
            Erased::Text(t) => Some(t),
            _ => None,
        }
    }

    fn project_mut(e: &mut Erased) -> (r: Option<&mut Self>) {
        match e {
            Erased::Text(t) => Some(t),
            _ => None,
        }
    }

    fn recover(e: Erased) -> (r: Result<Self, Erased>) {
        match e {
            Erased::Text(t) => Ok(t),
            other => Err(other),
        }
    }
}

/// An error value that wraps an optional lower-level cause.
///
/// This is the shape a caller reaches for when one layer must report an error
/// of its own while still revealing, through `cause`, the lower-level error
/// that produced it. Chains are singly linked: each value points at no more
/// than one parent.
#[derive(Debug)]
pub struct WrapError {
    /// This value's own short description.
    pub text: String,
    /// The lower-level error that caused this one, if any.
    pub cause: Option<Box<Erased>>,
}

impl Error for WrapError {
    open spec fn desc(&self) -> Seq<char> {
        self.text@
    }

    open spec fn cause_spec(&self) -> Option<Erased> {
        match self.cause {
            Some(b) => Some(*b),
            None => None,
        }
    }

    open spec fn tag() -> Tag {
        Tag::Wrap
    }

    open spec fn erased(&self) -> Erased {
        Erased::Wrap(*self)
    }

    proof fn erased_has_tag(&self) {
    }

    proof fn erased_injective(a: &Self, b: &Self) {
    }

    fn description(&self) -> (s: &str) {
        self.text.as_str()
    }

    fn cause(&self) -> (c: Option<&Erased>) {
        match &self.cause {
            Some(b) => Some(&**b),
            None => None,
        }
    }

    fn type_id(&self) -> (t: Tag) {
        Tag::Wrap
    }

    fn runtime_tag() -> (t: Tag) {
        Tag::Wrap
    }

    fn erase(self) -> (e: Erased) {
        Erased::Wrap(self)
    }

    fn project_ref(e: &Erased) -> (r: Option<&Self>) {
        match e {
            Erased::Wrap(w) => Some(w),
            _ => None,
        }
    }

    fn project_mut(e: &mut Erased) -> (r: Option<&mut Self>) {
        match e {
            Erased::Wrap(w) => Some(w),
            _ => None,
        }
    }

    fn recover(e: Erased) -> (r: Result<Self, Erased>) {
        match e {
            Erased::Wrap(w) => Ok(w),
            other => Err(other),
        }
    }
}

} // verus!
