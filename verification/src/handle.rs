//! The owning handle: a type-erased container for one error value, carrying
//! the value's type tag and a transferability marker view.

use vstd::prelude::*;
use crate::capability::{Error, Tag};
use crate::erased::Erased;
use crate::markers::{markers_allows_narrowing, markers_le, Markers};
use crate::text::TextError;

verus! {

/// An owning, type-erased handle on one concrete error value.
///
/// The handle is the sole owner of the value it contains. It supports uniform
/// inspection (`description`, `cause`), a tag probe (`is`), borrowed recovery
/// (`downcast_ref`, `downcast_mut`) and consuming recovery (`downcast`). A
/// failed consuming recovery returns this very handle, unchanged: no loss, no
/// duplication. The marker view is chosen at construction and only ever
/// narrowed afterwards; every operation here keeps it or lowers it, none
/// raises it.
#[derive(Debug)]
pub struct Handle {
    value: Erased,
    markers: Markers,
}

impl Handle {
    /// The erased error value this handle owns.
    pub closed spec fn payload(&self) -> Erased {
        self.value
    }

    /// The marker view this handle is held at.
    pub closed spec fn marker_view(&self) -> Markers {
        self.markers
    }

    /// Erase a concrete error value into an owning handle.
    ///
    /// Every participating concrete type is plain owned data, so the handle
    /// starts at the strongest marker view; narrow it before handing it to a
    /// context that must not rely on shareability.
    pub fn new<T: Error>(v: T) -> (h: Handle)
        ensures
            h.payload() == v.erased(),
            h.marker_view() == Markers::Shareable,
    {
        Handle { value: v.erase(), markers: Markers::Shareable }
    }

    /// Build a handle from owned text: the contained value's description is
    /// that text, verbatim, and it has no cause.
    pub fn from_string(text: String) -> (h: Handle)
        ensures
            h.payload() == (Erased::Text(TextError { text })),
            h.marker_view() == Markers::Shareable,
    {
        Handle::new(TextError { text })
    }

    /// Build a handle from a borrowed text view, copying it into owned text
    /// first.
    pub fn from_text(text: &str) -> (h: Handle)
        ensures
            h.payload().tag_of() == Tag::Text,
            h.payload().desc_of() == text@,
            h.payload().cause_of() is None,
            h.marker_view() == Markers::Shareable,
    {
        Handle::from_string(text.to_owned())
    }

    /// Short description of the contained value.
    pub fn description(&self) -> (s: &str)
        ensures
            s@ == self.payload().desc_of(),
    {
        self.value.description()
    }

    /// The contained value's lower-level cause, if any.
    pub fn cause(&self) -> (c: Option<&Erased>)
        ensures
            match c {
                Some(x) => self.payload().cause_of() == Some(*x),
                None => self.payload().cause_of() is None,
            },
    {
        self.value.cause()
    }

    /// Borrow the contained value in its erased form: the reference view of
    /// the handle, usable for inspection and for walking the cause chain.
    pub fn as_erased(&self) -> (e: &Erased)
        ensures
            *e == self.payload(),
    {
        &self.value
    }

    /// The marker view this handle is currently held at.
    pub fn markers(&self) -> (m: Markers)
        ensures
            m == self.marker_view(),
    {
        self.markers
    }

    /// The stored type tag of the contained value.
    pub fn tag(&self) -> (t: Tag)
        ensures
            t == self.payload().tag_of(),
    {
        self.value.tag()
    }

    /// True exactly when the contained value's concrete type is `T`: the
    /// stored tag is compared against `T`'s own tag.
    pub fn is<T: Error>(&self) -> (b: bool)
        ensures
            b == (self.payload().tag_of() == T::tag()),
    {
        let t = T::runtime_tag();
        let stored = self.value.tag();
        t == stored
    }

    /// Borrow the contained value as a `T`, when its type is `T`. The
    /// contained value is neither moved nor changed either way.
    pub fn downcast_ref<T: Error>(&self) -> (r: Option<&T>)
        ensures
            (r is Some) == (self.payload().tag_of() == T::tag()),
            match r {
                Some(x) => x.erased() == self.payload(),
                None => true,
            },
    {
        T::project_ref(&self.value)
    }

    /// Mutably borrow the contained value as a `T`, when its type is `T`: the
    /// handle afterwards holds whatever the caller left behind the returned
    /// reference, at the same marker view. On a tag mismatch the handle is
    /// left untouched.
    pub fn downcast_mut<T: Error>(&mut self) -> (r: Option<&mut T>)
        ensures
            (r is Some) == (old(self).payload().tag_of() == T::tag()),
            final(self).marker_view() == old(self).marker_view(),
            match r {
                Some(x) => (*x).erased() == old(self).payload() && final(self).payload()
                    == (*final(x)).erased(),
                None => *final(self) == *old(self),
            },
    {
        T::project_mut(&mut self.value)
    }

    /// Consuming recovery: when the contained value's type is `T`, ownership
    /// moves out as a concrete `T`; on a tag mismatch the original handle
    /// comes back unchanged — same value, same marker view — so a failed
    /// attempt is indistinguishable from never having made one.
    pub fn downcast<T: Error>(self) -> (r: Result<T, Handle>)
        ensures
            (r is Ok) == (self.payload().tag_of() == T::tag()),
            match r {
                Ok(v) => v.erased() == self.payload(),
                Err(h) => h == self,
            },
    {
        let Handle { value, markers } = self;
        match T::recover(value) {
            Ok(v) => Ok(v),
            Err(orig) => Err(Handle { value: orig, markers }),
        }
    }

    /// Narrow the marker view: guarantees may be dropped, never added. The
    /// contained value is untouched.
    pub fn narrow(self, to: Markers) -> (h: Handle)
        requires
            markers_le(to, self.marker_view()),
        ensures
            h.payload() == self.payload(),
            h.marker_view() == to,
    {
        let Handle { value, markers: _ } = self;
        Handle { value, markers: to }
    }

    /// Narrow the marker view after checking, at run time, that `to` really
    /// is a narrowing. A widening request is refused, and the handle comes
    /// back unchanged: a guarantee that was not authored at construction is
    /// never re-derived here.
    pub fn try_narrow(self, to: Markers) -> (r: Result<Handle, Handle>)
        ensures
            (r is Ok) == markers_le(to, self.marker_view()),
            match r {
                Ok(h) => h.payload() == self.payload() && h.marker_view() == to,
                Err(h) => h == self,
            },
    {
        if markers_allows_narrowing(to, self.markers) {
            Ok(self.narrow(to))
        } else {
            Err(self)
        }
    }
}

} // verus!
