//! The error capability: the contract every concrete error value satisfies,
//! together with the type tag registry that makes checked recovery possible.

use vstd::prelude::*;
use crate::erased::Erased;

verus! {

/// The type tag of a concrete error value.
///
/// One variant per participating concrete type; two error values carry the
/// same tag exactly when they are of the same concrete type, so tag equality
/// is what licenses reinterpreting erased storage as that type. Tags are
/// fixed here, next to the variants of [`Erased`], never authored by callers.
#[derive(Clone, Copy, Debug, PartialEq, Eq, Structural)]
pub enum Tag {
    /// An error made from owned text alone.
    Text,
    /// An error wrapping an optional lower-level cause.
    Wrap,
    /// A failed `bool` parse.
    ParseBool,
    /// A failed integer parse.
    ParseInt,
    /// A failed floating-point parse.
    ParseFloat,
    /// A failed narrowing integer conversion.
    TryFromInt,
    /// Malformed UTF-8 in a borrowed byte view.
    Utf8,
    /// Malformed UTF-8 while taking ownership of a byte buffer.
    FromUtf8,
    /// Malformed UTF-16 input.
    FromUtf16,
    /// A failure while formatting output.
    Format,
    /// A shared borrow refused because an exclusive borrow was live.
    Borrow,
    /// An exclusive borrow refused because a borrow was live.
    BorrowMut,
}

/// The contract a concrete error value implements to participate in type
/// erasure.
///
/// Beyond the two inspection operations (`description`, `cause`) it fixes how
/// the value moves in and out of the erased representation: `erase` injects
/// it, `project_ref` / `project_mut` borrow it back out, and `recover` takes
/// ownership back out, each guarded by the type tag. The two proof
/// obligations pin the discipline down: the erased form carries the type's
/// own tag, and erasure loses nothing.
pub trait Error: Sized {
    /// The short description, as a sequence of characters.
    spec fn desc(&self) -> Seq<char>;

    /// The optional lower-level cause.
    spec fn cause_spec(&self) -> Option<Erased>;

    /// The tag of this concrete type.
    spec fn tag() -> Tag;

    /// The erased form of this value.
    spec fn erased(&self) -> Erased;

    /// The erased form of a value carries the type's own tag.
    proof fn erased_has_tag(&self)
        ensures
            self.erased().tag_of() == Self::tag(),
    ;

    /// Erasure loses nothing: values with equal erased forms are equal.
    proof fn erased_injective(a: &Self, b: &Self)
        ensures
            a.erased() == b.erased() ==> a == b,
    ;

    /// A short description of the error: stable across calls, no newline, no
    /// sentence-ending punctuation, so that callers may embed it in larger
    /// user-facing text.
    fn description(&self) -> (s: &str)
        ensures
            s@ == self.desc(),
    ;

    /// The lower-level cause of this error, if any.
    fn cause(&self) -> (c: Option<&Erased>)
        ensures
            match c {
                Some(e) => self.cause_spec() == Some(*e),
                None => self.cause_spec() is None,
            },
    ;

    /// The tag of `self`'s concrete type.
    fn type_id(&self) -> (t: Tag)
        ensures
            t == Self::tag(),
    ;

    /// The tag of this concrete type, computed without a value at hand.
    fn runtime_tag() -> (t: Tag)
        ensures
            t == Self::tag(),
    ;

    /// Move `self` into its erased form.
    fn erase(self) -> (e: Erased)
        ensures
            e == self.erased(),
    ;

    /// Borrow the concrete value back out of an erased form; yields a
    /// reference exactly when the tag matches this type.
    fn project_ref(e: &Erased) -> (r: Option<&Self>)
        ensures
            (r is Some) == (e.tag_of() == Self::tag()),
            match r {
                Some(x) => x.erased() == *e,
                None => true,
            },
    ;

    /// Mutably borrow the concrete value back out of an erased form; on a tag
    /// mismatch the erased form is left untouched.
    fn project_mut(e: &mut Erased) -> (r: Option<&mut Self>)
        ensures
            (r is Some) == (old(e).tag_of() == Self::tag()),
            match r {
                Some(x) => (*x).erased() == *old(e) && *final(e) == (*final(x)).erased(),
                None => *final(e) == *old(e),
            },
    ;

    /// Take ownership of the concrete value back out of an erased form; on a
    /// tag mismatch the erased form is returned unchanged.
    fn recover(e: Erased) -> (r: Result<Self, Erased>)
        ensures
            (r is Ok) == (e.tag_of() == Self::tag()),
            match r {
                Ok(v) => v.erased() == e,
                Err(orig) => orig == e,
            },
    ;
}

} // verus!
