//! The erased representation: one concrete error value stored together with
//! an explicit discriminant, so that reinterpretation is never blind.

use vstd::prelude::*;
use crate::capability::{Error, Tag};
use crate::primitive::{
    BorrowFailure, BorrowMutFailure, FormatFailure, FromUtf16Failure, FromUtf8Failure,
    ParseBoolFailure, ParseFloatFailure, ParseIntFailure, TryFromIntFailure, Utf8Failure,
};
use crate::text::{TextError, WrapError};

verus! {

/// A type-erased error value.
///
/// The variant is the runtime type tag: it records which concrete type the
/// stored value has, so borrowing or recovering the value is a checked match,
/// never a blind reinterpretation. Values of this type are what `cause`
/// chains link together.
#[derive(Debug)]
pub enum Erased {
    /// An error made from owned text alone.
    Text(TextError),
    /// An error wrapping an optional lower-level cause.
    Wrap(WrapError),
    /// A failed `bool` parse.
    ParseBool(ParseBoolFailure),
    /// A failed integer parse.
    ParseInt(ParseIntFailure),
    /// A failed floating-point parse.
    ParseFloat(ParseFloatFailure),
    /// A failed narrowing integer conversion.
    TryFromInt(TryFromIntFailure),
    /// Malformed UTF-8 in a borrowed byte view.
    Utf8(Utf8Failure),
    /// Malformed UTF-8 met while taking ownership of a byte buffer.
    FromUtf8(FromUtf8Failure),
    /// Malformed UTF-16 input.
    FromUtf16(FromUtf16Failure),
    /// A failure while formatting output.
    Format(FormatFailure),
    /// A shared borrow refused because an exclusive borrow was live.
    Borrow(BorrowFailure),
    /// An exclusive borrow refused because a borrow was live.
    BorrowMut(BorrowMutFailure),
}

impl Erased {
    /// The tag of the stored value's concrete type.
    pub open spec fn tag_of(&self) -> Tag {
        match *self {
            Erased::Text(_) => Tag::Text,
            Erased::Wrap(_) => Tag::Wrap,
            Erased::ParseBool(_) => Tag::ParseBool,
            Erased::ParseInt(_) => Tag::ParseInt,
            Erased::ParseFloat(_) => Tag::ParseFloat,
            Erased::TryFromInt(_) => Tag::TryFromInt,
            Erased::Utf8(_) => Tag::Utf8,
            Erased::FromUtf8(_) => Tag::FromUtf8,
            Erased::FromUtf16(_) => Tag::FromUtf16,
            Erased::Format(_) => Tag::Format,
            Erased::Borrow(_) => Tag::Borrow,
            Erased::BorrowMut(_) => Tag::BorrowMut,
        }
    }

    /// The stored value's short description.
    pub open spec fn desc_of(&self) -> Seq<char> {
        match *self {
            Erased::Text(v) => v.desc(),
            Erased::Wrap(v) => v.desc(),
            Erased::ParseBool(v) => v.desc(),
            Erased::ParseInt(v) => v.desc(),
            Erased::ParseFloat(v) => v.desc(),
            Erased::TryFromInt(v) => v.desc(),
            Erased::Utf8(v) => v.desc(),
            Erased::FromUtf8(v) => v.desc(),
            Erased::FromUtf16(v) => v.desc(),
            Erased::Format(v) => v.desc(),
            Erased::Borrow(v) => v.desc(),
            Erased::BorrowMut(v) => v.desc(),
        }
    }

    /// The stored value's optional lower-level cause.
    pub open spec fn cause_of(&self) -> Option<Erased> {
        match *self {
            Erased::Text(v) => v.cause_spec(),
            Erased::Wrap(v) => v.cause_spec(),
            Erased::ParseBool(v) => v.cause_spec(),
            Erased::ParseInt(v) => v.cause_spec(),
            Erased::ParseFloat(v) => v.cause_spec(),
            Erased::TryFromInt(v) => v.cause_spec(),
            Erased::Utf8(v) => v.cause_spec(),
            Erased::FromUtf8(v) => v.cause_spec(),
            Erased::FromUtf16(v) => v.cause_spec(),
            Erased::Format(v) => v.cause_spec(),
            Erased::Borrow(v) => v.cause_spec(),
            Erased::BorrowMut(v) => v.cause_spec(),
        }
    }

    /// The authored depth of the cause chain hanging off this value: zero
    /// when there is no cause, otherwise one more than the cause's own depth.
    pub open spec fn depth(self) -> nat
        decreases self,
    {
        match self {
            Erased::Wrap(w) => match w.cause {
                Some(c) => (*c).depth() + 1,
                None => 0,
            },
            _ => 0,
        }
    }

    /// The stored value's short description, by dispatch on the tag.
    pub fn description(&self) -> (s: &str)
        ensures
            s@ == self.desc_of(),
    {
        match self {
            Erased::Text(v) => v.description(),
            Erased::Wrap(v) => v.description(),
            Erased::ParseBool(v) => v.description(),
            Erased::ParseInt(v) => v.description(),
            Erased::ParseFloat(v) => v.description(),
            Erased::TryFromInt(v) => v.description(),
            Erased::Utf8(v) => v.description(),
            Erased::FromUtf8(v) => v.description(),
            Erased::FromUtf16(v) => v.description(),
            Erased::Format(v) => v.description(),
            Erased::Borrow(v) => v.description(),
            Erased::BorrowMut(v) => v.description(),
        }
    }

    /// The stored value's lower-level cause, if any, by dispatch on the tag.
    pub fn cause(&self) -> (c: Option<&Erased>)
        ensures
            match c {
                Some(x) => self.cause_of() == Some(*x),
                None => self.cause_of() is None,
            },
    {
        match self {
            Erased::Wrap(v) => v.cause(),
            _ => None,
        }
    }

    /// The stored type tag, read back out of the discriminant.
    pub fn tag(&self) -> (t: Tag)
        ensures
            t == self.tag_of(),
    {
        match self {
            Erased::Text(_) => Tag::Text,
            Erased::Wrap(_) => Tag::Wrap,
            Erased::ParseBool(_) => Tag::ParseBool,
            Erased::ParseInt(_) => Tag::ParseInt,
            Erased::ParseFloat(_) => Tag::ParseFloat,
            Erased::TryFromInt(_) => Tag::TryFromInt,
            Erased::Utf8(_) => Tag::Utf8,
            Erased::FromUtf8(_) => Tag::FromUtf8,
            Erased::FromUtf16(_) => Tag::FromUtf16,
            Erased::Format(_) => Tag::Format,
            Erased::Borrow(_) => Tag::Borrow,
            Erased::BorrowMut(_) => Tag::BorrowMut,
        }
    }
}

/// Stepping to a cause shortens the remaining chain by exactly one.
pub proof fn lemma_cause_step(e: Erased, c: Erased)
    requires
        e.cause_of() == Some(c),
    ensures
        e.depth() == c.depth() + 1,
{
}

/// A value without a cause ends its chain: its authored depth is zero.
pub proof fn lemma_cause_end(e: Erased)
    requires
        e.cause_of() is None,
    ensures
        e.depth() == 0,
{
}

/// Walk the cause chain until it ends, counting the steps taken.
///
/// The walk terminates because every step strictly shortens the remaining
/// chain, and the count it returns is exactly the chain's authored depth.
pub fn chain_depth(e: &Erased) -> (n: usize)
    requires
        e.depth() <= usize::MAX,
    ensures
        n == e.depth(),
{
    let mut cur: &Erased = e;
    let mut n: usize = 0;
    loop
        invariant
            n + cur.depth() == e.depth(),
            e.depth() <= usize::MAX,
        decreases cur.depth(),
    {
        match cur.cause() {
            Some(c) => {
                proof {
                    lemma_cause_step(*cur, *c);
                }
                n = n + 1;
                cur = c;
            },
            None => {
                proof {
                    lemma_cause_end(*cur);
                }
                return n;
            },
        }
    }
}

} // verus!
