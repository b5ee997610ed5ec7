//! Primitive error adapters: thin capability implementations for the
//! pre-existing primitive error values of the surrounding standard library
//! (parse failures, encoding failures, a formatting failure, and the two
//! exclusive-borrow conflicts).
//!
//! Each adapter owns the primitive value it adapts and supplies a fixed short
//! description; none of them declares a cause. The primitive types themselves
//! are declared below so that adapters can carry them; they stay opaque, and
//! nothing is assumed about them.

use vstd::prelude::*;
use crate::capability::{Error, Tag};
use crate::erased::Erased;

verus! {

/// Declares the pre-existing primitive error type `core::str::ParseBoolError` so an adapter can
/// carry it; the type stays opaque and nothing is assumed of it.
#[verifier::external_type_specification]
#[verifier::external_body]
pub struct ExParseBoolError(core::str::ParseBoolError);

/// Declares the pre-existing primitive error type `core::num::ParseIntError` so an adapter can
/// carry it; the type stays opaque and nothing is assumed of it.
#[verifier::external_type_specification]
#[verifier::external_body]
pub struct ExParseIntError(core::num::ParseIntError);

/// Declares the pre-existing primitive error type `core::num::ParseFloatError` so an adapter can
/// carry it; the type stays opaque and nothing is assumed of it.
#[verifier::external_type_specification]
#[verifier::external_body]
pub struct ExParseFloatError(core::num::ParseFloatError);

/// Declares the pre-existing primitive error type `core::str::Utf8Error` so an adapter can
/// carry it; the type stays opaque and nothing is assumed of it.
#[verifier::external_type_specification]
#[verifier::external_body]
pub struct ExUtf8Error(core::str::Utf8Error);

/// Declares the pre-existing primitive error type `std::string::FromUtf8Error` so an adapter can
/// carry it; the type stays opaque and nothing is assumed of it.
#[verifier::external_type_specification]
#[verifier::external_body]
pub struct ExFromUtf8Error(std::string::FromUtf8Error);

/// Declares the pre-existing primitive error type `std::string::FromUtf16Error` so an adapter can
/// carry it; the type stays opaque and nothing is assumed of it.
#[verifier::external_type_specification]
#[verifier::external_body]
pub struct ExFromUtf16Error(std::string::FromUtf16Error);

/// Declares the pre-existing primitive error type `core::fmt::Error` so an adapter can
/// carry it; the type stays opaque and nothing is assumed of it.
#[verifier::external_type_specification]
#[verifier::external_body]
pub struct ExFmtError(core::fmt::Error);

/// Declares the pre-existing primitive error type `core::cell::BorrowError` so an adapter can
/// carry it; the type stays opaque and nothing is assumed of it.
#[verifier::external_type_specification]
#[verifier::external_body]
pub struct ExBorrowError(core::cell::BorrowError);

/// Declares the pre-existing primitive error type `core::cell::BorrowMutError` so an adapter can
/// carry it; the type stays opaque and nothing is assumed of it.
#[verifier::external_type_specification]
#[verifier::external_body]
pub struct ExBorrowMutError(core::cell::BorrowMutError);

/// Adapter for a failed `bool` parse.
#[derive(Debug)]
pub struct ParseBoolFailure {
    /// The pre-existing primitive error value being adapted.
    pub inner: core::str::ParseBoolError,
}

impl Error for ParseBoolFailure {
    open spec fn desc(&self) -> Seq<char> {
        "failed to parse bool"@
    }

    open spec fn cause_spec(&self) -> Option<Erased> {
        None
    }

    open spec fn tag() -> Tag {
        Tag::ParseBool
    }

    open spec fn erased(&self) -> Erased {
        Erased::ParseBool(*self)
    }

    proof fn erased_has_tag(&self) {
    }

    proof fn erased_injective(a: &Self, b: &Self) {
    }

    fn description(&self) -> (s: &str) {
        "failed to parse bool"
    }

    fn cause(&self) -> (c: Option<&Erased>) {
        None
    }

    fn type_id(&self) -> (t: Tag) {
        Tag::ParseBool
    }

    fn runtime_tag() -> (t: Tag) {
        Tag::ParseBool
    }

    fn erase(self) -> (e: Erased) {
        Erased::ParseBool(self)
    }

    fn project_ref(e: &Erased) -> (r: Option<&Self>) {
        match e {
            Erased::ParseBool(a) => Some(a),
            _ => None,
        }
    }

    fn project_mut(e: &mut Erased) -> (r: Option<&mut Self>) {
        match e {
            Erased::ParseBool(a) => Some(a),
            _ => None,
        }
    }

    fn recover(e: Erased) -> (r: Result<Self, Erased>) {
        match e {
            Erased::ParseBool(a) => Ok(a),
            other => Err(other),
        }
    }
}

/// Adapter for a failed integer parse.
#[derive(Debug)]
pub struct ParseIntFailure {
    /// The pre-existing primitive error value being adapted.
    pub inner: core::num::ParseIntError,
}

impl Error for ParseIntFailure {
    open spec fn desc(&self) -> Seq<char> {
        "unable to parse integer"@
    }

    open spec fn cause_spec(&self) -> Option<Erased> {
        None
    }

    open spec fn tag() -> Tag {
        Tag::ParseInt
    }

    open spec fn erased(&self) -> Erased {
        Erased::ParseInt(*self)
    }

    proof fn erased_has_tag(&self) {
    }

    proof fn erased_injective(a: &Self, b: &Self) {
    }

    fn description(&self) -> (s: &str) {
        "unable to parse integer"
    }

    fn cause(&self) -> (c: Option<&Erased>) {
        None
    }

    fn type_id(&self) -> (t: Tag) {
        Tag::ParseInt
    }

    fn runtime_tag() -> (t: Tag) {
        Tag::ParseInt
    }

    fn erase(self) -> (e: Erased) {
        Erased::ParseInt(self)
    }

    fn project_ref(e: &Erased) -> (r: Option<&Self>) {
        match e {
            Erased::ParseInt(a) => Some(a),
            _ => None,
        }
    }

    fn project_mut(e: &mut Erased) -> (r: Option<&mut Self>) {
        match e {
            Erased::ParseInt(a) => Some(a),
            _ => None,
        }
    }

    fn recover(e: Erased) -> (r: Result<Self, Erased>) {
        match e {
            Erased::ParseInt(a) => Ok(a),
            other => Err(other),
        }
    }
}

/// Adapter for a failed floating-point parse.
#[derive(Debug)]
pub struct ParseFloatFailure {
    /// The pre-existing primitive error value being adapted.
    pub inner: core::num::ParseFloatError,
}

impl Error for ParseFloatFailure {
    open spec fn desc(&self) -> Seq<char> {
        "invalid float literal"@
    }

    open spec fn cause_spec(&self) -> Option<Erased> {
        None
    }

    open spec fn tag() -> Tag {
        Tag::ParseFloat
    }

    open spec fn erased(&self) -> Erased {
        Erased::ParseFloat(*self)
    }

    proof fn erased_has_tag(&self) {
    }

    proof fn erased_injective(a: &Self, b: &Self) {
    }

    fn description(&self) -> (s: &str) {
        "invalid float literal"
    }

    fn cause(&self) -> (c: Option<&Erased>) {
        None
    }

    fn type_id(&self) -> (t: Tag) {
        Tag::ParseFloat
    }

    fn runtime_tag() -> (t: Tag) {
        Tag::ParseFloat
    }

    fn erase(self) -> (e: Erased) {
        Erased::ParseFloat(self)
    }

    fn project_ref(e: &Erased) -> (r: Option<&Self>) {
        match e {
            Erased::ParseFloat(a) => Some(a),
            _ => None,
        }
    }

    fn project_mut(e: &mut Erased) -> (r: Option<&mut Self>) {
        match e {
            Erased::ParseFloat(a) => Some(a),
            _ => None,
        }
    }

    fn recover(e: Erased) -> (r: Result<Self, Erased>) {
        match e {
            Erased::ParseFloat(a) => Ok(a),
            other => Err(other),
        }
    }
}

/// Adapter for a failed narrowing integer conversion.
#[derive(Debug)]
pub struct TryFromIntFailure {
    /// The pre-existing primitive error value being adapted.
    pub inner: core::num::TryFromIntError,
}

impl Error for TryFromIntFailure {
    open spec fn desc(&self) -> Seq<char> {
        "out of range integral type conversion attempted"@
    }

    open spec fn cause_spec(&self) -> Option<Erased> {
        None
    }

    open spec fn tag() -> Tag {
        Tag::TryFromInt
    }

    open spec fn erased(&self) -> Erased {
        Erased::TryFromInt(*self)
    }

    proof fn erased_has_tag(&self) {
    }

    proof fn erased_injective(a: &Self, b: &Self) {
    }

    fn description(&self) -> (s: &str) {
        "out of range integral type conversion attempted"
    }

    fn cause(&self) -> (c: Option<&Erased>) {
        None
    }

    fn type_id(&self) -> (t: Tag) {
        Tag::TryFromInt
    }

    fn runtime_tag() -> (t: Tag) {
        Tag::TryFromInt
    }

    fn erase(self) -> (e: Erased) {
        Erased::TryFromInt(self)
    }

    fn project_ref(e: &Erased) -> (r: Option<&Self>) {
        match e {
            Erased::TryFromInt(a) => Some(a),
            _ => None,
        }
    }

    fn project_mut(e: &mut Erased) -> (r: Option<&mut Self>) {
        match e {
            Erased::TryFromInt(a) => Some(a),
            _ => None,
        }
    }

    fn recover(e: Erased) -> (r: Result<Self, Erased>) {
        match e {
            Erased::TryFromInt(a) => Ok(a),
            other => Err(other),
        }
    }
}

/// Adapter for malformed UTF-8 in a borrowed byte view.
#[derive(Debug)]
pub struct Utf8Failure {
    /// The pre-existing primitive error value being adapted.
    pub inner: core::str::Utf8Error,
}

impl Error for Utf8Failure {
    open spec fn desc(&self) -> Seq<char> {
        "invalid utf-8: corrupt contents"@
    }

    open spec fn cause_spec(&self) -> Option<Erased> {
        None
    }

    open spec fn tag() -> Tag {
        Tag::Utf8
    }

    open spec fn erased(&self) -> Erased {
        Erased::Utf8(*self)
    }

    proof fn erased_has_tag(&self) {
    }

    proof fn erased_injective(a: &Self, b: &Self) {
    }

    fn description(&self) -> (s: &str) {
        "invalid utf-8: corrupt contents"
    }

    fn cause(&self) -> (c: Option<&Erased>) {
        None
    }

    fn type_id(&self) -> (t: Tag) {
        Tag::Utf8
    }

    fn runtime_tag() -> (t: Tag) {
        Tag::Utf8
    }

    fn erase(self) -> (e: Erased) {
        Erased::Utf8(self)
    }

    fn project_ref(e: &Erased) -> (r: Option<&Self>) {
        match e {
            Erased::Utf8(a) => Some(a),
            _ => None,
        }
    }

    fn project_mut(e: &mut Erased) -> (r: Option<&mut Self>) {
        match e {
            Erased::Utf8(a) => Some(a),
            _ => None,
        }
    }

    fn recover(e: Erased) -> (r: Result<Self, Erased>) {
        match e {
            Erased::Utf8(a) => Ok(a),
            other => Err(other),
        }
    }
}

/// Adapter for malformed UTF-8 met while taking ownership of a byte buffer.
#[derive(Debug)]
pub struct FromUtf8Failure {
    /// The pre-existing primitive error value being adapted.
    pub inner: std::string::FromUtf8Error,
}

impl Error for FromUtf8Failure {
    open spec fn desc(&self) -> Seq<char> {
        "invalid utf-8"@
    }

    open spec fn cause_spec(&self) -> Option<Erased> {
        None
    }

    open spec fn tag() -> Tag {
        Tag::FromUtf8
    }

    open spec fn erased(&self) -> Erased {
        Erased::FromUtf8(*self)
    }

    proof fn erased_has_tag(&self) {
    }

    proof fn erased_injective(a: &Self, b: &Self) {
    }

    fn description(&self) -> (s: &str) {
        "invalid utf-8"
    }

    fn cause(&self) -> (c: Option<&Erased>) {
        None
    }

    fn type_id(&self) -> (t: Tag) {
        Tag::FromUtf8
    }

    fn runtime_tag() -> (t: Tag) {
        Tag::FromUtf8
    }

    fn erase(self) -> (e: Erased) {
        Erased::FromUtf8(self)
    }

    fn project_ref(e: &Erased) -> (r: Option<&Self>) {
        match e {
            Erased::FromUtf8(a) => Some(a),
            _ => None,
        }
    }

    fn project_mut(e: &mut Erased) -> (r: Option<&mut Self>) {
        match e {
            Erased::FromUtf8(a) => Some(a),
            _ => None,
        }
    }

    fn recover(e: Erased) -> (r: Result<Self, Erased>) {
        match e {
            Erased::FromUtf8(a) => Ok(a),
            other => Err(other),
        }
    }
}

/// Adapter for malformed UTF-16 input.
#[derive(Debug)]
pub struct FromUtf16Failure {
    /// The pre-existing primitive error value being adapted.
    pub inner: std::string::FromUtf16Error,
}

impl Error for FromUtf16Failure {
    open spec fn desc(&self) -> Seq<char> {
        "invalid utf-16"@
    }

    open spec fn cause_spec(&self) -> Option<Erased> {
        None
    }

    open spec fn tag() -> Tag {
        Tag::FromUtf16
    }

    open spec fn erased(&self) -> Erased {
        Erased::FromUtf16(*self)
    }

    proof fn erased_has_tag(&self) {
    }

    proof fn erased_injective(a: &Self, b: &Self) {
    }

    fn description(&self) -> (s: &str) {
        "invalid utf-16"
    }

    fn cause(&self) -> (c: Option<&Erased>) {
        None
    }

    fn type_id(&self) -> (t: Tag) {
        Tag::FromUtf16
    }

    fn runtime_tag() -> (t: Tag) {
        Tag::FromUtf16
    }

    fn erase(self) -> (e: Erased) {
        Erased::FromUtf16(self)
    }

    fn project_ref(e: &Erased) -> (r: Option<&Self>) {
        match e {
            Erased::FromUtf16(a) => Some(a),
            _ => None,
        }
    }

    fn project_mut(e: &mut Erased) -> (r: Option<&mut Self>) {
        match e {
            Erased::FromUtf16(a) => Some(a),
            _ => None,
        }
    }

    fn recover(e: Erased) -> (r: Result<Self, Erased>) {
        match e {
            Erased::FromUtf16(a) => Ok(a),
            other => Err(other),
        }
    }
}

/// Adapter for a failure while formatting output.
#[derive(Debug)]
pub struct FormatFailure {
    /// The pre-existing primitive error value being adapted.
    pub inner: core::fmt::Error,
}

impl Error for FormatFailure {
    open spec fn desc(&self) -> Seq<char> {
        "an error occurred when formatting an argument"@
    }

    open spec fn cause_spec(&self) -> Option<Erased> {
        None
    }

    open spec fn tag() -> Tag {
        Tag::Format
    }

    open spec fn erased(&self) -> Erased {
        Erased::Format(*self)
    }

    proof fn erased_has_tag(&self) {
    }

    proof fn erased_injective(a: &Self, b: &Self) {
    }

    fn description(&self) -> (s: &str) {
        "an error occurred when formatting an argument"
    }

    fn cause(&self) -> (c: Option<&Erased>) {
        None
    }

    fn type_id(&self) -> (t: Tag) {
        Tag::Format
    }

    fn runtime_tag() -> (t: Tag) {
        Tag::Format
    }

    fn erase(self) -> (e: Erased) {
        Erased::Format(self)
    }

    fn project_ref(e: &Erased) -> (r: Option<&Self>) {
        match e {
            Erased::Format(a) => Some(a),
            _ => None,
        }
    }

    fn project_mut(e: &mut Erased) -> (r: Option<&mut Self>) {
        match e {
            Erased::Format(a) => Some(a),
            _ => None,
        }
    }

    fn recover(e: Erased) -> (r: Result<Self, Erased>) {
        match e {
            Erased::Format(a) => Ok(a),
            other => Err(other),
        }
    }
}

/// Adapter for a shared borrow refused because an exclusive borrow was live.
#[derive(Debug)]
pub struct BorrowFailure {
    /// The pre-existing primitive error value being adapted.
    pub inner: core::cell::BorrowError,
}

impl Error for BorrowFailure {
    open spec fn desc(&self) -> Seq<char> {
        "already mutably borrowed"@
    }

    open spec fn cause_spec(&self) -> Option<Erased> {
        None
    }

    open spec fn tag() -> Tag {
        Tag::Borrow
    }

    open spec fn erased(&self) -> Erased {
        Erased::Borrow(*self)
    }

    proof fn erased_has_tag(&self) {
    }

    proof fn erased_injective(a: &Self, b: &Self) {
    }

    fn description(&self) -> (s: &str) {
        "already mutably borrowed"
    }

    fn cause(&self) -> (c: Option<&Erased>) {
        None
    }

    fn type_id(&self) -> (t: Tag) {
        Tag::Borrow
    }

    fn runtime_tag() -> (t: Tag) {
        Tag::Borrow
    }

    fn erase(self) -> (e: Erased) {
        Erased::Borrow(self)
    }

    fn project_ref(e: &Erased) -> (r: Option<&Self>) {
        match e {
            Erased::Borrow(a) => Some(a),
            _ => None,
        }
    }

    fn project_mut(e: &mut Erased) -> (r: Option<&mut Self>) {
        match e {
            Erased::Borrow(a) => Some(a),
            _ => None,
        }
    }

    fn recover(e: Erased) -> (r: Result<Self, Erased>) {
        match e {
            Erased::Borrow(a) => Ok(a),
            other => Err(other),
        }
    }
}

/// Adapter for an exclusive borrow refused because a borrow was live.
#[derive(Debug)]
pub struct BorrowMutFailure {
    /// The pre-existing primitive error value being adapted.
    pub inner: core::cell::BorrowMutError,
}

impl Error for BorrowMutFailure {
    open spec fn desc(&self) -> Seq<char> {
        "already borrowed"@
    }

    open spec fn cause_spec(&self) -> Option<Erased> {
        None
    }

    open spec fn tag() -> Tag {
        Tag::BorrowMut
    }

    open spec fn erased(&self) -> Erased {
        Erased::BorrowMut(*self)
    }

    proof fn erased_has_tag(&self) {
    }

    proof fn erased_injective(a: &Self, b: &Self) {
    }

    fn description(&self) -> (s: &str) {
        "already borrowed"
    }

    fn cause(&self) -> (c: Option<&Erased>) {
        None
    }

    fn type_id(&self) -> (t: Tag) {
        Tag::BorrowMut
    }

    fn runtime_tag() -> (t: Tag) {
        Tag::BorrowMut
    }

    fn erase(self) -> (e: Erased) {
        Erased::BorrowMut(self)
    }

    fn project_ref(e: &Erased) -> (r: Option<&Self>) {
        match e {
            Erased::BorrowMut(a) => Some(a),
            _ => None,
        }
    }

    fn project_mut(e: &mut Erased) -> (r: Option<&mut Self>) {
        match e {
            Erased::BorrowMut(a) => Some(a),
            _ => None,
        }
    }

    fn recover(e: Erased) -> (r: Result<Self, Erased>) {
        match e {
            Erased::BorrowMut(a) => Ok(a),
            other => Err(other),
        }
    }
}

} // verus!
