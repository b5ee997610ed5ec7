//! Transferability markers: guarantees about which execution contexts may
//! hold a handle, chosen at construction and only ever narrowed afterwards.

use vstd::prelude::*;

verus! {

/// The marker view of an owning handle.
///
/// The three views form a chain: a shareable handle is also transferable, and
/// a transferable handle is also freely movable within its own context. A
/// view is chosen when the handle is constructed and may only be narrowed
/// (guarantees dropped) afterwards; widening would claim a guarantee that was
/// never re-derived from the contained value itself.
#[derive(Clone, Copy, Debug, PartialEq, Eq, Structural)]
pub enum Markers {
    /// Freely movable within a single execution context; no cross-context
    /// guarantee.
    Unmarked,
    /// The contained value and its entire cause chain may move across
    /// independent execution contexts.
    Transferable,
    /// Transferable, and in addition safe to access concurrently from several
    /// contexts through immutable views.
    Shareable,
}

/// How many guarantees a marker view carries.
pub open spec fn markers_rank(m: Markers) -> int {
    match m {
        Markers::Unmarked => 0,
        Markers::Transferable => 1,
        Markers::Shareable => 2,
    }
}

/// `a` carries no more guarantees than `b`: a handle held at view `b` may be
/// narrowed to view `a`.
pub open spec fn markers_le(a: Markers, b: Markers) -> bool {
    markers_rank(a) <= markers_rank(b)
}

/// Runtime check of the narrowing order: true exactly when a handle held at
/// view `from` may be narrowed to view `to`.
pub fn markers_allows_narrowing(to: Markers, from: Markers) -> (r: bool)
    ensures
        r == markers_le(to, from),
{
    let to_rank: u8 = match to {
        Markers::Unmarked => 0,
        Markers::Transferable => 1,
        Markers::Shareable => 2,
    };
    let from_rank: u8 = match from {
        Markers::Unmarked => 0,
        Markers::Transferable => 1,
        Markers::Shareable => 2,
    };
    to_rank <= from_rank
}

} // verus!
