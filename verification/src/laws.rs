//! The laws of the erasure discipline, stated once over the models that the
//! executable contracts speak of.

use vstd::prelude::*;
use crate::capability::Error;
use crate::markers::{markers_le, Markers};

verus! {

/// Tag fidelity: erasing a value of concrete type `T` yields an erased form
/// carrying `T`'s own tag, so a probe for `T` succeeds; a probe for any type
/// `U` with a different tag fails on it.
pub proof fn lemma_tag_fidelity<T: Error, U: Error>(v: &T)
    ensures
        v.erased().tag_of() == T::tag(),
        T::tag() != U::tag() ==> v.erased().tag_of() != U::tag(),
{
    T::erased_has_tag(v);
}

/// Successful consuming recovery: any value whose erased form is that of `v`
/// is `v` itself, so what a downcast hands back is the original value, with
/// no alteration of its fields.
pub proof fn lemma_recovery_exact<T: Error>(v: &T, r: &T)
    requires
        r.erased() == v.erased(),
    ensures
        r == v,
{
    T::erased_injective(v, r);
}

/// Narrowing is one-directional: a marker view reached by narrowing from a
/// view that was not shareable is itself not shareable — shareability is
/// never regained without reconstructing the handle from a value.
pub proof fn lemma_narrowing_one_directional(a: Markers, b: Markers)
    requires
        markers_le(b, a),
        a != Markers::Shareable,
    ensures
        b != Markers::Shareable,
{
}

/// Narrowing composes: two successive narrowings land no higher than either
/// step allowed.
pub proof fn lemma_narrowing_transitive(a: Markers, b: Markers, c: Markers)
    requires
        markers_le(b, a),
        markers_le(c, b),
    ensures
        markers_le(c, a),
{
}

} // verus!
