//! A type-erased error abstraction layer.
//!
//! Heterogeneous, statically unrelated error values are captured behind one
//! owning [`handle::Handle`], inspected through a minimal uniform contract
//! (short description, optional underlying cause), and later safely recovered
//! back into their original concrete type.
//!
//! Type identity is carried by an explicit runtime tag stored alongside the
//! erased value, so recovery is a checked, never blind, reinterpretation: a
//! failed consuming downcast hands the caller the original handle back,
//! unharmed. Two orthogonal transferability guarantees (movable across
//! execution contexts, and additionally shareable between them) attach to a
//! handle at construction and may only be narrowed afterwards.

pub mod capability;
pub mod erased;
pub mod handle;
pub mod laws;
pub mod markers;
pub mod primitive;
pub mod text;
