//! Type identity for error families.
//!
//! Each error family is named by a marker type. A marker is never
//! instantiated; it only parameterizes envelopes and supplies a [`TypeTag`],
//! the runtime-comparable identity of the family. There is no central
//! registry: every marker declares its own tag code, and two distinct
//! families must declare distinct codes for tags to discriminate them.

use vstd::prelude::*;

verus! {

/// An opaque, equatable, totally ordered identifier for an error family.
///
/// Two tags are equal exactly when their codes are equal; a marker type is
/// expected to hold one code for good, so equal tags mean the same family.
#[derive(Clone, Copy, Debug, PartialEq, Eq, PartialOrd, Ord, Hash, Structural)]
pub struct TypeTag {
    pub code: u64,
}

/// A compile-time label naming an error family.
///
/// Implementors pick a fixed code; `tag` reports it at runtime and always
/// agrees with the specification-level `tag_spec`.
pub trait Marker {
    /// The family's tag code, as a mathematical value.
    spec fn tag_spec() -> u64;

    /// The family's tag code, at runtime.
    fn tag() -> (code: u64)
        ensures
            code == Self::tag_spec(),
    ;
}

/// The tag of the family named by the marker `M`: a pure query on the
/// marker type, needing no instance of it.
pub fn tag_of<M: Marker>() -> (t: TypeTag)
    ensures
        t.code == M::tag_spec(),
{
    TypeTag { code: M::tag() }
}

} // verus!
