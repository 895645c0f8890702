//! The conversion protocol: erase and recover.
//!
//! A concrete error type joins the protocol by implementing [`Error`] for
//! the one family marker it erases to. Erasure is total; recovery is
//! routed by tag comparison and is partial. The trait also carries the
//! protocol's law as a proof obligation: on every value the implementor
//! declares recoverable, recovery undoes erasure exactly.

use vstd::prelude::*;
use crate::tag::Marker;
use crate::link::LinkView;
use crate::raw::RawError;
use crate::erased::AbstractError;

verus! {

/// The capability of erasing into, and being rebuilt from, envelopes of
/// the family named by `M`.
pub trait Error<M: Marker>: Sized {
    /// The model of the envelope this value erases to.
    spec fn erase_spec(&self) -> Seq<LinkView>;

    /// The value rebuilt from an envelope with the given model, or `None`
    /// when the family's own payload invariants are not met. Tag routing is
    /// not this function's concern: the protocol compares tags before
    /// asking a concrete type to rebuild itself.
    spec fn recover_spec(links: Seq<LinkView>) -> Option<Self>;

    /// The values on which this family promises that recovery undoes
    /// erasure. A family whose erasure keeps its whole payload declares
    /// every value; a lossy family declares the values it can rebuild.
    spec fn round_trips(&self) -> bool;

    /// Erases the value into an envelope of its family. Total: every value
    /// of the type has exactly one envelope it erases to.
    fn as_raw(&self) -> (r: RawError<M>)
        ensures
            r@ == self.erase_spec(),
    ;

    /// Rebuilds a value from an envelope of this type's own family. The
    /// outcome is exactly what `recover_spec` says of the envelope's model;
    /// in particular a malformed payload yields `None`, never a fault.
    fn from_raw(raw: &RawError<M>) -> (r: Option<Self>)
        ensures
            r == Self::recover_spec(raw@),
    ;

    /// The protocol's law, owed by every implementor: on every value it
    /// declares recoverable, rebuilding from the erased envelope gives the
    /// value back.
    proof fn lemma_round_trip(&self)
        requires
            self.round_trips(),
        ensures
            Self::recover_spec(self.erase_spec()) == Some(*self),
    ;

    /// Whether this value's family is the one named by the marker `R`:
    /// true exactly when the two markers carry the same tag code.
    fn is<R: Marker>(&self) -> (b: bool)
        ensures
            b == (M::tag_spec() == R::tag_spec()),
    {
        M::tag() == R::tag()
    }
}

/// Erasing a concrete value into an envelope and recovering it through the
/// tag-routed protocol gives the value back, on every value its family
/// declares recoverable.
pub fn erase_then_recover<R: Marker, C: Error<R>>(v: C) -> (r: Option<C>)
    ensures
        r == C::recover_spec(v.erase_spec()),
        v.round_trips() ==> r == Some(v),
{
    let raw = v.as_raw();
    let recovered = raw.to::<C, R>();
    proof {
        if v.round_trips() {
            v.lemma_round_trip();
        }
    }
    recovered
}

/// Erasing a concrete value all the way into the opaque handle loses
/// nothing: recovery through the handle still gives the value back, on
/// every value its family declares recoverable.
pub fn erase_then_recover_opaque<R: Marker, C: Error<R>>(v: C) -> (r: Option<C>)
    ensures
        r == C::recover_spec(v.erase_spec()),
        v.round_trips() ==> r == Some(v),
{
    let handle: AbstractError = v.as_raw().to_abstract();
    let recovered = handle.recover::<C, R>();
    proof {
        if v.round_trips() {
            v.lemma_round_trip();
        }
    }
    recovered
}

} // verus!
