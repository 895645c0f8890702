//! The type-tagged envelope.
//!
//! A [`RawError`] is an erasable error value tagged by a marker type: a
//! short static description, an optional owned elaboration, an optional
//! opaque payload, and an optional owned type-erased cause. Construction
//! never fails and an envelope is never mutated afterwards; it is read, or
//! consumed by erasure or recovery.

use vstd::prelude::*;
use core::marker::PhantomData;
use crate::tag::Marker;
use crate::link::Extensions;
use crate::link::LinkView;
use crate::link::link_of;
use crate::link::link_label;
use crate::erased::AbstractError;
use crate::erased::cause_links;
use crate::protocol::Error;

verus! {

/// An erasable error value of the family named by the marker `M`.
///
/// The marker is a static label only: it is never inspected at runtime,
/// where identity checks go through the family's tag instead.
pub struct RawError<M> {
    /// Short, static, human-readable label of the error.
    pub description: Option<&'static str>,
    /// Longer, instance-specific elaboration.
    pub details: Option<String>,
    /// Opaque family-specific payload.
    pub extensions: Option<Extensions>,
    /// The type-erased error this error was caused by, if any.
    pub cause: Option<Box<AbstractError>>,
    /// The family marker, a static label carried only at the type level.
    pub marker: PhantomData<M>,
}

impl<M: Marker> View for RawError<M> {
    type V = Seq<LinkView>;

    /// An envelope is modelled as its cause chain, head first: its own
    /// link followed by the links of its cause.
    open spec fn view(&self) -> Seq<LinkView> {
        seq![link_of(M::tag_spec(), self.description, self.details, self.extensions)]
            + cause_links(self.cause)
    }
}

impl<M: Marker> RawError<M> {
    /// Builds an envelope from its parts. All parts are optional: an
    /// envelope with nothing supplied is a legal, minimal opaque error.
    pub fn new(
        description: Option<&'static str>,
        details: Option<String>,
        extensions: Option<Extensions>,
        cause: Option<Box<AbstractError>>,
    ) -> (r: RawError<M>)
        ensures
            r.description == description,
            r.details == details,
            r.extensions == extensions,
            r.cause == cause,
    {
        RawError { description, details, extensions, cause, marker: PhantomData }
    }

    /// Whether this envelope's family is the one named by the marker `R`:
    /// true exactly when the two markers carry the same tag code.
    pub fn is<R: Marker>(&self) -> (b: bool)
        ensures
            b == (M::tag_spec() == R::tag_spec()),
    {
        M::tag() == R::tag()
    }

    /// Erases the envelope into the opaque handle. The erasure is lossless:
    /// the handle's model is exactly the envelope's.
    pub fn to_abstract(self) -> (r: AbstractError)
        ensures
            r@ == self@,
    {
        AbstractError::assemble(
            M::tag(),
            self.description,
            self.details,
            self.extensions,
            self.cause,
        )
    }

    /// Attempts to recover a concrete error of the family named by `R`
    /// from this envelope. The family tags are compared first; on a
    /// mismatch the result is `None` — an expected outcome, never a fault —
    /// and only on a match is the concrete type asked to rebuild itself.
    pub fn to<C, R>(self) -> (r: Option<C>) where R: Marker, C: Error<R>,
        ensures
            M::tag_spec() != R::tag_spec() ==> r is None,
            M::tag_spec() == R::tag_spec() ==> r == C::recover_spec(self@),
    {
        if M::tag() == R::tag() {
            let relabeled: RawError<R> = RawError {
                description: self.description,
                details: self.details,
                extensions: self.extensions,
                cause: self.cause,
                marker: PhantomData,
            };
            proof {
                assert(relabeled@ =~= self@);
            }
            C::from_raw(&relabeled)
        } else {
            None
        }
    }

    /// Erases a concrete error into an envelope of its family. Total: the
    /// erasure direction never fails, so the result is always present.
    pub fn convert<E: Error<M>>(err: &E) -> (r: Option<RawError<M>>)
        ensures
            r matches Some(raw) && raw@ == err.erase_spec(),
    {
        Some(err.as_raw())
    }

    /// The minimal textual rendering of the envelope: its description, or
    /// a fixed placeholder when none was supplied. Never fails.
    pub fn description_text(&self) -> (r: &'static str)
        ensures
            r@ == link_label(self@[0]),
    {
        match self.description {
            Some(d) => d,
            None => "unknown error",
        }
    }
}

} // verus!
