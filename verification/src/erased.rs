//! The opaque error handle.
//!
//! An [`AbstractError`] is a fully type-erased envelope: the family marker
//! is gone and only its tag code remains, carried as data. The handle
//! exposes exactly the erased capability set — report the tag, give the
//! generic textual view, walk the cause chain, and attempt recovery of a
//! concrete type — so new families can be introduced downstream without
//! touching this core.

use vstd::prelude::*;
use crate::tag::Marker;
use crate::tag::TypeTag;
use crate::link::Extensions;
use crate::link::LinkView;
use crate::link::link_of;
use crate::link::link_label;
use crate::link::text_view;
use crate::link::string_view;
use crate::raw::RawError;
use crate::protocol::Error;

verus! {

/// A type-erased error: some envelope of some family, with the family
/// known only through its tag code.
pub struct AbstractError {
    pub(crate) tag: u64,
    pub(crate) description: Option<&'static str>,
    pub(crate) details: Option<String>,
    pub(crate) extensions: Option<Extensions>,
    pub(crate) cause: Option<Box<AbstractError>>,
}

/// The links contributed by an optional cause: the cause's whole chain, or
/// nothing.
pub open spec fn cause_links(c: Option<Box<AbstractError>>) -> Seq<LinkView> {
    match c {
        Some(b) => b.links(),
        None => Seq::empty(),
    }
}

impl AbstractError {
    /// The handle's model: its cause chain, head first. Each error owns its
    /// cause exclusively, so the chain is finite by construction and this
    /// recursion is well founded.
    pub closed spec fn links(&self) -> Seq<LinkView>
        decreases *self,
    {
        seq![link_of(self.tag, self.description, self.details, self.extensions)]
            + match self.cause {
                Some(c) => c.links(),
                None => Seq::empty(),
            }
    }
}

impl View for AbstractError {
    type V = Seq<LinkView>;

    open spec fn view(&self) -> Seq<LinkView> {
        self.links()
    }
}

/// A handle's chain always holds at least its own link.
pub proof fn lemma_chain_nonempty(e: &AbstractError)
    ensures
        e@.len() >= 1,
{
}

impl AbstractError {
    /// Assembles a handle from already-erased parts; the envelope's own
    /// erasure goes through here, since only this module sees the handle's
    /// insides.
    pub(crate) fn assemble(
        tag: u64,
        description: Option<&'static str>,
        details: Option<String>,
        extensions: Option<Extensions>,
        cause: Option<Box<AbstractError>>,
    ) -> (r: AbstractError)
        ensures
            r@ == seq![link_of(tag, description, details, extensions)] + cause_links(cause),
    {
        let r = AbstractError { tag, description, details, extensions, cause };
        proof {
            assert(r@ =~= seq![link_of(tag, description, details, extensions)]
                + cause_links(cause));
        }
        r
    }

    /// The tag of the family the erased envelope belonged to.
    pub fn tag(&self) -> (t: TypeTag)
        ensures
            t.code == self@[0].tag,
    {
        TypeTag { code: self.tag }
    }

    /// The erased envelope's description, exactly as supplied at
    /// construction.
    pub fn description(&self) -> (r: Option<&'static str>)
        ensures
            text_view(r) == self@[0].description,
    {
        self.description
    }

    /// The erased envelope's details, exactly as supplied at construction.
    pub fn details(&self) -> (r: &Option<String>)
        ensures
            string_view(*r) == self@[0].details,
    {
        &self.details
    }

    /// The erased envelope's cause, as another opaque handle: present
    /// exactly when the chain continues past this error, and then modelled
    /// by the rest of the chain.
    pub fn cause(&self) -> (r: Option<&AbstractError>)
        ensures
            match r {
                Some(c) => self@.len() > 1 && c@ == self@.skip(1),
                None => self@.len() == 1,
            },
    {
        match &self.cause {
            Some(b) => {
                proof {
                    lemma_chain_nonempty(b);
                    assert(b@ =~= self@.skip(1));
                }
                Some(&**b)
            },
            None => None,
        }
    }

    /// Consumes the handle and hands out its cause, for walking a chain
    /// with ownership — recovery consumes an envelope, so recovering a
    /// chained cause starts here. The cause is present exactly when the
    /// chain continues past this error, and is then modelled by the rest
    /// of the chain.
    pub fn into_cause(self) -> (r: Option<Box<AbstractError>>)
        ensures
            match r {
                Some(c) => self@.len() > 1 && c@ == self@.skip(1),
                None => self@.len() == 1,
            },
    {
        match self.cause {
            Some(b) => {
                proof {
                    lemma_chain_nonempty(&*b);
                    assert(b@ =~= self@.skip(1));
                }
                Some(b)
            },
            None => None,
        }
    }

    /// Attempts to recover a concrete error of the family named by `R`
    /// from the handle. The stored tag is compared with `R`'s first; on a
    /// mismatch the result is `None` — an expected outcome, never a fault —
    /// and only on a match is the concrete type asked to rebuild itself.
    pub fn recover<C, R>(self) -> (r: Option<C>) where R: Marker, C: Error<R>,
        ensures
            self@[0].tag != R::tag_spec() ==> r is None,
            self@[0].tag == R::tag_spec() ==> r == C::recover_spec(self@),
    {
        if self.tag == R::tag() {
            let ghost original = self@;
            let raw: RawError<R> = RawError::new(
                self.description,
                self.details,
                self.extensions,
                self.cause,
            );
            proof {
                assert(raw@ =~= original);
            }
            C::from_raw(&raw)
        } else {
            None
        }
    }

    /// The minimal textual rendering of the handle: the erased envelope's
    /// description, or a fixed placeholder when none was supplied. Never
    /// fails.
    pub fn description_text(&self) -> (r: &'static str)
        ensures
            r@ == link_label(self@[0]),
    {
        match self.description {
            Some(d) => d,
            None => "unknown error",
        }
    }

    /// Walks the whole cause chain and renders each link: one entry per
    /// link, in chain order, each the link's description or the fixed
    /// placeholder. The walk always terminates, after exactly as many steps
    /// as the chain was constructed with.
    pub fn chain_descriptions(&self) -> (r: Vec<&'static str>)
        ensures
            r@.len() == self@.len(),
            forall|i: int| 0 <= i < r@.len() ==> (#[trigger] r@[i])@ == link_label(self@[i]),
        decreases self@.len(),
    {
        let mut out: Vec<&'static str> = Vec::new();
        let head_text = self.description_text();
        out.push(head_text);
        match &self.cause {
            Some(c) => {
                proof {
                    assert(self@ == seq![self@[0]] + c@);
                }
                let mut rest = c.chain_descriptions();
                let ghost walked = rest@;
                out.append(&mut rest);
                proof {
                    assert forall|i: int| 0 <= i < out@.len() implies (#[trigger] out@[i])@
                        == link_label(self@[i]) by {
                        if i > 0 {
                            assert(out@[i] == walked[i - 1]);
                            assert(self@[i] == c@[i - 1]);
                        }
                    }
                }
            },
            None => {},
        }
        out
    }
}

} // verus!
