//! The mathematical model of an erased error.
//!
//! Every envelope, concrete or opaque, is modelled as a non-empty sequence
//! of links, head first: the error itself followed by its cause chain. A
//! link records the family tag and the generic view of one error.

use vstd::prelude::*;

verus! {

/// Family-specific structured payload carried by an envelope, already
/// type-erased: the family's tag code together with the bytes the family
/// chose to store. The core never interprets the bytes.
pub struct Extensions {
    /// Tag code of the family that wrote the payload.
    pub tag: u64,
    /// The family's own encoding of its structured data.
    pub data: Vec<u8>,
}

/// Model of [`Extensions`].
#[verifier::ext_equal]
pub struct ExtensionsView {
    pub tag: u64,
    pub data: Seq<u8>,
}

impl View for Extensions {
    type V = ExtensionsView;

    open spec fn view(&self) -> ExtensionsView {
        ExtensionsView { tag: self.tag, data: self.data@ }
    }
}

/// Model of one link of a cause chain: the family tag and the generic
/// textual view of a single erased error.
#[verifier::ext_equal]
pub struct LinkView {
    pub tag: u64,
    pub description: Option<Seq<char>>,
    pub details: Option<Seq<char>>,
    pub extensions: Option<ExtensionsView>,
}

/// The model of an optional static label.
pub open spec fn text_view(o: Option<&str>) -> Option<Seq<char>> {
    match o {
        Some(s) => Some(s@),
        None => None,
    }
}

/// The model of an optional owned text.
pub open spec fn string_view(o: Option<String>) -> Option<Seq<char>> {
    match o {
        Some(s) => Some(s@),
        None => None,
    }
}

/// The model of an optional payload.
pub open spec fn extensions_view(o: Option<Extensions>) -> Option<ExtensionsView> {
    match o {
        Some(e) => Some(e@),
        None => None,
    }
}

/// The link describing an error with the given tag and fields.
pub open spec fn link_of(
    tag: u64,
    description: Option<&str>,
    details: Option<String>,
    extensions: Option<Extensions>,
) -> LinkView {
    LinkView {
        tag: tag,
        description: text_view(description),
        details: string_view(details),
        extensions: extensions_view(extensions),
    }
}

/// The text a minimal rendering of a link must emit: its description, or a
/// fixed placeholder when none was supplied. Rendering therefore never
/// fails.
pub open spec fn link_label(l: LinkView) -> Seq<char> {
    match l.description {
        Some(d) => d,
        None => "unknown error"@,
    }
}

} // verus!
