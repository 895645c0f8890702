//! Two ready-made error families.
//!
//! They serve both as usable errors and as the reference picture of how a
//! downstream family joins the protocol. `ParseError` erases lossily: its
//! envelope keeps only the family label, and rebuilding yields the fixed
//! location `7`, so only that value is declared recoverable. `IoError`
//! keeps its whole payload in the envelope's extensions and declares every
//! value recoverable.

use vstd::prelude::*;
use crate::tag::Marker;
use crate::link::Extensions;
use crate::link::ExtensionsView;
use crate::link::LinkView;
use crate::link::link_of;
use crate::raw::RawError;
use crate::protocol::Error;

verus! {

/// The marker of the parse-error family.
#[derive(Debug)]
pub struct ParseErrorMarker;

impl Marker for ParseErrorMarker {
    open spec fn tag_spec() -> u64 {
        1
    }

    fn tag() -> (code: u64) {
        1
    }
}

/// A parse error at some input location.
#[derive(Debug, Clone, Copy, PartialEq, Eq, Structural)]
pub struct ParseError {
    /// Input position the parse failed at.
    pub location: usize,
}

impl Error<ParseErrorMarker> for ParseError {
    open spec fn erase_spec(&self) -> Seq<LinkView> {
        seq![
            LinkView {
                tag: ParseErrorMarker::tag_spec(),
                description: Some("Parse-Error"@),
                details: None,
                extensions: None,
            },
        ]
    }

    open spec fn recover_spec(links: Seq<LinkView>) -> Option<ParseError> {
        Some(ParseError { location: 7 })
    }

    open spec fn round_trips(&self) -> bool {
        self.location == 7
    }

    fn as_raw(&self) -> (r: RawError<ParseErrorMarker>) {
        let r = RawError::new(Some("Parse-Error"), None, None, None);
        proof {
            assert(r@ =~~= self.erase_spec());
        }
        r
    }

    fn from_raw(raw: &RawError<ParseErrorMarker>) -> (r: Option<ParseError>) {
        Some(ParseError { location: 7 })
    }

    proof fn lemma_round_trip(&self) {
    }
}

/// The marker of the I/O-error family.
#[derive(Debug)]
pub struct IoMarker;

impl Marker for IoMarker {
    open spec fn tag_spec() -> u64 {
        2
    }

    fn tag() -> (code: u64) {
        2
    }
}

/// An I/O error carrying its OS-level error code.
#[derive(Debug, Clone, Copy, PartialEq, Eq, Structural)]
pub struct IoError {
    /// The error code the operation failed with.
    pub code: u8,
}

impl Error<IoMarker> for IoError {
    open spec fn erase_spec(&self) -> Seq<LinkView> {
        seq![
            LinkView {
                tag: IoMarker::tag_spec(),
                description: Some("Io-Error"@),
                details: None,
                extensions: Some(ExtensionsView { tag: IoMarker::tag_spec(), data: seq![self.code] }),
            },
        ]
    }

    open spec fn recover_spec(links: Seq<LinkView>) -> Option<IoError> {
        if links.len() >= 1 {
            match links[0].extensions {
                Some(ext) => if ext.data.len() >= 1 {
                    Some(IoError { code: ext.data[0] })
                } else {
                    None
                },
                None => None,
            }
        } else {
            None
        }
    }

    open spec fn round_trips(&self) -> bool {
        true
    }

    fn as_raw(&self) -> (r: RawError<IoMarker>) {
        let mut data: Vec<u8> = Vec::new();
        data.push(self.code);
        let r = RawError::new(
            Some("Io-Error"),
            None,
            Some(Extensions { tag: IoMarker::tag(), data }),
            None,
        );
        proof {
            assert(r@ =~~= self.erase_spec());
        }
        r
    }

    fn from_raw(raw: &RawError<IoMarker>) -> (r: Option<IoError>) {
        match &raw.extensions {
            Some(ext) => {
                if ext.data.len() >= 1 {
                    Some(IoError { code: ext.data[0] })
                } else {
                    None
                }
            },
            None => None,
        }
    }

    proof fn lemma_round_trip(&self) {
    }
}

} // verus!
