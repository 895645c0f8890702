//! A generic, extensible error representation.
//!
//! Library authors define their own strongly-typed error values and erase
//! them into a type-tagged envelope ([`RawError`]); callers handle the
//! envelope generically (description, details, cause chain) or recover the
//! exact concrete error back when its family tag matches.

pub mod tag;
pub mod link;
pub mod raw;
pub mod erased;
pub mod protocol;
pub mod families;

pub use tag::Marker;
pub use tag::TypeTag;
pub use tag::tag_of;
pub use link::Extensions;
pub use link::LinkView;
pub use link::ExtensionsView;
pub use raw::RawError;
pub use erased::AbstractError;
pub use protocol::Error;
pub use protocol::erase_then_recover;
pub use protocol::erase_then_recover_opaque;
pub use families::ParseErrorMarker;
pub use families::ParseError;
pub use families::IoMarker;
pub use families::IoError;
