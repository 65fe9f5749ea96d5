//! Error vocabulary of the mirror core.

use vstd::prelude::*;

verus! {

/// A required metadata field that turned out empty after defaulting.
#[derive(Clone, Copy, Debug, PartialEq, Eq, Structural)]
pub enum MetaField {
    Title,
    Excerpt,
    Slug,
    Template,
}

/// What is wrong with a configuration.
#[derive(Clone, Copy, Debug, PartialEq, Eq, Structural)]
pub enum ConfigIssue {
    /// The source root is not an absolute path.
    SourceNotAbsolute,
    /// The destination root is not an absolute path.
    DestinationNotAbsolute,
    /// One of the two roots lies inside the other.
    Nested,
}

/// The error kinds of the mirror core.
///
/// Per-document failures (`Parse`, `Validation`, `Render`) are contained: the
/// document is dropped from its directory's output set and its siblings
/// proceed.  `Io` failures on event handling are surfaced to the caller.
/// `Config` is fatal at startup.
#[derive(Clone, Copy, Debug, PartialEq, Eq, Structural)]
pub enum MirrorError {
    /// The header block is absent where required, or malformed.
    Parse,
    /// A required metadata field is empty after defaulting.
    Validation(MetaField),
    /// A read, write, create or remove on the destination tree failed.
    Io,
    /// Template resolution or rendering failed.
    Render,
    /// The configuration is invalid.
    Config(ConfigIssue),
}

} // verus!
