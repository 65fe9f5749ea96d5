//! The mirror session's configuration: where the source tree stands, where
//! the destination tree goes, and the site-wide parameters.

use vstd::prelude::*;
use vstd::string::StrSliceExecFns;
use crate::errors::ConfigIssue;
use crate::errors::MirrorError;
use crate::site::Site;
use crate::text::is_prefix_of;
use crate::text::spec_is_prefix;
use crate::text::spec_split_path;
use crate::text::split_path;

verus! {

/// The configuration a mirror session is built from.
#[derive(Clone, Debug)]
pub struct Config {
    pub source: String,
    pub destination: String,
    pub assets: String,
    pub site: Site,
}

/// An absolute path: non-empty and rooted.
pub open spec fn spec_is_absolute(s: Seq<char>) -> bool {
    s.len() > 0 && s[0] == '/'
}

/// What validating a configuration yields: the source and destination roots
/// must both be absolute and neither may lie inside the other (nor equal
/// it), else the mirror would feed on its own output.
pub open spec fn spec_validate_config(c: Config) -> Result<(), MirrorError> {
    if !spec_is_absolute(c.source@) {
        Err(MirrorError::Config(ConfigIssue::SourceNotAbsolute))
    } else if !spec_is_absolute(c.destination@) {
        Err(MirrorError::Config(ConfigIssue::DestinationNotAbsolute))
    } else if spec_is_prefix(spec_split_path(c.source@), spec_split_path(c.destination@))
        || spec_is_prefix(spec_split_path(c.destination@), spec_split_path(c.source@)) {
        Err(MirrorError::Config(ConfigIssue::Nested))
    } else {
        Ok(())
    }
}

impl Config {
    /// Check the two roots: absolute, and never nested one inside the other.
    /// The mirror session fails fast at startup on any error here.
    pub fn validate(&self) -> (r: Result<(), MirrorError>)
        ensures
            r == spec_validate_config(*self),
    {
        if self.source.as_str().is_empty() || self.source.as_str().get_char(0) != '/' {
            return Err(MirrorError::Config(ConfigIssue::SourceNotAbsolute));
        }
        if self.destination.as_str().is_empty() || self.destination.as_str().get_char(0) != '/' {
            return Err(MirrorError::Config(ConfigIssue::DestinationNotAbsolute));
        }
        let source_segments = split_path(self.source.as_str());
        let destination_segments = split_path(self.destination.as_str());
        if is_prefix_of(&source_segments, &destination_segments) || is_prefix_of(
            &destination_segments,
            &source_segments,
        ) {
            return Err(MirrorError::Config(ConfigIssue::Nested));
        }
        Ok(())
    }
}

} // verus!
