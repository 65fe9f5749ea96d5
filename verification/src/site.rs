//! The site-wide rendering parameters, passed unchanged into every render
//! context.

use vstd::prelude::*;
use crate::publishers::Mastodon;
use crate::publishers::Telegram;

verus! {

/// One outbound link shown by the site.
#[derive(Clone, Debug)]
pub struct Social {
    pub name: String,
    pub url: String,
}

/// The shared rendering parameters of the whole site.  Immutable for the
/// process lifetime once the mirror session is constructed.
#[derive(Clone, Debug)]
pub struct Site {
    pub url: String,
    pub language: String,
    pub language_direction: String,
    pub theme: String,
    pub title: String,
    pub description: String,
    pub author: String,
    pub avatar: String,
    pub email: String,
    pub telegram: Option<Telegram>,
    pub mastodon: Option<Mastodon>,
    pub socials: Option<Vec<Social>>,
}

} // verus!
