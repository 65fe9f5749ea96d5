//! Core of a content-tree mirror: walks a source tree of content documents,
//! derives the parallel destination tree of rendered pages and per-directory
//! indexes, and turns filesystem change notifications into mirror updates.
//!
//! All tree, metadata and routing logic is verified.  Reading the real
//! filesystem, rendering templates and performing the planned writes are the
//! embedding application's job: the walker returns a plan of [`action::Action`]
//! values instead of touching the disk itself.

use vstd::prelude::*;

pub mod action;
pub mod config;
pub mod dates;
pub mod errors;
pub mod events;
pub mod filters;
pub mod generator;
pub mod header;
pub mod index;
pub mod laws;
pub mod metadata;
pub mod order;
pub mod page;
pub mod publishers;
pub mod replicator;
pub mod site;
pub mod text;
pub mod walker;

verus! {

} // verus!
