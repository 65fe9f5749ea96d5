//! The mirror plan.  The verified walker does not touch the disk: it returns
//! a sequence of actions, which the embedding application performs in order.

use vstd::prelude::*;
use crate::index::Index;
use crate::index::IndexV;
use crate::page::Page;
use crate::page::PageV;

verus! {

/// Model of one planned step.
#[verifier::ext_equal]
pub enum ActionV {
    WipeDestination { path: Seq<Seq<char>> },
    EnsureDir { path: Seq<Seq<char>> },
    WritePage { path: Seq<Seq<char>>, page: PageV },
    WriteIndex { path: Seq<Seq<char>>, index: IndexV },
}

/// One planned step of a mirror pass.  Paths are absolute, as segments.
pub enum Action {
    /// Remove the directory recursively if it exists, then create it empty.
    WipeDestination { path: Vec<String> },
    /// Create the directory; succeeding when it already exists.
    EnsureDir { path: Vec<String> },
    /// Render `{site, page}` through the page's template and write the bytes
    /// at `path`, deleting a file already there first.
    WritePage { path: Vec<String>, page: Page },
    /// Render `{site, page, pages}` through the index's template and write
    /// the bytes at `path`, deleting a file already there first.
    WriteIndex { path: Vec<String>, index: Index },
}

impl View for Action {
    type V = ActionV;

    open spec fn view(&self) -> ActionV {
        match self {
            Action::WipeDestination { path } => ActionV::WipeDestination {
                path: path.deep_view(),
            },
            Action::EnsureDir { path } => ActionV::EnsureDir { path: path.deep_view() },
            Action::WritePage { path, page } => ActionV::WritePage {
                path: path.deep_view(),
                page: page@,
            },
            Action::WriteIndex { path, index } => ActionV::WriteIndex {
                path: path.deep_view(),
                index: index@,
            },
        }
    }
}

impl DeepView for Action {
    type V = ActionV;

    open spec fn deep_view(&self) -> ActionV {
        self.view()
    }
}

} // verus!
