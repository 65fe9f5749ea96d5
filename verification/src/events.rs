//! Filesystem change notifications, as the event router consumes them, and
//! the routing decisions it hands back.

use vstd::prelude::*;

verus! {

/// The kind of a filesystem notification.  Anything the router does not
/// recognize is `Other` and is ignored.
#[derive(Clone, Copy, Debug, PartialEq, Eq, Structural)]
pub enum FsEventKind {
    CreateFile,
    CreateFolder,
    Modify,
    RemoveFile,
    RemoveFolder,
    Other,
}

/// One filesystem notification: a kind and the absolute paths it reports.
#[derive(Clone, Debug)]
pub struct FsEvent {
    pub kind: FsEventKind,
    pub paths: Vec<String>,
}

/// Model of one routing decision.
#[verifier::ext_equal]
pub enum RouteActionV {
    MirrorFolder { source: Seq<Seq<char>> },
    DeleteFile { destination: Seq<Seq<char>> },
    DeleteFolder { destination: Seq<Seq<char>> },
}

/// One routing decision.  Paths are segment paths; `MirrorFolder` names a
/// source directory whose subtree is to be walked again, the two delete
/// decisions name the mirrored destination to remove.
pub enum RouteAction {
    MirrorFolder { source: Vec<String> },
    DeleteFile { destination: Vec<String> },
    DeleteFolder { destination: Vec<String> },
}

impl View for RouteAction {
    type V = RouteActionV;

    open spec fn view(&self) -> RouteActionV {
        match self {
            RouteAction::MirrorFolder { source } => RouteActionV::MirrorFolder {
                source: source.deep_view(),
            },
            RouteAction::DeleteFile { destination } => RouteActionV::DeleteFile {
                destination: destination.deep_view(),
            },
            RouteAction::DeleteFolder { destination } => RouteActionV::DeleteFolder {
                destination: destination.deep_view(),
            },
        }
    }
}

impl DeepView for RouteAction {
    type V = RouteActionV;

    open spec fn deep_view(&self) -> RouteActionV {
        self.view()
    }
}

} // verus!
