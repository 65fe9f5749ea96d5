//! The string-path mirror session: the same roles as [`crate::generator`],
//! with the two roots held as plain path strings and the mirrored
//! counterpart computed by swapping the source prefix for the destination.

use vstd::prelude::*;
use vstd::string::StrSliceExecFns;
use vstd::string::StringExecFns;
use crate::action::Action;
use crate::action::ActionV;
use crate::events::FsEvent;
use crate::events::FsEventKind;
use crate::generator::spec_initial_replication;
use crate::text::spec_split_path;
use crate::text::split_path;
use crate::walker::SourceDir;
use crate::walker::generate_folder;

verus! {

/// A mirror session over plain path strings.
#[derive(Clone, Debug)]
pub struct Replicator {
    pub origin: String,
    pub destination: String,
}

/// Whether the characters of `prefix` open the string `s`.
pub open spec fn spec_starts_with(s: Seq<char>, prefix: Seq<char>) -> bool {
    prefix.len() <= s.len() && s.take(prefix.len() as int) == prefix
}

/// Model of one routing decision over path strings.
#[verifier::ext_equal]
pub enum PathActionV {
    MirrorFolder { source: Seq<char> },
    DeleteFile { destination: Seq<char> },
    DeleteFolder { destination: Seq<char> },
}

/// One routing decision over path strings.
pub enum PathAction {
    MirrorFolder { source: String },
    DeleteFile { destination: String },
    DeleteFolder { destination: String },
}

impl View for PathAction {
    type V = PathActionV;

    open spec fn view(&self) -> PathActionV {
        match self {
            PathAction::MirrorFolder { source } => PathActionV::MirrorFolder { source: source@ },
            PathAction::DeleteFile { destination } => PathActionV::DeleteFile {
                destination: destination@,
            },
            PathAction::DeleteFolder { destination } => PathActionV::DeleteFolder {
                destination: destination@,
            },
        }
    }
}

impl DeepView for PathAction {
    type V = PathActionV;

    open spec fn deep_view(&self) -> PathActionV {
        self.view()
    }
}

/// The decisions for one reported path string of one event kind.
pub open spec fn spec_route_str_one(
    origin: Seq<char>,
    destination: Seq<char>,
    kind: FsEventKind,
    p: Seq<char>,
) -> Seq<PathActionV> {
    match kind {
        FsEventKind::CreateFolder => seq![PathActionV::MirrorFolder { source: p }],
        FsEventKind::RemoveFile => seq![
            PathActionV::DeleteFile { destination: destination + p.skip(origin.len() as int) },
        ],
        FsEventKind::RemoveFolder => seq![
            PathActionV::DeleteFolder { destination: destination + p.skip(origin.len() as int) },
        ],
        _ => Seq::empty(),
    }
}

/// The decisions for one event over path strings.
pub open spec fn spec_route_str(
    origin: Seq<char>,
    destination: Seq<char>,
    kind: FsEventKind,
    paths: Seq<Seq<char>>,
) -> Seq<PathActionV>
    decreases paths.len(),
{
    if paths.len() == 0 {
        Seq::empty()
    } else {
        spec_route_str_one(origin, destination, kind, paths[0]) + spec_route_str(
            origin,
            destination,
            kind,
            paths.drop_first(),
        )
    }
}

impl Replicator {
    /// Build a session from the two roots.
    pub fn new(origin: &str, destination: &str) -> (r: Replicator)
        ensures
            r.origin@ == origin@,
            r.destination@ == destination@,
    {
        Replicator {
            origin: String::from_str(origin),
            destination: String::from_str(destination),
        }
    }

    /// The mirrored counterpart of a source path: the destination root
    /// followed by the path's part after the source root.
    pub fn get_absolute_destination(&self, path: &str) -> (r: String)
        requires
            spec_starts_with(path@, self.origin@),
        ensures
            r@ == self.destination@ + path@.skip(self.origin@.len() as int),
    {
        let n = self.origin.as_str().unicode_len();
        let len = path.unicode_len();
        let rest = path.substring_char(n, len);
        proof {
            assert(path@.subrange(n as int, len as int) =~= path@.skip(n as int));
        }
        self.destination.clone().concat(rest)
    }

    /// Plan the destructive full rebuild: wipe the destination root, then
    /// walk the whole source tree.
    pub fn initial_replication(&self, root: &SourceDir, now: i64) -> (acts: Vec<Action>)
        requires
            spec_split_path(self.destination@).len() > 0,
        ensures
            acts.deep_view() == spec_initial_replication(
                *root,
                spec_split_path(self.origin@),
                spec_split_path(self.destination@),
                now as int,
            ),
    {
        let origin = split_path(self.origin.as_str());
        let destination = split_path(self.destination.as_str());
        let mut acts: Vec<Action> = Vec::new();
        acts.push(Action::WipeDestination { path: crate::text::clone_segments(&destination) });
        proof {
            assert(crate::text::spec_is_prefix(origin.deep_view(), origin.deep_view())) by {
                assert(origin.deep_view().take(origin.deep_view().len() as int) =~= origin.deep_view());
            }
        }
        let mut walk = generate_folder(&origin, &destination, &origin, root, true, now);
        let ghost acts0 = acts.deep_view();
        let ghost walkv = walk.deep_view();
        acts.append(&mut walk);
        proof {
            assert(acts.deep_view() =~= acts0 + walkv);
            assert(acts.deep_view() =~= spec_initial_replication(
                *root,
                spec_split_path(self.origin@),
                spec_split_path(self.destination@),
                now as int,
            ));
        }
        acts
    }

    /// Route one filesystem event over path strings: a created directory is
    /// mirrored again, a removed file or directory has exactly its mirrored
    /// counterpart removed, and everything else is logged only.
    pub fn replicate(&self, event: &FsEvent) -> (acts: Vec<PathAction>)
        requires
            event.kind == FsEventKind::RemoveFile || event.kind == FsEventKind::RemoveFolder
                ==> forall|i: int|
                0 <= i < event.paths.deep_view().len() ==> spec_starts_with(
                    event.paths.deep_view()[i],
                    self.origin@,
                ),
        ensures
            acts.deep_view() == spec_route_str(
                self.origin@,
                self.destination@,
                event.kind,
                event.paths.deep_view(),
            ),
    {
        let ghost originv = self.origin@;
        let ghost destinationv = self.destination@;
        let ghost pathsv = event.paths.deep_view();
        let mut acts: Vec<PathAction> = Vec::new();
        let mut i: usize = 0;
        proof {
            assert(pathsv.skip(0) =~= pathsv);
            assert(acts.deep_view() =~= Seq::<PathActionV>::empty());
        }
        while i < event.paths.len()
            invariant
                i <= event.paths.len(),
                pathsv == event.paths.deep_view(),
                originv == self.origin@,
                destinationv == self.destination@,
                event.kind == FsEventKind::RemoveFile || event.kind == FsEventKind::RemoveFolder
                    ==> forall|k: int|
                    0 <= k < pathsv.len() ==> spec_starts_with(pathsv[k], originv),
                spec_route_str(originv, destinationv, event.kind, pathsv) =~= acts.deep_view()
                    + spec_route_str(originv, destinationv, event.kind, pathsv.skip(i as int)),
            decreases event.paths.len() - i,
        {
            proof {
                assert(pathsv.skip(i as int)[0] == pathsv[i as int]);
                assert(pathsv.skip(i as int).drop_first() =~= pathsv.skip(i + 1 as int));
            }
            let ghost acts0 = acts.deep_view();
            match event.kind {
                FsEventKind::CreateFolder => {
                    let source = event.paths[i].clone();
                    acts.push(PathAction::MirrorFolder { source });
                },
                FsEventKind::RemoveFile => {
                    let destination = self.get_absolute_destination(event.paths[i].as_str());
                    acts.push(PathAction::DeleteFile { destination });
                },
                FsEventKind::RemoveFolder => {
                    let destination = self.get_absolute_destination(event.paths[i].as_str());
                    acts.push(PathAction::DeleteFolder { destination });
                },
                _ => {
                },
            }
            proof {
                assert(acts.deep_view() =~= acts0 + spec_route_str_one(
                    originv,
                    destinationv,
                    event.kind,
                    pathsv[i as int],
                ));
            }
            i += 1;
        }
        proof {
            assert(pathsv.skip(pathsv.len() as int) =~= Seq::<Seq<char>>::empty());
        }
        acts
    }
}

} // verus!
