//! The mirror session and its event router: the full initial mirror pass,
//! and the mapping of filesystem notifications to mirror updates.

use vstd::prelude::*;
use crate::action::Action;
use crate::action::ActionV;
use crate::config::Config;
use crate::events::FsEvent;
use crate::events::FsEventKind;
use crate::events::RouteAction;
use crate::events::RouteActionV;
use crate::site::Site;
use crate::text::clone_segments;
use crate::text::concat_segments;
use crate::text::skip_segments;
use crate::text::spec_is_prefix;
use crate::text::spec_split_path;
use crate::text::split_path;
use crate::walker::SourceDir;
use crate::walker::generate_folder;
use crate::walker::spec_walk;

verus! {

/// The mirror session: the source and destination roots as segment paths,
/// and the site-wide parameters handed to every render.
#[derive(Clone, Debug)]
pub struct Generator {
    pub site: Site,
    pub origin: Vec<String>,
    pub destination: Vec<String>,
}

/// The plan of a full mirror pass: wipe the destination root, then walk the
/// whole source tree.
pub open spec fn spec_initial_replication(
    root: SourceDir,
    src: Seq<Seq<char>>,
    dst: Seq<Seq<char>>,
    now: int,
) -> Seq<ActionV> {
    seq![ActionV::WipeDestination { path: dst }] + spec_walk(root, src, src, dst, true, now)
}

/// The decisions for one reported path of one event kind.
pub open spec fn spec_route_one(
    origin: Seq<Seq<char>>,
    destination: Seq<Seq<char>>,
    kind: FsEventKind,
    p: Seq<char>,
) -> Seq<RouteActionV> {
    match kind {
        FsEventKind::CreateFolder => seq![
            RouteActionV::MirrorFolder { source: spec_split_path(p) },
        ],
        FsEventKind::RemoveFile => seq![
            RouteActionV::DeleteFile {
                destination: destination + spec_split_path(p).skip(origin.len() as int),
            },
        ],
        FsEventKind::RemoveFolder => seq![
            RouteActionV::DeleteFolder {
                destination: destination + spec_split_path(p).skip(origin.len() as int),
            },
        ],
        _ => Seq::empty(),
    }
}

/// The decisions for one event: each reported path routed in order.  A bare
/// file creation and a modification are logged only; anything unrecognized
/// is ignored.
pub open spec fn spec_route(
    origin: Seq<Seq<char>>,
    destination: Seq<Seq<char>>,
    kind: FsEventKind,
    paths: Seq<Seq<char>>,
) -> Seq<RouteActionV>
    decreases paths.len(),
{
    if paths.len() == 0 {
        Seq::empty()
    } else {
        spec_route_one(origin, destination, kind, paths[0]) + spec_route(
            origin,
            destination,
            kind,
            paths.drop_first(),
        )
    }
}

impl Generator {
    /// Build the mirror session from a configuration: the two roots split
    /// into segments, the site parameters taken over unchanged.
    pub fn new(config: Config) -> (r: Generator)
        ensures
            r.site == config.site,
            r.origin.deep_view() == spec_split_path(config.source@),
            r.destination.deep_view() == spec_split_path(config.destination@),
    {
        Generator {
            site: config.site,
            origin: split_path(config.source.as_str()),
            destination: split_path(config.destination.as_str()),
        }
    }

    /// The mirrored counterpart of a source path: the destination root plus
    /// the path's part below the source root.
    pub fn get_absolute_destination(&self, path: &Vec<String>) -> (r: Vec<String>)
        requires
            spec_is_prefix(self.origin.deep_view(), path.deep_view()),
        ensures
            r.deep_view() == self.destination.deep_view() + path.deep_view().skip(
                self.origin.deep_view().len() as int,
            ),
    {
        let relative = skip_segments(path, self.origin.len());
        concat_segments(&self.destination, &relative)
    }

    /// Plan the mirror of one directory, without recursing into subtrees.
    pub fn replicate_folder(&self, path: &Vec<String>, dir: &SourceDir, now: i64) -> (acts: Vec<
        Action,
    >)
        requires
            spec_is_prefix(self.origin.deep_view(), path.deep_view()),
            self.destination.deep_view().len() > 0,
        ensures
            acts.deep_view() == spec_walk(
                *dir,
                path.deep_view(),
                self.origin.deep_view(),
                self.destination.deep_view(),
                false,
                now as int,
            ),
    {
        generate_folder(&self.origin, &self.destination, path, dir, false, now)
    }

    /// Plan the destructive full rebuild: wipe the destination root, then
    /// walk the whole source tree.  This is the only pass after which the
    /// whole destination tree is consistent with the whole source tree.
    pub fn initial_replication(&self, root: &SourceDir, now: i64) -> (acts: Vec<Action>)
        requires
            self.destination.deep_view().len() > 0,
        ensures
            acts.deep_view() == spec_initial_replication(
                *root,
                self.origin.deep_view(),
                self.destination.deep_view(),
                now as int,
            ),
    {
        let mut acts: Vec<Action> = Vec::new();
        acts.push(Action::WipeDestination { path: clone_segments(&self.destination) });
        proof {
            assert(spec_is_prefix(self.origin.deep_view(), self.origin.deep_view())) by {
                assert(self.origin.deep_view().take(self.origin.deep_view().len() as int)
                    =~= self.origin.deep_view());
            }
        }
        let mut walk = generate_folder(&self.origin, &self.destination, &self.origin, root, true, now);
        let ghost acts0 = acts.deep_view();
        let ghost walkv = walk.deep_view();
        acts.append(&mut walk);
        proof {
            assert(acts.deep_view() =~= acts0 + walkv);
            assert(acts.deep_view() =~= spec_initial_replication(
                *root,
                self.origin.deep_view(),
                self.destination.deep_view(),
                now as int,
            ));
        }
        acts
    }

    /// Route one filesystem event: a created directory is mirrored again, a
    /// removed file or directory has exactly its mirrored counterpart
    /// removed, and everything else is logged only.  For remove events every
    /// reported path must lie under the source root.
    pub fn replicate(&self, event: &FsEvent) -> (acts: Vec<RouteAction>)
        requires
            event.kind == FsEventKind::RemoveFile || event.kind == FsEventKind::RemoveFolder
                ==> forall|i: int|
                0 <= i < event.paths.deep_view().len() ==> spec_is_prefix(
                    self.origin.deep_view(),
                    spec_split_path(event.paths.deep_view()[i]),
                ),
        ensures
            acts.deep_view() == spec_route(
                self.origin.deep_view(),
                self.destination.deep_view(),
                event.kind,
                event.paths.deep_view(),
            ),
    {
        let ghost originv = self.origin.deep_view();
        let ghost destinationv = self.destination.deep_view();
        let ghost pathsv = event.paths.deep_view();
        let mut acts: Vec<RouteAction> = Vec::new();
        let mut i: usize = 0;
        proof {
            assert(pathsv.skip(0) =~= pathsv);
            assert(acts.deep_view() =~= Seq::<RouteActionV>::empty());
        }
        while i < event.paths.len()
            invariant
                i <= event.paths.len(),
                pathsv == event.paths.deep_view(),
                originv == self.origin.deep_view(),
                destinationv == self.destination.deep_view(),
                event.kind == FsEventKind::RemoveFile || event.kind == FsEventKind::RemoveFolder
                    ==> forall|k: int|
                    0 <= k < pathsv.len() ==> spec_is_prefix(originv, spec_split_path(pathsv[k])),
                spec_route(originv, destinationv, event.kind, pathsv) =~= acts.deep_view()
                    + spec_route(originv, destinationv, event.kind, pathsv.skip(i as int)),
            decreases event.paths.len() - i,
        {
            proof {
                assert(pathsv.skip(i as int)[0] == pathsv[i as int]);
                assert(pathsv.skip(i as int).drop_first() =~= pathsv.skip(i + 1 as int));
            }
            let ghost acts0 = acts.deep_view();
            match event.kind {
                FsEventKind::CreateFolder => {
                    let source = split_path(event.paths[i].as_str());
                    acts.push(RouteAction::MirrorFolder { source });
                },
                FsEventKind::RemoveFile => {
                    let segments = split_path(event.paths[i].as_str());
                    let destination = self.get_absolute_destination(&segments);
                    acts.push(RouteAction::DeleteFile { destination });
                },
                FsEventKind::RemoveFolder => {
                    let segments = split_path(event.paths[i].as_str());
                    let destination = self.get_absolute_destination(&segments);
                    acts.push(RouteAction::DeleteFolder { destination });
                },
                _ => {
                },
            }
            proof {
                assert(acts.deep_view() =~= acts0 + spec_route_one(
                    originv,
                    destinationv,
                    event.kind,
                    pathsv[i as int],
                ));
            }
            i += 1;
        }
        proof {
            assert(pathsv.skip(pathsv.len() as int) =~= Seq::<Seq<char>>::empty());
        }
        acts
    }
}

} // verus!
