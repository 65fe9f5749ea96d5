//! The tree walker: from a snapshot of a source subtree to the ordered plan
//! of destination directories, pages and indexes that mirror it.
//!
//! The walk is depth-first, pre-order on directories.  Within one directory,
//! subtrees come first, then every collected member page, then the
//! directory's index — the index must list exactly the members that
//! validated, and is generated after all of them.

use vstd::prelude::*;
use crate::action::Action;
use crate::action::ActionV;
use crate::index::Index;
use crate::index::spec_index_actions;
use crate::index::spec_index_read;
use crate::order::sort_desc;
use crate::order::sort_pages;
use crate::page::Page;
use crate::page::PageV;
use crate::page::spec_page_actions;
use crate::page::spec_page_read;
use crate::text::clone_segments;
use crate::text::concat_segments;
use crate::text::is_md_name;
use crate::text::skip_segments;
use crate::text::spec_is_md;
use crate::text::spec_is_prefix;
use crate::text::str_eq;

verus! {

/// One file of a source-tree snapshot: its name and its text.
#[derive(Clone, Debug)]
pub struct SourceFile {
    pub name: String,
    pub text: String,
}

/// One directory of a source-tree snapshot: its name, its files and its
/// subdirectories, each in directory-listing order.
#[derive(Debug)]
pub struct SourceDir {
    pub name: String,
    pub files: Vec<SourceFile>,
    pub dirs: Vec<SourceDir>,
}

/// Text of the directory's own index document, when it has one.
pub open spec fn spec_index_text(files: Seq<SourceFile>) -> Option<Seq<char>>
    decreases files.len(),
{
    if files.len() == 0 {
        None
    } else if files[0].name@ == "index.md"@ {
        Some(files[0].text@)
    } else {
        spec_index_text(files.drop_first())
    }
}

/// The valid content units of a directory's file list, in listing order.
pub open spec fn spec_collect(files: Seq<SourceFile>, route: Seq<Seq<char>>, now: int) -> Seq<
    PageV,
>
    decreases files.len(),
{
    if files.len() == 0 {
        Seq::empty()
    } else {
        let rest = spec_collect(files.drop_first(), route, now);
        if spec_is_md(files[0].name@) {
            match spec_page_read(route, files[0].text@, now) {
                Some(p) => seq![p] + rest,
                None => rest,
            }
        } else {
            rest
        }
    }
}

/// A directory's members: its valid content units, ordered by publication
/// date, newest first, stable on listing-order ties.
pub open spec fn spec_members(files: Seq<SourceFile>, route: Seq<Seq<char>>, now: int) -> Seq<
    PageV,
> {
    sort_desc(spec_collect(files, route, now))
}

/// The page-generation plan of a member list, member by member in order.
pub open spec fn spec_members_actions(members: Seq<PageV>, dest: Seq<Seq<char>>) -> Seq<ActionV>
    decreases members.len(),
{
    if members.len() == 0 {
        Seq::empty()
    } else {
        spec_page_actions(members[0], dest) + spec_members_actions(members.drop_first(), dest)
    }
}

/// The whole plan of walking one directory: subtrees first (when the walk is
/// recursive), then the member pages, then the directory's index.  A
/// directory whose index does not validate keeps its members and loses only
/// the index output.
pub open spec fn spec_walk(
    d: SourceDir,
    path: Seq<Seq<char>>,
    src: Seq<Seq<char>>,
    dst: Seq<Seq<char>>,
    recursive: bool,
    now: int,
) -> Seq<ActionV>
    decreases d,
{
    let route = path.skip(src.len() as int);
    let dest = dst + route;
    let members = spec_members(d.files@, route, now);
    let subs = if recursive {
        spec_walk_dirs(d.dirs@, path, src, dst, now)
    } else {
        Seq::empty()
    };
    let index_acts = match spec_index_read(
        route,
        spec_index_text(d.files@),
        dest,
        members,
        now,
    ) {
        Ok(ix) => spec_index_actions(ix, dest),
        Err(_) => Seq::empty(),
    };
    subs + spec_members_actions(members, dest) + index_acts
}

/// The plans of a row of sibling subtrees, in listing order.
pub open spec fn spec_walk_dirs(
    ds: Seq<SourceDir>,
    path: Seq<Seq<char>>,
    src: Seq<Seq<char>>,
    dst: Seq<Seq<char>>,
    now: int,
) -> Seq<ActionV>
    decreases ds,
{
    if ds.len() == 0 {
        Seq::empty()
    } else {
        spec_walk(ds[0], path.push(ds[0].name@), src, dst, true, now) + spec_walk_dirs(
            ds.drop_first(),
            path,
            src,
            dst,
            now,
        )
    }
}

/// Find the text of the directory's `index.md`, when it has one.
fn find_index_text(files: &Vec<SourceFile>) -> (r: Option<&String>)
    ensures
        match r {
            Some(t) => spec_index_text(files@) == Some(t@),
            None => spec_index_text(files@) is None,
        },
{
    let mut i: usize = 0;
    proof {
        assert(files@.skip(0) =~= files@);
    }
    while i < files.len()
        invariant
            i <= files.len(),
            spec_index_text(files@) == spec_index_text(files@.skip(i as int)),
        decreases files.len() - i,
    {
        proof {
            assert(files@.skip(i as int)[0] == files@[i as int]);
            assert(files@.skip(i as int).drop_first() =~= files@.skip(i + 1 as int));
        }
        if str_eq(files[i].name.as_str(), "index.md") {
            return Some(&files[i].text);
        }
        i += 1;
    }
    proof {
        assert(files@.skip(files@.len() as int) =~= Seq::<SourceFile>::empty());
    }
    None
}

/// Collect the directory's valid content units, in listing order.
fn collect_pages(files: &Vec<SourceFile>, route: &Vec<String>, now: i64) -> (r: Vec<Page>)
    ensures
        r.deep_view() == spec_collect(files@, route.deep_view(), now as int),
{
    let ghost all = spec_collect(files@, route.deep_view(), now as int);
    let mut r: Vec<Page> = Vec::new();
    let mut i: usize = 0;
    proof {
        assert(files@.skip(0) =~= files@);
        assert(r.deep_view() =~= Seq::<PageV>::empty());
        assert(all =~= r.deep_view() + spec_collect(files@.skip(0), route.deep_view(), now as int));
    }
    while i < files.len()
        invariant
            i <= files.len(),
            all == spec_collect(files@, route.deep_view(), now as int),
            all =~= r.deep_view() + spec_collect(
                files@.skip(i as int),
                route.deep_view(),
                now as int,
            ),
        decreases files.len() - i,
    {
        let ghost rest = spec_collect(files@.skip(i as int), route.deep_view(), now as int);
        let ghost rest1 = spec_collect(files@.skip(i + 1 as int), route.deep_view(), now as int);
        proof {
            assert(files@.skip(i as int)[0] == files@[i as int]);
            assert(files@.skip(i as int).drop_first() =~= files@.skip(i + 1 as int));
        }
        if is_md_name(files[i].name.as_str()) {
            match Page::read(route, files[i].text.as_str(), now) {
                Some(p) => {
                    let ghost r0 = r.deep_view();
                    let ghost pv = p@;
                    r.push(p);
                    proof {
                        assert(r.deep_view() =~= r0.push(pv));
                        assert(rest =~= seq![pv] + rest1);
                        assert(r0.push(pv) =~= r0 + seq![pv]);
                        assert(all =~= r.deep_view() + rest1);
                    }
                },
                None => {
                    proof {
                        assert(rest =~= rest1);
                    }
                },
            }
        } else {
            proof {
                assert(rest =~= rest1);
            }
        }
        i += 1;
    }
    proof {
        assert(files@.skip(files@.len() as int) =~= Seq::<SourceFile>::empty());
        assert(r.deep_view() =~= all);
    }
    r
}

/// Walk one directory of the snapshot and plan its mirror: subtrees first
/// when `recursive`, then each member page, then the directory's index.
/// `path` is the directory's absolute source path; the source root must be
/// a prefix of it, and the destination root must not be empty.
pub fn generate_folder(
    src_root: &Vec<String>,
    dst_root: &Vec<String>,
    path: &Vec<String>,
    dir: &SourceDir,
    recursive: bool,
    now: i64,
) -> (acts: Vec<Action>)
    requires
        spec_is_prefix(src_root.deep_view(), path.deep_view()),
        dst_root.deep_view().len() > 0,
    ensures
        acts.deep_view() == spec_walk(
            *dir,
            path.deep_view(),
            src_root.deep_view(),
            dst_root.deep_view(),
            recursive,
            now as int,
        ),
    decreases *dir,
{
    let ghost pathv = path.deep_view();
    let ghost srcv = src_root.deep_view();
    let ghost dstv = dst_root.deep_view();
    let route = skip_segments(path, src_root.len());
    let dest = concat_segments(dst_root, &route);
    let ghost routev = route.deep_view();
    let ghost destv = dest.deep_view();

    let mut acts: Vec<Action> = Vec::new();
    if recursive {
        let mut i: usize = 0;
        proof {
            assert(dir.dirs@.skip(0) =~= dir.dirs@);
            assert(acts.deep_view() =~= Seq::<ActionV>::empty());
        }
        while i < dir.dirs.len()
            invariant
                i <= dir.dirs.len(),
                spec_is_prefix(srcv, pathv),
                srcv == src_root.deep_view(),
                pathv == path.deep_view(),
                dstv == dst_root.deep_view(),
                dstv.len() > 0,
                spec_walk_dirs(dir.dirs@, pathv, srcv, dstv, now as int) =~= acts.deep_view()
                    + spec_walk_dirs(dir.dirs@.skip(i as int), pathv, srcv, dstv, now as int),
            decreases dir.dirs.len() - i,
        {
            proof {
                assert(dir.dirs@.skip(i as int)[0] == dir.dirs@[i as int]);
                assert(dir.dirs@.skip(i as int).drop_first() =~= dir.dirs@.skip(i + 1 as int));
            }
            let mut child_path = clone_segments(path);
            child_path.push(dir.dirs[i].name.clone());
            proof {
                assert(child_path.deep_view() =~= pathv.push(dir.dirs@[i as int].name@));
                assert(spec_is_prefix(srcv, child_path.deep_view())) by {
                    assert(child_path.deep_view().take(srcv.len() as int) =~= pathv.take(
                        srcv.len() as int,
                    ));
                }
                assert(decreases_to!(*dir => dir.dirs@[i as int]));
            }
            let mut sub = generate_folder(src_root, dst_root, &child_path, &dir.dirs[i], true, now);
            let ghost acts0 = acts.deep_view();
            let ghost subv = sub.deep_view();
            acts.append(&mut sub);
            proof {
                assert(acts.deep_view() =~= acts0 + subv);
            }
            i += 1;
        }
        proof {
            assert(dir.dirs@.skip(dir.dirs@.len() as int) =~= Seq::<SourceDir>::empty());
            assert(acts.deep_view() =~= spec_walk_dirs(dir.dirs@, pathv, srcv, dstv, now as int));
        }
    }
    let ghost subs_done = acts.deep_view();

    let collected = collect_pages(&dir.files, &route, now);
    let members = sort_pages(collected);
    let ghost membersv = members.deep_view();
    proof {
        assert(membersv == crate::walker::spec_members(dir.files@, routev, now as int));
    }

    let mut i: usize = 0;
    while i < members.len()
        invariant
            i <= members.len(),
            membersv == members.deep_view(),
            destv == dest.deep_view(),
            acts.deep_view() =~= subs_done + spec_members_actions(membersv.take(i as int), destv),
        decreases members.len() - i,
    {
        let mut page_acts = members[i].generate(&dest);
        let ghost acts0 = acts.deep_view();
        let ghost pav = page_acts.deep_view();
        acts.append(&mut page_acts);
        proof {
            assert(acts.deep_view() =~= acts0 + pav);
            lemma_members_actions_take_step(membersv, destv, i as int);
        }
        i += 1;
    }
    proof {
        assert(membersv.take(membersv.len() as int) =~= membersv);
    }

    let index_text = find_index_text(&dir.files);
    let text_slice = match index_text {
        Some(t) => Some(t.as_str()),
        None => None,
    };
    match Index::read(&route, text_slice, &dest, members, now) {
        Ok(ix) => {
            let mut ix_acts = ix.generate(&dest);
            let ghost acts0 = acts.deep_view();
            let ghost iav = ix_acts.deep_view();
            acts.append(&mut ix_acts);
            proof {
                assert(acts.deep_view() =~= acts0 + iav);
            }
        },
        Err(_) => {
        },
    }
    proof {
        assert(acts.deep_view() =~= spec_walk(*dir, pathv, srcv, dstv, recursive, now as int));
    }
    acts
}

/// One step of the member-generation plan.
proof fn lemma_members_actions_take_step(members: Seq<PageV>, dest: Seq<Seq<char>>, i: int)
    requires
        0 <= i < members.len(),
    ensures
        spec_members_actions(members.take(i + 1), dest) == spec_members_actions(
            members.take(i),
            dest,
        ) + spec_page_actions(members[i], dest),
    decreases i,
{
    if i == 0 {
        assert(members.take(1)[0] == members[0]);
        assert(members.take(1).drop_first() =~= Seq::<PageV>::empty());
        assert(members.take(0) =~= Seq::<PageV>::empty());
        assert(spec_members_actions(members.take(1), dest) =~= spec_members_actions(
            members.take(0),
            dest,
        ) + spec_page_actions(members[0], dest));
    } else {
        lemma_members_actions_take_step(members.drop_first(), dest, i - 1);
        assert(members.take(i + 1)[0] == members[0]);
        assert(members.take(i + 1).drop_first() =~= members.drop_first().take(i));
        assert(members.take(i)[0] == members[0]);
        assert(members.take(i).drop_first() =~= members.drop_first().take(i - 1));
        assert(members.drop_first()[i - 1] == members[i]);
        assert(spec_members_actions(members.take(i + 1), dest) =~= spec_members_actions(
            members.take(i),
            dest,
        ) + spec_page_actions(members[i], dest));
    }
}

} // verus!
