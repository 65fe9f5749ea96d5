//! The library's stated laws, proved over the same spec functions its
//! contracts use.

use vstd::prelude::*;
use crate::errors::MetaField;
use crate::errors::MirrorError;
use crate::header::PodV;
use crate::header::matter_of;
use crate::header::pod_fields;
use crate::header::spec_extract;
use crate::metadata::MetadataV;
use crate::metadata::slug_of;
use crate::metadata::spec_init;
use crate::metadata::spec_validate;
use crate::order::lemma_sort_desc_multiset;
use crate::order::lemma_sort_desc_sorted;
use crate::order::lemma_sort_desc_stable;
use crate::order::spec_sorted_desc;
use crate::order::with_date;
use crate::page::PageV;
use crate::page::spec_page_read;
use crate::walker::SourceDir;
use crate::walker::SourceFile;
use crate::walker::spec_collect;
use crate::walker::spec_index_text;
use crate::walker::spec_members;
use crate::walker::spec_members_actions;
use crate::walker::spec_walk;
use crate::walker::spec_walk_dirs;
use crate::generator::spec_initial_replication;
use crate::index::spec_index_read;

verus! {

/// A directory's members are ordered by publication date, newest first;
/// they are a permutation of the valid content units collected in listing
/// order; and for any date, the members carrying it keep their listing
/// order — the sort is stable.
pub proof fn lemma_members_ordered(
    files: Seq<SourceFile>,
    route: Seq<Seq<char>>,
    now: int,
    d: int,
)
    ensures
        spec_sorted_desc(spec_members(files, route, now)),
        spec_members(files, route, now).to_multiset() == spec_collect(
            files,
            route,
            now,
        ).to_multiset(),
        with_date(spec_members(files, route, now), d) == with_date(
            spec_collect(files, route, now),
            d,
        ),
{
    lemma_sort_desc_sorted(spec_collect(files, route, now));
    lemma_sort_desc_multiset(spec_collect(files, route, now));
    lemma_sort_desc_stable(spec_collect(files, route, now), d);
}

/// A content unit without a slug field gets the slugified title, and
/// validates whenever the title and template are non-empty and the title
/// slugifies to something non-empty.
pub proof fn lemma_default_slug_validates(m: MetadataV)
    requires
        m.slug.len() == 0,
        m.title.len() > 0,
        m.template.len() > 0,
        slug_of(m.title).len() > 0,
    ensures
        spec_init(m).slug == slug_of(m.title),
        spec_validate(spec_init(m)) is Ok,
{
}

/// A content unit whose template field is empty after defaulting is
/// rejected with a validation error naming the template, and is excluded
/// from its directory's members: reading it yields no page.
pub proof fn lemma_empty_template_rejected(
    route: Seq<Seq<char>>,
    text: Seq<char>,
    now: int,
    m: MetadataV,
    body: Seq<char>,
)
    requires
        spec_extract(text, now) == Ok::<_, MirrorError>((m, body)),
        m.template.len() == 0,
        spec_init(m).title.len() > 0,
        spec_init(m).excerpt.len() > 0,
        spec_init(m).slug.len() > 0,
    ensures
        spec_validate(spec_init(m)) == Err::<(), _>(
            MirrorError::Validation(MetaField::Template),
        ),
        spec_page_read(route, text, now) is None,
{
}

/// Within one directory's plan the index output comes last: whenever the
/// directory's index validates, the walk's final action writes
/// `<destination>/index.html`, after every member page and every subtree.
pub proof fn lemma_index_generated_last(
    d: SourceDir,
    path: Seq<Seq<char>>,
    src: Seq<Seq<char>>,
    dst: Seq<Seq<char>>,
    recursive: bool,
    now: int,
)
    requires
        spec_index_read(
            path.skip(src.len() as int),
            spec_index_text(d.files@),
            dst + path.skip(src.len() as int),
            spec_members(d.files@, path.skip(src.len() as int), now),
            now,
        ) is Ok,
    ensures
        ({
            let plan = spec_walk(d, path, src, dst, recursive, now);
            let dest = dst + path.skip(src.len() as int);
            &&& plan.len() >= 2
            &&& (plan.last() matches crate::action::ActionV::WriteIndex { path: p, index: ix }
                && p == dest.push("index.html"@))
        }),
{
    let route = path.skip(src.len() as int);
    let dest = dst + route;
    let members = spec_members(d.files@, route, now);
    let plan = spec_walk(d, path, src, dst, recursive, now);
    let subs = if recursive {
        spec_walk_dirs(d.dirs@, path, src, dst, now)
    } else {
        Seq::empty()
    };
    match spec_index_read(route, spec_index_text(d.files@), dest, members, now) {
        Ok(ix) => {
            let tail = crate::index::spec_index_actions(ix, dest);
            assert(plan == subs + spec_members_actions(members, dest) + tail);
            assert(plan.last() == tail[1]);
        },
        Err(_) => {
            assert(false);
        },
    }
}

/// Whether a content file's publication date does not depend on the time of
/// the walk: whenever its header parses to a field mapping, that mapping
/// carries a date key.
pub open spec fn spec_date_pinned(text: Seq<char>) -> bool {
    matter_of(text).data matches Some(pod) ==> (pod is Fields ==> pod_fields(pod).contains_key(
        "date"@,
    ))
}

/// Whether nothing in a subtree takes its date from the walk time: every
/// file's date is pinned, and every directory carries its own index
/// document (a synthesized index is dated at walk time).
pub open spec fn spec_tree_pinned(d: SourceDir) -> bool
    decreases d,
{
    &&& spec_index_text(d.files@) is Some
    &&& forall|i: int| 0 <= i < d.files@.len() ==> spec_date_pinned(#[trigger] d.files@[i].text@)
    &&& forall|i: int| 0 <= i < d.dirs@.len() ==> spec_tree_pinned(#[trigger] d.dirs@[i])
}

proof fn lemma_extract_pinned(text: Seq<char>, n1: int, n2: int)
    requires
        spec_date_pinned(text),
    ensures
        spec_extract(text, n1) == spec_extract(text, n2),
{
}

proof fn lemma_page_read_pinned(route: Seq<Seq<char>>, text: Seq<char>, n1: int, n2: int)
    requires
        spec_date_pinned(text),
    ensures
        spec_page_read(route, text, n1) == spec_page_read(route, text, n2),
{
    lemma_extract_pinned(text, n1, n2);
}

proof fn lemma_collect_pinned(files: Seq<SourceFile>, route: Seq<Seq<char>>, n1: int, n2: int)
    requires
        forall|i: int| 0 <= i < files.len() ==> spec_date_pinned(#[trigger] files[i].text@),
    ensures
        spec_collect(files, route, n1) == spec_collect(files, route, n2),
    decreases files.len(),
{
    if files.len() > 0 {
        assert forall|i: int| 0 <= i < files.drop_first().len() implies spec_date_pinned(
            #[trigger] files.drop_first()[i].text@,
        ) by {
            assert(files.drop_first()[i] == files[i + 1]);
        }
        lemma_collect_pinned(files.drop_first(), route, n1, n2);
        lemma_page_read_pinned(route, files[0].text@, n1, n2);
    }
}

proof fn lemma_index_read_pinned(
    route: Seq<Seq<char>>,
    text: Seq<char>,
    destination: Seq<Seq<char>>,
    pages: Seq<PageV>,
    n1: int,
    n2: int,
)
    requires
        spec_date_pinned(text),
    ensures
        spec_index_read(route, Some(text), destination, pages, n1) == spec_index_read(
            route,
            Some(text),
            destination,
            pages,
            n2,
        ),
{
    lemma_extract_pinned(text, n1, n2);
}

proof fn lemma_walk_pinned(
    d: SourceDir,
    path: Seq<Seq<char>>,
    src: Seq<Seq<char>>,
    dst: Seq<Seq<char>>,
    recursive: bool,
    n1: int,
    n2: int,
)
    requires
        spec_tree_pinned(d),
    ensures
        spec_walk(d, path, src, dst, recursive, n1) == spec_walk(d, path, src, dst, recursive, n2),
    decreases d,
{
    let route = path.skip(src.len() as int);
    let dest = dst + route;
    lemma_collect_pinned(d.files@, route, n1, n2);
    let members = spec_members(d.files@, route, n1);
    let text = spec_index_text(d.files@);
    lemma_index_text_is_file(d.files@);
    match text {
        Some(t) => {
            let i = choose|i: int| 0 <= i < d.files@.len() && d.files@[i].text@ == t;
            assert(spec_date_pinned(t));
            lemma_index_read_pinned(route, t, dest, members, n1, n2);
        },
        None => {
        },
    }
    if recursive {
        lemma_walk_dirs_pinned(d.dirs@, path, src, dst, n1, n2);
    }
}

proof fn lemma_walk_dirs_pinned(
    ds: Seq<SourceDir>,
    path: Seq<Seq<char>>,
    src: Seq<Seq<char>>,
    dst: Seq<Seq<char>>,
    n1: int,
    n2: int,
)
    requires
        forall|i: int| 0 <= i < ds.len() ==> spec_tree_pinned(#[trigger] ds[i]),
    ensures
        spec_walk_dirs(ds, path, src, dst, n1) == spec_walk_dirs(ds, path, src, dst, n2),
    decreases ds,
{
    if ds.len() > 0 {
        lemma_walk_pinned(ds[0], path.push(ds[0].name@), src, dst, true, n1, n2);
        assert forall|i: int| 0 <= i < ds.drop_first().len() implies spec_tree_pinned(
            #[trigger] ds.drop_first()[i],
        ) by {
            assert(ds.drop_first()[i] == ds[i + 1]);
        }
        lemma_walk_dirs_pinned(ds.drop_first(), path, src, dst, n1, n2);
    }
}

/// The index text, when found, is the text of one of the directory's files.
proof fn lemma_index_text_is_file(files: Seq<SourceFile>)
    ensures
        spec_index_text(files) matches Some(t) ==> exists|i: int|
            0 <= i < files.len() && files[i].text@ == t,
    decreases files.len(),
{
    if files.len() > 0 {
        if files[0].name@ == "index.md"@ {
        } else {
            lemma_index_text_is_file(files.drop_first());
            match spec_index_text(files) {
                Some(t) => {
                    let i = choose|i: int|
                        0 <= i < files.drop_first().len() && files.drop_first()[i].text@ == t;
                    assert(files[i + 1].text@ == t);
                },
                None => {
                },
            }
        }
    }
}

/// Idempotence of the full mirror: on a source tree whose dates are all
/// pinned — every content file carries its own date and every directory its
/// own index document — two full mirror passes plan exactly the same
/// actions, whatever the clock read; the destination output is therefore
/// the same bytes both times.
pub proof fn lemma_initial_replication_idempotent(
    root: SourceDir,
    src: Seq<Seq<char>>,
    dst: Seq<Seq<char>>,
    n1: int,
    n2: int,
)
    requires
        spec_tree_pinned(root),
    ensures
        spec_initial_replication(root, src, dst, n1) == spec_initial_replication(
            root,
            src,
            dst,
            n2,
        ),
{
    lemma_walk_pinned(root, src, src, dst, true, n1, n2);
}

} // verus!
