//! The directory index: the listing artifact generated once per mirrored
//! directory, aggregating the directory's valid content units.

use vstd::prelude::*;
use vstd::string::StrSliceExecFns;
use vstd::string::StringExecFns;
use crate::action::Action;
use crate::action::ActionV;
use crate::errors::MirrorError;
use crate::header::spec_extract;
use crate::header::extract;
use crate::metadata::Metadata;
use crate::metadata::MetadataV;
use crate::metadata::spec_init;
use crate::metadata::spec_validate;
use crate::page::Page;
use crate::page::PageV;
use crate::page::duplicate_pages;
use crate::page::html_of;
use crate::text::clone_segments;
use crate::text::push_char;

verus! {

/// Mathematical model of [`Index`].
#[verifier::ext_equal]
pub struct IndexV {
    pub index: PageV,
    pub pages: Seq<PageV>,
}

/// A directory's index: its own page (parsed from `index.md` or synthesized
/// from the directory name) and the ordered member pages it lists.
#[derive(Clone, Debug)]
pub struct Index {
    pub index: Page,
    pub pages: Vec<Page>,
}

impl View for Index {
    type V = IndexV;

    open spec fn view(&self) -> IndexV {
        IndexV { index: self.index@, pages: self.pages.deep_view() }
    }
}

impl DeepView for Index {
    type V = IndexV;

    open spec fn deep_view(&self) -> IndexV {
        self.view()
    }
}

/// Every separator replaced by a space: the title a directory name suggests.
pub open spec fn spec_dash_to_space(s: Seq<char>) -> Seq<char> {
    s.map_values(|c: char| if c == '-' { ' ' } else { c })
}

/// Replace every `-` by a space.
fn dash_to_space(s: &str) -> (r: String)
    ensures
        r@ == spec_dash_to_space(s@),
{
    let n = s.unicode_len();
    let mut r = String::new();
    let mut i: usize = 0;
    while i < n
        invariant
            i <= n,
            n == s@.len(),
            r@ == spec_dash_to_space(s@.take(i as int)),
        decreases n - i,
    {
        let c = s.get_char(i);
        if c == '-' {
            push_char(&mut r, ' ');
        } else {
            push_char(&mut r, c);
        }
        proof {
            assert(spec_dash_to_space(s@.take(i + 1 as int)) =~= spec_dash_to_space(
                s@.take(i as int),
            ).push(if s@[i as int] == '-' { ' ' } else { s@[i as int] }));
        }
        i += 1;
    }
    proof {
        assert(s@.take(n as int) =~= s@);
    }
    r
}

/// The metadata synthesized for a directory without an `index.md`: the last
/// destination segment as slug, that segment with separators replaced by
/// spaces as title and excerpt, the fixed index template, published, dated
/// at the walk time.
pub open spec fn spec_synthesized_meta(destination: Seq<Seq<char>>, now: int) -> MetadataV {
    let seg = destination.last();
    MetadataV {
        title: spec_dash_to_space(seg),
        date: now,
        excerpt: spec_dash_to_space(seg),
        slug: seg,
        vars: Map::empty(),
        tags: Seq::empty(),
        publicated: true,
        template: "index.html"@,
    }
}

/// What reading a directory index yields.  With `text` the content of the
/// directory's `index.md`, the index page is parsed, defaulted and validated
/// exactly like a content unit, and errors are surfaced.  Without one, the
/// metadata is synthesized from the destination directory's name and only
/// validation can fail.
pub open spec fn spec_index_read(
    route: Seq<Seq<char>>,
    text: Option<Seq<char>>,
    destination: Seq<Seq<char>>,
    pages: Seq<PageV>,
    now: int,
) -> Result<IndexV, MirrorError> {
    match text {
        Some(t) => match spec_extract(t, now) {
            Err(e) => Err(e),
            Ok(pair) => {
                let m = spec_init(pair.0);
                match spec_validate(m) {
                    Err(e) => Err(e),
                    Ok(u) => Ok(
                        IndexV {
                            index: PageV { route, metadata: m, content: html_of(pair.1) },
                            pages,
                        },
                    ),
                }
            },
        },
        None => {
            let m = spec_synthesized_meta(destination, now);
            match spec_validate(m) {
                Err(e) => Err(e),
                Ok(u) => Ok(
                    IndexV { index: PageV { route, metadata: m, content: Seq::empty() }, pages },
                ),
            }
        },
    }
}

/// The plan for writing a directory's index: create the destination
/// directory, then replace its `index.html` with the rendering of
/// `{site, page, pages}` through the index's template.
pub open spec fn spec_index_actions(ix: IndexV, parent: Seq<Seq<char>>) -> Seq<ActionV> {
    seq![
        ActionV::EnsureDir { path: parent },
        ActionV::WriteIndex { path: parent.push("index.html"@), index: ix },
    ]
}

impl Index {
    /// Build a directory's index from its `index.md` text, when the
    /// directory has one, or from the destination directory's name.
    /// `pages` are the directory's valid members, already ordered.
    pub fn read(
        route: &Vec<String>,
        source_text: Option<&str>,
        destination_folder: &Vec<String>,
        pages: Vec<Page>,
        now: i64,
    ) -> (r: Result<Index, MirrorError>)
        requires
            source_text is None ==> destination_folder@.len() > 0,
        ensures
            match r {
                Ok(ix) => spec_index_read(
                    route.deep_view(),
                    match source_text {
                        Some(t) => Some(t@),
                        None => None,
                    },
                    destination_folder.deep_view(),
                    pages.deep_view(),
                    now as int,
                ) == Ok::<_, MirrorError>(ix@),
                Err(e) => spec_index_read(
                    route.deep_view(),
                    match source_text {
                        Some(t) => Some(t@),
                        None => None,
                    },
                    destination_folder.deep_view(),
                    pages.deep_view(),
                    now as int,
                ) == Err::<IndexV, _>(e),
            },
    {
        match source_text {
            Some(text) => {
                let pair = match extract(text, now) {
                    Ok(pair) => pair,
                    Err(e) => {
                        return Err(e);
                    },
                };
                let mut metadata = pair.0;
                metadata.init();
                match metadata.validate() {
                    Err(e) => Err(e),
                    Ok(_) => Ok(
                        Index {
                            index: Page {
                                route: clone_segments(route),
                                metadata,
                                content: crate::page::render_markdown(pair.1.as_str()),
                            },
                            pages,
                        },
                    ),
                }
            },
            None => {
                let seg = destination_folder[destination_folder.len() - 1].clone();
                let title = dash_to_space(seg.as_str());
                let excerpt = title.clone();
                let metadata = Metadata {
                    title,
                    date: now,
                    excerpt,
                    slug: seg,
                    vars: Vec::new(),
                    tags: Vec::new(),
                    publicated: true,
                    template: String::from_str("index.html"),
                };
                proof {
                    assert(metadata@ =~= spec_synthesized_meta(
                        destination_folder.deep_view(),
                        now as int,
                    ));
                }
                match metadata.validate() {
                    Err(e) => Err(e),
                    Ok(_) => Ok(
                        Index {
                            index: Page {
                                route: clone_segments(route),
                                metadata,
                                content: String::new(),
                            },
                            pages,
                        },
                    ),
                }
            },
        }
    }

    /// The planned actions that generate this index under `parent`.
    pub fn generate(&self, parent: &Vec<String>) -> (acts: Vec<Action>)
        ensures
            acts.deep_view() == spec_index_actions(self@, parent.deep_view()),
    {
        let folder = clone_segments(parent);
        let mut file = clone_segments(parent);
        file.push(String::from_str("index.html"));
        let mut acts: Vec<Action> = Vec::new();
        acts.push(Action::EnsureDir { path: folder });
        acts.push(Action::WriteIndex { path: file, index: self.duplicate() });
        proof {
            assert(acts.deep_view() =~~= spec_index_actions(self@, parent.deep_view()));
        }
        acts
    }

    /// A copy of this index with the same model.
    pub fn duplicate(&self) -> (r: Index)
        ensures
            r@ == self@,
    {
        let r = Index { index: self.index.duplicate(), pages: duplicate_pages(&self.pages) };
        proof {
            assert(r@ =~= self@);
        }
        r
    }
}

} // verus!
