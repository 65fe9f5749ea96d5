//! One content unit: a rendered artifact derived from one source document.

use vstd::prelude::*;
use vstd::string::StringExecFns;
use crate::action::Action;
use crate::action::ActionV;
use crate::header::spec_extract;
use crate::header::extract;
use crate::metadata::Metadata;
use crate::metadata::MetadataV;
use crate::metadata::spec_init;
use crate::metadata::spec_validate;
use crate::text::clone_segments;

verus! {

/// Mathematical model of [`Page`].
#[verifier::ext_equal]
pub struct PageV {
    pub route: Seq<Seq<char>>,
    pub metadata: MetadataV,
    pub content: Seq<char>,
}

/// One content unit: its route relative to the source root (the segments of
/// its directory's path), its metadata, and its body converted to markup.
#[derive(Clone, Debug)]
pub struct Page {
    pub route: Vec<String>,
    pub metadata: Metadata,
    pub content: String,
}

impl View for Page {
    type V = PageV;

    open spec fn view(&self) -> PageV {
        PageV {
            route: self.route.deep_view(),
            metadata: self.metadata@,
            content: self.content@,
        }
    }
}

impl DeepView for Page {
    type V = PageV;

    open spec fn deep_view(&self) -> PageV {
        self.view()
    }
}

/// What comrak's rendering with default options yields for a markdown text.
pub uninterp spec fn html_of(markdown: Seq<char>) -> Seq<char>;

/// Relies on comrak's markdown_to_html with default options: the rendering
/// is a function of the markdown text alone.
#[verifier::external_body]
pub(crate) fn render_markdown(md: &str) -> (r: String)
    ensures
        r@ == html_of(md@),
{
    comrak::markdown_to_html(md, &comrak::Options::default())
}

/// What reading one content document yields: its page, or nothing when the
/// header cannot be extracted or the metadata does not validate after
/// defaulting.
pub open spec fn spec_page_read(route: Seq<Seq<char>>, text: Seq<char>, now: int) -> Option<
    PageV,
> {
    match spec_extract(text, now) {
        Err(_) => None,
        Ok(pair) => {
            let m = spec_init(pair.0);
            if spec_validate(m) is Ok {
                Some(PageV { route, metadata: m, content: html_of(pair.1) })
            } else {
                None
            }
        },
    }
}

/// The plan for writing one page under its directory's destination: create
/// the slug directory, then replace `<slug>/index.html` with the rendering
/// of `{site, page}` through the page's template.
pub open spec fn spec_page_actions(p: PageV, parent: Seq<Seq<char>>) -> Seq<ActionV> {
    seq![
        ActionV::EnsureDir { path: parent.push(p.metadata.slug) },
        ActionV::WritePage { path: parent.push(p.metadata.slug).push("index.html"@), page: p },
    ]
}

impl Page {
    /// Read one content document: extract its header, apply the defaults,
    /// validate, and convert the body to markup.  Any failure yields `None`:
    /// a single bad document must not abort its directory's processing.
    pub fn read(route: &Vec<String>, text: &str, now: i64) -> (r: Option<Page>)
        ensures
            match r {
                Some(p) => spec_page_read(route.deep_view(), text@, now as int) == Some(p@),
                None => spec_page_read(route.deep_view(), text@, now as int) is None,
            },
    {
        let pair = match extract(text, now) {
            Ok(pair) => pair,
            Err(_) => {
                return None;
            },
        };
        let mut metadata = pair.0;
        metadata.init();
        match metadata.validate() {
            Ok(_) => Some(
                Page {
                    route: clone_segments(route),
                    metadata,
                    content: render_markdown(pair.1.as_str()),
                },
            ),
            Err(_) => None,
        }
    }

    /// The planned actions that generate this page under `parent`.
    pub fn generate(&self, parent: &Vec<String>) -> (acts: Vec<Action>)
        ensures
            acts.deep_view() == spec_page_actions(self@, parent.deep_view()),
    {
        let mut folder = clone_segments(parent);
        folder.push(self.metadata.slug.clone());
        let mut file = clone_segments(&folder);
        file.push(String::from_str("index.html"));
        let mut acts: Vec<Action> = Vec::new();
        acts.push(Action::EnsureDir { path: folder });
        acts.push(Action::WritePage { path: file, page: self.duplicate() });
        proof {
            assert(acts.deep_view() =~~= spec_page_actions(self@, parent.deep_view()));
        }
        acts
    }

    /// A copy of this page with the same model.
    pub fn duplicate(&self) -> (r: Page)
        ensures
            r@ == self@,
    {
        Page {
            route: clone_segments(&self.route),
            metadata: self.metadata.duplicate(),
            content: self.content.clone(),
        }
    }
}

/// A copy of a page vector with the same model.
pub fn duplicate_pages(v: &Vec<Page>) -> (r: Vec<Page>)
    ensures
        r.deep_view() == v.deep_view(),
{
    let mut r: Vec<Page> = Vec::new();
    let mut i: usize = 0;
    while i < v.len()
        invariant
            i <= v.len(),
            r.deep_view() == v.deep_view().take(i as int),
        decreases v.len() - i,
    {
        let ghost r0 = r.deep_view();
        r.push(v[i].duplicate());
        proof {
            assert(r.deep_view() =~= r0.push(v.deep_view()[i as int]));
            assert(r.deep_view() =~= v.deep_view().take(i + 1 as int));
        }
        i += 1;
    }
    proof {
        assert(r.deep_view() =~= v.deep_view());
    }
    r
}

} // verus!
