//! Metadata of one content unit: the parsed header fields, their defaulting
//! and their validation.

use vstd::prelude::*;
use vstd::string::StrSliceExecFns;
use vstd::string::StringExecFns;
use crate::errors::MetaField;
use crate::errors::MirrorError;

verus! {

/// Greatest number of characters kept in a defaulted excerpt.
pub const EXCERPT_LIMIT: usize = 150;

/// Mathematical model of [`Metadata`].
#[verifier::ext_equal]
pub struct MetadataV {
    pub title: Seq<char>,
    pub date: int,
    pub excerpt: Seq<char>,
    pub slug: Seq<char>,
    pub vars: Map<Seq<char>, Seq<char>>,
    pub tags: Seq<Seq<char>>,
    pub publicated: bool,
    pub template: Seq<char>,
}

/// Header fields of one content unit, after parsing.
///
/// The publication date is held as seconds since the Unix epoch.  Free-form
/// variables are held as key/value pairs; their model is the map they form,
/// so the order of the pairs carries no meaning.
#[derive(Clone, Debug)]
pub struct Metadata {
    pub title: String,
    pub date: i64,
    pub excerpt: String,
    pub slug: String,
    pub vars: Vec<(String, String)>,
    pub tags: Vec<String>,
    pub publicated: bool,
    pub template: String,
}

/// The map formed by a sequence of key/value pairs; a later pair wins a key.
pub open spec fn vars_view(pairs: Seq<(String, String)>) -> Map<Seq<char>, Seq<char>>
    decreases pairs.len(),
{
    if pairs.len() == 0 {
        Map::empty()
    } else {
        vars_view(pairs.drop_last()).insert(pairs.last().0@, pairs.last().1@)
    }
}

impl DeepView for Metadata {
    type V = MetadataV;

    open spec fn deep_view(&self) -> MetadataV {
        self.view()
    }
}

impl View for Metadata {
    type V = MetadataV;

    open spec fn view(&self) -> MetadataV {
        MetadataV {
            title: self.title@,
            date: self.date as int,
            excerpt: self.excerpt@,
            slug: self.slug@,
            vars: vars_view(self.vars@),
            tags: self.tags.deep_view(),
            publicated: self.publicated,
            template: self.template@,
        }
    }
}

/// The first `limit` characters of `s`, or all of `s` if it is shorter.
pub open spec fn spec_truncate_chars(s: Seq<char>, limit: int) -> Seq<char> {
    if s.len() <= limit {
        s
    } else {
        s.take(limit)
    }
}

/// What the slug crate's `slugify` returns: a function of the title alone.
pub uninterp spec fn slug_of(title: Seq<char>) -> Seq<char>;

/// Relies on slug::slugify: the result depends on the input characters alone,
/// and an empty input yields an empty slug.
#[verifier::external_body]
fn slugify(s: &str) -> (r: String)
    ensures
        r@ == slug_of(s@),
        s@.len() == 0 ==> r@.len() == 0,
{
    slug::slugify(s)
}

/// Defaulting applied to freshly parsed metadata: an empty slug becomes the
/// slugified title, an empty excerpt becomes the title cut to
/// [`EXCERPT_LIMIT`] characters.
pub open spec fn spec_init(m: MetadataV) -> MetadataV {
    MetadataV {
        slug: if m.slug.len() == 0 {
            slug_of(m.title)
        } else {
            m.slug
        },
        excerpt: if m.excerpt.len() == 0 {
            spec_truncate_chars(m.title, EXCERPT_LIMIT as int)
        } else {
            m.excerpt
        },
        ..m
    }
}

/// Validation applied after defaulting: the first empty field among title,
/// excerpt, slug and template is reported; otherwise the metadata is valid.
pub open spec fn spec_validate(m: MetadataV) -> Result<(), MirrorError> {
    if m.title.len() == 0 {
        Err(MirrorError::Validation(MetaField::Title))
    } else if m.excerpt.len() == 0 {
        Err(MirrorError::Validation(MetaField::Excerpt))
    } else if m.slug.len() == 0 {
        Err(MirrorError::Validation(MetaField::Slug))
    } else if m.template.len() == 0 {
        Err(MirrorError::Validation(MetaField::Template))
    } else {
        Ok(())
    }
}

impl Metadata {
    /// A copy of this metadata with the same model.
    pub fn duplicate(&self) -> (r: Metadata)
        ensures
            r@ == self@,
    {
        let r = Metadata {
            title: self.title.clone(),
            date: self.date,
            excerpt: self.excerpt.clone(),
            slug: self.slug.clone(),
            vars: crate::text::clone_pairs(&self.vars),
            tags: crate::text::clone_segments(&self.tags),
            publicated: self.publicated,
            template: self.template.clone(),
        };
        proof {
            assert(r@ =~= self@);
        }
        r
    }

    /// Apply the defaults: slug from the title, excerpt from the title.
    pub fn init(&mut self)
        ensures
            final(self)@ == spec_init(old(self)@),
    {
        if self.slug.as_str().is_empty() {
            self.slug = slugify(self.title.as_str());
        }
        if self.excerpt.as_str().is_empty() {
            let n = self.title.as_str().unicode_len();
            if n <= EXCERPT_LIMIT {
                self.excerpt = self.title.clone();
            } else {
                self.excerpt = String::from_str(self.title.as_str().substring_char(0, EXCERPT_LIMIT));
            }
        }
    }

    /// Check that every required field is non-empty after defaulting.
    pub fn validate(&self) -> (r: Result<(), MirrorError>)
        ensures
            r == spec_validate(self@),
    {
        if self.title.as_str().is_empty() {
            return Err(MirrorError::Validation(MetaField::Title));
        }
        if self.excerpt.as_str().is_empty() {
            return Err(MirrorError::Validation(MetaField::Excerpt));
        }
        if self.slug.as_str().is_empty() {
            return Err(MirrorError::Validation(MetaField::Slug));
        }
        if self.template.as_str().is_empty() {
            return Err(MirrorError::Validation(MetaField::Template));
        }
        Ok(())
    }
}

} // verus!
