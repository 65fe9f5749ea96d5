//! The header block of a content file: splitting it from the body, reading
//! its fields, and turning them into [`Metadata`].
//!
//! Splitting and YAML parsing are the gray_matter crate's work, behind
//! trusted items; everything from the parsed value onwards is verified.

use vstd::prelude::*;
use crate::dates::parse_rfc3339;
use crate::dates::rfc3339_secs_of;
use crate::errors::MirrorError;
use crate::metadata::Metadata;
use crate::metadata::MetadataV;
use crate::metadata::vars_view;

verus! {

#[verifier::external_type_specification]
#[verifier::external_body]
pub struct ExPod(gray_matter::Pod);

/// Model of one parsed header value.
#[verifier::ext_equal]
pub enum PodV {
    Null,
    Str(Seq<char>),
    Int(int),
    Bool(bool),
    List(Seq<PodV>),
    Fields(Map<Seq<char>, PodV>),
    Other,
}

/// The model of a parsed header value.
pub uninterp spec fn pod_value(p: gray_matter::Pod) -> PodV;

/// Model of what splitting a content file yields.
#[verifier::ext_equal]
pub struct MatterV {
    /// False when a header block is present but malformed.
    pub ok: bool,
    /// The parsed header value, when a header block is present.
    pub data: Option<PodV>,
    /// The text that remains after the header block.
    pub body: Seq<char>,
}

/// What gray_matter's front-matter split yields for a given input text.
pub uninterp spec fn matter_of(text: Seq<char>) -> MatterV;

/// Relies on gray_matter's Matter::<YAML>::parse: the outcome is a function
/// of the input text alone; it fails on a malformed header block, and
/// otherwise yields the parsed header (when one is present) and the body.
#[verifier::external_body]
fn parse_matter(text: &str) -> (r: Option<(Option<gray_matter::Pod>, String)>)
    ensures
        match r {
            None => !matter_of(text@).ok,
            Some(pair) => {
                &&& matter_of(text@).ok
                &&& pair.1@ == matter_of(text@).body
                &&& match pair.0 {
                    None => matter_of(text@).data is None,
                    Some(p) => matter_of(text@).data == Some(pod_value(p)),
                }
            },
        },
{
    let matter = gray_matter::Matter::<gray_matter::engine::YAML>::new();
    match matter.parse::<gray_matter::Pod>(text) {
        Ok(parsed) => Some((parsed.data, parsed.content)),
        Err(_) => None,
    }
}

/// The entries of a header mapping; empty for any other value.
pub open spec fn pod_fields(v: PodV) -> Map<Seq<char>, PodV> {
    match v {
        PodV::Fields(m) => m,
        _ => Map::empty(),
    }
}

/// The characters of a header string; empty for any other value.
pub open spec fn pod_str(v: PodV) -> Seq<char> {
    match v {
        PodV::Str(s) => s,
        _ => Seq::empty(),
    }
}

/// The items of a header list; empty for any other value.
pub open spec fn pod_list(v: PodV) -> Seq<PodV> {
    match v {
        PodV::List(items) => items,
        _ => Seq::empty(),
    }
}

/// The truth value of a header boolean; false for any other value.
pub open spec fn pod_bool(v: PodV) -> bool {
    v matches PodV::Bool(true)
}

/// Whether a header value is a list holding strings only.
pub open spec fn spec_is_str_list(v: PodV) -> bool {
    v is List && (forall|i: int| 0 <= i < pod_list(v).len() ==> pod_list(v)[i] is Str)
}

/// Whether a header value is a mapping holding strings only.
pub open spec fn spec_is_str_fields(v: PodV) -> bool {
    v is Fields && (forall|k: Seq<char>|
        pod_fields(v).dom().contains(k) ==> pod_fields(v)[k] is Str)
}

/// The strings of a string list.
pub open spec fn pod_strs(items: Seq<PodV>) -> Seq<Seq<char>> {
    items.map_values(|pv: PodV| pod_str(pv))
}

/// The strings of a string mapping.
pub open spec fn pod_str_map(m: Map<Seq<char>, PodV>) -> Map<Seq<char>, Seq<char>> {
    m.map_values(|pv: PodV| pod_str(pv))
}

/// Relies on gray_matter's Pod::as_hashmap: it succeeds exactly on a mapping.
#[verifier::external_body]
fn pod_is_map(p: &gray_matter::Pod) -> (r: bool)
    ensures
        r == (pod_value(*p) is Fields),
{
    p.as_hashmap().is_ok()
}

/// Relies on gray_matter's Pod::as_hashmap and Pod::as_string: looks one key
/// up in the header mapping and yields its string value; `None` when the key
/// is absent, `Some(None)` when its value is not a string.
#[verifier::external_body]
fn pod_str_entry(p: &gray_matter::Pod, key: &str) -> (r: Option<Option<String>>)
    requires
        pod_value(*p) is Fields,
    ensures
        ({
            let m = pod_fields(pod_value(*p));
            match r {
                None => !m.contains_key(key@),
                Some(inner) => m.contains_key(key@) && match inner {
                    None => !(m[key@] is Str),
                    Some(s) => m[key@] == PodV::Str(s@),
                },
            }
        }),
{
    let map = p.as_hashmap().ok()?;
    let value = map.get(key)?;
    Some(value.as_string().ok())
}

/// Relies on gray_matter's Pod::as_hashmap and Pod::as_bool: looks one key up
/// in the header mapping and yields its boolean value.
#[verifier::external_body]
fn pod_bool_entry(p: &gray_matter::Pod, key: &str) -> (r: Option<Option<bool>>)
    requires
        pod_value(*p) is Fields,
    ensures
        ({
            let m = pod_fields(pod_value(*p));
            match r {
                None => !m.contains_key(key@),
                Some(inner) => m.contains_key(key@) && match inner {
                    None => !(m[key@] is Bool),
                    Some(b) => m[key@] == PodV::Bool(b),
                },
            }
        }),
{
    let map = p.as_hashmap().ok()?;
    let value = map.get(key)?;
    Some(value.as_bool().ok())
}

/// Relies on gray_matter's Pod::as_hashmap, Pod::as_vec and Pod::as_string:
/// looks one key up in the header mapping and yields its items, which must
/// all be strings, in their order.
#[verifier::external_body]
fn pod_str_list_entry(p: &gray_matter::Pod, key: &str) -> (r: Option<Option<Vec<String>>>)
    requires
        pod_value(*p) is Fields,
    ensures
        ({
            let m = pod_fields(pod_value(*p));
            match r {
                None => !m.contains_key(key@),
                Some(inner) => m.contains_key(key@) && match inner {
                    None => !spec_is_str_list(m[key@]),
                    Some(v) => spec_is_str_list(m[key@]) && v.deep_view() == pod_strs(
                        pod_list(m[key@]),
                    ),
                },
            }
        }),
{
    let map = p.as_hashmap().ok()?;
    let items = match map.get(key)?.as_vec() {
        Ok(items) => items,
        Err(_) => return Some(None),
    };
    Some(items.iter().map(|item| item.as_string().ok()).collect())
}

/// Relies on gray_matter's Pod::as_hashmap and Pod::as_string: looks one key
/// up in the header mapping and yields its entries, whose values must all be
/// strings, as key/value pairs in no promised order.
#[verifier::external_body]
fn pod_str_map_entry(p: &gray_matter::Pod, key: &str) -> (r: Option<Option<Vec<(String, String)>>>)
    requires
        pod_value(*p) is Fields,
    ensures
        ({
            let m = pod_fields(pod_value(*p));
            match r {
                None => !m.contains_key(key@),
                Some(inner) => m.contains_key(key@) && match inner {
                    None => !spec_is_str_fields(m[key@]),
                    Some(v) => spec_is_str_fields(m[key@]) && vars_view(v@) == pod_str_map(
                        pod_fields(m[key@]),
                    ),
                },
            }
        }),
{
    let map = p.as_hashmap().ok()?;
    let sub = match map.get(key)?.as_hashmap() {
        Ok(sub) => sub,
        Err(_) => return Some(None),
    };
    Some(sub.into_iter().map(|(k, v)| v.as_string().ok().map(|s| (k, s))).collect())
}

/// A field the extractor requires: present and a string.
pub open spec fn req_str(f: Map<Seq<char>, PodV>, key: Seq<char>) -> bool {
    f.contains_key(key) && f[key] is Str
}

/// A field the extractor requires: present and a boolean.
pub open spec fn req_bool(f: Map<Seq<char>, PodV>, key: Seq<char>) -> bool {
    f.contains_key(key) && f[key] is Bool
}

/// An optional field that must be a string when present.
pub open spec fn opt_str(f: Map<Seq<char>, PodV>, key: Seq<char>) -> bool {
    !f.contains_key(key) || f[key] is Str
}

/// An optional field that must be a parseable RFC 3339 string when present.
pub open spec fn opt_date(f: Map<Seq<char>, PodV>, key: Seq<char>) -> bool {
    !f.contains_key(key) || (f[key] is Str && rfc3339_secs_of(pod_str(f[key])) is Some)
}

/// An optional field that must be a list of strings when present.
pub open spec fn opt_str_list(f: Map<Seq<char>, PodV>, key: Seq<char>) -> bool {
    !f.contains_key(key) || spec_is_str_list(f[key])
}

/// An optional field that must be a mapping of strings when present.
pub open spec fn opt_str_fields(f: Map<Seq<char>, PodV>, key: Seq<char>) -> bool {
    !f.contains_key(key) || spec_is_str_fields(f[key])
}

/// The publication date a header mapping denotes: the parsed `date` field,
/// or the parse time when the field is absent.
pub open spec fn spec_date_of(f: Map<Seq<char>, PodV>, now: int) -> int {
    if f.contains_key("date"@) {
        match rfc3339_secs_of(pod_str(f["date"@])) {
            Some(t) => t,
            None => now,
        }
    } else {
        now
    }
}

/// The metadata a parsed header value denotes, before defaulting.  Fails
/// when the value is not a mapping, when a required field (title, publicated,
/// template) is absent or has the wrong type, or when an optional field is
/// present with the wrong type.
pub open spec fn spec_fields_to_meta(pod: PodV, now: int) -> Result<MetadataV, MirrorError> {
    if !(pod is Fields) {
        Err(MirrorError::Parse)
    } else {
        let f = pod_fields(pod);
        if req_str(f, "title"@) && req_bool(f, "publicated"@) && req_str(f, "template"@)
            && opt_date(f, "date"@) && opt_str(f, "excerpt"@) && opt_str(f, "slug"@)
            && opt_str_list(f, "tags"@) && opt_str_fields(f, "vars"@) {
            Ok(
                MetadataV {
                    title: pod_str(f["title"@]),
                    date: spec_date_of(f, now),
                    excerpt: if f.contains_key("excerpt"@) {
                        pod_str(f["excerpt"@])
                    } else {
                        Seq::empty()
                    },
                    slug: if f.contains_key("slug"@) {
                        pod_str(f["slug"@])
                    } else {
                        Seq::empty()
                    },
                    vars: if f.contains_key("vars"@) {
                        pod_str_map(pod_fields(f["vars"@]))
                    } else {
                        Map::empty()
                    },
                    tags: if f.contains_key("tags"@) {
                        pod_strs(pod_list(f["tags"@]))
                    } else {
                        Seq::empty()
                    },
                    publicated: pod_bool(f["publicated"@]),
                    template: pod_str(f["template"@]),
                },
            )
        } else {
            Err(MirrorError::Parse)
        }
    }
}

/// What extracting the header of a content file yields: the metadata before
/// defaulting, and the body.  Fails when the header block is absent or
/// malformed, or when a field cannot be read.
pub open spec fn spec_extract(text: Seq<char>, now: int) -> Result<
    (MetadataV, Seq<char>),
    MirrorError,
> {
    let mt = matter_of(text);
    if !mt.ok {
        Err(MirrorError::Parse)
    } else {
        match mt.data {
            None => Err(MirrorError::Parse),
            Some(pod) => match spec_fields_to_meta(pod, now) {
                Ok(m) => Ok((m, mt.body)),
                Err(e) => Err(e),
            },
        }
    }
}

/// Split a content file's header block from its body and read the header
/// fields into metadata.  `now` is the parse time, the default for an absent
/// publication date.
pub fn extract(text: &str, now: i64) -> (r: Result<(Metadata, String), MirrorError>)
    ensures
        match r {
            Ok(pair) => spec_extract(text@, now as int) == Ok::<_, MirrorError>(
                (pair.0@, pair.1@),
            ),
            Err(e) => spec_extract(text@, now as int) == Err::<(MetadataV, Seq<char>), _>(e),
        },
{
    let parsed = match parse_matter(text) {
        Some(pair) => pair,
        None => {
            return Err(MirrorError::Parse);
        },
    };
    let body = parsed.1;
    let pod = match parsed.0 {
        Some(pod) => pod,
        None => {
            return Err(MirrorError::Parse);
        },
    };
    if !pod_is_map(&pod) {
        return Err(MirrorError::Parse);
    }
    let title = match pod_str_entry(&pod, "title") {
        Some(Some(s)) => s,
        _ => {
            return Err(MirrorError::Parse);
        },
    };
    let publicated = match pod_bool_entry(&pod, "publicated") {
        Some(Some(b)) => b,
        _ => {
            return Err(MirrorError::Parse);
        },
    };
    let template = match pod_str_entry(&pod, "template") {
        Some(Some(s)) => s,
        _ => {
            return Err(MirrorError::Parse);
        },
    };
    let date = match pod_str_entry(&pod, "date") {
        None => now,
        Some(Some(s)) => match parse_rfc3339(s.as_str()) {
            Some(t) => t,
            None => {
                return Err(MirrorError::Parse);
            },
        },
        Some(None) => {
            return Err(MirrorError::Parse);
        },
    };
    let excerpt = match pod_str_entry(&pod, "excerpt") {
        None => String::new(),
        Some(Some(s)) => s,
        Some(None) => {
            return Err(MirrorError::Parse);
        },
    };
    let slug = match pod_str_entry(&pod, "slug") {
        None => String::new(),
        Some(Some(s)) => s,
        Some(None) => {
            return Err(MirrorError::Parse);
        },
    };
    let tags = match pod_str_list_entry(&pod, "tags") {
        None => Vec::new(),
        Some(Some(v)) => v,
        Some(None) => {
            return Err(MirrorError::Parse);
        },
    };
    let vars = match pod_str_map_entry(&pod, "vars") {
        None => Vec::new(),
        Some(Some(v)) => v,
        Some(None) => {
            return Err(MirrorError::Parse);
        },
    };
    let meta = Metadata { title, date, excerpt, slug, vars, tags, publicated, template };
    proof {
        let sm = spec_fields_to_meta(pod_value(pod), now as int);
        match sm {
            Ok(mv) => {
                assert(meta@.tags =~= mv.tags);
                assert(meta@.vars =~= mv.vars);
                assert(meta@ =~= mv);
            },
            Err(_) => {
                assert(false);
            },
        }
    }
    Ok((meta, body))
}

} // verus!
