//! The helper functions offered to the external template renderer: markup
//! stripping, character truncation, path joining and date formatting.  The
//! embedding application registers thin adapters around them.

use std::fmt::Write;
use vstd::prelude::*;
use vstd::string::StrSliceExecFns;
use vstd::string::StringExecFns;
use crate::metadata::spec_truncate_chars;
use crate::text::push_char;

verus! {

/// The characters that remain when every markup tag is dropped: characters
/// between `<` and `>` are skipped, the rest are kept.
pub open spec fn spec_striptags(s: Seq<char>, inside: bool) -> Seq<char>
    decreases s.len(),
{
    if s.len() == 0 {
        Seq::empty()
    } else if s[0] == '<' {
        spec_striptags(s.skip(1), true)
    } else if s[0] == '>' {
        spec_striptags(s.skip(1), false)
    } else if inside {
        spec_striptags(s.skip(1), inside)
    } else {
        seq![s[0]] + spec_striptags(s.skip(1), false)
    }
}

/// Drop every markup tag from a rendered value.
pub fn striptags(value: String) -> (r: String)
    ensures
        r@ == spec_striptags(value@, false),
{
    let n = value.as_str().unicode_len();
    let mut data = String::new();
    let mut inside = false;
    let mut i: usize = 0;
    proof {
        assert(value@.skip(0) =~= value@);
    }
    while i < n
        invariant
            i <= n,
            n == value@.len(),
            spec_striptags(value@, false) == data@ + spec_striptags(
                value@.skip(i as int),
                inside,
            ),
        decreases n - i,
    {
        let ghost before = value@.skip(i as int);
        proof {
            assert(before[0] == value@[i as int]);
            assert(before.skip(1) =~= value@.skip(i + 1 as int));
        }
        let c = value.as_str().get_char(i);
        if c == '<' {
            inside = true;
        } else if c == '>' {
            inside = false;
        } else if !inside {
            let ghost data0 = data@;
            push_char(&mut data, c);
            proof {
                assert(data@ + spec_striptags(value@.skip(i + 1 as int), inside) =~= data0 + (seq![
                    value@[i as int],
                ] + spec_striptags(value@.skip(i + 1 as int), inside)));
            }
        }
        i += 1;
    }
    proof {
        assert(value@.skip(n as int) =~= Seq::<char>::empty());
        assert(data@ =~= data@ + spec_striptags(value@.skip(n as int), inside));
    }
    data
}

/// Keep a value's first `length` characters.
pub fn truncate(value: &str, length: usize) -> (r: String)
    ensures
        r@ == spec_truncate_chars(value@, length as int),
{
    let n = value.unicode_len();
    if n <= length {
        String::from_str(value)
    } else {
        let r = String::from_str(value.substring_char(0, length));
        proof {
            assert(value@.subrange(0, length as int) =~= value@.take(length as int));
        }
        r
    }
}

/// One joining step: an absolute segment restarts the path, any other is
/// appended behind a separator.
pub open spec fn spec_push_path(acc: Seq<char>, seg: Seq<char>) -> Seq<char> {
    if seg.len() > 0 && seg[0] == '/' {
        seg
    } else if acc.len() == 0 {
        seg
    } else {
        acc + seq!['/'] + seg
    }
}

/// The segments joined into one path, left to right.
pub open spec fn spec_join_path(segs: Seq<Seq<char>>) -> Seq<char>
    decreases segs.len(),
{
    if segs.len() == 0 {
        Seq::empty()
    } else {
        spec_push_path(spec_join_path(segs.drop_last()), segs.last())
    }
}

/// Join path segments into one path.
pub fn path(segments: &Vec<String>) -> (r: String)
    ensures
        r@ == spec_join_path(segments.deep_view()),
{
    let mut acc = String::new();
    let mut i: usize = 0;
    while i < segments.len()
        invariant
            i <= segments.len(),
            acc@ == spec_join_path(segments.deep_view().take(i as int)),
        decreases segments.len() - i,
    {
        let seg = &segments[i];
        let seg_len = seg.as_str().unicode_len();
        let absolute = seg_len > 0 && seg.as_str().get_char(0) == '/';
        if absolute {
            acc = seg.clone();
        } else if acc.as_str().is_empty() {
            acc = seg.clone();
        } else {
            acc = acc.concat("/").concat(seg.as_str());
            proof {
                reveal_strlit("/");
                assert("/"@ =~= seq!['/']);
            }
        }
        proof {
            assert(segments.deep_view().take(i + 1 as int).drop_last() =~= segments.deep_view()
                .take(i as int));
            assert(segments.deep_view().take(i + 1 as int).last() == segments.deep_view()[i as int]);
        }
        i += 1;
    }
    proof {
        assert(segments.deep_view().take(segments.deep_view().len() as int) =~= segments
            .deep_view());
    }
    acc
}

/// What chrono renders for an RFC 3339 value, a format string and an
/// optional timezone name: `None` when the value does not parse, the
/// timezone is unknown, or the format string is rejected.
pub uninterp spec fn date_format_of(
    value: Seq<char>,
    format: Seq<char>,
    timezone: Option<Seq<char>>,
) -> Option<Seq<char>>;

/// Render an RFC 3339 value through a date format string, in the named
/// timezone when one is given.
///
/// Relies on chrono's DateTime::parse_from_rfc3339, with_timezone and
/// format, and on chrono_tz's timezone lookup: the rendering is a function
/// of the three arguments alone.
#[verifier::external_body]
pub fn date(value: &str, format: &str, timezone: Option<&str>) -> (r: Option<String>)
    ensures
        ({
            let model = date_format_of(
                value@,
                format@,
                match timezone {
                    Some(tz) => Some(tz@),
                    None => None,
                },
            );
            match r {
                Some(s) => model == Some(s@),
                None => model is None,
            }
        }),
{
    let dt = chrono::DateTime::parse_from_rfc3339(value).ok()?;
    let mut out = String::new();
    let shown = match timezone {
        Some(name) => {
            let tz: chrono_tz::Tz = name.parse().ok()?;
            write!(out, "{}", dt.with_timezone(&tz).format(format))
        },
        None => write!(out, "{}", dt.format(format)),
    };
    shown.ok().map(|_| out)
}

} // verus!
