//! Outbound publishing integrations: the closed set of destinations a new
//! page can be announced to.  The network calls themselves live in the
//! embedding application; here stand the configurations and the verified
//! message preparation.

use vstd::prelude::*;
use crate::errors::MirrorError;
use crate::text::push_char;

verus! {

/// The capability a publishing destination offers.
pub trait Publisher {
    /// Post a text message.
    fn post_text(&self, text: &str) -> Result<(), MirrorError>;

    /// Post an audio attachment with a caption.
    fn post_audio(&self, text: &str, audio: &str) -> Result<(), MirrorError>;
}

/// Configuration of a Mastodon destination.
#[derive(Clone, Debug)]
pub struct Mastodon {
    pub instance: String,
    pub access_token: String,
}

impl Mastodon {
    pub fn new(instance: String, access_token: String) -> (r: Mastodon)
        ensures
            r.instance == instance,
            r.access_token == access_token,
    {
        Mastodon { instance, access_token }
    }
}

/// Configuration of a Telegram destination.
#[derive(Clone, Debug)]
pub struct Telegram {
    pub access_token: String,
    pub chat_id: String,
}

/// Every double quote replaced by a single quote: what a message looks like
/// once prepared for sending.
pub open spec fn spec_prepare(s: Seq<char>) -> Seq<char> {
    s.map_values(|c: char| if c == '"' { '\'' } else { c })
}

impl Telegram {
    pub fn new(access_token: String, chat_id: String) -> (r: Telegram)
        ensures
            r.access_token == access_token,
            r.chat_id == chat_id,
    {
        Telegram { access_token, chat_id }
    }

    /// Replace every double quote of a message by a single quote.
    pub fn prepare(text: &str) -> (r: String)
        ensures
            r@ == spec_prepare(text@),
    {
        let n = vstd::string::StrSliceExecFns::unicode_len(text);
        let mut r = String::new();
        let mut i: usize = 0;
        while i < n
            invariant
                i <= n,
                n == text@.len(),
                r@ == spec_prepare(text@.take(i as int)),
            decreases n - i,
        {
            let c = vstd::string::StrSliceExecFns::get_char(text, i);
            if c == '"' {
                push_char(&mut r, '\'');
            } else {
                push_char(&mut r, c);
            }
            proof {
                assert(spec_prepare(text@.take(i + 1 as int)) =~= spec_prepare(
                    text@.take(i as int),
                ).push(if text@[i as int] == '"' { '\'' } else { text@[i as int] }));
            }
            i += 1;
        }
        proof {
            assert(text@.take(n as int) =~= text@);
        }
        r
    }
}

} // verus!
