//! Client configuration: the base URL that requests go through and the
//! User-Agent that identifies the caller.

use vstd::prelude::*;

use crate::text::same_text;

verus! {

/// Default base URL: requests go straight to the service.
pub const DEFAULT_BASE_URL: &'static str = "https://";

/// The scheme that every URL of the service starts with.
pub open spec fn https_scheme() -> Seq<char> {
    seq!['h', 't', 't', 'p', 's', ':', '/', '/']
}

/// `url` with its scheme replaced by `base`; a URL with another scheme is
/// left as it is.
pub open spec fn rewritten_url(base: Seq<char>, url: Seq<char>) -> Seq<char> {
    if url.len() >= 8 && url.subrange(0, 8) == https_scheme() {
        base + url.subrange(8, url.len() as int)
    } else {
        url
    }
}

/// Configuration of a client.
#[derive(Debug, Clone)]
pub struct Config {
    /// Base URL that replaces `https://` in every request (a proxy such as
    /// `https://proxy.example.com/`).
    pub base_url: String,
    /// User-Agent sent with every request.
    pub user_agent: String,
}

impl Default for Config {
    fn default() -> (r: Config)
        ensures
            r.base_url@ == https_scheme(),
            r.user_agent@ == "edgar-rs/0.1.0"@,
    {
        proof {
            reveal_strlit("https://");
        }
        Config {
            base_url: String::from_str(DEFAULT_BASE_URL),
            user_agent: String::from_str("edgar-rs/0.1.0"),
        }
    }
}

impl Config {
    /// A configuration with the given User-Agent and the default base URL.
    pub fn new(user_agent: &str) -> (r: Config)
        ensures
            r.base_url@ == https_scheme(),
            r.user_agent@ == user_agent@,
    {
        proof {
            reveal_strlit("https://");
        }
        Config {
            base_url: String::from_str(DEFAULT_BASE_URL),
            user_agent: String::from_str(user_agent),
        }
    }

    /// The URL that a request for `url` goes to: `https://` is replaced by
    /// the base URL; any other URL is kept.
    pub fn build_url(&self, url: &str) -> (r: String)
        ensures
            r@ == rewritten_url(self.base_url@, url@),
    {
        proof {
            reveal_strlit("https://");
        }
        assert(DEFAULT_BASE_URL@ == https_scheme());
        let len = url.unicode_len();
        if len >= 8 && same_text(url.substring_char(0, 8), DEFAULT_BASE_URL) {
            let mut out = self.base_url.clone();
            out.append(url.substring_char(8, len));
            out
        } else {
            String::from_str(url)
        }
    }
}

} // verus!
