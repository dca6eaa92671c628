//! Raw responses of the transport and their classification into success,
//! rate limiting and failure.

use vstd::prelude::*;

use crate::error::EdgarApiError;
use crate::text::{decimal_text, parse_bounded, parse_unsigned, push_decimal, same_text};

verus! {

/// A response as the transport hands it over.
#[derive(Debug, Clone)]
pub struct HttpResponse {
    /// HTTP status code.
    pub status: u16,
    /// Response headers as (name, value) pairs, names in lower case.
    pub headers: Vec<(String, String)>,
    /// Response body.
    pub body: Vec<u8>,
}

/// The headers as pairs of texts.
pub open spec fn headers_view(hs: Seq<(String, String)>) -> Seq<(Seq<char>, Seq<char>)> {
    hs.map_values(|p: (String, String)| (p.0@, p.1@))
}

/// The value of the first header called `name`.
pub open spec fn header_lookup(hs: Seq<(Seq<char>, Seq<char>)>, name: Seq<char>) -> Option<
    Seq<char>,
>
    decreases hs.len(),
{
    if hs.len() == 0 {
        None
    } else if hs[0].0 == name {
        Some(hs[0].1)
    } else {
        header_lookup(hs.drop_first(), name)
    }
}

/// The name of the header that tells how long to wait after a rate limit.
pub open spec fn retry_after_name() -> Seq<char> {
    seq!['r', 'e', 't', 'r', 'y', '-', 'a', 'f', 't', 'e', 'r']
}

/// The wait in seconds that the headers ask for: the `retry-after` header read
/// as an unsigned 64-bit number, if it is there and reads as one.
pub open spec fn retry_after_of(hs: Seq<(Seq<char>, Seq<char>)>) -> Option<u64> {
    match header_lookup(hs, retry_after_name()) {
        Some(v) => match parse_unsigned(v, u64::MAX as nat) {
            Some(n) => Some(n as u64),
            None => None,
        },
        None => None,
    }
}

/// The message of a request that the service rejected.
pub open spec fn failure_message(url: Seq<char>, status: u16) -> Seq<char> {
    "Request to "@ + url + " failed with status "@ + decimal_text(status as nat)
}

/// The outcome of a request with response status `status`, headers `hs` and
/// URL `url`: the status where the body is to be decoded, or the error.
pub open spec fn status_outcome(
    status: u16,
    hs: Seq<(Seq<char>, Seq<char>)>,
    url: Seq<char>,
    r: Result<u16, EdgarApiError>,
) -> bool {
    if status == 429 {
        r == Err::<u16, EdgarApiError>(
            EdgarApiError::RateLimitExceeded { retry_after: retry_after_of(hs) },
        )
    } else if 200 <= status < 300 {
        r == Ok::<u16, EdgarApiError>(status)
    } else {
        r matches Err(EdgarApiError::ApiError { status: s, message: m }) && s == status && m@
            == failure_message(url, status)
    }
}

impl HttpResponse {
    /// The response body.
    pub fn bytes(&self) -> (r: &[u8])
        ensures
            r@ == self.body@,
    {
        self.body.as_slice()
    }

    /// Whether the status is a success (2xx).
    pub fn is_success(&self) -> (r: bool)
        ensures
            r == (200 <= self.status < 300),
    {
        self.status >= 200 && self.status < 300
    }

    /// The value of the first header called `name`.
    pub fn header(&self, name: &str) -> (r: Option<String>)
        ensures
            r matches Some(v) ==> header_lookup(headers_view(self.headers@), name@) == Some(v@),
            r is None ==> header_lookup(headers_view(self.headers@), name@) is None,
    {
        let ghost all = headers_view(self.headers@);
        let n = self.headers.len();
        let mut i: usize = 0;
        assert(all.subrange(0, n as int) =~= all);
        while i < n
            invariant
                n == self.headers@.len(),
                i <= n,
                all == headers_view(self.headers@),
                header_lookup(all, name@) == header_lookup(all.subrange(i as int, n as int), name@),
            decreases n - i,
        {
            let ghost rest = all.subrange(i as int, n as int);
            assert(rest.drop_first() =~= all.subrange(i + 1, n as int));
            assert(rest[0] == (self.headers@[i as int].0@, self.headers@[i as int].1@));
            if same_text(self.headers[i].0.as_str(), name) {
                return Some(self.headers[i].1.clone());
            }
            i = i + 1;
        }
        assert(all.subrange(n as int, n as int).len() == 0);
        None
    }

    /// The wait in seconds that a `retry-after` header asks for.
    pub fn retry_after(&self) -> (r: Option<u64>)
        ensures
            r == retry_after_of(headers_view(self.headers@)),
    {
        proof {
            reveal_strlit("retry-after");
        }
        assert("retry-after"@ == retry_after_name());
        match self.header("retry-after") {
            Some(v) => parse_bounded(v.as_str(), u64::MAX),
            None => None,
        }
    }

    /// Classifies the response to a request for `url`. Status 429 is a rate
    /// limit, with the wait that `retry-after` gives; any other status outside
    /// 2xx is an error of the service; a 2xx status is returned so that the
    /// body can be decoded.
    pub fn check_status(&self, url: &str) -> (r: Result<u16, EdgarApiError>)
        ensures
            status_outcome(self.status, headers_view(self.headers@), url@, r),
    {
        if self.status == 429 {
            return Err(EdgarApiError::RateLimitExceeded { retry_after: self.retry_after() });
        }
        if !self.is_success() {
            let mut message = String::from_str("Request to ");
            message.append(url);
            message.append(" failed with status ");
            push_decimal(&mut message, self.status as u64);
            return Err(EdgarApiError::ApiError { status: self.status, message });
        }
        Ok(self.status)
    }
}

/// Transport on the Cloudflare Workers fetch API; it holds no state.
#[derive(Debug, Clone, Copy)]
pub struct WorkerClient;

impl WorkerClient {
    /// A new transport.
    pub fn new() -> (r: WorkerClient)
        ensures
            r == WorkerClient,
    {
        WorkerClient
    }
}

} // verus!
