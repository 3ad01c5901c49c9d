//! HTTP methods and their idempotency per RFC 7231 §4.2.1.

use vstd::prelude::*;

verus! {

/// An HTTP request method. Only the nine methods of RFC 7231 / RFC 5789
/// are recognised; a request with any other verb is rejected at the
/// boundary before any network activity.
#[derive(Clone, Copy, Debug, PartialEq, Eq, Structural)]
pub enum HttpMethod {
    Get,
    Head,
    Post,
    Put,
    Delete,
    Options,
    Trace,
    Patch,
    Connect,
}

impl HttpMethod {
    /// Whether repeating the method has the same effect as issuing it
    /// once (RFC 7231 §4.2.2): GET, HEAD, PUT, DELETE, OPTIONS and TRACE
    /// are idempotent; POST, PATCH and CONNECT are not.
    pub open spec fn spec_is_idempotent(self) -> bool {
        match self {
            HttpMethod::Get => true,
            HttpMethod::Head => true,
            HttpMethod::Put => true,
            HttpMethod::Delete => true,
            HttpMethod::Options => true,
            HttpMethod::Trace => true,
            HttpMethod::Post => false,
            HttpMethod::Patch => false,
            HttpMethod::Connect => false,
        }
    }

    #[verifier::when_used_as_spec(spec_is_idempotent)]
    pub fn is_idempotent(self) -> (r: bool)
        ensures
            r == self.spec_is_idempotent(),
    {
        match self {
            HttpMethod::Get => true,
            HttpMethod::Head => true,
            HttpMethod::Put => true,
            HttpMethod::Delete => true,
            HttpMethod::Options => true,
            HttpMethod::Trace => true,
            HttpMethod::Post => false,
            HttpMethod::Patch => false,
            HttpMethod::Connect => false,
        }
    }

    /// The method named by the given verb, written exactly as the nine
    /// upper-case RFC names; any other string is refused.
    pub open spec fn spec_from_str(s: Seq<char>) -> Option<HttpMethod> {
        if s == "GET"@ {
            Some(HttpMethod::Get)
        } else if s == "HEAD"@ {
            Some(HttpMethod::Head)
        } else if s == "POST"@ {
            Some(HttpMethod::Post)
        } else if s == "PUT"@ {
            Some(HttpMethod::Put)
        } else if s == "DELETE"@ {
            Some(HttpMethod::Delete)
        } else if s == "OPTIONS"@ {
            Some(HttpMethod::Options)
        } else if s == "TRACE"@ {
            Some(HttpMethod::Trace)
        } else if s == "PATCH"@ {
            Some(HttpMethod::Patch)
        } else if s == "CONNECT"@ {
            Some(HttpMethod::Connect)
        } else {
            None
        }
    }

    pub fn from_str(s: &str) -> (r: Option<HttpMethod>)
        ensures
            r == Self::spec_from_str(s@),
    {
        let owned = s.to_owned();
        if owned == "GET".to_owned() {
            Some(HttpMethod::Get)
        } else if owned == "HEAD".to_owned() {
            Some(HttpMethod::Head)
        } else if owned == "POST".to_owned() {
            Some(HttpMethod::Post)
        } else if owned == "PUT".to_owned() {
            Some(HttpMethod::Put)
        } else if owned == "DELETE".to_owned() {
            Some(HttpMethod::Delete)
        } else if owned == "OPTIONS".to_owned() {
            Some(HttpMethod::Options)
        } else if owned == "TRACE".to_owned() {
            Some(HttpMethod::Trace)
        } else if owned == "PATCH".to_owned() {
            Some(HttpMethod::Patch)
        } else if owned == "CONNECT".to_owned() {
            Some(HttpMethod::Connect)
        } else {
            None
        }
    }
}

} // verus!
