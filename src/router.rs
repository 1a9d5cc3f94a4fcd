use vstd::prelude::*;
use vstd::string::*;
use crate::text::str_eq;
use crate::types::HttpMethod;

verus! {

/// The one route the server answers.
pub const LABELER_PATH: &'static str = "/labeler";

/// The header that names the kind of a webhook delivery.
pub const EVENT_HEADER: &'static str = "X-Gitlab-Event";

/// The only kind of delivery that is processed.
pub const MERGE_REQUEST_HOOK: &'static str = "Merge Request Hook";

/// How an inbound request is answered.
#[derive(PartialEq, Eq, Structural, Clone, Copy, Debug)]
pub enum Routed {
    /// Accepted: the body goes on to processing and the answer is 200.
    Dispatch,
    /// 404: no such route.
    UnknownRoute,
    /// 405: the route only takes POST.
    MethodNotAllowed,
    /// 401: the event header is missing or names another event.
    Unauthorized,
}

/// Why the event header was refused.
#[derive(PartialEq, Eq, Structural, Clone, Copy, Debug)]
pub enum HeaderError {
    Missing,
    Invalid,
}

impl Routed {
    pub open spec fn spec_status(self) -> u16 {
        match self {
            Routed::Dispatch => 200,
            Routed::UnknownRoute => 404,
            Routed::MethodNotAllowed => 405,
            Routed::Unauthorized => 401,
        }
    }

    /// The HTTP status of the answer.
    pub fn status(&self) -> (r: u16)
        ensures
            r == self.spec_status(),
    {
        match self {
            Routed::Dispatch => 200,
            Routed::UnknownRoute => 404,
            Routed::MethodNotAllowed => 405,
            Routed::Unauthorized => 401,
        }
    }
}

/// A path with one trailing `/` removed, so `/labeler/` stands for `/labeler`.
pub open spec fn normalized_path(p: Seq<char>) -> Seq<char> {
    if p.len() > 0 && p.last() == '/' {
        p.drop_last()
    } else {
        p
    }
}

pub open spec fn header_view(h: Option<&str>) -> Option<Seq<char>> {
    match h {
        Some(s) => Some(s@),
        None => None,
    }
}

/// What the event header check decides.
pub open spec fn header_check(event: Option<Seq<char>>) -> Result<(), HeaderError> {
    match event {
        None => Err(HeaderError::Missing),
        Some(e) => if e == MERGE_REQUEST_HOOK@ {
            Ok(())
        } else {
            Err(HeaderError::Invalid)
        },
    }
}

/// How a request with this path, method and event header is answered.
pub open spec fn route_of(path: Seq<char>, method: HttpMethod, event: Option<Seq<char>>) -> Routed {
    if normalized_path(path) != LABELER_PATH@ {
        Routed::UnknownRoute
    } else if method != HttpMethod::Post {
        Routed::MethodNotAllowed
    } else if header_check(event) is Err {
        Routed::Unauthorized
    } else {
        Routed::Dispatch
    }
}

/// Checks the value of the event header, `None` where the request has none.
pub fn verify_headers(event: Option<&str>) -> (r: Result<(), HeaderError>)
    ensures
        r == header_check(header_view(event)),
{
    match event {
        None => Err(HeaderError::Missing),
        Some(e) => if str_eq(e, MERGE_REQUEST_HOOK) {
            Ok(())
        } else {
            Err(HeaderError::Invalid)
        },
    }
}

/// Decides how to answer a request from its path, method and event header.
pub fn parse_route(path: &str, method: HttpMethod, event: Option<&str>) -> (r: Routed)
    ensures
        r == route_of(path@, method, header_view(event)),
{
    let n = path.unicode_len();
    let trimmed = if n > 0 && path.get_char(n - 1) == '/' {
        path.substring_char(0, n - 1)
    } else {
        path
    };
    assert(trimmed@ =~= normalized_path(path@));
    if !str_eq(trimmed, LABELER_PATH) {
        Routed::UnknownRoute
    } else if method != HttpMethod::Post {
        Routed::MethodNotAllowed
    } else if verify_headers(event).is_err() {
        Routed::Unauthorized
    } else {
        Routed::Dispatch
    }
}

/// A trailing slash on the labeler route changes nothing: `/labeler/` is
/// answered as `/labeler` for every method and event header.
pub proof fn lemma_trailing_slash_same_route(method: HttpMethod, event: Option<Seq<char>>)
    ensures
        route_of("/labeler/"@, method, event) == route_of(LABELER_PATH@, method, event),
{
    reveal_strlit("/labeler/");
    reveal_strlit("/labeler");
    assert(normalized_path("/labeler/"@) =~= "/labeler"@);
}

} // verus!
