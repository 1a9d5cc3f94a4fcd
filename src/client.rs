use vstd::prelude::*;
use vstd::string::*;
use crate::processor::ProcessError;
use crate::text::str_eq;
use crate::types::HttpMethod;
use crate::urls::append_decimal;

verus! {

/// What parsing a URL as a URI yields: `None` where it does not parse, else
/// its scheme, where it has one.
pub uninterp spec fn uri_scheme_of(url: Seq<char>) -> Option<Option<Seq<char>>>;

/// Relies on `hyper::Uri`'s `FromStr` impl and on `Uri::scheme_str`: the
/// scheme of the parsed URL, or the parser's message where it does not parse.
#[verifier::external_body]
fn uri_scheme(url: &str) -> (r: Result<Option<String>, String>)
    ensures
        scheme_view(r) == uri_scheme_of(url@),
{
    match url.parse::<hyper::Uri>() {
        Ok(uri) => Ok(uri.scheme_str().map(|s| s.to_string())),
        Err(e) => Err(e.to_string()),
    }
}

pub open spec fn scheme_view(r: Result<Option<String>, String>) -> Option<Option<Seq<char>>> {
    match r {
        Ok(Some(s)) => Some(Some(s@)),
        Ok(None) => Some(None),
        Err(_) => None,
    }
}

/// The URL parsed, with scheme `http` or `https`.
pub open spec fn scheme_allowed(scheme: Option<Option<Seq<char>>>) -> bool {
    scheme == Some(Some("http"@)) || scheme == Some(Some("https"@))
}

pub open spec fn method_supported(method: HttpMethod) -> bool {
    method == HttpMethod::Get || method == HttpMethod::Put
}

pub open spec fn token_view(token: Option<&str>) -> Option<Seq<char>> {
    match token {
        Some(t) => Some(t@),
        None => None,
    }
}

pub open spec fn body_view(body: Option<&[u8]>) -> Seq<u8> {
    match body {
        Some(b) => b@,
        None => Seq::empty(),
    }
}

/// The headers of every outbound request: the JSON content type, then the
/// token where there is one.
pub open spec fn headers_for(h: Seq<(String, String)>, token: Option<Seq<char>>) -> bool {
    &&& h.len() == (if token is Some { 2int } else { 1int })
    &&& h[0].0@ == "Content-Type"@
    &&& h[0].1@ == "application/json"@
    &&& token is Some ==> h[1].0@ == "PRIVATE-TOKEN"@ && h[1].1@ == token->Some_0
}

/// An outbound request, checked and ready to send.
#[derive(Debug)]
pub struct RequestPlan {
    pub method: HttpMethod,
    pub headers: Vec<(String, String)>,
    pub body: Vec<u8>,
}

/// What a request plan owes, given what the URL parsed to.
pub open spec fn plan_meets(
    r: Result<RequestPlan, ProcessError>,
    scheme: Option<Option<Seq<char>>>,
    method: HttpMethod,
    token: Option<&str>,
    body: Option<&[u8]>,
) -> bool {
    &&& r is Ok <==> scheme_allowed(scheme) && method_supported(method)
    &&& !scheme_allowed(scheme) ==> r is Err && r->Err_0 is InvalidUrl
    &&& scheme_allowed(scheme) && !method_supported(method) ==> r is Err
        && r->Err_0 is UnsupportedMethod
    &&& r is Ok ==> {
        &&& r->Ok_0.method == method
        &&& headers_for(r->Ok_0.headers@, token_view(token))
        &&& r->Ok_0.body@ == body_view(body)
    }
}

fn copy_body(body: Option<&[u8]>) -> (r: Vec<u8>)
    ensures
        r@ == body_view(body),
{
    let mut out: Vec<u8> = Vec::new();
    if let Some(b) = body {
        let mut i: usize = 0;
        while i < b.len()
            invariant
                i <= b@.len(),
                out@ == b@.subrange(0, i as int),
            decreases b@.len() - i,
        {
            out.push(b[i]);
            i = i + 1;
            assert(out@ =~= b@.subrange(0, i as int));
        }
        assert(out@ =~= b@);
    }
    out
}

/// Checks an outbound request, given what its URL parsed to (`scheme`): the
/// scheme must be `http` or `https` and the method GET or PUT.
pub fn plan_for_scheme(
    scheme: Result<Option<String>, String>,
    url: &str,
    method: HttpMethod,
    token: Option<&str>,
    body: Option<&[u8]>,
) -> (r: Result<RequestPlan, ProcessError>)
    ensures
        plan_meets(r, scheme_view(scheme), method, token, body),
{
    let allowed = match &scheme {
        Ok(Some(s)) => str_eq(s.as_str(), "http") || str_eq(s.as_str(), "https"),
        _ => false,
    };
    if !allowed {
        let mut message = match &scheme {
            Err(e) => {
                let mut m = String::from_str("failed to parse url: ");
                m.append(e.as_str());
                m.append(": ");
                m
            },
            _ => String::from_str("scheme of url is not 'http' or 'https': "),
        };
        message.append(url);
        return Err(ProcessError::InvalidUrl(message));
    }
    if method != HttpMethod::Get && method != HttpMethod::Put {
        return Err(ProcessError::UnsupportedMethod(String::from_str("only GET and PUT are sent")));
    }
    let mut headers: Vec<(String, String)> = Vec::new();
    headers.push((String::from_str("Content-Type"), String::from_str("application/json")));
    if let Some(t) = token {
        headers.push((String::from_str("PRIVATE-TOKEN"), String::from_str(t)));
    }
    Ok(RequestPlan { method, headers, body: copy_body(body) })
}

/// Checks an outbound request to `url` before it is sent: the URL must parse
/// with scheme `http` or `https`, and the method be GET or PUT.
pub fn plan_request(url: &str, method: HttpMethod, token: Option<&str>, body: Option<&[u8]>) -> (r:
    Result<RequestPlan, ProcessError>)
    ensures
        plan_meets(r, uri_scheme_of(url@), method, token, body),
{
    let scheme = uri_scheme(url);
    plan_for_scheme(scheme, url, method, token, body)
}

/// The outcome of an outbound call by its HTTP status: anything outside
/// 200 to 299 is a remote error.
pub fn check_status(status: u16) -> (r: Result<(), ProcessError>)
    ensures
        r is Ok <==> 200 <= status < 300,
        r is Err ==> r->Err_0 is Remote,
{
    if 200 <= status && status < 300 {
        Ok(())
    } else {
        let mut message = String::from_str("the host answered with status ");
        append_decimal(&mut message, status as u64);
        Err(ProcessError::Remote(message))
    }
}

} // verus!
