//! The routing table of the service: which endpoint answers a request, how
//! large a body it takes, and whether it needs an administrator.
use vstd::prelude::*;
use vstd::string::*;

use crate::error::{Error, ErrorKindView, ErrorView};
use crate::jwt::UserClaims;
use crate::routes::auth::{check_header, spec_check_header};
use crate::status;

pub mod api;
pub mod auth;
pub mod user;
pub mod ui;

verus! {

/// The method of a request, as far as the routes tell methods apart
#[derive(Clone, Copy, Debug)]
pub enum Method {
    Get,
    Post,
    Other,
}

/// The endpoints of the service
#[derive(Clone, Debug)]
pub enum Endpoint {
    /// POST /api/user/login
    Login,
    /// POST /api/admin/create, for administrators only
    CreateAdmin,
    /// POST /api/user/create
    CreateUser,
    /// GET /{short link}
    RedirectLink(String),
    /// POST /api/link/create
    CreateLink,
    /// GET /
    ServeIndex,
    /// /api/ping, any method
    Ping,
}

/// The mathematical value of an [`Endpoint`]
pub enum EndpointView {
    Login,
    CreateAdmin,
    CreateUser,
    RedirectLink(Seq<char>),
    CreateLink,
    ServeIndex,
    Ping,
}

impl View for Endpoint {
    type V = EndpointView;

    open spec fn view(&self) -> EndpointView {
        match self {
            Endpoint::Login => EndpointView::Login,
            Endpoint::CreateAdmin => EndpointView::CreateAdmin,
            Endpoint::CreateUser => EndpointView::CreateUser,
            Endpoint::RedirectLink(p) => EndpointView::RedirectLink(p@),
            Endpoint::CreateLink => EndpointView::CreateLink,
            Endpoint::ServeIndex => EndpointView::ServeIndex,
            Endpoint::Ping => EndpointView::Ping,
        }
    }
}

/// The endpoint that answers a request with this method and these path
/// segments, tried in the order of the routing table
pub open spec fn spec_route(method: Method, segs: Seq<Seq<char>>) -> Option<EndpointView> {
    if method is Post && segs == seq!["api"@, "user"@, "login"@] {
        Some(EndpointView::Login)
    } else if method is Post && segs == seq!["api"@, "admin"@, "create"@] {
        Some(EndpointView::CreateAdmin)
    } else if method is Post && segs == seq!["api"@, "user"@, "create"@] {
        Some(EndpointView::CreateUser)
    } else if method is Get && segs.len() == 1 && segs[0].len() > 0 {
        Some(EndpointView::RedirectLink(segs[0]))
    } else if method is Post && segs == seq!["api"@, "link"@, "create"@] {
        Some(EndpointView::CreateLink)
    } else if method is Get && segs.len() == 0 {
        Some(EndpointView::ServeIndex)
    } else if segs == seq!["api"@, "ping"@] {
        Some(EndpointView::Ping)
    } else {
        None
    }
}

fn path_is2(segs: &Vec<String>, a: &str, b: &str) -> (r: bool)
    ensures
        r == (segs.deep_view() == seq![a@, b@]),
{
    if segs.len() != 2 {
        assert(segs.deep_view().len() != 2);
        return false;
    }
    let sa = String::from_str(a);
    let sb = String::from_str(b);
    let r = segs[0] == sa && segs[1] == sb;
    if r {
        assert(segs.deep_view() =~= seq![a@, b@]);
    } else {
        assert(segs.deep_view()[0] != a@ || segs.deep_view()[1] != b@);
    }
    r
}

fn path_is3(segs: &Vec<String>, a: &str, b: &str, c: &str) -> (r: bool)
    ensures
        r == (segs.deep_view() == seq![a@, b@, c@]),
{
    if segs.len() != 3 {
        assert(segs.deep_view().len() != 3);
        return false;
    }
    let sa = String::from_str(a);
    let sb = String::from_str(b);
    let sc = String::from_str(c);
    let r = segs[0] == sa && segs[1] == sb && segs[2] == sc;
    if r {
        assert(segs.deep_view() =~= seq![a@, b@, c@]);
    } else {
        assert(segs.deep_view()[0] != a@ || segs.deep_view()[1] != b@ || segs.deep_view()[2] != c@);
    }
    r
}

pub open spec fn endpoint_opt_view(e: Option<Endpoint>) -> Option<EndpointView> {
    match e {
        Some(e) => Some(e@),
        None => None,
    }
}

/// Routing table for API: the endpoint for a request's method and path
/// segments (the path split at '/', empty segments left out)
pub fn route(method: Method, segments: &Vec<String>) -> (e: Option<Endpoint>)
    ensures
        endpoint_opt_view(e) == spec_route(method, segments.deep_view()),
{
    let post = match method {
        Method::Post => true,
        _ => false,
    };
    let get = match method {
        Method::Get => true,
        _ => false,
    };
    if post && path_is3(segments, "api", "user", "login") {
        Some(Endpoint::Login)
    } else if post && path_is3(segments, "api", "admin", "create") {
        Some(Endpoint::CreateAdmin)
    } else if post && path_is3(segments, "api", "user", "create") {
        Some(Endpoint::CreateUser)
    } else if get && segments.len() == 1 && !segments[0].as_str().is_empty() {
        Some(Endpoint::RedirectLink(segments[0].clone()))
    } else if post && path_is3(segments, "api", "link", "create") {
        Some(Endpoint::CreateLink)
    } else if get && segments.len() == 0 {
        Some(Endpoint::ServeIndex)
    } else if path_is2(segments, "api", "ping") {
        Some(Endpoint::Ping)
    } else {
        None
    }
}

/// A body of the declared length is taken by the endpoint
pub open spec fn spec_body_length_ok(e: EndpointView, content_length: Option<u64>) -> bool {
    match spec_body_limit(e) {
        None => true,
        Some(limit) => match content_length {
            None => false,
            Some(n) => n <= limit,
        },
    }
}

/// The largest body that any endpoint takes: no body over it is read
pub const MAX_BODY_LIMIT: u64 = 16384;

/// The refusal of a request that no route takes to its handler
pub open spec fn not_routed_error() -> ErrorView {
    ErrorView {
        kind: ErrorKindView::Custom("HTTP method not allowed"@),
        status_code: status::BAD_REQUEST,
        msg: None,
    }
}

/// The refusal of a request that no route takes: every request is tried
/// against the routes for other methods too, and among the refusals of all
/// routes the refusal of a method is the one answered (before a missing
/// path, a missing or too large body length, or a body that is not JSON),
/// so it is refused as a method that is not allowed
pub fn not_routed() -> (e: Error)
    ensures
        e@ == not_routed_error(),
{
    Error::custom(String::from_str("HTTP method not allowed"), status::BAD_REQUEST)
}

/// The largest body that an endpoint takes, in bytes
pub open spec fn spec_body_limit(e: EndpointView) -> Option<u64> {
    match e {
        EndpointView::Login => Some(10240),
        EndpointView::CreateAdmin => Some(10240),
        EndpointView::CreateUser => Some(10240),
        EndpointView::CreateLink => Some(16384),
        _ => None,
    }
}

impl Endpoint {
    /// The largest body this endpoint takes, in bytes (`None`: no body is read)
    pub fn content_length_limit(&self) -> (limit: Option<u64>)
        ensures
            limit == spec_body_limit(self@),
    {
        match self {
            Endpoint::Login => Some(1024 * 10),
            Endpoint::CreateAdmin => Some(1024 * 10),
            Endpoint::CreateUser => Some(1024 * 10),
            Endpoint::CreateLink => Some(1024 * 16),
            _ => None,
        }
    }

    /// Whether a body of the declared length is taken: an endpoint that reads
    /// a body needs the length, and takes a body up to its limit
    pub fn body_length_ok(&self, content_length: Option<u64>) -> (ok: bool)
        ensures
            ok == spec_body_length_ok(self@, content_length),
    {
        match self.content_length_limit() {
            None => true,
            Some(limit) => match content_length {
                None => false,
                Some(n) => n <= limit,
            },
        }
    }

    /// Whether this endpoint is for administrators only
    pub fn requires_admin(&self) -> (b: bool)
        ensures
            b == (self@ is CreateAdmin),
    {
        match self {
            Endpoint::CreateAdmin => true,
            _ => false,
        }
    }
}

/// The decision whether a request reaches its endpoint's handler: the
/// request must be routed; an endpoint that reads a body needs a declared
/// length within its limit; the admin-only endpoint needs a cookie with an
/// administrator's token; an endpoint that reads a body needs it to be JSON
/// (`json_ok`). Every refusal but the token's is answered as not routed.
pub open spec fn spec_gate(
    method: Method,
    segs: Seq<Seq<char>>,
    content_length: Option<u64>,
    json_ok: bool,
    cookie: Option<Result<UserClaims, String>>,
) -> Result<EndpointView, ErrorView> {
    match spec_route(method, segs) {
        None => Err(not_routed_error()),
        Some(e) => if !spec_body_length_ok(e, content_length) {
            Err(not_routed_error())
        } else if e is CreateAdmin && spec_check_header(cookie) is Err {
            Err(spec_check_header(cookie)->Err_0)
        } else if spec_body_limit(e) is Some && !json_ok {
            Err(not_routed_error())
        } else {
            Ok(e)
        },
    }
}

pub open spec fn gate_view(r: Result<Endpoint, Error>) -> Result<EndpointView, ErrorView> {
    match r {
        Ok(e) => Ok(e@),
        Err(e) => Err(e@),
    }
}

/// The endpoint whose handler a request reaches, or the refusal of the
/// request: `segments` are the request's path segments, `content_length`
/// its declared body length, `json_ok` whether its content type is taken as
/// JSON, and `cookie` its `jwt` cookie (absent, or the outcome of validating
/// its token)
pub fn gate(
    method: Method,
    segments: &Vec<String>,
    content_length: Option<u64>,
    json_ok: bool,
    cookie: Option<Result<UserClaims, String>>,
) -> (res: Result<Endpoint, Error>)
    ensures
        gate_view(res) == spec_gate(method, segments.deep_view(), content_length, json_ok, cookie),
        (spec_route(method, segments.deep_view()) matches Some(e) && !(e is CreateAdmin)
            && spec_body_length_ok(e, content_length) && (spec_body_limit(e) is Some ==> json_ok))
            ==> (res matches Ok(x) && Some(x@) == spec_route(method, segments.deep_view())),
{
    let endpoint = match route(method, segments) {
        None => return Err(not_routed()),
        Some(e) => e,
    };
    if !endpoint.body_length_ok(content_length) {
        return Err(not_routed());
    }
    if endpoint.requires_admin() {
        match check_header(cookie) {
            Err(e) => return Err(e),
            Ok(()) => {},
        }
    }
    if endpoint.content_length_limit().is_some() && !json_ok {
        return Err(not_routed());
    }
    Ok(endpoint)
}

/// The type and subtype that `mime` parses a content type into (lowercased),
/// or `None` where it does not parse
pub uninterp spec fn mime_parts(value: Seq<char>) -> Option<(Seq<char>, Seq<char>)>;

/// Parses a content type with `value.parse::<mime::Mime>()` and takes its
/// `type_()` and `subtype()`; claims only that they are the ones `mime`
/// gives for this value
#[verifier::external_body]
fn parse_mime(value: &str) -> (parts: Option<(String, String)>)
    ensures
        match parts {
            Some((t, s)) => mime_parts(value@) == Some((t@, s@)),
            None => mime_parts(value@) is None,
        },
{
    match value.parse::<mime::Mime>() {
        Ok(m) => Some((m.type_().as_str().to_string(), m.subtype().as_str().to_string())),
        Err(_) => None,
    }
}

/// Whether a request's content type is taken as JSON: a missing header is,
/// an unreadable one is not, and a readable one must parse as
/// application/json
pub open spec fn spec_json_content_type(header: Option<Option<String>>) -> bool {
    match header {
        None => true,
        Some(None) => false,
        Some(Some(v)) => mime_parts(v@) == Some(("application"@, "json"@)),
    }
}

/// Whether a request's `Content-Type` header (absent, unreadable as text,
/// or its text) is taken as JSON
pub fn json_content_type(header: Option<Option<String>>) -> (ok: bool)
    ensures
        ok == spec_json_content_type(header),
{
    match header {
        None => true,
        Some(None) => false,
        Some(Some(v)) => match parse_mime(v.as_str()) {
            None => false,
            Some((t, s)) => {
                let app = String::from_str("application");
                let json = String::from_str("json");
                t == app && s == json
            },
        },
    }
}

/// The pieces of `s` between its '/' characters, in order: n slashes give
/// n + 1 pieces
pub open spec fn split_slash(s: Seq<char>) -> Seq<Seq<char>>
    decreases s.len(),
{
    if s.len() == 0 {
        seq![Seq::<char>::empty()]
    } else if s.last() == '/' {
        split_slash(s.drop_last()).push(Seq::<char>::empty())
    } else {
        let p = split_slash(s.drop_last());
        p.update(p.len() - 1, p.last().push(s.last()))
    }
}

/// The segments that routes match in a request path: the path without its
/// leading '/', split at '/', with one trailing empty piece left out (the
/// end of a route takes a trailing '/')
pub open spec fn spec_segments(path: Seq<char>) -> Seq<Seq<char>> {
    let body = if path.len() > 0 && path[0] == '/' {
        path.drop_first()
    } else {
        path
    };
    let parts = split_slash(body);
    if parts.last().len() == 0 {
        parts.drop_last()
    } else {
        parts
    }
}

/// The segments of a request path that routes match
pub fn path_segments(path: &str) -> (segs: Vec<String>)
    ensures
        segs.deep_view() == spec_segments(path@),
{
    let n = path.unicode_len();
    let first: usize = if n > 0 && path.get_char(0) == '/' {
        1
    } else {
        0
    };
    let body = path.substring_char(first, n);
    assert(body@ =~= (if path@.len() > 0 && path@[0] == '/' {
        path@.drop_first()
    } else {
        path@
    }));
    let m = body.unicode_len();
    let mut segs: Vec<String> = Vec::new();
    let mut start: usize = 0;
    let mut i: usize = 0;
    assert(body@.take(0) =~= Seq::<char>::empty());
    assert(segs.deep_view().push(body@.subrange(0, 0)) =~= split_slash(body@.take(0)));
    while i < m
        invariant
            m == body@.len(),
            start <= i <= m,
            segs.deep_view().push(body@.subrange(start as int, i as int)) == split_slash(
                body@.take(i as int),
            ),
        decreases m - i,
    {
        let ghost prev = segs.deep_view();
        let c = body.get_char(i);
        assert(body@.take(i + 1).drop_last() =~= body@.take(i as int));
        assert(body@.take(i + 1).last() == c);
        if c == '/' {
            let piece = body.substring_char(start, i);
            segs.push(String::from_str(piece));
            assert(segs.deep_view() =~= prev.push(body@.subrange(start as int, i as int)));
            start = i + 1;
            let ghost p = split_slash(body@.take(i as int));
            assert(split_slash(body@.take(i + 1)) == p.push(Seq::<char>::empty()));
            assert(body@.subrange(start as int, i + 1) =~= Seq::<char>::empty());
            assert(segs.deep_view().push(body@.subrange(start as int, i + 1)) =~= p.push(
                Seq::<char>::empty(),
            ));
        } else {
            let ghost p = split_slash(body@.take(i as int));
            assert(p == prev.push(body@.subrange(start as int, i as int)));
            assert(split_slash(body@.take(i + 1)) == p.update(p.len() - 1, p.last().push(c)));
            assert(body@.subrange(start as int, i + 1) =~= body@.subrange(start as int, i as int).push(c));
            assert(segs.deep_view().push(body@.subrange(start as int, i + 1)) =~= p.update(
                p.len() - 1,
                p.last().push(c),
            ));
        }
        i = i + 1;
    }
    assert(body@.take(m as int) =~= body@);
    let ghost before = segs.deep_view();
    let last = body.substring_char(start, m);
    if last.unicode_len() > 0 {
        segs.push(String::from_str(last));
        assert(segs.deep_view() =~= before.push(last@));
    } else {
        assert(before.push(last@).drop_last() =~= before);
    }
    segs
}

} // verus!
