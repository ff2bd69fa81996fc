//! The portable HTTP response that every handler of the workspace returns.

use lenso_capability_http_endpoint::response as http_response;
use vstd::prelude::*;
use vstd::string::{StrSliceExecFns, StringSliceAdditionalSpecFns};

verus! {

/// One response header, name and value as text.
#[derive(Debug)]
pub struct Header {
    pub name: String,
    pub value: String,
}

/// A response of the HTTP Endpoint contract: status code, headers in order, body bytes.
#[derive(Debug)]
pub struct WebResponse {
    pub status: u16,
    pub headers: Vec<Header>,
    pub body: Vec<u8>,
}

/// The mathematical value of a [`WebResponse`].
pub struct ResponseView {
    pub status: u16,
    pub headers: Seq<(Seq<char>, Seq<char>)>,
    pub body: Seq<u8>,
}

pub open spec fn header_view(h: Header) -> (Seq<char>, Seq<char>) {
    (h.name@, h.value@)
}

impl View for WebResponse {
    type V = ResponseView;

    open spec fn view(&self) -> ResponseView {
        ResponseView {
            status: self.status,
            headers: self.headers@.map_values(|h: Header| header_view(h)),
            body: self.body@,
        }
    }
}

/// The JSON problem document (RFC 9457 shape) that the HTTP Endpoint crate
/// serialises for a status, a machine-readable code and a detail.
pub uninterp spec fn problem_document(status: u16, code: Seq<char>, detail: Seq<char>) -> Seq<u8>;

/// Calls `lenso_capability_http_endpoint::response::problem`. The claim: the
/// response carries exactly the given status, exactly one header
/// `content-type: application/problem+json; charset=utf-8`, and as body the
/// problem document of status, code and detail.
#[verifier::external_body]
pub(crate) fn problem(status: u16, code: &str, detail: &str) -> (r: WebResponse)
    requires
        100 <= status <= 999,
    ensures
        r.status == status,
        r@.headers == seq![("content-type"@, "application/problem+json; charset=utf-8"@)],
        r@.body == problem_document(status, code@, detail@),
{
    let status = http_response::StatusCode::from_u16(status).expect("status in 100..=999");
    let response = http_response::problem(status, code, detail);
    WebResponse {
        status: response.status as u16,
        headers: response.headers.into_iter().map(|h| Header { name: h.name, value: h.value }).collect(),
        body: Vec::from(response.body),
    }
}

impl ResponseView {
    /// The same response with one more header at the end.
    pub open spec fn with_header(self, name: Seq<char>, value: Seq<char>) -> ResponseView {
        ResponseView { headers: self.headers.push((name, value)), ..self }
    }

    /// The response carries the header `name: value`.
    pub open spec fn has_header(self, name: Seq<char>, value: Seq<char>) -> bool {
        self.headers.contains((name, value))
    }
}

/// The response that `problem` builds for a status, a code and a detail.
pub open spec fn problem_view(status: u16, code: Seq<char>, detail: Seq<char>) -> ResponseView {
    ResponseView {
        status,
        headers: seq![("content-type"@, "application/problem+json; charset=utf-8"@)],
        body: problem_document(status, code, detail),
    }
}

/// The response for a missing or invalid credential: `401` with a Bearer challenge.
pub open spec fn authentication_problem_view() -> ResponseView {
    problem_view(
        401,
        "authentication_required"@,
        "Provide a valid Bearer credential."@,
    ).with_header("www-authenticate"@, "Bearer"@)
}

/// The response for an authenticated actor that is not a user: `403`.
pub open spec fn unsupported_actor_view() -> ResponseView {
    problem_view(
        403,
        "unsupported_actor"@,
        "This author workspace requires an authenticated user actor."@,
    )
}

/// The response for a path and a JSON body that name different articles: `400`.
pub open spec fn path_mismatch_view() -> ResponseView {
    problem_view(
        400,
        "path_body_mismatch"@,
        "The path and JSON body must name the same article_id."@,
    )
}

/// The response that serves an embedded asset.
pub open spec fn asset_view(status: u16, content_type: Seq<char>, body: Seq<u8>) -> ResponseView {
    ResponseView { status, headers: seq![("content-type"@, content_type)], body }
}

impl WebResponse {
    /// Adds one header after the existing ones.
    pub fn with_header(self, name: &str, value: &str) -> (r: WebResponse)
        ensures
            r@ == self@.with_header(name@, value@),
    {
        let mut response = self;
        let ghost before = response.headers@;
        response.headers.push(Header { name: name.to_owned(), value: value.to_owned() });
        proof {
            let f = |h: Header| header_view(h);
            assert(response.headers@ =~= before.push(Header { name: response.headers@.last().name, value: response.headers@.last().value }));
            assert(response.headers@.map_values(f) =~= before.map_values(f).push((name@, value@)));
        }
        response
    }
}

/// A response that serves one embedded asset with its content type.
pub fn asset(status: u16, content_type: &str, body: &str) -> (r: WebResponse)
    ensures
        r@ == asset_view(status, content_type@, body.spec_bytes()),
        r.status == status,
        r.body@ == body.spec_bytes(),
        r@.headers == seq![("content-type"@, content_type@)],
{
    let headers = vec![Header { name: "content-type".to_owned(), value: content_type.to_owned() }];
    let r = WebResponse { status, headers, body: body.as_bytes_vec() };
    assert(r@.headers =~= seq![("content-type"@, content_type@)]);
    r
}

/// `401 authentication_required` with the challenge `WWW-Authenticate: Bearer`.
pub fn authentication_problem() -> (r: WebResponse)
    ensures
        r@ == authentication_problem_view(),
{
    let r = problem(401, "authentication_required", "Provide a valid Bearer credential.");
    assert(r@ == problem_view(401, "authentication_required"@, "Provide a valid Bearer credential."@));
    r.with_header("www-authenticate", "Bearer")
}

/// `403 unsupported_actor`: the workspace serves only user actors.
pub fn unsupported_actor() -> (r: WebResponse)
    ensures
        r@ == unsupported_actor_view(),
{
    let r = problem(
        403,
        "unsupported_actor",
        "This author workspace requires an authenticated user actor.",
    );
    assert(r@ == unsupported_actor_view());
    r
}

/// `400 path_body_mismatch`: the path and the JSON body name different articles.
pub fn path_mismatch() -> (r: WebResponse)
    ensures
        r@ == path_mismatch_view(),
{
    let r = problem(
        400,
        "path_body_mismatch",
        "The path and JSON body must name the same article_id.",
    );
    assert(r@ == path_mismatch_view());
    r
}

} // verus!
