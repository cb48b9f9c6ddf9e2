//! Plain-value model of the HTTP exchanges the session asks the transport for.

use vstd::prelude::*;

verus! {

/// HTTP method of a request.
#[derive(Clone, Copy, Debug, PartialEq, Eq, Structural)]
pub enum Method {
    Get,
    Post,
}

/// A request the transport is asked to send with the session's cookie store.
/// `query` is appended to `url` as a query string; `form` is sent
/// urlencoded as the body of a `Post`.
pub struct HttpRequest {
    pub method: Method,
    pub url: String,
    pub query: Vec<(String, String)>,
    pub form: Vec<(String, String)>,
}

/// Mathematical view of an [`HttpRequest`].
pub struct HttpRequestView {
    pub method: Method,
    pub url: Seq<char>,
    pub query: Seq<(Seq<char>, Seq<char>)>,
    pub form: Seq<(Seq<char>, Seq<char>)>,
}

/// The `(name, value)` pairs of a query string or a form, as character sequences.
pub open spec fn pairs_view(p: Vec<(String, String)>) -> Seq<(Seq<char>, Seq<char>)> {
    p@.map_values(|e: (String, String)| (e.0@, e.1@))
}

impl View for HttpRequest {
    type V = HttpRequestView;

    open spec fn view(&self) -> HttpRequestView {
        HttpRequestView {
            method: self.method,
            url: self.url@,
            query: pairs_view(self.query),
            form: pairs_view(self.form),
        }
    }
}

/// What came back from sending one request.
pub enum HttpOutcome {
    /// The server answered with this status code and body.
    Response { status: u16, body: String },
    /// No usable answer: connection refused, DNS or TLS failure, timeout,
    /// or a body that could not be read.
    TransportFailure,
}

/// A status code in the success range `200..=299`.
pub open spec fn is_success_code(status: u16) -> bool {
    200 <= status && status < 300
}

/// Whether `status` is in the success range.
pub fn is_success_status(status: u16) -> (r: bool)
    ensures
        r == is_success_code(status),
{
    200 <= status && status < 300
}

/// A `Get` of `url` with no query string and no form.
pub fn get_request(url: String) -> (r: HttpRequest)
    ensures
        r@ == (HttpRequestView { method: Method::Get, url: url@, query: seq![], form: seq![] }),
{
    let r = HttpRequest { method: Method::Get, url, query: Vec::new(), form: Vec::new() };
    assert(pairs_view(r.query) =~= seq![]);
    assert(pairs_view(r.form) =~= seq![]);
    r
}

} // verus!
