//! The HTTP values the server works with: methods, requests, responses,
//! and the one handler it serves.

use vstd::prelude::*;

verus! {

/// An HTTP request method. Methods the server never routes are collapsed
/// into `Other`: the route table matches on the method exactly, and no
/// route is ever registered under `Other`.
#[derive(PartialEq, Eq, Structural, Clone, Copy, Debug)]
pub enum Method {
    Get,
    Head,
    Post,
    Put,
    Delete,
    Patch,
    Options,
    Other,
}

/// An incoming HTTP request, reduced to the two fields the server
/// inspects: its method and its path. All other fields of a request on
/// the wire are never read.
pub struct Request {
    pub method: Method,
    pub path: String,
}

/// An HTTP response: a status code and a plaintext body.
pub struct Response {
    pub status: u16,
    pub body: String,
}

/// The body served at the index route.
pub open spec fn hello_body() -> Seq<char> {
    "hello world!"@
}

/// The one registered path.
pub open spec fn root_path() -> Seq<char> {
    "/"@
}

/// Whether a request addresses the index route: method GET, path `/`.
pub open spec fn is_index_request(m: Method, path: Seq<char>) -> bool {
    m is Get && path == root_path()
}

/// The index handler. It reads nothing from the request and touches no
/// state: the response is the same for every call, with status 200 and
/// the literal body `hello world!`.
pub fn index(req: &Request) -> (r: Response)
    ensures
        r.status == 200,
        r.body@ == hello_body(),
{
    Response { status: 200, body: "hello world!".to_owned() }
}

/// The default response for a request no route matches: status 404 with
/// an empty body.
pub fn not_found() -> (r: Response)
    ensures
        r.status == 404,
        r.body@ == Seq::<char>::empty(),
{
    proof {
        reveal_strlit("");
    }
    Response { status: 404, body: "".to_owned() }
}

} // verus!
