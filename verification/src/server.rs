//! The server core: dispatching a request through the route table, the
//! Stopped/Listening startup state machine, and the exit-code rule.

use vstd::prelude::*;
use crate::http::{Method, Request, Response, hello_body, is_index_request, index, not_found};
use crate::routes::{HandlerId, RouteEntry, RouteTable, spec_lookup};

verus! {

/// The status and body the server answers with, as a function of the
/// route table and of the request's method and path alone: the matched
/// handler's response, or 404 with an empty body when no route matches.
pub open spec fn response_of(entries: Seq<RouteEntry>, m: Method, p: Seq<char>) -> (u16, Seq<
    char,
>) {
    match spec_lookup(entries, m, p) {
        Some(HandlerId::Index) => (200u16, hello_body()),
        None => (404u16, Seq::<char>::empty()),
    }
}

/// Answers one request: the handler registered for the request's method
/// and path produces the response, and a request no route matches gets
/// the default not-found response, whose status is never 200.
pub fn dispatch(routes: &RouteTable, req: &Request) -> (r: Response)
    ensures
        (r.status, r.body@) == response_of(routes.entries@, req.method, req.path@),
        spec_lookup(routes.entries@, req.method, req.path@) == Some(HandlerId::Index)
            ==> r.status == 200 && r.body@ == hello_body(),
        spec_lookup(routes.entries@, req.method, req.path@) is None ==> r.status == 404
            && r.status != 200,
{
    match routes.lookup(req.method, &req.path) {
        Some(HandlerId::Index) => index(req),
        None => not_found(),
    }
}

/// Whether the table holds exactly the one route of this server:
/// method GET, path `/`, answered by the index handler.
pub open spec fn hello_table(entries: Seq<RouteEntry>) -> bool {
    &&& entries.len() == 1
    &&& entries[0].method is Get
    &&& entries[0].path@ == crate::http::root_path()
    &&& entries[0].handler is Index
}

/// Every well-formed GET request to `/` is answered with status 200 and
/// the exact body `hello world!`; every other request — another path, or
/// another method on `/` — is answered with status 404, never 200.
pub proof fn lemma_hello_dispatch(entries: Seq<RouteEntry>, m: Method, p: Seq<char>)
    requires
        hello_table(entries),
    ensures
        is_index_request(m, p) ==> response_of(entries, m, p) == (200u16, hello_body()),
        !is_index_request(m, p) ==> response_of(entries, m, p).0 == 404 && response_of(
            entries,
            m,
            p,
        ).0 != 200,
{
    if !is_index_request(m, p) {
        assert(!(entries[0].method == m && entries[0].path@ == p));
        assert(entries.drop_first().len() == 0);
        assert(spec_lookup(entries.drop_first(), m, p) is None);
    }
}

/// The response is a function of the route table and the request content
/// alone: two requests with the same method and path — in particular the
/// same request sent twice — get identical responses, byte for byte.
pub proof fn lemma_dispatch_idempotent(
    entries: Seq<RouteEntry>,
    m1: Method,
    p1: Seq<char>,
    m2: Method,
    p2: Seq<char>,
)
    requires
        m1 == m2,
        p1 == p2,
    ensures
        response_of(entries, m1, p1) == response_of(entries, m2, p2),
{
}

/// Why the listener could not bind. The one error kind of this server:
/// everything per-connection is the substrate's concern.
#[derive(PartialEq, Eq, Structural, Clone, Copy, Debug)]
pub enum StartupError {
    AddressInUse,
    PermissionDenied,
    Other,
}

impl StartupError {
    /// A short description, for the process's error report.
    pub fn message(&self) -> (r: String)
        ensures
            *self is AddressInUse ==> r@ == "address already in use"@,
            *self is PermissionDenied ==> r@ == "permission denied"@,
            *self is Other ==> r@ == "failed to bind listener"@,
    {
        match self {
            StartupError::AddressInUse => "address already in use".to_owned(),
            StartupError::PermissionDenied => "permission denied".to_owned(),
            StartupError::Other => "failed to bind listener".to_owned(),
        }
    }
}

/// What the attempt to bind the listening socket came to.
#[derive(PartialEq, Eq, Structural, Clone, Copy, Debug)]
pub enum BindOutcome {
    Bound,
    Failed(StartupError),
}

/// The server's lifecycle: it starts `Stopped`, and moves to `Listening`
/// exactly once, when the listener binds; there is no way back.
#[derive(PartialEq, Eq, Structural, Clone, Copy, Debug)]
pub enum ServerStatus {
    Stopped,
    Listening,
}

/// The application: a route table, fixed before startup and never
/// mutated afterwards, and the lifecycle status.
pub struct Server {
    pub routes: RouteTable,
    pub status: ServerStatus,
}

impl Server {
    pub open spec fn wf(&self) -> bool {
        self.routes.wf()
    }

    /// A fresh application: stopped, with no route registered.
    pub fn new() -> (s: Server)
        ensures
            s.wf(),
            s.status is Stopped,
            s.routes.entries@.len() == 0,
    {
        Server { routes: RouteTable::new(), status: ServerStatus::Stopped }
    }

    /// Registers a route. Only a stopped server may be configured: once
    /// the server listens, the table is immutable.
    pub fn register(&mut self, method: Method, path: String, handler: HandlerId) -> (added: bool)
        requires
            old(self).wf(),
            old(self).status is Stopped,
        ensures
            final(self).wf(),
            final(self).status is Stopped,
            added == (spec_lookup(old(self).routes.entries@, method, path@) is None),
            added ==> final(self).routes.entries@ == old(self).routes.entries@.push(
                RouteEntry { method, path, handler },
            ),
            !added ==> *final(self) == *old(self),
    {
        self.routes.register(method, path, handler)
    }

    /// The hello-world application: stopped, with exactly one route,
    /// mapping GET `/` to the index handler.
    pub fn hello_app() -> (s: Server)
        ensures
            s.wf(),
            s.status is Stopped,
            hello_table(s.routes.entries@),
    {
        let mut s = Server::new();
        let _added = s.register(Method::Get, "/".to_owned(), HandlerId::Index);
        s
    }

    /// Moves the server out of `Stopped` according to how binding the
    /// listener went: on success it is `Listening`; on failure it stays
    /// `Stopped`, serves nothing, and the startup error is handed to the
    /// caller. The route table is untouched either way.
    pub fn start(&mut self, outcome: BindOutcome) -> (r: Result<(), StartupError>)
        requires
            old(self).status is Stopped,
        ensures
            final(self).routes == old(self).routes,
            outcome is Bound ==> r is Ok && final(self).status is Listening,
            outcome matches BindOutcome::Failed(e) ==> r == Err::<(), StartupError>(e)
                && final(self).status is Stopped,
    {
        match outcome {
            BindOutcome::Bound => {
                self.status = ServerStatus::Listening;
                Ok(())
            },
            BindOutcome::Failed(e) => Err(e),
        }
    }
}

/// The status the process must exit with: 0 after a clean shutdown, and
/// a non-zero status when startup failed.
pub fn exit_code(r: &Result<(), StartupError>) -> (code: i32)
    ensures
        (*r is Ok) <==> code == 0,
        *r is Err ==> code == 1,
{
    match r {
        Ok(()) => 0,
        Err(_) => 1,
    }
}

/// The fixed address and port the listener binds: no configuration is
/// read.
pub fn listen_addr() -> (r: &'static str)
    ensures
        r@ == "127.0.0.1:8080"@,
{
    "127.0.0.1:8080"
}

} // verus!
