use hello_server::http::{index, Method, Request};
use hello_server::routes::{HandlerId, RouteTable};
use hello_server::server::{
    dispatch, exit_code, listen_addr, BindOutcome, Server, ServerStatus, StartupError,
};

fn get(path: &str) -> Request {
    Request { method: Method::Get, path: path.to_owned() }
}

#[test]
fn index_returns_hello() {
    let r = index(&get("/"));
    assert_eq!(r.status, 200);
    assert_eq!(r.body, "hello world!");
}

#[test]
fn dispatch_root_get_ok() {
    let s = Server::hello_app();
    let r = dispatch(&s.routes, &get("/"));
    assert_eq!(r.status, 200);
    assert_eq!(r.body, "hello world!");
}

#[test]
fn dispatch_missing_path_not_found() {
    let s = Server::hello_app();
    let r = dispatch(&s.routes, &get("/missing"));
    assert_eq!(r.status, 404);
    assert_ne!(r.status, 200);
}

#[test]
fn dispatch_wrong_method_not_found() {
    let s = Server::hello_app();
    for m in [
        Method::Head,
        Method::Post,
        Method::Put,
        Method::Delete,
        Method::Patch,
        Method::Options,
        Method::Other,
    ] {
        let r = dispatch(&s.routes, &Request { method: m, path: "/".to_owned() });
        assert_eq!(r.status, 404);
        assert_ne!(r.status, 200);
    }
}

#[test]
fn repeated_request_identical() {
    let s = Server::hello_app();
    let first = dispatch(&s.routes, &get("/"));
    let second = dispatch(&s.routes, &get("/"));
    assert_eq!(first.status, second.status);
    assert_eq!(first.body.as_bytes(), second.body.as_bytes());
    let third = dispatch(&s.routes, &get("/elsewhere"));
    let fourth = dispatch(&s.routes, &get("/elsewhere"));
    assert_eq!(third.status, fourth.status);
    assert_eq!(third.body.as_bytes(), fourth.body.as_bytes());
}

#[test]
fn fifty_requests_all_succeed() {
    let s = Server::hello_app();
    let mut i: usize = 0;
    while i < 50 {
        let r = dispatch(&s.routes, &get("/"));
        assert_eq!(r.status, 200);
        assert_eq!(r.body, "hello world!");
        i += 1;
    }
}

#[test]
fn startup_failure_address_in_use() {
    let mut s = Server::hello_app();
    let r = s.start(BindOutcome::Failed(StartupError::AddressInUse));
    assert_eq!(r, Err(StartupError::AddressInUse));
    assert_eq!(s.status, ServerStatus::Stopped);
    assert_ne!(exit_code(&r), 0);
}

#[test]
fn startup_failure_permission_denied() {
    let mut s = Server::hello_app();
    let r = s.start(BindOutcome::Failed(StartupError::PermissionDenied));
    assert_eq!(r, Err(StartupError::PermissionDenied));
    assert_eq!(s.status, ServerStatus::Stopped);
    assert_eq!(exit_code(&r), 1);
}

#[test]
fn startup_success_listening() {
    let mut s = Server::hello_app();
    let r = s.start(BindOutcome::Bound);
    assert_eq!(r, Ok(()));
    assert_eq!(s.status, ServerStatus::Listening);
    assert_eq!(exit_code(&r), 0);
}

#[test]
fn register_duplicate_rejected() {
    let mut t = RouteTable::new();
    assert!(t.register(Method::Get, "/".to_owned(), HandlerId::Index));
    assert!(!t.register(Method::Get, "/".to_owned(), HandlerId::Index));
    assert_eq!(t.len(), 1);
}

#[test]
fn lookup_empty_table() {
    let t = RouteTable::new();
    assert_eq!(t.lookup(Method::Get, &"/".to_owned()), None);
}

#[test]
fn lookup_is_exact_match() {
    let mut t = RouteTable::new();
    assert!(t.register(Method::Get, "/".to_owned(), HandlerId::Index));
    assert_eq!(t.lookup(Method::Get, &"/".to_owned()), Some(HandlerId::Index));
    assert_eq!(t.lookup(Method::Get, &"".to_owned()), None);
    assert_eq!(t.lookup(Method::Get, &"//".to_owned()), None);
    assert_eq!(t.lookup(Method::Get, &"/index".to_owned()), None);
    assert_eq!(t.lookup(Method::Post, &"/".to_owned()), None);
}

#[test]
fn end_to_end_scenario() {
    let mut s = Server::hello_app();
    assert_eq!(s.start(BindOutcome::Bound), Ok(()));
    assert_eq!(s.status, ServerStatus::Listening);
    let ok = dispatch(&s.routes, &get("/"));
    assert_eq!(ok.status, 200);
    assert_eq!(ok.body, "hello world!");
    let missing = dispatch(&s.routes, &get("/missing"));
    assert_ne!(missing.status, 200);
}

#[test]
fn listen_addr_is_fixed() {
    assert_eq!(listen_addr(), "127.0.0.1:8080");
}

#[test]
fn startup_error_messages() {
    assert_eq!(StartupError::AddressInUse.message(), "address already in use");
    assert_eq!(StartupError::PermissionDenied.message(), "permission denied");
    assert_eq!(StartupError::Other.message(), "failed to bind listener");
}
