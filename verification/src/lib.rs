pub mod http;
pub mod routes;
pub mod server;
