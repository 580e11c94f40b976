//! What a request and a response say about themselves, and the spans that
//! are made of it.

pub mod grpc;
pub mod grpc_client;
pub mod grpc_server;
pub mod headers;
pub mod http_server;
pub mod request;
pub mod tools;
