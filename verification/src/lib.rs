//! An in-process request/response broker.
//!
//! A client enqueues requests, a dispatcher routes each request by URI to a
//! registered handler, and the responses flow back to be matched, by URI,
//! against the pending request that produced them. A topic path lets
//! handlers publish unsolicited payloads to subscribers.
//!
//! The library is the part of the broker that decides: the envelope types
//! (`envelope`, `request`, `response`, `status`, `error`), the typed
//! extraction of handler arguments (`request`), the handler abstraction and
//! its adapters (`endpoint`, `handler`), the route table (`route`), the
//! middleware that attaches shared data (`add_data`, `extensions`), the
//! client's table of requests in flight (`inflight`, `client`), the topics
//! (`topic`) and the work done for one request (`server`). The threads that
//! run the broker loop belong to the program around the library.
//!
//! Contracts are stated over the views of the types: a request is its
//! URI, parameter, body and attached values, a response its URI, status
//! and body, the table a sequence of responses. What holds across several
//! operations is proved in `laws`.
//!
//! Two things are outside the contracts. What a channel takes or hands
//! over depends on the threads at its other end, so the functions that
//! send or receive say what holds of every outcome. And a shared value
//! travels with its type erased. For the plain types (`i32`, `i64`,
//! `u32`, `u64`, `bool`, `String`) the library states that the look at a
//! handle gives the value that went in; for any other type the contracts
//! say which handle is made or looked at, not which value it holds, and
//! `SharedValue::new`, `get` and `get_arc` state nothing.
//!
//! Handlers and middleware are the user's own code. Their traits carry a
//! relation (`Endpoint::answers`, `IntoResponse::becomes`,
//! `FromRequest::extracts`) that an implementation may state and that
//! allows every outcome where it does not; the library's own contracts
//! speak of handlers through these relations.

pub mod add_data;
pub mod channel;
pub mod client;
pub mod endpoint;
pub mod envelope;
pub mod error;
pub mod extensions;
pub mod handler;
pub mod inflight;
pub mod laws;
pub mod order;
pub mod prelude;
pub mod request;
pub mod response;
pub mod route;
pub mod runtime;
pub mod server;
pub mod status;
pub mod text;
pub mod topic;

pub use crate::client::ChannelClient;
pub use crate::endpoint::BoxEndpoint;
pub use crate::endpoint::Endpoint;
pub use crate::endpoint::EndpointExt;
pub use crate::endpoint::IntoEndpoint;
pub use crate::endpoint::Middleware;
pub use crate::envelope::Body;
pub use crate::envelope::Param;
pub use crate::error::ChannelError;
pub use crate::error::ErrorKind;
pub use crate::error::ErrorView;
pub use crate::request::FromRequest;
pub use crate::request::Request;
pub use crate::request::RequestView;
pub use crate::response::IntoResponse;
pub use crate::response::Response;
pub use crate::response::ResponseView;
pub use crate::route::Route;
pub use crate::server::ChannelServer;
pub use crate::server::ChannelService;
pub use crate::status::StatusCode;
pub use crate::status::StatusKind;
pub use crate::status::StatusView;
