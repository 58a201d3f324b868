//! A bridge that carries HTTP requests for a caller that cannot make them itself.
//!
//! The caller describes a request as plain data ([`ProxyRequest`]); a client
//! that keeps one cookie jar for the whole process sends it; the answer goes
//! back as plain data ([`ProxyResponse`]). This crate holds every decision of
//! that exchange. It does no I/O: the embedding program owns the client, and
//! hands each thing the client reports to the next function here.
//!
//! One exchange runs through three steps, in [`forward`]:
//!
//! 1. [`prepare`] checks the method and lays out what is to be sent;
//! 2. [`receive`] takes what came of sending: the head of a response, or the
//!    transport's complaint;
//! 3. [`complete`] takes what came of reading the body, and gives the result.

pub mod forward;
pub mod laws;
pub mod message;
pub mod method;
pub mod text;

pub use forward::{complete, prepare, receive, OutboundRequest, RawHead, ResponseHead};
pub use message::{ProxyError, ProxyRequest, ProxyResponse};
pub use method::{parse_method, HttpMethod};
