//! A fluent client for a JSON-over-HTTP document database whose REST
//! interface maps paths to JSON subtrees and HTTP verbs to CRUD operations.
//!
//! A [`FirebaseClient`] is constructed from a validated endpoint, accumulates
//! location segments and query modifiers, and composes from them the URL
//! against which each verb operation is issued.  The HTTP exchange itself is
//! left to the caller: each verb has a request builder that yields the exact
//! [`HttpRequest`](http::HttpRequest) to perform, and a response function that
//! maps the outcome of the exchange to the operation's result.

pub mod client;
pub mod endpoint;
pub mod http;
pub mod laws;
pub mod url;

pub use client::FirebaseClient;
pub use client::FirebaseError;
