//! An authenticated HTTP client context: it obtains an OAuth2
//! client-credentials bearer token once, caches it, and prepares outbound
//! requests that carry it.
//!
//! The context never touches the network. A call is a short exchange between
//! the context and whoever drives it: the driver reports an
//! [`plan::Event`], [`client::ClientContext::request`] answers with the
//! [`plan::Action`] to take, and the driver reports back how a token fetch
//! ended. What the context decides is a function of its cache and the event,
//! [`client::ContextView::step`], and [`laws`] holds what follows from it.
//!
//! Requests are described as plain values first and handed to `reqwest`
//! last, in [`client::ClientContext::token_request_builder`] and
//! [`client::ClientContext::request_builder`]. Which values are handed over,
//! and in which order, is proved; what `reqwest` makes of them is taken on
//! trust, under the names in [`transport`].

pub mod client;
pub mod error;
pub mod laws;
pub mod plan;
pub mod token;
pub mod transport;
