//! The outbound half of a small HTTP gateway: building the request that goes to
//! the conversational provider, classifying what can go wrong on the way, and
//! turning the outcome into the body that the gateway answers with.
//!
//! Nothing here touches the network or the process environment. The caller
//! performs those steps and reports what happened; every decision in between is
//! made, and specified, in this crate.
//!
//! - [`envelope`]: the request payload and its JSON form
//! - [`headers`]: the credential, version and media-type headers
//! - [`client`]: one call to the provider as a machine without I/O
//! - [`gateway`]: the response of the gateway for an outcome
//! - [`error`]: the failures of a call
//! - [`json`], [`text`]: string literals, numerals and separated lists

pub mod client;
pub mod envelope;
pub mod error;
pub mod gateway;
pub mod headers;
pub mod json;
pub mod text;
