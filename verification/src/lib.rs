//! Request construction for a remote code-execution service.
//!
//! The library decides what every call to the service looks like: the method,
//! the address with its query string, the header set derived from the
//! [`Config`], and the fields that travel as the body. It also decides what
//! an answer amounts to, once somebody has read it. Sending a [`Request`]
//! over the network is left to the caller.
//!
//! * [`client`]: one function per operation, each giving a [`Request`].
//! * [`header`]: the header set, built with the `http` crate.
//! * [`text`]: flags, numbers, token lists and query strings.
//! * [`wire`]: a submission as the fields of a JSON object.
//! * [`response`]: what an answer amounts to.
//! * [`laws`]: what holds of all of these together.

pub mod client;
pub mod config;
pub mod error;
pub mod header;
pub mod laws;
pub mod model;
pub mod request;
pub mod response;
pub mod text;
pub mod wire;

pub use client::Client;
pub use config::{Config, ConfigView};
pub use error::{Error, ErrorView};
pub use model::{About, Decimal, Language, Status, Submission, Timestamp, Worker};
pub use request::{Body, BodyView, Method, Request};
pub use wire::{Field, FieldValue};
