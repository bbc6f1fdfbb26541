//! The decision core of a small HTTP service that answers a request for one
//! random value, drawn from a uniform, a normal or a Bernoulli distribution.
//!
//! A server hands [`service::handle`] the method, the path and the whole body
//! of a request. `GET /` and `GET /random` are greeted; `POST /random` has its
//! body decoded into an [`request::RngRequest`] and a value drawn for it; every
//! other request is not found. The response comes back as a status code and
//! the bytes of a body.
//!
//! The library holds no floating-point number. A double is carried as its bit
//! pattern, a [`double::Double`]; the two draws that take doubles and the
//! writing of a double as text are left to the server, step by step, as
//! [`service::Step`] asks for them.
//!
//! - [`http`]: methods, routes, responses, and what a JSON number looks like.
//! - [`json`]: JSON documents, read through `serde_json`.
//! - [`request`]: the distribution request and its decoder.
//! - [`double`]: bit patterns of doubles.
//! - [`sampler`]: the uniform draw, through `rand`, and the value of a response.
//! - [`service`]: the handler.
//! - [`text`]: comparing strings.

pub mod double;
pub mod http;
pub mod json;
pub mod request;
pub mod sampler;
pub mod service;
pub mod text;
