//! Typed client for marketplace REST APIs: the request/response pipeline,
//! its error taxonomy, the client builder, the query records and the
//! endpoint descriptions of the OpenSea and Rarible APIs.
use vstd::prelude::*;

pub mod client;
pub mod error;
pub mod opensea;
pub mod params;
pub mod pipeline;
pub mod rarible;
pub mod request;
pub mod text;
pub mod transport;

pub use client::{ApiClient, ApiClientBuilder, BuildError};
pub use error::{ApiError, OpenSeaApiError, RaribleApiError};
pub use pipeline::{Event, Exchange, PipelineError};
pub use request::{Method, Request};

verus! {

} // verus!
