//! Authenticated request-dispatch layer of a federated chat protocol client.
//!
//! The crate converts strongly-typed protocol operations into wire-level
//! requests, attaches authentication and content-type metadata, delegates the
//! network exchange to a pluggable transport, and converts the raw response
//! back into a strongly-typed result.  It also defines the correlation model
//! (envelope plus two closed unions) used to match asynchronously issued
//! operations against the responses that satisfy them.

pub mod codec;
pub mod endpoints;
pub mod error;
pub mod http_client;
pub mod operation;
pub mod parse;
pub mod requests;
pub mod wire;

pub use endpoints::{
    KeysClaimResponse, KeysQueryRequest, KeysQueryResponse, KeysUploadRequest, KeysUploadResponse,
    ToDeviceRequest, ToDeviceResponse, VersionsRequest, VersionsResponse,
};
pub use error::{Error, ProtocolError, TransportFault};
pub use http_client::{HttpClient, HttpSend, Session};
pub use operation::Operation;
pub use requests::{IncomingResponse, OutgoingRequest, OutgoingRequests};
pub use wire::{Method, RawResponse, WireRequest, WireResponse};
