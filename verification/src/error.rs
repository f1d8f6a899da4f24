//! The errors of a Spark Connect client.
use tonic::transport::Error as TransportFailure;
use vstd::prelude::*;

verus! {

#[verifier::external_type_specification]
#[verifier::external_body]
pub struct ExArrowError(arrow::error::ArrowError);

#[verifier::external_type_specification]
#[verifier::external_body]
pub struct ExInvalidUri(http::uri::InvalidUri);

#[verifier::external_type_specification]
#[verifier::external_body]
pub struct ExTransportError(TransportFailure);

#[verifier::external_type_specification]
#[verifier::external_body]
pub struct ExStatus(tonic::Status);

/// Spark Connect errors
#[derive(Debug)]
pub enum Error {
    /// An Arrow IPC stream could not be decoded
    ArrowError(arrow::error::ArrowError),
    /// The host is not a valid URI
    HttpError(http::uri::InvalidUri),
    /// The transport failed
    TransportError(TransportFailure),
    /// The server answered with a gRPC error status
    RpcError(tonic::Status),
    /// Unknown error
    Unknown,
    /// Generic wrapped error, held as its message
    Generic(String),
}

} // verus!
