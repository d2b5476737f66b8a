//! Outside types that the library's values carry without looking inside.

use serde_json::Error as JsonError;
use ureq::Error as TransportError;
use vstd::prelude::*;

verus! {

/// serde_json's error, carried opaquely in `Error::SerializeRequest`.
#[verifier::external_type_specification]
#[verifier::external_body]
pub struct ExJsonError(JsonError);

/// ureq's transport error, carried opaquely in `Error::Request` and `Reply::NoResponse`.
#[verifier::external_type_specification]
#[verifier::external_body]
pub struct ExTransportError(TransportError);

/// std's I/O error from reading a response body, carried opaquely.
#[verifier::external_type_specification]
#[verifier::external_body]
pub struct ExIoError(std::io::Error);

} // verus!
