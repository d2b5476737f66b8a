use vstd::prelude::*;

verus! {

/// The message part of an error body that the service returns.
#[derive(Clone, Debug)]
pub struct ErrorBody {
    pub message: String,
}

/// A non-success answer of the service: its status code and its error body.
#[derive(Clone, Debug)]
pub struct ErrorResponse {
    pub status_code: u16,
    pub body: ErrorBody,
}

/// Why a run did not produce a result; each variant names the stage that failed.
#[derive(Debug)]
pub enum Error {
    /// The request could not be encoded as JSON.
    SerializeRequest(serde_json::Error),
    /// The transport produced no HTTP response.
    Request(ureq::Error),
    /// A success status came with a body that is not a run result.
    DeserializeResponse(std::io::Error),
    /// A failure status came with a body that is not an error body.
    DeserializeErrorResponse(std::io::Error),
    /// The transport reported a failure without a response and without its cause.
    EmptySynthetic(),
    /// A failure status came with a well-formed error body.
    ResponseNotOk(ErrorResponse),
}

/// Text that opens the description of each variant.
pub open spec fn describe_prefix(e: Error) -> Seq<char> {
    match e {
        Error::SerializeRequest(_) => "Failed to serialize request body: "@,
        Error::Request(_) => "Request error: "@,
        Error::DeserializeResponse(_) => "Failed to deserialize response body: "@,
        Error::DeserializeErrorResponse(_) => "Failed to deserialize error response body: "@,
        Error::EmptySynthetic() => "Expected synthetic error, but there was none (programming error)"@,
        Error::ResponseNotOk(_) => "Response not ok: "@,
    }
}

impl Error {
    /// A human-readable description: the stage that failed, then the inner
    /// error's text, or the message that the service gave.
    pub fn describe(&self) -> (r: String)
        ensures
            describe_prefix(*self).is_prefix_of(r@),
            self matches Error::SerializeRequest(e) ==> exists|t: String|
                vstd::string::to_string_from_display_ensures::<serde_json::Error>(&e, t) && r@
                    == describe_prefix(*self) + t@,
            self matches Error::Request(e) ==> exists|t: String|
                vstd::string::to_string_from_display_ensures::<ureq::Error>(&e, t) && r@
                    == describe_prefix(*self) + t@,
            self matches Error::DeserializeResponse(e) ==> exists|t: String|
                vstd::string::to_string_from_display_ensures::<std::io::Error>(&e, t) && r@
                    == describe_prefix(*self) + t@,
            self matches Error::DeserializeErrorResponse(e) ==> exists|t: String|
                vstd::string::to_string_from_display_ensures::<std::io::Error>(&e, t) && r@
                    == describe_prefix(*self) + t@,
            self matches Error::EmptySynthetic() ==> r@ == describe_prefix(*self),
            self matches Error::ResponseNotOk(x) ==> r@ == describe_prefix(*self) + x.body.message@,
    {
        match self {
            Error::SerializeRequest(e) => {
                String::from_str("Failed to serialize request body: ").concat(e.to_string().as_str())
            },
            Error::Request(e) => String::from_str("Request error: ").concat(e.to_string().as_str()),
            Error::DeserializeResponse(e) => {
                String::from_str("Failed to deserialize response body: ").concat(
                    e.to_string().as_str(),
                )
            },
            Error::DeserializeErrorResponse(e) => {
                String::from_str("Failed to deserialize error response body: ").concat(
                    e.to_string().as_str(),
                )
            },
            Error::EmptySynthetic() => String::from_str(
                "Expected synthetic error, but there was none (programming error)",
            ),
            Error::ResponseNotOk(x) => String::from_str("Response not ok: ").concat(
                x.body.message.as_str(),
            ),
        }
    }
}

} // verus!
