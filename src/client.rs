use crate::config::{run_url_of, Config};
use crate::error::Error;
use crate::request::{encode_request, request_json, RunRequest};
use vstd::prelude::*;

verus! {

/// Seconds that one call may take before the transport gives up.
pub const TIMEOUT_SECS: u64 = 300;

/// Everything the transport needs to send one run request.
#[derive(Debug)]
pub struct HttpPost {
    pub url: String,
    /// Header names and values, in the order they are set.
    pub headers: Vec<(String, String)>,
    pub timeout_secs: u64,
    pub body: String,
}

/// A header with this name and value.
pub open spec fn header_is(h: (String, String), name: Seq<char>, value: Seq<char>) -> bool {
    h.0@ == name && h.1@ == value
}

/// The POST for a run request: to the run endpoint, carrying the access token
/// and the JSON content type, with the fixed timeout and the encoded request.
pub fn prepare_request(config: &Config, request: &RunRequest) -> (r: Result<HttpPost, Error>)
    ensures
        r is Ok,
        r matches Ok(post) ==> {
            &&& post.url@ == run_url_of(config.base_url@)
            &&& post.headers@.len() == 2
            &&& header_is(post.headers@[0], "X-Access-Token"@, config.access_token@)
            &&& header_is(post.headers@[1], "Content-Type"@, "application/json"@)
            &&& post.timeout_secs == TIMEOUT_SECS
            &&& post.body@ == request_json(*request)
        },
{
    let body = encode_request(request)?;
    let mut headers: Vec<(String, String)> = Vec::new();
    headers.push((String::from_str("X-Access-Token"), config.access_token.clone()));
    headers.push((String::from_str("Content-Type"), String::from_str("application/json")));
    Ok(HttpPost { url: config.run_url(), headers, timeout_secs: TIMEOUT_SECS, body })
}

} // verus!
