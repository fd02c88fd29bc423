//! Types of the Ollama-compatible endpoints.

use vstd::prelude::*;

verus! {

#[derive(Debug, Clone)]
pub struct Version {
    pub version: String,
}

#[derive(Debug, Clone)]
pub struct Status {
    pub status: String,
}

/// The body of a push or pull request.
#[derive(Debug, Clone)]
pub struct PullPushRequest {
    pub model: String,
    pub insecure: bool,
    /// Progress is streamed unless the client says otherwise.
    pub stream: bool,
}

#[derive(Debug, Clone)]
pub struct ModelDetail {
    pub format: String,
    pub family: String,
    pub families: Vec<String>,
    pub parameter_size: String,
    pub quantization_level: String,
}

/// The value of a flag that a client may leave out.
pub fn default_true() -> (r: bool)
    ensures
        r,
{
    true
}

} // verus!
