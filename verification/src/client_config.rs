//! Where the backend's request/response interface lives.

use vstd::prelude::*;

verus! {

/// The configuration of the request/response client.
#[derive(Debug, Clone, Copy, PartialEq, Eq, Structural)]
pub struct ClientConfig {}

impl ClientConfig {
    /// The configuration for the backend on this machine.
    pub fn new() -> (config: Self)
        ensures
            config == (ClientConfig {  }),
    {
        ClientConfig {  }
    }

    /// The address every request path is appended to.
    pub fn get_base_url(&self) -> (url: String)
        ensures
            url@ == "http://127.0.0.1:8090/api"@,
    {
        "http://127.0.0.1:8090/api".to_string()
    }
}

} // verus!
