use vstd::prelude::*;

verus! {

/// The immutable origin and credential that outgoing request URLs are built from.
pub struct Client {
    pub base: String,
    pub api_key: String,
}

impl Client {
    /// Takes both strings as they are; a malformed endpoint only shows later,
    /// as a failed request.
    pub fn new(endpoint: &str, api_key: &str) -> (r: Client)
        ensures
            r.base@ == endpoint@,
            r.api_key@ == api_key@,
    {
        Client { base: endpoint.to_string(), api_key: api_key.to_string() }
    }
}

} // verus!
