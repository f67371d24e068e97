//! Configuration of the client of the simulation service.
use vstd::prelude::*;

verus! {

/// Where the simulation service answers, and the authorization header value
/// that every request carries.
#[derive(Debug)]
pub struct CoreConfig {
    pub base_url: String,
    pub authorization: String,
}

/// A client of the simulation service.
#[derive(Debug)]
pub enum CoreClient {
    Direct(CoreConfig),
}

impl CoreClient {
    /// A client of the service at `base_url` that authenticates with
    /// `bearer_token`.
    pub fn new_direct(base_url: String, bearer_token: String) -> (r: CoreClient)
        ensures
            r matches CoreClient::Direct(c) && c.base_url@ == base_url@ && c.authorization@
                == "Bearer "@ + bearer_token@,
    {
        let scheme = String::from_str("Bearer ");
        let authorization = scheme.concat(bearer_token.as_str());
        CoreClient::Direct(CoreConfig { base_url, authorization })
    }
}

} // verus!
