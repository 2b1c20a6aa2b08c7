//! The values a client is set up from.

use crate::error::HashGateError;
use vstd::prelude::*;

verus! {

/// The name of the environment variable that holds the client identifier.
pub const CLIENT_ID_VAR: &'static str = "HASHGATE_CLIENT_ID";

/// The name of the environment variable that holds the client secret.
pub const CLIENT_SECRET_VAR: &'static str = "HASHGATE_CLIENT_SECRET";

/// Configuration for a HashGate client.
#[derive(Debug)]
pub struct HashGateConfig {
    pub client_id: String,
    pub client_secret: String,
}

impl HashGateConfig {
    /// Sets up a configuration from what the environment holds under
    /// `CLIENT_ID_VAR` and `CLIENT_SECRET_VAR`. Both are required.
    pub fn try_from_env(client_id: Option<String>, client_secret: Option<String>) -> (r: Result<
        HashGateConfig,
        HashGateError,
    >)
        ensures
            client_id is Some && client_secret is Some ==> (r matches Ok(config)
                && config.client_id == client_id->0 && config.client_secret == client_secret->0),
            client_id is None || client_secret is None ==> r matches Err(
                HashGateError::FailedConfig,
            ),
    {
        match client_id {
            Some(client_id) => match client_secret {
                Some(client_secret) => Ok(HashGateConfig { client_id, client_secret }),
                None => Err(HashGateError::FailedConfig),
            },
            None => Err(HashGateError::FailedConfig),
        }
    }
}

} // verus!
