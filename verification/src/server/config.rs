use vstd::prelude::*;

use crate::nats_utils::{credentials_of, nats_credentials, pair_text};

verus! {

/// Top-level service configuration.
#[derive(Clone, Debug)]
pub struct Config {
    pub nats: NatsSettings,
    pub relay: RelaySettings,
}

/// NATS connection and JetStream settings.
#[derive(Clone, Debug)]
pub struct NatsSettings {
    pub url: String,
    pub username: Option<String>,
    pub password: Option<String>,
    pub stream_name: String,
}

/// Relay tuning knobs for the StreamManager.
#[derive(Clone, Debug)]
pub struct RelaySettings {
    /// Seconds of inactivity before an idle stream is cleaned up.
    pub idle_timeout_secs: u64,
    /// Capacity of the bounded broadcast channel per run_id.
    pub broadcast_capacity: usize,
    /// SSE keep-alive interval in seconds.
    pub sse_keepalive_secs: u64,
}

impl NatsSettings {
    /// The credentials to connect with: both user name and password, or none.
    pub fn credentials(&self) -> (r: Option<(String, String)>)
        ensures
            pair_text(r) == credentials_of(self.username, self.password),
    {
        nats_credentials(&self.username, &self.password)
    }
}

} // verus!
