use vstd::prelude::*;

use crate::nats_utils::{credentials_of, nats_credentials, pair_text};

verus! {

/// Top-level service configuration.
#[derive(Clone, Debug)]
pub struct Config {
    pub nats: NatsSettings,
    pub relay: RelaySettings,
}

/// NATS connection and JetStream settings.
#[derive(Clone, Debug)]
pub struct NatsSettings {
    pub url: String,
    pub username: Option<String>,
    pub password: Option<String>,
    /// The JetStream stream name to subscribe to (e.g. "LOGS").
    pub stream_name: String,
    /// Subject filter pattern for archiving. Defaults to `logs.>`.
    pub filter_subject: Option<String>,
}

/// Relay tuning knobs for the StreamManager.
#[derive(Clone, Debug)]
pub struct RelaySettings {
    /// Seconds of inactivity (no NATS messages) before an idle stream is cleaned up.
    pub idle_timeout_secs: u64,
    /// Capacity of the bounded broadcast channel per session.
    pub broadcast_capacity: usize,
    /// SSE keep-alive interval in seconds.
    pub sse_keepalive_secs: u64,
    /// How often to emit a `Heartbeat` event when no log messages arrive.
    pub heartbeat_interval_secs: u64,
    /// The JetStream stream name used when creating consumers.
    pub stream_name: String,
}

impl NatsSettings {
    /// The credentials to connect with: both user name and password, or none.
    pub fn credentials(&self) -> (r: Option<(String, String)>)
        ensures
            pair_text(r) == credentials_of(self.username, self.password),
    {
        nats_credentials(&self.username, &self.password)
    }
}

} // verus!
