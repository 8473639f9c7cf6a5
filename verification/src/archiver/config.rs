use vstd::prelude::*;

use crate::nats_utils::{credentials_of, nats_credentials, pair_text};

verus! {

/// Top-level archiver configuration.
#[derive(Clone, Debug)]
pub struct ArchiverConfig {
    pub nats: NatsSettings,
    pub openobserve: OpenObserveSettings,
    pub archiver: BatchSettings,
}

/// NATS connection settings of the archiver.
#[derive(Clone, Debug)]
pub struct NatsSettings {
    pub url: String,
    pub username: Option<String>,
    pub password: Option<String>,
    pub stream_name: String,
}

/// Where and as whom the archiver ingests into OpenObserve.
#[derive(Clone, Debug)]
pub struct OpenObserveSettings {
    pub url: String,
    pub org: String,
    pub stream: String,
    pub user: String,
    pub password: String,
}

/// Batching of the archiver.
#[derive(Clone, Debug)]
pub struct BatchSettings {
    /// Number of messages to collect before sending a batch.
    pub batch_size: usize,
    /// Max seconds to wait before flushing a partial batch.
    pub batch_timeout_secs: u64,
}

impl NatsSettings {
    /// The credentials to connect with: both user name and password, or none.
    pub fn credentials(&self) -> (r: Option<(String, String)>)
        ensures
            pair_text(r) == credentials_of(self.username, self.password),
    {
        nats_credentials(&self.username, &self.password)
    }
}

} // verus!
