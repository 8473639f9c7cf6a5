use vstd::prelude::*;

verus! {

/// NATS connection settings.
#[derive(Clone, Debug)]
pub struct NatsConfig {
    pub url: String,
    pub username: Option<String>,
    pub password: Option<String>,
}

/// The user name and password to connect with: both, when both are set.
pub open spec fn credentials_of(username: Option<String>, password: Option<String>) -> Option<
    (Seq<char>, Seq<char>),
> {
    match (username, password) {
        (Some(u), Some(p)) => Some((u@, p@)),
        _ => None,
    }
}

/// A pair of credentials as plain text values.
pub open spec fn pair_text(r: Option<(String, String)>) -> Option<(Seq<char>, Seq<char>)> {
    match r {
        Some((u, p)) => Some((u@, p@)),
        None => None,
    }
}

/// The user name and password to authenticate with: only when both are
/// given; otherwise the connection is made without credentials.
pub fn nats_credentials(username: &Option<String>, password: &Option<String>) -> (r: Option<
    (String, String),
>)
    ensures
        pair_text(r) == credentials_of(*username, *password),
{
    match (username, password) {
        (Some(u), Some(p)) => Some((u.clone(), p.clone())),
        _ => None,
    }
}

impl NatsConfig {
    /// The credentials to connect with (see [`nats_credentials`]).
    pub fn credentials(&self) -> (r: Option<(String, String)>)
        ensures
            pair_text(r) == credentials_of(self.username, self.password),
    {
        nats_credentials(&self.username, &self.password)
    }
}

} // verus!
