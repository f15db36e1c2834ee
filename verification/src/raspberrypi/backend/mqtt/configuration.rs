//! How the MQTT broker is reached.
use vstd::prelude::*;

verus! {

/// Whether the lock switch is published over MQTT, the broker's address and
/// the credentials.
/// No `Debug`: it holds a secret in plain text.
#[derive(Default, Clone)]
pub struct Mqtt {
    pub enable: bool,
    pub host: String,
    pub port: u16,
    pub username: String,
    pub password: String,
}

} // verus!
