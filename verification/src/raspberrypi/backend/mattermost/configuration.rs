//! How the Mattermost server is reached.
use vstd::prelude::*;

verus! {

/// Whether the club status is posted to Mattermost, the interpreter that runs
/// the posting script, and the server's address and credentials.
/// No `Debug`: it holds a secret in plain text.
#[derive(Default, Clone)]
pub struct MatterMost {
    pub python: String,
    pub enable: bool,
    pub url: String,
    pub loginid: String,
    pub apitoken: String,
    pub scheme: String,
    pub port: u16,
}

} // verus!
