//! How the SpaceAPI is reached.
use vstd::prelude::*;

verus! {

/// Whether the SpaceAPI is updated, where, and with which credentials.
/// No `Debug`: it holds a secret in plain text.
#[derive(Default, Clone)]
pub struct SpaceAPI {
    pub enable: bool,
    pub url: String,
    pub username: String,
    pub password: String,
}

} // verus!
