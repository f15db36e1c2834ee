//! The team record the API returns.
use vstd::prelude::*;

verus! {

/// A team as the API returns it.
#[derive(Default, Debug, Clone, PartialEq)]
pub struct TeamResponse {
    pub id: String,
    pub create_at: i64,
    pub update_at: i64,
    pub delete_at: i64,
    pub display_name: String,
    pub name: String,
    pub description: String,
    pub email: String,
    pub type_field: String,
    pub allowed_domains: String,
    pub invite_id: String,
    pub allow_open_invite: bool,
    pub policy_id: String,
}

} // verus!
