//! The channel records: a patch request and the channel the API returns.
use vstd::prelude::*;

verus! {

/// The fields of a channel that a patch changes.
#[derive(Default, Debug, Clone, PartialEq)]
pub struct ChannelPatchRequest {
    pub name: String,
    pub display_name: String,
    pub purpose: String,
    pub header: String,
}

/// A channel as the API returns it.
#[derive(Default, Debug, Clone, PartialEq)]
pub struct ChannelResponse {
    pub id: String,
    pub create_at: i64,
    pub update_at: i64,
    pub delete_at: i64,
    pub team_id: String,
    pub type_field: String,
    pub display_name: String,
    pub name: String,
    pub header: String,
    pub purpose: String,
    pub last_post_at: i64,
    pub total_msg_count: i64,
    pub extra_update_at: i64,
    pub creator_id: String,
}

} // verus!
