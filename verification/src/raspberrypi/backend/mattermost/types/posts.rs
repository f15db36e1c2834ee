//! The post record the API returns, with its metadata.
use vstd::prelude::*;

verus! {

/// A post as the API returns it.
#[derive(Default, Debug, Clone, PartialEq)]
pub struct PostResponse {
    pub id: String,
    pub create_at: i64,
    pub update_at: i64,
    pub delete_at: i64,
    pub edit_at: i64,
    pub user_id: String,
    pub channel_id: String,
    pub root_id: String,
    pub original_id: String,
    pub message: String,
    pub type_field: String,
    pub props: Props,
    pub hashtag: String,
    pub file_ids: Vec<String>,
    pub pending_post_id: String,
    pub metadata: Metadata,
}

/// Free-form properties (none are read).
#[derive(Default, Debug, Clone, PartialEq)]
pub struct Props {}

/// A post's metadata.
#[derive(Default, Debug, Clone, PartialEq)]
pub struct Metadata {
    pub embeds: Vec<Embed>,
    pub emojis: Vec<Emoji>,
    pub files: Vec<File>,
    pub images: Images,
    pub reactions: Vec<Reaction>,
    pub priority: Priority,
    pub acknowledgements: Vec<Acknowledgement>,
}

/// Content embedded in a post.
#[derive(Default, Debug, Clone, PartialEq)]
pub struct Embed {
    pub type_field: String,
    pub url: String,
    pub data: Data,
}

/// Data of an embed (none is read).
#[derive(Default, Debug, Clone, PartialEq)]
pub struct Data {}

/// A custom emoji.
#[derive(Default, Debug, Clone, PartialEq)]
pub struct Emoji {
    pub id: String,
    pub creator_id: String,
    pub name: String,
    pub create_at: i64,
    pub update_at: i64,
    pub delete_at: i64,
}

/// A file attached to a post.
#[derive(Default, Debug, Clone, PartialEq)]
pub struct File {
    pub id: String,
    pub user_id: String,
    pub post_id: String,
    pub create_at: i64,
    pub update_at: i64,
    pub delete_at: i64,
    pub name: String,
    pub extension: String,
    pub size: i64,
    pub mime_type: String,
    pub width: i64,
    pub height: i64,
    pub has_preview_image: bool,
}

/// Images of a post (none are read).
#[derive(Default, Debug, Clone, PartialEq)]
pub struct Images {}

/// A reaction to a post.
#[derive(Default, Debug, Clone, PartialEq)]
pub struct Reaction {
    pub user_id: String,
    pub post_id: String,
    pub emoji_name: String,
    pub create_at: i64,
}

/// A post's priority.
#[derive(Default, Debug, Clone, PartialEq)]
pub struct Priority {
    pub priority: String,
    pub requested_ack: bool,
}

/// An acknowledgement of a post.
#[derive(Default, Debug, Clone, PartialEq)]
pub struct Acknowledgement {
    pub user_id: String,
    pub post_id: String,
    pub acknowledged_at: i64,
}

} // verus!
