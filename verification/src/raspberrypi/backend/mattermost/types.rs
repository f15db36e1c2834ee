//! The Mattermost API's records.
pub mod channels;
pub mod login;
pub mod posts;
pub mod teams;
pub mod users;
