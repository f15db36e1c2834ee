//! The record a login returns.
use vstd::prelude::*;

verus! {

/// The user a login returns.
#[derive(Default, Debug, Clone, PartialEq)]
pub struct LoginResponce {
    pub id: String,
    pub create_at: i64,
    pub update_at: i64,
    pub delete_at: i64,
    pub username: String,
    pub first_name: String,
    pub last_name: String,
    pub nickname: String,
    pub email: String,
    pub email_verified: bool,
    pub auth_service: String,
    pub roles: String,
    pub locale: String,
    pub notify_props: NotifyProps,
    pub props: Props,
    pub last_password_update: i64,
    pub last_picture_update: i64,
    pub failed_attempts: i64,
    pub mfa_active: bool,
    pub timezone: Timezone,
    pub terms_of_service_id: String,
    pub terms_of_service_create_at: i64,
}

/// When and how a user is notified.
#[derive(Default, Debug, Clone, PartialEq)]
pub struct NotifyProps {
    pub email: String,
    pub push: String,
    pub desktop: String,
    pub desktop_sound: String,
    pub mention_keys: String,
    pub channel: String,
    pub first_name: String,
}

/// Free-form properties (none are read).
#[derive(Default, Debug, Clone, PartialEq)]
pub struct Props {}

/// A user's time zone settings.
#[derive(Default, Debug, Clone, PartialEq)]
pub struct Timezone {
    pub use_automatic_timezone: bool,
    pub manual_timezone: String,
    pub automatic_timezone: String,
}

} // verus!
