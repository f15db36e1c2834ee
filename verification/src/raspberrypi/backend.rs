//! The backend of the Raspberry Pi controller: the command loop's decisions,
//! the configuration it reads, and the notifications (SpaceAPI, MQTT,
//! Mattermost) it sends when the lock switch changes.
pub mod configuration;
pub mod logic;
pub mod mattermost;
pub mod mqtt;
pub mod notifyer;
pub mod spaceapi;
