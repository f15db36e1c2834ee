//! Door lock controller: the decisions of the lock motor, the switches and
//! the notification services, with their contracts.
pub mod text;
pub mod motordriver;
pub mod hardware;
pub mod raspberrypi;
pub mod webswitch;
pub mod backend;
