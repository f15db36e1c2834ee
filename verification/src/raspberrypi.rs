//! The Raspberry Pi generation of the controller: its hardware and the
//! backend that serves commands and sends out notifications.
pub mod hardware;
pub mod backend;
