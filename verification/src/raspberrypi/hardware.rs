//! Lock motor, lock switch and door switch of the Raspberry Pi controller.
pub mod doorswitch;
pub mod lock;
pub mod lockswitch;
pub mod motor;
