//! The lock hardware of the first controller generation: the lock motor and
//! the switch that reports whether the bolt is open.
pub mod lock;
pub mod lockswitch;
pub mod motor;
