//! The stepper motor that moves the bolt.
use vstd::prelude::*;

verus! {

/// The way the motor turns the bolt.
#[derive(Debug, Clone, Copy, PartialEq, Eq, Structural)]
pub enum Direction {
    Open,
    Close,
}

/// Number of steps of one full bolt movement.
pub const STEPS: u64 = 32000;

/// Half period of one step pulse, in microseconds.
pub const PWM_SLEEP_TIME: u64 = 100;

/// The GPIO pin that sets the motor's direction.
pub const DIRECTION_PIN: u8 = 24;

/// The GPIO pin that receives the step pulses.
pub const STEP_PIN: u8 = 23;

/// The GPIO pin that enables the motor driver (active low).
pub const DRIVER_PIN: u8 = 25;

/// What the GPIO pins go through for one bolt movement.
pub struct MotorRun {
    /// Pin that selects the direction.
    pub direction_pin: u8,
    /// Level of the direction pin: high opens, low closes.
    pub direction_high: bool,
    /// Pin that receives the step pulses.
    pub step_pin: u8,
    /// Pin that enables the driver: pulled low for the run, high after it.
    pub driver_pin: u8,
    /// Number of step pulses.
    pub pulses: u64,
    /// Whether each pulse raises the step pin first (else it lowers it first).
    pub pulse_starts_high: bool,
    /// Time the step pin stays at each level, in microseconds.
    pub half_period_micros: u64,
}

/// The run of the motor for `direction`: the direction pin high for opening,
/// low for closing, then one pulse for each step from 1 up to (excluding)
/// `STEPS`, raising the step pin first, each level held `PWM_SLEEP_TIME` microseconds.
pub fn motor_run(direction: Direction) -> (r: MotorRun)
    ensures
        r.direction_pin == DIRECTION_PIN,
        r.direction_high == (direction == Direction::Open),
        r.step_pin == STEP_PIN,
        r.driver_pin == DRIVER_PIN,
        r.pulses == STEPS - 1,
        r.pulse_starts_high,
        r.half_period_micros == PWM_SLEEP_TIME,
{
    MotorRun {
        direction_pin: DIRECTION_PIN,
        direction_high: match direction {
            Direction::Open => true,
            Direction::Close => false,
        },
        step_pin: STEP_PIN,
        driver_pin: DRIVER_PIN,
        pulses: STEPS - 1,
        pulse_starts_high: true,
        half_period_micros: PWM_SLEEP_TIME,
    }
}

} // verus!
