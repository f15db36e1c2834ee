//! The stepper motor of the Raspberry Pi controller. On a development machine
//! the motor is simulated: it writes where the bolt went into the lock
//! switch's state file.
use vstd::prelude::*;
use vstd::string::*;

use crate::hardware::motor::{MotorRun, PWM_SLEEP_TIME, STEPS};
use crate::raspberrypi::hardware::lock::Configuration;
use crate::text::{bool_text, bool_word};

verus! {

/// The way the motor turns the bolt.
#[derive(Debug, Default, Clone, Copy, PartialEq, Eq, Structural)]
pub enum Direction {
    Open,
    #[default]
    Close,
}

/// The run of the motor for `direction` with the pins of `configuration`:
/// `direction` selects the direction pin, `pin` receives the pulses and
/// `driver` enables the driver. The direction pin is high for opening, low
/// for closing; one pulse for each step from 1 up to (excluding) `STEPS`,
/// lowering the step pin first, each level held `PWM_SLEEP_TIME`
/// microseconds. The step count and pulse time are those of the first
/// controller's motor: this controller's configuration holds only pins.
pub fn motor_run(configuration: &Configuration, direction: Direction) -> (r: MotorRun)
    ensures
        r.direction_pin == configuration.direction,
        r.direction_high == (direction == Direction::Open),
        r.step_pin == configuration.pin,
        r.driver_pin == configuration.driver,
        r.pulses == STEPS - 1,
        !r.pulse_starts_high,
        r.half_period_micros == PWM_SLEEP_TIME,
{
    MotorRun {
        direction_pin: configuration.direction,
        direction_high: match direction {
            Direction::Open => true,
            Direction::Close => false,
        },
        step_pin: configuration.pin,
        driver_pin: configuration.driver,
        pulses: STEPS - 1,
        pulse_starts_high: false,
        half_period_micros: PWM_SLEEP_TIME,
    }
}

/// The line the simulated motor writes into the lock switch's state file:
/// `true` after opening, `false` after closing, and a newline.
pub fn state_file_line(direction: Direction) -> (r: String)
    ensures
        r@ == bool_word(direction == Direction::Open).push('\n'),
{
    let mut r = bool_text(
        match direction {
            Direction::Open => true,
            Direction::Close => false,
        },
    );
    r.append("\n");
    proof {
        reveal_strlit("\n");
        assert(r@ =~= bool_word(direction == Direction::Open).push('\n'));
    }
    r
}

} // verus!
