use nerdschloss::hardware::lock::{Lock, LockMotorConfiguration, LockState};
use nerdschloss::hardware::lockswitch::{initial_state_file, parse_state_file, LockSwitchState};
use nerdschloss::hardware::motor::{motor_run, Direction, PWM_SLEEP_TIME, STEPS};

fn configuration() -> LockMotorConfiguration {
    LockMotorConfiguration { pin: 23, direction: 24, driver: 25 }
}

#[test]
fn lock_state_from_bool() {
    assert_eq!(LockState::from(true), LockState::Unlocked);
    assert_eq!(LockState::from(false), LockState::Locked);
}

#[test]
fn bool_from_lock_state() {
    assert!(bool::from(LockState::Unlocked));
    assert!(!bool::from(LockState::Unlocking));
    assert!(!bool::from(LockState::Locked));
    assert!(!bool::from(LockState::Locking));
    for b in [true, false] {
        assert_eq!(bool::from(LockState::from(b)), b);
    }
}

#[test]
fn lock_state_default_is_locked() {
    assert_eq!(LockState::default(), LockState::Locked);
    assert_eq!(LockSwitchState::default(), LockSwitchState::Locked);
}

#[test]
fn lock_movements_settle() {
    let mut lock = Lock::new(configuration());
    assert_eq!(lock.state(), LockState::Locked);
    assert_eq!(lock.start_unlock(), Direction::Open);
    assert_eq!(lock.state(), LockState::Unlocking);
    lock.finish();
    assert_eq!(lock.state(), LockState::Unlocked);
    assert!(bool::from(lock.state()));
    lock.finish();
    assert_eq!(lock.state(), LockState::Unlocked);
    assert_eq!(lock.start_lock(), Direction::Close);
    assert_eq!(lock.state(), LockState::Locking);
    lock.finish();
    assert_eq!(lock.state(), LockState::Locked);
    assert_eq!(lock.configuration(), configuration());
}

#[test]
fn lock_switch_conversions() {
    assert_eq!(LockSwitchState::from(true), LockSwitchState::Unlocked);
    assert_eq!(LockSwitchState::from(false), LockSwitchState::Locked);
    assert!(bool::from(LockSwitchState::Unlocked));
    assert!(!bool::from(LockSwitchState::Locked));
}

#[test]
fn lock_switch_state_file() {
    assert_eq!(parse_state_file("true"), Some(LockSwitchState::Unlocked));
    assert_eq!(parse_state_file("false\n"), Some(LockSwitchState::Locked));
    assert_eq!(parse_state_file("  true  \n"), Some(LockSwitchState::Unlocked));
    assert_eq!(parse_state_file("yes"), None);
    assert_eq!(parse_state_file(""), None);
    assert_eq!(initial_state_file(), "false");
    assert_eq!(parse_state_file(&initial_state_file()), Some(LockSwitchState::Locked));
}

#[test]
fn motor_run_plan() {
    let open = motor_run(Direction::Open);
    assert!(open.direction_high);
    assert_eq!(open.direction_pin, 24);
    assert_eq!(open.step_pin, 23);
    assert_eq!(open.driver_pin, 25);
    assert_eq!(open.pulses, 31999);
    assert_eq!(open.pulses, STEPS - 1);
    assert!(open.pulse_starts_high);
    assert_eq!(open.half_period_micros, PWM_SLEEP_TIME);
    let close = motor_run(Direction::Close);
    assert!(!close.direction_high);
}
