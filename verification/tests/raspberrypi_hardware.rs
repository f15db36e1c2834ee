use nerdschloss::raspberrypi::hardware::doorswitch::{self, DoorSwitchState};
use nerdschloss::raspberrypi::hardware::lock::{Configuration, Lock, State};
use nerdschloss::raspberrypi::hardware::lockswitch::{
    self, interrupt_setup, interrupt_state, Configuration as SwitchConfiguration, EdgeTrigger,
    State as SwitchState,
};
use nerdschloss::raspberrypi::hardware::motor::{motor_run, state_file_line, Direction};

#[test]
fn state_conversions() {
    assert_eq!(State::from(true), State::Unlocked);
    assert_eq!(State::from(false), State::Locked);
    assert!(bool::from(State::Unlocked));
    assert!(!bool::from(State::Locking));
    assert!(!bool::from(State::Unlocking));
    assert!(!bool::from(State::Locked));
    assert_eq!(SwitchState::from(true), SwitchState::Unlocked);
    assert_eq!(SwitchState::from(false), SwitchState::Locked);
    assert!(bool::from(SwitchState::Unlocked));
    assert!(!bool::from(SwitchState::Locked));
    assert_eq!(DoorSwitchState::from(true), DoorSwitchState::Unlocked);
    assert_eq!(DoorSwitchState::from(false), DoorSwitchState::Locked);
    assert!(bool::from(DoorSwitchState::Unlocked));
    assert!(!bool::from(DoorSwitchState::Locked));
}

#[test]
fn defaults() {
    assert_eq!(State::default(), State::Locked);
    assert_eq!(SwitchState::default(), SwitchState::Locked);
    assert_eq!(DoorSwitchState::default(), DoorSwitchState::Locked);
    assert_eq!(Direction::default(), Direction::Close);
}

#[test]
fn raspberry_lock_cycle() {
    let configuration = Configuration { pin: 23, direction: 24, driver: 25 };
    let mut lock = Lock::new(configuration);
    assert_eq!(lock.state(), State::Locked);
    assert_eq!(lock.start_unlock(), Direction::Open);
    assert_eq!(lock.state(), State::Unlocking);
    lock.finish();
    assert_eq!(lock.state(), State::Unlocked);
    assert_eq!(lock.start_lock(), Direction::Close);
    lock.finish();
    assert_eq!(lock.state(), State::Locked);
}

#[test]
fn raspberry_motor_run_uses_configured_pins() {
    let configuration = Configuration { pin: 5, direction: 6, driver: 7 };
    let run = motor_run(&configuration, Direction::Open);
    assert_eq!(run.step_pin, 5);
    assert_eq!(run.direction_pin, 6);
    assert_eq!(run.driver_pin, 7);
    assert!(run.direction_high);
    assert!(!run.pulse_starts_high);
    assert_eq!(run.pulses, 31999);
    assert!(!motor_run(&configuration, Direction::Close).direction_high);
}

#[test]
fn motor_line_is_read_back() {
    assert_eq!(state_file_line(Direction::Open), "true\n");
    assert_eq!(state_file_line(Direction::Close), "false\n");
    assert_eq!(
        lockswitch::parse_state_file(&state_file_line(Direction::Open)),
        Some(SwitchState::Unlocked)
    );
    assert_eq!(
        lockswitch::parse_state_file(&state_file_line(Direction::Close)),
        Some(SwitchState::Locked)
    );
}

#[test]
fn switch_state_files() {
    assert_eq!(lockswitch::initial_state_file(), "false\n");
    assert_eq!(
        lockswitch::parse_state_file(&lockswitch::initial_state_file()),
        Some(SwitchState::Locked)
    );
    assert_eq!(lockswitch::parse_state_file("maybe"), None);
    assert_eq!(doorswitch::initial_state_file(), "false");
    assert_eq!(doorswitch::parse_state_file(" true\n"), Some(DoorSwitchState::Unlocked));
    assert_eq!(doorswitch::parse_state_file("false"), Some(DoorSwitchState::Locked));
    assert_eq!(doorswitch::parse_state_file("TRUE"), None);
}

#[test]
fn interrupt_edges() {
    assert!(interrupt_state(EdgeTrigger::RisingEdge));
    assert!(!interrupt_state(EdgeTrigger::FallingEdge));
    assert!(!interrupt_state(EdgeTrigger::Both));
    assert!(!interrupt_state(EdgeTrigger::Disabled));
}

#[test]
fn interrupt_setup_uses_configuration() {
    let setup = interrupt_setup(&SwitchConfiguration { pin: 22, interruptdelay: 50 });
    assert_eq!(setup.pin, 22);
    assert!(setup.pull_up);
    assert_eq!(setup.trigger, EdgeTrigger::Both);
    assert_eq!(setup.debounce_millis, 50);
}

#[test]
fn lock_undoes_unlock() {
    let configuration = Configuration { pin: 23, direction: 24, driver: 25 };
    let mut lock = Lock::new(configuration);
    let d = lock.start_unlock();
    lock.finish();
    assert_eq!(lockswitch::parse_state_file(&state_file_line(d)), Some(SwitchState::Unlocked));
    let d = lock.start_lock();
    lock.finish();
    assert_eq!(lockswitch::parse_state_file(&state_file_line(d)), Some(SwitchState::Locked));
    assert_eq!(lock.state(), Lock::new(configuration).state());
}
