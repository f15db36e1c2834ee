use nerdschloss::raspberrypi::backend::logic::lock_command;
use nerdschloss::raspberrypi::hardware::doorswitch::DoorSwitchState;
use nerdschloss::raspberrypi::hardware::lockswitch::{parse_state_file, State};
use nerdschloss::raspberrypi::hardware::motor::{state_file_line, Direction};

/// Runs one command against a simulated switch file and returns the new file.
fn handle(file: String, msg: Direction) -> String {
    let is_open = bool::from(parse_state_file(&file).unwrap());
    match lock_command(msg, is_open) {
        Some(direction) => state_file_line(direction),
        None => file,
    }
}

#[test]
fn handled_command_reaches_its_side() {
    for start in ["true\n", "false\n", " true ", "false"] {
        for msg in [Direction::Open, Direction::Close] {
            let after = handle(start.to_string(), msg);
            let expected = State::from(msg == Direction::Open);
            assert_eq!(parse_state_file(&after), Some(expected));
        }
    }
}

#[test]
fn command_sequence_tracks_the_last_command() {
    let mut file = String::from("false\n");
    let commands = [Direction::Open, Direction::Open, Direction::Close, Direction::Open];
    for msg in commands {
        file = handle(file, msg);
    }
    assert_eq!(parse_state_file(&file), Some(State::Unlocked));
}

#[test]
fn switch_states_round_trip_through_bool() {
    for s in [State::Locked, State::Unlocked] {
        assert_eq!(State::from(bool::from(s)), s);
    }
    for s in [DoorSwitchState::Locked, DoorSwitchState::Unlocked] {
        assert_eq!(DoorSwitchState::from(bool::from(s)), s);
    }
    for b in [true, false] {
        assert_eq!(bool::from(State::from(b)), b);
        assert_eq!(bool::from(DoorSwitchState::from(b)), b);
    }
}
