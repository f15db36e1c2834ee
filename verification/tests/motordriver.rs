use nerdschloss::motordriver::{Direction, Received, Stepper, StepperAction};

#[test]
fn first_open_moves_the_motor() {
    let mut stepper = Stepper::new();
    assert!(!stepper.is_open());
    assert_eq!(stepper.step(Received::Message(Direction::Open)), StepperAction::PollForMore);
    assert_eq!(stepper.step(Received::Empty), StepperAction::Move(Direction::Open));
    assert!(stepper.is_open());
}

#[test]
fn repeated_open_does_not_move() {
    let mut stepper = Stepper::new();
    stepper.step(Received::Message(Direction::Open));
    stepper.step(Received::Empty);
    assert_eq!(stepper.step(Received::Message(Direction::Open)), StepperAction::PollForMore);
    assert_eq!(stepper.step(Received::Empty), StepperAction::WaitForMessage);
    assert!(stepper.is_open());
}

#[test]
fn close_when_closed_does_not_move() {
    let mut stepper = Stepper::new();
    stepper.step(Received::Message(Direction::Close));
    assert_eq!(stepper.step(Received::Empty), StepperAction::WaitForMessage);
    assert!(!stepper.is_open());
}

#[test]
fn queued_commands_collapse_to_the_newest() {
    let mut stepper = Stepper::new();
    stepper.step(Received::Message(Direction::Open));
    stepper.step(Received::Message(Direction::Close));
    stepper.step(Received::Message(Direction::Open));
    assert_eq!(stepper.step(Received::Empty), StepperAction::Move(Direction::Open));
    stepper.step(Received::Message(Direction::Close));
    stepper.step(Received::Message(Direction::Open));
    assert_eq!(stepper.step(Received::Empty), StepperAction::WaitForMessage);
    stepper.step(Received::Message(Direction::Open));
    stepper.step(Received::Message(Direction::Close));
    assert_eq!(stepper.step(Received::Empty), StepperAction::Move(Direction::Close));
    assert!(!stepper.is_open());
}

#[test]
fn disconnect_stops() {
    let mut stepper = Stepper::new();
    assert_eq!(stepper.step(Received::Disconnected), StepperAction::Stop);
    stepper.step(Received::Message(Direction::Open));
    assert_eq!(stepper.step(Received::Disconnected), StepperAction::Stop);
    assert!(!stepper.is_open());
}

#[test]
fn empty_without_command_waits() {
    let mut stepper = Stepper::new();
    assert_eq!(stepper.step(Received::Empty), StepperAction::WaitForMessage);
    assert!(!stepper.is_open());
}
