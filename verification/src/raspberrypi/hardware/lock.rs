//! The lock of the Raspberry Pi controller: its state while the motor moves
//! the bolt, and the conversion of that state to "is open".
use vstd::prelude::*;

use crate::raspberrypi::hardware::motor::Direction;

verus! {

/// The pins of the lock motor: `pin` takes the step pulses, `direction`
/// sets the direction, `driver` enables the driver.
#[derive(Debug, Clone, Copy, PartialEq, Eq, Structural)]
pub struct Configuration {
    pub pin: u8,
    pub direction: u8,
    pub driver: u8,
}

/// Where the bolt is, or where it is moving to.
#[derive(Debug, Default, Clone, Copy, PartialEq, Eq, Structural)]
pub enum State {
    #[default]
    Locked,
    Locking,
    Unlocked,
    Unlocking,
}

impl From<bool> for State {
    fn from(b: bool) -> Self {
        match b {
            true => Self::Unlocked,
            false => Self::Locked,
        }
    }
}

impl vstd::std_specs::convert::FromSpecImpl<bool> for State {
    open spec fn obeys_from_spec() -> bool {
        true
    }

    /// `true` is open: `Unlocked`; `false` is `Locked`.
    open spec fn from_spec(v: bool) -> Self {
        if v {
            State::Unlocked
        } else {
            State::Locked
        }
    }
}

impl From<State> for bool {
    fn from(dls: State) -> Self {
        match dls {
            State::Unlocked => true,
            State::Unlocking => false,
            State::Locked => false,
            State::Locking => false,
        }
    }
}

impl vstd::std_specs::convert::FromSpecImpl<State> for bool {
    open spec fn obeys_from_spec() -> bool {
        true
    }

    /// Only a bolt that has finished unlocking counts as open.
    open spec fn from_spec(v: State) -> bool {
        v == State::Unlocked
    }
}

/// Something that can be locked.
pub trait Lockable {
    fn lock(&self);
}

/// Something that can be unlocked.
pub trait Unlockable {
    fn unlock(&self);
}

/// Something that reports a lock state.
pub trait StateTrait {
    fn state(&self) -> State;
}

/// The state a movement ends in once the motor has finished.
pub open spec fn settled(s: State) -> State {
    match s {
        State::Locking => State::Locked,
        State::Unlocking => State::Unlocked,
        other => other,
    }
}

/// A lock driven by the motor.
#[derive(Debug, Clone, Copy)]
pub struct Lock {
    state: State,
    configuration: Configuration,
}

/// What a `Lock` holds.
pub struct LockView {
    pub state: State,
    pub configuration: Configuration,
}

impl View for Lock {
    type V = LockView;

    closed spec fn view(&self) -> LockView {
        LockView { state: self.state, configuration: self.configuration }
    }
}

impl Lock {
    /// A lock, taken to be locked, with its motor's pins.
    pub fn new(configuration: Configuration) -> (r: Self)
        ensures
            r@.state == State::Locked,
            r@.configuration == configuration,
    {
        Self { state: State::Locked, configuration }
    }

    /// Starts locking: the lock is `Locking` and the motor is to turn
    /// towards `Close`; `finish` records the end of the movement.
    pub fn start_lock(&mut self) -> (d: Direction)
        ensures
            d == Direction::Close,
            final(self)@.state == State::Locking,
            final(self)@.configuration == old(self)@.configuration,
    {
        self.state = State::Locking;
        Direction::Close
    }

    /// Starts unlocking: the lock is `Unlocking` and the motor is to turn
    /// towards `Open`; `finish` records the end of the movement.
    pub fn start_unlock(&mut self) -> (d: Direction)
        ensures
            d == Direction::Open,
            final(self)@.state == State::Unlocking,
            final(self)@.configuration == old(self)@.configuration,
    {
        self.state = State::Unlocking;
        Direction::Open
    }

    /// Records that the motor has finished: `Locking` becomes `Locked`,
    /// `Unlocking` becomes `Unlocked`, a settled state stays as it is.
    pub fn finish(&mut self)
        ensures
            final(self)@.state == settled(old(self)@.state),
            final(self)@.configuration == old(self)@.configuration,
    {
        self.state = match self.state {
            State::Locking => State::Locked,
            State::Unlocking => State::Unlocked,
            other => other,
        };
    }

    /// The current state.
    pub fn state(&self) -> (r: State)
        ensures
            r == self@.state,
    {
        self.state
    }

    /// The motor's pins.
    pub fn configuration(&self) -> (r: Configuration)
        ensures
            r == self@.configuration,
    {
        self.configuration
    }
}

/// A lock movement ends where it was headed: after `start_lock` and `finish`
/// the lock is `Locked`, after `start_unlock` and `finish` it is `Unlocked`
/// and counts as open; the pins never change.
pub proof fn lemma_movement_settles(s: State)
    ensures
        settled(State::Locking) == State::Locked,
        settled(State::Unlocking) == State::Unlocked,
        <bool as vstd::std_specs::convert::FromSpec<State>>::from_spec(settled(State::Unlocking)),
        !<bool as vstd::std_specs::convert::FromSpec<State>>::from_spec(settled(State::Locking)),
        settled(settled(s)) == settled(s),
{
}

/// Reading a state from "is open" and back gives the same answer, and a
/// settled state survives the round trip through "is open".
pub proof fn lemma_open_flag_round_trip(b: bool, s: State)
    ensures
        <bool as vstd::std_specs::convert::FromSpec<State>>::from_spec(
            <State as vstd::std_specs::convert::FromSpec<bool>>::from_spec(b),
        ) == b,
        (s == State::Locked || s == State::Unlocked) ==> <State as vstd::std_specs::convert::FromSpec<bool>>::from_spec(
            <bool as vstd::std_specs::convert::FromSpec<State>>::from_spec(s),
        ) == s,
{
}

/// The view after a whole locking movement (`start_lock`, then `finish`).
pub open spec fn locked(v: LockView) -> LockView {
    LockView { state: settled(State::Locking), configuration: v.configuration }
}

/// The view after a whole unlocking movement (`start_unlock`, then
/// `finish`).
pub open spec fn unlocked(v: LockView) -> LockView {
    LockView { state: settled(State::Unlocking), configuration: v.configuration }
}

/// `start_lock` followed by `finish` takes any lock to `locked`, and
/// `start_unlock` followed by `finish` to `unlocked`: the views their
/// contracts allow are exactly these.
pub proof fn lemma_movements_compose(v: LockView, mid: LockView, end: LockView)
    requires
        mid.configuration == v.configuration,
        end == (LockView { state: settled(mid.state), configuration: mid.configuration }),
    ensures
        mid.state == State::Locking ==> end == locked(v),
        mid.state == State::Unlocking ==> end == unlocked(v),
{
}

/// Locking undoes unlocking: after a whole unlocking movement and a whole
/// locking movement the lock is as `Lock::new` makes it (`Locked`, same
/// pins), whatever state it started in; and the reverse order ends
/// `Unlocked`.
pub proof fn lemma_lock_undoes_unlock(v: LockView)
    ensures
        locked(unlocked(v)) == (LockView { state: State::Locked, configuration: v.configuration }),
        locked(unlocked(v)) == locked(v),
        unlocked(locked(v)) == (LockView { state: State::Unlocked, configuration: v.configuration }),
{
}

} // verus!
