//! The lock: its state while the motor moves the bolt, and the conversion of
//! that state to "is open".
use vstd::prelude::*;

use crate::hardware::motor::Direction;

verus! {

/// The pins of the lock motor: `pin` takes the step pulses, `direction`
/// sets the direction, `driver` enables the driver.
#[derive(Debug, Clone, Copy, PartialEq, Eq, Structural)]
pub struct LockMotorConfiguration {
    pub pin: u8,
    pub direction: u8,
    pub driver: u8,
}

/// Where the bolt is, or where it is moving to.
#[derive(Debug, Default, Clone, Copy, PartialEq, Eq, Structural)]
pub enum LockState {
    #[default]
    Locked,
    Locking,
    Unlocked,
    Unlocking,
}

impl From<bool> for LockState {
    fn from(b: bool) -> Self {
        match b {
            true => Self::Unlocked,
            false => Self::Locked,
        }
    }
}

impl vstd::std_specs::convert::FromSpecImpl<bool> for LockState {
    open spec fn obeys_from_spec() -> bool {
        true
    }

    /// `true` is open: `Unlocked`; `false` is `Locked`.
    open spec fn from_spec(v: bool) -> Self {
        if v {
            LockState::Unlocked
        } else {
            LockState::Locked
        }
    }
}

impl From<LockState> for bool {
    fn from(dls: LockState) -> Self {
        match dls {
            LockState::Unlocked => true,
            LockState::Unlocking => false,
            LockState::Locked => false,
            LockState::Locking => false,
        }
    }
}

impl vstd::std_specs::convert::FromSpecImpl<LockState> for bool {
    open spec fn obeys_from_spec() -> bool {
        true
    }

    /// Only a bolt that has finished unlocking counts as open.
    open spec fn from_spec(v: LockState) -> bool {
        v == LockState::Unlocked
    }
}

/// Something that can be locked.
pub trait Lockable {
    fn lock(&self);
}

/// Something that can be unlocked.
pub trait Unlockable {
    fn unlock(&self);
}

/// Something that reports a lock state.
pub trait LockStateTrait {
    fn state(&self) -> LockState;
}

/// The state a movement ends in once the motor has finished.
pub open spec fn settled(s: LockState) -> LockState {
    match s {
        LockState::Locking => LockState::Locked,
        LockState::Unlocking => LockState::Unlocked,
        other => other,
    }
}

/// A lock driven by the motor.
#[derive(Debug, Clone, Copy)]
pub struct Lock {
    state: LockState,
    configuration: LockMotorConfiguration,
}

/// What a `Lock` holds.
pub struct LockView {
    pub state: LockState,
    pub configuration: LockMotorConfiguration,
}

impl View for Lock {
    type V = LockView;

    closed spec fn view(&self) -> LockView {
        LockView { state: self.state, configuration: self.configuration }
    }
}

impl Lock {
    /// A lock, taken to be locked, with its motor's pins.
    pub fn new(configuration: LockMotorConfiguration) -> (r: Self)
        ensures
            r@.state == LockState::Locked,
            r@.configuration == configuration,
    {
        Self { state: LockState::Locked, configuration }
    }

    /// Starts locking: the lock is `Locking` and the motor is to turn
    /// towards `Close`; `finish` records the end of the movement.
    pub fn start_lock(&mut self) -> (d: Direction)
        ensures
            d == Direction::Close,
            final(self)@.state == LockState::Locking,
            final(self)@.configuration == old(self)@.configuration,
    {
        self.state = LockState::Locking;
        Direction::Close
    }

    /// Starts unlocking: the lock is `Unlocking` and the motor is to turn
    /// towards `Open`; `finish` records the end of the movement.
    pub fn start_unlock(&mut self) -> (d: Direction)
        ensures
            d == Direction::Open,
            final(self)@.state == LockState::Unlocking,
            final(self)@.configuration == old(self)@.configuration,
    {
        self.state = LockState::Unlocking;
        Direction::Open
    }

    /// Records that the motor has finished: `Locking` becomes `Locked`,
    /// `Unlocking` becomes `Unlocked`, a settled state stays as it is.
    pub fn finish(&mut self)
        ensures
            final(self)@.state == settled(old(self)@.state),
            final(self)@.configuration == old(self)@.configuration,
    {
        self.state = match self.state {
            LockState::Locking => LockState::Locked,
            LockState::Unlocking => LockState::Unlocked,
            other => other,
        };
    }

    /// The current state.
    pub fn state(&self) -> (r: LockState)
        ensures
            r == self@.state,
    {
        self.state
    }

    /// The motor's pins.
    pub fn configuration(&self) -> (r: LockMotorConfiguration)
        ensures
            r == self@.configuration,
    {
        self.configuration
    }
}

/// A lock movement ends where it was headed: after `start_lock` and `finish`
/// the lock is `Locked`, after `start_unlock` and `finish` it is `Unlocked`
/// and counts as open; the pins never change.
pub proof fn lemma_movement_settles(s: LockState)
    ensures
        settled(LockState::Locking) == LockState::Locked,
        settled(LockState::Unlocking) == LockState::Unlocked,
        <bool as vstd::std_specs::convert::FromSpec<LockState>>::from_spec(settled(LockState::Unlocking)),
        !<bool as vstd::std_specs::convert::FromSpec<LockState>>::from_spec(settled(LockState::Locking)),
        settled(settled(s)) == settled(s),
{
}

/// Reading a state from "is open" and back gives the same answer, and a
/// settled state survives the round trip through "is open".
pub proof fn lemma_open_flag_round_trip(b: bool, s: LockState)
    ensures
        <bool as vstd::std_specs::convert::FromSpec<LockState>>::from_spec(
            <LockState as vstd::std_specs::convert::FromSpec<bool>>::from_spec(b),
        ) == b,
        (s == LockState::Locked || s == LockState::Unlocked) ==> <LockState as vstd::std_specs::convert::FromSpec<bool>>::from_spec(
            <bool as vstd::std_specs::convert::FromSpec<LockState>>::from_spec(s),
        ) == s,
{
}

/// The view after a whole locking movement (`start_lock`, then `finish`).
pub open spec fn locked(v: LockView) -> LockView {
    LockView { state: settled(LockState::Locking), configuration: v.configuration }
}

/// The view after a whole unlocking movement (`start_unlock`, then
/// `finish`).
pub open spec fn unlocked(v: LockView) -> LockView {
    LockView { state: settled(LockState::Unlocking), configuration: v.configuration }
}

/// `start_lock` followed by `finish` takes any lock to `locked`, and
/// `start_unlock` followed by `finish` to `unlocked`: the views their
/// contracts allow are exactly these.
pub proof fn lemma_movements_compose(v: LockView, mid: LockView, end: LockView)
    requires
        mid.configuration == v.configuration,
        end == (LockView { state: settled(mid.state), configuration: mid.configuration }),
    ensures
        mid.state == LockState::Locking ==> end == locked(v),
        mid.state == LockState::Unlocking ==> end == unlocked(v),
{
}

/// Locking undoes unlocking: after a whole unlocking movement and a whole
/// locking movement the lock is as `Lock::new` makes it (`Locked`, same
/// pins), whatever state it started in; and the reverse order ends
/// `Unlocked`.
pub proof fn lemma_lock_undoes_unlock(v: LockView)
    ensures
        locked(unlocked(v)) == (LockView { state: LockState::Locked, configuration: v.configuration }),
        locked(unlocked(v)) == locked(v),
        unlocked(locked(v)) == (LockView { state: LockState::Unlocked, configuration: v.configuration }),
{
}

} // verus!
