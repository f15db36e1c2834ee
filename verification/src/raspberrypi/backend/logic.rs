//! The decisions of the Raspberry Pi backend's command loop: each command is
//! held against what the lock switch reports, and only a command for the
//! other side moves the lock.
use vstd::prelude::*;

use crate::raspberrypi::hardware::lockswitch::{lemma_motor_line_read_back, state_file_state, State};
use crate::raspberrypi::hardware::motor::Direction;
use crate::text::bool_word;

verus! {

/// The lock movement a command asks for, given whether the lock switch
/// reports the bolt open: `Open` unlocks a closed bolt, `Close` locks an open
/// one, and a command for the side the bolt is on moves nothing.
pub fn lock_command(msg: Direction, is_open: bool) -> (r: Option<Direction>)
    ensures
        r == (if (msg == Direction::Open) != is_open { Some(msg) } else { None }),
{
    match msg {
        Direction::Open => if !is_open {
            Some(Direction::Open)
        } else {
            None
        },
        Direction::Close => if is_open {
            Some(Direction::Close)
        } else {
            None
        },
    }
}

/// What the lock switch reads after a command was handled, where it read
/// `switch` before: a movement rewrites the switch's state file with the
/// motor's line, and no movement leaves the switch as it was.
pub open spec fn switch_after(switch: State, msg: Direction) -> Option<State> {
    let is_open = <bool as vstd::std_specs::convert::FromSpec<State>>::from_spec(switch);
    if (msg == Direction::Open) != is_open {
        state_file_state(bool_word(msg == Direction::Open).push('\n'))
    } else {
        Some(switch)
    }
}

/// A handled command leaves the lock switch on the commanded side: after
/// `Open` the switch reads `Unlocked`, after `Close` it reads `Locked`,
/// whichever side it read before.
pub proof fn lemma_command_reaches_target(switch: State, msg: Direction)
    ensures
        switch_after(switch, msg) == Some(
            <State as vstd::std_specs::convert::FromSpec<bool>>::from_spec(msg == Direction::Open),
        ),
{
    lemma_motor_line_read_back(msg);
}

} // verus!
