//! The switch that reports whether the door is shut. On a development machine
//! it is simulated by a state file holding `true` or `false`.
use vstd::prelude::*;
use vstd::string::*;

use crate::text::{lemma_trimmed_plain, parse_bool, parsed_bool, trim, trimmed};

verus! {

/// The door switch's pin.
#[derive(Debug, Clone, Copy, PartialEq, Eq, Structural)]
pub struct DoorSwitchConfiguration {
    pub pin: u8,
}

/// What the door switch reports.
#[derive(Debug, Default, Clone, Copy, PartialEq, Eq, Structural)]
pub enum DoorSwitchState {
    #[default]
    Locked,
    Unlocked,
}

impl From<bool> for DoorSwitchState {
    fn from(b: bool) -> Self {
        match b {
            true => DoorSwitchState::Unlocked,
            false => DoorSwitchState::Locked,
        }
    }
}

impl vstd::std_specs::convert::FromSpecImpl<bool> for DoorSwitchState {
    open spec fn obeys_from_spec() -> bool {
        true
    }

    /// `true` (a high pin) is `Unlocked`.
    open spec fn from_spec(v: bool) -> Self {
        if v {
            DoorSwitchState::Unlocked
        } else {
            DoorSwitchState::Locked
        }
    }
}

impl From<DoorSwitchState> for bool {
    fn from(dlss: DoorSwitchState) -> Self {
        match dlss {
            DoorSwitchState::Unlocked => true,
            DoorSwitchState::Locked => false,
        }
    }
}

impl vstd::std_specs::convert::FromSpecImpl<DoorSwitchState> for bool {
    open spec fn obeys_from_spec() -> bool {
        true
    }

    /// `Unlocked` is `true`.
    open spec fn from_spec(v: DoorSwitchState) -> bool {
        v == DoorSwitchState::Unlocked
    }
}

/// Something that reports the door switch.
pub trait DoorSwitchStateTrait {
    fn state(&self) -> DoorSwitchState;
}

/// The switch state that a state file with `contents` gives: the trimmed text
/// must be `true` or `false`; anything else is no state.
pub open spec fn state_file_state(contents: Seq<char>) -> Option<DoorSwitchState> {
    match parsed_bool(trimmed(contents)) {
        Some(b) => Some(<DoorSwitchState as vstd::std_specs::convert::FromSpec<bool>>::from_spec(b)),
        None => None,
    }
}

/// Reads the simulated switch from the text of its state file. `None` where
/// the text, without surrounding whitespace, is neither `true` nor `false`.
pub fn parse_state_file(contents: &str) -> (r: Option<DoorSwitchState>)
    ensures
        r == state_file_state(contents@),
{
    match parse_bool(trim(contents)) {
        Some(b) => Some(DoorSwitchState::from(b)),
        None => None,
    }
}

/// The text a missing state file is created with: the switch reads `Locked`.
pub fn initial_state_file() -> (r: String)
    ensures
        r@ == "false"@,
        state_file_state(r@) == Some(DoorSwitchState::Locked),
{
    let r = String::from_str("false");
    proof {
        reveal_strlit("false");
        reveal_strlit("true");
        lemma_trimmed_plain(r@);
    }
    r
}

/// "Is open" and the switch state determine each other: converting either
/// way and back gives the value converted.
pub proof fn lemma_open_flag_round_trip(b: bool, s: DoorSwitchState)
    ensures
        <bool as vstd::std_specs::convert::FromSpec<DoorSwitchState>>::from_spec(
            <DoorSwitchState as vstd::std_specs::convert::FromSpec<bool>>::from_spec(b),
        ) == b,
        <DoorSwitchState as vstd::std_specs::convert::FromSpec<bool>>::from_spec(
            <bool as vstd::std_specs::convert::FromSpec<DoorSwitchState>>::from_spec(s),
        ) == s,
{
}

/// A state file holding `true` with any whitespace around it (a trailing
/// newline, say) reads `Unlocked`; one holding `false` so reads `Locked`.
pub proof fn lemma_padded_words_read(p: Seq<char>, q: Seq<char>)
    requires
        crate::text::all_white_space(p),
        crate::text::all_white_space(q),
    ensures
        state_file_state(p + "true"@ + q) == Some(DoorSwitchState::Unlocked),
        state_file_state(p + "false"@ + q) == Some(DoorSwitchState::Locked),
{
    crate::text::lemma_padded_word_parses(p, q);
}

/// A state file reads a state only where it holds that state's word, `true`
/// for `Unlocked` and `false` for `Locked`, with whitespace around it; any
/// other text reads as no state.
pub proof fn lemma_reads_only_padded_words(contents: Seq<char>)
    ensures
        state_file_state(contents) == Some(DoorSwitchState::Unlocked) ==> exists|p: Seq<char>, q: Seq<char>|
            crate::text::all_white_space(p) && crate::text::all_white_space(q) && contents == p
                + "true"@ + q,
        state_file_state(contents) == Some(DoorSwitchState::Locked) ==> exists|p: Seq<char>, q: Seq<char>|
            crate::text::all_white_space(p) && crate::text::all_white_space(q) && contents == p
                + "false"@ + q,
{
    crate::text::lemma_parsed_only_padded_word(contents);
}

} // verus!
