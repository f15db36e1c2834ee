//! The switch that reports whether the bolt is open. On a development machine
//! the switch is simulated by a state file holding `true` or `false`.
use vstd::prelude::*;
use vstd::string::*;

use crate::text::{lemma_trimmed_plain, parse_bool, parsed_bool, trim, trimmed};

verus! {

/// What the lock switch reports.
#[derive(Debug, Default, Clone, Copy, PartialEq, Eq, Structural)]
pub enum LockSwitchState {
    #[default]
    Locked,
    Unlocked,
}

impl From<bool> for LockSwitchState {
    fn from(b: bool) -> Self {
        match b {
            true => LockSwitchState::Unlocked,
            false => LockSwitchState::Locked,
        }
    }
}

impl vstd::std_specs::convert::FromSpecImpl<bool> for LockSwitchState {
    open spec fn obeys_from_spec() -> bool {
        true
    }

    /// `true` (open, or a high pin) is `Unlocked`.
    open spec fn from_spec(v: bool) -> Self {
        if v {
            LockSwitchState::Unlocked
        } else {
            LockSwitchState::Locked
        }
    }
}

impl From<LockSwitchState> for bool {
    fn from(dlss: LockSwitchState) -> Self {
        match dlss {
            LockSwitchState::Unlocked => true,
            LockSwitchState::Locked => false,
        }
    }
}

impl vstd::std_specs::convert::FromSpecImpl<LockSwitchState> for bool {
    open spec fn obeys_from_spec() -> bool {
        true
    }

    /// `Unlocked` is open.
    open spec fn from_spec(v: LockSwitchState) -> bool {
        v == LockSwitchState::Unlocked
    }
}

/// Something that reports the lock switch.
pub trait LockSwitchStateTrait {
    fn state(&self) -> LockSwitchState;
}

/// The switch state that a state file with `contents` gives: the trimmed text
/// must be `true` or `false`; anything else is no state.
pub open spec fn state_file_state(contents: Seq<char>) -> Option<LockSwitchState> {
    match parsed_bool(trimmed(contents)) {
        Some(b) => Some(<LockSwitchState as vstd::std_specs::convert::FromSpec<bool>>::from_spec(b)),
        None => None,
    }
}

/// Reads the simulated switch from the text of its state file. `None` where
/// the text, without surrounding whitespace, is neither `true` nor `false`.
pub fn parse_state_file(contents: &str) -> (r: Option<LockSwitchState>)
    ensures
        r == state_file_state(contents@),
{
    match parse_bool(trim(contents)) {
        Some(b) => Some(LockSwitchState::from(b)),
        None => None,
    }
}

/// The text a missing state file is created with: the switch reads `Locked`.
pub fn initial_state_file() -> (r: String)
    ensures
        r@ == "false"@,
        state_file_state(r@) == Some(LockSwitchState::Locked),
{
    let r = String::from_str("false");
    proof {
        reveal_strlit("false");
        reveal_strlit("true");
        lemma_trimmed_plain(r@);
    }
    r
}

/// "Is open" and the switch state determine each other: converting either
/// way and back gives the value converted.
pub proof fn lemma_open_flag_round_trip(b: bool, s: LockSwitchState)
    ensures
        <bool as vstd::std_specs::convert::FromSpec<LockSwitchState>>::from_spec(
            <LockSwitchState as vstd::std_specs::convert::FromSpec<bool>>::from_spec(b),
        ) == b,
        <LockSwitchState as vstd::std_specs::convert::FromSpec<bool>>::from_spec(
            <bool as vstd::std_specs::convert::FromSpec<LockSwitchState>>::from_spec(s),
        ) == s,
{
}

/// A state file holding `true` with any whitespace around it (a trailing
/// newline, say) reads `Unlocked`; one holding `false` so reads `Locked`.
pub proof fn lemma_padded_words_read(p: Seq<char>, q: Seq<char>)
    requires
        crate::text::all_white_space(p),
        crate::text::all_white_space(q),
    ensures
        state_file_state(p + "true"@ + q) == Some(LockSwitchState::Unlocked),
        state_file_state(p + "false"@ + q) == Some(LockSwitchState::Locked),
{
    crate::text::lemma_padded_word_parses(p, q);
}

/// A state file reads a state only where it holds that state's word, `true`
/// for `Unlocked` and `false` for `Locked`, with whitespace around it; any
/// other text reads as no state.
pub proof fn lemma_reads_only_padded_words(contents: Seq<char>)
    ensures
        state_file_state(contents) == Some(LockSwitchState::Unlocked) ==> exists|p: Seq<char>, q: Seq<char>|
            crate::text::all_white_space(p) && crate::text::all_white_space(q) && contents == p
                + "true"@ + q,
        state_file_state(contents) == Some(LockSwitchState::Locked) ==> exists|p: Seq<char>, q: Seq<char>|
            crate::text::all_white_space(p) && crate::text::all_white_space(q) && contents == p
                + "false"@ + q,
{
    crate::text::lemma_parsed_only_padded_word(contents);
}

} // verus!
