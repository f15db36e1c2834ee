//! The switch that reports whether the bolt is open. On the Raspberry Pi it
//! raises an interrupt on each edge; on a development machine it is simulated
//! by a state file that the simulated motor writes.
use vstd::prelude::*;
use vstd::string::*;

use crate::raspberrypi::hardware::motor::{state_file_line, Direction};
use crate::text::{lemma_trimmed_line, parse_bool, parsed_bool, trim, trimmed};

verus! {

/// The switch's pin and the debounce delay of its interrupt, in milliseconds.
#[derive(Debug, Clone, Copy, PartialEq, Eq, Structural)]
pub struct Configuration {
    pub pin: u8,
    pub interruptdelay: u64,
}

/// What the lock switch reports.
#[derive(Debug, Default, Clone, Copy, PartialEq, Eq, Structural)]
pub enum State {
    #[default]
    Locked,
    Unlocked,
}

impl From<bool> for State {
    fn from(b: bool) -> Self {
        if b {
            State::Unlocked
        } else {
            State::Locked
        }
    }
}

impl vstd::std_specs::convert::FromSpecImpl<bool> for State {
    open spec fn obeys_from_spec() -> bool {
        true
    }

    /// `true` (open, or a high pin) is `Unlocked`.
    open spec fn from_spec(v: bool) -> Self {
        if v {
            State::Unlocked
        } else {
            State::Locked
        }
    }
}

impl From<State> for bool {
    fn from(dlss: State) -> Self {
        match dlss {
            State::Unlocked => true,
            State::Locked => false,
        }
    }
}

impl vstd::std_specs::convert::FromSpecImpl<State> for bool {
    open spec fn obeys_from_spec() -> bool {
        true
    }

    /// `Unlocked` is open.
    open spec fn from_spec(v: State) -> bool {
        v == State::Unlocked
    }
}

/// Something that reports the lock switch.
pub trait StateTrait {
    fn state(&self) -> State;
}

/// The edges a pin interrupt can be set up for, as the GPIO driver names them.
#[derive(Debug, Clone, Copy, PartialEq, Eq, Structural)]
pub enum EdgeTrigger {
    Disabled,
    RisingEdge,
    FallingEdge,
    Both,
}

/// The state an interrupt reports: a rising edge is open, a falling edge is
/// closed, and any other trigger (which the driver does not deliver) is taken
/// as closed.
pub fn interrupt_state(trigger: EdgeTrigger) -> (r: bool)
    ensures
        r == (trigger == EdgeTrigger::RisingEdge),
{
    match trigger {
        EdgeTrigger::RisingEdge => true,
        EdgeTrigger::FallingEdge => false,
        _ => false,
    }
}

/// The switch state that a state file with `contents` gives: the trimmed text
/// must be `true` or `false`; anything else is no state.
pub open spec fn state_file_state(contents: Seq<char>) -> Option<State> {
    match parsed_bool(trimmed(contents)) {
        Some(b) => Some(<State as vstd::std_specs::convert::FromSpec<bool>>::from_spec(b)),
        None => None,
    }
}

/// Reads the simulated switch from the text of its state file. `None` where
/// the text, without surrounding whitespace, is neither `true` nor `false`.
pub fn parse_state_file(contents: &str) -> (r: Option<State>)
    ensures
        r == state_file_state(contents@),
{
    match parse_bool(trim(contents)) {
        Some(b) => Some(State::from(b)),
        None => None,
    }
}

/// The text a missing state file is created with: `false` and a newline, so
/// the switch reads `Locked`.
pub fn initial_state_file() -> (r: String)
    ensures
        r@ == "false\n"@,
        state_file_state(r@) == Some(State::Locked),
{
    let r = String::from_str("false\n");
    proof {
        reveal_strlit("false\n");
        reveal_strlit("false");
        reveal_strlit("true");
        assert("false"@.push('\n') =~= r@);
        lemma_trimmed_line("false"@);
    }
    r
}

/// What the simulated motor writes, the switch reads back: after a movement
/// towards `direction` the switch reports `Unlocked` for `Open` and `Locked`
/// for `Close`.
pub proof fn lemma_motor_line_read_back(direction: Direction)
    ensures
        state_file_state(crate::text::bool_word(direction == Direction::Open).push('\n')) == Some(
            <State as vstd::std_specs::convert::FromSpec<bool>>::from_spec(direction == Direction::Open),
        ),
        direction == Direction::Open ==> state_file_state(
            crate::text::bool_word(direction == Direction::Open).push('\n'),
        ) == Some(State::Unlocked),
        direction == Direction::Close ==> state_file_state(
            crate::text::bool_word(direction == Direction::Open).push('\n'),
        ) == Some(State::Locked),
{
    reveal_strlit("false");
    reveal_strlit("true");
    lemma_trimmed_line(crate::text::bool_word(direction == Direction::Open));
}

/// "Is open" and the switch state determine each other: converting either
/// way and back gives the value converted.
pub proof fn lemma_open_flag_round_trip(b: bool, s: State)
    ensures
        <bool as vstd::std_specs::convert::FromSpec<State>>::from_spec(
            <State as vstd::std_specs::convert::FromSpec<bool>>::from_spec(b),
        ) == b,
        <State as vstd::std_specs::convert::FromSpec<bool>>::from_spec(
            <bool as vstd::std_specs::convert::FromSpec<State>>::from_spec(s),
        ) == s,
{
}

/// What a state file reports is exactly the `bool` its trimmed text parses
/// to: the watcher that sends `bool::from` of the read state sends that
/// `bool`, and a file that reads as no state parses to no `bool`.
pub proof fn lemma_file_state_is_parsed_bool(contents: Seq<char>)
    ensures
        match state_file_state(contents) {
            Some(s) => parsed_bool(trimmed(contents)) == Some(
                <bool as vstd::std_specs::convert::FromSpec<State>>::from_spec(s),
            ),
            None => parsed_bool(trimmed(contents)) is None,
        },
{
}

/// How the switch's pin interrupt is set up.
#[derive(Debug, Clone, Copy, PartialEq, Eq, Structural)]
pub struct InterruptSetup {
    pub pin: u8,
    /// Whether the input's pull-up resistor is on.
    pub pull_up: bool,
    pub trigger: EdgeTrigger,
    /// How long edges are debounced, in milliseconds.
    pub debounce_millis: u64,
}

/// The switch's interrupt: the configured pin as an input with pull-up,
/// reporting both edges, debounced by the configured delay.
pub fn interrupt_setup(configuration: &Configuration) -> (r: InterruptSetup)
    ensures
        r == (InterruptSetup {
            pin: configuration.pin,
            pull_up: true,
            trigger: EdgeTrigger::Both,
            debounce_millis: configuration.interruptdelay,
        }),
{
    InterruptSetup {
        pin: configuration.pin,
        pull_up: true,
        trigger: EdgeTrigger::Both,
        debounce_millis: configuration.interruptdelay,
    }
}

/// A state file holding `true` with any whitespace around it (a trailing
/// newline, say) reads `Unlocked`; one holding `false` so reads `Locked`.
pub proof fn lemma_padded_words_read(p: Seq<char>, q: Seq<char>)
    requires
        crate::text::all_white_space(p),
        crate::text::all_white_space(q),
    ensures
        state_file_state(p + "true"@ + q) == Some(State::Unlocked),
        state_file_state(p + "false"@ + q) == Some(State::Locked),
{
    crate::text::lemma_padded_word_parses(p, q);
}

/// A state file reads a state only where it holds that state's word, `true`
/// for `Unlocked` and `false` for `Locked`, with whitespace around it; any
/// other text reads as no state.
pub proof fn lemma_reads_only_padded_words(contents: Seq<char>)
    ensures
        state_file_state(contents) == Some(State::Unlocked) ==> exists|p: Seq<char>, q: Seq<char>|
            crate::text::all_white_space(p) && crate::text::all_white_space(q) && contents == p
                + "true"@ + q,
        state_file_state(contents) == Some(State::Locked) ==> exists|p: Seq<char>, q: Seq<char>|
            crate::text::all_white_space(p) && crate::text::all_white_space(q) && contents == p
                + "false"@ + q,
{
    crate::text::lemma_parsed_only_padded_word(contents);
}

} // verus!
