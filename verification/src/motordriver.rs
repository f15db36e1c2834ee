//! The motor driver of the first prototype: it takes open and close commands
//! from a channel and moves the bolt. Commands that queue up while the motor
//! runs are collapsed: only the newest one counts. The motor only moves when
//! the bolt is not already where the command wants it.
//!
//! `Stepper` holds the driver's decisions; the loop that receives from the
//! channel and runs the motor feeds it what the channel handed over and does
//! what it answers.
use vstd::prelude::*;

verus! {

/// An open or close command.
#[derive(Debug, Clone, Copy, PartialEq, Eq, Structural)]
pub enum Direction {
    Open,
    Close,
}

/// What a receive from the command channel gave.
#[derive(Debug, Clone, Copy, PartialEq, Eq, Structural)]
pub enum Received {
    /// A command.
    Message(Direction),
    /// No command is queued (only a non-blocking receive reports this).
    Empty,
    /// All senders are gone.
    Disconnected,
}

/// What the driver does next.
#[derive(Debug, Clone, Copy, PartialEq, Eq, Structural)]
pub enum StepperAction {
    /// Block until the next command arrives.
    WaitForMessage,
    /// Take the next queued command without blocking.
    PollForMore,
    /// Run the motor towards the direction, then block for the next command.
    Move(Direction),
    /// Stop the driver.
    Stop,
}

/// The driver's memory: whether the bolt is open, and the newest command of
/// the batch being collected.
#[derive(Debug, Clone, Copy, PartialEq, Eq, Structural)]
pub struct StepperView {
    pub is_open: bool,
    pub pending: Option<Direction>,
}

/// The driver's state and action after `received`.
pub open spec fn next(s: StepperView, received: Received) -> (StepperView, StepperAction) {
    match received {
        Received::Disconnected => (s, StepperAction::Stop),
        Received::Message(m) => (StepperView { pending: Some(m), ..s }, StepperAction::PollForMore),
        Received::Empty => match s.pending {
            None => (s, StepperAction::WaitForMessage),
            Some(Direction::Open) => if !s.is_open {
                (StepperView { is_open: true, pending: None }, StepperAction::Move(Direction::Open))
            } else {
                (StepperView { is_open: s.is_open, pending: None }, StepperAction::WaitForMessage)
            },
            Some(Direction::Close) => if s.is_open {
                (StepperView { is_open: false, pending: None }, StepperAction::Move(Direction::Close))
            } else {
                (StepperView { is_open: s.is_open, pending: None }, StepperAction::WaitForMessage)
            },
        },
    }
}

/// The state after the commands `ms` arrived one after the other.
pub open spec fn feed(s: StepperView, ms: Seq<Direction>) -> StepperView
    decreases ms.len(),
{
    if ms.len() == 0 {
        s
    } else {
        next(feed(s, ms.drop_last()), Received::Message(ms.last())).0
    }
}

/// The motor driver's decisions.
pub struct Stepper {
    is_open: bool,
    pending: Option<Direction>,
}

impl View for Stepper {
    type V = StepperView;

    closed spec fn view(&self) -> StepperView {
        StepperView { is_open: self.is_open, pending: self.pending }
    }
}

impl Stepper {
    /// A driver for a closed bolt with no command collected; it starts by
    /// waiting for a command.
    pub fn new() -> (r: Self)
        ensures
            r@ == (StepperView { is_open: false, pending: None }),
    {
        Stepper { is_open: false, pending: None }
    }

    /// Whether the bolt is open.
    pub fn is_open(&self) -> (r: bool)
        ensures
            r == self@.is_open,
    {
        self.is_open
    }

    /// Takes what a receive gave and answers what to do next: a command is
    /// collected and more are polled for; once the queue is empty the newest
    /// command moves the motor if the bolt is elsewhere; a disconnected
    /// channel stops the driver.
    pub fn step(&mut self, received: Received) -> (action: StepperAction)
        ensures
            (final(self)@, action) == next(old(self)@, received),
    {
        match received {
            Received::Disconnected => StepperAction::Stop,
            Received::Message(m) => {
                self.pending = Some(m);
                StepperAction::PollForMore
            },
            Received::Empty => match self.pending {
                None => StepperAction::WaitForMessage,
                Some(Direction::Open) => {
                    self.pending = None;
                    if !self.is_open {
                        self.is_open = true;
                        StepperAction::Move(Direction::Open)
                    } else {
                        StepperAction::WaitForMessage
                    }
                },
                Some(Direction::Close) => {
                    self.pending = None;
                    if self.is_open {
                        self.is_open = false;
                        StepperAction::Move(Direction::Close)
                    } else {
                        StepperAction::WaitForMessage
                    }
                },
            },
        }
    }
}

/// The motor only moves towards the side the bolt is not on, and afterwards
/// the bolt is on that side; a batch is done (nothing pending) whenever the
/// driver moves or goes back to waiting after an empty queue.
pub proof fn lemma_moves_only_when_needed(s: StepperView, received: Received)
    ensures
        ({
            let (t, action) = next(s, received);
            &&& action == StepperAction::Move(Direction::Open) ==> !s.is_open && t.is_open
            &&& action == StepperAction::Move(Direction::Close) ==> s.is_open && !t.is_open
            &&& (action is Move || (received == Received::Empty && action
                == StepperAction::WaitForMessage)) ==> t.pending is None
            &&& !(action is Move) ==> t.is_open == s.is_open
        }),
{
}

/// Only the newest queued command counts: after a batch of commands the
/// driver holds the last of them and the bolt has not moved, so the batch
/// acts as its last command alone.
pub proof fn lemma_batch_keeps_newest(s: StepperView, ms: Seq<Direction>)
    requires
        ms.len() > 0,
    ensures
        feed(s, ms) == feed(s, seq![ms.last()]),
        feed(s, ms).pending == Some(ms.last()),
        feed(s, ms).is_open == s.is_open,
    decreases ms.len(),
{
    if ms.len() > 1 {
        lemma_batch_keeps_newest(s, ms.drop_last());
    }
    let single = seq![ms.last()];
    assert(single.drop_last() =~= Seq::<Direction>::empty());
    assert(feed(s, single.drop_last()) == s);
    assert(feed(s, single) == (StepperView { pending: Some(ms.last()), ..s }));
    assert(feed(s, ms.drop_last()).is_open == s.is_open);
}

/// A command repeated in a later batch moves nothing: once a batch ending in
/// `m` is handled, another batch ending in `m` leaves the bolt where it is.
pub proof fn lemma_repeated_command_is_idle(s: StepperView, first: Seq<Direction>, second: Seq<Direction>)
    requires
        first.len() > 0,
        second.len() > 0,
        first.last() == second.last(),
    ensures
        ({
            let (t, _) = next(feed(s, first), Received::Empty);
            let (u, action) = next(feed(t, second), Received::Empty);
            &&& action == StepperAction::WaitForMessage
            &&& u == t
        }),
{
    lemma_batch_keeps_newest(s, first);
    let (t, _) = next(feed(s, first), Received::Empty);
    lemma_batch_keeps_newest(t, second);
}

/// A received command never ends or pauses a batch: the driver keeps it as
/// the newest command, leaves the bolt alone and polls for more.
pub proof fn lemma_message_continues_batch(s: StepperView, m: Direction)
    ensures
        next(s, Received::Message(m)) == (StepperView { is_open: s.is_open, pending: Some(m) },
        StepperAction::PollForMore),
{
}

/// The driver stops exactly when the channel is disconnected, and a stop
/// changes nothing.
pub proof fn lemma_stops_only_on_disconnect(s: StepperView, received: Received)
    ensures
        (next(s, received).1 == StepperAction::Stop) <==> (received == Received::Disconnected),
        received == Received::Disconnected ==> next(s, received).0 == s,
{
}

/// When the queue runs empty the newest command is settled: the motor moves
/// towards it exactly when the bolt is on the other side, the bolt then is on
/// the commanded side, and the batch is cleared; with no command collected the
/// driver just waits.
pub proof fn lemma_empty_queue_settles(s: StepperView)
    ensures
        s.pending matches Some(m) ==> {
            let (t, action) = next(s, Received::Empty);
            &&& t.pending is None
            &&& t.is_open == (m == Direction::Open)
            &&& (action == StepperAction::Move(m)) == ((m == Direction::Open) != s.is_open)
            &&& (action == StepperAction::WaitForMessage) == ((m == Direction::Open) == s.is_open)
        },
        s.pending is None ==> next(s, Received::Empty) == (s, StepperAction::WaitForMessage),
{
}

} // verus!
