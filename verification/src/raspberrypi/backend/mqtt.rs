//! The MQTT notifier: it publishes `open` or `closed` as a retained message
//! whenever the lock switch changes, and keeps its broker connection alive,
//! retrying with backoff after connection errors.
pub mod configuration;

use vstd::prelude::*;
use vstd::string::*;

use self::configuration::Mqtt;
use crate::raspberrypi::backend::spaceapi::{status_text, status_word};

verus! {

/// The topic the lock switch state is published under.
pub fn topic() -> (r: String)
    ensures
        r@ == "gleis0/nerdschloss/lockswitch"@,
{
    String::from_str("gleis0/nerdschloss/lockswitch")
}

/// The client id the notifier connects with.
pub fn client_id() -> (r: String)
    ensures
        r@ == "nerdschloss"@,
{
    String::from_str("nerdschloss")
}

/// How many requests the client queues before senders wait.
pub const REQUEST_CAPACITY: usize = 10;

/// The message published for a lock switch state: `open` or `closed`.
pub fn payload(state: bool) -> (r: String)
    ensures
        r@ == status_word(state),
{
    status_text(state)
}

/// How often the broker is to deliver a message.
#[derive(Debug, Clone, Copy, PartialEq, Eq, Structural)]
pub enum QualityOfService {
    AtMostOnce,
    AtLeastOnce,
    ExactlyOnce,
}

/// The flags of a publish.
#[derive(Debug, Clone, Copy, PartialEq, Eq, Structural)]
pub struct PublishOptions {
    pub qos: QualityOfService,
    /// Whether the broker keeps the message for later subscribers.
    pub retain: bool,
}

/// The lock switch state is published exactly once and retained, so a new
/// subscriber learns the current state at once.
pub fn publish_options() -> (r: PublishOptions)
    ensures
        r == (PublishOptions { qos: QualityOfService::ExactlyOnce, retain: true }),
{
    PublishOptions { qos: QualityOfService::ExactlyOnce, retain: true }
}

/// How randomness widens the waits between reconnects.
#[derive(Debug, Clone, Copy, PartialEq, Eq, Structural)]
pub enum BackoffJitter {
    /// No jitter.
    NoJitter,
    /// Anywhere between 0 and the computed wait.
    Full,
    /// Between half the shortest wait and the computed wait.
    Bounded,
}

/// The exponential backoff between reconnects to the broker.
#[derive(Debug, Clone, Copy, PartialEq, Eq, Structural)]
pub struct ReconnectBackoff {
    /// The shortest wait, in seconds.
    pub min_retry_secs: u64,
    /// The longest wait, in seconds.
    pub max_retry_secs: u64,
    /// The factor by which the wait grows per attempt.
    pub base: u32,
    pub jitter: BackoffJitter,
    /// How long after the first connection reconnects are tried at all, in
    /// seconds.
    pub total_retry_secs: u64,
}

/// The reconnect backoff: waits from 1 s up to 60 s, growing by a factor of 2
/// with bounded jitter, tried for 60·60·24·7·365 seconds after the start.
pub fn reconnect_backoff() -> (r: ReconnectBackoff)
    ensures
        r == (ReconnectBackoff {
            min_retry_secs: 1,
            max_retry_secs: 60,
            base: 2,
            jitter: BackoffJitter::Bounded,
            total_retry_secs: (60 * 60 * 24 * 7 * 365) as u64,
        }),
        r.min_retry_secs <= r.max_retry_secs,
{
    ReconnectBackoff {
        min_retry_secs: 1,
        max_retry_secs: 60,
        base: 2,
        jitter: BackoffJitter::Bounded,
        total_retry_secs: 60 * 60 * 24 * 7 * 365,
    }
}

/// The state handed to the publisher when the lock switch reports `state`:
/// nothing where MQTT is disabled.
pub fn publish_state(configuration: &Mqtt, state: bool) -> (r: Option<bool>)
    ensures
        r == (if configuration.enable { Some(state) } else { None }),
{
    if configuration.enable {
        Some(state)
    } else {
        None
    }
}

/// What the connection loop learned.
#[derive(Debug, Clone, Copy, PartialEq, Eq, Structural)]
pub enum PollEvent {
    /// The connection delivered an event.
    Polled,
    /// The connection failed.
    Failed,
    /// The retry policy allows another attempt (at a time it names).
    Retry,
    /// The retry policy gives up.
    DoNotRetry,
}

/// What the connection loop does next.
#[derive(Debug, Clone, Copy, PartialEq, Eq, Structural)]
pub enum PollAction {
    /// Poll the connection for its next event.
    Poll,
    /// Ask the retry policy, telling it the number of failed attempts.
    AskPolicy(u32),
    /// Wait until the time the policy named, then poll again.
    WaitThenPoll,
    /// End the loop.
    Stop,
}

/// The loop's state and action after `event`, where `attempts` counts the
/// retries since the connection last delivered an event.
pub open spec fn poll_next(attempts: u32, event: PollEvent) -> (u32, PollAction) {
    match event {
        PollEvent::Polled => (0, PollAction::Poll),
        PollEvent::Failed => (attempts, PollAction::AskPolicy(attempts)),
        PollEvent::Retry => ((attempts + 1) as u32, PollAction::WaitThenPoll),
        PollEvent::DoNotRetry => (attempts, PollAction::Stop),
    }
}

/// The decisions of the broker connection loop.
pub struct ConnectionLoop {
    attempts: u32,
}

impl View for ConnectionLoop {
    type V = u32;

    /// The retries since the connection last delivered an event.
    closed spec fn view(&self) -> u32 {
        self.attempts
    }
}

impl ConnectionLoop {
    /// A loop that has not retried yet; it starts by polling.
    pub fn new() -> (r: Self)
        ensures
            r@ == 0,
    {
        ConnectionLoop { attempts: 0 }
    }

    /// The retries since the connection last delivered an event.
    pub fn attempts(&self) -> (r: u32)
        ensures
            r == self@,
    {
        self.attempts
    }

    /// Takes what happened and answers what to do next: an event resets the
    /// count and polls on; a failure asks the retry policy with the count; an
    /// allowed retry counts one more attempt and polls again after the wait;
    /// a refused retry ends the loop. A retry needs a count below `u32::MAX`.
    pub fn step(&mut self, event: PollEvent) -> (action: PollAction)
        requires
            event == PollEvent::Retry ==> old(self)@ < u32::MAX,
        ensures
            (final(self)@, action) == poll_next(old(self)@, event),
    {
        match event {
            PollEvent::Polled => {
                self.attempts = 0;
                PollAction::Poll
            },
            PollEvent::Failed => PollAction::AskPolicy(self.attempts),
            PollEvent::Retry => {
                self.attempts = self.attempts + 1;
                PollAction::WaitThenPoll
            },
            PollEvent::DoNotRetry => PollAction::Stop,
        }
    }
}

/// The connection loop keeps going until the retry policy gives up: a
/// failure always hands the current count of retries to the policy, an event
/// resets the count and polls on, an allowed retry counts one more and waits,
/// and the loop stops exactly when the policy refuses.
pub proof fn lemma_loop_stops_only_when_policy_refuses(attempts: u32, event: PollEvent)
    ensures
        poll_next(attempts, PollEvent::Failed) == (attempts, PollAction::AskPolicy(attempts)),
        poll_next(attempts, PollEvent::Polled) == (0u32, PollAction::Poll),
        attempts < u32::MAX ==> poll_next(attempts, PollEvent::Retry) == ((attempts + 1) as u32,
        PollAction::WaitThenPoll),
        poll_next(attempts, PollEvent::DoNotRetry) == (attempts, PollAction::Stop),
        (poll_next(attempts, event).1 == PollAction::Stop) <==> (event == PollEvent::DoNotRetry),
{
}

} // verus!
