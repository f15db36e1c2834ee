//! The services that are told when the lock switch changes.
use vstd::prelude::*;

verus! {

/// A service that is told the lock switch's state (`true` is open).
pub trait Notifier: Sized {
    type Configuration;

    #[must_use]
    fn new_with_configuration(configuration: &Self::Configuration) -> Self;

    fn notify(&self, state: bool);
}

/// Where a notification stands.
#[derive(Debug, Clone, Copy, PartialEq, Eq, Structural)]
pub enum NotifierState {
    Setting,
    Succeeded,
    Failed,
}

} // verus!
