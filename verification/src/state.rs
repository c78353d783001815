//! The closed set of lifecycle states a service can be in, and the
//! predicates that say from which states `open` and `close` are legal.

use vstd::prelude::*;

verus! {

/// Lifecycle state of a service. The set is closed: no other state is
/// representable.
#[derive(Clone, Copy, Debug, PartialEq, Eq, Structural)]
pub enum State {
    Stopped,
    StartPending,
    Running,
    PausePending,
    Paused,
    ContinuePending,
    StopPending,
}

/// `open` is legal exactly when the service is not already running or on
/// its way to running.
pub open spec fn can_open(s: State) -> bool {
    !(s == State::Running || s == State::StartPending || s == State::ContinuePending)
}

/// `close` is legal exactly when the service is currently running.
pub open spec fn can_close(s: State) -> bool {
    s == State::Running
}

/// Law: every value of `State` is one of the seven enumerated lifecycle
/// states; no invalid or unknown state is reachable.
pub proof fn lemma_state_is_enumerated(s: State)
    ensures
        s == State::Stopped || s == State::StartPending || s == State::Running
            || s == State::PausePending || s == State::Paused || s == State::ContinuePending
            || s == State::StopPending,
{
}

} // verus!
