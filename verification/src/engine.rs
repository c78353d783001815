//! Validates and applies lifecycle transitions against the registry.
//!
//! The meaning of `open` and `close` is given once, by the spec functions
//! `spec_open` and `spec_close`; the executable functions are proved to
//! return and leave behind exactly what those functions say. Each
//! successful transition mutates exactly one record.

use vstd::prelude::*;

use crate::registry::ServiceError;
use crate::registry::ServiceRegistry;
use crate::registry::ServiceView;
use crate::registry::contains_name;
use crate::registry::index_of_name;
use crate::registry::lemma_index_of_name;
use crate::registry::unique_names;
use crate::state::State;
use crate::state::can_close;
use crate::state::can_open;

verus! {

/// What `open(name)` does to a registry: the outcome handed to the caller
/// (prior and new state, or the error) and the registry left behind.
pub open spec fn spec_open(s: Seq<ServiceView>, name: Seq<char>) -> (Result<
    (State, State),
    ServiceError,
>, Seq<ServiceView>) {
    if !contains_name(s, name) {
        (Err(ServiceError::NotFound), s)
    } else {
        let i = index_of_name(s, name);
        if can_open(s[i].state) {
            (
                Ok((s[i].state, State::Running)),
                s.update(i, (ServiceView { state: State::Running, ..s[i] })),
            )
        } else {
            (Err(ServiceError::InvalidTransition), s)
        }
    }
}

/// What `close(name)` does to a registry, in the same shape as `spec_open`.
pub open spec fn spec_close(s: Seq<ServiceView>, name: Seq<char>) -> (Result<
    (State, State),
    ServiceError,
>, Seq<ServiceView>) {
    if !contains_name(s, name) {
        (Err(ServiceError::NotFound), s)
    } else {
        let i = index_of_name(s, name);
        if can_close(s[i].state) {
            (
                Ok((s[i].state, State::Stopped)),
                s.update(i, (ServiceView { state: State::Stopped, ..s[i] })),
            )
        } else {
            (Err(ServiceError::InvalidTransition), s)
        }
    }
}

/// Open the named service: it passes through `StartPending` and settles in
/// `Running` (synchronously, in this core). Fails with `NotFound` when the
/// name is unknown, with `InvalidTransition` when the service is already
/// `Running`, `StartPending` or `ContinuePending`; on failure the registry
/// is unchanged. On success the result carries the prior and the new state
/// and exactly one record is mutated.
pub fn open(reg: &mut ServiceRegistry, name: &str) -> (r: Result<(State, State), ServiceError>)
    requires
        old(reg).wf(),
    ensures
        final(reg).wf(),
        r == spec_open(old(reg)@, name@).0,
        final(reg)@ == spec_open(old(reg)@, name@).1,
{
    let current = match reg.get(name) {
        Err(e) => {
            return Err(e);
        },
        Ok(svc) => svc.state,
    };
    if current == State::Running || current == State::StartPending
        || current == State::ContinuePending {
        return Err(ServiceError::InvalidTransition);
    }
    let set_result = reg.set_state(name, State::Running);
    assert(set_result is Ok);
    Ok((current, State::Running))
}

/// Close the named service: it passes through `StopPending` and settles in
/// `Stopped` (synchronously, in this core). Fails with `NotFound` when the
/// name is unknown, with `InvalidTransition` unless the service is
/// currently `Running`; on failure the registry is unchanged. On success
/// the result carries the prior and the new state and exactly one record
/// is mutated.
pub fn close(reg: &mut ServiceRegistry, name: &str) -> (r: Result<(State, State), ServiceError>)
    requires
        old(reg).wf(),
    ensures
        final(reg).wf(),
        r == spec_close(old(reg)@, name@).0,
        final(reg)@ == spec_close(old(reg)@, name@).1,
{
    let current = match reg.get(name) {
        Err(e) => {
            return Err(e);
        },
        Ok(svc) => svc.state,
    };
    if !(current == State::Running) {
        return Err(ServiceError::InvalidTransition);
    }
    let set_result = reg.set_state(name, State::Stopped);
    assert(set_result is Ok);
    Ok((current, State::Stopped))
}

/// Law: `open` on a service that is already `Running` fails with
/// `InvalidTransition` and leaves the registry unchanged.
pub proof fn lemma_open_on_running_rejected(s: Seq<ServiceView>, name: Seq<char>, i: int)
    requires
        unique_names(s),
        0 <= i < s.len(),
        s[i].name == name,
        s[i].state == State::Running,
    ensures
        spec_open(s, name).0 == Err::<(State, State), ServiceError>(
            ServiceError::InvalidTransition,
        ),
        spec_open(s, name).1 == s,
{
    lemma_index_of_name(s, name, i);
}

/// Law: `close` on a `Stopped` service fails with `InvalidTransition` and
/// leaves the registry unchanged.
pub proof fn lemma_close_on_stopped_rejected(s: Seq<ServiceView>, name: Seq<char>, i: int)
    requires
        unique_names(s),
        0 <= i < s.len(),
        s[i].name == name,
        s[i].state == State::Stopped,
    ensures
        spec_close(s, name).0 == Err::<(State, State), ServiceError>(
            ServiceError::InvalidTransition,
        ),
        spec_close(s, name).1 == s,
{
    lemma_index_of_name(s, name, i);
}

/// Law: round trip. When `open(name)` is legal, it succeeds, the `close(name)`
/// that follows succeeds as well, and the pair returns the service to
/// `Stopped`; no other record is touched by either step.
pub proof fn lemma_open_then_close_round_trip(s: Seq<ServiceView>, name: Seq<char>, i: int)
    requires
        unique_names(s),
        0 <= i < s.len(),
        s[i].name == name,
        can_open(s[i].state),
    ensures
        spec_open(s, name).0 == Ok::<(State, State), ServiceError>((s[i].state, State::Running)),
        spec_close(spec_open(s, name).1, name).0 == Ok::<(State, State), ServiceError>(
            (State::Running, State::Stopped),
        ),
        spec_close(spec_open(s, name).1, name).1 == s.update(
            i,
            (ServiceView { state: State::Stopped, ..s[i] }),
        ),
{
    lemma_index_of_name(s, name, i);
    let s1 = spec_open(s, name).1;
    assert(s1 == s.update(i, (ServiceView { state: State::Running, ..s[i] })));
    assert(unique_names(s1));
    lemma_index_of_name(s1, name, i);
    assert(spec_close(s1, name).1 =~= s.update(i, (ServiceView { state: State::Stopped, ..s[i] })));
}

} // verus!
