//! Read-only projections of the registry: which services an `open` or a
//! `close` may legally target, and the full annotated listing. Every
//! projection preserves registry order and leaves the registry untouched.

use vstd::prelude::*;

use crate::registry::ServiceInfo;
use crate::registry::ServiceRegistry;
use crate::registry::ServiceView;
use crate::state::State;
use crate::state::can_close;
use crate::state::can_open;

verus! {

/// The predicate the open-eligibility view filters by.
pub open spec fn open_pred() -> spec_fn(ServiceView) -> bool {
    |v: ServiceView| can_open(v.state)
}

/// The predicate the close-eligibility view filters by.
pub open spec fn close_pred() -> spec_fn(ServiceView) -> bool {
    |v: ServiceView| can_close(v.state)
}

/// The records an `open` may legally target, in registry order.
pub open spec fn open_eligible(s: Seq<ServiceView>) -> Seq<ServiceView> {
    s.filter(open_pred())
}

/// The records a `close` may legally target, in registry order.
pub open spec fn close_eligible(s: Seq<ServiceView>) -> Seq<ServiceView> {
    s.filter(close_pred())
}

/// The services eligible to open: those not `Running`, `StartPending` or
/// `ContinuePending`, in registry order.
pub fn eligible_to_open(reg: &ServiceRegistry) -> (r: Vec<ServiceInfo>)
    ensures
        r.deep_view() == open_eligible(reg@),
{
    let all_services = reg.list();
    let n = all_services.len();
    let mut out: Vec<ServiceInfo> = Vec::new();
    for i in 0..n
        invariant
            n == all_services@.len(),
            all_services.deep_view() == reg@,
            out.deep_view() =~= open_eligible(reg@.take(i as int)),
    {
        let s = all_services[i].state;
        if !(s == State::Running || s == State::StartPending || s == State::ContinuePending) {
            out.push(all_services[i].clone());
        }
        proof {
            let prev = reg@.take(i as int);
            let v = reg@[i as int];
            prev.lemma_filter_push(v, open_pred());
            assert(reg@.take(i as int + 1) =~= prev.push(v));
        }
        assert(out.deep_view() =~= open_eligible(reg@.take(i as int + 1)));
    }
    proof {
        assert(reg@.take(n as int) =~= reg@);
    }
    out
}

/// The services eligible to close: exactly those currently `Running`, in
/// registry order.
pub fn eligible_to_close(reg: &ServiceRegistry) -> (r: Vec<ServiceInfo>)
    ensures
        r.deep_view() == close_eligible(reg@),
{
    let all_services = reg.list();
    let n = all_services.len();
    let mut out: Vec<ServiceInfo> = Vec::new();
    for i in 0..n
        invariant
            n == all_services@.len(),
            all_services.deep_view() == reg@,
            out.deep_view() =~= close_eligible(reg@.take(i as int)),
    {
        let s = all_services[i].state;
        if s == State::Running {
            out.push(all_services[i].clone());
        }
        proof {
            let prev = reg@.take(i as int);
            let v = reg@[i as int];
            prev.lemma_filter_push(v, close_pred());
            assert(reg@.take(i as int + 1) =~= prev.push(v));
        }
        assert(out.deep_view() =~= close_eligible(reg@.take(i as int + 1)));
    }
    proof {
        assert(reg@.take(n as int) =~= reg@);
    }
    out
}

/// Every record, in registry order, each carrying its plain state tag; any
/// formatting is the presentation layer's concern.
pub fn all(reg: &ServiceRegistry) -> (r: Vec<ServiceInfo>)
    ensures
        r.deep_view() == reg@,
{
    reg.list()
}

/// Law: the open-eligibility view never includes a service that is
/// currently `Running`.
pub proof fn lemma_eligible_to_open_excludes_running(s: Seq<ServiceView>)
    ensures
        forall|j: int|
            0 <= j < open_eligible(s).len() ==> (#[trigger] open_eligible(s)[j]).state
                != State::Running,
{
    broadcast use vstd::seq_lib::group_filter_ensures;

}

/// Law: the close-eligibility view contains only services that are
/// currently `Running`.
pub proof fn lemma_eligible_to_close_only_running(s: Seq<ServiceView>)
    ensures
        forall|j: int|
            0 <= j < close_eligible(s).len() ==> (#[trigger] close_eligible(s)[j]).state
                == State::Running,
{
    broadcast use vstd::seq_lib::group_filter_ensures;

}

} // verus!
