//! The authoritative in-memory store of known services. It maps unique
//! service names to their records, keeps insertion order for listing, and
//! performs no transition validation of its own.

use vstd::prelude::*;

use crate::state::State;

verus! {

/// Why a registry operation failed. Both kinds are recoverable; no
/// operation of this crate panics on bad input.
#[derive(Clone, Copy, Debug, PartialEq, Eq, Structural)]
pub enum ServiceError {
    /// The given service name is not in the registry.
    NotFound,
    /// The requested operation is illegal from the service's current state.
    InvalidTransition,
}

/// One service record: unique name, human-readable label, current state.
#[derive(Debug)]
pub struct ServiceInfo {
    pub name: String,
    pub display_name: String,
    pub state: State,
}

/// The mathematical image of a `ServiceInfo`: its strings as character
/// sequences, its state as is.
pub ghost struct ServiceView {
    pub name: Seq<char>,
    pub display_name: Seq<char>,
    pub state: State,
}

impl View for ServiceInfo {
    type V = ServiceView;

    open spec fn view(&self) -> ServiceView {
        ServiceView { name: self.name@, display_name: self.display_name@, state: self.state }
    }
}

impl DeepView for ServiceInfo {
    type V = ServiceView;

    open spec fn deep_view(&self) -> ServiceView {
        self@
    }
}

impl Clone for ServiceInfo {
    fn clone(&self) -> (r: Self)
        ensures
            r@ == self@,
    {
        ServiceInfo {
            name: self.name.clone(),
            display_name: self.display_name.clone(),
            state: self.state,
        }
    }
}

impl ServiceInfo {
    /// Build a record from its parts.
    pub fn new(name: &str, display_name: &str, state: State) -> (r: Self)
        ensures
            r@ == (ServiceView { name: name@, display_name: display_name@, state }),
    {
        ServiceInfo { name: name.to_owned(), display_name: display_name.to_owned(), state }
    }
}

/// No two records share a name.
pub open spec fn unique_names(s: Seq<ServiceView>) -> bool {
    forall|i: int, j: int|
        0 <= i < s.len() && 0 <= j < s.len() && i != j ==> s[i].name != s[j].name
}

/// Some record carries this name.
pub open spec fn contains_name(s: Seq<ServiceView>, name: Seq<char>) -> bool {
    exists|i: int| 0 <= i < s.len() && s[i].name == name
}

/// The position of the record with this name (meaningful when
/// `contains_name` holds and names are unique).
pub open spec fn index_of_name(s: Seq<ServiceView>, name: Seq<char>) -> int {
    choose|i: int| 0 <= i < s.len() && s[i].name == name
}

/// With unique names, the record found at a position is the one
/// `index_of_name` designates.
pub proof fn lemma_index_of_name(s: Seq<ServiceView>, name: Seq<char>, i: int)
    requires
        unique_names(s),
        0 <= i < s.len(),
        s[i].name == name,
    ensures
        contains_name(s, name),
        index_of_name(s, name) == i,
{
    assert(contains_name(s, name));
    let j = index_of_name(s, name);
    assert(0 <= j < s.len() && s[j].name == name);
    if i != j {
        assert(s[i].name != s[j].name);
    }
}

/// The store itself: an ordered list of records with pairwise-distinct
/// names.
pub struct ServiceRegistry {
    services: Vec<ServiceInfo>,
}

impl View for ServiceRegistry {
    type V = Seq<ServiceView>;

    closed spec fn view(&self) -> Seq<ServiceView> {
        self.services.deep_view()
    }
}

impl ServiceRegistry {
    /// The registry is well formed when its service names are unique.
    pub open spec fn wf(&self) -> bool {
        unique_names(self@)
    }

    /// An empty registry.
    pub fn new() -> (r: Self)
        ensures
            r@ =~= Seq::<ServiceView>::empty(),
            r.wf(),
    {
        ServiceRegistry { services: Vec::new() }
    }

    /// How many services are registered.
    pub fn len(&self) -> (r: usize)
        ensures
            r == self@.len(),
    {
        self.services.len()
    }

    /// Append a service to the registry. Returns `false` and leaves the
    /// registry unchanged when the name is already taken, `true` when the
    /// record was added at the end.
    pub fn register(&mut self, svc: ServiceInfo) -> (r: bool)
        requires
            old(self).wf(),
        ensures
            final(self).wf(),
            contains_name(old(self)@, svc@.name) ==> !r && final(self)@ == old(self)@,
            !contains_name(old(self)@, svc@.name) ==> r && final(self)@ =~= old(self)@.push(svc@),
    {
        if self.find_index(svc.name.as_str()).is_some() {
            return false;
        }
        self.services.push(svc);
        assert(self@ =~= old(self)@.push(svc@));
        true
    }

    /// The position of the record with this name, if any.
    pub fn find_index(&self, name: &str) -> (r: Option<usize>)
        requires
            self.wf(),
        ensures
            r is Some <==> contains_name(self@, name@),
            r matches Some(i) ==> 0 <= i < self@.len() && self@[i as int].name == name@
                && index_of_name(self@, name@) == i,
    {
        let key: String = name.to_owned();
        let n = self.services.len();
        for i in 0..n
            invariant
                n == self@.len(),
                key@ == name@,
                self.wf(),
                forall|j: int| 0 <= j < i ==> self@[j].name != name@,
        {
            if self.services[i].name == key {
                proof {
                    lemma_index_of_name(self@, name@, i as int);
                }
                return Some(i);
            }
        }
        None
    }

    /// Look a service up by name: its record, or `NotFound`.
    pub fn get(&self, name: &str) -> (r: Result<ServiceInfo, ServiceError>)
        requires
            self.wf(),
        ensures
            r matches Ok(svc) ==> contains_name(self@, name@)
                && svc@ == self@[index_of_name(self@, name@)],
            r matches Err(e) ==> e == ServiceError::NotFound && !contains_name(self@, name@),
    {
        match self.find_index(name) {
            Some(i) => Ok(self.services[i].clone()),
            None => Err(ServiceError::NotFound),
        }
    }

    /// All records, in registration order.
    pub fn list(&self) -> (r: Vec<ServiceInfo>)
        ensures
            r.deep_view() =~= self@,
    {
        let n = self.services.len();
        let mut out: Vec<ServiceInfo> = Vec::new();
        for i in 0..n
            invariant
                n == self@.len(),
                out@.len() == i,
                out.deep_view() =~= self@.take(i as int),
        {
            out.push(self.services[i].clone());
            assert(out.deep_view() =~= self@.take(i as int + 1));
        }
        assert(self@.take(n as int) =~= self@);
        out
    }

    /// Overwrite the state of the named service; `NotFound` when no record
    /// carries the name. No other record is touched.
    pub fn set_state(&mut self, name: &str, new_state: State) -> (r: Result<(), ServiceError>)
        requires
            old(self).wf(),
        ensures
            final(self).wf(),
            r matches Ok(()) ==> contains_name(old(self)@, name@)
                && final(self)@ =~= old(self)@.update(
                    index_of_name(old(self)@, name@),
                    (ServiceView { state: new_state, ..old(self)@[index_of_name(old(self)@, name@)] }),
                ),
            r matches Err(e) ==> e == ServiceError::NotFound
                && !contains_name(old(self)@, name@) && final(self)@ == old(self)@,
    {
        match self.find_index(name) {
            Some(i) => {
                self.services[i].state = new_state;
                assert(self@ =~= old(self)@.update(
                    i as int,
                    (ServiceView { state: new_state, ..old(self)@[i as int] }),
                ));
                Ok(())
            },
            None => Err(ServiceError::NotFound),
        }
    }
}

} // verus!
