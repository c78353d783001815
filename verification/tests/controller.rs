use service_ctl::engine;
use service_ctl::query;
use service_ctl::ServiceError;
use service_ctl::ServiceInfo;
use service_ctl::ServiceRegistry;
use service_ctl::State;

fn seed_nine() -> ServiceRegistry {
    let mut reg = ServiceRegistry::new();
    let seed = vec![
        ("Service1", "Service 1", State::ContinuePending),
        ("Service2", "Service 2", State::Paused),
        ("Service3", "Service 3", State::PausePending),
        ("Service4", "Service 4", State::Running),
        ("Service5", "Service 5", State::StartPending),
        ("Service6", "Service 6", State::StopPending),
        ("Service7", "Service 7", State::Stopped),
        ("Service8", "Service 8", State::Running),
        ("Service9", "Service 9", State::Running),
    ];
    for (name, label, state) in seed {
        assert!(reg.register(ServiceInfo::new(name, label, state)));
    }
    reg
}

#[test]
fn new_builds_the_record() {
    let svc = ServiceInfo::new("Service1", "Service 1", State::Paused);
    assert_eq!(svc.name, "Service1");
    assert_eq!(svc.display_name, "Service 1");
    assert_eq!(svc.state, State::Paused);
}

#[test]
fn register_rejects_duplicate_names() {
    let mut reg = ServiceRegistry::new();
    assert!(reg.register(ServiceInfo::new("Service1", "Service 1", State::Stopped)));
    assert!(!reg.register(ServiceInfo::new("Service1", "Another label", State::Running)));
    assert_eq!(reg.len(), 1);
    let svc = reg.get("Service1").unwrap();
    assert_eq!(svc.display_name, "Service 1");
    assert_eq!(svc.state, State::Stopped);
}

#[test]
fn get_unknown_name_is_not_found() {
    let reg = seed_nine();
    assert_eq!(reg.get("Service10").unwrap_err(), ServiceError::NotFound);
}

#[test]
fn list_keeps_registration_order() {
    let reg = seed_nine();
    let all = reg.list();
    assert_eq!(all.len(), 9);
    for (i, svc) in all.iter().enumerate() {
        assert_eq!(svc.name, format!("Service{}", i + 1));
    }
    assert_eq!(all[3].state, State::Running);
    assert_eq!(all[6].state, State::Stopped);
}

#[test]
fn all_matches_the_full_listing() {
    let reg = seed_nine();
    let all = query::all(&reg);
    let listed = reg.list();
    assert_eq!(all.len(), listed.len());
    for (a, b) in all.iter().zip(listed.iter()) {
        assert_eq!(a.name, b.name);
        assert_eq!(a.display_name, b.display_name);
        assert_eq!(a.state, b.state);
    }
}

#[test]
fn set_state_touches_exactly_one_record() {
    let mut reg = seed_nine();
    assert_eq!(reg.set_state("Service2", State::Running), Ok(()));
    let all = reg.list();
    assert_eq!(all[1].state, State::Running);
    assert_eq!(all[0].state, State::ContinuePending);
    assert_eq!(all[2].state, State::PausePending);
    assert_eq!(
        reg.set_state("Service10", State::Running).unwrap_err(),
        ServiceError::NotFound
    );
}

#[test]
fn open_succeeds_from_every_legal_state() {
    for from in [State::Stopped, State::Paused, State::PausePending, State::StopPending] {
        let mut reg = ServiceRegistry::new();
        assert!(reg.register(ServiceInfo::new("Service1", "Service 1", from)));
        assert_eq!(engine::open(&mut reg, "Service1"), Ok((from, State::Running)));
        assert_eq!(reg.get("Service1").unwrap().state, State::Running);
    }
}

#[test]
fn open_on_running_is_invalid_and_changes_nothing() {
    let mut reg = seed_nine();
    assert_eq!(
        engine::open(&mut reg, "Service4"),
        Err(ServiceError::InvalidTransition)
    );
    assert_eq!(reg.get("Service4").unwrap().state, State::Running);
    assert_eq!(reg.len(), 9);
}

#[test]
fn open_on_pending_states_is_invalid() {
    for from in [State::StartPending, State::ContinuePending] {
        let mut reg = ServiceRegistry::new();
        assert!(reg.register(ServiceInfo::new("Service1", "Service 1", from)));
        assert_eq!(
            engine::open(&mut reg, "Service1"),
            Err(ServiceError::InvalidTransition)
        );
        assert_eq!(reg.get("Service1").unwrap().state, from);
    }
}

#[test]
fn close_on_stopped_is_invalid_and_changes_nothing() {
    let mut reg = seed_nine();
    assert_eq!(
        engine::close(&mut reg, "Service7"),
        Err(ServiceError::InvalidTransition)
    );
    assert_eq!(reg.get("Service7").unwrap().state, State::Stopped);
}

#[test]
fn close_fails_from_every_state_but_running() {
    for from in [
        State::Stopped,
        State::StartPending,
        State::PausePending,
        State::Paused,
        State::ContinuePending,
        State::StopPending,
    ] {
        let mut reg = ServiceRegistry::new();
        assert!(reg.register(ServiceInfo::new("Service1", "Service 1", from)));
        assert_eq!(
            engine::close(&mut reg, "Service1"),
            Err(ServiceError::InvalidTransition)
        );
        assert_eq!(reg.get("Service1").unwrap().state, from);
    }
}

#[test]
fn open_then_close_returns_to_stopped() {
    let mut reg = seed_nine();
    assert_eq!(
        engine::open(&mut reg, "Service7"),
        Ok((State::Stopped, State::Running))
    );
    assert_eq!(
        engine::close(&mut reg, "Service7"),
        Ok((State::Running, State::Stopped))
    );
    assert_eq!(reg.get("Service7").unwrap().state, State::Stopped);
}

#[test]
fn open_unknown_name_is_not_found() {
    let mut reg = seed_nine();
    assert_eq!(
        engine::open(&mut reg, "NoSuchService"),
        Err(ServiceError::NotFound)
    );
    assert_eq!(reg.len(), 9);
}

#[test]
fn close_unknown_name_is_not_found() {
    let mut reg = seed_nine();
    assert_eq!(
        engine::close(&mut reg, "NoSuchService"),
        Err(ServiceError::NotFound)
    );
}

#[test]
fn open_on_continue_pending_is_invalid() {
    let mut reg = seed_nine();
    assert_eq!(
        engine::open(&mut reg, "Service1"),
        Err(ServiceError::InvalidTransition)
    );
    assert_eq!(reg.get("Service1").unwrap().state, State::ContinuePending);
}

#[test]
fn eligible_to_open_excludes_running_and_pending_starts() {
    let reg = seed_nine();
    let open_list = query::eligible_to_open(&reg);
    let names: Vec<&str> = open_list.iter().map(|s| s.name.as_str()).collect();
    assert_eq!(
        names,
        vec!["Service2", "Service3", "Service6", "Service7"]
    );
    for svc in &open_list {
        assert_ne!(svc.state, State::Running);
        assert_ne!(svc.state, State::StartPending);
        assert_ne!(svc.state, State::ContinuePending);
    }
}

#[test]
fn eligible_to_close_contains_only_running() {
    let reg = seed_nine();
    let close_list = query::eligible_to_close(&reg);
    let names: Vec<&str> = close_list.iter().map(|s| s.name.as_str()).collect();
    assert_eq!(names, vec!["Service4", "Service8", "Service9"]);
    for svc in &close_list {
        assert_eq!(svc.state, State::Running);
    }
}

#[test]
fn closing_a_running_service_leaves_the_close_view() {
    let mut reg = seed_nine();
    assert_eq!(
        engine::close(&mut reg, "Service4"),
        Ok((State::Running, State::Stopped))
    );
    let close_list = query::eligible_to_close(&reg);
    let names: Vec<&str> = close_list.iter().map(|s| s.name.as_str()).collect();
    assert!(!names.contains(&"Service4"));
    assert_eq!(names, vec!["Service8", "Service9"]);
}

#[test]
fn views_never_mutate_the_registry() {
    let reg = seed_nine();
    let _ = query::eligible_to_open(&reg);
    let _ = query::eligible_to_close(&reg);
    let _ = query::all(&reg);
    let all = reg.list();
    assert_eq!(all.len(), 9);
    assert_eq!(all[0].state, State::ContinuePending);
    assert_eq!(all[8].state, State::Running);
}

#[test]
fn empty_registry_has_empty_views() {
    let reg = ServiceRegistry::new();
    assert_eq!(reg.len(), 0);
    assert!(query::eligible_to_open(&reg).is_empty());
    assert!(query::eligible_to_close(&reg).is_empty());
    assert!(query::all(&reg).is_empty());
}
