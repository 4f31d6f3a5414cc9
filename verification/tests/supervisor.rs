use worker_supervisor::command::logout;
use worker_supervisor::error::SupervisionError;
use worker_supervisor::registry::ProcessRegistry;
use worker_supervisor::restart::{RestartAction, RestartEvent};
use worker_supervisor::supervisor::ProcessSupervisor;
use worker_supervisor::worker::WorkerHandle;

fn supervisor() -> ProcessSupervisor {
    let mut registry = ProcessRegistry::new();
    registry.insert("provider".to_string(), WorkerHandle::new(11));
    registry.insert("wrapper".to_string(), WorkerHandle::new(22));
    ProcessSupervisor::new(registry)
}

fn names(list: &[&str]) -> Vec<String> {
    list.iter().map(|name| name.to_string()).collect()
}

fn id_of(supervisor: &ProcessSupervisor, name: &str) -> Option<u64> {
    supervisor.registry().get(name).map(|handle| handle.id())
}

fn kill(name: &str, handle: u64) -> RestartAction {
    RestartAction::Kill { name: name.to_string(), handle }
}

fn wait(name: &str, handle: u64) -> RestartAction {
    RestartAction::Wait { name: name.to_string(), handle }
}

fn launch(name: &str) -> RestartAction {
    RestartAction::Launch { name: name.to_string() }
}

#[test]
fn restart_of_one_worker_runs_stop_change_start() {
    let mut s = supervisor();
    assert!(!s.is_restarting());
    assert_eq!(s.begin_restart(names(&["wrapper"])), kill("wrapper", 22));
    assert!(s.is_restarting());
    assert_eq!(id_of(&s, "wrapper"), None);
    assert_eq!(s.handle_event(RestartEvent::Killed), wait("wrapper", 22));
    assert_eq!(id_of(&s, "wrapper"), None);
    assert_eq!(s.handle_event(RestartEvent::Exited), RestartAction::Mutate);
    assert_eq!(id_of(&s, "wrapper"), None);
    assert_eq!(s.handle_event(RestartEvent::Mutated), launch("wrapper"));
    assert_eq!(id_of(&s, "wrapper"), None);
    assert_eq!(
        s.handle_event(RestartEvent::Launched(WorkerHandle::new(23))),
        RestartAction::Finished(Ok(()))
    );
    assert!(!s.is_restarting());
    assert_eq!(id_of(&s, "wrapper"), Some(23));
    assert_eq!(id_of(&s, "provider"), Some(11));
    assert_eq!(s.registry().len(), 2);
}

#[test]
fn restart_of_two_workers_keeps_the_order_asked_for() {
    let mut s = supervisor();
    assert_eq!(s.begin_restart(names(&["wrapper", "provider"])), kill("wrapper", 22));
    assert_eq!(s.handle_event(RestartEvent::Killed), wait("wrapper", 22));
    assert_eq!(id_of(&s, "provider"), Some(11));
    assert_eq!(s.handle_event(RestartEvent::Exited), kill("provider", 11));
    assert_eq!(s.handle_event(RestartEvent::Killed), wait("provider", 11));
    assert_eq!(s.handle_event(RestartEvent::Exited), RestartAction::Mutate);
    assert_eq!(s.registry().len(), 0);
    assert_eq!(s.handle_event(RestartEvent::Mutated), launch("wrapper"));
    assert_eq!(s.handle_event(RestartEvent::Launched(WorkerHandle::new(31))), launch("provider"));
    assert_eq!(id_of(&s, "wrapper"), Some(31));
    assert_eq!(id_of(&s, "provider"), None);
    assert_eq!(
        s.handle_event(RestartEvent::Launched(WorkerHandle::new(32))),
        RestartAction::Finished(Ok(()))
    );
    assert_eq!(id_of(&s, "wrapper"), Some(31));
    assert_eq!(id_of(&s, "provider"), Some(32));
    assert!(!s.is_restarting());
}

#[test]
fn restart_of_unregistered_ghost_fails_and_touches_nothing() {
    let mut s = supervisor();
    assert_eq!(
        s.begin_restart(names(&["ghost"])),
        RestartAction::Finished(Err(SupervisionError::UnknownWorker("ghost".to_string())))
    );
    assert!(!s.is_restarting());
    assert_eq!(s.registry().len(), 2);
    assert_eq!(id_of(&s, "provider"), Some(11));
    assert_eq!(id_of(&s, "wrapper"), Some(22));
}

#[test]
fn unknown_name_after_a_known_one_stops_the_restart_there() {
    let mut registry = ProcessRegistry::new();
    registry.insert("provider".to_string(), WorkerHandle::new(11));
    registry.insert("wrapper".to_string(), WorkerHandle::new(22));
    registry.insert("helper".to_string(), WorkerHandle::new(33));
    let mut s = ProcessSupervisor::new(registry);
    assert_eq!(s.begin_restart(names(&["wrapper", "ghost", "helper"])), kill("wrapper", 22));
    assert_eq!(s.handle_event(RestartEvent::Killed), wait("wrapper", 22));
    assert_eq!(
        s.handle_event(RestartEvent::Exited),
        RestartAction::Finished(Err(SupervisionError::UnknownWorker("ghost".to_string())))
    );
    assert!(!s.is_restarting());
    assert_eq!(id_of(&s, "wrapper"), None);
    assert_eq!(id_of(&s, "helper"), Some(33));
    assert_eq!(id_of(&s, "provider"), Some(11));
}

#[test]
fn a_name_asked_for_twice_is_unknown_the_second_time() {
    let mut s = supervisor();
    assert_eq!(s.begin_restart(names(&["wrapper", "wrapper"])), kill("wrapper", 22));
    assert_eq!(s.handle_event(RestartEvent::Killed), wait("wrapper", 22));
    assert_eq!(
        s.handle_event(RestartEvent::Exited),
        RestartAction::Finished(Err(SupervisionError::UnknownWorker("wrapper".to_string())))
    );
    assert_eq!(id_of(&s, "wrapper"), None);
}

#[test]
fn second_restart_is_blocked_until_the_first_is_over() {
    let mut s = supervisor();
    assert_eq!(s.begin_restart(names(&["wrapper"])), kill("wrapper", 22));
    assert_eq!(s.begin_restart(names(&["provider"])), RestartAction::Blocked);
    assert_eq!(s.begin_restart(names(&["wrapper"])), RestartAction::Blocked);
    assert_eq!(s.begin_restart(names(&["ghost"])), RestartAction::Blocked);
    assert_eq!(id_of(&s, "provider"), Some(11));
    assert_eq!(s.handle_event(RestartEvent::Killed), wait("wrapper", 22));
    assert_eq!(s.begin_restart(names(&["provider"])), RestartAction::Blocked);
    assert_eq!(s.handle_event(RestartEvent::Exited), RestartAction::Mutate);
    assert_eq!(s.begin_restart(names(&["provider"])), RestartAction::Blocked);
    assert_eq!(s.handle_event(RestartEvent::Mutated), launch("wrapper"));
    assert_eq!(s.begin_restart(names(&["provider"])), RestartAction::Blocked);
    assert_eq!(
        s.handle_event(RestartEvent::Launched(WorkerHandle::new(23))),
        RestartAction::Finished(Ok(()))
    );
    assert_eq!(s.begin_restart(names(&["provider"])), kill("provider", 11));
}

#[test]
fn worker_outside_the_restart_keeps_its_handle_throughout() {
    let mut s = supervisor();
    let events = vec![
        RestartEvent::Killed,
        RestartEvent::Exited,
        RestartEvent::Mutated,
        RestartEvent::Launched(WorkerHandle::new(23)),
    ];
    let mut action = s.begin_restart(names(&["wrapper"]));
    for event in events {
        assert_eq!(id_of(&s, "provider"), Some(11));
        match &action {
            RestartAction::Kill { name, .. }
            | RestartAction::Wait { name, .. }
            | RestartAction::Launch { name } => assert_eq!(name, "wrapper"),
            _ => {}
        }
        action = s.handle_event(event);
    }
    assert_eq!(action, RestartAction::Finished(Ok(())));
    assert_eq!(id_of(&s, "provider"), Some(11));
}

#[test]
fn change_that_breaks_off_still_gets_the_workers_started() {
    let mut s = supervisor();
    assert_eq!(s.begin_restart(names(&["provider", "wrapper"])), kill("provider", 11));
    assert_eq!(s.handle_event(RestartEvent::Killed), wait("provider", 11));
    assert_eq!(s.handle_event(RestartEvent::Exited), kill("wrapper", 22));
    assert_eq!(s.handle_event(RestartEvent::Killed), wait("wrapper", 22));
    assert_eq!(s.handle_event(RestartEvent::Exited), RestartAction::Mutate);
    assert_eq!(s.handle_event(RestartEvent::MutationRaised), launch("provider"));
    assert_eq!(s.handle_event(RestartEvent::Launched(WorkerHandle::new(12))), launch("wrapper"));
    assert_eq!(
        s.handle_event(RestartEvent::Launched(WorkerHandle::new(23))),
        RestartAction::Finished(Err(SupervisionError::MutationFailed))
    );
    assert!(!s.is_restarting());
    assert_eq!(id_of(&s, "provider"), Some(12));
    assert_eq!(id_of(&s, "wrapper"), Some(23));
}

#[test]
fn kill_failure_ends_the_restart_with_process_control_error() {
    let mut s = supervisor();
    assert_eq!(s.begin_restart(names(&["wrapper", "provider"])), kill("wrapper", 22));
    assert_eq!(
        s.handle_event(RestartEvent::KillFailed),
        RestartAction::Finished(Err(SupervisionError::ProcessControl("wrapper".to_string())))
    );
    assert!(!s.is_restarting());
    assert_eq!(id_of(&s, "wrapper"), None);
    assert_eq!(id_of(&s, "provider"), Some(11));
}

#[test]
fn wait_failure_ends_the_restart_with_process_control_error() {
    let mut s = supervisor();
    assert_eq!(s.begin_restart(names(&["provider"])), kill("provider", 11));
    assert_eq!(s.handle_event(RestartEvent::Killed), wait("provider", 11));
    assert_eq!(
        s.handle_event(RestartEvent::WaitFailed),
        RestartAction::Finished(Err(SupervisionError::ProcessControl("provider".to_string())))
    );
    assert!(!s.is_restarting());
    assert_eq!(id_of(&s, "provider"), None);
    assert_eq!(id_of(&s, "wrapper"), Some(22));
}

#[test]
fn launch_failure_leaves_the_name_absent_and_starts_the_rest() {
    let mut s = supervisor();
    assert_eq!(s.begin_restart(names(&["provider", "wrapper"])), kill("provider", 11));
    s.handle_event(RestartEvent::Killed);
    s.handle_event(RestartEvent::Exited);
    s.handle_event(RestartEvent::Killed);
    assert_eq!(s.handle_event(RestartEvent::Exited), RestartAction::Mutate);
    assert_eq!(s.handle_event(RestartEvent::Mutated), launch("provider"));
    assert_eq!(s.handle_event(RestartEvent::LaunchFailed), launch("wrapper"));
    assert_eq!(
        s.handle_event(RestartEvent::Launched(WorkerHandle::new(23))),
        RestartAction::Finished(Err(SupervisionError::Launch("provider".to_string())))
    );
    assert!(!s.is_restarting());
    assert_eq!(id_of(&s, "provider"), None);
    assert_eq!(id_of(&s, "wrapper"), Some(23));
}

#[test]
fn first_launch_failure_is_the_one_reported() {
    let mut s = supervisor();
    s.begin_restart(names(&["wrapper", "provider"]));
    s.handle_event(RestartEvent::Killed);
    s.handle_event(RestartEvent::Exited);
    s.handle_event(RestartEvent::Killed);
    s.handle_event(RestartEvent::Exited);
    assert_eq!(s.handle_event(RestartEvent::MutationRaised), launch("wrapper"));
    assert_eq!(s.handle_event(RestartEvent::LaunchFailed), launch("provider"));
    assert_eq!(
        s.handle_event(RestartEvent::LaunchFailed),
        RestartAction::Finished(Err(SupervisionError::Launch("wrapper".to_string())))
    );
    assert_eq!(s.registry().len(), 0);
}

#[test]
fn events_that_answer_nothing_are_ignored() {
    let mut s = supervisor();
    assert_eq!(s.handle_event(RestartEvent::Killed), RestartAction::Ignored);
    assert_eq!(s.handle_event(RestartEvent::Launched(WorkerHandle::new(9))), RestartAction::Ignored);
    assert_eq!(s.registry().len(), 2);
    assert_eq!(s.begin_restart(names(&["wrapper"])), kill("wrapper", 22));
    assert_eq!(s.handle_event(RestartEvent::Exited), RestartAction::Ignored);
    assert_eq!(s.handle_event(RestartEvent::Mutated), RestartAction::Ignored);
    assert_eq!(s.handle_event(RestartEvent::Launched(WorkerHandle::new(9))), RestartAction::Ignored);
    assert_eq!(s.handle_event(RestartEvent::LaunchFailed), RestartAction::Ignored);
    assert!(s.is_restarting());
    assert_eq!(id_of(&s, "wrapper"), None);
    assert_eq!(s.handle_event(RestartEvent::Killed), wait("wrapper", 22));
    assert_eq!(s.handle_event(RestartEvent::Killed), RestartAction::Ignored);
    assert_eq!(s.handle_event(RestartEvent::KillFailed), RestartAction::Ignored);
    assert_eq!(s.handle_event(RestartEvent::Exited), RestartAction::Mutate);
    assert_eq!(s.handle_event(RestartEvent::Exited), RestartAction::Ignored);
    assert_eq!(s.handle_event(RestartEvent::WaitFailed), RestartAction::Ignored);
    assert_eq!(s.handle_event(RestartEvent::Mutated), launch("wrapper"));
    assert_eq!(s.handle_event(RestartEvent::Mutated), RestartAction::Ignored);
    assert_eq!(s.handle_event(RestartEvent::MutationRaised), RestartAction::Ignored);
}

#[test]
fn restart_of_no_worker_only_applies_the_change() {
    let mut s = supervisor();
    assert_eq!(s.begin_restart(Vec::new()), RestartAction::Mutate);
    assert!(s.is_restarting());
    assert_eq!(s.begin_restart(Vec::new()), RestartAction::Blocked);
    assert_eq!(s.handle_event(RestartEvent::Mutated), RestartAction::Finished(Ok(())));
    assert!(!s.is_restarting());
    assert_eq!(s.begin_restart(Vec::new()), RestartAction::Mutate);
    assert_eq!(
        s.handle_event(RestartEvent::MutationRaised),
        RestartAction::Finished(Err(SupervisionError::MutationFailed))
    );
    assert_eq!(s.registry().len(), 2);
}

#[test]
fn registry_holds_the_same_names_after_many_restarts() {
    let mut s = supervisor();
    let mut next_id = 100;
    for round in 0..50 {
        let asked = match round % 3 {
            0 => names(&["wrapper"]),
            1 => names(&["provider", "wrapper"]),
            _ => names(&["provider"]),
        };
        let mut action = s.begin_restart(asked);
        loop {
            let event = match action {
                RestartAction::Kill { .. } => RestartEvent::Killed,
                RestartAction::Wait { .. } => RestartEvent::Exited,
                RestartAction::Mutate => {
                    if round % 2 == 0 {
                        RestartEvent::Mutated
                    } else {
                        RestartEvent::MutationRaised
                    }
                }
                RestartAction::Launch { .. } => {
                    next_id += 1;
                    RestartEvent::Launched(WorkerHandle::new(next_id))
                }
                RestartAction::Finished(_) => break,
                other => panic!("no answer to {:?}", other),
            };
            action = s.handle_event(event);
        }
        assert!(!s.is_restarting());
        assert_eq!(s.registry().len(), 2);
        assert!(s.registry().contains("provider"));
        assert!(s.registry().contains("wrapper"));
    }
    assert_eq!(next_id, 100 + 17 + 2 * 17 + 16);
}

#[test]
fn logout_restarts_provider_then_wrapper() {
    let mut s = supervisor();
    assert_eq!(logout(&mut s), kill("provider", 11));
    assert_eq!(s.handle_event(RestartEvent::Killed), wait("provider", 11));
    assert_eq!(s.handle_event(RestartEvent::Exited), kill("wrapper", 22));
    assert_eq!(s.handle_event(RestartEvent::Killed), wait("wrapper", 22));
    assert_eq!(s.handle_event(RestartEvent::Exited), RestartAction::Mutate);
    assert_eq!(s.handle_event(RestartEvent::Mutated), launch("provider"));
    assert_eq!(s.handle_event(RestartEvent::Launched(WorkerHandle::new(1))), launch("wrapper"));
    assert_eq!(
        s.handle_event(RestartEvent::Launched(WorkerHandle::new(2))),
        RestartAction::Finished(Ok(()))
    );
    assert_eq!(logout(&mut s), kill("provider", 1));
    assert_eq!(logout(&mut s), RestartAction::Blocked);
}

#[test]
fn into_registry_gives_the_registry_back() {
    let mut s = supervisor();
    s.begin_restart(names(&["wrapper"]));
    let registry = s.into_registry();
    assert_eq!(registry.len(), 1);
    assert_eq!(registry.get("provider").map(|h| h.id()), Some(11));
}
