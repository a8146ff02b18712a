use pulsar_core::round_types::RoundTriggerKind;
use pulsar_core::session_coordinator::SessionCoordinator;

fn user() -> RoundTriggerKind {
    RoundTriggerKind::User
}

fn poller() -> RoundTriggerKind {
    RoundTriggerKind::Poller
}

#[test]
fn user_preempts_active_round() {
    let mut coordinator = SessionCoordinator::new();
    let first = coordinator.begin("s1", user()).expect("first user round runs");
    let second = coordinator.begin("s1", user()).expect("user round always preempts");
    assert!(first.cancelled(&coordinator), "preempted round should be cancelled");
    assert!(!second.cancelled(&coordinator));
    second.finish(&mut coordinator);
}

#[test]
fn non_user_round_skipped_when_busy() {
    let mut coordinator = SessionCoordinator::new();
    let _first = coordinator.begin("s1", user()).unwrap();
    assert!(coordinator.begin("s1", poller()).is_none(), "non-user round must skip while busy");
}

#[test]
fn end_only_clears_own_token() {
    let mut coordinator = SessionCoordinator::new();
    let first = coordinator.begin("s1", user()).unwrap();
    let second = coordinator.begin("s1", user()).unwrap();
    coordinator.end("s1", first.token());
    assert!(coordinator.begin("s1", poller()).is_none(), "second still busy");
    second.finish(&mut coordinator);
    assert!(coordinator.begin("s1", poller()).is_some(), "busy released after finish");
}

#[test]
fn drop_releases_busy() {
    let mut coordinator = SessionCoordinator::new();
    {
        let guard = coordinator.begin("s1", user()).unwrap();
        assert!(coordinator.begin("s1", poller()).is_none(), "busy while the round runs");
        guard.finish(&mut coordinator);
    }
    assert!(coordinator.begin("s1", poller()).is_some(), "busy released by finishing");
}

#[test]
fn different_sessions_are_independent() {
    let mut coordinator = SessionCoordinator::new();
    coordinator.begin("s1", user()).unwrap();
    assert!(coordinator.begin("s2", poller()).is_some());
}

#[test]
fn cancel_active_cancels_running_round() {
    let mut coordinator = SessionCoordinator::new();
    let round = coordinator.begin("s1", user()).unwrap();
    assert!(coordinator.cancel_active("s1"), "active round must be cancellable");
    assert!(round.cancelled(&coordinator), "stop path must cancel the active round token");
    round.finish(&mut coordinator);
    assert!(!coordinator.cancel_active("s1"), "no active round: no-op");
}

#[test]
fn preempt_wait_is_signaled_when_preempted_round_ends() {
    let mut coordinator = SessionCoordinator::new();
    let first = coordinator.begin("s1", user()).unwrap();
    let mut second = coordinator.begin("s1", user()).unwrap();
    let wait = second.take_preempt_wait().expect("user preemption must yield the convergence wait handle");
    assert!(second.take_preempt_wait().is_none(), "wait handle is take-once");
    assert!(first.cancelled(&coordinator));
    assert!(!coordinator.has_converged(wait));
    first.finish(&mut coordinator);
    assert!(coordinator.has_converged(wait), "finishing the preempted round signals convergence");
    assert_eq!(coordinator.active_token("s1"), Some(second.token()), "the preempting round stays registered");
}

#[test]
fn skipped_round_changes_nothing() {
    let mut coordinator = SessionCoordinator::new();
    let first = coordinator.begin("s1", user()).unwrap();
    for trigger in [RoundTriggerKind::Poller, RoundTriggerKind::ManualStep, RoundTriggerKind::AgentLoop] {
        assert!(coordinator.begin("s1", trigger).is_none());
    }
    assert!(!first.cancelled(&coordinator));
    assert_eq!(coordinator.active_token("s1"), Some(first.token()));
}

#[test]
fn first_round_has_nothing_to_wait_for() {
    let mut coordinator = SessionCoordinator::new();
    let mut first = coordinator.begin("s1", poller()).unwrap();
    assert_eq!(first.take_preempt_wait(), None);
    first.notify_converged(&mut coordinator);
    assert!(coordinator.has_converged(first.token()));
}

#[test]
fn finished_rounds_leave_nothing_behind() {
    let mut coordinator = SessionCoordinator::new();
    let first = coordinator.begin("s1", user()).unwrap();
    let mut second = coordinator.begin("s1", user()).unwrap();
    let wait = second.take_preempt_wait().unwrap();
    first.finish(&mut coordinator);
    assert!(coordinator.has_converged(wait), "the preempting round can see the old one converge");
    assert!(!coordinator.is_cancelled(wait), "a finished round's cancellation is forgotten");
    coordinator.release(wait);
    assert!(!coordinator.has_converged(wait), "released once seen");
    let token = second.token();
    assert!(coordinator.cancel_active("s1"));
    second.finish(&mut coordinator);
    assert!(!coordinator.has_converged(token), "nobody waits for a round that was not replaced");
    assert!(!coordinator.is_cancelled(token));
    assert_eq!(coordinator.active_token("s1"), None);
}
