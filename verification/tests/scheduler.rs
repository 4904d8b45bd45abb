use repo_lens::api::request::{RequestPayload, StatusRequest};
use repo_lens::engine::{CancellationToken, PendingQuery, Priority, Scheduler};

fn query(id: &str) -> PendingQuery {
    PendingQuery {
        id: id.to_string(),
        payload: RequestPayload::Status(StatusRequest { repo_path: "/repo".to_string() }),
        cancellation: CancellationToken::new(),
    }
}

fn drain(scheduler: &mut Scheduler) -> Vec<String> {
    let mut ids = Vec::new();
    while let Some(q) = scheduler.next_query() {
        ids.push(q.id);
    }
    ids
}

#[test]
fn empty_scheduler_has_nothing_next() {
    let mut scheduler = Scheduler::new();
    assert_eq!(scheduler.pending(), 0);
    assert!(scheduler.next_query().is_none());
    assert!(scheduler.next_query().is_none());
}

#[test]
fn tiers_drain_in_priority_order_newest_first() {
    let mut scheduler = Scheduler::new();
    scheduler.schedule(query("maintenance"), Priority::Maintenance);
    scheduler.schedule(query("prefetch-1"), Priority::UiPrefetch);
    scheduler.schedule(query("immediate"), Priority::UiImmediate);
    scheduler.schedule(query("prefetch-2"), Priority::UiPrefetch);
    assert_eq!(scheduler.pending(), 4);
    assert_eq!(drain(&mut scheduler), vec!["immediate", "prefetch-2", "prefetch-1", "maintenance"]);
    assert_eq!(scheduler.pending(), 0);
}

#[test]
fn newest_of_a_tier_comes_out_first() {
    for priority in [Priority::UiImmediate, Priority::UiPrefetch, Priority::Maintenance] {
        let mut scheduler = Scheduler::new();
        scheduler.schedule(query("a"), priority);
        scheduler.schedule(query("b"), priority);
        scheduler.schedule(query("c"), priority);
        assert_eq!(drain(&mut scheduler), vec!["c", "b", "a"]);
    }
}

#[test]
fn scheduling_between_dequeues_respects_tiers() {
    let mut scheduler = Scheduler::new();
    scheduler.schedule(query("m1"), Priority::Maintenance);
    scheduler.schedule(query("p1"), Priority::UiPrefetch);
    assert_eq!(scheduler.next_query().unwrap().id, "p1");
    scheduler.schedule(query("i1"), Priority::UiImmediate);
    scheduler.schedule(query("m2"), Priority::Maintenance);
    assert_eq!(drain(&mut scheduler), vec!["i1", "m2", "m1"]);
}

#[test]
fn scheduler_does_not_look_at_cancellation() {
    let mut scheduler = Scheduler::new();
    let cancelled = query("cancelled");
    cancelled.cancellation.cancel();
    scheduler.schedule(cancelled, Priority::UiPrefetch);
    scheduler.schedule(query("live"), Priority::Maintenance);
    let first = scheduler.next_query().unwrap();
    assert_eq!(first.id, "cancelled");
    assert!(first.cancellation.is_cancelled());
    let second = scheduler.next_query().unwrap();
    assert_eq!(second.id, "live");
    assert!(!second.cancellation.is_cancelled());
}

#[test]
fn cancellation_is_one_way_and_shared() {
    let token = CancellationToken::new();
    let other = token.clone();
    assert!(!token.is_cancelled());
    assert!(!other.is_cancelled());
    other.cancel();
    assert!(token.is_cancelled());
    assert!(other.is_cancelled());
    token.cancel();
    assert!(token.is_cancelled());
    assert!(!CancellationToken::default().is_cancelled());
}
