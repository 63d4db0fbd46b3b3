use cpu_monitor::channel::{full_page_response, live_tick};
use cpu_monitor::publish::{next_snapshot, publish_tick};
use cpu_monitor::snapshot::Snapshot;
use cpu_monitor::store::SharedState;

#[test]
fn new_store_holds_zero_snapshot() {
    let store = SharedState::new();
    assert_eq!(store.read().len(), 0);
}

#[test]
fn read_returns_the_completed_write() {
    let store = SharedState::new();
    store.write(Snapshot::from_usage_tenths(&vec![100, 200]));
    let snap = store.read();
    assert_eq!(snap.len(), 2);
    assert_eq!(snap.sample(0).usage_tenths, 100);
    assert_eq!(snap.sample(1).usage_tenths, 200);
    assert_eq!(snap.sample(0).id, 1);
    assert_eq!(snap.sample(1).id, 2);
}

#[test]
fn successful_tick_commits_the_new_snapshot() {
    let store = SharedState::new();
    let committed = publish_tick(&store, Some(vec![333]));
    assert!(committed);
    let snap = store.read();
    assert_eq!(snap.len(), 1);
    assert_eq!(snap.sample(0).usage_tenths, 333);
}

#[test]
fn failed_tick_keeps_the_previous_snapshot() {
    let store = SharedState::new();
    assert!(publish_tick(&store, Some(vec![10, 20])));
    assert!(!publish_tick(&store, None));
    let snap = store.read();
    assert_eq!(snap.len(), 2);
    assert_eq!(snap.sample(0).usage_tenths, 10);
    assert_eq!(snap.sample(1).usage_tenths, 20);
}

#[test]
fn next_snapshot_prefers_the_sampled_one() {
    let current = Snapshot::from_usage_tenths(&vec![1]);
    let sampled = Snapshot::from_usage_tenths(&vec![2, 3]);
    let next = next_snapshot(current, Some(sampled));
    assert_eq!(next.len(), 2);
    let current = Snapshot::from_usage_tenths(&vec![1]);
    let kept = next_snapshot(current, None);
    assert_eq!(kept.len(), 1);
    assert_eq!(kept.sample(0).usage_tenths, 1);
}

#[test]
fn full_page_response_reflects_current_snapshot() {
    let store = SharedState::new();
    publish_tick(&store, Some(vec![450, 50]));
    let page = full_page_response(&store);
    assert!(page.contains("Core 1: 45.0%\n"));
    assert!(page.contains("Core 2: 5.0%\n"));
    assert!(page.starts_with("<!DOCTYPE html>"));
    assert!(page.ends_with("</html>\n"));
}

#[test]
fn live_tick_pushes_the_bare_fragment() {
    let store = SharedState::new();
    publish_tick(&store, Some(vec![75]));
    assert_eq!(live_tick(&store), "Core 1: 7.5%\n");
}

#[test]
fn consecutive_reads_see_each_completed_write() {
    let store = SharedState::new();
    for round in 0..5u32 {
        publish_tick(&store, Some(vec![round * 100, round * 100 + 1]));
        let snap = store.read();
        assert_eq!(snap.len(), 2);
        assert_eq!(snap.sample(0).usage_tenths, round * 100);
        assert_eq!(snap.sample(1).usage_tenths, round * 100 + 1);
    }
}
