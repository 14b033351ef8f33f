use sidebar::notification::{Notification, ParsedCall};
use sidebar::store::{is_valid_snapshot, largest_id, restore_snapshot, NotificationsListener, CAPACITY};

fn call(app: &str, summary: &str, body: &str) -> ParsedCall {
    ParsedCall { app_name: app.to_string(), summary: summary.to_string(), body: body.to_string() }
}

fn record(app: &str, id: u64) -> Notification {
    Notification {
        app_name: app.to_string(),
        summary: format!("summary {}", id),
        body: String::new(),
        timestamp: "12:00:00".to_string(),
        id,
    }
}

#[test]
fn fresh_store_starts_empty_with_id_one() {
    let store = NotificationsListener::new(None);
    assert_eq!(store.get_count(), 0);
    assert_eq!(store.next_id(), 1);
    assert!(store.get_notifications().is_empty());
}

#[test]
fn append_assigns_ids_from_one() {
    let mut store = NotificationsListener::new(None);
    assert_eq!(store.append(call("a", "s1", "b1"), "10:00:00".to_string()), 1);
    assert_eq!(store.append(call("b", "s2", "b2"), "10:00:01".to_string()), 2);
    let h = store.get_notifications();
    assert_eq!(h.len(), 2);
    assert_eq!(h[0].app_name, "a");
    assert_eq!(h[0].summary, "s1");
    assert_eq!(h[0].body, "b1");
    assert_eq!(h[0].timestamp, "10:00:00");
    assert_eq!(h[0].id, 1);
    assert_eq!(h[1].app_name, "b");
    assert_eq!(h[1].id, 2);
}

#[test]
fn overflow_keeps_last_capacity_in_order() {
    let mut store = NotificationsListener::new(None);
    let n: u64 = 150;
    for i in 1..=n {
        store.append(call(&format!("app{}", i), "s", "b"), "00:00:00".to_string());
    }
    assert_eq!(store.get_count(), CAPACITY);
    let h = store.get_notifications();
    for (k, entry) in h.iter().enumerate() {
        let i = n - CAPACITY as u64 + 1 + k as u64;
        assert_eq!(entry.app_name, format!("app{}", i));
        assert_eq!(entry.id, i);
    }
}

#[test]
fn exactly_capacity_evicts_nothing() {
    let mut store = NotificationsListener::new(None);
    for i in 0..CAPACITY {
        store.append(call(&format!("app{}", i), "", ""), String::new());
    }
    assert_eq!(store.get_count(), CAPACITY);
    assert_eq!(store.get_notifications()[0].app_name, "app0");
    store.append(call("last", "", ""), String::new());
    assert_eq!(store.get_count(), CAPACITY);
    assert_eq!(store.get_notifications()[0].app_name, "app1");
    assert_eq!(store.get_notifications()[CAPACITY - 1].app_name, "last");
}

#[test]
fn ids_strictly_increase_across_appends() {
    let mut store = NotificationsListener::new(None);
    let mut last = 0;
    for i in 0..250 {
        let id = store.append(call("a", &format!("{}", i), ""), String::new());
        assert!(id > last);
        last = id;
    }
    assert_eq!(last, 250);
}

#[test]
fn loaded_snapshot_seeds_next_id() {
    let snapshot = vec![record("x", 3), record("y", 17), record("z", 42)];
    let mut store = NotificationsListener::new(Some(snapshot));
    assert_eq!(store.get_count(), 3);
    assert_eq!(store.next_id(), 43);
    assert_eq!(store.append(call("n", "s", "b"), String::new()), 43);
    assert_eq!(store.append(call("n", "s", "b"), String::new()), 44);
    let h = store.get_notifications();
    assert_eq!(h[0].app_name, "x");
    assert_eq!(h[3].id, 43);
}

#[test]
fn loaded_empty_snapshot_starts_at_one() {
    let store = NotificationsListener::new(Some(Vec::new()));
    assert_eq!(store.next_id(), 1);
}

#[test]
fn snapshot_with_unordered_ids_is_treated_as_corrupt() {
    let snapshot = vec![record("x", 5), record("y", 2)];
    assert!(!is_valid_snapshot(&snapshot));
    let store = NotificationsListener::new(Some(snapshot));
    assert_eq!(store.get_count(), 0);
    assert_eq!(store.next_id(), 1);
}

#[test]
fn snapshot_with_duplicate_ids_is_treated_as_corrupt() {
    let snapshot = vec![record("x", 5), record("y", 5)];
    let (h, max) = restore_snapshot(Some(snapshot));
    assert!(h.is_empty());
    assert_eq!(max, 0);
}

#[test]
fn snapshot_over_capacity_is_treated_as_corrupt() {
    let snapshot: Vec<Notification> = (1..=(CAPACITY as u64 + 1)).map(|i| record("a", i)).collect();
    assert!(!is_valid_snapshot(&snapshot));
    let store = NotificationsListener::new(Some(snapshot));
    assert_eq!(store.get_count(), 0);
}

#[test]
fn snapshot_holding_largest_id_is_treated_as_corrupt() {
    let snapshot = vec![record("x", 1), record("y", u64::MAX)];
    let (h, max) = restore_snapshot(Some(snapshot));
    assert!(h.is_empty());
    assert_eq!(max, 0);
}

#[test]
fn missing_snapshot_restores_empty() {
    let (h, max) = restore_snapshot(None);
    assert!(h.is_empty());
    assert_eq!(max, 0);
}

#[test]
fn restoring_a_saved_history_gives_it_back() {
    let mut store = NotificationsListener::new(None);
    for i in 0..120 {
        store.append(call(&format!("app{}", i), "t", "b"), "08:15:00".to_string());
    }
    store.remove_notification(60);
    let saved = store.get_notifications();
    let (restored, max) = restore_snapshot(Some(saved.clone()));
    assert_eq!(restored.len(), saved.len());
    for (a, b) in restored.iter().zip(saved.iter()) {
        assert_eq!(a.id, b.id);
        assert_eq!(a.app_name, b.app_name);
        assert_eq!(a.summary, b.summary);
        assert_eq!(a.body, b.body);
        assert_eq!(a.timestamp, b.timestamp);
    }
    assert_eq!(max, 120);
    let reopened = NotificationsListener::new(Some(saved));
    assert_eq!(reopened.next_id(), 121);
}

#[test]
fn largest_id_of_records() {
    assert_eq!(largest_id(&vec![]), 0);
    assert_eq!(largest_id(&vec![record("a", 4), record("b", 9), record("c", 7)]), 9);
}

#[test]
fn remove_present_id_deletes_only_it() {
    let mut store = NotificationsListener::new(None);
    for i in 0..5 {
        store.append(call(&format!("app{}", i), "", ""), String::new());
    }
    store.remove_notification(3);
    let ids: Vec<u64> = store.get_notifications().iter().map(|n| n.id).collect();
    assert_eq!(ids, vec![1, 2, 4, 5]);
    assert_eq!(store.get_count(), 4);
}

#[test]
fn remove_absent_id_changes_nothing() {
    let mut store = NotificationsListener::new(None);
    for i in 0..5 {
        store.append(call(&format!("app{}", i), "", ""), String::new());
    }
    store.remove_notification(99);
    let h = store.get_notifications();
    let ids: Vec<u64> = h.iter().map(|n| n.id).collect();
    assert_eq!(ids, vec![1, 2, 3, 4, 5]);
    assert_eq!(h[2].app_name, "app2");
    assert_eq!(store.next_id(), 6);
}

#[test]
fn remove_from_empty_store_is_no_error() {
    let mut store = NotificationsListener::new(None);
    store.remove_notification(1);
    assert_eq!(store.get_count(), 0);
    assert_eq!(store.next_id(), 1);
}

#[test]
fn clear_empties_but_keeps_counting() {
    let mut store = NotificationsListener::new(None);
    store.append(call("a", "", ""), String::new());
    store.append(call("b", "", ""), String::new());
    store.clear_all();
    assert_eq!(store.get_count(), 0);
    assert!(store.get_notifications().is_empty());
    assert_eq!(store.append(call("c", "", ""), String::new()), 3);
}

#[test]
fn snapshot_is_a_copy() {
    let mut store = NotificationsListener::new(None);
    store.append(call("a", "", ""), String::new());
    let before = store.get_notifications();
    store.append(call("b", "", ""), String::new());
    assert_eq!(before.len(), 1);
    assert_eq!(store.get_count(), 2);
}
