use appnut::store::{StateStore, SubscriptionId};

fn json<T: serde::Serialize>(v: T) -> Vec<u8> {
    serde_json::to_vec(&v).unwrap()
}

fn count(ids: &[SubscriptionId], id: SubscriptionId) -> usize {
    ids.iter().filter(|x| **x == id).count()
}

// ========================================================================
// Basic get/set
// ========================================================================

#[test]
fn set_and_get_u32() {
    let mut store = StateStore::new();
    store.set_bytes("counter", json(42u32));

    let bytes = store.get("counter").unwrap();
    let v: u32 = serde_json::from_slice(&bytes).unwrap();
    assert_eq!(v, 42);
}

#[test]
fn set_and_get_string() {
    let mut store = StateStore::new();
    store.set_bytes("name", json("hello"));

    let bytes = store.get("name").unwrap();
    let v: String = serde_json::from_slice(&bytes).unwrap();
    assert_eq!(v, "hello");
}

#[test]
fn set_and_get_struct() {
    let mut state = serde_json::Map::new();
    state.insert("phase".to_string(), serde_json::Value::from("authenticated"));
    state.insert("busy".to_string(), serde_json::Value::from(false));

    let mut store = StateStore::new();
    store.set_bytes("auth/state", json(serde_json::Value::Object(state)));

    let bytes = store.get("auth/state").unwrap();
    let state: serde_json::Value = serde_json::from_slice(&bytes).unwrap();
    assert_eq!(state["phase"], "authenticated");
    assert!(!state["busy"].as_bool().unwrap());
}

#[test]
fn get_missing_returns_none() {
    let store = StateStore::new();
    assert!(store.get("nonexistent").is_none());
}

#[test]
fn set_overwrites_previous_value() {
    let mut store = StateStore::new();
    store.set_bytes("counter", json(1u32));
    store.set_bytes("counter", json(2u32));

    let bytes = store.get("counter").unwrap();
    let v: u32 = serde_json::from_slice(&bytes).unwrap();
    assert_eq!(v, 2);
}

#[test]
fn set_overwrites_different_type() {
    let mut store = StateStore::new();
    store.set_bytes("value", json(42u32));
    store.set_bytes("value", json("now a string"));

    let bytes = store.get("value").unwrap();
    assert!(serde_json::from_slice::<u32>(&bytes).is_err());
    let v: String = serde_json::from_slice(&bytes).unwrap();
    assert_eq!(v, "now a string");
}

#[test]
fn get_returns_valid_json_bytes() {
    let mut store = StateStore::new();
    store.set_bytes("list", json(vec![1u32, 2, 3]));

    let bytes = store.get("list").unwrap();
    let v: Vec<u32> = serde_json::from_slice(&bytes).unwrap();
    assert_eq!(v, vec![1, 2, 3]);
}

#[test]
fn set_bytes_prebuilt() {
    let mut store = StateStore::new();
    let bytes = serde_json::to_vec(&42u32).unwrap();
    store.set_bytes("counter", bytes);

    let got = store.get("counter").unwrap();
    let v: u32 = serde_json::from_slice(&got).unwrap();
    assert_eq!(v, 42);
}

// ========================================================================
// Remove
// ========================================================================

#[test]
fn remove_existing_returns_value() {
    let mut store = StateStore::new();
    store.set_bytes("counter", json(42u32));

    let old = store.remove("counter").unwrap();
    let v: u32 = serde_json::from_slice(&old).unwrap();
    assert_eq!(v, 42);
    assert!(store.get("counter").is_none());
}

#[test]
fn remove_missing_returns_none() {
    let mut store = StateStore::new();
    assert!(store.remove("nonexistent").is_none());
}

#[test]
fn remove_then_set_again() {
    let mut store = StateStore::new();
    store.set_bytes("counter", json(1u32));
    store.remove("counter");
    store.set_bytes("counter", json(2u32));

    let bytes = store.get("counter").unwrap();
    let v: u32 = serde_json::from_slice(&bytes).unwrap();
    assert_eq!(v, 2);
}

// ========================================================================
// Scan
// ========================================================================

#[test]
fn scan_returns_children() {
    let mut store = StateStore::new();
    store.set_bytes("home/devices/items/1", json("device-1"));
    store.set_bytes("home/devices/items/2", json("device-2"));
    store.set_bytes("home/devices/items/3", json("device-3"));

    let results = store.scan("home/devices/items");
    assert_eq!(results.len(), 3);

    let v0: String = serde_json::from_slice(&results[0].1).unwrap();
    let v1: String = serde_json::from_slice(&results[1].1).unwrap();
    assert_eq!(v0, "device-1");
    assert_eq!(v1, "device-2");
}

#[test]
fn scan_does_not_include_exact_prefix() {
    let mut store = StateStore::new();
    store.set_bytes("home/devices", json("parent"));
    store.set_bytes("home/devices/1", json("child-1"));
    store.set_bytes("home/devices/2", json("child-2"));

    let results = store.scan("home/devices");
    assert_eq!(results.len(), 2);
    assert!(results.iter().all(|(k, _)| k != "home/devices"));
}

#[test]
fn scan_returns_nested_children() {
    let mut store = StateStore::new();
    store.set_bytes("a/b/c", json(1u32));
    store.set_bytes("a/b/c/d", json(2u32));
    store.set_bytes("a/b/c/d/e", json(3u32));

    let results = store.scan("a/b");
    assert_eq!(results.len(), 3);
}

#[test]
fn scan_no_matches() {
    let mut store = StateStore::new();
    store.set_bytes("auth/state", json(1u32));

    let results = store.scan("home/devices");
    assert!(results.is_empty());
}

#[test]
fn scan_does_not_match_similar_prefix() {
    let mut store = StateStore::new();
    store.set_bytes("auth/state", json(1u32));
    store.set_bytes("authorization/state", json(2u32));

    let results = store.scan("auth");
    assert_eq!(results.len(), 1);
    assert_eq!(results[0].0, "auth/state");
}

#[test]
fn scan_empty_store() {
    let store = StateStore::new();
    assert!(store.scan("any/prefix").is_empty());
}

#[test]
fn scan_results_are_ordered() {
    let mut store = StateStore::new();
    store.set_bytes("items/c", json(3u32));
    store.set_bytes("items/a", json(1u32));
    store.set_bytes("items/b", json(2u32));

    let results = store.scan("items");
    let paths: Vec<&str> = results.iter().map(|(k, _)| k.as_str()).collect();
    assert_eq!(paths, vec!["items/a", "items/b", "items/c"]);
}

// ========================================================================
// Contains / len / is_empty
// ========================================================================

#[test]
fn contains_existing() {
    let mut store = StateStore::new();
    store.set_bytes("auth/state", json(1u32));

    assert!(store.contains("auth/state"));
    assert!(!store.contains("auth/terms"));
}

#[test]
fn len_and_is_empty() {
    let mut store = StateStore::new();
    assert!(store.is_empty());
    assert_eq!(store.len(), 0);

    store.set_bytes("a", json(1u32));
    assert!(!store.is_empty());
    assert_eq!(store.len(), 1);

    store.set_bytes("b", json(2u32));
    assert_eq!(store.len(), 2);

    store.remove("a");
    assert_eq!(store.len(), 1);
}

// ========================================================================
// Snapshot / paths
// ========================================================================

#[test]
fn snapshot_returns_all() {
    let mut store = StateStore::new();
    store.set_bytes("a", json(1u32));
    store.set_bytes("b", json(2u32));
    store.set_bytes("c", json(3u32));

    let snap = store.snapshot();
    assert_eq!(snap.len(), 3);
    let paths: Vec<&str> = snap.iter().map(|(k, _)| k.as_str()).collect();
    assert_eq!(paths, vec!["a", "b", "c"]);

    let v: u32 = serde_json::from_slice(&snap[0].1).unwrap();
    assert_eq!(v, 1);
}

#[test]
fn snapshot_empty_store() {
    let store = StateStore::new();
    assert!(store.snapshot().is_empty());
}

#[test]
fn paths_returns_all_keys() {
    let mut store = StateStore::new();
    store.set_bytes("auth/state", json(1u32));
    store.set_bytes("app/route", json(2u32));

    let mut paths = store.paths();
    paths.sort();
    assert_eq!(paths, vec!["app/route", "auth/state"]);
}

// ========================================================================
// Subscribe — exact match
// ========================================================================

#[test]
fn subscribe_exact_notifies_on_match() {
    let mut store = StateStore::new();
    let id = store.subscribe("auth/state");

    let notified = store.set_bytes("auth/state", json(1u32));
    assert_eq!(notified, vec![id]);
    assert_eq!(count(&notified, id), 1);
}

#[test]
fn subscribe_exact_does_not_notify_other_paths() {
    let mut store = StateStore::new();
    let id = store.subscribe("auth/state");

    let mut called = 0;
    called += count(&store.set_bytes("auth/terms", json(1u32)), id);
    called += count(&store.set_bytes("home/devices", json(2u32)), id);
    assert_eq!(called, 0);
}

#[test]
fn store_subscribe_receives_correct_value() {
    let mut store = StateStore::new();
    let id = store.subscribe("counter");

    let bytes = json(42u32);
    let notified = store.set_bytes("counter", bytes.clone());
    let mut received = None::<u32>;
    if notified.contains(&id) {
        received = Some(serde_json::from_slice(&bytes).unwrap());
    }
    assert_eq!(received, Some(42));
}

#[test]
fn subscribe_called_on_every_set() {
    let mut store = StateStore::new();
    let id = store.subscribe("counter");

    let mut calls = 0;
    calls += count(&store.set_bytes("counter", json(1u32)), id);
    calls += count(&store.set_bytes("counter", json(2u32)), id);
    calls += count(&store.set_bytes("counter", json(3u32)), id);
    assert_eq!(calls, 3);
}

// ========================================================================
// Subscribe — wildcard patterns
// ========================================================================

#[test]
fn subscribe_single_wildcard() {
    let mut store = StateStore::new();
    let id = store.subscribe("auth/+");

    let mut paths = Vec::<String>::new();
    for path in ["auth/state", "auth/terms", "home/devices"] {
        if store.set_bytes(path, json(1u32)).contains(&id) {
            paths.push(path.to_string());
        }
    }

    assert_eq!(paths.len(), 2);
    assert!(paths.contains(&"auth/state".to_string()));
    assert!(paths.contains(&"auth/terms".to_string()));
}

#[test]
fn subscribe_multi_wildcard() {
    let mut store = StateStore::new();
    let id = store.subscribe("auth/#");

    let mut calls = 0;
    calls += count(&store.set_bytes("auth/state", json(1u32)), id);
    calls += count(&store.set_bytes("auth/terms", json(2u32)), id);
    calls += count(&store.set_bytes("auth/deep/nested/path", json(3u32)), id);
    calls += count(&store.set_bytes("home/devices", json(4u32)), id);

    assert_eq!(calls, 3);
}

#[test]
fn subscribe_root_wildcard() {
    let mut store = StateStore::new();
    let id = store.subscribe("#");

    let mut calls = 0;
    calls += count(&store.set_bytes("auth/state", json(1u32)), id);
    calls += count(&store.set_bytes("home/devices", json(2u32)), id);
    calls += count(&store.set_bytes("any/path/at/all", json(3u32)), id);

    assert_eq!(calls, 3);
}

// ========================================================================
// Multiple subscribers
// ========================================================================

#[test]
fn multiple_subscribers_same_pattern() {
    let mut store = StateStore::new();
    let a = store.subscribe("auth/state");
    let b = store.subscribe("auth/state");

    let notified = store.set_bytes("auth/state", json(1u32));

    assert_eq!(count(&notified, a), 1);
    assert_eq!(count(&notified, b), 1);
}

#[test]
fn multiple_subscribers_different_patterns() {
    let mut store = StateStore::new();
    let exact = store.subscribe("auth/state");
    let wild = store.subscribe("auth/+");
    let all = store.subscribe("#");

    let notified = store.set_bytes("auth/state", json(1u32));

    assert_eq!(count(&notified, exact), 1);
    assert_eq!(count(&notified, wild), 1);
    assert_eq!(count(&notified, all), 1);
}

// ========================================================================
// Unsubscribe
// ========================================================================

#[test]
fn store_unsubscribe_stops_notifications() {
    let mut store = StateStore::new();
    let id = store.subscribe("auth/state");

    let mut calls = count(&store.set_bytes("auth/state", json(1u32)), id);
    assert_eq!(calls, 1);

    store.unsubscribe("auth/state", id);
    calls += count(&store.set_bytes("auth/state", json(2u32)), id);
    assert_eq!(calls, 1);
}

#[test]
fn unsubscribe_one_keeps_others() {
    let mut store = StateStore::new();
    let id_a = store.subscribe("auth/state");
    let id_b = store.subscribe("auth/state");

    store.unsubscribe("auth/state", id_a);
    let notified = store.set_bytes("auth/state", json(1u32));

    assert_eq!(count(&notified, id_a), 0);
    assert_eq!(count(&notified, id_b), 1);
}

#[test]
fn unsubscribe_wildcard() {
    let mut store = StateStore::new();
    let id = store.subscribe("auth/#");

    let mut calls = count(&store.set_bytes("auth/state", json(1u32)), id);
    assert_eq!(calls, 1);

    store.unsubscribe("auth/#", id);
    calls += count(&store.set_bytes("auth/state", json(2u32)), id);
    assert_eq!(calls, 1);
}

#[test]
fn unsubscribe_nonexistent_is_noop() {
    let mut store = StateStore::new();
    store.unsubscribe("auth/state", SubscriptionId(999));
}

// ========================================================================
// Subscription IDs are unique
// ========================================================================

#[test]
fn subscription_ids_are_monotonic() {
    let mut store = StateStore::new();

    let id1 = store.subscribe("a");
    let id2 = store.subscribe("b");
    let id3 = store.subscribe("c");

    assert!(id1 != id2);
    assert!(id2 != id3);
    assert!(id1 != id3);
}

// ========================================================================
// Notification ordering
// ========================================================================

#[test]
fn subscriber_sees_value_after_store_updated() {
    let mut store = StateStore::new();
    let id = store.subscribe("counter");

    let notified = store.set_bytes("counter", json(42u32));
    for n in notified {
        if n == id {
            let stored = store.get("counter").unwrap();
            let v: u32 = serde_json::from_slice(&stored).unwrap();
            assert_eq!(v, 42);
        }
    }
}

// ========================================================================
// set_bytes also notifies
// ========================================================================

#[test]
fn set_bytes_triggers_subscription() {
    let mut store = StateStore::new();
    let id = store.subscribe("test");

    let bytes = serde_json::to_vec(&42u32).unwrap();
    let called = count(&store.set_bytes("test", bytes), id);
    assert_eq!(called, 1);
}

// ========================================================================
// Default trait
// ========================================================================

#[test]
fn default_creates_empty_store() {
    let store = StateStore::default();
    assert!(store.is_empty());
}

// ========================================================================
// Further cases
// ========================================================================

#[test]
fn remove_does_not_notify() {
    let mut store = StateStore::new();
    let id = store.subscribe("#");
    store.set_bytes("a", json(1u32));
    // `remove` returns the old value only; there is no one to notify.
    assert!(store.remove("a").is_some());
    assert!(store.set_bytes("b", json(2u32)).contains(&id));
}

#[test]
fn notified_in_subscription_order() {
    let mut store = StateStore::new();
    let first = store.subscribe("#");
    let _other = store.subscribe("home/#");
    let second = store.subscribe("auth/+");
    let third = store.subscribe("auth/state");
    assert_eq!(store.set_bytes("auth/state", json(1u32)), vec![first, second, third]);
}

#[test]
fn single_wildcard_matches_one_level_only() {
    let mut store = StateStore::new();
    let id = store.subscribe("auth/+");
    assert!(!store.set_bytes("auth", json(1u32)).contains(&id));
    assert!(!store.set_bytes("auth/a/b", json(1u32)).contains(&id));
    assert!(store.set_bytes("auth/", json(1u32)).contains(&id));
}

#[test]
fn multi_wildcard_matches_its_parent_too() {
    let mut store = StateStore::new();
    let id = store.subscribe("auth/#");
    assert!(store.set_bytes("auth", json(1u32)).contains(&id));
    assert!(!store.set_bytes("authx/state", json(1u32)).contains(&id));
}

#[test]
fn snapshot_is_sorted_by_code_point() {
    let mut store = StateStore::new();
    store.set_bytes("b", json(1u32));
    store.set_bytes("B", json(2u32));
    store.set_bytes("é", json(3u32));
    store.set_bytes("a/b", json(4u32));
    store.set_bytes("a", json(5u32));
    let paths: Vec<String> = store.snapshot().into_iter().map(|(k, _)| k).collect();
    assert_eq!(paths, vec!["B", "a", "a/b", "b", "é"]);
    assert_eq!(store.paths(), vec!["B", "a", "a/b", "b", "é"]);
}

#[test]
fn subscription_ids_start_at_one_and_count_up() {
    let mut store = StateStore::new();
    assert_eq!(store.subscribe("x"), SubscriptionId(1));
    assert_eq!(store.subscribe("y"), SubscriptionId(2));
    store.unsubscribe("x", SubscriptionId(1));
    assert_eq!(store.subscribe("z"), SubscriptionId(3));
}

#[test]
fn unsubscribe_needs_matching_pattern() {
    let mut store = StateStore::new();
    let id = store.subscribe("auth/state");
    store.unsubscribe("auth/terms", id);
    assert!(store.set_bytes("auth/state", json(1u32)).contains(&id));
}

#[test]
fn subscribed_tracks_registration() {
    let mut store = StateStore::new();
    assert!(store.has_fresh_id());
    let id = store.subscribe("auth/#");
    assert!(store.subscribed(id));
    assert!(!store.subscribed(SubscriptionId(id.0 + 1)));
    store.unsubscribe("auth/state", id);
    assert!(store.subscribed(id));
    store.unsubscribe("auth/#", id);
    assert!(!store.subscribed(id));
    assert!(store.has_fresh_id());
}

#[test]
fn remove_undoes_a_new_write() {
    let mut store = StateStore::new();
    store.set_bytes("a", json(1u32));
    let before = store.snapshot();
    store.set_bytes("b/c", json(2u32));
    store.remove("b/c");
    assert_eq!(store.snapshot(), before);
}

#[test]
fn unsubscribe_undoes_subscribe() {
    let mut store = StateStore::new();
    let keep = store.subscribe("#");
    let before = store.set_bytes("x", json(1u32));
    let temp = store.subscribe("x");
    store.unsubscribe("x", temp);
    assert_eq!(store.set_bytes("x", json(2u32)), before);
    assert_eq!(before, vec![keep]);
}

#[test]
fn scan_is_the_filtered_snapshot() {
    let mut store = StateStore::new();
    for p in ["a", "a/b", "a/b/c", "ab", "a/", "b/a", "a/z"] {
        store.set_bytes(p, json(p));
    }
    let filtered: Vec<(String, Vec<u8>)> =
        store.snapshot().into_iter().filter(|(k, _)| k.starts_with("a/")).collect();
    assert_eq!(store.scan("a"), filtered);
}

#[test]
fn every_matching_subscription_once() {
    let mut store = StateStore::new();
    let all = store.subscribe("#");
    let _miss = store.subscribe("b/+");
    let one = store.subscribe("a/+");
    let exact = store.subscribe("a/x");
    let ids = store.set_bytes("a/x", json(1u32));
    assert_eq!(ids, vec![all, one, exact]);
}
