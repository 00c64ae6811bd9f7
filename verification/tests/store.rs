use daily_pulse::store::{FeedTracker, SubscriberFile, SubscriberStore, TrackerFile};

fn sorted(mut chats: Vec<i64>) -> Vec<i64> {
    chats.sort();
    chats
}

#[test]
fn a_tracker_without_a_file_knows_nothing() {
    let tracker = FeedTracker::load("p".to_string(), None);
    assert_eq!(tracker.path, "p");
    assert_eq!(tracker.last_id(), None);
    let blank = FeedTracker::load("p".to_string(), Some(TrackerFile { last_id: None }));
    assert_eq!(blank.last_id(), None);
}

#[test]
fn an_updated_id_is_remembered_and_loads_back() {
    let mut tracker = FeedTracker::load("p".to_string(), None);
    let file = tracker.update(Some("story-9".to_string()));
    assert_eq!(tracker.last_id(), Some("story-9".to_string()));
    assert_eq!(tracker.path, "p");
    assert_eq!(file.last_id, Some("story-9".to_string()));
    let reloaded = FeedTracker::load("p".to_string(), Some(file));
    assert_eq!(reloaded.last_id(), Some("story-9".to_string()));
    let file = tracker.update(None);
    assert_eq!(file.last_id, None);
    assert_eq!(tracker.last_id(), None);
}

#[test]
fn a_store_without_a_file_is_empty() {
    let store = SubscriberStore::load("s".to_string(), None);
    assert_eq!(store.path, "s");
    assert!(store.all().is_empty());
}

#[test]
fn chats_named_twice_are_loaded_once() {
    let file = SubscriberFile { subscribers: vec![5, -7, 5, 5] };
    let store = SubscriberStore::load("s".to_string(), Some(file));
    assert_eq!(sorted(store.all()), vec![-7, 5]);
}

#[test]
fn only_a_new_chat_is_written() {
    let mut store = SubscriberStore::load("s".to_string(), None);
    let file = store.add(42).unwrap();
    assert_eq!(file.subscribers, vec![42]);
    assert!(store.add(42).is_none());
    assert_eq!(store.all(), vec![42]);
    let file = store.add(-1).unwrap();
    assert_eq!(sorted(file.subscribers), vec![-1, 42]);
}

#[test]
fn written_chats_load_back() {
    let mut store = SubscriberStore::load("s".to_string(), None);
    for chat in [3, 1, 2, i64::MIN, i64::MAX, 3] {
        store.add(chat);
    }
    let reloaded = SubscriberStore::load("s".to_string(), Some(store.persist()));
    assert_eq!(sorted(reloaded.all()), sorted(store.all()));
    assert_eq!(sorted(reloaded.all()), vec![i64::MIN, 1, 2, 3, i64::MAX]);
}
