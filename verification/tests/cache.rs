use mega_mailer::cache::PendingCache;
use mega_mailer::task::TelegramMessageTask;
use mega_mailer::transport::AckHandle;

fn task(to: u64, text: &str) -> TelegramMessageTask {
    TelegramMessageTask { to, text: String::from(text), send_after: 0, important: false }
}

#[test]
fn insert_same_id_twice_keeps_one_entry() {
    let mut cache = PendingCache::new();
    let h = AckHandle { id: 42, epoch: 0 };
    cache.insert(h, task(1, "hello"));
    cache.insert(h, task(1, "hello"));
    assert_eq!(cache.len(), 1);
    let snap = cache.snapshot();
    assert_eq!(snap.len(), 1);
    assert_eq!(snap[0].handle, h);
    assert_eq!(snap[0].task.text, "hello");
}

#[test]
fn insert_same_id_overwrites_entry() {
    let mut cache = PendingCache::new();
    cache.insert(AckHandle { id: 7, epoch: 0 }, task(1, "first"));
    cache.insert(AckHandle { id: 7, epoch: 1 }, task(1, "second"));
    assert_eq!(cache.len(), 1);
    let snap = cache.snapshot();
    assert_eq!(snap[0].task.text, "second");
    assert_eq!(snap[0].handle.epoch, 1);
}

#[test]
fn distinct_ids_accumulate() {
    let mut cache = PendingCache::new();
    for id in 0..5u64 {
        cache.insert(AckHandle { id, epoch: 0 }, task(id, "t"));
    }
    assert_eq!(cache.len(), 5);
    assert!(cache.contains_id(0));
    assert!(cache.contains_id(4));
    assert!(!cache.contains_id(5));
}

#[test]
fn remove_ids_drops_a_batch() {
    let mut cache = PendingCache::new();
    for id in 0..4u64 {
        cache.insert(AckHandle { id, epoch: 0 }, task(id, "t"));
    }
    cache.remove_ids(&vec![1, 3, 9]);
    assert_eq!(cache.len(), 2);
    assert!(cache.contains_id(0));
    assert!(!cache.contains_id(1));
    assert!(cache.contains_id(2));
    assert!(!cache.contains_id(3));
}

#[test]
fn remove_absent_id_changes_nothing() {
    let mut cache = PendingCache::new();
    cache.insert(AckHandle { id: 1, epoch: 0 }, task(1, "t"));
    cache.remove_id(99);
    assert_eq!(cache.len(), 1);
    assert!(cache.contains_id(1));
}

#[test]
fn snapshot_is_a_copy() {
    let mut cache = PendingCache::new();
    cache.insert(AckHandle { id: 1, epoch: 0 }, task(1, "a"));
    let snap = cache.snapshot();
    cache.remove_id(1);
    assert_eq!(snap.len(), 1);
    assert_eq!(cache.len(), 0);
}
