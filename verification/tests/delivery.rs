use mega_mailer::cache::PendingCache;
use mega_mailer::delivery::{
    collect_dispatched, eligible_entries, sweep_settle, tasks_for_recipient, DispatchRecord,
};
use mega_mailer::task::TelegramMessageTask;
use mega_mailer::transport::AckHandle;

fn task(to: u64, text: &str, send_after: i64, important: bool) -> TelegramMessageTask {
    TelegramMessageTask { to, text: String::from(text), send_after, important }
}

#[test]
fn selection_applies_the_gate() {
    let mut cache = PendingCache::new();
    cache.insert(AckHandle { id: 1, epoch: 0 }, task(1, "due", 100, false));
    cache.insert(AckHandle { id: 2, epoch: 0 }, task(2, "not due", 200, false));
    cache.insert(AckHandle { id: 3, epoch: 0 }, task(3, "important", 900, true));
    let snap = cache.snapshot();
    let selected = eligible_entries(&snap, 150);
    let mut ids: Vec<u64> = selected.iter().map(|e| e.handle.id).collect();
    ids.sort();
    assert_eq!(ids, vec![1, 3]);
}

#[test]
fn collect_dispatched_keeps_successes_in_order() {
    let results = vec![
        DispatchRecord { id: 5, ok: true },
        DispatchRecord { id: 6, ok: false },
        DispatchRecord { id: 7, ok: true },
    ];
    assert_eq!(collect_dispatched(&results), vec![5, 7]);
}

#[test]
fn settle_removes_only_delivered_entries() {
    let mut cache = PendingCache::new();
    cache.insert(AckHandle { id: 1, epoch: 0 }, task(1, "a", 0, false));
    cache.insert(AckHandle { id: 2, epoch: 0 }, task(2, "b", 0, false));
    let results = vec![
        DispatchRecord { id: 1, ok: true },
        DispatchRecord { id: 2, ok: false },
    ];
    let removed = sweep_settle(&mut cache, &results);
    assert_eq!(removed, vec![1]);
    // A delivered task is gone from the next snapshot; a failed one remains.
    assert!(!cache.contains_id(1));
    assert!(cache.contains_id(2));
    assert_eq!(cache.snapshot().len(), 1);
}

#[test]
fn scenario_gated_task_dispatched_after_its_instant() {
    // task { to: "u1", text: "hi", send_after: t0, important: false }:
    // a sweep five seconds early leaves it untouched; a sweep one second
    // after t0 dispatches, and settling removes it.
    let t0: i64 = 1_700_000_000;
    let mut cache = PendingCache::new();
    cache.insert(AckHandle { id: 1, epoch: 0 }, task(1, "hi", t0, false));

    let early = eligible_entries(&cache.snapshot(), t0 - 5);
    assert!(early.is_empty());
    assert_eq!(cache.len(), 1);

    let due = eligible_entries(&cache.snapshot(), t0 + 1);
    assert_eq!(due.len(), 1);
    assert_eq!(due[0].task.text, "hi");
    let results = vec![DispatchRecord { id: due[0].handle.id, ok: true }];
    sweep_settle(&mut cache, &results);
    assert_eq!(cache.len(), 0);
}

#[test]
fn scenario_sender_fails_three_sweeps_then_succeeds() {
    // The sender fails on sweeps 1-3 and succeeds on sweep 4: the task is
    // removed only after sweep 4, and the cache never holds two entries for
    // its id.
    let mut cache = PendingCache::new();
    let h = AckHandle { id: 10, epoch: 0 };
    cache.insert(h, task(3, "retry me", 0, false));

    for _sweep in 0..3 {
        let selected = eligible_entries(&cache.snapshot(), 100);
        assert_eq!(selected.len(), 1);
        assert_eq!(selected[0].handle.id, 10);
        let results = vec![DispatchRecord { id: 10, ok: false }];
        let removed = sweep_settle(&mut cache, &results);
        assert!(removed.is_empty());
        assert_eq!(cache.len(), 1);
    }

    let selected = eligible_entries(&cache.snapshot(), 100);
    assert_eq!(selected.len(), 1);
    let results = vec![DispatchRecord { id: 10, ok: true }];
    let removed = sweep_settle(&mut cache, &results);
    assert_eq!(removed, vec![10]);
    assert_eq!(cache.len(), 0);
}

#[test]
fn tasks_for_recipient_filters_by_address() {
    let mut cache = PendingCache::new();
    cache.insert(AckHandle { id: 1, epoch: 0 }, task(5, "for five", 0, false));
    cache.insert(AckHandle { id: 2, epoch: 0 }, task(6, "for six", 0, false));
    cache.insert(AckHandle { id: 3, epoch: 0 }, task(5, "also five", 0, true));
    let snap = cache.snapshot();
    let mine = tasks_for_recipient(&snap, 5);
    assert_eq!(mine.len(), 2);
    assert!(mine.iter().all(|e| e.task.to == 5));
    assert!(tasks_for_recipient(&snap, 9).is_empty());
}

#[test]
fn selection_skips_nothing_when_all_are_important() {
    let entries = vec![
        mega_mailer::cache::PendingEntry {
            handle: AckHandle { id: 1, epoch: 0 },
            task: task(1, "a", i64::MAX, true),
        },
        mega_mailer::cache::PendingEntry {
            handle: AckHandle { id: 2, epoch: 0 },
            task: task(2, "b", i64::MAX, true),
        },
    ];
    let selected = eligible_entries(&entries, 0);
    assert_eq!(selected.len(), 2);
    assert_eq!(selected[0].handle.id, 1);
    assert_eq!(selected[1].handle.id, 2);
}
