use mega_mailer::task::TelegramMessageTask;

fn task(to: u64, text: &str, send_after: i64, important: bool) -> TelegramMessageTask {
    TelegramMessageTask { to, text: String::from(text), send_after, important }
}

#[test]
fn important_task_is_always_eligible() {
    let t = task(1, "urgent", 1_000_000, true);
    assert!(t.can_send_now(0));
    assert!(t.can_send_now(999_999));
    assert!(t.can_send_now(1_000_000));
    assert!(t.can_send_now(i64::MIN));
    assert!(t.can_send_now(i64::MAX));
}

#[test]
fn unimportant_task_is_gated_by_send_after() {
    let t = task(1, "later", 1_000, false);
    assert!(!t.can_send_now(999));
    assert!(t.can_send_now(1_000));
    assert!(t.can_send_now(1_001));
}

#[test]
fn unimportant_task_far_past_and_future() {
    let t = task(7, "x", 0, false);
    assert!(t.can_send_now(0));
    assert!(!t.can_send_now(-1));
    assert!(t.can_send_now(i64::MAX));
}

#[test]
fn important_overrides_future_send_after() {
    // A task whose send_after lies an hour ahead is eligible immediately when
    // marked important.
    let t0: i64 = 1_700_000_000;
    let t = task(9, "now", t0 + 3600, true);
    assert!(t.can_send_now(t0));
}
