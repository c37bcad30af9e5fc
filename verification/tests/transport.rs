use mega_mailer::cache::PendingCache;
use mega_mailer::errors::TransportError;
use mega_mailer::task::TelegramMessageTask;
use mega_mailer::transport::{ChannelState, Transport};

fn task(to: u64, text: &str, send_after: i64, important: bool) -> TelegramMessageTask {
    TelegramMessageTask { to, text: String::from(text), send_after, important }
}

#[test]
fn publish_then_consume_round_trips_the_task() {
    let mut tr = Transport::new(String::from("tasks"));
    tr.subscribe().unwrap();
    let id = tr.publish(task(11, "hello there", 1234, true)).unwrap();
    let (got, handle) = tr.recv_next().unwrap().unwrap();
    assert_eq!(got.to, 11);
    assert_eq!(got.text, "hello there");
    assert_eq!(got.send_after, 1234);
    assert!(got.important);
    assert_eq!(handle.id, id);
    assert_eq!(handle.epoch, tr.current_epoch());
    assert!(tr.recv_next().unwrap().is_none());
}

#[test]
fn stale_epoch_ack_is_a_safe_noop() {
    let mut tr = Transport::new(String::from("tasks"));
    tr.subscribe().unwrap();
    tr.publish(task(1, "a", 0, false)).unwrap();
    tr.publish(task(2, "b", 0, false)).unwrap();
    let (_, h1) = tr.recv_next().unwrap().unwrap();
    // The channel fails and is replaced; h1 now carries a stale epoch.
    tr.force_close();
    tr.recover().unwrap();
    assert_ne!(h1.epoch, tr.current_epoch());
    assert_eq!(tr.ack(h1), Ok(()));
    // The second delivery is unaffected by the stale ack.
    let (got, h2) = tr.recv_next().unwrap().unwrap();
    assert_eq!(got.to, 2);
    assert_eq!(h2.epoch, tr.current_epoch());
    assert_eq!(tr.ack(h2), Ok(()));
}

#[test]
fn current_epoch_ack_succeeds_on_live_channel() {
    let mut tr = Transport::new(String::from("tasks"));
    tr.subscribe().unwrap();
    tr.publish(task(1, "a", 0, false)).unwrap();
    let (_, h) = tr.recv_next().unwrap().unwrap();
    assert_eq!(tr.ack(h), Ok(()));
}

#[test]
fn publish_during_recovery_fails_with_transport_error() {
    let mut tr = Transport::new(String::from("tasks"));
    tr.subscribe().unwrap();
    tr.force_close();
    assert_eq!(
        tr.publish(task(1, "a", 0, false)),
        Err(TransportError::ChannelUnavailable)
    );
    assert_eq!(
        tr.publish_with_retry(task(1, "a", 0, false), 3),
        Err(TransportError::ChannelUnavailable)
    );
}

#[test]
fn retry_with_zero_attempts_fails() {
    let mut tr = Transport::new(String::from("tasks"));
    assert!(tr.publish_with_retry(task(1, "a", 0, false), 0).is_err());
    assert!(tr.ack_with_retry(mega_mailer::transport::AckHandle { id: 0, epoch: 0 }, 0).is_err());
}

#[test]
fn recovery_restores_publish_and_subscribe_on_same_queue() {
    let mut tr = Transport::new(String::from("mail_tasks"));
    tr.subscribe().unwrap();
    tr.force_close();
    assert!(tr.subscribe().is_err());
    tr.recover().unwrap();
    assert_eq!(tr.queue(), "mail_tasks");
    assert!(tr.subscribe().is_ok());
    assert!(tr.publish(task(5, "after recovery", 0, false)).is_ok());
    let (got, _) = tr.recv_next().unwrap().unwrap();
    assert_eq!(got.text, "after recovery");
}

#[test]
fn forced_closure_walks_the_recovery_states() {
    // A channel forcibly closed mid-run: the lifecycle walks
    // Connected/Consuming -> Recovering -> Consuming, nothing already
    // received is redelivered, and nothing cached before the fault is lost.
    let mut tr = Transport::new(String::from("tasks"));
    assert_eq!(tr.current_state(), ChannelState::Connected);
    tr.subscribe().unwrap();
    assert_eq!(tr.current_state(), ChannelState::Consuming);

    let mut cache = PendingCache::new();
    let id1 = tr.publish(task(1, "first", 0, false)).unwrap();
    tr.publish(task(2, "second", 0, false)).unwrap();
    let (t1, h1) = tr.recv_next().unwrap().unwrap();
    cache.insert(h1, t1);

    let epoch_before = tr.current_epoch();
    tr.force_close();
    assert_eq!(tr.current_state(), ChannelState::Recovering);
    assert!(tr.recv_next().is_err());
    tr.recover().unwrap();
    assert_eq!(tr.current_state(), ChannelState::Consuming);
    assert_eq!(tr.current_epoch(), epoch_before + 1);

    // The task inserted before the fault is still cached, under its (now
    // stale) handle, and its eventual ack is a no-op rather than an error.
    assert!(cache.contains_id(id1));
    assert_eq!(tr.ack(h1), Ok(()));

    // The task published before the fault but not yet received is not lost,
    // and the task already received is not redelivered.
    let (t2, h2) = tr.recv_next().unwrap().unwrap();
    assert_eq!(t2.to, 2);
    assert_eq!(h2.epoch, tr.current_epoch());
    assert!(tr.recv_next().unwrap().is_none());
}
