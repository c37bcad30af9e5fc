use vstd::prelude::*;

use crate::errors::{RecoveryError, TransportError};
use crate::queues::{BrokerMessage, BrokerMessagePayload, Tasks};
use crate::task::TelegramMessageTask;

verus! {

/// Identifies one delivery of one message: the message id and the epoch of
/// the channel that delivered it. Two handles are equal only if both
/// components match; an acknowledgment whose epoch does not match the live
/// channel is a safe no-op.
#[derive(Clone, Copy, PartialEq, Eq, Structural, Debug)]
pub struct AckHandle {
    pub id: u64,
    pub epoch: u64,
}

/// The transport channel's lifecycle: `Connected` after startup, `Recovering`
/// while a detected fault is being repaired, `Consuming` while the
/// subscription stream is live.
#[derive(Clone, Copy, PartialEq, Eq, Structural, Debug)]
pub enum ChannelState {
    Connected,
    Recovering,
    Consuming,
}

/// The message under which a published task travels.
pub open spec fn task_message(id: u64, task: TelegramMessageTask) -> BrokerMessage {
    BrokerMessage { message_id: id, payload: BrokerMessagePayload::Tasks(Tasks::TelegramMessageTask(task)) }
}

/// The task a broadcast message carries.
pub open spec fn message_task(m: BrokerMessage) -> TelegramMessageTask {
    match m.payload {
        BrokerMessagePayload::Tasks(Tasks::TelegramMessageTask(t)) => t,
    }
}

/// The transport as seen by its single logical consumer: at-least-once
/// carriage of tasks from `publish` to the subscription stream, explicit
/// acknowledgment, and wholesale channel replacement on failure.
///
/// `stream` is the sequence of messages the broker has accepted for the
/// queue; `cursor` counts how many of them the consumer has received. The
/// channel epoch tags every handle the stream hands out, so that
/// acknowledgments can be checked against the live channel.
pub struct Transport {
    queue_name: String,
    state: ChannelState,
    epoch: u64,
    next_id: u64,
    stream: Vec<BrokerMessage>,
    cursor: usize,
}

impl Transport {
    /// The name of the queue this transport declares and consumes from.
    pub closed spec fn queue_name(&self) -> String {
        self.queue_name
    }

    /// Where the channel stands in its lifecycle.
    pub closed spec fn state(&self) -> ChannelState {
        self.state
    }

    /// The epoch of the live channel. Bumped each time recovery installs a
    /// replacement channel.
    pub closed spec fn epoch(&self) -> u64 {
        self.epoch
    }

    /// The id the next accepted publish will be tagged with.
    pub closed spec fn next_id(&self) -> u64 {
        self.next_id
    }

    /// Every message accepted for the queue so far, in acceptance order.
    pub closed spec fn stream(&self) -> Seq<BrokerMessage> {
        self.stream@
    }

    /// How many messages of the stream the consumer has already received.
    pub closed spec fn cursor(&self) -> int {
        self.cursor as int
    }

    /// Message ids are unique (each below `next_id`), and the consumer has
    /// never received more messages than were accepted.
    pub open spec fn wf(&self) -> bool {
        &&& self.cursor() <= self.stream().len()
        &&& forall|i: int|
            0 <= i < self.stream().len() ==> #[trigger] self.stream()[i].message_id < self.next_id()
        &&& forall|i: int, j: int|
            0 <= i < j < self.stream().len() ==> self.stream()[i].message_id != self.stream()[j].message_id
    }

    /// Where the channel stands in its lifecycle.
    pub fn current_state(&self) -> (s: ChannelState)
        ensures
            s == self.state(),
    {
        self.state
    }

    /// The epoch of the live channel.
    pub fn current_epoch(&self) -> (e: u64)
        ensures
            e == self.epoch(),
    {
        self.epoch
    }

    /// The name of the queue this transport declares and consumes from.
    pub fn queue(&self) -> (q: String)
        ensures
            q == self.queue_name(),
    {
        self.queue_name.clone()
    }

    /// A fresh transport for `queue_name`: connected, epoch zero, nothing
    /// accepted and nothing received.
    pub fn new(queue_name: String) -> (t: Transport)
        ensures
            t.wf(),
            t.queue_name() == queue_name,
            t.state() == ChannelState::Connected,
            t.epoch() == 0,
            t.next_id() == 0,
            t.stream() == Seq::<BrokerMessage>::empty(),
            t.cursor() == 0,
    {
        Transport {
            queue_name,
            state: ChannelState::Connected,
            epoch: 0,
            next_id: 0,
            stream: Vec::new(),
            cursor: 0,
        }
    }

    /// What `publish` leaves behind when it succeeds with id `id`: the task
    /// is appended to the queue's stream under `id` and nothing else moves.
    pub open spec fn publish_ok(pre: Transport, task: TelegramMessageTask, post: Transport, id: u64) -> bool {
        &&& pre.state() != ChannelState::Recovering
        &&& id == pre.next_id()
        &&& post.stream() == pre.stream().push(task_message(id, task))
        &&& post.next_id() == pre.next_id() + 1
        &&& post.cursor() == pre.cursor()
        &&& post.epoch() == pre.epoch()
        &&& post.state() == pre.state()
        &&& post.queue_name() == pre.queue_name()
    }

    /// Send one task. Fails — with nothing changed — only while the channel
    /// is being recovered; at every other time the task is accepted and
    /// tagged with a fresh id.
    pub fn publish(&mut self, task: TelegramMessageTask) -> (r: Result<u64, TransportError>)
        requires
            old(self).wf(),
            old(self).next_id() < u64::MAX,
        ensures
            final(self).wf(),
            old(self).state() == ChannelState::Recovering ==> r
                == Err::<u64, TransportError>(TransportError::ChannelUnavailable)
                && *final(self) == *old(self),
            old(self).state() != ChannelState::Recovering ==> (r matches Ok(id)
                && Transport::publish_ok(*old(self), task, *final(self), id)),
    {
        if matches!(self.state, ChannelState::Recovering) {
            return Err(TransportError::ChannelUnavailable);
        }
        let id = self.next_id;
        self.next_id = self.next_id + 1;
        self.stream.push(BrokerMessage {
            message_id: id,
            payload: BrokerMessagePayload::Tasks(Tasks::TelegramMessageTask(task)),
        });
        Ok(id)
    }

    /// Open (or re-open) the subscription stream. Fails only while the
    /// channel is being recovered; otherwise the channel starts consuming and
    /// nothing else moves.
    pub fn subscribe(&mut self) -> (r: Result<(), TransportError>)
        requires
            old(self).wf(),
        ensures
            final(self).wf(),
            old(self).state() == ChannelState::Recovering ==> r
                == Err::<(), TransportError>(TransportError::ChannelUnavailable)
                && *final(self) == *old(self),
            old(self).state() != ChannelState::Recovering ==> r == Ok::<(), TransportError>(())
                && final(self).state() == ChannelState::Consuming
                && final(self).queue_name() == old(self).queue_name()
                && final(self).epoch() == old(self).epoch()
                && final(self).next_id() == old(self).next_id()
                && final(self).stream() == old(self).stream()
                && final(self).cursor() == old(self).cursor(),
    {
        if matches!(self.state, ChannelState::Recovering) {
            return Err(TransportError::ChannelUnavailable);
        }
        self.state = ChannelState::Consuming;
        Ok(())
    }

    /// What one successful stream read leaves behind: the consumer receives
    /// the first not-yet-received message of the stream together with a
    /// handle carrying that message's id and the live epoch, and the cursor
    /// moves past it.
    pub open spec fn recv_yield(pre: Transport, post: Transport, task: TelegramMessageTask, h: AckHandle) -> bool {
        &&& pre.state() == ChannelState::Consuming
        &&& pre.cursor() < pre.stream().len()
        &&& task == message_task(pre.stream()[pre.cursor()])
        &&& h == (AckHandle { id: pre.stream()[pre.cursor()].message_id, epoch: pre.epoch() })
        &&& post.cursor() == pre.cursor() + 1
        &&& post.stream() == pre.stream()
        &&& post.next_id() == pre.next_id()
        &&& post.epoch() == pre.epoch()
        &&& post.state() == pre.state()
        &&& post.queue_name() == pre.queue_name()
    }

    /// Receive the next message of the subscription stream, if one is
    /// waiting. Each received item comes with the handle that later
    /// acknowledges exactly that delivery. Fails only when the stream is not
    /// being consumed.
    pub fn recv_next(&mut self) -> (r: Result<Option<(TelegramMessageTask, AckHandle)>, TransportError>)
        requires
            old(self).wf(),
        ensures
            final(self).wf(),
            old(self).state() != ChannelState::Consuming ==> (r matches Err(e)
                && e == TransportError::ChannelUnavailable && *final(self) == *old(self)),
            old(self).state() == ChannelState::Consuming && old(self).cursor() == old(
                self,
            ).stream().len() ==> (r matches Ok(m) && m is None && *final(self) == *old(self)),
            old(self).state() == ChannelState::Consuming && old(self).cursor() < old(
                self,
            ).stream().len() ==> (r matches Ok(Some((task, h)))
                && Transport::recv_yield(*old(self), *final(self), task, h)),
    {
        if !matches!(self.state, ChannelState::Consuming) {
            return Err(TransportError::ChannelUnavailable);
        }
        if self.cursor == self.stream.len() {
            return Ok(None);
        }
        let m = &self.stream[self.cursor];
        let task = match &m.payload {
            BrokerMessagePayload::Tasks(Tasks::TelegramMessageTask(t)) => t.clone(),
        };
        let h = AckHandle { id: m.message_id, epoch: self.epoch };
        self.cursor = self.cursor + 1;
        Ok(Some((task, h)))
    }

    /// Acknowledge one delivery. A handle whose epoch does not match the live
    /// channel is from before a recovery: the call succeeds and changes
    /// nothing, and in particular never touches the new channel's deliveries.
    /// A current-epoch acknowledgment reaches the broker — which, in this
    /// protocol variant, accepts it without altering retention state — and
    /// fails only while the channel is being recovered. No call moves the
    /// stream, the cursor, or the epoch.
    pub fn ack(&mut self, handle: AckHandle) -> (r: Result<(), TransportError>)
        requires
            old(self).wf(),
        ensures
            final(self).wf(),
            *final(self) == *old(self),
            handle.epoch != old(self).epoch() ==> r is Ok,
            handle.epoch == old(self).epoch() ==> (r is Ok <==> old(self).state()
                != ChannelState::Recovering),
            r is Err ==> r == Err::<(), TransportError>(TransportError::ChannelUnavailable),
    {
        if handle.epoch != self.epoch {
            return Ok(());
        }
        if matches!(self.state, ChannelState::Recovering) {
            return Err(TransportError::ChannelUnavailable);
        }
        Ok(())
    }

    /// The channel has been detected as closed (by the broker or the
    /// network): enter recovery. Everything already accepted or received is
    /// untouched; only the lifecycle state moves.
    pub fn force_close(&mut self)
        requires
            old(self).wf(),
        ensures
            final(self).wf(),
            final(self).state() == ChannelState::Recovering,
            final(self).queue_name() == old(self).queue_name(),
            final(self).epoch() == old(self).epoch(),
            final(self).next_id() == old(self).next_id(),
            final(self).stream() == old(self).stream(),
            final(self).cursor() == old(self).cursor(),
    {
        self.state = ChannelState::Recovering;
    }

    /// What a completed recovery leaves behind: a replacement channel under
    /// the next epoch, consuming, with the same declared queue name; the
    /// stream and the cursor are untouched, so nothing already received is
    /// redelivered and nothing accepted is lost.
    pub open spec fn recover_ok(pre: Transport, post: Transport) -> bool {
        &&& pre.state() == ChannelState::Recovering
        &&& post.state() == ChannelState::Consuming
        &&& post.epoch() == pre.epoch() + 1
        &&& post.queue_name() == pre.queue_name()
        &&& post.next_id() == pre.next_id()
        &&& post.stream() == pre.stream()
        &&& post.cursor() == pre.cursor()
    }

    /// Re-establish the channel after a detected fault: open a replacement
    /// channel, re-declare the queue under its unchanged name (the declare is
    /// idempotent), move to the next epoch, and resume consuming. Outside
    /// recovery the call changes nothing.
    pub fn recover(&mut self) -> (r: Result<(), RecoveryError>)
        requires
            old(self).wf(),
            old(self).epoch() < u64::MAX,
        ensures
            final(self).wf(),
            r is Ok,
            old(self).state() == ChannelState::Recovering ==> Transport::recover_ok(
                *old(self),
                *final(self),
            ),
            old(self).state() != ChannelState::Recovering ==> *final(self) == *old(self),
    {
        if !matches!(self.state, ChannelState::Recovering) {
            return Ok(());
        }
        self.epoch = self.epoch + 1;
        self.state = ChannelState::Consuming;
        Ok(())
    }

    /// Send one task, re-attempting a failed publish up to `max_attempts`
    /// times in all, and surfacing the final error if every attempt fails.
    /// The delay between attempts belongs to the caller's runtime.
    pub fn publish_with_retry(&mut self, task: TelegramMessageTask, max_attempts: u32) -> (r: Result<
        u64,
        TransportError,
    >)
        requires
            old(self).wf(),
            old(self).next_id() < u64::MAX,
        ensures
            final(self).wf(),
            max_attempts == 0 ==> r is Err && *final(self) == *old(self),
            max_attempts > 0 && old(self).state() == ChannelState::Recovering ==> r
                == Err::<u64, TransportError>(TransportError::ChannelUnavailable)
                && *final(self) == *old(self),
            max_attempts > 0 && old(self).state() != ChannelState::Recovering ==> (r matches Ok(id)
                && Transport::publish_ok(*old(self), task, *final(self), id)),
    {
        let mut last_err = TransportError::ChannelUnavailable;
        let mut attempt: u32 = 0;
        while attempt < max_attempts
            invariant
                self.wf(),
                *self == *old(self),
                old(self).next_id() < u64::MAX,
                attempt <= max_attempts,
                attempt > 0 ==> old(self).state() == ChannelState::Recovering,
                last_err == TransportError::ChannelUnavailable,
            decreases max_attempts - attempt,
        {
            match self.publish(task.clone()) {
                Ok(id) => {
                    return Ok(id);
                },
                Err(e) => {
                    last_err = e;
                },
            }
            attempt = attempt + 1;
        }
        Err(last_err)
    }

    /// Acknowledge one delivery, re-attempting a failed call up to
    /// `max_attempts` times in all. The caller is expected to log and ignore
    /// the final error: an exhausted acknowledgment is non-fatal.
    pub fn ack_with_retry(&mut self, handle: AckHandle, max_attempts: u32) -> (r: Result<
        (),
        TransportError,
    >)
        requires
            old(self).wf(),
        ensures
            final(self).wf(),
            *final(self) == *old(self),
            max_attempts == 0 ==> r is Err,
            max_attempts > 0 && handle.epoch != old(self).epoch() ==> r is Ok,
            max_attempts > 0 && handle.epoch == old(self).epoch() ==> (r is Ok <==> old(
                self,
            ).state() != ChannelState::Recovering),
    {
        let mut last_err = TransportError::ChannelUnavailable;
        let mut attempt: u32 = 0;
        while attempt < max_attempts
            invariant
                self.wf(),
                *self == *old(self),
                attempt <= max_attempts,
                attempt > 0 ==> handle.epoch == old(self).epoch() && old(self).state()
                    == ChannelState::Recovering,
                last_err == TransportError::ChannelUnavailable,
            decreases max_attempts - attempt,
        {
            match self.ack(handle) {
                Ok(()) => {
                    return Ok(());
                },
                Err(e) => {
                    last_err = e;
                },
            }
            attempt = attempt + 1;
        }
        Err(last_err)
    }
}

/// A task published into a drained stream is the task the next stream read
/// yields, unchanged in every field, and its handle carries the id the
/// publish was given and the epoch of the channel that delivered it.
pub proof fn lemma_publish_recv_round_trip(
    t0: Transport,
    task: TelegramMessageTask,
    t1: Transport,
    id: u64,
    t2: Transport,
    got: TelegramMessageTask,
    h: AckHandle,
)
    requires
        t0.cursor() == t0.stream().len(),
        Transport::publish_ok(t0, task, t1, id),
        Transport::recv_yield(t1, t2, got, h),
    ensures
        got == task,
        h.id == id,
        h.epoch == t1.epoch(),
{
    assert(t1.stream()[t1.cursor()] == task_message(id, task));
}

/// An acknowledgment bearing a stale channel epoch succeeds and affects
/// nothing: not the stream, not the cursor, not the live channel.
pub proof fn lemma_stale_ack_noop(
    pre: Transport,
    post: Transport,
    handle: AckHandle,
    r: Result<(), TransportError>,
)
    requires
        handle.epoch != pre.epoch(),
        // What `ack` ensures of every call:
        post == pre,
        handle.epoch != pre.epoch() ==> r is Ok,
    ensures
        r is Ok,
        post.stream() == pre.stream(),
        post.cursor() == pre.cursor(),
        post.epoch() == pre.epoch(),
        post.state() == pre.state(),
{
}

/// The recovery path: a detected fault moves the channel to `Recovering`
/// (`force_close`), and a completed recovery moves it to `Consuming` under
/// the next epoch with the queue name unchanged — so a subsequent publish and
/// subscribe find a live channel bearing the same queue name. No message
/// already received is redelivered (the cursor is unchanged) and no message
/// already accepted is lost (the stream is unchanged).
pub proof fn lemma_recovery_restores_channel(t1: Transport, t2: Transport)
    requires
        t1.state() == ChannelState::Recovering,
        Transport::recover_ok(t1, t2),
    ensures
        t2.state() == ChannelState::Consuming,
        t2.state() != ChannelState::Recovering,
        t2.queue_name() == t1.queue_name(),
        t2.epoch() == t1.epoch() + 1,
        t2.stream() == t1.stream(),
        t2.cursor() == t1.cursor(),
{
}

} // verus!
