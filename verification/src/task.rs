use vstd::prelude::*;

verus! {

/// The unit of work carried end to end: the recipient's chat id, the message
/// text, the earliest delivery instant (`send_after`, seconds of UTC time),
/// and the importance flag that overrides the time gate.
///
/// A task is immutable once created; the producer computes `send_after` as an
/// absolute UTC instant, so no timezone arithmetic happens downstream.
#[derive(Debug)]
pub struct TelegramMessageTask {
    pub to: u64,
    pub text: String,
    pub send_after: i64,
    pub important: bool,
}

/// The eligibility gate: a cached task may be dispatched at `now` exactly when
/// it is marked important or its earliest delivery instant has been reached.
/// Pure, side-effect free, and defined over UTC instants only.
pub open spec fn eligible(task: TelegramMessageTask, now: i64) -> bool {
    task.important || now >= task.send_after
}

impl TelegramMessageTask {
    /// Whether the task clears the eligibility gate when the sweep runs at
    /// `now`.
    pub fn can_send_now(&self, now: i64) -> (b: bool)
        ensures
            b == eligible(*self, now),
    {
        self.important || now >= self.send_after
    }
}

impl Clone for TelegramMessageTask {
    fn clone(&self) -> (res: Self)
        ensures
            res == *self,
    {
        TelegramMessageTask {
            to: self.to,
            text: self.text.clone(),
            send_after: self.send_after,
            important: self.important,
        }
    }
}

/// An important task is eligible at every instant, regardless of `send_after`.
pub proof fn lemma_important_always_eligible(task: TelegramMessageTask, now: i64)
    requires
        task.important,
    ensures
        eligible(task, now),
{
}

/// A task that is not important is eligible exactly when `now` has reached its
/// `send_after` instant.
pub proof fn lemma_eligibility_time_gated(task: TelegramMessageTask, now: i64)
    requires
        !task.important,
    ensures
        eligible(task, now) == (now >= task.send_after),
{
}

} // verus!
