use vstd::prelude::*;

use crate::cfg::BrokerCfg;
use crate::errors::TransportError;
use crate::task::TelegramMessageTask;

verus! {

/// The kinds of work a request or message can carry. There is one kind today;
/// the wrapper keeps the wire shape open for more.
pub enum Tasks {
    TelegramMessageTask(TelegramMessageTask),
}

/// Acknowledgment of one delivered message, named by its message id. It is
/// sent back through the same request channel that carries task publishes.
pub struct Ack {
    pub message_id: u64,
}

/// Payload of a message broadcast on the fan-out channel.
pub enum BrokerMessagePayload {
    Tasks(Tasks),
}

/// One message broadcast by the broker. Every subscriber of the topic
/// receives a copy of every message; there is no consumer-group partitioning.
pub struct BrokerMessage {
    pub message_id: u64,
    pub payload: BrokerMessagePayload,
}

/// Payload of a request on the strict request/reply channel.
pub enum BrokerRequestPayload {
    Tasks(Tasks),
    Ack(Ack),
}

/// One request accepted by the broker, tagged with the id under which an
/// accepted task will be re-broadcast.
pub struct BrokerRequest {
    pub id: u64,
    pub payload: BrokerRequestPayload,
}

/// Client-side endpoint configuration of the broker's two channels. The
/// socket work around it lives with the runtime; this core only decides what
/// travels over those sockets.
pub struct BrokerClient {
    cfg: BrokerCfg,
}

impl BrokerClient {
    /// Where this client connects.
    pub closed spec fn config(&self) -> BrokerCfg {
        self.cfg
    }

    pub fn new(cfg: BrokerCfg) -> (r: Result<BrokerClient, TransportError>)
        ensures
            r is Ok,
            r matches Ok(c) ==> c.config() == cfg,
    {
        Ok(BrokerClient { cfg })
    }
}

impl Clone for BrokerClient {
    fn clone(&self) -> (res: Self)
        ensures
            res.config() == self.config(),
    {
        BrokerClient { cfg: self.cfg.clone() }
    }
}

} // verus!
