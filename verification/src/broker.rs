use vstd::prelude::*;

use crate::cfg::BrokerSvcCfg;
use crate::errors::TransportError;
use crate::queues::{BrokerMessage, BrokerMessagePayload, BrokerRequest, BrokerRequestPayload};

verus! {

/// The broker service's decision core: it accepts requests from the strict
/// request/reply channel and queues accepted tasks for the fan-out channel.
/// The sockets that carry requests and broadcasts live with the runtime; they
/// hand requests in and carry queued messages out.
pub struct Broker {
    cfg: BrokerSvcCfg,
    outbox: Vec<BrokerMessage>,
}

impl Broker {
    /// The configuration this broker was started with.
    pub closed spec fn config(&self) -> BrokerSvcCfg {
        self.cfg
    }

    /// The messages accepted and not yet handed to the fan-out channel, in
    /// order of acceptance.
    pub closed spec fn outbox(&self) -> Seq<BrokerMessage> {
        self.outbox@
    }

    pub fn new(cfg: BrokerSvcCfg) -> (r: Result<Broker, TransportError>)
        ensures
            r is Ok,
            r matches Ok(b) ==> b.config() == cfg && b.outbox() == Seq::<BrokerMessage>::empty(),
    {
        Ok(Broker { cfg, outbox: Vec::new() })
    }

    /// Accept one request from the reply channel. A task publish is wrapped in
    /// a broadcast message under the request's own id and queued for the
    /// fan-out channel. An acknowledgment is accepted but never alters
    /// delivery or retention state — a known incompleteness of this protocol
    /// variant, kept as observed rather than repaired here. The reply to the
    /// requester is empty either way.
    pub fn handle_request(&mut self, req: BrokerRequest)
        ensures
            final(self).config() == old(self).config(),
            (match req.payload {
                BrokerRequestPayload::Tasks(t) => final(self).outbox() == old(self).outbox().push(
                    (BrokerMessage { message_id: req.id, payload: BrokerMessagePayload::Tasks(t) }),
                ),
                BrokerRequestPayload::Ack(_) => final(self).outbox() == old(self).outbox(),
            }),
    {
        match req.payload {
            BrokerRequestPayload::Tasks(t) => {
                self.outbox.push(BrokerMessage {
                    message_id: req.id,
                    payload: BrokerMessagePayload::Tasks(t),
                });
            },
            BrokerRequestPayload::Ack(_) => {},
        }
    }

    /// The next message to broadcast on the fan-out channel, oldest first.
    pub fn take_broadcast(&mut self) -> (m: Option<BrokerMessage>)
        ensures
            final(self).config() == old(self).config(),
            old(self).outbox().len() == 0 ==> m is None
                && final(self).outbox() == old(self).outbox(),
            old(self).outbox().len() > 0 ==> m == Some(old(self).outbox()[0])
                && final(self).outbox() == old(self).outbox().drop_first(),
    {
        if self.outbox.len() == 0 {
            None
        } else {
            Some(self.outbox.remove(0))
        }
    }
}

} // verus!
