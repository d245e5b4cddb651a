//! The gateway connection core.
//!
//! The long-lived event stream is driven by three loops — one reading and
//! decoding frames, one encoding and writing queued events, one enqueueing a
//! periodic keepalive — around two ordered queues.  This module holds that
//! core sans-IO: [`GatewayCore`] owns the queues and every decision, while
//! an asynchronous driver owns the socket, performs the reads, writes and
//! sleeps, and feeds the outcomes back in.
//!
//! The core carries its full history as ghost data: every item the inbound
//! loop ever queued, every item the caller took, every event enqueued for
//! sending and every frame written.  The ordering guarantees of the stream —
//! delivery in arrival order, writes in enqueue order — are stated over
//! those histories and proved ([`lemma_inbound_order`],
//! [`lemma_outbound_order`]).

use vstd::prelude::*;

use crate::codec::decode;
use crate::codec::decodes_to;
use crate::codec::encode;
use crate::codec::encode_spec;
use crate::event::ClientToServerEvent;
use crate::event::ServerToClientEvent;

verus! {

/// Why a frame failed to decode.
#[derive(Debug, Clone, PartialEq, Eq)]
pub enum DecodeReason {
    /// The frame is not well-formed envelope text.
    Malformed,
    /// The frame is well-formed but is not a tagged envelope.
    Envelope,
    /// The tag is recognized but its payload has the wrong shape.
    Payload,
}

/// A failure observed on the gateway.
#[derive(Debug, Clone, PartialEq)]
pub enum GatewayError {
    /// The transport failed or is no longer there.
    Transport { detail: String },
    /// A frame could not be decoded.
    Decode { reason: DecodeReason },
}

impl GatewayError {
    /// A short description of the failure.
    pub fn message(&self) -> (r: String)
        ensures
            match self {
                GatewayError::Transport { detail } => r@ == detail@,
                GatewayError::Decode { reason } => match reason {
                    DecodeReason::Malformed => r@ == "malformed frame"@,
                    DecodeReason::Envelope => r@ == "frame is not an event envelope"@,
                    DecodeReason::Payload => r@ == "event payload has the wrong shape"@,
                },
            },
    {
        match self {
            GatewayError::Transport { detail } => detail.clone(),
            GatewayError::Decode { reason } => match reason {
                DecodeReason::Malformed => "malformed frame".to_owned(),
                DecodeReason::Envelope => "frame is not an event envelope".to_owned(),
                DecodeReason::Payload => "event payload has the wrong shape".to_owned(),
            },
        }
    }
}

/// Seconds between two keepalive events.
pub const HEARTBEAT_PERIOD_SECS: u64 = 15;

/// The gateway URL used when the caller names none.
pub fn default_url() -> (r: &'static str)
    ensures
        r@ == "wss://ws.revolt.chat"@,
{
    "wss://ws.revolt.chat"
}

/// The keepalive event the heartbeat loop enqueues.
pub fn heartbeat_event() -> (e: ClientToServerEvent)
    ensures
        e == (ClientToServerEvent::Ping { data: 0 }),
{
    ClientToServerEvent::Ping { data: 0 }
}

/// One outcome of reading the transport.
#[derive(Debug, Clone, PartialEq)]
pub enum InboundInput {
    /// A text frame arrived.
    Frame(String),
    /// Reading failed; such a failure is fatal to the stream.
    TransportError(String),
    /// The transport closed cleanly.
    Closed,
}

/// What the inbound loop does with one outcome of reading the transport.
#[derive(Debug)]
pub enum InboundStep {
    /// Queue this item for the caller and keep reading.
    Deliver(Result<ServerToClientEvent, GatewayError>),
    /// Queue this error for the caller, then stop reading.
    DeliverStop(GatewayError),
    /// Stop reading; the caller sees the stream end.
    Stop,
}

/// The per-outcome decision of the inbound loop: a frame is decoded and
/// delivered — as an error item if it does not decode, which never ends the
/// stream — a read failure is delivered and ends the stream, and a clean
/// close ends the stream with nothing delivered.
pub fn inbound_step(input: InboundInput) -> (r: InboundStep)
    ensures
        match input {
            InboundInput::Frame(f) => r matches InboundStep::Deliver(item) && decodes_to(f@, item),
            InboundInput::TransportError(d) => r == InboundStep::DeliverStop(
                GatewayError::Transport { detail: d },
            ),
            InboundInput::Closed => r == InboundStep::Stop,
        },
{
    match input {
        InboundInput::Frame(f) => InboundStep::Deliver(decode(f.as_str())),
        InboundInput::TransportError(d) => InboundStep::DeliverStop(
            GatewayError::Transport { detail: d },
        ),
        InboundInput::Closed => InboundStep::Stop,
    }
}

/// What one poll of the inbound side yields.
#[derive(Debug)]
pub enum NextEvent {
    /// Nothing queued yet; the stream is still open.
    Pending,
    /// The next queued item, in arrival order.
    Item(Result<ServerToClientEvent, GatewayError>),
    /// The stream has ended; nothing further will arrive.
    End,
}

/// The sans-IO connection core: both queues, both end flags, and the ghost
/// history of everything that ever passed through them.
pub struct GatewayCore {
    /// Items queued for the caller and not yet taken.
    pub inbound: Vec<Result<ServerToClientEvent, GatewayError>>,
    /// Whether the inbound side has ended.
    pub in_closed: bool,
    /// Events enqueued for sending and not yet written.
    pub outbound: Vec<ClientToServerEvent>,
    /// Whether the outbound side has been torn down.
    pub out_closed: bool,
    /// Every item the inbound loop has queued, oldest first.
    pub hist_in: Ghost<Seq<Result<ServerToClientEvent, GatewayError>>>,
    /// Every item the caller has taken, oldest first.
    pub delivered: Ghost<Seq<Result<ServerToClientEvent, GatewayError>>>,
    /// Every event enqueued for sending, oldest first.
    pub hist_out: Ghost<Seq<ClientToServerEvent>>,
    /// The text of every frame written to the transport, oldest first.
    pub written: Ghost<Seq<Seq<char>>>,
}

impl GatewayCore {
    /// The queues are exactly the not-yet-consumed suffixes of the
    /// histories, and every frame written is the encoding of the event
    /// enqueued at the same position.
    pub open spec fn wf(&self) -> bool {
        &&& self.delivered@ == self.hist_in@.take(self.delivered@.len() as int)
        &&& self.inbound@ == self.hist_in@.skip(self.delivered@.len() as int)
        &&& self.delivered@.len() <= self.hist_in@.len()
        &&& self.written@.len() + self.outbound@.len() == self.hist_out@.len()
        &&& (forall|k: int|
            0 <= k < self.written@.len() ==> self.written@[k] == encode_spec(
                #[trigger] self.hist_out@[k],
            ))
        &&& self.outbound@ == self.hist_out@.skip(self.written@.len() as int)
    }

    /// Whether the inbound side has ended.
    pub open spec fn spec_in_closed(&self) -> bool {
        self.in_closed
    }

    /// Whether the outbound side has been torn down.
    pub open spec fn spec_out_closed(&self) -> bool {
        self.out_closed
    }

    /// A fresh core: open in both directions, with empty queues and empty
    /// histories.  This is the state right after the transport opens.
    pub fn new() -> (s: Self)
        ensures
            s.wf(),
            s.hist_in@.len() == 0,
            s.delivered@.len() == 0,
            s.hist_out@.len() == 0,
            s.written@.len() == 0,
            !s.spec_in_closed(),
            !s.spec_out_closed(),
    {
        let s = GatewayCore {
            inbound: Vec::new(),
            in_closed: false,
            outbound: Vec::new(),
            out_closed: false,
            hist_in: Ghost(Seq::empty()),
            delivered: Ghost(Seq::empty()),
            hist_out: Ghost(Seq::empty()),
            written: Ghost(Seq::empty()),
        };
        proof {
            assert(s.delivered@ =~= s.hist_in@.take(s.delivered@.len() as int));
            assert(s.inbound@ =~= s.hist_in@.skip(s.delivered@.len() as int));
            assert(s.outbound@ =~= s.hist_out@.skip(s.written@.len() as int));
        }
        s
    }

    /// Applies one outcome of reading the transport, as the inbound loop
    /// does: a frame's decode result is queued whatever it is and the
    /// stream stays open; a read failure is queued and ends the stream; a
    /// clean close ends the stream with nothing queued.
    pub fn feed(&mut self, input: InboundInput)
        requires
            old(self).wf(),
        ensures
            final(self).wf(),
            final(self).delivered@ == old(self).delivered@,
            final(self).hist_out@ == old(self).hist_out@,
            final(self).written@ == old(self).written@,
            final(self).spec_out_closed() == old(self).spec_out_closed(),
            match input {
                InboundInput::Frame(f) => final(self).hist_in@.len() == old(self).hist_in@.len()
                    + 1 && final(self).hist_in@.take(old(self).hist_in@.len() as int) == old(self).hist_in@ && decodes_to(f@, final(self).hist_in@.last()) && final(self).spec_in_closed() == old(self).spec_in_closed(),
                InboundInput::TransportError(d) => final(self).hist_in@ == old(self).hist_in@.push(
                    Err(GatewayError::Transport { detail: d }),
                ) && final(self).spec_in_closed(),
                InboundInput::Closed => final(self).hist_in@ == old(self).hist_in@ && final(self).spec_in_closed(),
            },
    {
        match inbound_step(input) {
            InboundStep::Deliver(item) => {
                proof {
                    self.hist_in@ = self.hist_in@.push(item);
                }
                self.inbound.push(item);
                proof {
                    assert(self.delivered@ =~= self.hist_in@.take(self.delivered@.len() as int));
                    assert(self.inbound@ =~= self.hist_in@.skip(self.delivered@.len() as int));
                    assert(self.hist_in@.take(old(self).hist_in@.len() as int) =~= old(self).hist_in@);
                }
            },
            InboundStep::DeliverStop(e) => {
                let item: Result<ServerToClientEvent, GatewayError> = Err(e);
                proof {
                    self.hist_in@ = self.hist_in@.push(item);
                }
                self.inbound.push(item);
                self.in_closed = true;
                proof {
                    assert(self.delivered@ =~= self.hist_in@.take(self.delivered@.len() as int));
                    assert(self.inbound@ =~= self.hist_in@.skip(self.delivered@.len() as int));
                }
            },
            InboundStep::Stop => {
                self.in_closed = true;
            },
        }
    }

    /// Enqueues an event for the outbound loop without waiting for the
    /// write.  This fails exactly when the outbound side has already been
    /// torn down, and the event's position in the queue is its enqueue
    /// order: nothing later can overtake it.
    pub fn send(&mut self, event: ClientToServerEvent) -> (r: Result<(), GatewayError>)
        requires
            old(self).wf(),
        ensures
            final(self).wf(),
            final(self).hist_in@ == old(self).hist_in@,
            final(self).delivered@ == old(self).delivered@,
            final(self).written@ == old(self).written@,
            final(self).spec_in_closed() == old(self).spec_in_closed(),
            final(self).spec_out_closed() == old(self).spec_out_closed(),
            !old(self).spec_out_closed() ==> r is Ok && final(self).hist_out@ == old(self).hist_out@.push(event),
            old(self).spec_out_closed() ==> (r matches Err(e) && e matches GatewayError::Transport {
                ..
            }) && final(self).hist_out@ == old(self).hist_out@,
    {
        if self.out_closed {
            return Err(
                GatewayError::Transport { detail: "outbound queue is torn down".to_owned() },
            );
        }
        proof {
            self.hist_out@ = self.hist_out@.push(event);
        }
        self.outbound.push(event);
        proof {
            assert(self.outbound@ =~= self.hist_out@.skip(self.written@.len() as int));
        }
        Ok(())
    }

    /// Enqueues one keepalive event, as the heartbeat loop does on each
    /// tick: exactly one `Ping`, at its enqueue position.
    pub fn heartbeat(&mut self) -> (r: Result<(), GatewayError>)
        requires
            old(self).wf(),
        ensures
            final(self).wf(),
            final(self).hist_in@ == old(self).hist_in@,
            final(self).delivered@ == old(self).delivered@,
            final(self).written@ == old(self).written@,
            final(self).spec_in_closed() == old(self).spec_in_closed(),
            final(self).spec_out_closed() == old(self).spec_out_closed(),
            !old(self).spec_out_closed() ==> r is Ok && final(self).hist_out@ == old(self).hist_out@.push(ClientToServerEvent::Ping { data: 0 }),
            old(self).spec_out_closed() ==> r is Err && final(self).hist_out@ == old(self).hist_out@,
    {
        self.send(heartbeat_event())
    }

    /// Takes the next queued inbound item, in exact arrival order; reports
    /// the end of the stream once it is closed and drained; otherwise the
    /// caller must wait.
    pub fn poll_next(&mut self) -> (r: NextEvent)
        requires
            old(self).wf(),
        ensures
            final(self).wf(),
            final(self).hist_in@ == old(self).hist_in@,
            final(self).hist_out@ == old(self).hist_out@,
            final(self).written@ == old(self).written@,
            final(self).spec_in_closed() == old(self).spec_in_closed(),
            final(self).spec_out_closed() == old(self).spec_out_closed(),
            match r {
                NextEvent::Item(item) => old(self).delivered@.len() < old(self).hist_in@.len()
                    && item == old(self).hist_in@[old(self).delivered@.len() as int] && final(self).delivered@ == old(self).delivered@.push(item),
                NextEvent::End => old(self).delivered@.len() == old(self).hist_in@.len() && old(self).spec_in_closed() && final(self).delivered@ == old(self).delivered@,
                NextEvent::Pending => old(self).delivered@.len() == old(self).hist_in@.len() && !old(self).spec_in_closed() && final(self).delivered@ == old(self).delivered@,
            },
    {
        if self.inbound.len() > 0 {
            let item = self.inbound.remove(0);
            proof {
                self.delivered@ = self.delivered@.push(item);
                assert(old(self).inbound@[0] == old(self).hist_in@[old(self).delivered@.len() as int]);
                assert(self.delivered@ =~= self.hist_in@.take(self.delivered@.len() as int));
                assert(self.inbound@ =~= self.hist_in@.skip(self.delivered@.len() as int));
            }
            NextEvent::Item(item)
        } else if self.in_closed {
            proof {
                assert(old(self).inbound@.len() == 0);
            }
            NextEvent::End
        } else {
            NextEvent::Pending
        }
    }

    /// Takes the next queued outbound event and encodes it, as the
    /// outbound loop does before writing: frames leave in exact enqueue
    /// order, and each frame is the encoding of its event.
    pub fn next_outbound(&mut self) -> (r: Option<String>)
        requires
            old(self).wf(),
        ensures
            final(self).wf(),
            final(self).hist_in@ == old(self).hist_in@,
            final(self).delivered@ == old(self).delivered@,
            final(self).hist_out@ == old(self).hist_out@,
            final(self).spec_in_closed() == old(self).spec_in_closed(),
            final(self).spec_out_closed() == old(self).spec_out_closed(),
            match r {
                Some(frame) => old(self).written@.len() < old(self).hist_out@.len() && frame@
                    == encode_spec(old(self).hist_out@[old(self).written@.len() as int]) && final(self).written@ == old(self).written@.push(frame@),
                None => old(self).written@.len() == old(self).hist_out@.len() && final(self).written@
                    == old(self).written@,
            },
    {
        if self.outbound.len() > 0 {
            let event = self.outbound.remove(0);
            let frame = encode(&event);
            proof {
                assert(old(self).outbound@[0] == old(self).hist_out@[old(self).written@.len() as int]);
                self.written@ = self.written@.push(frame@);
                assert(self.outbound@ =~= self.hist_out@.skip(self.written@.len() as int));
            }
            Some(frame)
        } else {
            None
        }
    }

    /// Tears the outbound side down; later sends fail.  The driver calls
    /// this when a write fails or when it shuts down.
    pub fn close_outbound(&mut self)
        requires
            old(self).wf(),
        ensures
            final(self).wf(),
            final(self).hist_in@ == old(self).hist_in@,
            final(self).delivered@ == old(self).delivered@,
            final(self).hist_out@ == old(self).hist_out@,
            final(self).written@ == old(self).written@,
            final(self).spec_in_closed() == old(self).spec_in_closed(),
            final(self).spec_out_closed(),
    {
        self.out_closed = true;
    }
}

/// Inbound delivery preserves arrival order: what the caller has taken is
/// exactly the oldest prefix of what the inbound loop queued, item for
/// item.  For any two frames received in some order, their items are
/// delivered in that same order.
pub proof fn lemma_inbound_order(s: GatewayCore)
    requires
        s.wf(),
    ensures
        s.delivered@ == s.hist_in@.take(s.delivered@.len() as int),
        forall|k: int| 0 <= k < s.delivered@.len() ==> s.delivered@[k] == s.hist_in@[k],
{
}

/// Outbound writes preserve enqueue order: the k-th frame written to the
/// transport is the encoding of the k-th event enqueued, counting the
/// caller's events and heartbeats alike.  For any two events enqueued in
/// some order, their frames are written in that same order, however many
/// heartbeats sit between them.
pub proof fn lemma_outbound_order(s: GatewayCore)
    requires
        s.wf(),
    ensures
        forall|k: int| 0 <= k < s.written@.len() ==> s.written@[k] == encode_spec(s.hist_out@[k]),
{
}

/// One undeliverable frame is one error item, nothing more: every queued
/// item is delivered at its own position, whatever the items before it
/// were, so an error at one position never blocks the items after it.
pub proof fn lemma_decode_error_isolated(s: GatewayCore, k: int)
    requires
        s.wf(),
        0 <= k < s.delivered@.len(),
    ensures
        s.delivered@[k] == s.hist_in@[k],
{
}

} // verus!
