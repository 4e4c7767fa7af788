//! The packets and acknowledgements the channel delivers, and what a handler
//! answers to the chain.

use vstd::prelude::*;

use crate::response::{Event, EventView, SubMsg, SubMsgView};
use crate::view::views;
use crate::types::Timestamp;

verus! {

/// Whether a channel delivers packets in the order they were sent.
#[derive(Clone, Copy, PartialEq, Eq, Structural, Debug)]
pub enum IbcOrder {
    Unordered,
    Ordered,
}

/// One end of a channel.
#[derive(Debug, PartialEq, Eq)]
pub struct IbcEndpoint {
    pub port_id: String,
    pub channel_id: String,
}

pub struct IbcEndpointView {
    pub port_id: Seq<char>,
    pub channel_id: Seq<char>,
}

impl View for IbcEndpoint {
    type V = IbcEndpointView;

    open spec fn view(&self) -> IbcEndpointView {
        IbcEndpointView { port_id: self.port_id@, channel_id: self.channel_id@ }
    }
}

impl Clone for IbcEndpoint {
    fn clone(&self) -> (r: Self)
        ensures
            r@ == self@,
    {
        IbcEndpoint { port_id: self.port_id.clone(), channel_id: self.channel_id.clone() }
    }
}

/// A height of the chain on the other end.
#[derive(Clone, Copy, PartialEq, Eq, Structural, Debug)]
pub struct IbcTimeoutBlock {
    pub revision: u64,
    pub height: u64,
}

/// When a packet times out: at a height, at a time, or at whichever comes
/// first.
#[derive(Clone, Copy, PartialEq, Eq, Structural, Debug)]
pub struct IbcTimeout {
    pub block: Option<IbcTimeoutBlock>,
    pub timestamp: Option<Timestamp>,
}

impl IbcTimeout {
    /// The timeout at a time.
    pub fn with_timestamp(timestamp: Timestamp) -> (r: Self)
        ensures
            r == (IbcTimeout { block: None, timestamp: Some(timestamp) }),
    {
        IbcTimeout { block: None, timestamp: Some(timestamp) }
    }
}

/// A packet as the channel carries it: the payload, and what tells it from
/// every other packet.
#[derive(Debug, PartialEq, Eq)]
pub struct IbcPacket {
    pub data: Vec<u8>,
    pub src: IbcEndpoint,
    pub dest: IbcEndpoint,
    pub sequence: u64,
    pub timeout: IbcTimeout,
}

pub struct IbcPacketView {
    pub data: Seq<u8>,
    pub src: IbcEndpointView,
    pub dest: IbcEndpointView,
    pub sequence: u64,
    pub timeout: IbcTimeout,
}

impl View for IbcPacket {
    type V = IbcPacketView;

    open spec fn view(&self) -> IbcPacketView {
        IbcPacketView {
            data: self.data@,
            src: self.src@,
            dest: self.dest@,
            sequence: self.sequence,
            timeout: self.timeout,
        }
    }
}

/// What tells a packet from every other that was sent: the end of the channel
/// it left from, and its sequence there.
pub open spec fn packet_id(packet: IbcPacketView) -> (IbcEndpointView, u64) {
    (packet.src, packet.sequence)
}

/// A copy of the bytes.
pub fn copy_bytes(bytes: &Vec<u8>) -> (r: Vec<u8>)
    ensures
        r@ == bytes@,
{
    let mut r: Vec<u8> = Vec::new();
    let mut i: usize = 0;
    while i < bytes.len()
        invariant
            i <= bytes.len(),
            r@ == bytes@.take(i as int),
        decreases bytes.len() - i,
    {
        r.push(bytes[i]);
        assert(bytes@.take(i as int + 1) =~= bytes@.take(i as int).push(bytes@[i as int]));
        i = i + 1;
    }
    assert(bytes@.take(i as int) =~= bytes@);
    r
}

impl Clone for IbcPacket {
    fn clone(&self) -> (r: Self)
        ensures
            r@ == self@,
    {
        IbcPacket {
            data: copy_bytes(&self.data),
            src: self.src.clone(),
            dest: self.dest.clone(),
            sequence: self.sequence,
            timeout: self.timeout,
        }
    }
}

/// The acknowledgement of a packet, with the packet it answers.
#[derive(Debug, PartialEq, Eq)]
pub struct IbcPacketAckMsg {
    pub acknowledgement: Vec<u8>,
    pub original_packet: IbcPacket,
    pub relayer: String,
}

pub struct IbcPacketAckMsgView {
    pub acknowledgement: Seq<u8>,
    pub original_packet: IbcPacketView,
    pub relayer: Seq<char>,
}

impl View for IbcPacketAckMsg {
    type V = IbcPacketAckMsgView;

    open spec fn view(&self) -> IbcPacketAckMsgView {
        IbcPacketAckMsgView {
            acknowledgement: self.acknowledgement@,
            original_packet: self.original_packet@,
            relayer: self.relayer@,
        }
    }
}

/// What a handler of a send asks of the chain.
#[derive(Debug, PartialEq, Eq)]
pub struct Response<M> {
    pub messages: Vec<SubMsg<M>>,
    pub events: Vec<Event>,
}

/// What a handler of an acknowledgement or a timeout asks of the chain.
#[derive(Debug, PartialEq, Eq)]
pub struct IbcBasicResponse<M> {
    pub messages: Vec<SubMsg<M>>,
    pub events: Vec<Event>,
}

/// The messages and events of a response, as values.
pub struct ResponseView<M> {
    pub messages: Seq<SubMsgView<M>>,
    pub events: Seq<EventView>,
}

impl<M> View for Response<M> {
    type V = ResponseView<M>;

    open spec fn view(&self) -> ResponseView<M> {
        ResponseView { messages: views(self.messages@), events: views(self.events@) }
    }
}

impl<M> View for IbcBasicResponse<M> {
    type V = ResponseView<M>;

    open spec fn view(&self) -> ResponseView<M> {
        ResponseView { messages: views(self.messages@), events: views(self.events@) }
    }
}

/// What a handler of a received packet asks of the chain, with the
/// acknowledgement to write.
#[derive(Debug, PartialEq, Eq)]
pub struct IbcReceiveResponse<M> {
    pub acknowledgement: Vec<u8>,
    pub messages: Vec<SubMsg<M>>,
    pub events: Vec<Event>,
}

pub struct ReceiveResponseView<M> {
    pub acknowledgement: Seq<u8>,
    pub messages: Seq<SubMsgView<M>>,
    pub events: Seq<EventView>,
}

impl<M> View for IbcReceiveResponse<M> {
    type V = ReceiveResponseView<M>;

    open spec fn view(&self) -> ReceiveResponseView<M> {
        ReceiveResponseView {
            acknowledgement: self.acknowledgement@,
            messages: views(self.messages@),
            events: views(self.events@),
        }
    }
}

} // verus!
