//! What the protocol asks of the chain it runs on: the encoding of packets
//! and acknowledgements, the custody of tokens, the dispatch of packets, and
//! the record of packets that were forwarded.

use core::fmt::Debug;
use vstd::prelude::*;

use crate::ibc::{
    packet_id, IbcOrder, IbcPacket, IbcPacketView, IbcReceiveResponse, IbcTimeout,
    ReceiveResponseView,
};
use crate::middleware::{
    forward_of, InFlightPfmPacket, InFlightPfmPacketView, Memo, PacketForward, PacketForwardView,
};
use crate::protocol::ProtocolSwitch;
use crate::view::{option_view, result_view, views};
use crate::types::{
    ack_view, Coin, CoinView, EncodingError, GenericAck, NormalizedTransferToken,
    NormalizedTransferTokenView, TransferPacketCommon, TransferPacketView,
    TransferToken, TransferTokenView,
};

verus! {

pub open spec fn credit_view<M, E>(result: Result<(Vec<NormalizedTransferToken>, Vec<M>), E>) -> Result<(Seq<NormalizedTransferTokenView>, Seq<M>), E> {
    match result {
        Ok((tokens, msgs)) => Ok((views(tokens@), msgs@)),
        Err(e) => Err(e),
    }
}

/// What the operation `op` of a host of type `H` gives on `args`: a function of
/// the type of the host, the operation and the arguments, of which nothing
/// else is known.
pub open spec fn given<H, A, B>(op: int, args: A) -> B {
    (arbitrary::<spec_fn(Option<H>, int, A) -> B>())(None, op, args)
}

/// The chain under the protocol. Each operation has a name for what it gives
/// on given arguments in a given state; the handlers are stated over those
/// names. An operation that takes `&mut self` may change the state, and its
/// name gives the state it leaves.
///
/// A host says with these names no more than that each operation is a
/// function of the state and the arguments. It owes two things beyond that:
/// the bytes it encodes a packet to decode to that packet, and its records
/// are kept as in a table, each under the identity of a packet, so that a
/// record it dropped is not found again and the others stay. A host that is
/// verified gives each name its meaning; for any other the names stand as
/// they are.
pub trait TransferHost: Sized {
    /// The version of the protocol that this end speaks.
    const VERSION: &'static str;

    /// The order of delivery that the protocol asks of a channel.
    const ORDERING: IbcOrder;

    /// The identifier under which the credit of a received token reports
    /// its failure.
    const RECEIVE_REPLY_ID: u64;

    /// A message for the chain to run.
    type Msg;

    /// Why an operation of the host failed.
    type Error: Debug;

    /// The packet that bytes encode.
    open spec fn packet_of(data: Seq<u8>) -> Result<TransferPacketView, EncodingError> {
        given::<Self, _, _>(1, data)
    }

    /// The bytes that encode a packet in this protocol.
    open spec fn bytes_of(&self, packet: TransferPacketView) -> Result<Seq<u8>, EncodingError> {
        given::<Self, _, _>(2, (*self, packet))
    }

    /// The acknowledgement that bytes encode.
    open spec fn ack_of(data: Seq<u8>) -> Result<Result<Seq<u8>, Seq<u8>>, EncodingError> {
        given::<Self, _, _>(3, data)
    }

    /// The bytes of the acknowledgement of a success.
    open spec fn success_ack() -> Seq<u8> {
        given::<Self, _, _>(4, ())
    }

    /// The bytes of the acknowledgement of a failure with the given text.
    open spec fn failure_ack(error: Seq<char>) -> Seq<u8> {
        given::<Self, _, _>(5, error)
    }

    /// The forward instruction that a memo holds, if it holds one.
    open spec fn forward_in(memo: Seq<char>) -> Option<PacketForwardView> {
        given::<Self, _, _>(6, memo)
    }

    /// The address of the contract, as the chain writes it.
    open spec fn own_addr(&self) -> Seq<char> {
        given::<Self, _, _>(7, *self)
    }

    /// The address of the contract, as packets write it.
    open spec fn own_addr_canonical(&self) -> Result<Seq<char>, Self::Error> {
        given::<Self, _, _>(8, *self)
    }

    /// The message that dispatches a packet.
    open spec fn dispatched(&self, data: Seq<u8>, timeout: IbcTimeout) -> Result<Self::Msg, Self::Error> {
        given::<Self, _, _>(9, (*self, data, timeout))
    }

    /// The record kept under a packet, if one is kept.
    open spec fn in_flight(&self, packet: IbcPacketView) -> Option<InFlightPfmPacketView> {
        given::<Self, _, _>(10, (*self, packet))
    }

    /// The state without the record kept under a packet.
    open spec fn forgotten(&self, packet: IbcPacketView) -> Self {
        given::<Self, _, _>(11, (*self, packet))
    }

    /// A token as it goes into a packet, and the state that leaves.
    open spec fn normalized(&self, token: TransferTokenView) -> (Self, Result<TransferTokenView, Self::Error>) {
        given::<Self, _, _>(12, (*self, token))
    }

    /// The messages that take the tokens of a send into custody.
    open spec fn tokens_sent(&self, sender: Seq<char>, receiver: Seq<char>, tokens: Seq<TransferTokenView>) -> (Self, Result<Seq<Self::Msg>, Self::Error>) {
        given::<Self, _, _>(13, (*self, sender, receiver, tokens))
    }

    /// The messages that settle the tokens of a send that arrived.
    open spec fn tokens_settled(&self, sender: Seq<char>, receiver: Seq<char>, tokens: Seq<TransferTokenView>) -> (Self, Result<Seq<Self::Msg>, Self::Error>) {
        given::<Self, _, _>(14, (*self, sender, receiver, tokens))
    }

    /// The messages that give the tokens of a send that failed back to
    /// `sender`.
    open spec fn tokens_refunded(&self, sender: Seq<char>, receiver: Seq<char>, tokens: Seq<TransferTokenView>) -> (Self, Result<Seq<Self::Msg>, Self::Error>) {
        given::<Self, _, _>(15, (*self, sender, receiver, tokens))
    }

    /// The tokens as they are held once `receiver` is credited, and the
    /// messages that credit them.
    open spec fn tokens_received(&self, receiver: Seq<char>, tokens: Seq<TransferTokenView>, cut_fees: bool) -> (Self, Result<(Seq<NormalizedTransferTokenView>, Seq<Self::Msg>), Self::Error>) {
        given::<Self, _, _>(16, (*self, receiver, tokens, cut_fees))
    }

    /// The response that sends coins on as a forward instruction says.
    open spec fn forwarded(&self, tokens: Seq<CoinView>, original_packet: IbcPacketView, forward: PacketForwardView, sender: Seq<char>) -> (Self, Result<ReceiveResponseView<Self::Msg>, Self::Error>) {
        given::<Self, _, _>(17, (*self, tokens, original_packet, forward, sender))
    }

    /// The text that tells of an error of the host.
    open spec fn error_text(error: Self::Error) -> Seq<char> {
        given::<Self, _, _>(18, error)
    }

    fn decode_packet(data: &Vec<u8>) -> (r: Result<TransferPacketCommon, EncodingError>)
        ensures
            result_view(r) == Self::packet_of(data@),
    ;

    /// Encodes a packet. The bytes of a packet decode to that packet: sender,
    /// receiver, tokens and memo.
    fn encode_packet(&self, packet: &TransferPacketCommon) -> (r: Result<Vec<u8>, EncodingError>)
        ensures
            result_view(r) == self.bytes_of(packet@),
            r matches Ok(bytes) ==> Self::packet_of(bytes@) == Ok::<
                TransferPacketView,
                EncodingError,
            >(packet@),
    ;

    fn decode_ack(data: &Vec<u8>) -> (r: Result<GenericAck, EncodingError>)
        ensures
            match r {
                Ok(ack) => Self::ack_of(data@) == Ok::<Result<Seq<u8>, Seq<u8>>, EncodingError>(
                    ack_view(ack),
                ),
                Err(e) => Self::ack_of(data@) == Err::<Result<Seq<u8>, Seq<u8>>, EncodingError>(e),
            },
    ;

    fn ack_success() -> (r: Vec<u8>)
        ensures
            r@ == Self::success_ack(),
    ;

    fn ack_failure(error: String) -> (r: Vec<u8>)
        ensures
            r@ == Self::failure_ack(error@),
    ;

    /// Reads a memo. It is no memo where it is not understood.
    fn parse_memo(memo: &String) -> (r: Option<Memo>)
        ensures
            option_view(forward_of(r)) == Self::forward_in(memo@),
    ;

    /// Tells of an error of the host, as its `Debug` writes it. The text goes
    /// into the acknowledgement of a receive that failed.
    fn describe_error(error: &Self::Error) -> (r: String)
        ensures
            r@ == Self::error_text(*error),
    ;

    fn load_channel_protocol_version(&self, channel_id: &String) -> Result<String, Self::Error>;

    fn caller(&self) -> &String;

    fn self_addr(&self) -> (r: &String)
        ensures
            r@ == self.own_addr(),
    ;

    fn self_addr_canonical(&self) -> (r: Result<String, Self::Error>)
        ensures
            result_view(r) == self.own_addr_canonical(),
    ;

    fn send_packet(&self, data: Vec<u8>, timeout: IbcTimeout) -> (r: Result<Self::Msg, Self::Error>)
        ensures
            r == self.dispatched(data@, timeout),
    ;

    fn write_acknowledgement(&self, packet: &IbcPacket, ack: Vec<u8>) -> Result<Self::Msg, Self::Error>;

    fn normalize_for_ibc_transfer(&mut self, token: TransferToken) -> (r: Result<TransferToken, Self::Error>)
        ensures
            (*final(self), result_view(r)) == old(self).normalized(token@),
    ;

    fn send_tokens(&mut self, sender: &String, receiver: &String, tokens: Vec<TransferToken>) -> (r: Result<Vec<Self::Msg>, Self::Error>)
        ensures
            (*final(self), result_view(r)) == old(self).tokens_sent(sender@, receiver@, views(tokens@)),
    ;

    fn send_tokens_success(&mut self, sender: &String, receiver: &String, tokens: Vec<TransferToken>) -> (r: Result<Vec<Self::Msg>, Self::Error>)
        ensures
            (*final(self), result_view(r)) == old(self).tokens_settled(
                sender@,
                receiver@,
                views(tokens@),
            ),
    ;

    fn send_tokens_failure(&mut self, sender: &String, receiver: &String, tokens: Vec<TransferToken>) -> (r: Result<Vec<Self::Msg>, Self::Error>)
        ensures
            (*final(self), result_view(r)) == old(self).tokens_refunded(
                sender@,
                receiver@,
                views(tokens@),
            ),
    ;

    fn receive_transfer(&mut self, receiver: &String, tokens: Vec<TransferToken>, cut_fees: bool) -> (r: Result<(Vec<NormalizedTransferToken>, Vec<Self::Msg>), Self::Error>)
        ensures
            (*final(self), credit_view(r)) == old(self).tokens_received(
                receiver@,
                views(tokens@),
                cut_fees,
            ),
    ;

    /// Makes the message that sends the coins on, to be dispatched under
    /// `IBC_SEND_ID` with the record of the packet that came in.
    fn forward_transfer_packet(&mut self, tokens: Vec<Coin>, original_packet: IbcPacket, forward: PacketForward, sender: String) -> (r: Result<IbcReceiveResponse<Self::Msg>, Self::Error>)
        ensures
            (*final(self), result_view(r)) == old(self).forwarded(
                views(tokens@),
                original_packet@,
                forward@,
                sender@,
            ),
    ;

    /// The record kept under a packet that this contract forwarded, if the
    /// packet is one.
    fn get_in_flight_packet(&self, forward_packet: &IbcPacket) -> (r: Option<InFlightPfmPacket>)
        ensures
            option_view(r) == self.in_flight(forward_packet@),
    ;

    /// Drops the record kept under a packet. A lookup of the packet finds
    /// none afterwards, and a lookup of a packet of another identity finds
    /// what it found before.
    fn remove_in_flight_packet(&mut self, forward_packet: &IbcPacket)
        ensures
            *final(self) == old(self).forgotten(forward_packet@),
            final(self).in_flight(forward_packet@) is None,
            forall|other: IbcPacketView|
                packet_id(other) != packet_id(forward_packet@)
                    ==> #[trigger] final(self).in_flight(other) == old(self).in_flight(other),
    ;

    fn convert_ack_to_foreign_protocol(&self, foreign_protocol: &String, ack: GenericAck) -> Result<GenericAck, Self::Error>;

    fn protocol_switch_result(&self, counterparty_protocol_version: &String) -> ProtocolSwitch;
}

} // verus!
