//! What each handler returns and the state it leaves, stated over the names of
//! the host's operations.

use vstd::prelude::*;

use vstd::string::StringSliceAdditionalSpecFns;

use crate::bindings::base64_text;
use crate::host::TransferHost;
use crate::ibc::{
    IbcPacketAckMsgView, IbcPacketView, IbcTimeout, ReceiveResponseView, ResponseView,
};
use crate::middleware::{InFlightPfmPacketView, PacketForwardView};
use crate::protocol::{
    ack_attributes_of, asset_attributes, attribute_failure, encoding_failure, timeout_of,
    ProtocolError, TransferError, TransferInputView, ACK_ERR_TIMEOUT_MSG, ATTR_ACK, ATTR_ERROR,
    ATTR_MEMO, ATTR_MODULE, ATTR_PFM, ATTR_RECEIVER, ATTR_REFUND_RECEIVER, ATTR_SENDER, ATTR_SUCCESS,
    ATTR_VALUE_FALSE, ATTR_VALUE_PFM_ACK, ATTR_VALUE_TRUE, IBC_SEND_ID, MESSAGE_EVENT,
    PACKET_EVENT, TRANSFER_EVENT, TRANSFER_MODULE,
};
use crate::response::{event, guarded_msgs, plain_msgs, sub_msg, AttributeView, ReplyOn};
use crate::types::{
    CoinView, EncodingError, NormalizedTransferTokenView, Timestamp, TransferPacketView,
    TransferTokenView, NANOS_PER_SECOND,
};

verus! {

/// The tokens as they go into a packet: each normalized in its turn, up to
/// the first that the host refuses.
pub open spec fn normalize_all<H: TransferHost>(host: H, tokens: Seq<TransferTokenView>) -> (H, Result<Seq<TransferTokenView>, H::Error>)
    decreases tokens.len(),
{
    if tokens.len() == 0 {
        (host, Ok(Seq::empty()))
    } else {
        let (before, done) = normalize_all(host, tokens.drop_last());
        match done {
            Err(e) => (before, Err(e)),
            Ok(done) => {
                let (after, token) = before.normalized(tokens.last());
                match token {
                    Err(e) => (after, Err(e)),
                    Ok(token) => (after, Ok(done.push(token))),
                }
            },
        }
    }
}

/// Once a token is refused, the tokens after it are not looked at.
pub proof fn lemma_normalize_all_stops<H: TransferHost>(host: H, tokens: Seq<TransferTokenView>, k: int)
    requires
        0 <= k <= tokens.len(),
        normalize_all(host, tokens.take(k)).1 is Err,
    ensures
        normalize_all(host, tokens) == normalize_all(host, tokens.take(k)),
    decreases tokens.len() - k,
{
    if k < tokens.len() {
        assert(tokens.take(k + 1).drop_last() =~= tokens.take(k));
        lemma_normalize_all_stops(host, tokens, k + 1);
    } else {
        assert(tokens.take(k) =~= tokens);
    }
}

/// What a send answers once the host has done its part: the custody messages,
/// then the one message that dispatches the packet and reports back under
/// `IBC_SEND_ID` whatever comes of it; an event of the transfer and one that
/// names the module.
pub open spec fn sent<M>(sender: Seq<char>, receiver: Seq<char>, memo: Seq<char>, assets: Seq<AttributeView>, custody: Seq<M>, dispatch: M) -> ResponseView<M> {
    ResponseView {
        messages: plain_msgs(custody).push(sub_msg(dispatch, IBC_SEND_ID, ReplyOn::Always)),
        events: seq![
            event(TRANSFER_EVENT@).with_memo(memo).with(ATTR_SENDER@, sender).with(
                ATTR_RECEIVER@,
                receiver,
            ).with_all(assets),
            event(MESSAGE_EVENT@).with(ATTR_MODULE@, TRANSFER_MODULE@),
        ],
    }
}

/// The packet that a send puts on the wire, where the host normalizes all
/// its tokens: sender, receiver and memo as given, the tokens as normalized.
pub open spec fn packet_sent<H: TransferHost>(host: H, input: TransferInputView, extension: Seq<char>) -> TransferPacketView {
    TransferPacketView {
        sender: input.sender,
        receiver: input.receiver,
        tokens: normalize_all(host, input.tokens).1->Ok_0,
        extension,
    }
}

/// The bytes that a send dispatches, where the host encodes the packet.
pub open spec fn bytes_sent<H: TransferHost>(host: H, input: TransferInputView, extension: Seq<char>) -> Seq<u8> {
    normalize_all(host, input.tokens).0.bytes_of(packet_sent(host, input, extension))->Ok_0
}

/// A send. The timeout is checked before the host is asked anything; then
/// the tokens are normalized, the packet is encoded, the tokens are taken into
/// custody, and the packet is dispatched to time out `timeout_delta` seconds
/// after `current_time`. The first step that fails ends the send with its
/// error.
pub open spec fn send_model<H: TransferHost>(host: H, input: TransferInputView, extension: Seq<char>) -> (H, Result<ResponseView<H::Msg>, TransferError<H::Error>>) {
    match timeout_of(input.current_time, input.timeout_delta) {
        None => (host, Err(TransferError::Protocol(ProtocolError::InvalidTimeout))),
        Some(timeout) => {
            let (host1, tokens) = normalize_all(host, input.tokens);
            match tokens {
                Err(e) => (host1, Err(TransferError::Host(e))),
                Ok(tokens) => {
                    let packet = TransferPacketView {
                        sender: input.sender,
                        receiver: input.receiver,
                        tokens,
                        extension,
                    };
                    match host1.bytes_of(packet) {
                        Err(e) => (host1, Err(TransferError::Encoding(e))),
                        Ok(data) => {
                            let (host2, custody) = host1.tokens_sent(
                                input.sender,
                                input.receiver,
                                tokens,
                            );
                            match custody {
                                Err(e) => (host2, Err(TransferError::Host(e))),
                                Ok(custody) => match host2.dispatched(
                                    data,
                                    IbcTimeout { block: None, timestamp: Some(timeout) },
                                ) {
                                    Err(e) => (host2, Err(TransferError::Host(e))),
                                    Ok(dispatch) => match asset_attributes(tokens) {
                                        Err(e) => (host2, Err(TransferError::Attribute(e))),
                                        Ok(assets) => (
                                            host2,
                                            Ok(
                                                sent(
                                                    input.sender,
                                                    input.receiver,
                                                    extension,
                                                    assets,
                                                    custody,
                                                    dispatch,
                                                ),
                                            ),
                                        ),
                                    },
                                },
                            }
                        },
                    }
                },
            }
        },
    }
}

/// What settles a packet: messages for the chain, and attributes for the
/// event that tells of it.
pub type Settlement<H> = (
    H,
    Result<
        (Seq<<H as TransferHost>::Msg>, Seq<AttributeView>),
        TransferError<<H as TransferHost>::Error>,
    >,
);

/// The messages of a custody operation with the attributes that go with
/// them, or the failure of the host.
pub open spec fn settled_with<H: TransferHost>(step: (H, Result<Seq<H::Msg>, H::Error>), attributes: Seq<AttributeView>) -> Settlement<H> {
    match step.1 {
        Ok(msgs) => (step.0, Ok((msgs, attributes))),
        Err(e) => (step.0, Err(TransferError::Host(e))),
    }
}

/// The acknowledgement that stands for a timeout: a failure with a fixed
/// text.
pub open spec fn timeout_ack() -> Result<Seq<u8>, Seq<u8>> {
    Err(ACK_ERR_TIMEOUT_MSG.spec_bytes())
}

/// The end of a packet that this contract forwarded. A success moves no
/// tokens. A failure gives the tokens back to the sender of the packet that
/// came in, as the record names it, and marks the attributes. Then the record
/// is dropped; it stays where the refund fails.
pub open spec fn pfm_ack_model<H: TransferHost>(host: H, ack: Result<Seq<u8>, Seq<u8>>, packet: IbcPacketView, refund_info: InFlightPfmPacketView, sender: Seq<char>, tokens: Seq<TransferTokenView>) -> Settlement<H> {
    match ack {
        Ok(_) => (host.forgotten(packet), Ok((Seq::empty(), ack_attributes_of(ack)))),
        Err(_) => {
            let (host1, refund) = host.tokens_refunded(
                refund_info.origin_sender_addr,
                sender,
                tokens,
            );
            match refund {
                Err(e) => (host1, Err(TransferError::Host(e))),
                Ok(msgs) => (
                    host1.forgotten(packet),
                    Ok(
                        (
                            msgs,
                            ack_attributes_of(ack).push(
                                AttributeView { key: ATTR_PFM@, value: ATTR_VALUE_PFM_ACK@ },
                            ),
                        ),
                    ),
                ),
            }
        },
    }
}

/// How a packet that was sent is settled once its outcome is known: as a
/// forwarded packet where a record is kept under it, else by settling the
/// tokens on a success and giving them back to the sender on a failure.
pub open spec fn settle_model<H: TransferHost>(host: H, ack: Result<Seq<u8>, Seq<u8>>, ibc_packet: IbcPacketView, packet: TransferPacketView) -> Settlement<H> {
    match host.in_flight(ibc_packet) {
        Some(refund_info) => pfm_ack_model(
            host,
            ack,
            ibc_packet,
            refund_info,
            packet.sender,
            packet.tokens,
        ),
        None => match ack {
            Ok(_) => settled_with(
                host.tokens_settled(packet.sender, packet.receiver, packet.tokens),
                ack_attributes_of(ack),
            ),
            Err(_) => settled_with(
                host.tokens_refunded(packet.sender, packet.receiver, packet.tokens),
                ack_attributes_of(ack),
            ),
        },
    }
}

/// What the handler of an acknowledgement answers: the messages that settle
/// the packet; an event of the packet with the acknowledgement as it came, as
/// base64 text, and a second event with what the acknowledgement says.
pub open spec fn acknowledged<M>(packet: TransferPacketView, ack_text: Seq<char>, assets: Seq<AttributeView>, msgs: Seq<M>, attributes: Seq<AttributeView>) -> ResponseView<M> {
    ResponseView {
        messages: plain_msgs(msgs),
        events: seq![
            event(PACKET_EVENT@).with_memo(packet.extension).with(
                ATTR_MODULE@,
                TRANSFER_MODULE@,
            ).with(ATTR_SENDER@, packet.sender).with(ATTR_RECEIVER@, packet.receiver).with(
                ATTR_ACK@,
                ack_text,
            ).with_all(assets),
            event(PACKET_EVENT@).with_all(attributes),
        ],
    }
}

/// The acknowledgement of a packet that was sent. Packet and acknowledgement
/// are decoded first; then the packet is settled.
pub open spec fn send_ack_model<H: TransferHost>(host: H, msg: IbcPacketAckMsgView) -> (H, Result<ResponseView<H::Msg>, TransferError<H::Error>>) {
    match H::packet_of(msg.original_packet.data) {
        Err(e) => (host, Err(TransferError::Encoding(e))),
        Ok(packet) => match H::ack_of(msg.acknowledgement) {
            Err(e) => (host, Err(TransferError::Encoding(e))),
            Ok(ack) => {
                let (host1, settled) = settle_model(host, ack, msg.original_packet, packet);
                match settled {
                    Err(e) => (host1, Err(e)),
                    Ok((msgs, attributes)) => match asset_attributes(packet.tokens) {
                        Err(e) => (host1, Err(TransferError::Attribute(e))),
                        Ok(assets) => (
                            host1,
                            Ok(
                                acknowledged(
                                    packet,
                                    base64_text(msg.acknowledgement),
                                    assets,
                                    msgs,
                                    attributes,
                                ),
                            ),
                        ),
                    },
                }
            },
        },
    }
}

/// What the handler of a timeout answers: the messages that give the tokens
/// back, and an event that names who receives them.
pub open spec fn timed_out<M>(packet: TransferPacketView, assets: Seq<AttributeView>, msgs: Seq<M>) -> ResponseView<M> {
    ResponseView {
        messages: plain_msgs(msgs),
        events: seq![
            event(PACKET_EVENT@).with_memo(packet.extension).with(
                ATTR_MODULE@,
                TRANSFER_MODULE@,
            ).with(ATTR_REFUND_RECEIVER@, packet.sender).with_all(assets),
        ],
    }
}

/// The timeout of a packet that was sent: settled as a failure with the fixed
/// text of a timeout.
pub open spec fn send_timeout_model<H: TransferHost>(host: H, ibc_packet: IbcPacketView) -> (H, Result<ResponseView<H::Msg>, TransferError<H::Error>>) {
    match H::packet_of(ibc_packet.data) {
        Err(e) => (host, Err(TransferError::Encoding(e))),
        Ok(packet) => {
            let (host1, settled) = settle_model(host, timeout_ack(), ibc_packet, packet);
            match settled {
                Err(e) => (host1, Err(e)),
                Ok((msgs, _)) => match asset_attributes(packet.tokens) {
                    Err(e) => (host1, Err(TransferError::Attribute(e))),
                    Ok(assets) => (host1, Ok(timed_out(packet, assets, msgs))),
                },
            }
        },
    }
}

/// What a receive answers where it fails: the acknowledgement of a failure
/// with the text of the error, no message, and an event that tells of the
/// failure.
pub open spec fn refused<H: TransferHost>(error: Seq<char>) -> ReceiveResponseView<H::Msg> {
    ReceiveResponseView {
        acknowledgement: H::failure_ack(error),
        messages: Seq::empty(),
        events: seq![
            event(PACKET_EVENT@).with(ATTR_MODULE@, TRANSFER_MODULE@).with(
                ATTR_SUCCESS@,
                ATTR_VALUE_FALSE@,
            ).with(ATTR_ERROR@, error),
        ],
    }
}

/// The forward instruction once each token's fee, set for the denomination
/// under which the token came, stands under the denomination it is held
/// under; token by token in their order.
pub open spec fn remap_all(forward: PacketForwardView, tokens: Seq<NormalizedTransferTokenView>) -> PacketForwardView
    decreases tokens.len(),
{
    if tokens.len() == 0 {
        forward
    } else {
        remap_all(forward, tokens.drop_last()).remapped(
            tokens.last().origin_denom,
            tokens.last().token.denom,
        )
    }
}

/// The tokens as coins of their local denominations.
pub open spec fn coins_of(tokens: Seq<NormalizedTransferTokenView>) -> Seq<CoinView> {
    tokens.map_values(
        |token: NormalizedTransferTokenView|
            CoinView { denom: token.token.denom, amount: token.token.amount },
    )
}

/// The forwarding of a received transfer. The contract itself is credited,
/// without fees; the fees of the instruction are moved under the local
/// denominations; and the host sends the coins on. The messages that credit
/// the contract follow those that send on. Nothing of it is answered where a
/// step fails: the failure is that of the host.
pub open spec fn forward_model<H: TransferHost>(host: H, packet: TransferPacketView, original_packet: IbcPacketView, forward: PacketForwardView) -> (H, Result<ReceiveResponseView<H::Msg>, H::Error>) {
    match host.own_addr_canonical() {
        Err(e) => (host, Err(e)),
        Ok(own) => {
            let (host1, credited) = host.tokens_received(own, packet.tokens, false);
            match credited {
                Err(e) => (host1, Err(e)),
                Ok((tokens, credit)) => {
                    let (host2, sent_on) = host1.forwarded(
                        coins_of(tokens),
                        original_packet,
                        remap_all(forward, tokens),
                        host.own_addr(),
                    );
                    match sent_on {
                        Err(e) => (host2, Err(e)),
                        Ok(response) => (
                            host2,
                            Ok(
                                ReceiveResponseView {
                                    messages: response.messages + plain_msgs(credit),
                                    ..response
                                },
                            ),
                        ),
                    }
                },
            }
        },
    }
}

/// The forwarding of a received transfer, as a handler answers it.
pub open spec fn packet_forward_model<H: TransferHost>(host: H, packet: TransferPacketView, original_packet: IbcPacketView, forward: PacketForwardView) -> (H, Result<ReceiveResponseView<H::Msg>, TransferError<H::Error>>) {
    let (host1, sent_on) = forward_model(host, packet, original_packet, forward);
    match sent_on {
        Ok(response) => (host1, Ok(response)),
        Err(e) => (host1, Err(TransferError::Host(e))),
    }
}

/// What a receive answers where the receiver is credited: the acknowledgement
/// of a success, the messages that credit the tokens, each reporting back
/// under `reply_id` if it fails, and an event of the packet.
pub open spec fn received<M>(packet: TransferPacketView, ack: Seq<u8>, assets: Seq<AttributeView>, credit: Seq<M>, reply_id: u64) -> ReceiveResponseView<M> {
    ReceiveResponseView {
        acknowledgement: ack,
        messages: guarded_msgs(credit, reply_id),
        events: seq![
            event(PACKET_EVENT@).with_memo(packet.extension).with(
                ATTR_MODULE@,
                TRANSFER_MODULE@,
            ).with(ATTR_SENDER@, packet.sender).with(ATTR_RECEIVER@, packet.receiver).with(
                ATTR_SUCCESS@,
                ATTR_VALUE_TRUE@,
            ).with_all(assets),
        ],
    }
}

/// A received packet. Where the memo holds a forward instruction the
/// transfer is forwarded, and the receiver is not credited; else the receiver
/// is credited, with fees cut. A step that fails is answered with the
/// acknowledgement of a failure, which tells of the error: of the host's as
/// the host describes it, of an encoding or of the asset attributes by the
/// name of the error.
pub open spec fn receive_model<H: TransferHost>(host: H, original_packet: IbcPacketView) -> (H, ReceiveResponseView<H::Msg>) {
    match H::packet_of(original_packet.data) {
        Err(e) => (host, refused::<H>(encoding_failure(e))),
        Ok(packet) => match H::forward_in(packet.extension) {
            Some(forward) => {
                let (host1, sent_on) = forward_model(host, packet, original_packet, forward);
                match sent_on {
                    Err(e) => (host1, refused::<H>(H::error_text(e))),
                    Ok(response) => (host1, response),
                }
            },
            None => {
                let (host1, credited) = host.tokens_received(packet.receiver, packet.tokens, true);
                match credited {
                    Err(e) => (host1, refused::<H>(H::error_text(e))),
                    Ok((_, credit)) => match asset_attributes(packet.tokens) {
                        Err(e) => (host1, refused::<H>(attribute_failure(e))),
                        Ok(assets) => (
                            host1,
                            received(packet, H::success_ack(), assets, credit, H::RECEIVE_REPLY_ID),
                        ),
                    },
                }
            },
        },
    }
}

/// A send whose timeout is less than a second away fails with
/// `InvalidTimeout` and leaves the host as it was. A send that is answered
/// ends with the message that the host gives for dispatching a packet whose
/// timeout is `current_time` plus `timeout_delta` seconds exactly.
pub proof fn lemma_send_timeout<H: TransferHost>(host: H, input: TransferInputView, extension: Seq<char>)
    ensures
        input.timeout_delta < 1 ==> send_model(host, input, extension) == (
            host,
            Err::<ResponseView<H::Msg>, TransferError<H::Error>>(
                TransferError::Protocol(ProtocolError::InvalidTimeout),
            ),
        ),
        send_model(host, input, extension).1 matches Ok(response) ==> {
            &&& input.timeout_delta >= 1
            &&& input.current_time.nanos + input.timeout_delta * NANOS_PER_SECOND <= u64::MAX
            &&& send_model(host, input, extension).0.dispatched(
                    bytes_sent(host, input, extension),
                    IbcTimeout {
                        block: None,
                        timestamp: Some(
                            Timestamp {
                                nanos: (input.current_time.nanos + input.timeout_delta
                                    * NANOS_PER_SECOND) as u64,
                            },
                        ),
                    },
                ) == Ok::<H::Msg, H::Error>(response.messages.last().msg)
            &&& response.messages.last().id == IBC_SEND_ID
            &&& response.messages.last().reply_on == ReplyOn::Always
        },
{
    if send_model(host, input, extension).1 is Ok {
        let timeout = timeout_of(input.current_time, input.timeout_delta)->Some_0;
        let (host1, tokens) = normalize_all(host, input.tokens);
        let packet = TransferPacketView {
            sender: input.sender,
            receiver: input.receiver,
            tokens: tokens->Ok_0,
            extension,
        };
        let data = host1.bytes_of(packet)->Ok_0;
        let (host2, custody) = host1.tokens_sent(input.sender, input.receiver, tokens->Ok_0);
        assert(send_model(host, input, extension).0 == host2);
        assert(host2.dispatched(data, IbcTimeout { block: None, timestamp: Some(timeout) }) is Ok);
    }
}

/// The acknowledgement of a success adds no `success` attribute to the event
/// of the packet where its payload is empty, and exactly one where it is
/// not: the payload as base64 text. This holds of a packet that was forwarded
/// as of any other.
pub proof fn lemma_success_attribute<H: TransferHost>(host: H, payload: Seq<u8>, ibc_packet: IbcPacketView, packet: TransferPacketView)
    ensures
        settle_model(host, Ok(payload), ibc_packet, packet).1 matches Ok((_, attributes)) ==> attributes
            == if payload.len() == 0 {
            Seq::<AttributeView>::empty()
        } else {
            seq![AttributeView { key: ATTR_SUCCESS@, value: base64_text(payload) }]
        },
{
}

/// The timeout of a packet that this contract forwarded gives the tokens back
/// to the sender that the record names, not to the sender of the packet that
/// timed out; and they are given back by the messages that the host makes for
/// that refund.
pub proof fn lemma_timeout_refunds_origin<H: TransferHost>(host: H, ibc_packet: IbcPacketView, packet: TransferPacketView, refund_info: InFlightPfmPacketView)
    requires
        host.in_flight(ibc_packet) == Some(refund_info),
    ensures
        settle_model(host, timeout_ack(), ibc_packet, packet).1 matches Ok((msgs, _))
            ==> host.tokens_refunded(
            refund_info.origin_sender_addr,
            packet.sender,
            packet.tokens,
        ).1 == Ok::<Seq<H::Msg>, H::Error>(msgs),
{
}

/// A packet whose memo holds a forward instruction is answered by the host's
/// forwarding, once the contract itself was credited without fees: the
/// messages of the answer are those that send the coins on, followed by those
/// that credit the contract's own address. The receiver of the packet is not
/// credited.
pub proof fn lemma_forward_credits_contract<H: TransferHost>(host: H, original_packet: IbcPacketView, packet: TransferPacketView, forward: PacketForwardView)
    requires
        H::packet_of(original_packet.data) == Ok::<TransferPacketView, EncodingError>(packet),
        H::forward_in(packet.extension) == Some(forward),
    ensures
        receive_model(host, original_packet) == match forward_model(
            host,
            packet,
            original_packet,
            forward,
        ) {
            (after, Ok(response)) => (after, response),
            (after, Err(e)) => (after, refused::<H>(H::error_text(e))),
        },
        forward_model(host, packet, original_packet, forward).1 matches Ok(response) ==> {
            &&& host.own_addr_canonical() matches Ok(own)
            &&& host.tokens_received(own, packet.tokens, false).1 matches Ok((tokens, credit))
            &&& host.tokens_received(own, packet.tokens, false).0.forwarded(
                coins_of(tokens),
                original_packet,
                remap_all(forward, tokens),
                host.own_addr(),
            ).1 matches Ok(sent_on)
            &&& response.messages == sent_on.messages + plain_msgs(credit)
            &&& response.acknowledgement == sent_on.acknowledgement
        },
{
}

/// The handler of an acknowledgement works on the packet that the bytes
/// decode to, field by field: the event names its sender, its receiver and
/// its memo, and the packet is settled for its tokens, in their order. With
/// what `send` says of the bytes it dispatches, this is so of every packet
/// that was sent.
pub proof fn lemma_ack_reads_packet<H: TransferHost>(host: H, msg: IbcPacketAckMsgView, packet: TransferPacketView)
    requires
        H::packet_of(msg.original_packet.data) == Ok::<TransferPacketView, EncodingError>(packet),
    ensures
        send_ack_model(host, msg).1 matches Ok(response) ==> {
            &&& H::ack_of(msg.acknowledgement) matches Ok(ack)
            &&& settle_model(host, ack, msg.original_packet, packet).1 matches Ok(
                (msgs, attributes),
            )
            &&& asset_attributes(packet.tokens) matches Ok(assets)
            &&& response == acknowledged(
                packet,
                base64_text(msg.acknowledgement),
                assets,
                msgs,
                attributes,
            )
            &&& response.events[0].attributes.contains(
                AttributeView { key: ATTR_SENDER@, value: packet.sender },
            )
            &&& response.events[0].attributes.contains(
                AttributeView { key: ATTR_RECEIVER@, value: packet.receiver },
            )
            &&& packet.extension.len() > 0 ==> response.events[0].attributes[0] == (AttributeView {
                key: ATTR_MEMO@,
                value: packet.extension,
            })
        },
{
    if send_ack_model(host, msg).1 is Ok {
        let ack = H::ack_of(msg.acknowledgement)->Ok_0;
        let settled = settle_model(host, ack, msg.original_packet, packet).1->Ok_0;
        let assets = asset_attributes(packet.tokens)->Ok_0;
        let response = acknowledged(
            packet,
            base64_text(msg.acknowledgement),
            assets,
            settled.0,
            settled.1,
        );
        let first = response.events[0].attributes;
        let offset: int = if packet.extension.len() == 0 { 0 } else { 1 };
        assert(first[offset + 1] == AttributeView { key: ATTR_SENDER@, value: packet.sender });
        assert(first[offset + 2] == AttributeView { key: ATTR_RECEIVER@, value: packet.receiver });
    }
}

/// The handler of a received packet works on the packet that the bytes decode
/// to, field by field: where the memo holds no forward instruction and
/// nothing fails, the host credits the receiver of the packet with its
/// tokens, in their order, and the event names its sender, its receiver and
/// its memo.
pub proof fn lemma_receive_reads_packet<H: TransferHost>(host: H, original_packet: IbcPacketView, packet: TransferPacketView)
    requires
        H::packet_of(original_packet.data) == Ok::<TransferPacketView, EncodingError>(packet),
        H::forward_in(packet.extension) is None,
    ensures
        host.tokens_received(packet.receiver, packet.tokens, true).1 is Ok && asset_attributes(
            packet.tokens,
        ) is Ok ==> {
            let credit = host.tokens_received(packet.receiver, packet.tokens, true).1->Ok_0.1;
            let assets = asset_attributes(packet.tokens)->Ok_0;
            let response = receive_model(host, original_packet).1;
            &&& receive_model(host, original_packet).0 == host.tokens_received(
                packet.receiver,
                packet.tokens,
                true,
            ).0
            &&& response == received(packet, H::success_ack(), assets, credit, H::RECEIVE_REPLY_ID)
            &&& response.events[0].attributes.contains(
                AttributeView { key: ATTR_SENDER@, value: packet.sender },
            )
            &&& response.events[0].attributes.contains(
                AttributeView { key: ATTR_RECEIVER@, value: packet.receiver },
            )
            &&& packet.extension.len() > 0 ==> response.events[0].attributes[0] == (AttributeView {
                key: ATTR_MEMO@,
                value: packet.extension,
            })
        },
{
    let credited = host.tokens_received(packet.receiver, packet.tokens, true).1;
    if credited is Ok && asset_attributes(packet.tokens) is Ok {
        let response = receive_model(host, original_packet).1;
        let first = response.events[0].attributes;
        let offset: int = if packet.extension.len() == 0 { 0 } else { 1 };
        assert(first[offset + 1] == AttributeView { key: ATTR_SENDER@, value: packet.sender });
        assert(first[offset + 2] == AttributeView { key: ATTR_RECEIVER@, value: packet.receiver });
    }
}

} // verus!
