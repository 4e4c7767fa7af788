//! The transfer protocol: the names it emits, its errors, and its handlers.

use core::fmt::Debug;
use vstd::prelude::*;
use vstd::string::StrSliceExecFns;

use crate::bindings::{
    base64_text, coin_pairs, coins_json, coins_to_json, debug_text, to_base64,
};
use crate::host::TransferHost;
use crate::ibc::{
    packet_id, IbcBasicResponse, IbcPacket, IbcPacketAckMsg, IbcPacketView, IbcReceiveResponse,
    IbcTimeout, Response,
};
use crate::middleware::{forward_instruction, InFlightPfmPacket, PacketForward};
use crate::model::{
    acknowledged, bytes_sent, coins_of, forward_model, lemma_normalize_all_stops,
    normalize_all, packet_sent,
    packet_forward_model,
    pfm_ack_model, receive_model, received, refused, remap_all, send_ack_model, send_model,
    send_timeout_model, sent, settle_model, timed_out,
};
use crate::response::{
    event, guarded_msgs, plain_msgs, push_messages, push_sub_msgs, Attribute, AttributeView,
    Event, ReplyOn, SubMsg,
};
use crate::types::{
    ack_view, actual_amount, fee_amount, CheckedMultiplyRatioError, Coin, EncodingError,
    GenericAck, NormalizedTransferToken, Timestamp, TransferPacketCommon, TransferPacketView,
    TransferToken, TransferTokenView, NANOS_PER_SECOND,
};
use crate::view::{lemma_views_push, option_view, result_view, result_views, views};

verus! {

pub const TRANSFER_MODULE: &'static str = "transfer";

pub const PACKET_EVENT: &'static str = "fungible_token_packet";

pub const TRANSFER_EVENT: &'static str = "ibc_transfer";

pub const TIMEOUT_EVENT: &'static str = "timeout";

pub const MESSAGE_EVENT: &'static str = "message";

pub const ATTR_MODULE: &'static str = "module";

pub const ATTR_SENDER: &'static str = "sender";

pub const ATTR_RECEIVER: &'static str = "receiver";

pub const ATTR_REFUND_RECEIVER: &'static str = "refund_receiver";

pub const ATTR_MEMO: &'static str = "memo";

pub const ATTR_SUCCESS: &'static str = "success";

pub const ATTR_ERROR: &'static str = "error";

pub const ATTR_ACK: &'static str = "acknowledgement";

pub const ATTR_PFM: &'static str = "pfm";

pub const ATTR_ASSETS: &'static str = "assets";

pub const ATTR_FEE_ASSETS: &'static str = "fee_assets";

pub const ATTR_VALUE_PFM_ACK: &'static str = "pfm_ack";

pub const ATTR_VALUE_TRUE: &'static str = "true";

pub const ATTR_VALUE_FALSE: &'static str = "false";

/// The payload of the failure that stands for a timeout.
pub const ACK_ERR_TIMEOUT_MSG: &'static str = "giving up on forwarded packet after timeout";

/// The reply identifier of the message that dispatches an outbound packet.
pub const IBC_SEND_ID: u64 = 69;

/// What the protocol itself refuses.
#[derive(Debug, PartialEq, Eq)]
pub enum ProtocolError {
    /// No channel of that name is known.
    NoSuchChannel { channel_id: String },
    /// The caller is not the protocol's own contract.
    Unauthorized,
    /// The timeout is less than one second away.
    InvalidTimeout,
}

/// What a send is asked to do.
#[derive(Debug, PartialEq, Eq)]
pub struct TransferInput {
    pub current_time: Timestamp,
    /// How long the packet may travel, in seconds.
    pub timeout_delta: u64,
    pub sender: String,
    pub receiver: String,
    pub tokens: Vec<TransferToken>,
}

pub struct TransferInputView {
    pub current_time: Timestamp,
    pub timeout_delta: u64,
    pub sender: Seq<char>,
    pub receiver: Seq<char>,
    pub tokens: Seq<TransferTokenView>,
}

impl View for TransferInput {
    type V = TransferInputView;

    open spec fn view(&self) -> TransferInputView {
        TransferInputView {
            current_time: self.current_time,
            timeout_delta: self.timeout_delta,
            sender: self.sender@,
            receiver: self.receiver@,
            tokens: views(self.tokens@),
        }
    }
}

/// Why a handler failed: the protocol refused, a packet or acknowledgement
/// could not be read or written, the asset attributes could not be built, or
/// the host failed.
#[derive(Debug, PartialEq, Eq)]
pub enum TransferError<E> {
    Protocol(ProtocolError),
    Encoding(EncodingError),
    Attribute(AttributeError),
    Host(E),
}

/// When a packet sent at `now` times out, `delta` seconds later: no time
/// where that is less than a second away, or cannot be told in 64 bits of
/// nanoseconds.
pub open spec fn timeout_of(now: Timestamp, delta: u64) -> Option<Timestamp> {
    if delta < 1 || now.nanos + delta * NANOS_PER_SECOND > u64::MAX {
        None
    } else {
        Some(Timestamp { nanos: (now.nanos + delta * NANOS_PER_SECOND) as u64 })
    }
}

/// The time at which a packet sent at `now` times out, `delta` seconds later.
/// A timeout less than one second away is refused, and so is one past the
/// last time that can be told.
pub fn packet_timeout(now: Timestamp, delta: u64) -> (r: Result<Timestamp, ProtocolError>)
    ensures
        match r {
            Ok(timeout) => timeout_of(now, delta) == Some(timeout),
            Err(e) => timeout_of(now, delta) is None && e is InvalidTimeout,
        },
        delta < 1 ==> r is Err,
        delta >= 1 && now.nanos + delta * NANOS_PER_SECOND <= u64::MAX ==> r is Ok && r->Ok_0.nanos
            == now.nanos + delta * NANOS_PER_SECOND,
{
    if delta < 1 {
        return Err(ProtocolError::InvalidTimeout);
    }
    match now.plus_seconds(delta) {
        Some(timeout) => Ok(timeout),
        None => Err(ProtocolError::InvalidTimeout),
    }
}

/// How the protocol version of the other end of a channel stands to this
/// end's.
#[derive(Clone, Copy, PartialEq, Eq, Structural, Debug)]
pub enum ProtocolSwitch {
    /// The other version holds all of this one.
    Upgrade,
    /// The other version holds only part of this one.
    Downgrade,
    /// Both ends speak the same protocol.
    Stable,
}

/// Why the two asset attributes of an event could not be built.
#[derive(Clone, Copy, PartialEq, Eq, Structural, Debug)]
pub enum AttributeError {
    /// An amount could not be split into what is transferred and the fee.
    Arithmetic(CheckedMultiplyRatioError),
    /// The serializer gave no text for a list of coins.
    Serialize,
}

/// How a receive that could not read its packet tells of the error: as the
/// `Debug` of the failure writes it.
pub open spec fn encoding_failure(error: EncodingError) -> Seq<char> {
    match error {
        EncodingError::UnknownVersion => "Encoding(UnknownVersion)"@,
        EncodingError::Truncated => "Encoding(Truncated)"@,
        EncodingError::TrailingBytes => "Encoding(TrailingBytes)"@,
        EncodingError::InvalidText => "Encoding(InvalidText)"@,
        EncodingError::TooLong => "Encoding(TooLong)"@,
        EncodingError::InvalidAck => "Encoding(InvalidAck)"@,
        EncodingError::InvalidSender => "Encoding(InvalidSender)"@,
        EncodingError::InvalidReceiver => "Encoding(InvalidReceiver)"@,
    }
}

/// How a receive that could not build its asset attributes tells of the
/// error: as the `Debug` of the failure writes it.
pub open spec fn attribute_failure(error: AttributeError) -> Seq<char> {
    match error {
        AttributeError::Arithmetic(CheckedMultiplyRatioError::DivideByZero) =>
            "Attribute(Arithmetic(DivideByZero))"@,
        AttributeError::Arithmetic(CheckedMultiplyRatioError::Overflow) =>
            "Attribute(Arithmetic(Overflow))"@,
        AttributeError::Serialize => "Attribute(Serialize)"@,
    }
}

/// The text that tells of a packet that could not be read.
pub fn encoding_failure_text(error: EncodingError) -> (r: String)
    ensures
        r@ == encoding_failure(error),
{
    match error {
        EncodingError::UnknownVersion => "Encoding(UnknownVersion)".to_owned(),
        EncodingError::Truncated => "Encoding(Truncated)".to_owned(),
        EncodingError::TrailingBytes => "Encoding(TrailingBytes)".to_owned(),
        EncodingError::InvalidText => "Encoding(InvalidText)".to_owned(),
        EncodingError::TooLong => "Encoding(TooLong)".to_owned(),
        EncodingError::InvalidAck => "Encoding(InvalidAck)".to_owned(),
        EncodingError::InvalidSender => "Encoding(InvalidSender)".to_owned(),
        EncodingError::InvalidReceiver => "Encoding(InvalidReceiver)".to_owned(),
    }
}

/// The text that tells of asset attributes that could not be built.
pub fn attribute_failure_text(error: AttributeError) -> (r: String)
    ensures
        r@ == attribute_failure(error),
{
    match error {
        AttributeError::Arithmetic(CheckedMultiplyRatioError::DivideByZero) =>
            "Attribute(Arithmetic(DivideByZero))".to_owned(),
        AttributeError::Arithmetic(CheckedMultiplyRatioError::Overflow) =>
            "Attribute(Arithmetic(Overflow))".to_owned(),
        AttributeError::Serialize => "Attribute(Serialize)".to_owned(),
    }
}

/// For each token a coin of what is transferred of it, as denomination and
/// amount.
pub open spec fn actual_coins(tokens: Seq<TransferTokenView>) -> Seq<(Seq<char>, u128)> {
    tokens.map_values(
        |token: TransferTokenView| (token.denom, actual_amount(token.amount, token.fee) as u128),
    )
}

/// For each token a coin of the fee cut from it, as denomination and amount.
pub open spec fn fee_coins(tokens: Seq<TransferTokenView>) -> Seq<(Seq<char>, u128)> {
    tokens.map_values(
        |token: TransferTokenView| (token.denom, fee_amount(token.amount, token.fee) as u128),
    )
}

/// The attributes `assets` and `fee_assets`, in that order, from the two texts
/// of the serializer.
pub open spec fn asset_attributes_of(assets: Option<Seq<char>>, fees: Option<Seq<char>>) -> Result<Seq<AttributeView>, AttributeError> {
    match (assets, fees) {
        (Some(assets), Some(fees)) => Ok(
            seq![
                AttributeView { key: ATTR_ASSETS@, value: assets },
                AttributeView { key: ATTR_FEE_ASSETS@, value: fees },
            ],
        ),
        _ => Err(AttributeError::Serialize),
    }
}

/// The two asset attributes of a list of tokens: under `assets` the serialized
/// coins that are transferred, under `fee_assets` the serialized fees.
pub open spec fn asset_attributes(tokens: Seq<TransferTokenView>) -> Result<Seq<AttributeView>, AttributeError> {
    asset_attributes_of(coins_json(actual_coins(tokens)), coins_json(fee_coins(tokens)))
}

/// The coins that are transferred and the fees cut, token by token.
pub fn token_coins(tokens: &[TransferToken]) -> (r: Result<(Vec<Coin>, Vec<Coin>), CheckedMultiplyRatioError>)
    ensures
        r matches Ok((actual, fees)) && coin_pairs(actual@) == actual_coins(views(tokens@))
            && coin_pairs(fees@) == fee_coins(views(tokens@)),
{
    let mut actual: Vec<Coin> = Vec::new();
    let mut fees: Vec<Coin> = Vec::new();
    let mut i: usize = 0;
    while i < tokens.len()
        invariant
            i <= tokens.len(),
            coin_pairs(actual@) == actual_coins(views(tokens@.take(i as int))),
            coin_pairs(fees@) == fee_coins(views(tokens@.take(i as int))),
        decreases tokens.len() - i,
    {
        let token = &tokens[i];
        match token.amounts() {
            Ok((actual_amount, fee_amount)) => {
                let coin = Coin { denom: token.denom.clone(), amount: actual_amount };
                let fee = Coin { denom: token.denom.clone(), amount: fee_amount };
                proof {
                    let prev = tokens@.take(i as int);
                    let next = tokens@.take(i as int + 1);
                    assert(next =~= prev.push(tokens@[i as int]));
                    assert(views(next) =~= views(prev).push(token@));
                    assert(actual_coins(views(next)) =~= actual_coins(views(prev)).push(
                        (coin.denom@, coin.amount),
                    ));
                    assert(fee_coins(views(next)) =~= fee_coins(views(prev)).push(
                        (fee.denom@, fee.amount),
                    ));
                    assert(coin_pairs(actual@.push(coin)) =~= coin_pairs(actual@).push(
                        (coin.denom@, coin.amount),
                    ));
                    assert(coin_pairs(fees@.push(fee)) =~= coin_pairs(fees@).push(
                        (fee.denom@, fee.amount),
                    ));
                }
                actual.push(coin);
                fees.push(fee);
            },
            Err(e) => {
                return Err(e);
            },
        }
        i = i + 1;
    }
    proof {
        assert(tokens@.take(i as int) == tokens@);
    }
    Ok((actual, fees))
}

/// The attributes `assets` and `fee_assets` from the two serialized lists of
/// coins; an error where the serializer gave no text for one of them.
pub fn asset_attributes_from(assets: Option<String>, fees: Option<String>) -> (r: Result<Vec<Attribute>, AttributeError>)
    ensures
        result_views(r) == asset_attributes_of(option_view(assets), option_view(fees)),
{
    match (assets, fees) {
        (Some(assets), Some(fees)) => {
            let mut attributes: Vec<Attribute> = Vec::new();
            attributes.push(Attribute::new(ATTR_ASSETS, assets));
            attributes.push(Attribute::new(ATTR_FEE_ASSETS, fees));
            assert(views(attributes@) == asset_attributes_of(option_view(Some(assets)), option_view(Some(fees)))->Ok_0);
            Ok(attributes)
        },
        _ => Err(AttributeError::Serialize),
    }
}

/// The attributes that tell an event what a list of tokens moves: under
/// `assets` the coins that are transferred, under `fee_assets` the fees cut
/// from them, each list serialized as one text. There are attributes for
/// every list of tokens.
pub fn tokens_to_attr(tokens: &[TransferToken]) -> (r: Result<Vec<Attribute>, AttributeError>)
    ensures
        result_views(r) == asset_attributes(views(tokens@)),
        r is Ok,
{
    match token_coins(tokens) {
        Ok((actual, fees)) => {
            let assets = coins_to_json(&actual);
            let fee_assets = coins_to_json(&fees);
            asset_attributes_from(assets, fee_assets)
        },
        Err(e) => Err(AttributeError::Arithmetic(e)),
    }
}

/// An event of the given name that starts with the memo, where there is one.
pub fn memo_event(ty: &str, memo: &String) -> (r: Event)
    ensures
        r@ == event(ty@).with_memo(memo@),
{
    if memo.as_str().is_empty() {
        Event::new(ty)
    } else {
        Event::new(ty).add_attribute(ATTR_MEMO, memo.clone())
    }
}

/// What an acknowledgement adds to the event of a packet: under `success` the
/// payload of a success, under `error` that of a failure, each as base64 text;
/// nothing where the payload is empty.
pub open spec fn ack_attributes_of(ack: Result<Seq<u8>, Seq<u8>>) -> Seq<AttributeView> {
    match ack {
        Ok(payload) => if payload.len() == 0 {
            Seq::empty()
        } else {
            seq![AttributeView { key: ATTR_SUCCESS@, value: base64_text(payload) }]
        },
        Err(payload) => if payload.len() == 0 {
            Seq::empty()
        } else {
            seq![AttributeView { key: ATTR_ERROR@, value: base64_text(payload) }]
        },
    }
}

/// The attribute that tells of a payload as text: one attribute under `key`,
/// or none where the text is empty.
pub fn text_attribute(key: &str, text: String) -> (r: Vec<Attribute>)
    ensures
        views(r@) == if text@.len() == 0 {
            Seq::<AttributeView>::empty()
        } else {
            seq![AttributeView { key: key@, value: text@ }]
        },
{
    let mut attributes: Vec<Attribute> = Vec::new();
    if !text.as_str().is_empty() {
        attributes.push(Attribute::new(key, text));
    }
    assert(views(attributes@) =~= if text@.len() == 0 {
        Seq::<AttributeView>::empty()
    } else {
        seq![AttributeView { key: key@, value: text@ }]
    });
    attributes
}

/// What an acknowledgement adds to the event of a packet.
pub fn ack_attributes(ack: &GenericAck) -> (r: Vec<Attribute>)
    ensures
        views(r@) == ack_attributes_of(ack_view(*ack)),
        views(r@).len() == (if ack_view(*ack) matches Ok(payload) && payload.len() > 0 {
            1nat
        } else if ack_view(*ack) matches Err(payload) && payload.len() > 0 {
            1nat
        } else {
            0nat
        }),
{
    match ack {
        Ok(payload) => text_attribute(ATTR_SUCCESS, to_base64(payload.as_slice())),
        Err(payload) => text_attribute(ATTR_ERROR, to_base64(payload.as_slice())),
    }
}

/// A copy of the tokens.
pub fn clone_tokens(tokens: &Vec<TransferToken>) -> (r: Vec<TransferToken>)
    ensures
        views(r@) == views(tokens@),
{
    let mut r: Vec<TransferToken> = Vec::new();
    let mut i: usize = 0;
    while i < tokens.len()
        invariant
            i <= tokens.len(),
            views(r@) == views(tokens@.take(i as int)),
        decreases tokens.len() - i,
    {
        let token = tokens[i].clone();
        proof {
            assert(tokens@.take(i as int + 1) =~= tokens@.take(i as int).push(tokens@[i as int]));
            assert(views(tokens@.take(i as int + 1)) =~= views(tokens@.take(i as int)).push(
                token@,
            ));
            lemma_views_push(r@, token);
        }
        r.push(token);
        i = i + 1;
    }
    assert(tokens@.take(i as int) =~= tokens@);
    r
}

/// Has the host normalize each token in its turn, and stops at the first it
/// refuses.
pub fn normalize_tokens<H: TransferHost>(host: &mut H, tokens: &Vec<TransferToken>) -> (r: Result<Vec<TransferToken>, H::Error>)
    ensures
        (*final(host), result_views(r)) == normalize_all(*old(host), views(tokens@)),
{
    let ghost all = views(tokens@);
    let ghost start = *host;
    let mut done: Vec<TransferToken> = Vec::new();
    let mut i: usize = 0;
    assert(views(done@) =~= Seq::empty());
    while i < tokens.len()
        invariant
            i <= tokens.len(),
            all == views(tokens@),
            start == *old(host),
            normalize_all(start, all.take(i as int)) == (
                *host,
                Ok::<Seq<TransferTokenView>, H::Error>(views(done@)),
            ),
        decreases tokens.len() - i,
    {
        let token = tokens[i].clone();
        let ghost before = *host;
        let ghost next = all.take(i as int + 1);
        proof {
            assert(next.drop_last() =~= all.take(i as int));
            assert(next.last() == token@);
        }
        match host.normalize_for_ibc_transfer(token) {
            Ok(token) => {
                proof {
                    lemma_views_push(done@, token);
                    assert(before.normalized(next.last()).1 == Ok::<
                        TransferTokenView,
                        H::Error,
                    >(token@));
                }
                done.push(token);
            },
            Err(e) => {
                proof {
                    assert(before.normalized(next.last()).1 == Err::<
                        TransferTokenView,
                        H::Error,
                    >(e));
                    assert(normalize_all(start, next) == (
                        *host,
                        Err::<Seq<TransferTokenView>, H::Error>(e),
                    ));
                    lemma_normalize_all_stops(start, all, i as int + 1);
                }
                return Err(e);
            },
        }
        i = i + 1;
    }
    proof {
        assert(all.take(i as int) =~= all);
    }
    Ok(done)
}

/// The response of a send from what the host gave: the custody messages and
/// the message that dispatches the packet.
pub fn send_response<M>(sender: &String, receiver: &String, memo: &String, assets: Vec<Attribute>, custody: Vec<M>, dispatch: M) -> (r: Response<M>)
    ensures
        r@ == sent(sender@, receiver@, memo@, views(assets@), custody@, dispatch),
{
    let mut messages: Vec<SubMsg<M>> = Vec::new();
    assert(views(messages@) =~= Seq::empty());
    push_messages(&mut messages, custody);
    let sub = SubMsg::reply_always(dispatch, IBC_SEND_ID);
    proof {
        lemma_views_push(messages@, sub);
        assert(Seq::<crate::response::SubMsgView<M>>::empty() + plain_msgs(custody@) =~= plain_msgs(
            custody@,
        ));
    }
    messages.push(sub);
    let transfer = memo_event(TRANSFER_EVENT, memo).add_attribute(
        ATTR_SENDER,
        sender.clone(),
    ).add_attribute(ATTR_RECEIVER, receiver.clone()).add_attributes(assets);
    let message = Event::new(MESSAGE_EVENT).add_attribute(ATTR_MODULE, TRANSFER_MODULE.to_owned());
    let mut events: Vec<Event> = Vec::new();
    events.push(transfer);
    events.push(message);
    assert(views(events@) =~= seq![transfer@, message@]);
    Response { messages, events }
}

pub open spec fn settlement_view<M, E>(r: Result<(Vec<M>, Vec<Attribute>), E>) -> Result<(Seq<M>, Seq<AttributeView>), E> {
    match r {
        Ok((msgs, attributes)) => Ok((msgs@, views(attributes@))),
        Err(e) => Err(e),
    }
}

/// Ends a packet that this contract forwarded: gives the tokens back to the
/// sender that the record names where the forward failed, and then drops the
/// record.
pub fn end_forward<H: TransferHost>(host: &mut H, ack: GenericAck, ibc_packet: &IbcPacket, refund_info: InFlightPfmPacket, sender: &String, tokens: Vec<TransferToken>) -> (r: Result<(Vec<H::Msg>, Vec<Attribute>), TransferError<H::Error>>)
    ensures
        (*final(host), settlement_view(r)) == pfm_ack_model(
            *old(host),
            ack_view(ack),
            ibc_packet@,
            refund_info@,
            sender@,
            views(tokens@),
        ),
        r is Ok ==> final(host).in_flight(ibc_packet@) is None,
        ack is Ok ==> forall|other: IbcPacketView|
            packet_id(other) != packet_id(ibc_packet@)
                ==> #[trigger] final(host).in_flight(other) == old(host).in_flight(other),
{
    let mut attributes = ack_attributes(&ack);
    let msgs = match ack {
        Ok(_) => Vec::new(),
        Err(_) => {
            match host.send_tokens_failure(&refund_info.origin_sender_addr, sender, tokens) {
                Ok(msgs) => {
                    let marker = Attribute::new(ATTR_PFM, ATTR_VALUE_PFM_ACK.to_owned());
                    proof {
                        lemma_views_push(attributes@, marker);
                    }
                    attributes.push(marker);
                    msgs
                },
                Err(e) => {
                    return Err(TransferError::Host(e));
                },
            }
        },
    };
    host.remove_in_flight_packet(ibc_packet);
    Ok((msgs, attributes))
}

/// Settles a packet that was sent, once its outcome is known.
pub fn settle<H: TransferHost>(host: &mut H, ack: GenericAck, ibc_packet: &IbcPacket, packet: &TransferPacketCommon) -> (r: Result<(Vec<H::Msg>, Vec<Attribute>), TransferError<H::Error>>)
    ensures
        (*final(host), settlement_view(r)) == settle_model(
            *old(host),
            ack_view(ack),
            ibc_packet@,
            packet@,
        ),
        old(host).in_flight(ibc_packet@) is Some && r is Ok
            ==> final(host).in_flight(ibc_packet@) is None,
{
    match host.get_in_flight_packet(ibc_packet) {
        Some(refund_info) => end_forward(
            host,
            ack,
            ibc_packet,
            refund_info,
            &packet.sender,
            clone_tokens(&packet.tokens),
        ),
        None => {
            let attributes = ack_attributes(&ack);
            let moved = match ack {
                Ok(_) => host.send_tokens_success(
                    &packet.sender,
                    &packet.receiver,
                    clone_tokens(&packet.tokens),
                ),
                Err(_) => host.send_tokens_failure(
                    &packet.sender,
                    &packet.receiver,
                    clone_tokens(&packet.tokens),
                ),
            };
            match moved {
                Ok(msgs) => Ok((msgs, attributes)),
                Err(e) => Err(TransferError::Host(e)),
            }
        },
    }
}

/// The answer to an acknowledgement from what settled the packet.
/// `ack_text` is the acknowledgement as it came, as text.
pub fn ack_response<M>(packet: &TransferPacketCommon, ack_text: String, assets: Vec<Attribute>, msgs: Vec<M>, attributes: Vec<Attribute>) -> (r: IbcBasicResponse<M>)
    ensures
        r@ == acknowledged(packet@, ack_text@, views(assets@), msgs@, views(attributes@)),
{
    let mut messages: Vec<SubMsg<M>> = Vec::new();
    assert(views(messages@) =~= Seq::empty());
    push_messages(&mut messages, msgs);
    assert(views(messages@) =~= plain_msgs(msgs@));
    let first = memo_event(PACKET_EVENT, &packet.extension).add_attribute(
        ATTR_MODULE,
        TRANSFER_MODULE.to_owned(),
    ).add_attribute(ATTR_SENDER, packet.sender.clone()).add_attribute(
        ATTR_RECEIVER,
        packet.receiver.clone(),
    ).add_attribute(ATTR_ACK, ack_text).add_attributes(assets);
    let second = Event::new(PACKET_EVENT).add_attributes(attributes);
    let mut events: Vec<Event> = Vec::new();
    events.push(first);
    events.push(second);
    assert(views(events@) =~= seq![first@, second@]);
    IbcBasicResponse { messages, events }
}

/// The answer to a timeout from the messages that give the tokens back.
pub fn timeout_response<M>(packet: &TransferPacketCommon, assets: Vec<Attribute>, msgs: Vec<M>) -> (r: IbcBasicResponse<M>)
    ensures
        r@ == timed_out(packet@, views(assets@), msgs@),
{
    let mut messages: Vec<SubMsg<M>> = Vec::new();
    assert(views(messages@) =~= Seq::empty());
    push_messages(&mut messages, msgs);
    assert(views(messages@) =~= plain_msgs(msgs@));
    let first = memo_event(PACKET_EVENT, &packet.extension).add_attribute(
        ATTR_MODULE,
        TRANSFER_MODULE.to_owned(),
    ).add_attribute(ATTR_REFUND_RECEIVER, packet.sender.clone()).add_attributes(assets);
    let mut events: Vec<Event> = Vec::new();
    events.push(first);
    assert(views(events@) =~= seq![first@]);
    IbcBasicResponse { messages, events }
}

/// The coins to send on, and the fees of the instruction moved under the
/// denominations the tokens are held under.
pub fn forward_coins(tokens: Vec<NormalizedTransferToken>, forward: &mut PacketForward) -> (r: Vec<Coin>)
    ensures
        views(r@) == coins_of(views(tokens@)),
        final(forward)@ == remap_all(old(forward)@, views(tokens@)),
{
    let ghost all = views(tokens@);
    let mut coins: Vec<Coin> = Vec::new();
    let mut i: usize = 0;
    assert(views(coins@) =~= coins_of(all.take(0)));
    while i < tokens.len()
        invariant
            i <= tokens.len(),
            all == views(tokens@),
            views(coins@) == coins_of(all.take(i as int)),
            forward@ == remap_all(old(forward)@, all.take(i as int)),
        decreases tokens.len() - i,
    {
        let token = &tokens[i];
        forward.remap_fee(&token.origin_denom, &token.token.denom);
        let coin = Coin { denom: token.token.denom.clone(), amount: token.token.amount };
        proof {
            assert(all.take(i as int + 1).drop_last() =~= all.take(i as int));
            assert(all.take(i as int + 1).last() == token@);
            lemma_views_push(coins@, coin);
            assert(coins_of(all.take(i as int + 1)) =~= coins_of(all.take(i as int)).push(coin@));
        }
        coins.push(coin);
        i = i + 1;
    }
    assert(all.take(i as int) =~= all);
    coins
}

/// Forwards a received transfer: credits the contract itself, without fees,
/// and has the host send the coins on. It fails where the host does.
pub fn forward_packet<H: TransferHost>(host: &mut H, packet: TransferPacketCommon, original_packet: IbcPacket, forward: PacketForward) -> (r: Result<IbcReceiveResponse<H::Msg>, H::Error>)
    ensures
        (*final(host), result_view(r)) == forward_model(
            *old(host),
            packet@,
            original_packet@,
            forward@,
        ),
{
    let own = match host.self_addr_canonical() {
        Ok(own) => own,
        Err(e) => {
            return Err(e);
        },
    };
    let sender = host.self_addr().clone();
    let (tokens, credit) = match host.receive_transfer(&own, packet.tokens, false) {
        Ok(credited) => credited,
        Err(e) => {
            return Err(e);
        },
    };
    let mut forward = forward;
    let coins = forward_coins(tokens, &mut forward);
    let response = match host.forward_transfer_packet(coins, original_packet, forward, sender) {
        Ok(response) => response,
        Err(e) => {
            return Err(e);
        },
    };
    let mut messages = response.messages;
    push_messages(&mut messages, credit);
    Ok(
        IbcReceiveResponse {
            acknowledgement: response.acknowledgement,
            messages,
            events: response.events,
        },
    )
}

/// The answer to a packet whose receiver is credited. `ack` is the
/// acknowledgement of a success; each message of `credit` reports back under
/// `reply_id` if it fails.
pub fn receive_response<M>(packet: &TransferPacketCommon, ack: Vec<u8>, assets: Vec<Attribute>, credit: Vec<M>, reply_id: u64) -> (r: IbcReceiveResponse<M>)
    ensures
        r@ == received(packet@, ack@, views(assets@), credit@, reply_id),
{
    let mut messages: Vec<SubMsg<M>> = Vec::new();
    assert(views(messages@) =~= Seq::empty());
    push_sub_msgs(&mut messages, credit, reply_id, ReplyOn::Error);
    assert(views(messages@) =~= guarded_msgs(credit@, reply_id));
    let first = memo_event(PACKET_EVENT, &packet.extension).add_attribute(
        ATTR_MODULE,
        TRANSFER_MODULE.to_owned(),
    ).add_attribute(ATTR_SENDER, packet.sender.clone()).add_attribute(
        ATTR_RECEIVER,
        packet.receiver.clone(),
    ).add_attribute(ATTR_SUCCESS, ATTR_VALUE_TRUE.to_owned()).add_attributes(assets);
    let mut events: Vec<Event> = Vec::new();
    events.push(first);
    assert(views(events@) =~= seq![first@]);
    IbcReceiveResponse { acknowledgement: ack, messages, events }
}

/// The answer to a packet that could not be received. `ack` is the
/// acknowledgement of the failure, `error` its text.
pub fn refusal<M>(ack: Vec<u8>, error: String) -> (r: IbcReceiveResponse<M>)
    ensures
        r@.acknowledgement == ack@,
        r@.messages == Seq::<crate::response::SubMsgView<M>>::empty(),
        r@.events == seq![
            event(PACKET_EVENT@).with(ATTR_MODULE@, TRANSFER_MODULE@).with(
                ATTR_SUCCESS@,
                ATTR_VALUE_FALSE@,
            ).with(ATTR_ERROR@, error@),
        ],
{
    let messages: Vec<SubMsg<M>> = Vec::new();
    assert(views(messages@) =~= Seq::empty());
    let first = Event::new(PACKET_EVENT).add_attribute(
        ATTR_MODULE,
        TRANSFER_MODULE.to_owned(),
    ).add_attribute(ATTR_SUCCESS, ATTR_VALUE_FALSE.to_owned()).add_attribute(ATTR_ERROR, error);
    let mut events: Vec<Event> = Vec::new();
    events.push(first);
    assert(views(events@) =~= seq![first@]);
    IbcReceiveResponse { acknowledgement: ack, messages, events }
}

/// The answer of a host to a packet that could not be received: the host's
/// acknowledgement of a failure with the text of the error, and the event that
/// tells of it.
pub fn refuse<H: TransferHost>(error: String) -> (r: IbcReceiveResponse<H::Msg>)
    ensures
        r@ == refused::<H>(error@),
{
    let ack = H::ack_failure(error.clone());
    refusal(ack, error)
}

/// The handlers of the protocol, over any host.
pub trait TransferProtocol: TransferHost {
    /// Sends tokens. A timeout less than one second away is refused before
    /// anything is asked of the host. The answer holds the custody messages
    /// and, last, the one message that dispatches the packet, to time out
    /// `timeout_delta` seconds after `current_time`. The bytes dispatched
    /// decode to the packet that was sent.
    fn send(&mut self, input: TransferInput, extension: String) -> (r: Result<Response<Self::Msg>, TransferError<Self::Error>>)
        ensures
            (*final(self), result_view(r)) == send_model(*old(self), input@, extension@),
            input.timeout_delta < 1 ==> (r matches Err(TransferError::Protocol(e))
                && e is InvalidTimeout) && *final(self) == *old(self),
            r is Ok ==> Self::packet_of(bytes_sent(*old(self), input@, extension@)) == Ok::<
                TransferPacketView,
                EncodingError,
            >(packet_sent(*old(self), input@, extension@)),
    {
        let timeout = match packet_timeout(input.current_time, input.timeout_delta) {
            Ok(timeout) => timeout,
            Err(e) => {
                return Err(TransferError::Protocol(e));
            },
        };
        let tokens = match normalize_tokens(self, &input.tokens) {
            Ok(tokens) => tokens,
            Err(e) => {
                return Err(TransferError::Host(e));
            },
        };
        let packet = TransferPacketCommon {
            sender: input.sender,
            receiver: input.receiver,
            tokens,
            extension,
        };
        let data = match self.encode_packet(&packet) {
            Ok(data) => data,
            Err(e) => {
                return Err(TransferError::Encoding(e));
            },
        };
        let custody = match self.send_tokens(
            &packet.sender,
            &packet.receiver,
            clone_tokens(&packet.tokens),
        ) {
            Ok(custody) => custody,
            Err(e) => {
                return Err(TransferError::Host(e));
            },
        };
        let dispatch = match self.send_packet(data, IbcTimeout::with_timestamp(timeout)) {
            Ok(dispatch) => dispatch,
            Err(e) => {
                return Err(TransferError::Host(e));
            },
        };
        let assets = match tokens_to_attr(packet.tokens.as_slice()) {
            Ok(assets) => assets,
            Err(e) => {
                return Err(TransferError::Attribute(e));
            },
        };
        Ok(send_response(&packet.sender, &packet.receiver, &packet.extension, assets, custody, dispatch))
    }

    /// Handles the acknowledgement of a packet that was sent. A packet that
    /// this contract forwarded ends as `pfm_ack` says; any other has its
    /// tokens settled on a success and given back to its sender on a
    /// failure. Once a forwarded packet was handled, no record is kept under
    /// it.
    fn send_ack(&mut self, ibc_packet: IbcPacketAckMsg) -> (r: Result<IbcBasicResponse<Self::Msg>, TransferError<Self::Error>>)
        ensures
            (*final(self), result_view(r)) == send_ack_model(*old(self), ibc_packet@),
            old(self).in_flight(ibc_packet@.original_packet) is Some && r is Ok
                ==> final(self).in_flight(ibc_packet@.original_packet) is None,
    {
        let packet = match Self::decode_packet(&ibc_packet.original_packet.data) {
            Ok(packet) => packet,
            Err(e) => {
                return Err(TransferError::Encoding(e));
            },
        };
        let ack = match Self::decode_ack(&ibc_packet.acknowledgement) {
            Ok(ack) => ack,
            Err(e) => {
                return Err(TransferError::Encoding(e));
            },
        };
        let (msgs, attributes) = match settle(self, ack, &ibc_packet.original_packet, &packet) {
            Ok(settled) => settled,
            Err(e) => {
                return Err(e);
            },
        };
        let assets = match tokens_to_attr(packet.tokens.as_slice()) {
            Ok(assets) => assets,
            Err(e) => {
                return Err(TransferError::Attribute(e));
            },
        };
        let ack_text = to_base64(ibc_packet.acknowledgement.as_slice());
        Ok(ack_response(&packet, ack_text, assets, msgs, attributes))
    }

    /// Handles the timeout of a packet that was sent, as the failure it is:
    /// the tokens go back, for a forwarded packet to the sender that its
    /// record names.
    fn send_timeout(&mut self, ibc_packet: IbcPacket) -> (r: Result<IbcBasicResponse<Self::Msg>, TransferError<Self::Error>>)
        ensures
            (*final(self), result_view(r)) == send_timeout_model(*old(self), ibc_packet@),
            old(self).in_flight(ibc_packet@) is Some && r is Ok
                ==> final(self).in_flight(ibc_packet@) is None,
    {
        let packet = match Self::decode_packet(&ibc_packet.data) {
            Ok(packet) => packet,
            Err(e) => {
                return Err(TransferError::Encoding(e));
            },
        };
        let ack: GenericAck = Err(ACK_ERR_TIMEOUT_MSG.as_bytes_vec());
        let (msgs, _) = match settle(self, ack, &ibc_packet, &packet) {
            Ok(settled) => settled,
            Err(e) => {
                return Err(e);
            },
        };
        let assets = match tokens_to_attr(packet.tokens.as_slice()) {
            Ok(assets) => assets,
            Err(e) => {
                return Err(TransferError::Attribute(e));
            },
        };
        Ok(timeout_response(&packet, assets, msgs))
    }

    /// Ends a packet that this contract forwarded, when its acknowledgement
    /// or its timeout has come. A success moves no tokens. A failure gives
    /// the tokens back to the sender of the packet that came in, as the
    /// record names it, and marks the attributes with `pfm`. The record is
    /// then dropped, so that the packet is not handled twice; the records of
    /// other packets are not what it drops.
    fn pfm_ack(&mut self, ack: GenericAck, ibc_packet: IbcPacket, refund_info: InFlightPfmPacket, sender: &String, tokens: Vec<TransferToken>) -> (r: Result<(Vec<Self::Msg>, Vec<Attribute>), TransferError<Self::Error>>)
        ensures
            (*final(self), settlement_view(r)) == pfm_ack_model(
                *old(self),
                ack_view(ack),
                ibc_packet@,
                refund_info@,
                sender@,
                views(tokens@),
            ),
            r is Ok ==> final(self).in_flight(ibc_packet@) is None,
            ack is Ok ==> forall|other: IbcPacketView|
                packet_id(other) != packet_id(ibc_packet@)
                    ==> #[trigger] final(self).in_flight(other) == old(self).in_flight(other),
    {
        end_forward(self, ack, &ibc_packet, refund_info, sender, tokens)
    }

    /// Handles a received packet. It always answers with an acknowledgement.
    /// A packet whose memo holds a forward instruction is forwarded and its
    /// receiver is not credited; for any other the receiver is credited, with
    /// fees cut, and the acknowledgement is that of a success. Where anything
    /// fails, the acknowledgement is that of a failure and tells of the
    /// error as its `Debug` writes it: the host's error as the host describes
    /// it, an error of the library by its name.
    fn receive(&mut self, original_packet: IbcPacket) -> (r: IbcReceiveResponse<Self::Msg>)
        ensures
            (*final(self), r@) == receive_model(*old(self), original_packet@),
    {
        let packet = match Self::decode_packet(&original_packet.data) {
            Ok(packet) => packet,
            Err(e) => {
                return refuse::<Self>(encoding_failure_text(e));
            },
        };
        match forward_instruction(Self::parse_memo(&packet.extension)) {
            Some(forward) => {
                match forward_packet(self, packet, original_packet, forward) {
                    Ok(response) => response,
                    Err(e) => refuse::<Self>(Self::describe_error(&e)),
                }
            },
            None => {
                let credit = match self.receive_transfer(
                    &packet.receiver,
                    clone_tokens(&packet.tokens),
                    true,
                ) {
                    Ok((_, credit)) => credit,
                    Err(e) => {
                        return refuse::<Self>(Self::describe_error(&e));
                    },
                };
                let assets = match tokens_to_attr(packet.tokens.as_slice()) {
                    Ok(assets) => assets,
                    Err(e) => {
                        return refuse::<Self>(attribute_failure_text(e));
                    },
                };
                receive_response(
                    &packet,
                    Self::ack_success(),
                    assets,
                    credit,
                    Self::RECEIVE_REPLY_ID,
                )
            },
        }
    }

    /// The answer to a packet that could not be received, or whose credit
    /// failed afterwards: the acknowledgement of a failure and an event, both
    /// with the text that the error's `Debug` writes.
    fn receive_error<E: Debug>(error: E) -> (r: IbcReceiveResponse<Self::Msg>)
        ensures
            exists|text: Seq<char>| r@ == #[trigger] refused::<Self>(text),
    {
        let text = debug_text(&error);
        let r = refuse::<Self>(text);
        assert(r@ == refused::<Self>(text@));
        r
    }

    /// Forwards a received transfer as its memo asks. The contract itself is
    /// credited with the tokens, without fees; the fees of the instruction
    /// are moved under the denominations the tokens are then held under; and
    /// the host sends the coins on.
    fn packet_forward(&mut self, packet: TransferPacketCommon, original_packet: IbcPacket, forward: PacketForward) -> (r: Result<IbcReceiveResponse<Self::Msg>, TransferError<Self::Error>>)
        ensures
            (*final(self), result_view(r)) == packet_forward_model(
                *old(self),
                packet@,
                original_packet@,
                forward@,
            ),
    {
        match forward_packet(self, packet, original_packet, forward) {
            Ok(response) => Ok(response),
            Err(e) => Err(TransferError::Host(e)),
        }
    }
}

impl<H: TransferHost> TransferProtocol for H {

}

} // verus!
