use ucs01_relay_api::codec::{decode_ack, encode_ack};
use ucs01_relay_api::fees::FeeTable;
use ucs01_relay_api::host::TransferHost;
use ucs01_relay_api::ibc::{
    IbcEndpoint, IbcOrder, IbcPacket, IbcPacketAckMsg, IbcReceiveResponse, IbcTimeout,
};
use ucs01_relay_api::middleware::{InFlightPfmPacket, Memo, PacketForward};
use ucs01_relay_api::protocol::{
    attribute_failure_text, encoding_failure_text, refuse, AttributeError, ProtocolError,
    ProtocolSwitch, TransferError, TransferInput, TransferProtocol, IBC_SEND_ID,
};
use ucs01_relay_api::response::{Event, ReplyOn, SubMsg};
use ucs01_relay_api::types::{
    CheckedMultiplyRatioError, Coin, EncodingError, FeePerU128, GenericAck,
    NormalizedTransferToken, Timestamp, TransferPacketCommon, TransferToken,
};

/// A chain that writes down what it is asked, with texts for messages.
struct Chain {
    addr: String,
    in_flight: Vec<((String, String, u64), InFlightPfmPacket)>,
    refuse_forward: bool,
    refuse_credit: bool,
}

impl Chain {
    fn new() -> Self {
        Chain {
            addr: "contract".to_string(),
            in_flight: Vec::new(),
            refuse_forward: false,
            refuse_credit: false,
        }
    }
}

fn id(packet: &IbcPacket) -> (String, String, u64) {
    (packet.src.port_id.clone(), packet.src.channel_id.clone(), packet.sequence)
}

fn list(tokens: &[TransferToken]) -> String {
    let parts: Vec<String> = tokens.iter().map(|t| format!("{}{}", t.amount, t.denom)).collect();
    parts.join(",")
}

impl TransferHost for Chain {
    const VERSION: &'static str = "ucs01-test";
    const ORDERING: IbcOrder = IbcOrder::Unordered;
    const RECEIVE_REPLY_ID: u64 = 42;

    type Msg = String;
    type Error = String;

    fn decode_packet(data: &Vec<u8>) -> Result<TransferPacketCommon, EncodingError> {
        TransferPacketCommon::decode(data)
    }

    fn encode_packet(&self, packet: &TransferPacketCommon) -> Result<Vec<u8>, EncodingError> {
        if packet.sender.is_empty() {
            return Err(EncodingError::InvalidSender);
        }
        if packet.receiver.is_empty() {
            return Err(EncodingError::InvalidReceiver);
        }
        packet.encode()
    }

    fn decode_ack(data: &Vec<u8>) -> Result<GenericAck, EncodingError> {
        decode_ack(data)
    }

    fn ack_success() -> Vec<u8> {
        encode_ack(&Ok(vec![1]))
    }

    fn ack_failure(error: String) -> Vec<u8> {
        encode_ack(&Err(error.into_bytes()))
    }

    fn parse_memo(memo: &String) -> Option<Memo> {
        let parts: Vec<&str> = memo.split(':').collect();
        if memo.is_empty() {
            Some(Memo::Empty)
        } else if parts.len() == 3 && parts[0] == "forward" {
            let mut fees = FeeTable::new();
            fees.insert("uosmo".to_string(), 7);
            Some(Memo::Forward {
                forward: PacketForward {
                    receiver: parts[2].to_string(),
                    port: "transfer".to_string(),
                    channel: parts[1].to_string(),
                    timeout: "1m".to_string(),
                    retries: 0,
                    fees: Some(fees),
                },
            })
        } else {
            None
        }
    }

    fn describe_error(error: &String) -> String {
        format!("{:?}", error)
    }

    fn load_channel_protocol_version(&self, channel_id: &String) -> Result<String, String> {
        Err(channel_id.clone())
    }

    fn caller(&self) -> &String {
        &self.addr
    }

    fn self_addr(&self) -> &String {
        &self.addr
    }

    fn self_addr_canonical(&self) -> Result<String, String> {
        Ok("canonical-contract".to_string())
    }

    fn send_packet(&self, data: Vec<u8>, timeout: IbcTimeout) -> Result<String, String> {
        assert!(timeout.block.is_none());
        Ok(format!("dispatch:{}:{}", data.len(), timeout.timestamp.unwrap().nanos))
    }

    fn write_acknowledgement(&self, packet: &IbcPacket, ack: Vec<u8>) -> Result<String, String> {
        Ok(format!("ack:{}:{}", packet.sequence, ack.len()))
    }

    fn normalize_for_ibc_transfer(&mut self, token: TransferToken) -> Result<TransferToken, String> {
        if token.denom == "bad" {
            return Err("unknown denomination".to_string());
        }
        let denom = match token.denom.strip_prefix("wrapped/") {
            Some(origin) => origin.to_string(),
            None => token.denom.clone(),
        };
        Ok(TransferToken { denom, amount: token.amount, fee: token.fee })
    }

    fn send_tokens(&mut self, sender: &String, receiver: &String, tokens: Vec<TransferToken>) -> Result<Vec<String>, String> {
        Ok(vec![format!("escrow:{}:{}:{}", sender, receiver, list(&tokens))])
    }

    fn send_tokens_success(&mut self, sender: &String, receiver: &String, tokens: Vec<TransferToken>) -> Result<Vec<String>, String> {
        Ok(vec![format!("settle:{}:{}:{}", sender, receiver, list(&tokens))])
    }

    fn send_tokens_failure(&mut self, sender: &String, receiver: &String, tokens: Vec<TransferToken>) -> Result<Vec<String>, String> {
        Ok(vec![format!("refund:{}:{}:{}", sender, receiver, list(&tokens))])
    }

    fn receive_transfer(&mut self, receiver: &String, tokens: Vec<TransferToken>, cut_fees: bool) -> Result<(Vec<NormalizedTransferToken>, Vec<String>), String> {
        if self.refuse_credit {
            return Err("no credit".to_string());
        }
        let mut held = Vec::new();
        let mut msgs = Vec::new();
        for token in tokens {
            let amount = if cut_fees { token.amounts().unwrap().0 } else { token.amount };
            msgs.push(format!("credit:{}:{}{}", receiver, amount, token.denom));
            held.push(NormalizedTransferToken {
                origin_denom: token.denom.clone(),
                token: TransferToken {
                    denom: format!("factory/{}", token.denom),
                    amount,
                    fee: token.fee,
                },
            });
        }
        Ok((held, msgs))
    }

    fn forward_transfer_packet(&mut self, tokens: Vec<Coin>, original_packet: IbcPacket, forward: PacketForward, sender: String) -> Result<IbcReceiveResponse<String>, String> {
        if self.refuse_forward {
            return Err("channel closed".to_string());
        }
        self.in_flight.push((
            ("transfer".to_string(), forward.channel.clone(), 1000 + original_packet.sequence),
            InFlightPfmPacket {
                origin_sender_addr: "origin".to_string(),
                origin_packet: original_packet,
                forward_timeout: Timestamp { nanos: 0 },
                forward_src_channel_id: forward.channel.clone(),
                forward_src_port_id: forward.port.clone(),
            },
        ));
        let coins: Vec<String> = tokens.iter().map(|c| format!("{}{}", c.amount, c.denom)).collect();
        let fee = forward.fees.as_ref().and_then(|fees| fees.get(&"factory/uosmo".to_string()));
        let old = forward.fees.as_ref().and_then(|fees| fees.get(&"uosmo".to_string()));
        Ok(IbcReceiveResponse {
            acknowledgement: Vec::new(),
            messages: vec![SubMsg::reply_always(
                format!(
                    "forward:{}:{}:{}:{}:{:?}:{:?}",
                    sender,
                    forward.channel,
                    forward.receiver,
                    coins.join(","),
                    fee,
                    old
                ),
                IBC_SEND_ID,
            )],
            events: Vec::new(),
        })
    }

    fn get_in_flight_packet(&self, forward_packet: &IbcPacket) -> Option<InFlightPfmPacket> {
        let key = id(forward_packet);
        self.in_flight.iter().find(|(k, _)| *k == key).map(|(_, p)| p.clone())
    }

    fn remove_in_flight_packet(&mut self, forward_packet: &IbcPacket) {
        let key = id(forward_packet);
        self.in_flight.retain(|(k, _)| *k != key);
    }

    fn convert_ack_to_foreign_protocol(&self, _foreign_protocol: &String, ack: GenericAck) -> Result<GenericAck, String> {
        Ok(ack)
    }

    fn protocol_switch_result(&self, _counterparty_protocol_version: &String) -> ProtocolSwitch {
        ProtocolSwitch::Stable
    }
}

fn token(denom: &str, amount: u128, fee: FeePerU128) -> TransferToken {
    TransferToken { denom: denom.to_string(), amount, fee }
}

fn wire(sequence: u64, packet: &TransferPacketCommon) -> IbcPacket {
    IbcPacket {
        data: packet.encode().unwrap(),
        src: IbcEndpoint { port_id: "transfer".to_string(), channel_id: "channel-1".to_string() },
        dest: IbcEndpoint { port_id: "transfer".to_string(), channel_id: "channel-2".to_string() },
        sequence,
        timeout: IbcTimeout::with_timestamp(Timestamp { nanos: 0 }),
    }
}

fn packet(memo: &str) -> TransferPacketCommon {
    TransferPacketCommon {
        sender: "alice".to_string(),
        receiver: "bob".to_string(),
        tokens: vec![token("uosmo", 1000, FeePerU128::percent(50).unwrap())],
        extension: memo.to_string(),
    }
}

fn attrs(event: &Event) -> Vec<(String, String)> {
    event.attributes.iter().map(|a| (a.key.clone(), a.value.clone())).collect()
}

fn pair(key: &str, value: &str) -> (String, String) {
    (key.to_string(), value.to_string())
}

fn input(delta: u64, now: u64) -> TransferInput {
    TransferInput {
        current_time: Timestamp::from_nanos(now),
        timeout_delta: delta,
        sender: "alice".to_string(),
        receiver: "bob".to_string(),
        tokens: vec![token("wrapped/uosmo", 10, FeePerU128::zero())],
    }
}

#[test]
fn send_refuses_a_timeout_under_a_second() {
    let mut chain = Chain::new();
    let result = chain.send(input(0, 5), String::new());
    assert!(matches!(result, Err(TransferError::Protocol(ProtocolError::InvalidTimeout))));
}

#[test]
fn send_refuses_a_timeout_past_the_last_time() {
    let mut chain = Chain::new();
    let result = chain.send(input(u64::MAX, 5), String::new());
    assert!(matches!(result, Err(TransferError::Protocol(ProtocolError::InvalidTimeout))));
    let result = chain.send(input(1, u64::MAX), String::new());
    assert!(matches!(result, Err(TransferError::Protocol(ProtocolError::InvalidTimeout))));
}

#[test]
fn send_dispatches_one_packet_that_times_out_after_the_delta() {
    let mut chain = Chain::new();
    let response = chain.send(input(1, 5), "hello".to_string()).unwrap();
    assert_eq!(response.messages.len(), 2);
    assert_eq!(response.messages[0].msg, "escrow:alice:bob:10uosmo");
    assert_eq!(response.messages[0].id, 0);
    assert_eq!(response.messages[0].reply_on, ReplyOn::Never);
    let expected = TransferPacketCommon {
        sender: "alice".to_string(),
        receiver: "bob".to_string(),
        tokens: vec![token("uosmo", 10, FeePerU128::zero())],
        extension: "hello".to_string(),
    };
    let size = expected.encode().unwrap().len();
    assert_eq!(response.messages[1].msg, format!("dispatch:{}:1000000005", size));
    assert_eq!(response.messages[1].id, 69);
    assert_eq!(response.messages[1].reply_on, ReplyOn::Always);
    assert_eq!(response.events.len(), 2);
    assert_eq!(response.events[0].ty, "ibc_transfer");
    assert_eq!(
        attrs(&response.events[0]),
        vec![
            pair("memo", "hello"),
            pair("sender", "alice"),
            pair("receiver", "bob"),
            pair("assets", "[{\"denom\":\"uosmo\",\"amount\":\"10\"}]"),
            pair("fee_assets", "[{\"denom\":\"uosmo\",\"amount\":\"0\"}]"),
        ]
    );
    assert_eq!(response.events[1].ty, "message");
    assert_eq!(attrs(&response.events[1]), vec![pair("module", "transfer")]);
}

#[test]
fn send_without_memo_has_no_memo_attribute() {
    let mut chain = Chain::new();
    let response = chain.send(input(3, 0), String::new()).unwrap();
    assert_eq!(response.messages[1].msg.ends_with(":3000000000"), true);
    assert_eq!(attrs(&response.events[0])[0], pair("sender", "alice"));
}

#[test]
fn send_refuses_an_address_that_the_host_refuses() {
    let mut chain = Chain::new();
    let mut request = input(1, 0);
    request.receiver = String::new();
    assert!(matches!(
        chain.send(request, String::new()),
        Err(TransferError::Encoding(EncodingError::InvalidReceiver))
    ));
    let mut request = input(1, 0);
    request.sender = String::new();
    assert!(matches!(
        chain.send(request, String::new()),
        Err(TransferError::Encoding(EncodingError::InvalidSender))
    ));
}

#[test]
fn send_ends_with_the_error_of_the_host() {
    let mut chain = Chain::new();
    let mut request = input(1, 0);
    request.tokens.push(token("bad", 1, FeePerU128::zero()));
    let result = chain.send(request, String::new());
    assert!(matches!(result, Err(TransferError::Host(e)) if e == "unknown denomination"));
}

fn ack_msg(sequence: u64, memo: &str, ack: GenericAck) -> IbcPacketAckMsg {
    IbcPacketAckMsg {
        acknowledgement: encode_ack(&ack),
        original_packet: wire(sequence, &packet(memo)),
        relayer: "relayer".to_string(),
    }
}

#[test]
fn a_success_with_empty_payload_gives_no_success_attribute() {
    let mut chain = Chain::new();
    let response = chain.send_ack(ack_msg(1, "", Ok(Vec::new()))).unwrap();
    assert_eq!(response.events.len(), 2);
    assert_eq!(response.events[1].ty, "fungible_token_packet");
    assert_eq!(attrs(&response.events[1]).len(), 0);
    assert_eq!(response.messages.len(), 1);
    assert_eq!(response.messages[0].msg, "settle:alice:bob:1000uosmo");
}

#[test]
fn a_success_with_payload_gives_one_success_attribute() {
    let mut chain = Chain::new();
    let response = chain.send_ack(ack_msg(1, "note", Ok(vec![1]))).unwrap();
    assert_eq!(attrs(&response.events[1]), vec![pair("success", "AQ==")]);
    assert_eq!(
        attrs(&response.events[0]),
        vec![
            pair("memo", "note"),
            pair("module", "transfer"),
            pair("sender", "alice"),
            pair("receiver", "bob"),
            pair("acknowledgement", "AQE="),
            pair("assets", "[{\"denom\":\"uosmo\",\"amount\":\"501\"}]"),
            pair("fee_assets", "[{\"denom\":\"uosmo\",\"amount\":\"499\"}]"),
        ]
    );
}

#[test]
fn a_failure_gives_the_tokens_back_to_the_sender() {
    let mut chain = Chain::new();
    let response = chain.send_ack(ack_msg(1, "", Err(b"no".to_vec()))).unwrap();
    assert_eq!(response.messages[0].msg, "refund:alice:bob:1000uosmo");
    assert_eq!(attrs(&response.events[1]), vec![pair("error", "bm8=")]);
    let response = chain.send_ack(ack_msg(1, "", Err(Vec::new()))).unwrap();
    assert_eq!(attrs(&response.events[1]).len(), 0);
}

#[test]
fn an_acknowledgement_that_is_none_is_an_error() {
    let mut chain = Chain::new();
    let mut msg = ack_msg(1, "", Ok(vec![1]));
    msg.acknowledgement = vec![9, 9];
    assert!(matches!(
        chain.send_ack(msg),
        Err(TransferError::Encoding(EncodingError::InvalidAck))
    ));
    let mut msg = ack_msg(1, "", Ok(vec![1]));
    msg.original_packet.data = vec![1, 2];
    assert!(matches!(
        chain.send_ack(msg),
        Err(TransferError::Encoding(EncodingError::Truncated))
    ));
}

fn record(sequence: u64) -> ((String, String, u64), InFlightPfmPacket) {
    (
        ("transfer".to_string(), "channel-1".to_string(), sequence),
        InFlightPfmPacket {
            origin_sender_addr: "origin".to_string(),
            origin_packet: wire(3, &packet("")),
            forward_timeout: Timestamp { nanos: 9 },
            forward_src_channel_id: "channel-7".to_string(),
            forward_src_port_id: "transfer".to_string(),
        },
    )
}

#[test]
fn a_forwarded_packet_is_handled_once() {
    let mut chain = Chain::new();
    chain.in_flight.push(record(8));
    chain.in_flight.push(record(9));
    let forwarded = wire(8, &packet(""));
    assert!(chain.get_in_flight_packet(&forwarded).is_some());
    let response = chain.send_ack(ack_msg(8, "", Err(b"no".to_vec()))).unwrap();
    assert_eq!(response.messages[0].msg, "refund:origin:alice:1000uosmo");
    assert_eq!(
        attrs(&response.events[1]),
        vec![pair("error", "bm8="), pair("pfm", "pfm_ack")]
    );
    assert!(chain.get_in_flight_packet(&forwarded).is_none());
    assert!(chain.get_in_flight_packet(&wire(9, &packet(""))).is_some());
    let response = chain.send_ack(ack_msg(8, "", Err(b"no".to_vec()))).unwrap();
    assert_eq!(response.messages[0].msg, "refund:alice:bob:1000uosmo");
}

#[test]
fn a_forwarded_success_moves_no_tokens() {
    let mut chain = Chain::new();
    chain.in_flight.push(record(8));
    let response = chain.send_ack(ack_msg(8, "", Ok(vec![1]))).unwrap();
    assert_eq!(response.messages.len(), 0);
    assert_eq!(attrs(&response.events[1]), vec![pair("success", "AQ==")]);
    assert!(chain.get_in_flight_packet(&wire(8, &packet(""))).is_none());
}

#[test]
fn pfm_ack_gives_back_to_the_sender_of_the_record() {
    let mut chain = Chain::new();
    chain.in_flight.push(record(8));
    let (_, info) = record(8);
    let (msgs, attributes) = chain
        .pfm_ack(
            Err(b"x".to_vec()),
            wire(8, &packet("")),
            info,
            &"contract".to_string(),
            vec![token("uosmo", 4, FeePerU128::zero())],
        )
        .unwrap();
    assert_eq!(msgs, vec!["refund:origin:contract:4uosmo".to_string()]);
    assert_eq!(attributes.len(), 2);
    assert_eq!(attributes[1].key, "pfm");
    assert_eq!(attributes[1].value, "pfm_ack");
    assert!(chain.in_flight.is_empty());
}

#[test]
fn a_timeout_of_a_forwarded_packet_refunds_the_original_sender() {
    let mut chain = Chain::new();
    chain.in_flight.push(record(8));
    let response = chain.send_timeout(wire(8, &packet("memo"))).unwrap();
    assert_eq!(response.messages.len(), 1);
    assert_eq!(response.messages[0].msg, "refund:origin:alice:1000uosmo");
    assert!(chain.in_flight.is_empty());
    assert_eq!(response.events.len(), 1);
    assert_eq!(response.events[0].ty, "fungible_token_packet");
    assert_eq!(
        attrs(&response.events[0]),
        vec![
            pair("memo", "memo"),
            pair("module", "transfer"),
            pair("refund_receiver", "alice"),
            pair("assets", "[{\"denom\":\"uosmo\",\"amount\":\"501\"}]"),
            pair("fee_assets", "[{\"denom\":\"uosmo\",\"amount\":\"499\"}]"),
        ]
    );
}

#[test]
fn a_timeout_refunds_the_sender() {
    let mut chain = Chain::new();
    let response = chain.send_timeout(wire(8, &packet(""))).unwrap();
    assert_eq!(response.messages[0].msg, "refund:alice:bob:1000uosmo");
    assert!(matches!(
        chain.send_timeout(IbcPacket { data: vec![2], ..wire(8, &packet("")) }),
        Err(TransferError::Encoding(EncodingError::UnknownVersion))
    ));
}

#[test]
fn receive_credits_the_receiver_with_fees_cut() {
    let mut chain = Chain::new();
    let response = chain.receive(wire(5, &packet("")));
    assert_eq!(response.acknowledgement, vec![1, 1]);
    assert_eq!(response.messages.len(), 1);
    assert_eq!(response.messages[0].msg, "credit:bob:501uosmo");
    assert_eq!(response.messages[0].id, 42);
    assert_eq!(response.messages[0].reply_on, ReplyOn::Error);
    assert_eq!(response.events.len(), 1);
    assert_eq!(
        attrs(&response.events[0]),
        vec![
            pair("module", "transfer"),
            pair("sender", "alice"),
            pair("receiver", "bob"),
            pair("success", "true"),
            pair("assets", "[{\"denom\":\"uosmo\",\"amount\":\"501\"}]"),
            pair("fee_assets", "[{\"denom\":\"uosmo\",\"amount\":\"499\"}]"),
        ]
    );
}

#[test]
fn receive_with_a_memo_that_is_not_understood_credits_the_receiver() {
    let mut chain = Chain::new();
    let response = chain.receive(wire(5, &packet("just a note")));
    assert_eq!(response.messages[0].msg, "credit:bob:501uosmo");
    assert_eq!(attrs(&response.events[0])[0], pair("memo", "just a note"));
}

#[test]
fn receive_forwards_and_credits_the_contract() {
    let mut chain = Chain::new();
    let response = chain.receive(wire(5, &packet("forward:channel-7:carol")));
    assert_eq!(response.messages.len(), 2);
    assert_eq!(
        response.messages[0].msg,
        "forward:contract:channel-7:carol:1000factory/uosmo:Some(7):None"
    );
    assert_eq!(response.messages[0].id, 69);
    assert_eq!(response.messages[0].reply_on, ReplyOn::Always);
    assert_eq!(response.messages[1].msg, "credit:canonical-contract:1000uosmo");
    assert_eq!(response.messages[1].reply_on, ReplyOn::Never);
    assert_eq!(chain.in_flight.len(), 1);
    assert_eq!(
        chain.in_flight[0].0,
        ("transfer".to_string(), "channel-7".to_string(), 1005)
    );
    assert_eq!(chain.in_flight[0].1.origin_packet.sequence, 5);
    for message in &response.messages {
        assert!(!message.msg.starts_with("credit:bob"));
    }
}

#[test]
fn a_forward_that_fails_is_a_receive_that_fails() {
    let mut chain = Chain::new();
    chain.refuse_forward = true;
    let response = chain.receive(wire(5, &packet("forward:channel-7:carol")));
    assert_eq!(response.messages.len(), 0);
    assert!(chain.in_flight.is_empty());
    assert_eq!(response.acknowledgement[0], 0);
    let text = "\"channel closed\"";
    assert_eq!(response.acknowledgement[1..].to_vec(), text.as_bytes().to_vec());
    assert_eq!(
        attrs(&response.events[0]),
        vec![pair("module", "transfer"), pair("success", "false"), pair("error", text)]
    );
}

#[test]
fn receive_answers_bytes_that_are_no_packet_with_a_failure() {
    let mut chain = Chain::new();
    let response = chain.receive(IbcPacket { data: Vec::new(), ..wire(5, &packet("")) });
    assert_eq!(response.messages.len(), 0);
    assert_eq!(
        attrs(&response.events[0]),
        vec![
            pair("module", "transfer"),
            pair("success", "false"),
            pair("error", "Encoding(Truncated)"),
        ]
    );
    chain.refuse_credit = true;
    let response = chain.receive(wire(5, &packet("")));
    assert_eq!(attrs(&response.events[0])[2], pair("error", "\"no credit\""));
    assert_eq!(response.acknowledgement[1..].to_vec(), b"\"no credit\"".to_vec());
}

#[test]
fn receive_error_tells_of_the_failure() {
    let response = Chain::receive_error("boom");
    let mut ack = vec![0u8];
    ack.extend(b"\"boom\"");
    assert_eq!(response.acknowledgement, ack);
    assert_eq!(response.messages.len(), 0);
    assert_eq!(response.events.len(), 1);
    assert_eq!(response.events[0].ty, "fungible_token_packet");
    assert_eq!(
        attrs(&response.events[0]),
        vec![pair("module", "transfer"), pair("success", "false"), pair("error", "\"boom\"")]
    );
}

#[test]
fn receive_error_writes_the_error_as_its_debug_does() {
    let response = Chain::receive_error(EncodingError::InvalidAck);
    assert_eq!(attrs(&response.events[0])[2], pair("error", "InvalidAck"));
    let error: TransferError<String> = TransferError::Host("a \"b\"".to_string());
    let text = format!("{:?}", error);
    let response = Chain::receive_error(error);
    assert_eq!(attrs(&response.events[0])[2], pair("error", &text));
    assert_eq!(response.acknowledgement[1..].to_vec(), text.into_bytes());
    let same = Chain::receive_error(7u8);
    let again = Chain::receive_error(7u8);
    assert_eq!(same, again);
    assert_eq!(attrs(&same.events[0])[2], pair("error", "7"));
}

#[test]
fn an_error_of_the_library_is_told_as_its_debug_writes_it() {
    let encoding = [
        EncodingError::UnknownVersion,
        EncodingError::Truncated,
        EncodingError::TrailingBytes,
        EncodingError::InvalidText,
        EncodingError::TooLong,
        EncodingError::InvalidAck,
        EncodingError::InvalidSender,
        EncodingError::InvalidReceiver,
    ];
    for error in encoding {
        let whole: TransferError<String> = TransferError::Encoding(error);
        assert_eq!(encoding_failure_text(error), format!("{:?}", whole));
    }
    let attribute = [
        AttributeError::Serialize,
        AttributeError::Arithmetic(CheckedMultiplyRatioError::DivideByZero),
        AttributeError::Arithmetic(CheckedMultiplyRatioError::Overflow),
    ];
    for error in attribute {
        let whole: TransferError<String> = TransferError::Attribute(error);
        assert_eq!(attribute_failure_text(error), format!("{:?}", whole));
    }
}

#[test]
fn refuse_answers_with_the_text_as_given() {
    let response: IbcReceiveResponse<String> = refuse::<Chain>("boom".to_string());
    assert_eq!(response.acknowledgement, vec![0, b'b', b'o', b'o', b'm']);
    assert_eq!(attrs(&response.events[0])[2], pair("error", "boom"));
}

#[test]
fn dropping_a_record_leaves_those_of_other_packets() {
    let mut chain = Chain::new();
    chain.in_flight.push(record(8));
    let mut elsewhere = record(8);
    elsewhere.0 .1 = "channel-2".to_string();
    chain.in_flight.push(elsewhere);
    chain.in_flight.push(record(9));
    let response = chain.send_ack(ack_msg(8, "", Ok(vec![1]))).unwrap();
    assert_eq!(response.messages.len(), 0);
    assert_eq!(chain.in_flight.len(), 2);
    assert!(chain.get_in_flight_packet(&wire(8, &packet(""))).is_none());
    assert!(chain.get_in_flight_packet(&wire(9, &packet(""))).is_some());
    let mut other = wire(8, &packet(""));
    other.src.channel_id = "channel-2".to_string();
    assert!(chain.get_in_flight_packet(&other).is_some());
}

#[test]
fn the_handlers_read_back_the_packet_that_was_encoded() {
    let mut chain = Chain::new();
    let sent = TransferPacketCommon {
        sender: "alice".to_string(),
        receiver: "bob".to_string(),
        tokens: vec![
            token("a", 1, FeePerU128::zero()),
            token("b", 2, FeePerU128::percent(100).unwrap()),
            token("c", 3, FeePerU128(5)),
        ],
        extension: "a note".to_string(),
    };
    let bytes = chain.encode_packet(&sent).unwrap();
    assert_eq!(Chain::decode_packet(&bytes).unwrap(), sent);
    let msg = IbcPacketAckMsg {
        acknowledgement: encode_ack(&Ok(vec![1])),
        original_packet: IbcPacket { data: bytes.clone(), ..wire(1, &sent) },
        relayer: "relayer".to_string(),
    };
    let response = chain.send_ack(msg).unwrap();
    assert_eq!(response.messages[0].msg, "settle:alice:bob:1a,2b,3c");
    let first = attrs(&response.events[0]);
    assert_eq!(first[0], pair("memo", "a note"));
    assert_eq!(first[2], pair("sender", "alice"));
    assert_eq!(first[3], pair("receiver", "bob"));
    let response = chain.receive(IbcPacket { data: bytes, ..wire(2, &sent) });
    let credited: Vec<&str> = response.messages.iter().map(|m| m.msg.as_str()).collect();
    assert_eq!(credited, vec!["credit:bob:1a", "credit:bob:1b", "credit:bob:3c"]);
    let first = attrs(&response.events[0]);
    assert_eq!(first[0], pair("memo", "a note"));
    assert_eq!(first[2], pair("sender", "alice"));
    assert_eq!(first[3], pair("receiver", "bob"));
}

#[test]
fn packet_forward_moves_the_fee_under_the_local_denomination() {
    let mut chain = Chain::new();
    let mut fees = FeeTable::new();
    fees.insert("uosmo".to_string(), 3);
    fees.insert("other".to_string(), 4);
    let forward = PacketForward {
        receiver: "carol".to_string(),
        port: "transfer".to_string(),
        channel: "channel-9".to_string(),
        timeout: String::new(),
        retries: 1,
        fees: Some(fees),
    };
    let response = chain.packet_forward(packet(""), wire(6, &packet("")), forward).unwrap();
    assert_eq!(
        response.messages[0].msg,
        "forward:contract:channel-9:carol:1000factory/uosmo:Some(3):None"
    );
}
