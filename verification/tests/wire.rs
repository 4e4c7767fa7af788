use ucs01_relay_api::codec::{decode_ack, encode_ack};
use ucs01_relay_api::types::{EncodingError, FeePerU128, TransferPacketCommon, TransferToken};

fn sample(n: usize, memo: &str) -> TransferPacketCommon {
    let mut tokens = Vec::new();
    for i in 0..n {
        tokens.push(TransferToken {
            denom: format!("factory/{}/ü", i),
            amount: u128::MAX - i as u128,
            fee: FeePerU128(i as u128 * 3),
        });
    }
    TransferPacketCommon {
        sender: "alice".to_string(),
        receiver: "0xb0b".to_string(),
        tokens,
        extension: memo.to_string(),
    }
}

#[test]
fn a_packet_comes_back_from_its_bytes() {
    for n in [0usize, 1, 2, 17] {
        let packet = sample(n, "{\"forward\":{\"receiver\":\"carol\"}}");
        let bytes = packet.encode().unwrap();
        let back = TransferPacketCommon::decode(&bytes).unwrap();
        assert_eq!(packet, back);
        assert_eq!(back.encode().unwrap(), bytes);
    }
}

#[test]
fn the_bytes_of_a_packet_are_fixed() {
    let packet = TransferPacketCommon {
        sender: "a".to_string(),
        receiver: "bc".to_string(),
        tokens: vec![TransferToken { denom: "d".to_string(), amount: 258, fee: FeePerU128(1) }],
        extension: "m".to_string(),
    };
    let mut expected = vec![1u8];
    expected.extend([1, 0, 0, 0, b'a']);
    expected.extend([2, 0, 0, 0, b'b', b'c']);
    expected.extend([1, 0, 0, 0]);
    expected.extend([1, 0, 0, 0, b'd']);
    expected.extend([2, 1, 0, 0, 0, 0, 0, 0, 0, 0, 0, 0, 0, 0, 0, 0]);
    expected.extend([1, 0, 0, 0, 0, 0, 0, 0, 0, 0, 0, 0, 0, 0, 0, 0]);
    expected.extend([1, 0, 0, 0, b'm']);
    assert_eq!(packet.encode().unwrap(), expected);
}

#[test]
fn bytes_that_are_no_packet_are_refused() {
    let bytes = sample(2, "memo").encode().unwrap();
    assert_eq!(TransferPacketCommon::decode(&[]).unwrap_err(), EncodingError::Truncated);
    assert_eq!(TransferPacketCommon::decode(&[1]).unwrap_err(), EncodingError::Truncated);
    let mut other = bytes.clone();
    other[0] = 2;
    assert_eq!(TransferPacketCommon::decode(&other).unwrap_err(), EncodingError::UnknownVersion);
    for cut in 1..bytes.len() {
        assert_eq!(
            TransferPacketCommon::decode(&bytes[..cut]).unwrap_err(),
            EncodingError::Truncated
        );
    }
    let mut longer = bytes.clone();
    longer.push(0);
    assert_eq!(TransferPacketCommon::decode(&longer).unwrap_err(), EncodingError::TrailingBytes);
    let mut text = bytes.clone();
    text[5] = 0xff;
    assert_eq!(TransferPacketCommon::decode(&text).unwrap_err(), EncodingError::InvalidText);
    let mut count = vec![1u8, 0, 0, 0, 0, 0, 0, 0, 0];
    count.extend([255, 255, 255, 255]);
    assert_eq!(TransferPacketCommon::decode(&count).unwrap_err(), EncodingError::Truncated);
}

#[test]
fn an_acknowledgement_comes_back_from_its_bytes() {
    for ack in [Ok(vec![1u8]), Ok(Vec::new()), Err(b"failed".to_vec()), Err(Vec::new())] {
        assert_eq!(decode_ack(&encode_ack(&ack)).unwrap(), ack);
    }
    assert_eq!(encode_ack(&Ok(vec![7, 8])), vec![1, 7, 8]);
    assert_eq!(encode_ack(&Err(vec![7])), vec![0, 7]);
    assert_eq!(decode_ack(&[]).unwrap_err(), EncodingError::Truncated);
    assert_eq!(decode_ack(&[2, 1]).unwrap_err(), EncodingError::InvalidAck);
}
