use ucs01_relay_api::fees::FeeTable;
use ucs01_relay_api::middleware::{forward_instruction, Memo, PacketForward};
use ucs01_relay_api::protocol::{
    ack_attributes, asset_attributes_from, packet_timeout, text_attribute, token_coins,
    tokens_to_attr, AttributeError, ProtocolError,
};
use ucs01_relay_api::types::{
    CheckedMultiplyRatioError, FeePerU128, Timestamp, TransferToken, FEE_PER_PERCENT,
};

fn token(denom: &str, amount: u128, fee: FeePerU128) -> TransferToken {
    TransferToken { denom: denom.to_string(), amount, fee }
}

#[test]
fn half_of_a_thousand_leaves_one_more_than_it_cuts() {
    let t = token("factory/1/2/3", 1000, FeePerU128::percent(50).unwrap());
    assert_eq!(t.amounts(), Ok((501, 499)));
    let t = token("factory/1/3/3", 1337, FeePerU128::zero());
    assert_eq!(t.amounts(), Ok((1337, 0)));
}

#[test]
fn what_is_transferred_and_the_fees_add_up_to_the_amounts() {
    let tokens = vec![
        token("a", 1000, FeePerU128::percent(50).unwrap()),
        token("b", 1337, FeePerU128::zero()),
        token("c", u128::MAX, FeePerU128::percent(100).unwrap()),
        token("d", 7, FeePerU128(u128::MAX)),
        token("e", 0, FeePerU128::percent(1).unwrap()),
    ];
    for t in &tokens {
        let (actual, fee) = t.amounts().unwrap();
        assert_eq!(actual + fee, t.amount);
        assert!(fee <= t.amount);
    }
    let (actual, fees) = token_coins(&tokens).unwrap();
    assert_eq!(actual.len(), 5);
    assert_eq!(fees[3].amount, 7);
    assert_eq!(actual[3].amount, 0);
    assert_eq!(fees[3].denom, "d");
    assert_eq!(fees[4].amount, 0);
}

#[test]
fn a_fee_of_zero_cuts_nothing() {
    for amount in [0u128, 1, 999, u128::MAX] {
        assert_eq!(token("a", amount, FeePerU128::zero()).amounts(), Ok((amount, 0)));
    }
    assert!(FeePerU128::zero().is_zero());
    assert!(!FeePerU128::percent(1).unwrap().is_zero());
}

#[test]
fn a_percentage_is_from_one_to_a_hundred() {
    assert_eq!(FeePerU128::percent(0), None);
    assert_eq!(FeePerU128::percent(101), None);
    assert_eq!(FeePerU128::percent(u128::MAX), None);
    assert_eq!(FeePerU128::percent(1), Some(FeePerU128(FEE_PER_PERCENT)));
    assert_eq!(FEE_PER_PERCENT, u128::MAX / 100);
    assert_eq!(FeePerU128::percent(100), Some(FeePerU128(u128::MAX - 55)));
    let t = token("a", 200, FeePerU128::percent(100).unwrap());
    assert_eq!(t.amounts(), Ok((1, 199)));
    let t = token("a", 100, FeePerU128::percent(10).unwrap());
    assert_eq!(t.amounts(), Ok((91, 9)));
}

#[test]
fn the_ratio_errors_are_two() {
    assert_ne!(CheckedMultiplyRatioError::DivideByZero, CheckedMultiplyRatioError::Overflow);
}

#[test]
fn attributes_need_both_texts() {
    let attrs =
        asset_attributes_from(Some("[]".to_string()), Some("[1]".to_string())).unwrap();
    assert_eq!(attrs.len(), 2);
    assert_eq!(attrs[0].key, "assets");
    assert_eq!(attrs[0].value, "[]");
    assert_eq!(attrs[1].key, "fee_assets");
    assert_eq!(attrs[1].value, "[1]");
    assert_eq!(
        asset_attributes_from(None, Some(String::new())).unwrap_err(),
        AttributeError::Serialize
    );
    assert_eq!(
        asset_attributes_from(Some(String::new()), None).unwrap_err(),
        AttributeError::Serialize
    );
}

#[test]
fn no_tokens_give_two_empty_lists() {
    let attrs = tokens_to_attr(&[]).unwrap();
    assert_eq!(attrs[0].value, "[]");
    assert_eq!(attrs[1].value, "[]");
}

#[test]
fn a_denomination_is_written_as_json_text() {
    let attrs = tokens_to_attr(&[token("a\"b", 5, FeePerU128::zero())]).unwrap();
    assert_eq!(attrs[0].value, "[{\"denom\":\"a\\\"b\",\"amount\":\"5\"}]");
}

#[test]
fn an_empty_text_gives_no_attribute() {
    assert_eq!(text_attribute("success", String::new()).len(), 0);
    let attrs = text_attribute("success", "x".to_string());
    assert_eq!(attrs.len(), 1);
    assert_eq!(attrs[0].key, "success");
    assert_eq!(attrs[0].value, "x");
}

#[test]
fn an_acknowledgement_is_told_in_base64() {
    assert_eq!(ack_attributes(&Ok(Vec::new())).len(), 0);
    assert_eq!(ack_attributes(&Err(Vec::new())).len(), 0);
    let attrs = ack_attributes(&Ok(b"foobar".to_vec()));
    assert_eq!(attrs.len(), 1);
    assert_eq!(attrs[0].key, "success");
    assert_eq!(attrs[0].value, "Zm9vYmFy");
    let attrs = ack_attributes(&Err(vec![0xfb, 0xff]));
    assert_eq!(attrs[0].key, "error");
    assert_eq!(attrs[0].value, "+/8=");
}

#[test]
fn a_timeout_is_at_least_a_second_away() {
    let now = Timestamp::from_nanos(1_700_000_000_000_000_000);
    assert!(matches!(packet_timeout(now, 0), Err(ProtocolError::InvalidTimeout)));
    assert_eq!(packet_timeout(now, 1).unwrap().nanos, 1_700_000_001_000_000_000);
    assert_eq!(packet_timeout(now, 60).unwrap().nanos, 1_700_000_060_000_000_000);
    assert!(matches!(packet_timeout(now, u64::MAX), Err(ProtocolError::InvalidTimeout)));
    let last = Timestamp::from_nanos(u64::MAX - 1_000_000_000);
    assert_eq!(packet_timeout(last, 1).unwrap().nanos, u64::MAX);
    assert!(matches!(packet_timeout(last, 2), Err(ProtocolError::InvalidTimeout)));
}

#[test]
fn time_is_told_in_nanoseconds() {
    assert_eq!(Timestamp::from_seconds(2), Some(Timestamp { nanos: 2_000_000_000 }));
    assert_eq!(Timestamp::from_seconds(u64::MAX), None);
    assert_eq!(Timestamp::from_seconds(18_446_744_073), Some(Timestamp { nanos: 18_446_744_073_000_000_000 }));
    assert_eq!(Timestamp::from_seconds(18_446_744_074), None);
    assert_eq!(Timestamp::from_nanos(5).plus_seconds(0), Some(Timestamp { nanos: 5 }));
    assert_eq!(Timestamp::from_nanos(u64::MAX).plus_seconds(1), None);
}

#[test]
fn a_fee_table_holds_each_denomination_once() {
    let mut fees = FeeTable::new();
    assert_eq!(fees.get(&"a".to_string()), None);
    fees.insert("a".to_string(), 1);
    fees.insert("b".to_string(), 2);
    fees.insert("a".to_string(), 3);
    assert_eq!(fees.get(&"a".to_string()), Some(3));
    assert_eq!(fees.get(&"b".to_string()), Some(2));
    assert_eq!(fees.remove(&"a".to_string()), Some(3));
    assert_eq!(fees.remove(&"a".to_string()), None);
    assert_eq!(fees.get(&"a".to_string()), None);
    assert_eq!(fees.get(&"b".to_string()), Some(2));
    fees.insert("c".to_string(), 4);
    assert_eq!(fees.entries(), vec![("b".to_string(), 2), ("c".to_string(), 4)]);
    assert_eq!(FeeTable::new().entries(), Vec::new());
}

fn forward(fees: Option<FeeTable>) -> PacketForward {
    PacketForward {
        receiver: "carol".to_string(),
        port: "transfer".to_string(),
        channel: "channel-1".to_string(),
        timeout: "10m".to_string(),
        retries: 2,
        fees,
    }
}

#[test]
fn a_fee_moves_under_the_local_denomination() {
    let mut fees = FeeTable::new();
    fees.insert("uosmo".to_string(), 5);
    fees.insert("factory/uosmo".to_string(), 9);
    fees.insert("uatom".to_string(), 6);
    let mut f = forward(Some(fees));
    f.remap_fee(&"uosmo".to_string(), &"factory/uosmo".to_string());
    let fees = f.fees.as_ref().unwrap();
    assert_eq!(fees.get(&"uosmo".to_string()), None);
    assert_eq!(fees.get(&"factory/uosmo".to_string()), Some(5));
    assert_eq!(fees.get(&"uatom".to_string()), Some(6));
    f.remap_fee(&"unknown".to_string(), &"factory/unknown".to_string());
    let fees = f.fees.as_ref().unwrap();
    assert_eq!(fees.get(&"factory/unknown".to_string()), None);
    assert_eq!(fees.get(&"factory/uosmo".to_string()), Some(5));
    f.remap_fee(&"uatom".to_string(), &"uatom".to_string());
    assert_eq!(f.fees.as_ref().unwrap().get(&"uatom".to_string()), Some(6));
    let mut none = forward(None);
    none.remap_fee(&"uosmo".to_string(), &"x".to_string());
    assert!(none.fees.is_none());
    assert_eq!(none.retries, 2);
    assert_eq!(none.receiver, "carol");
}

#[test]
fn only_a_forward_memo_holds_an_instruction() {
    assert!(forward_instruction(None).is_none());
    assert!(forward_instruction(Some(Memo::Empty)).is_none());
    let found = forward_instruction(Some(Memo::Forward { forward: forward(None) })).unwrap();
    assert_eq!(found.channel, "channel-1");
}
