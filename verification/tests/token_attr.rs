use cosmwasm_std::{Coin, Uint128};
use ucs01_relay_api::protocol::{tokens_to_attr, ATTR_ASSETS, ATTR_FEE_ASSETS};
use ucs01_relay_api::types::{FeePerU128, TransferToken};

#[test]
fn test_token_attr() {
    let token = TransferToken {
        denom: "factory/1/2/3".into(),
        amount: 1000_u64.into(),
        fee: FeePerU128::percent(50u128.try_into().unwrap()).unwrap(),
    };
    let token2 = TransferToken {
        denom: "factory/1/3/3".into(),
        amount: 1337_u64.into(),
        fee: FeePerU128::zero(),
    };
    let attrs = tokens_to_attr(&[token, token2]).unwrap();
    let amount = cosmwasm_std::from_json::<Vec<Coin>>(attrs[0].value.clone()).unwrap();
    assert_eq!(attrs[0].key, ATTR_ASSETS);
    assert_eq!(amount[0].denom, "factory/1/2/3");
    assert_eq!(amount[0].amount, Uint128::from(501u64));
    assert_eq!(amount[1].denom, "factory/1/3/3");
    assert_eq!(amount[1].amount, Uint128::from(1337_u64));
    let fee_amount = cosmwasm_std::from_json::<Vec<Coin>>(attrs[1].value.clone()).unwrap();
    assert_eq!(attrs[1].key, ATTR_FEE_ASSETS);
    assert_eq!(fee_amount[0].denom, "factory/1/2/3");
    assert_eq!(fee_amount[0].amount, Uint128::from(499u64));
    assert_eq!(fee_amount[1].denom, "factory/1/3/3");
    assert_eq!(fee_amount[1].amount, Uint128::from(0_u64));
}
