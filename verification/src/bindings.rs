//! The calls this library makes into `cosmwasm_std` and `std`. Each function
//! here only makes the call; its contract is taken on trust from the source of
//! the function it calls.

use core::fmt::Debug;
use vstd::prelude::*;
use vstd::utf8::{decode_utf8, valid_utf8};

use crate::types::{CheckedMultiplyRatioError, Coin};
use crate::view::option_view;

verus! {

/// The floor of `amount * numerator / denominator` where it has a value in 128
/// bits.
pub open spec fn multiply_ratio(amount: u128, numerator: u128, denominator: u128) -> Result<u128, CheckedMultiplyRatioError> {
    if denominator == 0 {
        Err(CheckedMultiplyRatioError::DivideByZero)
    } else if (amount * numerator) / (denominator as int) > u128::MAX {
        Err(CheckedMultiplyRatioError::Overflow)
    } else {
        Ok(((amount * numerator) / (denominator as int)) as u128)
    }
}

/// `cosmwasm_std::Uint128::checked_multiply_ratio`: the floor of
/// `amount * numerator / denominator`, the product taken in 256 bits. It
/// refuses a zero denominator, and a quotient that does not fit 128 bits.
#[verifier::external_body]
pub(crate) fn checked_multiply_ratio(amount: u128, numerator: u128, denominator: u128) -> (r: Result<u128, CheckedMultiplyRatioError>)
    ensures
        r == multiply_ratio(amount, numerator, denominator),
{
    match cosmwasm_std::Uint128::new(amount).checked_multiply_ratio(numerator, denominator) {
        Ok(ratio) => Ok(ratio.u128()),
        Err(cosmwasm_std::CheckedMultiplyRatioError::DivideByZero) => Err(
            CheckedMultiplyRatioError::DivideByZero,
        ),
        Err(cosmwasm_std::CheckedMultiplyRatioError::Overflow) => Err(
            CheckedMultiplyRatioError::Overflow,
        ),
    }
}

/// The text that `cosmwasm_std::to_json_string` gives for a list of coins,
/// each a denomination with an amount; none where it gives an error.
pub uninterp spec fn coins_json(coins: Seq<(Seq<char>, u128)>) -> Option<Seq<char>>;

/// The coins as pairs of denomination and amount.
pub open spec fn coin_pairs(coins: Seq<Coin>) -> Seq<(Seq<char>, u128)> {
    coins.map_values(|coin: Coin| (coin.denom@, coin.amount))
}

/// `cosmwasm_std::to_json_string` on a list of `cosmwasm_std::Coin`, one for
/// each coin given, with its amount and denomination. The text depends on the
/// denominations and amounts alone, in their order. There is a text for
/// every list: the serializer writes a sequence of structs whose two fields
/// are strings, and has no failing step on that way.
#[verifier::external_body]
pub(crate) fn coins_to_json(coins: &Vec<Coin>) -> (r: Option<String>)
    ensures
        option_view(r) == coins_json(coin_pairs(coins@)),
        r is Some,
{
    let coins: Vec<cosmwasm_std::Coin> = coins.iter().map(
        |coin| cosmwasm_std::Coin::new(coin.amount, coin.denom.clone()),
    ).collect();
    cosmwasm_std::to_json_string(&coins).ok()
}

/// The text that `cosmwasm_std::Binary` shows for its bytes: their base64
/// encoding in the standard alphabet, padded.
pub uninterp spec fn base64_text(bytes: Seq<u8>) -> Seq<char>;

/// `cosmwasm_std::Binary::to_base64`, which is also what a `Binary` displays
/// as. Every three bytes, and what is left of less than three, give four
/// characters. The encoder gives up only where that count does not fit
/// `usize`, which no slice in memory is long enough for.
#[verifier::external_body]
pub(crate) fn to_base64(bytes: &[u8]) -> (r: String)
    ensures
        r@ == base64_text(bytes@),
        r@.len() == 4 * ((bytes@.len() + 2) / 3),
{
    cosmwasm_std::Binary::from(bytes).to_base64()
}

/// `format!` with `{:?}`: the text that the value's `Debug` writes. Nothing
/// is claimed of the text.
#[verifier::external_body]
pub(crate) fn debug_text<T: Debug>(value: &T) -> (r: String) {
    format!("{:?}", value)
}

/// `String::from_utf8`: the text that the bytes are the UTF-8 encoding of;
/// none where they are not UTF-8. The bytes are not changed on the way.
#[verifier::external_body]
pub(crate) fn text_from_utf8(bytes: Vec<u8>) -> (r: Option<String>)
    ensures
        option_view(r) == if valid_utf8(bytes@) {
            Some(decode_utf8(bytes@))
        } else {
            None
        },
{
    String::from_utf8(bytes).ok()
}

} // verus!
