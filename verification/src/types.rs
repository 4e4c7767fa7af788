//! The values a transfer carries: tokens with their fee, the packet, the
//! acknowledgement.

use vstd::prelude::*;

use crate::bindings::checked_multiply_ratio;
use crate::view::views;

verus! {

/// Why `amount * numerator / denominator` has no value in 128 bits.
#[derive(Clone, Copy, PartialEq, Eq, Structural, Debug)]
pub enum CheckedMultiplyRatioError {
    DivideByZero,
    Overflow,
}

/// The share of a percent, in parts of `u128::MAX`.
pub const FEE_PER_PERCENT: u128 = 3402823669209384634633746074317682114;

/// A fee as a fraction of the amount: the numerator of a ratio whose
/// denominator is `u128::MAX`.
#[derive(Clone, Copy, PartialEq, Eq, Structural, Debug)]
pub struct FeePerU128(pub u128);

/// The fee cut from `amount` at the rate `fee`: `amount * fee / u128::MAX`,
/// rounded down.
pub open spec fn fee_amount(amount: u128, fee: u128) -> int {
    (amount * fee) / (u128::MAX as int)
}

/// What is left of `amount` once the fee is cut.
pub open spec fn actual_amount(amount: u128, fee: u128) -> int {
    amount - fee_amount(amount, fee)
}

/// The fee is never more than the amount, and never negative.
pub proof fn lemma_fee_amount_bounds(amount: u128, fee: u128)
    ensures
        0 <= fee_amount(amount, fee) <= amount,
        fee == 0 ==> fee_amount(amount, fee) == 0,
        actual_amount(amount, fee) + fee_amount(amount, fee) == amount,
{
    let max = u128::MAX as int;
    assert(0 <= amount * fee <= amount * max) by (nonlinear_arith)
        requires
            0 <= amount,
            0 <= fee <= max,
    ;
    assert(0 <= (amount * fee) / max <= amount) by (nonlinear_arith)
        requires
            0 <= amount * fee <= amount * max,
            max > 0,
    ;
    if fee == 0 {
        assert(amount * fee == 0) by (nonlinear_arith)
            requires
                fee == 0,
        ;
    }
}

impl FeePerU128 {
    /// No fee.
    pub fn zero() -> (r: Self)
        ensures
            r.0 == 0,
    {
        FeePerU128(0)
    }

    pub fn is_zero(&self) -> (r: bool)
        ensures
            r == (self.0 == 0),
    {
        self.0 == 0
    }

    /// The fee of `percent` hundredths of the amount, for a percentage from 1
    /// to 100; none for any other number.
    pub fn percent(percent: u128) -> (r: Option<Self>)
        ensures
            r == if 1 <= percent <= 100 {
                Some(FeePerU128((percent * FEE_PER_PERCENT) as u128))
            } else {
                None
            },
    {
        if percent == 0 || percent > 100 {
            None
        } else {
            Some(FeePerU128(percent * FEE_PER_PERCENT))
        }
    }
}

/// A point in time, in nanoseconds since the epoch.
#[derive(Clone, Copy, PartialEq, Eq, Structural, Debug)]
pub struct Timestamp {
    pub nanos: u64,
}

pub const NANOS_PER_SECOND: u64 = 1_000_000_000;

impl Timestamp {
    pub fn from_nanos(nanos: u64) -> (r: Self)
        ensures
            r.nanos == nanos,
    {
        Timestamp { nanos }
    }

    pub fn from_seconds(seconds: u64) -> (r: Option<Self>)
        ensures
            r == if seconds * NANOS_PER_SECOND <= u64::MAX {
                Some(Timestamp { nanos: (seconds * NANOS_PER_SECOND) as u64 })
            } else {
                None
            },
    {
        if seconds > u64::MAX / NANOS_PER_SECOND {
            None
        } else {
            Some(Timestamp { nanos: seconds * NANOS_PER_SECOND })
        }
    }

    /// The time `seconds` later, where it can still be told in 64 bits of
    /// nanoseconds.
    pub fn plus_seconds(&self, seconds: u64) -> (r: Option<Self>)
        ensures
            r == if self.nanos + seconds * NANOS_PER_SECOND <= u64::MAX {
                Some(Timestamp { nanos: (self.nanos + seconds * NANOS_PER_SECOND) as u64 })
            } else {
                None
            },
    {
        if seconds > (u64::MAX - self.nanos) / NANOS_PER_SECOND {
            None
        } else {
            Some(Timestamp { nanos: self.nanos + seconds * NANOS_PER_SECOND })
        }
    }
}

/// An amount of one denomination, with the fee rate that applies to it.
#[derive(Debug, PartialEq, Eq)]
pub struct TransferToken {
    pub denom: String,
    pub amount: u128,
    pub fee: FeePerU128,
}

pub struct TransferTokenView {
    pub denom: Seq<char>,
    pub amount: u128,
    pub fee: u128,
}

impl View for TransferToken {
    type V = TransferTokenView;

    open spec fn view(&self) -> TransferTokenView {
        TransferTokenView { denom: self.denom@, amount: self.amount, fee: self.fee.0 }
    }
}

impl Clone for TransferToken {
    fn clone(&self) -> (r: Self)
        ensures
            r@ == self@,
    {
        TransferToken { denom: self.denom.clone(), amount: self.amount, fee: self.fee }
    }
}

impl TransferToken {
    /// The amount that is transferred and the fee that is cut from it, in
    /// that order. The two add up to the token's amount.
    pub fn amounts(&self) -> (r: Result<(u128, u128), CheckedMultiplyRatioError>)
        ensures
            r == Ok::<(u128, u128), CheckedMultiplyRatioError>(
                (
                    actual_amount(self.amount, self.fee.0) as u128,
                    fee_amount(self.amount, self.fee.0) as u128,
                ),
            ),
            actual_amount(self.amount, self.fee.0) + fee_amount(self.amount, self.fee.0)
                == self.amount,
            0 <= fee_amount(self.amount, self.fee.0) <= self.amount,
            self.fee.0 == 0 ==> r == Ok::<(u128, u128), CheckedMultiplyRatioError>(
                (self.amount, 0u128),
            ),
    {
        proof {
            lemma_fee_amount_bounds(self.amount, self.fee.0);
        }
        match checked_multiply_ratio(self.amount, self.fee.0, u128::MAX) {
            Ok(fee) => Ok((self.amount - fee, fee)),
            Err(e) => Err(e),
        }
    }
}

/// The sum of the amounts of the tokens.
pub open spec fn total_amount(tokens: Seq<TransferTokenView>) -> int
    decreases tokens.len(),
{
    if tokens.len() == 0 {
        0
    } else {
        total_amount(tokens.drop_last()) + tokens.last().amount
    }
}

/// The sum of what is transferred of each token.
pub open spec fn total_actual(tokens: Seq<TransferTokenView>) -> int
    decreases tokens.len(),
{
    if tokens.len() == 0 {
        0
    } else {
        total_actual(tokens.drop_last()) + actual_amount(tokens.last().amount, tokens.last().fee)
    }
}

/// The sum of the fees cut from the tokens.
pub open spec fn total_fee(tokens: Seq<TransferTokenView>) -> int
    decreases tokens.len(),
{
    if tokens.len() == 0 {
        0
    } else {
        total_fee(tokens.drop_last()) + fee_amount(tokens.last().amount, tokens.last().fee)
    }
}

/// Over any list of tokens, what is transferred and the fees cut add up to
/// the amounts exactly; and where every fee rate is zero, no fee is cut.
pub proof fn lemma_fees_conserve_amounts(tokens: Seq<TransferTokenView>)
    ensures
        total_actual(tokens) + total_fee(tokens) == total_amount(tokens),
        0 <= total_fee(tokens) <= total_amount(tokens),
        (forall|i: int| 0 <= i < tokens.len() ==> tokens[i].fee == 0) ==> total_fee(tokens) == 0,
    decreases tokens.len(),
{
    if tokens.len() > 0 {
        lemma_fees_conserve_amounts(tokens.drop_last());
        lemma_fee_amount_bounds(tokens.last().amount, tokens.last().fee);
        if forall|i: int| 0 <= i < tokens.len() ==> tokens[i].fee == 0 {
            assert(forall|i: int|
                0 <= i < tokens.drop_last().len() ==> tokens.drop_last()[i] == tokens[i]);
            assert(tokens.last() == tokens[tokens.len() - 1]);
        }
    }
}

/// An amount of one denomination.
#[derive(Debug, PartialEq, Eq)]
pub struct Coin {
    pub denom: String,
    pub amount: u128,
}

pub struct CoinView {
    pub denom: Seq<char>,
    pub amount: u128,
}

impl View for Coin {
    type V = CoinView;

    open spec fn view(&self) -> CoinView {
        CoinView { denom: self.denom@, amount: self.amount }
    }
}

impl Clone for Coin {
    fn clone(&self) -> (r: Self)
        ensures
            r@ == self@,
    {
        Coin { denom: self.denom.clone(), amount: self.amount }
    }
}

/// A token as it is held after it was received: under which denomination it
/// came, and the token with its local denomination and what is left of its
/// amount.
#[derive(Debug, PartialEq, Eq)]
pub struct NormalizedTransferToken {
    pub origin_denom: String,
    pub token: TransferToken,
}

pub struct NormalizedTransferTokenView {
    pub origin_denom: Seq<char>,
    pub token: TransferTokenView,
}

impl View for NormalizedTransferToken {
    type V = NormalizedTransferTokenView;

    open spec fn view(&self) -> NormalizedTransferTokenView {
        NormalizedTransferTokenView { origin_denom: self.origin_denom@, token: self.token@ }
    }
}

/// What a transfer packet says, whatever its encoding: who sends, who
/// receives, the tokens in their order, and the memo.
#[derive(Debug, PartialEq, Eq)]
pub struct TransferPacketCommon {
    pub sender: String,
    pub receiver: String,
    pub tokens: Vec<TransferToken>,
    pub extension: String,
}

pub struct TransferPacketView {
    pub sender: Seq<char>,
    pub receiver: Seq<char>,
    pub tokens: Seq<TransferTokenView>,
    pub extension: Seq<char>,
}

impl View for TransferPacketCommon {
    type V = TransferPacketView;

    open spec fn view(&self) -> TransferPacketView {
        TransferPacketView {
            sender: self.sender@,
            receiver: self.receiver@,
            tokens: views(self.tokens@),
            extension: self.extension@,
        }
    }
}

/// Why bytes are no packet or acknowledgement, or a packet has no bytes.
#[derive(Clone, Copy, PartialEq, Eq, Structural, Debug)]
pub enum EncodingError {
    /// The bytes start with the tag of an encoding that is not known.
    UnknownVersion,
    /// The bytes end before the value does.
    Truncated,
    /// Bytes follow the end of the value.
    TrailingBytes,
    /// A text is not UTF-8.
    InvalidText,
    /// A text or a list is longer than its length field can say.
    TooLong,
    /// The bytes are no acknowledgement.
    InvalidAck,
    /// The sender is no address.
    InvalidSender,
    /// The receiver is no address.
    InvalidReceiver,
}

/// An acknowledgement: the payload of a success, or that of a failure.
pub type GenericAck = Result<Vec<u8>, Vec<u8>>;

pub open spec fn ack_view(ack: GenericAck) -> Result<Seq<u8>, Seq<u8>> {
    match ack {
        Ok(payload) => Ok(payload@),
        Err(payload) => Err(payload@),
    }
}

} // verus!
