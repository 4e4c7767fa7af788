//! The wire encoding of a transfer packet: a tag for the version of the
//! encoding, then sender, receiver, the tokens and the memo. A text is its
//! length in bytes, in four bytes, and its UTF-8 bytes; a token is its
//! denomination, its amount and its fee rate, sixteen bytes each; the tokens
//! follow their count, in four bytes. Numbers are little-endian.

use vstd::bytes::{
    lemma_auto_spec_u128_to_from_le_bytes, lemma_auto_spec_u32_to_from_le_bytes,
    spec_u128_from_le_bytes, spec_u128_to_le_bytes, spec_u32_from_le_bytes, spec_u32_to_le_bytes,
    u128_from_le_bytes, u128_to_le_bytes, u32_from_le_bytes, u32_to_le_bytes,
};
use vstd::prelude::*;
use vstd::slice::{slice_subrange, slice_to_vec};
use vstd::utf8::{decode_utf8, encode_utf8, encode_utf8_decode_utf8, encode_utf8_valid_utf8, valid_utf8};

use crate::bindings::text_from_utf8;
use crate::view::{lemma_views_push, result_view, views};
use crate::types::{
    ack_view, EncodingError, FeePerU128, GenericAck, TransferPacketCommon, TransferPacketView,
    TransferToken, TransferTokenView,
};

verus! {

/// The tag of this encoding.
pub const ENCODING_VERSION: u8 = 1;

/// A text whose bytes can be counted in four bytes.
pub open spec fn text_fits(text: Seq<char>) -> bool {
    encode_utf8(text).len() <= u32::MAX
}

/// A packet that has an encoding: every text and the list of tokens are
/// short enough for their length fields.
pub open spec fn packet_fits(packet: TransferPacketView) -> bool {
    &&& text_fits(packet.sender)
    &&& text_fits(packet.receiver)
    &&& text_fits(packet.extension)
    &&& packet.tokens.len() <= u32::MAX
    &&& forall|i: int| 0 <= i < packet.tokens.len() ==> text_fits(#[trigger] packet.tokens[i].denom)
}

pub open spec fn text_bytes(text: Seq<char>) -> Seq<u8> {
    spec_u32_to_le_bytes(encode_utf8(text).len() as u32) + encode_utf8(text)
}

pub open spec fn token_bytes(token: TransferTokenView) -> Seq<u8> {
    text_bytes(token.denom) + spec_u128_to_le_bytes(token.amount) + spec_u128_to_le_bytes(
        token.fee,
    )
}

pub open spec fn tokens_bytes(tokens: Seq<TransferTokenView>) -> Seq<u8>
    decreases tokens.len(),
{
    if tokens.len() == 0 {
        Seq::empty()
    } else {
        tokens_bytes(tokens.drop_last()) + token_bytes(tokens.last())
    }
}

/// The encoding of a packet.
pub open spec fn packet_bytes(packet: TransferPacketView) -> Seq<u8> {
    seq![ENCODING_VERSION] + text_bytes(packet.sender) + text_bytes(packet.receiver)
        + spec_u32_to_le_bytes(packet.tokens.len() as u32) + tokens_bytes(packet.tokens)
        + text_bytes(packet.extension)
}

/// The number that four bytes from `pos` on tell, and where it ends.
pub open spec fn u32_at(bytes: Seq<u8>, pos: int) -> Result<(u32, int), EncodingError> {
    if bytes.len() - pos < 4 {
        Err(EncodingError::Truncated)
    } else {
        Ok((spec_u32_from_le_bytes(bytes.subrange(pos, pos + 4)), pos + 4))
    }
}

/// The number that sixteen bytes from `pos` on tell, and where it ends.
pub open spec fn u128_at(bytes: Seq<u8>, pos: int) -> Result<(u128, int), EncodingError> {
    if bytes.len() - pos < 16 {
        Err(EncodingError::Truncated)
    } else {
        Ok((spec_u128_from_le_bytes(bytes.subrange(pos, pos + 16)), pos + 16))
    }
}

/// The text that starts at `pos`, and where it ends.
pub open spec fn text_at(bytes: Seq<u8>, pos: int) -> Result<(Seq<char>, int), EncodingError> {
    match u32_at(bytes, pos) {
        Err(e) => Err(e),
        Ok((len, start)) => if bytes.len() - start < len {
            Err(EncodingError::Truncated)
        } else if !valid_utf8(bytes.subrange(start, start + len)) {
            Err(EncodingError::InvalidText)
        } else {
            Ok((decode_utf8(bytes.subrange(start, start + len)), start + len))
        },
    }
}

/// The token that starts at `pos`, and where it ends.
pub open spec fn token_at(bytes: Seq<u8>, pos: int) -> Result<(TransferTokenView, int), EncodingError> {
    match text_at(bytes, pos) {
        Err(e) => Err(e),
        Ok((denom, pos1)) => match u128_at(bytes, pos1) {
            Err(e) => Err(e),
            Ok((amount, pos2)) => match u128_at(bytes, pos2) {
                Err(e) => Err(e),
                Ok((fee, pos3)) => Ok((TransferTokenView { denom, amount, fee }, pos3)),
            },
        },
    }
}

/// The `count` tokens that start at `pos`, and where they end.
pub open spec fn tokens_at(bytes: Seq<u8>, pos: int, count: nat) -> Result<(Seq<TransferTokenView>, int), EncodingError>
    decreases count,
{
    if count == 0 {
        Ok((Seq::empty(), pos))
    } else {
        match tokens_at(bytes, pos, (count - 1) as nat) {
            Err(e) => Err(e),
            Ok((tokens, pos1)) => match token_at(bytes, pos1) {
                Err(e) => Err(e),
                Ok((token, pos2)) => Ok((tokens.push(token), pos2)),
            },
        }
    }
}

/// The packet that bytes encode.
pub open spec fn packet_at(bytes: Seq<u8>) -> Result<TransferPacketView, EncodingError> {
    if bytes.len() < 1 {
        Err(EncodingError::Truncated)
    } else if bytes[0] != ENCODING_VERSION {
        Err(EncodingError::UnknownVersion)
    } else {
        match text_at(bytes, 1) {
            Err(e) => Err(e),
            Ok((sender, pos1)) => match text_at(bytes, pos1) {
                Err(e) => Err(e),
                Ok((receiver, pos2)) => match u32_at(bytes, pos2) {
                    Err(e) => Err(e),
                    Ok((count, pos3)) => match tokens_at(bytes, pos3, count as nat) {
                        Err(e) => Err(e),
                        Ok((tokens, pos4)) => match text_at(bytes, pos4) {
                            Err(e) => Err(e),
                            Ok((extension, pos5)) => if pos5 != bytes.len() {
                                Err(EncodingError::TrailingBytes)
                            } else {
                                Ok(TransferPacketView { sender, receiver, tokens, extension })
                            },
                        },
                    },
                },
            },
        }
    }
}

/// Once a token cannot be read, neither can a longer list.
pub proof fn lemma_tokens_at_stops(bytes: Seq<u8>, pos: int, k: nat, count: nat)
    requires
        k <= count,
        tokens_at(bytes, pos, k) is Err,
    ensures
        tokens_at(bytes, pos, count) == tokens_at(bytes, pos, k),
    decreases count - k,
{
    if k < count {
        lemma_tokens_at_stops(bytes, pos, k + 1, count);
    }
}

/// A number written at `pos` is read back.
pub proof fn lemma_u32_round_trip(before: Seq<u8>, x: u32, after: Seq<u8>)
    ensures
        u32_at(before + spec_u32_to_le_bytes(x) + after, before.len() as int) == Ok::<
            (u32, int),
            EncodingError,
        >((x, (before.len() + 4) as int)),
        spec_u32_to_le_bytes(x).len() == 4,
{
    lemma_auto_spec_u32_to_from_le_bytes();
    let all = before + spec_u32_to_le_bytes(x) + after;
    assert(all.subrange(before.len() as int, (before.len() + 4) as int) =~= spec_u32_to_le_bytes(x));
}

pub proof fn lemma_u128_round_trip(before: Seq<u8>, x: u128, after: Seq<u8>)
    ensures
        u128_at(before + spec_u128_to_le_bytes(x) + after, before.len() as int) == Ok::<
            (u128, int),
            EncodingError,
        >((x, (before.len() + 16) as int)),
        spec_u128_to_le_bytes(x).len() == 16,
{
    lemma_auto_spec_u128_to_from_le_bytes();
    let all = before + spec_u128_to_le_bytes(x) + after;
    assert(all.subrange(before.len() as int, (before.len() + 16) as int) =~= spec_u128_to_le_bytes(x));
}

/// A text written at `pos` is read back.
pub proof fn lemma_text_round_trip(before: Seq<u8>, text: Seq<char>, after: Seq<u8>)
    requires
        text_fits(text),
    ensures
        text_at(before + text_bytes(text) + after, before.len() as int) == Ok::<
            (Seq<char>, int),
            EncodingError,
        >((text, (before.len() + text_bytes(text).len()) as int)),
{
    let utf8 = encode_utf8(text);
    let len = utf8.len() as u32;
    let all = before + text_bytes(text) + after;
    lemma_u32_round_trip(before, len, utf8 + after);
    assert(all =~= before + spec_u32_to_le_bytes(len) + (utf8 + after));
    let start = (before.len() + 4) as int;
    assert(all.subrange(start, start + len) =~= utf8);
    encode_utf8_valid_utf8(text);
    encode_utf8_decode_utf8(text);
}

/// A token written at `pos` is read back.
pub proof fn lemma_token_round_trip(before: Seq<u8>, token: TransferTokenView, after: Seq<u8>)
    requires
        text_fits(token.denom),
    ensures
        token_at(before + token_bytes(token) + after, before.len() as int) == Ok::<
            (TransferTokenView, int),
            EncodingError,
        >((token, (before.len() + token_bytes(token).len()) as int)),
{
    let denom = text_bytes(token.denom);
    let amount = spec_u128_to_le_bytes(token.amount);
    let fee = spec_u128_to_le_bytes(token.fee);
    let all = before + token_bytes(token) + after;
    lemma_text_round_trip(before, token.denom, amount + fee + after);
    assert(all =~= before + denom + (amount + fee + after));
    lemma_u128_round_trip(before + denom, token.amount, fee + after);
    assert(all =~= (before + denom) + amount + (fee + after));
    lemma_u128_round_trip(before + denom + amount, token.fee, after);
    assert(all =~= (before + denom + amount) + fee + after);
}

/// Tokens written at `pos` are read back.
pub proof fn lemma_tokens_round_trip(before: Seq<u8>, tokens: Seq<TransferTokenView>, after: Seq<u8>)
    requires
        forall|i: int| 0 <= i < tokens.len() ==> text_fits(#[trigger] tokens[i].denom),
    ensures
        tokens_at(before + tokens_bytes(tokens) + after, before.len() as int, tokens.len()) == Ok::<
            (Seq<TransferTokenView>, int),
            EncodingError,
        >((tokens, (before.len() + tokens_bytes(tokens).len()) as int)),
    decreases tokens.len(),
{
    let all = before + tokens_bytes(tokens) + after;
    if tokens.len() == 0 {
        assert(tokens =~= Seq::empty());
    } else {
        let first = tokens.drop_last();
        let last = tokens.last();
        assert forall|i: int| 0 <= i < first.len() implies text_fits(#[trigger] first[i].denom) by {
            assert(first[i] == tokens[i]);
        }
        lemma_tokens_round_trip(before, first, token_bytes(last) + after);
        assert(all =~= before + tokens_bytes(first) + (token_bytes(last) + after));
        assert(text_fits(tokens[tokens.len() - 1].denom));
        lemma_token_round_trip(before + tokens_bytes(first), last, after);
        assert(all =~= (before + tokens_bytes(first)) + token_bytes(last) + after);
        assert(first.push(last) =~= tokens);
    }
}

/// Decoding the encoding of a packet gives the packet back: sender, receiver,
/// tokens and memo.
pub proof fn lemma_packet_round_trip(packet: TransferPacketView)
    requires
        packet_fits(packet),
    ensures
        packet_at(packet_bytes(packet)) == Ok::<TransferPacketView, EncodingError>(packet),
{
    let tag = seq![ENCODING_VERSION];
    let sender = text_bytes(packet.sender);
    let receiver = text_bytes(packet.receiver);
    let count = spec_u32_to_le_bytes(packet.tokens.len() as u32);
    let tokens = tokens_bytes(packet.tokens);
    let extension = text_bytes(packet.extension);
    let all = packet_bytes(packet);
    assert(all[0] == ENCODING_VERSION);
    lemma_text_round_trip(tag, packet.sender, receiver + count + tokens + extension);
    assert(all =~= tag + sender + (receiver + count + tokens + extension));
    lemma_text_round_trip(tag + sender, packet.receiver, count + tokens + extension);
    assert(all =~= (tag + sender) + receiver + (count + tokens + extension));
    lemma_u32_round_trip(tag + sender + receiver, packet.tokens.len() as u32, tokens + extension);
    assert(all =~= (tag + sender + receiver) + count + (tokens + extension));
    lemma_tokens_round_trip(tag + sender + receiver + count, packet.tokens, extension);
    assert(all =~= (tag + sender + receiver + count) + tokens + extension);
    lemma_text_round_trip(
        tag + sender + receiver + count + tokens,
        packet.extension,
        Seq::empty(),
    );
    assert(all =~= (tag + sender + receiver + count + tokens) + extension + Seq::empty());
}

fn put_bytes(out: &mut Vec<u8>, bytes: &[u8])
    ensures
        final(out)@ == old(out)@ + bytes@,
{
    let mut i: usize = 0;
    assert(out@ =~= old(out)@ + bytes@.take(0));
    while i < bytes.len()
        invariant
            i <= bytes.len(),
            out@ == old(out)@ + bytes@.take(i as int),
        decreases bytes.len() - i,
    {
        out.push(bytes[i]);
        assert(old(out)@ + bytes@.take(i as int + 1) =~= (old(out)@ + bytes@.take(i as int)).push(
            bytes@[i as int],
        ));
        i = i + 1;
    }
    assert(bytes@.take(i as int) =~= bytes@);
}

fn put_u32(out: &mut Vec<u8>, x: u32)
    ensures
        final(out)@ == old(out)@ + spec_u32_to_le_bytes(x),
{
    let bytes = u32_to_le_bytes(x);
    put_bytes(out, bytes.as_slice());
}

fn put_u128(out: &mut Vec<u8>, x: u128)
    ensures
        final(out)@ == old(out)@ + spec_u128_to_le_bytes(x),
{
    let bytes = u128_to_le_bytes(x);
    put_bytes(out, bytes.as_slice());
}

fn put_text(out: &mut Vec<u8>, text: &String) -> (r: Result<(), EncodingError>)
    ensures
        match r {
            Ok(_) => text_fits(text@) && final(out)@ == old(out)@ + text_bytes(text@),
            Err(e) => !text_fits(text@) && e == EncodingError::TooLong,
        },
{
    let bytes = text.as_str().as_bytes();
    if bytes.len() > u32::MAX as usize {
        return Err(EncodingError::TooLong);
    }
    put_u32(out, bytes.len() as u32);
    put_bytes(out, bytes);
    assert(out@ =~= old(out)@ + text_bytes(text@));
    Ok(())
}

fn take_u32(data: &[u8], pos: usize) -> (r: Result<(u32, usize), EncodingError>)
    requires
        pos <= data@.len(),
    ensures
        match r {
            Ok((x, next)) => u32_at(data@, pos as int) == Ok::<(u32, int), EncodingError>(
                (x, next as int),
            ) && next <= data@.len(),
            Err(e) => u32_at(data@, pos as int) == Err::<(u32, int), EncodingError>(e),
        },
{
    if data.len() - pos < 4 {
        return Err(EncodingError::Truncated);
    }
    Ok((u32_from_le_bytes(slice_subrange(data, pos, pos + 4)), pos + 4))
}

fn take_u128(data: &[u8], pos: usize) -> (r: Result<(u128, usize), EncodingError>)
    requires
        pos <= data@.len(),
    ensures
        match r {
            Ok((x, next)) => u128_at(data@, pos as int) == Ok::<(u128, int), EncodingError>(
                (x, next as int),
            ) && next <= data@.len(),
            Err(e) => u128_at(data@, pos as int) == Err::<(u128, int), EncodingError>(e),
        },
{
    if data.len() - pos < 16 {
        return Err(EncodingError::Truncated);
    }
    Ok((u128_from_le_bytes(slice_subrange(data, pos, pos + 16)), pos + 16))
}

fn take_text(data: &[u8], pos: usize) -> (r: Result<(String, usize), EncodingError>)
    requires
        pos <= data@.len(),
    ensures
        match r {
            Ok((text, next)) => text_at(data@, pos as int) == Ok::<(Seq<char>, int), EncodingError>(
                (text@, next as int),
            ) && next <= data@.len(),
            Err(e) => text_at(data@, pos as int) == Err::<(Seq<char>, int), EncodingError>(e),
        },
{
    let (len, start) = match take_u32(data, pos) {
        Ok(taken) => taken,
        Err(e) => {
            return Err(e);
        },
    };
    if data.len() - start < len as usize {
        return Err(EncodingError::Truncated);
    }
    let end = start + len as usize;
    match text_from_utf8(slice_to_vec(slice_subrange(data, start, end))) {
        Some(text) => Ok((text, end)),
        None => Err(EncodingError::InvalidText),
    }
}

fn take_token(data: &[u8], pos: usize) -> (r: Result<(TransferToken, usize), EncodingError>)
    requires
        pos <= data@.len(),
    ensures
        match r {
            Ok((token, next)) => token_at(data@, pos as int) == Ok::<
                (TransferTokenView, int),
                EncodingError,
            >((token@, next as int)) && next <= data@.len(),
            Err(e) => token_at(data@, pos as int) == Err::<(TransferTokenView, int), EncodingError>(
                e,
            ),
        },
{
    let (denom, pos1) = match take_text(data, pos) {
        Ok(taken) => taken,
        Err(e) => {
            return Err(e);
        },
    };
    let (amount, pos2) = match take_u128(data, pos1) {
        Ok(taken) => taken,
        Err(e) => {
            return Err(e);
        },
    };
    let (fee, pos3) = match take_u128(data, pos2) {
        Ok(taken) => taken,
        Err(e) => {
            return Err(e);
        },
    };
    Ok((TransferToken { denom, amount, fee: FeePerU128(fee) }, pos3))
}

fn take_tokens(data: &[u8], pos: usize, count: u32) -> (r: Result<(Vec<TransferToken>, usize), EncodingError>)
    requires
        pos <= data@.len(),
    ensures
        match r {
            Ok((tokens, next)) => tokens_at(data@, pos as int, count as nat) == Ok::<
                (Seq<TransferTokenView>, int),
                EncodingError,
            >((views(tokens@), next as int)) && next <= data@.len(),
            Err(e) => tokens_at(data@, pos as int, count as nat) == Err::<
                (Seq<TransferTokenView>, int),
                EncodingError,
            >(e),
        },
{
    let mut tokens: Vec<TransferToken> = Vec::new();
    let mut at = pos;
    let mut i: u32 = 0;
    assert(views(tokens@) =~= Seq::empty());
    while i < count
        invariant
            i <= count,
            at <= data@.len(),
            tokens_at(data@, pos as int, i as nat) == Ok::<
                (Seq<TransferTokenView>, int),
                EncodingError,
            >((views(tokens@), at as int)),
        decreases count - i,
    {
        match take_token(data, at) {
            Ok((token, next)) => {
                proof {
                    lemma_views_push(tokens@, token);
                }
                tokens.push(token);
                at = next;
            },
            Err(e) => {
                proof {
                    assert(tokens_at(data@, pos as int, (i + 1) as nat) is Err);
                    lemma_tokens_at_stops(data@, pos as int, (i + 1) as nat, count as nat);
                }
                return Err(e);
            },
        }
        i = i + 1;
    }
    Ok((tokens, at))
}

impl TransferPacketCommon {
    /// The bytes that carry the packet; none where a text or the list of
    /// tokens is too long for its length field.
    pub fn encode(&self) -> (r: Result<Vec<u8>, EncodingError>)
        ensures
            match r {
                Ok(bytes) => packet_fits(self@) && bytes@ == packet_bytes(self@),
                Err(e) => !packet_fits(self@) && e == EncodingError::TooLong,
            },
    {
        let mut out: Vec<u8> = Vec::new();
        out.push(ENCODING_VERSION);
        assert(out@ =~= seq![ENCODING_VERSION]);
        match put_text(&mut out, &self.sender) {
            Ok(_) => {},
            Err(e) => {
                return Err(e);
            },
        }
        match put_text(&mut out, &self.receiver) {
            Ok(_) => {},
            Err(e) => {
                return Err(e);
            },
        }
        if self.tokens.len() > u32::MAX as usize {
            return Err(EncodingError::TooLong);
        }
        put_u32(&mut out, self.tokens.len() as u32);
        let ghost head = out@;
        let ghost all = views(self.tokens@);
        let mut i: usize = 0;
        assert(out@ =~= head + tokens_bytes(all.take(0)));
        while i < self.tokens.len()
            invariant
                i <= self.tokens.len(),
                all == views(self.tokens@),
                out@ == head + tokens_bytes(all.take(i as int)),
                forall|j: int| 0 <= j < i ==> text_fits(#[trigger] all[j].denom),
            decreases self.tokens.len() - i,
        {
            let token = &self.tokens[i];
            match put_text(&mut out, &token.denom) {
                Ok(_) => {},
                Err(e) => {
                    assert(!text_fits(self@.tokens[i as int].denom));
                    return Err(e);
                },
            }
            put_u128(&mut out, token.amount);
            put_u128(&mut out, token.fee.0);
            proof {
                assert(all.take(i as int + 1).drop_last() =~= all.take(i as int));
                assert(all.take(i as int + 1).last() == token@);
                assert(out@ =~= head + tokens_bytes(all.take(i as int + 1)));
            }
            i = i + 1;
        }
        assert(all.take(i as int) =~= all);
        match put_text(&mut out, &self.extension) {
            Ok(_) => {},
            Err(e) => {
                return Err(e);
            },
        }
        assert(out@ =~= packet_bytes(self@));
        Ok(out)
    }

    /// The packet that the bytes carry, where they are the encoding of one
    /// and nothing more.
    pub fn decode(data: &[u8]) -> (r: Result<Self, EncodingError>)
        ensures
            result_view(r) == packet_at(data@),
    {
        if data.len() < 1 {
            return Err(EncodingError::Truncated);
        }
        if data[0] != ENCODING_VERSION {
            return Err(EncodingError::UnknownVersion);
        }
        let (sender, pos1) = match take_text(data, 1) {
            Ok(taken) => taken,
            Err(e) => {
                return Err(e);
            },
        };
        let (receiver, pos2) = match take_text(data, pos1) {
            Ok(taken) => taken,
            Err(e) => {
                return Err(e);
            },
        };
        let (count, pos3) = match take_u32(data, pos2) {
            Ok(taken) => taken,
            Err(e) => {
                return Err(e);
            },
        };
        let (tokens, pos4) = match take_tokens(data, pos3, count) {
            Ok(taken) => taken,
            Err(e) => {
                return Err(e);
            },
        };
        let (extension, pos5) = match take_text(data, pos4) {
            Ok(taken) => taken,
            Err(e) => {
                return Err(e);
            },
        };
        if pos5 != data.len() {
            return Err(EncodingError::TrailingBytes);
        }
        Ok(TransferPacketCommon { sender, receiver, tokens, extension })
    }
}

/// The tag of the acknowledgement of a failure.
pub const ACK_FAILURE: u8 = 0;

/// The tag of the acknowledgement of a success.
pub const ACK_SUCCESS: u8 = 1;

/// The encoding of an acknowledgement: its tag, then its payload.
pub open spec fn ack_bytes(ack: Result<Seq<u8>, Seq<u8>>) -> Seq<u8> {
    match ack {
        Ok(payload) => seq![ACK_SUCCESS] + payload,
        Err(payload) => seq![ACK_FAILURE] + payload,
    }
}

/// The acknowledgement that bytes encode.
pub open spec fn ack_at(bytes: Seq<u8>) -> Result<Result<Seq<u8>, Seq<u8>>, EncodingError> {
    if bytes.len() < 1 {
        Err(EncodingError::Truncated)
    } else if bytes[0] == ACK_SUCCESS {
        Ok(Ok(bytes.skip(1)))
    } else if bytes[0] == ACK_FAILURE {
        Ok(Err(bytes.skip(1)))
    } else {
        Err(EncodingError::InvalidAck)
    }
}

/// Decoding the encoding of an acknowledgement gives it back.
pub proof fn lemma_ack_round_trip(ack: Result<Seq<u8>, Seq<u8>>)
    ensures
        ack_at(ack_bytes(ack)) == Ok::<Result<Seq<u8>, Seq<u8>>, EncodingError>(ack),
{
    match ack {
        Ok(payload) => {
            assert((seq![ACK_SUCCESS] + payload).skip(1) =~= payload);
        },
        Err(payload) => {
            assert((seq![ACK_FAILURE] + payload).skip(1) =~= payload);
        },
    }
}

/// The bytes that carry an acknowledgement.
pub fn encode_ack(ack: &GenericAck) -> (r: Vec<u8>)
    ensures
        r@ == ack_bytes(ack_view(*ack)),
{
    let mut out: Vec<u8> = Vec::new();
    match ack {
        Ok(payload) => {
            out.push(ACK_SUCCESS);
            assert(out@ =~= seq![ACK_SUCCESS]);
            put_bytes(&mut out, payload.as_slice());
        },
        Err(payload) => {
            out.push(ACK_FAILURE);
            assert(out@ =~= seq![ACK_FAILURE]);
            put_bytes(&mut out, payload.as_slice());
        },
    }
    out
}

/// The acknowledgement that the bytes carry.
pub fn decode_ack(data: &[u8]) -> (r: Result<GenericAck, EncodingError>)
    ensures
        match r {
            Ok(ack) => ack_at(data@) == Ok::<Result<Seq<u8>, Seq<u8>>, EncodingError>(
                ack_view(ack),
            ),
            Err(e) => ack_at(data@) == Err::<Result<Seq<u8>, Seq<u8>>, EncodingError>(e),
        },
{
    if data.len() < 1 {
        return Err(EncodingError::Truncated);
    }
    let tag = data[0];
    if tag != ACK_SUCCESS && tag != ACK_FAILURE {
        return Err(EncodingError::InvalidAck);
    }
    let payload = slice_to_vec(slice_subrange(data, 1, data.len()));
    assert(payload@ =~= data@.skip(1));
    if tag == ACK_SUCCESS {
        Ok(Ok(payload))
    } else {
        Ok(Err(payload))
    }
}

} // verus!
