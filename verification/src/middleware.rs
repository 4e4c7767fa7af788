//! Packet forwarding: the instruction a memo may carry, and the record kept
//! of a packet that was forwarded.

use vstd::prelude::*;

use crate::fees::FeeTable;
use crate::ibc::{IbcPacket, IbcPacketView};
use crate::types::Timestamp;

verus! {

/// The instruction to send a received transfer on: where to, to whom, and
/// with which fees by denomination.
#[derive(Debug)]
pub struct PacketForward {
    pub receiver: String,
    pub port: String,
    pub channel: String,
    pub timeout: String,
    pub retries: u8,
    pub fees: Option<FeeTable>,
}

pub struct PacketForwardView {
    pub receiver: Seq<char>,
    pub port: Seq<char>,
    pub channel: Seq<char>,
    pub timeout: Seq<char>,
    pub retries: u8,
    pub fees: Option<Map<Seq<char>, u128>>,
}

impl View for PacketForward {
    type V = PacketForwardView;

    open spec fn view(&self) -> PacketForwardView {
        PacketForwardView {
            receiver: self.receiver@,
            port: self.port@,
            channel: self.channel@,
            timeout: self.timeout@,
            retries: self.retries,
            fees: match self.fees {
                Some(fees) => Some(fees@),
                None => None,
            },
        }
    }
}

/// The fees with the fee that stood under `origin`, if there was one, moved
/// under `local`.
pub open spec fn remapped_fees(fees: Map<Seq<char>, u128>, origin: Seq<char>, local: Seq<char>) -> Map<Seq<char>, u128> {
    if fees.contains_key(origin) {
        fees.remove(origin).insert(local, fees[origin])
    } else {
        fees
    }
}

impl PacketForwardView {
    /// The instruction with the fee of the denomination `origin` moved under
    /// the denomination `local`.
    pub open spec fn remapped(self, origin: Seq<char>, local: Seq<char>) -> PacketForwardView {
        PacketForwardView {
            fees: match self.fees {
                Some(fees) => Some(remapped_fees(fees, origin, local)),
                None => None,
            },
            ..self
        }
    }
}

impl PacketForward {
    /// Moves the fee set for the denomination a token had where it came from
    /// under the denomination it has here. A token that was received is held
    /// under a local denomination, and the next hop knows it by that.
    pub fn remap_fee(&mut self, origin_denom: &String, local_denom: &String)
        ensures
            final(self)@ == old(self)@.remapped(origin_denom@, local_denom@),
    {
        let mut fees: Option<FeeTable> = None;
        core::mem::swap(&mut self.fees, &mut fees);
        match fees {
            Some(mut table) => {
                let ghost before = table@;
                match table.remove(origin_denom) {
                    Some(fee) => {
                        table.insert(local_denom.clone(), fee);
                    },
                    None => {
                        assert(table@ =~= before);
                    },
                }
                assert(table@ == remapped_fees(before, origin_denom@, local_denom@));
                self.fees = Some(table);
            },
            None => {},
        }
    }
}

/// What the memo of a transfer asks for.
#[derive(Debug)]
pub enum Memo {
    /// To send the transfer on.
    Forward { forward: PacketForward },
    /// Nothing.
    Empty,
}

/// The forward instruction of a memo that was understood, if it holds one.
pub open spec fn forward_of(memo: Option<Memo>) -> Option<PacketForward> {
    match memo {
        Some(Memo::Forward { forward }) => Some(forward),
        _ => None,
    }
}

/// The forward instruction of a memo, where the memo was understood and asks
/// for one.
pub fn forward_instruction(memo: Option<Memo>) -> (r: Option<PacketForward>)
    ensures
        r == forward_of(memo),
{
    match memo {
        Some(Memo::Forward { forward }) => Some(forward),
        _ => None,
    }
}

/// What is kept of a packet that was forwarded, under the identity of the
/// packet that forwards it: the packet that came in, and who sent it.
#[derive(Debug, PartialEq, Eq)]
pub struct InFlightPfmPacket {
    pub origin_sender_addr: String,
    pub origin_packet: IbcPacket,
    pub forward_timeout: Timestamp,
    pub forward_src_channel_id: String,
    pub forward_src_port_id: String,
}

pub struct InFlightPfmPacketView {
    pub origin_sender_addr: Seq<char>,
    pub origin_packet: IbcPacketView,
    pub forward_timeout: Timestamp,
    pub forward_src_channel_id: Seq<char>,
    pub forward_src_port_id: Seq<char>,
}

impl View for InFlightPfmPacket {
    type V = InFlightPfmPacketView;

    open spec fn view(&self) -> InFlightPfmPacketView {
        InFlightPfmPacketView {
            origin_sender_addr: self.origin_sender_addr@,
            origin_packet: self.origin_packet@,
            forward_timeout: self.forward_timeout,
            forward_src_channel_id: self.forward_src_channel_id@,
            forward_src_port_id: self.forward_src_port_id@,
        }
    }
}

impl Clone for InFlightPfmPacket {
    fn clone(&self) -> (r: Self)
        ensures
            r@ == self@,
    {
        InFlightPfmPacket {
            origin_sender_addr: self.origin_sender_addr.clone(),
            origin_packet: self.origin_packet.clone(),
            forward_timeout: self.forward_timeout,
            forward_src_channel_id: self.forward_src_channel_id.clone(),
            forward_src_port_id: self.forward_src_port_id.clone(),
        }
    }
}

} // verus!
