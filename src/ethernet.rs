//! Ethernet frame headers.

use crate::address::{Address, Eui48};
use crate::payload;
use crate::physical;
use crate::vlan;
use vstd::prelude::*;

verus! {

/// The least length of an Ethernet payload.
pub const MIN_PAYLOAD_LEN: usize = 46;

/// The greatest length of an Ethernet frame payload.
pub const MAX_PAYLOAD_LEN: usize = 1500;

/// The greatest length of a jumbo Ethernet frame payload.
pub const MAX_JUMBO_PAYLOAD_LEN: usize = 9000;

/// The ethertype of IPv4 payloads.
pub const IPV4: u16 = 0x0800;

/// The ethertype that introduces a single VLAN header.
pub const DOT1Q: u16 = 0x8100;

/// The ethertype that introduces a stacked (Q-in-Q) VLAN header.
pub const QINQ: u16 = 0x88a8;

/// A double-octet EtherType value.
#[derive(Copy, Clone, PartialEq, Eq, Debug, Structural)]
pub struct EtherType(pub u16);

/// A link address of six octets.
pub type MacAddr = Address<Eui48>;

/// The length field of a frame points past the end of its bytes.
#[derive(Copy, Clone, PartialEq, Eq, Debug)]
pub struct InvalidLengthError(());

/// An Ethernet header whose type-or-length field is not yet interpreted: either a frame
/// with a payload length or a frame with an ethertype.
#[derive(Clone, Debug)]
pub struct EthernetBase<V, P> {
    /// The destination address of the frame
    pub destination: MacAddr,
    /// The source address of the frame
    pub source: MacAddr,
    /// The VLAN extension of the frame
    pub vlan: V,
    /// The type or length of the frame
    pub type_or_length: u16,
    /// The payload of the frame
    pub payload: P,
}

impl<V, P> EthernetBase<V, P> {
    /// Reads the type-or-length field as a payload length.
    pub fn length(&self) -> (r: u16)
        ensures
            r == self.type_or_length,
    {
        self.type_or_length
    }

    /// Reads the type-or-length field as an ethertype.
    pub fn ethertype(&self) -> (r: EtherType)
        ensures
            r == EtherType(self.type_or_length),
    {
        EtherType(self.type_or_length)
    }

    /// Replaces the type-or-length field, the VLAN extension and the payload with what `f`
    /// makes of them, keeping the addresses.
    pub fn map_vlan<W, Q, F: FnOnce(u16, V, P) -> (u16, W, Q)>(self, f: F) -> (r: EthernetBase<W, Q>)
        requires
            f.requires((self.type_or_length, self.vlan, self.payload)),
        ensures
            r.destination == self.destination,
            r.source == self.source,
            f.ensures(
                (self.type_or_length, self.vlan, self.payload),
                (r.type_or_length, r.vlan, r.payload),
            ),
    {
        let EthernetBase { destination, source, vlan, type_or_length, payload } = self;
        let (type_or_length, vlan, payload) = f(type_or_length, vlan, payload);
        EthernetBase { destination, source, type_or_length, vlan, payload }
    }

    /// Replaces the type-or-length field, the VLAN extension and the payload as `map_vlan`
    /// does, where `f` may fail with an error of its own.
    pub fn try_map_vlan<W, Q, E, F: FnOnce(u16, V, P) -> Result<(u16, W, Q), E>>(self, f: F) -> (r:
        Result<EthernetBase<W, Q>, E>)
        requires
            f.requires((self.type_or_length, self.vlan, self.payload)),
        ensures
            r matches Ok(b) ==> b.destination == self.destination && b.source == self.source
                && f.ensures(
                (self.type_or_length, self.vlan, self.payload),
                Ok((b.type_or_length, b.vlan, b.payload)),
            ),
            r matches Err(e) ==> f.ensures(
                (self.type_or_length, self.vlan, self.payload),
                Err(e),
            ),
    {
        let EthernetBase { destination, source, vlan, type_or_length, payload } = self;
        match f(type_or_length, vlan, payload) {
            Ok((type_or_length, vlan, payload)) => Ok(
                EthernetBase { destination, source, type_or_length, vlan, payload },
            ),
            Err(e) => Err(e),
        }
    }

    /// Replaces the type-or-length field and the VLAN extension with what `f` makes of
    /// them, keeping the addresses and the payload.
    pub fn map_vlan_no_payload<W, F: FnOnce(u16, V) -> (u16, W)>(self, f: F) -> (r: EthernetBase<W, P>)
        requires
            f.requires((self.type_or_length, self.vlan)),
        ensures
            r.destination == self.destination,
            r.source == self.source,
            r.payload == self.payload,
            f.ensures((self.type_or_length, self.vlan), (r.type_or_length, r.vlan)),
    {
        let EthernetBase { destination, source, vlan, type_or_length, payload } = self;
        let (type_or_length, vlan) = f(type_or_length, vlan);
        EthernetBase { destination, source, type_or_length, vlan, payload }
    }

    /// Replaces the type-or-length field and the VLAN extension as `map_vlan_no_payload`
    /// does, where `f` may fail with an error of its own.
    pub fn try_map_vlan_no_payload<W, E, F: FnOnce(u16, V) -> Result<(u16, W), E>>(self, f: F) -> (r:
        Result<EthernetBase<W, P>, E>)
        requires
            f.requires((self.type_or_length, self.vlan)),
        ensures
            r matches Ok(b) ==> b.destination == self.destination && b.source == self.source
                && b.payload == self.payload && f.ensures(
                (self.type_or_length, self.vlan),
                Ok((b.type_or_length, b.vlan)),
            ),
            r matches Err(e) ==> f.ensures((self.type_or_length, self.vlan), Err(e)),
    {
        let EthernetBase { destination, source, vlan, type_or_length, payload } = self;
        match f(type_or_length, vlan) {
            Ok((type_or_length, vlan)) => Ok(
                EthernetBase { destination, source, type_or_length, vlan, payload },
            ),
            Err(e) => Err(e),
        }
    }
}

/// The fields that a base header parsed from `s` holds: the two addresses, the
/// big-endian type-or-length field and the bytes after the 14-byte header.
pub open spec fn parsed_from<'a>(h: EthernetBase<vlan::Unknown, payload::Unknown<'a>>, s: Seq<u8>) -> bool {
    &&& h.destination.inner()@ == s.subrange(0, 6)
    &&& h.source.inner()@ == s.subrange(6, 12)
    &&& h.type_or_length == vlan::be16(s, 12)
    &&& h.payload@ == s.subrange(14, s.len() as int)
}

impl<'a> EthernetBase<vlan::Unknown, payload::Unknown<'a>> {
    /// Parses a base header from a byte buffer, or fails when it holds fewer than 14 bytes.
    pub fn parse(payload: payload::Unknown<'a>) -> (r: Result<Self, physical::Error>)
        ensures
            r is Ok <==> payload@.len() >= 14,
            r matches Ok(h) ==> parsed_from(h, payload@),
    {
        if payload.len() < 14 {
            Err(physical::Error)
        } else {
            Ok(Self::consume_unknown(payload))
        }
    }

    /// Parses a base header from a byte buffer that the caller knows to hold at least 14 bytes.
    pub fn parse_unchecked(payload: payload::Unknown<'a>) -> (r: Self)
        requires
            payload@.len() >= 14,
        ensures
            parsed_from(r, payload@),
    {
        Self::consume_unknown(payload)
    }

    fn consume_unknown(bytes: payload::Unknown<'a>) -> (r: Self)
        requires
            bytes@.len() >= 14,
        ensures
            parsed_from(r, bytes@),
    {
        let b = bytes.0;
        let dest = MacAddr::new([b[0], b[1], b[2], b[3], b[4], b[5]]);
        let src = MacAddr::new([b[6], b[7], b[8], b[9], b[10], b[11]]);
        let type_or_length = (b[12] as u16) * 256 + (b[13] as u16);
        let r = EthernetBase {
            destination: dest,
            source: src,
            vlan: vlan::Unknown(()),
            type_or_length,
            payload: bytes.consume(14),
        };
        assert(r.destination.inner()@ =~= bytes@.subrange(0, 6));
        assert(r.source.inner()@ =~= bytes@.subrange(6, 12));
        r
    }
}

impl<'a, V: vlan::Extension> EthernetBase<V, payload::Unknown<'a>> {
    /// Turns the base header into a frame with a payload length: the first
    /// `type_or_length` bytes are the payload and the rest is padding.
    pub fn unwrap_ethernet(self) -> (r: Ethernet<V, payload::Padded<&'a [u8], payload::Any<'a>>>)
        requires
            self.type_or_length <= self.payload@.len(),
        ensures
            r.destination == self.destination,
            r.source == self.source,
            r.vlan == self.vlan,
            r.payload.payload@ == self.payload@.subrange(0, self.type_or_length as int),
            r.payload.padding@ == self.payload@.subrange(
                self.type_or_length as int,
                self.payload@.len() as int,
            ),
    {
        let EthernetBase { destination, source, vlan, type_or_length, payload } = self;
        Ethernet { destination, source, vlan, payload: payload.as_padded_any(type_or_length as usize) }
    }

    /// Turns the base header into a frame with a payload length as `unwrap_ethernet` does,
    /// or fails when the length runs past the end of the bytes.
    pub fn try_unrwap_ethernet(self) -> (r: Result<
        Ethernet<V, payload::Padded<&'a [u8], payload::Any<'a>>>,
        InvalidLengthError,
    >)
        ensures
            r is Ok <==> self.type_or_length <= self.payload@.len(),
            r matches Ok(e) ==> e.destination == self.destination && e.source == self.source
                && e.vlan == self.vlan && e.payload.payload@
                == self.payload@.subrange(0, self.type_or_length as int)
                && e.payload.padding@ == self.payload@.subrange(
                self.type_or_length as int,
                self.payload@.len() as int,
            ),
    {
        let EthernetBase { destination, source, vlan, type_or_length, payload } = self;
        match payload.try_as_padded_any(type_or_length as usize) {
            Some(padded) => Ok(Ethernet { destination, source, vlan, payload: padded }),
            None => Err(InvalidLengthError(())),
        }
    }

    /// Turns the base header into a frame with an ethertype, leaving the payload as it is.
    pub fn unwrap_ethernet2(self) -> (r: Ethernet2<V, payload::Unknown<'a>>)
        ensures
            r.destination == self.destination,
            r.source == self.source,
            r.vlan == self.vlan,
            r.etype == EtherType(self.type_or_length),
            r.payload == self.payload,
    {
        let EthernetBase { destination, source, vlan, type_or_length, payload } = self;
        Ethernet2 { destination, source, vlan, etype: EtherType(type_or_length), payload }
    }
}

/// An Ethernet frame with a payload length field.
#[derive(Clone, PartialEq, Eq, Debug)]
pub struct Ethernet<V, P> {
    /// The destination address of the frame
    pub destination: MacAddr,
    /// The source address of the frame
    pub source: MacAddr,
    /// The VLAN extension of the frame
    pub vlan: V,
    /// The payload of the frame
    pub payload: P,
}

/// An Ethernet frame with an ethertype field.
#[derive(Clone, PartialEq, Eq, Debug)]
pub struct Ethernet2<V, P> {
    /// The destination address of the frame
    pub destination: MacAddr,
    /// The source address of the frame
    pub source: MacAddr,
    /// The VLAN extension of the frame
    pub vlan: V,
    /// The double octet in the ethertype position; while the VLAN extension is unknown,
    /// this may be the start of a VLAN header.
    pub etype: EtherType,
    /// The payload of the frame
    pub payload: P,
}

} // verus!
