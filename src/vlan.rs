//! VLAN header extensions of Ethernet frames.

use crate::ethernet::{EtherType, DOT1Q, QINQ};
use crate::payload;
use crate::physical::Size;
use vstd::prelude::*;

verus! {

/// A VLAN extension: no header, a single header, a stack of headers or an unparsed region.
pub trait Extension {}

/// A VLAN extension that starts with a tag.
pub trait Header: Extension {
    /// The leading tag.
    spec fn spec_tag(&self) -> Tag;

    /// Gets the leading tag.
    fn tag(&self) -> (r: &Tag)
        ensures
            *r == self.spec_tag(),
    ;
}

/// No extension header.
#[derive(Clone, Copy, PartialEq, Eq, PartialOrd, Ord, Debug, Default)]
pub struct Empty;

impl Extension for Empty {}

impl Size for Empty {
    open spec fn spec_size(&self) -> nat {
        0
    }

    fn size(&self) -> (r: usize) {
        0
    }
}

/// The priority level of a frame on its VLAN.
#[derive(Clone, Copy, PartialEq, Eq, PartialOrd, Ord, Debug, Structural)]
pub enum PriorityLevel {
    Background,
    BestEffort,
    ExcellentEffort,
    CriticalApplications,
    Video,
    Voice,
    InternetworkControl,
    NetworkControl,
}

/// The 3-bit code of a priority level.
pub open spec fn priority_code(p: PriorityLevel) -> u16 {
    match p {
        PriorityLevel::Background => 0,
        PriorityLevel::BestEffort => 1,
        PriorityLevel::ExcellentEffort => 2,
        PriorityLevel::CriticalApplications => 3,
        PriorityLevel::Video => 4,
        PriorityLevel::Voice => 5,
        PriorityLevel::InternetworkControl => 6,
        PriorityLevel::NetworkControl => 7,
    }
}

/// The priority level of a 3-bit code.
pub open spec fn priority_of_code(c: u16) -> PriorityLevel {
    if c == 0 {
        PriorityLevel::Background
    } else if c == 1 {
        PriorityLevel::BestEffort
    } else if c == 2 {
        PriorityLevel::ExcellentEffort
    } else if c == 3 {
        PriorityLevel::CriticalApplications
    } else if c == 4 {
        PriorityLevel::Video
    } else if c == 5 {
        PriorityLevel::Voice
    } else if c == 6 {
        PriorityLevel::InternetworkControl
    } else {
        PriorityLevel::NetworkControl
    }
}

impl PriorityLevel {
    fn code(self) -> (r: u16)
        ensures
            r == priority_code(self),
            r <= 7,
    {
        match self {
            PriorityLevel::Background => 0,
            PriorityLevel::BestEffort => 1,
            PriorityLevel::ExcellentEffort => 2,
            PriorityLevel::CriticalApplications => 3,
            PriorityLevel::Video => 4,
            PriorityLevel::Voice => 5,
            PriorityLevel::InternetworkControl => 6,
            PriorityLevel::NetworkControl => 7,
        }
    }
}

impl Default for PriorityLevel {
    fn default() -> (r: Self)
        ensures
            r == PriorityLevel::BestEffort,
    {
        PriorityLevel::BestEffort
    }
}

/// The 16-bit tag value with `priority` in the top 3 bits, `drop_eligible` in the next bit
/// and `id` in the low 12 bits.
pub open spec fn pack_tag(id: u16, priority: PriorityLevel, drop_eligible: bool) -> u16 {
    id | ((if drop_eligible { 1u16 } else { 0u16 }) << 12u16) | (priority_code(priority) << 13u16)
}

/// The priority level held in the top 3 bits of a tag value.
pub open spec fn tag_priority(v: u16) -> PriorityLevel {
    priority_of_code((v & 0xE000) >> 13u16)
}

/// The drop-eligible flag held in bit 12 of a tag value.
pub open spec fn tag_drop_eligible(v: u16) -> bool {
    v & 0x1000 != 0
}

/// The identifier held in the low 12 bits of a tag value.
pub open spec fn tag_identifier(v: u16) -> u16 {
    v & 0x0FFF
}

/// Unpacking a tag value packed from a valid identifier, a priority level and a flag
/// gives back those three fields.
pub proof fn lemma_tag_round_trip(id: u16, priority: PriorityLevel, drop_eligible: bool)
    requires
        id <= 0xFFF,
    ensures
        tag_priority(pack_tag(id, priority, drop_eligible)) == priority,
        tag_drop_eligible(pack_tag(id, priority, drop_eligible)) == drop_eligible,
        tag_identifier(pack_tag(id, priority, drop_eligible)) == id,
{
    let c = priority_code(priority);
    let b: u16 = if drop_eligible { 1 } else { 0 };
    assert(c <= 7);
    let v = id | (b << 12u16) | (c << 13u16);
    assert(((v & 0xE000) >> 13u16) == c && (((v & 0x1000) != 0) == (b == 1)) && (v & 0x0FFF) == id)
        by (bit_vector)
        requires
            id <= 0xFFF,
            c <= 7,
            b <= 1,
            v == id | (b << 12u16) | (c << 13u16),
    ;
}

/// A VLAN extension tag.
#[derive(Clone, Copy, PartialEq, Eq, Debug, Structural)]
pub struct Tag(u16);

impl View for Tag {
    type V = u16;

    closed spec fn view(&self) -> u16 {
        self.0
    }
}

impl Extension for Tag {}

impl Header for Tag {
    open spec fn spec_tag(&self) -> Tag {
        *self
    }

    fn tag(&self) -> (r: &Tag) {
        self
    }
}

impl Size for Tag {
    open spec fn spec_size(&self) -> nat {
        4
    }

    fn size(&self) -> (r: usize) {
        4
    }
}

impl Tag {
    /// Creates a tag from an identifier, a priority level and a drop eligibility.
    pub fn new(id: Identifier, priority: PriorityLevel, can_drop: bool) -> (r: Tag)
        ensures
            r@ == pack_tag(id@, priority, can_drop),
            tag_priority(r@) == priority,
            tag_drop_eligible(r@) == can_drop,
            tag_identifier(r@) == id@,
    {
        proof {
            use_type_invariant(&id);
            lemma_tag_round_trip(id@, priority, can_drop);
        }
        let d: u16 = if can_drop { 1 } else { 0 };
        Tag(id.0 | (d << 12u16) | (priority.code() << 13u16))
    }

    /// Creates a tag from its raw 16-bit value.
    pub fn raw(value: u16) -> (r: Tag)
        ensures
            r@ == value,
    {
        Tag(value)
    }

    /// Gets the priority level of the frame on its VLAN.
    pub fn priority(self) -> (r: PriorityLevel)
        ensures
            r == tag_priority(self@),
    {
        let c: u16 = (self.0 & 0xE000) >> 13u16;
        if c == 0 {
            PriorityLevel::Background
        } else if c == 1 {
            PriorityLevel::BestEffort
        } else if c == 2 {
            PriorityLevel::ExcellentEffort
        } else if c == 3 {
            PriorityLevel::CriticalApplications
        } else if c == 4 {
            PriorityLevel::Video
        } else if c == 5 {
            PriorityLevel::Voice
        } else if c == 6 {
            PriorityLevel::InternetworkControl
        } else {
            PriorityLevel::NetworkControl
        }
    }

    /// Gets whether the frame may be dropped when the network is congested.
    pub fn drop_eligible(self) -> (r: bool)
        ensures
            r == tag_drop_eligible(self@),
    {
        (self.0 & 0x1000) != 0
    }

    /// Gets the 12-bit VLAN identifier.
    pub fn identifier(self) -> (r: Identifier)
        ensures
            r@ == tag_identifier(self@),
    {
        let v = self.0;
        assert((v & 0x0FFF) <= 0xFFF) by (bit_vector);
        Identifier(v & 0x0FFF)
    }

    /// Gets the raw value of the tag.
    pub fn get(self) -> (r: u16)
        ensures
            r == self@,
    {
        self.0
    }
}

/// A 12-bit VLAN identifier.
#[derive(Copy, Clone, Debug, PartialEq, Eq, PartialOrd, Ord, Structural)]
pub struct Identifier(u16);

impl View for Identifier {
    type V = u16;

    closed spec fn view(&self) -> u16 {
        self.0
    }
}

impl Identifier {
    #[verifier::type_invariant]
    spec fn fits(self) -> bool {
        self.0 <= 0xFFF
    }

    /// The identifier that means that no VLAN identifier is present.
    pub fn none() -> (r: Identifier)
        ensures
            r@ == 0,
    {
        Identifier(0x000)
    }

    /// The reserved VLAN identifier.
    pub fn reserved() -> (r: Identifier)
        ensures
            r@ == 0xFFF,
    {
        Identifier(0xFFF)
    }

    /// Creates an identifier, or gives `None` when the value does not fit in 12 bits.
    pub fn new(v: u16) -> (r: Option<Identifier>)
        ensures
            r is None <==> v > 0xFFF,
            r matches Some(id) ==> id@ == v,
    {
        if v > 0xFFF {
            None
        } else {
            Some(Identifier(v))
        }
    }

    /// Creates an identifier from a value that the caller knows to fit in 12 bits.
    pub fn new_unchecked(v: u16) -> (r: Identifier)
        requires
            v <= 0xFFF,
        ensures
            r@ == v,
    {
        Identifier(v)
    }

    /// Gets the value of the identifier.
    pub fn get(self) -> (r: u16)
        ensures
            r == self@,
            r <= 0xFFF,
    {
        proof {
            use_type_invariant(&self);
        }
        self.0
    }
}

/// A VLAN tag followed by further VLAN extension headers.
#[derive(Copy, Clone, Debug, PartialEq, Eq)]
pub struct Stacked<V> {
    pub tag: Tag,
    pub remainder: V,
}

impl<V: Extension> Stacked<V> {
    /// Replaces the remainder with what `f` makes of it, keeping the tag.
    pub fn map_remainder<T, F: FnOnce(V) -> T>(self, f: F) -> (r: Stacked<T>)
        requires
            f.requires((self.remainder,)),
        ensures
            r.tag == self.tag,
            f.ensures((self.remainder,), r.remainder),
    {
        let Stacked { tag, remainder } = self;
        let remainder = f(remainder);
        Stacked { tag, remainder }
    }
}

impl<V: Extension> Extension for Stacked<V> {}

impl<V: Extension> Header for Stacked<V> {
    open spec fn spec_tag(&self) -> Tag {
        self.tag
    }

    fn tag(&self) -> (r: &Tag) {
        &self.tag
    }
}

impl<V: Size> Size for Stacked<V> {
    open spec fn spec_size(&self) -> nat {
        self.tag.spec_size() + self.remainder.spec_size()
    }

    fn size(&self) -> (r: usize) {
        self.tag.size() + self.remainder.size()
    }
}

/// The size of a stack of VLAN headers is that of its tag and its remainder together,
/// four bytes more than the remainder.
pub proof fn lemma_stacked_size<V: Size>(s: Stacked<V>)
    ensures
        s.spec_size() == s.tag.spec_size() + s.remainder.spec_size(),
        s.spec_size() == 4 + s.remainder.spec_size(),
{
}

/// Whether an ethertype introduces a VLAN header.
pub open spec fn is_vlan_type(t: u16) -> bool {
    t == DOT1Q || t == QINQ
}

/// The big-endian 16-bit value of the two bytes at `i`.
pub open spec fn be16(s: Seq<u8>, i: int) -> u16 {
    (s[i] as int * 256 + s[i + 1] as int) as u16
}

/// The type field of the `k`-th header of a VLAN region that `first` introduces: the first
/// is `first` itself, and each next one stands after the 2-byte tag of the one before.
pub open spec fn vlan_type_at(first: u16, s: Seq<u8>, k: int) -> u16 {
    if k == 0 {
        first
    } else {
        be16(s, 4 * k - 2)
    }
}

/// The VLAN region that `first` introduces in `s` holds exactly `h` headers: a run of
/// Q-in-Q headers ended by one single-tag header, after which a type or length field
/// that introduces no VLAN header follows within `s`.
pub open spec fn vlan_chain(first: u16, s: Seq<u8>, h: int) -> bool {
    &&& 1 <= h
    &&& 4 * h <= s.len()
    &&& forall|k: int| 0 <= k < h - 1 ==> #[trigger] vlan_type_at(first, s, k) == QINQ
    &&& vlan_type_at(first, s, h - 1) == DOT1Q
    &&& !is_vlan_type(vlan_type_at(first, s, h))
}

proof fn lemma_chain_reaches(first: u16, s: Seq<u8>, h: int, k: int)
    requires
        vlan_chain(first, s, h),
        0 <= k,
        forall|j: int| 0 <= j < k ==> #[trigger] vlan_type_at(first, s, j) == QINQ,
    ensures
        k <= h - 1,
{
    if h - 1 < k {
        assert(vlan_type_at(first, s, h - 1) == QINQ);
    }
}

fn read_be16(bytes: &[u8], i: usize) -> (r: u16)
    requires
        i + 1 < bytes@.len(),
    ensures
        r == be16(bytes@, i as int),
{
    (bytes[i] as u16) * 256 + (bytes[i + 1] as u16)
}

/// A VLAN chain does not match the convention: a Q-in-Q run not ended by a single-tag
/// header, bytes that run out within the chain, or a VLAN ethertype where the final type
/// or length was due.
#[derive(Copy, Clone, PartialEq, Eq, Debug)]
pub struct MalformedVlanError;

/// An unparsed run of VLAN headers, with the ethertype that introduced it.
#[derive(Copy, Clone, Debug, PartialEq, Eq)]
pub struct AnyHeader<'a> {
    first: EtherType,
    data: payload::Unknown<'a>,
}

impl<'a> AnyHeader<'a> {
    /// The ethertype of the leftmost header.
    pub closed spec fn spec_first(self) -> EtherType {
        self.first
    }

    /// The bytes of the run: each header's tag and the type fields between them.
    pub closed spec fn spec_data(self) -> Seq<u8> {
        self.data@
    }

    fn parse(ethertype: EtherType, payload: payload::Unknown<'a>) -> (r: Result<
        (u16, Self, payload::Unknown<'a>),
        MalformedVlanError,
    >)
        requires
            is_vlan_type(ethertype.0),
        ensures
            r is Ok <==> exists|h: int| vlan_chain(ethertype.0, payload@, h),
            forall|h: int|
                #[trigger] vlan_chain(ethertype.0, payload@, h) ==> (r matches Ok((last, hdr, rest))
                    && last == vlan_type_at(ethertype.0, payload@, h) && hdr.spec_first()
                    == ethertype && hdr.spec_data() == payload@.subrange(0, 4 * h - 2) && rest@
                    == payload@.subrange(4 * h - 2, payload@.len() as int)),
    {
        let bytes = payload.0;
        let len = bytes.len();
        let ghost first = ethertype.0;
        let ghost s = bytes@;
        let mut t: u16 = ethertype.0;
        let mut k: usize = 0;
        let mut pos: usize = 0;
        while t == QINQ
            invariant
                len == s.len(),
                s == payload@,
                bytes@ == s,
                first == ethertype.0,
                pos == 4 * k,
                pos <= len,
                t == vlan_type_at(first, s, k as int),
                forall|j: int| 0 <= j < k ==> #[trigger] vlan_type_at(first, s, j) == QINQ,
            decreases len - pos,
        {
            if len - pos < 4 {
                proof {
                    assert forall|h: int| !vlan_chain(first, s, h) by {
                        if vlan_chain(first, s, h) {
                            lemma_chain_reaches(first, s, h, k as int);
                        }
                    }
                }
                return Err(MalformedVlanError);
            }
            t = read_be16(bytes, pos + 2);
            k = k + 1;
            pos = pos + 4;
        }
        if t != DOT1Q || len - pos < 4 {
            proof {
                assert forall|h: int| !vlan_chain(first, s, h) by {
                    if vlan_chain(first, s, h) {
                        lemma_chain_reaches(first, s, h, k as int);
                        if k < h - 1 {
                            assert(vlan_type_at(first, s, k as int) == QINQ);
                        }
                    }
                }
            }
            return Err(MalformedVlanError);
        }
        let last = read_be16(bytes, pos + 2);
        assert(last == vlan_type_at(first, s, k + 1));
        if last == DOT1Q || last == QINQ {
            proof {
                assert forall|h: int| !vlan_chain(first, s, h) by {
                    if vlan_chain(first, s, h) {
                        lemma_chain_reaches(first, s, h, k as int);
                        if k < h - 1 {
                            assert(vlan_type_at(first, s, k as int) == QINQ);
                        }
                    }
                }
            }
            return Err(MalformedVlanError);
        }
        proof {
            assert(vlan_chain(first, s, k + 1));
            assert forall|h: int| #[trigger] vlan_chain(first, s, h) implies h == k + 1 by {
                lemma_chain_reaches(first, s, h, k as int);
                if k < h - 1 {
                    assert(vlan_type_at(first, s, k as int) == QINQ);
                }
            }
        }
        let (data, rest) = bytes.split_at(pos + 2);
        Ok((last, AnyHeader { first: ethertype, data: payload::Unknown(data) }, payload::Unknown(rest)))
    }

    /// Gets the ethertype of the leftmost VLAN header.
    pub fn first(&self) -> (r: EtherType)
        ensures
            r == self.spec_first(),
    {
        self.first
    }
}

/// A VLAN region that is not parsed yet: a run of headers, or none.
#[derive(Copy, Clone, Debug, PartialEq, Eq)]
pub enum Any<'a> {
    Present(AnyHeader<'a>),
    Absent,
}

impl<'a> Any<'a> {
    /// Parses the VLAN region that `ethertype` introduces at the start of `payload`, giving
    /// the type or length field after it, the region, and the bytes from that field on.
    pub fn parse(ethertype: EtherType, payload: payload::Unknown<'a>) -> (r: Result<
        (u16, Self, payload::Unknown<'a>),
        MalformedVlanError,
    >)
        ensures
            !is_vlan_type(ethertype.0) ==> r == Ok::<_, MalformedVlanError>(
                (ethertype.0, Any::Absent, payload),
            ),
            is_vlan_type(ethertype.0) ==> (r is Ok <==> exists|h: int|
                vlan_chain(ethertype.0, payload@, h)),
            forall|h: int|
                #[trigger] vlan_chain(ethertype.0, payload@, h) ==> (r matches Ok(
                    (last, Any::Present(hdr), rest),
                ) && last == vlan_type_at(ethertype.0, payload@, h) && hdr.spec_first()
                    == ethertype && hdr.spec_data() == payload@.subrange(0, 4 * h - 2) && rest@
                    == payload@.subrange(4 * h - 2, payload@.len() as int)),
    {
        if ethertype.0 == DOT1Q || ethertype.0 == QINQ {
            match AnyHeader::parse(ethertype, payload) {
                Ok((last, hdr, pld)) => Ok((last, Any::Present(hdr), pld)),
                Err(e) => Err(e),
            }
        } else {
            proof {
                assert forall|h: int| !vlan_chain(ethertype.0, payload@, h) by {
                    if vlan_chain(ethertype.0, payload@, h) {
                        if h > 1 {
                            assert(vlan_type_at(ethertype.0, payload@, 0) == QINQ);
                        }
                    }
                }
            }
            Ok((ethertype.0, Any::Absent, payload))
        }
    }

    /// Narrows a Q-in-Q region to its leading tag and the region after it.
    pub fn unwrap_stack(self) -> (r: Stacked<Any<'a>>)
        requires
            self matches Any::Present(h) && h.spec_first().0 == QINQ && h.spec_data().len() >= 4,
        ensures
            r.tag@ == be16(self->Present_0.spec_data(), 0),
            r.remainder matches Any::Present(n) && n.spec_first().0 == be16(
                self->Present_0.spec_data(),
                2,
            ) && n.spec_data() == self->Present_0.spec_data().subrange(
                4,
                self->Present_0.spec_data().len() as int,
            ),
            r.spec_size() == self.spec_size(),
    {
        match self {
            Any::Present(hdr) => {
                let data = hdr.data.0;
                let tag = Tag::raw(read_be16(data, 0));
                let next_type = EtherType(read_be16(data, 2));
                let (_, remainder) = data.split_at(4);
                Stacked {
                    tag,
                    remainder: Any::Present(
                        AnyHeader { first: next_type, data: payload::Unknown(remainder) },
                    ),
                }
            },
            Any::Absent => vstd::pervasive::unreached(),
        }
    }

    /// Narrows a single-tag region to its tag.
    pub fn unwrap_tag(self) -> (r: Tag)
        requires
            self matches Any::Present(h) && h.spec_first().0 == DOT1Q && h.spec_data().len() == 2,
        ensures
            r@ == be16(self->Present_0.spec_data(), 0),
    {
        match self {
            Any::Present(hdr) => Tag::raw(read_be16(hdr.data.0, 0)),
            Any::Absent => vstd::pervasive::unreached(),
        }
    }

    /// Narrows a region known to hold no header. To remove a VLAN header, drop it and use
    /// `Empty` instead.
    pub fn unwrap_empty(self) -> (r: Empty)
        requires
            self is Absent,
        ensures
            r == Empty,
    {
        Empty
    }
}

impl<'a> Extension for Any<'a> {}

impl<'a> Size for Any<'a> {
    open spec fn spec_size(&self) -> nat {
        match self {
            Any::Present(h) => h.spec_data().len() + 2,
            Any::Absent => 0,
        }
    }

    fn size(&self) -> (r: usize) {
        match self {
            Any::Present(h) => h.data.len() + 2,
            Any::Absent => 0,
        }
    }
}

/// Marks a frame of which it is not yet known whether it holds a VLAN header.
#[derive(Clone, Copy, Debug, PartialEq, Eq)]
pub struct Unknown(pub(crate) ());

} // verus!
