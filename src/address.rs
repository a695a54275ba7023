//! EUI-48 and EUI-64 link addresses.

use vstd::prelude::*;

verus! {

/// The kind of transmission that an address is for.
#[derive(Clone, Copy, PartialEq, Eq, Debug, Structural)]
pub enum Transmission {
    /// Meant for several controllers
    Multicast,
    /// Meant for one controller
    Unicast,
}

/// Who assigned an address.
#[derive(Clone, Copy, PartialEq, Eq, Debug, Structural)]
pub enum Admin {
    /// Assigned to the device by its manufacturer
    Universal,
    /// Assigned by the network administrator
    Local,
}

/// A 6-octet address value.
pub type Eui48 = [u8; 6];

/// An 8-octet address value.
pub type Eui64 = [u8; 8];

/// The transmission kind given by the low bit of the first octet.
pub open spec fn transmission_of(octets: Seq<u8>) -> Transmission {
    if octets[0] & 1 == 1 {
        Transmission::Multicast
    } else {
        Transmission::Unicast
    }
}

/// The administration kind given by the second-lowest bit of the first octet.
pub open spec fn admin_of(octets: Seq<u8>) -> Admin {
    if (octets[0] >> 1u8) & 1 == 1 {
        Admin::Local
    } else {
        Admin::Universal
    }
}

/// Classification reads the two low bits of the first octet and nothing else: octet
/// strings that agree there classify alike.
pub proof fn lemma_classification_low_bits(a: Seq<u8>, b: Seq<u8>)
    requires
        a.len() > 0,
        b.len() > 0,
        a[0] & 3 == b[0] & 3,
    ensures
        transmission_of(a) == transmission_of(b),
        admin_of(a) == admin_of(b),
{
    let x = a[0];
    let y = b[0];
    assert((x & 1 == y & 1) && ((x >> 1u8) & 1 == (y >> 1u8) & 1)) by (bit_vector)
        requires
            x & 3 == y & 3,
    ;
}

/// A byte with its eight bits in the opposite order.
pub open spec fn reverse_byte(b: u8) -> u8 {
    ((b & 0x01) << 7u8) | ((b & 0x02) << 5u8) | ((b & 0x04) << 3u8) | ((b & 0x08) << 1u8)
        | ((b & 0x10) >> 1u8) | ((b & 0x20) >> 3u8) | ((b & 0x40) >> 5u8) | ((b & 0x80) >> 7u8)
}

/// The octets in the opposite order, each with its bits reversed: the whole bit string reversed.
pub open spec fn reverse_octets(octets: Seq<u8>) -> Seq<u8> {
    Seq::new(octets.len(), |i: int| reverse_byte(octets[octets.len() - 1 - i]))
}

fn reverse_byte_exec(b: u8) -> (r: u8)
    ensures
        r == reverse_byte(b),
{
    ((b & 0x01) << 7u8) | ((b & 0x02) << 5u8) | ((b & 0x04) << 3u8) | ((b & 0x08) << 1u8)
        | ((b & 0x10) >> 1u8) | ((b & 0x20) >> 3u8) | ((b & 0x40) >> 5u8) | ((b & 0x80) >> 7u8)
}

/// Keeps `Eui` to the octet arrays of this module.
pub trait Sealed {}

/// An octet array that can stand in an address.
pub trait Eui: Sealed {
    /// The octets of the value.
    spec fn octets(&self) -> Seq<u8>;

    /// Classifies the value as multicast or unicast.
    fn transmission(&self) -> (r: Transmission)
        ensures
            r == transmission_of(self.octets()),
    ;

    /// Classifies the value as universally or locally administered.
    fn admin(&self) -> (r: Admin)
        ensures
            r == admin_of(self.octets()),
    ;

    /// Reverses the bit string of the value in place.
    fn reverse_bits(&mut self)
        ensures
            final(self).octets() == reverse_octets(old(self).octets()),
    ;

    /// The octets of the value, as a slice.
    fn octet_slice(&self) -> (r: &[u8])
        ensures
            r@ == self.octets(),
    ;
}

impl Sealed for Eui48 {}

impl Eui for Eui48 {
    open spec fn octets(&self) -> Seq<u8> {
        self@
    }

    fn transmission(&self) -> (r: Transmission) {
        if self[0] & 1 == 1 {
            Transmission::Multicast
        } else {
            Transmission::Unicast
        }
    }

    fn admin(&self) -> (r: Admin) {
        if (self[0] >> 1u8) & 1 == 1 {
            Admin::Local
        } else {
            Admin::Universal
        }
    }

    fn reverse_bits(&mut self) {
        let orig: [u8; 6] = *self;
        let mut i: usize = 0;
        while i < 6
            invariant
                0 <= i <= 6,
                orig@.len() == 6,
                self@.len() == 6,
                forall|j: int| 0 <= j < i ==> self@[j] == reverse_byte(orig@[5 - j]),
            decreases 6 - i,
        {
            let b = reverse_byte_exec(orig[5 - i]);
            self[i] = b;
            i = i + 1;
        }
        assert(self@ =~= reverse_octets(orig@));
    }

    fn octet_slice(&self) -> (r: &[u8]) {
        self.as_slice()
    }
}

impl Sealed for Eui64 {}

impl Eui for Eui64 {
    open spec fn octets(&self) -> Seq<u8> {
        self@
    }

    fn transmission(&self) -> (r: Transmission) {
        if self[0] & 1 == 1 {
            Transmission::Multicast
        } else {
            Transmission::Unicast
        }
    }

    fn admin(&self) -> (r: Admin) {
        if (self[0] >> 1u8) & 1 == 1 {
            Admin::Local
        } else {
            Admin::Universal
        }
    }

    fn reverse_bits(&mut self) {
        let orig: [u8; 8] = *self;
        let mut i: usize = 0;
        while i < 8
            invariant
                0 <= i <= 8,
                orig@.len() == 8,
                self@.len() == 8,
                forall|j: int| 0 <= j < i ==> self@[j] == reverse_byte(orig@[7 - j]),
            decreases 8 - i,
        {
            let b = reverse_byte_exec(orig[7 - i]);
            self[i] = b;
            i = i + 1;
        }
        assert(self@ =~= reverse_octets(orig@));
    }

    fn octet_slice(&self) -> (r: &[u8]) {
        self.as_slice()
    }
}

/// A link address over an octet array.
#[derive(Copy, Clone, PartialEq, Eq, PartialOrd, Ord, Debug)]
pub struct Address<T>(T);

impl<T> Address<T> {
    /// The octet array inside the address.
    pub closed spec fn inner(self) -> T {
        self.0
    }

    /// Creates an address over the given octet array.
    pub fn new(inner: T) -> (r: Self)
        ensures
            r.inner() == inner,
    {
        Address(inner)
    }

    pub(crate) fn inner_ref(&self) -> (r: &T)
        ensures
            *r == self.inner(),
    {
        &self.0
    }

    /// Gets the octet array of the address.
    pub fn get(self) -> (r: T)
        ensures
            r == self.inner(),
    {
        self.0
    }
}

impl<T> AsRef<T> for Address<T> {
    fn as_ref(&self) -> &T {
        &self.0
    }
}

impl<T> core::borrow::Borrow<T> for Address<T> {
    fn borrow(&self) -> &T {
        &self.0
    }
}

impl<T> AsMut<T> for Address<T> {
    fn as_mut(&mut self) -> &mut T {
        &mut self.0
    }
}

impl<T> core::borrow::BorrowMut<T> for Address<T> {
    fn borrow_mut(&mut self) -> &mut T {
        &mut self.0
    }
}

impl<T> From<T> for Address<T> {
    fn from(t: T) -> (r: Address<T>) {
        Address(t)
    }
}

impl<T> vstd::std_specs::convert::FromSpecImpl<T> for Address<T> {
    open spec fn obeys_from_spec() -> bool {
        true
    }

    closed spec fn from_spec(t: T) -> Address<T> {
        Address(t)
    }
}

impl<T: Eui> Address<T> {
    /// Whether the address is for a multicast or a unicast transmission.
    pub fn transmission(&self) -> (r: Transmission)
        ensures
            r == transmission_of(self.inner().octets()),
    {
        self.0.transmission()
    }

    /// Whether the address was assigned universally or locally.
    pub fn admin(&self) -> (r: Admin)
        ensures
            r == admin_of(self.inner().octets()),
    {
        self.0.admin()
    }

    /// Whether this is a multicast address.
    pub fn is_multicast(&self) -> (r: bool)
        ensures
            r == (transmission_of(self.inner().octets()) == Transmission::Multicast),
    {
        self.transmission() == Transmission::Multicast
    }

    /// Whether this is a unicast address.
    pub fn is_unicast(&self) -> (r: bool)
        ensures
            r == (transmission_of(self.inner().octets()) == Transmission::Unicast),
    {
        self.transmission() == Transmission::Unicast
    }

    /// Whether this address was assigned by the manufacturer.
    pub fn is_universal(&self) -> (r: bool)
        ensures
            r == (admin_of(self.inner().octets()) == Admin::Universal),
    {
        self.admin() == Admin::Universal
    }

    /// Whether this address was assigned by the network.
    pub fn is_local(&self) -> (r: bool)
        ensures
            r == (admin_of(self.inner().octets()) == Admin::Local),
    {
        self.admin() == Admin::Local
    }

    /// Reverses the bits of the address in place, for bit-reversed transmission.
    pub fn reverse_bits(&mut self)
        ensures
            final(self).inner().octets() == reverse_octets(old(self).inner().octets()),
    {
        self.0.reverse_bits()
    }
}

impl Address<Eui48> {
    /// The address with all octets zero.
    pub fn zero() -> (r: Self)
        ensures
            r.inner()@ == seq![0u8, 0u8, 0u8, 0u8, 0u8, 0u8],
    {
        let r = Address([0x00, 0x00, 0x00, 0x00, 0x00, 0x00]);
        assert(r.inner()@ =~= seq![0u8, 0u8, 0u8, 0u8, 0u8, 0u8]);
        r
    }

    /// The broadcast address, received by every interface.
    pub fn broadcast() -> (r: Self)
        ensures
            r.inner()@ == seq![0xFFu8, 0xFFu8, 0xFFu8, 0xFFu8, 0xFFu8, 0xFFu8],
    {
        let r = Address([0xFF, 0xFF, 0xFF, 0xFF, 0xFF, 0xFF]);
        assert(r.inner()@ =~= seq![0xFFu8, 0xFFu8, 0xFFu8, 0xFFu8, 0xFFu8, 0xFFu8]);
        r
    }

    /// The modified EUI-64 interface identifier built from this address.
    pub fn to_interface(&self) -> (r: Address<Eui64>)
        ensures
            ({
                let a = self.inner()@;
                r.inner()@ == seq![a[0] ^ 0x02, a[1], a[2], 0xFFu8, 0xFEu8, a[3], a[4], a[5]]
            }),
    {
        let arr = &self.0;
        let r = Address([arr[0] ^ 0x02, arr[1], arr[2], 0xFF, 0xFE, arr[3], arr[4], arr[5]]);
        assert(r.inner()@ =~= seq![arr@[0] ^ 0x02, arr@[1], arr@[2], 0xFFu8, 0xFEu8, arr@[3], arr@[4], arr@[5]]);
        r
    }
}

impl Address<Eui64> {
    /// The address with all octets zero.
    pub fn zero() -> (r: Self)
        ensures
            r.inner()@ == seq![0u8, 0u8, 0u8, 0u8, 0u8, 0u8, 0u8, 0u8],
    {
        let r = Address([0x00, 0x00, 0x00, 0x00, 0x00, 0x00, 0x00, 0x00]);
        assert(r.inner()@ =~= seq![0u8, 0u8, 0u8, 0u8, 0u8, 0u8, 0u8, 0u8]);
        r
    }

    /// The broadcast address, received by every interface.
    pub fn broadcast() -> (r: Self)
        ensures
            r.inner()@ == seq![0xFFu8, 0xFFu8, 0xFFu8, 0xFFu8, 0xFFu8, 0xFFu8, 0xFFu8, 0xFFu8],
    {
        let r = Address([0xFF, 0xFF, 0xFF, 0xFF, 0xFF, 0xFF, 0xFF, 0xFF]);
        assert(r.inner()@ =~= seq![0xFFu8, 0xFFu8, 0xFFu8, 0xFFu8, 0xFFu8, 0xFFu8, 0xFFu8, 0xFFu8]);
        r
    }
}

impl Default for Address<Eui48> {
    fn default() -> (r: Self)
        ensures
            r.inner()@ == seq![0u8, 0u8, 0u8, 0u8, 0u8, 0u8],
    {
        Self::zero()
    }
}

impl Default for Address<Eui64> {
    fn default() -> (r: Self)
        ensures
            r.inner()@ == seq![0u8, 0u8, 0u8, 0u8, 0u8, 0u8, 0u8, 0u8],
    {
        Self::zero()
    }
}

} // verus!
