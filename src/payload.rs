//! Borrowed views over byte payloads.

use crate::physical::Size;
use vstd::prelude::*;

verus! {

/// Marks a structure that carries no payload.
#[derive(Copy, Clone, PartialEq, Eq, PartialOrd, Ord, Debug, Default)]
pub struct Empty;

impl Size for Empty {
    open spec fn spec_size(&self) -> nat {
        0
    }

    fn size(&self) -> (r: usize) {
        0
    }
}

/// Bytes whose start or end is not yet determined: padding, unparsed header data or anything else.
#[derive(Copy, Clone, PartialEq, Eq, Debug)]
pub struct Unknown<'a>(pub &'a [u8]);

impl<'a> View for Unknown<'a> {
    type V = Seq<u8>;

    open spec fn view(&self) -> Seq<u8> {
        self.0@
    }
}

impl<'a> Unknown<'a> {
    /// Drops the first `amnt` bytes, returning the rest.
    pub fn consume(self, amnt: usize) -> (r: Self)
        requires
            amnt <= self@.len(),
        ensures
            r@ == self@.subrange(amnt as int, self@.len() as int),
            r@.len() == self@.len() - amnt,
    {
        self.consume_unchecked(amnt)
    }

    /// Drops the first `amnt` bytes, for callers that have already checked the bound.
    pub fn consume_unchecked(self, amnt: usize) -> (r: Self)
        requires
            amnt <= self@.len(),
        ensures
            r@ == self@.subrange(amnt as int, self@.len() as int),
    {
        let (_, rest) = self.0.split_at(amnt);
        Unknown(rest)
    }

    /// Splits the bytes into a payload of `length` bytes and the padding after it,
    /// or gives `None` when `length` runs past the end.
    pub fn try_as_padded_any(self, length: usize) -> (r: Option<Padded<&'a [u8], Any<'a>>>)
        ensures
            r is None <==> length > self@.len(),
            r matches Some(p) ==> p.payload@ == self@.subrange(0, length as int)
                && p.padding@ == self@.subrange(length as int, self@.len() as int),
    {
        if length > self.0.len() {
            None
        } else {
            Some(self.as_padded_any_unchecked(length))
        }
    }

    /// Splits the bytes into a payload of `length` bytes and the padding after it.
    pub fn as_padded_any(self, length: usize) -> (r: Padded<&'a [u8], Any<'a>>)
        requires
            length <= self@.len(),
        ensures
            r.payload@ == self@.subrange(0, length as int),
            r.padding@ == self@.subrange(length as int, self@.len() as int),
    {
        let (bytes, padding) = self.0.split_at(length);
        Padded { payload: Any(bytes), padding }
    }

    /// Splits the bytes as `as_padded_any` does, for callers that have already checked the bound.
    pub fn as_padded_any_unchecked(self, length: usize) -> (r: Padded<&'a [u8], Any<'a>>)
        requires
            length <= self@.len(),
        ensures
            r.payload@ == self@.subrange(0, length as int),
            r.padding@ == self@.subrange(length as int, self@.len() as int),
    {
        self.as_padded_any(length)
    }

    /// The number of bytes in the view.
    pub fn len(&self) -> (r: usize)
        ensures
            r == self@.len(),
    {
        self.0.len()
    }
}

impl<'a> From<Any<'a>> for Unknown<'a> {
    fn from(a: Any<'a>) -> (r: Unknown<'a>) {
        Unknown(a.0)
    }
}

impl<'a> vstd::std_specs::convert::FromSpecImpl<Any<'a>> for Unknown<'a> {
    open spec fn obeys_from_spec() -> bool {
        true
    }

    open spec fn from_spec(a: Any<'a>) -> Unknown<'a> {
        Unknown(a.0)
    }
}

impl<'a> From<&'a [u8]> for Unknown<'a> {
    fn from(s: &'a [u8]) -> (r: Unknown<'a>) {
        Unknown(s)
    }
}

impl<'a> vstd::std_specs::convert::FromSpecImpl<&'a [u8]> for Unknown<'a> {
    open spec fn obeys_from_spec() -> bool {
        true
    }

    open spec fn from_spec(s: &'a [u8]) -> Unknown<'a> {
        Unknown(s)
    }
}

impl<'a> core::ops::Deref for Unknown<'a> {
    type Target = [u8];

    fn deref(&self) -> &[u8] {
        self.0
    }
}

/// A payload known to be opaque, not yet parsed.
#[derive(Copy, Clone, PartialEq, Eq, Debug)]
pub struct Any<'a>(pub &'a [u8]);

impl<'a> View for Any<'a> {
    type V = Seq<u8>;

    open spec fn view(&self) -> Seq<u8> {
        self.0@
    }
}

impl<'a> From<Unknown<'a>> for Any<'a> {
    fn from(u: Unknown<'a>) -> (r: Any<'a>) {
        Any(u.0)
    }
}

impl<'a> vstd::std_specs::convert::FromSpecImpl<Unknown<'a>> for Any<'a> {
    open spec fn obeys_from_spec() -> bool {
        true
    }

    open spec fn from_spec(u: Unknown<'a>) -> Any<'a> {
        Any(u.0)
    }
}

impl<'a> Size for Any<'a> {
    open spec fn spec_size(&self) -> nat {
        self.0@.len()
    }

    fn size(&self) -> (r: usize) {
        self.0.len()
    }
}

/// A value repeated `length` times, as padding written to an output.
pub struct ValuePadding<T> {
    pub value: T,
    pub length: usize,
}

impl ValuePadding<u8> {
    /// Padding of `length` zero bytes.
    pub fn zero(length: usize) -> (r: ValuePadding<u8>)
        ensures
            r.value == 0,
            r.length == length,
    {
        ValuePadding { value: 0, length }
    }
}

impl<T: Size> Size for ValuePadding<T> {
    open spec fn spec_size(&self) -> nat {
        (self.value.spec_size() * self.length) as nat
    }

    fn size(&self) -> (r: usize) {
        if self.length == 0 {
            0
        } else {
            proof {
                vstd::arithmetic::mul::lemma_mul_inequality(1, self.length as int, self.value.spec_size() as int);
                vstd::arithmetic::mul::lemma_mul_is_commutative(self.length as int, self.value.spec_size() as int);
            }
            self.value.size() * self.length
        }
    }
}

/// A payload followed by trailing padding.
pub struct Padded<P, T> {
    pub payload: T,
    pub padding: P,
}

} // verus!
