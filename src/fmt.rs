//! Text forms of link addresses.

use crate::address::{Address, Eui};
use vstd::prelude::*;

verus! {

/// The hexadecimal digit of a value below 16, in upper or lower case.
pub open spec fn hex_digit(n: u8, upper: bool) -> char {
    if n < 10 {
        ((n + 48) as u8) as char
    } else if upper {
        ((n + 55) as u8) as char
    } else {
        ((n + 87) as u8) as char
    }
}

/// An octet in hexadecimal, without leading zeros.
pub open spec fn hex_text(b: u8, upper: bool) -> Seq<char> {
    if b < 16 {
        seq![hex_digit(b, upper)]
    } else {
        seq![hex_digit(b / 16, upper), hex_digit(b % 16, upper)]
    }
}

/// The octets in hexadecimal, with `sep` before each octet whose index is a nonzero multiple
/// of `group`.
pub open spec fn hex_join(octets: Seq<u8>, sep: Seq<char>, group: nat, upper: bool) -> Seq<char>
    decreases octets.len(),
{
    if octets.len() == 0 {
        seq![]
    } else {
        let i = octets.len() - 1;
        hex_join(octets.drop_last(), sep, group, upper) + (if i > 0 && i % (group as int) == 0 {
            sep
        } else {
            seq![]
        }) + hex_text(octets.last(), upper)
    }
}

fn digit_str(n: u8, upper: bool) -> (r: &'static str)
    requires
        n < 16,
    ensures
        r@ == seq![hex_digit(n, upper)],
{
    if n == 0 {
        proof {
            reveal_strlit("0");
        }
        "0"
    } else if n == 1 {
        proof {
            reveal_strlit("1");
        }
        "1"
    } else if n == 2 {
        proof {
            reveal_strlit("2");
        }
        "2"
    } else if n == 3 {
        proof {
            reveal_strlit("3");
        }
        "3"
    } else if n == 4 {
        proof {
            reveal_strlit("4");
        }
        "4"
    } else if n == 5 {
        proof {
            reveal_strlit("5");
        }
        "5"
    } else if n == 6 {
        proof {
            reveal_strlit("6");
        }
        "6"
    } else if n == 7 {
        proof {
            reveal_strlit("7");
        }
        "7"
    } else if n == 8 {
        proof {
            reveal_strlit("8");
        }
        "8"
    } else if n == 9 {
        proof {
            reveal_strlit("9");
        }
        "9"
    } else if n == 10 && upper {
        proof {
            reveal_strlit("A");
        }
        "A"
    } else if n == 11 && upper {
        proof {
            reveal_strlit("B");
        }
        "B"
    } else if n == 12 && upper {
        proof {
            reveal_strlit("C");
        }
        "C"
    } else if n == 13 && upper {
        proof {
            reveal_strlit("D");
        }
        "D"
    } else if n == 14 && upper {
        proof {
            reveal_strlit("E");
        }
        "E"
    } else if n == 15 && upper {
        proof {
            reveal_strlit("F");
        }
        "F"
    } else if n == 10 {
        proof {
            reveal_strlit("a");
        }
        "a"
    } else if n == 11 {
        proof {
            reveal_strlit("b");
        }
        "b"
    } else if n == 12 {
        proof {
            reveal_strlit("c");
        }
        "c"
    } else if n == 13 {
        proof {
            reveal_strlit("d");
        }
        "d"
    } else if n == 14 {
        proof {
            reveal_strlit("e");
        }
        "e"
    } else {
        proof {
            reveal_strlit("f");
        }
        "f"
    }
}

fn push_hex(out: &mut String, b: u8, upper: bool)
    ensures
        final(out)@ == old(out)@ + hex_text(b, upper),
{
    if b >= 16 {
        out.append(digit_str(b / 16, upper));
        out.append(digit_str(b % 16, upper));
    } else {
        out.append(digit_str(b, upper));
    }
}

fn join_hex(octets: &[u8], sep: &str, group: usize, upper: bool) -> (r: String)
    requires
        group > 0,
    ensures
        r@ == hex_join(octets@, sep@, group as nat, upper),
{
    let mut out = String::new();
    let mut i: usize = 0;
    while i < octets.len()
        invariant
            0 <= i <= octets@.len(),
            group > 0,
            out@ == hex_join(octets@.subrange(0, i as int), sep@, group as nat, upper),
        decreases octets@.len() - i,
    {
        assert(octets@.subrange(0, i + 1).drop_last() =~= octets@.subrange(0, i as int));
        if i > 0 && i % group == 0 {
            out.append(sep);
        } else {
            assert(out@ + seq![] =~= out@);
        }
        push_hex(&mut out, octets[i], upper);
        i = i + 1;
    }
    assert(octets@.subrange(0, i as int) =~= octets@);
    out
}

/// Writes an address as octets separated by hyphens, as in "01-23-45-67-89-AB".
pub struct Hyphen<'a, T: 'a>(pub &'a T);

impl<'a, T: Eui> Hyphen<'a, Address<T>> {
    /// The hyphen form in upper-case hexadecimal.
    pub fn upper_hex(&self) -> (r: String)
        ensures
            r@ == hex_join(self.0.inner().octets(), seq!['-'], 1, true),
    {
        proof {
            reveal_strlit("-");
        }
        let sep = "-";
        assert(sep@ == seq!['-']);
        join_hex(self.0.inner_ref().octet_slice(), sep, 1, true)
    }

    /// The hyphen form in lower-case hexadecimal.
    pub fn lower_hex(&self) -> (r: String)
        ensures
            r@ == hex_join(self.0.inner().octets(), seq!['-'], 1, false),
    {
        proof {
            reveal_strlit("-");
        }
        let sep = "-";
        assert(sep@ == seq!['-']);
        join_hex(self.0.inner_ref().octet_slice(), sep, 1, false)
    }
}

/// Writes an address as octets separated by colons, as in "01:23:45:67:89:AB".
pub struct Colon<'a, T: 'a>(pub &'a T);

impl<'a, T: Eui> Colon<'a, Address<T>> {
    /// The colon form in upper-case hexadecimal.
    pub fn upper_hex(&self) -> (r: String)
        ensures
            r@ == hex_join(self.0.inner().octets(), seq![':'], 1, true),
    {
        proof {
            reveal_strlit(":");
        }
        let sep = ":";
        assert(sep@ == seq![':']);
        join_hex(self.0.inner_ref().octet_slice(), sep, 1, true)
    }

    /// The colon form in lower-case hexadecimal.
    pub fn lower_hex(&self) -> (r: String)
        ensures
            r@ == hex_join(self.0.inner().octets(), seq![':'], 1, false),
    {
        proof {
            reveal_strlit(":");
        }
        let sep = ":";
        assert(sep@ == seq![':']);
        join_hex(self.0.inner_ref().octet_slice(), sep, 1, false)
    }
}

/// Writes an address as pairs of octets separated by dots, as in "0123.4567.89AB".
pub struct Dot<'a, T: 'a>(pub &'a T);

impl<'a, T: Eui> Dot<'a, Address<T>> {
    /// The dot form in upper-case hexadecimal.
    pub fn upper_hex(&self) -> (r: String)
        ensures
            r@ == hex_join(self.0.inner().octets(), seq!['.'], 2, true),
    {
        proof {
            reveal_strlit(".");
        }
        let sep = ".";
        assert(sep@ == seq!['.']);
        join_hex(self.0.inner_ref().octet_slice(), sep, 2, true)
    }

    /// The dot form in lower-case hexadecimal.
    pub fn lower_hex(&self) -> (r: String)
        ensures
            r@ == hex_join(self.0.inner().octets(), seq!['.'], 2, false),
    {
        proof {
            reveal_strlit(".");
        }
        let sep = ".";
        assert(sep@ == seq!['.']);
        join_hex(self.0.inner_ref().octet_slice(), sep, 2, false)
    }
}

} // verus!
