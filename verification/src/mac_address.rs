//! Bluetooth MAC addresses: six octets, ordered and printed most significant first.

use vstd::prelude::*;
use core::cmp::Ordering;
use vstd::std_specs::cmp::PartialOrdSpec;

verus! {

/// A 48-bit Bluetooth device address.
#[derive(Clone, Copy, Debug, PartialEq, Eq, Hash, Ord)]
pub struct MacAddress([u8; 6]);

/// The octets read as one big-endian 48-bit number.
pub open spec fn octets_value(b: Seq<u8>) -> int {
    b[0] * 0x100_0000_0000int + b[1] * 0x1_0000_0000int + b[2] * 0x100_0000int
        + b[3] * 0x1_0000int + b[4] * 0x100int + b[5]
}

/// The hexadecimal digit of `n` (below 16), in upper or lower case.
pub open spec fn hex_digit(n: int, upper: bool) -> char {
    if n < 10 {
        (('0' as int) + n) as char
    } else if upper {
        (('A' as int) + n - 10) as char
    } else {
        (('a' as int) + n - 10) as char
    }
}

/// The two hexadecimal digits of one octet.
pub open spec fn octet_text(b: u8, upper: bool) -> Seq<char> {
    seq![hex_digit((b / 16) as int, upper), hex_digit((b % 16) as int, upper)]
}

/// The six octets as two-digit hexadecimal groups joined by colons,
/// such as `0A:1B:2C:3D:4E:5F`.
pub open spec fn mac_text(b: Seq<u8>, upper: bool) -> Seq<char> {
    octet_text(b[0], upper) + seq![':'] + octet_text(b[1], upper) + seq![':'] + octet_text(
        b[2],
        upper,
    ) + seq![':'] + octet_text(b[3], upper) + seq![':'] + octet_text(b[4], upper) + seq![':']
        + octet_text(b[5], upper)
}

impl View for MacAddress {
    type V = Seq<u8>;

    closed spec fn view(&self) -> Seq<u8> {
        self.0@
    }
}

/// Turns a sequence of characters into a `String`.
#[verifier::external_body]
pub(crate) fn string_from_chars(chars: &Vec<char>) -> (r: String)
    ensures
        r@ == chars@,
{
    chars.iter().collect()
}

fn push_hex_digit(out: &mut Vec<char>, n: u8, upper: bool)
    requires
        n < 16,
    ensures
        final(out)@ == old(out)@.push(hex_digit(n as int, upper)),
{
    let c: char = if n < 10 {
        (('0' as u8) + n) as char
    } else if upper {
        (('A' as u8) + n - 10) as char
    } else {
        (('a' as u8) + n - 10) as char
    };
    out.push(c);
}

impl MacAddress {
    /// The address with the given octets, most significant first.
    pub fn from_octets(octets: [u8; 6]) -> (r: MacAddress)
        ensures
            r@ == octets@,
    {
        MacAddress(octets)
    }

    /// The six octets, most significant first.
    pub fn octets(&self) -> (r: [u8; 6])
        ensures
            r@ == self@,
    {
        self.0
    }

    /// The address as a 48-bit number; addresses are ordered by it.
    pub open spec fn value(self) -> int {
        octets_value(self@)
    }

    /// The address as a 48-bit number, by which addresses are ordered.
    pub fn key(&self) -> (r: u64)
        ensures
            r == self.value(),
    {
        (self.0[0] as u64) * 0x100_0000_0000 + (self.0[1] as u64) * 0x1_0000_0000 + (
        self.0[2] as u64) * 0x100_0000 + (self.0[3] as u64) * 0x1_0000 + (self.0[4] as u64)
            * 0x100 + (self.0[5] as u64)
    }

    /// Whether two addresses are the same.
    pub fn same_as(&self, other: &MacAddress) -> (r: bool)
        ensures
            r <==> self@ == other@,
    {
        let r = self.0[0] == other.0[0] && self.0[1] == other.0[1] && self.0[2] == other.0[2]
            && self.0[3] == other.0[3] && self.0[4] == other.0[4] && self.0[5] == other.0[5];
        proof {
            if r {
                assert(self@ =~= other@);
            }
        }
        r
    }

    fn hex_text(&self, upper: bool) -> (r: String)
        ensures
            r@ == mac_text(self@, upper),
    {
        let mut out: Vec<char> = Vec::new();
        let mut i: usize = 0;
        while i < 6
            invariant
                0 <= i <= 6,
                out@.len() == 3 * i - (if i > 0 { 1int } else { 0int }),
                i > 0 ==> out@ =~= mac_text(self@, upper).subrange(0, 3 * i - 1),
            decreases 6 - i,
        {
            if i > 0 {
                out.push(':');
            }
            let b = self.0[i];
            push_hex_digit(&mut out, b / 16, upper);
            push_hex_digit(&mut out, b % 16, upper);
            i = i + 1;
        }
        assert(out@ =~= mac_text(self@, upper));
        string_from_chars(&out)
    }

    /// The address in upper-case hexadecimal, such as `0A:1B:2C:3D:4E:5F`;
    /// also what the address prints as.
    pub fn to_upper_hex(&self) -> (r: String)
        ensures
            r@ == mac_text(self@, true),
    {
        self.hex_text(true)
    }

    /// The address in lower-case hexadecimal, such as `0a:1b:2c:3d:4e:5f`.
    pub fn to_lower_hex(&self) -> (r: String)
        ensures
            r@ == mac_text(self@, false),
    {
        self.hex_text(false)
    }
}

impl From<[u8; 6]> for MacAddress {
    fn from(octets: [u8; 6]) -> (r: MacAddress) {
        MacAddress(octets)
    }
}

impl vstd::std_specs::convert::FromSpecImpl<[u8; 6]> for MacAddress {
    open spec fn obeys_from_spec() -> bool {
        true
    }

    closed spec fn from_spec(v: [u8; 6]) -> MacAddress {
        MacAddress(v)
    }
}

impl From<MacAddress> for [u8; 6] {
    fn from(mac_address: MacAddress) -> (r: [u8; 6]) {
        mac_address.0
    }
}

impl vstd::std_specs::convert::FromSpecImpl<MacAddress> for [u8; 6] {
    open spec fn obeys_from_spec() -> bool {
        true
    }

    closed spec fn from_spec(v: MacAddress) -> [u8; 6] {
        v.0
    }
}

/// Turning an address into its octets and back gives the same address.
pub proof fn lemma_address_round_trip(m: MacAddress)
    ensures
        <MacAddress as vstd::std_specs::convert::FromSpec<[u8; 6]>>::from_spec(
            <[u8; 6] as vstd::std_specs::convert::FromSpec<MacAddress>>::from_spec(m),
        ) == m,
        <[u8; 6] as vstd::std_specs::convert::FromSpec<MacAddress>>::from_spec(m)@ == m@,
{
}

impl PartialOrd for MacAddress {
    fn partial_cmp(&self, other: &MacAddress) -> (r: Option<Ordering>) {
        let a = self.key();
        let b = other.key();
        if a < b {
            Some(Ordering::Less)
        } else if a == b {
            Some(Ordering::Equal)
        } else {
            Some(Ordering::Greater)
        }
    }
}

impl vstd::std_specs::cmp::PartialOrdSpecImpl for MacAddress {
    open spec fn obeys_partial_cmp_spec() -> bool {
        true
    }

    open spec fn partial_cmp_spec(&self, other: &MacAddress) -> Option<Ordering> {
        if self.value() < other.value() {
            Some(Ordering::Less)
        } else if self.value() == other.value() {
            Some(Ordering::Equal)
        } else {
            Some(Ordering::Greater)
        }
    }
}

/// Addresses are ordered octet by octet from the first: `a < b` exactly
/// when `a`'s octets come first, and they compare equal exactly when they
/// are the same address.
pub proof fn lemma_address_order(a: MacAddress, b: MacAddress)
    ensures
        a.partial_cmp_spec(&b) == Some(Ordering::Less) <==> octets_less(a@, b@),
        a.partial_cmp_spec(&b) == Some(Ordering::Equal) <==> a == b,
        a.partial_cmp_spec(&b) == Some(Ordering::Greater) <==> octets_less(b@, a@),
{
    lemma_value_order_is_octet_order(a, b);
    lemma_value_order_is_octet_order(b, a);
}

/// An address has six octets.
pub broadcast proof fn lemma_mac_len(m: MacAddress)
    ensures
        #[trigger] m@.len() == 6,
{
}

/// Building an address from octets keeps them: `from` followed by the reverse
/// `from` gives the octets back, and the address's view is those octets.
pub proof fn lemma_octets_round_trip(octets: [u8; 6])
    ensures
        <MacAddress as vstd::std_specs::convert::FromSpec<[u8; 6]>>::from_spec(octets)@ == octets@,
        <[u8; 6] as vstd::std_specs::convert::FromSpec<MacAddress>>::from_spec(
            <MacAddress as vstd::std_specs::convert::FromSpec<[u8; 6]>>::from_spec(octets),
        ) == octets,
{
}

/// Two addresses are the same exactly when their views are.
pub broadcast proof fn lemma_mac_view_injective(a: MacAddress, b: MacAddress)
    ensures
        #[trigger] a@ == #[trigger] b@ <==> a == b,
{
    if a@ == b@ {
        assert(a.0@ =~= b.0@);
        assert(a.0 == b.0);
    }
}

/// `a` comes before `b` when compared octet by octet from the first, as the
/// derived ordering of addresses compares them.
pub open spec fn octets_less(a: Seq<u8>, b: Seq<u8>) -> bool {
    a[0] < b[0] || (a[0] == b[0] && (a[1] < b[1] || (a[1] == b[1] && (a[2] < b[2] || (a[2] == b[2]
        && (a[3] < b[3] || (a[3] == b[3] && (a[4] < b[4] || (a[4] == b[4] && a[5] < b[5])))))))))
}

/// Ordering addresses by their 48-bit value is ordering them octet by
/// octet, so sorting by `key` sorts as the derived ordering does.
pub proof fn lemma_value_order_is_octet_order(a: MacAddress, b: MacAddress)
    ensures
        a.value() < b.value() <==> octets_less(a@, b@),
        a.value() == b.value() <==> a == b,
{
    let x = a@;
    let y = b@;
    assert(x.len() == 6 && y.len() == 6);
    if a.value() == b.value() {
        assert(x[0] == y[0]);
        assert(x[1] == y[1]);
        assert(x[2] == y[2]);
        assert(x[3] == y[3]);
        assert(x[4] == y[4]);
        assert(x[5] == y[5]);
        assert(x =~= y);
        lemma_mac_view_injective(a, b);
    }
}

} // verus!
