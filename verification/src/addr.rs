//! Internet addresses as the plain numbers that packages carry.
use vstd::prelude::*;
use vstd::std_specs::convert::FromSpecImpl;
use vstd::string::StringExecFns;
use crate::render::{decimal, decimal_string};

verus! {

/// An IPv4 address: its four octets, first octet first.
#[derive(Debug, Clone, Copy, PartialEq, Eq, Hash, Structural)]
pub struct Ipv4Addr(pub u8, pub u8, pub u8, pub u8);

/// An IPv6 address: its eight 16-bit groups, first group first.
#[derive(Debug, Clone, Copy, PartialEq, Eq, Hash, Structural)]
pub struct Ipv6Addr(pub u16, pub u16, pub u16, pub u16, pub u16, pub u16, pub u16, pub u16);

/// The two bytes of a 16-bit group, high byte first.
pub open spec fn group_be(group: u16) -> Seq<u8> {
    seq![(group / 256) as u8, (group % 256) as u8]
}

/// The 16-bit group that two bytes make, high byte first.
pub open spec fn group_from_be(high: u8, low: u8) -> u16 {
    (256 * high + low) as u16
}

impl Ipv4Addr {
    /// The broadcast address, 255.255.255.255.
    pub fn broadcast() -> (addr: Ipv4Addr)
        ensures
            addr == Ipv4Addr(255, 255, 255, 255),
    {
        Ipv4Addr(255, 255, 255, 255)
    }

    /// The four octets on the wire, first octet first.
    pub open spec fn wire(self) -> Seq<u8> {
        seq![self.0, self.1, self.2, self.3]
    }

    /// The address in the first four bytes of `bytes`.
    pub open spec fn parse(bytes: Seq<u8>) -> Ipv4Addr
        recommends
            bytes.len() >= 4,
    {
        Ipv4Addr(bytes[0], bytes[1], bytes[2], bytes[3])
    }

    /// The address `a.b.c.d`.
    pub fn new(a: u8, b: u8, c: u8, d: u8) -> (addr: Ipv4Addr)
        ensures
            addr == Ipv4Addr(a, b, c, d),
    {
        Ipv4Addr(a, b, c, d)
    }

    /// The four octets, first octet first.
    pub fn octets(&self) -> (octets: [u8; 4])
        ensures
            octets@ == self.wire(),
    {
        let octets = [self.0, self.1, self.2, self.3];
        assert(octets@ =~= self.wire());
        octets
    }

    /// Whether this is the broadcast address, 255.255.255.255.
    pub fn is_broadcast(&self) -> (b: bool)
        ensures
            b == (*self == Ipv4Addr(255, 255, 255, 255)),
    {
        self.0 == 255 && self.1 == 255 && self.2 == 255 && self.3 == 255
    }

    /// Appends the four octets.
    pub fn serialize(&self, writer: &mut Vec<u8>)
        ensures
            final(writer)@ == old(writer)@ + self.wire(),
    {
        writer.push(self.0);
        writer.push(self.1);
        writer.push(self.2);
        writer.push(self.3);
        assert(writer@ =~= old(writer)@ + self.wire());
    }

    /// The address in the four bytes from `at`, or `None` where the buffer
    /// ends before all four.
    pub fn deserialize(bytes: &[u8], at: usize) -> (r: Option<Ipv4Addr>)
        ensures
            r == if at + 4 <= bytes@.len() {
                Some(Ipv4Addr::parse(bytes@.subrange(at as int, at + 4)))
            } else {
                None
            },
    {
        if at > bytes.len() || bytes.len() - at < 4 {
            None
        } else {
            Some(Ipv4Addr(bytes[at], bytes[at + 1], bytes[at + 2], bytes[at + 3]))
        }
    }

    /// The diagnostic text of the address: the type's name, and in round
    /// brackets the four octets in decimal digits.
    pub open spec fn debug_text(self) -> Seq<char> {
        "Ipv4Addr("@ + decimal(self.0 as nat) + ", "@ + decimal(self.1 as nat) + ", "@ + decimal(
            self.2 as nat,
        ) + ", "@ + decimal(self.3 as nat) + ")"@
    }

    /// Writes the address out for diagnostics.
    pub fn debug_string(&self) -> (text: String)
        ensures
            text@ == self.debug_text(),
    {
        let mut text = String::from_str("Ipv4Addr(");
        text.append(decimal_string(self.0 as u32).as_str());
        text.append(", ");
        text.append(decimal_string(self.1 as u32).as_str());
        text.append(", ");
        text.append(decimal_string(self.2 as u32).as_str());
        text.append(", ");
        text.append(decimal_string(self.3 as u32).as_str());
        text.append(")");
        text
    }

    /// An address comes back from its octets.
    pub proof fn lemma_round_trip(self)
        ensures
            self.wire().len() == 4,
            Ipv4Addr::parse(self.wire()) == self,
    {
    }
}

impl From<[u8; 4]> for Ipv4Addr {
    fn from(octets: [u8; 4]) -> (addr: Ipv4Addr) {
        Ipv4Addr(octets[0], octets[1], octets[2], octets[3])
    }
}

impl FromSpecImpl<[u8; 4]> for Ipv4Addr {
    open spec fn obeys_from_spec() -> bool {
        true
    }

    /// The address whose octets are the array's elements, in their order.
    open spec fn from_spec(octets: [u8; 4]) -> Ipv4Addr {
        Ipv4Addr(octets[0], octets[1], octets[2], octets[3])
    }
}

impl From<u32> for Ipv4Addr {
    fn from(bits: u32) -> (addr: Ipv4Addr) {
        Ipv4Addr(
            (bits / 0x100_0000) as u8,
            (bits / 0x1_0000 % 0x100) as u8,
            (bits / 0x100 % 0x100) as u8,
            (bits % 0x100) as u8,
        )
    }
}

impl FromSpecImpl<u32> for Ipv4Addr {
    open spec fn obeys_from_spec() -> bool {
        true
    }

    /// The address whose first octet is the number's highest byte.
    open spec fn from_spec(bits: u32) -> Ipv4Addr {
        Ipv4Addr(
            (bits / 0x100_0000) as u8,
            (bits / 0x1_0000 % 0x100) as u8,
            (bits / 0x100 % 0x100) as u8,
            (bits % 0x100) as u8,
        )
    }
}

impl Ipv6Addr {
    /// The sixteen octets on the wire: each group high byte first, first
    /// group first.
    pub open spec fn wire(self) -> Seq<u8> {
        group_be(self.0) + group_be(self.1) + group_be(self.2) + group_be(self.3) + group_be(
            self.4,
        ) + group_be(self.5) + group_be(self.6) + group_be(self.7)
    }

    /// The address in the first sixteen bytes of `bytes`.
    pub open spec fn parse(bytes: Seq<u8>) -> Ipv6Addr
        recommends
            bytes.len() >= 16,
    {
        Ipv6Addr(
            group_from_be(bytes[0], bytes[1]),
            group_from_be(bytes[2], bytes[3]),
            group_from_be(bytes[4], bytes[5]),
            group_from_be(bytes[6], bytes[7]),
            group_from_be(bytes[8], bytes[9]),
            group_from_be(bytes[10], bytes[11]),
            group_from_be(bytes[12], bytes[13]),
            group_from_be(bytes[14], bytes[15]),
        )
    }

    /// The address with the given eight groups.
    pub fn new(a: u16, b: u16, c: u16, d: u16, e: u16, f: u16, g: u16, h: u16) -> (addr: Ipv6Addr)
        ensures
            addr == Ipv6Addr(a, b, c, d, e, f, g, h),
    {
        Ipv6Addr(a, b, c, d, e, f, g, h)
    }

    /// The eight groups, first group first.
    pub fn segments(&self) -> (groups: [u16; 8])
        ensures
            groups@ == seq![self.0, self.1, self.2, self.3, self.4, self.5, self.6, self.7],
    {
        let groups = [self.0, self.1, self.2, self.3, self.4, self.5, self.6, self.7];
        assert(groups@ =~= seq![
            self.0,
            self.1,
            self.2,
            self.3,
            self.4,
            self.5,
            self.6,
            self.7,
        ]);
        groups
    }

    /// Appends the sixteen octets.
    pub fn serialize(&self, writer: &mut Vec<u8>)
        ensures
            final(writer)@ == old(writer)@ + self.wire(),
    {
        write_group(self.0, writer);
        write_group(self.1, writer);
        write_group(self.2, writer);
        write_group(self.3, writer);
        write_group(self.4, writer);
        write_group(self.5, writer);
        write_group(self.6, writer);
        write_group(self.7, writer);
        assert(writer@ =~= old(writer)@ + self.wire());
    }

    /// The address in the sixteen bytes from `at`, or `None` where the
    /// buffer ends before all sixteen.
    pub fn deserialize(bytes: &[u8], at: usize) -> (r: Option<Ipv6Addr>)
        ensures
            r == if at + 16 <= bytes@.len() {
                Some(Ipv6Addr::parse(bytes@.subrange(at as int, at + 16)))
            } else {
                None
            },
    {
        if at > bytes.len() || bytes.len() - at < 16 {
            None
        } else {
            Some(
                Ipv6Addr(
                    read_group(bytes[at], bytes[at + 1]),
                    read_group(bytes[at + 2], bytes[at + 3]),
                    read_group(bytes[at + 4], bytes[at + 5]),
                    read_group(bytes[at + 6], bytes[at + 7]),
                    read_group(bytes[at + 8], bytes[at + 9]),
                    read_group(bytes[at + 10], bytes[at + 11]),
                    read_group(bytes[at + 12], bytes[at + 13]),
                    read_group(bytes[at + 14], bytes[at + 15]),
                ),
            )
        }
    }

    /// The diagnostic text of the address: the type's name, and in round
    /// brackets the eight groups in decimal digits.
    pub open spec fn debug_text(self) -> Seq<char> {
        "Ipv6Addr("@ + decimal(self.0 as nat) + ", "@ + decimal(self.1 as nat) + ", "@ + decimal(
            self.2 as nat,
        ) + ", "@ + decimal(self.3 as nat) + ", "@ + decimal(self.4 as nat) + ", "@ + decimal(
            self.5 as nat,
        ) + ", "@ + decimal(self.6 as nat) + ", "@ + decimal(self.7 as nat) + ")"@
    }

    /// Writes the address out for diagnostics.
    pub fn debug_string(&self) -> (text: String)
        ensures
            text@ == self.debug_text(),
    {
        let mut text = String::from_str("Ipv6Addr(");
        text.append(decimal_string(self.0 as u32).as_str());
        text.append(", ");
        text.append(decimal_string(self.1 as u32).as_str());
        text.append(", ");
        text.append(decimal_string(self.2 as u32).as_str());
        text.append(", ");
        text.append(decimal_string(self.3 as u32).as_str());
        text.append(", ");
        text.append(decimal_string(self.4 as u32).as_str());
        text.append(", ");
        text.append(decimal_string(self.5 as u32).as_str());
        text.append(", ");
        text.append(decimal_string(self.6 as u32).as_str());
        text.append(", ");
        text.append(decimal_string(self.7 as u32).as_str());
        text.append(")");
        text
    }

    /// An address comes back from its octets.
    pub proof fn lemma_round_trip(self)
        ensures
            self.wire().len() == 16,
            Ipv6Addr::parse(self.wire()) == self,
    {
        let wire = self.wire();
        assert(wire.len() == 16);
        assert(wire[0] == (self.0 / 256) as u8 && wire[1] == (self.0 % 256) as u8);
        assert(wire[2] == (self.1 / 256) as u8 && wire[3] == (self.1 % 256) as u8);
        assert(wire[4] == (self.2 / 256) as u8 && wire[5] == (self.2 % 256) as u8);
        assert(wire[6] == (self.3 / 256) as u8 && wire[7] == (self.3 % 256) as u8);
        assert(wire[8] == (self.4 / 256) as u8 && wire[9] == (self.4 % 256) as u8);
        assert(wire[10] == (self.5 / 256) as u8 && wire[11] == (self.5 % 256) as u8);
        assert(wire[12] == (self.6 / 256) as u8 && wire[13] == (self.6 % 256) as u8);
        assert(wire[14] == (self.7 / 256) as u8 && wire[15] == (self.7 % 256) as u8);
    }
}

/// Appends a 16-bit group, high byte first.
fn write_group(group: u16, writer: &mut Vec<u8>)
    ensures
        final(writer)@ == old(writer)@ + group_be(group),
{
    writer.push((group / 256) as u8);
    writer.push((group % 256) as u8);
    assert(writer@ =~= old(writer)@ + group_be(group));
}

/// The 16-bit group that two bytes make, high byte first.
fn read_group(high: u8, low: u8) -> (group: u16)
    ensures
        group == group_from_be(high, low),
{
    256 * (high as u16) + (low as u16)
}

} // verus!
