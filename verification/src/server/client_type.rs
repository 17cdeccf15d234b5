//! The kind of terminal behind a directory entry.
use vstd::prelude::*;
use vstd::std_specs::convert::{FromSpecImpl, TryFromSpecImpl};

verus! {

/// How a peer is reached and which code it speaks. On the wire it is one
/// byte, 0 to 6.
#[derive(Debug, Eq, PartialEq, Copy, Clone, Structural)]
pub enum ClientType {
    Deleted,
    BaudotHostname,
    BaudotIpaddress,
    AsciiHostname,
    AsciiIpaddress,
    BaudotDynIp,
    Email,
}

impl ClientType {
    /// The byte that stands for this kind.
    pub open spec fn code(self) -> u8 {
        match self {
            ClientType::Deleted => 0,
            ClientType::BaudotHostname => 1,
            ClientType::BaudotIpaddress => 2,
            ClientType::AsciiHostname => 3,
            ClientType::AsciiIpaddress => 4,
            ClientType::BaudotDynIp => 5,
            ClientType::Email => 6,
        }
    }

    /// The kind that a byte stands for; none for a byte above 6.
    pub open spec fn from_code(byte: u8) -> Option<ClientType> {
        if byte == 0 {
            Some(ClientType::Deleted)
        } else if byte == 1 {
            Some(ClientType::BaudotHostname)
        } else if byte == 2 {
            Some(ClientType::BaudotIpaddress)
        } else if byte == 3 {
            Some(ClientType::AsciiHostname)
        } else if byte == 4 {
            Some(ClientType::AsciiIpaddress)
        } else if byte == 5 {
            Some(ClientType::BaudotDynIp)
        } else if byte == 6 {
            Some(ClientType::Email)
        } else {
            None
        }
    }

    /// The kind that a byte stands for; `None` for a byte above 6.
    pub fn from_u8(byte: u8) -> (r: Option<ClientType>)
        ensures
            r == ClientType::from_code(byte),
    {
        match byte {
            0 => Some(ClientType::Deleted),
            1 => Some(ClientType::BaudotHostname),
            2 => Some(ClientType::BaudotIpaddress),
            3 => Some(ClientType::AsciiHostname),
            4 => Some(ClientType::AsciiIpaddress),
            5 => Some(ClientType::BaudotDynIp),
            6 => Some(ClientType::Email),
            _ => None,
        }
    }

    /// The byte that stands for this kind.
    pub fn to_u8(self) -> (byte: u8)
        ensures
            byte == self.code(),
    {
        match self {
            ClientType::Deleted => 0,
            ClientType::BaudotHostname => 1,
            ClientType::BaudotIpaddress => 2,
            ClientType::AsciiHostname => 3,
            ClientType::AsciiIpaddress => 4,
            ClientType::BaudotDynIp => 5,
            ClientType::Email => 6,
        }
    }

    /// Appends the kind's byte.
    pub fn serialize_le(&self, writer: &mut Vec<u8>)
        ensures
            final(writer)@ == old(writer)@ + seq![self.code()],
    {
        writer.push(self.to_u8());
        assert(writer@ =~= old(writer)@ + seq![self.code()]);
    }

    /// The kind that the byte at `at` stands for; `None` where the buffer
    /// ends before it or the byte stands for no kind.
    pub fn deserialize_le(bytes: &[u8], at: usize) -> (r: Option<ClientType>)
        ensures
            r == if at < bytes@.len() {
                ClientType::from_code(bytes@[at as int])
            } else {
                None
            },
    {
        if at < bytes.len() {
            ClientType::from_u8(bytes[at])
        } else {
            None
        }
    }

    /// The kind's name.
    pub open spec fn name_text(self) -> Seq<char> {
        match self {
            ClientType::Deleted => "Deleted"@,
            ClientType::BaudotHostname => "BaudotHostname"@,
            ClientType::BaudotIpaddress => "BaudotIpaddress"@,
            ClientType::AsciiHostname => "AsciiHostname"@,
            ClientType::AsciiIpaddress => "AsciiIpaddress"@,
            ClientType::BaudotDynIp => "BaudotDynIp"@,
            ClientType::Email => "Email"@,
        }
    }

    /// The kind's name, as diagnostics write it.
    pub fn name(&self) -> (name: &'static str)
        ensures
            name@ == self.name_text(),
    {
        match self {
            ClientType::Deleted => "Deleted",
            ClientType::BaudotHostname => "BaudotHostname",
            ClientType::BaudotIpaddress => "BaudotIpaddress",
            ClientType::AsciiHostname => "AsciiHostname",
            ClientType::AsciiIpaddress => "AsciiIpaddress",
            ClientType::BaudotDynIp => "BaudotDynIp",
            ClientType::Email => "Email",
        }
    }

    /// The kind's number in decimal digits.
    pub fn to_string(&self) -> (text: String)
        ensures
            text@ == seq![(('0' as u8) + self.code()) as char],
    {
        proof {
            reveal_strlit("0");
            reveal_strlit("1");
            reveal_strlit("2");
            reveal_strlit("3");
            reveal_strlit("4");
            reveal_strlit("5");
            reveal_strlit("6");
        }
        let text = match self {
            ClientType::Deleted => "0",
            ClientType::BaudotHostname => "1",
            ClientType::BaudotIpaddress => "2",
            ClientType::AsciiHostname => "3",
            ClientType::AsciiIpaddress => "4",
            ClientType::BaudotDynIp => "5",
            ClientType::Email => "6",
        };
        assert(text@ =~= seq![(('0' as u8) + self.code()) as char]);
        text.to_owned()
    }

    /// Each kind has a byte of its own, and each of the bytes 0 to 6 a kind.
    pub proof fn lemma_code(kind: ClientType, byte: u8)
        ensures
            ClientType::from_code(kind.code()) == Some(kind),
            ClientType::from_code(byte) is Some <==> byte <= 6,
            ClientType::from_code(byte) matches Some(k) ==> k.code() == byte,
    {
    }
}

impl TryFrom<u8> for ClientType {
    type Error = ();

    /// The kind that a byte stands for; an error for a byte above 6.
    fn try_from(value: u8) -> (r: Result<ClientType, ()>) {
        match ClientType::from_u8(value) {
            Some(kind) => Ok(kind),
            None => Err(()),
        }
    }
}

impl TryFromSpecImpl<u8> for ClientType {
    open spec fn obeys_try_from_spec() -> bool {
        true
    }

    open spec fn try_from_spec(value: u8) -> Result<ClientType, ()> {
        match ClientType::from_code(value) {
            Some(kind) => Ok(kind),
            None => Err(()),
        }
    }
}

impl From<ClientType> for u8 {
    /// The byte that stands for a kind.
    fn from(kind: ClientType) -> (byte: u8) {
        kind.to_u8()
    }
}

impl FromSpecImpl<ClientType> for u8 {
    open spec fn obeys_from_spec() -> bool {
        true
    }

    open spec fn from_spec(kind: ClientType) -> u8 {
        kind.code()
    }
}

} // verus!
