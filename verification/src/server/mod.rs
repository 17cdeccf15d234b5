//! The dialect that terminals and servers speak with a directory server.
use vstd::prelude::*;
use vstd::std_specs::convert::{FromSpecImpl, TryFromSpecImpl};
use crate::error::CodecError;
use crate::frame::{frame, read_frame};
use crate::{Class, Dialect, PackageBody};

pub mod client_type;
pub mod package_enum;
pub mod packages;
pub mod string_40_bytes;

pub use client_type::ClientType;
pub use package_enum::{Package, PackageView};
pub use packages::{
    Acknowledge,
    AddressConfirm,
    ClientUpdate,
    EndOfList,
    Error,
    FullQuery,
    Login,
    PeerNotFound,
    PeerQuery,
    PeerReply,
    PeerReplyView,
    PeerSearch,
    PeerSearchView,
    LENGTH_CLIENT_UPDATE,
    LENGTH_ADDRESS_CONFIRM,
    LENGTH_PEER_QUERY,
    LENGTH_PEER_NOT_FOUND,
    LENGTH_PEER_REPLY,
    LENGTH_FULL_QUERY,
    LENGTH_LOGIN,
    LENGTH_ACKNOWLEDGE,
    LENGTH_END_OF_LIST,
    LENGTH_PEER_SEARCH,
};
pub use string_40_bytes::String40Bytes;

verus! {

/// The kinds of package in the server dialect.
#[derive(Debug, Copy, Clone, PartialEq, Eq, Structural)]
pub enum Server {
    ClientUpdate,
    AddressConfirm,
    PeerQuery,
    PeerNotFound,
    PeerReply,
    FullQuery,
    Login,
    Acknowledge,
    EndOfList,
    PeerSearch,
    Error,
}

impl Class for Server {
    const NAME: &'static str = "Server";

    type Union = Package;

    open spec fn name() -> Seq<char> {
        "Server"@
    }

    open spec fn discriminant(self) -> u8 {
        match self {
            Server::ClientUpdate => 0x01,
            Server::AddressConfirm => 0x02,
            Server::PeerQuery => 0x03,
            Server::PeerNotFound => 0x04,
            Server::PeerReply => 0x05,
            Server::FullQuery => 0x06,
            Server::Login => 0x07,
            Server::Acknowledge => 0x08,
            Server::EndOfList => 0x09,
            Server::PeerSearch => 0x0A,
            Server::Error => 0xFF,
        }
    }

    open spec fn from_discriminant(byte: u8) -> Option<Server> {
        if byte == 0x01 {
            Some(Server::ClientUpdate)
        } else if byte == 0x02 {
            Some(Server::AddressConfirm)
        } else if byte == 0x03 {
            Some(Server::PeerQuery)
        } else if byte == 0x04 {
            Some(Server::PeerNotFound)
        } else if byte == 0x05 {
            Some(Server::PeerReply)
        } else if byte == 0x06 {
            Some(Server::FullQuery)
        } else if byte == 0x07 {
            Some(Server::Login)
        } else if byte == 0x08 {
            Some(Server::Acknowledge)
        } else if byte == 0x09 {
            Some(Server::EndOfList)
        } else if byte == 0x0A {
            Some(Server::PeerSearch)
        } else if byte == 0xFF {
            Some(Server::Error)
        } else {
            None
        }
    }

    open spec fn class_of(union: PackageView) -> Server {
        match union {
            PackageView::ClientUpdate(_) => Server::ClientUpdate,
            PackageView::AddressConfirm(_) => Server::AddressConfirm,
            PackageView::PeerQuery(_) => Server::PeerQuery,
            PackageView::PeerNotFound(_) => Server::PeerNotFound,
            PackageView::PeerReply(_) => Server::PeerReply,
            PackageView::FullQuery(_) => Server::FullQuery,
            PackageView::Login(_) => Server::Login,
            PackageView::Acknowledge(_) => Server::Acknowledge,
            PackageView::EndOfList(_) => Server::EndOfList,
            PackageView::PeerSearch(_) => Server::PeerSearch,
            PackageView::Error(_) => Server::Error,
        }
    }

    fn to_u8(self) -> (byte: u8) {
        match self {
            Server::ClientUpdate => 0x01,
            Server::AddressConfirm => 0x02,
            Server::PeerQuery => 0x03,
            Server::PeerNotFound => 0x04,
            Server::PeerReply => 0x05,
            Server::FullQuery => 0x06,
            Server::Login => 0x07,
            Server::Acknowledge => 0x08,
            Server::EndOfList => 0x09,
            Server::PeerSearch => 0x0A,
            Server::Error => 0xFF,
        }
    }

    fn from_u8(byte: u8) -> (r: Option<Server>) {
        match byte {
            0x01 => Some(Server::ClientUpdate),
            0x02 => Some(Server::AddressConfirm),
            0x03 => Some(Server::PeerQuery),
            0x04 => Some(Server::PeerNotFound),
            0x05 => Some(Server::PeerReply),
            0x06 => Some(Server::FullQuery),
            0x07 => Some(Server::Login),
            0x08 => Some(Server::Acknowledge),
            0x09 => Some(Server::EndOfList),
            0x0A => Some(Server::PeerSearch),
            0xFF => Some(Server::Error),
            _ => None,
        }
    }

    fn union_class(union: &Package) -> (class: Server) {
        match union {
            Package::ClientUpdate(_) => Server::ClientUpdate,
            Package::AddressConfirm(_) => Server::AddressConfirm,
            Package::PeerQuery(_) => Server::PeerQuery,
            Package::PeerNotFound(_) => Server::PeerNotFound,
            Package::PeerReply(_) => Server::PeerReply,
            Package::FullQuery(_) => Server::FullQuery,
            Package::Login(_) => Server::Login,
            Package::Acknowledge(_) => Server::Acknowledge,
            Package::EndOfList(_) => Server::EndOfList,
            Package::PeerSearch(_) => Server::PeerSearch,
            Package::Error(_) => Server::Error,
        }
    }

    proof fn lemma_name() {
        assert(Self::NAME@ == "Server"@);
    }

    proof fn lemma_discriminant(class: Server) {
    }

    proof fn lemma_from_discriminant(byte: u8) {
    }
}

impl From<Server> for u8 {
    /// The discriminant byte of a kind.
    fn from(class: Server) -> (byte: u8) {
        class.to_u8()
    }
}

impl FromSpecImpl<Server> for u8 {
    open spec fn obeys_from_spec() -> bool {
        true
    }

    open spec fn from_spec(class: Server) -> u8 {
        class.discriminant()
    }
}

impl TryFrom<u8> for Server {
    type Error = ();

    /// The kind that a byte stands for; an error for a byte that no kind of
    /// the dialect has.
    fn try_from(discriminant: u8) -> (r: Result<Server, ()>) {
        match Server::from_u8(discriminant) {
            Some(class) => Ok(class),
            None => Err(()),
        }
    }
}

impl TryFromSpecImpl<u8> for Server {
    open spec fn obeys_try_from_spec() -> bool {
        true
    }

    open spec fn try_from_spec(discriminant: u8) -> Result<Server, ()> {
        match Server::from_discriminant(discriminant) {
            Some(class) => Ok(class),
            None => Err(()),
        }
    }
}

impl Dialect for Server {
    open spec fn body_wire(union: PackageView) -> Seq<u8> {
        match union {
            PackageView::ClientUpdate(value) => ClientUpdate::wire(value),
            PackageView::AddressConfirm(value) => AddressConfirm::wire(value),
            PackageView::PeerQuery(value) => PeerQuery::wire(value),
            PackageView::PeerNotFound(value) => PeerNotFound::wire(value),
            PackageView::PeerReply(value) => PeerReply::wire(value),
            PackageView::FullQuery(value) => FullQuery::wire(value),
            PackageView::Login(value) => Login::wire(value),
            PackageView::Acknowledge(value) => Acknowledge::wire(value),
            PackageView::EndOfList(value) => EndOfList::wire(value),
            PackageView::PeerSearch(value) => PeerSearch::wire(value),
            PackageView::Error(value) => Error::wire(value),
        }
    }

    open spec fn parse_body(self, bytes: Seq<u8>) -> Option<PackageView> {
        match self {
            Server::ClientUpdate => match ClientUpdate::parse(bytes) {
                Some(value) => Some(PackageView::ClientUpdate(value)),
                None => None,
            },
            Server::AddressConfirm => match AddressConfirm::parse(bytes) {
                Some(value) => Some(PackageView::AddressConfirm(value)),
                None => None,
            },
            Server::PeerQuery => match PeerQuery::parse(bytes) {
                Some(value) => Some(PackageView::PeerQuery(value)),
                None => None,
            },
            Server::PeerNotFound => match PeerNotFound::parse(bytes) {
                Some(value) => Some(PackageView::PeerNotFound(value)),
                None => None,
            },
            Server::PeerReply => match PeerReply::parse(bytes) {
                Some(value) => Some(PackageView::PeerReply(value)),
                None => None,
            },
            Server::FullQuery => match FullQuery::parse(bytes) {
                Some(value) => Some(PackageView::FullQuery(value)),
                None => None,
            },
            Server::Login => match Login::parse(bytes) {
                Some(value) => Some(PackageView::Login(value)),
                None => None,
            },
            Server::Acknowledge => match Acknowledge::parse(bytes) {
                Some(value) => Some(PackageView::Acknowledge(value)),
                None => None,
            },
            Server::EndOfList => match EndOfList::parse(bytes) {
                Some(value) => Some(PackageView::EndOfList(value)),
                None => None,
            },
            Server::PeerSearch => match PeerSearch::parse(bytes) {
                Some(value) => Some(PackageView::PeerSearch(value)),
                None => None,
            },
            Server::Error => match Error::parse(bytes) {
                Some(value) => Some(PackageView::Error(value)),
                None => None,
            },
        }
    }

    open spec fn round_trips(union: PackageView) -> bool {
        match union {
            PackageView::ClientUpdate(value) => ClientUpdate::round_trips(value),
            PackageView::AddressConfirm(value) => AddressConfirm::round_trips(value),
            PackageView::PeerQuery(value) => PeerQuery::round_trips(value),
            PackageView::PeerNotFound(value) => PeerNotFound::round_trips(value),
            PackageView::PeerReply(value) => PeerReply::round_trips(value),
            PackageView::FullQuery(value) => FullQuery::round_trips(value),
            PackageView::Login(value) => Login::round_trips(value),
            PackageView::Acknowledge(value) => Acknowledge::round_trips(value),
            PackageView::EndOfList(value) => EndOfList::round_trips(value),
            PackageView::PeerSearch(value) => PeerSearch::round_trips(value),
            PackageView::Error(value) => Error::round_trips(value),
        }
    }

    open spec fn debug_text(union: PackageView) -> Seq<char> {
        match union {
            PackageView::ClientUpdate(value) => ClientUpdate::debug_text(value),
            PackageView::AddressConfirm(value) => AddressConfirm::debug_text(value),
            PackageView::PeerQuery(value) => PeerQuery::debug_text(value),
            PackageView::PeerNotFound(value) => PeerNotFound::debug_text(value),
            PackageView::PeerReply(value) => PeerReply::debug_text(value),
            PackageView::FullQuery(value) => FullQuery::debug_text(value),
            PackageView::Login(value) => Login::debug_text(value),
            PackageView::Acknowledge(value) => Acknowledge::debug_text(value),
            PackageView::EndOfList(value) => EndOfList::debug_text(value),
            PackageView::PeerSearch(value) => PeerSearch::debug_text(value),
            PackageView::Error(value) => Error::debug_text(value),
        }
    }

    fn serialize(union: &Package, writer: &mut Vec<u8>) {
        union.serialize_header(writer);
        match union {
            Package::ClientUpdate(value) => value.serialize_body(writer),
            Package::AddressConfirm(value) => value.serialize_body(writer),
            Package::PeerQuery(value) => value.serialize_body(writer),
            Package::PeerNotFound(value) => value.serialize_body(writer),
            Package::PeerReply(value) => value.serialize_body(writer),
            Package::FullQuery(value) => value.serialize_body(writer),
            Package::Login(value) => value.serialize_body(writer),
            Package::Acknowledge(value) => value.serialize_body(writer),
            Package::EndOfList(value) => value.serialize_body(writer),
            Package::PeerSearch(value) => value.serialize_body(writer),
            Package::Error(value) => value.serialize_body(writer),
        }
        assert(writer@ =~= old(writer)@ + frame(
            Self::class_of(union@).discriminant(),
            Self::body_wire(union@),
        ));
    }

    fn deserialize(bytes: &[u8]) -> (r: Result<Package, CodecError>) {
        let (discriminant, body) = match read_frame(bytes) {
            Ok(parts) => parts,
            Err(e) => { return Err(e); },
        };
        match discriminant {
            0x01 => match ClientUpdate::deserialize_body(body) {
                Ok(value) => Ok(Package::ClientUpdate(value)),
                Err(e) => Err(e),
            },
            0x02 => match AddressConfirm::deserialize_body(body) {
                Ok(value) => Ok(Package::AddressConfirm(value)),
                Err(e) => Err(e),
            },
            0x03 => match PeerQuery::deserialize_body(body) {
                Ok(value) => Ok(Package::PeerQuery(value)),
                Err(e) => Err(e),
            },
            0x04 => match PeerNotFound::deserialize_body(body) {
                Ok(value) => Ok(Package::PeerNotFound(value)),
                Err(e) => Err(e),
            },
            0x05 => match PeerReply::deserialize_body(body) {
                Ok(value) => Ok(Package::PeerReply(value)),
                Err(e) => Err(e),
            },
            0x06 => match FullQuery::deserialize_body(body) {
                Ok(value) => Ok(Package::FullQuery(value)),
                Err(e) => Err(e),
            },
            0x07 => match Login::deserialize_body(body) {
                Ok(value) => Ok(Package::Login(value)),
                Err(e) => Err(e),
            },
            0x08 => match Acknowledge::deserialize_body(body) {
                Ok(value) => Ok(Package::Acknowledge(value)),
                Err(e) => Err(e),
            },
            0x09 => match EndOfList::deserialize_body(body) {
                Ok(value) => Ok(Package::EndOfList(value)),
                Err(e) => Err(e),
            },
            0x0A => match PeerSearch::deserialize_body(body) {
                Ok(value) => Ok(Package::PeerSearch(value)),
                Err(e) => Err(e),
            },
            0xFF => match Error::deserialize_body(body) {
                Ok(value) => Ok(Package::Error(value)),
                Err(e) => Err(e),
            },
            _ => Err(CodecError::UnknownDiscriminant(discriminant)),
        }
    }

    fn debug_body(union: &Package) -> (text: String) {
        union.debug_string()
    }

    proof fn lemma_body_wire_len(union: PackageView) {
        match union {
            PackageView::ClientUpdate(value) => ClientUpdate::lemma_wire_len(value),
            PackageView::AddressConfirm(value) => AddressConfirm::lemma_wire_len(value),
            PackageView::PeerQuery(value) => PeerQuery::lemma_wire_len(value),
            PackageView::PeerNotFound(value) => PeerNotFound::lemma_wire_len(value),
            PackageView::PeerReply(value) => PeerReply::lemma_wire_len(value),
            PackageView::FullQuery(value) => FullQuery::lemma_wire_len(value),
            PackageView::Login(value) => Login::lemma_wire_len(value),
            PackageView::Acknowledge(value) => Acknowledge::lemma_wire_len(value),
            PackageView::EndOfList(value) => EndOfList::lemma_wire_len(value),
            PackageView::PeerSearch(value) => PeerSearch::lemma_wire_len(value),
            PackageView::Error(value) => Error::lemma_wire_len(value),
        }
    }

    proof fn lemma_parse_body_class(class: Server, bytes: Seq<u8>) {
    }

    proof fn lemma_body_round_trip(union: PackageView, tail: Seq<u8>) {
        match union {
            PackageView::ClientUpdate(value) => ClientUpdate::lemma_round_trip(value, tail),
            PackageView::AddressConfirm(value) => AddressConfirm::lemma_round_trip(value, tail),
            PackageView::PeerQuery(value) => PeerQuery::lemma_round_trip(value, tail),
            PackageView::PeerNotFound(value) => PeerNotFound::lemma_round_trip(value, tail),
            PackageView::PeerReply(value) => PeerReply::lemma_round_trip(value, tail),
            PackageView::FullQuery(value) => FullQuery::lemma_round_trip(value, tail),
            PackageView::Login(value) => Login::lemma_round_trip(value, tail),
            PackageView::Acknowledge(value) => Acknowledge::lemma_round_trip(value, tail),
            PackageView::EndOfList(value) => EndOfList::lemma_round_trip(value, tail),
            PackageView::PeerSearch(value) => PeerSearch::lemma_round_trip(value, tail),
            PackageView::Error(value) => Error::lemma_round_trip(value, tail),
        }
    }
}

} // verus!
