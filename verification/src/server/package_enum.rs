//! The server dialect's packages as one closed union.
use vstd::prelude::*;
use crate::codec::{capped_length, lemma_fixed40_wire_len};
use crate::error::CodecError;
use crate::server::packages::{
    Acknowledge,
    AddressConfirm,
    ClientUpdate,
    EndOfList,
    Error,
    FullQuery,
    Login,
    PeerNotFound,
    PeerQuery,
    PeerReply,
    PeerReplyView,
    PeerSearch,
    PeerSearchView,
    LENGTH_CLIENT_UPDATE,
    LENGTH_ADDRESS_CONFIRM,
    LENGTH_PEER_QUERY,
    LENGTH_PEER_NOT_FOUND,
    LENGTH_PEER_REPLY,
    LENGTH_FULL_QUERY,
    LENGTH_LOGIN,
    LENGTH_ACKNOWLEDGE,
    LENGTH_END_OF_LIST,
    LENGTH_PEER_SEARCH,
};
use crate::server::Server;
use crate::frame::{header, read_header, write_header};
use crate::{decoding, encoding, outcome_view, Class, Dialect, PackageBody};

verus! {

/// Any one package of the dialect.
#[derive(Debug, Clone, PartialEq, Eq)]
pub enum Package {
    ClientUpdate(ClientUpdate),
    AddressConfirm(AddressConfirm),
    PeerQuery(PeerQuery),
    PeerNotFound(PeerNotFound),
    PeerReply(PeerReply),
    FullQuery(FullQuery),
    Login(Login),
    Acknowledge(Acknowledge),
    EndOfList(EndOfList),
    PeerSearch(PeerSearch),
    Error(Error),
}

/// What a [`Package`] holds, with texts as character sequences.
pub enum PackageView {
    ClientUpdate(ClientUpdate),
    AddressConfirm(AddressConfirm),
    PeerQuery(PeerQuery),
    PeerNotFound(PeerNotFound),
    PeerReply(PeerReplyView),
    FullQuery(FullQuery),
    Login(Login),
    Acknowledge(Acknowledge),
    EndOfList(EndOfList),
    PeerSearch(PeerSearchView),
    Error(Seq<char>),
}

impl View for Package {
    type V = PackageView;

    open spec fn view(&self) -> PackageView {
        match self {
            Package::ClientUpdate(value) => PackageView::ClientUpdate(value@),
            Package::AddressConfirm(value) => PackageView::AddressConfirm(value@),
            Package::PeerQuery(value) => PackageView::PeerQuery(value@),
            Package::PeerNotFound(value) => PackageView::PeerNotFound(value@),
            Package::PeerReply(value) => PackageView::PeerReply(value@),
            Package::FullQuery(value) => PackageView::FullQuery(value@),
            Package::Login(value) => PackageView::Login(value@),
            Package::Acknowledge(value) => PackageView::Acknowledge(value@),
            Package::EndOfList(value) => PackageView::EndOfList(value@),
            Package::PeerSearch(value) => PackageView::PeerSearch(value@),
            Package::Error(value) => PackageView::Error(value@),
        }
    }
}

impl Package {
    /// The discriminant byte of the package.
    pub fn package_type(&self) -> (byte: u8)
        ensures
            byte == Server::class_of(self@).discriminant(),
    {
        match self {
            Package::ClientUpdate(_) => 0x01,
            Package::AddressConfirm(_) => 0x02,
            Package::PeerQuery(_) => 0x03,
            Package::PeerNotFound(_) => 0x04,
            Package::PeerReply(_) => 0x05,
            Package::FullQuery(_) => 0x06,
            Package::Login(_) => 0x07,
            Package::Acknowledge(_) => 0x08,
            Package::EndOfList(_) => 0x09,
            Package::PeerSearch(_) => 0x0A,
            Package::Error(_) => 0xFF,
        }
    }

    /// The number of body bytes that the package is written with.
    pub fn package_length(&self) -> (length: u8)
        ensures
            length == Server::body_wire(self@).len(),
    {
        proof {
            match self@ {
                PackageView::PeerReply(value) => {
                    lemma_fixed40_wire_len(value.name);
                    lemma_fixed40_wire_len(value.hostname);
                },
                PackageView::PeerSearch(value) => {
                    lemma_fixed40_wire_len(value.pattern);
                },
                _ => {},
            }
        }
        match self {
            Package::ClientUpdate(_) => LENGTH_CLIENT_UPDATE,
            Package::AddressConfirm(_) => LENGTH_ADDRESS_CONFIRM,
            Package::PeerQuery(_) => LENGTH_PEER_QUERY,
            Package::PeerNotFound(_) => LENGTH_PEER_NOT_FOUND,
            Package::PeerReply(_) => LENGTH_PEER_REPLY,
            Package::FullQuery(_) => LENGTH_FULL_QUERY,
            Package::Login(_) => LENGTH_LOGIN,
            Package::Acknowledge(_) => LENGTH_ACKNOWLEDGE,
            Package::EndOfList(_) => LENGTH_END_OF_LIST,
            Package::PeerSearch(_) => LENGTH_PEER_SEARCH,
            Package::Error(value) => capped_length(value.message.as_str()),
        }
    }

    /// Appends the package's header: its discriminant and the length of its
    /// body.
    pub fn serialize_header(&self, writer: &mut Vec<u8>)
        ensures
            final(writer)@ == old(writer)@ + header(
                Server::class_of(self@).discriminant(),
                Server::body_wire(self@).len() as u8,
            ),
    {
        write_header(self.package_type(), self.package_length(), writer);
    }

    /// Reads a header: the discriminant and the announced body length, as
    /// they stand in the first two bytes.
    pub fn deserialize_header(bytes: &[u8]) -> (r: Result<(u8, u8), CodecError>)
        ensures
            r == if bytes@.len() >= 2 {
                Ok::<(u8, u8), CodecError>((bytes@[0], bytes@[1]))
            } else {
                Err(CodecError::FrameError)
            },
    {
        read_header(bytes)
    }

    /// Appends the package's frame: its header, then the body of whichever
    /// kind it is.
    pub fn serialize_le(&self, writer: &mut Vec<u8>)
        ensures
            final(writer)@ == old(writer)@ + encoding::<Server>(self@),
    {
        Server::serialize(self, writer)
    }

    /// Decodes the frame that `bytes` start with: reads the header, takes
    /// the body in the announced length, and reads it as the kind that the
    /// discriminant names.
    pub fn deserialize_le(bytes: &[u8]) -> (r: Result<Package, CodecError>)
        ensures
            outcome_view(r) == decoding::<Server>(bytes@),
    {
        Server::deserialize(bytes)
    }

    /// The diagnostic text of the body, as the body's own type writes it.
    pub(crate) fn debug_string(&self) -> (text: String)
        ensures
            text@ == Server::debug_text(self@),
    {
        match self {
            Package::ClientUpdate(value) => value.debug_string(),
            Package::AddressConfirm(value) => value.debug_string(),
            Package::PeerQuery(value) => value.debug_string(),
            Package::PeerNotFound(value) => value.debug_string(),
            Package::PeerReply(value) => value.debug_string(),
            Package::FullQuery(value) => value.debug_string(),
            Package::Login(value) => value.debug_string(),
            Package::Acknowledge(value) => value.debug_string(),
            Package::EndOfList(value) => value.debug_string(),
            Package::PeerSearch(value) => value.debug_string(),
            Package::Error(value) => value.debug_string(),
        }
    }
}

} // verus!
