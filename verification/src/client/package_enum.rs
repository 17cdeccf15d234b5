//! The client dialect's packages as one closed union.
use vstd::prelude::*;
use crate::client::{Client, End, Heartbeat, Reject, LENGTH_END, LENGTH_HEARTBEAT};
use crate::codec::capped_length;
use crate::error::CodecError;
use crate::frame::{header, read_header, write_header};
use crate::{decoding, encoding, outcome_view, Class, Dialect, PackageBody};

verus! {

/// Any one package of the dialect.
#[derive(Debug, Clone, PartialEq, Eq)]
pub enum Package {
    Heartbeat(Heartbeat),
    End(End),
    Reject(Reject),
}

/// What a [`Package`] holds, with texts as character sequences.
pub enum PackageView {
    Heartbeat(Heartbeat),
    End(End),
    Reject(Seq<char>),
}

impl View for Package {
    type V = PackageView;

    open spec fn view(&self) -> PackageView {
        match self {
            Package::Heartbeat(value) => PackageView::Heartbeat(value@),
            Package::End(value) => PackageView::End(value@),
            Package::Reject(value) => PackageView::Reject(value@),
        }
    }
}

impl Package {
    /// The discriminant byte of the package.
    pub fn package_type(&self) -> (byte: u8)
        ensures
            byte == Client::class_of(self@).discriminant(),
    {
        match self {
            Package::Heartbeat(_) => 0x00,
            Package::End(_) => 0x03,
            Package::Reject(_) => 0x04,
        }
    }

    /// The number of body bytes that the package is written with.
    pub fn package_length(&self) -> (length: u8)
        ensures
            length == Client::body_wire(self@).len(),
    {
        match self {
            Package::Heartbeat(_) => LENGTH_HEARTBEAT,
            Package::End(_) => LENGTH_END,
            Package::Reject(value) => capped_length(value.message.as_str()),
        }
    }

    /// Appends the package's header: its discriminant and the length of its
    /// body.
    pub fn serialize_header(&self, writer: &mut Vec<u8>)
        ensures
            final(writer)@ == old(writer)@ + header(
                Client::class_of(self@).discriminant(),
                Client::body_wire(self@).len() as u8,
            ),
    {
        write_header(self.package_type(), self.package_length(), writer);
    }

    /// Reads a header: the discriminant and the announced body length, as
    /// they stand in the first two bytes.
    pub fn deserialize_header(bytes: &[u8]) -> (r: Result<(u8, u8), CodecError>)
        ensures
            r == if bytes@.len() >= 2 {
                Ok::<(u8, u8), CodecError>((bytes@[0], bytes@[1]))
            } else {
                Err(CodecError::FrameError)
            },
    {
        read_header(bytes)
    }

    /// Appends the package's frame: its header, then the body of whichever
    /// kind it is.
    pub fn serialize_le(&self, writer: &mut Vec<u8>)
        ensures
            final(writer)@ == old(writer)@ + encoding::<Client>(self@),
    {
        Client::serialize(self, writer)
    }

    /// Decodes the frame that `bytes` start with: reads the header, takes
    /// the body in the announced length, and reads it as the kind that the
    /// discriminant names.
    pub fn deserialize_le(bytes: &[u8]) -> (r: Result<Package, CodecError>)
        ensures
            outcome_view(r) == decoding::<Client>(bytes@),
    {
        Client::deserialize(bytes)
    }

    /// The diagnostic text of the body, as the body's own type writes it.
    pub(crate) fn debug_string(&self) -> (text: String)
        ensures
            text@ == Client::debug_text(self@),
    {
        match self {
            Package::Heartbeat(value) => value.debug_string(),
            Package::End(value) => value.debug_string(),
            Package::Reject(value) => value.debug_string(),
        }
    }
}

} // verus!
