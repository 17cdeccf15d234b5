//! The dialect that a terminal speaks with a centralex gateway, which takes
//! calls in its place.
use vstd::prelude::*;
use vstd::std_specs::convert::{FromSpecImpl, TryFromSpecImpl};
use crate::error::CodecError;
use crate::frame::{frame, read_frame};
use crate::{Class, Dialect, PackageBody};

pub mod package_enum;
pub mod packages;

pub use package_enum::{Package, PackageView};
pub use packages::{
    End,
    Heartbeat,
    Reject,
    RemAck,
    RemCall,
    RemConfirm,
    RemConnect,
    LENGTH_HEARTBEAT,
    LENGTH_END,
    LENGTH_REM_CONNECT,
    LENGTH_REM_CONFIRM,
    LENGTH_REM_CALL,
    LENGTH_REM_ACK,
};

verus! {

/// The kinds of package in the centralex dialect.
#[derive(Debug, Copy, Clone, PartialEq, Eq, Structural)]
pub enum Centralex {
    Heartbeat,
    End,
    Reject,
    RemConnect,
    RemConfirm,
    RemCall,
    RemAck,
}

impl Class for Centralex {
    const NAME: &'static str = "Centralex";

    type Union = Package;

    open spec fn name() -> Seq<char> {
        "Centralex"@
    }

    open spec fn discriminant(self) -> u8 {
        match self {
            Centralex::Heartbeat => 0x00,
            Centralex::End => 0x03,
            Centralex::Reject => 0x04,
            Centralex::RemConnect => 0x81,
            Centralex::RemConfirm => 0x82,
            Centralex::RemCall => 0x83,
            Centralex::RemAck => 0x84,
        }
    }

    open spec fn from_discriminant(byte: u8) -> Option<Centralex> {
        if byte == 0x00 {
            Some(Centralex::Heartbeat)
        } else if byte == 0x03 {
            Some(Centralex::End)
        } else if byte == 0x04 {
            Some(Centralex::Reject)
        } else if byte == 0x81 {
            Some(Centralex::RemConnect)
        } else if byte == 0x82 {
            Some(Centralex::RemConfirm)
        } else if byte == 0x83 {
            Some(Centralex::RemCall)
        } else if byte == 0x84 {
            Some(Centralex::RemAck)
        } else {
            None
        }
    }

    open spec fn class_of(union: PackageView) -> Centralex {
        match union {
            PackageView::Heartbeat(_) => Centralex::Heartbeat,
            PackageView::End(_) => Centralex::End,
            PackageView::Reject(_) => Centralex::Reject,
            PackageView::RemConnect(_) => Centralex::RemConnect,
            PackageView::RemConfirm(_) => Centralex::RemConfirm,
            PackageView::RemCall(_) => Centralex::RemCall,
            PackageView::RemAck(_) => Centralex::RemAck,
        }
    }

    fn to_u8(self) -> (byte: u8) {
        match self {
            Centralex::Heartbeat => 0x00,
            Centralex::End => 0x03,
            Centralex::Reject => 0x04,
            Centralex::RemConnect => 0x81,
            Centralex::RemConfirm => 0x82,
            Centralex::RemCall => 0x83,
            Centralex::RemAck => 0x84,
        }
    }

    fn from_u8(byte: u8) -> (r: Option<Centralex>) {
        match byte {
            0x00 => Some(Centralex::Heartbeat),
            0x03 => Some(Centralex::End),
            0x04 => Some(Centralex::Reject),
            0x81 => Some(Centralex::RemConnect),
            0x82 => Some(Centralex::RemConfirm),
            0x83 => Some(Centralex::RemCall),
            0x84 => Some(Centralex::RemAck),
            _ => None,
        }
    }

    fn union_class(union: &Package) -> (class: Centralex) {
        match union {
            Package::Heartbeat(_) => Centralex::Heartbeat,
            Package::End(_) => Centralex::End,
            Package::Reject(_) => Centralex::Reject,
            Package::RemConnect(_) => Centralex::RemConnect,
            Package::RemConfirm(_) => Centralex::RemConfirm,
            Package::RemCall(_) => Centralex::RemCall,
            Package::RemAck(_) => Centralex::RemAck,
        }
    }

    proof fn lemma_name() {
        assert(Self::NAME@ == "Centralex"@);
    }

    proof fn lemma_discriminant(class: Centralex) {
    }

    proof fn lemma_from_discriminant(byte: u8) {
    }
}

impl From<Centralex> for u8 {
    /// The discriminant byte of a kind.
    fn from(class: Centralex) -> (byte: u8) {
        class.to_u8()
    }
}

impl FromSpecImpl<Centralex> for u8 {
    open spec fn obeys_from_spec() -> bool {
        true
    }

    open spec fn from_spec(class: Centralex) -> u8 {
        class.discriminant()
    }
}

impl TryFrom<u8> for Centralex {
    type Error = ();

    /// The kind that a byte stands for; an error for a byte that no kind of
    /// the dialect has.
    fn try_from(discriminant: u8) -> (r: Result<Centralex, ()>) {
        match Centralex::from_u8(discriminant) {
            Some(class) => Ok(class),
            None => Err(()),
        }
    }
}

impl TryFromSpecImpl<u8> for Centralex {
    open spec fn obeys_try_from_spec() -> bool {
        true
    }

    open spec fn try_from_spec(discriminant: u8) -> Result<Centralex, ()> {
        match Centralex::from_discriminant(discriminant) {
            Some(class) => Ok(class),
            None => Err(()),
        }
    }
}

impl Dialect for Centralex {
    open spec fn body_wire(union: PackageView) -> Seq<u8> {
        match union {
            PackageView::Heartbeat(value) => Heartbeat::wire(value),
            PackageView::End(value) => End::wire(value),
            PackageView::Reject(value) => Reject::wire(value),
            PackageView::RemConnect(value) => RemConnect::wire(value),
            PackageView::RemConfirm(value) => RemConfirm::wire(value),
            PackageView::RemCall(value) => RemCall::wire(value),
            PackageView::RemAck(value) => RemAck::wire(value),
        }
    }

    open spec fn parse_body(self, bytes: Seq<u8>) -> Option<PackageView> {
        match self {
            Centralex::Heartbeat => match Heartbeat::parse(bytes) {
                Some(value) => Some(PackageView::Heartbeat(value)),
                None => None,
            },
            Centralex::End => match End::parse(bytes) {
                Some(value) => Some(PackageView::End(value)),
                None => None,
            },
            Centralex::Reject => match Reject::parse(bytes) {
                Some(value) => Some(PackageView::Reject(value)),
                None => None,
            },
            Centralex::RemConnect => match RemConnect::parse(bytes) {
                Some(value) => Some(PackageView::RemConnect(value)),
                None => None,
            },
            Centralex::RemConfirm => match RemConfirm::parse(bytes) {
                Some(value) => Some(PackageView::RemConfirm(value)),
                None => None,
            },
            Centralex::RemCall => match RemCall::parse(bytes) {
                Some(value) => Some(PackageView::RemCall(value)),
                None => None,
            },
            Centralex::RemAck => match RemAck::parse(bytes) {
                Some(value) => Some(PackageView::RemAck(value)),
                None => None,
            },
        }
    }

    open spec fn round_trips(union: PackageView) -> bool {
        match union {
            PackageView::Heartbeat(value) => Heartbeat::round_trips(value),
            PackageView::End(value) => End::round_trips(value),
            PackageView::Reject(value) => Reject::round_trips(value),
            PackageView::RemConnect(value) => RemConnect::round_trips(value),
            PackageView::RemConfirm(value) => RemConfirm::round_trips(value),
            PackageView::RemCall(value) => RemCall::round_trips(value),
            PackageView::RemAck(value) => RemAck::round_trips(value),
        }
    }

    open spec fn debug_text(union: PackageView) -> Seq<char> {
        match union {
            PackageView::Heartbeat(value) => Heartbeat::debug_text(value),
            PackageView::End(value) => End::debug_text(value),
            PackageView::Reject(value) => Reject::debug_text(value),
            PackageView::RemConnect(value) => RemConnect::debug_text(value),
            PackageView::RemConfirm(value) => RemConfirm::debug_text(value),
            PackageView::RemCall(value) => RemCall::debug_text(value),
            PackageView::RemAck(value) => RemAck::debug_text(value),
        }
    }

    fn serialize(union: &Package, writer: &mut Vec<u8>) {
        union.serialize_header(writer);
        match union {
            Package::Heartbeat(value) => value.serialize_body(writer),
            Package::End(value) => value.serialize_body(writer),
            Package::Reject(value) => value.serialize_body(writer),
            Package::RemConnect(value) => value.serialize_body(writer),
            Package::RemConfirm(value) => value.serialize_body(writer),
            Package::RemCall(value) => value.serialize_body(writer),
            Package::RemAck(value) => value.serialize_body(writer),
        }
        assert(writer@ =~= old(writer)@ + frame(
            Self::class_of(union@).discriminant(),
            Self::body_wire(union@),
        ));
    }

    fn deserialize(bytes: &[u8]) -> (r: Result<Package, CodecError>) {
        let (discriminant, body) = match read_frame(bytes) {
            Ok(parts) => parts,
            Err(e) => { return Err(e); },
        };
        match discriminant {
            0x00 => match Heartbeat::deserialize_body(body) {
                Ok(value) => Ok(Package::Heartbeat(value)),
                Err(e) => Err(e),
            },
            0x03 => match End::deserialize_body(body) {
                Ok(value) => Ok(Package::End(value)),
                Err(e) => Err(e),
            },
            0x04 => match Reject::deserialize_body(body) {
                Ok(value) => Ok(Package::Reject(value)),
                Err(e) => Err(e),
            },
            0x81 => match RemConnect::deserialize_body(body) {
                Ok(value) => Ok(Package::RemConnect(value)),
                Err(e) => Err(e),
            },
            0x82 => match RemConfirm::deserialize_body(body) {
                Ok(value) => Ok(Package::RemConfirm(value)),
                Err(e) => Err(e),
            },
            0x83 => match RemCall::deserialize_body(body) {
                Ok(value) => Ok(Package::RemCall(value)),
                Err(e) => Err(e),
            },
            0x84 => match RemAck::deserialize_body(body) {
                Ok(value) => Ok(Package::RemAck(value)),
                Err(e) => Err(e),
            },
            _ => Err(CodecError::UnknownDiscriminant(discriminant)),
        }
    }

    fn debug_body(union: &Package) -> (text: String) {
        union.debug_string()
    }

    proof fn lemma_body_wire_len(union: PackageView) {
        match union {
            PackageView::Heartbeat(value) => Heartbeat::lemma_wire_len(value),
            PackageView::End(value) => End::lemma_wire_len(value),
            PackageView::Reject(value) => Reject::lemma_wire_len(value),
            PackageView::RemConnect(value) => RemConnect::lemma_wire_len(value),
            PackageView::RemConfirm(value) => RemConfirm::lemma_wire_len(value),
            PackageView::RemCall(value) => RemCall::lemma_wire_len(value),
            PackageView::RemAck(value) => RemAck::lemma_wire_len(value),
        }
    }

    proof fn lemma_parse_body_class(class: Centralex, bytes: Seq<u8>) {
    }

    proof fn lemma_body_round_trip(union: PackageView, tail: Seq<u8>) {
        match union {
            PackageView::Heartbeat(value) => Heartbeat::lemma_round_trip(value, tail),
            PackageView::End(value) => End::lemma_round_trip(value, tail),
            PackageView::Reject(value) => Reject::lemma_round_trip(value, tail),
            PackageView::RemConnect(value) => RemConnect::lemma_round_trip(value, tail),
            PackageView::RemConfirm(value) => RemConfirm::lemma_round_trip(value, tail),
            PackageView::RemCall(value) => RemCall::lemma_round_trip(value, tail),
            PackageView::RemAck(value) => RemAck::lemma_round_trip(value, tail),
        }
    }
}

} // verus!
