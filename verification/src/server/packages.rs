//! The packages of the server dialect.
use vstd::prelude::*;
use vstd::std_specs::convert::{FromSpecImpl, TryFromSpecImpl};
use vstd::string::StringExecFns;
use crate::addr::Ipv4Addr;
use crate::codec::{
    capped_text,
    capped_wire,
    decode_capped_string,
    encode_capped_string,
    fixed40_text,
    fixed40_wire,
    lemma_capped_round_trip,
    lemma_fixed40_round_trip,
    lemma_fixed40_wire_len,
    lemma_u16_round_trip,
    lemma_u32_round_trip,
    read_u16,
    read_u32,
    read_u8,
    text_fits,
    u16_from_le,
    u16_le,
    u32_from_le,
    u32_le,
    write_u16,
    write_u32,
    write_u8,
    CAPPED_MAX_CONTENT,
    FIXED40_MAX_CONTENT,
};
use crate::error::CodecError;
use crate::render::{decimal, decimal_string, digit, digit_str, quoted, str_debug};
use crate::server::package_enum::{Package, PackageView};
use crate::server::{ClientType, Server, String40Bytes};
use crate::{Class, PackageBody};

verus! {

/// Number of body bytes of [`ClientUpdate`].
pub const LENGTH_CLIENT_UPDATE: u8 = 8;

/// Number of body bytes of [`AddressConfirm`].
pub const LENGTH_ADDRESS_CONFIRM: u8 = 4;

/// Number of body bytes of [`PeerQuery`].
pub const LENGTH_PEER_QUERY: u8 = 5;

/// Number of body bytes of [`PeerNotFound`].
pub const LENGTH_PEER_NOT_FOUND: u8 = 0;

/// Number of body bytes of [`PeerReply`].
pub const LENGTH_PEER_REPLY: u8 = 100;

/// Number of body bytes of [`FullQuery`].
pub const LENGTH_FULL_QUERY: u8 = 5;

/// Number of body bytes of [`Login`].
pub const LENGTH_LOGIN: u8 = 5;

/// Number of body bytes of [`Acknowledge`].
pub const LENGTH_ACKNOWLEDGE: u8 = 0;

/// Number of body bytes of [`EndOfList`].
pub const LENGTH_END_OF_LIST: u8 = 0;

/// Number of body bytes of [`PeerSearch`].
pub const LENGTH_PEER_SEARCH: u8 = 41;

/// Tells the server under which port a terminal with a changing address
/// listens. The server takes the address from the connection and answers with
/// an [`AddressConfirm`].
#[derive(Debug, Clone, PartialEq, Eq, Structural)]
pub struct ClientUpdate {
    pub number: u32,
    pub pin: u16,
    pub port: u16,
}

impl View for ClientUpdate {
    type V = ClientUpdate;

    open spec fn view(&self) -> ClientUpdate {
        *self
    }
}

impl PackageBody for ClientUpdate {
    type Class = Server;

    const VARIANT: Server = Server::ClientUpdate;

    open spec fn variant() -> Server {
        Server::ClientUpdate
    }

    open spec fn wire(value: ClientUpdate) -> Seq<u8> {
        u32_le(value.number) + u16_le(value.pin) + u16_le(value.port)
    }

    open spec fn parse(bytes: Seq<u8>) -> Option<ClientUpdate> {
        if bytes.len() >= 8 {
            Some(
                ClientUpdate {
                    number: u32_from_le(bytes.subrange(0, 4)),
                    pin: u16_from_le(bytes.subrange(4, 6)),
                    port: u16_from_le(bytes.subrange(6, 8)),
                },
            )
        } else {
            None
        }
    }

    open spec fn round_trips(value: ClientUpdate) -> bool {
        true
    }

    open spec fn inject(value: ClientUpdate) -> PackageView {
        PackageView::ClientUpdate(value)
    }

    open spec fn project(union: PackageView) -> Option<ClientUpdate> {
        match union {
            PackageView::ClientUpdate(value) => Some(value),
            _ => None,
        }
    }

    fn serialize_body(&self, writer: &mut Vec<u8>) {
        write_u32(self.number, writer);
        write_u16(self.pin, writer);
        write_u16(self.port, writer);
        assert(writer@ =~= old(writer)@ + Self::wire(self@));
    }

    fn deserialize_body(bytes: &[u8]) -> (r: Result<ClientUpdate, CodecError>) {
        assert(Server::ClientUpdate.discriminant() == 0x01);
        match (
            read_u32(bytes, 0),
            read_u16(bytes, 4),
            read_u16(bytes, 6),
        ) {
            (Some(number), Some(pin), Some(port)) => Ok(ClientUpdate { number, pin, port }),
            _ => Err(CodecError::BodyDecodeError(0x01)),
        }
    }

    open spec fn debug_text(value: ClientUpdate) -> Seq<char> {
        "ClientUpdate { number: "@
            + decimal(value.number as nat)
            + ", pin: "@
            + decimal(value.pin as nat)
            + ", port: "@
            + decimal(value.port as nat)
            + " }"@
    }

    fn debug_string(&self) -> (text: String) {
        let mut text = String::from_str("ClientUpdate { number: ");
        text.append(decimal_string(self.number).as_str());
        text.append(", pin: ");
        text.append(decimal_string(self.pin as u32).as_str());
        text.append(", port: ");
        text.append(decimal_string(self.port as u32).as_str());
        text.append(" }");
        text
    }

    fn into_union(self) -> (union: Package) {
        let union = Package::ClientUpdate(self);
        assert(union@ == PackageView::ClientUpdate(self@));
        union
    }

    fn from_union(union: Package) -> (r: Option<ClientUpdate>) {
        match union {
            Package::ClientUpdate(value) => Some(value),
            _ => None,
        }
    }

    fn union_ref(union: &Package) -> (r: Option<&ClientUpdate>) {
        match union {
            Package::ClientUpdate(value) => Some(value),
            _ => None,
        }
    }

    fn union_mut(union: &mut Package) -> (r: Option<&mut ClientUpdate>) {
        match union {
            Package::ClientUpdate(value) => Some(value),
            _ => None,
        }
    }

    proof fn lemma_variant() {
        assert(Self::VARIANT == Server::ClientUpdate);
    }

    proof fn lemma_wire_len(value: ClientUpdate) {
    }

    proof fn lemma_round_trip(value: ClientUpdate, tail: Seq<u8>) {
        let bytes = Self::wire(value) + tail;
        assert(bytes.subrange(0, 4) =~= u32_le(value.number));
        lemma_u32_round_trip(value.number);
        assert(bytes.subrange(4, 6) =~= u16_le(value.pin));
        lemma_u16_round_trip(value.pin);
        assert(bytes.subrange(6, 8) =~= u16_le(value.port));
        lemma_u16_round_trip(value.port);
    }

    proof fn lemma_project(union: PackageView) {
        assert(Server::class_of(union) == Server::ClientUpdate <==> union is ClientUpdate);
    }

    proof fn lemma_inject(value: ClientUpdate) {
    }
}

impl From<Box<ClientUpdate>> for crate::Package<Server> {
    /// Wraps a boxed body, as [`crate::Package::from_box`] does.
    fn from(pkg: Box<ClientUpdate>) -> (package: Self)
        ensures
            package@ == ClientUpdate::inject((*pkg)@),
    {
        crate::Package::from_box(pkg)
    }
}

/// The conversion is pinned by the contract of `from` itself, over the
/// package's view.
impl FromSpecImpl<Box<ClientUpdate>> for crate::Package<Server> {
    open spec fn obeys_from_spec() -> bool {
        false
    }

    open spec fn from_spec(pkg: Box<ClientUpdate>) -> Self {
        arbitrary()
    }
}

impl TryFrom<crate::Package<Server>> for ClientUpdate {
    type Error = ();

    /// Takes the body out of a package of this kind. A package of another
    /// kind is an error.
    fn try_from(pkg: crate::Package<Server>) -> (r: Result<ClientUpdate, ()>)
        ensures
            r is Ok <==> ClientUpdate::project(pkg@) is Some,
            r matches Ok(body) ==> Some(body@) == ClientUpdate::project(pkg@),
    {
        proof {
            ClientUpdate::lemma_project(pkg@);
        }
        match pkg.downcast::<ClientUpdate>() {
            Some(body) => Ok(*body),
            None => Err(()),
        }
    }
}

/// The conversion is pinned by the contract of `try_from` itself, over the
/// views of package and body.
impl TryFromSpecImpl<crate::Package<Server>> for ClientUpdate {
    open spec fn obeys_try_from_spec() -> bool {
        false
    }

    open spec fn try_from_spec(pkg: crate::Package<Server>) -> Result<ClientUpdate, ()> {
        arbitrary()
    }
}

/// The server's answer to a [`ClientUpdate`]: the address that it has entered
/// for the terminal.
#[derive(Debug, Clone, PartialEq, Eq, Structural)]
pub struct AddressConfirm {
    pub ipaddress: Ipv4Addr,
}

impl View for AddressConfirm {
    type V = AddressConfirm;

    open spec fn view(&self) -> AddressConfirm {
        *self
    }
}

impl PackageBody for AddressConfirm {
    type Class = Server;

    const VARIANT: Server = Server::AddressConfirm;

    open spec fn variant() -> Server {
        Server::AddressConfirm
    }

    open spec fn wire(value: AddressConfirm) -> Seq<u8> {
        value.ipaddress.wire()
    }

    open spec fn parse(bytes: Seq<u8>) -> Option<AddressConfirm> {
        if bytes.len() >= 4 {
            Some(
                AddressConfirm {
                    ipaddress: Ipv4Addr::parse(bytes.subrange(0, 4)),
                },
            )
        } else {
            None
        }
    }

    open spec fn round_trips(value: AddressConfirm) -> bool {
        true
    }

    open spec fn inject(value: AddressConfirm) -> PackageView {
        PackageView::AddressConfirm(value)
    }

    open spec fn project(union: PackageView) -> Option<AddressConfirm> {
        match union {
            PackageView::AddressConfirm(value) => Some(value),
            _ => None,
        }
    }

    fn serialize_body(&self, writer: &mut Vec<u8>) {
        self.ipaddress.serialize(writer);
        assert(writer@ =~= old(writer)@ + Self::wire(self@));
    }

    fn deserialize_body(bytes: &[u8]) -> (r: Result<AddressConfirm, CodecError>) {
        assert(Server::AddressConfirm.discriminant() == 0x02);
        match Ipv4Addr::deserialize(bytes, 0) {
            Some(ipaddress) => Ok(AddressConfirm { ipaddress }),
            None => Err(CodecError::BodyDecodeError(0x02)),
        }
    }

    open spec fn debug_text(value: AddressConfirm) -> Seq<char> {
        "AddressConfirm { ipaddress: "@ + value.ipaddress.debug_text() + " }"@
    }

    fn debug_string(&self) -> (text: String) {
        let mut text = String::from_str("AddressConfirm { ipaddress: ");
        text.append(self.ipaddress.debug_string().as_str());
        text.append(" }");
        text
    }

    fn into_union(self) -> (union: Package) {
        let union = Package::AddressConfirm(self);
        assert(union@ == PackageView::AddressConfirm(self@));
        union
    }

    fn from_union(union: Package) -> (r: Option<AddressConfirm>) {
        match union {
            Package::AddressConfirm(value) => Some(value),
            _ => None,
        }
    }

    fn union_ref(union: &Package) -> (r: Option<&AddressConfirm>) {
        match union {
            Package::AddressConfirm(value) => Some(value),
            _ => None,
        }
    }

    fn union_mut(union: &mut Package) -> (r: Option<&mut AddressConfirm>) {
        match union {
            Package::AddressConfirm(value) => Some(value),
            _ => None,
        }
    }

    proof fn lemma_variant() {
        assert(Self::VARIANT == Server::AddressConfirm);
    }

    proof fn lemma_wire_len(value: AddressConfirm) {
    }

    proof fn lemma_round_trip(value: AddressConfirm, tail: Seq<u8>) {
        let bytes = Self::wire(value) + tail;
        assert(bytes.subrange(0, 4) =~= value.ipaddress.wire());
        value.ipaddress.lemma_round_trip();
    }

    proof fn lemma_project(union: PackageView) {
        assert(Server::class_of(union) == Server::AddressConfirm <==> union is AddressConfirm);
    }

    proof fn lemma_inject(value: AddressConfirm) {
    }
}

impl From<Box<AddressConfirm>> for crate::Package<Server> {
    /// Wraps a boxed body, as [`crate::Package::from_box`] does.
    fn from(pkg: Box<AddressConfirm>) -> (package: Self)
        ensures
            package@ == AddressConfirm::inject((*pkg)@),
    {
        crate::Package::from_box(pkg)
    }
}

/// The conversion is pinned by the contract of `from` itself, over the
/// package's view.
impl FromSpecImpl<Box<AddressConfirm>> for crate::Package<Server> {
    open spec fn obeys_from_spec() -> bool {
        false
    }

    open spec fn from_spec(pkg: Box<AddressConfirm>) -> Self {
        arbitrary()
    }
}

impl TryFrom<crate::Package<Server>> for AddressConfirm {
    type Error = ();

    /// Takes the body out of a package of this kind. A package of another
    /// kind is an error.
    fn try_from(pkg: crate::Package<Server>) -> (r: Result<AddressConfirm, ()>)
        ensures
            r is Ok <==> AddressConfirm::project(pkg@) is Some,
            r matches Ok(body) ==> Some(body@) == AddressConfirm::project(pkg@),
    {
        proof {
            AddressConfirm::lemma_project(pkg@);
        }
        match pkg.downcast::<AddressConfirm>() {
            Some(body) => Ok(*body),
            None => Err(()),
        }
    }
}

/// The conversion is pinned by the contract of `try_from` itself, over the
/// views of package and body.
impl TryFromSpecImpl<crate::Package<Server>> for AddressConfirm {
    open spec fn obeys_try_from_spec() -> bool {
        false
    }

    open spec fn try_from_spec(pkg: crate::Package<Server>) -> Result<AddressConfirm, ()> {
        arbitrary()
    }
}

/// Asks for the directory entry of one number.
#[derive(Debug, Clone, PartialEq, Eq, Structural)]
pub struct PeerQuery {
    pub number: u32,
    pub version: u8,
}

impl View for PeerQuery {
    type V = PeerQuery;

    open spec fn view(&self) -> PeerQuery {
        *self
    }
}

impl PackageBody for PeerQuery {
    type Class = Server;

    const VARIANT: Server = Server::PeerQuery;

    open spec fn variant() -> Server {
        Server::PeerQuery
    }

    open spec fn wire(value: PeerQuery) -> Seq<u8> {
        u32_le(value.number) + seq![value.version]
    }

    open spec fn parse(bytes: Seq<u8>) -> Option<PeerQuery> {
        if bytes.len() >= 5 {
            Some(
                PeerQuery {
                    number: u32_from_le(bytes.subrange(0, 4)),
                    version: bytes[4],
                },
            )
        } else {
            None
        }
    }

    open spec fn round_trips(value: PeerQuery) -> bool {
        true
    }

    open spec fn inject(value: PeerQuery) -> PackageView {
        PackageView::PeerQuery(value)
    }

    open spec fn project(union: PackageView) -> Option<PeerQuery> {
        match union {
            PackageView::PeerQuery(value) => Some(value),
            _ => None,
        }
    }

    fn serialize_body(&self, writer: &mut Vec<u8>) {
        write_u32(self.number, writer);
        write_u8(self.version, writer);
        assert(writer@ =~= old(writer)@ + Self::wire(self@));
    }

    fn deserialize_body(bytes: &[u8]) -> (r: Result<PeerQuery, CodecError>) {
        assert(Server::PeerQuery.discriminant() == 0x03);
        match (
            read_u32(bytes, 0),
            read_u8(bytes, 4),
        ) {
            (Some(number), Some(version)) => Ok(PeerQuery { number, version }),
            _ => Err(CodecError::BodyDecodeError(0x03)),
        }
    }

    open spec fn debug_text(value: PeerQuery) -> Seq<char> {
        "PeerQuery { number: "@
            + decimal(value.number as nat)
            + ", version: "@
            + decimal(value.version as nat)
            + " }"@
    }

    fn debug_string(&self) -> (text: String) {
        let mut text = String::from_str("PeerQuery { number: ");
        text.append(decimal_string(self.number).as_str());
        text.append(", version: ");
        text.append(decimal_string(self.version as u32).as_str());
        text.append(" }");
        text
    }

    fn into_union(self) -> (union: Package) {
        let union = Package::PeerQuery(self);
        assert(union@ == PackageView::PeerQuery(self@));
        union
    }

    fn from_union(union: Package) -> (r: Option<PeerQuery>) {
        match union {
            Package::PeerQuery(value) => Some(value),
            _ => None,
        }
    }

    fn union_ref(union: &Package) -> (r: Option<&PeerQuery>) {
        match union {
            Package::PeerQuery(value) => Some(value),
            _ => None,
        }
    }

    fn union_mut(union: &mut Package) -> (r: Option<&mut PeerQuery>) {
        match union {
            Package::PeerQuery(value) => Some(value),
            _ => None,
        }
    }

    proof fn lemma_variant() {
        assert(Self::VARIANT == Server::PeerQuery);
    }

    proof fn lemma_wire_len(value: PeerQuery) {
    }

    proof fn lemma_round_trip(value: PeerQuery, tail: Seq<u8>) {
        let bytes = Self::wire(value) + tail;
        assert(bytes.subrange(0, 4) =~= u32_le(value.number));
        lemma_u32_round_trip(value.number);
        assert(bytes[4] == value.version);
    }

    proof fn lemma_project(union: PackageView) {
        assert(Server::class_of(union) == Server::PeerQuery <==> union is PeerQuery);
    }

    proof fn lemma_inject(value: PeerQuery) {
    }
}

impl From<Box<PeerQuery>> for crate::Package<Server> {
    /// Wraps a boxed body, as [`crate::Package::from_box`] does.
    fn from(pkg: Box<PeerQuery>) -> (package: Self)
        ensures
            package@ == PeerQuery::inject((*pkg)@),
    {
        crate::Package::from_box(pkg)
    }
}

/// The conversion is pinned by the contract of `from` itself, over the
/// package's view.
impl FromSpecImpl<Box<PeerQuery>> for crate::Package<Server> {
    open spec fn obeys_from_spec() -> bool {
        false
    }

    open spec fn from_spec(pkg: Box<PeerQuery>) -> Self {
        arbitrary()
    }
}

impl TryFrom<crate::Package<Server>> for PeerQuery {
    type Error = ();

    /// Takes the body out of a package of this kind. A package of another
    /// kind is an error.
    fn try_from(pkg: crate::Package<Server>) -> (r: Result<PeerQuery, ()>)
        ensures
            r is Ok <==> PeerQuery::project(pkg@) is Some,
            r matches Ok(body) ==> Some(body@) == PeerQuery::project(pkg@),
    {
        proof {
            PeerQuery::lemma_project(pkg@);
        }
        match pkg.downcast::<PeerQuery>() {
            Some(body) => Ok(*body),
            None => Err(()),
        }
    }
}

/// The conversion is pinned by the contract of `try_from` itself, over the
/// views of package and body.
impl TryFromSpecImpl<crate::Package<Server>> for PeerQuery {
    open spec fn obeys_try_from_spec() -> bool {
        false
    }

    open spec fn try_from_spec(pkg: crate::Package<Server>) -> Result<PeerQuery, ()> {
        arbitrary()
    }
}

/// The server's answer where the directory has no entry. It has no body.
#[derive(Debug, Clone, PartialEq, Eq, Structural)]
pub struct PeerNotFound {}

impl View for PeerNotFound {
    type V = PeerNotFound;

    open spec fn view(&self) -> PeerNotFound {
        *self
    }
}

impl PackageBody for PeerNotFound {
    type Class = Server;

    const VARIANT: Server = Server::PeerNotFound;

    open spec fn variant() -> Server {
        Server::PeerNotFound
    }

    open spec fn wire(value: PeerNotFound) -> Seq<u8> {
        Seq::empty()
    }

    open spec fn parse(bytes: Seq<u8>) -> Option<PeerNotFound> {
        Some(PeerNotFound {})
    }

    open spec fn round_trips(value: PeerNotFound) -> bool {
        true
    }

    open spec fn inject(value: PeerNotFound) -> PackageView {
        PackageView::PeerNotFound(value)
    }

    open spec fn project(union: PackageView) -> Option<PeerNotFound> {
        match union {
            PackageView::PeerNotFound(value) => Some(value),
            _ => None,
        }
    }

    fn serialize_body(&self, writer: &mut Vec<u8>) {
        assert(writer@ =~= old(writer)@ + Self::wire(self@));
    }

    fn deserialize_body(bytes: &[u8]) -> (r: Result<PeerNotFound, CodecError>) {
        Ok(PeerNotFound {})
    }

    open spec fn debug_text(value: PeerNotFound) -> Seq<char> {
        "PeerNotFound"@
    }

    fn debug_string(&self) -> (text: String) {
        String::from_str("PeerNotFound")
    }

    fn into_union(self) -> (union: Package) {
        let union = Package::PeerNotFound(self);
        assert(union@ == PackageView::PeerNotFound(self@));
        union
    }

    fn from_union(union: Package) -> (r: Option<PeerNotFound>) {
        match union {
            Package::PeerNotFound(value) => Some(value),
            _ => None,
        }
    }

    fn union_ref(union: &Package) -> (r: Option<&PeerNotFound>) {
        match union {
            Package::PeerNotFound(value) => Some(value),
            _ => None,
        }
    }

    fn union_mut(union: &mut Package) -> (r: Option<&mut PeerNotFound>) {
        match union {
            Package::PeerNotFound(value) => Some(value),
            _ => None,
        }
    }

    proof fn lemma_variant() {
        assert(Self::VARIANT == Server::PeerNotFound);
    }

    proof fn lemma_wire_len(value: PeerNotFound) {
    }

    proof fn lemma_round_trip(value: PeerNotFound, tail: Seq<u8>) {
    }

    proof fn lemma_project(union: PackageView) {
        assert(Server::class_of(union) == Server::PeerNotFound <==> union is PeerNotFound);
    }

    proof fn lemma_inject(value: PeerNotFound) {
    }
}

impl From<Box<PeerNotFound>> for crate::Package<Server> {
    /// Wraps a boxed body, as [`crate::Package::from_box`] does.
    fn from(pkg: Box<PeerNotFound>) -> (package: Self)
        ensures
            package@ == PeerNotFound::inject((*pkg)@),
    {
        crate::Package::from_box(pkg)
    }
}

/// The conversion is pinned by the contract of `from` itself, over the
/// package's view.
impl FromSpecImpl<Box<PeerNotFound>> for crate::Package<Server> {
    open spec fn obeys_from_spec() -> bool {
        false
    }

    open spec fn from_spec(pkg: Box<PeerNotFound>) -> Self {
        arbitrary()
    }
}

impl TryFrom<crate::Package<Server>> for PeerNotFound {
    type Error = ();

    /// Takes the body out of a package of this kind. A package of another
    /// kind is an error.
    fn try_from(pkg: crate::Package<Server>) -> (r: Result<PeerNotFound, ()>)
        ensures
            r is Ok <==> PeerNotFound::project(pkg@) is Some,
            r matches Ok(body) ==> Some(body@) == PeerNotFound::project(pkg@),
    {
        proof {
            PeerNotFound::lemma_project(pkg@);
        }
        match pkg.downcast::<PeerNotFound>() {
            Some(body) => Ok(*body),
            None => Err(()),
        }
    }
}

/// The conversion is pinned by the contract of `try_from` itself, over the
/// views of package and body.
impl TryFromSpecImpl<crate::Package<Server>> for PeerNotFound {
    open spec fn obeys_try_from_spec() -> bool {
        false
    }

    open spec fn try_from_spec(pkg: crate::Package<Server>) -> Result<PeerNotFound, ()> {
        arbitrary()
    }
}

/// One directory entry.
///
/// An entry without a host name has an empty `hostname`; an entry without an
/// address has the broadcast address 255.255.255.255 as `ipaddress`. The
/// address 0.0.0.0 is an address like any other.
#[derive(Debug, Clone, PartialEq, Eq)]
pub struct PeerReply {
    pub number: u32,
    pub name: String40Bytes,
    /// Bit 1 (`0x02`) marks a disabled entry. The other bits are reserved and
    /// zero.
    pub flags: u16,
    pub client_type: ClientType,
    pub hostname: String40Bytes,
    pub ipaddress: Ipv4Addr,
    pub port: u16,
    /// The extension in its one-byte code; see [`PeerReply::extension_as_str`].
    pub extension: u8,
    pub pin: u16,
    pub timestamp: u32,
}

/// What a [`PeerReply`] holds, with its texts as character sequences.
pub struct PeerReplyView {
    pub number: u32,
    pub name: Seq<char>,
    pub flags: u16,
    pub client_type: ClientType,
    pub hostname: Seq<char>,
    pub ipaddress: Ipv4Addr,
    pub port: u16,
    pub extension: u8,
    pub pin: u16,
    pub timestamp: u32,
}

impl View for PeerReply {
    type V = PeerReplyView;

    open spec fn view(&self) -> PeerReplyView {
        PeerReplyView {
            number: self.number,
            name: self.name@,
            flags: self.flags,
            client_type: self.client_type,
            hostname: self.hostname@,
            ipaddress: self.ipaddress,
            port: self.port,
            extension: self.extension,
            pin: self.pin,
            timestamp: self.timestamp,
        }
    }
}

impl PackageBody for PeerReply {
    type Class = Server;

    const VARIANT: Server = Server::PeerReply;

    open spec fn variant() -> Server {
        Server::PeerReply
    }

    open spec fn wire(value: PeerReplyView) -> Seq<u8> {
        u32_le(value.number)
            + fixed40_wire(value.name)
            + u16_le(value.flags)
            + seq![value.client_type.code()]
            + fixed40_wire(value.hostname)
            + value.ipaddress.wire()
            + u16_le(value.port)
            + seq![value.extension]
            + u16_le(value.pin)
            + u32_le(value.timestamp)
    }

    open spec fn parse(bytes: Seq<u8>) -> Option<PeerReplyView> {
        if bytes.len() >= 100 && ClientType::from_code(bytes[46]) is Some {
            Some(
                PeerReplyView {
                    number: u32_from_le(bytes.subrange(0, 4)),
                    name: fixed40_text(bytes.subrange(4, 44)),
                    flags: u16_from_le(bytes.subrange(44, 46)),
                    client_type: ClientType::from_code(bytes[46]).unwrap(),
                    hostname: fixed40_text(bytes.subrange(47, 87)),
                    ipaddress: Ipv4Addr::parse(bytes.subrange(87, 91)),
                    port: u16_from_le(bytes.subrange(91, 93)),
                    extension: bytes[93],
                    pin: u16_from_le(bytes.subrange(94, 96)),
                    timestamp: u32_from_le(bytes.subrange(96, 100)),
                },
            )
        } else {
            None
        }
    }

    open spec fn round_trips(value: PeerReplyView) -> bool {
        text_fits(value.name, FIXED40_MAX_CONTENT as nat) && text_fits(value.hostname, FIXED40_MAX_CONTENT as nat)
    }

    open spec fn inject(value: PeerReplyView) -> PackageView {
        PackageView::PeerReply(value)
    }

    open spec fn project(union: PackageView) -> Option<PeerReplyView> {
        match union {
            PackageView::PeerReply(value) => Some(value),
            _ => None,
        }
    }

    fn serialize_body(&self, writer: &mut Vec<u8>) {
        write_u32(self.number, writer);
        self.name.serialize(writer);
        write_u16(self.flags, writer);
        self.client_type.serialize_le(writer);
        self.hostname.serialize(writer);
        self.ipaddress.serialize(writer);
        write_u16(self.port, writer);
        write_u8(self.extension, writer);
        write_u16(self.pin, writer);
        write_u32(self.timestamp, writer);
        assert(writer@ =~= old(writer)@ + Self::wire(self@));
    }

    fn deserialize_body(bytes: &[u8]) -> (r: Result<PeerReply, CodecError>) {
        assert(Server::PeerReply.discriminant() == 0x05);
        match (
            read_u32(bytes, 0),
            String40Bytes::deserialize(bytes, 4),
            read_u16(bytes, 44),
            ClientType::deserialize_le(bytes, 46),
            String40Bytes::deserialize(bytes, 47),
            Ipv4Addr::deserialize(bytes, 87),
            read_u16(bytes, 91),
            read_u8(bytes, 93),
            read_u16(bytes, 94),
            read_u32(bytes, 96),
        ) {
            (
                Some(number),
                Some(name),
                Some(flags),
                Some(client_type),
                Some(hostname),
                Some(ipaddress),
                Some(port),
                Some(extension),
                Some(pin),
                Some(timestamp),
            ) => Ok(
                PeerReply {
                    number,
                    name,
                    flags,
                    client_type,
                    hostname,
                    ipaddress,
                    port,
                    extension,
                    pin,
                    timestamp,
                },
            ),
            _ => Err(CodecError::BodyDecodeError(0x05)),
        }
    }

    open spec fn debug_text(value: PeerReplyView) -> Seq<char> {
        "PeerReply { number: "@
            + decimal(value.number as nat)
            + ", name: "@
            + String40Bytes::debug_text(value.name)
            + ", flags: "@
            + decimal(value.flags as nat)
            + ", client_type: "@
            + value.client_type.name_text()
            + ", hostname: "@
            + String40Bytes::debug_text(value.hostname)
            + ", ipaddress: "@
            + value.ipaddress.debug_text()
            + ", port: "@
            + decimal(value.port as nat)
            + ", extension: "@
            + decimal(value.extension as nat)
            + ", pin: "@
            + decimal(value.pin as nat)
            + ", timestamp: "@
            + decimal(value.timestamp as nat)
            + " }"@
    }

    fn debug_string(&self) -> (text: String) {
        let mut text = String::from_str("PeerReply { number: ");
        text.append(decimal_string(self.number).as_str());
        text.append(", name: ");
        text.append(self.name.debug_string().as_str());
        text.append(", flags: ");
        text.append(decimal_string(self.flags as u32).as_str());
        text.append(", client_type: ");
        text.append(self.client_type.name());
        text.append(", hostname: ");
        text.append(self.hostname.debug_string().as_str());
        text.append(", ipaddress: ");
        text.append(self.ipaddress.debug_string().as_str());
        text.append(", port: ");
        text.append(decimal_string(self.port as u32).as_str());
        text.append(", extension: ");
        text.append(decimal_string(self.extension as u32).as_str());
        text.append(", pin: ");
        text.append(decimal_string(self.pin as u32).as_str());
        text.append(", timestamp: ");
        text.append(decimal_string(self.timestamp).as_str());
        text.append(" }");
        text
    }

    fn into_union(self) -> (union: Package) {
        let union = Package::PeerReply(self);
        assert(union@ == PackageView::PeerReply(self@));
        union
    }

    fn from_union(union: Package) -> (r: Option<PeerReply>) {
        match union {
            Package::PeerReply(value) => Some(value),
            _ => None,
        }
    }

    fn union_ref(union: &Package) -> (r: Option<&PeerReply>) {
        match union {
            Package::PeerReply(value) => Some(value),
            _ => None,
        }
    }

    fn union_mut(union: &mut Package) -> (r: Option<&mut PeerReply>) {
        match union {
            Package::PeerReply(value) => Some(value),
            _ => None,
        }
    }

    proof fn lemma_variant() {
        assert(Self::VARIANT == Server::PeerReply);
    }

    proof fn lemma_wire_len(value: PeerReplyView) {
        lemma_fixed40_wire_len(value.name);
        lemma_fixed40_wire_len(value.hostname);
    }

    proof fn lemma_round_trip(value: PeerReplyView, tail: Seq<u8>) {
        let bytes = Self::wire(value) + tail;
        lemma_fixed40_wire_len(value.name);
        lemma_fixed40_wire_len(value.hostname);
        assert(bytes.subrange(0, 4) =~= u32_le(value.number));
        lemma_u32_round_trip(value.number);
        assert(bytes.subrange(4, 44) =~= fixed40_wire(value.name));
        lemma_fixed40_round_trip(value.name);
        assert(bytes.subrange(44, 46) =~= u16_le(value.flags));
        lemma_u16_round_trip(value.flags);
        assert(bytes[46] == value.client_type.code());
        ClientType::lemma_code(value.client_type, 0);
        assert(bytes.subrange(47, 87) =~= fixed40_wire(value.hostname));
        lemma_fixed40_round_trip(value.hostname);
        assert(bytes.subrange(87, 91) =~= value.ipaddress.wire());
        value.ipaddress.lemma_round_trip();
        assert(bytes.subrange(91, 93) =~= u16_le(value.port));
        lemma_u16_round_trip(value.port);
        assert(bytes[93] == value.extension);
        assert(bytes.subrange(94, 96) =~= u16_le(value.pin));
        lemma_u16_round_trip(value.pin);
        assert(bytes.subrange(96, 100) =~= u32_le(value.timestamp));
        lemma_u32_round_trip(value.timestamp);
    }

    proof fn lemma_project(union: PackageView) {
        assert(Server::class_of(union) == Server::PeerReply <==> union is PeerReply);
    }

    proof fn lemma_inject(value: PeerReplyView) {
    }
}

impl From<Box<PeerReply>> for crate::Package<Server> {
    /// Wraps a boxed body, as [`crate::Package::from_box`] does.
    fn from(pkg: Box<PeerReply>) -> (package: Self)
        ensures
            package@ == PeerReply::inject((*pkg)@),
    {
        crate::Package::from_box(pkg)
    }
}

/// The conversion is pinned by the contract of `from` itself, over the
/// package's view.
impl FromSpecImpl<Box<PeerReply>> for crate::Package<Server> {
    open spec fn obeys_from_spec() -> bool {
        false
    }

    open spec fn from_spec(pkg: Box<PeerReply>) -> Self {
        arbitrary()
    }
}

impl TryFrom<crate::Package<Server>> for PeerReply {
    type Error = ();

    /// Takes the body out of a package of this kind. A package of another
    /// kind is an error.
    fn try_from(pkg: crate::Package<Server>) -> (r: Result<PeerReply, ()>)
        ensures
            r is Ok <==> PeerReply::project(pkg@) is Some,
            r matches Ok(body) ==> Some(body@) == PeerReply::project(pkg@),
    {
        proof {
            PeerReply::lemma_project(pkg@);
        }
        match pkg.downcast::<PeerReply>() {
            Some(body) => Ok(*body),
            None => Err(()),
        }
    }
}

/// The conversion is pinned by the contract of `try_from` itself, over the
/// views of package and body.
impl TryFromSpecImpl<crate::Package<Server>> for PeerReply {
    open spec fn obeys_try_from_spec() -> bool {
        false
    }

    open spec fn try_from_spec(pkg: crate::Package<Server>) -> Result<PeerReply, ()> {
        arbitrary()
    }
}

/// Asks another server for all of its directory entries.
#[derive(Debug, Clone, PartialEq, Eq, Structural)]
pub struct FullQuery {
    pub version: u8,
    pub server_pin: u32,
}

impl View for FullQuery {
    type V = FullQuery;

    open spec fn view(&self) -> FullQuery {
        *self
    }
}

impl PackageBody for FullQuery {
    type Class = Server;

    const VARIANT: Server = Server::FullQuery;

    open spec fn variant() -> Server {
        Server::FullQuery
    }

    open spec fn wire(value: FullQuery) -> Seq<u8> {
        seq![value.version] + u32_le(value.server_pin)
    }

    open spec fn parse(bytes: Seq<u8>) -> Option<FullQuery> {
        if bytes.len() >= 5 {
            Some(
                FullQuery {
                    version: bytes[0],
                    server_pin: u32_from_le(bytes.subrange(1, 5)),
                },
            )
        } else {
            None
        }
    }

    open spec fn round_trips(value: FullQuery) -> bool {
        true
    }

    open spec fn inject(value: FullQuery) -> PackageView {
        PackageView::FullQuery(value)
    }

    open spec fn project(union: PackageView) -> Option<FullQuery> {
        match union {
            PackageView::FullQuery(value) => Some(value),
            _ => None,
        }
    }

    fn serialize_body(&self, writer: &mut Vec<u8>) {
        write_u8(self.version, writer);
        write_u32(self.server_pin, writer);
        assert(writer@ =~= old(writer)@ + Self::wire(self@));
    }

    fn deserialize_body(bytes: &[u8]) -> (r: Result<FullQuery, CodecError>) {
        assert(Server::FullQuery.discriminant() == 0x06);
        match (
            read_u8(bytes, 0),
            read_u32(bytes, 1),
        ) {
            (Some(version), Some(server_pin)) => Ok(FullQuery { version, server_pin }),
            _ => Err(CodecError::BodyDecodeError(0x06)),
        }
    }

    open spec fn debug_text(value: FullQuery) -> Seq<char> {
        "FullQuery { version: "@
            + decimal(value.version as nat)
            + ", server_pin: "@
            + decimal(value.server_pin as nat)
            + " }"@
    }

    fn debug_string(&self) -> (text: String) {
        let mut text = String::from_str("FullQuery { version: ");
        text.append(decimal_string(self.version as u32).as_str());
        text.append(", server_pin: ");
        text.append(decimal_string(self.server_pin).as_str());
        text.append(" }");
        text
    }

    fn into_union(self) -> (union: Package) {
        let union = Package::FullQuery(self);
        assert(union@ == PackageView::FullQuery(self@));
        union
    }

    fn from_union(union: Package) -> (r: Option<FullQuery>) {
        match union {
            Package::FullQuery(value) => Some(value),
            _ => None,
        }
    }

    fn union_ref(union: &Package) -> (r: Option<&FullQuery>) {
        match union {
            Package::FullQuery(value) => Some(value),
            _ => None,
        }
    }

    fn union_mut(union: &mut Package) -> (r: Option<&mut FullQuery>) {
        match union {
            Package::FullQuery(value) => Some(value),
            _ => None,
        }
    }

    proof fn lemma_variant() {
        assert(Self::VARIANT == Server::FullQuery);
    }

    proof fn lemma_wire_len(value: FullQuery) {
    }

    proof fn lemma_round_trip(value: FullQuery, tail: Seq<u8>) {
        let bytes = Self::wire(value) + tail;
        assert(bytes[0] == value.version);
        assert(bytes.subrange(1, 5) =~= u32_le(value.server_pin));
        lemma_u32_round_trip(value.server_pin);
    }

    proof fn lemma_project(union: PackageView) {
        assert(Server::class_of(union) == Server::FullQuery <==> union is FullQuery);
    }

    proof fn lemma_inject(value: FullQuery) {
    }
}

impl From<Box<FullQuery>> for crate::Package<Server> {
    /// Wraps a boxed body, as [`crate::Package::from_box`] does.
    fn from(pkg: Box<FullQuery>) -> (package: Self)
        ensures
            package@ == FullQuery::inject((*pkg)@),
    {
        crate::Package::from_box(pkg)
    }
}

/// The conversion is pinned by the contract of `from` itself, over the
/// package's view.
impl FromSpecImpl<Box<FullQuery>> for crate::Package<Server> {
    open spec fn obeys_from_spec() -> bool {
        false
    }

    open spec fn from_spec(pkg: Box<FullQuery>) -> Self {
        arbitrary()
    }
}

impl TryFrom<crate::Package<Server>> for FullQuery {
    type Error = ();

    /// Takes the body out of a package of this kind. A package of another
    /// kind is an error.
    fn try_from(pkg: crate::Package<Server>) -> (r: Result<FullQuery, ()>)
        ensures
            r is Ok <==> FullQuery::project(pkg@) is Some,
            r matches Ok(body) ==> Some(body@) == FullQuery::project(pkg@),
    {
        proof {
            FullQuery::lemma_project(pkg@);
        }
        match pkg.downcast::<FullQuery>() {
            Some(body) => Ok(*body),
            None => Err(()),
        }
    }
}

/// The conversion is pinned by the contract of `try_from` itself, over the
/// views of package and body.
impl TryFromSpecImpl<crate::Package<Server>> for FullQuery {
    open spec fn obeys_try_from_spec() -> bool {
        false
    }

    open spec fn try_from_spec(pkg: crate::Package<Server>) -> Result<FullQuery, ()> {
        arbitrary()
    }
}

/// Opens a session in which a server hands changed entries on to another. The
/// body is laid out as that of [`FullQuery`].
#[derive(Debug, Clone, PartialEq, Eq, Structural)]
pub struct Login {
    pub version: u8,
    pub server_pin: u32,
}

impl View for Login {
    type V = Login;

    open spec fn view(&self) -> Login {
        *self
    }
}

impl PackageBody for Login {
    type Class = Server;

    const VARIANT: Server = Server::Login;

    open spec fn variant() -> Server {
        Server::Login
    }

    open spec fn wire(value: Login) -> Seq<u8> {
        seq![value.version] + u32_le(value.server_pin)
    }

    open spec fn parse(bytes: Seq<u8>) -> Option<Login> {
        if bytes.len() >= 5 {
            Some(
                Login {
                    version: bytes[0],
                    server_pin: u32_from_le(bytes.subrange(1, 5)),
                },
            )
        } else {
            None
        }
    }

    open spec fn round_trips(value: Login) -> bool {
        true
    }

    open spec fn inject(value: Login) -> PackageView {
        PackageView::Login(value)
    }

    open spec fn project(union: PackageView) -> Option<Login> {
        match union {
            PackageView::Login(value) => Some(value),
            _ => None,
        }
    }

    fn serialize_body(&self, writer: &mut Vec<u8>) {
        write_u8(self.version, writer);
        write_u32(self.server_pin, writer);
        assert(writer@ =~= old(writer)@ + Self::wire(self@));
    }

    fn deserialize_body(bytes: &[u8]) -> (r: Result<Login, CodecError>) {
        assert(Server::Login.discriminant() == 0x07);
        match (
            read_u8(bytes, 0),
            read_u32(bytes, 1),
        ) {
            (Some(version), Some(server_pin)) => Ok(Login { version, server_pin }),
            _ => Err(CodecError::BodyDecodeError(0x07)),
        }
    }

    open spec fn debug_text(value: Login) -> Seq<char> {
        "Login { version: "@
            + decimal(value.version as nat)
            + ", server_pin: "@
            + decimal(value.server_pin as nat)
            + " }"@
    }

    fn debug_string(&self) -> (text: String) {
        let mut text = String::from_str("Login { version: ");
        text.append(decimal_string(self.version as u32).as_str());
        text.append(", server_pin: ");
        text.append(decimal_string(self.server_pin).as_str());
        text.append(" }");
        text
    }

    fn into_union(self) -> (union: Package) {
        let union = Package::Login(self);
        assert(union@ == PackageView::Login(self@));
        union
    }

    fn from_union(union: Package) -> (r: Option<Login>) {
        match union {
            Package::Login(value) => Some(value),
            _ => None,
        }
    }

    fn union_ref(union: &Package) -> (r: Option<&Login>) {
        match union {
            Package::Login(value) => Some(value),
            _ => None,
        }
    }

    fn union_mut(union: &mut Package) -> (r: Option<&mut Login>) {
        match union {
            Package::Login(value) => Some(value),
            _ => None,
        }
    }

    proof fn lemma_variant() {
        assert(Self::VARIANT == Server::Login);
    }

    proof fn lemma_wire_len(value: Login) {
    }

    proof fn lemma_round_trip(value: Login, tail: Seq<u8>) {
        let bytes = Self::wire(value) + tail;
        assert(bytes[0] == value.version);
        assert(bytes.subrange(1, 5) =~= u32_le(value.server_pin));
        lemma_u32_round_trip(value.server_pin);
    }

    proof fn lemma_project(union: PackageView) {
        assert(Server::class_of(union) == Server::Login <==> union is Login);
    }

    proof fn lemma_inject(value: Login) {
    }
}

impl From<Box<Login>> for crate::Package<Server> {
    /// Wraps a boxed body, as [`crate::Package::from_box`] does.
    fn from(pkg: Box<Login>) -> (package: Self)
        ensures
            package@ == Login::inject((*pkg)@),
    {
        crate::Package::from_box(pkg)
    }
}

/// The conversion is pinned by the contract of `from` itself, over the
/// package's view.
impl FromSpecImpl<Box<Login>> for crate::Package<Server> {
    open spec fn obeys_from_spec() -> bool {
        false
    }

    open spec fn from_spec(pkg: Box<Login>) -> Self {
        arbitrary()
    }
}

impl TryFrom<crate::Package<Server>> for Login {
    type Error = ();

    /// Takes the body out of a package of this kind. A package of another
    /// kind is an error.
    fn try_from(pkg: crate::Package<Server>) -> (r: Result<Login, ()>)
        ensures
            r is Ok <==> Login::project(pkg@) is Some,
            r matches Ok(body) ==> Some(body@) == Login::project(pkg@),
    {
        proof {
            Login::lemma_project(pkg@);
        }
        match pkg.downcast::<Login>() {
            Some(body) => Ok(*body),
            None => Err(()),
        }
    }
}

/// The conversion is pinned by the contract of `try_from` itself, over the
/// views of package and body.
impl TryFromSpecImpl<crate::Package<Server>> for Login {
    open spec fn obeys_try_from_spec() -> bool {
        false
    }

    open spec fn try_from_spec(pkg: crate::Package<Server>) -> Result<Login, ()> {
        arbitrary()
    }
}

/// Confirms that an entry was taken over. It has no body.
#[derive(Debug, Clone, PartialEq, Eq, Structural)]
pub struct Acknowledge {}

impl View for Acknowledge {
    type V = Acknowledge;

    open spec fn view(&self) -> Acknowledge {
        *self
    }
}

impl PackageBody for Acknowledge {
    type Class = Server;

    const VARIANT: Server = Server::Acknowledge;

    open spec fn variant() -> Server {
        Server::Acknowledge
    }

    open spec fn wire(value: Acknowledge) -> Seq<u8> {
        Seq::empty()
    }

    open spec fn parse(bytes: Seq<u8>) -> Option<Acknowledge> {
        Some(Acknowledge {})
    }

    open spec fn round_trips(value: Acknowledge) -> bool {
        true
    }

    open spec fn inject(value: Acknowledge) -> PackageView {
        PackageView::Acknowledge(value)
    }

    open spec fn project(union: PackageView) -> Option<Acknowledge> {
        match union {
            PackageView::Acknowledge(value) => Some(value),
            _ => None,
        }
    }

    fn serialize_body(&self, writer: &mut Vec<u8>) {
        assert(writer@ =~= old(writer)@ + Self::wire(self@));
    }

    fn deserialize_body(bytes: &[u8]) -> (r: Result<Acknowledge, CodecError>) {
        Ok(Acknowledge {})
    }

    open spec fn debug_text(value: Acknowledge) -> Seq<char> {
        "Acknowledge"@
    }

    fn debug_string(&self) -> (text: String) {
        String::from_str("Acknowledge")
    }

    fn into_union(self) -> (union: Package) {
        let union = Package::Acknowledge(self);
        assert(union@ == PackageView::Acknowledge(self@));
        union
    }

    fn from_union(union: Package) -> (r: Option<Acknowledge>) {
        match union {
            Package::Acknowledge(value) => Some(value),
            _ => None,
        }
    }

    fn union_ref(union: &Package) -> (r: Option<&Acknowledge>) {
        match union {
            Package::Acknowledge(value) => Some(value),
            _ => None,
        }
    }

    fn union_mut(union: &mut Package) -> (r: Option<&mut Acknowledge>) {
        match union {
            Package::Acknowledge(value) => Some(value),
            _ => None,
        }
    }

    proof fn lemma_variant() {
        assert(Self::VARIANT == Server::Acknowledge);
    }

    proof fn lemma_wire_len(value: Acknowledge) {
    }

    proof fn lemma_round_trip(value: Acknowledge, tail: Seq<u8>) {
    }

    proof fn lemma_project(union: PackageView) {
        assert(Server::class_of(union) == Server::Acknowledge <==> union is Acknowledge);
    }

    proof fn lemma_inject(value: Acknowledge) {
    }
}

impl From<Box<Acknowledge>> for crate::Package<Server> {
    /// Wraps a boxed body, as [`crate::Package::from_box`] does.
    fn from(pkg: Box<Acknowledge>) -> (package: Self)
        ensures
            package@ == Acknowledge::inject((*pkg)@),
    {
        crate::Package::from_box(pkg)
    }
}

/// The conversion is pinned by the contract of `from` itself, over the
/// package's view.
impl FromSpecImpl<Box<Acknowledge>> for crate::Package<Server> {
    open spec fn obeys_from_spec() -> bool {
        false
    }

    open spec fn from_spec(pkg: Box<Acknowledge>) -> Self {
        arbitrary()
    }
}

impl TryFrom<crate::Package<Server>> for Acknowledge {
    type Error = ();

    /// Takes the body out of a package of this kind. A package of another
    /// kind is an error.
    fn try_from(pkg: crate::Package<Server>) -> (r: Result<Acknowledge, ()>)
        ensures
            r is Ok <==> Acknowledge::project(pkg@) is Some,
            r matches Ok(body) ==> Some(body@) == Acknowledge::project(pkg@),
    {
        proof {
            Acknowledge::lemma_project(pkg@);
        }
        match pkg.downcast::<Acknowledge>() {
            Some(body) => Ok(*body),
            None => Err(()),
        }
    }
}

/// The conversion is pinned by the contract of `try_from` itself, over the
/// views of package and body.
impl TryFromSpecImpl<crate::Package<Server>> for Acknowledge {
    open spec fn obeys_try_from_spec() -> bool {
        false
    }

    open spec fn try_from_spec(pkg: crate::Package<Server>) -> Result<Acknowledge, ()> {
        arbitrary()
    }
}

/// Says that no more entries follow. It has no body.
#[derive(Debug, Clone, PartialEq, Eq, Structural)]
pub struct EndOfList {}

impl View for EndOfList {
    type V = EndOfList;

    open spec fn view(&self) -> EndOfList {
        *self
    }
}

impl PackageBody for EndOfList {
    type Class = Server;

    const VARIANT: Server = Server::EndOfList;

    open spec fn variant() -> Server {
        Server::EndOfList
    }

    open spec fn wire(value: EndOfList) -> Seq<u8> {
        Seq::empty()
    }

    open spec fn parse(bytes: Seq<u8>) -> Option<EndOfList> {
        Some(EndOfList {})
    }

    open spec fn round_trips(value: EndOfList) -> bool {
        true
    }

    open spec fn inject(value: EndOfList) -> PackageView {
        PackageView::EndOfList(value)
    }

    open spec fn project(union: PackageView) -> Option<EndOfList> {
        match union {
            PackageView::EndOfList(value) => Some(value),
            _ => None,
        }
    }

    fn serialize_body(&self, writer: &mut Vec<u8>) {
        assert(writer@ =~= old(writer)@ + Self::wire(self@));
    }

    fn deserialize_body(bytes: &[u8]) -> (r: Result<EndOfList, CodecError>) {
        Ok(EndOfList {})
    }

    open spec fn debug_text(value: EndOfList) -> Seq<char> {
        "EndOfList"@
    }

    fn debug_string(&self) -> (text: String) {
        String::from_str("EndOfList")
    }

    fn into_union(self) -> (union: Package) {
        let union = Package::EndOfList(self);
        assert(union@ == PackageView::EndOfList(self@));
        union
    }

    fn from_union(union: Package) -> (r: Option<EndOfList>) {
        match union {
            Package::EndOfList(value) => Some(value),
            _ => None,
        }
    }

    fn union_ref(union: &Package) -> (r: Option<&EndOfList>) {
        match union {
            Package::EndOfList(value) => Some(value),
            _ => None,
        }
    }

    fn union_mut(union: &mut Package) -> (r: Option<&mut EndOfList>) {
        match union {
            Package::EndOfList(value) => Some(value),
            _ => None,
        }
    }

    proof fn lemma_variant() {
        assert(Self::VARIANT == Server::EndOfList);
    }

    proof fn lemma_wire_len(value: EndOfList) {
    }

    proof fn lemma_round_trip(value: EndOfList, tail: Seq<u8>) {
    }

    proof fn lemma_project(union: PackageView) {
        assert(Server::class_of(union) == Server::EndOfList <==> union is EndOfList);
    }

    proof fn lemma_inject(value: EndOfList) {
    }
}

impl From<Box<EndOfList>> for crate::Package<Server> {
    /// Wraps a boxed body, as [`crate::Package::from_box`] does.
    fn from(pkg: Box<EndOfList>) -> (package: Self)
        ensures
            package@ == EndOfList::inject((*pkg)@),
    {
        crate::Package::from_box(pkg)
    }
}

/// The conversion is pinned by the contract of `from` itself, over the
/// package's view.
impl FromSpecImpl<Box<EndOfList>> for crate::Package<Server> {
    open spec fn obeys_from_spec() -> bool {
        false
    }

    open spec fn from_spec(pkg: Box<EndOfList>) -> Self {
        arbitrary()
    }
}

impl TryFrom<crate::Package<Server>> for EndOfList {
    type Error = ();

    /// Takes the body out of a package of this kind. A package of another
    /// kind is an error.
    fn try_from(pkg: crate::Package<Server>) -> (r: Result<EndOfList, ()>)
        ensures
            r is Ok <==> EndOfList::project(pkg@) is Some,
            r matches Ok(body) ==> Some(body@) == EndOfList::project(pkg@),
    {
        proof {
            EndOfList::lemma_project(pkg@);
        }
        match pkg.downcast::<EndOfList>() {
            Some(body) => Ok(*body),
            None => Err(()),
        }
    }
}

/// The conversion is pinned by the contract of `try_from` itself, over the
/// views of package and body.
impl TryFromSpecImpl<crate::Package<Server>> for EndOfList {
    open spec fn obeys_try_from_spec() -> bool {
        false
    }

    open spec fn try_from_spec(pkg: crate::Package<Server>) -> Result<EndOfList, ()> {
        arbitrary()
    }
}

/// Asks for the entries whose name matches a pattern.
#[derive(Debug, Clone, PartialEq, Eq)]
pub struct PeerSearch {
    pub version: u8,
    pub pattern: String40Bytes,
}

/// What a [`PeerSearch`] holds, with its texts as character sequences.
pub struct PeerSearchView {
    pub version: u8,
    pub pattern: Seq<char>,
}

impl View for PeerSearch {
    type V = PeerSearchView;

    open spec fn view(&self) -> PeerSearchView {
        PeerSearchView {
            version: self.version,
            pattern: self.pattern@,
        }
    }
}

impl PackageBody for PeerSearch {
    type Class = Server;

    const VARIANT: Server = Server::PeerSearch;

    open spec fn variant() -> Server {
        Server::PeerSearch
    }

    open spec fn wire(value: PeerSearchView) -> Seq<u8> {
        seq![value.version] + fixed40_wire(value.pattern)
    }

    open spec fn parse(bytes: Seq<u8>) -> Option<PeerSearchView> {
        if bytes.len() >= 41 {
            Some(
                PeerSearchView {
                    version: bytes[0],
                    pattern: fixed40_text(bytes.subrange(1, 41)),
                },
            )
        } else {
            None
        }
    }

    open spec fn round_trips(value: PeerSearchView) -> bool {
        text_fits(value.pattern, FIXED40_MAX_CONTENT as nat)
    }

    open spec fn inject(value: PeerSearchView) -> PackageView {
        PackageView::PeerSearch(value)
    }

    open spec fn project(union: PackageView) -> Option<PeerSearchView> {
        match union {
            PackageView::PeerSearch(value) => Some(value),
            _ => None,
        }
    }

    fn serialize_body(&self, writer: &mut Vec<u8>) {
        write_u8(self.version, writer);
        self.pattern.serialize(writer);
        assert(writer@ =~= old(writer)@ + Self::wire(self@));
    }

    fn deserialize_body(bytes: &[u8]) -> (r: Result<PeerSearch, CodecError>) {
        assert(Server::PeerSearch.discriminant() == 0x0A);
        match (
            read_u8(bytes, 0),
            String40Bytes::deserialize(bytes, 1),
        ) {
            (Some(version), Some(pattern)) => Ok(PeerSearch { version, pattern }),
            _ => Err(CodecError::BodyDecodeError(0x0A)),
        }
    }

    open spec fn debug_text(value: PeerSearchView) -> Seq<char> {
        "PeerSearch { version: "@
            + decimal(value.version as nat)
            + ", pattern: "@
            + String40Bytes::debug_text(value.pattern)
            + " }"@
    }

    fn debug_string(&self) -> (text: String) {
        let mut text = String::from_str("PeerSearch { version: ");
        text.append(decimal_string(self.version as u32).as_str());
        text.append(", pattern: ");
        text.append(self.pattern.debug_string().as_str());
        text.append(" }");
        text
    }

    fn into_union(self) -> (union: Package) {
        let union = Package::PeerSearch(self);
        assert(union@ == PackageView::PeerSearch(self@));
        union
    }

    fn from_union(union: Package) -> (r: Option<PeerSearch>) {
        match union {
            Package::PeerSearch(value) => Some(value),
            _ => None,
        }
    }

    fn union_ref(union: &Package) -> (r: Option<&PeerSearch>) {
        match union {
            Package::PeerSearch(value) => Some(value),
            _ => None,
        }
    }

    fn union_mut(union: &mut Package) -> (r: Option<&mut PeerSearch>) {
        match union {
            Package::PeerSearch(value) => Some(value),
            _ => None,
        }
    }

    proof fn lemma_variant() {
        assert(Self::VARIANT == Server::PeerSearch);
    }

    proof fn lemma_wire_len(value: PeerSearchView) {
        lemma_fixed40_wire_len(value.pattern);
    }

    proof fn lemma_round_trip(value: PeerSearchView, tail: Seq<u8>) {
        let bytes = Self::wire(value) + tail;
        lemma_fixed40_wire_len(value.pattern);
        assert(bytes[0] == value.version);
        assert(bytes.subrange(1, 41) =~= fixed40_wire(value.pattern));
        lemma_fixed40_round_trip(value.pattern);
    }

    proof fn lemma_project(union: PackageView) {
        assert(Server::class_of(union) == Server::PeerSearch <==> union is PeerSearch);
    }

    proof fn lemma_inject(value: PeerSearchView) {
    }
}

impl From<Box<PeerSearch>> for crate::Package<Server> {
    /// Wraps a boxed body, as [`crate::Package::from_box`] does.
    fn from(pkg: Box<PeerSearch>) -> (package: Self)
        ensures
            package@ == PeerSearch::inject((*pkg)@),
    {
        crate::Package::from_box(pkg)
    }
}

/// The conversion is pinned by the contract of `from` itself, over the
/// package's view.
impl FromSpecImpl<Box<PeerSearch>> for crate::Package<Server> {
    open spec fn obeys_from_spec() -> bool {
        false
    }

    open spec fn from_spec(pkg: Box<PeerSearch>) -> Self {
        arbitrary()
    }
}

impl TryFrom<crate::Package<Server>> for PeerSearch {
    type Error = ();

    /// Takes the body out of a package of this kind. A package of another
    /// kind is an error.
    fn try_from(pkg: crate::Package<Server>) -> (r: Result<PeerSearch, ()>)
        ensures
            r is Ok <==> PeerSearch::project(pkg@) is Some,
            r matches Ok(body) ==> Some(body@) == PeerSearch::project(pkg@),
    {
        proof {
            PeerSearch::lemma_project(pkg@);
        }
        match pkg.downcast::<PeerSearch>() {
            Some(body) => Ok(*body),
            None => Err(()),
        }
    }
}

/// The conversion is pinned by the contract of `try_from` itself, over the
/// views of package and body.
impl TryFromSpecImpl<crate::Package<Server>> for PeerSearch {
    open spec fn obeys_try_from_spec() -> bool {
        false
    }

    open spec fn try_from_spec(pkg: crate::Package<Server>) -> Result<PeerSearch, ()> {
        arbitrary()
    }
}

/// Reports a failure. The body is the message, as zero-terminated text.
#[derive(Debug, Clone, PartialEq, Eq)]
pub struct Error {
    pub message: String,
}

impl View for Error {
    type V = Seq<char>;

    /// The text.
    open spec fn view(&self) -> Seq<char> {
        self.message@
    }
}

impl PackageBody for Error {
    type Class = Server;

    const VARIANT: Server = Server::Error;

    open spec fn variant() -> Server {
        Server::Error
    }

    open spec fn wire(value: Seq<char>) -> Seq<u8> {
        capped_wire(value)
    }

    open spec fn parse(bytes: Seq<u8>) -> Option<Seq<char>> {
        Some(capped_text(bytes))
    }

    open spec fn round_trips(value: Seq<char>) -> bool {
        text_fits(value, CAPPED_MAX_CONTENT as nat)
    }

    open spec fn inject(value: Seq<char>) -> PackageView {
        PackageView::Error(value)
    }

    open spec fn project(union: PackageView) -> Option<Seq<char>> {
        match union {
            PackageView::Error(value) => Some(value),
            _ => None,
        }
    }

    fn serialize_body(&self, writer: &mut Vec<u8>) {
        let mut bytes = encode_capped_string(self.message.as_str());
        writer.append(&mut bytes);
    }

    fn deserialize_body(bytes: &[u8]) -> (r: Result<Error, CodecError>) {
        Ok(Error { message: decode_capped_string(bytes) })
    }

    open spec fn debug_text(value: Seq<char>) -> Seq<char> {
        "Error { message: "@ + str_debug(value) + " }"@
    }

    fn debug_string(&self) -> (text: String) {
        let mut text = String::from_str("Error { message: ");
        text.append(quoted(self.message.as_str()).as_str());
        text.append(" }");
        text
    }

    fn into_union(self) -> (union: Package) {
        let union = Package::Error(self);
        assert(union@ == PackageView::Error(self@));
        union
    }

    fn from_union(union: Package) -> (r: Option<Error>) {
        match union {
            Package::Error(value) => Some(value),
            _ => None,
        }
    }

    fn union_ref(union: &Package) -> (r: Option<&Error>) {
        match union {
            Package::Error(value) => Some(value),
            _ => None,
        }
    }

    fn union_mut(union: &mut Package) -> (r: Option<&mut Error>) {
        match union {
            Package::Error(value) => Some(value),
            _ => None,
        }
    }

    proof fn lemma_variant() {
        assert(Self::VARIANT == Server::Error);
    }

    proof fn lemma_wire_len(value: Seq<char>) {
    }

    proof fn lemma_round_trip(value: Seq<char>, tail: Seq<u8>) {
        lemma_capped_round_trip(value, tail);
    }

    proof fn lemma_project(union: PackageView) {
        assert(Server::class_of(union) == Server::Error <==> union is Error);
    }

    proof fn lemma_inject(value: Seq<char>) {
    }
}

impl From<Box<Error>> for crate::Package<Server> {
    /// Wraps a boxed body, as [`crate::Package::from_box`] does.
    fn from(pkg: Box<Error>) -> (package: Self)
        ensures
            package@ == Error::inject((*pkg)@),
    {
        crate::Package::from_box(pkg)
    }
}

/// The conversion is pinned by the contract of `from` itself, over the
/// package's view.
impl FromSpecImpl<Box<Error>> for crate::Package<Server> {
    open spec fn obeys_from_spec() -> bool {
        false
    }

    open spec fn from_spec(pkg: Box<Error>) -> Self {
        arbitrary()
    }
}

impl TryFrom<crate::Package<Server>> for Error {
    type Error = ();

    /// Takes the body out of a package of this kind. A package of another
    /// kind is an error.
    fn try_from(pkg: crate::Package<Server>) -> (r: Result<Error, ()>)
        ensures
            r is Ok <==> Error::project(pkg@) is Some,
            r matches Ok(body) ==> Some(body@) == Error::project(pkg@),
    {
        proof {
            Error::lemma_project(pkg@);
        }
        match pkg.downcast::<Error>() {
            Some(body) => Ok(*body),
            None => Err(()),
        }
    }
}

/// The conversion is pinned by the contract of `try_from` itself, over the
/// views of package and body.
impl TryFromSpecImpl<crate::Package<Server>> for Error {
    open spec fn obeys_try_from_spec() -> bool {
        false
    }

    open spec fn try_from_spec(pkg: crate::Package<Server>) -> Result<Error, ()> {
        arbitrary()
    }
}

impl From<String> for Error {
    fn from(string: String) -> (error: Error) {
        Error { message: string }
    }
}

impl FromSpecImpl<String> for Error {
    open spec fn obeys_from_spec() -> bool {
        true
    }

    open spec fn from_spec(string: String) -> Error {
        Error { message: string }
    }
}

impl Error {
    /// The text, as it would be printed.
    pub fn to_string(&self) -> (text: String)
        ensures
            text@ == self@,
    {
        self.message.clone()
    }
}

/// The text of an extension code, or none for a code that is not in use.
///
/// Code 0 is no extension, written `-`. The codes 1 to 99 are the two-digit
/// extensions `01` to `99`, and 100 is `00`. The codes 101 to 109 are the
/// one-digit extensions `1` to `9`, and 110 is `0`.
pub open spec fn extension_text(code: u8) -> Option<Seq<char>> {
    if code == 0 {
        Some(seq!['-'])
    } else if code == 100 {
        Some(seq!['0', '0'])
    } else if code == 110 {
        Some(seq!['0'])
    } else if code < 100 {
        Some(seq![digit(code / 10), digit(code % 10)])
    } else if code < 110 {
        Some(seq![digit((code - 100) as u8)])
    } else {
        None
    }
}

/// The flags of an entry that is disabled, or of one that is not.
pub open spec fn entry_flags(disabled: bool) -> u16 {
    if disabled {
        0x02
    } else {
        0x00
    }
}

/// Whether flags mark an entry as disabled: bit 1 is set.
pub open spec fn flags_disabled(flags: u16) -> bool {
    flags & 0x02 == 0x02
}

/// The flags that `PeerReply::flags` makes say what they were made from.
pub proof fn lemma_flags_disabled(disabled: bool)
    ensures
        flags_disabled(entry_flags(disabled)) == disabled,
{
    assert(0x02u16 & 0x02 == 0x02) by (bit_vector);
    assert(0x00u16 & 0x02 != 0x02) by (bit_vector);
}

impl PeerReply {
    /// The extension as it is dialled, or the code itself where it is none
    /// of the codes in use.
    pub fn extension_as_str(&self) -> (r: Result<String, u8>)
        ensures
            r is Ok <==> extension_text(self.extension) is Some,
            r matches Ok(text) ==> Some(text@) == extension_text(self.extension),
            r matches Err(code) ==> code == self.extension,
    {
        let code = self.extension;
        if code == 0 {
            proof {
                reveal_strlit("-");
            }
            let text = "-";
            assert(text@ =~= seq!['-']);
            Ok(text.to_owned())
        } else if code == 100 {
            proof {
                reveal_strlit("00");
            }
            let text = "00";
            assert(text@ =~= seq!['0', '0']);
            Ok(text.to_owned())
        } else if code == 110 {
            proof {
                reveal_strlit("0");
            }
            let text = "0";
            assert(text@ =~= seq!['0']);
            Ok(text.to_owned())
        } else if code < 100 {
            let mut text = String::from_str(digit_str(code / 10));
            text.append(digit_str(code % 10));
            assert(text@ =~= seq![digit(code / 10), digit(code % 10)]);
            Ok(text)
        } else if code < 110 {
            Ok(String::from_str(digit_str(code - 100)))
        } else {
            Err(code)
        }
    }

    /// Whether the entry is disabled.
    pub fn disabled(&self) -> (b: bool)
        ensures
            b == flags_disabled(self.flags),
    {
        self.flags & 2 == 0x02
    }

    /// The flags of an entry that is disabled, or of one that is not.
    pub fn flags(disabled: bool) -> (flags: u16)
        ensures
            flags == entry_flags(disabled),
    {
        if disabled {
            0x02
        } else {
            0x00
        }
    }

    /// The host name, where the entry has one: an empty name stands for
    /// none.
    pub fn hostname(&self) -> (r: Option<&str>)
        ensures
            r is None <==> self.hostname@.len() == 0,
            r matches Some(name) ==> name@ == self.hostname@,
    {
        if self.hostname.0.as_str().is_empty() {
            None
        } else {
            Some(self.hostname.0.as_str())
        }
    }

    /// The host name for writing, where the entry has one.
    pub fn hostname_mut(&mut self) -> (r: Option<&mut String>)
        ensures
            r is None <==> old(self).hostname@.len() == 0,
            r is None ==> *final(self) == *old(self),
            r matches Some(name) ==> *name == old(self).hostname.0 && *final(self) == (PeerReply {
                hostname: String40Bytes(*final(name)),
                ..*old(self)
            }),
    {
        if self.hostname.0.as_str().is_empty() {
            None
        } else {
            Some(&mut self.hostname.0)
        }
    }

    /// The address, where the entry has one: the broadcast address stands
    /// for none.
    pub fn ipaddress(&self) -> (r: Option<&Ipv4Addr>)
        ensures
            r == if self.ipaddress == Ipv4Addr(255, 255, 255, 255) {
                None
            } else {
                Some(&self.ipaddress)
            },
    {
        if self.ipaddress.is_broadcast() {
            None
        } else {
            Some(&self.ipaddress)
        }
    }

    /// The address for writing, where the entry has one.
    pub fn ipaddress_mut(&mut self) -> (r: Option<&mut Ipv4Addr>)
        ensures
            r is None <==> old(self).ipaddress == Ipv4Addr(255, 255, 255, 255),
            r is None ==> *final(self) == *old(self),
            r matches Some(addr) ==> *addr == old(self).ipaddress && *final(self) == (PeerReply {
                ipaddress: *final(addr),
                ..*old(self)
            }),
    {
        if self.ipaddress.is_broadcast() {
            None
        } else {
            Some(&mut self.ipaddress)
        }
    }
}

} // verus!
