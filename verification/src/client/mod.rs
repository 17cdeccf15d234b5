//! The dialect that two terminals speak with each other while a connection
//! stands.
use vstd::prelude::*;
use vstd::std_specs::convert::{FromSpecImpl, TryFromSpecImpl};
use vstd::string::StringExecFns;
use crate::codec::{
    capped_text,
    capped_wire,
    decode_capped_string,
    encode_capped_string,
    lemma_capped_round_trip,
    text_fits,
    CAPPED_MAX_CONTENT,
};
use crate::error::CodecError;
use crate::frame::{frame, read_frame};
use crate::render::{quoted, str_debug};
use crate::{Class, Dialect, PackageBody};

pub mod package_enum;

pub use package_enum::{Package, PackageView};

verus! {

/// The kinds of package in the client dialect.
#[derive(Debug, Copy, Clone, PartialEq, Eq, Structural)]
pub enum Client {
    Heartbeat,
    End,
    Reject,
}

/// Number of body bytes of [`Heartbeat`].
pub const LENGTH_HEARTBEAT: u8 = 0;

/// Number of body bytes of [`End`].
pub const LENGTH_END: u8 = 0;

/// Keeps an idle connection open. It has no body.
#[derive(Debug, Clone, PartialEq, Eq, Structural)]
pub struct Heartbeat {}

impl View for Heartbeat {
    type V = Heartbeat;

    open spec fn view(&self) -> Heartbeat {
        *self
    }
}

impl PackageBody for Heartbeat {
    type Class = Client;

    const VARIANT: Client = Client::Heartbeat;

    open spec fn variant() -> Client {
        Client::Heartbeat
    }

    open spec fn wire(value: Heartbeat) -> Seq<u8> {
        Seq::empty()
    }

    open spec fn parse(bytes: Seq<u8>) -> Option<Heartbeat> {
        Some(Heartbeat {})
    }

    open spec fn round_trips(value: Heartbeat) -> bool {
        true
    }

    open spec fn inject(value: Heartbeat) -> PackageView {
        PackageView::Heartbeat(value)
    }

    open spec fn project(union: PackageView) -> Option<Heartbeat> {
        match union {
            PackageView::Heartbeat(value) => Some(value),
            _ => None,
        }
    }

    fn serialize_body(&self, writer: &mut Vec<u8>) {
        assert(writer@ =~= old(writer)@ + Self::wire(self@));
    }

    fn deserialize_body(bytes: &[u8]) -> (r: Result<Heartbeat, CodecError>) {
        Ok(Heartbeat {})
    }

    open spec fn debug_text(value: Heartbeat) -> Seq<char> {
        "Heartbeat"@
    }

    fn debug_string(&self) -> (text: String) {
        String::from_str("Heartbeat")
    }

    fn into_union(self) -> (union: Package) {
        let union = Package::Heartbeat(self);
        assert(union@ == PackageView::Heartbeat(self@));
        union
    }

    fn from_union(union: Package) -> (r: Option<Heartbeat>) {
        match union {
            Package::Heartbeat(value) => Some(value),
            _ => None,
        }
    }

    fn union_ref(union: &Package) -> (r: Option<&Heartbeat>) {
        match union {
            Package::Heartbeat(value) => Some(value),
            _ => None,
        }
    }

    fn union_mut(union: &mut Package) -> (r: Option<&mut Heartbeat>) {
        match union {
            Package::Heartbeat(value) => Some(value),
            _ => None,
        }
    }

    proof fn lemma_variant() {
        assert(Self::VARIANT == Client::Heartbeat);
    }

    proof fn lemma_wire_len(value: Heartbeat) {
    }

    proof fn lemma_round_trip(value: Heartbeat, tail: Seq<u8>) {
    }

    proof fn lemma_project(union: PackageView) {
        assert(Client::class_of(union) == Client::Heartbeat <==> union is Heartbeat);
    }

    proof fn lemma_inject(value: Heartbeat) {
    }
}

impl From<Box<Heartbeat>> for crate::Package<Client> {
    /// Wraps a boxed body, as [`crate::Package::from_box`] does.
    fn from(pkg: Box<Heartbeat>) -> (package: Self)
        ensures
            package@ == Heartbeat::inject((*pkg)@),
    {
        crate::Package::from_box(pkg)
    }
}

/// The conversion is pinned by the contract of `from` itself, over the
/// package's view.
impl FromSpecImpl<Box<Heartbeat>> for crate::Package<Client> {
    open spec fn obeys_from_spec() -> bool {
        false
    }

    open spec fn from_spec(pkg: Box<Heartbeat>) -> Self {
        arbitrary()
    }
}

impl TryFrom<crate::Package<Client>> for Heartbeat {
    type Error = ();

    /// Takes the body out of a package of this kind. A package of another
    /// kind is an error.
    fn try_from(pkg: crate::Package<Client>) -> (r: Result<Heartbeat, ()>)
        ensures
            r is Ok <==> Heartbeat::project(pkg@) is Some,
            r matches Ok(body) ==> Some(body@) == Heartbeat::project(pkg@),
    {
        proof {
            Heartbeat::lemma_project(pkg@);
        }
        match pkg.downcast::<Heartbeat>() {
            Some(body) => Ok(*body),
            None => Err(()),
        }
    }
}

/// The conversion is pinned by the contract of `try_from` itself, over the
/// views of package and body.
impl TryFromSpecImpl<crate::Package<Client>> for Heartbeat {
    open spec fn obeys_try_from_spec() -> bool {
        false
    }

    open spec fn try_from_spec(pkg: crate::Package<Client>) -> Result<Heartbeat, ()> {
        arbitrary()
    }
}

/// Ends the connection. It has no body.
#[derive(Debug, Clone, PartialEq, Eq, Structural)]
pub struct End {}

impl View for End {
    type V = End;

    open spec fn view(&self) -> End {
        *self
    }
}

impl PackageBody for End {
    type Class = Client;

    const VARIANT: Client = Client::End;

    open spec fn variant() -> Client {
        Client::End
    }

    open spec fn wire(value: End) -> Seq<u8> {
        Seq::empty()
    }

    open spec fn parse(bytes: Seq<u8>) -> Option<End> {
        Some(End {})
    }

    open spec fn round_trips(value: End) -> bool {
        true
    }

    open spec fn inject(value: End) -> PackageView {
        PackageView::End(value)
    }

    open spec fn project(union: PackageView) -> Option<End> {
        match union {
            PackageView::End(value) => Some(value),
            _ => None,
        }
    }

    fn serialize_body(&self, writer: &mut Vec<u8>) {
        assert(writer@ =~= old(writer)@ + Self::wire(self@));
    }

    fn deserialize_body(bytes: &[u8]) -> (r: Result<End, CodecError>) {
        Ok(End {})
    }

    open spec fn debug_text(value: End) -> Seq<char> {
        "End"@
    }

    fn debug_string(&self) -> (text: String) {
        String::from_str("End")
    }

    fn into_union(self) -> (union: Package) {
        let union = Package::End(self);
        assert(union@ == PackageView::End(self@));
        union
    }

    fn from_union(union: Package) -> (r: Option<End>) {
        match union {
            Package::End(value) => Some(value),
            _ => None,
        }
    }

    fn union_ref(union: &Package) -> (r: Option<&End>) {
        match union {
            Package::End(value) => Some(value),
            _ => None,
        }
    }

    fn union_mut(union: &mut Package) -> (r: Option<&mut End>) {
        match union {
            Package::End(value) => Some(value),
            _ => None,
        }
    }

    proof fn lemma_variant() {
        assert(Self::VARIANT == Client::End);
    }

    proof fn lemma_wire_len(value: End) {
    }

    proof fn lemma_round_trip(value: End, tail: Seq<u8>) {
    }

    proof fn lemma_project(union: PackageView) {
        assert(Client::class_of(union) == Client::End <==> union is End);
    }

    proof fn lemma_inject(value: End) {
    }
}

impl From<Box<End>> for crate::Package<Client> {
    /// Wraps a boxed body, as [`crate::Package::from_box`] does.
    fn from(pkg: Box<End>) -> (package: Self)
        ensures
            package@ == End::inject((*pkg)@),
    {
        crate::Package::from_box(pkg)
    }
}

/// The conversion is pinned by the contract of `from` itself, over the
/// package's view.
impl FromSpecImpl<Box<End>> for crate::Package<Client> {
    open spec fn obeys_from_spec() -> bool {
        false
    }

    open spec fn from_spec(pkg: Box<End>) -> Self {
        arbitrary()
    }
}

impl TryFrom<crate::Package<Client>> for End {
    type Error = ();

    /// Takes the body out of a package of this kind. A package of another
    /// kind is an error.
    fn try_from(pkg: crate::Package<Client>) -> (r: Result<End, ()>)
        ensures
            r is Ok <==> End::project(pkg@) is Some,
            r matches Ok(body) ==> Some(body@) == End::project(pkg@),
    {
        proof {
            End::lemma_project(pkg@);
        }
        match pkg.downcast::<End>() {
            Some(body) => Ok(*body),
            None => Err(()),
        }
    }
}

/// The conversion is pinned by the contract of `try_from` itself, over the
/// views of package and body.
impl TryFromSpecImpl<crate::Package<Client>> for End {
    open spec fn obeys_try_from_spec() -> bool {
        false
    }

    open spec fn try_from_spec(pkg: crate::Package<Client>) -> Result<End, ()> {
        arbitrary()
    }
}

/// Refuses a connection. The body is the reason, as zero-terminated text.
#[derive(Debug, Clone, PartialEq, Eq)]
pub struct Reject {
    pub message: String,
}

impl View for Reject {
    type V = Seq<char>;

    /// The text.
    open spec fn view(&self) -> Seq<char> {
        self.message@
    }
}

impl PackageBody for Reject {
    type Class = Client;

    const VARIANT: Client = Client::Reject;

    open spec fn variant() -> Client {
        Client::Reject
    }

    open spec fn wire(value: Seq<char>) -> Seq<u8> {
        capped_wire(value)
    }

    open spec fn parse(bytes: Seq<u8>) -> Option<Seq<char>> {
        Some(capped_text(bytes))
    }

    open spec fn round_trips(value: Seq<char>) -> bool {
        text_fits(value, CAPPED_MAX_CONTENT as nat)
    }

    open spec fn inject(value: Seq<char>) -> PackageView {
        PackageView::Reject(value)
    }

    open spec fn project(union: PackageView) -> Option<Seq<char>> {
        match union {
            PackageView::Reject(value) => Some(value),
            _ => None,
        }
    }

    fn serialize_body(&self, writer: &mut Vec<u8>) {
        let mut bytes = encode_capped_string(self.message.as_str());
        writer.append(&mut bytes);
    }

    fn deserialize_body(bytes: &[u8]) -> (r: Result<Reject, CodecError>) {
        Ok(Reject { message: decode_capped_string(bytes) })
    }

    open spec fn debug_text(value: Seq<char>) -> Seq<char> {
        "Reject { message: "@ + str_debug(value) + " }"@
    }

    fn debug_string(&self) -> (text: String) {
        let mut text = String::from_str("Reject { message: ");
        text.append(quoted(self.message.as_str()).as_str());
        text.append(" }");
        text
    }

    fn into_union(self) -> (union: Package) {
        let union = Package::Reject(self);
        assert(union@ == PackageView::Reject(self@));
        union
    }

    fn from_union(union: Package) -> (r: Option<Reject>) {
        match union {
            Package::Reject(value) => Some(value),
            _ => None,
        }
    }

    fn union_ref(union: &Package) -> (r: Option<&Reject>) {
        match union {
            Package::Reject(value) => Some(value),
            _ => None,
        }
    }

    fn union_mut(union: &mut Package) -> (r: Option<&mut Reject>) {
        match union {
            Package::Reject(value) => Some(value),
            _ => None,
        }
    }

    proof fn lemma_variant() {
        assert(Self::VARIANT == Client::Reject);
    }

    proof fn lemma_wire_len(value: Seq<char>) {
    }

    proof fn lemma_round_trip(value: Seq<char>, tail: Seq<u8>) {
        lemma_capped_round_trip(value, tail);
    }

    proof fn lemma_project(union: PackageView) {
        assert(Client::class_of(union) == Client::Reject <==> union is Reject);
    }

    proof fn lemma_inject(value: Seq<char>) {
    }
}

impl From<Box<Reject>> for crate::Package<Client> {
    /// Wraps a boxed body, as [`crate::Package::from_box`] does.
    fn from(pkg: Box<Reject>) -> (package: Self)
        ensures
            package@ == Reject::inject((*pkg)@),
    {
        crate::Package::from_box(pkg)
    }
}

/// The conversion is pinned by the contract of `from` itself, over the
/// package's view.
impl FromSpecImpl<Box<Reject>> for crate::Package<Client> {
    open spec fn obeys_from_spec() -> bool {
        false
    }

    open spec fn from_spec(pkg: Box<Reject>) -> Self {
        arbitrary()
    }
}

impl TryFrom<crate::Package<Client>> for Reject {
    type Error = ();

    /// Takes the body out of a package of this kind. A package of another
    /// kind is an error.
    fn try_from(pkg: crate::Package<Client>) -> (r: Result<Reject, ()>)
        ensures
            r is Ok <==> Reject::project(pkg@) is Some,
            r matches Ok(body) ==> Some(body@) == Reject::project(pkg@),
    {
        proof {
            Reject::lemma_project(pkg@);
        }
        match pkg.downcast::<Reject>() {
            Some(body) => Ok(*body),
            None => Err(()),
        }
    }
}

/// The conversion is pinned by the contract of `try_from` itself, over the
/// views of package and body.
impl TryFromSpecImpl<crate::Package<Client>> for Reject {
    open spec fn obeys_try_from_spec() -> bool {
        false
    }

    open spec fn try_from_spec(pkg: crate::Package<Client>) -> Result<Reject, ()> {
        arbitrary()
    }
}

impl From<String> for Reject {
    fn from(string: String) -> (reject: Reject) {
        Reject { message: string }
    }
}

impl FromSpecImpl<String> for Reject {
    open spec fn obeys_from_spec() -> bool {
        true
    }

    open spec fn from_spec(string: String) -> Reject {
        Reject { message: string }
    }
}

impl Reject {
    /// The text, as it would be printed.
    pub fn to_string(&self) -> (text: String)
        ensures
            text@ == self@,
    {
        self.message.clone()
    }
}

impl Class for Client {
    const NAME: &'static str = "Client";

    type Union = Package;

    open spec fn name() -> Seq<char> {
        "Client"@
    }

    open spec fn discriminant(self) -> u8 {
        match self {
            Client::Heartbeat => 0x00,
            Client::End => 0x03,
            Client::Reject => 0x04,
        }
    }

    open spec fn from_discriminant(byte: u8) -> Option<Client> {
        if byte == 0x00 {
            Some(Client::Heartbeat)
        } else if byte == 0x03 {
            Some(Client::End)
        } else if byte == 0x04 {
            Some(Client::Reject)
        } else {
            None
        }
    }

    open spec fn class_of(union: PackageView) -> Client {
        match union {
            PackageView::Heartbeat(_) => Client::Heartbeat,
            PackageView::End(_) => Client::End,
            PackageView::Reject(_) => Client::Reject,
        }
    }

    fn to_u8(self) -> (byte: u8) {
        match self {
            Client::Heartbeat => 0x00,
            Client::End => 0x03,
            Client::Reject => 0x04,
        }
    }

    fn from_u8(byte: u8) -> (r: Option<Client>) {
        match byte {
            0x00 => Some(Client::Heartbeat),
            0x03 => Some(Client::End),
            0x04 => Some(Client::Reject),
            _ => None,
        }
    }

    fn union_class(union: &Package) -> (class: Client) {
        match union {
            Package::Heartbeat(_) => Client::Heartbeat,
            Package::End(_) => Client::End,
            Package::Reject(_) => Client::Reject,
        }
    }

    proof fn lemma_name() {
        assert(Self::NAME@ == "Client"@);
    }

    proof fn lemma_discriminant(class: Client) {
    }

    proof fn lemma_from_discriminant(byte: u8) {
    }
}

impl From<Client> for u8 {
    /// The discriminant byte of a kind.
    fn from(class: Client) -> (byte: u8) {
        class.to_u8()
    }
}

impl FromSpecImpl<Client> for u8 {
    open spec fn obeys_from_spec() -> bool {
        true
    }

    open spec fn from_spec(class: Client) -> u8 {
        class.discriminant()
    }
}

impl TryFrom<u8> for Client {
    type Error = ();

    /// The kind that a byte stands for; an error for a byte that no kind of
    /// the dialect has.
    fn try_from(discriminant: u8) -> (r: Result<Client, ()>) {
        match Client::from_u8(discriminant) {
            Some(class) => Ok(class),
            None => Err(()),
        }
    }
}

impl TryFromSpecImpl<u8> for Client {
    open spec fn obeys_try_from_spec() -> bool {
        true
    }

    open spec fn try_from_spec(discriminant: u8) -> Result<Client, ()> {
        match Client::from_discriminant(discriminant) {
            Some(class) => Ok(class),
            None => Err(()),
        }
    }
}

impl Dialect for Client {
    open spec fn body_wire(union: PackageView) -> Seq<u8> {
        match union {
            PackageView::Heartbeat(value) => Heartbeat::wire(value),
            PackageView::End(value) => End::wire(value),
            PackageView::Reject(value) => Reject::wire(value),
        }
    }

    open spec fn parse_body(self, bytes: Seq<u8>) -> Option<PackageView> {
        match self {
            Client::Heartbeat => match Heartbeat::parse(bytes) {
                Some(value) => Some(PackageView::Heartbeat(value)),
                None => None,
            },
            Client::End => match End::parse(bytes) {
                Some(value) => Some(PackageView::End(value)),
                None => None,
            },
            Client::Reject => match Reject::parse(bytes) {
                Some(value) => Some(PackageView::Reject(value)),
                None => None,
            },
        }
    }

    open spec fn round_trips(union: PackageView) -> bool {
        match union {
            PackageView::Heartbeat(value) => Heartbeat::round_trips(value),
            PackageView::End(value) => End::round_trips(value),
            PackageView::Reject(value) => Reject::round_trips(value),
        }
    }

    open spec fn debug_text(union: PackageView) -> Seq<char> {
        match union {
            PackageView::Heartbeat(value) => Heartbeat::debug_text(value),
            PackageView::End(value) => End::debug_text(value),
            PackageView::Reject(value) => Reject::debug_text(value),
        }
    }

    fn serialize(union: &Package, writer: &mut Vec<u8>) {
        union.serialize_header(writer);
        match union {
            Package::Heartbeat(value) => value.serialize_body(writer),
            Package::End(value) => value.serialize_body(writer),
            Package::Reject(value) => value.serialize_body(writer),
        }
        assert(writer@ =~= old(writer)@ + frame(
            Self::class_of(union@).discriminant(),
            Self::body_wire(union@),
        ));
    }

    fn deserialize(bytes: &[u8]) -> (r: Result<Package, CodecError>) {
        let (discriminant, body) = match read_frame(bytes) {
            Ok(parts) => parts,
            Err(e) => { return Err(e); },
        };
        match discriminant {
            0x00 => match Heartbeat::deserialize_body(body) {
                Ok(value) => Ok(Package::Heartbeat(value)),
                Err(e) => Err(e),
            },
            0x03 => match End::deserialize_body(body) {
                Ok(value) => Ok(Package::End(value)),
                Err(e) => Err(e),
            },
            0x04 => match Reject::deserialize_body(body) {
                Ok(value) => Ok(Package::Reject(value)),
                Err(e) => Err(e),
            },
            _ => Err(CodecError::UnknownDiscriminant(discriminant)),
        }
    }

    fn debug_body(union: &Package) -> (text: String) {
        union.debug_string()
    }

    proof fn lemma_body_wire_len(union: PackageView) {
        match union {
            PackageView::Heartbeat(value) => Heartbeat::lemma_wire_len(value),
            PackageView::End(value) => End::lemma_wire_len(value),
            PackageView::Reject(value) => Reject::lemma_wire_len(value),
        }
    }

    proof fn lemma_parse_body_class(class: Client, bytes: Seq<u8>) {
    }

    proof fn lemma_body_round_trip(union: PackageView, tail: Seq<u8>) {
        match union {
            PackageView::Heartbeat(value) => Heartbeat::lemma_round_trip(value, tail),
            PackageView::End(value) => End::lemma_round_trip(value, tail),
            PackageView::Reject(value) => Reject::lemma_round_trip(value, tail),
        }
    }
}

} // verus!
