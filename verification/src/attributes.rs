//! Message attributes: what a message says about itself besides its payload.
use crate::mechanics::UPriority;
use crate::table::TableKey;
use crate::uri::{UUri, UriView};
use protobuf::{EnumOrUnknown, Message};
use vstd::prelude::*;

verus! {

/// The identifier of a message.
#[derive(Clone, Copy, Debug, PartialEq, Eq, Structural)]
pub struct UUID {
    pub msb: u64,
    pub lsb: u64,
}

impl View for UUID {
    type V = UUID;

    open spec fn view(&self) -> UUID {
        *self
    }
}

impl UUID {
    /// Whether this is a UUID of version 7 and of the variant of RFC 4122.
    pub open spec fn uprotocol(self) -> bool {
        (self.msb / 0x1000) % 0x10 == 7 && self.lsb / 0x4000_0000_0000_0000 == 2
    }

    /// The time at which a uProtocol UUID was made, in milliseconds.
    pub open spec fn time(self) -> nat {
        (self.msb / 0x1_0000) as nat
    }

    /// Whether this is a UUID that uProtocol uses.
    pub fn is_uprotocol_uuid(&self) -> (b: bool)
        ensures
            b == self.uprotocol(),
    {
        (self.msb / 0x1000) % 0x10 == 7 && self.lsb / 0x4000_0000_0000_0000 == 2
    }

    /// The time at which the UUID was made, in milliseconds, if uProtocol uses it.
    pub fn get_time(&self) -> (r: Option<u64>)
        ensures
            match r {
                Some(t) => self.uprotocol() && t == self.time(),
                None => !self.uprotocol(),
            },
    {
        if self.is_uprotocol_uuid() {
            Some(self.msb / 0x1_0000)
        } else {
            None
        }
    }
}

impl TableKey for UUID {
    fn same(&self, other: &UUID) -> (b: bool) {
        self.msb == other.msb && self.lsb == other.lsb
    }
}

/// The kinds of messages.
#[derive(Clone, Copy, Debug, PartialEq, Eq, Structural)]
pub enum UMessageType {
    Unspecified,
    Publish,
    Request,
    Response,
    Notification,
}

impl UMessageType {
    /// The kind with the given number on the wire.
    pub open spec fn of(code: i32) -> Option<UMessageType> {
        if code == 0 {
            Some(UMessageType::Unspecified)
        } else if code == 1 {
            Some(UMessageType::Publish)
        } else if code == 2 {
            Some(UMessageType::Request)
        } else if code == 3 {
            Some(UMessageType::Response)
        } else if code == 4 {
            Some(UMessageType::Notification)
        } else {
            None
        }
    }
}

/// The formats of payloads.
#[derive(Clone, Copy, Debug, PartialEq, Eq, Structural)]
pub enum UPayloadFormat {
    Unspecified,
    ProtobufWrappedInAny,
    Protobuf,
    Json,
    Someip,
    SomeipTlv,
    Raw,
    Text,
    Shm,
}

impl UPayloadFormat {
    /// The number of this format on the wire.
    pub open spec fn spec_number(self) -> i32 {
        match self {
            UPayloadFormat::Unspecified => 0,
            UPayloadFormat::ProtobufWrappedInAny => 1,
            UPayloadFormat::Protobuf => 2,
            UPayloadFormat::Json => 3,
            UPayloadFormat::Someip => 4,
            UPayloadFormat::SomeipTlv => 5,
            UPayloadFormat::Raw => 6,
            UPayloadFormat::Text => 7,
            UPayloadFormat::Shm => 8,
        }
    }

    /// The format with the given number on the wire.
    pub open spec fn of(code: i32) -> Option<UPayloadFormat> {
        if code == 0 {
            Some(UPayloadFormat::Unspecified)
        } else if code == 1 {
            Some(UPayloadFormat::ProtobufWrappedInAny)
        } else if code == 2 {
            Some(UPayloadFormat::Protobuf)
        } else if code == 3 {
            Some(UPayloadFormat::Json)
        } else if code == 4 {
            Some(UPayloadFormat::Someip)
        } else if code == 5 {
            Some(UPayloadFormat::SomeipTlv)
        } else if code == 6 {
            Some(UPayloadFormat::Raw)
        } else if code == 7 {
            Some(UPayloadFormat::Text)
        } else if code == 8 {
            Some(UPayloadFormat::Shm)
        } else {
            None
        }
    }

    /// The number of this format on the wire.
    pub fn number(self) -> (n: i32)
        ensures
            n == self.spec_number(),
            UPayloadFormat::of(n) == Some(self),
    {
        match self {
            UPayloadFormat::Unspecified => 0,
            UPayloadFormat::ProtobufWrappedInAny => 1,
            UPayloadFormat::Protobuf => 2,
            UPayloadFormat::Json => 3,
            UPayloadFormat::Someip => 4,
            UPayloadFormat::SomeipTlv => 5,
            UPayloadFormat::Raw => 6,
            UPayloadFormat::Text => 7,
            UPayloadFormat::Shm => 8,
        }
    }

    /// The format with the given number on the wire.
    pub fn from_number(code: i32) -> (r: Option<UPayloadFormat>)
        ensures
            r == UPayloadFormat::of(code),
    {
        if code == 0 {
            Some(UPayloadFormat::Unspecified)
        } else if code == 1 {
            Some(UPayloadFormat::ProtobufWrappedInAny)
        } else if code == 2 {
            Some(UPayloadFormat::Protobuf)
        } else if code == 3 {
            Some(UPayloadFormat::Json)
        } else if code == 4 {
            Some(UPayloadFormat::Someip)
        } else if code == 5 {
            Some(UPayloadFormat::SomeipTlv)
        } else if code == 6 {
            Some(UPayloadFormat::Raw)
        } else if code == 7 {
            Some(UPayloadFormat::Text)
        } else if code == 8 {
            Some(UPayloadFormat::Shm)
        } else {
            None
        }
    }
}

/// The priority class with the given number on the wire, where the default class stands
/// in for an unspecified one.
pub open spec fn priority_of(code: i32) -> Option<UPriority> {
    if code == 0 || code == 2 {
        Some(UPriority::CS1)
    } else if code == 1 {
        Some(UPriority::CS0)
    } else if code == 3 {
        Some(UPriority::CS2)
    } else if code == 4 {
        Some(UPriority::CS3)
    } else if code == 5 {
        Some(UPriority::CS4)
    } else if code == 6 {
        Some(UPriority::CS5)
    } else if code == 7 {
        Some(UPriority::CS6)
    } else {
        None
    }
}

/// The priority class of outgoing messages: the default class unless a known one is given.
pub open spec fn priority_or_default(code: i32) -> UPriority {
    match priority_of(code) {
        Some(priority) => priority,
        None => UPriority::CS1,
    }
}

/// The attributes of a message.
///
/// Kinds, priorities, formats and status codes are kept as the numbers that they have on
/// the wire, so that numbers without a meaning survive.
#[derive(Debug)]
pub struct UAttributes {
    pub id: Option<UUID>,
    pub type_: i32,
    pub source: Option<UUri>,
    pub sink: Option<UUri>,
    pub priority: i32,
    pub ttl: Option<u32>,
    pub permission_level: Option<u32>,
    pub commstatus: Option<i32>,
    pub reqid: Option<UUID>,
    pub token: Option<String>,
    pub traceparent: Option<String>,
    pub payload_format: i32,
}

/// Attributes as a mathematical value.
#[verifier::ext_equal]
pub struct AttributesView {
    pub id: Option<UUID>,
    pub type_: i32,
    pub source: Option<UriView>,
    pub sink: Option<UriView>,
    pub priority: i32,
    pub ttl: Option<u32>,
    pub permission_level: Option<u32>,
    pub commstatus: Option<i32>,
    pub reqid: Option<UUID>,
    pub token: Option<Seq<char>>,
    pub traceparent: Option<Seq<char>>,
    pub payload_format: i32,
}

/// The model of an optional URI that is owned.
pub open spec fn owned_uri(uri: Option<UUri>) -> Option<UriView> {
    match uri {
        Some(u) => Some(u@),
        None => None,
    }
}

/// The model of an optional text.
pub open spec fn owned_text(text: Option<String>) -> Option<Seq<char>> {
    match text {
        Some(t) => Some(t@),
        None => None,
    }
}

impl View for UAttributes {
    type V = AttributesView;

    open spec fn view(&self) -> AttributesView {
        AttributesView {
            id: self.id,
            type_: self.type_,
            source: owned_uri(self.source),
            sink: owned_uri(self.sink),
            priority: self.priority,
            ttl: self.ttl,
            permission_level: self.permission_level,
            commstatus: self.commstatus,
            reqid: self.reqid,
            token: owned_text(self.token),
            traceparent: owned_text(self.traceparent),
            payload_format: self.payload_format,
        }
    }
}

impl UriView {
    /// Whether no part of the URI is a wildcard.
    pub open spec fn concrete(self) -> bool {
        !self.any_authority() && !self.any_instance() && !self.any_type() && !self.any_version()
            && !self.any_resource()
    }
}

impl AttributesView {
    /// Whether the message has an identifier that uProtocol uses.
    pub open spec fn has_valid_id(self) -> bool {
        self.id matches Some(id) && id.uprotocol()
    }

    /// Whether the priority is one of those for remote procedure calls.
    pub open spec fn has_rpc_priority(self) -> bool {
        5 <= self.priority <= 7
    }

    pub open spec fn valid_publish(self) -> bool {
        &&& self.source matches Some(source) && source.resource_id >= 0x8000 && source.concrete()
        &&& self.sink is None
    }

    pub open spec fn valid_request(self) -> bool {
        &&& self.source matches Some(source) && source.resource_id == 0 && source.concrete()
        &&& self.sink matches Some(sink) && sink.rpc_method() && sink.concrete()
        &&& self.ttl matches Some(ttl) && ttl > 0
        &&& self.has_rpc_priority()
    }

    pub open spec fn valid_response(self) -> bool {
        &&& self.source matches Some(source) && source.rpc_method() && source.concrete()
        &&& self.sink matches Some(sink) && sink.resource_id == 0 && sink.concrete()
        &&& self.reqid matches Some(reqid) && reqid.uprotocol()
        &&& self.commstatus matches Some(code) ==> 0 <= code <= 16
        &&& self.has_rpc_priority()
    }

    pub open spec fn valid_notification(self) -> bool {
        &&& self.source matches Some(source) && source.resource_id != 0 && source.concrete()
        &&& self.sink matches Some(sink) && sink.resource_id == 0 && sink.concrete()
    }

    /// Whether the attributes are those of a message of their kind.
    pub open spec fn valid(self) -> bool {
        self.has_valid_id() && match UMessageType::of(self.type_) {
            Some(UMessageType::Publish) => self.valid_publish(),
            Some(UMessageType::Request) => self.valid_request(),
            Some(UMessageType::Response) => self.valid_response(),
            Some(UMessageType::Notification) => self.valid_notification(),
            _ => false,
        }
    }

    /// Whether the message is no longer of use at a time in milliseconds, or at an
    /// unknown time.
    ///
    /// A message with a lifetime of zero never expires. A clock that cannot tell the time
    /// counts as late for every other message.
    pub open spec fn expired(self, now: Option<u128>) -> bool {
        if self.ttl == Some(0u32) {
            false
        } else {
            match now {
                None => true,
                Some(now) => match (self.ttl, self.id) {
                    (Some(ttl), Some(id)) => id.uprotocol() && id.time() + ttl <= now,
                    _ => false,
                },
            }
        }
    }
}

/// Attributes with the given parts.
pub open spec fn all_attributes(
    id: Option<UUID>,
    type_: i32,
    source: Option<UriView>,
    sink: Option<UriView>,
    priority: i32,
    ttl: Option<u32>,
    permission_level: Option<u32>,
    commstatus: Option<i32>,
    reqid: Option<UUID>,
    token: Option<Seq<char>>,
    traceparent: Option<Seq<char>>,
    payload_format: i32,
) -> AttributesView {
    AttributesView {
        id,
        type_,
        source,
        sink,
        priority,
        ttl,
        permission_level,
        commstatus,
        reqid,
        token,
        traceparent,
        payload_format,
    }
}

/// Attributes that are known as far as their validity depends on them.
pub open spec fn checked_attributes(
    id: Option<UUID>,
    type_: i32,
    source: Option<UriView>,
    sink: Option<UriView>,
    priority: i32,
    ttl: Option<u32>,
    commstatus: Option<i32>,
    reqid: Option<UUID>,
) -> AttributesView {
    AttributesView {
        id,
        type_,
        source,
        sink,
        priority,
        ttl,
        permission_level: None,
        commstatus,
        reqid,
        token: None,
        traceparent: None,
        payload_format: 0,
    }
}

impl AttributesView {
    /// These attributes as far as their validity depends on them.
    pub open spec fn checked(self) -> AttributesView {
        checked_attributes(
            self.id,
            self.type_,
            self.source,
            self.sink,
            self.priority,
            self.ttl,
            self.commstatus,
            self.reqid,
        )
    }
}

/// The number of bytes that a number takes on the wire, seven bits to a byte.
pub open spec fn varint_len(n: nat) -> nat
    decreases n,
{
    if n < 0x80 {
        1
    } else {
        1 + varint_len(n / 0x80)
    }
}

/// The number of bytes that a number field of a URI takes on the wire, with its tag.
pub open spec fn number_size(n: u32) -> nat {
    if n == 0 {
        0
    } else {
        1 + varint_len(n as nat)
    }
}

/// The number of bytes that a URI takes on the wire.
pub open spec fn uri_size(uri: UriView) -> nat {
    let name = vstd::utf8::encode_utf8(uri.authority_name).len();
    let name_size = if name == 0 {
        0
    } else {
        1 + varint_len(name) + name
    };
    name_size + number_size(uri.ue_id) + number_size(uri.ue_version_major) + number_size(
        uri.resource_id,
    )
}

/// Whether the length of an optional text in bytes fits the 32 bits that the wire format
/// has for it.
pub open spec fn moderate_text(text: Option<Seq<char>>) -> bool {
    text matches Some(t) ==> vstd::utf8::encode_utf8(t).len() <= u32::MAX
}

/// Whether the length of an optional URI in bytes fits the 32 bits that the wire format
/// has for it.
pub open spec fn moderate_uri(uri: Option<UriView>) -> bool {
    uri matches Some(u) ==> uri_size(u) <= u32::MAX
}

impl AttributesView {
    /// Whether every length fits the 32 bits that the wire format has for it.
    pub open spec fn moderate(self) -> bool {
        moderate_uri(self.source) && moderate_uri(self.sink) && moderate_text(self.token)
            && moderate_text(self.traceparent)
    }
}

/// The bytes that attributes are written to, or the text of the error.
pub uninterp spec fn attributes_encoding(attributes: AttributesView) -> Result<
    Seq<u8>,
    Seq<char>,
>;

/// The attributes that are read from bytes, or the text of the error.
pub uninterp spec fn attributes_decoding(bytes: Seq<u8>) -> Result<AttributesView, Seq<char>>;

/// The text with which attributes are refused that are not valid.
pub uninterp spec fn attributes_refusal(attributes: AttributesView) -> Seq<char>;

/// Calls `up_rust::UAttributes::write_to_bytes`, which protobuf provides.
///
/// The bytes are a function of the attributes alone. Reading them gives the attributes
/// back, unless a text or a URI is so long that its length in bytes does not fit the 32
/// bits that the format has for it. Attributes with an identifier take at least one byte.
/// Writing to memory does not fail: the format has no required fields.
#[verifier::external_body]
fn encode(
    id: Option<UUID>,
    type_: i32,
    source: Option<UUri>,
    sink: Option<UUri>,
    priority: i32,
    ttl: Option<u32>,
    permission_level: Option<u32>,
    commstatus: Option<i32>,
    reqid: Option<UUID>,
    token: Option<String>,
    traceparent: Option<String>,
    payload_format: i32,
) -> (r: Result<Vec<u8>, String>)
    ensures
        match attributes_encoding(
            all_attributes(
                id,
                type_,
                owned_uri(source),
                owned_uri(sink),
                priority,
                ttl,
                permission_level,
                commstatus,
                reqid,
                owned_text(token),
                owned_text(traceparent),
                payload_format,
            ),
        ) {
            Ok(bytes) => r matches Ok(b) && b@ == bytes,
            Err(error) => r matches Err(e) && e@ == error,
        },
        moderate_uri(owned_uri(source)) && moderate_uri(owned_uri(sink)) && moderate_text(
            owned_text(token),
        ) && moderate_text(owned_text(traceparent)) ==> (r matches Ok(bytes) ==> (
        attributes_decoding(bytes@) matches Ok(read) && read == all_attributes(
            id,
            type_,
            owned_uri(source),
            owned_uri(sink),
            priority,
            ttl,
            permission_level,
            commstatus,
            reqid,
            owned_text(token),
            owned_text(traceparent),
            payload_format,
        ))),
        r matches Ok(bytes) ==> (id is Some ==> bytes@.len() > 0),
        r is Ok,
{
    let uuid = |UUID { msb, lsb }| up_rust::UUID { msb, lsb, ..Default::default() };
    let uri = |UUri { authority_name, ue_id, ue_version_major, resource_id }| up_rust::UUri {
        authority_name, ue_id, ue_version_major, resource_id, ..Default::default()
    };
    let attributes = up_rust::UAttributes {
        id: id.map(uuid).into(), type_: EnumOrUnknown::from_i32(type_),
        source: source.map(uri).into(), sink: sink.map(uri).into(),
        priority: EnumOrUnknown::from_i32(priority), ttl, permission_level,
        commstatus: commstatus.map(EnumOrUnknown::from_i32), reqid: reqid.map(uuid).into(),
        token, traceparent, payload_format: EnumOrUnknown::from_i32(payload_format),
        ..Default::default()
    };
    attributes.write_to_bytes().map_err(|error| error.to_string())
}

/// The parts of attributes, in the order of the fields of [`UAttributes`].
type AttributeParts = (
    Option<UUID>,
    i32,
    Option<UUri>,
    Option<UUri>,
    i32,
    Option<u32>,
    Option<u32>,
    Option<i32>,
    Option<UUID>,
    Option<String>,
    Option<String>,
    i32,
);

/// The attributes with the given parts.
spec fn parts_view(parts: AttributeParts) -> AttributesView {
    all_attributes(
        parts.0,
        parts.1,
        owned_uri(parts.2),
        owned_uri(parts.3),
        parts.4,
        parts.5,
        parts.6,
        parts.7,
        parts.8,
        owned_text(parts.9),
        owned_text(parts.10),
        parts.11,
    )
}

/// Calls `up_rust::UAttributes::parse_from_bytes`, which protobuf provides.
///
/// The result is a function of the bytes alone.
#[verifier::external_body]
fn decode(bytes: &[u8]) -> (r: Result<AttributeParts, String>)
    ensures
        match attributes_decoding(bytes@) {
            Ok(attributes) => r matches Ok(parts) && parts_view(parts) == attributes,
            Err(error) => r matches Err(e) && e@ == error,
        },
{
    let uuid = |id: up_rust::UUID| UUID { msb: id.msb, lsb: id.lsb };
    let uri = |up_rust::UUri { authority_name, ue_id, ue_version_major, resource_id, .. }| UUri {
        authority_name, ue_id, ue_version_major, resource_id
    };
    up_rust::UAttributes::parse_from_bytes(bytes).map_err(|e| e.to_string()).map(|a| (
        a.id.into_option().map(uuid), a.type_.value(), a.source.into_option().map(uri),
        a.sink.into_option().map(uri), a.priority.value(), a.ttl, a.permission_level,
        a.commstatus.map(|c| c.value()), a.reqid.into_option().map(uuid), a.token,
        a.traceparent, a.payload_format.value(),
    ))
}

/// Calls the `validate` of the validator that
/// `up_rust::UAttributesValidators::get_validator_for_attributes` gives.
///
/// The arguments are the attributes that the validators read. They pass if they are those
/// of a message of their kind. The text of a refusal is a function of them alone.
#[verifier::external_body]
fn check(
    id: Option<UUID>,
    type_: i32,
    source: Option<UUri>,
    sink: Option<UUri>,
    priority: i32,
    ttl: Option<u32>,
    commstatus: Option<i32>,
    reqid: Option<UUID>,
) -> (r: Result<(), String>)
    ensures
        r is Ok <==> checked_attributes(
            id,
            type_,
            owned_uri(source),
            owned_uri(sink),
            priority,
            ttl,
            commstatus,
            reqid,
        ).valid(),
        r matches Err(text) ==> text@ == attributes_refusal(
            checked_attributes(
                id,
                type_,
                owned_uri(source),
                owned_uri(sink),
                priority,
                ttl,
                commstatus,
                reqid,
            ),
        ),
{
    let uuid = |UUID { msb, lsb }| up_rust::UUID { msb, lsb, ..Default::default() };
    let uri = |UUri { authority_name, ue_id, ue_version_major, resource_id }| up_rust::UUri {
        authority_name, ue_id, ue_version_major, resource_id, ..Default::default()
    };
    let attributes = up_rust::UAttributes {
        id: id.map(uuid).into(), type_: EnumOrUnknown::from_i32(type_),
        source: source.map(uri).into(), sink: sink.map(uri).into(),
        priority: EnumOrUnknown::from_i32(priority), ttl,
        commstatus: commstatus.map(EnumOrUnknown::from_i32), reqid: reqid.map(uuid).into(),
        ..Default::default()
    };
    let validator = up_rust::UAttributesValidators::get_validator_for_attributes(&attributes);
    validator.validate(&attributes).map_err(|error| error.to_string())
}

fn clone_uri(uri: &Option<UUri>) -> (copy: Option<UUri>)
    ensures
        owned_uri(copy) == owned_uri(*uri),
{
    match uri {
        Some(u) => Some(u.clone()),
        None => None,
    }
}

fn clone_text(text: &Option<String>) -> (copy: Option<String>)
    ensures
        owned_text(copy) == owned_text(*text),
{
    match text {
        Some(t) => Some(t.clone()),
        None => None,
    }
}

impl Clone for UAttributes {
    fn clone(&self) -> (copy: UAttributes)
        ensures
            copy@ == self@,
    {
        UAttributes {
            id: self.id,
            type_: self.type_,
            source: clone_uri(&self.source),
            sink: clone_uri(&self.sink),
            priority: self.priority,
            ttl: self.ttl,
            permission_level: self.permission_level,
            commstatus: self.commstatus,
            reqid: self.reqid,
            token: clone_text(&self.token),
            traceparent: clone_text(&self.traceparent),
            payload_format: self.payload_format,
        }
    }
}

impl UAttributes {
    /// Writes the attributes to bytes.
    pub fn to_bytes(&self) -> (r: Result<Vec<u8>, String>)
        ensures
            match attributes_encoding(self@) {
                Ok(bytes) => r matches Ok(b) && b@ == bytes,
                Err(error) => r matches Err(e) && e@ == error,
            },
            self@.moderate() ==> (r matches Ok(bytes) ==> (attributes_decoding(bytes@) matches Ok(
                read,
            ) && read == self@)),
            r matches Ok(bytes) ==> (self@.id is Some ==> bytes@.len() > 0),
            r is Ok,
    {
        encode(
            self.id,
            self.type_,
            clone_uri(&self.source),
            clone_uri(&self.sink),
            self.priority,
            self.ttl,
            self.permission_level,
            self.commstatus,
            self.reqid,
            clone_text(&self.token),
            clone_text(&self.traceparent),
            self.payload_format,
        )
    }

    /// Reads attributes from bytes.
    pub fn from_bytes(bytes: &[u8]) -> (r: Result<UAttributes, String>)
        ensures
            match attributes_decoding(bytes@) {
                Ok(attributes) => r matches Ok(a) && a@ == attributes,
                Err(error) => r matches Err(e) && e@ == error,
            },
    {
        match decode(bytes) {
            Ok(
                (
                    id,
                    type_,
                    source,
                    sink,
                    priority,
                    ttl,
                    permission_level,
                    commstatus,
                    reqid,
                    token,
                    traceparent,
                    payload_format,
                ),
            ) => Ok(
                UAttributes {
                    id,
                    type_,
                    source,
                    sink,
                    priority,
                    ttl,
                    permission_level,
                    commstatus,
                    reqid,
                    token,
                    traceparent,
                    payload_format,
                },
            ),
            Err(error) => Err(error),
        }
    }

    /// Checks that these are the attributes of a message of their kind.
    pub fn validate(&self) -> (r: Result<(), String>)
        ensures
            r is Ok <==> self@.valid(),
            r matches Err(text) ==> text@ == attributes_refusal(self@.checked()),
    {
        check(
            self.id,
            self.type_,
            clone_uri(&self.source),
            clone_uri(&self.sink),
            self.priority,
            self.ttl,
            self.commstatus,
            self.reqid,
        )
    }

    /// Whether the message is a response to a request.
    pub fn is_response(&self) -> (b: bool)
        ensures
            b == (UMessageType::of(self@.type_) == Some(UMessageType::Response)),
    {
        self.type_ == 3
    }

    /// The priority class, if it is a known one.
    pub fn priority(&self) -> (r: Option<UPriority>)
        ensures
            r == priority_of(self@.priority),
    {
        if self.priority == 0 || self.priority == 2 {
            Some(UPriority::CS1)
        } else if self.priority == 1 {
            Some(UPriority::CS0)
        } else if self.priority == 3 {
            Some(UPriority::CS2)
        } else if self.priority == 4 {
            Some(UPriority::CS3)
        } else if self.priority == 5 {
            Some(UPriority::CS4)
        } else if self.priority == 6 {
            Some(UPriority::CS5)
        } else if self.priority == 7 {
            Some(UPriority::CS6)
        } else {
            None
        }
    }

    /// The format of the payload, if it is a known one.
    pub fn payload_format(&self) -> (r: Option<UPayloadFormat>)
        ensures
            r == UPayloadFormat::of(self@.payload_format),
    {
        UPayloadFormat::from_number(self.payload_format)
    }

    /// Whether the message is no longer of use at a time in milliseconds since the Unix
    /// epoch, or at a time that the clock cannot tell.
    pub fn is_expired(&self, now: Option<u128>) -> (b: bool)
        ensures
            b == self@.expired(now),
            self.ttl matches Some(ttl) ==> (self.id matches Some(id) ==> (now matches Some(time) ==> (
            ttl > 0 && id.uprotocol() ==> b == (id.msb / 0x1_0000 + ttl <= time)))),
    {
        let ttl: u32 = match self.ttl {
            Some(ttl) => {
                if ttl == 0 {
                    return false;
                }
                ttl
            },
            None => 0,
        };
        let now: u128 = match now {
            Some(now) => now,
            None => {
                return true;
            },
        };
        if ttl == 0 {
            return false;
        }
        match self.id {
            Some(id) => match id.get_time() {
                Some(time) => time as u128 + ttl as u128 <= now,
                None => false,
            },
            None => false,
        }
    }
}

/// An expired message stays expired as time goes on.
pub proof fn law_expiry_is_final(attributes: AttributesView, earlier: u128, later: u128)
    requires
        earlier <= later,
        attributes.expired(Some(earlier)),
    ensures
        attributes.expired(Some(later)),
{
}

/// A message without a lifetime, or with a lifetime of zero, does not expire as long as
/// the clock tells the time.
pub proof fn law_no_ttl_no_expiry(attributes: AttributesView, now: u128)
    requires
        attributes.ttl is None || attributes.ttl == Some(0u32),
    ensures
        !attributes.expired(Some(now)),
{
}

/// A valid message has an identifier and a source, and only a message that is published
/// lacks a sink.
pub proof fn law_valid_attributes_have_address(attributes: AttributesView)
    requires
        attributes.valid(),
    ensures
        attributes.id is Some,
        attributes.source is Some,
        attributes.sink is None <==> UMessageType::of(attributes.type_) == Some(
            UMessageType::Publish,
        ),
{
}

/// An identifier of uProtocol has the version 7 in the bits 12 to 15 of its upper half and
/// the variant of RFC 4122 in the two highest bits of its lower half. The 48 highest bits
/// are the time at which it was made.
pub proof fn law_uuid_holds_version_variant_and_time(id: UUID)
    ensures
        id.uprotocol() <==> id.msb & 0xF000 == 0x7000 && id.lsb & 0xC000_0000_0000_0000
            == 0x8000_0000_0000_0000,
        id.time() == id.msb >> 16,
{
    let msb = id.msb;
    let lsb = id.lsb;
    assert((msb / 0x1000) % 0x10 == 7 <==> msb & 0xF000 == 0x7000) by (bit_vector);
    assert(lsb / 0x4000_0000_0000_0000 == 2 <==> lsb & 0xC000_0000_0000_0000
        == 0x8000_0000_0000_0000) by (bit_vector);
    assert(msb / 0x1_0000 == msb >> 16) by (bit_vector);
}

/// What is put together from a time and random bits is an identifier of uProtocol that
/// tells the time again.
pub proof fn law_uuid_tells_the_time_it_was_made(time: nat, a: nat, b: nat, id: UUID)
    requires
        time < 0x1_0000_0000_0000,
        a < 0x1000,
        b < 0x4000_0000_0000_0000,
        id.msb == time * 0x1_0000 + 0x7000 + a,
        id.lsb == 0x8000_0000_0000_0000 + b,
    ensures
        id.uprotocol(),
        id.time() == time,
{
}

/// A message of any kind is expired exactly from the moment on at which as many
/// milliseconds as it may live have passed since its identifier was made.
pub proof fn law_message_expires_after_its_lifetime(
    attributes: AttributesView,
    id: UUID,
    ttl: u32,
    now: u128,
)
    requires
        attributes.id == Some(id),
        id.uprotocol(),
        attributes.ttl == Some(ttl),
        ttl > 0,
    ensures
        attributes.expired(Some(now)) <==> id.msb / 0x1_0000 + ttl <= now,
{
}

/// Whether a message is expired depends on its identifier and its lifetime, and on nothing
/// else that it says about itself.
pub proof fn law_expiry_rests_on_id_and_lifetime(
    a: AttributesView,
    b: AttributesView,
    now: Option<u128>,
)
    requires
        a.id == b.id,
        a.ttl == b.ttl,
    ensures
        a.expired(now) == b.expired(now),
{
}

/// A message whose identifier does not tell when it was made does not expire as long as the
/// clock tells the time. Where the clock does not, every message counts as expired but one
/// with a lifetime of zero.
pub proof fn law_expiry_without_a_time(attributes: AttributesView, now: u128)
    ensures
        !(attributes.id matches Some(id) && id.uprotocol()) ==> !attributes.expired(Some(now)),
        attributes.expired(None) <==> attributes.ttl != Some(0u32),
{
}

/// The kinds of messages have the numbers of uProtocol, and no other number is a kind.
pub proof fn law_message_type_numbers(code: i32)
    ensures
        UMessageType::of(code) == Some(UMessageType::Unspecified) <==> code == 0,
        UMessageType::of(code) == Some(UMessageType::Publish) <==> code == 1,
        UMessageType::of(code) == Some(UMessageType::Request) <==> code == 2,
        UMessageType::of(code) == Some(UMessageType::Response) <==> code == 3,
        UMessageType::of(code) == Some(UMessageType::Notification) <==> code == 4,
        UMessageType::of(code) is None <==> code < 0 || code > 4,
{
}

/// The number of a format on the wire and the format with a number on the wire are inverse
/// to each other.
pub proof fn law_payload_format_round_trip(format: UPayloadFormat, code: i32)
    ensures
        UPayloadFormat::of(format.spec_number()) == Some(format),
        UPayloadFormat::of(code) == Some(format) <==> format.spec_number() == code,
        UPayloadFormat::of(code) is Some <==> 0 <= code <= 8,
{
}

/// The formats of payloads have the numbers of uProtocol.
pub proof fn law_payload_format_numbers(format: UPayloadFormat)
    ensures
        format.spec_number() == 0 <==> format is Unspecified,
        format.spec_number() == 1 <==> format is ProtobufWrappedInAny,
        format.spec_number() == 2 <==> format is Protobuf,
        format.spec_number() == 3 <==> format is Json,
        format.spec_number() == 4 <==> format is Someip,
        format.spec_number() == 5 <==> format is SomeipTlv,
        format.spec_number() == 6 <==> format is Raw,
        format.spec_number() == 7 <==> format is Text,
        format.spec_number() == 8 <==> format is Shm,
{
}

/// The numbers from one on are the priority classes in the order of their urgency. An
/// unspecified priority is the one of the second class, and so is what stands in for a
/// number without a meaning.
pub proof fn law_priority_numbers(code: i32)
    ensures
        priority_of(code) is Some <==> 0 <= code <= 7,
        priority_of(code) == Some(UPriority::CS0) <==> code == 1,
        priority_of(code) == Some(UPriority::CS1) <==> code == 0 || code == 2,
        priority_of(code) == Some(UPriority::CS2) <==> code == 3,
        priority_of(code) == Some(UPriority::CS3) <==> code == 4,
        priority_of(code) == Some(UPriority::CS4) <==> code == 5,
        priority_of(code) == Some(UPriority::CS5) <==> code == 6,
        priority_of(code) == Some(UPriority::CS6) <==> code == 7,
        priority_of(code) matches Some(class) ==> priority_or_default(code) == class,
        priority_of(code) is None ==> priority_or_default(code) == UPriority::CS1,
{
}

/// A URI is concrete exactly if none of its five parts is a wildcard.
pub proof fn law_concrete_uri_has_no_wildcard(uri: UriView)
    ensures
        uri.concrete() <==> {
            &&& uri.authority_name != seq!['*']
            &&& uri.ue_id % 0x1_0000 != 0xFFFF
            &&& uri.ue_id / 0x1_0000 != 0xFFFF
            &&& uri.ue_version_major != 0xFF
            &&& uri.resource_id != 0xFFFF
        },
{
}

/// What is published is valid exactly if it comes from a topic and goes to no one in
/// particular.
pub proof fn law_valid_publish_comes_from_a_topic(attributes: AttributesView, id: UUID, source: UriView)
    requires
        attributes.type_ == 1,
        attributes.id == Some(id),
        attributes.source == Some(source),
    ensures
        attributes.valid() <==> {
            &&& id.uprotocol()
            &&& source.concrete() && source.resource_id >= 0x8000
            &&& attributes.sink is None
        },
{
}

/// A request is valid exactly if it goes from a reply-to address to a method, lives for some
/// time and has one of the three highest priorities.
pub proof fn law_valid_request_goes_to_a_method(
    attributes: AttributesView,
    id: UUID,
    source: UriView,
    sink: UriView,
)
    requires
        attributes.type_ == 2,
        attributes.id == Some(id),
        attributes.source == Some(source),
        attributes.sink == Some(sink),
    ensures
        attributes.valid() <==> {
            &&& id.uprotocol()
            &&& source.concrete() && source.resource_id == 0
            &&& sink.concrete() && 0 < sink.resource_id < 0x8000
            &&& attributes.ttl matches Some(ttl) && ttl > 0
            &&& attributes.priority == 5 || attributes.priority == 6 || attributes.priority == 7
        },
{
}

/// A response is valid exactly if it goes from a method to a reply-to address, names the
/// request that it answers, has a known status if it has one, and has one of the three
/// highest priorities.
pub proof fn law_valid_response_comes_from_a_method(
    attributes: AttributesView,
    id: UUID,
    source: UriView,
    sink: UriView,
)
    requires
        attributes.type_ == 3,
        attributes.id == Some(id),
        attributes.source == Some(source),
        attributes.sink == Some(sink),
    ensures
        attributes.valid() <==> {
            &&& id.uprotocol()
            &&& source.concrete() && 0 < source.resource_id < 0x8000
            &&& sink.concrete() && sink.resource_id == 0
            &&& attributes.reqid matches Some(reqid) && reqid.uprotocol()
            &&& attributes.commstatus matches Some(code) ==> 0 <= code <= 16
            &&& attributes.priority == 5 || attributes.priority == 6 || attributes.priority == 7
        },
{
}

/// A notification is valid exactly if it goes from a resource to an entity.
pub proof fn law_valid_notification_goes_to_an_entity(
    attributes: AttributesView,
    id: UUID,
    source: UriView,
    sink: UriView,
)
    requires
        attributes.type_ == 4,
        attributes.id == Some(id),
        attributes.source == Some(source),
        attributes.sink == Some(sink),
    ensures
        attributes.valid() <==> {
            &&& id.uprotocol()
            &&& source.concrete() && source.resource_id != 0
            &&& sink.concrete() && sink.resource_id == 0
        },
{
}

/// Attributes of no kind, or without an identifier or a source, are not valid, nor are those
/// without a sink unless they are published.
pub proof fn law_incomplete_attributes_are_not_valid(attributes: AttributesView)
    ensures
        attributes.type_ < 1 || attributes.type_ > 4 ==> !attributes.valid(),
        attributes.id is None ==> !attributes.valid(),
        attributes.source is None ==> !attributes.valid(),
        attributes.sink is None && attributes.type_ != 1 ==> !attributes.valid(),
{
}

/// Validity is a matter of identifiers, kind, addresses, priority, lifetime and status: two
/// messages that agree on these are valid together.
pub proof fn law_validity_rests_on_checked_parts(a: AttributesView, b: AttributesView)
    requires
        a.id == b.id,
        a.type_ == b.type_,
        a.source == b.source,
        a.sink == b.sink,
        a.priority == b.priority,
        a.ttl == b.ttl,
        a.commstatus == b.commstatus,
        a.reqid == b.reqid,
    ensures
        a.valid() == b.valid(),
        a.checked() == b.checked(),
        a.checked().valid() == a.valid(),
{
}

/// The model of attributes holds every part of them.
pub proof fn law_attributes_are_all_their_parts(attributes: UAttributes)
    ensures
        attributes@.id == attributes.id,
        attributes@.type_ == attributes.type_,
        match attributes.source {
            Some(source) => attributes@.source == Some(source@),
            None => attributes@.source is None,
        },
        match attributes.sink {
            Some(sink) => attributes@.sink == Some(sink@),
            None => attributes@.sink is None,
        },
        attributes@.priority == attributes.priority,
        attributes@.ttl == attributes.ttl,
        attributes@.permission_level == attributes.permission_level,
        attributes@.commstatus == attributes.commstatus,
        attributes@.reqid == attributes.reqid,
        match attributes.token {
            Some(token) => attributes@.token == Some(token@),
            None => attributes@.token is None,
        },
        match attributes.traceparent {
            Some(traceparent) => attributes@.traceparent == Some(traceparent@),
            None => attributes@.traceparent is None,
        },
        attributes@.payload_format == attributes.payload_format,
{
}

/// Attributes can be taken apart and put together again without loss.
pub proof fn law_attributes_are_put_together_from_their_parts(attributes: AttributesView)
    ensures
        all_attributes(
            attributes.id,
            attributes.type_,
            attributes.source,
            attributes.sink,
            attributes.priority,
            attributes.ttl,
            attributes.permission_level,
            attributes.commstatus,
            attributes.reqid,
            attributes.token,
            attributes.traceparent,
            attributes.payload_format,
        ) == attributes,
{
}

proof fn lemma_varint_len_of_32_bits(n: nat)
    requires
        n <= u32::MAX,
    ensures
        1 <= varint_len(n) <= 5,
{
    reveal_with_fuel(varint_len, 6);
}

/// Every length fits the wire format as long as no name, token or trace takes more bytes
/// than 32 bits can count, less what the other parts of a URI take at most.
pub proof fn law_ordinary_attributes_are_moderate(attributes: AttributesView)
    requires
        attributes.source matches Some(uri) ==> vstd::utf8::encode_utf8(uri.authority_name).len()
            <= u32::MAX - 24,
        attributes.sink matches Some(uri) ==> vstd::utf8::encode_utf8(uri.authority_name).len()
            <= u32::MAX - 24,
        attributes.token matches Some(text) ==> vstd::utf8::encode_utf8(text).len() <= u32::MAX,
        attributes.traceparent matches Some(text) ==> vstd::utf8::encode_utf8(text).len()
            <= u32::MAX,
    ensures
        attributes.moderate(),
{
    if let Some(uri) = attributes.source {
        lemma_varint_len_of_32_bits(vstd::utf8::encode_utf8(uri.authority_name).len());
        lemma_varint_len_of_32_bits(uri.ue_id as nat);
        lemma_varint_len_of_32_bits(uri.ue_version_major as nat);
        lemma_varint_len_of_32_bits(uri.resource_id as nat);
    }
    if let Some(uri) = attributes.sink {
        lemma_varint_len_of_32_bits(vstd::utf8::encode_utf8(uri.authority_name).len());
        lemma_varint_len_of_32_bits(uri.ue_id as nat);
        lemma_varint_len_of_32_bits(uri.ue_version_major as nat);
        lemma_varint_len_of_32_bits(uri.resource_id as nat);
    }
}

} // verus!
