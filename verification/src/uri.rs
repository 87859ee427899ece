//! uProtocol URIs: the addresses of topics, methods and message recipients.
use crate::status::{self, UCode, UStatus};
use vstd::prelude::*;

verus! {

/// The authority name that matches every authority.
pub open spec fn wildcard_name() -> Seq<char> {
    seq!['*']
}

/// Whether a name can stand in a key as it is: it holds neither the separator nor the
/// mark of a missing part.
pub open spec fn plain(name: Seq<char>) -> bool {
    !name.contains('/') && !name.contains('{')
}

/// A uProtocol URI.
///
/// The lower half of `ue_id` is the type of the entity, the upper half its instance.
#[derive(Debug)]
pub struct UUri {
    pub authority_name: String,
    pub ue_id: u32,
    pub ue_version_major: u32,
    pub resource_id: u32,
}

/// A URI as a mathematical value.
#[verifier::ext_equal]
pub struct UriView {
    pub authority_name: Seq<char>,
    pub ue_id: u32,
    pub ue_version_major: u32,
    pub resource_id: u32,
}

impl View for UUri {
    type V = UriView;

    open spec fn view(&self) -> UriView {
        UriView {
            authority_name: self.authority_name@,
            ue_id: self.ue_id,
            ue_version_major: self.ue_version_major,
            resource_id: self.resource_id,
        }
    }
}

/// The model of an optional URI.
pub open spec fn opt_uri(uri: Option<&UUri>) -> Option<UriView> {
    match uri {
        Some(u) => Some(u@),
        None => None,
    }
}

impl UriView {
    /// The type of the entity.
    pub open spec fn entity_type(self) -> nat {
        (self.ue_id % 0x1_0000) as nat
    }

    /// The instance of the entity.
    pub open spec fn entity_instance(self) -> nat {
        (self.ue_id / 0x1_0000) as nat
    }

    /// The major version of the entity.
    pub open spec fn version(self) -> nat {
        (self.ue_version_major % 0x100) as nat
    }

    /// The resource of the entity.
    pub open spec fn resource(self) -> nat {
        (self.resource_id % 0x1_0000) as nat
    }

    /// Whether the authority is left to the local entity.
    pub open spec fn local(self) -> bool {
        self.authority_name.len() == 0
    }

    pub open spec fn any_authority(self) -> bool {
        self.authority_name == wildcard_name()
    }

    pub open spec fn any_type(self) -> bool {
        self.entity_type() == 0xFFFF
    }

    pub open spec fn any_instance(self) -> bool {
        self.entity_instance() == 0xFFFF
    }

    pub open spec fn any_version(self) -> bool {
        self.ue_version_major == 0xFF
    }

    pub open spec fn any_resource(self) -> bool {
        self.resource_id == 0xFFFF
    }

    /// Whether the resource is an RPC method.
    pub open spec fn rpc_method(self) -> bool {
        0 < self.resource_id < 0x8000
    }

    /// Whether version and resource fit the widths that uProtocol gives them.
    pub open spec fn in_range(self) -> bool {
        self.ue_version_major <= 0xFF && self.resource_id <= 0xFFFF
    }

    /// Whether the URI is a valid uProtocol URI.
    pub open spec fn valid(self) -> bool {
        verified_authority(self.authority_name) is Ok && self.in_range()
    }
}

/// What `UUri::verify_authority` makes of an authority name: its canonical form, or
/// the text of the error.
pub uninterp spec fn verified_authority(name: Seq<char>) -> Result<Seq<char>, Seq<char>>;

/// What `UUri::from_str` reads from a text, if the text is a uProtocol URI.
pub uninterp spec fn parsed_uri(text: Seq<char>) -> Option<UriView>;

/// The message with which `verify_filter_criteria` refuses a pair of filters.
pub uninterp spec fn filter_refusal(source: UriView, sink: Option<UriView>) -> Seq<char>;

/// Whether a pair of filters can match a valid message.
pub open spec fn filters_acceptable(source: UriView, sink: Option<UriView>) -> bool {
    &&& source.valid()
    &&& match sink {
        Some(sink) => {
            &&& sink.valid()
            &&& !(sink.resource_id == 0 && source.resource_id == 0)
            &&& sink.rpc_method() ==> source.any_resource() || source.resource_id == 0
        },
        None => source.resource_id >= 0x8000,
    }
}

/// Calls `up_rust::UUri::verify_authority`.
///
/// The result is a function of the name alone. A name that is accepted, and its
/// canonical form, hold neither `/` nor `{`: an accepted name is `*`, an IP address in
/// the notation of URIs, or made of letters, digits and `-._~`, and may end in a colon.
#[verifier::external_body]
fn verify_authority(name: &str) -> (r: Result<String, String>)
    ensures
        match verified_authority(name@) {
            Ok(canonical) => r matches Ok(text) && text@ == canonical,
            Err(error) => r matches Err(text) && text@ == error,
        },
        r matches Ok(text) ==> plain(name@) && plain(text@),
{
    up_rust::UUri::verify_authority(name).map_err(|error| error.to_string())
}

/// Calls `up_rust::UUri::from_str`.
///
/// The result is a function of the text alone. A URI that is read has a version of
/// eight bits, a resource of sixteen bits, and an authority that is empty or one that
/// `verify_authority` accepts, so that it holds neither `/` nor `{`.
#[verifier::external_body]
fn parse(text: &str) -> (r: Option<UUri>)
    ensures
        match parsed_uri(text@) {
            Some(uri) => r matches Some(u) && u@ == uri,
            None => r is None,
        },
        r matches Some(u) ==> u@.in_range() && plain(u.authority_name@),
{
    text.parse::<up_rust::UUri>().ok().map(|uri| UUri {
        authority_name: uri.authority_name,
        ue_id: uri.ue_id,
        ue_version_major: uri.ue_version_major,
        resource_id: uri.resource_id,
    })
}

/// Calls `up_rust::UUri::try_from_parts`.
///
/// The URI has the canonical form of the authority and the other parts as they were
/// given. The only error is the one of an authority that is not accepted.
#[verifier::external_body]
fn from_parts(authority: &str, ue_id: u32, version: u8, resource: u16) -> (r: Result<UUri, String>)
    ensures
        match verified_authority(authority@) {
            Ok(canonical) => r matches Ok(u) && u@ == (UriView {
                authority_name: canonical,
                ue_id,
                ue_version_major: version as u32,
                resource_id: resource as u32,
            }),
            Err(error) => r matches Err(text) && text@ == error,
        },
{
    up_rust::UUri::try_from_parts(authority, ue_id, version, resource)
        .map(|uri| UUri {
            authority_name: uri.authority_name,
            ue_id: uri.ue_id,
            ue_version_major: uri.ue_version_major,
            resource_id: uri.resource_id,
        })
        .map_err(|error| error.to_string())
}

/// Calls `up_rust::verify_filter_criteria`.
///
/// The filters pass if both are valid URIs and some valid message can match them. A
/// refusal always has the code for an invalid argument and a message that depends on
/// the filters alone.
#[verifier::external_body]
fn check_filters(source: &UUri, sink: Option<&UUri>) -> (r: Result<(), (i32, String)>)
    ensures
        r is Ok <==> filters_acceptable(source@, opt_uri(sink)),
        r matches Err((code, message)) ==> code == UCode::InvalidArgument.spec_number()
            && message@ == filter_refusal(source@, opt_uri(sink)),
{
    let outside = |uri: &UUri| up_rust::UUri {
        authority_name: uri.authority_name.clone(),
        ue_id: uri.ue_id,
        ue_version_major: uri.ue_version_major,
        resource_id: uri.resource_id,
        ..Default::default()
    };
    up_rust::verify_filter_criteria(&outside(source), sink.map(outside).as_ref())
        .map_err(|status| (status.code.value(), status.get_message()))
}

impl Clone for UUri {
    fn clone(&self) -> (copy: UUri)
        ensures
            copy@ == self@,
    {
        UUri {
            authority_name: self.authority_name.clone(),
            ue_id: self.ue_id,
            ue_version_major: self.ue_version_major,
            resource_id: self.resource_id,
        }
    }
}

impl UUri {
    /// Reads a URI from its textual form.
    pub fn from_text(text: &str) -> (r: Option<UUri>)
        ensures
            match parsed_uri(text@) {
                Some(uri) => r matches Some(u) && u@ == uri,
                None => r is None,
            },
            r matches Some(u) ==> u@.in_range() && plain(u.authority_name@),
    {
        parse(text)
    }

    /// Creates a URI from its parts.
    pub fn try_from_parts(authority: &str, ue_id: u32, version: u8, resource: u16) -> (r: Result<
        UUri,
        String,
    >)
        ensures
            match verified_authority(authority@) {
                Ok(canonical) => r matches Ok(u) && u@ == (UriView {
                    authority_name: canonical,
                    ue_id,
                    ue_version_major: version as u32,
                    resource_id: resource as u32,
                }),
                Err(error) => r matches Err(text) && text@ == error,
            },
    {
        from_parts(authority, ue_id, version, resource)
    }

    /// Checks an authority name and gives its canonical form.
    pub fn verify_authority(name: &str) -> (r: Result<String, String>)
        ensures
            match verified_authority(name@) {
                Ok(canonical) => r matches Ok(text) && text@ == canonical,
                Err(error) => r matches Err(text) && text@ == error,
            },
            r matches Ok(text) ==> plain(name@) && plain(text@),
    {
        verify_authority(name)
    }

    /// Whether two URIs are the same.
    pub fn same(&self, other: &UUri) -> (b: bool)
        ensures
            b == (self@ == other@),
    {
        self.authority_name == other.authority_name && self.ue_id == other.ue_id
            && self.ue_version_major == other.ue_version_major && self.resource_id
            == other.resource_id
    }

    pub fn uentity_type_id(&self) -> (n: u16)
        ensures
            n == self@.entity_type(),
    {
        (self.ue_id % 0x1_0000) as u16
    }

    pub fn uentity_instance_id(&self) -> (n: u16)
        ensures
            n == self@.entity_instance(),
    {
        (self.ue_id / 0x1_0000) as u16
    }

    pub fn uentity_major_version(&self) -> (n: u8)
        ensures
            n == self@.version(),
    {
        (self.ue_version_major % 0x100) as u8
    }

    pub fn resource(&self) -> (n: u16)
        ensures
            n == self@.resource(),
    {
        (self.resource_id % 0x1_0000) as u16
    }

    pub fn has_empty_authority(&self) -> (b: bool)
        ensures
            b == self@.local(),
    {
        self.authority_name.as_str().is_empty()
    }

    pub fn has_wildcard_entity_type(&self) -> (b: bool)
        ensures
            b == self@.any_type(),
    {
        self.uentity_type_id() == 0xFFFF
    }

    pub fn has_wildcard_entity_instance(&self) -> (b: bool)
        ensures
            b == self@.any_instance(),
    {
        self.uentity_instance_id() == 0xFFFF
    }

    pub fn has_wildcard_version(&self) -> (b: bool)
        ensures
            b == self@.any_version(),
    {
        self.ue_version_major == 0xFF
    }

    pub fn has_wildcard_resource_id(&self) -> (b: bool)
        ensures
            b == self@.any_resource(),
    {
        self.resource_id == 0xFFFF
    }
}

/// Whether two optional URIs are the same.
pub fn same_optional(a: Option<&UUri>, b: Option<&UUri>) -> (r: bool)
    ensures
        r == (opt_uri(a) == opt_uri(b)),
{
    match (a, b) {
        (Some(x), Some(y)) => x.same(y),
        (None, None) => true,
        _ => false,
    }
}

/// Checks that some valid message can match a pair of filters.
pub fn verify_filter_criteria(source: &UUri, sink: Option<&UUri>) -> (r: Result<(), UStatus>)
    ensures
        match r {
            Ok(_) => filters_acceptable(source@, opt_uri(sink)),
            Err(status) => !filters_acceptable(source@, opt_uri(sink)) && status@ == status::failure(
                UCode::InvalidArgument,
                filter_refusal(source@, opt_uri(sink)),
            ),
        },
{
    match check_filters(source, sink) {
        Ok(_) => Ok(()),
        Err((_, message)) => Err(UStatus::fail_with_code(UCode::InvalidArgument, message)),
    }
}

/// The identifier of an entity is its instance, followed by its type, of sixteen bits each.
/// Version and resource are as they are given if they have the widths of uProtocol.
pub proof fn law_entity_is_instance_and_type(uri: UriView)
    ensures
        uri.entity_type() < 0x1_0000,
        uri.entity_instance() < 0x1_0000,
        uri.ue_id == uri.entity_instance() * 0x1_0000 + uri.entity_type(),
        uri.in_range() <==> uri.ue_version_major < 0x100 && uri.resource_id < 0x1_0000,
        uri.in_range() ==> uri.version() == uri.ue_version_major && uri.resource()
            == uri.resource_id,
        uri.version() < 0x100 && uri.resource() < 0x1_0000,
{
}

/// A part of a URI is a wildcard exactly if it is `*` or has all of its bits set.
pub proof fn law_wildcards(uri: UriView)
    ensures
        uri.any_authority() <==> uri.authority_name == seq!['*'],
        uri.any_type() <==> uri.ue_id % 0x1_0000 == 0xFFFF,
        uri.any_instance() <==> uri.ue_id / 0x1_0000 == 0xFFFF,
        uri.any_version() <==> uri.ue_version_major == 0xFF,
        uri.any_resource() <==> uri.resource_id == 0xFFFF,
        uri.local() <==> uri.authority_name.len() == 0,
        uri.rpc_method() <==> 1 <= uri.resource_id <= 0x7FFF,
{
}

/// A URI is valid exactly if its authority is accepted and its version and its resource have
/// the widths of uProtocol.
pub proof fn law_valid_uri(uri: UriView)
    ensures
        uri.valid() <==> {
            &&& verified_authority(uri.authority_name) is Ok
            &&& uri.ue_version_major < 0x100
            &&& uri.resource_id < 0x1_0000
        },
{
}

/// A pair of valid filters is refused exactly if it asks for what no message can be: without
/// a sink, for something else than a topic; with a sink, for what goes from an entity to an
/// entity, or to a method from something else than an entity.
pub proof fn law_filters_ask_for_what_can_be_sent(source: UriView, sink: UriView)
    requires
        source.valid(),
        sink.valid(),
    ensures
        filters_acceptable(source, None) <==> source.resource_id >= 0x8000,
        filters_acceptable(source, Some(sink)) <==> {
            &&& source.resource_id != 0 || sink.resource_id != 0
            &&& 1 <= sink.resource_id <= 0x7FFF ==> source.resource_id == 0 || source.resource_id
                == 0xFFFF
        },
{
}

/// A filter that is not a valid URI is refused, whatever the other one is.
pub proof fn law_invalid_filters_are_refused(source: UriView, sink: Option<UriView>)
    ensures
        !source.valid() ==> !filters_acceptable(source, sink),
        sink matches Some(filter) ==> (!filter.valid() ==> !filters_acceptable(source, sink)),
{
}

/// The model of a URI holds every part of it.
pub proof fn law_uri_is_all_its_parts(uri: UUri, optional: Option<&UUri>)
    ensures
        uri@.authority_name == uri.authority_name@,
        uri@.ue_id == uri.ue_id,
        uri@.ue_version_major == uri.ue_version_major,
        uri@.resource_id == uri.resource_id,
        match optional {
            Some(u) => opt_uri(optional) == Some(u@),
            None => opt_uri(optional) is None,
        },
{
}

} // verus!
