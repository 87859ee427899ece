//! What the Zenoh bindings have in common: the local address, message priorities and the
//! shared memory that outgoing payloads are written to.
use crate::key;
use crate::status::{self, UCode, UStatus};
use crate::uri::{self, UUri, UriView};
use vstd::prelude::*;

verus! {

/// The size of the shared memory segment unless another one is chosen: 64 MiB.
pub const DEFAULT_SHM_SEGMENT_SIZE: usize = 67_108_864;

/// The priority classes of uProtocol messages.
#[derive(Clone, Copy, Debug, PartialEq, Eq, Structural)]
pub enum UPriority {
    CS0,
    CS1,
    CS2,
    CS3,
    CS4,
    CS5,
    CS6,
}

/// The priorities of Zenoh messages, in rising order.
#[derive(Clone, Copy, Debug, PartialEq, Eq, Structural)]
pub enum Priority {
    Background,
    DataLow,
    Data,
    DataHigh,
    InteractiveLow,
    InteractiveHigh,
    RealTime,
}

impl UPriority {
    /// The place of this class in the order of urgency.
    pub open spec fn rank(self) -> int {
        match self {
            UPriority::CS0 => 0,
            UPriority::CS1 => 1,
            UPriority::CS2 => 2,
            UPriority::CS3 => 3,
            UPriority::CS4 => 4,
            UPriority::CS5 => 5,
            UPriority::CS6 => 6,
        }
    }
}

impl Priority {
    /// The place of this priority in the order of urgency.
    pub open spec fn rank(self) -> int {
        match self {
            Priority::Background => 0,
            Priority::DataLow => 1,
            Priority::Data => 2,
            Priority::DataHigh => 3,
            Priority::InteractiveLow => 4,
            Priority::InteractiveHigh => 5,
            Priority::RealTime => 6,
        }
    }
}

/// The Zenoh priority for a uProtocol priority class.
pub open spec fn zenoh_priority(upriority: UPriority) -> Priority {
    match upriority {
        UPriority::CS0 => Priority::Background,
        UPriority::CS1 => Priority::DataLow,
        UPriority::CS2 => Priority::Data,
        UPriority::CS3 => Priority::DataHigh,
        UPriority::CS4 => Priority::InteractiveLow,
        UPriority::CS5 => Priority::InteractiveHigh,
        UPriority::CS6 => Priority::RealTime,
    }
}

/// Maps a uProtocol priority class to a Zenoh priority.
pub fn map_zenoh_priority(upriority: UPriority) -> (priority: Priority)
    ensures
        priority == zenoh_priority(upriority),
        priority.rank() == upriority.rank(),
{
    match upriority {
        UPriority::CS0 => Priority::Background,
        UPriority::CS1 => Priority::DataLow,
        UPriority::CS2 => Priority::Data,
        UPriority::CS3 => Priority::DataHigh,
        UPriority::CS4 => Priority::InteractiveLow,
        UPriority::CS5 => Priority::InteractiveHigh,
        UPriority::CS6 => Priority::RealTime,
    }
}

/// The mapping of priorities keeps their order, so that no two classes share a priority.
pub proof fn law_priority_order(a: UPriority, b: UPriority)
    ensures
        a.rank() < b.rank() <==> zenoh_priority(a).rank() < zenoh_priority(b).rank(),
        zenoh_priority(a) == zenoh_priority(b) ==> a == b,
{
}

/// Every Zenoh priority is the image of a class.
pub proof fn law_priority_onto(priority: Priority)
    ensures
        exists|class: UPriority| #[trigger] zenoh_priority(class) == priority,
{
    let class = match priority {
        Priority::Background => UPriority::CS0,
        Priority::DataLow => UPriority::CS1,
        Priority::Data => UPriority::CS2,
        Priority::DataHigh => UPriority::CS3,
        Priority::InteractiveLow => UPriority::CS4,
        Priority::InteractiveHigh => UPriority::CS5,
        Priority::RealTime => UPriority::CS6,
    };
    assert(zenoh_priority(class) == priority);
}

/// What is made of the URI that was read for the local entity, if one was read.
pub open spec fn local_uri_verdict(parsed: Option<UriView>) -> Result<UriView, Seq<char>> {
    match parsed {
        None => Err("Unable to transform the uri to UUri"@),
        Some(uri) => if uri.local() {
            Err("Empty authority is not allowed"@)
        } else if uri.resource() != 0 {
            Err("Resource ID should always be 0"@)
        } else {
            Ok(uri)
        },
    }
}

/// Checks the URI that was read for the local entity: it names an authority and no resource.
pub fn check_local_uri(parsed: Option<UUri>) -> (r: Result<UUri, UStatus>)
    ensures
        match local_uri_verdict(
            match parsed {
                Some(u) => Some(u@),
                None => None,
            },
        ) {
            Ok(uri) => r matches Ok(u) && u@ == uri,
            Err(message) => r matches Err(e) && e@ == status::failure(
                UCode::InvalidArgument,
                message,
            ),
        },
        r matches Ok(u) ==> (parsed matches Some(given) && u@ == given@),
        r is Ok <==> (parsed matches Some(given) && given.authority_name@.len() > 0
            && given.resource_id % 0x1_0000 == 0),
{
    let uri = match parsed {
        Some(uri) => uri,
        None => {
            return Err(
                UStatus::fail_with(UCode::InvalidArgument, "Unable to transform the uri to UUri"),
            );
        },
    };
    if uri.has_empty_authority() {
        return Err(UStatus::fail_with(UCode::InvalidArgument, "Empty authority is not allowed"));
    }
    if uri.resource() != 0 {
        return Err(UStatus::fail_with(UCode::InvalidArgument, "Resource ID should always be 0"));
    }
    Ok(uri)
}

/// Reads the URI of the local entity.
pub fn parse_local_uri(text: &str) -> (r: Result<UUri, UStatus>)
    ensures
        match local_uri_verdict(uri::parsed_uri(text@)) {
            Ok(uri) => r matches Ok(u) && u@ == uri,
            Err(message) => r matches Err(e) && e@ == status::failure(
                UCode::InvalidArgument,
                message,
            ),
        },
        r matches Ok(u) ==> uri::parsed_uri(text@) == Some(u@),
        r matches Ok(u) ==> u@.in_range() && uri::plain(u.authority_name@) && !u@.local()
            && u.resource_id == 0,
{
    let parsed = UUri::from_text(text);
    check_local_uri(parsed)
}

/// The session, the local address and the shared memory of a Zenoh binding.
///
/// The provider of shared memory is made when it is first needed. What came of that, a
/// provider or the text of an error, is kept.
pub struct ZenohWireMechanics<Z, P> {
    session: Z,
    uri: UUri,
    shm_segment_size: usize,
    shm_provider: Option<Result<P, String>>,
}

/// A provider that was initialised, or the failure to do so.
pub open spec fn provider_result<P>(init: Result<P, Seq<char>>) -> Result<P, status::StatusView> {
    match init {
        Ok(provider) => Ok(provider),
        Err(error) => Err(
            status::failure(
                UCode::Internal,
                "failed to initialize Zenoh SHM provider: "@ + error,
            ),
        ),
    }
}

impl<Z, P> ZenohWireMechanics<Z, P> {
    pub closed spec fn spec_session(self) -> Z {
        self.session
    }

    pub closed spec fn spec_uri(self) -> UriView {
        self.uri@
    }

    pub closed spec fn segment_size(self) -> usize {
        self.shm_segment_size
    }

    /// What came of the initialisation of the provider, once it took place.
    pub closed spec fn provider_init(self) -> Option<Result<P, Seq<char>>> {
        match self.shm_provider {
            None => None,
            Some(Ok(provider)) => Some(Ok(provider)),
            Some(Err(error)) => Some(Err(error@)),
        }
    }

    #[verifier::type_invariant]
    spec fn well_formed(self) -> bool {
        self.shm_segment_size > 0
    }

    /// Takes what opening a session gave, and the URI of the local entity.
    pub fn new(opened: Result<Z, String>, uri: &str) -> (r: Result<Self, UStatus>)
        ensures
            opened is Err ==> (r matches Err(e) && e@ == status::failure(
                UCode::Internal,
                "Unable to open Zenoh session"@,
            )),
            opened matches Ok(session) ==> match local_uri_verdict(uri::parsed_uri(uri@)) {
                Ok(local) => r matches Ok(m) && m.spec_session() == session && m.spec_uri() == local
                    && m.segment_size() == DEFAULT_SHM_SEGMENT_SIZE && m.provider_init() is None,
                Err(message) => r matches Err(e) && e@ == status::failure(
                    UCode::InvalidArgument,
                    message,
                ),
            },
            r matches Ok(m) ==> uri::parsed_uri(uri@) == Some(m.spec_uri()),
    {
        match opened {
            Ok(session) => Self::from_session(session, uri),
            Err(_) => Err(UStatus::fail_with(UCode::Internal, "Unable to open Zenoh session")),
        }
    }

    /// Uses an open session for the local entity with the given URI.
    pub fn from_session(session: Z, uri: &str) -> (r: Result<Self, UStatus>)
        ensures
            match local_uri_verdict(uri::parsed_uri(uri@)) {
                Ok(local) => r matches Ok(m) && m.spec_session() == session && m.spec_uri() == local
                    && m.segment_size() == DEFAULT_SHM_SEGMENT_SIZE && m.provider_init() is None,
                Err(message) => r matches Err(e) && e@ == status::failure(
                    UCode::InvalidArgument,
                    message,
                ),
            },
            r matches Ok(m) ==> uri::parsed_uri(uri@) == Some(m.spec_uri()),
    {
        match parse_local_uri(uri) {
            Ok(uri) => Ok(
                ZenohWireMechanics {
                    session,
                    uri,
                    shm_segment_size: DEFAULT_SHM_SEGMENT_SIZE,
                    shm_provider: None,
                },
            ),
            Err(status) => Err(status),
        }
    }

    pub fn session(&self) -> (session: &Z)
        ensures
            *session == self.spec_session(),
    {
        &self.session
    }

    pub fn uri(&self) -> (uri: &UUri)
        ensures
            uri@ == self.spec_uri(),
    {
        &self.uri
    }

    pub fn shm_segment_size(&self) -> (size: usize)
        ensures
            size == self.segment_size(),
            size > 0,
    {
        proof {
            use_type_invariant(self);
        }
        self.shm_segment_size
    }

    /// The key expression for messages, or for a filter, from a source to a sink.
    pub fn to_zenoh_key_string(&self, src_uri: &UUri, dst_uri: Option<&UUri>) -> (key: String)
        ensures
            key@ == key::zenoh_key(
                self.spec_uri().authority_name,
                src_uri@,
                uri::opt_uri(dst_uri),
            ),
    {
        key::to_zenoh_key_string(&self.uri, src_uri, dst_uri)
    }

    /// Chooses the size of the shared memory segment.
    pub fn set_shm_segment_size(&mut self, shm_segment_size: usize) -> (r: Result<(), UStatus>)
        ensures
            final(self).spec_session() == old(self).spec_session(),
            final(self).spec_uri() == old(self).spec_uri(),
            final(self).provider_init() == old(self).provider_init(),
            shm_segment_size != 0 ==> r is Ok && final(self).segment_size() == shm_segment_size,
            shm_segment_size == 0 ==> final(self).segment_size() == old(self).segment_size() && (
            r matches Err(e) && e@ == status::failure(
                UCode::InvalidArgument,
                "Zenoh SHM segment size must be non-zero"@,
            )),
    {
        if shm_segment_size == 0 {
            return Err(
                UStatus::fail_with(
                    UCode::InvalidArgument,
                    "Zenoh SHM segment size must be non-zero",
                ),
            );
        }
        self.shm_segment_size = shm_segment_size;
        Ok(())
    }

    /// The provider of shared memory, or why there is none, once it was asked for.
    pub fn shm_provider(&self) -> (r: Option<Result<&P, UStatus>>)
        ensures
            match self.provider_init() {
                None => r is None,
                Some(init) => match provider_result(init) {
                    Ok(provider) => r matches Some(Ok(p)) && *p == provider,
                    Err(failure) => r matches Some(Err(e)) && e@ == failure,
                },
            },
    {
        match &self.shm_provider {
            None => None,
            Some(Ok(provider)) => Some(Ok(provider)),
            Some(Err(error)) => Some(
                Err(
                    UStatus::internal("failed to initialize Zenoh SHM provider: ", error.as_str()),
                ),
            ),
        }
    }

    /// Keeps what came of the initialisation of the provider, unless one took place before.
    pub fn init_shm_provider(&mut self, outcome: Result<P, String>)
        ensures
            final(self).spec_session() == old(self).spec_session(),
            final(self).spec_uri() == old(self).spec_uri(),
            final(self).segment_size() == old(self).segment_size(),
            final(self).provider_init() == (match old(self).provider_init() {
                Some(init) => Some(init),
                None => Some(
                    match outcome {
                        Ok(provider) => Ok(provider),
                        Err(error) => Err(error@),
                    },
                ),
            }),
    {
        proof {
            use_type_invariant(&*self);
        }
        if self.shm_provider.is_none() {
            self.shm_provider = Some(outcome);
        }
    }
}

/// The classes and the priorities have seven places each, from the least urgent to the most
/// urgent one.
pub proof fn law_ranks_are_places(class: UPriority, priority: Priority)
    ensures
        class.rank() == 0 <==> class is CS0,
        class.rank() == 1 <==> class is CS1,
        class.rank() == 2 <==> class is CS2,
        class.rank() == 3 <==> class is CS3,
        class.rank() == 4 <==> class is CS4,
        class.rank() == 5 <==> class is CS5,
        class.rank() == 6 <==> class is CS6,
        priority.rank() == 0 <==> priority is Background,
        priority.rank() == 1 <==> priority is DataLow,
        priority.rank() == 2 <==> priority is Data,
        priority.rank() == 3 <==> priority is DataHigh,
        priority.rank() == 4 <==> priority is InteractiveLow,
        priority.rank() == 5 <==> priority is InteractiveHigh,
        priority.rank() == 6 <==> priority is RealTime,
{
}

/// A class is mapped to the priority at the same place.
pub proof fn law_priority_keeps_its_place(class: UPriority)
    ensures
        zenoh_priority(class).rank() == class.rank(),
{
}

/// The local URI is the URI that was read, in all of its parts, or there is none.
pub proof fn law_local_uri_is_the_uri_that_was_read(parsed: Option<UriView>, local: UriView)
    requires
        local_uri_verdict(parsed) == Ok::<UriView, Seq<char>>(local),
    ensures
        parsed == Some(local),
{
}

/// A URI that was read is refused exactly if it has no authority or names a resource.
pub proof fn law_local_uri_names_an_entity(uri: UriView)
    ensures
        local_uri_verdict(Some(uri)) is Ok <==> uri.authority_name.len() > 0 && uri.resource_id
            % 0x1_0000 == 0,
        uri.authority_name.len() == 0 ==> local_uri_verdict(Some(uri)) == Err::<
            UriView,
            Seq<char>,
        >("Empty authority is not allowed"@),
        uri.authority_name.len() > 0 && uri.resource_id % 0x1_0000 != 0 ==> local_uri_verdict(
            Some(uri),
        ) == Err::<UriView, Seq<char>>("Resource ID should always be 0"@),
        local_uri_verdict(None) == Err::<UriView, Seq<char>>(
            "Unable to transform the uri to UUri"@,
        ),
{
}

/// There is a provider exactly if its initialisation succeeded, and it is the one that was
/// initialised. A failure is an internal one and tells the error.
pub proof fn law_provider_is_the_one_initialised<P>(init: Result<P, Seq<char>>)
    ensures
        match init {
            Ok(provider) => provider_result(init) == Ok::<P, status::StatusView>(provider),
            Err(error) => provider_result(init) matches Err(failure) && failure.code
                == UCode::Internal && failure.message == "failed to initialize Zenoh SHM provider: "@
                + error,
        },
{
}

/// Unless another size is chosen the segment holds 64 MiB.
pub proof fn law_default_segment_holds_64_mib()
    ensures
        DEFAULT_SHM_SEGMENT_SIZE == 64 * 1024 * 1024,
{
}

} // verus!
