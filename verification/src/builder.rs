//! How a transport is put together: from a configuration, from the path of a configuration
//! file, or around a session that is open already.
use crate::config;
use crate::mechanics;
use crate::status::{self, StatusView, UCode, UStatus};
use crate::text;
use crate::transport::{self, UPTransportZenoh};
use crate::uri::{self, UUri, UriView};
use vstd::prelude::*;

verus! {

/// The maximum number of listeners unless another one is chosen.
pub const DEFAULT_MAX_LISTENERS: usize = 100;

/// The beginning of the notice about a session that was open already.
pub const EXISTING_SESSION_USAGE_MESSAGE_PREFIX: &'static str =
    "Using an existing Zenoh session for the transport.";

/// The rest of the notice about a session that was open already.
pub const EXISTING_SESSION_NOTICE: &'static str =
    " Please be aware that Zenoh uses the lz4_flex crate in a version that is affected by RUST-SEC-2026-0041, which may result in data leakage when compression is enabled for Zenoh. It is therefore strongly recommended to disable compression in the Zenoh configuration when using this transport.";

/// What the builder knows whatever the session is made of.
struct CommonProperties {
    local_authority: String,
    max_listeners: usize,
}

/// Nothing is known yet of the session.
pub struct InitialBuilderState;

/// The session is opened with a configuration.
pub struct ConfigBuilderState {
    config: zenoh::Config,
}

/// The session is opened with the configuration that a file holds.
pub struct ConfigPathBuilderState {
    config_path: String,
}

/// The session is open already.
pub struct SessionBuilderState<Z> {
    zenoh_session: Z,
}

/// What is known of the session.
pub trait BuilderState {

}

impl BuilderState for InitialBuilderState {

}

impl BuilderState for ConfigBuilderState {

}

impl BuilderState for ConfigPathBuilderState {

}

impl<Z> BuilderState for SessionBuilderState<Z> {

}

impl ConfigBuilderState {
    pub closed spec fn config(self) -> zenoh::Config {
        self.config
    }
}

impl ConfigPathBuilderState {
    pub closed spec fn path(self) -> Seq<char> {
        self.config_path@
    }
}

impl<Z> SessionBuilderState<Z> {
    pub closed spec fn session(self) -> Z {
        self.zenoh_session
    }
}

/// A builder of transports for a local authority.
///
/// The name of the authority has been checked.
pub struct UPTransportZenohBuilder<S: BuilderState> {
    common: CommonProperties,
    extra: S,
}

/// What is made of the name of a local authority, given the verdict on it.
pub open spec fn authority_verdict(
    name: Seq<char>,
    verified: Result<Seq<char>, Seq<char>>,
) -> Result<(), StatusView> {
    if name.len() == 0 || name == uri::wildcard_name() {
        Err(
            status::failure(
                UCode::InvalidArgument,
                "Authority name must be non-empty and must not be the wildcard authority name"@,
            ),
        )
    } else {
        match verified {
            Ok(_) => Ok(()),
            Err(error) => Err(
                status::failure(UCode::InvalidArgument, "Invalid authority name: "@ + error),
            ),
        }
    }
}

/// Checks the name of a local authority, given the verdict on it.
pub fn check_local_authority(name: &str, verified: Result<String, String>) -> (r: Result<
    (),
    UStatus,
>)
    ensures
        match authority_verdict(
            name@,
            match verified {
                Ok(canonical) => Ok(canonical@),
                Err(error) => Err(error@),
            },
        ) {
            Ok(_) => r is Ok,
            Err(failure) => r matches Err(e) && e@ == failure,
        },
{
    proof {
        reveal_strlit("*");
        assert("*"@ =~= uri::wildcard_name());
    }
    if name.is_empty() || name.to_string() == "*".to_string() {
        return Err(
            UStatus::fail_with(
                UCode::InvalidArgument,
                "Authority name must be non-empty and must not be the wildcard authority name",
            ),
        );
    }
    match verified {
        Ok(_) => Ok(()),
        Err(error) => Err(
            UStatus::fail_with_code(
                UCode::InvalidArgument,
                text::join("Invalid authority name: ", error.as_str()),
            ),
        ),
    }
}

/// The address of a local entity that is known by its authority alone.
pub open spec fn authority_uri(name: Seq<char>) -> UriView {
    UriView {
        authority_name: uri::verified_authority(name)->Ok_0,
        ue_id: 0,
        ue_version_major: 0,
        resource_id: 0,
    }
}

/// A transport that waits for its session.
pub struct PendingTransport {
    uri: UUri,
    max_listeners: usize,
}

/// A session that is to be opened for a transport.
pub struct OpenSession {
    /// The configuration of the session.
    pub config: zenoh::Config,
    /// Warnings about the configuration.
    pub warnings: Vec<String>,
    /// The transport that waits for the session.
    pub pending: PendingTransport,
}

/// Whether a session is to be opened with a configuration for a local entity, or why not.
pub open spec fn session_request_is(
    r: Result<OpenSession, UStatus>,
    config: zenoh::Config,
    uri: UriView,
    max_listeners: usize,
) -> bool {
    match config::config_findings(config) {
        Err(failure) => r matches Err(e) && e@ == failure,
        Ok(warnings) => r matches Ok(open) && open.config == config && config::texts(
            open.warnings@,
        ) == warnings && open.pending.spec_uri() == uri && open.pending.max() == max_listeners,
    }
}

/// Checks the configuration of a session for a local entity.
fn init_with_config(config: zenoh::Config, uri: UUri, max_listeners: usize) -> (r: Result<
    OpenSession,
    UStatus,
>)
    ensures
        session_request_is(r, config, uri@, max_listeners),
{
    match config::inspect_config(&config) {
        Ok(warnings) => Ok(
            OpenSession { config, warnings, pending: PendingTransport { uri, max_listeners } },
        ),
        Err(status) => Err(status),
    }
}

/// Creates a transport around a session, with a notice if the session was open already.
fn init_with_session<Z, S, K, Q>(
    session: Z,
    uri: UUri,
    max_listeners: usize,
    warn_on_compression_enabled: bool,
) -> (r: (UPTransportZenoh<Z, S, K, Q>, Option<String>))
    ensures
        r.0.spec_session() == session,
        r.0@ == transport::fresh_transport::<S, K, Q>(uri@, max_listeners),
        warn_on_compression_enabled ==> (r.1 matches Some(notice) && notice@
            == EXISTING_SESSION_USAGE_MESSAGE_PREFIX@ + EXISTING_SESSION_NOTICE@),
        !warn_on_compression_enabled ==> r.1 is None,
{
    let notice = if warn_on_compression_enabled {
        Some(text::join(EXISTING_SESSION_USAGE_MESSAGE_PREFIX, EXISTING_SESSION_NOTICE))
    } else {
        None
    };
    (UPTransportZenoh::with_uri(session, uri, max_listeners), notice)
}

impl PendingTransport {
    pub closed spec fn spec_uri(self) -> UriView {
        self.uri@
    }

    pub closed spec fn max(self) -> usize {
        self.max_listeners
    }

    /// Takes what came of opening the session.
    pub fn session_opened<Z, S, K, Q>(self, opened: Result<Z, String>) -> (r: Result<
        UPTransportZenoh<Z, S, K, Q>,
        UStatus,
    >)
        ensures
            match opened {
                Ok(session) => r matches Ok(t) && t.spec_session() == session && t@
                    == transport::fresh_transport::<S, K, Q>(self.spec_uri(), self.max()),
                Err(_) => r matches Err(e) && e@ == status::failure(
                    UCode::Internal,
                    "Failed to open Zenoh session"@,
                ),
            },
    {
        match opened {
            Ok(session) => {
                let (transport, _) = init_with_session(
                    session,
                    self.uri,
                    self.max_listeners,
                    false,
                );
                Ok(transport)
            },
            Err(_) => Err(UStatus::fail_with(UCode::Internal, "Failed to open Zenoh session")),
        }
    }
}

impl UPTransportZenoh<(), (), (), ()> {
    /// Creates a builder for the local authority.
    ///
    /// An empty name, the wildcard and a name that is not valid are refused.
    pub fn builder(local_authority: &str) -> (r: Result<
        UPTransportZenohBuilder<InitialBuilderState>,
        UStatus,
    >)
        ensures
            match authority_verdict(local_authority@, uri::verified_authority(local_authority@)) {
                Ok(_) => r matches Ok(b) && b.local_authority() == local_authority@
                    && b.max_listeners() == DEFAULT_MAX_LISTENERS,
                Err(failure) => r matches Err(e) && e@ == failure,
            },
    {
        let verified = UUri::verify_authority(local_authority);
        match check_local_authority(local_authority, verified) {
            Ok(_) => Ok(
                UPTransportZenohBuilder {
                    common: CommonProperties {
                        local_authority: local_authority.to_string(),
                        max_listeners: DEFAULT_MAX_LISTENERS,
                    },
                    extra: InitialBuilderState,
                },
            ),
            Err(status) => Err(status),
        }
    }

    /// Begins to create a transport for the local entity with the given URI.
    ///
    /// A URI that cannot be read, has no authority or names a resource is refused.
    pub fn new(config: zenoh::Config, uri: &str) -> (r: Result<OpenSession, UStatus>)
        ensures
            match mechanics::local_uri_verdict(uri::parsed_uri(uri@)) {
                Ok(local) => session_request_is(r, config, local, DEFAULT_MAX_LISTENERS),
                Err(message) => r matches Err(e) && e@ == status::failure(
                    UCode::InvalidArgument,
                    message,
                ),
            },
            r matches Ok(open) ==> uri::parsed_uri(uri@) == Some(open.pending.spec_uri()),
    {
        match mechanics::parse_local_uri(uri) {
            Ok(uri) => init_with_config(config, uri, DEFAULT_MAX_LISTENERS),
            Err(status) => Err(status),
        }
    }
}

impl<S: BuilderState> UPTransportZenohBuilder<S> {
    /// The name of the local authority.
    pub closed spec fn local_authority(self) -> Seq<char> {
        self.common.local_authority@
    }

    /// The maximum number of listeners.
    pub closed spec fn max_listeners(self) -> usize {
        self.common.max_listeners
    }

    /// What is known of the session.
    pub closed spec fn state(self) -> S {
        self.extra
    }

    #[verifier::type_invariant]
    spec fn well_formed(self) -> bool {
        uri::verified_authority(self.common.local_authority@) is Ok
    }

    /// Sets the maximum number of listeners; the default is 100.
    #[must_use]
    pub fn with_max_listeners(self, max_listeners: usize) -> (builder: Self)
        ensures
            builder.max_listeners() == max_listeners,
            builder.local_authority() == self.local_authority(),
            builder.state() == self.state(),
    {
        proof {
            use_type_invariant(&self);
        }
        let UPTransportZenohBuilder { common, extra } = self;
        UPTransportZenohBuilder {
            common: CommonProperties { local_authority: common.local_authority, max_listeners },
            extra,
        }
    }

    /// The address of the local entity.
    fn local_uri(&self) -> (uri: UUri)
        ensures
            uri@ == authority_uri(self.local_authority()),
    {
        proof {
            use_type_invariant(self);
        }
        UUri::try_from_parts(self.common.local_authority.as_str(), 0, 0, 0).unwrap()
    }
}

impl UPTransportZenohBuilder<InitialBuilderState> {
    /// Sets the Zenoh configuration to use for the transport.
    ///
    /// Zenoh uses the `lz4_flex` crate in a version that is affected by RUSTSEC-2026-0041,
    /// which may result in data leakage when compression is enabled. It is therefore
    /// strongly recommended to disable compression in the configuration.
    #[must_use]
    pub fn with_config(self, config: zenoh::Config) -> (builder: UPTransportZenohBuilder<
        ConfigBuilderState,
    >)
        ensures
            builder.local_authority() == self.local_authority(),
            builder.max_listeners() == self.max_listeners(),
            builder.state().config() == config,
    {
        proof {
            use_type_invariant(&self);
        }
        UPTransportZenohBuilder { common: self.common, extra: ConfigBuilderState { config } }
    }

    /// Sets the path to a Zenoh configuration file to use for the transport.
    #[must_use]
    pub fn with_config_path(self, config_path: String) -> (builder: UPTransportZenohBuilder<
        ConfigPathBuilderState,
    >)
        ensures
            builder.local_authority() == self.local_authority(),
            builder.max_listeners() == self.max_listeners(),
            builder.state().path() == config_path@,
    {
        proof {
            use_type_invariant(&self);
        }
        UPTransportZenohBuilder {
            common: self.common,
            extra: ConfigPathBuilderState { config_path },
        }
    }

    /// Sets an existing Zenoh session to use for the transport.
    #[must_use]
    pub fn with_session<Z>(self, zenoh_session: Z) -> (builder: UPTransportZenohBuilder<
        SessionBuilderState<Z>,
    >)
        ensures
            builder.local_authority() == self.local_authority(),
            builder.max_listeners() == self.max_listeners(),
            builder.state().session() == zenoh_session,
    {
        proof {
            use_type_invariant(&self);
        }
        UPTransportZenohBuilder {
            common: self.common,
            extra: SessionBuilderState { zenoh_session },
        }
    }
}

impl UPTransportZenohBuilder<ConfigBuilderState> {
    /// Begins to create the transport: checks the configuration that its session is to be
    /// opened with.
    pub fn build(self) -> (r: Result<OpenSession, UStatus>)
        ensures
            session_request_is(
                r,
                self.state().config(),
                authority_uri(self.local_authority()),
                self.max_listeners(),
            ),
    {
        let uri = self.local_uri();
        init_with_config(self.extra.config, uri, self.common.max_listeners)
    }
}

impl UPTransportZenohBuilder<ConfigPathBuilderState> {
    /// The path of the configuration file.
    pub fn config_path(&self) -> (path: &str)
        ensures
            path@ == self.state().path(),
    {
        self.extra.config_path.as_str()
    }

    /// Begins to create the transport with what was read from the configuration file.
    pub fn build(self, read: Result<zenoh::Config, String>) -> (r: Result<OpenSession, UStatus>)
        ensures
            match read {
                Ok(config) => session_request_is(
                    r,
                    config,
                    authority_uri(self.local_authority()),
                    self.max_listeners(),
                ),
                Err(error) => r matches Err(e) && e@ == status::failure(
                    UCode::InvalidArgument,
                    error@,
                ),
            },
    {
        match read {
            Ok(config) => {
                let uri = self.local_uri();
                init_with_config(config, uri, self.common.max_listeners)
            },
            Err(error) => Err(UStatus::fail_with_code(UCode::InvalidArgument, error)),
        }
    }
}

impl<Z> UPTransportZenohBuilder<SessionBuilderState<Z>> {
    /// Creates the transport, with a notice about the session that was open already.
    pub fn build<S, K, Q>(self) -> (r: Result<(UPTransportZenoh<Z, S, K, Q>, Option<String>), UStatus>)
        ensures
            r matches Ok((transport, notice)) && {
                &&& transport.spec_session() == self.state().session()
                &&& transport@ == transport::fresh_transport::<S, K, Q>(
                    authority_uri(self.local_authority()),
                    self.max_listeners(),
                )
                &&& notice matches Some(text) && text@ == EXISTING_SESSION_USAGE_MESSAGE_PREFIX@
                    + EXISTING_SESSION_NOTICE@
            },
    {
        let uri = self.local_uri();
        Ok(
            init_with_session(
                self.extra.zenoh_session,
                uri,
                self.common.max_listeners,
                true,
            ),
        )
    }
}

/// The name of a local authority is accepted exactly if it is not empty, is not the wildcard
/// and was verified. Everything else is an invalid argument.
pub proof fn law_local_authority_is_a_name(name: Seq<char>, verified: Result<Seq<char>, Seq<char>>)
    ensures
        authority_verdict(name, verified) is Ok <==> name.len() > 0 && name != seq!['*']
            && verified is Ok,
        name.len() == 0 || name == seq!['*'] ==> (authority_verdict(name, verified) matches Err(s)
            && s.code == UCode::InvalidArgument && s.message
            == "Authority name must be non-empty and must not be the wildcard authority name"@),
        name.len() > 0 && name != seq!['*'] ==> (verified matches Err(error) ==> (
        authority_verdict(name, verified) matches Err(s) && s.code == UCode::InvalidArgument
            && s.message == "Invalid authority name: "@ + error)),
{
}

/// An entity that is known by its authority alone has the canonical form of that authority
/// and zero for everything else.
pub proof fn law_authority_uri_names_the_authority(name: Seq<char>, canonical: Seq<char>)
    requires
        uri::verified_authority(name) == Ok::<Seq<char>, Seq<char>>(canonical),
    ensures
        authority_uri(name).authority_name == canonical,
        authority_uri(name).ue_id == 0,
        authority_uri(name).ue_version_major == 0,
        authority_uri(name).resource_id == 0,
{
}

/// A session is opened exactly if the configuration can be used, with that configuration,
/// and the transport that waits for it has the address and the maximum that were given.
pub proof fn law_session_is_opened_as_asked(
    r: Result<OpenSession, UStatus>,
    config: zenoh::Config,
    uri: UriView,
    max_listeners: usize,
)
    ensures
        session_request_is(r, config, uri, max_listeners) <==> match (
            r,
            config::config_findings(config),
        ) {
            (Ok(open), Ok(warnings)) => {
                &&& open.config == config
                &&& config::texts(open.warnings@) == warnings
                &&& open.pending.spec_uri() == uri
                &&& open.pending.max() == max_listeners
            },
            (Err(status), Err(failure)) => status@ == failure,
            _ => false,
        },
{
}

/// A transport that is created from a text has the URI that the text reads as, in all of its
/// parts, from the moment at which its session is asked for until it is there.
pub proof fn law_transport_has_the_uri_of_its_text<S, K, Q>(
    text: Seq<char>,
    parsed: UriView,
    local: UriView,
    config: zenoh::Config,
    max_listeners: usize,
    open: OpenSession,
)
    requires
        uri::parsed_uri(text) == Some(parsed),
        mechanics::local_uri_verdict(uri::parsed_uri(text)) == Ok::<UriView, Seq<char>>(local),
        session_request_is(Ok(open), config, local, max_listeners),
    ensures
        open.pending.spec_uri() == parsed,
        transport::fresh_transport::<S, K, Q>(open.pending.spec_uri(), open.pending.max()).uri
            == parsed,
        transport::fresh_transport::<S, K, Q>(open.pending.spec_uri(), open.pending.max()).max
            == max_listeners,
{
}

/// Unless another maximum is chosen there can be a hundred listeners.
pub proof fn law_default_maximum_is_a_hundred()
    ensures
        DEFAULT_MAX_LISTENERS == 100,
{
}

} // verus!
