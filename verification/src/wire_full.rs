//! A core that carries owned frames with selected-wire metadata over a Zenoh session.
use crate::frame::{EncodedFrameView, EncodedOwnedFrame, PreparedOwnedFrame};
use crate::key;
use crate::mechanics::{self, ZenohWireMechanics};
use crate::message;
use crate::status::{self, UCode, UStatus};
use crate::transport::{self, PutRequest, PutView};
use crate::uri::{self, UUri, UriView};
use vstd::prelude::*;

verus! {

/// A listener with its filters and the subscriber that feeds it.
struct OwnedListenerRegistration<S> {
    source_filter: UUri,
    sink_filter: Option<UUri>,
    owned_listener: u64,
    subscriber: S,
}

/// A registration as a mathematical value.
#[verifier::ext_equal]
pub struct OwnedRegistrationView<S> {
    pub source: UriView,
    pub sink: Option<UriView>,
    pub listener: u64,
    pub subscriber: S,
}

impl<S> OwnedListenerRegistration<S> {
    spec fn view(self) -> OwnedRegistrationView<S> {
        OwnedRegistrationView {
            source: self.source_filter@,
            sink: crate::attributes::owned_uri(self.sink_filter),
            listener: self.owned_listener,
            subscriber: self.subscriber,
        }
    }
}

impl<S> OwnedRegistrationView<S> {
    /// Whether this is a registration of a listener for a pair of filters.
    pub open spec fn is_for(self, source: UriView, sink: Option<UriView>, listener: u64) -> bool {
        self.source == source && self.sink == sink && self.listener == listener
    }
}

/// Whether the first registration of a listener for a pair of filters is at a place.
pub open spec fn first_registration<S>(
    registrations: Seq<OwnedRegistrationView<S>>,
    source: UriView,
    sink: Option<UriView>,
    listener: u64,
    at: int,
) -> bool {
    &&& 0 <= at < registrations.len()
    &&& registrations[at].is_for(source, sink, listener)
    &&& forall|i: int|
        0 <= i < at ==> !(#[trigger] registrations[i]).is_for(source, sink, listener)
}

/// Whether a listener is registered for a pair of filters.
pub open spec fn is_registered<S>(
    registrations: Seq<OwnedRegistrationView<S>>,
    source: UriView,
    sink: Option<UriView>,
    listener: u64,
) -> bool {
    exists|i: int|
        0 <= i < registrations.len() && (#[trigger] registrations[i]).is_for(
            source,
            sink,
            listener,
        )
}

/// Real Zenoh owned-frame selected-wire core for benchmark and support paths.
///
/// `Z` is the session and `S` the subscriber of a listener. A listener that is registered
/// several times is served several times.
pub struct ZenohOwnedCore<Z, S> {
    mechanics: ZenohWireMechanics<Z, ()>,
    listeners: Vec<OwnedListenerRegistration<S>>,
}

/// What a sample that arrives becomes: nothing unless it has an attachment. An empty
/// payload counts as none.
pub open spec fn encoded_owned(attachment: Option<Seq<u8>>, payload: Seq<u8>) -> Option<
    EncodedFrameView,
> {
    match attachment {
        None => None,
        Some(encoded_metadata) => Some(
            EncodedFrameView {
                encoded_metadata,
                payload: if payload.len() == 0 {
                    None
                } else {
                    Some(payload)
                },
            },
        ),
    }
}

/// Makes a frame of a sample that arrives.
pub fn sample_to_encoded_owned(attachment: Option<Vec<u8>>, payload: Vec<u8>) -> (r: Option<
    EncodedOwnedFrame,
>)
    ensures
        match encoded_owned(message::owned_bytes(attachment), payload@) {
            Some(frame) => r matches Some(f) && f@ == frame,
            None => r is None,
        },
{
    match attachment {
        None => None,
        Some(encoded_metadata) => {
            let payload = if payload.len() == 0 {
                None
            } else {
                Some(payload)
            };
            Some(EncodedOwnedFrame { encoded_metadata, payload })
        },
    }
}

/// What a receiver does after it waited for a sample.
#[derive(Debug)]
pub enum OwnedReceiveStep {
    /// It waits for the next sample.
    Wait,
    /// It hands out a frame.
    Frame(EncodedOwnedFrame),
    /// It gives up.
    Failed(UStatus),
}

/// A sample as it arrives.
#[derive(Debug)]
pub struct OwnedSample {
    pub attachment: Option<Vec<u8>>,
    pub payload: Vec<u8>,
}

/// Decides what a receiver does after it waited for a sample.
///
/// Samples without an attachment are passed over.
pub fn owned_sample_received(received: Result<OwnedSample, String>) -> (step: OwnedReceiveStep)
    ensures
        match received {
            Ok(sample) => match encoded_owned(
                message::owned_bytes(sample.attachment),
                sample.payload@,
            ) {
                Some(frame) => step matches OwnedReceiveStep::Frame(f) && f@ == frame,
                None => step is Wait,
            },
            Err(error) => step matches OwnedReceiveStep::Failed(e) && e@ == status::failure(
                UCode::Internal,
                "failed to receive Zenoh owned sample: "@ + error@,
            ),
        },
{
    match received {
        Ok(sample) => match sample_to_encoded_owned(sample.attachment, sample.payload) {
            Some(frame) => OwnedReceiveStep::Frame(frame),
            None => OwnedReceiveStep::Wait,
        },
        Err(error) => OwnedReceiveStep::Failed(
            UStatus::internal("failed to receive Zenoh owned sample: ", error.as_str()),
        ),
    }
}

/// The outcome of putting an owned frame.
pub fn owned_frame_put(outcome: Result<(), String>) -> (r: Result<(), UStatus>)
    ensures
        match outcome {
            Ok(_) => r is Ok,
            Err(error) => r matches Err(e) && e@ == status::failure(
                UCode::Internal,
                "failed to put Zenoh owned frame: "@ + error@,
            ),
        },
{
    match outcome {
        Ok(_) => Ok(()),
        Err(error) => Err(UStatus::internal("failed to put Zenoh owned frame: ", error.as_str())),
    }
}

/// The outcome of declaring the subscriber of a receiver.
pub fn owned_subscriber_declared<S>(outcome: Result<S, String>) -> (r: Result<S, UStatus>)
    ensures
        match outcome {
            Ok(subscriber) => r matches Ok(s) && s == subscriber,
            Err(error) => r matches Err(e) && e@ == status::failure(
                UCode::Internal,
                "failed to declare Zenoh owned subscriber: "@ + error@,
            ),
        },
{
    match outcome {
        Ok(subscriber) => Ok(subscriber),
        Err(error) => Err(UStatus::internal("failed to declare Zenoh owned subscriber: ", error.as_str())),
    }
}

/// The outcome of undeclaring the subscriber of a listener that was taken out.
pub fn owned_listener_undeclared(outcome: Result<(), String>) -> (r: Result<(), UStatus>)
    ensures
        match outcome {
            Ok(_) => r is Ok,
            Err(error) => r matches Err(e) && e@ == status::failure(
                UCode::Internal,
                "failed to undeclare Zenoh owned listener: "@ + error@,
            ),
        },
{
    match outcome {
        Ok(_) => Ok(()),
        Err(error) => Err(UStatus::internal("failed to undeclare Zenoh owned listener: ", error.as_str())),
    }
}

impl<Z, S> ZenohOwnedCore<Z, S> {
    /// The session of the core.
    pub closed spec fn spec_session(self) -> Z {
        self.mechanics.spec_session()
    }

    /// The address of the local entity.
    pub closed spec fn spec_uri(self) -> UriView {
        self.mechanics.spec_uri()
    }

    /// The registrations, in the order in which they were made.
    pub closed spec fn registrations(self) -> Seq<OwnedRegistrationView<S>> {
        self.listeners@.map_values(|r: OwnedListenerRegistration<S>| r.view())
    }

    /// Takes what opening a session gave, and the URI of the local entity.
    pub fn new(opened: Result<Z, String>, uri: &str) -> (r: Result<Self, UStatus>)
        ensures
            opened is Err ==> (r matches Err(e) && e@ == status::failure(
                UCode::Internal,
                "Unable to open Zenoh session"@,
            )),
            opened matches Ok(session) ==> match mechanics::local_uri_verdict(
                uri::parsed_uri(uri@),
            ) {
                Ok(local) => r matches Ok(core) && core.spec_session() == session
                    && core.spec_uri() == local && core.registrations() == Seq::<
                    OwnedRegistrationView<S>,
                >::empty(),
                Err(message) => r matches Err(e) && e@ == status::failure(
                    UCode::InvalidArgument,
                    message,
                ),
            },
            r matches Ok(core) ==> uri::parsed_uri(uri@) == Some(core.spec_uri()),
    {
        match ZenohWireMechanics::new(opened, uri) {
            Ok(mechanics) => {
                let core = ZenohOwnedCore { mechanics, listeners: Vec::new() };
                assert(core.registrations() =~= Seq::<OwnedRegistrationView<S>>::empty());
                Ok(core)
            },
            Err(status) => Err(status),
        }
    }

    pub fn session(&self) -> (session: &Z)
        ensures
            *session == self.spec_session(),
    {
        self.mechanics.session()
    }

    /// What is to be put for a prepared frame.
    pub fn send_prepared_owned(&self, frame: PreparedOwnedFrame) -> (put: PutRequest)
        ensures
            put@ == (PutView {
                key: frame.metadata@.key(self.spec_uri().authority_name),
                payload: transport::sent_payload(message::owned_bytes(frame.payload)),
                attachment: frame.encoded_metadata@,
                priority: frame.metadata@.zenoh_priority(),
            }),
    {
        let key = frame.metadata.zenoh_key(self.mechanics.uri());
        let priority = frame.metadata.zenoh_priority();
        let ghost given = frame.payload;
        let payload = match frame.payload {
            Some(payload) => payload,
            None => Vec::new(),
        };
        assert(payload@ =~= transport::sent_payload(message::owned_bytes(given)));
        PutRequest { key, payload, attachment: frame.encoded_metadata, priority }
    }

    /// The key expression to subscribe to, to receive frames or to feed a listener.
    pub fn owned_key(&self, source_filter: &UUri, sink_filter: Option<&UUri>) -> (key: String)
        ensures
            key@ == key::zenoh_key(
                self.spec_uri().authority_name,
                source_filter@,
                uri::opt_uri(sink_filter),
            ),
    {
        self.mechanics.to_zenoh_key_string(source_filter, sink_filter)
    }

    /// Registers a listener with what came of the declaration of its subscriber.
    pub fn register_encoded_owned_listener(
        &mut self,
        source_filter: &UUri,
        sink_filter: Option<&UUri>,
        listener: u64,
        declared: Result<S, String>,
    ) -> (r: Result<(), UStatus>)
        ensures
            final(self).spec_session() == old(self).spec_session(),
            final(self).spec_uri() == old(self).spec_uri(),
            match declared {
                Ok(subscriber) => {
                    &&& r is Ok
                    &&& final(self).registrations() == old(self).registrations().push(
                        OwnedRegistrationView {
                            source: source_filter@,
                            sink: uri::opt_uri(sink_filter),
                            listener,
                            subscriber,
                        },
                    )
                },
                Err(error) => {
                    &&& r matches Err(e) && e@ == status::failure(
                        UCode::Internal,
                        "failed to register Zenoh owned listener: "@ + error@,
                    )
                    &&& final(self).registrations() == old(self).registrations()
                },
            },
    {
        let subscriber = match declared {
            Ok(subscriber) => subscriber,
            Err(error) => {
                return Err(UStatus::internal("failed to register Zenoh owned listener: ", error.as_str()));
            },
        };
        let sink_filter = match sink_filter {
            Some(sink) => Some(sink.clone()),
            None => None,
        };
        self.listeners.push(
            OwnedListenerRegistration {
                source_filter: source_filter.clone(),
                sink_filter,
                owned_listener: listener,
                subscriber,
            },
        );
        assert(self.registrations() =~= old(self).registrations().push(
            self.listeners@.last().view(),
        ));
        Ok(())
    }

    /// Takes out the first registration of a listener for a pair of filters and gives its
    /// subscriber.
    pub fn unregister_encoded_owned_listener(
        &mut self,
        source_filter: &UUri,
        sink_filter: Option<&UUri>,
        listener: u64,
    ) -> (r: Result<S, UStatus>)
        ensures
            final(self).spec_session() == old(self).spec_session(),
            final(self).spec_uri() == old(self).spec_uri(),
            match r {
                Ok(subscriber) => exists|at: int|
                    {
                        &&& #[trigger] first_registration(
                            old(self).registrations(),
                            source_filter@,
                            uri::opt_uri(sink_filter),
                            listener,
                            at,
                        )
                        &&& subscriber == old(self).registrations()[at].subscriber
                        &&& final(self).registrations() == old(self).registrations().remove(at)
                    },
                Err(e) => {
                    &&& !is_registered(
                        old(self).registrations(),
                        source_filter@,
                        uri::opt_uri(sink_filter),
                        listener,
                    )
                    &&& e@ == status::failure(UCode::NotFound, "owned listener not registered"@)
                    &&& final(self).registrations() == old(self).registrations()
                },
            },
    {
        let mut i: usize = 0;
        while i < self.listeners.len()
            invariant
                i <= self.listeners.len(),
                *self == *old(self),
                forall|j: int|
                    0 <= j < i ==> !(#[trigger] self.registrations()[j]).is_for(
                        source_filter@,
                        uri::opt_uri(sink_filter),
                        listener,
                    ),
            decreases self.listeners.len() - i,
        {
            let registration = &self.listeners[i];
            assert(self.registrations()[i as int] == registration.view());
            if registration.source_filter.same(source_filter) && uri::same_optional(
                registration.sink_filter.as_ref(),
                sink_filter,
            ) && registration.owned_listener == listener {
                let removed = self.listeners.remove(i);
                proof {
                    assert(self.registrations() =~= old(self).registrations().remove(i as int));
                    assert(first_registration(
                        old(self).registrations(),
                        source_filter@,
                        uri::opt_uri(sink_filter),
                        listener,
                        i as int,
                    ));
                }
                return Ok(removed.subscriber);
            }
            i += 1;
        }
        Err(UStatus::fail_with(UCode::NotFound, "owned listener not registered"))
    }
}

/// To take out a registration that was new when it was made restores the registrations
/// from before.
pub proof fn law_unregister_undoes_register<S>(
    before: Seq<OwnedRegistrationView<S>>,
    registration: OwnedRegistrationView<S>,
    at: int,
)
    requires
        !is_registered(before, registration.source, registration.sink, registration.listener),
        first_registration(
            before.push(registration),
            registration.source,
            registration.sink,
            registration.listener,
            at,
        ),
    ensures
        before.push(registration).remove(at) == before,
{
    let after = before.push(registration);
    if at < before.len() {
        assert(before[at] == after[at]);
    }
    assert(after.remove(at) =~= before);
}

/// A listener that is registered has a first registration, which is the one to be taken
/// out.
pub proof fn law_registered_listener_has_first_registration<S>(
    registrations: Seq<OwnedRegistrationView<S>>,
    source: UriView,
    sink: Option<UriView>,
    listener: u64,
)
    requires
        is_registered(registrations, source, sink, listener),
    ensures
        exists|at: int| #[trigger]
            first_registration(registrations, source, sink, listener, at),
    decreases registrations.len(),
{
    let init = registrations.drop_last();
    if is_registered(init, source, sink, listener) {
        law_registered_listener_has_first_registration(init, source, sink, listener);
        let at = choose|at: int| #[trigger]
            first_registration(init, source, sink, listener, at);
        assert(registrations[at] == init[at]);
        assert forall|i: int| 0 <= i < at implies !(#[trigger] registrations[i]).is_for(
            source,
            sink,
            listener,
        ) by {
            assert(registrations[i] == init[i]);
        }
        assert(first_registration(registrations, source, sink, listener, at));
    } else {
        let last = registrations.len() - 1;
        let i = choose|i: int|
            0 <= i < registrations.len() && (#[trigger] registrations[i]).is_for(
                source,
                sink,
                listener,
            );
        if i < last {
            assert(init[i] == registrations[i]);
        }
        assert forall|j: int| 0 <= j < last implies !(#[trigger] registrations[j]).is_for(
            source,
            sink,
            listener,
        ) by {
            assert(init[j] == registrations[j]);
        }
        assert(first_registration(registrations, source, sink, listener, last));
    }
}

/// A sample with an attachment becomes a frame with that metadata and its payload, where an
/// empty payload is none. A sample without an attachment becomes nothing.
pub proof fn law_sample_becomes_a_frame(attachment: Seq<u8>, payload: Seq<u8>)
    ensures
        encoded_owned(None, payload) is None,
        encoded_owned(Some(attachment), payload) matches Some(frame) && {
            &&& frame.encoded_metadata == attachment
            &&& payload.len() > 0 ==> frame.payload == Some(payload)
            &&& payload.len() == 0 ==> frame.payload is None
        },
{
}

/// A frame that is sent arrives with its metadata and its payload, where a payload that is
/// empty arrives as none.
pub proof fn law_frame_arrives_as_it_was_sent(encoded_metadata: Seq<u8>, payload: Option<Seq<u8>>)
    ensures
        encoded_owned(Some(encoded_metadata), transport::sent_payload(payload)) matches Some(frame)
            && {
            &&& frame.encoded_metadata == encoded_metadata
            &&& payload matches Some(bytes) ==> (bytes.len() > 0 ==> frame.payload == payload)
            &&& payload is None ==> frame.payload is None
        },
{
}

/// A registration is for a listener and a pair of filters exactly if all three are its own.
pub proof fn law_registration_is_for_its_own<S>(
    registration: OwnedRegistrationView<S>,
    source: UriView,
    sink: Option<UriView>,
    listener: u64,
)
    ensures
        registration.is_for(registration.source, registration.sink, registration.listener),
        registration.is_for(source, sink, listener) ==> source == registration.source && sink
            == registration.sink && listener == registration.listener,
{
}

/// A listener that was registered is registered, and what is taken out first is what was
/// registered first: no registration before it is for the same listener and filters.
pub proof fn law_registered_is_registered<S>(
    before: Seq<OwnedRegistrationView<S>>,
    registration: OwnedRegistrationView<S>,
    at: int,
    earlier: int,
)
    ensures
        is_registered(
            before.push(registration),
            registration.source,
            registration.sink,
            registration.listener,
        ),
        first_registration(
            before,
            registration.source,
            registration.sink,
            registration.listener,
            at,
        ) ==> {
            &&& 0 <= at < before.len()
            &&& before[at].source == registration.source
            &&& before[at].sink == registration.sink
            &&& before[at].listener == registration.listener
            &&& 0 <= earlier < at ==> !(before[earlier].source == registration.source
                && before[earlier].sink == registration.sink && before[earlier].listener
                == registration.listener)
        },
{
    let after = before.push(registration);
    assert(after[before.len() as int].is_for(
        registration.source,
        registration.sink,
        registration.listener,
    ));
    if first_registration(
        before,
        registration.source,
        registration.sink,
        registration.listener,
        at,
    ) && 0 <= earlier < at {
        assert(!before[earlier].is_for(
            registration.source,
            registration.sink,
            registration.listener,
        ));
    }
}

} // verus!
