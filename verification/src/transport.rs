//! The state of a transport over Zenoh and the rules by which it sends messages, registers
//! listeners and answers queries.
//!
//! The rules never wait. Where something has to be done with the Zenoh session, a rule
//! says what, and another rule takes what came of it.
use crate::attachment::{self, AttachmentError};
use crate::attributes::{self, AttributesView, UAttributes, UMessageType, UUID};
use crate::key;
use crate::listener_registry::{self, ListenerKey, ListenerRegistry, SubscriberStep};
use crate::mechanics::{self, Priority, UPriority};
use crate::message::{self, Dropped, MessageView, UMessage};
use crate::status::{self, StatusView, UCode, UStatus};
use crate::table::Table;
use crate::text;
use crate::uri::{self, UUri, UriView};
use vstd::prelude::*;

verus! {

/// A uProtocol transport over Zenoh.
///
/// `Z` is the session, `S` the subscriber of a listener, `K` the queryable of a listener
/// for requests, and `Q` a query that waits for its reply.
pub struct UPTransportZenoh<Z, S, K, Q> {
    session: Z,
    subscribers: ListenerRegistry<S>,
    queryable_map: Table<ListenerKey, K>,
    query_map: Table<UUID, Q>,
    uri: UUri,
}

/// The state of a transport as a mathematical value.
#[verifier::ext_equal]
pub struct TransportView<S, K, Q> {
    /// The address of the local entity.
    pub uri: UriView,
    /// The subscribers of the registered listeners.
    pub subscribers: Map<(Seq<char>, u64), S>,
    /// The maximum number of listeners.
    pub max: usize,
    /// The queryables of the listeners for requests.
    pub queryables: Map<(Seq<char>, u64), K>,
    /// The queries that wait for a reply, by the identifiers of the requests.
    pub queries: Map<UUID, Q>,
}

/// The state of a transport without listeners.
pub open spec fn fresh_transport<S, K, Q>(uri: UriView, max: usize) -> TransportView<S, K, Q> {
    TransportView {
        uri,
        subscribers: Map::empty(),
        max,
        queryables: Map::empty(),
        queries: Map::empty(),
    }
}

/// A message to put on a key.
#[derive(Debug)]
pub struct PutRequest {
    pub key: String,
    pub payload: Vec<u8>,
    pub attachment: Vec<u8>,
    pub priority: Priority,
}

/// A message to put on a key as a mathematical value.
#[verifier::ext_equal]
pub struct PutView {
    pub key: Seq<char>,
    pub payload: Seq<u8>,
    pub attachment: Seq<u8>,
    pub priority: Priority,
}

impl View for PutRequest {
    type V = PutView;

    open spec fn view(&self) -> PutView {
        PutView {
            key: self.key@,
            payload: self.payload@,
            attachment: self.attachment@,
            priority: self.priority,
        }
    }
}

/// What is to be done to send a message.
#[derive(Debug)]
pub enum SendAction<Q> {
    /// Put the message on a key.
    Put(PutRequest),
    /// Reply to a query.
    Reply { query: Q, payload: Vec<u8>, attachment: Vec<u8> },
}

/// What is to be done to send a message, as a mathematical value.
#[verifier::ext_equal]
pub enum SendView<Q> {
    Put(PutView),
    Reply { query: Q, payload: Seq<u8>, attachment: Seq<u8> },
}

impl<Q> SendView<Q> {
    /// The attachment that travels with the message.
    pub open spec fn attachment(self) -> Seq<u8> {
        match self {
            SendView::Put(put) => put.attachment,
            SendView::Reply { attachment, .. } => attachment,
        }
    }

    /// The payload that travels with the message.
    pub open spec fn payload(self) -> Seq<u8> {
        match self {
            SendView::Put(put) => put.payload,
            SendView::Reply { payload, .. } => payload,
        }
    }
}

impl<Q> View for SendAction<Q> {
    type V = SendView<Q>;

    open spec fn view(&self) -> SendView<Q> {
        match *self {
            SendAction::Put(put) => SendView::Put(put@),
            SendAction::Reply { query, payload, attachment } => SendView::Reply {
                query,
                payload: payload@,
                attachment: attachment@,
            },
        }
    }
}

/// A listener on its way into the registry.
#[derive(Debug)]
pub struct Registration {
    zenoh_key: String,
    listener: u64,
    rpc: bool,
}

/// A listener on its way into the registry, as a mathematical value.
#[verifier::ext_equal]
pub struct RegistrationView {
    pub key: Seq<char>,
    pub listener: u64,
    pub rpc: bool,
}

impl RegistrationView {
    /// The place of the listener in the registry.
    pub open spec fn entry(self) -> (Seq<char>, u64) {
        (self.key, self.listener)
    }
}

impl View for Registration {
    type V = RegistrationView;

    closed spec fn view(&self) -> RegistrationView {
        RegistrationView { key: self.zenoh_key@, listener: self.listener, rpc: self.rpc }
    }
}

impl Registration {
    /// The key expression to declare a subscriber or a queryable for.
    pub fn zenoh_key(&self) -> (key: &str)
        ensures
            key@ == self@.key,
    {
        self.zenoh_key.as_str()
    }

    /// The listener.
    pub fn listener(&self) -> (listener: u64)
        ensures
            listener == self@.listener,
    {
        self.listener
    }
}

/// What is to be done next to register a listener.
#[derive(Debug)]
pub enum RegistrationStep {
    /// Nothing: the listener is registered.
    Done,
    /// Declare a subscriber.
    DeclareSubscriber(Registration),
    /// Declare a queryable.
    DeclareQueryable(Registration),
}

/// What is to be done next to register a listener, as a mathematical value.
#[verifier::ext_equal]
pub enum StepView {
    Done,
    DeclareSubscriber(RegistrationView),
    DeclareQueryable(RegistrationView),
}

impl View for RegistrationStep {
    type V = StepView;

    open spec fn view(&self) -> StepView {
        match *self {
            RegistrationStep::Done => StepView::Done,
            RegistrationStep::DeclareSubscriber(r) => StepView::DeclareSubscriber(r@),
            RegistrationStep::DeclareQueryable(r) => StepView::DeclareQueryable(r@),
        }
    }
}

/// What came of the removal of a listener, with the handles that it had.
pub struct Unregistered<S, K> {
    pub subscriber: Option<S>,
    pub queryable: Option<K>,
    pub outcome: Result<(), UStatus>,
}

/// Whether a pair of filters asks for requests: the source can be a reply-to address and
/// the sink a method.
pub open spec fn rpc_request_filter(source: UriView, sink: Option<UriView>) -> bool {
    match sink {
        None => false,
        Some(sink) => {
            &&& source.resource() == 0 || source.any_resource()
            &&& 1 <= sink.resource() < 0x8000 || sink.any_resource()
        },
    }
}

/// Whether a pair of filters asks for requests.
pub fn is_rpc_request_filter(source_filter: &UUri, sink_filter: Option<&UUri>) -> (b: bool)
    ensures
        b == rpc_request_filter(source_filter@, uri::opt_uri(sink_filter)),
{
    let sink_filter = match sink_filter {
        Some(sink_filter) => sink_filter,
        None => {
            return false;
        },
    };
    let source_is_reply_to = source_filter.resource() == 0
        || source_filter.has_wildcard_resource_id();
    let sink_resource: u16 = sink_filter.resource();
    let sink_is_method = (1 <= sink_resource && sink_resource < 0x8000)
        || sink_filter.has_wildcard_resource_id();
    source_is_reply_to && sink_is_method
}

/// The status for attributes that cannot be written.
pub open spec fn attachment_failure(error: Seq<char>) -> StatusView {
    status::failure(
        UCode::InvalidArgument,
        "Unable to transform UAttributes to attachment: "@ + error,
    )
}

/// The priority with which a message is put.
pub open spec fn put_priority(code: i32) -> Priority {
    mechanics::zenoh_priority(attributes::priority_or_default(code))
}

/// The payload that is sent for an optional one.
pub open spec fn sent_payload(payload: Option<Seq<u8>>) -> Seq<u8> {
    match payload {
        Some(bytes) => bytes,
        None => Seq::empty(),
    }
}

/// What is to be put for a message, given the attachment for its attributes.
pub open spec fn put_outcome(
    key: Seq<char>,
    payload: Seq<u8>,
    priority: i32,
    attachment: Result<Seq<u8>, Seq<char>>,
) -> Result<PutView, StatusView> {
    match attachment {
        Err(error) => Err(attachment_failure(error)),
        Ok(attachment) => Ok(PutView { key, payload, attachment, priority: put_priority(priority) }),
    }
}

/// The request that a response answers, if its query waits for a reply.
pub open spec fn waiting_query<Q>(queries: Map<UUID, Q>, reqid: Option<UUID>) -> Option<UUID> {
    match reqid {
        Some(id) => if queries.contains_key(id) {
            Some(id)
        } else {
            None
        },
        None => None,
    }
}

/// The queries that wait after a response was sent, whatever came of it.
pub open spec fn queries_after_response<Q>(queries: Map<UUID, Q>, reqid: Option<UUID>) -> Map<
    UUID,
    Q,
> {
    match waiting_query(queries, reqid) {
        Some(id) => queries.remove(id),
        None => queries,
    }
}

/// What is to be done to send a response, given the attachment for its attributes.
///
/// A response to a request that came as a query goes back as the reply to that query. Any
/// other response is put on its key.
pub open spec fn response_outcome<Q>(
    queries: Map<UUID, Q>,
    key: Seq<char>,
    payload: Seq<u8>,
    attributes: AttributesView,
    attachment: Result<Seq<u8>, Seq<char>>,
) -> Result<SendView<Q>, StatusView> {
    match waiting_query(queries, attributes.reqid) {
        Some(id) => match attachment {
            Err(error) => Err(attachment_failure(error)),
            Ok(attachment) => Ok(SendView::Reply { query: queries[id], payload, attachment }),
        },
        None => put_action(put_outcome(key, payload, attributes.priority, attachment)),
    }
}

/// The action for a message that is put.
pub open spec fn put_action<Q>(put: Result<PutView, StatusView>) -> Result<
    SendView<Q>,
    StatusView,
> {
    match put {
        Err(failure) => Err(failure),
        Ok(put) => Ok(SendView::Put(put)),
    }
}

/// Whether a message is a response.
pub open spec fn is_response(attributes: AttributesView) -> bool {
    UMessageType::of(attributes.type_) == Some(UMessageType::Response)
}

/// The queries that wait after a message was sent.
pub open spec fn queries_after_send<Q>(queries: Map<UUID, Q>, attributes: AttributesView) -> Map<
    UUID,
    Q,
> {
    if is_response(attributes) {
        queries_after_response(queries, attributes.reqid)
    } else {
        queries
    }
}

/// What is to be done to send a message with a source, given the attachment for its
/// attributes: a response is sent as one, everything else is put on the key of its source
/// and sink.
pub open spec fn send_outcome<Q>(
    queries: Map<UUID, Q>,
    local: Seq<char>,
    message: MessageView,
    attachment: Result<Seq<u8>, Seq<char>>,
) -> Result<SendView<Q>, StatusView> {
    let attributes = message.attributes;
    let key = key::zenoh_key(local, attributes.source->0, attributes.sink);
    let payload = sent_payload(message.payload);
    if is_response(attributes) {
        response_outcome(queries, key, payload, attributes, attachment)
    } else {
        put_action(put_outcome(key, payload, attributes.priority, attachment))
    }
}

/// The model of the result of a rule that can fail.
pub open spec fn outcome_is<T: View>(r: Result<T, UStatus>, expected: Result<T::V, StatusView>) -> bool {
    match expected {
        Ok(value) => r matches Ok(v) && v@ == value,
        Err(failure) => r matches Err(e) && e@ == failure,
    }
}

/// The model of an attachment that may have failed to be written.
pub open spec fn attachment_view(attachment: Result<Vec<u8>, String>) -> Result<
    Seq<u8>,
    Seq<char>,
> {
    match attachment {
        Ok(bytes) => Ok(bytes@),
        Err(error) => Err(error@),
    }
}

fn attachment_error(error: &str) -> (status: UStatus)
    ensures
        status@ == attachment_failure(error@),
{
    UStatus::fail_with_code(
        UCode::InvalidArgument,
        text::join("Unable to transform UAttributes to attachment: ", error),
    )
}

/// The outcome of putting a message.
pub fn message_put(outcome: Result<(), String>) -> (r: Result<(), UStatus>)
    ensures
        match outcome {
            Ok(_) => r is Ok,
            Err(error) => r matches Err(e) && e@ == status::failure(
                UCode::Internal,
                "failed to put Zenoh message: "@ + error@,
            ),
        },
{
    match outcome {
        Ok(_) => Ok(()),
        Err(error) => Err(
            UStatus::internal("failed to put Zenoh message: ", error.as_str()),
        ),
    }
}

/// The outcome of replying to a query.
pub fn reply_sent(outcome: Result<(), String>) -> (r: Result<(), UStatus>)
    ensures
        match outcome {
            Ok(_) => r is Ok,
            Err(error) => r matches Err(e) && e@ == status::failure(
                UCode::Internal,
                "Unable to reply with Zenoh: "@ + error@,
            ),
        },
{
    match outcome {
        Ok(_) => Ok(()),
        Err(error) => Err(
            UStatus::internal("Unable to reply with Zenoh: ", error.as_str()),
        ),
    }
}

impl<Z, S, K, Q> View for UPTransportZenoh<Z, S, K, Q> {
    type V = TransportView<S, K, Q>;

    closed spec fn view(&self) -> TransportView<S, K, Q> {
        TransportView {
            uri: self.uri@,
            subscribers: self.subscribers.subscribers(),
            max: self.subscribers.max(),
            queryables: self.queryable_map@,
            queries: self.query_map@,
        }
    }
}

impl<Z, S, K, Q> UPTransportZenoh<Z, S, K, Q> {
    /// The session of the transport.
    pub closed spec fn spec_session(self) -> Z {
        self.session
    }

    /// Creates a transport for a local entity, without listeners.
    pub fn with_uri(session: Z, uri: UUri, max_listeners: usize) -> (transport: Self)
        ensures
            transport.spec_session() == session,
            transport@ == fresh_transport::<S, K, Q>(uri@, max_listeners),
    {
        UPTransportZenoh {
            session,
            subscribers: ListenerRegistry::new(max_listeners),
            queryable_map: Table::new(),
            query_map: Table::new(),
            uri,
        }
    }

    pub fn session(&self) -> (session: &Z)
        ensures
            *session == self.spec_session(),
    {
        &self.session
    }

    /// The address of the local entity, to which responses and notifications are sent.
    pub fn get_source_uri(&self) -> (uri: UUri)
        ensures
            uri@ == self@.uri,
    {
        self.uri.clone()
    }

    /// The number of registered listeners, which never exceeds the maximum.
    pub fn listener_count(&self) -> (n: usize)
        ensures
            n == self@.subscribers.len(),
            self@.subscribers.dom().finite(),
            n <= self@.max,
    {
        self.subscribers.len()
    }

    /// The key expression for messages, or for a filter of messages, from a source to a sink.
    pub fn to_zenoh_key_string(&self, src_uri: &UUri, dst_uri: Option<&UUri>) -> (key: String)
        ensures
            key@ == key::zenoh_key(self@.uri.authority_name, src_uri@, uri::opt_uri(dst_uri)),
    {
        key::to_zenoh_key_string(&self.uri, src_uri, dst_uri)
    }

    /// Decides how a valid message is sent, given the attachment for its attributes.
    pub fn send_encoded(&mut self, message: UMessage, attachment: Result<Vec<u8>, String>) -> (r:
        Result<SendAction<Q>, UStatus>)
        requires
            message@.attributes.valid(),
        ensures
            outcome_is(
                r,
                send_outcome(
                    old(self)@.queries,
                    old(self)@.uri.authority_name,
                    message@,
                    attachment_view(attachment),
                ),
            ),
            final(self)@ == (TransportView {
                queries: queries_after_send(old(self)@.queries, message@.attributes),
                ..old(self)@
            }),
            final(self).spec_session() == old(self).spec_session(),
    {
        let UMessage { attributes, payload } = message;
        let payload = match payload {
            Some(payload) => payload,
            None => Vec::new(),
        };
        assert(payload@ =~= sent_payload(message@.payload));
        let zenoh_key = match &attributes.source {
            Some(source) => self.to_zenoh_key_string(source, attributes.sink.as_ref()),
            None => String::new(),
        };
        if attributes.is_response() {
            self.send_response(zenoh_key, payload, &attributes, attachment)
        } else {
            match self.put_message(zenoh_key, payload, &attributes, attachment) {
                Ok(put) => Ok(SendAction::Put(put)),
                Err(status) => Err(status),
            }
        }
    }

    /// What is to be put for a message, given the attachment for its attributes.
    pub fn put_message(
        &self,
        zenoh_key: String,
        payload: Vec<u8>,
        attributes: &UAttributes,
        attachment: Result<Vec<u8>, String>,
    ) -> (r: Result<PutRequest, UStatus>)
        ensures
            outcome_is(
                r,
                put_outcome(
                    zenoh_key@,
                    payload@,
                    attributes@.priority,
                    attachment_view(attachment),
                ),
            ),
            r matches Ok(put) ==> put.priority.rank() == (if 1 <= attributes.priority <= 7 {
                attributes.priority - 1
            } else {
                1
            }),
            r matches Ok(put) ==> put.key@ == zenoh_key@ && put.payload@ == payload@,
    {
        let attachment = match attachment {
            Ok(attachment) => attachment,
            Err(error) => {
                return Err(attachment_error(error.as_str()));
            },
        };
        let class = match attributes.priority() {
            Some(class) => class,
            None => UPriority::CS1,
        };
        let priority = mechanics::map_zenoh_priority(class);
        Ok(PutRequest { key: zenoh_key, payload, attachment, priority })
    }

    /// Sends a response as the reply to the query that asked for it, or puts it on its key
    /// where there is none, given the attachment for its attributes.
    ///
    /// The query is taken whatever comes of the response.
    pub fn send_response(
        &mut self,
        zenoh_key: String,
        payload: Vec<u8>,
        attributes: &UAttributes,
        attachment: Result<Vec<u8>, String>,
    ) -> (r: Result<SendAction<Q>, UStatus>)
        ensures
            outcome_is(
                r,
                response_outcome(
                    old(self)@.queries,
                    zenoh_key@,
                    payload@,
                    attributes@,
                    attachment_view(attachment),
                ),
            ),
            final(self)@ == (TransportView {
                queries: queries_after_response(old(self)@.queries, attributes@.reqid),
                ..old(self)@
            }),
            final(self).spec_session() == old(self).spec_session(),
    {
        let query = match attributes.reqid {
            Some(reqid) => self.query_map.remove(&reqid),
            None => None,
        };
        proof {
            assert(self@.queries =~= queries_after_response(
                old(self)@.queries,
                attributes@.reqid,
            ));
        }
        match query {
            None => match self.put_message(zenoh_key, payload, attributes, attachment) {
                Ok(put) => Ok(SendAction::Put(put)),
                Err(status) => Err(status),
            },
            Some(query) => match attachment {
                Ok(attachment) => Ok(SendAction::Reply { query, payload, attachment }),
                Err(error) => Err(attachment_error(error.as_str())),
            },
        }
    }

    /// Decides how a message is sent.
    ///
    /// A message whose attributes are not valid is refused, and every other message is sent.
    /// The attachment of a message that is sent gives its attributes back to whoever receives
    /// it before it expires.
    pub fn send(&mut self, message: UMessage) -> (r: Result<SendAction<Q>, UStatus>)
        ensures
            final(self).spec_session() == old(self).spec_session(),
            !message@.attributes.valid() ==> *final(self) == *old(self) && (r matches Err(e) && e@
                == status::failure(
                UCode::InvalidArgument,
                attributes::attributes_refusal(message@.attributes.checked()),
            )),
            r is Ok <==> message@.attributes.valid(),
            message@.attributes.valid() ==> {
                &&& outcome_is(
                    r,
                    send_outcome(
                        old(self)@.queries,
                        old(self)@.uri.authority_name,
                        message@,
                        attachment::attributes_attachment(message@.attributes),
                    ),
                )
                &&& final(self)@ == (TransportView {
                    queries: queries_after_send(old(self)@.queries, message@.attributes),
                    ..old(self)@
                })
            },
            message@.attributes.moderate() ==> (r matches Ok(action) ==> (
            attachment::attachment_attributes(action@.attachment()) matches Ok(read) && read
                == message@.attributes)),
            message@.attributes.moderate() ==> (r matches Ok(action) ==> forall|now: Option<u128>|
                !message@.attributes.expired(now) ==> #[trigger] message::sample_verdict(
                    Some(action@.attachment()),
                    now,
                ) == Ok::<AttributesView, message::DroppedView>(message@.attributes)),
    {
        if let Err(refusal) = message.attributes.validate() {
            return Err(UStatus::fail_with_code(UCode::InvalidArgument, refusal));
        }
        let attachment = attachment::uattributes_to_attachment(&message.attributes);
        self.send_encoded(message, attachment)
    }

    /// Polling for messages is not supported.
    pub fn receive(&self, _source_filter: &UUri, _sink_filter: Option<&UUri>) -> (r: Result<
        UMessage,
        UStatus,
    >)
        ensures
            r matches Err(e) && e@ == status::failure(UCode::Unimplemented, "not implemented"@),
    {
        Err(UStatus::fail_with(UCode::Unimplemented, "not implemented"))
    }
}

/// What is to be done for a listener that has its subscriber.
pub open spec fn after_subscribed<K>(
    queryables: Map<(Seq<char>, u64), K>,
    registration: RegistrationView,
) -> StepView {
    if registration.rpc && !queryables.contains_key(registration.entry()) {
        StepView::DeclareQueryable(registration)
    } else {
        StepView::Done
    }
}

/// The registration of a listener for a pair of filters.
pub open spec fn registration_for(
    local: Seq<char>,
    source: UriView,
    sink: Option<UriView>,
    listener: u64,
) -> RegistrationView {
    RegistrationView {
        key: key::zenoh_key(local, source, sink),
        listener,
        rpc: rpc_request_filter(source, sink),
    }
}

impl<S, K, Q> TransportView<S, K, Q> {
    /// What is to be done first to register a listener.
    pub open spec fn first_step(self, registration: RegistrationView) -> Result<
        StepView,
        StatusView,
    > {
        match listener_registry::subscriber_step(
            self.subscribers,
            self.max,
            registration.entry(),
        ) {
            Err(failure) => Err(failure),
            Ok(SubscriberStep::Registered) => Ok(after_subscribed(self.queryables, registration)),
            Ok(SubscriberStep::Declare) => Ok(StepView::DeclareSubscriber(registration)),
        }
    }

    /// The state after a subscriber was declared for a listener, or failed to be.
    pub open spec fn with_subscriber(
        self,
        registration: RegistrationView,
        declared: Result<S, String>,
    ) -> TransportView<S, K, Q> {
        TransportView {
            subscribers: listener_registry::subscriber_declared(
                self.subscribers,
                self.max,
                registration.entry(),
                declared,
            ).0,
            ..self
        }
    }

    /// What is to be done after a subscriber was declared for a listener, or failed to be.
    pub open spec fn second_step(
        self,
        registration: RegistrationView,
        declared: Result<S, String>,
    ) -> Result<StepView, StatusView> {
        match listener_registry::subscriber_declared(
            self.subscribers,
            self.max,
            registration.entry(),
            declared,
        ).1 {
            Err(failure) => Err(failure),
            Ok(_) => Ok(after_subscribed(self.queryables, registration)),
        }
    }

    /// The state after a queryable was declared for a listener, or failed to be.
    ///
    /// The failure takes the subscriber of the listener with it.
    pub open spec fn with_queryable(
        self,
        registration: RegistrationView,
        declared: Result<K, String>,
    ) -> TransportView<S, K, Q> {
        match declared {
            Ok(queryable) => TransportView {
                queryables: self.queryables.insert(registration.entry(), queryable),
                ..self
            },
            Err(_) => TransportView {
                subscribers: self.subscribers.remove(registration.entry()),
                ..self
            },
        }
    }

    /// The state after a listener was taken out, as far as it was registered.
    pub open spec fn without_listener(self, registration: RegistrationView) -> TransportView<
        S,
        K,
        Q,
    > {
        let entry = registration.entry();
        if !self.subscribers.contains_key(entry) {
            self
        } else if registration.rpc {
            TransportView {
                subscribers: self.subscribers.remove(entry),
                queryables: self.queryables.remove(entry),
                ..self
            }
        } else {
            TransportView { subscribers: self.subscribers.remove(entry), ..self }
        }
    }

    /// The outcome of taking out a listener.
    pub open spec fn removal_outcome(self, registration: RegistrationView) -> Result<
        (),
        StatusView,
    > {
        let entry = registration.entry();
        if !self.subscribers.contains_key(entry) {
            Err(listener_registry::no_such_listener(registration.key))
        } else if registration.rpc && !self.queryables.contains_key(entry) {
            Err(
                status::failure(
                    UCode::NotFound,
                    "No RPC listener registered for key expression: "@ + registration.key,
                ),
            )
        } else {
            Ok(())
        }
    }
}

/// The status of a queryable that failed to be declared.
pub open spec fn queryable_failure(error: Seq<char>) -> StatusView {
    status::failure(UCode::Internal, "Unable to register Zenoh queryable: "@ + error)
}

impl<Z, S, K, Q> UPTransportZenoh<Z, S, K, Q> {
    fn registration(&self, source_filter: &UUri, sink_filter: Option<&UUri>, listener: u64) -> (r:
        Registration)
        ensures
            r@ == registration_for(
                self@.uri.authority_name,
                source_filter@,
                uri::opt_uri(sink_filter),
                listener,
            ),
    {
        Registration {
            zenoh_key: self.to_zenoh_key_string(source_filter, sink_filter),
            listener,
            rpc: is_rpc_request_filter(source_filter, sink_filter),
        }
    }

    /// Begins to register a listener, given the verdict on its filters.
    pub fn register_checked_listener(
        &self,
        verdict: Result<(), UStatus>,
        source_filter: &UUri,
        sink_filter: Option<&UUri>,
        listener: u64,
    ) -> (r: Result<RegistrationStep, UStatus>)
        ensures
            outcome_is(
                r,
                match verdict {
                    Err(status) => Err(status@),
                    Ok(_) => self@.first_step(
                        registration_for(
                            self@.uri.authority_name,
                            source_filter@,
                            uri::opt_uri(sink_filter),
                            listener,
                        ),
                    ),
                },
            ),
    {
        if let Err(status) = verdict {
            return Err(status);
        }
        let registration = self.registration(source_filter, sink_filter, listener);
        match self.subscribers.register_owned_subscriber(
            registration.zenoh_key.as_str(),
            listener,
        ) {
            Ok(SubscriberStep::Registered) => Ok(self.register_request_queryable(registration)),
            Ok(SubscriberStep::Declare) => Ok(RegistrationStep::DeclareSubscriber(registration)),
            Err(status) => Err(status),
        }
    }

    /// Begins to register a listener for the messages that match a pair of filters.
    ///
    /// Filters that match no valid message are refused.
    pub fn register_listener(
        &self,
        source_filter: &UUri,
        sink_filter: Option<&UUri>,
        listener: u64,
    ) -> (r: Result<RegistrationStep, UStatus>)
        ensures
            outcome_is(
                r,
                if uri::filters_acceptable(source_filter@, uri::opt_uri(sink_filter)) {
                    self@.first_step(
                        registration_for(
                            self@.uri.authority_name,
                            source_filter@,
                            uri::opt_uri(sink_filter),
                            listener,
                        ),
                    )
                } else {
                    Err(
                        status::failure(
                            UCode::InvalidArgument,
                            uri::filter_refusal(source_filter@, uri::opt_uri(sink_filter)),
                        ),
                    )
                },
            ),
    {
        let verdict = uri::verify_filter_criteria(source_filter, sink_filter);
        self.register_checked_listener(verdict, source_filter, sink_filter, listener)
    }

    /// Decides whether a listener that has its subscriber needs a queryable, too.
    fn register_request_queryable(&self, registration: Registration) -> (step: RegistrationStep)
        ensures
            step@ == after_subscribed(self@.queryables, registration@),
    {
        if registration.rpc && !self.queryable_map.contains_key(
            &ListenerKey::new(registration.zenoh_key.as_str(), registration.listener),
        ) {
            RegistrationStep::DeclareQueryable(registration)
        } else {
            RegistrationStep::Done
        }
    }

    /// Goes on to register a listener with what came of the declaration of its subscriber.
    pub fn subscriber_declared(
        &mut self,
        registration: Registration,
        declared: Result<S, String>,
    ) -> (r: Result<RegistrationStep, UStatus>)
        ensures
            final(self)@ == old(self)@.with_subscriber(registration@, declared),
            final(self).spec_session() == old(self).spec_session(),
            outcome_is(r, old(self)@.second_step(registration@, declared)),
    {
        match self.subscribers.owned_subscriber_declared(
            registration.zenoh_key.as_str(),
            registration.listener,
            declared,
        ) {
            Ok(_) => Ok(self.register_request_queryable(registration)),
            Err(status) => Err(status),
        }
    }

    /// Ends the registration of a listener with what came of the declaration of its
    /// queryable.
    pub fn queryable_declared(&mut self, registration: Registration, declared: Result<K, String>) -> (r:
        Result<(), UStatus>)
        ensures
            final(self)@ == old(self)@.with_queryable(registration@, declared),
            final(self).spec_session() == old(self).spec_session(),
            match declared {
                Ok(_) => r is Ok,
                Err(error) => r matches Err(e) && e@ == queryable_failure(error@),
            },
    {
        match declared {
            Ok(queryable) => {
                self.queryable_map.insert(
                    ListenerKey::new(registration.zenoh_key.as_str(), registration.listener),
                    queryable,
                );
                Ok(())
            },
            Err(error) => {
                let _removed = self.subscribers.unregister_owned(
                    registration.zenoh_key.as_str(),
                    registration.listener,
                );
                Err(
                    UStatus::internal("Unable to register Zenoh queryable: ", error.as_str()),
                )
            },
        }
    }

    /// Takes out a listener, given the verdict on its filters.
    pub fn unregister_checked_listener(
        &mut self,
        verdict: Result<(), UStatus>,
        source_filter: &UUri,
        sink_filter: Option<&UUri>,
        listener: u64,
    ) -> (r: Unregistered<S, K>)
        ensures
            final(self).spec_session() == old(self).spec_session(),
            verdict matches Err(status) ==> final(self)@ == old(self)@ && r.subscriber is None
                && r.queryable is None && (r.outcome matches Err(e) && e@ == status@),
            verdict is Ok ==> {
                let registration = registration_for(
                    old(self)@.uri.authority_name,
                    source_filter@,
                    uri::opt_uri(sink_filter),
                    listener,
                );
                &&& final(self)@ == old(self)@.without_listener(registration)
                &&& handles_removed(old(self)@, registration, r)
                &&& match old(self)@.removal_outcome(registration) {
                    Ok(_) => r.outcome is Ok,
                    Err(failure) => r.outcome matches Err(e) && e@ == failure,
                }
            },
    {
        if let Err(status) = verdict {
            return Unregistered { subscriber: None, queryable: None, outcome: Err(status) };
        }
        let registration = self.registration(source_filter, sink_filter, listener);
        let subscriber = match self.subscribers.unregister_owned(
            registration.zenoh_key.as_str(),
            listener,
        ) {
            Ok(subscriber) => subscriber,
            Err(status) => {
                proof {
                    assert(self@.subscribers =~= old(self)@.subscribers);
                }
                return Unregistered { subscriber: None, queryable: None, outcome: Err(status) };
            },
        };
        if !registration.rpc {
            return Unregistered { subscriber: Some(subscriber), queryable: None, outcome: Ok(()) };
        }
        match self.unregister_request_queryable(registration.zenoh_key.as_str(), listener) {
            Ok(queryable) => Unregistered {
                subscriber: Some(subscriber),
                queryable: Some(queryable),
                outcome: Ok(()),
            },
            Err(status) => Unregistered {
                subscriber: Some(subscriber),
                queryable: None,
                outcome: Err(status),
            },
        }
    }

    /// Takes the queryable of a listener out.
    fn unregister_request_queryable(&mut self, zenoh_key: &str, listener: u64) -> (r: Result<
        K,
        UStatus,
    >)
        ensures
            final(self).spec_session() == old(self).spec_session(),
            final(self)@ == (TransportView {
                queryables: old(self)@.queryables.remove((zenoh_key@, listener)),
                ..old(self)@
            }),
            match r {
                Ok(queryable) => old(self)@.queryables.contains_key((zenoh_key@, listener))
                    && queryable == old(self)@.queryables[(zenoh_key@, listener)],
                Err(e) => !old(self)@.queryables.contains_key((zenoh_key@, listener)) && e@
                    == status::failure(
                    UCode::NotFound,
                    "No RPC listener registered for key expression: "@ + zenoh_key@,
                ),
            },
    {
        match self.queryable_map.remove(&ListenerKey::new(zenoh_key, listener)) {
            Some(queryable) => Ok(queryable),
            None => Err(
                UStatus::fail_with_code(
                    UCode::NotFound,
                    text::join("No RPC listener registered for key expression: ", zenoh_key),
                ),
            ),
        }
    }

    /// Takes out a listener for the messages that match a pair of filters.
    pub fn unregister_listener(
        &mut self,
        source_filter: &UUri,
        sink_filter: Option<&UUri>,
        listener: u64,
    ) -> (r: Unregistered<S, K>)
        ensures
            final(self).spec_session() == old(self).spec_session(),
            !uri::filters_acceptable(source_filter@, uri::opt_uri(sink_filter)) ==> final(self)@
                == old(self)@ && r.subscriber is None && r.queryable is None && (r.outcome matches Err(
                e,
            ) && e@ == status::failure(
                UCode::InvalidArgument,
                uri::filter_refusal(source_filter@, uri::opt_uri(sink_filter)),
            )),
            uri::filters_acceptable(source_filter@, uri::opt_uri(sink_filter)) ==> {
                let registration = registration_for(
                    old(self)@.uri.authority_name,
                    source_filter@,
                    uri::opt_uri(sink_filter),
                    listener,
                );
                &&& final(self)@ == old(self)@.without_listener(registration)
                &&& handles_removed(old(self)@, registration, r)
                &&& match old(self)@.removal_outcome(registration) {
                    Ok(_) => r.outcome is Ok,
                    Err(failure) => r.outcome matches Err(e) && e@ == failure,
                }
            },
    {
        let verdict = uri::verify_filter_criteria(source_filter, sink_filter);
        self.unregister_checked_listener(verdict, source_filter, sink_filter, listener)
    }

    /// Decides on a query, given what its attachment was found to hold, and keeps it for
    /// the reply if its request is delivered.
    pub fn decoded_query_received(
        &mut self,
        query: Q,
        decoded: Result<UAttributes, AttachmentError>,
        payload: Option<Vec<u8>>,
        now: Option<u128>,
    ) -> (r: Result<UMessage, Dropped>)
        ensures
            final(self).spec_session() == old(self).spec_session(),
            match message::decoded_query_verdict(message::decoded_view(decoded), now) {
                Ok(attributes) => final(self)@ == old(self)@.with_query(attributes, query) && (
                r matches Ok(m) && m@ == (MessageView {
                    attributes,
                    payload: message::delivered_payload(attributes, message::owned_bytes(payload)),
                })),
                Err(reason) => final(self)@ == old(self)@ && (r matches Err(dropped) && dropped@
                    == reason),
            },
            r matches Ok(m) ==> m@.payload == (if m@.attributes.payload_format == 0 {
                None::<Seq<u8>>
            } else {
                message::owned_bytes(payload)
            }),
            r matches Ok(m) ==> (m@.attributes.id matches Some(id)
                && final(self)@.queries.contains_key(id) && final(self)@.queries[id] == query),
    {
        match message::admit_decoded_query(decoded, payload, now) {
            Ok(message) => {
                if let Some(id) = message.attributes.id {
                    self.query_map.insert(id, query);
                }
                Ok(message)
            },
            Err(dropped) => Err(dropped),
        }
    }

    /// Decides on a query that arrives for a listener for requests, and keeps it for the
    /// reply if its request is delivered.
    pub fn query_received(
        &mut self,
        query: Q,
        attachment: Option<&[u8]>,
        payload: Option<Vec<u8>>,
        now: Option<u128>,
    ) -> (r: Result<UMessage, Dropped>)
        ensures
            final(self).spec_session() == old(self).spec_session(),
            match message::query_verdict(message::opt_bytes(attachment), now) {
                Ok(attributes) => final(self)@ == old(self)@.with_query(attributes, query) && (
                r matches Ok(m) && m@ == (MessageView {
                    attributes,
                    payload: message::delivered_payload(attributes, message::owned_bytes(payload)),
                })),
                Err(reason) => final(self)@ == old(self)@ && (r matches Err(dropped) && dropped@
                    == reason),
            },
            r matches Ok(m) ==> m@.payload == (if m@.attributes.payload_format == 0 {
                None::<Seq<u8>>
            } else {
                message::owned_bytes(payload)
            }),
            r matches Ok(m) ==> (m@.attributes.id matches Some(id)
                && final(self)@.queries.contains_key(id) && final(self)@.queries[id] == query),
    {
        match attachment {
            None => Err(Dropped::MissingAttachment),
            Some(bytes) => self.decoded_query_received(
                query,
                attachment::attachment_to_uattributes(bytes),
                payload,
                now,
            ),
        }
    }
}

impl<S, K, Q> TransportView<S, K, Q> {
    /// The state after the request of a query was delivered.
    pub open spec fn with_query(self, attributes: AttributesView, query: Q) -> TransportView<
        S,
        K,
        Q,
    > {
        TransportView { queries: self.queries.insert(attributes.id->0, query), ..self }
    }
}

/// Whether a removal hands out exactly the handles that the listener had.
pub open spec fn handles_removed<S, K, Q>(
    before: TransportView<S, K, Q>,
    registration: RegistrationView,
    removed: Unregistered<S, K>,
) -> bool {
    let entry = registration.entry();
    let found = before.subscribers.contains_key(entry);
    &&& match removed.subscriber {
        Some(subscriber) => found && subscriber == before.subscribers[entry],
        None => !found,
    }
    &&& match removed.queryable {
        Some(queryable) => found && registration.rpc && before.queryables.contains_key(entry)
            && queryable == before.queryables[entry],
        None => !(found && registration.rpc && before.queryables.contains_key(entry)),
    }
}

/// To take out a listener that was just registered restores the state from before.
pub proof fn law_unregister_undoes_register<S, K, Q>(
    before: TransportView<S, K, Q>,
    registration: RegistrationView,
    subscriber: S,
    queryable: K,
)
    requires
        !before.subscribers.contains_key(registration.entry()),
        !before.queryables.contains_key(registration.entry()),
        before.subscribers.len() < before.max,
    ensures
        before.first_step(registration) == Ok::<StepView, StatusView>(
            StepView::DeclareSubscriber(registration),
        ),
        ({
            let subscribed = before.with_subscriber(registration, Ok(subscriber));
            let registered = if registration.rpc {
                subscribed.with_queryable(registration, Ok(queryable))
            } else {
                subscribed
            };
            &&& before.second_step(registration, Ok(subscriber)) == Ok::<StepView, StatusView>(
                if registration.rpc {
                    StepView::DeclareQueryable(registration)
                } else {
                    StepView::Done
                },
            )
            &&& registered.removal_outcome(registration) is Ok
            &&& registered.without_listener(registration) == before
        }),
{
    let entry = registration.entry();
    assert(before.subscribers.insert(entry, subscriber).remove(entry) =~= before.subscribers);
    assert(before.queryables.insert(entry, queryable).remove(entry) =~= before.queryables);
}

/// A registration that runs to its end leaves the listener registered, with a queryable if
/// it asks for requests.
pub proof fn law_completed_registration_is_registered<S, K, Q>(
    before: TransportView<S, K, Q>,
    registration: RegistrationView,
    subscriber: S,
    queryable: K,
)
    ensures
        before.first_step(registration) == Ok::<StepView, StatusView>(StepView::Done)
            ==> before.removal_outcome(registration) is Ok,
        before.second_step(registration, Ok(subscriber)) matches Ok(step) ==> {
            let subscribed = before.with_subscriber(registration, Ok(subscriber));
            if step == StepView::DeclareQueryable(registration) {
                subscribed.with_queryable(registration, Ok(queryable)).removal_outcome(
                    registration,
                ) is Ok
            } else {
                subscribed.removal_outcome(registration) is Ok
            }
        },
{
}

/// To register a listener again that is registered changes nothing and declares nothing.
pub proof fn law_registered_listener_is_done<S, K, Q>(
    state: TransportView<S, K, Q>,
    registration: RegistrationView,
)
    requires
        state.subscribers.contains_key(registration.entry()),
        registration.rpc ==> state.queryables.contains_key(registration.entry()),
    ensures
        state.first_step(registration) == Ok::<StepView, StatusView>(StepView::Done),
{
}

/// A registration whose subscriber cannot be declared changes nothing.
pub proof fn law_failed_subscriber_changes_nothing<S, K, Q>(
    before: TransportView<S, K, Q>,
    registration: RegistrationView,
    error: String,
)
    ensures
        before.with_subscriber(registration, Err(error)) == before,
        before.second_step(registration, Err(error)) is Err,
{
}

/// A new registration whose queryable cannot be declared changes nothing: the subscriber
/// that was declared for it is taken out again.
pub proof fn law_failed_queryable_is_rolled_back<S, K, Q>(
    before: TransportView<S, K, Q>,
    registration: RegistrationView,
    subscriber: S,
    error: String,
)
    requires
        !before.subscribers.contains_key(registration.entry()),
        before.subscribers.len() < before.max,
    ensures
        before.with_subscriber(registration, Ok(subscriber)).with_queryable(
            registration,
            Err(error),
        ) == before,
{
    let entry = registration.entry();
    assert(before.subscribers.insert(entry, subscriber).remove(entry) =~= before.subscribers);
}

/// No rule lets the number of listeners exceed the maximum.
pub proof fn law_listener_limit_is_kept<S, K, Q>(
    before: TransportView<S, K, Q>,
    registration: RegistrationView,
    subscriber: Result<S, String>,
    queryable: Result<K, String>,
)
    requires
        before.subscribers.dom().finite(),
        before.subscribers.len() <= before.max,
    ensures
        before.with_subscriber(registration, subscriber).subscribers.len() <= before.max,
        before.with_queryable(registration, queryable).subscribers.len() <= before.max,
        before.without_listener(registration).subscribers.len() <= before.max,
{
    listener_registry::law_listeners_within_maximum(
        before.subscribers,
        before.max,
        registration.entry(),
        subscriber,
    );
}

/// A request that was delivered is answered once: the first response to it is the reply to
/// its query, any further response is put on its key.
pub proof fn law_request_is_answered_once<S, K, Q>(
    before: TransportView<S, K, Q>,
    request: AttributesView,
    query: Q,
    response: MessageView,
    attachment: Seq<u8>,
)
    requires
        request.id is Some,
        UMessageType::of(response.attributes.type_) == Some(UMessageType::Response),
        response.attributes.reqid == request.id,
    ensures
        ({
            let waiting = before.with_query(request, query).queries;
            let answered = queries_after_send(waiting, response.attributes);
            &&& send_outcome(waiting, before.uri.authority_name, response, Ok(attachment))
                == Ok::<SendView<Q>, StatusView>(
                SendView::Reply { query, payload: sent_payload(response.payload), attachment },
            )
            &&& !answered.contains_key(request.id->0)
            &&& send_outcome(
                answered,
                before.uri.authority_name,
                response,
                Ok(attachment),
            ) matches Ok(SendView::Put(_))
        }),
{
}

/// A response takes the query of its request, and nothing else, whether or not it can be
/// sent. If there is such a query the response is the reply to it and nothing is put; if
/// there is none the response is treated as any message that is put.
pub proof fn law_response_takes_its_query<Q>(
    queries: Map<UUID, Q>,
    key: Seq<char>,
    payload: Seq<u8>,
    attributes: AttributesView,
    attachment: Result<Seq<u8>, Seq<char>>,
)
    ensures
        attributes.reqid matches Some(id) && queries.contains_key(id) ==> {
            let outcome = response_outcome(queries, key, payload, attributes, attachment);
            &&& queries_after_response(queries, attributes.reqid) == queries.remove(
                attributes.reqid->0,
            )
            &&& attachment matches Ok(bytes) ==> outcome == Ok::<SendView<Q>, StatusView>(
                SendView::Reply { query: queries[attributes.reqid->0], payload, attachment: bytes },
            )
            &&& attachment matches Err(error) ==> outcome == Err::<SendView<Q>, StatusView>(
                attachment_failure(error),
            )
        },
        !(attributes.reqid matches Some(id) && queries.contains_key(id)) ==> {
            &&& queries_after_response(queries, attributes.reqid) == queries
            &&& response_outcome(queries, key, payload, attributes, attachment) == put_action::<Q>(
                put_outcome(key, payload, attributes.priority, attachment),
            )
        },
{
}

/// A response leaves the queries of other requests alone, and no other message answers a
/// query at all.
pub proof fn law_only_the_answered_query_is_taken<Q>(
    queries: Map<UUID, Q>,
    attributes: AttributesView,
    other: UUID,
)
    requires
        attributes.reqid != Some(other) || UMessageType::of(attributes.type_) != Some(
            UMessageType::Response,
        ),
    ensures
        queries_after_send(queries, attributes).contains_key(other) == queries.contains_key(other),
        queries.contains_key(other) ==> queries_after_send(queries, attributes)[other]
            == queries[other],
{
}

/// A listener whose filters match a valid request is registered for queries, too, so that
/// the request reaches it whether it is put or comes as a query.
pub proof fn law_request_listeners_get_a_queryable(
    filter_local: Seq<char>,
    source_filter: UriView,
    sink_filter: Option<UriView>,
    local: Seq<char>,
    request: AttributesView,
)
    requires
        source_filter.in_range(),
        sink_filter matches Some(filter) ==> filter.in_range(),
        UMessageType::of(request.type_) == Some(UMessageType::Request),
        request.valid(),
        key::uri_matches(filter_local, source_filter, local, request.source->0),
        key::sink_matches(filter_local, sink_filter, local, request.sink),
    ensures
        rpc_request_filter(source_filter, sink_filter),
{
}

/// What a message says of its address is what its key says: the key of a listener matches
/// the key that a message is put on exactly if the filters of the listener match the
/// source and the sink of the message.
pub proof fn law_put_reaches_matching_listeners<Q>(
    filter_local: Seq<char>,
    source_filter: UriView,
    sink_filter: Option<UriView>,
    listener: u64,
    queries: Map<UUID, Q>,
    local: Seq<char>,
    message: MessageView,
    attachment: Seq<u8>,
)
    requires
        key::key_safe(filter_local, source_filter),
        key::sink_safe(filter_local, sink_filter),
        message.attributes.source matches Some(source) && key::key_safe(local, source),
        key::sink_safe(local, message.attributes.sink),
    ensures
        send_outcome(queries, local, message, Ok(attachment)) matches Ok(SendView::Put(put)) ==> (
        key::key_matches(
            registration_for(filter_local, source_filter, sink_filter, listener).key,
            put.key,
        ) <==> key::uri_matches(
            filter_local,
            source_filter,
            local,
            message.attributes.source->0,
        ) && key::sink_matches(filter_local, sink_filter, local, message.attributes.sink)),
{
    key::law_key_matches_filters(
        filter_local,
        source_filter,
        sink_filter,
        local,
        message.attributes.source->0,
        message.attributes.sink,
    );
}

/// A message of the classes one to seven on the wire is put with the priority that has the
/// same place among those of Zenoh, and every other message as one of the second class.
pub proof fn law_put_priority_is_the_one_of_the_class(code: i32)
    ensures
        code == 1 ==> put_priority(code) == Priority::Background,
        code == 2 ==> put_priority(code) == Priority::DataLow,
        code == 3 ==> put_priority(code) == Priority::Data,
        code == 4 ==> put_priority(code) == Priority::DataHigh,
        code == 5 ==> put_priority(code) == Priority::InteractiveLow,
        code == 6 ==> put_priority(code) == Priority::InteractiveHigh,
        code == 7 ==> put_priority(code) == Priority::RealTime,
        code < 1 || code > 7 ==> put_priority(code) == Priority::DataLow,
{
}

/// Messages of different known classes are put with different priorities, in the order of
/// the classes.
pub proof fn law_put_priority_keeps_the_order(a: i32, b: i32)
    requires
        1 <= a <= 7,
        1 <= b <= 7,
    ensures
        a < b <==> put_priority(a).rank() < put_priority(b).rank(),
        put_priority(a) == put_priority(b) ==> a == b,
{
}

/// What is put for a message has the key, the payload and the attachment that were given,
/// and the priority of the class of the message.
pub proof fn law_put_keeps_what_it_is_given(
    key: Seq<char>,
    payload: Seq<u8>,
    priority: i32,
    attachment: Seq<u8>,
)
    ensures
        put_outcome(key, payload, priority, Ok(attachment)) matches Ok(put) && {
            &&& put.key == key
            &&& put.payload == payload
            &&& put.attachment == attachment
            &&& put.priority.rank() == (if 1 <= priority <= 7 {
                priority - 1
            } else {
                1
            })
        },
{
}

/// A message is sent with the attachment for its attributes and with its payload, or with an
/// empty one where it has none. What is put is put on the key of the source and the sink of
/// the message, with the priority of its class.
pub proof fn law_message_is_sent_whole<Q>(
    queries: Map<UUID, Q>,
    local: Seq<char>,
    message: MessageView,
    source: UriView,
    attachment: Seq<u8>,
)
    requires
        message.attributes.source == Some(source),
    ensures
        match send_outcome(queries, local, message, Ok(attachment)) {
            Ok(SendView::Put(put)) => {
                &&& put.key == key::zenoh_key(local, source, message.attributes.sink)
                &&& put.attachment == attachment
                &&& message.payload matches Some(bytes) ==> put.payload == bytes
                &&& message.payload is None ==> put.payload.len() == 0
                &&& put.priority.rank() == (if 1 <= message.attributes.priority <= 7 {
                    message.attributes.priority - 1
                } else {
                    1
                })
            },
            Ok(SendView::Reply { query, payload, attachment: sent }) => {
                &&& sent == attachment
                &&& message.payload matches Some(bytes) ==> payload == bytes
                &&& message.payload is None ==> payload.len() == 0
            },
            Err(_) => false,
        },
{
}

/// A message is sent as the reply to a query exactly if it is a response and the query of
/// the request that it answers waits, and then to that query. Everything else is put.
pub proof fn law_only_a_response_is_a_reply<Q>(
    queries: Map<UUID, Q>,
    local: Seq<char>,
    message: MessageView,
    attachment: Seq<u8>,
    reqid: UUID,
)
    ensures
        message.attributes.type_ == 3 && message.attributes.reqid == Some(reqid)
            && queries.contains_key(reqid) ==> (send_outcome(
            queries,
            local,
            message,
            Ok(attachment),
        ) matches Ok(SendView::Reply { query, .. }) && query == queries[reqid]),
        message.attributes.type_ != 3 || message.attributes.reqid is None || (
        message.attributes.reqid == Some(reqid) && !queries.contains_key(reqid)) ==> (send_outcome(
            queries,
            local,
            message,
            Ok(attachment),
        ) matches Ok(SendView::Put(_))),
{
}

/// Without an attachment nothing is sent: the failure is an invalid argument and tells why.
pub proof fn law_nothing_is_sent_without_attachment<Q>(
    queries: Map<UUID, Q>,
    local: Seq<char>,
    message: MessageView,
    error: Seq<char>,
)
    ensures
        send_outcome(queries, local, message, Err(error)) matches Err(s) && s.code
            == UCode::InvalidArgument && s.message
            == "Unable to transform UAttributes to attachment: "@ + error,
{
}

/// What the receiver gets is what the sender sent: a valid message that arrives before it
/// expires is delivered with its attributes and, if these give a format, with its payload.
pub proof fn law_receiver_gets_what_was_sent<Q>(
    queries: Map<UUID, Q>,
    local: Seq<char>,
    message: MessageView,
    attachment: Seq<u8>,
    now: Option<u128>,
)
    requires
        attachment::attachment_attributes(attachment) == Ok::<
            AttributesView,
            attachment::AttachmentErrorView,
        >(message.attributes),
        message.attributes.valid(),
        !message.attributes.expired(now),
    ensures
        send_outcome(queries, local, message, Ok(attachment)) matches Ok(sent) && {
            &&& message::sample_verdict(Some(sent.attachment()), now) == Ok::<
                AttributesView,
                message::DroppedView,
            >(message.attributes)
            &&& message.attributes.payload_format != 0 && message.payload is Some
                ==> message::delivered_payload(message.attributes, Some(sent.payload()))
                == message.payload
            &&& message.attributes.payload_format == 0 ==> message::delivered_payload(
                message.attributes,
                Some(sent.payload()),
            ) is None
        },
{
}

/// What travels with a message is the payload and the attachment of what is put or replied.
pub proof fn law_what_travels<Q>(put: PutView, query: Q, payload: Seq<u8>, attachment: Seq<u8>)
    ensures
        SendView::<Q>::Put(put).payload() == put.payload,
        SendView::<Q>::Put(put).attachment() == put.attachment,
        (SendView::Reply { query, payload, attachment }).payload() == payload,
        (SendView::Reply { query, payload, attachment }).attachment() == attachment,
{
}

/// A rule gives what it should exactly if it succeeds where it should, with the value that
/// it should, and fails where it should, with the status that it should.
pub proof fn law_outcome_is_exact<T: View>(
    r: Result<T, UStatus>,
    expected: Result<T::V, StatusView>,
)
    ensures
        outcome_is(r, expected) <==> match (r, expected) {
            (Ok(given), Ok(value)) => given@ == value,
            (Err(status), Err(failure)) => status@ == failure,
            _ => false,
        },
{
}

/// The model of an attachment holds its bytes, or the error.
pub proof fn law_model_of_an_attachment(attachment: Result<Vec<u8>, String>)
    ensures
        match attachment {
            Ok(bytes) => attachment_view(attachment) == Ok::<Seq<u8>, Seq<char>>(bytes@),
            Err(error) => attachment_view(attachment) == Err::<Seq<u8>, Seq<char>>(error@),
        },
{
}

/// The models of what is put and of what is to be done hold every part of it.
pub proof fn law_actions_are_all_their_parts<Q>(
    put: PutRequest,
    query: Q,
    payload: Vec<u8>,
    attachment: Vec<u8>,
    registration: Registration,
)
    ensures
        put@.key == put.key@,
        put@.payload == put.payload@,
        put@.attachment == put.attachment@,
        put@.priority == put.priority,
        SendAction::<Q>::Put(put)@ == SendView::<Q>::Put(put@),
        (SendAction::Reply { query, payload, attachment })@ == (SendView::Reply {
            query,
            payload: payload@,
            attachment: attachment@,
        }),
        RegistrationStep::Done@ == StepView::Done,
        RegistrationStep::DeclareSubscriber(registration)@ == StepView::DeclareSubscriber(
            registration@,
        ),
        RegistrationStep::DeclareQueryable(registration)@ == StepView::DeclareQueryable(
            registration@,
        ),
{
}

/// A new transport has the address and the maximum that were given, no listeners, and no
/// queries that wait.
pub proof fn law_new_transport_is_empty<S, K, Q>(uri: UriView, max: usize)
    ensures
        ({
            let transport = fresh_transport::<S, K, Q>(uri, max);
            &&& transport.uri == uri
            &&& transport.max == max
            &&& transport.subscribers == Map::<(Seq<char>, u64), S>::empty()
            &&& transport.queryables == Map::<(Seq<char>, u64), K>::empty()
            &&& transport.queries == Map::<UUID, Q>::empty()
        }),
{
}

/// Filters ask for requests exactly if they have a sink that can be a method and a source
/// that can be an entity.
pub proof fn law_request_filters(source: UriView, sink: UriView)
    requires
        source.in_range(),
        sink.in_range(),
    ensures
        !rpc_request_filter(source, None),
        rpc_request_filter(source, Some(sink)) <==> {
            &&& source.resource_id == 0 || source.resource_id == 0xFFFF
            &&& 1 <= sink.resource_id <= 0x7FFF || sink.resource_id == 0xFFFF
        },
{
}

/// A listener is registered under the key of its filters and its own number, and for
/// requests exactly if its filters ask for them.
pub proof fn law_registration_is_for_its_filters(
    local: Seq<char>,
    source: UriView,
    sink: Option<UriView>,
    listener: u64,
)
    ensures
        ({
            let registration = registration_for(local, source, sink, listener);
            &&& registration.key == key::zenoh_key(local, source, sink)
            &&& registration.listener == listener
            &&& registration.rpc == rpc_request_filter(source, sink)
            &&& registration.entry() == (registration.key, registration.listener)
        }),
{
}

/// A registration begins with a subscriber for a new listener, goes on with a queryable for
/// one that asks for requests and has none, and is refused only where the maximum is
/// reached.
pub proof fn law_steps_of_a_registration<S, K, Q>(
    state: TransportView<S, K, Q>,
    registration: RegistrationView,
)
    ensures
        ({
            let registered = state.subscribers.contains_key(registration.entry());
            let served = state.queryables.contains_key(registration.entry());
            let step = state.first_step(registration);
            &&& !registered && state.subscribers.len() < state.max ==> step == Ok::<
                StepView,
                StatusView,
            >(StepView::DeclareSubscriber(registration))
            &&& !registered && state.subscribers.len() >= state.max ==> (step matches Err(s)
                && s.code == UCode::ResourceExhausted)
            &&& registered && registration.rpc && !served ==> step == Ok::<StepView, StatusView>(
                StepView::DeclareQueryable(registration),
            )
            &&& registered && (!registration.rpc || served) ==> step == Ok::<StepView, StatusView>(
                StepView::Done,
            )
        }),
{
}

/// What is declared for a listener is kept for it: its subscriber, unless it has one, and
/// its queryable. Nothing else of the transport changes.
pub proof fn law_declared_handles_are_kept<S, K, Q>(
    before: TransportView<S, K, Q>,
    registration: RegistrationView,
    subscriber: S,
    queryable: K,
)
    ensures
        ({
            let entry = registration.entry();
            let subscribed = before.with_subscriber(registration, Ok(subscriber));
            let served = before.with_queryable(registration, Ok(queryable));
            &&& !before.subscribers.contains_key(entry) && before.subscribers.len() < before.max
                ==> subscribed.subscribers == before.subscribers.insert(entry, subscriber)
            &&& before.subscribers.contains_key(entry) || before.subscribers.len() >= before.max
                ==> subscribed.subscribers == before.subscribers
            &&& subscribed.uri == before.uri && subscribed.max == before.max
            &&& subscribed.queryables == before.queryables && subscribed.queries == before.queries
            &&& served.queryables == before.queryables.insert(entry, queryable)
            &&& served.subscribers == before.subscribers && served.queries == before.queries
            &&& served.uri == before.uri && served.max == before.max
        }),
{
}

/// A queryable that cannot be declared is an internal failure. The subscriber of the
/// listener goes with it, and nothing else changes.
pub proof fn law_failed_queryable<S, K, Q>(
    before: TransportView<S, K, Q>,
    registration: RegistrationView,
    error: String,
)
    ensures
        queryable_failure(error@).code == UCode::Internal,
        queryable_failure(error@).message == "Unable to register Zenoh queryable: "@ + error@,
        ({
            let after = before.with_queryable(registration, Err(error));
            &&& after.subscribers == before.subscribers.remove(registration.entry())
            &&& after.queryables == before.queryables
            &&& after.queries == before.queries
            &&& after.uri == before.uri && after.max == before.max
        }),
{
}

/// To take out a listener takes out its subscriber and, if it asks for requests, its
/// queryable, and leaves every other listener, every query and the address alone. A listener
/// that is not registered is not found, and nothing changes.
pub proof fn law_unregister_takes_out_one_listener<S, K, Q>(
    before: TransportView<S, K, Q>,
    registration: RegistrationView,
    other: (Seq<char>, u64),
)
    ensures
        ({
            let entry = registration.entry();
            let found = before.subscribers.contains_key(entry);
            let after = before.without_listener(registration);
            &&& !after.subscribers.contains_key(entry)
            &&& found && registration.rpc ==> !after.queryables.contains_key(entry)
            &&& !found || !registration.rpc ==> after.queryables == before.queryables
            &&& other != entry ==> after.subscribers.contains_key(other)
                == before.subscribers.contains_key(other)
            &&& other != entry ==> after.queryables.contains_key(other)
                == before.queryables.contains_key(other)
            &&& other != entry && before.subscribers.contains_key(other)
                ==> after.subscribers[other] == before.subscribers[other]
            &&& other != entry && before.queryables.contains_key(other) ==> after.queryables[other]
                == before.queryables[other]
            &&& after.queries == before.queries && after.uri == before.uri && after.max
                == before.max
            &&& !found ==> after == before
        }),
{
}

/// The removal of a listener succeeds exactly if it was registered, with a queryable where
/// it asks for requests. What is missing is not found.
pub proof fn law_removal_succeeds_for_registered_listeners<S, K, Q>(
    before: TransportView<S, K, Q>,
    registration: RegistrationView,
)
    ensures
        ({
            let found = before.subscribers.contains_key(registration.entry());
            let served = before.queryables.contains_key(registration.entry());
            let outcome = before.removal_outcome(registration);
            &&& outcome is Ok <==> found && (registration.rpc ==> served)
            &&& !found ==> (outcome matches Err(s) && s.code == UCode::NotFound && s.message
                == "No such owned listener registered for key expression: "@ + registration.key)
            &&& found && registration.rpc && !served ==> (outcome matches Err(s) && s.code
                == UCode::NotFound && s.message
                == "No RPC listener registered for key expression: "@ + registration.key)
        }),
{
}

/// The removal of a listener hands out the subscriber that it had, and the queryable that it
/// had if it asks for requests.
pub proof fn law_removal_hands_out_what_was_kept<S, K, Q>(
    before: TransportView<S, K, Q>,
    registration: RegistrationView,
    removed: Unregistered<S, K>,
)
    requires
        handles_removed(before, registration, removed),
    ensures
        ({
            let entry = registration.entry();
            &&& before.subscribers.contains_key(entry) ==> removed.subscriber == Some(
                before.subscribers[entry],
            )
            &&& !before.subscribers.contains_key(entry) ==> removed.subscriber is None
                && removed.queryable is None
            &&& before.subscribers.contains_key(entry) && registration.rpc
                && before.queryables.contains_key(entry) ==> removed.queryable == Some(
                before.queryables[entry],
            )
            &&& !registration.rpc || !before.queryables.contains_key(entry)
                ==> removed.queryable is None
        }),
{
}

/// The query of a request that was delivered waits under the identifier of the request. The
/// queries of other requests, the listeners and the address stay as they are.
pub proof fn law_query_waits_for_its_response<S, K, Q>(
    before: TransportView<S, K, Q>,
    request: AttributesView,
    id: UUID,
    query: Q,
    other: UUID,
)
    requires
        request.id == Some(id),
    ensures
        ({
            let after = before.with_query(request, query);
            &&& after.queries.contains_key(id) && after.queries[id] == query
            &&& other != id ==> after.queries.contains_key(other) == before.queries.contains_key(
                other,
            )
            &&& other != id && before.queries.contains_key(other) ==> after.queries[other]
                == before.queries[other]
            &&& after.subscribers == before.subscribers && after.queryables == before.queryables
            &&& after.uri == before.uri && after.max == before.max
        }),
{
}

} // verus!
