//! Remote procedure calls over Zenoh queries.
use crate::attachment::{self, AttachmentError};
use crate::attributes::{self, AttributesView, UAttributes, UPayloadFormat, UUID};
use crate::key;
use crate::mechanics::UPriority;
use crate::message;
use crate::status::{self, StatusView, UCode, UStatus};
use crate::text;
use crate::transport::{self, UPTransportZenoh};
use crate::uri::{UUri, UriView};
use vstd::prelude::*;

verus! {

/// The options of a call.
#[derive(Debug)]
pub struct CallOptions {
    /// The time in milliseconds after which the call is given up.
    pub ttl: u32,
    pub message_id: Option<UUID>,
    pub token: Option<String>,
    pub priority: Option<UPriority>,
}

/// A payload with its format.
#[derive(Debug)]
pub struct UPayload {
    pub payload: Vec<u8>,
    pub payload_format: UPayloadFormat,
}

/// Why a call failed.
#[derive(Debug)]
pub enum ServiceInvocationError {
    /// The request could not be made.
    Internal(String),
    /// The request could not be sent, or there was no reply to it.
    RpcError(UStatus),
}

/// The reason as a mathematical value.
#[verifier::ext_equal]
pub enum InvocationErrorView {
    Internal(Seq<char>),
    RpcError(StatusView),
}

impl View for ServiceInvocationError {
    type V = InvocationErrorView;

    open spec fn view(&self) -> InvocationErrorView {
        match *self {
            ServiceInvocationError::Internal(text) => InvocationErrorView::Internal(text@),
            ServiceInvocationError::RpcError(status) => InvocationErrorView::RpcError(status@),
        }
    }
}

/// A query that carries a request.
#[derive(Debug)]
pub struct RequestQuery {
    pub key: String,
    pub payload: Option<Vec<u8>>,
    pub attachment: Vec<u8>,
    /// The time in milliseconds to wait for a reply.
    pub timeout: u64,
}

/// A query that carries a request, as a mathematical value.
#[verifier::ext_equal]
pub struct QueryView {
    pub key: Seq<char>,
    pub payload: Option<Seq<u8>>,
    pub attachment: Seq<u8>,
    pub timeout: u64,
}

impl View for RequestQuery {
    type V = QueryView;

    open spec fn view(&self) -> QueryView {
        QueryView {
            key: self.key@,
            payload: message::owned_bytes(self.payload),
            attachment: self.attachment@,
            timeout: self.timeout,
        }
    }
}

/// What came of a query.
#[derive(Debug)]
pub enum QueryOutcome {
    /// The query could not be sent.
    SendFailed,
    /// No reply came in time.
    ReceiveFailed,
    /// The reply is a sample.
    Sample { attachment: Option<Vec<u8>>, payload: Vec<u8> },
    /// The reply is an error, described by a text.
    ErrorReply(String),
}

/// Calls `up_rust::UUID::build`.
///
/// The identifier depends on the time and on chance. It is always one that uProtocol uses.
/// The call panics if the clock is set to a time before the Unix epoch.
#[verifier::external_body]
fn fresh_id() -> (id: UUID)
    ensures
        id.uprotocol(),
{
    let id = up_rust::UUID::build();
    UUID { msb: id.msb, lsb: id.lsb }
}

/// The number on the wire of a priority class.
pub open spec fn priority_number(priority: UPriority) -> i32 {
    match priority {
        UPriority::CS0 => 1,
        UPriority::CS1 => 2,
        UPriority::CS2 => 3,
        UPriority::CS3 => 4,
        UPriority::CS4 => 5,
        UPriority::CS5 => 6,
        UPriority::CS6 => 7,
    }
}

fn number_of_priority(priority: UPriority) -> (n: i32)
    ensures
        n == priority_number(priority),
{
    match priority {
        UPriority::CS0 => 1,
        UPriority::CS1 => 2,
        UPriority::CS2 => 3,
        UPriority::CS3 => 4,
        UPriority::CS4 => 5,
        UPriority::CS5 => 6,
        UPriority::CS6 => 7,
    }
}

impl CallOptions {
    /// Whether a request can be made with these options: the identifier is one that
    /// uProtocol uses, and the priority is one of those for remote procedure calls.
    pub open spec fn usable(self) -> bool {
        &&& self.message_id matches Some(id) ==> id.uprotocol()
        &&& self.priority matches Some(priority) ==> priority.rank() >= UPriority::CS4.rank()
    }

    /// Whether a request can be made with these options.
    pub fn is_usable(&self) -> (b: bool)
        ensures
            b == self.usable(),
    {
        let id_usable = match &self.message_id {
            Some(id) => id.is_uprotocol_uuid(),
            None => true,
        };
        let priority_usable = match self.priority {
            Some(UPriority::CS0) | Some(UPriority::CS1) | Some(UPriority::CS2) | Some(
                UPriority::CS3,
            ) => false,
            _ => true,
        };
        id_usable && priority_usable
    }

    /// The number on the wire of the priority of the request.
    pub open spec fn priority_code(self) -> i32 {
        match self.priority {
            Some(priority) => priority_number(priority),
            None => priority_number(UPriority::CS4),
        }
    }
}

/// The attributes of a request.
pub open spec fn request_attributes(
    source: UriView,
    method: UriView,
    options: CallOptions,
    id: UUID,
    format: i32,
) -> AttributesView {
    AttributesView {
        id: Some(id),
        type_: 2,
        source: Some(source),
        sink: Some(method),
        priority: options.priority_code(),
        ttl: Some(options.ttl),
        permission_level: None,
        commstatus: None,
        reqid: None,
        token: attributes::owned_text(options.token),
        traceparent: None,
        payload_format: format,
    }
}

/// The number on the wire of the format of an optional payload.
pub open spec fn format_code(payload: Option<UPayload>) -> i32 {
    match payload {
        Some(payload) => payload.payload_format.spec_number(),
        None => 0,
    }
}

/// The bytes of an optional payload.
pub open spec fn payload_bytes(payload: Option<UPayload>) -> Option<Seq<u8>> {
    match payload {
        Some(payload) => Some(payload.payload@),
        None => None,
    }
}

/// The failure to make a request whose attributes were refused with the given text.
pub open spec fn inconsistent_request(refusal: Seq<char>) -> InvocationErrorView {
    InvocationErrorView::Internal(
        "Builder state is not consistent with message type: "@ + refusal,
    )
}

/// The query for a request, given the attachment for its attributes.
pub open spec fn query_outcome(
    local: Seq<char>,
    source: UriView,
    method: UriView,
    payload: Option<Seq<u8>>,
    ttl: u32,
    attachment: Result<Seq<u8>, Seq<char>>,
) -> Result<QueryView, InvocationErrorView> {
    match attachment {
        Err(_) => Err(
            InvocationErrorView::Internal(
                "Unable to transform UAttributes to user attachment in Zenoh"@,
            ),
        ),
        Ok(attachment) => Ok(
            QueryView {
                key: key::zenoh_key(local, source, Some(method)),
                payload,
                attachment,
                timeout: ttl as u64,
            },
        ),
    }
}

/// Whether a rule for calls gave what it should.
pub open spec fn invocation_is<T: View>(
    r: Result<T, ServiceInvocationError>,
    expected: Result<T::V, InvocationErrorView>,
) -> bool {
    match expected {
        Ok(value) => r matches Ok(v) && v@ == value,
        Err(failure) => r matches Err(e) && e@ == failure,
    }
}

/// The query for a request, given the attachment for its attributes.
pub fn encoded_request(
    source_uri: &UUri,
    method: &UUri,
    payload: Option<Vec<u8>>,
    ttl: u32,
    attachment: Result<Vec<u8>, String>,
) -> (r: Result<RequestQuery, ServiceInvocationError>)
    ensures
        invocation_is(
            r,
            query_outcome(
                source_uri.authority_name@,
                source_uri@,
                method@,
                message::owned_bytes(payload),
                ttl,
                transport::attachment_view(attachment),
            ),
        ),
{
    match attachment {
        Ok(attachment) => Ok(
            RequestQuery {
                key: key::to_zenoh_key_string(source_uri, source_uri, Some(method)),
                payload,
                attachment,
                timeout: ttl as u64,
            },
        ),
        Err(_) => Err(
            ServiceInvocationError::Internal(
                "Unable to transform UAttributes to user attachment in Zenoh".to_string(),
            ),
        ),
    }
}

/// The query for a request with the given identifier.
///
/// The request is refused exactly if its attributes are not those of one. The attachment of the
/// query gives its attributes back to whoever receives it before it expires.
pub fn request_with_id(
    source_uri: &UUri,
    method: &UUri,
    call_options: CallOptions,
    payload: Option<UPayload>,
    id: UUID,
) -> (r: Result<RequestQuery, ServiceInvocationError>)
    requires
        call_options.usable(),
        id.uprotocol(),
    ensures
        ({
            let request = request_attributes(
                source_uri@,
                method@,
                call_options,
                id,
                format_code(payload),
            );
            &&& invocation_is(
                r,
                if request.valid() {
                    query_outcome(
                        source_uri.authority_name@,
                        source_uri@,
                        method@,
                        payload_bytes(payload),
                        call_options.ttl,
                        attachment::attributes_attachment(request),
                    )
                } else {
                    Err(inconsistent_request(attributes::attributes_refusal(request.checked())))
                },
            )
            &&& request_is_received(r, request)
            &&& r is Ok <==> request.valid()
            &&& payload matches Some(p) ==> UPayloadFormat::of(request.payload_format) == Some(
                p.payload_format,
            )
            &&& payload is None ==> request.payload_format == 0
        }),
        r matches Ok(query) ==> query@.payload == payload_bytes(payload) && query.timeout
            == call_options.ttl,
{
    let ghost options = call_options;
    let ghost given = payload;
    let priority: i32 = match call_options.priority {
        Some(priority) => number_of_priority(priority),
        None => 5,
    };
    let ttl: u32 = call_options.ttl;
    let mut payload_format: i32 = 0;
    let mut payload_data: Option<Vec<u8>> = None;
    if let Some(payload) = payload {
        payload_format = payload.payload_format.number();
        payload_data = Some(payload.payload);
    }
    let request = UAttributes {
        id: Some(id),
        type_: 2,
        source: Some(source_uri.clone()),
        sink: Some(method.clone()),
        priority,
        ttl: Some(ttl),
        permission_level: None,
        commstatus: None,
        reqid: None,
        token: call_options.token,
        traceparent: None,
        payload_format,
    };
    assert(request@ == request_attributes(
        source_uri@,
        method@,
        options,
        id,
        format_code(given),
    ));
    if let Err(refusal) = request.validate() {
        return Err(
            ServiceInvocationError::Internal(
                text::join(
                    "Builder state is not consistent with message type: ",
                    refusal.as_str(),
                ),
            ),
        );
    }
    let attachment = attachment::uattributes_to_attachment(&request);
    encoded_request(source_uri, method, payload_data, ttl, attachment)
}

/// A client that invokes methods of services over a transport.
pub struct ZenohRpcClient<T> {
    transport: T,
}

impl<T> ZenohRpcClient<T> {
    /// The transport of the client.
    pub closed spec fn spec_transport(self) -> T {
        self.transport
    }

    /// Creates a client for a transport.
    #[must_use]
    pub fn new(transport: T) -> (client: Self)
        ensures
            client.spec_transport() == transport,
    {
        ZenohRpcClient { transport }
    }

    pub fn transport(&self) -> (transport: &T)
        ensures
            *transport == self.spec_transport(),
    {
        &self.transport
    }

    /// Begins to invoke a method for the local entity of a transport.
    ///
    /// The request has the identifier that the options choose, or a fresh one.
    pub fn invoke_method<Z, S, K, Q>(
        &self,
        transport: &UPTransportZenoh<Z, S, K, Q>,
        method: &UUri,
        call_options: CallOptions,
        payload: Option<UPayload>,
    ) -> (r: Result<RequestQuery, ServiceInvocationError>)
        requires
            call_options.usable(),
        ensures
            exists|id: UUID|
                {
                    &&& id.uprotocol()
                    &&& call_options.message_id matches Some(chosen) ==> id == chosen
                    &&& r is Ok <==> request_attributes(
                        transport@.uri,
                        method@,
                        call_options,
                        id,
                        format_code(payload),
                    ).valid()
                    &&& #[trigger] request_outcome_is(
                        r,
                        transport@.uri,
                        request_attributes(
                            transport@.uri,
                            method@,
                            call_options,
                            id,
                            format_code(payload),
                        ),
                        payload_bytes(payload),
                    )
                    &&& request_is_received(
                        r,
                        request_attributes(
                            transport@.uri,
                            method@,
                            call_options,
                            id,
                            format_code(payload),
                        ),
                    )
                },
    {
        let source_uri = transport.get_source_uri();
        let id = match call_options.message_id {
            Some(id) => id,
            None => fresh_id(),
        };
        let r = request_with_id(&source_uri, method, call_options, payload, id);
        proof {
            assert(request_outcome_is(
                r,
                transport@.uri,
                request_attributes(transport@.uri, method@, call_options, id, format_code(payload)),
                payload_bytes(payload),
            ));
        }
        r
    }

    /// Ends an invocation with what came of its query.
    pub fn query_answered(&self, outcome: QueryOutcome) -> (r: Result<
        Option<UPayload>,
        ServiceInvocationError,
    >)
        ensures
            match outcome {
                QueryOutcome::SendFailed => r matches Err(e) && e@ == rpc_failure(
                    "Error while sending Zenoh query"@,
                ),
                QueryOutcome::ReceiveFailed => r matches Err(e) && e@ == rpc_failure(
                    "Error while receiving Zenoh reply"@,
                ),
                QueryOutcome::ErrorReply(error) => r matches Err(e) && e@ == rpc_failure(
                    "Error while parsing Zenoh reply: "@ + error@,
                ),
                QueryOutcome::Sample { attachment, payload } => r matches Ok(Some(reply))
                    && reply.payload@ == payload@ && reply.payload_format == reply_format(
                    match attachment {
                        Some(bytes) => Some(attachment::attachment_attributes(bytes@)),
                        None => None,
                    },
                ),
            },
            match call_result(outcome) {
                Ok((bytes, format)) => r matches Ok(Some(reply)) && reply.payload@ == bytes
                    && reply.payload_format == format,
                Err(failure) => r matches Err(e) && e@ == failure,
            },
    {
        match outcome {
            QueryOutcome::SendFailed => Err(rpc_error("Error while sending Zenoh query".to_string())),
            QueryOutcome::ReceiveFailed => Err(
                rpc_error("Error while receiving Zenoh reply".to_string()),
            ),
            QueryOutcome::ErrorReply(error) => Err(
                rpc_error(text::join("Error while parsing Zenoh reply: ", error.as_str())),
            ),
            QueryOutcome::Sample { attachment, payload } => {
                let decoded = match &attachment {
                    Some(bytes) => Some(attachment::attachment_to_uattributes(bytes.as_slice())),
                    None => None,
                };
                Ok(Some(UPayload { payload, payload_format: decoded_reply_format(decoded) }))
            },
        }
    }
}

/// Whether a request with the given attributes became the query that it should, or was
/// refused as it should be.
pub open spec fn request_outcome_is(
    r: Result<RequestQuery, ServiceInvocationError>,
    source: UriView,
    request: AttributesView,
    payload: Option<Seq<u8>>,
) -> bool {
    invocation_is(
        r,
        if request.valid() {
            query_outcome(
                source.authority_name,
                source,
                request.sink->0,
                payload,
                request.ttl->0,
                attachment::attributes_attachment(request),
            )
        } else {
            Err(inconsistent_request(attributes::attributes_refusal(request.checked())))
        },
    )
}

/// Whether the attachment of a query gives the attributes of its request back to whoever
/// receives it before it expires.
pub open spec fn request_is_received(
    r: Result<RequestQuery, ServiceInvocationError>,
    request: AttributesView,
) -> bool {
    request.moderate() ==> (r matches Ok(query) ==> forall|now: Option<u128>|
        !request.expired(now) ==> #[trigger] message::query_verdict(
            Some(query.attachment@),
            now,
        ) == Ok::<AttributesView, message::DroppedView>(request))
}

/// The failure of a call that was made.
pub open spec fn rpc_failure(message: Seq<char>) -> InvocationErrorView {
    InvocationErrorView::RpcError(status::failure(UCode::Internal, message))
}

fn rpc_error(message: String) -> (e: ServiceInvocationError)
    ensures
        e@ == rpc_failure(message@),
{
    ServiceInvocationError::RpcError(UStatus::fail_with_code(UCode::Internal, message))
}

/// What a call gives its caller, given what came of its query: the payload of the reply with
/// its format, or the failure.
pub open spec fn call_result(outcome: QueryOutcome) -> Result<
    (Seq<u8>, UPayloadFormat),
    InvocationErrorView,
> {
    match outcome {
        QueryOutcome::SendFailed => Err(rpc_failure("Error while sending Zenoh query"@)),
        QueryOutcome::ReceiveFailed => Err(rpc_failure("Error while receiving Zenoh reply"@)),
        QueryOutcome::ErrorReply(error) => Err(
            rpc_failure("Error while parsing Zenoh reply: "@ + error@),
        ),
        QueryOutcome::Sample { attachment, payload } => Ok(
            (
                payload@,
                reply_format(
                    match attachment {
                        Some(bytes) => Some(attachment::attachment_attributes(bytes@)),
                        None => None,
                    },
                ),
            ),
        ),
    }
}

/// The format of the payload of a reply, given what its attachment was found to hold: the
/// one that its attributes give, if it has attributes with a known format.
pub open spec fn reply_format(
    decoded: Option<Result<AttributesView, attachment::AttachmentErrorView>>,
) -> UPayloadFormat {
    match decoded {
        Some(Ok(attributes)) => match UPayloadFormat::of(attributes.payload_format) {
            Some(format) => format,
            None => UPayloadFormat::Unspecified,
        },
        _ => UPayloadFormat::Unspecified,
    }
}

/// The format of the payload of a reply, given what its attachment was found to hold.
pub fn decoded_reply_format(decoded: Option<Result<UAttributes, AttachmentError>>) -> (format:
    UPayloadFormat)
    ensures
        format == reply_format(
            match decoded {
                Some(d) => Some(message::decoded_view(d)),
                None => None,
            },
        ),
{
    match decoded {
        Some(Ok(attributes)) => match attributes.payload_format() {
            Some(format) => format,
            None => UPayloadFormat::Unspecified,
        },
        _ => UPayloadFormat::Unspecified,
    }
}

/// A request is made exactly if its addresses name a caller and a method without wildcards
/// and its time to live is positive.
pub proof fn law_request_is_made_for_methods(
    source: UriView,
    method: UriView,
    options: CallOptions,
    id: UUID,
    format: i32,
)
    requires
        options.usable(),
        id.uprotocol(),
    ensures
        request_attributes(source, method, options, id, format).valid() <==> {
            &&& source.resource_id == 0 && source.concrete()
            &&& method.rpc_method() && method.concrete()
            &&& options.ttl > 0
        },
{
}

/// What a service sends as the reply to a query is what its caller gets: the payload of the
/// response, in the format that the response gives.
pub proof fn law_caller_gets_the_response<Q>(
    queries: Map<UUID, Q>,
    local: Seq<char>,
    response: message::MessageView,
    attachment: Seq<u8>,
)
    requires
        transport::is_response(response.attributes),
        transport::waiting_query(queries, response.attributes.reqid) is Some,
        attachment::attachment_attributes(attachment) == Ok::<
            AttributesView,
            attachment::AttachmentErrorView,
        >(response.attributes),
    ensures
        transport::send_outcome(queries, local, response, Ok(attachment)) matches Ok(sent)
            && sent.payload() == transport::sent_payload(response.payload) && sent.attachment()
            == attachment,
        reply_format(Some(attachment::attachment_attributes(attachment))) == (
        match UPayloadFormat::of(response.attributes.payload_format) {
            Some(format) => format,
            None => UPayloadFormat::Unspecified,
        }),
{
}

/// The number of a priority class on the wire is the one that is read as this class.
pub proof fn law_priority_number_reads_back(class: UPriority)
    ensures
        attributes::priority_of(priority_number(class)) == Some(class),
        priority_number(class) == class.rank() + 1,
{
}

/// Options are usable exactly if they choose no identifier that is not one of uProtocol and
/// no priority below the three highest ones.
pub proof fn law_usable_options(options: CallOptions)
    ensures
        options.usable() <==> {
            &&& options.message_id is None || (options.message_id->0).uprotocol()
            &&& options.priority != Some(UPriority::CS0)
            &&& options.priority != Some(UPriority::CS1)
            &&& options.priority != Some(UPriority::CS2)
            &&& options.priority != Some(UPriority::CS3)
        },
{
}

/// A request carries the format of the payload that it was made from, and no format if it
/// was made without a payload.
pub proof fn law_request_carries_the_payload_format(
    source: UriView,
    method: UriView,
    options: CallOptions,
    id: UUID,
    payload: Option<UPayload>,
)
    ensures
        ({
            let request = request_attributes(source, method, options, id, format_code(payload));
            &&& payload matches Some(p) ==> UPayloadFormat::of(request.payload_format) == Some(
                p.payload_format,
            )
            &&& payload is None ==> request.payload_format == 0
        }),
{
}

/// Payloads of different formats make requests of different formats.
pub proof fn law_payload_formats_are_told_apart(a: UPayload, b: UPayload)
    ensures
        format_code(Some(a)) == format_code(Some(b)) <==> a.payload_format == b.payload_format,
{
}

/// The bytes of a payload are those that were passed in.
pub proof fn law_payload_bytes_are_those_passed_in(payload: Option<UPayload>)
    ensures
        match payload {
            Some(p) => payload_bytes(payload) == Some(p.payload@),
            None => payload_bytes(payload) is None,
        },
{
}

/// A request says what it was asked to: it goes from the caller to the method, under its
/// identifier, with the lifetime, the token and the priority of the options, where the class
/// CS4 stands in for a priority that is not chosen. It says nothing else.
pub proof fn law_request_says_what_was_asked(
    source: UriView,
    method: UriView,
    options: CallOptions,
    id: UUID,
    format: i32,
)
    ensures
        ({
            let request = request_attributes(source, method, options, id, format);
            &&& request.id == Some(id)
            &&& request.type_ == 2
            &&& request.source == Some(source)
            &&& request.sink == Some(method)
            &&& request.ttl == Some(options.ttl)
            &&& request.payload_format == format
            &&& match options.token {
                Some(token) => request.token == Some(token@),
                None => request.token is None,
            }
            &&& match options.priority {
                Some(class) => attributes::priority_of(request.priority) == Some(class),
                None => attributes::priority_of(request.priority) == Some(UPriority::CS4),
            }
            &&& request.permission_level is None
            &&& request.commstatus is None
            &&& request.reqid is None
            &&& request.traceparent is None
        }),
{
}

/// The query for a request is sent on the key from the caller to the method, with the
/// payload and the attachment of the request, and waits as long as the request lives.
pub proof fn law_query_carries_the_request(
    local: Seq<char>,
    source: UriView,
    method: UriView,
    payload: Option<Seq<u8>>,
    ttl: u32,
    attachment: Seq<u8>,
    error: Seq<char>,
)
    ensures
        query_outcome(local, source, method, payload, ttl, Ok(attachment)) matches Ok(query) && {
            &&& query.key == key::zenoh_key(local, source, Some(method))
            &&& query.payload == payload
            &&& query.attachment == attachment
            &&& query.timeout == ttl
        },
        query_outcome(local, source, method, payload, ttl, Err(error)) == Err::<
            QueryView,
            InvocationErrorView,
        >(
            InvocationErrorView::Internal(
                "Unable to transform UAttributes to user attachment in Zenoh"@,
            ),
        ),
{
}

/// The query for a request is matched by the key of a service that listens for the method,
/// and only by keys whose filters match caller and method.
pub proof fn law_query_reaches_the_service(
    filter_local: Seq<char>,
    source_filter: UriView,
    sink_filter: Option<UriView>,
    listener: u64,
    source: UriView,
    method: UriView,
    payload: Option<Seq<u8>>,
    ttl: u32,
    attachment: Seq<u8>,
)
    requires
        key::key_safe(filter_local, source_filter),
        key::sink_safe(filter_local, sink_filter),
        key::key_safe(source.authority_name, source),
        key::key_safe(source.authority_name, method),
    ensures
        query_outcome(
            source.authority_name,
            source,
            method,
            payload,
            ttl,
            Ok(attachment),
        ) matches Ok(query) && (key::key_matches(
            transport::registration_for(filter_local, source_filter, sink_filter, listener).key,
            query.key,
        ) <==> key::uri_matches(filter_local, source_filter, source.authority_name, source)
            && key::sink_matches(
            filter_local,
            sink_filter,
            source.authority_name,
            Some(method),
        )),
{
    key::law_key_matches_filters(
        filter_local,
        source_filter,
        sink_filter,
        source.authority_name,
        source,
        Some(method),
    );
}

/// What a service gets is what its caller sent: a request that arrives before it expires is
/// delivered with its attributes, and with the payload that it was made from if that has a
/// format.
pub proof fn law_service_gets_the_request(
    source: UriView,
    method: UriView,
    options: CallOptions,
    id: UUID,
    payload: Option<UPayload>,
    attachment: Seq<u8>,
    now: Option<u128>,
)
    requires
        ({
            let request = request_attributes(source, method, options, id, format_code(payload));
            &&& request.valid()
            &&& !request.expired(now)
            &&& attachment::attachment_attributes(attachment) == Ok::<
                AttributesView,
                attachment::AttachmentErrorView,
            >(request)
        }),
    ensures
        ({
            let request = request_attributes(source, method, options, id, format_code(payload));
            query_outcome(
                source.authority_name,
                source,
                method,
                payload_bytes(payload),
                options.ttl,
                Ok(attachment),
            ) matches Ok(query) && {
                &&& message::query_verdict(Some(query.attachment), now) == Ok::<
                    AttributesView,
                    message::DroppedView,
                >(request)
                &&& payload matches Some(p) ==> (p.payload_format != UPayloadFormat::Unspecified
                    ==> message::delivered_payload(request, query.payload) == Some(p.payload@))
                &&& payload is None ==> message::delivered_payload(request, query.payload) is None
            }
        }),
{
}

/// A request became what it should exactly if it is a query with everything that the request
/// says, or was refused with the reason for which its attributes are not valid.
pub proof fn law_request_outcome_is_exact(
    r: Result<RequestQuery, ServiceInvocationError>,
    source: UriView,
    method: UriView,
    ttl: u32,
    request: AttributesView,
    payload: Option<Seq<u8>>,
    attachment: Seq<u8>,
)
    requires
        request.sink == Some(method),
        request.ttl == Some(ttl),
        attachment::attributes_attachment(request) == Ok::<Seq<u8>, Seq<char>>(attachment),
    ensures
        request_outcome_is(r, source, request, payload) <==> match r {
            Ok(query) => {
                &&& request.valid()
                &&& query.key@ == key::zenoh_key(source.authority_name, source, Some(method))
                &&& match query.payload {
                    Some(bytes) => payload == Some(bytes@),
                    None => payload is None,
                }
                &&& query.attachment@ == attachment
                &&& query.timeout == ttl
            },
            Err(ServiceInvocationError::Internal(text)) => !request.valid() && text@
                == "Builder state is not consistent with message type: "@
                + attributes::attributes_refusal(request.checked()),
            Err(ServiceInvocationError::RpcError(_)) => false,
        },
{
}

/// A query whose request is received is delivered with the attributes of the request at
/// every time at which it is not expired.
pub proof fn law_received_request_is_the_request(
    query: RequestQuery,
    request: AttributesView,
    now: Option<u128>,
)
    requires
        request_is_received(Ok(query), request),
        request.moderate(),
        !request.expired(now),
    ensures
        message::query_verdict(Some(query.attachment@), now) == Ok::<
            AttributesView,
            message::DroppedView,
        >(request),
{
}

/// A rule for calls gives what it should exactly if it succeeds where it should, with the
/// value that it should, and fails where it should, for the reason that it should.
pub proof fn law_invocation_is_exact<T: View>(
    r: Result<T, ServiceInvocationError>,
    expected: Result<T::V, InvocationErrorView>,
)
    ensures
        invocation_is(r, expected) <==> match (r, expected) {
            (Ok(given), Ok(value)) => given@ == value,
            (Err(error), Err(failure)) => error@ == failure,
            _ => false,
        },
{
}

/// The failure of a call that was made is an internal one and tells what failed. The models
/// of failures tell the two kinds apart.
pub proof fn law_failures_of_calls(message: Seq<char>, text: String, status: UStatus)
    ensures
        rpc_failure(message) matches InvocationErrorView::RpcError(s) && s.code == UCode::Internal
            && s.message == message,
        ServiceInvocationError::Internal(text)@ == InvocationErrorView::Internal(text@),
        ServiceInvocationError::RpcError(status)@ == InvocationErrorView::RpcError(status@),
{
}

/// The format of the payload of a reply is the one that the service gave in its attributes.
/// A reply without attributes that can be read, or with a format that is not known, has no
/// particular format.
pub proof fn law_reply_has_the_format_of_the_response(
    attributes: AttributesView,
    format: UPayloadFormat,
    error: attachment::AttachmentErrorView,
)
    ensures
        attributes.payload_format == format.spec_number() ==> reply_format(Some(Ok(attributes)))
            == format,
        attributes.payload_format < 0 || attributes.payload_format > 8 ==> reply_format(
            Some(Ok(attributes)),
        ) == UPayloadFormat::Unspecified,
        reply_format(Some(Err(error))) == UPayloadFormat::Unspecified,
        reply_format(None) == UPayloadFormat::Unspecified,
{
}

/// The model of a query holds every part of it.
pub proof fn law_query_is_all_its_parts(query: RequestQuery)
    ensures
        query@.key == query.key@,
        match query.payload {
            Some(bytes) => query@.payload == Some(bytes@),
            None => query@.payload is None,
        },
        query@.attachment == query.attachment@,
        query@.timeout == query.timeout,
{
}

/// A call ends with what the service sent: where the reply is the response of the service,
/// the caller gets the payload of that response, in the format that the response gives.
pub proof fn law_call_returns_what_the_service_sent<Q>(
    queries: Map<UUID, Q>,
    local: Seq<char>,
    response: message::MessageView,
    reqid: UUID,
    format: UPayloadFormat,
    attachment: Vec<u8>,
    payload: Vec<u8>,
)
    requires
        response.attributes.type_ == 3,
        response.attributes.reqid == Some(reqid),
        queries.contains_key(reqid),
        response.attributes.payload_format == format.spec_number(),
        attachment::attachment_attributes(attachment@) == Ok::<
            AttributesView,
            attachment::AttachmentErrorView,
        >(response.attributes),
        transport::send_outcome(queries, local, response, Ok(attachment@)) matches Ok(
            transport::SendView::Reply { payload: sent, .. },
        ) && sent == payload@,
    ensures
        call_result(QueryOutcome::Sample { attachment: Some(attachment), payload }) matches Ok(
            (bytes, given),
        ) && {
            &&& response.payload matches Some(answer) ==> bytes == answer
            &&& response.payload is None ==> bytes.len() == 0
            &&& given == format
        },
{
}

/// A call fails exactly if its query could not be sent, was not answered, or was answered
/// with an error. Each of these is an internal failure that says which it is.
pub proof fn law_call_fails_without_a_reply(outcome: QueryOutcome)
    ensures
        call_result(outcome) is Ok <==> outcome is Sample,
        outcome matches QueryOutcome::Sample { payload, .. } ==> (call_result(outcome) matches Ok(
            (bytes, _),
        ) && bytes == payload@),
        outcome is SendFailed ==> (call_result(outcome) matches Err(
            InvocationErrorView::RpcError(s),
        ) && s.code == UCode::Internal && s.message == "Error while sending Zenoh query"@),
        outcome is ReceiveFailed ==> (call_result(outcome) matches Err(
            InvocationErrorView::RpcError(s),
        ) && s.code == UCode::Internal && s.message == "Error while receiving Zenoh reply"@),
        outcome matches QueryOutcome::ErrorReply(error) ==> (call_result(outcome) matches Err(
            InvocationErrorView::RpcError(s),
        ) && s.code == UCode::Internal && s.message == "Error while parsing Zenoh reply: "@
            + error@),
{
}

} // verus!
