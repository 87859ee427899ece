use up_transport_zenoh::attachment::{
    attachment_to_uattributes, frame_attributes, uattributes_to_attachment, unframe_attributes,
    AttachmentError,
};
use up_transport_zenoh::builder::{
    check_local_authority, EXISTING_SESSION_USAGE_MESSAGE_PREFIX,
};
use up_transport_zenoh::config::{
    parse_bool_value, read_bool_config, COMPRESSION_ENABLED_FOR_MULTICAST_MESSAGE_PREFIX,
    COMPRESSION_ENABLED_FOR_UNICAST_MESSAGE_PREFIX,
};
use up_transport_zenoh::key::{to_zenoh_key_string, uri_to_zenoh_key};
use up_transport_zenoh::message::{admit_sample, message_from_parts, Dropped};
use up_transport_zenoh::rpc::{
    CallOptions, QueryOutcome, RequestQuery, ServiceInvocationError, UPayload,
};
use up_transport_zenoh::transport::{
    is_rpc_request_filter, message_put, reply_sent, RegistrationStep, SendAction,
};
use up_transport_zenoh::{
    DispatchStep, ListenerActivity, Priority, UAttributes, UCode, UMessage, UOwnedFrame, UPTransportZenoh,
    UPayloadFormat, UPriority, UUri, ZenohRpcClient, UUID,
};
use zenoh::key_expr::KeyExpr;

/// A transport whose handles are plain values.
type Transport = UPTransportZenoh<&'static str, u32, u32, &'static str>;

const MESSAGE_DATA: &str = "Hello World!";
const PUBLISH: i32 = 1;
const REQUEST: i32 = 2;
const RESPONSE: i32 = 3;
const NOTIFICATION: i32 = 4;
const CS2: i32 = 3;
const CS5: i32 = 6;
const RAW: i32 = 6;
const TEXT: i32 = 7;

/// A UUID that was made at the given time in milliseconds.
fn id_at(millis: u64, tail: u64) -> UUID {
    UUID {
        msb: (millis << 16) | 0x7000,
        lsb: 0x8000_0000_0000_0000 | tail,
    }
}

const NOW: u64 = 1_700_000_000_000;

fn uri(text: &str) -> UUri {
    UUri::from_text(text).expect("invalid URI")
}

fn attributes(id: UUID, type_: i32, source: &str, sink: Option<&str>) -> UAttributes {
    UAttributes {
        id: Some(id),
        type_,
        source: Some(uri(source)),
        sink: sink.map(uri),
        priority: 0,
        ttl: None,
        permission_level: None,
        commstatus: None,
        reqid: None,
        token: None,
        traceparent: None,
        payload_format: 0,
    }
}

fn transport(local_uri: &str) -> Transport {
    let open = UPTransportZenoh::new(zenoh::Config::default(), local_uri).expect("local URI");
    open.pending
        .session_opened(Ok("session"))
        .expect("failed to create transport")
}

/// Registers a listener; every declaration succeeds with the given handle.
fn register(
    transport: &mut Transport,
    source: &UUri,
    sink: Option<&UUri>,
    listener: u64,
    handle: u32,
) -> String {
    let key = transport.to_zenoh_key_string(source, sink);
    let mut step = transport
        .register_listener(source, sink, listener)
        .expect("failed to register listener");
    loop {
        step = match step {
            RegistrationStep::Done => return key,
            RegistrationStep::DeclareSubscriber(registration) => {
                assert_eq!(registration.zenoh_key(), key);
                assert_eq!(registration.listener(), listener);
                transport
                    .subscriber_declared(registration, Ok(handle))
                    .expect("failed to declare subscriber")
            }
            RegistrationStep::DeclareQueryable(registration) => {
                assert_eq!(registration.zenoh_key(), key);
                transport
                    .queryable_declared(registration, Ok(handle))
                    .expect("failed to declare queryable");
                return key;
            }
        };
    }
}

/// Whether Zenoh routes what is put on a key to a subscriber of a key expression.
fn routed(key: &str, key_expr: &str) -> bool {
    let key = KeyExpr::try_from(key.to_string()).expect("invalid key");
    let key_expr = KeyExpr::try_from(key_expr.to_string()).expect("invalid key expression");
    key_expr.includes(&key)
}

fn assert_same_attributes(a: &UAttributes, b: &UAttributes) {
    assert_eq!(format!("{a:?}"), format!("{b:?}"));
}

/// Registers a listener, sends a message and gives the frame that the listener receives.
fn register_listener_and_send(
    local_uri: &str,
    message: UMessage,
    source_filter: &str,
    sink_filter: Option<&str>,
    now: u64,
) -> Result<UOwnedFrame, Dropped> {
    let mut transport = transport(local_uri);
    let source_filter = uri(source_filter);
    let sink_filter = sink_filter.map(uri);
    let key_expr = register(&mut transport, &source_filter, sink_filter.as_ref(), 7, 70);
    match transport.send(message).expect("failed to send message") {
        SendAction::Put(put) => {
            assert!(routed(&put.key, &key_expr), "{} {}", put.key, key_expr);
            admit_sample(Some(&put.attachment), put.payload, Some(u128::from(now)))
        }
        SendAction::Reply { .. } => panic!("nothing to reply to"),
    }
}

#[test]
fn test_builder_emits_warning_for_config_with_compression_enabled() {
    for (key, expected_message) in [
        (
            "/transport/unicast/compression/enabled",
            COMPRESSION_ENABLED_FOR_UNICAST_MESSAGE_PREFIX,
        ),
        (
            "/transport/multicast/compression/enabled",
            COMPRESSION_ENABLED_FOR_MULTICAST_MESSAGE_PREFIX,
        ),
    ] {
        let mut config = zenoh::Config::default();
        config
            .insert_json5(key, "true")
            .expect("Failed to set compression enabled in config");
        let open = UPTransportZenoh::builder("local_authority")
            .expect("failed to create builder")
            .with_config(config)
            .build()
            .expect("builder should succeed and emit a warning");
        assert_eq!(open.warnings.len(), 1);
        assert!(open.warnings[0].contains(expected_message));
        assert!(open.warnings[0].contains(key));
        assert!(open
            .pending
            .session_opened::<_, u32, u32, u32>(Ok("session"))
            .is_ok());
    }
}

#[test]
fn test_builder_emits_info_when_using_existing_session() {
    let result = UPTransportZenoh::builder("local_authority")
        .expect("failed to create builder")
        .with_session("session")
        .build::<u32, u32, u32>();
    let (transport, notice) = result.expect("builder should succeed and emit an info message");
    assert_eq!(*transport.session(), "session");
    assert!(notice
        .expect("no notice")
        .contains(EXISTING_SESSION_USAGE_MESSAGE_PREFIX));
}

#[test]
fn default_configuration_calls_for_no_warning() {
    let open = UPTransportZenoh::builder("vehicle1")
        .expect("failed to create builder")
        .with_config(zenoh::Config::default())
        .with_max_listeners(10)
        .build()
        .expect("failed to check configuration");
    assert!(open.warnings.is_empty());
}

#[test]
fn test_getting_a_builder() {
    for (local_authority, expected) in [
        ("vehicle1", true),
        ("This is not an authority name", false),
        ("", false),
        ("*", false),
    ] {
        let built = match UPTransportZenoh::builder(local_authority) {
            Ok(builder) => builder
                .with_config(zenoh::Config::default())
                .build()
                .is_ok_and(|open| {
                    open.pending
                        .session_opened::<_, u32, u32, u32>(Ok("session"))
                        .is_ok()
                }),
            Err(status) => {
                assert_eq!(status.code, UCode::InvalidArgument);
                false
            }
        };
        assert_eq!(built, expected, "{local_authority}");
    }
}

#[test]
fn authority_verdicts_are_reported() {
    assert!(check_local_authority("vehicle1", Ok("vehicle1".to_string())).is_ok());
    let status = check_local_authority("vehicle1", Err("bad".to_string())).unwrap_err();
    assert_eq!(status.code, UCode::InvalidArgument);
    assert_eq!(status.message, "Invalid authority name: bad");
    let status = check_local_authority("*", Ok("*".to_string())).unwrap_err();
    assert_eq!(
        status.message,
        "Authority name must be non-empty and must not be the wildcard authority name"
    );
}

#[test]
fn configuration_file_errors_are_reported() {
    let builder = UPTransportZenoh::builder("vehicle1")
        .expect("failed to create builder")
        .with_config_path("/no/such/file".to_string());
    assert_eq!(builder.config_path(), "/no/such/file");
    let Err(status) = builder.build(Err("no such file".to_string())) else {
        panic!("an unreadable file should be rejected");
    };
    assert_eq!(status.code, UCode::InvalidArgument);
    assert_eq!(status.message, "no such file");
    let builder = UPTransportZenoh::builder("vehicle1")
        .expect("failed to create builder")
        .with_config_path("/etc/zenoh.json5".to_string());
    assert!(builder.build(Ok(zenoh::Config::default())).is_ok());
}

#[test]
fn session_errors_are_reported() {
    let open = UPTransportZenoh::builder("vehicle1")
        .expect("failed to create builder")
        .with_config(zenoh::Config::default())
        .build()
        .expect("failed to check configuration");
    let Err(status) = open
        .pending
        .session_opened::<&str, u32, u32, u32>(Err("no route".to_string()))
    else {
        panic!("a failed session should be reported");
    };
    assert_eq!(status.code, UCode::Internal);
    assert_eq!(status.message, "Failed to open Zenoh session");
}

#[test]
fn boolean_settings_are_read() {
    let mut config = zenoh::Config::default();
    let key = "/transport/unicast/compression/enabled";
    assert_eq!(read_bool_config(&config, key).ok(), Some(false));
    config.insert_json5(key, "true").expect("insert");
    assert_eq!(read_bool_config(&config, key).ok(), Some(true));
    let status = read_bool_config(&config, "no/such/key").unwrap_err();
    assert_eq!(status.code, UCode::Internal);
    assert_eq!(
        status.message,
        "Failed to read Zenoh config value for no/such/key"
    );
    let status = read_bool_config(&config, "mode").unwrap_err();
    assert_eq!(status.code, UCode::Internal);
    assert_eq!(
        status.message,
        "Failed to parse Zenoh config value for mode into a boolean"
    );
    assert_eq!(
        parse_bool_value(Some("true".to_string()), "k").ok(),
        Some(true)
    );
    assert!(parse_bool_value(Some("TRUE".to_string()), "k").is_err());
}

#[test]
fn test_new_up_transport_zenoh() {
    for (uri, expected_result) in [
        ("//vehicle1/AABB/7/0", true),
        ("This is not UUri", false),
        ("/AABB/7/0", false),
        ("//vehicle1/AABB/7/1", false),
    ] {
        let result = UPTransportZenoh::new(zenoh::Config::default(), uri);
        assert_eq!(result.is_ok(), expected_result, "{uri}");
        if let Err(status) = result {
            assert_eq!(status.code, UCode::InvalidArgument);
        }
    }
}

#[test]
fn local_uri_errors_are_told_apart() {
    for (uri, message) in [
        ("This is not UUri", "Unable to transform the uri to UUri"),
        ("/AABB/7/0", "Empty authority is not allowed"),
        ("//vehicle1/AABB/7/1", "Resource ID should always be 0"),
    ] {
        let Err(status) = UPTransportZenoh::new(zenoh::Config::default(), uri) else {
            panic!("{uri} should be rejected");
        };
        assert_eq!(status.message, message);
    }
}

#[test]
fn test_to_zenoh_key_string() {
    let local_uri = uri("//192.168.1.100/10AB/3/0");
    for (src_uri, sink_uri, zenoh_key) in [
        (
            "/10AB/3/80CD",
            None,
            "up/192.168.1.100/10AB/0/3/80CD/{}/{}/{}/{}/{}",
        ),
        (
            "//192.168.1.100/10AB/3/80CD",
            None,
            "up/192.168.1.100/10AB/0/3/80CD/{}/{}/{}/{}/{}",
        ),
        (
            "//192.168.1.100/10AB/3/80CD",
            Some("//192.168.1.101/20EF/4/0"),
            "up/192.168.1.100/10AB/0/3/80CD/192.168.1.101/20EF/0/4/0",
        ),
        (
            "//*/FFFF/FF/FFFF",
            Some("//192.168.1.101/20EF/4/0"),
            "up/*/*/0/*/*/192.168.1.101/20EF/0/4/0",
        ),
        (
            "//my-host1/10AB/3/0",
            Some("//my-host2/20EF/4/B"),
            "up/my-host1/10AB/0/3/0/my-host2/20EF/0/4/B",
        ),
        (
            "//*/FFFF/FF/FFFF",
            Some("//my-host2/20EF/4/B"),
            "up/*/*/0/*/*/my-host2/20EF/0/4/B",
        ),
        (
            "//*/FFFF/FF/FFFF",
            Some("//[::1]/FFFF/FF/FFFF"),
            "up/*/*/0/*/*/[::1]/*/0/*/*",
        ),
    ] {
        let src = uri(src_uri);
        let sink = sink_uri.map(uri);
        assert_eq!(
            to_zenoh_key_string(&local_uri, &src, sink.as_ref()),
            zenoh_key.to_string()
        );
    }
}

#[test]
fn entity_instances_have_their_own_chunk() {
    let local_uri = uri("//local/1/1/0");
    assert_eq!(
        to_zenoh_key_string(&local_uri, &uri("//vehicle1/2A10B/1/CA5D"), None),
        "up/vehicle1/A10B/2/1/CA5D/{}/{}/{}/{}/{}"
    );
    assert_eq!(
        to_zenoh_key_string(&local_uri, &uri("//*/FFFF0001/1/9000"), None),
        "up/*/1/*/1/9000/{}/{}/{}/{}/{}"
    );
}

#[test]
fn keys_match_exactly_the_filters() {
    let local = uri("//vehicle1/1/1/0");
    let addresses = [
        "//vehicle1/10A10B/1/CA5D",
        "//vehicle1/55A1/2/0",
        "/D5A/3/9999",
        "//other/D5A/3/9999",
        "//vehicle1/1D5A/3/A1",
    ];
    let filters = [
        "//vehicle1/10A10B/1/CA5D",
        "//vehicle1/FFFFFFFF/FF/0",
        "//vehicle1/D5A/3/FFFF",
        "//*/FFFFFFFF/FF/FFFF",
        "//*/FFFF/FF/FFFF",
        "//*/FFFF0D5A/3/9999",
    ];
    let matches = |filter: &UUri, candidate: &UUri| {
        (filter.authority_name == "*"
            || filter.authority_name == candidate.authority_name
            || (candidate.authority_name.is_empty() && filter.authority_name == "vehicle1"))
            && (filter.has_wildcard_entity_type()
                || filter.uentity_type_id() == candidate.uentity_type_id())
            && (filter.has_wildcard_entity_instance()
                || filter.uentity_instance_id() == candidate.uentity_instance_id())
            && (filter.has_wildcard_version()
                || filter.uentity_major_version() == candidate.uentity_major_version())
            && (filter.has_wildcard_resource_id()
                || filter.resource() == candidate.resource())
    };
    for source in addresses {
        for sink in addresses {
            for source_filter in filters {
                for sink_filter in filters {
                    let (source, sink) = (uri(source), uri(sink));
                    let (source_filter, sink_filter) = (uri(source_filter), uri(sink_filter));
                    assert_eq!(
                        routed(
                            &to_zenoh_key_string(&local, &source, Some(&sink)),
                            &to_zenoh_key_string(&local, &source_filter, Some(&sink_filter)),
                        ),
                        matches(&source_filter, &source) && matches(&sink_filter, &sink)
                    );
                }
            }
        }
    }
    let any = uri("//*/FFFFFFFF/FF/FFFF");
    let published = to_zenoh_key_string(&local, &uri("//vehicle1/D5A/3/9999"), None);
    assert!(routed(&published, &to_zenoh_key_string(&local, &any, None)));
    assert!(routed(
        &published,
        &to_zenoh_key_string(&local, &any, Some(&any))
    ));
    assert!(!routed(
        &published,
        &to_zenoh_key_string(&local, &any, Some(&uri("//*/FFFFFFFF/FF/0")))
    ));
}

/// Runs a callback as a dispatch does: its first poll is made with the door held.
async fn dispatch<F: std::future::Future<Output = ()>>(
    door: &tokio::sync::Mutex<ListenerActivity>,
    callback: impl FnOnce() -> F,
) {
    let entry = door.lock().await;
    if entry.dispatch() == DispatchStep::Return {
        return;
    }
    let mut callback = Box::pin(callback());
    let pending = std::future::poll_fn(|cx| {
        std::task::Poll::Ready(callback.as_mut().poll(cx).is_pending())
    })
    .await;
    drop(entry);
    if ListenerActivity::callback_polled(pending) == DispatchStep::AwaitCallback {
        callback.await;
    }
}

fn block_on<F: std::future::Future>(future: F) -> F::Output {
    tokio::runtime::Builder::new_multi_thread()
        .enable_time()
        .build()
        .expect("runtime")
        .block_on(async {
            tokio::time::timeout(std::time::Duration::from_secs(5), future)
                .await
                .expect("must not deadlock")
        })
}

#[test]
fn queued_task_cannot_enter_after_unregister() {
    block_on(async {
        let activity = std::sync::Arc::new(tokio::sync::Mutex::new(ListenerActivity::new()));
        let ready = std::sync::Arc::new(tokio::sync::Notify::new());
        let task = tokio::spawn({
            let activity = std::sync::Arc::clone(&activity);
            let ready = std::sync::Arc::clone(&ready);
            async move {
                ready.notified().await;
                dispatch(&activity, || async {
                    panic!("queued callback entered after unregister")
                })
                .await;
            }
        });
        activity.lock().await.stop();
        ready.notify_one();
        task.await.expect("task");
    });
}

#[test]
fn callback_can_unregister_itself() {
    block_on(async {
        let activity = tokio::sync::Mutex::new(ListenerActivity::new());
        let runs = std::sync::atomic::AtomicU32::new(0);
        for _ in 0..2 {
            dispatch(&activity, || async {
                activity.lock().await.stop();
                runs.fetch_add(1, std::sync::atomic::Ordering::SeqCst);
            })
            .await;
        }
        assert_eq!(runs.load(std::sync::atomic::Ordering::SeqCst), 1);
    });
}

#[test]
fn dispatches_begin_until_the_listener_is_stopped() {
    let mut activity = ListenerActivity::new();
    assert_eq!(activity.dispatch(), DispatchStep::PollCallback);
    assert_eq!(activity.dispatch(), DispatchStep::PollCallback);
    activity.stop();
    assert_eq!(activity.dispatch(), DispatchStep::Return);
    activity.stop();
    assert_eq!(activity.dispatch(), DispatchStep::Return);
    assert_eq!(
        ListenerActivity::callback_polled(true),
        DispatchStep::AwaitCallback
    );
    assert_eq!(
        ListenerActivity::callback_polled(false),
        DispatchStep::Return
    );
}

#[test]
fn publish_frame_gets_delivered_to_listener() {
    for (ttl, topic, source_filter) in [
        (12_000, "//vehicle1/10A10B/1/CA5D", "//vehicle1/10A10B/1/CA5D"),
        (0, "/D5A/3/9999", "//vehicle1/D5A/3/FFFF"),
    ] {
        let mut attributes = attributes(id_at(NOW, 1), PUBLISH, topic, None);
        attributes.priority = CS5;
        attributes.traceparent = Some("traceparent".to_string());
        if ttl > 0 {
            attributes.ttl = Some(ttl);
        }
        attributes.payload_format = RAW;
        let message = UMessage {
            attributes: attributes.clone(),
            payload: Some(MESSAGE_DATA.as_bytes().to_vec()),
        };
        let frame =
            register_listener_and_send("//vehicle1/1/1/0", message, source_filter, None, NOW + 1)
                .expect("did not receive frame");
        assert_same_attributes(&frame.attributes, &attributes);
        assert_eq!(frame.payload, MESSAGE_DATA.as_bytes());
    }
}

#[test]
fn notification_frame_gets_delivered_to_listener() {
    let mut attributes = attributes(
        id_at(NOW, 2),
        NOTIFICATION,
        "//vehicle1/10A10B/1/CA5D",
        Some("//vehicle1/55A1/2/0"),
    );
    attributes.priority = CS2;
    attributes.traceparent = Some("traceparent".to_string());
    attributes.ttl = Some(12_000);
    attributes.payload_format = RAW;
    let message = UMessage {
        attributes: attributes.clone(),
        payload: Some(MESSAGE_DATA.as_bytes().to_vec()),
    };
    let frame = register_listener_and_send(
        "//vehicle1/1/1/0",
        message,
        "//vehicle1/10A10B/1/CA5D",
        Some("//vehicle1/FFFFFFFF/FF/0"),
        NOW + 1,
    )
    .expect("did not receive frame");
    assert_same_attributes(&frame.attributes, &attributes);
    assert_eq!(frame.payload, MESSAGE_DATA.as_bytes());
}

fn request(id: UUID) -> UAttributes {
    let mut attributes = attributes(
        id,
        REQUEST,
        "//vehicle1/10A10B/1/0",
        Some("//vehicle1/55A1/2/A1"),
    );
    attributes.ttl = Some(5_000);
    attributes.priority = CS5;
    attributes.token = Some("token".to_string());
    attributes.traceparent = Some("traceparent".to_string());
    attributes.permission_level = Some(15);
    attributes.payload_format = RAW;
    attributes
}

#[test]
fn rpc_request_frame_gets_delivered_to_listener() {
    let attributes = request(id_at(NOW, 3));
    let message = UMessage {
        attributes: attributes.clone(),
        payload: Some(MESSAGE_DATA.as_bytes().to_vec()),
    };
    let frame = register_listener_and_send(
        "//vehicle1/1/1/0",
        message,
        "//vehicle1/10A10B/1/0",
        Some("//vehicle1/55A1/2/A1"),
        NOW + 1,
    )
    .expect("did not receive frame");
    assert_same_attributes(&frame.attributes, &attributes);
    assert_eq!(frame.payload, MESSAGE_DATA.as_bytes());
}

#[test]
fn rpc_response_frame_gets_delivered_to_listener() {
    let mut attributes = attributes(
        id_at(NOW, 4),
        RESPONSE,
        "//vehicle1/55A1/2/A1",
        Some("//vehicle1/10A10B/1/0"),
    );
    attributes.reqid = Some(id_at(NOW - 10, 5));
    attributes.priority = CS5;
    attributes.traceparent = Some("traceparent".to_string());
    attributes.commstatus = Some(UCode::NotFound.number());
    attributes.payload_format = RAW;
    let message = UMessage {
        attributes: attributes.clone(),
        payload: Some(MESSAGE_DATA.as_bytes().to_vec()),
    };
    let frame = register_listener_and_send(
        "//vehicle1/1/1/0",
        message,
        "//vehicle1/55A1/2/A1",
        Some("//vehicle1/10A10B/1/0"),
        NOW + 1,
    )
    .expect("did not receive frame");
    assert_same_attributes(&frame.attributes, &attributes);
    assert_eq!(frame.attributes.commstatus, Some(5));
    assert_eq!(frame.payload, MESSAGE_DATA.as_bytes());
}

#[test]
fn expired_rpc_request_frame_is_not_delivered_to_listener() {
    let expired_uuid = UUID {
        msb: 0x018D_548E_A8E0_7000,
        lsb: 0x8000_0000_0000_0000,
    };
    assert!(expired_uuid.is_uprotocol_uuid());
    let message = UMessage {
        attributes: request(expired_uuid),
        payload: Some(MESSAGE_DATA.as_bytes().to_vec()),
    };
    let created = expired_uuid.get_time().expect("no time");
    let dropped = register_listener_and_send(
        "//vehicle1/1/1/0",
        message,
        "//vehicle1/10A10B/1/0",
        Some("//vehicle1/55A1/2/A1"),
        created + 5_000,
    );
    assert!(matches!(dropped, Err(Dropped::Expired)));
}

#[test]
fn unregister_listener_stops_processing_frames() {
    let mut transport = transport("//vehicle/1/1/0");
    let any = uri("//*/FFFFFFFF/FF/FFFF");
    let key_expr = register(&mut transport, &any, None, 1, 10);
    assert_eq!(transport.listener_count(), 1);
    let topic = attributes(id_at(NOW, 6), PUBLISH, "//vehicle/123/1/9000", None);
    let Ok(SendAction::Put(put)) = transport.send(UMessage {
        attributes: topic,
        payload: None,
    }) else {
        panic!("failed to send frame");
    };
    assert!(routed(&put.key, &key_expr));
    assert!(put.payload.is_empty());
    assert_eq!(put.priority, Priority::DataLow);

    let removed = transport.unregister_listener(&any, None, 1);
    assert!(removed.outcome.is_ok());
    assert_eq!(removed.subscriber, Some(10));
    assert_eq!(removed.queryable, None);
    assert_eq!(transport.listener_count(), 0);

    let removed = transport.unregister_listener(&any, None, 1);
    let status = removed.outcome.unwrap_err();
    assert_eq!(status.code, UCode::NotFound);
    assert_eq!(
        status.message,
        "No such owned listener registered for key expression: up/*/*/*/*/*/{}/{}/{}/{}/{}"
    );
    assert_eq!(removed.subscriber, None);
}

#[test]
fn owned_transport_preserves_native_frame_metadata() {
    let authority = "ownedmetadatatest";
    let source = UUri::try_from_parts(authority, 0x4210, 1, 0x9007).expect("source");
    let sink = UUri::try_from_parts(authority, 0x4210, 1, 0).expect("sink");
    let id = id_at(NOW, 7);
    let request_id = id_at(NOW, 8);
    let sent = UAttributes {
        id: Some(id),
        type_: NOTIFICATION,
        source: Some(source.clone()),
        sink: Some(sink.clone()),
        priority: CS5,
        ttl: Some(5_000),
        permission_level: Some(7),
        commstatus: Some(UCode::Unavailable.number()),
        reqid: Some(request_id),
        token: Some("transport-auth-token".to_string()),
        traceparent: Some("00-4bf92f3577b34da6a3ce929d0e0e4736-00f067aa0ba902b7-00".to_string()),
        payload_format: RAW,
    };
    let frame = register_listener_and_send(
        "//ownedmetadatatest/1/1/0",
        UMessage {
            attributes: sent,
            payload: Some(vec![11, 121]),
        },
        "//ownedmetadatatest/4210/1/9007",
        Some("//ownedmetadatatest/4210/1/0"),
        NOW,
    )
    .expect("receiver closed");
    let received = frame.attributes;
    assert_eq!(received.id, Some(id));
    assert!(received.source.as_ref().is_some_and(|u| u.same(&source)));
    assert!(received.sink.as_ref().is_some_and(|u| u.same(&sink)));
    assert_eq!(received.type_, NOTIFICATION);
    assert_eq!(received.priority(), Some(UPriority::CS5));
    assert_eq!(received.ttl, Some(5_000));
    assert_eq!(received.reqid, Some(request_id));
    assert_eq!(
        received.traceparent.as_deref(),
        Some("00-4bf92f3577b34da6a3ce929d0e0e4736-00f067aa0ba902b7-00")
    );
    assert_eq!(received.token.as_deref(), Some("transport-auth-token"));
    assert_eq!(received.permission_level, Some(7));
    assert_eq!(received.commstatus, Some(UCode::Unavailable.number()));
    assert_eq!(received.payload_format(), Some(UPayloadFormat::Raw));
    assert_eq!(frame.payload, vec![11, 121]);
}

fn call_options(ttl: u32) -> CallOptions {
    CallOptions {
        ttl,
        message_id: None,
        token: None,
        priority: None,
    }
}

fn text_payload(text: &str) -> UPayload {
    UPayload {
        payload: text.as_bytes().to_vec(),
        payload_format: UPayloadFormat::Text,
    }
}

/// The response of a service to a request.
fn response_to(request: &UMessage, id: UUID, data: &str) -> UMessage {
    UMessage {
        attributes: UAttributes {
            id: Some(id),
            type_: RESPONSE,
            source: request.attributes.sink.clone(),
            sink: request.attributes.source.clone(),
            priority: request.attributes.priority,
            ttl: request.attributes.ttl,
            permission_level: None,
            commstatus: None,
            reqid: request.attributes.id,
            token: None,
            traceparent: None,
            payload_format: TEXT,
        },
        payload: Some(data.as_bytes().to_vec()),
    }
}

fn made_at(query: &RequestQuery) -> u128 {
    let attributes = attachment_to_uattributes(&query.attachment).expect("attributes");
    u128::from(attributes.id.and_then(|id| id.get_time()).expect("time"))
}

#[test]
fn test_rpc_server_client() {
    for listen in ["//server/55A1/2/A1", "//server/FFFFFFFF/FF/FFFF"] {
        let client_transport = transport("//client/10AB/3/0");
        let client = ZenohRpcClient::new(());
        let mut server = transport("//server/55A1/2/0");
        let method = uri("//server/55A1/2/A1");
        let any = uri("//*/FFFFFFFF/FF/FFFF");
        let listen = uri(listen);
        let key_expr = register(&mut server, &any, Some(&listen), 1, 10);

        // send the request as a query
        let query = client
            .invoke_method(
                &client_transport,
                &method,
                call_options(1000),
                Some(text_payload("This is the request data")),
            )
            .expect("failed to make request");
        assert_eq!(query.key, "up/client/10AB/0/3/0/server/55A1/0/2/A1");
        assert_eq!(query.timeout, 1000);
        assert!(routed(&query.key, &key_expr));
        let now = made_at(&query);
        let delivered = server
            .query_received(
                "first query",
                Some(&query.attachment),
                query.payload,
                Some(now),
            )
            .expect("request was dropped");
        assert_eq!(
            delivered.payload.as_deref(),
            Some("This is the request data".as_bytes())
        );
        let response = response_to(&delivered, id_at(NOW, 20), "This is the response data");
        let Ok(SendAction::Reply {
            query: answered,
            payload,
            attachment,
        }) = server.send(response)
        else {
            panic!("the response should be the reply to the query");
        };
        assert_eq!(answered, "first query");
        let reply = client
            .query_answered(QueryOutcome::Sample {
                attachment: Some(attachment),
                payload,
            })
            .expect("Failed to get result from invoke_method.")
            .expect("no payload");
        assert_eq!(reply.payload, "This is the response data".as_bytes());
        assert_eq!(reply.payload_format, UPayloadFormat::Text);

        // the query has been answered: another response is put on its key
        let response = response_to(&delivered, id_at(NOW, 21), "This is the response data");
        let Ok(SendAction::Put(put)) = server.send(response) else {
            panic!("there is no query to reply to");
        };
        assert_eq!(put.key, "up/server/55A1/0/2/A1/client/10AB/0/3/0");

        // send the request as a message
        let mut client_transport = client_transport;
        let reply_to = client_transport.get_source_uri();
        let response_key = register(&mut client_transport, &any, Some(&reply_to), 2, 20);
        let mut attributes = attributes(
            id_at(NOW, 22),
            REQUEST,
            "//client/10AB/3/0",
            Some("//server/55A1/2/A1"),
        );
        attributes.ttl = Some(1000);
        attributes.priority = CS5;
        attributes.payload_format = TEXT;
        let request = UMessage {
            attributes,
            payload: Some("This is the request data".as_bytes().to_vec()),
        };
        let Ok(SendAction::Put(put)) = client_transport.send(request) else {
            panic!("a request is put");
        };
        assert!(routed(&put.key, &key_expr));
        let frame = admit_sample(Some(&put.attachment), put.payload, Some(u128::from(NOW)))
            .expect("request was dropped");
        let delivered = UMessage {
            attributes: frame.attributes,
            payload: Some(frame.payload),
        };
        let response = response_to(&delivered, id_at(NOW, 23), "This is the response data");
        let Ok(SendAction::Put(put)) = server.send(response) else {
            panic!("a response without query is put");
        };
        assert!(routed(&put.key, &response_key));
        assert_eq!(put.payload, "This is the response data".as_bytes());

        assert!(client_transport
            .unregister_listener(&any, Some(&reply_to), 2)
            .outcome
            .is_ok());
        let removed = server.unregister_listener(&any, Some(&listen), 1);
        assert!(removed.outcome.is_ok());
        assert_eq!(removed.subscriber, Some(10));
        assert_eq!(removed.queryable, Some(10));
    }
}

#[test]
fn test_recorder_use_case() {
    let any = uri("//*/FFFFFFFF/FF/FFFF");
    let method = uri("//server/55A1/2/A1");
    let mut client = transport("//client/10AB/3/0");
    let rpc_client = ZenohRpcClient::new(());
    let mut server = transport("//server/55A1/2/0");
    let mut recorder = transport("//recorder/99/1/0");
    let server_key = register(&mut server, &any, Some(&method), 1, 10);
    let recorder_key = register(&mut recorder, &any, Some(&any), 2, 20);
    let mut transmitted: Vec<String> = Vec::new();
    let mut recorded: Vec<String> = Vec::new();

    // send the request as a query, which goes to the server and to the recorder
    let query = rpc_client
        .invoke_method(
            &client,
            &method,
            call_options(1000),
            Some(text_payload("This is the request data")),
        )
        .expect("failed to make request");
    assert!(routed(&query.key, &server_key));
    assert!(routed(&query.key, &recorder_key));
    let now = Some(made_at(&query));
    let request = server
        .query_received("query", Some(&query.attachment), query.payload.clone(), now)
        .expect("request was dropped");
    let copy = recorder
        .query_received("copy", Some(&query.attachment), query.payload, now)
        .expect("request was dropped");
    recorded.push(format!("{copy:?}"));
    assert_eq!(
        request.payload.as_deref(),
        Some("This is the request data".as_bytes())
    );
    transmitted.push(format!("{request:?}"));
    let Ok(SendAction::Reply {
        query: answered,
        payload,
        attachment,
    }) = server.send(response_to(&request, id_at(NOW, 32), "server"))
    else {
        panic!("the response should be the reply to the query");
    };
    assert_eq!(answered, "query");
    let reply = rpc_client
        .query_answered(QueryOutcome::Sample {
            attachment: Some(attachment),
            payload,
        })
        .expect("Failed to get result from invoke_method.")
        .expect("no payload");
    assert_eq!(reply.payload, "server".as_bytes());

    // send the request as a message, which goes to the server and to the recorder
    let reply_to = client.get_source_uri();
    let response_key = register(&mut client, &any, Some(&reply_to), 3, 30);
    let mut attributes = request_from_client(id_at(NOW, 30));
    attributes.ttl = Some(2000);
    let sent = UMessage {
        attributes,
        payload: Some("This is the request data".as_bytes().to_vec()),
    };
    transmitted.push(format!("{sent:?}"));
    let Ok(SendAction::Put(put)) = client.send(sent) else {
        panic!("a request is put");
    };
    assert!(routed(&put.key, &server_key));
    assert!(routed(&put.key, &recorder_key));
    let frame = |put: &up_transport_zenoh::transport::PutRequest| {
        admit_sample(
            Some(&put.attachment),
            put.payload.clone(),
            Some(u128::from(NOW)),
        )
        .expect("message was dropped")
        .into_message()
    };
    recorded.push(format!("{:?}", frame(&put)));
    let delivered = frame(&put);
    assert_eq!(
        delivered.payload.as_deref(),
        Some("This is the request data".as_bytes())
    );
    let Ok(SendAction::Put(put)) =
        server.send(response_to(&delivered, id_at(NOW, 31), "server"))
    else {
        panic!("a response without query is put");
    };
    assert!(!routed(&put.key, &server_key));
    assert!(routed(&put.key, &response_key));
    assert!(routed(&put.key, &recorder_key));
    recorded.push(format!("{:?}", frame(&put)));
    let response = frame(&put);
    assert_eq!(response.payload.as_deref(), Some("server".as_bytes()));
    transmitted.push(format!("{response:?}"));

    assert!(client
        .unregister_listener(&any, Some(&reply_to), 3)
        .outcome
        .is_ok());
    assert!(transmitted.iter().all(|item| recorded.contains(item)));
}

/// The attributes of a request from the client to the server.
fn request_from_client(id: UUID) -> UAttributes {
    let mut attributes = request(id);
    attributes.source = Some(uri("//client/10AB/3/0"));
    attributes.sink = Some(uri("//server/55A1/2/A1"));
    attributes.payload_format = TEXT;
    attributes
}

#[test]
fn receive_is_not_implemented() {
    let transport = transport("//vehicle1/1/1/0");
    let status = transport
        .receive(&uri("//vehicle1/1/1/9000"), None)
        .unwrap_err();
    assert_eq!(status.code, UCode::Unimplemented);
    assert_eq!(status.message, "not implemented");
}

#[test]
fn invalid_messages_are_not_sent() {
    let mut transport = transport("//vehicle1/1/1/0");
    let message = UMessage {
        attributes: attributes(id_at(NOW, 40), PUBLISH, "//vehicle1/1/1/7", None),
        payload: None,
    };
    let status = transport.send(message).unwrap_err();
    assert_eq!(status.code, UCode::InvalidArgument);
    assert!(status.message.contains("Validation failure"), "{}", status.message);
}

#[test]
fn send_failures_are_reported() {
    let attributes = attributes(id_at(NOW, 41), PUBLISH, "//vehicle1/1/1/9000", None);
    let mut transport = transport("//vehicle1/1/1/0");
    let status = transport
        .put_message(
            "key".to_string(),
            vec![1],
            &attributes,
            Err("too large".to_string()),
        )
        .unwrap_err();
    assert_eq!(status.code, UCode::InvalidArgument);
    assert_eq!(
        status.message,
        "Unable to transform UAttributes to attachment: too large"
    );
    let put = transport
        .put_message("key".to_string(), vec![1], &attributes, Ok(vec![2]))
        .expect("put");
    assert_eq!(put.key, "key");
    assert_eq!((put.payload, put.attachment), (vec![1], vec![2]));
    let Ok(SendAction::Put(put)) =
        transport.send_response("key".to_string(), vec![1], &attributes, Ok(vec![2]))
    else {
        panic!("there is no query to reply to");
    };
    assert_eq!(put.key, "key");
    let status = message_put(Err("closed".to_string())).unwrap_err();
    assert_eq!(status.code, UCode::Internal);
    assert_eq!(status.message, "failed to put Zenoh message: closed");
    let status = reply_sent(Err("closed".to_string())).unwrap_err();
    assert_eq!(status.message, "Unable to reply with Zenoh: closed");
    assert!(message_put(Ok(())).is_ok());
    assert!(reply_sent(Ok(())).is_ok());
}

#[test]
fn a_response_takes_its_query_even_if_it_cannot_be_encoded() {
    let mut transport = transport("//vehicle1/55A1/2/0");
    let request = request(id_at(NOW, 42));
    let attachment = uattributes_to_attachment(&request).expect("attachment");
    let delivered = transport
        .query_received("query", Some(&attachment), None, Some(u128::from(NOW)))
        .expect("request was dropped");
    let response = response_to(&delivered, id_at(NOW, 43), "data");
    let status = transport
        .send_encoded(response, Err("too large".to_string()))
        .unwrap_err();
    assert_eq!(
        status.message,
        "Unable to transform UAttributes to attachment: too large"
    );
    let response = response_to(&delivered, id_at(NOW, 44), "data");
    assert!(matches!(transport.send(response), Ok(SendAction::Put(_))));
}

#[test]
fn queries_that_are_not_requests_are_dropped() {
    let mut transport = transport("//vehicle1/55A1/2/0");
    assert!(matches!(
        transport.query_received("query", None, None, Some(0)),
        Err(Dropped::MissingAttachment)
    ));
    assert!(matches!(
        transport.query_received("query", Some(&[2, 3]), None, Some(0)),
        Err(Dropped::Unreadable(AttachmentError::Rejected(_)))
    ));
    let request = request(id_at(NOW, 45));
    let attachment = uattributes_to_attachment(&request).expect("attachment");
    assert!(matches!(
        transport.query_received("query", Some(&attachment), None, Some(u128::from(NOW) + 5_000)),
        Err(Dropped::Expired)
    ));
    assert!(matches!(
        transport.query_received("query", Some(&attachment), None, None),
        Err(Dropped::Expired)
    ));
    let mut invalid = request.clone();
    invalid.priority = CS2;
    let attachment = uattributes_to_attachment(&invalid).expect("attachment");
    let Err(Dropped::Invalid(status)) =
        transport.query_received("query", Some(&attachment), None, Some(u128::from(NOW)))
    else {
        panic!("a request with a low priority is invalid");
    };
    assert_eq!(status.code, UCode::InvalidArgument);
    assert!(status
        .message
        .starts_with("Unable to create UFrameMetadata from Zenoh sample: "));
}

#[test]
fn payloads_without_format_are_not_delivered() {
    let mut transport = transport("//vehicle1/55A1/2/0");
    let mut request = request(id_at(NOW, 46));
    request.payload_format = 0;
    let attachment = uattributes_to_attachment(&request).expect("attachment");
    let message = transport
        .query_received(
            "query",
            Some(&attachment),
            Some(vec![1, 2, 3]),
            Some(u128::from(NOW)),
        )
        .expect("request was dropped");
    assert_eq!(message.payload, None);
}

#[test]
fn the_number_of_listeners_is_limited() {
    let open = UPTransportZenoh::builder("vehicle1")
        .expect("builder")
        .with_config(zenoh::Config::default())
        .with_max_listeners(2)
        .build()
        .expect("configuration");
    let mut transport: Transport = open.pending.session_opened(Ok("session")).expect("session");
    let topic = uri("//vehicle1/1/1/9000");
    register(&mut transport, &topic, None, 1, 10);
    register(&mut transport, &topic, None, 2, 20);
    // registering again changes nothing
    assert!(matches!(
        transport.register_listener(&topic, None, 2),
        Ok(RegistrationStep::Done)
    ));
    assert_eq!(transport.listener_count(), 2);
    let status = transport.register_listener(&topic, None, 3).unwrap_err();
    assert_eq!(status.code, UCode::ResourceExhausted);
    assert_eq!(
        status.message,
        "Maximum number of owned listeners reached: 2"
    );
    assert!(transport
        .unregister_listener(&topic, None, 1)
        .outcome
        .is_ok());
    register(&mut transport, &topic, None, 3, 30);
    assert_eq!(transport.listener_count(), 2);
}

#[test]
fn failed_declarations_leave_no_trace() {
    let mut transport = transport("//vehicle1/55A1/2/0");
    let any = uri("//*/FFFFFFFF/FF/0");
    let method = uri("//vehicle1/55A1/2/A1");
    let Ok(RegistrationStep::DeclareSubscriber(registration)) =
        transport.register_listener(&any, Some(&method), 1)
    else {
        panic!("a subscriber should be declared first");
    };
    let status = transport
        .subscriber_declared(registration, Err("refused".to_string()))
        .unwrap_err();
    assert_eq!(status.code, UCode::Internal);
    assert_eq!(status.message, "Failed to register owned listener");
    assert_eq!(transport.listener_count(), 0);

    let Ok(RegistrationStep::DeclareSubscriber(registration)) =
        transport.register_listener(&any, Some(&method), 1)
    else {
        panic!("a subscriber should be declared first");
    };
    let Ok(RegistrationStep::DeclareQueryable(registration)) =
        transport.subscriber_declared(registration, Ok(10))
    else {
        panic!("a queryable should be declared next");
    };
    assert_eq!(transport.listener_count(), 1);
    let status = transport
        .queryable_declared(registration, Err("refused".to_string()))
        .unwrap_err();
    assert_eq!(status.code, UCode::Internal);
    assert_eq!(
        status.message,
        "Unable to register Zenoh queryable: refused"
    );
    assert_eq!(transport.listener_count(), 0);
}

#[test]
fn a_listener_without_queryable_is_reported() {
    let mut transport = transport("//vehicle1/55A1/2/0");
    let any = uri("//*/FFFFFFFF/FF/0");
    let method = uri("//vehicle1/55A1/2/A1");
    let Ok(RegistrationStep::DeclareSubscriber(registration)) =
        transport.register_listener(&any, Some(&method), 1)
    else {
        panic!("a subscriber should be declared first");
    };
    assert!(matches!(
        transport.subscriber_declared(registration, Ok(10)),
        Ok(RegistrationStep::DeclareQueryable(_))
    ));
    let removed = transport.unregister_listener(&any, Some(&method), 1);
    assert_eq!(removed.subscriber, Some(10));
    assert_eq!(removed.queryable, None);
    let status = removed.outcome.unwrap_err();
    assert_eq!(status.code, UCode::NotFound);
    assert_eq!(
        status.message,
        "No RPC listener registered for key expression: up/*/*/*/*/0/vehicle1/55A1/0/2/A1"
    );
}

#[test]
fn filters_that_match_nothing_are_refused() {
    let mut transport = transport("//vehicle1/55A1/2/0");
    let method = uri("//vehicle1/55A1/2/A1");
    let status = transport.register_listener(&method, None, 1).unwrap_err();
    assert_eq!(status.code, UCode::InvalidArgument);
    assert!(status.message.contains("source filter"));
    let removed = transport.unregister_listener(&method, None, 1);
    assert_eq!(removed.outcome.unwrap_err().code, UCode::InvalidArgument);
}

#[test]
fn filters_for_requests_are_recognised() {
    let reply_to = uri("//vehicle1/1/1/0");
    let any = uri("//*/FFFFFFFF/FF/FFFF");
    let method = uri("//vehicle1/1/1/7FFF");
    let topic = uri("//vehicle1/1/1/8000");
    assert!(is_rpc_request_filter(&reply_to, Some(&method)));
    assert!(is_rpc_request_filter(&any, Some(&any)));
    assert!(!is_rpc_request_filter(&any, None));
    assert!(!is_rpc_request_filter(&topic, Some(&method)));
    assert!(!is_rpc_request_filter(&reply_to, Some(&topic)));
    assert!(!is_rpc_request_filter(&any, Some(&reply_to)));
}

#[test]
fn attachments_are_framed() {
    assert_eq!(frame_attributes(&[7, 8]), vec![1, 7, 8]);
    assert_eq!(unframe_attributes(&[1, 7, 8]).ok(), Some(&[7u8, 8][..]));
    for (attachment, message) in [
        (&[][..], "Unable to get the UAttributes version"),
        (&[2, 7][..], "UAttributes version is 2 (should be 1)"),
        (&[255][..], "UAttributes version is 255 (should be 1)"),
        (&[1][..], "Unable to get the UAttributes"),
    ] {
        let status = unframe_attributes(attachment).unwrap_err();
        assert_eq!(status.code, UCode::InvalidArgument);
        assert_eq!(status.message, message);
    }
    assert!(matches!(
        attachment_to_uattributes(&[1, 0xFF, 0xFF]),
        Err(AttachmentError::Malformed(_))
    ));
}

#[test]
fn attachments_hold_what_the_outside_format_holds() {
    let sent = request(id_at(NOW, 50));
    let attachment = uattributes_to_attachment(&sent).expect("attachment");
    assert_eq!(attachment[0], 1);
    let outside = <up_rust::UAttributes as protobuf::Message>::parse_from_bytes(&attachment[1..])
        .expect("attributes");
    assert_eq!(outside.ttl, Some(5_000));
    assert_eq!(outside.permission_level, Some(15));
    assert_eq!(outside.token.as_deref(), Some("token"));
    assert_eq!(outside.source.resource_id, 0);
    assert_eq!(outside.sink.authority_name, "vehicle1");
    assert_eq!(outside.sink.ue_id, 0x55A1);
    assert_eq!(outside.id.msb, sent.id.expect("id").msb);
    let read = attachment_to_uattributes(&attachment).expect("attributes");
    assert_same_attributes(&read, &sent);
}

#[test]
fn numbers_without_meaning_survive_the_attachment() {
    let mut sent = request(id_at(NOW, 51));
    sent.type_ = -7;
    sent.priority = i32::MIN;
    sent.payload_format = i32::MAX;
    sent.commstatus = Some(-1);
    sent.source = None;
    sent.traceparent = Some(String::new());
    let attachment = uattributes_to_attachment(&sent).expect("attachment");
    let read = attachment_to_uattributes(&attachment).expect("attributes");
    assert_same_attributes(&read, &sent);
}

#[test]
fn messages_are_made_of_valid_attributes_only() {
    let valid = request(id_at(NOW, 52));
    let message = message_from_parts(&valid, Some(vec![9])).expect("message");
    assert_same_attributes(&message.attributes, &valid);
    assert_eq!(message.payload, Some(vec![9]));
    let mut invalid = valid;
    invalid.ttl = Some(0);
    let status = message_from_parts(&invalid, None).unwrap_err();
    assert_eq!(status.code, UCode::InvalidArgument);
    assert!(status.message.contains("TTL must be a positive integer"));
}

#[test]
fn samples_that_are_no_messages_are_dropped() {
    assert!(matches!(
        admit_sample(None, vec![], Some(0)),
        Err(Dropped::MissingAttachment)
    ));
    assert!(matches!(
        admit_sample(Some(&[]), vec![], Some(0)),
        Err(Dropped::Unreadable(AttachmentError::Rejected(_)))
    ));
    let mut invalid = request(id_at(NOW, 53));
    invalid.id = Some(UUID { msb: 1, lsb: 1 });
    let attachment = uattributes_to_attachment(&invalid).expect("attachment");
    assert!(matches!(
        admit_sample(Some(&attachment), vec![], Some(0)),
        Err(Dropped::Invalid(_))
    ));
}

#[test]
fn expiry_is_decided_by_the_time_to_live() {
    let mut attributes = request(id_at(NOW, 54));
    let now = u128::from(NOW);
    assert!(!attributes.is_expired(Some(now + 4_999)));
    assert!(attributes.is_expired(Some(now + 5_000)));
    assert!(attributes.is_expired(None));
    attributes.ttl = Some(0);
    assert!(!attributes.is_expired(Some(u128::MAX)));
    assert!(!attributes.is_expired(None));
    attributes.ttl = None;
    assert!(!attributes.is_expired(Some(u128::MAX)));
    assert!(attributes.is_expired(None));
}

#[test]
fn calls_with_bad_addresses_are_refused() {
    let transport = transport("//client/10AB/3/0");
    let client = ZenohRpcClient::new(());
    let topic = uri("//server/55A1/2/9000");
    let Err(ServiceInvocationError::Internal(message)) =
        client.invoke_method(&transport, &topic, call_options(1000), None)
    else {
        panic!("a topic is no method");
    };
    assert!(message
        .starts_with("Builder state is not consistent with message type: Validation failure"));
    let method = uri("//server/55A1/2/A1");
    assert!(client
        .invoke_method(&transport, &method, call_options(0), None)
        .is_err());
}

#[test]
fn call_options_go_into_the_request() {
    let transport = transport("//client/10AB/3/0");
    let client = ZenohRpcClient::new("transport");
    assert_eq!(*client.transport(), "transport");
    let method = uri("//server/55A1/2/A1");
    let options = CallOptions {
        ttl: 250,
        message_id: Some(id_at(NOW, 60)),
        token: Some("secret".to_string()),
        priority: Some(UPriority::CS6),
    };
    assert!(options.is_usable());
    let query = client
        .invoke_method(&transport, &method, options, None)
        .expect("request");
    assert_eq!(query.timeout, 250);
    assert_eq!(query.payload, None);
    let request = attachment_to_uattributes(&query.attachment).expect("attributes");
    assert_eq!(request.id, Some(id_at(NOW, 60)));
    assert_eq!(request.type_, REQUEST);
    assert_eq!(request.token.as_deref(), Some("secret"));
    assert_eq!(request.priority(), Some(UPriority::CS6));
    assert_eq!(request.ttl, Some(250));
    let query = client
        .invoke_method(&transport, &method, call_options(1), None)
        .expect("request");
    let request = attachment_to_uattributes(&query.attachment).expect("attributes");
    assert_eq!(request.priority(), Some(UPriority::CS4));
    assert!(request.id.is_some_and(|id| id.is_uprotocol_uuid()));
    let again = client
        .invoke_method(&transport, &method, call_options(1), None)
        .expect("request");
    let other = attachment_to_uattributes(&again.attachment).expect("attributes");
    assert_ne!(request.id, other.id);
    assert!(!CallOptions {
        ttl: 1,
        message_id: None,
        token: None,
        priority: Some(UPriority::CS3),
    }
    .is_usable());
    assert!(!CallOptions {
        ttl: 1,
        message_id: Some(UUID { msb: 0, lsb: 0 }),
        token: None,
        priority: None,
    }
    .is_usable());
}

#[test]
fn failed_calls_are_reported() {
    let client = ZenohRpcClient::new(());
    for (outcome, message) in [
        (QueryOutcome::SendFailed, "Error while sending Zenoh query"),
        (
            QueryOutcome::ReceiveFailed,
            "Error while receiving Zenoh reply",
        ),
        (
            QueryOutcome::ErrorReply("late".to_string()),
            "Error while parsing Zenoh reply: late",
        ),
    ] {
        let Err(ServiceInvocationError::RpcError(status)) = client.query_answered(outcome) else {
            panic!("{message}");
        };
        assert_eq!(status.code, UCode::Internal);
        assert_eq!(status.message, message);
    }
    let reply = client
        .query_answered(QueryOutcome::Sample {
            attachment: None,
            payload: vec![1],
        })
        .expect("reply")
        .expect("payload");
    assert_eq!(reply.payload, vec![1]);
    assert_eq!(reply.payload_format, UPayloadFormat::Unspecified);
}

#[test]
fn attributes_are_valid_for_their_kind() {
    let id = id_at(NOW, 70);
    let publish = || attributes(id, PUBLISH, "//v/1/1/8000", None);
    let notification = || attributes(id, NOTIFICATION, "//v/1/1/8000", Some("//w/1/1/0"));
    let request = || {
        let mut a = attributes(id, REQUEST, "//v/1/1/0", Some("//w/1/1/7FFF"));
        a.ttl = Some(1);
        a.priority = 5;
        a
    };
    let response = || {
        let mut a = attributes(id, RESPONSE, "//w/1/1/1", Some("//v/1/1/0"));
        a.reqid = Some(id_at(NOW, 71));
        a.priority = 7;
        a.commstatus = Some(16);
        a
    };
    for valid in [publish(), notification(), request(), response()] {
        assert!(valid.validate().is_ok(), "{valid:?}");
    }
    let mut refused: Vec<UAttributes> = Vec::new();
    for make in [&publish as &dyn Fn() -> UAttributes, &notification, &request, &response] {
        let mut a = make();
        a.id = None;
        refused.push(a);
        let mut a = make();
        a.id = Some(UUID { msb: 0x6000, lsb: 0x8000_0000_0000_0000 });
        refused.push(a);
        let mut a = make();
        a.id = Some(UUID { msb: 0x7000, lsb: 0xC000_0000_0000_0000 });
        refused.push(a);
        let mut a = make();
        a.source = None;
        refused.push(a);
        for wildcard in [
            "//*/1/1/",
            "//v/FFFF/1/",
            "//v/FFFF0001/1/",
            "//v/1/FF/",
        ] {
            let mut a = make();
            let resource = a.source.as_ref().map_or(0, |u| u.resource_id);
            a.source = Some(uri(&format!("{wildcard}{resource:X}")));
            refused.push(a);
        }
        for type_ in [0, 5, -1] {
            let mut a = make();
            a.type_ = type_;
            refused.push(a);
        }
    }
    let mut with = |make: &dyn Fn() -> UAttributes, change: &dyn Fn(&mut UAttributes)| {
        let mut a = make();
        change(&mut a);
        refused.push(a);
    };
    with(&publish, &|a| a.source = Some(uri("//v/1/1/7FFF")));
    with(&publish, &|a| a.source = Some(uri("//v/1/1/FFFF")));
    with(&publish, &|a| a.sink = Some(uri("//w/1/1/0")));
    with(&notification, &|a| a.source = Some(uri("//v/1/1/0")));
    with(&notification, &|a| a.sink = Some(uri("//w/1/1/1")));
    with(&notification, &|a| a.sink = None);
    with(&request, &|a| a.source = Some(uri("//v/1/1/1")));
    with(&request, &|a| a.sink = Some(uri("//w/1/1/0")));
    with(&request, &|a| a.sink = Some(uri("//w/1/1/8000")));
    with(&request, &|a| a.sink = None);
    with(&request, &|a| a.ttl = Some(0));
    with(&request, &|a| a.ttl = None);
    with(&request, &|a| a.priority = 4);
    with(&request, &|a| a.priority = 8);
    with(&response, &|a| a.source = Some(uri("//w/1/1/8000")));
    with(&response, &|a| a.sink = Some(uri("//v/1/1/1")));
    with(&response, &|a| a.reqid = None);
    with(&response, &|a| a.reqid = Some(UUID { msb: 0, lsb: 0 }));
    with(&response, &|a| a.commstatus = Some(17));
    with(&response, &|a| a.priority = 0);
    for attributes in refused {
        assert!(attributes.validate().is_err(), "{attributes:?}");
    }
}

#[test]
fn filters_are_acceptable_if_some_message_can_match() {
    let any = "//*/FFFFFFFF/FF/FFFF";
    for (source, sink, acceptable) in [
        ("//v/1/1/8000", None, true),
        (any, None, true),
        ("//v/1/1/7FFF", None, false),
        ("//v/1/1/0", None, false),
        ("//v/1/1/0", Some("//w/1/1/0"), false),
        ("//v/1/1/0", Some("//w/1/1/1"), true),
        (any, Some("//w/1/1/1"), true),
        ("//v/1/1/8000", Some("//w/1/1/1"), false),
        ("//v/1/1/8000", Some("//w/1/1/0"), true),
        ("//v/1/1/8000", Some(any), true),
    ] {
        let transport = transport("//vehicle1/1/1/0");
        let sink = sink.map(uri);
        let result = transport.register_listener(&uri(source), sink.as_ref(), 1);
        assert_eq!(result.is_ok(), acceptable, "{source}");
    }
    let transport = transport("//vehicle1/1/1/0");
    for (authority_name, ue_version_major, resource_id) in [
        ("No Name", 1, 0x8000),
        ("v", 0x100, 0x8000),
        ("v", 1, 0x1_0000),
    ] {
        let source = UUri {
            authority_name: authority_name.to_string(),
            ue_id: 1,
            ue_version_major,
            resource_id,
        };
        let status = transport.register_listener(&source, None, 1).unwrap_err();
        assert_eq!(status.code, UCode::InvalidArgument);
        assert!(status.message.starts_with("invalid source filter URI: "));
    }
}

#[test]
fn uris_are_read_and_verified() {
    let parsed = uri("up://vehicle1/2A10B/7/CA5D");
    assert_eq!(parsed.authority_name, "vehicle1");
    assert_eq!(parsed.uentity_type_id(), 0xA10B);
    assert_eq!(parsed.uentity_instance_id(), 2);
    assert_eq!(parsed.uentity_major_version(), 7);
    assert_eq!(parsed.resource(), 0xCA5D);
    assert!(UUri::from_text("//v/1/100/0").is_none());
    assert!(UUri::from_text("//v/1/1/10000").is_none());
    assert!(UUri::from_text("//v/1/1").is_none());
    assert_eq!(UUri::verify_authority("[::1]"), Ok("[::1]".to_string()));
    assert_eq!(UUri::verify_authority("*"), Ok("*".to_string()));
    assert!(UUri::verify_authority("a/b").is_err());
    assert!(UUri::verify_authority("a{b").is_err());
    assert!(UUri::verify_authority("host:80").is_err());
    assert!(UUri::try_from_parts("Not Valid", 1, 1, 1).is_err());
    let made = UUri::try_from_parts("v", 0xFFFF_0001, 0xFF, 0xFFFF).expect("URI");
    assert!(made.has_wildcard_entity_instance() && !made.has_wildcard_entity_type());
    assert!(made.has_wildcard_version() && made.has_wildcard_resource_id());
}

#[test]
fn frames_become_messages() {
    let mut attributes = request(id_at(NOW, 72));
    let frame = |attributes: &UAttributes| UOwnedFrame {
        attributes: attributes.clone(),
        payload: vec![1, 2],
    };
    assert_eq!(
        frame(&attributes).into_message().payload,
        Some(vec![1, 2])
    );
    attributes.payload_format = 0;
    assert_eq!(frame(&attributes).into_message().payload, None);
}

#[test]
fn a_missing_authority_is_the_local_one() {
    use_local("vehicle1", "/D5A/3/9999", "//vehicle1/D5A/3/9999");
    use_local("other", "//vehicle1/D5A/3/9999", "//vehicle1/D5A/3/9999");
}

fn use_local(local: &str, source: &str, resolved: &str) {
    let local = uri(&format!("//{local}/1/1/0"));
    let elsewhere = uri("//elsewhere/1/1/0");
    assert_eq!(
        uri_to_zenoh_key(&local, &uri(source)),
        uri_to_zenoh_key(&elsewhere, &uri(resolved))
    );
    assert_eq!(
        uri_to_zenoh_key(&local, &uri(source)),
        "vehicle1/D5A/0/3/9999"
    );
}
