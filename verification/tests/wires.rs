use up_transport_zenoh::frame::{PreparedOwnedFrame, PreparedTxLoanSpec, UFrameMetadata};
use up_transport_zenoh::listener_registry::SubscriberStep;
use up_transport_zenoh::mechanics::{map_zenoh_priority, DEFAULT_SHM_SEGMENT_SIZE};
use up_transport_zenoh::text::to_numeral;
use up_transport_zenoh::wire_full::{
    owned_frame_put, owned_listener_undeclared, owned_sample_received, owned_subscriber_declared,
    OwnedReceiveStep, OwnedSample,
};
use up_transport_zenoh::zero_copy::{
    align_len, ensure_strict_shm_payload, frame_put, loaned_contiguous_payload,
    try_contiguous_payload, zero_copy_listener_undeclared, zero_copy_sample_delivered,
    zero_copy_sample_received, zero_copy_subscriber_declared, LoanStep, ShmAllocation, TxParts,
    ZenohTxPayload, ZeroCopyReceiveStep, ZeroCopySample,
};
use up_transport_zenoh::{
    ListenerRegistry, Priority, UCode, UPriority, UStatus, UUri, ZenohEncodedRxFrame,
    ZenohOwnedCore, ZenohPreparedAttachment, ZenohWireCore, ZenohWireMechanics, ZenohZeroCopyCore,
};
use zenoh::key_expr::KeyExpr;

/// A core whose handles are plain values; shared memory is modelled by bytes.
type ZeroCopyCore = ZenohZeroCopyCore<&'static str, &'static str, u32>;

fn topic() -> UUri {
    UUri::try_from_parts("vehicle", 0x4210, 0x01, 0x9000).expect("topic URI")
}

fn topic_for(authority: &str, resource_id: u16) -> UUri {
    UUri::try_from_parts(authority, 0x4210, 0x01, resource_id).expect("topic URI")
}

fn source_wildcard(authority: &str) -> UUri {
    UUri::try_from_parts(authority, 0xFFFF_FFFF, 0xFF, 0xFFFF).expect("wildcard URI")
}

fn sink(authority: &str, resource_id: u16) -> UUri {
    UUri::try_from_parts(authority, 0x4220, 0x01, resource_id).expect("sink URI")
}

fn metadata(source: UUri, sink: Option<UUri>) -> UFrameMetadata {
    UFrameMetadata {
        source,
        sink,
        priority: None,
    }
}

fn spec(source: UUri, payload_len: usize, payload_alignment: usize) -> PreparedTxLoanSpec {
    PreparedTxLoanSpec {
        metadata: metadata(source, None),
        encoded_metadata: b"encoded metadata".to_vec(),
        has_payload: payload_len != 0,
        payload_len,
        payload_alignment,
    }
}

fn test_core(authority: &str) -> ZeroCopyCore {
    let (_, pending) = ZenohZeroCopyCore::builder(format!("//{authority}/4210/1/0"))
        .with_config(zenoh::Config::default())
        .with_shm_segment_size(1024 * 1024)
        .unwrap_or_else(|_| panic!("shm segment size"))
        .build();
    pending
        .session_opened(Ok("session"))
        .unwrap_or_else(|_| panic!("transport"))
}

/// Lends a buffer; every allocation succeeds at an aligned address.
fn reserve(core: &mut ZeroCopyCore, spec: PreparedTxLoanSpec) -> TxParts<Vec<u8>> {
    let mut step = core.reserve_tx_parts(spec).expect("loan");
    loop {
        step = match step {
            LoanStep::Ready(parts) => return parts,
            LoanStep::InitProvider { spec, segment_size } => {
                assert_eq!(segment_size, 1024 * 1024);
                core.init_shm_provider(Ok("provider"));
                core.reserve_tx_parts(spec).expect("loan")
            }
            LoanStep::Allocate(loan) => {
                let mut payload = vec![0; loan.allocation_len()];
                if let Some(len) = loan.resize_to() {
                    payload.truncate(len);
                }
                let len = payload.len();
                return loan
                    .reserve_payload(ShmAllocation::Allocated {
                        payload,
                        len,
                        address: 4096,
                    })
                    .expect("payload");
            }
        };
    }
}

fn write(payload: &mut ZenohTxPayload<Vec<u8>>, bytes: &[u8]) {
    match payload {
        ZenohTxPayload::Empty => assert!(bytes.is_empty()),
        ZenohTxPayload::Shm(buffer) => buffer.copy_from_slice(bytes),
    }
}

fn bytes(payload: &ZenohTxPayload<Vec<u8>>) -> &[u8] {
    match payload {
        ZenohTxPayload::Empty => &[],
        ZenohTxPayload::Shm(buffer) => buffer,
    }
}

fn routed(key: &str, key_expr: &str) -> bool {
    let key = KeyExpr::try_from(key.to_string()).expect("invalid key");
    let key_expr = KeyExpr::try_from(key_expr.to_string()).expect("invalid key expression");
    key_expr.includes(&key)
}

fn register(core: &mut ZeroCopyCore, source: &UUri, sink: Option<&UUri>, id: u64) -> String {
    let key = core
        .register_encoded_zero_copy_listener(source, sink, id)
        .expect("registered already");
    core.zero_copy_listener_declared(&key, id, Ok(id as u32))
        .expect("register");
    key
}

#[test]
fn prepared_attachment_bytes_pass_through_for_smoke_wires() {
    for payload in [&b""[..], &b"data"[..]] {
        let mut core = ZenohWireCore::new();
        assert!(core.last_prepared().is_none());
        let spec = spec(topic(), payload.len(), 1);
        let mut tx = core
            .loan_prepared_tx(spec, Ok(vec![0; payload.len()]))
            .expect("loan");
        tx.payload_mut().copy_from_slice(payload);
        assert_eq!(tx.payload(), payload);
        let prepared = core.last_prepared().expect("prepared request");
        assert!(prepared.metadata.source.same(&tx.metadata().source));
        assert_eq!(prepared.encoded_metadata, tx.attachment().as_bytes());
        assert_eq!(prepared.payload_len, payload.len());
        assert!(tx.attachment().len() <= 164);
        assert!(!tx.attachment().is_empty());
    }
}

#[test]
fn protobuf_payload_bytes_round_trip_through_pull_receive() {
    let mut core = ZenohWireCore::new();
    let mut tx = core
        .loan_prepared_tx(spec(topic(), 4, 1), Ok(vec![0; 4]))
        .expect("loan");
    tx.payload_mut().copy_from_slice(b"data");
    core.send_prepared_zero_copy(tx).expect("send");
    let rx = core
        .receive_encoded_zero_copy(&topic(), None)
        .expect("receive");
    assert_eq!(rx.try_contiguous_payload(), Some(&b"data"[..]));
    assert_eq!(rx.encoded_metadata(), b"encoded metadata");
    assert_eq!(rx.payload_len(), 4);
    assert_eq!(rx.payload_slices().concat(), b"data");
    let mut observed = Vec::new();
    std::io::Read::read_to_end(&mut rx.payload_reader(), &mut observed).expect("read");
    assert_eq!(observed, b"data");
    let status = core
        .receive_encoded_zero_copy(&topic(), None)
        .unwrap_err();
    assert_eq!(status.code, UCode::NotFound);
    assert_eq!(status.message, "no frame available");
}

fn rx_frame(tag: u8) -> ZenohEncodedRxFrame {
    ZenohEncodedRxFrame::new(
        ZenohPreparedAttachment::from_encoded_metadata(vec![tag]),
        vec![tag, tag],
    )
}

#[test]
fn frames_are_received_in_order() {
    let mut core = ZenohWireCore::default();
    core.push_encoded_rx(rx_frame(1));
    core.push_encoded_rx(rx_frame(2));
    let first = core
        .receive_encoded_zero_copy(&topic(), None)
        .expect("receive");
    assert_eq!(first, rx_frame(1));
    core.push_encoded_rx(rx_frame(3));
    for tag in [2, 3] {
        let next = core
            .receive_encoded_zero_copy(&topic(), None)
            .expect("receive");
        assert_eq!(next.attachment().as_bytes(), &[tag]);
    }
}

#[test]
fn frames_are_delivered_to_every_registration() {
    let mut core = ZenohWireCore::new();
    for listener in [5, 6, 5] {
        core.register_encoded_zero_copy_listener(&topic(), None, listener)
            .expect("register");
    }
    let listeners = |core: &ZenohWireCore| {
        core.deliver_encoded_rx(&rx_frame(9))
            .into_iter()
            .map(|(listener, frame)| {
                assert_eq!(frame, rx_frame(9));
                listener
            })
            .collect::<Vec<u64>>()
    };
    assert_eq!(listeners(&core), vec![5, 6, 5]);
    core.unregister_encoded_zero_copy_listener(&topic(), None, 5)
        .expect("unregister");
    assert_eq!(listeners(&core), vec![6, 5]);
    core.unregister_encoded_zero_copy_listener(&topic(), None, 5)
        .expect("unregister");
    let status = core
        .unregister_encoded_zero_copy_listener(&topic(), None, 5)
        .unwrap_err();
    assert_eq!(status.code, UCode::NotFound);
    assert_eq!(status.message, "listener not registered");
    assert_eq!(listeners(&core), vec![6]);
}

#[test]
fn a_failed_allocation_is_passed_on() {
    let mut core = ZenohWireCore::new();
    let status = core
        .loan_prepared_tx(
            spec(topic(), 4, 1),
            Err(UStatus::fail_with(UCode::ResourceExhausted, "no memory")),
        )
        .unwrap_err();
    assert_eq!(status.code, UCode::ResourceExhausted);
    let status = core
        .loan_prepared_tx(spec(topic(), 4, 1), Ok(vec![]))
        .unwrap_err();
    assert_eq!(status.code, UCode::Internal);
    assert_eq!(
        status.message,
        "allocated buffer does not have the requested length"
    );
    assert!(core.last_prepared().is_none());
}

#[test]
fn zenoh_zero_copy_loan_uses_shm_and_selected_wire_attachment() {
    for payload in [&b""[..], &b"0123456789abcdef"[..], &b"0123456789a"[..]] {
        let mut core = test_core("zenoh-zcs-loan");
        let parts = reserve(&mut core, spec(topic(), payload.len(), 8));
        let mut tx = parts.loan_prepared_tx();
        assert_eq!(bytes(tx.payload()).len(), payload.len());
        assert_eq!(tx.payload_len(), payload.len());
        assert_eq!(
            matches!(tx.payload(), ZenohTxPayload::Shm(_)),
            !payload.is_empty()
        );
        write(tx.payload_mut(), payload);
        assert_eq!(bytes(tx.payload()), payload);
        assert_eq!(tx.attachment_bytes(), b"encoded metadata");
        assert!(tx.metadata().source.same(&topic()));
    }
}

#[test]
fn zero_copy_builder_rejects_zero_shm_segment_size() {
    let Err(error) = ZenohZeroCopyCore::builder("//builder-invalid/4210/1/0".to_string())
        .with_shm_segment_size(0)
    else {
        panic!("zero segment size should be rejected");
    };
    assert_eq!(error.code, UCode::InvalidArgument);
    assert_eq!(error.message, "Zenoh SHM segment size must be non-zero");
}

#[test]
fn zero_copy_core_checks_session_and_uri() {
    let (_, pending) =
        ZenohZeroCopyCore::new(zenoh::Config::default(), "//vehicle/4210/1/0".to_string());
    let Err(status) = pending.session_opened::<&str, (), ()>(Err("no route".to_string())) else {
        panic!("a failed session should be reported");
    };
    assert_eq!(status.code, UCode::Internal);
    assert_eq!(status.message, "Unable to open Zenoh session");
    let (_, pending) = ZenohZeroCopyCore::builder("//vehicle/4210/1/7".to_string()).build();
    let Err(status) = pending.session_opened::<&str, (), ()>(Ok("session")) else {
        panic!("a local URI with a resource should be rejected");
    };
    assert_eq!(status.code, UCode::InvalidArgument);
    assert_eq!(status.message, "Resource ID should always be 0");
}

#[test]
fn receive_zero_copy_returns_shm_payload_lease() {
    let mut core = test_core("zenoh-zcs-rx");
    let source = topic_for("zenoh-zcs-rx", 0x9300);
    let receive_key = core.receive_encoded_zero_copy(&source, None);
    let payload = b"rx-shm";
    let mut buffer = reserve(&mut core, spec(source, payload.len(), 1)).loan_prepared_tx();
    write(buffer.payload_mut(), payload);
    let put = buffer.send_prepared_zero_copy();
    assert!(routed(&put.key, &receive_key));
    assert_eq!(put.priority, Priority::DataLow);
    let ZenohTxPayload::Shm(observed) = put.payload else {
        panic!("payload should be in shared memory");
    };
    let step = zero_copy_sample_received(Ok(ZeroCopySample {
        attachment: Some(put.attachment),
        payload_len: observed.len(),
        shm_backed: true,
        sample: observed,
    }));
    let ZeroCopyReceiveStep::Frame(frame) = step else {
        panic!("frame should be handed out");
    };
    assert_eq!(frame.encoded_metadata(), b"encoded metadata");
    assert_eq!(frame.sample(), payload);
    assert_eq!(
        try_contiguous_payload(&vec![frame.sample().as_slice()]),
        Some(payload.as_slice())
    );
    assert_eq!(
        loaned_contiguous_payload(Some(frame.sample())),
        Ok(frame.sample())
    );
    assert_eq!(
        loaned_contiguous_payload::<u8>(None),
        Err("zero-copy Zenoh receive payload is not SHM-backed".to_string())
    );
}

#[test]
fn payloads_in_pieces_are_not_contiguous() {
    assert_eq!(try_contiguous_payload(&vec![]), Some(&[][..]));
    assert_eq!(try_contiguous_payload(&vec![&[1u8][..]]), Some(&[1u8][..]));
    assert_eq!(
        try_contiguous_payload(&vec![&[1u8][..], &[2u8][..]]),
        None
    );
}

/// Sends a payload and gives what each of the registered listeners receives.
fn send_to(
    core: &mut ZeroCopyCore,
    source: &UUri,
    payload: &[u8],
    registered: &[(u64, String)],
) -> Vec<(u64, Vec<u8>)> {
    let mut buffer = reserve(core, spec(source.clone(), payload.len(), 1)).loan_prepared_tx();
    write(buffer.payload_mut(), payload);
    let put = buffer.send_prepared_zero_copy();
    let observed = bytes(&put.payload).to_vec();
    registered
        .iter()
        .filter(|(_, key_expr)| routed(&put.key, key_expr))
        .filter_map(|(id, _)| {
            let frame = zero_copy_sample_delivered(ZeroCopySample {
                attachment: Some(put.attachment.clone()),
                payload_len: observed.len(),
                shm_backed: true,
                sample: observed.clone(),
            })?;
            assert_eq!(frame.encoded_metadata(), b"encoded metadata");
            Some((*id, frame.sample().clone()))
        })
        .collect()
}

#[test]
fn zero_copy_listener_fanout_delivers_rx_leases() {
    let authority = "zenoh-zcs-listener";
    let mut core = test_core(authority);
    let source = topic_for(authority, 0x9301);
    let exact_key = register(&mut core, &source, None, 1);
    let wildcard_key = register(&mut core, &source_wildcard(authority), None, 2);
    assert_eq!(
        core.register_encoded_zero_copy_listener(&source, None, 1),
        None
    );
    let registered = [(1, exact_key), (2, wildcard_key)];
    let payload = b"fanout";
    let received = send_to(&mut core, &source, payload, &registered);
    assert_eq!(received, vec![(1, payload.to_vec()), (2, payload.to_vec())]);
}

#[test]
fn zero_copy_unregister_listener_removes_exact_and_wildcard_listeners() {
    let authority = "zenoh-zcs-unregister";
    let mut core = test_core(authority);
    let source = topic_for(authority, 0x9306);
    let wildcard = source_wildcard(authority);
    let mut registered = vec![
        (1, register(&mut core, &source, None, 1)),
        (2, register(&mut core, &wildcard, None, 2)),
    ];
    let removed = core
        .unregister_encoded_zero_copy_listener(&source, None, 1)
        .expect("unregister");
    registered.retain(|(id, _)| *id != u64::from(removed));
    let payload = b"wildcard-only";
    let received = send_to(&mut core, &source, payload, &registered);
    assert_eq!(received, vec![(2, payload.to_vec())]);
    let removed = core
        .unregister_encoded_zero_copy_listener(&wildcard, None, 2)
        .expect("unregister");
    registered.retain(|(id, _)| *id != u64::from(removed));
    let received = send_to(&mut core, &source, b"no-listeners", &registered);
    assert!(
        received.is_empty(),
        "unregistered wildcard listener should not receive"
    );
    let status = core
        .unregister_encoded_zero_copy_listener(&wildcard, None, 2)
        .unwrap_err();
    assert_eq!(status.code, UCode::NotFound);
    assert_eq!(status.message, "zero-copy listener not registered");
}

#[test]
fn zero_copy_uninit_transmit_uses_selected_wire_metadata() {
    let authority = "zenoh-zcs-uninit";
    let mut core = test_core(authority);
    let source = topic_for(authority, 0x9302);
    let payload = b"uninit";
    let parts = reserve(&mut core, spec(source.clone(), payload.len(), 1));
    let mut buffer = parts.loan_prepared_uninit_tx();
    assert_eq!(buffer.payload_len(), payload.len());
    assert!(buffer.metadata().source.same(&source));
    assert_eq!(bytes(buffer.payload()).len(), payload.len());
    write(buffer.payload_mut(), payload);
    let put = buffer.assume_payload_init().send_prepared_zero_copy();
    assert_eq!(bytes(&put.payload), payload);
    assert_eq!(put.attachment, b"encoded metadata");
    assert_eq!(
        put.key,
        "up/zenoh-zcs-uninit/4210/0/1/9302/{}/{}/{}/{}/{}"
    );
}

#[test]
fn zero_copy_non_shm_payload_is_rejected_before_pull_receive_exposes_frame() {
    let step = zero_copy_sample_received(Ok(ZeroCopySample {
        attachment: Some(b"encoded metadata".to_vec()),
        payload_len: b"not-shm".len(),
        shm_backed: false,
        sample: b"not-shm",
    }));
    let ZeroCopyReceiveStep::Failed(error) = step else {
        panic!("non-SHM payload rejected");
    };
    assert_eq!(error.code, UCode::FailedPrecondition);
    assert_eq!(
        error.message,
        "zero-copy Zenoh receive requires SHM-backed payload bytes"
    );
}

#[test]
fn zero_copy_non_shm_listener_payload_is_not_delivered() {
    assert!(
        zero_copy_sample_delivered(ZeroCopySample {
            attachment: Some(b"encoded metadata".to_vec()),
            payload_len: b"not-shm-listener".len(),
            shm_backed: false,
            sample: b"not-shm-listener",
        })
        .is_none(),
        "non-SHM listener frame should be dropped"
    );
}

#[test]
fn zero_copy_sink_filter_mismatch_is_not_delivered_to_pull_receive() {
    let authority = "zenoh-zcs-sink-filter";
    let mut core = test_core(authority);
    let source = topic_for(authority, 0x930A);
    let matching_sink = sink(authority, 0);
    let nonmatching_sink = sink("zenoh-zcs-sink-filter-other", 0);
    let receive_key = core.receive_encoded_zero_copy(&source, Some(&nonmatching_sink));
    let matching_key = core.receive_encoded_zero_copy(&source, Some(&matching_sink));
    let payload = b"sink-filter";
    let mut spec = spec(source, payload.len(), 1);
    spec.metadata.sink = Some(matching_sink);
    let put = reserve(&mut core, spec)
        .loan_prepared_tx()
        .send_prepared_zero_copy();
    assert!(
        !routed(&put.key, &receive_key),
        "nonmatching sink filter should not receive the frame"
    );
    assert!(routed(&put.key, &matching_key));
}

#[test]
fn zero_copy_samples_are_admitted_strictly() {
    assert!(ensure_strict_shm_payload(0, false).is_ok());
    assert!(ensure_strict_shm_payload(1, true).is_ok());
    assert!(ensure_strict_shm_payload(1, false).is_err());
    assert!(matches!(
        zero_copy_sample_received(Ok(ZeroCopySample {
            attachment: None,
            payload_len: 1,
            shm_backed: false,
            sample: (),
        })),
        ZeroCopyReceiveStep::Wait
    ));
    let ZeroCopyReceiveStep::Failed(error) =
        zero_copy_sample_received::<()>(Err("closed".to_string()))
    else {
        panic!("a closed subscriber should be reported");
    };
    assert_eq!(error.message, "failed to receive Zenoh sample: closed");
    assert!(zero_copy_sample_delivered(ZeroCopySample {
        attachment: None,
        payload_len: 0,
        shm_backed: false,
        sample: (),
    })
    .is_none());
}

#[test]
fn loans_that_cannot_be_met_are_refused() {
    let mut core = test_core("zenoh-zcs-refused");
    let mut without_encoding = spec(topic(), 4, 1);
    without_encoding.has_payload = false;
    let status = core
        .reserve_tx_parts::<Vec<u8>>(without_encoding)
        .unwrap_err();
    assert_eq!(status.code, UCode::InvalidArgument);
    assert_eq!(
        status.message,
        "message payload is present but payload encoding is absent"
    );
    core.init_shm_provider(Ok("provider"));
    let status = core
        .reserve_tx_parts::<Vec<u8>>(spec(topic(), usize::MAX, 2))
        .unwrap_err();
    assert_eq!(status.code, UCode::InvalidArgument);
    assert_eq!(status.message, "payload length overflow");

    let loan = |core: &ZeroCopyCore| {
        let Ok(LoanStep::Allocate(loan)) =
            core.reserve_tx_parts::<Vec<u8>>(spec(topic(), 13, 8))
        else {
            panic!("room should be allocated");
        };
        assert_eq!(loan.allocation_len(), 16);
        assert_eq!(loan.resize_to(), Some(13));
        loan
    };
    for (allocation, code, message) in [
        (
            ShmAllocation::LayoutRejected("zero".to_string()),
            UCode::InvalidArgument,
            "invalid Zenoh SHM layout: zero",
        ),
        (
            ShmAllocation::Exhausted("full".to_string()),
            UCode::ResourceExhausted,
            "failed to allocate Zenoh SHM payload: full",
        ),
        (
            ShmAllocation::ResizeFailed,
            UCode::Internal,
            "failed to resize Zenoh SHM payload buffer",
        ),
        (
            ShmAllocation::Allocated {
                payload: vec![0; 16],
                len: 16,
                address: 0xABC8,
            },
            UCode::Internal,
            "failed to resize Zenoh SHM payload buffer",
        ),
        (
            ShmAllocation::Allocated {
                payload: vec![0; 13],
                len: 13,
                address: 0xABC4,
            },
            UCode::Internal,
            "Zenoh SHM payload address 0xabc4 does not satisfy requested alignment 8",
        ),
    ] {
        let status = loan(&core).reserve_payload(allocation).unwrap_err();
        assert_eq!(status.code, code);
        assert_eq!(status.message, message);
    }
}

#[test]
fn the_shm_provider_is_initialised_once() {
    let mut core = test_core("zenoh-zcs-provider");
    assert!(core.shm_provider().is_none());
    core.init_shm_provider(Err("no shared memory".to_string()));
    core.init_shm_provider(Ok("provider"));
    let Some(Err(status)) = core.shm_provider() else {
        panic!("the first outcome should be kept");
    };
    assert_eq!(status.code, UCode::Internal);
    assert_eq!(
        status.message,
        "failed to initialize Zenoh SHM provider: no shared memory"
    );
    let status = core
        .reserve_tx_parts::<Vec<u8>>(spec(topic(), 4, 1))
        .unwrap_err();
    assert_eq!(
        status.message,
        "failed to initialize Zenoh SHM provider: no shared memory"
    );
}

#[test]
fn lengths_are_aligned() {
    for (len, alignment, expected) in [(0, 8, 0), (1, 8, 8), (8, 8, 8), (9, 8, 16), (10, 3, 12)] {
        assert_eq!(align_len(len, alignment).ok(), Some(expected));
    }
    assert_eq!(align_len(usize::MAX, 1).ok(), Some(usize::MAX));
    let status = align_len(usize::MAX - 1, 4).unwrap_err();
    assert_eq!(status.code, UCode::InvalidArgument);
    assert_eq!(status.message, "payload length overflow");
}

#[test]
fn wire_mechanics_have_a_segment_size() {
    let mut mechanics = ZenohWireMechanics::<_, ()>::new(Ok("session"), "//vehicle/4210/1/0")
        .unwrap_or_else(|_| panic!("mechanics"));
    assert_eq!(mechanics.shm_segment_size(), DEFAULT_SHM_SEGMENT_SIZE);
    assert_eq!(DEFAULT_SHM_SEGMENT_SIZE, 64 * 1024 * 1024);
    assert!(mechanics.set_shm_segment_size(4096).is_ok());
    let status = mechanics.set_shm_segment_size(0).unwrap_err();
    assert_eq!(status.code, UCode::InvalidArgument);
    assert_eq!(mechanics.shm_segment_size(), 4096);
    assert_eq!(*mechanics.session(), "session");
    assert!(mechanics.uri().same(&UUri::from_text("//vehicle/4210/1/0").expect("URI")));
}

#[test]
fn all_service_classes_are_mapped() {
    for (class, priority) in [
        (UPriority::CS0, Priority::Background),
        (UPriority::CS1, Priority::DataLow),
        (UPriority::CS2, Priority::Data),
        (UPriority::CS3, Priority::DataHigh),
        (UPriority::CS4, Priority::InteractiveLow),
        (UPriority::CS5, Priority::InteractiveHigh),
        (UPriority::CS6, Priority::RealTime),
    ] {
        assert_eq!(map_zenoh_priority(class), priority);
    }
}

fn owned_core(authority: &str) -> ZenohOwnedCore<&'static str, u32> {
    ZenohOwnedCore::new(Ok("session"), &format!("//{authority}/4210/1/0"))
        .unwrap_or_else(|_| panic!("core"))
}

#[test]
fn owned_frames_pass_through() {
    let core = owned_core("zenoh-owned-rt");
    let source = topic_for("zenoh-owned-rt", 0x9200);
    let mut metadata = metadata(source.clone(), None);
    metadata.priority = Some(UPriority::CS5);
    let put = core.send_prepared_owned(PreparedOwnedFrame {
        metadata,
        encoded_metadata: vec![1, 2, 3],
        payload: Some(b"data".to_vec()),
    });
    assert_eq!(put.priority, Priority::InteractiveHigh);
    assert!(routed(&put.key, &core.owned_key(&source, None)));
    let step = owned_sample_received(Ok(OwnedSample {
        attachment: Some(put.attachment),
        payload: put.payload,
    }));
    let OwnedReceiveStep::Frame(frame) = step else {
        panic!("frame should be handed out");
    };
    assert_eq!(frame.encoded_metadata, vec![1, 2, 3]);
    assert_eq!(frame.payload.as_deref(), Some(&b"data"[..]));
}

#[test]
fn owned_samples_without_attachment_are_passed_over() {
    assert!(matches!(
        owned_sample_received(Ok(OwnedSample {
            attachment: None,
            payload: vec![1],
        })),
        OwnedReceiveStep::Wait
    ));
    let OwnedReceiveStep::Frame(frame) = owned_sample_received(Ok(OwnedSample {
        attachment: Some(vec![]),
        payload: vec![],
    })) else {
        panic!("frame should be handed out");
    };
    assert_eq!(frame.payload, None);
    let OwnedReceiveStep::Failed(status) = owned_sample_received(Err("closed".to_string())) else {
        panic!("a closed subscriber should be reported");
    };
    assert_eq!(
        status.message,
        "failed to receive Zenoh owned sample: closed"
    );
}

#[test]
fn owned_listeners_are_taken_out_first_come_first_served() {
    let mut core = owned_core("zenoh-owned");
    let source = topic();
    let other = sink("vehicle", 0);
    for subscriber in [10, 11] {
        core.register_encoded_owned_listener(&source, None, 1, Ok(subscriber))
            .expect("register");
    }
    core.register_encoded_owned_listener(&source, Some(&other), 1, Ok(12))
        .expect("register");
    let status = core
        .register_encoded_owned_listener(&source, None, 2, Err("refused".to_string()))
        .unwrap_err();
    assert_eq!(
        status.message,
        "failed to register Zenoh owned listener: refused"
    );
    assert!(core
        .unregister_encoded_owned_listener(&source, None, 2)
        .is_err());
    for subscriber in [10, 11] {
        let removed = core.unregister_encoded_owned_listener(&source, None, 1);
        assert_eq!(removed.expect("unregister"), subscriber);
    }
    let status = core
        .unregister_encoded_owned_listener(&source, None, 1)
        .unwrap_err();
    assert_eq!(status.code, UCode::NotFound);
    assert_eq!(status.message, "owned listener not registered");
    let removed = core.unregister_encoded_owned_listener(&source, Some(&other), 1);
    assert_eq!(removed.expect("unregister"), 12);
}

#[test]
fn session_failures_of_the_cores_are_reported() {
    let failed = || Err("closed".to_string());
    for (outcome, message) in [
        (owned_frame_put(failed()), "failed to put Zenoh owned frame: closed"),
        (
            owned_listener_undeclared(failed()),
            "failed to undeclare Zenoh owned listener: closed",
        ),
        (frame_put(failed()), "failed to put Zenoh frame: closed"),
        (
            zero_copy_listener_undeclared(failed()),
            "failed to undeclare zero-copy listener: closed",
        ),
        (
            owned_subscriber_declared(failed()),
            "failed to declare Zenoh owned subscriber: closed",
        ),
        (
            zero_copy_subscriber_declared(failed()),
            "failed to declare Zenoh subscriber: closed",
        ),
        (
            test_core("failures").zero_copy_listener_declared("key", 1, Err("closed".to_string())),
            "failed to register zero-copy listener: closed",
        ),
    ] {
        let status = outcome.unwrap_err();
        assert_eq!(status.code, UCode::Internal);
        assert_eq!(status.message, message);
    }
    assert!(owned_frame_put(Ok(())).is_ok());
    assert_eq!(zero_copy_subscriber_declared(Ok(3)).ok(), Some(3));
}

#[test]
fn the_registry_keeps_listeners_apart() {
    let mut registry = ListenerRegistry::new(2);
    for (key, listener, subscriber) in [("a", 1, "s1"), ("b", 1, "s2")] {
        assert_eq!(
            registry.register_owned_subscriber(key, listener).ok(),
            Some(SubscriberStep::Declare)
        );
        registry
            .owned_subscriber_declared(key, listener, Ok(subscriber))
            .expect("register");
    }
    assert_eq!(registry.len(), 2);
    assert!(registry.contains("a", 1));
    assert!(!registry.contains("a", 2));
    assert_eq!(
        registry.register_owned_subscriber("b", 1).ok(),
        Some(SubscriberStep::Registered)
    );
    let status = registry
        .owned_subscriber_declared("c", 1, Ok("s3"))
        .unwrap_err();
    assert_eq!(status.code, UCode::ResourceExhausted);
    assert_eq!(registry.unregister_owned("a", 1).ok(), Some("s1"));
    assert_eq!(registry.len(), 1);
    assert!(registry.contains("b", 1));
    assert_eq!(
        registry.unregister_owned("a", 1).unwrap_err().code,
        UCode::NotFound
    );
}

#[test]
fn numerals_are_written_in_any_base() {
    assert_eq!(to_numeral(0, 10, false), "0");
    assert_eq!(to_numeral(1234567890, 10, false), "1234567890");
    assert_eq!(to_numeral(0xABCDEF, 16, true), "ABCDEF");
    assert_eq!(to_numeral(0xABCDEF, 16, false), "abcdef");
    assert_eq!(to_numeral(u64::MAX, 16, true), "FFFFFFFFFFFFFFFF");
}
