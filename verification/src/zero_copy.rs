//! A core that carries frames in shared memory over a Zenoh session.
//!
//! The payload of an outgoing frame is written to a buffer that the provider of shared
//! memory lends. A frame that arrives is taken only if its payload is in shared memory.
use crate::config;
use crate::frame::{self, LoanSpecView, MetadataView, PreparedTxLoanSpec, UFrameMetadata};
use crate::key;
use crate::listener_registry::ListenerKey;
use crate::mechanics::{self, Priority, ZenohWireMechanics};
use crate::status::{self, StatusView, UCode, UStatus};
use crate::table::Table;
use crate::text;
use crate::transport;
use crate::uri::{self, UUri, UriView};
use vstd::prelude::*;

verus! {

/// The least multiple of an alignment that holds a payload, if there is one.
pub open spec fn aligned_len(payload_len: nat, alignment: nat) -> nat
    recommends
        alignment > 0,
{
    if payload_len % alignment == 0 {
        payload_len
    } else {
        (payload_len + alignment - payload_len % alignment) as nat
    }
}

/// The length to allocate for a payload with an alignment.
pub fn align_len(payload_len: usize, alignment: usize) -> (r: Result<usize, UStatus>)
    requires
        alignment > 0,
    ensures
        match r {
            Ok(len) => len == aligned_len(payload_len as nat, alignment as nat),
            Err(e) => aligned_len(payload_len as nat, alignment as nat) > usize::MAX && e@
                == status::failure(UCode::InvalidArgument, "payload length overflow"@),
        },
{
    let remainder: usize = payload_len % alignment;
    if remainder == 0 {
        return Ok(payload_len);
    }
    match payload_len.checked_add(alignment - remainder) {
        Some(len) => Ok(len),
        None => Err(UStatus::fail_with(UCode::InvalidArgument, "payload length overflow")),
    }
}

/// The length to allocate is the least multiple of the alignment that is no less than the
/// length of the payload.
pub proof fn law_aligned_len_is_least_multiple(payload_len: nat, alignment: nat, other: nat)
    requires
        alignment > 0,
    ensures
        aligned_len(payload_len, alignment) % alignment == 0,
        payload_len <= aligned_len(payload_len, alignment) < payload_len + alignment,
        other >= payload_len && other % alignment == 0 ==> aligned_len(payload_len, alignment)
            <= other,
{
    let n = payload_len as int;
    let a = alignment as int;
    let r = n % a;
    vstd::arithmetic::div_mod::lemma_fundamental_div_mod(n, a);
    vstd::arithmetic::div_mod::lemma_mod_bound(n, a);
    let q = n / a;
    if r != 0 {
        assert(n + a - r == a * (q + 1)) by (nonlinear_arith)
            requires
                n == a * q + r,
        ;
        vstd::arithmetic::div_mod::lemma_mod_multiples_basic(q + 1, a);
        assert(a * (q + 1) == (q + 1) * a) by (nonlinear_arith);
    }
    if other >= payload_len && other % alignment == 0 && aligned_len(payload_len, alignment)
        > other {
        let o = other as int;
        vstd::arithmetic::div_mod::lemma_fundamental_div_mod(o, a);
        let p = o / a;
        assert(o == a * p);
        assert(false) by (nonlinear_arith)
            requires
                n == a * q + r,
                0 < r < a,
                o == a * p,
                n <= o,
                o < n + a - r,
        ;
    }
}

/// The payload of an outgoing frame.
#[derive(Debug)]
pub enum ZenohTxPayload<M> {
    /// There is none.
    Empty,
    /// It is in shared memory.
    Shm(M),
}

/// A buffer that holds an outgoing frame.
#[derive(Debug)]
pub struct ZenohTxBuffer<M> {
    metadata: UFrameMetadata,
    zenoh_key: String,
    attachment: Vec<u8>,
    priority: Priority,
    payload_len: usize,
    payload: ZenohTxPayload<M>,
}

/// A buffer that holds an outgoing frame whose payload has not been written yet.
#[derive(Debug)]
pub struct ZenohUninitTxBuffer<M> {
    metadata: UFrameMetadata,
    zenoh_key: String,
    attachment: Vec<u8>,
    priority: Priority,
    payload_len: usize,
    payload: ZenohTxPayload<M>,
}

/// A buffer as a mathematical value.
#[verifier::ext_equal]
pub struct TxView<M> {
    pub metadata: MetadataView,
    pub key: Seq<char>,
    pub attachment: Seq<u8>,
    pub priority: Priority,
    /// The length of the payload that was asked for.
    pub payload_len: usize,
    pub payload: ZenohTxPayload<M>,
}

impl<M> View for ZenohTxBuffer<M> {
    type V = TxView<M>;

    closed spec fn view(&self) -> TxView<M> {
        TxView {
            metadata: self.metadata@,
            key: self.zenoh_key@,
            attachment: self.attachment@,
            priority: self.priority,
            payload_len: self.payload_len,
            payload: self.payload,
        }
    }
}

impl<M> View for ZenohUninitTxBuffer<M> {
    type V = TxView<M>;

    closed spec fn view(&self) -> TxView<M> {
        TxView {
            metadata: self.metadata@,
            key: self.zenoh_key@,
            attachment: self.attachment@,
            priority: self.priority,
            payload_len: self.payload_len,
            payload: self.payload,
        }
    }
}

impl<M> ZenohTxBuffer<M> {
    /// Returns the selected-wire metadata bytes carried as the Zenoh attachment.
    #[must_use]
    pub fn attachment_bytes(&self) -> (bytes: Vec<u8>)
        ensures
            bytes@ == self@.attachment,
    {
        frame::copy_bytes(self.attachment.as_slice())
    }

    pub fn metadata(&self) -> (metadata: &UFrameMetadata)
        ensures
            metadata@ == self@.metadata,
    {
        &self.metadata
    }

    /// The length of the payload that was asked for.
    pub fn payload_len(&self) -> (n: usize)
        ensures
            n == self@.payload_len,
    {
        self.payload_len
    }

    /// The payload, as it is to be sent.
    pub fn payload(&self) -> (payload: &ZenohTxPayload<M>)
        ensures
            *payload == self@.payload,
    {
        &self.payload
    }

    /// The payload, to be written to.
    pub fn payload_mut(&mut self) -> (payload: &mut ZenohTxPayload<M>)
        ensures
            *payload == old(self)@.payload,
            final(self)@ == (TxView { payload: *final(payload), ..old(self)@ }),
    {
        &mut self.payload
    }
}

impl<M> ZenohUninitTxBuffer<M> {
    pub fn metadata(&self) -> (metadata: &UFrameMetadata)
        ensures
            metadata@ == self@.metadata,
    {
        &self.metadata
    }

    /// The length of the payload that was asked for.
    pub fn payload_len(&self) -> (n: usize)
        ensures
            n == self@.payload_len,
    {
        self.payload_len
    }

    /// The payload, as far as it has been written.
    pub fn payload(&self) -> (payload: &ZenohTxPayload<M>)
        ensures
            *payload == self@.payload,
    {
        &self.payload
    }

    /// The payload, to be written to.
    pub fn payload_mut(&mut self) -> (payload: &mut ZenohTxPayload<M>)
        ensures
            *payload == old(self)@.payload,
            final(self)@ == (TxView { payload: *final(payload), ..old(self)@ }),
    {
        &mut self.payload
    }

    /// The same buffer, once its payload has been written.
    pub fn assume_payload_init(self) -> (buffer: ZenohTxBuffer<M>)
        ensures
            buffer@ == self@,
    {
        ZenohTxBuffer {
            metadata: self.metadata,
            zenoh_key: self.zenoh_key,
            attachment: self.attachment,
            priority: self.priority,
            payload_len: self.payload_len,
            payload: self.payload,
        }
    }
}

/// What an outgoing frame consists of, once there is room for its payload.
#[derive(Debug)]
pub struct TxParts<M> {
    metadata: UFrameMetadata,
    zenoh_key: String,
    attachment: Vec<u8>,
    priority: Priority,
    payload_len: usize,
    payload: ZenohTxPayload<M>,
}

impl<M> View for TxParts<M> {
    type V = TxView<M>;

    closed spec fn view(&self) -> TxView<M> {
        TxView {
            metadata: self.metadata@,
            key: self.zenoh_key@,
            attachment: self.attachment@,
            priority: self.priority,
            payload_len: self.payload_len,
            payload: self.payload,
        }
    }
}

impl<M> TxParts<M> {
    /// The buffer that holds these parts.
    pub fn loan_prepared_tx(self) -> (buffer: ZenohTxBuffer<M>)
        ensures
            buffer@ == self@,
    {
        ZenohTxBuffer {
            metadata: self.metadata,
            zenoh_key: self.zenoh_key,
            attachment: self.attachment,
            priority: self.priority,
            payload_len: self.payload_len,
            payload: self.payload,
        }
    }

    /// The buffer that holds these parts, with a payload that is yet to be written.
    pub fn loan_prepared_uninit_tx(self) -> (buffer: ZenohUninitTxBuffer<M>)
        ensures
            buffer@ == self@,
    {
        ZenohUninitTxBuffer {
            metadata: self.metadata,
            zenoh_key: self.zenoh_key,
            attachment: self.attachment,
            priority: self.priority,
            payload_len: self.payload_len,
            payload: self.payload,
        }
    }
}

/// A frame that needs room for its payload in shared memory.
#[derive(Debug)]
pub struct ShmLoan {
    metadata: UFrameMetadata,
    zenoh_key: String,
    attachment: Vec<u8>,
    priority: Priority,
    payload_len: usize,
    alignment: usize,
    aligned_len: usize,
}

/// A frame that needs room for its payload, as a mathematical value.
#[verifier::ext_equal]
pub struct ShmLoanView {
    pub metadata: MetadataView,
    pub key: Seq<char>,
    pub attachment: Seq<u8>,
    pub priority: Priority,
    pub payload_len: usize,
    pub alignment: usize,
}

impl View for ShmLoan {
    type V = ShmLoanView;

    closed spec fn view(&self) -> ShmLoanView {
        ShmLoanView {
            metadata: self.metadata@,
            key: self.zenoh_key@,
            attachment: self.attachment@,
            priority: self.priority,
            payload_len: self.payload_len,
            alignment: self.alignment,
        }
    }
}

impl ShmLoanView {
    /// The parts of the frame once there is room for its payload.
    pub open spec fn with_payload<M>(self, payload: M) -> TxView<M> {
        TxView {
            metadata: self.metadata,
            key: self.key,
            attachment: self.attachment,
            priority: self.priority,
            payload_len: self.payload_len,
            payload: ZenohTxPayload::Shm(payload),
        }
    }
}

impl ShmLoan {
    #[verifier::type_invariant]
    spec fn well_formed(self) -> bool {
        &&& self.alignment > 0
        &&& self.aligned_len == aligned_len(self.payload_len as nat, self.alignment as nat)
    }

    /// The length to allocate.
    pub fn allocation_len(&self) -> (n: usize)
        ensures
            n == aligned_len(self@.payload_len as nat, self@.alignment as nat),
    {
        proof {
            use_type_invariant(self);
        }
        self.aligned_len
    }

    /// The length to shrink the allocation to, where it is not the one of the payload.
    pub fn resize_to(&self) -> (r: Option<usize>)
        ensures
            r == (if self@.payload_len % self@.alignment == 0 {
                None::<usize>
            } else {
                Some(self@.payload_len)
            }),
    {
        proof {
            use_type_invariant(self);
            law_aligned_len_is_least_multiple(self.payload_len as nat, self.alignment as nat, 0);
        }
        if self.aligned_len != self.payload_len {
            Some(self.payload_len)
        } else {
            None
        }
    }
}

/// What came of an allocation in shared memory.
#[derive(Debug)]
pub enum ShmAllocation<M> {
    /// The provider has no layout for the length.
    LayoutRejected(String),
    /// The provider has no room.
    Exhausted(String),
    /// The allocation could not be shrunk to the length of the payload.
    ResizeFailed,
    /// There is room of a length at an address.
    Allocated { payload: M, len: usize, address: usize },
}

/// What is to be done next to lend a buffer.
#[derive(Debug)]
pub enum LoanStep<M> {
    /// Nothing: there is no payload.
    Ready(TxParts<M>),
    /// Initialise the provider of shared memory, and ask again.
    InitProvider { spec: PreparedTxLoanSpec, segment_size: usize },
    /// Allocate room for the payload.
    Allocate(ShmLoan),
}

/// What is to be done next to lend a buffer, as a mathematical value.
#[verifier::ext_equal]
pub enum LoanStepView<M> {
    Ready(TxView<M>),
    InitProvider { spec: LoanSpecView, segment_size: usize },
    Allocate(ShmLoanView),
}

impl<M> View for LoanStep<M> {
    type V = LoanStepView<M>;

    open spec fn view(&self) -> LoanStepView<M> {
        match *self {
            LoanStep::Ready(parts) => LoanStepView::Ready(parts@),
            LoanStep::InitProvider { spec, segment_size } => LoanStepView::InitProvider {
                spec: spec@,
                segment_size,
            },
            LoanStep::Allocate(loan) => LoanStepView::Allocate(loan@),
        }
    }
}

/// What is to be done for a request for a buffer, given the provider of shared memory as
/// far as it was initialised.
pub open spec fn loan_step<M, P>(
    local: Seq<char>,
    spec: LoanSpecView,
    segment_size: usize,
    provider: Option<Result<P, Seq<char>>>,
) -> Result<LoanStepView<M>, StatusView> {
    if !spec.has_payload && spec.payload_len != 0 {
        Err(
            status::failure(
                UCode::InvalidArgument,
                "message payload is present but payload encoding is absent"@,
            ),
        )
    } else if spec.payload_len == 0 {
        Ok(
            LoanStepView::Ready(
                TxView {
                    metadata: spec.metadata,
                    key: spec.metadata.key(local),
                    attachment: spec.encoded_metadata,
                    priority: spec.metadata.zenoh_priority(),
                    payload_len: 0,
                    payload: ZenohTxPayload::Empty,
                },
            ),
        )
    } else {
        match provider {
            None => Ok(LoanStepView::InitProvider { spec, segment_size }),
            Some(init) => match mechanics::provider_result(init) {
                Err(failure) => Err(failure),
                Ok(_) => if aligned_len(spec.payload_len as nat, spec.payload_alignment as nat)
                    > usize::MAX {
                    Err(status::failure(UCode::InvalidArgument, "payload length overflow"@))
                } else {
                    Ok(
                        LoanStepView::Allocate(
                            ShmLoanView {
                                metadata: spec.metadata,
                                key: spec.metadata.key(local),
                                attachment: spec.encoded_metadata,
                                priority: spec.metadata.zenoh_priority(),
                                payload_len: spec.payload_len,
                                alignment: spec.payload_alignment,
                            },
                        ),
                    )
                },
            },
        }
    }
}

/// The parts of a frame, given what came of the allocation for its payload.
pub open spec fn reserved_payload<M>(loan: ShmLoanView, allocation: ShmAllocation<M>) -> Result<
    TxView<M>,
    StatusView,
> {
    match allocation {
        ShmAllocation::LayoutRejected(error) => Err(
            status::failure(UCode::InvalidArgument, "invalid Zenoh SHM layout: "@ + error@),
        ),
        ShmAllocation::Exhausted(error) => Err(
            status::failure(
                UCode::ResourceExhausted,
                "failed to allocate Zenoh SHM payload: "@ + error@,
            ),
        ),
        ShmAllocation::ResizeFailed => Err(
            status::failure(UCode::Internal, "failed to resize Zenoh SHM payload buffer"@),
        ),
        ShmAllocation::Allocated { payload, len, address } => if len != loan.payload_len {
            Err(status::failure(UCode::Internal, "failed to resize Zenoh SHM payload buffer"@))
        } else if address % loan.alignment != 0 {
            Err(
                status::failure(
                    UCode::Internal,
                    "Zenoh SHM payload address 0x"@ + text::numeral(address as nat, 16, false)
                        + " does not satisfy requested alignment "@ + text::numeral(
                        loan.alignment as nat,
                        10,
                        false,
                    ),
                ),
            )
        } else {
            Ok(loan.with_payload(payload))
        },
    }
}

impl ShmLoan {
    /// Takes what came of the allocation for the payload.
    ///
    /// Room that does not have the length of the payload has not been shrunk to it.
    pub fn reserve_payload<M>(self, allocation: ShmAllocation<M>) -> (r: Result<TxParts<M>, UStatus>)
        ensures
            transport::outcome_is(r, reserved_payload(self@, allocation)),
    {
        proof {
            use_type_invariant(&self);
        }
        match allocation {
            ShmAllocation::LayoutRejected(error) => Err(
                UStatus::fail_with_code(
                    UCode::InvalidArgument,
                    text::join("invalid Zenoh SHM layout: ", error.as_str()),
                ),
            ),
            ShmAllocation::Exhausted(error) => Err(
                UStatus::fail_with_code(
                    UCode::ResourceExhausted,
                    text::join("failed to allocate Zenoh SHM payload: ", error.as_str()),
                ),
            ),
            ShmAllocation::ResizeFailed => Err(
                UStatus::fail_with(UCode::Internal, "failed to resize Zenoh SHM payload buffer"),
            ),
            ShmAllocation::Allocated { payload, len, address } => {
                if len != self.payload_len {
                    return Err(
                        UStatus::fail_with(
                            UCode::Internal,
                            "failed to resize Zenoh SHM payload buffer",
                        ),
                    );
                }
                if address % self.alignment != 0 {
                    let mut message = text::join(
                        "Zenoh SHM payload address 0x",
                        text::to_numeral(address as u64, 16, false).as_str(),
                    );
                    message.append(" does not satisfy requested alignment ");
                    message.append(text::to_numeral(self.alignment as u64, 10, false).as_str());
                    return Err(UStatus::fail_with_code(UCode::Internal, message));
                }
                Ok(
                    TxParts {
                        metadata: self.metadata,
                        zenoh_key: self.zenoh_key,
                        attachment: self.attachment,
                        priority: self.priority,
                        payload_len: self.payload_len,
                        payload: ZenohTxPayload::Shm(payload),
                    },
                )
            },
        }
    }
}

/// Real Zenoh SHM zero-copy selected-wire transport core.
///
/// `Z` is the session, `P` the provider of shared memory and `S` the subscriber of a
/// listener.
pub struct ZenohZeroCopyCore<Z, P, S> {
    mechanics: ZenohWireMechanics<Z, P>,
    subscriber_map: Table<ListenerKey, S>,
}

impl<Z, P, S> ZenohZeroCopyCore<Z, P, S> {
    pub closed spec fn spec_session(self) -> Z {
        self.mechanics.spec_session()
    }

    /// The address of the local entity.
    pub closed spec fn spec_uri(self) -> UriView {
        self.mechanics.spec_uri()
    }

    /// The size of the shared memory segment.
    pub closed spec fn segment_size(self) -> usize {
        self.mechanics.segment_size()
    }

    /// What came of the initialisation of the provider, once it took place.
    pub closed spec fn provider_init(self) -> Option<Result<P, Seq<char>>> {
        self.mechanics.provider_init()
    }

    /// The subscribers of the registered listeners.
    pub closed spec fn subscribers(self) -> Map<(Seq<char>, u64), S> {
        self.subscriber_map@
    }

    pub fn session(&self) -> (session: &Z)
        ensures
            *session == self.spec_session(),
    {
        self.mechanics.session()
    }

    /// The provider of shared memory, or why there is none, once it was asked for.
    pub fn shm_provider(&self) -> (r: Option<Result<&P, UStatus>>)
        ensures
            match self.provider_init() {
                None => r is None,
                Some(init) => match mechanics::provider_result(init) {
                    Ok(provider) => r matches Some(Ok(p)) && *p == provider,
                    Err(failure) => r matches Some(Err(e)) && e@ == failure,
                },
            },
    {
        self.mechanics.shm_provider()
    }

    /// Keeps what came of the initialisation of the provider, unless one took place before.
    pub fn init_shm_provider(&mut self, outcome: Result<P, String>)
        ensures
            final(self).spec_session() == old(self).spec_session(),
            final(self).spec_uri() == old(self).spec_uri(),
            final(self).segment_size() == old(self).segment_size(),
            final(self).subscribers() == old(self).subscribers(),
            final(self).provider_init() == (match old(self).provider_init() {
                Some(init) => Some(init),
                None => Some(
                    match outcome {
                        Ok(provider) => Ok(provider),
                        Err(error) => Err(error@),
                    },
                ),
            }),
    {
        self.mechanics.init_shm_provider(outcome)
    }

    /// Decides what is to be done to lend a buffer for a prepared frame.
    pub fn reserve_tx_parts<M>(&self, spec: PreparedTxLoanSpec) -> (r: Result<LoanStep<M>, UStatus>)
        requires
            spec@.payload_alignment > 0,
        ensures
            transport::outcome_is(
                r,
                loan_step::<M, P>(
                    self.spec_uri().authority_name,
                    spec@,
                    self.segment_size(),
                    self.provider_init(),
                ),
            ),
    {
        if !spec.has_payload && spec.payload_len != 0 {
            return Err(
                UStatus::fail_with(
                    UCode::InvalidArgument,
                    "message payload is present but payload encoding is absent",
                ),
            );
        }
        let zenoh_key = spec.metadata.zenoh_key(self.mechanics.uri());
        let priority = spec.metadata.zenoh_priority();
        if spec.payload_len == 0 {
            return Ok(
                LoanStep::Ready(
                    TxParts {
                        metadata: spec.metadata,
                        zenoh_key,
                        attachment: spec.encoded_metadata,
                        priority,
                        payload_len: 0,
                        payload: ZenohTxPayload::Empty,
                    },
                ),
            );
        }
        match self.mechanics.shm_provider() {
            None => {
                return Ok(
                    LoanStep::InitProvider {
                        spec,
                        segment_size: self.mechanics.shm_segment_size(),
                    },
                );
            },
            Some(Err(status)) => {
                return Err(status);
            },
            Some(Ok(_)) => {},
        }
        match align_len(spec.payload_len, spec.payload_alignment) {
            Ok(len) => Ok(
                LoanStep::Allocate(
                    ShmLoan {
                        metadata: spec.metadata,
                        zenoh_key,
                        attachment: spec.encoded_metadata,
                        priority,
                        payload_len: spec.payload_len,
                        alignment: spec.payload_alignment,
                        aligned_len: len,
                    },
                ),
            ),
            Err(status) => Err(status),
        }
    }
}

/// A builder of zero-copy cores.
///
/// Without a configuration of its own the core uses the default one, and without a size of
/// its own for the shared memory segment the default size.
pub struct ZenohZeroCopyCoreBuilder {
    config: Option<zenoh::Config>,
    uri: String,
    shm_segment_size: Option<usize>,
}

/// A zero-copy core that waits for its session.
pub struct PendingZeroCopyCore {
    uri: String,
    shm_segment_size: Option<usize>,
}

impl PendingZeroCopyCore {
    pub closed spec fn spec_uri(self) -> Seq<char> {
        self.uri@
    }

    pub closed spec fn segment_size(self) -> Option<usize> {
        self.shm_segment_size
    }

    #[verifier::type_invariant]
    spec fn well_formed(self) -> bool {
        self.shm_segment_size != Some(0usize)
    }

    /// Takes what came of opening the session.
    pub fn session_opened<Z, P, S>(self, opened: Result<Z, String>) -> (r: Result<
        ZenohZeroCopyCore<Z, P, S>,
        UStatus,
    >)
        ensures
            opened is Err ==> (r matches Err(e) && e@ == status::failure(
                UCode::Internal,
                "Unable to open Zenoh session"@,
            )),
            opened matches Ok(session) ==> match mechanics::local_uri_verdict(
                uri::parsed_uri(self.spec_uri()),
            ) {
                Ok(local) => r matches Ok(core) && {
                    &&& core.spec_session() == session
                    &&& core.spec_uri() == local
                    &&& core.segment_size() == (match self.segment_size() {
                        Some(size) => size,
                        None => mechanics::DEFAULT_SHM_SEGMENT_SIZE,
                    })
                    &&& core.provider_init() is None
                    &&& core.subscribers() == Map::<(Seq<char>, u64), S>::empty()
                },
                Err(message) => r matches Err(e) && e@ == status::failure(
                    UCode::InvalidArgument,
                    message,
                ),
            },
            r matches Ok(core) ==> uri::parsed_uri(self.spec_uri()) == Some(core.spec_uri()),
    {
        proof {
            use_type_invariant(&self);
        }
        let mut mechanics = match ZenohWireMechanics::new(opened, self.uri.as_str()) {
            Ok(mechanics) => mechanics,
            Err(status) => {
                return Err(status);
            },
        };
        if let Some(shm_segment_size) = self.shm_segment_size {
            if let Err(status) = mechanics.set_shm_segment_size(shm_segment_size) {
                return Err(status);
            }
        }
        Ok(ZenohZeroCopyCore { mechanics, subscriber_map: Table::new() })
    }
}

impl ZenohZeroCopyCore<(), (), ()> {
    /// Begins to create a zero-copy core with a configuration and the URI of the local
    /// entity.
    pub fn new(config: zenoh::Config, uri: String) -> (r: (zenoh::Config, PendingZeroCopyCore))
        ensures
            r.0 == config,
            r.1.spec_uri() == uri@,
            r.1.segment_size() is None,
    {
        Self::builder(uri).with_config(config).build()
    }

    /// Starts a builder for an independently constructed zero-copy core.
    #[must_use]
    pub fn builder(uri: String) -> (builder: ZenohZeroCopyCoreBuilder)
        ensures
            builder.spec_config() is None,
            builder.spec_uri() == uri@,
            builder.segment_size() is None,
    {
        ZenohZeroCopyCoreBuilder { config: None, uri, shm_segment_size: None }
    }
}

impl ZenohZeroCopyCoreBuilder {
    /// The configuration that was chosen.
    pub closed spec fn spec_config(self) -> Option<zenoh::Config> {
        self.config
    }

    /// The URI of the local entity.
    pub closed spec fn spec_uri(self) -> Seq<char> {
        self.uri@
    }

    /// The size of the shared memory segment that was chosen.
    pub closed spec fn segment_size(self) -> Option<usize> {
        self.shm_segment_size
    }

    #[verifier::type_invariant]
    spec fn well_formed(self) -> bool {
        self.shm_segment_size != Some(0usize)
    }

    /// Overrides the Zenoh configuration used to open the core's session.
    #[must_use]
    pub fn with_config(self, config: zenoh::Config) -> (builder: Self)
        ensures
            builder.spec_config() == Some(config),
            builder.spec_uri() == self.spec_uri(),
            builder.segment_size() == self.segment_size(),
    {
        proof {
            use_type_invariant(&self);
        }
        ZenohZeroCopyCoreBuilder {
            config: Some(config),
            uri: self.uri,
            shm_segment_size: self.shm_segment_size,
        }
    }

    /// Overrides the SHM provider segment size used by transmit loans.
    ///
    /// A size of zero is refused.
    pub fn with_shm_segment_size(self, shm_segment_size: usize) -> (r: Result<Self, UStatus>)
        ensures
            shm_segment_size == 0 ==> (r matches Err(e) && e@ == status::failure(
                UCode::InvalidArgument,
                "Zenoh SHM segment size must be non-zero"@,
            )),
            shm_segment_size != 0 ==> (r matches Ok(builder) && builder.segment_size() == Some(
                shm_segment_size,
            ) && builder.spec_config() == self.spec_config() && builder.spec_uri()
                == self.spec_uri()),
    {
        if shm_segment_size == 0 {
            return Err(
                UStatus::fail_with(
                    UCode::InvalidArgument,
                    "Zenoh SHM segment size must be non-zero",
                ),
            );
        }
        Ok(
            ZenohZeroCopyCoreBuilder {
                config: self.config,
                uri: self.uri,
                shm_segment_size: Some(shm_segment_size),
            },
        )
    }

    /// Begins to build the core: gives the configuration that its session is to be opened
    /// with.
    pub fn build(self) -> (r: (zenoh::Config, PendingZeroCopyCore))
        ensures
            self.spec_config() matches Some(config) ==> r.0 == config,
            r.1.spec_uri() == self.spec_uri(),
            r.1.segment_size() == self.segment_size(),
    {
        proof {
            use_type_invariant(&self);
        }
        let config = config::config_or_default(self.config);
        (config, PendingZeroCopyCore { uri: self.uri, shm_segment_size: self.shm_segment_size })
    }
}

/// A frame to put on a key.
#[derive(Debug)]
pub struct FramePut<M> {
    pub key: String,
    pub payload: ZenohTxPayload<M>,
    pub attachment: Vec<u8>,
    pub priority: Priority,
}

impl<M> ZenohTxBuffer<M> {
    /// What is to be put to send the frame of this buffer.
    pub fn send_prepared_zero_copy(self) -> (put: FramePut<M>)
        ensures
            put.key@ == self@.key,
            put.payload == self@.payload,
            put.attachment@ == self@.attachment,
            put.priority == self@.priority,
    {
        FramePut {
            key: self.zenoh_key,
            payload: self.payload,
            attachment: self.attachment,
            priority: self.priority,
        }
    }
}

/// The outcome of putting a frame.
pub fn frame_put(outcome: Result<(), String>) -> (r: Result<(), UStatus>)
    ensures
        match outcome {
            Ok(_) => r is Ok,
            Err(error) => r matches Err(e) && e@ == status::failure(
                UCode::Internal,
                "failed to put Zenoh frame: "@ + error@,
            ),
        },
{
    match outcome {
        Ok(_) => Ok(()),
        Err(error) => Err(UStatus::internal("failed to put Zenoh frame: ", error.as_str())),
    }
}

/// The outcome of declaring the subscriber of a receiver.
pub fn zero_copy_subscriber_declared<S>(outcome: Result<S, String>) -> (r: Result<S, UStatus>)
    ensures
        match outcome {
            Ok(subscriber) => r matches Ok(s) && s == subscriber,
            Err(error) => r matches Err(e) && e@ == status::failure(
                UCode::Internal,
                "failed to declare Zenoh subscriber: "@ + error@,
            ),
        },
{
    match outcome {
        Ok(subscriber) => Ok(subscriber),
        Err(error) => Err(UStatus::internal("failed to declare Zenoh subscriber: ", error.as_str())),
    }
}

/// The outcome of undeclaring the subscriber of a listener that was taken out.
pub fn zero_copy_listener_undeclared(outcome: Result<(), String>) -> (r: Result<(), UStatus>)
    ensures
        match outcome {
            Ok(_) => r is Ok,
            Err(error) => r matches Err(e) && e@ == status::failure(
                UCode::Internal,
                "failed to undeclare zero-copy listener: "@ + error@,
            ),
        },
{
    match outcome {
        Ok(_) => Ok(()),
        Err(error) => Err(UStatus::internal("failed to undeclare zero-copy listener: ", error.as_str())),
    }
}

/// A sample as it arrives, with what is known of its payload.
#[derive(Debug)]
pub struct ZeroCopySample<X> {
    pub attachment: Option<Vec<u8>>,
    pub payload_len: usize,
    /// Whether the payload is in shared memory.
    pub shm_backed: bool,
    pub sample: X,
}

/// A frame as it was received, with its metadata still encoded.
#[derive(Debug)]
pub struct ZenohRxFrame<X> {
    encoded_metadata: Vec<u8>,
    sample: X,
}

impl<X> ZenohRxFrame<X> {
    /// The encoded metadata.
    pub closed spec fn spec_metadata(self) -> Seq<u8> {
        self.encoded_metadata@
    }

    pub closed spec fn spec_sample(self) -> X {
        self.sample
    }

    fn new(encoded_metadata: Vec<u8>, sample: X) -> (frame: Self)
        ensures
            frame.spec_metadata() == encoded_metadata@,
            frame.spec_sample() == sample,
    {
        ZenohRxFrame { encoded_metadata, sample }
    }

    #[must_use]
    pub fn sample(&self) -> (sample: &X)
        ensures
            *sample == self.spec_sample(),
    {
        &self.sample
    }

    pub fn encoded_metadata(&self) -> (bytes: &[u8])
        ensures
            bytes@ == self.spec_metadata(),
    {
        self.encoded_metadata.as_slice()
    }
}

/// The payload that a list of pieces makes up, if there are not several of them.
pub fn try_contiguous_payload<'a>(pieces: &Vec<&'a [u8]>) -> (r: Option<&'a [u8]>)
    ensures
        match r {
            Some(payload) => pieces@.len() <= 1 && payload@ == frame::whole_payload(pieces@),
            None => pieces@.len() > 1,
        },
{
    if pieces.len() == 0 {
        let empty: &'a [u8] = &[];
        assert(empty@ =~= frame::whole_payload(pieces@));
        Some(empty)
    } else if pieces.len() == 1 {
        proof {
            frame::law_single_piece_is_whole_payload(pieces@[0]);
            assert(pieces@ =~= seq![pieces@[0]]);
        }
        Some(pieces[0])
    } else {
        None
    }
}

/// The lease of a payload in shared memory, if it is there.
pub fn loaned_contiguous_payload<M>(shm: Option<M>) -> (r: Result<M, String>)
    ensures
        match shm {
            Some(lease) => r matches Ok(m) && m == lease,
            None => r matches Err(message) && message@
                == "zero-copy Zenoh receive payload is not SHM-backed"@,
        },
{
    match shm {
        Some(lease) => Ok(lease),
        None => Err("zero-copy Zenoh receive payload is not SHM-backed".to_string()),
    }
}

/// Whether a payload may be handed out: it is empty, or it is in shared memory.
pub open spec fn strict_shm(payload_len: usize, shm_backed: bool) -> bool {
    payload_len == 0 || shm_backed
}

/// The status for a payload that is not in shared memory.
pub open spec fn not_shm() -> StatusView {
    status::failure(
        UCode::FailedPrecondition,
        "zero-copy Zenoh receive requires SHM-backed payload bytes"@,
    )
}

/// Checks that a payload may be handed out.
pub fn ensure_strict_shm_payload(payload_len: usize, shm_backed: bool) -> (r: Result<(), UStatus>)
    ensures
        match r {
            Ok(_) => strict_shm(payload_len, shm_backed),
            Err(e) => !strict_shm(payload_len, shm_backed) && e@ == not_shm(),
        },
{
    if payload_len == 0 || shm_backed {
        return Ok(());
    }
    Err(
        UStatus::fail_with(
            UCode::FailedPrecondition,
            "zero-copy Zenoh receive requires SHM-backed payload bytes",
        ),
    )
}

/// What a receiver does after it waited for a sample.
#[derive(Debug)]
pub enum ZeroCopyReceiveStep<X> {
    /// It waits for the next sample.
    Wait,
    /// It hands out a frame.
    Frame(ZenohRxFrame<X>),
    /// It gives up.
    Failed(UStatus),
}

/// Decides what a receiver does after it waited for a sample.
///
/// Samples without an attachment are passed over. A payload that is not in shared memory
/// is an error.
pub fn zero_copy_sample_received<X>(received: Result<ZeroCopySample<X>, String>) -> (step:
    ZeroCopyReceiveStep<X>)
    ensures
        match received {
            Err(error) => step matches ZeroCopyReceiveStep::Failed(e) && e@ == status::failure(
                UCode::Internal,
                "failed to receive Zenoh sample: "@ + error@,
            ),
            Ok(sample) => match sample.attachment {
                None => step is Wait,
                Some(attachment) => if strict_shm(sample.payload_len, sample.shm_backed) {
                    step matches ZeroCopyReceiveStep::Frame(frame) && frame.spec_metadata()
                        == attachment@ && frame.spec_sample() == sample.sample
                } else {
                    step matches ZeroCopyReceiveStep::Failed(e) && e@ == not_shm()
                },
            },
        },
{
    let sample = match received {
        Ok(sample) => sample,
        Err(error) => {
            return ZeroCopyReceiveStep::Failed(
                UStatus::internal("failed to receive Zenoh sample: ", error.as_str()),
            );
        },
    };
    let attachment = match sample.attachment {
        Some(attachment) => attachment,
        None => {
            return ZeroCopyReceiveStep::Wait;
        },
    };
    if let Err(status) = ensure_strict_shm_payload(sample.payload_len, sample.shm_backed) {
        return ZeroCopyReceiveStep::Failed(status);
    }
    ZeroCopyReceiveStep::Frame(ZenohRxFrame::new(attachment, sample.sample))
}

/// Decides whether a sample that arrives for a listener is delivered.
///
/// A sample without an attachment, or with a payload that is not in shared memory, is
/// dropped.
pub fn zero_copy_sample_delivered<X>(sample: ZeroCopySample<X>) -> (r: Option<ZenohRxFrame<X>>)
    ensures
        match r {
            Some(frame) => {
                &&& sample.attachment matches Some(attachment) && frame.spec_metadata()
                    == attachment@
                &&& strict_shm(sample.payload_len, sample.shm_backed)
                &&& frame.spec_sample() == sample.sample
            },
            None => sample.attachment is None || !strict_shm(
                sample.payload_len,
                sample.shm_backed,
            ),
        },
{
    let attachment = match sample.attachment {
        Some(attachment) => attachment,
        None => {
            return None;
        },
    };
    if ensure_strict_shm_payload(sample.payload_len, sample.shm_backed).is_err() {
        return None;
    }
    Some(ZenohRxFrame::new(attachment, sample.sample))
}

impl<Z, P, S> ZenohZeroCopyCore<Z, P, S> {
    /// The key expression to subscribe to in order to receive frames.
    pub fn receive_encoded_zero_copy(&self, source_filter: &UUri, sink_filter: Option<&UUri>) -> (key:
        String)
        ensures
            key@ == key::zenoh_key(
                self.spec_uri().authority_name,
                source_filter@,
                uri::opt_uri(sink_filter),
            ),
    {
        self.mechanics.to_zenoh_key_string(source_filter, sink_filter)
    }

    /// Begins to register a listener: gives the key expression to declare a subscriber for,
    /// unless the listener is registered already.
    pub fn register_encoded_zero_copy_listener(
        &self,
        source_filter: &UUri,
        sink_filter: Option<&UUri>,
        listener: u64,
    ) -> (r: Option<String>)
        ensures
            ({
                let key = key::zenoh_key(
                    self.spec_uri().authority_name,
                    source_filter@,
                    uri::opt_uri(sink_filter),
                );
                match r {
                    Some(k) => !self.subscribers().contains_key((key, listener)) && k@ == key,
                    None => self.subscribers().contains_key((key, listener)),
                }
            }),
    {
        let zenoh_key = self.mechanics.to_zenoh_key_string(source_filter, sink_filter);
        if self.subscriber_map.contains_key(&ListenerKey::new(zenoh_key.as_str(), listener)) {
            None
        } else {
            Some(zenoh_key)
        }
    }

    /// Ends the registration of a listener with what came of the declaration of its
    /// subscriber.
    pub fn zero_copy_listener_declared(
        &mut self,
        zenoh_key: &str,
        listener: u64,
        declared: Result<S, String>,
    ) -> (r: Result<(), UStatus>)
        ensures
            final(self).spec_session() == old(self).spec_session(),
            final(self).spec_uri() == old(self).spec_uri(),
            final(self).segment_size() == old(self).segment_size(),
            final(self).provider_init() == old(self).provider_init(),
            match declared {
                Ok(subscriber) => {
                    &&& r is Ok
                    &&& final(self).subscribers() == old(self).subscribers().insert(
                        (zenoh_key@, listener),
                        subscriber,
                    )
                },
                Err(error) => {
                    &&& r matches Err(e) && e@ == status::failure(
                        UCode::Internal,
                        "failed to register zero-copy listener: "@ + error@,
                    )
                    &&& final(self).subscribers() == old(self).subscribers()
                },
            },
    {
        match declared {
            Ok(subscriber) => {
                self.subscriber_map.insert(ListenerKey::new(zenoh_key, listener), subscriber);
                Ok(())
            },
            Err(error) => Err(UStatus::internal("failed to register zero-copy listener: ", error.as_str())),
        }
    }

    /// Takes out a listener and gives its subscriber.
    pub fn unregister_encoded_zero_copy_listener(
        &mut self,
        source_filter: &UUri,
        sink_filter: Option<&UUri>,
        listener: u64,
    ) -> (r: Result<S, UStatus>)
        ensures
            final(self).spec_session() == old(self).spec_session(),
            final(self).spec_uri() == old(self).spec_uri(),
            final(self).segment_size() == old(self).segment_size(),
            final(self).provider_init() == old(self).provider_init(),
            ({
                let entry = (
                    key::zenoh_key(
                        old(self).spec_uri().authority_name,
                        source_filter@,
                        uri::opt_uri(sink_filter),
                    ),
                    listener,
                );
                &&& final(self).subscribers() == old(self).subscribers().remove(entry)
                &&& match r {
                    Ok(subscriber) => old(self).subscribers().contains_key(entry) && subscriber
                        == old(self).subscribers()[entry],
                    Err(e) => !old(self).subscribers().contains_key(entry) && e@
                        == status::failure(
                        UCode::NotFound,
                        "zero-copy listener not registered"@,
                    ),
                }
            }),
    {
        let zenoh_key = self.mechanics.to_zenoh_key_string(source_filter, sink_filter);
        match self.subscriber_map.remove(&ListenerKey::new(zenoh_key.as_str(), listener)) {
            Some(subscriber) => Ok(subscriber),
            None => Err(UStatus::fail_with(UCode::NotFound, "zero-copy listener not registered")),
        }
    }
}

/// A payload is lent exactly if it has the length that was asked for and stands at an
/// address that satisfies the alignment that was asked for.
pub proof fn law_lent_payload_has_length_and_alignment<M>(
    loan: ShmLoanView,
    payload: M,
    len: usize,
    address: usize,
)
    requires
        loan.alignment > 0,
    ensures
        ({
            let reserved = reserved_payload(
                loan,
                ShmAllocation::Allocated { payload, len, address },
            );
            &&& reserved is Ok <==> len == loan.payload_len && address % loan.alignment == 0
            &&& reserved matches Ok(parts) ==> parts.payload_len == loan.payload_len
                && parts.payload == ZenohTxPayload::Shm(payload)
        }),
{
}

/// No buffer is lent for a payload without an encoding, and a frame without a payload takes
/// no shared memory.
pub proof fn law_empty_payload_takes_no_memory<M, P>(
    local: Seq<char>,
    spec: LoanSpecView,
    segment_size: usize,
    provider: Option<Result<P, Seq<char>>>,
)
    ensures
        !spec.has_payload && spec.payload_len > 0 ==> loan_step::<M, P>(
            local,
            spec,
            segment_size,
            provider,
        ) is Err,
        spec.payload_len == 0 ==> (loan_step::<M, P>(local, spec, segment_size, provider) matches Ok(
            LoanStepView::Ready(parts),
        ) && parts.payload is Empty && parts.payload_len == 0),
{
}

/// To take out a listener that was not registered before it was registered restores the
/// subscribers from before.
pub proof fn law_unregister_undoes_register<S>(
    before: Map<(Seq<char>, u64), S>,
    entry: (Seq<char>, u64),
    subscriber: S,
)
    requires
        !before.contains_key(entry),
    ensures
        before.insert(entry, subscriber).contains_key(entry),
        before.insert(entry, subscriber).remove(entry) == before,
{
    assert(before.insert(entry, subscriber).remove(entry) =~= before);
}

/// A buffer is for the frame that was asked for: whether it has a payload or still needs
/// room for one, it has the metadata, the key, the attachment and the priority of the frame.
pub proof fn law_loan_is_for_the_frame<M, P>(
    local: Seq<char>,
    spec: LoanSpecView,
    segment_size: usize,
    provider: Option<Result<P, Seq<char>>>,
)
    ensures
        match loan_step::<M, P>(local, spec, segment_size, provider) {
            Ok(LoanStepView::Ready(parts)) => {
                &&& spec.payload_len == 0
                &&& parts.metadata == spec.metadata
                &&& parts.key == key::zenoh_key(local, spec.metadata.source, spec.metadata.sink)
                &&& parts.attachment == spec.encoded_metadata
                &&& match spec.metadata.priority {
                    Some(class) => parts.priority.rank() == class.rank(),
                    None => parts.priority == Priority::DataLow,
                }
            },
            Ok(LoanStepView::InitProvider { spec: asked, segment_size: size }) => {
                &&& spec.payload_len > 0
                &&& provider is None
                &&& asked == spec
                &&& size == segment_size
            },
            Ok(LoanStepView::Allocate(loan)) => {
                &&& spec.payload_len > 0
                &&& provider matches Some(Ok(_))
                &&& loan.metadata == spec.metadata
                &&& loan.key == key::zenoh_key(local, spec.metadata.source, spec.metadata.sink)
                &&& loan.attachment == spec.encoded_metadata
                &&& match spec.metadata.priority {
                    Some(class) => loan.priority.rank() == class.rank(),
                    None => loan.priority == Priority::DataLow,
                }
                &&& loan.payload_len == spec.payload_len
                &&& loan.alignment == spec.payload_alignment
            },
            Err(_) => spec.payload_len > 0,
        },
{
}

/// Why no buffer is lent: for a payload without an encoding, for want of a provider, or for
/// a payload that no length can hold with its alignment. For any other payload room is
/// asked for, once there is a provider.
pub proof fn law_reasons_for_no_loan<M, P>(
    local: Seq<char>,
    spec: LoanSpecView,
    segment_size: usize,
    provider: P,
    error: Seq<char>,
)
    requires
        spec.payload_len > 0,
        spec.payload_alignment > 0,
    ensures
        !spec.has_payload ==> (loan_step::<M, P>(
            local,
            spec,
            segment_size,
            Some(Ok(provider)),
        ) matches Err(s) && s.code == UCode::InvalidArgument && s.message
            == "message payload is present but payload encoding is absent"@),
        spec.has_payload ==> (loan_step::<M, P>(
            local,
            spec,
            segment_size,
            Some(Err(error)),
        ) matches Err(s) && s.code == UCode::Internal && s.message
            == "failed to initialize Zenoh SHM provider: "@ + error),
        spec.has_payload ==> (loan_step::<M, P>(local, spec, segment_size, None) matches Ok(
            LoanStepView::InitProvider { .. },
        )),
        spec.has_payload && spec.payload_len + spec.payload_alignment <= usize::MAX ==> (loan_step::<
            M,
            P,
        >(local, spec, segment_size, Some(Ok(provider))) matches Ok(LoanStepView::Allocate(_))),
        spec.has_payload ==> (loan_step::<M, P>(
            local,
            spec,
            segment_size,
            Some(Ok(provider)),
        ) matches Err(s) ==> s.code == UCode::InvalidArgument && s.message
            == "payload length overflow"@),
{
    law_aligned_len_is_least_multiple(spec.payload_len as nat, spec.payload_alignment as nat, 0);
}

/// A frame with room for its payload is the frame that needed it.
pub proof fn law_room_is_for_the_frame<M>(loan: ShmLoanView, allocation: ShmAllocation<M>)
    ensures
        reserved_payload(loan, allocation) matches Ok(parts) ==> {
            &&& parts.metadata == loan.metadata
            &&& parts.key == loan.key
            &&& parts.attachment == loan.attachment
            &&& parts.priority == loan.priority
            &&& parts.payload_len == loan.payload_len
            &&& allocation matches ShmAllocation::Allocated { payload, .. } && parts.payload
                == ZenohTxPayload::Shm(payload)
        },
{
}

/// Why room that was asked for is not lent: the provider has no layout, has no room or could
/// not shrink it, or it is at a place that does not satisfy the alignment.
pub proof fn law_reasons_for_no_room<M>(
    loan: ShmLoanView,
    error: String,
    payload: M,
    len: usize,
    address: usize,
)
    requires
        loan.alignment > 0,
    ensures
        reserved_payload::<M>(loan, ShmAllocation::LayoutRejected(error)) matches Err(s) && s.code
            == UCode::InvalidArgument && s.message == "invalid Zenoh SHM layout: "@ + error@,
        reserved_payload::<M>(loan, ShmAllocation::Exhausted(error)) matches Err(s) && s.code
            == UCode::ResourceExhausted && s.message == "failed to allocate Zenoh SHM payload: "@
            + error@,
        reserved_payload::<M>(loan, ShmAllocation::ResizeFailed) matches Err(s) && s.code
            == UCode::Internal && s.message == "failed to resize Zenoh SHM payload buffer"@,
        len != loan.payload_len ==> (reserved_payload(
            loan,
            ShmAllocation::Allocated { payload, len, address },
        ) matches Err(s) && s.code == UCode::Internal && s.message
            == "failed to resize Zenoh SHM payload buffer"@),
        len == loan.payload_len && address % loan.alignment != 0 ==> (reserved_payload(
            loan,
            ShmAllocation::Allocated { payload, len, address },
        ) matches Err(s) && s.code == UCode::Internal && s.message
            == "Zenoh SHM payload address 0x"@ + text::numeral(address as nat, 16, false)
            + " does not satisfy requested alignment "@ + text::numeral(
            loan.alignment as nat,
            10,
            false,
        )),
{
}

/// A payload is handed out exactly if it is in shared memory or empty; that it is not there
/// is a precondition that failed.
pub proof fn law_only_shared_memory_is_handed_out(payload_len: usize, shm_backed: bool)
    ensures
        shm_backed ==> strict_shm(payload_len, shm_backed),
        !shm_backed ==> (strict_shm(payload_len, shm_backed) <==> payload_len == 0),
        not_shm().code == UCode::FailedPrecondition,
        not_shm().message == "zero-copy Zenoh receive requires SHM-backed payload bytes"@,
{
}

/// The model of a step holds every part of it.
pub proof fn law_loan_steps_are_all_their_parts<M>(
    parts: TxParts<M>,
    spec: PreparedTxLoanSpec,
    segment_size: usize,
    loan: ShmLoan,
)
    ensures
        LoanStep::Ready(parts)@ == LoanStepView::Ready(parts@),
        (LoanStep::<M>::InitProvider { spec, segment_size })@ == (LoanStepView::<M>::InitProvider {
            spec: spec@,
            segment_size,
        }),
        LoanStep::<M>::Allocate(loan)@ == LoanStepView::<M>::Allocate(loan@),
{
}

} // verus!
