//! A core that keeps frames in memory, to try out a selected wire without a session.
use crate::frame::{self, LoanSpecView, MetadataView, PreparedTxLoanSpec, UFrameMetadata};
use crate::status::{self, UCode, UStatus};
use crate::uri::UUri;
use std::collections::VecDeque;
use vstd::prelude::*;

verus! {

/// Prepared metadata bytes carried in the Zenoh user attachment slot.
#[derive(Debug, PartialEq, Eq)]
pub struct ZenohPreparedAttachment {
    encoded_metadata: Vec<u8>,
}

impl View for ZenohPreparedAttachment {
    type V = Seq<u8>;

    closed spec fn view(&self) -> Seq<u8> {
        self.encoded_metadata@
    }
}

impl Clone for ZenohPreparedAttachment {
    fn clone(&self) -> (copy: ZenohPreparedAttachment)
        ensures
            copy@ == self@,
    {
        ZenohPreparedAttachment {
            encoded_metadata: frame::copy_bytes(self.encoded_metadata.as_slice()),
        }
    }
}

impl ZenohPreparedAttachment {
    /// Creates the attachment of a prepared frame.
    fn from_prepared(spec: &PreparedTxLoanSpec) -> (attachment: ZenohPreparedAttachment)
        ensures
            attachment@ == spec@.encoded_metadata,
    {
        ZenohPreparedAttachment {
            encoded_metadata: frame::copy_bytes(spec.encoded_metadata.as_slice()),
        }
    }

    /// Creates an attachment from already prepared metadata bytes.
    #[must_use]
    pub fn from_encoded_metadata(encoded_metadata: Vec<u8>) -> (attachment: ZenohPreparedAttachment)
        ensures
            attachment@ == encoded_metadata@,
    {
        ZenohPreparedAttachment { encoded_metadata }
    }

    /// Returns the attachment bytes.
    #[must_use]
    pub fn as_bytes(&self) -> (bytes: &[u8])
        ensures
            bytes@ == self@,
    {
        self.encoded_metadata.as_slice()
    }

    /// Returns the attachment length in bytes.
    #[must_use]
    pub fn len(&self) -> (n: usize)
        ensures
            n == self@.len(),
    {
        self.encoded_metadata.len()
    }

    /// Returns true when the attachment is empty.
    #[must_use]
    pub fn is_empty(&self) -> (b: bool)
        ensures
            b == (self@.len() == 0),
    {
        self.encoded_metadata.len() == 0
    }
}

/// A buffer that the payload of a frame is written to before the frame is sent.
#[derive(Debug)]
pub struct ZenohTxBuffer {
    attachment: ZenohPreparedAttachment,
    metadata: UFrameMetadata,
    buffer: Vec<u8>,
}

/// A buffer as a mathematical value.
#[verifier::ext_equal]
pub struct TxBufferView {
    pub attachment: Seq<u8>,
    pub metadata: MetadataView,
    pub payload: Seq<u8>,
}

impl View for ZenohTxBuffer {
    type V = TxBufferView;

    closed spec fn view(&self) -> TxBufferView {
        TxBufferView {
            attachment: self.attachment@,
            metadata: self.metadata@,
            payload: self.buffer@,
        }
    }
}

impl ZenohTxBuffer {
    /// Returns the prepared attachment bytes.
    #[must_use]
    pub fn attachment(&self) -> (attachment: &ZenohPreparedAttachment)
        ensures
            attachment@ == self@.attachment,
    {
        &self.attachment
    }

    pub fn metadata(&self) -> (metadata: &UFrameMetadata)
        ensures
            metadata@ == self@.metadata,
    {
        &self.metadata
    }

    pub fn payload(&self) -> (payload: &[u8])
        ensures
            payload@ == self@.payload,
    {
        self.buffer.as_slice()
    }

    /// The payload, to be written to.
    pub fn payload_mut(&mut self) -> (payload: &mut [u8])
        ensures
            payload@ == old(self)@.payload,
            final(self)@ == (TxBufferView { payload: final(payload)@, ..old(self)@ }),
    {
        self.buffer.as_mut_slice()
    }

    fn into_encoded_rx(self) -> (frame: ZenohEncodedRxFrame)
        ensures
            frame@ == (RxFrameView { attachment: self@.attachment, payload: self@.payload }),
    {
        ZenohEncodedRxFrame { attachment: self.attachment, payload: self.buffer }
    }
}

/// A frame as it was received, with its metadata still encoded.
#[derive(Debug, PartialEq, Eq)]
pub struct ZenohEncodedRxFrame {
    attachment: ZenohPreparedAttachment,
    payload: Vec<u8>,
}

/// A received frame as a mathematical value.
#[verifier::ext_equal]
pub struct RxFrameView {
    pub attachment: Seq<u8>,
    pub payload: Seq<u8>,
}

impl View for ZenohEncodedRxFrame {
    type V = RxFrameView;

    closed spec fn view(&self) -> RxFrameView {
        RxFrameView { attachment: self.attachment@, payload: self.payload@ }
    }
}

impl Clone for ZenohEncodedRxFrame {
    fn clone(&self) -> (copy: ZenohEncodedRxFrame)
        ensures
            copy@ == self@,
    {
        ZenohEncodedRxFrame {
            attachment: self.attachment.clone(),
            payload: frame::copy_bytes(self.payload.as_slice()),
        }
    }
}

impl ZenohEncodedRxFrame {
    /// Creates a raw encoded receive frame from attachment bytes and payload.
    #[must_use]
    pub fn new(attachment: ZenohPreparedAttachment, payload: Vec<u8>) -> (frame:
        ZenohEncodedRxFrame)
        ensures
            frame@ == (RxFrameView { attachment: attachment@, payload: payload@ }),
    {
        ZenohEncodedRxFrame { attachment, payload }
    }

    /// Returns the prepared attachment bytes.
    #[must_use]
    pub fn attachment(&self) -> (attachment: &ZenohPreparedAttachment)
        ensures
            attachment@ == self@.attachment,
    {
        &self.attachment
    }

    pub fn encoded_metadata(&self) -> (bytes: &[u8])
        ensures
            bytes@ == self@.attachment,
    {
        self.attachment.as_bytes()
    }

    pub fn payload_len(&self) -> (n: usize)
        ensures
            n == self@.payload.len(),
    {
        self.payload.len()
    }

    /// The payload, to be read from its beginning.
    pub fn payload_reader(&self) -> (reader: &[u8])
        ensures
            reader@ == self@.payload,
    {
        self.payload.as_slice()
    }

    /// The pieces that make up the payload, of which there is always one.
    pub fn payload_slices(&self) -> (pieces: Vec<&[u8]>)
        ensures
            pieces@.len() == 1,
            pieces@[0]@ == self@.payload,
            frame::whole_payload(pieces@) == self@.payload,
    {
        let mut pieces: Vec<&[u8]> = Vec::new();
        pieces.push(self.payload.as_slice());
        proof {
            frame::law_single_piece_is_whole_payload(pieces@[0]);
            assert(pieces@ =~= seq![pieces@[0]]);
        }
        pieces
    }

    /// The payload, which is always held in one piece.
    pub fn try_contiguous_payload(&self) -> (r: Option<&[u8]>)
        ensures
            r matches Some(payload) && payload@ == self@.payload,
    {
        Some(self.payload.as_slice())
    }
}

/// Minimal Zenoh attachment proof core that consumes prepared metadata bytes.
///
/// What is sent waits to be received, first in, first out. Listeners are told apart by a
/// number that their owner chooses.
pub struct ZenohWireCore {
    prepared: Vec<PreparedTxLoanSpec>,
    received: VecDeque<ZenohEncodedRxFrame>,
    listeners: Vec<u64>,
}

/// The state of a core as a mathematical value.
#[verifier::ext_equal]
pub struct WireCoreView {
    /// The requests for buffers, in the order in which they were made.
    pub prepared: Seq<LoanSpecView>,
    /// The frames that wait to be received.
    pub received: Seq<RxFrameView>,
    /// The registered listeners, in the order in which they were registered.
    pub listeners: Seq<u64>,
}

impl WireCoreView {
    /// The state after a frame was sent.
    pub open spec fn with_frame(self, frame: RxFrameView) -> WireCoreView {
        WireCoreView { received: self.received.push(frame), ..self }
    }

    /// The frame that is received next, if one waits.
    pub open spec fn next_frame(self) -> Option<RxFrameView> {
        if self.received.len() == 0 {
            None
        } else {
            Some(self.received.first())
        }
    }

    /// The state after a frame was received.
    pub open spec fn without_frame(self) -> WireCoreView {
        WireCoreView { received: self.received.drop_first(), ..self }
    }

    /// The state after a listener was registered.
    pub open spec fn with_listener(self, listener: u64) -> WireCoreView {
        WireCoreView { listeners: self.listeners.push(listener), ..self }
    }

    /// The state after a listener was taken out.
    pub open spec fn without_listener(self, listener: u64) -> WireCoreView {
        WireCoreView { listeners: self.listeners.remove_value(listener), ..self }
    }
}

impl View for ZenohWireCore {
    type V = WireCoreView;

    closed spec fn view(&self) -> WireCoreView {
        WireCoreView {
            prepared: self.prepared@.map_values(|spec: PreparedTxLoanSpec| spec@),
            received: self.received@.map_values(|frame: ZenohEncodedRxFrame| frame@),
            listeners: self.listeners@,
        }
    }
}

impl Default for ZenohWireCore {
    fn default() -> (core: ZenohWireCore)
        ensures
            core@ == (WireCoreView {
                prepared: Seq::empty(),
                received: Seq::empty(),
                listeners: Seq::empty(),
            }),
    {
        let core = ZenohWireCore {
            prepared: Vec::new(),
            received: VecDeque::new(),
            listeners: Vec::new(),
        };
        assert(core@.prepared =~= Seq::empty());
        assert(core@.received =~= Seq::empty());
        core
    }
}

impl ZenohWireCore {
    /// Creates an empty smoke core.
    #[must_use]
    pub fn new() -> (core: ZenohWireCore)
        ensures
            core@ == (WireCoreView {
                prepared: Seq::empty(),
                received: Seq::empty(),
                listeners: Seq::empty(),
            }),
    {
        Self::default()
    }

    /// Returns the last prepared request observed by the core.
    pub fn last_prepared(&self) -> (r: Option<PreparedTxLoanSpec>)
        ensures
            match r {
                Some(spec) => self@.prepared.len() > 0 && spec@ == self@.prepared.last(),
                None => self@.prepared.len() == 0,
            },
    {
        if self.prepared.len() == 0 {
            None
        } else {
            Some(self.prepared[self.prepared.len() - 1].clone())
        }
    }

    /// Injects one encoded receive frame for pull receive tests.
    pub fn push_encoded_rx(&mut self, frame: ZenohEncodedRxFrame)
        ensures
            final(self)@ == (WireCoreView {
                received: old(self)@.received.push(frame@),
                ..old(self)@
            }),
            final(self)@ == old(self)@.with_frame(frame@),
    {
        self.received.push_back(frame);
        assert(self@.received =~= old(self)@.received.push(frame@));
    }

    /// The deliveries of one encoded receive frame to the registered raw listeners.
    pub fn deliver_encoded_rx(&self, frame: &ZenohEncodedRxFrame) -> (deliveries: Vec<
        (u64, ZenohEncodedRxFrame),
    >)
        ensures
            deliveries@.len() == self@.listeners.len(),
            forall|i: int|
                0 <= i < deliveries@.len() ==> (#[trigger] deliveries@[i]).0 == self@.listeners[i]
                    && deliveries@[i].1@ == frame@,
    {
        let mut deliveries: Vec<(u64, ZenohEncodedRxFrame)> = Vec::new();
        let mut i: usize = 0;
        while i < self.listeners.len()
            invariant
                i <= self.listeners.len(),
                deliveries@.len() == i,
                forall|j: int|
                    0 <= j < i ==> (#[trigger] deliveries@[j]).0 == self.listeners@[j]
                        && deliveries@[j].1@ == frame@,
            decreases self.listeners.len() - i,
        {
            deliveries.push((self.listeners[i], frame.clone()));
            i += 1;
        }
        deliveries
    }

    /// Lends a buffer for a prepared frame, given what came of its allocation.
    ///
    /// A buffer that does not have the length that was asked for is not lent.
    pub fn loan_prepared_tx(
        &mut self,
        spec: PreparedTxLoanSpec,
        allocated: Result<Vec<u8>, UStatus>,
    ) -> (r: Result<ZenohTxBuffer, UStatus>)
        ensures
            match allocated {
                Ok(buffer) => if buffer@.len() == spec@.payload_len {
                    &&& r matches Ok(tx) && tx@ == (TxBufferView {
                        attachment: spec@.encoded_metadata,
                        metadata: spec@.metadata,
                        payload: buffer@,
                    })
                    &&& final(self)@ == (WireCoreView {
                        prepared: old(self)@.prepared.push(spec@),
                        ..old(self)@
                    })
                } else {
                    &&& r matches Err(e) && e@ == status::failure(
                        UCode::Internal,
                        "allocated buffer does not have the requested length"@,
                    )
                    &&& final(self)@ == old(self)@
                },
                Err(status) => {
                    &&& r matches Err(e) && e@ == status@
                    &&& final(self)@ == old(self)@
                },
            },
            r matches Ok(tx) ==> tx@.payload.len() == spec@.payload_len,
    {
        let attachment = ZenohPreparedAttachment::from_prepared(&spec);
        let buffer = match allocated {
            Ok(buffer) => buffer,
            Err(status) => {
                return Err(status);
            },
        };
        if buffer.len() != spec.payload_len {
            return Err(
                UStatus::fail_with(
                    UCode::Internal,
                    "allocated buffer does not have the requested length",
                ),
            );
        }
        let metadata = spec.metadata.clone();
        self.prepared.push(spec);
        assert(self@.prepared =~= old(self)@.prepared.push(spec@));
        Ok(ZenohTxBuffer { attachment, metadata, buffer })
    }

    /// Sends the frame of a buffer.
    pub fn send_prepared_zero_copy(&mut self, buffer: ZenohTxBuffer) -> (r: Result<(), UStatus>)
        ensures
            r is Ok,
            final(self)@ == (WireCoreView {
                received: old(self)@.received.push(
                    RxFrameView { attachment: buffer@.attachment, payload: buffer@.payload },
                ),
                ..old(self)@
            }),
            final(self)@ == old(self)@.with_frame(
                RxFrameView { attachment: buffer@.attachment, payload: buffer@.payload },
            ),
    {
        let frame = buffer.into_encoded_rx();
        self.push_encoded_rx(frame);
        Ok(())
    }

    /// Receives the frame that waited longest.
    pub fn receive_encoded_zero_copy(&mut self, _source_filter: &UUri, _sink_filter: Option<&UUri>) -> (r:
        Result<ZenohEncodedRxFrame, UStatus>)
        ensures
            old(self)@.received.len() > 0 ==> {
                &&& r matches Ok(frame) && frame@ == old(self)@.received.first()
                &&& final(self)@ == (WireCoreView {
                    received: old(self)@.received.drop_first(),
                    ..old(self)@
                })
            },
            old(self)@.received.len() == 0 ==> {
                &&& r matches Err(e) && e@ == status::failure(
                    UCode::NotFound,
                    "no frame available"@,
                )
                &&& final(self)@ == old(self)@
            },
            r is Ok <==> old(self)@.next_frame() is Some,
            r matches Ok(frame) ==> old(self)@.next_frame() == Some(frame@) && final(self)@ == old(
                self,
            )@.without_frame(),
    {
        match self.received.pop_front() {
            Some(frame) => {
                assert(self@.received =~= old(self)@.received.drop_first());
                Ok(frame)
            },
            None => Err(UStatus::fail_with(UCode::NotFound, "no frame available")),
        }
    }

    /// Registers a listener.
    pub fn register_encoded_zero_copy_listener(
        &mut self,
        _source_filter: &UUri,
        _sink_filter: Option<&UUri>,
        listener: u64,
    ) -> (r: Result<(), UStatus>)
        ensures
            r is Ok,
            final(self)@ == (WireCoreView {
                listeners: old(self)@.listeners.push(listener),
                ..old(self)@
            }),
            final(self)@ == old(self)@.with_listener(listener),
    {
        self.listeners.push(listener);
        Ok(())
    }

    /// Takes out the first registration of a listener.
    pub fn unregister_encoded_zero_copy_listener(
        &mut self,
        _source_filter: &UUri,
        _sink_filter: Option<&UUri>,
        listener: u64,
    ) -> (r: Result<(), UStatus>)
        ensures
            final(self)@ == (WireCoreView {
                listeners: old(self)@.listeners.remove_value(listener),
                ..old(self)@
            }),
            final(self)@ == old(self)@.without_listener(listener),
            old(self)@.listeners.contains(listener) ==> r is Ok,
            !old(self)@.listeners.contains(listener) ==> (r matches Err(e) && e@ == status::failure(
                UCode::NotFound,
                "listener not registered"@,
            )),
    {
        let mut i: usize = 0;
        while i < self.listeners.len()
            invariant
                i <= self.listeners.len(),
                *self == *old(self),
                forall|j: int| 0 <= j < i ==> self.listeners@[j] != listener,
            decreases self.listeners.len() - i,
        {
            if self.listeners[i] == listener {
                proof {
                    self.listeners@.index_of_first_ensures(listener);
                    assert(self.listeners@.index_of_first(listener) == Some(i as int));
                }
                self.listeners.remove(i);
                return Ok(());
            }
            i += 1;
        }
        proof {
            self.listeners@.index_of_first_ensures(listener);
        }
        Err(UStatus::fail_with(UCode::NotFound, "listener not registered"))
    }
}

/// Frames are received in the order in which they were sent: to send and to receive
/// commute, unless the frame that is sent is the only one.
pub proof fn law_first_in_first_out(received: Seq<RxFrameView>, frame: RxFrameView)
    ensures
        received.len() == 0 ==> received.push(frame).first() == frame && received.push(
            frame,
        ).drop_first() == received,
        received.len() > 0 ==> received.push(frame).first() == received.first() && received.push(
            frame,
        ).drop_first() == received.drop_first().push(frame),
{
    if received.len() == 0 {
        assert(received.push(frame).drop_first() =~= received);
    } else {
        assert(received.push(frame).drop_first() =~= received.drop_first().push(frame));
    }
}

/// To take out a listener that was not registered before it was registered restores the
/// listeners from before.
pub proof fn law_unregister_undoes_register(listeners: Seq<u64>, listener: u64)
    requires
        !listeners.contains(listener),
    ensures
        listeners.push(listener).contains(listener),
        listeners.push(listener).remove_value(listener) == listeners,
{
    let after = listeners.push(listener);
    assert(after[listeners.len() as int] == listener);
    after.index_of_first_ensures(listener);
    let i = after.index_of_first(listener)->0;
    if i < listeners.len() {
        assert(listeners[i] == listener);
    }
    assert(after.remove(i) =~= listeners);
}

/// A frame that is sent is received once, after the frames that were sent before it: where
/// none waits it is the next one and leaves the core as it was, and else it makes no
/// difference whether it is sent before or after the next frame is received.
pub proof fn law_frames_are_received_in_the_order_sent(core: WireCoreView, frame: RxFrameView)
    ensures
        core.next_frame() is None <==> core.received.len() == 0,
        core.next_frame() is None ==> core.with_frame(frame).next_frame() == Some(frame)
            && core.with_frame(frame).without_frame() == core,
        core.next_frame() is Some ==> core.with_frame(frame).next_frame() == core.next_frame()
            && core.with_frame(frame).without_frame() == core.without_frame().with_frame(frame),
        core.with_frame(frame).listeners == core.listeners && core.with_frame(frame).prepared
            == core.prepared,
        core.without_frame().listeners == core.listeners && core.without_frame().prepared
            == core.prepared,
{
    law_first_in_first_out(core.received, frame);
}

/// A listener that is registered hears of frames as often as it was registered. To take it
/// out where it was registered once restores the core from before; frames and requests stay
/// as they are.
pub proof fn law_listeners_of_the_core(core: WireCoreView, listener: u64)
    ensures
        core.with_listener(listener).listeners.len() == core.listeners.len() + 1,
        core.with_listener(listener).listeners.last() == listener,
        !core.listeners.contains(listener) ==> core.with_listener(listener).without_listener(
            listener,
        ) == core,
        !core.listeners.contains(listener) ==> core.without_listener(listener) == core,
        core.listeners.contains(listener) ==> core.without_listener(listener).listeners.len()
            == core.listeners.len() - 1,
        core.with_listener(listener).received == core.received,
        core.without_listener(listener).received == core.received,
        core.with_listener(listener).prepared == core.prepared,
        core.without_listener(listener).prepared == core.prepared,
{
    core.listeners.index_of_first_ensures(listener);
    if !core.listeners.contains(listener) {
        law_unregister_undoes_register(core.listeners, listener);
    }
}

} // verus!
