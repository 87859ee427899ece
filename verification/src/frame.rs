//! Frames whose metadata is encoded already, as the cores for selected wires carry them.
//!
//! A core takes the encoded metadata as it is. It reads no more of the metadata than it
//! needs to route the frame.
use crate::attributes;
use crate::key;
use crate::mechanics::{self, Priority, UPriority};
use crate::message;
use crate::uri::{UUri, UriView};
use vstd::prelude::*;

verus! {

/// What a core reads of the metadata of a frame.
#[derive(Debug)]
pub struct UFrameMetadata {
    pub source: UUri,
    pub sink: Option<UUri>,
    pub priority: Option<UPriority>,
}

/// Frame metadata as a mathematical value.
#[verifier::ext_equal]
pub struct MetadataView {
    pub source: UriView,
    pub sink: Option<UriView>,
    pub priority: Option<UPriority>,
}

impl View for UFrameMetadata {
    type V = MetadataView;

    open spec fn view(&self) -> MetadataView {
        MetadataView {
            source: self.source@,
            sink: attributes::owned_uri(self.sink),
            priority: self.priority,
        }
    }
}

impl MetadataView {
    /// The key that the frame travels on.
    pub open spec fn key(self, local: Seq<char>) -> Seq<char> {
        key::zenoh_key(local, self.source, self.sink)
    }

    /// The priority that the frame travels with: the one of the default class unless a
    /// class is given.
    pub open spec fn zenoh_priority(self) -> Priority {
        mechanics::zenoh_priority(
            match self.priority {
                Some(class) => class,
                None => UPriority::CS1,
            },
        )
    }
}

impl Clone for UFrameMetadata {
    fn clone(&self) -> (copy: UFrameMetadata)
        ensures
            copy@ == self@,
    {
        let sink = match &self.sink {
            Some(sink) => Some(sink.clone()),
            None => None,
        };
        UFrameMetadata { source: self.source.clone(), sink, priority: self.priority }
    }
}

impl UFrameMetadata {
    /// The key that the frame travels on.
    pub fn zenoh_key(&self, local_uri: &UUri) -> (key: String)
        ensures
            key@ == self@.key(local_uri.authority_name@),
    {
        key::to_zenoh_key_string(local_uri, &self.source, self.sink.as_ref())
    }

    /// The priority that the frame travels with.
    pub fn zenoh_priority(&self) -> (priority: Priority)
        ensures
            priority == self@.zenoh_priority(),
            self.priority matches Some(class) ==> priority.rank() == class.rank(),
            self.priority is None ==> priority == Priority::DataLow,
    {
        let class = match self.priority {
            Some(class) => class,
            None => UPriority::CS1,
        };
        mechanics::map_zenoh_priority(class)
    }
}

/// A frame that is ready to be sent.
#[derive(Debug)]
pub struct PreparedOwnedFrame {
    pub metadata: UFrameMetadata,
    pub encoded_metadata: Vec<u8>,
    pub payload: Option<Vec<u8>>,
}

/// A frame as it was received.
#[derive(Debug)]
pub struct EncodedOwnedFrame {
    pub encoded_metadata: Vec<u8>,
    pub payload: Option<Vec<u8>>,
}

/// A received frame as a mathematical value.
#[verifier::ext_equal]
pub struct EncodedFrameView {
    pub encoded_metadata: Seq<u8>,
    pub payload: Option<Seq<u8>>,
}

impl View for EncodedOwnedFrame {
    type V = EncodedFrameView;

    open spec fn view(&self) -> EncodedFrameView {
        EncodedFrameView {
            encoded_metadata: self.encoded_metadata@,
            payload: message::owned_bytes(self.payload),
        }
    }
}

/// A request for a buffer that a frame is written to.
#[derive(Debug)]
pub struct PreparedTxLoanSpec {
    pub metadata: UFrameMetadata,
    pub encoded_metadata: Vec<u8>,
    /// Whether the metadata gives an encoding for a payload.
    pub has_payload: bool,
    pub payload_len: usize,
    pub payload_alignment: usize,
}

/// A request for a buffer as a mathematical value.
#[verifier::ext_equal]
pub struct LoanSpecView {
    pub metadata: MetadataView,
    pub encoded_metadata: Seq<u8>,
    pub has_payload: bool,
    pub payload_len: usize,
    pub payload_alignment: usize,
}

impl View for PreparedTxLoanSpec {
    type V = LoanSpecView;

    open spec fn view(&self) -> LoanSpecView {
        LoanSpecView {
            metadata: self.metadata@,
            encoded_metadata: self.encoded_metadata@,
            has_payload: self.has_payload,
            payload_len: self.payload_len,
            payload_alignment: self.payload_alignment,
        }
    }
}

/// The payload that a list of pieces makes up.
pub open spec fn whole_payload(pieces: Seq<&[u8]>) -> Seq<u8>
    decreases pieces.len(),
{
    if pieces.len() == 0 {
        Seq::empty()
    } else {
        whole_payload(pieces.drop_last()) + pieces.last()@
    }
}

/// A payload in one piece is that piece.
pub proof fn law_single_piece_is_whole_payload(piece: &[u8])
    ensures
        whole_payload(seq![piece]) == piece@,
{
    let pieces = seq![piece];
    assert(whole_payload(pieces.drop_last()) =~= Seq::empty());
    assert(whole_payload(pieces) =~= piece@);
}

/// Copies bytes.
pub fn copy_bytes(bytes: &[u8]) -> (copy: Vec<u8>)
    ensures
        copy@ == bytes@,
{
    let mut copy: Vec<u8> = Vec::new();
    copy.extend_from_slice(bytes);
    assert(copy@ =~= bytes@);
    copy
}

impl Clone for PreparedTxLoanSpec {
    fn clone(&self) -> (copy: PreparedTxLoanSpec)
        ensures
            copy@ == self@,
    {
        PreparedTxLoanSpec {
            metadata: self.metadata.clone(),
            encoded_metadata: copy_bytes(self.encoded_metadata.as_slice()),
            has_payload: self.has_payload,
            payload_len: self.payload_len,
            payload_alignment: self.payload_alignment,
        }
    }
}

/// A frame travels with the priority at the place of its class, and without a class with the
/// one of the second class.
pub proof fn law_frame_priority(metadata: MetadataView)
    ensures
        match metadata.priority {
            Some(class) => metadata.zenoh_priority().rank() == class.rank(),
            None => metadata.zenoh_priority() == Priority::DataLow,
        },
{
}

/// A frame travels on the key of its source and its sink.
pub proof fn law_frame_key(metadata: MetadataView, local: Seq<char>)
    ensures
        metadata.key(local) == key::zenoh_key(local, metadata.source, metadata.sink),
{
}

/// A payload in pieces is what the pieces are in their order: none is left out, repeated or
/// moved.
pub proof fn law_whole_payload_is_all_pieces(first: Seq<&[u8]>, second: Seq<&[u8]>)
    ensures
        whole_payload(first + second) == whole_payload(first) + whole_payload(second),
        whole_payload(Seq::<&[u8]>::empty()).len() == 0,
    decreases second.len(),
{
    let all = first + second;
    if second.len() == 0 {
        assert(all =~= first);
        assert(whole_payload(all) =~= whole_payload(first) + whole_payload(second));
    } else {
        law_whole_payload_is_all_pieces(first, second.drop_last());
        assert(all.drop_last() =~= first + second.drop_last());
        assert(whole_payload(all) =~= whole_payload(first) + whole_payload(second));
    }
}

/// The models of frames and of requests for buffers hold every part of them.
pub proof fn law_frames_are_all_their_parts(
    metadata: UFrameMetadata,
    frame: EncodedOwnedFrame,
    spec: PreparedTxLoanSpec,
)
    ensures
        metadata@.source == metadata.source@,
        match metadata.sink {
            Some(sink) => metadata@.sink == Some(sink@),
            None => metadata@.sink is None,
        },
        metadata@.priority == metadata.priority,
        frame@.encoded_metadata == frame.encoded_metadata@,
        match frame.payload {
            Some(bytes) => frame@.payload == Some(bytes@),
            None => frame@.payload is None,
        },
        spec@.metadata == spec.metadata@,
        spec@.encoded_metadata == spec.encoded_metadata@,
        spec@.has_payload == spec.has_payload,
        spec@.payload_len == spec.payload_len,
        spec@.payload_alignment == spec.payload_alignment,
{
}

} // verus!
