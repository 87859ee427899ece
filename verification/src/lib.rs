//! The rules of a uProtocol transport over Zenoh.
//!
//! Everything here computes and decides; nothing waits, sends or receives. A program that
//! holds a Zenoh session carries out what the rules ask for and hands back what came of it.
pub mod attachment;
pub mod attributes;
pub mod builder;
pub mod config;
pub mod frame;
pub mod key;
pub mod listener_activity;
pub mod listener_registry;
pub mod mechanics;
pub mod message;
pub mod rpc;
pub mod status;
pub mod table;
pub mod text;
pub mod transport;
pub mod uri;
pub mod wire_full;
pub mod wire_smoke;
pub mod zero_copy;

pub use attributes::{UAttributes, UMessageType, UPayloadFormat, UUID};
pub use builder::{
    BuilderState, ConfigBuilderState, ConfigPathBuilderState, InitialBuilderState,
    SessionBuilderState, UPTransportZenohBuilder,
};
pub use frame::{EncodedOwnedFrame, PreparedOwnedFrame, PreparedTxLoanSpec, UFrameMetadata};
pub use listener_activity::{DispatchStep, ListenerActivity};
pub use listener_registry::ListenerRegistry;
pub use mechanics::{Priority, UPriority, ZenohWireMechanics};
pub use message::{UMessage, UOwnedFrame};
pub use rpc::ZenohRpcClient;
pub use status::{UCode, UStatus};
pub use transport::UPTransportZenoh;
pub use uri::UUri;
pub use wire_full::ZenohOwnedCore;
pub use wire_smoke::{ZenohEncodedRxFrame, ZenohPreparedAttachment, ZenohWireCore};
pub use zenoh::config as zenoh_config;
pub use zero_copy::{
    ZenohRxFrame, ZenohTxBuffer, ZenohUninitTxBuffer, ZenohZeroCopyCore, ZenohZeroCopyCoreBuilder,
};
