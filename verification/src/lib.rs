//! Service registry and connection lifecycle of a key-management daemon.
//!
//! The daemon brokers access to hardware security backends. This crate holds
//! the decisions that the registry takes: which backend a security level
//! resolves to, how a connection is negotiated (natively first, through the
//! compatibility bridge when the native service is absent), when the secure
//! clock is connected, and which thread repairs the key database after
//! start. Every decision is a function from a state and the outcome of the
//! last outside call to the next state and the next outside call, so the
//! embedding process performs the calls and this crate never blocks.

pub mod connect;
pub mod database;
pub mod devices;
pub mod error;
pub mod registry;
pub mod security_level;
pub mod timestamp;

pub use connect::{connect_keymint, connect_secureclock, Call, Connecting, Reply, Step, Target};
pub use database::{
    create_thread_local_db, DbCall, DbReply, DbSession, DbStep, LatchState, Phase, StartupLatch,
    StorageFailure,
};
pub use devices::{get_keymint_dev_by_uuid, get_keymint_device, DeviceStep, DevicesMap};
pub use error::{ConnectError, ConnectStage, Error};
pub use security_level::{SecurityLevel, Uuid};
pub use timestamp::{get_timestamp_service, TimestampDevice, TimestampStep};
