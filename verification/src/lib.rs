//! Tuner frontend control and telemetry: the tagged-union property protocol
//! used to configure a tuning frontend, capability validation of outgoing
//! property batches, and normalization of raw signal-quality measurements
//! into one consistent status snapshot.
//!
//! The raw device transport (opening the device node and issuing the
//! underlying kernel calls) is an external collaborator and lives outside
//! this crate; everything here is pure computation on plain values.

pub mod caps;
pub mod codec;
pub mod enums;
pub mod normalize;
pub mod parse;
pub mod reader;
pub mod stats;
pub mod status;
pub mod status_bits;
pub mod validate;

pub use caps::Capabilities;
pub use codec::DtvProperty;
pub use status::FeStatus;
pub use status_bits::fe_status;
