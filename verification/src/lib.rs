//! Standard machine model: the gateway and driver contract.
//!
//! This is the seam that lets one generic OPC-UA gateway serve many machine
//! types (roll-formers, robots, CNCs) and lets SCADA speak to all of them
//! without knowing what any of them is.
//!
//! - [`MachineDescriptor`]: static identity and telemetry schema; the gateway
//!   uses it to build the `/Machines/<id>` node-tree.
//! - [`Identification`], [`MachineryItemState`], [`OperationMode`]: the
//!   OPC UA for Machinery nameplate and state machine.
//! - [`JobOrder`], [`JobParameter`], [`JobState`]: ISA-95 Job Control.
//! - [`Value`] / [`TelemetryField`]: the dynamic `Telemetry/` subtree, the
//!   only part of the node-tree that varies between machine types.

pub mod binary64;
pub mod descriptor;
pub mod identification;
pub mod job;
pub mod state;
pub mod telemetry;

pub use descriptor::{JobFormat, JobPayload, MachineDescriptor};
pub use identification::Identification;
pub use job::{JobOrder, JobParameter, JobState, ParameterValue};
pub use state::{MachineryItemState, OperationMode};
pub use telemetry::{Numeric, Telemetry, TelemetryField, Value, ValueKind};
