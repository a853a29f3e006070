//! Static description of a machine type and the jobs handed to its driver.
//!
//! The gateway reads a [`MachineDescriptor`] to build the `/Machines/<id>`
//! node-tree and the dashboard; the job payload that a driver receives is
//! opaque bytes tagged with a [`JobFormat`].

use vstd::prelude::*;

use crate::identification::Identification;
use crate::telemetry::TelemetryField;

verus! {

/// Static description of a machine type. Stable for the machine's lifetime.
///
/// The gateway reads this to construct the OPC-UA address space and the
/// dashboard; SCADA reads `Identification/*` to label devices. A driver
/// returns one from its `descriptor` method.
#[derive(Debug, Clone, PartialEq)]
pub struct MachineDescriptor {
    /// Instance id: the `/Machines/<machine_id>` key. e.g. `"howick-1"`.
    pub machine_id: String,
    /// Machine type. e.g. `"howick-frama"`, `"robot-arm"`.
    pub kind: String,
    /// The OPC UA for Machinery nameplate (manufacturer, model, ...).
    pub identification: Identification,
    /// Declares the `Telemetry/` subtree for this machine type.
    pub telemetry: Vec<TelemetryField>,
}

/// Encoding of a job payload. Opaque to the gateway: only the driver and the
/// upstream producer understand the bytes.
#[derive(Debug, Clone, Copy, PartialEq, Eq, Structural)]
pub enum JobFormat {
    /// Cut-list CSV (`text/csv`).
    Csv,
    /// JSON job document (`application/json`).
    Json,
    /// G-code program (`text/gcode`).
    Gcode,
    /// Anything else: bytes with no gateway-side meaning.
    Opaque,
}

impl JobFormat {
    /// The MIME-ish tag of this format, as a sequence of characters.
    pub open spec fn tag(self) -> Seq<char> {
        match self {
            JobFormat::Csv => "text/csv"@,
            JobFormat::Json => "application/json"@,
            JobFormat::Gcode => "text/gcode"@,
            JobFormat::Opaque => "application/octet-stream"@,
        }
    }

    /// MIME-ish tag published at `Jobs/Pending/Format`.
    pub fn as_str(&self) -> (t: &'static str)
        ensures
            t@ == self.tag(),
            *self is Csv ==> t@ == "text/csv"@,
            *self is Json ==> t@ == "application/json"@,
            *self is Gcode ==> t@ == "text/gcode"@,
            *self is Opaque ==> t@ == "application/octet-stream"@,
    {
        match self {
            JobFormat::Csv => "text/csv",
            JobFormat::Json => "application/json",
            JobFormat::Gcode => "text/gcode",
            JobFormat::Opaque => "application/octet-stream",
        }
    }
}

/// Distinct job formats publish distinct tags: a tag names exactly one format.
pub proof fn lemma_job_format_tags_distinct(a: JobFormat, b: JobFormat)
    requires
        a != b,
    ensures
        a.tag() != b.tag(),
{
    reveal_strlit("text/csv");
    reveal_strlit("application/json");
    reveal_strlit("text/gcode");
    reveal_strlit("application/octet-stream");
    assert("text/csv"@.len() == 8);
    assert("application/json"@.len() == 16);
    assert("text/gcode"@.len() == 10);
    assert("application/octet-stream"@.len() == 24);
}

/// A job handed to a driver. The payload bytes are opaque (see [`JobFormat`]).
#[derive(Debug, Clone, PartialEq)]
pub struct JobPayload {
    pub job_id: String,
    pub name: String,
    pub format: JobFormat,
    pub bytes: Vec<u8>,
}

} // verus!
