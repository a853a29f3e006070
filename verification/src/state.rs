//! Machine state: the `MachineryItemState` state machine of OPC UA for
//! Machinery (OPC 40001-1) and its orthogonal operating mode.
//!
//! Maps to `Machines/<id>/MachineryBuildingBlocks/MachineryItemState` in the
//! gateway address space. Two orthogonal regions: the current condition
//! ([`MachineryItemState`]) and the operating mode ([`OperationMode`]).

use vstd::prelude::*;

verus! {

/// Current operational condition. The four states defined by the
/// `MachineryItemState_StateMachineType` (OPC 40001-1).
#[derive(Debug, Clone, Copy, PartialEq, Eq, Structural)]
pub enum MachineryItemState {
    /// Not ready to be used, e.g. powered off, not commissioned, offline.
    NotAvailable,
    /// Deliberately taken out of service (maintenance, fault hold).
    OutOfService,
    /// Available and idle: ready but not currently doing work.
    NotExecuting,
    /// Actively performing its function (running a job).
    Executing,
}

impl MachineryItemState {
    /// The BrowseName of this state, as a sequence of characters.
    pub open spec fn browse_name(self) -> Seq<char> {
        match self {
            MachineryItemState::NotAvailable => "NotAvailable"@,
            MachineryItemState::OutOfService => "OutOfService"@,
            MachineryItemState::NotExecuting => "NotExecuting"@,
            MachineryItemState::Executing => "Executing"@,
        }
    }

    /// The spec BrowseName for this state.
    pub fn as_str(&self) -> (name: &'static str)
        ensures
            name@ == self.browse_name(),
            *self is NotAvailable ==> name@ == "NotAvailable"@,
            *self is OutOfService ==> name@ == "OutOfService"@,
            *self is NotExecuting ==> name@ == "NotExecuting"@,
            *self is Executing ==> name@ == "Executing"@,
    {
        match self {
            MachineryItemState::NotAvailable => "NotAvailable",
            MachineryItemState::OutOfService => "OutOfService",
            MachineryItemState::NotExecuting => "NotExecuting",
            MachineryItemState::Executing => "Executing",
        }
    }
}

/// Operating mode: the `MachineryOperationModeStateMachineType`
/// (OPC 40001-1), orthogonal to [`MachineryItemState`].
#[derive(Debug, Clone, Copy, PartialEq, Eq, Structural)]
pub enum OperationMode {
    /// Mode not reported / not applicable. Its BrowseName is `None` (see
    /// [`OperationMode::as_str`]); the variant cannot carry that name here,
    /// so the derived `Debug` prints `NotReported`.
    NotReported,
    /// Normal production.
    Processing,
    /// Set-up / changeover.
    Setup,
    /// Maintenance.
    Maintenance,
}

impl OperationMode {
    /// The BrowseName of this mode, as a sequence of characters.
    pub open spec fn browse_name(self) -> Seq<char> {
        match self {
            OperationMode::NotReported => "None"@,
            OperationMode::Processing => "Processing"@,
            OperationMode::Setup => "Setup"@,
            OperationMode::Maintenance => "Maintenance"@,
        }
    }

    /// The spec BrowseName for this mode.
    pub fn as_str(&self) -> (name: &'static str)
        ensures
            name@ == self.browse_name(),
            *self is NotReported ==> name@ == "None"@,
            *self is Processing ==> name@ == "Processing"@,
            *self is Setup ==> name@ == "Setup"@,
            *self is Maintenance ==> name@ == "Maintenance"@,
    {
        match self {
            OperationMode::NotReported => "None",
            OperationMode::Processing => "Processing",
            OperationMode::Setup => "Setup",
            OperationMode::Maintenance => "Maintenance",
        }
    }
}

/// Distinct machine states have distinct BrowseNames: a BrowseName names
/// exactly one state.
pub proof fn lemma_item_state_names_distinct(a: MachineryItemState, b: MachineryItemState)
    requires
        a != b,
    ensures
        a.browse_name() != b.browse_name(),
{
    reveal_strlit("NotAvailable");
    reveal_strlit("OutOfService");
    reveal_strlit("NotExecuting");
    reveal_strlit("Executing");
    assert("NotAvailable"@[3] != "OutOfService"@[3]);
    assert("NotAvailable"@[3] != "NotExecuting"@[3]);
    assert("NotAvailable"@.len() != "Executing"@.len());
    assert("OutOfService"@[0] != "NotExecuting"@[0]);
    assert("OutOfService"@.len() != "Executing"@.len());
    assert("NotExecuting"@.len() != "Executing"@.len());
}

/// Distinct operating modes have distinct BrowseNames.
pub proof fn lemma_operation_mode_names_distinct(a: OperationMode, b: OperationMode)
    requires
        a != b,
    ensures
        a.browse_name() != b.browse_name(),
{
    reveal_strlit("None");
    reveal_strlit("Processing");
    reveal_strlit("Setup");
    reveal_strlit("Maintenance");
    assert("None"@.len() != "Processing"@.len());
    assert("None"@.len() != "Setup"@.len());
    assert("None"@.len() != "Maintenance"@.len());
    assert("Processing"@.len() != "Setup"@.len());
    assert("Processing"@.len() != "Maintenance"@.len());
    assert("Setup"@.len() != "Maintenance"@.len());
}

} // verus!
