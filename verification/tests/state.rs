use factory_machine_model::{MachineryItemState, OperationMode};

#[test]
fn state_browsenames() {
    assert_eq!(MachineryItemState::Executing.as_str(), "Executing");
    assert_eq!(OperationMode::Processing.as_str(), "Processing");
}

#[test]
fn all_item_state_browsenames() {
    assert_eq!(MachineryItemState::NotAvailable.as_str(), "NotAvailable");
    assert_eq!(MachineryItemState::OutOfService.as_str(), "OutOfService");
    assert_eq!(MachineryItemState::NotExecuting.as_str(), "NotExecuting");
}

#[test]
fn all_operation_mode_browsenames() {
    assert_eq!(OperationMode::NotReported.as_str(), "None");
    assert_eq!(OperationMode::Setup.as_str(), "Setup");
    assert_eq!(OperationMode::Maintenance.as_str(), "Maintenance");
}

#[test]
fn browsenames_distinct() {
    let states = [
        MachineryItemState::NotAvailable,
        MachineryItemState::OutOfService,
        MachineryItemState::NotExecuting,
        MachineryItemState::Executing,
    ];
    for a in states.iter() {
        for b in states.iter() {
            assert_eq!(a == b, a.as_str() == b.as_str());
        }
    }
    let modes = [
        OperationMode::NotReported,
        OperationMode::Processing,
        OperationMode::Setup,
        OperationMode::Maintenance,
    ];
    for a in modes.iter() {
        for b in modes.iter() {
            assert_eq!(a == b, a.as_str() == b.as_str());
        }
    }
}
