use factory_machine_model::{JobOrder, JobParameter, JobState, ParameterValue};

#[test]
fn payload_roundtrips() {
    let j = JobOrder::with_payload("T1-1", "CutListCsv", b"UNIT,MILLIMETRE".to_vec());
    assert_eq!(j.payload(), Some(&b"UNIT,MILLIMETRE"[..]));
    assert_eq!(j.job_order_id, "T1-1");
}

#[test]
fn terminal_states() {
    assert!(JobState::Completed.is_terminal());
    assert!(!JobState::Running.is_terminal());
}

#[test]
fn with_payload_builds_single_bytes_parameter() {
    let j = JobOrder::with_payload("J7", "Program", vec![1, 2, 3]);
    assert_eq!(j.description, None);
    assert_eq!(j.work_master_id, None);
    assert_eq!(j.parameters.len(), 1);
    assert_eq!(j.parameters[0].id, "Program");
    assert_eq!(j.parameters[0].value, ParameterValue::Bytes(vec![1, 2, 3]));
}

#[test]
fn empty_payload_roundtrips() {
    let j = JobOrder::with_payload("E", "Empty", Vec::new());
    assert_eq!(j.payload(), Some(&[][..]));
}

#[test]
fn payload_is_first_bytes_parameter() {
    let j = JobOrder {
        job_order_id: "J1".to_string(),
        description: Some("two payloads".to_string()),
        work_master_id: None,
        parameters: vec![
            JobParameter { id: "Note".to_string(), value: ParameterValue::Text("hello".to_string()) },
            JobParameter { id: "Qty".to_string(), value: ParameterValue::Number(2.5f64.to_bits()) },
            JobParameter { id: "First".to_string(), value: ParameterValue::Bytes(vec![7, 8]) },
            JobParameter { id: "Second".to_string(), value: ParameterValue::Bytes(vec![9]) },
        ],
    };
    assert_eq!(j.payload(), Some(&[7u8, 8u8][..]));
}

#[test]
fn payload_none_without_bytes() {
    let j = JobOrder {
        job_order_id: "J2".to_string(),
        description: None,
        work_master_id: Some("WM".to_string()),
        parameters: vec![JobParameter { id: "Note".to_string(), value: ParameterValue::Text("x".to_string()) }],
    };
    assert_eq!(j.payload(), None);
    let empty = JobOrder { job_order_id: "J3".to_string(), description: None, work_master_id: None, parameters: vec![] };
    assert_eq!(empty.payload(), None);
}

#[test]
fn job_state_names() {
    assert_eq!(JobState::NotAllowedToStart.as_str(), "NotAllowedToStart");
    assert_eq!(JobState::AllowedToStart.as_str(), "AllowedToStart");
    assert_eq!(JobState::Running.as_str(), "Running");
    assert_eq!(JobState::Interrupted.as_str(), "Interrupted");
    assert_eq!(JobState::Completed.as_str(), "Completed");
    assert_eq!(JobState::Aborted.as_str(), "Aborted");
}

#[test]
fn job_state_names_distinct() {
    let all = [
        JobState::NotAllowedToStart,
        JobState::AllowedToStart,
        JobState::Running,
        JobState::Interrupted,
        JobState::Completed,
        JobState::Aborted,
    ];
    for a in all.iter() {
        for b in all.iter() {
            assert_eq!(a == b, a.as_str() == b.as_str());
        }
    }
}

#[test]
fn only_completed_and_aborted_are_terminal() {
    assert!(JobState::Aborted.is_terminal());
    assert!(!JobState::NotAllowedToStart.is_terminal());
    assert!(!JobState::AllowedToStart.is_terminal());
    assert!(!JobState::Interrupted.is_terminal());
}

#[test]
fn number_parameters_compare_as_numbers() {
    let nan = ParameterValue::Number(f64::NAN.to_bits());
    assert!(nan != nan.clone());
    assert_eq!(ParameterValue::Number(0.0f64.to_bits()), ParameterValue::Number((-0.0f64).to_bits()));
    assert_ne!(ParameterValue::Number(1.0f64.to_bits()), ParameterValue::Number(2.0f64.to_bits()));
    let p = JobParameter { id: "Qty".to_string(), value: ParameterValue::Number((-0.0f64).to_bits()) };
    let q = JobParameter { id: "Qty".to_string(), value: ParameterValue::Number(0.0f64.to_bits()) };
    assert_eq!(p, q);
}

#[test]
fn text_and_byte_parameters_compare_by_content() {
    assert_eq!(ParameterValue::Text("x".to_string()), ParameterValue::Text("x".to_string()));
    assert_ne!(ParameterValue::Text("x".to_string()), ParameterValue::Text("y".to_string()));
    assert_eq!(ParameterValue::Bytes(vec![1, 2]), ParameterValue::Bytes(vec![1, 2]));
    assert_ne!(ParameterValue::Bytes(vec![1, 2]), ParameterValue::Bytes(vec![1, 3]));
    assert_ne!(ParameterValue::Bytes(vec![1]), ParameterValue::Bytes(vec![1, 1]));
    assert_ne!(ParameterValue::Bytes(Vec::new()), ParameterValue::Text(String::new()));
}

#[test]
fn payload_ignores_parameter_ids() {
    let a = JobOrder::with_payload("A", "CutListCsv", vec![4, 5]);
    let b = JobOrder::with_payload("B", "Program", vec![4, 5]);
    assert_eq!(a.payload(), b.payload());
}
