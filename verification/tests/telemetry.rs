use factory_machine_model::{Numeric, TelemetryField, Value, ValueKind};

/// The numeric coercion to `f64` made from a reading's numeric content.
fn as_f64(v: &Value) -> Option<f64> {
    v.numeric().map(|n| match n {
        Numeric::Int(i) => i as f64,
        Numeric::UInt(u) => u as f64,
        Numeric::Double(bits) => f64::from_bits(bits),
    })
}

#[test]
fn lib_value_kind_roundtrips() {
    assert_eq!(Value::UInt(3).kind(), ValueKind::UInt);
    assert_eq!(as_f64(&Value::Double(1.5f64.to_bits())), Some(1.5));
    assert_eq!(as_f64(&Value::String("x".into())), None);
}

#[test]
fn telemetry_value_kind_roundtrips() {
    assert_eq!(Value::UInt(3).kind(), ValueKind::UInt);
    assert_eq!(as_f64(&Value::Double(1.5f64.to_bits())), Some(1.5));
    assert_eq!(as_f64(&Value::String("x".into())), None);
}

#[test]
fn every_kind_matches_variant() {
    assert_eq!(Value::Bool(true).kind(), ValueKind::Bool);
    assert_eq!(Value::Int(-4).kind(), ValueKind::Int);
    assert_eq!(Value::Double(0.25f64.to_bits()).kind(), ValueKind::Double);
    assert_eq!(Value::String(String::new()).kind(), ValueKind::String);
}

#[test]
fn numeric_content() {
    assert_eq!(Value::Int(-4).numeric(), Some(Numeric::Int(-4)));
    assert_eq!(Value::UInt(9).numeric(), Some(Numeric::UInt(9)));
    assert_eq!(Value::Double(2.0f64.to_bits()).numeric(), Some(Numeric::Double(2.0f64.to_bits())));
    assert_eq!(Value::Bool(false).numeric(), None);
    assert_eq!(as_f64(&Value::Int(-4)), Some(-4.0));
    assert_eq!(as_f64(&Value::UInt(7)), Some(7.0));
    assert_eq!(as_f64(&Value::Bool(true)), None);
}

#[test]
fn telemetry_field_new() {
    let f = TelemetryField::new("CoilRemaining", ValueKind::Double, Some("m"));
    assert_eq!(f.name, "CoilRemaining");
    assert_eq!(f.kind, ValueKind::Double);
    assert_eq!(f.unit, Some("m".to_string()));
    let g = TelemetryField::new("PiecesProduced", ValueKind::UInt, None);
    assert_eq!(g.name, "PiecesProduced");
    assert_eq!(g.kind, ValueKind::UInt);
    assert_eq!(g.unit, None);
}

#[test]
fn double_readings_compare_as_numbers() {
    let nan = Value::Double(f64::NAN.to_bits());
    assert!(nan != nan.clone());
    assert_eq!(Value::Double(0.0f64.to_bits()), Value::Double((-0.0f64).to_bits()));
    assert_eq!(Value::Double(1.5f64.to_bits()), Value::Double(1.5f64.to_bits()));
    assert_ne!(Value::Double(1.5f64.to_bits()), Value::Double(2.5f64.to_bits()));
    assert_ne!(Value::Double(f64::INFINITY.to_bits()), Value::Double(f64::NEG_INFINITY.to_bits()));
    assert_eq!(Value::Double(f64::INFINITY.to_bits()), Value::Double(f64::INFINITY.to_bits()));
}

#[test]
fn readings_compare_by_variant_and_content() {
    assert_eq!(Value::String("a".to_string()), Value::String("a".to_string()));
    assert_ne!(Value::String("a".to_string()), Value::String("b".to_string()));
    assert_eq!(Value::Bool(true), Value::Bool(true));
    assert_ne!(Value::Int(3), Value::UInt(3));
    assert_ne!(Value::Int(0), Value::Double(0.0f64.to_bits()));
}

#[test]
fn telemetry_snapshot_maps_names_to_readings() {
    let mut t = factory_machine_model::Telemetry::new();
    t.insert("PiecesProduced".to_string(), Value::UInt(12));
    t.insert("CoilRemaining".to_string(), Value::Double(41.5f64.to_bits()));
    assert_eq!(t.get("PiecesProduced"), Some(&Value::UInt(12)));
    assert_eq!(t.get("CoilRemaining").map(|v| v.kind()), Some(ValueKind::Double));
    assert_eq!(t.len(), 2);
}
