//! Machine-specific telemetry: the variables a driver exposes beyond the
//! standard [`crate::state`] and [`crate::job`] models. Each becomes a
//! variable under `Machines/<id>/Telemetry/` in the gateway address space.
//!
//! This is the only part of a machine's node-tree that varies by machine type
//! (e.g. a roll-former's `CoilRemaining`, a robot's `TcpX`/`TcpY`/`TcpZ`).

use std::collections::BTreeMap;

use vstd::prelude::*;
use vstd::std_specs::cmp::{PartialEqSpec, PartialEqSpecImpl};

use crate::binary64::{binary64_eq, binary64_equal};

verus! {

/// One driver-declared telemetry variable (becomes `Telemetry/<name>`).
#[derive(Debug, Clone, PartialEq)]
pub struct TelemetryField {
    /// OPC-UA BrowseName, e.g. `"CoilRemaining"`.
    pub name: String,
    /// Value type: drives the OPC-UA DataType of the variable node.
    pub kind: ValueKind,
    /// Engineering unit for display, e.g. `Some("m")`. `None` for counts.
    pub unit: Option<String>,
}

impl TelemetryField {
    /// A field with the given name, kind and (optional) unit.
    pub fn new(name: &str, kind: ValueKind, unit: Option<&str>) -> (f: Self)
        ensures
            f.name@ == name@,
            f.kind == kind,
            f.unit is None <==> unit is None,
            unit matches Some(u) ==> (f.unit matches Some(v) && v@ == u@),
    {
        let unit_owned = match unit {
            Some(u) => Some(u.to_owned()),
            None => None,
        };
        TelemetryField { name: name.to_owned(), kind, unit: unit_owned }
    }
}

/// Type tag for a telemetry field / [`Value`].
#[derive(Debug, Clone, Copy, PartialEq, Eq, Structural)]
pub enum ValueKind {
    Bool,
    Int,
    UInt,
    Double,
    String,
}

/// A telemetry reading.
///
/// `==` compares doubles as `f64` does (a NaN equals nothing, `+0.0` equals
/// `-0.0`), the other variants by content. The derived `Debug` prints a
/// double as its bit pattern.
#[derive(Debug, Clone)]
pub enum Value {
    Bool(bool),
    Int(i64),
    UInt(u64),
    /// A double, held as the IEEE 754 binary64 bit pattern of its value
    /// (`f64::to_bits` / `f64::from_bits`).
    Double(u64),
    String(String),
}

impl PartialEq for Value {
    fn eq(&self, other: &Self) -> (r: bool) {
        match self {
            Value::Bool(a) => match other {
                Value::Bool(b) => *a == *b,
                _ => false,
            },
            Value::Int(a) => match other {
                Value::Int(b) => *a == *b,
                _ => false,
            },
            Value::UInt(a) => match other {
                Value::UInt(b) => *a == *b,
                _ => false,
            },
            Value::Double(a) => match other {
                Value::Double(b) => binary64_eq(*a, *b),
                _ => false,
            },
            Value::String(a) => match other {
                Value::String(b) => a.eq(b),
                _ => false,
            },
        }
    }
}

impl PartialEqSpecImpl for Value {
    open spec fn obeys_eq_spec() -> bool {
        true
    }

    open spec fn eq_spec(&self, other: &Self) -> bool {
        match (*self, *other) {
            (Value::Bool(a), Value::Bool(b)) => a == b,
            (Value::Int(a), Value::Int(b)) => a == b,
            (Value::UInt(a), Value::UInt(b)) => a == b,
            (Value::Double(a), Value::Double(b)) => binary64_equal(a, b),
            (Value::String(a), Value::String(b)) => a@ == b@,
            _ => false,
        }
    }
}

/// The numeric part of a reading: what a numeric coercion starts from.
/// A double is held as its bit pattern, and `==` here compares those
/// patterns (the representation, not the number).
#[derive(Debug, Clone, Copy, PartialEq, Eq, Structural)]
pub enum Numeric {
    Int(i64),
    UInt(u64),
    /// IEEE 754 binary64 bit pattern.
    Double(u64),
}

impl Value {
    /// The type tag of a reading: the tag named like its variant.
    pub open spec fn kind_of(self) -> ValueKind {
        match self {
            Value::Bool(_) => ValueKind::Bool,
            Value::Int(_) => ValueKind::Int,
            Value::UInt(_) => ValueKind::UInt,
            Value::Double(_) => ValueKind::Double,
            Value::String(_) => ValueKind::String,
        }
    }

    /// The numeric content of a reading; none for strings and booleans.
    pub open spec fn numeric_of(self) -> Option<Numeric> {
        match self {
            Value::Int(v) => Some(Numeric::Int(v)),
            Value::UInt(v) => Some(Numeric::UInt(v)),
            Value::Double(bits) => Some(Numeric::Double(bits)),
            _ => None,
        }
    }

    /// The type tag of this reading.
    pub fn kind(&self) -> (k: ValueKind)
        ensures
            k == self.kind_of(),
            self is Bool <==> k is Bool,
            self is Int <==> k is Int,
            self is UInt <==> k is UInt,
            self is Double <==> k is Double,
            self is String <==> k is String,
    {
        match self {
            Value::Bool(_) => ValueKind::Bool,
            Value::Int(_) => ValueKind::Int,
            Value::UInt(_) => ValueKind::UInt,
            Value::Double(_) => ValueKind::Double,
            Value::String(_) => ValueKind::String,
        }
    }

    /// The numeric content of this reading, from which the numeric coercion
    /// for dashboard / JSON output is made (`None` for strings/bools).
    pub fn numeric(&self) -> (n: Option<Numeric>)
        ensures
            n == self.numeric_of(),
            *self matches Value::Int(i) ==> n == Some(Numeric::Int(i)),
            *self matches Value::UInt(u) ==> n == Some(Numeric::UInt(u)),
            *self matches Value::Double(bits) ==> n == Some(Numeric::Double(bits)),
            self is Bool || self is String ==> n is None,
    {
        match self {
            Value::Int(v) => Some(Numeric::Int(*v)),
            Value::UInt(v) => Some(Numeric::UInt(*v)),
            Value::Double(bits) => Some(Numeric::Double(*bits)),
            _ => None,
        }
    }
}

/// Telemetry snapshot: `field name -> value`. Synced to the `Telemetry/` nodes.
pub type Telemetry = BTreeMap<String, Value>;

/// A reading is numeric exactly when its kind is one of the numeric kinds,
/// and the numeric content keeps the kind of the reading.
pub proof fn lemma_numeric_matches_kind(v: Value)
    ensures
        v.numeric_of() is Some <==> (v.kind_of() is Int || v.kind_of() is UInt
            || v.kind_of() is Double),
        v.numeric_of() matches Some(Numeric::Int(_)) <==> v.kind_of() is Int,
        v.numeric_of() matches Some(Numeric::UInt(_)) <==> v.kind_of() is UInt,
        v.numeric_of() matches Some(Numeric::Double(_)) <==> v.kind_of() is Double,
{
}

/// Each reading carries the tag of its own variant, whatever it holds.
pub proof fn lemma_kind_is_variant(v: Value)
    ensures
        v is Bool <==> v.kind_of() is Bool,
        v is Int <==> v.kind_of() is Int,
        v is UInt <==> v.kind_of() is UInt,
        v is Double <==> v.kind_of() is Double,
        v is String <==> v.kind_of() is String,
{
}

/// The numeric content of a reading is exactly the number it holds: the
/// integer for `Int` and `UInt`, the reading's own bit pattern for `Double`;
/// booleans and strings have none.
pub proof fn lemma_numeric_is_held_number(v: Value)
    ensures
        v matches Value::Int(i) ==> v.numeric_of() == Some(Numeric::Int(i)),
        v matches Value::UInt(u) ==> v.numeric_of() == Some(Numeric::UInt(u)),
        v matches Value::Double(bits) ==> v.numeric_of() == Some(Numeric::Double(bits)),
        v is Bool || v is String ==> v.numeric_of() is None,
{
}

/// Equality of readings: readings of different variants are unequal; booleans,
/// integers and strings are equal exactly when they hold the same content;
/// doubles are equal exactly when neither is a NaN and their bit patterns
/// agree or both are zeros. Equality is symmetric.
pub proof fn lemma_value_eq(a: Value, b: Value)
    ensures
        PartialEqSpec::eq_spec(&a, &b) == PartialEqSpec::eq_spec(&b, &a),
        a.kind_of() != b.kind_of() ==> !PartialEqSpec::eq_spec(&a, &b),
        (a, b) matches (Value::Bool(x), Value::Bool(y)) ==> (PartialEqSpec::eq_spec(&a, &b) <==> x == y),
        (a, b) matches (Value::Int(x), Value::Int(y)) ==> (PartialEqSpec::eq_spec(&a, &b) <==> x == y),
        (a, b) matches (Value::UInt(x), Value::UInt(y)) ==> (PartialEqSpec::eq_spec(&a, &b) <==> x == y),
        (a, b) matches (Value::String(x), Value::String(y)) ==> (PartialEqSpec::eq_spec(&a, &b) <==> x@ == y@),
        (a, b) matches (Value::Double(x), Value::Double(y)) ==> (PartialEqSpec::eq_spec(&a, &b) <==> (
            (x & 0x7fff_ffff_ffff_ffffu64) <= 0x7ff0_0000_0000_0000u64
            && (y & 0x7fff_ffff_ffff_ffffu64) <= 0x7ff0_0000_0000_0000u64
            && (x == y || ((x & 0x7fff_ffff_ffff_ffffu64) == 0
                && (y & 0x7fff_ffff_ffff_ffffu64) == 0)))),
{
    match (a, b) {
        (Value::Double(x), Value::Double(y)) => {
            crate::binary64::lemma_binary64_equal_laws(x, y);
        },
        _ => {},
    }
}

} // verus!
