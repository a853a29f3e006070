//! Job dispatch: the OPC UA for ISA-95 Job Control model (OPC 10031-4 v2.0).
//!
//! A [`JobOrder`] is a request for a unit of work. The gateway exposes a
//! JobOrderReceiver (methods Store / StoreAndStart / Start / Stop / Cancel /
//! Pause / Resume / Abort / Clear) and tracks each order through its
//! [`JobState`] lifecycle; the assigned driver executes it.
//!
//! The actual machine payload (e.g. a cut-list CSV) rides as a
//! [`JobParameter`]: opaque to the gateway, meaningful only to the driver and
//! the upstream producer.

use vstd::prelude::*;
use vstd::std_specs::cmp::{PartialEqSpec, PartialEqSpecImpl};

use crate::binary64::{binary64_eq, binary64_equal};

verus! {

/// An ISA-95 Job Order (`ISA95JobOrderDataType`, subset).
#[derive(Debug, Clone, PartialEq)]
pub struct JobOrder {
    /// `JobOrderID`: unique identifier of this order.
    pub job_order_id: String,
    /// `Description`: human-readable description.
    pub description: Option<String>,
    /// `WorkMasterID`: the recipe / definition this order instantiates.
    pub work_master_id: Option<String>,
    /// `JobOrderParameters`: the inputs, including the machine payload.
    pub parameters: Vec<JobParameter>,
}

/// One `ISA95ParameterDataType`.
#[derive(Debug, Clone, PartialEq)]
pub struct JobParameter {
    /// `ID`: parameter key, e.g. `"CutListCsv"`.
    pub id: String,
    pub value: ParameterValue,
}

/// A job-parameter value. Bytes carry opaque machine payloads (CSV, G-code, ...).
///
/// `==` compares numbers as `f64` does (a NaN equals nothing, `+0.0` equals
/// `-0.0`), text and bytes by content. The derived `Debug` prints a number as
/// its bit pattern.
#[derive(Debug, Clone)]
pub enum ParameterValue {
    Text(String),
    /// A number, held as the IEEE 754 binary64 bit pattern of its value
    /// (`f64::to_bits` / `f64::from_bits`).
    Number(u64),
    Bytes(Vec<u8>),
}

/// Whether two byte strings have the same content.
fn bytes_eq(a: &Vec<u8>, b: &Vec<u8>) -> (r: bool)
    ensures
        r == (a@ == b@),
{
    if a.len() != b.len() {
        return false;
    }
    let n = a.len();
    let mut i: usize = 0;
    while i < n
        invariant
            n == a@.len(),
            n == b@.len(),
            i <= n,
            forall|k: int| 0 <= k < i ==> a@[k] == b@[k],
        decreases n - i,
    {
        if a[i] != b[i] {
            return false;
        }
        i = i + 1;
    }
    assert(a@ =~= b@);
    true
}

impl PartialEq for ParameterValue {
    fn eq(&self, other: &Self) -> (r: bool) {
        match self {
            ParameterValue::Text(a) => match other {
                ParameterValue::Text(b) => a.eq(b),
                _ => false,
            },
            ParameterValue::Number(a) => match other {
                ParameterValue::Number(b) => binary64_eq(*a, *b),
                _ => false,
            },
            ParameterValue::Bytes(a) => match other {
                ParameterValue::Bytes(b) => bytes_eq(a, b),
                _ => false,
            },
        }
    }
}

impl PartialEqSpecImpl for ParameterValue {
    open spec fn obeys_eq_spec() -> bool {
        true
    }

    open spec fn eq_spec(&self, other: &Self) -> bool {
        match (*self, *other) {
            (ParameterValue::Text(a), ParameterValue::Text(b)) => a@ == b@,
            (ParameterValue::Number(a), ParameterValue::Number(b)) => binary64_equal(a, b),
            (ParameterValue::Bytes(a), ParameterValue::Bytes(b)) => a@ == b@,
            _ => false,
        }
    }
}

/// Equality of parameter values: values of different variants are unequal;
/// text and bytes are equal exactly when their contents are; numbers are
/// equal exactly when neither is a NaN and their bit patterns agree or both
/// are zeros, so numbers that differ in sign or magnitude are unequal.
/// Equality is symmetric.
pub proof fn lemma_parameter_value_eq(a: ParameterValue, b: ParameterValue)
    ensures
        PartialEqSpec::eq_spec(&a, &b) == PartialEqSpec::eq_spec(&b, &a),
        (a is Text && !(b is Text)) || (a is Number && !(b is Number)) || (a is Bytes && !(
        b is Bytes)) ==> !PartialEqSpec::eq_spec(&a, &b),
        (a, b) matches (ParameterValue::Text(x), ParameterValue::Text(y)) ==> (
        PartialEqSpec::eq_spec(&a, &b) <==> x@ == y@),
        (a, b) matches (ParameterValue::Bytes(x), ParameterValue::Bytes(y)) ==> (
        PartialEqSpec::eq_spec(&a, &b) <==> x@ == y@),
        (a, b) matches (ParameterValue::Number(x), ParameterValue::Number(y)) ==> (
        PartialEqSpec::eq_spec(&a, &b) <==> (
            (x & 0x7fff_ffff_ffff_ffffu64) <= 0x7ff0_0000_0000_0000u64
            && (y & 0x7fff_ffff_ffff_ffffu64) <= 0x7ff0_0000_0000_0000u64
            && (x == y || ((x & 0x7fff_ffff_ffff_ffffu64) == 0
                && (y & 0x7fff_ffff_ffff_ffffu64) == 0)))),
{
    match (a, b) {
        (ParameterValue::Number(x), ParameterValue::Number(y)) => {
            crate::binary64::lemma_binary64_equal_laws(x, y);
        },
        _ => {},
    }
}

/// The bytes of the first parameter in `ps` whose value is bytes, if any.
pub open spec fn first_payload(ps: Seq<JobParameter>) -> Option<Seq<u8>>
    decreases ps.len(),
{
    if ps.len() == 0 {
        None
    } else {
        match ps[0].value {
            ParameterValue::Bytes(b) => Some(b@),
            _ => first_payload(ps.drop_first()),
        }
    }
}

/// `j` is the order built from an order id, a payload id and payload bytes:
/// no description, no work master, and exactly one parameter carrying the bytes.
pub open spec fn is_payload_order(
    j: JobOrder,
    job_order_id: Seq<char>,
    payload_id: Seq<char>,
    payload: Seq<u8>,
) -> bool {
    &&& j.job_order_id@ == job_order_id
    &&& j.description is None
    &&& j.work_master_id is None
    &&& j.parameters@.len() == 1
    &&& j.parameters@[0].id@ == payload_id
    &&& j.parameters@[0].value matches ParameterValue::Bytes(b) && b@ == payload
}

impl JobOrder {
    /// Build a job carrying a single payload parameter (the common case).
    pub fn with_payload(job_order_id: &str, payload_id: &str, payload: Vec<u8>) -> (j: Self)
        ensures
            is_payload_order(j, job_order_id@, payload_id@, payload@),
            j.job_order_id@ == job_order_id@,
            j.description is None,
            j.work_master_id is None,
            j.parameters@.len() == 1,
            j.parameters@[0].id@ == payload_id@,
            j.parameters@[0].value matches ParameterValue::Bytes(b) && b@ == payload@,
    {
        JobOrder {
            job_order_id: job_order_id.to_owned(),
            description: None,
            work_master_id: None,
            parameters: vec![JobParameter { id: payload_id.to_owned(), value: ParameterValue::Bytes(payload) }],
        }
    }

    /// First parameter whose value is bytes: the conventional machine payload.
    pub fn payload(&self) -> (r: Option<&[u8]>)
        ensures
            r is None <==> first_payload(self.parameters@) is None,
            r matches Some(b) ==> first_payload(self.parameters@) == Some(b@),
    {
        let n = self.parameters.len();
        let mut i: usize = 0;
        assert(self.parameters@.skip(0) =~= self.parameters@);
        while i < n
            invariant
                n == self.parameters@.len(),
                i <= n,
                first_payload(self.parameters@) == first_payload(self.parameters@.skip(i as int)),
            decreases n - i,
        {
            assert(self.parameters@.skip(i as int).drop_first() =~= self.parameters@.skip(i + 1));
            match &self.parameters[i].value {
                ParameterValue::Bytes(b) => {
                    return Some(b.as_slice());
                },
                _ => {},
            }
            i = i + 1;
        }
        None
    }
}

/// The payload is found exactly at the first parameter that holds bytes:
/// `first_payload(ps)` is `Some(b)` if and only if some parameter `i` holds the
/// bytes `b` and no parameter before `i` holds bytes.
pub proof fn lemma_first_payload_is_first_bytes(ps: Seq<JobParameter>, b: Seq<u8>)
    ensures
        first_payload(ps) == Some(b) <==> exists|i: int|
            0 <= i < ps.len()
            && (#[trigger] ps[i].value matches ParameterValue::Bytes(v) && v@ == b)
            && forall|k: int| 0 <= k < i ==> !(ps[k].value is Bytes),
    decreases ps.len(),
{
    if ps.len() > 0 {
        lemma_first_payload_is_first_bytes(ps.drop_first(), b);
        if first_payload(ps) == Some(b) {
            match ps[0].value {
                ParameterValue::Bytes(v) => {
                    assert(ps[0].value matches ParameterValue::Bytes(v) && v@ == b);
                },
                _ => {
                    let i = choose|i: int|
                        0 <= i < ps.drop_first().len()
                        && (#[trigger] ps.drop_first()[i].value matches ParameterValue::Bytes(v) && v@ == b)
                        && forall|k: int| 0 <= k < i ==> !(ps.drop_first()[k].value is Bytes);
                    assert(ps[i + 1] == ps.drop_first()[i]);
                    assert forall|k: int| 0 <= k < i + 1 implies !(ps[k].value is Bytes) by {
                        if k > 0 {
                            assert(ps[k] == ps.drop_first()[k - 1]);
                        }
                    }
                },
            }
        } else {
            if exists|i: int|
                0 <= i < ps.len()
                && (#[trigger] ps[i].value matches ParameterValue::Bytes(v) && v@ == b)
                && forall|k: int| 0 <= k < i ==> !(ps[k].value is Bytes)
            {
                let i = choose|i: int|
                    0 <= i < ps.len()
                    && (#[trigger] ps[i].value matches ParameterValue::Bytes(v) && v@ == b)
                    && forall|k: int| 0 <= k < i ==> !(ps[k].value is Bytes);
                if i == 0 {
                } else {
                    assert(ps.drop_first()[i - 1] == ps[i]);
                    assert forall|k: int| 0 <= k < i - 1 implies !(ps.drop_first()[k].value is Bytes) by {
                        assert(ps.drop_first()[k] == ps[k + 1]);
                    }
                    assert(ps.drop_first()[i - 1].value matches ParameterValue::Bytes(v) && v@ == b);
                }
            }
        }
    }
}

/// The payload depends only on the parameters' values and their order:
/// parameter lists whose values agree position by position give the same
/// payload, whatever their ids.
pub proof fn lemma_payload_depends_on_values(ps: Seq<JobParameter>, qs: Seq<JobParameter>)
    requires
        ps.len() == qs.len(),
        forall|i: int| 0 <= i < ps.len() ==> #[trigger] ps[i].value == qs[i].value,
    ensures
        first_payload(ps) == first_payload(qs),
    decreases ps.len(),
{
    if ps.len() > 0 {
        assert(ps[0].value == qs[0].value);
        assert forall|i: int| 0 <= i < ps.drop_first().len() implies #[trigger] ps.drop_first()[i].value
            == qs.drop_first()[i].value by {
            assert(ps[i + 1].value == qs[i + 1].value);
        }
        lemma_payload_depends_on_values(ps.drop_first(), qs.drop_first());
    }
}

/// What an order built with a payload gives back as its payload is that
/// payload, and its id is the id it was built with.
pub proof fn lemma_payload_roundtrip(
    j: JobOrder,
    job_order_id: Seq<char>,
    payload_id: Seq<char>,
    payload: Seq<u8>,
)
    requires
        is_payload_order(j, job_order_id, payload_id, payload),
    ensures
        first_payload(j.parameters@) == Some(payload),
        j.job_order_id@ == job_order_id,
{
}

/// Job-order lifecycle state, using the ISA-95 Job Control state names
/// (OPC 10031-4): `Store` lands an order in `NotAllowedToStart`; `Start` /
/// `StoreAndStart` move it to `AllowedToStart`; execution begins: `Running`;
/// `Pause`: `Interrupted`; it ends `Completed` or `Aborted`.
#[derive(Debug, Clone, Copy, PartialEq, Eq, Structural)]
pub enum JobState {
    /// Stored in the receiver, not yet permitted to run.
    NotAllowedToStart,
    /// Permitted to run; will execute when the machine is ready.
    AllowedToStart,
    /// Currently executing on the machine.
    Running,
    /// Paused (after `Pause`), resumable via `Resume`.
    Interrupted,
    /// Finished successfully.
    Completed,
    /// Aborted / cancelled / stopped before completion.
    Aborted,
}

impl JobState {
    /// The ISA-95 state name, as a sequence of characters.
    pub open spec fn state_name(self) -> Seq<char> {
        match self {
            JobState::NotAllowedToStart => "NotAllowedToStart"@,
            JobState::AllowedToStart => "AllowedToStart"@,
            JobState::Running => "Running"@,
            JobState::Interrupted => "Interrupted"@,
            JobState::Completed => "Completed"@,
            JobState::Aborted => "Aborted"@,
        }
    }

    /// Whether the state is terminal: the order has ended.
    pub open spec fn terminal(self) -> bool {
        self is Completed || self is Aborted
    }

    /// The ISA-95 state name.
    pub fn as_str(&self) -> (name: &'static str)
        ensures
            name@ == self.state_name(),
            *self is NotAllowedToStart ==> name@ == "NotAllowedToStart"@,
            *self is AllowedToStart ==> name@ == "AllowedToStart"@,
            *self is Running ==> name@ == "Running"@,
            *self is Interrupted ==> name@ == "Interrupted"@,
            *self is Completed ==> name@ == "Completed"@,
            *self is Aborted ==> name@ == "Aborted"@,
    {
        match self {
            JobState::NotAllowedToStart => "NotAllowedToStart",
            JobState::AllowedToStart => "AllowedToStart",
            JobState::Running => "Running",
            JobState::Interrupted => "Interrupted",
            JobState::Completed => "Completed",
            JobState::Aborted => "Aborted",
        }
    }

    /// Terminal states no longer eligible for execution.
    pub fn is_terminal(&self) -> (t: bool)
        ensures
            t == self.terminal(),
            t <==> (*self is Completed || *self is Aborted),
    {
        match self {
            JobState::Completed | JobState::Aborted => true,
            _ => false,
        }
    }
}

/// Distinct job states have distinct state names.
pub proof fn lemma_job_state_names_distinct(a: JobState, b: JobState)
    requires
        a != b,
    ensures
        a.state_name() != b.state_name(),
{
    reveal_strlit("NotAllowedToStart");
    reveal_strlit("AllowedToStart");
    reveal_strlit("Running");
    reveal_strlit("Interrupted");
    reveal_strlit("Completed");
    reveal_strlit("Aborted");
    assert("NotAllowedToStart"@.len() == 17);
    assert("AllowedToStart"@.len() == 14);
    assert("Running"@.len() == 7);
    assert("Interrupted"@.len() == 11);
    assert("Completed"@.len() == 9);
    assert("Aborted"@.len() == 7);
    assert("Running"@[0] != "Aborted"@[0]);
}

} // verus!
