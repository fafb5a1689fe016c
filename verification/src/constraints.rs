//! The operator constraints report.

use vstd::prelude::*;
use crate::sys::{
    regor_operator_constraints_report_t, regor_operator_constraints_t, REGOR_MAX_CONSTRAINTS,
};
use crate::text::{c_text, c_text_of};

verus! {

/// A single operator's constraints (reasons it may not be accelerated).
#[derive(Debug, Clone)]
pub struct OperatorConstraints {
    pub operator_name: String,
    pub constraints: Vec<String>,
}

/// Report of all operator constraints from TFLite analysis.
#[derive(Debug, Clone)]
pub struct ConstraintsReport {
    pub operators: Vec<OperatorConstraints>,
}

/// How many constraint entries of a C record are in use: its count, or none
/// where the count is negative.
pub open spec fn used_constraints(raw: regor_operator_constraints_t) -> int {
    if raw.constraints < 0 {
        0
    } else {
        raw.constraints as int
    }
}

/// Whether a C record names no more constraints than it holds.
pub open spec fn record_in_bounds(raw: regor_operator_constraints_t) -> bool {
    used_constraints(raw) <= raw.constraint@.len()
}

/// Whether `o` is the C record `raw` read into Rust values.
pub open spec fn operator_read_from(o: OperatorConstraints, raw: regor_operator_constraints_t) -> bool {
    &&& o.operator_name@ == c_text_of(raw.operator_name@)
    &&& o.constraints@.len() == used_constraints(raw)
    &&& forall|i: int|
        0 <= i < used_constraints(raw) ==> (#[trigger] o.constraints@[i])@ == c_text_of(
            raw.constraint@[i]@,
        )
}

/// The operator records a report carries: none where the C pointer is null
/// or the count is not positive, else those it points at.
pub open spec fn reported_operators(raw: regor_operator_constraints_report_t) -> Seq<
    regor_operator_constraints_t,
> {
    match raw.op_constraints {
        Some(v) => if raw.operators <= 0 {
            Seq::empty()
        } else {
            v@
        },
        None => Seq::empty(),
    }
}

fn read_operator(raw: &regor_operator_constraints_t) -> (o: OperatorConstraints)
    requires
        record_in_bounds(*raw),
    ensures
        operator_read_from(o, *raw),
{
    let count: usize = if raw.constraints < 0 {
        0
    } else {
        raw.constraints as usize
    };
    let mut constraints: Vec<String> = Vec::new();
    let mut i: usize = 0;
    while i < count
        invariant
            count == used_constraints(*raw),
            count <= raw.constraint@.len(),
            0 <= i <= count,
            constraints@.len() == i,
            forall|j: int|
                0 <= j < i ==> (#[trigger] constraints@[j])@ == c_text_of(raw.constraint@[j]@),
        decreases count - i,
    {
        constraints.push(c_text(raw.constraint[i].as_slice()));
        i += 1;
    }
    OperatorConstraints { operator_name: c_text(raw.operator_name.as_slice()), constraints }
}

impl ConstraintsReport {
    /// Read the report regor filled in.
    ///
    /// Each record must name no more constraints than its array holds.
    pub fn from_raw(raw: &regor_operator_constraints_report_t) -> (r: ConstraintsReport)
        requires
            forall|i: int|
                0 <= i < reported_operators(*raw).len() ==> record_in_bounds(
                    #[trigger] reported_operators(*raw)[i],
                ),
        ensures
            r.operators@.len() == reported_operators(*raw).len(),
            forall|i: int|
                0 <= i < reported_operators(*raw).len() ==> operator_read_from(
                    #[trigger] r.operators@[i],
                    reported_operators(*raw)[i],
                ),
            raw.well_formed() ==> r.operators@.len() == if raw.op_constraints is Some
                && raw.operators > 0 {
                raw.operators as int
            } else {
                0
            },
    {
        let mut operators: Vec<OperatorConstraints> = Vec::new();
        if let Some(records) = &raw.op_constraints {
            if raw.operators > 0 {
                let mut k: usize = 0;
                while k < records.len()
                    invariant
                        records@ == reported_operators(*raw),
                        forall|i: int|
                            0 <= i < records@.len() ==> record_in_bounds(#[trigger] records@[i]),
                        0 <= k <= records@.len(),
                        operators@.len() == k,
                        forall|j: int|
                            0 <= j < k ==> operator_read_from(#[trigger] operators@[j], records@[j]),
                    decreases records.len() - k,
                {
                    operators.push(read_operator(&records[k]));
                    k += 1;
                }
            }
        }
        ConstraintsReport { operators }
    }
}

/// A record of the C shape whose count is within `REGOR_MAX_CONSTRAINTS`
/// names no more constraints than it holds.
pub proof fn lemma_bounded_record_in_bounds(raw: regor_operator_constraints_t)
    requires
        raw.well_formed(),
        raw.constraints <= REGOR_MAX_CONSTRAINTS,
    ensures
        record_in_bounds(raw),
{
}

} // verus!
