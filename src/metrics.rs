use vstd::prelude::*;

use crate::error::NoirProverError;
use crate::render::{return_text, serialize_return_value, InputValue};

verus! {

/// Nanoseconds in a second.
pub const NANOS_PER_SECOND: u128 = 1000000000;

/// Work units per second over a stage that took `nanos` nanoseconds, rounded
/// down; `None` flags a stage too short to be timed, whose frequency is not
/// finite.
pub open spec fn frequency_of(work_units: u64, nanos: u64) -> Option<u128> {
    if nanos == 0 {
        None
    } else {
        Some(((work_units as int * NANOS_PER_SECOND as int) / nanos as int) as u128)
    }
}

/// Computes `frequency_of(work_units, nanos)`.
pub fn frequency(work_units: u64, nanos: u64) -> (r: Option<u128>)
    ensures
        r == frequency_of(work_units, nanos),
{
    if nanos == 0 {
        None
    } else {
        proof {
            assert(work_units as int * NANOS_PER_SECOND as int <= u64::MAX as int
                * NANOS_PER_SECOND as int) by (nonlinear_arith);
            assert((work_units as int * NANOS_PER_SECOND as int) / nanos as int <= work_units as int
                * NANOS_PER_SECOND as int) by (nonlinear_arith)
                requires
                    nanos > 0,
            ;
        }
        Some((work_units as u128 * NANOS_PER_SECOND) / nanos as u128)
    }
}

/// Every frequency is finite whenever its stage took some time, and at least
/// one whenever the stage handled at least one work unit per second.
pub proof fn lemma_frequency_finite_positive(work_units: u64, nanos: u64)
    requires
        nanos > 0,
    ensures
        frequency_of(work_units, nanos) is Some,
        work_units as int * NANOS_PER_SECOND as int >= nanos as int ==> frequency_of(
            work_units,
            nanos,
        )->Some_0 > 0,
{
    if work_units as int * NANOS_PER_SECOND as int >= nanos as int {
        assert((work_units as int * NANOS_PER_SECOND as int) / nanos as int >= 1)
            by (nonlinear_arith)
            requires
                nanos > 0,
                work_units as int * NANOS_PER_SECOND as int >= nanos as int,
        ;
    }
}

/// The outcome of a run of the byte-trace pipeline: return values and metrics.
#[derive(Debug)]
pub struct RunProofRecord {
    pub return_values: Vec<u32>,
    /// Trace steps executed: the work unit of every frequency.
    pub num_steps: u64,
    pub execution_nanos: u64,
    pub proof_nanos: u64,
    pub overall_nanos: u64,
    pub execution_frequency: Option<u128>,
    pub proof_frequency: Option<u128>,
    pub overall_frequency: Option<u128>,
    /// Size of the proof, in bytes.
    pub proof_size: u32,
    /// The proof, serialized.
    pub proof: String,
}

/// The outcome of a run of the field-element pipeline: return value and metrics.
#[derive(Debug)]
pub struct NoirProofRecord {
    pub return_value: String,
    /// The value that the input document's reserved `return` member held,
    /// reported beside the computed one and not checked against it.
    pub expected_return_value: String,
    /// Witness entries: the work unit of every frequency.
    pub constraint_count: u32,
    pub overall_nanos: u64,
    pub witness_generation_nanos: u64,
    pub proof_generation_nanos: u64,
    pub overall_frequency: Option<u128>,
    pub witness_generation_frequency: Option<u128>,
    pub proof_generation_frequency: Option<u128>,
    /// Size of the serialized proof, in bytes.
    pub proof_size: u32,
    pub proof: String,
}

/// Assembles the record of a field-element run from what its stages reported.
pub fn assemble_noir_record(
    return_value: Option<InputValue>,
    expected_return_value: Option<InputValue>,
    constraint_count: u32,
    witness_generation_nanos: u64,
    proof_generation_nanos: u64,
    overall_nanos: u64,
    proof_size: u32,
    proof: String,
) -> (r: Result<NoirProofRecord, NoirProverError>)
    ensures
        r is Ok,
        r matches Ok(rec) ==> {
            &&& rec.return_value@ == return_text(return_value)
            &&& rec.expected_return_value@ == return_text(expected_return_value)
            &&& rec.constraint_count == constraint_count
            &&& rec.overall_nanos == overall_nanos
            &&& rec.witness_generation_nanos == witness_generation_nanos
            &&& rec.proof_generation_nanos == proof_generation_nanos
            &&& rec.overall_frequency == frequency_of(constraint_count as u64, overall_nanos)
            &&& rec.witness_generation_frequency == frequency_of(
                constraint_count as u64,
                witness_generation_nanos,
            )
            &&& rec.proof_generation_frequency == frequency_of(
                constraint_count as u64,
                proof_generation_nanos,
            )
            &&& rec.proof_size == proof_size
            &&& rec.proof == proof
        },
{
    let text = match serialize_return_value(return_value) {
        Ok(t) => t,
        Err(e) => return Err(e),
    };
    let expected = match serialize_return_value(expected_return_value) {
        Ok(t) => t,
        Err(e) => return Err(e),
    };
    let units = constraint_count as u64;
    Ok(
        NoirProofRecord {
            return_value: text,
            expected_return_value: expected,
            constraint_count,
            overall_nanos,
            witness_generation_nanos,
            proof_generation_nanos,
            overall_frequency: frequency(units, overall_nanos),
            witness_generation_frequency: frequency(units, witness_generation_nanos),
            proof_generation_frequency: frequency(units, proof_generation_nanos),
            proof_size,
            proof,
        },
    )
}

/// The outcome of a plain execution of a program's `main`.
#[derive(Debug)]
pub struct VmRunRecord {
    pub return_value: u32,
    /// Trace steps executed.
    pub num_steps: u64,
    pub execution_nanos: u64,
    pub overall_nanos: u64,
    pub steps_per_second_execution: Option<u128>,
    pub steps_per_second_e2e: Option<u128>,
}

/// Assembles the record of a plain execution from what it reported.
pub fn assemble_vm_record(return_value: u32, num_steps: u64, execution_nanos: u64, overall_nanos: u64)
    -> (r: VmRunRecord)
    ensures
        r.return_value == return_value,
        r.num_steps == num_steps,
        r.execution_nanos == execution_nanos,
        r.overall_nanos == overall_nanos,
        r.steps_per_second_execution == frequency_of(num_steps, execution_nanos),
        r.steps_per_second_e2e == frequency_of(num_steps, overall_nanos),
{
    VmRunRecord {
        return_value,
        num_steps,
        execution_nanos,
        overall_nanos,
        steps_per_second_execution: frequency(num_steps, execution_nanos),
        steps_per_second_e2e: frequency(num_steps, overall_nanos),
    }
}

} // verus!
