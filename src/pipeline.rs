use vstd::prelude::*;

use crate::error::MobileError;
use crate::inputs::{materialize_positional, runner_inputs};
use crate::metrics::{
    frequency, frequency_of, lemma_frequency_finite_positive, RunProofRecord, NANOS_PER_SECOND,
};
use crate::program::{missing_entrypoint_text, named, ProgramInterface};

verus! {

/// Where one request of the byte-trace pipeline stands. Each stage names the
/// work that the driver performs next, and holds what the earlier stages
/// produced; `Finished` and `Failed` are terminal.
#[derive(Debug)]
pub enum RunStage {
    /// Entry point resolved and inputs materialized: execute next.
    Ready { runner_inputs: Vec<u32> },
    /// Executed: adapt the execution output into prover input next.
    Executed { return_values: Vec<u32>, num_steps: u64, execution_nanos: u64 },
    /// Adapted: prove next.
    Adapted { return_values: Vec<u32>, num_steps: u64, execution_nanos: u64 },
    /// Proved: serialize the proof next.
    Proved {
        return_values: Vec<u32>,
        num_steps: u64,
        execution_nanos: u64,
        proof_nanos: u64,
        overall_nanos: u64,
        proof_size: u32,
    },
    Finished(RunProofRecord),
    Failed(MobileError),
}

/// What the driver reports after performing the work that a stage names.
#[derive(Debug)]
pub enum StageEvent {
    Executed { return_values: Vec<u32>, num_steps: u64, nanos: u64 },
    Adapted,
    Proved { proof_nanos: u64, overall_nanos: u64, proof_size: u32 },
    Serialized { proof: String },
    /// The work failed, with the backend's message.
    Failed(String),
}

/// The record of a finished run.
pub open spec fn run_record(
    return_values: Vec<u32>,
    num_steps: u64,
    execution_nanos: u64,
    proof_nanos: u64,
    overall_nanos: u64,
    proof_size: u32,
    proof: String,
) -> RunProofRecord {
    RunProofRecord {
        return_values,
        num_steps,
        execution_nanos,
        proof_nanos,
        overall_nanos,
        execution_frequency: frequency_of(num_steps, execution_nanos),
        proof_frequency: frequency_of(num_steps, proof_nanos),
        overall_frequency: frequency_of(num_steps, overall_nanos),
        proof_size,
        proof,
    }
}

/// The stage that follows `stage` once `event` is reported. A failure ends the
/// request with the error of the stage that failed; an event that does not
/// answer the stage's work leaves the stage as it is, and so does any event on
/// a terminal stage.
pub open spec fn next_stage(stage: RunStage, event: StageEvent) -> RunStage {
    match (stage, event) {
        (RunStage::Ready { .. }, StageEvent::Executed { return_values, num_steps, nanos }) => {
            RunStage::Executed { return_values, num_steps, execution_nanos: nanos }
        },
        (RunStage::Ready { .. }, StageEvent::Failed(m)) => RunStage::Failed(MobileError::Vm(m)),
        (
            RunStage::Executed { return_values, num_steps, execution_nanos },
            StageEvent::Adapted,
        ) => RunStage::Adapted { return_values, num_steps, execution_nanos },
        (RunStage::Executed { .. }, StageEvent::Failed(m)) => RunStage::Failed(
            MobileError::Adapter(m),
        ),
        (
            RunStage::Adapted { return_values, num_steps, execution_nanos },
            StageEvent::Proved { proof_nanos, overall_nanos, proof_size },
        ) => RunStage::Proved {
            return_values,
            num_steps,
            execution_nanos,
            proof_nanos,
            overall_nanos,
            proof_size,
        },
        (RunStage::Adapted { .. }, StageEvent::Failed(m)) => RunStage::Failed(
            MobileError::Proof(m),
        ),
        (
            RunStage::Proved {
                return_values,
                num_steps,
                execution_nanos,
                proof_nanos,
                overall_nanos,
                proof_size,
            },
            StageEvent::Serialized { proof },
        ) => RunStage::Finished(
            run_record(
                return_values,
                num_steps,
                execution_nanos,
                proof_nanos,
                overall_nanos,
                proof_size,
                proof,
            ),
        ),
        (RunStage::Proved { .. }, StageEvent::Failed(m)) => RunStage::Failed(MobileError::Json(m)),
        (s, _) => s,
    }
}

/// Starts a request: resolves the entry point and materializes the positional
/// inputs against its arity (values beyond it are dropped). A missing entry
/// point ends the request at once.
pub fn start_run(program: &ProgramInterface, entrypoint_name: &String, inputs: &Vec<u32>) -> (r:
    RunStage)
    ensures
        r is Failed <==> !program.has_entrypoint(entrypoint_name@),
        r matches RunStage::Failed(e) ==> e is Vm && e.message_view() == missing_entrypoint_text(
            entrypoint_name@,
        ),
        r matches RunStage::Ready { runner_inputs: materialized } ==> exists|i: int|
            named(program.entrypoints@, i, entrypoint_name@) && materialized@ == runner_inputs(
                inputs@,
                program.entrypoints@[i].num_args as nat,
            ),
        r is Ready || r is Failed,
{
    match program.resolve_entrypoint(entrypoint_name) {
        Ok(entrypoint) => RunStage::Ready {
            runner_inputs: materialize_positional(inputs, entrypoint.num_args),
        },
        Err(e) => RunStage::Failed(e),
    }
}

/// Moves a request on by one stage (see `next_stage`).
pub fn advance(stage: RunStage, event: StageEvent) -> (r: RunStage)
    ensures
        r == next_stage(stage, event),
{
    match (stage, event) {
        (RunStage::Ready { .. }, StageEvent::Executed { return_values, num_steps, nanos }) => {
            RunStage::Executed { return_values, num_steps, execution_nanos: nanos }
        },
        (RunStage::Ready { .. }, StageEvent::Failed(m)) => RunStage::Failed(MobileError::Vm(m)),
        (
            RunStage::Executed { return_values, num_steps, execution_nanos },
            StageEvent::Adapted,
        ) => RunStage::Adapted { return_values, num_steps, execution_nanos },
        (RunStage::Executed { .. }, StageEvent::Failed(m)) => RunStage::Failed(
            MobileError::Adapter(m),
        ),
        (
            RunStage::Adapted { return_values, num_steps, execution_nanos },
            StageEvent::Proved { proof_nanos, overall_nanos, proof_size },
        ) => RunStage::Proved {
            return_values,
            num_steps,
            execution_nanos,
            proof_nanos,
            overall_nanos,
            proof_size,
        },
        (RunStage::Adapted { .. }, StageEvent::Failed(m)) => RunStage::Failed(
            MobileError::Proof(m),
        ),
        (
            RunStage::Proved {
                return_values,
                num_steps,
                execution_nanos,
                proof_nanos,
                overall_nanos,
                proof_size,
            },
            StageEvent::Serialized { proof },
        ) => RunStage::Finished(
            RunProofRecord {
                return_values,
                num_steps,
                execution_nanos,
                proof_nanos,
                overall_nanos,
                execution_frequency: frequency(num_steps, execution_nanos),
                proof_frequency: frequency(num_steps, proof_nanos),
                overall_frequency: frequency(num_steps, overall_nanos),
                proof_size,
                proof,
            },
        ),
        (RunStage::Proved { .. }, StageEvent::Failed(m)) => RunStage::Failed(MobileError::Json(m)),
        (s, _) => s,
    }
}

/// The stage reached from `Ready` when execution, adaptation, proving and
/// serialization all succeed with the values given.
pub open spec fn successful_run(
    runner_inputs: Vec<u32>,
    return_values: Vec<u32>,
    num_steps: u64,
    execution_nanos: u64,
    proof_nanos: u64,
    overall_nanos: u64,
    proof_size: u32,
    proof: String,
) -> RunStage {
    let executed = next_stage(
        RunStage::Ready { runner_inputs },
        StageEvent::Executed { return_values, num_steps, nanos: execution_nanos },
    );
    let adapted = next_stage(executed, StageEvent::Adapted);
    let proved = next_stage(adapted, StageEvent::Proved { proof_nanos, overall_nanos, proof_size });
    next_stage(proved, StageEvent::Serialized { proof })
}

/// Runs whose executions report the same return values and step count finish
/// with records that report the same return values and step count, however
/// long each stage took and whatever proof came out.
pub proof fn lemma_reported_values_ignore_timing(
    runner_inputs: Vec<u32>,
    return_values: Vec<u32>,
    num_steps: u64,
    execution_nanos_a: u64,
    proof_nanos_a: u64,
    overall_nanos_a: u64,
    proof_size_a: u32,
    proof_a: String,
    execution_nanos_b: u64,
    proof_nanos_b: u64,
    overall_nanos_b: u64,
    proof_size_b: u32,
    proof_b: String,
)
    ensures
        ({
            let a = successful_run(
                runner_inputs,
                return_values,
                num_steps,
                execution_nanos_a,
                proof_nanos_a,
                overall_nanos_a,
                proof_size_a,
                proof_a,
            );
            let b = successful_run(
                runner_inputs,
                return_values,
                num_steps,
                execution_nanos_b,
                proof_nanos_b,
                overall_nanos_b,
                proof_size_b,
                proof_b,
            );
            &&& a is Finished
            &&& b is Finished
            &&& a->Finished_0.return_values == b->Finished_0.return_values
            &&& a->Finished_0.return_values == return_values
            &&& a->Finished_0.num_steps == b->Finished_0.num_steps
            &&& a->Finished_0.num_steps == num_steps
        }),
{
}

/// On a finished run whose stages each took some time, every reported
/// frequency is finite, and positive for each stage that handled at least one
/// step per second.
pub proof fn lemma_finished_metrics_finite(
    runner_inputs: Vec<u32>,
    return_values: Vec<u32>,
    num_steps: u64,
    execution_nanos: u64,
    proof_nanos: u64,
    overall_nanos: u64,
    proof_size: u32,
    proof: String,
)
    requires
        execution_nanos > 0,
        proof_nanos > 0,
        overall_nanos > 0,
    ensures
        ({
            let r = successful_run(
                runner_inputs,
                return_values,
                num_steps,
                execution_nanos,
                proof_nanos,
                overall_nanos,
                proof_size,
                proof,
            );
            &&& r is Finished
            &&& r->Finished_0.execution_nanos > 0
            &&& r->Finished_0.proof_nanos > 0
            &&& r->Finished_0.overall_nanos > 0
            &&& r->Finished_0.execution_frequency is Some
            &&& r->Finished_0.proof_frequency is Some
            &&& r->Finished_0.overall_frequency is Some
            &&& num_steps * NANOS_PER_SECOND >= execution_nanos
                ==> r->Finished_0.execution_frequency->Some_0 > 0
            &&& num_steps * NANOS_PER_SECOND >= proof_nanos
                ==> r->Finished_0.proof_frequency->Some_0 > 0
            &&& num_steps * NANOS_PER_SECOND >= overall_nanos
                ==> r->Finished_0.overall_frequency->Some_0 > 0
        }),
{
    lemma_frequency_finite_positive(num_steps, execution_nanos);
    lemma_frequency_finite_positive(num_steps, proof_nanos);
    lemma_frequency_finite_positive(num_steps, overall_nanos);
}

/// A failed request stays failed, with the same error, whatever is reported
/// after: nothing is retried.
pub proof fn lemma_failure_is_terminal(error: MobileError, event: StageEvent)
    ensures
        next_stage(RunStage::Failed(error), event) == RunStage::Failed(error),
{
}

/// Where a verification request stands: the proof document is first
/// deserialized, then checked.
#[derive(Debug)]
pub enum VerifyStage {
    /// The proof document was received: deserialize it next.
    Received,
    /// The proof is in the backend's form: verify it next.
    Deserialized,
    /// The proof verified, in the time given.
    Verified { verification_nanos: u64 },
    Failed(MobileError),
}

#[derive(Debug)]
pub enum VerifyEvent {
    Deserialized,
    Verified { nanos: u64 },
    Failed(String),
}

/// A malformed document fails as a parse error, a proof that does not verify
/// as a verification error, so that callers can tell the two apart.
pub open spec fn next_verify_stage(stage: VerifyStage, event: VerifyEvent) -> VerifyStage {
    match (stage, event) {
        (VerifyStage::Received, VerifyEvent::Deserialized) => VerifyStage::Deserialized,
        (VerifyStage::Received, VerifyEvent::Failed(m)) => VerifyStage::Failed(MobileError::Json(m)),
        (VerifyStage::Deserialized, VerifyEvent::Verified { nanos }) => VerifyStage::Verified {
            verification_nanos: nanos,
        },
        (VerifyStage::Deserialized, VerifyEvent::Failed(m)) => VerifyStage::Failed(
            MobileError::Verification(m),
        ),
        (s, _) => s,
    }
}

/// Moves a verification request on by one stage (see `next_verify_stage`).
pub fn advance_verify(stage: VerifyStage, event: VerifyEvent) -> (r: VerifyStage)
    ensures
        r == next_verify_stage(stage, event),
{
    match (stage, event) {
        (VerifyStage::Received, VerifyEvent::Deserialized) => VerifyStage::Deserialized,
        (VerifyStage::Received, VerifyEvent::Failed(m)) => VerifyStage::Failed(MobileError::Json(m)),
        (VerifyStage::Deserialized, VerifyEvent::Verified { nanos }) => VerifyStage::Verified {
            verification_nanos: nanos,
        },
        (VerifyStage::Deserialized, VerifyEvent::Failed(m)) => VerifyStage::Failed(
            MobileError::Verification(m),
        ),
        (s, _) => s,
    }
}

} // verus!
