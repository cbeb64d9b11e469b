//! Orchestration core of a prove-and-verify pipeline: entry-point lookup,
//! input materialization, the stage machines of a proving and a verifying
//! request, return-value rendering, and integer stage metrics. The executor,
//! the prover and the verifier are driven from outside; the decisions are made
//! here.

pub mod error;
pub mod inputs;
pub mod metrics;
pub mod pipeline;
pub mod program;
pub mod render;

pub use error::{MobileError, MobileVmError, NoirProverError, NoirStep};
pub use inputs::{
    m31_from_u32, materialize_positional, plan_named_inputs, split_return_member, InputPlan,
};
pub use metrics::{
    assemble_noir_record, assemble_vm_record, frequency, NoirProofRecord, RunProofRecord,
    VmRunRecord,
};
pub use pipeline::{
    advance, advance_verify, start_run, RunStage, StageEvent, VerifyEvent, VerifyStage,
};
pub use program::{EntryPoint, ProgramInterface};
pub use render::{render_value, serialize_return_value, InputValue};
