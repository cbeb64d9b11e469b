use vstd::prelude::*;
use vstd::string::*;

verus! {

/// Errors of the byte-trace pipeline, one kind per failing stage.
#[derive(Debug)]
pub enum MobileError {
    /// A program or proof document could not be parsed or written.
    Json(String),
    /// The entry point is missing or the executor reported a fault.
    Vm(String),
    /// The execution output could not be turned into prover input.
    Adapter(String),
    /// The prover failed.
    Proof(String),
    /// The proof did not verify.
    Verification(String),
}

/// Errors of the stand-alone execution module.
#[derive(Debug)]
pub enum MobileVmError {
    Vm { message: String },
    Io { message: String },
    Json { message: String },
}

/// Errors of the field-element pipeline.
#[derive(Debug)]
pub enum NoirProverError {
    /// The prover could not be built, or its inputs could not be read.
    CreationError(String),
    /// Witness or proof generation failed.
    ProofGenerationError(String),
    /// The proof could not be read or did not verify.
    VerificationError(String),
    /// The return value could not be rendered.
    ReturnValueError(String),
}

/// `prefix` followed by `message`.
pub open spec fn prefixed(prefix: Seq<char>, message: Seq<char>) -> Seq<char> {
    prefix + message
}

fn with_prefix(prefix: &str, message: &String) -> (r: String)
    ensures
        r@ == prefixed(prefix@, message@),
{
    let r = String::from_str(prefix);
    r.concat(message.as_str())
}

impl MobileError {
    /// The backend's message carried by the error, unchanged.
    pub open spec fn message_view(&self) -> Seq<char> {
        match self {
            MobileError::Json(m) => m@,
            MobileError::Vm(m) => m@,
            MobileError::Adapter(m) => m@,
            MobileError::Proof(m) => m@,
            MobileError::Verification(m) => m@,
        }
    }

    pub open spec fn text(&self) -> Seq<char> {
        match self {
            MobileError::Json(m) => prefixed("JSON parsing error: "@, m@),
            MobileError::Vm(m) => prefixed("VM Error: "@, m@),
            MobileError::Adapter(m) => prefixed("Adapter error: "@, m@),
            MobileError::Proof(m) => prefixed("Proof generation error: "@, m@),
            MobileError::Verification(m) => prefixed("Verification error: "@, m@),
        }
    }

    /// The human-readable text of the error: its stage, then the backend's message.
    pub fn to_string(&self) -> (r: String)
        ensures
            r@ == self.text(),
    {
        match self {
            MobileError::Json(m) => with_prefix("JSON parsing error: ", m),
            MobileError::Vm(m) => with_prefix("VM Error: ", m),
            MobileError::Adapter(m) => with_prefix("Adapter error: ", m),
            MobileError::Proof(m) => with_prefix("Proof generation error: ", m),
            MobileError::Verification(m) => with_prefix("Verification error: ", m),
        }
    }
}

impl MobileVmError {
    pub open spec fn text(&self) -> Seq<char> {
        match self {
            MobileVmError::Vm { message } => prefixed("VM Error: "@, message@),
            MobileVmError::Io { message } => prefixed("IO Error: "@, message@),
            MobileVmError::Json { message } => prefixed("JSON parsing error: "@, message@),
        }
    }

    /// A fault reported by the executor, its memory or its runner.
    pub fn from_vm_message(message: String) -> (r: MobileVmError)
        ensures
            r == (MobileVmError::Vm { message }),
    {
        MobileVmError::Vm { message }
    }

    pub fn to_string(&self) -> (r: String)
        ensures
            r@ == self.text(),
    {
        match self {
            MobileVmError::Vm { message } => with_prefix("VM Error: ", message),
            MobileVmError::Io { message } => with_prefix("IO Error: ", message),
            MobileVmError::Json { message } => with_prefix("JSON parsing error: ", message),
        }
    }
}

impl NoirProverError {
    pub open spec fn text(&self) -> Seq<char> {
        match self {
            NoirProverError::CreationError(m) => prefixed("Failed to create prover: "@, m@),
            NoirProverError::ProofGenerationError(m) => prefixed(
                "Failed to generate proof: "@,
                m@,
            ),
            NoirProverError::VerificationError(m) => prefixed("Failed to verify proof: "@, m@),
            NoirProverError::ReturnValueError(m) => prefixed(
                "Failed to serialize return value: "@,
                m@,
            ),
        }
    }

    pub fn to_string(&self) -> (r: String)
        ensures
            r@ == self.text(),
    {
        match self {
            NoirProverError::CreationError(m) => with_prefix("Failed to create prover: ", m),
            NoirProverError::ProofGenerationError(m) => with_prefix(
                "Failed to generate proof: ",
                m,
            ),
            NoirProverError::VerificationError(m) => with_prefix("Failed to verify proof: ", m),
            NoirProverError::ReturnValueError(m) => with_prefix(
                "Failed to serialize return value: ",
                m,
            ),
        }
    }
}

/// The steps of the field-element pipeline, each of which can fail.
#[derive(Debug, Clone, Copy, PartialEq, Eq, Structural)]
pub enum NoirStep {
    LoadCircuit,
    BuildProofScheme,
    ParseInputs,
    EncodeInputs,
    ExecuteCircuit,
    DecodeWitness,
    Prove,
    RenderReturnValue,
    SerializeProof,
    DeserializeProof,
    VerifyProof,
}

/// The error kind that a failure of each step is reported under: loading,
/// building and reading inputs are creation errors; witness and proof
/// generation are generation errors; writing, reading and checking a proof
/// are verification errors.
pub open spec fn noir_error_of(step: NoirStep, message: String) -> NoirProverError {
    match step {
        NoirStep::LoadCircuit | NoirStep::BuildProofScheme | NoirStep::ParseInputs
        | NoirStep::EncodeInputs => NoirProverError::CreationError(message),
        NoirStep::ExecuteCircuit | NoirStep::DecodeWitness | NoirStep::Prove => {
            NoirProverError::ProofGenerationError(message)
        },
        NoirStep::RenderReturnValue => NoirProverError::ReturnValueError(message),
        NoirStep::SerializeProof | NoirStep::DeserializeProof | NoirStep::VerifyProof => {
            NoirProverError::VerificationError(message)
        },
    }
}

impl NoirProverError {
    /// The error for a failed step, carrying the backend's message unchanged.
    pub fn for_step(step: NoirStep, message: String) -> (r: NoirProverError)
        ensures
            r == noir_error_of(step, message),
    {
        match step {
            NoirStep::LoadCircuit | NoirStep::BuildProofScheme | NoirStep::ParseInputs
            | NoirStep::EncodeInputs => NoirProverError::CreationError(message),
            NoirStep::ExecuteCircuit | NoirStep::DecodeWitness | NoirStep::Prove => {
                NoirProverError::ProofGenerationError(message)
            },
            NoirStep::RenderReturnValue => NoirProverError::ReturnValueError(message),
            NoirStep::SerializeProof | NoirStep::DeserializeProof | NoirStep::VerifyProof => {
                NoirProverError::VerificationError(message)
            },
        }
    }
}

} // verus!
