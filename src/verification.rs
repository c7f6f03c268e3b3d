use crate::document::{
    json_string_list,
    proof_document,
    proof_document_text,
    public_document,
    ProofData,
};
use crate::pipeline::{Action, Artifact, Event, PipelineError, Tool, WorkFile};
use vstd::prelude::*;

verus! {

/// Why a verification attempt came out negative.
#[derive(Debug, Clone)]
pub enum VerifyFailure {
    /// The verification-key document is absent.
    MissingVerificationKey,
    /// The verifier rejected the proof; its error output.
    Rejected(String),
}

impl VerifyFailure {
    pub open spec fn spec_message(&self) -> Seq<char> {
        match self {
            VerifyFailure::MissingVerificationKey => "verification_key.json not found"@,
            VerifyFailure::Rejected(stderr) => "Verification failed: "@ + stderr@,
        }
    }

    /// The diagnostic reported to the caller.
    pub fn message(&self) -> (r: String)
        ensures
            r@ == self.spec_message(),
    {
        match self {
            VerifyFailure::MissingVerificationKey => {
                let mut m = String::new();
                m.append("verification_key.json not found");
                m
            },
            VerifyFailure::Rejected(stderr) => {
                let mut m = String::new();
                m.append("Verification failed: ");
                m.append(stderr.as_str());
                m
            },
        }
    }
}

/// The result of one verification attempt.
#[derive(Debug, Clone)]
pub struct VerificationOutcome {
    pub verified: bool,
    pub error: Option<VerifyFailure>,
}

/// The stages of a verification request.
#[derive(Debug)]
pub enum VerifyStage {
    Init,
    WorkspaceReady,
    ProofWritten,
    PublicWritten,
    VerificationKeyFound,
    /// Terminal: the outcome, or the fatal error.
    Done(Result<VerificationOutcome, PipelineError>),
}

pub open spec fn verify_action(stage: VerifyStage) -> Action {
    match stage {
        VerifyStage::Init => Action::PrepareWorkspace,
        VerifyStage::WorkspaceReady => Action::WriteFile(WorkFile::Proof),
        VerifyStage::ProofWritten => Action::WriteFile(WorkFile::PublicSignals),
        VerifyStage::PublicWritten => Action::CheckArtifact(Artifact::VerificationKey),
        VerifyStage::VerificationKeyFound => Action::Run(Tool::Verifier),
        VerifyStage::Done(_) => Action::Finish,
    }
}

pub open spec fn verify_after_io(event: Event, next: VerifyStage) -> VerifyStage {
    match event {
        Event::Completed => next,
        Event::IoFailed(m) => VerifyStage::Done(Err(PipelineError::Workspace(m))),
        _ => VerifyStage::Done(Err(PipelineError::UnexpectedEvent)),
    }
}

/// How each stage answers each event. A missing key and a rejected proof
/// are negative outcomes, not errors.
pub open spec fn verify_transition(stage: VerifyStage, event: Event) -> VerifyStage {
    match stage {
        VerifyStage::Init => verify_after_io(event, VerifyStage::WorkspaceReady),
        VerifyStage::WorkspaceReady => verify_after_io(event, VerifyStage::ProofWritten),
        VerifyStage::ProofWritten => verify_after_io(event, VerifyStage::PublicWritten),
        VerifyStage::PublicWritten => match event {
            Event::ArtifactFound(true) => VerifyStage::VerificationKeyFound,
            Event::ArtifactFound(false) => VerifyStage::Done(
                Ok(
                    VerificationOutcome {
                        verified: false,
                        error: Some(VerifyFailure::MissingVerificationKey),
                    },
                ),
            ),
            _ => VerifyStage::Done(Err(PipelineError::UnexpectedEvent)),
        },
        VerifyStage::VerificationKeyFound => match event {
            Event::Exited { success: true, .. } => VerifyStage::Done(
                Ok(VerificationOutcome { verified: true, error: None }),
            ),
            Event::Exited { success: false, stderr } => VerifyStage::Done(
                Ok(VerificationOutcome { verified: false, error: Some(VerifyFailure::Rejected(stderr)) }),
            ),
            Event::SpawnFailed(m) => VerifyStage::Done(Err(PipelineError::VerifierLaunch(m))),
            Event::TimedOut => VerifyStage::Done(Err(PipelineError::Timeout(Tool::Verifier))),
            _ => VerifyStage::Done(Err(PipelineError::UnexpectedEvent)),
        },
        VerifyStage::Done(_) => stage,
    }
}

/// Re-verification of a supplied proof and public inputs against the
/// verification key.
pub struct VerificationJob {
    proof: String,
    public: String,
    stage: VerifyStage,
}

impl VerificationJob {
    pub closed spec fn spec_proof(&self) -> Seq<char> {
        self.proof@
    }

    pub closed spec fn spec_public(&self) -> Seq<char> {
        self.public@
    }

    pub closed spec fn spec_stage(&self) -> VerifyStage {
        self.stage
    }

    /// A job at `Init` holding the documents to write.
    pub fn new(proof: &ProofData, public_inputs: &Vec<String>) -> (r: VerificationJob)
        ensures
            r.spec_proof() == proof_document_text(*proof),
            r.spec_public() == json_string_list(public_inputs@),
            r.spec_stage() is Init,
    {
        VerificationJob {
            proof: proof_document(proof),
            public: public_document(public_inputs),
            stage: VerifyStage::Init,
        }
    }

    pub fn proof_document(&self) -> (r: &str)
        ensures
            r@ == self.spec_proof(),
    {
        self.proof.as_str()
    }

    pub fn public_document(&self) -> (r: &str)
        ensures
            r@ == self.spec_public(),
    {
        self.public.as_str()
    }

    pub fn stage(&self) -> (r: &VerifyStage)
        ensures
            *r == self.spec_stage(),
    {
        &self.stage
    }

    pub fn next_action(&self) -> (r: Action)
        ensures
            r == verify_action(self.spec_stage()),
    {
        match &self.stage {
            VerifyStage::Init => Action::PrepareWorkspace,
            VerifyStage::WorkspaceReady => Action::WriteFile(WorkFile::Proof),
            VerifyStage::ProofWritten => Action::WriteFile(WorkFile::PublicSignals),
            VerifyStage::PublicWritten => Action::CheckArtifact(Artifact::VerificationKey),
            VerifyStage::VerificationKeyFound => Action::Run(Tool::Verifier),
            VerifyStage::Done(_) => Action::Finish,
        }
    }

    /// Moves the job on by the driver's report of the last action.
    pub fn advance(&mut self, event: Event)
        ensures
            final(self).spec_proof() == old(self).spec_proof(),
            final(self).spec_public() == old(self).spec_public(),
            final(self).spec_stage() == verify_transition(old(self).spec_stage(), event),
    {
        let next = match &self.stage {
            VerifyStage::Init => io_step(event, VerifyStage::WorkspaceReady),
            VerifyStage::WorkspaceReady => io_step(event, VerifyStage::ProofWritten),
            VerifyStage::ProofWritten => io_step(event, VerifyStage::PublicWritten),
            VerifyStage::PublicWritten => match event {
                Event::ArtifactFound(true) => VerifyStage::VerificationKeyFound,
                Event::ArtifactFound(false) => VerifyStage::Done(
                    Ok(
                        VerificationOutcome {
                            verified: false,
                            error: Some(VerifyFailure::MissingVerificationKey),
                        },
                    ),
                ),
                _ => VerifyStage::Done(Err(PipelineError::UnexpectedEvent)),
            },
            VerifyStage::VerificationKeyFound => match event {
                Event::Exited { success: true, .. } => VerifyStage::Done(
                    Ok(VerificationOutcome { verified: true, error: None }),
                ),
                Event::Exited { success: false, stderr } => VerifyStage::Done(
                    Ok(
                        VerificationOutcome {
                            verified: false,
                            error: Some(VerifyFailure::Rejected(stderr)),
                        },
                    ),
                ),
                Event::SpawnFailed(m) => VerifyStage::Done(Err(PipelineError::VerifierLaunch(m))),
                Event::TimedOut => VerifyStage::Done(Err(PipelineError::Timeout(Tool::Verifier))),
                _ => VerifyStage::Done(Err(PipelineError::UnexpectedEvent)),
            },
            VerifyStage::Done(_) => return ,
        };
        self.stage = next;
    }

    /// The outcome once the job is done.
    pub fn outcome(self) -> (r: Option<Result<VerificationOutcome, PipelineError>>)
        ensures
            r == (match self.spec_stage() {
                VerifyStage::Done(o) => Some(o),
                _ => None,
            }),
    {
        match self.stage {
            VerifyStage::Done(o) => Some(o),
            _ => None,
        }
    }
}

fn io_step(event: Event, next: VerifyStage) -> (r: VerifyStage)
    ensures
        r == verify_after_io(event, next),
{
    match event {
        Event::Completed => next,
        Event::IoFailed(m) => VerifyStage::Done(Err(PipelineError::Workspace(m))),
        _ => VerifyStage::Done(Err(PipelineError::UnexpectedEvent)),
    }
}

/// The verifier runs only right after the verification key was found.
pub proof fn lemma_verifier_runs_only_with_key(stage: VerifyStage, event: Event)
    ensures
        verify_action(verify_transition(stage, event)) == Action::Run(Tool::Verifier) ==> (
        verify_action(stage) == Action::CheckArtifact(Artifact::VerificationKey) && event
            == Event::ArtifactFound(true)),
{
}

/// A missing verification key ends the job with a negative outcome that
/// names the key, not with an error.
pub proof fn lemma_missing_key_is_negative(stage: VerifyStage)
    requires
        verify_action(stage) == Action::CheckArtifact(Artifact::VerificationKey),
    ensures
        verify_transition(stage, Event::ArtifactFound(false)) == VerifyStage::Done(
            Ok(
                VerificationOutcome {
                    verified: false,
                    error: Some(VerifyFailure::MissingVerificationKey),
                },
            ),
        ),
        VerifyFailure::MissingVerificationKey.spec_message() == "verification_key.json not found"@,
{
}

/// The verifier's exit status is the outcome: success verifies with no
/// error; failure does not verify and carries the verifier's diagnostics.
pub proof fn lemma_verdict_is_exit_status(success: bool, stderr: String)
    ensures
        verify_transition(VerifyStage::VerificationKeyFound, Event::Exited { success, stderr })
            == VerifyStage::Done(
            Ok(
                VerificationOutcome {
                    verified: success,
                    error: if success {
                        None
                    } else {
                        Some(VerifyFailure::Rejected(stderr))
                    },
                },
            ),
        ),
{
}

} // verus!
