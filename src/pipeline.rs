use crate::document::{input_document, input_document_text};
use crate::field::FieldElement;
use vstd::prelude::*;

verus! {

/// A file that must be present before a stage may run.
#[derive(Debug, Clone, Copy, PartialEq, Eq)]
pub enum Artifact {
    /// The compiled witness-generation program.
    WitnessProgram,
    /// The proving key from the trusted setup.
    ProvingKey,
    /// The verification-key document.
    VerificationKey,
}

/// An external program of the toolchain.
#[derive(Debug, Clone, Copy, PartialEq, Eq)]
pub enum Tool {
    WitnessGenerator,
    Prover,
    Verifier,
}

/// A file of a request's private workspace.
#[derive(Debug, Clone, Copy, PartialEq, Eq)]
pub enum WorkFile {
    Input,
    Proof,
    PublicSignals,
}

/// What the driver must do next.
#[derive(Debug, Clone, Copy, PartialEq, Eq)]
pub enum Action {
    /// Create the request's isolated workspace.
    PrepareWorkspace,
    /// Write the file with the contents the job gives for it.
    WriteFile(WorkFile),
    /// Report whether the artifact is present.
    CheckArtifact(Artifact),
    /// Run the external program and report how it ended.
    Run(Tool),
    /// Read back the proof file.
    ReadProof,
    /// Nothing is left to do: release the workspace and take the outcome.
    Finish,
}

/// What the driver reports after doing an action.
#[derive(Debug, Clone)]
pub enum Event {
    /// The workspace was created or the file was written.
    Completed,
    /// A workspace operation failed.
    IoFailed(String),
    /// Whether the checked artifact is present.
    ArtifactFound(bool),
    /// The program ran to its end with this exit status and error output.
    Exited { success: bool, stderr: String },
    /// The program could not be started.
    SpawnFailed(String),
    /// The program exceeded its time bound and was terminated.
    TimedOut,
    /// The contents of the proof file.
    ProofContent(String),
}

/// A fatal failure of a request.
#[derive(Debug, Clone, PartialEq, Eq)]
pub enum PipelineError {
    /// The workspace could not be created, written or read.
    Workspace(String),
    /// A required artifact is absent.
    MissingArtifact(Artifact),
    /// The witness generator failed; its diagnostics.
    WitnessGeneration(String),
    /// The prover failed; its diagnostics.
    ProofGeneration(String),
    /// The verifier could not be started.
    VerifierLaunch(String),
    /// The program exceeded its time bound.
    Timeout(Tool),
    /// The driver reported an event that does not answer the last action.
    UnexpectedEvent,
}

/// The stages of a proof request.
#[derive(Debug)]
pub enum ProofStage {
    Init,
    WorkspaceReady,
    InputWritten,
    WitnessProgramFound,
    WitnessGenerated,
    ProvingKeyFound,
    ProofGenerated,
    VerificationKeyFound,
    /// The verifier ran; whether it accepted the proof.
    Checked(bool),
    /// Terminal: the proof and whether it verified, or the fatal error.
    Done(Result<(String, bool), PipelineError>),
}

/// The next action of each stage.
pub open spec fn proof_action(stage: ProofStage) -> Action {
    match stage {
        ProofStage::Init => Action::PrepareWorkspace,
        ProofStage::WorkspaceReady => Action::WriteFile(WorkFile::Input),
        ProofStage::InputWritten => Action::CheckArtifact(Artifact::WitnessProgram),
        ProofStage::WitnessProgramFound => Action::Run(Tool::WitnessGenerator),
        ProofStage::WitnessGenerated => Action::CheckArtifact(Artifact::ProvingKey),
        ProofStage::ProvingKeyFound => Action::Run(Tool::Prover),
        ProofStage::ProofGenerated => Action::CheckArtifact(Artifact::VerificationKey),
        ProofStage::VerificationKeyFound => Action::Run(Tool::Verifier),
        ProofStage::Checked(_) => Action::ReadProof,
        ProofStage::Done(_) => Action::Finish,
    }
}

/// The stage after a check of the artifact: the found stage, or fatal.
pub open spec fn after_check(event: Event, artifact: Artifact, found: ProofStage) -> ProofStage {
    match event {
        Event::ArtifactFound(true) => found,
        Event::ArtifactFound(false) => ProofStage::Done(Err(PipelineError::MissingArtifact(artifact))),
        _ => ProofStage::Done(Err(PipelineError::UnexpectedEvent)),
    }
}

/// The stage after a workspace operation.
pub open spec fn after_io(event: Event, next: ProofStage) -> ProofStage {
    match event {
        Event::Completed => next,
        Event::IoFailed(m) => ProofStage::Done(Err(PipelineError::Workspace(m))),
        _ => ProofStage::Done(Err(PipelineError::UnexpectedEvent)),
    }
}

/// How each stage answers each event.
pub open spec fn proof_transition(stage: ProofStage, event: Event) -> ProofStage {
    match stage {
        ProofStage::Init => after_io(event, ProofStage::WorkspaceReady),
        ProofStage::WorkspaceReady => after_io(event, ProofStage::InputWritten),
        ProofStage::InputWritten => after_check(
            event,
            Artifact::WitnessProgram,
            ProofStage::WitnessProgramFound,
        ),
        ProofStage::WitnessProgramFound => match event {
            Event::Exited { success: true, .. } => ProofStage::WitnessGenerated,
            Event::Exited { success: false, stderr } => ProofStage::Done(
                Err(PipelineError::WitnessGeneration(stderr)),
            ),
            Event::SpawnFailed(m) => ProofStage::Done(Err(PipelineError::WitnessGeneration(m))),
            Event::TimedOut => ProofStage::Done(Err(PipelineError::Timeout(Tool::WitnessGenerator))),
            _ => ProofStage::Done(Err(PipelineError::UnexpectedEvent)),
        },
        ProofStage::WitnessGenerated => after_check(
            event,
            Artifact::ProvingKey,
            ProofStage::ProvingKeyFound,
        ),
        ProofStage::ProvingKeyFound => match event {
            Event::Exited { success: true, .. } => ProofStage::ProofGenerated,
            Event::Exited { success: false, stderr } => ProofStage::Done(
                Err(PipelineError::ProofGeneration(stderr)),
            ),
            Event::SpawnFailed(m) => ProofStage::Done(Err(PipelineError::ProofGeneration(m))),
            Event::TimedOut => ProofStage::Done(Err(PipelineError::Timeout(Tool::Prover))),
            _ => ProofStage::Done(Err(PipelineError::UnexpectedEvent)),
        },
        ProofStage::ProofGenerated => after_check(
            event,
            Artifact::VerificationKey,
            ProofStage::VerificationKeyFound,
        ),
        ProofStage::VerificationKeyFound => match event {
            Event::Exited { success, .. } => ProofStage::Checked(success),
            Event::SpawnFailed(m) => ProofStage::Done(Err(PipelineError::VerifierLaunch(m))),
            Event::TimedOut => ProofStage::Done(Err(PipelineError::Timeout(Tool::Verifier))),
            _ => ProofStage::Done(Err(PipelineError::UnexpectedEvent)),
        },
        ProofStage::Checked(verified) => match event {
            Event::ProofContent(p) => ProofStage::Done(Ok((p, verified))),
            Event::IoFailed(m) => ProofStage::Done(Err(PipelineError::Workspace(m))),
            _ => ProofStage::Done(Err(PipelineError::UnexpectedEvent)),
        },
        ProofStage::Done(_) => stage,
    }
}

/// One proof request staged through witness generation, proving and
/// verification.
pub struct ProofPipeline {
    input: String,
    stage: ProofStage,
}

impl ProofPipeline {
    pub closed spec fn spec_input(&self) -> Seq<char> {
        self.input@
    }

    pub closed spec fn spec_stage(&self) -> ProofStage {
        self.stage
    }

    /// A pipeline at `Init` whose input document holds the four canonical texts.
    pub fn new(
        prompt: &FieldElement,
        image: &FieldElement,
        author: &FieldElement,
        request_id: &FieldElement,
    ) -> (r: ProofPipeline)
        ensures
            r.spec_input() == input_document_text(prompt@, image@, author@, request_id@),
            r.spec_stage() is Init,
    {
        ProofPipeline {
            input: input_document(prompt.as_str(), image.as_str(), author.as_str(), request_id.as_str()),
            stage: ProofStage::Init,
        }
    }

    /// The input document written before witness generation.
    pub fn input_document(&self) -> (r: &str)
        ensures
            r@ == self.spec_input(),
    {
        self.input.as_str()
    }

    pub fn stage(&self) -> (r: &ProofStage)
        ensures
            *r == self.spec_stage(),
    {
        &self.stage
    }

    pub fn next_action(&self) -> (r: Action)
        ensures
            r == proof_action(self.spec_stage()),
    {
        match &self.stage {
            ProofStage::Init => Action::PrepareWorkspace,
            ProofStage::WorkspaceReady => Action::WriteFile(WorkFile::Input),
            ProofStage::InputWritten => Action::CheckArtifact(Artifact::WitnessProgram),
            ProofStage::WitnessProgramFound => Action::Run(Tool::WitnessGenerator),
            ProofStage::WitnessGenerated => Action::CheckArtifact(Artifact::ProvingKey),
            ProofStage::ProvingKeyFound => Action::Run(Tool::Prover),
            ProofStage::ProofGenerated => Action::CheckArtifact(Artifact::VerificationKey),
            ProofStage::VerificationKeyFound => Action::Run(Tool::Verifier),
            ProofStage::Checked(_) => Action::ReadProof,
            ProofStage::Done(_) => Action::Finish,
        }
    }

    /// Moves the pipeline on by the driver's report of the last action.
    pub fn advance(&mut self, event: Event)
        ensures
            final(self).spec_input() == old(self).spec_input(),
            final(self).spec_stage() == proof_transition(old(self).spec_stage(), event),
    {
        let unexpected = ProofStage::Done(Err(PipelineError::UnexpectedEvent));
        let next = match &self.stage {
            ProofStage::Init => io_step(event, ProofStage::WorkspaceReady),
            ProofStage::WorkspaceReady => io_step(event, ProofStage::InputWritten),
            ProofStage::InputWritten => check_step(
                event,
                Artifact::WitnessProgram,
                ProofStage::WitnessProgramFound,
            ),
            ProofStage::WitnessProgramFound => match event {
                Event::Exited { success: true, .. } => ProofStage::WitnessGenerated,
                Event::Exited { success: false, stderr } => ProofStage::Done(
                    Err(PipelineError::WitnessGeneration(stderr)),
                ),
                Event::SpawnFailed(m) => ProofStage::Done(Err(PipelineError::WitnessGeneration(m))),
                Event::TimedOut => ProofStage::Done(
                    Err(PipelineError::Timeout(Tool::WitnessGenerator)),
                ),
                _ => unexpected,
            },
            ProofStage::WitnessGenerated => check_step(
                event,
                Artifact::ProvingKey,
                ProofStage::ProvingKeyFound,
            ),
            ProofStage::ProvingKeyFound => match event {
                Event::Exited { success: true, .. } => ProofStage::ProofGenerated,
                Event::Exited { success: false, stderr } => ProofStage::Done(
                    Err(PipelineError::ProofGeneration(stderr)),
                ),
                Event::SpawnFailed(m) => ProofStage::Done(Err(PipelineError::ProofGeneration(m))),
                Event::TimedOut => ProofStage::Done(Err(PipelineError::Timeout(Tool::Prover))),
                _ => unexpected,
            },
            ProofStage::ProofGenerated => check_step(
                event,
                Artifact::VerificationKey,
                ProofStage::VerificationKeyFound,
            ),
            ProofStage::VerificationKeyFound => match event {
                Event::Exited { success, .. } => ProofStage::Checked(success),
                Event::SpawnFailed(m) => ProofStage::Done(Err(PipelineError::VerifierLaunch(m))),
                Event::TimedOut => ProofStage::Done(Err(PipelineError::Timeout(Tool::Verifier))),
                _ => unexpected,
            },
            ProofStage::Checked(verified) => {
                let verified = *verified;
                match event {
                    Event::ProofContent(p) => ProofStage::Done(Ok((p, verified))),
                    Event::IoFailed(m) => ProofStage::Done(Err(PipelineError::Workspace(m))),
                    _ => unexpected,
                }
            },
            ProofStage::Done(_) => return ,
        };
        self.stage = next;
    }

    /// The outcome once the pipeline is done.
    pub fn outcome(self) -> (r: Option<Result<(String, bool), PipelineError>>)
        ensures
            r == (match self.spec_stage() {
                ProofStage::Done(o) => Some(o),
                _ => None,
            }),
    {
        match self.stage {
            ProofStage::Done(o) => Some(o),
            _ => None,
        }
    }
}

fn io_step(event: Event, next: ProofStage) -> (r: ProofStage)
    ensures
        r == after_io(event, next),
{
    match event {
        Event::Completed => next,
        Event::IoFailed(m) => ProofStage::Done(Err(PipelineError::Workspace(m))),
        _ => ProofStage::Done(Err(PipelineError::UnexpectedEvent)),
    }
}

fn check_step(event: Event, artifact: Artifact, found: ProofStage) -> (r: ProofStage)
    ensures
        r == after_check(event, artifact, found),
{
    match event {
        Event::ArtifactFound(true) => found,
        Event::ArtifactFound(false) => ProofStage::Done(Err(PipelineError::MissingArtifact(artifact))),
        _ => ProofStage::Done(Err(PipelineError::UnexpectedEvent)),
    }
}

/// The artifact that must be present before the program runs.
pub open spec fn required_artifact(tool: Tool) -> Artifact {
    match tool {
        Tool::WitnessGenerator => Artifact::WitnessProgram,
        Tool::Prover => Artifact::ProvingKey,
        Tool::Verifier => Artifact::VerificationKey,
    }
}

/// A program is run only right after its artifact was checked and found.
pub proof fn lemma_run_follows_found_artifact(stage: ProofStage, event: Event)
    ensures
        proof_action(proof_transition(stage, event)) matches Action::Run(tool) ==> (proof_action(
            stage,
        ) == Action::CheckArtifact(required_artifact(tool)) && event == Event::ArtifactFound(true)),
{
}

/// Once done, the pipeline stays done and asks for nothing more.
pub proof fn lemma_done_is_terminal(outcome: Result<(String, bool), PipelineError>, event: Event)
    ensures
        proof_transition(ProofStage::Done(outcome), event) == ProofStage::Done(outcome),
        proof_action(ProofStage::Done(outcome)) == Action::Finish,
{
}

/// A proof that the verifier rejects is still returned, marked unverified;
/// one it accepts is returned marked verified.
pub proof fn lemma_proof_returned_with_verdict(success: bool, stderr: String, proof: String)
    ensures
        proof_transition(
            proof_transition(ProofStage::VerificationKeyFound, Event::Exited { success, stderr }),
            Event::ProofContent(proof),
        ) == ProofStage::Done(Ok((proof, success))),
{
}

} // verus!
