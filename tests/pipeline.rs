use aigc_provenance::document::{input_document, proof_document, public_document, ProofData};
use aigc_provenance::pipeline::{Action, Artifact, Event, PipelineError, ProofStage, Tool, WorkFile};
use aigc_provenance::request::{prepare_proof, ProofJob, RecordField, RequestError};
use aigc_provenance::field::CanonError;
use aigc_provenance::verification::{VerificationJob, VerifyFailure};

fn exited(success: bool, stderr: &str) -> Event {
    Event::Exited { success, stderr: stderr.to_string() }
}

fn job() -> ProofJob {
    prepare_proof("1", "2", "3", "4").unwrap()
}

/// Drives a proof pipeline with the given reports, checking each action.
fn drive(job: &mut ProofJob, steps: Vec<(Action, Event)>) {
    for (action, event) in steps {
        assert_eq!(job.pipeline.next_action(), action);
        job.pipeline.advance(event);
    }
}

fn happy_until_verifier() -> Vec<(Action, Event)> {
    vec![
        (Action::PrepareWorkspace, Event::Completed),
        (Action::WriteFile(WorkFile::Input), Event::Completed),
        (Action::CheckArtifact(Artifact::WitnessProgram), Event::ArtifactFound(true)),
        (Action::Run(Tool::WitnessGenerator), exited(true, "")),
        (Action::CheckArtifact(Artifact::ProvingKey), Event::ArtifactFound(true)),
        (Action::Run(Tool::Prover), exited(true, "")),
        (Action::CheckArtifact(Artifact::VerificationKey), Event::ArtifactFound(true)),
    ]
}

#[test]
fn scenario_one_stages_and_public_inputs() {
    let mut job = job();
    let public = job.public_inputs();
    assert_eq!(public.len(), 1);
    assert_eq!(public[0], job.commitment.public_hash.as_str());
    assert!(public[0].starts_with("0x") && public[0].len() == 66);
    let mut steps = happy_until_verifier();
    steps.push((Action::Run(Tool::Verifier), exited(true, "")));
    steps.push((Action::ReadProof, Event::ProofContent("{\"pi_a\":[]}".to_string())));
    drive(&mut job, steps);
    assert_eq!(job.pipeline.next_action(), Action::Finish);
    let outcome = job.pipeline.outcome().unwrap().unwrap();
    assert_eq!(outcome, ("{\"pi_a\":[]}".to_string(), true));
}

#[test]
fn input_document_holds_canonical_texts() {
    let job = job();
    let z = "0".repeat(63);
    let expected = format!(
        "{{\"prompt\":\"0x{z}1\",\"image\":\"0x{z}2\",\"author\":\"0x{z}3\",\"requestId\":\"0x{z}4\"}}"
    );
    assert_eq!(job.pipeline.input_document(), expected);
    assert_eq!(input_document("a", "b", "c", "d"), "{\"prompt\":\"a\",\"image\":\"b\",\"author\":\"c\",\"requestId\":\"d\"}");
}

#[test]
fn failed_verification_still_returns_the_proof() {
    let mut job = job();
    let mut steps = happy_until_verifier();
    steps.push((Action::Run(Tool::Verifier), exited(false, "Invalid proof")));
    steps.push((Action::ReadProof, Event::ProofContent("p".to_string())));
    drive(&mut job, steps);
    assert_eq!(job.pipeline.outcome().unwrap().unwrap(), ("p".to_string(), false));
}

#[test]
fn missing_witness_program_is_fatal() {
    let mut job = job();
    drive(&mut job, happy_until_verifier()[..2].to_vec());
    job.pipeline.advance(Event::ArtifactFound(false));
    assert_eq!(job.pipeline.next_action(), Action::Finish);
    assert_eq!(
        job.pipeline.outcome().unwrap().unwrap_err(),
        PipelineError::MissingArtifact(Artifact::WitnessProgram)
    );
}

#[test]
fn missing_keys_are_fatal() {
    let mut job = job();
    drive(&mut job, happy_until_verifier()[..4].to_vec());
    job.pipeline.advance(Event::ArtifactFound(false));
    assert_eq!(job.pipeline.outcome().unwrap().unwrap_err(), PipelineError::MissingArtifact(Artifact::ProvingKey));
    let mut job = self::job();
    drive(&mut job, happy_until_verifier()[..6].to_vec());
    job.pipeline.advance(Event::ArtifactFound(false));
    assert_eq!(
        job.pipeline.outcome().unwrap().unwrap_err(),
        PipelineError::MissingArtifact(Artifact::VerificationKey)
    );
}

#[test]
fn witness_failure_keeps_diagnostics() {
    let mut job = job();
    drive(&mut job, happy_until_verifier()[..3].to_vec());
    job.pipeline.advance(exited(false, "out of memory"));
    assert_eq!(
        job.pipeline.outcome().unwrap().unwrap_err(),
        PipelineError::WitnessGeneration("out of memory".to_string())
    );
}

#[test]
fn prover_failures_are_fatal() {
    let mut job = job();
    drive(&mut job, happy_until_verifier()[..5].to_vec());
    job.pipeline.advance(Event::SpawnFailed("no snarkjs".to_string()));
    assert_eq!(job.pipeline.outcome().unwrap().unwrap_err(), PipelineError::ProofGeneration("no snarkjs".to_string()));
    let mut job = self::job();
    drive(&mut job, happy_until_verifier()[..5].to_vec());
    job.pipeline.advance(Event::TimedOut);
    assert_eq!(job.pipeline.outcome().unwrap().unwrap_err(), PipelineError::Timeout(Tool::Prover));
}

#[test]
fn workspace_failure_is_fatal_and_terminal() {
    let mut job = job();
    job.pipeline.advance(Event::IoFailed("read-only".to_string()));
    assert!(matches!(job.pipeline.stage(), ProofStage::Done(_)));
    job.pipeline.advance(Event::Completed);
    assert_eq!(job.pipeline.outcome().unwrap().unwrap_err(), PipelineError::Workspace("read-only".to_string()));
}

#[test]
fn unexpected_event_aborts() {
    let mut job = job();
    job.pipeline.advance(Event::ArtifactFound(true));
    assert_eq!(job.pipeline.outcome().unwrap().unwrap_err(), PipelineError::UnexpectedEvent);
}

#[test]
fn malformed_prompt_is_rejected_before_any_stage() {
    let err = prepare_proof("not-a-number", "2", "3", "4").err().unwrap();
    assert_eq!(err, RequestError::Input(RecordField::Prompt, CanonError::MalformedInput));
    let err = prepare_proof("1", "2", "zz", "x").err().unwrap();
    assert_eq!(err, RequestError::Input(RecordField::Author, CanonError::MalformedInput));
    let modulus = "21888242871839275222246405745257275088548364400416034343698204186575808495617";
    let err = prepare_proof("1", "2", "3", modulus).err().unwrap();
    assert_eq!(err, RequestError::Input(RecordField::RequestId, CanonError::FieldOverflow));
}

#[test]
fn distinct_requests_get_distinct_documents() {
    let a = prepare_proof("1", "2", "3", "4").unwrap();
    let b = prepare_proof("5", "2", "3", "4").unwrap();
    assert_ne!(a.pipeline.input_document(), b.pipeline.input_document());
    assert_ne!(a.commitment.public_hash.as_str(), b.commitment.public_hash.as_str());
}

fn sample_proof() -> ProofData {
    ProofData {
        pi_a: vec!["1".to_string(), "2".to_string()],
        pi_b: vec![vec!["3".to_string(), "4".to_string()], vec![]],
        pi_c: vec!["5".to_string()],
        protocol: "groth16".to_string(),
        curve: "bn\"128".to_string(),
    }
}

#[test]
fn verification_documents() {
    assert_eq!(
        proof_document(&sample_proof()),
        "{\"pi_a\":[\"1\",\"2\"],\"pi_b\":[[\"3\",\"4\"],[]],\"pi_c\":[\"5\"],\"protocol\":\"groth16\",\"curve\":\"bn\\\"128\"}"
    );
    assert_eq!(public_document(&vec!["0x1".to_string(), "7".to_string()]), "[\"0x1\",\"7\"]");
    assert_eq!(public_document(&vec![]), "[]");
}

fn verify_job(key_present: bool, verifier: Option<Event>) -> VerificationJob {
    let mut job = VerificationJob::new(&sample_proof(), &vec!["0xab".to_string()]);
    assert_eq!(job.public_document(), "[\"0xab\"]");
    assert_eq!(job.next_action(), Action::PrepareWorkspace);
    job.advance(Event::Completed);
    assert_eq!(job.next_action(), Action::WriteFile(WorkFile::Proof));
    job.advance(Event::Completed);
    assert_eq!(job.next_action(), Action::WriteFile(WorkFile::PublicSignals));
    job.advance(Event::Completed);
    assert_eq!(job.next_action(), Action::CheckArtifact(Artifact::VerificationKey));
    job.advance(Event::ArtifactFound(key_present));
    if let Some(e) = verifier {
        assert_eq!(job.next_action(), Action::Run(Tool::Verifier));
        job.advance(e);
    }
    assert_eq!(job.next_action(), Action::Finish);
    job
}

#[test]
fn verification_accepts() {
    let outcome = verify_job(true, Some(exited(true, ""))).outcome().unwrap().unwrap();
    assert!(outcome.verified);
    assert!(outcome.error.is_none());
}

#[test]
fn verification_rejects_tampered_inputs() {
    let outcome = verify_job(true, Some(exited(false, "Invalid proof"))).outcome().unwrap().unwrap();
    assert!(!outcome.verified);
    assert_eq!(outcome.error.unwrap().message(), "Verification failed: Invalid proof");
}

#[test]
fn verification_without_key_is_negative() {
    let outcome = verify_job(false, None).outcome().unwrap().unwrap();
    assert!(!outcome.verified);
    let failure = outcome.error.unwrap();
    assert!(matches!(failure, VerifyFailure::MissingVerificationKey));
    assert_eq!(failure.message(), "verification_key.json not found");
}

#[test]
fn verifier_launch_failure_is_an_error() {
    let err = verify_job(true, Some(Event::SpawnFailed("gone".to_string()))).outcome().unwrap().unwrap_err();
    assert_eq!(err, PipelineError::VerifierLaunch("gone".to_string()));
}
