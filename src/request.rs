use crate::commitment::{commit, commitment_values, CommitError, CommitmentPair};
use crate::document::input_document_text;
use crate::field::{canonical_text, canonicalize, field_modulus, numeral, numeral_value, CanonError};
use crate::pipeline::ProofPipeline;
use vstd::prelude::*;

verus! {

/// A field of a provenance record.
#[derive(Debug, Clone, Copy, PartialEq, Eq)]
pub enum RecordField {
    Prompt,
    Image,
    Author,
    RequestId,
}

/// Why a proof request was turned away before any external work.
#[derive(Debug, Clone, PartialEq, Eq)]
pub enum RequestError {
    /// The field's text is malformed or overflows the field.
    Input(RecordField, CanonError),
    /// The hash primitive refused its input.
    Hash(CommitError),
}

/// How canonicalization of a text fails, if it does.
pub open spec fn canon_error(raw: Seq<char>) -> Option<CanonError> {
    if numeral(raw) is None {
        Some(CanonError::MalformedInput)
    } else if numeral_value(raw) >= field_modulus() {
        Some(CanonError::FieldOverflow)
    } else {
        None
    }
}

/// The first field, in record order, whose text does not canonicalize.
pub open spec fn first_failure(
    prompt: Seq<char>,
    image: Seq<char>,
    author: Seq<char>,
    request_id: Seq<char>,
) -> Option<(RecordField, CanonError)> {
    if canon_error(prompt) is Some {
        Some((RecordField::Prompt, canon_error(prompt)->0))
    } else if canon_error(image) is Some {
        Some((RecordField::Image, canon_error(image)->0))
    } else if canon_error(author) is Some {
        Some((RecordField::Author, canon_error(author)->0))
    } else if canon_error(request_id) is Some {
        Some((RecordField::RequestId, canon_error(request_id)->0))
    } else {
        None
    }
}

/// A proof request that passed canonicalization: its commitment and the
/// pipeline that will prove it.
pub struct ProofJob {
    pub commitment: CommitmentPair,
    pub pipeline: ProofPipeline,
}

impl ProofJob {
    /// The public inputs of the proof: the public hash alone.
    pub fn public_inputs(&self) -> (r: Vec<String>)
        ensures
            r.len() == 1,
            r[0]@ == self.commitment.public_hash@,
    {
        vec![self.commitment.public_hash.as_str().to_owned()]
    }
}

fn canonical_field(raw: &str, field: RecordField) -> (r: Result<
    crate::field::FieldElement,
    RequestError,
>)
    ensures
        canon_error(raw@) matches Some(k) ==> r == Err::<crate::field::FieldElement, RequestError>(
            RequestError::Input(field, k),
        ),
        canon_error(raw@) is None ==> (r matches Ok(e) && e.wf() && e.value() == numeral_value(
            raw@,
        ) && e@ == canonical_text(numeral_value(raw@))),
{
    match canonicalize(raw) {
        Ok(e) => Ok(e),
        Err(k) => Err(RequestError::Input(field, k)),
    }
}

/// Canonicalizes the four fields, in record order, failing on the first that
/// does not canonicalize; then computes the commitment and stages a pipeline
/// over the canonical texts. Nothing external runs on a rejected request.
pub fn prepare_proof(prompt: &str, image: &str, author: &str, request_id: &str) -> (r: Result<
    ProofJob,
    RequestError,
>)
    ensures
        r is Ok <==> first_failure(prompt@, image@, author@, request_id@) is None,
        first_failure(prompt@, image@, author@, request_id@) matches Some((f, k)) ==> r == Err::<
            ProofJob,
            RequestError,
        >(RequestError::Input(f, k)),
        r matches Ok(job) ==> {
            let (p, i, a, q) = (
                numeral_value(prompt@),
                numeral_value(image@),
                numeral_value(author@),
                numeral_value(request_id@),
            );
            &&& job.commitment.aigc_hash.wf()
            &&& job.commitment.public_hash.wf()
            &&& job.commitment.aigc_hash@ == canonical_text(commitment_values(p, i, a, q).0)
            &&& job.commitment.public_hash@ == canonical_text(commitment_values(p, i, a, q).1)
            &&& job.pipeline.spec_input() == input_document_text(
                canonical_text(p),
                canonical_text(i),
                canonical_text(a),
                canonical_text(q),
            )
            &&& job.pipeline.spec_stage() is Init
        },
{
    let p = canonical_field(prompt, RecordField::Prompt)?;
    let i = canonical_field(image, RecordField::Image)?;
    let a = canonical_field(author, RecordField::Author)?;
    let q = canonical_field(request_id, RecordField::RequestId)?;
    let commitment = match commit(&p, &i, &a, &q) {
        Ok(c) => c,
        Err(e) => return Err(RequestError::Hash(e)),
    };
    let pipeline = ProofPipeline::new(&p, &i, &a, &q);
    Ok(ProofJob { commitment, pipeline })
}

} // verus!
