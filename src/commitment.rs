use crate::field::{canonical_text, field_modulus, is_canonical_text, digits_value, FieldElement};
use poseidon_rs::{Fr, Poseidon};
use vstd::prelude::*;

verus! {

/// The Poseidon hash of a sequence of field-element values.
pub uninterp spec fn poseidon_of(inputs: Seq<nat>) -> nat;

/// The values of a sequence of canonical texts.
pub open spec fn text_values(texts: Seq<String>) -> Seq<nat> {
    texts.map_values(|t: String| digits_value(t@.skip(2), 16))
}

/// Relies on `poseidon_rs::Poseidon::hash`, which accepts 1 to 16 field
/// elements and returns their hash, a reduced field element; `ff_ce::from_hex`
/// and `ff_ce::to_hex` carry the elements in and out as 64 lowercase hex digits.
#[verifier::external_body]
fn poseidon_hash(inputs: &Vec<String>) -> (r: Result<String, String>)
    requires
        1 <= inputs.len() <= 16,
        forall|i: int|
            0 <= i < inputs.len() ==> is_canonical_text(#[trigger] inputs[i]@) && digits_value(
                inputs[i]@.skip(2),
                16,
            ) < field_modulus(),
    ensures
        r is Ok,
        is_canonical_text(r->Ok_0@),
        digits_value(r->Ok_0@.skip(2), 16) == poseidon_of(text_values(inputs@)),
        digits_value(r->Ok_0@.skip(2), 16) < field_modulus(),
{
    let elements: Result<Vec<Fr>, String> = inputs.iter().map(|t| ff_ce::from_hex::<Fr>(t)).collect();
    let hash = Poseidon::new().hash(elements?)?;
    Ok(format!("0x{}", ff_ce::to_hex(&hash)))
}

#[derive(Debug, Clone, PartialEq, Eq)]
pub enum CommitError {
    /// The hash primitive refused its input.
    HashEngine(String),
}

/// The commitment over a provenance record.
#[derive(Debug, Clone)]
pub struct CommitmentPair {
    /// Hash of image, author and request id, in that order.
    pub aigc_hash: FieldElement,
    /// Hash of the prompt and `aigc_hash`, in that order.
    pub public_hash: FieldElement,
}

/// The values of the two commitment hashes over the four input values.
pub open spec fn commitment_values(prompt: nat, image: nat, author: nat, request_id: nat) -> (
    nat,
    nat,
) {
    let aigc = poseidon_of(seq![image, author, request_id]);
    (aigc, poseidon_of(seq![prompt, aigc]))
}

/// Whether `pair` is the commitment over the four elements.
pub open spec fn is_commitment(
    pair: CommitmentPair,
    prompt: FieldElement,
    image: FieldElement,
    author: FieldElement,
    request_id: FieldElement,
) -> bool {
    let (aigc, public) = commitment_values(
        prompt.value(),
        image.value(),
        author.value(),
        request_id.value(),
    );
    &&& pair.aigc_hash.wf()
    &&& pair.public_hash.wf()
    &&& pair.aigc_hash@ == canonical_text(aigc)
    &&& pair.public_hash@ == canonical_text(public)
}

/// The Poseidon hash of one to sixteen field elements.
pub fn hash_elements(inputs: Vec<&FieldElement>) -> (r: Result<FieldElement, CommitError>)
    requires
        1 <= inputs.len() <= 16,
        forall|i: int| 0 <= i < inputs.len() ==> (#[trigger] inputs[i]).wf(),
    ensures
        r matches Ok(h) && h.wf() && h.value() == poseidon_of(
            inputs@.map_values(|e: &FieldElement| e.value()),
        ) && h@ == canonical_text(h.value()),
{
    let mut texts: Vec<String> = Vec::new();
    let mut i: usize = 0;
    while i < inputs.len()
        invariant
            0 <= i <= inputs.len(),
            texts.len() == i,
            forall|j: int| 0 <= j < inputs.len() ==> (#[trigger] inputs[j]).wf(),
            forall|j: int| 0 <= j < i ==> #[trigger] texts[j]@ == inputs[j]@,
        decreases inputs.len() - i,
    {
        texts.push(inputs[i].as_str().to_owned());
        i = i + 1;
    }
    assert(text_values(texts@) =~= inputs@.map_values(|e: &FieldElement| e.value()));
    match poseidon_hash(&texts) {
        Ok(h) => {
            let e = FieldElement::from_canonical(h);
            proof {
                crate::field::lemma_canonical_of_digits(e@);
            }
            Ok(e)
        },
        Err(msg) => Err(CommitError::HashEngine(msg)),
    }
}

/// Computes `aigcHash = H(image, author, requestId)`, then
/// `publicHash = H(prompt, aigcHash)`.
pub fn commit(
    prompt: &FieldElement,
    image: &FieldElement,
    author: &FieldElement,
    request_id: &FieldElement,
) -> (r: Result<CommitmentPair, CommitError>)
    requires
        prompt.wf(),
        image.wf(),
        author.wf(),
        request_id.wf(),
    ensures
        r matches Ok(pair) && is_commitment(pair, *prompt, *image, *author, *request_id),
{
    let inner = vec![image, author, request_id];
    assert(inner@.map_values(|e: &FieldElement| e.value()) =~= seq![
        image.value(),
        author.value(),
        request_id.value(),
    ]);
    let aigc_hash = hash_elements(inner)?;
    let outer = vec![prompt, &aigc_hash];
    assert(outer@.map_values(|e: &FieldElement| e.value()) =~= seq![
        prompt.value(),
        aigc_hash.value(),
    ]);
    let public_hash = hash_elements(outer)?;
    Ok(CommitmentPair { aigc_hash, public_hash })
}

/// The commitment is a function of the four input values: two commitments
/// over inputs with the same texts are the same texts.
pub proof fn lemma_commit_deterministic(
    pair1: CommitmentPair,
    pair2: CommitmentPair,
    inputs1: (FieldElement, FieldElement, FieldElement, FieldElement),
    inputs2: (FieldElement, FieldElement, FieldElement, FieldElement),
)
    requires
        inputs1.0@ == inputs2.0@,
        inputs1.1@ == inputs2.1@,
        inputs1.2@ == inputs2.2@,
        inputs1.3@ == inputs2.3@,
        is_commitment(pair1, inputs1.0, inputs1.1, inputs1.2, inputs1.3),
        is_commitment(pair2, inputs2.0, inputs2.1, inputs2.2, inputs2.3),
    ensures
        pair1.aigc_hash@ == pair2.aigc_hash@,
        pair1.public_hash@ == pair2.public_hash@,
{
}

} // verus!
