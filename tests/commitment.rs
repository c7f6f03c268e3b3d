use aigc_provenance::commitment::{commit, hash_elements};
use aigc_provenance::field::{canonicalize, FieldElement};

fn fe(raw: &str) -> FieldElement {
    canonicalize(raw).unwrap()
}

#[test]
fn poseidon_of_one_and_two() {
    let (a, b) = (fe("1"), fe("2"));
    let h = hash_elements(vec![&a, &b]).unwrap();
    assert_eq!(h.as_str(), "0x115cc0f5e7d690413df64c6b9662e9cf2a3617f2743245519e19607a4417189a");
}

#[test]
fn poseidon_of_one() {
    let a = fe("1");
    let h = hash_elements(vec![&a]).unwrap();
    assert_eq!(h.as_str(), "0x29176100eaa962bdc1fe6c654d6a3c130e96a4d1168b33848b897dc502820133");
}

#[test]
fn commit_nests_the_two_hashes() {
    let (p, i, a, r) = (fe("1"), fe("2"), fe("3"), fe("4"));
    let pair = commit(&p, &i, &a, &r).unwrap();
    let aigc = hash_elements(vec![&i, &a, &r]).unwrap();
    let public = hash_elements(vec![&p, &aigc]).unwrap();
    assert_eq!(pair.aigc_hash.as_str(), aigc.as_str());
    assert_eq!(pair.public_hash.as_str(), public.as_str());
    assert_eq!(pair.public_hash.as_str().len(), 66);
}

#[test]
fn commit_is_deterministic() {
    let first = commit(&fe("1"), &fe("2"), &fe("3"), &fe("4")).unwrap();
    let second = commit(&fe("0x1"), &fe("0x2"), &fe("3"), &fe("0x04")).unwrap();
    assert_eq!(first.aigc_hash.as_str(), second.aigc_hash.as_str());
    assert_eq!(first.public_hash.as_str(), second.public_hash.as_str());
}

#[test]
fn permuting_the_record_changes_the_aigc_hash() {
    let (p, i, a, r) = (fe("1"), fe("2"), fe("3"), fe("4"));
    let base = commit(&p, &i, &a, &r).unwrap();
    for (x, y, z) in [(&a, &i, &r), (&i, &r, &a), (&r, &a, &i), (&a, &r, &i), (&r, &i, &a)] {
        let other = commit(&p, x, y, z).unwrap();
        assert_ne!(base.aigc_hash.as_str(), other.aigc_hash.as_str());
        assert_ne!(base.public_hash.as_str(), other.public_hash.as_str());
    }
}

#[test]
fn changing_the_prompt_changes_only_the_public_hash() {
    let (i, a, r) = (fe("2"), fe("3"), fe("4"));
    let one = commit(&fe("1"), &i, &a, &r).unwrap();
    let other = commit(&fe("5"), &i, &a, &r).unwrap();
    assert_eq!(one.aigc_hash.as_str(), other.aigc_hash.as_str());
    assert_ne!(one.public_hash.as_str(), other.public_hash.as_str());
}
