use aigc_provenance::field::{canonicalize, CanonError};

const MODULUS: &str = "21888242871839275222246405745257275088548364400416034343698204186575808495617";

fn padded(hex: &str) -> String {
    format!("0x{}{}", "0".repeat(64 - hex.len()), hex)
}

#[test]
fn decimal_and_hex_agree() {
    let a = canonicalize("255").unwrap();
    let b = canonicalize("0xff").unwrap();
    let c = canonicalize("ff").unwrap();
    let d = canonicalize("0xFF").unwrap();
    assert_eq!(a.as_str(), padded("ff"));
    assert_eq!(a.as_str().len(), 66);
    assert_eq!(a.as_str(), b.as_str());
    assert_eq!(a.as_str(), c.as_str());
    assert_eq!(a.as_str(), d.as_str());
}

#[test]
fn leading_zeros_are_dropped() {
    assert_eq!(canonicalize("000255").unwrap().as_str(), padded("ff"));
    assert_eq!(canonicalize("0x000000ff").unwrap().as_str(), padded("ff"));
    assert_eq!(canonicalize("0").unwrap().as_str(), padded("0"));
}

#[test]
fn canonicalization_is_idempotent() {
    for raw in ["1", "255", "0xabc", "123456789012345678901234567890", "deadBEEF"] {
        let once = canonicalize(raw).unwrap();
        let twice = canonicalize(once.as_str()).unwrap();
        assert_eq!(once.as_str(), twice.as_str());
    }
}

#[test]
fn decimal_digits_are_read_as_decimal() {
    assert_eq!(canonicalize("10").unwrap().as_str(), padded("a"));
    assert_eq!(canonicalize("0x10").unwrap().as_str(), padded("10"));
}

#[test]
fn malformed_inputs_are_rejected() {
    for raw in ["not-a-number", "", "0x", "-1", "+5", "1_000", "12 3", "0X12", "0xg1", "é"] {
        assert_eq!(canonicalize(raw).unwrap_err(), CanonError::MalformedInput, "{}", raw);
    }
}

#[test]
fn modulus_overflows() {
    assert_eq!(canonicalize(MODULUS).unwrap_err(), CanonError::FieldOverflow);
    let below = "21888242871839275222246405745257275088548364400416034343698204186575808495616";
    assert_eq!(
        canonicalize(below).unwrap().as_str(),
        "0x30644e72e131a029b85045b68181585d2833e84879b9709143e1f593f0000000"
    );
    let wide = format!("0x1{}", "0".repeat(64));
    assert_eq!(canonicalize(&wide).unwrap_err(), CanonError::FieldOverflow);
    let full = format!("0x{}", "f".repeat(64));
    assert_eq!(canonicalize(&full).unwrap_err(), CanonError::FieldOverflow);
}
