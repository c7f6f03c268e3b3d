use num_bigint::BigUint;
use poseidon_rs::Fr;
use vstd::arithmetic::div_mod::lemma_mod_breakdown;
use vstd::prelude::*;

verus! {

/// The order of the scalar field that the Poseidon hash works over.
pub open spec fn field_modulus() -> nat {
    21888242871839275222246405745257275088548364400416034343698204186575808495617nat
}

pub open spec fn is_dec_digit(c: char) -> bool {
    '0' <= c && c <= '9'
}

pub open spec fn is_lower_hex_digit(c: char) -> bool {
    is_dec_digit(c) || ('a' <= c && c <= 'f')
}

pub open spec fn is_hex_digit(c: char) -> bool {
    is_lower_hex_digit(c) || ('A' <= c && c <= 'F')
}

pub open spec fn is_digit_in(c: char, radix: nat) -> bool {
    if radix == 10 {
        is_dec_digit(c)
    } else {
        is_hex_digit(c)
    }
}

pub open spec fn all_digits(s: Seq<char>, radix: nat) -> bool {
    forall|i: int| 0 <= i < s.len() ==> #[trigger] is_digit_in(s[i], radix)
}

pub open spec fn digit_value(c: char) -> nat {
    if is_dec_digit(c) {
        (c as int - '0' as int) as nat
    } else if 'a' <= c && c <= 'f' {
        (c as int - 'a' as int + 10) as nat
    } else {
        (c as int - 'A' as int + 10) as nat
    }
}

/// The integer that a big-endian string of digits denotes.
pub open spec fn digits_value(s: Seq<char>, radix: nat) -> nat
    decreases s.len(),
{
    if s.len() == 0 {
        0
    } else {
        digits_value(s.drop_last(), radix) * radix + digit_value(s.last())
    }
}

pub open spec fn has_hex_prefix(s: Seq<char>) -> bool {
    s.len() >= 2 && s[0] == '0' && s[1] == 'x'
}

/// The digits and radix of an accepted numeral: `0x` followed by hex digits,
/// decimal digits alone, or unprefixed hex digits.
pub open spec fn numeral(s: Seq<char>) -> Option<(Seq<char>, nat)> {
    if has_hex_prefix(s) {
        if s.len() > 2 && all_digits(s.skip(2), 16) {
            Some((s.skip(2), 16))
        } else {
            None
        }
    } else if s.len() > 0 && all_digits(s, 10) {
        Some((s, 10))
    } else if s.len() > 0 && all_digits(s, 16) {
        Some((s, 16))
    } else {
        None
    }
}

/// The non-negative integer that an accepted numeral denotes.
pub open spec fn numeral_value(s: Seq<char>) -> nat
    recommends
        numeral(s) is Some,
{
    let (digits, radix) = numeral(s)->0;
    digits_value(digits, radix)
}

/// `0x` followed by exactly 64 lowercase hex digits.
pub open spec fn is_canonical_text(t: Seq<char>) -> bool {
    &&& t.len() == 66
    &&& has_hex_prefix(t)
    &&& forall|i: int| 2 <= i < 66 ==> #[trigger] is_lower_hex_digit(t[i])
}

/// Hex digits without a superfluous leading zero.
pub open spec fn is_minimal_hex(h: Seq<char>) -> bool {
    &&& h.len() >= 1
    &&& forall|i: int| 0 <= i < h.len() ==> #[trigger] is_lower_hex_digit(h[i])
    &&& h.len() > 1 ==> h[0] != '0'
}

pub open spec fn pow16(n: nat) -> nat
    decreases n,
{
    if n == 0 {
        1
    } else {
        16 * pow16((n - 1) as nat)
    }
}

/// The lowercase hex digit of a value below 16.
pub open spec fn hex_char(d: nat) -> char {
    seq!['0', '1', '2', '3', '4', '5', '6', '7', '8', '9', 'a', 'b', 'c', 'd', 'e', 'f'][d as int]
}

/// The lowest `n` hex digits of `v`, big-endian, zero-padded.
pub open spec fn fixed_hex(v: nat, n: nat) -> Seq<char>
    decreases n,
{
    if n == 0 {
        Seq::empty()
    } else {
        fixed_hex(v / 16, (n - 1) as nat).push(hex_char(v % 16))
    }
}

/// The canonical text of a field element of value `v`.
pub open spec fn canonical_text(v: nat) -> Seq<char> {
    seq!['0', 'x'] + fixed_hex(v, 64)
}

#[derive(Debug, Clone, Copy, PartialEq, Eq)]
pub enum CanonError {
    /// The text is not a decimal or hexadecimal numeral.
    MalformedInput,
    /// The integer is not below the field modulus.
    FieldOverflow,
}

/// A field element in its canonical text form: `0x` and 64 lowercase hex digits.
#[derive(Debug, Clone)]
pub struct FieldElement {
    text: String,
}

impl View for FieldElement {
    type V = Seq<char>;

    closed spec fn view(&self) -> Seq<char> {
        self.text@
    }
}

impl FieldElement {
    /// The integer that the element stands for.
    pub open spec fn value(&self) -> nat {
        digits_value(self@.skip(2), 16)
    }

    pub open spec fn wf(&self) -> bool {
        is_canonical_text(self@) && self.value() < field_modulus()
    }

    pub(crate) fn from_canonical(text: String) -> (r: FieldElement)
        requires
            is_canonical_text(text@),
            digits_value(text@.skip(2), 16) < field_modulus(),
        ensures
            r@ == text@,
            r.wf(),
    {
        FieldElement { text }
    }

    pub fn as_str(&self) -> (r: &str)
        ensures
            r@ == self@,
    {
        self.text.as_str()
    }
}

/// Relies on `BigUint::parse_bytes` to read the digits in the given radix and
/// on `BigUint::to_str_radix(16)` to write the same integer back in lowercase
/// hex without leading zeros ("0" for zero).
#[verifier::external_body]
fn reencode_as_hex(digits: &str, radix: u32) -> (r: Option<String>)
    requires
        digits@.len() > 0,
        radix == 10 || radix == 16,
        all_digits(digits@, radix as nat),
    ensures
        r is Some,
        is_minimal_hex(r->0@),
        digits_value(r->0@, 16) == digits_value(digits@, radix as nat),
{
    BigUint::parse_bytes(digits.as_bytes(), radix).map(|n| n.to_str_radix(16))
}

/// Relies on `ff_ce::from_hex::<Fr>`, which reads the digits after `0x` as a
/// big-endian 32-byte integer and fails exactly when it is not below the
/// modulus of `poseidon_rs::Fr`.
#[verifier::external_body]
fn fits_in_field(text: &str) -> (r: bool)
    requires
        is_canonical_text(text@),
    ensures
        r == (digits_value(text@.skip(2), 16) < field_modulus()),
{
    ff_ce::from_hex::<Fr>(text).is_ok()
}

/// Relies on `String::push`: the character is appended.
#[verifier::external_body]
fn push_char(s: &mut String, c: char)
    ensures
        final(s)@ == old(s)@.push(c),
{
    s.push(c)
}

proof fn lemma_hex_char(d: nat)
    requires
        d < 16,
    ensures
        is_lower_hex_digit(hex_char(d)),
        digit_value(hex_char(d)) == d,
{
}

proof fn lemma_fixed_hex(v: nat, n: nat)
    ensures
        fixed_hex(v, n).len() == n,
        forall|i: int| 0 <= i < n ==> #[trigger] is_lower_hex_digit(fixed_hex(v, n)[i]),
        digits_value(fixed_hex(v, n), 16) == v % pow16(n),
    decreases n,
{
    if n > 0 {
        let m = (n - 1) as nat;
        lemma_fixed_hex(v / 16, m);
        lemma_hex_char(v % 16);
        let f = fixed_hex(v, n);
        assert(f.drop_last() =~= fixed_hex(v / 16, m));
        lemma_pow16_positive(m);
        lemma_mod_breakdown(v as int, 16, pow16(m) as int);
        assert(forall|i: int| 0 <= i < m ==> f[i] == fixed_hex(v / 16, m)[i]);
    }
}

proof fn lemma_pow16_positive(n: nat)
    ensures
        pow16(n) > 0,
    decreases n,
{
    if n > 0 {
        lemma_pow16_positive((n - 1) as nat);
    }
}

proof fn lemma_pow16_monotone(a: nat, b: nat)
    requires
        a <= b,
    ensures
        pow16(a) <= pow16(b),
    decreases b,
{
    if a < b {
        lemma_pow16_monotone(a, (b - 1) as nat);
        lemma_pow16_positive((b - 1) as nat);
    }
}

proof fn lemma_modulus_below_pow16()
    ensures
        field_modulus() < pow16(64),
{
    reveal_with_fuel(pow16, 65);
}

/// Two lowercase hex strings of one length with one value are the same string.
proof fn lemma_hex_injective(a: Seq<char>, b: Seq<char>)
    requires
        a.len() == b.len(),
        forall|i: int| 0 <= i < a.len() ==> #[trigger] is_lower_hex_digit(a[i]),
        forall|i: int| 0 <= i < b.len() ==> #[trigger] is_lower_hex_digit(b[i]),
        digits_value(a, 16) == digits_value(b, 16),
    ensures
        a == b,
    decreases a.len(),
{
    if a.len() > 0 {
        let (a0, b0) = (a.drop_last(), b.drop_last());
        assert(is_lower_hex_digit(a[a.len() - 1]));
        assert(is_lower_hex_digit(b[b.len() - 1]));
        assert(digit_value(a.last()) < 16);
        assert(digit_value(b.last()) < 16);
        assert(forall|i: int| 0 <= i < a0.len() ==> a0[i] == a[i]);
        assert(forall|i: int| 0 <= i < b0.len() ==> b0[i] == b[i]);
        lemma_hex_injective(a0, b0);
        assert(a.last() == b.last());
        assert(a =~= a0.push(a.last()));
        assert(b =~= b0.push(b.last()));
    }
}

proof fn lemma_zeros_value(z: Seq<char>)
    requires
        forall|i: int| 0 <= i < z.len() ==> #[trigger] z[i] == '0',
    ensures
        digits_value(z, 16) == 0,
    decreases z.len(),
{
    if z.len() > 0 {
        lemma_zeros_value(z.drop_last());
    }
}

proof fn lemma_zero_padding(z: Seq<char>, h: Seq<char>)
    requires
        forall|i: int| 0 <= i < z.len() ==> #[trigger] z[i] == '0',
    ensures
        digits_value(z + h, 16) == digits_value(h, 16),
    decreases h.len(),
{
    if h.len() == 0 {
        assert(z + h =~= z);
        lemma_zeros_value(z);
    } else {
        assert((z + h).drop_last() =~= z + h.drop_last());
        lemma_zero_padding(z, h.drop_last());
    }
}

proof fn lemma_leading_digit(h: Seq<char>)
    requires
        h.len() >= 1,
        forall|i: int| 0 <= i < h.len() ==> #[trigger] is_lower_hex_digit(h[i]),
        h[0] != '0',
    ensures
        digits_value(h, 16) >= pow16((h.len() - 1) as nat),
    decreases h.len(),
{
    if h.len() > 1 {
        let h0 = h.drop_last();
        assert(forall|i: int| 0 <= i < h0.len() ==> h0[i] == h[i]);
        lemma_leading_digit(h0);
    } else {
        assert(is_lower_hex_digit(h[0]));
    }
}

/// A lowercase 64-digit hex text is the canonical text of its value.
pub proof fn lemma_canonical_of_digits(t: Seq<char>)
    requires
        is_canonical_text(t),
    ensures
        digits_value(t.skip(2), 16) < pow16(64),
        t == canonical_text(digits_value(t.skip(2), 16)),
{
    let v = digits_value(t.skip(2), 16);
    let d = t.skip(2);
    assert(forall|i: int| 0 <= i < 64 ==> #[trigger] is_lower_hex_digit(d[i])) by {
        assert(forall|i: int| 0 <= i < 64 ==> d[i] == t[i + 2]);
    }
    lemma_digits_below_pow16(d);
    lemma_fixed_hex(v, 64);
    vstd::arithmetic::div_mod::lemma_small_mod(v, pow16(64));
    lemma_hex_injective(d, fixed_hex(v, 64));
    assert(t =~= seq!['0', 'x'] + d);
}

proof fn lemma_digits_below_pow16(s: Seq<char>)
    requires
        forall|i: int| 0 <= i < s.len() ==> #[trigger] is_lower_hex_digit(s[i]),
    ensures
        digits_value(s, 16) < pow16(s.len()),
    decreases s.len(),
{
    if s.len() > 0 {
        let s0 = s.drop_last();
        assert(forall|i: int| 0 <= i < s0.len() ==> s0[i] == s[i]);
        lemma_digits_below_pow16(s0);
        assert(is_lower_hex_digit(s[s.len() - 1]));
    }
}

/// The value of a field element below `16^64` has its canonical text as the
/// hex numeral it reads from.
pub proof fn lemma_canonical_text_value(v: nat)
    requires
        v < pow16(64),
    ensures
        is_canonical_text(canonical_text(v)),
        numeral(canonical_text(v)) == Some((canonical_text(v).skip(2), 16nat)),
        digits_value(canonical_text(v).skip(2), 16) == v,
{
    let t = canonical_text(v);
    lemma_fixed_hex(v, 64);
    vstd::arithmetic::div_mod::lemma_small_mod(v, pow16(64));
    assert(t.skip(2) =~= fixed_hex(v, 64));
    assert forall|i: int| 0 <= i < t.skip(2).len() implies #[trigger] is_digit_in(t.skip(2)[i], 16) by {
        assert(is_lower_hex_digit(fixed_hex(v, 64)[i]));
    }
}

/// Whether `s[start..]` is a non-empty run of digits of the radix.
fn digits_from(s: &str, start: usize, radix: u32) -> (r: bool)
    requires
        start <= s@.len(),
        radix == 10 || radix == 16,
    ensures
        r == (s@.len() > start && all_digits(s@.skip(start as int), radix as nat)),
{
    let n = s.unicode_len();
    if n <= start {
        return false;
    }
    let mut i = start;
    while i < n
        invariant
            start <= i <= n,
            n == s@.len(),
            radix == 10 || radix == 16,
            forall|j: int| start <= j < i ==> #[trigger] is_digit_in(s@[j], radix as nat),
        decreases n - i,
    {
        let c = s.get_char(i);
        let ok = if radix == 10 {
            '0' <= c && c <= '9'
        } else {
            ('0' <= c && c <= '9') || ('a' <= c && c <= 'f') || ('A' <= c && c <= 'F')
        };
        if !ok {
            assert(!is_digit_in(s@.skip(start as int)[i - start], radix as nat));
            return false;
        }
        i = i + 1;
    }
    assert forall|j: int| 0 <= j < s@.skip(start as int).len() implies #[trigger] is_digit_in(
        s@.skip(start as int)[j],
        radix as nat,
    ) by {
        assert(s@.skip(start as int)[j] == s@[j + start]);
    }
    true
}

/// Converts a decimal or hexadecimal numeral (hex with or without `0x`) into
/// the canonical text of the field element it denotes.
pub fn canonicalize(raw: &str) -> (r: Result<FieldElement, CanonError>)
    ensures
        r == Err::<FieldElement, CanonError>(CanonError::MalformedInput) <==> numeral(raw@) is None,
        r == Err::<FieldElement, CanonError>(CanonError::FieldOverflow) <==> (numeral(raw@) is Some
            && numeral_value(raw@) >= field_modulus()),
        r is Ok <==> (numeral(raw@) is Some && numeral_value(raw@) < field_modulus()),
        r matches Ok(e) ==> e.wf() && e.value() == numeral_value(raw@) && e@ == canonical_text(
            numeral_value(raw@),
        ),
{
    let n = raw.unicode_len();
    let prefixed = n >= 2 && raw.get_char(0) == '0' && raw.get_char(1) == 'x';
    let (start, radix): (usize, u32) = if prefixed {
        (2, 16)
    } else if digits_from(raw, 0, 10) {
        (0, 10)
    } else {
        (0, 16)
    };
    assert(raw@.skip(0) =~= raw@);
    if !digits_from(raw, start, radix) {
        return Err(CanonError::MalformedInput);
    }
    let digits = raw.substring_char(start, n);
    assert(digits@ =~= raw@.skip(start as int));
    let h = match reencode_as_hex(digits, radix) {
        Some(h) => h,
        None => return Err(CanonError::MalformedInput),
    };
    let ghost v = digits_value(digits@, radix as nat);
    assert(v == numeral_value(raw@));
    let hl = h.as_str().unicode_len();
    if hl > 64 {
        proof {
            lemma_leading_digit(h@);
            lemma_pow16_monotone(64, (hl - 1) as nat);
            lemma_modulus_below_pow16();
        }
        return Err(CanonError::FieldOverflow);
    }
    let mut text = String::new();
    push_char(&mut text, '0');
    push_char(&mut text, 'x');
    let mut k: usize = hl;
    while k < 64
        invariant
            hl <= k <= 64,
            text@.len() == 2 + (k - hl),
            text@[0] == '0',
            text@[1] == 'x',
            forall|i: int| 2 <= i < text@.len() ==> #[trigger] text@[i] == '0',
        decreases 64 - k,
    {
        push_char(&mut text, '0');
        k = k + 1;
    }
    let ghost zeros = text@.skip(2);
    let mut j: usize = 0;
    while j < hl
        invariant
            0 <= j <= hl,
            hl == h@.len(),
            hl <= 64,
            zeros.len() == 64 - hl,
            text@ == seq!['0', 'x'] + zeros + h@.take(j as int),
        decreases hl - j,
    {
        let c = h.as_str().get_char(j);
        push_char(&mut text, c);
        assert(h@.take(j + 1) =~= h@.take(j as int).push(c));
        j = j + 1;
    }
    proof {
        assert(h@.take(hl as int) =~= h@);
        assert(text@.skip(2) =~= zeros + h@);
        assert(forall|i: int| 0 <= i < zeros.len() ==> #[trigger] zeros[i] == text@[i + 2]);
        lemma_zero_padding(zeros, h@);
        assert forall|i: int| 2 <= i < 66 implies #[trigger] is_lower_hex_digit(text@[i]) by {
            if i < 2 + zeros.len() {
                assert(text@[i] == zeros[i - 2]);
            } else {
                assert(text@[i] == h@[i - 2 - zeros.len()]);
            }
        }
    }
    if !fits_in_field(text.as_str()) {
        return Err(CanonError::FieldOverflow);
    }
    proof {
        lemma_canonical_of_digits(text@);
    }
    Ok(FieldElement { text })
}

/// Numerals that denote the same integer canonicalize to the same text,
/// `0x` and 64 hex digits.
pub proof fn lemma_same_integer_same_text(s1: Seq<char>, s2: Seq<char>)
    requires
        numeral(s1) is Some,
        numeral(s2) is Some,
        numeral_value(s1) == numeral_value(s2),
        numeral_value(s1) < field_modulus(),
    ensures
        canonical_text(numeral_value(s1)) == canonical_text(numeral_value(s2)),
        canonical_text(numeral_value(s1)).len() == 66,
        is_canonical_text(canonical_text(numeral_value(s1))),
{
    lemma_modulus_below_pow16();
    lemma_canonical_text_value(numeral_value(s1));
}

/// A well-formed element's text is the canonical text of its value: no other
/// case or width of the same integer is a field element.
pub proof fn lemma_text_unique_per_value(e1: FieldElement, e2: FieldElement)
    requires
        e1.wf(),
        e2.wf(),
        e1.value() == e2.value(),
    ensures
        e1@ == canonical_text(e1.value()),
        e1@ == e2@,
{
    lemma_canonical_of_digits(e1@);
    lemma_canonical_of_digits(e2@);
}

/// Canonicalizing a canonical text gives it back: the text is an accepted
/// numeral of the same integer, whose canonical text is itself.
pub proof fn lemma_canonicalize_idempotent(s: Seq<char>)
    requires
        numeral(s) is Some,
        numeral_value(s) < field_modulus(),
    ensures
        numeral(canonical_text(numeral_value(s))) is Some,
        numeral_value(canonical_text(numeral_value(s))) == numeral_value(s),
        canonical_text(numeral_value(canonical_text(numeral_value(s)))) == canonical_text(
            numeral_value(s),
        ),
{
    lemma_modulus_below_pow16();
    lemma_canonical_text_value(numeral_value(s));
}

} // verus!
