//! Evaluation of one candidate string, or a batch of them, into verdicts.
//!
//! A verdict carries the candidate verbatim together with four flags: the
//! candidate is alphanumeric, its leading two characters name a registered
//! country, its length is the one registered for that country, and the
//! MOD 97-10 checksum over its rearranged base-36 expansion leaves remainder
//! 1. A candidate that fails a structural gate (fewer than two characters, or
//! a non-alphanumeric character) keeps every flag false; no input ever makes
//! an evaluation fail.

use vstd::prelude::*;

use crate::registry::country_length;
use crate::registry::lookup_chars;
use crate::transform::divide_by_97;
use crate::transform::is_base36;
use crate::transform::lemma_numeral_of_decimal;
use crate::transform::numeral_of;
use crate::transform::numeral_value;
use crate::transform::replace_letters_with_numbers;

verus! {

/// Whether a character counts as alphanumeric under the Unicode-aware
/// definition of `char::is_alphanumeric`: a general-category letter or digit,
/// not restricted to ASCII. The result depends on the character alone.
pub uninterp spec fn is_unicode_alphanumeric(c: char) -> bool;

/// Relies on `char::is_alphanumeric` of std: the Unicode letter-or-digit
/// test, a function of the character alone. An ASCII digit or letter is
/// documented to count as alphanumeric.
#[verifier::external_body]
fn char_is_alphanumeric(c: char) -> (r: bool)
    ensures
        r == is_unicode_alphanumeric(c),
        is_base36(c) ==> r,
{
    c.is_alphanumeric()
}

/// Whether every character of `iban` is alphanumeric in the Unicode-aware
/// sense. True of the empty string.
pub fn is_alphanumeric(iban: &str) -> (r: bool)
    ensures
        r == forall|i: int| 0 <= i < iban@.len() ==> is_unicode_alphanumeric(iban@[i]),
{
    let n = iban.unicode_len();
    let mut i: usize = 0;
    while i < n
        invariant
            0 <= i <= n,
            n == iban@.len(),
            forall|j: int| 0 <= j < i ==> is_unicode_alphanumeric(iban@[j]),
        decreases n - i,
    {
        let c = iban.get_char(i);
        if !char_is_alphanumeric(c) {
            return false;
        }
        i = i + 1;
    }
    true
}

/// The verdict on one candidate: the candidate itself, verbatim, and the
/// four validity flags.
#[derive(Debug, PartialEq)]
pub struct IbanVO {
    pub iban: String,
    pub is_alphanumeric: bool,
    pub is_valid_country: bool,
    pub is_correct_length: bool,
    pub is_divisible_by_97: bool,
}

/// The structural gate: at least two characters, all of them alphanumeric.
pub open spec fn alphanumeric_ok(s: Seq<char>) -> bool {
    s.len() >= 2 && forall|i: int| 0 <= i < s.len() ==> is_unicode_alphanumeric(s[i])
}

/// The country flag: the structural test passed and the leading two
/// characters name a registered country.
pub open spec fn country_ok(s: Seq<char>) -> bool {
    alphanumeric_ok(s) && country_length(s[0], s[1]) is Some
}

/// The length flag: the structural test passed and the candidate's
/// character count is the length registered for its country. False for an
/// unknown country.
pub open spec fn length_ok(s: Seq<char>) -> bool {
    alphanumeric_ok(s) && match country_length(s[0], s[1]) {
        Some(l) => l as nat == s.len(),
        None => false,
    }
}

/// The candidate with its first four characters moved to the end, for a
/// candidate of at least four characters.
pub open spec fn rearranged(s: Seq<char>) -> Seq<char> {
    s.subrange(4, s.len() as int) + s.subrange(0, 4)
}

/// The checksum condition on the candidate alone: it is long enough to
/// rearrange, every character is a base-36 digit, and the decimal numeral
/// expanded from the rearranged candidate leaves remainder 1 modulo 97.
pub open spec fn checksum_holds(s: Seq<char>) -> bool {
    &&& s.len() >= 4
    &&& forall|i: int| 0 <= i < s.len() ==> is_base36(s[i])
    &&& numeral_value(numeral_of(rearranged(s))) % 97 == 1
}

/// The checksum flag: the structural gate passed and the checksum condition
/// holds. It never consults the registry.
pub open spec fn divisible_ok(s: Seq<char>) -> bool {
    alphanumeric_ok(s) && checksum_holds(s)
}

/// What evaluating the candidate `s` must produce: the verdict `v` echoes
/// `s` and carries exactly the four flags defined above.
pub open spec fn verdict_matches(v: IbanVO, s: Seq<char>) -> bool {
    &&& v.iban@ == s
    &&& v.is_alphanumeric == alphanumeric_ok(s)
    &&& v.is_valid_country == country_ok(s)
    &&& v.is_correct_length == length_ok(s)
    &&& v.is_divisible_by_97 == divisible_ok(s)
}

/// Rearranging permutes the characters, so the candidate is all base-36
/// exactly when its rearrangement is.
proof fn lemma_rearranged_base36(s: Seq<char>)
    requires
        s.len() >= 4,
    ensures
        (forall|i: int| 0 <= i < s.len() ==> is_base36(s[i])) <==> (forall|i: int|
            0 <= i < rearranged(s).len() ==> is_base36(rearranged(s)[i])),
{
    let r = rearranged(s);
    let n = s.len() as int;
    assert(r.len() == n);
    if forall|i: int| 0 <= i < s.len() ==> is_base36(s[i]) {
        assert(forall|i: int| 0 <= i < r.len() ==> is_base36(#[trigger] r[i])) by {
            assert(forall|i: int| 0 <= i < n - 4 ==> #[trigger] r[i] == s[i + 4]);
            assert(forall|i: int| n - 4 <= i < n ==> #[trigger] r[i] == s[i - (n - 4)]);
        }
    }
    if forall|i: int| 0 <= i < r.len() ==> is_base36(r[i]) {
        assert(forall|i: int| 0 <= i < s.len() ==> is_base36(#[trigger] s[i])) by {
            assert(forall|i: int| 0 <= i < 4 ==> #[trigger] s[i] == r[i + (n - 4)]);
            assert(forall|i: int| 4 <= i < n ==> #[trigger] s[i] == r[i - 4]);
        }
    }
}

/// Whether every character of `s` is a base-36 digit.
fn all_base36(s: &str) -> (r: bool)
    ensures
        r == forall|i: int| 0 <= i < s@.len() ==> is_base36(s@[i]),
{
    let n = s.unicode_len();
    let mut i: usize = 0;
    while i < n
        invariant
            0 <= i <= n,
            n == s@.len(),
            forall|j: int| 0 <= j < i ==> is_base36(s@[j]),
        decreases n - i,
    {
        let c = s.get_char(i);
        let u = c as u32;
        let ok = (48 <= u && u <= 57) || (65 <= u && u <= 90) || (97 <= u && u <= 122);
        if !ok {
            return false;
        }
        i = i + 1;
    }
    true
}

/// Evaluates one candidate into its verdict.
///
/// The checks run in order and a failed structural gate leaves the later
/// flags false: a candidate of fewer than two characters, or one with a
/// non-alphanumeric character, keeps all four flags false. Country and
/// length are looked up in the registry; the checksum is computed whether or
/// not the country is known. No input makes the evaluation fail or panic.
pub fn get_iban_vo_from_str(iban: &str) -> (r: IbanVO)
    ensures
        verdict_matches(r, iban@),
{
    let mut iban_vo = IbanVO {
        iban: String::from_str(iban),
        is_alphanumeric: false,
        is_valid_country: false,
        is_correct_length: false,
        is_divisible_by_97: false,
    };
    let n = iban.unicode_len();
    if n < 2 {
        return iban_vo;
    }
    if !is_alphanumeric(iban) {
        return iban_vo;
    }
    iban_vo.is_alphanumeric = true;
    let c0 = iban.get_char(0);
    let c1 = iban.get_char(1);
    let expected_length = lookup_chars(c0, c1);
    match expected_length {
        Some(l) => {
            iban_vo.is_valid_country = true;
            iban_vo.is_correct_length = l == n;
        },
        None => {},
    }
    if n >= 4 {
        let tail = iban.substring_char(4, n);
        let head = iban.substring_char(0, 4);
        let rearranged_iban = String::from_str(tail).concat(head);
        proof {
            assert(rearranged_iban@ =~= rearranged(iban@));
            lemma_rearranged_base36(iban@);
        }
        if all_base36(rearranged_iban.as_str()) {
            let numeral = replace_letters_with_numbers(rearranged_iban.as_str());
            proof {
                lemma_numeral_of_decimal(rearranged_iban@);
            }
            iban_vo.is_divisible_by_97 = divide_by_97(numeral.as_str());
        }
    }
    iban_vo
}

/// Evaluates a non-empty batch of candidates, one verdict per candidate, in
/// order, each computed independently of the others.
pub fn validate_iban(iban_numbers: Vec<&str>) -> (r: Vec<IbanVO>)
    requires
        iban_numbers@.len() >= 1,
    ensures
        r@.len() == iban_numbers@.len(),
        forall|i: int| 0 <= i < r@.len() ==> verdict_matches(r@[i], iban_numbers@[i]@),
{
    let mut iban_results: Vec<IbanVO> = Vec::new();
    let mut i: usize = 0;
    while i < iban_numbers.len()
        invariant
            0 <= i <= iban_numbers@.len(),
            iban_results@.len() == i,
            forall|j: int| 0 <= j < i ==> verdict_matches(iban_results@[j], iban_numbers@[j]@),
        decreases iban_numbers@.len() - i,
    {
        let verdict = get_iban_vo_from_str(iban_numbers[i]);
        iban_results.push(verdict);
        i = i + 1;
    }
    iban_results
}

/// A candidate of fewer than two characters gets a verdict with every flag
/// false: not even a country code can be extracted from it.
pub proof fn lemma_short_input_all_false(v: IbanVO, s: Seq<char>)
    requires
        verdict_matches(v, s),
        s.len() < 2,
    ensures
        !v.is_alphanumeric,
        !v.is_valid_country,
        !v.is_correct_length,
        !v.is_divisible_by_97,
{
}

/// A candidate holding any non-alphanumeric character gets a verdict with
/// every flag false: the alphanumeric gate fails first and nothing after it
/// is granted.
pub proof fn lemma_non_alphanumeric_all_false(v: IbanVO, s: Seq<char>)
    requires
        verdict_matches(v, s),
        exists|i: int| 0 <= i < s.len() && !is_unicode_alphanumeric(s[i]),
    ensures
        !v.is_alphanumeric,
        !v.is_valid_country,
        !v.is_correct_length,
        !v.is_divisible_by_97,
{
}

/// Evaluation is a pure function of the candidate: two verdicts for the same
/// candidate agree in every field.
pub proof fn lemma_evaluation_deterministic(v1: IbanVO, v2: IbanVO, s: Seq<char>)
    requires
        verdict_matches(v1, s),
        verdict_matches(v2, s),
    ensures
        v1.iban@ == v2.iban@,
        v1.is_alphanumeric == v2.is_alphanumeric,
        v1.is_valid_country == v2.is_valid_country,
        v1.is_correct_length == v2.is_correct_length,
        v1.is_divisible_by_97 == v2.is_divisible_by_97,
{
}

/// The checksum flag is independent of the registry: it equals the structural
/// test and the checksum condition alone, neither of which consults the
/// country table, so a candidate with an unknown country code can still have it
/// true.
pub proof fn lemma_checksum_independent_of_registry(v: IbanVO, s: Seq<char>)
    requires
        verdict_matches(v, s),
    ensures
        v.is_divisible_by_97 == (alphanumeric_ok(s) && checksum_holds(s)),
{
}

} // verus!
