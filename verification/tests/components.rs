use iban_check::divide_by_97;
use iban_check::lookup_length;
use iban_check::replace_letters_with_numbers;
use iban_check::validate_iban;

#[test]
fn registry_holds_the_reference_lengths() {
    assert_eq!(lookup_length("DE"), Some(22));
    assert_eq!(lookup_length("GB"), Some(22));
    assert_eq!(lookup_length("NO"), Some(15));
    assert_eq!(lookup_length("MT"), Some(31));
    assert_eq!(lookup_length("GT"), Some(28));
    assert_eq!(lookup_length("BH"), Some(22));
    assert_eq!(lookup_length("BI"), Some(27));
    assert_eq!(lookup_length("AT"), Some(20));
}

#[test]
fn registry_rejects_unknown_and_lowercase_codes() {
    assert_eq!(lookup_length("XX"), None);
    assert_eq!(lookup_length("ZZ"), None);
    // Codes are compared case-sensitively in upper case.
    assert_eq!(lookup_length("de"), None);
    assert_eq!(lookup_length("dE"), None);
}

#[test]
fn remainder_test_on_exact_numerals() {
    // 98 leaves remainder 1; 97 leaves remainder 0; a valid IBAN reduces to
    // 1, never 0.
    assert!(divide_by_97("98"));
    assert!(divide_by_97("1"));
    assert!(!divide_by_97("97"));
    assert!(!divide_by_97("0"));
    // The rearranged and expanded form of DE89370400440532013000.
    assert!(divide_by_97("370400440532013000131489"));
    assert!(!divide_by_97("370400440532013000131490"));
}

#[test]
fn remainder_test_rejects_non_numerals() {
    assert!(!divide_by_97(""));
    assert!(!divide_by_97("+98"));
    assert!(!divide_by_97("12A3"));
    assert!(!divide_by_97("9 8"));
}

#[test]
fn letter_replacement_is_case_insensitive() {
    assert_eq!(replace_letters_with_numbers("de89"), "131489");
    assert_eq!(replace_letters_with_numbers("zZ"), "3535");
    assert_eq!(replace_letters_with_numbers(""), "");
    assert_eq!(replace_letters_with_numbers("0"), "0");
}

#[test]
fn batch_evaluation_keeps_input_order() {
    let candidates = vec!["DE89370400440532013000", "XX89370400440532013000", "ABC;"];
    let verdicts = validate_iban(candidates);
    assert_eq!(verdicts.len(), 3);
    assert_eq!(verdicts[0].iban, "DE89370400440532013000");
    assert!(verdicts[0].is_divisible_by_97);
    assert_eq!(verdicts[1].iban, "XX89370400440532013000");
    assert!(!verdicts[1].is_valid_country);
    assert!(verdicts[1].is_alphanumeric);
    assert_eq!(verdicts[2].iban, "ABC;");
    assert!(!verdicts[2].is_alphanumeric);
}

#[test]
fn batch_evaluation_of_a_single_candidate() {
    let verdicts = validate_iban(vec!["GB82WEST12345698765432"]);
    assert_eq!(verdicts.len(), 1);
    assert!(verdicts[0].is_alphanumeric);
    assert!(verdicts[0].is_valid_country);
    assert!(verdicts[0].is_correct_length);
    assert!(verdicts[0].is_divisible_by_97);
}
