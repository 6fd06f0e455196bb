use iban_check::get_iban_vo_from_str;
use iban_check::is_alphanumeric;
use iban_check::replace_letters_with_numbers;
use iban_check::IbanVO;

#[test]
fn test_letter_replacer() {
    let iban = "DE89370400440532013000";
    let expected = "131489370400440532013000";
    assert_eq!(replace_letters_with_numbers(iban), expected);

    let iban_two = "89370400440532013DE000";
    let expected_two = "893704004405320131314000";
    assert_eq!(replace_letters_with_numbers(iban_two), expected_two);
}

#[test]
fn test_valid_iban() {
    let iban1 = "BH02CITI00001077181611";
    let iban2 = "DJ2110002010010409943020008";
    let iban3 = "SV43ACAT00000000000000123123";
    let iban4 = "GT20AGRO00000000001234567890";

    let expected1 = IbanVO {
        iban: String::from(iban1),
        is_alphanumeric: true,
        is_valid_country: true,
        is_correct_length: true,
        is_divisible_by_97: true,
    };
    let expected2 = IbanVO {
        iban: String::from(iban2),
        is_alphanumeric: true,
        is_valid_country: true,
        is_correct_length: true,
        is_divisible_by_97: true,
    };
    let expected3 = IbanVO {
        iban: String::from(iban3),
        is_alphanumeric: true,
        is_valid_country: true,
        is_correct_length: true,
        is_divisible_by_97: true,
    };
    let expected4 = IbanVO {
        iban: String::from(iban4),
        is_alphanumeric: true,
        is_valid_country: true,
        is_correct_length: true,
        is_divisible_by_97: true,
    };
    assert_eq!(get_iban_vo_from_str(iban1), expected1);
    assert_eq!(get_iban_vo_from_str(iban2), expected2);
    assert_eq!(get_iban_vo_from_str(iban3), expected3);
    assert_eq!(get_iban_vo_from_str(iban4), expected4);
}

#[test]
fn test_not_divisible_by_97() {
    let iban = "DE89370400440532013001";
    let expected_output = IbanVO {
        iban: String::from(iban),
        is_alphanumeric: true,
        is_valid_country: true,
        is_correct_length: true,
        is_divisible_by_97: false,
    };
    assert_eq!(get_iban_vo_from_str(iban), expected_output);
}

#[test]
fn test_is_alphanumeric() {
    let num1 = "LKSDJFLKJHLKJ39872389476";
    assert_eq!(is_alphanumeric(num1), true);
    let num2 = "ASDÖLKölsdgjlknqåeptoilkbxöcbjewrjiqopwer923874013658971";
    assert_eq!(is_alphanumeric(num2), true);
    let num3 = "ABC_";
    assert_eq!(is_alphanumeric(num3), false);
    let num4 = "ABC;";
    assert_eq!(is_alphanumeric(num4), false);
}

#[test]
fn test_incorrect_length() {
    let iban = "AT4832000000123234245864";
    let expected_output = IbanVO {
        iban: String::from(iban),
        is_alphanumeric: true,
        is_valid_country: true,
        is_correct_length: false,
        is_divisible_by_97: false,
    };
    assert_eq!(get_iban_vo_from_str(iban), expected_output);
}

#[test]
fn test_invalid_country_code() {
    let iban = "XX89370400440532013000";
    let expected_output = IbanVO {
        iban: String::from(iban),
        is_alphanumeric: true,
        is_valid_country: false,
        is_correct_length: false,
        is_divisible_by_97: false,
    };
    assert_eq!(get_iban_vo_from_str(iban), expected_output);
}

#[test]
fn short_candidates_get_all_false() {
    for candidate in ["", "D", "É"] {
        let verdict = get_iban_vo_from_str(candidate);
        assert_eq!(verdict.iban, candidate);
        assert!(!verdict.is_alphanumeric);
        assert!(!verdict.is_valid_country);
        assert!(!verdict.is_correct_length);
        assert!(!verdict.is_divisible_by_97);
    }
}

#[test]
fn non_alphanumeric_candidates_get_all_false() {
    for candidate in ["DE89 37040044 0532013000", "ABC_", "DE-89", "DE89;"] {
        let verdict = get_iban_vo_from_str(candidate);
        assert_eq!(verdict.iban, candidate);
        assert!(!verdict.is_alphanumeric);
        assert!(!verdict.is_valid_country);
        assert!(!verdict.is_correct_length);
        assert!(!verdict.is_divisible_by_97);
    }
}

#[test]
fn evaluation_is_idempotent() {
    for candidate in ["DE89370400440532013000", "XX89370400440532013000", "", "ABC;", "ÖÄ12"] {
        let first = get_iban_vo_from_str(candidate);
        let second = get_iban_vo_from_str(candidate);
        assert_eq!(first, second);
    }
}

#[test]
fn unknown_country_can_still_pass_checksum() {
    let verdict = get_iban_vo_from_str("ZZ89370400440532013055");
    assert!(verdict.is_alphanumeric);
    assert!(!verdict.is_valid_country);
    assert!(!verdict.is_correct_length);
    assert!(verdict.is_divisible_by_97);
}

#[test]
fn long_iban_checksum_needs_no_fixed_width_integer() {
    // The numeral expanded from this candidate has 45 decimal digits, beyond
    // the range of a 128-bit integer, and must still be judged correctly.
    let iban = "MT84MALT011000012345MTLCAST001S";
    let expected = IbanVO {
        iban: String::from(iban),
        is_alphanumeric: true,
        is_valid_country: true,
        is_correct_length: true,
        is_divisible_by_97: true,
    };
    assert_eq!(get_iban_vo_from_str(iban), expected);
}

#[test]
fn unicode_alphanumeric_candidate_fails_checksum_only() {
    // Alphanumeric under the Unicode-aware test, but not base-36 material.
    let verdict = get_iban_vo_from_str("ÖÄ12");
    assert!(verdict.is_alphanumeric);
    assert!(!verdict.is_valid_country);
    assert!(!verdict.is_correct_length);
    assert!(!verdict.is_divisible_by_97);
}

#[test]
fn two_character_candidate_skips_checksum() {
    // A known country code alone: too short to rearrange four characters.
    let verdict = get_iban_vo_from_str("DE");
    assert!(verdict.is_alphanumeric);
    assert!(verdict.is_valid_country);
    assert!(!verdict.is_correct_length);
    assert!(!verdict.is_divisible_by_97);
}

#[test]
fn lowercase_letters_count_in_the_checksum() {
    // Letter case never changes a base-36 digit value, so only the country
    // lookup is case-sensitive.
    let verdict = get_iban_vo_from_str("de89370400440532013000");
    assert!(verdict.is_alphanumeric);
    assert!(!verdict.is_valid_country);
    assert!(!verdict.is_correct_length);
    assert!(verdict.is_divisible_by_97);
}
