use installer_fetch::integrity::{
    equals_lowered, judge, lower, VerificationResult, Verifier, VerifyError,
};
use installer_fetch::outcome::FailureKind;

const HELLO_WORLD_MD5: &str = "5eb63bbbe01eeed093cb22bb8f5acdc3";
const EMPTY_MD5: &str = "d41d8cd98f00b204e9800998ecf8427e";

#[test]
fn a_file_with_the_expected_checksum_matches() {
    let mut verifier = Verifier::new();
    verifier.absorb(b"hello world");
    assert_eq!(
        verifier.conclude(HELLO_WORLD_MD5),
        VerificationResult::Match { digest: HELLO_WORLD_MD5.to_string() }
    );
}

#[test]
fn a_file_with_another_checksum_does_not_match() {
    let corrupted = "5eb63bbbe01eeed093cb22bb8f5acdc4";
    let mut verifier = Verifier::new();
    verifier.absorb(b"hello world");
    assert_eq!(
        verifier.conclude(corrupted),
        VerificationResult::Mismatch {
            expected: corrupted.to_string(),
            actual: HELLO_WORLD_MD5.to_string(),
        }
    );
}

#[test]
fn the_pieces_in_which_a_file_comes_do_not_matter() {
    let mut verifier = Verifier::new();
    verifier.absorb(b"hello");
    verifier.absorb(b" ");
    verifier.absorb(b"");
    verifier.absorb(b"world");
    assert_eq!(verifier.bytes_verified(), 11);
    assert_eq!(
        verifier.conclude(HELLO_WORLD_MD5),
        VerificationResult::Match { digest: HELLO_WORLD_MD5.to_string() }
    );
}

#[test]
fn the_order_of_the_pieces_matters() {
    let mut verifier = Verifier::new();
    verifier.absorb(b"world");
    verifier.absorb(b"hello ");
    assert!(matches!(
        verifier.conclude(HELLO_WORLD_MD5),
        VerificationResult::Mismatch { .. }
    ));
}

#[test]
fn an_empty_file_has_the_checksum_of_nothing() {
    let verifier = Verifier::new();
    assert_eq!(verifier.bytes_verified(), 0);
    assert_eq!(
        verifier.conclude(EMPTY_MD5),
        VerificationResult::Match { digest: EMPTY_MD5.to_string() }
    );
}

#[test]
fn an_expected_checksum_in_capitals_is_compared_in_lowercase() {
    let mut verifier = Verifier::new();
    verifier.absorb(b"hello world");
    assert_eq!(
        verifier.conclude(&HELLO_WORLD_MD5.to_uppercase()),
        VerificationResult::Match { digest: HELLO_WORLD_MD5.to_string() }
    );
}

#[test]
fn a_mismatch_holds_the_expected_checksum_as_it_came() {
    let mut verifier = Verifier::new();
    verifier.absorb(b"hello world");
    assert_eq!(
        verifier.conclude("5EB63BBBE01EEED093CB22BB8F5ACDC4"),
        VerificationResult::Mismatch {
            expected: "5EB63BBBE01EEED093CB22BB8F5ACDC4".to_string(),
            actual: HELLO_WORLD_MD5.to_string(),
        }
    );
}

#[test]
fn the_file_abc_matches_its_checksum_in_capitals() {
    let mut verifier = Verifier::new();
    verifier.absorb(b"abc");
    assert_eq!(
        verifier.conclude("900150983CD24FB0D6963F7D28E17F72"),
        VerificationResult::Match { digest: "900150983cd24fb0d6963f7d28e17f72".to_string() }
    );
}

#[test]
fn a_longer_file_has_its_known_checksum() {
    let mut verifier = Verifier::new();
    let mut written: u64 = 0;
    for _ in 0..1000 {
        verifier.absorb(b"0123456789");
        written += 10;
    }
    assert_eq!(verifier.bytes_verified(), written);
    let whole: Vec<u8> = b"0123456789".iter().copied().cycle().take(10_000).collect();
    let mut at_once = Verifier::new();
    at_once.absorb(&whole);
    let expected = match at_once.conclude("") {
        VerificationResult::Mismatch { actual, .. } => actual,
        VerificationResult::Match { .. } => panic!("no digest is empty"),
    };
    assert_eq!(expected.len(), 32);
    assert_eq!(
        verifier.conclude(&expected),
        VerificationResult::Match { digest: expected.clone() }
    );
}

#[test]
fn judge_compares_the_digest_in_lowercase_hexadecimal() {
    let digest = [0xabu8, 0xc1, 0x23];
    assert_eq!(
        judge(&digest, "abc123"),
        VerificationResult::Match { digest: "abc123".to_string() }
    );
    assert_eq!(
        judge(&digest, "ABC123"),
        VerificationResult::Match { digest: "abc123".to_string() }
    );
    assert_eq!(
        judge(&digest, "aBc123"),
        VerificationResult::Match { digest: "abc123".to_string() }
    );
    assert_eq!(
        judge(&digest, "ABD123"),
        VerificationResult::Mismatch { expected: "ABD123".to_string(), actual: "abc123".to_string() }
    );
    assert_eq!(
        judge(&digest, "abc12"),
        VerificationResult::Mismatch { expected: "abc12".to_string(), actual: "abc123".to_string() }
    );
    assert_eq!(
        judge(&[], ""),
        VerificationResult::Match { digest: String::new() }
    );
}

#[test]
fn verification_errors_have_their_kinds() {
    assert_eq!(VerifyError::Open("gone".to_string()).kind(), FailureKind::VerificationOpen);
    assert_eq!(VerifyError::Read("torn".to_string()).kind(), FailureKind::VerificationRead);
}

#[test]
fn lower_turns_capitals_into_lowercase_letters_and_keeps_the_rest() {
    assert_eq!(lower('A'), 'a');
    assert_eq!(lower('F'), 'f');
    assert_eq!(lower('Z'), 'z');
    assert_eq!(lower('a'), 'a');
    assert_eq!(lower('z'), 'z');
    assert_eq!(lower('0'), '0');
    assert_eq!(lower('9'), '9');
    assert_eq!(lower('@'), '@');
    assert_eq!(lower('['), '[');
    assert_eq!(lower('É'), 'É');
    let mut c = '\0';
    while c <= '\u{7f}' {
        assert_eq!(lower(c), c.to_ascii_lowercase());
        c = char::from_u32(c as u32 + 1).expect("below the surrogates");
    }
}

#[test]
fn equals_lowered_compares_with_the_lowercase_of_the_second_text() {
    assert!(equals_lowered("", ""));
    assert!(equals_lowered("abc123", "abc123"));
    assert!(equals_lowered("abc123", "ABC123"));
    assert!(equals_lowered("abc123", "AbC123"));
    assert!(!equals_lowered("ABC123", "abc123"));
    assert!(!equals_lowered("ABC123", "ABC123"));
    assert!(!equals_lowered("abc123", "abc12"));
    assert!(!equals_lowered("abc12", "abc123"));
    assert!(!equals_lowered("abc123", "abd123"));
    assert!(equals_lowered("é", "é"));
    assert!(!equals_lowered("é", "É"));
}
