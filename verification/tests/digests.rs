use relay_plugin::digest::{check_sha256, expected_digest, hex_digest, sha256_hex, verify_sha256};

const ABC: &str = "ba7816bf8f01cfea414140de5dae2223b00361a396177a9cb410ff61f20015ad";

#[test]
fn hexadecimal_has_two_lower_case_digits_for_each_byte() {
    assert_eq!(hex_digest(&vec![0, 15, 16, 171, 255]), "000f10abff");
    assert_eq!(hex_digest(&vec![]), "");
}

#[test]
fn different_bytes_have_different_texts() {
    assert_ne!(hex_digest(&vec![1, 2]), hex_digest(&vec![2, 1]));
    assert_ne!(hex_digest(&vec![16]), hex_digest(&vec![1, 0]));
}

#[test]
fn digest_of_known_texts() {
    assert_eq!(sha256_hex(&b"abc".to_vec()), ABC);
    assert_eq!(
        sha256_hex(&vec![]),
        "e3b0c44298fc1c149afbf4c8996fb92427ae41e4649b934ca495991b7852b855"
    );
}

#[test]
fn declared_digest_may_name_its_algorithm() {
    assert_eq!(expected_digest("sha256:abc"), "abc");
    assert_eq!(expected_digest("abc"), "abc");
}

#[test]
fn matching_contents_are_accepted_in_any_case() {
    let contents = || Ok(b"abc".to_vec());
    assert!(verify_sha256("lib.so", contents(), ABC).is_ok());
    assert!(verify_sha256("lib.so", contents(), &format!("sha256:{ABC}")).is_ok());
    assert!(verify_sha256("lib.so", contents(), &ABC.to_uppercase()).is_ok());
}

#[test]
fn other_contents_are_refused() {
    let refused = verify_sha256("lib.so", Ok(b"abd".to_vec()), ABC);
    let shown = "invalid config: native plugin library 'lib.so' sha256 mismatch";
    assert_eq!(refused.unwrap_err().to_text(), shown);
    assert_eq!(check_sha256("lib.so", &vec![0; 32], ABC).unwrap_err().to_text(), shown);
}

#[test]
fn unreadable_contents_are_refused() {
    let refused = verify_sha256("lib.so", Err("permission denied".to_string()), ABC);
    assert_eq!(
        refused.unwrap_err().to_text(),
        "internal error: failed to read 'lib.so': permission denied"
    );
}
