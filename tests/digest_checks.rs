use glade::digest::{calculate_md5, verify_md5};

#[test]
fn md5_of_known_inputs() {
    assert_eq!(calculate_md5(b""), "d41d8cd98f00b204e9800998ecf8427e");
    assert_eq!(calculate_md5(b"hello world"), "5eb63bbbe01eeed093cb22bb8f5acdc3");
}

#[test]
fn content_verifies_against_its_own_digest() {
    let content = b"##fileformat=VCFv4.1\n1\t100\t.\tA\tG\n".to_vec();
    let digest = calculate_md5(&content);
    assert!(verify_md5(&content, &digest));
}

#[test]
fn content_fails_against_other_digest() {
    assert!(!verify_md5(b"hello world", "deadbeef"));
}

#[test]
fn digest_comparison_is_case_sensitive() {
    assert!(!verify_md5(b"hello world", "5EB63BBBE01EEED093CB22BB8F5ACDC3"));
}
