use webhook_dispatcher::signature::sign_payload;

#[test]
fn signature_is_deterministic() {
    let a = sign_payload("k", "{}");
    let b = sign_payload("k", "{}");
    assert_eq!(a, b);
    let c = sign_payload("secret", "{\"success\":true}");
    let d = sign_payload("secret", "{\"success\":true}");
    assert_eq!(c, d);
}

#[test]
fn signature_has_tag_and_64_lower_hex_digits() {
    let s = sign_payload("k", "{}");
    assert!(s.starts_with("sha256="));
    let digest = &s["sha256=".len()..];
    assert_eq!(digest.len(), 64);
    assert!(digest.chars().all(|c| c.is_ascii_hexdigit() && !c.is_ascii_uppercase()));
}

#[test]
fn signature_matches_known_vector() {
    assert_eq!(
        sign_payload("k", "{}"),
        "sha256=add853b103fbcc936a194f9eb15e29c4ff08af6e47d5d1bca4f20218e31e4fff"
    );
}

#[test]
fn signature_of_empty_key_and_body() {
    assert_eq!(
        sign_payload("", ""),
        "sha256=b613679a0814d9ec772f95d778c35fc5ff1697c493715653c6c712144292c5ad"
    );
}

#[test]
fn signature_depends_on_key_and_body() {
    let base = sign_payload("k", "{}");
    assert_ne!(sign_payload("other", "{}"), base);
    assert_ne!(sign_payload("k", "{\"a\":1}"), base);
}
