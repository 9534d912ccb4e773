use crownix_vault::header::validate_vault_header;

/// A buffer laid out as a vault: little-endian length prefix, header JSON,
/// then payload.
fn vault_buffer(header_json: &str, payload: &[u8]) -> Vec<u8> {
    let mut buf = Vec::new();
    buf.extend_from_slice(&(header_json.len() as u32).to_le_bytes());
    buf.extend_from_slice(header_json.as_bytes());
    buf.extend_from_slice(payload);
    buf
}

const GOOD_HEADER: &str = r#"{"magic":"CROWNIX_VAULT","version":1}"#;

#[test]
fn valid_header_accepts() {
    let buf = vault_buffer(GOOD_HEADER, b"payload");
    assert!(validate_vault_header(&buf));
}

#[test]
fn valid_header_accepts_empty_payload() {
    let buf = vault_buffer(GOOD_HEADER, b"");
    assert!(validate_vault_header(&buf));
}

#[test]
fn payload_content_is_irrelevant() {
    let a = vault_buffer(GOOD_HEADER, b"hello");
    let b = vault_buffer(GOOD_HEADER, &[0u8, 255, 7, 7, 7]);
    assert!(validate_vault_header(&a));
    assert!(validate_vault_header(&b));
}

#[test]
fn extra_header_fields_are_allowed() {
    let buf = vault_buffer(
        r#"{"magic":"CROWNIX_VAULT","version":1,"future":"field"}"#,
        b"x",
    );
    assert!(validate_vault_header(&buf));
}

#[test]
fn empty_buffer_rejected() {
    assert!(!validate_vault_header(&Vec::new()));
}

#[test]
fn short_buffer_rejected() {
    assert!(!validate_vault_header(&vec![1u8, 0, 0]));
}

#[test]
fn truncated_header_region_rejected() {
    // Declares a 100-byte header but carries fewer bytes.
    let mut buf = Vec::new();
    buf.extend_from_slice(&100u32.to_le_bytes());
    buf.extend_from_slice(b"short");
    assert!(!validate_vault_header(&buf));
}

#[test]
fn non_json_header_rejected() {
    let buf = vault_buffer("not json at all", b"payload");
    assert!(!validate_vault_header(&buf));
}

#[test]
fn wrong_magic_rejected() {
    let buf = vault_buffer(r#"{"magic":"OTHER_VAULT","version":1}"#, b"payload");
    assert!(!validate_vault_header(&buf));
}

#[test]
fn missing_magic_rejected() {
    let buf = vault_buffer(r#"{"version":1}"#, b"payload");
    assert!(!validate_vault_header(&buf));
}

#[test]
fn wrong_version_rejected() {
    let buf = vault_buffer(r#"{"magic":"CROWNIX_VAULT","version":2}"#, b"payload");
    assert!(!validate_vault_header(&buf));
}

#[test]
fn missing_version_rejected() {
    let buf = vault_buffer(r#"{"magic":"CROWNIX_VAULT"}"#, b"payload");
    assert!(!validate_vault_header(&buf));
}

#[test]
fn non_object_header_rejected() {
    let buf = vault_buffer(r#"["CROWNIX_VAULT",1]"#, b"payload");
    assert!(!validate_vault_header(&buf));
}

#[test]
fn zero_length_header_rejected() {
    let buf = vault_buffer("", b"payload");
    assert!(!validate_vault_header(&buf));
}
