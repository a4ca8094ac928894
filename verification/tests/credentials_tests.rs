use gh_auth_proxy::credentials::extract_credentials;

#[test]
fn parses_plain_basic_header() {
    let cred = extract_credentials(b"Basic dXNlcm5hbWU6cGFzc3dvcmQ=").unwrap();
    assert_eq!(cred.username, "username");
    assert_eq!(cred.secret, "password");
}

#[test]
fn splits_at_first_colon_only() {
    let cred = extract_credentials(b"Basic dXNlcm5hbWU6OnBhc3M6d29yZDo=").unwrap();
    assert_eq!(cred.username, "username");
    assert_eq!(cred.secret, ":pass:word:");
}

#[test]
fn scheme_is_case_insensitive() {
    let cred = extract_credentials(b"bAsIc dXNlcm5hbWU6cGFzc3dvcmQ=").unwrap();
    assert_eq!(cred.username, "username");
    assert_eq!(cred.secret, "password");

    let cred = extract_credentials(b"basic dXNlcm5hbWU6cGFzc3dvcmQ=").unwrap();
    assert_eq!(cred.username, "username");
}

#[test]
fn rejects_other_schemes() {
    assert!(extract_credentials(b"Bearer dXNlcm5hbWU6cGFzc3dvcmQ=").is_none());
    assert!(extract_credentials(b"Digest dXNlcm5hbWU6cGFzc3dvcmQ=").is_none());
    assert!(extract_credentials(b"Basics dXNlcm5hbWU6cGFzc3dvcmQ=").is_none());
}

#[test]
fn rejects_header_without_space() {
    assert!(extract_credentials(b"dXNlcm5hbWU6cGFzc3dvcmQ=").is_none());
    assert!(extract_credentials(b"").is_none());
}

#[test]
fn rejects_space_inside_payload() {
    assert!(extract_credentials(b"Basic dXNlcm5hbWU6 cGFzc3dvcmQ=").is_none());
    assert!(extract_credentials(b"Basic x ").is_none());
}

#[test]
fn rejects_payload_that_is_not_base64() {
    assert!(extract_credentials(b"Basic abc").is_none());
    assert!(extract_credentials(b"Basic ????").is_none());
    assert!(extract_credentials(b"Basic dXNlcm5hbWU6cGFzc3dvcmQ").is_none());
}

#[test]
fn rejects_non_canonical_padding_bits() {
    // 'b' carries low bits that canonical base64 would have zeroed.
    assert!(extract_credentials(b"Basic ab==").is_none());
}

#[test]
fn rejects_payload_without_colon() {
    assert!(extract_credentials(b"Basic dXNlcm5hbWU=").is_none());
}

#[test]
fn rejects_empty_payload() {
    assert!(extract_credentials(b"Basic ").is_none());
}

#[test]
fn rejects_payload_that_is_not_utf8() {
    // "/w==" decodes to the single byte 0xFF.
    assert!(extract_credentials(b"Basic /w==").is_none());
}

#[test]
fn empty_username_and_secret_are_parsed() {
    // "Og==" decodes to ":".
    let cred = extract_credentials(b"Basic Og==").unwrap();
    assert_eq!(cred.username, "");
    assert_eq!(cred.secret, "");
}
