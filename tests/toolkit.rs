use c2pa_toolkit::{
    get_manifest_store_data, get_manifest_store_data_from_manifest_and_asset_bytes, get_options,
    push_json_string, settings_document, verification_result, verifier_context, ManifestError,
    VerifyOptions,
};

fn open_options() -> VerifyOptions {
    VerifyOptions {
        verify: true,
        anchors: None,
        private_anchors: None,
        config: None,
    }
}

#[test]
fn options_carry_the_given_bundles() {
    let o = get_options("-----BEGIN CERTIFICATE-----\n", "1.3.6.1.5.5.7.3.4\n");
    assert!(o.verify);
    assert_eq!(o.anchors.as_deref(), Some("-----BEGIN CERTIFICATE-----\n"));
    assert_eq!(o.private_anchors, None);
    assert_eq!(o.config.as_deref(), Some("1.3.6.1.5.5.7.3.4\n"));
}

#[test]
fn json_string_escapes_quotes_backslashes_and_controls() {
    let mut out = String::from("x=");
    push_json_string(&mut out, "a\"b\\c\nd\re\tf\u{1}g\u{1f}h\u{7f}é");
    assert_eq!(out, "x=\"a\\\"b\\\\c\\nd\\re\\tf\\u0001g\\u001fh\u{7f}é\"");
}

#[test]
fn json_string_of_empty_text() {
    let mut out = String::new();
    push_json_string(&mut out, "");
    assert_eq!(out, "\"\"");
}

#[test]
fn settings_document_with_nothing_set() {
    let mut o = open_options();
    o.verify = false;
    assert_eq!(
        settings_document(&o),
        "{\"verify\":{\"verify_after_reading\":false},\"trust\":{\"trust_anchors\":null,\"user_anchors\":null,\"trust_config\":null}}"
    );
}

#[test]
fn settings_document_with_bundles() {
    let o = get_options("A\nB", "1.2.3");
    assert_eq!(
        settings_document(&o),
        "{\"verify\":{\"verify_after_reading\":true},\"trust\":{\"trust_anchors\":\"A\\nB\",\"user_anchors\":null,\"trust_config\":\"1.2.3\"}}"
    );
}

#[test]
fn settings_document_parses_as_json() {
    let o = VerifyOptions {
        verify: true,
        anchors: Some("line \"one\"\nline\\two".to_string()),
        private_anchors: Some("\u{0}".to_string()),
        config: Some("cfg".to_string()),
    };
    let v: serde_json::Value = serde_json::from_str(&settings_document(&o)).unwrap();
    assert_eq!(v["verify"]["verify_after_reading"], serde_json::Value::Bool(true));
    assert_eq!(v["trust"]["trust_anchors"], "line \"one\"\nline\\two");
    assert_eq!(v["trust"]["user_anchors"], "\u{0}");
    assert_eq!(v["trust"]["trust_config"], "cfg");
}

#[test]
fn context_accepts_settings_without_bundles() {
    assert!(verifier_context(&open_options()).is_ok());
}

#[test]
fn context_refuses_an_anchor_bundle_without_certificates() {
    let o = get_options("not a pem bundle!", "1.3.6.1.5.5.7.3.4");
    assert!(matches!(verifier_context(&o), Err(ManifestError::Settings(_))));
}

#[test]
fn refused_settings_stop_asset_verification() {
    let o = get_options("not a pem bundle!", "1.3.6.1.5.5.7.3.4");
    let r = get_manifest_store_data(&[0xff, 0xd8, 0xff, 0xd9], "image/jpeg", &o);
    assert!(matches!(r, Err(ManifestError::Settings(_))));
    let r = get_manifest_store_data_from_manifest_and_asset_bytes(b"manifest", "image/jpeg", b"asset", &o);
    assert!(matches!(r, Err(ManifestError::Settings(_))));
}

#[test]
fn asset_without_manifest_is_a_verification_failure() {
    let r = get_manifest_store_data(b"this is no image", "image/jpeg", &open_options());
    assert!(matches!(r, Err(ManifestError::Verification(_))));
}

#[test]
fn garbage_detached_manifest_is_a_verification_failure() {
    let r = get_manifest_store_data_from_manifest_and_asset_bytes(
        b"no jumbf here",
        "image/jpeg",
        &[0xff, 0xd8, 0xff, 0xd9],
        &open_options(),
    );
    assert!(matches!(r, Err(ManifestError::Verification(_))));
}

#[test]
fn verifier_errors_become_verification_failures() {
    let r = verification_result(Err(c2pa::Error::UnsupportedType));
    assert!(matches!(r, Err(ManifestError::Verification(c2pa::Error::UnsupportedType))));
}
