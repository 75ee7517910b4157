use usage_widget::credential::get_oauth_token_from_keychain;
use usage_widget::credential::keychain_account;
use usage_widget::credential::store_error;
use usage_widget::credential::token_from_document;
use usage_widget::credential::token_from_text;
use usage_widget::credential::CredentialError;
use usage_widget::credential::KeychainLookup;
use usage_widget::json::parse_json;
use usage_widget::json::Json;
use usage_widget::json::JsonMember;

const PRODUCT: &str = "Example Code";

fn member(name: &str, value: Json) -> JsonMember {
    JsonMember { name: name.to_string(), value }
}

fn stored(token: Json) -> Json {
    Json::Object(vec![
        member("other", Json::Null),
        member(
            "claudeAiOauth",
            Json::Object(vec![member("refreshToken", Json::Text("r".to_string())), member("accessToken", token)]),
        ),
    ])
}

fn found(text: &str) -> KeychainLookup {
    KeychainLookup::Found(text.as_bytes().to_vec())
}

fn malformed(r: Result<String, CredentialError>) -> String {
    match r {
        Err(CredentialError::Malformed(hint)) => hint,
        other => panic!("expected a malformed credential, got {:?}", other),
    }
}

#[test]
fn token_is_found_in_the_stored_payload() {
    let payload = r#"{"claudeAiOauth":{"accessToken":"sk-test-123","expiresAt":1}}"#;
    assert_eq!(get_oauth_token_from_keychain(found(payload), PRODUCT).unwrap(), "sk-test-123");
}

#[test]
fn token_may_hold_any_text() {
    let payload = "{\"claudeAiOauth\": {\"accessToken\": \"t\\u00e9 \\\"q\\\" \u{4e2d}\"}}";
    assert_eq!(get_oauth_token_from_keychain(found(payload), PRODUCT).unwrap(), "t\u{e9} \"q\" \u{4e2d}");
}

#[test]
fn missing_entry_is_not_found() {
    let lookup = || KeychainLookup::Failed {
        code: -25300,
        message: "The specified item could not be found in the keychain.".to_string(),
    };
    match get_oauth_token_from_keychain(lookup(), PRODUCT) {
        Err(CredentialError::NotFound(hint)) => assert_eq!(
            hint,
            "No credentials found in Keychain. Please sign in to Example Code first."
        ),
        other => panic!("expected NotFound, got {:?}", other),
    }
    match get_oauth_token_from_keychain(lookup(), "") {
        Err(CredentialError::NotFound(hint)) => {
            assert_eq!(hint, "No credentials found in Keychain. Please sign in to  first.")
        }
        other => panic!("expected NotFound, got {:?}", other),
    }
}

#[test]
fn cancelled_prompt_is_access_denied() {
    match store_error(-128, "User canceled the operation.", PRODUCT) {
        CredentialError::AccessDenied(hint) => assert_eq!(hint, "User cancelled Keychain access."),
        other => panic!("expected AccessDenied, got {:?}", other),
    }
}

#[test]
fn forbidden_prompt_is_access_denied() {
    match store_error(-25308, "User interaction is not allowed.", PRODUCT) {
        CredentialError::AccessDenied(hint) => {
            assert_eq!(hint, "Keychain item access requires permission.")
        }
        other => panic!("expected AccessDenied, got {:?}", other),
    }
}

#[test]
fn other_store_failures_carry_words_and_code() {
    let r = get_oauth_token_from_keychain(
        KeychainLookup::Failed {
            code: -25293,
            message: "The user name or passphrase you entered is not correct.".to_string(),
        },
        PRODUCT,
    );
    match r {
        Err(CredentialError::AccessDenied(hint)) => assert_eq!(
            hint,
            "Failed to access Keychain: The user name or passphrase you entered is not correct. (error code: -25293)"
        ),
        other => panic!("expected AccessDenied, got {:?}", other),
    }
    match store_error(0, "", PRODUCT) {
        CredentialError::AccessDenied(hint) => {
            assert_eq!(hint, "Failed to access Keychain:  (error code: 0)")
        }
        other => panic!("expected AccessDenied, got {:?}", other),
    }
}

#[test]
fn payload_that_is_no_utf8_is_malformed() {
    let r = get_oauth_token_from_keychain(KeychainLookup::Found(vec![0x7b, 0xff, 0xfe, 0x7d]), PRODUCT);
    assert_eq!(
        malformed(r),
        "Invalid UTF-8 in keychain data: invalid utf-8 sequence of 1 bytes from index 1"
    );
    let r = get_oauth_token_from_keychain(KeychainLookup::Found(vec![0x61, 0x62, 0xc3]), PRODUCT);
    assert_eq!(
        malformed(r),
        "Invalid UTF-8 in keychain data: incomplete utf-8 byte sequence from index 2"
    );
    for bytes in [vec![0xc0, 0x80], vec![0xed, 0xa0, 0x80], vec![0xf4, 0x90, 0x80, 0x80], vec![0x80]] {
        let reason = String::from_utf8(bytes.clone()).unwrap_err().to_string();
        let r = get_oauth_token_from_keychain(KeychainLookup::Found(bytes), PRODUCT);
        assert_eq!(malformed(r), format!("Invalid UTF-8 in keychain data: {}", reason));
    }
}

#[test]
fn payload_that_is_no_json_is_malformed() {
    let hint = malformed(get_oauth_token_from_keychain(found("not json"), PRODUCT));
    let detail = serde_json::from_str::<serde_json::Value>("not json").unwrap_err().to_string();
    assert_eq!(hint, format!("Failed to parse credentials JSON: {}", detail));
    let hint = malformed(token_from_text(""));
    assert!(hint.starts_with("Failed to parse credentials JSON: "));
    assert!(hint.len() > "Failed to parse credentials JSON: ".len());
}

#[test]
fn payload_without_a_token_is_malformed() {
    let none = "No OAuth token found in credentials";
    assert_eq!(malformed(get_oauth_token_from_keychain(found("{}"), PRODUCT)), none);
    assert_eq!(malformed(get_oauth_token_from_keychain(found("null"), PRODUCT)), none);
    assert_eq!(malformed(get_oauth_token_from_keychain(found("[1, 2]"), PRODUCT)), none);
    assert_eq!(malformed(token_from_text(r#"{"claudeAiOauth": {}}"#)), none);
    assert_eq!(malformed(token_from_text(r#"{"claudeAiOauth": "accessToken"}"#)), none);
    assert_eq!(malformed(token_from_text(r#"{"claudeAiOauth": {"accessToken": 5}}"#)), none);
    assert_eq!(malformed(token_from_text(r#"{"claudeAiOauth": {"accessToken": null}}"#)), none);
    assert_eq!(malformed(token_from_text(r#"{"claudeAiOauth": {"accessToken": ["t"]}}"#)), none);
    assert_eq!(malformed(token_from_text(r#"{"accessToken": "t"}"#)), none);
    assert_eq!(malformed(token_from_text(r#"{"claudeaioauth": {"accessToken": "t"}}"#)), none);
}

#[test]
fn empty_token_is_a_token() {
    assert_eq!(token_from_text(r#"{"claudeAiOauth": {"accessToken": ""}}"#).unwrap(), "");
}

#[test]
fn platform_without_a_store_is_unsupported() {
    match get_oauth_token_from_keychain(KeychainLookup::Unsupported, PRODUCT) {
        Err(CredentialError::Unsupported(hint)) => {
            assert_eq!(hint, "Keychain access is only supported on macOS")
        }
        other => panic!("expected Unsupported, got {:?}", other),
    }
}

#[test]
fn token_of_a_document_built_by_hand() {
    assert_eq!(token_from_document(&stored(Json::Text("tok".to_string()))).unwrap(), "tok");
    let none = "No OAuth token found in credentials";
    assert_eq!(malformed(token_from_document(&stored(Json::Null))), none);
    assert_eq!(malformed(token_from_document(&stored(Json::Bool(true)))), none);
    assert_eq!(malformed(token_from_document(&stored(Json::Number("1".to_string())))), none);
    assert_eq!(malformed(token_from_document(&Json::Object(vec![]))), none);
    assert_eq!(malformed(token_from_document(&Json::Text("tok".to_string()))), none);
    assert_eq!(malformed(token_from_document(&Json::Array(vec![stored(Json::Text("t".to_string()))]))), none);
}

#[test]
fn token_of_a_parsed_document() {
    let doc = parse_json(r#"{"x": 1, "claudeAiOauth": {"accessToken": "abc"}}"#).unwrap();
    assert_eq!(token_from_document(&doc).unwrap(), "abc");
}

#[test]
fn error_message_is_its_hint() {
    assert_eq!(CredentialError::NotFound("a".to_string()).message(), "a");
    assert_eq!(CredentialError::AccessDenied("b".to_string()).message(), "b");
    assert_eq!(CredentialError::Malformed("c".to_string()).message(), "c");
    assert_eq!(CredentialError::Unsupported("d".to_string()).message(), "d");
}

#[test]
fn account_is_the_first_name_that_is_known() {
    assert_eq!(keychain_account(Some("ada".to_string()), Some("root".to_string())), "ada");
    assert_eq!(keychain_account(Some("ada".to_string()), None), "ada");
    assert_eq!(keychain_account(None, Some("root".to_string())), "root");
    assert_eq!(keychain_account(None, None), "");
}
