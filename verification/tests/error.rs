use chatguru::ChatGuruError;

#[test]
fn each_kind_of_error_has_its_text() {
    let m = || "boom".to_string();
    assert_eq!(ChatGuruError::NetworkError(m()).to_string(), "Network error: boom");
    assert_eq!(ChatGuruError::ApiError(m()).to_string(), "ChatGuru API error: boom");
    assert_eq!(ChatGuruError::SerializationError(m()).to_string(), "Serialization error: boom");
    assert_eq!(ChatGuruError::ValidationError(m()).to_string(), "Validation error: boom");
    assert_eq!(ChatGuruError::InternalError(m()).to_string(), "Internal error: boom");
}

#[test]
fn detail_is_the_description_without_the_prefix() {
    assert_eq!(ChatGuruError::ApiError("boom".to_string()).detail(), "boom");
    assert_eq!(ChatGuruError::InternalError(String::new()).detail(), "");
}

#[test]
fn serde_json_error_becomes_a_serialization_error() {
    let err = serde_json::from_str::<serde_json::Value>("[1,").unwrap_err();
    let text = err.to_string();
    match ChatGuruError::from(err) {
        ChatGuruError::SerializationError(message) => assert_eq!(message, text),
        other => panic!("unexpected error: {:?}", other),
    }
}

#[test]
fn reqwest_error_becomes_a_network_error() {
    let err = reqwest::Client::new().get("not an address").build().unwrap_err();
    let text = err.to_string();
    assert!(!text.is_empty());
    match ChatGuruError::from(err) {
        ChatGuruError::NetworkError(message) => assert_eq!(message, text),
        other => panic!("unexpected error: {:?}", other),
    }
}
