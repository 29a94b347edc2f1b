use chatguru::client::{
    classify, clean_phone, normalize_endpoint, ChatGuruClient, Disposition, Operation, Reply,
    Severity, CALL_TIMEOUT_SECONDS, CONNECT_TIMEOUT_SECONDS, DEFAULT_PHONE_ID,
};
use chatguru::ChatGuruError;

fn client(endpoint: &str) -> ChatGuruClient {
    ChatGuruClient::new("tok".to_string(), endpoint.to_string(), "acc".to_string())
}

#[test]
fn clean_phone_keeps_only_digits() {
    assert_eq!(clean_phone("+55 (11) 99999-9999"), "5511999999999");
}

#[test]
fn clean_phone_of_text_without_digits_is_empty() {
    assert_eq!(clean_phone("()- +"), "");
    assert_eq!(clean_phone(""), "");
}

#[test]
fn endpoint_without_path_gets_the_api_path() {
    assert_eq!(normalize_endpoint("https://api.chatguru.app"), "https://api.chatguru.app/api/v1");
}

#[test]
fn endpoint_with_path_and_trailing_slash_has_one_api_path() {
    let address = normalize_endpoint("https://api.chatguru.app/api/v1/");
    assert_eq!(address, "https://api.chatguru.app/api/v1");
    assert_eq!(address.matches("/api/v1").count(), 1);
}

#[test]
fn both_endpoint_forms_give_a_request_url_with_one_api_path() {
    for endpoint in ["https://api.chatguru.app", "https://api.chatguru.app/api/v1/"] {
        let call = client(endpoint).add_annotation("chat_1", "5511999999999", "note");
        assert_eq!(call.url.matches("/api/v1").count(), 1);
        assert!(call.url.starts_with("https://api.chatguru.app/api/v1?key="));
    }
}

#[test]
fn add_annotation_builds_the_documented_url() {
    let call = client("https://api.chatguru.app/api/v1").add_annotation(
        "chat_123",
        "+55 (11) 99999-9999",
        "Tarefa criada: TASK-456 & mais",
    );
    assert_eq!(call.operation, Operation::AddAnnotation);
    assert_eq!(
        call.url,
        format!(
            "https://api.chatguru.app/api/v1?key=tok&account_id=acc&phone_id={}&action=note_add&note_text=Tarefa%20criada%3A%20TASK-456%20%26%20mais&chat_number=5511999999999",
            DEFAULT_PHONE_ID
        )
    );
}

#[test]
fn send_confirmation_message_uses_the_given_phone_id() {
    let call = client("https://api.chatguru.app/").send_confirmation_message(
        "5511999999999",
        Some("abc123"),
        "Olá ✅",
    );
    assert_eq!(call.operation, Operation::SendMessage);
    assert_eq!(
        call.url,
        "https://api.chatguru.app/api/v1?key=tok&account_id=acc&phone_id=abc123&action=message_send&text=Ol%C3%A1%20%E2%9C%85&chat_number=5511999999999"
    );
}

#[test]
fn send_confirmation_message_defaults_the_phone_id() {
    let call = client("https://x").send_confirmation_message("1", None, "m");
    assert_eq!(
        call.url,
        "https://x/api/v1?key=tok&account_id=acc&phone_id=62558780e2923cc4705beee1&action=message_send&text=m&chat_number=1"
    );
}

#[test]
fn not_found_answer_with_missing_chat_is_a_warning_and_no_error() {
    let call = client("https://x").add_annotation("c", "1", "t");
    let reply = Reply::Answer { status: 404, body: "{\"error\": \"Chat não encontrado\"}".to_string() };
    let outcome = call.conclude(&reply);
    assert!(matches!(outcome, Ok(Disposition::ChatMissing)));
    assert_eq!(outcome.unwrap().severity(), Severity::Warning);
}

#[test]
fn server_error_answer_is_an_error_in_the_log_and_no_error() {
    let call = client("https://x").add_annotation("c", "1", "t");
    let reply = Reply::Answer { status: 500, body: "internal failure".to_string() };
    let outcome = call.conclude(&reply);
    assert!(matches!(outcome, Ok(Disposition::Refused)));
    assert_eq!(outcome.unwrap().severity(), Severity::Error);
}

#[test]
fn timeout_is_a_network_error() {
    let call = client("https://x").add_annotation("c", "1", "t");
    let reply = Reply::Failure { reason: "operation timed out".to_string() };
    match call.conclude(&reply) {
        Err(ChatGuruError::NetworkError(text)) => {
            assert_eq!(text, "Failed to add annotation: operation timed out")
        },
        other => panic!("unexpected outcome: {:?}", other),
    }
    let call = client("https://x").send_confirmation_message("1", None, "t");
    match call.conclude(&reply) {
        Err(ChatGuruError::NetworkError(text)) => {
            assert_eq!(text, "Failed to send message: operation timed out")
        },
        other => panic!("unexpected outcome: {:?}", other),
    }
}

#[test]
fn accepted_statuses_are_accepted_whatever_the_body() {
    assert_eq!(classify(Operation::AddAnnotation, 200, "Chat não encontrado"), Disposition::Accepted);
    assert_eq!(classify(Operation::SendMessage, 201, ""), Disposition::Accepted);
    assert_eq!(classify(Operation::SendMessage, 299, ""), Disposition::Accepted);
    assert_eq!(classify(Operation::SendMessage, 300, ""), Disposition::Refused);
    assert_eq!(classify(Operation::SendMessage, 199, ""), Disposition::Refused);
    assert_eq!(Disposition::Accepted.severity(), Severity::Info);
}

#[test]
fn missing_chat_is_recognised_for_both_operations() {
    assert_eq!(classify(Operation::SendMessage, 400, "Chat não existe"), Disposition::ChatMissing);
    assert_eq!(classify(Operation::SendMessage, 400, "xx Chat n\u{fffd}o existe"), Disposition::ChatMissing);
    assert_eq!(classify(Operation::AddAnnotation, 400, "chat nao encontrado"), Disposition::Refused);
}

#[test]
fn timeouts_are_ten_and_three_seconds() {
    assert_eq!(CALL_TIMEOUT_SECONDS, 10);
    assert_eq!(CONNECT_TIMEOUT_SECONDS, 3);
    assert_eq!(DEFAULT_PHONE_ID, "62558780e2923cc4705beee1");
}
