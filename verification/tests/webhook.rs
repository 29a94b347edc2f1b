use chatguru::json::{Json, Member};
use chatguru::types::payload::{BotContext, ChatGuruPayload, EventTypePayload, GenericPayload};
use chatguru::{ChatGuruError, WebhookPayload};

fn text(s: &str) -> Json {
    Json::Text(s.to_string())
}

fn object(members: Vec<(&str, Json)>) -> Json {
    Json::Object(
        members.into_iter().map(|(name, value)| Member { name: name.to_string(), value }).collect(),
    )
}

fn resolve(body: &str) -> WebhookPayload {
    WebhookPayload::from_json_text(body).expect("the body resolves")
}

#[test]
fn current_shape_resolves_and_reports_its_fields() {
    let payload = resolve(
        r#"{"campanha_id": "123", "nome": "João", "celular": "5511999999999",
            "texto_mensagem": "oi", "chat_id": "abc", "tags": ["a", "b"],
            "campos_personalizados": {"idade": 30}, "bot_context": {"ChatGuru": true}}"#,
    );
    assert!(matches!(payload, WebhookPayload::ChatGuru(_)));
    assert_eq!(payload.get_contact_name(), "João");
    assert_eq!(payload.get_phone_number(), Some("5511999999999".to_string()));
    assert_eq!(payload.get_message_text(), Some("oi".to_string()));
    assert_eq!(payload.get_chat_id(), Some("abc".to_string()));
    assert!(!payload.has_media());
    assert_eq!(payload.get_media_url(), None);
    assert_eq!(payload.get_media_type(), None);
    match payload {
        WebhookPayload::ChatGuru(p) => {
            assert_eq!(p.campanha_id, "123");
            assert_eq!(p.campanha_nome, "");
            assert_eq!(p.tags, vec!["a".to_string(), "b".to_string()]);
            assert!(matches!(p.campos_personalizados.get("idade"), Some(Json::Number(n)) if n == "30"));
            assert!(p.campos_personalizados.get("nome").is_none());
            assert_eq!(p.bot_context.unwrap().chat_guru, Some(true));
            assert_eq!(p.responsavel_nome, None);
        },
        _ => unreachable!(),
    }
}

#[test]
fn current_shape_with_empty_phone_and_message_reports_none() {
    let payload = resolve(r#"{"nome": "Ana", "celular": "", "texto_mensagem": ""}"#);
    assert!(matches!(payload, WebhookPayload::ChatGuru(_)));
    assert_eq!(payload.get_contact_name(), "Ana");
    assert_eq!(payload.get_phone_number(), None);
    assert_eq!(payload.get_message_text(), None);
    assert_eq!(payload.get_chat_id(), None);
}

#[test]
fn current_shape_without_name_reports_the_empty_name() {
    let payload = resolve(r#"{"campanha_id": "1"}"#);
    assert!(matches!(payload, WebhookPayload::ChatGuru(_)));
    assert_eq!(payload.get_contact_name(), "");
}

#[test]
fn message_is_read_under_each_of_its_names() {
    for name in ["texto_mensagem", "mensagem", "message", "text"] {
        let payload = WebhookPayload::resolve(&object(vec![
            ("campanha_id", text("1")),
            (name, text("olá")),
        ]))
        .unwrap();
        assert!(matches!(payload, WebhookPayload::ChatGuru(_)));
        assert_eq!(payload.get_message_text(), Some("olá".to_string()));
    }
}

#[test]
fn file_url_is_read_under_each_of_its_names() {
    for name in ["url_arquivo", "url_midia"] {
        let payload =
            WebhookPayload::resolve(&object(vec![(name, text("https://x/a.png"))])).unwrap();
        assert!(payload.has_media());
        assert_eq!(payload.get_media_url(), Some("https://x/a.png".to_string()));
        assert_eq!(payload.get_media_type(), None);
    }
}

#[test]
fn message_under_two_names_is_not_the_current_shape() {
    let payload = resolve(r#"{"texto_mensagem": "a", "mensagem": "b"}"#);
    match payload {
        WebhookPayload::Generic(p) => {
            assert_eq!(p.mensagem, Some("b".to_string()));
            assert!(matches!(p.extra.get("texto_mensagem"), Some(Json::Text(t)) if t == "a"));
        },
        other => panic!("unexpected shape: {:?}", other),
    }
}

#[test]
fn legacy_event_resolves_to_the_event_shape() {
    let payload = resolve(
        r#"{"id": "evt_1", "event_type": "lead.created", "timestamp": "2024-01-01T00:00:00Z",
            "data": {"lead_name": "Maria", "phone": "5511888888888"}}"#,
    );
    assert!(matches!(payload, WebhookPayload::EventType(_)));
    assert_eq!(payload.get_contact_name(), "Maria");
    assert_eq!(payload.get_phone_number(), Some("5511888888888".to_string()));
    assert_eq!(payload.get_chat_id(), Some("evt_1".to_string()));
    assert_eq!(payload.get_message_text(), None);
    assert!(!payload.has_media());
    assert_eq!(payload.get_media_url(), None);
    assert_eq!(payload.get_media_type(), None);
}

#[test]
fn legacy_event_without_lead_name_reports_contato() {
    let payload = resolve(
        r#"{"id": "e", "event_type": "t", "timestamp": "now",
            "data": {"annotation": "nota", "amount": 12.5, "status": null,
                     "custom_data": {"k": [1, 2]}, "other": true}}"#,
    );
    assert_eq!(payload.get_contact_name(), "Contato");
    assert_eq!(payload.get_phone_number(), None);
    assert_eq!(payload.get_message_text(), Some("nota".to_string()));
    match payload {
        WebhookPayload::EventType(p) => {
            assert_eq!(p.event_type, "t");
            assert_eq!(p.timestamp, "now");
            assert_eq!(p.data.amount, Some("12.5".to_string()));
            assert_eq!(p.data.status, None);
            assert!(matches!(p.data.custom_data.get("k"), Some(Json::Array(items)) if items.len() == 2));
            assert!(matches!(p.data.extra.get("other"), Some(Json::Bool(true))));
            assert!(p.data.extra.get("annotation").is_none());
            assert!(p.data.extra.get("custom_data").is_none());
            assert_eq!(p.data.extra.entries().len(), 1);
        },
        other => panic!("unexpected shape: {:?}", other),
    }
}

#[test]
fn event_with_a_current_field_resolves_to_the_current_shape() {
    let payload = resolve(
        r#"{"id": "evt_1", "event_type": "x", "timestamp": "t", "data": {"lead_name": "Maria"},
            "nome": "Pedro"}"#,
    );
    assert!(matches!(payload, WebhookPayload::ChatGuru(_)));
    assert_eq!(payload.get_contact_name(), "Pedro");
    assert_eq!(payload.get_chat_id(), None);
}

#[test]
fn event_without_data_is_generic() {
    let payload = resolve(r#"{"id": "evt_1", "event_type": "x", "timestamp": "t"}"#);
    match payload {
        WebhookPayload::Generic(p) => {
            assert!(matches!(p.extra.get("id"), Some(Json::Text(t)) if t == "evt_1"));
            assert_eq!(p.extra.entries().len(), 3);
        },
        other => panic!("unexpected shape: {:?}", other),
    }
}

#[test]
fn event_with_ill_typed_data_is_generic() {
    let payload = resolve(
        r#"{"id": "evt_1", "event_type": "x", "timestamp": "t", "data": {"lead_name": 5}}"#,
    );
    assert!(matches!(payload, WebhookPayload::Generic(_)));
    let payload = resolve(r#"{"id": 1, "event_type": "x", "timestamp": "t", "data": {}}"#);
    assert!(matches!(payload, WebhookPayload::Generic(_)));
}

#[test]
fn empty_object_is_generic_with_defaults() {
    let payload = resolve("{}");
    assert!(matches!(payload, WebhookPayload::Generic(_)));
    assert_eq!(payload.get_contact_name(), "Contato");
    assert_eq!(payload.get_phone_number(), None);
    assert_eq!(payload.get_message_text(), None);
    assert_eq!(payload.get_chat_id(), None);
    assert!(!payload.has_media());
    assert_eq!(payload.get_media_url(), None);
    assert_eq!(payload.get_media_type(), None);
}

#[test]
fn unknown_members_are_kept_verbatim_in_the_generic_shape() {
    let payload = resolve(r#"{"foo": {"bar": [1, "x", null]}, "n": -3}"#);
    match payload {
        WebhookPayload::Generic(p) => {
            assert_eq!(p.nome, None);
            match p.extra.get("foo") {
                Some(Json::Object(members)) => {
                    assert_eq!(members.len(), 1);
                    assert_eq!(members[0].name, "bar");
                    match &members[0].value {
                        Json::Array(items) => {
                            assert!(matches!(&items[0], Json::Number(n) if n == "1"));
                            assert!(matches!(&items[1], Json::Text(t) if t == "x"));
                            assert!(matches!(&items[2], Json::Null));
                        },
                        other => panic!("unexpected value: {:?}", other),
                    }
                },
                other => panic!("unexpected value: {:?}", other),
            }
            assert!(matches!(p.extra.get("n"), Some(Json::Number(n)) if n == "-3"));
        },
        other => panic!("unexpected shape: {:?}", other),
    }
}

#[test]
fn null_name_falls_through_to_the_generic_shape() {
    let payload = resolve(r#"{"nome": null, "celular": "5511", "mensagem": "oi"}"#);
    assert!(matches!(payload, WebhookPayload::Generic(_)));
    assert_eq!(payload.get_contact_name(), "Contato");
    assert_eq!(payload.get_phone_number(), Some("5511".to_string()));
    assert_eq!(payload.get_message_text(), Some("oi".to_string()));
    assert_eq!(payload.get_chat_id(), None);
}

#[test]
fn generic_shape_keeps_an_empty_phone() {
    let payload = resolve(r#"{"nome": null, "celular": ""}"#);
    assert!(matches!(payload, WebhookPayload::Generic(_)));
    assert_eq!(payload.get_phone_number(), Some("".to_string()));
}

#[test]
fn ill_typed_tags_are_not_the_current_shape() {
    let payload = resolve(r#"{"nome": "Ana", "tags": ["a", 1]}"#);
    match payload {
        WebhookPayload::Generic(p) => {
            assert_eq!(p.nome, Some("Ana".to_string()));
            assert!(matches!(p.extra.get("tags"), Some(Json::Array(_))));
        },
        other => panic!("unexpected shape: {:?}", other),
    }
}

#[test]
fn ill_typed_bot_context_is_not_the_current_shape() {
    assert!(matches!(
        resolve(r#"{"nome": "Ana", "bot_context": {"ChatGuru": "yes"}}"#),
        WebhookPayload::Generic(_)
    ));
    assert!(matches!(
        resolve(r#"{"nome": "Ana", "bot_context": 3}"#),
        WebhookPayload::Generic(_)
    ));
    match resolve(r#"{"nome": "Ana", "bot_context": null}"#) {
        WebhookPayload::ChatGuru(p) => assert!(p.bot_context.is_none()),
        other => panic!("unexpected shape: {:?}", other),
    }
    match resolve(r#"{"nome": "Ana", "bot_context": {}}"#) {
        WebhookPayload::ChatGuru(p) => assert_eq!(p.bot_context.unwrap().chat_guru, None),
        other => panic!("unexpected shape: {:?}", other),
    }
}

#[test]
fn value_that_is_no_object_is_a_serialization_error() {
    for body in ["5", "\"text\"", "null", "true", "[]", "[{\"nome\": \"Ana\"}]"] {
        match WebhookPayload::from_json_text(body) {
            Err(ChatGuruError::SerializationError(notice)) => assert_eq!(
                notice,
                "data did not match any variant of untagged enum WebhookPayload"
            ),
            other => panic!("unexpected result for {}: {:?}", body, other),
        }
    }
}

#[test]
fn object_with_an_ill_typed_generic_field_is_a_serialization_error() {
    match WebhookPayload::from_json_text(r#"{"nome": 5}"#) {
        Err(err @ ChatGuruError::SerializationError(_)) => assert_eq!(
            err.to_string(),
            "Serialization error: data did not match any variant of untagged enum WebhookPayload"
        ),
        other => panic!("unexpected result: {:?}", other),
    }
}

#[test]
fn text_that_is_no_json_is_a_serialization_error() {
    for body in ["", "{", "{\"nome\": }", "not json"] {
        assert!(matches!(
            WebhookPayload::from_json_text(body),
            Err(ChatGuruError::SerializationError(_))
        ));
    }
}

#[test]
fn member_given_twice_is_not_read() {
    let raw = object(vec![("nome", text("a")), ("nome", text("b"))]);
    assert!(matches!(WebhookPayload::resolve(&raw), Err(ChatGuruError::SerializationError(_))));
    let raw = object(vec![("campanha_id", text("a")), ("campanha_id", text("b"))]);
    match WebhookPayload::resolve(&raw) {
        Ok(WebhookPayload::Generic(p)) => {
            assert!(matches!(p.extra.get("campanha_id"), Some(Json::Text(t)) if t == "b"));
            assert_eq!(p.extra.entries().len(), 1);
        },
        other => panic!("unexpected result: {:?}", other),
    }
}

#[test]
fn shapes_read_themselves_from_json() {
    let raw = object(vec![("nome", text("Ana"))]);
    assert_eq!(ChatGuruPayload::from_json(&raw).unwrap().nome, "Ana");
    assert!(EventTypePayload::from_json(&raw).is_none());
    assert_eq!(GenericPayload::from_json(&raw).unwrap().nome, Some("Ana".to_string()));
    assert!(ChatGuruPayload::from_json(&object(vec![])).is_none());
    assert!(ChatGuruPayload::from_json(&Json::Null).is_none());
    assert!(GenericPayload::from_json(&Json::Array(vec![])).is_none());
    assert_eq!(
        BotContext::from_json(&object(vec![("ChatGuru", Json::Bool(false))])).unwrap().chat_guru,
        Some(false)
    );
    assert!(BotContext::from_json(&Json::Bool(true)).is_none());
}

#[test]
fn clone_keeps_the_payload() {
    let payload = resolve(r#"{"nome": "Ana", "tags": ["x"], "campos_personalizados": {"a": 1}}"#);
    let copy = payload.clone();
    assert_eq!(format!("{:?}", copy), format!("{:?}", payload));
}
