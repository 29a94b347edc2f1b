use chatguru::json::JsonMap;
use chatguru::types::payload::media_type_for;
use chatguru::{ChatGuruPayload, WebhookPayload};

fn payload() -> ChatGuruPayload {
    ChatGuruPayload {
        campanha_id: String::new(),
        campanha_nome: String::new(),
        origem: String::new(),
        email: String::new(),
        nome: "Ana".to_string(),
        tags: Vec::new(),
        texto_mensagem: String::new(),
        media_url: None,
        media_type: None,
        tipo_mensagem: None,
        url_arquivo: None,
        campos_personalizados: JsonMap::new(),
        bot_context: None,
        responsavel_nome: None,
        responsavel_email: None,
        link_chat: String::new(),
        celular: String::new(),
        phone_id: None,
        chat_id: None,
        chat_created: None,
    }
}

fn some(s: &str) -> Option<String> {
    Some(s.to_string())
}

#[test]
fn voice_message_is_normalized_to_ogg_audio() {
    let mut p = payload();
    p.tipo_mensagem = some("ptt");
    p.url_arquivo = some("https://x/a.ogg");
    p.normalize_media_fields();
    assert_eq!(p.media_type, some("audio/ogg"));
    assert_eq!(p.media_url, some("https://x/a.ogg"));
    assert_eq!(p.tipo_mensagem, some("ptt"));
    assert_eq!(p.url_arquivo, some("https://x/a.ogg"));
    assert_eq!(p.nome, "Ana");
}

#[test]
fn unknown_kind_is_normalized_to_an_application_type() {
    let mut p = payload();
    p.tipo_mensagem = some("widget");
    p.normalize_media_fields();
    assert_eq!(p.media_type, some("application/widget"));
    assert_eq!(p.media_url, None);
}

#[test]
fn normalizing_twice_is_normalizing_once() {
    for (kind, url, old_url, old_type) in [
        (some("ptt"), some("https://x/a.ogg"), None, None),
        (some("image"), None, some("https://x/b.png"), None),
        (None, some("https://x/c"), None, some("video/webm")),
        (some("video"), some("https://x/d"), some("https://y/d"), some("video/mp4")),
        (None, None, None, None),
    ] {
        let mut once = payload();
        once.tipo_mensagem = kind;
        once.url_arquivo = url;
        once.media_url = old_url;
        once.media_type = old_type;
        once.normalize_media_fields();
        let mut twice = once.clone();
        twice.normalize_media_fields();
        assert_eq!(twice.media_url, once.media_url);
        assert_eq!(twice.media_type, once.media_type);
        assert_eq!(format!("{:?}", twice), format!("{:?}", once));
    }
}

#[test]
fn normalization_leaves_set_fields_alone() {
    let mut p = payload();
    p.media_url = some("https://old/a");
    p.media_type = some("image/png");
    p.url_arquivo = some("https://new/a");
    p.tipo_mensagem = some("video");
    p.normalize_media_fields();
    assert_eq!(p.media_url, some("https://old/a"));
    assert_eq!(p.media_type, some("image/png"));
}

#[test]
fn older_url_without_type_gets_its_type_from_the_kind() {
    let mut p = payload();
    p.media_url = some("https://old/a");
    p.url_arquivo = some("https://new/a");
    p.tipo_mensagem = some("document");
    p.normalize_media_fields();
    assert_eq!(p.media_url, some("https://old/a"));
    assert_eq!(p.media_type, some("application/pdf"));
}

#[test]
fn older_type_without_url_gets_its_url_from_the_file() {
    let mut p = payload();
    p.media_type = some("audio/mpeg");
    p.url_arquivo = some("https://new/a");
    p.tipo_mensagem = some("ptt");
    p.normalize_media_fields();
    assert_eq!(p.media_url, some("https://new/a"));
    assert_eq!(p.media_type, some("audio/mpeg"));
}

#[test]
fn each_known_kind_has_its_media_type() {
    assert_eq!(media_type_for("image"), "image/jpeg");
    assert_eq!(media_type_for("ptt"), "audio/ogg");
    assert_eq!(media_type_for("audio"), "audio/ogg");
    assert_eq!(media_type_for("video"), "video/mp4");
    assert_eq!(media_type_for("document"), "application/pdf");
    assert_eq!(media_type_for("sticker"), "application/sticker");
    assert_eq!(media_type_for(""), "application/");
    assert_eq!(media_type_for("Image"), "application/Image");
}

#[test]
fn accessors_unify_the_media_without_normalization() {
    let mut p = payload();
    p.tipo_mensagem = some("ptt");
    p.url_arquivo = some("https://x/a.ogg");
    let before = WebhookPayload::ChatGuru(p.clone());
    assert!(before.has_media());
    assert_eq!(before.get_media_url(), some("https://x/a.ogg"));
    assert_eq!(before.get_media_type(), some("audio/ogg"));
    p.normalize_media_fields();
    let after = WebhookPayload::ChatGuru(p);
    assert!(after.has_media());
    assert_eq!(after.get_media_url(), before.get_media_url());
    assert_eq!(after.get_media_type(), before.get_media_type());
}

#[test]
fn media_type_alone_is_no_media() {
    let mut p = payload();
    p.tipo_mensagem = some("image");
    let w = WebhookPayload::ChatGuru(p);
    assert!(!w.has_media());
    assert_eq!(w.get_media_url(), None);
    assert_eq!(w.get_media_type(), some("image/jpeg"));
}
