//! The three shapes of a webhook payload, each with its mathematical view and
//! with the rule by which it is read from a JSON value.

use crate::json::{
    either, either_found, find_member, lemma_object_view, lookup_view, member, members_view,
    names_view, unnamed, Json, JsonMap, JsonView, Lookup,
};
use crate::text::same_text;
use crate::types::fields::{
    is_absent, map_or_empty, opt_text, optional_flag, optional_number, optional_text,
    read_map_or_empty, read_optional_flag, read_optional_number, read_optional_text,
    read_required_text, read_text_or_empty, read_texts_or_empty, required_text, text_or_empty,
    texts_or_empty, texts_view,
};
use vstd::prelude::*;

verus! {

/// What the platform says of its bot in a payload.
#[derive(Clone, Copy, Debug)]
pub struct BotContext {
    /// The member `ChatGuru` of the context.
    pub chat_guru: Option<bool>,
}

/// The payload that the platform sends today.
#[derive(Debug)]
pub struct ChatGuruPayload {
    pub campanha_id: String,
    pub campanha_nome: String,
    pub origem: String,
    pub email: String,
    pub nome: String,
    pub tags: Vec<String>,
    /// The message; the platform also sends it as `mensagem`, `message` or `text`.
    pub texto_mensagem: String,
    /// The address of the attached media, in the older encoding.
    pub media_url: Option<String>,
    /// The type of the attached media, in the older encoding.
    pub media_type: Option<String>,
    /// The kind of the message, in the newer encoding: `image`, `ptt`, `video`
    /// and so on.
    pub tipo_mensagem: Option<String>,
    /// The address of the attached file, in the newer encoding; the platform
    /// also sends it as `url_midia`.
    pub url_arquivo: Option<String>,
    pub campos_personalizados: JsonMap,
    pub bot_context: Option<BotContext>,
    pub responsavel_nome: Option<String>,
    pub responsavel_email: Option<String>,
    pub link_chat: String,
    pub celular: String,
    pub phone_id: Option<String>,
    pub chat_id: Option<String>,
    pub chat_created: Option<String>,
}

/// The mathematical content of a [`ChatGuruPayload`].
pub struct ChatGuruPayloadView {
    pub campanha_id: Seq<char>,
    pub campanha_nome: Seq<char>,
    pub origem: Seq<char>,
    pub email: Seq<char>,
    pub nome: Seq<char>,
    pub tags: Seq<Seq<char>>,
    pub texto_mensagem: Seq<char>,
    pub media_url: Option<Seq<char>>,
    pub media_type: Option<Seq<char>>,
    pub tipo_mensagem: Option<Seq<char>>,
    pub url_arquivo: Option<Seq<char>>,
    pub campos_personalizados: Map<Seq<char>, JsonView>,
    pub bot_context: Option<BotContext>,
    pub responsavel_nome: Option<Seq<char>>,
    pub responsavel_email: Option<Seq<char>>,
    pub link_chat: Seq<char>,
    pub celular: Seq<char>,
    pub phone_id: Option<Seq<char>>,
    pub chat_id: Option<Seq<char>>,
    pub chat_created: Option<Seq<char>>,
}

impl View for ChatGuruPayload {
    type V = ChatGuruPayloadView;

    open spec fn view(&self) -> ChatGuruPayloadView {
        ChatGuruPayloadView {
            campanha_id: self.campanha_id@,
            campanha_nome: self.campanha_nome@,
            origem: self.origem@,
            email: self.email@,
            nome: self.nome@,
            tags: texts_view(self.tags@),
            texto_mensagem: self.texto_mensagem@,
            media_url: opt_text(self.media_url),
            media_type: opt_text(self.media_type),
            tipo_mensagem: opt_text(self.tipo_mensagem),
            url_arquivo: opt_text(self.url_arquivo),
            campos_personalizados: self.campos_personalizados@,
            bot_context: self.bot_context,
            responsavel_nome: opt_text(self.responsavel_nome),
            responsavel_email: opt_text(self.responsavel_email),
            link_chat: self.link_chat@,
            celular: self.celular@,
            phone_id: opt_text(self.phone_id),
            chat_id: opt_text(self.chat_id),
            chat_created: opt_text(self.chat_created),
        }
    }
}

/// The media type that stands for a kind of message: a fixed type for the
/// kinds that the platform is known to send, and `application/` with the kind
/// for any other.
pub open spec fn media_type_of(kind: Seq<char>) -> Seq<char> {
    if kind == "image"@ {
        "image/jpeg"@
    } else if kind == "ptt"@ || kind == "audio"@ {
        "audio/ogg"@
    } else if kind == "video"@ {
        "video/mp4"@
    } else if kind == "document"@ {
        "application/pdf"@
    } else {
        "application/"@ + kind
    }
}

/// The table of media types, kind by kind: each known kind has its fixed
/// type, and every other kind its own `application/` type.
pub proof fn lemma_media_type_table()
    ensures
        media_type_of("image"@) == "image/jpeg"@,
        media_type_of("ptt"@) == "audio/ogg"@,
        media_type_of("audio"@) == "audio/ogg"@,
        media_type_of("video"@) == "video/mp4"@,
        media_type_of("document"@) == "application/pdf"@,
        forall|kind: Seq<char>|
            kind != "image"@ && kind != "ptt"@ && kind != "audio"@ && kind != "video"@ && kind
                != "document"@ ==> #[trigger] media_type_of(kind) == "application/"@ + kind,
{
    reveal_strlit("image");
    reveal_strlit("ptt");
    reveal_strlit("audio");
    reveal_strlit("video");
    reveal_strlit("document");
    assert("audio"@[0] != "image"@[0]);
    assert("video"@[0] != "image"@[0]);
    assert("video"@[0] != "audio"@[0]);
    assert("document"@.len() == 8 && "image"@.len() == 5 && "ptt"@.len() == 3 && "audio"@.len()
        == 5 && "video"@.len() == 5);
}

/// The media type that stands for a kind of message.
pub fn media_type_for(kind: &str) -> (media_type: String)
    ensures
        media_type@ == media_type_of(kind@),
{
    if same_text(kind, "image") {
        String::from_str("image/jpeg")
    } else if same_text(kind, "ptt") || same_text(kind, "audio") {
        String::from_str("audio/ogg")
    } else if same_text(kind, "video") {
        String::from_str("video/mp4")
    } else if same_text(kind, "document") {
        String::from_str("application/pdf")
    } else {
        String::from_str("application/").concat(kind)
    }
}

impl ChatGuruPayloadView {
    /// The address of the media, from whichever encoding gives one: the older
    /// one first.
    pub open spec fn unified_media_url(self) -> Option<Seq<char>> {
        match self.media_url {
            Some(url) => Some(url),
            None => self.url_arquivo,
        }
    }

    /// The type of the media, from whichever encoding gives one: the older one
    /// first, then the type that stands for the kind of the message.
    pub open spec fn unified_media_type(self) -> Option<Seq<char>> {
        match self.media_type {
            Some(media_type) => Some(media_type),
            None => match self.tipo_mensagem {
                Some(kind) => Some(media_type_of(kind)),
                None => None,
            },
        }
    }

    /// The payload with its older media fields filled from the newer ones,
    /// where they were empty. Nothing else changes.
    pub open spec fn normalized(self) -> ChatGuruPayloadView {
        ChatGuruPayloadView {
            media_url: self.unified_media_url(),
            media_type: self.unified_media_type(),
            ..self
        }
    }
}

/// Normalizing a normalized payload changes nothing.
pub proof fn lemma_media_normalization_idempotent(payload: ChatGuruPayloadView)
    ensures
        payload.normalized().normalized() == payload.normalized(),
{
}

/// Normalization never touches a media field that is set, and leaves the
/// unified address and type as they are.
pub proof fn lemma_normalization_keeps(payload: ChatGuruPayloadView)
    ensures
        payload.media_url is Some ==> payload.normalized().media_url == payload.media_url,
        payload.media_type is Some ==> payload.normalized().media_type == payload.media_type,
        payload.media_url is Some && payload.media_type is Some ==> payload.normalized()
            == payload,
        payload.normalized().unified_media_url() == payload.unified_media_url(),
        payload.normalized().unified_media_type() == payload.unified_media_type(),
{
}

impl ChatGuruPayload {
    /// Fills the older media fields, `media_url` and `media_type`, from the
    /// newer ones, `url_arquivo` and `tipo_mensagem`, where they are empty.
    pub fn normalize_media_fields(&mut self)
        ensures
            final(self)@ == old(self)@.normalized(),
    {
        if self.media_url.is_some() && self.media_type.is_some() {
            return ;
        }
        if self.media_url.is_none() {
            self.media_url = copy_of_text(&self.url_arquivo);
        }
        if self.media_type.is_none() {
            self.media_type = match &self.tipo_mensagem {
                Some(kind) => Some(media_type_for(kind.as_str())),
                None => None,
            };
        }
    }
}

impl BotContext {
    /// The context that a JSON value stands for: an object that gives
    /// `ChatGuru` at most once, as `true`, `false` or `null`.
    pub open spec fn decode(json: JsonView) -> Option<BotContext> {
        match json {
            JsonView::Object(members) => match optional_flag(member(members, "ChatGuru"@)) {
                Some(flag) => Some(BotContext { chat_guru: flag }),
                None => None,
            },
            _ => None,
        }
    }

    /// Reads a context from a JSON value.
    pub fn from_json(json: &Json) -> (context: Option<BotContext>)
        ensures
            context == BotContext::decode(json@),
    {
        match json {
            Json::Object(members) => {
                proof {
                    lemma_object_view(*members);
                }
                match read_optional_flag(find_member(members, "ChatGuru")) {
                    Some(flag) => Some(BotContext { chat_guru: flag }),
                    None => None,
                }
            },
            _ => None,
        }
    }
}

/// A field that may hold a bot context.
pub open spec fn optional_bot_context(found: Lookup<JsonView>) -> Option<Option<BotContext>> {
    match found {
        Lookup::Absent => Some(None),
        Lookup::Once(JsonView::Null) => Some(None),
        Lookup::Once(json) => match BotContext::decode(json) {
            Some(context) => Some(Some(context)),
            None => None,
        },
        Lookup::Repeated => None,
    }
}

/// Reads a field that may hold a bot context.
pub fn read_optional_bot_context(found: Lookup<&Json>) -> (context: Option<Option<BotContext>>)
    ensures
        context == optional_bot_context(lookup_view(found)),
{
    match found {
        Lookup::Absent => Some(None),
        Lookup::Once(Json::Null) => Some(None),
        Lookup::Once(json) => match BotContext::from_json(json) {
            Some(context) => Some(Some(context)),
            None => None,
        },
        Lookup::Repeated => None,
    }
}
/// What an object gives as the message: under `texto_mensagem` or under one of
/// the other names of the message, `mensagem`, `message` and `text`.
pub open spec fn given_message(members: Seq<(Seq<char>, JsonView)>) -> Lookup<JsonView> {
    either(
        either(
            either(member(members, "texto_mensagem"@), member(members, "mensagem"@)),
            member(members, "message"@),
        ),
        member(members, "text"@),
    )
}

/// What an object gives as the address of the attached file: under
/// `url_arquivo` or under its other name, `url_midia`.
pub open spec fn given_file_url(members: Seq<(Seq<char>, JsonView)>) -> Lookup<JsonView> {
    either(member(members, "url_arquivo"@), member(members, "url_midia"@))
}

impl ChatGuruPayloadView {
    /// The object names at least one field of the payload.
    pub open spec fn names_a_field(members: Seq<(Seq<char>, JsonView)>) -> bool {
        ||| !(member(members, "campanha_id"@) is Absent)
        ||| !(member(members, "campanha_nome"@) is Absent)
        ||| !(member(members, "origem"@) is Absent)
        ||| !(member(members, "email"@) is Absent)
        ||| !(member(members, "nome"@) is Absent)
        ||| !(member(members, "tags"@) is Absent)
        ||| !(given_message(members) is Absent)
        ||| !(member(members, "media_url"@) is Absent)
        ||| !(member(members, "media_type"@) is Absent)
        ||| !(member(members, "tipo_mensagem"@) is Absent)
        ||| !(given_file_url(members) is Absent)
        ||| !(member(members, "campos_personalizados"@) is Absent)
        ||| !(member(members, "bot_context"@) is Absent)
        ||| !(member(members, "responsavel_nome"@) is Absent)
        ||| !(member(members, "responsavel_email"@) is Absent)
        ||| !(member(members, "link_chat"@) is Absent)
        ||| !(member(members, "celular"@) is Absent)
        ||| !(member(members, "phone_id"@) is Absent)
        ||| !(member(members, "chat_id"@) is Absent)
        ||| !(member(members, "chat_created"@) is Absent)
    }

    /// The object gives each field that it names once, with a value of the
    /// field's type.
    pub open spec fn well_typed(members: Seq<(Seq<char>, JsonView)>) -> bool {
        &&& text_or_empty(member(members, "campanha_id"@)) is Some
        &&& text_or_empty(member(members, "campanha_nome"@)) is Some
        &&& text_or_empty(member(members, "origem"@)) is Some
        &&& text_or_empty(member(members, "email"@)) is Some
        &&& text_or_empty(member(members, "nome"@)) is Some
        &&& texts_or_empty(member(members, "tags"@)) is Some
        &&& text_or_empty(given_message(members)) is Some
        &&& optional_text(member(members, "media_url"@)) is Some
        &&& optional_text(member(members, "media_type"@)) is Some
        &&& optional_text(member(members, "tipo_mensagem"@)) is Some
        &&& optional_text(given_file_url(members)) is Some
        &&& map_or_empty(member(members, "campos_personalizados"@)) is Some
        &&& optional_bot_context(member(members, "bot_context"@)) is Some
        &&& optional_text(member(members, "responsavel_nome"@)) is Some
        &&& optional_text(member(members, "responsavel_email"@)) is Some
        &&& text_or_empty(member(members, "link_chat"@)) is Some
        &&& text_or_empty(member(members, "celular"@)) is Some
        &&& optional_text(member(members, "phone_id"@)) is Some
        &&& optional_text(member(members, "chat_id"@)) is Some
        &&& optional_text(member(members, "chat_created"@)) is Some
    }

    /// The payload that a well-typed object stands for: what it gives for each
    /// field, and nothing for the fields that it does not name.
    pub open spec fn read(members: Seq<(Seq<char>, JsonView)>) -> ChatGuruPayloadView {
        ChatGuruPayloadView {
            campanha_id: text_or_empty(member(members, "campanha_id"@))->0,
            campanha_nome: text_or_empty(member(members, "campanha_nome"@))->0,
            origem: text_or_empty(member(members, "origem"@))->0,
            email: text_or_empty(member(members, "email"@))->0,
            nome: text_or_empty(member(members, "nome"@))->0,
            tags: texts_or_empty(member(members, "tags"@))->0,
            texto_mensagem: text_or_empty(given_message(members))->0,
            media_url: optional_text(member(members, "media_url"@))->0,
            media_type: optional_text(member(members, "media_type"@))->0,
            tipo_mensagem: optional_text(member(members, "tipo_mensagem"@))->0,
            url_arquivo: optional_text(given_file_url(members))->0,
            campos_personalizados: map_or_empty(member(members, "campos_personalizados"@))->0,
            bot_context: optional_bot_context(member(members, "bot_context"@))->0,
            responsavel_nome: optional_text(member(members, "responsavel_nome"@))->0,
            responsavel_email: optional_text(member(members, "responsavel_email"@))->0,
            link_chat: text_or_empty(member(members, "link_chat"@))->0,
            celular: text_or_empty(member(members, "celular"@))->0,
            phone_id: optional_text(member(members, "phone_id"@))->0,
            chat_id: optional_text(member(members, "chat_id"@))->0,
            chat_created: optional_text(member(members, "chat_created"@))->0,
        }
    }

    /// The payload that a JSON value stands for, where it has this shape: an
    /// object that names at least one field of the payload and is well typed.
    /// An object that names none would give a payload of nothing but empty
    /// fields, and is left to the other shapes.
    pub open spec fn decode(json: JsonView) -> Option<ChatGuruPayloadView> {
        match json {
            JsonView::Object(members) => if Self::names_a_field(members) && Self::well_typed(
                members,
            ) {
                Some(Self::read(members))
            } else {
                None
            },
            _ => None,
        }
    }
}

impl ChatGuruPayload {
    /// Reads a payload from a JSON value, where the value has this shape.
    pub fn from_json(json: &Json) -> (payload: Option<ChatGuruPayload>)
        ensures
            match payload {
                Some(p) => ChatGuruPayloadView::decode(json@) == Some(p@),
                None => ChatGuruPayloadView::decode(json@) is None,
            },
    {
        let members = match json {
            Json::Object(members) => members,
            _ => {
                return None;
            },
        };
        proof {
            lemma_object_view(*members);
        }
        let given_campanha_id = find_member(members, "campanha_id");
        let given_campanha_nome = find_member(members, "campanha_nome");
        let given_origem = find_member(members, "origem");
        let given_email = find_member(members, "email");
        let given_nome = find_member(members, "nome");
        let given_tags = find_member(members, "tags");
        let given_texto_mensagem = either_found(
            either_found(
                either_found(
                    find_member(members, "texto_mensagem"),
                    find_member(members, "mensagem"),
                ),
                find_member(members, "message"),
            ),
            find_member(members, "text"),
        );
        let given_media_url = find_member(members, "media_url");
        let given_media_type = find_member(members, "media_type");
        let given_tipo_mensagem = find_member(members, "tipo_mensagem");
        let given_url_arquivo = either_found(
            find_member(members, "url_arquivo"),
            find_member(members, "url_midia"),
        );
        let given_campos_personalizados = find_member(members, "campos_personalizados");
        let given_bot_context = find_member(members, "bot_context");
        let given_responsavel_nome = find_member(members, "responsavel_nome");
        let given_responsavel_email = find_member(members, "responsavel_email");
        let given_link_chat = find_member(members, "link_chat");
        let given_celular = find_member(members, "celular");
        let given_phone_id = find_member(members, "phone_id");
        let given_chat_id = find_member(members, "chat_id");
        let given_chat_created = find_member(members, "chat_created");
        let named = !(is_absent(&given_campanha_id)
            && is_absent(&given_campanha_nome)
            && is_absent(&given_origem)
            && is_absent(&given_email)
            && is_absent(&given_nome)
            && is_absent(&given_tags)
            && is_absent(&given_texto_mensagem)
            && is_absent(&given_media_url)
            && is_absent(&given_media_type)
            && is_absent(&given_tipo_mensagem)
            && is_absent(&given_url_arquivo)
            && is_absent(&given_campos_personalizados)
            && is_absent(&given_bot_context)
            && is_absent(&given_responsavel_nome)
            && is_absent(&given_responsavel_email)
            && is_absent(&given_link_chat)
            && is_absent(&given_celular)
            && is_absent(&given_phone_id)
            && is_absent(&given_chat_id)
            && is_absent(&given_chat_created));
        if !named {
            return None;
        }
        let campanha_id = match read_text_or_empty(given_campanha_id) {
            Some(value) => value,
            None => {
                return None;
            },
        };
        let campanha_nome = match read_text_or_empty(given_campanha_nome) {
            Some(value) => value,
            None => {
                return None;
            },
        };
        let origem = match read_text_or_empty(given_origem) {
            Some(value) => value,
            None => {
                return None;
            },
        };
        let email = match read_text_or_empty(given_email) {
            Some(value) => value,
            None => {
                return None;
            },
        };
        let nome = match read_text_or_empty(given_nome) {
            Some(value) => value,
            None => {
                return None;
            },
        };
        let tags = match read_texts_or_empty(given_tags) {
            Some(value) => value,
            None => {
                return None;
            },
        };
        let texto_mensagem = match read_text_or_empty(given_texto_mensagem) {
            Some(value) => value,
            None => {
                return None;
            },
        };
        let media_url = match read_optional_text(given_media_url) {
            Some(value) => value,
            None => {
                return None;
            },
        };
        let media_type = match read_optional_text(given_media_type) {
            Some(value) => value,
            None => {
                return None;
            },
        };
        let tipo_mensagem = match read_optional_text(given_tipo_mensagem) {
            Some(value) => value,
            None => {
                return None;
            },
        };
        let url_arquivo = match read_optional_text(given_url_arquivo) {
            Some(value) => value,
            None => {
                return None;
            },
        };
        let campos_personalizados = match read_map_or_empty(given_campos_personalizados) {
            Some(value) => value,
            None => {
                return None;
            },
        };
        let bot_context = match read_optional_bot_context(given_bot_context) {
            Some(value) => value,
            None => {
                return None;
            },
        };
        let responsavel_nome = match read_optional_text(given_responsavel_nome) {
            Some(value) => value,
            None => {
                return None;
            },
        };
        let responsavel_email = match read_optional_text(given_responsavel_email) {
            Some(value) => value,
            None => {
                return None;
            },
        };
        let link_chat = match read_text_or_empty(given_link_chat) {
            Some(value) => value,
            None => {
                return None;
            },
        };
        let celular = match read_text_or_empty(given_celular) {
            Some(value) => value,
            None => {
                return None;
            },
        };
        let phone_id = match read_optional_text(given_phone_id) {
            Some(value) => value,
            None => {
                return None;
            },
        };
        let chat_id = match read_optional_text(given_chat_id) {
            Some(value) => value,
            None => {
                return None;
            },
        };
        let chat_created = match read_optional_text(given_chat_created) {
            Some(value) => value,
            None => {
                return None;
            },
        };
        Some(
            ChatGuruPayload {
                campanha_id,
                campanha_nome,
                origem,
                email,
                nome,
                tags,
                texto_mensagem,
                media_url,
                media_type,
                tipo_mensagem,
                url_arquivo,
                campos_personalizados,
                bot_context,
                responsavel_nome,
                responsavel_email,
                link_chat,
                celular,
                phone_id,
                chat_id,
                chat_created,
            },
        )
    }
}

/// What a legacy event says of its subject.
#[derive(Debug)]
pub struct EventData {
    pub lead_name: Option<String>,
    pub phone: Option<String>,
    pub email: Option<String>,
    pub project_name: Option<String>,
    pub task_title: Option<String>,
    /// The note of the event.
    pub annotation: Option<String>,
    /// The amount of money, as the number that the event gives.
    pub amount: Option<String>,
    pub status: Option<String>,
    /// The member `custom_data` of the data: any names with any values.
    pub custom_data: JsonMap,
    /// Every member of the data that is none of its fields.
    pub extra: JsonMap,
}

/// The mathematical content of an [`EventData`].
pub struct EventDataView {
    pub lead_name: Option<Seq<char>>,
    pub phone: Option<Seq<char>>,
    pub email: Option<Seq<char>>,
    pub project_name: Option<Seq<char>>,
    pub task_title: Option<Seq<char>>,
    pub annotation: Option<Seq<char>>,
    pub amount: Option<Seq<char>>,
    pub status: Option<Seq<char>>,
    pub custom_data: Map<Seq<char>, JsonView>,
    pub extra: Map<Seq<char>, JsonView>,
}

impl View for EventData {
    type V = EventDataView;

    open spec fn view(&self) -> EventDataView {
        EventDataView {
            lead_name: opt_text(self.lead_name),
            phone: opt_text(self.phone),
            email: opt_text(self.email),
            project_name: opt_text(self.project_name),
            task_title: opt_text(self.task_title),
            annotation: opt_text(self.annotation),
            amount: opt_text(self.amount),
            status: opt_text(self.status),
            custom_data: self.custom_data@,
            extra: self.extra@,
        }
    }
}

/// The names of the fields of the data of a legacy event.
pub open spec fn event_data_names() -> Seq<Seq<char>> {
    seq![
        "lead_name"@,
        "phone"@,
        "email"@,
        "project_name"@,
        "task_title"@,
        "annotation"@,
        "amount"@,
        "status"@,
        "custom_data"@,
    ]
}

impl EventDataView {
    /// The object gives each field that it names once, with a value of the
    /// field's type.
    pub open spec fn well_typed(members: Seq<(Seq<char>, JsonView)>) -> bool {
        &&& optional_text(member(members, "lead_name"@)) is Some
        &&& optional_text(member(members, "phone"@)) is Some
        &&& optional_text(member(members, "email"@)) is Some
        &&& optional_text(member(members, "project_name"@)) is Some
        &&& optional_text(member(members, "task_title"@)) is Some
        &&& optional_text(member(members, "annotation"@)) is Some
        &&& optional_number(member(members, "amount"@)) is Some
        &&& optional_text(member(members, "status"@)) is Some
        &&& map_or_empty(member(members, "custom_data"@)) is Some
    }

    /// What a well-typed object stands for: what it gives for each field, and
    /// under `extra` every member that is no field.
    pub open spec fn read(members: Seq<(Seq<char>, JsonView)>) -> EventDataView {
        EventDataView {
            lead_name: optional_text(member(members, "lead_name"@))->0,
            phone: optional_text(member(members, "phone"@))->0,
            email: optional_text(member(members, "email"@))->0,
            project_name: optional_text(member(members, "project_name"@))->0,
            task_title: optional_text(member(members, "task_title"@))->0,
            annotation: optional_text(member(members, "annotation"@))->0,
            amount: optional_number(member(members, "amount"@))->0,
            status: optional_text(member(members, "status"@))->0,
            custom_data: map_or_empty(member(members, "custom_data"@))->0,
            extra: unnamed(members, event_data_names()),
        }
    }

    /// What a JSON value stands for, where it has this shape: a well-typed
    /// object.
    pub open spec fn decode(json: JsonView) -> Option<EventDataView> {
        match json {
            JsonView::Object(members) => if Self::well_typed(members) {
                Some(Self::read(members))
            } else {
                None
            },
            _ => None,
        }
    }
}

impl EventData {
    /// Reads a value of this shape from a JSON value, where the value has the
    /// shape.
    pub fn from_json(json: &Json) -> (read: Option<EventData>)
        ensures
            match read {
                Some(value) => EventDataView::decode(json@) == Some(value@),
                None => EventDataView::decode(json@) is None,
            },
    {
        let members = match json {
            Json::Object(members) => members,
            _ => {
                return None;
            },
        };
        proof {
            lemma_object_view(*members);
        }
        let lead_name = match read_optional_text(find_member(members, "lead_name")) {
            Some(value) => value,
            None => {
                return None;
            },
        };
        let phone = match read_optional_text(find_member(members, "phone")) {
            Some(value) => value,
            None => {
                return None;
            },
        };
        let email = match read_optional_text(find_member(members, "email")) {
            Some(value) => value,
            None => {
                return None;
            },
        };
        let project_name = match read_optional_text(find_member(members, "project_name")) {
            Some(value) => value,
            None => {
                return None;
            },
        };
        let task_title = match read_optional_text(find_member(members, "task_title")) {
            Some(value) => value,
            None => {
                return None;
            },
        };
        let annotation = match read_optional_text(find_member(members, "annotation")) {
            Some(value) => value,
            None => {
                return None;
            },
        };
        let amount = match read_optional_number(find_member(members, "amount")) {
            Some(value) => value,
            None => {
                return None;
            },
        };
        let status = match read_optional_text(find_member(members, "status")) {
            Some(value) => value,
            None => {
                return None;
            },
        };
        let custom_data = match read_map_or_empty(find_member(members, "custom_data")) {
            Some(value) => value,
            None => {
                return None;
            },
        };
        let names: Vec<&'static str> = vec![
            "lead_name",
            "phone",
            "email",
            "project_name",
            "task_title",
            "annotation",
            "amount",
            "status",
            "custom_data",
        ];
        assert(names_view(names@) =~= event_data_names());
        let extra = JsonMap::from_unnamed(members, &names);
        Some(EventData { lead_name, phone, email, project_name, task_title, annotation, amount, status, custom_data, extra })
    }
}

/// The least that a payload can be: any object, with up to four fields that this
/// client knows.
#[derive(Debug)]
pub struct GenericPayload {
    pub nome: Option<String>,
    pub celular: Option<String>,
    pub email: Option<String>,
    pub mensagem: Option<String>,
    /// Every member of the payload that is none of its fields.
    pub extra: JsonMap,
}

/// The mathematical content of a [`GenericPayload`].
pub struct GenericPayloadView {
    pub nome: Option<Seq<char>>,
    pub celular: Option<Seq<char>>,
    pub email: Option<Seq<char>>,
    pub mensagem: Option<Seq<char>>,
    pub extra: Map<Seq<char>, JsonView>,
}

impl View for GenericPayload {
    type V = GenericPayloadView;

    open spec fn view(&self) -> GenericPayloadView {
        GenericPayloadView {
            nome: opt_text(self.nome),
            celular: opt_text(self.celular),
            email: opt_text(self.email),
            mensagem: opt_text(self.mensagem),
            extra: self.extra@,
        }
    }
}

/// The names of the fields of the generic payload.
pub open spec fn generic_names() -> Seq<Seq<char>> {
    seq![
        "nome"@,
        "celular"@,
        "email"@,
        "mensagem"@,
    ]
}

impl GenericPayloadView {
    /// The object gives each field that it names once, with a value of the
    /// field's type.
    pub open spec fn well_typed(members: Seq<(Seq<char>, JsonView)>) -> bool {
        &&& optional_text(member(members, "nome"@)) is Some
        &&& optional_text(member(members, "celular"@)) is Some
        &&& optional_text(member(members, "email"@)) is Some
        &&& optional_text(member(members, "mensagem"@)) is Some
    }

    /// What a well-typed object stands for: what it gives for each field, and
    /// under `extra` every member that is no field.
    pub open spec fn read(members: Seq<(Seq<char>, JsonView)>) -> GenericPayloadView {
        GenericPayloadView {
            nome: optional_text(member(members, "nome"@))->0,
            celular: optional_text(member(members, "celular"@))->0,
            email: optional_text(member(members, "email"@))->0,
            mensagem: optional_text(member(members, "mensagem"@))->0,
            extra: unnamed(members, generic_names()),
        }
    }

    /// What a JSON value stands for, where it has this shape: a well-typed
    /// object.
    pub open spec fn decode(json: JsonView) -> Option<GenericPayloadView> {
        match json {
            JsonView::Object(members) => if Self::well_typed(members) {
                Some(Self::read(members))
            } else {
                None
            },
            _ => None,
        }
    }
}

impl GenericPayload {
    /// Reads a value of this shape from a JSON value, where the value has the
    /// shape.
    pub fn from_json(json: &Json) -> (read: Option<GenericPayload>)
        ensures
            match read {
                Some(value) => GenericPayloadView::decode(json@) == Some(value@),
                None => GenericPayloadView::decode(json@) is None,
            },
    {
        let members = match json {
            Json::Object(members) => members,
            _ => {
                return None;
            },
        };
        proof {
            lemma_object_view(*members);
        }
        let nome = match read_optional_text(find_member(members, "nome")) {
            Some(value) => value,
            None => {
                return None;
            },
        };
        let celular = match read_optional_text(find_member(members, "celular")) {
            Some(value) => value,
            None => {
                return None;
            },
        };
        let email = match read_optional_text(find_member(members, "email")) {
            Some(value) => value,
            None => {
                return None;
            },
        };
        let mensagem = match read_optional_text(find_member(members, "mensagem")) {
            Some(value) => value,
            None => {
                return None;
            },
        };
        let names: Vec<&'static str> = vec![
            "nome",
            "celular",
            "email",
            "mensagem",
        ];
        assert(names_view(names@) =~= generic_names());
        let extra = JsonMap::from_unnamed(members, &names);
        Some(GenericPayload { nome, celular, email, mensagem, extra })
    }
}

/// The payload that older versions of the platform send: an event.
#[derive(Debug)]
pub struct EventTypePayload {
    pub id: String,
    pub event_type: String,
    pub timestamp: String,
    pub data: EventData,
}

/// The mathematical content of an [`EventTypePayload`].
pub struct EventTypePayloadView {
    pub id: Seq<char>,
    pub event_type: Seq<char>,
    pub timestamp: Seq<char>,
    pub data: EventDataView,
}

impl View for EventTypePayload {
    type V = EventTypePayloadView;

    open spec fn view(&self) -> EventTypePayloadView {
        EventTypePayloadView {
            id: self.id@,
            event_type: self.event_type@,
            timestamp: self.timestamp@,
            data: self.data@,
        }
    }
}

/// The data of an event: what the object gives under `data`, once, where that
/// has the shape of the data.
pub open spec fn required_data(found: Lookup<JsonView>) -> Option<EventDataView> {
    match found {
        Lookup::Once(json) => EventDataView::decode(json),
        _ => None,
    }
}

impl EventTypePayloadView {
    /// The object gives each of the four fields once, with a value of the
    /// field's type.
    pub open spec fn well_typed(members: Seq<(Seq<char>, JsonView)>) -> bool {
        &&& required_text(member(members, "id"@)) is Some
        &&& required_text(member(members, "event_type"@)) is Some
        &&& required_text(member(members, "timestamp"@)) is Some
        &&& required_data(member(members, "data"@)) is Some
    }

    /// The event that a well-typed object stands for.
    pub open spec fn read(members: Seq<(Seq<char>, JsonView)>) -> EventTypePayloadView {
        EventTypePayloadView {
            id: required_text(member(members, "id"@))->0,
            event_type: required_text(member(members, "event_type"@))->0,
            timestamp: required_text(member(members, "timestamp"@))->0,
            data: required_data(member(members, "data"@))->0,
        }
    }

    /// The event that a JSON value stands for, where it has this shape: an
    /// object that gives all four fields, well typed.
    pub open spec fn decode(json: JsonView) -> Option<EventTypePayloadView> {
        match json {
            JsonView::Object(members) => if Self::well_typed(members) {
                Some(Self::read(members))
            } else {
                None
            },
            _ => None,
        }
    }
}

impl EventTypePayload {
    /// Reads an event from a JSON value, where the value has this shape.
    pub fn from_json(json: &Json) -> (read: Option<EventTypePayload>)
        ensures
            match read {
                Some(value) => EventTypePayloadView::decode(json@) == Some(value@),
                None => EventTypePayloadView::decode(json@) is None,
            },
    {
        let members = match json {
            Json::Object(members) => members,
            _ => {
                return None;
            },
        };
        proof {
            lemma_object_view(*members);
        }
        let id = match read_required_text(find_member(members, "id")) {
            Some(value) => value,
            None => {
                return None;
            },
        };
        let event_type = match read_required_text(find_member(members, "event_type")) {
            Some(value) => value,
            None => {
                return None;
            },
        };
        let timestamp = match read_required_text(find_member(members, "timestamp")) {
            Some(value) => value,
            None => {
                return None;
            },
        };
        let data = match find_member(members, "data") {
            Lookup::Once(json) => match EventData::from_json(json) {
                Some(value) => value,
                None => {
                    return None;
                },
            },
            _ => {
                return None;
            },
        };
        Some(EventTypePayload { id, event_type, timestamp, data })
    }
}

/// A copy of a text that may be missing.
pub fn copy_of_text(text: &Option<String>) -> (copy: Option<String>)
    ensures
        opt_text(copy) == opt_text(*text),
{
    match text {
        Some(t) => Some(t.clone()),
        None => None,
    }
}

/// A copy of a list of texts.
pub fn copy_of_texts(texts: &Vec<String>) -> (copy: Vec<String>)
    ensures
        texts_view(copy@) == texts_view(texts@),
{
    let mut copy: Vec<String> = Vec::new();
    let mut i: usize = 0;
    while i < texts.len()
        invariant
            i <= texts.len(),
            copy.len() == i,
            forall|k: int| 0 <= k < i ==> copy@[k]@ == texts@[k]@,
        decreases texts.len() - i,
    {
        copy.push(texts[i].clone());
        i += 1;
    }
    assert(texts_view(copy@) =~= texts_view(texts@));
    copy
}

impl Clone for ChatGuruPayload {
    fn clone(&self) -> (copy: ChatGuruPayload)
        ensures
            copy@ == self@,
    {
        ChatGuruPayload {
            campanha_id: self.campanha_id.clone(),
            campanha_nome: self.campanha_nome.clone(),
            origem: self.origem.clone(),
            email: self.email.clone(),
            nome: self.nome.clone(),
            tags: copy_of_texts(&self.tags),
            texto_mensagem: self.texto_mensagem.clone(),
            media_url: copy_of_text(&self.media_url),
            media_type: copy_of_text(&self.media_type),
            tipo_mensagem: copy_of_text(&self.tipo_mensagem),
            url_arquivo: copy_of_text(&self.url_arquivo),
            campos_personalizados: self.campos_personalizados.clone(),
            bot_context: self.bot_context,
            responsavel_nome: copy_of_text(&self.responsavel_nome),
            responsavel_email: copy_of_text(&self.responsavel_email),
            link_chat: self.link_chat.clone(),
            celular: self.celular.clone(),
            phone_id: copy_of_text(&self.phone_id),
            chat_id: copy_of_text(&self.chat_id),
            chat_created: copy_of_text(&self.chat_created),
        }
    }
}

impl Clone for EventData {
    fn clone(&self) -> (copy: EventData)
        ensures
            copy@ == self@,
    {
        EventData {
            lead_name: copy_of_text(&self.lead_name),
            phone: copy_of_text(&self.phone),
            email: copy_of_text(&self.email),
            project_name: copy_of_text(&self.project_name),
            task_title: copy_of_text(&self.task_title),
            annotation: copy_of_text(&self.annotation),
            amount: copy_of_text(&self.amount),
            status: copy_of_text(&self.status),
            custom_data: self.custom_data.clone(),
            extra: self.extra.clone(),
        }
    }
}

impl Clone for GenericPayload {
    fn clone(&self) -> (copy: GenericPayload)
        ensures
            copy@ == self@,
    {
        GenericPayload {
            nome: copy_of_text(&self.nome),
            celular: copy_of_text(&self.celular),
            email: copy_of_text(&self.email),
            mensagem: copy_of_text(&self.mensagem),
            extra: self.extra.clone(),
        }
    }
}

impl Clone for EventTypePayload {
    fn clone(&self) -> (copy: EventTypePayload)
        ensures
            copy@ == self@,
    {
        EventTypePayload {
            id: self.id.clone(),
            event_type: self.event_type.clone(),
            timestamp: self.timestamp.clone(),
            data: self.data.clone(),
        }
    }
}

} // verus!
