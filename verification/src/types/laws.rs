//! What holds of the resolution of a JSON value to a payload, whatever the
//! value: which shape it gets, and what the payload then tells.

use crate::json::{lemma_member_absent, lemma_member_once, member, JsonView, Lookup};
use crate::types::fields::{optional_text, required_text};
use crate::types::payload::{
    ChatGuruPayloadView, EventDataView, EventTypePayloadView, GenericPayloadView,
};
use crate::types::webhook::{unless_empty, unnamed_contact, WebhookPayloadView};
use vstd::prelude::*;

verus! {

/// The text that a field of an event's data or of a generic payload holds.
pub open spec fn text_member(members: Seq<(Seq<char>, JsonView)>, name: Seq<char>) -> Option<
    Seq<char>,
> {
    optional_text(member(members, name))->0
}

/// A missing name reads as the name of the unnamed contact.
pub open spec fn name_or_unnamed(name: Option<Seq<char>>) -> Seq<char> {
    match name {
        Some(n) => n,
        None => unnamed_contact(),
    }
}

/// The current shape comes first: an object that names a field of the current
/// payload and is well typed for it resolves to the current shape, whatever
/// else it holds, and tells what its fields hold.
pub proof fn lemma_current_shape(members: Seq<(Seq<char>, JsonView)>)
    requires
        ChatGuruPayloadView::names_a_field(members),
        ChatGuruPayloadView::well_typed(members),
    ensures
        WebhookPayloadView::resolve(JsonView::Object(members)) == Some(
            WebhookPayloadView::ChatGuru(ChatGuruPayloadView::read(members)),
        ),
        ({
            let payload = WebhookPayloadView::resolve(JsonView::Object(members))->0;
            let read = ChatGuruPayloadView::read(members);
            &&& payload.contact_name() == read.nome
            &&& payload.phone_number() == unless_empty(read.celular)
            &&& payload.message_text() == unless_empty(read.texto_mensagem)
            &&& payload.chat_id() == read.chat_id
            &&& payload.has_media() == (read.media_url is Some || read.url_arquivo is Some)
            &&& payload.media_url() == read.unified_media_url()
            &&& payload.media_type() == read.unified_media_type()
        }),
{
}

/// An object that names no field of the current payload and gives the four
/// fields of an event resolves to the event shape. Its chat identifier is the
/// identifier of the event, its contact and message are those of the data,
/// and it has no media.
pub proof fn lemma_event_shape(members: Seq<(Seq<char>, JsonView)>)
    requires
        !ChatGuruPayloadView::names_a_field(members),
        EventTypePayloadView::well_typed(members),
    ensures
        WebhookPayloadView::resolve(JsonView::Object(members)) == Some(
            WebhookPayloadView::EventType(EventTypePayloadView::read(members)),
        ),
        member(members, "data"@) matches Lookup::Once(JsonView::Object(data)) && ({
            let payload = WebhookPayloadView::resolve(JsonView::Object(members))->0;
            &&& payload.contact_name() == name_or_unnamed(text_member(data, "lead_name"@))
            &&& payload.phone_number() == text_member(data, "phone"@)
            &&& payload.message_text() == text_member(data, "annotation"@)
            &&& payload.chat_id() == Some(required_text(member(members, "id"@))->0)
            &&& !payload.has_media()
            &&& payload.media_url() is None
            &&& payload.media_type() is None
        }),
{
}

/// An object that has neither the current shape nor the event shape, and
/// gives each of the four generic fields at most once, as text or `null`,
/// resolves to the generic shape. It has no chat identifier and no media.
pub proof fn lemma_generic_shape(members: Seq<(Seq<char>, JsonView)>)
    requires
        ChatGuruPayloadView::decode(JsonView::Object(members)) is None,
        EventTypePayloadView::decode(JsonView::Object(members)) is None,
        GenericPayloadView::well_typed(members),
    ensures
        WebhookPayloadView::resolve(JsonView::Object(members)) == Some(
            WebhookPayloadView::Generic(GenericPayloadView::read(members)),
        ),
        ({
            let payload = WebhookPayloadView::resolve(JsonView::Object(members))->0;
            &&& payload.contact_name() == name_or_unnamed(text_member(members, "nome"@))
            &&& payload.phone_number() == text_member(members, "celular"@)
            &&& payload.message_text() == text_member(members, "mensagem"@)
            &&& payload.chat_id() is None
            &&& !payload.has_media()
            &&& payload.media_url() is None
            &&& payload.media_type() is None
        }),
{
}

/// The payload of the current shape that gives the name and the phone number
/// of a contact and the text of a message, and nothing else.
pub open spec fn contact_message(nome: Seq<char>, celular: Seq<char>, texto: Seq<char>) -> JsonView {
    JsonView::Object(
        seq![
            ("nome"@, JsonView::Text(nome)),
            ("celular"@, JsonView::Text(celular)),
            ("texto_mensagem"@, JsonView::Text(texto)),
        ],
    )
}

/// A name is none of `nome`, `celular` and `texto_mensagem` where it differs
/// from each of them in its length or in one of its first two letters.
proof fn lemma_no_contact_member(members: Seq<(Seq<char>, JsonView)>, name: Seq<char>)
    requires
        members.len() == 3,
        members[0].0 == "nome"@,
        members[1].0 == "celular"@,
        members[2].0 == "texto_mensagem"@,
        name.len() != 4 || name[0] != 'n',
        name.len() != 7 || name[0] != 'c' || name[1] != 'e',
        name.len() != 14,
    ensures
        member(members, name) is Absent,
{
    reveal_strlit("nome");
    reveal_strlit("celular");
    reveal_strlit("texto_mensagem");
    lemma_member_absent(members, name);
}

/// A payload that gives the name and the phone number of a contact and the
/// text of a message resolves to the current shape and tells all three, the
/// phone number and the text where they are not empty; it tells no chat and
/// no media.
pub proof fn lemma_contact_message_resolves(nome: Seq<char>, celular: Seq<char>, texto: Seq<char>)
    ensures
        ({
            let resolved = WebhookPayloadView::resolve(contact_message(nome, celular, texto));
            &&& resolved matches Some(payload)
            &&& payload is ChatGuru
            &&& payload.contact_name() == nome
            &&& payload.phone_number() == unless_empty(celular)
            &&& payload.message_text() == unless_empty(texto)
            &&& payload.chat_id() is None
            &&& !payload.has_media()
            &&& payload.media_url() is None
            &&& payload.media_type() is None
        }),
{
    let members = seq![
        ("nome"@, JsonView::Text(nome)),
        ("celular"@, JsonView::Text(celular)),
        ("texto_mensagem"@, JsonView::Text(texto)),
    ];
    assert(contact_message(nome, celular, texto) == JsonView::Object(members));
    assert(members.len() == 3 && members[0].0 == "nome"@ && members[1].0 == "celular"@
        && members[2].0 == "texto_mensagem"@);
    assert("nome"@.len() == 4 && "celular"@.len() == 7 && "texto_mensagem"@.len() == 14) by {
        reveal_strlit("nome");
        reveal_strlit("celular");
        reveal_strlit("texto_mensagem");
    }
    lemma_member_once(members, "nome"@, 0);
    lemma_member_once(members, "celular"@, 1);
    lemma_member_once(members, "texto_mensagem"@, 2);
    reveal_strlit("campanha_id");
    lemma_no_contact_member(members, "campanha_id"@);
    reveal_strlit("campanha_nome");
    lemma_no_contact_member(members, "campanha_nome"@);
    reveal_strlit("origem");
    lemma_no_contact_member(members, "origem"@);
    reveal_strlit("email");
    lemma_no_contact_member(members, "email"@);
    reveal_strlit("tags");
    lemma_no_contact_member(members, "tags"@);
    reveal_strlit("mensagem");
    lemma_no_contact_member(members, "mensagem"@);
    reveal_strlit("message");
    lemma_no_contact_member(members, "message"@);
    reveal_strlit("text");
    lemma_no_contact_member(members, "text"@);
    reveal_strlit("media_url");
    lemma_no_contact_member(members, "media_url"@);
    reveal_strlit("media_type");
    lemma_no_contact_member(members, "media_type"@);
    reveal_strlit("tipo_mensagem");
    lemma_no_contact_member(members, "tipo_mensagem"@);
    reveal_strlit("url_arquivo");
    lemma_no_contact_member(members, "url_arquivo"@);
    reveal_strlit("url_midia");
    lemma_no_contact_member(members, "url_midia"@);
    reveal_strlit("campos_personalizados");
    lemma_no_contact_member(members, "campos_personalizados"@);
    reveal_strlit("bot_context");
    lemma_no_contact_member(members, "bot_context"@);
    reveal_strlit("responsavel_nome");
    lemma_no_contact_member(members, "responsavel_nome"@);
    reveal_strlit("responsavel_email");
    lemma_no_contact_member(members, "responsavel_email"@);
    reveal_strlit("link_chat");
    lemma_no_contact_member(members, "link_chat"@);
    reveal_strlit("phone_id");
    lemma_no_contact_member(members, "phone_id"@);
    reveal_strlit("chat_id");
    lemma_no_contact_member(members, "chat_id"@);
    reveal_strlit("chat_created");
    lemma_no_contact_member(members, "chat_created"@);
    assert(ChatGuruPayloadView::names_a_field(members));
    assert(ChatGuruPayloadView::well_typed(members));
    lemma_current_shape(members);
}

/// The names of the four fields of an event.
pub open spec fn is_event_name(name: Seq<char>) -> bool {
    name == "id"@ || name == "event_type"@ || name == "timestamp"@ || name == "data"@
}

/// An object with none but the four members of an event gives nothing
/// under a name that differs from each of the four in its length or in its
/// first letter.
proof fn lemma_no_such_member(members: Seq<(Seq<char>, JsonView)>, name: Seq<char>)
    requires
        forall|i: int| 0 <= i < members.len() ==> is_event_name((#[trigger] members[i]).0),
        name.len() != 2,
        name.len() != 10 || name[0] != 'e',
        name.len() != 9 || name[0] != 't',
        name.len() != 4 || name[0] != 'd',
    ensures
        member(members, name) is Absent,
{
    reveal_strlit("id");
    reveal_strlit("event_type");
    reveal_strlit("timestamp");
    reveal_strlit("data");
    assert(!is_event_name(name));
    lemma_member_absent(members, name);
}

/// No field of an event has the name of a field of the current payload: an
/// object with none but the four members of an event names no field of the
/// current payload.
pub proof fn lemma_event_names_apart(members: Seq<(Seq<char>, JsonView)>)
    requires
        forall|i: int| 0 <= i < members.len() ==> is_event_name((#[trigger] members[i]).0),
    ensures
        !ChatGuruPayloadView::names_a_field(members),
{
    reveal_strlit("campanha_id");
    lemma_no_such_member(members, "campanha_id"@);
    reveal_strlit("campanha_nome");
    lemma_no_such_member(members, "campanha_nome"@);
    reveal_strlit("origem");
    lemma_no_such_member(members, "origem"@);
    reveal_strlit("email");
    lemma_no_such_member(members, "email"@);
    reveal_strlit("nome");
    lemma_no_such_member(members, "nome"@);
    reveal_strlit("tags");
    lemma_no_such_member(members, "tags"@);
    reveal_strlit("texto_mensagem");
    lemma_no_such_member(members, "texto_mensagem"@);
    reveal_strlit("mensagem");
    lemma_no_such_member(members, "mensagem"@);
    reveal_strlit("message");
    lemma_no_such_member(members, "message"@);
    reveal_strlit("text");
    lemma_no_such_member(members, "text"@);
    reveal_strlit("media_url");
    lemma_no_such_member(members, "media_url"@);
    reveal_strlit("media_type");
    lemma_no_such_member(members, "media_type"@);
    reveal_strlit("tipo_mensagem");
    lemma_no_such_member(members, "tipo_mensagem"@);
    reveal_strlit("url_arquivo");
    lemma_no_such_member(members, "url_arquivo"@);
    reveal_strlit("url_midia");
    lemma_no_such_member(members, "url_midia"@);
    reveal_strlit("campos_personalizados");
    lemma_no_such_member(members, "campos_personalizados"@);
    reveal_strlit("bot_context");
    lemma_no_such_member(members, "bot_context"@);
    reveal_strlit("responsavel_nome");
    lemma_no_such_member(members, "responsavel_nome"@);
    reveal_strlit("responsavel_email");
    lemma_no_such_member(members, "responsavel_email"@);
    reveal_strlit("link_chat");
    lemma_no_such_member(members, "link_chat"@);
    reveal_strlit("celular");
    lemma_no_such_member(members, "celular"@);
    reveal_strlit("phone_id");
    lemma_no_such_member(members, "phone_id"@);
    reveal_strlit("chat_id");
    lemma_no_such_member(members, "chat_id"@);
    reveal_strlit("chat_created");
    lemma_no_such_member(members, "chat_created"@);
}

/// The event that gives the texts `id`, `event_type` and `timestamp`, and as
/// its data the name and the phone number of a lead.
pub open spec fn lead_event(
    id: Seq<char>,
    event_type: Seq<char>,
    timestamp: Seq<char>,
    lead_name: Seq<char>,
    phone: Seq<char>,
) -> JsonView {
    JsonView::Object(
        seq![
            ("id"@, JsonView::Text(id)),
            ("event_type"@, JsonView::Text(event_type)),
            ("timestamp"@, JsonView::Text(timestamp)),
            (
                "data"@,
                JsonView::Object(
                    seq![
                        ("lead_name"@, JsonView::Text(lead_name)),
                        ("phone"@, JsonView::Text(phone)),
                    ],
                ),
            ),
        ],
    )
}

/// An event of a lead resolves to the event shape, and tells the name and the
/// phone number of the lead, the identifier of the event as that of the chat,
/// no message and no media.
pub proof fn lemma_lead_event_resolves(
    id: Seq<char>,
    event_type: Seq<char>,
    timestamp: Seq<char>,
    lead_name: Seq<char>,
    phone: Seq<char>,
)
    ensures
        ({
            let resolved = WebhookPayloadView::resolve(
                lead_event(id, event_type, timestamp, lead_name, phone),
            );
            &&& resolved matches Some(payload)
            &&& payload matches WebhookPayloadView::EventType(event)
            &&& event.id == id
            &&& event.event_type == event_type
            &&& event.timestamp == timestamp
            &&& payload.contact_name() == lead_name
            &&& payload.phone_number() == Some(phone)
            &&& payload.chat_id() == Some(id)
            &&& payload.message_text() is None
            &&& !payload.has_media()
            &&& payload.media_url() is None
            &&& payload.media_type() is None
        }),
{
    let data = seq![("lead_name"@, JsonView::Text(lead_name)), ("phone"@, JsonView::Text(phone))];
    let members = seq![
        ("id"@, JsonView::Text(id)),
        ("event_type"@, JsonView::Text(event_type)),
        ("timestamp"@, JsonView::Text(timestamp)),
        ("data"@, JsonView::Object(data)),
    ];
    assert(lead_event(id, event_type, timestamp, lead_name, phone) == JsonView::Object(members));
    assert(members.len() == 4 && members[0].0 == "id"@ && members[1].0 == "event_type"@
        && members[2].0 == "timestamp"@ && members[3].0 == "data"@);
    assert(data.len() == 2 && data[0].0 == "lead_name"@ && data[1].0 == "phone"@);
    lemma_event_names_apart(members);
    assert("id"@.len() == 2 && "event_type"@.len() == 10 && "timestamp"@.len() == 9 && "data"@.len()
        == 4) by {
        reveal_strlit("id");
        reveal_strlit("event_type");
        reveal_strlit("timestamp");
        reveal_strlit("data");
    }
    lemma_member_once(members, "id"@, 0);
    lemma_member_once(members, "event_type"@, 1);
    lemma_member_once(members, "timestamp"@, 2);
    lemma_member_once(members, "data"@, 3);
    assert("lead_name"@.len() == 9 && "phone"@.len() == 5 && "phone"@[0] == 'p') by {
        reveal_strlit("lead_name");
        reveal_strlit("phone");
    }
    lemma_member_once(data, "lead_name"@, 0);
    lemma_member_once(data, "phone"@, 1);
    assert(member(data, "email"@) is Absent) by {
        reveal_strlit("email");
        assert("email"@[0] == 'e');
        lemma_member_absent(data, "email"@);
    }
    assert(member(data, "project_name"@) is Absent) by {
        reveal_strlit("project_name");
        lemma_member_absent(data, "project_name"@);
    }
    assert(member(data, "task_title"@) is Absent) by {
        reveal_strlit("task_title");
        lemma_member_absent(data, "task_title"@);
    }
    assert(member(data, "annotation"@) is Absent) by {
        reveal_strlit("annotation");
        lemma_member_absent(data, "annotation"@);
    }
    assert(member(data, "amount"@) is Absent) by {
        reveal_strlit("amount");
        lemma_member_absent(data, "amount"@);
    }
    assert(member(data, "status"@) is Absent) by {
        reveal_strlit("status");
        lemma_member_absent(data, "status"@);
    }
    assert(member(data, "custom_data"@) is Absent) by {
        reveal_strlit("custom_data");
        lemma_member_absent(data, "custom_data"@);
    }
    assert(EventDataView::well_typed(data));
    assert(EventTypePayloadView::well_typed(members));
    lemma_event_shape(members);
}

/// No object is turned away for its shape alone: one that gives each of
/// `nome`, `celular`, `email` and `mensagem` at most once, as text or `null`,
/// resolves to a payload, whatever else it holds. A value resolves to none
/// only where it has none of the three shapes.
pub proof fn lemma_resolution_total(json: JsonView)
    ensures
        json matches JsonView::Object(members) && GenericPayloadView::well_typed(members)
            ==> WebhookPayloadView::resolve(json) is Some,
        WebhookPayloadView::resolve(json) is None <==> ChatGuruPayloadView::decode(json) is None
            && EventTypePayloadView::decode(json) is None && GenericPayloadView::decode(json)
            is None,
{
}

/// An object without members resolves to the generic payload of an unnamed
/// contact.
pub proof fn lemma_empty_object()
    ensures
        WebhookPayloadView::resolve(JsonView::Object(Seq::empty())) matches Some(payload)
            && payload is Generic && payload.contact_name() == unnamed_contact()
            && payload.phone_number() is None && payload.message_text() is None,
{
}

/// Normalizing the media fields of a payload changes nothing in what the
/// payload tells of its media.
pub proof fn lemma_normalization_unseen(payload: ChatGuruPayloadView)
    ensures
        WebhookPayloadView::ChatGuru(payload.normalized()).media_url()
            == WebhookPayloadView::ChatGuru(payload).media_url(),
        WebhookPayloadView::ChatGuru(payload.normalized()).media_type()
            == WebhookPayloadView::ChatGuru(payload).media_type(),
        WebhookPayloadView::ChatGuru(payload.normalized()).has_media()
            == WebhookPayloadView::ChatGuru(payload).has_media(),
        payload.normalized().media_url == WebhookPayloadView::ChatGuru(payload).media_url(),
        payload.normalized().media_type == WebhookPayloadView::ChatGuru(payload).media_type(),
{
}

} // verus!
