//! A webhook payload in whichever shape it came, and what every shape can
//! tell: the contact, the message, the chat and the attached media.

use crate::error::ChatGuruError;
use crate::json::{json_of_text, Json, JsonView};
use crate::types::fields::opt_text;
use crate::types::payload::{
    copy_of_text, media_type_for, ChatGuruPayload, ChatGuruPayloadView, EventTypePayload,
    EventTypePayloadView, GenericPayload, GenericPayloadView,
};
use vstd::prelude::*;

verus! {

/// A webhook payload, in one of the three shapes that the platform sends.
#[derive(Debug)]
pub enum WebhookPayload {
    /// The shape that the platform sends today.
    ChatGuru(ChatGuruPayload),
    /// The shape of older versions: an event.
    EventType(EventTypePayload),
    /// Any other object.
    Generic(GenericPayload),
}

/// The mathematical content of a [`WebhookPayload`].
pub enum WebhookPayloadView {
    ChatGuru(ChatGuruPayloadView),
    EventType(EventTypePayloadView),
    Generic(GenericPayloadView),
}

impl View for WebhookPayload {
    type V = WebhookPayloadView;

    open spec fn view(&self) -> WebhookPayloadView {
        match self {
            WebhookPayload::ChatGuru(payload) => WebhookPayloadView::ChatGuru(payload@),
            WebhookPayload::EventType(payload) => WebhookPayloadView::EventType(payload@),
            WebhookPayload::Generic(payload) => WebhookPayloadView::Generic(payload@),
        }
    }
}

/// The media attached to a payload: where it is, and of what type.
#[derive(Debug)]
pub struct MediaReference {
    pub url: String,
    pub media_type: String,
}

/// The name that stands for a contact whose name the payload does not give.
pub open spec fn unnamed_contact() -> Seq<char> {
    "Contato"@
}

/// What is said of a JSON value that has none of the three shapes.
pub open spec fn no_shape_notice() -> Seq<char> {
    "data did not match any variant of untagged enum WebhookPayload"@
}

/// A text, or nothing where the text is empty.
pub open spec fn unless_empty(text: Seq<char>) -> Option<Seq<char>> {
    if text.len() == 0 {
        None
    } else {
        Some(text)
    }
}

impl WebhookPayloadView {
    /// The payload that a JSON value stands for: in the first of the three
    /// shapes that it has, in the order current, event, generic; `None` where
    /// it has none of them.
    pub open spec fn resolve(json: JsonView) -> Option<WebhookPayloadView> {
        match ChatGuruPayloadView::decode(json) {
            Some(payload) => Some(WebhookPayloadView::ChatGuru(payload)),
            None => match EventTypePayloadView::decode(json) {
                Some(payload) => Some(WebhookPayloadView::EventType(payload)),
                None => match GenericPayloadView::decode(json) {
                    Some(payload) => Some(WebhookPayloadView::Generic(payload)),
                    None => None,
                },
            },
        }
    }

    /// The name of the contact.
    pub open spec fn contact_name(self) -> Seq<char> {
        match self {
            WebhookPayloadView::ChatGuru(payload) => payload.nome,
            WebhookPayloadView::EventType(payload) => match payload.data.lead_name {
                Some(name) => name,
                None => unnamed_contact(),
            },
            WebhookPayloadView::Generic(payload) => match payload.nome {
                Some(name) => name,
                None => unnamed_contact(),
            },
        }
    }

    /// The phone number of the contact.
    pub open spec fn phone_number(self) -> Option<Seq<char>> {
        match self {
            WebhookPayloadView::ChatGuru(payload) => unless_empty(payload.celular),
            WebhookPayloadView::EventType(payload) => payload.data.phone,
            WebhookPayloadView::Generic(payload) => payload.celular,
        }
    }

    /// The text of the message.
    pub open spec fn message_text(self) -> Option<Seq<char>> {
        match self {
            WebhookPayloadView::ChatGuru(payload) => unless_empty(payload.texto_mensagem),
            WebhookPayloadView::EventType(payload) => payload.data.annotation,
            WebhookPayloadView::Generic(payload) => payload.mensagem,
        }
    }

    /// The identifier of the chat; for an event, the identifier of the event.
    pub open spec fn chat_id(self) -> Option<Seq<char>> {
        match self {
            WebhookPayloadView::ChatGuru(payload) => payload.chat_id,
            WebhookPayloadView::EventType(payload) => Some(payload.id),
            WebhookPayloadView::Generic(_) => None,
        }
    }

    /// Whether media is attached. Only the current shape carries media.
    pub open spec fn has_media(self) -> bool {
        match self {
            WebhookPayloadView::ChatGuru(payload) => payload.media_url is Some
                || payload.url_arquivo is Some,
            _ => false,
        }
    }

    /// The address of the attached media.
    pub open spec fn media_url(self) -> Option<Seq<char>> {
        match self {
            WebhookPayloadView::ChatGuru(payload) => payload.unified_media_url(),
            _ => None,
        }
    }

    /// The type of the attached media.
    pub open spec fn media_type(self) -> Option<Seq<char>> {
        match self {
            WebhookPayloadView::ChatGuru(payload) => payload.unified_media_type(),
            _ => None,
        }
    }

    /// The attached media with its address and its type, where the payload
    /// tells both.
    pub open spec fn media(self) -> Option<(Seq<char>, Seq<char>)> {
        match (self.media_url(), self.media_type()) {
            (Some(url), Some(media_type)) => Some((url, media_type)),
            _ => None,
        }
    }
}

impl WebhookPayload {
    /// Resolves a JSON value to a payload: in the first of the three shapes
    /// that the value has, tried in the order current, event, generic. A
    /// value that has none of them gives a `SerializationError`.
    pub fn resolve(raw: &Json) -> (resolved: Result<WebhookPayload, ChatGuruError>)
        ensures
            match resolved {
                Ok(payload) => WebhookPayloadView::resolve(raw@) == Some(payload@),
                Err(err) => {
                    &&& WebhookPayloadView::resolve(raw@) is None
                    &&& err is SerializationError
                    &&& err.message() == no_shape_notice()
                },
            },
    {
        if let Some(payload) = ChatGuruPayload::from_json(raw) {
            return Ok(WebhookPayload::ChatGuru(payload));
        }
        if let Some(payload) = EventTypePayload::from_json(raw) {
            return Ok(WebhookPayload::EventType(payload));
        }
        if let Some(payload) = GenericPayload::from_json(raw) {
            return Ok(WebhookPayload::Generic(payload));
        }
        Err(
            ChatGuruError::SerializationError(
                String::from_str("data did not match any variant of untagged enum WebhookPayload"),
            ),
        )
    }

    /// Reads a payload from the JSON text of a webhook body. Text that is no
    /// JSON, or JSON that has none of the three shapes, gives a
    /// `SerializationError`.
    pub fn from_json_text(text: &str) -> (resolved: Result<WebhookPayload, ChatGuruError>)
        ensures
            match resolved {
                Ok(payload) => {
                    &&& json_of_text(text@) is Some
                    &&& WebhookPayloadView::resolve(json_of_text(text@)->0) == Some(payload@)
                },
                Err(err) => {
                    &&& err is SerializationError
                    &&& json_of_text(text@) is Some ==> WebhookPayloadView::resolve(
                        json_of_text(text@)->0,
                    ) is None
                },
            },
    {
        match Json::parse(text) {
            Ok(json) => WebhookPayload::resolve(&json),
            Err(err) => Err(err),
        }
    }

    /// The name of the contact; `Contato` where an event or a generic payload
    /// gives none.
    pub fn get_contact_name(&self) -> (name: String)
        ensures
            name@ == self@.contact_name(),
    {
        match self {
            WebhookPayload::ChatGuru(payload) => payload.nome.clone(),
            WebhookPayload::EventType(payload) => match &payload.data.lead_name {
                Some(name) => name.clone(),
                None => String::from_str("Contato"),
            },
            WebhookPayload::Generic(payload) => match &payload.nome {
                Some(name) => name.clone(),
                None => String::from_str("Contato"),
            },
        }
    }

    /// The phone number of the contact, where the payload gives one.
    pub fn get_phone_number(&self) -> (phone: Option<String>)
        ensures
            opt_text(phone) == self@.phone_number(),
    {
        match self {
            WebhookPayload::ChatGuru(payload) => {
                if !payload.celular.as_str().is_empty() {
                    Some(payload.celular.clone())
                } else {
                    None
                }
            },
            WebhookPayload::EventType(payload) => copy_of_text(&payload.data.phone),
            WebhookPayload::Generic(payload) => copy_of_text(&payload.celular),
        }
    }

    /// The text of the message, where the payload gives one; for an event, its
    /// note.
    pub fn get_message_text(&self) -> (text: Option<String>)
        ensures
            opt_text(text) == self@.message_text(),
    {
        match self {
            WebhookPayload::ChatGuru(payload) => {
                if !payload.texto_mensagem.as_str().is_empty() {
                    Some(payload.texto_mensagem.clone())
                } else {
                    None
                }
            },
            WebhookPayload::EventType(payload) => copy_of_text(&payload.data.annotation),
            WebhookPayload::Generic(payload) => copy_of_text(&payload.mensagem),
        }
    }

    /// The identifier of the chat, where the payload gives one; for an event,
    /// the identifier of the event.
    pub fn get_chat_id(&self) -> (chat_id: Option<String>)
        ensures
            opt_text(chat_id) == self@.chat_id(),
    {
        match self {
            WebhookPayload::ChatGuru(payload) => copy_of_text(&payload.chat_id),
            WebhookPayload::EventType(payload) => Some(payload.id.clone()),
            WebhookPayload::Generic(_) => None,
        }
    }

    /// Whether media is attached to the payload.
    pub fn has_media(&self) -> (attached: bool)
        ensures
            attached == self@.has_media(),
    {
        match self {
            WebhookPayload::ChatGuru(payload) => payload.media_url.is_some()
                || payload.url_arquivo.is_some(),
            _ => false,
        }
    }

    /// The address of the attached media, where there is one.
    pub fn get_media_url(&self) -> (url: Option<String>)
        ensures
            opt_text(url) == self@.media_url(),
    {
        match self {
            WebhookPayload::ChatGuru(payload) => match &payload.media_url {
                Some(url) => Some(url.clone()),
                None => copy_of_text(&payload.url_arquivo),
            },
            _ => None,
        }
    }

    /// The type of the attached media, where the payload gives one or gives
    /// the kind of the message to tell it by.
    pub fn get_media_type(&self) -> (media_type: Option<String>)
        ensures
            opt_text(media_type) == self@.media_type(),
    {
        match self {
            WebhookPayload::ChatGuru(payload) => match &payload.media_type {
                Some(media_type) => Some(media_type.clone()),
                None => match &payload.tipo_mensagem {
                    Some(kind) => Some(media_type_for(kind.as_str())),
                    None => None,
                },
            },
            _ => None,
        }
    }

    /// The attached media, where the payload tells both its address and its
    /// type.
    pub fn get_media(&self) -> (media: Option<MediaReference>)
        ensures
            match media {
                Some(reference) => self@.media() == Some((reference.url@, reference.media_type@)),
                None => self@.media() is None,
            },
    {
        match (self.get_media_url(), self.get_media_type()) {
            (Some(url), Some(media_type)) => Some(MediaReference { url, media_type }),
            _ => None,
        }
    }
}

impl Clone for WebhookPayload {
    fn clone(&self) -> (copy: WebhookPayload)
        ensures
            copy@ == self@,
    {
        match self {
            WebhookPayload::ChatGuru(payload) => WebhookPayload::ChatGuru(payload.clone()),
            WebhookPayload::EventType(payload) => WebhookPayload::EventType(payload.clone()),
            WebhookPayload::Generic(payload) => WebhookPayload::Generic(payload.clone()),
        }
    }
}

} // verus!
