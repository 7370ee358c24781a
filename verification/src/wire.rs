//! The wire protocol: JSON text frames, tagged by an `event` field with the
//! payload under `data`.

use crate::ids::{format_uuid, hyphenated, parse_uuid, uuid_parsed, Id};
use crate::json::{
    json_document, json_string, parse_json, quote_json, scalar_at, JsonScalar, ScalarView,
};
use crate::models::{ChatMessage, ChatMessageView};
use vstd::prelude::*;
use vstd::string::StringExecFns;

verus! {

/// An event the registry sends to connected clients.
#[derive(Debug, PartialEq, Eq)]
pub enum ChatEvent {
    NewMessage(ChatMessage),
    Typing { conversation_id: Id, sender_id: Id, is_typing: bool },
    PresenceOnline { user_id: Id },
    PresenceOffline { user_id: Id },
}

/// Mathematical model of a [`ChatEvent`].
pub enum ChatEventView {
    NewMessage(ChatMessageView),
    Typing { conversation_id: Id, sender_id: Id, is_typing: bool },
    PresenceOnline { user_id: Id },
    PresenceOffline { user_id: Id },
}

impl View for ChatEvent {
    type V = ChatEventView;

    open spec fn view(&self) -> ChatEventView {
        match self {
            ChatEvent::NewMessage(message) => ChatEventView::NewMessage(message@),
            ChatEvent::Typing { conversation_id, sender_id, is_typing } => ChatEventView::Typing {
                conversation_id: *conversation_id,
                sender_id: *sender_id,
                is_typing: *is_typing,
            },
            ChatEvent::PresenceOnline { user_id } => ChatEventView::PresenceOnline {
                user_id: *user_id,
            },
            ChatEvent::PresenceOffline { user_id } => ChatEventView::PresenceOffline {
                user_id: *user_id,
            },
        }
    }
}

/// The value of the `event` field for each kind of outbound event.
pub open spec fn event_name(event: ChatEventView) -> Seq<char> {
    match event {
        ChatEventView::NewMessage(_) => "new_message"@,
        ChatEventView::Typing { .. } => "user_typing"@,
        ChatEventView::PresenceOnline { .. } => "user_online"@,
        ChatEventView::PresenceOffline { .. } => "user_offline"@,
    }
}

/// One member of a JSON object: the quoted name, a colon, the value.
pub open spec fn member(name: Seq<char>, value: Seq<char>) -> Seq<char> {
    seq!['"'] + name + seq!['"', ':'] + value
}

/// An identifier as a JSON value: its hyphenated text, quoted.
pub open spec fn id_value(id: Id) -> Seq<char> {
    json_string(hyphenated(id))
}

/// A boolean as a JSON value.
pub open spec fn flag_value(flag: bool) -> Seq<char> {
    if flag {
        "true"@
    } else {
        "false"@
    }
}

/// The members of the `data` object of an outbound event, separated by
/// commas, in the order in which they are written.
pub open spec fn event_data(event: ChatEventView) -> Seq<char> {
    match event {
        ChatEventView::NewMessage(message) => member("id"@, id_value(message.id)) + seq![','] + member(
            "conversation_id"@,
            id_value(message.conversation_id),
        ) + seq![','] + member("sender_id"@, id_value(message.sender_id)) + seq![','] + member(
            "content"@,
            json_string(message.content),
        ) + seq![','] + member("created_at"@, json_string(message.created_at)),
        ChatEventView::Typing { conversation_id, sender_id, is_typing } => member(
            "sender_id"@,
            id_value(sender_id),
        ) + seq![','] + member("conversation_id"@, id_value(conversation_id)) + seq![','] + member(
            "is_typing"@,
            flag_value(is_typing),
        ),
        ChatEventView::PresenceOnline { user_id } => member("user_id"@, id_value(user_id)),
        ChatEventView::PresenceOffline { user_id } => member("user_id"@, id_value(user_id)),
    }
}

/// The text of a frame with the event tag `name` and the members `data`:
/// `{"event":"<name>","data":{<data>}}`.
pub open spec fn frame_text(name: Seq<char>, data: Seq<char>) -> Seq<char> {
    seq!['{'] + member("event"@, seq!['"'] + name + seq!['"']) + seq![','] + member(
        "data"@,
        seq!['{'] + data + seq!['}'],
    ) + seq!['}']
}

/// The text frame that carries an outbound event.
pub open spec fn wire_text(event: ChatEventView) -> Seq<char> {
    frame_text(event_name(event), event_data(event))
}

/// Appends `"name":value` to `out`.
fn push_member(out: &mut String, name: &str, value: &str)
    ensures
        final(out)@ == old(out)@ + member(name@, value@),
{
    out.push('"');
    out.append(name);
    out.push('"');
    out.push(':');
    out.append(value);
    assert(out@ =~= old(out)@ + member(name@, value@));
}

/// Appends `"name":"<hyphenated id>"` to `out`.
fn push_id_member(out: &mut String, name: &str, id: Id)
    ensures
        final(out)@ == old(out)@ + member(name@, id_value(id)),
{
    let text = format_uuid(id);
    let quoted = quote_json(text.as_str());
    push_member(out, name, quoted.as_str());
}

/// Puts a frame together from its event tag and the members of its `data`
/// object, both as they are to appear in the frame.
pub fn frame(name: &str, data: &str) -> (text: String)
    ensures
        text@ == frame_text(name@, data@),
{
    let mut tag = String::new();
    tag.push('"');
    tag.append(name);
    tag.push('"');
    let mut object = String::new();
    object.push('{');
    object.append(data);
    object.push('}');
    let mut text = String::new();
    text.push('{');
    push_member(&mut text, "event", tag.as_str());
    text.push(',');
    push_member(&mut text, "data", object.as_str());
    text.push('}');
    assert(tag@ =~= seq!['"'] + name@ + seq!['"']);
    assert(object@ =~= seq!['{'] + data@ + seq!['}']);
    assert(text@ =~= frame_text(name@, data@));
    text
}

impl ChatEvent {
    /// The `event` tag of this event.
    pub fn name(&self) -> (name: &'static str)
        ensures
            name@ == event_name(self@),
    {
        match self {
            ChatEvent::NewMessage(_) => "new_message",
            ChatEvent::Typing { .. } => "user_typing",
            ChatEvent::PresenceOnline { .. } => "user_online",
            ChatEvent::PresenceOffline { .. } => "user_offline",
        }
    }

    /// The members of the `data` object of this event, as they appear in its
    /// frame.
    pub fn data(&self) -> (data: String)
        ensures
            data@ == event_data(self@),
    {
        let mut out = String::new();
        match self {
            ChatEvent::NewMessage(message) => {
                push_id_member(&mut out, "id", message.id);
                out.push(',');
                push_id_member(&mut out, "conversation_id", message.conversation_id);
                out.push(',');
                push_id_member(&mut out, "sender_id", message.sender_id);
                out.push(',');
                let content = quote_json(message.content.as_str());
                push_member(&mut out, "content", content.as_str());
                out.push(',');
                let created_at = quote_json(message.created_at.as_str());
                push_member(&mut out, "created_at", created_at.as_str());
            },
            ChatEvent::Typing { conversation_id, sender_id, is_typing } => {
                push_id_member(&mut out, "sender_id", *sender_id);
                out.push(',');
                push_id_member(&mut out, "conversation_id", *conversation_id);
                out.push(',');
                if *is_typing {
                    push_member(&mut out, "is_typing", "true");
                } else {
                    push_member(&mut out, "is_typing", "false");
                }
            },
            ChatEvent::PresenceOnline { user_id } => {
                push_id_member(&mut out, "user_id", *user_id);
            },
            ChatEvent::PresenceOffline { user_id } => {
                push_id_member(&mut out, "user_id", *user_id);
            },
        }
        assert(out@ =~= event_data(self@));
        out
    }

    /// Encodes this event as the text frame that is sent to clients.
    pub fn encode(&self) -> (text: String)
        ensures
            text@ == wire_text(self@),
    {
        frame(self.name(), self.data().as_str())
    }
}

/// The payload of an inbound `message` event.
#[derive(Debug, PartialEq, Eq)]
pub struct MessagePayload {
    pub conversation_id: Id,
    pub content: String,
}

/// The payload of an inbound `typing` event.
#[derive(Debug, PartialEq, Eq)]
pub struct TypingPayload {
    pub conversation_id: Id,
    pub is_typing: bool,
}

/// An event a client sends to the relay.
#[derive(Debug, PartialEq, Eq)]
pub enum WsClientEvent {
    Message(MessagePayload),
    Typing(TypingPayload),
}

/// Mathematical model of a [`WsClientEvent`].
pub enum WsClientEventView {
    Message { conversation_id: Id, content: Seq<char> },
    Typing { conversation_id: Id, is_typing: bool },
}

impl View for WsClientEvent {
    type V = WsClientEventView;

    open spec fn view(&self) -> WsClientEventView {
        match self {
            WsClientEvent::Message(payload) => WsClientEventView::Message {
                conversation_id: payload.conversation_id,
                content: payload.content@,
            },
            WsClientEvent::Typing(payload) => WsClientEventView::Typing {
                conversation_id: payload.conversation_id,
                is_typing: payload.is_typing,
            },
        }
    }
}

/// Why an inbound frame was not understood.
#[derive(Clone, Copy, Debug, PartialEq, Eq, Structural)]
pub enum DecodeError {
    /// The frame is not a JSON document.
    NotJson,
    /// The `event` field is missing, is not a string, or names no known event.
    UnknownEvent,
    /// The event is known, but a field of `data` is missing or has the wrong
    /// type, or the conversation identifier is not a UUID.
    InvalidPayload,
}

/// The four places of an inbound frame that the protocol reads.
#[derive(Debug, PartialEq, Eq)]
pub struct FrameFields {
    /// What is at `/event`.
    pub event: Option<JsonScalar>,
    /// What is at `/data/conversation_id`.
    pub conversation_id: Option<JsonScalar>,
    /// What is at `/data/content`.
    pub content: Option<JsonScalar>,
    /// What is at `/data/is_typing`.
    pub is_typing: Option<JsonScalar>,
}

/// Mathematical model of [`FrameFields`].
pub struct FrameFieldsView {
    pub event: Option<ScalarView>,
    pub conversation_id: Option<ScalarView>,
    pub content: Option<ScalarView>,
    pub is_typing: Option<ScalarView>,
}

impl View for FrameFields {
    type V = FrameFieldsView;

    open spec fn view(&self) -> FrameFieldsView {
        FrameFieldsView {
            event: self.event.deep_view(),
            conversation_id: self.conversation_id.deep_view(),
            content: self.content.deep_view(),
            is_typing: self.is_typing.deep_view(),
        }
    }
}

/// What a document holds at `pointer`, if anything.
pub open spec fn scalar_of(document: Map<Seq<char>, ScalarView>, pointer: Seq<char>) -> Option<
    ScalarView,
> {
    if document.contains_key(pointer) {
        Some(document[pointer])
    } else {
        None
    }
}

/// The fields of the frame that a document stands for.
pub open spec fn frame_fields(document: Map<Seq<char>, ScalarView>) -> FrameFieldsView {
    FrameFieldsView {
        event: scalar_of(document, "/event"@),
        conversation_id: scalar_of(document, "/data/conversation_id"@),
        content: scalar_of(document, "/data/content"@),
        is_typing: scalar_of(document, "/data/is_typing"@),
    }
}

/// The conversation that a `conversation_id` field names: the field has to be
/// a string, and the string the text of a UUID.
pub open spec fn conversation_of(field: Option<ScalarView>) -> Option<Id> {
    match field {
        Some(ScalarView::Text(text)) => uuid_parsed(text),
        _ => None,
    }
}

/// The event that the fields of a frame make up, `conversation` being the
/// conversation that the frame names, if it names one.
pub open spec fn client_event(
    event: Option<ScalarView>,
    conversation: Option<Id>,
    content: Option<ScalarView>,
    is_typing: Option<ScalarView>,
) -> Result<WsClientEventView, DecodeError> {
    match event {
        Some(ScalarView::Text(name)) => if name == "message"@ {
            match (conversation, content) {
                (Some(conversation_id), Some(ScalarView::Text(content))) => Ok(
                    WsClientEventView::Message { conversation_id, content },
                ),
                _ => Err(DecodeError::InvalidPayload),
            }
        } else if name == "typing"@ {
            match (conversation, is_typing) {
                (Some(conversation_id), Some(ScalarView::Flag(is_typing))) => Ok(
                    WsClientEventView::Typing { conversation_id, is_typing },
                ),
                _ => Err(DecodeError::InvalidPayload),
            }
        } else {
            Err(DecodeError::UnknownEvent)
        },
        _ => Err(DecodeError::UnknownEvent),
    }
}

/// The event that the text of an inbound frame stands for.
pub open spec fn decoded(text: Seq<char>) -> Result<WsClientEventView, DecodeError> {
    match json_document(text) {
        None => Err(DecodeError::NotJson),
        Some(document) => {
            let fields = frame_fields(document);
            client_event(
                fields.event,
                conversation_of(fields.conversation_id),
                fields.content,
                fields.is_typing,
            )
        },
    }
}

/// Mathematical model of an outcome of decoding.
pub open spec fn outcome_view(outcome: Result<WsClientEvent, DecodeError>) -> Result<
    WsClientEventView,
    DecodeError,
> {
    match outcome {
        Ok(event) => Ok(event@),
        Err(error) => Err(error),
    }
}

impl FrameFields {
    /// Parses `text` and reads the four places the protocol uses. `None`
    /// exactly when `text` is not a JSON document.
    pub fn read(text: &str) -> (fields: Option<FrameFields>)
        ensures
            match fields {
                Some(fields) => json_document(text@) matches Some(document) && fields@
                    == frame_fields(document),
                None => json_document(text@) is None,
            },
    {
        match parse_json(text) {
            Ok(value) => Some(
                FrameFields {
                    event: scalar_at(&value, "/event"),
                    conversation_id: scalar_at(&value, "/data/conversation_id"),
                    content: scalar_at(&value, "/data/content"),
                    is_typing: scalar_at(&value, "/data/is_typing"),
                },
            ),
            Err(_) => None,
        }
    }

    /// The conversation this frame names: its `conversation_id` read as a
    /// UUID, where it is a string and the string is one.
    pub fn conversation(&self) -> (conversation: Option<Id>)
        ensures
            conversation == conversation_of(self@.conversation_id),
    {
        match &self.conversation_id {
            Some(JsonScalar::Text(text)) => parse_uuid(text.as_str()),
            _ => None,
        }
    }
}

impl WsClientEvent {
    /// Makes an event out of the fields of a frame. `conversation` is the
    /// conversation that the frame names, if it names one.
    ///
    /// The `event` field selects the kind: `message` needs a conversation and
    /// a string `content`, `typing` a conversation and a boolean `is_typing`.
    pub fn from_fields(
        event: Option<JsonScalar>,
        conversation: Option<Id>,
        content: Option<JsonScalar>,
        is_typing: Option<JsonScalar>,
    ) -> (outcome: Result<WsClientEvent, DecodeError>)
        ensures
            outcome_view(outcome) == client_event(
                event.deep_view(),
                conversation,
                content.deep_view(),
                is_typing.deep_view(),
            ),
    {
        let name = match event {
            Some(JsonScalar::Text(name)) => name,
            _ => { return Err(DecodeError::UnknownEvent); },
        };
        let message_tag = "message".to_owned();
        let typing_tag = "typing".to_owned();
        if name == message_tag {
            match (conversation, content) {
                (Some(conversation_id), Some(JsonScalar::Text(content))) => Ok(
                    WsClientEvent::Message(MessagePayload { conversation_id, content }),
                ),
                _ => Err(DecodeError::InvalidPayload),
            }
        } else if name == typing_tag {
            match (conversation, is_typing) {
                (Some(conversation_id), Some(JsonScalar::Flag(is_typing))) => Ok(
                    WsClientEvent::Typing(TypingPayload { conversation_id, is_typing }),
                ),
                _ => Err(DecodeError::InvalidPayload),
            }
        } else {
            Err(DecodeError::UnknownEvent)
        }
    }

    /// Decodes the text of an inbound frame.
    pub fn decode(text: &str) -> (outcome: Result<WsClientEvent, DecodeError>)
        ensures
            outcome_view(outcome) == decoded(text@),
    {
        match FrameFields::read(text) {
            None => Err(DecodeError::NotJson),
            Some(fields) => {
                let conversation = fields.conversation();
                WsClientEvent::from_fields(
                    fields.event,
                    conversation,
                    fields.content,
                    fields.is_typing,
                )
            },
        }
    }
}

} // verus!
