use vstd::prelude::*;
use vstd::string::StringExecFns;
use crate::json::{json_str_field, read_str_field};
use crate::text::same_text;

verus! {

/// The two kinds of content fragments that the upstream streams.
#[derive(Clone, Copy, Debug, PartialEq, Eq, Structural)]
pub enum ChatCompletionMessageType {
    /// Reasoning text.
    Think,
    /// Answer text.
    Msg,
}

/// One content fragment.
#[derive(Clone, Debug)]
pub struct ChatCompletionMessage {
    pub kind: ChatCompletionMessageType,
    pub text: String,
}

/// What a completion delivers to its consumer.
#[derive(Clone, Debug)]
pub enum ChatCompletionEvent {
    Message(ChatCompletionMessage),
    /// A stream error, surfaced without ending the stream.
    Error(String),
    /// The single terminal event, with the finish reason.
    Finish(String),
}

/// The mathematical value of a [`ChatCompletionEvent`].
pub enum EventSpec {
    Think(Seq<char>),
    Answer(Seq<char>),
    Error(Seq<char>),
    Finish(Seq<char>),
}

impl View for ChatCompletionEvent {
    type V = EventSpec;

    open spec fn view(&self) -> EventSpec {
        match self {
            ChatCompletionEvent::Message(m) => match m.kind {
                ChatCompletionMessageType::Think => EventSpec::Think(m.text@),
                ChatCompletionMessageType::Msg => EventSpec::Answer(m.text@),
            },
            ChatCompletionEvent::Error(e) => EventSpec::Error(e@),
            ChatCompletionEvent::Finish(f) => EventSpec::Finish(f@),
        }
    }
}

/// One frame of the upstream event stream: its event name and data payload.
#[derive(Clone, Debug)]
pub struct Frame {
    pub event: String,
    pub data: String,
}

/// The string fields of a frame payload that classification reads; `None`
/// where the payload has no such string field.
#[derive(Clone, Debug)]
pub struct FrameFields {
    pub kind: Option<String>,
    pub content: Option<String>,
    pub msg: Option<String>,
    pub stop_reason: Option<String>,
}

pub open spec fn opt_text(o: Option<String>) -> Seq<char> {
    match o {
        Some(s) => s@,
        None => Seq::empty(),
    }
}

/// What a payload with these string fields yields (absent fields read as
/// empty): an event or none, and the finish reason after it.
pub open spec fn classify_texts(
    kind: Seq<char>,
    content: Seq<char>,
    msg: Seq<char>,
    stop: Seq<char>,
    reason: Seq<char>,
) -> (Option<EventSpec>, Seq<char>) {
    if kind == "think"@ {
        if content.len() == 0 {
            (None, reason)
        } else {
            (Some(EventSpec::Think(content)), reason)
        }
    } else if kind == "text"@ {
        (Some(EventSpec::Answer(msg)), reason)
    } else if stop.len() == 0 {
        (None, reason)
    } else {
        (None, stop)
    }
}

/// What one payload yields: an event or none, and the finish reason after it.
pub open spec fn classify_fields_spec(f: FrameFields, reason: Seq<char>) -> (
    Option<EventSpec>,
    Seq<char>,
) {
    classify_texts(
        opt_text(f.kind),
        opt_text(f.content),
        opt_text(f.msg),
        opt_text(f.stop_reason),
        reason,
    )
}

/// The string field `key` of a payload, the empty text where it is absent.
pub open spec fn payload_text(data: Seq<char>, key: Seq<char>) -> Seq<char> {
    match json_str_field(data, key) {
        Some(Some(s)) => s,
        _ => Seq::empty(),
    }
}

/// What one frame yields: frames not named `message` and payloads that are not
/// JSON yield nothing and leave the finish reason as it was.
pub open spec fn classify_spec(event: Seq<char>, data: Seq<char>, reason: Seq<char>) -> (
    Option<EventSpec>,
    Seq<char>,
) {
    if event != "message"@ {
        (None, reason)
    } else if json_str_field(data, "type"@) is None {
        (None, reason)
    } else {
        classify_texts(
            payload_text(data, "type"@),
            payload_text(data, "content"@),
            payload_text(data, "msg"@),
            payload_text(data, "stopReason"@),
            reason,
        )
    }
}

pub open spec fn event_opt_view(e: Option<ChatCompletionEvent>) -> Option<EventSpec> {
    match e {
        Some(ev) => Some(ev@),
        None => None,
    }
}

fn field_or_absent(r: Option<Option<String>>) -> (s: Option<String>)
    ensures
        opt_text(s) == match r {
            Some(Some(v)) => v@,
            _ => Seq::<char>::empty(),
        },
{
    match r {
        Some(Some(v)) => Some(v),
        _ => None,
    }
}

/// Classifies the fields of a `message` frame's payload, updating the finish
/// reason from a status payload that carries a non-empty `stopReason`.
pub fn classify_fields(fields: &FrameFields, finish_reason: &mut String) -> (r: Option<
    ChatCompletionEvent,
>)
    ensures
        (event_opt_view(r), final(finish_reason)@) == classify_fields_spec(
            *fields,
            old(finish_reason)@,
        ),
{
    let empty = String::new();
    let kind = match &fields.kind {
        Some(k) => k.as_str(),
        None => empty.as_str(),
    };
    if same_text(kind, "think") {
        match &fields.content {
            Some(c) => {
                if c.unicode_len() == 0 {
                    None
                } else {
                    Some(
                        ChatCompletionEvent::Message(
                            ChatCompletionMessage {
                                kind: ChatCompletionMessageType::Think,
                                text: c.clone(),
                            },
                        ),
                    )
                }
            },
            None => None,
        }
    } else if same_text(kind, "text") {
        let text = match &fields.msg {
            Some(m) => m.clone(),
            None => String::new(),
        };
        Some(
            ChatCompletionEvent::Message(
                ChatCompletionMessage { kind: ChatCompletionMessageType::Msg, text },
            ),
        )
    } else {
        match &fields.stop_reason {
            Some(s) => {
                if s.unicode_len() != 0 {
                    *finish_reason = s.clone();
                }
            },
            None => {},
        }
        None
    }
}

/// Classifies one upstream frame. Only frames named `message` are read; the
/// payload is parsed as JSON and a payload that does not parse is dropped.
pub fn classify_frame(frame: &Frame, finish_reason: &mut String) -> (r: Option<
    ChatCompletionEvent,
>)
    ensures
        (event_opt_view(r), final(finish_reason)@) == classify_spec(
            frame.event@,
            frame.data@,
            old(finish_reason)@,
        ),
{
    if !same_text(frame.event.as_str(), "message") {
        return None;
    }
    let kind = read_str_field(frame.data.as_str(), "type");
    if kind.is_none() {
        return None;
    }
    let fields = FrameFields {
        kind: field_or_absent(kind),
        content: field_or_absent(read_str_field(frame.data.as_str(), "content")),
        msg: field_or_absent(read_str_field(frame.data.as_str(), "msg")),
        stop_reason: field_or_absent(read_str_field(frame.data.as_str(), "stopReason")),
    };
    classify_fields(&fields, finish_reason)
}

} // verus!
