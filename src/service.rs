use vstd::prelude::*;
use vstd::string::{StrSliceExecFns, StringExecFns};
use crate::catalog::{parse_model, public_id, ChatModel};
use crate::error::ChatError;
use crate::prompt::{ChatMessage, ChatMessages};
use crate::stream::{ChatCompletionEvent, ChatCompletionMessageType, EventSpec};
use crate::text::{has_prefix, same_text};
use crate::upstream::ChatCompletionRequest;

verus! {

/// The answer of the model-listing endpoint.
#[derive(Clone, Debug)]
pub struct ModelList {
    pub object: String,
    pub data: Vec<Model>,
}

/// One entry of the model list.
#[derive(Clone, Debug)]
pub struct Model {
    pub id: String,
    pub object: String,
    pub owned_by: String,
}

/// A chat-completion request as the HTTP layer decodes it.
#[derive(Clone, Debug)]
pub struct AxumChatCompletionRequest {
    pub messages: ChatMessages,
    pub model: String,
    pub stream: bool,
}

/// One streamed chunk of a chat-completion answer.
#[derive(Clone, Debug)]
pub struct AxumChatCompletionResponse {
    pub id: String,
    pub choices: Vec<Choice>,
    pub created: i64,
    pub model: String,
    pub object_type: String,
}

/// The single choice of a chunk.
#[derive(Clone, Debug)]
pub struct Choice {
    pub finish_reason: Option<String>,
    pub index: u32,
    pub delta: ChatMessage,
}

/// The HTTP entry points; their handlers live with the HTTP server.
pub struct Handler {}

pub open spec fn opt_view(o: Option<String>) -> Option<Seq<char>> {
    match o {
        Some(s) => Some(s@),
        None => None,
    }
}

/// Whether a model-list entry lists model `m`, owned by `deepseek`.
pub open spec fn lists_model(e: Model, m: ChatModel) -> bool {
    &&& e.id@ == public_id(m)
    &&& e.object@ == "model"@
    &&& e.owned_by@ == "deepseek"@
}

/// The key that an `Authorization` header carries: the header value without a
/// leading `Bearer `, the empty key where there is no header.
pub open spec fn bearer_of(header: Option<Seq<char>>) -> Seq<char> {
    match header {
        None => Seq::empty(),
        Some(h) => if h.len() >= 7 && h.take(7) == "Bearer "@ {
            h.skip(7)
        } else {
            h
        },
    }
}

/// The content, reasoning content and finish reason of the chunk for an event.
pub open spec fn chunk_parts(e: EventSpec) -> (
    Option<Seq<char>>,
    Option<Seq<char>>,
    Option<Seq<char>>,
) {
    match e {
        EventSpec::Think(t) => (None, Some(t), None),
        EventSpec::Answer(t) => (Some(t), None, None),
        EventSpec::Error(m) => (None, None, Some(m)),
        EventSpec::Finish(f) => (None, None, Some(f)),
    }
}

/// The completion request for an HTTP request, once its key and model are
/// checked.
pub open spec fn prepared(key: Seq<char>, expected: Seq<char>, req: AxumChatCompletionRequest) -> Result<
    ChatCompletionRequest,
    ChatError,
> {
    if key != expected {
        Err(ChatError::InvalidKey)
    } else {
        match parse_model(req.model@) {
            Ok(m) => Ok(ChatCompletionRequest { messages: req.messages, chat_model: m }),
            Err(e) => Err(e),
        }
    }
}

fn model_entry(m: ChatModel) -> (r: Model)
    ensures
        lists_model(r, m),
{
    Model {
        id: m.as_common_string(),
        object: String::from_str("model"),
        owned_by: String::from_str("deepseek"),
    }
}

/// The models that the gateway offers, as the model-listing endpoint answers.
pub fn model_list() -> (r: ModelList)
    ensures
        r.object@ == "list"@,
        r.data@.len() == 2,
        lists_model(r.data@[0], ChatModel::DeepSeekV3),
        lists_model(r.data@[1], ChatModel::DeepSeekR1),
{
    let mut data: Vec<Model> = Vec::new();
    data.push(model_entry(ChatModel::DeepSeekV3));
    data.push(model_entry(ChatModel::DeepSeekR1));
    ModelList { object: String::from_str("list"), data }
}

/// The key that an `Authorization` header carries.
pub fn bearer_key(header: Option<&str>) -> (r: String)
    ensures
        r@ == bearer_of(
            match header {
                Some(h) => Some(h@),
                None => None,
            },
        ),
{
    match header {
        None => String::new(),
        Some(h) => {
            proof {
                reveal_strlit("Bearer ");
            }
            if has_prefix(h, "Bearer ") {
                let n = h.unicode_len();
                let rest = h.substring_char(7, n);
                assert(h@.subrange(7, n as int) =~= h@.skip(7));
                String::from_str(rest)
            } else {
                String::from_str(h)
            }
        },
    }
}

/// Checks the gateway key and the model of an HTTP request and turns it into
/// a completion request.
pub fn prepare_request(key: &str, expected: &str, req: AxumChatCompletionRequest) -> (r: Result<
    ChatCompletionRequest,
    ChatError,
>)
    ensures
        r == prepared(key@, expected@, req),
{
    if !same_text(key, expected) {
        return Err(ChatError::InvalidKey);
    }
    match ChatModel::parse(req.model.as_str()) {
        Ok(m) => Ok(ChatCompletionRequest { messages: req.messages, chat_model: m }),
        Err(e) => Err(e),
    }
}

/// The answer chunk that delivers one completion event.
pub fn chunk_for_event(event: ChatCompletionEvent, id: &str, created: i64, model: ChatModel) -> (r:
    AxumChatCompletionResponse)
    ensures
        r.id@ == id@,
        r.created == created,
        r.model@ == public_id(model),
        r.object_type@ == "chat.completion.chunk"@,
        r.choices@.len() == 1,
        r.choices@[0].index == 0,
        r.choices@[0].delta.role@ == "assistant"@,
        (
            opt_view(r.choices@[0].delta.content),
            opt_view(r.choices@[0].delta.reasoning_content),
            opt_view(r.choices@[0].finish_reason),
        ) == chunk_parts(event@),
{
    let (content, reasoning_content, finish_reason) = match event {
        ChatCompletionEvent::Message(m) => match m.kind {
            ChatCompletionMessageType::Think => (None, Some(m.text), None),
            ChatCompletionMessageType::Msg => (Some(m.text), None, None),
        },
        ChatCompletionEvent::Error(e) => (None, None, Some(e)),
        ChatCompletionEvent::Finish(f) => (None, None, Some(f)),
    };
    let delta = ChatMessage { role: String::from_str("assistant"), content, reasoning_content };
    let mut choices: Vec<Choice> = Vec::new();
    choices.push(Choice { finish_reason, index: 0, delta });
    AxumChatCompletionResponse {
        id: String::from_str(id),
        choices,
        created,
        model: model.as_common_string(),
        object_type: String::from_str("chat.completion.chunk"),
    }
}

} // verus!
