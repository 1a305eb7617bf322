use vstd::prelude::*;
use vstd::string::StringExecFns;
use crate::catalog::{upstream_id, ChatModel};
use crate::error::ChatError;
use crate::json::{json_quoted, json_str_field, quote_json, read_str_field};
use crate::prompt::ChatMessages;

verus! {

/// The endpoint that opens a new upstream conversation.
pub const CREATE_URL: &'static str = "https://yuanbao.tencent.com/api/user/agent/conversation/create";

/// Gateway settings: listening port, gateway key, and upstream credentials.
#[derive(Clone, Debug)]
pub struct Config {
    pub port: u16,
    pub key: String,
    pub agent_id: String,
    pub hy_user: String,
    pub hy_token: String,
}

/// One completion request: the conversation and the model to run it on.
#[derive(Clone, Debug)]
pub struct ChatCompletionRequest {
    pub messages: ChatMessages,
    pub chat_model: ChatModel,
}

pub open spec fn cookie_text(user: Seq<char>, token: Seq<char>) -> Seq<char> {
    "hy_source=web; hy_user="@ + user + "; hy_token="@ + token
}

pub open spec fn referer_text(agent_id: Seq<char>) -> Seq<char> {
    "https://yuanbao.tencent.com/chat/"@ + agent_id
}

/// The headers sent with every upstream request, as (name, value) pairs.
pub open spec fn headers_of(c: Config) -> Seq<(Seq<char>, Seq<char>)> {
    seq![
        ("Cookie"@, cookie_text(c.hy_user@, c.hy_token@)),
        ("Origin"@, "https://yuanbao.tencent.com"@),
        ("Referer"@, referer_text(c.agent_id@)),
        ("X-Agentid"@, c.agent_id@),
        ("User-Agent"@, "Mozilla/5.0 (Windows NT 10.0; Win64; x64)AppleWebKit/537.36 (KHTML, like Gecko) Chrome/134.0.0.0 Safari/537.36"@),
    ]
}

pub open spec fn pairs_view(v: Seq<(String, String)>) -> Seq<(Seq<char>, Seq<char>)> {
    v.map_values(|p: (String, String)| (p.0@, p.1@))
}

/// The body of the conversation-create call.
pub open spec fn create_body_text(agent_id: Seq<char>) -> Seq<char> {
    "{\"agentId\":"@ + json_quoted(agent_id) + "}"@
}

/// The streaming chat endpoint of a conversation.
pub open spec fn chat_url_text(conversation_id: Seq<char>) -> Seq<char> {
    "https://yuanbao.tencent.com/api/chat/"@ + conversation_id
}

/// The body of the streaming chat call, keys in JSON object order.
pub open spec fn chat_body_text(prompt: Seq<char>, agent_id: Seq<char>, model_id: Seq<char>) -> Seq<
    char,
> {
    "{\"agentId\":"@ + json_quoted(agent_id) + ",\"chatModelId\":"@ + json_quoted(model_id)
        + ",\"displayPrompt\":"@ + json_quoted(prompt)
        + ",\"displayPromptType\":1,\"model\":\"gpt_175B_0404\",\"multimedia\":[],\"options\":{\"imageIntention\":{\"backendUpdateFlag\":2,\"intentionStatus\":true,\"needIntentionModel\":true}},\"plugin\":\"Adaptive\",\"prompt\":"@
        + json_quoted(prompt) + ",\"supportHint\":1,\"version\":\"v2\"}"@
}

/// The conversation id that a conversation-create answer carries.
pub open spec fn conversation_id_of(status: u16, id_field: Option<Option<Seq<char>>>) -> Result<
    Seq<char>,
    ChatError,
> {
    if !(200 <= status && status < 300) {
        Err(ChatError::UpstreamStatus(status))
    } else {
        match id_field {
            Some(Some(id)) => Ok(id),
            _ => Err(ChatError::UpstreamFormat),
        }
    }
}

pub open spec fn id_result(r: Result<String, ChatError>) -> Result<Seq<char>, ChatError> {
    match r {
        Ok(s) => Ok(s@),
        Err(e) => Err(e),
    }
}

fn pair(name: &str, value: String) -> (r: (String, String))
    ensures
        r.0@ == name@,
        r.1@ == value@,
{
    (String::from_str(name), value)
}

/// The headers sent with every upstream request.
pub fn request_headers(config: &Config) -> (r: Vec<(String, String)>)
    ensures
        pairs_view(r@) == headers_of(*config),
{
    let cookie = String::from_str("hy_source=web; hy_user=").concat(config.hy_user.as_str()).concat(
        "; hy_token=",
    ).concat(config.hy_token.as_str());
    let referer = String::from_str("https://yuanbao.tencent.com/chat/").concat(
        config.agent_id.as_str(),
    );
    let mut r: Vec<(String, String)> = Vec::new();
    r.push(pair("Cookie", cookie));
    r.push(pair("Origin", String::from_str("https://yuanbao.tencent.com")));
    r.push(pair("Referer", referer));
    r.push(pair("X-Agentid", config.agent_id.clone()));
    r.push(
        pair(
            "User-Agent",
            String::from_str(
                "Mozilla/5.0 (Windows NT 10.0; Win64; x64)AppleWebKit/537.36 (KHTML, like Gecko) Chrome/134.0.0.0 Safari/537.36",
            ),
        ),
    );
    assert(pairs_view(r@) =~= headers_of(*config));
    r
}

/// The body of the conversation-create call.
pub fn create_body(agent_id: &str) -> (r: String)
    ensures
        r@ == create_body_text(agent_id@),
{
    String::from_str("{\"agentId\":").concat(quote_json(agent_id).as_str()).concat("}")
}

/// The streaming chat endpoint of a conversation.
pub fn chat_url(conversation_id: &str) -> (r: String)
    ensures
        r@ == chat_url_text(conversation_id@),
{
    String::from_str("https://yuanbao.tencent.com/api/chat/").concat(conversation_id)
}

/// The body of the streaming chat call for a prompt, agent and model.
pub fn chat_body(prompt: &str, agent_id: &str, model: ChatModel) -> (r: String)
    ensures
        r@ == chat_body_text(prompt@, agent_id@, upstream_id(model)),
{
    let quoted_prompt = quote_json(prompt);
    let model_id = model.as_yuanbao_string();
    String::from_str("{\"agentId\":").concat(quote_json(agent_id).as_str()).concat(
        ",\"chatModelId\":",
    ).concat(quote_json(model_id.as_str()).as_str()).concat(",\"displayPrompt\":").concat(
        quoted_prompt.as_str(),
    ).concat(
        ",\"displayPromptType\":1,\"model\":\"gpt_175B_0404\",\"multimedia\":[],\"options\":{\"imageIntention\":{\"backendUpdateFlag\":2,\"intentionStatus\":true,\"needIntentionModel\":true}},\"plugin\":\"Adaptive\",\"prompt\":",
    ).concat(quoted_prompt.as_str()).concat(",\"supportHint\":1,\"version\":\"v2\"}")
}

/// Reads the conversation id from the status of a conversation-create answer
/// and the `id` field read from its body.
pub fn conversation_id_from_field(status: u16, id_field: Option<Option<String>>) -> (r: Result<
    String,
    ChatError,
>)
    ensures
        id_result(r) == conversation_id_of(status, crate::json::field_view(id_field)),
{
    if status < 200 || status >= 300 {
        return Err(ChatError::UpstreamStatus(status));
    }
    match id_field {
        Some(Some(id)) => Ok(id),
        _ => Err(ChatError::UpstreamFormat),
    }
}

/// Reads the conversation id from a conversation-create answer: its status
/// must be 2xx and its body a JSON object with a string field `id`.
pub fn conversation_id_from_response(status: u16, body: &str) -> (r: Result<String, ChatError>)
    ensures
        id_result(r) == conversation_id_of(status, json_str_field(body@, "id"@)),
{
    conversation_id_from_field(status, read_str_field(body, "id"))
}

/// What a completion sends upstream before any conversation exists: the
/// composed prompt, the model, and the conversation-create body.
#[derive(Clone, Debug)]
pub struct CompletionPlan {
    pub prompt: String,
    pub model: ChatModel,
    pub create_body: String,
}

/// The streaming chat call of one conversation.
#[derive(Clone, Debug)]
pub struct StreamRequest {
    pub url: String,
    pub body: String,
}

impl ChatCompletionRequest {
    /// The prompt that this request sends upstream.
    pub fn prompt(&self) -> (r: Result<String, ChatError>)
        ensures
            crate::prompt::text_result(r) == crate::prompt::prompt_of(self.messages.0@),
    {
        self.messages.compose()
    }

    /// Prepares a completion for an agent: the prompt is composed first, so an
    /// empty conversation fails before any upstream call.
    pub fn plan(&self, agent_id: &str) -> (r: Result<CompletionPlan, ChatError>)
        ensures
            match crate::prompt::prompt_of(self.messages.0@) {
                Ok(p) => r matches Ok(plan) && plan.prompt@ == p && plan.model == self.chat_model
                    && plan.create_body@ == create_body_text(agent_id@),
                Err(e) => r == Err::<CompletionPlan, ChatError>(e),
            },
    {
        match self.messages.compose() {
            Ok(prompt) => Ok(
                CompletionPlan { prompt, model: self.chat_model, create_body: create_body(agent_id) },
            ),
            Err(e) => Err(e),
        }
    }
}

/// The streaming chat call of a planned completion, once the upstream has
/// opened the conversation `conversation_id`.
pub fn stream_request(plan: &CompletionPlan, agent_id: &str, conversation_id: &str) -> (r:
    StreamRequest)
    ensures
        r.url@ == chat_url_text(conversation_id@),
        r.body@ == chat_body_text(plan.prompt@, agent_id@, upstream_id(plan.model)),
{
    StreamRequest {
        url: chat_url(conversation_id),
        body: chat_body(plan.prompt.as_str(), agent_id, plan.model),
    }
}

} // verus!
