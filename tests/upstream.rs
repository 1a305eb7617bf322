use yuanbao_chat2api::catalog::ChatModel;
use yuanbao_chat2api::error::ChatError;
use yuanbao_chat2api::prompt::{ChatMessage, ChatMessages};
use yuanbao_chat2api::upstream::{
    chat_body, chat_url, conversation_id_from_field, conversation_id_from_response, create_body,
    request_headers, stream_request, ChatCompletionRequest, Config,
};

fn config() -> Config {
    Config {
        port: 8000,
        key: "k".to_string(),
        agent_id: "naQivTmsDa".to_string(),
        hy_user: "u1".to_string(),
        hy_token: "SECRET-REDACTED".to_string(),
    }
}

#[test]
fn bootstrap_status_500_fails() {
    assert_eq!(
        conversation_id_from_response(500, r#"{"id":"abc123"}"#),
        Err(ChatError::UpstreamStatus(500))
    );
    assert_eq!(conversation_id_from_field(404, None), Err(ChatError::UpstreamStatus(404)));
}

#[test]
fn bootstrap_reads_id() {
    assert_eq!(conversation_id_from_response(200, r#"{"id":"abc123","x":1}"#), Ok("abc123".to_string()));
    assert_eq!(conversation_id_from_response(201, r#" { "id" : "a\"b" } "#), Ok("a\"b".to_string()));
}

#[test]
fn bootstrap_format_errors() {
    assert_eq!(conversation_id_from_response(200, "<html>"), Err(ChatError::UpstreamFormat));
    assert_eq!(conversation_id_from_response(200, r#"{"ID":"x"}"#), Err(ChatError::UpstreamFormat));
    assert_eq!(conversation_id_from_response(200, r#"{"id":7}"#), Err(ChatError::UpstreamFormat));
}

#[test]
fn headers_carry_credentials() {
    let h = request_headers(&config());
    let expected: Vec<(String, String)> = vec![
        ("Cookie", "hy_source=web; hy_user=u1; hy_token=SECRET-REDACTED"),
        ("Origin", "https://yuanbao.tencent.com"),
        ("Referer", "https://yuanbao.tencent.com/chat/naQivTmsDa"),
        ("X-Agentid", "naQivTmsDa"),
        (
            "User-Agent",
            "Mozilla/5.0 (Windows NT 10.0; Win64; x64)AppleWebKit/537.36 (KHTML, like Gecko) Chrome/134.0.0.0 Safari/537.36",
        ),
    ]
    .into_iter()
    .map(|(a, b)| (a.to_string(), b.to_string()))
    .collect();
    assert_eq!(h, expected);
}

#[test]
fn create_body_quotes_agent() {
    assert_eq!(create_body("ag\"1"), r#"{"agentId":"ag\"1"}"#);
}

#[test]
fn chat_url_and_body() {
    assert_eq!(chat_url("abc123"), "https://yuanbao.tencent.com/api/chat/abc123");
    let body = chat_body("hi\n", "ag", ChatModel::DeepSeekR1);
    assert_eq!(
        body,
        r#"{"agentId":"ag","chatModelId":"deep_seek","displayPrompt":"hi\n","displayPromptType":1,"model":"gpt_175B_0404","multimedia":[],"options":{"imageIntention":{"backendUpdateFlag":2,"intentionStatus":true,"needIntentionModel":true}},"plugin":"Adaptive","prompt":"hi\n","supportHint":1,"version":"v2"}"#
    );
    let v: serde_json::Value = serde_json::from_str(&body).unwrap();
    assert_eq!(v["prompt"], "hi\n");
}

#[test]
fn plan_composes_before_bootstrap() {
    let req = ChatCompletionRequest { messages: ChatMessages(vec![]), chat_model: ChatModel::DeepSeekV3 };
    assert_eq!(req.plan("ag").err(), Some(ChatError::EmptyConversation));
    let req = ChatCompletionRequest {
        messages: ChatMessages(vec![ChatMessage {
            role: "user".to_string(),
            content: Some("q".to_string()),
            reasoning_content: None,
        }]),
        chat_model: ChatModel::DeepSeekV3,
    };
    let plan = req.plan("ag").unwrap();
    assert_eq!(plan.prompt, "q");
    assert_eq!(plan.create_body, r#"{"agentId":"ag"}"#);
    let s = stream_request(&plan, "ag", "abc123");
    assert_eq!(s.url, "https://yuanbao.tencent.com/api/chat/abc123");
    assert!(s.body.contains(r#""chatModelId":"deep_seek_v3""#));
}
