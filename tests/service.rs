use yuanbao_chat2api::catalog::ChatModel;
use yuanbao_chat2api::error::ChatError;
use yuanbao_chat2api::prompt::ChatMessages;
use yuanbao_chat2api::service::{bearer_key, chunk_for_event, model_list, prepare_request, AxumChatCompletionRequest};
use yuanbao_chat2api::stream::{ChatCompletionEvent, ChatCompletionMessage, ChatCompletionMessageType};

fn request(model: &str) -> AxumChatCompletionRequest {
    AxumChatCompletionRequest { messages: ChatMessages(vec![]), model: model.to_string(), stream: true }
}

#[test]
fn lists_two_models() {
    let l = model_list();
    assert_eq!(l.object, "list");
    let ids: Vec<&str> = l.data.iter().map(|m| m.id.as_str()).collect();
    assert_eq!(ids, vec!["deepseek-v3", "deepseek-r1"]);
    assert!(l.data.iter().all(|m| m.object == "model" && m.owned_by == "deepseek"));
}

#[test]
fn bearer_prefix_is_stripped() {
    assert_eq!(bearer_key(Some("Bearer sk-1")), "sk-1");
    assert_eq!(bearer_key(Some("sk-1")), "sk-1");
    assert_eq!(bearer_key(Some("Bearer")), "Bearer");
    assert_eq!(bearer_key(None), "");
}

#[test]
fn request_checks_key_then_model() {
    assert_eq!(prepare_request("a", "b", request("deepseek-r1")).err(), Some(ChatError::InvalidKey));
    assert_eq!(prepare_request("b", "b", request("gpt")).err(), Some(ChatError::InvalidModel));
    let r = prepare_request("b", "b", request("deepseek-r1")).unwrap();
    assert_eq!(r.chat_model, ChatModel::DeepSeekR1);
}

#[test]
fn chunks_by_event_kind() {
    let think = ChatCompletionEvent::Message(ChatCompletionMessage {
        kind: ChatCompletionMessageType::Think,
        text: "t".to_string(),
    });
    let c = chunk_for_event(think, "id1", 7, ChatModel::DeepSeekR1);
    assert_eq!((c.id.as_str(), c.created, c.model.as_str(), c.object_type.as_str()), ("id1", 7, "deepseek-r1", "chat.completion.chunk"));
    assert_eq!(c.choices.len(), 1);
    assert_eq!(c.choices[0].index, 0);
    assert_eq!(c.choices[0].delta.role, "assistant");
    assert_eq!(c.choices[0].delta.reasoning_content.as_deref(), Some("t"));
    assert_eq!(c.choices[0].delta.content, None);
    assert_eq!(c.choices[0].finish_reason, None);

    let answer = ChatCompletionEvent::Message(ChatCompletionMessage {
        kind: ChatCompletionMessageType::Msg,
        text: "a".to_string(),
    });
    let c = chunk_for_event(answer, "id1", 7, ChatModel::DeepSeekV3);
    assert_eq!(c.choices[0].delta.content.as_deref(), Some("a"));
    assert_eq!(c.choices[0].delta.reasoning_content, None);

    let c = chunk_for_event(ChatCompletionEvent::Finish("length".to_string()), "id1", 7, ChatModel::DeepSeekV3);
    assert_eq!(c.choices[0].finish_reason.as_deref(), Some("length"));
    assert_eq!(c.choices[0].delta.content, None);

    let c = chunk_for_event(ChatCompletionEvent::Error("boom".to_string()), "id1", 7, ChatModel::DeepSeekV3);
    assert_eq!(c.choices[0].finish_reason.as_deref(), Some("boom"));
}
