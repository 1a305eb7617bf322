use yuanbao_chat2api::error::ChatError;
use yuanbao_chat2api::prompt::{ChatMessage, ChatMessages};

fn msg(role: &str, content: Option<&str>) -> ChatMessage {
    ChatMessage {
        role: role.to_string(),
        content: content.map(|c| c.to_string()),
        reasoning_content: None,
    }
}

#[test]
fn single_message_is_verbatim() {
    let ms = ChatMessages(vec![msg(" user ", Some("  hello \n"))]);
    assert_eq!(ms.compose(), Ok("  hello \n".to_string()));
}

#[test]
fn single_message_without_content_is_empty() {
    let mut m = msg("user", None);
    m.reasoning_content = Some("ignored".to_string());
    assert_eq!(ChatMessages(vec![m]).compose(), Ok(String::new()));
}

#[test]
fn multi_turn_blocks_are_trimmed_in_order() {
    let ms = ChatMessages(vec![
        msg(" system ", Some("  be brief ")),
        msg("user", Some("\thi\n")),
        msg("assistant", None),
    ]);
    assert_eq!(
        ms.compose(),
        Ok("#[system]\nbe brief\n\n#[user]\nhi\n\n#[assistant]\n\n\n".to_string())
    );
}

#[test]
fn empty_conversation_fails() {
    assert_eq!(ChatMessages(vec![]).compose(), Err(ChatError::EmptyConversation));
}

#[test]
fn multi_turn_trims_unicode_white_space() {
    let ms = ChatMessages(vec![
        msg("\u{3000}user\u{a0}", Some("\u{2003}a b\u{85}")),
        msg("bot", Some("x\u{200b}")),
    ]);
    assert_eq!(ms.compose(), Ok("#[user]\na b\n\n#[bot]\nx\u{200b}\n\n".to_string()));
}
