use vstd::prelude::*;
use crate::error::ChatError;
use crate::text::same_text;

verus! {

/// The chat models that the gateway offers.
#[derive(Clone, Copy, Debug, PartialEq, Eq, Structural)]
pub enum ChatModel {
    DeepSeekV3,
    DeepSeekR1,
}

/// The identifier under which the upstream knows a model.
pub open spec fn upstream_id(m: ChatModel) -> Seq<char> {
    match m {
        ChatModel::DeepSeekV3 => "deep_seek_v3"@,
        ChatModel::DeepSeekR1 => "deep_seek"@,
    }
}

/// The public identifier of a model.
pub open spec fn public_id(m: ChatModel) -> Seq<char> {
    match m {
        ChatModel::DeepSeekV3 => "deepseek-v3"@,
        ChatModel::DeepSeekR1 => "deepseek-r1"@,
    }
}

/// The model that a public identifier names, if any.
pub open spec fn parse_model(s: Seq<char>) -> Result<ChatModel, ChatError> {
    if s == "deepseek-r1"@ {
        Ok(ChatModel::DeepSeekR1)
    } else if s == "deepseek-v3"@ {
        Ok(ChatModel::DeepSeekV3)
    } else {
        Err(ChatError::InvalidModel)
    }
}

impl ChatModel {
    /// Reads a public model identifier.
    pub fn parse(s: &str) -> (r: Result<ChatModel, ChatError>)
        ensures
            r == parse_model(s@),
    {
        if same_text(s, "deepseek-r1") {
            Ok(ChatModel::DeepSeekR1)
        } else if same_text(s, "deepseek-v3") {
            Ok(ChatModel::DeepSeekV3)
        } else {
            Err(ChatError::InvalidModel)
        }
    }

    pub fn as_yuanbao_string(&self) -> (r: String)
        ensures
            r@ == upstream_id(*self),
    {
        match self {
            ChatModel::DeepSeekV3 => String::from_str("deep_seek_v3"),
            ChatModel::DeepSeekR1 => String::from_str("deep_seek"),
        }
    }

    pub fn as_common_string(&self) -> (r: String)
        ensures
            r@ == public_id(*self),
    {
        match self {
            ChatModel::DeepSeekV3 => String::from_str("deepseek-v3"),
            ChatModel::DeepSeekR1 => String::from_str("deepseek-r1"),
        }
    }
}

impl core::str::FromStr for ChatModel {
    type Err = ChatError;

    fn from_str(s: &str) -> (r: Result<ChatModel, ChatError>)
        ensures
            r == parse_model(s@),
    {
        ChatModel::parse(s)
    }
}

/// Each model's public identifier reads back as that model.
pub proof fn lemma_public_id_round_trip(m: ChatModel)
    ensures
        parse_model(public_id(m)) == Ok::<ChatModel, ChatError>(m),
{
    reveal_strlit("deepseek-r1");
    reveal_strlit("deepseek-v3");
    assert("deepseek-r1"@[10] != "deepseek-v3"@[10]);
}

/// Exactly the two public identifiers are accepted; any other text is an
/// invalid model.
pub proof fn lemma_parse_accepts_only_public_ids(s: Seq<char>)
    ensures
        parse_model(s) is Ok <==> (s == public_id(ChatModel::DeepSeekV3) || s == public_id(
            ChatModel::DeepSeekR1,
        )),
        !(parse_model(s) is Ok) ==> parse_model(s) == Err::<ChatModel, ChatError>(
            ChatError::InvalidModel,
        ),
{
}

} // verus!
