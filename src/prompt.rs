use vstd::prelude::*;
use vstd::string::StringExecFns;
use crate::error::ChatError;
use crate::text::{trim_text, trimmed};

verus! {

/// One turn of a conversation.
#[derive(Clone, Debug)]
pub struct ChatMessage {
    pub role: String,
    pub content: Option<String>,
    pub reasoning_content: Option<String>,
}

/// The ordered turns of a conversation.
#[derive(Clone, Debug)]
pub struct ChatMessages(pub Vec<ChatMessage>);

/// A message's content, or the empty text where it has none.
pub open spec fn content_text(m: ChatMessage) -> Seq<char> {
    match m.content {
        Some(c) => c@,
        None => Seq::empty(),
    }
}

/// The block that renders one message of a multi-turn prompt: a `#[role]`
/// header line, the content line, and a blank separator line.
pub open spec fn turn_block(m: ChatMessage) -> Seq<char> {
    "#["@ + trimmed(m.role@) + "]\n"@ + trimmed(content_text(m)) + "\n\n"@
}

/// The blocks of all messages, concatenated in order.
pub open spec fn turn_blocks(ms: Seq<ChatMessage>) -> Seq<char>
    decreases ms.len(),
{
    if ms.len() == 0 {
        Seq::empty()
    } else {
        turn_blocks(ms.drop_last()) + turn_block(ms.last())
    }
}

/// The prompt for a conversation: none for no message, a single message's
/// content verbatim, otherwise one trimmed block per message.
pub open spec fn prompt_of(ms: Seq<ChatMessage>) -> Result<Seq<char>, ChatError> {
    if ms.len() == 0 {
        Err(ChatError::EmptyConversation)
    } else if ms.len() == 1 {
        Ok(content_text(ms[0]))
    } else {
        Ok(turn_blocks(ms))
    }
}

pub open spec fn text_result(r: Result<String, ChatError>) -> Result<Seq<char>, ChatError> {
    match r {
        Ok(s) => Ok(s@),
        Err(e) => Err(e),
    }
}

impl ChatMessages {
    /// Folds the conversation into the single prompt sent upstream.
    pub fn compose(&self) -> (r: Result<String, ChatError>)
        ensures
            text_result(r) == prompt_of(self.0@),
    {
        let n = self.0.len();
        if n == 0 {
            return Err(ChatError::EmptyConversation);
        }
        if n == 1 {
            return match &self.0[0].content {
                Some(c) => Ok(c.clone()),
                None => Ok(String::new()),
            };
        }
        let mut out = String::new();
        let mut i: usize = 0;
        while i < n
            invariant
                n == self.0@.len(),
                i <= n,
                out@ == turn_blocks(self.0@.take(i as int)),
            decreases n - i,
        {
            let item = &self.0[i];
            let role = trim_text(item.role.as_str());
            let content = match &item.content {
                Some(c) => trim_text(c.as_str()),
                None => {
                    let empty = String::new();
                    trim_text(empty.as_str())
                },
            };
            out.append("#[");
            out.append(role.as_str());
            out.append("]\n");
            out.append(content.as_str());
            out.append("\n\n");
            assert(self.0@.take(i + 1).drop_last() =~= self.0@.take(i as int));
            assert(out@ =~= turn_blocks(self.0@.take(i as int)) + turn_block(self.0@[i as int]));
            i = i + 1;
        }
        assert(self.0@.take(n as int) =~= self.0@);
        Ok(out)
    }
}

/// A multi-turn prompt is the concatenation, in input order, of exactly one
/// header block per message, each with trimmed role and trimmed content.
pub proof fn lemma_multi_turn_blocks(ms: Seq<ChatMessage>, i: int)
    requires
        ms.len() >= 2,
        0 <= i < ms.len(),
    ensures
        prompt_of(ms) == Ok::<Seq<char>, ChatError>(turn_blocks(ms)),
        turn_blocks(ms) == turn_blocks(ms.take(i)) + turn_block(ms[i]) + turn_blocks(
            ms.skip(i + 1),
        ),
{
    lemma_blocks_append(ms.take(i + 1), ms.skip(i + 1));
    assert(ms.take(i + 1) + ms.skip(i + 1) =~= ms);
    assert(ms.take(i + 1).drop_last() =~= ms.take(i));
}

/// The blocks of two conversations placed one after the other.
pub proof fn lemma_blocks_append(a: Seq<ChatMessage>, b: Seq<ChatMessage>)
    ensures
        turn_blocks(a + b) == turn_blocks(a) + turn_blocks(b),
    decreases b.len(),
{
    if b.len() == 0 {
        assert(a + b =~= a);
        assert(turn_blocks(a) + Seq::<char>::empty() =~= turn_blocks(a));
    } else {
        lemma_blocks_append(a, b.drop_last());
        assert((a + b).drop_last() =~= a + b.drop_last());
        assert((a + b).last() == b.last());
        assert(turn_blocks(a) + turn_blocks(b.drop_last()) + turn_block(b.last()) =~= turn_blocks(a)
            + (turn_blocks(b.drop_last()) + turn_block(b.last())));
    }
}

} // verus!
