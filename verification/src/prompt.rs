//! The prompt that a conversation is sent as.
//!
//! Ollama's generate endpoint takes one string. Each message becomes its
//! speaker's name, its text and an empty line; a final cue hands the turn to
//! the model.
use vstd::prelude::*;

use crate::error::{ErrorDetails, ProviderError};
use crate::types::{ContentBlock, RequestMessage, Role};

#[allow(unused_imports)]
use crate::error::ErrorView;
#[allow(unused_imports)]
use crate::types::{messages_view, RequestMessageView};

verus! {

/// The words that open a message of the given role.
pub open spec fn role_prefix(role: Role) -> Seq<char> {
    match role {
        Role::User => "User: "@,
        Role::Assistant => "Assistant: "@,
    }
}

/// What a block adds to the prompt: its text and a line break. A thought adds
/// nothing.
pub open spec fn block_text(block: ContentBlock) -> Seq<char> {
    match block {
        ContentBlock::Text(text) => text.text@ + "\n"@,
        _ => Seq::empty(),
    }
}

/// What the blocks of a message add to the prompt, in their order.
pub open spec fn content_text(content: Seq<ContentBlock>) -> Seq<char>
    decreases content.len(),
{
    if content.len() == 0 {
        Seq::empty()
    } else {
        content_text(content.drop_last()) + block_text(content.last())
    }
}

/// What a message adds to the prompt.
pub open spec fn message_text(message: RequestMessageView) -> Seq<char> {
    role_prefix(message.role) + content_text(message.content) + "\n"@
}

/// What the messages of a conversation add to the prompt, in their order.
pub open spec fn conversation_text(messages: Seq<RequestMessageView>) -> Seq<char>
    decreases messages.len(),
{
    if messages.len() == 0 {
        Seq::empty()
    } else {
        conversation_text(messages.drop_last()) + message_text(messages.last())
    }
}

/// The prompt of a conversation: its messages, then the cue for the model.
pub open spec fn prompt_text(messages: Seq<RequestMessageView>) -> Seq<char> {
    conversation_text(messages) + "Assistant: "@
}

/// Why a block cannot be sent, if it cannot.
pub open spec fn block_refusal(block: ContentBlock) -> Option<Seq<char>> {
    match block {
        ContentBlock::Text(_) => None,
        ContentBlock::ToolCall(_) => Some("Tool calls not supported in Ollama"@),
        ContentBlock::ToolResult(_) => Some("Tool results not supported in Ollama"@),
        ContentBlock::Image(_) => Some("Images not supported in Ollama"@),
        ContentBlock::Thought(_) => None,
        ContentBlock::Unknown { .. } => Some("Unknown content block not supported in Ollama"@),
    }
}

/// Why the first block that cannot be sent cannot be, if there is one.
pub open spec fn content_refusal(content: Seq<ContentBlock>) -> Option<Seq<char>>
    decreases content.len(),
{
    if content.len() == 0 {
        None
    } else {
        match content_refusal(content.drop_last()) {
            Some(why) => Some(why),
            None => block_refusal(content.last()),
        }
    }
}

/// Why the first block of a conversation that cannot be sent cannot be, if
/// there is one.
pub open spec fn conversation_refusal(messages: Seq<RequestMessageView>) -> Option<Seq<char>>
    decreases messages.len(),
{
    if messages.len() == 0 {
        None
    } else {
        match conversation_refusal(messages.drop_last()) {
            Some(why) => Some(why),
            None => content_refusal(messages.last().content),
        }
    }
}

/// The first refusal of some messages is the first refusal of any longer list
/// that starts with them.
proof fn lemma_conversation_refusal_prefix(messages: Seq<RequestMessageView>, n: int)
    requires
        0 <= n <= messages.len(),
        conversation_refusal(messages.take(n)) is Some,
    ensures
        conversation_refusal(messages) == conversation_refusal(messages.take(n)),
    decreases messages.len(),
{
    if n == messages.len() {
        assert(messages.take(n) =~= messages);
    } else {
        assert(messages.drop_last().take(n) =~= messages.take(n));
        lemma_conversation_refusal_prefix(messages.drop_last(), n);
    }
}

/// The first refusal of some blocks is the first refusal of any longer list
/// that starts with them.
proof fn lemma_content_refusal_prefix(content: Seq<ContentBlock>, n: int)
    requires
        0 <= n <= content.len(),
        content_refusal(content.take(n)) is Some,
    ensures
        content_refusal(content) == content_refusal(content.take(n)),
    decreases content.len(),
{
    if n == content.len() {
        assert(content.take(n) =~= content);
    } else {
        assert(content.drop_last().take(n) =~= content.take(n));
        lemma_content_refusal_prefix(content.drop_last(), n);
    }
}

/// The error that refuses a conversation.
fn refusal(why: &str) -> (error: ProviderError)
    ensures
        error@ == (ErrorView::InvalidMessage { message: why@ }),
{
    ProviderError::new(ErrorDetails::InvalidMessage { message: why.to_string() })
}

/// Appends what one block adds to the prompt.
fn push_block(prompt: &mut String, block: &ContentBlock) -> (result: Result<(), ProviderError>)
    ensures
        result is Ok <==> block_refusal(*block) is None,
        result is Ok ==> final(prompt)@ == old(prompt)@ + block_text(*block),
        result matches Err(e) ==> e@ == (ErrorView::InvalidMessage {
            message: block_refusal(*block)->0,
        }),
{
    match block {
        ContentBlock::Text(text) => {
            prompt.append(text.text.as_str());
            prompt.append("\n");
            Ok(())
        },
        ContentBlock::ToolCall(_) => Err(refusal("Tool calls not supported in Ollama")),
        ContentBlock::ToolResult(_) => Err(refusal("Tool results not supported in Ollama")),
        ContentBlock::Image(_) => Err(refusal("Images not supported in Ollama")),
        // A thought stays with the model that had it.
        ContentBlock::Thought(_) => Ok(()),
        ContentBlock::Unknown { .. } => Err(
            refusal("Unknown content block not supported in Ollama"),
        ),
    }
}

/// Appends what the blocks of one message add to the prompt.
fn push_content(prompt: &mut String, content: &Vec<ContentBlock>) -> (result: Result<(), ProviderError>)
    ensures
        result is Ok <==> content_refusal(content@) is None,
        result is Ok ==> final(prompt)@ == old(prompt)@ + content_text(content@),
        result matches Err(e) ==> e@ == (ErrorView::InvalidMessage {
            message: content_refusal(content@)->0,
        }),
{
    let ghost start = prompt@;
    for j in 0..content.len()
        invariant
            content_refusal(content@.take(j as int)) is None,
            prompt@ == start + content_text(content@.take(j as int)),
    {
        proof {
            assert(content@.take(j + 1).drop_last() =~= content@.take(j as int));
            assert(content@.take(j + 1).last() == content@[j as int]);
        }
        match push_block(prompt, &content[j]) {
            Ok(()) => {},
            Err(error) => {
                proof {
                    lemma_content_refusal_prefix(content@, j + 1);
                }
                return Err(error);
            },
        }
        proof {
            assert(prompt@ =~= start + content_text(content@.take(j + 1)));
        }
    }
    proof {
        assert(content@.take(content@.len() as int) =~= content@);
    }
    Ok(())
}

/// Combines the messages of a conversation into a single prompt. A
/// conversation with a block that Ollama cannot be sent is refused as a whole,
/// for the first such block.
pub fn format_messages_as_prompt(messages: &[RequestMessage]) -> (result: Result<String, ProviderError>)
    ensures
        result is Ok <==> conversation_refusal(messages_view(messages@)) is None,
        result matches Ok(prompt) ==> prompt@ == prompt_text(messages_view(messages@)),
        result matches Err(e) ==> e@ == (ErrorView::InvalidMessage {
            message: conversation_refusal(messages_view(messages@))->0,
        }),
{
    let mut prompt = String::new();
    let ghost all = messages_view(messages@);
    for i in 0..messages.len()
        invariant
            all == messages_view(messages@),
            conversation_refusal(all.take(i as int)) is None,
            prompt@ == conversation_text(all.take(i as int)),
    {
        proof {
            assert(all.take(i + 1).drop_last() =~= all.take(i as int));
            assert(all.take(i + 1).last() == messages@[i as int]@);
        }
        match messages[i].role {
            Role::User => prompt.append("User: "),
            Role::Assistant => prompt.append("Assistant: "),
        }
        match push_content(&mut prompt, &messages[i].content) {
            Ok(()) => {},
            Err(error) => {
                proof {
                    lemma_conversation_refusal_prefix(all, i + 1);
                }
                return Err(error);
            },
        }
        prompt.append("\n");
        proof {
            assert(prompt@ =~= conversation_text(all.take(i + 1)));
        }
    }
    proof {
        assert(all.take(all.len() as int) =~= all);
    }
    prompt.append("Assistant: ");
    Ok(prompt)
}

/// The text of blocks that follow each other is the one text after the other,
/// and the first refusal is that of the first part, if it has one.
pub(crate) proof fn lemma_content_concat(first: Seq<ContentBlock>, second: Seq<ContentBlock>)
    ensures
        content_text(first + second) == content_text(first) + content_text(second),
        content_refusal(first + second) == (match content_refusal(first) {
            Some(why) => Some(why),
            None => content_refusal(second),
        }),
    decreases second.len(),
{
    if second.len() == 0 {
        assert(first + second =~= first);
        assert(content_text(first) + content_text(second) =~= content_text(first));
    } else {
        lemma_content_concat(first, second.drop_last());
        assert((first + second).drop_last() =~= first + second.drop_last());
        assert((first + second).last() == second.last());
        assert(content_text(first + second) =~= content_text(first) + content_text(second));
    }
}

/// Blocks are accepted together if and only if each of them is.
proof fn lemma_content_accepted(content: Seq<ContentBlock>)
    ensures
        content_refusal(content) is None <==> forall|j: int|
            0 <= j < content.len() ==> block_refusal(#[trigger] content[j]) is None,
    decreases content.len(),
{
    if content.len() > 0 {
        let start = content.drop_last();
        lemma_content_accepted(start);
        if content_refusal(content) is None {
            assert forall|j: int| 0 <= j < content.len() implies block_refusal(
                #[trigger] content[j],
            ) is None by {
                if j < start.len() {
                    assert(start[j] == content[j]);
                } else {
                    assert(content[j] == content.last());
                }
            }
        }
        if forall|j: int| 0 <= j < content.len() ==> block_refusal(#[trigger] content[j]) is None {
            assert forall|j: int| 0 <= j < start.len() implies block_refusal(
                #[trigger] start[j],
            ) is None by {
                assert(start[j] == content[j]);
            }
            assert(content.last() == content[content.len() - 1]);
        }
    }
}

/// Whether every block of every message is text or a thought.
pub open spec fn is_plain_conversation(messages: Seq<RequestMessageView>) -> bool {
    forall|i: int, j: int|
        0 <= i < messages.len() && 0 <= j < messages[i].content.len() ==> {
            ||| #[trigger] messages[i].content[j] is Text
            ||| messages[i].content[j] is Thought
        }
}

/// A conversation is accepted if and only if it holds nothing but text and
/// thoughts.
pub proof fn law_accepted_iff_plain(messages: Seq<RequestMessageView>)
    ensures
        conversation_refusal(messages) is None <==> is_plain_conversation(messages),
    decreases messages.len(),
{
    if messages.len() > 0 {
        let start = messages.drop_last();
        let last = messages.last();
        law_accepted_iff_plain(start);
        lemma_content_accepted(last.content);
        assert(last == messages[messages.len() - 1]);
        if conversation_refusal(messages) is None {
            assert forall|i: int, j: int|
                0 <= i < messages.len() && 0 <= j < messages[i].content.len() implies {
                ||| #[trigger] messages[i].content[j] is Text
                ||| messages[i].content[j] is Thought
            } by {
                if i < start.len() {
                    assert(start[i] == messages[i]);
                    assert(start[i].content[j] is Text || start[i].content[j] is Thought);
                } else {
                    assert(block_refusal(last.content[j]) is None);
                }
            }
        }
        if is_plain_conversation(messages) {
            assert forall|i: int, j: int|
                0 <= i < start.len() && 0 <= j < start[i].content.len() implies {
                ||| #[trigger] start[i].content[j] is Text
                ||| start[i].content[j] is Thought
            } by {
                assert(start[i] == messages[i]);
                assert(messages[i].content[j] is Text || messages[i].content[j] is Thought);
            }
            assert forall|j: int| 0 <= j < last.content.len() implies block_refusal(
                #[trigger] last.content[j],
            ) is None by {
                assert(messages[messages.len() - 1].content[j] is Text
                    || messages[messages.len() - 1].content[j] is Thought);
            }
        }
    }
}

/// A conversation is refused for its first block that cannot be sent, whatever
/// follows that block.
pub proof fn law_first_refused_block_decides(
    messages: Seq<RequestMessageView>,
    i: int,
    j: int,
)
    requires
        0 <= i < messages.len(),
        0 <= j < messages[i].content.len(),
        block_refusal(messages[i].content[j]) is Some,
        is_plain_conversation(messages.take(i)),
        forall|k: int| 0 <= k < j ==> block_refusal(#[trigger] messages[i].content[k]) is None,
    ensures
        conversation_refusal(messages) == block_refusal(messages[i].content[j]),
{
    let content = messages[i].content;
    law_accepted_iff_plain(messages.take(i));
    assert forall|k: int| 0 <= k < content.take(j).len() implies block_refusal(
        #[trigger] content.take(j)[k],
    ) is None by {
        assert(content.take(j)[k] == content[k]);
    }
    lemma_content_accepted(content.take(j));
    assert(content.take(j + 1).drop_last() =~= content.take(j));
    assert(content.take(j + 1).last() == content[j]);
    lemma_content_refusal_prefix(content, j + 1);
    assert(messages.take(i + 1).drop_last() =~= messages.take(i));
    assert(messages.take(i + 1).last() == messages[i]);
    lemma_conversation_refusal_prefix(messages, i + 1);
}

/// The text of a conversation is that of its first part, then that of the rest,
/// and the first part decides on a refusal before the rest does. So a
/// conversation that goes on only adds to its prompt, before the cue.
pub proof fn law_conversation_continues(
    first: Seq<RequestMessageView>,
    second: Seq<RequestMessageView>,
)
    ensures
        conversation_text(first + second) == conversation_text(first) + conversation_text(second),
        prompt_text(first + second) == conversation_text(first) + prompt_text(second),
        conversation_refusal(first + second) == (match conversation_refusal(first) {
            Some(why) => Some(why),
            None => conversation_refusal(second),
        }),
    decreases second.len(),
{
    if second.len() == 0 {
        assert(first + second =~= first);
        assert(conversation_text(first) + conversation_text(second) =~= conversation_text(first));
    } else {
        law_conversation_continues(first, second.drop_last());
        assert((first + second).drop_last() =~= first + second.drop_last());
        assert((first + second).last() == second.last());
        assert(conversation_text(first + second) =~= conversation_text(first) + conversation_text(
            second,
        ));
    }
    assert(prompt_text(first + second) =~= conversation_text(first) + prompt_text(second));
}

/// A thought leaves no trace: with one put in anywhere, a message adds the same
/// text to the prompt and is refused for the same reason, if for any.
pub proof fn law_thought_leaves_no_trace(
    before: Seq<RequestMessageView>,
    message: RequestMessageView,
    after: Seq<RequestMessageView>,
    j: int,
    thought: ContentBlock,
)
    requires
        0 <= j <= message.content.len(),
        thought is Thought,
    ensures
        ({
            let thoughtful = RequestMessageView {
                role: message.role,
                content: message.content.insert(j, thought),
            };
            &&& prompt_text(before + seq![thoughtful] + after) == prompt_text(
                before + seq![message] + after,
            )
            &&& conversation_refusal(before + seq![thoughtful] + after) == conversation_refusal(
                before + seq![message] + after,
            )
        }),
{
    let content = message.content;
    let thoughtful = RequestMessageView {
        role: message.role,
        content: content.insert(j, thought),
    };
    let head = content.take(j);
    let tail = content.skip(j);
    assert(content =~= head + tail);
    assert(content.insert(j, thought) =~= head + (seq![thought] + tail));
    assert(content_text(seq![thought]) =~= Seq::<char>::empty()) by {
        assert(seq![thought].drop_last() =~= Seq::<ContentBlock>::empty());
        reveal_with_fuel(content_text, 2);
    }
    assert(content_refusal(seq![thought]) is None) by {
        assert(seq![thought].drop_last() =~= Seq::<ContentBlock>::empty());
        reveal_with_fuel(content_refusal, 2);
    }
    lemma_content_concat(head, tail);
    lemma_content_concat(seq![thought], tail);
    lemma_content_concat(head, seq![thought] + tail);
    assert(content_text(seq![thought]) + content_text(tail) =~= content_text(tail));
    assert(content_text(thoughtful.content) == content_text(content));
    assert(content_refusal(thoughtful.content) == content_refusal(content));
    lemma_single_message(message);
    lemma_single_message(thoughtful);
    law_conversation_continues(before, seq![message]);
    law_conversation_continues(before, seq![thoughtful]);
    law_conversation_continues(before + seq![message], after);
    law_conversation_continues(before + seq![thoughtful], after);
}

/// A conversation of one message.
pub(crate) proof fn lemma_single_message(message: RequestMessageView)
    ensures
        conversation_text(seq![message]) == message_text(message),
        conversation_refusal(seq![message]) == content_refusal(message.content),
{
    let single = seq![message];
    assert(single.drop_last() =~= Seq::<RequestMessageView>::empty());
    assert(single.last() == message);
    assert(conversation_text(single.drop_last()) =~= Seq::<char>::empty());
    assert(conversation_text(single) =~= message_text(message));
    assert(conversation_refusal(single.drop_last()) is None);
}

/// Every prompt ends with the cue that hands the turn to the model.
pub proof fn law_prompt_ends_with_cue(messages: Seq<RequestMessageView>)
    ensures
        "Assistant: "@.is_suffix_of(prompt_text(messages)),
{
    let cue = "Assistant: "@;
    let prompt = prompt_text(messages);
    assert(prompt.subrange(prompt.len() - cue.len(), prompt.len() as int) =~= cue);
}

} // verus!
