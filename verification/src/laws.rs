//! What the operations of the library promise to those who call them.
//!
//! Each law speaks of calls: of what goes into them and what comes out, and of
//! how the outcomes of two calls relate.
use core::time::Duration;
use serde_json::Value;
use url::Url;
use vstd::prelude::*;

#[allow(unused_imports)]
use crate::credentials::{
    default_api_key_location, Credential, CredentialLocation, InferenceCredentials,
    OllamaCredentials,
};
#[allow(unused_imports)]
use crate::endpoint::{can_be_slashed, get_generate_url, get_request_url, lemma_web};
#[allow(unused_imports)]
use crate::error::{ErrorDetails, ErrorView, ProviderError};
#[allow(unused_imports)]
use crate::failure::{convert_stream_error, handle_ollama_error, StreamFailure};
#[allow(unused_imports)]
use crate::outside::{
    cannot_be_a_base, has_dot_segment, json_text, text_before_path, unescaped_count,
    url_error_text, url_fragment, url_join, url_path, url_query, url_text, url_with_path,
};
#[allow(unused_imports)]
use crate::prompt::{
    content_refusal, content_text, conversation_text, format_messages_as_prompt,
    law_accepted_iff_plain, law_conversation_continues, lemma_content_concat,
    lemma_single_message,
};
#[allow(unused_imports)]
use crate::provider::{
    BodyFailure, InferDraft, InferParsing, InferReading, InferSending, OllamaProvider, SendFailure,
    StreamDraft, StreamOpening,
};
#[allow(unused_imports)]
use crate::request::OllamaRequest;
#[allow(unused_imports)]
use crate::response::{
    report_exchange, ContentBlockOutput, Latency, OllamaResponse, OllamaResponseWithMetadata,
    ProviderInferenceResponse,
};
#[allow(unused_imports)]
use crate::status::StatusCode;
#[allow(unused_imports)]
use crate::stream::{
    completes, is_incomplete, item_of_event, items_of, law_closed_stream_is_silent,
    law_counts_are_last_reported, law_stream_continues, new_stream, state_after, stream_ollama,
    ChunkView, ContentBlockChunk, OllamaStream, ProviderInferenceResponseChunk, StreamEvent,
};
#[allow(unused_imports)]
use crate::types::{
    messages_view, ContentBlock, ModelInferenceRequest, RequestMessage, RequestMessageView, Role,
    Text,
};

verus! {

/// A conversation without messages is sent as the cue for the model alone.
pub proof fn law_empty_prompt(messages: &[RequestMessage], result: Result<String, ProviderError>)
    requires
        call_ensures(format_messages_as_prompt, (messages,), result),
        messages@.len() == 0,
    ensures
        result matches Ok(prompt) && prompt@ == "Assistant: "@,
{
    assert(messages_view(messages@) =~= Seq::<RequestMessageView>::empty());
}

/// A message that is added to a conversation stands at the end of its prompt,
/// before the cue: first the words for its speaker, then, as long as it has no
/// content, only a line break. A conversation that was refused still is, for
/// the same reason.
pub proof fn law_message_is_added(
    messages: &[RequestMessage],
    longer: &[RequestMessage],
    before: Result<String, ProviderError>,
    after: Result<String, ProviderError>,
)
    requires
        call_ensures(format_messages_as_prompt, (messages,), before),
        call_ensures(format_messages_as_prompt, (longer,), after),
        longer@.len() > 0,
        longer@.drop_last() == messages@,
        longer@.last().content@.len() == 0,
    ensures
        match before {
            Ok(prompt) => after matches Ok(next) && {
                let start = prompt@.take(prompt@.len() - "Assistant: "@.len());
                let words = match longer@.last().role {
                    Role::User => "User: "@,
                    Role::Assistant => "Assistant: "@,
                };
                &&& prompt@ == start + "Assistant: "@
                &&& next@ == start + words + "\n"@ + "Assistant: "@
            },
            Err(error) => {
                &&& error.details matches ErrorDetails::InvalidMessage { message: why }
                &&& after matches Err(e)
                &&& e.details matches ErrorDetails::InvalidMessage { message }
                &&& message@ == why@
            },
        },
{
    let all = messages_view(longer@);
    assert(all.drop_last() =~= messages_view(messages@));
    assert(all.last().content.len() == 0);
    if let Ok(prompt) = before {
        let start = conversation_text(messages_view(messages@));
        assert(prompt@.take(prompt@.len() - "Assistant: "@.len()) =~= start);
        let next = after->Ok_0;
        let words = match longer@.last().role {
            Role::User => "User: "@,
            Role::Assistant => "Assistant: "@,
        };
        assert(next@ =~= start + words + "\n"@ + "Assistant: "@);
    }
}

/// A block that is added to the last message of a conversation stands at the
/// end of that message in the prompt: a text as it is, with a line break, and a
/// thought not at all. Any other block has the conversation refused, in words
/// for its kind. A conversation that was refused still is, for the same reason.
pub proof fn law_block_is_added(
    messages: &[RequestMessage],
    longer: &[RequestMessage],
    before: Result<String, ProviderError>,
    after: Result<String, ProviderError>,
    block: ContentBlock,
)
    requires
        call_ensures(format_messages_as_prompt, (messages,), before),
        call_ensures(format_messages_as_prompt, (longer,), after),
        messages@.len() > 0,
        longer@.len() == messages@.len(),
        longer@.drop_last() == messages@.drop_last(),
        longer@.last().role == messages@.last().role,
        longer@.last().content@ == messages@.last().content@.push(block),
    ensures
        match before {
            Ok(prompt) => match block {
                ContentBlock::Text(text) => after matches Ok(next) && {
                    let start = prompt@.take(prompt@.len() - "Assistant: "@.len() - "\n"@.len());
                    &&& prompt@ == start + "\n"@ + "Assistant: "@
                    &&& next@ == start + text.text@ + "\n"@ + "\n"@ + "Assistant: "@
                },
                ContentBlock::Thought(_) => after matches Ok(next) && next@ == prompt@,
                ContentBlock::ToolCall(_) => {
                    &&& after matches Err(e)
                    &&& e.details matches ErrorDetails::InvalidMessage { message }
                    &&& message@ == "Tool calls not supported in Ollama"@
                },
                ContentBlock::ToolResult(_) => {
                    &&& after matches Err(e)
                    &&& e.details matches ErrorDetails::InvalidMessage { message }
                    &&& message@ == "Tool results not supported in Ollama"@
                },
                ContentBlock::Image(_) => {
                    &&& after matches Err(e)
                    &&& e.details matches ErrorDetails::InvalidMessage { message }
                    &&& message@ == "Images not supported in Ollama"@
                },
                ContentBlock::Unknown { .. } => {
                    &&& after matches Err(e)
                    &&& e.details matches ErrorDetails::InvalidMessage { message }
                    &&& message@ == "Unknown content block not supported in Ollama"@
                },
            },
            Err(error) => {
                &&& error.details matches ErrorDetails::InvalidMessage { message: why }
                &&& after matches Err(e)
                &&& e.details matches ErrorDetails::InvalidMessage { message }
                &&& message@ == why@
            },
        },
{
    let all = messages_view(messages@);
    let more = messages_view(longer@);
    assert(all.drop_last() =~= messages_view(messages@.drop_last()));
    assert(more.drop_last() =~= messages_view(longer@.drop_last()));
    assert(all.last() == messages@.last()@);
    assert(more.last() == longer@.last()@);
    assert(more.last().content.drop_last() =~= all.last().content);
    assert(more.last().content.last() == block);
    if let Ok(prompt) = before {
        let words = match messages@.last().role {
            Role::User => "User: "@,
            Role::Assistant => "Assistant: "@,
        };
        let start = conversation_text(all.drop_last()) + words + content_text(all.last().content);
        assert(prompt@ =~= start + "\n"@ + "Assistant: "@);
        assert(prompt@.take(prompt@.len() - "Assistant: "@.len() - "\n"@.len()) =~= start);
        if let Ok(next) = after {
            if let ContentBlock::Text(text) = block {
                assert(next@ =~= start + text.text@ + "\n"@ + "\n"@ + "Assistant: "@);
            } else {
                assert(next@ =~= prompt@);
            }
        }
    }
}

/// A conversation of one message with one text is sent as the words for its
/// speaker, the whole text, an empty line and the cue.
pub proof fn law_single_text_is_whole(
    messages: &[RequestMessage],
    text: Text,
    result: Result<String, ProviderError>,
)
    requires
        call_ensures(format_messages_as_prompt, (messages,), result),
        messages@.len() == 1,
        messages@[0].content@ == seq![ContentBlock::Text(text)],
    ensures
        result matches Ok(prompt) && prompt@ == (match messages@[0].role {
            Role::User => "User: "@,
            Role::Assistant => "Assistant: "@,
        }) + text.text@ + "\n\n"@ + "Assistant: "@,
{
    reveal_strlit("\n");
    reveal_strlit("\n\n");
    let all = messages_view(messages@);
    let content = messages@[0].content@;
    assert(all =~= seq![messages@[0]@]);
    lemma_single_message(messages@[0]@);
    assert(content.drop_last() =~= Seq::<ContentBlock>::empty());
    assert(content.last() == ContentBlock::Text(text));
    reveal_with_fuel(content_text, 2);
    reveal_with_fuel(content_refusal, 2);
    assert(content_text(content) =~= text.text@ + "\n"@);
    if let Ok(prompt) = result {
        assert(prompt@ =~= (match messages@[0].role {
            Role::User => "User: "@,
            Role::Assistant => "Assistant: "@,
        }) + text.text@ + "\n\n"@ + "Assistant: "@);
    }
}

/// A conversation has a prompt exactly if every block of it is text or a
/// thought.
pub proof fn law_prompt_iff_text_and_thoughts(
    messages: &[RequestMessage],
    result: Result<String, ProviderError>,
)
    requires
        call_ensures(format_messages_as_prompt, (messages,), result),
    ensures
        result is Ok <==> forall|i: int, j: int|
            0 <= i < messages@.len() && 0 <= j < messages@[i].content@.len() ==> {
                ||| #[trigger] messages@[i].content@[j] is Text
                ||| messages@[i].content@[j] is Thought
            },
{
    let all = messages_view(messages@);
    law_accepted_iff_plain(all);
    assert forall|i: int, j: int|
        0 <= i < all.len() && 0 <= j < all[i].content.len() implies #[trigger] all[i].content[j]
        == messages@[i].content@[j] by {}
    if result is Ok {
        assert forall|i: int, j: int|
            0 <= i < messages@.len() && 0 <= j < messages@[i].content@.len() implies {
            ||| #[trigger] messages@[i].content@[j] is Text
            ||| messages@[i].content@[j] is Thought
        } by {
            assert(all[i].content[j] is Text || all[i].content[j] is Thought);
        }
    }
}

/// The text of some blocks, around one of them.
proof fn lemma_content_around(content: Seq<ContentBlock>, j: int, text: Text)
    requires
        0 <= j < content.len(),
        content[j] == ContentBlock::Text(text),
    ensures
        content_text(content) == content_text(content.take(j)) + text.text@ + "\n"@ + content_text(
            content.skip(j + 1),
        ),
{
    let first = content.take(j + 1);
    assert(content =~= first + content.skip(j + 1));
    lemma_content_concat(first, content.skip(j + 1));
    assert(first.drop_last() =~= content.take(j));
    assert(first.last() == content[j]);
    assert(content_text(content) =~= content_text(content.take(j)) + text.text@ + "\n"@
        + content_text(content.skip(j + 1)));
}

/// The text of a conversation, around one of its messages.
proof fn lemma_conversation_around(messages: Seq<RequestMessageView>, i: int)
    requires
        0 <= i < messages.len(),
    ensures
        conversation_text(messages) == conversation_text(messages.take(i)) + (
        match messages[i].role {
            Role::User => "User: "@,
            Role::Assistant => "Assistant: "@,
        }) + content_text(messages[i].content) + "\n"@ + conversation_text(messages.skip(i + 1)),
{
    let first = messages.take(i + 1);
    assert(messages =~= first + messages.skip(i + 1));
    law_conversation_continues(first, messages.skip(i + 1));
    assert(first.drop_last() =~= messages.take(i));
    assert(first.last() == messages[i]);
    assert(conversation_text(messages) =~= conversation_text(messages.take(i)) + (
    match messages[i].role {
        Role::User => "User: "@,
        Role::Assistant => "Assistant: "@,
    }) + content_text(messages[i].content) + "\n"@ + conversation_text(messages.skip(i + 1)));
}

/// Texts can be put together in any grouping.
proof fn lemma_concat(a: Seq<char>, b: Seq<char>, c: Seq<char>)
    ensures
        a + b + c == a + (b + c),
{
    assert(a + b + c =~= a + (b + c));
}

/// What follows a block in the prompt: the rest of its message, the rest of the
/// conversation, and the cue.
spec fn text_after(messages: Seq<RequestMessageView>, i: int, j: int) -> Seq<char> {
    content_text(messages[i].content.skip(j + 1)) + ("\n"@ + (conversation_text(
        messages.skip(i + 1),
    ) + "Assistant: "@))
}

/// A text block stands in the text of its conversation, before what follows it.
proof fn lemma_text_stands(messages: Seq<RequestMessageView>, i: int, j: int, text: Text) -> (before:
    Seq<char>)
    requires
        0 <= i < messages.len(),
        0 <= j < messages[i].content.len(),
        messages[i].content[j] == ContentBlock::Text(text),
    ensures
        conversation_text(messages) + "Assistant: "@ == before + (text.text@ + "\n"@) + text_after(
            messages,
            i,
            j,
        ),
{
    let content = messages[i].content;
    let opening = conversation_text(messages.take(i)) + (match messages[i].role {
        Role::User => "User: "@,
        Role::Assistant => "Assistant: "@,
    });
    let line = text.text@ + "\n"@;
    let head = content_text(content.take(j));
    let rest = content_text(content.skip(j + 1));
    let tail = conversation_text(messages.skip(i + 1));
    lemma_conversation_around(messages, i);
    lemma_content_around(content, j, text);
    lemma_concat(head, text.text@, "\n"@);
    assert(content_text(content) == head + line + rest);
    lemma_concat(opening, head + line, rest);
    lemma_concat(opening, head, line);
    let start = opening + head + line;
    assert(conversation_text(messages) == start + rest + "\n"@ + tail);
    lemma_concat(start + rest + "\n"@, tail, "Assistant: "@);
    lemma_concat(start + rest, "\n"@, tail + "Assistant: "@);
    lemma_concat(start, rest, "\n"@ + (tail + "Assistant: "@));
    opening + head
}

/// A later text block stands in what follows an earlier one.
proof fn lemma_later_text_stands(
    messages: Seq<RequestMessageView>,
    i: int,
    j: int,
    k: int,
    l: int,
    later: Text,
) -> (parts: (Seq<char>, Seq<char>))
    requires
        0 <= i <= k < messages.len(),
        0 <= j < messages[i].content.len(),
        0 <= l < messages[k].content.len(),
        i < k || j < l,
        messages[k].content[l] == ContentBlock::Text(later),
    ensures
        text_after(messages, i, j) == parts.0 + (later.text@ + "\n"@) + parts.1,
{
    let line = later.text@ + "\n"@;
    let rest = messages[i].content.skip(j + 1);
    let tail = messages.skip(i + 1);
    if i == k {
        assert(rest[l - j - 1] == messages[i].content[l]);
        lemma_content_around(rest, l - j - 1, later);
        let between = content_text(rest.take(l - j - 1));
        let behind = content_text(rest.skip(l - j));
        let end = "\n"@ + (conversation_text(tail) + "Assistant: "@);
        lemma_concat(between, later.text@, "\n"@);
        assert(content_text(rest) == between + line + behind);
        lemma_concat(between + line, behind, end);
        (between, behind + end)
    } else {
        assert(tail[k - i - 1] == messages[k]);
        let before = lemma_text_stands(tail, k - i - 1, l, later);
        let behind = text_after(tail, k - i - 1, l);
        let start = content_text(rest) + "\n"@;
        lemma_concat(content_text(rest), "\n"@, conversation_text(tail) + "Assistant: "@);
        lemma_concat(start, before + line, behind);
        lemma_concat(start, before, line);
        (start + before, behind)
    }
}

/// The whole text of every text block stands in the prompt, and of two such
/// blocks that of the later one stands after that of the earlier one.
pub proof fn law_texts_stand_in_order(
    messages: &[RequestMessage],
    i: int,
    j: int,
    text: Text,
    k: int,
    l: int,
    later: Text,
    result: Result<String, ProviderError>,
)
    requires
        call_ensures(format_messages_as_prompt, (messages,), result),
        0 <= i <= k < messages@.len(),
        0 <= j < messages@[i].content@.len(),
        0 <= l < messages@[k].content@.len(),
        i < k || j < l,
        messages@[i].content@[j] == ContentBlock::Text(text),
        messages@[k].content@[l] == ContentBlock::Text(later),
    ensures
        result matches Ok(prompt) ==> exists|before: Seq<char>, between: Seq<char>, after: Seq<char>|
            prompt@ == #[trigger] (before + (text.text@ + "\n"@) + (between + (later.text@ + "\n"@)
                + after)),
{
    let all = messages_view(messages@);
    if let Ok(prompt) = result {
        assert(all[i].content == messages@[i].content@);
        assert(all[k].content == messages@[k].content@);
        let before = lemma_text_stands(all, i, j, text);
        let (between, after) = lemma_later_text_stands(all, i, j, k, l, later);
        assert(prompt@ == before + (text.text@ + "\n"@) + (between + (later.text@ + "\n"@) + after));
    }
}

/// Each sampling parameter that a request sets stands in the options of its
/// body, and none that it leaves open does. The options are absent exactly if
/// the request sets none.
pub proof fn law_body_has_sampling_parameters<'a, F: Copy>(
    model: &'a str,
    request: &'a ModelInferenceRequest<F>,
    result: Result<OllamaRequest<'a, F>, ProviderError>,
)
    requires
        call_ensures(OllamaRequest::<'a, F>::new, (model, request), result),
        result is Ok,
    ensures
        request.temperature matches Some(value) ==> result->Ok_0.options matches Some(options)
            && options.temperature == Some(value),
        request.top_p matches Some(value) ==> result->Ok_0.options matches Some(options)
            && options.top_p == Some(value),
        request.frequency_penalty matches Some(value) ==> result->Ok_0.options matches Some(options)
            && options.frequency_penalty == Some(value),
        request.presence_penalty matches Some(value) ==> result->Ok_0.options matches Some(options)
            && options.presence_penalty == Some(value),
        request.seed matches Some(value) ==> result->Ok_0.options matches Some(options)
            && options.seed == Some(value),
        request.max_tokens matches Some(value) ==> result->Ok_0.options matches Some(options)
            && options.num_predict == Some(value),
        result->Ok_0.options matches Some(options) ==> {
            &&& request.temperature is None ==> options.temperature is None
            &&& request.top_p is None ==> options.top_p is None
            &&& request.frequency_penalty is None ==> options.frequency_penalty is None
            &&& request.presence_penalty is None ==> options.presence_penalty is None
            &&& request.seed is None ==> options.seed is None
            &&& request.max_tokens is None ==> options.num_predict is None
        },
        result->Ok_0.options is None <==> {
            &&& request.temperature is None
            &&& request.top_p is None
            &&& request.frequency_penalty is None
            &&& request.presence_penalty is None
            &&& request.seed is None
            &&& request.max_tokens is None
        },
{
}

/// The body of a request names the model, and has the system text and the wish
/// for a stream of the request. It asks for JSON exactly if the request does,
/// strictly or not, and for nothing that a request cannot ask for.
pub proof fn law_body_carries_request<'a, F: Copy>(
    model: &'a str,
    request: &'a ModelInferenceRequest<F>,
    result: Result<OllamaRequest<'a, F>, ProviderError>,
)
    requires
        call_ensures(OllamaRequest::<'a, F>::new, (model, request), result),
        result is Ok,
    ensures
        result->Ok_0.model@ == model@,
        result->Ok_0.system is Some <==> request.system is Some,
        request.system matches Some(system) ==> result->Ok_0.system matches Some(s) && s@
            == system@,
        result->Ok_0.stream <==> request.stream,
        request.json_mode is Off <==> result->Ok_0.format is None,
        result->Ok_0.format matches Some(format) ==> format@ == "json"@,
        result->Ok_0.template is None,
        result->Ok_0.context is None,
        result->Ok_0.raw is None,
{
}

/// A request has a body exactly if its messages have a prompt. The body carries
/// that prompt, and otherwise the error is the same.
pub proof fn law_body_carries_prompt<'a, F: Copy>(
    model: &'a str,
    request: &'a ModelInferenceRequest<F>,
    messages: &[RequestMessage],
    prompt: Result<String, ProviderError>,
    result: Result<OllamaRequest<'a, F>, ProviderError>,
)
    requires
        call_ensures(OllamaRequest::<'a, F>::new, (model, request), result),
        call_ensures(format_messages_as_prompt, (messages,), prompt),
        messages@ == request.messages@,
    ensures
        match prompt {
            Ok(text) => result matches Ok(body) && body.prompt@ == text@,
            Err(error) => {
                &&& error.details matches ErrorDetails::InvalidMessage { message: why }
                &&& result matches Err(e)
                &&& e.details matches ErrorDetails::InvalidMessage { message }
                &&& message@ == why@
            },
        },
{
}

/// A stream starts open, and without counts.
pub proof fn law_stream_starts_open(stream: OllamaStream)
    requires
        call_ensures(stream_ollama, (), stream),
    ensures
        !stream.closed,
        stream.prompt_eval_count == 0,
        stream.eval_count == 0,
{
}

/// For every message that can be read an open stream passes on one piece of
/// text, which is what the message says, with the data and the time of the
/// message, whatever else the message reports.
pub proof fn law_message_is_passed_on(
    stream: &mut OllamaStream,
    data: String,
    response: OllamaResponse,
    latency: Duration,
    item: Option<Result<ProviderInferenceResponseChunk, ProviderError>>,
)
    requires
        call_ensures(
            OllamaStream::on_event,
            (stream, StreamEvent::Message { data, parsed: Ok(response), latency }),
            item,
        ),
        !old(stream).closed,
    ensures
        item matches Some(Ok(chunk)) && {
            &&& chunk.content@.len() == 1
            &&& chunk.content@[0] matches ContentBlockChunk::Text(piece)
            &&& piece.text@ == response.response@
            &&& piece.id@ == "0"@
            &&& chunk.raw_response@ == data@
            &&& chunk.latency == latency
        },
{
    if let Some(Ok(chunk)) = item {
        assert(chunk@.content.len() == 1);
        assert(chunk@.content[0] == chunk.content@[0]@);
    }
}

/// A message closes the stream, and gives a reason to stop and a usage, exactly
/// if it says that the reply is done. The usage is what the message reports,
/// and where it does not, what was reported before it; the stream keeps that.
pub proof fn law_message_updates_stream(
    stream: &mut OllamaStream,
    data: String,
    response: OllamaResponse,
    latency: Duration,
    item: Option<Result<ProviderInferenceResponseChunk, ProviderError>>,
)
    requires
        call_ensures(
            OllamaStream::on_event,
            (stream, StreamEvent::Message { data, parsed: Ok(response), latency }),
            item,
        ),
        !old(stream).closed,
    ensures
        final(stream).closed <==> response.done,
        response.prompt_eval_count matches Some(count) ==> final(stream).prompt_eval_count == count,
        response.prompt_eval_count is None ==> final(stream).prompt_eval_count == old(
            stream,
        ).prompt_eval_count,
        response.eval_count matches Some(count) ==> final(stream).eval_count == count,
        response.eval_count is None ==> final(stream).eval_count == old(stream).eval_count,
        item matches Some(Ok(chunk)) && {
            &&& chunk.finish_reason is Some <==> response.done
            &&& chunk.finish_reason matches Some(reason) ==> reason is Stop
            &&& chunk.usage is Some <==> response.done
            &&& chunk.usage matches Some(usage) ==> {
                &&& usage.input_tokens == final(stream).prompt_eval_count
                &&& usage.output_tokens == final(stream).eval_count
            }
        },
{
}

/// For a message that cannot be read an open stream passes on an error with the
/// reason and the data, and goes on as it was.
pub proof fn law_unreadable_message_is_reported(
    stream: &mut OllamaStream,
    data: String,
    reason: String,
    latency: Duration,
    item: Option<Result<ProviderInferenceResponseChunk, ProviderError>>,
)
    requires
        call_ensures(
            OllamaStream::on_event,
            (stream, StreamEvent::Message { data, parsed: Err(reason), latency }),
            item,
        ),
        !old(stream).closed,
    ensures
        *final(stream) == *old(stream),
        item matches Some(Err(error)) && error.details matches ErrorDetails::InferenceServer {
            message,
            provider_type,
            raw_request,
            raw_response,
        } && {
            &&& message@ == "Error parsing chunk. Error: "@ + reason@ + ", Data: "@ + data@
            &&& provider_type@ == "ollama"@
            &&& raw_request is None
            &&& raw_response is None
        },
{
}

/// For a failure an open stream passes on the error that the failure is
/// converted to, and goes on as it was.
pub proof fn law_failure_is_passed_on(
    stream: &mut OllamaStream,
    failure: StreamFailure,
    provider_type: String,
    error: ProviderError,
    item: Option<Result<ProviderInferenceResponseChunk, ProviderError>>,
)
    requires
        call_ensures(OllamaStream::on_event, (stream, StreamEvent::Failed(failure)), item),
        call_ensures(convert_stream_error, (provider_type, failure), error),
        provider_type@ == "ollama"@,
        !old(stream).closed,
    ensures
        *final(stream) == *old(stream),
        item matches Some(Err(e)) && e@ == error@,
{
}

/// The opening of a stream passes nothing on, and neither does anything once
/// the stream is closed. Neither moves the stream.
pub proof fn law_stream_is_silent(
    stream: &mut OllamaStream,
    event: StreamEvent,
    item: Option<Result<ProviderInferenceResponseChunk, ProviderError>>,
)
    requires
        call_ensures(OllamaStream::on_event, (stream, event), item),
        old(stream).closed || event is Open,
    ensures
        item is None,
        *final(stream) == *old(stream),
{
}

/// The text of a chunk, piece by piece.
pub open spec fn pieces_text(content: Seq<(Seq<char>, Seq<char>)>) -> Seq<char>
    decreases content.len(),
{
    if content.len() == 0 {
        Seq::empty()
    } else {
        pieces_text(content.drop_last()) + content.last().0
    }
}

/// The text of what a stream passes on, put together.
pub open spec fn passed_on_text(items: Seq<Result<ChunkView, ErrorView>>) -> Seq<char>
    decreases items.len(),
{
    if items.len() == 0 {
        Seq::empty()
    } else {
        passed_on_text(items.drop_last()) + (match items.last() {
            Ok(chunk) => pieces_text(chunk.content),
            Err(_) => Seq::empty(),
        })
    }
}

/// What the messages of a stream that can be read say, put together.
pub open spec fn said_text(events: Seq<StreamEvent>) -> Seq<char>
    decreases events.len(),
{
    if events.len() == 0 {
        Seq::empty()
    } else {
        said_text(events.drop_last()) + (match events.last() {
            StreamEvent::Message { parsed: Ok(response), .. } => response.response@,
            _ => Seq::empty(),
        })
    }
}

/// A stream passes on what one more message says.
proof fn lemma_event_text(events: Seq<StreamEvent>)
    requires
        events.len() > 0,
        !state_after(new_stream(), events.drop_last()).closed,
        passed_on_text(items_of(new_stream(), events.drop_last())) == said_text(events.drop_last()),
    ensures
        passed_on_text(items_of(new_stream(), events)) == said_text(events),
{
    let items = items_of(new_stream(), events.drop_last());
    let all = items_of(new_stream(), events);
    let state = state_after(new_stream(), events.drop_last());
    if let Some(item) = item_of_event(state, events.last()) {
        assert(all.drop_last() =~= items);
        assert(all.last() == item);
        if let Ok(chunk) = item {
            assert(chunk.content.drop_last() =~= Seq::<(Seq<char>, Seq<char>)>::empty());
            reveal_with_fuel(pieces_text, 2);
            assert(pieces_text(chunk.content) =~= chunk.content[0].0);
        }
    }
    assert(passed_on_text(all) =~= said_text(events));
}

/// The texts that a stream passes on, put together, are what the messages that
/// can be read say, put together in their order, as long as the reply is
/// incomplete.
pub proof fn law_stream_loses_no_text(events: Seq<StreamEvent>)
    requires
        is_incomplete(events),
    ensures
        passed_on_text(items_of(new_stream(), events)) == said_text(events),
    decreases events.len(),
{
    if events.len() > 0 {
        let start = events.drop_last();
        assert forall|i: int| 0 <= i < start.len() implies !completes(#[trigger] start[i]) by {
            assert(start[i] == events[i]);
        }
        law_stream_loses_no_text(start);
        law_counts_are_last_reported(start);
        lemma_event_text(events);
    }
}

/// The texts of a complete reply, put together, are what its messages say up to
/// the one that completes it, whatever is sent after that.
pub proof fn law_complete_reply_loses_no_text(
    before: Seq<StreamEvent>,
    last: StreamEvent,
    after: Seq<StreamEvent>,
)
    requires
        is_incomplete(before),
        completes(last),
    ensures
        passed_on_text(items_of(new_stream(), before.push(last) + after)) == said_text(
            before.push(last),
        ),
{
    let events = before.push(last);
    assert(events.drop_last() =~= before);
    law_stream_loses_no_text(before);
    law_counts_are_last_reported(before);
    lemma_event_text(events);
    law_stream_continues(new_stream(), events, after);
    law_closed_stream_is_silent(state_after(new_stream(), events), after);
    assert(items_of(new_stream(), events + after) =~= items_of(new_stream(), events));
}

/// A failure of an event stream is reported in its own words, as a failure of
/// the server. The reply behind it is kept if it could be read.
pub proof fn law_stream_failure_keeps_reply(
    provider_type: String,
    failure: StreamFailure,
    error: ProviderError,
)
    requires
        call_ensures(convert_stream_error, (provider_type, failure), error),
    ensures
        error.details matches ErrorDetails::InferenceServer {
            message,
            provider_type: named,
            raw_request,
            raw_response,
        } && {
            &&& named@ == provider_type@
            &&& raw_request is None
            &&& match failure {
                StreamFailure::InvalidStatusCode { message: words, body: Ok(body) } => {
                    &&& message@ == words@
                    &&& raw_response matches Some(kept)
                    &&& kept@ == body@
                },
                StreamFailure::InvalidStatusCode { message: words, body: Err(_) } => {
                    &&& message@ == words@
                    &&& raw_response is None
                },
                StreamFailure::Other { message: words } => {
                    &&& message@ == words@
                    &&& raw_response is None
                },
            }
        },
{
}

/// A reply that reports no success is blamed on the request for the statuses
/// 400, 401, 403 and 429, and then the status is kept. For every other status
/// it is blamed on the server. Either way the error says what the reply says.
pub proof fn law_refused_reply_is_blamed(
    status: StatusCode,
    code: u16,
    response_body: &str,
    error: ProviderError,
)
    requires
        call_ensures(handle_ollama_error, (status, response_body), error),
        call_ensures(StatusCode::as_u16, (&status,), code),
    ensures
        code == 400 || code == 401 || code == 403 || code == 429
            <==> error.details is InferenceClient,
        error.details is InferenceClient || error.details is InferenceServer,
        match error.details {
            ErrorDetails::InferenceClient {
                message,
                status_code,
                provider_type,
                raw_request,
                raw_response,
            } => {
                &&& message@ == response_body@
                &&& status_code == Some(status)
                &&& provider_type@ == "ollama"@
                &&& raw_request is None
                &&& raw_response is None
            },
            ErrorDetails::InferenceServer { message, provider_type, raw_request, raw_response } => {
                &&& message@ == response_body@
                &&& provider_type@ == "ollama"@
                &&& raw_request is None
                &&& raw_response is None
            },
            _ => true,
        },
{
}

/// Exactly the numbers of three digits are statuses, and a status has the number
/// that it was made of.
pub proof fn law_status_has_its_number(code: u16, status: Option<StatusCode>, number: u16)
    requires
        call_ensures(StatusCode::from_u16, (code,), status),
        status matches Some(s) ==> call_ensures(StatusCode::as_u16, (&s,), number),
    ensures
        status is Some <==> 100 <= code <= 999,
        status is Some ==> number == code,
{
}

/// A status reports success exactly if its number is from 200 to 299.
pub proof fn law_success_has_its_numbers(status: StatusCode, code: u16, success: bool)
    requires
        call_ensures(StatusCode::as_u16, (&status,), code),
        call_ensures(StatusCode::is_success, (&status,), success),
    ensures
        success <==> 200 <= code <= 299,
{
}

/// Two lists of messages say the same: each message has the same speaker and
/// the same content.
pub open spec fn say_the_same(messages: Seq<RequestMessage>, others: Seq<RequestMessage>) -> bool {
    &&& messages.len() == others.len()
    &&& forall|i: int|
        #![trigger messages[i]]
        0 <= i < messages.len() ==> {
            &&& messages[i].role == others[i].role
            &&& messages[i].content@ == others[i].content@
        }
}

/// Messages with the same models say the same.
proof fn lemma_same_views(messages: Seq<RequestMessage>, others: Seq<RequestMessage>)
    requires
        messages_view(messages) == messages_view(others),
    ensures
        say_the_same(messages, others),
{
    assert(messages_view(messages).len() == messages.len());
    assert(messages_view(others).len() == others.len());
    assert forall|i: int| #![trigger messages[i]] 0 <= i < messages.len() implies {
        &&& messages[i].role == others[i].role
        &&& messages[i].content@ == others[i].content@
    } by {
        assert(messages_view(messages)[i] == messages[i]@);
        assert(messages_view(others)[i] == others[i]@);
    }
}

/// The outcome of an inference is one text, which is what the reply says. Its
/// usage is what the reply reports, zero where it reports nothing, and it gives
/// a reason to stop exactly if the reply is done. Beside that it has the
/// messages and the system text of the request, the time that the reply took,
/// and the texts of what was sent and received.
pub proof fn law_outcome_is_what_reply_says<'a, F>(
    exchange: OllamaResponseWithMetadata<'a, F>,
    result: Result<ProviderInferenceResponse, ProviderError>,
)
    requires
        call_ensures(
            <ProviderInferenceResponse as TryFrom<OllamaResponseWithMetadata<'a, F>>>::try_from,
            (exchange,),
            result,
        ),
    ensures
        result matches Ok(outcome) && {
            &&& outcome.output@.len() == 1
            &&& outcome.output@[0] matches ContentBlockOutput::Text(text)
            &&& text.text@ == exchange.response.response@
            &&& exchange.response.prompt_eval_count matches Some(count)
                ==> outcome.usage.input_tokens == count
            &&& exchange.response.prompt_eval_count is None ==> outcome.usage.input_tokens == 0
            &&& exchange.response.eval_count matches Some(count) ==> outcome.usage.output_tokens
                == count
            &&& exchange.response.eval_count is None ==> outcome.usage.output_tokens == 0
            &&& outcome.finish_reason is Some <==> exchange.response.done
            &&& outcome.system is Some <==> exchange.generic_request.system is Some
            &&& exchange.generic_request.system matches Some(system)
                ==> outcome.system matches Some(s) && s@ == system@
            &&& say_the_same(outcome.input_messages@, exchange.generic_request.messages@)
            &&& outcome.latency == exchange.latency
            &&& outcome.raw_response@ == exchange.raw_response@
            &&& json_text(exchange.request) == Ok::<Seq<char>, Seq<char>>(outcome.raw_request@)
        },
{
    if let Ok(outcome) = result {
        lemma_same_views(outcome.input_messages@, exchange.generic_request.messages@);
    }
}

/// Given the text of what was sent, the outcome of an inference is the same as
/// if that text had been written from it.
pub proof fn law_reported_exchange_agrees<'a, F>(
    exchange: OllamaResponseWithMetadata<'a, F>,
    raw_request: String,
    reported: ProviderInferenceResponse,
    result: Result<ProviderInferenceResponse, ProviderError>,
)
    requires
        call_ensures(report_exchange::<F>, (exchange, raw_request), reported),
        call_ensures(
            <ProviderInferenceResponse as TryFrom<OllamaResponseWithMetadata<'a, F>>>::try_from,
            (exchange,),
            result,
        ),
    ensures
        reported.raw_request@ == raw_request@,
        result matches Ok(outcome) && {
            &&& reported.output@ == outcome.output@
            &&& reported.usage == outcome.usage
            &&& reported.finish_reason == outcome.finish_reason
            &&& reported.system == outcome.system
            &&& say_the_same(reported.input_messages@, outcome.input_messages@)
            &&& reported.latency == outcome.latency
            &&& reported.raw_response@ == outcome.raw_response@
        },
{
    if let Ok(outcome) = result {
        lemma_same_views(reported.input_messages@, outcome.input_messages@);
    }
}

/// A copy of a message has the same speaker and the same content.
pub proof fn law_copied_message_says_the_same(message: &RequestMessage, copy: RequestMessage)
    requires
        call_ensures(<RequestMessage as Clone>::clone, (message,), copy),
    ensures
        copy.role == message.role,
        copy.content@ == message.content@,
{
}

/// A static key is accepted as it is, the name of a dynamic one is, and so is
/// that there is none. The contents of a file are refused.
pub proof fn law_credential_is_accepted<K>(
    credential: Credential<K>,
    result: Result<OllamaCredentials<K>, ProviderError>,
)
    requires
        call_ensures(
            <OllamaCredentials<K> as TryFrom<Credential<K>>>::try_from,
            (credential,),
            result,
        ),
    ensures
        match credential {
            Credential::Static(key) => result matches Ok(OllamaCredentials::Static(k)) && k == key,
            Credential::Dynamic(name) => result matches Ok(OllamaCredentials::Dynamic(n)) && n@
                == name@,
            Credential::NoKey => result matches Ok(OllamaCredentials::NoKey),
            Credential::Missing => result matches Ok(OllamaCredentials::NoKey),
            Credential::FileContents(_) => {
                &&& result matches Err(error)
                &&& error.details matches ErrorDetails::Config { message }
                &&& message@ == "Invalid api_key_location for Ollama provider"@
            },
        },
{
}

/// A static key goes with every request, and a dynamic one is the key that the
/// request brings under its name. A request that brings none is refused. Without
/// credentials a request needs no key.
pub proof fn law_key_is_the_configured_one<K>(
    credentials: &OllamaCredentials<K>,
    keys: &InferenceCredentials<K>,
    result: Result<Option<&K>, ProviderError>,
)
    requires
        call_ensures(OllamaCredentials::<K>::get_api_key, (credentials, keys), result),
    ensures
        match *credentials {
            OllamaCredentials::Static(key) => result matches Ok(Some(k)) && *k == key,
            OllamaCredentials::Dynamic(name) => if keys@.contains_key(name@) {
                result matches Ok(Some(k)) && *k == keys@[name@]
            } else {
                &&& result matches Err(error)
                &&& error.details matches ErrorDetails::ApiKeyMissing { provider_name }
                &&& provider_name@ == "Ollama"@
            },
            OllamaCredentials::NoKey => result matches Ok(None),
        },
{
}

/// The key that was put under a name is found under that name, and what is found
/// under every other name stays the same.
pub proof fn law_key_is_found_again<K>(
    keys: &mut InferenceCredentials<K>,
    name: String,
    key: K,
    earlier: InferenceCredentials<K>,
    later: InferenceCredentials<K>,
    wanted: &str,
    before: Option<&K>,
    after: Option<&K>,
)
    requires
        call_ensures(InferenceCredentials::<K>::insert, (keys, name, key), ()),
        earlier == *old(keys),
        later == *final(keys),
        call_ensures(InferenceCredentials::<K>::get, (&earlier, wanted), before),
        call_ensures(InferenceCredentials::<K>::get, (&later, wanted), after),
    ensures
        wanted@ == name@ ==> (after matches Some(k) && *k == key),
        wanted@ != name@ ==> {
            &&& before is Some <==> after is Some
            &&& before matches Some(b) ==> after matches Some(a) && *a == *b
        },
{
}

/// At first no key is found under any name.
pub proof fn law_no_key_at_first<K>(
    keys: InferenceCredentials<K>,
    name: &str,
    found: Option<&K>,
)
    requires
        call_ensures(InferenceCredentials::<K>::new, (), keys),
        call_ensures(InferenceCredentials::<K>::get, (&keys, name), found),
    ensures
        found is None,
{
}

/// By default the credential is looked for in its environment variable.
pub proof fn law_default_location(location: CredentialLocation)
    requires
        call_ensures(default_api_key_location, (), location),
    ensures
        location matches CredentialLocation::Env(name) && name@ == "OLLAMA_API_KEY"@,
{
}

/// A copy of credentials has the same name for a dynamic key, a copy of a static
/// key, and no key where there was none.
pub proof fn law_copied_credentials<K: Clone>(
    credentials: &OllamaCredentials<K>,
    copy: OllamaCredentials<K>,
)
    requires
        call_ensures(<OllamaCredentials<K> as Clone>::clone, (credentials,), copy),
    ensures
        match *credentials {
            OllamaCredentials::Static(key) => copy matches OllamaCredentials::Static(k) && cloned(
                key,
                k,
            ),
            OllamaCredentials::Dynamic(name) => copy matches OllamaCredentials::Dynamic(n) && n@
                == name@,
            OllamaCredentials::NoKey => copy is NoKey,
        },
{
}

/// Without a configured base URL requests go to the server on this machine.
pub proof fn law_default_endpoint(api_base: &Option<Url>, result: Result<Url, ProviderError>)
    requires
        call_ensures(get_request_url, (api_base,), result),
        api_base is None,
    ensures
        result matches Ok(url) && url_text(url) == "http://localhost:11434/api/generate"@,
{
}

/// With a configured base URL requests go to its endpoint. There is none if the
/// base URL is too long for one.
pub proof fn law_configured_endpoint(
    api_base: &Option<Url>,
    base_url: Url,
    endpoint: Result<Url, ProviderError>,
    result: Result<Url, ProviderError>,
)
    requires
        call_ensures(get_request_url, (api_base,), result),
        *api_base == Some(base_url),
        can_be_slashed(base_url) ==> call_ensures(get_generate_url, (&base_url,), endpoint),
    ensures
        can_be_slashed(base_url) ==> match endpoint {
            Ok(url) => result == Ok::<Url, ProviderError>(url),
            Err(error) => result matches Err(e) && e@ == error@,
        },
        !can_be_slashed(base_url) ==> {
            &&& result matches Err(error)
            &&& error.details matches ErrorDetails::InvalidBaseUrl { message }
            &&& message@ == "Base URL is too long"@
        },
{
}

/// No more characters of a path are to be escaped than it has.
proof fn lemma_unescaped_count(path: Seq<char>)
    ensures
        unescaped_count(path) <= path.len(),
    decreases path.len(),
{
    if path.len() > 0 {
        lemma_unescaped_count(path.drop_last());
    }
}

/// No base URL is too long for an endpoint if its path ends with a slash, or if
/// its length, twice that of its path and three more can be counted in 32 bits.
/// Where nothing in the path is to be escaped, it is enough that one more than
/// its length can be.
pub proof fn law_base_url_is_not_too_long(
    api_base: &Option<Url>,
    base_url: Url,
    endpoint: Result<Url, ProviderError>,
    result: Result<Url, ProviderError>,
)
    requires
        call_ensures(get_request_url, (api_base,), result),
        *api_base == Some(base_url),
        call_ensures(get_generate_url, (&base_url,), endpoint),
        ({
            ||| url_text(base_url).len() + 2 * url_path(base_url).len() + 3 <= u32::MAX
            ||| url_path(base_url).len() > 0 && url_path(base_url).last() == '/'
            ||| {
                &&& url_text(base_url).len() < u32::MAX
                &&& !cannot_be_a_base(base_url)
                &&& unescaped_count(url_path(base_url)) == 0
            }
        }),
    ensures
        match endpoint {
            Ok(url) => result == Ok::<Url, ProviderError>(url),
            Err(error) => result matches Err(e) && e@ == error@,
        },
{
    lemma_unescaped_count(url_path(base_url));
}

/// The endpoint below an address of the web is there, and continues its path by
/// `generate`, after one slash. Everything before the path stays, and nothing
/// comes after it.
pub proof fn law_endpoint_continues_base(base_url: Url, result: Result<Url, ProviderError>)
    requires
        call_ensures(get_generate_url, (&base_url,), result),
        "http://"@.is_prefix_of(url_text(base_url)) || "https://"@.is_prefix_of(url_text(base_url)),
        !has_dot_segment(url_path(base_url)),
    ensures
        result matches Ok(url) && {
            let path = url_path(base_url);
            let continued = if path.len() > 0 && path.last() == '/' {
                path + "generate"@
            } else {
                path + "/generate"@
            };
            &&& url_path(url) == continued
            &&& url_text(url) == text_before_path(base_url) + continued
            &&& url_query(url) is None
            &&& url_fragment(url) is None
        },
{
    reveal_strlit("/");
    reveal_strlit("generate");
    reveal_strlit("/generate");
    lemma_web(base_url);
    if let Ok(url) = result {
        let path = url_path(base_url);
        if path.len() > 0 && path.last() == '/' {
            assert(url_text(url) =~= text_before_path(base_url) + (path + "generate"@));
        } else {
            assert(path + "/"@ + "generate"@ =~= path + "/generate"@);
            assert(url_text(url) =~= text_before_path(base_url) + (path + "/generate"@));
        }
    }
}

/// A slash at the end of the path makes no difference to the endpoint of a base
/// URL that references can be resolved against.
pub proof fn law_slash_makes_no_difference(
    base_url: Url,
    slashed: Url,
    first: Result<Url, ProviderError>,
    second: Result<Url, ProviderError>,
)
    requires
        call_ensures(get_generate_url, (&base_url,), first),
        call_ensures(get_generate_url, (&slashed,), second),
        !cannot_be_a_base(base_url),
        url_path(base_url).len() > 0 ==> url_path(base_url).last() != '/',
        slashed == url_with_path(base_url, url_path(base_url) + "/"@),
    ensures
        first is Ok,
        first == second,
{
}

/// A base URL has no endpoint exactly if references cannot be resolved against
/// it, and then the error says why, in the words for resolving `generate`
/// against the base URL with its slash.
pub proof fn law_refused_base_url(base_url: Url, slashed: Url, result: Result<Url, ProviderError>)
    requires
        call_ensures(get_generate_url, (&base_url,), result),
        slashed == (if url_path(base_url).len() > 0 && url_path(base_url).last() == '/' {
            base_url
        } else {
            url_with_path(base_url, url_path(base_url) + "/"@)
        }),
    ensures
        result is Err <==> cannot_be_a_base(base_url),
        result matches Ok(url) ==> url_join(slashed, "generate"@) == Ok::<Url, url::ParseError>(
            url,
        ),
        result matches Err(error) ==> {
            &&& error.details matches ErrorDetails::InvalidBaseUrl { message }
            &&& url_join(slashed, "generate"@) matches Err(why)
            &&& message@ == url_error_text(why)
        },
{
}

/// A provider that is set up has the model name and the base URL that were
/// given, wherever its credentials come from.
pub proof fn law_provider_has_name_and_base<
    K: Clone,
    R: FnOnce(CredentialLocation) -> Result<Credential<K>, ProviderError>,
>(
    model_name: String,
    api_base: Option<Url>,
    api_key_location: Option<CredentialLocation>,
    default_credentials: &mut Option<OllamaCredentials<K>>,
    find_credential: R,
    result: Result<OllamaProvider<K>, ProviderError>,
)
    requires
        call_ensures(
            OllamaProvider::<K>::new::<R>,
            (model_name, api_base, api_key_location, default_credentials, find_credential),
            result,
        ),
    ensures
        result matches Ok(provider) ==> {
            &&& provider.model_name@ == model_name@
            &&& provider.api_base == api_base
        },
{
}

/// A provider with a configured location has the credentials that are found
/// there, whatever default is kept, and leaves that default as it is. What
/// cannot be found or used there is an error.
pub proof fn law_configured_credential_is_used<
    K: Clone,
    R: FnOnce(CredentialLocation) -> Result<Credential<K>, ProviderError>,
>(
    model_name: String,
    api_base: Option<Url>,
    location: CredentialLocation,
    default_credentials: &mut Option<OllamaCredentials<K>>,
    find_credential: R,
    result: Result<OllamaProvider<K>, ProviderError>,
)
    requires
        call_ensures(
            OllamaProvider::<K>::new::<R>,
            (model_name, api_base, Some(location), default_credentials, find_credential),
            result,
        ),
    ensures
        *final(default_credentials) == *old(default_credentials),
        exists|found: Result<Credential<K>, ProviderError>|
            {
                &&& #[trigger] call_ensures(find_credential, (location,), found)
                &&& match found {
                    Ok(Credential::Static(key)) => result matches Ok(provider)
                        && provider.credentials matches OllamaCredentials::Static(k) && k == key,
                    Ok(Credential::Dynamic(name)) => result matches Ok(provider)
                        && provider.credentials matches OllamaCredentials::Dynamic(n) && n@
                        == name@,
                    Ok(Credential::NoKey) => result matches Ok(provider)
                        && provider.credentials is NoKey,
                    Ok(Credential::Missing) => result matches Ok(provider)
                        && provider.credentials is NoKey,
                    Ok(Credential::FileContents(_)) => {
                        &&& result matches Err(error)
                        &&& error.details matches ErrorDetails::Config { message }
                        &&& message@ == "Invalid api_key_location for Ollama provider"@
                    },
                    Err(error) => result matches Err(e) && e == error,
                }
            },
{
}

/// A provider without a configured location, for which no default is kept, has
/// the credentials that are found at the default location. A copy of them is
/// kept, and nothing is if there are none.
pub proof fn law_default_credential_is_kept<
    K: Clone,
    R: FnOnce(CredentialLocation) -> Result<Credential<K>, ProviderError>,
>(
    model_name: String,
    api_base: Option<Url>,
    default_credentials: &mut Option<OllamaCredentials<K>>,
    find_credential: R,
    result: Result<OllamaProvider<K>, ProviderError>,
)
    requires
        call_ensures(
            OllamaProvider::<K>::new::<R>,
            (model_name, api_base, None, default_credentials, find_credential),
            result,
        ),
        *old(default_credentials) is None,
    ensures
        exists|location: CredentialLocation, found: Result<Credential<K>, ProviderError>|
            {
                &&& location matches CredentialLocation::Env(name)
                &&& name@ == "OLLAMA_API_KEY"@
                &&& #[trigger] call_ensures(find_credential, (location,), found)
                &&& match found {
                    Ok(Credential::Static(key)) => result matches Ok(provider)
                        && provider.credentials matches OllamaCredentials::Static(k) && k == key,
                    Ok(Credential::Dynamic(name)) => result matches Ok(provider)
                        && provider.credentials matches OllamaCredentials::Dynamic(n) && n@
                        == name@,
                    Ok(Credential::NoKey) => result matches Ok(provider)
                        && provider.credentials is NoKey,
                    Ok(Credential::Missing) => result matches Ok(provider)
                        && provider.credentials is NoKey,
                    Ok(Credential::FileContents(_)) => {
                        &&& result matches Err(error)
                        &&& error.details matches ErrorDetails::Config { message }
                        &&& message@ == "Invalid api_key_location for Ollama provider"@
                    },
                    Err(error) => result matches Err(e) && e == error,
                }
            },
        result is Err ==> *final(default_credentials) is None,
        result matches Ok(provider) ==> match provider.credentials {
            OllamaCredentials::Static(key) => *final(default_credentials) matches Some(
                OllamaCredentials::Static(k),
            ) && cloned(key, k),
            OllamaCredentials::Dynamic(name) => *final(default_credentials) matches Some(
                OllamaCredentials::Dynamic(n),
            ) && n@ == name@,
            OllamaCredentials::NoKey => *final(default_credentials) matches Some(
                OllamaCredentials::NoKey,
            ),
        },
{
}

/// A provider without a configured location has a copy of the default that is
/// kept, if one is, and leaves that default as it is.
pub proof fn law_kept_default_is_used<
    K: Clone,
    R: FnOnce(CredentialLocation) -> Result<Credential<K>, ProviderError>,
>(
    model_name: String,
    api_base: Option<Url>,
    default_credentials: &mut Option<OllamaCredentials<K>>,
    kept: OllamaCredentials<K>,
    find_credential: R,
    result: Result<OllamaProvider<K>, ProviderError>,
)
    requires
        call_ensures(
            OllamaProvider::<K>::new::<R>,
            (model_name, api_base, None, default_credentials, find_credential),
            result,
        ),
        *old(default_credentials) == Some(kept),
    ensures
        *final(default_credentials) == *old(default_credentials),
        result matches Ok(provider) && match kept {
            OllamaCredentials::Static(key) => provider.credentials matches OllamaCredentials::Static(
                k,
            ) && cloned(key, k),
            OllamaCredentials::Dynamic(name) =>
                provider.credentials matches OllamaCredentials::Dynamic(n) && n@ == name@,
            OllamaCredentials::NoKey => provider.credentials is NoKey,
        },
{
}

/// An inference begins with the body of its request for the model of the
/// provider, or with the error for that body. The draft is of that request.
pub proof fn law_inference_begins_with_body<'a, F: Copy, K>(
    provider: &'a OllamaProvider<K>,
    request: &'a ModelInferenceRequest<F>,
    keys: &'a InferenceCredentials<K>,
    model: &'a str,
    body: Result<OllamaRequest<'a, F>, ProviderError>,
    result: Result<(OllamaRequest<'a, F>, InferDraft<'a, F, K>), ProviderError>,
)
    requires
        call_ensures(OllamaProvider::<K>::infer::<F>, (provider, request, keys), result),
        call_ensures(OllamaRequest::<'a, F>::new, (model, request), body),
        model@ == provider.model_name@,
    ensures
        match body {
            Ok(b) => result matches Ok((payload, draft)) && {
                &&& payload.model@ == b.model@
                &&& payload.prompt@ == b.prompt@
                &&& payload.system == b.system
                &&& payload.format is Some <==> b.format is Some
                &&& payload.options == b.options
                &&& payload.stream == b.stream
                &&& payload.template is None && payload.context is None && payload.raw is None
                &&& *draft.provider == *provider
                &&& *draft.request == *request
                &&& *draft.dynamic_api_keys == *keys
            },
            Err(error) => result matches Err(e) && e@ == error@,
        },
{
}

/// A streamed inference begins with the body of its request for the model of the
/// provider, or with the error for that body.
pub proof fn law_streamed_inference_begins_with_body<'a, F: Copy, K>(
    provider: &'a OllamaProvider<K>,
    request: &'a ModelInferenceRequest<F>,
    keys: &'a InferenceCredentials<K>,
    model: &'a str,
    body: Result<OllamaRequest<'a, F>, ProviderError>,
    result: Result<(OllamaRequest<'a, F>, StreamDraft<'a, K>), ProviderError>,
)
    requires
        call_ensures(OllamaProvider::<K>::infer_stream::<F>, (provider, request, keys), result),
        call_ensures(OllamaRequest::<'a, F>::new, (model, request), body),
        model@ == provider.model_name@,
    ensures
        match body {
            Ok(b) => result matches Ok((payload, draft)) && {
                &&& payload.model@ == b.model@
                &&& payload.prompt@ == b.prompt@
                &&& payload.system == b.system
                &&& payload.format is Some <==> b.format is Some
                &&& payload.options == b.options
                &&& payload.stream == b.stream
                &&& payload.template is None && payload.context is None && payload.raw is None
                &&& *draft.provider == *provider
                &&& *draft.dynamic_api_keys == *keys
            },
            Err(error) => result matches Err(e) && e@ == error@,
        },
{
}

/// The body that an inference begins with names the model of the provider and
/// asks for JSON in the one way that there is.
pub proof fn law_inference_names_model<'a, F: Copy, K>(
    provider: &'a OllamaProvider<K>,
    request: &'a ModelInferenceRequest<F>,
    keys: &'a InferenceCredentials<K>,
    whole: Result<(OllamaRequest<'a, F>, InferDraft<'a, F, K>), ProviderError>,
    streamed: Result<(OllamaRequest<'a, F>, StreamDraft<'a, K>), ProviderError>,
)
    requires
        call_ensures(OllamaProvider::<K>::infer::<F>, (provider, request, keys), whole),
        call_ensures(OllamaProvider::<K>::infer_stream::<F>, (provider, request, keys), streamed),
    ensures
        whole is Ok <==> streamed is Ok,
        whole matches Ok((payload, _)) ==> {
            &&& payload.model@ == provider.model_name@
            &&& payload.format is None <==> request.json_mode is Off
            &&& payload.format matches Some(format) ==> format@ == "json"@
        },
        streamed matches Ok((payload, _)) ==> {
            &&& payload.model@ == provider.model_name@
            &&& payload.format is None <==> request.json_mode is Off
            &&& payload.format matches Some(format) ==> format@ == "json"@
        },
{
}

/// Whatever base URL is configured, a request that is prepared carries the
/// static key of the provider, or the key that the request brings under the name
/// of a dynamic one, or none if the provider needs none.
pub proof fn law_request_carries_key<'a, F, K>(
    draft: InferDraft<'a, F, K>,
    body: Result<Value, BodyFailure>,
    result: Result<InferSending<'a, F, K>, ProviderError>,
)
    requires
        call_ensures(InferDraft::<'a, F, K>::on_body, (draft, body), result),
    ensures
        result matches Ok(sending) ==> match draft.provider.credentials {
            OllamaCredentials::Static(key) => sending.api_key matches Some(k) && *k == key,
            OllamaCredentials::Dynamic(name) => {
                &&& draft.dynamic_api_keys@.contains_key(name@)
                &&& sending.api_key matches Some(k)
                &&& *k == draft.dynamic_api_keys@[name@]
            },
            OllamaCredentials::NoKey => sending.api_key is None,
        },
{
}

/// Whatever base URL is configured, a streamed request that is prepared carries
/// the static key of the provider, or the key that the request brings under the
/// name of a dynamic one, or none if the provider needs none.
pub proof fn law_streamed_request_carries_key<'a, K>(
    draft: StreamDraft<'a, K>,
    body: Result<Value, BodyFailure>,
    result: Result<StreamOpening<'a, K>, ProviderError>,
)
    requires
        call_ensures(StreamDraft::<'a, K>::on_body, (draft, body), result),
    ensures
        result matches Ok(opening) ==> match draft.provider.credentials {
            OllamaCredentials::Static(key) => opening.api_key matches Some(k) && *k == key,
            OllamaCredentials::Dynamic(name) => {
                &&& draft.dynamic_api_keys@.contains_key(name@)
                &&& opening.api_key matches Some(k)
                &&& *k == draft.dynamic_api_keys@[name@]
            },
            OllamaCredentials::NoKey => opening.api_key is None,
        },
{
}

/// A request is prepared exactly if there is a body, an endpoint and, where one
/// is needed, a key. It sends that body as JSON to that endpoint. Otherwise the
/// error is that of the first of the three that is not there.
pub proof fn law_request_goes_to_endpoint<'a, F, K>(
    draft: InferDraft<'a, F, K>,
    body: Result<Value, BodyFailure>,
    endpoint: Result<Url, ProviderError>,
    key: Result<Option<&K>, ProviderError>,
    result: Result<InferSending<'a, F, K>, ProviderError>,
)
    requires
        call_ensures(InferDraft::<'a, F, K>::on_body, (draft, body), result),
        call_ensures(get_request_url, (&draft.provider.api_base,), endpoint),
        call_ensures(
            OllamaCredentials::<K>::get_api_key,
            (&draft.provider.credentials, draft.dynamic_api_keys),
            key,
        ),
    ensures
        match (body, endpoint, key) {
            (Err(BodyFailure::Serialization(reason)), _, _) => {
                &&& result matches Err(error)
                &&& error.details matches ErrorDetails::Serialization { message }
                &&& message@ == "Error serializing Ollama request: "@ + reason@
            },
            (Err(BodyFailure::ExtraBody(why)), _, _) => result matches Err(e) && e == why,
            (Ok(_), Err(why), _) => result matches Err(e) && e@ == why@,
            (Ok(_), Ok(_), Err(why)) => result matches Err(e) && e@ == why@,
            (Ok(value), Ok(url), Ok(_)) => result matches Ok(sending) && {
                &&& url_text(sending.url) == url_text(url)
                &&& draft.provider.api_base is Some ==> sending.url == url
                &&& sending.content_type@ == "application/json"@
                &&& sending.body == value
                &&& *sending.request == *draft.request
            },
        },
{
}

/// A streamed request is prepared exactly if there is a body, an endpoint and,
/// where one is needed, a key. It sends that body as JSON to that endpoint, and
/// keeps its text. Otherwise the error is that of the first of the three that is
/// not there.
pub proof fn law_streamed_request_goes_to_endpoint<'a, K>(
    draft: StreamDraft<'a, K>,
    body: Result<Value, BodyFailure>,
    endpoint: Result<Url, ProviderError>,
    key: Result<Option<&K>, ProviderError>,
    result: Result<StreamOpening<'a, K>, ProviderError>,
)
    requires
        call_ensures(StreamDraft::<'a, K>::on_body, (draft, body), result),
        call_ensures(get_request_url, (&draft.provider.api_base,), endpoint),
        call_ensures(
            OllamaCredentials::<K>::get_api_key,
            (&draft.provider.credentials, draft.dynamic_api_keys),
            key,
        ),
    ensures
        match (body, endpoint, key) {
            (Err(BodyFailure::Serialization(reason)), _, _) => {
                &&& result matches Err(error)
                &&& error.details matches ErrorDetails::Serialization { message }
                &&& message@ == "Error serializing Ollama request: "@ + reason@
            },
            (Err(BodyFailure::ExtraBody(why)), _, _) => result matches Err(e) && e == why,
            (Ok(_), Err(why), _) => result matches Err(e) && e@ == why@,
            (Ok(_), Ok(_), Err(why)) => result matches Err(e) && e@ == why@,
            (Ok(value), Ok(url), Ok(_)) => result matches Ok(opening) && {
                &&& url_text(opening.url) == url_text(url)
                &&& draft.provider.api_base is Some ==> opening.url == url
                &&& opening.content_type@ == "application/json"@
                &&& opening.body == value
                &&& json_text(value) == Ok::<Seq<char>, Seq<char>>(opening.raw_request@)
            },
        },
{
}

/// A request that could not be sent is an error with the reason, the status if
/// there is one, and the text of the body. Otherwise the reply is to be read.
pub proof fn law_unsent_request_is_reported<'a, F, K>(
    sending: InferSending<'a, F, K>,
    outcome: Result<StatusCode, SendFailure>,
    response_time: Duration,
    result: Result<InferReading<'a, F>, ProviderError>,
)
    requires
        call_ensures(InferSending::<'a, F, K>::on_sent, (sending, outcome, response_time), result),
    ensures
        match outcome {
            Ok(status) => result matches Ok(reading) && {
                &&& reading.status == status
                &&& reading.response_time == response_time
                &&& reading.body == sending.body
                &&& *reading.request == *sending.request
            },
            Err(failure) => result matches Err(error)
                && error.details matches ErrorDetails::InferenceClient {
                message,
                status_code,
                provider_type,
                raw_request,
                raw_response,
            } && {
                &&& message@ == "Error sending request to Ollama: "@ + failure.message@
                &&& status_code == failure.status_code
                &&& provider_type@ == "ollama"@
                &&& raw_request matches Some(text)
                &&& json_text(sending.body) == Ok::<Seq<char>, Seq<char>>(text@)
                &&& raw_response is None
            },
        },
{
}

/// The text of a reply that reports success is to be parsed as it is. That of
/// any other reply is reported by its status. A text that cannot be read is an
/// error with the reason and the text of the body.
pub proof fn law_reply_is_read<'a, F>(
    reading: InferReading<'a, F>,
    code: u16,
    text: Result<String, String>,
    refused: ProviderError,
    words: &str,
    result: Result<InferParsing<'a, F>, ProviderError>,
)
    requires
        call_ensures(InferReading::<'a, F>::on_text, (reading, text), result),
        call_ensures(StatusCode::as_u16, (&reading.status,), code),
        text matches Ok(t) ==> words@ == t@,
        call_ensures(handle_ollama_error, (reading.status, words), refused),
    ensures
        match text {
            Ok(reply) => if 200 <= code <= 299 {
                result matches Ok(parsing) && {
                    &&& parsing.raw_response@ == reply@
                    &&& parsing.response_time == reading.response_time
                    &&& parsing.body == reading.body
                    &&& *parsing.request == *reading.request
                }
            } else {
                result matches Err(error) && error@ == refused@
            },
            Err(reason) => result matches Err(error)
                && error.details matches ErrorDetails::InferenceServer {
                message,
                provider_type,
                raw_request,
                raw_response,
            } && {
                &&& 200 <= code <= 299 ==> message@ == "Error parsing text response: "@ + reason@
                &&& !(200 <= code <= 299) ==> message@ == "Error parsing error response: "@
                    + reason@
                &&& provider_type@ == "ollama"@
                &&& raw_request matches Some(sent)
                &&& json_text(reading.body) == Ok::<Seq<char>, Seq<char>>(sent@)
                &&& raw_response is None
            },
        },
{
}

/// A reply that can be parsed is what the inference comes to: its text, its
/// counts, whether it is done, the time it took, and the texts of what was sent
/// and received, beside what the request says. One that cannot is an error with
/// the reason, the text of the body and the text of the reply.
pub proof fn law_reply_is_reported<'a, F>(
    parsing: InferParsing<'a, F>,
    parsed: Result<OllamaResponse, String>,
    result: Result<ProviderInferenceResponse, ProviderError>,
)
    requires
        call_ensures(InferParsing::<'a, F>::on_parsed, (parsing, parsed), result),
    ensures
        match parsed {
            Ok(response) => result matches Ok(outcome) && {
                &&& outcome.output@.len() == 1
                &&& outcome.output@[0] matches ContentBlockOutput::Text(text)
                &&& text.text@ == response.response@
                &&& response.prompt_eval_count matches Some(count) ==> outcome.usage.input_tokens
                    == count
                &&& response.prompt_eval_count is None ==> outcome.usage.input_tokens == 0
                &&& response.eval_count matches Some(count) ==> outcome.usage.output_tokens == count
                &&& response.eval_count is None ==> outcome.usage.output_tokens == 0
                &&& outcome.finish_reason is Some <==> response.done
                &&& outcome.latency matches Latency::NonStreaming { response_time }
                &&& response_time == parsing.response_time
                &&& outcome.raw_response@ == parsing.raw_response@
                &&& json_text(parsing.body) == Ok::<Seq<char>, Seq<char>>(outcome.raw_request@)
                &&& outcome.system == parsing.request.system
                &&& say_the_same(outcome.input_messages@, parsing.request.messages@)
            },
            Err(reason) => result matches Err(error)
                && error.details matches ErrorDetails::InferenceServer {
                message,
                provider_type,
                raw_request,
                raw_response,
            } && {
                &&& message@ == "Error parsing JSON response: "@ + reason@
                &&& provider_type@ == "ollama"@
                &&& raw_request matches Some(sent)
                &&& json_text(parsing.body) == Ok::<Seq<char>, Seq<char>>(sent@)
                &&& raw_response matches Some(received)
                &&& received@ == parsing.raw_response@
            },
        },
{
    if let Ok(outcome) = result {
        lemma_same_views(outcome.input_messages@, parsing.request.messages@);
    }
}

/// A stream that is opened starts open and without counts, beside the text of
/// the body. One that is not is an error with the reason and that text.
pub proof fn law_stream_is_opened<'a, K>(
    opening: StreamOpening<'a, K>,
    opened: Result<(), String>,
    result: Result<(OllamaStream, String), ProviderError>,
)
    requires
        call_ensures(StreamOpening::<'a, K>::on_opened, (opening, opened), result),
    ensures
        match opened {
            Ok(()) => result matches Ok((stream, raw_request)) && {
                &&& !stream.closed
                &&& stream.prompt_eval_count == 0
                &&& stream.eval_count == 0
                &&& raw_request@ == opening.raw_request@
            },
            Err(reason) => result matches Err(error)
                && error.details matches ErrorDetails::InferenceClient {
                message,
                status_code,
                provider_type,
                raw_request,
                raw_response,
            } && {
                &&& message@ == "Error sending request to Ollama: "@ + reason@
                &&& status_code is None
                &&& provider_type@ == "ollama"@
                &&& raw_request matches Some(text)
                &&& text@ == opening.raw_request@
                &&& raw_response is None
            },
        },
{
}

/// No batch is started or asked after, whatever it holds: the provider offers
/// none, and says so by its name.
pub proof fn law_no_batches<F, B, R, S, K>(
    provider: &OllamaProvider<K>,
    requests: &[ModelInferenceRequest<F>],
    batch: &B,
    started: Result<R, ProviderError>,
    polled: Result<S, ProviderError>,
)
    requires
        call_ensures(
            OllamaProvider::<K>::start_batch_inference::<F, R>,
            (provider, requests),
            started,
        ),
        call_ensures(OllamaProvider::<K>::poll_batch_inference::<B, S>, (provider, batch), polled),
    ensures
        started matches Err(error)
            && error.details matches ErrorDetails::UnsupportedModelProviderForBatchInference {
            provider_type,
        } && provider_type@ == "ollama"@,
        polled matches Err(error)
            && error.details matches ErrorDetails::UnsupportedModelProviderForBatchInference {
            provider_type,
        } && provider_type@ == "ollama"@,
{
}

/// An error gives back the details that it was made of.
pub proof fn law_error_has_its_details(
    details: ErrorDetails,
    error: ProviderError,
    converted: ProviderError,
    back: ErrorDetails,
)
    requires
        call_ensures(ProviderError::new, (details,), error),
        call_ensures(<ProviderError as From<ErrorDetails>>::from, (details,), converted),
        call_ensures(ProviderError::get_owned_details, (error,), back),
    ensures
        error.details == details,
        converted.details == details,
        back == details,
{
}

/// A string becomes a block of that text, in what is said to the model and in
/// what the model says.
pub proof fn law_string_becomes_text(text: String, block: ContentBlock, output: ContentBlockOutput)
    requires
        call_ensures(<ContentBlock as From<String>>::from, (text,), block),
        call_ensures(<ContentBlockOutput as From<String>>::from, (text,), output),
    ensures
        block matches ContentBlock::Text(t) && t.text@ == text@,
        output matches ContentBlockOutput::Text(t) && t.text@ == text@,
{
}

/// A copy of a block is that block.
pub proof fn law_copied_block_is_the_same(block: &ContentBlock, copy: ContentBlock)
    requires
        call_ensures(<ContentBlock as Clone>::clone, (block,), copy),
    ensures
        copy == *block,
{
}

/// By default a request says nothing and sets nothing.
pub proof fn law_default_request_is_empty<F>(request: ModelInferenceRequest<F>)
    requires
        call_ensures(<ModelInferenceRequest<F> as Default>::default, (), request),
    ensures
        request.messages@.len() == 0,
        request.system is None,
        request.temperature is None,
        request.top_p is None,
        request.presence_penalty is None,
        request.frequency_penalty is None,
        request.max_tokens is None,
        request.seed is None,
        !request.stream,
        request.json_mode is Off,
{
}

} // verus!
