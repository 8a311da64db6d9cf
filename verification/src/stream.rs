//! How the events of a streamed reply become chunks.
//!
//! The stream is a state machine. The caller reads events from the server and
//! hands each of them over; the stream says what to pass on for it, and when
//! the reply is complete.
use core::time::Duration;
use vstd::prelude::*;

use crate::credentials::PROVIDER_TYPE;
use crate::error::{ErrorDetails, ProviderError};
use crate::failure::{convert_stream_error, StreamFailure};
use crate::response::{FinishReason, OllamaResponse, Usage};

#[allow(unused_imports)]
use crate::error::ErrorView;
#[allow(unused_imports)]
use crate::failure::stream_error;
#[allow(unused_imports)]
use crate::response::{finish_reason_of, usage_of};

verus! {

/// A piece of text, and the block of the reply that it belongs to.
#[derive(Debug, PartialEq, Eq)]
pub struct TextChunk {
    pub text: String,
    pub id: String,
}

/// A piece of one block of what the model says.
#[derive(Debug, PartialEq, Eq)]
pub enum ContentBlockChunk {
    Text(TextChunk),
}

/// A piece of the outcome of an inference, as every provider delivers it.
#[derive(Debug)]
pub struct ProviderInferenceResponseChunk {
    pub content: Vec<ContentBlockChunk>,
    pub usage: Option<Usage>,
    pub raw_response: String,
    pub latency: Duration,
    pub finish_reason: Option<FinishReason>,
}

/// What the server sends on a stream.
#[derive(Debug)]
pub enum StreamEvent {
    /// Reading the stream failed.
    Failed(StreamFailure),
    /// The stream is open.
    Open,
    /// A message arrived.
    Message {
        data: String,
        /// What the message says, or why it could not be read.
        parsed: Result<OllamaResponse, String>,
        /// The time since the request was sent.
        latency: Duration,
    },
}

/// A stream: the token counts that were reported so far, and whether the reply
/// is complete.
#[derive(Clone, Copy, Debug, PartialEq, Eq, Structural)]
pub struct OllamaStream {
    pub prompt_eval_count: u32,
    pub eval_count: u32,
    pub closed: bool,
}

/// The mathematical model of a chunk: for each piece of its content, the text
/// and the block that it belongs to.
pub struct ChunkView {
    pub content: Seq<(Seq<char>, Seq<char>)>,
    pub usage: Option<Usage>,
    pub raw_response: Seq<char>,
    pub latency: Duration,
    pub finish_reason: Option<FinishReason>,
}

impl View for ContentBlockChunk {
    type V = (Seq<char>, Seq<char>);

    open spec fn view(&self) -> (Seq<char>, Seq<char>) {
        match *self {
            ContentBlockChunk::Text(chunk) => (chunk.text@, chunk.id@),
        }
    }
}

impl View for ProviderInferenceResponseChunk {
    type V = ChunkView;

    open spec fn view(&self) -> ChunkView {
        ChunkView {
            content: self.content@.map_values(|chunk: ContentBlockChunk| chunk@),
            usage: self.usage,
            raw_response: self.raw_response@,
            latency: self.latency,
            finish_reason: self.finish_reason,
        }
    }
}

/// The mathematical model of what is passed on for an event.
pub open spec fn item_view(item: Result<ProviderInferenceResponseChunk, ProviderError>) -> Result<
    ChunkView,
    ErrorView,
> {
    match item {
        Ok(chunk) => Ok(chunk@),
        Err(error) => Err(error@),
    }
}

/// The latest count: the reported one, or else the one before it.
pub open spec fn updated(count: u32, reported: Option<u32>) -> u32 {
    match reported {
        Some(new) => new,
        None => count,
    }
}

/// The state of a stream after an event. A message that can be read updates the
/// counts, and the last one closes the stream; nothing moves a closed stream.
pub open spec fn state_after_event(stream: OllamaStream, event: StreamEvent) -> OllamaStream {
    if stream.closed {
        stream
    } else {
        match event {
            StreamEvent::Message { parsed: Ok(response), .. } => OllamaStream {
                prompt_eval_count: updated(stream.prompt_eval_count, response.prompt_eval_count),
                eval_count: updated(stream.eval_count, response.eval_count),
                closed: response.done,
            },
            _ => stream,
        }
    }
}

/// The chunk for a message that can be read. The last one carries the latest
/// counts.
pub open spec fn chunk_of(
    stream: OllamaStream,
    response: OllamaResponse,
    data: Seq<char>,
    latency: Duration,
) -> ChunkView {
    ChunkView {
        content: seq![(response.response@, "0"@)],
        usage: if response.done {
            Some(
                Usage {
                    input_tokens: updated(stream.prompt_eval_count, response.prompt_eval_count),
                    output_tokens: updated(stream.eval_count, response.eval_count),
                },
            )
        } else {
            None
        },
        raw_response: data,
        latency,
        finish_reason: finish_reason_of(response.done),
    }
}

/// The error for a message that cannot be read.
pub open spec fn unreadable_chunk(data: Seq<char>, reason: Seq<char>) -> ErrorView {
    ErrorView::InferenceServer {
        message: "Error parsing chunk. Error: "@ + reason + ", Data: "@ + data,
        provider_type: PROVIDER_TYPE@,
        raw_request: None,
        raw_response: None,
    }
}

/// What is passed on for an event, if anything.
pub open spec fn item_of_event(stream: OllamaStream, event: StreamEvent) -> Option<
    Result<ChunkView, ErrorView>,
> {
    if stream.closed {
        None
    } else {
        match event {
            StreamEvent::Failed(failure) => Some(Err(stream_error(PROVIDER_TYPE@, failure))),
            StreamEvent::Open => None,
            StreamEvent::Message { data, parsed, latency } => match parsed {
                Ok(response) => Some(Ok(chunk_of(stream, response, data@, latency))),
                Err(reason) => Some(Err(unreadable_chunk(data@, reason@))),
            },
        }
    }
}

/// A stream of which no event has arrived yet.
pub open spec fn new_stream() -> OllamaStream {
    OllamaStream { prompt_eval_count: 0, eval_count: 0, closed: false }
}

/// A stream of which no event has arrived yet.
pub fn stream_ollama() -> (stream: OllamaStream)
    ensures
        stream == new_stream(),
{
    OllamaStream { prompt_eval_count: 0, eval_count: 0, closed: false }
}

impl OllamaStream {
    /// Takes an event in and says what to pass on for it. Once the stream is
    /// closed, no more events need to be read.
    pub fn on_event(&mut self, event: StreamEvent) -> (item: Option<
        Result<ProviderInferenceResponseChunk, ProviderError>,
    >)
        ensures
            *final(self) == state_after_event(*old(self), event),
            match item {
                Some(i) => item_of_event(*old(self), event) == Some(item_view(i)),
                None => item_of_event(*old(self), event) is None,
            },
    {
        if self.closed {
            return None;
        }
        match event {
            StreamEvent::Failed(failure) => Some(
                Err(convert_stream_error(PROVIDER_TYPE.to_string(), failure)),
            ),
            StreamEvent::Open => None,
            StreamEvent::Message { data, parsed, latency } => match parsed {
                Ok(response) => Some(Ok(self.on_response(response, data, latency))),
                Err(reason) => {
                    let mut message: String = "Error parsing chunk. Error: ".to_string();
                    message.append(reason.as_str());
                    message.append(", Data: ");
                    message.append(data.as_str());
                    Some(
                        Err(
                            ProviderError::new(
                                ErrorDetails::InferenceServer {
                                    message,
                                    provider_type: PROVIDER_TYPE.to_string(),
                                    raw_request: None,
                                    raw_response: None,
                                },
                            ),
                        ),
                    )
                },
            },
        }
    }

    /// Takes in what a message says and makes the chunk for it.
    fn on_response(&mut self, response: OllamaResponse, data: String, latency: Duration) -> (chunk:
        ProviderInferenceResponseChunk)
        requires
            !old(self).closed,
        ensures
            *final(self) == (OllamaStream {
                prompt_eval_count: updated(
                    old(self).prompt_eval_count,
                    response.prompt_eval_count,
                ),
                eval_count: updated(old(self).eval_count, response.eval_count),
                closed: response.done,
            }),
            chunk@ == chunk_of(*old(self), response, data@, latency),
    {
        if let Some(count) = response.prompt_eval_count {
            self.prompt_eval_count = count;
        }
        if let Some(count) = response.eval_count {
            self.eval_count = count;
        }
        let finish_reason: Option<FinishReason> = if response.done {
            Some(FinishReason::Stop)
        } else {
            None
        };
        let usage: Option<Usage> = if response.done {
            Some(Usage { input_tokens: self.prompt_eval_count, output_tokens: self.eval_count })
        } else {
            None
        };
        self.closed = response.done;
        let content: Vec<ContentBlockChunk> = vec![
            ContentBlockChunk::Text(TextChunk { text: response.response, id: "0".to_string() }),
        ];
        let chunk = ProviderInferenceResponseChunk {
            content,
            usage,
            raw_response: data,
            latency,
            finish_reason,
        };
        proof {
            assert(chunk@.content =~= seq![(response.response@, "0"@)]);
        }
        chunk
    }
}

/// The state of a stream after some events.
pub open spec fn state_after(stream: OllamaStream, events: Seq<StreamEvent>) -> OllamaStream
    decreases events.len(),
{
    if events.len() == 0 {
        stream
    } else {
        state_after_event(state_after(stream, events.drop_last()), events.last())
    }
}

/// What is passed on for some events, in their order.
pub open spec fn items_of(stream: OllamaStream, events: Seq<StreamEvent>) -> Seq<
    Result<ChunkView, ErrorView>,
>
    decreases events.len(),
{
    if events.len() == 0 {
        Seq::empty()
    } else {
        let items = items_of(stream, events.drop_last());
        match item_of_event(state_after(stream, events.drop_last()), events.last()) {
            Some(item) => items.push(item),
            None => items,
        }
    }
}

/// Whether an event is the message that completes a reply.
pub open spec fn completes(event: StreamEvent) -> bool {
    event matches StreamEvent::Message { parsed: Ok(response), .. } && response.done
}

/// Whether none of some events completes a reply.
pub open spec fn is_incomplete(events: Seq<StreamEvent>) -> bool {
    forall|i: int| 0 <= i < events.len() ==> !completes(#[trigger] events[i])
}

/// The size of a prompt that an event reports, if it does.
pub open spec fn reported_prompt_eval_count(event: StreamEvent) -> Option<u32> {
    match event {
        StreamEvent::Message { parsed: Ok(response), .. } => response.prompt_eval_count,
        _ => None,
    }
}

/// The number of generated tokens that an event reports, if it does.
pub open spec fn reported_eval_count(event: StreamEvent) -> Option<u32> {
    match event {
        StreamEvent::Message { parsed: Ok(response), .. } => response.eval_count,
        _ => None,
    }
}

/// Whether `count` is the last that any of some events reports, or zero if none
/// reports any.
pub open spec fn is_last_reported(count: u32, reports: Seq<Option<u32>>) -> bool {
    ||| count == 0 && forall|i: int| 0 <= i < reports.len() ==> #[trigger] reports[i] is None
    ||| exists|i: int|
        {
            &&& 0 <= i < reports.len()
            &&& #[trigger] reports[i] == Some(count)
            &&& forall|k: int| i < k < reports.len() ==> #[trigger] reports[k] is None
        }
}

/// One more report takes over from the last one.
proof fn lemma_last_reported_push(count: u32, reports: Seq<Option<u32>>, report: Option<u32>)
    requires
        is_last_reported(count, reports),
    ensures
        is_last_reported(updated(count, report), reports.push(report)),
{
    let longer = reports.push(report);
    if report is Some {
        assert(longer[reports.len() as int] == Some(updated(count, report)));
    } else if exists|i: int|
        {
            &&& 0 <= i < reports.len()
            &&& #[trigger] reports[i] == Some(count)
            &&& forall|k: int| i < k < reports.len() ==> #[trigger] reports[k] is None
        } {
        let i = choose|i: int|
            {
                &&& 0 <= i < reports.len()
                &&& #[trigger] reports[i] == Some(count)
                &&& forall|k: int| i < k < reports.len() ==> #[trigger] reports[k] is None
            };
        assert(longer[i] == Some(count));
        assert forall|k: int| i < k < longer.len() implies #[trigger] longer[k] is None by {
            if k < reports.len() {
                assert(longer[k] == reports[k]);
            }
        }
    } else {
        assert forall|k: int| 0 <= k < longer.len() implies #[trigger] longer[k] is None by {
            if k < reports.len() {
                assert(longer[k] == reports[k]);
            }
        }
    }
}

/// The token counts of a stream are the last that were reported to it, and it
/// stays open until a message completes the reply: errors and unreadable
/// messages change neither.
pub proof fn law_counts_are_last_reported(events: Seq<StreamEvent>)
    requires
        is_incomplete(events),
    ensures
        !state_after(new_stream(), events).closed,
        is_last_reported(
            state_after(new_stream(), events).prompt_eval_count,
            events.map_values(|event: StreamEvent| reported_prompt_eval_count(event)),
        ),
        is_last_reported(
            state_after(new_stream(), events).eval_count,
            events.map_values(|event: StreamEvent| reported_eval_count(event)),
        ),
    decreases events.len(),
{
    let prompt_report = |event: StreamEvent| reported_prompt_eval_count(event);
    let eval_report = |event: StreamEvent| reported_eval_count(event);
    if events.len() > 0 {
        let start = events.drop_last();
        let last = events.last();
        assert forall|i: int| 0 <= i < start.len() implies !completes(#[trigger] start[i]) by {
            assert(start[i] == events[i]);
        }
        law_counts_are_last_reported(start);
        assert(!completes(events[events.len() - 1]));
        let state = state_after(new_stream(), start);
        lemma_last_reported_push(
            state.prompt_eval_count,
            start.map_values(prompt_report),
            prompt_report(last),
        );
        lemma_last_reported_push(
            state.eval_count,
            start.map_values(eval_report),
            eval_report(last),
        );
        assert(events.map_values(prompt_report) =~= start.map_values(prompt_report).push(
            prompt_report(last),
        ));
        assert(events.map_values(eval_report) =~= start.map_values(eval_report).push(
            eval_report(last),
        ));
    }
}

/// Nothing moves a closed stream, and nothing more is passed on for it.
pub proof fn law_closed_stream_is_silent(stream: OllamaStream, events: Seq<StreamEvent>)
    requires
        stream.closed,
    ensures
        state_after(stream, events) == stream,
        items_of(stream, events) == Seq::<Result<ChunkView, ErrorView>>::empty(),
    decreases events.len(),
{
    if events.len() > 0 {
        law_closed_stream_is_silent(stream, events.drop_last());
    }
}

/// A stream that takes in some events and then some more passes on what it does
/// for the first, and then what it does for the rest from where it stands.
pub proof fn law_stream_continues(
    stream: OllamaStream,
    first: Seq<StreamEvent>,
    second: Seq<StreamEvent>,
)
    ensures
        state_after(stream, first + second) == state_after(state_after(stream, first), second),
        items_of(stream, first + second) == items_of(stream, first) + items_of(
            state_after(stream, first),
            second,
        ),
    decreases second.len(),
{
    if second.len() == 0 {
        assert(first + second =~= first);
        assert(items_of(stream, first) + items_of(state_after(stream, first), second)
            =~= items_of(stream, first));
    } else {
        law_stream_continues(stream, first, second.drop_last());
        assert((first + second).drop_last() =~= first + second.drop_last());
        assert((first + second).last() == second.last());
        assert(items_of(stream, first + second) =~= items_of(stream, first) + items_of(
            state_after(stream, first),
            second,
        ));
    }
}

/// While a reply is incomplete, each message and each failure makes exactly one
/// item, the opening of the stream makes none, and no chunk gives a usage or a
/// reason to stop.
pub proof fn law_one_item_per_event(events: Seq<StreamEvent>)
    requires
        is_incomplete(events),
    ensures
        items_of(new_stream(), events).len() == events.filter(
            |event: StreamEvent| !(event is Open),
        ).len(),
        forall|i: int|
            #![trigger items_of(new_stream(), events)[i]]
            0 <= i < items_of(new_stream(), events).len() ==> (items_of(
                new_stream(),
                events,
            )[i] matches Ok(chunk) ==> chunk.usage is None && chunk.finish_reason is None),
    decreases events.len(),
{
    let makes_item = |event: StreamEvent| !(event is Open);
    reveal(Seq::filter);
    if events.len() > 0 {
        let start = events.drop_last();
        assert forall|i: int| 0 <= i < start.len() implies !completes(#[trigger] start[i]) by {
            assert(start[i] == events[i]);
        }
        law_one_item_per_event(start);
        law_counts_are_last_reported(start);
        assert(!completes(events[events.len() - 1]));
        let items = items_of(new_stream(), events);
        assert forall|i: int| #![trigger items[i]] 0 <= i < items.len() implies (
        items[i] matches Ok(chunk) ==> chunk.usage is None && chunk.finish_reason is None) by {
            if i < items_of(new_stream(), start).len() {
                assert(items[i] == items_of(new_stream(), start)[i]);
            }
        }
    }
}

/// The message that completes a reply makes the last item of the stream,
/// whatever is sent after it. That item gives the reason to stop, and as usage
/// the last counts that were reported up to it.
pub proof fn law_reply_ends_with_usage(
    before: Seq<StreamEvent>,
    last: StreamEvent,
    after: Seq<StreamEvent>,
)
    requires
        is_incomplete(before),
        completes(last),
    ensures
        ({
            let events = before.push(last);
            let items = items_of(new_stream(), events + after);
            &&& state_after(new_stream(), events + after).closed
            &&& items == items_of(new_stream(), events)
            &&& items.len() == items_of(new_stream(), before).len() + 1
            &&& items.last() matches Ok(chunk) && {
                &&& chunk.finish_reason == Some(FinishReason::Stop)
                &&& chunk.usage matches Some(usage) && {
                    &&& is_last_reported(
                        usage.input_tokens,
                        events.map_values(|event: StreamEvent| reported_prompt_eval_count(event)),
                    )
                    &&& is_last_reported(
                        usage.output_tokens,
                        events.map_values(|event: StreamEvent| reported_eval_count(event)),
                    )
                }
            }
        }),
{
    let prompt_report = |event: StreamEvent| reported_prompt_eval_count(event);
    let eval_report = |event: StreamEvent| reported_eval_count(event);
    let events = before.push(last);
    let state = state_after(new_stream(), before);
    law_counts_are_last_reported(before);
    assert(events.drop_last() =~= before);
    assert(events.last() == last);
    law_stream_continues(new_stream(), events, after);
    law_closed_stream_is_silent(state_after(new_stream(), events), after);
    assert(items_of(new_stream(), events + after) =~= items_of(new_stream(), events));
    lemma_last_reported_push(
        state.prompt_eval_count,
        before.map_values(prompt_report),
        prompt_report(last),
    );
    lemma_last_reported_push(state.eval_count, before.map_values(eval_report), eval_report(last));
    assert(events.map_values(prompt_report) =~= before.map_values(prompt_report).push(
        prompt_report(last),
    ));
    assert(events.map_values(eval_report) =~= before.map_values(eval_report).push(
        eval_report(last),
    ));
}

/// A reply that is streamed in one message comes to the same usage and reason
/// to stop as the reply in one piece.
pub proof fn law_single_message_agrees(
    response: OllamaResponse,
    data: Seq<char>,
    latency: Duration,
)
    requires
        response.done,
    ensures
        chunk_of(new_stream(), response, data, latency).usage == Some(usage_of(response)),
        chunk_of(new_stream(), response, data, latency).finish_reason == finish_reason_of(
            response.done,
        ),
{
}

} // verus!
