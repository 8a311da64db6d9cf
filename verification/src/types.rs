//! The values that a request for inference is made of.
use vstd::prelude::*;

verus! {

/// Who speaks in a message.
#[derive(Clone, Copy, Debug, PartialEq, Eq, Structural)]
pub enum Role {
    User,
    Assistant,
}

/// A piece of text.
#[derive(Debug, PartialEq, Eq)]
pub struct Text {
    pub text: String,
}

/// A call of a tool that the model asked for.
#[derive(Debug, PartialEq, Eq)]
pub struct ToolCall {
    pub id: String,
    pub name: String,
    pub arguments: String,
}

/// What a tool answered to a call.
#[derive(Debug, PartialEq, Eq)]
pub struct ToolResult {
    pub id: String,
    pub name: String,
    pub result: String,
}

/// An image, by its media type and its encoded bytes.
#[derive(Debug, PartialEq, Eq)]
pub struct Image {
    pub mime_type: String,
    pub data: String,
}

/// Reasoning that the model kept to itself.
#[derive(Debug, PartialEq, Eq)]
pub struct Thought {
    pub text: String,
}

/// One block of the content of a message.
#[derive(Debug, PartialEq, Eq)]
pub enum ContentBlock {
    Text(Text),
    ToolCall(ToolCall),
    ToolResult(ToolResult),
    Image(Image),
    Thought(Thought),
    /// A block of a kind that only some other provider knows.
    Unknown { data: String },
}

impl Clone for Text {
    fn clone(&self) -> (copy: Text)
        ensures
            copy == *self,
    {
        Text { text: self.text.clone() }
    }
}

impl Clone for ToolCall {
    fn clone(&self) -> (copy: ToolCall)
        ensures
            copy == *self,
    {
        ToolCall {
            id: self.id.clone(),
            name: self.name.clone(),
            arguments: self.arguments.clone(),
        }
    }
}

impl Clone for ToolResult {
    fn clone(&self) -> (copy: ToolResult)
        ensures
            copy == *self,
    {
        ToolResult {
            id: self.id.clone(),
            name: self.name.clone(),
            result: self.result.clone(),
        }
    }
}

impl Clone for Image {
    fn clone(&self) -> (copy: Image)
        ensures
            copy == *self,
    {
        Image { mime_type: self.mime_type.clone(), data: self.data.clone() }
    }
}

impl Clone for Thought {
    fn clone(&self) -> (copy: Thought)
        ensures
            copy == *self,
    {
        Thought { text: self.text.clone() }
    }
}

impl Clone for ContentBlock {
    fn clone(&self) -> (copy: ContentBlock)
        ensures
            copy == *self,
    {
        match self {
            ContentBlock::Text(text) => ContentBlock::Text(text.clone()),
            ContentBlock::ToolCall(call) => ContentBlock::ToolCall(call.clone()),
            ContentBlock::ToolResult(result) => ContentBlock::ToolResult(result.clone()),
            ContentBlock::Image(image) => ContentBlock::Image(image.clone()),
            ContentBlock::Thought(thought) => ContentBlock::Thought(thought.clone()),
            ContentBlock::Unknown { data } => ContentBlock::Unknown { data: data.clone() },
        }
    }
}

impl From<String> for ContentBlock {
    fn from(text: String) -> (block: ContentBlock) {
        ContentBlock::Text(Text { text })
    }
}

impl vstd::std_specs::convert::FromSpecImpl<String> for ContentBlock {
    open spec fn obeys_from_spec() -> bool {
        true
    }

    open spec fn from_spec(text: String) -> ContentBlock {
        ContentBlock::Text(Text { text })
    }
}

/// A message of the conversation so far.
#[derive(Debug, PartialEq, Eq)]
pub struct RequestMessage {
    pub role: Role,
    pub content: Vec<ContentBlock>,
}

/// The mathematical model of a message.
pub struct RequestMessageView {
    pub role: Role,
    pub content: Seq<ContentBlock>,
}

impl View for RequestMessage {
    type V = RequestMessageView;

    open spec fn view(&self) -> RequestMessageView {
        RequestMessageView { role: self.role, content: self.content@ }
    }
}

impl Clone for RequestMessage {
    fn clone(&self) -> (copy: RequestMessage)
        ensures
            copy@ == self@,
    {
        let content: Vec<ContentBlock> = self.content.clone();
        proof {
            assert(content@ =~= self.content@);
        }
        RequestMessage { role: self.role, content }
    }
}

/// The models of a list of messages, in its order.
pub open spec fn messages_view(messages: Seq<RequestMessage>) -> Seq<RequestMessageView> {
    messages.map_values(|message: RequestMessage| message@)
}

/// Copies a list of messages.
pub(crate) fn clone_messages(messages: &Vec<RequestMessage>) -> (copies: Vec<RequestMessage>)
    ensures
        messages_view(copies@) == messages_view(messages@),
{
    let mut copies: Vec<RequestMessage> = Vec::new();
    for i in 0..messages.len()
        invariant
            messages_view(copies@) == messages_view(messages@.take(i as int)),
    {
        let ghost before = copies@;
        copies.push(messages[i].clone());
        proof {
            assert(messages@.take(i + 1) =~= messages@.take(i as int).push(messages@[i as int]));
            assert(messages_view(copies@) =~= messages_view(before).push(messages@[i as int]@));
            assert(messages_view(messages@.take(i + 1)) =~= messages_view(
                messages@.take(i as int),
            ).push(messages@[i as int]@));
        }
    }
    proof {
        assert(messages@.take(messages@.len() as int) =~= messages@);
    }
    copies
}

/// Whether the model has to answer in JSON.
#[derive(Clone, Copy, Debug, PartialEq, Eq, Structural)]
pub enum ModelInferenceRequestJsonMode {
    Off,
    On,
    /// Answer in JSON that follows a schema.
    Strict,
}

/// A request for inference, as every provider receives it. `F` is the number
/// type of the sampling parameters, which pass through unread.
#[derive(Debug)]
pub struct ModelInferenceRequest<F> {
    pub messages: Vec<RequestMessage>,
    pub system: Option<String>,
    pub temperature: Option<F>,
    pub top_p: Option<F>,
    pub presence_penalty: Option<F>,
    pub frequency_penalty: Option<F>,
    pub max_tokens: Option<u32>,
    pub seed: Option<u32>,
    pub stream: bool,
    pub json_mode: ModelInferenceRequestJsonMode,
}

impl<F> Default for ModelInferenceRequest<F> {
    fn default() -> (request: ModelInferenceRequest<F>)
        ensures
            request.messages@.len() == 0,
            request.system is None,
            request.temperature is None,
            request.top_p is None,
            request.presence_penalty is None,
            request.frequency_penalty is None,
            request.max_tokens is None,
            request.seed is None,
            !request.stream,
            request.json_mode is Off,
    {
        ModelInferenceRequest {
            messages: Vec::new(),
            system: None,
            temperature: None,
            top_p: None,
            presence_penalty: None,
            frequency_penalty: None,
            max_tokens: None,
            seed: None,
            stream: false,
            json_mode: ModelInferenceRequestJsonMode::Off,
        }
    }
}

} // verus!
