use ollama_provider::{
    format_messages_as_prompt, ContentBlock, ErrorDetails, Image, RequestMessage, Role, Thought,
    ToolCall, ToolResult,
};

fn text(text: &str) -> ContentBlock {
    text.to_string().into()
}

fn thought(text: &str) -> ContentBlock {
    ContentBlock::Thought(Thought { text: text.to_string() })
}

fn tool_call() -> ContentBlock {
    ContentBlock::ToolCall(ToolCall {
        id: "1".to_string(),
        name: "weather".to_string(),
        arguments: "{}".to_string(),
    })
}

fn user(content: Vec<ContentBlock>) -> RequestMessage {
    RequestMessage { role: Role::User, content }
}

fn refusal(content: Vec<ContentBlock>) -> String {
    let error = format_messages_as_prompt(&[user(vec![text("fine")]), user(content)]).unwrap_err();
    match error.get_owned_details() {
        ErrorDetails::InvalidMessage { message } => message,
        details => panic!("unexpected error: {:?}", details),
    }
}

#[test]
fn test_format_messages_as_prompt() {
    let messages = vec![
        RequestMessage {
            role: Role::User,
            content: vec!["Hello".to_string().into()],
        },
        RequestMessage {
            role: Role::Assistant,
            content: vec!["Hi there!".to_string().into()],
        },
        RequestMessage {
            role: Role::User,
            content: vec!["How are you?".to_string().into()],
        },
    ];

    let prompt = format_messages_as_prompt(&messages).unwrap();
    assert_eq!(prompt, "User: Hello\n\nAssistant: Hi there!\n\nUser: How are you?\n\nAssistant: ");
}

#[test]
fn empty_conversation_is_only_the_cue() {
    assert_eq!(format_messages_as_prompt(&[]).unwrap(), "Assistant: ");
}

#[test]
fn message_without_content_keeps_its_speaker() {
    let prompt = format_messages_as_prompt(&[user(vec![])]).unwrap();
    assert_eq!(prompt, "User: \nAssistant: ");
}

#[test]
fn blocks_of_a_message_stand_on_lines_of_their_own() {
    let prompt = format_messages_as_prompt(&[user(vec![text("one"), text("two")])]).unwrap();
    assert_eq!(prompt, "User: one\ntwo\n\nAssistant: ");
}

#[test]
fn thoughts_leave_no_trace() {
    let plain = format_messages_as_prompt(&[user(vec![text("one"), text("two")])]).unwrap();
    for at in 0..3 {
        let mut content = vec![text("one"), text("two")];
        content.insert(at, thought("hm"));
        assert_eq!(format_messages_as_prompt(&[user(content)]).unwrap(), plain);
    }
}

#[test]
fn continued_conversation_only_adds_to_the_prompt() {
    let first = format_messages_as_prompt(&[user(vec![text("one")])]).unwrap();
    let both =
        format_messages_as_prompt(&[user(vec![text("one")]), user(vec![text("two")])]).unwrap();
    let start = first.strip_suffix("Assistant: ").unwrap();
    assert_eq!(both, format!("{}User: two\n\nAssistant: ", start));
}

#[test]
fn each_unsupported_block_is_refused() {
    assert_eq!(refusal(vec![tool_call()]), "Tool calls not supported in Ollama");
    assert_eq!(
        refusal(vec![ContentBlock::ToolResult(ToolResult {
            id: "1".to_string(),
            name: "weather".to_string(),
            result: "sunny".to_string(),
        })]),
        "Tool results not supported in Ollama"
    );
    assert_eq!(
        refusal(vec![ContentBlock::Image(Image {
            mime_type: "image/png".to_string(),
            data: "AA==".to_string(),
        })]),
        "Images not supported in Ollama"
    );
    assert_eq!(
        refusal(vec![ContentBlock::Unknown { data: "{}".to_string() }]),
        "Unknown content block not supported in Ollama"
    );
}

#[test]
fn first_unsupported_block_decides() {
    assert_eq!(
        refusal(vec![
            thought("hm"),
            ContentBlock::Unknown { data: "{}".to_string() },
            tool_call(),
        ]),
        "Unknown content block not supported in Ollama"
    );
}
