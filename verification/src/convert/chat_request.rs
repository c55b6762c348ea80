//! Chat completion requests.
use vstd::prelude::*;

use crate::common;
use crate::common::{
    ChatCompletionsRequest, ChatCompletionsRequestView, ChatMessage, ChatMessageView,
    ChatToolDefinition,
};
use crate::convert::chat_messages;
use crate::models;
use crate::models::ResponseItem;
use crate::text;

verus! {

/// Whether a message speaks for the system.
pub open spec fn is_system(message: ChatMessageView) -> bool {
    message.role == "system"@
}

/// The place of the first system message; the number of messages where there
/// is none.
pub open spec fn system_position(messages: Seq<ChatMessageView>) -> nat
    decreases messages.len(),
{
    if messages.len() == 0 || is_system(messages.first()) {
        0
    } else {
        1 + system_position(messages.drop_first())
    }
}

/// The messages with the instructions put in front. The first system message
/// is taken out of its place and joined to the instructions.
pub open spec fn with_instructions(
    instructions: Seq<char>,
    messages: Seq<ChatMessageView>,
) -> Seq<ChatMessageView> {
    let p = system_position(messages);
    if instructions.len() == 0 {
        messages
    } else if p < messages.len() {
        let merged = text::paragraphs(
            instructions,
            text::text_or_empty(messages[p as int].content),
        );
        seq![chat_messages::text_message("system"@, merged)] + messages.remove(p as int)
    } else {
        seq![chat_messages::text_message("system"@, instructions)] + messages
    }
}

/// Finds the first system message.
fn find_system(messages: &Vec<ChatMessage>) -> (position: usize)
    ensures
        position == system_position(common::messages_view(messages@)),
        position <= messages@.len(),
{
    let ghost all = common::messages_view(messages@);
    let mut i: usize = 0;
    assert(all.skip(0) =~= all);
    while i < messages.len()
        invariant
            0 <= i <= messages@.len(),
            all == common::messages_view(messages@),
            system_position(all) == i + system_position(all.skip(i as int)),
        decreases messages@.len() - i,
    {
        assert(all.skip(i as int).first() == messages@[i as int]@);
        if text::same_text(messages[i].role.as_str(), "system") {
            return i;
        }
        assert(all.skip(i as int).drop_first() =~= all.skip(i + 1));
        i += 1;
    }
    i
}

/// Converts an instruction text and the items of a conversation into a
/// request for a chat completion.
///
/// Non-empty instructions open the chat as a system message, which takes in
/// the first system message of the conversation. The tool choice is left to
/// the model where there are tools, and is unset where there are none.
pub fn build_chat_completions_request(
    model: &str,
    instructions: &str,
    input: &[ResponseItem],
    tools: Vec<ChatToolDefinition>,
    stream: bool,
) -> (request: ChatCompletionsRequest)
    ensures
        request@ == (ChatCompletionsRequestView {
            model: model@,
            messages: with_instructions(
                instructions@,
                chat_messages::chat_messages(models::items_view(input@)),
            ),
            tools: if tools@.len() == 0 {
                None
            } else {
                Some(common::tools_view(tools@))
            },
            tool_choice: if tools@.len() == 0 {
                None
            } else {
                Some("auto"@)
            },
            stream,
            temperature: None,
        }),
{
    let mut messages = chat_messages::response_items_to_chat_messages(input);
    if !instructions.is_empty() {
        let ghost before = messages@;
        let position = find_system(&messages);
        let content = if position < messages.len() {
            let first = messages.remove(position);
            match &first.content {
                Some(content) => text::join_paragraphs(instructions, content.as_str()),
                None => text::join_paragraphs(instructions, ""),
            }
        } else {
            instructions.to_owned()
        };
        proof {
            reveal_strlit("");
            assert(""@ =~= Seq::empty());
            if position < before.len() {
                assert(common::messages_view(before)[position as int] == before[position as int]@);
            }
        }
        messages.insert(
            0,
            ChatMessage {
                role: "system".to_owned(),
                content: Some(content),
                tool_calls: None,
                tool_call_id: None,
                name: None,
            },
        );
        assert(common::messages_view(messages@) =~= with_instructions(
            instructions@,
            common::messages_view(before),
        ));
    }
    let (tools, tool_choice) = if tools.is_empty() {
        (None, None)
    } else {
        (Some(tools), Some("auto".to_owned()))
    };
    ChatCompletionsRequest {
        model: model.to_owned(),
        messages,
        tools,
        tool_choice,
        stream,
        temperature: None,
    }
}

} // verus!
