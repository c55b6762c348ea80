//! Conversations, requests and tool definitions in the Chat Completions
//! format.
use vstd::prelude::*;
use vstd::string::*;

use crate::common;
use crate::common::{
    ChatFunctionCall, ChatMessage, ChatMessageView, ChatToolCall, ChatToolCallView,
};
use crate::models;
use crate::models::{ContentItem, ContentItemView, ResponseItem, ResponseItemView};
use crate::text;

verus! {

/// What a piece of a message reads as; an image has a stand-in.
pub open spec fn piece_text(piece: ContentItemView) -> Seq<char> {
    match piece {
        ContentItemView::InputText { text } => text,
        ContentItemView::OutputText { text } => text,
        ContentItemView::InputImage { .. } => "[image]"@,
    }
}

/// The texts of the pieces, one after the other.
pub open spec fn content_text(content: Seq<ContentItemView>) -> Seq<char>
    decreases content.len(),
{
    if content.len() == 0 {
        Seq::empty()
    } else {
        content_text(content.drop_last()) + piece_text(content.last())
    }
}

/// Chat providers know no "developer" role: it becomes "system".
pub open spec fn normalized_role(role: Seq<char>) -> Seq<char> {
    if role == "developer"@ {
        "system"@
    } else {
        role
    }
}

/// A message that holds nothing but text.
pub open spec fn text_message(role: Seq<char>, text: Seq<char>) -> ChatMessageView {
    ChatMessageView { role, content: Some(text), tool_calls: None, tool_call_id: None, name: None }
}

/// `messages` followed by a text. A system text that follows a system message
/// is joined to it instead of making a second one.
pub open spec fn with_text(
    messages: Seq<ChatMessageView>,
    role: Seq<char>,
    text: Seq<char>,
) -> Seq<ChatMessageView> {
    if role == "system"@ && messages.len() > 0 && messages.last().role == "system"@ {
        let last = messages.last();
        messages.drop_last().push(
            ChatMessageView {
                content: Some(text::paragraphs(text::text_or_empty(last.content), text)),
                ..last
            },
        )
    } else {
        messages.push(text_message(role, text))
    }
}

/// The tool calls of a message.
pub open spec fn calls_of(message: ChatMessageView) -> Seq<ChatToolCallView> {
    match message.tool_calls {
        Some(calls) => calls,
        None => Seq::empty(),
    }
}

/// `messages` followed by a tool call, which goes to the last message where
/// that is the assistant's and to a new assistant message otherwise.
pub open spec fn with_tool_call(
    messages: Seq<ChatMessageView>,
    call: ChatToolCallView,
) -> Seq<ChatMessageView> {
    if messages.len() > 0 && messages.last().role == "assistant"@ {
        let last = messages.last();
        messages.drop_last().push(
            ChatMessageView { tool_calls: Some(calls_of(last).push(call)), ..last },
        )
    } else {
        messages.push(
            ChatMessageView {
                role: "assistant"@,
                content: None,
                tool_calls: Some(seq![call]),
                tool_call_id: None,
                name: None,
            },
        )
    }
}

/// A call of a function.
pub open spec fn function_call(
    id: Seq<char>,
    name: Seq<char>,
    arguments: Seq<char>,
) -> ChatToolCallView {
    ChatToolCallView { id, call_type: "function"@, name, arguments }
}

/// The message that answers a tool call.
pub open spec fn tool_message(call_id: Seq<char>, text: Seq<char>) -> ChatMessageView {
    ChatMessageView {
        role: "tool"@,
        content: Some(text),
        tool_calls: None,
        tool_call_id: Some(call_id),
        name: None,
    }
}

/// The id of a local shell call: its own, or else one made from the number of
/// messages before it.
pub open spec fn shell_call_id(call_id: Option<Seq<char>>, before: nat) -> Seq<char> {
    match call_id {
        Some(id) => id,
        None => "local_shell_"@ + text::decimal(before),
    }
}

/// The tool call that an item stands for, where it is one; `before` is the
/// number of messages before it.
pub open spec fn item_call(item: ResponseItemView, before: nat) -> Option<ChatToolCallView> {
    match item {
        ResponseItemView::FunctionCall { name, arguments, call_id, .. } => Some(
            function_call(call_id, name, arguments),
        ),
        ResponseItemView::CustomToolCall { name, input, call_id } => Some(
            function_call(call_id, name, input),
        ),
        ResponseItemView::LocalShellCall { call_id, action } => Some(
            function_call(
                shell_call_id(call_id, before),
                "shell"@,
                text::text_or_empty(action),
            ),
        ),
        _ => None,
    }
}

/// The tool message that an item stands for, where it is an answer.
pub open spec fn item_answer(item: ResponseItemView) -> Option<ChatMessageView> {
    match item {
        ResponseItemView::FunctionCallOutput { call_id, output } => Some(
            tool_message(call_id, text::text_or_empty(output)),
        ),
        ResponseItemView::CustomToolCallOutput { call_id, output } => Some(
            tool_message(call_id, text::text_or_empty(output)),
        ),
        _ => None,
    }
}

/// `messages` followed by what an item adds. What is neither a message, a tool
/// call nor the answer of one adds nothing.
pub open spec fn with_item(
    messages: Seq<ChatMessageView>,
    item: ResponseItemView,
) -> Seq<ChatMessageView> {
    if let ResponseItemView::Message { role, content, .. } = item {
        with_text(messages, normalized_role(role), content_text(content))
    } else if let Some(call) = item_call(item, messages.len()) {
        with_tool_call(messages, call)
    } else if let Some(answer) = item_answer(item) {
        messages.push(answer)
    } else {
        messages
    }
}

/// The messages of a conversation.
pub open spec fn chat_messages(items: Seq<ResponseItemView>) -> Seq<ChatMessageView>
    decreases items.len(),
{
    if items.len() == 0 {
        Seq::empty()
    } else {
        with_item(chat_messages(items.drop_last()), items.last())
    }
}

/// The text of a message, piece by piece.
pub fn content_items_to_text(items: &[ContentItem]) -> (text: String)
    ensures
        text@ == content_text(models::content_view(items@)),
{
    let mut text = String::new();
    let mut i: usize = 0;
    assert(models::content_view(items@).take(0) =~= Seq::empty());
    while i < items.len()
        invariant
            0 <= i <= items@.len(),
            text@ == content_text(models::content_view(items@).take(i as int)),
        decreases items@.len() - i,
    {
        let ghost before = models::content_view(items@).take(i as int);
        match &items[i] {
            ContentItem::InputText { text: piece } => text.append(piece.as_str()),
            ContentItem::OutputText { text: piece } => text.append(piece.as_str()),
            ContentItem::InputImage { .. } => text.append("[image]"),
        }
        i += 1;
        proof {
            let after = models::content_view(items@).take(i as int);
            assert(after.drop_last() =~= before);
            assert(after.last() == items@[i - 1]@);
        }
    }
    assert(models::content_view(items@).take(i as int) =~= models::content_view(items@));
    text
}

/// Adds a text to a chat.
fn push_text(messages: &mut Vec<ChatMessage>, role: &str, text: String)
    ensures
        common::messages_view(final(messages)@) == with_text(
            common::messages_view(old(messages)@),
            role@,
            text@,
        ),
{
    let n = messages.len();
    if text::same_text(role, "system") && n > 0 && text::same_text(
        messages[n - 1].role.as_str(),
        "system",
    ) {
        let ghost before = messages@;
        if let Some(mut last) = messages.pop() {
            let joined = match &last.content {
                Some(content) => text::join_paragraphs(content.as_str(), text.as_str()),
                None => text::join_paragraphs("", text.as_str()),
            };
            proof {
                reveal_strlit("");
                assert(""@ =~= Seq::empty());
                assert(common::messages_view(before).last() == before.last()@);
            }
            last.content = Some(joined);
            messages.push(last);
            assert(common::messages_view(messages@) =~= with_text(
                common::messages_view(before),
                role@,
                text@,
            ));
        }
    } else {
        proof {
            if n > 0 {
                assert(common::messages_view(messages@).last() == messages@.last()@);
            }
        }
        let ghost before = messages@;
        messages.push(
            ChatMessage {
                role: role.to_owned(),
                content: Some(text),
                tool_calls: None,
                tool_call_id: None,
                name: None,
            },
        );
        assert(common::messages_view(messages@) =~= common::messages_view(before).push(
            text_message(role@, text@),
        ));
    }
}

/// Adds a tool call to a chat.
fn push_tool_call(messages: &mut Vec<ChatMessage>, call: ChatToolCall)
    ensures
        common::messages_view(final(messages)@) == with_tool_call(
            common::messages_view(old(messages)@),
            call@,
        ),
{
    let n = messages.len();
    let ghost before = messages@;
    proof {
        if n > 0 {
            assert(common::messages_view(before).last() == before.last()@);
        }
    }
    if n > 0 && text::same_text(messages[n - 1].role.as_str(), "assistant") {
        if let Some(mut last) = messages.pop() {
            let mut calls = match last.tool_calls.take() {
                Some(calls) => calls,
                None => Vec::new(),
            };
            let ghost calls_before = calls@;
            calls.push(call);
            assert(common::calls_view(calls@) =~= common::calls_view(calls_before).push(call@));
            assert(common::calls_view(calls_before) =~= calls_of(before.last()@));
            last.tool_calls = Some(calls);
            messages.push(last);
            assert(common::messages_view(messages@) =~= with_tool_call(
                common::messages_view(before),
                call@,
            ));
        }
    } else {
        let mut calls = Vec::new();
        calls.push(call);
        assert(common::calls_view(calls@) =~= seq![call@]);
        messages.push(
            ChatMessage {
                role: "assistant".to_owned(),
                content: None,
                tool_calls: Some(calls),
                tool_call_id: None,
                name: None,
            },
        );
        assert(common::messages_view(messages@) =~= with_tool_call(
            common::messages_view(before),
            call@,
        ));
    }
}

/// Adds the answer of a tool call to a chat.
fn push_answer(messages: &mut Vec<ChatMessage>, call_id: &String, text: Option<String>)
    ensures
        common::messages_view(final(messages)@) == common::messages_view(old(messages)@).push(
            tool_message(call_id@, text::text_or_empty(text::opt_text(text))),
        ),
{
    let ghost before = messages@;
    let content = match text {
        Some(text) => text,
        None => String::new(),
    };
    messages.push(
        ChatMessage {
            role: "tool".to_owned(),
            content: Some(content),
            tool_calls: None,
            tool_call_id: Some(call_id.clone()),
            name: None,
        },
    );
    assert(common::messages_view(messages@) =~= common::messages_view(before).push(
        tool_message(call_id@, text::text_or_empty(text::opt_text(text))),
    ));
}

/// A call of a function.
fn new_function_call(id: String, name: String, arguments: String) -> (call: ChatToolCall)
    ensures
        call@ == function_call(id@, name@, arguments@),
{
    ChatToolCall {
        id,
        call_type: "function".to_owned(),
        function: ChatFunctionCall { name, arguments },
    }
}

/// Converts the items of a conversation into chat messages.
///
/// - A `Message` becomes a message with its role and text; "developer" is
///   written "system", and consecutive system texts share one message.
/// - `FunctionCall`, `CustomToolCall` and `LocalShellCall` become tool calls
///   of an assistant message.
/// - `FunctionCallOutput` and `CustomToolCallOutput` become "tool" messages.
/// - All other items are skipped.
pub fn response_items_to_chat_messages(items: &[ResponseItem]) -> (messages: Vec<ChatMessage>)
    ensures
        common::messages_view(messages@) == chat_messages(models::items_view(items@)),
{
    let mut messages: Vec<ChatMessage> = Vec::new();
    let mut i: usize = 0;
    assert(models::items_view(items@).take(0) =~= Seq::empty());
    assert(common::messages_view(messages@) =~= Seq::empty());
    while i < items.len()
        invariant
            0 <= i <= items@.len(),
            common::messages_view(messages@) == chat_messages(
                models::items_view(items@).take(i as int),
            ),
        decreases items@.len() - i,
    {
        let ghost before = models::items_view(items@).take(i as int);
        let ghost messages_before = common::messages_view(messages@);
        match &items[i] {
            ResponseItem::Message { role, content, .. } => {
                let text = content_items_to_text(content.as_slice());
                if text::same_text(role.as_str(), "developer") {
                    push_text(&mut messages, "system", text);
                } else {
                    push_text(&mut messages, role.as_str(), text);
                }
            },
            ResponseItem::FunctionCall { name, arguments, call_id, .. } => {
                let call = new_function_call(call_id.clone(), name.clone(), arguments.clone());
                push_tool_call(&mut messages, call);
            },
            ResponseItem::CustomToolCall { name, input, call_id } => {
                let call = new_function_call(call_id.clone(), name.clone(), input.clone());
                push_tool_call(&mut messages, call);
            },
            ResponseItem::LocalShellCall { call_id, action } => {
                let id = match call_id {
                    Some(id) => id.clone(),
                    None => {
                        let mut id = "local_shell_".to_owned();
                        id.append(text::decimal_text(messages.len() as u64).as_str());
                        id
                    },
                };
                let arguments = match &action.json {
                    Some(json) => json.clone(),
                    None => String::new(),
                };
                let call = new_function_call(id, "shell".to_owned(), arguments);
                push_tool_call(&mut messages, call);
            },
            ResponseItem::FunctionCallOutput { call_id, output } => {
                push_answer(&mut messages, call_id, output.body.to_text());
            },
            ResponseItem::CustomToolCallOutput { call_id, output } => {
                push_answer(&mut messages, call_id, output.body.to_text());
            },
            ResponseItem::Reasoning { .. }
            | ResponseItem::WebSearchCall
            | ResponseItem::ToolSearchCall
            | ResponseItem::ToolSearchOutput
            | ResponseItem::ImageGenerationCall
            | ResponseItem::Compaction
            | ResponseItem::CompactionTrigger
            | ResponseItem::ContextCompaction
            | ResponseItem::Other => {},
        }
        assert(common::messages_view(messages@) == with_item(messages_before, items@[i as int]@));
        i += 1;
        proof {
            let after = models::items_view(items@).take(i as int);
            assert(after.drop_last() =~= before);
            assert(after.last() == items@[i - 1]@);
        }
    }
    assert(models::items_view(items@).take(i as int) =~= models::items_view(items@));
    messages
}

} // verus!
