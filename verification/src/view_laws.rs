//! What the views show: each part of a value under its own name.
use vstd::prelude::*;

use crate::common;
use crate::common::{
    ApiError, ApiErrorView, ChatCompletionsRequest, ChatMessage, ChatToolCall, ChatToolDefinition,
    ResponseEvent, ResponseEventView,
};
use crate::json;
use crate::json::JsonTree;
use crate::models;
use crate::models::{ContentItem, ContentItemView, ResponseItem, ResponseItemView};
use crate::sse::chat_completions::{ChatSseInput, ChatSseInputView, ChatSseStep, ToolCallState};
use crate::sse::chunk::{ChatChoice, ChatCompletionChunk, ChatDelta, ChatDeltaToolCall};

verus! {

/// Whether a text is shown as it is: there where the string is, with its
/// characters.
pub open spec fn shown(view: Option<Seq<char>>, text: Option<String>) -> bool {
    &&& view is Some <==> text is Some
    &&& text is Some ==> view->0 == text->0@
}

/// A tool call is shown with its id, type, name and arguments.
pub proof fn law_tool_call_view(call: ChatToolCall)
    ensures
        call@.id == call.id@,
        call@.call_type == call.call_type@,
        call@.name == call.function.name@,
        call@.arguments == call.function.arguments@,
{
}

/// A message is shown with its role, text, calls, answered call and name.
pub proof fn law_message_view(message: ChatMessage)
    ensures
        message@.role == message.role@,
        shown(message@.content, message.content),
        shown(message@.tool_call_id, message.tool_call_id),
        shown(message@.name, message.name),
        message@.tool_calls is Some <==> message.tool_calls is Some,
        message.tool_calls is Some ==> {
            let calls = message.tool_calls->0;
            &&& message@.tool_calls->0.len() == calls@.len()
            &&& forall|i: int|
                0 <= i < calls@.len() ==> #[trigger] message@.tool_calls->0[i] == calls@[i]@
        },
{
}

/// Messages are shown one by one, in their order.
pub proof fn law_messages_view(messages: Seq<ChatMessage>)
    ensures
        common::messages_view(messages).len() == messages.len(),
        forall|i: int|
            0 <= i < messages.len() ==> #[trigger] common::messages_view(messages)[i]
                == messages[i]@,
{
}

/// A tool is shown with its type, name, description and parameters.
pub proof fn law_tool_view(tool: ChatToolDefinition)
    ensures
        tool@.tool_type == tool.tool_type@,
        tool@.name == tool.function.name@,
        shown(tool@.description, tool.function.description),
        tool@.parameters == json::json_tree(tool.function.parameters),
{
}

/// Tools are shown one by one, in their order.
pub proof fn law_tools_view(tools: Seq<ChatToolDefinition>)
    ensures
        common::tools_view(tools).len() == tools.len(),
        forall|i: int|
            0 <= i < tools.len() ==> #[trigger] common::tools_view(tools)[i] == tools[i]@,
{
}

/// A request is shown with each of its parts.
pub proof fn law_request_view(request: ChatCompletionsRequest)
    ensures
        request@.model == request.model@,
        request@.messages == common::messages_view(request.messages@),
        request@.tools is Some <==> request.tools is Some,
        request.tools is Some ==> request@.tools->0 == common::tools_view(request.tools->0@),
        shown(request@.tool_choice, request.tool_choice),
        request@.stream == request.stream,
        request@.temperature == request.temperature,
{
}

/// An event is shown as the same event, with each of its parts.
pub proof fn law_event_view(event: ResponseEvent)
    ensures
        match event {
            ResponseEvent::ServerModel(model) => event@ == ResponseEventView::ServerModel(model@),
            ResponseEvent::OutputTextDelta(text) => event@ == ResponseEventView::OutputTextDelta(
                text@,
            ),
            ResponseEvent::OutputItemDone(item) => event@ == ResponseEventView::OutputItemDone(
                item@,
            ),
            ResponseEvent::Completed { response_id, token_usage, end_turn } => event@ == (
            ResponseEventView::Completed { response_id: response_id@, token_usage, end_turn }),
        },
{
}

/// Events are shown one by one, in their order.
pub proof fn law_events_view(events: Seq<ResponseEvent>)
    ensures
        common::events_view(events).len() == events.len(),
        forall|i: int|
            0 <= i < events.len() ==> #[trigger] common::events_view(events)[i] == events[i]@,
{
}

/// A failure is shown with its text.
pub proof fn law_error_view(error: ApiError)
    ensures
        error matches ApiError::Stream(message) ==> error@ == ApiErrorView::Stream(message@),
{
}

/// A piece of a message is shown as the same piece, with its text.
pub proof fn law_content_view(content: Seq<ContentItem>)
    ensures
        models::content_view(content).len() == content.len(),
        forall|i: int|
            0 <= i < content.len() ==> match content[i] {
                ContentItem::InputText { text } => #[trigger] models::content_view(content)[i] == (
                ContentItemView::InputText { text: text@ }),
                ContentItem::InputImage { image_url } => models::content_view(content)[i] == (
                ContentItemView::InputImage { image_url: image_url@ }),
                ContentItem::OutputText { text } => models::content_view(content)[i] == (
                ContentItemView::OutputText { text: text@ }),
            },
{
}

/// A message item is shown with its role, its pieces and its marks.
pub proof fn law_message_item_view(item: ResponseItem)
    requires
        item is Message,
    ensures
        item@ is Message,
        shown(item@->Message_id, item->Message_id),
        item@->Message_role == item->Message_role@,
        item@->Message_content == models::content_view(item->Message_content@),
        shown(item@->Message_phase, item->Message_phase),
{
}

/// A function call is shown with its name, arguments, ids and namespace.
pub proof fn law_function_call_view(item: ResponseItem)
    requires
        item is FunctionCall,
    ensures
        item@ is FunctionCall,
        shown(item@->FunctionCall_id, item->FunctionCall_id),
        item@->FunctionCall_name == item->FunctionCall_name@,
        shown(item@->FunctionCall_namespace, item->FunctionCall_namespace),
        item@->FunctionCall_arguments == item->FunctionCall_arguments@,
        item@->FunctionCall_call_id == item->FunctionCall_call_id@,
{
}

/// The other tool calls are shown with their ids and what they are called with.
pub proof fn law_other_calls_view(item: ResponseItem)
    ensures
        item is CustomToolCall ==> {
            &&& item@ is CustomToolCall
            &&& item@->CustomToolCall_call_id == item->CustomToolCall_call_id@
            &&& item@->CustomToolCall_name == item->CustomToolCall_name@
            &&& item@->CustomToolCall_input == item->CustomToolCall_input@
        },
        item is LocalShellCall ==> {
            &&& item@ is LocalShellCall
            &&& shown(item@->LocalShellCall_call_id, item->LocalShellCall_call_id)
            &&& shown(item@->LocalShellCall_action, item->LocalShellCall_action.json)
        },
{
}

/// The answers of tool calls are shown with the call's id and their text.
pub proof fn law_answers_view(item: ResponseItem)
    ensures
        item is FunctionCallOutput ==> {
            &&& item@ is FunctionCallOutput
            &&& item@->FunctionCallOutput_call_id == item->FunctionCallOutput_call_id@
            &&& shown(item@->FunctionCallOutput_output, item->FunctionCallOutput_output.body.text)
        },
        item is CustomToolCallOutput ==> {
            &&& item@ is CustomToolCallOutput
            &&& item@->CustomToolCallOutput_call_id == item->CustomToolCallOutput_call_id@
            &&& shown(
                item@->CustomToolCallOutput_output,
                item->CustomToolCallOutput_output.body.text,
            )
        },
{
}

/// The items that have no place in a chat are shown as what they are.
pub proof fn law_skipped_items_view(item: ResponseItem)
    ensures
        item is Reasoning <==> item@ is Reasoning,
        item is ToolSearchCall <==> item@ is ToolSearchCall,
        item is ToolSearchOutput <==> item@ is ToolSearchOutput,
        item is WebSearchCall <==> item@ is WebSearchCall,
        item is ImageGenerationCall <==> item@ is ImageGenerationCall,
        item is Compaction <==> item@ is Compaction,
        item is CompactionTrigger <==> item@ is CompactionTrigger,
        item is ContextCompaction <==> item@ is ContextCompaction,
        item is Other <==> item@ is Other,
{
}

/// Items are shown one by one, in their order.
pub proof fn law_items_view(items: Seq<ResponseItem>)
    ensures
        models::items_view(items).len() == items.len(),
        forall|i: int|
            0 <= i < items.len() ==> #[trigger] models::items_view(items)[i] == items[i]@,
{
}

/// A fragment of a tool call is shown with its index, id, type, name and
/// arguments.
pub proof fn law_fragment_view(delta: ChatDeltaToolCall)
    ensures
        delta@.index == delta.index,
        shown(delta@.id, delta.id),
        shown(delta@.call_type, delta.call_type),
        delta@.function is Some <==> delta.function is Some,
        delta.function is Some ==> {
            &&& shown(delta@.function->0.name, delta.function->0.name)
            &&& shown(delta@.function->0.arguments, delta.function->0.arguments)
        },
{
}

/// A delta is shown with its role, its text and its fragments in their order.
pub proof fn law_delta_view(delta: ChatDelta)
    ensures
        shown(delta@.role, delta.role),
        shown(delta@.content, delta.content),
        delta@.tool_calls is Some <==> delta.tool_calls is Some,
        delta.tool_calls is Some ==> {
            let calls = delta.tool_calls->0;
            &&& delta@.tool_calls->0.len() == calls@.len()
            &&& forall|i: int|
                0 <= i < calls@.len() ==> #[trigger] delta@.tool_calls->0[i] == calls@[i]@
        },
{
}

/// A choice is shown with its index, its delta and its finish reason.
pub proof fn law_choice_view(choice: ChatChoice)
    ensures
        choice@.index == choice.index,
        choice@.delta is Some <==> choice.delta is Some,
        choice.delta is Some ==> choice@.delta->0 == choice.delta->0@,
        shown(choice@.finish_reason, choice.finish_reason),
{
}

/// A chunk is shown with its choices in their order and its token counts.
pub proof fn law_chunk_view(chunk: ChatCompletionChunk)
    ensures
        chunk@.id == chunk.id@,
        shown(chunk@.model, chunk.model),
        chunk@.usage == chunk.usage,
        chunk@.choices is Some <==> chunk.choices is Some,
        chunk.choices is Some ==> {
            let choices = chunk.choices->0;
            &&& chunk@.choices->0.len() == choices@.len()
            &&& forall|i: int|
                0 <= i < choices@.len() ==> #[trigger] chunk@.choices->0[i] == choices@[i]@
        },
{
}

/// What happens on a stream is shown as what it is.
pub proof fn law_input_view(input: ChatSseInput)
    ensures
        match input {
            ChatSseInput::Done => input@ is Done,
            ChatSseInput::Chunk(chunk) => input@ == ChatSseInputView::Chunk(chunk@),
            ChatSseInput::Unreadable => input@ is Unreadable,
            ChatSseInput::Malformed(reason) => input@ == ChatSseInputView::Malformed(reason@),
            ChatSseInput::Ended => input@ is Ended,
            ChatSseInput::Idle(seconds) => input@ == ChatSseInputView::Idle(seconds),
        },
{
}

/// A step is shown with its events, its failure and whether it is the last.
pub proof fn law_step_view(step: ChatSseStep)
    ensures
        step@.events == common::events_view(step.events@),
        step@.failure is Some <==> step.failure is Some,
        step.failure is Some ==> step@.failure->0 == step.failure->0@,
        step@.over == step.over,
{
}

/// An open call is shown with its index, id, name and arguments.
pub proof fn law_open_call_view(call: ToolCallState)
    ensures
        call@.index == call.index,
        call@.id == call.id@,
        call@.name == call.name@,
        call@.arguments == call.arguments@,
{
}

/// Only an object has members, and each has the value that it holds; only a
/// string has a text.
pub proof fn law_json_parts(json: JsonTree, key: Seq<char>)
    ensures
        json matches JsonTree::Object(members) ==> {
            &&& members.contains_key(key) ==> json.member(key) == Some(members[key])
            &&& !members.contains_key(key) ==> json.member(key) is None
        },
        !(json is Object) ==> json.member(key) is None,
        json matches JsonTree::Text(text) ==> json.as_text() == Some(text),
        !(json is Text) ==> json.as_text() is None,
        JsonTree::empty_object() matches JsonTree::Object(members) && members == Map::<
            Seq<char>,
            JsonTree,
        >::empty(),
{
}

} // verus!
