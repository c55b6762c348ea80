//! The Chat Completions wire model and the events of a streamed response.
use vstd::prelude::*;

use crate::json;
use crate::json::JsonTree;
use crate::models::{ResponseItem, ResponseItemView};
use crate::text;

verus! {

/// The function that a tool call names.
#[derive(Debug, PartialEq, Eq)]
pub struct ChatFunctionCall {
    pub name: String,
    pub arguments: String,
}

/// A tool call of an assistant message.
#[derive(Debug, PartialEq, Eq)]
pub struct ChatToolCall {
    pub id: String,
    pub call_type: String,
    pub function: ChatFunctionCall,
}

/// A message of a chat.
#[derive(Debug, PartialEq, Eq)]
pub struct ChatMessage {
    pub role: String,
    pub content: Option<String>,
    pub tool_calls: Option<Vec<ChatToolCall>>,
    pub tool_call_id: Option<String>,
    pub name: Option<String>,
}

/// A function that the model may call.
#[derive(Debug, PartialEq)]
pub struct ChatFunctionDefinition {
    pub name: String,
    pub description: Option<String>,
    pub parameters: serde_json::Value,
}

/// A tool that the model may use.
#[derive(Debug, PartialEq)]
pub struct ChatToolDefinition {
    pub tool_type: String,
    pub function: ChatFunctionDefinition,
}

/// A sampling temperature, in thousandths.
#[derive(Debug, Clone, Copy, PartialEq, Eq)]
pub struct Temperature {
    pub thousandths: u32,
}

/// A request for a chat completion.
#[derive(Debug, PartialEq)]
pub struct ChatCompletionsRequest {
    pub model: String,
    pub messages: Vec<ChatMessage>,
    pub tools: Option<Vec<ChatToolDefinition>>,
    pub tool_choice: Option<String>,
    pub stream: bool,
    pub temperature: Option<Temperature>,
}

/// The tokens that a response took.
#[derive(Debug, Clone, Copy, PartialEq, Eq)]
pub struct TokenUsage {
    pub input_tokens: i64,
    pub cached_input_tokens: i64,
    pub output_tokens: i64,
    pub reasoning_output_tokens: i64,
    pub total_tokens: i64,
}

/// An event of a streamed response.
#[derive(Debug, PartialEq, Eq)]
pub enum ResponseEvent {
    ServerModel(String),
    OutputTextDelta(String),
    OutputItemDone(ResponseItem),
    Completed {
        response_id: String,
        token_usage: Option<TokenUsage>,
        end_turn: Option<bool>,
    },
}

/// A failure of a request.
#[derive(Debug, PartialEq, Eq)]
pub enum ApiError {
    Stream(String),
}

/// A tool call, by its texts.
pub struct ChatToolCallView {
    pub id: Seq<char>,
    pub call_type: Seq<char>,
    pub name: Seq<char>,
    pub arguments: Seq<char>,
}

/// A message, by its texts.
pub struct ChatMessageView {
    pub role: Seq<char>,
    pub content: Option<Seq<char>>,
    pub tool_calls: Option<Seq<ChatToolCallView>>,
    pub tool_call_id: Option<Seq<char>>,
    pub name: Option<Seq<char>>,
}

/// A tool, by its texts and the JSON tree of its parameters.
pub struct ChatToolDefinitionView {
    pub tool_type: Seq<char>,
    pub name: Seq<char>,
    pub description: Option<Seq<char>>,
    pub parameters: JsonTree,
}

/// A request, by its texts.
pub struct ChatCompletionsRequestView {
    pub model: Seq<char>,
    pub messages: Seq<ChatMessageView>,
    pub tools: Option<Seq<ChatToolDefinitionView>>,
    pub tool_choice: Option<Seq<char>>,
    pub stream: bool,
    pub temperature: Option<Temperature>,
}

/// An event, by its texts.
pub enum ResponseEventView {
    ServerModel(Seq<char>),
    OutputTextDelta(Seq<char>),
    OutputItemDone(ResponseItemView),
    Completed {
        response_id: Seq<char>,
        token_usage: Option<TokenUsage>,
        end_turn: Option<bool>,
    },
}

/// A failure, by its text.
pub enum ApiErrorView {
    Stream(Seq<char>),
}

impl View for ChatToolCall {
    type V = ChatToolCallView;

    open spec fn view(&self) -> ChatToolCallView {
        ChatToolCallView {
            id: self.id@,
            call_type: self.call_type@,
            name: self.function.name@,
            arguments: self.function.arguments@,
        }
    }
}

/// The tool calls of a message, by their texts.
pub open spec fn calls_view(calls: Seq<ChatToolCall>) -> Seq<ChatToolCallView> {
    calls.map_values(|call: ChatToolCall| call@)
}

impl View for ChatMessage {
    type V = ChatMessageView;

    open spec fn view(&self) -> ChatMessageView {
        ChatMessageView {
            role: self.role@,
            content: text::opt_text(self.content),
            tool_calls: match self.tool_calls {
                Some(calls) => Some(calls_view(calls@)),
                None => None,
            },
            tool_call_id: text::opt_text(self.tool_call_id),
            name: text::opt_text(self.name),
        }
    }
}

/// Messages, by their texts.
pub open spec fn messages_view(messages: Seq<ChatMessage>) -> Seq<ChatMessageView> {
    messages.map_values(|message: ChatMessage| message@)
}

impl View for ChatToolDefinition {
    type V = ChatToolDefinitionView;

    open spec fn view(&self) -> ChatToolDefinitionView {
        ChatToolDefinitionView {
            tool_type: self.tool_type@,
            name: self.function.name@,
            description: text::opt_text(self.function.description),
            parameters: json::json_tree(self.function.parameters),
        }
    }
}

/// Tools, by their texts.
pub open spec fn tools_view(tools: Seq<ChatToolDefinition>) -> Seq<ChatToolDefinitionView> {
    tools.map_values(|tool: ChatToolDefinition| tool@)
}

impl View for ChatCompletionsRequest {
    type V = ChatCompletionsRequestView;

    open spec fn view(&self) -> ChatCompletionsRequestView {
        ChatCompletionsRequestView {
            model: self.model@,
            messages: messages_view(self.messages@),
            tools: match self.tools {
                Some(tools) => Some(tools_view(tools@)),
                None => None,
            },
            tool_choice: text::opt_text(self.tool_choice),
            stream: self.stream,
            temperature: self.temperature,
        }
    }
}

impl View for ResponseEvent {
    type V = ResponseEventView;

    open spec fn view(&self) -> ResponseEventView {
        match self {
            ResponseEvent::ServerModel(model) => ResponseEventView::ServerModel(model@),
            ResponseEvent::OutputTextDelta(text) => ResponseEventView::OutputTextDelta(text@),
            ResponseEvent::OutputItemDone(item) => ResponseEventView::OutputItemDone(item@),
            ResponseEvent::Completed { response_id, token_usage, end_turn } =>
                ResponseEventView::Completed {
                response_id: response_id@,
                token_usage: *token_usage,
                end_turn: *end_turn,
            },
        }
    }
}

/// Events, by their texts.
pub open spec fn events_view(events: Seq<ResponseEvent>) -> Seq<ResponseEventView> {
    events.map_values(|event: ResponseEvent| event@)
}

impl View for ApiError {
    type V = ApiErrorView;

    open spec fn view(&self) -> ApiErrorView {
        match self {
            ApiError::Stream(message) => ApiErrorView::Stream(message@),
        }
    }
}

} // verus!
