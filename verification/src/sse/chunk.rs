//! The chunks of a streamed chat completion.
use vstd::prelude::*;

use crate::text;

verus! {

/// A chunk of a streamed answer.
#[derive(Debug, PartialEq, Eq)]
pub struct ChatCompletionChunk {
    pub id: String,
    pub model: Option<String>,
    pub choices: Option<Vec<ChatChoice>>,
    pub usage: Option<ChatUsage>,
}

/// What a chunk adds to one of the answers.
#[derive(Debug, PartialEq, Eq)]
pub struct ChatChoice {
    pub index: Option<u32>,
    pub delta: Option<ChatDelta>,
    pub finish_reason: Option<String>,
}

/// New text and new fragments of tool calls.
#[derive(Debug, PartialEq, Eq)]
pub struct ChatDelta {
    pub role: Option<String>,
    pub content: Option<String>,
    pub tool_calls: Option<Vec<ChatDeltaToolCall>>,
}

/// A fragment of the tool call at `index`.
#[derive(Debug, PartialEq, Eq)]
pub struct ChatDeltaToolCall {
    pub index: u32,
    pub id: Option<String>,
    pub call_type: Option<String>,
    pub function: Option<ChatDeltaFunction>,
}

/// A fragment of the function that a tool call names.
#[derive(Debug, PartialEq, Eq)]
pub struct ChatDeltaFunction {
    pub name: Option<String>,
    pub arguments: Option<String>,
}

/// The tokens that a completion took, as far as the provider counts them.
#[derive(Debug, Clone, Copy, PartialEq, Eq)]
pub struct ChatUsage {
    pub prompt_tokens: Option<i64>,
    pub completion_tokens: Option<i64>,
    pub total_tokens: Option<i64>,
}

/// A chunk, by its texts.
pub struct ChunkView {
    pub id: Seq<char>,
    pub model: Option<Seq<char>>,
    pub choices: Option<Seq<ChoiceView>>,
    pub usage: Option<ChatUsage>,
}

/// A choice, by its texts.
pub struct ChoiceView {
    pub index: Option<u32>,
    pub delta: Option<DeltaView>,
    pub finish_reason: Option<Seq<char>>,
}

/// A delta, by its texts.
pub struct DeltaView {
    pub role: Option<Seq<char>>,
    pub content: Option<Seq<char>>,
    pub tool_calls: Option<Seq<CallDeltaView>>,
}

/// A fragment of a tool call, by its texts.
pub struct CallDeltaView {
    pub index: u32,
    pub id: Option<Seq<char>>,
    pub call_type: Option<Seq<char>>,
    pub function: Option<FunctionDeltaView>,
}

/// A fragment of a function, by its texts.
pub struct FunctionDeltaView {
    pub name: Option<Seq<char>>,
    pub arguments: Option<Seq<char>>,
}

impl View for ChatDeltaFunction {
    type V = FunctionDeltaView;

    open spec fn view(&self) -> FunctionDeltaView {
        FunctionDeltaView {
            name: text::opt_text(self.name),
            arguments: text::opt_text(self.arguments),
        }
    }
}

impl View for ChatDeltaToolCall {
    type V = CallDeltaView;

    open spec fn view(&self) -> CallDeltaView {
        CallDeltaView {
            index: self.index,
            id: text::opt_text(self.id),
            call_type: text::opt_text(self.call_type),
            function: match self.function {
                Some(function) => Some(function@),
                None => None,
            },
        }
    }
}

/// Fragments of tool calls, by their texts.
pub open spec fn call_deltas_view(deltas: Seq<ChatDeltaToolCall>) -> Seq<CallDeltaView> {
    deltas.map_values(|delta: ChatDeltaToolCall| delta@)
}

impl View for ChatDelta {
    type V = DeltaView;

    open spec fn view(&self) -> DeltaView {
        DeltaView {
            role: text::opt_text(self.role),
            content: text::opt_text(self.content),
            tool_calls: match self.tool_calls {
                Some(calls) => Some(call_deltas_view(calls@)),
                None => None,
            },
        }
    }
}

impl View for ChatChoice {
    type V = ChoiceView;

    open spec fn view(&self) -> ChoiceView {
        ChoiceView {
            index: self.index,
            delta: match self.delta {
                Some(delta) => Some(delta@),
                None => None,
            },
            finish_reason: text::opt_text(self.finish_reason),
        }
    }
}

/// Choices, by their texts.
pub open spec fn choices_view(choices: Seq<ChatChoice>) -> Seq<ChoiceView> {
    choices.map_values(|choice: ChatChoice| choice@)
}

impl View for ChatCompletionChunk {
    type V = ChunkView;

    open spec fn view(&self) -> ChunkView {
        ChunkView {
            id: self.id@,
            model: text::opt_text(self.model),
            choices: match self.choices {
                Some(choices) => Some(choices_view(choices@)),
                None => None,
            },
            usage: self.usage,
        }
    }
}

} // verus!
