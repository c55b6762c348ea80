//! The items of a conversation in the Responses format.
use vstd::prelude::*;

use crate::text;

verus! {

/// A piece of a message.
#[derive(Debug, PartialEq, Eq)]
pub enum ContentItem {
    InputText { text: String },
    InputImage { image_url: String },
    OutputText { text: String },
}

/// What a tool answered, as far as it can be shown as text.
#[derive(Debug, PartialEq, Eq)]
pub struct FunctionCallOutputBody {
    /// The text form of the answer; an answer without any text has none.
    pub text: Option<String>,
}

/// The answer of a tool call.
#[derive(Debug, PartialEq, Eq)]
pub struct FunctionCallOutputPayload {
    pub body: FunctionCallOutputBody,
}

/// The action of a local shell call.
#[derive(Debug, PartialEq, Eq)]
pub struct LocalShellAction {
    /// The action written as JSON; an action that cannot be written has none.
    pub json: Option<String>,
}

/// One item of a conversation.
#[allow(inconsistent_fields)]
#[derive(Debug, PartialEq, Eq)]
pub enum ResponseItem {
    Message {
        id: Option<String>,
        role: String,
        content: Vec<ContentItem>,
        phase: Option<String>,
    },
    Reasoning {
        id: String,
        summary: Vec<String>,
        content: Option<Vec<String>>,
        encrypted_content: Option<String>,
    },
    LocalShellCall { call_id: Option<String>, action: LocalShellAction },
    FunctionCall {
        id: Option<String>,
        name: String,
        namespace: Option<String>,
        arguments: String,
        call_id: String,
    },
    FunctionCallOutput { call_id: String, output: FunctionCallOutputPayload },
    CustomToolCall { call_id: String, name: String, input: String },
    CustomToolCallOutput { call_id: String, output: FunctionCallOutputPayload },
    ToolSearchCall,
    ToolSearchOutput,
    WebSearchCall,
    ImageGenerationCall,
    Compaction,
    CompactionTrigger,
    ContextCompaction,
    Other,
}

/// A piece of a message, by its texts.
pub enum ContentItemView {
    InputText { text: Seq<char> },
    InputImage { image_url: Seq<char> },
    OutputText { text: Seq<char> },
}

/// One item of a conversation, by its texts.
#[allow(inconsistent_fields)]
pub enum ResponseItemView {
    Message {
        id: Option<Seq<char>>,
        role: Seq<char>,
        content: Seq<ContentItemView>,
        phase: Option<Seq<char>>,
    },
    Reasoning {
        id: Seq<char>,
        summary: Seq<Seq<char>>,
        content: Option<Seq<Seq<char>>>,
        encrypted_content: Option<Seq<char>>,
    },
    LocalShellCall { call_id: Option<Seq<char>>, action: Option<Seq<char>> },
    FunctionCall {
        id: Option<Seq<char>>,
        name: Seq<char>,
        namespace: Option<Seq<char>>,
        arguments: Seq<char>,
        call_id: Seq<char>,
    },
    FunctionCallOutput { call_id: Seq<char>, output: Option<Seq<char>> },
    CustomToolCall { call_id: Seq<char>, name: Seq<char>, input: Seq<char> },
    CustomToolCallOutput { call_id: Seq<char>, output: Option<Seq<char>> },
    ToolSearchCall,
    ToolSearchOutput,
    WebSearchCall,
    ImageGenerationCall,
    Compaction,
    CompactionTrigger,
    ContextCompaction,
    Other,
}

impl View for ContentItem {
    type V = ContentItemView;

    open spec fn view(&self) -> ContentItemView {
        match self {
            ContentItem::InputText { text } => ContentItemView::InputText { text: text@ },
            ContentItem::InputImage { image_url } => ContentItemView::InputImage {
                image_url: image_url@,
            },
            ContentItem::OutputText { text } => ContentItemView::OutputText { text: text@ },
        }
    }
}

/// The pieces of a message, by their texts.
pub open spec fn content_view(content: Seq<ContentItem>) -> Seq<ContentItemView> {
    content.map_values(|item: ContentItem| item@)
}

/// The texts of a list of strings.
pub open spec fn texts_view(texts: Seq<String>) -> Seq<Seq<char>> {
    texts.map_values(|text: String| text@)
}

impl View for FunctionCallOutputPayload {
    type V = Option<Seq<char>>;

    open spec fn view(&self) -> Option<Seq<char>> {
        text::opt_text(self.body.text)
    }
}

impl View for ResponseItem {
    type V = ResponseItemView;

    open spec fn view(&self) -> ResponseItemView {
        match self {
            ResponseItem::Message { id, role, content, phase } => ResponseItemView::Message {
                id: text::opt_text(*id),
                role: role@,
                content: content_view(content@),
                phase: text::opt_text(*phase),
            },
            ResponseItem::Reasoning { id, summary, content, encrypted_content } =>
                ResponseItemView::Reasoning {
                id: id@,
                summary: texts_view(summary@),
                content: match content {
                    Some(content) => Some(texts_view(content@)),
                    None => None,
                },
                encrypted_content: text::opt_text(*encrypted_content),
            },
            ResponseItem::LocalShellCall { call_id, action } => ResponseItemView::LocalShellCall {
                call_id: text::opt_text(*call_id),
                action: text::opt_text(action.json),
            },
            ResponseItem::FunctionCall { id, name, namespace, arguments, call_id } =>
                ResponseItemView::FunctionCall {
                id: text::opt_text(*id),
                name: name@,
                namespace: text::opt_text(*namespace),
                arguments: arguments@,
                call_id: call_id@,
            },
            ResponseItem::FunctionCallOutput { call_id, output } =>
                ResponseItemView::FunctionCallOutput { call_id: call_id@, output: output@ },
            ResponseItem::CustomToolCall { call_id, name, input } =>
                ResponseItemView::CustomToolCall {
                call_id: call_id@,
                name: name@,
                input: input@,
            },
            ResponseItem::CustomToolCallOutput { call_id, output } =>
                ResponseItemView::CustomToolCallOutput { call_id: call_id@, output: output@ },
            ResponseItem::ToolSearchCall => ResponseItemView::ToolSearchCall,
            ResponseItem::ToolSearchOutput => ResponseItemView::ToolSearchOutput,
            ResponseItem::WebSearchCall => ResponseItemView::WebSearchCall,
            ResponseItem::ImageGenerationCall => ResponseItemView::ImageGenerationCall,
            ResponseItem::Compaction => ResponseItemView::Compaction,
            ResponseItem::CompactionTrigger => ResponseItemView::CompactionTrigger,
            ResponseItem::ContextCompaction => ResponseItemView::ContextCompaction,
            ResponseItem::Other => ResponseItemView::Other,
        }
    }
}

/// The items of a conversation, by their texts.
pub open spec fn items_view(items: Seq<ResponseItem>) -> Seq<ResponseItemView> {
    items.map_values(|item: ResponseItem| item@)
}

impl FunctionCallOutputBody {
    /// The text form of the answer.
    pub fn to_text(&self) -> (text: Option<String>)
        ensures
            text::opt_text(text) == text::opt_text(self.text),
    {
        text::copy_text(&self.text)
    }
}

impl FunctionCallOutputPayload {
    /// An answer that is plain text.
    pub fn from_text(text: String) -> (payload: FunctionCallOutputPayload)
        ensures
            payload@ == Some(text@),
    {
        FunctionCallOutputPayload { body: FunctionCallOutputBody { text: Some(text) } }
    }
}

} // verus!
