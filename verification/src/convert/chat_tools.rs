//! Tool definitions.
use vstd::prelude::*;

use crate::common;
use crate::common::{ChatFunctionDefinition, ChatToolDefinition, ChatToolDefinitionView};
use crate::json;
use crate::json::JsonTree;
use crate::text;

verus! {

/// The string member called `key`, empty where there is none.
pub open spec fn text_member(json: JsonTree, key: Seq<char>) -> Seq<char> {
    match json.member(key) {
        Some(member) => text::text_or_empty(member.as_text()),
        None => Seq::empty(),
    }
}

/// The chat tool that a tool of the given type, name, description and
/// parameters stands for. Only a "function" with a name stands for one, and an
/// empty description is none.
pub open spec fn function_tool(
    tool_type: Seq<char>,
    name: Seq<char>,
    description: Seq<char>,
    parameters: JsonTree,
) -> Option<ChatToolDefinitionView> {
    if tool_type == "function"@ && name.len() > 0 {
        Some(
            ChatToolDefinitionView {
                tool_type: "function"@,
                name,
                description: if description.len() == 0 {
                    None
                } else {
                    Some(description)
                },
                parameters,
            },
        )
    } else {
        None
    }
}

/// The parameters of a tool definition; an empty object where it has none.
pub open spec fn tool_parameters(json: JsonTree) -> JsonTree {
    match json.member("parameters"@) {
        Some(parameters) => parameters,
        None => JsonTree::empty_object(),
    }
}

/// The chat tool that a tool definition stands for.
pub open spec fn chat_tool(json: JsonTree) -> Option<ChatToolDefinitionView> {
    function_tool(
        text_member(json, "type"@),
        text_member(json, "name"@),
        text_member(json, "description"@),
        tool_parameters(json),
    )
}

/// The chat tools that a list of tool definitions stands for.
pub open spec fn chat_tools(jsons: Seq<JsonTree>) -> Seq<ChatToolDefinitionView> {
    jsons.filter_map(|json: JsonTree| chat_tool(json))
}

/// JSON values, as trees.
pub open spec fn trees_view(jsons: Seq<serde_json::Value>) -> Seq<JsonTree> {
    jsons.map_values(|json: serde_json::Value| json::json_tree(json))
}

/// Reads the string member called `key`.
fn read_text_member(json: &serde_json::Value, key: &str) -> (text: String)
    ensures
        text@ == text_member(json::json_tree(*json), key@),
{
    match json::json_get(json, key) {
        Some(member) => match json::json_as_str(member) {
            Some(text) => text.to_owned(),
            None => String::new(),
        },
        None => String::new(),
    }
}

/// Makes a chat tool of the parts of a tool definition.
pub fn new_function_tool(
    tool_type: &str,
    name: String,
    description: String,
    parameters: serde_json::Value,
) -> (tool: Option<ChatToolDefinition>)
    ensures
        match tool {
            Some(tool) => function_tool(
                tool_type@,
                name@,
                description@,
                json::json_tree(parameters),
            ) == Some(tool@),
            None => function_tool(
                tool_type@,
                name@,
                description@,
                json::json_tree(parameters),
            ) is None,
        },
{
    if !text::same_text(tool_type, "function") || name.as_str().is_empty() {
        return None;
    }
    let description = if description.as_str().is_empty() {
        None
    } else {
        Some(description)
    };
    Some(
        ChatToolDefinition {
            tool_type: "function".to_owned(),
            function: ChatFunctionDefinition { name, description, parameters },
        },
    )
}

/// Converts one tool definition.
fn convert_tool(json: &serde_json::Value) -> (tool: Option<ChatToolDefinition>)
    ensures
        match tool {
            Some(tool) => chat_tool(json::json_tree(*json)) == Some(tool@),
            None => chat_tool(json::json_tree(*json)) is None,
        },
{
    let tool_type = read_text_member(json, "type");
    let name = read_text_member(json, "name");
    let description = read_text_member(json, "description");
    let parameters = match json::json_get(json, "parameters") {
        Some(parameters) => json::json_clone(parameters),
        None => json::json_empty_object(),
    };
    new_function_tool(tool_type.as_str(), name, description, parameters)
}

/// Converts the tool definitions of the Responses format into chat tools.
///
/// Only tools of type "function" are converted. Other types ("namespace",
/// "web_search", "image_generation", "custom", "tool_search") have no place
/// in the Chat Completions format and are skipped, and so is a function
/// without a name.
pub fn responses_tool_json_to_chat_tools(tool_jsons: &[serde_json::Value]) -> (tools: Vec<
    ChatToolDefinition,
>)
    ensures
        common::tools_view(tools@) == chat_tools(trees_view(tool_jsons@)),
{
    let ghost trees = trees_view(tool_jsons@);
    let mut tools: Vec<ChatToolDefinition> = Vec::new();
    let mut i: usize = 0;
    assert(trees.take(0) =~= Seq::empty());
    assert(common::tools_view(tools@) =~= Seq::empty());
    while i < tool_jsons.len()
        invariant
            0 <= i <= tool_jsons@.len(),
            trees == trees_view(tool_jsons@),
            common::tools_view(tools@) == chat_tools(trees.take(i as int)),
        decreases tool_jsons@.len() - i,
    {
        let ghost before = tools@;
        proof {
            assert(trees.take(i + 1).drop_last() =~= trees.take(i as int));
            assert(trees.take(i + 1).last() == json::json_tree(tool_jsons@[i as int]));
        }
        if let Some(tool) = convert_tool(&tool_jsons[i]) {
            tools.push(tool);
            assert(common::tools_view(tools@) =~= common::tools_view(before) + seq![tool@]);
        }
        i += 1;
    }
    assert(trees.take(i as int) =~= trees);
    tools
}

} // verus!
