//! What holds of every converted list of tools.
use vstd::prelude::*;

use crate::common::ChatToolDefinitionView;
use crate::convert::chat_tools;
use crate::json;
use crate::json::JsonTree;

verus! {

/// Tool definitions are converted one by one, in their order.
pub proof fn law_tools_convert_one_by_one(first: Seq<JsonTree>, second: Seq<JsonTree>)
    ensures
        chat_tools::chat_tools(first + second) == chat_tools::chat_tools(first)
            + chat_tools::chat_tools(second),
    decreases second.len(),
{
    if second.len() == 0 {
        assert(first + second =~= first);
        assert(chat_tools::chat_tools(first) + chat_tools::chat_tools(second)
            =~= chat_tools::chat_tools(first));
    } else {
        assert((first + second).drop_last() =~= first + second.drop_last());
        law_tools_convert_one_by_one(first, second.drop_last());
        assert(chat_tools::chat_tools(first + second) =~= chat_tools::chat_tools(first)
            + chat_tools::chat_tools(second));
    }
}

/// Whether a chat tool has the shape that the conversion gives: a function
/// with a name, and with a description that is not empty where it has one.
pub open spec fn well_shaped_tool(tool: ChatToolDefinitionView) -> bool {
    &&& tool.tool_type == "function"@
    &&& tool.name.len() > 0
    &&& tool.description is Some ==> tool.description->0.len() > 0
}

/// Every converted tool is well shaped.
pub proof fn law_tools_are_well_shaped(jsons: Seq<JsonTree>)
    ensures
        forall|i: int|
            0 <= i < chat_tools::chat_tools(jsons).len() ==> well_shaped_tool(
                #[trigger] chat_tools::chat_tools(jsons)[i],
            ),
    decreases jsons.len(),
{
    if jsons.len() > 0 {
        let before = chat_tools::chat_tools(jsons.drop_last());
        let after = chat_tools::chat_tools(jsons);
        law_tools_are_well_shaped(jsons.drop_last());
        assert forall|i: int| 0 <= i < after.len() implies well_shaped_tool(
            #[trigger] after[i],
        ) by {
            if i < before.len() {
                assert(after[i] == before[i]);
            }
        }
    }
}

/// Tools of any type but "function" are skipped.
pub proof fn law_only_functions_are_converted(
    before: Seq<JsonTree>,
    json: JsonTree,
    after: Seq<JsonTree>,
)
    requires
        chat_tools::text_member(json, "type"@) != "function"@,
    ensures
        chat_tools::chat_tools(before.push(json) + after) == chat_tools::chat_tools(before + after),
{
    law_tools_convert_one_by_one(before.push(json), after);
    law_tools_convert_one_by_one(before, after);
    assert(before.push(json).drop_last() =~= before);
}

/// Without definitions there are no tools.
pub proof fn law_no_definitions_no_tools(jsons: Seq<JsonTree>)
    requires
        jsons.len() == 0,
    ensures
        chat_tools::chat_tools(jsons).len() == 0,
{
}

/// A named function becomes a tool with its own name, with its description
/// where that is a string and not empty, and with its parameters, whatever
/// they hold, or the empty object where it has none.
pub proof fn law_named_functions_become_tools(
    jsons: Seq<JsonTree>,
    json: JsonTree,
    name: Seq<char>,
)
    requires
        json.member("type"@) == Some(JsonTree::Text("function"@)),
        json.member("name"@) == Some(JsonTree::Text(name)),
        name.len() > 0,
    ensures
        ({
            let before = chat_tools::chat_tools(jsons);
            let after = chat_tools::chat_tools(jsons.push(json));
            let tool = after.last();
            &&& after.len() == before.len() + 1
            &&& after.drop_last() == before
            &&& tool.tool_type == "function"@
            &&& tool.name == name
            &&& json.member("description"@) matches Some(JsonTree::Text(description)) ==> {
                &&& description.len() > 0 ==> tool.description == Some(description)
                &&& description.len() == 0 ==> tool.description is None
            }
            &&& json.member("description"@) is None ==> tool.description is None
            &&& (json.member("description"@) is Some && !(json.member("description"@)->0 is Text))
                ==> tool.description is None
            &&& json.member("parameters"@) is Some ==> tool.parameters == json.member(
                "parameters"@,
            )->0
            &&& json.member("parameters"@) is None ==> tool.parameters == JsonTree::Object(
                Map::empty(),
            )
        }),
{
    let before = chat_tools::chat_tools(jsons);
    let after = chat_tools::chat_tools(jsons.push(json));
    assert(jsons.push(json).drop_last() =~= jsons);
    assert(after.drop_last() =~= before);
}

/// What is not a named function adds no tool: a type that is not the string
/// "function", and a name that is not a string or empty.
pub proof fn law_all_else_is_skipped(jsons: Seq<JsonTree>, json: JsonTree)
    requires
        json.member("type"@) != Some(JsonTree::Text("function"@)) || json.member("name"@) is None
            || !(json.member("name"@)->0 is Text) || json.member("name"@) == Some(
            JsonTree::Text(Seq::empty()),
        ),
    ensures
        chat_tools::chat_tools(jsons.push(json)) == chat_tools::chat_tools(jsons),
{
    assert(jsons.push(json).drop_last() =~= jsons);
    reveal_strlit("function");
    assert("function"@.len() == 8);
    if chat_tools::text_member(json, "type"@) == "function"@ {
        assert(json.member("type"@)->0 is Text);
        assert(json.member("type"@)->0->Text_0 == "function"@);
        assert(chat_tools::text_member(json, "name"@).len() == 0);
    }
    assert(chat_tools::chat_tool(json) is None);
}

/// The parts of a tool are taken as they are: a "function" with a name becomes
/// a tool with that name, those parameters, and the description unless it is
/// empty. Nothing else becomes a tool.
pub proof fn law_parts_are_taken_as_they_are(
    tool_type: Seq<char>,
    name: Seq<char>,
    description: Seq<char>,
    parameters: JsonTree,
)
    ensures
        ({
            let tool = chat_tools::function_tool(tool_type, name, description, parameters);
            &&& tool is Some <==> tool_type == "function"@ && name.len() > 0
            &&& tool is Some ==> {
                &&& tool->0.tool_type == "function"@
                &&& tool->0.name == name
                &&& description.len() > 0 ==> tool->0.description == Some(description)
                &&& description.len() == 0 ==> tool->0.description is None
                &&& tool->0.parameters == parameters
            }
        }),
{
}

/// JSON values are seen one by one, in their order.
pub proof fn law_trees_view(jsons: Seq<serde_json::Value>)
    ensures
        chat_tools::trees_view(jsons).len() == jsons.len(),
        forall|i: int|
            0 <= i < jsons.len() ==> #[trigger] chat_tools::trees_view(jsons)[i]
                == json::json_tree(jsons[i]),
{
}

} // verus!
