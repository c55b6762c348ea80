use codex_api::common::{ChatFunctionDefinition, ChatMessage, ChatToolDefinition};
use codex_api::convert::chat_messages::{content_items_to_text, response_items_to_chat_messages};
use codex_api::convert::chat_request::build_chat_completions_request;
use codex_api::convert::chat_tools::{new_function_tool, responses_tool_json_to_chat_tools};
use codex_api::models::{
    ContentItem, FunctionCallOutputBody, FunctionCallOutputPayload, LocalShellAction, ResponseItem,
};
use serde_json::Value;

fn message(role: &str, text: &str) -> ResponseItem {
    ResponseItem::Message {
        id: None,
        role: role.to_string(),
        content: vec![ContentItem::InputText {
            text: text.to_string(),
        }],
        phase: None,
    }
}

fn call(name: &str, arguments: &str, call_id: &str) -> ResponseItem {
    ResponseItem::FunctionCall {
        id: None,
        name: name.to_string(),
        namespace: None,
        arguments: arguments.to_string(),
        call_id: call_id.to_string(),
    }
}

fn roles(messages: &[ChatMessage]) -> Vec<&str> {
    messages.iter().map(|m| m.role.as_str()).collect()
}

fn json(text: &str) -> Value {
    serde_json::from_str(text).unwrap()
}

#[test]
fn test_message_conversion() {
    let items = vec![ResponseItem::Message {
        id: None,
        role: "user".to_string(),
        content: vec![ContentItem::InputText {
            text: "Hello".to_string(),
        }],
        phase: None,
    }];
    let messages = response_items_to_chat_messages(&items);
    assert_eq!(messages.len(), 1);
    assert_eq!(messages[0].role, "user");
    assert_eq!(messages[0].content.as_deref(), Some("Hello"));
}

#[test]
fn test_function_call_conversion() {
    let items = vec![
        ResponseItem::Message {
            id: None,
            role: "user".to_string(),
            content: vec![ContentItem::InputText {
                text: "Run a command".to_string(),
            }],
            phase: None,
        },
        ResponseItem::FunctionCall {
            id: None,
            name: "shell".to_string(),
            namespace: None,
            arguments: r#"{"command":"ls"}"#.to_string(),
            call_id: "call_123".to_string(),
        },
        ResponseItem::FunctionCallOutput {
            call_id: "call_123".to_string(),
            output: FunctionCallOutputPayload::from_text("file1.txt\nfile2.txt".to_string()),
        },
    ];
    let messages = response_items_to_chat_messages(&items);
    assert_eq!(messages.len(), 3);
    assert_eq!(messages[0].role, "user");
    assert_eq!(messages[1].role, "assistant");
    assert!(messages[1].tool_calls.is_some());
    assert_eq!(messages[1].tool_calls.as_ref().unwrap().len(), 1);
    assert_eq!(messages[1].tool_calls.as_ref().unwrap()[0].id, "call_123");
    assert_eq!(messages[2].role, "tool");
    assert_eq!(messages[2].tool_call_id.as_deref(), Some("call_123"));
}

#[test]
fn test_reasoning_skipped() {
    let items = vec![
        ResponseItem::Reasoning {
            id: "r1".to_string(),
            summary: vec![],
            content: None,
            encrypted_content: None,
        },
        ResponseItem::Message {
            id: None,
            role: "assistant".to_string(),
            content: vec![ContentItem::OutputText {
                text: "Done".to_string(),
            }],
            phase: None,
        },
    ];
    let messages = response_items_to_chat_messages(&items);
    assert_eq!(messages.len(), 1);
    assert_eq!(messages[0].role, "assistant");
}

#[test]
fn pieces_are_joined_and_images_have_a_stand_in() {
    let content = vec![
        ContentItem::InputText { text: "see ".to_string() },
        ContentItem::InputImage { image_url: "data:x".to_string() },
        ContentItem::OutputText { text: " and ü".to_string() },
    ];
    assert_eq!(content_items_to_text(&content), "see [image] and ü");
    assert_eq!(content_items_to_text(&[]), "");
}

#[test]
fn consecutive_system_texts_share_a_message() {
    let items = vec![
        message("developer", "one"),
        message("system", "two"),
        message("user", "hi"),
        message("developer", "three"),
    ];
    let messages = response_items_to_chat_messages(&items);
    assert_eq!(roles(&messages), vec!["system", "user", "system"]);
    assert_eq!(messages[0].content.as_deref(), Some("one\n\ntwo"));
    assert_eq!(messages[2].content.as_deref(), Some("three"));
}

#[test]
fn skipped_items_do_not_part_system_texts() {
    let items = vec![
        message("system", "one"),
        ResponseItem::WebSearchCall,
        ResponseItem::ToolSearchCall,
        ResponseItem::ToolSearchOutput,
        ResponseItem::ImageGenerationCall,
        ResponseItem::Compaction,
        ResponseItem::CompactionTrigger,
        ResponseItem::ContextCompaction,
        ResponseItem::Other,
        message("system", "two"),
    ];
    let messages = response_items_to_chat_messages(&items);
    assert_eq!(messages.len(), 1);
    assert_eq!(messages[0].content.as_deref(), Some("one\n\ntwo"));
}

#[test]
fn tool_calls_join_the_last_assistant_message() {
    let items = vec![
        message("assistant", "working"),
        call("a", "1", "c1"),
        ResponseItem::CustomToolCall {
            call_id: "c2".to_string(),
            name: "b".to_string(),
            input: "two".to_string(),
        },
        message("user", "go on"),
        call("c", "3", "c3"),
    ];
    let messages = response_items_to_chat_messages(&items);
    assert_eq!(roles(&messages), vec!["assistant", "user", "assistant"]);
    assert_eq!(messages[0].content.as_deref(), Some("working"));
    let calls = messages[0].tool_calls.as_ref().unwrap();
    assert_eq!(calls.len(), 2);
    assert_eq!(calls[0].call_type, "function");
    assert_eq!(calls[1].id, "c2");
    assert_eq!(calls[1].function.name, "b");
    assert_eq!(calls[1].function.arguments, "two");
    assert_eq!(messages[2].content, None);
    assert_eq!(messages[2].tool_calls.as_ref().unwrap()[0].id, "c3");
}

#[test]
fn local_shell_calls_get_an_id_and_arguments() {
    let mut items: Vec<ResponseItem> = Vec::new();
    for _ in 0..12 {
        items.push(message("user", "x"));
    }
    items.push(ResponseItem::LocalShellCall {
        call_id: None,
        action: LocalShellAction {
            json: Some("{\"type\":\"exec\"}".to_string()),
        },
    });
    items.push(ResponseItem::LocalShellCall {
        call_id: Some("mine".to_string()),
        action: LocalShellAction { json: None },
    });
    let messages = response_items_to_chat_messages(&items);
    let calls = messages[12].tool_calls.as_ref().unwrap();
    assert_eq!(calls[0].id, "local_shell_12");
    assert_eq!(calls[0].function.name, "shell");
    assert_eq!(calls[0].function.arguments, "{\"type\":\"exec\"}");
    assert_eq!(calls[1].id, "mine");
    assert_eq!(calls[1].function.arguments, "");
}

#[test]
fn answers_without_text_are_empty() {
    let items = vec![
        ResponseItem::CustomToolCallOutput {
            call_id: "c".to_string(),
            output: FunctionCallOutputPayload {
                body: FunctionCallOutputBody { text: None },
            },
        },
        ResponseItem::CustomToolCallOutput {
            call_id: "d".to_string(),
            output: FunctionCallOutputPayload::from_text("ok".to_string()),
        },
    ];
    let messages = response_items_to_chat_messages(&items);
    assert_eq!(roles(&messages), vec!["tool", "tool"]);
    assert_eq!(messages[0].content.as_deref(), Some(""));
    assert_eq!(messages[1].content.as_deref(), Some("ok"));
    assert_eq!(messages[1].tool_call_id.as_deref(), Some("d"));
    assert_eq!(messages[1].name, None);
}

#[test]
fn instructions_open_the_chat() {
    let request = build_chat_completions_request("m", "be kind", &[message("user", "hi")], vec![], true);
    assert_eq!(request.model, "m");
    assert_eq!(roles(&request.messages), vec!["system", "user"]);
    assert_eq!(request.messages[0].content.as_deref(), Some("be kind"));
    assert_eq!(request.tools, None);
    assert_eq!(request.tool_choice, None);
    assert!(request.stream);
    assert_eq!(request.temperature, None);
}

#[test]
fn instructions_take_in_the_first_system_message() {
    let items = vec![
        message("user", "hi"),
        message("developer", "first"),
        message("user", "again"),
        message("system", "second"),
    ];
    let request = build_chat_completions_request("m", "be kind", &items, vec![], false);
    assert_eq!(roles(&request.messages), vec!["system", "user", "user", "system"]);
    assert_eq!(request.messages[0].content.as_deref(), Some("be kind\n\nfirst"));
    assert_eq!(request.messages[3].content.as_deref(), Some("second"));
    assert!(!request.stream);
}

#[test]
fn no_instructions_leave_the_conversation_alone() {
    let items = vec![message("user", "hi"), message("system", "later")];
    let request = build_chat_completions_request("m", "", &items, vec![], true);
    assert_eq!(request.messages, response_items_to_chat_messages(&items));
}

#[test]
fn tools_leave_the_choice_to_the_model() {
    let tool = || ChatToolDefinition {
        tool_type: "function".to_string(),
        function: ChatFunctionDefinition {
            name: "f".to_string(),
            description: None,
            parameters: json("{}"),
        },
    };
    let request = build_chat_completions_request("m", "", &[], vec![tool()], true);
    assert_eq!(request.tools, Some(vec![tool()]));
    assert_eq!(request.tool_choice.as_deref(), Some("auto"));
    assert!(request.messages.is_empty());
}

#[test]
fn function_tools_are_converted() {
    let parameters = r#"{"type":"object","properties":{"n":{"type":"number","minimum":1.5}}}"#;
    let tools = responses_tool_json_to_chat_tools(&[
        json(&format!(
            r#"{{"type":"function","name":"f","description":"does f","parameters":{parameters}}}"#
        )),
        json(r#"{"type":"function","name":"g","description":""}"#),
        json(r#"{"type":"function","name":"h","description":3,"parameters":null}"#),
    ]);
    assert_eq!(tools.len(), 3);
    assert_eq!(tools[0].tool_type, "function");
    assert_eq!(tools[0].function.name, "f");
    assert_eq!(tools[0].function.description.as_deref(), Some("does f"));
    assert_eq!(tools[0].function.parameters, json(parameters));
    assert_eq!(tools[1].function.name, "g");
    assert_eq!(tools[1].function.description, None);
    assert_eq!(tools[1].function.parameters, json("{}"));
    assert_eq!(tools[2].function.description, None);
    assert_eq!(tools[2].function.parameters, Value::Null);
}

#[test]
fn other_tools_are_skipped() {
    let tools = responses_tool_json_to_chat_tools(&[
        json(r#"{"type":"namespace","tools":[{"type":"function","name":"inner"}]}"#),
        json(r#"{"type":"web_search","name":"w"}"#),
        json(r#"{"type":"image_generation","name":"i"}"#),
        json(r#"{"type":"custom","name":"c","description":"d"}"#),
        json(r#"{"type":"tool_search","name":"t"}"#),
        json(r#"{"name":"untyped"}"#),
        json(r#"{"type":7,"name":"n"}"#),
        json(r#"["type","function"]"#),
        json(r#""function""#),
        json("null"),
        json(r#"{"type":"function","name":""}"#),
        json(r#"{"type":"function"}"#),
        json(r#"{"type":"function","name":"kept"}"#),
    ]);
    assert_eq!(tools.len(), 1);
    assert_eq!(tools[0].function.name, "kept");
}

#[test]
fn tools_convert_one_by_one() {
    let a = json(r#"{"type":"function","name":"a"}"#);
    let b = json(r#"{"type":"custom","name":"b"}"#);
    let c = json(r#"{"type":"function","name":"c"}"#);
    let mut apart = responses_tool_json_to_chat_tools(&[a.clone(), b.clone()]);
    apart.extend(responses_tool_json_to_chat_tools(&[c.clone()]));
    assert_eq!(responses_tool_json_to_chat_tools(&[a, b, c]), apart);
}

#[test]
fn only_named_functions_become_tools() {
    let text = |s: &str| s.to_string();
    let tool = new_function_tool("function", text("f"), text(""), json("[1]")).unwrap();
    assert_eq!(tool.function.name, "f");
    assert_eq!(tool.function.description, None);
    assert_eq!(tool.function.parameters, json("[1]"));
    assert_eq!(new_function_tool("function", text(""), text("d"), json("{}")), None);
    assert_eq!(new_function_tool("custom", text("f"), text("d"), json("{}")), None);
}

fn conversation() -> Vec<ResponseItem> {
    vec![
        message("developer", "rules"),
        message("system", "more rules"),
        message("user", "hello"),
        call("f", "1", "c1"),
        ResponseItem::FunctionCallOutput {
            call_id: "c1".to_string(),
            output: FunctionCallOutputPayload::from_text("one".to_string()),
        },
        ResponseItem::Other,
        message("assistant", "thinking"),
        call("g", "2", "c2"),
        call("h", "3", "c3"),
        ResponseItem::FunctionCallOutput {
            call_id: "c3".to_string(),
            output: FunctionCallOutputPayload::from_text("three".to_string()),
        },
        message("developer", "last rule"),
        message("user", "bye"),
    ]
}

#[test]
fn messages_are_well_shaped() {
    for m in response_items_to_chat_messages(&conversation()) {
        assert_ne!(m.role, "developer");
        assert_eq!(m.name, None);
        assert!(m.content.is_some() || m.tool_calls.is_some());
        if let Some(calls) = &m.tool_calls {
            assert_eq!(m.role, "assistant");
            assert!(!calls.is_empty());
        }
        if m.tool_call_id.is_some() {
            assert_eq!(m.role, "tool");
            assert!(m.content.is_some());
        }
    }
}

#[test]
fn system_messages_are_never_adjacent() {
    let items = conversation();
    for instructions in ["", "be kind"] {
        let request = build_chat_completions_request("m", instructions, &items, vec![], true);
        for pair in request.messages.windows(2) {
            assert!(pair[0].role != "system" || pair[1].role != "system");
        }
    }
}

#[test]
fn calls_and_answers_are_kept_in_order() {
    let messages = response_items_to_chat_messages(&conversation());
    let calls: Vec<&str> = messages
        .iter()
        .filter_map(|m| m.tool_calls.as_ref())
        .flatten()
        .map(|c| c.id.as_str())
        .collect();
    assert_eq!(calls, vec!["c1", "c2", "c3"]);
    let answers: Vec<(&str, &str)> = messages
        .iter()
        .filter_map(|m| Some((m.tool_call_id.as_deref()?, m.content.as_deref()?)))
        .collect();
    assert_eq!(answers, vec![("c1", "one"), ("c3", "three")]);
}

#[test]
fn texts_are_kept_in_order() {
    let messages = response_items_to_chat_messages(&conversation());
    let spoken: Vec<(&str, &str)> = messages
        .iter()
        .filter(|m| m.role != "system" && m.tool_call_id.is_none())
        .filter_map(|m| Some((m.role.as_str(), m.content.as_deref()?)))
        .collect();
    assert_eq!(
        spoken,
        vec![("user", "hello"), ("assistant", "thinking"), ("user", "bye")]
    );
    let system: Vec<&str> = messages
        .iter()
        .filter(|m| m.role == "system")
        .filter_map(|m| m.content.as_deref())
        .collect();
    assert_eq!(system.join("\n\n"), "rules\n\nmore rules\n\nlast rule");
}

#[test]
fn more_items_change_only_the_last_message() {
    let items = conversation();
    let all = response_items_to_chat_messages(&items);
    for n in 0..items.len() {
        let some = response_items_to_chat_messages(&items[..n]);
        assert!(some.len() <= all.len());
        assert!(some.len() <= n);
        if let Some(last) = some.last() {
            let settled = some.len() - 1;
            assert_eq!(some[..settled], all[..settled]);
            assert_eq!(last.role, all[settled].role);
        }
    }
}

#[test]
fn instructions_share_a_system_message() {
    let items = conversation();
    let count = |messages: &[ChatMessage]| messages.iter().filter(|m| m.role == "system").count();
    let without = build_chat_completions_request("m", "", &items, vec![], true);
    let with = build_chat_completions_request("m", "be kind", &items, vec![], true);
    assert_eq!(count(&without.messages), 2);
    assert_eq!(count(&with.messages), 2);
    assert!(with.messages[0].content.as_deref().unwrap().starts_with("be kind"));
    let others = |messages: Vec<ChatMessage>| -> Vec<ChatMessage> {
        messages.into_iter().filter(|m| m.role != "system").collect()
    };
    assert_eq!(others(with.messages), others(without.messages));
}
