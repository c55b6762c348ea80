use codex_api::common::{ApiError, ResponseEvent, TokenUsage};
use codex_api::models::ResponseItem;
use codex_api::sse::chat_completions::{read_sse_data, ChatSseInput, ChatSseState, SseData};
use codex_api::sse::chunk::{
    ChatChoice, ChatCompletionChunk, ChatDelta, ChatDeltaFunction, ChatDeltaToolCall, ChatUsage,
};

fn make_chunk(
    content: Option<&str>,
    tool_calls: Option<Vec<ChatDeltaToolCall>>,
    finish_reason: Option<&str>,
    usage: Option<ChatUsage>,
) -> ChatSseInput {
    ChatSseInput::Chunk(ChatCompletionChunk {
        id: "chatcmpl-test".to_string(),
        model: None,
        choices: Some(vec![ChatChoice {
            index: Some(0),
            delta: Some(ChatDelta {
                role: None,
                content: content.map(str::to_string),
                tool_calls,
            }),
            finish_reason: finish_reason.map(str::to_string),
        }]),
        usage,
    })
}

fn fragment(
    index: u32,
    id: Option<&str>,
    name: Option<&str>,
    arguments: Option<&str>,
) -> ChatDeltaToolCall {
    ChatDeltaToolCall {
        index,
        id: id.map(str::to_string),
        call_type: None,
        function: Some(ChatDeltaFunction {
            name: name.map(str::to_string),
            arguments: arguments.map(str::to_string),
        }),
    }
}

fn call_done(name: &str, arguments: &str, call_id: &str) -> ResponseEvent {
    ResponseEvent::OutputItemDone(ResponseItem::FunctionCall {
        id: None,
        name: name.to_string(),
        namespace: None,
        arguments: arguments.to_string(),
        call_id: call_id.to_string(),
    })
}

fn completed(token_usage: Option<TokenUsage>, end_turn: bool) -> ResponseEvent {
    ResponseEvent::Completed {
        response_id: String::new(),
        token_usage,
        end_turn: Some(end_turn),
    }
}

fn run(inputs: Vec<ChatSseInput>) -> (Vec<ResponseEvent>, Option<ApiError>, bool) {
    let mut state = ChatSseState::new();
    let mut events = Vec::new();
    for input in inputs {
        let step = state.step(input);
        events.extend(step.events);
        if step.over {
            return (events, step.failure, true);
        }
        assert_eq!(step.failure, None);
    }
    (events, None, false)
}

#[test]
fn test_simple_text_stream() {
    let mut inputs = vec![
        make_chunk(Some("Hello"), None, None, None),
        make_chunk(Some(" world"), None, None, None),
        make_chunk(None, None, Some("stop"), None),
    ];
    assert_eq!(read_sse_data("[DONE]"), SseData::Done);
    inputs.push(ChatSseInput::Done);

    let (results, failure, over) = run(inputs);
    assert_eq!(failure, None);
    assert!(over);

    assert!(matches!(&results[0], ResponseEvent::OutputTextDelta(s) if s == "Hello"));
    assert!(matches!(&results[1], ResponseEvent::OutputTextDelta(s) if s == " world"));
    assert!(matches!(
        &results[2],
        ResponseEvent::Completed {
            end_turn: Some(true),
            ..
        }
    ));
}

#[test]
fn white_space_around_data_is_ignored() {
    assert_eq!(read_sse_data(" \t[DONE]\r\n"), SseData::Done);
    assert_eq!(read_sse_data("\u{a0}\u{3000}[DONE]\u{2028}"), SseData::Done);
    assert_eq!(read_sse_data("  {\"a\": 1} \n"), SseData::Chunk("{\"a\": 1}"));
    assert_eq!(read_sse_data("[ DONE ]"), SseData::Chunk("[ DONE ]"));
    assert_eq!(read_sse_data("\u{200b}[DONE]"), SseData::Chunk("\u{200b}[DONE]"));
    assert_eq!(read_sse_data("   "), SseData::Chunk(""));
}

#[test]
fn fragments_add_up_to_calls() {
    let (events, _, over) = run(vec![
        make_chunk(None, Some(vec![fragment(3, None, Some("late"), Some("{\"a\""))]), None, None),
        make_chunk(
            None,
            Some(vec![
                fragment(1, Some("call_1"), Some("first"), None),
                fragment(3, Some("call_3"), None, Some(":1}")),
            ]),
            None,
            None,
        ),
        make_chunk(
            None,
            Some(vec![fragment(1, Some("call_1b"), Some("renamed"), Some("{}"))]),
            Some("tool_calls"),
            None,
        ),
    ]);
    assert!(!over);
    assert_eq!(
        events,
        vec![
            call_done("late", "{\"a\":1}", "call_3"),
            call_done("renamed", "{}", "call_1b"),
            completed(None, false),
        ]
    );
}

#[test]
fn fragments_may_come_apart() {
    let parts = || {
        vec![
            fragment(0, Some("a"), Some("f"), Some("x")),
            fragment(0, None, None, Some("y")),
            ChatDeltaToolCall {
                index: 0,
                id: None,
                call_type: Some("function".to_string()),
                function: None,
            },
        ]
    };
    let together = run(vec![make_chunk(None, Some(parts()), Some("stop"), None)]);
    let mut inputs: Vec<ChatSseInput> = parts()
        .into_iter()
        .map(|part| make_chunk(None, Some(vec![part]), None, None))
        .collect();
    inputs.push(make_chunk(None, None, Some("stop"), None));
    assert_eq!(run(inputs), together);
    assert_eq!(together.0[0], call_done("f", "xy", "a"));
}

#[test]
fn a_call_without_an_id_is_pending() {
    let (events, _, _) = run(vec![
        make_chunk(None, Some(vec![fragment(0, None, None, None)]), None, None),
        ChatSseInput::Ended,
    ]);
    assert_eq!(events, vec![call_done("", "", "pending"), completed(None, true)]);
}

#[test]
fn a_finish_leaves_no_call_open() {
    let (events, _, _) = run(vec![
        make_chunk(
            None,
            Some(vec![fragment(0, Some("a"), Some("f"), Some("1"))]),
            Some("stop"),
            None,
        ),
        make_chunk(None, Some(vec![fragment(0, Some("b"), Some("g"), Some("2"))]), None, None),
        ChatSseInput::Ended,
    ]);
    assert_eq!(
        events,
        vec![
            call_done("f", "1", "a"),
            completed(None, true),
            call_done("g", "2", "b"),
            completed(None, true),
        ]
    );
}

#[test]
fn usage_counts_default_to_zero() {
    let usage = ChatUsage {
        prompt_tokens: Some(12),
        completion_tokens: None,
        total_tokens: Some(15),
    };
    let (events, _, _) = run(vec![make_chunk(None, None, Some("length"), Some(usage))]);
    assert_eq!(
        events,
        vec![completed(
            Some(TokenUsage {
                input_tokens: 12,
                cached_input_tokens: 0,
                output_tokens: 0,
                reasoning_output_tokens: 0,
                total_tokens: 15,
            }),
            true
        )]
    );
}

#[test]
fn each_finish_completes_once() {
    let choice = |content: &str, reason: Option<&str>| ChatChoice {
        index: None,
        delta: Some(ChatDelta {
            role: None,
            content: Some(content.to_string()),
            tool_calls: None,
        }),
        finish_reason: reason.map(str::to_string),
    };
    let (events, _, _) = run(vec![ChatSseInput::Chunk(ChatCompletionChunk {
        id: "x".to_string(),
        model: None,
        choices: Some(vec![
            choice("a", Some("stop")),
            choice("", None),
            choice("b", Some("content_filter")),
            ChatChoice {
                index: None,
                delta: None,
                finish_reason: None,
            },
        ]),
        usage: None,
    })]);
    assert_eq!(
        events,
        vec![
            ResponseEvent::OutputTextDelta("a".to_string()),
            completed(None, true),
            ResponseEvent::OutputTextDelta("b".to_string()),
            completed(None, false),
        ]
    );
}

#[test]
fn chunks_without_choices_send_nothing() {
    let (events, failure, over) = run(vec![
        ChatSseInput::Chunk(ChatCompletionChunk {
            id: "x".to_string(),
            model: Some("m".to_string()),
            choices: None,
            usage: None,
        }),
        ChatSseInput::Unreadable,
    ]);
    assert!(events.is_empty());
    assert_eq!(failure, None);
    assert!(!over);
}

#[test]
fn the_closing_marker_drops_open_calls() {
    let (events, failure, over) = run(vec![
        make_chunk(None, Some(vec![fragment(0, Some("a"), Some("f"), None)]), None, None),
        ChatSseInput::Done,
        ChatSseInput::Ended,
    ]);
    assert!(events.is_empty());
    assert_eq!(failure, None);
    assert!(over);
}

#[test]
fn failures_say_what_went_wrong() {
    assert_eq!(
        run(vec![ChatSseInput::Malformed("bad utf8".to_string())]),
        (
            vec![],
            Some(ApiError::Stream("SSE parse error: bad utf8".to_string())),
            true
        )
    );
    assert_eq!(
        run(vec![ChatSseInput::Idle(300)]),
        (
            vec![],
            Some(ApiError::Stream("stream idle timeout after 300s".to_string())),
            true
        )
    );
    assert_eq!(
        run(vec![ChatSseInput::Idle(u64::MAX)]).1,
        Some(ApiError::Stream(
            "stream idle timeout after 18446744073709551615s".to_string()
        ))
    );
}

#[test]
fn the_whole_text_is_passed_on() {
    let (events, _, _) = run(vec![
        make_chunk(Some("a"), Some(vec![fragment(0, None, None, None)]), None, None),
        ChatSseInput::Unreadable,
        make_chunk(Some(""), None, Some("stop"), None),
        make_chunk(Some("b\u{e9}"), None, None, None),
        ChatSseInput::Ended,
        make_chunk(Some("never"), None, None, None),
    ]);
    let text: String = events
        .iter()
        .filter_map(|event| match event {
            ResponseEvent::OutputTextDelta(text) => Some(text.as_str()),
            _ => None,
        })
        .collect();
    assert_eq!(text, "ab\u{e9}");
}

#[test]
fn unreadable_data_is_passed_over() {
    let inputs = || {
        vec![
            make_chunk(Some("a"), Some(vec![fragment(0, None, None, Some("x"))]), None, None),
            make_chunk(None, Some(vec![fragment(0, None, None, Some("y"))]), Some("stop"), None),
            ChatSseInput::Done,
        ]
    };
    let expected = run(inputs());
    for place in 0..3 {
        let mut with = inputs();
        with.insert(place, ChatSseInput::Unreadable);
        assert_eq!(run(with), expected);
    }
}

#[test]
fn nothing_is_sent_after_a_failure() {
    let (events, failure, over) = run(vec![
        make_chunk(Some("a"), None, None, None),
        ChatSseInput::Idle(1),
        make_chunk(Some("b"), None, Some("stop"), None),
    ]);
    assert_eq!(events, vec![ResponseEvent::OutputTextDelta("a".to_string())]);
    assert_eq!(
        failure,
        Some(ApiError::Stream("stream idle timeout after 1s".to_string()))
    );
    assert!(over);
}

#[test]
fn choices_may_come_apart() {
    let choice = |arguments: &str, reason: Option<&str>| ChatChoice {
        index: Some(0),
        delta: Some(ChatDelta {
            role: Some("assistant".to_string()),
            content: Some("t".to_string()),
            tool_calls: Some(vec![fragment(0, Some("id"), Some("f"), Some(arguments))]),
        }),
        finish_reason: reason.map(str::to_string),
    };
    let chunk = |choices: Vec<ChatChoice>| {
        ChatSseInput::Chunk(ChatCompletionChunk {
            id: "x".to_string(),
            model: None,
            choices: Some(choices),
            usage: None,
        })
    };
    let together = run(vec![chunk(vec![choice("1", None), choice("2", Some("stop"))])]);
    let apart = run(vec![
        chunk(vec![choice("1", None)]),
        chunk(vec![choice("2", Some("stop"))]),
    ]);
    assert_eq!(together, apart);
    assert_eq!(together.0[2], call_done("f", "12", "id"));
}
