//! The state machine that turns the chunks of a streamed chat completion
//! into response events.
use vstd::prelude::*;
use vstd::string::*;

use crate::common;
use crate::common::{
    ApiError, ApiErrorView, ResponseEvent, ResponseEventView, TokenUsage,
};
use crate::models::{ResponseItem, ResponseItemView};
use crate::sse::chunk;
use crate::sse::chunk::{
    CallDeltaView, ChatChoice, ChatCompletionChunk, ChatDeltaToolCall, ChatUsage, ChoiceView,
    ChunkView,
};
use crate::text;

verus! {

/// The data of a server-sent event.
#[derive(Debug, PartialEq, Eq)]
pub enum SseData<'a> {
    /// The marker that closes the stream.
    Done,
    /// The JSON text of a chunk.
    Chunk(&'a str),
}

/// Reads the data of a server-sent event; white space around it has no
/// meaning.
pub fn read_sse_data<'a>(data: &'a str) -> (read: SseData<'a>)
    ensures
        match read {
            SseData::Done => text::trimmed(data@) == "[DONE]"@,
            SseData::Chunk(json) => json@ == text::trimmed(data@) && json@ != "[DONE]"@,
        },
{
    let data = text::trim(data);
    if text::same_text(data, "[DONE]") {
        SseData::Done
    } else {
        SseData::Chunk(data)
    }
}

/// A tool call of which fragments have come in.
#[derive(Debug, PartialEq, Eq)]
pub struct ToolCallState {
    pub index: u32,
    pub id: String,
    pub name: String,
    pub arguments: String,
}

/// An open tool call, by its texts.
pub struct OpenCall {
    pub index: u32,
    pub id: Seq<char>,
    pub name: Seq<char>,
    pub arguments: Seq<char>,
}

impl View for ToolCallState {
    type V = OpenCall;

    open spec fn view(&self) -> OpenCall {
        OpenCall {
            index: self.index,
            id: self.id@,
            name: self.name@,
            arguments: self.arguments@,
        }
    }
}

/// Open tool calls, by their texts.
pub open spec fn open_calls_view(calls: Seq<ToolCallState>) -> Seq<OpenCall> {
    calls.map_values(|call: ToolCallState| call@)
}

/// The place of the call with the given index; the number of calls where there
/// is none.
pub open spec fn call_position(calls: Seq<OpenCall>, index: u32) -> nat
    decreases calls.len(),
{
    if calls.len() == 0 || calls.first().index == index {
        0
    } else {
        1 + call_position(calls.drop_first(), index)
    }
}

/// A call of which nothing is known but its index.
pub open spec fn fresh_call(index: u32) -> OpenCall {
    OpenCall { index, id: "pending"@, name: Seq::empty(), arguments: Seq::empty() }
}

/// The name that a fragment gives.
pub open spec fn delta_name(delta: CallDeltaView) -> Option<Seq<char>> {
    match delta.function {
        Some(function) => function.name,
        None => None,
    }
}

/// The arguments that a fragment adds.
pub open spec fn delta_arguments(delta: CallDeltaView) -> Seq<char> {
    match delta.function {
        Some(function) => text::text_or_empty(function.arguments),
        None => Seq::empty(),
    }
}

/// A call with a fragment added: an id or a name replaces the former one, the
/// arguments grow.
pub open spec fn grown(call: OpenCall, delta: CallDeltaView) -> OpenCall {
    OpenCall {
        index: call.index,
        id: match delta.id {
            Some(id) => id,
            None => call.id,
        },
        name: match delta_name(delta) {
            Some(name) => name,
            None => call.name,
        },
        arguments: call.arguments + delta_arguments(delta),
    }
}

/// The open calls with a fragment added to the call of its index, which is
/// opened where it is not yet open.
pub open spec fn with_delta(calls: Seq<OpenCall>, delta: CallDeltaView) -> Seq<OpenCall> {
    let p = call_position(calls, delta.index);
    if p < calls.len() {
        calls.update(p as int, grown(calls[p as int], delta))
    } else {
        calls.push(grown(fresh_call(delta.index), delta))
    }
}

/// The open calls with fragments added one after the other.
pub open spec fn with_deltas(calls: Seq<OpenCall>, deltas: Seq<CallDeltaView>) -> Seq<OpenCall>
    decreases deltas.len(),
{
    if deltas.len() == 0 {
        calls
    } else {
        with_delta(with_deltas(calls, deltas.drop_last()), deltas.last())
    }
}

/// The event that hands over a finished tool call.
pub open spec fn call_done(call: OpenCall) -> ResponseEventView {
    ResponseEventView::OutputItemDone(
        ResponseItemView::FunctionCall {
            id: None,
            name: call.name,
            namespace: None,
            arguments: call.arguments,
            call_id: call.id,
        },
    )
}

/// The events that hand over finished tool calls, in the order in which the
/// calls were opened.
pub open spec fn calls_done(calls: Seq<OpenCall>) -> Seq<ResponseEventView> {
    calls.map_values(|call: OpenCall| call_done(call))
}

/// A count, zero where the provider gives none.
pub open spec fn count_or_zero(count: Option<i64>) -> i64 {
    match count {
        Some(count) => count,
        None => 0,
    }
}

/// The provider's token counts as token usage.
pub open spec fn token_usage(usage: Option<ChatUsage>) -> Option<TokenUsage> {
    match usage {
        Some(usage) => Some(
            TokenUsage {
                input_tokens: count_or_zero(usage.prompt_tokens),
                cached_input_tokens: 0,
                output_tokens: count_or_zero(usage.completion_tokens),
                reasoning_output_tokens: 0,
                total_tokens: count_or_zero(usage.total_tokens),
            },
        ),
        None => None,
    }
}

/// The event that ends an answer.
pub open spec fn completed(usage: Option<TokenUsage>, end_turn: bool) -> ResponseEventView {
    ResponseEventView::Completed {
        response_id: Seq::empty(),
        token_usage: usage,
        end_turn: Some(end_turn),
    }
}

/// Whether a finish reason ends the turn.
pub open spec fn ends_turn(finish_reason: Seq<char>) -> bool {
    finish_reason == "stop"@ || finish_reason == "length"@
}

/// The text that a choice adds.
pub open spec fn choice_text(choice: ChoiceView) -> Seq<char> {
    match choice.delta {
        Some(delta) => text::text_or_empty(delta.content),
        None => Seq::empty(),
    }
}

/// The fragments of tool calls that a choice adds.
pub open spec fn choice_deltas(choice: ChoiceView) -> Seq<CallDeltaView> {
    match choice.delta {
        Some(delta) => match delta.tool_calls {
            Some(calls) => calls,
            None => Seq::empty(),
        },
        None => Seq::empty(),
    }
}

/// The open calls after a choice: a finish reason closes them all.
pub open spec fn calls_after_choice(calls: Seq<OpenCall>, choice: ChoiceView) -> Seq<OpenCall> {
    if choice.finish_reason is Some {
        Seq::empty()
    } else {
        with_deltas(calls, choice_deltas(choice))
    }
}

/// The events of a choice: its text, where it has any, and for a finish reason
/// the finished tool calls and the end of the answer.
pub open spec fn choice_events(
    calls: Seq<OpenCall>,
    choice: ChoiceView,
    usage: Option<TokenUsage>,
) -> Seq<ResponseEventView> {
    let spoken = if choice_text(choice).len() > 0 {
        seq![ResponseEventView::OutputTextDelta(choice_text(choice))]
    } else {
        Seq::empty()
    };
    match choice.finish_reason {
        Some(reason) => spoken + calls_done(with_deltas(calls, choice_deltas(choice))) + seq![
            completed(usage, ends_turn(reason)),
        ],
        None => spoken,
    }
}

/// The open calls after a list of choices.
pub open spec fn calls_after_choices(
    calls: Seq<OpenCall>,
    choices: Seq<ChoiceView>,
) -> Seq<OpenCall>
    decreases choices.len(),
{
    if choices.len() == 0 {
        calls
    } else {
        calls_after_choice(calls_after_choices(calls, choices.drop_last()), choices.last())
    }
}

/// The events of a list of choices.
pub open spec fn choices_events(
    calls: Seq<OpenCall>,
    choices: Seq<ChoiceView>,
    usage: Option<TokenUsage>,
) -> Seq<ResponseEventView>
    decreases choices.len(),
{
    if choices.len() == 0 {
        Seq::empty()
    } else {
        let before = choices.drop_last();
        choices_events(calls, before, usage) + choice_events(
            calls_after_choices(calls, before),
            choices.last(),
            usage,
        )
    }
}

/// The choices of a chunk.
pub open spec fn chunk_choices(chunk: ChunkView) -> Seq<ChoiceView> {
    match chunk.choices {
        Some(choices) => choices,
        None => Seq::empty(),
    }
}

/// Finds the call with the given index.
fn find_call(calls: &Vec<ToolCallState>, index: u32) -> (position: usize)
    ensures
        position == call_position(open_calls_view(calls@), index),
        position <= calls@.len(),
{
    let ghost all = open_calls_view(calls@);
    let mut i: usize = 0;
    assert(all.skip(0) =~= all);
    while i < calls.len()
        invariant
            0 <= i <= calls@.len(),
            all == open_calls_view(calls@),
            call_position(all, index) == i + call_position(all.skip(i as int), index),
        decreases calls@.len() - i,
    {
        assert(all.skip(i as int).first() == calls@[i as int]@);
        if calls[i].index == index {
            return i;
        }
        assert(all.skip(i as int).drop_first() =~= all.skip(i + 1));
        i += 1;
    }
    i
}

/// Adds a fragment to a call.
fn grow_call(call: ToolCallState, delta: &ChatDeltaToolCall) -> (result: ToolCallState)
    ensures
        result@ == grown(call@, delta@),
{
    let mut call = call;
    let ghost before = call@;
    if let Some(id) = &delta.id {
        call.id = id.clone();
    }
    if let Some(function) = &delta.function {
        if let Some(name) = &function.name {
            call.name = name.clone();
        }
        if let Some(arguments) = &function.arguments {
            call.arguments.append(arguments.as_str());
        }
    }
    assert(call@.arguments =~= before.arguments + delta_arguments(delta@));
    call
}

/// Adds a fragment to the open calls.
fn add_delta(calls: &mut Vec<ToolCallState>, delta: &ChatDeltaToolCall)
    ensures
        open_calls_view(final(calls)@) == with_delta(open_calls_view(old(calls)@), delta@),
{
    let ghost before = calls@;
    let position = find_call(calls, delta.index);
    if position < calls.len() {
        let call = calls.remove(position);
        let call = grow_call(call, delta);
        calls.insert(position, call);
        assert(open_calls_view(calls@) =~= with_delta(open_calls_view(before), delta@));
    } else {
        let call = ToolCallState {
            index: delta.index,
            id: "pending".to_owned(),
            name: String::new(),
            arguments: String::new(),
        };
        let call = grow_call(call, delta);
        calls.push(call);
        assert(open_calls_view(calls@) =~= with_delta(open_calls_view(before), delta@));
    }
}

/// Adds fragments to the open calls.
fn add_deltas(calls: &mut Vec<ToolCallState>, deltas: &Vec<ChatDeltaToolCall>)
    ensures
        open_calls_view(final(calls)@) == with_deltas(
            open_calls_view(old(calls)@),
            chunk::call_deltas_view(deltas@),
        ),
{
    let ghost all = chunk::call_deltas_view(deltas@);
    let ghost before = open_calls_view(calls@);
    let mut i: usize = 0;
    assert(all.take(0) =~= Seq::empty());
    while i < deltas.len()
        invariant
            0 <= i <= deltas@.len(),
            all == chunk::call_deltas_view(deltas@),
            open_calls_view(calls@) == with_deltas(before, all.take(i as int)),
        decreases deltas@.len() - i,
    {
        add_delta(calls, &deltas[i]);
        proof {
            assert(all.take(i + 1).drop_last() =~= all.take(i as int));
            assert(all.take(i + 1).last() == deltas@[i as int]@);
        }
        i += 1;
    }
    assert(all.take(i as int) =~= all);
}

/// Hands over the open calls and leaves none open.
fn flush_calls(calls: &mut Vec<ToolCallState>, events: &mut Vec<ResponseEvent>)
    ensures
        final(calls)@.len() == 0,
        common::events_view(final(events)@) == common::events_view(old(events)@) + calls_done(
            open_calls_view(old(calls)@),
        ),
{
    let ghost all = open_calls_view(calls@);
    let ghost before = common::events_view(events@);
    assert(calls_done(all.take(0)) =~= Seq::empty());
    let ghost mut n: int = 0;
    assert(all.skip(0) =~= all);
    while !calls.is_empty()
        invariant
            0 <= n <= all.len(),
            open_calls_view(calls@) == all.skip(n),
            common::events_view(events@) == before + calls_done(all.take(n)),
        decreases calls@.len(),
    {
        let ghost rest = calls@;
        let ghost events_before = events@;
        let call = calls.remove(0);
        proof {
            assert(call@ == all[n]) by {
                assert(open_calls_view(rest).len() == all.len() - n);
                assert(open_calls_view(rest)[0] == rest[0]@);
                assert(all.skip(n)[0] == all[n]);
            }
            assert(open_calls_view(calls@) =~= open_calls_view(rest).drop_first());
            assert(all.skip(n).drop_first() =~= all.skip(n + 1));
        }
        let ghost handed = call@;
        events.push(
            ResponseEvent::OutputItemDone(
                ResponseItem::FunctionCall {
                    id: None,
                    name: call.name,
                    namespace: None,
                    arguments: call.arguments,
                    call_id: call.id,
                },
            ),
        );
        proof {
            assert(common::events_view(events@) =~= common::events_view(events_before).push(
                call_done(handed),
            ));
            assert(calls_done(all.take(n + 1)) =~= calls_done(all.take(n)).push(call_done(all[n])));
            assert(before + calls_done(all.take(n)).push(call_done(handed)) =~= (before
                + calls_done(all.take(n))).push(call_done(handed)));
            n = n + 1;
        }
    }
    assert(n == all.len()) by {
        assert(open_calls_view(calls@).len() == 0);
    }
    assert(all.take(n) =~= all);
}

/// Reads the provider's token counts.
fn read_usage(usage: &Option<ChatUsage>) -> (read: Option<TokenUsage>)
    ensures
        read == token_usage(*usage),
{
    match usage {
        Some(usage) => Some(
            TokenUsage {
                input_tokens: usage.prompt_tokens.unwrap_or(0),
                cached_input_tokens: 0,
                output_tokens: usage.completion_tokens.unwrap_or(0),
                reasoning_output_tokens: 0,
                total_tokens: usage.total_tokens.unwrap_or(0),
            },
        ),
        None => None,
    }
}

/// Ends an answer.
fn push_completed(events: &mut Vec<ResponseEvent>, usage: Option<TokenUsage>, end_turn: bool)
    ensures
        common::events_view(final(events)@) == common::events_view(old(events)@).push(
            completed(usage, end_turn),
        ),
{
    let ghost before = events@;
    events.push(
        ResponseEvent::Completed {
            response_id: String::new(),
            token_usage: usage,
            end_turn: Some(end_turn),
        },
    );
    assert(common::events_view(events@) =~= common::events_view(before).push(
        completed(usage, end_turn),
    ));
}

/// Takes in a choice.
fn add_choice(
    calls: &mut Vec<ToolCallState>,
    events: &mut Vec<ResponseEvent>,
    choice: &ChatChoice,
    usage: Option<TokenUsage>,
)
    ensures
        open_calls_view(final(calls)@) == calls_after_choice(
            open_calls_view(old(calls)@),
            choice@,
        ),
        common::events_view(final(events)@) == common::events_view(old(events)@) + choice_events(
            open_calls_view(old(calls)@),
            choice@,
            usage,
        ),
{
    let ghost calls_before = open_calls_view(calls@);
    let ghost events_before = common::events_view(events@);
    let ghost spoken = choice_events(
        calls_before,
        ChoiceView { finish_reason: None, ..choice@ },
        usage,
    );
    if let Some(delta) = &choice.delta {
        if let Some(content) = &delta.content {
            if !content.as_str().is_empty() {
                let ghost before = events@;
                events.push(ResponseEvent::OutputTextDelta(content.clone()));
                assert(common::events_view(events@) =~= common::events_view(before) + spoken);
            }
        }
        if let Some(tool_calls) = &delta.tool_calls {
            add_deltas(calls, tool_calls);
        }
    }
    assert(common::events_view(events@) =~= events_before + spoken);
    assert(open_calls_view(calls@) == with_deltas(calls_before, choice_deltas(choice@)));
    if let Some(reason) = &choice.finish_reason {
        flush_calls(calls, events);
        let end_turn = text::same_text(reason.as_str(), "stop") || text::same_text(
            reason.as_str(),
            "length",
        );
        push_completed(events, usage, end_turn);
        assert(open_calls_view(calls@) =~= Seq::empty());
        assert(common::events_view(events@) =~= events_before + choice_events(
            calls_before,
            choice@,
            usage,
        ));
    }
}

/// What happens on a stream of server-sent events.
#[derive(Debug, PartialEq, Eq)]
pub enum ChatSseInput {
    /// The closing marker has come in.
    Done,
    /// A chunk has come in.
    Chunk(ChatCompletionChunk),
    /// Data has come in that is no chunk.
    Unreadable,
    /// The stream cannot be read any further; the text says why.
    Malformed(String),
    /// The stream has ended without its closing marker.
    Ended,
    /// Nothing has come in for the given number of seconds.
    Idle(u64),
}

/// What happens on a stream, by its texts.
pub enum ChatSseInputView {
    Done,
    Chunk(ChunkView),
    Unreadable,
    Malformed(Seq<char>),
    Ended,
    Idle(u64),
}

impl View for ChatSseInput {
    type V = ChatSseInputView;

    open spec fn view(&self) -> ChatSseInputView {
        match self {
            ChatSseInput::Done => ChatSseInputView::Done,
            ChatSseInput::Chunk(chunk) => ChatSseInputView::Chunk(chunk@),
            ChatSseInput::Unreadable => ChatSseInputView::Unreadable,
            ChatSseInput::Malformed(reason) => ChatSseInputView::Malformed(reason@),
            ChatSseInput::Ended => ChatSseInputView::Ended,
            ChatSseInput::Idle(seconds) => ChatSseInputView::Idle(*seconds),
        }
    }
}

/// What a step of the stream asks for: the events to send, then the failure to
/// send, and whether the stream is over.
#[derive(Debug, PartialEq, Eq)]
pub struct ChatSseStep {
    pub events: Vec<ResponseEvent>,
    pub failure: Option<ApiError>,
    pub over: bool,
}

/// A step, by its texts.
pub struct ChatSseStepView {
    pub events: Seq<ResponseEventView>,
    pub failure: Option<ApiErrorView>,
    pub over: bool,
}

impl View for ChatSseStep {
    type V = ChatSseStepView;

    open spec fn view(&self) -> ChatSseStepView {
        ChatSseStepView {
            events: common::events_view(self.events@),
            failure: match self.failure {
                Some(failure) => Some(failure@),
                None => None,
            },
            over: self.over,
        }
    }
}

/// The open calls after a step. A stream that ends hands over its open calls;
/// its closing marker, and a failure, leave them where they are.
pub open spec fn calls_after(calls: Seq<OpenCall>, input: ChatSseInputView) -> Seq<OpenCall> {
    match input {
        ChatSseInputView::Chunk(chunk) => calls_after_choices(calls, chunk_choices(chunk)),
        ChatSseInputView::Ended => Seq::empty(),
        _ => calls,
    }
}

/// What a step asks for.
pub open spec fn step_of(calls: Seq<OpenCall>, input: ChatSseInputView) -> ChatSseStepView {
    match input {
        ChatSseInputView::Done => ChatSseStepView {
            events: Seq::empty(),
            failure: None,
            over: true,
        },
        ChatSseInputView::Chunk(chunk) => ChatSseStepView {
            events: choices_events(calls, chunk_choices(chunk), token_usage(chunk.usage)),
            failure: None,
            over: false,
        },
        ChatSseInputView::Unreadable => ChatSseStepView {
            events: Seq::empty(),
            failure: None,
            over: false,
        },
        ChatSseInputView::Malformed(reason) => ChatSseStepView {
            events: Seq::empty(),
            failure: Some(ApiErrorView::Stream("SSE parse error: "@ + reason)),
            over: true,
        },
        ChatSseInputView::Ended => ChatSseStepView {
            events: calls_done(calls).push(completed(None, true)),
            failure: None,
            over: true,
        },
        ChatSseInputView::Idle(seconds) => ChatSseStepView {
            events: Seq::empty(),
            failure: Some(
                ApiErrorView::Stream(
                    "stream idle timeout after "@ + text::decimal(seconds as nat) + "s"@,
                ),
            ),
            over: true,
        },
    }
}

/// Whether each index belongs to one open call at most.
pub open spec fn distinct_calls(calls: Seq<OpenCall>) -> bool {
    forall|i: int, j: int|
        0 <= i < j < calls.len() ==> #[trigger] calls[i].index != #[trigger] calls[j].index
}

/// The state of a streamed answer: the tool calls that are still open.
#[derive(Debug, PartialEq, Eq)]
pub struct ChatSseState {
    calls: Vec<ToolCallState>,
}

impl View for ChatSseState {
    type V = Seq<OpenCall>;

    closed spec fn view(&self) -> Seq<OpenCall> {
        open_calls_view(self.calls@)
    }
}

impl ChatSseState {
    /// The state before anything has come in.
    pub fn new() -> (state: ChatSseState)
        ensures
            state@ == Seq::<OpenCall>::empty(),
    {
        let state = ChatSseState { calls: Vec::new() };
        assert(state@ =~= Seq::empty());
        state
    }

    /// Takes in the choices of a chunk.
    fn add_chunk(&mut self, chunk: &ChatCompletionChunk) -> (events: Vec<ResponseEvent>)
        ensures
            final(self)@ == calls_after_choices(old(self)@, chunk_choices(chunk@)),
            common::events_view(events@) == choices_events(
                old(self)@,
                chunk_choices(chunk@),
                token_usage(chunk.usage),
            ),
    {
        let mut events: Vec<ResponseEvent> = Vec::new();
        assert(common::events_view(events@) =~= Seq::empty());
        let usage = read_usage(&chunk.usage);
        if let Some(choices) = &chunk.choices {
            let ghost all = chunk::choices_view(choices@);
            let ghost before = self@;
            let mut i: usize = 0;
            assert(all.take(0) =~= Seq::empty());
            while i < choices.len()
                invariant
                    0 <= i <= choices@.len(),
                    all == chunk::choices_view(choices@),
                    self@ == calls_after_choices(before, all.take(i as int)),
                    common::events_view(events@) == choices_events(
                        before,
                        all.take(i as int),
                        usage,
                    ),
                decreases choices@.len() - i,
            {
                add_choice(&mut self.calls, &mut events, &choices[i], usage);
                proof {
                    assert(all.take(i + 1).drop_last() =~= all.take(i as int));
                    assert(all.take(i + 1).last() == choices@[i as int]@);
                }
                i += 1;
            }
            assert(all.take(i as int) =~= all);
        }
        events
    }

    /// Takes one step: from what has happened on the stream to what is to be
    /// sent.
    pub fn step(&mut self, input: ChatSseInput) -> (step: ChatSseStep)
        ensures
            final(self)@ == calls_after(old(self)@, input@),
            step@ == step_of(old(self)@, input@),
            distinct_calls(old(self)@) ==> distinct_calls(final(self)@),
    {
        proof {
            if distinct_calls(self@) {
                lemma_step_keeps_distinct(self@, input@);
            }
        }
        match input {
            ChatSseInput::Done => quiet_step(true),
            ChatSseInput::Unreadable => quiet_step(false),
            ChatSseInput::Chunk(chunk) => {
                let events = self.add_chunk(&chunk);
                ChatSseStep { events, failure: None, over: false }
            },
            ChatSseInput::Malformed(reason) => {
                let mut message = "SSE parse error: ".to_owned();
                message.append(reason.as_str());
                failed_step(message)
            },
            ChatSseInput::Ended => {
                let mut events: Vec<ResponseEvent> = Vec::new();
                assert(common::events_view(events@) =~= Seq::empty());
                let ghost before = self@;
                flush_calls(&mut self.calls, &mut events);
                push_completed(&mut events, None, true);
                assert(self@ =~= Seq::empty());
                assert(Seq::<ResponseEventView>::empty() + calls_done(before) =~= calls_done(
                    before,
                ));
                ChatSseStep { events, failure: None, over: true }
            },
            ChatSseInput::Idle(seconds) => {
                let mut message = "stream idle timeout after ".to_owned();
                message.append(text::decimal_text(seconds).as_str());
                message.append("s");
                failed_step(message)
            },
        }
    }
}

/// A step that sends nothing.
fn quiet_step(over: bool) -> (step: ChatSseStep)
    ensures
        step@ == (ChatSseStepView { events: Seq::empty(), failure: None, over }),
{
    let step = ChatSseStep { events: Vec::new(), failure: None, over };
    assert(step@.events =~= Seq::empty());
    step
}

/// A step that fails the stream.
fn failed_step(message: String) -> (step: ChatSseStep)
    ensures
        step@ == (ChatSseStepView {
            events: Seq::empty(),
            failure: Some(ApiErrorView::Stream(message@)),
            over: true,
        }),
{
    let step = ChatSseStep {
        events: Vec::new(),
        failure: Some(ApiError::Stream(message)),
        over: true,
    };
    assert(step@.events =~= Seq::empty());
    step
}

pub(crate) proof fn lemma_position(calls: Seq<OpenCall>, index: u32)
    ensures
        call_position(calls, index) <= calls.len(),
        call_position(calls, index) < calls.len() ==> calls[call_position(
            calls,
            index,
        ) as int].index == index,
        forall|i: int|
            0 <= i < call_position(calls, index) ==> #[trigger] calls[i].index != index,
    decreases calls.len(),
{
    if calls.len() > 0 && calls.first().index != index {
        let rest = calls.drop_first();
        lemma_position(rest, index);
        assert forall|i: int| 0 <= i < call_position(calls, index) implies #[trigger] calls[i].index
            != index by {
            if i > 0 {
                assert(rest[i - 1] == calls[i]);
            }
        }
    }
}

proof fn lemma_deltas_keep_distinct(calls: Seq<OpenCall>, deltas: Seq<CallDeltaView>)
    requires
        distinct_calls(calls),
    ensures
        distinct_calls(with_deltas(calls, deltas)),
    decreases deltas.len(),
{
    if deltas.len() > 0 {
        let before = with_deltas(calls, deltas.drop_last());
        lemma_deltas_keep_distinct(calls, deltas.drop_last());
        lemma_position(before, deltas.last().index);
    }
}

proof fn lemma_choices_keep_distinct(calls: Seq<OpenCall>, choices: Seq<ChoiceView>)
    requires
        distinct_calls(calls),
    ensures
        distinct_calls(calls_after_choices(calls, choices)),
    decreases choices.len(),
{
    if choices.len() > 0 {
        let before = choices.drop_last();
        lemma_choices_keep_distinct(calls, before);
        lemma_deltas_keep_distinct(
            calls_after_choices(calls, before),
            choice_deltas(choices.last()),
        );
    }
}

/// No step opens a second call of the same index.
pub proof fn lemma_step_keeps_distinct(calls: Seq<OpenCall>, input: ChatSseInputView)
    requires
        distinct_calls(calls),
    ensures
        distinct_calls(calls_after(calls, input)),
{
    if let ChatSseInputView::Chunk(chunk) = input {
        lemma_choices_keep_distinct(calls, chunk_choices(chunk));
    }
}

} // verus!
