//! What each thing that happens on a stream comes to.
use vstd::prelude::*;

use crate::common::{ApiErrorView, ResponseEventView, TokenUsage};
use crate::sse::chat_completions;
use crate::sse::chat_completions::{ChatSseInputView, OpenCall};
use crate::sse::chunk::{CallDeltaView, ChatUsage, ChoiceView, ChunkView};
use crate::text;

verus! {

/// Whether `call` is what `id`, `name` and `arguments` become with a fragment:
/// an id or a name of the fragment takes the place of the former one, and its
/// arguments come after the former ones.
pub open spec fn took_fragment(
    call: OpenCall,
    id: Seq<char>,
    name: Seq<char>,
    arguments: Seq<char>,
    delta: CallDeltaView,
) -> bool {
    &&& call.index == delta.index
    &&& delta.id is Some ==> call.id == delta.id->0
    &&& delta.id is None ==> call.id == id
    &&& delta.function is Some && delta.function->0.name is Some ==> call.name
        == delta.function->0.name->0
    &&& delta.function is None || delta.function->0.name is None ==> call.name == name
    &&& delta.function is Some && delta.function->0.arguments is Some ==> call.arguments
        == arguments + delta.function->0.arguments->0
    &&& delta.function is None || delta.function->0.arguments is None ==> call.arguments
        == arguments
}

/// Without fragments the open calls stay as they are.
pub proof fn law_no_fragments_no_change(calls: Seq<OpenCall>, deltas: Seq<CallDeltaView>)
    requires
        deltas.len() == 0,
    ensures
        chat_completions::with_deltas(calls, deltas) == calls,
{
}

/// A fragment of an open call goes to that call, whatever else it holds, and
/// to no other.
pub proof fn law_fragment_goes_to_its_call(
    calls: Seq<OpenCall>,
    deltas: Seq<CallDeltaView>,
    delta: CallDeltaView,
    i: int,
)
    requires
        0 <= i < chat_completions::with_deltas(calls, deltas).len(),
        chat_completions::with_deltas(calls, deltas)[i].index == delta.index,
        forall|j: int|
            0 <= j < i ==> #[trigger] chat_completions::with_deltas(calls, deltas)[j].index
                != delta.index,
    ensures
        ({
            let before = chat_completions::with_deltas(calls, deltas);
            let after = chat_completions::with_deltas(calls, deltas.push(delta));
            &&& after.len() == before.len()
            &&& forall|j: int| 0 <= j < before.len() && j != i ==> #[trigger] after[j] == before[j]
            &&& took_fragment(
                after[i],
                before[i].id,
                before[i].name,
                before[i].arguments,
                delta,
            )
        }),
{
    let before = chat_completions::with_deltas(calls, deltas);
    assert(deltas.push(delta).drop_last() =~= deltas);
    chat_completions::lemma_position(before, delta.index);
    let p = chat_completions::call_position(before, delta.index) as int;
    if p < i {
        assert(before[p].index != delta.index);
    }
    assert(p == i) by {
        if i < p {
            assert(before[i].index != delta.index);
        }
    }
    assert(before[i].arguments + Seq::<char>::empty() =~= before[i].arguments);
}

/// A fragment of a call that is not open opens it, behind the others, which
/// stay as they are. Until an id comes in the call is "pending"; its name and
/// its arguments start out empty.
pub proof fn law_fragment_opens_its_call(
    calls: Seq<OpenCall>,
    deltas: Seq<CallDeltaView>,
    delta: CallDeltaView,
)
    requires
        forall|j: int|
            0 <= j < chat_completions::with_deltas(calls, deltas).len()
                ==> #[trigger] chat_completions::with_deltas(calls, deltas)[j].index != delta.index,
    ensures
        ({
            let before = chat_completions::with_deltas(calls, deltas);
            let after = chat_completions::with_deltas(calls, deltas.push(delta));
            &&& after.len() == before.len() + 1
            &&& after.drop_last() == before
            &&& took_fragment(
                after.last(),
                "pending"@,
                Seq::empty(),
                Seq::empty(),
                delta,
            )
        }),
{
    let before = chat_completions::with_deltas(calls, deltas);
    let after = chat_completions::with_deltas(calls, deltas.push(delta));
    assert(deltas.push(delta).drop_last() =~= deltas);
    chat_completions::lemma_position(before, delta.index);
    let p = chat_completions::call_position(before, delta.index) as int;
    if p < before.len() {
        assert(before[p].index != delta.index);
    }
    assert(after.drop_last() =~= before);
    let fresh: Seq<char> = Seq::empty();
    if delta.function is Some && delta.function->0.arguments is Some {
        assert(fresh + delta.function->0.arguments->0 =~= delta.function->0.arguments->0);
    } else {
        assert(fresh + fresh =~= fresh);
    }
}

/// The input of a chunk with the given choices.
pub open spec fn chunk_with(chunk: ChunkView, choices: Seq<ChoiceView>) -> ChatSseInputView {
    ChatSseInputView::Chunk(ChunkView { choices: Some(choices), ..chunk })
}

/// The text event of a choice: its text, unless that is missing or empty.
pub open spec fn says(choice: ChoiceView) -> Seq<ResponseEventView> {
    if choice.delta is Some && choice.delta->0.content is Some && choice.delta->0.content->0.len()
        > 0 {
        seq![ResponseEventView::OutputTextDelta(choice.delta->0.content->0)]
    } else {
        Seq::empty()
    }
}

/// The fragments of tool calls that a choice brings.
pub open spec fn brings(choice: ChoiceView) -> Seq<CallDeltaView> {
    if choice.delta is Some && choice.delta->0.tool_calls is Some {
        choice.delta->0.tool_calls->0
    } else {
        Seq::empty()
    }
}

/// A chunk without choices changes nothing and sends nothing.
pub proof fn law_no_choices_no_events(calls: Seq<OpenCall>, chunk: ChunkView)
    requires
        chunk.choices is None || chunk.choices->0.len() == 0,
    ensures
        ({
            let step = chat_completions::step_of(calls, ChatSseInputView::Chunk(chunk));
            &&& step.events.len() == 0
            &&& step.failure is None
            &&& !step.over
            &&& chat_completions::calls_after(calls, ChatSseInputView::Chunk(chunk)) == calls
        }),
{
}

/// A choice that is not finished adds its text to what the choices before it
/// send, and its fragments to the calls that they left open. A chunk never
/// fails or ends the stream.
pub proof fn law_unfinished_choice(
    calls: Seq<OpenCall>,
    chunk: ChunkView,
    choices: Seq<ChoiceView>,
    choice: ChoiceView,
)
    requires
        choice.finish_reason is None,
    ensures
        ({
            let before = chat_completions::step_of(calls, chunk_with(chunk, choices));
            let after = chat_completions::step_of(calls, chunk_with(chunk, choices.push(choice)));
            let open = chat_completions::calls_after(calls, chunk_with(chunk, choices));
            &&& after.events == before.events + says(choice)
            &&& after.failure is None
            &&& !after.over
            &&& chat_completions::calls_after(calls, chunk_with(chunk, choices.push(choice)))
                == chat_completions::with_deltas(open, brings(choice))
        }),
{
    assert(choices.push(choice).drop_last() =~= choices);
    lemma_says(choice);
}

proof fn lemma_says(choice: ChoiceView)
    ensures
        brings(choice) == chat_completions::choice_deltas(choice),
        says(choice) == if chat_completions::choice_text(choice).len() > 0 {
            seq![ResponseEventView::OutputTextDelta(chat_completions::choice_text(choice))]
        } else {
            Seq::empty()
        },
{
}

/// Whether token usage says what the provider counts: zero for what it does
/// not count, and nothing where it counts nothing at all.
pub open spec fn counts(usage: Option<TokenUsage>, given: Option<ChatUsage>) -> bool {
    &&& usage is Some <==> given is Some
    &&& given is Some ==> {
        let read = usage->0;
        let said = given->0;
        &&& said.prompt_tokens is Some ==> read.input_tokens == said.prompt_tokens->0
        &&& said.prompt_tokens is None ==> read.input_tokens == 0
        &&& said.completion_tokens is Some ==> read.output_tokens == said.completion_tokens->0
        &&& said.completion_tokens is None ==> read.output_tokens == 0
        &&& said.total_tokens is Some ==> read.total_tokens == said.total_tokens->0
        &&& said.total_tokens is None ==> read.total_tokens == 0
        &&& read.cached_input_tokens == 0
        &&& read.reasoning_output_tokens == 0
    }
}

/// Whether an event hands over a call: as a function call with its name, its
/// arguments and its id as the call id.
pub open spec fn hands_over(event: ResponseEventView, call: OpenCall) -> bool {
    &&& event is OutputItemDone
    &&& event->OutputItemDone_0 is FunctionCall
    &&& event->OutputItemDone_0->FunctionCall_name == call.name
    &&& event->OutputItemDone_0->FunctionCall_arguments == call.arguments
    &&& event->OutputItemDone_0->FunctionCall_call_id == call.id
    &&& event->OutputItemDone_0->FunctionCall_id is None
    &&& event->OutputItemDone_0->FunctionCall_namespace is None
}

/// Whether an event ends an answer, with the given token usage, and ends the
/// turn or not.
pub open spec fn ends_answer(
    event: ResponseEventView,
    given: Option<ChatUsage>,
    end_turn: bool,
) -> bool {
    &&& event is Completed
    &&& event->response_id.len() == 0
    &&& counts(event->token_usage, given)
    &&& event->end_turn == Some(end_turn)
}

/// A choice that is finished adds to what the choices before it send its text,
/// then every call that is open with its own fragments added, in the order in
/// which they were opened, then the end of the answer with the token counts of
/// the chunk. The turn ends for the reasons "stop" and "length" and for no
/// other, whatever the counts and the calls. No call stays open.
pub proof fn law_finished_choice(
    calls: Seq<OpenCall>,
    chunk: ChunkView,
    choices: Seq<ChoiceView>,
    choice: ChoiceView,
)
    requires
        choice.finish_reason is Some,
    ensures
        ({
            let before = chat_completions::step_of(calls, chunk_with(chunk, choices));
            let after = chat_completions::step_of(calls, chunk_with(chunk, choices.push(choice)));
            let open = chat_completions::with_deltas(
                chat_completions::calls_after(calls, chunk_with(chunk, choices)),
                brings(choice),
            );
            let said = before.events + says(choice);
            let reason = choice.finish_reason->0;
            &&& after.events.len() == said.len() + open.len() + 1
            &&& after.events.take(said.len() as int) == said
            &&& forall|i: int|
                0 <= i < open.len() ==> hands_over(
                    #[trigger] after.events[said.len() + i],
                    open[i],
                )
            &&& ends_answer(
                after.events.last(),
                chunk.usage,
                reason == "stop"@ || reason == "length"@,
            )
            &&& after.failure is None
            &&& !after.over
            &&& chat_completions::calls_after(
                calls,
                chunk_with(chunk, choices.push(choice)),
            ).len() == 0
        }),
{
    let before = chat_completions::step_of(calls, chunk_with(chunk, choices));
    let after = chat_completions::step_of(calls, chunk_with(chunk, choices.push(choice)));
    let said = before.events + says(choice);
    assert(choices.push(choice).drop_last() =~= choices);
    lemma_says(choice);
    let open = chat_completions::with_deltas(
        chat_completions::calls_after(calls, chunk_with(chunk, choices)),
        brings(choice),
    );
    let done = chat_completions::calls_done(open);
    assert(after.events =~= said + done + seq![after.events.last()]);
    assert(after.events.take(said.len() as int) =~= said);
    assert forall|i: int| 0 <= i < open.len() implies hands_over(
        #[trigger] after.events[said.len() + i],
        open[i],
    ) by {
        assert(after.events[said.len() + i] == done[i]);
    }
}

/// A stream that ends hands over every open call, in the order in which they
/// were opened, then ends the answer without token counts, and the turn.
pub proof fn law_end_of_stream(calls: Seq<OpenCall>)
    ensures
        ({
            let step = chat_completions::step_of(calls, ChatSseInputView::Ended);
            &&& step.events.len() == calls.len() + 1
            &&& forall|i: int|
                0 <= i < calls.len() ==> hands_over(#[trigger] step.events[i], calls[i])
            &&& ends_answer(step.events.last(), None, true)
            &&& step.failure is None
            &&& step.over
            &&& chat_completions::calls_after(calls, ChatSseInputView::Ended).len() == 0
        }),
{
    let step = chat_completions::step_of(calls, ChatSseInputView::Ended);
    assert forall|i: int| 0 <= i < calls.len() implies hands_over(
        #[trigger] step.events[i],
        calls[i],
    ) by {
        assert(step.events[i] == chat_completions::calls_done(calls)[i]);
    }
}

/// The closing marker ends the stream, unreadable data does not; neither sends
/// anything or touches the open calls.
pub proof fn law_quiet_inputs(calls: Seq<OpenCall>, input: ChatSseInputView)
    requires
        input is Done || input is Unreadable,
    ensures
        ({
            let step = chat_completions::step_of(calls, input);
            &&& step.events.len() == 0
            &&& step.failure is None
            &&& step.over <==> input is Done
            &&& chat_completions::calls_after(calls, input) == calls
        }),
{
}

/// A stream that cannot be read fails with the reason; an idle one fails with
/// the number of seconds. Either is over, and sends no event.
pub proof fn law_failures_say_why(calls: Seq<OpenCall>, reason: Seq<char>, seconds: u64)
    ensures
        ({
            let malformed = chat_completions::step_of(calls, ChatSseInputView::Malformed(reason));
            let idle = chat_completions::step_of(calls, ChatSseInputView::Idle(seconds));
            &&& malformed.events.len() == 0
            &&& malformed.failure == Some(ApiErrorView::Stream("SSE parse error: "@ + reason))
            &&& malformed.over
            &&& idle.events.len() == 0
            &&& idle.failure == Some(
                ApiErrorView::Stream(
                    "stream idle timeout after "@ + text::decimal(seconds as nat) + "s"@,
                ),
            )
            &&& idle.over
            &&& chat_completions::calls_after(calls, ChatSseInputView::Malformed(reason)) == calls
            &&& chat_completions::calls_after(calls, ChatSseInputView::Idle(seconds)) == calls
        }),
{
}

} // verus!
