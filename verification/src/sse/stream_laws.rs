//! What holds of every streamed answer.
use vstd::prelude::*;

use crate::common::{ResponseEventView, TokenUsage};
use crate::sse::chat_completions;
use crate::sse::chat_completions::{ChatSseInputView, ChatSseStepView, OpenCall};
use crate::sse::chunk::{CallDeltaView, ChoiceView};
use crate::text;

verus! {

/// The open call of the given index.
pub open spec fn open_call(calls: Seq<OpenCall>, index: u32) -> Option<OpenCall> {
    let p = chat_completions::call_position(calls, index);
    if p < calls.len() {
        Some(calls[p as int])
    } else {
        None
    }
}

/// The open call of the given index, or one of which nothing is known.
pub open spec fn open_or_fresh(calls: Seq<OpenCall>, index: u32) -> OpenCall {
    match open_call(calls, index) {
        Some(call) => call,
        None => chat_completions::fresh_call(index),
    }
}

/// Whether some fragment is of the given index.
pub open spec fn mentioned(deltas: Seq<CallDeltaView>, index: u32) -> bool {
    exists|i: int| 0 <= i < deltas.len() && #[trigger] deltas[i].index == index
}

/// The last id that the fragments of an index give; `id` where they give none.
pub open spec fn last_id(deltas: Seq<CallDeltaView>, index: u32, id: Seq<char>) -> Seq<char>
    decreases deltas.len(),
{
    if deltas.len() == 0 {
        id
    } else if deltas.last().index == index && deltas.last().id is Some {
        deltas.last().id->0
    } else {
        last_id(deltas.drop_last(), index, id)
    }
}

/// The last name that the fragments of an index give; `name` where they give
/// none.
pub open spec fn last_name(deltas: Seq<CallDeltaView>, index: u32, name: Seq<char>) -> Seq<char>
    decreases deltas.len(),
{
    if deltas.len() == 0 {
        name
    } else if deltas.last().index == index && deltas.last().function is Some
        && deltas.last().function->0.name is Some {
        deltas.last().function->0.name->0
    } else {
        last_name(deltas.drop_last(), index, name)
    }
}

/// The arguments that the fragments of an index give, one after the other.
pub open spec fn all_arguments(deltas: Seq<CallDeltaView>, index: u32) -> Seq<char>
    decreases deltas.len(),
{
    if deltas.len() == 0 {
        Seq::empty()
    } else if deltas.last().index == index && deltas.last().function is Some
        && deltas.last().function->0.arguments is Some {
        all_arguments(deltas.drop_last(), index) + deltas.last().function->0.arguments->0
    } else {
        all_arguments(deltas.drop_last(), index)
    }
}

proof fn lemma_position_is_first(calls: Seq<OpenCall>, index: u32, p: int)
    requires
        0 <= p <= calls.len(),
        p < calls.len() ==> calls[p].index == index,
        forall|i: int| 0 <= i < p ==> #[trigger] calls[i].index != index,
    ensures
        chat_completions::call_position(calls, index) == p,
    decreases calls.len(),
{
    if p > 0 {
        let rest = calls.drop_first();
        assert(calls[0].index != index);
        assert forall|i: int| 0 <= i < p - 1 implies #[trigger] rest[i].index != index by {
            assert(rest[i] == calls[i + 1]);
        }
        lemma_position_is_first(rest, index, p - 1);
    }
}

proof fn lemma_delta_goes_to_its_call(calls: Seq<OpenCall>, delta: CallDeltaView, index: u32)
    ensures
        open_call(chat_completions::with_delta(calls, delta), index) == if delta.index == index {
            Some(chat_completions::grown(open_or_fresh(calls, index), delta))
        } else {
            open_call(calls, index)
        },
{
    let after = chat_completions::with_delta(calls, delta);
    let p = chat_completions::call_position(calls, delta.index) as int;
    let q = chat_completions::call_position(calls, index) as int;
    chat_completions::lemma_position(calls, delta.index);
    chat_completions::lemma_position(calls, index);
    if p < calls.len() {
        lemma_position_is_first(after, index, q);
    } else if delta.index == index {
        lemma_position_is_first(after, index, p);
    } else if q < calls.len() {
        lemma_position_is_first(after, index, q);
    } else {
        lemma_position_is_first(after, index, after.len() as int);
    }
}

/// An open call is the sum of its fragments: the last id, the last name, and
/// all arguments in the order in which they came in. Fragments of one index
/// leave the calls of the others alone.
pub proof fn law_calls_are_sums_of_fragments(
    calls: Seq<OpenCall>,
    deltas: Seq<CallDeltaView>,
    index: u32,
)
    ensures
        ({
            let before = open_or_fresh(calls, index);
            open_call(chat_completions::with_deltas(calls, deltas), index) == if mentioned(
                deltas,
                index,
            ) {
                Some(
                    OpenCall {
                        index: before.index,
                        id: last_id(deltas, index, before.id),
                        name: last_name(deltas, index, before.name),
                        arguments: before.arguments + all_arguments(deltas, index),
                    },
                )
            } else {
                open_call(calls, index)
            }
        }),
        !mentioned(deltas, index) ==> {
            &&& all_arguments(deltas, index) == Seq::<char>::empty()
            &&& last_id(deltas, index, open_or_fresh(calls, index).id) == open_or_fresh(
                calls,
                index,
            ).id
            &&& last_name(deltas, index, open_or_fresh(calls, index).name) == open_or_fresh(
                calls,
                index,
            ).name
        },
    decreases deltas.len(),
{
    let before = open_or_fresh(calls, index);
    if deltas.len() > 0 {
        let rest = deltas.drop_last();
        let last = deltas.last();
        law_calls_are_sums_of_fragments(calls, rest, index);
        lemma_delta_goes_to_its_call(chat_completions::with_deltas(calls, rest), last, index);
        if mentioned(rest, index) {
            let i = choose|i: int| 0 <= i < rest.len() && #[trigger] rest[i].index == index;
            assert(deltas[i].index == index);
        }
        if last.index == index {
            assert(deltas[deltas.len() - 1].index == index);
        }
        if mentioned(deltas, index) && last.index != index {
            let i = choose|i: int| 0 <= i < deltas.len() && #[trigger] deltas[i].index == index;
            assert(rest[i].index == index);
        }
        if last.index == index {
            assert(before.arguments + all_arguments(deltas, index) =~= (before.arguments
                + all_arguments(rest, index)) + chat_completions::delta_arguments(last));
            if !mentioned(rest, index) {
                assert(before.arguments + all_arguments(rest, index) =~= before.arguments);
            }
        }
    }
}

/// Fragments add up the same whether they come in together or apart.
pub proof fn law_fragments_may_come_apart(
    calls: Seq<OpenCall>,
    first: Seq<CallDeltaView>,
    second: Seq<CallDeltaView>,
)
    ensures
        chat_completions::with_deltas(calls, first + second) == chat_completions::with_deltas(
            chat_completions::with_deltas(calls, first),
            second,
        ),
    decreases second.len(),
{
    if second.len() == 0 {
        assert(first + second =~= first);
    } else {
        assert((first + second).drop_last() =~= first + second.drop_last());
        law_fragments_may_come_apart(calls, first, second.drop_last());
    }
}

/// Choices come to the same whether one chunk holds them or two with the same
/// token counts.
pub proof fn law_choices_may_come_apart(
    calls: Seq<OpenCall>,
    first: Seq<ChoiceView>,
    second: Seq<ChoiceView>,
    usage: Option<TokenUsage>,
)
    ensures
        chat_completions::calls_after_choices(calls, first + second)
            == chat_completions::calls_after_choices(
            chat_completions::calls_after_choices(calls, first),
            second,
        ),
        chat_completions::choices_events(calls, first + second, usage)
            == chat_completions::choices_events(calls, first, usage)
            + chat_completions::choices_events(
            chat_completions::calls_after_choices(calls, first),
            second,
            usage,
        ),
    decreases second.len(),
{
    if second.len() == 0 {
        assert(first + second =~= first);
        assert(chat_completions::choices_events(calls, first, usage)
            =~= chat_completions::choices_events(calls, first, usage) + Seq::empty());
    } else {
        assert((first + second).drop_last() =~= first + second.drop_last());
        law_choices_may_come_apart(calls, first, second.drop_last(), usage);
        assert(chat_completions::choices_events(calls, first + second, usage)
            =~= chat_completions::choices_events(calls, first, usage)
            + chat_completions::choices_events(
            chat_completions::calls_after_choices(calls, first),
            second,
            usage,
        ));
    }
}

/// The text that events speak.
pub open spec fn spoken(events: Seq<ResponseEventView>) -> Seq<char>
    decreases events.len(),
{
    if events.len() == 0 {
        Seq::empty()
    } else {
        spoken(events.drop_last()) + match events.last() {
            ResponseEventView::OutputTextDelta(text) => text,
            _ => Seq::empty(),
        }
    }
}

/// The text that choices add, one after the other.
pub open spec fn choices_text(choices: Seq<ChoiceView>) -> Seq<char>
    decreases choices.len(),
{
    if choices.len() == 0 {
        Seq::empty()
    } else {
        let last = choices.last();
        choices_text(choices.drop_last()) + if last.delta is Some && last.delta->0.content is Some {
            last.delta->0.content->0
        } else {
            Seq::empty()
        }
    }
}

proof fn lemma_spoken_adds(first: Seq<ResponseEventView>, second: Seq<ResponseEventView>)
    ensures
        spoken(first + second) == spoken(first) + spoken(second),
    decreases second.len(),
{
    if second.len() == 0 {
        assert(first + second =~= first);
        assert(spoken(first) + spoken(second) =~= spoken(first));
    } else {
        assert((first + second).drop_last() =~= first + second.drop_last());
        lemma_spoken_adds(first, second.drop_last());
        assert(spoken(first + second) =~= spoken(first) + spoken(second));
    }
}

proof fn lemma_calls_say_nothing(calls: Seq<OpenCall>)
    ensures
        spoken(chat_completions::calls_done(calls)) == Seq::<char>::empty(),
        completions(chat_completions::calls_done(calls)) == 0,
    decreases calls.len(),
{
    let events = chat_completions::calls_done(calls);
    if calls.len() > 0 {
        assert(events.drop_last() =~= chat_completions::calls_done(calls.drop_last()));
        lemma_calls_say_nothing(calls.drop_last());
        assert(spoken(events) =~= Seq::empty());
    }
}

proof fn lemma_choice_speaks(
    calls: Seq<OpenCall>,
    choice: ChoiceView,
    usage: Option<TokenUsage>,
)
    ensures
        spoken(chat_completions::choice_events(calls, choice, usage))
            == chat_completions::choice_text(choice),
        completions(chat_completions::choice_events(calls, choice, usage)) == if choice.finish_reason
            is Some {
            1
        } else {
            0nat
        },
{
    let text = chat_completions::choice_text(choice);
    let said = if text.len() > 0 {
        seq![ResponseEventView::OutputTextDelta(text)]
    } else {
        Seq::empty()
    };
    assert(spoken(said) =~= text) by {
        reveal_with_fuel(spoken, 2);
    }
    assert(completions(said) == 0) by {
        reveal_with_fuel(completions, 2);
    }
    if let Some(reason) = choice.finish_reason {
        let done = chat_completions::calls_done(
            chat_completions::with_deltas(calls, chat_completions::choice_deltas(choice)),
        );
        let end = seq![chat_completions::completed(usage, chat_completions::ends_turn(reason))];
        lemma_calls_say_nothing(
            chat_completions::with_deltas(calls, chat_completions::choice_deltas(choice)),
        );
        lemma_spoken_adds(said, done);
        lemma_spoken_adds(said + done, end);
        lemma_completions_add(said, done);
        lemma_completions_add(said + done, end);
        assert(spoken(end) =~= Seq::empty()) by {
            reveal_with_fuel(spoken, 2);
        }
        assert(completions(end) == 1) by {
            reveal_with_fuel(completions, 2);
        }
        assert(spoken(said + done + end) =~= text);
    }
}

/// The text deltas of a chunk, put together, are the text of its choices.
pub proof fn law_chunk_text_is_passed_on(
    calls: Seq<OpenCall>,
    choices: Seq<ChoiceView>,
    usage: Option<TokenUsage>,
)
    ensures
        spoken(chat_completions::choices_events(calls, choices, usage)) == choices_text(choices),
    decreases choices.len(),
{
    if choices.len() > 0 {
        let rest = choices.drop_last();
        law_chunk_text_is_passed_on(calls, rest, usage);
        lemma_choice_speaks(
            chat_completions::calls_after_choices(calls, rest),
            choices.last(),
            usage,
        );
        lemma_spoken_adds(
            chat_completions::choices_events(calls, rest, usage),
            chat_completions::choice_events(
                chat_completions::calls_after_choices(calls, rest),
                choices.last(),
                usage,
            ),
        );
    }
}

/// How many events end an answer.
pub open spec fn completions(events: Seq<ResponseEventView>) -> nat
    decreases events.len(),
{
    if events.len() == 0 {
        0
    } else {
        completions(events.drop_last()) + if events.last() is Completed {
            1
        } else {
            0nat
        }
    }
}

/// How many choices are finished.
pub open spec fn finished(choices: Seq<ChoiceView>) -> nat
    decreases choices.len(),
{
    if choices.len() == 0 {
        0
    } else {
        finished(choices.drop_last()) + if choices.last().finish_reason is Some {
            1
        } else {
            0nat
        }
    }
}

proof fn lemma_completions_add(first: Seq<ResponseEventView>, second: Seq<ResponseEventView>)
    ensures
        completions(first + second) == completions(first) + completions(second),
    decreases second.len(),
{
    if second.len() == 0 {
        assert(first + second =~= first);
    } else {
        assert((first + second).drop_last() =~= first + second.drop_last());
        lemma_completions_add(first, second.drop_last());
    }
}

/// A chunk ends an answer once for each finish reason in it.
pub proof fn law_each_finish_completes_once(
    calls: Seq<OpenCall>,
    choices: Seq<ChoiceView>,
    usage: Option<TokenUsage>,
)
    ensures
        completions(chat_completions::choices_events(calls, choices, usage)) == finished(choices),
    decreases choices.len(),
{
    if choices.len() > 0 {
        let rest = choices.drop_last();
        law_each_finish_completes_once(calls, rest, usage);
        lemma_choice_speaks(
            chat_completions::calls_after_choices(calls, rest),
            choices.last(),
            usage,
        );
        lemma_completions_add(
            chat_completions::choices_events(calls, rest, usage),
            chat_completions::choice_events(
                chat_completions::calls_after_choices(calls, rest),
                choices.last(),
                usage,
            ),
        );
    }
}

/// A finish reason hands over every open call, once and in the order in which
/// the calls were opened, right before the answer ends, and leaves none open.
pub proof fn law_finish_hands_over_every_call(
    calls: Seq<OpenCall>,
    choice: ChoiceView,
    usage: Option<TokenUsage>,
)
    requires
        choice.finish_reason is Some,
    ensures
        ({
            let events = chat_completions::choice_events(calls, choice, usage);
            let open = chat_completions::with_deltas(
                calls,
                chat_completions::choice_deltas(choice),
            );
            &&& chat_completions::calls_after_choice(calls, choice).len() == 0
            &&& events.len() > open.len()
            &&& events.last() == chat_completions::completed(
                usage,
                chat_completions::ends_turn(choice.finish_reason->0),
            )
            &&& events.subrange(events.len() - 1 - open.len(), events.len() - 1)
                == chat_completions::calls_done(open)
        }),
{
    let events = chat_completions::choice_events(calls, choice, usage);
    let open = chat_completions::with_deltas(calls, chat_completions::choice_deltas(choice));
    assert(events.subrange(events.len() - 1 - open.len(), events.len() - 1)
        =~= chat_completions::calls_done(open));
}

/// What a run of the stream sends: the steps one after the other, up to the
/// one after which the stream is over.
pub open spec fn run(calls: Seq<OpenCall>, inputs: Seq<ChatSseInputView>) -> ChatSseStepView
    decreases inputs.len(),
{
    if inputs.len() == 0 {
        ChatSseStepView { events: Seq::empty(), failure: None, over: false }
    } else {
        let step = chat_completions::step_of(calls, inputs.first());
        if step.over {
            step
        } else {
            let rest = run(
                chat_completions::calls_after(calls, inputs.first()),
                inputs.drop_first(),
            );
            ChatSseStepView {
                events: step.events + rest.events,
                failure: rest.failure,
                over: rest.over,
            }
        }
    }
}

/// The text of the chunks up to the input after which the stream is over.
pub open spec fn run_text(inputs: Seq<ChatSseInputView>) -> Seq<char>
    decreases inputs.len(),
{
    if inputs.len() == 0 {
        Seq::empty()
    } else {
        match inputs.first() {
            ChatSseInputView::Chunk(chunk) => choices_text(chat_completions::chunk_choices(chunk))
                + run_text(inputs.drop_first()),
            ChatSseInputView::Unreadable => run_text(inputs.drop_first()),
            _ => Seq::empty(),
        }
    }
}

/// The text deltas of a stream, put together, are the whole text of its
/// chunks.
pub proof fn law_stream_text_is_passed_on(calls: Seq<OpenCall>, inputs: Seq<ChatSseInputView>)
    ensures
        spoken(run(calls, inputs).events) == run_text(inputs),
    decreases inputs.len(),
{
    if inputs.len() > 0 {
        let step = chat_completions::step_of(calls, inputs.first());
        let rest = inputs.drop_first();
        let next = chat_completions::calls_after(calls, inputs.first());
        law_stream_text_is_passed_on(next, rest);
        match inputs.first() {
            ChatSseInputView::Chunk(chunk) => {
                law_chunk_text_is_passed_on(
                    calls,
                    chat_completions::chunk_choices(chunk),
                    chat_completions::token_usage(chunk.usage),
                );
                lemma_spoken_adds(step.events, run(next, rest).events);
            },
            ChatSseInputView::Unreadable => {
                lemma_spoken_adds(step.events, run(next, rest).events);
                assert(spoken(step.events) + run_text(rest) =~= run_text(rest));
            },
            ChatSseInputView::Ended => {
                lemma_calls_say_nothing(calls);
                let done = chat_completions::calls_done(calls);
                assert(step.events.drop_last() =~= done);
                assert(spoken(step.events) =~= Seq::empty());
            },
            _ => {},
        }
    }
}

/// The open calls after a run of the stream that is not over yet.
pub open spec fn calls_after_run(
    calls: Seq<OpenCall>,
    inputs: Seq<ChatSseInputView>,
) -> Seq<OpenCall>
    decreases inputs.len(),
{
    if inputs.len() == 0 {
        calls
    } else {
        calls_after_run(
            chat_completions::calls_after(calls, inputs.first()),
            inputs.drop_first(),
        )
    }
}

/// A run that is not over yet is continued from the calls that it left open.
pub proof fn law_runs_compose(
    calls: Seq<OpenCall>,
    first: Seq<ChatSseInputView>,
    second: Seq<ChatSseInputView>,
)
    requires
        !run(calls, first).over,
    ensures
        ({
            let rest = run(calls_after_run(calls, first), second);
            run(calls, first + second) == (ChatSseStepView {
                events: run(calls, first).events + rest.events,
                failure: rest.failure,
                over: rest.over,
            })
        }),
    decreases first.len(),
{
    let rest = run(calls_after_run(calls, first), second);
    if first.len() == 0 {
        assert(first + second =~= second);
        assert(run(calls, first).events + rest.events =~= rest.events);
    } else {
        let step = chat_completions::step_of(calls, first.first());
        let next = chat_completions::calls_after(calls, first.first());
        assert((first + second).first() == first.first());
        assert((first + second).drop_first() =~= first.drop_first() + second);
        law_runs_compose(next, first.drop_first(), second);
        assert(step.events + (run(next, first.drop_first()).events + rest.events) =~= (step.events
            + run(next, first.drop_first()).events) + rest.events);
    }
}

/// A stream that ends without its closing marker hands over every call that is
/// still open, and then ends the answer and the turn.
pub proof fn law_ended_stream_hands_over_every_call(
    calls: Seq<OpenCall>,
    inputs: Seq<ChatSseInputView>,
)
    requires
        !run(calls, inputs).over,
    ensures
        run(calls, inputs.push(ChatSseInputView::Ended)) == (ChatSseStepView {
            events: run(calls, inputs).events + chat_completions::calls_done(
                calls_after_run(calls, inputs),
            ).push(chat_completions::completed(None, true)),
            failure: None,
            over: true,
        }),
{
    let end = seq![ChatSseInputView::Ended];
    assert(inputs.push(ChatSseInputView::Ended) =~= inputs + end);
    law_runs_compose(calls, inputs, end);
}

/// The closing marker ends the stream and sends nothing.
pub proof fn law_closing_marker_sends_nothing(
    calls: Seq<OpenCall>,
    inputs: Seq<ChatSseInputView>,
)
    requires
        !run(calls, inputs).over,
    ensures
        run(calls, inputs.push(ChatSseInputView::Done)) == (ChatSseStepView {
            events: run(calls, inputs).events,
            failure: None,
            over: true,
        }),
{
    let end = seq![ChatSseInputView::Done];
    assert(inputs.push(ChatSseInputView::Done) =~= inputs + end);
    law_runs_compose(calls, inputs, end);
    assert(run(calls, inputs).events + Seq::<ResponseEventView>::empty() =~= run(
        calls,
        inputs,
    ).events);
}

/// Nothing is sent once the stream is over, whatever comes in.
pub proof fn law_nothing_after_the_end(
    calls: Seq<OpenCall>,
    inputs: Seq<ChatSseInputView>,
    later: Seq<ChatSseInputView>,
)
    requires
        run(calls, inputs).over,
    ensures
        run(calls, inputs + later) == run(calls, inputs),
    decreases inputs.len(),
{
    if inputs.len() > 0 {
        assert((inputs + later).first() == inputs.first());
        assert((inputs + later).drop_first() =~= inputs.drop_first() + later);
        if !chat_completions::step_of(calls, inputs.first()).over {
            law_nothing_after_the_end(
                chat_completions::calls_after(calls, inputs.first()),
                inputs.drop_first(),
                later,
            );
        }
    }
}

/// A stream fails only as its last act: what failed is over.
pub proof fn law_failure_is_final(calls: Seq<OpenCall>, inputs: Seq<ChatSseInputView>)
    ensures
        run(calls, inputs).failure is Some ==> run(calls, inputs).over,
    decreases inputs.len(),
{
    if inputs.len() > 0 && !chat_completions::step_of(calls, inputs.first()).over {
        law_failure_is_final(
            chat_completions::calls_after(calls, inputs.first()),
            inputs.drop_first(),
        );
    }
}

/// Data that is no chunk is passed over: the stream goes on as if it had not
/// come in.
pub proof fn law_unreadable_data_is_passed_over(
    calls: Seq<OpenCall>,
    before: Seq<ChatSseInputView>,
    after: Seq<ChatSseInputView>,
)
    ensures
        run(calls, before.push(ChatSseInputView::Unreadable) + after) == run(calls, before + after),
    decreases before.len(),
{
    let with = before.push(ChatSseInputView::Unreadable) + after;
    let without = before + after;
    if before.len() == 0 {
        assert(with.drop_first() =~= after);
        assert(without =~= after);
        assert(Seq::<ResponseEventView>::empty() + run(calls, after).events =~= run(
            calls,
            after,
        ).events);
    } else {
        assert(with.first() == before.first() && without.first() == before.first());
        assert(with.drop_first() =~= before.drop_first().push(ChatSseInputView::Unreadable)
            + after);
        assert(without.drop_first() =~= before.drop_first() + after);
        law_unreadable_data_is_passed_over(
            chat_completions::calls_after(calls, before.first()),
            before.drop_first(),
            after,
        );
    }
}

proof fn lemma_trim_start_passes_white_space(space: Seq<char>, data: Seq<char>)
    requires
        forall|i: int| 0 <= i < space.len() ==> text::white_space(#[trigger] space[i]),
    ensures
        text::trimmed_start(space + data) == text::trimmed_start(data),
    decreases space.len(),
{
    if space.len() == 0 {
        assert(space + data =~= data);
    } else {
        assert((space + data).drop_first() =~= space.drop_first() + data);
        assert(text::white_space((space + data).first()));
        lemma_trim_start_passes_white_space(space.drop_first(), data);
    }
}

proof fn lemma_trim_end_passes_white_space(data: Seq<char>, space: Seq<char>)
    requires
        forall|i: int| 0 <= i < space.len() ==> text::white_space(#[trigger] space[i]),
    ensures
        text::trimmed_end(data + space) == text::trimmed_end(data),
    decreases space.len(),
{
    if space.len() == 0 {
        assert(data + space =~= data);
    } else {
        assert((data + space).drop_last() =~= data + space.drop_last());
        assert(text::white_space((data + space).last()));
        lemma_trim_end_passes_white_space(data, space.drop_last());
    }
}

proof fn lemma_trim_start_of_sum(data: Seq<char>, space: Seq<char>)
    requires
        forall|i: int| 0 <= i < space.len() ==> text::white_space(#[trigger] space[i]),
    ensures
        text::trimmed_end(text::trimmed_start(data + space)) == text::trimmed_end(
            text::trimmed_start(data),
        ),
    decreases data.len(),
{
    if data.len() == 0 {
        assert(data + space =~= space);
        assert(space + data =~= space);
        lemma_trim_start_passes_white_space(space, data);
    } else if text::white_space(data.first()) {
        assert((data + space).drop_first() =~= data.drop_first() + space);
        lemma_trim_start_of_sum(data.drop_first(), space);
    } else {
        assert((data + space).first() == data.first());
        lemma_trim_end_passes_white_space(data, space);
    }
}

/// White space around the data of an event has no meaning.
pub proof fn law_white_space_around_data_is_ignored(
    before: Seq<char>,
    data: Seq<char>,
    after: Seq<char>,
)
    requires
        forall|i: int| 0 <= i < before.len() ==> text::white_space(#[trigger] before[i]),
        forall|i: int| 0 <= i < after.len() ==> text::white_space(#[trigger] after[i]),
    ensures
        text::trimmed(before + data + after) == text::trimmed(data),
{
    assert(before + data + after =~= before + (data + after));
    lemma_trim_start_passes_white_space(before, data + after);
    lemma_trim_start_of_sum(data, after);
}

} // verus!
