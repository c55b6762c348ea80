//! What holds of every converted conversation.
use vstd::prelude::*;

use crate::common::{ChatMessageView, ChatToolCallView};
use crate::convert::chat_messages;
use crate::models::ResponseItemView;
use crate::text;

verus! {

/// The roles that the conversion itself writes differ from each other.
pub(crate) proof fn lemma_roles_differ()
    ensures
        "system"@ != "assistant"@,
        "system"@ != "tool"@,
        "system"@ != "developer"@,
        "assistant"@ != "developer"@,
        "assistant"@ != "tool"@,
        "tool"@ != "developer"@,
{
    reveal_strlit("system");
    reveal_strlit("assistant");
    reveal_strlit("tool");
    reveal_strlit("developer");
    assert("system"@[0] == 's');
    assert("assistant"@[0] == 'a');
    assert("tool"@[0] == 't');
    assert("developer"@[0] == 'd');
}

/// Whether a message has the shape that the conversion gives: only an
/// assistant message has tool calls, and at least one where it has a list of
/// them; only a "tool" message answers a call, and it has a text; a message
/// has a text or calls; no message has a name or the role "developer".
pub open spec fn well_shaped(message: ChatMessageView) -> bool {
    &&& message.role != "developer"@
    &&& message.name is None
    &&& message.tool_calls is Some ==> message.role == "assistant"@ && message.tool_calls->0.len()
        > 0
    &&& message.tool_call_id is Some ==> message.role == "tool"@ && message.content is Some
    &&& message.content is None ==> message.tool_calls is Some
}

/// Every message of a converted conversation is well shaped.
pub proof fn law_messages_are_well_shaped(items: Seq<ResponseItemView>)
    ensures
        forall|i: int|
            0 <= i < chat_messages::chat_messages(items).len() ==> well_shaped(
                #[trigger] chat_messages::chat_messages(items)[i],
            ),
    decreases items.len(),
{
    if items.len() > 0 {
        let before = chat_messages::chat_messages(items.drop_last());
        law_messages_are_well_shaped(items.drop_last());
        lemma_roles_differ();
        if before.len() > 0 {
            assert(well_shaped(before[before.len() - 1]));
        }
    }
}

/// A converted conversation never has two system messages in a row.
pub proof fn law_no_adjacent_system_messages(items: Seq<ResponseItemView>)
    ensures
        forall|i: int|
            0 <= i < chat_messages::chat_messages(items).len() - 1 ==> !(
            #[trigger] chat_messages::chat_messages(items)[i].role == "system"@
                && chat_messages::chat_messages(items)[i + 1].role == "system"@),
    decreases items.len(),
{
    if items.len() > 0 {
        let before = chat_messages::chat_messages(items.drop_last());
        let after = chat_messages::chat_messages(items);
        law_no_adjacent_system_messages(items.drop_last());
        lemma_roles_differ();
        assert forall|i: int| 0 <= i < after.len() - 1 implies !(#[trigger] after[i].role
            == "system"@ && after[i + 1].role == "system"@) by {
            if i + 1 < before.len() {
                assert(!(before[i].role == "system"@ && before[i + 1].role == "system"@));
            }
        }
    }
}

/// `messages` followed by what a list of items adds.
pub open spec fn with_items(
    messages: Seq<ChatMessageView>,
    items: Seq<ResponseItemView>,
) -> Seq<ChatMessageView>
    decreases items.len(),
{
    if items.len() == 0 {
        messages
    } else {
        chat_messages::with_item(with_items(messages, items.drop_last()), items.last())
    }
}

/// A conversation can be converted in two parts: the second part depends on
/// the first only through the messages that it left.
pub proof fn law_conversion_composes(first: Seq<ResponseItemView>, second: Seq<ResponseItemView>)
    ensures
        chat_messages::chat_messages(first + second) == with_items(
            chat_messages::chat_messages(first),
            second,
        ),
    decreases second.len(),
{
    if second.len() == 0 {
        assert(first + second =~= first);
    } else {
        assert((first + second).drop_last() =~= first + second.drop_last());
        law_conversion_composes(first, second.drop_last());
    }
}

/// Whether an item has no place in a chat.
pub open spec fn is_skipped(item: ResponseItemView) -> bool {
    &&& !(item is Message)
    &&& !(item is FunctionCall)
    &&& !(item is CustomToolCall)
    &&& !(item is LocalShellCall)
    &&& !(item is FunctionCallOutput)
    &&& !(item is CustomToolCallOutput)
}

/// Items that have no place in a chat leave no trace: the conversation converts
/// as if they were not there.
pub proof fn law_skipped_items_leave_no_trace(
    before: Seq<ResponseItemView>,
    item: ResponseItemView,
    after: Seq<ResponseItemView>,
)
    requires
        is_skipped(item),
    ensures
        chat_messages::chat_messages(before.push(item) + after) == chat_messages::chat_messages(
            before + after,
        ),
{
    law_conversion_composes(before.push(item), after);
    law_conversion_composes(before, after);
    assert(before.push(item).drop_last() =~= before);
}

/// Converting more items changes no message but the last one, and not its
/// role; and no item makes more than one message.
pub proof fn law_messages_are_appended(
    first: Seq<ResponseItemView>,
    second: Seq<ResponseItemView>,
)
    ensures
        ({
            let before = chat_messages::chat_messages(first);
            let after = chat_messages::chat_messages(first + second);
            &&& before.len() <= after.len() <= before.len() + second.len()
            &&& forall|i: int| 0 <= i < before.len() - 1 ==> #[trigger] after[i] == before[i]
            &&& before.len() > 0 ==> after[before.len() - 1].role == before.last().role
        }),
    decreases second.len(),
{
    if second.len() == 0 {
        assert(first + second =~= first);
    } else {
        assert((first + second).drop_last() =~= first + second.drop_last());
        law_messages_are_appended(first, second.drop_last());
        let before = chat_messages::chat_messages(first);
        let middle = chat_messages::chat_messages(first + second.drop_last());
        let after = chat_messages::chat_messages(first + second);
        assert(after == chat_messages::with_item(middle, second.last()));
        assert forall|i: int| 0 <= i < before.len() - 1 implies #[trigger] after[i]
            == before[i] by {
            assert(middle[i] == before[i]);
        }
    }
}

/// The tool calls of a chat, in order.
pub open spec fn all_calls(messages: Seq<ChatMessageView>) -> Seq<ChatToolCallView>
    decreases messages.len(),
{
    if messages.len() == 0 {
        Seq::empty()
    } else {
        all_calls(messages.drop_last()) + if messages.last().tool_calls is Some {
            messages.last().tool_calls->0
        } else {
            Seq::empty()
        }
    }
}

/// The tool calls that a conversation holds, in order. A local shell call
/// without an id takes one from the number of messages before it.
pub open spec fn called(items: Seq<ResponseItemView>) -> Seq<ChatToolCallView>
    decreases items.len(),
{
    if items.len() == 0 {
        Seq::empty()
    } else {
        let rest = items.drop_last();
        match items.last() {
            ResponseItemView::FunctionCall { name, arguments, call_id, .. } => called(rest).push(
                ChatToolCallView { id: call_id, call_type: "function"@, name, arguments },
            ),
            ResponseItemView::CustomToolCall { name, input, call_id } => called(rest).push(
                ChatToolCallView {
                    id: call_id,
                    call_type: "function"@,
                    name,
                    arguments: input,
                },
            ),
            ResponseItemView::LocalShellCall { call_id, action } => called(rest).push(
                ChatToolCallView {
                    id: if call_id is Some {
                        call_id->0
                    } else {
                        "local_shell_"@ + text::decimal(chat_messages::chat_messages(rest).len())
                    },
                    call_type: "function"@,
                    name: "shell"@,
                    arguments: if action is Some {
                        action->0
                    } else {
                        Seq::empty()
                    },
                },
            ),
            _ => called(rest),
        }
    }
}

proof fn lemma_calls_of_pushed(messages: Seq<ChatMessageView>, message: ChatMessageView)
    ensures
        all_calls(messages.push(message)) == all_calls(messages) + chat_messages::calls_of(message),
{
    assert(messages.push(message).drop_last() =~= messages);
}

/// Every tool call of a conversation is in the chat once, and in its order.
pub proof fn law_tool_calls_are_kept(items: Seq<ResponseItemView>)
    ensures
        all_calls(chat_messages::chat_messages(items)) == called(items),
    decreases items.len(),
{
    if items.len() > 0 {
        let rest = items.drop_last();
        let before = chat_messages::chat_messages(rest);
        let after = chat_messages::chat_messages(items);
        law_tool_calls_are_kept(rest);
        lemma_roles_differ();
        let kept = if after.len() == before.len() + 1 {
            before
        } else {
            before.drop_last()
        };
        if after != before {
            assert(after =~= kept.push(after.last()));
            lemma_calls_of_pushed(kept, after.last());
        }
        if before.len() > 0 {
            assert(before =~= before.drop_last().push(before.last()));
            lemma_calls_of_pushed(before.drop_last(), before.last());
        }
        assert(all_calls(after) =~= called(items));
    }
}

/// Whether a message answers a tool call.
pub open spec fn is_answer(message: ChatMessageView) -> bool {
    message.tool_call_id is Some
}

/// The "tool" message for the answer of a tool call.
pub open spec fn answer_message(item: ResponseItemView) -> Option<ChatMessageView> {
    match item {
        ResponseItemView::FunctionCallOutput { call_id, output }
        | ResponseItemView::CustomToolCallOutput { call_id, output } => Some(
            ChatMessageView {
                role: "tool"@,
                content: if output is Some {
                    output
                } else {
                    Some(Seq::empty())
                },
                tool_calls: None,
                tool_call_id: Some(call_id),
                name: None,
            },
        ),
        _ => None,
    }
}

/// Every answer of a tool call is in the chat once, and in its order.
pub proof fn law_tool_answers_are_kept(items: Seq<ResponseItemView>)
    ensures
        chat_messages::chat_messages(items).filter(|message: ChatMessageView| is_answer(message))
            == items.filter_map(|item: ResponseItemView| answer_message(item)),
    decreases items.len(),
{
    let answers = |message: ChatMessageView| is_answer(message);
    reveal(Seq::filter);
    if items.len() > 0 {
        let rest = items.drop_last();
        let before = chat_messages::chat_messages(rest);
        let after = chat_messages::chat_messages(items);
        law_tool_answers_are_kept(rest);
        law_messages_are_well_shaped(rest);
        lemma_roles_differ();
        let kept = if after.len() == before.len() + 1 {
            before
        } else {
            before.drop_last()
        };
        if before.len() > 0 {
            assert(well_shaped(before[before.len() - 1]));
        }
        if after != before {
            assert(after.drop_last() =~= kept);
        }
        assert(after.filter(answers) =~= items.filter_map(
            |item: ResponseItemView| answer_message(item),
        ));
    }
}

/// The role and the text of a message that is neither the system's nor the
/// answer of a tool call.
pub open spec fn spoken(message: ChatMessageView) -> Option<(Seq<char>, Seq<char>)> {
    if message.role != "system"@ && message.tool_call_id is None && message.content is Some {
        Some((message.role, message.content->0))
    } else {
        None
    }
}

/// The role and the text of a message item that is not the system's.
pub open spec fn item_spoken(item: ResponseItemView) -> Option<(Seq<char>, Seq<char>)> {
    match item {
        ResponseItemView::Message { role, content, .. } => {
            if role != "system"@ && role != "developer"@ {
                Some((role, chat_messages::content_text(content)))
            } else {
                None
            }
        },
        _ => None,
    }
}

/// Every text that is not the system's is in the chat once, with its role and
/// in its order.
pub proof fn law_spoken_texts_are_kept(items: Seq<ResponseItemView>)
    ensures
        chat_messages::chat_messages(items).filter_map(
            |message: ChatMessageView| spoken(message),
        ) == items.filter_map(|item: ResponseItemView| item_spoken(item)),
    decreases items.len(),
{
    let from_message = |message: ChatMessageView| spoken(message);
    let from_item = |item: ResponseItemView| item_spoken(item);
    if items.len() > 0 {
        let rest = items.drop_last();
        let before = chat_messages::chat_messages(rest);
        let after = chat_messages::chat_messages(items);
        law_spoken_texts_are_kept(rest);
        lemma_roles_differ();
        let kept = if after.len() == before.len() + 1 {
            before
        } else {
            before.drop_last()
        };
        if after != before {
            assert(after.drop_last() =~= kept);
        }
        assert(after.filter_map(from_message) =~= items.filter_map(from_item));
    }
}

/// Passages with a blank line between each and the next.
pub open spec fn joined(passages: Seq<Seq<char>>) -> Seq<char>
    decreases passages.len(),
{
    if passages.len() == 0 {
        Seq::empty()
    } else if passages.len() == 1 {
        passages[0]
    } else {
        joined(passages.drop_last()) + "\n\n"@ + passages.last()
    }
}

/// The text of a system message.
pub open spec fn system_text(message: ChatMessageView) -> Option<Seq<char>> {
    if message.role == "system"@ {
        Some(
            if message.content is Some {
                message.content->0
            } else {
                Seq::empty()
            },
        )
    } else {
        None
    }
}

/// The text of a system message item.
pub open spec fn item_system_text(item: ResponseItemView) -> Option<Seq<char>> {
    match item {
        ResponseItemView::Message { role, content, .. } => {
            if role == "system"@ || role == "developer"@ {
                Some(chat_messages::content_text(content))
            } else {
                None
            }
        },
        _ => None,
    }
}

proof fn lemma_join_last(passages: Seq<Seq<char>>, passage: Seq<char>)
    requires
        passages.len() > 0,
    ensures
        joined(passages.drop_last().push(text::paragraphs(passages.last(), passage))) == joined(
            passages.push(passage),
        ),
{
    let merged = passages.drop_last().push(text::paragraphs(passages.last(), passage));
    assert(merged.drop_last() =~= passages.drop_last());
    assert(passages.push(passage).drop_last() =~= passages);
    let last = passages.last();
    if passages.len() == 1 {
        assert(joined(passages) == last);
    } else {
        let front = joined(passages.drop_last());
        assert(joined(passages) == text::paragraphs(front, last));
        assert(text::paragraphs(front, text::paragraphs(last, passage)) =~= text::paragraphs(
            text::paragraphs(front, last),
            passage,
        ));
    }
}

proof fn lemma_join_push(a: Seq<Seq<char>>, b: Seq<Seq<char>>, passage: Seq<char>)
    requires
        joined(a) == joined(b),
        a.len() == 0 <==> b.len() == 0,
    ensures
        joined(a.push(passage)) == joined(b.push(passage)),
{
    assert(a.push(passage).drop_last() =~= a);
    assert(b.push(passage).drop_last() =~= b);
}

/// The system texts of a chat, joined, are the system texts of the
/// conversation, joined in order.
pub proof fn law_system_texts_are_kept(items: Seq<ResponseItemView>)
    ensures
        joined(
            chat_messages::chat_messages(items).filter_map(
                |message: ChatMessageView| system_text(message),
            ),
        ) == joined(items.filter_map(|item: ResponseItemView| item_system_text(item))),
        chat_messages::chat_messages(items).filter_map(
            |message: ChatMessageView| system_text(message),
        ).len() == 0 <==> items.filter_map(
            |item: ResponseItemView| item_system_text(item),
        ).len() == 0,
    decreases items.len(),
{
    let from_message = |message: ChatMessageView| system_text(message);
    let from_item = |item: ResponseItemView| item_system_text(item);
    if items.len() > 0 {
        let rest = items.drop_last();
        let before = chat_messages::chat_messages(rest);
        let after = chat_messages::chat_messages(items);
        law_system_texts_are_kept(rest);
        lemma_roles_differ();
        let kept = if after.len() == before.len() + 1 {
            before
        } else {
            before.drop_last()
        };
        if after != before {
            assert(after.drop_last() =~= kept);
        }
        let old_texts = before.filter_map(from_message);
        let new_texts = after.filter_map(from_message);
        if let Some(passage) = item_system_text(items.last()) {
            assert(items.filter_map(from_item) =~= rest.filter_map(from_item).push(passage));
            lemma_join_push(old_texts, rest.filter_map(from_item), passage);
            if after.len() == before.len() + 1 {
                assert(new_texts =~= old_texts.push(passage));
            } else {
                let last = text::text_or_empty(before.last().content);
                assert(old_texts =~= kept.filter_map(from_message).push(last));
                assert(old_texts.drop_last() =~= kept.filter_map(from_message));
                assert(new_texts =~= old_texts.drop_last().push(text::paragraphs(last, passage)));
                lemma_join_last(old_texts, passage);
            }
        } else {
            assert(items.filter_map(from_item) =~= rest.filter_map(from_item));
            assert(new_texts =~= old_texts);
        }
    }
}

} // verus!
