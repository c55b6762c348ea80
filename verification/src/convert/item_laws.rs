//! What each item adds to a chat.
use vstd::prelude::*;

use crate::common::{ChatMessageView, ChatToolCallView};
use crate::convert::chat_messages;
use crate::convert::message_laws;
use crate::models::{ContentItemView, ResponseItemView};
use crate::text;

verus! {

/// A conversation without items is a chat without messages.
pub proof fn law_no_items_no_messages(items: Seq<ResponseItemView>)
    requires
        items.len() == 0,
    ensures
        chat_messages::chat_messages(items).len() == 0,
{
}

/// Each piece adds its own text to a message, whole and at the end; an image
/// adds a stand-in. Without pieces there is no text.
pub proof fn law_pieces_add_their_texts(content: Seq<ContentItemView>, piece: ContentItemView)
    ensures
        chat_messages::content_text(Seq::empty()).len() == 0,
        piece matches ContentItemView::InputText { text } ==> chat_messages::content_text(
            content.push(piece),
        ) == chat_messages::content_text(content) + text,
        piece matches ContentItemView::OutputText { text } ==> chat_messages::content_text(
            content.push(piece),
        ) == chat_messages::content_text(content) + text,
        piece is InputImage ==> chat_messages::content_text(content.push(piece))
            == chat_messages::content_text(content) + "[image]"@,
{
    assert(content.push(piece).drop_last() =~= content);
}

/// The text of two lists of pieces is the text of the one and then that of the
/// other.
pub proof fn law_content_text_adds(first: Seq<ContentItemView>, second: Seq<ContentItemView>)
    ensures
        chat_messages::content_text(first + second) == chat_messages::content_text(first)
            + chat_messages::content_text(second),
    decreases second.len(),
{
    if second.len() == 0 {
        assert(first + second =~= first);
        assert(chat_messages::content_text(first) + chat_messages::content_text(second)
            =~= chat_messages::content_text(first));
    } else {
        assert((first + second).drop_last() =~= first + second.drop_last());
        law_content_text_adds(first, second.drop_last());
        assert(chat_messages::content_text(first + second) =~= chat_messages::content_text(first)
            + chat_messages::content_text(second));
    }
}

/// The role that a chat gives to a role of the conversation: "system" for
/// "developer", and the same for any other.
pub open spec fn is_chat_role(chat_role: Seq<char>, role: Seq<char>) -> bool {
    &&& role == "developer"@ ==> chat_role == "system"@
    &&& role != "developer"@ ==> chat_role == role
}

/// A message makes a message of its own with its role and its text and nothing
/// else, unless it is the system's and follows the system's. What was there
/// stays.
pub proof fn law_message_makes_a_message(
    items: Seq<ResponseItemView>,
    item: ResponseItemView,
    chat_role: Seq<char>,
)
    requires
        item is Message,
        is_chat_role(chat_role, item->Message_role),
        chat_role != "system"@ || chat_messages::chat_messages(items).len() == 0
            || chat_messages::chat_messages(items).last().role != "system"@,
    ensures
        ({
            let before = chat_messages::chat_messages(items);
            let after = chat_messages::chat_messages(items.push(item));
            &&& after.len() == before.len() + 1
            &&& after.drop_last() == before
            &&& after.last().role == chat_role
            &&& after.last().content == Some(chat_messages::content_text(item->Message_content))
            &&& after.last().tool_calls is None
            &&& after.last().tool_call_id is None
            &&& after.last().name is None
        }),
{
    let before = chat_messages::chat_messages(items);
    let after = chat_messages::chat_messages(items.push(item));
    assert(items.push(item).drop_last() =~= items);
    assert(after.drop_last() =~= before);
}

/// A system text that follows a system message is added to it, after a blank
/// line; the text that was there stays in front. Nothing else changes.
pub proof fn law_system_text_joins_the_last(
    items: Seq<ResponseItemView>,
    item: ResponseItemView,
)
    requires
        item is Message,
        item->Message_role == "system"@ || item->Message_role == "developer"@,
        chat_messages::chat_messages(items).len() > 0,
        chat_messages::chat_messages(items).last().role == "system"@,
    ensures
        ({
            let before = chat_messages::chat_messages(items);
            let after = chat_messages::chat_messages(items.push(item));
            &&& after.len() == before.len()
            &&& after.drop_last() == before.drop_last()
            &&& after.last().role == "system"@
            &&& before.last().content is Some
            &&& after.last().content == Some(
                before.last().content->0 + "\n\n"@ + chat_messages::content_text(
                    item->Message_content,
                ),
            )
            &&& after.last().tool_calls is None
            &&& after.last().tool_call_id is None
            &&& after.last().name is None
        }),
{
    let before = chat_messages::chat_messages(items);
    let after = chat_messages::chat_messages(items.push(item));
    assert(items.push(item).drop_last() =~= items);
    assert(after.drop_last() =~= before.drop_last());
    message_laws::law_messages_are_well_shaped(items);
    message_laws::lemma_roles_differ();
    assert(message_laws::well_shaped(before[before.len() - 1]));
}

/// Whether `after` is `before` with one more tool call: at the end of the last
/// message where that is the assistant's, whose text stays, and else alone in
/// a new assistant message without text.
pub open spec fn took_call(
    before: Seq<ChatMessageView>,
    after: Seq<ChatMessageView>,
    call: ChatToolCallView,
) -> bool {
    let last = after.last();
    &&& after.len() > 0
    &&& last.role == "assistant"@
    &&& last.tool_calls is Some
    &&& last.tool_calls->0.len() > 0
    &&& last.tool_calls->0.last() == call
    &&& last.tool_call_id is None
    &&& last.name is None
    &&& if before.len() > 0 && before.last().role == "assistant"@ {
        &&& after.len() == before.len()
        &&& after.drop_last() == before.drop_last()
        &&& last.content == before.last().content
        &&& before.last().tool_calls is Some ==> last.tool_calls->0.drop_last()
            == before.last().tool_calls->0
        &&& before.last().tool_calls is None ==> last.tool_calls->0.len() == 1
    } else {
        &&& after.len() == before.len() + 1
        &&& after.drop_last() == before
        &&& last.content is None
        &&& last.tool_calls->0.len() == 1
    }
}

proof fn lemma_took_call(
    items: Seq<ResponseItemView>,
    item: ResponseItemView,
    call: ChatToolCallView,
)
    requires
        !(item is Message),
        chat_messages::item_call(item, chat_messages::chat_messages(items).len()) == Some(call),
    ensures
        took_call(
            chat_messages::chat_messages(items),
            chat_messages::chat_messages(items.push(item)),
            call,
        ),
{
    let before = chat_messages::chat_messages(items);
    let after = chat_messages::chat_messages(items.push(item));
    assert(items.push(item).drop_last() =~= items);
    message_laws::law_messages_are_well_shaped(items);
    message_laws::lemma_roles_differ();
    if before.len() > 0 && before.last().role == "assistant"@ {
        assert(message_laws::well_shaped(before[before.len() - 1]));
        assert(after.drop_last() =~= before.drop_last());
        assert(after.last().tool_calls->0.drop_last() =~= chat_messages::calls_of(before.last()));
    } else {
        assert(after.drop_last() =~= before);
    }
}

/// A function call becomes a tool call with its own call id, name and
/// arguments.
pub proof fn law_function_call_becomes_a_tool_call(
    items: Seq<ResponseItemView>,
    item: ResponseItemView,
)
    requires
        item is FunctionCall,
    ensures
        took_call(
            chat_messages::chat_messages(items),
            chat_messages::chat_messages(items.push(item)),
            ChatToolCallView {
                id: item->FunctionCall_call_id,
                call_type: "function"@,
                name: item->FunctionCall_name,
                arguments: item->FunctionCall_arguments,
            },
        ),
{
    lemma_took_call(
        items,
        item,
        ChatToolCallView {
            id: item->FunctionCall_call_id,
            call_type: "function"@,
            name: item->FunctionCall_name,
            arguments: item->FunctionCall_arguments,
        },
    );
}

/// A custom tool call becomes a tool call with its own call id and name, whose
/// arguments are its input.
pub proof fn law_custom_tool_call_becomes_a_tool_call(
    items: Seq<ResponseItemView>,
    item: ResponseItemView,
)
    requires
        item is CustomToolCall,
    ensures
        took_call(
            chat_messages::chat_messages(items),
            chat_messages::chat_messages(items.push(item)),
            ChatToolCallView {
                id: item->CustomToolCall_call_id,
                call_type: "function"@,
                name: item->CustomToolCall_name,
                arguments: item->CustomToolCall_input,
            },
        ),
{
    lemma_took_call(
        items,
        item,
        ChatToolCallView {
            id: item->CustomToolCall_call_id,
            call_type: "function"@,
            name: item->CustomToolCall_name,
            arguments: item->CustomToolCall_input,
        },
    );
}

/// A local shell call becomes a call of "shell". Its id is its own, or else
/// holds the number of messages so far; its arguments are the action, or else
/// empty.
pub proof fn law_local_shell_call_becomes_a_tool_call(
    items: Seq<ResponseItemView>,
    item: ResponseItemView,
    call: ChatToolCallView,
)
    requires
        item is LocalShellCall,
        call.call_type == "function"@,
        call.name == "shell"@,
        item->LocalShellCall_call_id is Some ==> call.id == item->LocalShellCall_call_id->0,
        item->LocalShellCall_call_id is None ==> call.id == "local_shell_"@ + text::decimal(
            chat_messages::chat_messages(items).len(),
        ),
        item->LocalShellCall_action is Some ==> call.arguments == item->LocalShellCall_action->0,
        item->LocalShellCall_action is None ==> call.arguments.len() == 0,
    ensures
        took_call(
            chat_messages::chat_messages(items),
            chat_messages::chat_messages(items.push(item)),
            call,
        ),
{
    if item->LocalShellCall_action is None {
        assert(call.arguments =~= Seq::empty());
    }
    lemma_took_call(items, item, call);
}

/// The answer of a tool call makes a "tool" message that names the call and
/// holds the answer's text, or the empty one where it has none. What was there
/// stays.
pub proof fn law_answer_makes_a_tool_message(
    items: Seq<ResponseItemView>,
    item: ResponseItemView,
    call_id: Seq<char>,
    output: Option<Seq<char>>,
)
    requires
        item == (ResponseItemView::FunctionCallOutput { call_id, output }) || item == (
        ResponseItemView::CustomToolCallOutput { call_id, output }),
    ensures
        ({
            let before = chat_messages::chat_messages(items);
            let after = chat_messages::chat_messages(items.push(item));
            &&& after.len() == before.len() + 1
            &&& after.drop_last() == before
            &&& after.last().role == "tool"@
            &&& after.last().tool_call_id == Some(call_id)
            &&& after.last().content is Some
            &&& output is Some ==> after.last().content == output
            &&& output is None ==> after.last().content->0.len() == 0
            &&& after.last().tool_calls is None
            &&& after.last().name is None
        }),
{
    let before = chat_messages::chat_messages(items);
    let after = chat_messages::chat_messages(items.push(item));
    assert(items.push(item).drop_last() =~= items);
    assert(after.drop_last() =~= before);
}

/// Conversations that made the same chat so far go on alike.
pub proof fn law_only_the_chat_so_far_matters(
    one: Seq<ResponseItemView>,
    other: Seq<ResponseItemView>,
    more: Seq<ResponseItemView>,
)
    requires
        chat_messages::chat_messages(one) == chat_messages::chat_messages(other),
    ensures
        chat_messages::chat_messages(one + more) == chat_messages::chat_messages(other + more),
{
    message_laws::law_conversion_composes(one, more);
    message_laws::law_conversion_composes(other, more);
}

} // verus!
