//! What holds of every chat completion request.
use vstd::prelude::*;

use crate::common::ChatMessageView;
use crate::convert::chat_messages;
use crate::convert::chat_request;
use crate::convert::message_laws;
use crate::models::ResponseItemView;

verus! {

proof fn lemma_system_position(messages: Seq<ChatMessageView>)
    ensures
        chat_request::system_position(messages) <= messages.len(),
        chat_request::system_position(messages) < messages.len() ==> chat_request::is_system(
            messages[chat_request::system_position(messages) as int],
        ),
        forall|i: int|
            0 <= i < chat_request::system_position(messages) ==> !chat_request::is_system(
                #[trigger] messages[i],
            ),
    decreases messages.len(),
{
    if messages.len() > 0 && !chat_request::is_system(messages.first()) {
        let rest = messages.drop_first();
        lemma_system_position(rest);
        assert forall|i: int| 0 <= i < chat_request::system_position(
            messages,
        ) implies !chat_request::is_system(#[trigger] messages[i]) by {
            if i > 0 {
                assert(rest[i - 1] == messages[i]);
            }
        }
    }
}

/// Instructions open the chat: its first message is the system's and begins
/// with them.
pub proof fn law_instructions_come_first(
    instructions: Seq<char>,
    messages: Seq<ChatMessageView>,
)
    requires
        instructions.len() > 0,
    ensures
        ({
            let all = chat_request::with_instructions(instructions, messages);
            &&& all.len() > 0
            &&& chat_request::is_system(all.first())
            &&& all.first().content is Some
            &&& instructions.is_prefix_of(all.first().content->0)
        }),
{
}

/// Without instructions the chat is the conversation alone.
pub proof fn law_no_instructions_change_nothing(messages: Seq<ChatMessageView>)
    ensures
        chat_request::with_instructions(Seq::empty(), messages) == messages,
{
}

/// Instructions touch no message but the system's: all others stay, in their
/// order.
pub proof fn law_instructions_keep_other_messages(
    instructions: Seq<char>,
    messages: Seq<ChatMessageView>,
)
    ensures
        chat_request::with_instructions(instructions, messages).filter(
            |message: ChatMessageView| !chat_request::is_system(message),
        ) == messages.filter(|message: ChatMessageView| !chat_request::is_system(message)),
{
    let other = |message: ChatMessageView| !chat_request::is_system(message);
    if instructions.len() > 0 {
        lemma_filter_front(instructions, messages, other);
    }
}

/// Instructions add a system message only where the conversation has none.
pub proof fn law_instructions_share_a_system_message(
    instructions: Seq<char>,
    messages: Seq<ChatMessageView>,
)
    requires
        instructions.len() > 0,
    ensures
        ({
            let system = |message: ChatMessageView| chat_request::is_system(message);
            let before = messages.filter(system).len();
            chat_request::with_instructions(instructions, messages).filter(system).len() == if before
                == 0 {
                1
            } else {
                before
            }
        }),
{
    let system = |message: ChatMessageView| chat_request::is_system(message);
    lemma_filter_front(instructions, messages, system);
    lemma_system_position(messages);
    let p = chat_request::system_position(messages) as int;
    if p >= messages.len() {
        if messages.filter(system).len() > 0 {
            let found = messages.filter(system)[0];
            messages.lemma_filter_pred(system, 0);
            messages.lemma_filter_contains_rev(system, found);
            let i = choose|i: int| 0 <= i < messages.len() && messages[i] == found;
            assert(chat_request::is_system(messages[i]));
        }
    }
}

proof fn lemma_filter_front(
    instructions: Seq<char>,
    messages: Seq<ChatMessageView>,
    keep: spec_fn(ChatMessageView) -> bool,
)
    requires
        instructions.len() > 0,
        forall|a: ChatMessageView, b: ChatMessageView|
            chat_request::is_system(a) == chat_request::is_system(b) ==> #[trigger] keep(a)
                == #[trigger] keep(b),
    ensures
        ({
            let all = chat_request::with_instructions(instructions, messages);
            let p = chat_request::system_position(messages) as int;
            &&& chat_request::is_system(all.first())
            &&& p < messages.len() ==> {
                &&& messages.filter(keep).len() == all.filter(keep).len()
                &&& (!keep(all.first()) ==> messages.filter(keep) == all.filter(keep))
                &&& (keep(all.first()) ==> messages.filter(keep).len() > 0)
            }
            &&& p >= messages.len() ==> {
                if keep(all.first()) {
                    all.filter(keep).len() == messages.filter(keep).len() + 1
                } else {
                    all.filter(keep) == messages.filter(keep)
                }
            }
        }),
{
    lemma_system_position(messages);
    let all = chat_request::with_instructions(instructions, messages);
    let p = chat_request::system_position(messages) as int;
    let first = all.first();
    lemma_filter_one(first, keep);
    if p < messages.len() {
        let taken = messages[p];
        let left = messages.subrange(0, p);
        let right = messages.subrange(p + 1, messages.len() as int);
        lemma_filter_one(taken, keep);
        assert(chat_request::is_system(taken) == chat_request::is_system(first));
        assert(keep(taken) == keep(first));
        assert(messages =~= left + seq![taken] + right);
        assert(all =~= seq![first] + (left + right));
        Seq::filter_distributes_over_add(left + seq![taken], right, keep);
        Seq::filter_distributes_over_add(left, seq![taken], keep);
        Seq::filter_distributes_over_add(seq![first], left + right, keep);
        Seq::filter_distributes_over_add(left, right, keep);
        if !keep(first) {
            assert(messages.filter(keep) =~= all.filter(keep));
        }
    } else {
        assert(all =~= seq![first] + messages);
        Seq::filter_distributes_over_add(seq![first], messages, keep);
        if !keep(first) {
            assert(messages.filter(keep) =~= all.filter(keep));
        }
    }
}

proof fn lemma_filter_one(message: ChatMessageView, keep: spec_fn(ChatMessageView) -> bool)
    ensures
        seq![message].filter(keep) == if keep(message) {
            seq![message]
        } else {
            Seq::empty()
        },
{
    reveal_with_fuel(Seq::filter, 2);
    assert(seq![message].drop_last() =~= Seq::empty());
    assert(seq![message].filter(keep) =~= if keep(message) {
        seq![message]
    } else {
        Seq::empty()
    });
}

/// A request never has two system messages in a row.
pub proof fn law_no_adjacent_system_messages_in_request(
    instructions: Seq<char>,
    items: Seq<ResponseItemView>,
)
    ensures
        ({
            let all = chat_request::with_instructions(
                instructions,
                chat_messages::chat_messages(items),
            );
            forall|i: int|
                0 <= i < all.len() - 1 ==> !(chat_request::is_system(#[trigger] all[i])
                    && chat_request::is_system(all[i + 1]))
        }),
{
    let messages = chat_messages::chat_messages(items);
    let all = chat_request::with_instructions(instructions, messages);
    let p = chat_request::system_position(messages) as int;
    message_laws::law_no_adjacent_system_messages(items);
    lemma_system_position(messages);
    assert forall|i: int| 0 <= i < all.len() - 1 implies !(chat_request::is_system(
        #[trigger] all[i],
    ) && chat_request::is_system(all[i + 1])) by {
        if instructions.len() == 0 {
            assert(!(messages[i].role == "system"@ && messages[i + 1].role == "system"@));
        } else if p < messages.len() {
            let rest = messages.remove(p);
            assert(all[i + 1] == rest[i]);
            if i < p {
                assert(rest[i] == messages[i]);
            } else if i == p {
                assert(rest[i] == messages[i + 1]);
                assert(!(messages[p].role == "system"@ && messages[p + 1].role == "system"@));
            } else {
                assert(rest[i] == messages[i + 1] && all[i] == rest[i - 1] && rest[i - 1]
                    == messages[i]);
                assert(!(messages[i].role == "system"@ && messages[i + 1].role == "system"@));
            }
        } else {
            assert(all[i + 1] == messages[i]);
        }
    }
}

/// Instructions for a conversation without a system message make one of their
/// own in front, which holds them alone. What was there follows.
pub proof fn law_instructions_alone_make_a_system_message(
    instructions: Seq<char>,
    messages: Seq<ChatMessageView>,
)
    requires
        instructions.len() > 0,
        forall|i: int| 0 <= i < messages.len() ==> #[trigger] messages[i].role != "system"@,
    ensures
        ({
            let all = chat_request::with_instructions(instructions, messages);
            &&& all.len() == messages.len() + 1
            &&& all.drop_first() == messages
            &&& all[0].role == "system"@
            &&& all[0].content == Some(instructions)
            &&& all[0].tool_calls is None
            &&& all[0].tool_call_id is None
            &&& all[0].name is None
        }),
{
    let all = chat_request::with_instructions(instructions, messages);
    let p = chat_request::system_position(messages) as int;
    lemma_system_position(messages);
    if p < messages.len() {
        assert(messages[p].role != "system"@);
    }
    assert(all.drop_first() =~= messages);
}

/// Instructions take in the first system message, wherever it stands: the chat
/// opens with the instructions, a blank line and that message's text, and that
/// message is gone from its place. All others stay, in their order.
pub proof fn law_instructions_take_in_the_first_system_message(
    instructions: Seq<char>,
    messages: Seq<ChatMessageView>,
    p: int,
)
    requires
        instructions.len() > 0,
        0 <= p < messages.len(),
        messages[p].role == "system"@,
        forall|i: int| 0 <= i < p ==> #[trigger] messages[i].role != "system"@,
    ensures
        ({
            let all = chat_request::with_instructions(instructions, messages);
            &&& all.len() == messages.len()
            &&& all[0].role == "system"@
            &&& messages[p].content is Some ==> all[0].content == Some(
                instructions + "\n\n"@ + messages[p].content->0,
            )
            &&& messages[p].content is None ==> all[0].content == Some(instructions + "\n\n"@)
            &&& all[0].tool_calls is None
            &&& all[0].tool_call_id is None
            &&& all[0].name is None
            &&& forall|i: int| 0 < i <= p ==> #[trigger] all[i] == messages[i - 1]
            &&& forall|i: int| p < i < all.len() ==> #[trigger] all[i] == messages[i]
        }),
{
    let all = chat_request::with_instructions(instructions, messages);
    let q = chat_request::system_position(messages) as int;
    lemma_system_position(messages);
    if q < p {
        assert(messages[q].role != "system"@);
    }
    assert(q == p) by {
        if p < q {
            assert(!chat_request::is_system(messages[p]));
        }
    }
    assert(instructions + "\n\n"@ + Seq::<char>::empty() =~= instructions + "\n\n"@);
}

proof fn lemma_join_first(first: Seq<char>, second: Seq<char>, more: Seq<Seq<char>>)
    ensures
        message_laws::joined(seq![first + "\n\n"@ + second] + more) == message_laws::joined(
            seq![first, second] + more,
        ),
    decreases more.len(),
{
    let one = seq![first + "\n\n"@ + second] + more;
    let two = seq![first, second] + more;
    if more.len() == 0 {
        assert(two.drop_last() =~= seq![first]);
        reveal_with_fuel(message_laws::joined, 2);
    } else {
        assert(one.drop_last() =~= seq![first + "\n\n"@ + second] + more.drop_last());
        assert(two.drop_last() =~= seq![first, second] + more.drop_last());
        lemma_join_first(first, second, more.drop_last());
    }
}

proof fn lemma_texts_add(first: Seq<ChatMessageView>, second: Seq<ChatMessageView>)
    ensures
        (first + second).filter_map(|message: ChatMessageView| message_laws::system_text(message))
            == first.filter_map(|message: ChatMessageView| message_laws::system_text(message))
            + second.filter_map(|message: ChatMessageView| message_laws::system_text(message)),
    decreases second.len(),
{
    let texts = |message: ChatMessageView| message_laws::system_text(message);
    if second.len() == 0 {
        assert(first + second =~= first);
        assert(first.filter_map(texts) + second.filter_map(texts) =~= first.filter_map(texts));
    } else {
        assert((first + second).drop_last() =~= first + second.drop_last());
        lemma_texts_add(first, second.drop_last());
        assert((first + second).filter_map(texts) =~= first.filter_map(texts) + second.filter_map(
            texts,
        ));
    }
}

proof fn lemma_no_texts(messages: Seq<ChatMessageView>)
    requires
        forall|i: int| 0 <= i < messages.len() ==> #[trigger] messages[i].role != "system"@,
    ensures
        messages.filter_map(
            |message: ChatMessageView| message_laws::system_text(message),
        ).len() == 0,
    decreases messages.len(),
{
    if messages.len() > 0 {
        assert(messages[messages.len() - 1].role != "system"@);
        lemma_no_texts(messages.drop_last());
    }
}

/// The system texts of a chat with instructions, joined, are the instructions
/// and then the system texts of the conversation, joined: none is lost, and
/// the order stays.
pub proof fn law_system_texts_follow_the_instructions(
    instructions: Seq<char>,
    messages: Seq<ChatMessageView>,
)
    requires
        instructions.len() > 0,
    ensures
        message_laws::joined(
            chat_request::with_instructions(instructions, messages).filter_map(
                |message: ChatMessageView| message_laws::system_text(message),
            ),
        ) == message_laws::joined(
            seq![instructions] + messages.filter_map(
                |message: ChatMessageView| message_laws::system_text(message),
            ),
        ),
{
    let texts = |message: ChatMessageView| message_laws::system_text(message);
    let all = chat_request::with_instructions(instructions, messages);
    let p = chat_request::system_position(messages) as int;
    lemma_system_position(messages);
    Seq::lemma_filter_map_singleton(all[0], texts);
    if p < messages.len() {
        let left = messages.subrange(0, p);
        let right = messages.subrange(p + 1, messages.len() as int);
        let taken = messages[p];
        let content = if taken.content is Some {
            taken.content->0
        } else {
            Seq::empty()
        };
        assert forall|i: int| 0 <= i < left.len() implies #[trigger] left[i].role
            != "system"@ by {
            assert(!chat_request::is_system(messages[i]));
        }
        lemma_no_texts(left);
        assert(messages =~= left + (seq![taken] + right));
        assert(all =~= seq![all[0]] + (left + right));
        lemma_texts_add(left, seq![taken] + right);
        lemma_texts_add(seq![taken], right);
        lemma_texts_add(seq![all[0]], left + right);
        lemma_texts_add(left, right);
        Seq::lemma_filter_map_singleton(taken, texts);
        let more = right.filter_map(texts);
        assert(all.filter_map(texts) =~= seq![instructions + "\n\n"@ + content] + more);
        assert(seq![instructions] + messages.filter_map(texts) =~= seq![instructions, content]
            + more);
        lemma_join_first(instructions, content, more);
    } else {
        assert(all =~= seq![all[0]] + messages);
        lemma_texts_add(seq![all[0]], messages);
        assert(all.filter_map(texts) =~= seq![instructions] + messages.filter_map(texts));
    }
}

} // verus!
