//! What the headers of a response come to.
use vstd::prelude::*;

use crate::common::ResponseEventView;
use crate::sse::response_headers;

verus! {

/// A header value reads as the characters of its bytes where each is a tab or
/// printable ASCII, and as nothing where one is not.
pub proof fn law_header_text(bytes: Seq<u8>)
    ensures
        ({
            let text = response_headers::header_text(bytes);
            &&& text is Some <==> forall|i: int|
                0 <= i < bytes.len() ==> (#[trigger] bytes[i] == 9 || 32 <= bytes[i] <= 126)
            &&& text is Some ==> {
                &&& text->0.len() == bytes.len()
                &&& forall|i: int|
                    0 <= i < bytes.len() ==> #[trigger] text->0[i] as int == bytes[i] as int
            }
        }),
{
    let text = response_headers::header_text(bytes);
    if text is Some {
        assert forall|i: int| 0 <= i < bytes.len() implies (#[trigger] bytes[i] == 9 || 32
            <= bytes[i] <= 126) by {
            assert(response_headers::visible(bytes[i]));
        }
        assert forall|i: int| 0 <= i < bytes.len() implies #[trigger] text->0[i] as int
            == bytes[i] as int by {
            assert(response_headers::visible(bytes[i]));
        }
    } else {
        let i = choose|i: int|
            0 <= i < bytes.len() && !response_headers::visible(#[trigger] bytes[i]);
        assert(!(bytes[i] == 9 || 32 <= bytes[i] <= 126));
    }
}

/// A header is read from the first value under its own name, and is nothing
/// where there is no value under it.
pub proof fn law_first_value_is_read(
    values: Map<Seq<char>, Seq<Seq<u8>>>,
    name: Seq<char>,
    first: Seq<u8>,
    more: Seq<Seq<u8>>,
)
    ensures
        response_headers::first_text(values.insert(name, seq![first] + more), name)
            == response_headers::header_text(first),
        response_headers::first_text(values.remove(name), name) is None,
{
    assert((seq![first] + more).first() == first);
}

/// A stream opens with the model where that is named, and with nothing
/// otherwise.
pub proof fn law_opening_names_the_model(model: Option<Seq<char>>)
    ensures
        ({
            let events = response_headers::opening_events(model);
            &&& model is Some ==> events.len() == 1 && events[0] == ResponseEventView::ServerModel(
                model->0,
            )
            &&& model is None ==> events.len() == 0
        }),
{
}

} // verus!
