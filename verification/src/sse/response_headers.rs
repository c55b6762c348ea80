//! What the headers of a streamed response say before any event comes in.
use vstd::prelude::*;
use vstd::string::*;

use crate::common;
use crate::common::{ResponseEvent, ResponseEventView};
use crate::text;

verus! {

/// The header that names the model which answers.
pub const OPENAI_MODEL_HEADER: &'static str = "openai-model";

/// The header that names the request at the provider.
pub const REQUEST_ID_HEADER: &'static str = "x-request-id";

/// The header that carries the state of the turn.
pub const TURN_STATE_HEADER: &'static str = "x-codex-turn-state";

/// The header map type of `http`.
#[verifier::external_type_specification]
#[verifier::external_body]
#[verifier::reject_recursive_types(T)]
pub struct ExHeaderMap<T>(http::HeaderMap<T>);

/// The header value type of `http`.
#[verifier::external_type_specification]
#[verifier::external_body]
pub struct ExHeaderValue(http::HeaderValue);

/// The values that a header map holds under each name; names are in lower
/// case, and the values of a name are in the order in which they were added.
pub uninterp spec fn header_values(
    headers: http::HeaderMap<http::HeaderValue>,
) -> Map<Seq<char>, Seq<Seq<u8>>>;

/// The bytes that a header value holds.
pub uninterp spec fn header_bytes(value: http::HeaderValue) -> Seq<u8>;

/// Whether a text is a header name in lower case, of letters and hyphens.
pub open spec fn plain_header_name(name: Seq<char>) -> bool {
    &&& 0 < name.len() <= 64
    &&& forall|i: int| 0 <= i < name.len() ==> 'a' <= #[trigger] name[i] <= 'z' || name[i] == '-'
}

/// Whether a byte is a printable ASCII character or a tab.
pub open spec fn visible(byte: u8) -> bool {
    32 <= byte < 127 || byte == 9
}

/// The text of a header value, where all its bytes are visible.
pub open spec fn header_text(bytes: Seq<u8>) -> Option<Seq<char>> {
    if forall|i: int| 0 <= i < bytes.len() ==> visible(#[trigger] bytes[i]) {
        Some(bytes.map_values(|byte: u8| byte as char))
    } else {
        None
    }
}

/// The text of the first value under a name, where there is one and it is
/// text.
pub open spec fn first_text(
    values: Map<Seq<char>, Seq<Seq<u8>>>,
    name: Seq<char>,
) -> Option<Seq<char>> {
    if values.contains_key(name) {
        header_text(values[name].first())
    } else {
        None
    }
}

/// Calls `http::HeaderMap::get` with a string: the first value under that
/// name, and nothing where the map has no value under it.
#[verifier::external_body]
pub(crate) fn header_get<'a>(
    headers: &'a http::HeaderMap<http::HeaderValue>,
    name: &str,
) -> (value: Option<&'a http::HeaderValue>)
    requires
        plain_header_name(name@),
    ensures
        match value {
            Some(v) => header_values(*headers).contains_key(name@) && header_bytes(*v)
                == header_values(*headers)[name@].first(),
            None => !header_values(*headers).contains_key(name@),
        },
{
    headers.get(name)
}

/// Calls `http::HeaderValue::to_str`: the value as text where each of its
/// bytes is a printable ASCII character or a tab, and nothing otherwise.
#[verifier::external_body]
pub(crate) fn header_to_str(value: &http::HeaderValue) -> (text: Option<&str>)
    ensures
        match text {
            Some(t) => header_text(header_bytes(*value)) == Some(t@),
            None => header_text(header_bytes(*value)) is None,
        },
{
    value.to_str().ok()
}

/// What there is to do when a stream opens.
#[derive(Debug, PartialEq, Eq)]
pub struct StreamOpening {
    /// The events that come before those of the stream.
    pub events: Vec<ResponseEvent>,
    /// The name of the request at the provider.
    pub upstream_request_id: Option<String>,
    /// The state of the turn to be kept.
    pub turn_state: Option<String>,
}

/// The events that open a stream: the model, where the provider names it.
pub open spec fn opening_events(server_model: Option<Seq<char>>) -> Seq<ResponseEventView> {
    match server_model {
        Some(model) => seq![ResponseEventView::ServerModel(model)],
        None => Seq::empty(),
    }
}

/// Reads the first value under a name.
fn read_header(headers: &http::HeaderMap<http::HeaderValue>, name: &str) -> (read: Option<String>)
    requires
        plain_header_name(name@),
    ensures
        text::opt_text(read) == first_text(header_values(*headers), name@),
{
    match header_get(headers, name) {
        Some(value) => match header_to_str(value) {
            Some(text) => Some(text.to_owned()),
            None => None,
        },
        None => None,
    }
}

/// Opens a stream on what its headers say. The state of the turn is kept only
/// where there is a place for it.
pub fn stream_opening(
    server_model: Option<String>,
    upstream_request_id: Option<String>,
    turn_state: Option<String>,
    keeps_turn_state: bool,
) -> (opening: StreamOpening)
    ensures
        common::events_view(opening.events@) == opening_events(text::opt_text(server_model)),
        text::opt_text(opening.upstream_request_id) == text::opt_text(upstream_request_id),
        text::opt_text(opening.turn_state) == if keeps_turn_state {
            text::opt_text(turn_state)
        } else {
            None
        },
{
    let mut events: Vec<ResponseEvent> = Vec::new();
    if let Some(model) = server_model {
        events.push(ResponseEvent::ServerModel(model));
    }
    assert(common::events_view(events@) =~= opening_events(text::opt_text(server_model)));
    let turn_state = if keeps_turn_state {
        turn_state
    } else {
        None
    };
    StreamOpening { events, upstream_request_id, turn_state }
}

/// Opens a stream on its headers.
pub fn open_stream(
    headers: &http::HeaderMap<http::HeaderValue>,
    keeps_turn_state: bool,
) -> (opening: StreamOpening)
    ensures
        common::events_view(opening.events@) == opening_events(
            first_text(header_values(*headers), "openai-model"@),
        ),
        text::opt_text(opening.upstream_request_id) == first_text(
            header_values(*headers),
            "x-request-id"@,
        ),
        text::opt_text(opening.turn_state) == if keeps_turn_state {
            first_text(header_values(*headers), "x-codex-turn-state"@)
        } else {
            None
        },
{
    proof {
        reveal_strlit("openai-model");
        reveal_strlit("x-request-id");
        reveal_strlit("x-codex-turn-state");
    }
    stream_opening(
        read_header(headers, OPENAI_MODEL_HEADER),
        read_header(headers, REQUEST_ID_HEADER),
        read_header(headers, TURN_STATE_HEADER),
        keeps_turn_state,
    )
}

} // verus!
