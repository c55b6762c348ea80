//! What holds of every text.
use vstd::prelude::*;

use crate::text;

verus! {

/// An optional string has a text exactly where it is there, and then its own.
pub proof fn law_optional_texts(s: Option<String>)
    ensures
        s is Some ==> text::opt_text(s) == Some(s->0@),
        s is None ==> text::opt_text(s) is None,
{
}

/// A missing text reads as the empty one, any other as itself.
pub proof fn law_missing_text_is_empty(s: Option<Seq<char>>)
    ensures
        s is Some ==> text::text_or_empty(s) == s->0,
        s is None ==> text::text_or_empty(s).len() == 0,
{
}

/// Joined passages hold the first, two line feeds, and the second, and nothing
/// else.
pub proof fn law_paragraphs_hold_both_passages(first: Seq<char>, second: Seq<char>)
    ensures
        ({
            let both = text::paragraphs(first, second);
            let n = first.len() as int;
            &&& both.len() == n + 2 + second.len()
            &&& both.take(n) == first
            &&& both[n] == '\n'
            &&& both[n + 1] == '\n'
            &&& both.skip(n + 2) == second
        }),
{
    reveal_strlit("\n\n");
    let both = text::paragraphs(first, second);
    assert(both.take(first.len() as int) =~= first);
    assert(both.skip(first.len() as int + 2) =~= second);
}

/// The number that a decimal numeral stands for.
pub open spec fn numeral_value(numeral: Seq<char>) -> int
    decreases numeral.len(),
{
    if numeral.len() == 0 {
        0
    } else {
        10 * numeral_value(numeral.drop_last()) + (numeral.last() as int - '0' as int)
    }
}

/// A decimal numeral is made of digits, has no leading zero but in "0", and
/// stands for its number.
pub proof fn law_decimal_stands_for_its_number(n: nat)
    ensures
        numeral_value(text::decimal(n)) == n,
        text::decimal(n).len() > 0,
        forall|i: int|
            0 <= i < text::decimal(n).len() ==> '0' <= #[trigger] text::decimal(n)[i] <= '9',
        n > 0 ==> text::decimal(n)[0] != '0',
        n == 0 ==> text::decimal(n).len() == 1,
    decreases n,
{
    let numeral = text::decimal(n);
    if n < 10 {
        assert(numeral.drop_last() =~= Seq::empty());
        reveal_with_fuel(numeral_value, 2);
    } else {
        law_decimal_stands_for_its_number(n / 10);
        assert(numeral.drop_last() =~= text::decimal(n / 10));
        assert(numeral[0] == text::decimal(n / 10)[0]);
        assert forall|i: int| 0 <= i < numeral.len() implies '0' <= #[trigger] numeral[i]
            <= '9' by {
            if i < numeral.len() - 1 {
                assert(numeral[i] == text::decimal(n / 10)[i]);
            }
        }
    }
}

/// White space is the tab, the line feed, the vertical tab, the form feed, the
/// carriage return, the space, and the spaces and separators beyond ASCII that
/// Unicode counts as such.
pub proof fn law_white_space(c: char)
    ensures
        text::white_space(c) <==> c == '\t' || c == '\n' || c == '\u{b}' || c == '\u{c}' || c
            == '\r' || c == ' ' || c == '\u{85}' || c == '\u{a0}' || c == '\u{1680}' || '\u{2000}'
            <= c <= '\u{200a}' || c == '\u{2028}' || c == '\u{2029}' || c == '\u{202f}' || c
            == '\u{205f}' || c == '\u{3000}',
{
}

/// A text that neither begins nor ends with white space is left as it is.
pub proof fn law_trimming_leaves_the_rest(s: Seq<char>)
    requires
        s.len() > 0 ==> !text::white_space(s.first()) && !text::white_space(s.last()),
    ensures
        text::trimmed(s) == s,
{
}

/// White space around a text is all that trimming takes away.
pub proof fn law_trimming_takes_white_space(before: Seq<char>, s: Seq<char>, after: Seq<char>)
    requires
        forall|i: int| 0 <= i < before.len() ==> text::white_space(#[trigger] before[i]),
        forall|i: int| 0 <= i < after.len() ==> text::white_space(#[trigger] after[i]),
        s.len() > 0 ==> !text::white_space(s.first()) && !text::white_space(s.last()),
    ensures
        text::trimmed(before + s + after) == s,
{
    crate::sse::stream_laws::law_white_space_around_data_is_ignored(before, s, after);
    law_trimming_leaves_the_rest(s);
}

} // verus!
