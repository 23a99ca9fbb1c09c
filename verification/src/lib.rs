//! A one-character heuristic for smart quotation marks.
//!
//! Given the character standing immediately before the spot where a
//! quotation mark is to be inserted (or no character at all, at the very
//! start of the text), [`decide_quote_after`] says whether an opening or a
//! closing glyph belongs there. The crate converts nothing itself: it is
//! the single pure decision inside a larger quote-rewriting tool, called
//! once per candidate quotation mark.
//!
//! The decision consults three fixed character sets, each exposed both as
//! an executable predicate and as a spec-level set: whitespace and
//! separators ([`is_space`]), dash punctuation ([`is_dash`]), and opening
//! brackets ([`is_opening_parenthesis`]). A quote after a member of any of
//! these sets, or at the start of text, opens; after anything else it
//! closes.

use vstd::prelude::*;

verus! {

/// The decision: whether an opening or a closing quotation mark should be
/// used at the insertion point.
#[derive(Copy, Clone, Debug, Eq, Hash, PartialEq, Structural)]
pub enum Decision {
    Open,
    Close,
}

/// The whitespace and separator code points: tab through carriage return,
/// space, next line, no-break space, Ogham space mark, the Unicode space
/// block U+2000 through U+200A, line and paragraph separators, narrow
/// no-break space, medium mathematical space, and ideographic space.
///
/// Zero-width space (U+200B) is a member as well, not as visible
/// whitespace but because it signals a boundary between words.
pub open spec fn spec_is_space(c: char) -> bool {
    let n = c as u32;
    ||| (0x09 <= n && n <= 0x0d)
    ||| n == 0x20
    ||| n == 0x85
    ||| n == 0xa0
    ||| n == 0x1680
    ||| (0x2000 <= n && n <= 0x200a)
    ||| n == 0x2028
    ||| n == 0x2029
    ||| n == 0x202f
    ||| n == 0x205f
    ||| n == 0x3000
    ||| n == 0x200b
}

/// The dash punctuation code points: the inclusive range U+2012 through
/// U+2015 (figure dash, en dash, em dash, horizontal bar).
pub open spec fn spec_is_dash(c: char) -> bool {
    let n = c as u32;
    0x2012 <= n && n <= 0x2015
}

/// The opening brackets: `(`, `[`, `{`, and the mathematical left angle
/// bracket U+27E8.
pub open spec fn spec_is_opening_parenthesis(c: char) -> bool {
    let n = c as u32;
    ||| n == 0x28
    ||| n == 0x5b
    ||| n == 0x7b
    ||| n == 0x27e8
}

/// The decision for a quotation mark as a function of the character before
/// it: absent or in one of the three opening sets means `Open`, anything
/// else means `Close`.
pub open spec fn spec_decide_quote_after(previous_character: Option<char>) -> Decision {
    match previous_character {
        None => Decision::Open,
        Some(c) => if spec_is_space(c) || spec_is_dash(c) || spec_is_opening_parenthesis(c) {
            Decision::Open
        } else {
            Decision::Close
        },
    }
}

/// Whether `x` counts as whitespace for quote placement: exactly the
/// members of [`spec_is_space`].
#[verifier::when_used_as_spec(spec_is_space)]
pub fn is_space(x: char) -> (r: bool)
    ensures
        r == spec_is_space(x),
{
    let n = x as u32;
    (0x09 <= n && n <= 0x0d)
        || n == 0x20
        || n == 0x85
        || n == 0xa0
        || n == 0x1680
        || (0x2000 <= n && n <= 0x200a)
        || n == 0x2028
        || n == 0x2029
        || n == 0x202f
        || n == 0x205f
        || n == 0x3000
        || n == 0x200b
}

/// Whether `x` is dash punctuation: exactly the members of
/// [`spec_is_dash`].
#[verifier::when_used_as_spec(spec_is_dash)]
pub fn is_dash(x: char) -> (r: bool)
    ensures
        r == spec_is_dash(x),
{
    let n = x as u32;
    0x2012 <= n && n <= 0x2015
}

/// Whether `x` is an opening bracket: exactly the members of
/// [`spec_is_opening_parenthesis`].
#[verifier::when_used_as_spec(spec_is_opening_parenthesis)]
pub fn is_opening_parenthesis(x: char) -> (r: bool)
    ensures
        r == spec_is_opening_parenthesis(x),
{
    let n = x as u32;
    n == 0x28 || n == 0x5b || n == 0x7b || n == 0x27e8
}

/// Applies the heuristic to the character before the insertion point.
///
/// Pass `None` when the quotation mark would be the first character of the
/// text. The result is exactly [`spec_decide_quote_after`] of the input:
/// `Open` for an absent character and for whitespace, dash punctuation and
/// opening brackets, `Close` for every other character.
#[verifier::when_used_as_spec(spec_decide_quote_after)]
pub fn decide_quote_after(previous_character: Option<char>) -> (decision: Decision)
    ensures
        decision == spec_decide_quote_after(previous_character),
{
    match previous_character {
        None => Decision::Open,
        Some(x) => {
            if is_space(x) || is_dash(x) || is_opening_parenthesis(x) {
                Decision::Open
            } else {
                Decision::Close
            }
        },
    }
}

/// Totality: every input, the absent character included, yields one of the
/// two decisions; the classifier never fails.
pub proof fn lemma_decide_total(previous_character: Option<char>)
    ensures
        spec_decide_quote_after(previous_character) == Decision::Open
            || spec_decide_quote_after(previous_character) == Decision::Close,
{
}

/// Determinism: any two results of the classifier on the same input are
/// equal, since each call's result is pinned to the same function of the
/// input.
pub proof fn lemma_decide_deterministic(
    previous_character: Option<char>,
    first: Decision,
    second: Decision,
)
    requires
        first == spec_decide_quote_after(previous_character),
        second == spec_decide_quote_after(previous_character),
    ensures
        first == second,
{
}

/// Start of text: a quotation mark with no character before it opens.
pub proof fn lemma_start_of_text_opens()
    ensures
        spec_decide_quote_after(None) == Decision::Open,
{
}

/// Whitespace rule: a quotation mark after any whitespace character opens.
pub proof fn lemma_space_opens(x: char)
    requires
        spec_is_space(x),
    ensures
        spec_decide_quote_after(Some(x)) == Decision::Open,
{
}

/// Dash rule: a quotation mark after any dash-punctuation character opens.
pub proof fn lemma_dash_opens(x: char)
    requires
        spec_is_dash(x),
    ensures
        spec_decide_quote_after(Some(x)) == Decision::Open,
{
}

/// Opening-bracket rule: a quotation mark after any opening bracket opens.
pub proof fn lemma_opening_parenthesis_opens(x: char)
    requires
        spec_is_opening_parenthesis(x),
    ensures
        spec_decide_quote_after(Some(x)) == Decision::Open,
{
}

/// Default rule: a quotation mark after a character in none of the three
/// opening sets closes.
pub proof fn lemma_default_closes(x: char)
    requires
        !spec_is_space(x),
        !spec_is_dash(x),
        !spec_is_opening_parenthesis(x),
    ensures
        spec_decide_quote_after(Some(x)) == Decision::Close,
{
}

/// No opening rule is ever overridden: whenever any one of the three
/// predicates holds of the preceding character, the decision is not
/// `Close`.
pub proof fn lemma_open_rules_never_overridden(x: char)
    requires
        spec_is_space(x) || spec_is_dash(x) || spec_is_opening_parenthesis(x),
    ensures
        spec_decide_quote_after(Some(x)) != Decision::Close,
{
}

} // verus!
