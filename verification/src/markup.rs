//! The one place where the HTML parser is called.
//!
//! Nothing in this file is proved: the contract of `first_match_attr` is taken
//! on trust from the `scraper` crate.

use vstd::prelude::*;

verus! {

/// The error that `scraper::Selector::parse` returns. Nothing is known of its
/// contents here.
#[verifier::external_type_specification]
#[verifier::external_body]
pub struct ExSelectorErrorKind(scraper::error::SelectorErrorKind);

/// The longest page, in characters, that is handed to the parser. A character
/// takes up to four bytes, and the tree's text is built in the same buffers.
pub const MAX_PAGE_CHARS: usize = 0x0fff_ffff;

/// The longest selector, in characters, that is handed to the parser.
pub const MAX_SELECTOR_CHARS: usize = 64;

/// A character that a flat selector may hold: a letter, a digit, `#`, `.`,
/// `-` or `_`.
pub open spec fn selector_char(c: char) -> bool {
    c == '#' || c == '.' || c == '-' || c == '_' || ('a' <= c && c <= 'z') || ('A' <= c && c
        <= 'Z') || ('0' <= c && c <= '9')
}

/// A selector without colon, bracket, comma, space or combinator: one compound
/// of tag, id and class, which is matched on an element alone.
pub open spec fn flat_selector(css: Seq<char>) -> bool {
    forall|i: int| 0 <= i < css.len() ==> selector_char(#[trigger] css[i])
}

/// Whether `scraper::Selector::parse` accepts `css` as a selector group.
pub uninterp spec fn selector_accepted(css: Seq<char>) -> bool;

/// What a query of the document parsed from `html` gives for the selector
/// `css` and the attribute `attr`: `None` where `Html::select` yields no
/// element, else for the first element that it yields `Some(None)` where it
/// lacks the attribute, and `Some(Some(value))` where it has it.
pub uninterp spec fn matched_attr(html: Seq<char>, css: Seq<char>, attr: Seq<char>) -> Option<
    Option<Seq<char>>,
>;

/// The view of a query's result.
pub open spec fn lookup_view(found: Option<Option<String>>) -> Option<Option<Seq<char>>> {
    match found {
        None => None,
        Some(None) => Some(None),
        Some(Some(value)) => Some(Some(value@)),
    }
}

/// Parses `css` with `scraper::Selector::parse` and `html` with
/// `scraper::Html::parse_document`, takes the first item of `Html::select`, and
/// reads `attr` from it with `ElementRef::attr`.
///
/// Trusted: that the selector's error comes back exactly where the parser
/// rejects `css`, and that otherwise the result is the one that these calls
/// give, which depends on the three texts alone.
///
/// The three conditions keep the call away from inputs on which it may not
/// return. The parser's buffers hold at most `u32::MAX` bytes and refuse a
/// longer text. A selector with combinators or with a pseudo-class such as
/// `:has()` is matched by recursion, for `:has()` once for each level of
/// nesting of the page, and no depth is capped; a flat selector is matched on
/// each element by itself.
#[verifier::external_body]
pub(crate) fn first_match_attr(html: &str, css: &str, attr: &str) -> (r: Result<
    Option<Option<String>>,
    scraper::error::SelectorErrorKind,
>)
    requires
        html@.len() <= MAX_PAGE_CHARS,
        css@.len() <= MAX_SELECTOR_CHARS,
        flat_selector(css@),
    ensures
        r is Ok <==> selector_accepted(css@),
        r matches Ok(found) ==> lookup_view(found) == matched_attr(html@, css@, attr@),
{
    let selector = scraper::Selector::parse(css)?;
    let document = scraper::Html::parse_document(html);
    Ok(document.select(&selector).next().map(|element| element.attr(attr).map(String::from)))
}

} // verus!
