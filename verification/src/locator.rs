//! Where an episode's page is, and what stream its markup names.

use vstd::prelude::*;
use vstd::string::*;
use crate::failure::{Failure, Malformed, Missing};
use crate::markup::{
    first_match_attr, lookup_view, matched_attr, selector_accepted, MAX_PAGE_CHARS,
};
use crate::text::{find_char, first_at, push_i32, signed_decimal};

verus! {

/// A stream's address and the extension of its container.
#[derive(Clone, Debug, PartialEq, Eq)]
pub struct SourceReference {
    pub stream_url: String,
    pub extension: String,
}

/// A `SourceReference` as two texts.
pub struct SourceModel {
    pub stream_url: Seq<char>,
    pub extension: Seq<char>,
}

impl View for SourceReference {
    type V = SourceModel;

    open spec fn view(&self) -> SourceModel {
        SourceModel { stream_url: self.stream_url@, extension: self.extension@ }
    }
}

/// The view of a location's outcome.
pub open spec fn outcome_view(r: Result<SourceReference, Failure>) -> Result<SourceModel, Failure> {
    match r {
        Ok(source) => Ok(source@),
        Err(failure) => Err(failure),
    }
}

/// What the body of a fetch came to.
#[derive(Clone, Debug, PartialEq, Eq)]
pub enum Fetched {
    /// The page was read to its end.
    Body(String),
    /// The transport failed, or the response could not be read.
    Failed,
}

/// The address of an episode's page:
/// `http://www.iyinghua.io/v/<show>-<episode>.html`.
pub open spec fn page_url_spec(show: int, episode: int) -> Seq<char> {
    "http://www.iyinghua.io/v/"@ + signed_decimal(show) + "-"@ + signed_decimal(episode)
        + ".html"@
}

/// Builds the address of an episode's page.
pub fn page_url(show: i32, episode: i32) -> (url: String)
    ensures
        url@ == page_url_spec(show as int, episode as int),
{
    let mut url = String::from_str("http://www.iyinghua.io/v/");
    push_i32(&mut url, show);
    url.append("-");
    push_i32(&mut url, episode);
    url.append(".html");
    url
}

/// What a raw descriptor stands for: the text before its first `$` is the
/// address, the text from there to the next `$`, or to the end, the extension.
pub open spec fn descriptor_outcome(raw: Seq<char>) -> Result<SourceModel, Failure> {
    let first = first_at(raw, '$', 0);
    if first >= raw.len() {
        Err(Failure::Parse(Malformed::Descriptor))
    } else {
        let second = first_at(raw, '$', first + 1);
        Ok(
            SourceModel {
                stream_url: raw.subrange(0, first),
                extension: raw.subrange(first + 1, second),
            },
        )
    }
}

/// Splits a raw descriptor into address and extension.
pub fn split_descriptor(raw: &str) -> (r: Result<SourceReference, Failure>)
    ensures
        outcome_view(r) == descriptor_outcome(raw@),
{
    let n: usize = raw.unicode_len();
    let first: usize = find_char(raw, '$', 0);
    if first >= n {
        return Err(Failure::Parse(Malformed::Descriptor));
    }
    let second: usize = find_char(raw, '$', first + 1);
    let stream_url = String::from_str(raw.substring_char(0, first));
    let extension = String::from_str(raw.substring_char(first + 1, second));
    Ok(SourceReference { stream_url, extension })
}

/// The raw descriptor that a query for the player box found, or what was
/// missing.
pub open spec fn raw_outcome(found: Option<Option<Seq<char>>>) -> Result<Seq<char>, Failure> {
    match found {
        None => Err(Failure::NotFound(Missing::Playbox)),
        Some(None) => Err(Failure::NotFound(Missing::Vid)),
        Some(Some(raw)) => Ok(raw),
    }
}

/// The view of a raw descriptor's outcome.
pub open spec fn raw_view(r: Result<String, Failure>) -> Result<Seq<char>, Failure> {
    match r {
        Ok(raw) => Ok(raw@),
        Err(failure) => Err(failure),
    }
}

/// Turns the result of the query into the raw descriptor: no element is "no
/// playbox", no attribute is "no VID".
pub fn descriptor_from_lookup(found: Option<Option<String>>) -> (r: Result<String, Failure>)
    ensures
        raw_view(r) == raw_outcome(lookup_view(found)),
{
    match found {
        None => Err(Failure::NotFound(Missing::Playbox)),
        Some(None) => Err(Failure::NotFound(Missing::Vid)),
        Some(Some(raw)) => Ok(raw),
    }
}

/// What a query for the player box's descriptor comes to.
pub open spec fn lookup_outcome(found: Option<Option<Seq<char>>>) -> Result<SourceModel, Failure> {
    match raw_outcome(found) {
        Err(failure) => Err(failure),
        Ok(raw) => descriptor_outcome(raw),
    }
}

/// Turns the result of the query into a source: no element is "no playbox",
/// no attribute is "no VID", and a descriptor is split.
pub fn source_from_lookup(found: Option<Option<String>>) -> (r: Result<SourceReference, Failure>)
    ensures
        outcome_view(r) == lookup_outcome(lookup_view(found)),
{
    match descriptor_from_lookup(found) {
        Err(failure) => Err(failure),
        Ok(raw) => split_descriptor(raw.as_str()),
    }
}

/// The raw descriptor of a page: the `data-vid` attribute of the first
/// element that `#playbox` selects. A page of more than `MAX_PAGE_CHARS`
/// characters is not parsed.
pub open spec fn page_descriptor_outcome(html: Seq<char>) -> Result<Seq<char>, Failure> {
    if html.len() > MAX_PAGE_CHARS {
        Err(Failure::Parse(Malformed::Document))
    } else if selector_accepted("#playbox"@) {
        raw_outcome(matched_attr(html, "#playbox"@, "data-vid"@))
    } else {
        Err(Failure::Parse(Malformed::Query))
    }
}

/// Reads the raw descriptor out of a page's markup, unsplit: the text that a
/// failure of `locate_in_page` to split it speaks of.
pub fn page_descriptor(html: &str) -> (r: Result<String, Failure>)
    ensures
        raw_view(r) == page_descriptor_outcome(html@),
{
    if html.unicode_len() > MAX_PAGE_CHARS {
        return Err(Failure::Parse(Malformed::Document));
    }
    proof {
        reveal_strlit("#playbox");
    }
    match first_match_attr(html, "#playbox", "data-vid") {
        Err(_) => Err(Failure::Parse(Malformed::Query)),
        Ok(found) => descriptor_from_lookup(found),
    }
}

/// What a page's markup comes to: the descriptor is the `data-vid` attribute
/// of the first element that `#playbox` selects. A page of more than
/// `MAX_PAGE_CHARS` characters is not parsed.
pub open spec fn page_outcome(html: Seq<char>) -> Result<SourceModel, Failure> {
    match page_descriptor_outcome(html) {
        Err(failure) => Err(failure),
        Ok(raw) => descriptor_outcome(raw),
    }
}

/// Extracts the source from a page's markup. A page of more than
/// `MAX_PAGE_CHARS` characters is refused unparsed, as a document that cannot
/// be built.
pub fn locate_in_page(html: &str) -> (r: Result<SourceReference, Failure>)
    ensures
        outcome_view(r) == page_outcome(html@),
{
    match page_descriptor(html) {
        Err(failure) => Err(failure),
        Ok(raw) => split_descriptor(raw.as_str()),
    }
}

/// What a fetch comes to.
pub open spec fn locate_outcome(fetched: Fetched) -> Result<SourceModel, Failure> {
    match fetched {
        Fetched::Failed => Err(Failure::Network),
        Fetched::Body(html) => page_outcome(html@),
    }
}

/// Locates the source in what was fetched from `page_url`.
pub fn locate(fetched: &Fetched) -> (r: Result<SourceReference, Failure>)
    ensures
        outcome_view(r) == locate_outcome(*fetched),
{
    match fetched {
        Fetched::Failed => Err(Failure::Network),
        Fetched::Body(html) => locate_in_page(html.as_str()),
    }
}

} // verus!
