//! The file name that a URI-list payload suggests.

use vstd::prelude::*;
use url::{ParseError, Url};

verus! {

/// The format under which an item carries a list of URIs.
pub const MIME_TYPE_URI_LIST: &'static str = "text/uri-list";

/// `url::Url`, a parsed URL record. Nothing is claimed of what it holds; it
/// is carried from the parser to the reading of its path segments.
#[verifier::external_type_specification]
#[verifier::external_body]
pub struct ExUrl(Url);

/// `url::ParseError`, the reason for which the parser rejected a text.
/// Nothing is claimed of it.
#[verifier::external_type_specification]
#[verifier::external_body]
pub struct ExParseError(ParseError);

/// The URL record that `url::Url::parse` makes of `text`, or `None` where it
/// rejects the text.
pub uninterp spec fn parsed_url(text: Seq<char>) -> Option<Url>;

/// The segments that `url::Url::path_segments` gives for `url`, in order, or
/// `None` where the URL has no path made of segments.
pub uninterp spec fn path_segments_of(url: Url) -> Option<Seq<Seq<char>>>;

/// Calls `url::Url::parse`. The parser reads nothing but its argument, so
/// its answer is a function of the text; the contract gives that answer its
/// name and claims nothing more of it.
#[verifier::external_body]
fn parse_url(text: &str) -> (parsed: Result<Url, ParseError>)
    ensures
        match parsed {
            Ok(url) => parsed_url(text@) == Some(url),
            Err(_) => parsed_url(text@) is None,
        },
{
    Url::parse(text)
}

/// Calls `url::Url::path_segments` and collects what it iterates over. The
/// method answers from the URL record alone; the contract gives that answer
/// its name and claims nothing more of it.
#[verifier::external_body]
fn path_segments(url: &Url) -> (segments: Option<Vec<String>>)
    ensures
        match segments {
            Some(list) => path_segments_of(*url) == Some(list.deep_view()),
            None => path_segments_of(*url) is None,
        },
{
    match url.path_segments() {
        Some(split) => Some(split.map(|segment| segment.to_owned()).collect()),
        None => None,
    }
}

/// The last of `segments`, unless there is none or it is empty.
pub open spec fn spec_last_non_empty(segments: Seq<Seq<char>>) -> Option<Seq<char>> {
    if segments.len() > 0 && segments.last().len() > 0 {
        Some(segments.last())
    } else {
        None
    }
}

/// The file name that path segments suggest: the last segment, unless the
/// path has no segments or ends in an empty one.
pub open spec fn spec_name_from_segments(segments: Option<Seq<Seq<char>>>) -> Option<Seq<char>> {
    match segments {
        Some(list) => spec_last_non_empty(list),
        None => None,
    }
}

/// The file name that `text` suggests when read as a URL: none where it is
/// no URL, else what its path segments suggest.
pub open spec fn spec_name_from_url_text(text: Seq<char>) -> Option<Seq<char>> {
    match parsed_url(text) {
        Some(url) => spec_name_from_segments(path_segments_of(url)),
        None => None,
    }
}

/// The mathematical value of an optional text.
pub open spec fn text_view(text: Option<String>) -> Option<Seq<char>> {
    match text {
        Some(t) => Some(t@),
        None => None,
    }
}

/// The file name that path segments suggest: the last segment, unless the
/// path has no segments or ends in an empty one.
pub fn name_from_segments(segments: Option<Vec<String>>) -> (name: Option<String>)
    ensures
        text_view(name) == spec_name_from_segments(
            match segments {
                Some(list) => Some(list.deep_view()),
                None => None,
            },
        ),
{
    match segments {
        Some(mut list) => {
            let ghost before = list.deep_view();
            match list.pop() {
                Some(last) => {
                    assert(last@ == before.last());
                    if last.as_str().is_empty() {
                        None
                    } else {
                        Some(last)
                    }
                },
                None => None,
            }
        },
        None => None,
    }
}

/// The file name that `text` suggests when read as a URL.
pub fn name_from_url_text(text: &str) -> (name: Option<String>)
    ensures
        text_view(name) == spec_name_from_url_text(text@),
{
    match parse_url(text) {
        Ok(url) => name_from_segments(path_segments(&url)),
        Err(_) => None,
    }
}

} // verus!
