//! Absolute URIs, which the `url` crate parses.

use vstd::prelude::*;

verus! {

/// `url::Url`, of which nothing is known here but what the contracts below
/// say.
#[verifier::external_type_specification]
#[verifier::external_body]
pub struct ExUrl(url::Url);

/// `url::ParseError`, of which nothing is known here.
#[verifier::external_type_specification]
#[verifier::external_body]
pub struct ExParseError(url::ParseError);

/// The URL that `url::Url::parse` reads from `text`, and `None` where it
/// reports an error.
pub uninterp spec fn parsed_url(text: Seq<char>) -> Option<url::Url>;

/// `url::Url::parse` parses an absolute URL. The contract claims that the
/// outcome depends on the text alone: an error exactly where `parsed_url` is
/// `None`, and else the URL that it names.
pub assume_specification[ url::Url::parse ](input: &str) -> (parsed: Result<
    url::Url,
    url::ParseError,
>)
    ensures
        match parsed {
            Ok(address) => parsed_url(input@) == Some(address),
            Err(_) => parsed_url(input@) is None,
        },
;

/// The text that `url::Url::as_str` gives for a URL: its serialization.
pub uninterp spec fn url_text(address: url::Url) -> Seq<char>;

/// `url::Url::as_str` returns the serialization of the URL, which the URL
/// holds. The contract gives that text its name.
pub assume_specification<'a>[ url::Url::as_str ](address: &'a url::Url) -> (text: &'a str)
    ensures
        text@ == url_text(*address),
;

} // verus!
