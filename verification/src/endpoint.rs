//! Addresses of HTTP endpoints. Whether a text is an address, and how it is
//! written out, is decided by the `url` crate; this module states what its
//! calls return.

use crate::error::Error;
use vstd::prelude::*;
use vstd::string::StringExecFns;

verus! {

/// `url::Url`, a parsed absolute URL. Nothing inside it is visible here;
/// its text is spoken of through [`url_text`].
#[verifier::external_type_specification]
#[verifier::external_body]
pub struct ExUrl(url::Url);

/// `url::ParseError`, the reason why a text is no URL. It is only carried
/// from the parser to its message.
#[verifier::external_type_specification]
#[verifier::external_body]
pub struct ExParseError(url::ParseError);

/// The text of a URL: its serialization.
pub uninterp spec fn url_text(url: url::Url) -> Seq<char>;

/// The text of the URL that `input` parses to; `None` where it is no
/// absolute URL.
pub uninterp spec fn parsed_url(input: Seq<char>) -> Option<Seq<char>>;

/// `Url::parse`: succeeds exactly on the inputs that are an absolute URL, and
/// then holds the URL that the input parses to.
#[verifier::external_body]
pub(crate) fn parse_url(input: &str) -> (parsed: Result<url::Url, url::ParseError>)
    ensures
        match parsed {
            Ok(url) => parsed_url(input@) == Some(url_text(url)),
            Err(_) => parsed_url(input@) is None,
        },
{
    url::Url::parse(input)
}

/// `Url::as_str`: the serialization of the URL.
#[verifier::external_body]
pub(crate) fn url_as_str(url: &url::Url) -> (text: &str)
    ensures
        text@ == url_text(*url),
{
    url.as_str()
}

/// The `Display` text of a `url::ParseError`. Nothing is claimed of it.
#[verifier::external_body]
pub(crate) fn parse_error_text(failure: &url::ParseError) -> (text: String) {
    failure.to_string()
}

/// The address of the resource `path` of the server at `base`: `base`
/// followed by `path`, as the `url` crate reads the two together. `None`
/// where they make no absolute URL.
pub open spec fn endpoint_at(base: Seq<char>, path: Seq<char>) -> Option<Seq<char>> {
    parsed_url(base + path)
}

/// The address of the resource `path` of the server at `base`: `base`
/// followed by `path`. Where the two make no absolute URL the address is a
/// configuration error.
pub fn endpoint(base: &str, path: &str) -> (address: Result<String, Error>)
    ensures
        match address {
            Ok(text) => endpoint_at(base@, path@) == Some(text@),
            Err(error) => endpoint_at(base@, path@) is None && error is ConfigurationError,
        },
{
    let joined = String::from_str(base).concat(path);
    match parse_url(joined.as_str()) {
        Ok(url) => Ok(url_as_str(&url).to_owned()),
        Err(failure) => Err(Error::ConfigurationError(parse_error_text(&failure))),
    }
}

} // verus!
