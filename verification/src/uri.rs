use vstd::prelude::*;

verus! {

/// `url::Url`: a parsed URL. Nothing of its inside is looked at here; what
/// is said of one is said over its serialization.
#[verifier::external_type_specification]
#[verifier::external_body]
pub struct ExUrl(url::Url);

/// `url::ParseError`: why a text gave no URL. It is carried, never read.
#[verifier::external_type_specification]
#[verifier::external_body]
pub struct ExParseError(url::ParseError);

/// The serialization of a URL: the text that `Url::as_str` hands out, which
/// determines the URL.
pub uninterp spec fn uri_text(uri: url::Url) -> Seq<char>;

/// What `Url::parse` makes of a text: the serialization of the URL it
/// yields, or `None` where it reports an error.
pub uninterp spec fn uri_parsed(input: Seq<char>) -> Option<Seq<char>>;

/// What `Url::join` makes of a reference against a base URL, given by its
/// serialization: the serialization of the resulting URL, or `None` where it
/// reports an error.
pub uninterp spec fn uri_joined(base: Seq<char>, reference: Seq<char>) -> Option<Seq<char>>;

/// `Url::parse`. The contract only names the outcome: it is `uri_parsed` of
/// the input, an error exactly where that is `None`.
#[verifier::external_body]
pub(crate) fn parse_uri(input: &str) -> (parsed: Result<url::Url, url::ParseError>)
    ensures
        match parsed {
            Ok(uri) => uri_parsed(input@) == Some(uri_text(uri)),
            Err(_) => uri_parsed(input@) is None,
        },
{
    url::Url::parse(input)
}

/// `Url::join`. The contract only names the outcome: it is `uri_joined` of
/// the base's serialization and the reference, an error exactly where that is
/// `None`.
#[verifier::external_body]
pub(crate) fn join_uri(base: &url::Url, reference: &str) -> (joined: Result<
    url::Url,
    url::ParseError,
>)
    ensures
        match joined {
            Ok(uri) => uri_joined(uri_text(*base), reference@) == Some(uri_text(uri)),
            Err(_) => uri_joined(uri_text(*base), reference@) is None,
        },
{
    base.join(reference)
}

/// `Url::to_file_path`, with the path rendered as text. Whether a path comes
/// back, and which, depends on the platform, so nothing is claimed of it.
#[verifier::external_body]
pub(crate) fn file_path_of(uri: &url::Url) -> (path: Option<String>) {
    match uri.to_file_path() {
        Ok(path) => Some(path.to_string_lossy().into_owned()),
        Err(_) => None,
    }
}

} // verus!
