//! What the library takes from other crates: URLs from `url` and JSON text
//! from `serde_json`.
//!
//! Each function here makes one call into one of those crates. What its
//! contract says of that call is not proved; everything built on it is.
use vstd::prelude::*;

verus! {

/// A URL of the `url` crate. Verus sees nothing inside it.
#[verifier::external_type_specification]
#[verifier::external_body]
pub struct ExUrl(url::Url);

/// Why the `url` crate could not read a URL. Verus sees nothing inside it.
#[verifier::external_type_specification]
#[verifier::external_body]
pub struct ExUrlParseError(url::ParseError);

/// A JSON value of `serde_json`. Verus sees nothing inside it.
#[verifier::external_type_specification]
#[verifier::external_body]
pub struct ExJsonValue(serde_json::Value);

/// The characters of a URL: what `Url::as_str` returns.
pub uninterp spec fn url_text(url: url::Url) -> Seq<char>;

/// The path of a URL: what `Url::path` returns.
pub uninterp spec fn url_path(url: url::Url) -> Seq<char>;

/// The query of a URL, without its question mark: what `Url::query` returns.
pub uninterp spec fn url_query(url: url::Url) -> Option<Seq<char>>;

/// The fragment of a URL, without its number sign: what `Url::fragment` returns.
pub uninterp spec fn url_fragment(url: url::Url) -> Option<Seq<char>>;

/// A URL with its path replaced: what `Url::set_path` makes of it.
pub uninterp spec fn url_with_path(url: url::Url, path: Seq<char>) -> url::Url;

/// A reference resolved against a base URL: what `Url::join` returns.
pub uninterp spec fn url_join(base: url::Url, reference: Seq<char>) -> Result<
    url::Url,
    url::ParseError,
>;

/// The URL that a text denotes: what `Url::parse` returns.
pub uninterp spec fn url_parse(text: Seq<char>) -> Result<url::Url, url::ParseError>;

/// The words of a URL error: what its `to_string` returns.
pub uninterp spec fn url_error_text(error: url::ParseError) -> Seq<char>;

/// A JSON value as compact text: what `serde_json::to_string` returns, an error
/// by its words.
pub uninterp spec fn json_text(value: serde_json::Value) -> Result<Seq<char>, Seq<char>>;

/// An ASCII letter or digit.
pub open spec fn is_alphanumeric(c: char) -> bool {
    ||| 'a' <= c <= 'z'
    ||| 'A' <= c <= 'Z'
    ||| '0' <= c <= '9'
}

/// A path that every URL parser keeps as it is: it starts with a slash, has no
/// empty segment but perhaps the last, and is made of letters, digits and
/// `-`, `_`, `~`, `.`, where a full stop follows a letter or a digit, so that
/// no segment is a relative one.
pub open spec fn is_plain_path(path: Seq<char>) -> bool {
    &&& path.len() > 0
    &&& path[0] == '/'
    &&& forall|i: int|
        #![trigger path[i]]
        0 <= i < path.len() ==> {
            ||| is_alphanumeric(path[i])
            ||| path[i] == '-'
            ||| path[i] == '_'
            ||| path[i] == '~'
            ||| path[i] == '.' && i > 0 && is_alphanumeric(path[i - 1])
            ||| path[i] == '/' && (i == 0 || path[i - 1] != '/')
        }
}

/// A reference that names one segment by letters and digits alone.
pub open spec fn is_plain_segment(reference: Seq<char>) -> bool {
    &&& reference.len() > 0
    &&& forall|i: int|
        #![trigger reference[i]]
        0 <= i < reference.len() ==> is_alphanumeric(reference[i])
}

/// Whether a URL is an address of the web: its scheme is `http` or `https`.
pub open spec fn is_web(url: url::Url) -> bool {
    ||| "http://"@.is_prefix_of(url_text(url))
    ||| "https://"@.is_prefix_of(url_text(url))
}

/// Whether the scheme of a URL is `file`.
pub open spec fn is_file(url: url::Url) -> bool {
    "file:"@.is_prefix_of(url_text(url))
}

/// Whether no reference can be resolved against a URL: its scheme and the colon
/// after it are not followed by a slash.
pub open spec fn cannot_be_a_base(url: url::Url) -> bool {
    !exists|i: int|
        #![trigger url_text(url)[i]]
        {
            &&& 0 <= i < url_text(url).len() - 1
            &&& url_text(url)[i] == ':'
            &&& url_text(url)[i + 1] == '/'
            &&& forall|j: int| 0 <= j < i ==> url_text(url)[j] != ':'
        }
}

/// The text of the query of a URL, with its question mark.
pub open spec fn query_text(url: url::Url) -> Seq<char> {
    match url_query(url) {
        Some(query) => seq!['?'] + query,
        None => Seq::empty(),
    }
}

/// The text of the fragment of a URL, with its number sign.
pub open spec fn fragment_text(url: url::Url) -> Seq<char> {
    match url_fragment(url) {
        Some(fragment) => seq!['#'] + fragment,
        None => Seq::empty(),
    }
}

/// The text of a URL up to its path: its scheme, user, password, host and port.
pub open spec fn text_before_path(url: url::Url) -> Seq<char> {
    url_text(url).take(
        url_text(url).len() - fragment_text(url).len() - query_text(url).len() - url_path(
            url,
        ).len(),
    )
}

/// Whether a text ends with the marker that keeps a path with an empty first
/// segment apart from a host.
pub open spec fn ends_with_path_marker(text: Seq<char>) -> bool {
    text.len() >= 2 && text[text.len() - 2] == '/' && text.last() == '.'
}

/// Whether a character stands in a path as it is. Others are escaped.
pub open spec fn is_path_char(c: char) -> bool {
    &&& '!' <= c <= '~'
    &&& c != '"' && c != '#' && c != '<' && c != '>'
    &&& c != '?' && c != '`' && c != '{' && c != '}'
}

/// How many characters of a path are to be escaped.
pub open spec fn unescaped_count(path: Seq<char>) -> nat
    decreases path.len(),
{
    if path.len() == 0 {
        0
    } else if is_path_char(path.last()) {
        unescaped_count(path.drop_last())
    } else {
        unescaped_count(path.drop_last()) + 1
    }
}

/// A full stop, perhaps escaped.
pub open spec fn is_dot(segment: Seq<char>) -> bool {
    segment == "."@ || segment == "%2e"@ || segment == "%2E"@
}

/// A segment that stands for this place or for the one above: one or two full
/// stops, perhaps escaped.
pub open spec fn is_dot_segment(segment: Seq<char>) -> bool {
    is_dot(segment) || exists|i: int|
        0 < i < segment.len() && is_dot(#[trigger] segment.take(i)) && is_dot(segment.skip(i))
}

/// Whether a segment of a path stands for this place or for the one above.
pub open spec fn has_dot_segment(path: Seq<char>) -> bool {
    exists|i: int, j: int|
        {
            &&& 0 <= i < j <= path.len()
            &&& path[i] == '/'
            &&& j == path.len() || path[j] == '/'
            &&& is_dot_segment(#[trigger] path.subrange(i + 1, j))
        }
}

/// Whether the path of a URL is read again as it stands. Addresses of the web
/// hold escaped paths only.
pub open spec fn is_settled(url: url::Url) -> bool {
    &&& !has_dot_segment(url_path(url))
    &&& is_web(url) || !is_file(url) && unescaped_count(url_path(url)) == 0
}

/// Whether the path of a URL loses its first segment when it is read again:
/// the path of a file may not start with an empty one.
pub open spec fn has_spare_slash(url: url::Url) -> bool {
    is_file(url) && "//"@.is_prefix_of(url_path(url))
}

/// How many characters a slash at the end of its path adds to a URL. What was
/// not escaped in the path then is, and takes three characters in place of one.
/// A lone slash is escaped itself if no reference can be resolved against the
/// URL.
pub open spec fn slash_len(url: url::Url) -> nat {
    if !cannot_be_a_base(url) {
        1 + 2 * unescaped_count(url_path(url))
    } else if url_path(url).len() == 0 {
        3
    } else {
        1
    }
}

/// The length of the last part of a URL that the `url` crate holds a position
/// of, if that part comes after the path.
pub open spec fn tail_len(url: url::Url) -> nat {
    if url_fragment(url) is Some {
        fragment_text(url).len()
    } else {
        query_text(url).len()
    }
}

/// Whether a slash can be added to the path of a URL: the `url` crate holds the
/// positions of the parts of a URL in 32 bits.
pub open spec fn slash_fits(url: url::Url) -> bool {
    url_text(url).len() + slash_len(url) <= u32::MAX + tail_len(url)
}

/// The base URL of an Ollama server on this machine.
pub const OLLAMA_DEFAULT_BASE_URL: &'static str = "http://localhost:11434/api";

/// Calls `url::Url::as_str`: the serialization of the URL.
#[verifier::external_body]
pub(crate) fn text_of_url(url: &url::Url) -> (text: &str)
    ensures
        text@ == url_text(*url),
{
    url.as_str()
}

/// Calls `url::Url::path`: the path of the URL, percent-encoded. In the text of
/// the URL the query and the fragment follow it.
#[verifier::external_body]
pub(crate) fn path_of_url(url: &url::Url) -> (path: &str)
    ensures
        path@ == url_path(*url),
        url_text(*url) == text_before_path(*url) + path@ + query_text(*url) + fragment_text(*url),
{
    url.path()
}

/// Calls `url::Url::query`: the query of the URL, if it has one.
#[verifier::external_body]
pub(crate) fn query_of_url(url: &url::Url) -> (query: Option<&str>)
    ensures
        url_query(*url) == (match query {
            Some(text) => Some(text@),
            None => None,
        }),
{
    url.query()
}

/// Calls `url::Url::fragment`: the fragment of the URL, if it has one.
#[verifier::external_body]
pub(crate) fn fragment_of_url(url: &url::Url) -> (fragment: Option<&str>)
    ensures
        url_fragment(*url) == (match fragment {
            Some(text) => Some(text@),
            None => None,
        }),
{
    url.fragment()
}

/// Calls `url::Url::cannot_be_a_base`: whether the scheme of the URL and the
/// colon after it are not followed by a slash.
#[verifier::external_body]
pub(crate) fn url_cannot_be_a_base(url: &url::Url) -> (b: bool)
    ensures
        b == cannot_be_a_base(*url),
{
    url.cannot_be_a_base()
}

/// Calls `url::Url::clone`: a copy of the URL.
#[verifier::external_body]
pub(crate) fn clone_url(url: &url::Url) -> (copy: url::Url)
    ensures
        copy == *url,
{
    url.clone()
}

/// Calls `url::Url::set_path` with the path that the URL has and a slash. The
/// call keeps everything around the path, and with it whether references can be
/// resolved against the URL. If they can, its path then ends with a slash; a
/// plain path and a settled one get the slash and nothing else. The call panics
/// where a position would exceed 32 bits.
#[verifier::external_body]
pub(crate) fn set_url_path(url: &mut url::Url, path: &str)
    requires
        path@ == url_path(*old(url)) + "/"@,
        slash_fits(*old(url)),
    ensures
        *final(url) == url_with_path(*old(url), path@),
        text_before_path(*final(url)) == text_before_path(*old(url)),
        is_web(*final(url)) == is_web(*old(url)),
        is_file(*final(url)) == is_file(*old(url)),
        cannot_be_a_base(*final(url)) == cannot_be_a_base(*old(url)),
        !cannot_be_a_base(*old(url)) ==> {
            &&& url_path(*final(url)).len() > 0
            &&& url_path(*final(url)).last() == '/'
            &&& is_plain_path(path@) || is_settled(*old(url)) ==> url_path(*final(url)) == path@
        },
{
    url.set_path(path)
}

/// Calls `url::Url::join`, which resolves a reference against a base URL. For a
/// plain segment it succeeds exactly if the base URL can be a base, and the
/// result has neither a query nor a fragment. The segment is appended to a path
/// that ends with a slash, and everything before the path of an address of the
/// web stays as it is. So does what comes before a plain path, but for the
/// marker.
#[verifier::external_body]
pub(crate) fn join_url(base: &url::Url, reference: &str) -> (result: Result<
    url::Url,
    url::ParseError,
>)
    ensures
        result == url_join(*base, reference@),
        is_plain_segment(reference@) ==> (result is Ok <==> !cannot_be_a_base(*base)),
        is_plain_segment(reference@) && result is Ok ==> {
            &&& url_query(result->Ok_0) is None
            &&& url_fragment(result->Ok_0) is None
        },
        is_plain_segment(reference@) && result is Ok && url_path(*base).len() > 0 && url_path(
            *base,
        ).last() == '/' && !has_spare_slash(*base) ==> {
            &&& url_path(result->Ok_0) == url_path(*base) + reference@
            &&& is_web(*base) || is_plain_path(url_path(*base)) && !ends_with_path_marker(
                text_before_path(*base),
            ) ==> url_text(result->Ok_0) == text_before_path(*base) + url_path(*base) + reference@
        },
{
    base.join(reference)
}

/// Calls `url::Url::parse`, which reads an absolute URL. The default base URL
/// is one, in the form that the `url` crate writes it, with the path `/api` and
/// nothing after it.
#[verifier::external_body]
pub(crate) fn parse_url(text: &str) -> (result: Result<url::Url, url::ParseError>)
    ensures
        result == url_parse(text@),
        text@ == OLLAMA_DEFAULT_BASE_URL@ ==> {
            &&& result is Ok
            &&& url_text(result->Ok_0) == OLLAMA_DEFAULT_BASE_URL@
            &&& url_path(result->Ok_0) == "/api"@
            &&& url_query(result->Ok_0) is None
            &&& url_fragment(result->Ok_0) is None
        },
{
    url::Url::parse(text)
}

/// Calls `url::ParseError::to_string`: what the error says.
#[verifier::external_body]
pub(crate) fn text_of_url_error(error: &url::ParseError) -> (text: String)
    ensures
        text@ == url_error_text(*error),
{
    error.to_string()
}

/// Calls `serde_json::to_string` on a JSON value: its compact text, or the words
/// of the error. A JSON value always has a text: the keys of its objects are
/// strings, and nothing else in it can fail to be written.
#[verifier::external_body]
pub(crate) fn text_of_json(value: &serde_json::Value) -> (result: Result<String, String>)
    ensures
        json_text(*value) == (match result {
            Ok(text) => Ok::<Seq<char>, Seq<char>>(text@),
            Err(reason) => Err(reason@),
        }),
        result is Ok,
{
    match serde_json::to_string(value) {
        Ok(text) => Ok(text),
        Err(error) => Err(error.to_string()),
    }
}

} // verus!
