//! The URL that inference requests are sent to.
use url::Url;
use vstd::prelude::*;

use crate::error::{ErrorDetails, ProviderError};
use crate::outside::{
    clone_url, fragment_of_url, join_url, parse_url, path_of_url, query_of_url, set_url_path,
    text_of_url, text_of_url_error, url_cannot_be_a_base, OLLAMA_DEFAULT_BASE_URL,
};

#[allow(unused_imports)]
use crate::error::ErrorView;
#[allow(unused_imports)]
use crate::outside::{
    cannot_be_a_base, ends_with_path_marker, fragment_text, has_spare_slash, is_alphanumeric,
    is_file, is_path_char, is_plain_path, is_settled, is_web, query_text, slash_fits,
    text_before_path, unescaped_count, url_error_text, url_fragment, url_join, url_path, url_query,
    url_text, url_with_path,
};

verus! {

/// Whether a path ends with a slash.
pub open spec fn ends_with_slash(path: Seq<char>) -> bool {
    path.len() > 0 && path.last() == '/'
}

/// A base URL with a slash added to its path, unless its path ends with one.
pub open spec fn slashed(base_url: Url) -> Url {
    if ends_with_slash(url_path(base_url)) {
        base_url
    } else {
        url_with_path(base_url, url_path(base_url) + "/"@)
    }
}

/// Whether the path of a base URL ends with a slash, or a slash can be added to
/// it.
pub open spec fn can_be_slashed(base_url: Url) -> bool {
    ends_with_slash(url_path(base_url)) || slash_fits(base_url)
}

/// What deriving the endpoint of a base URL comes to: `generate` resolved
/// against the base URL with its slash.
pub open spec fn is_generate_url(base_url: Url, result: Result<Url, ProviderError>) -> bool {
    match url_join(slashed(base_url), "generate"@) {
        Ok(url) => result == Ok::<Url, ProviderError>(url),
        Err(error) => result matches Err(e) && e@ == (ErrorView::InvalidBaseUrl {
            message: url_error_text(error),
        }),
    }
}

/// The path of a base URL, with the slash added that it lacks.
pub open spec fn slashed_path(base_url: Url) -> Seq<char> {
    if ends_with_slash(url_path(base_url)) {
        url_path(base_url)
    } else {
        url_path(base_url) + "/"@
    }
}

/// Whether the path of a base URL is continued as it stands. For an address of
/// the web it is, unless the path lacks its slash and a segment of it stands for
/// this place or for the one above.
pub open spec fn keeps_path(base_url: Url) -> bool {
    ||| ends_with_slash(url_path(base_url)) && !has_spare_slash(base_url)
    ||| is_plain_path(url_path(base_url))
    ||| is_settled(base_url)
}

/// Whether what comes before the path of a base URL is kept as it stands. For
/// an address of the web it is.
pub open spec fn keeps_text_before_path(base_url: Url) -> bool {
    ||| is_web(base_url)
    ||| is_plain_path(url_path(base_url)) && !ends_with_path_marker(text_before_path(base_url))
}

/// Where the endpoint of a base URL lies. There is one exactly if references
/// can be resolved against the base URL, as against every address of the web.
/// The base URL with its slash has the same endpoint. The path is continued by
/// `generate`, with what comes before it and without the query and the fragment
/// that come after it.
pub open spec fn is_below_base(base_url: Url, result: Result<Url, ProviderError>) -> bool {
    &&& result is Ok <==> !cannot_be_a_base(base_url)
    &&& is_web(base_url) ==> result is Ok
    &&& result matches Ok(url) ==> {
        &&& ends_with_slash(url_path(slashed(base_url)))
        &&& is_generate_url(slashed(base_url), result)
        &&& url_query(url) is None
        &&& url_fragment(url) is None
        &&& !has_spare_slash(slashed(base_url)) ==> url_path(url) == url_path(slashed(base_url))
            + "generate"@
        &&& keeps_path(base_url) ==> url_path(url) == slashed_path(base_url) + "generate"@
        &&& keeps_path(base_url) && keeps_text_before_path(base_url) ==> url_text(url)
            == text_before_path(base_url) + slashed_path(base_url) + "generate"@
        &&& url_text(base_url) == text_before_path(base_url) + url_path(base_url) + query_text(
            base_url,
        ) + fragment_text(base_url)
    }
}

/// A text has the characters of its prefix.
proof fn lemma_prefix(prefix: Seq<char>, text: Seq<char>)
    requires
        prefix.is_prefix_of(text),
    ensures
        prefix.len() <= text.len(),
        forall|i: int| 0 <= i < prefix.len() ==> #[trigger] text[i] == prefix[i],
{
    assert forall|i: int| 0 <= i < prefix.len() implies #[trigger] text[i] == prefix[i] by {
        assert(text.subrange(0, prefix.len() as int)[i] == text[i]);
    }
}

/// References can be resolved against every address of the web, and none is a
/// file.
pub(crate) proof fn lemma_web(url: Url)
    requires
        is_web(url),
    ensures
        !cannot_be_a_base(url),
        !is_file(url),
{
    reveal_strlit("http://");
    reveal_strlit("https://");
    reveal_strlit("file:");
    if "http://"@.is_prefix_of(url_text(url)) {
        lemma_prefix("http://"@, url_text(url));
        assert(url_text(url)[4] == ':');
    } else {
        lemma_prefix("https://"@, url_text(url));
        assert(url_text(url)[5] == ':');
    }
    if is_file(url) {
        lemma_prefix("file:"@, url_text(url));
        assert(url_text(url)[0] == 'h');
    }
}

/// A plain path has no slash to spare.
proof fn lemma_plain_path_has_no_spare_slash(url: Url)
    requires
        is_plain_path(url_path(url)),
    ensures
        !has_spare_slash(url),
{
    reveal_strlit("//");
    if has_spare_slash(url) {
        lemma_prefix("//"@, url_path(url));
        assert(url_path(url)[1] == '/');
    }
}

/// A plain path stays plain when it gets the slash that it lacks.
proof fn lemma_plain_path_slashed(path: Seq<char>)
    requires
        !ends_with_slash(path),
    ensures
        is_plain_path(path) ==> is_plain_path(path + "/"@),
{
    reveal_strlit("/");
    if is_plain_path(path) {
        let slashed_path = path + "/"@;
        assert forall|i: int| #![trigger slashed_path[i]] 0 <= i < slashed_path.len() implies {
            ||| is_alphanumeric(slashed_path[i])
            ||| slashed_path[i] == '-'
            ||| slashed_path[i] == '_'
            ||| slashed_path[i] == '~'
            ||| slashed_path[i] == '.' && i > 0 && is_alphanumeric(slashed_path[i - 1])
            ||| slashed_path[i] == '/' && (i == 0 || slashed_path[i - 1] != '/')
        } by {
            if i < path.len() {
                assert(slashed_path[i] == path[i]);
            }
        }
    }
}

/// Whether a path ends with a slash.
fn path_ends_with_slash(path: &str) -> (b: bool)
    ensures
        b == ends_with_slash(path@),
{
    let len: usize = path.unicode_len();
    len > 0 && path.get_char(len - 1) == '/'
}

/// The endpoint for inference below a base URL, whether or not the base URL
/// ends with a slash.
pub fn get_generate_url(base_url: &Url) -> (result: Result<Url, ProviderError>)
    requires
        can_be_slashed(*base_url),
    ensures
        is_generate_url(*base_url, result),
        is_below_base(*base_url, result),
{
    let mut url: Url = clone_url(base_url);
    let base_path: &str = path_of_url(base_url);
    proof {
        reveal_strlit("/");
        reveal_strlit("generate");
        if is_web(*base_url) {
            lemma_web(*base_url);
        }
    }
    if !path_ends_with_slash(base_path) {
        let mut path: String = base_path.to_string();
        path.append("/");
        set_url_path(&mut url, path.as_str());
        proof {
            lemma_plain_path_slashed(base_path@);
        }
    }
    proof {
        if is_plain_path(url_path(url)) {
            lemma_plain_path_has_no_spare_slash(url);
        }
    }
    match join_url(&url, "generate") {
        Ok(url) => Ok(url),
        Err(error) => Err(
            ProviderError::new(
                ErrorDetails::InvalidBaseUrl { message: text_of_url_error(&error) },
            ),
        ),
    }
}

/// The base URL of a server that none was configured for.
fn default_base_url() -> (url: Url)
    ensures
        url_text(url) == OLLAMA_DEFAULT_BASE_URL@,
        url_path(url) == "/api"@,
        url_query(url) is None,
        url_fragment(url) is None,
{
    parse_url(OLLAMA_DEFAULT_BASE_URL).unwrap()
}

/// Whether a character stands in a path as it is.
fn check_path_char(c: char) -> (b: bool)
    ensures
        b == is_path_char(c),
{
    '!' <= c && c <= '~' && c != '"' && c != '#' && c != '<' && c != '>' && c != '?' && c != '`'
        && c != '{' && c != '}'
}

/// Counts the characters of a path that are to be escaped.
fn count_unescaped(path: &str) -> (count: usize)
    ensures
        count == unescaped_count(path@),
{
    let len: usize = path.unicode_len();
    let mut count: usize = 0;
    for c in chars: path.chars()
        invariant
            len == path@.len(),
            chars.seq() == path@,
            count == unescaped_count(path@.take(chars.index())),
            count <= chars.index() <= len,
    {
        proof {
            let counted = path@.take(chars.index() + 1);
            assert(counted.drop_last() =~= path@.take(chars.index()));
            assert(counted.last() == c);
        }
        if !check_path_char(c) {
            count = count + 1;
        }
    }
    proof {
        assert(path@.take(path@.len() as int) =~= path@);
    }
    count
}

/// The length of a part of a URL, with the character before it.
fn part_len(part: Option<&str>) -> (len: u128)
    ensures
        len == (match part {
            Some(text) => text@.len() + 1,
            None => 0,
        }),
        len <= usize::MAX + 1,
{
    match part {
        Some(text) => text.unicode_len() as u128 + 1,
        None => 0,
    }
}

/// Whether the path of a base URL ends with a slash, or a slash can be added to
/// it.
fn check_can_be_slashed(base_url: &Url) -> (b: bool)
    ensures
        b == can_be_slashed(*base_url),
{
    let path: &str = path_of_url(base_url);
    if path_ends_with_slash(path) {
        return true;
    }
    let added: u128 = if !url_cannot_be_a_base(base_url) {
        1 + 2 * (count_unescaped(path) as u128)
    } else if path.unicode_len() == 0 {
        3
    } else {
        1
    };
    let fragment: Option<&str> = fragment_of_url(base_url);
    let tail: u128 = if fragment.is_some() {
        part_len(fragment)
    } else {
        part_len(query_of_url(base_url))
    };
    text_of_url(base_url).unicode_len() as u128 + added <= u32::MAX as u128 + tail
}

/// What deriving the endpoint of a configured base URL comes to. Without one it
/// is the endpoint of the server on this machine; one that is too long for a
/// slash to be added to it has no endpoint.
pub open spec fn is_request_url(api_base: Option<Url>, result: Result<Url, ProviderError>) -> bool {
    match api_base {
        None => result matches Ok(url) && url_text(url)
            == "http://localhost:11434/api/generate"@,
        Some(base_url) => if can_be_slashed(base_url) {
            is_generate_url(base_url, result) && is_below_base(base_url, result)
        } else {
            result matches Err(e) && e@ == (ErrorView::InvalidBaseUrl {
                message: "Base URL is too long"@,
            })
        },
    }
}

/// The endpoint for inference below the configured base URL, or below the
/// default one if none is configured.
pub fn get_request_url(api_base: &Option<Url>) -> (result: Result<Url, ProviderError>)
    ensures
        is_request_url(*api_base, result),
{
    match api_base {
        None => {
            let base_url: Url = default_base_url();
            proof {
                reveal_strlit("/");
                reveal_strlit("/api");
                reveal_strlit("generate");
                reveal_strlit("http://localhost:11434/api");
                reveal_strlit("http://localhost:11434/api/generate");
                reveal_strlit("http://");
                reveal_with_fuel(unescaped_count, 5);
                assert("http://"@.is_prefix_of(url_text(base_url)));
                lemma_web(base_url);
                assert(text_before_path(base_url) + slashed_path(base_url) + "generate"@
                    =~= "http://localhost:11434/api/generate"@);
            }
            get_generate_url(&base_url)
        },
        Some(base_url) => {
            if check_can_be_slashed(base_url) {
                get_generate_url(base_url)
            } else {
                Err(
                    ProviderError::new(
                        ErrorDetails::InvalidBaseUrl {
                            message: "Base URL is too long".to_string(),
                        },
                    ),
                )
            }
        },
    }
}

} // verus!
