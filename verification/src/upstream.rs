//! The upstream address: its base URL and the URLs below it.

use reqwest::Url;
use vstd::prelude::*;
use vstd::string::*;

#[allow(unused_imports)]
use crate::text::{optional_text, text_or_fault};

verus! {

/// What `Url::parse` makes of a text: the URL written out, or `None` where the
/// text is no absolute URL.
pub uninterp spec fn url_parse(text: Seq<char>) -> Option<Seq<char>>;

/// What `Url::join` makes of a reference on the URL that `base` is parsed to:
/// the joined URL written out, or the error in words.
pub uninterp spec fn url_join(base: Seq<char>, reference: Seq<char>) -> Result<
    Seq<char>,
    Seq<char>,
>;

/// A URL for HTTP, written out.
pub open spec fn is_web(url: Seq<char>) -> bool {
    "http://"@.is_prefix_of(url) || "https://"@.is_prefix_of(url)
}

/// The scheme, host and port of a URL for HTTP that is written out, with the
/// user that it may name: everything before its path.
pub open spec fn site(url: Seq<char>) -> Seq<char> {
    let start = if "http://"@.is_prefix_of(url) {
        "http://"@.len()
    } else {
        "https://"@.len()
    };
    match url.skip(start as int).index_of_first('/') {
        Some(i) => url.take(start + i),
        None => url,
    }
}

/// A slash, or the backslash that URLs for HTTP take for one.
pub open spec fn is_slash(c: char) -> bool {
    c == '/' || c == '\\'
}

/// A character that is skipped wherever it stands in a URL.
pub open spec fn is_skipped(c: char) -> bool {
    c == '\t' || c == '\n' || c == '\r'
}

/// Whether `text` may begin with two slashes, once the skipped characters are
/// left out: a reference like that names a host.
pub open spec fn may_name_host(text: Seq<char>) -> bool {
    text.len() > 1 && is_slash(text[0]) && (is_slash(text[1]) || is_skipped(text[1]))
}

/// What a request line can ask for: a path, with or without a query, a query
/// alone, the asterisk, or nothing.
pub open spec fn is_request_target(text: Seq<char>) -> bool {
    text.len() == 0 || text[0] == '/' || text[0] == '?' || text[0] == '*'
}

/// `url` has the scheme, host and port of `base`, if that is parsed to a URL for
/// HTTP and `target` is something that a request can ask for.
pub open spec fn stays_upstream(base: Seq<char>, target: Seq<char>, url: Seq<char>) -> bool {
    url_parse(base) is Some && is_web(url_parse(base)->0) && is_request_target(target)
        ==> is_web(url) && site(url) == site(url_parse(base)->0)
}

/// `Url::parse`: its result, written out, depends on the text alone.
#[verifier::external_body]
fn parse_url(text: &str) -> (url: Option<String>)
    ensures
        optional_text(url) == url_parse(text@),
{
    match Url::parse(text) {
        Ok(parsed) => Some(String::from(parsed)),
        Err(_) => None,
    }
}

/// `Url::join` on the URL that `base` is parsed to: its result, written out,
/// depends on the two texts alone. It is an error where `base` is no URL. On a
/// base for HTTP, a reference that is a path, a query or the asterisk, and does
/// not name a host, keeps the scheme, host and port of the base.
#[verifier::external_body]
fn join_url(base: &str, reference: &str) -> (url: Result<String, String>)
    ensures
        text_or_fault(url) == url_join(base@, reference@),
        url_parse(base@) is None ==> url is Err,
        url matches Ok(joined) ==> !may_name_host(reference@) ==> stays_upstream(
            base@,
            reference@,
            joined@,
        ),
{
    match Url::parse(base) {
        Ok(parsed) => match parsed.join(reference) {
            Ok(joined) => Ok(String::from(joined)),
            Err(e) => Err(e.to_string()),
        },
        Err(e) => Err(e.to_string()),
    }
}

/// `text` without the slashes at its end.
pub open spec fn trimmed(text: Seq<char>) -> Seq<char>
    decreases text.len(),
{
    if text.len() > 0 && text.last() == '/' {
        trimmed(text.drop_last())
    } else {
        text
    }
}

/// The base that requests are joined to, for a configured base URL: the URL
/// without the slashes at its end, where that is a URL.
pub open spec fn upstream_base(base_url: Seq<char>) -> Option<Seq<char>> {
    if url_parse(trimmed(base_url)) is Some {
        Some(trimmed(base_url))
    } else {
        None
    }
}

/// The path and query that a request asks for; `/` where it names none.
pub open spec fn requested_target(target: Option<Seq<char>>) -> Seq<char> {
    match target {
        Some(path) => path,
        None => "/"@,
    }
}

/// The reference that a requested target is joined as: the target itself, or,
/// where that might name a host of its own, the same path behind a dot segment,
/// which falls away.
pub open spec fn own_reference(target: Seq<char>) -> Seq<char> {
    if may_name_host(target) {
        "/."@ + target
    } else {
        target
    }
}

/// The reference of a request's target names no host.
pub proof fn lemma_own_reference(target: Seq<char>)
    ensures
        !may_name_host(own_reference(target)),
        is_request_target(target) ==> is_request_target(own_reference(target)),
{
    reveal_strlit("/.");
}

/// `text` without the slashes at its end.
fn trim_slashes(text: &str) -> (rest: String)
    ensures
        rest@ == trimmed(text@),
{
    let mut end: usize = text.unicode_len();
    assert(text@.take(end as int) =~= text@);
    while end > 0 && text.get_char(end - 1) == '/'
        invariant
            end <= text@.len(),
            trimmed(text@) == trimmed(text@.take(end as int)),
        ensures
            end <= text@.len(),
            trimmed(text@) == text@.take(end as int),
        decreases end,
    {
        assert(text@.take(end as int).drop_last() =~= text@.take(end - 1));
        end = end - 1;
    }
    assert(text@.take(end as int) =~= text@.subrange(0, end as int));
    text.substring_char(0, end).to_owned()
}

/// The base that requests are joined to, if the configured base URL is one.
pub fn parse_base(base_url: &str) -> (base: Option<String>)
    ensures
        optional_text(base) == upstream_base(base_url@),
{
    let text = trim_slashes(base_url);
    match parse_url(text.as_str()) {
        Some(_) => Some(text),
        None => None,
    }
}

/// The path and query that a request asks for; `/` where it names none.
pub(crate) fn target_or_root(target: &Option<String>) -> (text: String)
    ensures
        text@ == requested_target(optional_text(*target)),
{
    match target {
        Some(path) => path.clone(),
        None => "/".to_owned(),
    }
}

/// Whether `target` may begin with two slashes.
fn begins_like_host(target: &str) -> (dubious: bool)
    ensures
        dubious == may_name_host(target@),
{
    if target.unicode_len() <= 1 {
        return false;
    }
    let first = target.get_char(0);
    let second = target.get_char(1);
    (first == '/' || first == '\\') && (second == '/' || second == '\\' || second == '\t' || second
        == '\n' || second == '\r')
}

/// The upstream URL of a request for `target`, or why it cannot be joined to
/// `base`. Whatever path is asked for, the request stays with upstream.
pub fn upstream_url(base: &str, target: &Option<String>) -> (url: Result<String, String>)
    ensures
        text_or_fault(url) == url_join(
            base@,
            own_reference(requested_target(optional_text(*target))),
        ),
        url matches Ok(joined) ==> stays_upstream(
            base@,
            requested_target(optional_text(*target)),
            joined@,
        ),
{
    let text = target_or_root(target);
    proof {
        lemma_own_reference(text@);
    }
    if begins_like_host(text.as_str()) {
        let mut reference = "/.".to_owned();
        reference.append(text.as_str());
        join_url(base, reference.as_str())
    } else {
        join_url(base, text.as_str())
    }
}

/// The URL of the usage endpoint, or why it cannot be joined to `base`.
pub(crate) fn usage_url(base: &str) -> (url: Result<String, String>)
    ensures
        text_or_fault(url) == url_join(base@, "/v1/usage"@),
        url matches Ok(joined) ==> stays_upstream(base@, "/v1/usage"@, joined@),
{
    proof {
        reveal_strlit("/v1/usage");
    }
    join_url(base, "/v1/usage")
}

} // verus!
