//! Header filtering and lookup on the header map of the `http` crate.

use axum::http::{HeaderMap, HeaderValue};
use vstd::prelude::*;

use crate::text::same_text;
#[allow(unused_imports)]
use crate::text::{optional_bytes, optional_text};

verus! {

// ---------------------------------------------------------------------------
// The header map
// ---------------------------------------------------------------------------

/// The `http` crate's header map.
#[verifier::external_type_specification]
#[verifier::external_body]
#[verifier::reject_recursive_types(T)]
pub struct ExHeaderMap<T>(axum::http::HeaderMap<T>);

/// The `http` crate's header value.
#[verifier::external_type_specification]
#[verifier::external_body]
pub struct ExHeaderValue(axum::http::HeaderValue);

/// What a header map holds: under each lower-case header name that occurs, the
/// bytes of its values, in the order in which they were added. The order
/// between different names is not part of it.
pub uninterp spec fn header_entries(headers: HeaderMap) -> Map<Seq<char>, Seq<Seq<u8>>>;

/// A header name of at most 64 lower-case letters and hyphens.
pub open spec fn plain_name(name: Seq<char>) -> bool {
    &&& 0 < name.len() <= 64
    &&& forall|i: int|
        0 <= i < name.len() ==> ('a' <= #[trigger] name[i] <= 'z' || name[i] == '-')
}

/// The first value under `name`.
pub open spec fn first_value(entries: Map<Seq<char>, Seq<Seq<u8>>>, name: Seq<char>) -> Option<
    Seq<u8>,
> {
    if entries.contains_key(name) {
        Some(entries[name][0])
    } else {
        None
    }
}

/// A byte that a header value may show as text: printable ASCII or a tab.
pub open spec fn is_visible(byte: u8) -> bool {
    32 <= byte < 127 || byte == 9
}

/// The text of a header value, where all of its bytes are visible.
pub open spec fn value_text(value: Seq<u8>) -> Option<Seq<char>> {
    if forall|i: int| 0 <= i < value.len() ==> is_visible(#[trigger] value[i]) {
        Some(Seq::new(value.len(), |i: int| value[i] as char))
    } else {
        None
    }
}

/// The text of the first value under `name`, where there is one and all of its
/// bytes are visible.
pub open spec fn header_text(
    entries: Map<Seq<char>, Seq<Seq<u8>>>,
    name: Seq<char>,
) -> Option<Seq<char>> {
    match first_value(entries, name) {
        Some(value) => value_text(value),
        None => None,
    }
}

/// The decimal digits of `n`, without leading zeros, in ASCII.
pub open spec fn decimal_digits(n: nat) -> Seq<u8>
    decreases n,
{
    if n < 10 {
        seq![(48 + n) as u8]
    } else {
        decimal_digits(n / 10).push((48 + n % 10) as u8)
    }
}

/// `HeaderMap::remove`: takes a name with all of its values out of the map and
/// leaves the other names as they are. Reports whether the name was there.
#[verifier::external_body]
fn remove_header(headers: &mut HeaderMap, name: &str) -> (removed: bool)
    requires
        plain_name(name@),
    ensures
        removed == header_entries(*old(headers)).contains_key(name@),
        header_entries(*final(headers)) == header_entries(*old(headers)).remove(name@),
{
    headers.remove(name).is_some()
}

/// `HeaderMap::get`: the bytes of the first value under a name, if the name
/// occurs.
#[verifier::external_body]
fn get_header(headers: &HeaderMap, name: &str) -> (value: Option<Vec<u8>>)
    requires
        plain_name(name@),
    ensures
        optional_bytes(value) == first_value(header_entries(*headers), name@),
{
    headers.get(name).map(|value| value.as_bytes().to_vec())
}

/// `HeaderValue::to_str`: the text of a header value, if every byte of it is
/// printable ASCII or a tab. (`HeaderValue::from_bytes`, which makes the value,
/// refuses only bytes that are neither.)
#[verifier::external_body]
fn to_str(value: &[u8]) -> (text: Option<String>)
    ensures
        optional_text(text) == value_text(value@),
{
    match HeaderValue::from_bytes(value) {
        Ok(made) => match made.to_str() {
            Ok(shown) => Some(shown.to_owned()),
            Err(_) => None,
        },
        Err(_) => None,
    }
}

/// `HeaderValue::from` on a number: its decimal digits.
#[verifier::external_body]
pub(crate) fn number_value(n: u64) -> (value: Vec<u8>)
    ensures
        value@ == decimal_digits(n as nat),
{
    HeaderValue::from(n).as_bytes().to_vec()
}

// ---------------------------------------------------------------------------
// Filtering
// ---------------------------------------------------------------------------

/// Hop-by-hop headers that must not be forwarded (RFC 7230, section 6.1).
pub const HOP_BY_HOP: [&'static str; 8] = [
    "connection",
    "keep-alive",
    "proxy-authenticate",
    "proxy-authorization",
    "te",
    "trailers",
    "transfer-encoding",
    "upgrade",
];

/// Whether `name` is one of [`HOP_BY_HOP`].
pub open spec fn is_hop_by_hop(name: Seq<char>) -> bool {
    exists|i: int| 0 <= i < HOP_BY_HOP@.len() && #[trigger] HOP_BY_HOP@[i]@ == name
}

/// The names that a request is forwarded without.
pub open spec fn dropped_from_request(name: Seq<char>) -> bool {
    is_hop_by_hop(name) || name == "host"@ || name == "content-length"@
}

/// The names that a response is handed on without.
pub open spec fn dropped_from_response(name: Seq<char>) -> bool {
    is_hop_by_hop(name)
}

/// The entries without the names that `dropped` selects; every other name keeps
/// its values.
pub open spec fn without(
    entries: Map<Seq<char>, Seq<Seq<u8>>>,
    dropped: spec_fn(Seq<char>) -> bool,
) -> Map<Seq<char>, Seq<Seq<u8>>> {
    Map::new(|name: Seq<char>| entries.contains_key(name) && !dropped(name), |name| entries[name])
}

/// The names that this library looks up or removes are plain.
proof fn lemma_names_are_plain()
    ensures
        forall|i: int| 0 <= i < HOP_BY_HOP@.len() ==> plain_name(#[trigger] HOP_BY_HOP@[i]@),
        plain_name("host"@),
        plain_name("content-length"@),
        plain_name("authorization"@),
        plain_name("x-api-key"@),
        plain_name("retry-after"@),
        plain_name("x-request-id"@),
        plain_name("request-id"@),
{
    reveal_strlit("connection");
    reveal_strlit("keep-alive");
    reveal_strlit("proxy-authenticate");
    reveal_strlit("proxy-authorization");
    reveal_strlit("te");
    reveal_strlit("trailers");
    reveal_strlit("transfer-encoding");
    reveal_strlit("upgrade");
    reveal_strlit("host");
    reveal_strlit("content-length");
    reveal_strlit("authorization");
    reveal_strlit("x-api-key");
    reveal_strlit("retry-after");
    reveal_strlit("x-request-id");
    reveal_strlit("request-id");
}

/// Removes every value under one name.
fn remove_all(headers: &mut HeaderMap, name: &str)
    requires
        plain_name(name@),
    ensures
        header_entries(*final(headers)) == header_entries(*old(headers)).remove(name@),
{
    let ghost before = header_entries(*headers);
    let mut removed: bool = true;
    while removed
        invariant
            plain_name(name@),
            header_entries(*headers) == before || header_entries(*headers) == before.remove(name@),
            !removed ==> header_entries(*headers) == before.remove(name@),
        decreases
            (if header_entries(*headers).contains_key(name@) { 2int } else { 0 })
                + (if removed { 1int } else { 0 }),
    {
        removed = remove_header(headers, name);
        assert(before.remove(name@).remove(name@) =~= before.remove(name@));
    }
}

/// Removes the hop-by-hop headers.
fn strip_hop_by_hop(headers: &mut HeaderMap)
    ensures
        header_entries(*final(headers)) == without(
            header_entries(*old(headers)),
            |name: Seq<char>| is_hop_by_hop(name),
        ),
{
    let ghost before = header_entries(*headers);
    let mut i: usize = 0;
    while i < HOP_BY_HOP.len()
        invariant
            i <= HOP_BY_HOP@.len(),
            header_entries(*headers) == without(
                before,
                |name: Seq<char>|
                    exists|k: int| 0 <= k < i && #[trigger] HOP_BY_HOP@[k]@ == name,
            ),
        decreases HOP_BY_HOP@.len() - i,
    {
        proof {
            lemma_names_are_plain();
        }
        remove_all(headers, HOP_BY_HOP[i]);
        i = i + 1;
        assert(header_entries(*headers) =~= without(
            before,
            |name: Seq<char>| exists|k: int| 0 <= k < i && #[trigger] HOP_BY_HOP@[k]@ == name,
        )) by {
            assert(HOP_BY_HOP@[i - 1]@ == HOP_BY_HOP@[i - 1]@);
        }
    }
    assert(header_entries(*headers) =~= without(before, |name: Seq<char>| is_hop_by_hop(name)));
}

/// Strips the hop-by-hop headers, `host` and `content-length` from a request's
/// headers.
pub fn strip_request_headers(headers: &mut HeaderMap)
    ensures
        header_entries(*final(headers)) == without(
            header_entries(*old(headers)),
            |name: Seq<char>| dropped_from_request(name),
        ),
{
    proof {
        lemma_names_are_plain();
    }
    let ghost before = header_entries(*headers);
    strip_hop_by_hop(headers);
    remove_all(headers, "host");
    remove_all(headers, "content-length");
    assert(header_entries(*headers) =~= without(
        before,
        |name: Seq<char>| dropped_from_request(name),
    ));
}

/// Strips the hop-by-hop headers from a response's headers. `content-length`
/// stays, so that the client knows the size of the body.
pub fn strip_response_headers(headers: &mut HeaderMap)
    ensures
        header_entries(*final(headers)) == without(
            header_entries(*old(headers)),
            |name: Seq<char>| dropped_from_response(name),
        ),
{
    let ghost before = header_entries(*headers);
    strip_hop_by_hop(headers);
    assert(header_entries(*headers) =~= without(
        before,
        |name: Seq<char>| dropped_from_response(name),
    ));
}

// ---------------------------------------------------------------------------
// Lookup
// ---------------------------------------------------------------------------

/// Whether a response with this status and these headers has no body: 204, 304,
/// or a `content-length` of `0`.
pub open spec fn has_empty_body(status: u16, entries: Map<Seq<char>, Seq<Seq<u8>>>) -> bool {
    status == 204 || status == 304 || header_text(entries, "content-length"@) == Some("0"@)
}

/// The text of the first value under `name`, if it is there and can be shown.
pub(crate) fn header_value(headers: &HeaderMap, name: &str) -> (text: Option<String>)
    requires
        plain_name(name@),
    ensures
        optional_text(text) == header_text(header_entries(*headers), name@),
{
    match get_header(headers, name) {
        Some(value) => to_str(value.as_slice()),
        None => None,
    }
}

/// Whether the response has no body.
pub fn is_empty_response_body(status: u16, headers: &HeaderMap) -> (empty: bool)
    ensures
        empty == has_empty_body(status, header_entries(*headers)),
{
    proof {
        lemma_names_are_plain();
    }
    if status == 204 || status == 304 {
        return true;
    }
    match header_value(headers, "content-length") {
        Some(length) => same_text(length.as_str(), "0"),
        None => false,
    }
}

/// The value of `retry-after`, or the empty text.
pub(crate) fn retry_after(headers: &HeaderMap) -> (text: String)
    ensures
        text@ == shown_retry_after(header_entries(*headers)),
{
    proof {
        lemma_names_are_plain();
        reveal_strlit("");
    }
    match header_value(headers, "retry-after") {
        Some(shown) => shown,
        None => "".to_owned(),
    }
}

/// The id that upstream gave the request: `x-request-id`, else `request-id`,
/// else the empty text.
pub(crate) fn upstream_request_id(headers: &HeaderMap) -> (text: String)
    ensures
        text@ == shown_request_id(header_entries(*headers)),
{
    proof {
        lemma_names_are_plain();
        reveal_strlit("");
    }
    match header_value(headers, "x-request-id") {
        Some(shown) => shown,
        None => match header_value(headers, "request-id") {
            Some(shown) => shown,
            None => "".to_owned(),
        },
    }
}

/// The `retry-after` of a response as it is logged.
pub open spec fn shown_retry_after(entries: Map<Seq<char>, Seq<Seq<u8>>>) -> Seq<char> {
    match header_text(entries, "retry-after"@) {
        Some(shown) => shown,
        None => Seq::empty(),
    }
}

/// The upstream request id of a response as it is logged.
pub open spec fn shown_request_id(entries: Map<Seq<char>, Seq<Seq<u8>>>) -> Seq<char> {
    match header_text(entries, "x-request-id"@) {
        Some(shown) => shown,
        None => match header_text(entries, "request-id"@) {
            Some(shown) => shown,
            None => Seq::empty(),
        },
    }
}

/// The credentials of a request, for a usage sample on the same account.
pub struct UsageAuthHeaders {
    pub authorization: Option<Vec<u8>>,
    pub x_api_key: Option<Vec<u8>>,
}

/// The view of [`UsageAuthHeaders`].
pub ghost struct UsageAuthView {
    pub authorization: Option<Seq<u8>>,
    pub x_api_key: Option<Seq<u8>>,
}

impl View for UsageAuthHeaders {
    type V = UsageAuthView;

    open spec fn view(&self) -> UsageAuthView {
        UsageAuthView {
            authorization: optional_bytes(self.authorization),
            x_api_key: optional_bytes(self.x_api_key),
        }
    }
}

impl UsageAuthView {
    /// The credentials among a request's headers.
    pub open spec fn of_request(entries: Map<Seq<char>, Seq<Seq<u8>>>) -> UsageAuthView {
        UsageAuthView {
            authorization: first_value(entries, "authorization"@),
            x_api_key: first_value(entries, "x-api-key"@),
        }
    }

    /// No credential at all.
    pub open spec fn is_empty(self) -> bool {
        self.authorization is None && self.x_api_key is None
    }
}

impl UsageAuthHeaders {
    /// Reads the credentials of a request.
    pub fn from_request(headers: &HeaderMap) -> (auth: UsageAuthHeaders)
        ensures
            auth@ == UsageAuthView::of_request(header_entries(*headers)),
    {
        proof {
            lemma_names_are_plain();
        }
        UsageAuthHeaders {
            authorization: get_header(headers, "authorization"),
            x_api_key: get_header(headers, "x-api-key"),
        }
    }

    /// Whether there is no credential at all.
    pub fn is_empty(&self) -> (empty: bool)
        ensures
            empty == self@.is_empty(),
    {
        self.authorization.is_none() && self.x_api_key.is_none()
    }
}

} // verus!
