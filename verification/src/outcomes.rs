//! What single operations give, told by what goes in and what comes out.

use axum::http::HeaderMap;
use vstd::prelude::*;

use crate::config::{
    default_idle_timeout, default_max_wait, default_release_grace, default_shutdown_timeout,
    Config, ConfigDocument, ConfigError, ObservabilityConfig, ThrottleConfig, UsageSampling,
};
use crate::duration::Duration;
use crate::handler::REQUEST_BODY_LIMIT;
use crate::headers::{
    decimal_digits, dropped_from_request, dropped_from_response, first_value, has_empty_body,
    header_entries, header_text, is_empty_response_body, is_hop_by_hop, shown_request_id,
    shown_retry_after, strip_request_headers, strip_response_headers, value_text,
    UsageAuthHeaders, HOP_BY_HOP,
};
use crate::log::{
    is_messages_path, millis_between, millis_of, path_level, Level, LogEvent, ReleaseReason,
    RequestTrace, SampleFailure,
};
use crate::reply::{
    queue_timeout_response, retry_after_secs, upstream_error_response, Reply,
};
use crate::state::{
    is_usable, max_free_permits, max_permits, semaphore_size, AppState, AppView, TrafficSnapshot,
};
use crate::upstream::{
    is_request_target, is_web, own_reference, parse_base, requested_target, site, trimmed,
    upstream_url, url_join, url_parse,
};
use crate::usage::{is_success, UsageResponse};

verus! {

// ---------------------------------------------------------------------------
// Configurations
// ---------------------------------------------------------------------------

/// A setting that the document gives is the setting of the configuration; one
/// that it leaves out has its default: 30 seconds to shut down, 5 minutes in
/// the queue, 2 minutes of silence, 250 milliseconds of grace, samples on 429.
pub proof fn law_settings_are_those_given(document: ConfigDocument, config: Config)
    requires
        call_ensures(Config::from_document, (document,), config),
    ensures
        config.upstream.base_url@ == document.upstream.base_url@,
        config.server.listen == document.server.listen,
        config.throttle.max_in_flight == document.throttle.max_in_flight,
        document.server.shutdown_timeout matches Some(span) ==> config.server.shutdown_timeout@
            == span@,
        document.server.shutdown_timeout is None ==> config.server.shutdown_timeout@
            == 30_000_000_000,
        document.throttle.max_wait matches Some(span) ==> config.throttle.max_wait@ == span@,
        document.throttle.max_wait is None ==> config.throttle.max_wait@ == 300_000_000_000,
        document.throttle.idle_timeout matches Some(span) ==> config.throttle.idle_timeout@
            == span@,
        document.throttle.idle_timeout is None ==> config.throttle.idle_timeout@
            == 120_000_000_000,
        document.throttle.release_grace matches Some(span) ==> config.throttle.release_grace@
            == span@,
        document.throttle.release_grace is None ==> config.throttle.release_grace@ == 250_000_000,
        document.observability matches Some(table) ==> (table.usage_sampling matches Some(sampling)
            ==> config.observability.usage_sampling == sampling),
        document.observability matches Some(table) ==> (table.usage_sampling is None
            ==> config.observability.usage_sampling == UsageSampling::On429),
        document.observability is None ==> config.observability.usage_sampling
            == UsageSampling::On429,
{
}

/// The defaults on their own.
pub proof fn law_defaults(
    max_wait: Duration,
    idle_timeout: Duration,
    release_grace: Duration,
    shutdown_timeout: Duration,
    throttle: ThrottleConfig,
    observability: ObservabilityConfig,
    sampling: UsageSampling,
)
    requires
        call_ensures(default_max_wait, (), max_wait),
        call_ensures(default_idle_timeout, (), idle_timeout),
        call_ensures(default_release_grace, (), release_grace),
        call_ensures(default_shutdown_timeout, (), shutdown_timeout),
        call_ensures(<ThrottleConfig as Default>::default, (), throttle),
        call_ensures(<ObservabilityConfig as Default>::default, (), observability),
        call_ensures(<UsageSampling as Default>::default, (), sampling),
    ensures
        max_wait@ == 300_000_000_000,
        idle_timeout@ == 120_000_000_000,
        release_grace@ == 250_000_000,
        shutdown_timeout@ == 30_000_000_000,
        throttle.max_in_flight == 4,
        throttle.max_wait@ == max_wait@,
        throttle.idle_timeout@ == idle_timeout@,
        throttle.release_grace@ == release_grace@,
        observability.usage_sampling == UsageSampling::On429,
        sampling == UsageSampling::On429,
{
}

/// A parsed document becomes a configuration exactly if it allows at least one
/// request and names a base URL, and then with its own settings.
pub proof fn law_documents_are_checked(
    parsed: Result<ConfigDocument, String>,
    result: Result<Config, ConfigError>,
)
    requires
        call_ensures(Config::parse_str, (parsed,), result),
    ensures
        parsed matches Err(cause) ==> (result matches Err(ConfigError::Parse(given)) && given@
            == cause@),
        parsed matches Ok(document) ==> (result is Ok <==> document.throttle.max_in_flight >= 1
            && document.upstream.base_url@.len() >= 1),
        parsed matches Ok(document) ==> document.throttle.max_in_flight == 0 ==> (result matches Err(
            ConfigError::Invalid(what),
        ) && what@ == "throttle.max_in_flight must be at least 1"@),
        parsed matches Ok(document) ==> document.throttle.max_in_flight >= 1
            && document.upstream.base_url@.len() == 0 ==> (result matches Err(
            ConfigError::Invalid(what),
        ) && what@ == "upstream.base_url must not be empty"@),
        parsed matches Ok(document) ==> (result matches Ok(config) ==> {
            &&& config.upstream.base_url@ == document.upstream.base_url@
            &&& config.server.listen == document.server.listen
            &&& config.throttle.max_in_flight == document.throttle.max_in_flight
            &&& config.server.shutdown_timeout@ == (match document.server.shutdown_timeout {
                Some(span) => span@,
                None => 30_000_000_000,
            })
            &&& config.throttle.max_wait@ == (match document.throttle.max_wait {
                Some(span) => span@,
                None => 300_000_000_000,
            })
            &&& config.throttle.idle_timeout@ == (match document.throttle.idle_timeout {
                Some(span) => span@,
                None => 120_000_000_000,
            })
            &&& config.throttle.release_grace@ == (match document.throttle.release_grace {
                Some(span) => span@,
                None => 250_000_000,
            })
            &&& config.observability.usage_sampling == (match document.observability {
                Some(table) => match table.usage_sampling {
                    Some(sampling) => sampling,
                    None => UsageSampling::On429,
                },
                None => UsageSampling::On429,
            })
        }),
{
}

/// Loading a file that could not be read says which and why; loading one that
/// could be read comes to what its text comes to.
pub proof fn law_files_are_loaded(
    path: &str,
    read: Result<Result<ConfigDocument, String>, String>,
    result: Result<Config, ConfigError>,
)
    requires
        call_ensures(Config::load, (path, read), result),
    ensures
        read matches Err(cause) ==> (result matches Err(ConfigError::Read(file, given)) && file@
            == path@ && given@ == cause@),
        read matches Ok(Err(cause)) ==> (result matches Err(ConfigError::Parse(given)) && given@
            == cause@),
        read matches Ok(Ok(document)) ==> (result is Ok <==> document.throttle.max_in_flight >= 1
            && document.upstream.base_url@.len() >= 1),
        read matches Ok(Ok(document)) ==> document.throttle.max_in_flight == 0 ==> (
        result matches Err(ConfigError::Invalid(what)) && what@
            == "throttle.max_in_flight must be at least 1"@),
        read matches Ok(Ok(document)) ==> document.throttle.max_in_flight >= 1
            && document.upstream.base_url@.len() == 0 ==> (result matches Err(
            ConfigError::Invalid(what),
        ) && what@ == "upstream.base_url must not be empty"@),
        read matches Ok(Ok(document)) ==> (result matches Ok(config) ==> {
            &&& config.upstream.base_url@ == document.upstream.base_url@
            &&& config.server.listen == document.server.listen
            &&& config.throttle.max_in_flight == document.throttle.max_in_flight
            &&& config.server.shutdown_timeout@ == (match document.server.shutdown_timeout {
                Some(span) => span@,
                None => 30_000_000_000,
            })
            &&& config.throttle.max_wait@ == (match document.throttle.max_wait {
                Some(span) => span@,
                None => 300_000_000_000,
            })
            &&& config.throttle.idle_timeout@ == (match document.throttle.idle_timeout {
                Some(span) => span@,
                None => 120_000_000_000,
            })
            &&& config.throttle.release_grace@ == (match document.throttle.release_grace {
                Some(span) => span@,
                None => 250_000_000,
            })
            &&& config.observability.usage_sampling == (match document.observability {
                Some(table) => match table.usage_sampling {
                    Some(sampling) => sampling,
                    None => UsageSampling::On429,
                },
                None => UsageSampling::On429,
            })
        }),
{
}

/// A configuration is refused exactly if it allows no request or names no base
/// URL, and the refusal says which.
pub proof fn law_configurations_are_checked(config: Config, result: Result<(), ConfigError>)
    requires
        call_ensures(Config::validate, (&config,), result),
    ensures
        result is Ok <==> config.throttle.max_in_flight >= 1 && config.upstream.base_url@.len()
            >= 1,
        config.throttle.max_in_flight == 0 ==> (result matches Err(ConfigError::Invalid(what))
            && what@ == "throttle.max_in_flight must be at least 1"@),
        config.throttle.max_in_flight >= 1 && config.upstream.base_url@.len() == 0 ==> (
        result matches Err(ConfigError::Invalid(what)) && what@
            == "upstream.base_url must not be empty"@),
{
}

/// An error in words names its kind and carries the words that it was made of.
pub proof fn law_errors_in_words(error: ConfigError, text: String)
    requires
        call_ensures(ConfigError::message, (&error,), text),
    ensures
        error matches ConfigError::Read(path, cause) ==> text@ == "failed to read config file "@
            + path@ + ": "@ + cause@,
        error matches ConfigError::Parse(cause) ==> text@ == "failed to parse config: "@ + cause@,
        error matches ConfigError::Invalid(what) ==> text@ == "invalid config: "@ + what@,
{
}

// ---------------------------------------------------------------------------
// Spans
// ---------------------------------------------------------------------------

/// A span is what it was made of: whole seconds and nanoseconds, or
/// milliseconds. Its view counts nanoseconds.
pub proof fn law_spans_keep_their_parts(
    n: u64,
    nanos: u32,
    of_parts: Duration,
    of_secs: Duration,
    of_millis: Duration,
    secs_of_parts: u64,
    nanos_of_parts: u32,
    secs_of_secs: u64,
    nanos_of_secs: u32,
    millis_of_millis: u64,
    secs_of_millis: u64,
)
    requires
        nanos < 1_000_000_000,
        call_ensures(Duration::from_parts, (n, nanos), of_parts),
        call_ensures(Duration::from_secs, (n,), of_secs),
        call_ensures(Duration::from_millis, (n,), of_millis),
        call_ensures(Duration::as_secs, (&of_parts,), secs_of_parts),
        call_ensures(Duration::subsec_nanos, (&of_parts,), nanos_of_parts),
        call_ensures(Duration::as_secs, (&of_secs,), secs_of_secs),
        call_ensures(Duration::subsec_nanos, (&of_secs,), nanos_of_secs),
        call_ensures(Duration::as_millis_u64, (&of_millis,), millis_of_millis),
        call_ensures(Duration::as_secs, (&of_millis,), secs_of_millis),
    ensures
        of_parts@ == n * 1_000_000_000 + nanos,
        of_secs@ == n * 1_000_000_000,
        of_millis@ == n * 1_000_000,
        secs_of_parts == n,
        nanos_of_parts == nanos,
        secs_of_secs == n,
        nanos_of_secs == 0,
        millis_of_millis == n,
        secs_of_millis == n / 1000,
{
    assert((n * 1_000_000) as nat / 1_000_000nat == n);
    assert((n * 1_000_000) as nat / 1_000_000_000nat == n / 1000);
}

/// What is read off spans: whole milliseconds, emptiness, order and difference.
pub proof fn law_spans_are_read(
    a: Duration,
    b: Duration,
    secs: u64,
    nanos: u32,
    millis: u64,
    zero: bool,
    reached: bool,
    rest: Duration,
)
    requires
        call_ensures(Duration::as_secs, (&a,), secs),
        call_ensures(Duration::subsec_nanos, (&a,), nanos),
        call_ensures(Duration::as_millis_u64, (&a,), millis),
        call_ensures(Duration::is_zero, (&a,), zero),
        call_ensures(Duration::is_at_least, (&a, b), reached),
        call_ensures(Duration::saturating_sub, (&a, b), rest),
    ensures
        a@ == secs * 1_000_000_000 + nanos,
        nanos < 1_000_000_000,
        a@ < 0x1_0000_0000_0000_0000 * 1_000_000 ==> millis * 1_000_000 <= a@ < (millis + 1)
            * 1_000_000,
        a@ >= 0x1_0000_0000_0000_0000 * 1_000_000 ==> millis == (a@ / 1_000_000)
            % 0x1_0000_0000_0000_0000,
        zero <==> a@ == 0,
        reached <==> a@ >= b@,
        reached ==> rest@ + b@ == a@,
        !reached ==> rest@ == 0,
{
}

// ---------------------------------------------------------------------------
// Headers
// ---------------------------------------------------------------------------

/// The hop-by-hop headers are these eight.
pub proof fn law_hop_by_hop_names(name: Seq<char>)
    ensures
        is_hop_by_hop(name) <==> name == "connection"@ || name == "keep-alive"@ || name
            == "proxy-authenticate"@ || name == "proxy-authorization"@ || name == "te"@ || name
            == "trailers"@ || name == "transfer-encoding"@ || name == "upgrade"@,
{
    assert(HOP_BY_HOP@[0]@ == "connection"@);
    assert(HOP_BY_HOP@[1]@ == "keep-alive"@);
    assert(HOP_BY_HOP@[2]@ == "proxy-authenticate"@);
    assert(HOP_BY_HOP@[3]@ == "proxy-authorization"@);
    assert(HOP_BY_HOP@[4]@ == "te"@);
    assert(HOP_BY_HOP@[5]@ == "trailers"@);
    assert(HOP_BY_HOP@[6]@ == "transfer-encoding"@);
    assert(HOP_BY_HOP@[7]@ == "upgrade"@);
    if is_hop_by_hop(name) {
        let i = choose|i: int| 0 <= i < HOP_BY_HOP@.len() && #[trigger] HOP_BY_HOP@[i]@ == name;
        assert(i == 0 || i == 1 || i == 2 || i == 3 || i == 4 || i == 5 || i == 6 || i == 7);
    }
}

/// The names that a request is forwarded without, and those that a response is
/// handed on without.
pub proof fn law_dropped_names(name: Seq<char>)
    ensures
        dropped_from_request(name) <==> name == "connection"@ || name == "keep-alive"@ || name
            == "proxy-authenticate"@ || name == "proxy-authorization"@ || name == "te"@ || name
            == "trailers"@ || name == "transfer-encoding"@ || name == "upgrade"@ || name
            == "host"@ || name == "content-length"@,
        dropped_from_response(name) <==> name == "connection"@ || name == "keep-alive"@ || name
            == "proxy-authenticate"@ || name == "proxy-authorization"@ || name == "te"@ || name
            == "trailers"@ || name == "transfer-encoding"@ || name == "upgrade"@,
{
    law_hop_by_hop_names(name);
}

/// A request is stripped of the eight hop-by-hop headers, of `host` and of
/// `content-length`. Every other header stays, with all of its values.
pub proof fn law_requests_are_stripped(headers: &mut HeaderMap, name: Seq<char>)
    requires
        call_ensures(strip_request_headers, (headers,), ()),
    ensures
        header_entries(*final(headers)).contains_key(name) <==> header_entries(
            *old(headers),
        ).contains_key(name) && !(name == "connection"@ || name == "keep-alive"@ || name
            == "proxy-authenticate"@ || name == "proxy-authorization"@ || name == "te"@ || name
            == "trailers"@ || name == "transfer-encoding"@ || name == "upgrade"@ || name
            == "host"@ || name == "content-length"@),
        header_entries(*final(headers)).contains_key(name) ==> header_entries(
            *final(headers),
        )[name] == header_entries(*old(headers))[name],
{
    law_dropped_names(name);
}

/// A response is stripped of the eight hop-by-hop headers. Every other header
/// stays, with all of its values.
pub proof fn law_responses_are_stripped(headers: &mut HeaderMap, name: Seq<char>)
    requires
        call_ensures(strip_response_headers, (headers,), ()),
    ensures
        header_entries(*final(headers)).contains_key(name) <==> header_entries(
            *old(headers),
        ).contains_key(name) && !(name == "connection"@ || name == "keep-alive"@ || name
            == "proxy-authenticate"@ || name == "proxy-authorization"@ || name == "te"@ || name
            == "trailers"@ || name == "transfer-encoding"@ || name == "upgrade"@),
        header_entries(*final(headers)).contains_key(name) ==> header_entries(
            *final(headers),
        )[name] == header_entries(*old(headers))[name],
{
    law_dropped_names(name);
}

/// A header value can be shown as text exactly if all of its bytes are printable
/// ASCII or tabs, and then byte for byte.
pub proof fn law_visible_values(value: Seq<u8>)
    ensures
        value_text(value) is Some <==> forall|i: int|
            0 <= i < value.len() ==> (32 <= #[trigger] value[i] <= 126 || value[i] == 9),
        value_text(value) matches Some(text) ==> text.len() == value.len() && forall|i: int|
            0 <= i < value.len() ==> (#[trigger] text[i]) as int == value[i] as int,
{
    if value_text(value) is Some {
        assert forall|i: int| 0 <= i < value.len() implies (32 <= #[trigger] value[i] <= 126
            || value[i] == 9) by {}
    }
}

/// The text `0` is the value of the one byte `0`.
proof fn lemma_zero(value: Seq<u8>)
    ensures
        value_text(value) == Some("0"@) <==> value == seq![48u8],
{
    reveal_strlit("0");
    assert("0"@.len() == 1 && "0"@[0] == '0');
    if value_text(value) == Some("0"@) {
        law_visible_values(value);
        assert(value =~= seq![48u8]);
    }
    if value == seq![48u8] {
        assert(value_text(value)->0 =~= "0"@);
    }
}

/// The first value of a header is the one that was added first; a header that
/// does not occur has none.
pub proof fn law_first_values(entries: Map<Seq<char>, Seq<Seq<u8>>>, name: Seq<char>)
    ensures
        first_value(entries, name) is Some <==> entries.contains_key(name),
        entries.contains_key(name) ==> first_value(entries, name) == Some(entries[name][0]),
        entries.contains_key(name) ==> header_text(entries, name) == value_text(entries[name][0]),
        !entries.contains_key(name) ==> header_text(entries, name) is None,
{
}

/// A response has no body exactly if its status is 204 or 304, or the first
/// value of its `content-length` is the one byte `0`.
pub proof fn law_empty_responses(status: u16, headers: &HeaderMap, empty: bool)
    requires
        call_ensures(is_empty_response_body, (status, headers), empty),
    ensures
        empty <==> status == 204 || status == 304 || (header_entries(*headers).contains_key(
            "content-length"@,
        ) && header_entries(*headers)["content-length"@][0] == seq![48u8]),
{
    lemma_empty_body(status, header_entries(*headers));
}

/// When a response has no body.
pub proof fn lemma_empty_body(status: u16, entries: Map<Seq<char>, Seq<Seq<u8>>>)
    ensures
        has_empty_body(status, entries) <==> status == 204 || status == 304 || (
        entries.contains_key("content-length"@) && entries["content-length"@][0] == seq![48u8]),
{
    if entries.contains_key("content-length"@) {
        lemma_zero(entries["content-length"@][0]);
    }
}

/// What the log shows of `retry-after` and of the request id: the text of the
/// first value, `x-request-id` before `request-id`, and nothing where there is
/// none that can be shown.
pub proof fn law_shown_headers(entries: Map<Seq<char>, Seq<Seq<u8>>>)
    ensures
        header_text(entries, "retry-after"@) matches Some(text) ==> shown_retry_after(entries)
            == text,
        header_text(entries, "retry-after"@) is None ==> shown_retry_after(entries).len() == 0,
        header_text(entries, "x-request-id"@) matches Some(text) ==> shown_request_id(entries)
            == text,
        header_text(entries, "x-request-id"@) is None ==> (header_text(
            entries,
            "request-id"@,
        ) matches Some(text) ==> shown_request_id(entries) == text),
        header_text(entries, "x-request-id"@) is None && header_text(entries, "request-id"@)
            is None ==> shown_request_id(entries).len() == 0,
{
}

/// The credentials of a request are the first values of `authorization` and
/// `x-api-key`, byte for byte.
pub proof fn law_credentials_are_read(headers: &HeaderMap, auth: UsageAuthHeaders, empty: bool)
    requires
        call_ensures(UsageAuthHeaders::from_request, (headers,), auth),
        call_ensures(UsageAuthHeaders::is_empty, (&auth,), empty),
    ensures
        auth.authorization is Some <==> header_entries(*headers).contains_key("authorization"@),
        auth.authorization matches Some(value) ==> value@ == header_entries(
            *headers,
        )["authorization"@][0],
        auth.x_api_key is Some <==> header_entries(*headers).contains_key("x-api-key"@),
        auth.x_api_key matches Some(value) ==> value@ == header_entries(*headers)["x-api-key"@][0],
        empty <==> !header_entries(*headers).contains_key("authorization"@) && !header_entries(
            *headers,
        ).contains_key("x-api-key"@),
{
}

// ---------------------------------------------------------------------------
// The upstream address
// ---------------------------------------------------------------------------

/// A text without the slashes at its end is what is left when nothing but
/// slashes is taken from its end, and all of them.
pub proof fn law_slashes_are_trimmed(text: Seq<char>)
    ensures
        trimmed(text).is_prefix_of(text),
        forall|i: int| trimmed(text).len() <= i < text.len() ==> #[trigger] text[i] == '/',
        trimmed(text).len() > 0 ==> trimmed(text).last() != '/',
    decreases text.len(),
{
    if text.len() > 0 && text.last() == '/' {
        law_slashes_are_trimmed(text.drop_last());
        assert forall|i: int| trimmed(text).len() <= i < text.len() implies #[trigger] text[i]
            == '/' by {
            if i < text.len() - 1 {
                assert(text.drop_last()[i] == text[i]);
            }
        }
    }
}

/// The base of all requests is the configured URL but for the slashes at its
/// end, exactly if that is a URL.
pub proof fn law_base_is_the_configured_one(base_url: &str, base: Option<String>)
    requires
        call_ensures(parse_base, (base_url,), base),
    ensures
        base is Some <==> url_parse(trimmed(base_url@)) is Some,
        base matches Some(text) ==> url_parse(text@) is Some,
        base matches Some(text) ==> text@.is_prefix_of(base_url@) && (forall|i: int|
            text@.len() <= i < base_url@.len() ==> #[trigger] base_url@[i] == '/') && (
        text@.len() > 0 ==> text@.last() != '/'),
{
    law_slashes_are_trimmed(base_url@);
}

/// A request for a path that begins with a single slash is joined to the base as
/// it is, one without a target as `/`.
pub proof fn law_targets_are_joined(base: &str, target: Option<String>, url: Result<String, String>)
    requires
        call_ensures(upstream_url, (base, &target), url),
    ensures
        target is None ==> (url is Ok <==> url_join(base@, "/"@) is Ok) && (
        url matches Ok(text) ==> Ok::<Seq<char>, Seq<char>>(text@) == url_join(base@, "/"@)),
        target matches Some(path) ==> path@.len() > 0 && path@[0] == '/' && (path@.len() == 1 || !(
        path@[1] == '/' || path@[1] == '\\' || path@[1] == '\t' || path@[1] == '\n' || path@[1]
            == '\r')) ==> (url is Ok <==> url_join(base@, path@) is Ok) && (url matches Ok(text)
            ==> Ok::<Seq<char>, Seq<char>>(text@) == url_join(base@, path@)),
        target matches Some(path) ==> path@.len() > 1 && path@[0] == '/' && (path@[1] == '/'
            || path@[1] == '\\') ==> (url is Ok <==> url_join(base@, "/."@ + path@) is Ok) && (
        url matches Ok(text) ==> Ok::<Seq<char>, Seq<char>>(text@) == url_join(
            base@,
            "/."@ + path@,
        )),
        target matches Some(path) ==> path@.len() == 0 || path@[0] == '?' || path@[0] == '*' ==> (
        url matches Ok(text) ==> Ok::<Seq<char>, Seq<char>>(text@) == url_join(base@, path@)),
{
    reveal_strlit("/");
    assert("/"@.len() == 1);
}

/// The target of a request, and the reference that it is joined as.
pub proof fn law_references(target: Option<Seq<char>>)
    ensures
        target is None ==> requested_target(target) == "/"@,
        target matches Some(path) ==> requested_target(target) == path,
        target matches Some(path) ==> own_reference(path) == path || own_reference(path) == "/."@
            + path,
        target matches Some(path) ==> (own_reference(path) != path <==> path.len() > 1 && (path[0]
            == '/' || path[0] == '\\') && (path[1] == '/' || path[1] == '\\' || path[1] == '\t'
            || path[1] == '\n' || path[1] == '\r')),
{
    reveal_strlit("/.");
    if let Some(path) = target {
        assert(("/."@ + path).len() == path.len() + 2);
    }
}

/// A request can ask for a path, a query, the asterisk or nothing, and for
/// nothing else.
pub proof fn law_request_targets(text: Seq<char>)
    ensures
        is_request_target(text) <==> text.len() == 0 || text[0] == '/' || text[0] == '?' || text[0]
            == '*',
{
}

/// The site of a URL for HTTP is all of it before its path.
pub proof fn law_site_is_what_precedes_the_path(authority: Seq<char>, path: Seq<char>)
    requires
        !authority.contains('/'),
    ensures
        is_web("http://"@ + authority + "/"@ + path),
        is_web("https://"@ + authority + "/"@ + path),
        site("http://"@ + authority + "/"@ + path) == "http://"@ + authority,
        site("https://"@ + authority + "/"@ + path) == "https://"@ + authority,
{
    reveal_strlit("http://");
    reveal_strlit("https://");
    lemma_site("http://"@, authority, path);
    lemma_site("https://"@, authority, path);
    let secure = "https://"@ + authority + "/"@ + path;
    assert(secure[4] == 's');
    if "http://"@.is_prefix_of(secure) {
        assert("http://"@[4] == secure.subrange(0, 7)[4]);
    }
    let plain = "http://"@ + authority + "/"@ + path;
    assert("http://"@ =~= plain.subrange(0, 7));
    assert("https://"@ =~= secure.subrange(0, 8));
    assert(plain.take(7 + authority.len() as int) =~= "http://"@ + authority);
    assert(secure.take(8 + authority.len() as int) =~= "https://"@ + authority);
}

/// The first slash behind a scheme is where the path begins.
proof fn lemma_site(scheme: Seq<char>, authority: Seq<char>, path: Seq<char>)
    requires
        !authority.contains('/'),
    ensures
        (scheme + authority + "/"@ + path).skip(scheme.len() as int).index_of_first('/') == Some(
            authority.len() as int,
        ),
{
    reveal_strlit("/");
    let url = scheme + authority + "/"@ + path;
    let rest = url.skip(scheme.len() as int);
    let n = authority.len() as int;
    assert(rest[n] == '/');
    assert(rest.contains('/'));
    rest.index_of_first_ensures('/');
    assert forall|i: int| 0 <= i < n implies rest[i] != '/' by {
        assert(rest[i] == authority[i]);
    }
}

// ---------------------------------------------------------------------------
// Replies
// ---------------------------------------------------------------------------

/// The number that decimal digits in ASCII stand for.
pub open spec fn number_of(digits: Seq<u8>) -> int
    decreases digits.len(),
{
    if digits.len() == 0 {
        0
    } else {
        10 * number_of(digits.drop_last()) + digits.last() - 48
    }
}

/// The decimal digits of a number are digits and stand for it.
pub proof fn lemma_digits(n: nat)
    ensures
        number_of(decimal_digits(n)) == n,
        decimal_digits(n).len() > 0,
        forall|i: int|
            0 <= i < decimal_digits(n).len() ==> 48
                <= #[trigger] decimal_digits(n)[i] <= 57,
    decreases n,
{
    let digits = decimal_digits(n);
    if n < 10 {
        assert(digits.drop_last() =~= Seq::<u8>::empty());
        assert(number_of(digits.drop_last()) == 0);
    } else {
        lemma_digits(n / 10);
        assert(digits.drop_last() =~= decimal_digits(n / 10));
    }
}

/// A client that got no permit gets 503, a line that says so, and in
/// `Retry-After`, in decimal digits, the whole seconds that it might have
/// waited, or 1 where they are less.
pub proof fn law_queue_timeout_reply(max_wait: Duration, reply: Reply)
    requires
        call_ensures(queue_timeout_response, (max_wait,), reply),
    ensures
        reply.status == 503,
        reply.body@ == "throttle: queue timeout\n"@,
        reply.retry_after matches Some(digits) && {
            &&& forall|i: int| 0 <= i < digits@.len() ==> 48 <= #[trigger] digits@[i] <= 57
            &&& max_wait@ < 2_000_000_000 ==> number_of(digits@) == 1
            &&& max_wait@ >= 1_000_000_000 ==> number_of(digits@) * 1_000_000_000 <= max_wait@ < (
            number_of(digits@) + 1) * 1_000_000_000
        },
{
    lemma_digits(retry_after_secs(max_wait));
}

/// A client whose request could not be passed on gets 502 and a line that says
/// so.
pub proof fn law_upstream_error_reply(reply: Reply)
    requires
        call_ensures(upstream_error_response, (), reply),
    ensures
        reply.status == 502,
        reply.retry_after is None,
        reply.body@ == "throttle: upstream error\n"@,
{
}

/// The limit on the body of a request is 10 MiB.
pub proof fn law_body_limit()
    ensures
        REQUEST_BODY_LIMIT == 10 * 1024 * 1024,
{
}

// ---------------------------------------------------------------------------
// The log
// ---------------------------------------------------------------------------

/// The messages endpoint is `/v1/messages` and nothing else. Its ordinary events
/// are shown, those of other paths are for debugging.
pub proof fn law_messages_are_shown(path: &str, messages: bool)
    requires
        call_ensures(is_messages_path, (path,), messages),
    ensures
        messages <==> path@ == "/v1/messages"@,
        path_level(path@) == Level::Info <==> path@ == "/v1/messages"@,
        path_level(path@) == Level::Debug <==> path@ != "/v1/messages"@,
{
}

/// The milliseconds that are logged are the whole ones between two moments.
pub proof fn law_logged_milliseconds(from: Duration, to: Duration)
    ensures
        to@ < from@ ==> millis_between(from, to) == 0,
        from@ <= to@ < from@ + 0x1_0000_0000_0000_0000 * 1_000_000 ==> millis_between(from, to)
            * 1_000_000 <= to@ - from@ < (millis_between(from, to) + 1) * 1_000_000,
        to@ < 0x1_0000_0000_0000_0000 * 1_000_000 ==> millis_of(to) * 1_000_000 <= to@ < (millis_of(
            to,
        ) + 1) * 1_000_000,
        from@ <= to@ ==> millis_between(from, to) as int == ((to@ - from@) / 1_000_000)
            % 0x1_0000_0000_0000_0000,
        millis_of(to) as int == (to@ as int / 1_000_000) % 0x1_0000_0000_0000_0000,
{
}

/// The reasons of a release, in words.
pub proof fn law_release_reasons_in_words(reason: ReleaseReason, text: &'static str)
    requires
        call_ensures(ReleaseReason::as_str, (&reason,), text),
    ensures
        reason == ReleaseReason::Complete ==> text@ == "complete"@,
        reason == ReleaseReason::StreamError ==> text@ == "stream_error"@,
        reason == ReleaseReason::IdleTimeout ==> text@ == "idle_timeout"@,
        reason == ReleaseReason::ClientDrop ==> text@ == "client_drop"@,
        reason == ReleaseReason::InvalidUpstreamPath ==> text@ == "invalid_upstream_path"@,
        reason == ReleaseReason::UpstreamSendError ==> text@ == "upstream_send_error"@,
{
}

/// The failures of a sample, in words.
pub proof fn law_sample_failures_in_words(failure: SampleFailure, text: &'static str)
    requires
        call_ensures(SampleFailure::as_str, (&failure,), text),
    ensures
        failure == SampleFailure::InvalidUsageUrl ==> text@ == "invalid_usage_url"@,
        failure == SampleFailure::SendFailed ==> text@ == "send_failed"@,
        failure == SampleFailure::DecodeFailed ==> text@ == "decode_failed"@,
{
}

/// The names of the events.
pub proof fn law_event_names(event: LogEvent<String>, name: &'static str)
    requires
        call_ensures(LogEvent::<String>::name, (&event,), name),
    ensures
        event is RequestReceived ==> name@ == "request_received"@,
        event is PermitAcquired ==> name@ == "permit_acquired"@,
        event is QueueTimeout ==> name@ == "queue_timeout"@,
        event is SemaphoreClosed ==> name@ == "semaphore_closed"@,
        event is UpstreamHeaders ==> name@ == "upstream_headers"@,
        event is UpstreamSendError ==> name@ == "upstream_send_error"@,
        event is UpstreamStreamError ==> name@ == "upstream_stream_error"@,
        event is StreamIdleTimeout ==> name@ == "stream_idle_timeout"@,
        event is PermitReleaseScheduled ==> name@ == "permit_release_scheduled"@,
        event is PermitReleased ==> name@ == "permit_released"@,
        event is RemoteUsageSampleSkipped ==> name@ == "remote_usage_sample_skipped"@,
        event is RemoteUsageSampleRefused ==> name@ == "remote_usage_sample_failed"@,
        event is RemoteUsageSampleFailed ==> name@ == "remote_usage_sample_failed"@,
        event is RemoteUsageSample ==> name@ == "remote_usage_sample"@,
{
}

/// The labels of the events: what set them off, and for what reason.
pub proof fn law_event_labels(
    event: LogEvent<String>,
    trigger: Option<&'static str>,
    reason: Option<&'static str>,
)
    requires
        call_ensures(LogEvent::<String>::trigger, (&event,), trigger),
        call_ensures(LogEvent::<String>::reason, (&event,), reason),
    ensures
        trigger is Some <==> event is RemoteUsageSampleSkipped || event is RemoteUsageSampleRefused
            || event is RemoteUsageSampleFailed || event is RemoteUsageSample,
        trigger matches Some(text) ==> text@ == "upstream_429"@,
        reason is Some <==> event is PermitReleaseScheduled || event is PermitReleased
            || event is RemoteUsageSampleSkipped || event is RemoteUsageSampleFailed,
        event is RemoteUsageSampleSkipped ==> (reason matches Some(text) && text@
            == "missing_auth_header"@),
        event matches LogEvent::PermitReleaseScheduled { reason: why, .. } ==> (
        reason matches Some(text) && text@ == why.text()),
        event matches LogEvent::PermitReleased { reason: why, .. } ==> (reason matches Some(text)
            && text@ == why.text()),
        event matches LogEvent::RemoteUsageSampleFailed { failure, .. } ==> (
        reason matches Some(text) && text@ == failure.text()),
{
}

/// The trace of a request that arrives: the next id, its path and the moment.
/// Nothing but the next id changes in the state.
pub proof fn law_traces_are_numbered(
    state: &mut AppState,
    path: String,
    now: Duration,
    trace: RequestTrace,
)
    requires
        call_ensures(RequestTrace::new, (state, path, now), trace),
    ensures
        trace.request_id == old(state)@.next_request_id,
        trace.path@ == path@,
        trace.started_at == now,
        old(state)@.next_request_id < u64::MAX ==> final(state)@.next_request_id == old(
            state,
        )@.next_request_id + 1,
        final(state)@ == (AppView {
            next_request_id: final(state)@.next_request_id,
            ..old(state)@
        }),
{
}

// ---------------------------------------------------------------------------
// The state
// ---------------------------------------------------------------------------

/// A state that is made of a configuration has the settings of it, a semaphore
/// of exactly as many permits as requests may be in flight, no request yet, and
/// gives out ids from 1 on.
pub proof fn law_states_have_their_settings(
    config: Config,
    state: AppState,
    limit: usize,
    max_wait: Duration,
    idle_timeout: Duration,
    release_grace: Duration,
    sampling: UsageSampling,
    base: &str,
    queued: usize,
    active: usize,
    pending: usize,
)
    requires
        call_ensures(AppState::new, (&config,), state),
        call_ensures(AppState::max_in_flight, (&state,), limit),
        call_ensures(AppState::max_wait, (&state,), max_wait),
        call_ensures(AppState::idle_timeout, (&state,), idle_timeout),
        call_ensures(AppState::release_grace, (&state,), release_grace),
        call_ensures(AppState::usage_sampling, (&state,), sampling),
        call_ensures(AppState::upstream_base, (&state,), base),
        call_ensures(AppState::queued, (&state,), queued),
        call_ensures(AppState::active_in_flight, (&state,), active),
        call_ensures(AppState::grace_pending, (&state,), pending),
    ensures
        semaphore_size(state@.semaphore) == config.throttle.max_in_flight,
        limit == config.throttle.max_in_flight,
        max_wait == config.throttle.max_wait,
        idle_timeout == config.throttle.idle_timeout,
        release_grace == config.throttle.release_grace,
        sampling == config.observability.usage_sampling,
        base@ == trimmed(config.upstream.base_url@),
        queued == 0,
        active == 0,
        pending == 0,
        state@.next_request_id == 1,
{
}

/// A state that is made of a configuration and a base has the settings of the
/// one and joins requests to the other.
pub proof fn law_states_have_their_base(config: Config, base: String, state: AppState)
    requires
        call_ensures(AppState::with_base, (base, &config), state),
    ensures
        semaphore_size(state@.semaphore) == config.throttle.max_in_flight,
        state@.upstream_base == base@,
        state@.max_in_flight == config.throttle.max_in_flight,
        state@.max_wait == config.throttle.max_wait,
        state@.idle_timeout == config.throttle.idle_timeout,
        state@.release_grace == config.throttle.release_grace,
        state@.usage_sampling == config.observability.usage_sampling,
        state@.next_request_id == 1,
        state@.active_in_flight == 0,
        state@.grace_pending == 0,
        state@.queued == 0,
{
}

/// A state can be made of a configuration exactly if its base is a URL and a
/// semaphore can have as many permits as requests may be in flight.
pub proof fn law_usable_configurations(config: Config, state: Option<AppState>)
    requires
        call_ensures(AppState::from_config, (&config,), state),
    ensures
        is_usable(config) <==> url_parse(trimmed(config.upstream.base_url@)) is Some
            && config.throttle.max_in_flight <= usize::MAX / 8,
        state is Some <==> url_parse(trimmed(config.upstream.base_url@)) is Some
            && config.throttle.max_in_flight <= usize::MAX / 8,
        state matches Some(made) ==> {
            &&& semaphore_size(made@.semaphore) == config.throttle.max_in_flight
            &&& made@.upstream_base == trimmed(config.upstream.base_url@)
            &&& made@.max_in_flight == config.throttle.max_in_flight
            &&& made@.max_wait == config.throttle.max_wait
            &&& made@.idle_timeout == config.throttle.idle_timeout
            &&& made@.release_grace == config.throttle.release_grace
            &&& made@.usage_sampling == config.observability.usage_sampling
            &&& made@.next_request_id == 1
            &&& made@.active_in_flight == 0
            &&& made@.grace_pending == 0
            &&& made@.queued == 0
        },
{
}

/// A snapshot shows the counters as they are, and as held what the free permits
/// leave of the limit.
pub proof fn law_snapshots_show_the_counters(app: AppView, snapshot: TrafficSnapshot)
    requires
        app.shows(snapshot),
    ensures
        snapshot.queued == app.queued,
        snapshot.active_in_flight == app.active_in_flight,
        snapshot.grace_pending == app.grace_pending,
        snapshot.available_permits <= app.max_in_flight ==> snapshot.held_permits
            == app.max_in_flight - snapshot.available_permits,
        snapshot.available_permits > app.max_in_flight ==> snapshot.held_permits == 0,
        snapshot.available_permits <= usize::MAX / 2,
        max_free_permits() == usize::MAX / 2,
        max_permits() == usize::MAX / 8,
{
}

/// What the state itself shows: its counters, and the number of free permits
/// that it is given or reads.
pub proof fn law_states_show_their_counters(
    state: AppState,
    available: usize,
    snapshot: TrafficSnapshot,
    shown: TrafficSnapshot,
    free: usize,
    queued: usize,
    active: usize,
    pending: usize,
    limit: usize,
)
    requires
        call_ensures(AppState::snapshot_with, (&state, available), snapshot),
        call_ensures(AppState::snapshot, (&state,), shown),
        call_ensures(AppState::available_permits, (&state,), free),
        call_ensures(AppState::queued, (&state,), queued),
        call_ensures(AppState::active_in_flight, (&state,), active),
        call_ensures(AppState::grace_pending, (&state,), pending),
        call_ensures(AppState::max_in_flight, (&state,), limit),
    ensures
        snapshot.available_permits == available,
        available <= limit ==> snapshot.held_permits == limit - available,
        available > limit ==> snapshot.held_permits == 0,
        snapshot.queued == queued,
        snapshot.active_in_flight == active,
        snapshot.grace_pending == pending,
        shown.queued == queued,
        shown.active_in_flight == active,
        shown.grace_pending == pending,
        shown.available_permits <= limit ==> shown.available_permits + shown.held_permits == limit,
        shown.available_permits > limit ==> shown.held_permits == 0,
        free <= usize::MAX / 2,
        queued == state@.queued,
        active == state@.active_in_flight,
        pending == state@.grace_pending,
        limit == state@.max_in_flight,
{
}

/// How the counters move: one more in the queue, one less, one from the queue
/// into flight, one out of flight and, where there is a grace, into it, and one
/// out of the grace. Nothing else of the state moves with them.
pub proof fn law_counters_move_by_one(app: AppView)
    ensures
        app.queued < usize::MAX ==> app.entered_queue() == (AppView {
            queued: (app.queued + 1) as usize,
            ..app
        }),
        app.queued > 0 ==> app.left_queue() == (AppView { queued: (app.queued - 1) as usize, ..app }),
        app.queued > 0 && app.active_in_flight < usize::MAX ==> app.granted() == (AppView {
            queued: (app.queued - 1) as usize,
            active_in_flight: (app.active_in_flight + 1) as usize,
            ..app
        }),
        app.active_in_flight > 0 && app.release_grace@ == 0 ==> app.released() == (AppView {
            active_in_flight: (app.active_in_flight - 1) as usize,
            ..app
        }),
        app.active_in_flight > 0 && app.release_grace@ > 0 && app.grace_pending < usize::MAX
            ==> app.released() == (AppView {
            active_in_flight: (app.active_in_flight - 1) as usize,
            grace_pending: (app.grace_pending + 1) as usize,
            ..app
        }),
        app.grace_pending > 0 ==> app.grace_over() == (AppView {
            grace_pending: (app.grace_pending - 1) as usize,
            ..app
        }),
        app.next_request_id < u64::MAX ==> app.numbered() == (AppView {
            next_request_id: (app.next_request_id + 1) as u64,
            ..app
        }),
{
}

/// The counters wrap around at their ends, as machine counters do.
pub proof fn law_counters_wrap(app: AppView)
    ensures
        app.queued == usize::MAX ==> app.entered_queue().queued == 0,
        app.queued == 0 ==> app.left_queue().queued == usize::MAX && app.granted().queued
            == usize::MAX,
        app.active_in_flight == usize::MAX ==> app.granted().active_in_flight == 0,
        app.active_in_flight == 0 ==> app.released().active_in_flight == usize::MAX,
        app.grace_pending == usize::MAX && app.release_grace@ > 0
            ==> app.released().grace_pending == 0,
        app.grace_pending == 0 ==> app.grace_over().grace_pending == usize::MAX,
        app.next_request_id == u64::MAX ==> app.numbered().next_request_id == 0,
{
}

// ---------------------------------------------------------------------------
// Usage reports
// ---------------------------------------------------------------------------

/// A number of the usage report is there exactly if all that it stands in is
/// there. A status means success exactly from 200 to 299.
pub proof fn law_usage_numbers(usage: UsageResponse, status: u16)
    ensures
        usage.concurrency_limit() == (if usage.limits is Some && usage.limits->0.concurrency
            is Some {
            usage.limits->0.concurrency->0.limit
        } else {
            None
        }),
        usage.concurrency_hard_cap() == (if usage.limits is Some && usage.limits->0.concurrency
            is Some {
            usage.limits->0.concurrency->0.hard_cap
        } else {
            None
        }),
        usage.concurrent_sessions() == (if usage.usage is Some {
            usage.usage->0.concurrent_sessions
        } else {
            None
        }),
        usage.priority_low() == (if usage.usage is Some && usage.usage->0.priority is Some {
            usage.usage->0.priority->0.low
        } else {
            None
        }),
        is_success(status) <==> 200 <= status <= 299,
{
}

} // verus!
