//! The responses that the proxy gives on its own.

use vstd::prelude::*;

use crate::duration::Duration;
#[allow(unused_imports)]
use crate::duration::NANOS_PER_SEC;
#[allow(unused_imports)]
use crate::headers::decimal_digits;
use crate::headers::number_value;
#[allow(unused_imports)]
use crate::text::optional_bytes;

verus! {

/// A response that the proxy gives on its own.
pub struct Reply {
    pub status: u16,
    /// The value of the `Retry-After` header, where there is one.
    pub retry_after: Option<Vec<u8>>,
    pub body: &'static str,
}

/// The view of [`Reply`].
pub ghost struct ReplyView {
    pub status: u16,
    pub retry_after: Option<Seq<u8>>,
    pub body: Seq<char>,
}

impl View for Reply {
    type V = ReplyView;

    open spec fn view(&self) -> ReplyView {
        ReplyView {
            status: self.status,
            retry_after: optional_bytes(self.retry_after),
            body: self.body@,
        }
    }
}

/// The seconds after which a client may try again: those that it would have
/// waited in the queue, and at least one.
pub open spec fn retry_after_secs(max_wait: Duration) -> nat {
    let secs = max_wait@ / NANOS_PER_SEC as nat;
    if secs < 1 {
        1
    } else {
        secs
    }
}

/// 503: the request got no permit in time.
pub open spec fn queue_timeout_reply(max_wait: Duration) -> ReplyView {
    ReplyView {
        status: 503,
        retry_after: Some(decimal_digits(retry_after_secs(max_wait))),
        body: "throttle: queue timeout\n"@,
    }
}

/// 502: upstream could not be asked.
pub open spec fn upstream_error_reply() -> ReplyView {
    ReplyView { status: 502, retry_after: None, body: "throttle: upstream error\n"@ }
}

/// The response to a request that got no permit in time.
pub fn queue_timeout_response(max_wait: Duration) -> (reply: Reply)
    ensures
        reply@ == queue_timeout_reply(max_wait),
{
    let secs: u64 = max_wait.as_secs();
    let retry_after: u64 = if secs < 1 {
        1
    } else {
        secs
    };
    Reply {
        status: 503,
        retry_after: Some(number_value(retry_after)),
        body: "throttle: queue timeout\n",
    }
}

/// The response where upstream could not be asked.
pub fn upstream_error_response() -> (reply: Reply)
    ensures
        reply@ == upstream_error_reply(),
{
    Reply { status: 502, retry_after: None, body: "throttle: upstream error\n" }
}

} // verus!
