//! The instance query pipeline: building the API URL from an untrusted
//! hostname, classifying the HTTP or transport outcome of the single outbound
//! GET, and assembling the final [`QueryOutcome`].
//!
//! The network call itself happens outside the library; it hands back a
//! [`FetchOutcome`] and everything that is decided about it is decided here.

use vstd::prelude::*;

use crate::emoji::{filter_records, filtered, EmojiRecord};
use crate::outcome::{Kind, QueryOutcome};

verus! {

/// The fixed identity the outbound HTTP client presents.
pub fn user_agent() -> (r: &'static str)
    ensures
        r@ == "emojos.in/0.1.0 (+https://github.com/iliana/emojos.in)"@,
{
    "emojos.in/0.1.0 (+https://github.com/iliana/emojos.in)"
}

/// What substituting a host string into the fixed API URL template
/// `https://{host}/api/v1/custom_emojis` yields: the serialized URL when the
/// string is a valid host, and nothing when it is not. The URL library
/// computes this from the host string alone.
pub uninterp spec fn emoji_url_of(instance: Seq<char>) -> Option<Seq<char>>;

/// A string is a valid instance host exactly when the URL library accepts it
/// as the host of the API URL.
pub open spec fn host_valid(instance: Seq<char>) -> bool {
    emoji_url_of(instance) is Some
}

/// Relies on `url::Url::parse` and `url::Url::set_host`: parsing the fixed
/// absolute URL `https://host.invalid/api/v1/custom_emojis` always succeeds,
/// `set_host` on it fails exactly when the given string is not a valid host,
/// and both the validity test and the rewritten URL (read back through
/// `String::from`, the URL's serialization) depend on the host string alone.
#[verifier::external_body]
fn build_emoji_url(instance: &str) -> (r: Option<String>)
    ensures
        r is Some <==> emoji_url_of(instance@) is Some,
        r matches Some(u) ==> Some(u@) == emoji_url_of(instance@),
{
    let mut url = match url::Url::parse("https://host.invalid/api/v1/custom_emojis") {
        Ok(url) => url,
        Err(_) => return None,
    };
    if url.set_host(Some(instance)).is_err() {
        return None;
    }
    Some(String::from(url))
}

/// The step before any network traffic: validate the hostname and build the
/// API URL. `Ok` carries the URL to fetch; `Err` carries the finished
/// `NotFound` outcome for a syntactically invalid host, produced without any
/// network call.
pub fn prepare_query(instance: &str) -> (r: Result<String, QueryOutcome>)
    ensures
        r is Ok <==> host_valid(instance@),
        r matches Ok(u) ==> Some(u@) == emoji_url_of(instance@),
        r matches Err(o) ==> (o matches QueryOutcome::Failure { kind, instance: i } && kind
            == Kind::NotFound && i@ == instance@),
{
    match build_emoji_url(instance) {
        Some(u) => Ok(u),
        None => Err(
            QueryOutcome::Failure { kind: Kind::NotFound, instance: instance.to_owned() },
        ),
    }
}

/// How an HTTP status line routes the request: on to the body, into a
/// friendly failure category, or out as an opaque internal error.
#[derive(Debug, Clone, Copy, PartialEq, Eq, Structural)]
pub enum StatusClass {
    /// Not an error status: read and parse the body.
    Proceed,
    /// A status with a user-facing explanation.
    Friendly(Kind),
    /// Any other client or server error.
    Unclassified,
}

/// The status classification policy: 401 and 403 mean the emoji list is
/// private; 404, 405 and 410 mean the API is absent; any other client or
/// server error stays unclassified; everything else proceeds to the body.
pub open spec fn status_class_spec(code: u16) -> StatusClass {
    if code == 401 || code == 403 {
        StatusClass::Friendly(Kind::Private)
    } else if code == 404 || code == 405 || code == 410 {
        StatusClass::Friendly(Kind::NotFound)
    } else if 400 <= code && code <= 599 {
        StatusClass::Unclassified
    } else {
        StatusClass::Proceed
    }
}

/// Classify the status line of the response (spec step: inspect the status
/// before reading the body).
pub fn classify_status(code: u16) -> (r: StatusClass)
    ensures
        r == status_class_spec(code),
{
    if code == 401 || code == 403 {
        StatusClass::Friendly(Kind::Private)
    } else if code == 404 || code == 405 || code == 410 {
        StatusClass::Friendly(Kind::NotFound)
    } else if 400 <= code && code <= 599 {
        StatusClass::Unclassified
    } else {
        StatusClass::Proceed
    }
}

/// Whether the transport layer still has to read and decode the body: only
/// for a non-error status on an exchange that saw no redirect.
pub fn needs_body(code: u16, redirected: bool) -> (r: bool)
    ensures
        r == (status_class_spec(code) == StatusClass::Proceed && !redirected),
{
    match classify_status(code) {
        StatusClass::Proceed => !redirected,
        _ => false,
    }
}

/// Everything the single outbound GET can come back with, as the transport
/// layer observed it.
pub enum FetchOutcome {
    /// A final HTTP response arrived. `redirected` records whether the
    /// exchange went through a redirect on the way; `body` carries the
    /// decoded record list when the body was read and decoded, and `None`
    /// when it was not read or could not be decoded as a list of emoji
    /// records.
    Response { status: u16, redirected: bool, body: Option<Vec<EmojiRecord>> },
    /// The exchange ended in a redirect the client would not follow.
    Redirected,
    /// DNS resolution, connection, or TLS setup failed.
    ConnectFailed,
    /// No response arrived within the client's timeout budget.
    TimedOut,
    /// Any other transport-level error.
    OtherTransport,
}

/// The outcome `r` is a failure of category `k` that names the queried
/// instance.
pub open spec fn is_failure(r: QueryOutcome, k: Kind, instance: Seq<char>) -> bool {
    r matches QueryOutcome::Failure { kind, instance: i } && kind == k && i@ == instance
}

/// Exactly which outcome the handler owes for each fetch result:
/// the status line decides first (private / not found / unclassified), then
/// an unexpected redirect or an undecodable body means a malformed response,
/// and a decoded body is filtered and returned; a connection failure reads as
/// not found, a timeout as timed out, and any other transport error stays
/// unclassified.
pub open spec fn resolve_rel(
    fetch: FetchOutcome,
    instance: Seq<char>,
    show_all: bool,
    show_animated: bool,
    r: QueryOutcome,
) -> bool {
    match fetch {
        FetchOutcome::Response { status, redirected, body } => match status_class_spec(status) {
            StatusClass::Friendly(k) => is_failure(r, k, instance),
            StatusClass::Unclassified => r == QueryOutcome::Unclassified,
            StatusClass::Proceed => if redirected {
                is_failure(r, Kind::Malformed, instance)
            } else {
                match body {
                    Some(records) => r matches QueryOutcome::Success { emojo, show_animated: sa }
                        && emojo@ == filtered(records@, show_all) && sa == show_animated,
                    None => is_failure(r, Kind::Malformed, instance),
                }
            },
        },
        FetchOutcome::Redirected => is_failure(r, Kind::Malformed, instance),
        FetchOutcome::ConnectFailed => is_failure(r, Kind::NotFound, instance),
        FetchOutcome::TimedOut => is_failure(r, Kind::TimedOut, instance),
        FetchOutcome::OtherTransport => r == QueryOutcome::Unclassified,
    }
}

/// Turn what the transport layer observed into the final outcome: classify
/// the failure, or filter the decoded list and hand it to the template layer
/// together with the animation hint.
pub fn resolve_query(
    instance: String,
    show_all: bool,
    show_animated: bool,
    fetch: FetchOutcome,
) -> (r: QueryOutcome)
    ensures
        resolve_rel(fetch, instance@, show_all, show_animated, r),
{
    match fetch {
        FetchOutcome::Response { status, redirected, body } => {
            match classify_status(status) {
                StatusClass::Friendly(k) => QueryOutcome::Failure { kind: k, instance },
                StatusClass::Unclassified => QueryOutcome::Unclassified,
                StatusClass::Proceed => {
                    if redirected {
                        QueryOutcome::Failure { kind: Kind::Malformed, instance }
                    } else {
                        match body {
                            Some(records) => QueryOutcome::Success {
                                emojo: filter_records(records, show_all),
                                show_animated,
                            },
                            None => QueryOutcome::Failure { kind: Kind::Malformed, instance },
                        }
                    }
                },
            }
        },
        FetchOutcome::Redirected => QueryOutcome::Failure { kind: Kind::Malformed, instance },
        FetchOutcome::ConnectFailed => QueryOutcome::Failure { kind: Kind::NotFound, instance },
        FetchOutcome::TimedOut => QueryOutcome::Failure { kind: Kind::TimedOut, instance },
        FetchOutcome::OtherTransport => QueryOutcome::Unclassified,
    }
}

/// Status classification law: for any received response, 401 and 403 end in
/// a `Private` failure, 404, 405 and 410 in a `NotFound` failure, and every
/// other client or server error in the unclassified outcome — whatever the
/// body held and whatever the display flags were.
pub proof fn lemma_status_determines_outcome(
    fetch: FetchOutcome,
    instance: Seq<char>,
    show_all: bool,
    show_animated: bool,
    r: QueryOutcome,
)
    requires
        resolve_rel(fetch, instance, show_all, show_animated, r),
    ensures
        (fetch matches FetchOutcome::Response { status, .. } && (status == 401 || status == 403))
            ==> is_failure(r, Kind::Private, instance),
        (fetch matches FetchOutcome::Response { status, .. } && (status == 404 || status == 405
            || status == 410)) ==> is_failure(r, Kind::NotFound, instance),
        (fetch matches FetchOutcome::Response { status, .. } && 400 <= status && status <= 599
            && status != 401 && status != 403 && status != 404 && status != 405 && status != 410)
            ==> r == QueryOutcome::Unclassified,
{
}

/// Two outcomes agree: same variant, same failure category, and carried
/// strings and record lists equal value for value.
pub open spec fn outcome_equiv(a: QueryOutcome, b: QueryOutcome) -> bool {
    match (a, b) {
        (
            QueryOutcome::Success { emojo: e1, show_animated: s1 },
            QueryOutcome::Success { emojo: e2, show_animated: s2 },
        ) => e1@ == e2@ && s1 == s2,
        (
            QueryOutcome::Failure { kind: k1, instance: i1 },
            QueryOutcome::Failure { kind: k2, instance: i2 },
        ) => k1 == k2 && i1@ == i2@,
        (QueryOutcome::Unclassified, QueryOutcome::Unclassified) => true,
        _ => false,
    }
}

/// Idempotence law: the handler owes exactly one outcome per input. Two runs
/// over the same instance, the same display flags, and the same observed
/// fetch result agree on everything the user can see.
pub proof fn lemma_query_deterministic(
    fetch: FetchOutcome,
    instance: Seq<char>,
    show_all: bool,
    show_animated: bool,
    r1: QueryOutcome,
    r2: QueryOutcome,
)
    requires
        resolve_rel(fetch, instance, show_all, show_animated, r1),
        resolve_rel(fetch, instance, show_all, show_animated, r2),
    ensures
        outcome_equiv(r1, r2),
{
}

} // verus!
