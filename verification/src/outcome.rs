//! The user-facing outcome of one instance query: either the emoji list to
//! render, or a classified failure together with the instance that was
//! queried.

use vstd::prelude::*;

use crate::emoji::EmojiRecord;

verus! {

/// The friendly failure categories a query can end in. Anything that does
/// not fit one of these is surfaced as an opaque internal error instead
/// (see [`QueryOutcome::Unclassified`]).
#[derive(Debug, Clone, Copy, PartialEq, Eq, Structural)]
pub enum Kind {
    /// The response body could not be parsed as an emoji list, or the
    /// exchange went through an unexpected redirect.
    Malformed,
    /// The host is invalid or unreachable, or the remote API is absent.
    NotFound,
    /// The remote API exists but refused access.
    Private,
    /// No response arrived within the client's timeout budget.
    TimedOut,
}

impl Kind {
    /// The user-facing message for this failure category.
    pub open spec fn message_spec(self) -> Seq<char> {
        match self {
            Kind::Malformed => "Response from the instance was malformed"@,
            Kind::NotFound => "Not a fediverse instance, or does not support the Mastodon custom emoji API"@,
            Kind::Private => "Instance emoji list is private"@,
            Kind::TimedOut => "Timed out waiting for response"@,
        }
    }

    /// The message shown on the error page for this failure category.
    pub fn message(self) -> (r: &'static str)
        ensures
            r@ == self.message_spec(),
    {
        match self {
            Kind::Malformed => "Response from the instance was malformed",
            Kind::NotFound => "Not a fediverse instance, or does not support the Mastodon custom emoji API",
            Kind::Private => "Instance emoji list is private",
            Kind::TimedOut => "Timed out waiting for response",
        }
    }

    /// The HTTP status the error page for this failure category is served
    /// with.
    pub open spec fn http_status_spec(self) -> u16 {
        match self {
            Kind::Malformed => 502,
            Kind::NotFound => 404,
            Kind::Private => 403,
            Kind::TimedOut => 504,
        }
    }

    /// The HTTP status of the rendered error page.
    pub fn http_status(self) -> (r: u16)
        ensures
            r == self.http_status_spec(),
    {
        match self {
            Kind::Malformed => 502,
            Kind::NotFound => 404,
            Kind::Private => 403,
            Kind::TimedOut => 504,
        }
    }
}

/// What one instance query produces for the rendering layer.
#[derive(Debug, PartialEq, Eq)]
pub enum QueryOutcome {
    /// The (already filtered) emoji list, with the animation display hint
    /// passed through for the template.
    Success { emojo: Vec<EmojiRecord>, show_animated: bool },
    /// A classified failure, with the instance string the user asked about,
    /// for the error page.
    Failure { kind: Kind, instance: String },
    /// An unclassified failure: rendered as a generic internal error, with
    /// the underlying detail kept out of the user-facing page.
    Unclassified,
}

impl QueryOutcome {
    /// The HTTP status the rendered page is served with.
    pub open spec fn http_status_spec(self) -> u16 {
        match self {
            QueryOutcome::Success { .. } => 200,
            QueryOutcome::Failure { kind, .. } => kind.http_status_spec(),
            QueryOutcome::Unclassified => 500,
        }
    }

    /// The HTTP status of the rendered page: 200 on success, the failure
    /// category's status on a classified failure, 500 otherwise.
    pub fn http_status(&self) -> (r: u16)
        ensures
            r == self.http_status_spec(),
    {
        match self {
            QueryOutcome::Success { .. } => 200,
            QueryOutcome::Failure { kind, .. } => kind.http_status(),
            QueryOutcome::Unclassified => 500,
        }
    }
}

} // verus!
