//! Errors surfaced by a connection-establishment attempt.

use vstd::prelude::*;

verus! {

/// Why a connection-establishment attempt failed.
///
/// None of these are retried here: retry and backoff policy belong to the
/// surrounding orchestration. A failed attempt must prevent any stream from
/// being started for the session.
#[derive(Debug)]
pub enum ConnectionError {
    /// The endpoint text of the exchange could not be parsed as a URL: a
    /// configuration error, fatal to the attempt. Carries the offending text.
    UrlParse(String),
    /// The exchange answered a subscription request with a syntactically
    /// valid but negative acknowledgment; the whole batch is aborted.
    /// Carries the offending response, identifying which request appears to
    /// have failed.
    SubscriptionRejected { response: String },
    /// Fewer valid acknowledgments than expected arrived before the deadline.
    /// Carries how many of the expected responses were never observed.
    SubscriptionTimeout { outstanding: usize },
}

} // verus!
