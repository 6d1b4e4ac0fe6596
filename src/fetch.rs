//! Source Fetcher decisions: what to do after each attempt at a page.
use vstd::prelude::*;

verus! {

/// How many times a page is asked for before giving up.
pub const MAX_ATTEMPTS: u32 = 10;

/// The longest pause between two attempts, in seconds.
pub const MAX_BACKOFF_SECS: u64 = 60;

/// What one attempt at a page came back with.
#[derive(Clone, Copy, Debug, PartialEq, Eq, Structural)]
pub enum FetchOutcome {
    /// The server answered with this status.
    Status(u16),
    /// No answer: the connection or the transfer failed.
    ConnectionFailed,
}

/// What to do next.
#[derive(Clone, Copy, Debug, PartialEq, Eq, Structural)]
pub enum FetchAction {
    /// The answer is good: read its body.
    Accept,
    /// Sleep this many seconds, then ask again.
    Retry { wait_secs: u64 },
    /// The attempts are used up.
    GiveUp,
    /// The server refused with a status that retrying will not change.
    Reject { status: u16 },
}

/// Statuses that a later attempt may not meet again.
pub open spec fn is_transient(status: u16) -> bool {
    status == 408 || status == 425 || status == 429 || status == 500 || status == 502
        || status == 503 || status == 504
}

/// The pause before the attempt that follows attempt number `made`.
pub open spec fn backoff_secs(made: u32) -> u64 {
    if 4 * made > 60 {
        60
    } else {
        (4 * made) as u64
    }
}

/// The action after attempt number `made` (counted from 1).
pub open spec fn next_action(made: u32, outcome: FetchOutcome) -> FetchAction {
    match outcome {
        FetchOutcome::Status(s) => {
            if 200 <= s <= 299 {
                FetchAction::Accept
            } else if !is_transient(s) {
                FetchAction::Reject { status: s }
            } else if made < MAX_ATTEMPTS {
                FetchAction::Retry { wait_secs: backoff_secs(made) }
            } else {
                FetchAction::GiveUp
            }
        },
        FetchOutcome::ConnectionFailed => {
            if made < MAX_ATTEMPTS {
                FetchAction::Retry { wait_secs: backoff_secs(made) }
            } else {
                FetchAction::GiveUp
            }
        },
    }
}

/// Returns the pause, `min(60, 4 * made)` seconds, before the attempt that
/// follows attempt number `made`.
pub fn backoff(made: u32) -> (r: u64)
    requires
        made <= MAX_ATTEMPTS,
    ensures
        r == backoff_secs(made),
{
    let secs = 4 * made as u64;
    if secs > MAX_BACKOFF_SECS {
        MAX_BACKOFF_SECS
    } else {
        secs
    }
}

/// Decides what follows attempt number `made` (from 1 to `MAX_ATTEMPTS`):
/// a success is accepted, a transient status or a failed connection is
/// retried after a pause that grows by four seconds per attempt while
/// attempts remain, and any other status ends the fetch.
pub fn after_attempt(made: u32, outcome: FetchOutcome) -> (r: FetchAction)
    requires
        1 <= made <= MAX_ATTEMPTS,
    ensures
        r == next_action(made, outcome),
{
    let retry = made < MAX_ATTEMPTS;
    match outcome {
        FetchOutcome::Status(s) => {
            if 200 <= s && s <= 299 {
                FetchAction::Accept
            } else if !(s == 408 || s == 425 || s == 429 || s == 500 || s == 502 || s == 503 || s
                == 504) {
                FetchAction::Reject { status: s }
            } else if retry {
                FetchAction::Retry { wait_secs: backoff(made) }
            } else {
                FetchAction::GiveUp
            }
        },
        FetchOutcome::ConnectionFailed => {
            if retry {
                FetchAction::Retry { wait_secs: backoff(made) }
            } else {
                FetchAction::GiveUp
            }
        },
    }
}

/// While attempts remain, a transient answer to attempt number `made` is
/// retried after `4 * made` seconds: 4, 8, 12, ... seconds after the first,
/// second, third failure, each pause four seconds longer than the one before.
pub proof fn lemma_backoff_schedule(made: u32, outcome: FetchOutcome)
    requires
        1 <= made < MAX_ATTEMPTS,
        match outcome {
            FetchOutcome::Status(s) => is_transient(s),
            FetchOutcome::ConnectionFailed => true,
        },
    ensures
        next_action(made, outcome) == (FetchAction::Retry { wait_secs: (4 * made) as u64 }),
        made > 1 ==> backoff_secs(made) == backoff_secs((made - 1) as u32) + 4,
{
}

} // verus!
