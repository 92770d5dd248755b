//! How often and how patiently requests are repeated.

use vstd::prelude::*;

verus! {

/// Milliseconds before the second request for a dataset, where the ceiling
/// allows that many.
pub const FIRST_FETCH_DELAY: u64 = 250;

/// How often a dataset is asked for.
pub const FETCH_ATTEMPTS: u32 = 5;

/// Milliseconds before a result is submitted for the second time, where the
/// ceiling allows that many.
pub const FIRST_SUBMIT_DELAY: u64 = 500;

pub open spec fn smaller(a: int, b: int) -> int {
    if a < b {
        a
    } else {
        b
    }
}

/// A delay, up to a ceiling.
pub fn capped(delay: u64, ceiling: u64) -> (r: u64)
    ensures
        r == smaller(delay as int, ceiling as int),
{
    if delay < ceiling {
        delay
    } else {
        ceiling
    }
}

/// Twice the delay, up to a ceiling.
pub fn doubled(delay: u64, ceiling: u64) -> (r: u64)
    ensures
        r == smaller(2 * delay, ceiling as int),
{
    if delay > ceiling / 2 {
        ceiling
    } else {
        2 * delay
    }
}

/// A delay and something on top, up to a ceiling.
pub fn extended(delay: u64, extra: u64, ceiling: u64) -> (r: u64)
    ensures
        r == smaller(delay + extra, ceiling as int),
{
    if delay >= ceiling || extra >= ceiling - delay {
        ceiling
    } else {
        delay + extra
    }
}

/// Where a series of requests for a dataset stands.
#[derive(Clone, Copy, Debug, PartialEq, Eq, Structural)]
pub struct FetchRetry {
    /// How many requests have failed.
    pub attempt: u32,
    /// Milliseconds to wait after the next failure, before the ceiling.
    pub delay: u64,
}

impl FetchRetry {
    pub open spec fn first() -> FetchRetry {
        FetchRetry { attempt: 0, delay: FIRST_FETCH_DELAY }
    }

    /// A request is left.
    pub open spec fn wf(self) -> bool {
        self.attempt < FETCH_ATTEMPTS
    }

    pub fn start() -> (r: FetchRetry)
        ensures
            r == FetchRetry::first(),
    {
        FetchRetry { attempt: 0, delay: FIRST_FETCH_DELAY }
    }
}

/// Whether a failed request for a dataset is repeated: only a transient
/// failure is, and only while attempts are left.
pub open spec fn fetch_again(retry: FetchRetry, transient: bool) -> bool {
    transient && retry.attempt < FETCH_ATTEMPTS - 1
}

/// The state after a failure that leads to another request.
pub open spec fn fetch_retried(retry: FetchRetry, max: u64) -> FetchRetry {
    FetchRetry {
        attempt: (retry.attempt + 1) as u32,
        delay: smaller(2 * retry.delay, max as int) as u64,
    }
}

/// What follows a failed request for a dataset: the milliseconds to wait, never
/// more than the ceiling, and the state for the next request; or nothing where
/// the failure stands.
pub fn fetch_with_retry(retry: FetchRetry, transient: bool, max: u64) -> (r: Option<
    (u64, FetchRetry),
>)
    requires
        retry.wf(),
    ensures
        match r {
            Some((wait, next)) => fetch_again(retry, transient) && wait == smaller(
                retry.delay as int,
                max as int,
            ) && next == fetch_retried(retry, max) && next.wf(),
            None => !fetch_again(retry, transient),
        },
{
    if transient && retry.attempt < FETCH_ATTEMPTS - 1 {
        Some(
            (
                capped(retry.delay, max),
                FetchRetry { attempt: retry.attempt + 1, delay: doubled(retry.delay, max) },
            ),
        )
    } else {
        None
    }
}

/// What follows a failed submission: the milliseconds to wait, never more than
/// the ceiling, and the delay after that; or nothing where the failure stands.
pub fn submit_with_retry(delay: u64, transient: bool, max: u64) -> (r: Option<(u64, u64)>)
    ensures
        match r {
            Some((wait, next)) => transient && wait == smaller(delay as int, max as int) && next
                == smaller(2 * delay, max as int),
            None => !transient,
        },
{
    if transient {
        Some((capped(delay, max), doubled(delay, max)))
    } else {
        None
    }
}

/// Requests that fail for now are repeated until five have failed, and no longer;
/// others are not repeated. Each failure is counted, and the wait is half of the
/// next one, up to the maximum.
pub proof fn five_requests_are_made_at_most(retry: FetchRetry, transient: bool, max: u64)
    requires
        retry.wf(),
    ensures
        retry.attempt <= 4,
        fetch_again(retry, transient) <==> transient && retry.attempt + 1 < 5,
        fetch_again(retry, transient) ==> fetch_retried(retry, max).attempt == retry.attempt + 1,
        fetch_again(retry, transient) ==> smaller(
            fetch_retried(retry, max).delay as int,
            max as int,
        ) == smaller(2 * smaller(retry.delay as int, max as int), max as int),
        FetchRetry::first().attempt == 0,
        smaller(FetchRetry::first().delay as int, max as int) == smaller(250, max as int),
{
}

} // verus!
