//! Waiting out rate limits: a request answered `429 Too Many Requests` is sent again after
//! the delay that the answer's `Retry-After` header names, or, without one, after an
//! exponential backoff, at most ten times.
use vstd::prelude::*;
use crate::text::{parse_u64, parse_unsigned};

verus! {

/// The status `429 Too Many Requests`.
pub const TOO_MANY_REQUESTS: u16 = 429;

/// The number of backoffs taken without a `Retry-After` header before giving up.
pub const MAX_RETRIES: u32 = 10;

/// The longest backoff, in seconds.
pub const MAX_BACKOFF_SECS: u64 = 60;

/// Sends requests again while they are answered `429 Too Many Requests`.
#[derive(Clone, Copy, Debug)]
pub struct RespectRateLimitMiddleware;

/// What to do with an answer.
#[derive(Clone, Copy, Debug, PartialEq, Eq)]
pub enum RateLimitAction {
    /// Hand the answer to the caller.
    Return,
    /// Wait this many seconds, then send the request again.
    Retry(u64),
    /// Give up: the retries without a `Retry-After` header are used up.
    GiveUp,
}

/// `2` to the power `n`.
pub open spec fn two_pow(n: nat) -> nat
    decreases n,
{
    if n == 0 {
        1
    } else {
        2 * two_pow((n - 1) as nat)
    }
}

/// The backoff after `retries` retries without a `Retry-After` header:
/// `2^retries` seconds, at most 60.
pub open spec fn backoff_secs(retries: nat) -> nat {
    if two_pow(retries) < MAX_BACKOFF_SECS {
        two_pow(retries)
    } else {
        MAX_BACKOFF_SECS as nat
    }
}

/// The delay named by a `Retry-After` header, where it is a number of seconds.
pub open spec fn retry_after_secs(retry_after: Option<Seq<char>>) -> Option<nat> {
    match retry_after {
        Some(h) => parse_unsigned(h, u64::MAX as nat),
        None => None,
    }
}

/// The action for an answer with status `status` and `Retry-After` header text
/// `retry_after`, after `retries` header-less retries; and the retry count after it.
pub open spec fn rate_limit_step(retries: nat, status: u16, retry_after: Option<Seq<char>>) -> (
    RateLimitAction,
    nat,
) {
    if status != TOO_MANY_REQUESTS {
        (RateLimitAction::Return, retries)
    } else if retry_after_secs(retry_after) is Some {
        (RateLimitAction::Retry(retry_after_secs(retry_after)->0 as u64), retries)
    } else if retries < MAX_RETRIES {
        (RateLimitAction::Retry(backoff_secs(retries) as u64), retries + 1)
    } else {
        (RateLimitAction::GiveUp, retries)
    }
}

/// `2^retries` seconds, at most 60.
fn backoff(retries: u32) -> (r: u64)
    requires
        retries < MAX_RETRIES,
    ensures
        r as nat == backoff_secs(retries as nat),
{
    let mut p: u64 = 1;
    let mut i: u32 = 0;
    while i < retries
        invariant
            i <= retries < MAX_RETRIES,
            p as nat == two_pow(i as nat),
            p <= 512,
        decreases retries - i,
    {
        assert(two_pow((i + 1) as nat) == 2 * two_pow(i as nat));
        proof {
            lemma_two_pow_bound(i as nat, retries as nat);
        }
        p = p * 2;
        i += 1;
    }
    if p < MAX_BACKOFF_SECS {
        p
    } else {
        MAX_BACKOFF_SECS
    }
}

proof fn lemma_two_pow_bound(i: nat, n: nat)
    requires
        i < n < 10,
    ensures
        two_pow(i + 1) <= 512,
    decreases n - i,
{
    lemma_two_pow_monotone(i + 1, 9);
    reveal_with_fuel(two_pow, 10);
}

proof fn lemma_two_pow_monotone(i: nat, j: nat)
    requires
        i <= j,
    ensures
        two_pow(i) <= two_pow(j),
    decreases j - i,
{
    if i < j {
        lemma_two_pow_monotone(i, (j - 1) as nat);
        assert(two_pow(j) == 2 * two_pow((j - 1) as nat));
    }
}

impl RespectRateLimitMiddleware {
    /// The action for an answer with status `status` and `Retry-After` header text
    /// `retry_after` (where the header is present and readable), after `retries` retries
    /// without a header; and the retry count after the action.
    pub fn next_action(&self, retries: u32, status: u16, retry_after: Option<&str>) -> (r: (
        RateLimitAction,
        u32,
    ))
        requires
            retries <= MAX_RETRIES,
        ensures
            (r.0, r.1 as nat) == rate_limit_step(
                retries as nat,
                status,
                match retry_after {
                    Some(h) => Some(h@),
                    None => None,
                },
            ),
            r.1 <= MAX_RETRIES,
    {
        if status != TOO_MANY_REQUESTS {
            return (RateLimitAction::Return, retries);
        }
        let delay = match retry_after {
            Some(h) => parse_u64(h),
            None => None,
        };
        match delay {
            Some(d) => (RateLimitAction::Retry(d), retries),
            None => {
                if retries < MAX_RETRIES {
                    (RateLimitAction::Retry(backoff(retries)), retries + 1)
                } else {
                    (RateLimitAction::GiveUp, retries)
                }
            },
        }
    }
}

/// Every backoff lasts at most 60 seconds.
pub proof fn backoff_is_at_most_a_minute(retries: nat)
    ensures
        backoff_secs(retries) <= MAX_BACKOFF_SECS,
{
}

/// Without `Retry-After` headers the request is sent again at most ten times: every step
/// that retries without a header raises the count by one, and at ten the next such answer
/// gives up.
pub proof fn backoffs_are_bounded(retries: nat, status: u16, retry_after: Option<Seq<char>>)
    requires
        retries <= MAX_RETRIES,
    ensures
        rate_limit_step(retries, status, retry_after).1 <= MAX_RETRIES,
        retry_after_secs(retry_after) is None && status == TOO_MANY_REQUESTS ==> (
        rate_limit_step(retries, status, retry_after).0 is GiveUp <==> retries == MAX_RETRIES),
        rate_limit_step(retries, status, retry_after).1 > retries ==> rate_limit_step(
            retries,
            status,
            retry_after,
        ).1 == retries + 1,
{
}

/// An answer with any status but 429 is handed to the caller unchanged.
pub proof fn other_answers_are_returned(retries: nat, status: u16, retry_after: Option<Seq<char>>)
    requires
        status != TOO_MANY_REQUESTS,
    ensures
        rate_limit_step(retries, status, retry_after) == (RateLimitAction::Return, retries),
{
}

} // verus!
