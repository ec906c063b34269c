use vstd::prelude::*;

use vstd::arithmetic::power::pow;

use crate::digits::{decimal, decimal_text};

verus! {

/// The public calendar-by-district endpoint of the appointment feed.
pub const CALENDAR_ENDPOINT: &'static str =
    "https://cdn-api.co-vin.in/api/v2/appointment/sessions/public/calendarByDistrict";

/// The user agent sent with every request.
pub const USER_AGENT: &'static str =
    "Mozilla/5.0 (X11; Ubuntu; Linux x86_64; rv:15.0) Gecko/20100101 Firefox/15.0.1";

/// The pause before every request, whatever came of the last one, which
/// keeps the worker under the feed's limit of 100 calls in 5 minutes.
pub const REQUEST_SPACING_MS: u64 = 3000;

/// The pause after the feed answers 403, its rate-limit answer.
pub const RATE_LIMIT_COOLDOWN_MS: u64 = 60_000;

/// The address that asks for a district's week of sessions from a date
/// written DD-MM-YYYY.
pub open spec fn url_text(district_id: nat, date: Seq<char>) -> Seq<char> {
    CALENDAR_ENDPOINT@ + "?district_id="@ + decimal_text(district_id) + "&date="@ + date
}

/// Builds the request address for a district and a date.
pub fn request_url(district_id: u16, date: &str) -> (r: String)
    ensures
        r@ == url_text(district_id as nat, date@),
{
    let mut url = String::from_str(CALENDAR_ENDPOINT);
    url.append("?district_id=");
    url.append(decimal(district_id as u64).as_str());
    url.append("&date=");
    url.append(date);
    url
}

/// How a fetch is retried when the network fails: at most `max_attempts`
/// tries in all; before try n + 1 a pause of `base_delay_ms * multiplier^(n - 1)`
/// plus a random jitter below `base_delay_ms`; and no try that would start
/// after `max_elapsed_ms` from the first.
pub struct RetryPolicy {
    pub max_attempts: u32,
    pub base_delay_ms: u64,
    pub multiplier: u64,
    pub max_elapsed_ms: u64,
}

impl RetryPolicy {
    /// Four tries, one second doubling, within half a minute.
    pub fn standard() -> (r: RetryPolicy)
        ensures
            r.max_attempts == 4,
            r.base_delay_ms == 1000,
            r.multiplier == 2,
            r.max_elapsed_ms == 30_000,
    {
        RetryPolicy { max_attempts: 4, base_delay_ms: 1000, multiplier: 2, max_elapsed_ms: 30_000 }
    }
}

/// What one try of a fetch came to.
#[derive(Clone, Copy, Debug, PartialEq, Eq, Structural)]
pub enum Attempt {
    /// A success answer that parsed as a feed answer.
    Data,
    /// An answer that is not a success, or does not parse: no data, and
    /// trying again would not change it.
    NoData,
    /// The feed's rate-limit answer, 403.
    RateLimited,
    /// No answer at all: the network failed or timed out.
    TransportError,
}

/// What to do after a try.
#[derive(Clone, Copy, Debug, PartialEq, Eq, Structural)]
pub enum RetryStep {
    /// Use the answer.
    Accept,
    /// Stop; the fetch brought no data.
    GiveUp,
    /// Pause this long, then stop with no data.
    CoolDown { delay_ms: u64 },
    /// Pause this long, then try again.
    Retry { delay_ms: u64 },
}

/// The kind of a try from its HTTP status (`None` when no answer came) and
/// whether the body parsed.
pub open spec fn attempt_kind(status: Option<u16>, parsed: bool) -> Attempt {
    match status {
        None => Attempt::TransportError,
        Some(code) => if code == 403 {
            Attempt::RateLimited
        } else if 200 <= code < 300 && parsed {
            Attempt::Data
        } else {
            Attempt::NoData
        },
    }
}

/// `x`, or the largest `u64` when `x` is larger.
pub open spec fn capped(x: int) -> int {
    if x > u64::MAX {
        u64::MAX as int
    } else {
        x
    }
}

/// The exponential part of the pause after try `attempts` (counted from 1;
/// a count of 0 is taken as 1).
pub open spec fn backoff(policy: RetryPolicy, attempts: nat) -> int {
    let exponent: nat = if attempts > 0 { (attempts - 1) as nat } else { 0 };
    capped(policy.base_delay_ms * pow(policy.multiplier as int, exponent))
}

/// The random part of a pause, from a random `seed`.
pub open spec fn jitter(policy: RetryPolicy, seed: u64) -> int {
    if policy.base_delay_ms == 0 {
        0
    } else {
        (seed % policy.base_delay_ms) as int
    }
}

/// The pause before the try after try `attempts`.
pub open spec fn retry_delay(policy: RetryPolicy, attempts: nat, seed: u64) -> int {
    capped(backoff(policy, attempts) + jitter(policy, seed))
}

/// What follows try `attempts`, made `elapsed_ms` after the first began.
pub open spec fn next_step(
    policy: RetryPolicy,
    attempts: nat,
    elapsed_ms: nat,
    outcome: Attempt,
    seed: u64,
) -> RetryStep {
    match outcome {
        Attempt::Data => RetryStep::Accept,
        Attempt::NoData => RetryStep::GiveUp,
        Attempt::RateLimited => RetryStep::CoolDown { delay_ms: RATE_LIMIT_COOLDOWN_MS },
        Attempt::TransportError => {
            let delay = retry_delay(policy, attempts, seed);
            if attempts < policy.max_attempts && elapsed_ms + delay <= policy.max_elapsed_ms {
                RetryStep::Retry { delay_ms: delay as u64 }
            } else {
                RetryStep::GiveUp
            }
        },
    }
}

/// Sorts a try by its HTTP status (`None` when no answer came) and by
/// whether its body parsed.
pub fn classify(status: Option<u16>, parsed: bool) -> (r: Attempt)
    ensures
        r == attempt_kind(status, parsed),
{
    match status {
        None => Attempt::TransportError,
        Some(code) => if code == 403 {
            Attempt::RateLimited
        } else if 200 <= code && code < 300 && parsed {
            Attempt::Data
        } else {
            Attempt::NoData
        },
    }
}

fn backoff_ms(policy: &RetryPolicy, attempts: u32) -> (r: u64)
    ensures
        r == backoff(*policy, attempts as nat),
{
    let base = policy.base_delay_ms;
    let m = policy.multiplier;
    let mut d: u64 = base;
    let mut k: u32 = 1;
    proof {
        reveal(pow);
        assert(pow(m as int, 0) == 1);
    }
    while k < attempts
        invariant
            1 <= k,
            k <= attempts || k == 1,
            base == policy.base_delay_ms,
            m == policy.multiplier,
            d == capped(base * pow(m as int, (k - 1) as nat)),
        decreases attempts - k,
    {
        let next = match d.checked_mul(m) {
            Some(x) => x,
            None => u64::MAX,
        };
        proof {
            reveal(pow);
            let p = pow(m as int, (k - 1) as nat);
            let t = base * p;
            assert(pow(m as int, k as nat) == m * p);
            assert(base * (m * p) == (base * p) * m) by (nonlinear_arith);
            if t > u64::MAX && m >= 1 {
                assert(t * m >= t) by (nonlinear_arith)
                    requires
                        t > 0,
                        m >= 1,
                ;
            }
            if t > u64::MAX && m == 0 {
                assert(t * m == 0) by (nonlinear_arith)
                    requires
                        m == 0,
                ;
            }
        }
        d = next;
        k = k + 1;
    }
    d
}

/// Decides what follows try `attempts` of a fetch, made `elapsed_ms` after
/// the first try began. A usable answer is taken; an answer with no data is
/// not retried; the rate-limit answer earns a cool-down and no data; a
/// network failure is retried after an exponential pause with jitter drawn
/// from `seed`, while tries and time remain.
pub fn after_attempt(
    policy: &RetryPolicy,
    attempts: u32,
    elapsed_ms: u64,
    outcome: Attempt,
    seed: u64,
) -> (r: RetryStep)
    ensures
        r == next_step(*policy, attempts as nat, elapsed_ms as nat, outcome, seed),
{
    match outcome {
        Attempt::Data => RetryStep::Accept,
        Attempt::NoData => RetryStep::GiveUp,
        Attempt::RateLimited => RetryStep::CoolDown { delay_ms: RATE_LIMIT_COOLDOWN_MS },
        Attempt::TransportError => {
            let base = backoff_ms(policy, attempts);
            let spread: u64 = if policy.base_delay_ms == 0 {
                0
            } else {
                seed % policy.base_delay_ms
            };
            let delay = base.saturating_add(spread);
            if attempts < policy.max_attempts && delay <= policy.max_elapsed_ms && elapsed_ms
                <= policy.max_elapsed_ms - delay {
                RetryStep::Retry { delay_ms: delay }
            } else {
                RetryStep::GiveUp
            }
        },
    }
}

} // verus!
