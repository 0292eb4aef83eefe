//! Retrying with exponential backoff, and reading a channel lookup.

use crate::config::RETRY_BASE_DELAY_MS;
use crate::json::{as_items, json_items, member};
use crate::twitch::types::{member_of, read_text, text_member};
use vstd::arithmetic::power2::{lemma2_to64, lemma2_to64_rest, lemma_pow2_strictly_increases, lemma_pow2_unfold, pow2};
use vstd::prelude::*;
use vstd::string::*;

verus! {

/// The largest number of retries whose delay still fits in 64 bits.
pub const MAX_BACKOFF_RETRIES: u32 = 57;

/// The pause before retry number `attempt`, in milliseconds: the base delay
/// doubled `attempt` times.
pub open spec fn backoff_delay(attempt: nat) -> nat {
    pow2(attempt) * (RETRY_BASE_DELAY_MS as nat)
}

/// The pauses of a run that made `attempts` calls: one before each call
/// but the first.
pub open spec fn delays_before(attempts: nat) -> Seq<u64> {
    Seq::new((attempts - 1) as nat, |k: int| backoff_delay((k + 1) as nat) as u64)
}

/// Every delay up to the largest retry count fits in 64 bits.
pub proof fn lemma_backoff_delay_fits(attempt: nat)
    requires
        attempt <= MAX_BACKOFF_RETRIES,
    ensures
        backoff_delay(attempt) <= u64::MAX,
        attempt > 0 ==> backoff_delay(attempt) == 2 * backoff_delay((attempt - 1) as nat),
{
    lemma2_to64();
    lemma2_to64_rest();
    if attempt < 57 {
        lemma_pow2_strictly_increases(attempt, 57);
    }
    assert(pow2(attempt) * 100 <= pow2(57) * 100) by (nonlinear_arith)
        requires
            pow2(attempt) <= pow2(57),
    ;
    if attempt > 0 {
        lemma_pow2_unfold(attempt);
        assert(pow2(attempt) * 100 == 2 * (pow2((attempt - 1) as nat) * 100)) by (nonlinear_arith)
            requires
                pow2(attempt) == 2 * pow2((attempt - 1) as nat),
        ;
    }
}

/// Computes the pause before retry number `attempt`.
pub fn backoff_delay_ms(attempt: u32) -> (delay: u64)
    requires
        attempt <= MAX_BACKOFF_RETRIES,
    ensures
        delay == backoff_delay(attempt as nat),
{
    let mut delay: u64 = RETRY_BASE_DELAY_MS;
    let mut k: u32 = 0;
    proof {
        lemma2_to64();
    }
    while k < attempt
        invariant
            k <= attempt <= MAX_BACKOFF_RETRIES,
            delay == backoff_delay(k as nat),
        decreases attempt - k,
    {
        proof {
            lemma_backoff_delay_fits((k + 1) as nat);
        }
        delay = delay * 2;
        k += 1;
    }
    delay
}

/// Where a retried operation stands: how many retries it has used of how
/// many it may use.
#[derive(Debug, Clone, Copy, PartialEq, Eq)]
pub struct Backoff {
    pub retries: u32,
    pub max_retries: u32,
}

impl Backoff {
    /// No more retries are used than allowed, and no delay overflows.
    pub open spec fn wf(&self) -> bool {
        self.retries <= self.max_retries <= MAX_BACKOFF_RETRIES
    }

    /// Tells whether the state is well formed.
    pub fn is_well_formed(&self) -> (ok: bool)
        ensures
            ok == self.wf(),
    {
        self.retries <= self.max_retries && self.max_retries <= MAX_BACKOFF_RETRIES
    }

    /// The state before the first call.
    pub fn new(max_retries: u32) -> (backoff: Backoff)
        requires
            max_retries <= MAX_BACKOFF_RETRIES,
        ensures
            backoff.wf(),
            backoff.retries == 0,
            backoff.max_retries == max_retries,
    {
        Backoff { retries: 0, max_retries }
    }

    /// Takes note of a failed call. While retries are left, one is used up
    /// and the pause before it is returned; when none is left the state
    /// stays as it is and `None` tells the caller to give up with the error
    /// it has.
    pub fn on_failure(&mut self) -> (pause: Option<u64>)
        requires
            old(self).wf(),
        ensures
            final(self).wf(),
            final(self).max_retries == old(self).max_retries,
            old(self).retries < old(self).max_retries ==> final(self).retries == old(self).retries
                + 1 && pause == Some(backoff_delay(final(self).retries as nat) as u64),
            old(self).retries >= old(self).max_retries ==> pause is None && *final(self) == *old(
                self,
            ),
    {
        if self.retries >= self.max_retries {
            None
        } else {
            self.retries += 1;
            Some(backoff_delay_ms(self.retries))
        }
    }
}

/// What a retried operation came to.
pub struct RetryReport<T, E> {
    /// What the last call returned.
    pub result: Result<T, E>,
    /// How many calls were made.
    pub attempts: u32,
    /// The pauses made between the calls, in milliseconds.
    pub delays: Vec<u64>,
}

/// Calls `operation` until it succeeds or the retries are used up, and
/// pauses through `sleep` before each retry.
///
/// The first call is made at once. After a failure with retries left,
/// retry number `k` (counting from 1) follows a pause of the base delay
/// doubled `k` times. Every failure is retried alike. The report holds the
/// last result; if that is an error, all `max_retries + 1` calls were made.
pub fn retry_with_backoff<T, E, F: Fn() -> Result<T, E>, S: Fn(u64)>(
    operation: F,
    sleep: S,
    max_retries: u32,
) -> (report: RetryReport<T, E>)
    requires
        max_retries <= MAX_BACKOFF_RETRIES,
        call_requires(operation, ()),
        forall|millis: u64| call_requires(sleep, (millis,)),
    ensures
        call_ensures(operation, (), report.result),
        1 <= report.attempts <= max_retries + 1,
        report.result is Err ==> report.attempts == max_retries + 1,
        report.delays@ == delays_before(report.attempts as nat),
{
    let mut backoff = Backoff::new(max_retries);
    let mut delays: Vec<u64> = Vec::new();
    loop
        invariant
            backoff.wf(),
            backoff.max_retries == max_retries,
            call_requires(operation, ()),
            forall|millis: u64| call_requires(sleep, (millis,)),
            delays@ == delays_before((backoff.retries + 1) as nat),
        decreases max_retries - backoff.retries,
    {
        let result = operation();
        let failed = result.is_err();
        if !failed {
            return RetryReport { result, attempts: backoff.retries + 1, delays };
        }
        match backoff.on_failure() {
            None => {
                return RetryReport { result, attempts: backoff.retries + 1, delays };
            },
            Some(pause) => {
                sleep(pause);
                delays.push(pause);
                assert(delays@ =~= delays_before((backoff.retries + 1) as nat));
            },
        }
    }
}

/// The items under `data` in a response body; none when `data` is missing
/// or is no array.
pub open spec fn data_items(body: serde_json::Value) -> Seq<serde_json::Value> {
    match member_of(body, "data"@) {
        Some(data) => match json_items(data) {
            Some(items) => items,
            None => Seq::empty(),
        },
        None => Seq::empty(),
    }
}

/// Reads the items under `data` in a response body.
pub fn read_data(body: &serde_json::Value) -> (items: Option<&Vec<serde_json::Value>>)
    ensures
        match items {
            Some(list) => list@ == data_items(*body),
            None => data_items(*body).len() == 0,
        },
{
    match member(body, "data") {
        Some(data) => as_items(data),
        None => None,
    }
}

/// The broadcaster id a lookup response names: the string `id` of the
/// first item under `data`.
pub open spec fn broadcaster_id_in(body: serde_json::Value) -> Option<Seq<char>> {
    if data_items(body).len() > 0 {
        text_member(data_items(body)[0], "id"@)
    } else {
        None
    }
}

/// Reads a channel lookup: the broadcaster id if the channel exists,
/// `None` if the response names none.
pub fn validate_twitch_channel(body: &serde_json::Value) -> (id: Option<String>)
    ensures
        match id {
            Some(text) => broadcaster_id_in(*body) == Some(text@),
            None => broadcaster_id_in(*body) is None,
        },
{
    match read_data(body) {
        Some(items) => {
            if items.len() > 0 {
                read_text(&items[0], "id")
            } else {
                None
            }
        },
        None => None,
    }
}

} // verus!
