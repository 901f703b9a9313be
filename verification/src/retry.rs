use vstd::prelude::*;

verus! {

/// How many times a failed connection is retried before giving up.
pub const CONNECT_RETRIES: usize = 10;

/// How long to wait, in seconds, before retrying a failed connection.
pub const RETRY_DELAY_SECS: u64 = 10;

/// What to do after a connection attempt failed.
#[derive(Debug, PartialEq, Eq, Structural, Clone, Copy)]
pub enum RetryDecision {
    /// Wait this many seconds, then try again.
    RetryAfter(u64),
    /// Stop trying and report the failure.
    GiveUp,
}

/// The retry budget after one more failed attempt: one retry less, or none
/// at all (give up) once the budget is spent.
pub open spec fn after_failure(retries: nat) -> Option<nat> {
    if retries == 0 {
        None
    } else {
        Some((retries - 1) as nat)
    }
}

/// The retry budget after `failures` failed attempts in a row, starting from
/// `retries`; `None` once the connector has given up.
pub open spec fn after_failures(retries: nat, failures: nat) -> Option<nat>
    decreases failures,
{
    if failures == 0 {
        Some(retries)
    } else {
        match after_failures(retries, (failures - 1) as nat) {
            Some(r) => after_failure(r),
            None => None,
        }
    }
}

/// A connector that starts with `retries` retries survives exactly
/// `retries` failed attempts in a row and gives up at the next one.
pub proof fn lemma_failures_until_give_up(retries: nat, failures: nat)
    ensures
        failures <= retries ==> after_failures(retries, failures) == Some((retries - failures) as nat),
        failures > retries ==> after_failures(retries, failures) is None,
    decreases failures,
{
    if failures > 0 {
        lemma_failures_until_give_up(retries, (failures - 1) as nat);
    }
}

/// A fresh connector makes at most `CONNECT_RETRIES + 1` attempts: it
/// retries after each of the first `CONNECT_RETRIES` failures and gives up at
/// the one after.
pub proof fn lemma_fresh_connector_attempts(failures: nat)
    ensures
        after_failures(CONNECT_RETRIES as nat, failures) is Some <==> failures <= CONNECT_RETRIES,
{
    lemma_failures_until_give_up(CONNECT_RETRIES as nat, failures);
}

/// The state of a connector that keeps trying to reach a peer.
#[derive(Debug)]
pub struct ConnectRetry {
    retries: usize,
}

impl View for ConnectRetry {
    type V = nat;

    /// The retries that are left.
    closed spec fn view(&self) -> nat {
        self.retries as nat
    }
}

impl ConnectRetry {
    /// A connector with its full budget of retries.
    pub fn new() -> (c: ConnectRetry)
        ensures
            c@ == CONNECT_RETRIES as nat,
            c@ == 10,
    {
        ConnectRetry { retries: CONNECT_RETRIES }
    }

    /// The retries that are left.
    pub fn retries_left(&self) -> (r: usize)
        ensures
            r as nat == self@,
    {
        self.retries
    }

    /// Decides what to do after a failed attempt: give up once no retry is
    /// left, else wait and spend one retry.
    pub fn on_failure(&mut self) -> (d: RetryDecision)
        ensures
            match after_failure(old(self)@) {
                None => d == RetryDecision::GiveUp && final(self)@ == old(self)@,
                Some(r) => d == RetryDecision::RetryAfter(RETRY_DELAY_SECS) && final(self)@ == r,
            },
            d is RetryAfter ==> d == RetryDecision::RetryAfter(10) && final(self)@ + 1 == old(self)@,
            d is GiveUp <==> old(self)@ == 0,
    {
        if self.retries == 0 {
            RetryDecision::GiveUp
        } else {
            self.retries = self.retries - 1;
            RetryDecision::RetryAfter(RETRY_DELAY_SECS)
        }
    }
}

} // verus!
