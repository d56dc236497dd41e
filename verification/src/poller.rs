//! Confirmation polling: an explicit state machine advanced by an
//! external driver that supplies wall-clock time and fetched statuses.
//!
//! On each round the poller first compares elapsed time against the
//! timeout (expiry is a legitimate outcome, not an error), then checks
//! the fetched status; exactly the status text `"confirmed"` is
//! terminal success, every other status means "not yet confirmed".

use vstd::prelude::*;

verus! {

/// Seconds between two status checks.
pub const POLL_INTERVAL_SECS: u64 = 5;

/// Seconds the dispatcher waits for a confirmation before giving up.
pub const CONFIRM_TIMEOUT_SECS: u64 = 100;

/// Terminal outcome of a poll.
#[derive(PartialEq, Eq, Structural, Debug, Clone, Copy)]
pub enum PollOutcome {
    Confirmed,
    TimedOut,
}

/// What the driver does next, given the elapsed wall-clock time.
#[derive(PartialEq, Eq, Structural, Debug, Clone, Copy)]
pub enum PollTick {
    /// The timeout has elapsed: stop with `TimedOut`, without another
    /// status fetch.
    Expired,
    /// Still within the timeout: fetch the status once more.
    Check,
}

/// Whether a status text is the one terminal success status.
pub open spec fn is_confirmed_text(s: Seq<char>) -> bool {
    s == "confirmed"@
}

/// Decides whether a poll round may still check, from the elapsed
/// wall-clock seconds since the poll began.
pub fn poll_tick(elapsed: u64, timeout: u64) -> (r: PollTick)
    ensures
        r is Expired <==> elapsed > timeout,
{
    if elapsed > timeout {
        PollTick::Expired
    } else {
        PollTick::Check
    }
}

/// Poll check bound: a run whose last status check still fell within
/// the timeout has made at most `timeout / interval + 1` checks in
/// all; with a 12-second timeout and a 5-second interval, no more
/// than three.
pub proof fn lemma_poll_check_bound(checks: int, timeout: int, interval: int)
    requires
        interval >= 1,
        timeout >= 0,
        checks >= 1,
        (checks - 1) * interval <= timeout,
    ensures
        checks <= timeout / interval + 1,
{
    vstd::arithmetic::div_mod::lemma_fundamental_div_mod(timeout, interval);
    if checks - 1 > timeout / interval {
        assert((checks - 1) * interval > timeout) by (nonlinear_arith)
            requires
                checks - 1 >= timeout / interval + 1,
                interval >= 1,
                timeout == interval * (timeout / interval) + timeout % interval,
                0 <= timeout % interval < interval;
    }
}

/// Runs the polling state machine over a schedule of fetched statuses:
/// check `i` happens at elapsed time `i * interval`, provided that does
/// not exceed the timeout. Returns the outcome and how many statuses
/// were checked. The driver with a real clock and transport follows
/// exactly this control path; here it is isolated from wall-clock
/// delay.
pub fn run_poll(statuses: &Vec<String>, timeout: u64, interval: u64) -> (r: (PollOutcome, usize))
    requires
        interval >= 1,
        timeout <= u64::MAX - interval,
        (statuses@.len() as int) * (interval as int) > timeout,
    ensures
        r.1 <= statuses@.len(),
        r.0 is TimedOut ==> (r.1 as int) * (interval as int) > timeout,
        r.0 is TimedOut ==> forall|j: int|
            0 <= j < r.1 ==> !is_confirmed_text(#[trigger] statuses@[j]@),
        r.0 is Confirmed ==> 1 <= r.1 && is_confirmed_text(statuses@[r.1 - 1]@),
        r.0 is Confirmed ==> forall|j: int|
            0 <= j < r.1 - 1 ==> !is_confirmed_text(#[trigger] statuses@[j]@),
        r.1 >= 1 ==> ((r.1 as int) - 1) * (interval as int) <= timeout,
{
    let confirmed: String = "confirmed".to_owned();
    let n = statuses.len();
    let mut checks: usize = 0;
    let mut elapsed: u64 = 0;
    loop
        invariant
            n == statuses@.len(),
            confirmed@ == "confirmed"@,
            interval >= 1,
            timeout <= u64::MAX - interval,
            (statuses@.len() as int) * (interval as int) > timeout,
            checks <= statuses@.len(),
            elapsed == (checks as int) * (interval as int),
            checks >= 1 ==> ((checks as int) - 1) * (interval as int) <= timeout,
            forall|j: int| 0 <= j < checks ==> !is_confirmed_text(#[trigger] statuses@[j]@),
        decreases statuses@.len() - checks,
    {
        if elapsed > timeout {
            return (PollOutcome::TimedOut, checks);
        }
        proof {
            assert(checks < statuses@.len()) by (nonlinear_arith)
                requires
                    (checks as int) * (interval as int) <= timeout,
                    (statuses@.len() as int) * (interval as int) > timeout,
                    interval >= 1,
                    checks >= 0;
        }
        let s = &statuses[checks];
        checks = checks + 1;
        if *s == confirmed {
            return (PollOutcome::Confirmed, checks);
        }
        proof {
            assert((checks as int) * (interval as int) == elapsed + interval) by (nonlinear_arith)
                requires
                    elapsed == ((checks as int) - 1) * (interval as int);
        }
        elapsed = elapsed + interval;
    }
}

} // verus!
