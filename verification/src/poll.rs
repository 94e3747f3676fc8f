//! The completion poller: a state machine that checks a change's status,
//! sleeps a fixed interval between checks, and stops at the first terminal
//! status or when the deadline passes.

use crate::change::ChangeHandle;
use crate::is_terminal_spec;
use crate::is_terminal_status;
use vstd::prelude::*;

verus! {

/// Caller-supplied parameters for re-attaching to a change issued
/// elsewhere and waiting for it by identifier.
pub struct WaitForChangeParams {
    /// Change identifier, already bare or still path-prefixed.
    pub change_id: String,
    /// Do not wait for the change to propagate: check once, never sleep.
    pub no_wait: bool,
    /// Seconds to sleep between completion checks.
    pub sleep_time: u64,
    /// Most seconds to wait for completion before giving up.
    pub max_wait: u64,
}

/// Timing parameters of the poller: seconds slept between status checks,
/// and the most seconds the poller may spend waiting.
pub struct PollConfig {
    pub sleep_time: u64,
    pub max_wait: u64,
}

impl WaitForChangeParams {
    /// The poller timing these parameters ask for. A caller that asked not
    /// to wait gets a zero deadline, which makes the poller check exactly
    /// once through the ordinary code path.
    pub fn poll_config(&self) -> (c: PollConfig)
        ensures
            c.sleep_time == self.sleep_time,
            c.max_wait == if self.no_wait {
                0u64
            } else {
                self.max_wait
            },
    {
        PollConfig {
            sleep_time: self.sleep_time,
            max_wait: if self.no_wait {
                0
            } else {
                self.max_wait
            },
        }
    }
}

/// Whether a submission response or status answer reports the change as
/// fully propagated.
pub fn is_change_complete(change_info: &ChangeHandle) -> (r: bool)
    ensures
        r == is_terminal_spec(change_info.status@),
{
    is_terminal_status(change_info.status.as_str())
}

/// What the poller does right after one status check.
#[derive(Clone, Copy, Debug, PartialEq, Eq, Structural)]
pub enum PollStep {
    /// The status is terminal: report success, with no further sleep.
    Done,
    /// The status is not terminal and the deadline leaves no room for
    /// another check: report timeout.
    TimedOut,
    /// The status is not terminal and time remains: sleep one interval,
    /// then decide again.
    Sleep,
}

/// The poller's transition out of one status check, `elapsed` seconds
/// after its first check.
pub open spec fn poll_decision_spec(status: Seq<char>, elapsed: u64, max_wait: u64) -> PollStep {
    if is_terminal_spec(status) {
        PollStep::Done
    } else if elapsed >= max_wait {
        PollStep::TimedOut
    } else {
        PollStep::Sleep
    }
}

/// Decides the poller's next move after a status check: done at the first
/// terminal status, timed out when the deadline is already spent, and one
/// more sleep otherwise.
pub fn poll_decision(status: &str, elapsed: u64, max_wait: u64) -> (d: PollStep)
    ensures
        d == poll_decision_spec(status@, elapsed, max_wait),
{
    if is_terminal_status(status) {
        PollStep::Done
    } else if elapsed >= max_wait {
        PollStep::TimedOut
    } else {
        PollStep::Sleep
    }
}

/// One complete poller run, `t` seconds after the first check, over the
/// statuses the provider reports, one per check: the result, how many
/// status checks were made, and how many sleeps were taken. The poller
/// stops at the first terminal status; otherwise it checks the deadline,
/// sleeps `interval` seconds, and checks again, never past `max_wait`.
pub open spec fn poll_run(statuses: Seq<Seq<char>>, t: int, interval: int, max_wait: int) -> (
    bool,
    nat,
    nat,
)
    decreases statuses.len(),
{
    if statuses.len() == 0 {
        (false, 0 as nat, 0 as nat)
    } else if is_terminal_spec(statuses[0]) {
        (true, 1 as nat, 0 as nat)
    } else if t >= max_wait {
        (false, 1 as nat, 0 as nat)
    } else if t + interval > max_wait {
        (false, 1 as nat, 1 as nat)
    } else {
        let rest = poll_run(statuses.drop_first(), t + interval, interval, max_wait);
        (rest.0, (rest.1 + 1) as nat, (rest.2 + 1) as nat)
    }
}

/// What one full poll reports: whether the change completed, how many
/// status checks ran, and how many sleeps were taken.
pub struct PollOutcome {
    pub completed: bool,
    pub queries: usize,
    pub sleeps: usize,
}

/// Runs the poller over the statuses the provider reports, one per check,
/// starting with an immediate first check at elapsed time zero. The
/// statuses must reach either a terminal entry inside the deadline or far
/// enough to cover the whole wait window.
pub fn await_completion(statuses: &Vec<String>, interval: u64, max_wait: u64) -> (out:
    PollOutcome)
    requires
        interval >= 1,
        (exists|j: int|
            0 <= j < statuses@.len() && j * interval <= max_wait && is_terminal_spec(
                statuses@[j]@,
            )) || statuses@.len() * interval > max_wait,
    ensures
        ({
            let r = poll_run(
                statuses@.map_values(|s: String| s@),
                0,
                interval as int,
                max_wait as int,
            );
            out.completed == r.0 && out.queries == r.1 && out.sleeps == r.2
        }),
{
    let ghost m = statuses@.map_values(|s: String| s@);
    let n: usize = statuses.len();
    let mut i: usize = 0;
    let mut t: u64 = 0;
    proof {
        assert(m.skip(0) =~= m);
    }
    loop
        invariant
            interval >= 1,
            m == statuses@.map_values(|s: String| s@),
            n == statuses@.len(),
            0 <= i <= statuses@.len(),
            t == i * interval,
            t <= max_wait,
            forall|j: int| 0 <= j < i ==> !is_terminal_spec(m[j]),
            (exists|j: int|
                0 <= j < statuses@.len() && j * interval <= max_wait && is_terminal_spec(
                    statuses@[j]@,
                )) || statuses@.len() * interval > max_wait,
            poll_run(m, 0, interval as int, max_wait as int) == ({
                let rest = poll_run(m.skip(i as int), t as int, interval as int, max_wait as int);
                (rest.0, (rest.1 + i) as nat, (rest.2 + i) as nat)
            }),
        decreases statuses@.len() - i,
    {
        proof {
            if forall|j: int|
                0 <= j < statuses@.len() && j * interval <= max_wait ==> !is_terminal_spec(
                    statuses@[j]@,
                ) {
                assert(statuses@.len() * interval > max_wait);
                assert(i * interval <= max_wait);
                assert(i < statuses@.len()) by (nonlinear_arith)
                    requires
                        interval >= 1,
                        i * interval <= max_wait,
                        statuses@.len() * interval > max_wait,
                ;
            } else {
                let j: int = choose|j: int|
                    0 <= j < statuses@.len() && j * interval <= max_wait && is_terminal_spec(
                        statuses@[j]@,
                    );
                assert(m[j] == statuses@[j]@);
                assert(i <= j);
            }
            assert(i < n);
            assert(m.skip(i as int)[0] == m[i as int]);
            assert(m[i as int] == statuses@[i as int]@);
        }
        let s: &String = &statuses[i];
        if is_terminal_status(s.as_str()) {
            return PollOutcome { completed: true, queries: i + 1, sleeps: i };
        }
        if t >= max_wait {
            return PollOutcome { completed: false, queries: i + 1, sleeps: i };
        }
        if interval > max_wait - t {
            return PollOutcome { completed: false, queries: i + 1, sleeps: i + 1 };
        }
        proof {
            assert(m.skip(i as int).drop_first() =~= m.skip(i + 1));
            assert((i + 1) * interval == i * interval + interval) by (nonlinear_arith);
        }
        t = t + interval;
        i = i + 1;
    }
}

/// With a zero deadline the poller performs exactly one status check and
/// never sleeps, whatever that check reports; it completes exactly when
/// the first status is already terminal.
pub proof fn lemma_poll_zero_wait(statuses: Seq<Seq<char>>, interval: int)
    requires
        statuses.len() >= 1,
    ensures
        ({
            let r = poll_run(statuses, 0, interval, 0);
            r.1 == 1 && r.2 == 0 && r.0 == is_terminal_spec(statuses[0])
        }),
{
}

/// A run that reports completion stopped at the first terminal status: the
/// last status checked is terminal, no earlier one is, and exactly one
/// sleep precedes every check after the first, so no sleep follows the
/// terminal observation. A first status that is already terminal gives
/// success after one check and no sleep at all, and a run that reports
/// failure never saw a terminal status.
pub proof fn lemma_poll_stops_at_first_terminal(
    statuses: Seq<Seq<char>>,
    t: int,
    interval: int,
    max_wait: int,
)
    ensures
        ({
            let r = poll_run(statuses, t, interval, max_wait);
            &&& r.0 ==> {
                &&& 1 <= r.1 <= statuses.len()
                &&& is_terminal_spec(statuses[r.1 - 1])
                &&& forall|j: int| 0 <= j < r.1 - 1 ==> !is_terminal_spec(statuses[j])
                &&& r.2 == r.1 - 1
            }
            &&& statuses.len() > 0 && is_terminal_spec(statuses[0]) ==> r == (
                true,
                1 as nat,
                0 as nat,
            )
            &&& !r.0 ==> r.1 <= statuses.len()
            &&& !r.0 ==> forall|j: int| 0 <= j < r.1 ==> !is_terminal_spec(statuses[j])
        }),
    decreases statuses.len(),
{
    let r = poll_run(statuses, t, interval, max_wait);
    if statuses.len() == 0 {
    } else if is_terminal_spec(statuses[0]) {
    } else if t >= max_wait {
    } else if t + interval > max_wait {
    } else {
        lemma_poll_stops_at_first_terminal(statuses.drop_first(), t + interval, interval, max_wait);
        let rest = poll_run(statuses.drop_first(), t + interval, interval, max_wait);
        if r.0 {
            assert(statuses.drop_first()[rest.1 - 1] == statuses[rest.1 as int]);
            assert forall|j: int| 0 <= j < r.1 - 1 implies !is_terminal_spec(statuses[j]) by {
                if j > 0 {
                    assert(statuses.drop_first()[j - 1] == statuses[j]);
                }
            }
        } else {
            assert forall|j: int| 0 <= j < r.1 implies !is_terminal_spec(statuses[j]) by {
                if j > 0 {
                    assert(statuses.drop_first()[j - 1] == statuses[j]);
                }
            }
        }
    }
}

/// A run whose statuses stay non-terminal times out: it reports false
/// after at least one check, its checks land at consecutive multiples of
/// the interval and never later than the deadline, and it sleeps once
/// more after the last check unless that check fell exactly on the
/// deadline.
pub proof fn lemma_poll_times_out(statuses: Seq<Seq<char>>, t: int, interval: int, max_wait: int)
    requires
        interval >= 1,
        0 <= t <= max_wait,
        statuses.len() * interval > max_wait - t,
        forall|j: int| 0 <= j < statuses.len() ==> !is_terminal_spec(statuses[j]),
    ensures
        ({
            let r = poll_run(statuses, t, interval, max_wait);
            &&& !r.0
            &&& 1 <= r.1 <= statuses.len()
            &&& (r.1 - 1) * interval <= max_wait - t
            &&& max_wait - t < r.1 * interval
            &&& r.2 == (if max_wait - t == (r.1 - 1) * interval {
                (r.1 - 1) as nat
            } else {
                r.1
            })
        }),
    decreases statuses.len(),
{
    let r = poll_run(statuses, t, interval, max_wait);
    if statuses.len() == 0 {
        assert(false);
    } else if t >= max_wait {
        assert(1 * interval == interval);
        assert(0 * interval == 0);
    } else if t + interval > max_wait {
        assert(1 * interval == interval);
        assert(0 * interval == 0);
    } else {
        let rest = poll_run(statuses.drop_first(), t + interval, interval, max_wait);
        assert((statuses.len() - 1) * interval == statuses.len() * interval - interval)
            by (nonlinear_arith);
        assert forall|j: int|
            0 <= j < statuses.drop_first().len() implies !is_terminal_spec(
            statuses.drop_first()[j],
        ) by {
            assert(statuses.drop_first()[j] == statuses[j + 1]);
        }
        lemma_poll_times_out(statuses.drop_first(), t + interval, interval, max_wait);
        assert(rest.1 * interval == (rest.1 - 1) * interval + interval) by (nonlinear_arith);
        assert((rest.1 + 1) * interval == rest.1 * interval + interval) by (nonlinear_arith);
    }
}

/// Decides whether the poller, having just slept until `elapsed` seconds
/// after its first check, may perform another check. Waiting stops once
/// the elapsed time strictly exceeds the deadline.
pub fn keep_waiting(elapsed: u64, max_wait: u64) -> (r: bool)
    ensures
        r == (elapsed <= max_wait),
{
    elapsed <= max_wait
}

} // verus!
