//! Waiting for elements: the decisions of a poll loop.
//!
//! A wait checks the deadline, tries a lookup, and pauses for the poll
//! interval before the next round. The caller runs the loop, performs the
//! lookups and the pauses, and hands each result to [`Poll`], which says what
//! to do next.
use vstd::prelude::*;

verus! {

/// Default timeout of a wait, in milliseconds.
pub const DEFAULT_TIMEOUT_MS: u64 = 30000;

/// Default pause between two lookups, in milliseconds.
pub const DEFAULT_INTERVAL_MS: u64 = 250;

/// Parameters of a wait: its timeout and the pause between two lookups, in
/// milliseconds.
#[derive(Debug, Clone, Copy, PartialEq, Eq, Structural)]
pub struct Wait {
    pub timeout_ms: u64,
    pub interval_ms: u64,
}

/// What one lookup returned.
#[derive(Debug)]
pub enum Lookup<T, E> {
    /// The target is there.
    Found(T),
    /// The server reported no such element, yet.
    NotFoundYet,
    /// Any other failure.
    Failed(E),
}

#[verifier::external_type_specification]
#[verifier::external_body]
pub struct ExCmdError(fantoccini::error::CmdError);

/// Whether fantoccini classes an error as the server's "no such element"
/// answer (its `NoSuchElement` variant).
pub uninterp spec fn no_such_element(e: fantoccini::error::CmdError) -> bool;

/// Relies on fantoccini's `CmdError::is_miss`: whether the error is the
/// server's "no such element" answer.
#[verifier::external_body]
fn is_miss(e: &fantoccini::error::CmdError) -> (r: bool)
    ensures
        r == no_such_element(*e),
{
    e.is_miss()
}

/// What the result of one lookup means to a wait: the target, the server's
/// "no such element" (worth another try), or any other failure, kept as it
/// is. An empty list of elements is a target found.
pub fn lookup_outcome<T>(r: Result<T, fantoccini::error::CmdError>) -> (out: Lookup<T, fantoccini::error::CmdError>)
    ensures
        match r {
            Ok(t) => out == Lookup::<T, fantoccini::error::CmdError>::Found(t),
            Err(e) => if no_such_element(e) {
                out is NotFoundYet
            } else {
                out == Lookup::<T, fantoccini::error::CmdError>::Failed(e)
            },
        },
{
    match r {
        Ok(t) => Lookup::Found(t),
        Err(e) => {
            if is_miss(&e) {
                Lookup::NotFoundYet
            } else {
                Lookup::Failed(e)
            }
        },
    }
}

/// Why a wait ended without its target.
#[derive(Debug)]
pub enum WaitError<E> {
    /// The timeout passed before a lookup found the target.
    TimedOut,
    /// A lookup failed otherwise; the wait stopped at once.
    Failed(E),
}

/// What the loop does next.
#[derive(Debug)]
pub enum Step<T, E> {
    /// Perform one lookup.
    Attempt,
    /// Pause this many milliseconds, then start the next round.
    Sleep(u64),
    /// The wait is over, with this result.
    Done(Result<T, WaitError<E>>),
}

/// A wait in progress: its parameters and the lookups made so far.
#[derive(Debug, Clone, Copy, PartialEq, Eq, Structural)]
pub struct Poll {
    pub timeout_ms: u64,
    pub interval_ms: u64,
    pub attempts: u64,
}

impl Wait {
    /// A timeout of 30 s and a pause of 250 ms.
    pub fn new() -> (r: Wait)
        ensures
            r.timeout_ms == DEFAULT_TIMEOUT_MS,
            r.interval_ms == DEFAULT_INTERVAL_MS,
    {
        Wait { timeout_ms: DEFAULT_TIMEOUT_MS, interval_ms: DEFAULT_INTERVAL_MS }
    }

    /// Sets the timeout. The deadline is checked before each lookup, so a
    /// slow lookup or a pause may carry the wait past it.
    pub fn at_most(self, timeout_ms: u64) -> (r: Wait)
        ensures
            r == (Wait { timeout_ms, ..self }),
    {
        Wait { timeout_ms, ..self }
    }

    /// Sets the pause between two lookups.
    pub fn check_every(self, interval_ms: u64) -> (r: Wait)
        ensures
            r == (Wait { interval_ms, ..self }),
    {
        Wait { interval_ms, ..self }
    }

    pub open spec fn start_spec(self) -> Poll {
        Poll { timeout_ms: self.timeout_ms, interval_ms: self.interval_ms, attempts: 0 }
    }

    /// A wait with these parameters that has made no lookup yet.
    pub fn start(&self) -> (r: Poll)
        ensures
            r == self.start_spec(),
    {
        Poll { timeout_ms: self.timeout_ms, interval_ms: self.interval_ms, attempts: 0 }
    }
}

impl Poll {
    /// The deadline has passed `elapsed_ms` after the wait began.
    pub open spec fn expired(self, elapsed_ms: int) -> bool {
        elapsed_ms > self.timeout_ms
    }

    /// A round that begins `elapsed_ms` after the start ends the wait: the
    /// deadline has passed, or the count of lookups is at its limit.
    pub open spec fn stops(self, elapsed_ms: int) -> bool {
        self.expired(elapsed_ms) || self.attempts == u64::MAX
    }

    /// What follows a lookup that returned `outcome`.
    pub open spec fn decide<T, E>(self, outcome: Lookup<T, E>) -> Step<T, E> {
        match outcome {
            Lookup::Found(t) => Step::Done(Ok(t)),
            Lookup::NotFoundYet => Step::Sleep(self.interval_ms),
            Lookup::Failed(e) => Step::Done(Err(WaitError::Failed(e))),
        }
    }

    /// The start of a round, `elapsed_ms` after the wait began: the wait
    /// times out if the deadline has passed (or it can count no more
    /// lookups), else it makes one more lookup.
    pub fn begin_round<T, E>(&mut self, elapsed_ms: u64) -> (r: Step<T, E>)
        ensures
            old(self).stops(elapsed_ms as int) ==> (r matches Step::Done(Err(WaitError::TimedOut))
                && *final(self) == *old(self)),
            !old(self).stops(elapsed_ms as int) ==> (r is Attempt
                && *final(self) == (Poll { attempts: (old(self).attempts + 1) as u64, ..*old(self) })),
    {
        if elapsed_ms > self.timeout_ms || self.attempts == u64::MAX {
            Step::Done(Err(WaitError::TimedOut))
        } else {
            self.attempts = self.attempts + 1;
            Step::Attempt
        }
    }

    /// The end of a round: the target found ends the wait, a failure other
    /// than "not found yet" ends it at once, and "not found yet" asks for a
    /// pause before the next round.
    pub fn end_round<T, E>(&self, outcome: Lookup<T, E>) -> (r: Step<T, E>)
        ensures
            r == self.decide(outcome),
    {
        match outcome {
            Lookup::Found(t) => Step::Done(Ok(t)),
            Lookup::NotFoundYet => Step::Sleep(self.interval_ms),
            Lookup::Failed(e) => Step::Done(Err(WaitError::Failed(e))),
        }
    }
}

/// The result of a wait and the number of lookups it made, when its lookups
/// return `outcomes` in turn, each at once, and each pause lasts exactly the
/// interval (so round `k` begins `k * interval` after the start), following
/// `Poll::begin_round` and `Poll::end_round` step by step; `None` if the wait
/// needs more lookups than `outcomes` holds.
pub open spec fn run<T, E>(p: Poll, outcomes: Seq<Lookup<T, E>>) -> Option<(Result<T, WaitError<E>>, nat)>
    decreases outcomes.len(),
{
    if p.stops(p.attempts * p.interval_ms) {
        Some((Err(WaitError::TimedOut), p.attempts as nat))
    } else if outcomes.len() == 0 {
        None
    } else {
        let q = Poll { attempts: (p.attempts + 1) as u64, ..p };
        match q.decide(outcomes[0]) {
            Step::Done(r) => Some((r, q.attempts as nat)),
            _ => run(q, outcomes.drop_first()),
        }
    }
}

proof fn lemma_found_after<T, E>(p: Poll, outcomes: Seq<Lookup<T, E>>, n: nat, k: nat)
    requires
        p.attempts == k,
        k <= n,
        n < u64::MAX,
        n * p.interval_ms < p.timeout_ms,
        outcomes.len() == n + 1 - k,
        forall|i: int| 0 <= i < n - k ==> outcomes[i] is NotFoundYet,
        outcomes[n - k] is Found,
    ensures
        run(p, outcomes) == Some((Ok::<T, WaitError<E>>(outcomes[n - k]->Found_0), (n + 1) as nat)),
    decreases n - k,
{
    assert(k * p.interval_ms <= n * p.interval_ms) by (nonlinear_arith)
        requires
            k <= n,
    ;
    if k < n {
        let q = Poll { attempts: (p.attempts + 1) as u64, ..p };
        let rest = outcomes.drop_first();
        assert forall|i: int| 0 <= i < n - (k + 1) implies rest[i] is NotFoundYet by {
            assert(outcomes[i + 1] is NotFoundYet);
        }
        lemma_found_after(q, rest, n, k + 1);
    }
}

/// A wait whose lookup reports "not found yet" `n` times and then finds
/// its target `x` succeeds with `x` after exactly `n + 1` lookups, when
/// the timeout exceeds `n` intervals.
pub proof fn lemma_wait_finds_after_misses<T, E>(w: Wait, n: nat, x: T, outcomes: Seq<Lookup<T, E>>)
    requires
        n < u64::MAX,
        w.timeout_ms > n * w.interval_ms,
        outcomes == Seq::new(n, |i: int| Lookup::<T, E>::NotFoundYet).push(Lookup::Found(x)),
    ensures
        run(w.start_spec(), outcomes) == Some((Ok::<T, WaitError<E>>(x), (n + 1) as nat)),
{
    lemma_found_after(w.start_spec(), outcomes, n, 0);
}

proof fn lemma_times_out_from<T, E>(p: Poll, outcomes: Seq<Lookup<T, E>>)
    requires
        p.interval_ms > 0,
        p.attempts == 0 || (p.attempts - 1) * p.interval_ms <= p.timeout_ms,
        forall|i: int| 0 <= i < outcomes.len() ==> outcomes[i] is NotFoundYet,
        (p.attempts + outcomes.len()) * p.interval_ms > p.timeout_ms,
        p.attempts + outcomes.len() < u64::MAX,
    ensures
        run(p, outcomes) matches Some((r, k)) && r is Err && r->Err_0 is TimedOut
            && k * p.interval_ms > p.timeout_ms && k >= 1 && (k - 1) * p.interval_ms <= p.timeout_ms,
    decreases outcomes.len(),
{
    if !p.stops(p.attempts * p.interval_ms) {
        if outcomes.len() == 0 {
            assert(false);
        } else {
            let q = Poll { attempts: (p.attempts + 1) as u64, ..p };
            assert(outcomes[0] is NotFoundYet);
            let rest = outcomes.drop_first();
            assert forall|i: int| 0 <= i < rest.len() implies rest[i] is NotFoundYet by {
                assert(outcomes[i + 1] is NotFoundYet);
            }
            lemma_times_out_from(q, rest);
        }
    }
}

/// A wait whose lookup always reports "not found yet" times out, in the
/// first round that begins after the timeout: with `k` lookups made, round
/// `k` begins after it (`k * interval > timeout`) and the one before did not
/// (`(k - 1) * interval <= timeout`); given a positive interval and lookups
/// enough to get there.
pub proof fn lemma_wait_times_out<T, E>(w: Wait, outcomes: Seq<Lookup<T, E>>)
    requires
        w.interval_ms > 0,
        forall|i: int| 0 <= i < outcomes.len() ==> outcomes[i] is NotFoundYet,
        outcomes.len() * w.interval_ms > w.timeout_ms,
        outcomes.len() < u64::MAX,
    ensures
        run(w.start_spec(), outcomes) matches Some((r, k)) && r is Err && r->Err_0 is TimedOut
            && k * w.interval_ms > w.timeout_ms && k >= 1 && (k - 1) * w.interval_ms <= w.timeout_ms,
{
    lemma_times_out_from(w.start_spec(), outcomes);
}

/// A wait whose first lookup fails with anything but "not found yet" fails
/// with that error after exactly one lookup, whatever its timeout and interval.
pub proof fn lemma_wait_fails_fast<T, E>(w: Wait, e: E, outcomes: Seq<Lookup<T, E>>)
    requires
        outcomes.len() > 0,
        outcomes[0] == Lookup::<T, E>::Failed(e),
    ensures
        run(w.start_spec(), outcomes) == Some((Err::<T, WaitError<E>>(WaitError::Failed(e)), 1nat)),
{
}

} // verus!
