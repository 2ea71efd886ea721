use vstd::prelude::*;
use crate::backoff::{Backoff, capped, pow2, lemma_pow2_doubles};

verus! {

/// Where the two-phase attestation stands.
#[derive(Clone, Copy, Debug, PartialEq, Eq, Structural)]
pub enum Phase {
    /// Attesting the device to the challenge service.
    Challenge,
    /// Registering the host with the registration service.
    Registration,
    /// Both phases succeeded.
    Done,
}

/// The phase that a success leads to.
pub open spec fn next_phase(p: Phase) -> Phase {
    match p {
        Phase::Challenge => Phase::Registration,
        Phase::Registration => Phase::Done,
        Phase::Done => Phase::Done,
    }
}

/// The workflow's state after one attempt: the phase, and the failures
/// since that phase began. A success moves on and starts the count over.
pub open spec fn step(s: (Phase, nat), success: bool) -> (Phase, nat) {
    if success {
        (next_phase(s.0), 0)
    } else {
        (s.0, s.1 + 1)
    }
}

/// The state after the attempts whose outcomes are `events`, from the start.
pub open spec fn run(events: Seq<bool>) -> (Phase, nat)
    decreases events.len(),
{
    if events.len() == 0 {
        (Phase::Challenge, 0)
    } else {
        step(run(events.drop_last()), events.last())
    }
}

/// `n` failed attempts.
pub open spec fn falses(n: nat) -> Seq<bool> {
    Seq::new(n, |i: int| false)
}

/// How many of the attempts succeeded.
pub open spec fn successes(events: Seq<bool>) -> nat
    decreases events.len(),
{
    if events.len() == 0 {
        0
    } else {
        successes(events.drop_last()) + if events.last() {
            1nat
        } else {
            0nat
        }
    }
}

/// The phase reached after `n` successes.
pub open spec fn phase_after(n: nat) -> Phase {
    if n == 0 {
        Phase::Challenge
    } else if n == 1 {
        Phase::Registration
    } else {
        Phase::Done
    }
}

/// The wait, in seconds, that a failure in state `s` brings.
pub open spec fn wait_on_failure(base: nat, s: (Phase, nat)) -> nat {
    base * pow2(s.1)
}

/// Failures keep the phase and add to the count of failures.
pub proof fn lemma_trailing_failures(events: Seq<bool>, k: nat)
    ensures
        run(events + falses(k)) == (run(events).0, run(events).1 + k),
    decreases k,
{
    if k == 0 {
        assert(events + falses(0) =~= events);
    } else {
        let k1 = (k - 1) as nat;
        lemma_trailing_failures(events, k1);
        let longer = events + falses(k);
        assert(longer.drop_last() =~= events + falses(k1));
        assert(!longer.last());
    }
}

/// Within a phase, the wait after the `n`-th failed attempt is
/// `base * 2^(n-1)`: it starts at the base and doubles after every failure.
pub proof fn lemma_wait_of_nth_failure(base: nat, events: Seq<bool>, n: nat)
    requires
        events.len() == 0 || events.last(),
        n >= 1,
    ensures
        run(events).1 == 0,
        wait_on_failure(base, run(events + falses((n - 1) as nat))) == base * pow2((n - 1) as nat),
        n >= 2 ==> wait_on_failure(base, run(events + falses((n - 1) as nat))) == 2
            * wait_on_failure(base, run(events + falses((n - 2) as nat))),
{
    lemma_trailing_failures(events, (n - 1) as nat);
    if n >= 2 {
        lemma_trailing_failures(events, (n - 2) as nat);
        lemma_pow2_doubles(base, (n - 2) as nat);
    }
}

/// The phase is fixed by how many attempts have succeeded: none, the
/// challenge; one, the registration; two or more, done.
pub proof fn lemma_phase_follows_successes(events: Seq<bool>)
    ensures
        run(events).0 == phase_after(successes(events)),
    decreases events.len(),
{
    if events.len() > 0 {
        lemma_phase_follows_successes(events.drop_last());
    }
}

/// The registration phase is never reached before an attempt of the
/// challenge phase has succeeded.
pub proof fn lemma_registration_after_challenge_success(events: Seq<bool>)
    ensures
        run(events).0 != Phase::Challenge ==> exists|i: int|
            0 <= i < events.len() && #[trigger] events[i] && run(events.take(i)).0 == Phase::Challenge,
    decreases events.len(),
{
    if events.len() > 0 && run(events).0 != Phase::Challenge {
        let prev = events.drop_last();
        let last = events.len() - 1;
        assert(events.take(last) =~= prev);
        if run(prev).0 != Phase::Challenge {
            lemma_registration_after_challenge_success(prev);
            let i = choose|i: int|
                0 <= i < prev.len() && #[trigger] prev[i] && run(prev.take(i)).0 == Phase::Challenge;
            assert(events.take(i) =~= prev.take(i));
            assert(events[i]);
        } else {
            assert(events[last]);
        }
    }
}

/// While every challenge attempt fails, the workflow stays in the challenge
/// phase and retries, for any number of failures.
pub proof fn lemma_challenge_failures_forever(n: nat)
    ensures
        run(falses(n)) == (Phase::Challenge, n),
{
    lemma_trailing_failures(Seq::empty(), n);
    assert(Seq::<bool>::empty() + falses(n) =~= falses(n));
}

/// Once the challenge phase has succeeded after `a` failures, the wait after
/// the `k`-th failed registration attempt is `base * 2^(k-1)`, whatever `a`.
pub proof fn lemma_registration_waits(base: nat, a: nat, k: nat)
    requires
        k >= 1,
    ensures
        run(falses(a).push(true) + falses((k - 1) as nat)) == (Phase::Registration, (k - 1) as nat),
        wait_on_failure(base, run(falses(a).push(true) + falses((k - 1) as nat))) == base * pow2(
            (k - 1) as nat,
        ),
{
    let start = falses(a).push(true);
    lemma_challenge_failures_forever(a);
    assert(start.drop_last() =~= falses(a));
    lemma_trailing_failures(start, (k - 1) as nat);
    lemma_wait_of_nth_failure(base, start, k);
}

/// Where both services accept at once, the workflow is done after one
/// attempt per phase, with no wait.
pub proof fn lemma_success_path()
    ensures
        run(seq![true]) == (Phase::Registration, 0nat),
        run(seq![true, true]) == (Phase::Done, 0nat),
{
    reveal_with_fuel(run, 3);
    assert(seq![true].drop_last() =~= Seq::<bool>::empty());
    assert(seq![true, true].drop_last() =~= seq![true]);
}

/// The two-phase attestation workflow: which attempt comes next, and how
/// long to wait after a failure. Each phase has its own backoff, which
/// starts at the same base.
pub struct Workflow {
    phase: Phase,
    backoff: Backoff,
}

impl Workflow {
    /// The phase, and the failures since it began.
    pub closed spec fn state(&self) -> (Phase, nat) {
        (self.phase, self.backoff.failures())
    }

    /// The first wait of each phase.
    pub closed spec fn base(&self) -> nat {
        self.backoff.base()
    }

    pub closed spec fn wf(&self) -> bool {
        self.backoff.wf()
    }

    /// A workflow at the start of the challenge phase.
    pub fn new(base_secs: u64) -> (r: Workflow)
        requires
            base_secs > 0,
        ensures
            r.wf(),
            r.state() == run(Seq::empty()),
            r.base() == base_secs,
    {
        Workflow { phase: Phase::Challenge, backoff: Backoff::new(base_secs) }
    }

    /// The phase whose attempt comes next.
    pub fn phase(&self) -> (r: Phase)
        ensures
            r == self.state().0,
    {
        self.phase
    }

    /// Whether both phases have succeeded.
    pub fn is_done(&self) -> (r: bool)
        ensures
            r == (self.state().0 == Phase::Done),
    {
        match self.phase {
            Phase::Done => true,
            _ => false,
        }
    }

    /// Takes the outcome of the current phase's attempt. After a success
    /// the next phase begins with a fresh backoff and there is no wait;
    /// after a failure the phase stays and the wait before the retry is
    /// returned, in seconds (held at `u64::MAX` where it does not fit).
    pub fn on_outcome(&mut self, success: bool) -> (wait: Option<u64>)
        requires
            old(self).wf(),
            old(self).state().0 != Phase::Done,
        ensures
            final(self).wf(),
            final(self).state() == step(old(self).state(), success),
            final(self).base() == old(self).base(),
            match wait {
                None => success,
                Some(w) => !success && w == capped(wait_on_failure(old(self).base(), old(self).state())),
            },
    {
        if success {
            self.phase = match self.phase {
                Phase::Challenge => Phase::Registration,
                _ => Phase::Done,
            };
            self.backoff.reset();
            None
        } else {
            proof {
                self.backoff.lemma_current();
            }
            Some(self.backoff.record_failure())
        }
    }
}

} // verus!
