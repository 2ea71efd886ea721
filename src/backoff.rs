use vstd::prelude::*;

verus! {

/// Two to the power `n`.
pub open spec fn pow2(n: nat) -> nat
    decreases n,
{
    if n == 0 {
        1
    } else {
        2 * pow2((n - 1) as nat)
    }
}

/// Each failure doubles the wait: `base * 2^(n+1) == 2 * (base * 2^n)`.
pub proof fn lemma_pow2_doubles(base: nat, n: nat)
    ensures
        base * pow2(n + 1) == 2 * (base * pow2(n)),
        pow2(n) >= 1,
    decreases n,
{
    if n > 0 {
        lemma_pow2_doubles(base, (n - 1) as nat);
    }
    assert(pow2(n + 1) == 2 * pow2(n));
    assert(base * (2 * pow2(n)) == 2 * (base * pow2(n))) by (nonlinear_arith);
}

/// `n`, or `u64::MAX` where `n` does not fit in a `u64`.
pub open spec fn capped(n: nat) -> nat {
    if n <= u64::MAX {
        n
    } else {
        u64::MAX as nat
    }
}

/// Exponential backoff in whole seconds, without jitter: the wait starts at
/// a base and doubles after every failure. A wait too long for a `u64` of
/// seconds is held at `u64::MAX` seconds.
pub struct Backoff {
    base: u64,
    current: u64,
    failures: Ghost<nat>,
}

impl Backoff {
    /// The wait before the first retry.
    pub closed spec fn base(&self) -> nat {
        self.base as nat
    }

    /// The wait that the next failure brings.
    pub closed spec fn current(&self) -> nat {
        self.current as nat
    }

    /// Failures since the backoff last started.
    pub closed spec fn failures(&self) -> nat {
        self.failures@
    }

    /// The wait is the base doubled once for each failure.
    pub closed spec fn wf(&self) -> bool {
        &&& self.base > 0
        &&& self.current as nat == capped(self.base as nat * pow2(self.failures@))
    }

    /// The wait that the next failure brings, as the base and the failures
    /// fix it.
    pub proof fn lemma_current(&self)
        requires
            self.wf(),
        ensures
            self.current() == capped(self.base() * pow2(self.failures())),
            self.base() > 0,
    {
    }

    /// A backoff that has seen no failure.
    pub fn new(base_secs: u64) -> (r: Backoff)
        requires
            base_secs > 0,
        ensures
            r.wf(),
            r.base() == base_secs,
            r.failures() == 0,
            r.current() == base_secs,
    {
        let r = Backoff { base: base_secs, current: base_secs, failures: Ghost(0nat) };
        assert(pow2(r.failures@) == 1);
        r
    }

    /// The wait, in seconds, that the next failure brings.
    pub fn delay_secs(&self) -> (r: u64)
        ensures
            r == self.current(),
    {
        self.current
    }

    /// Records a failure: returns the wait to sleep before the next attempt
    /// and doubles it for the one after.
    pub fn record_failure(&mut self) -> (wait: u64)
        requires
            old(self).wf(),
        ensures
            final(self).wf(),
            wait == old(self).current(),
            wait == capped(old(self).base() * pow2(old(self).failures())),
            final(self).current() == capped(2 * old(self).current()),
            final(self).base() == old(self).base(),
            final(self).failures() == old(self).failures() + 1,
    {
        let wait = self.current;
        proof {
            lemma_pow2_doubles(self.base as nat, self.failures@);
        }
        self.current = if self.current <= u64::MAX / 2 {
            self.current * 2
        } else {
            u64::MAX
        };
        self.failures = Ghost(self.failures@ + 1);
        wait
    }

    /// Starts the backoff over at its base.
    pub fn reset(&mut self)
        requires
            old(self).wf(),
        ensures
            final(self).wf(),
            final(self).base() == old(self).base(),
            final(self).failures() == 0,
            final(self).current() == old(self).base(),
    {
        self.current = self.base;
        self.failures = Ghost(0nat);
        assert(pow2(self.failures@) == 1);
    }
}

} // verus!
