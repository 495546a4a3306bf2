//! The connector: try to reach the peer, and on every failure try again
//! until an attempt succeeds. By default it retries at once and without
//! end; a policy may put a growing, bounded pause before each retry and a
//! cap on the number of attempts.

use vstd::prelude::*;

verus! {

/// Two to the power `n`.
pub open spec fn pow2(n: nat) -> nat
    decreases n,
{
    if n == 0 {
        1
    } else {
        2 * pow2((n - 1) as nat)
    }
}

/// The pause, in milliseconds, before the attempt that follows `failures`
/// failed ones: none before the first attempt, then `base`, doubled with
/// every further failure, and never more than `ceiling`.
pub open spec fn backoff(base: nat, ceiling: nat, failures: nat) -> nat {
    if failures == 0 {
        0
    } else if base * pow2((failures - 1) as nat) < ceiling {
        base * pow2((failures - 1) as nat)
    } else {
        ceiling
    }
}

/// Powers of two grow with the exponent.
pub proof fn lemma_pow2_grows(low: nat, high: nat)
    requires
        low <= high,
    ensures
        1 <= pow2(low) <= pow2(high),
    decreases high,
{
    if high == 0 {
    } else if low == high {
        lemma_pow2_grows((low - 1) as nat, (high - 1) as nat);
    } else {
        lemma_pow2_grows(low, (high - 1) as nat);
    }
}

/// The pause never shrinks as failures mount, and never exceeds the ceiling.
pub proof fn lemma_backoff_grows(base: nat, ceiling: nat, fewer: nat, more: nat)
    requires
        fewer <= more,
    ensures
        backoff(base, ceiling, fewer) <= backoff(base, ceiling, more) <= ceiling,
{
    if fewer > 0 {
        let a = pow2((fewer - 1) as nat);
        let b = pow2((more - 1) as nat);
        lemma_pow2_grows((fewer - 1) as nat, (more - 1) as nat);
        assert(base * a <= base * b) by (nonlinear_arith)
            requires
                a <= b,
        ;
    }
}

/// How a connector retries.
#[derive(Clone, Copy, Debug, PartialEq, Eq)]
pub struct RetryPolicy {
    /// The most attempts to make; `None` for no limit.
    pub max_attempts: Option<u64>,
    /// The pause before the first retry, in milliseconds; 0 retries at once.
    pub base_delay_ms: u64,
    /// The longest pause before any retry, in milliseconds.
    pub max_delay_ms: u64,
}

impl RetryPolicy {
    /// Retry at once and for ever: the policy of an interactive tool whose
    /// user decides when to give up.
    pub fn relentless() -> (policy: RetryPolicy)
        ensures
            policy == (RetryPolicy { max_attempts: None, base_delay_ms: 0, max_delay_ms: 0 }),
    {
        RetryPolicy { max_attempts: None, base_delay_ms: 0, max_delay_ms: 0 }
    }

    /// Whether the policy allows another attempt after `attempts` were made.
    pub open spec fn allows(&self, attempts: nat) -> bool {
        match self.max_attempts {
            Some(most) => attempts < most,
            None => true,
        }
    }

    /// The pause before the attempt that follows `failures` failed ones.
    pub fn delay_after(&self, failures: u64) -> (ms: u64)
        ensures
            ms == backoff(self.base_delay_ms as nat, self.max_delay_ms as nat, failures as nat),
    {
        let base = self.base_delay_ms;
        let ceiling = self.max_delay_ms;
        if failures == 0 || base == 0 {
            assert(0 * pow2((failures - 1) as nat) == 0) by (nonlinear_arith);
            return 0;
        }
        proof {
            lemma_pow2_grows(0, (failures - 1) as nat);
            let top = pow2((failures - 1) as nat);
            assert(base * top >= base) by (nonlinear_arith)
                requires
                    top >= 1,
            ;
        }
        if base >= ceiling {
            return ceiling;
        }
        let mut delay: u64 = base;
        let mut k: u64 = 1;
        assert(base * pow2(0) == base) by (nonlinear_arith)
            requires
                pow2(0) == 1,
        ;
        while k < failures
            invariant
                1 <= k <= failures,
                1 <= base,
                base == self.base_delay_ms,
                ceiling == self.max_delay_ms,
                delay == base * pow2((k - 1) as nat),
                delay < ceiling,
            decreases failures - k,
        {
            proof {
                let b = base as nat;
                let now = pow2((k - 1) as nat);
                let top = pow2((failures - 1) as nat);
                lemma_pow2_grows(k as nat, (failures - 1) as nat);
                let next = pow2(k as nat);
                assert(next == 2 * now);
                assert(b * next == 2 * (b * now)) by (nonlinear_arith)
                    requires
                        next == 2 * now,
                ;
                assert(b * next == delay + delay);
                assert(b * next <= b * top) by (nonlinear_arith)
                    requires
                        next <= top,
                ;
            }
            if delay >= ceiling - delay {
                return ceiling;
            }
            delay = delay + delay;
            k = k + 1;
        }
        delay
    }
}

/// What a [`Connector`] is: how many attempts were made, and whether the
/// last of them produced a session.
pub struct ConnectorModel {
    pub attempts: nat,
    pub connected: bool,
}

/// What the connector asks for next.
#[derive(Clone, Copy, Debug, PartialEq, Eq)]
pub enum ConnectAction {
    /// Make a connection attempt, after a pause of this many milliseconds.
    Attempt { delay_ms: u64 },
    /// A session exists; there is nothing more to do.
    Finished,
    /// The policy's attempts are used up and no session exists.
    GaveUp,
}

/// The bookkeeping of one connection effort.
#[derive(Debug)]
pub struct Connector {
    policy: RetryPolicy,
    attempts: u64,
    connected: bool,
}

/// The connector before its first attempt.
pub open spec fn fresh() -> ConnectorModel {
    ConnectorModel { attempts: 0, connected: false }
}

/// The connector after one more attempt was reported. Once connected, or
/// once the policy's attempts are used up, further reports change nothing.
/// The count stops at `u64::MAX`.
pub open spec fn recorded(policy: RetryPolicy, c: ConnectorModel, success: bool) -> ConnectorModel {
    if c.connected || !policy.allows(c.attempts) {
        c
    } else {
        ConnectorModel {
            attempts: if c.attempts < u64::MAX { c.attempts + 1 } else { c.attempts },
            connected: success,
        }
    }
}

/// The connector after the attempts `outcomes`, in order.
pub open spec fn replayed(policy: RetryPolicy, c: ConnectorModel, outcomes: Seq<bool>) -> ConnectorModel
    decreases outcomes.len(),
{
    if outcomes.len() == 0 {
        c
    } else {
        recorded(policy, replayed(policy, c, outcomes.drop_last()), outcomes.last())
    }
}

/// What a connector under `policy` asks for in the state `c`.
pub open spec fn asked(policy: RetryPolicy, c: ConnectorModel) -> ConnectAction {
    if c.connected {
        ConnectAction::Finished
    } else if !policy.allows(c.attempts) {
        ConnectAction::GaveUp
    } else {
        ConnectAction::Attempt {
            delay_ms: backoff(policy.base_delay_ms as nat, policy.max_delay_ms as nat, c.attempts) as u64,
        }
    }
}

/// `failures` failed attempts followed by one that succeeds.
pub open spec fn fails_then_succeeds(failures: nat) -> Seq<bool> {
    Seq::new(failures + 1, |i: int| i == failures)
}

impl View for Connector {
    type V = ConnectorModel;

    closed spec fn view(&self) -> ConnectorModel {
        ConnectorModel { attempts: self.attempts as nat, connected: self.connected }
    }
}

impl Connector {
    /// The policy that the connector was made with.
    pub closed spec fn policy_model(&self) -> RetryPolicy {
        self.policy
    }

    /// A session exists only after at least one attempt, and the count fits
    /// its machine word.
    pub open spec fn well_formed(&self) -> bool {
        &&& self@.attempts <= u64::MAX
        &&& self@.connected ==> self@.attempts >= 1
    }

    /// A connector that retries at once and for ever, and has made no
    /// attempt yet.
    pub fn new() -> (c: Connector)
        ensures
            c@ == fresh(),
            c.policy_model() == (RetryPolicy { max_attempts: None, base_delay_ms: 0, max_delay_ms: 0 }),
            c.well_formed(),
    {
        Connector { policy: RetryPolicy::relentless(), attempts: 0, connected: false }
    }

    /// A connector that retries as `policy` says, and has made no attempt yet.
    pub fn with_policy(policy: RetryPolicy) -> (c: Connector)
        ensures
            c@ == fresh(),
            c.policy_model() == policy,
            c.well_formed(),
    {
        Connector { policy, attempts: 0, connected: false }
    }

    /// What to do now: nothing if a session exists; give up if the policy's
    /// attempts are used up; else attempt, after the policy's pause.
    pub fn next(&self) -> (action: ConnectAction)
        ensures
            action == asked(self.policy_model(), self@),
    {
        if self.connected {
            return ConnectAction::Finished;
        }
        if let Some(most) = self.policy.max_attempts {
            if self.attempts >= most {
                return ConnectAction::GaveUp;
            }
        }
        proof {
            lemma_backoff_grows(
                self.policy.base_delay_ms as nat,
                self.policy.max_delay_ms as nat,
                self.attempts as nat,
                self.attempts as nat,
            );
        }
        ConnectAction::Attempt { delay_ms: self.policy.delay_after(self.attempts) }
    }

    /// Records the outcome of the attempt that [`Connector::next`] asked for
    /// and says what to do now.
    pub fn record(&mut self, success: bool) -> (action: ConnectAction)
        ensures
            final(self)@ == recorded(old(self).policy_model(), old(self)@, success),
            final(self).policy_model() == old(self).policy_model(),
            old(self).well_formed() ==> final(self).well_formed(),
            action == asked(final(self).policy_model(), final(self)@),
    {
        let allowed = match self.policy.max_attempts {
            Some(most) => self.attempts < most,
            None => true,
        };
        if !self.connected && allowed {
            if self.attempts < u64::MAX {
                self.attempts = self.attempts + 1;
            }
            self.connected = success;
        }
        self.next()
    }

    /// How many attempts were made so far.
    pub fn attempts(&self) -> (n: u64)
        ensures
            n == self@.attempts,
    {
        self.attempts
    }

    /// Whether a session exists.
    pub fn is_connected(&self) -> (yes: bool)
        ensures
            yes == self@.connected,
    {
        self.connected
    }

    /// Runs a connector from scratch against a scripted series of attempt
    /// outcomes, reporting each in turn.
    pub fn replay(policy: RetryPolicy, outcomes: &[bool]) -> (c: Connector)
        ensures
            c@ == replayed(policy, fresh(), outcomes@),
            c.policy_model() == policy,
            c.well_formed(),
    {
        let mut c = Connector::with_policy(policy);
        let mut i: usize = 0;
        assert(outcomes@.take(0) =~= Seq::<bool>::empty());
        while i < outcomes.len()
            invariant
                i <= outcomes.len(),
                c.well_formed(),
                c.policy_model() == policy,
                c@ == replayed(policy, fresh(), outcomes@.take(i as int)),
            decreases outcomes.len() - i,
        {
            assert(outcomes@.take(i + 1).drop_last() =~= outcomes@.take(i as int));
            assert(outcomes@.take(i + 1).last() == outcomes@[i as int]);
            c.record(outcomes[i]);
            i = i + 1;
        }
        assert(outcomes@.take(i as int) =~= outcomes@);
        c
    }
}

/// While every attempt so far has failed and the policy allows as many, the
/// connector is not connected and has counted each attempt.
pub proof fn lemma_failures_keep_trying(policy: RetryPolicy, outcomes: Seq<bool>)
    requires
        outcomes.len() <= u64::MAX,
        outcomes.len() == 0 || policy.allows((outcomes.len() - 1) as nat),
        forall|i: int| 0 <= i < outcomes.len() ==> !outcomes[i],
    ensures
        replayed(policy, fresh(), outcomes) == (ConnectorModel { attempts: outcomes.len(), connected: false }),
    decreases outcomes.len(),
{
    if outcomes.len() > 0 {
        lemma_failures_keep_trying(policy, outcomes.drop_last());
    }
}

/// Against attempts that fail `failures` times and then succeed, a connector
/// whose policy allows `failures + 1` attempts has a session after exactly
/// that many, and after any smaller number of them it has none. The
/// relentless policy allows any number.
pub proof fn lemma_retry_until_success(policy: RetryPolicy, failures: nat, fewer: nat)
    requires
        failures < u64::MAX,
        policy.allows(failures),
        fewer <= failures,
    ensures
        replayed(policy, fresh(), fails_then_succeeds(failures)) == (ConnectorModel {
            attempts: failures + 1,
            connected: true,
        }),
        replayed(policy, fresh(), fails_then_succeeds(failures).take(fewer as int)) == (ConnectorModel {
            attempts: fewer,
            connected: false,
        }),
{
    let script = fails_then_succeeds(failures);
    lemma_failures_keep_trying(policy, script.drop_last());
    lemma_failures_keep_trying(policy, script.take(fewer as int));
}

/// A connector never makes more attempts than its policy allows, and
/// without a pause configured it retries at once.
pub proof fn lemma_policy_is_kept(policy: RetryPolicy, outcomes: Seq<bool>, failures: nat)
    ensures
        policy.max_attempts matches Some(most) ==> replayed(policy, fresh(), outcomes).attempts <= most,
        backoff(0, policy.max_delay_ms as nat, failures) == 0,
    decreases outcomes.len(),
{
    if outcomes.len() > 0 {
        lemma_policy_is_kept(policy, outcomes.drop_last(), failures);
    }
    if failures > 0 {
        assert(0 * pow2((failures - 1) as nat) == 0) by (nonlinear_arith);
    }
}

} // verus!
