//! The bounded wait for a handler that may not be registered yet.
//!
//! The primary and the workers of a node start in any order, so a caller may
//! look for a handler before its owner has registered it. A discovery looks
//! again after a fixed interval, a bounded number of times. This module
//! decides, after each look, what the caller does next; the caller does the
//! waiting, and holds no lock while it waits.

use vstd::prelude::*;
use crate::error::LocalClientError;
use crate::peer_id::PeerId;
use crate::registry::Lookup;
use crate::registry::RegistryState;

verus! {

/// How often a discovery looks before it gives up, unless told otherwise.
pub const MAX_ATTEMPTS: u32 = 10;

/// How long a discovery waits between two looks, in milliseconds, unless
/// told otherwise.
pub const RETRY_INTERVAL_MS: u64 = 500;

/// How often a discovery looks, and how long it waits after a look that
/// found nothing.
#[derive(Clone, Copy, Debug, PartialEq, Eq, Structural)]
pub struct RetryPolicy {
    pub max_attempts: u32,
    pub interval_ms: u64,
}

impl RetryPolicy {
    /// The policy of `MAX_ATTEMPTS` looks, `RETRY_INTERVAL_MS` apart.
    pub open spec fn standard_policy() -> RetryPolicy {
        RetryPolicy { max_attempts: MAX_ATTEMPTS, interval_ms: RETRY_INTERVAL_MS }
    }

    /// The longest that a discovery under this policy waits in all, in
    /// milliseconds.
    pub open spec fn longest_wait(self) -> nat {
        self.max_attempts as nat * self.interval_ms as nat
    }

    /// The policy of `MAX_ATTEMPTS` looks, `RETRY_INTERVAL_MS` apart.
    pub fn standard() -> (policy: RetryPolicy)
        ensures
            policy == RetryPolicy::standard_policy(),
            policy.max_attempts == 10,
            policy.interval_ms == 500,
            policy.longest_wait() == 5000,
    {
        RetryPolicy { max_attempts: MAX_ATTEMPTS, interval_ms: RETRY_INTERVAL_MS }
    }

    /// A policy of `max_attempts` looks, `interval_ms` milliseconds apart.
    pub fn new(max_attempts: u32, interval_ms: u64) -> (policy: RetryPolicy)
        ensures
            policy == (RetryPolicy { max_attempts, interval_ms }),
    {
        RetryPolicy { max_attempts, interval_ms }
    }

    /// The longest that a discovery under this policy waits in all, in
    /// milliseconds.
    pub fn longest_wait_ms(&self) -> (total: u128)
        ensures
            total == self.longest_wait(),
    {
        let attempts: u128 = self.max_attempts as u128;
        let interval: u128 = self.interval_ms as u128;
        assert(attempts * interval <= 0xffff_ffff * 0xffff_ffff_ffff_ffff) by (nonlinear_arith)
            requires
                0 <= attempts <= 0xffff_ffff,
                0 <= interval <= 0xffff_ffff_ffff_ffff,
        ;
        attempts * interval
    }
}

impl Default for RetryPolicy {
    fn default() -> (policy: RetryPolicy)
        ensures
            policy == RetryPolicy::standard_policy(),
    {
        RetryPolicy::standard()
    }
}

/// What the caller of a discovery does after a look.
#[derive(Debug)]
pub enum Step<H> {
    /// The handler is found: call it.
    Ready(H),
    /// The discovery has failed: hand the error on.
    Failed(LocalClientError),
    /// Nothing is registered yet: wait this many milliseconds, holding no
    /// lock, then look again.
    Wait(u64),
}

/// The progress of one discovery: its policy, and how many looks found
/// nothing so far.
#[derive(Clone, Copy, Debug, PartialEq, Eq, Structural)]
pub struct Discovery {
    pub policy: RetryPolicy,
    pub attempts: u32,
}

impl Discovery {
    /// A discovery that has not looked yet.
    pub open spec fn start(policy: RetryPolicy) -> Discovery {
        Discovery { policy, attempts: 0 }
    }

    /// Whether every look that the policy allows has been made.
    pub open spec fn exhausted(self) -> bool {
        self.attempts >= self.policy.max_attempts
    }

    /// The discovery after one more look that found nothing.
    pub open spec fn missed(self) -> Discovery {
        if self.exhausted() {
            self
        } else {
            Discovery { attempts: (self.attempts + 1) as u32, ..self }
        }
    }

    /// The discovery after `n` more looks that found nothing.
    pub open spec fn after_misses(self, n: nat) -> Discovery
        decreases n,
    {
        if n == 0 {
            self
        } else {
            self.after_misses((n - 1) as nat).missed()
        }
    }

    /// The milliseconds that the caller has been told to wait so far.
    pub open spec fn waited(self) -> nat {
        self.attempts as nat * self.policy.interval_ms as nat
    }

    /// The discovery after a look that found `observed`, and what the caller
    /// does next. A discovery that is exhausted looks no more and fails with
    /// `not_started`. Otherwise a shutdown fails it at once, a handler ends
    /// it, and a miss costs one attempt and one interval of waiting.
    pub open spec fn next<H>(self, observed: Lookup<H>, not_started: LocalClientError) -> (
        Discovery,
        Step<H>,
    ) {
        if self.exhausted() {
            (self, Step::Failed(not_started))
        } else {
            match observed {
                Lookup::ShuttingDown => (self, Step::Failed(LocalClientError::ShuttingDown)),
                Lookup::Found(handler) => (self, Step::Ready(handler)),
                Lookup::Missing => (self.missed(), Step::Wait(self.policy.interval_ms)),
            }
        }
    }

    /// Whether `after` and `step` are what some look leads to from here,
    /// whatever it found.
    pub open spec fn leads_to<H>(
        self,
        after: Discovery,
        step: Step<H>,
        not_started: LocalClientError,
    ) -> bool {
        match step {
            Step::Ready(_) => !self.exhausted() && after == self,
            Step::Failed(error) => after == self && error == (if self.exhausted() {
                not_started
            } else {
                LocalClientError::ShuttingDown
            }),
            Step::Wait(millis) => !self.exhausted() && after == self.missed() && millis
                == self.policy.interval_ms,
        }
    }

    /// `leads_to` holds of what `next` gives for a finding, and of nothing
    /// else.
    pub proof fn lemma_leads_to<H>(
        self,
        after: Discovery,
        step: Step<H>,
        not_started: LocalClientError,
    )
        ensures
            self.leads_to(after, step, not_started) <==> exists|observed: Lookup<H>| #[trigger]
                self.next(observed, not_started) == (after, step),
    {
        if self.leads_to(after, step, not_started) {
            let observed = match step {
                Step::Ready(handler) => Lookup::Found(handler),
                Step::Failed(_) => Lookup::ShuttingDown,
                Step::Wait(_) => Lookup::Missing,
            };
            assert(self.next(observed, not_started) == (after, step));
        }
    }

    /// A discovery that has not looked yet.
    pub fn new(policy: RetryPolicy) -> (discovery: Discovery)
        ensures
            discovery == Discovery::start(policy),
    {
        Discovery { policy, attempts: 0 }
    }

    /// Whether every look that the policy allows has been made.
    pub fn is_exhausted(&self) -> (exhausted: bool)
        ensures
            exhausted == self.exhausted(),
    {
        self.attempts >= self.policy.max_attempts
    }

    /// Takes in what a look found and says what the caller does next.
    /// `not_started` is the error of a discovery that found nothing in all
    /// its looks.
    pub fn step<H>(&mut self, observed: Lookup<H>, not_started: LocalClientError) -> (step: Step<H>)
        ensures
            (*final(self), step) == old(self).next(observed, not_started),
    {
        if self.attempts >= self.policy.max_attempts {
            return Step::Failed(not_started);
        }
        match observed {
            Lookup::ShuttingDown => Step::Failed(LocalClientError::ShuttingDown),
            Lookup::Found(handler) => Step::Ready(handler),
            Lookup::Missing => {
                self.attempts = self.attempts + 1;
                Step::Wait(self.policy.interval_ms)
            },
        }
    }
}

impl Discovery {
    /// Looks that find nothing count up to the policy's bound and no
    /// further, and each one that counts costs one interval of waiting.
    pub proof fn lemma_misses_count(policy: RetryPolicy, n: nat)
        ensures
            Discovery::start(policy).after_misses(n).policy == policy,
            Discovery::start(policy).after_misses(n).attempts == (if n <= policy.max_attempts {
                n
            } else {
                policy.max_attempts as nat
            }),
            Discovery::start(policy).after_misses(n).exhausted() <==> n >= policy.max_attempts,
            n <= policy.max_attempts ==> Discovery::start(policy).after_misses(n).waited() == n
                * policy.interval_ms,
        decreases n,
    {
        if n > 0 {
            Self::lemma_misses_count(policy, (n - 1) as nat);
        }
    }

    /// A discovery of a target that is not registered, in a registry that is
    /// not shut down, is told to wait one interval after each of the looks
    /// that the policy allows.
    pub proof fn lemma_unregistered_waits<WP, PW, WW>(
        policy: RetryPolicy,
        n: nat,
        registry: RegistryState<WP, PW, WW>,
        worker_id: PeerId,
        not_started: LocalClientError,
    )
        requires
            n < policy.max_attempts,
            !registry.shutdown,
        ensures
            !Discovery::start(policy).after_misses(n).exhausted(),
            registry.worker_to_primary is None ==> Discovery::start(policy).after_misses(n).next(
                registry.find_worker_to_primary(),
                not_started,
            ) == (Discovery::start(policy).after_misses(n + 1), Step::<WP>::Wait(policy.interval_ms)),
            !registry.primary_to_worker.contains_key(worker_id) ==> Discovery::start(
                policy,
            ).after_misses(n).next(registry.find_primary_to_worker(worker_id), not_started) == (
                Discovery::start(policy).after_misses(n + 1),
                Step::<PW>::Wait(policy.interval_ms),
            ),
            !registry.worker_to_worker.contains_key(worker_id) ==> Discovery::start(
                policy,
            ).after_misses(n).next(registry.find_worker_to_worker(worker_id), not_started) == (
                Discovery::start(policy).after_misses(n + 1),
                Step::<WW>::Wait(policy.interval_ms),
            ),
    {
        Self::lemma_misses_count(policy, n);
        Self::lemma_misses_count(policy, n + 1);
    }

    /// A discovery that found nothing in all the looks that the policy
    /// allows fails with `not_started` without another look. By then it has
    /// waited the policy's longest wait, which is no less than one interval
    /// after each look but the last.
    pub proof fn lemma_unregistered_times_out<H>(policy: RetryPolicy, not_started: LocalClientError)
        ensures
            Discovery::start(policy).after_misses(policy.max_attempts as nat).exhausted(),
            forall|observed: Lookup<H>| #[trigger]
                Discovery::start(policy).after_misses(policy.max_attempts as nat).next(
                    observed,
                    not_started,
                ) == (
                    Discovery::start(policy).after_misses(policy.max_attempts as nat),
                    Step::<H>::Failed(not_started),
                ),
            Discovery::start(policy).after_misses(policy.max_attempts as nat).waited()
                == policy.longest_wait(),
            policy.longest_wait() >= (policy.max_attempts - 1) * policy.interval_ms,
    {
        Self::lemma_misses_count(policy, policy.max_attempts as nat);
        assert(policy.max_attempts * policy.interval_ms >= (policy.max_attempts - 1)
            * policy.interval_ms) by (nonlinear_arith);
    }

    /// A look at a registry that is shut down fails a discovery that may
    /// still look, at once: with a shutdown, whatever was registered before,
    /// and with no wait.
    pub proof fn lemma_shutdown_fails_at_once<WP, PW, WW>(
        self,
        registry: RegistryState<WP, PW, WW>,
        worker_id: PeerId,
        not_started: LocalClientError,
    )
        requires
            !self.exhausted(),
        ensures
            self.next(registry.shut_down().find_worker_to_primary(), not_started) == (
                self,
                Step::<WP>::Failed(LocalClientError::ShuttingDown),
            ),
            self.next(registry.shut_down().find_primary_to_worker(worker_id), not_started) == (
                self,
                Step::<PW>::Failed(LocalClientError::ShuttingDown),
            ),
            self.next(registry.shut_down().find_worker_to_worker(worker_id), not_started) == (
                self,
                Step::<WW>::Failed(LocalClientError::ShuttingDown),
            ),
    {
    }

    /// A discovery that has looked in vain fewer times than the policy
    /// allows finds, at its next look, a handler that was registered in the
    /// meantime.
    pub proof fn lemma_late_registration_is_found<WP, PW, WW>(
        policy: RetryPolicy,
        n: nat,
        registry: RegistryState<WP, PW, WW>,
        worker_id: PeerId,
        to_primary: WP,
        to_worker: PW,
        between_workers: WW,
        not_started: LocalClientError,
    )
        requires
            n < policy.max_attempts,
            !registry.shutdown,
        ensures
            Discovery::start(policy).after_misses(n).next(
                registry.register_worker_to_primary(to_primary).find_worker_to_primary(),
                not_started,
            ) == (Discovery::start(policy).after_misses(n), Step::Ready(to_primary)),
            Discovery::start(policy).after_misses(n).next(
                registry.register_primary_to_worker(worker_id, to_worker).find_primary_to_worker(
                    worker_id,
                ),
                not_started,
            ) == (Discovery::start(policy).after_misses(n), Step::Ready(to_worker)),
            Discovery::start(policy).after_misses(n).next(
                registry.register_worker_to_worker(worker_id, between_workers).find_worker_to_worker(
                    worker_id,
                ),
                not_started,
            ) == (Discovery::start(policy).after_misses(n), Step::Ready(between_workers)),
    {
        Self::lemma_misses_count(policy, n);
    }
}

} // verus!
