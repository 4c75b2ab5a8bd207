//! The publish pipeline: tier by tier, package by package, with retries.
//!
//! The pipeline decides; the registry is reached from outside. The caller
//! asks for the next action, performs it, and hands back its outcome. Tiers
//! are worked through strictly in order, and within a tier the packages one
//! after the other. `publish_all` runs a whole plan through a function that
//! publishes one package.

use vstd::prelude::*;
use crate::error::PublishError;
use crate::graph::TierPlan;
use crate::state::{PackageStatus, PublishState};

verus! {

/// Settings of the publish pipeline.
#[derive(Debug, Clone, PartialEq, Eq)]
pub struct PublisherConfig {
    /// Delay between two packages, in milliseconds.
    pub inter_package_delay_ms: u64,
    /// How often a publish that failed for a passing reason is repeated.
    pub max_retries: u32,
    /// Delay before the first retry, in milliseconds; it grows with each retry.
    pub backoff_base_ms: u64,
    /// How many packages of one tier may be under way at a time; 0 counts as 1.
    pub max_concurrent_per_tier: usize,
    /// The registry to publish to; the default one where none is named.
    pub registry: Option<String>,
}

impl PublisherConfig {
    /// The number of packages that may be under way at a time: at least one.
    pub open spec fn workers(self) -> int {
        if self.max_concurrent_per_tier == 0 {
            1
        } else {
            self.max_concurrent_per_tier as int
        }
    }
}

/// What the registry answered to one publish attempt.
#[derive(Debug)]
pub enum PublishOutcome {
    /// The package was published.
    Published,
    /// The attempt failed.
    Failed(PublishError),
}

/// What the caller is to do next.
#[derive(Debug, Clone, Copy, PartialEq, Eq, Structural)]
pub enum PublishAction {
    /// Wait `delay_ms` milliseconds, then publish `package`; this is its
    /// attempt number `attempt`, counted from 1.
    Publish { package: usize, attempt: u64, delay_ms: u64 },
    /// Every package has its outcome.
    Finished,
}

/// `a * b`, or the largest value where that does not fit.
pub open spec fn capped_product(a: u64, b: u64) -> u64 {
    if a * b > u64::MAX {
        u64::MAX
    } else {
        (a * b) as u64
    }
}

/// Computes [`capped_product`].
pub fn capped_mul(a: u64, b: u64) -> (r: u64)
    ensures
        r == capped_product(a, b),
{
    match a.checked_mul(b) {
        Some(r) => r,
        None => u64::MAX,
    }
}

/// The delay before the retry that follows failed attempt number `attempt`:
/// what the registry asked for where it limited the rate, else the base
/// delay times the number of failed attempts.
pub open spec fn retry_delay(config: PublisherConfig, error: PublishError, attempt: u64) -> u64 {
    match error {
        PublishError::RateLimitExceeded { retry_after_seconds } => capped_product(
            retry_after_seconds,
            1000,
        ),
        _ => capped_product(config.backoff_base_ms, attempt),
    }
}

/// What is recorded of a package on `outcome` after `failed` failed
/// attempts: published where the registry took it or holds it already,
/// failed where the failure is lasting or the retries are used up, and
/// `None` where the attempt is to be repeated.
pub open spec fn verdict(config: PublisherConfig, failed: u64, outcome: PublishOutcome) -> Option<
    PackageStatus,
> {
    let attempts = (failed + 1) as u64;
    match outcome {
        PublishOutcome::Published => Some(
            PackageStatus::Published { attempts, already_published: false },
        ),
        PublishOutcome::Failed(PublishError::AlreadyPublished { .. }) => Some(
            PackageStatus::Published { attempts, already_published: true },
        ),
        PublishOutcome::Failed(error) => if error.is_transient() && failed < config.max_retries {
            None
        } else {
            Some(PackageStatus::Failed { attempts, error })
        },
    }
}

/// The packages before position (`tier`, `index`) in publish order all have
/// their outcome.
pub open spec fn settled_before(
    tiers: Seq<Seq<usize>>,
    status: Seq<PackageStatus>,
    tier: int,
    index: int,
) -> bool {
    &&& forall|t: int, j: int|
        0 <= t < tier && t < tiers.len() && 0 <= j < tiers[t].len() ==> !(
        status[(#[trigger] tiers[t][j]) as int] is Pending)
    &&& tier < tiers.len() ==> forall|j: int|
        0 <= j < index && j < tiers[tier].len() ==> !(status[(#[trigger] tiers[tier][j]) as int] is Pending)
}

/// The first position at or after (`tier`, `index`) whose package has no
/// outcome yet, or the end of the plan.
fn seek(plan: &TierPlan, state: &PublishState, tier: usize, index: usize) -> (r: (usize, usize))
    requires
        plan.wf(),
        state.status@.len() == plan.ranks().len(),
        tier <= plan.tiers().len(),
        tier < plan.tiers().len() ==> index <= plan.tiers()[tier as int].len(),
        settled_before(plan.tiers(), state.status@, tier as int, index as int),
    ensures
        tier <= r.0 <= plan.tiers().len(),
        r.0 < plan.tiers().len() ==> r.1 < plan.tiers()[r.0 as int].len()
            && state.status@[plan.tiers()[r.0 as int][r.1 as int] as int] is Pending,
        r.0 == plan.tiers().len() ==> r.1 == 0,
        settled_before(plan.tiers(), state.status@, r.0 as int, r.1 as int),
{
    let count = plan.tier_count();
    let mut t: usize = tier;
    let mut i: usize = index;
    while t < count
        invariant
            plan.wf(),
            count == plan.tiers().len(),
            state.status@.len() == plan.ranks().len(),
            t <= count,
            t < count ==> i <= plan.tiers()[t as int].len(),
            tier <= t,
            settled_before(plan.tiers(), state.status@, t as int, i as int),
        decreases count - t, (if t < count {
            plan.tiers()[t as int].len() - i
        } else {
            0
        }),
    {
        let members = plan.tier(t);
        if i >= members.len() {
            t = t + 1;
            i = 0;
        } else {
            let p: usize = members[i];
            assert(plan.tiers()[t as int][i as int] < plan.ranks().len());
            let pending = match &state.status[p] {
                PackageStatus::Pending => true,
                _ => false,
            };
            if pending {
                return (t, i);
            }
            i = i + 1;
        }
    }
    (t, 0)
}

/// The state of a publish run.
#[derive(Debug)]
pub struct PublishPipeline {
    plan: TierPlan,
    config: PublisherConfig,
    state: PublishState,
    tier: usize,
    index: usize,
    attempts: u64,
    delay_ms: u64,
}

impl PublishPipeline {
    /// The tiers of the plan that is being published.
    pub closed spec fn tiers(self) -> Seq<Seq<usize>> {
        self.plan.tiers()
    }

    /// The settings of the run.
    pub closed spec fn config(self) -> PublisherConfig {
        self.config
    }

    /// The bookkeeping so far.
    pub closed spec fn state(self) -> PublishState {
        self.state
    }

    /// Every package has its outcome.
    pub closed spec fn finished(self) -> bool {
        self.tier >= self.plan.tiers().len()
    }

    /// The tier that is being published.
    pub closed spec fn current_tier(self) -> int {
        self.tier as int
    }

    /// The package that is to be published next.
    pub closed spec fn current(self) -> usize {
        self.plan.tiers()[self.tier as int][self.index as int]
    }

    /// How many attempts on the current package have failed.
    pub closed spec fn failed_attempts(self) -> u64 {
        self.attempts
    }

    /// The delay before the next attempt.
    pub closed spec fn pending_delay(self) -> u64 {
        self.delay_ms
    }

    /// The cursor stands on the first package without outcome, all packages
    /// before it have theirs, and the retries are within their limit.
    pub closed spec fn wf(self) -> bool {
        &&& self.plan.wf()
        &&& self.state.status@.len() == self.plan.ranks().len()
        &&& self.plan.ranks().len() <= usize::MAX
        &&& self.state.tier_count == self.plan.tiers().len()
        &&& self.attempts <= self.config.max_retries
        &&& self.tier <= self.plan.tiers().len()
        &&& self.tier < self.plan.tiers().len() ==> self.index < self.plan.tiers()[self.tier as int].len()
            && self.state.status@[self.current() as int] is Pending
        &&& settled_before(self.plan.tiers(), self.state.status@, self.tier as int, self.index as int)
    }

    /// Begins a publish run in which no package has an outcome yet.
    pub fn start(plan: TierPlan, config: PublisherConfig) -> (pipeline: PublishPipeline)
        requires
            plan.wf(),
        ensures
            pipeline.wf(),
            pipeline.tiers() == plan.tiers(),
            pipeline.config() == config,
            pipeline.failed_attempts() == 0,
            pipeline.pending_delay() == 0,
            pipeline.state().tier_count == plan.tiers().len(),
            pipeline.state().status@.len() == plan.ranks().len(),
            forall|p: int|
                0 <= p < plan.ranks().len() ==> (#[trigger] pipeline.state().status@[p]) is Pending,
    {
        let state = PublishState::new(plan.tier_count(), plan.package_count());
        let (tier, index) = seek(&plan, &state, 0, 0);
        PublishPipeline { plan, config, state, tier, index, attempts: 0, delay_ms: 0 }
    }

    /// Takes up a publish run from the bookkeeping of an earlier one. The
    /// packages that were published stay published and are not published
    /// again; all others, those that failed too, are tried anew.
    pub fn resume(plan: TierPlan, config: PublisherConfig, prior: &PublishState) -> (pipeline:
        PublishPipeline)
        requires
            plan.wf(),
        ensures
            pipeline.wf(),
            pipeline.tiers() == plan.tiers(),
            pipeline.config() == config,
            pipeline.failed_attempts() == 0,
            pipeline.pending_delay() == 0,
            pipeline.state().tier_count == plan.tiers().len(),
            pipeline.state().status@.len() == plan.ranks().len(),
            forall|p: int|
                0 <= p < plan.ranks().len() ==> (#[trigger] pipeline.state().status@[p]) == (if prior.is_published(
                    p,
                ) {
                    prior.status@[p]
                } else {
                    PackageStatus::Pending
                }),
            forall|p: int|
                0 <= p < plan.ranks().len() && prior.is_published(p) ==> pipeline.state().is_published(
                    p,
                ),
    {
        let count = plan.package_count();
        let mut status: Vec<PackageStatus> = Vec::new();
        let mut p: usize = 0;
        while p < count
            invariant
                p <= count,
                count == plan.ranks().len(),
                status@.len() == p,
                forall|q: int|
                    0 <= q < p ==> (#[trigger] status@[q]) == (if prior.is_published(q) {
                        prior.status@[q]
                    } else {
                        PackageStatus::Pending
                    }),
            decreases count - p,
        {
            let kept = if p < prior.status.len() {
                match &prior.status[p] {
                    PackageStatus::Published { attempts, already_published } => PackageStatus::Published {
                        attempts: *attempts,
                        already_published: *already_published,
                    },
                    _ => PackageStatus::Pending,
                }
            } else {
                PackageStatus::Pending
            };
            status.push(kept);
            p = p + 1;
        }
        let state = PublishState { tier_count: plan.tier_count(), status };
        let (tier, index) = seek(&plan, &state, 0, 0);
        PublishPipeline { plan, config, state, tier, index, attempts: 0, delay_ms: 0 }
    }

    /// Whether every package has its outcome.
    pub fn is_finished(&self) -> (r: bool)
        ensures
            r == self.finished(),
    {
        self.tier >= self.plan.tier_count()
    }

    /// The bookkeeping so far.
    pub fn publish_state(&self) -> (r: &PublishState)
        ensures
            *r == self.state(),
    {
        &self.state
    }

    /// Ends the run and hands out its bookkeeping.
    pub fn into_state(self) -> (r: PublishState)
        ensures
            r == self.state(),
    {
        self.state
    }

    /// The next action. A package is handed out only while it has no
    /// outcome, and only once every package of the tiers before its own has one.
    pub fn next_action(&self) -> (action: PublishAction)
        requires
            self.wf(),
        ensures
            self.finished() ==> action == PublishAction::Finished,
            !self.finished() ==> action == (PublishAction::Publish {
                package: self.current(),
                attempt: (self.failed_attempts() + 1) as u64,
                delay_ms: self.pending_delay(),
            }),
            !self.finished() ==> 0 <= self.current_tier() < self.tiers().len()
                && self.tiers()[self.current_tier()].contains(self.current())
                && self.current() < self.state().status@.len()
                && self.state().status@[self.current() as int] is Pending
                && !self.state().is_published(self.current() as int),
            !self.finished() ==> forall|t: int, j: int|
                0 <= t < self.current_tier() && 0 <= j < self.tiers()[t].len()
                    ==> self.state().is_settled((#[trigger] self.tiers()[t][j]) as int),
            !self.finished() ==> forall|j: int|
                0 <= j < self.tiers()[self.current_tier()].len() && (
                #[trigger] self.tiers()[self.current_tier()][j]) < self.current()
                    ==> self.state().is_settled(self.tiers()[self.current_tier()][j] as int),
            self.finished() ==> forall|p: int|
                0 <= p < self.state().status@.len() ==> self.state().is_settled(p),
            self.failed_attempts() <= self.config().max_retries,
    {
        proof {
            self.lemma_barrier();
        }
        if self.tier >= self.plan.tier_count() {
            PublishAction::Finished
        } else {
            let package: usize = self.plan.tier(self.tier)[self.index];
            PublishAction::Publish { package, attempt: self.attempts + 1, delay_ms: self.delay_ms }
        }
    }

    /// The packages that may be under way together now: the current package
    /// and the packages of its tier that follow it and have no outcome yet,
    /// as many as the settings allow. No package of a later tier is among
    /// them. The outcome of each is handed in when `next_action` names its
    /// package.
    pub fn next_batch(&self) -> (batch: Vec<usize>)
        requires
            self.wf(),
        ensures
            self.finished() ==> batch@.len() == 0,
            !self.finished() ==> batch@.len() >= 1 && batch@[0] == self.current(),
            batch@.len() <= self.config().workers(),
            forall|i: int|
                0 <= i < batch@.len() ==> self.tiers()[self.current_tier()].contains(#[trigger] batch@[i])
                    && self.state().status@[batch@[i] as int] is Pending,
            forall|i: int, j: int| 0 <= i < j < batch@.len() ==> batch@[i] < batch@[j],
            batch@.len() < self.config().workers() && !self.finished() ==> forall|j: int|
                0 <= j < self.tiers()[self.current_tier()].len() && self.state().status@[(
                #[trigger] self.tiers()[self.current_tier()][j]) as int] is Pending
                    ==> batch@.contains(self.tiers()[self.current_tier()][j]),
    {
        let mut batch: Vec<usize> = Vec::new();
        if self.tier >= self.plan.tier_count() {
            return batch;
        }
        let limit: usize = if self.config.max_concurrent_per_tier == 0 {
            1
        } else {
            self.config.max_concurrent_per_tier
        };
        let members = self.plan.tier(self.tier);
        let ghost tier = self.plan.tiers()[self.tier as int];
        let ghost status = self.state.status@;
        let mut j: usize = self.index;
        while j < members.len() && batch.len() < limit
            invariant
                self.wf(),
                self.tier < self.plan.tiers().len(),
                members@ == tier,
                tier == self.plan.tiers()[self.tier as int],
                status == self.state.status@,
                limit == self.config.workers(),
                self.index <= j <= tier.len(),
                batch@.len() <= limit,
                j == self.index ==> batch@.len() == 0,
                j > self.index ==> batch@.len() >= 1 && batch@[0] == tier[self.index as int],
                forall|i: int|
                    0 <= i < batch@.len() ==> tier.contains(#[trigger] batch@[i])
                        && status[batch@[i] as int] is Pending && exists|m: int|
                        self.index <= m < j && tier[m] == batch@[i],
                forall|a: int, b: int| 0 <= a < b < batch@.len() ==> batch@[a] < batch@[b],
                forall|m: int|
                    self.index <= m < j && status[(#[trigger] tier[m]) as int] is Pending
                        ==> batch@.contains(tier[m]),
            decreases tier.len() - j,
        {
            let p: usize = members[j];
            assert(tier[j as int] < self.plan.ranks().len());
            let pending = match &self.state.status[p] {
                PackageStatus::Pending => true,
                _ => false,
            };
            if pending {
                let ghost before = batch@;
                batch.push(p);
                proof {
                    assert forall|i: int| 0 <= i < batch@.len() implies tier.contains(#[trigger] batch@[i])
                        && status[batch@[i] as int] is Pending && exists|m: int|
                        self.index <= m < j + 1 && tier[m] == batch@[i] by {
                        if i < before.len() {
                            let m = choose|m: int| self.index <= m < j && tier[m] == before[i];
                            assert(tier[m] == batch@[i]);
                        } else {
                            assert(tier[j as int] == batch@[i]);
                        }
                    }
                    assert forall|a: int, b: int| 0 <= a < b < batch@.len() implies batch@[a] < batch@[b] by {
                        if b == before.len() {
                            let m = choose|m: int| self.index <= m < j && tier[m] == before[a];
                            assert(tier[m] < tier[j as int]);
                        }
                    }
                    assert forall|m: int|
                        self.index <= m < j + 1 && status[(#[trigger] tier[m]) as int] is Pending implies batch@.contains(
                        tier[m],
                    ) by {
                        if m < j {
                            let i = choose|i: int| 0 <= i < before.len() && before[i] == tier[m];
                            assert(batch@[i] == tier[m]);
                        } else {
                            assert(batch@[before.len() as int] == tier[m]);
                        }
                    }
                }
            }
            j = j + 1;
        }
        proof {
            if batch@.len() < limit {
                assert forall|m: int|
                    0 <= m < tier.len() && status[(#[trigger] tier[m]) as int] is Pending implies batch@.contains(
                    tier[m],
                ) by {
                    if m < self.index {
                        assert(!(status[tier[m] as int] is Pending));
                    }
                }
            }
        }
        batch
    }

    /// While the run is under way, every package of the tiers before the
    /// current one has its outcome; once it has finished, every package has.
    pub proof fn lemma_barrier(self)
        requires
            self.wf(),
        ensures
            !self.finished() ==> 0 <= self.current_tier() < self.tiers().len()
                && self.tiers()[self.current_tier()].contains(self.current())
                && self.current() < self.state().status@.len()
                && self.state().status@[self.current() as int] is Pending
                && !self.state().is_published(self.current() as int),
            !self.finished() ==> forall|t: int, j: int|
                0 <= t < self.current_tier() && 0 <= j < self.tiers()[t].len()
                    ==> self.state().is_settled((#[trigger] self.tiers()[t][j]) as int),
            !self.finished() ==> forall|j: int|
                0 <= j < self.tiers()[self.current_tier()].len() && (
                #[trigger] self.tiers()[self.current_tier()][j]) < self.current()
                    ==> self.state().is_settled(self.tiers()[self.current_tier()][j] as int),
            self.finished() ==> forall|p: int|
                0 <= p < self.state().status@.len() ==> self.state().is_settled(p),
            self.failed_attempts() <= self.config().max_retries,
    {
        let tiers = self.plan.tiers();
        let ranks = self.plan.ranks();
        let status = self.state.status@;
        if self.tier < tiers.len() {
            assert(tiers[self.tier as int][self.index as int] == self.current());
            assert(tiers[self.tier as int][self.index as int] < ranks.len());
            assert forall|t: int, j: int| 0 <= t < self.tier && 0 <= j < tiers[t].len() implies self.state.is_settled(
                (#[trigger] tiers[t][j]) as int,
            ) by {
                assert(tiers[t][j] < ranks.len());
                assert(!(status[tiers[t][j] as int] is Pending));
            }
            let tier = tiers[self.tier as int];
            assert forall|j: int|
                0 <= j < tier.len() && (#[trigger] tier[j]) < self.current() implies self.state.is_settled(
                tier[j] as int,
            ) by {
                if j >= self.index {
                    if j > self.index {
                        assert(tier[self.index as int] < tier[j]);
                    }
                } else {
                    assert(tier[j] < ranks.len());
                    assert(!(status[tier[j] as int] is Pending));
                }
            }
        } else {
            assert forall|p: int| 0 <= p < status.len() implies self.state.is_settled(p) by {
                let t = ranks[p] as int;
                assert(tiers[t].contains(p as usize));
                let j = choose|j: int| 0 <= j < tiers[t].len() && tiers[t][j] == p as usize;
                assert(!(status[tiers[t][j] as int] is Pending));
            }
        }
    }

    /// Takes in the outcome of the attempt that was last handed out.
    ///
    /// A published package, and one that the registry holds already, is
    /// recorded as published. A failure for a passing reason is retried
    /// until `max_retries` retries are used up. Any other failure, and the
    /// last of the retries, is recorded as failed. After a record the run
    /// goes on with the next package that has no outcome: a failure ends
    /// neither the tier nor the run.
    pub fn record_outcome(&mut self, outcome: PublishOutcome)
        requires
            old(self).wf(),
            !old(self).finished(),
        ensures
            final(self).wf(),
            final(self).tiers() == old(self).tiers(),
            final(self).config() == old(self).config(),
            final(self).state().tier_count == old(self).state().tier_count,
            forall|p: int|
                old(self).state().is_published(p) ==> final(self).state().status@[p] == old(self).state().status@[p],
            match verdict(old(self).config(), old(self).failed_attempts(), outcome) {
                Some(status) => {
                    &&& final(self).state().status@ == old(self).state().status@.update(
                        old(self).current() as int,
                        status,
                    )
                    &&& final(self).failed_attempts() == 0
                    &&& final(self).pending_delay() == old(self).config().inter_package_delay_ms
                },
                None => {
                    &&& final(self).state() == old(self).state()
                    &&& !final(self).finished()
                    &&& final(self).current() == old(self).current()
                    &&& final(self).current_tier() == old(self).current_tier()
                    &&& final(self).failed_attempts() == old(self).failed_attempts() + 1
                    &&& final(self).pending_delay() == retry_delay(
                        old(self).config(),
                        outcome->Failed_0,
                        (old(self).failed_attempts() + 1) as u64,
                    )
                },
            },
    {
        proof {
            self.lemma_barrier();
        }
        let members = self.plan.tier(self.tier);
        let size = members.len();
        let package: usize = members[self.index];
        let following: usize = self.index + 1;
        let attempt: u64 = self.attempts + 1;
        let settled = match outcome {
            PublishOutcome::Published => Some(
                PackageStatus::Published { attempts: attempt, already_published: false },
            ),
            PublishOutcome::Failed(PublishError::AlreadyPublished { .. }) => Some(
                PackageStatus::Published { attempts: attempt, already_published: true },
            ),
            PublishOutcome::Failed(error) => {
                if error.transient() && self.attempts < self.config.max_retries as u64 {
                    self.delay_ms = match &error {
                        PublishError::RateLimitExceeded { retry_after_seconds } => capped_mul(
                            *retry_after_seconds,
                            1000,
                        ),
                        _ => capped_mul(self.config.backoff_base_ms, attempt),
                    };
                    None
                } else {
                    Some(PackageStatus::Failed { attempts: attempt, error })
                }
            },
        };
        match settled {
            None => {
                self.attempts = attempt;
            },
            Some(status) => {
                let ghost before = self.state.status@;
                self.state.status.set(package, status);
                proof {
                    let tiers = self.plan.tiers();
                    let after = self.state.status@;
                    assert forall|t: int, j: int|
                        0 <= t < self.tier && t < tiers.len() && 0 <= j < tiers[t].len() implies !(after[(
                    #[trigger] tiers[t][j]) as int] is Pending) by {
                        assert(!(before[tiers[t][j] as int] is Pending));
                    }
                    assert forall|j: int| 0 <= j < self.index + 1 && j < tiers[self.tier as int].len() implies !(
                    after[(#[trigger] tiers[self.tier as int][j]) as int] is Pending) by {
                        if j < self.index {
                            assert(!(before[tiers[self.tier as int][j] as int] is Pending));
                        }
                    }
                }
                let (tier, index) = seek(&self.plan, &self.state, self.tier, following);
                self.tier = tier;
                self.index = index;
                self.attempts = 0;
                self.delay_ms = self.config.inter_package_delay_ms;
            },
        }
    }
}

/// How many packages have no outcome yet.
pub open spec fn pending_count(status: Seq<PackageStatus>) -> nat
    decreases status.len(),
{
    if status.len() == 0 {
        0
    } else {
        pending_count(status.drop_last()) + if status.last() is Pending {
            1nat
        } else {
            0nat
        }
    }
}

/// Giving one package its outcome lowers the count of pending packages by one.
pub proof fn lemma_settle_one(status: Seq<PackageStatus>, p: int, outcome: PackageStatus)
    requires
        0 <= p < status.len(),
        status[p] is Pending,
        !(outcome is Pending),
    ensures
        pending_count(status.update(p, outcome)) + 1 == pending_count(status),
    decreases status.len(),
{
    let settled = status.update(p, outcome);
    if p == status.len() - 1 {
        assert(settled.drop_last() =~= status.drop_last());
    } else {
        assert(settled.drop_last() =~= status.drop_last().update(p, outcome));
        lemma_settle_one(status.drop_last(), p, outcome);
    }
}

/// The record `status` of package `p` is what one answer of `publish_one`
/// leads to: for some attempt within the limit of the retries and some
/// delay, `publish_one` gave an outcome on which `status` is recorded.
pub open spec fn answered<F: Fn(usize, u64, u64) -> PublishOutcome>(
    publish_one: F,
    config: PublisherConfig,
    p: usize,
    status: PackageStatus,
) -> bool {
    exists|attempt: u64, delay_ms: u64, outcome: PublishOutcome|
        1 <= attempt <= config.max_retries + 1 && #[trigger] publish_one.ensures(
            (p, attempt, delay_ms),
            outcome,
        ) && verdict(config, (attempt - 1) as u64, outcome) == Some(status)
}

/// Publishes a whole plan through `publish_one`, which is handed the
/// package, the number of the attempt and the delay to keep before it, and
/// answers with the outcome of the attempt.
///
/// The run ends, whatever the outcomes are: every package ends up published
/// or failed, none is left pending. Packages that `prior` records as
/// published are not handed to `publish_one` and keep their record. The
/// record of every other package is what an answer of `publish_one` for
/// that package leads to.
pub fn publish_all<F: Fn(usize, u64, u64) -> PublishOutcome>(
    plan: TierPlan,
    config: PublisherConfig,
    prior: Option<&PublishState>,
    publish_one: F,
) -> (state: PublishState)
    requires
        plan.wf(),
        forall|package: usize, attempt: u64, delay_ms: u64|
            publish_one.requires((package, attempt, delay_ms)),
    ensures
        state.tier_count == plan.tiers().len(),
        state.status@.len() == plan.ranks().len(),
        !state.pending(),
        forall|p: int| 0 <= p < state.status@.len() ==> state.is_settled(p),
        forall|p: int|
            0 <= p < plan.ranks().len() && prior is Some && prior.unwrap().is_published(p)
                ==> state.status@[p] == prior.unwrap().status@[p],
        forall|p: int|
            0 <= p < plan.ranks().len() && !(prior is Some && prior.unwrap().is_published(p))
                ==> answered(publish_one, config, p as usize, #[trigger] state.status@[p]),
{
    let ghost tiers = plan.tiers();
    let ghost count = plan.ranks().len();
    let mut pipeline = match prior {
        Some(earlier) => PublishPipeline::resume(plan, config, earlier),
        None => PublishPipeline::start(plan, config),
    };
    while !pipeline.is_finished()
        invariant
            pipeline.wf(),
            pipeline.tiers() == tiers,
            pipeline.config() == config,
            pipeline.state().tier_count == tiers.len(),
            pipeline.state().status@.len() == count,
            forall|package: usize, attempt: u64, delay_ms: u64|
                publish_one.requires((package, attempt, delay_ms)),
            forall|p: int|
                0 <= p < count && prior is Some && prior.unwrap().is_published(p)
                    ==> pipeline.state().status@[p] == prior.unwrap().status@[p],
            forall|p: int|
                0 <= p < count && !(prior is Some && prior.unwrap().is_published(p)) && !(
                #[trigger] pipeline.state().status@[p] is Pending) ==> answered(
                    publish_one,
                    config,
                    p as usize,
                    pipeline.state().status@[p],
                ),
        decreases
                pending_count(pipeline.state().status@),
                config.max_retries - pipeline.failed_attempts(),
    {
        let ghost before = pipeline;
        proof {
            pipeline.lemma_barrier();
        }
        match pipeline.next_action() {
            PublishAction::Publish { package, attempt, delay_ms } => {
                let outcome = publish_one(package, attempt, delay_ms);
                let ghost answer = outcome;
                pipeline.record_outcome(outcome);
                proof {
                    pipeline.lemma_barrier();
                    if pipeline.state() != before.state() {
                        let recorded = pipeline.state().status@[before.current() as int];
                        lemma_settle_one(before.state().status@, before.current() as int, recorded);
                        assert(publish_one.ensures((package, attempt, delay_ms), answer));
                        assert(verdict(config, (attempt - 1) as u64, answer) == Some(recorded));
                        assert(answered(publish_one, config, package, recorded));
                    }
                }
            },
            PublishAction::Finished => {},
        }
    }
    proof {
        pipeline.lemma_barrier();
        let end = pipeline.state();
        if end.pending() {
            let p = choose|p: int| 0 <= p < end.status@.len() && (#[trigger] end.status@[p]) is Pending;
            assert(end.is_settled(p));
        }
        assert forall|p: int|
            0 <= p < count && !(prior is Some && prior.unwrap().is_published(p)) implies answered(
            publish_one,
            config,
            p as usize,
            #[trigger] end.status@[p],
        ) by {
            assert(end.is_settled(p));
        }
    }
    pipeline.into_state()
}

} // verus!
