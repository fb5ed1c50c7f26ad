use vstd::prelude::*;
use vstd::string::*;

use crate::icmp::IcmpProvider;
use crate::models::{
    ConfigStrategyDetails, Event, FetchResult, IndependentPollerConfig, IpAddress, PollType,
    ProviderConfig, Strategy,
};
use crate::snmp::SnmpProvider;
use crate::text::{dec_text, decimal_text, join_spec, join_strings};
use crate::traits::Pollable;

verus! {

/// How a poller is scheduled: the interval between polls, and how often and
/// how far apart a failed fetch is tried again within one poll.
#[derive(Debug, Clone, Copy, PartialEq, Eq)]
pub struct PollerConfig {
    pub interval_ms: u64,
    pub retries: u8,
    pub retries_delay_ms: u64,
}

impl PollerConfig {
    pub fn new(interval_ms: u64, retries: u8, retries_delay_ms: u64) -> (r: Self)
        ensures
            r.interval_ms == interval_ms,
            r.retries == retries,
            r.retries_delay_ms == retries_delay_ms,
    {
        PollerConfig { interval_ms, retries, retries_delay_ms }
    }
}

/// The text of an attempt's outcome: the message on success, the error otherwise.
pub open spec fn outcome_text(o: Result<Seq<char>, Seq<char>>) -> Seq<char> {
    match o {
        Ok(m) => m,
        Err(e) => e,
    }
}

/// The line that records attempt number `k`.
pub open spec fn attempt_detail(k: nat, o: Result<Seq<char>, Seq<char>>) -> Seq<char> {
    "Попытка "@ + dec_text(k) + ": "@ + outcome_text(o)
}

/// The lines that record the attempts whose outcomes are `outcomes`, numbered from 1.
pub open spec fn attempt_details(outcomes: Seq<Result<Seq<char>, Seq<char>>>) -> Seq<Seq<char>> {
    Seq::new(outcomes.len(), |i: int| attempt_detail((i + 1) as nat, outcomes[i]))
}

/// The view of an attempt's outcome.
pub open spec fn outcome_view(o: Result<String, String>) -> Result<Seq<char>, Seq<char>> {
    match o {
        Ok(m) => Ok(m@),
        Err(e) => Err(e@),
    }
}

/// Whether a poll whose attempts had `outcomes` is over, with at most `retries` attempts.
pub open spec fn poll_over(retries: nat, outcomes: Seq<Result<Seq<char>, Seq<char>>>) -> bool {
    outcomes.len() >= retries || (outcomes.len() > 0 && outcomes.last() is Ok)
}

/// What a poll does next.
#[derive(Debug, Clone, Copy, PartialEq, Eq)]
pub enum RetryAction {
    /// Try the fetch now.
    Fetch,
    /// Wait this many milliseconds, then try the fetch.
    SleepThenFetch(u64),
    /// The poll is over.
    Done,
}

/// One poll in progress: a fetch tried up to `retries` times until it succeeds,
/// with a pause between two attempts.
pub struct RetryRun {
    retries: u8,
    retries_delay_ms: u64,
    success: bool,
    details: Vec<String>,
    outcomes: Ghost<Seq<Result<Seq<char>, Seq<char>>>>,
}

impl RetryRun {
    /// The most attempts the poll makes.
    pub closed spec fn retries_spec(&self) -> nat {
        self.retries as nat
    }

    /// The pause between two attempts.
    pub closed spec fn delay_spec(&self) -> u64 {
        self.retries_delay_ms
    }

    /// The outcomes of the attempts made so far, in order.
    pub closed spec fn outcomes(&self) -> Seq<Result<Seq<char>, Seq<char>>> {
        self.outcomes@
    }

    /// The poll's record agrees with its outcomes: no more attempts than allowed,
    /// every attempt but the last failed, and one line per attempt.
    pub closed spec fn wf(&self) -> bool {
        let o = self.outcomes@;
        &&& o.len() <= self.retries
        &&& self.details@.len() == o.len()
        &&& forall|i: int| 0 <= i < o.len() - 1 ==> (#[trigger] o[i]) is Err
        &&& self.success == (o.len() > 0 && o.last() is Ok)
        &&& self.details@.map_values(|s: String| s@) == attempt_details(o)
    }

    /// A poll with no attempt made yet.
    pub fn new(retries: u8, retries_delay_ms: u64) -> (r: Self)
        ensures
            r.wf(),
            r.retries_spec() == retries,
            r.delay_spec() == retries_delay_ms,
            r.outcomes() == Seq::<Result<Seq<char>, Seq<char>>>::empty(),
    {
        let r = RetryRun {
            retries,
            retries_delay_ms,
            success: false,
            details: Vec::new(),
            outcomes: Ghost(Seq::empty()),
        };
        assert(r.details@.map_values(|s: String| s@) =~= attempt_details(Seq::empty()));
        r
    }

    /// What the poll does first: fetch, unless it may make no attempt at all.
    pub fn start(&self) -> (a: RetryAction)
        requires
            self.wf(),
        ensures
            a == (if poll_over(self.retries_spec(), self.outcomes()) {
                RetryAction::Done
            } else {
                RetryAction::Fetch
            }),
            self.outcomes().len() < self.retries_spec() && (forall|i: int|
                0 <= i < self.outcomes().len() ==> (#[trigger] self.outcomes()[i]) is Err)
                ==> a == RetryAction::Fetch,
            self.outcomes().len() >= self.retries_spec() ==> a == RetryAction::Done,
            self.outcomes().len() > 0 && self.outcomes().last() is Ok ==> a == RetryAction::Done,
    {
        if self.success || self.details.len() >= self.retries as usize {
            RetryAction::Done
        } else {
            RetryAction::Fetch
        }
    }

    /// Records the outcome of an attempt, and says what comes next: the end of
    /// the poll after a success or the last allowed attempt, else a pause and
    /// another attempt.
    pub fn record(&mut self, outcome: Result<String, String>) -> (a: RetryAction)
        requires
            old(self).wf(),
            !poll_over(old(self).retries_spec(), old(self).outcomes()),
        ensures
            final(self).wf(),
            final(self).retries_spec() == old(self).retries_spec(),
            final(self).delay_spec() == old(self).delay_spec(),
            final(self).outcomes() == old(self).outcomes().push(outcome_view(outcome)),
            a == (if poll_over(final(self).retries_spec(), final(self).outcomes()) {
                RetryAction::Done
            } else {
                RetryAction::SleepThenFetch(final(self).delay_spec())
            }),
            outcome is Ok ==> a == RetryAction::Done,
            outcome is Err && old(self).outcomes().len() + 1 < old(self).retries_spec() ==> a
                == RetryAction::SleepThenFetch(old(self).delay_spec()),
            old(self).outcomes().len() + 1 >= old(self).retries_spec() ==> a == RetryAction::Done,
    {
        let ghost old_details = self.details@.map_values(|s: String| s@);
        let ghost old_outcomes = self.outcomes@;
        let attempt = self.details.len() + 1;
        let number = decimal_text(attempt as u64);
        let mut line = String::from_str("Попытка ");
        line.append(number.as_str());
        line.append(": ");
        let ok = outcome.is_ok();
        match &outcome {
            Ok(m) => line.append(m.as_str()),
            Err(e) => line.append(e.as_str()),
        }
        let ghost o = outcome_view(outcome);
        assert(line@ == attempt_detail(attempt as nat, o));
        self.details.push(line);
        self.success = ok;
        self.outcomes = Ghost(self.outcomes@.push(o));
        assert(attempt_details(self.outcomes@) =~= attempt_details(old_outcomes).push(
            attempt_detail(attempt as nat, o),
        ));
        assert(self.details@.map_values(|s: String| s@) =~= old_details.push(line@));
        assert(self.details@.map_values(|s: String| s@) =~= attempt_details(self.outcomes@));
        if ok || self.details.len() >= self.retries as usize {
            RetryAction::Done
        } else {
            RetryAction::SleepThenFetch(self.retries_delay_ms)
        }
    }

    /// The result of the finished poll: whether the last attempt succeeded, the
    /// number of attempts, and their lines joined by `"; "`.
    pub fn finish(
        self,
        target: IpAddress,
        test_type: PollType,
        start: String,
        end: String,
        latency_ns: u64,
    ) -> (r: FetchResult)
        requires
            self.wf(),
        ensures
            r.test_type == test_type,
            r.target == target,
            r.start == start,
            r.end == end,
            r.latency_ns == latency_ns,
            r.attempts == self.outcomes().len(),
            r.success == (self.outcomes().len() > 0 && self.outcomes().last() is Ok),
            r.details matches Some(d) && d@ == join_spec(attempt_details(self.outcomes()), "; "@),
    {
        let details = join_strings(&self.details, "; ");
        let attempts = self.details.len() as u8;
        FetchResult {
            test_type,
            target,
            start,
            end,
            success: self.success,
            attempts,
            latency_ns,
            details: Some(details),
        }
    }
}

/// Every poll stops at its first successful attempt and makes no more attempts
/// than its retries allow: in every state of a poll, at most `retries`
/// attempts have been made and all but the last of them failed.
pub proof fn law_poll_stops_at_first_success(run: &RetryRun)
    requires
        run.wf(),
    ensures
        run.outcomes().len() <= run.retries_spec(),
        forall|i: int|
            0 <= i < run.outcomes().len() - 1 ==> (#[trigger] run.outcomes()[i]) is Err,
{
}

/// A poll goes on exactly while attempts remain and none has succeeded: with
/// fewer than `retries` attempts made, all of them failed, it is not over;
/// once an attempt succeeded, or `retries` attempts were made, it is.
pub proof fn law_poll_goes_on_while_attempts_remain(
    retries: nat,
    outcomes: Seq<Result<Seq<char>, Seq<char>>>,
)
    ensures
        outcomes.len() < retries && (forall|i: int|
            0 <= i < outcomes.len() ==> (#[trigger] outcomes[i]) is Err) ==> !poll_over(
            retries,
            outcomes,
        ),
        outcomes.len() >= retries ==> poll_over(retries, outcomes),
        outcomes.len() > 0 && outcomes.last() is Ok ==> poll_over(retries, outcomes),
{
    if outcomes.len() < retries && (forall|i: int|
        0 <= i < outcomes.len() ==> (#[trigger] outcomes[i]) is Err) && outcomes.len() > 0 {
        assert(outcomes[outcomes.len() - 1] is Err);
    }
}

/// A poll that has failed every attempt so far makes attempts until its
/// retries are used up: a failed attempt, with attempts left after it, is
/// followed by a pause of the poll's delay and a fetch, and a poll that may
/// still try begins with a fetch.
pub proof fn law_failed_poll_uses_all_retries(
    retries: nat,
    outcomes: Seq<Result<Seq<char>, Seq<char>>>,
    e: Seq<char>,
)
    requires
        outcomes.len() + 1 < retries,
        forall|i: int| 0 <= i < outcomes.len() ==> (#[trigger] outcomes[i]) is Err,
    ensures
        !poll_over(retries, outcomes),
        !poll_over(retries, outcomes.push(Err(e))),
{
    law_poll_goes_on_while_attempts_remain(retries, outcomes);
    let next = outcomes.push(Err(e));
    assert forall|i: int| 0 <= i < next.len() implies (#[trigger] next[i]) is Err by {
        if i < outcomes.len() {
            assert(next[i] == outcomes[i]);
        }
    }
    law_poll_goes_on_while_attempts_remain(retries, next);
}

/// A provider of either kind.
#[derive(Debug, Clone)]
pub enum Provider {
    Icmp(IcmpProvider),
    Snmp(SnmpProvider),
}

impl Pollable for Provider {
    open spec fn config_spec(&self) -> ProviderConfig {
        match self {
            Provider::Icmp(p) => p.config_spec(),
            Provider::Snmp(p) => p.config_spec(),
        }
    }

    open spec fn username_spec(&self) -> Seq<char> {
        match self {
            Provider::Icmp(p) => p.username_spec(),
            Provider::Snmp(p) => p.username_spec(),
        }
    }

    fn username(&self) -> (r: String) {
        match self {
            Provider::Icmp(p) => p.username(),
            Provider::Snmp(p) => p.username(),
        }
    }

    fn target(&self) -> (r: IpAddress) {
        match self {
            Provider::Icmp(p) => p.target(),
            Provider::Snmp(p) => p.target(),
        }
    }

    fn whoami(&self) -> (r: PollType) {
        match self {
            Provider::Icmp(p) => p.whoami(),
            Provider::Snmp(p) => p.whoami(),
        }
    }

    fn dump(&self) -> (r: ProviderConfig) {
        match self {
            Provider::Icmp(p) => p.dump(),
            Provider::Snmp(p) => p.dump(),
        }
    }
}

/// Whether `configs` describe `pollers`, one for one.
pub open spec fn configs_describe<T: Pollable>(
    configs: Seq<IndependentPollerConfig>,
    pollers: Seq<IndependentPoller<T>>,
) -> bool {
    &&& configs.len() == pollers.len()
    &&& forall|i: int|
        0 <= i < pollers.len() ==> {
            let c = #[trigger] configs[i];
            let p = pollers[i];
            &&& c.provider == p.provider.config_spec()
            &&& c.retries == p.config.retries
            &&& c.retries_interval_ms == p.config.retries_delay_ms
            &&& c.interval_ms == p.config.interval_ms
        }
}

/// The set-up report of independent pollers describes each poller at its own
/// place: the `i`-th entry holds the provider, interval, retries and pause of
/// the `i`-th poller, and there is one entry per poller.
pub proof fn law_config_entries_follow_pollers<T: Pollable>(
    configs: Seq<IndependentPollerConfig>,
    pollers: Seq<IndependentPoller<T>>,
)
    requires
        configs_describe(configs, pollers),
    ensures
        configs.len() == pollers.len(),
        forall|i: int|
            0 <= i < pollers.len() ==> {
                &&& (#[trigger] configs[i]).provider == pollers[i].provider.config_spec()
                &&& configs[i].interval_ms == pollers[i].config.interval_ms
                &&& configs[i].retries == pollers[i].config.retries
                &&& configs[i].retries_interval_ms == pollers[i].config.retries_delay_ms
            },
{
}

/// The set-up report of a synchronized poller gives its interval in whole
/// seconds and describes each of its providers at its own place.
pub proof fn law_details_follow_providers(details: ConfigStrategyDetails, p: SynchronizedPoller)
    requires
        details_describe(details, p),
    ensures
        details matches ConfigStrategyDetails::Synchronized { interval_seconds, providers } && {
            &&& interval_seconds == p.interval_ms / 1000
            &&& providers@.len() == p.providers@.len()
            &&& forall|i: int|
                0 <= i < p.providers@.len() ==> #[trigger] providers@[i]
                    == p.providers@[i].0.config_spec()
        },
{
}

/// Whether `details` describe the synchronized poller `p`: its interval in
/// whole seconds and each of its providers in order.
pub open spec fn details_describe(details: ConfigStrategyDetails, p: SynchronizedPoller) -> bool {
    match details {
        ConfigStrategyDetails::Synchronized { interval_seconds, providers } => {
            &&& interval_seconds == p.interval_ms / 1000
            &&& providers@.len() == p.providers@.len()
            &&& forall|i: int|
                0 <= i < p.providers@.len() ==> #[trigger] providers@[i]
                    == p.providers@[i].0.config_spec()
        },
        _ => false,
    }
}

/// Whether `after` and `e` are what one call of `next_event` with `payload`
/// makes of the poller `before`: one more poll counted, and its event.
pub open spec fn is_poll_step<T: Pollable>(
    before: IndependentPoller<T>,
    after: IndependentPoller<T>,
    payload: FetchResult,
    e: Event,
) -> bool {
    &&& before.step < usize::MAX
    &&& after.step == before.step + 1
    &&& after.provider == before.provider
    &&& after.config == before.config
    &&& e == Event::PollResult { strategy: Strategy::Independent, step: after.step, payload }
}

/// Whether `after` and `s` are what one call of `next_step` makes of the
/// poller `before`: one more round counted, and its number.
pub open spec fn is_round_step(before: SynchronizedPoller, after: SynchronizedPoller, s: usize) -> bool {
    &&& before.step < usize::MAX
    &&& after.step == before.step + 1
    &&& s == after.step
    &&& after.providers == before.providers
    &&& after.interval_ms == before.interval_ms
}

/// The events of an independent poller's run, from a new poller: its `n`-th
/// event reports the `n`-th poll's result with the step `n`, so the steps run
/// 1, 2, 3, ... without gap or repeat, all events are poll results of the
/// independent strategy, and provider and schedule stay as they were.
/// `states[i]` is the poller before the `i`-th call of `next_event` (counted
/// from 0), which was given `payloads[i]` and gave `events[i]`.
pub proof fn law_independent_steps_count_polls<T: Pollable>(
    states: Seq<IndependentPoller<T>>,
    payloads: Seq<FetchResult>,
    events: Seq<Event>,
)
    requires
        states.len() == events.len() + 1,
        payloads.len() == events.len(),
        states[0].step == 0,
        forall|i: int|
            0 <= i < events.len() ==> is_poll_step(
                states[i],
                states[i + 1],
                payloads[i],
                #[trigger] events[i],
            ),
    ensures
        forall|i: int|
            0 <= i < events.len() ==> #[trigger] events[i] == (Event::PollResult {
                strategy: Strategy::Independent,
                step: (i + 1) as usize,
                payload: payloads[i],
            }),
        states.last().step == events.len(),
        forall|i: int|
            0 <= i < states.len() ==> (#[trigger] states[i]).provider == states[0].provider
                && states[i].config == states[0].config,
{
    lemma_poll_steps_prefix(states, payloads, events, events.len() as int);
    assert forall|i: int| 0 <= i < events.len() implies #[trigger] events[i] == (Event::PollResult {
        strategy: Strategy::Independent,
        step: (i + 1) as usize,
        payload: payloads[i],
    }) by {
        assert(is_poll_step(states[i], states[i + 1], payloads[i], events[i]));
    }
}

/// After the first `k` calls of a run, the poller has counted `k` polls and
/// kept its provider and schedule.
proof fn lemma_poll_steps_prefix<T: Pollable>(
    states: Seq<IndependentPoller<T>>,
    payloads: Seq<FetchResult>,
    events: Seq<Event>,
    k: int,
)
    requires
        states.len() == events.len() + 1,
        payloads.len() == events.len(),
        states[0].step == 0,
        forall|i: int|
            0 <= i < events.len() ==> is_poll_step(
                states[i],
                states[i + 1],
                payloads[i],
                #[trigger] events[i],
            ),
        0 <= k <= events.len(),
    ensures
        forall|i: int|
            0 <= i <= k ==> (#[trigger] states[i]).step == i && states[i].provider
                == states[0].provider && states[i].config == states[0].config,
    decreases k,
{
    if k > 0 {
        lemma_poll_steps_prefix(states, payloads, events, k - 1);
        assert(is_poll_step(states[k - 1], states[k], payloads[k - 1], events[k - 1]));
    }
}

/// The rounds of a synchronized poller's run, from a new poller: its `n`-th
/// round has the number `n`, so the rounds run 1, 2, 3, ... without gap or
/// repeat, and providers and interval stay as they were. `states[i]` is the
/// poller before the `i`-th call of `next_step` (counted from 0), which gave
/// `steps[i]`.
pub proof fn law_synchronized_rounds_count(states: Seq<SynchronizedPoller>, steps: Seq<usize>)
    requires
        states.len() == steps.len() + 1,
        states[0].step == 0,
        forall|i: int| 0 <= i < steps.len() ==> is_round_step(states[i], states[i + 1], #[trigger] steps[i]),
    ensures
        forall|i: int| 0 <= i < steps.len() ==> #[trigger] steps[i] == i + 1,
        states.last().step == steps.len(),
        forall|i: int|
            0 <= i < states.len() ==> (#[trigger] states[i]).providers == states[0].providers
                && states[i].interval_ms == states[0].interval_ms,
{
    lemma_round_steps_prefix(states, steps, steps.len() as int);
    assert forall|i: int| 0 <= i < steps.len() implies #[trigger] steps[i] == i + 1 by {
        assert(is_round_step(states[i], states[i + 1], steps[i]));
    }
}

/// After the first `k` calls of a run, the poller has counted `k` rounds and
/// kept its providers and interval.
proof fn lemma_round_steps_prefix(states: Seq<SynchronizedPoller>, steps: Seq<usize>, k: int)
    requires
        states.len() == steps.len() + 1,
        states[0].step == 0,
        forall|i: int| 0 <= i < steps.len() ==> is_round_step(states[i], states[i + 1], #[trigger] steps[i]),
        0 <= k <= steps.len(),
    ensures
        forall|i: int|
            0 <= i <= k ==> (#[trigger] states[i]).step == i && states[i].providers
                == states[0].providers && states[i].interval_ms == states[0].interval_ms,
    decreases k,
{
    if k > 0 {
        lemma_round_steps_prefix(states, steps, k - 1);
        assert(is_round_step(states[k - 1], states[k], steps[k - 1]));
    }
}

/// A poller that polls one provider at its own interval; `step` counts its polls.
pub struct IndependentPoller<T: Pollable> {
    pub provider: T,
    pub config: PollerConfig,
    pub step: usize,
}

impl<T: Pollable> IndependentPoller<T> {
    /// A poller that has made no poll yet.
    pub fn new(provider: T, config: PollerConfig) -> (r: Self)
        ensures
            r.provider == provider,
            r.config == config,
            r.step == 0,
    {
        IndependentPoller { provider, config, step: 0 }
    }

    /// How the poller is set up.
    pub fn dump(&self) -> (r: IndependentPollerConfig)
        ensures
            r.provider == self.provider.config_spec(),
            r.retries == self.config.retries,
            r.retries_interval_ms == self.config.retries_delay_ms,
            r.interval_ms == self.config.interval_ms,
    {
        IndependentPollerConfig {
            provider: self.provider.dump(),
            retries: self.config.retries,
            retries_interval_ms: self.config.retries_delay_ms,
            interval_ms: self.config.interval_ms,
        }
    }

    /// Counts the next poll and gives the event that reports its result.
    pub fn next_event(&mut self, payload: FetchResult) -> (e: Event)
        requires
            old(self).step < usize::MAX,
        ensures
            final(self).step == old(self).step + 1,
            final(self).provider == old(self).provider,
            final(self).config == old(self).config,
            e == (Event::PollResult {
                strategy: Strategy::Independent,
                step: final(self).step,
                payload,
            }),
            is_poll_step(*old(self), *final(self), payload, e),
    {
        self.step = self.step + 1;
        Event::PollResult { strategy: Strategy::Independent, step: self.step, payload }
    }

    /// The event that reports how the independent pollers are set up.
    pub fn config_event(pollers: &Vec<IndependentPoller<T>>) -> (e: Event)
        ensures
            match e {
                Event::Config {
                    strategy: Strategy::Independent,
                    details: ConfigStrategyDetails::Independent { pollers: configs },
                } => {
                    &&& configs_describe(configs@, pollers@)
                    &&& configs@.len() == pollers@.len()
                    &&& forall|i: int|
                        0 <= i < pollers@.len() ==> {
                            &&& (#[trigger] configs@[i]).provider
                                == pollers@[i].provider.config_spec()
                            &&& configs@[i].interval_ms == pollers@[i].config.interval_ms
                            &&& configs@[i].retries == pollers@[i].config.retries
                            &&& configs@[i].retries_interval_ms
                                == pollers@[i].config.retries_delay_ms
                        }
                },
                _ => false,
            },
    {
        let mut configs: Vec<IndependentPollerConfig> = Vec::new();
        let mut i: usize = 0;
        while i < pollers.len()
            invariant
                i <= pollers@.len(),
                configs@.len() == i,
                forall|k: int|
                    0 <= k < i ==> {
                        let c = #[trigger] configs@[k];
                        let p = pollers@[k];
                        &&& c.provider == p.provider.config_spec()
                        &&& c.retries == p.config.retries
                        &&& c.retries_interval_ms == p.config.retries_delay_ms
                        &&& c.interval_ms == p.config.interval_ms
                    },
            decreases pollers.len() - i,
        {
            configs.push(pollers[i].dump());
            i = i + 1;
        }
        Event::Config {
            strategy: Strategy::Independent,
            details: ConfigStrategyDetails::Independent { pollers: configs },
        }
    }
}

/// A poller that polls all its providers together at one interval; `step`
/// counts its rounds.
pub struct SynchronizedPoller {
    pub providers: Vec<(Provider, PollerConfig)>,
    pub interval_ms: u64,
    pub step: usize,
}

impl SynchronizedPoller {
    /// A poller that has made no round yet.
    pub fn new(providers: Vec<(Provider, PollerConfig)>, interval_ms: u64) -> (r: Self)
        ensures
            r.providers == providers,
            r.interval_ms == interval_ms,
            r.step == 0,
    {
        SynchronizedPoller { providers, interval_ms, step: 0 }
    }

    /// How the poller is set up: its interval in whole seconds and its providers.
    pub fn dump(&self) -> (r: ConfigStrategyDetails)
        ensures
            details_describe(r, *self),
    {
        let mut configs: Vec<ProviderConfig> = Vec::new();
        let mut i: usize = 0;
        while i < self.providers.len()
            invariant
                i <= self.providers@.len(),
                configs@.len() == i,
                forall|k: int|
                    0 <= k < i ==> #[trigger] configs@[k] == self.providers@[k].0.config_spec(),
            decreases self.providers.len() - i,
        {
            configs.push(self.providers[i].0.dump());
            i = i + 1;
        }
        ConfigStrategyDetails::Synchronized { interval_seconds: self.interval_ms / 1000, providers: configs }
    }

    /// The event that reports how the poller is set up.
    pub fn config_event(&self) -> (e: Event)
        ensures
            match e {
                Event::Config { strategy: Strategy::Synchronized, details } => details_describe(
                    details,
                    *self,
                ),
                _ => false,
            },
    {
        Event::Config { strategy: Strategy::Synchronized, details: self.dump() }
    }

    /// Counts the next round and gives its number.
    pub fn next_step(&mut self) -> (s: usize)
        requires
            old(self).step < usize::MAX,
        ensures
            final(self).step == old(self).step + 1,
            s == final(self).step,
            final(self).providers == old(self).providers,
            final(self).interval_ms == old(self).interval_ms,
            is_round_step(*old(self), *final(self), s),
    {
        self.step = self.step + 1;
        self.step
    }

    /// The event that reports a result of round `step`.
    pub fn poll_event(step: usize, payload: FetchResult) -> (e: Event)
        ensures
            e == (Event::PollResult { strategy: Strategy::Synchronized, step, payload }),
    {
        Event::PollResult { strategy: Strategy::Synchronized, step, payload }
    }
}

/// The message for a provider that could not be set up.
pub fn init_failed_message(provider_name: &str, e: &str) -> (r: String)
    ensures
        r@ == provider_name@ + " init failed.: "@ + e@,
{
    let mut m = String::from_str(provider_name);
    m.append(" init failed.: ");
    m.append(e);
    m
}

/// The message for a log sender that could not be set up: the configuration
/// is at fault.
pub fn sender_setup_error() -> (r: String)
    ensures
        r@ == "Ошибка конфигурации.\n"@,
{
    String::from_str("Ошибка конфигурации.\n")
}

/// The message for a failure to wait for Ctrl-C.
pub fn ctrl_c_error(e: &str) -> (r: String)
    ensures
        r@ == "Ошибка системы: "@ + e@,
{
    let mut m = String::from_str("Ошибка системы: ");
    m.append(e);
    m
}

/// The monitor runs only if at least one polling task was started.
pub fn check_spawned_tasks(count: usize) -> (r: Result<(), String>)
    ensures
        r is Ok <==> count > 0,
        r matches Err(e) ==> e@ == "Нет задач для опроса. Монитор не запущен."@,
{
    if count == 0 {
        Err(String::from_str("Нет задач для опроса. Монитор не запущен."))
    } else {
        Ok(())
    }
}

} // verus!
