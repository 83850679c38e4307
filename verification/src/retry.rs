//! Retry decisions for transient provider errors: exponential backoff that honours what the
//! provider said about when to come back.

use vstd::arithmetic::power2::*;
use vstd::prelude::*;

use crate::duration::{self, Duration};

verus! {

/// Whether a failed call is worth sending again.
#[derive(Debug, Clone, Copy, PartialEq, Eq, Structural)]
pub enum RetryClassification {
    /// The same call fails the same way.
    Permanent,
    /// The call may succeed later; the provider may say how much later.
    Transient { retry_after: Option<Duration> },
}

/// An error that knows whether a retry can help.
pub trait Retryable {
    fn retry_classification(&self) -> RetryClassification;
}

/// How often and how patiently to retry.
#[derive(Debug, Clone)]
pub struct RetryConfig {
    /// Number of calls in all, the first one included.
    pub max_attempts: u32,
    /// Wait before the first retry.
    pub base_delay: Duration,
    /// Longest wait that the backoff grows to.
    pub max_delay: Duration,
    /// Whether to lengthen waits by up to a tenth.
    pub jitter: bool,
}

impl Default for RetryConfig {
    /// Three calls, one second doubling up to thirty, with jitter.
    fn default() -> (r: Self)
        ensures
            r.max_attempts == 3,
            r.base_delay@ == 1_000_000_000,
            r.max_delay@ == 30_000_000_000,
            r.jitter,
    {
        RetryConfig {
            max_attempts: 3,
            base_delay: Duration::from_secs(1),
            max_delay: Duration::from_secs(30),
            jitter: true,
        }
    }
}

/// What to do after a failed call.
#[derive(Debug, Clone, Copy, PartialEq, Eq, Structural)]
pub enum RetryStep {
    /// Hand the error to the caller.
    GiveUp,
    /// Call again after a wait.
    RetryAfter { delay: Duration },
}

pub open spec fn min(a: nat, b: nat) -> nat {
    if a <= b {
        a
    } else {
        b
    }
}

/// The number of calls that a configuration allows: at least one.
pub open spec fn allowed_calls(config: RetryConfig) -> nat {
    if config.max_attempts == 0 {
        1
    } else {
        config.max_attempts as nat
    }
}

/// The backoff before retry number `attempt` in nanoseconds: `base` doubled with each retry, 20
/// times at most, never longer than `max` nor than `u64::MAX` nanoseconds.
pub open spec fn backoff(base: nat, max: nat, attempt: nat) -> nat {
    let doublings = if attempt == 0 {
        0
    } else {
        min((attempt - 1) as nat, 20)
    };
    min(min(base * pow2(doublings), max), u64::MAX as nat)
}

/// A wait of so many nanoseconds with jitter: longer by what the clock's nanoseconds leave over
/// when divided by a tenth of it, as far as a span can be.
pub open spec fn jittered(nanos: nat, now: nat) -> nat {
    if nanos / 10 == 0 {
        nanos
    } else {
        min(nanos + now % (nanos / 10), duration::max_nanos())
    }
}

/// Whether a wait was lengthened by less than a tenth, and never shortened.
pub open spec fn barely_longer(nanos: nat, longer: nat) -> bool {
    if nanos / 10 == 0 {
        longer == nanos
    } else {
        nanos <= longer < nanos + nanos / 10
    }
}

/// The wait before retry number `attempt`: what the provider asked for or else the backoff.
pub open spec fn delay_nanos(
    config: RetryConfig,
    attempt: nat,
    retry_after: Option<Duration>,
    now: nat,
) -> nat {
    let wait = match retry_after {
        Some(span) => span@,
        None => backoff(config.base_delay@, config.max_delay@, attempt),
    };
    if config.jitter {
        jittered(wait, now)
    } else {
        wait
    }
}

/// Whether the error of call number `attempt` is final.
pub open spec fn gives_up(
    config: RetryConfig,
    attempt: nat,
    classification: RetryClassification,
) -> bool {
    attempt >= allowed_calls(config) || classification is Permanent
}

/// Whether a step waits at least as long as the provider asked for.
pub open spec fn honours(classification: RetryClassification, step: RetryStep) -> bool {
    match (classification, step) {
        (
            RetryClassification::Transient { retry_after: Some(span) },
            RetryStep::RetryAfter { delay },
        ) => span@ <= delay@,
        _ => true,
    }
}

/// Whether a step is the one to take after call number `attempt` failed at the clock's `now`.
pub open spec fn is_step(
    config: RetryConfig,
    attempt: nat,
    classification: RetryClassification,
    now: nat,
    step: RetryStep,
) -> bool {
    match step {
        RetryStep::GiveUp => gives_up(config, attempt, classification),
        RetryStep::RetryAfter { delay } => !gives_up(config, attempt, classification)
            && delay@ == delay_nanos(config, attempt, classification->retry_after, now),
    }
}

#[verifier::external_type_specification]
#[verifier::external_body]
pub struct ExSystemTime(std::time::SystemTime);

#[verifier::external_type_specification]
#[verifier::external_body]
pub struct ExSystemTimeError(std::time::SystemTimeError);

/// Reads the clock with `std::time::SystemTime::now`. Nothing is claimed of the time.
#[verifier::external_body]
fn now() -> std::time::SystemTime {
    std::time::SystemTime::now()
}

/// The time since 1970 by `std::time::SystemTime::duration_since`. Nothing is claimed of it; a
/// clock that was set to before then gives an error.
#[verifier::external_body]
fn since_epoch(time: std::time::SystemTime) -> Result<
    core::time::Duration,
    std::time::SystemTimeError,
> {
    time.duration_since(std::time::UNIX_EPOCH)
}

/// `core::time::Duration::subsec_nanos` is the part of a span below a second.
pub assume_specification[ core::time::Duration::subsec_nanos ](
    span: &core::time::Duration,
) -> (r: u32)
    ensures
        r < 1_000_000_000,
;

/// The nanoseconds that the clock shows beyond whole seconds.
pub fn clock_nanos() -> (r: u32)
    ensures
        r < 1_000_000_000,
{
    match since_epoch(now()) {
        Ok(span) => nanos_of_reading(Some(span.subsec_nanos())),
        Err(_) => nanos_of_reading(None),
    }
}

/// The nanoseconds that a reading of the clock counts for: its own, or none where the clock is set
/// to before 1970 and so gives no reading.
pub fn nanos_of_reading(subsec_nanos: Option<u32>) -> (r: u32)
    ensures
        r == (match subsec_nanos {
            Some(nanos) => nanos,
            None => 0,
        }),
{
    match subsec_nanos {
        Some(nanos) => nanos,
        None => 0,
    }
}

/// `1 << k`.
fn power_of_two(k: u32) -> (r: u128)
    requires
        k <= 20,
    ensures
        r == pow2(k as nat),
        r <= 0x10_0000,
{
    let mut r: u128 = 1;
    proof {
        lemma2_to64();
    }
    let mut i: u32 = 0;
    while i < k
        invariant
            i <= k <= 20,
            r == pow2(i as nat),
            r <= 0x10_0000,
        decreases k - i,
    {
        proof {
            lemma_pow2_unfold((i + 1) as nat);
            if i + 1 < 20 {
                lemma_pow2_strictly_increases((i + 1) as nat, 20);
            }
            lemma2_to64();
        }
        r = r * 2;
        i = i + 1;
    }
    r
}

/// The backoff before retry number `attempt`.
pub fn exponential(base: Duration, max: Duration, attempt: u32) -> (r: Duration)
    ensures
        r@ == backoff(base@, max@, attempt as nat),
{
    let doublings: u32 = if attempt == 0 {
        0
    } else if attempt - 1 < 20 {
        attempt - 1
    } else {
        20
    };
    let factor: u128 = power_of_two(doublings);
    let base_nanos: u128 = base.as_nanos();
    assert(base_nanos * factor <= duration::max_nanos() * 0x10_0000) by (nonlinear_arith)
        requires
            base_nanos <= duration::max_nanos(),
            factor <= 0x10_0000,
    ;
    let nanos: u128 = base_nanos * factor;
    let max_nanos: u128 = max.as_nanos();
    let capped: u128 = if nanos <= max_nanos {
        nanos
    } else {
        max_nanos
    };
    Duration::from_nanos(
        if capped <= u64::MAX as u128 {
            capped as u64
        } else {
            u64::MAX
        },
    )
}

/// Lengthens a wait by up to a tenth, by what the clock's nanoseconds are.
pub fn apply_jitter_at(d: Duration, now_nanos: u32) -> (r: Duration)
    ensures
        r@ == jittered(d@, now_nanos as nat),
        barely_longer(d@, r@),
{
    let nanos: u128 = d.as_nanos();
    proof {
        jitter_is_bounded(d@, now_nanos as nat);
    }
    let tenth: u128 = nanos / 10;
    if tenth == 0 {
        return d;
    }
    Duration::from_total_nanos(nanos + now_nanos as u128 % tenth)
}

/// Lengthens a wait by up to a tenth, so that clients that failed together come back apart.
pub fn apply_jitter(d: Duration) -> (r: Duration)
    ensures
        exists|now: u32| now < 1_000_000_000 && r@ == #[trigger] jittered(d@, now as nat),
        barely_longer(d@, r@),
{
    apply_jitter_at(d, clock_nanos())
}

/// The wait before retry number `attempt`, at what the clock's nanoseconds are.
pub fn compute_delay_at(
    cfg: &RetryConfig,
    attempt: u32,
    retry_after: Option<Duration>,
    now_nanos: u32,
) -> (r: Duration)
    ensures
        r@ == delay_nanos(*cfg, attempt as nat, retry_after, now_nanos as nat),
        retry_after matches Some(span) ==> span@ <= r@,
{
    let wait = match retry_after {
        Some(span) => span,
        None => exponential(cfg.base_delay, cfg.max_delay, attempt),
    };
    if cfg.jitter {
        apply_jitter_at(wait, now_nanos)
    } else {
        wait
    }
}

/// The wait before retry number `attempt`.
pub fn compute_delay(cfg: &RetryConfig, attempt: u32, retry_after: Option<Duration>) -> (r:
    Duration)
    ensures
        exists|now: u32|
            now < 1_000_000_000 && r@ == #[trigger] delay_nanos(
                *cfg,
                attempt as nat,
                retry_after,
                now as nat,
            ),
        retry_after matches Some(span) ==> span@ <= r@,
{
    compute_delay_at(cfg, attempt, retry_after, clock_nanos())
}

/// The calls of one request so far.
pub struct RetryState {
    attempt: u32,
}

impl View for RetryState {
    type V = nat;

    /// How many calls have failed.
    closed spec fn view(&self) -> nat {
        self.attempt as nat
    }
}

impl RetryState {
    /// Before the first call.
    pub fn new() -> (r: Self)
        ensures
            r@ == 0,
    {
        RetryState { attempt: 0 }
    }

    /// What to do now that another call has failed, at what the clock's nanoseconds are.
    pub fn failed_at(
        &mut self,
        config: &RetryConfig,
        classification: RetryClassification,
        now_nanos: u32,
    ) -> (r: RetryStep)
        requires
            old(self)@ < allowed_calls(*config),
        ensures
            final(self)@ == old(self)@ + 1,
            is_step(*config, final(self)@, classification, now_nanos as nat, r),
            r is RetryAfter ==> final(self)@ < allowed_calls(*config),
            honours(classification, r),
    {
        self.attempt = self.attempt + 1;
        if self.attempt >= config.max_attempts {
            return RetryStep::GiveUp;
        }
        match classification {
            RetryClassification::Permanent => RetryStep::GiveUp,
            RetryClassification::Transient { retry_after } => RetryStep::RetryAfter {
                delay: compute_delay_at(config, self.attempt, retry_after, now_nanos),
            },
        }
    }

    /// What to do now that another call has failed.
    pub fn failed(&mut self, config: &RetryConfig, classification: RetryClassification) -> (r:
        RetryStep)
        requires
            old(self)@ < allowed_calls(*config),
        ensures
            final(self)@ == old(self)@ + 1,
            exists|now: u32|
                now < 1_000_000_000 && #[trigger] is_step(
                    *config,
                    final(self)@,
                    classification,
                    now as nat,
                    r,
                ),
            r is RetryAfter ==> final(self)@ < allowed_calls(*config),
            honours(classification, r),
    {
        self.failed_at(config, classification, clock_nanos())
    }
}

/// A model whose failed calls are sent again.
pub struct RetryingModel<M> {
    inner: M,
    config: RetryConfig,
}

impl<M> RetryingModel<M> {
    /// The model that is called.
    pub closed spec fn model(&self) -> M {
        self.inner
    }

    /// How it is retried.
    pub closed spec fn settings(&self) -> RetryConfig {
        self.config
    }

    /// Wraps a model with the default settings.
    pub fn new(inner: M) -> (r: Self)
        ensures
            r.model() == inner,
            r.settings().max_attempts == 3,
            r.settings().base_delay@ == 1_000_000_000,
            r.settings().max_delay@ == 30_000_000_000,
            r.settings().jitter,
    {
        RetryingModel { inner, config: RetryConfig::default() }
    }

    /// Wraps a model.
    pub fn with_config(inner: M, config: RetryConfig) -> (r: Self)
        ensures
            r.model() == inner,
            r.settings() == config,
    {
        RetryingModel { inner, config }
    }

    /// The wrapped model.
    pub fn inner(&self) -> (r: &M)
        ensures
            *r == self.model(),
    {
        &self.inner
    }

    /// The settings.
    pub fn config(&self) -> (r: &RetryConfig)
        ensures
            *r == self.settings(),
    {
        &self.config
    }

    /// Gives the wrapped model back.
    pub fn into_inner(self) -> (r: M)
        ensures
            r == self.model(),
    {
        self.inner
    }
}

/// How many calls are made, after `made` have failed, to a model whose next calls fail with
/// `failures`, one after the other, and succeed after that.
pub open spec fn calls_made(
    config: RetryConfig,
    made: nat,
    failures: Seq<RetryClassification>,
) -> nat
    decreases failures.len(),
{
    if failures.len() == 0 || gives_up(config, made + 1, failures[0]) {
        made + 1
    } else {
        calls_made(config, made + 1, failures.drop_first())
    }
}

/// However long a model keeps failing, it is called no more often than allowed.
pub proof fn calls_are_bounded(
    config: RetryConfig,
    made: nat,
    failures: Seq<RetryClassification>,
)
    requires
        made < allowed_calls(config),
    ensures
        made < calls_made(config, made, failures) <= allowed_calls(config),
    decreases failures.len(),
{
    if failures.len() > 0 && !gives_up(config, made + 1, failures[0]) {
        calls_are_bounded(config, made + 1, failures.drop_first());
    }
}

/// A call that fails for good is not repeated: it is the last one.
pub proof fn permanent_failure_is_final(
    config: RetryConfig,
    made: nat,
    failures: Seq<RetryClassification>,
    k: int,
)
    requires
        0 <= k < failures.len(),
        failures[k] is Permanent,
    ensures
        calls_made(config, made, failures) <= made + k + 1,
    decreases k,
{
    if k > 0 && !gives_up(config, made + 1, failures[0]) {
        permanent_failure_is_final(config, made + 1, failures.drop_first(), k - 1);
    }
}

/// Transient failures are outlasted while they are fewer than the calls that are allowed, and
/// otherwise every call that is allowed is made.
pub proof fn transient_failures_are_retried(
    config: RetryConfig,
    made: nat,
    failures: Seq<RetryClassification>,
)
    requires
        made < allowed_calls(config),
        forall|i: int| 0 <= i < failures.len() ==> !(#[trigger] failures[i] is Permanent),
    ensures
        calls_made(config, made, failures) == min(
            made + failures.len() + 1,
            allowed_calls(config),
        ),
    decreases failures.len(),
{
    if failures.len() > 0 && !gives_up(config, made + 1, failures[0]) {
        assert forall|i: int| 0 <= i < failures.drop_first().len() implies !(
        #[trigger] failures.drop_first()[i] is Permanent) by {
            assert(!(failures[i + 1] is Permanent));
        }
        transient_failures_are_retried(config, made + 1, failures.drop_first());
    }
}

/// Jitter never shortens a wait and adds less than a tenth; below ten nanoseconds it adds nothing.
pub proof fn jitter_is_bounded(nanos: nat, now: nat)
    requires
        nanos <= duration::max_nanos(),
    ensures
        barely_longer(nanos, jittered(nanos, now)),
{
    if nanos / 10 > 0 {
        assert(0 <= now % (nanos / 10) < nanos / 10) by (nonlinear_arith)
            requires
                nanos / 10 > 0,
        ;
    }
}

/// A wait that the provider asked for is never cut short.
pub proof fn retry_after_is_honoured(
    config: RetryConfig,
    attempt: nat,
    retry_after: Duration,
    now: nat,
    step: RetryStep,
)
    requires
        retry_after@ <= duration::max_nanos(),
        is_step(
            config,
            attempt,
            (RetryClassification::Transient { retry_after: Some(retry_after) }),
            now,
            step,
        ),
    ensures
        step matches RetryStep::RetryAfter { delay } ==> retry_after@ <= delay@ <= retry_after@
            + retry_after@ / 10,
{
    jitter_is_bounded(retry_after@, now);
}

/// The backoff starts at the base, grows from retry to retry and stops at the longest wait.
pub proof fn backoff_grows_then_caps(base: nat, max: nat, attempt: nat, later: nat)
    requires
        base <= max <= u64::MAX,
        1 <= attempt <= later,
    ensures
        backoff(base, max, 1) == base,
        backoff(base, max, attempt) <= backoff(base, max, later) <= max,
        attempt <= 20 && 2 * backoff(base, max, attempt) <= max ==> backoff(base, max, attempt + 1)
            == 2 * backoff(base, max, attempt),
{
    lemma2_to64();
    assert(base * pow2(0) == base);
    let k = min((attempt - 1) as nat, 20);
    let l = min((later - 1) as nat, 20);
    if k < l {
        lemma_pow2_strictly_increases(k, l);
    }
    assert(base * pow2(k) <= base * pow2(l)) by (nonlinear_arith)
        requires
            pow2(k) <= pow2(l),
    ;
    if attempt <= 20 && 2 * backoff(base, max, attempt) <= max {
        lemma_pow2_unfold(attempt);
        assert(base * (2 * pow2(k)) == 2 * (base * pow2(k))) by (nonlinear_arith);
        if base * pow2(k) > max {
            assert(max == 0);
            assert(base * pow2(k) == 0) by (nonlinear_arith)
                requires
                    base == 0,
            ;
        }
    }
}

} // verus!
