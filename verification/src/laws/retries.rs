//! Retries: how often and after how long.

use vstd::arithmetic::power2::*;
use vstd::prelude::*;

use crate::duration::{self, Duration};
use crate::retry::{self, RetryClassification, RetryConfig, RetryStep};
use crate::testing;
use crate::text;

verus! {

/// A model that keeps failing transiently is called as often as the configuration says and at
/// least once; one that fails for good is called once more at most.
pub proof fn calls_are_those_configured(config: RetryConfig, failures: Seq<RetryClassification>)
    requires
        forall|i: int| 0 <= i < failures.len() ==> #[trigger] failures[i] is Transient,
        failures.len() >= config.max_attempts,
    ensures
        retry::calls_made(config, 0, failures) == (if config.max_attempts == 0 {
            1
        } else {
            config.max_attempts as nat
        }),
        retry::calls_made(config, 0, Seq::empty()) == 1,
        forall|later: Seq<RetryClassification>| #[trigger]
            retry::calls_made(config, 0, seq![RetryClassification::Permanent] + later) == 1,
{
    retry::transient_failures_are_retried(config, 0, failures);
    assert forall|later: Seq<RetryClassification>| #[trigger]
        retry::calls_made(config, 0, seq![RetryClassification::Permanent] + later) == 1 by {
        assert((seq![RetryClassification::Permanent] + later)[0] == RetryClassification::Permanent);
    }
}

/// Without jitter a wait is exactly what the provider asked for, even beyond the longest wait of
/// the backoff, and otherwise exactly the backoff.
pub proof fn waits_without_jitter(
    config: RetryConfig,
    attempt: nat,
    retry_after: Duration,
    now: nat,
)
    requires
        !config.jitter,
    ensures
        retry::delay_nanos(config, attempt, Some(retry_after), now) == retry_after@,
        retry::delay_nanos(config, attempt, None, now) == retry::backoff(
            config.base_delay@,
            config.max_delay@,
            attempt,
        ),
{
}

/// With jitter a wait is the one without, longer by less than a tenth.
pub proof fn waits_with_jitter(
    config: RetryConfig,
    attempt: nat,
    retry_after: Option<Duration>,
    now: nat,
)
    requires
        config.jitter,
        retry_after matches Some(span) ==> span@ <= duration::max_nanos(),
    ensures
        ({
            let plain = retry::delay_nanos(
                RetryConfig { jitter: false, ..config },
                attempt,
                retry_after,
                now,
            );
            let wait = retry::delay_nanos(config, attempt, retry_after, now);
            &&& plain <= wait
            &&& plain >= 10 ==> wait < plain + plain / 10
            &&& plain < 10 ==> wait == plain
        }),
{
}

/// Every lengthening below a tenth of the wait comes up at some reading of the clock, so that waits
/// spread over all of them.
pub proof fn jitter_spreads(nanos: nat, more: nat)
    requires
        more < nanos / 10,
        nanos + nanos / 10 <= duration::max_nanos(),
    ensures
        retry::jittered(nanos, more) == nanos + more,
{
    assert(more % (nanos / 10) == more) by (nonlinear_arith)
        requires
            more < nanos / 10,
    ;
}

/// The backoff doubles from retry to retry up to the twenty-first and stays there, and never gets
/// longer than the longest wait, not even where that is shorter than the base.
pub proof fn backoff_doubles(base: nat, max: nat, attempt: nat)
    requires
        1 <= attempt,
        max <= u64::MAX,
    ensures
        retry::backoff(base, max, attempt) <= max,
        attempt <= 20 && 2 * base * pow2((attempt - 1) as nat) <= max ==> retry::backoff(
            base,
            max,
            attempt + 1,
        ) == 2 * retry::backoff(base, max, attempt),
        attempt >= 21 ==> retry::backoff(base, max, attempt) == retry::backoff(base, max, 21),
        max <= base ==> retry::backoff(base, max, attempt) == max,
        base <= max ==> retry::backoff(base, max, 1) == base,
        retry::backoff(base, max, 0) == retry::backoff(base, max, 1),
{
    let k = (attempt - 1) as nat;
    lemma_pow2_unfold(attempt);
    lemma_pow2_pos(k);
    lemma_pow2_pos(20);
    assert(2 * base * pow2(k) == 2 * (base * pow2(k))) by (nonlinear_arith);
    assert(base * pow2(attempt) == 2 * (base * pow2(k))) by (nonlinear_arith)
        requires
            pow2(attempt) == 2 * pow2(k),
    ;
    assert(base * pow2(k) >= base) by (nonlinear_arith)
        requires
            pow2(k) >= 1,
    ;
    assert(base * pow2(20) >= base) by (nonlinear_arith)
        requires
            pow2(20) >= 1,
    ;
    lemma2_to64();
    assert(base * 1 == base);
}

/// A step after a failure is to give up exactly where the failure is permanent or all calls are
/// used up, and otherwise to wait.
pub proof fn steps_are_decided(
    config: RetryConfig,
    attempt: nat,
    classification: RetryClassification,
    now: nat,
    step: RetryStep,
)
    requires
        1 <= attempt,
        retry::is_step(config, attempt, classification, now, step),
    ensures
        step is GiveUp <==> classification is Permanent || attempt >= config.max_attempts,
        step matches RetryStep::RetryAfter { delay } ==> delay@ == retry::delay_nanos(
            config,
            attempt,
            classification->retry_after,
            now,
        ),
{
}

/// A scripted failure asks for as many milliseconds as it names, is transient without a number too,
/// and is permanent without the word in front.
pub proof fn scripted_failures(
    millis: u64,
    other: Seq<char>,
    classification: RetryClassification,
)
    ensures
        testing::is_scripted_classification(
            "transient:"@ + text::decimal(millis as nat),
            classification,
        ) <==> (classification matches RetryClassification::Transient { retry_after: Some(span) }
            && span@ == millis * 1_000_000),
        text::unsigned_value(other) is None ==> (testing::is_scripted_classification(
            "transient:"@ + other,
            classification,
        ) <==> (classification matches RetryClassification::Transient { retry_after: None })),
        (forall|rest: Seq<char>| other != #[trigger] ("transient:"@ + rest)) ==> (
        testing::is_scripted_classification(other, classification)
            <==> classification is Permanent),
{
    reveal_strlit("transient:");
    let word = "transient:"@;
    assert(word.len() == 10);
    let numeral = text::decimal(millis as nat);
    super::texts::numerals_read_back(millis as nat);
    assert((word + numeral).take(10) =~= word);
    assert((word + numeral).skip(10) =~= numeral);
    assert((word + other).take(10) =~= word);
    assert((word + other).skip(10) =~= other);
    if other.len() >= 10 && other.take(10) == word {
        assert(other =~= word + other.skip(10));
    }
}

} // verus!
