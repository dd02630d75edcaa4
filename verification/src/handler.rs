//! The message handler: the per-record decision core.
//!
//! One handler owns a destination, a per-attempt timeout, a retry budget and
//! an optional dead-letter sink.  For each record it decides, attempt by
//! attempt, whether the record is delivered, retried after a backoff delay,
//! or exhausted; an exhausted record is routed — unchanged, byte for byte —
//! to the dead-letter sink when one is configured, and dropped with an
//! explicit decision otherwise.  Nothing a single record does escapes the
//! handler: every outcome ends in one of these actions.

use vstd::prelude::*;
use crate::backoff::{retry_delay_ms, spec_backoff_sat, lemma_backoff_sat_large};
use crate::config::{DeadLetterConfig, HttpConfig};
use crate::delivery::{AttemptResult, DeliveryOutcome, spec_classify, classify};

verus! {

/// The decision core of one proxy's handler: where payloads go, how long
/// one attempt may take, how often to retry, and where exhausted payloads
/// are routed.
pub struct MessageHandler {
    pub msg_destination: String,
    pub timeout_secs: u64,
    pub dlq_config: Option<DeadLetterConfig>,
    pub max_retries: usize,
}

/// What to do after one delivery attempt has been classified.
#[derive(Clone, Copy, Debug, PartialEq, Eq, Structural)]
pub enum RetryDecision {
    /// The attempt succeeded with this status; stop.
    Delivered(u16),
    /// The attempt failed and budget remains: sleep this many milliseconds,
    /// then attempt again.
    RetryAfter { delay_ms: u64 },
    /// The attempt failed and the budget is spent; fall back.
    Exhausted,
}

/// Where an exhausted payload ends up.
#[derive(Debug)]
pub enum FinalAction {
    /// Publish the payload, unchanged, to the dead-letter topic.
    PublishDeadLetter { topic: String, payload: Vec<u8> },
    /// No sink is configured: drop the payload, as an explicit decision.
    DropPayload { payload: Vec<u8> },
}

/// What one whole handling run did: how many attempts it made, the status
/// it delivered with if any, and the fallback action it took if not.
pub struct HandleReport {
    pub attempts: usize,
    pub delivered: Option<u16>,
    pub final_action: Option<FinalAction>,
}

/// The index of the first attempt among the first `n` whose result
/// classifies as a success, if there is one.
pub open spec fn spec_first_success(results: Seq<AttemptResult>, n: nat) -> Option<nat>
    decreases n,
{
    if n == 0 {
        None
    } else {
        match spec_first_success(results, (n - 1) as nat) {
            Some(i) => Some(i),
            None => if spec_classify(results[n - 1]) is Success {
                Some((n - 1) as nat)
            } else {
                None
            },
        }
    }
}

/// How many attempts a run makes against the given results: up to the first
/// success, and the whole budget of `max_retries + 1` attempts when none of
/// them succeeds.
pub open spec fn spec_attempts_used(results: Seq<AttemptResult>, max_retries: nat) -> nat {
    match spec_first_success(results, max_retries + 1) {
        Some(i) => i + 1,
        None => max_retries + 1,
    }
}

/// The status a run delivers with: that of the first successful attempt,
/// and nothing when the budget is exhausted without one.
pub open spec fn spec_delivered_status(results: Seq<AttemptResult>, max_retries: nat) -> Option<u16> {
    match spec_first_success(results, max_retries + 1) {
        Some(i) => match spec_classify(results[i as int]) {
            DeliveryOutcome::Success(s) => Some(s),
            DeliveryOutcome::RetryableFailure(_) => None,
        },
        None => None,
    }
}

proof fn lemma_first_success_none(results: Seq<AttemptResult>, n: nat)
    requires
        forall|i: int| 0 <= i < n ==> !(spec_classify(results[i]) is Success),
    ensures
        spec_first_success(results, n) is None,
    decreases n,
{
    if n > 0 {
        lemma_first_success_none(results, (n - 1) as nat);
    }
}

proof fn lemma_first_success_found(results: Seq<AttemptResult>, i: nat, n: nat)
    requires
        spec_first_success(results, i) is None,
        spec_classify(results[i as int]) is Success,
        i < n,
    ensures
        spec_first_success(results, n) == Some(i),
    decreases n,
{
    if n > i + 1 {
        lemma_first_success_found(results, i, (n - 1) as nat);
    }
}

/// A destination that accepts the first attempt costs exactly one attempt:
/// no retry is made and the delivered status is the first attempt's.
pub proof fn lemma_first_attempt_success(results: Seq<AttemptResult>, max_retries: nat, s: u16)
    requires
        results.len() > max_retries,
        spec_classify(results[0]) == DeliveryOutcome::Success(s),
    ensures
        spec_attempts_used(results, max_retries) == 1,
        spec_delivered_status(results, max_retries) == Some(s),
{
    lemma_first_success_found(results, 0, max_retries + 1);
}

/// A run stops at the first success: when every attempt before index `k`
/// fails and attempt `k` succeeds within the budget, exactly `k + 1`
/// attempts are made and the record is delivered.
pub proof fn lemma_stops_at_first_success(results: Seq<AttemptResult>, max_retries: nat, k: nat)
    requires
        results.len() > max_retries,
        k <= max_retries,
        spec_classify(results[k as int]) is Success,
        forall|i: int| 0 <= i < k ==> !(spec_classify(results[i]) is Success),
    ensures
        spec_attempts_used(results, max_retries) == k + 1,
        spec_delivered_status(results, max_retries) is Some,
{
    lemma_first_success_none(results, k);
    lemma_first_success_found(results, k, max_retries + 1);
}

/// A destination that never accepts costs the whole budget: exactly
/// `max_retries + 1` attempts are made and nothing is delivered.
pub proof fn lemma_exhaustion(results: Seq<AttemptResult>, max_retries: nat)
    requires
        results.len() > max_retries,
        forall|i: int| 0 <= i <= max_retries ==> !(spec_classify(results[i]) is Success),
    ensures
        spec_attempts_used(results, max_retries) == max_retries + 1,
        spec_delivered_status(results, max_retries) is None,
{
    lemma_first_success_none(results, max_retries + 1);
}

impl MessageHandler {
    /// Builds a handler from the HTTP and dead-letter parts of one proxy's
    /// configuration, filling in the default timeout and retry budget where
    /// the document left them out.
    pub fn build(http_config: HttpConfig, dlq_config: Option<DeadLetterConfig>) -> (h: MessageHandler)
        ensures
            h.msg_destination@ == http_config.spec_destination(),
            h.timeout_secs == http_config.spec_timeout_secs(),
            h.dlq_config == dlq_config,
            h.max_retries == http_config.spec_max_retries() as usize,
    {
        let msg_destination = http_config.destination();
        let timeout_secs = http_config.effective_timeout_secs();
        let max_retries = http_config.effective_max_retries() as usize;
        MessageHandler { msg_destination, timeout_secs, dlq_config, max_retries }
    }

    /// Decides what follows the attempt with index `attempt` (counted from
    /// zero) given its result: delivered on a success status; one more
    /// attempt after a jittered backoff delay while budget remains;
    /// exhausted once `max_retries` retries have failed.
    pub fn on_attempt(&self, attempt: usize, result: &AttemptResult) -> (d: RetryDecision)
        ensures
            match d {
                RetryDecision::Delivered(s) => spec_classify(*result) == DeliveryOutcome::Success(s),
                RetryDecision::RetryAfter { delay_ms } => spec_classify(*result) is RetryableFailure
                    && attempt < self.max_retries
                    && delay_ms <= spec_backoff_sat(attempt as nat),
                RetryDecision::Exhausted => spec_classify(*result) is RetryableFailure
                    && attempt >= self.max_retries,
            },
    {
        match classify(result) {
            DeliveryOutcome::Success(s) => RetryDecision::Delivered(s),
            DeliveryOutcome::RetryableFailure(_) => {
                if attempt < self.max_retries {
                    let capped: u32 = if attempt > 63 { 63 } else { attempt as u32 };
                    let delay_ms = retry_delay_ms(capped);
                    proof {
                        if attempt > 63 {
                            lemma_backoff_sat_large(attempt as nat);
                        }
                    }
                    RetryDecision::RetryAfter { delay_ms }
                } else {
                    RetryDecision::Exhausted
                }
            },
        }
    }

    /// Routes an exhausted payload: to the dead-letter topic when a sink is
    /// configured, else dropped — either way the payload leaves exactly as
    /// it arrived, byte for byte.
    pub fn on_exhausted(&self, payload: Vec<u8>) -> (a: FinalAction)
        ensures
            match a {
                FinalAction::PublishDeadLetter { topic, payload: p } =>
                    (self.dlq_config matches Some(c) && topic@ == c.topic@) && p == payload,
                FinalAction::DropPayload { payload: p } => self.dlq_config is None && p == payload,
            },
    {
        match &self.dlq_config {
            Some(c) => FinalAction::PublishDeadLetter { topic: c.topic.clone(), payload },
            None => FinalAction::DropPayload { payload },
        }
    }

    /// Runs the whole per-record decision sequence against a given list of
    /// attempt results — one entry per attempt the budget allows — and
    /// reports how many attempts were made, what was delivered, and what
    /// fallback action was taken.  The transport supplies the results one
    /// by one in the live loop; handed here as a list, the run is decided
    /// for every possible behaviour of the destination.
    pub fn handle_scripted(&self, payload: Vec<u8>, results: &Vec<AttemptResult>) -> (r: HandleReport)
        requires
            results@.len() > self.max_retries,
            self.max_retries < usize::MAX,
        ensures
            r.attempts == spec_attempts_used(results@, self.max_retries as nat),
            r.delivered == spec_delivered_status(results@, self.max_retries as nat),
            match r.final_action {
                Some(FinalAction::PublishDeadLetter { topic, payload: p }) => r.delivered is None
                    && (self.dlq_config matches Some(c) && topic@ == c.topic@)
                    && p@ == payload@,
                Some(FinalAction::DropPayload { payload: p }) => r.delivered is None
                    && self.dlq_config is None
                    && p@ == payload@,
                None => r.delivered is Some,
            },
    {
        let mut attempt: usize = 0;
        loop
            invariant
                attempt <= self.max_retries,
                self.max_retries < usize::MAX,
                results@.len() > self.max_retries,
                spec_first_success(results@, attempt as nat) is None,
            decreases self.max_retries - attempt,
        {
            let decision = self.on_attempt(attempt, &results[attempt]);
            match decision {
                RetryDecision::Delivered(s) => {
                    proof {
                        lemma_first_success_found(results@, attempt as nat, (self.max_retries + 1) as nat);
                    }
                    return HandleReport {
                        attempts: attempt + 1,
                        delivered: Some(s),
                        final_action: None,
                    };
                },
                RetryDecision::RetryAfter { delay_ms: _ } => {
                    attempt = attempt + 1;
                },
                RetryDecision::Exhausted => {
                    proof {
                        assert(spec_first_success(results@, (self.max_retries + 1) as nat) is None);
                    }
                    let action = self.on_exhausted(payload);
                    return HandleReport {
                        attempts: attempt + 1,
                        delivered: None,
                        final_action: Some(action),
                    };
                },
            }
        }
    }
}

} // verus!
