//! One proxy's poll cycle, as a state machine over what the loop relies on:
//! how many records of the current batch have been dispatched to the worker
//! pool, how many have finished, and whether the batch may be committed.
//!
//! The cycle is `Polling -> Dispatching -> Draining -> Committing ->
//! Polling`, repeated for the process lifetime.  Committing is reachable
//! only once every dispatched record has completed — success, exhausted
//! retry or dead-lettered alike — so offsets are never committed while any
//! of the batch's work is still in flight, and no work of the next batch
//! begins before the current one has drained.

use vstd::prelude::*;
use crate::config::{ConsumerConfig, spec_group_id, group_id};
use crate::delivery::AttemptResult;
use crate::handler::{MessageHandler, FinalAction, spec_delivered_status};
use crate::pool::WorkerPool;

verus! {

/// Where one proxy stands in its poll cycle.
#[derive(Clone, Copy, Debug, PartialEq, Eq, Structural)]
pub enum ProxyPhase {
    /// Waiting for the queue to hand over the next batch.
    Polling,
    /// Fanning the batch's records out to the worker pool.
    Dispatching,
    /// All records dispatched; waiting for the last tasks to finish.
    Draining,
    /// Every task of the batch has completed; the offsets may be committed.
    Committing,
}

/// One proxy: its consumer group, topic, handler, bounded worker pool, and
/// the progress of the batch currently in flight.
pub struct Proxy {
    pub host: String,
    pub group: String,
    pub topic: String,
    pub handler: MessageHandler,
    pub pool: WorkerPool,
    pub phase: ProxyPhase,
    pub batch_total: usize,
    pub dispatched: usize,
    pub completed: usize,
    pub commits: usize,
}

/// What one batch came to: how many records were delivered, the payloads
/// published to the dead-letter topic (in record order), and how many were
/// dropped for want of a sink.
pub struct BatchReport {
    pub delivered: usize,
    pub dead_letters: Vec<Vec<u8>>,
    pub dropped: usize,
}

/// How many records of a batch are delivered when each record's attempts
/// answer as its script says.
pub open spec fn spec_delivered_count(max_retries: nat, scripts: Seq<Vec<AttemptResult>>) -> nat
    decreases scripts.len(),
{
    if scripts.len() == 0 {
        0
    } else {
        spec_delivered_count(max_retries, scripts.drop_last()) + (
        if spec_delivered_status(scripts.last()@, max_retries) is Some {
            1nat
        } else {
            0nat
        })
    }
}

/// The payloads, in record order, of the records a batch cannot deliver:
/// what the dead-letter sink receives when one is configured.
pub open spec fn spec_failed_payloads(
    max_retries: nat,
    records: Seq<Vec<u8>>,
    scripts: Seq<Vec<AttemptResult>>,
) -> Seq<Seq<u8>>
    decreases scripts.len(),
{
    if scripts.len() == 0 || records.len() != scripts.len() {
        Seq::empty()
    } else {
        spec_failed_payloads(max_retries, records.drop_last(), scripts.drop_last()) + (
        if spec_delivered_status(scripts.last()@, max_retries) is None {
            seq![records.last()@]
        } else {
            Seq::empty()
        })
    }
}

fn clone_payload(v: &Vec<u8>) -> (r: Vec<u8>)
    ensures
        r@ == v@,
{
    let r = v.clone();
    proof {
        assert(r@ =~= v@);
    }
    r
}

impl Proxy {
    /// The proxy's invariant.  Completion never overtakes dispatch, dispatch
    /// never overtakes the batch, the pool's tasks in flight are exactly the
    /// dispatched records not yet completed, and each phase pins the
    /// counters: between batches everything is zero, draining begins only
    /// when the whole batch is dispatched, and committing only when the
    /// whole batch has completed.
    pub open spec fn wf(&self) -> bool {
        &&& self.pool.wf()
        &&& self.completed <= self.dispatched <= self.batch_total
        &&& self.pool.in_flight == self.dispatched - self.completed
        &&& (self.phase is Polling ==> self.batch_total == 0 && self.dispatched == 0
            && self.completed == 0)
        &&& (self.phase is Dispatching ==> self.dispatched < self.batch_total)
        &&& (self.phase is Draining ==> self.dispatched == self.batch_total
            && self.completed < self.batch_total)
        &&& (self.phase is Committing ==> self.dispatched == self.batch_total
            && self.completed == self.batch_total)
    }

    /// Builds a proxy for one subscription, rejecting a worker pool size of
    /// zero; the consumer group identifier is derived from application name
    /// and topic so a restart resumes the same group.
    pub fn build(config: ConsumerConfig, message_handler: MessageHandler) -> (r: Result<
        Proxy,
        &'static str,
    >)
        ensures
            match r {
                Ok(p) => {
                    &&& config.spec_valid()
                    &&& p.wf()
                    &&& p.phase is Polling
                    &&& p.host@ == config.host@
                    &&& p.group@ == spec_group_id(config.app_name@, config.topic@)
                    &&& p.topic@ == config.topic@
                    &&& p.handler == message_handler
                    &&& p.pool.capacity == config.pool_size as usize
                    &&& p.pool.in_flight == 0
                    &&& p.commits == 0
                },
                Err(_) => !config.spec_valid(),
            },
    {
        if !config.is_valid() {
            return Err("worker pool size must be at least 1");
        }
        let group = group_id(&config.app_name, &config.topic);
        let pool = WorkerPool::new(config.pool_size as usize);
        Ok(
            Proxy {
                host: config.host,
                group,
                topic: config.topic,
                handler: message_handler,
                pool,
                phase: ProxyPhase::Polling,
                batch_total: 0,
                dispatched: 0,
                completed: 0,
                commits: 0,
            },
        )
    }

    /// Takes delivery of one polled batch of `total` records.  An empty
    /// batch leaves the proxy polling; otherwise dispatching begins with
    /// nothing yet in flight.
    pub fn batch_arrived(&mut self, total: usize)
        requires
            old(self).wf(),
            old(self).phase is Polling,
        ensures
            final(self).wf(),
            final(self).host == old(self).host,
            final(self).group == old(self).group,
            final(self).topic == old(self).topic,
            final(self).handler == old(self).handler,
            final(self).pool == old(self).pool,
            final(self).commits == old(self).commits,
            total == 0 ==> *final(self) == *old(self),
            total > 0 ==> final(self).phase is Dispatching && final(self).batch_total == total
                && final(self).dispatched == 0 && final(self).completed == 0,
    {
        if total > 0 {
            self.phase = ProxyPhase::Dispatching;
            self.batch_total = total;
        }
    }

    /// Hands one record of the batch to the pool.  Needs a free worker: when
    /// the pool is saturated the dispatcher must wait for a completion
    /// first, which is the loop's backpressure.  Dispatching the last record
    /// moves the proxy to draining.
    pub fn dispatch_record(&mut self)
        requires
            old(self).wf(),
            old(self).phase is Dispatching,
            old(self).pool.spec_can_begin(),
        ensures
            final(self).wf(),
            final(self).host == old(self).host,
            final(self).group == old(self).group,
            final(self).topic == old(self).topic,
            final(self).handler == old(self).handler,
            final(self).commits == old(self).commits,
            final(self).batch_total == old(self).batch_total,
            final(self).completed == old(self).completed,
            final(self).dispatched == old(self).dispatched + 1,
            final(self).pool == old(self).pool.spec_begin(),
            final(self).phase == (if old(self).dispatched + 1 == old(self).batch_total {
                ProxyPhase::Draining
            } else {
                ProxyPhase::Dispatching
            }),
    {
        self.pool.begin_task();
        self.dispatched = self.dispatched + 1;
        if self.dispatched == self.batch_total {
            self.phase = ProxyPhase::Draining;
        }
    }

    /// Records that one dispatched task has finished — however its record
    /// fared — freeing its worker.  The last completion of a draining batch
    /// makes the batch committable.
    pub fn record_completed(&mut self)
        requires
            old(self).wf(),
            old(self).phase is Dispatching || old(self).phase is Draining,
            old(self).completed < old(self).dispatched,
        ensures
            final(self).wf(),
            final(self).host == old(self).host,
            final(self).group == old(self).group,
            final(self).topic == old(self).topic,
            final(self).handler == old(self).handler,
            final(self).commits == old(self).commits,
            final(self).batch_total == old(self).batch_total,
            final(self).dispatched == old(self).dispatched,
            final(self).completed == old(self).completed + 1,
            final(self).pool == old(self).pool.spec_finish(),
            final(self).phase == (if old(self).phase is Draining && old(self).completed + 1
                == old(self).batch_total {
                ProxyPhase::Committing
            } else {
                old(self).phase
            }),
    {
        self.pool.finish_task();
        self.completed = self.completed + 1;
        if matches!(self.phase, ProxyPhase::Draining) && self.completed == self.batch_total {
            self.phase = ProxyPhase::Committing;
        }
    }

    /// Whether the batch's offsets may be committed now.
    pub fn ready_to_commit(&self) -> (r: bool)
        ensures
            r == (self.phase is Committing),
    {
        matches!(self.phase, ProxyPhase::Committing)
    }

    /// Commits the batch: advances the consumer group's offsets over every
    /// record of the batch at once and returns to polling.  Only a fully
    /// drained batch can reach this point.
    pub fn commit_batch(&mut self)
        requires
            old(self).wf(),
            old(self).phase is Committing,
            old(self).commits < usize::MAX,
        ensures
            final(self).wf(),
            final(self).host == old(self).host,
            final(self).group == old(self).group,
            final(self).topic == old(self).topic,
            final(self).handler == old(self).handler,
            final(self).pool.capacity == old(self).pool.capacity,
            final(self).pool.in_flight == 0,
            final(self).phase is Polling,
            final(self).commits == old(self).commits + 1,
            final(self).batch_total == 0,
            final(self).dispatched == 0,
            final(self).completed == 0,
    {
        self.phase = ProxyPhase::Polling;
        self.batch_total = 0;
        self.dispatched = 0;
        self.completed = 0;
        self.commits = self.commits + 1;
    }

    /// Runs one whole poll cycle against scripted attempt results — one
    /// script per record, one entry per attempt the budget allows — and
    /// reports what the batch came to.  A non-empty batch is dispatched
    /// record by record, drained, and committed exactly once; an empty batch
    /// commits nothing.  Every dead-letter payload leaves byte-identical to
    /// the record it came from.
    pub fn process_batch(&mut self, records: &Vec<Vec<u8>>, scripts: &Vec<Vec<AttemptResult>>) -> (r:
        BatchReport)
        requires
            old(self).wf(),
            old(self).phase is Polling,
            old(self).commits < usize::MAX,
            old(self).handler.max_retries < usize::MAX,
            records@.len() == scripts@.len(),
            forall|i: int|
                0 <= i < scripts@.len() ==> (#[trigger] scripts@[i])@.len()
                    > old(self).handler.max_retries,
        ensures
            final(self).wf(),
            final(self).phase is Polling,
            final(self).group == old(self).group,
            final(self).topic == old(self).topic,
            final(self).handler == old(self).handler,
            final(self).pool.capacity == old(self).pool.capacity,
            final(self).commits == (if records@.len() > 0 {
                old(self).commits + 1
            } else {
                old(self).commits as int
            }),
            r.delivered == spec_delivered_count(old(self).handler.max_retries as nat, scripts@),
            old(self).handler.dlq_config is Some ==> r.dead_letters@.map_values(|v: Vec<u8>| v@)
                == spec_failed_payloads(old(self).handler.max_retries as nat, records@, scripts@)
                && r.dropped == 0,
            old(self).handler.dlq_config is None ==> r.dead_letters@.len() == 0 && r.dropped
                == scripts@.len() - r.delivered,
    {
        let ghost mr = self.handler.max_retries as nat;
        let n = records.len();
        if n == 0 {
            return BatchReport { delivered: 0, dead_letters: Vec::new(), dropped: 0 };
        }
        self.batch_arrived(n);
        let mut i: usize = 0;
        let mut delivered: usize = 0;
        let mut dead_letters: Vec<Vec<u8>> = Vec::new();
        let mut dropped: usize = 0;
        while i < n
            invariant
                self.wf(),
                n == records@.len(),
                n == scripts@.len(),
                n > 0,
                i <= n,
                self.batch_total == n,
                self.dispatched == i,
                self.completed == i,
                self.pool.in_flight == 0,
                i < n ==> self.phase is Dispatching,
                i == n ==> self.phase is Committing,
                self.group == old(self).group,
                self.topic == old(self).topic,
                self.handler == old(self).handler,
                self.pool.capacity == old(self).pool.capacity,
                self.commits == old(self).commits,
                self.handler.max_retries < usize::MAX,
                mr == self.handler.max_retries as nat,
                forall|j: int|
                    0 <= j < scripts@.len() ==> (#[trigger] scripts@[j])@.len()
                        > self.handler.max_retries,
                delivered <= i,
                delivered == spec_delivered_count(mr, scripts@.take(i as int)),
                self.handler.dlq_config is Some ==> dead_letters@.map_values(|v: Vec<u8>| v@)
                    == spec_failed_payloads(mr, records@.take(i as int), scripts@.take(i as int))
                    && dropped == 0,
                self.handler.dlq_config is None ==> dead_letters@.len() == 0 && dropped == i
                    - delivered,
            decreases n - i,
        {
            self.dispatch_record();
            let payload = clone_payload(&records[i]);
            let report = self.handler.handle_scripted(payload, &scripts[i]);
            proof {
                assert(scripts@.take(i + 1).drop_last() =~= scripts@.take(i as int));
                assert(records@.take(i + 1).drop_last() =~= records@.take(i as int));
                assert(scripts@.take(i + 1).last() == scripts@[i as int]);
            }
            match report.final_action {
                None => {
                    delivered = delivered + 1;
                },
                Some(FinalAction::PublishDeadLetter { topic: _, payload: p }) => {
                    dead_letters.push(p);
                    proof {
                        assert(dead_letters@.map_values(|v: Vec<u8>| v@) =~= spec_failed_payloads(
                            mr,
                            records@.take(i + 1),
                            scripts@.take(i + 1),
                        ));
                    }
                },
                Some(FinalAction::DropPayload { payload: _ }) => {
                    dropped = dropped + 1;
                },
            }
            self.record_completed();
            i = i + 1;
        }
        proof {
            assert(scripts@.take(n as int) =~= scripts@);
            assert(records@.take(n as int) =~= records@);
        }
        self.commit_batch();
        BatchReport { delivered, dead_letters, dropped }
    }
}

/// The commit barrier: whenever a batch is committable, every one of its
/// records has been dispatched, every dispatched task has completed, and
/// nothing of the batch is still in flight on the pool.
pub proof fn lemma_commit_barrier(p: Proxy)
    requires
        p.wf(),
        p.phase is Committing,
    ensures
        p.dispatched == p.batch_total,
        p.completed == p.batch_total,
        p.pool.in_flight == 0,
{
}

} // verus!
