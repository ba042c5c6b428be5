use vstd::prelude::*;

use crate::redis_window::err::RedisHandleErr;

verus! {

/// A budget of attempts, spent one failure at a time: another attempt is made while
/// fewer failures than the limit have been counted.
pub struct AttemptCounter {
    tempt: u64,
    limit: u64,
}

impl AttemptCounter {
    /// Failures counted so far.
    pub closed spec fn failures(&self) -> nat {
        self.tempt as nat
    }

    /// How many failures end the attempts.
    pub closed spec fn limit(&self) -> nat {
        self.limit as nat
    }

    /// A budget of `retry` attempts; none where `retry` is not positive.
    pub fn from_i32(retry: i32) -> (c: Self)
        ensures
            c.failures() == 0,
            c.limit() == if retry < 0 { 0 } else { retry as nat },
    {
        let limit: u64 = if retry < 0 { 0 } else { retry as u64 };
        AttemptCounter { tempt: 0, limit }
    }

    /// A budget of `retry` attempts.
    pub fn from_usize(retry: usize) -> (c: Self)
        ensures
            c.failures() == 0,
            c.limit() == retry as nat,
    {
        AttemptCounter { tempt: 0, limit: retry as u64 }
    }

    /// Whether another attempt is to be made.
    pub fn may_attempt(&self) -> (r: bool)
        ensures
            r == (self.failures() < self.limit()),
    {
        self.tempt < self.limit
    }

    /// Counts one failed attempt.
    pub fn record_failure(&mut self)
        requires
            old(self).failures() < old(self).limit(),
        ensures
            final(self).failures() == old(self).failures() + 1,
            final(self).limit() == old(self).limit(),
    {
        self.tempt = self.tempt + 1;
    }
}

pub open spec fn counted_run(counters: Seq<AttemptCounter>) -> bool {
    &&& counters.len() > 0
    &&& counters[0].failures() == 0
    &&& forall|k: int|
        0 <= k < counters.len() - 1 ==> counters[k].failures() < counters[k].limit() && (
        #[trigger] counters[k + 1]).failures() == counters[k].failures() + 1
            && counters[k + 1].limit() == counters[k].limit()
}

proof fn lemma_counted_run_at(counters: Seq<AttemptCounter>, k: int)
    requires
        counted_run(counters),
        0 <= k < counters.len(),
    ensures
        counters[k].failures() == k,
        counters[k].limit() == counters[0].limit(),
    decreases k,
{
    if k > 0 {
        lemma_counted_run_at(counters, k - 1);
        let j = k - 1;
        assert(counters[j + 1].failures() == counters[j].failures() + 1);
    }
}

/// Starting from a fresh budget, the `k`-th budget of a run of counted failures has
/// counted `k` of them, and a run never counts more failures than the limit: the
/// attempts end after `limit` failures, never earlier and never later.
pub proof fn law_attempts_end_at_limit(counters: Seq<AttemptCounter>)
    requires
        counted_run(counters),
    ensures
        forall|k: int|
            0 <= k < counters.len() ==> (#[trigger] counters[k]).failures() == k
                && counters[k].limit() == counters[0].limit(),
        counters.len() - 1 <= counters[0].limit(),
{
    assert forall|k: int| 0 <= k < counters.len() implies (#[trigger] counters[k]).failures()
        == k && counters[k].limit() == counters[0].limit() by {
        lemma_counted_run_at(counters, k);
    }
    if counters.len() > 1 {
        let j = counters.len() - 2;
        lemma_counted_run_at(counters, j);
        assert(counters[j + 1].failures() == counters[j].failures() + 1);
    }
}

/// How one read of a stored result went.
pub enum FetchOutcome {
    /// The result was read.
    Got,
    /// The read failed; `reconnected` tells whether a new connection was had.
    Failed { reconnected: bool },
}

/// What the reader of stored results does next.
#[derive(Debug, PartialEq, Eq, Structural)]
pub enum FetchAction {
    /// Hand the result on, delete it, and read the same key again while attempts are
    /// left.
    ForwardAndRead,
    /// Read the same key again.
    Retry,
    /// Give the key up and go on with the next one.
    NextKey,
    /// Report that no connection is to be had, and stop.
    StopNoConnection,
}

/// The step of the result reader: a read that succeeds hands the result on and spends no
/// attempt, so the key is read again while attempts are left; a failed read with a new
/// connection spends one attempt; without a connection the reader stops.
pub fn fetch_step(counter: &mut AttemptCounter, outcome: FetchOutcome) -> (a: FetchAction)
    requires
        old(counter).failures() < old(counter).limit(),
    ensures
        final(counter).limit() == old(counter).limit(),
        match outcome {
            FetchOutcome::Got => final(counter).failures() == old(counter).failures() && a
                == FetchAction::ForwardAndRead,
            FetchOutcome::Failed { reconnected: true } => final(counter).failures() == old(
                counter,
            ).failures() + 1 && a == (if final(counter).failures() < final(counter).limit() {
                FetchAction::Retry
            } else {
                FetchAction::NextKey
            }),
            FetchOutcome::Failed { reconnected: false } => final(counter).failures() == old(
                counter,
            ).failures() && a == FetchAction::StopNoConnection,
        },
{
    match outcome {
        FetchOutcome::Got => FetchAction::ForwardAndRead,
        FetchOutcome::Failed { reconnected } => {
            if reconnected {
                counter.record_failure();
                if counter.may_attempt() {
                    FetchAction::Retry
                } else {
                    FetchAction::NextKey
                }
            } else {
                FetchAction::StopNoConnection
            }
        },
    }
}

/// How one attempt of a single exchange to read its result went.
pub enum OnetimeOutcome {
    /// No connection to the store was had.
    NoConnection,
    /// The result was read.
    Got(String),
    /// The read failed.
    Failed,
}

/// What a single exchange does after an attempt to read its result.
pub enum OnetimeAction {
    Finish(Result<String, RedisHandleErr>),
    Retry,
}

/// Whether a single exchange may try to read its result at all; where not, it ends
/// with `OverRetry`.
pub fn onetime_start(counter: &AttemptCounter) -> (r: Option<RedisHandleErr>)
    ensures
        r == (if counter.failures() < counter.limit() {
            None::<RedisHandleErr>
        } else {
            Some(RedisHandleErr::OverRetry)
        }),
{
    if counter.may_attempt() {
        None
    } else {
        Some(RedisHandleErr::OverRetry)
    }
}

/// The step of a single exchange reading its result: a read result ends it, a missing
/// connection ends it with `RedisNoneConnection`, a failed read spends an attempt and
/// ends it with `OverRetry` once none is left.
pub fn onetime_step(counter: &mut AttemptCounter, outcome: OnetimeOutcome) -> (a: OnetimeAction)
    requires
        old(counter).failures() < old(counter).limit(),
    ensures
        final(counter).limit() == old(counter).limit(),
        match outcome {
            OnetimeOutcome::NoConnection => final(counter).failures() == old(counter).failures()
                && a == OnetimeAction::Finish(Err(RedisHandleErr::RedisNoneConnection)),
            OnetimeOutcome::Got(v) => final(counter).failures() == old(counter).failures() && a
                == OnetimeAction::Finish(Ok(v)),
            OnetimeOutcome::Failed => final(counter).failures() == old(counter).failures() + 1
                && a == (if final(counter).failures() < final(counter).limit() {
                OnetimeAction::Retry
            } else {
                OnetimeAction::Finish(Err(RedisHandleErr::OverRetry))
            }),
        },
{
    match outcome {
        OnetimeOutcome::NoConnection => OnetimeAction::Finish(Err(RedisHandleErr::RedisNoneConnection)),
        OnetimeOutcome::Got(v) => OnetimeAction::Finish(Ok(v)),
        OnetimeOutcome::Failed => {
            counter.record_failure();
            if counter.may_attempt() {
                OnetimeAction::Retry
            } else {
                OnetimeAction::Finish(Err(RedisHandleErr::OverRetry))
            }
        },
    }
}

/// What happened to an attempt to push a request onto its queue.
pub enum PushEvent {
    Pushed,
    PushFailed,
    Reacquired,
    ReacquireFailed,
    Cancelled,
}

/// What the pusher does next.
#[derive(Debug, PartialEq, Eq, Structural)]
pub enum PushAction {
    Push,
    Reacquire,
    Succeed,
    GiveUp,
}

/// The pusher of one request: `tempt` counts the connections it has had anew.
pub struct PushRetry {
    tempt: i32,
    retry: i32,
}

impl PushRetry {
    pub closed spec fn tempt(&self) -> i32 {
        self.tempt
    }

    pub closed spec fn retry(&self) -> i32 {
        self.retry
    }

    /// A pusher with the budget `retry`, and its first action: it pushes only where the
    /// budget is positive, and gives up at once otherwise.
    pub fn start(retry: i32) -> (r: (PushRetry, PushAction))
        ensures
            r.0.tempt() == 0,
            r.0.retry() == retry,
            r.1 == (if 0 < retry { PushAction::Push } else { PushAction::GiveUp }),
    {
        let p = PushRetry { tempt: 0, retry };
        if 0 < retry {
            (p, PushAction::Push)
        } else {
            (p, PushAction::GiveUp)
        }
    }

    /// The next action after an event: a push that went through succeeds; a failed push
    /// asks for a new connection; a new connection is counted and the push is made
    /// again; without a new connection the push is made again on the old one while the
    /// count is below the budget, and given up otherwise; a cancellation changes nothing.
    pub fn step(&mut self, event: PushEvent) -> (a: PushAction)
        requires
            event is Reacquired ==> old(self).tempt() < i32::MAX,
        ensures
            final(self).retry() == old(self).retry(),
            match event {
                PushEvent::Pushed => final(self).tempt() == old(self).tempt() && a
                    == PushAction::Succeed,
                PushEvent::PushFailed => final(self).tempt() == old(self).tempt() && a
                    == PushAction::Reacquire,
                PushEvent::Reacquired => final(self).tempt() == old(self).tempt() + 1 && a
                    == PushAction::Push,
                PushEvent::ReacquireFailed => final(self).tempt() == old(self).tempt() && a == (
                if old(self).tempt() < old(self).retry() {
                    PushAction::Push
                } else {
                    PushAction::GiveUp
                }),
                PushEvent::Cancelled => final(self).tempt() == old(self).tempt() && a
                    == PushAction::Push,
            },
    {
        match event {
            PushEvent::Pushed => PushAction::Succeed,
            PushEvent::PushFailed => PushAction::Reacquire,
            PushEvent::Reacquired => {
                self.tempt = self.tempt + 1;
                PushAction::Push
            },
            PushEvent::ReacquireFailed => {
                if self.tempt < self.retry {
                    PushAction::Push
                } else {
                    PushAction::GiveUp
                }
            },
            PushEvent::Cancelled => PushAction::Push,
        }
    }

    /// How many new connections the pusher has had.
    pub fn tempt_count(&self) -> (r: i32)
        ensures
            r == self.tempt(),
    {
        self.tempt
    }
}

} // verus!
