//! The queue of break outcomes not yet written to the journal. An outcome taken from the
//! scheduler exists only here until it is written: a failed write keeps it queued, and the
//! writes keep the order in which the outcomes came.
use crate::domain::{Instant, NANOS_PER_SECOND};
use vstd::prelude::*;

verus! {

/// After a failed write, how long the ticker waits before trying again, in nanoseconds
/// (30 s): a full disk must not flood the system log.
pub const RETRY_AFTER: u64 = 30 * NANOS_PER_SECOND;

/// Outcomes waiting to be written, oldest first, and when the next unforced attempt may be made.
pub struct Journal<E> {
    pending: Vec<E>,
    retry_at: Option<Instant>,
}

impl<E> Journal<E> {
    /// The outcomes waiting, oldest first.
    pub closed spec fn waiting(&self) -> Seq<E> {
        self.pending@
    }

    /// When the next unforced attempt may be made; none when nothing failed.
    pub closed spec fn retry_time(&self) -> Option<Instant> {
        self.retry_at
    }

    /// Whether a flush at `now` writes anything: something waits, and either the retry delay
    /// is over or the flush is forced.
    pub open spec fn due(&self, now: Instant, force: bool) -> bool {
        &&& self.waiting().len() > 0
        &&& (force || match self.retry_time() {
            Some(at) => now.nanos >= at.nanos,
            None => true,
        })
    }

    /// An empty journal.
    pub fn new() -> (journal: Journal<E>)
        ensures
            journal.waiting() == Seq::<E>::empty(),
            journal.retry_time() is None,
    {
        Journal { pending: Vec::new(), retry_at: None }
    }

    /// Queues `entries` after those already waiting, in their order.
    pub fn enqueue(&mut self, entries: Vec<E>)
        ensures
            final(self).waiting() == old(self).waiting() + entries@,
            final(self).retry_time() == old(self).retry_time(),
    {
        let mut entries = entries;
        self.pending.append(&mut entries);
    }

    /// How many outcomes wait.
    pub fn pending(&self) -> (count: usize)
        ensures
            count == self.waiting().len(),
    {
        self.pending.len()
    }

    /// The outcomes waiting, oldest first: the ones to write, in this order.
    pub fn pending_entries(&self) -> (entries: &Vec<E>)
        ensures
            entries@ == self.waiting(),
    {
        &self.pending
    }

    /// Whether a flush at `now` should write: not when nothing waits, nor while a failed
    /// write's retry delay runs, unless forced.
    pub fn flush_due(&self, now: Instant, force: bool) -> (due: bool)
        ensures
            due == self.due(now, force),
    {
        let waiting = match self.retry_at {
            Some(at) => now.nanos < at.nanos,
            None => false,
        };
        !(self.pending.len() == 0 || (waiting && !force))
    }

    /// Whether a retry delay can be counted from `now` without leaving the clock's range.
    pub fn can_settle_at(now: Instant) -> (can: bool)
        ensures
            can == (now.nanos <= u64::MAX - RETRY_AFTER),
    {
        now.nanos <= u64::MAX - RETRY_AFTER
    }

    /// Records a flush at `now` whose first `written` outcomes were written, the next one (if
    /// any) having failed: those are dropped, the rest stay in order, and if some stay the
    /// next unforced attempt waits `RETRY_AFTER`.
    pub fn settle(&mut self, written: usize, now: Instant)
        requires
            written <= old(self).waiting().len(),
            now.nanos <= u64::MAX - RETRY_AFTER,
        ensures
            final(self).waiting() == old(self).waiting().skip(written as int),
            final(self).retry_time() == (if written < old(self).waiting().len() {
                Some(Instant { nanos: (now.nanos + RETRY_AFTER) as u64 })
            } else {
                None
            }),
    {
        let rest = self.pending.split_off(written);
        self.pending = rest;
        self.retry_at = if self.pending.len() > 0 {
            Some(Instant { nanos: now.nanos + RETRY_AFTER })
        } else {
            None
        };
    }
}

/// Nothing is lost: a flush that wrote `written` outcomes leaves exactly the others waiting,
/// in their order, so that what was written followed by what waits is what waited before.
pub proof fn written_then_waiting_is_what_waited<E>(before: Journal<E>, after: Journal<E>, written: nat)
    requires
        written <= before.waiting().len(),
        after.waiting() == before.waiting().skip(written as int),
    ensures
        before.waiting().take(written as int) + after.waiting() == before.waiting(),
{
    assert(before.waiting().take(written as int) + before.waiting().skip(written as int) =~= before.waiting());
}

/// After a failed write at `failed_at`, no unforced flush writes before `RETRY_AFTER` has
/// passed, a forced one does, and once the delay is over an unforced one does too.
pub proof fn a_failure_delays_unforced_retries<E>(journal: Journal<E>, failed_at: Instant, now: Instant)
    requires
        journal.waiting().len() > 0,
        journal.retry_time() == Some(Instant { nanos: (failed_at.nanos + RETRY_AFTER) as u64 }),
        failed_at.nanos <= u64::MAX - RETRY_AFTER,
    ensures
        now.nanos < failed_at.nanos + RETRY_AFTER ==> !journal.due(now, false),
        journal.due(now, true),
        now.nanos >= failed_at.nanos + RETRY_AFTER ==> journal.due(now, false),
{
}

/// `record` may have answered `Ok` for `entry`.
pub open spec fn written_by<E, R, F: Fn(&E) -> Result<(), R>>(record: F, entry: &E) -> bool {
    exists|answer: Result<(), R>| answer is Ok && #[trigger] record.ensures((entry,), answer)
}

/// `record` may have answered `Err` for `entry`.
pub open spec fn refused_by<E, R, F: Fn(&E) -> Result<(), R>>(record: F, entry: &E) -> bool {
    exists|answer: Result<(), R>| answer is Err && #[trigger] record.ensures((entry,), answer)
}

impl<E> Journal<E> {
    /// A flush at `now`: when due, the waiting outcomes are written in order by `record`
    /// (which answers `Ok` when the write succeeded) until the first failure; the written ones
    /// leave the queue, the rest stay in order, and after a failure the next unforced attempt
    /// waits `RETRY_AFTER`. When not due, nothing is written. Gives how many were written.
    pub fn flush<R, F: Fn(&E) -> Result<(), R>>(&mut self, now: Instant, force: bool, record: F) -> (written: usize)
        requires
            forall|e: &E| #[trigger] record.requires((e,)),
            now.nanos <= u64::MAX - RETRY_AFTER,
        ensures
            !old(self).due(now, force) ==> written == 0 && final(self).waiting() == old(self).waiting()
                && final(self).retry_time() == old(self).retry_time(),
            old(self).due(now, force) ==> {
                &&& written <= old(self).waiting().len()
                &&& forall|k: int| 0 <= k < written ==> #[trigger] written_by(record, &old(self).waiting()[k])
                &&& written < old(self).waiting().len() ==> refused_by(record, &old(self).waiting()[written as int])
                &&& final(self).waiting() == old(self).waiting().skip(written as int)
                &&& final(self).retry_time() == (if written < old(self).waiting().len() {
                    Some(Instant { nanos: (now.nanos + RETRY_AFTER) as u64 })
                } else {
                    None
                })
            },
    {
        if !self.flush_due(now, force) {
            return 0;
        }
        let mut written: usize = 0;
        while written < self.pending.len()
            invariant
                written <= self.pending@.len(),
                self.pending@ == old(self).waiting(),
                forall|e: &E| #[trigger] record.requires((e,)),
                forall|k: int| 0 <= k < written ==> #[trigger] written_by(record, &old(self).waiting()[k]),
            ensures
                written <= self.pending@.len(),
                self.pending@ == old(self).waiting(),
                forall|k: int| 0 <= k < written ==> #[trigger] written_by(record, &old(self).waiting()[k]),
                written < self.pending@.len() ==> refused_by(record, &old(self).waiting()[written as int]),
            decreases self.pending@.len() - written,
        {
            let outcome = record(&self.pending[written]);
            if outcome.is_err() {
                break;
            }
            written = written + 1;
        }
        self.settle(written, now);
        written
    }
}

} // verus!
