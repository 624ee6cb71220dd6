//! The retirement run: for each outdated index in turn, wait until no
//! snapshot runs anywhere in the cluster, snapshot the index under its own
//! name, wait until that snapshot is reported SUCCESS, then delete the index.
//!
//! The run is a state machine. [`Retirement::step`] takes the outcome of the
//! last action and returns the next one; the caller performs each action
//! (cluster calls, sleeps) and reports back, so no decision is made outside.
use crate::age::{outdated_names, IndexRecord};
use crate::date::Timestamp;
use crate::snapshot::{has_success, is_snapshot_running, is_snapshot_success, SnapshotRecord};
use vstd::prelude::*;
use vstd::string::*;

verus! {

/// Seconds to wait before asking the cluster again.
pub const POLL_INTERVAL_SECS: u64 = 10;

/// The comma-separated pieces of `s`, in order, empty pieces included.
pub open spec fn split_commas(s: Seq<char>) -> Seq<Seq<char>>
    decreases s.len(),
{
    if s.len() == 0 {
        seq![Seq::<char>::empty()]
    } else {
        let p = split_commas(s.drop_last());
        if s.last() == ',' {
            p.push(Seq::<char>::empty())
        } else {
            p.update(p.len() - 1, p.last().push(s.last()))
        }
    }
}

/// The character sequences of a list of strings.
pub open spec fn texts(v: Seq<String>) -> Seq<Seq<char>> {
    v.map_values(|s: String| s@)
}

/// Splits a comma-separated list of index name patterns into its patterns.
pub fn split_filter(index_filter: &str) -> (r: Vec<String>)
    ensures
        texts(r@) == split_commas(index_filter@),
{
    let n = index_filter.unicode_len();
    let ghost s = index_filter@;
    let mut out: Vec<String> = Vec::new();
    let mut start: usize = 0;
    let mut i: usize = 0;
    assert(s.take(0) =~= Seq::<char>::empty());
    assert(texts(out@).push(s.subrange(0, 0)) =~= seq![Seq::<char>::empty()]);
    while i < n
        invariant
            n == s.len(),
            s == index_filter@,
            start <= i <= n,
            texts(out@).push(s.subrange(start as int, i as int)) == split_commas(s.take(i as int)),
        decreases n - i,
    {
        let c = index_filter.get_char(i);
        let ghost prev = texts(out@).push(s.subrange(start as int, i as int));
        assert(s.take(i + 1).drop_last() =~= s.take(i as int));
        assert(s.take(i + 1).last() == c);
        if c == ',' {
            let piece = index_filter.substring_char(start, i).to_owned();
            let ghost before = texts(out@);
            out.push(piece);
            assert(texts(out@) =~= before.push(s.subrange(start as int, i as int)));
            start = i + 1;
            assert(s.subrange(start as int, i + 1) =~= Seq::<char>::empty());
            assert(texts(out@).push(s.subrange(start as int, i + 1)) =~= prev.push(
                Seq::<char>::empty(),
            ));
        } else {
            assert(s.subrange(start as int, i + 1) =~= s.subrange(start as int, i as int).push(c));
            assert(texts(out@).push(s.subrange(start as int, i + 1)) =~= prev.update(
                prev.len() - 1,
                prev.last().push(c),
            ));
        }
        i = i + 1;
    }
    let last = index_filter.substring_char(start, n).to_owned();
    out.push(last);
    assert(s.take(n as int) =~= s);
    assert(texts(out@) =~= texts(out@.drop_last()).push(s.subrange(start as int, n as int)));
    out
}

/// Where the run stands.
#[derive(Clone, Copy, Debug, PartialEq, Eq, Structural)]
pub enum Phase {
    /// Asked whether any snapshot runs in the cluster.
    GateCheck,
    /// One does: waiting before asking again.
    GateWait,
    /// Asked for the snapshot of the current index.
    Creating,
    /// Asked for the status of that snapshot.
    PollCheck,
    /// It is not SUCCESS yet: waiting before asking again.
    PollWait,
    /// Asked to delete the current index.
    Deleting,
    /// Every index has been retired.
    Completed,
    /// A cluster call failed; the run stopped.
    Failed,
}

/// What the caller is to do next.
#[derive(Debug)]
pub enum Action {
    /// List the status of every snapshot in the cluster, no filter.
    ListRunningSnapshots,
    /// Sleep for `secs` seconds.
    Sleep { secs: u64 },
    /// Create the snapshot `snapshot` of the index of that name in
    /// `repository`, with unavailable indices ignored and without the global
    /// state.
    CreateSnapshot { repository: String, snapshot: String },
    /// List the status of the snapshot `snapshot` in `repository`.
    ListSnapshotStatus { repository: String, snapshot: String },
    /// Delete the index `index`.
    DeleteIndex { index: String },
    /// The run is over and succeeded.
    Finish,
    /// The run is over and failed.
    Abort,
}

/// The outcome of the last action.
#[derive(Debug)]
pub enum Event {
    /// A status listing came back.
    Status(Vec<SnapshotRecord>),
    /// The sleep is over.
    Slept,
    /// The snapshot creation call returned.
    Created,
    /// The index deletion call returned.
    Deleted,
    /// The last cluster call failed or its answer could not be read.
    CallFailed,
}

/// A retirement run over `indices`, snapshotting into `repository`.
#[derive(Debug)]
pub struct Retirement {
    pub repository: String,
    /// The outdated indices, retired in this order.
    pub indices: Vec<String>,
    /// Position in `indices` of the index being retired.
    pub current: usize,
    pub phase: Phase,
}

pub open spec fn is_active(p: Phase) -> bool {
    p != Phase::Completed && p != Phase::Failed
}

impl Retirement {
    pub open spec fn wf(&self) -> bool {
        &&& self.current <= self.indices@.len()
        &&& is_active(self.phase) ==> self.current < self.indices@.len()
        &&& self.phase == Phase::Completed ==> self.current == self.indices@.len()
    }

    /// The name of the index being retired.
    pub open spec fn current_name(&self) -> Seq<char> {
        self.indices@[self.current as int]@
    }

    /// The phase and position after `event` arrives.
    pub open spec fn next(&self, event: Event) -> (Phase, int) {
        let c = self.current as int;
        match self.phase {
            Phase::Completed => (Phase::Completed, c),
            Phase::Failed => (Phase::Failed, c),
            Phase::GateCheck => match event {
                Event::Status(l) => if l@.len() > 0 {
                    (Phase::GateWait, c)
                } else {
                    (Phase::Creating, c)
                },
                _ => (Phase::Failed, c),
            },
            Phase::GateWait => match event {
                Event::Slept => (Phase::GateCheck, c),
                _ => (Phase::Failed, c),
            },
            Phase::Creating => match event {
                Event::Created => (Phase::PollCheck, c),
                _ => (Phase::Failed, c),
            },
            Phase::PollCheck => match event {
                Event::Status(l) => if has_success(l@, self.current_name()) {
                    (Phase::Deleting, c)
                } else {
                    (Phase::PollWait, c)
                },
                _ => (Phase::Failed, c),
            },
            Phase::PollWait => match event {
                Event::Slept => (Phase::PollCheck, c),
                _ => (Phase::Failed, c),
            },
            Phase::Deleting => match event {
                Event::Deleted => if c + 1 < self.indices@.len() {
                    (Phase::GateCheck, c + 1)
                } else {
                    (Phase::Completed, c + 1)
                },
                _ => (Phase::Failed, c),
            },
        }
    }

    /// The action that the phase asks for.
    pub open spec fn action_of(&self) -> Action {
        match self.phase {
            Phase::GateCheck => Action::ListRunningSnapshots,
            Phase::GateWait => Action::Sleep { secs: POLL_INTERVAL_SECS },
            Phase::Creating => Action::CreateSnapshot {
                repository: self.repository,
                snapshot: self.indices@[self.current as int],
            },
            Phase::PollCheck => Action::ListSnapshotStatus {
                repository: self.repository,
                snapshot: self.indices@[self.current as int],
            },
            Phase::PollWait => Action::Sleep { secs: POLL_INTERVAL_SECS },
            Phase::Deleting => Action::DeleteIndex { index: self.indices@[self.current as int] },
            Phase::Completed => Action::Finish,
            Phase::Failed => Action::Abort,
        }
    }

    /// The action that the current phase asks for.
    pub fn action(&self) -> (a: Action)
        requires
            self.wf(),
        ensures
            a == self.action_of(),
    {
        match self.phase {
            Phase::GateCheck => Action::ListRunningSnapshots,
            Phase::GateWait => Action::Sleep { secs: POLL_INTERVAL_SECS },
            Phase::Creating => Action::CreateSnapshot {
                repository: self.repository.clone(),
                snapshot: self.indices[self.current].clone(),
            },
            Phase::PollCheck => Action::ListSnapshotStatus {
                repository: self.repository.clone(),
                snapshot: self.indices[self.current].clone(),
            },
            Phase::PollWait => Action::Sleep { secs: POLL_INTERVAL_SECS },
            Phase::Deleting => Action::DeleteIndex { index: self.indices[self.current].clone() },
            Phase::Completed => Action::Finish,
            Phase::Failed => Action::Abort,
        }
    }

    /// Starts a run over the outdated `indices`. With none, the run is
    /// complete at once and nothing is snapshotted or deleted.
    pub fn start(repository: String, indices: Vec<String>) -> (r: (Retirement, Action))
        ensures
            r.0.wf(),
            r.0.repository == repository,
            r.0.indices == indices,
            r.0.current == 0,
            indices@.len() == 0 ==> r.0.phase == Phase::Completed,
            indices@.len() > 0 ==> r.0.phase == Phase::GateCheck,
            r.1 == r.0.action_of(),
    {
        let phase = if indices.len() == 0 { Phase::Completed } else { Phase::GateCheck };
        let m = Retirement { repository, indices, current: 0, phase };
        let a = m.action();
        (m, a)
    }

    /// Takes the outcome of the last action and returns the next action.
    ///
    /// A failed call ends the run at once, leaving the remaining indices
    /// alone. An index is deleted only right after a status listing showed
    /// its snapshot as SUCCESS; a snapshot is requested only right after the
    /// cluster showed no snapshot running; the run moves on to the next index
    /// only once the current one is deleted. A snapshot that is FAILED or
    /// PARTIAL is waited on like one still running.
    pub fn step(&mut self, event: Event) -> (a: Action)
        requires
            old(self).wf(),
        ensures
            final(self).wf(),
            final(self).repository == old(self).repository,
            final(self).indices == old(self).indices,
            (final(self).phase, final(self).current as int) == old(self).next(event),
            a == final(self).action_of(),
            a is DeleteIndex ==> old(self).phase == Phase::PollCheck && event is Status
                && has_success(event->Status_0@, old(self).current_name()),
            a is CreateSnapshot ==> old(self).phase == Phase::GateCheck && event is Status
                && event->Status_0@.len() == 0,
            final(self).current != old(self).current ==> old(self).phase == Phase::Deleting
                && event is Deleted,
            event is CallFailed && is_active(old(self).phase) ==> final(self).phase == Phase::Failed,
    {
        let ghost ev = event;
        let phase = self.phase;
        match phase {
            Phase::Completed | Phase::Failed => {},
            Phase::GateCheck => match event {
                Event::Status(l) => {
                    self.phase = if is_snapshot_running(&l) {
                        Phase::GateWait
                    } else {
                        Phase::Creating
                    };
                },
                _ => {
                    self.phase = Phase::Failed;
                },
            },
            Phase::GateWait => match event {
                Event::Slept => {
                    self.phase = Phase::GateCheck;
                },
                _ => {
                    self.phase = Phase::Failed;
                },
            },
            Phase::Creating => match event {
                Event::Created => {
                    self.phase = Phase::PollCheck;
                },
                _ => {
                    self.phase = Phase::Failed;
                },
            },
            Phase::PollCheck => match event {
                Event::Status(l) => {
                    let ok = is_snapshot_success(&l, self.indices[self.current].as_str());
                    self.phase = if ok {
                        Phase::Deleting
                    } else {
                        Phase::PollWait
                    };
                },
                _ => {
                    self.phase = Phase::Failed;
                },
            },
            Phase::PollWait => match event {
                Event::Slept => {
                    self.phase = Phase::PollCheck;
                },
                _ => {
                    self.phase = Phase::Failed;
                },
            },
            Phase::Deleting => match event {
                Event::Deleted => {
                    let len = self.indices.len();
                    assert(self.current < len);
                    self.current = self.current + 1;
                    self.phase = if self.current < self.indices.len() {
                        Phase::GateCheck
                    } else {
                        Phase::Completed
                    };
                },
                _ => {
                    self.phase = Phase::Failed;
                },
            },
        }
        self.action()
    }
}

/// An empty listing retires nothing: the age filter selects no index, a run
/// over no index is complete from the start, and a finished run answers every
/// later event by finishing again, so no snapshot or deletion is ever asked.
pub proof fn lemma_empty_listing_retires_nothing(
    keep_days: u32,
    now: Timestamp,
    m: Retirement,
    event: Event,
)
    requires
        m.wf(),
        m.phase == Phase::Completed,
    ensures
        outdated_names(Seq::<IndexRecord>::empty(), keep_days, now).len() == 0,
        m.next(event) == (Phase::Completed, m.current as int),
        m.action_of() == Action::Finish,
{
    broadcast use vstd::seq_lib::group_filter_ensures;

    assert(Seq::<IndexRecord>::empty().filter(
        |r: IndexRecord| crate::age::outdated(r.creation_time, keep_days, now),
    ).len() <= 0);
}

/// A failed run stays failed: whatever arrives after a cluster call failed,
/// the run only aborts, and no further snapshot or deletion is asked.
pub proof fn lemma_failed_run_stays_failed(m: Retirement, event: Event)
    requires
        m.wf(),
        m.phase == Phase::Failed,
    ensures
        m.next(event) == (Phase::Failed, m.current as int),
        m.action_of() == Action::Abort,
{
}

} // verus!
