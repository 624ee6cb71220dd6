//! Snapshot status as the cluster reports it, and the two questions the
//! retirement asks of it.
use vstd::prelude::*;

verus! {

/// The state of a snapshot.
#[derive(Clone, Copy, Debug, PartialEq, Eq, Structural)]
pub enum SnapshotState {
    InProgress,
    Success,
    Failed,
    Partial,
    Other,
}

/// The state that the cluster's state name `s` stands for.
pub open spec fn state_of_name(s: Seq<char>) -> SnapshotState {
    if s == "IN_PROGRESS"@ {
        SnapshotState::InProgress
    } else if s == "SUCCESS"@ {
        SnapshotState::Success
    } else if s == "FAILED"@ {
        SnapshotState::Failed
    } else if s == "PARTIAL"@ {
        SnapshotState::Partial
    } else {
        SnapshotState::Other
    }
}

impl SnapshotState {
    /// Reads a state name as the cluster writes it (`SUCCESS`, ...); any name
    /// not known here is [`SnapshotState::Other`].
    pub fn from_name(s: &str) -> (r: SnapshotState)
        ensures
            r == state_of_name(s@),
    {
        let s = s.to_owned();
        if s == "IN_PROGRESS".to_owned() {
            SnapshotState::InProgress
        } else if s == "SUCCESS".to_owned() {
            SnapshotState::Success
        } else if s == "FAILED".to_owned() {
            SnapshotState::Failed
        } else if s == "PARTIAL".to_owned() {
            SnapshotState::Partial
        } else {
            SnapshotState::Other
        }
    }
}

/// One entry of a snapshot status listing.
#[derive(Debug)]
pub struct SnapshotRecord {
    /// The snapshot's name; this tool names a snapshot after its index.
    pub snapshot: String,
    pub state: SnapshotState,
}

impl SnapshotRecord {
    /// An entry from the snapshot's name and the cluster's name of its state.
    pub fn new(snapshot: String, state: &str) -> (r: SnapshotRecord)
        ensures
            r.snapshot == snapshot,
            r.state == state_of_name(state@),
    {
        SnapshotRecord { snapshot, state: SnapshotState::from_name(state) }
    }
}

/// The listing holds a snapshot named `name` in state SUCCESS.
pub open spec fn has_success(snapshots: Seq<SnapshotRecord>, name: Seq<char>) -> bool {
    exists|i: int|
        0 <= i < snapshots.len() && (#[trigger] snapshots[i]).snapshot@ == name
            && snapshots[i].state == SnapshotState::Success
}

/// Whether the status listing shows the snapshot `snapshot` as taken
/// successfully. Any other state, FAILED and PARTIAL included, counts as
/// not (yet) successful.
pub fn is_snapshot_success(snapshots: &Vec<SnapshotRecord>, snapshot: &str) -> (r: bool)
    ensures
        r == has_success(snapshots@, snapshot@),
{
    let target = snapshot.to_owned();
    let mut i: usize = 0;
    while i < snapshots.len()
        invariant
            i <= snapshots@.len(),
            target@ == snapshot@,
            forall|j: int|
                0 <= j < i ==> !((#[trigger] snapshots@[j]).snapshot@ == snapshot@
                    && snapshots@[j].state == SnapshotState::Success),
        decreases snapshots@.len() - i,
    {
        if snapshots[i].snapshot == target && snapshots[i].state == SnapshotState::Success {
            return true;
        }
        i = i + 1;
    }
    false
}

/// Whether a cluster-wide status listing shows any snapshot under way: the
/// cluster lists only running snapshots there, so any entry means one is.
pub fn is_snapshot_running(snapshots: &Vec<SnapshotRecord>) -> (r: bool)
    ensures
        r == (snapshots@.len() > 0),
{
    snapshots.len() > 0
}

} // verus!
