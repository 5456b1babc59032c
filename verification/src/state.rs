//! Per-run position state handling that does not depend on what a
//! coordinate is: the append-only trajectory store and the end-of-step
//! rotation of the position buffers.  The element type is generic; the
//! front end instantiates it with its coordinate triples.

use vstd::prelude::*;

verus! {

/// The recorded trajectory: an ordered sequence of snapshots, each an
/// owned copy of the position array at its step.  Snapshots are only ever
/// appended, and a stored snapshot is owned by the store, so later
/// mutation of the live position arrays cannot alter it.
pub struct Trajectory<T> {
    snapshots: Vec<Vec<T>>,
}

impl<T> View for Trajectory<T> {
    type V = Seq<Seq<T>>;

    closed spec fn view(&self) -> Seq<Seq<T>> {
        Seq::new(self.snapshots@.len(), |m: int| self.snapshots@[m]@)
    }
}

impl<T> Trajectory<T> {
    /// An empty trajectory, as a run starts with.
    pub fn new() -> (t: Trajectory<T>)
        ensures
            t@ =~= Seq::<Seq<T>>::empty(),
    {
        Trajectory { snapshots: Vec::new() }
    }

    /// Appends one snapshot.  The stored sequence grows by exactly that
    /// snapshot at the end; every earlier snapshot is unchanged.
    pub fn append(&mut self, snapshot: Vec<T>)
        ensures
            final(self)@ =~~= old(self)@.push(snapshot@),
    {
        self.snapshots.push(snapshot);
    }

    /// How many snapshots have been recorded.
    pub fn len(&self) -> (n: usize)
        ensures
            n == self@.len(),
    {
        self.snapshots.len()
    }

    /// Read access to the `m`-th snapshot, oldest first.
    pub fn snapshot_at(&self, m: usize) -> (s: &Vec<T>)
        requires
            m < self@.len(),
        ensures
            s@ == self@[m as int],
    {
        &self.snapshots[m]
    }

    /// Hands the recorded snapshots over, oldest first, for serialization.
    pub fn into_snapshots(self) -> (v: Vec<Vec<T>>)
        ensures
            v@.len() == self@.len(),
            forall|m: int| 0 <= m < v@.len() ==> (#[trigger] v@[m])@ == self@[m],
    {
        self.snapshots
    }
}

/// End-of-step rotation of the position buffers, by swap rather than
/// physical copy: the current positions become the old ones, and the
/// freshly integrated positions become the current ones.  The buffer left
/// in `positions_new` afterwards is spent.
pub fn rotate_buffers<T>(
    positions_old: &mut Vec<T>,
    positions_current: &mut Vec<T>,
    positions_new: &mut Vec<T>,
)
    ensures
        final(positions_old)@ == old(positions_current)@,
        final(positions_current)@ == old(positions_new)@,
{
    core::mem::swap(positions_old, positions_current);
    core::mem::swap(positions_current, positions_new);
}

} // verus!
