//! The cell through which the polling side hands snapshots to its readers.

use vstd::prelude::*;
use vstd::rwlock::RwLock;

use crate::adapter::AdapterState;
use crate::channel::Channel;
use crate::controller::ControllerState;

verus! {

/// What the cell holds: a snapshot and the number of snapshots published
/// before and including it.
#[derive(Debug, Copy, Clone, PartialEq, Eq, Structural)]
pub struct Published {
    /// How many times a snapshot has been published; zero as long as none
    /// has. The count stops at the largest value it can hold.
    pub sequence: u64,
    /// The snapshot published last, or four empty slots before the first.
    pub snapshot: AdapterState,
}

impl Published {
    /// What a cell holds before the first publication.
    pub open spec fn initial_spec() -> Published {
        Published { sequence: 0, snapshot: AdapterState::zeroed() }
    }

    /// The sequence number that follows `sequence`: one more, or the same
    /// where it has reached the largest value.
    pub open spec fn next_sequence(sequence: u64) -> u64 {
        if sequence < u64::MAX {
            (sequence + 1) as u64
        } else {
            u64::MAX
        }
    }

    /// What a cell holds once `snapshot` has been published over `self`.
    pub open spec fn succeeded_by(self, snapshot: AdapterState) -> Published {
        Published { sequence: Self::next_sequence(self.sequence), snapshot }
    }

    /// What a cell holds before the first publication: sequence zero and
    /// four empty slots.
    pub fn initial() -> (content: Self)
        ensures
            content == Self::initial_spec(),
    {
        Published { sequence: 0, snapshot: AdapterState::new() }
    }

    /// What a cell holds once `snapshot` has been published over `self`: the
    /// snapshot as it was given, under the next sequence number.
    pub fn succeed(&self, snapshot: AdapterState) -> (content: Self)
        ensures
            content == self.succeeded_by(snapshot),
            content.snapshot == snapshot,
            content.sequence > 0,
    {
        let sequence: u64 = if self.sequence < u64::MAX {
            self.sequence + 1
        } else {
            u64::MAX
        };
        Published { sequence, snapshot }
    }
}

/// What holds of the content of a cell whose snapshots all satisfy
/// `admitted`: the snapshot is one of them, and as long as nothing has been
/// published it is the snapshot of four empty slots.
pub open spec fn content_is_valid(
    admitted: spec_fn(AdapterState) -> bool,
    content: Published,
) -> bool {
    &&& admitted(content.snapshot)
    &&& content.sequence == 0 ==> content.snapshot == AdapterState::zeroed()
}

/// A cell that always holds one whole snapshot. One side replaces the
/// snapshot, any number of readers on any thread copy it out. A reader gets a
/// snapshot exactly as it was published, never parts of two: whatever holds
/// of the initial snapshot and of every snapshot published holds of every
/// snapshot read.
pub struct SharedState {
    cell: RwLock<Published, spec_fn(Published) -> bool>,
    admitted: Ghost<spec_fn(AdapterState) -> bool>,
}

impl SharedState {
    #[verifier::type_invariant]
    spec fn wf(self) -> bool {
        forall|content: Published|
            self.cell.inv(content) <==> content_is_valid(self.admitted@, content)
    }

    /// Whether `snapshot` is among the snapshots that the cell was made for.
    pub closed spec fn admits(&self, snapshot: AdapterState) -> bool {
        (self.admitted@)(snapshot)
    }

    /// A cell for snapshots of any kind. It starts with four empty slots.
    pub fn new() -> (shared: Self)
        ensures
            forall|snapshot: AdapterState| shared.admits(snapshot),
    {
        Self::restricted(Ghost(|snapshot: AdapterState| true))
    }

    /// A cell for the snapshots that satisfy `admitted`, the snapshot of four
    /// empty slots among them. It starts with four empty slots.
    pub fn restricted(Ghost(admitted): Ghost<spec_fn(AdapterState) -> bool>) -> (shared: Self)
        requires
            admitted(AdapterState::zeroed()),
        ensures
            forall|snapshot: AdapterState| shared.admits(snapshot) == admitted(snapshot),
    {
        let ghost valid = |content: Published| content_is_valid(admitted, content);
        SharedState {
            cell: RwLock::new(Published::initial(), Ghost(valid)),
            admitted: Ghost(admitted),
        }
    }

    /// Replaces the snapshot in the cell and counts the publication.
    pub fn publish(&self, snapshot: AdapterState)
        requires
            self.admits(snapshot),
    {
        proof {
            use_type_invariant(self);
        }
        let (previous, handle) = self.cell.acquire_write();
        handle.release_write(previous.succeed(snapshot));
    }

    /// A copy of what the cell holds. As long as nothing has been published
    /// the sequence is zero and the snapshot is that of four empty slots.
    pub fn read_published(&self) -> (content: Published)
        ensures
            self.admits(content.snapshot),
            content.sequence == 0 ==> content.snapshot == AdapterState::zeroed(),
    {
        proof {
            use_type_invariant(self);
        }
        let handle = self.cell.acquire_read();
        let content: Published = *handle.borrow();
        handle.release_read();
        content
    }

    /// A copy of the snapshot in the cell.
    pub fn read(&self) -> (snapshot: AdapterState)
        ensures
            self.admits(snapshot),
    {
        self.read_published().snapshot
    }

    /// The controller on `channel` in the snapshot that the cell holds.
    pub fn read_channel(&self, channel: Channel) -> (state: ControllerState)
        ensures
            exists|snapshot: AdapterState|
                self.admits(snapshot) && state == #[trigger] snapshot.controller(channel),
    {
        let snapshot: AdapterState = self.read();
        snapshot.controller_state(channel)
    }
}

/// A cell starts out valid and every publication of an admitted snapshot
/// keeps it so. The content after a publication holds exactly the snapshot
/// that was published, and its sequence number is never zero again: sequence
/// zero is seen only before the first publication, and then with four empty
/// slots.
pub proof fn lemma_publication_keeps_content_valid(
    admitted: spec_fn(AdapterState) -> bool,
    content: Published,
    snapshot: AdapterState,
)
    requires
        admitted(AdapterState::zeroed()),
        admitted(snapshot),
    ensures
        content_is_valid(admitted, Published::initial_spec()),
        content_is_valid(admitted, content.succeeded_by(snapshot)),
        content.succeeded_by(snapshot).snapshot == snapshot,
        content.succeeded_by(snapshot).sequence != 0,
        Published::initial_spec().sequence == 0,
        Published::initial_spec().snapshot == AdapterState::zeroed(),
        !AdapterState::zeroed().some_connected(),
{
}

} // verus!
