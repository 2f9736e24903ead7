//! Removable-media hotplug manager: a periodically-polled state machine
//! that queues host-issued media-insertion requests and commits them only
//! when the target drive slot is physically free.
//!
//! The manager owns the pending-insertion queue and every decision about
//! it; actually opening an image and attaching it to the drive are outside
//! work, performed by the boundary adapter for each name this module hands
//! out. A name leaves the queue exactly when its commit is attempted, so a
//! failed open never blocks the names behind it, while an occupied slot
//! preserves the whole queue for a later tick.

use vstd::prelude::*;

verus! {

use std::collections::VecDeque;

/// Number of addressable drive slots the emulation core exposes.
pub const MAX_SCSI_TARGETS: usize = 7;

/// Pending insertions are polled every this many ticks.
pub const CDROM_POLL_INTERVAL_TICKS: u64 = 10;

/// Point-in-time view of one drive slot: its media type and whether an
/// image currently occupies it.
#[derive(Clone, Copy, Debug, PartialEq, Eq)]
pub struct ScsiTargetStatus {
    /// The slot holds a removable optical drive.
    pub is_cdrom: bool,
    /// An image is currently attached to the slot.
    pub occupied: bool,
}

/// Point-in-time view of all drive slots, as supplied by the emulation
/// core; possibly stale, and absent entirely when the core has no status
/// ready yet.
#[derive(Clone, Debug, PartialEq, Eq)]
pub struct DriveStatus {
    /// One entry per slot; `None` where the slot is unconfigured.
    pub scsi: Vec<Option<ScsiTargetStatus>>,
}

/// The slot `scsi_id` exists, is an optical drive, and has no image
/// attached: the only state in which a queued name may be committed.
pub open spec fn slot_is_free(status: DriveStatus, scsi_id: int) -> bool {
    &&& 0 <= scsi_id < status.scsi@.len()
    &&& status.scsi@[scsi_id] matches Some(entry) && entry.is_cdrom && !entry.occupied
}

/// The names a single flush pass attempts to commit: every queued name, in
/// queue order, when a status is available and the slot is free; none
/// otherwise.
pub open spec fn flush_attempts(
    pending: Seq<String>,
    status: Option<DriveStatus>,
    scsi_id: int,
) -> Seq<String> {
    match status {
        Some(st) => if slot_is_free(st, scsi_id) {
            pending
        } else {
            Seq::empty()
        },
        None => Seq::empty(),
    }
}

/// The queue left behind by a single flush pass.
pub open spec fn flush_queue_after(
    pending: Seq<String>,
    status: Option<DriveStatus>,
    scsi_id: int,
) -> Seq<String> {
    match status {
        Some(st) => if slot_is_free(st, scsi_id) {
            Seq::empty()
        } else {
            pending
        },
        None => pending,
    }
}

/// The queue left behind by `n` successive flush passes against the same
/// status snapshot.
pub open spec fn queue_after_flushes(
    pending: Seq<String>,
    status: Option<DriveStatus>,
    scsi_id: int,
    n: nat,
) -> Seq<String>
    decreases n,
{
    if n == 0 {
        pending
    } else {
        flush_queue_after(
            queue_after_flushes(pending, status, scsi_id, (n - 1) as nat),
            status,
            scsi_id,
        )
    }
}

/// Law: while the slot is reported occupied (or of the wrong type, or
/// absent), no number of flush passes commits anything — the queue retains
/// all names in their original order.
pub proof fn lemma_occupied_retains_queue(
    pending: Seq<String>,
    status: DriveStatus,
    scsi_id: int,
    n: nat,
)
    requires
        !slot_is_free(status, scsi_id),
    ensures
        queue_after_flushes(pending, Some(status), scsi_id, n) == pending,
        flush_attempts(pending, Some(status), scsi_id) == Seq::<String>::empty(),
    decreases n,
{
    if n > 0 {
        lemma_occupied_retains_queue(pending, status, scsi_id, (n - 1) as nat);
    }
}

/// Law: while no status snapshot is available, flushing is deferred
/// entirely — the queue is never consumed.
pub proof fn lemma_no_status_retains_queue(pending: Seq<String>, scsi_id: int, n: nat)
    ensures
        queue_after_flushes(pending, None, scsi_id, n) == pending,
        flush_attempts(pending, None, scsi_id) == Seq::<String>::empty(),
    decreases n,
{
    if n > 0 {
        lemma_no_status_retains_queue(pending, scsi_id, (n - 1) as nat);
    }
}

/// Law: when the slot is reported free, one flush pass attempts every
/// queued name in first-in-first-out order and leaves the queue empty; a
/// name whose open later fails has already left the queue, so it is never
/// retried and never blocks the names after it.
pub proof fn lemma_free_commits_fifo(pending: Seq<String>, status: DriveStatus, scsi_id: int)
    requires
        slot_is_free(status, scsi_id),
    ensures
        flush_attempts(pending, Some(status), scsi_id) == pending,
        flush_queue_after(pending, Some(status), scsi_id) == Seq::<String>::empty(),
{
}

/// Hotplug manager for a single target drive slot.
pub struct CdromManager {
    /// Ticks seen so far, counted to schedule polls.
    pub tick_count: u64,
    /// The managed slot.
    pub cdrom_id: usize,
    /// Names awaiting insertion, in arrival order.
    pub pending: VecDeque<String>,
}

impl CdromManager {
    /// Builds a manager for slot `scsi_id`, seeding the queue from
    /// `cdrom_names` in order; refuses a slot beyond the addressable range.
    pub fn new(scsi_id: usize, cdrom_names: Vec<String>) -> (r: Option<CdromManager>)
        ensures
            scsi_id >= MAX_SCSI_TARGETS <==> r is None,
            r matches Some(m) ==> {
                &&& m.tick_count == 0
                &&& m.cdrom_id == scsi_id
                &&& m.pending@ == cdrom_names@
            },
    {
        if scsi_id >= MAX_SCSI_TARGETS {
            return None;
        }
        let mut names = cdrom_names;
        let mut pending: VecDeque<String> = VecDeque::new();
        while names.len() > 0
            invariant
                pending@ + names@ == cdrom_names@,
            decreases names.len(),
        {
            let name = names.remove(0);
            pending.push_back(name);
        }
        proof {
            assert(pending@ =~= cdrom_names@);
        }
        Some(CdromManager { tick_count: 0, cdrom_id: scsi_id, pending })
    }

    /// Counts one tick; returns whether this tick is a poll tick, on which
    /// the caller drains newly requested names and hands them to
    /// [`Self::handle_pending_insertions`]. The count wraps silently.
    pub fn tick(&mut self) -> (poll: bool)
        ensures
            old(self).tick_count < u64::MAX ==> final(self).tick_count == old(self).tick_count
                + 1,
            old(self).tick_count == u64::MAX ==> final(self).tick_count == 0,
            final(self).cdrom_id == old(self).cdrom_id,
            final(self).pending@ == old(self).pending@,
            poll == (final(self).tick_count % CDROM_POLL_INTERVAL_TICKS == 0),
    {
        self.tick_count = self.tick_count.wrapping_add(1);
        self.tick_count % CDROM_POLL_INTERVAL_TICKS == 0
    }

    /// Appends one newly requested name to the tail of the queue.
    pub fn queue_insertion(&mut self, name: String)
        ensures
            final(self).pending@ == old(self).pending@.push(name),
            final(self).cdrom_id == old(self).cdrom_id,
            final(self).tick_count == old(self).tick_count,
    {
        self.pending.push_back(name);
    }

    /// Whether the managed slot is of the expected removable-media type and
    /// currently unoccupied, according to `status`.
    pub fn is_cdrom_free(&self, status: &DriveStatus, scsi_id: usize) -> (free: bool)
        ensures
            free == slot_is_free(*status, scsi_id as int),
    {
        if scsi_id >= status.scsi.len() {
            return false;
        }
        match &status.scsi[scsi_id] {
            Some(entry) => entry.is_cdrom && !entry.occupied,
            None => false,
        }
    }

    /// One flush pass: pops queued names for commit, in order, while the
    /// slot is free; defers everything when no status is available or the
    /// slot is not free. Returns the names whose commit the caller must now
    /// attempt, in first-in-first-out order; each has left the queue for
    /// good, whatever its open or attach outcome.
    pub fn flush_pending(&mut self, status: Option<&DriveStatus>) -> (attempts: Vec<String>)
        ensures
            final(self).cdrom_id == old(self).cdrom_id,
            final(self).tick_count == old(self).tick_count,
            attempts@ + final(self).pending@ == old(self).pending@,
            attempts@ == flush_attempts(
                old(self).pending@,
                match status {
                    Some(st) => Some(*st),
                    None => None,
                },
                old(self).cdrom_id as int,
            ),
            final(self).pending@ == flush_queue_after(
                old(self).pending@,
                match status {
                    Some(st) => Some(*st),
                    None => None,
                },
                old(self).cdrom_id as int,
            ),
    {
        let mut attempts: Vec<String> = Vec::new();
        match status {
            None => {
                proof {
                    assert(attempts@ =~= Seq::<String>::empty());
                }
                attempts
            },
            Some(st) => {
                while self.pending.len() > 0
                    invariant
                        status == Some(st),
                        attempts@ + self.pending@ == old(self).pending@,
                        self.cdrom_id == old(self).cdrom_id,
                        self.tick_count == old(self).tick_count,
                        attempts@.len() > 0 ==> slot_is_free(*st, old(self).cdrom_id as int),
                    decreases self.pending.len(),
                {
                    if !self.is_cdrom_free(st, self.cdrom_id) {
                        proof {
                            assert(attempts@ =~= Seq::<String>::empty());
                            assert(self.pending@ =~= old(self).pending@);
                        }
                        return attempts;
                    }
                    let name = self.pending.pop_front().unwrap();
                    attempts.push(name);
                }
                proof {
                    assert(attempts@ =~= old(self).pending@);
                    if !slot_is_free(*st, old(self).cdrom_id as int) {
                        assert(attempts@ =~= Seq::<String>::empty());
                    }
                    assert(self.pending@ =~= Seq::<String>::empty());
                }
                attempts
            },
        }
    }

    /// A poll: queues all newly requested names at the tail, in arrival
    /// order, then flushes if anything is pending. Returns the names to
    /// commit now, as [`Self::flush_pending`] does.
    pub fn handle_pending_insertions(
        &mut self,
        status: Option<&DriveStatus>,
        requests: Vec<String>,
    ) -> (attempts: Vec<String>)
        ensures
            final(self).cdrom_id == old(self).cdrom_id,
            final(self).tick_count == old(self).tick_count,
            attempts@ + final(self).pending@ == old(self).pending@ + requests@,
            attempts@ == flush_attempts(
                old(self).pending@ + requests@,
                match status {
                    Some(st) => Some(*st),
                    None => None,
                },
                old(self).cdrom_id as int,
            ),
            final(self).pending@ == flush_queue_after(
                old(self).pending@ + requests@,
                match status {
                    Some(st) => Some(*st),
                    None => None,
                },
                old(self).cdrom_id as int,
            ),
    {
        let ghost all_requests = requests@;
        let mut reqs = requests;
        while reqs.len() > 0
            invariant
                self.pending@ + reqs@ == old(self).pending@ + all_requests,
                self.cdrom_id == old(self).cdrom_id,
                self.tick_count == old(self).tick_count,
            decreases reqs.len(),
        {
            let name = reqs.remove(0);
            self.queue_insertion(name);
        }
        proof {
            assert(self.pending@ =~= old(self).pending@ + all_requests);
        }
        if self.pending.len() > 0 {
            self.flush_pending(status)
        } else {
            let attempts: Vec<String> = Vec::new();
            proof {
                assert(attempts@ =~= Seq::<String>::empty());
                assert(self.pending@ =~= Seq::<String>::empty());
            }
            attempts
        }
    }
}

} // verus!
