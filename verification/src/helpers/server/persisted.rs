use vstd::prelude::*;
use crate::helpers::server::status::{Notice, SyncMessage};
use crate::helpers::server::sync::SyncCycle;
use crate::state::FurState;

verus! {

/// `count` less `failed`, and nothing where more failed than were counted.
pub open spec fn less_failed(count: usize, failed: usize) -> usize {
    if failed >= count {
        0
    } else {
        (count - failed) as usize
    }
}

/// The cycle once the writes of a round have been handed to the database:
/// a write that the database refused does not count as exchanged.
pub fn discount_failed(cycle: SyncCycle, failed: usize) -> (counted: SyncCycle)
    ensures
        counted.round == cycle.round,
        counted.sync_count == less_failed(cycle.sync_count, failed),
{
    SyncCycle {
        round: cycle.round,
        sync_count: if failed >= cycle.sync_count {
            0
        } else {
            cycle.sync_count - failed
        },
    }
}

/// Ends a completed cycle once its writes have been handed to the
/// database: the number of records exchanged is `sync_count` less the
/// writes that the database refused, and where the status line reports the
/// success of this cycle it reports that number. Nothing else changes.
pub fn writes_persisted(state: &mut FurState, sync_count: usize, failed: usize) -> (exchanged: usize)
    ensures
        exchanged == less_failed(sync_count, failed),
        final(state).sync_message == if old(state).sync_message == SyncMessage::Positive(
            Notice::SyncSuccessful(sync_count),
        ) {
            SyncMessage::Positive(Notice::SyncSuccessful(exchanged))
        } else {
            old(state).sync_message
        },
        final(state).settings == old(state).settings,
        final(state).user == old(state).user,
        final(state).user_fields == old(state).user_fields,
        final(state).tasks == old(state).tasks,
        final(state).shortcuts == old(state).shortcuts,
        final(state).todos == old(state).todos,
{
    let exchanged = if failed >= sync_count {
        0
    } else {
        sync_count - failed
    };
    let reported = match state.sync_message {
        SyncMessage::Positive(Notice::SyncSuccessful(count)) => count == sync_count,
        _ => false,
    };
    if reported {
        state.sync_message = SyncMessage::Positive(Notice::SyncSuccessful(exchanged));
    }
    exchanged
}

} // verus!
