//! Properties that relate several parts of the library, proved once.
use crate::cache::{expired, FRESHNESS_WINDOW_SECS};
use crate::commands::Command;
use crate::engine::{
    batch_succeeds, failed_ops, outcome_for, outcomes_for, real_id_for, unknown_ids,
    unresolved_ids, OpOutcome,
};
use crate::sync_models::SyncWriteResponse;
use vstd::prelude::*;

verus! {

/// A snapshot taken at `t` is fresh 299 seconds later, still fresh at
/// exactly the 300-second window, and stale one second after it.
pub proof fn lemma_staleness_boundary(t: i64)
    requires
        t <= i64::MAX - 301,
    ensures
        !expired(t, FRESHNESS_WINDOW_SECS, (t + 299) as i64),
        !expired(t, FRESHNESS_WINDOW_SECS, (t + 300) as i64),
        expired(t, FRESHNESS_WINDOW_SECS, (t + 301) as i64),
{
}

/// When a batch succeeds as a whole, every envelope that carried a
/// placeholder was applied, and its outcome holds a non-empty real
/// identifier: the one that its own placeholder maps to.
pub proof fn lemma_creations_resolved(cs: Seq<Command>, w: SyncWriteResponse, i: int)
    requires
        batch_succeeds(cs, w),
        0 <= i < cs.len(),
        cs[i].temp_id is Some,
    ensures
        outcomes_for(cs, w)[i] matches OpOutcome::Applied { real_id: Some(s) } && s@.len() > 0
            && real_id_for(w.temp_id_mapping@, cs[i].temp_id->0@) == Some(s),
    decreases cs.len(),
{
    if i == cs.len() - 1 {
        assert(cs.last() == cs[i]);
        assert(!(outcome_for(cs.last(), w) is Unknown));
        match outcome_for(cs.last(), w) {
            OpOutcome::Failed { reason } => {
                assert(failed_ops(cs, w).len() > 0);
            },
            _ => {},
        }
    } else {
        let rest = cs.drop_last();
        assert(unknown_ids(rest, w).len() == 0);
        assert(failed_ops(rest, w).len() == 0);
        assert(unresolved_ids(rest, w).len() == 0);
        assert(rest[i] == cs[i]);
        lemma_creations_resolved(rest, w, i);
        assert(outcomes_for(rest, w)[i] == outcomes_for(cs, w)[i]);
    }
}

} // verus!
