//! Why acquisitions against one record cannot wait for each other in a
//! circle: every acquisition takes its fields in declaration order, so it
//! waits only for a field that lies after everything it holds.

use crate::mode::LockModeKind;
use crate::request::Acquisition;
use vstd::prelude::*;

verus! {

/// The part of an acquisition that matters to the others: the mode requested
/// for each field, and the cursor before which every selected field is held.
pub struct Progress {
    pub modes: Seq<LockModeKind>,
    pub cursor: nat,
}

impl Progress {
    /// The acquisition holds `field`: it was selected and the cursor is past
    /// it.
    pub open spec fn holds(self, field: int) -> bool {
        0 <= field < self.cursor && field < self.modes.len() && self.modes[field]
            != LockModeKind::Unlocked
    }

    /// The acquisition is trying to take `field`: it was selected and the
    /// cursor stands on it.
    pub open spec fn waits_for(self, field: int) -> bool {
        field == self.cursor && 0 <= field < self.modes.len() && self.modes[field]
            != LockModeKind::Unlocked
    }

    /// The acquisition is kept waiting by `holder`: it is trying to take a
    /// field that `holder` holds in a mode that excludes the requested one.
    pub open spec fn blocked_by(self, holder: Progress) -> bool {
        exists|field: int|
            #![trigger self.waits_for(field)]
            self.waits_for(field) && holder.holds(field) && holder.modes[field].excludes(
                self.modes[field],
            )
    }
}

/// The progress of an acquisition says what it holds and what it takes next:
/// it holds a field exactly where it has a guard on it in a mode other than
/// `Unlocked`, and the only field it can be waiting for is the one that
/// follows the guards it has.
pub proof fn lemma_progress_of_acquisition<'a, T>(acquisition: Acquisition<'a, T>, field: int)
    requires
        acquisition.in_order(),
    ensures
        acquisition.progress().holds(field) <==> 0 <= field < acquisition.guards().len()
            && acquisition.guards()[field].mode() != LockModeKind::Unlocked,
        acquisition.progress().waits_for(field) ==> field == acquisition.guards().len()
            && acquisition.record().lockable(field),
{
}

/// Each acquisition of the chain is kept waiting by the one after it.
pub open spec fn waiting_chain(chain: Seq<Progress>) -> bool {
    forall|k: int| 0 <= k < chain.len() - 1 ==> (#[trigger] chain[k]).blocked_by(chain[k + 1])
}

/// Who waits has its cursor before the cursor of who keeps it waiting.
pub proof fn lemma_blocked_is_behind(waiter: Progress, holder: Progress)
    requires
        waiter.blocked_by(holder),
    ensures
        waiter.cursor < holder.cursor,
{
    let field = choose|field: int|
        #![trigger waiter.waits_for(field)]
        waiter.waits_for(field) && holder.holds(field) && holder.modes[field].excludes(
            waiter.modes[field],
        );
    assert(waiter.waits_for(field));
}

/// Along a chain of waiting acquisitions the cursors grow strictly.
pub proof fn lemma_chain_moves_forward(chain: Seq<Progress>, k: int)
    requires
        waiting_chain(chain),
        0 < k < chain.len(),
    ensures
        chain[0].cursor < chain[k].cursor,
    decreases k,
{
    assert(chain[k - 1].blocked_by(chain[k - 1 + 1]));
    lemma_blocked_is_behind(chain[k - 1], chain[k]);
    if k > 1 {
        lemma_chain_moves_forward(chain, k - 1);
    }
}

/// No deadlock among acquisitions: no chain of acquisitions, each kept
/// waiting by the next, closes into a circle, whatever the fields they
/// selected and in whatever order they run.
pub proof fn lemma_no_circular_wait(chain: Seq<Progress>)
    requires
        chain.len() > 0,
        waiting_chain(chain),
    ensures
        !chain.last().blocked_by(chain[0]),
{
    if chain.last().blocked_by(chain[0]) {
        lemma_blocked_is_behind(chain.last(), chain[0]);
        if chain.len() > 1 {
            lemma_chain_moves_forward(chain, chain.len() - 1);
        }
    }
}

} // verus!
