//! What a secondary holds after items and epoch changes, in terms of what came.

use vstd::prelude::*;

use crate::replicator::receiver;
use crate::replicator::secondary::{ReplicationItem, SecondaryView};
use crate::types::{Epoch, Lsn};

verus! {

/// Epochs are in a strict order in which any two different ones can be compared. The
/// data-loss number decides; the configuration number does where that is the same.
pub proof fn epochs_are_ordered(a: Epoch, b: Epoch, c: Epoch)
    ensures
        !a.precedes(a),
        a.precedes(b) ==> !b.precedes(a),
        a.precedes(b) && b.precedes(c) ==> a.precedes(c),
        a == b || a.precedes(b) || b.precedes(a),
        a.data_loss_number < b.data_loss_number ==> a.precedes(b),
        a.data_loss_number == b.data_loss_number && a.configuration_number
            < b.configuration_number ==> a.precedes(b),
{
}

/// Whether `lsn` is the greater of two.
pub open spec fn is_greater(lsn: Lsn, a: Lsn, b: Lsn) -> bool {
    lsn >= a && lsn >= b && (lsn == a || lsn == b)
}

/// The greater of two LSNs is one of them and no less than either.
pub proof fn greater_is_the_greater(a: Lsn, b: Lsn)
    ensures
        is_greater(receiver::greater(a, b), a, b),
{
}

/// A fresh secondary is in the first epoch, has logged nothing and has no progress.
pub proof fn fresh_secondaries_are_empty(lsn: Lsn)
    ensures
        SecondaryView::initial().epoch.data_loss_number == 0,
        SecondaryView::initial().epoch.configuration_number == 0,
        !SecondaryView::initial().log.contains_key(lsn),
        SecondaryView::initial().received == 0,
        SecondaryView::initial().committed == 0,
{
}

/// An item is refused if and only if its data-loss number is lower than that of the
/// current epoch, or is the same and its configuration number is lower. The refusal names
/// both epochs and changes nothing.
pub proof fn items_of_older_epochs_are_refused(state: SecondaryView, item: ReplicationItem)
    ensures
        state.answer_to(item) is Err <==> item.epoch_data_loss < state.epoch.data_loss_number
            || item.epoch_data_loss == state.epoch.data_loss_number && item.epoch_config
            < state.epoch.configuration_number,
        state.answer_to(item) matches Err(stale) ==> {
            &&& stale.got.data_loss_number == item.epoch_data_loss
            &&& stale.got.configuration_number == item.epoch_config
            &&& stale.current == state.epoch
            &&& state.after_item(item) == state
        },
{
}

/// An item that is not refused is logged under its LSN with its payload; every other
/// entry of the log and the epoch stay. The received LSN becomes the greater of what it was
/// and the LSN of the item, and the committed LSN the greater of what it was and the one
/// that the item carries.
pub proof fn accepted_items_raise_the_watermarks(
    state: SecondaryView,
    item: ReplicationItem,
    other: Lsn,
)
    requires
        state.answer_to(item) is Ok,
    ensures
        ({
            let after = state.after_item(item);
            &&& is_greater(after.received, state.received, item.lsn)
            &&& is_greater(after.committed, state.committed, item.committed_lsn)
            &&& after.epoch == state.epoch
            &&& after.log.contains_key(item.lsn) && after.log[item.lsn] == item.data@
            &&& other != item.lsn ==> after.log.contains_key(other) == state.log.contains_key(other)
            &&& other != item.lsn && state.log.contains_key(other) ==> after.log[other]
                == state.log[other]
        }),
{
}

/// What is found at an LSN is the payload of the last item that was accepted for it, and
/// stays the same whatever is accepted for another.
pub proof fn accepted_payloads_are_found_again(
    state: SecondaryView,
    item: ReplicationItem,
    other: Lsn,
)
    ensures
        state.answer_to(item) is Ok ==> state.after_item(item).logged(item.lsn) == Some(item.data@),
        other != item.lsn || state.answer_to(item) is Err ==> state.after_item(item).logged(other)
            == state.logged(other),
        SecondaryView::initial().logged(other) is None,
{
}

/// Setting the committed LSN sets just that.
pub proof fn setting_the_committed_lsn_sets_just_that(state: SecondaryView, lsn: Lsn)
    ensures
        state.with_committed(lsn).committed == lsn,
        state.with_committed(lsn).received == state.received,
        state.with_committed(lsn).epoch == state.epoch,
        state.with_committed(lsn).log == state.log,
{
}

/// The state after a run of items.
pub open spec fn after_items(state: SecondaryView, items: Seq<ReplicationItem>) -> SecondaryView
    decreases items.len(),
{
    if items.len() == 0 {
        state
    } else {
        after_items(state, items.drop_last()).after_item(items.last())
    }
}

/// Whether no item of a run is of an older epoch than the state.
pub open spec fn is_current(state: SecondaryView, items: Seq<ReplicationItem>) -> bool {
    forall|i: int|
        0 <= i < items.len() ==> {
            ||| (#[trigger] items[i]).epoch_data_loss > state.epoch.data_loss_number
            ||| items[i].epoch_data_loss == state.epoch.data_loss_number && items[i].epoch_config
                >= state.epoch.configuration_number
        }
}

/// Whether the item at `i` is the last one of a run with its LSN.
pub open spec fn is_last_at(items: Seq<ReplicationItem>, i: int) -> bool {
    &&& 0 <= i < items.len()
    &&& forall|j: int| i < j < items.len() ==> (#[trigger] items[j]).lsn != items[i].lsn
}

/// After a run of items, none of them stale, the committed LSN is the greatest of all that
/// were carried and of the one before, and the received LSN the greatest of all LSNs and
/// of the one before.
pub proof fn watermarks_are_the_greatest_of_a_run(
    state: SecondaryView,
    items: Seq<ReplicationItem>,
)
    requires
        is_current(state, items),
    ensures
        ({
            let after = after_items(state, items);
            &&& after.epoch == state.epoch
            &&& after.committed >= state.committed
            &&& after.received >= state.received
            &&& forall|i: int|
                0 <= i < items.len() ==> after.committed >= (#[trigger] items[i]).committed_lsn
                    && after.received >= items[i].lsn
            &&& after.committed == state.committed || exists|i: int|
                0 <= i < items.len() && after.committed == (#[trigger] items[i]).committed_lsn
            &&& after.received == state.received || exists|i: int|
                0 <= i < items.len() && after.received == (#[trigger] items[i]).lsn
        }),
    decreases items.len(),
{
    if items.len() > 0 {
        let rest = items.drop_last();
        let last = items.len() - 1;
        assert(forall|i: int| 0 <= i < rest.len() ==> #[trigger] rest[i] == items[i]);
        assert(is_current(state, rest)) by {
            assert forall|i: int| 0 <= i < rest.len() implies {
                ||| (#[trigger] rest[i]).epoch_data_loss > state.epoch.data_loss_number
                ||| rest[i].epoch_data_loss == state.epoch.data_loss_number && rest[i].epoch_config
                    >= state.epoch.configuration_number
            } by {
                assert(rest[i] == items[i]);
            }
        }
        watermarks_are_the_greatest_of_a_run(state, rest);
        let before = after_items(state, rest);
        let after = after_items(state, items);
        items_of_older_epochs_are_refused(before, items[last]);
        accepted_items_raise_the_watermarks(before, items[last], 0);
        assert forall|i: int| 0 <= i < items.len() implies after.committed >= (
        #[trigger] items[i]).committed_lsn && after.received >= items[i].lsn by {
            if i < last {
                assert(rest[i] == items[i]);
            }
        }
        if after.committed == items[last].committed_lsn {
        } else if before.committed != state.committed {
            let i = choose|i: int|
                0 <= i < rest.len() && before.committed == (#[trigger] rest[i]).committed_lsn;
            assert(after.committed == items[i].committed_lsn);
        }
        if after.received == items[last].lsn {
        } else if before.received != state.received {
            let i = choose|i: int|
                0 <= i < rest.len() && before.received == (#[trigger] rest[i]).lsn;
            assert(after.received == items[i].lsn);
        }
    }
}

/// After a run of items, none of them stale, the log has each item that no later one of
/// the same LSN has replaced, and otherwise what it had before.
pub proof fn logs_hold_the_last_item_of_each_lsn(
    state: SecondaryView,
    items: Seq<ReplicationItem>,
    lsn: Lsn,
)
    requires
        is_current(state, items),
    ensures
        ({
            let after = after_items(state, items);
            &&& forall|i: int| #[trigger]
                is_last_at(items, i) ==> after.log.contains_key(items[i].lsn)
                    && after.log[items[i].lsn] == items[i].data@
            &&& (forall|i: int| 0 <= i < items.len() ==> (#[trigger] items[i]).lsn != lsn) ==> {
                &&& after.log.contains_key(lsn) == state.log.contains_key(lsn)
                &&& state.log.contains_key(lsn) ==> after.log[lsn] == state.log[lsn]
            }
        }),
    decreases items.len(),
{
    if items.len() > 0 {
        let rest = items.drop_last();
        let last = items.len() - 1;
        assert(forall|i: int| 0 <= i < rest.len() ==> #[trigger] rest[i] == items[i]);
        assert(is_current(state, rest)) by {
            assert forall|i: int| 0 <= i < rest.len() implies {
                ||| (#[trigger] rest[i]).epoch_data_loss > state.epoch.data_loss_number
                ||| rest[i].epoch_data_loss == state.epoch.data_loss_number && rest[i].epoch_config
                    >= state.epoch.configuration_number
            } by {
                assert(rest[i] == items[i]);
            }
        }
        logs_hold_the_last_item_of_each_lsn(state, rest, lsn);
        watermarks_are_the_greatest_of_a_run(state, rest);
        let before = after_items(state, rest);
        let after = after_items(state, items);
        items_of_older_epochs_are_refused(before, items[last]);
        accepted_items_raise_the_watermarks(before, items[last], lsn);
        assert forall|i: int| #[trigger] is_last_at(items, i) implies after.log.contains_key(
            items[i].lsn,
        ) && after.log[items[i].lsn] == items[i].data@ by {
            if i < last {
                assert(items[last].lsn != items[i].lsn);
                assert(is_last_at(rest, i)) by {
                    assert forall|j: int| i < j < rest.len() implies (#[trigger] rest[j]).lsn
                        != rest[i].lsn by {
                        assert(items[j].lsn != items[i].lsn);
                    }
                }
                accepted_items_raise_the_watermarks(before, items[last], items[i].lsn);
            }
        }
        if forall|i: int| 0 <= i < items.len() ==> (#[trigger] items[i]).lsn != lsn {
            assert(items[last].lsn != lsn);
            assert forall|i: int| 0 <= i < rest.len() implies (#[trigger] rest[i]).lsn != lsn by {
                assert(items[i].lsn != lsn);
            }
        }
    }
}

/// An epoch change after a run keeps every operation of the run that any of its items, or
/// the state before, has told to be committed.
pub proof fn epoch_changes_keep_what_a_run_committed(
    state: SecondaryView,
    items: Seq<ReplicationItem>,
    epoch: Epoch,
    i: int,
    told: int,
)
    requires
        is_current(state, items),
        is_last_at(items, i),
        0 <= told < items.len(),
        items[i].lsn <= items[told].committed_lsn,
    ensures
        ({
            let after = after_items(state, items).with_epoch(epoch);
            &&& after.epoch == epoch
            &&& after.log.contains_key(items[i].lsn)
            &&& after.log[items[i].lsn] == items[i].data@
            &&& after.received == after.committed
            &&& after.committed >= items[told].committed_lsn
        }),
{
    watermarks_are_the_greatest_of_a_run(state, items);
    logs_hold_the_last_item_of_each_lsn(state, items, 0);
}

/// An epoch change drops every operation beyond the committed LSN and no other.
pub proof fn epoch_changes_drop_what_is_not_committed(
    state: SecondaryView,
    epoch: Epoch,
    lsn: Lsn,
)
    ensures
        ({
            let after = state.with_epoch(epoch);
            &&& lsn > state.committed ==> !after.log.contains_key(lsn)
            &&& lsn <= state.committed ==> after.log.contains_key(lsn) == state.log.contains_key(lsn)
            &&& lsn <= state.committed && state.log.contains_key(lsn) ==> after.log[lsn]
                == state.log[lsn]
            &&& after.epoch == epoch
            &&& after.committed == state.committed
            &&& after.received == state.committed
        }),
{
}

} // verus!
