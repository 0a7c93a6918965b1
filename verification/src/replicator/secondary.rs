//! The operation log of a secondary, with its epoch and its watermarks.

use std::collections::HashMap;
use vstd::prelude::*;

use crate::replicator::payload;
use crate::types::{Epoch, Lsn};

verus! {

broadcast use vstd::std_specs::hash::group_hash_axioms;

/// One operation as the primary sends it.
#[derive(Clone, Debug)]
pub struct ReplicationItem {
    pub lsn: Lsn,
    pub epoch_data_loss: i64,
    pub epoch_config: i64,
    /// The primary's quorum-committed LSN, carried along with each item.
    pub committed_lsn: Lsn,
    pub data: Vec<u8>,
}

impl ReplicationItem {
    pub open spec fn epoch(self) -> Epoch {
        Epoch { data_loss_number: self.epoch_data_loss, configuration_number: self.epoch_config }
    }
}

/// What a [`SecondaryState`] holds.
#[verifier::ext_equal]
pub struct SecondaryView {
    pub epoch: Epoch,
    /// Operation log: the payload of each LSN.
    pub log: Map<Lsn, Seq<u8>>,
    /// Highest LSN received from the primary.
    pub received: Lsn,
    /// Highest committed LSN.
    pub committed: Lsn,
}

impl SecondaryView {
    pub open spec fn initial() -> SecondaryView {
        SecondaryView {
            epoch: Epoch { data_loss_number: 0, configuration_number: 0 },
            log: Map::empty(),
            received: 0,
            committed: 0,
        }
    }

    /// No operation of the log lies beyond the highest received LSN.
    pub open spec fn well_formed(self) -> bool {
        forall|lsn: Lsn| #[trigger] self.log.contains_key(lsn) ==> lsn <= self.received
    }

    /// The state after taking up epoch `epoch`: uncommitted operations are gone.
    pub open spec fn with_epoch(self, epoch: Epoch) -> SecondaryView {
        SecondaryView {
            epoch,
            log: Map::new(
                |lsn: Lsn| self.log.contains_key(lsn) && lsn <= self.committed,
                |lsn: Lsn| self.log[lsn],
            ),
            received: self.committed,
            committed: self.committed,
        }
    }

    /// The payload logged at `lsn`, if there is one.
    pub open spec fn logged(self, lsn: Lsn) -> Option<Seq<u8>> {
        if self.log.contains_key(lsn) {
            Some(self.log[lsn])
        } else {
            None
        }
    }

    /// The state with another committed LSN.
    pub open spec fn with_committed(self, lsn: Lsn) -> SecondaryView {
        SecondaryView { committed: lsn, ..self }
    }

    /// Whether an item of the given epoch is refused as stale.
    pub open spec fn refuses(self, epoch: Epoch) -> bool {
        epoch.precedes(self.epoch)
    }

    /// The state after accepting `item`.
    pub open spec fn with_item(self, item: ReplicationItem) -> SecondaryView {
        SecondaryView {
            epoch: self.epoch,
            log: self.log.insert(item.lsn, item.data@),
            received: if item.lsn > self.received {
                item.lsn
            } else {
                self.received
            },
            committed: if item.committed_lsn > self.committed {
                item.committed_lsn
            } else {
                self.committed
            },
        }
    }
}

impl SecondaryView {
    /// What becomes of `item`: it is logged, or refused as stale.
    pub open spec fn answer_to(self, item: ReplicationItem) -> Result<(), StaleEpoch> {
        if self.refuses(item.epoch()) {
            Err(StaleEpoch { got: item.epoch(), current: self.epoch })
        } else {
            Ok(())
        }
    }

    /// The state once `item` has come.
    pub open spec fn after_item(self, item: ReplicationItem) -> SecondaryView {
        if self.refuses(item.epoch()) {
            self
        } else {
            self.with_item(item)
        }
    }
}

/// Log, epoch and progress of a secondary.
pub struct SecondaryState {
    current_epoch: Epoch,
    log: HashMap<Lsn, bytes::Bytes>,
    received_lsn: Lsn,
    committed_lsn: Lsn,
}

impl View for SecondaryState {
    type V = SecondaryView;

    closed spec fn view(&self) -> SecondaryView {
        SecondaryView {
            epoch: self.current_epoch,
            log: self.log@.map_values(|b: bytes::Bytes| payload::contents(b)),
            received: self.received_lsn,
            committed: self.committed_lsn,
        }
    }
}

/// Why an item of the replication stream is refused.
#[derive(Clone, Copy, Debug, PartialEq, Eq, Structural)]
pub struct StaleEpoch {
    pub got: Epoch,
    pub current: Epoch,
}

impl SecondaryState {
    pub fn new() -> (state: SecondaryState)
        ensures
            state@ == SecondaryView::initial(),
            state@.well_formed(),
    {
        let state = SecondaryState {
            current_epoch: Epoch::default(),
            log: HashMap::new(),
            received_lsn: 0,
            committed_lsn: 0,
        };
        assert(state@.log =~= Map::empty());
        state
    }

    pub fn received_lsn(&self) -> (lsn: Lsn)
        ensures
            lsn == self@.received,
    {
        self.received_lsn
    }

    pub fn committed_lsn(&self) -> (lsn: Lsn)
        ensures
            lsn == self@.committed,
    {
        self.committed_lsn
    }

    pub fn set_committed_lsn(&mut self, lsn: Lsn)
        ensures
            final(self)@ == old(self)@.with_committed(lsn),
    {
        self.committed_lsn = lsn;
    }

    pub fn epoch(&self) -> (epoch: Epoch)
        ensures
            epoch == self@.epoch,
    {
        self.current_epoch
    }

    /// The LSNs of the log that lie beyond `committed`, in no particular order.
    fn uncommitted(&self, committed: Lsn) -> (lsns: Vec<Lsn>)
        ensures
            forall|lsn: Lsn| #[trigger]
                lsns@.contains(lsn) <==> self.log@.contains_key(lsn) && lsn > committed,
    {
        let mut lsns: Vec<Lsn> = Vec::new();
        let ghost keys = self.log@.dom();
        for lsn in it: self.log.keys()
            invariant
                it.seq().unref().to_set() == keys,
                forall|l: Lsn| #[trigger]
                    lsns@.contains(l) ==> keys.contains(l) && l > committed,
                forall|j: int|
                    0 <= j < it.index() && *it.seq()[j] > committed ==> lsns@.contains(
                        *#[trigger] it.seq()[j],
                    ),
        {
            let ghost seen = lsns@;
            let ghost at = it.index() as int;
            assert(it.seq().unref()[at] == *lsn);
            assert(it.seq().unref().to_set().contains(*lsn));
            if *lsn > committed {
                lsns.push(*lsn);
                assert(lsns@[seen.len() as int] == *lsn);
                assert forall|l: Lsn| seen.contains(l) implies lsns@.contains(l) by {
                    let k = choose|k: int| 0 <= k < seen.len() && seen[k] == l;
                    assert(lsns@[k] == l);
                }
                assert forall|l: Lsn| #[trigger] lsns@.contains(l) implies keys.contains(l) && l
                    > committed by {
                    if l != *lsn {
                        let k = choose|k: int| 0 <= k < lsns@.len() && lsns@[k] == l;
                        assert(seen[k] == l);
                        assert(seen.contains(l));
                    }
                }
            }
        }
        assert forall|lsn: Lsn| self.log@.contains_key(lsn) && lsn > committed implies #[trigger]
            lsns@.contains(lsn) by {
            assert(keys.contains(lsn));
        }
        lsns
    }

    /// Takes up a new epoch and drops the operations that are not committed.
    pub fn update_epoch(&mut self, new_epoch: Epoch)
        ensures
            final(self)@ == old(self)@.with_epoch(new_epoch),
            final(self)@.well_formed(),
    {
        let committed = self.committed_lsn;
        let dropped = self.uncommitted(committed);
        let ghost before = self.log@;
        self.current_epoch = new_epoch;
        let mut i: usize = 0;
        while i < dropped.len()
            invariant
                i <= dropped.len(),
                self.current_epoch == new_epoch,
                self.committed_lsn == committed,
                self.log@ =~= before.remove_keys(dropped@.take(i as int).to_set()),
            decreases dropped.len() - i,
        {
            self.log.remove(&dropped[i]);
            proof {
                let next = dropped@.take(i + 1);
                assert(next =~= dropped@.take(i as int).push(dropped@[i as int]));
                assert forall|lsn: Lsn| next.contains(lsn) <==> dropped@.take(i as int).contains(lsn)
                    || lsn == dropped@[i as int] by {
                    if dropped@.take(i as int).contains(lsn) {
                        let k = choose|k: int|
                            0 <= k < i && dropped@.take(i as int)[k] == lsn;
                        assert(next[k] == lsn);
                    }
                    assert(next[i as int] == dropped@[i as int]);
                }
            }
            i += 1;
        }
        self.received_lsn = committed;
        assert(dropped@.take(dropped@.len() as int) =~= dropped@);
        assert(self@.log =~= old(self)@.with_epoch(new_epoch).log);
    }

    pub fn log_len(&self) -> (n: usize)
        ensures
            n == self@.log.dom().len(),
    {
        assert(self@.log.dom() =~= self.log@.dom());
        self.log.len()
    }

    /// The payload logged at `lsn`.
    pub fn get(&self, lsn: Lsn) -> (found: Option<bytes::Bytes>)
        ensures
            (match found {
                Some(b) => Some(payload::contents(b)),
                None => None,
            }) == self@.logged(lsn),
    {
        match self.log.get(&lsn) {
            Some(b) => Some(payload::share(b)),
            None => None,
        }
    }

    /// Logs an item, unless it comes from an older epoch. Neither the received
    /// nor the committed LSN moves backwards.
    pub fn accept_item(&mut self, item: &ReplicationItem) -> (outcome: Result<(), StaleEpoch>)
        ensures
            outcome == old(self)@.answer_to(*item),
            final(self)@ == old(self)@.after_item(*item),
            old(self)@.well_formed() ==> final(self)@.well_formed(),
    {
        let item_epoch = Epoch::new(item.epoch_data_loss, item.epoch_config);
        if item_epoch.is_older_than(&self.current_epoch) {
            return Err(StaleEpoch { got: item_epoch, current: self.current_epoch });
        }
        self.log.insert(item.lsn, payload::from_slice(item.data.as_slice()));
        if item.lsn > self.received_lsn {
            self.received_lsn = item.lsn;
        }
        if item.committed_lsn > self.committed_lsn {
            self.committed_lsn = item.committed_lsn;
        }
        assert(self@.log =~= old(self)@.with_item(*item).log);
        Ok(())
    }
}

impl Default for SecondaryState {
    fn default() -> (state: Self)
        ensures
            state@ == SecondaryView::initial(),
    {
        Self::new()
    }
}

} // verus!
