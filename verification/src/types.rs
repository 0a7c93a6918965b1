//! Values shared by the replication modules.

use vstd::prelude::*;

verus! {

/// Log sequence number.
pub type Lsn = i64;

/// A configuration of the replica set. Epochs are ordered by data-loss number
/// first and by configuration number second.
#[derive(Clone, Copy, Debug, PartialEq, Eq, Structural)]
pub struct Epoch {
    pub data_loss_number: i64,
    pub configuration_number: i64,
}

impl Epoch {
    /// Whether `self` is an older epoch than `other`.
    pub open spec fn precedes(self, other: Epoch) -> bool {
        ||| self.data_loss_number < other.data_loss_number
        ||| self.data_loss_number == other.data_loss_number && self.configuration_number
            < other.configuration_number
    }

    pub fn new(data_loss_number: i64, configuration_number: i64) -> (epoch: Epoch)
        ensures
            epoch == (Epoch { data_loss_number, configuration_number }),
    {
        Epoch { data_loss_number, configuration_number }
    }

    /// Decides [`Epoch::precedes`].
    pub fn is_older_than(&self, other: &Epoch) -> (older: bool)
        ensures
            older == self.precedes(*other),
    {
        self.data_loss_number < other.data_loss_number || (self.data_loss_number
            == other.data_loss_number && self.configuration_number < other.configuration_number)
    }
}

impl Default for Epoch {
    fn default() -> (epoch: Self)
        ensures
            epoch == (Epoch { data_loss_number: 0, configuration_number: 0 }),
    {
        Epoch { data_loss_number: 0, configuration_number: 0 }
    }
}

/// Role of a replica in its partition.
#[derive(Clone, Copy, Debug, PartialEq, Eq, Structural)]
pub enum Role {
    Unknown,
    /// Not part of the partition any more.
    Removed,
    IdleSecondary,
    ActiveSecondary,
    Primary,
}

} // verus!
