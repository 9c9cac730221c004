use vstd::prelude::*;

verus! {

/// The aggregate counters kept alongside the donation records.
#[derive(Clone, Copy, Debug, PartialEq, Eq, Structural)]
pub struct DonationStats {
    pub total_donations: u64,
    pub active_donations: u64,
    pub delivered_donations: u64,
    pub contaminated_donations: u64,
}

impl DonationStats {
    /// Every registered donation is counted in exactly one of the three states.
    pub open spec fn balanced(self) -> bool {
        self.total_donations as int == self.active_donations as int
            + self.delivered_donations as int + self.contaminated_donations as int
    }

    pub open spec fn zero() -> DonationStats {
        DonationStats {
            total_donations: 0,
            active_donations: 0,
            delivered_donations: 0,
            contaminated_donations: 0,
        }
    }

    /// The counters after one more donation was registered.
    pub open spec fn with_registration(self) -> DonationStats {
        DonationStats {
            total_donations: (self.total_donations + 1) as u64,
            active_donations: (self.active_donations + 1) as u64,
            ..self
        }
    }

    /// The counters after an active donation turned contaminated.
    pub open spec fn with_contamination(self) -> DonationStats {
        DonationStats {
            active_donations: (self.active_donations - 1) as u64,
            contaminated_donations: (self.contaminated_donations + 1) as u64,
            ..self
        }
    }

    /// The counters after an active donation was delivered.
    pub open spec fn with_delivery(self) -> DonationStats {
        DonationStats {
            active_donations: (self.active_donations - 1) as u64,
            delivered_donations: (self.delivered_donations + 1) as u64,
            ..self
        }
    }

    /// Room to move one active donation into a terminal state.
    pub open spec fn can_retire_one(self) -> bool {
        &&& self.active_donations >= 1
        &&& self.delivered_donations < u64::MAX
        &&& self.contaminated_donations < u64::MAX
    }

    /// All counters at zero: the statistics before anything was registered.
    pub fn new() -> (r: DonationStats)
        ensures
            r == DonationStats::zero(),
            r.balanced(),
    {
        DonationStats {
            total_donations: 0,
            active_donations: 0,
            delivered_donations: 0,
            contaminated_donations: 0,
        }
    }

    /// Counts a newly registered donation as active.
    pub fn count_registration(&mut self)
        requires
            old(self).total_donations < u64::MAX,
            old(self).active_donations < u64::MAX,
        ensures
            *final(self) == old(self).with_registration(),
    {
        self.total_donations = self.total_donations + 1;
        self.active_donations = self.active_donations + 1;
    }

    /// Moves one active donation to the contaminated count.
    pub fn count_contamination(&mut self)
        requires
            old(self).can_retire_one(),
        ensures
            *final(self) == old(self).with_contamination(),
    {
        self.contaminated_donations = self.contaminated_donations + 1;
        self.active_donations = self.active_donations - 1;
    }

    /// Moves one active donation to the delivered count.
    pub fn count_delivery(&mut self)
        requires
            old(self).can_retire_one(),
        ensures
            *final(self) == old(self).with_delivery(),
    {
        self.active_donations = self.active_donations - 1;
        self.delivered_donations = self.delivered_donations + 1;
    }
}

} // verus!
