use vstd::prelude::*;
use vstd::string::StringExecFns;

use crate::stats::DonationStats;

verus! {

/// Lowest storage temperature, in degrees Celsius, that keeps a unit safe.
pub const SAFE_TEMP_MIN: i32 = 2;

/// Highest storage temperature, in degrees Celsius, that keeps a unit safe.
pub const SAFE_TEMP_MAX: i32 = 6;

/// Why an operation on a donation was refused.
#[derive(Clone, Copy, Debug, PartialEq, Eq, Structural)]
pub enum DonationError {
    /// No donation carries the requested id.
    NotFound,
    /// The unit left the safe temperature range and cannot be handed over.
    Contaminated,
    /// The unit was already handed over; it can no longer change.
    AlreadyDelivered,
}

/// Where a donation stands in its lifecycle.
#[derive(Clone, Copy, Debug, PartialEq, Eq, Structural)]
pub enum DonationStatus {
    Active,
    Contaminated,
    Delivered,
}

/// One donated unit.
#[derive(Clone, Debug)]
pub struct BloodDonation {
    pub donation_id: u64,
    pub donor_address: String,
    pub blood_type: String,
    pub donation_time: u64,
    /// Degrees Celsius.
    pub storage_temp: i32,
    pub is_contaminated: bool,
    /// Unset until the unit is delivered.
    pub recipient_address: Option<String>,
    pub is_delivered: bool,
}

/// The mathematical value of a `BloodDonation`.
pub struct DonationView {
    pub donation_id: u64,
    pub donor_address: Seq<char>,
    pub blood_type: Seq<char>,
    pub donation_time: u64,
    pub storage_temp: i32,
    pub is_contaminated: bool,
    pub recipient_address: Option<Seq<char>>,
    pub is_delivered: bool,
}

impl DonationView {
    pub open spec fn status(self) -> DonationStatus {
        if self.is_delivered {
            DonationStatus::Delivered
        } else if self.is_contaminated {
            DonationStatus::Contaminated
        } else {
            DonationStatus::Active
        }
    }
}

impl View for BloodDonation {
    type V = DonationView;

    open spec fn view(&self) -> DonationView {
        DonationView {
            donation_id: self.donation_id,
            donor_address: self.donor_address@,
            blood_type: self.blood_type@,
            donation_time: self.donation_time,
            storage_temp: self.storage_temp,
            is_contaminated: self.is_contaminated,
            recipient_address: match self.recipient_address {
                Some(a) => Some(a@),
                None => None,
            },
            is_delivered: self.is_delivered,
        }
    }
}

pub open spec fn in_safe_range(t: i32) -> bool {
    SAFE_TEMP_MIN <= t <= SAFE_TEMP_MAX
}

/// A freshly registered donation: active, with no recipient.
pub open spec fn fresh_view(
    id: u64,
    donor: Seq<char>,
    blood_type: Seq<char>,
    time: u64,
    temp: i32,
) -> DonationView {
    DonationView {
        donation_id: id,
        donor_address: donor,
        blood_type: blood_type,
        donation_time: time,
        storage_temp: temp,
        is_contaminated: false,
        recipient_address: None,
        is_delivered: false,
    }
}

/// The placeholder returned for an id that names no donation.
pub open spec fn absent_view() -> DonationView {
    DonationView {
        donation_id: 0,
        donor_address: "none"@,
        blood_type: "Unknown"@,
        donation_time: 0,
        storage_temp: 0,
        is_contaminated: false,
        recipient_address: None,
        is_delivered: false,
    }
}

/// The statistics can absorb the terminal transition of `r`, if `r` is active.
pub open spec fn has_room(r: DonationView, s: DonationStats) -> bool {
    r.donation_id != 0 && r.status() == DonationStatus::Active ==> s.can_retire_one()
}

/// A temperature report on `r`: refused for a missing or delivered unit; else
/// the temperature is stored, and a first reading outside the safe range
/// marks the unit contaminated and moves it from the active count.
pub open spec fn storage_update(r: DonationView, s: DonationStats, new_temp: i32) -> Result<
    (DonationView, DonationStats),
    DonationError,
> {
    if r.donation_id == 0 {
        Err(DonationError::NotFound)
    } else if r.is_delivered {
        Err(DonationError::AlreadyDelivered)
    } else if !in_safe_range(new_temp) && !r.is_contaminated {
        Ok(
            (
                DonationView { storage_temp: new_temp, is_contaminated: true, ..r },
                s.with_contamination(),
            ),
        )
    } else {
        Ok((DonationView { storage_temp: new_temp, ..r }, s))
    }
}

/// A hand-over of `r` to `recipient`: refused for a missing, contaminated or
/// delivered unit; else the unit is delivered and moves from the active count.
pub open spec fn transfer_outcome(r: DonationView, s: DonationStats, recipient: Seq<char>) -> Result<
    (DonationView, DonationStats),
    DonationError,
> {
    if r.donation_id == 0 {
        Err(DonationError::NotFound)
    } else if r.is_contaminated {
        Err(DonationError::Contaminated)
    } else if r.is_delivered {
        Err(DonationError::AlreadyDelivered)
    } else {
        Ok(
            (
                DonationView { recipient_address: Some(recipient), is_delivered: true, ..r },
                s.with_delivery(),
            ),
        )
    }
}

impl BloodDonation {
    /// A new active donation with no recipient.
    pub fn registered(
        donation_id: u64,
        donor_address: String,
        blood_type: String,
        donation_time: u64,
        storage_temp: i32,
    ) -> (r: BloodDonation)
        ensures
            r@ == fresh_view(
                donation_id,
                donor_address@,
                blood_type@,
                donation_time,
                storage_temp,
            ),
    {
        BloodDonation {
            donation_id,
            donor_address,
            blood_type,
            donation_time,
            storage_temp,
            is_contaminated: false,
            recipient_address: None,
            is_delivered: false,
        }
    }

    /// The placeholder for an id that names no donation; its id is 0.
    pub fn absent() -> (r: BloodDonation)
        ensures
            r@ == absent_view(),
    {
        BloodDonation {
            donation_id: 0,
            donor_address: String::from_str("none"),
            blood_type: String::from_str("Unknown"),
            donation_time: 0,
            storage_temp: 0,
            is_contaminated: false,
            recipient_address: None,
            is_delivered: false,
        }
    }

    /// A field-by-field copy.
    pub fn copy_of(&self) -> (r: BloodDonation)
        ensures
            r@ == self@,
    {
        let recipient_address = match &self.recipient_address {
            Some(a) => Some(a.clone()),
            None => None,
        };
        BloodDonation {
            donation_id: self.donation_id,
            donor_address: self.donor_address.clone(),
            blood_type: self.blood_type.clone(),
            donation_time: self.donation_time,
            storage_temp: self.storage_temp,
            is_contaminated: self.is_contaminated,
            recipient_address,
            is_delivered: self.is_delivered,
        }
    }

    pub fn status(&self) -> (r: DonationStatus)
        ensures
            r == self@.status(),
    {
        if self.is_delivered {
            DonationStatus::Delivered
        } else if self.is_contaminated {
            DonationStatus::Contaminated
        } else {
            DonationStatus::Active
        }
    }

    /// Records a storage temperature reading for this unit, updating `stats`
    /// when the reading spoils it; on an error nothing changes.
    pub fn update_storage(&mut self, stats: &mut DonationStats, new_temp: i32) -> (r: Result<
        (),
        DonationError,
    >)
        requires
            has_room(old(self)@, *old(stats)),
        ensures
            match storage_update(old(self)@, *old(stats), new_temp) {
                Ok((d, s)) => r is Ok && final(self)@ == d && *final(stats) == s,
                Err(e) => r == Err::<(), DonationError>(e) && final(self)@ == old(self)@
                    && *final(stats) == *old(stats),
            },
    {
        if self.donation_id == 0 {
            return Err(DonationError::NotFound);
        }
        if self.is_delivered {
            return Err(DonationError::AlreadyDelivered);
        }
        self.storage_temp = new_temp;
        if new_temp < SAFE_TEMP_MIN || new_temp > SAFE_TEMP_MAX {
            if !self.is_contaminated {
                self.is_contaminated = true;
                stats.count_contamination();
            }
        }
        Ok(())
    }

    /// Hands this unit over to `recipient`, updating `stats`; on an error
    /// nothing changes.
    pub fn transfer(&mut self, stats: &mut DonationStats, recipient: String) -> (r: Result<
        (),
        DonationError,
    >)
        requires
            has_room(old(self)@, *old(stats)),
        ensures
            match transfer_outcome(old(self)@, *old(stats), recipient@) {
                Ok((d, s)) => r is Ok && final(self)@ == d && *final(stats) == s,
                Err(e) => r == Err::<(), DonationError>(e) && final(self)@ == old(self)@
                    && *final(stats) == *old(stats),
            },
    {
        if self.donation_id == 0 {
            return Err(DonationError::NotFound);
        }
        if self.is_contaminated {
            return Err(DonationError::Contaminated);
        }
        if self.is_delivered {
            return Err(DonationError::AlreadyDelivered);
        }
        self.recipient_address = Some(recipient);
        self.is_delivered = true;
        stats.count_delivery();
        Ok(())
    }
}

} // verus!
