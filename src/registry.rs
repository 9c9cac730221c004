use vstd::prelude::*;

use crate::record::{
    absent_view, fresh_view, has_room, storage_update, transfer_outcome, BloodDonation,
    DonationError, DonationStatus, DonationView,
};
use crate::stats::DonationStats;

verus! {

/// The key under which one donation record is kept.
#[derive(Clone, Copy, Debug, PartialEq, Eq, Structural)]
pub enum DonationBook {
    Donation(u64),
}

/// How many of the records in `s` are in state `k`.
pub open spec fn count_status(s: Seq<DonationView>, k: DonationStatus) -> nat
    decreases s.len(),
{
    if s.len() == 0 {
        0
    } else {
        count_status(s.drop_last(), k) + if s.last().status() == k {
            1nat
        } else {
            0nat
        }
    }
}

pub open spec fn indicator(b: bool) -> int {
    if b {
        1
    } else {
        0
    }
}

/// The registry as a mathematical value: the records in order of their ids
/// (the record with id `i` at position `i - 1`) and the statistics.
pub struct RegistryState {
    pub records: Seq<DonationView>,
    pub stats: DonationStats,
}

impl RegistryState {
    /// Whether `id` names a registered donation.
    pub open spec fn holds(self, id: u64) -> bool {
        1 <= id && id <= self.records.len()
    }

    /// The record of `id`, or the placeholder with id 0 when there is none.
    pub open spec fn record_at(self, id: u64) -> DonationView {
        if self.holds(id) {
            self.records[id - 1]
        } else {
            absent_view()
        }
    }

    /// The id that the next registration hands out.
    pub open spec fn next_id(self) -> int {
        self.records.len() + 1int
    }

    /// Ids are dense from 1, no record is both contaminated and delivered, and
    /// the statistics count the records by state.
    pub open spec fn wf(self) -> bool {
        &&& forall|i: int|
            0 <= i < self.records.len() ==> (#[trigger] self.records[i]).donation_id == i + 1
                && !(self.records[i].is_contaminated && self.records[i].is_delivered)
        &&& self.stats.total_donations == self.records.len()
        &&& self.stats.active_donations == count_status(self.records, DonationStatus::Active)
        &&& self.stats.delivered_donations == count_status(self.records, DonationStatus::Delivered)
        &&& self.stats.contaminated_donations == count_status(
            self.records,
            DonationStatus::Contaminated,
        )
    }

    pub open spec fn after_register(
        self,
        donor: Seq<char>,
        blood_type: Seq<char>,
        time: u64,
        temp: i32,
    ) -> RegistryState {
        RegistryState {
            records: self.records.push(
                fresh_view(self.next_id() as u64, donor, blood_type, time, temp),
            ),
            stats: self.stats.with_registration(),
        }
    }

    pub open spec fn after_update(self, id: u64, new_temp: i32) -> Result<
        RegistryState,
        DonationError,
    > {
        match storage_update(self.record_at(id), self.stats, new_temp) {
            Ok((r, s)) => Ok(RegistryState { records: self.records.update(id - 1, r), stats: s }),
            Err(e) => Err(e),
        }
    }

    pub open spec fn after_transfer(self, id: u64, recipient: Seq<char>) -> Result<
        RegistryState,
        DonationError,
    > {
        match transfer_outcome(self.record_at(id), self.stats, recipient) {
            Ok((r, s)) => Ok(RegistryState { records: self.records.update(id - 1, r), stats: s }),
            Err(e) => Err(e),
        }
    }
}

pub proof fn lemma_count_push(s: Seq<DonationView>, v: DonationView, k: DonationStatus)
    ensures
        count_status(s.push(v), k) == count_status(s, k) + indicator(v.status() == k),
{
    assert(s.push(v).drop_last() =~= s);
}

pub proof fn lemma_count_update(s: Seq<DonationView>, i: int, v: DonationView, k: DonationStatus)
    requires
        0 <= i < s.len(),
    ensures
        count_status(s.update(i, v), k) == count_status(s, k) - indicator(s[i].status() == k)
            + indicator(v.status() == k),
    decreases s.len(),
{
    let t = s.update(i, v);
    if i == s.len() - 1 {
        assert(t.drop_last() =~= s.drop_last());
    } else {
        lemma_count_update(s.drop_last(), i, v, k);
        assert(t.drop_last() =~= s.drop_last().update(i, v));
    }
}

/// Every record is in exactly one of the three states.
pub proof fn lemma_count_total(s: Seq<DonationView>)
    ensures
        count_status(s, DonationStatus::Active) + count_status(s, DonationStatus::Delivered)
            + count_status(s, DonationStatus::Contaminated) == s.len(),
    decreases s.len(),
{
    if s.len() > 0 {
        lemma_count_total(s.drop_last());
    }
}

/// In a well-formed registry the statistics add up.
pub proof fn lemma_wf_balanced(st: RegistryState)
    requires
        st.wf(),
    ensures
        st.stats.balanced(),
{
    lemma_count_total(st.records);
}

/// In a well-formed registry an active record can always be retired.
pub proof fn lemma_wf_room(st: RegistryState, id: u64)
    requires
        st.wf(),
    ensures
        has_room(st.record_at(id), st.stats),
{
    if st.holds(id) && st.record_at(id).status() == DonationStatus::Active {
        let i = id - 1;
        let r = st.records[i];
        lemma_count_update(
            st.records,
            i,
            DonationView { is_delivered: true, ..r },
            DonationStatus::Active,
        );
        lemma_count_total(st.records);
    }
}

pub proof fn lemma_register_keeps_wf(
    st: RegistryState,
    donor: Seq<char>,
    blood_type: Seq<char>,
    time: u64,
    temp: i32,
)
    requires
        st.wf(),
        st.next_id() <= u64::MAX,
    ensures
        st.after_register(donor, blood_type, time, temp).wf(),
{
    let v = fresh_view(st.next_id() as u64, donor, blood_type, time, temp);
    lemma_count_push(st.records, v, DonationStatus::Active);
    lemma_count_push(st.records, v, DonationStatus::Delivered);
    lemma_count_push(st.records, v, DonationStatus::Contaminated);
    lemma_count_total(st.records);
    let n = st.after_register(donor, blood_type, time, temp);
    assert forall|i: int| 0 <= i < n.records.len() implies (#[trigger] n.records[i]).donation_id
        == i + 1 && !(n.records[i].is_contaminated && n.records[i].is_delivered) by {
        if i < st.records.len() {
            assert(n.records[i] == st.records[i]);
        }
    }
}

/// Replacing the record of `id` by `r` and the statistics by `s` keeps the
/// registry well formed when the counters move with the state of the record.
proof fn lemma_replace_keeps_wf(st: RegistryState, id: u64, r: DonationView, s: DonationStats)
    requires
        st.wf(),
        st.holds(id),
        r.donation_id == id,
        !(r.is_contaminated && r.is_delivered),
        s.total_donations == st.stats.total_donations,
        s.active_donations == st.stats.active_donations - indicator(
            st.records[id - 1].status() == DonationStatus::Active,
        ) + indicator(r.status() == DonationStatus::Active),
        s.delivered_donations == st.stats.delivered_donations - indicator(
            st.records[id - 1].status() == DonationStatus::Delivered,
        ) + indicator(r.status() == DonationStatus::Delivered),
        s.contaminated_donations == st.stats.contaminated_donations - indicator(
            st.records[id - 1].status() == DonationStatus::Contaminated,
        ) + indicator(r.status() == DonationStatus::Contaminated),
    ensures
        (RegistryState { records: st.records.update(id - 1, r), stats: s }).wf(),
{
    let i = id - 1;
    lemma_count_update(st.records, i, r, DonationStatus::Active);
    lemma_count_update(st.records, i, r, DonationStatus::Delivered);
    lemma_count_update(st.records, i, r, DonationStatus::Contaminated);
    let n = RegistryState { records: st.records.update(i, r), stats: s };
    assert forall|j: int| 0 <= j < n.records.len() implies (#[trigger] n.records[j]).donation_id
        == j + 1 && !(n.records[j].is_contaminated && n.records[j].is_delivered) by {
        if j != i {
            assert(n.records[j] == st.records[j]);
        }
    }
}

pub proof fn lemma_update_keeps_wf(st: RegistryState, id: u64, new_temp: i32)
    requires
        st.wf(),
    ensures
        match st.after_update(id, new_temp) {
            Ok(n) => n.wf(),
            Err(_) => true,
        },
{
    lemma_wf_room(st, id);
    match storage_update(st.record_at(id), st.stats, new_temp) {
        Ok((r, s)) => {
            lemma_replace_keeps_wf(st, id, r, s);
        },
        Err(_) => {},
    }
}

pub proof fn lemma_transfer_keeps_wf(st: RegistryState, id: u64, recipient: Seq<char>)
    requires
        st.wf(),
    ensures
        match st.after_transfer(id, recipient) {
            Ok(n) => n.wf(),
            Err(_) => true,
        },
{
    lemma_wf_room(st, id);
    match transfer_outcome(st.record_at(id), st.stats, recipient) {
        Ok((r, s)) => {
            lemma_replace_keeps_wf(st, id, r, s);
        },
        Err(_) => {},
    }
}

/// The registry: every donation record, keyed by its id, and the statistics.
/// Authorization of callers and the ledger clock belong to the host; the
/// registration time is handed in.
pub struct BloodDonationContract {
    book: Vec<BloodDonation>,
    stats: DonationStats,
}

impl View for BloodDonationContract {
    type V = RegistryState;

    closed spec fn view(&self) -> RegistryState {
        RegistryState { records: self.book@.map_values(|d: BloodDonation| d@), stats: self.stats }
    }
}

impl BloodDonationContract {
    pub open spec fn wf(&self) -> bool {
        self@.wf()
    }

    /// An empty registry.
    pub fn new() -> (r: BloodDonationContract)
        ensures
            r.wf(),
            r@.records.len() == 0,
            r@.stats == DonationStats::zero(),
    {
        let r = BloodDonationContract { book: Vec::new(), stats: DonationStats::new() };
        assert(r@.records =~= Seq::<DonationView>::empty());
        r
    }

    /// The record stored under `key`, if any.
    fn get(&self, key: &DonationBook) -> (r: Option<BloodDonation>)
        ensures
            match *key {
                DonationBook::Donation(id) => match r {
                    Some(d) => self@.holds(id) && d@ == self@.record_at(id),
                    None => !self@.holds(id),
                },
            },
    {
        match *key {
            DonationBook::Donation(id) => {
                if id >= 1 && id <= self.book.len() as u64 {
                    Some(self.book[(id - 1) as usize].copy_of())
                } else {
                    None
                }
            },
        }
    }

    /// Registers a donation made at time `now`; returns its id, one more than
    /// the last id handed out (the first is 1).
    pub fn register_donation(
        &mut self,
        donor: String,
        blood_type: String,
        storage_temp: i32,
        now: u64,
    ) -> (r: u64)
        requires
            old(self).wf(),
            old(self)@.next_id() <= u64::MAX,
        ensures
            final(self).wf(),
            r == old(self)@.next_id(),
            final(self)@.next_id() == r + 1,
            final(self)@ == old(self)@.after_register(donor@, blood_type@, now, storage_temp),
            final(self)@.record_at(r) == fresh_view(r, donor@, blood_type@, now, storage_temp),
    {
        proof {
            lemma_register_keeps_wf(self@, donor@, blood_type@, now, storage_temp);
            lemma_wf_balanced(self@);
        }
        let id: u64 = self.book.len() as u64 + 1;
        let donation = BloodDonation::registered(id, donor, blood_type, now, storage_temp);
        let ghost dv = donation@;
        self.stats.count_registration();
        self.book.push(donation);
        assert(self@.records =~= old(self)@.records.push(dv));
        id
    }

    /// Reports the storage temperature of donation `donation_id`. Any caller
    /// may report a reading: no authorization is asked for it.
    pub fn update_storage_condition(&mut self, donation_id: u64, new_temp: i32) -> (r: Result<
        (),
        DonationError,
    >)
        requires
            old(self).wf(),
        ensures
            final(self).wf(),
            match old(self)@.after_update(donation_id, new_temp) {
                Ok(n) => r is Ok && final(self)@ == n,
                Err(e) => r == Err::<(), DonationError>(e) && final(self)@ == old(self)@,
            },
    {
        proof {
            lemma_wf_room(self@, donation_id);
            lemma_update_keeps_wf(self@, donation_id, new_temp);
        }
        let mut donation = self.view_donation(donation_id);
        let mut stats = self.stats;
        match donation.update_storage(&mut stats, new_temp) {
            Err(e) => Err(e),
            Ok(()) => {
                assert(old(self)@.holds(donation_id));
                let len = self.book.len();
                assert(donation_id <= len);
                let slot = (donation_id - 1) as usize;
                let ghost dv = donation@;
                self.book.set(slot, donation);
                self.stats = stats;
                assert(self@.records =~= old(self)@.records.update(slot as int, dv));
                Ok(())
            },
        }
    }

    /// Hands donation `donation_id` over to `recipient`.
    pub fn transfer_to_recipient(&mut self, donation_id: u64, recipient: String) -> (r: Result<
        (),
        DonationError,
    >)
        requires
            old(self).wf(),
        ensures
            final(self).wf(),
            match old(self)@.after_transfer(donation_id, recipient@) {
                Ok(n) => r is Ok && final(self)@ == n,
                Err(e) => r == Err::<(), DonationError>(e) && final(self)@ == old(self)@,
            },
    {
        proof {
            lemma_wf_room(self@, donation_id);
            lemma_transfer_keeps_wf(self@, donation_id, recipient@);
        }
        let mut donation = self.view_donation(donation_id);
        let mut stats = self.stats;
        match donation.transfer(&mut stats, recipient) {
            Err(e) => Err(e),
            Ok(()) => {
                assert(old(self)@.holds(donation_id));
                let len = self.book.len();
                assert(donation_id <= len);
                let slot = (donation_id - 1) as usize;
                let ghost dv = donation@;
                self.book.set(slot, donation);
                self.stats = stats;
                assert(self@.records =~= old(self)@.records.update(slot as int, dv));
                Ok(())
            },
        }
    }

    /// The record of `donation_id`; for an id that names no donation, a
    /// placeholder whose id is 0.
    pub fn view_donation(&self, donation_id: u64) -> (r: BloodDonation)
        ensures
            r@ == self@.record_at(donation_id),
            !self@.holds(donation_id) ==> r.donation_id == 0,
    {
        match self.get(&DonationBook::Donation(donation_id)) {
            Some(d) => d,
            None => BloodDonation::absent(),
        }
    }

    /// The current statistics.
    pub fn view_stats(&self) -> (r: DonationStats)
        ensures
            r == self@.stats,
    {
        self.stats
    }
}

} // verus!
