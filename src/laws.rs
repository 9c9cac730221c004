use vstd::prelude::*;

use crate::record::{in_safe_range, DonationError, DonationStatus};
use crate::registry::{
    lemma_register_keeps_wf, lemma_transfer_keeps_wf, lemma_update_keeps_wf,
    lemma_wf_balanced, lemma_wf_room, RegistryState,
};
use crate::stats::DonationStats;

verus! {

/// One call made on the registry.
pub enum Operation {
    Register { donor: Seq<char>, blood_type: Seq<char>, time: u64, temp: i32 },
    UpdateStorage { id: u64, temp: i32 },
    Transfer { id: u64, recipient: Seq<char> },
}

/// The registry before any call.
pub open spec fn empty_registry() -> RegistryState {
    RegistryState { records: Seq::empty(), stats: DonationStats::zero() }
}

/// The registry after `op`; a refused call leaves it as it was, and so does a
/// registration once every id has been handed out.
pub open spec fn step(st: RegistryState, op: Operation) -> RegistryState {
    match op {
        Operation::Register { donor, blood_type, time, temp } => {
            if st.next_id() <= u64::MAX {
                st.after_register(donor, blood_type, time, temp)
            } else {
                st
            }
        },
        Operation::UpdateStorage { id, temp } => match st.after_update(id, temp) {
            Ok(n) => n,
            Err(_) => st,
        },
        Operation::Transfer { id, recipient } => match st.after_transfer(id, recipient) {
            Ok(n) => n,
            Err(_) => st,
        },
    }
}

/// The registry after the calls `ops`, in order, starting from the empty one.
pub open spec fn run(ops: Seq<Operation>) -> RegistryState
    decreases ops.len(),
{
    if ops.len() == 0 {
        empty_registry()
    } else {
        step(run(ops.drop_last()), ops.last())
    }
}

/// In every reachable registry the statistics add up:
/// total == active + delivered + contaminated.
pub proof fn reachable_stats_balanced(ops: Seq<Operation>)
    ensures
        run(ops).wf(),
        run(ops).stats.balanced(),
    decreases ops.len(),
{
    if ops.len() == 0 {
        assert(empty_registry().wf());
    } else {
        reachable_stats_balanced(ops.drop_last());
        let st = run(ops.drop_last());
        match ops.last() {
            Operation::Register { donor, blood_type, time, temp } => {
                if st.next_id() <= u64::MAX {
                    lemma_register_keeps_wf(st, donor, blood_type, time, temp);
                }
            },
            Operation::UpdateStorage { id, temp } => {
                lemma_update_keeps_wf(st, id, temp);
            },
            Operation::Transfer { id, recipient } => {
                lemma_transfer_keeps_wf(st, id, recipient);
            },
        }
    }
    lemma_wf_balanced(run(ops));
}

/// Ids start at 1; each registration hands out an id above every id handed
/// out before, and the next registration hands out the one after it.
pub proof fn registration_ids_increase(
    st: RegistryState,
    donor: Seq<char>,
    blood_type: Seq<char>,
    time: u64,
    temp: i32,
)
    requires
        st.wf(),
        st.next_id() <= u64::MAX,
    ensures
        empty_registry().next_id() == 1,
        forall|i: int|
            0 <= i < st.records.len() ==> #[trigger] st.records[i].donation_id < st.next_id(),
        st.after_register(donor, blood_type, time, temp).record_at(
            st.next_id() as u64,
        ).donation_id == st.next_id(),
        st.after_register(donor, blood_type, time, temp).next_id() == st.next_id() + 1,
{
}

/// Two successive readings outside the safe range on an active donation
/// count it as contaminated once.
pub proof fn contamination_counted_once(st: RegistryState, id: u64, t1: i32, t2: i32)
    requires
        st.wf(),
        st.holds(id),
        st.record_at(id).status() == DonationStatus::Active,
        !in_safe_range(t1),
        !in_safe_range(t2),
    ensures
        match st.after_update(id, t1) {
            Ok(s1) => match s1.after_update(id, t2) {
                Ok(s2) => {
                    &&& s1.stats.contaminated_donations == st.stats.contaminated_donations + 1
                    &&& s2.stats == s1.stats
                    &&& s2.record_at(id).is_contaminated
                },
                Err(_) => false,
            },
            Err(_) => false,
        },
{
    lemma_wf_room(st, id);
}

/// A reading inside the safe range changes neither the contamination mark
/// nor the statistics.
pub proof fn safe_reading_keeps_state(st: RegistryState, id: u64, t: i32)
    requires
        in_safe_range(t),
    ensures
        match st.after_update(id, t) {
            Ok(n) => n.stats == st.stats && n.record_at(id).is_contaminated == st.record_at(
                id,
            ).is_contaminated,
            Err(_) => step(st, Operation::UpdateStorage { id, temp: t }) == st,
        },
{
}

/// A hand-over of a contaminated or delivered donation is refused and leaves
/// the registry as it was.
pub proof fn transfer_of_terminal_refused(st: RegistryState, id: u64, recipient: Seq<char>)
    requires
        st.record_at(id).is_contaminated || st.record_at(id).is_delivered,
    ensures
        st.after_transfer(id, recipient) is Err,
        step(st, Operation::Transfer { id, recipient }) == st,
{
}

/// A temperature reading on a delivered donation is refused and leaves the
/// registry as it was.
pub proof fn update_after_delivery_refused(st: RegistryState, id: u64, t: i32)
    requires
        st.wf(),
        st.record_at(id).is_delivered,
    ensures
        st.after_update(id, t) == Err::<RegistryState, DonationError>(
            DonationError::AlreadyDelivered,
        ),
        step(st, Operation::UpdateStorage { id, temp: t }) == st,
{
}

} // verus!
