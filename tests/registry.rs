use blood_donation::{
    BloodDonation, BloodDonationContract, DonationError, DonationStats, DonationStatus,
};

fn s(text: &str) -> String {
    text.to_string()
}

fn stats(total: u64, active: u64, delivered: u64, contaminated: u64) -> DonationStats {
    DonationStats {
        total_donations: total,
        active_donations: active,
        delivered_donations: delivered,
        contaminated_donations: contaminated,
    }
}

fn balanced(st: DonationStats) -> bool {
    st.total_donations
        == st.active_donations + st.delivered_donations + st.contaminated_donations
}

#[test]
fn scenario_contaminated_unit_cannot_be_transferred() {
    let mut c = BloodDonationContract::new();
    let id = c.register_donation(s("donorA"), s("O+"), 4, 100);
    assert_eq!(id, 1);
    assert_eq!(c.view_stats(), stats(1, 1, 0, 0));
    assert_eq!(c.update_storage_condition(1, 8), Ok(()));
    assert!(c.view_donation(1).is_contaminated);
    assert_eq!(c.view_donation(1).storage_temp, 8);
    assert_eq!(c.view_stats(), stats(1, 0, 0, 1));
    assert_eq!(
        c.transfer_to_recipient(1, s("recipientA")),
        Err(DonationError::Contaminated)
    );
    let d = c.view_donation(1);
    assert!(!d.is_delivered);
    assert_eq!(d.recipient_address, None);
    assert_eq!(c.view_stats(), stats(1, 0, 0, 1));
}

#[test]
fn scenario_second_unit_delivered() {
    let mut c = BloodDonationContract::new();
    c.register_donation(s("donorA"), s("O+"), 4, 100);
    c.update_storage_condition(1, 8).unwrap();
    let id = c.register_donation(s("donorB"), s("A-"), 4, 200);
    assert_eq!(id, 2);
    assert_eq!(c.transfer_to_recipient(2, s("recipientB")), Ok(()));
    let d = c.view_donation(2);
    assert!(d.is_delivered);
    assert_eq!(d.recipient_address, Some(s("recipientB")));
    assert_eq!(d.donor_address, s("donorB"));
    assert_eq!(d.blood_type, s("A-"));
    assert_eq!(d.donation_time, 200);
    assert_eq!(c.view_stats(), stats(2, 0, 1, 1));
    assert!(balanced(c.view_stats()));
}

#[test]
fn scenario_update_of_unknown_id_fails() {
    let mut c = BloodDonationContract::new();
    assert_eq!(c.update_storage_condition(999, 4), Err(DonationError::NotFound));
    assert_eq!(c.view_stats(), stats(0, 0, 0, 0));
}

#[test]
fn ids_start_at_one_and_increase() {
    let mut c = BloodDonationContract::new();
    let mut last = 0u64;
    for k in 0..5u64 {
        let id = c.register_donation(s("donor"), s("B+"), 3, k);
        assert_eq!(id, k + 1);
        assert!(id > last);
        last = id;
        assert_eq!(c.view_donation(id).donation_id, id);
    }
    assert_eq!(c.view_stats(), stats(5, 5, 0, 0));
}

#[test]
fn repeated_out_of_range_reading_counts_once() {
    let mut c = BloodDonationContract::new();
    c.register_donation(s("donor"), s("AB+"), 4, 1);
    c.update_storage_condition(1, 10).unwrap();
    c.update_storage_condition(1, -3).unwrap();
    assert_eq!(c.view_stats(), stats(1, 0, 0, 1));
    assert_eq!(c.view_donation(1).storage_temp, -3);
    c.update_storage_condition(1, 4).unwrap();
    let d = c.view_donation(1);
    assert!(d.is_contaminated);
    assert_eq!(d.storage_temp, 4);
    assert_eq!(c.view_stats(), stats(1, 0, 0, 1));
}

#[test]
fn readings_in_safe_range_change_nothing_else() {
    let mut c = BloodDonationContract::new();
    c.register_donation(s("donor"), s("O-"), 4, 1);
    for t in [2, 3, 4, 5, 6] {
        c.update_storage_condition(1, t).unwrap();
        let d = c.view_donation(1);
        assert!(!d.is_contaminated);
        assert_eq!(d.storage_temp, t);
        assert_eq!(c.view_stats(), stats(1, 1, 0, 0));
    }
}

#[test]
fn readings_just_outside_safe_range_contaminate() {
    for t in [1, 7, i32::MIN, i32::MAX] {
        let mut c = BloodDonationContract::new();
        c.register_donation(s("donor"), s("O-"), 4, 1);
        c.update_storage_condition(1, t).unwrap();
        assert!(c.view_donation(1).is_contaminated);
        assert_eq!(c.view_stats(), stats(1, 0, 0, 1));
    }
}

#[test]
fn transfer_of_delivered_unit_refused() {
    let mut c = BloodDonationContract::new();
    c.register_donation(s("donor"), s("A+"), 5, 1);
    c.transfer_to_recipient(1, s("first")).unwrap();
    assert_eq!(
        c.transfer_to_recipient(1, s("second")),
        Err(DonationError::AlreadyDelivered)
    );
    assert_eq!(c.view_donation(1).recipient_address, Some(s("first")));
    assert_eq!(c.view_stats(), stats(1, 0, 1, 0));
}

#[test]
fn transfer_of_unknown_id_refused() {
    let mut c = BloodDonationContract::new();
    c.register_donation(s("donor"), s("A+"), 5, 1);
    assert_eq!(c.transfer_to_recipient(0, s("r")), Err(DonationError::NotFound));
    assert_eq!(c.transfer_to_recipient(2, s("r")), Err(DonationError::NotFound));
    assert_eq!(c.view_stats(), stats(1, 1, 0, 0));
}

#[test]
fn update_of_delivered_unit_refused() {
    let mut c = BloodDonationContract::new();
    c.register_donation(s("donor"), s("A+"), 5, 1);
    c.transfer_to_recipient(1, s("r")).unwrap();
    assert_eq!(
        c.update_storage_condition(1, 20),
        Err(DonationError::AlreadyDelivered)
    );
    let d = c.view_donation(1);
    assert_eq!(d.storage_temp, 5);
    assert!(!d.is_contaminated);
    assert_eq!(c.view_stats(), stats(1, 0, 1, 0));
}

#[test]
fn view_of_unknown_id_is_placeholder() {
    let mut c = BloodDonationContract::new();
    assert_eq!(c.view_donation(1).donation_id, 0);
    c.register_donation(s("donor"), s("A+"), 5, 1);
    for id in [0, 2, u64::MAX] {
        let d = c.view_donation(id);
        assert_eq!(d.donation_id, 0);
        assert_eq!(d.donor_address, s("none"));
        assert_eq!(d.blood_type, s("Unknown"));
        assert_eq!(d.recipient_address, None);
        assert!(!d.is_delivered && !d.is_contaminated);
    }
}

#[test]
fn fresh_registry_has_zero_stats() {
    let c = BloodDonationContract::new();
    assert_eq!(c.view_stats(), stats(0, 0, 0, 0));
    assert_eq!(DonationStats::new(), stats(0, 0, 0, 0));
}

#[test]
fn stats_stay_balanced_over_mixed_calls() {
    let mut c = BloodDonationContract::new();
    for k in 0..6u64 {
        c.register_donation(s("donor"), s("O+"), 4, k);
        assert!(balanced(c.view_stats()));
    }
    c.update_storage_condition(1, 9).unwrap();
    c.transfer_to_recipient(2, s("r")).unwrap();
    let _ = c.transfer_to_recipient(1, s("r"));
    let _ = c.update_storage_condition(2, 0);
    c.update_storage_condition(3, 3).unwrap();
    c.update_storage_condition(4, -1).unwrap();
    c.transfer_to_recipient(5, s("r")).unwrap();
    assert_eq!(c.view_stats(), stats(6, 2, 2, 2));
    assert!(balanced(c.view_stats()));
}

#[test]
fn record_steps_on_placeholder_report_not_found() {
    let mut st = stats(3, 1, 1, 1);
    let mut d = BloodDonation::absent();
    assert_eq!(d.update_storage(&mut st, 4), Err(DonationError::NotFound));
    assert_eq!(d.transfer(&mut st, s("r")), Err(DonationError::NotFound));
    assert_eq!(st, stats(3, 1, 1, 1));
    assert_eq!(d.donation_id, 0);
}

#[test]
fn record_steps_move_counters() {
    let mut st = DonationStats::new();
    st.count_registration();
    st.count_registration();
    assert_eq!(st, stats(2, 2, 0, 0));
    let mut a = BloodDonation::registered(1, s("d"), s("O+"), 7, 4);
    assert_eq!(a.status(), DonationStatus::Active);
    a.update_storage(&mut st, 12).unwrap();
    assert_eq!(a.status(), DonationStatus::Contaminated);
    assert_eq!(a.transfer(&mut st, s("r")), Err(DonationError::Contaminated));
    let mut b = BloodDonation::registered(2, s("d"), s("O+"), 8, 4);
    b.transfer(&mut st, s("r")).unwrap();
    assert_eq!(b.status(), DonationStatus::Delivered);
    assert_eq!(st, stats(2, 0, 1, 1));
    let c = b.copy_of();
    assert_eq!(c.recipient_address, Some(s("r")));
    assert_eq!(c.donation_time, 8);
}
