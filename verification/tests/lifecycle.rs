use rent_payment::lifecycle::RentPaymentContract;
use rent_payment::records::LeaseError;

const OWNER: u64 = 7;
const LESSEE: u64 = 9;
const STRANGER: u64 = 11;

const PRICE: u64 = 100;
const PERIOD: u64 = 86400;
const MIN_DURATION: u64 = 86400;
const MAX_DURATION: u64 = 2592000;
const DEPOSIT: u64 = 500;

fn with_one_asset() -> RentPaymentContract {
    let mut s = RentPaymentContract::new();
    let id = s.register_asset(
        OWNER,
        "bike".to_string(),
        "a sturdy bike".to_string(),
        PRICE,
        PERIOD,
        MIN_DURATION,
        MAX_DURATION,
        DEPOSIT,
    );
    assert_eq!(id, 1);
    s
}

#[test]
fn a_fresh_core_is_empty() {
    let s = RentPaymentContract::new();
    let stats = s.view_asset_stats();
    assert_eq!(stats.active_leases, 0);
    assert_eq!(stats.completed_leases, 0);
    assert_eq!(stats.overdue_leases, 0);
    assert_eq!(stats.total_leases, 0);
    assert_eq!(stats.total_xlm_processed, 0);
    assert_eq!(s.get_owner_assets(OWNER), Vec::<u64>::new());
    assert_eq!(s.get_lessee_leases(LESSEE), Vec::<u64>::new());
    assert_eq!(s.view_asset(1).asset_id, 0);
    assert_eq!(s.view_lease(1).lease_id, 0);
}

#[test]
fn register_ids_start_at_one_and_increase_by_one() {
    let mut s = RentPaymentContract::new();
    let first = s.register_asset(
        OWNER,
        "a".to_string(),
        "first".to_string(),
        1,
        2,
        3,
        4,
        5,
    );
    let second = s.register_asset(
        OWNER,
        "b".to_string(),
        "second".to_string(),
        1,
        2,
        3,
        4,
        5,
    );
    let third = s.register_asset(
        STRANGER,
        "c".to_string(),
        "third".to_string(),
        1,
        2,
        3,
        4,
        5,
    );
    assert_eq!(first, 1);
    assert_eq!(second, 2);
    assert_eq!(third, 3);
}

#[test]
fn registered_asset_is_stored_available() {
    let s = with_one_asset();
    let a = s.view_asset(1);
    assert_eq!(a.asset_id, 1);
    assert_eq!(a.owner, OWNER);
    assert_eq!(a.title, "bike");
    assert_eq!(a.description, "a sturdy bike");
    assert_eq!(a.price_per_period, PRICE);
    assert_eq!(a.period_duration, PERIOD);
    assert_eq!(a.min_lease_duration, MIN_DURATION);
    assert_eq!(a.max_lease_duration, MAX_DURATION);
    assert_eq!(a.deposit_required, DEPOSIT);
    assert!(a.is_available);
    assert_eq!(a.current_lease_id, 0);
}

#[test]
fn view_asset_misses_give_the_sentinel() {
    let s = with_one_asset();
    for missing in [0u64, 2, 500] {
        let a = s.view_asset(missing);
        assert_eq!(a.asset_id, 0);
        assert_eq!(a.owner, 0);
        assert_eq!(a.title, "Not_Found");
        assert_eq!(a.description, "Not_Found");
        assert!(!a.is_available);
        assert_eq!(a.current_lease_id, 0);
    }
}

#[test]
fn view_lease_misses_give_the_sentinel() {
    let s = with_one_asset();
    for missing in [0u64, 1, 77] {
        let l = s.view_lease(missing);
        assert_eq!(l.lease_id, 0);
        assert_eq!(l.asset_id, 0);
        assert!(!l.is_active);
        assert!(!l.is_overdue);
        assert_eq!(l.total_paid, 0);
    }
}

#[test]
fn create_lease_rejects_durations_outside_the_range() {
    let mut s = with_one_asset();
    assert_eq!(
        s.create_lease(1, LESSEE, MIN_DURATION - 1, 0),
        Err(LeaseError::InvalidDuration)
    );
    assert_eq!(
        s.create_lease(1, LESSEE, MAX_DURATION + 1, 0),
        Err(LeaseError::InvalidDuration)
    );
    // a failed attempt changes nothing
    assert!(s.view_asset(1).is_available);
    assert_eq!(s.view_asset_stats().total_leases, 0);
}

#[test]
fn create_lease_succeeds_at_both_boundaries() {
    let mut s = with_one_asset();
    let lease = s.create_lease(1, LESSEE, MIN_DURATION, 0).unwrap();
    assert_eq!(lease, 1);
    s.end_lease(1, LESSEE).unwrap();
    let lease = s.create_lease(1, LESSEE, MAX_DURATION, 0).unwrap();
    assert_eq!(lease, 2);
}

#[test]
fn create_lease_rejects_missing_or_taken_assets() {
    let mut s = with_one_asset();
    assert_eq!(
        s.create_lease(2, LESSEE, MIN_DURATION, 0),
        Err(LeaseError::NotAvailable)
    );
    assert_eq!(
        s.create_lease(0, LESSEE, MIN_DURATION, 0),
        Err(LeaseError::NotAvailable)
    );
    s.create_lease(1, LESSEE, MIN_DURATION, 0).unwrap();
    assert_eq!(
        s.create_lease(1, STRANGER, MIN_DURATION, 0),
        Err(LeaseError::NotAvailable)
    );
}

#[test]
fn successful_create_lease_links_asset_and_counts() {
    let mut s = with_one_asset();
    let before = s.view_asset_stats();
    let lease_id = s.create_lease(1, LESSEE, 172800, 0).unwrap();
    assert_eq!(lease_id, 1);

    let a = s.view_asset(1);
    assert!(!a.is_available);
    assert_eq!(a.current_lease_id, lease_id);

    let l = s.view_lease(lease_id);
    assert_eq!(l.lease_id, lease_id);
    assert_eq!(l.asset_id, 1);
    assert_eq!(l.lessee, LESSEE);
    assert_eq!(l.start_time, 0);
    assert_eq!(l.end_time, 172800);
    assert_eq!(l.period_payment, PRICE);
    assert_eq!(l.payment_frequency, PERIOD);
    assert_eq!(l.last_payment_time, 0);
    assert_eq!(l.next_payment_time, PERIOD);
    assert!(l.is_active);
    assert!(!l.is_overdue);
    assert_eq!(l.total_paid, DEPOSIT + PRICE);
    assert_eq!(l.security_deposit, DEPOSIT);

    let after = s.view_asset_stats();
    assert_eq!(after.active_leases, before.active_leases + 1);
    assert_eq!(after.total_leases, before.total_leases + 1);
    assert_eq!(after.completed_leases, before.completed_leases);
    assert_eq!(after.overdue_leases, before.overdue_leases);
    assert_eq!(
        after.total_xlm_processed,
        before.total_xlm_processed + DEPOSIT + PRICE
    );
}

#[test]
fn process_payment_demands_the_lessee() {
    let mut s = with_one_asset();
    s.create_lease(1, LESSEE, 172800, 0).unwrap();
    assert_eq!(
        s.process_payment(1, STRANGER, PERIOD),
        Err(LeaseError::Unauthorized)
    );
    assert_eq!(
        s.process_payment(1, OWNER, PERIOD),
        Err(LeaseError::Unauthorized)
    );
}

#[test]
fn process_payment_demands_an_active_lease() {
    let mut s = with_one_asset();
    assert_eq!(
        s.process_payment(1, LESSEE, 0),
        Err(LeaseError::InactiveLease)
    );
    s.create_lease(1, LESSEE, 172800, 0).unwrap();
    s.end_lease(1, LESSEE).unwrap();
    assert_eq!(
        s.process_payment(1, LESSEE, PERIOD),
        Err(LeaseError::InactiveLease)
    );
}

#[test]
fn process_payment_advances_the_schedule() {
    let mut s = with_one_asset();
    s.create_lease(1, LESSEE, 172800, 0).unwrap();
    let before = s.view_lease(1);
    let stats_before = s.view_asset_stats();
    s.process_payment(1, LESSEE, PERIOD).unwrap();
    let after = s.view_lease(1);
    assert_eq!(after.total_paid, before.total_paid + PRICE);
    assert_eq!(after.last_payment_time, PERIOD);
    assert_eq!(after.next_payment_time, PERIOD + PERIOD);
    let stats_after = s.view_asset_stats();
    assert_eq!(
        stats_after.total_xlm_processed,
        stats_before.total_xlm_processed + PRICE
    );
    assert_eq!(stats_after.active_leases, stats_before.active_leases);
}

#[test]
fn payment_clears_an_overdue_flag_and_its_count() {
    let mut s = with_one_asset();
    s.create_lease(1, LESSEE, MAX_DURATION, 0).unwrap();
    s.mark_lease_overdue(1, OWNER, PERIOD).unwrap();
    assert!(s.view_lease(1).is_overdue);
    assert_eq!(s.view_asset_stats().overdue_leases, 1);
    s.process_payment(1, LESSEE, PERIOD).unwrap();
    assert!(!s.view_lease(1).is_overdue);
    assert_eq!(s.view_asset_stats().overdue_leases, 0);
}

#[test]
fn end_lease_takes_lessee_or_owner_only() {
    let mut s = with_one_asset();
    s.create_lease(1, LESSEE, 172800, 0).unwrap();
    assert_eq!(s.end_lease(1, STRANGER), Err(LeaseError::Unauthorized));
    s.end_lease(1, LESSEE).unwrap();

    s.create_lease(1, LESSEE, 172800, 0).unwrap();
    s.end_lease(2, OWNER).unwrap();
}

#[test]
fn end_lease_releases_the_asset_and_counts() {
    let mut s = with_one_asset();
    s.create_lease(1, LESSEE, 172800, 0).unwrap();
    let before = s.view_asset_stats();
    s.end_lease(1, LESSEE).unwrap();
    let a = s.view_asset(1);
    assert!(a.is_available);
    assert_eq!(a.current_lease_id, 0);
    assert!(!s.view_lease(1).is_active);
    let after = s.view_asset_stats();
    assert_eq!(after.active_leases, before.active_leases - 1);
    assert_eq!(after.completed_leases, before.completed_leases + 1);
    assert_eq!(after.total_leases, before.total_leases);
}

#[test]
fn an_ended_lease_never_transitions_again() {
    let mut s = with_one_asset();
    s.create_lease(1, LESSEE, 172800, 0).unwrap();
    s.end_lease(1, LESSEE).unwrap();
    assert_eq!(s.end_lease(1, LESSEE), Err(LeaseError::InactiveLease));
    assert_eq!(s.end_lease(1, OWNER), Err(LeaseError::InactiveLease));
    assert_eq!(
        s.process_payment(1, LESSEE, PERIOD),
        Err(LeaseError::InactiveLease)
    );
    assert_eq!(
        s.mark_lease_overdue(1, OWNER, PERIOD),
        Err(LeaseError::InactiveLease)
    );
    let stats = s.view_asset_stats();
    assert_eq!(stats.completed_leases, 1);
    assert_eq!(stats.active_leases, 0);
}

#[test]
fn ending_an_overdue_lease_clears_the_overdue_count() {
    let mut s = with_one_asset();
    s.create_lease(1, LESSEE, MAX_DURATION, 0).unwrap();
    s.mark_lease_overdue(1, OWNER, PERIOD).unwrap();
    assert_eq!(s.view_asset_stats().overdue_leases, 1);
    s.end_lease(1, OWNER).unwrap();
    let stats = s.view_asset_stats();
    assert_eq!(stats.overdue_leases, 0);
    assert!(!s.view_lease(1).is_overdue);
}

#[test]
fn mark_lease_overdue_demands_the_owner() {
    let mut s = with_one_asset();
    s.create_lease(1, LESSEE, 172800, 0).unwrap();
    assert_eq!(
        s.mark_lease_overdue(1, LESSEE, PERIOD),
        Err(LeaseError::Unauthorized)
    );
    assert_eq!(
        s.mark_lease_overdue(1, STRANGER, PERIOD),
        Err(LeaseError::Unauthorized)
    );
}

#[test]
fn mark_lease_overdue_fails_before_the_payment_is_due() {
    let mut s = with_one_asset();
    s.create_lease(1, LESSEE, 172800, 0).unwrap();
    assert_eq!(
        s.mark_lease_overdue(1, OWNER, PERIOD - 1),
        Err(LeaseError::NotYetDue)
    );
    assert!(!s.view_lease(1).is_overdue);
    assert_eq!(s.view_asset_stats().overdue_leases, 0);
}

#[test]
fn mark_lease_overdue_counts_once_per_window() {
    let mut s = with_one_asset();
    s.create_lease(1, LESSEE, MAX_DURATION, 0).unwrap();
    s.mark_lease_overdue(1, OWNER, PERIOD).unwrap();
    assert!(s.view_lease(1).is_overdue);
    assert_eq!(s.view_asset_stats().overdue_leases, 1);
    // a second marking in the same window cannot inflate the counter
    s.mark_lease_overdue(1, OWNER, PERIOD + 1).unwrap();
    assert_eq!(s.view_asset_stats().overdue_leases, 1);
    // after a payment opens a new window, marking counts again
    s.process_payment(1, LESSEE, PERIOD).unwrap();
    assert_eq!(s.view_asset_stats().overdue_leases, 0);
    s.mark_lease_overdue(1, OWNER, 2 * PERIOD).unwrap();
    assert_eq!(s.view_asset_stats().overdue_leases, 1);
}

#[test]
fn listings_filter_by_owner_and_lessee() {
    let mut s = RentPaymentContract::new();
    s.register_asset(OWNER, "a".to_string(), "x".to_string(), 1, 10, 10, 100, 0);
    s.register_asset(STRANGER, "b".to_string(), "y".to_string(), 1, 10, 10, 100, 0);
    s.register_asset(OWNER, "c".to_string(), "z".to_string(), 1, 10, 10, 100, 0);
    assert_eq!(s.get_owner_assets(OWNER), vec![1, 3]);
    assert_eq!(s.get_owner_assets(STRANGER), vec![2]);
    assert_eq!(s.get_owner_assets(LESSEE), Vec::<u64>::new());

    s.create_lease(1, LESSEE, 50, 0).unwrap();
    s.create_lease(2, LESSEE, 50, 0).unwrap();
    s.create_lease(3, STRANGER, 50, 0).unwrap();
    assert_eq!(s.get_lessee_leases(LESSEE), vec![1, 2]);
    assert_eq!(s.get_lessee_leases(STRANGER), vec![3]);
    // only active leases are listed
    s.end_lease(1, LESSEE).unwrap();
    assert_eq!(s.get_lessee_leases(LESSEE), vec![2]);
}

#[test]
fn end_to_end_single_lease_term() {
    let mut s = RentPaymentContract::new();
    let asset_id = s.register_asset(
        OWNER,
        "flat".to_string(),
        "one-room flat".to_string(),
        100,
        86400,
        86400,
        2592000,
        500,
    );
    assert_eq!(asset_id, 1);

    let lease_id = s.create_lease(asset_id, LESSEE, 172800, 0).unwrap();
    assert_eq!(lease_id, 1);
    let l = s.view_lease(lease_id);
    assert_eq!(l.total_paid, 600);
    assert_eq!(l.next_payment_time, 86400);

    s.process_payment(lease_id, LESSEE, 86400).unwrap();
    let l = s.view_lease(lease_id);
    assert_eq!(l.total_paid, 700);
    assert_eq!(l.next_payment_time, 172800);

    s.end_lease(lease_id, LESSEE).unwrap();
    assert!(s.view_asset(asset_id).is_available);
    assert_eq!(s.view_asset_stats().completed_leases, 1);
}
