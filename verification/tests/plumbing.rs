use server::passwords::{hash_password, login_account_gate};
use server::schedule::available_slots;
use server::tokens::{claims_for_clock, LATEST_ISSUE_SECS};
use server::auth::UserRole;
use server::error::{store_error, StoreFailure};
use server::orders::{draft_number_for, draft_order_number};
use server::paging::{offset_of_fits, page_count, per_page_capped, MAX_PER_PAGE};
use server::payments::require_updated;
use server::schedule::{can_plan, BusinessHours};
use server::time::{Instant, CHRONO_MAX_SECS};
use server::tokens::{claims_at, issue_claims, whitelist_entry_at, TOKEN_TTL_SECS};

#[test]
fn store_failures_map_to_answers() {
    let e = store_error(StoreFailure::RowNotFound);
    assert_eq!((e.status_code(), e.message_text()), (404, "resource not found"));
    let e = store_error(StoreFailure::UniqueViolation);
    assert_eq!((e.status_code(), e.message_text()), (409, "resource already exists"));
    let e = store_error(StoreFailure::ForeignKeyViolation);
    assert_eq!((e.status_code(), e.message_text()), (422, "referenced resource does not exist"));
    let e = store_error(StoreFailure::Other("pool timed out".to_string()));
    assert_eq!((e.status_code(), e.message_text()), (500, "pool timed out"));
}

#[test]
fn page_sizes_are_capped() {
    assert_eq!(per_page_capped(0), 1);
    assert_eq!(per_page_capped(20), 20);
    assert_eq!(per_page_capped(MAX_PER_PAGE), MAX_PER_PAGE);
    assert_eq!(per_page_capped(5000), MAX_PER_PAGE);
}

#[test]
fn page_count_rounds_up() {
    assert_eq!(page_count(0, 20), 0);
    assert_eq!(page_count(-4, 20), 0);
    assert_eq!(page_count(1, 20), 1);
    assert_eq!(page_count(20, 20), 1);
    assert_eq!(page_count(21, 20), 2);
    assert_eq!(page_count(i64::MAX, 1), i64::MAX);
    assert_eq!(page_count(i64::MAX, 2), i64::MAX / 2 + 1);
}

#[test]
fn offsets_that_overflow_thirty_two_bits_are_detected() {
    assert!(offset_of_fits(0, u32::MAX));
    assert!(offset_of_fits(1, u32::MAX));
    assert!(!offset_of_fits(3, u32::MAX));
    assert!(offset_of_fits(65_536, 65_535));
    assert!(!offset_of_fits(65_537, 65_537));
}

#[test]
fn status_update_must_reach_a_row() {
    assert!(require_updated(1).is_ok());
    let e = require_updated(0).unwrap_err();
    assert_eq!((e.status_code(), e.message_text()), (404, "order not found"));
}

#[test]
fn draft_numbers_carry_the_hyphenated_id() {
    assert_eq!(
        draft_number_for(0x0190_a1b2_c3d4_7e5f_8a9b_0c1d_2e3f_4a5b),
        "DRAFT-0190a1b2-c3d4-7e5f-8a9b-0c1d2e3f4a5b"
    );
    let n = draft_order_number();
    assert!(n.starts_with("DRAFT-"));
    assert_eq!(n.len(), 6 + 36);
}

#[test]
fn planning_is_refused_near_the_end_of_time() {
    let h = BusinessHours { start_hour: 9, end_hour: 18, slot_minutes: 30 };
    let from = Instant { secs: 1_704_067_200, nanos: 0 };
    assert!(can_plan(&from, &from, &h));
    let end = Instant { secs: CHRONO_MAX_SECS - 10, nanos: 0 };
    // On chrono's last day, 18:00 plus one slot still fits ...
    assert!(can_plan(&end, &end, &h));
    // ... but a slot past 23:00 of 61 minutes does not.
    let late = BusinessHours { start_hour: 9, end_hour: 23, slot_minutes: 61 };
    assert!(!can_plan(&end, &end, &late));
    let late_ok = BusinessHours { start_hour: 9, end_hour: 23, slot_minutes: 59 };
    assert!(can_plan(&end, &end, &late_ok));
    let bad = BusinessHours { start_hour: 9, end_hour: 18, slot_minutes: 0 };
    assert!(!can_plan(&from, &from, &bad));
    let closed = BusinessHours { start_hour: 18, end_hour: 9, slot_minutes: 0 };
    assert!(can_plan(&from, &from, &closed));
}

#[test]
fn instant_validity() {
    assert!(Instant { secs: 0, nanos: 0 }.is_valid());
    assert!(Instant { secs: 59, nanos: 1_500_000_000 }.is_valid());
    assert!(!Instant { secs: 58, nanos: 1_500_000_000 }.is_valid());
    assert!(Instant { secs: -1, nanos: 1_000_000_000 }.is_valid());
    assert!(!Instant { secs: CHRONO_MAX_SECS + 1, nanos: 0 }.is_valid());
}

#[test]
fn issued_token_lives_one_day() {
    let c = claims_at(7, UserRole::Employee, 1_000, "abc".to_string());
    assert_eq!((c.sub, c.role, c.exp, c.jti.as_str()), (7, UserRole::Employee, 1_000 + 86_400, "abc"));
    let w = whitelist_entry_at(&c, 1_000).unwrap();
    assert_eq!(w.ttl, TOKEN_TTL_SECS as u64);

    let c = issue_claims(42, UserRole::User).unwrap();
    assert_eq!((c.sub, c.role), (42, UserRole::User));
    assert_eq!(c.jti.len(), 36);
    assert!(c.exp as i64 >= TOKEN_TTL_SECS);
}

#[test]
fn clock_readings_outside_the_issuing_range_are_refused() {
    let c = claims_for_clock(9, UserRole::Admin, 1_700_000_000, "j".to_string()).unwrap();
    assert_eq!((c.sub, c.role, c.exp, c.jti.as_str()), (9, UserRole::Admin, 1_700_086_400, "j"));
    let c = claims_for_clock(9, UserRole::Admin, LATEST_ISSUE_SECS, "j".to_string()).unwrap();
    assert_eq!(c.exp, 4_000_000_000);
    for now in [-1, LATEST_ISSUE_SECS + 1, i64::MIN, i64::MAX] {
        let e = claims_for_clock(9, UserRole::Admin, now, "j".to_string()).unwrap_err();
        assert_eq!((e.status_code(), e.message_text()), (500, "system clock out of range"));
    }
}

#[test]
fn login_without_an_account_is_invalid_credentials() {
    let e = login_account_gate(None, "whatever1").unwrap_err();
    assert_eq!((e.status_code(), e.message_text()), (401, "invalid credentials"));
    let hash = hash_password("correct-horse").unwrap();
    assert!(login_account_gate(Some((true, hash.as_str())), "correct-horse").is_ok());
    let e = login_account_gate(Some((true, hash.as_str())), "wrong-horse").unwrap_err();
    assert_eq!((e.status_code(), e.message_text()), (401, "invalid credentials"));
    let e = login_account_gate(Some((false, hash.as_str())), "correct-horse").unwrap_err();
    assert_eq!((e.status_code(), e.message_text()), (403, "user account is inactive"));
}

#[test]
fn slot_count_stays_within_business_hours() {
    let h = BusinessHours { start_hour: 9, end_hour: 11, slot_minutes: 50 };
    let from = Instant { secs: 1_704_067_200, nanos: 0 };
    let to = Instant { secs: 1_704_067_200 + 2 * 86_400, nanos: 0 };
    let slots = available_slots(from, to, &vec![], &h).unwrap();
    // 09:00, 09:50, 10:40 on each of the two full days, none on the last midnight.
    assert_eq!(slots.len(), 6);
    assert!((slots.len() as i64) * 3000 <= 3 * (7200 + 3000 - 1));
}

#[test]
fn role_codes_read_back_in_either_case() {
    for role in [UserRole::User, UserRole::Employee, UserRole::Admin] {
        assert_eq!(UserRole::try_from(role.as_str()), Ok(role));
        assert_eq!(UserRole::try_from(role.as_str().to_uppercase().as_str()), Ok(role));
    }
    assert_eq!(UserRole::try_from("manager"), Err("Unknown role: manager".to_string()));
}

#[test]
fn last_plannable_day_gets_its_slots() {
    // The day before chrono's last day can be planned; the last day itself
    // is refused because the day after it cannot be formed.
    let h = BusinessHours { start_hour: 9, end_hour: 11, slot_minutes: 60 };
    let last_day_start = CHRONO_MAX_SECS - 86_399;
    let from = Instant { secs: last_day_start - 86_400, nanos: 0 };
    let to = Instant { secs: last_day_start - 1, nanos: 0 };
    assert!(can_plan(&from, &to, &h));
    assert_eq!(available_slots(from, to, &vec![], &h).unwrap().len(), 2);
}
