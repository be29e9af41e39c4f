use server::schedule::{
    available_slot_responses, available_slots, day_plan_window, AppointmentResponse,
    AppointmentRow, AvailableSlotsQuery, BusinessHours, CreateAppointmentRequest,
    CreateAppointmentRequestValid, EmployeeDayPlanQuery, LAST_DAY,
};
use server::reports::ReportPeriodParams;
use server::time::Instant;

// 2024-01-01T00:00:00Z
const JAN1: i64 = 1_704_067_200;

fn at(secs: i64) -> Instant {
    Instant { secs, nanos: 0 }
}

fn hours(start: u32, end: u32, minutes: i64) -> BusinessHours {
    BusinessHours { start_hour: start, end_hour: end, slot_minutes: minutes }
}

#[test]
fn rfc3339_parse_and_format() {
    let q = ReportPeriodParams {
        date_from: "2024-01-01T09:30:00+02:00".to_string(),
        date_to: "2024-01-01T00:00:00.5+00:00".to_string(),
    };
    let e = q.parse().unwrap_err();
    assert_eq!(e.message_text(), "date_to must be greater than or equal to date_from");
    let q = ReportPeriodParams {
        date_from: "2024-01-01T00:00:00.5Z".to_string(),
        date_to: "2024-01-01T09:30:00+02:00".to_string(),
    };
    let (from, to) = q.parse().unwrap();
    assert_eq!(from, Instant { secs: JAN1, nanos: 500_000_000 });
    assert_eq!(to, at(JAN1 + 7 * 3600 + 1800));
    let r = AppointmentResponse::from_row(AppointmentRow {
        id: 1,
        order_id: 2,
        employee_user_id: None,
        scheduled_at: to,
        location: "Kyiv".to_string(),
        appointment_status: "reserved".to_string(),
    });
    assert_eq!(r.scheduled_at, "2024-01-01T07:30:00+00:00");
    let bad = ReportPeriodParams { date_from: "2024-01-01".to_string(), date_to: "2024-01-02".to_string() };
    assert_eq!(bad.parse().unwrap_err().message_text(), "date_from must be RFC3339");
}

#[test]
fn slot_query_parsing() {
    let q = AvailableSlotsQuery {
        date_from: " 2024-01-01T00:00:00Z ".to_string(),
        date_to: "2024-01-02T00:00:00Z".to_string(),
    };
    assert_eq!(q.parse_range().unwrap(), (at(JAN1), at(JAN1 + 86400)));

    let bad_from = AvailableSlotsQuery { date_from: "x".to_string(), date_to: "y".to_string() };
    let e = bad_from.parse_range().unwrap_err();
    assert_eq!((e.status_code(), e.message_text()), (422, "date_from must be RFC3339"));

    let bad_to = AvailableSlotsQuery {
        date_from: "2024-01-01T00:00:00Z".to_string(),
        date_to: "y".to_string(),
    };
    assert_eq!(bad_to.parse_range().unwrap_err().message_text(), "date_to must be RFC3339");

    let reversed = AvailableSlotsQuery {
        date_from: "2024-01-02T00:00:00Z".to_string(),
        date_to: "2024-01-01T00:00:00Z".to_string(),
    };
    assert_eq!(
        reversed.parse_range().unwrap_err().message_text(),
        "date_to must be greater than or equal to date_from"
    );
}

#[test]
fn report_period_parsing() {
    let p = ReportPeriodParams {
        date_from: "2024-01-01T00:00:00Z".to_string(),
        date_to: "2024-01-01T00:00:00Z".to_string(),
    };
    assert_eq!(p.parse().unwrap(), (at(JAN1), at(JAN1)));
    let p = ReportPeriodParams { date_from: "".to_string(), date_to: "".to_string() };
    assert!(p.parse().is_err());
}

#[test]
fn slots_of_one_day() {
    let booked = vec![at(JAN1 + 10 * 3600)];
    let slots = available_slots(at(JAN1), at(JAN1 + 86399), &booked, &hours(9, 12, 60)).unwrap();
    let starts: Vec<i64> = slots.iter().map(|s| s.at.secs).collect();
    assert_eq!(starts, vec![JAN1 + 9 * 3600, JAN1 + 10 * 3600, JAN1 + 11 * 3600]);
    let free: Vec<bool> = slots.iter().map(|s| s.is_available).collect();
    assert_eq!(free, vec![true, false, true]);
}

#[test]
fn slots_are_clipped_to_the_period() {
    let slots = available_slots(
        at(JAN1 + 9 * 3600 + 1),
        at(JAN1 + 86400 + 9 * 3600 + 1800),
        &vec![],
        &hours(9, 11, 30),
    )
    .unwrap();
    let starts: Vec<i64> = slots.iter().map(|s| s.at.secs - JAN1).collect();
    assert_eq!(
        starts,
        vec![9 * 3600 + 1800, 10 * 3600, 10 * 3600 + 1800, 86400 + 9 * 3600, 86400 + 9 * 3600 + 1800]
    );
    assert!(slots.iter().all(|s| s.is_available));
}

#[test]
fn slot_grid_does_not_pass_closing() {
    // 45-minute slots from 9 to 11: 9:00, 9:45, 10:30
    let slots = available_slots(at(JAN1), at(JAN1 + 86399), &vec![], &hours(9, 11, 45)).unwrap();
    let starts: Vec<i64> = slots.iter().map(|s| s.at.secs - JAN1).collect();
    assert_eq!(starts, vec![9 * 3600, 9 * 3600 + 2700, 9 * 3600 + 5400]);
}

#[test]
fn booking_with_subsecond_does_not_block_slot() {
    let booked = vec![Instant { secs: JAN1 + 9 * 3600, nanos: 1 }];
    let slots = available_slots(at(JAN1), at(JAN1 + 86399), &booked, &hours(9, 10, 60)).unwrap();
    assert_eq!(slots.len(), 1);
    assert!(slots[0].is_available);
}

#[test]
fn closed_hours_give_no_slots() {
    assert!(available_slots(at(JAN1), at(JAN1 + 86399), &vec![], &hours(12, 9, 0)).unwrap().is_empty());
    assert!(available_slots(at(JAN1 + 86400), at(JAN1), &vec![], &hours(30, 9, 0)).unwrap().is_empty());
}

#[test]
fn invalid_hours_are_internal_errors() {
    let e = available_slots(at(JAN1), at(JAN1), &vec![], &hours(24, 10, 60)).unwrap_err();
    assert_eq!((e.status_code(), e.message_text()), (500, "invalid business start hour"));
    let e = available_slots(at(JAN1), at(JAN1), &vec![], &hours(9, 25, 60)).unwrap_err();
    assert_eq!(e.message_text(), "invalid business end hour");
}

#[test]
fn last_representable_day_cannot_be_passed() {
    let last = LAST_DAY * 86400;
    let e = available_slots(at(last), at(last + 100), &vec![], &hours(9, 9, 0)).unwrap_err();
    assert_eq!(e.message_text(), "failed to increment date");
}

#[test]
fn slot_responses_are_rfc3339() {
    let r = available_slot_responses(at(JAN1), at(JAN1 + 86399), &vec![at(JAN1 + 9 * 3600)], &hours(9, 10, 30)).unwrap();
    assert_eq!(r.len(), 2);
    assert_eq!(r[0].scheduled_at, "2024-01-01T09:00:00+00:00");
    assert!(!r[0].is_available);
    assert_eq!(r[1].scheduled_at, "2024-01-01T09:30:00+00:00");
    assert!(r[1].is_available);
}

#[test]
fn appointment_request_validation() {
    let v = CreateAppointmentRequestValid::try_from(CreateAppointmentRequest {
        scheduled_at: "2024-01-01T09:00:00Z".to_string(),
        location: "  Kyiv, Khreshchatyk 1 ".to_string(),
    })
    .unwrap();
    assert_eq!(v.scheduled_at, at(JAN1 + 9 * 3600));
    assert_eq!(v.location, "Kyiv, Khreshchatyk 1");
    let e = CreateAppointmentRequestValid::try_from(CreateAppointmentRequest {
        scheduled_at: "tomorrow".to_string(),
        location: "x".to_string(),
    })
    .unwrap_err();
    assert_eq!(e.message_text(), "scheduled_at must be RFC3339");
    let e = CreateAppointmentRequestValid::try_from(CreateAppointmentRequest {
        scheduled_at: "2024-01-01T09:00:00Z".to_string(),
        location: "x".to_string(),
    })
    .unwrap_err();
    assert_eq!(e.message_text(), "location must contain from 3 to 255 characters");
}

#[test]
fn day_plan_query_and_window() {
    let q = EmployeeDayPlanQuery { day: " 2024-01-01 ".to_string() };
    let midnight = q.parse_day().unwrap();
    assert_eq!(midnight, JAN1);
    assert_eq!(day_plan_window(midnight), (at(JAN1), at(JAN1 + 86400)));
    let e = EmployeeDayPlanQuery { day: "01.01.2024".to_string() }.parse_day().unwrap_err();
    assert_eq!((e.status_code(), e.message_text()), (422, "day must be YYYY-MM-DD"));
}

#[test]
fn appointment_response_from_row() {
    let r = AppointmentResponse::from_row(AppointmentRow {
        id: 1,
        order_id: 2,
        employee_user_id: Some(3),
        scheduled_at: at(JAN1),
        location: "Office".to_string(),
        appointment_status: "scheduled".to_string(),
    });
    assert_eq!(r.scheduled_at, "2024-01-01T00:00:00+00:00");
    assert_eq!((r.id, r.order_id, r.employee_user_id), (1, 2, Some(3)));
    assert_eq!(r.location, "Office");
}
