use chrono::{Datelike, NaiveDate};
use vaccine_alerts::{
    after_attempt, classify, decimal, eligible_slots, first_slot, format_message, header,
    is_eligible, request_url, notification_for, start_text, weekday_offset, Attempt, Center,
    RetryPolicy, RetryStep, Root, Scan, ScanConfig, ScanStep, SeenCache, Session, Slot,
    MESSAGE_BUDGET, MONITORED_DISTRICTS, RATE_LIMIT_COOLDOWN_MS,
};

fn day(y: i32, m: u32, d: u32) -> i32 {
    NaiveDate::from_ymd_opt(y, m, d).unwrap().num_days_from_ce()
}

fn session(date: &str, capacity: u64, min_age: u64, vaccine: &str) -> Session {
    Session {
        session_id: format!("s-{}-{}", date, capacity),
        date: date.to_string(),
        available_capacity: capacity,
        min_age_limit: min_age,
        vaccine: vaccine.to_string(),
        ..Session::default()
    }
}

fn center(name: &str, pincode: u64, sessions: Vec<Session>) -> Center {
    Center { name: name.to_string(), pincode, sessions, ..Center::default() }
}

fn slot(name: &str, capacity: &str) -> Slot {
    Slot {
        center_name: name.to_string(),
        pincode: "530001".to_string(),
        available_capacity: capacity.to_string(),
        vaccine_name: Some("Covaxin".to_string()),
        date: "01-06-2021".to_string(),
    }
}

fn fetched_url(step: &ScanStep) -> Option<String> {
    match step {
        ScanStep::Fetch { url } => Some(url.clone()),
        ScanStep::Finished(_) => None,
    }
}

fn unescaped(text: &str) -> String {
    text.replace('\\', "")
}

#[test]
fn decimal_renders_digits() {
    assert_eq!(decimal(0), "0");
    assert_eq!(decimal(7), "7");
    assert_eq!(decimal(530001), "530001");
    assert_eq!(decimal(u64::MAX), "18446744073709551615");
}

#[test]
fn senior_sessions_are_never_eligible() {
    let s = session("01-06-2021", 500, 45, "Covishield");
    assert!(!is_eligible(&s, 1));
    let c = center("Senior Hall", 530001, vec![s, session("02-06-2021", 90, 60, "")]);
    assert!(first_slot(&c, 1).is_none());
}

#[test]
fn sessions_at_or_below_threshold_are_not_eligible() {
    assert!(!is_eligible(&session("01-06-2021", 1, 18, ""), 1));
    assert!(!is_eligible(&session("01-06-2021", 0, 18, ""), 1));
    assert!(!is_eligible(&session("01-06-2021", 5, 18, ""), 5));
    assert!(is_eligible(&session("01-06-2021", 2, 18, ""), 1));
    let root = Root {
        centers: vec![center("Tiny", 1, vec![session("01-06-2021", 1, 18, "Covaxin")])],
    };
    assert!(eligible_slots(&root, 1).is_empty());
}

#[test]
fn one_slot_per_center_from_first_eligible_session() {
    let c = center(
        "City Hospital",
        560001,
        vec![
            session("01-06-2021", 50, 45, "Covishield"),
            session("02-06-2021", 7, 18, "Covaxin"),
            session("03-06-2021", 90, 18, "Sputnik"),
        ],
    );
    let root = Root { centers: vec![c, center("Empty", 2, vec![])] };
    let slots = eligible_slots(&root, 1);
    assert_eq!(slots.len(), 1);
    assert_eq!(slots[0].center_name, "City Hospital");
    assert_eq!(slots[0].pincode, "560001");
    assert_eq!(slots[0].available_capacity, "7");
    assert_eq!(slots[0].date, "02-06-2021");
    assert_eq!(slots[0].vaccine_name.as_deref(), Some("Covaxin"));
}

#[test]
fn empty_vaccine_name_is_absent() {
    let c = center("Clinic", 3, vec![session("01-06-2021", 9, 18, "")]);
    let s = first_slot(&c, 1).unwrap();
    assert!(s.vaccine_name.is_none());
}

#[test]
fn slots_keep_feed_order_across_centers() {
    let root = Root {
        centers: vec![
            center("A", 1, vec![session("01-06-2021", 3, 18, "")]),
            center("B", 2, vec![session("01-06-2021", 1, 18, "")]),
            center("C", 3, vec![session("01-06-2021", 4, 30, "")]),
        ],
    };
    let slots = eligible_slots(&root, 1);
    let names: Vec<&str> = slots.iter().map(|s| s.center_name.as_str()).collect();
    assert_eq!(names, vec!["A", "C"]);
}

#[test]
fn repeated_result_is_novel_then_not() {
    let mut seen = SeenCache::new();
    let result = vec![slot("A", "5"), slot("B", "6")];
    assert!(seen.is_novel(8, &result));
    assert!(!seen.is_novel(8, &result));
    assert!(seen.is_novel(49, &result));
}

#[test]
fn reordered_result_is_novel() {
    let mut seen = SeenCache::new();
    assert!(seen.is_novel(8, &vec![slot("A", "5"), slot("B", "6")]));
    assert!(seen.is_novel(8, &vec![slot("B", "6"), slot("A", "5")]));
    assert!(!seen.is_novel(8, &vec![slot("B", "6"), slot("A", "5")]));
}

#[test]
fn changed_field_is_novel() {
    let mut seen = SeenCache::new();
    assert!(seen.is_novel(8, &vec![slot("A", "5")]));
    assert!(seen.is_novel(8, &vec![slot("A", "6")]));
    assert!(seen.is_novel(8, &vec![]));
    assert!(!seen.is_novel(8, &vec![]));
}

fn fetches_until_done(window_days: u16, today: i32) -> (usize, Vec<String>) {
    let config = ScanConfig { window_days, capacity_threshold: 1 };
    let (mut scan, mut step) = Scan::start(8, today, &config);
    let empty = Root { centers: vec![center("Full", 1, vec![session("x", 0, 18, "")])] };
    let mut urls = Vec::new();
    while let Some(url) = fetched_url(&step) {
        urls.push(url);
        step = scan.on_response(Some(&empty));
    }
    assert!(matches!(step, ScanStep::Finished(None)));
    (urls.len(), urls)
}

#[test]
fn lookahead_fetches_once_per_week() {
    let tuesday = day(2021, 6, 1);
    assert_eq!(fetches_until_done(21, tuesday).0, 3);
    assert_eq!(fetches_until_done(15, tuesday).0, 3);
    assert_eq!(fetches_until_done(14, tuesday).0, 2);
    assert_eq!(fetches_until_done(10, tuesday).0, 2);
    assert_eq!(fetches_until_done(7, tuesday).0, 1);
    assert_eq!(fetches_until_done(1, tuesday).0, 1);
    assert_eq!(fetches_until_done(0, tuesday).0, 0);
    assert_eq!(fetches_until_done(21, day(2021, 6, 7)).0, 3);
}

#[test]
fn lookahead_jumps_to_mondays() {
    let (_, urls) = fetches_until_done(21, day(2021, 6, 1));
    assert!(urls[0].ends_with("?district_id=8&date=01-06-2021"));
    assert!(urls[1].ends_with("?district_id=8&date=07-06-2021"));
    assert!(urls[2].ends_with("?district_id=8&date=14-06-2021"));
}

#[test]
fn weekday_offset_counts_from_monday() {
    assert_eq!(weekday_offset(1), 0);
    assert_eq!(weekday_offset(day(2021, 6, 7)), 0);
    assert_eq!(weekday_offset(day(2021, 6, 1)), 1);
    assert_eq!(weekday_offset(day(2021, 6, 6)), 6);
}

#[test]
fn request_url_is_templated() {
    assert_eq!(
        request_url(265, "14-06-2021"),
        "https://cdn-api.co-vin.in/api/v2/appointment/sessions/public/calendarByDistrict?district_id=265&date=14-06-2021"
    );
}

#[test]
fn failed_fetch_ends_scan_without_result() {
    let config = ScanConfig::standard();
    let (mut scan, first) = Scan::start(8, day(2021, 6, 1), &config);
    assert!(fetched_url(&first).is_some());
    assert!(matches!(scan.on_response(None), ScanStep::Finished(None)));
}

#[test]
fn scan_out_of_calendar_ends_at_once() {
    let config = ScanConfig::standard();
    let (_, first) = Scan::start(8, 0, &config);
    assert!(matches!(first, ScanStep::Finished(None)));
}

#[test]
fn message_layout_is_exact() {
    let text = format_message("Visakhapatnam", &vec![slot("GVMC (Main)", "5")], MESSAGE_BUDGET);
    assert_eq!(
        text,
        "__*Visakhapatnam*__\n\n`GVMC (Main)` \\| *530001*\n*5* doses \\| 01\\-06\\-2021 \\| *Covaxin*"
    );
    let mut plain = slot("A", "9");
    plain.vaccine_name = None;
    assert_eq!(
        format_message("Pune", &vec![plain], MESSAGE_BUDGET),
        "__*Pune*__\n\n`A` \\| *530001*\n*9* doses \\| 01\\-06\\-2021"
    );
}

#[test]
fn header_escapes_reserved_characters() {
    assert_eq!(header("Jaipur I-II"), "__*Jaipur I\\-II*__");
    assert_eq!(header("North_Goa"), "__*North\\_Goa*__");
    assert_eq!(format_message("Pune", &vec![], MESSAGE_BUDGET), "__*Pune*__");
}

#[test]
fn code_span_escapes_backticks() {
    let text = format_message("X", &vec![slot("a`b", "5")], MESSAGE_BUDGET);
    assert!(text.contains("`a\\`b`"));
}

#[test]
fn truncated_message_keeps_whole_leading_entries() {
    let slots: Vec<Slot> = (0..40).map(|i| slot(&format!("Center number {}", i), "12")).collect();
    let full = format_message("Bangalore Urban", &slots, usize::MAX);
    assert!(full.len() > MESSAGE_BUDGET);
    let text = format_message("Bangalore Urban", &slots, MESSAGE_BUDGET);
    assert!(text.len() <= MESSAGE_BUDGET);
    assert!(full.starts_with(&text));
    let kept = text.matches("doses").count();
    assert!(kept >= 1 && kept < slots.len());
    let one_more = format_message("Bangalore Urban", &slots[..kept + 1].iter().map(|s| s.copy()).collect(), usize::MAX);
    assert!(one_more.len() > MESSAGE_BUDGET);
    assert!(text.ends_with("*Covaxin*"));
}

#[test]
fn budget_counts_bytes_not_characters() {
    let slots = vec![slot("अस्पताल", "5")];
    let full = format_message("Pune", &slots, usize::MAX);
    assert!(full.len() > full.chars().count());
    assert_eq!(format_message("Pune", &slots, full.len()), full);
    assert_eq!(format_message("Pune", &slots, full.len() - 1), "__*Pune*__");
}

#[test]
fn oversized_header_gives_empty_message() {
    let text = format_message("Visakhapatnam", &vec![slot("A", "5")], 4);
    assert_eq!(text, "");
}

#[test]
fn long_district_name_stays_within_budget() {
    let name = "Very Long District Name ".repeat(22);
    assert!(header(&name).len() > MESSAGE_BUDGET);
    let slots = vec![slot("A", "5"), slot("B", "6")];
    let text = format_message(&name, &slots, MESSAGE_BUDGET);
    assert!(text.len() <= MESSAGE_BUDGET);
    assert_eq!(text, "");
    let mut seen = SeenCache::new();
    let note = notification_for(&mut seen, 8, &name, Some(slots), MESSAGE_BUDGET);
    assert_eq!(note.as_deref(), Some(""));
}

#[test]
fn heading_that_just_fits_is_kept() {
    let text = format_message("Pune", &vec![slot("A", "5")], 10);
    assert_eq!(text, "__*Pune*__");
}

#[test]
fn long_lookahead_window_is_planned_whole() {
    let (n, urls) = fetches_until_done(u16::MAX, day(2021, 6, 1));
    assert_eq!(n, (u16::MAX as usize + 6) / 7);
    assert!(urls[n - 1].contains("&date="));
}

#[test]
fn start_note_quotes_time() {
    assert_eq!(
        start_text("Tue, 1 Jun 2021 10:00:00 +0530"),
        "Vaccine scanning started at `Tue, 1 Jun 2021 10:00:00 +0530`"
    );
}

#[test]
fn attempts_are_classified() {
    assert_eq!(classify(Some(200), true), Attempt::Data);
    assert_eq!(classify(Some(200), false), Attempt::NoData);
    assert_eq!(classify(Some(500), true), Attempt::NoData);
    assert_eq!(classify(Some(403), true), Attempt::RateLimited);
    assert_eq!(classify(None, false), Attempt::TransportError);
}

#[test]
fn network_failures_back_off_exponentially() {
    let p = RetryPolicy::standard();
    assert_eq!(after_attempt(&p, 1, 0, Attempt::TransportError, 0), RetryStep::Retry { delay_ms: 1000 });
    assert_eq!(after_attempt(&p, 2, 1000, Attempt::TransportError, 1250), RetryStep::Retry { delay_ms: 2250 });
    assert_eq!(after_attempt(&p, 3, 4000, Attempt::TransportError, 999), RetryStep::Retry { delay_ms: 4999 });
    assert_eq!(after_attempt(&p, 4, 9000, Attempt::TransportError, 0), RetryStep::GiveUp);
    assert_eq!(after_attempt(&p, 3, 27000, Attempt::TransportError, 0), RetryStep::GiveUp);
}

#[test]
fn retry_delay_saturates() {
    let p = RetryPolicy { max_attempts: 100, base_delay_ms: 10, multiplier: 1000, max_elapsed_ms: u64::MAX };
    assert_eq!(after_attempt(&p, 30, 0, Attempt::TransportError, 3), RetryStep::Retry { delay_ms: u64::MAX });
    let flat = RetryPolicy { max_attempts: 5, base_delay_ms: 0, multiplier: 0, max_elapsed_ms: 10 };
    assert_eq!(after_attempt(&flat, 3, 10, Attempt::TransportError, 77), RetryStep::Retry { delay_ms: 0 });
}

#[test]
fn answers_are_not_retried() {
    let p = RetryPolicy::standard();
    assert_eq!(after_attempt(&p, 1, 0, Attempt::Data, 5), RetryStep::Accept);
    assert_eq!(after_attempt(&p, 1, 0, Attempt::NoData, 5), RetryStep::GiveUp);
}

fn visakhapatnam_answer() -> Root {
    Root {
        centers: vec![center(
            "GVMC Hospital",
            530001,
            vec![session("01-06-2021", 5, 18, "Covaxin")],
        )],
    }
}

#[test]
fn first_sighting_is_sent() {
    let (id, name) = MONITORED_DISTRICTS[0];
    assert_eq!((id, name), (8, "Visakhapatnam"));
    let config = ScanConfig::standard();
    let (mut scan, first) = Scan::start(id, day(2021, 6, 1), &config);
    assert!(fetched_url(&first).is_some());
    let result = match scan.on_response(Some(&visakhapatnam_answer())) {
        ScanStep::Finished(Some(slots)) => slots,
        _ => panic!("expected slots"),
    };
    assert_eq!(result.len(), 1);
    let mut seen = SeenCache::new();
    let text = notification_for(&mut seen, id, name, Some(result), MESSAGE_BUDGET).unwrap();
    let shown = unescaped(&text);
    for part in ["Visakhapatnam", "GVMC Hospital", "530001", "5", "01-06-2021", "Covaxin"] {
        assert!(shown.contains(part), "{} missing from {}", part, text);
    }
}

#[test]
fn identical_rescan_is_not_sent() {
    let (id, name) = MONITORED_DISTRICTS[0];
    let mut seen = SeenCache::new();
    let root = visakhapatnam_answer();
    let first = eligible_slots(&root, 1);
    assert!(notification_for(&mut seen, id, name, Some(first), MESSAGE_BUDGET).is_some());
    let second = eligible_slots(&root, 1);
    assert!(notification_for(&mut seen, id, name, Some(second), MESSAGE_BUDGET).is_none());
}

#[test]
fn rate_limited_scan_sends_nothing_and_keeps_cache() {
    let (id, name) = MONITORED_DISTRICTS[0];
    let mut seen = SeenCache::new();
    let earlier = eligible_slots(&visakhapatnam_answer(), 1);
    assert!(notification_for(&mut seen, id, name, Some(earlier), MESSAGE_BUDGET).is_some());

    let kind = classify(Some(403), false);
    assert_eq!(kind, Attempt::RateLimited);
    assert_eq!(
        after_attempt(&RetryPolicy::standard(), 1, 0, kind, 0),
        RetryStep::CoolDown { delay_ms: RATE_LIMIT_COOLDOWN_MS }
    );
    let (mut scan, _) = Scan::start(id, day(2021, 6, 1), &ScanConfig::standard());
    let outcome = match scan.on_response(None) {
        ScanStep::Finished(r) => r,
        ScanStep::Fetch { .. } => panic!("scan went on"),
    };
    assert!(outcome.is_none());
    assert!(notification_for(&mut seen, id, name, outcome, MESSAGE_BUDGET).is_none());
    let again = eligible_slots(&visakhapatnam_answer(), 1);
    assert!(!seen.is_novel(id, &again));
}

#[test]
fn district_table_is_complete() {
    assert_eq!(MONITORED_DISTRICTS.len(), 82);
    assert_eq!(MONITORED_DISTRICTS[81], (777, "Vadodara Corporation"));
}
