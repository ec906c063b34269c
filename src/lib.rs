//! Watches a public vaccination-slot feed for a fixed list of districts and
//! decides which findings are worth a channel message.
//!
//! - `slots`: which sessions are reported, one slot per center.
//! - `scanner`: a district's scan, week by week across a lookahead window.
//! - `client`: the request address and the retry policy of a fetch.
//! - `seen`: the cache that keeps an unchanged result from being sent twice.
//! - `message`: the channel message, within a byte budget.
//! - `watch`: the watched districts and what one scan leads to.
mod calendar;
mod client;
mod digits;
mod feed;
mod markdown;
mod message;
mod scanner;
mod seen;
mod slots;
mod watch;

pub use calendar::{
    day_in_range, days_since_monday, dmy_text, weekday_offset, LAST_DAY, LAST_FETCH_DAY,
};
pub use client::{
    after_attempt, attempt_kind, backoff, capped, classify, jitter, next_step, request_url,
    retry_delay, url_text, Attempt, RetryPolicy, RetryStep, CALENDAR_ENDPOINT,
    RATE_LIMIT_COOLDOWN_MS, REQUEST_SPACING_MS, USER_AGENT,
};
pub use digits::{decimal, decimal_text, digit_char};
pub use feed::{Center, Root, Session, VaccineFee};
pub use markdown::{
    bold_text, code_escaped, code_inline_text, escaped, is_markdown_special, underline_text,
};
pub use message::{
    byte_len, entries_text, entry, entry_text, format_message, header, header_text, kept,
    kept_from, lemma_byte_len_concat, lemma_truncated_message_fits, message_text, message_with,
    start_text, MESSAGE_BUDGET,
};
pub use scanner::{
    fetch_day, fetches_from, lemma_empty_scan_fetches_once_per_week, planned_fetch, step_for_week,
    week_in_window, Scan, ScanConfig, ScanStep, ScanStepView,
};
pub use seen::{after_check, is_news, lemma_reordered_is_news, lemma_repeat_is_not_news, SeenCache};
pub use slots::{
    center_slot, copy_slots, eligible, eligible_slots, first_eligible_from, first_slot,
    is_eligible, lemma_no_slot_from_low_capacity, lemma_no_slot_from_senior_sessions,
    lemma_one_slot_per_center, lemma_slots_come_from_eligible_sessions, same_slots, slot_from,
    slot_of, slots_of, slots_view, Slot, SlotView, DEFAULT_CAPACITY_THRESHOLD, SENIOR_AGE_LIMIT,
};
pub use watch::{notification_for, MONITORED_DISTRICTS};
