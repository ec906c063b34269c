use vstd::prelude::*;

use crate::calendar::{
    date_text, day_in_range, days_since_monday, dmy_text, weekday_offset, LAST_DAY, LAST_FETCH_DAY,
};
use crate::client::{request_url, url_text};
use crate::feed::Root;
use crate::slots::{eligible_slots, slots_of, slots_view, Slot, SlotView, DEFAULT_CAPACITY_THRESHOLD};

verus! {

/// How far ahead a scan looks and what it reports.
pub struct ScanConfig {
    /// The lookahead window, in days counted from the Monday that starts the
    /// current week. A scan fetches once for each week that starts inside it.
    pub window_days: u16,
    /// A session is reported when it has more doses left than this.
    pub capacity_threshold: u64,
}

impl ScanConfig {
    /// Three weeks ahead, reporting sessions with two or more doses left.
    pub fn standard() -> (r: ScanConfig)
        ensures
            r.window_days == 21,
            r.capacity_threshold == DEFAULT_CAPACITY_THRESHOLD,
    {
        ScanConfig { window_days: 21, capacity_threshold: DEFAULT_CAPACITY_THRESHOLD }
    }
}

/// Whether week `k` of a scan starts inside a window of `window_days` days.
pub open spec fn week_in_window(window_days: nat, k: nat) -> bool {
    7 * k < window_days
}

/// The day a scan fetches for week `k`: today for the current week, the
/// Monday that starts the week after that.
pub open spec fn fetch_day(today: int, k: nat) -> int {
    if k == 0 {
        today
    } else {
        today - days_since_monday(today) + 7 * k
    }
}

/// The address a scan fetches for week `k`, or `None` when the window is
/// exhausted or today lies outside the calendar the library works with.
pub open spec fn planned_fetch(district_id: u16, today: int, window_days: nat, k: nat) -> Option<
    Seq<char>,
> {
    if week_in_window(window_days, k) && day_in_range(today) {
        Some(url_text(district_id as nat, dmy_text(fetch_day(today, k))))
    } else {
        None
    }
}

/// What a scan asks for next.
pub enum ScanStep {
    /// Fetch this address and hand the answer to `Scan::on_response`.
    Fetch { url: String },
    /// The scan is over: the slots found, or `None` when nothing was found
    /// or a fetch failed.
    Finished(Option<Vec<Slot>>),
}

/// A scan step as text.
pub enum ScanStepView {
    Fetch(Seq<char>),
    Finished(Option<Seq<SlotView>>),
}

impl View for ScanStep {
    type V = ScanStepView;

    open spec fn view(&self) -> ScanStepView {
        match self {
            ScanStep::Fetch { url } => ScanStepView::Fetch(url@),
            ScanStep::Finished(Some(v)) => ScanStepView::Finished(Some(slots_view(v@))),
            ScanStep::Finished(None) => ScanStepView::Finished(None),
        }
    }
}

/// The step for week `k`: its fetch where one is planned, else the end of
/// the scan with nothing found.
pub open spec fn step_for_week(district_id: u16, today: int, window_days: nat, k: nat) -> ScanStepView {
    match planned_fetch(district_id, today, window_days, k) {
        Some(url) => ScanStepView::Fetch(url),
        None => ScanStepView::Finished(None),
    }
}

/// One district's scan across the lookahead window, week by week, until a
/// week shows slots.
pub struct Scan {
    pub district_id: u16,
    /// Today's day number.
    pub today: i32,
    /// The week whose answer the scan waits for.
    pub week: u32,
    pub window_days: u16,
    pub capacity_threshold: u64,
}

impl Scan {
    /// The scan is waiting for a fetch that its plan holds.
    pub open spec fn waiting(&self) -> bool {
        planned_fetch(self.district_id, self.today as int, self.window_days as nat, self.week as nat)
            is Some
    }

    fn step(&self) -> (r: ScanStep)
        ensures
            r@ == step_for_week(
                self.district_id,
                self.today as int,
                self.window_days as nat,
                self.week as nat,
            ),
    {
        if (self.week as u64) * 7 >= self.window_days as u64 || self.today < 1 || self.today
            > LAST_DAY {
            return ScanStep::Finished(None);
        }
        let day: i64 = if self.week == 0 {
            self.today as i64
        } else {
            self.today as i64 - weekday_offset(self.today) as i64 + 7 * (self.week as i64)
        };
        proof {
            assert(1 <= day <= LAST_FETCH_DAY);
        }
        let text = date_text(day as i32);
        ScanStep::Fetch { url: request_url(self.district_id, text.as_str()) }
    }

    /// Starts a scan of a district on day `today`: the first step fetches the
    /// current week from today on.
    pub fn start(district_id: u16, today: i32, config: &ScanConfig) -> (r: (Scan, ScanStep))
        ensures
            r.0.district_id == district_id,
            r.0.today == today,
            r.0.week == 0,
            r.0.window_days == config.window_days,
            r.0.capacity_threshold == config.capacity_threshold,
            r.1@ == step_for_week(district_id, today as int, config.window_days as nat, 0),
    {
        let scan = Scan {
            district_id,
            today,
            week: 0,
            window_days: config.window_days,
            capacity_threshold: config.capacity_threshold,
        };
        let first = scan.step();
        (scan, first)
    }

    /// Takes the answer to the pending fetch, or `None` when the fetch
    /// brought no usable data. A failed fetch ends the scan with no result.
    /// A week with eligible sessions ends it with their slots. An empty week
    /// moves the scan on to the next week, or ends it with no result when the
    /// window is exhausted.
    pub fn on_response(&mut self, response: Option<&Root>) -> (r: ScanStep)
        requires
            old(self).waiting(),
        ensures
            final(self).district_id == old(self).district_id,
            final(self).today == old(self).today,
            final(self).window_days == old(self).window_days,
            final(self).capacity_threshold == old(self).capacity_threshold,
            match response {
                None => r@ == ScanStepView::Finished(None) && final(self).week == old(self).week,
                Some(root) => {
                    let found = slots_of(root.centers@, old(self).capacity_threshold);
                    if found.len() > 0 {
                        r@ == ScanStepView::Finished(Some(found)) && final(self).week == old(
                            self,
                        ).week
                    } else {
                        final(self).week == old(self).week + 1 && r@ == step_for_week(
                            old(self).district_id,
                            old(self).today as int,
                            old(self).window_days as nat,
                            (old(self).week + 1) as nat,
                        )
                    }
                },
            },
    {
        match response {
            None => ScanStep::Finished(None),
            Some(root) => {
                let found = eligible_slots(root, self.capacity_threshold);
                if found.len() > 0 {
                    ScanStep::Finished(Some(found))
                } else {
                    self.week = self.week + 1;
                    self.step()
                }
            },
        }
    }
}

/// How many fetches a scan makes when no answer holds an eligible session,
/// counting from week `k`.
pub open spec fn fetches_from(district_id: u16, today: int, window_days: nat, k: nat) -> nat
    decreases window_days - k,
{
    if planned_fetch(district_id, today, window_days, k) is Some {
        1 + fetches_from(district_id, today, window_days, k + 1)
    } else {
        0
    }
}

/// A scan whose answers hold no eligible session fetches once per week of
/// the window, ceil(window_days / 7) times in all, and then ends with no
/// result.
pub proof fn lemma_empty_scan_fetches_once_per_week(district_id: u16, today: int, window_days: nat)
    requires
        day_in_range(today),
    ensures
        fetches_from(district_id, today, window_days, 0) == (window_days + 6) / 7,
        step_for_week(district_id, today, window_days, ((window_days + 6) / 7) as nat)
            == ScanStepView::Finished(None),
{
    let weeks = ((window_days + 6) / 7) as nat;
    lemma_fetches_count(district_id, today, window_days, 0, weeks);
}

proof fn lemma_fetches_count(district_id: u16, today: int, window_days: nat, k: nat, weeks: nat)
    requires
        weeks == (window_days + 6) / 7,
        k <= weeks,
        day_in_range(today),
    ensures
        fetches_from(district_id, today, window_days, k) == weeks - k,
        planned_fetch(district_id, today, window_days, weeks) is None,
    decreases weeks - k,
{
    assert(!week_in_window(window_days, weeks));
    if k < weeks {
        assert(week_in_window(window_days, k));
        lemma_fetches_count(district_id, today, window_days, k + 1, weeks);
    }
}

} // verus!
