//! Cron job scheduling: when a job is due, which jobs fire, and whether the scheduler runs.

use chrono::{Local, TimeZone};
use cron::Schedule;

use vstd::prelude::*;
use vstd::string::*;

verus! {

/// Event emitted by the cron scheduler.
#[derive(Debug, Clone)]
pub enum CronSchedulerEvent {
    /// A cron job is ready to run.
    JobTriggered { cron_id: String, schedule: String, prompt: String },
    /// The scheduler has started.
    Started,
    /// The scheduler has stopped.
    Stopped,
}

pub enum SchedulerEventView {
    JobTriggered { cron_id: Seq<char>, schedule: Seq<char>, prompt: Seq<char> },
    Started,
    Stopped,
}

impl View for CronSchedulerEvent {
    type V = SchedulerEventView;

    open spec fn view(&self) -> SchedulerEventView {
        match self {
            CronSchedulerEvent::JobTriggered { cron_id, schedule, prompt } => SchedulerEventView::JobTriggered {
                cron_id: cron_id@,
                schedule: schedule@,
                prompt: prompt@,
            },
            CronSchedulerEvent::Started => SchedulerEventView::Started,
            CronSchedulerEvent::Stopped => SchedulerEventView::Stopped,
        }
    }
}

/// A cron job as the registry lists it.
#[derive(Debug, Clone)]
pub struct CronEntry {
    pub cron_id: String,
    pub schedule: String,
    pub prompt: String,
    pub enabled: bool,
    /// When the job last ran, in seconds since the Unix epoch
    pub last_run_at: Option<u64>,
}

/// A start: whether it succeeds, and whether the scheduler runs afterwards. A start
/// succeeds only on a scheduler that does not run; the scheduler runs afterwards either way.
pub open spec fn start_transition(running: bool) -> (bool, bool) {
    (!running, true)
}

/// A stop: whether it succeeds, and whether the scheduler runs afterwards. A stop succeeds
/// only on a running scheduler; the scheduler does not run afterwards either way.
pub open spec fn stop_transition(running: bool) -> (bool, bool) {
    (running, false)
}

/// Whether the scheduler runs.
#[derive(Debug)]
pub struct SchedulerState {
    is_running: bool,
}

impl SchedulerState {
    pub closed spec fn running(&self) -> bool {
        self.is_running
    }

    /// A scheduler that does not run.
    pub fn new() -> (r: SchedulerState)
        ensures
            !r.running(),
    {
        SchedulerState { is_running: false }
    }

    /// Starts the scheduler; a running scheduler refuses and stays as it is.
    pub fn start(&mut self) -> (r: Result<(), String>)
        ensures
            (r is Ok, final(self).running()) == start_transition(old(self).running()),
            r matches Err(m) ==> m@ == "Scheduler is already running"@,
    {
        if self.is_running {
            return Err(String::from_str("Scheduler is already running"));
        }
        self.is_running = true;
        Ok(())
    }

    /// Stops the scheduler; a scheduler that does not run refuses and stays as it is.
    pub fn stop(&mut self) -> (r: Result<(), String>)
        ensures
            (r is Ok, final(self).running()) == stop_transition(old(self).running()),
            r matches Err(m) ==> m@ == "Scheduler is not running"@,
    {
        if !self.is_running {
            return Err(String::from_str("Scheduler is not running"));
        }
        self.is_running = false;
        Ok(())
    }

    /// Returns whether the scheduler is currently running.
    pub fn is_running(&self) -> (r: bool)
        ensures
            r == self.running(),
    {
        self.is_running
    }
}

/// An instant: whole seconds since the Unix epoch and the nanoseconds past them (a leap
/// second counts as nanoseconds past a billion).
#[derive(Debug, Clone, Copy, PartialEq, Eq, Structural)]
pub struct Timestamp {
    pub secs: i64,
    pub nanos: u32,
}

impl Timestamp {
    /// The order of instants: by seconds, then by nanoseconds.
    pub open spec fn le(self, other: Timestamp) -> bool {
        self.secs < other.secs || (self.secs == other.secs && self.nanos <= other.nanos)
    }
}

/// Whether a job whose next scheduled time is `next` is due at `now`: there is a next
/// time and it is not after `now`.
pub open spec fn due_at_spec(next: Option<Timestamp>, now: Timestamp) -> bool {
    match next {
        Some(t) => t.le(now),
        None => false,
    }
}

/// Whether a job whose next scheduled time is `next` is due at `now`.
pub fn due_at(next: Option<Timestamp>, now: Timestamp) -> (r: bool)
    ensures
        r == due_at_spec(next, now),
{
    match next {
        Some(t) => t.secs < now.secs || (t.secs == now.secs && t.nanos <= now.nanos),
        None => false,
    }
}

} // verus!

verus! {

#[verifier::external_type_specification]
#[verifier::external_body]
pub struct ExSchedule(Schedule);

/// Whether `c` separates the fields of a cron expression (the white space that the
/// `cron` parser skips between fields).
pub open spec fn is_cron_space(c: char) -> bool {
    c == ' ' || c == '\t' || c == '\n' || c == '\r'
}

/// The number of fields of an expression: its maximal runs of characters that are no
/// field separators.
pub open spec fn field_count(s: Seq<char>) -> nat
    decreases s.len(),
{
    if s.len() == 0 {
        0
    } else {
        let p = s.drop_last();
        field_count(p) + if !is_cron_space(s.last()) && (p.len() == 0 || is_cron_space(p.last())) {
            1nat
        } else {
            0nat
        }
    }
}

/// The expression handed to the `cron` crate: a standard five-field expression (minute,
/// hour, day of month, month, day of week) gets a seconds field `0` in front, as the crate
/// reads six or seven fields with the seconds first; any other text is kept.
pub open spec fn crate_expression(s: Seq<char>) -> Seq<char> {
    if field_count(s) == 5 {
        "0 "@ + s
    } else {
        s
    }
}

proof fn lemma_field_count_bound(s: Seq<char>)
    ensures
        field_count(s) <= s.len(),
    decreases s.len(),
{
    if s.len() > 0 {
        lemma_field_count_bound(s.drop_last());
    }
}

/// Counts the fields of a cron expression.
pub fn cron_field_count(s: &str) -> (r: usize)
    ensures
        r == field_count(s@),
{
    let n = s.unicode_len();
    let mut count: usize = 0;
    let mut i: usize = 0;
    let mut prev_space = true;
    while i < n
        invariant
            n == s@.len(),
            i <= n,
            count == field_count(s@.subrange(0, i as int)),
            prev_space == (i == 0 || is_cron_space(s@[i - 1])),
        decreases n - i,
    {
        proof {
            lemma_field_count_bound(s@.subrange(0, i as int));
            assert(s@.subrange(0, i + 1).drop_last() =~= s@.subrange(0, i as int));
        }
        let c = s.get_char(i);
        let space = c == ' ' || c == '\t' || c == '\n' || c == '\r';
        if !space && prev_space {
            count = count + 1;
        }
        prev_space = space;
        i = i + 1;
    }
    assert(s@.subrange(0, n as int) =~= s@);
    count
}

/// The error text with which the `cron` crate rejects an expression, or `None` where it
/// accepts it.
pub uninterp spec fn cron_parse_failure(expression: Seq<char>) -> Option<Seq<char>>;

/// The schedule that the `cron` crate reads from an expression it accepts: a function of
/// the expression alone.
pub uninterp spec fn cron_schedule(expression: Seq<char>) -> Schedule;

/// Parses an expression with `cron::Schedule`'s `FromStr`, keeping the error's text; the
/// outcome is the one named by `cron_parse_failure` and `cron_schedule`.
#[verifier::external_body]
fn parse_schedule_text(expression: &str) -> (r: Result<Schedule, String>)
    ensures
        match r {
            Ok(s) => cron_parse_failure(expression@) is None && s == cron_schedule(expression@),
            Err(m) => cron_parse_failure(expression@) == Some(m@),
        },
{
    expression.parse::<Schedule>().map_err(|e| e.to_string())
}

/// Parses a cron schedule string. A standard five-field expression is read with a seconds
/// field `0` in front; the `cron` crate decides the rest.
pub fn parse_cron_schedule(schedule: &str) -> (r: Result<Schedule, String>)
    ensures
        match r {
            Ok(s) => cron_parse_failure(crate_expression(schedule@)) is None && s == cron_schedule(
                crate_expression(schedule@),
            ),
            Err(m) => cron_parse_failure(crate_expression(schedule@)) == Some(m@),
        },
{
    if cron_field_count(schedule) == 5 {
        let expression = String::from_str("0 ").concat(schedule);
        parse_schedule_text(expression.as_str())
    } else {
        parse_schedule_text(schedule)
    }
}

/// The second, since the epoch, after which the schedule is asked for its next time: the
/// epoch itself for a job that never ran, else its last run read as the `i64` of its bits;
/// `None` where that lies on or after 2101-01-03 UTC or at or below -2^40. There the answer
/// is fixed: every local time lies in a year after 2100, the last that `cron` schedules,
/// or in one before year zero, which `cron` never reaches, so no time follows the last run.
pub open spec fn last_run_seconds(last_run_at: Option<u64>) -> Option<i64> {
    match last_run_at {
        None => Some(0),
        Some(ts) => if ts < 4_134_153_600 {
            Some(ts as i64)
        } else if ts > 0xffff_ff00_0000_0000 {
            Some((ts - 0x1_0000_0000_0000_0000) as i64)
        } else {
            None
        },
    }
}

/// The second after which the schedule is asked for a job's next time.
pub fn last_run_secs(last_run_at: Option<u64>) -> (r: Option<i64>)
    ensures
        r == last_run_seconds(last_run_at),
        r matches Some(s) ==> -0x100_0000_0000 < s < 4_134_153_600,
{
    match last_run_at {
        None => Some(0),
        Some(ts) => if ts < 4_134_153_600 {
            Some(ts as i64)
        } else if ts > 0xffff_ff00_0000_0000 {
            let back: u64 = u64::MAX - ts;
            Some(-(back as i64) - 1)
        } else {
            None
        },
    }
}

/// What holds, whatever the time zone, of the first time that a schedule gives after the
/// second `secs`: it lies later than two days before `secs`. (`cron` looks for a local
/// wall-clock time at or after that of `secs + 1`, and a local time differs from its
/// instant by less than a day either way, since `chrono`'s `FixedOffset` stays below
/// 86 400 seconds; near a change of the clock the time found may still lie before `secs`.)
pub open spec fn after_bound(next: Option<Timestamp>, secs: i64) -> bool {
    match next {
        Some(n) => n.secs > secs - 172_800,
        None => true,
    }
}

/// `Local.timestamp_opt(secs, 0)` and, when that gives a single local time `t`, the first
/// time that `schedule.after(&t)` yields. Both calls stand in one item because the local
/// time between them is a `chrono::DateTime<Local>`, a type whose bound is a trait of
/// `chrono` that cannot be declared here. The range in `requires` keeps the local times far
/// from the ends of `chrono`'s range, where `after` would overflow adding a second. Which
/// time comes back depends on the machine's time zone; the contract states only
/// `after_bound`: `NextAfterQuery::from` starts at `t` plus one second and `next_after`
/// tries local dates and times from that one's on (`cron`'s queries.rs and schedule.rs),
/// and `chrono` keeps every offset below a day.
#[verifier::external_body]
fn first_after_local(schedule: &Schedule, secs: i64) -> (r: Option<Timestamp>)
    requires
        -0x100_0000_0000 < secs < 4_134_153_600,
    ensures
        after_bound(r, secs),
{
    match Local.timestamp_opt(secs, 0) {
        chrono::LocalResult::Single(t) => match schedule.after(&t).next() {
            Some(n) => Some(Timestamp { secs: n.timestamp(), nanos: n.timestamp_subsec_nanos() }),
            None => None,
        },
        chrono::LocalResult::Ambiguous(_, _) => None,
        chrono::LocalResult::None => None,
    }
}

/// Determines if a cron job is due to run: it is due when the first scheduled time after
/// the second that `last_run_secs` gives is not after `now` (so a job that never ran is
/// due once its schedule has had a time at or before `now`), and never where that gives
/// none. The scheduled time comes from the machine's time zone; the decision on it is
/// `due_at`.
pub fn is_due(schedule: &Schedule, now: Timestamp, last_run_at: Option<u64>) -> (r: bool)
    ensures
        last_run_seconds(last_run_at) is None ==> !r,
        last_run_seconds(last_run_at) matches Some(s) && s >= now.secs + 172_800 ==> !r,
{
    match last_run_secs(last_run_at) {
        None => false,
        Some(secs) => {
            let next = first_after_local(schedule, secs);
            due_at(next, now)
        },
    }
}

/// The event that triggers a job.
pub open spec fn entry_event(e: CronEntry) -> SchedulerEventView {
    SchedulerEventView::JobTriggered { cron_id: e.cron_id@, schedule: e.schedule@, prompt: e.prompt@ }
}

/// The events of the jobs marked due, in the order of the entries.
pub open spec fn selected_events(entries: Seq<CronEntry>, due: Seq<bool>) -> Seq<SchedulerEventView>
    decreases entries.len(),
{
    if entries.len() == 0 || due.len() == 0 {
        Seq::empty()
    } else {
        let rest = selected_events(entries.drop_last(), due.drop_last());
        if due.last() {
            rest.push(entry_event(entries.last()))
        } else {
            rest
        }
    }
}

pub open spec fn events_view(v: Seq<CronSchedulerEvent>) -> Seq<SchedulerEventView> {
    Seq::new(v.len(), |i: int| v[i]@)
}

/// The events of the jobs marked due, in the order of the entries.
pub fn triggered_events(entries: &Vec<CronEntry>, due: &Vec<bool>) -> (r: Vec<CronSchedulerEvent>)
    requires
        due@.len() == entries@.len(),
    ensures
        events_view(r@) == selected_events(entries@, due@),
{
    let mut out: Vec<CronSchedulerEvent> = Vec::new();
    let mut i: usize = 0;
    while i < entries.len()
        invariant
            i <= entries@.len(),
            due@.len() == entries@.len(),
            events_view(out@) == selected_events(entries@.take(i as int), due@.take(i as int)),
        decreases entries@.len() - i,
    {
        assert(entries@.take(i + 1).drop_last() =~= entries@.take(i as int));
        assert(due@.take(i + 1).drop_last() =~= due@.take(i as int));
        if due[i] {
            let e = &entries[i];
            let ghost before = out@;
            out.push(CronSchedulerEvent::JobTriggered {
                cron_id: e.cron_id.clone(),
                schedule: e.schedule.clone(),
                prompt: e.prompt.clone(),
            });
            assert(events_view(out@) =~= events_view(before).push(entry_event(entries@[i as int])));
        }
        i = i + 1;
    }
    assert(entries@.take(entries@.len() as int) =~= entries@);
    assert(due@.take(due@.len() as int) =~= due@);
    out
}

/// What a job needs before it can fire: it is enabled, its schedule parses, and the
/// schedule can be asked about its last run.
pub open spec fn fire_allowed(e: CronEntry) -> bool {
    &&& e.enabled
    &&& cron_parse_failure(crate_expression(e.schedule@)) is None
    &&& last_run_seconds(e.last_run_at) is Some
}

/// Whether a job fires, given whether its schedule parses and the first scheduled time
/// after its last run.
pub open spec fn fires_with(e: CronEntry, schedule_ok: bool, next: Option<Timestamp>, now: Timestamp) -> bool {
    e.enabled && schedule_ok && last_run_seconds(e.last_run_at) is Some && due_at_spec(next, now)
}

/// Decides whether a job fires at `now`, given whether its schedule parses and the first
/// scheduled time after its last run.
pub fn job_fires(e: &CronEntry, schedule_ok: bool, next: Option<Timestamp>, now: Timestamp) -> (r: bool)
    ensures
        r == fires_with(*e, schedule_ok, next, now),
{
    if !e.enabled || !schedule_ok {
        return false;
    }
    match last_run_secs(e.last_run_at) {
        Some(_) => due_at(next, now),
        None => false,
    }
}

/// What holds of the time taken as a job's next one: there is none, or it is the time found
/// after the second of the job's last run, so it lies later than two days before it.
pub open spec fn next_after_last_run(next: Option<Timestamp>, e: CronEntry) -> bool {
    match next {
        Some(n) => last_run_seconds(e.last_run_at) matches Some(s) && after_bound(next, s),
        None => true,
    }
}

/// Which jobs fire, given the first scheduled time after the last run of each.
pub open spec fn fired(entries: Seq<CronEntry>, nexts: Seq<Option<Timestamp>>, now: Timestamp) -> Seq<bool> {
    Seq::new(entries.len(), |i: int| fire_allowed(entries[i]) && due_at_spec(nexts[i], now))
}

/// Checks the listed jobs at `now`: a job fires when `fire_allowed` admits it and the first
/// time that its schedule (`cron_schedule` of its expression, as `parse_cron_schedule`
/// states) gives after the second of `last_run_secs` is not after `now`. Those times come
/// from the machine's time zone; the contract states that the events are those of the jobs
/// that fire for some such times, one per job, in the order of the entries.
pub fn due_job_events(entries: &Vec<CronEntry>, now: Timestamp) -> (r: Vec<CronSchedulerEvent>)
    ensures
        exists|nexts: Seq<Option<Timestamp>>|
            {
                &&& nexts.len() == entries@.len()
                &&& forall|i: int| 0 <= i < nexts.len() ==> next_after_last_run(#[trigger] nexts[i], entries@[i])
                &&& events_view(r@) == selected_events(entries@, #[trigger] fired(entries@, nexts, now))
            },
{
    let mut due: Vec<bool> = Vec::new();
    let ghost mut nexts: Seq<Option<Timestamp>> = Seq::empty();
    let mut i: usize = 0;
    while i < entries.len()
        invariant
            i <= entries@.len(),
            due@.len() == i,
            nexts.len() == i,
            forall|j: int|
                0 <= j < i ==> #[trigger] due@[j] == (fire_allowed(entries@[j]) && due_at_spec(nexts[j], now)),
            forall|j: int| 0 <= j < i ==> next_after_last_run(#[trigger] nexts[j], entries@[j]),
        decreases entries@.len() - i,
    {
        let e = &entries[i];
        let (schedule_ok, next) = if e.enabled {
            match parse_cron_schedule(e.schedule.as_str()) {
                Ok(schedule) => {
                    let next = match last_run_secs(e.last_run_at) {
                        Some(secs) => first_after_local(&schedule, secs),
                        None => None,
                    };
                    (true, next)
                },
                Err(_) => (false, None),
            }
        } else {
            (false, None)
        };
        let fires = job_fires(e, schedule_ok, next, now);
        due.push(fires);
        proof {
            nexts = nexts.push(next);
        }
        i = i + 1;
    }
    let r = triggered_events(entries, &due);
    assert(due@ =~= fired(entries@, nexts, now));
    assert(forall|j: int| 0 <= j < nexts.len() ==> next_after_last_run(#[trigger] nexts[j], entries@[j]));
    r
}

} // verus!

verus! {

/// Fields are the runs of characters between white space: an empty expression has none;
/// white space (space, tab, newline, carriage return) after an expression adds none; any
/// other character adds one field after white space or at the start, and none after a
/// character of a field, so `/`, `,`, `-` and the like never separate fields.
pub proof fn lemma_field_count_by_character(s: Seq<char>, c: char)
    ensures
        field_count(Seq::<char>::empty()) == 0,
        (c == ' ' || c == '\t' || c == '\n' || c == '\r') ==> field_count(s.push(c)) == field_count(s),
        !(c == ' ' || c == '\t' || c == '\n' || c == '\r') && (s.len() == 0 || s.last() == ' ' || s.last() == '\t'
            || s.last() == '\n' || s.last() == '\r') ==> field_count(s.push(c)) == field_count(s) + 1,
        !(c == ' ' || c == '\t' || c == '\n' || c == '\r') && s.len() > 0 && !(s.last() == ' ' || s.last() == '\t'
            || s.last() == '\n' || s.last() == '\r') ==> field_count(s.push(c)) == field_count(s),
{
    assert(s.push(c).drop_last() =~= s);
}

/// A job whose last run lies two days or more after the moment of the check does not fire
/// at that check: the time taken as its next one is found after its last run, and so lies
/// after the check.
pub proof fn lemma_later_last_run_does_not_fire(e: CronEntry, next: Option<Timestamp>, now: Timestamp)
    requires
        next_after_last_run(next, e),
        last_run_seconds(e.last_run_at) matches Some(s) && s >= now.secs + 172_800,
    ensures
        !(fire_allowed(e) && due_at_spec(next, now)),
{
}

/// A scheduler that does not run starts, then stops, and is back where it began; starting
/// a running scheduler and stopping a stopped one are refused without a change.
pub proof fn lemma_scheduler_start_stop_cycle(running: bool)
    ensures
        !running ==> start_transition(running) == (true, true) && stop_transition(start_transition(running).1)
            == (true, false),
        running ==> start_transition(running) == (false, running),
        !running ==> stop_transition(running) == (false, running),
{
}

/// A job is due exactly when its next scheduled time is at or before the moment of the
/// check: a later check of the same next time never undoes it.
pub proof fn lemma_due_stays_due(next: Option<Timestamp>, now: Timestamp, later: Timestamp)
    requires
        now.le(later),
    ensures
        due_at_spec(next, now) ==> due_at_spec(next, later),
{
}

/// Only jobs marked due fire, and each fires once, in the order of the entries.
pub proof fn lemma_selected_events_subsequence(entries: Seq<CronEntry>, due: Seq<bool>)
    requires
        due.len() == entries.len(),
    ensures
        selected_events(entries, due).len() <= entries.len(),
        (forall|i: int| 0 <= i < due.len() ==> !due[i]) ==> selected_events(entries, due).len() == 0,
        (forall|i: int| 0 <= i < due.len() ==> due[i]) ==> selected_events(entries, due)
            == Seq::new(entries.len(), |i: int| entry_event(entries[i])),
    decreases entries.len(),
{
    if entries.len() > 0 {
        lemma_selected_events_subsequence(entries.drop_last(), due.drop_last());
        if forall|i: int| 0 <= i < due.len() ==> due[i] {
            assert(due[due.len() - 1]);
            assert(selected_events(entries, due) =~= Seq::new(entries.len(), |i: int| entry_event(entries[i])));
        }
        if forall|i: int| 0 <= i < due.len() ==> !due[i] {
            assert(!due[due.len() - 1]);
        }
    } else {
        assert(selected_events(entries, due) =~= Seq::new(entries.len(), |i: int| entry_event(entries[i])));
    }
}

} // verus!
