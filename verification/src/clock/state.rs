//! The clock's data: alarms, stopwatch and timer, and the alarm editor.

use vstd::prelude::*;
use vstd::string::StringExecFns;

use crate::text::{all_digits, digits_value, lemma_two_fields_read_back, pad2, push_char, push_pad2, push_str};

verus! {

/// Longest duration there is (`std::time::Duration::MAX`), in nanoseconds.
pub const MAX_DURATION_NANOS: u128 = 18_446_744_073_709_551_615_999_999_999;

pub const NANOS_PER_SECOND: u128 = 1_000_000_000;

/// Default timer length in minutes (the 5 minute preset).
pub const DEFAULT_TIMER_MINUTES: u128 = 5;

/// On which days an alarm repeats.
#[derive(Debug, Clone, Copy, PartialEq, Eq, Structural)]
pub enum Repeat {
    Daily,
    Weekdays,
    Weekend,
}

#[verifier::external_type_specification]
#[verifier::external_body]
pub struct ExWeekday(chrono::Weekday);

/// Name for the number `chrono` gives a weekday counted from Monday
/// (`Weekday::num_days_from_monday`: Monday is 0, Sunday is 6).
pub uninterp spec fn weekday_index(weekday: chrono::Weekday) -> u32;

/// `chrono::Weekday::num_days_from_monday`. The number is named; that it
/// is below 7 is stated. Which weekday gives which number is left to the
/// name, as the declared type shows Verus nothing of its variants.
#[verifier::external_body]
pub(crate) fn days_from_monday(weekday: chrono::Weekday) -> (r: u32)
    ensures
        r == weekday_index(weekday),
        r < 7,
{
    weekday.num_days_from_monday()
}

impl Default for Repeat {
    fn default() -> (r: Self)
        ensures
            r == Repeat::Daily,
    {
        Repeat::Daily
    }
}

impl Repeat {
    pub open spec fn code_spec(self) -> u8 {
        match self {
            Repeat::Daily => 0,
            Repeat::Weekdays => 1,
            Repeat::Weekend => 2,
        }
    }

    pub open spec fn from_code_spec(code: u8) -> Option<Repeat> {
        if code == 0 {
            Some(Repeat::Daily)
        } else if code == 1 {
            Some(Repeat::Weekdays)
        } else if code == 2 {
            Some(Repeat::Weekend)
        } else {
            None
        }
    }

    /// Whether an alarm with this repetition rings on the day that is
    /// `days_from_monday` days after a Monday (Monday to Friday are 0 to 4).
    pub open spec fn matches_spec(self, days_from_monday: u32) -> bool {
        match self {
            Repeat::Daily => true,
            Repeat::Weekdays => days_from_monday < 5,
            Repeat::Weekend => !(days_from_monday < 5),
        }
    }

    pub open spec fn label_spec(self) -> Seq<char> {
        match self {
            Repeat::Daily => "Todos los días"@,
            Repeat::Weekdays => "L a V"@,
            Repeat::Weekend => "Finde"@,
        }
    }

    pub fn all() -> (r: [Repeat; 3])
        ensures
            r@ == seq![Repeat::Daily, Repeat::Weekdays, Repeat::Weekend],
    {
        [Repeat::Daily, Repeat::Weekdays, Repeat::Weekend]
    }

    pub fn label(self) -> (r: &'static str)
        ensures
            r@ == self.label_spec(),
    {
        match self {
            Repeat::Daily => "Todos los días",
            Repeat::Weekdays => "L a V",
            Repeat::Weekend => "Finde",
        }
    }

    pub fn code(self) -> (r: u8)
        ensures
            r == self.code_spec(),
    {
        match self {
            Repeat::Daily => 0,
            Repeat::Weekdays => 1,
            Repeat::Weekend => 2,
        }
    }

    pub fn from_code(code: u8) -> (r: Option<Repeat>)
        ensures
            r == Repeat::from_code_spec(code),
    {
        match code {
            0 => Some(Repeat::Daily),
            1 => Some(Repeat::Weekdays),
            2 => Some(Repeat::Weekend),
            _ => None,
        }
    }

    /// Whether the alarm rings on a day given by its distance from Monday.
    pub fn matches_day(self, days_from_monday: u32) -> (r: bool)
        ensures
            r == self.matches_spec(days_from_monday),
    {
        let workday = days_from_monday < 5;
        match self {
            Repeat::Daily => true,
            Repeat::Weekdays => workday,
            Repeat::Weekend => !workday,
        }
    }

    /// Whether the alarm rings on `weekday`.
    pub fn matches(self, weekday: chrono::Weekday) -> (r: bool)
        ensures
            r == self.matches_spec(weekday_index(weekday)),
    {
        let d = days_from_monday(weekday);
        self.matches_day(d)
    }
}

/// Decoding an encoded repetition gives it back.
pub proof fn lemma_repeat_code_round_trip(repeat: Repeat)
    ensures
        Repeat::from_code_spec(repeat.code_spec()) == Some(repeat),
{
}

/// On every day exactly one of "weekdays" and "weekend" rings, and "daily"
/// always does.
pub proof fn lemma_repeat_partition(days_from_monday: u32)
    ensures
        Repeat::Daily.matches_spec(days_from_monday),
        Repeat::Weekdays.matches_spec(days_from_monday) != Repeat::Weekend.matches_spec(
            days_from_monday,
        ),
{
}

#[derive(Debug, Clone)]
pub struct Alarm {
    pub hour: u8,
    pub minute: u8,
    pub repeat: Repeat,
    pub enabled: bool,
    /// Optional name; the picker cannot write it, the saved file can.
    pub label: Option<String>,
}

impl Alarm {
    /// "HH:MM".
    pub open spec fn time_text_spec(self) -> Seq<char> {
        pad2(self.hour as nat) + seq![':'] + pad2(self.minute as nat)
    }

    /// "Name · repetition" with a name, the repetition alone without one.
    pub open spec fn subtitle_spec(self) -> Seq<char> {
        match self.label {
            Some(label) => label@ + " · "@ + self.repeat.label_spec(),
            None => self.repeat.label_spec(),
        }
    }

    /// An alarm's time reads back as its hour and minute: "HH:MM", two
    /// digits on each side of the colon.
    pub proof fn lemma_time_text_reads_back(self)
        ensures
            self.hour < 100 && self.minute < 100 ==> {
                let t = self.time_text_spec();
                &&& t.len() == 5
                &&& t[2] == ':'
                &&& all_digits(t.subrange(0, 2))
                &&& all_digits(t.subrange(3, 5))
                &&& digits_value(t.subrange(0, 2)) == self.hour
                &&& digits_value(t.subrange(3, 5)) == self.minute
            },
    {
        if self.hour < 100 && self.minute < 100 {
            lemma_two_fields_read_back(self.hour as nat, self.minute as nat, ':');
        }
    }

    pub fn time_text(&self) -> (r: String)
        ensures
            r@ == self.time_text_spec(),
    {
        let mut s = String::new();
        push_pad2(&mut s, self.hour as u128);
        push_char(&mut s, ':');
        push_pad2(&mut s, self.minute as u128);
        assert(s@ =~= self.time_text_spec());
        s
    }

    pub fn subtitle(&self) -> (r: String)
        ensures
            r@ == self.subtitle_spec(),
    {
        match &self.label {
            Some(label) => {
                let mut s = label.clone();
                push_str(&mut s, " · ");
                push_str(&mut s, self.repeat.label());
                s
            },
            None => String::from_str(self.repeat.label()),
        }
    }
}

/// Whether an alarm is enabled unless the saved file says otherwise.
pub fn enabled_default() -> (r: bool)
    ensures
        r,
{
    true
}

/// Stopwatch: time accumulated over the finished runs, the start of the
/// current run, and the laps marked so far.
#[derive(Debug, Clone)]
pub struct StopwatchData {
    pub started_at: Option<u128>,
    pub accumulated: u128,
    pub laps: Vec<u128>,
}

/// What a stopwatch holds: the start of the current run, the time of the
/// finished runs, and the laps.
pub type StopwatchParts = (Option<u128>, u128, Seq<u128>);

/// Time on a stopwatch at instant `now`; a start later than `now` counts
/// as no time, as `Instant::elapsed` does.
pub open spec fn stopwatch_elapsed(p: StopwatchParts, now: u128) -> int {
    match p.0 {
        Some(at) => p.1 + (if now >= at { now - at } else { 0int }),
        None => p.1 as int,
    }
}

/// A stopped stopwatch starts at `now`; a running one stops and keeps the
/// time it ran.
pub open spec fn stopwatch_toggled(p: StopwatchParts, now: u128) -> StopwatchParts {
    match p.0 {
        Some(_) => (None, stopwatch_elapsed(p, now) as u128, p.2),
        None => (Some(now), p.1, p.2),
    }
}

/// A running stopwatch marks a lap with its time at `now`; a stopped one
/// stays as it is.
pub open spec fn stopwatch_lapped(p: StopwatchParts, now: u128) -> StopwatchParts {
    if p.0 is Some {
        (p.0, p.1, p.2.push(stopwatch_elapsed(p, now) as u128))
    } else {
        p
    }
}

impl StopwatchData {
    pub open spec fn parts(self) -> StopwatchParts {
        (self.started_at, self.accumulated, self.laps@)
    }

    pub open spec fn elapsed_spec(self, now: u128) -> int {
        stopwatch_elapsed(self.parts(), now)
    }

    pub fn new() -> (r: Self)
        ensures
            r.parts() == (None::<u128>, 0u128, Seq::<u128>::empty()),
    {
        StopwatchData { started_at: None, accumulated: 0, laps: Vec::new() }
    }

    pub fn running(&self) -> (r: bool)
        ensures
            r == self.started_at is Some,
    {
        self.started_at.is_some()
    }

    pub fn elapsed(&self, now: u128) -> (r: u128)
        requires
            self.elapsed_spec(now) <= MAX_DURATION_NANOS,
        ensures
            r == self.elapsed_spec(now),
    {
        match self.started_at {
            Some(at) => self.accumulated + now.saturating_sub(at),
            None => self.accumulated,
        }
    }

    /// Starts a stopped stopwatch at `now`, or stops a running one and
    /// keeps the time it ran.
    pub fn toggle(&mut self, now: u128)
        requires
            old(self).elapsed_spec(now) <= MAX_DURATION_NANOS,
        ensures
            final(self).parts() == stopwatch_toggled(old(self).parts(), now),
    {
        match self.started_at {
            Some(at) => {
                self.accumulated = self.accumulated + now.saturating_sub(at);
                self.started_at = None;
            },
            None => {
                self.started_at = Some(now);
            },
        }
    }

    /// Marks a lap with the time on the stopwatch, if it is running.
    pub fn lap(&mut self, now: u128)
        requires
            old(self).elapsed_spec(now) <= MAX_DURATION_NANOS,
        ensures
            final(self).parts() == stopwatch_lapped(old(self).parts(), now),
    {
        if self.running() {
            let e = self.elapsed(now);
            self.laps.push(e);
        }
    }

    pub fn reset(&mut self)
        ensures
            final(self).parts() == (None::<u128>, 0u128, Seq::<u128>::empty()),
    {
        *self = StopwatchData::new();
    }
}

/// Countdown timer: its full length, the start of the current run, what
/// was left when it last stopped, and whether it ran out.
#[derive(Debug, Clone, Copy, PartialEq, Eq, Structural)]
pub struct TimerData {
    pub duration: u128,
    pub started_at: Option<u128>,
    pub remaining_at_pause: u128,
    pub finished: bool,
}

impl Default for TimerData {
    fn default() -> (r: Self)
        ensures
            r.duration == DEFAULT_TIMER_MINUTES * 60 * NANOS_PER_SECOND,
            r.started_at is None,
            r.remaining_at_pause == r.duration,
            !r.finished,
    {
        let duration = DEFAULT_TIMER_MINUTES * 60 * NANOS_PER_SECOND;
        TimerData { duration, started_at: None, remaining_at_pause: duration, finished: false }
    }
}

impl TimerData {
    /// Time left at instant `now`: what was left at the last stop minus
    /// what has run since, never below zero.
    pub open spec fn remaining_spec(self, now: u128) -> u128 {
        let spent: int = match self.started_at {
            Some(at) => if now >= at { now - at } else { 0int },
            None => 0int,
        };
        if self.remaining_at_pause >= spent {
            (self.remaining_at_pause - spent) as u128
        } else {
            0
        }
    }

    pub fn running(&self) -> (r: bool)
        ensures
            r == self.started_at is Some,
    {
        self.started_at.is_some()
    }

    pub fn remaining(&self, now: u128) -> (r: u128)
        ensures
            r == self.remaining_spec(now),
    {
        let spent = match self.started_at {
            Some(at) => now.saturating_sub(at),
            None => 0,
        };
        self.remaining_at_pause.saturating_sub(spent)
    }

    /// A running timer pauses keeping what is left; a stopped one starts at
    /// `now`, with its full length again when it ran out or had nothing left.
    pub open spec fn toggled(self, now: u128) -> TimerData {
        if self.started_at is Some {
            TimerData { started_at: None, remaining_at_pause: self.remaining_spec(now), ..self }
        } else if self.finished || self.remaining_at_pause == 0 {
            TimerData {
                started_at: Some(now),
                remaining_at_pause: self.duration,
                finished: false,
                ..self
            }
        } else {
            TimerData { started_at: Some(now), ..self }
        }
    }

    /// Stopped, with its full length left.
    pub open spec fn reset_spec(self) -> TimerData {
        TimerData {
            duration: self.duration,
            started_at: None,
            remaining_at_pause: self.duration,
            finished: false,
        }
    }

    /// Length of `minutes` minutes, in nanoseconds.
    pub open spec fn minutes_nanos(minutes: u32) -> u128 {
        (minutes * 60 * NANOS_PER_SECOND) as u128
    }

    /// A stopped timer of `minutes` minutes with all of it left.
    pub open spec fn preset_spec(minutes: u32) -> TimerData {
        TimerData {
            duration: Self::minutes_nanos(minutes),
            started_at: None,
            remaining_at_pause: Self::minutes_nanos(minutes),
            finished: false,
        }
    }

    /// Pauses a running timer keeping what is left; starts a stopped one,
    /// reloading the full length when it ran out or had nothing left.
    pub fn toggle(&mut self, now: u128)
        ensures
            *final(self) == old(self).toggled(now),
    {
        if self.running() {
            self.remaining_at_pause = self.remaining(now);
            self.started_at = None;
            return;
        }
        if self.finished || self.remaining_at_pause == 0 {
            self.remaining_at_pause = self.duration;
            self.finished = false;
        }
        self.started_at = Some(now);
    }

    /// Stops the timer with its full length left.
    pub fn reset(&mut self)
        ensures
            *final(self) == old(self).reset_spec(),
    {
        self.started_at = None;
        self.remaining_at_pause = self.duration;
        self.finished = false;
    }

    /// Sets the length to `minutes` minutes and resets.
    pub fn set_minutes(&mut self, minutes: u32)
        ensures
            *final(self) == TimerData::preset_spec(minutes),
    {
        self.duration = (minutes as u128) * 60 * NANOS_PER_SECOND;
        self.reset();
    }

    /// A running timer with nothing left at `now` becomes a finished,
    /// stopped timer, and its length in whole minutes is reported; any
    /// other timer stays as it is and nothing is reported.
    pub open spec fn expire_spec(self, now: u128) -> (TimerData, Option<u128>) {
        if self.started_at is Some && self.remaining_spec(now) == 0 {
            (
                TimerData { started_at: None, remaining_at_pause: 0, finished: true, ..self },
                Some(self.duration / NANOS_PER_SECOND / 60),
            )
        } else {
            (self, None)
        }
    }

    /// Marks a running timer that has nothing left at `now` as finished,
    /// once; returns its length in whole minutes when it did.
    pub fn expire(&mut self, now: u128) -> (r: Option<u128>)
        ensures
            (*final(self), r) == old(self).expire_spec(now),
    {
        if self.running() && self.remaining(now) == 0 {
            self.started_at = None;
            self.remaining_at_pause = 0;
            self.finished = true;
            Some(self.duration / NANOS_PER_SECOND / 60)
        } else {
            None
        }
    }
}

/// Starting a stopped stopwatch at `start` and stopping it at `stop` adds
/// the time between the two to it and keeps its laps.
pub proof fn lemma_stopwatch_start_stop(p: StopwatchParts, start: u128, stop: u128)
    requires
        p.0 is None,
        start <= stop,
        p.1 + (stop - start) <= MAX_DURATION_NANOS,
    ensures
        stopwatch_toggled(stopwatch_toggled(p, start), stop) == (None::<u128>, (p.1 + (stop - start)) as u128, p.2),
{
}

/// A lap records the time on the stopwatch and changes nothing else.
pub proof fn lemma_lap_records_elapsed(p: StopwatchParts, now: u128)
    requires
        p.0 is Some,
    ensures
        stopwatch_lapped(p, now).2.last() == stopwatch_elapsed(p, now) as u128,
        stopwatch_lapped(p, now).2.drop_last() == p.2,
        stopwatch_elapsed(stopwatch_lapped(p, now), now) == stopwatch_elapsed(p, now),
{
    assert(stopwatch_lapped(p, now).2.drop_last() =~= p.2);
}

/// Pausing a running timer keeps what it had left at that instant, however
/// late it is read.
pub proof fn lemma_timer_pause_keeps_remaining(timer: TimerData, now: u128, later: u128)
    requires
        timer.started_at is Some,
    ensures
        timer.toggled(now).remaining_spec(later) == timer.remaining_spec(now),
        timer.toggled(now).started_at is None,
{
}

/// A reset timer, or one just set to a preset, has its whole length left.
pub proof fn lemma_timer_reset_is_full(timer: TimerData, minutes: u32, now: u128)
    ensures
        timer.reset_spec().remaining_spec(now) == timer.duration,
        TimerData::preset_spec(minutes).remaining_spec(now) == TimerData::minutes_nanos(minutes),
{
}

/// A timer that ran out is reported once: the timer it leaves behind is
/// stopped, and nothing is reported for it again.
pub proof fn lemma_timer_expires_once(timer: TimerData, now: u128, later: u128)
    ensures
        timer.expire_spec(now).1 is Some ==> timer.expire_spec(now).0.expire_spec(later).1 is None,
        timer.expire_spec(now).1 is Some ==> timer.expire_spec(now).0.expire_spec(later).0
            == timer.expire_spec(now).0,
{
}

/// A running stopwatch gains exactly the time that passes; a stopped one
/// shows the same time whenever it is read.
pub proof fn lemma_stopwatch_follows_time(p: StopwatchParts, now: u128, later: u128)
    requires
        now <= later,
    ensures
        p.0 matches Some(at) && at <= now ==> stopwatch_elapsed(p, later) == stopwatch_elapsed(p, now) + (later
            - now),
        p.0 is None ==> stopwatch_elapsed(p, later) == stopwatch_elapsed(p, now) && stopwatch_elapsed(p, now)
            == p.1,
{
}

/// A running timer loses exactly the time that passes, down to zero and no
/// further; a stopped one keeps what it had left whenever it is read.
pub proof fn lemma_timer_follows_time(timer: TimerData, now: u128, later: u128)
    requires
        now <= later,
    ensures
        timer.started_at matches Some(at) && at <= now ==> timer.remaining_spec(later) == (if timer.remaining_spec(
            now,
        ) >= later - now {
            timer.remaining_spec(now) - (later - now)
        } else {
            0
        }),
        timer.started_at is None ==> timer.remaining_spec(later) == timer.remaining_at_pause
            && timer.remaining_spec(now) == timer.remaining_at_pause,
{
}

/// What is left of a timer never exceeds its length.
pub open spec fn timer_wf(timer: TimerData) -> bool {
    timer.remaining_at_pause <= timer.duration
}

/// Every operation on a timer keeps what is left within its length, and
/// so does every read of the time left.
pub proof fn lemma_timer_ops_keep_wf(timer: TimerData, now: u128, minutes: u32)
    requires
        timer_wf(timer),
    ensures
        timer_wf(timer.toggled(now)),
        timer_wf(timer.reset_spec()),
        timer_wf(TimerData::preset_spec(minutes)),
        timer_wf(timer.expire_spec(now).0),
        timer.remaining_spec(now) <= timer.duration,
{
}

/// Pausing and resuming at the same instant leaves the time left as it
/// was, as long as some was left.
pub proof fn lemma_timer_pause_resume(timer: TimerData, now: u128)
    requires
        timer.started_at is Some,
        !timer.finished,
        timer.remaining_spec(now) > 0,
    ensures
        timer.toggled(now).toggled(now).remaining_spec(now) == timer.remaining_spec(now),
        timer.toggled(now).toggled(now).started_at == Some(now),
{
}

/// Everything the clock keeps.
#[derive(Debug, Clone)]
pub struct ClockData {
    pub alarms: Vec<Alarm>,
    pub stopwatch: StopwatchData,
    pub timer: TimerData,
}

impl ClockData {
    pub fn new() -> (r: Self)
        ensures
            r.alarms@.len() == 0,
            r.stopwatch.parts() == (None::<u128>, 0u128, Seq::<u128>::empty()),
            r.timer.duration == DEFAULT_TIMER_MINUTES * 60 * NANOS_PER_SECOND,
            r.timer.started_at is None,
            r.timer.remaining_at_pause == r.timer.duration,
            !r.timer.finished,
    {
        ClockData { alarms: Vec::new(), stopwatch: StopwatchData::new(), timer: TimerData::default() }
    }
}

/// An alarm being edited in the picker; `index` is `None` for a new one.
#[derive(Debug, Clone, Copy, PartialEq, Eq, Structural)]
pub struct AlarmEditor {
    pub index: Option<usize>,
    pub hour: u8,
    pub minute: u8,
    pub repeat: Repeat,
}

impl AlarmEditor {
    /// An editor for a new alarm at 07:00, every day.
    pub fn blank() -> (r: Self)
        ensures
            r == (AlarmEditor { index: None, hour: 7, minute: 0, repeat: Repeat::Daily }),
    {
        AlarmEditor { index: None, hour: 7, minute: 0, repeat: Repeat::Daily }
    }

    /// An editor holding the alarm at `index`.
    pub fn for_alarm(index: usize, alarm: &Alarm) -> (r: Self)
        ensures
            r == (AlarmEditor {
                index: Some(index),
                hour: alarm.hour,
                minute: alarm.minute,
                repeat: alarm.repeat,
            }),
    {
        AlarmEditor { index: Some(index), hour: alarm.hour, minute: alarm.minute, repeat: alarm.repeat }
    }
}

} // verus!
