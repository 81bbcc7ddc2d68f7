//! The clock pill's state machine: which tab its panel shows, the alarm
//! being edited, and what each click does to the clock's data.

use vstd::prelude::*;

use crate::clock::action::{ClockAction, ClockTab, clock_action_of};
use crate::clock::alarms::{
    lemma_sort_by_time, save_editor, saved_alarms, time_key, time_sorted, written_alarms,
};
use crate::clock::state::{
    Alarm, AlarmEditor, ClockData, MAX_DURATION_NANOS, Repeat, StopwatchData, TimerData,
    stopwatch_lapped, stopwatch_toggled,
};
use crate::components::{DropdownId, Interaction};
use crate::text::{all_digits, digits_value, lemma_two_fields_read_back, pad2, push_char, push_pad2};

verus! {

/// How far one click moves the minutes of the alarm picker.
pub const MINUTE_STEP: u8 = 5;

/// Repaint cadence of the open panel, in milliseconds: hundredths of the
/// running stopwatch, the ring of the running timer, the clock's seconds.
pub const STOPWATCH_TICK_MILLIS: u64 = 50;
pub const TIMER_TICK_MILLIS: u64 = 200;
pub const CLOCK_TICK_MILLIS: u64 = 1000;

pub struct ClockPill {
    pub active_tab: ClockTab,
    pub editor: Option<AlarmEditor>,
    /// Text measured for this frame, drawn by the same frame.
    pub frame_text: Option<String>,
}

/// What handling a clock action asks of the caller besides a repaint.
#[derive(Debug, Clone, Copy, PartialEq, Eq, Structural)]
pub struct ClockOutcome {
    /// The alarms changed and must be written to disk.
    pub save_alarms: bool,
}

pub open spec fn hour_up(hour: u8) -> u8 {
    ((hour + 1) % 24) as u8
}

pub open spec fn hour_down(hour: u8) -> u8 {
    ((hour + 23) % 24) as u8
}

pub open spec fn minute_up(minute: u8) -> u8 {
    ((minute + MINUTE_STEP) % 60) as u8
}

pub open spec fn minute_down(minute: u8) -> u8 {
    ((minute + 60 - MINUTE_STEP) % 60) as u8
}

/// Whether an action can be carried out without an arithmetic overflow:
/// the picker computes in `u8` and the stopwatch's time must fit in a
/// `Duration`.
pub open spec fn clock_step_defined(
    editor: Option<AlarmEditor>,
    stopwatch: StopwatchData,
    action: ClockAction,
    now: u128,
) -> bool {
    match action {
        ClockAction::EditorHourUp => editor matches Some(e) ==> e.hour < 255,
        ClockAction::EditorHourDown => editor matches Some(e) ==> e.hour <= 232,
        ClockAction::EditorMinuteUp => editor matches Some(e) ==> e.minute <= 250,
        ClockAction::EditorMinuteDown => editor matches Some(e) ==> e.minute <= 195,
        ClockAction::StopwatchToggle => stopwatch.elapsed_spec(now) <= MAX_DURATION_NANOS,
        ClockAction::StopwatchLap => stopwatch.elapsed_spec(now) <= MAX_DURATION_NANOS,
        _ => true,
    }
}

/// The same, for whatever action an interaction carries.
pub open spec fn clock_interaction_defined(
    editor: Option<AlarmEditor>,
    stopwatch: StopwatchData,
    interaction: Interaction,
    now: u128,
) -> bool {
    match clock_action_of(interaction) {
        Some(action) => clock_step_defined(editor, stopwatch, action, now),
        None => true,
    }
}

pub open spec fn tab_after(tab: ClockTab, action: ClockAction) -> ClockTab {
    match action {
        ClockAction::SelectTab(t) => t,
        _ => tab,
    }
}

/// The editor opened on the alarm at `index`.
pub open spec fn editor_for(index: usize, alarm: Alarm) -> AlarmEditor {
    AlarmEditor { index: Some(index), hour: alarm.hour, minute: alarm.minute, repeat: alarm.repeat }
}

/// The editor of a new alarm: 07:00, every day.
pub open spec fn blank_editor() -> AlarmEditor {
    AlarmEditor { index: None, hour: 7, minute: 0, repeat: Repeat::Daily }
}

pub open spec fn editor_after(
    editor: Option<AlarmEditor>,
    alarms: Seq<Alarm>,
    action: ClockAction,
) -> Option<AlarmEditor> {
    match action {
        ClockAction::SelectTab(_) => None,
        ClockAction::EditAlarm(index) => if index < alarms.len() {
            Some(editor_for(index, alarms[index as int]))
        } else {
            editor
        },
        ClockAction::NewAlarm => Some(blank_editor()),
        ClockAction::EditorCancel => None,
        ClockAction::EditorSave => None,
        ClockAction::DeleteAlarm => None,
        ClockAction::EditorHourUp => match editor {
            Some(e) => Some(AlarmEditor { hour: hour_up(e.hour), ..e }),
            None => None,
        },
        ClockAction::EditorHourDown => match editor {
            Some(e) => Some(AlarmEditor { hour: hour_down(e.hour), ..e }),
            None => None,
        },
        ClockAction::EditorMinuteUp => match editor {
            Some(e) => Some(AlarmEditor { minute: minute_up(e.minute), ..e }),
            None => None,
        },
        ClockAction::EditorMinuteDown => match editor {
            Some(e) => Some(AlarmEditor { minute: minute_down(e.minute), ..e }),
            None => None,
        },
        ClockAction::EditorRepeat(repeat) => match editor {
            Some(e) => Some(AlarmEditor { repeat, ..e }),
            None => None,
        },
        _ => editor,
    }
}

/// The alarm at `index` switched on or off.
pub open spec fn toggled_alarm(alarm: Alarm) -> Alarm {
    Alarm { enabled: !alarm.enabled, ..alarm }
}

/// The alarms after an action, and whether they changed and must be
/// saved.
pub open spec fn alarms_after(
    editor: Option<AlarmEditor>,
    alarms: Seq<Alarm>,
    action: ClockAction,
) -> (Seq<Alarm>, bool) {
    match action {
        ClockAction::ToggleAlarm(index) => if index < alarms.len() {
            (alarms.update(index as int, toggled_alarm(alarms[index as int])), true)
        } else {
            (alarms, false)
        },
        ClockAction::EditorSave => match editor {
            Some(e) => (saved_alarms(e, alarms), true),
            None => (alarms, false),
        },
        ClockAction::DeleteAlarm => match editor {
            Some(e) => match e.index {
                Some(index) => if index < alarms.len() {
                    (alarms.remove(index as int), true)
                } else {
                    (alarms, false)
                },
                None => (alarms, false),
            },
            None => (alarms, false),
        },
        _ => (alarms, false),
    }
}

pub open spec fn stopwatch_after(stopwatch: StopwatchData, action: ClockAction, now: u128) -> (
    Option<u128>,
    u128,
    Seq<u128>,
) {
    match action {
        ClockAction::StopwatchToggle => stopwatch_toggled(stopwatch.parts(), now),
        ClockAction::StopwatchLap => stopwatch_lapped(stopwatch.parts(), now),
        ClockAction::StopwatchReset => (None, 0, Seq::empty()),
        _ => stopwatch.parts(),
    }
}

pub open spec fn timer_after(timer: TimerData, action: ClockAction, now: u128) -> TimerData {
    match action {
        ClockAction::TimerToggle => timer.toggled(now),
        ClockAction::TimerReset => timer.reset_spec(),
        ClockAction::TimerPreset(minutes) => TimerData::preset_spec(minutes),
        _ => timer,
    }
}

/// One clock action, from the pill and the data before to the pill, the
/// data and the outcome after.
pub open spec fn clock_step(
    before: ClockPill,
    data: ClockData,
    after: ClockPill,
    data_after: ClockData,
    action: ClockAction,
    now: u128,
    outcome: ClockOutcome,
) -> bool {
    &&& after.active_tab == tab_after(before.active_tab, action)
    &&& after.editor == editor_after(before.editor, data.alarms@, action)
    &&& data_after.alarms@ == alarms_after(before.editor, data.alarms@, action).0
    &&& outcome.save_alarms == alarms_after(before.editor, data.alarms@, action).1
    &&& data_after.stopwatch.parts() == stopwatch_after(data.stopwatch, action, now)
    &&& data_after.timer == timer_after(data.timer, action, now)
}

/// The repaint cadence for the tab on show.
pub open spec fn tick_millis_spec(tab: ClockTab, stopwatch_running: bool, timer_running: bool) -> u64 {
    match tab {
        ClockTab::Stopwatch => if stopwatch_running { STOPWATCH_TICK_MILLIS } else { CLOCK_TICK_MILLIS },
        ClockTab::Timer => if timer_running { TIMER_TICK_MILLIS } else { CLOCK_TICK_MILLIS },
        _ => CLOCK_TICK_MILLIS,
    }
}

/// The pill's text: hours and minutes, two digits each ("%H:%M").
pub open spec fn hour_minute_text(hour: u32, minute: u32) -> Seq<char> {
    pad2(hour as nat) + seq![':'] + pad2(minute as nat)
}

/// The pill's clock reads back as the hour and minute: "HH:MM", two
/// digits on each side of the colon.
pub proof fn lemma_hour_minute_reads_back(hour: u32, minute: u32)
    ensures
        hour < 100 && minute < 100 ==> {
            let t = hour_minute_text(hour, minute);
            &&& t.len() == 5
            &&& t[2] == ':'
            &&& all_digits(t.subrange(0, 2))
            &&& all_digits(t.subrange(3, 5))
            &&& digits_value(t.subrange(0, 2)) == hour
            &&& digits_value(t.subrange(3, 5)) == minute
        },
{
    if hour < 100 && minute < 100 {
        lemma_two_fields_read_back(hour as nat, minute as nat, ':');
    }
}

pub fn hour_minute(hour: u32, minute: u32) -> (r: String)
    ensures
        r@ == hour_minute_text(hour, minute),
{
    let mut s = String::new();
    push_pad2(&mut s, hour as u128);
    push_char(&mut s, ':');
    push_pad2(&mut s, minute as u128);
    s
}

impl ClockPill {
    /// Whether the clock dropdown is the open one.
    pub fn is_active(&self, open_dropdown: Option<DropdownId>) -> (r: bool)
        ensures
            r == (open_dropdown == Some(DropdownId::Clock)),
    {
        match open_dropdown {
            Some(id) => id == DropdownId::Clock,
            None => false,
        }
    }

    /// Keeps the text measured for this frame.
    pub fn set_frame_text(&mut self, text: String)
        ensures
            final(self).frame_text == Some(text),
            final(self).active_tab == old(self).active_tab,
            final(self).editor == old(self).editor,
    {
        self.frame_text = Some(text);
    }

    /// The text measured for this frame, once.
    pub fn take_frame_text(&mut self) -> (r: Option<String>)
        ensures
            r == old(self).frame_text,
            final(self).frame_text is None,
            final(self).active_tab == old(self).active_tab,
            final(self).editor == old(self).editor,
    {
        self.frame_text.take()
    }

    /// A pill showing the clock tab, with no alarm being edited.
    pub fn new() -> (r: Self)
        ensures
            r.active_tab == ClockTab::Clock,
            r.editor is None,
            r.frame_text is None,
    {
        ClockPill { active_tab: ClockTab::Clock, editor: None, frame_text: None }
    }

    /// The panel closed: the next opening starts on the clock tab with no
    /// editor.
    pub fn close(&mut self)
        ensures
            final(self).active_tab == ClockTab::Clock,
            final(self).editor is None,
            final(self).frame_text == old(self).frame_text,
    {
        self.active_tab = ClockTab::Clock;
        self.editor = None;
    }

    /// How often the open panel repaints, in milliseconds.
    pub fn dropdown_tick_millis(&self, data: &ClockData) -> (r: u64)
        ensures
            r == tick_millis_spec(self.active_tab, data.stopwatch.started_at is Some, data.timer.started_at is Some),
    {
        match self.active_tab {
            ClockTab::Stopwatch => if data.stopwatch.running() {
                STOPWATCH_TICK_MILLIS
            } else {
                CLOCK_TICK_MILLIS
            },
            ClockTab::Timer => if data.timer.running() {
                TIMER_TICK_MILLIS
            } else {
                CLOCK_TICK_MILLIS
            },
            _ => CLOCK_TICK_MILLIS,
        }
    }

    /// Whether `handle_interaction` can take this interaction at `now`.
    pub fn accepts(&self, data: &ClockData, interaction: Interaction, now: u128) -> (r: bool)
        ensures
            r == clock_interaction_defined(self.editor, data.stopwatch, interaction, now),
    {
        let action = match ClockAction::from_interaction(interaction) {
            Some(action) => action,
            None => return true,
        };
        match action {
            ClockAction::EditorHourUp => match &self.editor {
                Some(e) => e.hour < 255,
                None => true,
            },
            ClockAction::EditorHourDown => match &self.editor {
                Some(e) => e.hour <= 232,
                None => true,
            },
            ClockAction::EditorMinuteUp => match &self.editor {
                Some(e) => e.minute <= 250,
                None => true,
            },
            ClockAction::EditorMinuteDown => match &self.editor {
                Some(e) => e.minute <= 195,
                None => true,
            },
            ClockAction::StopwatchToggle | ClockAction::StopwatchLap => {
                stopwatch_fits(&data.stopwatch, now)
            },
            _ => true,
        }
    }

    /// Carries out a clock action at instant `now` on the pill and on the
    /// clock's data. `None` when the interaction is not the clock's.
    pub fn handle_interaction(&mut self, data: &mut ClockData, interaction: Interaction, now: u128) -> (r:
        Option<ClockOutcome>)
        requires
            clock_interaction_defined(old(self).editor, old(data).stopwatch, interaction, now),
        ensures
            final(self).frame_text == old(self).frame_text,
            clock_action_of(interaction) is None ==> r is None && final(self).active_tab == old(
                self,
            ).active_tab && final(self).editor == old(self).editor && *final(data) == *old(data),
            clock_action_of(interaction) is Some ==> r is Some && clock_step(
                *old(self),
                *old(data),
                *final(self),
                *final(data),
                clock_action_of(interaction)->0,
                now,
                r->0,
            ),
    {
        let action = match ClockAction::from_interaction(interaction) {
            Some(action) => action,
            None => return None,
        };
        let mut save_alarms = false;
        match action {
            ClockAction::SelectTab(tab) => {
                self.active_tab = tab;
                self.editor = None;
            },
            ClockAction::ToggleAlarm(index) => {
                if index < data.alarms.len() {
                    let ghost before = data.alarms@;
                    let mut alarm = data.alarms.remove(index);
                    alarm.enabled = !alarm.enabled;
                    data.alarms.insert(index, alarm);
                    assert(data.alarms@ =~= before.update(index as int, toggled_alarm(before[index as int])));
                    save_alarms = true;
                }
            },
            ClockAction::EditAlarm(index) => {
                if index < data.alarms.len() {
                    self.editor = Some(AlarmEditor::for_alarm(index, &data.alarms[index]));
                }
            },
            ClockAction::NewAlarm => {
                self.editor = Some(AlarmEditor::blank());
            },
            ClockAction::EditorCancel => {
                self.editor = None;
            },
            ClockAction::EditorHourUp => {
                if let Some(editor) = self.editor {
                    self.editor = Some(AlarmEditor { hour: (editor.hour + 1) % 24, ..editor });
                }
            },
            ClockAction::EditorHourDown => {
                if let Some(editor) = self.editor {
                    self.editor = Some(AlarmEditor { hour: (editor.hour + 23) % 24, ..editor });
                }
            },
            ClockAction::EditorMinuteUp => {
                if let Some(editor) = self.editor {
                    self.editor = Some(
                        AlarmEditor { minute: (editor.minute + MINUTE_STEP) % 60, ..editor },
                    );
                }
            },
            ClockAction::EditorMinuteDown => {
                if let Some(editor) = self.editor {
                    self.editor = Some(
                        AlarmEditor { minute: (editor.minute + 60 - MINUTE_STEP) % 60, ..editor },
                    );
                }
            },
            ClockAction::EditorRepeat(repeat) => {
                if let Some(editor) = self.editor {
                    self.editor = Some(AlarmEditor { repeat, ..editor });
                }
            },
            ClockAction::EditorSave => {
                if let Some(editor) = self.editor.take() {
                    save_editor(&mut data.alarms, editor);
                    save_alarms = true;
                }
            },
            ClockAction::DeleteAlarm => {
                if let Some(editor) = self.editor.take() {
                    if let Some(index) = editor.index {
                        if index < data.alarms.len() {
                            data.alarms.remove(index);
                            save_alarms = true;
                        }
                    }
                }
            },
            ClockAction::StopwatchToggle => data.stopwatch.toggle(now),
            ClockAction::StopwatchLap => data.stopwatch.lap(now),
            ClockAction::StopwatchReset => data.stopwatch.reset(),
            ClockAction::TimerToggle => data.timer.toggle(now),
            ClockAction::TimerReset => data.timer.reset(),
            ClockAction::TimerPreset(minutes) => data.timer.set_minutes(minutes),
        }
        Some(ClockOutcome { save_alarms })
    }
}

/// No clock action takes the alarms out of time order.
pub proof fn lemma_clock_actions_keep_alarms_sorted(
    editor: Option<AlarmEditor>,
    alarms: Seq<Alarm>,
    action: ClockAction,
)
    requires
        time_sorted(alarms),
    ensures
        time_sorted(alarms_after(editor, alarms, action).0),
{
    match action {
        ClockAction::ToggleAlarm(index) => {
            if index < alarms.len() {
                let after = alarms_after(editor, alarms, action).0;
                assert forall|i: int, j: int| 0 <= i < j < after.len() implies time_key(after[i])
                    <= time_key(after[j]) by {
                    assert(time_key(after[i]) == time_key(alarms[i]));
                    assert(time_key(after[j]) == time_key(alarms[j]));
                }
            }
        },
        ClockAction::EditorSave => {
            if let Some(e) = editor {
                lemma_sort_by_time(written_alarms(e, alarms));
            }
        },
        ClockAction::DeleteAlarm => {
            let after = alarms_after(editor, alarms, action).0;
            if after != alarms {
                let index = editor->0.index->0;
                assert forall|i: int, j: int| 0 <= i < j < after.len() implies time_key(after[i])
                    <= time_key(after[j]) by {
                    let oi = if i < index { i } else { i + 1 };
                    let oj = if j < index { j } else { j + 1 };
                    assert(after[i] == alarms[oi]);
                    assert(after[j] == alarms[oj]);
                }
            }
        },
        _ => {},
    }
}

/// Switching the same alarm twice leaves the alarms as they were.
pub proof fn lemma_toggle_alarm_twice(editor: Option<AlarmEditor>, alarms: Seq<Alarm>, index: usize)
    ensures
        alarms_after(
            editor,
            alarms_after(editor, alarms, ClockAction::ToggleAlarm(index)).0,
            ClockAction::ToggleAlarm(index),
        ).0 == alarms,
{
    let once = alarms_after(editor, alarms, ClockAction::ToggleAlarm(index)).0;
    let twice = alarms_after(editor, once, ClockAction::ToggleAlarm(index)).0;
    if index < alarms.len() {
        assert(twice =~= alarms);
    }
}

/// The picker's steps stay on the clock face, and a step up followed by a
/// step down returns to where it started.
pub proof fn lemma_picker_steps(hour: u8, minute: u8)
    requires
        hour < 24,
        minute < 60,
    ensures
        hour_up(hour) < 24,
        hour_down(hour) < 24,
        minute_up(minute) < 60,
        minute_down(minute) < 60,
        hour_down(hour_up(hour)) == hour,
        hour_up(hour_down(hour)) == hour,
        minute_down(minute_up(minute)) == minute,
        minute_up(minute_down(minute)) == minute,
{
}

fn stopwatch_fits(stopwatch: &StopwatchData, now: u128) -> (r: bool)
    ensures
        r == (stopwatch.elapsed_spec(now) <= MAX_DURATION_NANOS),
{
    match stopwatch.started_at {
        Some(at) => {
            let ran = now.saturating_sub(at);
            stopwatch.accumulated <= MAX_DURATION_NANOS && ran <= MAX_DURATION_NANOS - stopwatch.accumulated
        },
        None => stopwatch.accumulated <= MAX_DURATION_NANOS,
    }
}

} // verus!
