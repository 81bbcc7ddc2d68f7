//! What the clock panel shows: how many alarm rows and laps fit, which
//! laps they are, and the labels of its buttons.

use vstd::prelude::*;

use crate::clock::action::{ClockAction, ClockTab};
use crate::clock::state::{AlarmEditor, ClockData};
use crate::text::{decimal, push_decimal, push_str};

verus! {

/// Alarms listed before the rest is summed up as "+N más".
pub const VISIBLE_ALARMS: usize = 6;

/// Laps listed before the rest is summed up as "+N más".
pub const VISIBLE_LAPS: usize = 5;

/// The clock panel over the clock's data, the tab on show and the alarm
/// being edited.
pub struct ClockPanel<'a> {
    pub data: &'a ClockData,
    pub active_tab: ClockTab,
    pub editor: Option<&'a AlarmEditor>,
}

pub open spec fn min_usize(a: usize, b: usize) -> usize {
    if a < b { a } else { b }
}

/// The laps on show, newest first: at most `VISIBLE_LAPS`, each with its
/// number (the first lap is number 1) and its time.
pub open spec fn shown_laps_spec(laps: Seq<u128>) -> Seq<(usize, u128)> {
    Seq::new(
        min_usize(laps.len() as usize, VISIBLE_LAPS) as nat,
        |k: int| ((laps.len() - k) as usize, laps[laps.len() - 1 - k]),
    )
}

/// The editor's buttons, with delete for an existing alarm.
pub open spec fn editor_actions_spec(existing: bool) -> Seq<ClockAction> {
    if existing {
        seq![ClockAction::EditorCancel, ClockAction::EditorSave, ClockAction::DeleteAlarm]
    } else {
        seq![ClockAction::EditorCancel, ClockAction::EditorSave]
    }
}

/// "+N más".
pub open spec fn more_label_text(hidden: usize) -> Seq<char> {
    "+"@ + decimal(hidden as nat) + " más"@
}

/// "Vuelta N".
pub open spec fn lap_label_text(number: usize) -> Seq<char> {
    "Vuelta "@ + decimal(number as nat)
}

/// The summary of what is not listed.
pub fn more_label(hidden: usize) -> (r: String)
    ensures
        r@ == more_label_text(hidden),
{
    let mut s = String::new();
    push_str(&mut s, "+");
    push_decimal(&mut s, hidden as u128);
    push_str(&mut s, " más");
    s
}

/// The name of a lap.
pub fn lap_label(number: usize) -> (r: String)
    ensures
        r@ == lap_label_text(number),
{
    let mut s = String::new();
    push_str(&mut s, "Vuelta ");
    push_decimal(&mut s, number as u128);
    s
}

impl<'a> ClockPanel<'a> {
    pub fn new(data: &'a ClockData, active_tab: ClockTab, editor: Option<&'a AlarmEditor>) -> (r: Self)
        ensures
            r.data == data,
            r.active_tab == active_tab,
            r.editor == editor,
    {
        ClockPanel { data, active_tab, editor }
    }

    /// Alarm rows listed.
    pub fn shown_alarms(&self) -> (r: usize)
        ensures
            r == min_usize(self.data.alarms@.len() as usize, VISIBLE_ALARMS),
    {
        if self.data.alarms.len() < VISIBLE_ALARMS {
            self.data.alarms.len()
        } else {
            VISIBLE_ALARMS
        }
    }

    /// Alarms summed up instead of listed.
    pub fn hidden_alarms(&self) -> (r: usize)
        ensures
            r == if self.data.alarms@.len() > VISIBLE_ALARMS {
                (self.data.alarms@.len() - VISIBLE_ALARMS) as usize
            } else {
                0
            },
    {
        self.data.alarms.len().saturating_sub(VISIBLE_ALARMS)
    }

    /// Laps summed up instead of listed.
    pub fn hidden_laps(&self) -> (r: usize)
        ensures
            r == if self.data.stopwatch.laps@.len() > VISIBLE_LAPS {
                (self.data.stopwatch.laps@.len() - VISIBLE_LAPS) as usize
            } else {
                0
            },
    {
        self.data.stopwatch.laps.len().saturating_sub(VISIBLE_LAPS)
    }

    /// The laps listed, newest first, with their numbers.
    pub fn shown_laps(&self) -> (r: Vec<(usize, u128)>)
        ensures
            r@ == shown_laps_spec(self.data.stopwatch.laps@),
    {
        let laps = &self.data.stopwatch.laps;
        let n = laps.len();
        let count = if n < VISIBLE_LAPS { n } else { VISIBLE_LAPS };
        let mut shown: Vec<(usize, u128)> = Vec::new();
        let mut k: usize = 0;
        while k < count
            invariant
                n == laps@.len(),
                count == min_usize(n, VISIBLE_LAPS),
                k <= count,
                shown@ =~= shown_laps_spec(laps@).take(k as int),
            decreases count - k,
        {
            shown.push((n - k, laps[n - 1 - k]));
            k = k + 1;
        }
        shown
    }

    /// The label of the start/stop button: it pauses a running stopwatch
    /// and starts a stopped one.
    pub fn stopwatch_toggle_label(&self) -> (r: &'static str)
        ensures
            self.data.stopwatch.started_at is Some ==> r@ == "Pausar"@,
            self.data.stopwatch.started_at is None ==> r@ == "Iniciar"@,
    {
        if self.data.stopwatch.running() {
            "Pausar"
        } else {
            "Iniciar"
        }
    }

    /// The editor's buttons: cancel and save, and delete when the editor
    /// was opened on an existing alarm.
    pub fn editor_actions(&self) -> (r: Vec<ClockAction>)
        ensures
            r@ == editor_actions_spec(self.editor matches Some(e) && e.index is Some),
    {
        let mut actions = vec![ClockAction::EditorCancel, ClockAction::EditorSave];
        if let Some(editor) = self.editor {
            if editor.index.is_some() {
                actions.push(ClockAction::DeleteAlarm);
            }
        }
        actions
    }
}

} // verus!
