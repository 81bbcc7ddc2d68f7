//! The clickable things of the clock panel and their encoding as
//! component actions.

use vstd::prelude::*;

use crate::clock::state::Repeat;
use crate::components::{ComponentAction, ComponentTag, Interaction};

verus! {

pub const TAB_CODE_BASE: u16 = 0;
pub const TOGGLE_ALARM_CODE: u16 = 10;
pub const EDIT_ALARM_CODE: u16 = 11;
pub const DELETE_ALARM_CODE: u16 = 12;
pub const NEW_ALARM_CODE: u16 = 13;
pub const EDITOR_SAVE_CODE: u16 = 14;
pub const EDITOR_CANCEL_CODE: u16 = 15;
pub const EDITOR_HOUR_UP_CODE: u16 = 16;
pub const EDITOR_HOUR_DOWN_CODE: u16 = 17;
pub const EDITOR_MINUTE_UP_CODE: u16 = 18;
pub const EDITOR_MINUTE_DOWN_CODE: u16 = 19;
pub const EDITOR_REPEAT_CODE: u16 = 20;
pub const STOPWATCH_TOGGLE_CODE: u16 = 30;
pub const STOPWATCH_LAP_CODE: u16 = 31;
pub const STOPWATCH_RESET_CODE: u16 = 32;
pub const TIMER_TOGGLE_CODE: u16 = 40;
pub const TIMER_RESET_CODE: u16 = 41;
pub const TIMER_PRESET_CODE: u16 = 42;

/// Tabs of the clock panel.
#[derive(Debug, Clone, Copy, PartialEq, Eq, Structural)]
pub enum ClockTab {
    Clock,
    Alarms,
    Stopwatch,
    Timer,
}

/// Everything clickable inside the clock panel.
#[derive(Debug, Clone, Copy, PartialEq, Eq, Structural)]
pub enum ClockAction {
    SelectTab(ClockTab),
    ToggleAlarm(usize),
    EditAlarm(usize),
    DeleteAlarm,
    NewAlarm,
    EditorSave,
    EditorCancel,
    EditorHourUp,
    EditorHourDown,
    EditorMinuteUp,
    EditorMinuteDown,
    EditorRepeat(Repeat),
    StopwatchToggle,
    StopwatchLap,
    StopwatchReset,
    TimerToggle,
    TimerReset,
    /// Minutes of the chosen preset (1, 5, 10, 25).
    TimerPreset(u32),
}

pub open spec fn tab_code(tab: ClockTab) -> u16 {
    match tab {
        ClockTab::Clock => 0,
        ClockTab::Alarms => 1,
        ClockTab::Stopwatch => 2,
        ClockTab::Timer => 3,
    }
}

pub open spec fn tab_from_code(code: u16) -> Option<ClockTab> {
    if code == 0 {
        Some(ClockTab::Clock)
    } else if code == 1 {
        Some(ClockTab::Alarms)
    } else if code == 2 {
        Some(ClockTab::Stopwatch)
    } else if code == 3 {
        Some(ClockTab::Timer)
    } else {
        None
    }
}

impl Default for ClockTab {
    fn default() -> (r: Self)
        ensures
            r == ClockTab::Clock,
    {
        ClockTab::Clock
    }
}

impl ClockTab {
    pub fn all() -> (r: [ClockTab; 4])
        ensures
            r@ == seq![ClockTab::Clock, ClockTab::Alarms, ClockTab::Stopwatch, ClockTab::Timer],
    {
        [ClockTab::Clock, ClockTab::Alarms, ClockTab::Stopwatch, ClockTab::Timer]
    }

    pub fn label(self) -> (r: &'static str)
        ensures
            r@ == (match self {
                ClockTab::Clock => "Reloj"@,
                ClockTab::Alarms => "Alarmas"@,
                ClockTab::Stopwatch => "Cronómetro"@,
                ClockTab::Timer => "Temporizador"@,
            }),
    {
        match self {
            ClockTab::Clock => "Reloj",
            ClockTab::Alarms => "Alarmas",
            ClockTab::Stopwatch => "Cronómetro",
            ClockTab::Timer => "Temporizador",
        }
    }

    pub fn code(self) -> (r: u16)
        ensures
            r == tab_code(self),
    {
        match self {
            ClockTab::Clock => 0,
            ClockTab::Alarms => 1,
            ClockTab::Stopwatch => 2,
            ClockTab::Timer => 3,
        }
    }

    pub fn from_code(code: u16) -> (r: Option<ClockTab>)
        ensures
            r == tab_from_code(code),
    {
        match code {
            0 => Some(ClockTab::Clock),
            1 => Some(ClockTab::Alarms),
            2 => Some(ClockTab::Stopwatch),
            3 => Some(ClockTab::Timer),
            _ => None,
        }
    }
}

/// The (id, payload) pair an action travels as.
pub open spec fn encode_spec(action: ClockAction) -> (u16, i32) {
    match action {
        ClockAction::SelectTab(tab) => ((TAB_CODE_BASE + tab_code(tab)) as u16, 0),
        ClockAction::ToggleAlarm(index) => (TOGGLE_ALARM_CODE, index as i32),
        ClockAction::EditAlarm(index) => (EDIT_ALARM_CODE, index as i32),
        ClockAction::DeleteAlarm => (DELETE_ALARM_CODE, 0),
        ClockAction::NewAlarm => (NEW_ALARM_CODE, 0),
        ClockAction::EditorSave => (EDITOR_SAVE_CODE, 0),
        ClockAction::EditorCancel => (EDITOR_CANCEL_CODE, 0),
        ClockAction::EditorHourUp => (EDITOR_HOUR_UP_CODE, 0),
        ClockAction::EditorHourDown => (EDITOR_HOUR_DOWN_CODE, 0),
        ClockAction::EditorMinuteUp => (EDITOR_MINUTE_UP_CODE, 0),
        ClockAction::EditorMinuteDown => (EDITOR_MINUTE_DOWN_CODE, 0),
        ClockAction::EditorRepeat(repeat) => (EDITOR_REPEAT_CODE, repeat.code_spec() as i32),
        ClockAction::StopwatchToggle => (STOPWATCH_TOGGLE_CODE, 0),
        ClockAction::StopwatchLap => (STOPWATCH_LAP_CODE, 0),
        ClockAction::StopwatchReset => (STOPWATCH_RESET_CODE, 0),
        ClockAction::TimerToggle => (TIMER_TOGGLE_CODE, 0),
        ClockAction::TimerReset => (TIMER_RESET_CODE, 0),
        ClockAction::TimerPreset(minutes) => (TIMER_PRESET_CODE, minutes as i32),
    }
}

/// A negative payload counts as zero.
pub open spec fn clamp_payload(value: i32) -> int {
    if value < 0 { 0 } else { value as int }
}

/// The action an (id, payload) pair stands for.
pub open spec fn decode_spec(code: u16, value: i32) -> Option<ClockAction> {
    if code == TOGGLE_ALARM_CODE {
        Some(ClockAction::ToggleAlarm(clamp_payload(value) as usize))
    } else if code == EDIT_ALARM_CODE {
        Some(ClockAction::EditAlarm(clamp_payload(value) as usize))
    } else if code == DELETE_ALARM_CODE {
        Some(ClockAction::DeleteAlarm)
    } else if code == NEW_ALARM_CODE {
        Some(ClockAction::NewAlarm)
    } else if code == EDITOR_SAVE_CODE {
        Some(ClockAction::EditorSave)
    } else if code == EDITOR_CANCEL_CODE {
        Some(ClockAction::EditorCancel)
    } else if code == EDITOR_HOUR_UP_CODE {
        Some(ClockAction::EditorHourUp)
    } else if code == EDITOR_HOUR_DOWN_CODE {
        Some(ClockAction::EditorHourDown)
    } else if code == EDITOR_MINUTE_UP_CODE {
        Some(ClockAction::EditorMinuteUp)
    } else if code == EDITOR_MINUTE_DOWN_CODE {
        Some(ClockAction::EditorMinuteDown)
    } else if code == EDITOR_REPEAT_CODE {
        match Repeat::from_code_spec(clamp_payload(value) as u8) {
            Some(repeat) => Some(ClockAction::EditorRepeat(repeat)),
            None => None,
        }
    } else if code == STOPWATCH_TOGGLE_CODE {
        Some(ClockAction::StopwatchToggle)
    } else if code == STOPWATCH_LAP_CODE {
        Some(ClockAction::StopwatchLap)
    } else if code == STOPWATCH_RESET_CODE {
        Some(ClockAction::StopwatchReset)
    } else if code == TIMER_TOGGLE_CODE {
        Some(ClockAction::TimerToggle)
    } else if code == TIMER_RESET_CODE {
        Some(ClockAction::TimerReset)
    } else if code == TIMER_PRESET_CODE {
        Some(ClockAction::TimerPreset(clamp_payload(value) as u32))
    } else {
        match tab_from_code((code - TAB_CODE_BASE) as u16) {
            Some(tab) => Some(ClockAction::SelectTab(tab)),
            None => None,
        }
    }
}

/// The interaction that carries `action`.
pub open spec fn clock_interaction(action: ClockAction) -> Interaction {
    Interaction::Action(ComponentAction {
        owner: ComponentTag::Clock,
        id: encode_spec(action).0,
        value: encode_spec(action).1,
    })
}

/// The clock action an interaction carries, if any.
pub open spec fn clock_action_of(interaction: Interaction) -> Option<ClockAction> {
    match interaction {
        Interaction::Action(action) => if action.owner == ComponentTag::Clock {
            decode_spec(action.id, action.value)
        } else {
            None
        },
        _ => None,
    }
}

fn non_negative(value: i32) -> (r: i32)
    ensures
        r == clamp_payload(value),
{
    if value < 0 { 0 } else { value }
}

impl ClockAction {
    pub fn interaction(self) -> (r: Interaction)
        ensures
            r == clock_interaction(self),
    {
        let (code, value) = self.encode();
        Interaction::Action(ComponentAction::new(ComponentTag::Clock, code).with_value(value))
    }

    pub fn from_interaction(interaction: Interaction) -> (r: Option<ClockAction>)
        ensures
            r == clock_action_of(interaction),
    {
        let action = match interaction {
            Interaction::Action(action) => action,
            _ => return None,
        };
        if action.owner() != ComponentTag::Clock {
            return None;
        }
        ClockAction::decode(action.id(), action.value())
    }

    /// The id carries the action and the payload its index, repetition or
    /// minutes.
    pub fn encode(self) -> (r: (u16, i32))
        ensures
            r == encode_spec(self),
    {
        match self {
            ClockAction::SelectTab(tab) => (TAB_CODE_BASE + tab.code(), 0),
            ClockAction::ToggleAlarm(index) => (TOGGLE_ALARM_CODE, index as i32),
            ClockAction::EditAlarm(index) => (EDIT_ALARM_CODE, index as i32),
            ClockAction::DeleteAlarm => (DELETE_ALARM_CODE, 0),
            ClockAction::NewAlarm => (NEW_ALARM_CODE, 0),
            ClockAction::EditorSave => (EDITOR_SAVE_CODE, 0),
            ClockAction::EditorCancel => (EDITOR_CANCEL_CODE, 0),
            ClockAction::EditorHourUp => (EDITOR_HOUR_UP_CODE, 0),
            ClockAction::EditorHourDown => (EDITOR_HOUR_DOWN_CODE, 0),
            ClockAction::EditorMinuteUp => (EDITOR_MINUTE_UP_CODE, 0),
            ClockAction::EditorMinuteDown => (EDITOR_MINUTE_DOWN_CODE, 0),
            ClockAction::EditorRepeat(repeat) => (EDITOR_REPEAT_CODE, repeat.code() as i32),
            ClockAction::StopwatchToggle => (STOPWATCH_TOGGLE_CODE, 0),
            ClockAction::StopwatchLap => (STOPWATCH_LAP_CODE, 0),
            ClockAction::StopwatchReset => (STOPWATCH_RESET_CODE, 0),
            ClockAction::TimerToggle => (TIMER_TOGGLE_CODE, 0),
            ClockAction::TimerReset => (TIMER_RESET_CODE, 0),
            ClockAction::TimerPreset(minutes) => (TIMER_PRESET_CODE, minutes as i32),
        }
    }

    pub fn decode(code: u16, value: i32) -> (r: Option<ClockAction>)
        ensures
            r == decode_spec(code, value),
    {
        if code == TOGGLE_ALARM_CODE {
            Some(ClockAction::ToggleAlarm(non_negative(value) as usize))
        } else if code == EDIT_ALARM_CODE {
            Some(ClockAction::EditAlarm(non_negative(value) as usize))
        } else if code == DELETE_ALARM_CODE {
            Some(ClockAction::DeleteAlarm)
        } else if code == NEW_ALARM_CODE {
            Some(ClockAction::NewAlarm)
        } else if code == EDITOR_SAVE_CODE {
            Some(ClockAction::EditorSave)
        } else if code == EDITOR_CANCEL_CODE {
            Some(ClockAction::EditorCancel)
        } else if code == EDITOR_HOUR_UP_CODE {
            Some(ClockAction::EditorHourUp)
        } else if code == EDITOR_HOUR_DOWN_CODE {
            Some(ClockAction::EditorHourDown)
        } else if code == EDITOR_MINUTE_UP_CODE {
            Some(ClockAction::EditorMinuteUp)
        } else if code == EDITOR_MINUTE_DOWN_CODE {
            Some(ClockAction::EditorMinuteDown)
        } else if code == EDITOR_REPEAT_CODE {
            match Repeat::from_code(non_negative(value) as u8) {
                Some(repeat) => Some(ClockAction::EditorRepeat(repeat)),
                None => None,
            }
        } else if code == STOPWATCH_TOGGLE_CODE {
            Some(ClockAction::StopwatchToggle)
        } else if code == STOPWATCH_LAP_CODE {
            Some(ClockAction::StopwatchLap)
        } else if code == STOPWATCH_RESET_CODE {
            Some(ClockAction::StopwatchReset)
        } else if code == TIMER_TOGGLE_CODE {
            Some(ClockAction::TimerToggle)
        } else if code == TIMER_RESET_CODE {
            Some(ClockAction::TimerReset)
        } else if code == TIMER_PRESET_CODE {
            Some(ClockAction::TimerPreset(non_negative(value) as u32))
        } else {
            match ClockTab::from_code(code - TAB_CODE_BASE) {
                Some(tab) => Some(ClockAction::SelectTab(tab)),
                None => None,
            }
        }
    }
}

/// The payload of an action fits the `i32` it travels in.
pub open spec fn payload_fits(action: ClockAction) -> bool {
    match action {
        ClockAction::ToggleAlarm(index) => index <= i32::MAX,
        ClockAction::EditAlarm(index) => index <= i32::MAX,
        ClockAction::TimerPreset(minutes) => minutes <= i32::MAX,
        _ => true,
    }
}

/// Decoding an encoded tab gives the tab back.
pub proof fn lemma_tab_code_round_trip(tab: ClockTab)
    ensures
        tab_from_code(tab_code(tab)) == Some(tab),
{
}

/// Every clock action whose payload fits an `i32` survives the trip
/// through its interaction: reading the interaction back gives the action.
pub proof fn lemma_clock_action_round_trip(action: ClockAction)
    requires
        payload_fits(action),
    ensures
        clock_action_of(clock_interaction(action)) == Some(action),
{
    match action {
        ClockAction::EditorRepeat(repeat) => {
            crate::clock::state::lemma_repeat_code_round_trip(repeat);
        },
        _ => {},
    }
}

} // verus!
