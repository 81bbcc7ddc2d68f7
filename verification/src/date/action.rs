//! Buttons of the calendar panel.

use vstd::prelude::*;

use crate::components::{ComponentAction, ComponentTag, Interaction};

verus! {

#[derive(Debug, Clone, Copy, PartialEq, Eq, Structural)]
pub enum CalendarAction {
    PrevMonth,
    NextMonth,
    Today,
}

pub open spec fn calendar_code(action: CalendarAction) -> u16 {
    match action {
        CalendarAction::PrevMonth => 0,
        CalendarAction::NextMonth => 1,
        CalendarAction::Today => 2,
    }
}

pub open spec fn calendar_from_code(code: u16) -> Option<CalendarAction> {
    if code == 0 {
        Some(CalendarAction::PrevMonth)
    } else if code == 1 {
        Some(CalendarAction::NextMonth)
    } else if code == 2 {
        Some(CalendarAction::Today)
    } else {
        None
    }
}

/// The interaction that carries a calendar action.
pub open spec fn calendar_interaction(action: CalendarAction) -> Interaction {
    Interaction::Action(ComponentAction { owner: ComponentTag::Date, id: calendar_code(action), value: 0 })
}

/// The calendar action an interaction carries, if any.
pub open spec fn calendar_action_of(interaction: Interaction) -> Option<CalendarAction> {
    match interaction {
        Interaction::Action(action) => if action.owner == ComponentTag::Date {
            calendar_from_code(action.id)
        } else {
            None
        },
        _ => None,
    }
}

impl CalendarAction {
    pub fn interaction(self) -> (r: Interaction)
        ensures
            r == calendar_interaction(self),
    {
        Interaction::Action(ComponentAction::new(ComponentTag::Date, self.code()))
    }

    pub fn from_interaction(interaction: Interaction) -> (r: Option<CalendarAction>)
        ensures
            r == calendar_action_of(interaction),
    {
        let action = match interaction {
            Interaction::Action(action) => action,
            _ => return None,
        };
        if action.owner() != ComponentTag::Date {
            return None;
        }
        CalendarAction::from_code(action.id())
    }

    pub fn code(self) -> (r: u16)
        ensures
            r == calendar_code(self),
    {
        match self {
            CalendarAction::PrevMonth => 0,
            CalendarAction::NextMonth => 1,
            CalendarAction::Today => 2,
        }
    }

    pub fn from_code(code: u16) -> (r: Option<CalendarAction>)
        ensures
            r == calendar_from_code(code),
    {
        match code {
            0 => Some(CalendarAction::PrevMonth),
            1 => Some(CalendarAction::NextMonth),
            2 => Some(CalendarAction::Today),
            _ => None,
        }
    }
}

/// Reading back the interaction of a calendar action gives the action.
pub proof fn lemma_calendar_round_trip(action: CalendarAction)
    ensures
        calendar_action_of(calendar_interaction(action)) == Some(action),
        calendar_from_code(calendar_code(action)) == Some(action),
{
}

} // verus!
