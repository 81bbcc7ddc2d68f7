//! The one button of the notifications panel.

use vstd::prelude::*;

use crate::components::{ComponentAction, ComponentTag, Interaction};

verus! {

/// Actions of the notifications panel.
#[derive(Debug, Clone, Copy, PartialEq, Eq, Structural)]
pub enum NotificationAction {
    ClearHistory,
}

pub open spec fn notification_code(action: NotificationAction) -> u16 {
    match action {
        NotificationAction::ClearHistory => 0,
    }
}

pub open spec fn notification_from_code(code: u16) -> Option<NotificationAction> {
    if code == 0 {
        Some(NotificationAction::ClearHistory)
    } else {
        None
    }
}

/// The interaction that carries a notifications action.
pub open spec fn notification_interaction(action: NotificationAction) -> Interaction {
    Interaction::Action(
        ComponentAction { owner: ComponentTag::Notifications, id: notification_code(action), value: 0 },
    )
}

/// The notifications action an interaction carries, if any.
pub open spec fn notification_action_of(interaction: Interaction) -> Option<NotificationAction> {
    match interaction {
        Interaction::Action(action) => if action.owner == ComponentTag::Notifications {
            notification_from_code(action.id)
        } else {
            None
        },
        _ => None,
    }
}

impl NotificationAction {
    pub fn interaction(self) -> (r: Interaction)
        ensures
            r == notification_interaction(self),
    {
        Interaction::Action(ComponentAction::new(ComponentTag::Notifications, self.code()))
    }

    pub fn from_interaction(interaction: Interaction) -> (r: Option<NotificationAction>)
        ensures
            r == notification_action_of(interaction),
    {
        let action = match interaction {
            Interaction::Action(action) => action,
            _ => return None,
        };
        if action.owner() != ComponentTag::Notifications {
            return None;
        }
        NotificationAction::from_code(action.id())
    }

    pub fn code(self) -> (r: u16)
        ensures
            r == notification_code(self),
    {
        match self {
            NotificationAction::ClearHistory => 0,
        }
    }

    pub fn from_code(code: u16) -> (r: Option<NotificationAction>)
        ensures
            r == notification_from_code(code),
    {
        match code {
            0 => Some(NotificationAction::ClearHistory),
            _ => None,
        }
    }
}

/// Reading back the interaction of a notifications action gives the
/// action.
pub proof fn lemma_notification_round_trip(action: NotificationAction)
    ensures
        notification_action_of(notification_interaction(action)) == Some(action),
        notification_from_code(notification_code(action)) == Some(action),
{
}

} // verus!
