//! The bar's pointer handling: which dropdown is open, what the pointer
//! hovers and drags, and where a press is sent.

use vstd::prelude::*;

use crate::command::CommandAction;
use crate::components::{DropdownId, Interaction, PowerAction, WorkspaceId};
use crate::profile::{SessionAction, session_action_of};

verus! {

/// The bar's input state between events.
pub struct BarInput {
    pub open_dropdown: Option<DropdownId>,
    pub hovered: Option<Interaction>,
    /// The slider being dragged, from press to release.
    pub dragging: Option<Interaction>,
    pub needs_redraw: bool,
}

/// What a press asks of the bar.
#[derive(Debug, Clone, Copy, PartialEq, Eq, Structural)]
pub enum PressEffect {
    /// Nothing to do beyond the state change.
    Nothing,
    /// Run a session action (the dropdown was closed first).
    RunSession(SessionAction),
    /// Switch to a workspace (the dropdown was closed first).
    ActivateWorkspace(WorkspaceId),
    /// Run a power action (the dropdown was closed first).
    RunPower(PowerAction),
    /// A slider drag starts: send the drag at this point.
    BeginDrag(Interaction),
    /// Let the component that owns the interaction handle it.
    Deliver(Interaction),
}

/// The dropdown after its pill was clicked: it closes when it was open,
/// and opens in place of any other.
pub open spec fn toggled_dropdown(open: Option<DropdownId>, id: DropdownId) -> Option<DropdownId> {
    if open == Some(id) { None } else { Some(id) }
}

/// Where a press goes. A press on nothing closes the open dropdown unless
/// it fell inside it; a dropdown pill toggles its dropdown; a workspace,
/// power or session action closes the dropdown and runs; a slider starts a
/// drag; anything else is handed to its component.
pub open spec fn press_spec(input: BarInput, hit: Option<Interaction>, inside_dropdown: bool) -> (
    Option<DropdownId>,
    Option<Interaction>,
    bool,
    PressEffect,
) {
    match hit {
        None => if inside_dropdown {
            (input.open_dropdown, input.dragging, input.needs_redraw, PressEffect::Nothing)
        } else {
            (None, input.dragging, input.needs_redraw || input.open_dropdown is Some, PressEffect::Nothing)
        },
        Some(interaction) => match interaction {
            Interaction::Dropdown(id) => (
                toggled_dropdown(input.open_dropdown, id),
                input.dragging,
                true,
                PressEffect::Nothing,
            ),
            Interaction::Workspace(id) => (
                None,
                input.dragging,
                input.needs_redraw || input.open_dropdown is Some,
                PressEffect::ActivateWorkspace(id),
            ),
            Interaction::Power(action) => (
                None,
                input.dragging,
                input.needs_redraw || input.open_dropdown is Some,
                PressEffect::RunPower(action),
            ),
            Interaction::Command(action) => if action == CommandAction::VolumeSlider {
                (input.open_dropdown, Some(interaction), input.needs_redraw, PressEffect::BeginDrag(interaction))
            } else {
                (input.open_dropdown, input.dragging, input.needs_redraw, PressEffect::Deliver(interaction))
            },
            Interaction::Action(_) => match session_action_of(interaction) {
                Some(action) => (
                    None,
                    input.dragging,
                    input.needs_redraw || input.open_dropdown is Some,
                    PressEffect::RunSession(action),
                ),
                None => (input.open_dropdown, input.dragging, input.needs_redraw, PressEffect::Deliver(interaction)),
            },
        },
    }
}

impl BarInput {
    pub fn new() -> (r: Self)
        ensures
            r.open_dropdown is None,
            r.hovered is None,
            r.dragging is None,
            !r.needs_redraw,
    {
        BarInput { open_dropdown: None, hovered: None, dragging: None, needs_redraw: false }
    }

    /// Opens the dropdown of `id`, or closes it when it was open.
    pub fn toggle_dropdown(&mut self, id: DropdownId)
        ensures
            final(self).open_dropdown == toggled_dropdown(old(self).open_dropdown, id),
            final(self).needs_redraw,
            final(self).hovered == old(self).hovered,
            final(self).dragging == old(self).dragging,
    {
        self.open_dropdown = match self.open_dropdown {
            Some(open) => if open == id {
                None
            } else {
                Some(id)
            },
            None => Some(id),
        };
        self.needs_redraw = true;
    }

    /// Closes the open dropdown; a repaint is due when one was open.
    pub fn close_dropdown(&mut self)
        ensures
            final(self).open_dropdown is None,
            final(self).needs_redraw == (old(self).needs_redraw || old(self).open_dropdown is Some),
            final(self).hovered == old(self).hovered,
            final(self).dragging == old(self).dragging,
    {
        if self.open_dropdown.is_some() {
            self.open_dropdown = None;
            self.needs_redraw = true;
        }
    }

    /// A press, given what the pointer is over and whether it is inside
    /// the open dropdown.
    pub fn press(&mut self, hit: Option<Interaction>, inside_dropdown: bool) -> (r: PressEffect)
        ensures
            (final(self).open_dropdown, final(self).dragging, final(self).needs_redraw, r) == press_spec(
                *old(self),
                hit,
                inside_dropdown,
            ),
            final(self).hovered == old(self).hovered,
    {
        let interaction = match hit {
            Some(interaction) => interaction,
            None => {
                if !inside_dropdown {
                    self.close_dropdown();
                }
                return PressEffect::Nothing;
            },
        };
        match interaction {
            Interaction::Dropdown(id) => {
                self.toggle_dropdown(id);
                PressEffect::Nothing
            },
            Interaction::Workspace(id) => {
                self.close_dropdown();
                PressEffect::ActivateWorkspace(id)
            },
            Interaction::Power(action) => {
                self.close_dropdown();
                PressEffect::RunPower(action)
            },
            Interaction::Command(action) => {
                if action.is_slider() {
                    self.dragging = Some(interaction);
                    PressEffect::BeginDrag(interaction)
                } else {
                    PressEffect::Deliver(interaction)
                }
            },
            Interaction::Action(_) => match SessionAction::from_interaction(interaction) {
                Some(action) => {
                    self.close_dropdown();
                    PressEffect::RunSession(action)
                },
                None => PressEffect::Deliver(interaction),
            },
        }
    }

    /// The button was released: the drag in progress, if any, ends.
    pub fn release(&mut self) -> (r: Option<Interaction>)
        ensures
            r == old(self).dragging,
            final(self).dragging is None,
            final(self).needs_redraw == (old(self).needs_redraw || old(self).dragging is Some),
            final(self).open_dropdown == old(self).open_dropdown,
            final(self).hovered == old(self).hovered,
    {
        let drag = self.dragging;
        if drag.is_some() {
            self.dragging = None;
            self.needs_redraw = true;
        }
        drag
    }

    /// The pointer moved over `hit`. While dragging, the drag goes on and
    /// is returned; else the hovered interaction is updated, with a repaint
    /// when it changed.
    pub fn motion(&mut self, hit: Option<Interaction>) -> (r: Option<Interaction>)
        ensures
            r == old(self).dragging,
            final(self).dragging == old(self).dragging,
            final(self).open_dropdown == old(self).open_dropdown,
            old(self).dragging is Some ==> final(self).hovered == old(self).hovered
                && final(self).needs_redraw == old(self).needs_redraw,
            old(self).dragging is None ==> final(self).hovered == hit && final(self).needs_redraw == (
            old(self).needs_redraw || old(self).hovered != hit),
    {
        if self.dragging.is_some() {
            return self.dragging;
        }
        let same = match (self.hovered, hit) {
            (Some(a), Some(b)) => a == b,
            (None, None) => true,
            _ => false,
        };
        if !same {
            self.hovered = hit;
            self.needs_redraw = true;
        }
        None
    }

    /// The pointer left the bar: a drag in progress ends (and is
    /// returned), and nothing is hovered any more.
    pub fn leave(&mut self) -> (r: Option<Interaction>)
        ensures
            r == old(self).dragging,
            final(self).dragging is None,
            final(self).hovered is None,
            final(self).open_dropdown == old(self).open_dropdown,
            final(self).needs_redraw == (old(self).needs_redraw || old(self).dragging is Some
                || old(self).hovered is Some),
    {
        let drag = self.dragging;
        if drag.is_some() {
            self.dragging = None;
            self.needs_redraw = true;
        }
        if self.hovered.is_some() {
            self.hovered = None;
            self.needs_redraw = true;
        }
        drag
    }

    /// Wheel events scroll only while nothing is dragged.
    pub fn scroll_allowed(&self) -> (r: bool)
        ensures
            r == (self.dragging is None),
    {
        self.dragging.is_none()
    }
}

/// A second click on the same pill closes what the first one opened; a
/// pill whose dropdown was open opens it again.
pub proof fn lemma_toggle_dropdown_twice(open: Option<DropdownId>, id: DropdownId)
    ensures
        open != Some(id) ==> toggled_dropdown(open, id) == Some(id) && toggled_dropdown(
            toggled_dropdown(open, id),
            id,
        ) is None,
        open == Some(id) ==> toggled_dropdown(toggled_dropdown(open, id), id) == open,
{
}

/// A press on a workspace, a power entry or a session action closes the
/// open dropdown and asks for that one action to run; nothing is dragged
/// on its account.
pub proof fn lemma_action_presses_close_dropdown(input: BarInput, id: WorkspaceId, power: PowerAction, session: SessionAction)
    ensures
        press_spec(input, Some(Interaction::Workspace(id)), false).0 is None,
        press_spec(input, Some(Interaction::Workspace(id)), false).3 == PressEffect::ActivateWorkspace(id),
        press_spec(input, Some(Interaction::Power(power)), true).0 is None,
        press_spec(input, Some(Interaction::Power(power)), true).3 == PressEffect::RunPower(power),
        press_spec(input, Some(crate::profile::session_interaction(session)), true).0 is None,
        press_spec(input, Some(crate::profile::session_interaction(session)), true).3 == PressEffect::RunSession(
            session,
        ),
        press_spec(input, Some(Interaction::Workspace(id)), true).1 == input.dragging,
{
    crate::profile::lemma_session_round_trip(session);
}

/// A press on nothing outside the open dropdown always closes it.
pub proof fn lemma_press_outside_closes(input: BarInput)
    ensures
        press_spec(input, None, false).0 is None,
        press_spec(input, None, true).0 == input.open_dropdown,
{
}

} // verus!
