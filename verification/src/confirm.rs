//! The confirmation dialog that an action may ask for before it runs: it
//! opens over the screen, and a press confirms, cancels or dismisses it.

use vstd::prelude::*;

use crate::components::ComponentAction;

verus! {

/// What the dialog asks to confirm.
#[derive(Debug, Clone, PartialEq, Eq)]
pub struct ConfirmRequest {
    /// The action that runs when confirmed.
    pub action: ComponentAction,
    pub glyph: String,
    pub title: String,
    /// Whether the action destroys something (the confirm button warns).
    pub destructive: bool,
}

#[derive(Debug, Clone, Copy, PartialEq, Eq, Structural)]
pub enum ConfirmButton {
    Cancel,
    Confirm,
}

/// How a button of the dialog is painted.
#[derive(Debug, Clone, Copy, PartialEq, Eq, Structural)]
pub enum ButtonTone {
    /// A plain control, or the same under the pointer.
    Plain,
    PlainHovered,
    /// A warning color on a plain control, or the danger colors under the
    /// pointer.
    Warning,
    Danger,
    /// The accent color on a plain control, or an accent button under the
    /// pointer.
    Accent,
    AccentFilled,
}

/// Cancel is always plain; confirm warns for a destructive action and is
/// accented otherwise.
pub open spec fn button_tone_spec(button: ConfirmButton, destructive: bool, hovered: bool) -> ButtonTone {
    match button {
        ConfirmButton::Cancel => if hovered { ButtonTone::PlainHovered } else { ButtonTone::Plain },
        ConfirmButton::Confirm => if destructive {
            if hovered { ButtonTone::Danger } else { ButtonTone::Warning }
        } else {
            if hovered { ButtonTone::AccentFilled } else { ButtonTone::Accent }
        },
    }
}

pub fn button_tone(button: ConfirmButton, destructive: bool, hovered: bool) -> (r: ButtonTone)
    ensures
        r == button_tone_spec(button, destructive, hovered),
{
    match (button, destructive, hovered) {
        (ConfirmButton::Cancel, _, false) => ButtonTone::Plain,
        (ConfirmButton::Cancel, _, true) => ButtonTone::PlainHovered,
        (ConfirmButton::Confirm, true, false) => ButtonTone::Warning,
        (ConfirmButton::Confirm, true, true) => ButtonTone::Danger,
        (ConfirmButton::Confirm, false, false) => ButtonTone::Accent,
        (ConfirmButton::Confirm, false, true) => ButtonTone::AccentFilled,
    }
}

/// What a press on the dialog did.
#[derive(Debug, Clone, Copy, PartialEq, Eq, Structural)]
pub enum ConfirmEffect {
    /// The press fell inside the dialog, off its buttons.
    Nothing,
    /// The dialog closed without running anything.
    Dismissed,
    /// The dialog closed and the action runs.
    Confirmed(ComponentAction),
}

/// The dialog, when it is open, and the button under the pointer.
pub struct ConfirmState {
    pub request: Option<ConfirmRequest>,
    pub hovered: Option<ConfirmButton>,
}

impl ConfirmState {
    pub fn new() -> (r: Self)
        ensures
            r.request is None,
            r.hovered is None,
    {
        ConfirmState { request: None, hovered: None }
    }

    /// Opens the dialog for `request`, unless one is already open; whether
    /// it opened.
    pub fn open(&mut self, request: ConfirmRequest) -> (r: bool)
        ensures
            r == old(self).request is None,
            r ==> final(self).request == Some(request) && final(self).hovered is None,
            !r ==> final(self).request == old(self).request && final(self).hovered == old(self).hovered,
    {
        if self.request.is_some() {
            return false;
        }
        self.request = Some(request);
        self.hovered = None;
        true
    }

    /// Closes the dialog; whether one was open.
    pub fn close(&mut self) -> (r: bool)
        ensures
            r == old(self).request is Some,
            final(self).request is None,
            final(self).hovered is None,
    {
        let was_open = self.request.is_some();
        self.request = None;
        self.hovered = None;
        was_open
    }

    /// A press on `button` (`None` off the buttons), inside the dialog's
    /// container or not: confirm runs the action, cancel or a press outside
    /// the container dismisses, anything else does nothing.
    pub fn press(&mut self, button: Option<ConfirmButton>, inside_container: bool) -> (r: ConfirmEffect)
        ensures
            old(self).request is None ==> r == ConfirmEffect::Nothing && final(self).request is None
                && final(self).hovered == old(self).hovered,
            old(self).request is Some && button == Some(ConfirmButton::Confirm) ==> r
                == ConfirmEffect::Confirmed(old(self).request->0.action) && final(self).request is None,
            old(self).request is Some && button == Some(ConfirmButton::Cancel) ==> r
                == ConfirmEffect::Dismissed && final(self).request is None,
            old(self).request is Some && button is None && !inside_container ==> r
                == ConfirmEffect::Dismissed && final(self).request is None,
            old(self).request is Some && button is None && inside_container ==> r == ConfirmEffect::Nothing
                && final(self).request == old(self).request && final(self).hovered == old(self).hovered,
    {
        let action = match &self.request {
            Some(request) => request.action,
            None => return ConfirmEffect::Nothing,
        };
        match button {
            Some(ConfirmButton::Confirm) => {
                self.close();
                ConfirmEffect::Confirmed(action)
            },
            Some(ConfirmButton::Cancel) => {
                self.close();
                ConfirmEffect::Dismissed
            },
            None => if inside_container {
                ConfirmEffect::Nothing
            } else {
                self.close();
                ConfirmEffect::Dismissed
            },
        }
    }

    /// The pointer moved over `button`; whether a repaint is due.
    pub fn motion(&mut self, button: Option<ConfirmButton>) -> (r: bool)
        ensures
            old(self).request is None ==> !r && final(self).hovered == old(self).hovered,
            old(self).request is Some ==> final(self).hovered == button && r == (old(self).hovered != button),
            final(self).request == old(self).request,
    {
        if self.request.is_none() {
            return false;
        }
        let same = match (self.hovered, button) {
            (Some(a), Some(b)) => a == b,
            (None, None) => true,
            _ => false,
        };
        if same {
            return false;
        }
        self.hovered = button;
        true
    }

    /// The pointer left the dialog; whether a repaint is due.
    pub fn leave(&mut self) -> (r: bool)
        ensures
            old(self).request is Some ==> r == old(self).hovered is Some && final(self).hovered is None,
            old(self).request is None ==> !r && final(self).hovered == old(self).hovered,
            final(self).request == old(self).request,
    {
        if self.request.is_none() {
            return false;
        }
        let was = self.hovered.is_some();
        self.hovered = None;
        was
    }
}

} // verus!
