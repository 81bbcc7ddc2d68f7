//! What a pointer can hit on the bar: the opening of a dropdown, a command
//! of the command center, or an action owned by one component and
//! identified there by a numeric id and an integer payload.

use vstd::prelude::*;

use crate::command::CommandAction;

verus! {

/// The component that owns an action.
#[derive(Debug, Clone, Copy, PartialEq, Eq, Structural)]
pub enum ComponentTag {
    Clock,
    Date,
    Notifications,
    Profile,
}

/// An action that a component understands, carried opaquely by the bar.
#[derive(Debug, Clone, Copy, PartialEq, Eq, Structural)]
pub struct ComponentAction {
    pub owner: ComponentTag,
    pub id: u16,
    pub value: i32,
}

/// The dropdowns the bar can open.
#[derive(Debug, Clone, Copy, PartialEq, Eq, Structural)]
pub enum DropdownId {
    Clock,
    Date,
    Command,
    Notifications,
    Profile,
}

/// A Hyprland workspace, by its numeric id.
#[derive(Debug, Clone, Copy, PartialEq, Eq, Structural)]
pub struct WorkspaceId(pub i32);

/// The actions of the power menu.
#[derive(Debug, Clone, Copy, PartialEq, Eq, Structural)]
pub enum PowerAction {
    Suspend,
    Reboot,
    PowerOff,
}

/// Everything the pointer can hit.
#[derive(Debug, Clone, Copy, PartialEq, Eq, Structural)]
pub enum Interaction {
    Action(ComponentAction),
    Dropdown(DropdownId),
    Command(CommandAction),
    /// A workspace button: switch to that workspace.
    Workspace(WorkspaceId),
    /// A power menu entry.
    Power(PowerAction),
}

impl ComponentAction {
    /// An action of `owner` with id `id` and no payload.
    pub fn new(owner: ComponentTag, id: u16) -> (r: Self)
        ensures
            r == (ComponentAction { owner, id, value: 0 }),
    {
        ComponentAction { owner, id, value: 0 }
    }

    /// The same action with payload `value`.
    pub fn with_value(self, value: i32) -> (r: Self)
        ensures
            r == (ComponentAction { value, ..self }),
    {
        ComponentAction { value, ..self }
    }

    pub fn owner(&self) -> (r: ComponentTag)
        ensures
            r == self.owner,
    {
        self.owner
    }

    pub fn id(&self) -> (r: u16)
        ensures
            r == self.id,
    {
        self.id
    }

    pub fn value(&self) -> (r: i32)
        ensures
            r == self.value,
    {
        self.value
    }
}

/// The rectangle of an input region, in surface pixels.
#[derive(Debug, Clone, Copy, PartialEq, Eq, Structural)]
pub struct InputRegionRect {
    pub x: i32,
    pub y: i32,
    pub width: i32,
    pub height: i32,
}

impl InputRegionRect {
    pub fn new(x: i32, y: i32, width: i32, height: i32) -> (r: Self)
        ensures
            r == (InputRegionRect { x, y, width, height }),
    {
        InputRegionRect { x, y, width, height }
    }

    /// A rectangle without area adds nothing to a region.
    pub fn is_empty(self) -> (r: bool)
        ensures
            r == (self.width <= 0 || self.height <= 0),
    {
        self.width <= 0 || self.height <= 0
    }
}

/// The messages of the bar's event loop.
#[derive(Debug, Clone, Copy, PartialEq, Eq, Structural)]
pub enum Message {
    Tick,
}

} // verus!
