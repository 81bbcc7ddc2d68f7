use hyprbar::arch_logo::{ARCH_GLYPH, ArchLogoPill};
use hyprbar::command::CommandAction;
use hyprbar::components::{
    ComponentAction, ComponentTag, DropdownId, InputRegionRect, Interaction, Message, PowerAction, WorkspaceId,
};
use hyprbar::input::{BarInput, PressEffect};
use hyprbar::profile::SessionAction;
use hyprbar::schedule::{nanos_until_next_second, secs_until_next_minute};
use hyprbar::worker::{ShutdownToken, sleep_slice};

#[test]
fn dropdowns_toggle_and_close() {
    let mut input = BarInput::new();
    input.toggle_dropdown(DropdownId::Clock);
    assert_eq!(input.open_dropdown, Some(DropdownId::Clock));
    input.toggle_dropdown(DropdownId::Date);
    assert_eq!(input.open_dropdown, Some(DropdownId::Date));
    input.toggle_dropdown(DropdownId::Date);
    assert_eq!(input.open_dropdown, None);
    assert!(input.needs_redraw);
    input.needs_redraw = false;
    input.close_dropdown();
    assert!(!input.needs_redraw);
}

#[test]
fn presses_are_routed() {
    let mut input = BarInput::new();
    assert_eq!(input.press(Some(Interaction::Dropdown(DropdownId::Profile)), false), PressEffect::Nothing);
    assert_eq!(input.open_dropdown, Some(DropdownId::Profile));
    assert_eq!(input.press(None, true), PressEffect::Nothing);
    assert_eq!(input.open_dropdown, Some(DropdownId::Profile));
    let lock = SessionAction::Lock.interaction();
    assert_eq!(input.press(Some(lock), true), PressEffect::RunSession(SessionAction::Lock));
    assert_eq!(input.open_dropdown, None);
    input.toggle_dropdown(DropdownId::Command);
    assert_eq!(input.press(None, false), PressEffect::Nothing);
    assert_eq!(input.open_dropdown, None);
    let clock = Interaction::Action(ComponentAction::new(ComponentTag::Clock, 13));
    assert_eq!(input.press(Some(clock), true), PressEffect::Deliver(clock));
    let wifi = Interaction::Command(CommandAction::ToggleWifi);
    assert_eq!(input.press(Some(wifi), true), PressEffect::Deliver(wifi));
}

#[test]
fn slider_drags_until_release() {
    let mut input = BarInput::new();
    let slider = Interaction::Command(CommandAction::VolumeSlider);
    assert_eq!(input.press(Some(slider), true), PressEffect::BeginDrag(slider));
    assert!(!input.scroll_allowed());
    assert_eq!(input.motion(None), Some(slider));
    assert_eq!(input.release(), Some(slider));
    assert!(input.scroll_allowed());
    assert_eq!(input.release(), None);
}

#[test]
fn hover_and_leave() {
    let mut input = BarInput::new();
    let clock = Interaction::Dropdown(DropdownId::Clock);
    assert_eq!(input.motion(Some(clock)), None);
    assert_eq!(input.hovered, Some(clock));
    assert!(input.needs_redraw);
    input.needs_redraw = false;
    input.motion(Some(clock));
    assert!(!input.needs_redraw);
    assert_eq!(input.leave(), None);
    assert_eq!(input.hovered, None);
    assert!(input.needs_redraw);
}

#[test]
fn repaint_schedule() {
    assert_eq!(secs_until_next_minute(Some(120)), 60);
    assert_eq!(secs_until_next_minute(Some(125)), 55);
    assert_eq!(secs_until_next_minute(Some(179)), 1);
    assert_eq!(secs_until_next_minute(None), 60);
    assert_eq!(nanos_until_next_second(Some(0)), 1_000_000_000);
    assert_eq!(nanos_until_next_second(Some(999_999_999)), 1);
    assert_eq!(nanos_until_next_second(Some(250_000_000)), 750_000_000);
    assert_eq!(nanos_until_next_second(None), 1_000_000_000);
}

#[test]
fn worker_naps() {
    assert_eq!(sleep_slice(0, 1_000_000_000), Some(250_000_000));
    assert_eq!(sleep_slice(900_000_000, 1_000_000_000), Some(100_000_000));
    assert_eq!(sleep_slice(1_000_000_000, 1_000_000_000), None);
    let token = ShutdownToken::new();
    let shared = token.clone();
    assert!(!token.should_stop());
    shared.request_shutdown();
    assert!(token.should_stop());
}

#[test]
fn small_pieces() {
    assert_eq!(ArchLogoPill::new().glyph(), ARCH_GLYPH);
    assert!(InputRegionRect::new(0, 0, 0, 10).is_empty());
    assert!(!InputRegionRect::new(0, 0, 5, 10).is_empty());
    assert_eq!(Message::Tick, Message::Tick);
    let action = ComponentAction::new(ComponentTag::Date, 3).with_value(-2);
    assert_eq!((action.owner(), action.id(), action.value()), (ComponentTag::Date, 3, -2));
}

#[test]
fn workspace_and_power_presses_close_and_run() {
    let mut input = BarInput::new();
    input.toggle_dropdown(DropdownId::Clock);
    let workspace = Interaction::Workspace(WorkspaceId(3));
    assert_eq!(input.press(Some(workspace), false), PressEffect::ActivateWorkspace(WorkspaceId(3)));
    assert_eq!(input.open_dropdown, None);
    input.toggle_dropdown(DropdownId::Profile);
    let power = Interaction::Power(PowerAction::PowerOff);
    assert_eq!(input.press(Some(power), true), PressEffect::RunPower(PowerAction::PowerOff));
    assert_eq!(input.open_dropdown, None);
    assert_eq!(input.press(Some(Interaction::Power(PowerAction::Suspend)), true), PressEffect::RunPower(PowerAction::Suspend));
}
