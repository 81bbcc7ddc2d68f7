use hyprbar::components::{ComponentAction, ComponentTag};
use hyprbar::confirm::{ButtonTone, ConfirmButton, ConfirmEffect, ConfirmRequest, ConfirmState, button_tone};

fn request(destructive: bool) -> ConfirmRequest {
    ConfirmRequest {
        action: ComponentAction::new(ComponentTag::Profile, 1),
        glyph: "\u{f0343}".to_string(),
        title: "¿Salir de la sesión?".to_string(),
        destructive,
    }
}

#[test]
fn confirm_runs_the_requested_action() {
    let mut state = ConfirmState::new();
    assert!(state.open(request(true)));
    assert!(!state.open(request(false)));
    assert!(state.request.as_ref().unwrap().destructive);
    assert_eq!(
        state.press(Some(ConfirmButton::Confirm), true),
        ConfirmEffect::Confirmed(ComponentAction::new(ComponentTag::Profile, 1))
    );
    assert!(state.request.is_none());
}

#[test]
fn cancel_and_outside_dismiss() {
    let mut state = ConfirmState::new();
    assert_eq!(state.press(Some(ConfirmButton::Confirm), true), ConfirmEffect::Nothing);
    state.open(request(false));
    assert_eq!(state.press(None, true), ConfirmEffect::Nothing);
    assert!(state.request.is_some());
    assert_eq!(state.press(None, false), ConfirmEffect::Dismissed);
    assert!(state.request.is_none());
    state.open(request(false));
    assert_eq!(state.press(Some(ConfirmButton::Cancel), true), ConfirmEffect::Dismissed);
    assert!(!state.close());
}

#[test]
fn hover_over_buttons() {
    let mut state = ConfirmState::new();
    assert!(!state.motion(Some(ConfirmButton::Cancel)));
    state.open(request(false));
    assert!(state.motion(Some(ConfirmButton::Cancel)));
    assert!(!state.motion(Some(ConfirmButton::Cancel)));
    assert!(state.motion(Some(ConfirmButton::Confirm)));
    assert!(state.leave());
    assert!(!state.leave());
    assert_eq!(state.hovered, None);
}

#[test]
fn button_tones() {
    assert_eq!(button_tone(ConfirmButton::Cancel, true, false), ButtonTone::Plain);
    assert_eq!(button_tone(ConfirmButton::Cancel, false, true), ButtonTone::PlainHovered);
    assert_eq!(button_tone(ConfirmButton::Confirm, true, false), ButtonTone::Warning);
    assert_eq!(button_tone(ConfirmButton::Confirm, true, true), ButtonTone::Danger);
    assert_eq!(button_tone(ConfirmButton::Confirm, false, false), ButtonTone::Accent);
    assert_eq!(button_tone(ConfirmButton::Confirm, false, true), ButtonTone::AccentFilled);
}
