//! Which control of the command panel a point falls on, once the pixel
//! geometry has said which areas hold the point.

use vstd::prelude::*;

use crate::command::{CommandAction, PanelAvailability};
use crate::components::Interaction;

verus! {

/// The areas of the command panel that hold a point.
#[derive(Debug, Clone, Copy, PartialEq, Eq, Structural)]
pub struct PanelZones {
    /// The mute zone at the start of the volume slider.
    pub mute_zone: bool,
    /// The volume slider's row.
    pub slider_row: bool,
    pub wifi_card: bool,
    pub mic_button: bool,
    pub theme_button: bool,
}

/// The command panel.
#[derive(Debug, Clone, Copy, PartialEq, Eq, Structural)]
pub struct CommandPanel;

/// What a point over these areas hits: the mute zone before the rest of
/// the slider, then the Wi-Fi card, the microphone and the theme button;
/// a control without data behind it is not hit.
pub open spec fn panel_hit(availability: PanelAvailability, zones: PanelZones) -> Option<Interaction> {
    if availability.volume && zones.mute_zone {
        Some(Interaction::Command(CommandAction::ToggleSinkMute))
    } else if availability.volume && zones.slider_row {
        Some(Interaction::Command(CommandAction::VolumeSlider))
    } else if availability.wifi && zones.wifi_card {
        Some(Interaction::Command(CommandAction::ToggleWifi))
    } else if availability.mic && zones.mic_button {
        Some(Interaction::Command(CommandAction::ToggleMicMute))
    } else if zones.theme_button {
        Some(Interaction::Command(CommandAction::ToggleTheme))
    } else {
        None
    }
}

impl PanelAvailability {
    /// Which controls have data: a sink, a microphone state, a Wi-Fi state.
    pub fn from_parts(has_sink: bool, has_mic: bool, has_wifi: bool) -> (r: Self)
        ensures
            r == (PanelAvailability { volume: has_sink, mic: has_mic, wifi: has_wifi }),
    {
        PanelAvailability { volume: has_sink, mic: has_mic, wifi: has_wifi }
    }
}

impl CommandPanel {
    pub fn hit_test(zones: PanelZones, availability: PanelAvailability) -> (r: Option<Interaction>)
        ensures
            r == panel_hit(availability, zones),
    {
        if availability.volume && zones.mute_zone {
            return Some(Interaction::Command(CommandAction::ToggleSinkMute));
        }
        if availability.volume && zones.slider_row {
            return Some(Interaction::Command(CommandAction::VolumeSlider));
        }
        if availability.wifi && zones.wifi_card {
            return Some(Interaction::Command(CommandAction::ToggleWifi));
        }
        if availability.mic && zones.mic_button {
            return Some(Interaction::Command(CommandAction::ToggleMicMute));
        }
        if zones.theme_button {
            return Some(Interaction::Command(CommandAction::ToggleTheme));
        }
        None
    }
}

/// A control without data behind it is never hit; the theme button always
/// can be.
pub proof fn lemma_unavailable_controls_are_not_hit(availability: PanelAvailability, zones: PanelZones)
    ensures
        !availability.volume ==> panel_hit(availability, zones) != Some(
            Interaction::Command(CommandAction::VolumeSlider),
        ) && panel_hit(availability, zones) != Some(Interaction::Command(CommandAction::ToggleSinkMute)),
        !availability.wifi ==> panel_hit(availability, zones) != Some(
            Interaction::Command(CommandAction::ToggleWifi),
        ),
        !availability.mic ==> panel_hit(availability, zones) != Some(
            Interaction::Command(CommandAction::ToggleMicMute),
        ),
{
}

} // verus!
