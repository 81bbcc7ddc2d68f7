//! The command center pill's decisions: what a click runs and what it
//! changes in the data on show, and how often a dragged slider writes.

use vstd::prelude::*;

use crate::command::control::{
    Invocation, SINK, SOURCE, set_wifi_enabled, toggle_mic_mute, toggle_sink_mute,
};
use crate::command::{CommandAction, WifiState, apply_mic_toggle, apply_wifi_toggle, wifi_toggle_target};

verus! {

/// Slider writes are spaced by at least 80 ms while dragging.
pub const DRAG_WRITE_NANOS: u128 = 80_000_000;

/// The drag of a slider: which slider, and when its value was last
/// written (nanoseconds on a monotonic clock).
pub struct SliderDrag {
    pub action: Option<CommandAction>,
    pub last_write: Option<u128>,
}

/// Whether a slider value is written now: always at the end of a drag,
/// else when nothing was written yet or 80 ms went by.
pub open spec fn drag_write_due(last_write: Option<u128>, force: bool, now: u128) -> bool {
    force || match last_write {
        Some(at) => (if now >= at { now - at } else { 0 }) >= DRAG_WRITE_NANOS,
        None => true,
    }
}

impl SliderDrag {
    pub fn new() -> (r: Self)
        ensures
            r.action is None,
            r.last_write is None,
    {
        SliderDrag { action: None, last_write: None }
    }

    /// The panel closed: no drag goes on.
    pub fn cancel(&mut self)
        ensures
            final(self).action is None,
            final(self).last_write is None,
    {
        self.action = None;
        self.last_write = None;
    }

    /// Whether the slider value is written now; a write is recorded.
    pub fn write_due(&mut self, force: bool, now: u128) -> (r: bool)
        ensures
            r == drag_write_due(old(self).last_write, force, now),
            final(self).last_write == if r { Some(now) } else { old(self).last_write },
            final(self).action == old(self).action,
    {
        let due = force || match self.last_write {
            Some(at) => now.saturating_sub(at) >= DRAG_WRITE_NANOS,
            None => true,
        };
        if due {
            self.last_write = Some(now);
        }
        due
    }

    /// A drag of `action` moved the slider: it becomes the dragged slider.
    pub fn drag(&mut self, action: CommandAction)
        ensures
            final(self).action == Some(action),
            final(self).last_write == old(self).last_write,
    {
        self.action = Some(action);
    }

    /// The pointer was released over `action`: the drag ends, and whether
    /// it was a drag of that same slider, whose last value is then written.
    pub fn end(&mut self, action: CommandAction) -> (r: bool)
        ensures
            final(self).action is None,
            old(self).action is Some ==> final(self).last_write is None,
            old(self).action is None ==> final(self).last_write == old(self).last_write,
            r == (old(self).action == Some(action)),
    {
        match self.action {
            Some(dragged) => {
                self.action = None;
                self.last_write = None;
                dragged == action
            },
            None => false,
        }
    }
}

/// Whether a slider has data behind it to drag: the volume slider needs a
/// sink.
pub fn slider_available(action: CommandAction, has_sink: bool) -> (r: bool)
    ensures
        r == (action == CommandAction::VolumeSlider && has_sink),
{
    match action {
        CommandAction::VolumeSlider => has_sink,
        _ => false,
    }
}

/// The program and arguments a click runs: the mute toggles, or the Wi-Fi
/// radio switched to the state it is not in. The slider and the theme
/// button run nothing.
pub open spec fn click_command_spec(action: CommandAction, wifi: Option<WifiState>) -> Option<
    (Seq<char>, Seq<Seq<char>>),
> {
    match action {
        CommandAction::ToggleSinkMute => Some(("wpctl"@, seq!["set-mute"@, SINK@, "toggle"@])),
        CommandAction::ToggleMicMute => Some(("wpctl"@, seq!["set-mute"@, SOURCE@, "toggle"@])),
        CommandAction::ToggleWifi => if wifi matches Some(w) && w.enabled {
            Some(("nmcli"@, seq!["radio"@, "wifi"@, "off"@]))
        } else {
            Some(("nmcli"@, seq!["radio"@, "wifi"@, "on"@]))
        },
        _ => None,
    }
}

pub open spec fn invocation_parts(i: Option<Invocation>) -> Option<(Seq<char>, Seq<Seq<char>>)> {
    match i {
        Some(inv) => Some(inv.spec_parts()),
        None => None,
    }
}

pub fn click_command(action: CommandAction, wifi: &Option<WifiState>) -> (r: Option<Invocation>)
    ensures
        invocation_parts(r) == click_command_spec(action, *wifi),
{
    match action {
        CommandAction::ToggleSinkMute => Some(toggle_sink_mute()),
        CommandAction::ToggleMicMute => Some(toggle_mic_mute()),
        CommandAction::ToggleWifi => Some(set_wifi_enabled(wifi_toggle_target(wifi))),
        CommandAction::VolumeSlider | CommandAction::ToggleTheme => None,
    }
}

/// A known flag flipped; an unknown one stays unknown.
pub open spec fn flipped(flag: Option<bool>) -> Option<bool> {
    match flag {
        Some(m) => Some(!m),
        None => None,
    }
}

/// The Wi-Fi radio switched: without a network when it went off.
pub open spec fn switched_wifi(wifi: Option<WifiState>) -> Option<WifiState> {
    match wifi {
        Some(w) => Some(WifiState { enabled: !w.enabled, ssid: if w.enabled { None } else { w.ssid } }),
        None => None,
    }
}

/// What a click that ran changes in the data on show, ahead of the next
/// poll: the mute it toggled, or the Wi-Fi radio it switched.
pub fn apply_click(
    action: CommandAction,
    sink_muted: &mut Option<bool>,
    mic_muted: &mut Option<bool>,
    wifi: &mut Option<WifiState>,
)
    ensures
        *final(sink_muted) == if action == CommandAction::ToggleSinkMute {
            flipped(*old(sink_muted))
        } else {
            *old(sink_muted)
        },
        *final(mic_muted) == if action == CommandAction::ToggleMicMute {
            flipped(*old(mic_muted))
        } else {
            *old(mic_muted)
        },
        *final(wifi) == if action == CommandAction::ToggleWifi {
            switched_wifi(*old(wifi))
        } else {
            *old(wifi)
        },
{
    match action {
        CommandAction::ToggleSinkMute => apply_mic_toggle(sink_muted),
        CommandAction::ToggleMicMute => apply_mic_toggle(mic_muted),
        CommandAction::ToggleWifi => apply_wifi_toggle(wifi),
        _ => {},
    }
}

/// Switching the radio twice gives back the radio state, and the network
/// is forgotten (one of the two switches turned the radio off); toggling
/// a mute twice gives back the mute state.
pub proof fn lemma_toggle_twice(wifi: Option<WifiState>, flag: Option<bool>)
    ensures
        switched_wifi(switched_wifi(wifi)) == match wifi {
            Some(w) => Some(WifiState { enabled: w.enabled, ssid: None }),
            None => None,
        },
        flipped(flipped(flag)) == flag,
{
}

} // verus!
