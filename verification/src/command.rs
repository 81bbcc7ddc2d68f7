//! Command center: its actions, the Wi-Fi state it shows, and the parsers
//! for what `nmcli` prints.

pub mod control;
pub mod panel;
pub mod pill;

use vstd::prelude::*;

use crate::text::{
    chars_of, find_line_end, lemma_line_end_bounds, line_at, line_bounds, line_end, string_of_range, trim,
    trim_range,
};

verus! {

#[derive(Debug, Clone, Copy, PartialEq, Eq, Structural)]
pub enum CommandAction {
    VolumeSlider,
    ToggleSinkMute,
    ToggleMicMute,
    ToggleWifi,
    ToggleTheme,
}

impl CommandAction {
    /// Whether the action is driven by dragging rather than clicking.
    pub fn is_slider(self) -> (r: bool)
        ensures
            r == (self == CommandAction::VolumeSlider),
    {
        matches!(self, CommandAction::VolumeSlider)
    }
}

/// Wi-Fi radio state and the network in use.
#[derive(Debug, Clone, PartialEq, Eq)]
pub struct WifiState {
    pub enabled: bool,
    pub ssid: Option<String>,
}

/// Which controls of the command panel have data behind them.
#[derive(Debug, Clone, Copy, Default, PartialEq, Eq, Structural)]
pub struct PanelAvailability {
    pub volume: bool,
    pub mic: bool,
    pub wifi: bool,
}

/// `nmcli radio wifi` printed something other than `enabled` or `disabled`.
#[derive(Debug, Clone, PartialEq, Eq)]
pub struct UnexpectedRadioOutput {
    /// The trimmed output.
    pub output: String,
}

pub open spec fn enabled_text() -> Seq<char> {
    seq!['e', 'n', 'a', 'b', 'l', 'e', 'd']
}

pub open spec fn disabled_text() -> Seq<char> {
    seq!['d', 'i', 's', 'a', 'b', 'l', 'e', 'd']
}

pub(crate) fn range_equals(v: &Vec<char>, start: usize, end: usize, word: &Vec<char>) -> (r: bool)
    requires
        start <= end <= v@.len(),
    ensures
        r == (v@.subrange(start as int, end as int) == word@),
{
    if end - start != word.len() {
        return false;
    }
    let mut k: usize = 0;
    while k < word.len()
        invariant
            start <= end <= v@.len(),
            end - start == word@.len(),
            k <= word@.len(),
            forall|i: int| 0 <= i < k ==> v@[start + i] == word@[i],
        decreases word@.len() - k,
    {
        if v[start + k] != word[k] {
            assert(v@.subrange(start as int, end as int)[k as int] != word@[k as int]);
            return false;
        }
        k = k + 1;
    }
    assert(v@.subrange(start as int, end as int) =~= word@);
    true
}

/// Reads the output of `nmcli radio wifi`.
pub fn parse_nmcli_radio(output: &str) -> (r: Result<bool, UnexpectedRadioOutput>)
    ensures
        trim(output@) == enabled_text() ==> r == Ok::<bool, UnexpectedRadioOutput>(true),
        trim(output@) == disabled_text() ==> r == Ok::<bool, UnexpectedRadioOutput>(false),
        trim(output@) != enabled_text() && trim(output@) != disabled_text() ==> (
            r matches Err(e) && e.output@ == trim(output@)),
{
    let v = chars_of(output);
    let (start, end) = trim_range(&v, 0, v.len());
    assert(v@.subrange(0, v@.len() as int) =~= v@);
    let enabled = vec!['e', 'n', 'a', 'b', 'l', 'e', 'd'];
    let disabled = vec!['d', 'i', 's', 'a', 'b', 'l', 'e', 'd'];
    assert(enabled@ =~= enabled_text());
    assert(disabled@ =~= disabled_text());
    if range_equals(&v, start, end, &enabled) {
        Ok(true)
    } else if range_equals(&v, start, end, &disabled) {
        Ok(false)
    } else {
        Err(UnexpectedRadioOutput { output: string_of_range(&v, start, end) })
    }
}

pub open spec fn active_prefix() -> Seq<char> {
    seq!['y', 'e', 's', ':']
}

/// The SSID that a line of `nmcli -t -f ACTIVE,SSID dev wifi list` names
/// as active: what follows `yes:`, trimmed, when not empty.
pub open spec fn ssid_of_line(line: Seq<char>) -> Option<Seq<char>> {
    if line.len() >= 4 && line.subrange(0, 4) == active_prefix() {
        let name = trim(line.subrange(4, line.len() as int));
        if name.len() > 0 { Some(name) } else { None }
    } else {
        None
    }
}

/// The first active SSID among the lines of `s` from `start` on.
pub open spec fn active_ssid_from(s: Seq<char>, start: int) -> Option<Seq<char>>
    decreases s.len() + 1 - start,
{
    if start < 0 || start >= s.len() {
        None
    } else {
        proof { lemma_line_end_bounds(s, start); }
        match ssid_of_line(line_at(s, start)) {
            Some(name) => Some(name),
            None => active_ssid_from(s, line_end(s, start) + 1),
        }
    }
}

/// Finds the active network in the output of
/// `nmcli -t -f ACTIVE,SSID dev wifi list`.
pub fn parse_active_ssid(output: &str) -> (r: Option<String>)
    ensures
        match active_ssid_from(output@, 0) {
            Some(name) => r is Some && r->0@ == name,
            None => r is None,
        },
{
    let v = chars_of(output);
    let prefix = vec!['y', 'e', 's', ':'];
    assert(prefix@ =~= active_prefix());
    let mut pos: usize = 0;
    while pos < v.len()
        invariant
            pos <= v@.len(),
            v@ == output@,
            prefix@ == active_prefix(),
            active_ssid_from(v@, 0) == active_ssid_from(v@, pos as int),
        decreases v@.len() - pos,
    {
        let (st, e) = line_bounds(&v, pos);
        let line_stop = find_line_end(&v, pos);
        proof { lemma_line_end_bounds(v@, pos as int); }
        let ghost line = v@.subrange(st as int, e as int);
        if e - st >= 4 && range_equals(&v, st, st + 4, &prefix) {
            assert(line.subrange(0, 4) =~= v@.subrange(st as int, st + 4));
            let (a, b) = trim_range(&v, st + 4, e);
            assert(line.subrange(4, line.len() as int) =~= v@.subrange(st + 4, e as int));
            if b > a {
                return Some(string_of_range(&v, a, b));
            }
        } else {
            if e - st >= 4 {
                assert(line.subrange(0, 4) =~= v@.subrange(st as int, st + 4));
            }
        }
        assert(ssid_of_line(line) is None);
        assert(active_ssid_from(v@, pos as int) == active_ssid_from(v@, line_stop + 1));
        if line_stop >= v.len() {
            return None;
        }
        pos = line_stop + 1;
    }
    None
}

/// The subtitle of the Wi-Fi card: the network in use, or the radio state,
/// or a dash when nothing is known or the control is unavailable.
pub open spec fn wifi_subtitle_text(wifi: Option<WifiState>, enabled: bool) -> Seq<char> {
    if !enabled {
        seq!['—']
    } else {
        match wifi {
            Some(w) => if w.enabled {
                match w.ssid {
                    Some(name) => name@,
                    None => seq!['A', 'c', 't', 'i', 'v', 'a', 'd', 'o'],
                }
            } else {
                seq!['D', 'e', 's', 'a', 'c', 't', 'i', 'v', 'a', 'd', 'o']
            },
            None => seq!['—'],
        }
    }
}

pub fn wifi_subtitle(wifi: &Option<WifiState>, enabled: bool) -> (r: String)
    ensures
        r@ == wifi_subtitle_text(*wifi, enabled),
{
    proof {
        reveal_strlit("—");
        reveal_strlit("Activado");
        reveal_strlit("Desactivado");
    }
    if !enabled {
        return String::from_str("—");
    }
    match wifi {
        Some(w) => if w.enabled {
            match &w.ssid {
                Some(name) => name.clone(),
                None => String::from_str("Activado"),
            }
        } else {
            String::from_str("Desactivado")
        },
        None => String::from_str("—"),
    }
}

/// The radio state to ask for when the Wi-Fi card is clicked.
pub fn wifi_toggle_target(wifi: &Option<WifiState>) -> (r: bool)
    ensures
        r == !(wifi matches Some(w) && w.enabled),
{
    match wifi {
        Some(w) => !w.enabled,
        None => true,
    }
}

/// The Wi-Fi state after the radio was switched: flipped, and without a
/// network when it went off.
pub fn apply_wifi_toggle(wifi: &mut Option<WifiState>)
    ensures
        match *old(wifi) {
            Some(w) => *final(wifi) == Some(WifiState {
                enabled: !w.enabled,
                ssid: if w.enabled { None } else { w.ssid },
            }),
            None => *final(wifi) is None,
        },
{
    if let Some(w) = wifi {
        w.enabled = !w.enabled;
        if !w.enabled {
            w.ssid = None;
        }
    }
}

/// The microphone state after its mute was toggled.
pub fn apply_mic_toggle(muted: &mut Option<bool>)
    ensures
        match *old(muted) {
            Some(m) => *final(muted) == Some(!m),
            None => *final(muted) is None,
        },
{
    if let Some(m) = muted {
        *m = !*m;
    }
}

} // verus!
