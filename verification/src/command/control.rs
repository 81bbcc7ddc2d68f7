//! The programs the command center runs, and what it reads back from
//! them: `wpctl` for sound, `nmcli` for Wi-Fi.

use vstd::prelude::*;
use vstd::string::StringExecFns;

use crate::command::{
    WifiState, active_ssid_from, disabled_text, enabled_text, parse_active_ssid, parse_nmcli_radio,
    range_equals,
};
use crate::text::{
    chars_of, decimal, is_white_space, push_decimal, push_str, string_of_range, trim, trim_range,
    white_space,
};

verus! {

/// The default audio sink and source, as `wpctl` names them.
pub const SINK: &'static str = "@DEFAULT_AUDIO_SINK@";
pub const SOURCE: &'static str = "@DEFAULT_AUDIO_SOURCE@";

/// A program to run and its arguments.
#[derive(Debug, Clone, PartialEq, Eq)]
pub struct Invocation {
    pub program: &'static str,
    pub arguments: Vec<String>,
}

impl Invocation {
    /// The program and the arguments as texts.
    pub open spec fn spec_parts(&self) -> (Seq<char>, Seq<Seq<char>>) {
        (self.program@, self.arguments@.map_values(|a: String| a@))
    }
}

pub open spec fn words2(a: Seq<char>, b: Seq<char>) -> Seq<Seq<char>> {
    seq![a, b]
}

/// `wpctl get-volume @DEFAULT_AUDIO_SINK@`.
pub fn sink_volume_query() -> (r: Invocation)
    ensures
        r.spec_parts() == ("wpctl"@, seq!["get-volume"@, SINK@]),
{
    Invocation { program: "wpctl", arguments: vec![String::from_str("get-volume"), String::from_str(SINK)] }
}

/// `wpctl get-volume @DEFAULT_AUDIO_SOURCE@`.
pub fn mic_volume_query() -> (r: Invocation)
    ensures
        r.spec_parts() == ("wpctl"@, seq!["get-volume"@, SOURCE@]),
{
    Invocation { program: "wpctl", arguments: vec![String::from_str("get-volume"), String::from_str(SOURCE)] }
}

/// `nmcli radio wifi`.
pub fn wifi_radio_query() -> (r: Invocation)
    ensures
        r.spec_parts() == ("nmcli"@, seq!["radio"@, "wifi"@]),
{
    Invocation { program: "nmcli", arguments: vec![String::from_str("radio"), String::from_str("wifi")] }
}

/// `nmcli -t -f ACTIVE,SSID dev wifi list --rescan no`.
pub fn wifi_networks_query() -> (r: Invocation)
    ensures
        r.spec_parts() == ("nmcli"@, seq![
            "-t"@,
            "-f"@,
            "ACTIVE,SSID"@,
            "dev"@,
            "wifi"@,
            "list"@,
            "--rescan"@,
            "no"@,
        ]),
{
    Invocation {
        program: "nmcli",
        arguments: vec![String::from_str("-t"), String::from_str("-f"), String::from_str("ACTIVE,SSID"), String::from_str("dev"), String::from_str("wifi"), String::from_str("list"), String::from_str("--rescan"), String::from_str("no")],
    }
}

/// `wpctl set-mute @DEFAULT_AUDIO_SINK@ toggle`.
pub fn toggle_sink_mute() -> (r: Invocation)
    ensures
        r.spec_parts() == ("wpctl"@, seq!["set-mute"@, SINK@, "toggle"@]),
{
    Invocation { program: "wpctl", arguments: vec![String::from_str("set-mute"), String::from_str(SINK), String::from_str("toggle")] }
}

/// `wpctl set-mute @DEFAULT_AUDIO_SOURCE@ toggle`.
pub fn toggle_mic_mute() -> (r: Invocation)
    ensures
        r.spec_parts() == ("wpctl"@, seq!["set-mute"@, SOURCE@, "toggle"@]),
{
    Invocation { program: "wpctl", arguments: vec![String::from_str("set-mute"), String::from_str(SOURCE), String::from_str("toggle")] }
}

/// `nmcli radio wifi on` or `off`.
pub fn set_wifi_enabled(enabled: bool) -> (r: Invocation)
    ensures
        enabled ==> r.spec_parts() == ("nmcli"@, seq!["radio"@, "wifi"@, "on"@]),
        !enabled ==> r.spec_parts() == ("nmcli"@, seq!["radio"@, "wifi"@, "off"@]),
{
    if enabled {
        Invocation { program: "nmcli", arguments: vec![String::from_str("radio"), String::from_str("wifi"), String::from_str("on")] }
    } else {
        Invocation { program: "nmcli", arguments: vec![String::from_str("radio"), String::from_str("wifi"), String::from_str("off")] }
    }
}

/// `wpctl set-volume -l 1 @DEFAULT_AUDIO_SINK@ N%`, capped at full volume.
pub fn set_sink_volume_percent(percent: u32) -> (r: Invocation)
    ensures
        r.spec_parts() == ("wpctl"@, seq![
            "set-volume"@,
            "-l"@,
            "1"@,
            SINK@,
            decimal(percent as nat) + "%"@,
        ]),
{
    let mut arguments = vec![String::from_str("set-volume"), String::from_str("-l"), String::from_str("1"), String::from_str(SINK)];
    let mut amount = String::new();
    push_decimal(&mut amount, percent as u128);
    push_str(&mut amount, "%");
    arguments.push(amount);
    let r = Invocation { program: "wpctl", arguments };
    assert(r.spec_parts().1 =~= seq!["set-volume"@, "-l"@, "1"@, SINK@, decimal(percent as nat) + "%"@]);
    r
}

/// What a line of `wpctl get-volume` says, before the figure is read as a
/// number: the figure as printed, and whether the node is muted.
#[derive(Debug, Clone, PartialEq, Eq)]
pub struct VolumeReading {
    pub value: String,
    pub muted: bool,
}

/// Why a line of `wpctl get-volume` could not be read.
#[derive(Debug, Clone, PartialEq, Eq)]
pub enum VolumeParseError {
    /// The line does not start with `Volume:`; it holds the trimmed line.
    UnexpectedOutput(String),
    /// Nothing follows `Volume:`.
    MissingValue,
}

pub open spec fn volume_prefix() -> Seq<char> {
    "Volume:"@
}

pub open spec fn muted_suffix() -> Seq<char> {
    "[MUTED]"@
}

/// Where the word that starts at `start` ends: the first white space at
/// or after `start`, or the end.
pub open spec fn word_end(s: Seq<char>, start: int) -> int
    decreases s.len() - start,
{
    if start >= s.len() {
        s.len() as int
    } else if is_white_space(s[start]) {
        start
    } else {
        word_end(s, start + 1)
    }
}

/// What follows `Volume:` in the trimmed line, trimmed.
pub open spec fn volume_rest(output: Seq<char>) -> Seq<char> {
    trim(trim(output).subrange(7, trim(output).len() as int))
}

/// The reading of a `wpctl get-volume` line: the line must start with
/// `Volume:` (else the error holds the trimmed line); the figure is the
/// first word after it (else the error holds nothing), and the node is
/// muted when the rest ends with `[MUTED]`.
pub open spec fn volume_reading_spec(output: Seq<char>) -> Result<(Seq<char>, bool), Option<Seq<char>>> {
    let t = trim(output);
    if !(t.len() >= 7 && t.subrange(0, 7) == volume_prefix()) {
        Err(Some(t))
    } else {
        let rest = volume_rest(output);
        let muted = rest.len() >= 7 && rest.subrange(rest.len() - 7, rest.len() as int) == muted_suffix();
        if rest.len() == 0 {
            Err(None)
        } else {
            Ok((rest.subrange(0, word_end(rest, 0)), muted))
        }
    }
}

proof fn lemma_word_end_bounds(s: Seq<char>, start: int)
    requires
        0 <= start <= s.len(),
    ensures
        start <= word_end(s, start) <= s.len(),
    decreases s.len() - start,
{
    if start < s.len() && !is_white_space(s[start]) {
        lemma_word_end_bounds(s, start + 1);
    }
}

/// Reads a line of `wpctl get-volume`, such as `Volume: 0.45 [MUTED]`.
pub fn parse_wpctl_volume_fields(output: &str) -> (r: Result<VolumeReading, VolumeParseError>)
    ensures
        match volume_reading_spec(output@) {
            Ok(reading) => r matches Ok(v) && v.value@ == reading.0 && v.muted == reading.1,
            Err(Some(text)) => r matches Err(VolumeParseError::UnexpectedOutput(line)) && line@ == text,
            Err(None) => r == Err::<VolumeReading, VolumeParseError>(VolumeParseError::MissingValue),
        },
{
    proof {
        reveal_strlit("Volume:");
        reveal_strlit("[MUTED]");
    }
    let v = chars_of(output);
    let (a, b) = trim_range(&v, 0, v.len());
    assert(v@.subrange(0, v@.len() as int) =~= v@);
    let ghost t = v@.subrange(a as int, b as int);
    let prefix = chars_of("Volume:");
    if !(b - a >= 7 && range_equals(&v, a, a + 7, &prefix)) {
        proof {
            if b - a >= 7 {
                assert(t.subrange(0, 7) =~= v@.subrange(a as int, a + 7));
            }
        }
        return Err(VolumeParseError::UnexpectedOutput(string_of_range(&v, a, b)));
    }
    assert(t.subrange(0, 7) =~= v@.subrange(a as int, a + 7));
    let (c, d) = trim_range(&v, a + 7, b);
    assert(t.subrange(7, t.len() as int) =~= v@.subrange(a + 7, b as int));
    let ghost rest = v@.subrange(c as int, d as int);
    let suffix = chars_of("[MUTED]");
    let muted = d - c >= 7 && range_equals(&v, d - 7, d, &suffix);
    proof {
        if d - c >= 7 {
            assert(rest.subrange(rest.len() - 7, rest.len() as int) =~= v@.subrange(d - 7, d as int));
        }
    }
    if c == d {
        return Err(VolumeParseError::MissingValue);
    }
    let mut e = c;
    while e < d && !white_space(v[e])
        invariant
            c <= e <= d <= v@.len(),
            rest == v@.subrange(c as int, d as int),
            word_end(rest, 0) == word_end(rest, e - c),
        decreases d - e,
    {
        e = e + 1;
    }
    proof {
        lemma_word_end_bounds(rest, 0);
        if e < d {
            assert(rest[e - c] == v@[e as int]);
        }
        assert(rest.subrange(0, (e - c) as int) =~= v@.subrange(c as int, e as int));
    }
    Ok(VolumeReading { value: string_of_range(&v, c, e), muted })
}

/// The Wi-Fi state from the output of `nmcli radio wifi` and, when the
/// radio is on, of the network list: nothing when the radio could not be
/// read or said something unexpected.
pub open spec fn read_wifi_spec(radio: Option<Seq<char>>, networks: Option<Seq<char>>) -> Option<(bool, Option<Seq<char>>)> {
    match radio {
        None => None,
        Some(text) => if trim(text) == enabled_text() {
            Some((true, match networks {
                Some(list) => active_ssid_from(list, 0),
                None => None,
            }))
        } else if trim(text) == disabled_text() {
            Some((false, None))
        } else {
            None
        },
    }
}

pub open spec fn wifi_view(w: Option<WifiState>) -> Option<(bool, Option<Seq<char>>)> {
    match w {
        Some(state) => Some((state.enabled, match state.ssid {
            Some(s) => Some(s@),
            None => None,
        })),
        None => None,
    }
}

pub open spec fn opt_str_view(o: Option<&str>) -> Option<Seq<char>> {
    match o {
        Some(s) => Some(s@),
        None => None,
    }
}

/// Builds the Wi-Fi state from what `nmcli` printed; `None` stands for a
/// run that failed. The network list is only looked at with the radio on.
pub fn read_wifi(radio_output: Option<&str>, networks_output: Option<&str>) -> (r: Option<WifiState>)
    ensures
        wifi_view(r) == read_wifi_spec(opt_str_view(radio_output), opt_str_view(networks_output)),
{
    let radio = match radio_output {
        Some(radio) => radio,
        None => return None,
    };
    let enabled = match parse_nmcli_radio(radio) {
        Ok(enabled) => enabled,
        Err(_) => return None,
    };
    let ssid = if enabled {
        match networks_output {
            Some(list) => parse_active_ssid(list),
            None => None,
        }
    } else {
        None
    };
    Some(WifiState { enabled, ssid })
}

} // verus!
