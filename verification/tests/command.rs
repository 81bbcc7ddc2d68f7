use hyprbar::command::panel::{CommandPanel, PanelZones};
use hyprbar::components::Interaction;
use hyprbar::command::control::{
    Invocation, VolumeParseError, mic_volume_query, parse_wpctl_volume_fields, read_wifi, set_sink_volume_percent,
    set_wifi_enabled, sink_volume_query, toggle_mic_mute, toggle_sink_mute, wifi_networks_query, wifi_radio_query,
};
use hyprbar::command::pill::{SliderDrag, apply_click, click_command, slider_available};
use hyprbar::command::{
    CommandAction, PanelAvailability, WifiState, apply_mic_toggle, apply_wifi_toggle, parse_active_ssid,
    parse_nmcli_radio, wifi_subtitle, wifi_toggle_target,
};

fn parts(invocation: &Invocation) -> (&str, Vec<&str>) {
    (invocation.program, invocation.arguments.iter().map(|a| a.as_str()).collect())
}

#[test]
fn nmcli_radio() {
    assert_eq!(parse_nmcli_radio("enabled\n"), Ok(true));
    assert_eq!(parse_nmcli_radio("  disabled "), Ok(false));
    let error = parse_nmcli_radio(" missing\n").unwrap_err();
    assert_eq!(error.output, "missing");
}

#[test]
fn active_ssid() {
    assert_eq!(parse_active_ssid("no:Other\nyes:Home Net\n"), Some("Home Net".to_string()));
    assert_eq!(parse_active_ssid("yes:   \nyes: Cafe \r\n"), Some("Cafe".to_string()));
    assert_eq!(parse_active_ssid("no:A\nno:B"), None);
    assert_eq!(parse_active_ssid(""), None);
}

#[test]
fn wpctl_fields() {
    let reading = parse_wpctl_volume_fields("Volume: 0.45 [MUTED]\n").unwrap();
    assert_eq!(reading.value, "0.45");
    assert!(reading.muted);
    let reading = parse_wpctl_volume_fields("  Volume: 1.00").unwrap();
    assert_eq!(reading.value, "1.00");
    assert!(!reading.muted);
    assert_eq!(parse_wpctl_volume_fields("Volume:   "), Err(VolumeParseError::MissingValue));
    assert_eq!(
        parse_wpctl_volume_fields(" Mute: yes\n"),
        Err(VolumeParseError::UnexpectedOutput("Mute: yes".to_string()))
    );
}

#[test]
fn invocations() {
    assert_eq!(parts(&sink_volume_query()), ("wpctl", vec!["get-volume", "@DEFAULT_AUDIO_SINK@"]));
    assert_eq!(parts(&mic_volume_query()), ("wpctl", vec!["get-volume", "@DEFAULT_AUDIO_SOURCE@"]));
    assert_eq!(parts(&wifi_radio_query()), ("nmcli", vec!["radio", "wifi"]));
    assert_eq!(
        parts(&wifi_networks_query()),
        ("nmcli", vec!["-t", "-f", "ACTIVE,SSID", "dev", "wifi", "list", "--rescan", "no"])
    );
    assert_eq!(parts(&toggle_sink_mute()), ("wpctl", vec!["set-mute", "@DEFAULT_AUDIO_SINK@", "toggle"]));
    assert_eq!(parts(&toggle_mic_mute()), ("wpctl", vec!["set-mute", "@DEFAULT_AUDIO_SOURCE@", "toggle"]));
    assert_eq!(parts(&set_wifi_enabled(true)), ("nmcli", vec!["radio", "wifi", "on"]));
    assert_eq!(parts(&set_wifi_enabled(false)), ("nmcli", vec!["radio", "wifi", "off"]));
    assert_eq!(
        parts(&set_sink_volume_percent(42)),
        ("wpctl", vec!["set-volume", "-l", "1", "@DEFAULT_AUDIO_SINK@", "42%"])
    );
}

#[test]
fn wifi_from_nmcli() {
    assert_eq!(read_wifi(None, None), None);
    assert_eq!(read_wifi(Some("weird"), None), None);
    assert_eq!(read_wifi(Some("disabled\n"), Some("yes:Home\n")), Some(WifiState { enabled: false, ssid: None }));
    assert_eq!(
        read_wifi(Some("enabled\n"), Some("yes:Home\n")),
        Some(WifiState { enabled: true, ssid: Some("Home".to_string()) })
    );
    assert_eq!(read_wifi(Some("enabled"), None), Some(WifiState { enabled: true, ssid: None }));
}

#[test]
fn wifi_card_text() {
    let on = Some(WifiState { enabled: true, ssid: Some("Home".to_string()) });
    let searching = Some(WifiState { enabled: true, ssid: None });
    let off = Some(WifiState { enabled: false, ssid: None });
    assert_eq!(wifi_subtitle(&on, true), "Home");
    assert_eq!(wifi_subtitle(&searching, true), "Activado");
    assert_eq!(wifi_subtitle(&off, true), "Desactivado");
    assert_eq!(wifi_subtitle(&None, true), "—");
    assert_eq!(wifi_subtitle(&on, false), "—");
}

#[test]
fn wifi_and_mic_toggles() {
    assert!(!wifi_toggle_target(&Some(WifiState { enabled: true, ssid: None })));
    assert!(wifi_toggle_target(&None));
    let mut wifi = Some(WifiState { enabled: true, ssid: Some("Home".to_string()) });
    apply_wifi_toggle(&mut wifi);
    assert_eq!(wifi, Some(WifiState { enabled: false, ssid: None }));
    apply_wifi_toggle(&mut wifi);
    assert_eq!(wifi, Some(WifiState { enabled: true, ssid: None }));
    let mut muted = Some(false);
    apply_mic_toggle(&mut muted);
    assert_eq!(muted, Some(true));
    let mut unknown = None;
    apply_mic_toggle(&mut unknown);
    assert_eq!(unknown, None);
}

#[test]
fn clicks_run_and_apply() {
    let wifi = Some(WifiState { enabled: true, ssid: Some("Home".to_string()) });
    assert_eq!(parts(&click_command(CommandAction::ToggleWifi, &wifi).unwrap()), ("nmcli", vec!["radio", "wifi", "off"]));
    assert_eq!(parts(&click_command(CommandAction::ToggleWifi, &None).unwrap()), ("nmcli", vec!["radio", "wifi", "on"]));
    assert!(click_command(CommandAction::VolumeSlider, &wifi).is_none());
    assert!(click_command(CommandAction::ToggleTheme, &wifi).is_none());
    let mut sink = Some(false);
    let mut mic = Some(true);
    let mut state = wifi.clone();
    apply_click(CommandAction::ToggleSinkMute, &mut sink, &mut mic, &mut state);
    assert_eq!((sink, mic), (Some(true), Some(true)));
    apply_click(CommandAction::ToggleMicMute, &mut sink, &mut mic, &mut state);
    assert_eq!((sink, mic), (Some(true), Some(false)));
    apply_click(CommandAction::ToggleWifi, &mut sink, &mut mic, &mut state);
    assert_eq!(state, Some(WifiState { enabled: false, ssid: None }));
}

#[test]
fn slider_drag_throttles_writes() {
    assert!(slider_available(CommandAction::VolumeSlider, true));
    assert!(!slider_available(CommandAction::VolumeSlider, false));
    assert!(!slider_available(CommandAction::ToggleWifi, true));
    assert!(CommandAction::VolumeSlider.is_slider());
    assert!(!CommandAction::ToggleMicMute.is_slider());
    let mut drag = SliderDrag::new();
    drag.drag(CommandAction::VolumeSlider);
    assert!(drag.write_due(false, 1_000_000_000));
    assert!(!drag.write_due(false, 1_050_000_000));
    assert!(drag.write_due(false, 1_080_000_000));
    assert!(drag.write_due(true, 1_080_000_001));
    assert!(drag.end(CommandAction::VolumeSlider));
    assert_eq!(drag.last_write, None);
    assert!(!drag.end(CommandAction::VolumeSlider));
    drag.drag(CommandAction::VolumeSlider);
    assert!(!drag.end(CommandAction::ToggleWifi));
    drag.cancel();
    assert_eq!(drag.action, None);
}

#[test]
fn availability_is_plain_data() {
    let availability = PanelAvailability { volume: true, mic: false, wifi: true };
    assert_eq!(availability, PanelAvailability { volume: true, mic: false, wifi: true });
    assert_eq!(PanelAvailability::default(), PanelAvailability { volume: false, mic: false, wifi: false });
}

#[test]
fn panel_hit_priorities() {
    let none = PanelZones { mute_zone: false, slider_row: false, wifi_card: false, mic_button: false, theme_button: false };
    let all = PanelAvailability::from_parts(true, true, true);
    let muted_zone = PanelZones { mute_zone: true, slider_row: true, ..none };
    assert_eq!(CommandPanel::hit_test(muted_zone, all), Some(Interaction::Command(CommandAction::ToggleSinkMute)));
    let slider = PanelZones { slider_row: true, ..none };
    assert_eq!(CommandPanel::hit_test(slider, all), Some(Interaction::Command(CommandAction::VolumeSlider)));
    let no_sink = PanelAvailability::from_parts(false, true, true);
    assert_eq!(CommandPanel::hit_test(muted_zone, no_sink), None);
    let wifi = PanelZones { wifi_card: true, ..none };
    assert_eq!(CommandPanel::hit_test(wifi, all), Some(Interaction::Command(CommandAction::ToggleWifi)));
    assert_eq!(CommandPanel::hit_test(wifi, PanelAvailability::from_parts(true, true, false)), None);
    let mic = PanelZones { mic_button: true, ..none };
    assert_eq!(CommandPanel::hit_test(mic, all), Some(Interaction::Command(CommandAction::ToggleMicMute)));
    let theme = PanelZones { theme_button: true, ..none };
    assert_eq!(
        CommandPanel::hit_test(theme, PanelAvailability::from_parts(false, false, false)),
        Some(Interaction::Command(CommandAction::ToggleTheme))
    );
    assert_eq!(CommandPanel::hit_test(none, all), None);
}
