use chrono::Weekday::{Fri, Mon, Sat, Sun, Thu, Tue, Wed};
use hyprbar::clock::action::{ClockAction, ClockTab};
use hyprbar::clock::format::{format_stopwatch, format_timer};
use hyprbar::clock::state::{
    Alarm, AlarmEditor, ClockData, Repeat, StopwatchData, TimerData, enabled_default,
};
use hyprbar::clock::zones::{day_tag, offset_label, utc_label, zone_display_name, zone_name_or_local};
use hyprbar::date::grid::PlainDate;
use hyprbar::components::{ComponentAction, ComponentTag, Interaction};

const SECOND: u128 = 1_000_000_000;

#[test]
fn repeat_codes_and_labels() {
    for repeat in Repeat::all() {
        assert_eq!(Repeat::from_code(repeat.code()), Some(repeat));
    }
    assert_eq!(Repeat::from_code(3), None);
    assert_eq!(Repeat::Daily.label(), "Todos los días");
    assert_eq!(Repeat::Weekdays.label(), "L a V");
    assert_eq!(Repeat::Weekend.label(), "Finde");
    assert_eq!(Repeat::default(), Repeat::Daily);
}

#[test]
fn repeat_matches_weekdays() {
    assert!(Repeat::Weekdays.matches(chrono::Weekday::Fri));
    assert!(!Repeat::Weekdays.matches(chrono::Weekday::Sat));
    assert!(Repeat::Weekend.matches(chrono::Weekday::Sun));
    assert!(!Repeat::Weekend.matches(chrono::Weekday::Mon));
    assert!(Repeat::Daily.matches(chrono::Weekday::Wed));
    assert!(Repeat::Weekdays.matches_day(0));
    assert!(!Repeat::Weekdays.matches_day(5));
}

#[test]
fn alarm_texts() {
    let alarm = Alarm { hour: 7, minute: 5, repeat: Repeat::Weekdays, enabled: true, label: None };
    assert_eq!(alarm.time_text(), "07:05");
    assert_eq!(alarm.subtitle(), "L a V");
    let named = Alarm { label: Some("Trabajo".to_string()), ..alarm };
    assert_eq!(named.subtitle(), "Trabajo · L a V");
    assert!(enabled_default());
}

#[test]
fn stopwatch_runs_and_laps() {
    let mut sw = StopwatchData::new();
    assert!(!sw.running());
    sw.lap(5 * SECOND);
    assert!(sw.laps.is_empty());
    sw.toggle(SECOND);
    assert!(sw.running());
    assert_eq!(sw.elapsed(4 * SECOND), 3 * SECOND);
    assert_eq!(sw.elapsed(0), 0);
    sw.lap(3 * SECOND);
    sw.toggle(6 * SECOND);
    assert_eq!(sw.elapsed(100 * SECOND), 5 * SECOND);
    assert_eq!(sw.laps, vec![2 * SECOND]);
    sw.toggle(10 * SECOND);
    assert_eq!(sw.elapsed(12 * SECOND), 7 * SECOND);
    sw.reset();
    assert_eq!(sw.elapsed(20 * SECOND), 0);
    assert!(!sw.running());
}

#[test]
fn timer_pause_resume_and_reload() {
    let mut timer = TimerData::default();
    assert_eq!(timer.duration, 300 * SECOND);
    assert_eq!(timer.remaining(0), 300 * SECOND);
    timer.toggle(0);
    timer.toggle(100 * SECOND);
    assert!(!timer.running());
    assert_eq!(timer.remaining(1000 * SECOND), 200 * SECOND);
    timer.toggle(1000 * SECOND);
    assert_eq!(timer.remaining(1150 * SECOND), 50 * SECOND);
    assert_eq!(timer.remaining(2000 * SECOND), 0);
    timer.toggle(2000 * SECOND);
    assert_eq!(timer.remaining_at_pause, 0);
    timer.toggle(3000 * SECOND);
    assert_eq!(timer.remaining(3000 * SECOND), 300 * SECOND);
}

#[test]
fn timer_set_minutes_resets() {
    let mut timer = TimerData::default();
    timer.toggle(0);
    timer.set_minutes(25);
    assert_eq!(timer.duration, 1500 * SECOND);
    assert!(!timer.running());
    assert_eq!(timer.remaining(10 * SECOND), 1500 * SECOND);
    timer.reset();
    assert!(!timer.finished);
}

#[test]
fn editors() {
    let blank = AlarmEditor::blank();
    assert_eq!(blank, AlarmEditor { index: None, hour: 7, minute: 0, repeat: Repeat::Daily });
    let alarm = Alarm { hour: 22, minute: 30, repeat: Repeat::Weekend, enabled: false, label: None };
    assert_eq!(
        AlarmEditor::for_alarm(3, &alarm),
        AlarmEditor { index: Some(3), hour: 22, minute: 30, repeat: Repeat::Weekend }
    );
    let data = ClockData::new();
    assert!(data.alarms.is_empty());
    assert_eq!(data.timer, TimerData::default());
}

#[test]
fn clock_tabs() {
    assert_eq!(ClockTab::default(), ClockTab::Clock);
    let labels: Vec<&str> = ClockTab::all().iter().map(|t| t.label()).collect();
    assert_eq!(labels, vec!["Reloj", "Alarmas", "Cronómetro", "Temporizador"]);
    for tab in ClockTab::all() {
        assert_eq!(ClockTab::from_code(tab.code()), Some(tab));
    }
    assert_eq!(ClockTab::from_code(4), None);
}

#[test]
fn clock_actions_round_trip() {
    let actions = [
        ClockAction::SelectTab(ClockTab::Timer),
        ClockAction::ToggleAlarm(3),
        ClockAction::EditAlarm(0),
        ClockAction::DeleteAlarm,
        ClockAction::NewAlarm,
        ClockAction::EditorSave,
        ClockAction::EditorCancel,
        ClockAction::EditorHourUp,
        ClockAction::EditorHourDown,
        ClockAction::EditorMinuteUp,
        ClockAction::EditorMinuteDown,
        ClockAction::EditorRepeat(Repeat::Weekend),
        ClockAction::StopwatchToggle,
        ClockAction::StopwatchLap,
        ClockAction::StopwatchReset,
        ClockAction::TimerToggle,
        ClockAction::TimerReset,
        ClockAction::TimerPreset(25),
    ];
    for action in actions {
        assert_eq!(ClockAction::from_interaction(action.interaction()), Some(action));
        let (code, value) = action.encode();
        assert_eq!(ClockAction::decode(code, value), Some(action));
    }
    assert_eq!(ClockAction::decode(10, -4), Some(ClockAction::ToggleAlarm(0)));
    assert_eq!(ClockAction::decode(20, 7), None);
    assert_eq!(ClockAction::decode(99, 0), None);
    let foreign = Interaction::Action(ComponentAction::new(ComponentTag::Profile, 10));
    assert_eq!(ClockAction::from_interaction(foreign), None);
}

#[test]
fn stopwatch_readout() {
    assert_eq!(format_stopwatch(0), ("00:00".to_string(), ",00".to_string()));
    assert_eq!(format_stopwatch(65_430_000_000), ("01:05".to_string(), ",43".to_string()));
    assert_eq!(format_stopwatch(3_725_009_999_999), ("1:02:05".to_string(), ",00".to_string()));
}

#[test]
fn timer_readout() {
    assert_eq!(format_timer(300 * SECOND), "05:00");
    assert_eq!(format_timer(61 * SECOND + 999_999_999), "01:01");
    assert_eq!(format_timer(6000 * SECOND), "100:00");
}

#[test]
fn zone_labels() {
    assert_eq!(offset_label(0), "0h");
    assert_eq!(offset_label(540), "+9h");
    assert_eq!(offset_label(-330), "-5:30");
    assert_eq!(utc_label(0), "UTC");
    assert_eq!(utc_label(120), "UTC+2");
    assert_eq!(utc_label(-210), "UTC-3:30");
    assert_eq!(zone_display_name("America/New_York"), "New York");
    assert_eq!(zone_display_name("UTC"), "UTC");
    assert_eq!(zone_display_name("America/Argentina/Buenos_Aires"), "Buenos Aires");
    assert_eq!(zone_name_or_local(&None), "hora local");
    assert_eq!(zone_name_or_local(&Some("Europe/Madrid".to_string())), "Madrid");
}

#[test]
fn day_tags() {
    let here = PlainDate { year: 2024, month: 12, day: 31 };
    let tomorrow = PlainDate { year: 2025, month: 1, day: 1 };
    assert_eq!(day_tag(here, tomorrow), Some("mañ."));
    assert_eq!(day_tag(tomorrow, here), Some("ayer"));
    assert_eq!(day_tag(here, here), None);
}

#[test]
fn repeat_matches_every_weekday() {

    for day in [Mon, Tue, Wed, Thu, Fri] {
        assert!(Repeat::Weekdays.matches(day));
        assert!(!Repeat::Weekend.matches(day));
        assert!(Repeat::Daily.matches(day));
    }
    for day in [Sat, Sun] {
        assert!(!Repeat::Weekdays.matches(day));
        assert!(Repeat::Weekend.matches(day));
        assert!(Repeat::Daily.matches(day));
    }
}
