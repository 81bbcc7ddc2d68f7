use hyprbar::clock::action::{ClockAction, ClockTab};
use hyprbar::clock::alarms::{
    AlarmMoment, alarm_notice, check_alarms, due_alarms, save_editor, sort_alarms, timer_notice,
};
use hyprbar::clock::panel::{ClockPanel, lap_label, more_label};
use hyprbar::clock::pill::{ClockOutcome, ClockPill, hour_minute};
use hyprbar::clock::state::{Alarm, AlarmEditor, ClockData, Repeat, StopwatchData, TimerData};
use hyprbar::components::{ComponentAction, ComponentTag, DropdownId, Interaction};

const SECOND: u128 = 1_000_000_000;

fn alarm(hour: u8, minute: u8, label: &str) -> Alarm {
    Alarm {
        hour,
        minute,
        repeat: Repeat::Daily,
        enabled: true,
        label: if label.is_empty() { None } else { Some(label.to_string()) },
    }
}

fn times(alarms: &[Alarm]) -> Vec<(u8, u8)> {
    alarms.iter().map(|a| (a.hour, a.minute)).collect()
}

fn press(pill: &mut ClockPill, data: &mut ClockData, action: ClockAction, now: u128) -> Option<ClockOutcome> {
    pill.handle_interaction(data, action.interaction(), now)
}

#[test]
fn sort_alarms_is_stable_by_time() {
    let mut alarms = vec![alarm(9, 0, "b"), alarm(7, 30, ""), alarm(9, 0, "a"), alarm(6, 45, "")];
    sort_alarms(&mut alarms);
    assert_eq!(times(&alarms), vec![(6, 45), (7, 30), (9, 0), (9, 0)]);
    assert_eq!(alarms[2].label.as_deref(), Some("b"));
    assert_eq!(alarms[3].label.as_deref(), Some("a"));
}

#[test]
fn sort_alarms_twice_changes_nothing() {
    let mut alarms = vec![alarm(23, 59, ""), alarm(0, 0, ""), alarm(12, 1, "")];
    sort_alarms(&mut alarms);
    let once = times(&alarms);
    sort_alarms(&mut alarms);
    assert_eq!(times(&alarms), once);
    assert_eq!(once, vec![(0, 0), (12, 1), (23, 59)]);
}

#[test]
fn save_new_alarm_inserts_in_time_order() {
    let mut alarms = vec![alarm(6, 0, ""), alarm(8, 0, "")];
    let editor = AlarmEditor { index: None, hour: 7, minute: 15, repeat: Repeat::Weekend };
    save_editor(&mut alarms, editor);
    assert_eq!(times(&alarms), vec![(6, 0), (7, 15), (8, 0)]);
    assert!(alarms[1].enabled);
    assert_eq!(alarms[1].repeat, Repeat::Weekend);
    assert_eq!(alarms[1].label, None);
}

#[test]
fn save_existing_alarm_keeps_name_and_switch() {
    let mut alarms = vec![alarm(6, 0, "gym"), alarm(8, 0, "work")];
    alarms[0].enabled = false;
    let editor = AlarmEditor { index: Some(0), hour: 9, minute: 5, repeat: Repeat::Weekdays };
    save_editor(&mut alarms, editor);
    assert_eq!(times(&alarms), vec![(8, 0), (9, 5)]);
    assert_eq!(alarms[1].label.as_deref(), Some("gym"));
    assert!(!alarms[1].enabled);
    assert_eq!(alarms[1].repeat, Repeat::Weekdays);
}

#[test]
fn save_with_stale_index_adds_alarm() {
    let mut alarms = vec![alarm(6, 0, "")];
    let editor = AlarmEditor { index: Some(4), hour: 5, minute: 0, repeat: Repeat::Daily };
    save_editor(&mut alarms, editor);
    assert_eq!(times(&alarms), vec![(5, 0), (6, 0)]);
}

#[test]
fn pill_ignores_other_components() {
    let mut pill = ClockPill::new();
    let mut data = ClockData::new();
    let foreign = Interaction::Action(ComponentAction::new(ComponentTag::Date, 0));
    assert_eq!(pill.handle_interaction(&mut data, foreign, 0), None);
    assert_eq!(pill.handle_interaction(&mut data, Interaction::Dropdown(DropdownId::Clock), 0), None);
}

#[test]
fn select_tab_closes_editor() {
    let mut pill = ClockPill::new();
    let mut data = ClockData::new();
    press(&mut pill, &mut data, ClockAction::NewAlarm, 0);
    assert!(pill.editor.is_some());
    let outcome = press(&mut pill, &mut data, ClockAction::SelectTab(ClockTab::Timer), 0);
    assert_eq!(outcome, Some(ClockOutcome { save_alarms: false }));
    assert_eq!(pill.active_tab, ClockTab::Timer);
    assert!(pill.editor.is_none());
}

#[test]
fn new_alarm_editor_then_save() {
    let mut pill = ClockPill::new();
    let mut data = ClockData::new();
    press(&mut pill, &mut data, ClockAction::NewAlarm, 0);
    assert_eq!(pill.editor, Some(AlarmEditor::blank()));
    press(&mut pill, &mut data, ClockAction::EditorHourUp, 0);
    press(&mut pill, &mut data, ClockAction::EditorMinuteDown, 0);
    press(&mut pill, &mut data, ClockAction::EditorRepeat(Repeat::Weekdays), 0);
    let editor = pill.editor.unwrap();
    assert_eq!((editor.hour, editor.minute, editor.repeat), (8, 55, Repeat::Weekdays));
    let outcome = press(&mut pill, &mut data, ClockAction::EditorSave, 0);
    assert_eq!(outcome, Some(ClockOutcome { save_alarms: true }));
    assert!(pill.editor.is_none());
    assert_eq!(times(&data.alarms), vec![(8, 55)]);
    assert_eq!(data.alarms[0].repeat, Repeat::Weekdays);
}

#[test]
fn picker_wraps_around_the_clock() {
    let mut pill = ClockPill::new();
    let mut data = ClockData::new();
    pill.editor = Some(AlarmEditor { index: None, hour: 23, minute: 55, repeat: Repeat::Daily });
    press(&mut pill, &mut data, ClockAction::EditorHourUp, 0);
    press(&mut pill, &mut data, ClockAction::EditorMinuteUp, 0);
    assert_eq!((pill.editor.unwrap().hour, pill.editor.unwrap().minute), (0, 0));
    press(&mut pill, &mut data, ClockAction::EditorHourDown, 0);
    press(&mut pill, &mut data, ClockAction::EditorMinuteDown, 0);
    assert_eq!((pill.editor.unwrap().hour, pill.editor.unwrap().minute), (23, 55));
}

#[test]
fn picker_without_editor_does_nothing() {
    let mut pill = ClockPill::new();
    let mut data = ClockData::new();
    let outcome = press(&mut pill, &mut data, ClockAction::EditorHourUp, 0);
    assert_eq!(outcome, Some(ClockOutcome { save_alarms: false }));
    assert!(pill.editor.is_none());
}

#[test]
fn toggle_alarm_flips_and_saves() {
    let mut pill = ClockPill::new();
    let mut data = ClockData::new();
    data.alarms.push(alarm(7, 0, ""));
    let outcome = press(&mut pill, &mut data, ClockAction::ToggleAlarm(0), 0);
    assert_eq!(outcome, Some(ClockOutcome { save_alarms: true }));
    assert!(!data.alarms[0].enabled);
    press(&mut pill, &mut data, ClockAction::ToggleAlarm(0), 0);
    assert!(data.alarms[0].enabled);
    let outcome = press(&mut pill, &mut data, ClockAction::ToggleAlarm(3), 0);
    assert_eq!(outcome, Some(ClockOutcome { save_alarms: false }));
}

#[test]
fn edit_then_delete_alarm() {
    let mut pill = ClockPill::new();
    let mut data = ClockData::new();
    data.alarms.push(alarm(6, 0, ""));
    data.alarms.push(alarm(7, 0, ""));
    press(&mut pill, &mut data, ClockAction::EditAlarm(1), 0);
    let editor = pill.editor.unwrap();
    assert_eq!(editor, AlarmEditor { index: Some(1), hour: 7, minute: 0, repeat: Repeat::Daily });
    let outcome = press(&mut pill, &mut data, ClockAction::DeleteAlarm, 0);
    assert_eq!(outcome, Some(ClockOutcome { save_alarms: true }));
    assert!(pill.editor.is_none());
    assert_eq!(times(&data.alarms), vec![(6, 0)]);
}

#[test]
fn delete_on_new_alarm_only_closes_editor() {
    let mut pill = ClockPill::new();
    let mut data = ClockData::new();
    data.alarms.push(alarm(6, 0, ""));
    press(&mut pill, &mut data, ClockAction::NewAlarm, 0);
    let outcome = press(&mut pill, &mut data, ClockAction::DeleteAlarm, 0);
    assert_eq!(outcome, Some(ClockOutcome { save_alarms: false }));
    assert!(pill.editor.is_none());
    assert_eq!(data.alarms.len(), 1);
}

#[test]
fn edit_missing_alarm_keeps_editor() {
    let mut pill = ClockPill::new();
    let mut data = ClockData::new();
    press(&mut pill, &mut data, ClockAction::EditAlarm(2), 0);
    assert!(pill.editor.is_none());
    press(&mut pill, &mut data, ClockAction::EditorCancel, 0);
    assert!(pill.editor.is_none());
}

#[test]
fn stopwatch_through_the_pill() {
    let mut pill = ClockPill::new();
    let mut data = ClockData::new();
    press(&mut pill, &mut data, ClockAction::StopwatchToggle, 10 * SECOND);
    assert_eq!(data.stopwatch.started_at, Some(10 * SECOND));
    press(&mut pill, &mut data, ClockAction::StopwatchLap, 12 * SECOND);
    press(&mut pill, &mut data, ClockAction::StopwatchToggle, 15 * SECOND);
    assert_eq!(data.stopwatch.started_at, None);
    assert_eq!(data.stopwatch.accumulated, 5 * SECOND);
    assert_eq!(data.stopwatch.laps, vec![2 * SECOND]);
    press(&mut pill, &mut data, ClockAction::StopwatchReset, 16 * SECOND);
    assert_eq!(data.stopwatch.accumulated, 0);
    assert!(data.stopwatch.laps.is_empty());
}

#[test]
fn timer_through_the_pill() {
    let mut pill = ClockPill::new();
    let mut data = ClockData::new();
    press(&mut pill, &mut data, ClockAction::TimerPreset(10), 0);
    assert_eq!(data.timer.duration, 600 * SECOND);
    press(&mut pill, &mut data, ClockAction::TimerToggle, SECOND);
    assert_eq!(data.timer.remaining(61 * SECOND), 540 * SECOND);
    press(&mut pill, &mut data, ClockAction::TimerReset, 70 * SECOND);
    assert_eq!(data.timer.remaining(900 * SECOND), 600 * SECOND);
    assert!(!data.timer.running());
}

#[test]
fn accepts_rejects_overflowing_steps() {
    let mut pill = ClockPill::new();
    let data = ClockData::new();
    pill.editor = Some(AlarmEditor { index: None, hour: 255, minute: 200, repeat: Repeat::Daily });
    assert!(!pill.accepts(&data, ClockAction::EditorHourUp.interaction(), 0));
    assert!(!pill.accepts(&data, ClockAction::EditorHourDown.interaction(), 0));
    assert!(pill.accepts(&data, ClockAction::EditorMinuteUp.interaction(), 0));
    assert!(!pill.accepts(&data, ClockAction::EditorMinuteDown.interaction(), 0));
    assert!(pill.accepts(&data, ClockAction::NewAlarm.interaction(), 0));
}

#[test]
fn dropdown_tick_follows_the_tab() {
    let mut pill = ClockPill::new();
    let mut data = ClockData::new();
    assert_eq!(pill.dropdown_tick_millis(&data), 1000);
    pill.active_tab = ClockTab::Stopwatch;
    assert_eq!(pill.dropdown_tick_millis(&data), 1000);
    data.stopwatch.toggle(0);
    assert_eq!(pill.dropdown_tick_millis(&data), 50);
    pill.active_tab = ClockTab::Timer;
    assert_eq!(pill.dropdown_tick_millis(&data), 1000);
    data.timer.toggle(0);
    assert_eq!(pill.dropdown_tick_millis(&data), 200);
}

#[test]
fn close_resets_tab_and_editor() {
    let mut pill = ClockPill::new();
    pill.active_tab = ClockTab::Alarms;
    pill.editor = Some(AlarmEditor::blank());
    pill.close();
    assert_eq!(pill.active_tab, ClockTab::Clock);
    assert!(pill.editor.is_none());
}

#[test]
fn frame_text_is_taken_once() {
    let mut pill = ClockPill::new();
    assert!(pill.is_active(Some(DropdownId::Clock)));
    assert!(!pill.is_active(Some(DropdownId::Date)));
    pill.set_frame_text(hour_minute(9, 5));
    assert_eq!(pill.take_frame_text().as_deref(), Some("09:05"));
    assert_eq!(pill.take_frame_text(), None);
}

fn moment(hour: u32, minute: u32, day: u32) -> AlarmMoment {
    AlarmMoment { ordinal: 100, hour, minute, days_from_monday: day }
}

#[test]
fn due_alarms_follow_switch_time_and_day() {
    let mut off = alarm(7, 0, "");
    off.enabled = false;
    let mut weekdays = alarm(7, 0, "");
    weekdays.repeat = Repeat::Weekdays;
    let mut weekend = alarm(7, 0, "");
    weekend.repeat = Repeat::Weekend;
    let alarms = vec![alarm(7, 0, ""), off, weekdays, weekend, alarm(7, 1, "")];
    assert_eq!(due_alarms(&alarms, moment(7, 0, 2)), vec![0, 2]);
    assert_eq!(due_alarms(&alarms, moment(7, 0, 6)), vec![0, 3]);
    assert_eq!(due_alarms(&alarms, moment(8, 0, 6)), Vec::<usize>::new());
}

#[test]
fn alarm_rings_once_per_minute() {
    let alarms = vec![alarm(7, 0, "")];
    let mut last = None;
    assert_eq!(check_alarms(&mut last, &alarms, moment(7, 0, 0)), vec![0]);
    assert_eq!(last, Some((100, 7, 0)));
    assert!(check_alarms(&mut last, &alarms, moment(7, 0, 0)).is_empty());
    let mut next_day = moment(7, 0, 1);
    next_day.ordinal = 101;
    assert_eq!(check_alarms(&mut last, &alarms, next_day), vec![0]);
}

#[test]
fn nothing_due_keeps_last_minute() {
    let alarms = vec![alarm(7, 0, "")];
    let mut last = Some((1, 2, 3));
    assert!(check_alarms(&mut last, &alarms, moment(6, 0, 0)).is_empty());
    assert_eq!(last, Some((1, 2, 3)));
}

#[test]
fn notices_read_well() {
    let (title, text) = alarm_notice(&alarm(6, 5, "Gimnasio"));
    assert_eq!(title, "Alarma 06:05");
    assert_eq!(text, "Gimnasio · Todos los días");
    let (title, text) = timer_notice(25);
    assert_eq!(title, "Temporizador terminado");
    assert_eq!(text, "25 min cumplidos");
}

#[test]
fn panel_lists_recent_laps_first() {
    let mut data = ClockData::new();
    data.stopwatch = StopwatchData { started_at: None, accumulated: 0, laps: (1..=7).map(|k| k * SECOND).collect() };
    let panel = ClockPanel::new(&data, ClockTab::Stopwatch, None);
    assert_eq!(panel.hidden_laps(), 2);
    assert_eq!(
        panel.shown_laps(),
        vec![(7, 7 * SECOND), (6, 6 * SECOND), (5, 5 * SECOND), (4, 4 * SECOND), (3, 3 * SECOND)]
    );
    assert_eq!(panel.stopwatch_toggle_label(), "Iniciar");
    assert_eq!(lap_label(7), "Vuelta 7");
    assert_eq!(more_label(2), "+2 más");
}

#[test]
fn panel_counts_alarm_rows_and_editor_buttons() {
    let mut data = ClockData::new();
    for hour in 0..8 {
        data.alarms.push(alarm(hour, 0, ""));
    }
    let existing = AlarmEditor { index: Some(0), hour: 0, minute: 0, repeat: Repeat::Daily };
    let panel = ClockPanel::new(&data, ClockTab::Alarms, Some(&existing));
    assert_eq!(panel.shown_alarms(), 6);
    assert_eq!(panel.hidden_alarms(), 2);
    assert_eq!(
        panel.editor_actions(),
        vec![ClockAction::EditorCancel, ClockAction::EditorSave, ClockAction::DeleteAlarm]
    );
    let blank = AlarmEditor::blank();
    let panel = ClockPanel::new(&data, ClockTab::Alarms, Some(&blank));
    assert_eq!(panel.editor_actions(), vec![ClockAction::EditorCancel, ClockAction::EditorSave]);
}

#[test]
fn timer_expiry_is_reported_once() {
    let mut timer = TimerData::default();
    timer.toggle(0);
    assert_eq!(timer.expire(299 * SECOND), None);
    assert_eq!(timer.expire(300 * SECOND), Some(5));
    assert!(timer.finished);
    assert!(!timer.running());
    assert_eq!(timer.expire(400 * SECOND), None);
}

#[test]
fn moment_from_a_chrono_weekday() {
    let sunday = AlarmMoment::at(7, 8, 30, chrono::Weekday::Sun);
    assert_eq!(sunday, AlarmMoment { ordinal: 7, hour: 8, minute: 30, days_from_monday: 6 });
    assert_eq!(AlarmMoment::at(1, 0, 0, chrono::Weekday::Mon).days_from_monday, 0);
    let mut weekend = alarm(8, 30, "");
    weekend.repeat = Repeat::Weekend;
    assert_eq!(due_alarms(&vec![weekend], sunday), vec![0]);
}
