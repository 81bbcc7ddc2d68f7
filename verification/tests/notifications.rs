use hyprbar::components::{ComponentAction, ComponentTag, DropdownId, Interaction};
use hyprbar::notifications::action::NotificationAction;
use hyprbar::notifications::pill::{BELL_GLYPH, BELL_OFF_GLYPH, BellTone, NotificationsPill};
use hyprbar::notifications::state::{
    HistoryNote, HyprnotifyState, NoteUrgency, NotificationsData, age, first_line_of, header_title, note_meta,
};

fn note(app: &str, summary: &str, body: &str, closed: u64) -> HistoryNote {
    HistoryNote {
        app_name: app.to_string(),
        summary: summary.to_string(),
        body: body.to_string(),
        urgency: NoteUrgency::Normal,
        closed_at_unix: closed,
    }
}

fn notes(n: usize) -> Vec<HistoryNote> {
    (0..n).map(|k| note("app", &format!("n{k}"), "", k as u64)).collect()
}

#[test]
fn ages() {
    assert_eq!(age(0), "ahora");
    assert_eq!(age(59), "ahora");
    assert_eq!(age(60), "1m");
    assert_eq!(age(3599), "59m");
    assert_eq!(age(3600), "1h");
    assert_eq!(age(86399), "23h");
    assert_eq!(age(86400), "1d");
    assert_eq!(age(200_000), "2d");
}

#[test]
fn row_meta() {
    let full = note("Firefox", "Download", "done\r\nsecond line", 1000);
    assert_eq!(note_meta(&full, 1300), "5m · Firefox — done");
    assert_eq!(note_meta(&note("", "x", "", 1000), 1010), "ahora");
    assert_eq!(note_meta(&note("", "x", "body", 5000), 1000), "ahora — body");
    assert_eq!(first_line_of("a\nb"), "a");
    assert_eq!(first_line_of("only\r"), "only\r");
    assert_eq!(header_title(12), "Notificaciones · 12");
}

#[test]
fn defaults_and_data() {
    assert_eq!(NoteUrgency::default(), NoteUrgency::Normal);
    assert_eq!(HyprnotifyState::default(), HyprnotifyState { dnd: false, history_count: 0 });
    let blank = HistoryNote::default();
    assert!(blank.app_name.is_empty() && blank.body.is_empty() && blank.closed_at_unix == 0);
    let mut data = NotificationsData::new();
    data.notes = notes(10);
    data.state.history_count = 10;
    assert_eq!(data.visible_rows(), 8);
    assert_eq!(data.max_scroll(), 2);
    data.clear_history();
    assert!(data.notes.is_empty());
    assert_eq!(data.state.history_count, 0);
}

#[test]
fn notification_action_round_trip() {
    let action = NotificationAction::ClearHistory;
    assert_eq!(NotificationAction::from_interaction(action.interaction()), Some(action));
    assert_eq!(NotificationAction::from_code(action.code()), Some(action));
    assert_eq!(NotificationAction::from_code(1), None);
    let foreign = Interaction::Action(ComponentAction::new(ComponentTag::Clock, 0));
    assert_eq!(NotificationAction::from_interaction(foreign), None);
}

#[test]
fn notes_are_kept_newest_first() {
    let mut pill = NotificationsPill::new();
    pill.set_notes(notes(3));
    let summaries: Vec<&str> = pill.notes().iter().map(|n| n.summary.as_str()).collect();
    assert_eq!(summaries, vec!["n2", "n1", "n0"]);
}

#[test]
fn scroll_moves_one_row_within_the_history() {
    let mut pill = NotificationsPill::new();
    pill.set_notes(notes(5));
    assert!(!pill.handle_scroll(true));
    pill.set_notes(notes(10));
    assert_eq!(pill.max_scroll(), 2);
    assert!(!pill.handle_scroll(false));
    assert!(pill.handle_scroll(true));
    assert!(pill.handle_scroll(true));
    assert!(!pill.handle_scroll(true));
    assert_eq!(pill.scroll(), 2);
    assert_eq!(pill.shown_range(), (2, 10));
    pill.set_notes(notes(9));
    assert_eq!(pill.scroll(), 1);
    assert!(pill.handle_scroll(false));
    assert_eq!(pill.scroll(), 0);
    assert_eq!(pill.shown_range(), (0, 8));
    pill.handle_scroll(true);
    pill.reset_scroll();
    assert_eq!(pill.scroll(), 0);
}

#[test]
fn state_is_polled_every_two_seconds() {
    let mut pill = NotificationsPill::new();
    assert!(pill.poll_state(10));
    assert!(!pill.poll_state(1_000_000_010));
    assert!(pill.poll_state(2_000_000_010));
    assert_eq!(pill.state_checked, Some(2_000_000_010));
    assert!(pill.state_file_changed(Some(5)));
    assert!(!pill.state_file_changed(Some(5)));
    assert!(pill.state_file_changed(None));
    pill.set_state(Some(HyprnotifyState { dnd: true, history_count: 3 }));
    assert_eq!(pill.state, HyprnotifyState { dnd: true, history_count: 3 });
    pill.set_state(None);
    assert_eq!(pill.state, HyprnotifyState::default());
    assert!(pill.notes_file_changed(Some(1)));
    assert!(!pill.notes_file_changed(Some(1)));
}

#[test]
fn bell_and_dot() {
    let mut pill = NotificationsPill::new();
    assert!(pill.is_active(Some(DropdownId::Notifications)));
    assert!(!pill.is_active(Some(DropdownId::Clock)));
    assert_eq!(pill.bell(false), (BELL_GLYPH, BellTone::Normal));
    pill.state.dnd = true;
    assert_eq!(pill.bell(false), (BELL_OFF_GLYPH, BellTone::Muted));
    assert_eq!(pill.bell(true), (BELL_GLYPH, BellTone::Active));
    assert!(!pill.shows_dot(false));
    pill.state.history_count = 2;
    assert!(pill.shows_dot(false));
    assert!(!pill.shows_dot(true));
}

#[test]
fn clearing_empties_at_once() {
    let mut pill = NotificationsPill::new();
    pill.set_notes(notes(12));
    pill.state.history_count = 12;
    pill.handle_scroll(true);
    pill.clear_history();
    assert!(pill.notes().is_empty());
    assert_eq!(pill.state.history_count, 0);
    assert_eq!(pill.scroll(), 0);
}

#[test]
fn clear_button_needs_history() {
    let mut pill = NotificationsPill::new();
    assert_eq!(pill.hit_test_dropdown(true), None);
    pill.set_notes(notes(1));
    assert_eq!(pill.hit_test_dropdown(false), None);
    assert_eq!(pill.hit_test_dropdown(true), Some(NotificationAction::ClearHistory.interaction()));
}
