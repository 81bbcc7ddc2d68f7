use hyprbar::components::{ComponentAction, ComponentTag, Interaction};
use hyprbar::profile::{SessionAction, host_candidate_from, host_name_from, parse_hostname, user_name_from};

#[test]
fn session_actions() {
    assert_eq!(SessionAction::all(), [SessionAction::Lock, SessionAction::Logout]);
    assert_eq!(SessionAction::Lock.label(), "Bloquear");
    assert_eq!(SessionAction::Logout.label(), "Salir");
    assert_eq!(SessionAction::Lock.glyph(), "\u{f033e}");
    assert_eq!(SessionAction::Logout.glyph(), "\u{f0343}");
    for action in SessionAction::all() {
        assert_eq!(SessionAction::from_interaction(action.interaction()), Some(action));
        assert_eq!(SessionAction::from_code(action.code()), Some(action));
    }
    assert_eq!(SessionAction::from_code(2), None);
    let foreign = Interaction::Action(ComponentAction::new(ComponentTag::Notifications, 0));
    assert_eq!(SessionAction::from_interaction(foreign), None);
}

#[test]
fn session_commands() {
    assert_eq!(SessionAction::Lock.command(), ("hyprlock", vec![]));
    assert_eq!(SessionAction::Logout.command(), ("hyprctl", vec!["dispatch", "exit"]));
}

#[test]
fn hostnames() {
    assert_eq!(parse_hostname("  archbox\n"), "archbox");
    assert_eq!(parse_hostname(&parse_hostname(" a b ")), "a b");
    assert_eq!(host_candidate_from(Some("\n")), None);
    assert_eq!(host_candidate_from(None), None);
    assert_eq!(host_name_from(Some(" env-host "), Some("file-host")), "env-host");
    assert_eq!(host_name_from(Some("  "), Some("file-host\n")), "file-host");
    assert_eq!(host_name_from(None, None), "host");
}

#[test]
fn user_names() {
    assert_eq!(user_name_from(Some("ana".to_string())), "ana");
    assert_eq!(user_name_from(Some(String::new())), "usuario");
    assert_eq!(user_name_from(None), "usuario");
}
