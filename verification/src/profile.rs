//! The profile pill: the session actions of its panel and the user and
//! host names it shows.

use vstd::prelude::*;
use vstd::string::StringExecFns;

use crate::components::{ComponentAction, ComponentTag, Interaction};
use crate::text::{trim, trimmed};

verus! {

#[derive(Debug, Clone, Copy, PartialEq, Eq, Structural)]
pub enum SessionAction {
    Lock,
    Logout,
}

pub open spec fn session_code(action: SessionAction) -> u16 {
    match action {
        SessionAction::Lock => 0,
        SessionAction::Logout => 1,
    }
}

pub open spec fn session_from_code(code: u16) -> Option<SessionAction> {
    if code == 0 {
        Some(SessionAction::Lock)
    } else if code == 1 {
        Some(SessionAction::Logout)
    } else {
        None
    }
}

/// The interaction that carries a session action.
pub open spec fn session_interaction(action: SessionAction) -> Interaction {
    Interaction::Action(ComponentAction { owner: ComponentTag::Profile, id: session_code(action), value: 0 })
}

/// The session action an interaction carries, if any.
pub open spec fn session_action_of(interaction: Interaction) -> Option<SessionAction> {
    match interaction {
        Interaction::Action(action) => if action.owner == ComponentTag::Profile {
            session_from_code(action.id)
        } else {
            None
        },
        _ => None,
    }
}

/// The program a session action runs, and its arguments.
pub open spec fn session_program(action: SessionAction) -> Seq<char> {
    match action {
        SessionAction::Lock => "hyprlock"@,
        SessionAction::Logout => "hyprctl"@,
    }
}

pub open spec fn session_arguments(action: SessionAction) -> Seq<Seq<char>> {
    match action {
        SessionAction::Lock => Seq::empty(),
        SessionAction::Logout => seq!["dispatch"@, "exit"@],
    }
}

impl SessionAction {
    pub fn all() -> (r: [SessionAction; 2])
        ensures
            r@ == seq![SessionAction::Lock, SessionAction::Logout],
    {
        [SessionAction::Lock, SessionAction::Logout]
    }

    pub fn glyph(self) -> (r: &'static str)
        ensures
            self == SessionAction::Lock ==> r@ == "\u{f033e}"@,
            self == SessionAction::Logout ==> r@ == "\u{f0343}"@,
    {
        match self {
            SessionAction::Lock => "\u{f033e}",
            SessionAction::Logout => "\u{f0343}",
        }
    }

    pub fn label(self) -> (r: &'static str)
        ensures
            self == SessionAction::Lock ==> r@ == "Bloquear"@,
            self == SessionAction::Logout ==> r@ == "Salir"@,
    {
        match self {
            SessionAction::Lock => "Bloquear",
            SessionAction::Logout => "Salir",
        }
    }

    pub fn interaction(self) -> (r: Interaction)
        ensures
            r == session_interaction(self),
    {
        Interaction::Action(ComponentAction::new(ComponentTag::Profile, self.code()))
    }

    pub fn from_interaction(interaction: Interaction) -> (r: Option<SessionAction>)
        ensures
            r == session_action_of(interaction),
    {
        let action = match interaction {
            Interaction::Action(action) => action,
            _ => return None,
        };
        if action.owner() != ComponentTag::Profile {
            return None;
        }
        SessionAction::from_code(action.id())
    }

    pub fn code(self) -> (r: u16)
        ensures
            r == session_code(self),
    {
        match self {
            SessionAction::Lock => 0,
            SessionAction::Logout => 1,
        }
    }

    pub fn from_code(code: u16) -> (r: Option<SessionAction>)
        ensures
            r == session_from_code(code),
    {
        match code {
            0 => Some(SessionAction::Lock),
            1 => Some(SessionAction::Logout),
            _ => None,
        }
    }

    /// The command that carries the action out: `hyprlock` locks the
    /// session, `hyprctl dispatch exit` leaves it.
    pub fn command(self) -> (r: (&'static str, Vec<&'static str>))
        ensures
            r.0@ == session_program(self),
            r.1@.len() == session_arguments(self).len(),
            forall|i: int| 0 <= i < r.1@.len() ==> r.1@[i]@ == session_arguments(self)[i],
    {
        match self {
            SessionAction::Lock => ("hyprlock", Vec::new()),
            SessionAction::Logout => {
                let arguments = vec!["dispatch", "exit"];
                ("hyprctl", arguments)
            },
        }
    }
}

/// Reading back the interaction of a session action gives the action.
pub proof fn lemma_session_round_trip(action: SessionAction)
    ensures
        session_action_of(session_interaction(action)) == Some(action),
        session_from_code(session_code(action)) == Some(action),
{
}

/// A host name as written in `$HOSTNAME` or `/etc/hostname`: without the
/// white space around it.
pub fn parse_hostname(raw: &str) -> (r: String)
    ensures
        r@ == trim(raw@),
{
    trimmed(raw)
}

/// The user name shown: `$USER` when it is set and not empty, else
/// "usuario".
pub open spec fn user_name_text(env_user: Option<Seq<char>>) -> Seq<char> {
    match env_user {
        Some(user) => if user.len() > 0 { user } else { "usuario"@ },
        None => "usuario"@,
    }
}

pub open spec fn string_view(o: Option<String>) -> Option<Seq<char>> {
    match o {
        Some(s) => Some(s@),
        None => None,
    }
}

pub open spec fn str_view(o: Option<&str>) -> Option<Seq<char>> {
    match o {
        Some(s) => Some(s@),
        None => None,
    }
}

pub fn user_name_from(env_user: Option<String>) -> (r: String)
    ensures
        r@ == user_name_text(string_view(env_user)),
{
    match env_user {
        Some(user) => if user.unicode_len() > 0 {
            user
        } else {
            String::from_str("usuario")
        },
        None => String::from_str("usuario"),
    }
}

/// A host name from one source: its trimmed text, if that is not empty.
pub open spec fn host_candidate(raw: Option<Seq<char>>) -> Option<Seq<char>> {
    match raw {
        Some(text) => if trim(text).len() > 0 { Some(trim(text)) } else { None },
        None => None,
    }
}

pub fn host_candidate_from(raw: Option<&str>) -> (r: Option<String>)
    ensures
        string_view(r) == host_candidate(str_view(raw)),
{
    match raw {
        Some(text) => {
            let host = parse_hostname(text);
            if host.unicode_len() > 0 {
                Some(host)
            } else {
                None
            }
        },
        None => None,
    }
}

/// The host name shown: from `$HOSTNAME`, else from `/etc/hostname`, else
/// "host".
pub open spec fn host_name_text(env_host: Option<Seq<char>>, file_host: Option<Seq<char>>) -> Seq<char> {
    match host_candidate(env_host) {
        Some(host) => host,
        None => match host_candidate(file_host) {
            Some(host) => host,
            None => "host"@,
        },
    }
}

/// Picks the host name from `$HOSTNAME` and `/etc/hostname`; the file is
/// only consulted when the variable gives nothing.
pub fn host_name_from(env_host: Option<&str>, file_host: Option<&str>) -> (r: String)
    ensures
        r@ == host_name_text(str_view(env_host), str_view(file_host)),
{
    match host_candidate_from(env_host) {
        Some(host) => host,
        None => match host_candidate_from(file_host) {
            Some(host) => host,
            None => String::from_str("host"),
        },
    }
}

/// Trimming twice changes nothing more than trimming once.
pub proof fn lemma_parse_hostname_idempotent(raw: Seq<char>)
    ensures
        trim(trim(raw)) == trim(raw),
{
    crate::text::lemma_trim_idempotent(raw);
}

} // verus!
