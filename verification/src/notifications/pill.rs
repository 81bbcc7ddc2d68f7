//! The notifications pill: when to look at hyprnotify's files again, the
//! history it holds, and the panel's scroll, one row at a time.

use vstd::prelude::*;

use crate::components::{DropdownId, Interaction};
use crate::notifications::action::{NotificationAction, notification_interaction};
use crate::notifications::state::{
    HistoryNote, HyprnotifyState, MAX_VISIBLE_ROWS, max_scroll_of, max_scroll_spec, visible_rows_of,
    visible_rows_spec,
};

verus! {

/// How often `state.json` is looked at, at most: two seconds.
pub const STATE_POLL_NANOS: u128 = 2_000_000_000;

/// Bell glyph, and the same bell crossed out for "do not disturb".
pub const BELL_GLYPH: &'static str = "\u{f009a}";
pub const BELL_OFF_GLYPH: &'static str = "\u{f009b}";

/// How the bell is painted.
#[derive(Debug, Clone, Copy, PartialEq, Eq, Structural)]
pub enum BellTone {
    /// The panel is open.
    Active,
    /// Do not disturb is on.
    Muted,
    Normal,
}

/// The pill's state. Times are nanoseconds on a monotonic clock; file
/// modification times are nanoseconds since the Unix epoch, compared only
/// for equality.
pub struct NotificationsPill {
    pub state: HyprnotifyState,
    pub state_checked: Option<u128>,
    pub state_modified: Option<u128>,
    /// History and scroll; loaded while the panel is open.
    pub history: NoteHistory,
    pub notes_modified: Option<u128>,
}

/// The history, newest first, and the discrete scroll over it, in rows;
/// the scroll never passes the last page.
pub struct NoteHistory {
    notes: Vec<HistoryNote>,
    scroll: usize,
}

impl NoteHistory {
    #[verifier::type_invariant]
    spec fn scroll_on_a_page(&self) -> bool {
        self.scroll <= max_scroll_spec(self.notes@.len())
    }

    pub closed spec fn notes_spec(&self) -> Seq<HistoryNote> {
        self.notes@
    }

    pub closed spec fn scroll_spec(&self) -> usize {
        self.scroll
    }

    /// No history, at the top.
    pub fn empty() -> (r: Self)
        ensures
            r.notes_spec().len() == 0,
            r.scroll_spec() == 0,
    {
        NoteHistory { notes: Vec::new(), scroll: 0 }
    }

    /// The history, newest first.
    pub fn notes(&self) -> (r: &Vec<HistoryNote>)
        ensures
            r@ == self.notes_spec(),
    {
        &self.notes
    }

    /// The scroll, which never passes the last page.
    pub fn scroll(&self) -> (r: usize)
        ensures
            r == self.scroll_spec(),
            r <= max_scroll_spec(self.notes_spec().len()),
    {
        proof {
            use_type_invariant(self);
        }
        self.scroll
    }

    /// The notes given, newest first, with the scroll pulled back onto
    /// their last page.
    fn with_notes(notes: Vec<HistoryNote>, scroll: usize) -> (r: Self)
        ensures
            r.notes_spec() == notes@,
            r.scroll_spec() == if scroll <= max_scroll_spec(notes@.len()) {
                scroll
            } else {
                max_scroll_spec(notes@.len())
            },
    {
        let max = max_scroll_of(notes.len());
        let scroll = if scroll > max { max } else { scroll };
        NoteHistory { notes, scroll }
    }

    /// Moves the scroll to a row of the history's pages.
    fn set_scroll(&mut self, scroll: usize)
        requires
            scroll <= max_scroll_spec(old(self).notes_spec().len()),
        ensures
            final(self).notes_spec() == old(self).notes_spec(),
            final(self).scroll_spec() == scroll,
    {
        self.scroll = scroll;
    }
}

/// The scroll after one step of the wheel: forward moves one row towards
/// the oldest note, backward one row back, never past either end. A
/// history that fits does not scroll.
pub open spec fn scroll_after(len: nat, scroll: usize, forward: bool) -> usize {
    if len <= MAX_VISIBLE_ROWS {
        scroll
    } else if forward {
        if scroll + 1 <= max_scroll_spec(len) { (scroll + 1) as usize } else { max_scroll_spec(len) }
    } else if scroll >= 1 {
        (scroll - 1) as usize
    } else {
        0
    }
}

/// Whether `state.json` is due for a look at `now`.
pub open spec fn state_due(checked: Option<u128>, now: u128) -> bool {
    match checked {
        Some(at) => (if now >= at { now - at } else { 0 }) >= STATE_POLL_NANOS,
        None => true,
    }
}

impl NotificationsPill {
    /// The history, newest first.
    pub open spec fn notes_spec(&self) -> Seq<HistoryNote> {
        self.history.notes_spec()
    }

    /// The discrete scroll, in rows.
    pub open spec fn scroll_spec(&self) -> usize {
        self.history.scroll_spec()
    }

    pub fn new() -> (r: Self)
        ensures
            r.state == (HyprnotifyState { dnd: false, history_count: 0 }),
            r.state_checked is None,
            r.state_modified is None,
            r.notes_spec().len() == 0,
            r.notes_modified is None,
            r.scroll_spec() == 0,
    {
        NotificationsPill {
            state: HyprnotifyState::default(),
            state_checked: None,
            state_modified: None,
            history: NoteHistory::empty(),
            notes_modified: None,
        }
    }

    /// The history, newest first.
    pub fn notes(&self) -> (r: &Vec<HistoryNote>)
        ensures
            r@ == self.notes_spec(),
    {
        self.history.notes()
    }

    /// The scroll, in rows; it never passes the last page.
    pub fn scroll(&self) -> (r: usize)
        ensures
            r == self.scroll_spec(),
            r <= max_scroll_spec(self.notes_spec().len()),
    {
        self.history.scroll()
    }

    /// Whether the notifications dropdown is the open one.
    pub fn is_active(&self, open_dropdown: Option<DropdownId>) -> (r: bool)
        ensures
            r == (open_dropdown == Some(DropdownId::Notifications)),
    {
        match open_dropdown {
            Some(id) => id == DropdownId::Notifications,
            None => false,
        }
    }

    /// History rows on show.
    pub fn visible_rows(&self) -> (r: usize)
        ensures
            r == visible_rows_spec(self.notes_spec().len()),
    {
        visible_rows_of(self.notes().len())
    }

    /// How far the history can scroll.
    pub fn max_scroll(&self) -> (r: usize)
        ensures
            r == max_scroll_spec(self.notes_spec().len()),
    {
        max_scroll_of(self.notes().len())
    }

    /// The positions of the notes on show: from the scroll, at most a page.
    pub fn shown_range(&self) -> (r: (usize, usize))
        ensures
            r.0 == self.scroll_spec(),
            r.1 == if self.notes_spec().len() - self.scroll_spec() < MAX_VISIBLE_ROWS {
                self.notes_spec().len() as int
            } else {
                self.scroll_spec() + MAX_VISIBLE_ROWS
            },
            r.0 <= r.1 <= self.notes_spec().len(),
    {
        let scroll = self.scroll();
        let len = self.notes().len();
        let left = len - scroll;
        if left < MAX_VISIBLE_ROWS {
            (scroll, len)
        } else {
            (scroll, scroll + MAX_VISIBLE_ROWS)
        }
    }

    /// Whether `state.json` is due for a look at `now` (two seconds after
    /// the last look, or never looked at); a due look is recorded.
    pub fn poll_state(&mut self, now: u128) -> (r: bool)
        ensures
            r == state_due(old(self).state_checked, now),
            final(self).state_checked == if r { Some(now) } else { old(self).state_checked },
            final(self).state == old(self).state,
            final(self).state_modified == old(self).state_modified,
            final(self).notes_spec() == old(self).notes_spec(),
            final(self).notes_modified == old(self).notes_modified,
            final(self).scroll_spec() == old(self).scroll_spec(),
    {
        if let Some(checked) = self.state_checked {
            if now.saturating_sub(checked) < STATE_POLL_NANOS {
                return false;
            }
        }
        self.state_checked = Some(now);
        true
    }

    /// Records the modification time of `state.json`; whether it differs
    /// from the one last read, so that the file must be read again.
    pub fn state_file_changed(&mut self, modified: Option<u128>) -> (r: bool)
        ensures
            r == (modified != old(self).state_modified),
            final(self).state_modified == modified,
            final(self).state == old(self).state,
            final(self).state_checked == old(self).state_checked,
            final(self).notes_spec() == old(self).notes_spec(),
            final(self).notes_modified == old(self).notes_modified,
            final(self).scroll_spec() == old(self).scroll_spec(),
    {
        let changed = !option_eq(self.state_modified, modified);
        self.state_modified = modified;
        changed
    }

    /// Takes what `state.json` holds; a missing or unreadable file counts
    /// as the default state.
    pub fn set_state(&mut self, state: Option<HyprnotifyState>)
        ensures
            final(self).state == match state {
                Some(s) => s,
                None => HyprnotifyState { dnd: false, history_count: 0 },
            },
            final(self).notes_spec() == old(self).notes_spec(),
            final(self).scroll_spec() == old(self).scroll_spec(),
            final(self).state_checked == old(self).state_checked,
            final(self).state_modified == old(self).state_modified,
            final(self).notes_modified == old(self).notes_modified,
    {
        self.state = match state {
            Some(s) => s,
            None => HyprnotifyState::default(),
        };
    }

    /// Records the modification time of `history.json`; whether it
    /// differs from the one last read.
    pub fn notes_file_changed(&mut self, modified: Option<u128>) -> (r: bool)
        ensures
            r == (modified != old(self).notes_modified),
            final(self).notes_modified == modified,
            final(self).state == old(self).state,
            final(self).state_checked == old(self).state_checked,
            final(self).state_modified == old(self).state_modified,
            final(self).notes_spec() == old(self).notes_spec(),
            final(self).scroll_spec() == old(self).scroll_spec(),
    {
        let changed = !option_eq(self.notes_modified, modified);
        self.notes_modified = modified;
        changed
    }

    /// Takes the notes of `history.json`, which lists them oldest first:
    /// they are kept newest first, and the scroll is pulled back onto the
    /// last page when the history shrank.
    pub fn set_notes(&mut self, mut file_notes: Vec<HistoryNote>)
        ensures
            final(self).notes_spec() == file_notes@.reverse(),
            final(self).scroll_spec() == if old(self).scroll_spec() <= max_scroll_spec(file_notes@.len()) {
                old(self).scroll_spec()
            } else {
                max_scroll_spec(file_notes@.len())
            },
            final(self).state == old(self).state,
            final(self).state_checked == old(self).state_checked,
            final(self).state_modified == old(self).state_modified,
            final(self).notes_modified == old(self).notes_modified,
    {
        let ghost incoming = file_notes@;
        let mut notes: Vec<HistoryNote> = Vec::new();
        while file_notes.len() > 0
            invariant
                file_notes@.len() + notes@.len() == incoming.len(),
                file_notes@ == incoming.take(file_notes@.len() as int),
                notes@ == incoming.reverse().take(notes@.len() as int),
            decreases file_notes@.len(),
        {
            let ghost before = file_notes@;
            let note = file_notes.pop().unwrap();
            proof {
                assert(note == incoming[before.len() - 1]);
                assert(incoming.reverse()[notes@.len() as int] == incoming[before.len() - 1]);
            }
            notes.push(note);
            assert(file_notes@ =~= incoming.take(file_notes@.len() as int));
            assert(notes@ =~= incoming.reverse().take(notes@.len() as int));
        }
        assert(notes@ =~= incoming.reverse());
        let scroll = self.scroll();
        self.history = NoteHistory::with_notes(notes, scroll);
    }

    /// One step of the wheel over the panel; whether the view moved.
    pub fn handle_scroll(&mut self, forward: bool) -> (r: bool)
        ensures
            final(self).scroll_spec() == scroll_after(old(self).notes_spec().len(), old(self).scroll_spec(), forward),
            r == (final(self).scroll_spec() != old(self).scroll_spec()),
            final(self).notes_spec() == old(self).notes_spec(),
            final(self).state == old(self).state,
    {
        if self.notes().len() <= MAX_VISIBLE_ROWS {
            return false;
        }
        let max = self.max_scroll();
        let scroll = self.scroll();
        let target = if forward {
            if scroll + 1 <= max { scroll + 1 } else { max }
        } else {
            scroll.saturating_sub(1)
        };
        if target == scroll {
            return false;
        }
        self.history.set_scroll(target);
        true
    }

    /// Back to the newest notes.
    pub fn reset_scroll(&mut self)
        ensures
            final(self).scroll_spec() == 0,
            final(self).notes_spec() == old(self).notes_spec(),
            final(self).state == old(self).state,
            final(self).state_checked == old(self).state_checked,
            final(self).state_modified == old(self).state_modified,
            final(self).notes_modified == old(self).notes_modified,
    {
        self.history.set_scroll(0);
    }

    /// After hyprnotify was asked to clear its history: the local copy is
    /// emptied at once, ahead of the daemon rewriting its files.
    pub fn clear_history(&mut self)
        ensures
            final(self).notes_spec().len() == 0,
            final(self).state == (HyprnotifyState { history_count: 0, ..old(self).state }),
            final(self).scroll_spec() == 0,
            final(self).state_checked == old(self).state_checked,
            final(self).state_modified == old(self).state_modified,
            final(self).notes_modified == old(self).notes_modified,
    {
        self.history = NoteHistory::empty();
        self.state.history_count = 0;
    }

    /// The bell and its tone: lit while the panel is open, crossed out with
    /// do not disturb, plain otherwise.
    pub fn bell(&self, active: bool) -> (r: (&'static str, BellTone))
        ensures
            active ==> r.0@ == BELL_GLYPH@ && r.1 == BellTone::Active,
            !active && self.state.dnd ==> r.0@ == BELL_OFF_GLYPH@ && r.1 == BellTone::Muted,
            !active && !self.state.dnd ==> r.0@ == BELL_GLYPH@ && r.1 == BellTone::Normal,
    {
        if active {
            (BELL_GLYPH, BellTone::Active)
        } else if self.state.dnd {
            (BELL_OFF_GLYPH, BellTone::Muted)
        } else {
            (BELL_GLYPH, BellTone::Normal)
        }
    }

    /// What a press in the panel hits: the clear button, once there is
    /// history to clear and the point is on it.
    pub fn hit_test_dropdown(&self, on_clear_button: bool) -> (r: Option<Interaction>)
        ensures
            r == if self.notes_spec().len() > 0 && on_clear_button {
                Some(notification_interaction(NotificationAction::ClearHistory))
            } else {
                None
            },
    {
        if self.notes().len() == 0 || !on_clear_button {
            return None;
        }
        Some(NotificationAction::ClearHistory.interaction())
    }

    /// Whether the pill shows the dot of unread history: there is history
    /// and the panel is closed.
    pub fn shows_dot(&self, active: bool) -> (r: bool)
        ensures
            r == (self.state.history_count > 0 && !active),
    {
        self.state.history_count > 0 && !active
    }
}

fn option_eq(a: Option<u128>, b: Option<u128>) -> (r: bool)
    ensures
        r == (a == b),
{
    match (a, b) {
        (Some(x), Some(y)) => x == y,
        (None, None) => true,
        _ => false,
    }
}

/// A step forward and a step back return to the same row, unless the
/// first step met the end of the history.
pub proof fn lemma_scroll_forward_back(len: nat, scroll: usize)
    requires
        len > MAX_VISIBLE_ROWS,
        scroll < max_scroll_spec(len),
    ensures
        scroll_after(len, scroll_after(len, scroll, true), false) == scroll,
{
}

/// Scrolling never leaves the history's pages.
pub proof fn lemma_scroll_stays_in_range(len: nat, scroll: usize, forward: bool)
    requires
        scroll <= max_scroll_spec(len),
    ensures
        scroll_after(len, scroll, forward) <= max_scroll_spec(len),
{
}

} // verus!
