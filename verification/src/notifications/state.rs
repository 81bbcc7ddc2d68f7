//! What hyprnotify publishes in its cache, and the texts built from it.

use vstd::prelude::*;
use vstd::string::StringExecFns;

use crate::text::{
    all_digits, chars_of, decimal, digits_value, first_line, lemma_decimal_reads_back, line_at, line_bounds,
    push_decimal, push_str, string_of_range,
};

verus! {

/// History rows listed at once; the panel scrolls one row at a time.
pub const MAX_VISIBLE_ROWS: usize = 8;

#[derive(Debug, Clone, Copy, PartialEq, Eq, Structural)]
pub enum NoteUrgency {
    Low,
    Normal,
    Critical,
}

impl Default for NoteUrgency {
    fn default() -> (r: Self)
        ensures
            r == NoteUrgency::Normal,
    {
        NoteUrgency::Normal
    }
}

/// The `state.json` contract that hyprnotify writes in its cache.
#[derive(Debug, Clone, Copy, PartialEq, Eq, Structural)]
pub struct HyprnotifyState {
    pub dnd: bool,
    pub history_count: usize,
}

impl Default for HyprnotifyState {
    fn default() -> (r: Self)
        ensures
            r == (HyprnotifyState { dnd: false, history_count: 0 }),
    {
        HyprnotifyState { dnd: false, history_count: 0 }
    }
}

/// One entry of `history.json`.
#[derive(Debug, Clone)]
pub struct HistoryNote {
    pub app_name: String,
    pub summary: String,
    pub body: String,
    pub urgency: NoteUrgency,
    pub closed_at_unix: u64,
}

impl Default for HistoryNote {
    fn default() -> (r: Self)
        ensures
            r.app_name@.len() == 0,
            r.summary@.len() == 0,
            r.body@.len() == 0,
            r.urgency == NoteUrgency::Normal,
            r.closed_at_unix == 0,
    {
        HistoryNote {
            app_name: String::new(),
            summary: String::new(),
            body: String::new(),
            urgency: NoteUrgency::Normal,
            closed_at_unix: 0,
        }
    }
}

/// hyprnotify's contracts as the poller publishes them.
pub struct NotificationsData {
    pub state: HyprnotifyState,
    /// History, newest first.
    pub notes: Vec<HistoryNote>,
}

impl NotificationsData {
    pub fn new() -> (r: Self)
        ensures
            r.state == (HyprnotifyState { dnd: false, history_count: 0 }),
            r.notes@.len() == 0,
    {
        NotificationsData { state: HyprnotifyState::default(), notes: Vec::new() }
    }

    /// History rows on show.
    pub fn visible_rows(&self) -> (r: usize)
        ensures
            r == visible_rows_spec(self.notes@.len()),
    {
        visible_rows_of(self.notes.len())
    }

    /// How far the history can scroll.
    pub fn max_scroll(&self) -> (r: usize)
        ensures
            r == max_scroll_spec(self.notes@.len()),
    {
        max_scroll_of(self.notes.len())
    }

    /// Empties the local history after asking hyprnotify to clear it.
    pub fn clear_history(&mut self)
        ensures
            final(self).notes@.len() == 0,
            final(self).state == (HyprnotifyState { history_count: 0, ..old(self).state }),
    {
        self.notes.clear();
        self.state.history_count = 0;
    }
}

pub open spec fn visible_rows_spec(len: nat) -> usize {
    if len < MAX_VISIBLE_ROWS { len as usize } else { MAX_VISIBLE_ROWS }
}

pub open spec fn max_scroll_spec(len: nat) -> usize {
    if len > MAX_VISIBLE_ROWS { (len - MAX_VISIBLE_ROWS) as usize } else { 0 }
}

pub fn visible_rows_of(len: usize) -> (r: usize)
    ensures
        r == visible_rows_spec(len as nat),
{
    if len < MAX_VISIBLE_ROWS { len } else { MAX_VISIBLE_ROWS }
}

pub fn max_scroll_of(len: usize) -> (r: usize)
    ensures
        r == max_scroll_spec(len as nat),
{
    len.saturating_sub(MAX_VISIBLE_ROWS)
}

/// Compact age: "ahora" under a minute, then whole minutes, hours or days.
pub open spec fn age_text(seconds: u64) -> Seq<char> {
    if seconds < 60 {
        "ahora"@
    } else if seconds < 3600 {
        decimal((seconds / 60) as nat) + "m"@
    } else if seconds < 86400 {
        decimal((seconds / 3600) as nat) + "h"@
    } else {
        decimal((seconds / 86400) as nat) + "d"@
    }
}

/// The compact age is "ahora" exactly under a minute; from then on it is a
/// count of whole units followed by the unit's letter: minutes ('m') under
/// an hour, hours ('h') under a day, days ('d') beyond; the count is the
/// number of whole units in the age.
pub proof fn lemma_age_text_reads_back(seconds: u64)
    ensures
        ({
            let t = age_text(seconds);
            let count = digits_value(t.drop_last());
            &&& (seconds < 60 <==> t == "ahora"@)
            &&& seconds >= 60 ==> {
                &&& t.len() >= 2
                &&& all_digits(t.drop_last())
                &&& t[0] != '0'
                &&& seconds < 3600 ==> t.last() == 'm' && count * 60 <= seconds < (count + 1) * 60
                &&& 3600 <= seconds < 86400 ==> t.last() == 'h' && count * 3600 <= seconds < (count + 1)
                    * 3600
                &&& 86400 <= seconds ==> t.last() == 'd' && count * 86400 <= seconds < (count + 1) * 86400
            }
        }),
{
    reveal_strlit("ahora");
    reveal_strlit("m");
    reveal_strlit("h");
    reveal_strlit("d");
    let t = age_text(seconds);
    if seconds >= 60 {
        let unit: nat = if seconds < 3600 {
            60
        } else if seconds < 86400 {
            3600
        } else {
            86400
        };
        let q = (seconds as nat / unit) as nat;
        lemma_decimal_reads_back(q);
        let letter = if seconds < 3600 {
            'm'
        } else if seconds < 86400 {
            'h'
        } else {
            'd'
        };
        assert(t =~= decimal(q).push(letter));
        assert(t.drop_last() =~= decimal(q));
        assert(t.last() == letter);
        assert(q > 0);
        assert(t[0] == decimal(q)[0]);
        assert(t != "ahora"@) by {
            assert("ahora"@.last() == 'a');
        }
    }
}

/// Compact age: "ahora", "5m", "3h", "2d".
pub fn age(seconds: u64) -> (r: String)
    ensures
        r@ == age_text(seconds),
{
    if seconds < 60 {
        return String::from_str("ahora");
    }
    let mut s = String::new();
    if seconds < 3600 {
        push_decimal(&mut s, (seconds / 60) as u128);
        push_str(&mut s, "m");
    } else if seconds < 86400 {
        push_decimal(&mut s, (seconds / 3600) as u128);
        push_str(&mut s, "h");
    } else {
        push_decimal(&mut s, (seconds / 86400) as u128);
        push_str(&mut s, "d");
    }
    s
}

/// The second line of a history row: the note's age at `now_unix`, the
/// application when there is one, and the first line of the body when
/// there is one.
pub open spec fn note_meta_text(note: HistoryNote, now_unix: u64) -> Seq<char> {
    let seconds = if now_unix >= note.closed_at_unix { (now_unix - note.closed_at_unix) as u64 } else { 0u64 };
    let with_app = if note.app_name@.len() > 0 {
        age_text(seconds) + " · "@ + note.app_name@
    } else {
        age_text(seconds)
    };
    if note.body@.len() > 0 {
        with_app + " — "@ + first_line(note.body@)
    } else {
        with_app
    }
}

/// A history row's second line is the note's age, then " · " and the
/// application whenever there is one, then " — " and the first line of the
/// body whenever there is one; each part shows independently of the other.
pub proof fn lemma_note_meta_parts(note: HistoryNote, now_unix: u64)
    ensures
        ({
            let seconds = if now_unix >= note.closed_at_unix {
                (now_unix - note.closed_at_unix) as u64
            } else {
                0u64
            };
            let age = age_text(seconds);
            let app = " · "@ + note.app_name@;
            let body = " — "@ + first_line(note.body@);
            let meta = note_meta_text(note, now_unix);
            &&& meta.subrange(0, age.len() as int) == age
            &&& note.app_name@.len() > 0 ==> meta.subrange(age.len() as int, (age.len() + app.len()) as int) == app
            &&& note.app_name@.len() == 0 && note.body@.len() == 0 ==> meta == age
            &&& note.app_name@.len() > 0 && note.body@.len() == 0 ==> meta == age + app
            &&& note.body@.len() > 0 ==> meta.subrange(meta.len() - body.len(), meta.len() as int) == body
            &&& meta.len() == age.len() + (if note.app_name@.len() > 0 { app.len() } else { 0 }) + (
            if note.body@.len() > 0 { body.len() } else { 0 })
        }),
{
    let seconds = if now_unix >= note.closed_at_unix {
        (now_unix - note.closed_at_unix) as u64
    } else {
        0u64
    };
    let age = age_text(seconds);
    let app = " · "@ + note.app_name@;
    let body = " — "@ + first_line(note.body@);
    let meta = note_meta_text(note, now_unix);
    let with_app = if note.app_name@.len() > 0 { age + app } else { age };
    assert(with_app =~= if note.app_name@.len() > 0 { age + " · "@ + note.app_name@ } else { age });
    if note.body@.len() > 0 {
        assert(meta =~= with_app + body);
    } else {
        assert(meta =~= with_app);
    }
    assert(meta.subrange(0, age.len() as int) =~= age);
    if note.app_name@.len() > 0 {
        assert(meta.subrange(age.len() as int, (age.len() + app.len()) as int) =~= app);
    }
    if note.body@.len() > 0 {
        assert(meta.subrange(meta.len() - body.len(), meta.len() as int) =~= body);
    }
}

/// The first line of a text, as `str::lines` yields it.
pub fn first_line_of(s: &str) -> (r: String)
    ensures
        r@ == first_line(s@),
{
    let v = chars_of(s);
    let (start, end) = line_bounds(&v, 0);
    string_of_range(&v, start, end)
}

/// Builds the second line of a history row.
pub fn note_meta(note: &HistoryNote, now_unix: u64) -> (r: String)
    ensures
        r@ == note_meta_text(*note, now_unix),
{
    let mut meta = age(now_unix.saturating_sub(note.closed_at_unix));
    if note.app_name.unicode_len() > 0 {
        push_str(&mut meta, " · ");
        push_str(&mut meta, note.app_name.as_str());
    }
    if note.body.unicode_len() > 0 {
        push_str(&mut meta, " — ");
        let line = first_line_of(note.body.as_str());
        push_str(&mut meta, line.as_str());
    }
    meta
}

/// The panel's title: "Notificaciones · N".
pub open spec fn header_title_text(count: usize) -> Seq<char> {
    "Notificaciones · "@ + decimal(count as nat)
}

pub fn header_title(count: usize) -> (r: String)
    ensures
        r@ == header_title_text(count),
{
    let mut s = String::new();
    push_str(&mut s, "Notificaciones · ");
    push_decimal(&mut s, count as u128);
    s
}

} // verus!
