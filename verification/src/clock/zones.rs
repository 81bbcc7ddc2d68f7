//! Time zones of the clock panel: offset labels, the day tag of a remote
//! city and the display name of a zone.

use vstd::prelude::*;
use vstd::string::StringExecFns;

use crate::date::grid::PlainDate;
use crate::text::{
    all_digits, chars_of, decimal, digits_value, lemma_decimal_reads_back, lemma_pad2_reads_back, pad2, push_char,
    push_decimal, push_pad2, push_str,
};

verus! {

pub const MINUTES_PER_HOUR: i32 = 60;

/// Calendar order: by year, then month, then day.
pub open spec fn date_before_spec(a: PlainDate, b: PlainDate) -> bool {
    a.year < b.year || (a.year == b.year && (a.month < b.month || (a.month == b.month && a.day < b.day)))
}

fn date_before(a: PlainDate, b: PlainDate) -> (r: bool)
    ensures
        r == date_before_spec(a, b),
{
    a.year < b.year || (a.year == b.year && (a.month < b.month || (a.month == b.month && a.day < b.day)))
}

pub open spec fn abs(x: int) -> int {
    if x < 0 { -x } else { x }
}

pub open spec fn sign_char(x: int) -> char {
    if x < 0 { '-' } else { '+' }
}

/// "+H:MM" / "-H" style text for a number of minutes that is not zero.
pub open spec fn hours_minutes(x: int, suffix_whole: Seq<char>) -> Seq<char> {
    let hours = abs(x) / 60;
    let minutes = abs(x) % 60;
    if minutes == 0 {
        seq![sign_char(x)] + decimal(hours as nat) + suffix_whole
    } else {
        seq![sign_char(x)] + decimal(hours as nat) + seq![':'] + pad2(minutes as nat)
    }
}

/// Difference against local time: "0h", "+9h", "-5:30".
pub open spec fn offset_label_text(diff_minutes: i32) -> Seq<char> {
    if diff_minutes == 0 {
        seq!['0', 'h']
    } else {
        hours_minutes(diff_minutes as int, seq!['h'])
    }
}

/// Offset against UTC: "UTC", "UTC+2", "UTC-3:30".
pub open spec fn utc_label_text(offset_minutes: i32) -> Seq<char> {
    if offset_minutes == 0 {
        seq!['U', 'T', 'C']
    } else {
        seq!['U', 'T', 'C'] + hours_minutes(offset_minutes as int, Seq::empty())
    }
}

fn push_hours_minutes(s: &mut String, x: i32, hours_suffix: bool)
    requires
        x != i32::MIN,
        x != 0,
    ensures
        final(s)@ == old(s)@ + hours_minutes(
            x as int,
            if hours_suffix { seq!['h'] } else { Seq::empty() },
        ),
{
    let sign = if x < 0 { '-' } else { '+' };
    let total: i32 = if x < 0 { -x } else { x };
    let hours = total / MINUTES_PER_HOUR;
    let minutes = total % MINUTES_PER_HOUR;
    push_char(s, sign);
    push_decimal(s, hours as u128);
    if minutes == 0 {
        if hours_suffix {
            push_char(s, 'h');
        }
    } else {
        push_char(s, ':');
        push_pad2(s, minutes as u128);
    }
    assert(final(s)@ =~= old(s)@ + hours_minutes(
        x as int,
        if hours_suffix { seq!['h'] } else { Seq::empty() },
    ));
}

/// The difference between a city and local time, in hours and minutes.
pub fn offset_label(diff_minutes: i32) -> (r: String)
    requires
        diff_minutes != i32::MIN,
    ensures
        r@ == offset_label_text(diff_minutes),
{
    let mut s = String::new();
    if diff_minutes == 0 {
        push_char(&mut s, '0');
        push_char(&mut s, 'h');
        assert(s@ =~= offset_label_text(diff_minutes));
        return s;
    }
    push_hours_minutes(&mut s, diff_minutes, true);
    assert(s@ =~= offset_label_text(diff_minutes));
    s
}

/// A zone's offset against UTC.
pub fn utc_label(offset_minutes: i32) -> (r: String)
    requires
        offset_minutes != i32::MIN,
    ensures
        r@ == utc_label_text(offset_minutes),
{
    let mut s = String::new();
    push_char(&mut s, 'U');
    push_char(&mut s, 'T');
    push_char(&mut s, 'C');
    if offset_minutes != 0 {
        push_hours_minutes(&mut s, offset_minutes, false);
    }
    assert(s@ =~= utc_label_text(offset_minutes));
    s
}

/// Whether `t`, from position `start` on, reads as the offset `x` in hours
/// and minutes: the sign of `x`, then the whole hours in digits (no
/// leading zero), then either `suffix` when the minutes are zero or a
/// colon and two digits of minutes below 60.
pub open spec fn reads_as_offset(t: Seq<char>, start: int, x: int, suffix: Seq<char>) -> bool {
    let hours_end = if abs(x) % 60 == 0 { t.len() - suffix.len() } else { t.len() - 3 };
    let hours = digits_value(t.subrange(start + 1, hours_end));
    &&& start + 2 <= hours_end <= t.len()
    &&& t[start] == sign_char(x)
    &&& all_digits(t.subrange(start + 1, hours_end))
    &&& (hours_end > start + 2 ==> t[start + 1] != '0')
    &&& abs(x) % 60 == 0 ==> t.subrange(hours_end, t.len() as int) == suffix && hours * 60 == abs(x)
    &&& abs(x) % 60 != 0 ==> {
        let minutes = digits_value(t.subrange(t.len() - 2, t.len() as int));
        &&& t[hours_end] == ':'
        &&& all_digits(t.subrange(t.len() - 2, t.len() as int))
        &&& 0 < minutes < 60
        &&& hours * 60 + minutes == abs(x)
    }
}

proof fn lemma_hours_minutes_reads_back(prefix: Seq<char>, x: int, suffix: Seq<char>)
    requires
        x != 0,
    ensures
        reads_as_offset(prefix + hours_minutes(x, suffix), prefix.len() as int, x, suffix),
{
    let h = (abs(x) / 60) as nat;
    let m = (abs(x) % 60) as nat;
    lemma_decimal_reads_back(h);
    let t = prefix + hours_minutes(x, suffix);
    let start = prefix.len() as int;
    let d = decimal(h);
    if m == 0 {
        assert(t =~= prefix + seq![sign_char(x)] + d + suffix);
        assert(t.subrange(start + 1, t.len() - suffix.len()) =~= d);
        assert(t.subrange(t.len() - suffix.len(), t.len() as int) =~= suffix);
        assert(h > 0);
    } else {
        lemma_pad2_reads_back(m);
        assert(t =~= prefix + seq![sign_char(x)] + d + seq![':'] + pad2(m));
        assert(t.subrange(start + 1, t.len() - 3) =~= d);
        assert(t.subrange(t.len() - 2, t.len() as int) =~= pad2(m));
    }
    if d.len() > 1 {
        assert(t[start + 1] == d[0]);
    }
}

/// The difference label reads back as the difference: "0h" exactly when
/// there is none; otherwise its sign, the whole hours, and "h" on the hour
/// or ":MM" with the remaining minutes.
pub proof fn lemma_offset_label_reads_back(diff_minutes: i32)
    ensures
        (diff_minutes == 0 <==> offset_label_text(diff_minutes) == seq!['0', 'h']),
        diff_minutes != 0 ==> reads_as_offset(offset_label_text(diff_minutes), 0, diff_minutes as int, seq!['h']),
{
    if diff_minutes != 0 {
        lemma_hours_minutes_reads_back(Seq::empty(), diff_minutes as int, seq!['h']);
        assert(Seq::<char>::empty() + hours_minutes(diff_minutes as int, seq!['h']) =~= offset_label_text(
            diff_minutes,
        ));
        assert(offset_label_text(diff_minutes)[0] != '0');
    }
}

/// The UTC label reads back as the offset: "UTC" alone exactly when there
/// is none; otherwise "UTC" followed by the sign, the whole hours, and
/// ":MM" when there are minutes left over.
pub proof fn lemma_utc_label_reads_back(offset_minutes: i32)
    ensures
        utc_label_text(offset_minutes).subrange(0, 3) == seq!['U', 'T', 'C'],
        (offset_minutes == 0 <==> utc_label_text(offset_minutes).len() == 3),
        offset_minutes != 0 ==> reads_as_offset(utc_label_text(offset_minutes), 3, offset_minutes as int, Seq::empty()),
{
    let utc = seq!['U', 'T', 'C'];
    if offset_minutes != 0 {
        lemma_hours_minutes_reads_back(utc, offset_minutes as int, Seq::empty());
        assert(utc_label_text(offset_minutes).subrange(0, 3) =~= utc);
    } else {
        assert(utc_label_text(offset_minutes) =~= utc);
    }
}

/// Which day it is in a remote city compared with here.
#[derive(Debug, Clone, Copy, PartialEq, Eq, Structural)]
pub enum DayTag {
    Tomorrow,
    Yesterday,
}

impl DayTag {
    pub fn text(self) -> (r: &'static str)
        ensures
            r@ == (match self {
                DayTag::Tomorrow => "mañ."@,
                DayTag::Yesterday => "ayer"@,
            }),
    {
        match self {
            DayTag::Tomorrow => "mañ.",
            DayTag::Yesterday => "ayer",
        }
    }
}

/// The tag for a remote date that is later (`later`) or earlier
/// (`earlier`) than the local one.
pub fn day_tag_for(later: bool, earlier: bool) -> (r: Option<DayTag>)
    ensures
        r == if later {
            Some(DayTag::Tomorrow)
        } else if earlier {
            Some(DayTag::Yesterday)
        } else {
            None::<DayTag>
        },
{
    if later {
        return Some(DayTag::Tomorrow);
    }
    if earlier {
        return Some(DayTag::Yesterday);
    }
    None
}

/// The tag of a remote city's date against the local one.
pub open spec fn day_tag_spec(local_date: PlainDate, remote_date: PlainDate) -> Option<Seq<char>> {
    if date_before_spec(local_date, remote_date) {
        Some("mañ."@)
    } else if date_before_spec(remote_date, local_date) {
        Some("ayer"@)
    } else {
        None
    }
}

/// "mañ." when the remote date is after the local one, "ayer" when it is
/// before, nothing on the same day.
pub fn day_tag(local_date: PlainDate, remote_date: PlainDate) -> (r: Option<&'static str>)
    ensures
        match day_tag_spec(local_date, remote_date) {
            Some(text) => r matches Some(t) && t@ == text,
            None => r is None,
        },
{
    let later = date_before(local_date, remote_date);
    let earlier = date_before(remote_date, local_date);
    match day_tag_for(later, earlier) {
        Some(tag) => Some(tag.text()),
        None => None,
    }
}

/// A remote date later in the calendar (a later year; or the same year and
/// a later month; or the same month and a later day) is tagged "mañ.", an
/// earlier one "ayer", and only the same date has no tag.
pub proof fn lemma_day_tag_follows_the_calendar(local: PlainDate, remote: PlainDate)
    ensures
        local.year < remote.year ==> day_tag_spec(local, remote) == Some("mañ."@),
        local.year == remote.year && local.month < remote.month ==> day_tag_spec(local, remote) == Some(
            "mañ."@,
        ),
        local.year == remote.year && local.month == remote.month && local.day < remote.day
            ==> day_tag_spec(local, remote) == Some("mañ."@),
        remote.year < local.year ==> day_tag_spec(local, remote) == Some("ayer"@),
        remote.year == local.year && remote.month < local.month ==> day_tag_spec(local, remote) == Some(
            "ayer"@,
        ),
        remote.year == local.year && remote.month == local.month && remote.day < local.day
            ==> day_tag_spec(local, remote) == Some("ayer"@),
        day_tag_spec(local, remote) is None <==> local == remote,
{
}

/// Seen from the other city, "tomorrow" becomes "yesterday"; the same day
/// has no tag.
pub proof fn lemma_day_tag_swap(a: PlainDate, b: PlainDate)
    ensures
        day_tag_spec(a, b) == Some("mañ."@) <==> day_tag_spec(b, a) == Some("ayer"@),
        a == b ==> day_tag_spec(a, b) is None,
{
    reveal_strlit("mañ.");
    reveal_strlit("ayer");
}

/// What follows the last `'/'` of `s` (all of `s` when it has none).
pub open spec fn after_last_slash(s: Seq<char>) -> Seq<char>
    decreases s.len(),
{
    if s.len() == 0 {
        s
    } else if s.last() == '/' {
        Seq::empty()
    } else {
        after_last_slash(s.drop_last()).push(s.last())
    }
}

pub open spec fn underscore_to_space(c: char) -> char {
    if c == '_' { ' ' } else { c }
}

/// "America/New_York" is shown as "New York".
pub open spec fn zone_display_name_text(iana: Seq<char>) -> Seq<char> {
    after_last_slash(iana).map_values(|c: char| underscore_to_space(c))
}

proof fn lemma_after_last_slash(s: Seq<char>, j: int)
    requires
        0 <= j <= s.len(),
        j == 0 || s[j - 1] == '/',
        forall|k: int| j <= k < s.len() ==> s[k] != '/',
    ensures
        after_last_slash(s) == s.subrange(j, s.len() as int),
    decreases s.len() - j,
{
    if s.len() == j {
        if j == 0 {
            assert(s.subrange(j, s.len() as int) =~= s);
        } else {
            assert(s.subrange(j, s.len() as int) =~= Seq::<char>::empty());
        }
    } else {
        lemma_after_last_slash(s.drop_last(), j);
        assert(s.subrange(j, s.len() as int) =~= s.drop_last().subrange(j, s.len() - 1).push(
            s.last(),
        ));
    }
}

/// A zone is shown by what follows the last '/' of its name (all of it
/// when there is none), with each '_' shown as a space.
pub proof fn lemma_zone_display_name_after_last_slash(iana: Seq<char>, j: int)
    requires
        0 <= j <= iana.len(),
        j == 0 || iana[j - 1] == '/',
        forall|k: int| j <= k < iana.len() ==> iana[k] != '/',
    ensures
        zone_display_name_text(iana).len() == iana.len() - j,
        forall|k: int|
            0 <= k < iana.len() - j ==> zone_display_name_text(iana)[k] == (if iana[j + k] == '_' {
                ' '
            } else {
                iana[j + k]
            }),
{
    lemma_after_last_slash(iana, j);
}

/// The city part of an IANA zone name, with underscores shown as spaces.
pub fn zone_display_name(iana: &str) -> (r: String)
    ensures
        r@ == zone_display_name_text(iana@),
{
    let v = chars_of(iana);
    let n = v.len();
    let mut j = n;
    while j > 0 && v[j - 1] != '/'
        invariant
            j <= n == v@.len(),
            forall|k: int| j <= k < n ==> v@[k] != '/',
        decreases j,
    {
        j = j - 1;
    }
    proof {
        lemma_after_last_slash(v@, j as int);
    }
    let ghost tail = v@.subrange(j as int, n as int);
    let mut r = String::new();
    let mut i = j;
    while i < n
        invariant
            j <= i <= n == v@.len(),
            tail == v@.subrange(j as int, n as int),
            r@ == tail.subrange(0, i - j).map_values(|c: char| underscore_to_space(c)),
        decreases n - i,
    {
        let c = v[i];
        push_char(&mut r, if c == '_' { ' ' } else { c });
        i = i + 1;
        assert(r@ =~= tail.subrange(0, i - j).map_values(|c: char| underscore_to_space(c)));
    }
    assert(tail.subrange(0, n - j) =~= tail);
    r
}

/// The display name of a zone, or "hora local" when the zone is unknown.
pub fn zone_name_or_local(zone: &Option<String>) -> (r: String)
    ensures
        match zone {
            Some(name) => r@ == zone_display_name_text(name@),
            None => r@ == "hora local"@,
        },
{
    match zone {
        Some(name) => zone_display_name(name.as_str()),
        None => String::from_str("hora local"),
    }
}

} // verus!
