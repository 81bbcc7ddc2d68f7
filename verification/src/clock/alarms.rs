//! The list of alarms: kept in time order (a stable sort by hour and
//! minute), edited from the picker, and checked against the wall clock.

use vstd::prelude::*;

use crate::clock::state::{Alarm, AlarmEditor, days_from_monday, weekday_index};
use crate::text::{decimal, push_decimal, push_str};

verus! {

broadcast use vstd::seq_lib::group_to_multiset_ensures;

/// The key an alarm is ordered by: its hour, then its minute.
pub open spec fn time_key(alarm: Alarm) -> int {
    alarm.hour * 256 + alarm.minute
}

/// Whether the alarms are in time order.
pub open spec fn time_sorted(s: Seq<Alarm>) -> bool {
    forall|i: int, j: int| 0 <= i < j < s.len() ==> time_key(s[i]) <= time_key(s[j])
}

/// `x` put into `s` right after the last alarm whose time is not later
/// than its own.
pub open spec fn insert_by_time(s: Seq<Alarm>, x: Alarm) -> Seq<Alarm>
    decreases s.len(),
{
    if s.len() == 0 {
        seq![x]
    } else if time_key(s.last()) <= time_key(x) {
        s.push(x)
    } else {
        insert_by_time(s.drop_last(), x).push(s.last())
    }
}

/// The alarms in time order; alarms at the same time keep the order they
/// had (a stable sort).
pub open spec fn sort_by_time(s: Seq<Alarm>) -> Seq<Alarm>
    decreases s.len(),
{
    if s.len() == 0 {
        s
    } else {
        insert_by_time(sort_by_time(s.drop_last()), s.last())
    }
}

/// Inserting at `p`, where every later alarm is later than `x` and the
/// one before is not, is what `insert_by_time` does.
proof fn lemma_insert_by_time_at(s: Seq<Alarm>, x: Alarm, p: int)
    requires
        0 <= p <= s.len(),
        forall|k: int| p <= k < s.len() ==> time_key(s[k]) > time_key(x),
        p > 0 ==> time_key(s[p - 1]) <= time_key(x),
    ensures
        insert_by_time(s, x) == s.take(p).push(x) + s.skip(p),
    decreases s.len(),
{
    if s.len() == p {
        assert(s.take(p) =~= s);
        assert(s.skip(p) =~= Seq::<Alarm>::empty());
        assert(s.take(p).push(x) + s.skip(p) =~= s.push(x));
        if s.len() == 0 {
            assert(s.push(x) =~= seq![x]);
        }
    } else {
        let t = s.drop_last();
        lemma_insert_by_time_at(t, x, p);
        assert(t.take(p) =~= s.take(p));
        assert((t.take(p).push(x) + t.skip(p)).push(s.last()) =~= s.take(p).push(x) + s.skip(p));
    }
}

/// Every alarm of `insert_by_time(s, x)` is no later than a bound that
/// every alarm of `s` and `x` itself respect.
proof fn lemma_insert_by_time_bound(s: Seq<Alarm>, x: Alarm, b: int)
    requires
        forall|k: int| 0 <= k < s.len() ==> time_key(s[k]) <= b,
        time_key(x) <= b,
    ensures
        insert_by_time(s, x).len() == s.len() + 1,
        forall|k: int| 0 <= k < insert_by_time(s, x).len() ==> time_key(insert_by_time(s, x)[k]) <= b,
    decreases s.len(),
{
    if s.len() > 0 && time_key(s.last()) > time_key(x) {
        lemma_insert_by_time_bound(s.drop_last(), x, b);
    }
}

proof fn lemma_insert_by_time_sorted(s: Seq<Alarm>, x: Alarm)
    requires
        time_sorted(s),
    ensures
        time_sorted(insert_by_time(s, x)),
        insert_by_time(s, x).len() == s.len() + 1,
    decreases s.len(),
{
    if s.len() == 0 {
    } else if time_key(s.last()) <= time_key(x) {
    } else {
        let t = s.drop_last();
        lemma_insert_by_time_sorted(t, x);
        lemma_insert_by_time_bound(t, x, time_key(s.last()));
    }
}

proof fn lemma_insert_by_time_multiset(s: Seq<Alarm>, x: Alarm)
    ensures
        insert_by_time(s, x).to_multiset() == s.to_multiset().insert(x),
    decreases s.len(),
{
    if s.len() == 0 {
        assert(seq![x] =~= s.push(x));
    } else if time_key(s.last()) <= time_key(x) {
    } else {
        let t = s.drop_last();
        lemma_insert_by_time_multiset(t, x);
        assert(t.push(s.last()) =~= s);
    }
}

/// Sorting puts the alarms in time order and keeps every one of them.
pub proof fn lemma_sort_by_time(s: Seq<Alarm>)
    ensures
        time_sorted(sort_by_time(s)),
        sort_by_time(s).to_multiset() == s.to_multiset(),
        sort_by_time(s).len() == s.len(),
    decreases s.len(),
{
    if s.len() > 0 {
        let t = s.drop_last();
        lemma_sort_by_time(t);
        lemma_insert_by_time_sorted(sort_by_time(t), s.last());
        lemma_insert_by_time_multiset(sort_by_time(t), s.last());
        assert(t.push(s.last()) =~= s);
    }
}

/// Alarms already in time order stay exactly as they are.
pub proof fn lemma_sort_sorted_is_identity(s: Seq<Alarm>)
    requires
        time_sorted(s),
    ensures
        sort_by_time(s) == s,
    decreases s.len(),
{
    if s.len() > 0 {
        let t = s.drop_last();
        lemma_sort_sorted_is_identity(t);
        assert(t.push(s.last()) =~= s);
    }
}

/// Sorting twice gives what sorting once gives.
pub proof fn lemma_sort_by_time_idempotent(s: Seq<Alarm>)
    ensures
        sort_by_time(sort_by_time(s)) == sort_by_time(s),
{
    lemma_sort_by_time(s);
    lemma_sort_sorted_is_identity(sort_by_time(s));
}

fn alarm_key(alarm: &Alarm) -> (k: u16)
    ensures
        k == time_key(*alarm),
{
    (alarm.hour as u16) * 256 + (alarm.minute as u16)
}

/// Sorts the alarms by time, keeping alarms at the same time in order.
pub fn sort_alarms(alarms: &mut Vec<Alarm>)
    ensures
        final(alarms)@ == sort_by_time(old(alarms)@),
{
    let ghost orig = alarms@;
    let n = alarms.len();
    let mut i: usize = 0;
    assert(alarms@.take(0) =~= Seq::<Alarm>::empty());
    assert(orig.take(0) =~= Seq::<Alarm>::empty());
    while i < n
        invariant
            n == alarms@.len(),
            n == orig.len(),
            i <= n,
            alarms@.take(i as int) == sort_by_time(orig.take(i as int)),
            alarms@.skip(i as int) == orig.skip(i as int),
        decreases n - i,
    {
        let ghost before = alarms@;
        let ghost prefix = before.take(i as int);
        assert(before[i as int] == orig[i as int]) by {
            assert(before.skip(i as int)[0] == before[i as int]);
        }
        let x = alarms.remove(i);
        let mut p: usize = i;
        while p > 0 && alarm_key(&alarms[p - 1]) > alarm_key(&x)
            invariant
                p <= i < n,
                before.len() == n,
                alarms@.len() == n - 1,
                alarms@ == before.remove(i as int),
                forall|k: int| p <= k < i ==> time_key(alarms@[k]) > time_key(x),
            decreases p,
        {
            p = p - 1;
        }
        proof {
            assert forall|k: int| 0 <= k < i implies prefix[k] == alarms@[k] by {}
            lemma_insert_by_time_at(prefix, x, p as int);
            assert(orig.take(i + 1).drop_last() =~= orig.take(i as int));
        }
        alarms.insert(p, x);
        proof {
            assert(alarms@.take(i + 1) =~= prefix.take(p as int).push(x) + prefix.skip(p as int));
            assert forall|k: int| 0 <= k < n - i - 1 implies #[trigger] alarms@.skip(i + 1)[k]
                == orig.skip(i + 1)[k] by {
                assert(before.skip(i as int)[k + 1] == orig.skip(i as int)[k + 1]);
            }
            assert(alarms@.skip(i + 1) =~= orig.skip(i + 1));
        }
        i = i + 1;
    }
    assert(alarms@.take(n as int) =~= alarms@);
    assert(orig.take(n as int) =~= orig);
}

/// The alarm that saving the editor writes at an existing place.
pub open spec fn edited_alarm(editor: AlarmEditor, alarm: Alarm) -> Alarm {
    Alarm { hour: editor.hour, minute: editor.minute, repeat: editor.repeat, ..alarm }
}

/// The alarm that saving the editor adds: enabled and without a name.
pub open spec fn new_alarm(editor: AlarmEditor) -> Alarm {
    Alarm { hour: editor.hour, minute: editor.minute, repeat: editor.repeat, enabled: true, label: None }
}

/// Whether the editor was opened on an alarm that is still in the list.
pub open spec fn edits_existing(editor: AlarmEditor, alarms: Seq<Alarm>) -> bool {
    match editor.index {
        Some(index) => index < alarms.len(),
        None => false,
    }
}

/// The alarms with the editor's alarm written in: the alarm it was opened
/// on takes the picked time and repetition, or a new alarm is added at the
/// end.
pub open spec fn written_alarms(editor: AlarmEditor, alarms: Seq<Alarm>) -> Seq<Alarm> {
    match editor.index {
        Some(index) => if index < alarms.len() {
            alarms.update(index as int, edited_alarm(editor, alarms[index as int]))
        } else {
            alarms.push(new_alarm(editor))
        },
        None => alarms.push(new_alarm(editor)),
    }
}

/// The alarms after saving the editor: written in, then back in time order.
pub open spec fn saved_alarms(editor: AlarmEditor, alarms: Seq<Alarm>) -> Seq<Alarm> {
    sort_by_time(written_alarms(editor, alarms))
}

/// Saving the editor leaves the alarms in time order, keeps every alarm
/// it did not edit, and adds one alarm exactly when the editor was not
/// opened on an existing one.
pub proof fn lemma_save_editor(editor: AlarmEditor, alarms: Seq<Alarm>)
    ensures
        time_sorted(saved_alarms(editor, alarms)),
        saved_alarms(editor, alarms).to_multiset() == written_alarms(editor, alarms).to_multiset(),
        edits_existing(editor, alarms) ==> saved_alarms(editor, alarms).len() == alarms.len(),
        !edits_existing(editor, alarms) ==> saved_alarms(editor, alarms).to_multiset()
            == alarms.to_multiset().insert(new_alarm(editor)),
{
    lemma_sort_by_time(written_alarms(editor, alarms));
}

/// Writes the editor's alarm into the list and sorts it.
pub fn save_editor(alarms: &mut Vec<Alarm>, editor: AlarmEditor)
    ensures
        final(alarms)@ == saved_alarms(editor, old(alarms)@),
{
    let ghost before = alarms@;
    match editor.index {
        Some(index) if index < alarms.len() => {
            let mut alarm = alarms.remove(index);
            alarm.hour = editor.hour;
            alarm.minute = editor.minute;
            alarm.repeat = editor.repeat;
            alarms.insert(index, alarm);
            assert(alarms@ =~= before.update(index as int, edited_alarm(editor, before[index as int])));
        },
        _ => {
            alarms.push(
                Alarm {
                    hour: editor.hour,
                    minute: editor.minute,
                    repeat: editor.repeat,
                    enabled: true,
                    label: None,
                },
            );
        },
    }
    sort_alarms(alarms);
}

/// The instant the alarm watcher looks at: day of the year, hour, minute,
/// and weekday counted from Monday (Monday is 0).
#[derive(Debug, Clone, Copy, PartialEq, Eq, Structural)]
pub struct AlarmMoment {
    pub ordinal: u32,
    pub hour: u32,
    pub minute: u32,
    pub days_from_monday: u32,
}

impl AlarmMoment {
    /// The moment on day `ordinal` of the year at `hour`:`minute`, on
    /// `weekday`.
    pub fn at(ordinal: u32, hour: u32, minute: u32, weekday: chrono::Weekday) -> (r: Self)
        ensures
            r == (AlarmMoment { ordinal, hour, minute, days_from_monday: weekday_index(weekday) }),
    {
        AlarmMoment { ordinal, hour, minute, days_from_monday: days_from_monday(weekday) }
    }
}

/// Day of the year, hour and minute: one alarm minute.
pub type MinuteKey = (u32, u32, u32);

pub open spec fn minute_key(moment: AlarmMoment) -> MinuteKey {
    (moment.ordinal, moment.hour, moment.minute)
}

/// Whether an alarm rings at this moment: enabled, set to this hour and
/// minute, and repeating on this weekday.
pub open spec fn alarm_due(alarm: Alarm, moment: AlarmMoment) -> bool {
    &&& alarm.enabled
    &&& alarm.hour == moment.hour
    &&& alarm.minute == moment.minute
    &&& alarm.repeat.matches_spec(moment.days_from_monday)
}

/// Positions, in order, of the alarms among the first `n` that ring at
/// this moment.
pub open spec fn due_indices(alarms: Seq<Alarm>, n: int, moment: AlarmMoment) -> Seq<usize>
    decreases n,
{
    if n <= 0 {
        Seq::empty()
    } else if alarm_due(alarms[n - 1], moment) {
        due_indices(alarms, n - 1, moment).push((n - 1) as usize)
    } else {
        due_indices(alarms, n - 1, moment)
    }
}

/// One look of the watcher: nothing rings twice in the same minute; when
/// some alarms ring, the minute is remembered.
pub open spec fn check_alarms_spec(last_fired: Option<MinuteKey>, alarms: Seq<Alarm>, moment: AlarmMoment) -> (
    Option<MinuteKey>,
    Seq<usize>,
) {
    if last_fired == Some(minute_key(moment)) {
        (last_fired, Seq::empty())
    } else if due_indices(alarms, alarms.len() as int, moment).len() == 0 {
        (last_fired, Seq::empty())
    } else {
        (Some(minute_key(moment)), due_indices(alarms, alarms.len() as int, moment))
    }
}

/// `due_indices` lists exactly the alarms that ring, each once, in order.
pub proof fn lemma_due_indices(alarms: Seq<Alarm>, n: int, moment: AlarmMoment)
    requires
        0 <= n <= alarms.len(),
        alarms.len() <= usize::MAX,
    ensures
        forall|k: int|
            0 <= k < due_indices(alarms, n, moment).len() ==> {
                let i = #[trigger] due_indices(alarms, n, moment)[k];
                i < n && alarm_due(alarms[i as int], moment)
            },
        forall|i: int, j: int|
            0 <= i < j < due_indices(alarms, n, moment).len() ==> due_indices(alarms, n, moment)[i]
                < due_indices(alarms, n, moment)[j],
        forall|i: int|
            0 <= i < n && alarm_due(alarms[i], moment) ==> due_indices(alarms, n, moment).contains(
                i as usize,
            ),
    decreases n,
{
    if n > 0 {
        lemma_due_indices(alarms, n - 1, moment);
        let prev = due_indices(alarms, n - 1, moment);
        if alarm_due(alarms[n - 1], moment) {
            let cur = due_indices(alarms, n, moment);
            assert(cur == prev.push((n - 1) as usize));
            assert forall|k: int| 0 <= k < cur.len() implies ({
                let i = #[trigger] cur[k];
                i < n && alarm_due(alarms[i as int], moment)
            }) by {
                if k < prev.len() {
                    assert(cur[k] == prev[k]);
                }
            }
            assert forall|i: int, j: int| 0 <= i < j < cur.len() implies cur[i] < cur[j] by {
                assert(cur[i] == prev[i]);
                if j < prev.len() {
                    assert(cur[j] == prev[j]);
                }
            }
            assert forall|i: int| 0 <= i < n && alarm_due(alarms[i], moment) implies due_indices(
                alarms,
                n,
                moment,
            ).contains(i as usize) by {
                if i < n - 1 {
                    let k = choose|k: int| 0 <= k < prev.len() && prev[k] == i as usize;
                    assert(due_indices(alarms, n, moment)[k] == i as usize);
                } else {
                    assert(due_indices(alarms, n, moment)[prev.len() as int] == i as usize);
                }
            }
        }
    }
}

/// An alarm rings at most once per minute: looking again within the same
/// minute rings nothing.
pub proof fn lemma_alarms_ring_once_per_minute(
    last_fired: Option<MinuteKey>,
    alarms: Seq<Alarm>,
    moment: AlarmMoment,
)
    ensures
        check_alarms_spec(check_alarms_spec(last_fired, alarms, moment).0, alarms, moment).1.len() == 0,
{
}

/// In any minute other than the one last rung, the watcher rings exactly
/// the alarms that are switched on, set to this hour and minute, and repeat
/// on this weekday; each at most once.
pub proof fn lemma_check_alarms_rings_due_alarms(
    last_fired: Option<MinuteKey>,
    alarms: Seq<Alarm>,
    moment: AlarmMoment,
)
    requires
        alarms.len() <= usize::MAX,
        last_fired != Some((moment.ordinal, moment.hour, moment.minute)),
    ensures
        forall|i: int|
            0 <= i < alarms.len() ==> (check_alarms_spec(last_fired, alarms, moment).1.contains(i as usize) <==> (
            alarms[i].enabled && alarms[i].hour == moment.hour && alarms[i].minute == moment.minute
                && alarms[i].repeat.matches_spec(moment.days_from_monday))),
        forall|k: int|
            0 <= k < check_alarms_spec(last_fired, alarms, moment).1.len() ==> check_alarms_spec(
                last_fired,
                alarms,
                moment,
            ).1[k] < alarms.len(),
        check_alarms_spec(last_fired, alarms, moment).1.no_duplicates(),
        forall|a: int, b: int|
            0 <= a < b < check_alarms_spec(last_fired, alarms, moment).1.len() ==> check_alarms_spec(
                last_fired,
                alarms,
                moment,
            ).1[a] < check_alarms_spec(last_fired, alarms, moment).1[b],
        check_alarms_spec(last_fired, alarms, moment).1.len() > 0 ==> check_alarms_spec(
            last_fired,
            alarms,
            moment,
        ).0 == Some((moment.ordinal, moment.hour, moment.minute)),
        check_alarms_spec(last_fired, alarms, moment).1.len() == 0 ==> check_alarms_spec(
            last_fired,
            alarms,
            moment,
        ).0 == last_fired,
{
    let n = alarms.len() as int;
    lemma_due_indices(alarms, n, moment);
    let due = due_indices(alarms, n, moment);
    let r = check_alarms_spec(last_fired, alarms, moment).1;
    assert(r == due || r.len() == 0);
    assert forall|i: int| 0 <= i < alarms.len() implies (r.contains(i as usize) <==> alarm_due(
        alarms[i],
        moment,
    )) by {
        if r.contains(i as usize) {
            let k = choose|k: int| 0 <= k < r.len() && r[k] == i as usize;
            assert(due[k] == i as usize);
        }
        if alarm_due(alarms[i], moment) {
            assert(due.contains(i as usize));
            assert(due.len() > 0);
        }
    }
    assert forall|a: int, b: int| 0 <= a < r.len() && 0 <= b < r.len() && a != b implies r[a] != r[b] by {
        if a < b {
            assert(due[a] < due[b]);
        } else {
            assert(due[b] < due[a]);
        }
    }
}

/// Within the minute last rung (same day of the year, hour and minute)
/// the watcher rings nothing and keeps what it remembers.
pub proof fn lemma_same_minute_rings_nothing(last_fired: Option<MinuteKey>, alarms: Seq<Alarm>, moment: AlarmMoment)
    requires
        last_fired == Some((moment.ordinal, moment.hour, moment.minute)),
    ensures
        check_alarms_spec(last_fired, alarms, moment).1.len() == 0,
        check_alarms_spec(last_fired, alarms, moment).0 == last_fired,
{
}

fn is_due(alarm: &Alarm, moment: AlarmMoment) -> (r: bool)
    ensures
        r == alarm_due(*alarm, moment),
{
    alarm.enabled && alarm.hour as u32 == moment.hour && alarm.minute as u32 == moment.minute
        && alarm.repeat.matches_day(moment.days_from_monday)
}

/// The positions of the alarms that ring at this moment.
pub fn due_alarms(alarms: &Vec<Alarm>, moment: AlarmMoment) -> (r: Vec<usize>)
    ensures
        r@ == due_indices(alarms@, alarms@.len() as int, moment),
{
    let mut due: Vec<usize> = Vec::new();
    let mut i: usize = 0;
    while i < alarms.len()
        invariant
            i <= alarms@.len(),
            due@ == due_indices(alarms@, i as int, moment),
        decreases alarms@.len() - i,
    {
        if is_due(&alarms[i], moment) {
            due.push(i);
        }
        i = i + 1;
    }
    due
}

/// One look of the alarm watcher: the positions of the alarms to ring
/// now, remembering the minute so that they ring once.
pub fn check_alarms(last_fired: &mut Option<MinuteKey>, alarms: &Vec<Alarm>, moment: AlarmMoment) -> (r:
    Vec<usize>)
    ensures
        (*final(last_fired), r@) == check_alarms_spec(*old(last_fired), alarms@, moment),
{
    let key = (moment.ordinal, moment.hour, moment.minute);
    if let Some(last) = *last_fired {
        if last.0 == key.0 && last.1 == key.1 && last.2 == key.2 {
            return Vec::new();
        }
    }
    let due = due_alarms(alarms, moment);
    if due.len() == 0 {
        return Vec::new();
    }
    *last_fired = Some(key);
    due
}

/// Title and text of the notice for a ringing alarm: "Alarma HH:MM" and
/// the alarm's subtitle.
pub open spec fn alarm_notice_title(alarm: Alarm) -> Seq<char> {
    "Alarma "@ + alarm.time_text_spec()
}

pub fn alarm_notice(alarm: &Alarm) -> (r: (String, String))
    ensures
        r.0@ == alarm_notice_title(*alarm),
        r.1@ == alarm.subtitle_spec(),
{
    let mut title = String::new();
    push_str(&mut title, "Alarma ");
    let time = alarm.time_text();
    push_str(&mut title, time.as_str());
    (title, alarm.subtitle())
}

/// Text of the notice for a timer that ran out: "N min cumplidos".
pub open spec fn timer_notice_text(minutes: u128) -> Seq<char> {
    decimal(minutes as nat) + " min cumplidos"@
}

/// Title and text of the notice for a timer of `minutes` minutes that ran
/// out.
pub fn timer_notice(minutes: u128) -> (r: (String, String))
    ensures
        r.0@ == "Temporizador terminado"@,
        r.1@ == timer_notice_text(minutes),
{
    let mut text = String::new();
    push_decimal(&mut text, minutes);
    push_str(&mut text, " min cumplidos");
    (String::from_str("Temporizador terminado"), text)
}

} // verus!
