//! The date pill's navigation state: how many months away from the
//! current one the calendar shows.

use vstd::prelude::*;

use crate::components::{DropdownId, Interaction};
use crate::text::{all_digits, digits_value, lemma_two_fields_read_back, pad2, push_char, push_pad2};
use crate::date::action::{CalendarAction, calendar_action_of};

verus! {

/// How far the calendar can travel from the current month either way.
pub const MAX_MONTH_OFFSET: i32 = 1200;

/// Months between the month on show and the current one, always within
/// the travel range.
#[derive(Debug, Clone, Copy)]
pub struct MonthOffset {
    months: i32,
}

impl MonthOffset {
    #[verifier::type_invariant]
    spec fn in_range(&self) -> bool {
        -MAX_MONTH_OFFSET <= self.months <= MAX_MONTH_OFFSET
    }

    pub closed spec fn months_spec(&self) -> i32 {
        self.months
    }

    /// The current month.
    pub fn current() -> (r: Self)
        ensures
            r.months_spec() == 0,
    {
        MonthOffset { months: 0 }
    }

    pub fn months(&self) -> (r: i32)
        ensures
            r == self.months_spec(),
            -MAX_MONTH_OFFSET <= r <= MAX_MONTH_OFFSET,
    {
        proof {
            use_type_invariant(self);
        }
        self.months
    }

    /// The offset after a calendar action, and whether it changed.
    pub fn navigate(self, action: CalendarAction) -> (r: (Self, bool))
        ensures
            r.0.months_spec() == navigate(self.months_spec(), action).0,
            r.1 == navigate(self.months_spec(), action).1,
    {
        proof {
            use_type_invariant(&self);
        }
        match action {
            CalendarAction::PrevMonth => {
                let months = if self.months - 1 < -MAX_MONTH_OFFSET {
                    -MAX_MONTH_OFFSET
                } else {
                    self.months - 1
                };
                (MonthOffset { months }, true)
            },
            CalendarAction::NextMonth => {
                let months = if self.months + 1 > MAX_MONTH_OFFSET {
                    MAX_MONTH_OFFSET
                } else {
                    self.months + 1
                };
                (MonthOffset { months }, true)
            },
            CalendarAction::Today => (MonthOffset { months: 0 }, self.months != 0),
        }
    }
}

pub struct DatePill {
    /// Text measured for this frame, drawn by the same frame.
    pub frame_text: Option<String>,
    pub month_offset: MonthOffset,
}

/// The offset after a calendar action, and whether anything changed.
pub open spec fn navigate(offset: i32, action: CalendarAction) -> (i32, bool) {
    match action {
        CalendarAction::PrevMonth => (
            if offset - 1 < -MAX_MONTH_OFFSET { (-MAX_MONTH_OFFSET) as i32 } else { (offset - 1) as i32 },
            true,
        ),
        CalendarAction::NextMonth => (
            if offset + 1 > MAX_MONTH_OFFSET { MAX_MONTH_OFFSET } else { (offset + 1) as i32 },
            true,
        ),
        CalendarAction::Today => (0, offset != 0),
    }
}

/// The pill's text: the day and the month, two digits each ("%d/%m").
pub open spec fn day_month_text(day: u32, month: u32) -> Seq<char> {
    pad2(day as nat) + seq!['/'] + pad2(month as nat)
}

/// The pill's date reads back as the day and month: "DD/MM", two digits
/// on each side of the slash.
pub proof fn lemma_day_month_reads_back(day: u32, month: u32)
    ensures
        day < 100 && month < 100 ==> {
            let t = day_month_text(day, month);
            &&& t.len() == 5
            &&& t[2] == '/'
            &&& all_digits(t.subrange(0, 2))
            &&& all_digits(t.subrange(3, 5))
            &&& digits_value(t.subrange(0, 2)) == day
            &&& digits_value(t.subrange(3, 5)) == month
        },
{
    if day < 100 && month < 100 {
        lemma_two_fields_read_back(day as nat, month as nat, '/');
    }
}

pub fn day_month(day: u32, month: u32) -> (r: String)
    ensures
        r@ == day_month_text(day, month),
{
    let mut s = String::new();
    push_pad2(&mut s, day as u128);
    push_char(&mut s, '/');
    push_pad2(&mut s, month as u128);
    s
}

impl DatePill {
    pub open spec fn offset_spec(&self) -> i32 {
        self.month_offset.months_spec()
    }

    pub fn new() -> (r: Self)
        ensures
            r.offset_spec() == 0,
            r.frame_text is None,
    {
        DatePill { frame_text: None, month_offset: MonthOffset::current() }
    }

    /// Months between the month on show and the current one, within the
    /// travel range.
    pub fn month_offset(&self) -> (r: i32)
        ensures
            r == self.offset_spec(),
            -MAX_MONTH_OFFSET <= r <= MAX_MONTH_OFFSET,
    {
        self.month_offset.months()
    }

    /// Whether the date dropdown is the open one.
    pub fn is_active(&self, open_dropdown: Option<DropdownId>) -> (r: bool)
        ensures
            r == (open_dropdown == Some(DropdownId::Date)),
    {
        match open_dropdown {
            Some(id) => id == DropdownId::Date,
            None => false,
        }
    }

    /// Keeps the text measured for this frame.
    pub fn set_frame_text(&mut self, text: String)
        ensures
            final(self).frame_text == Some(text),
            final(self).offset_spec() == old(self).offset_spec(),
    {
        self.frame_text = Some(text);
    }

    /// The text measured for this frame, once; `None` when it was not
    /// measured, and the caller formats the date again.
    pub fn take_frame_text(&mut self) -> (r: Option<String>)
        ensures
            r == old(self).frame_text,
            final(self).frame_text is None,
            final(self).offset_spec() == old(self).offset_spec(),
    {
        self.frame_text.take()
    }

    /// Back to the current month, as when the panel closes.
    pub fn close(&mut self)
        ensures
            final(self).offset_spec() == 0,
            final(self).frame_text == old(self).frame_text,
    {
        self.month_offset = MonthOffset::current();
    }

    /// Moves the calendar for a calendar action; returns whether the view
    /// changed. Other interactions are not the pill's.
    pub fn handle_interaction(&mut self, interaction: Interaction) -> (r: bool)
        ensures
            final(self).frame_text == old(self).frame_text,
            match calendar_action_of(interaction) {
                Some(action) => final(self).offset_spec() == navigate(old(self).offset_spec(), action).0
                    && r == navigate(old(self).offset_spec(), action).1,
                None => final(self).offset_spec() == old(self).offset_spec() && !r,
            },
    {
        let action = match CalendarAction::from_interaction(interaction) {
            Some(action) => action,
            None => return false,
        };
        let (offset, changed) = self.month_offset.navigate(action);
        self.month_offset = offset;
        changed
    }
}

/// Going back a month and forward again returns to the same month, unless
/// the calendar was already at its earliest.
pub proof fn lemma_prev_then_next(offset: i32)
    requires
        -MAX_MONTH_OFFSET < offset <= MAX_MONTH_OFFSET,
    ensures
        navigate(navigate(offset, CalendarAction::PrevMonth).0, CalendarAction::NextMonth).0 == offset,
{
}

/// Every navigation keeps the offset within the travel range, and "today"
/// always returns to the current month.
pub proof fn lemma_navigate_in_range(offset: i32, action: CalendarAction)
    requires
        -MAX_MONTH_OFFSET <= offset <= MAX_MONTH_OFFSET,
    ensures
        -MAX_MONTH_OFFSET <= navigate(offset, action).0 <= MAX_MONTH_OFFSET,
        action == CalendarAction::Today ==> navigate(offset, action).0 == 0,
{
}

/// The panel of the date pill: the month it shows, as an offset from the
/// current one.
#[derive(Debug, Clone, Copy, PartialEq, Eq, Structural)]
pub struct DatePanel {
    pub month_offset: i32,
}

} // verus!
