//! The week overview: the days shown and which of them is selected.
use vstd::prelude::*;

use crate::calendar::{day_suffix, local_dt, local_reading, ordinal_suffix, shift_fits, weekday_abbrev, weekday_name};
use crate::model::DailyEntry;
use crate::text::{decimal, decimal_string};

verus! {

/// The selection after moving one day forward among `len` days, wrapping
/// from the last day to the first.
pub open spec fn next_selection(selected: nat, len: nat) -> nat {
    if len == 0 {
        selected
    } else {
        (selected + 1) % len
    }
}

/// The selection after moving one day back among `len` days, wrapping from
/// the first day to the last.
pub open spec fn previous_selection(selected: nat, len: nat) -> nat {
    if len == 0 {
        selected
    } else {
        ((selected + len - 1) as nat) % len
    }
}

/// The selection kept when a new list of `len` days arrives: the same day
/// where it still exists, else the first.
pub open spec fn kept_selection(selected: nat, len: nat) -> nat {
    if selected >= len {
        0
    } else {
        selected
    }
}

/// The label of a day in the overview: "Today 5" for the first day, else the
/// weekday and the day of the month with its suffix, as in "Mon 6th".
pub open spec fn day_label_text(dt: i64, tz_offset: i64, index: nat) -> Seq<char> {
    let date = local_reading(dt, tz_offset);
    if index == 0 {
        "Today "@ + decimal(date.day as nat)
    } else {
        weekday_abbrev(date.weekday) + " "@ + decimal(date.day as nat) + ordinal_suffix(date.day)
    }
}

/// The days of the week overview, the time zone they are shown in, and the
/// selected day.
#[derive(Clone, Debug)]
pub struct DailyWeather<F> {
    data: Vec<DailyEntry<F>>,
    tz_offset: i64,
    selected: usize,
}

impl<F: Copy> DailyWeather<F> {
    /// The days shown.
    pub closed spec fn days(&self) -> Seq<DailyEntry<F>> {
        self.data@
    }

    /// Seconds the shown location is ahead of UTC.
    pub closed spec fn offset(&self) -> i64 {
        self.tz_offset
    }

    /// The index of the selected day.
    pub closed spec fn selection(&self) -> nat {
        self.selected as nat
    }

    /// The selection points at a shown day, or is zero when no day is shown.
    pub open spec fn wf(&self) -> bool {
        self.selection() < self.days().len() || self.selection() == 0
    }

    /// An overview with no days.
    pub fn new() -> (r: DailyWeather<F>)
        ensures
            r.wf(),
            r.days().len() == 0,
            r.offset() == 0,
            r.selection() == 0,
    {
        DailyWeather { data: Vec::new(), tz_offset: 0, selected: 0 }
    }

    /// Shows a new list of days; the selection is kept where that day still
    /// exists, else it returns to the first day.
    pub fn data(&mut self, data: Vec<DailyEntry<F>>, tz_offset: i64)
        ensures
            final(self).wf(),
            final(self).days() == data@,
            final(self).offset() == tz_offset,
            final(self).selection() == kept_selection(old(self).selection(), data@.len()),
            old(self).selection() < data@.len() ==> final(self).selection() == old(self).selection(),
            old(self).selection() >= data@.len() ==> final(self).selection() == 0,
    {
        self.data = data;
        self.tz_offset = tz_offset;
        if self.selected >= self.data.len() {
            self.selected = 0;
        }
    }

    /// Selects the next day, wrapping from the last to the first.
    pub fn select_next(&mut self)
        requires
            old(self).wf(),
        ensures
            final(self).wf(),
            final(self).days() == old(self).days(),
            final(self).offset() == old(self).offset(),
            final(self).selection() == next_selection(old(self).selection(), old(self).days().len()),
    {
        if self.data.len() == 0 {
            return;
        }
        self.selected = (self.selected + 1) % self.data.len();
    }

    /// Selects the previous day, wrapping from the first to the last.
    pub fn select_previous(&mut self)
        requires
            old(self).wf(),
        ensures
            final(self).wf(),
            final(self).days() == old(self).days(),
            final(self).offset() == old(self).offset(),
            final(self).selection() == previous_selection(old(self).selection(), old(self).days().len()),
    {
        if self.data.len() == 0 {
            return;
        }
        // (selected + len - 1) % len, without the intermediate sum
        self.selected = if self.selected == 0 { self.data.len() - 1 } else { self.selected - 1 };
        proof {
            let s = old(self).selection() as int;
            let l = old(self).days().len() as int;
            if s == 0 {
                assert((s + l - 1) % l == l - 1) by (nonlinear_arith)
                    requires s == 0, l > 0;
            } else {
                assert((s + l - 1) % l == s - 1) by (nonlinear_arith)
                    requires 0 < s < l;
            }
        }
    }

    /// The index of the selected day.
    pub fn selected_index(&self) -> (r: usize)
        ensures
            r == self.selection(),
    {
        self.selected
    }

    /// The days shown.
    pub fn entries(&self) -> (r: &Vec<DailyEntry<F>>)
        ensures
            r@ == self.days(),
    {
        &self.data
    }

    /// Seconds the shown location is ahead of UTC.
    pub fn tz_offset(&self) -> (r: i64)
        ensures
            r == self.offset(),
    {
        self.tz_offset
    }

    /// The title of the day at `index`: "Today" and the day of the month for
    /// the first day, else the weekday, the day of the month and its suffix.
    pub fn day_label(&self, i: usize) -> (r: String)
        requires
            i < self.days().len(),
            shift_fits(self.days()[i as int].dt, self.offset()),
        ensures
            r@ == day_label_text(self.days()[i as int].dt, self.offset(), i as nat),
            i > 0 ==> ends_with(r@, ordinal_suffix(local_reading(self.days()[i as int].dt, self.offset()).day)),
            crate::calendar::has_date_within_range(self.days()[i as int].dt, self.offset()),
    {
        let date = local_dt(self.data[i].dt, self.tz_offset);
        let day = decimal_string(date.day as u64);
        if i == 0 {
            let mut s = String::from_str("Today ");
            s.append(day.as_str());
            s
        } else {
            let mut s = String::from_str(weekday_name(date.weekday));
            s.append(" ");
            s.append(day.as_str());
            let ghost head = s@;
            let suffix = day_suffix(date.day);
            s.append(suffix);
            assert(s@.subrange(head.len() as int, s@.len() as int) =~= suffix@);
            s
        }
    }
}

/// Moving one day forward and then one day back returns to the same day.
pub proof fn lemma_next_then_previous(selected: nat, len: nat)
    requires
        selected < len,
    ensures
        previous_selection(next_selection(selected, len), len) == selected,
{
    let s = selected as int;
    let l = len as int;
    if s + 1 == l {
        assert((s + 1) % l == 0) by (nonlinear_arith)
            requires s + 1 == l, l > 0;
        assert((0 + l - 1) % l == s) by (nonlinear_arith)
            requires s + 1 == l, l > 0;
    } else {
        assert((s + 1) % l == s + 1) by (nonlinear_arith)
            requires 0 <= s, s + 1 < l;
        assert((s + 1 + l - 1) % l == s) by (nonlinear_arith)
            requires 0 <= s < l;
    }
}

/// Moving one day back and then one day forward returns to the same day.
pub proof fn lemma_previous_then_next(selected: nat, len: nat)
    requires
        selected < len,
    ensures
        next_selection(previous_selection(selected, len), len) == selected,
{
    let s = selected as int;
    let l = len as int;
    if s == 0 {
        assert((s + l - 1) % l == l - 1) by (nonlinear_arith)
            requires s == 0, l > 0;
        assert((l - 1 + 1) % l == 0) by (nonlinear_arith)
            requires l > 0;
    } else {
        assert((s + l - 1) % l == s - 1) by (nonlinear_arith)
            requires 0 < s < l;
        assert((s - 1 + 1) % l == s) by (nonlinear_arith)
            requires 0 < s < l;
    }
}

/// The selection after moving forward `steps` times.
pub open spec fn cycle_forward(selected: nat, len: nat, steps: nat) -> nat
    decreases steps,
{
    if steps == 0 {
        selected
    } else {
        next_selection(cycle_forward(selected, len, (steps - 1) as nat), len)
    }
}

/// Moving forward `steps` times advances the selection by `steps`, modulo the
/// number of days.
pub proof fn lemma_cycle_forward(selected: nat, len: nat, steps: nat)
    requires
        selected < len,
    ensures
        cycle_forward(selected, len, steps) == (selected + steps) % len,
    decreases steps,
{
    let l = len as int;
    if steps > 0 {
        lemma_cycle_forward(selected, len, (steps - 1) as nat);
        let k = (selected + steps - 1) as int;
        assert(((k % l) + 1) % l == (k + 1) % l) by (nonlinear_arith)
            requires l > 0, k >= 0;
    } else {
        assert((selected as int) % l == selected as int) by (nonlinear_arith)
            requires 0 <= selected < l;
    }
}

/// After as many forward moves as there are days, the same day is selected again.
pub proof fn lemma_cycle_returns(selected: nat, len: nat)
    requires
        selected < len,
    ensures
        cycle_forward(selected, len, len) == selected,
{
    lemma_cycle_forward(selected, len, len);
    assert((selected as int + len as int) % (len as int) == selected as int) by (nonlinear_arith)
        requires 0 <= selected < len;
}

/// Whether `s` ends with `t`.
pub open spec fn ends_with(s: Seq<char>, t: Seq<char>) -> bool {
    t.len() <= s.len() && s.subrange(s.len() - t.len(), s.len() as int) == t
}

/// New days keep the selected day wherever it still exists, and select the
/// first day otherwise.
pub proof fn lemma_selection_kept_when_day_exists(selected: nat, len: nat)
    ensures
        selected < len ==> kept_selection(selected, len) == selected,
        selected >= len ==> kept_selection(selected, len) == 0,
        kept_selection(selected, len) < len || len == 0,
{
}

/// The label of the first day is "Today" and the day of the month; every
/// other label ends with the English ordinal suffix of its own day of the
/// month: "th" for the 11th, 12th and 13th, else "st", "nd", "rd" after a
/// last digit 1, 2, 3, and "th" after any other.
pub proof fn lemma_day_label_suffix(dt: i64, tz_offset: i64, index: nat)
    ensures
        index == 0 ==> day_label_text(dt, tz_offset, index) == "Today "@ + decimal(local_reading(dt, tz_offset).day as nat),
        index > 0 && 11 <= local_reading(dt, tz_offset).day <= 13
            ==> ends_with(day_label_text(dt, tz_offset, index), "th"@),
        index > 0 && local_reading(dt, tz_offset).day % 10 == 1 && local_reading(dt, tz_offset).day != 11
            ==> ends_with(day_label_text(dt, tz_offset, index), "st"@),
        index > 0 && local_reading(dt, tz_offset).day % 10 == 2 && local_reading(dt, tz_offset).day != 12
            ==> ends_with(day_label_text(dt, tz_offset, index), "nd"@),
        index > 0 && local_reading(dt, tz_offset).day % 10 == 3 && local_reading(dt, tz_offset).day != 13
            ==> ends_with(day_label_text(dt, tz_offset, index), "rd"@),
        index > 0 && (local_reading(dt, tz_offset).day % 10 == 0 || local_reading(dt, tz_offset).day % 10 >= 4)
            ==> ends_with(day_label_text(dt, tz_offset, index), "th"@),
{
    let date = local_reading(dt, tz_offset);
    if index > 0 {
        let head = weekday_abbrev(date.weekday) + " "@ + decimal(date.day as nat);
        let t = ordinal_suffix(date.day);
        assert(day_label_text(dt, tz_offset, index) == head + t);
        assert((head + t).subrange(head.len() as int, (head + t).len() as int) =~= t);
    }
}

} // verus!
