use crate::calendar::{
    build_grid, month_cells, month_name_of, today_cell, Date, MonthGrid, MAX_YEAR, MIN_YEAR,
};
use crate::text::{decimal_of, i32_value, lower_of, lowercase, parse_i32};
use vstd::prelude::*;

verus! {

/// Lowercase English name of `month`.
pub open spec fn lower_month_name_of(month: int) -> Seq<char> {
    if month == 1 {
        "january"@
    } else if month == 2 {
        "february"@
    } else if month == 3 {
        "march"@
    } else if month == 4 {
        "april"@
    } else if month == 5 {
        "may"@
    } else if month == 6 {
        "june"@
    } else if month == 7 {
        "july"@
    } else if month == 8 {
        "august"@
    } else if month == 9 {
        "september"@
    } else if month == 10 {
        "october"@
    } else if month == 11 {
        "november"@
    } else {
        "december"@
    }
}

/// The first month from `month` on whose lowercase name is `s`.
pub open spec fn month_named_from(s: Seq<char>, month: int) -> Option<u32>
    decreases 13 - month,
{
    if month < 1 || month > 12 {
        None
    } else if lower_month_name_of(month) == s {
        Some(month as u32)
    } else {
        month_named_from(s, month + 1)
    }
}

/// The month whose lowercase English name is `s`.
pub open spec fn month_named(s: Seq<char>) -> Option<u32> {
    month_named_from(s, 1)
}

/// The month written as a number in `s`, if it is one from 1 to 12.
pub open spec fn month_number(s: Seq<char>) -> Option<u32> {
    match i32_value(s) {
        Some(v) => if 1 <= v <= 12 {
            Some(v as u32)
        } else {
            None
        },
        None => None,
    }
}

/// The month that a text names: a number from 1 to 12 first, else the
/// English name of a month, compared with `lowered`, the text in lowercase.
pub open spec fn month_of_text(text: Seq<char>, lowered: Seq<char>) -> Option<u32> {
    if month_number(text) is Some {
        month_number(text)
    } else {
        month_named(lowered)
    }
}

/// The year written in `s`, if it is an integer from 1 to 9999.
pub open spec fn year_of_text(s: Seq<char>) -> Option<i32> {
    match i32_value(s) {
        Some(v) => if 0 < v < 10000 {
            Some(v)
        } else {
            None
        },
        None => None,
    }
}

/// Lowercase English name of `month`.
fn lower_month_name(month: u32) -> (r: &'static str)
    requires
        1 <= month <= 12,
    ensures
        r@ == lower_month_name_of(month as int),
{
    match month {
        1 => "january",
        2 => "february",
        3 => "march",
        4 => "april",
        5 => "may",
        6 => "june",
        7 => "july",
        8 => "august",
        9 => "september",
        10 => "october",
        11 => "november",
        _ => "december",
    }
}

/// The month whose lowercase English name is `lowered`.
pub fn month_from_name(lowered: &str) -> (r: Option<u32>)
    ensures
        r == month_named(lowered@),
        r matches Some(m) ==> 1 <= m <= 12,
{
    let text = String::from_str(lowered);
    let mut month: u32 = 1;
    while month <= 12
        invariant
            1 <= month <= 13,
            text@ == lowered@,
            month_named(lowered@) == month_named_from(lowered@, month as int),
        decreases 13 - month,
    {
        let name = String::from_str(lower_month_name(month));
        if text == name {
            return Some(month);
        }
        month = month + 1;
    }
    None
}

/// The month that `text` names, given `lowered`, its lowercase form: a
/// number from 1 to 12, else the English name of a month in any case.
pub fn month_from_text(text: &str, lowered: &str) -> (r: Option<u32>)
    ensures
        r == month_of_text(text@, lowered@),
        r matches Some(m) ==> 1 <= m <= 12,
{
    match parse_i32(text) {
        Some(m) => {
            if 1 <= m && m <= 12 {
                return Some(m as u32);
            }
        },
        None => {},
    }
    month_from_name(lowered)
}

/// The year that `text` names, if it is an integer from 1 to 9999.
pub fn year_from_text(text: &str) -> (r: Option<i32>)
    ensures
        r == year_of_text(text@),
{
    match parse_i32(text) {
        Some(y) => if 0 < y && y < 10000 {
            Some(y)
        } else {
            None
        },
        None => None,
    }
}

/// The (year, month) that a calendar displays.
#[derive(Clone, Copy, Debug, PartialEq, Eq)]
pub struct Cursor {
    pub year: i32,
    pub month: u32,
}

impl Cursor {
    /// The month is one of the twelve and a date can be built in the year.
    pub open spec fn wf(&self) -> bool {
        &&& 1 <= self.month <= 12
        &&& MIN_YEAR <= self.year <= MAX_YEAR
    }

    /// A cursor on `month` of `year`, if the month is one of the twelve and
    /// the year lies in the supported range.
    pub fn new(year: i32, month: u32) -> (r: Option<Cursor>)
        ensures
            r is Some <==> (1 <= month <= 12 && MIN_YEAR <= year <= MAX_YEAR),
            r matches Some(c) ==> c.year == year && c.month == month,
    {
        if 1 <= month && month <= 12 && MIN_YEAR <= year && year <= MAX_YEAR {
            Some(Cursor { year, month })
        } else {
            None
        }
    }

    /// Moves to the month before, from January to December of the year
    /// before. Returns whether the cursor moved: it stays at the first
    /// supported January.
    pub fn prev_month(&mut self) -> (moved: bool)
        requires
            old(self).wf(),
        ensures
            final(self).wf(),
            old(self).month > 1 ==> moved && final(self).year == old(self).year
                && final(self).month == old(self).month - 1,
            old(self).month == 1 && old(self).year > MIN_YEAR ==> moved && final(self).year
                == old(self).year - 1 && final(self).month == 12,
            old(self).month == 1 && old(self).year == MIN_YEAR ==> !moved && *final(self)
                == *old(self),
    {
        if self.month > 1 {
            self.month = self.month - 1;
            true
        } else if self.year > MIN_YEAR {
            self.year = self.year - 1;
            self.month = 12;
            true
        } else {
            false
        }
    }

    /// Moves to the month after, from December to January of the year
    /// after. Returns whether the cursor moved: it stays at the last
    /// supported December.
    pub fn next_month(&mut self) -> (moved: bool)
        requires
            old(self).wf(),
        ensures
            final(self).wf(),
            old(self).month < 12 ==> moved && final(self).year == old(self).year
                && final(self).month == old(self).month + 1,
            old(self).month == 12 && old(self).year < MAX_YEAR ==> moved && final(self).year
                == old(self).year + 1 && final(self).month == 1,
            old(self).month == 12 && old(self).year == MAX_YEAR ==> !moved && *final(self)
                == *old(self),
    {
        if self.month < 12 {
            self.month = self.month + 1;
            true
        } else if self.year < MAX_YEAR {
            self.year = self.year + 1;
            self.month = 1;
            true
        } else {
            false
        }
    }

    /// Moves to the same month of the year before. Returns whether the
    /// cursor moved: it stays in the first supported year.
    pub fn prev_year(&mut self) -> (moved: bool)
        requires
            old(self).wf(),
        ensures
            final(self).wf(),
            final(self).month == old(self).month,
            moved == (old(self).year > MIN_YEAR),
            moved ==> final(self).year == old(self).year - 1,
            !moved ==> final(self).year == old(self).year,
    {
        if self.year > MIN_YEAR {
            self.year = self.year - 1;
            true
        } else {
            false
        }
    }

    /// Moves to the same month of the year after. Returns whether the cursor
    /// moved: it stays in the last supported year.
    pub fn next_year(&mut self) -> (moved: bool)
        requires
            old(self).wf(),
        ensures
            final(self).wf(),
            final(self).month == old(self).month,
            moved == (old(self).year < MAX_YEAR),
            moved ==> final(self).year == old(self).year + 1,
            !moved ==> final(self).year == old(self).year,
    {
        if self.year < MAX_YEAR {
            self.year = self.year + 1;
            true
        } else {
            false
        }
    }

    /// Moves to the year written in `text` when it is an integer from 1 to
    /// 9999; any other text leaves the cursor as it is. Returns whether the
    /// year was taken.
    pub fn set_year(&mut self, text: &str) -> (applied: bool)
        requires
            old(self).wf(),
        ensures
            final(self).wf(),
            applied == (year_of_text(text@) is Some),
            final(self).month == old(self).month,
            applied ==> final(self).year == year_of_text(text@)->0,
            !applied ==> *final(self) == *old(self),
    {
        match year_from_text(text) {
            Some(y) => {
                self.year = y;
                true
            },
            None => false,
        }
    }

    /// Moves to the month that `text` names: a number from 1 to 12, else the
    /// English name of a month in any case; any other text leaves the cursor
    /// as it is. Returns whether a month was taken.
    pub fn set_month(&mut self, text: &str) -> (applied: bool)
        requires
            old(self).wf(),
        ensures
            final(self).wf(),
            applied == (month_of_text(text@, lower_of(text@)) is Some),
            final(self).year == old(self).year,
            applied ==> final(self).month == month_of_text(text@, lower_of(text@))->0,
            !applied ==> *final(self) == *old(self),
    {
        let lowered = lowercase(text);
        match month_from_text(text, lowered.as_str()) {
            Some(m) => {
                self.month = m;
                true
            },
            None => false,
        }
    }

    /// The grid of the displayed month, marking `today` when it falls in it.
    pub fn grid(&self, today: Date) -> (r: MonthGrid)
        requires
            self.wf(),
            today.wf(),
        ensures
            r.year_label@ == decimal_of(self.year as int),
            r.month_label@ == month_name_of(self.month as int),
            r.cells@ == month_cells(self.year as int, self.month as int),
            r.today_index == today_cell(self.year as int, self.month as int, today),
    {
        build_grid(self.year, self.month, today)
    }
}

} // verus!
