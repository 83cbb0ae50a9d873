use crate::text::{decimal_of, int_to_string};
use chrono::Datelike;
use vstd::prelude::*;

verus! {

/// The leap-year rule of the Gregorian calendar.
pub open spec fn is_leap_year(year: int) -> bool {
    (year % 4 == 0 && year % 100 != 0) || year % 400 == 0
}

/// Number of days in `month` (1 to 12) of `year`.
pub open spec fn month_length(year: int, month: int) -> int {
    if month == 2 {
        if is_leap_year(year) { 29 } else { 28 }
    } else if month == 4 || month == 6 || month == 9 || month == 11 {
        30
    } else {
        31
    }
}

/// Number of days in `month` of `year`; February has 29 days in leap years.
pub fn days_in_month(year: i32, month: u32) -> (r: u32)
    requires
        1 <= month <= 12,
    ensures
        r == month_length(year as int, month as int),
        month == 1 || month == 3 || month == 5 || month == 7 || month == 8 || month == 10
            || month == 12 ==> r == 31,
        month == 4 || month == 6 || month == 9 || month == 11 ==> r == 30,
        month == 2 ==> (r == 29 <==> ((year % 4 == 0 && year % 100 != 0) || year % 400 == 0)),
        month == 2 ==> (r == 28 || r == 29),
{
    match month {
        1 | 3 | 5 | 7 | 8 | 10 | 12 => 31,
        4 | 6 | 9 | 11 => 30,
        _ => {
            if (year % 4 == 0 && year % 100 != 0) || (year % 400 == 0) {
                29
            } else {
                28
            }
        },
    }
}

/// Earliest year for which a calendar date can be built.
pub const MIN_YEAR: i32 = -262143;

/// Latest year for which a calendar date can be built.
pub const MAX_YEAR: i32 = 262142;

/// Number of cells allocated for a month grid: seven rows of seven days.
pub const GRID_CELLS: usize = 49;

/// Number of cells that may hold a day: six rows of seven days.
pub const VISIBLE_CELLS: usize = 42;

/// Days in the months of `year` that come before `month`.
pub open spec fn days_before_month(year: int, month: int) -> int
    decreases month,
{
    if month <= 1 {
        0
    } else {
        days_before_month(year, month - 1) + month_length(year, month - 1)
    }
}

/// Days from 0001-01-01 to the given date of the proleptic Gregorian
/// calendar (negative before it).
pub open spec fn day_number(year: int, month: int, day: int) -> int {
    let y = year - 1;
    365 * y + y / 4 - y / 100 + y / 400 + days_before_month(year, month) + day - 1
}

/// Weekday of a date, counted in days from Sunday (0) to Saturday (6).
/// 0001-01-01 was a Monday.
pub open spec fn weekday_from_sunday(year: int, month: int, day: int) -> int {
    (day_number(year, month, day) + 1) % 7
}

/// Relies on chrono's `NaiveDate::from_ymd_opt`, `Datelike::weekday` and
/// `Weekday::num_days_from_sunday`: the weekday of the first day of a month,
/// for the years that `NaiveDate` can hold.
#[verifier::external_body]
fn first_weekday(year: i32, month: u32) -> (r: Option<u32>)
    requires
        1 <= month <= 12,
    ensures
        MIN_YEAR <= year <= MAX_YEAR ==> r == Some(weekday_from_sunday(year as int, month as int, 1) as u32),
        !(MIN_YEAR <= year <= MAX_YEAR) ==> r is None,
{
    match chrono::NaiveDate::from_ymd_opt(year, month, 1) {
        Some(d) => Some(d.weekday().num_days_from_sunday()),
        None => None,
    }
}

/// Weekday of the first day of `month` in `year`, in days from Sunday.
pub fn start_weekday(year: i32, month: u32) -> (r: u32)
    requires
        1 <= month <= 12,
        MIN_YEAR <= year <= MAX_YEAR,
    ensures
        r == weekday_from_sunday(year as int, month as int, 1),
        r < 7,
{
    match first_weekday(year, month) {
        Some(w) => w,
        None => 0,
    }
}

/// Full English name of `month`.
pub open spec fn month_name_of(month: int) -> Seq<char> {
    if month == 1 {
        "January"@
    } else if month == 2 {
        "February"@
    } else if month == 3 {
        "March"@
    } else if month == 4 {
        "April"@
    } else if month == 5 {
        "May"@
    } else if month == 6 {
        "June"@
    } else if month == 7 {
        "July"@
    } else if month == 8 {
        "August"@
    } else if month == 9 {
        "September"@
    } else if month == 10 {
        "October"@
    } else if month == 11 {
        "November"@
    } else {
        "December"@
    }
}

/// Full English name of `month`.
pub fn month_name(month: u32) -> (r: &'static str)
    requires
        1 <= month <= 12,
    ensures
        r@ == month_name_of(month as int),
{
    match month {
        1 => "January",
        2 => "February",
        3 => "March",
        4 => "April",
        5 => "May",
        6 => "June",
        7 => "July",
        8 => "August",
        9 => "September",
        10 => "October",
        11 => "November",
        _ => "December",
    }
}

/// A date of the proleptic Gregorian calendar.
#[derive(Clone, Copy, Debug, PartialEq, Eq)]
pub struct Date {
    pub year: i32,
    pub month: u32,
    pub day: u32,
}

impl Date {
    /// The month exists and the day exists in it.
    pub open spec fn wf(&self) -> bool {
        &&& 1 <= self.month <= 12
        &&& 1 <= self.day <= month_length(self.year as int, self.month as int)
    }

    /// The date `year`-`month`-`day`, if it exists.
    pub fn new(year: i32, month: u32, day: u32) -> (r: Option<Date>)
        ensures
            r is Some <==> (1 <= month <= 12 && 1 <= day <= month_length(year as int, month as int)),
            r matches Some(d) ==> d.year == year && d.month == month && d.day == day,
    {
        if month < 1 || month > 12 {
            return None;
        }
        if day < 1 || day > days_in_month(year, month) {
            return None;
        }
        Some(Date { year, month, day })
    }
}

/// The day shown in cell `i` of a month that starts `start` cells in and has
/// `count` days; only the first six rows hold days.
pub open spec fn cell_of(start: int, count: int, i: int) -> Option<u32> {
    if start <= i < start + count && i < VISIBLE_CELLS {
        Some((i - start + 1) as u32)
    } else {
        None
    }
}

/// The cells of the grid of `month` in `year`.
pub open spec fn month_cells(year: int, month: int) -> Seq<Option<u32>> {
    Seq::new(
        GRID_CELLS as nat,
        |i: int| cell_of(weekday_from_sunday(year, month, 1), month_length(year, month), i),
    )
}

/// The cell that marks `today` in the grid of `month` in `year`, if `today`
/// falls in that month.
pub open spec fn today_cell(year: int, month: int, today: Date) -> Option<usize> {
    if today.year == year && today.month == month {
        Some((weekday_from_sunday(year, month, 1) + today.day - 1) as usize)
    } else {
        None
    }
}

/// A month laid out for display, Sunday first, seven cells to a row.
pub struct MonthGrid {
    pub year_label: String,
    pub month_label: String,
    pub cells: Vec<Option<u32>>,
    pub today_index: Option<usize>,
}

/// Lays out `month` of `year` as a grid, marking the cell of `today` when it
/// falls in that month.
pub fn build_grid(year: i32, month: u32, today: Date) -> (r: MonthGrid)
    requires
        1 <= month <= 12,
        MIN_YEAR <= year <= MAX_YEAR,
        today.wf(),
    ensures
        r.year_label@ == decimal_of(year as int),
        r.month_label@ == month_name_of(month as int),
        r.cells@ == month_cells(year as int, month as int),
        r.today_index == today_cell(year as int, month as int, today),
{
    let year_label = int_to_string(year);
    let month_label = String::from_str(month_name(month));
    let start = start_weekday(year, month);
    let count = days_in_month(year, month);
    let ghost s = start as int;
    let ghost c = count as int;
    let mut cells: Vec<Option<u32>> = Vec::new();
    let mut i: usize = 0;
    while i < GRID_CELLS
        invariant
            i <= GRID_CELLS,
            cells@.len() == i,
            forall|k: int| 0 <= k < i ==> cells@[k] is None,
        decreases GRID_CELLS - i,
    {
        cells.push(None);
        i = i + 1;
    }
    assert(forall|k: int| 0 <= k < GRID_CELLS && k < s ==> cell_of(s, c, k) is None);
    let mut day: u32 = 1;
    while day <= count
        invariant
            s == start,
            c == count,
            start < 7,
            count <= 31,
            1 <= day <= count + 1,
            cells@.len() == GRID_CELLS,
            forall|k: int|
                0 <= k < GRID_CELLS ==> #[trigger] cells@[k] == (if k < s + day - 1 {
                    cell_of(s, c, k)
                } else {
                    None
                }),
        decreases count + 1 - day,
    {
        let idx: usize = start as usize + day as usize - 1;
        if idx < VISIBLE_CELLS {
            cells.set(idx, Some(day));
        }
        assert(cell_of(s, c, idx as int) == (if idx < VISIBLE_CELLS { Some(day) } else { None }));
        day = day + 1;
    }
    let today_index = if today.year == year && today.month == month {
        Some(start as usize + today.day as usize - 1)
    } else {
        None
    };
    assert(cells@ =~= month_cells(year as int, month as int));
    MonthGrid { year_label, month_label, cells, today_index }
}

/// Every day of a month has its cell in the first six rows of its grid: the
/// filled cells among them hold exactly the days 1 to the month's length,
/// each once and in increasing order, in one unbroken run after the leading
/// blanks; the seventh row stays blank.
pub proof fn lemma_grid_complete(year: int, month: int)
    requires
        1 <= month <= 12,
    ensures
        ({
            let cells = month_cells(year, month);
            let start = weekday_from_sunday(year, month, 1);
            let count = month_length(year, month);
            &&& 0 <= start < 7
            &&& start + count <= VISIBLE_CELLS
            &&& forall|i: int|
                0 <= i < VISIBLE_CELLS ==> (#[trigger] cells[i] is Some <==> start <= i < start + count)
            &&& forall|d: int| 1 <= d <= count ==> #[trigger] cells[start + d - 1] == Some(d as u32)
            &&& forall|i: int|
                0 <= i < VISIBLE_CELLS && #[trigger] cells[i] is Some ==> 1 <= cells[i]->0 <= count
            &&& forall|i: int, j: int|
                0 <= i < j < VISIBLE_CELLS && #[trigger] cells[i] is Some && #[trigger] cells[j] is Some
                    ==> cells[i]->0 < cells[j]->0
            &&& forall|i: int| VISIBLE_CELLS <= i < GRID_CELLS ==> #[trigger] cells[i] is None
        }),
{
}

} // verus!
