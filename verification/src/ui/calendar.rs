//! The cells and column headers of the month grid.
use vstd::prelude::*;

use crate::calendar::date::{grid_start_number, max_day_number, month_grid, Date, WeekStart};

verus! {

/// The grid cells for the month of `month`: each day with whether it
/// belongs to that month.
pub fn day_cells(month: Date, week_start: WeekStart) -> (r: Vec<(Date, bool)>)
    requires
        month.valid(),
        grid_start_number(month, week_start) + 41 <= max_day_number(),
    ensures
        r.len() == 42,
        forall|i: int|
            0 <= i < 42 ==> {
                &&& (#[trigger] r[i]).0.valid()
                &&& r[i].0.day_number() == grid_start_number(month, week_start) + i
                &&& r[i].1 == (r[i].0.month == month.month)
            },
{
    let grid = month_grid(month, week_start);
    let mut r: Vec<(Date, bool)> = Vec::new();
    let mut i: usize = 0;
    while i < grid.len()
        invariant
            grid.len() == 42,
            i <= 42,
            r.len() == i,
            forall|k: int|
                0 <= k < 42 ==> (#[trigger] grid[k]).valid() && grid[k].day_number()
                    == grid_start_number(month, week_start) + k,
            forall|k: int|
                0 <= k < i ==> {
                    &&& (#[trigger] r[k]).0 == grid[k]
                    &&& r[k].1 == (r[k].0.month == month.month)
                },
        decreases 42 - i,
    {
        let d = grid[i];
        r.push((d, d.month == month.month));
        i = i + 1;
    }
    r
}

/// The column headers in display order: the Monday-first headers, rotated
/// so that Sunday comes first when the week starts on Sunday.
pub fn weekday_labels(headers_monday_first: [&'static str; 7], week_start: WeekStart) -> (r: [&'static str; 7])
    ensures
        week_start == WeekStart::Monday ==> r@ == headers_monday_first@,
        week_start == WeekStart::Sunday ==> r@ == seq![headers_monday_first@[6]]
            + headers_monday_first@.take(6),
{
    match week_start {
        WeekStart::Sunday => {
            let r = [
                headers_monday_first[6],
                headers_monday_first[0],
                headers_monday_first[1],
                headers_monday_first[2],
                headers_monday_first[3],
                headers_monday_first[4],
                headers_monday_first[5],
            ];
            assert(r@ =~= seq![headers_monday_first@[6]] + headers_monday_first@.take(6));
            r
        },
        WeekStart::Monday => headers_monday_first,
    }
}

} // verus!
