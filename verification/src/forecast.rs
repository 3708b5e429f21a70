//! The forecast by days, as the rows of a table: which hours make a day,
//! which symbols stand for its night, morning, afternoon and evening, and
//! which of its temperatures and wind speeds are the extremes.
use crate::binary64::{order_key, order_key_of};
use crate::body::TimeSeries;
use vstd::prelude::*;

verus! {

/// How many days a table shows.
pub const DAYS: usize = 7;

/// How many symbols a day has: one for each quarter of it.
pub const QUARTERS: usize = 4;

/// What the table reads of one step of the time series.
#[derive(Clone, Debug, PartialEq, Eq)]
pub struct Hour {
    /// The number of the day that the step falls on, in the zone of the
    /// place.
    pub day: i32,
    /// The hour of the step, from 0 to 23, in UTC.
    pub hour: u32,
    /// The code of the symbol for the six hours that follow, where the step
    /// has such a summary.
    pub symbol: Option<String>,
}

/// The hours `start..end` all fall on one day, and the run cannot be made
/// longer at its end.
pub open spec fn is_run(hours: Seq<Hour>, start: int, end: int) -> bool {
    &&& 0 <= start < end <= hours.len()
    &&& forall|i: int| start <= i < end ==> (#[trigger] hours[i]).day == hours[start].day
    &&& end < hours.len() ==> hours[end].day != hours[start].day
}

/// The runs follow each other from the first hour on without a gap.
pub open spec fn are_runs(hours: Seq<Hour>, runs: Seq<(usize, usize)>) -> bool {
    &&& forall|k: int|
        0 <= k < runs.len() ==> is_run(hours, (#[trigger] runs[k]).0 as int, runs[k].1 as int)
    &&& runs.len() > 0 ==> runs[0].0 == 0
    &&& forall|j: int, k: int|
        0 <= j && j + 1 == k && k < runs.len() ==> (#[trigger] runs[k]).0 == (#[trigger] runs[j]).1
}

/// Where the last run ends, or 0 where there is none.
pub open spec fn covered(runs: Seq<(usize, usize)>) -> int {
    if runs.len() == 0 {
        0
    } else {
        runs.last().1 as int
    }
}

/// Where the run that starts at `start` ends.
pub fn run_end(hours: &Vec<Hour>, start: usize) -> (end: usize)
    requires
        start < hours.len(),
    ensures
        is_run(hours@, start as int, end as int),
{
    let day: i32 = hours[start].day;
    let mut end: usize = start + 1;
    while end < hours.len() && hours[end].day == day
        invariant
            start < end <= hours.len(),
            day == hours@[start as int].day,
            forall|i: int| start <= i < end ==> (#[trigger] hours@[i]).day == day,
        decreases hours.len() - end,
    {
        end = end + 1;
    }
    end
}

/// A run that starts where the runs so far end can be added to them.
pub proof fn lemma_next_run(hours: Seq<Hour>, runs: Seq<(usize, usize)>, start: usize, end: usize)
    requires
        are_runs(hours, runs),
        start == covered(runs),
        is_run(hours, start as int, end as int),
    ensures
        are_runs(hours, runs.push((start, end))),
        covered(runs.push((start, end))) == end,
{
    let longer = runs.push((start, end));
    assert forall|k: int| 0 <= k < longer.len() implies is_run(
        hours,
        (#[trigger] longer[k]).0 as int,
        longer[k].1 as int,
    ) by {
        if k < runs.len() {
            assert(longer[k] == runs[k]);
        }
    }
    assert forall|j: int, k: int| 0 <= j && j + 1 == k && k < longer.len() implies (
    #[trigger] longer[k]).0 == (#[trigger] longer[j]).1 by {
        assert(longer[j] == runs[j]);
        if k < runs.len() {
            assert(longer[k] == runs[k]);
        }
    }
}

/// Splits the hours into days: the runs of consecutive hours that fall on
/// one day, from the first hour on, and at most `limit` of them.
pub fn day_runs(hours: &Vec<Hour>, limit: usize) -> (runs: Vec<(usize, usize)>)
    ensures
        are_runs(hours@, runs@),
        runs@.len() <= limit,
        runs@.len() < limit ==> covered(runs@) == hours@.len(),
{
    let mut runs: Vec<(usize, usize)> = Vec::new();
    let mut start: usize = 0;
    while start < hours.len() && runs.len() < limit
        invariant
            start <= hours.len(),
            start == covered(runs@),
            are_runs(hours@, runs@),
            runs@.len() <= limit,
        decreases hours.len() - start,
    {
        let end: usize = run_end(hours, start);
        proof {
            lemma_next_run(hours@, runs@, start, end);
        }
        runs.push((start, end));
        start = end;
    }
    runs
}

/// The hour opens a quarter of the day.
pub open spec fn is_slot(hour: u32) -> bool {
    hour == 0 || hour == 6 || hour == 12 || hour == 18
}

/// The symbols of the hours that open a quarter, in their order.
pub open spec fn slots(hours: Seq<Hour>) -> Seq<Option<String>>
    decreases hours.len(),
{
    if hours.len() == 0 {
        Seq::empty()
    } else if is_slot(hours.last().hour) {
        slots(hours.drop_last()).push(hours.last().symbol)
    } else {
        slots(hours.drop_last())
    }
}

/// The symbols of a day, the `idx`-th of the table. A first day that does
/// not start at midnight is led by the symbol of its first hour; a day with
/// fewer than four symbols is filled up with blanks at the front.
pub open spec fn symbols(idx: int, hours: Seq<Hour>) -> Seq<Option<String>> {
    let picked = slots(hours);
    let led = if idx == 0 && picked.len() != QUARTERS {
        seq![hours[0].symbol] + picked
    } else {
        picked
    };
    if led.len() < QUARTERS {
        Seq::new((QUARTERS - led.len()) as nat, |i: int| None::<String>) + led
    } else {
        led
    }
}

fn copy(symbol: &Option<String>) -> (r: Option<String>)
    ensures
        r == *symbol,
{
    match symbol {
        Some(code) => Some(code.clone()),
        None => None,
    }
}

/// Picks the symbols of the day made of the hours `start..end`, the `idx`-th
/// day of the table.
pub fn pick_symbols_from_hours(idx: usize, hours: &Vec<Hour>, start: usize, end: usize) -> (row:
    Vec<Option<String>>)
    requires
        start < end <= hours.len(),
    ensures
        row@ == symbols(idx as int, hours@.subrange(start as int, end as int)),
{
    let ghost day = hours@.subrange(start as int, end as int);
    let mut picked: Vec<Option<String>> = Vec::new();
    let mut i: usize = start;
    while i < end
        invariant
            start <= i <= end <= hours.len(),
            day == hours@.subrange(start as int, end as int),
            picked@ == slots(day.subrange(0, i - start)),
        decreases end - i,
    {
        let ghost upto = day.subrange(0, i + 1 - start);
        assert(upto.drop_last() =~= day.subrange(0, i - start));
        assert(upto.last() == hours@[i as int]);
        let h: u32 = hours[i].hour;
        if h == 0 || h == 6 || h == 12 || h == 18 {
            picked.push(copy(&hours[i].symbol));
        }
        i = i + 1;
    }
    assert(day.subrange(0, end - start) =~= day);
    let lead: bool = idx == 0 && picked.len() != QUARTERS;
    let full: usize = if lead {
        QUARTERS - 1
    } else {
        QUARTERS
    };
    let wanted: usize = if picked.len() < full {
        full - picked.len()
    } else {
        0
    };
    let mut row: Vec<Option<String>> = Vec::new();
    let mut blanks: usize = 0;
    while blanks < wanted
        invariant
            blanks <= wanted,
            row@ == Seq::new(blanks as nat, |k: int| None::<String>),
        decreases wanted - blanks,
    {
        row.push(None);
        blanks = blanks + 1;
        assert(row@ =~= Seq::new(blanks as nat, |k: int| None::<String>));
    }
    if lead {
        assert(day[0] == hours@[start as int]);
        row.push(copy(&hours[start].symbol));
    }
    let ghost front = row@;
    let mut j: usize = 0;
    while j < picked.len()
        invariant
            j <= picked.len(),
            row@ == front + picked@.subrange(0, j as int),
        decreases picked.len() - j,
    {
        row.push(copy(&picked[j]));
        assert(picked@.subrange(0, j + 1) =~= picked@.subrange(0, j as int).push(picked@[j as int]));
        assert(row@ =~= front + picked@.subrange(0, j + 1));
        j = j + 1;
    }
    assert(picked@.subrange(0, picked.len() as int) =~= picked@);
    assert(row@ =~= symbols(idx as int, day));
    row
}

/// One day of the table: the hours that make it, and its symbols.
#[derive(Clone, Debug, PartialEq, Eq)]
pub struct Day {
    /// The first hour of the day, as an index into the time series.
    pub start: usize,
    /// The index behind the last hour of the day.
    pub end: usize,
    /// The symbols of the day, four or more.
    pub symbols: Vec<Option<String>>,
}

/// `days` is the table of the hours: a day for each of the first seven runs,
/// each with its symbols.
pub open spec fn is_forecast(hours: Seq<Hour>, days: Seq<Day>) -> bool {
    &&& days.len() <= DAYS
    &&& days.len() < DAYS ==> (if days.len() == 0 {
        hours.len() == 0
    } else {
        days.last().end == hours.len()
    })
    &&& days.len() > 0 ==> days[0].start == 0
    &&& forall|j: int, k: int|
        0 <= j && j + 1 == k && k < days.len() ==> (#[trigger] days[k]).start == (
        #[trigger] days[j]).end
    &&& forall|k: int|
        0 <= k < days.len() ==> {
            &&& is_run(hours, (#[trigger] days[k]).start as int, days[k].end as int)
            &&& days[k].symbols@ == symbols(
                k,
                hours.subrange(days[k].start as int, days[k].end as int),
            )
        }
}

/// Lays the time series out by days: the first seven days, each with the
/// hours that make it and with its symbols.
pub fn format_forecast(hours: &Vec<Hour>) -> (days: Vec<Day>)
    ensures
        is_forecast(hours@, days@),
{
    let runs: Vec<(usize, usize)> = day_runs(hours, DAYS);
    let mut days: Vec<Day> = Vec::new();
    let mut k: usize = 0;
    while k < runs.len()
        invariant
            k <= runs.len(),
            days@.len() == k,
            are_runs(hours@, runs@),
            forall|n: int|
                0 <= n < k ==> {
                    &&& (#[trigger] days@[n]).start == runs@[n].0
                    &&& days@[n].end == runs@[n].1
                    &&& days@[n].symbols@ == symbols(
                        n,
                        hours@.subrange(runs@[n].0 as int, runs@[n].1 as int),
                    )
                },
        decreases runs.len() - k,
    {
        let (start, end) = runs[k];
        assert(is_run(hours@, runs@[k as int].0 as int, runs@[k as int].1 as int));
        let symbols: Vec<Option<String>> = pick_symbols_from_hours(k, hours, start, end);
        days.push(Day { start, end, symbols });
        k = k + 1;
    }
    proof {
        assert forall|n: int| 0 <= n < days@.len() implies is_run(
            hours@,
            (#[trigger] days@[n]).start as int,
            days@[n].end as int,
        ) by {
            assert(is_run(hours@, runs@[n].0 as int, runs@[n].1 as int));
        }
        assert forall|j: int, n: int| 0 <= j && j + 1 == n && n < days@.len() implies (
        #[trigger] days@[n]).start == (#[trigger] days@[j]).end by {
            assert(runs@[n].0 == runs@[j].1);
        }
    }
    days
}

/// The text of a cell: its own, or none where the cell is blank.
pub open spec fn cell_text(cell: Option<String>) -> Seq<char> {
    match cell {
        Some(text) => text@,
        None => Seq::empty(),
    }
}

/// The rows with every cell as text, a blank cell as the empty text.
pub fn get_rows(table: &Vec<Vec<Option<String>>>) -> (rows: Vec<Vec<String>>)
    ensures
        rows@.len() == table@.len(),
        forall|i: int| 0 <= i < rows@.len() ==> (#[trigger] rows@[i])@.len() == table@[i]@.len(),
        forall|i: int, j: int|
            0 <= i < rows@.len() && 0 <= j < rows@[i]@.len() ==> (#[trigger] rows@[i]@[j])@
                == cell_text(table@[i]@[j]),
{
    let mut rows: Vec<Vec<String>> = Vec::new();
    let mut i: usize = 0;
    while i < table.len()
        invariant
            i <= table.len(),
            rows@.len() == i,
            forall|a: int| 0 <= a < i ==> (#[trigger] rows@[a])@.len() == table@[a]@.len(),
            forall|a: int, b: int|
                0 <= a < i && 0 <= b < rows@[a]@.len() ==> (#[trigger] rows@[a]@[b])@
                    == cell_text(table@[a]@[b]),
        decreases table.len() - i,
    {
        let mut row: Vec<String> = Vec::new();
        let mut j: usize = 0;
        while j < table[i].len()
            invariant
                i < table.len(),
                j <= table@[i as int]@.len(),
                row@.len() == j,
                forall|b: int| 0 <= b < j ==> (#[trigger] row@[b])@ == cell_text(table@[i as int]@[b]),
            decreases table@[i as int]@.len() - j,
        {
            let text: String = match &table[i][j] {
                Some(text) => text.clone(),
                None => String::new(),
            };
            row.push(text);
            j = j + 1;
        }
        rows.push(row);
        i = i + 1;
    }
    rows
}


/// What the table reads of a step of the time series that falls on the
/// given day: the hour of the step and the symbol of the six hours after it.
pub fn hour_of(step: &TimeSeries, day: i32) -> (r: Hour)
    ensures
        r.day == day,
        r.hour == step.time.hour(),
        match step.data.next_6_hours {
            Some(next) => r.symbol == Some(next.summary.symbol_code),
            None => r.symbol is None,
        },
{
    let symbol: Option<String> = match &step.data.next_6_hours {
        Some(next) => Some(next.summary.symbol_code.clone()),
        None => None,
    };
    Hour { day, hour: step.time.hour_of_day(), symbol }
}

/// The least and the greatest of some measurements.
#[derive(Clone, Copy, Debug, PartialEq, Eq, Structural)]
pub enum MinMax {
    /// There is no measurement.
    NoElements,
    /// There is one measurement.
    OneElement(u64),
    /// The least and the greatest of two measurements or more.
    MinMax(u64, u64),
}

/// `least` is the first of the values that no value is under.
pub open spec fn is_first_least(values: Seq<u64>, least: u64) -> bool {
    exists|i: int|
        {
            &&& 0 <= i < values.len()
            &&& #[trigger] values[i] == least
            &&& forall|j: int| 0 <= j < i ==> order_key_of(least) < order_key_of(#[trigger] values[j])
            &&& forall|j: int|
                i <= j < values.len() ==> order_key_of(least) <= order_key_of(#[trigger] values[j])
        }
}

/// `greatest` is the last of the values that no value is over.
pub open spec fn is_last_greatest(values: Seq<u64>, greatest: u64) -> bool {
    exists|i: int|
        {
            &&& 0 <= i < values.len()
            &&& #[trigger] values[i] == greatest
            &&& forall|j: int|
                0 <= j <= i ==> order_key_of(#[trigger] values[j]) <= order_key_of(greatest)
            &&& forall|j: int|
                i < j < values.len() ==> order_key_of(#[trigger] values[j]) < order_key_of(
                    greatest,
                )
        }
}

/// `r` is the least and the greatest of the values as numbers: of equal
/// values the first counts as the least and the last as the greatest.
pub open spec fn is_minmax(values: Seq<u64>, r: MinMax) -> bool {
    match r {
        MinMax::NoElements => values.len() == 0,
        MinMax::OneElement(only) => values.len() == 1 && values[0] == only,
        MinMax::MinMax(least, greatest) => values.len() >= 2 && is_first_least(values, least)
            && is_last_greatest(values, greatest),
    }
}

/// Finds the least and the greatest of the values, which are patterns of
/// finite binary64 numbers.
///
/// `itertools::Itertools::minmax_by_key` with `order_key` as the key: none
/// for no value, the value itself for one, and otherwise the first of the
/// least values with the last of the greatest.
#[verifier::external_body]
fn minmax(values: &Vec<u64>) -> (r: MinMax)
    ensures
        is_minmax(values@, r),
{
    match itertools::Itertools::minmax_by_key(values.iter(), |bits| order_key(**bits)) {
        itertools::MinMaxResult::NoElements => MinMax::NoElements,
        itertools::MinMaxResult::OneElement(only) => MinMax::OneElement(*only),
        itertools::MinMaxResult::MinMax(least, greatest) => MinMax::MinMax(*least, *greatest),
    }
}

/// The air temperatures that the steps state, in their order.
pub open spec fn temperatures(steps: Seq<TimeSeries>) -> Seq<u64>
    decreases steps.len(),
{
    if steps.len() == 0 {
        Seq::empty()
    } else {
        match steps.last().data.instant.details.air_temperature {
            Some(bits) => temperatures(steps.drop_last()).push(bits),
            None => temperatures(steps.drop_last()),
        }
    }
}

/// The wind speeds that the steps state, in their order.
pub open spec fn wind_speeds(steps: Seq<TimeSeries>) -> Seq<u64>
    decreases steps.len(),
{
    if steps.len() == 0 {
        Seq::empty()
    } else {
        match steps.last().data.instant.details.wind_speed {
            Some(bits) => wind_speeds(steps.drop_last()).push(bits),
            None => wind_speeds(steps.drop_last()),
        }
    }
}

/// The lowest and the highest air temperature of the steps `start..end`.
pub fn max_min_temperature(series: &Vec<TimeSeries>, start: usize, end: usize) -> (r: MinMax)
    requires
        start <= end <= series.len(),
    ensures
        is_minmax(temperatures(series@.subrange(start as int, end as int)), r),
{
    let ghost day = series@.subrange(start as int, end as int);
    let mut stated: Vec<u64> = Vec::new();
    let mut i: usize = start;
    while i < end
        invariant
            start <= i <= end <= series.len(),
            day == series@.subrange(start as int, end as int),
            stated@ == temperatures(day.subrange(0, i - start)),
        decreases end - i,
    {
        let ghost upto = day.subrange(0, i + 1 - start);
        assert(upto.drop_last() =~= day.subrange(0, i - start));
        assert(upto.last() == series@[i as int]);
        if let Some(bits) = series[i].data.instant.details.air_temperature {
            stated.push(bits);
        }
        i = i + 1;
    }
    assert(day.subrange(0, end - start) =~= day);
    minmax(&stated)
}

/// `greatest` is the first of the values that no value is over.
pub open spec fn is_first_greatest(values: Seq<u64>, greatest: u64) -> bool {
    exists|i: int|
        {
            &&& 0 <= i < values.len()
            &&& #[trigger] values[i] == greatest
            &&& forall|j: int|
                0 <= j < i ==> order_key_of(#[trigger] values[j]) < order_key_of(greatest)
            &&& forall|j: int|
                i <= j < values.len() ==> order_key_of(#[trigger] values[j]) <= order_key_of(
                    greatest,
                )
        }
}

/// One value more, which is not over the greatest so far, leaves the
/// greatest as it is.
pub proof fn lemma_greatest_stays(values: Seq<u64>, greatest: u64, next: u64)
    requires
        is_first_greatest(values, greatest),
        order_key_of(next) <= order_key_of(greatest),
    ensures
        is_first_greatest(values.push(next), greatest),
{
    let at = choose|i: int|
        {
            &&& 0 <= i < values.len()
            &&& #[trigger] values[i] == greatest
            &&& forall|j: int|
                0 <= j < i ==> order_key_of(#[trigger] values[j]) < order_key_of(greatest)
            &&& forall|j: int|
                i <= j < values.len() ==> order_key_of(#[trigger] values[j]) <= order_key_of(
                    greatest,
                )
        };
    let longer = values.push(next);
    assert(longer[at] == greatest);
    assert forall|j: int| 0 <= j < at implies order_key_of(#[trigger] longer[j]) < order_key_of(
        greatest,
    ) by {
        assert(longer[j] == values[j]);
    }
    assert forall|j: int| at <= j < longer.len() implies order_key_of(#[trigger] longer[j])
        <= order_key_of(greatest) by {
        if j < values.len() {
            assert(longer[j] == values[j]);
        }
    }
}

/// One value more, which is over all the values so far, is the greatest.
pub proof fn lemma_greatest_moves(values: Seq<u64>, greatest: u64, next: u64)
    requires
        values.len() == 0 || (is_first_greatest(values, greatest) && order_key_of(greatest)
            < order_key_of(next)),
    ensures
        is_first_greatest(values.push(next), next),
{
    let longer = values.push(next);
    let at = values.len() as int;
    assert(longer[at] == next);
    assert forall|j: int| 0 <= j < at implies order_key_of(#[trigger] longer[j]) < order_key_of(
        next,
    ) by {
        assert(longer[j] == values[j]);
    }
    assert forall|j: int| at <= j < longer.len() implies order_key_of(#[trigger] longer[j])
        <= order_key_of(next) by {
    }
}

/// The highest wind speed of the steps `start..end`, if any of them states
/// one. Of equal speeds the first is returned.
pub fn wind(series: &Vec<TimeSeries>, start: usize, end: usize) -> (r: Option<u64>)
    requires
        start <= end <= series.len(),
    ensures
        match r {
            Some(greatest) => is_first_greatest(
                wind_speeds(series@.subrange(start as int, end as int)),
                greatest,
            ),
            None => wind_speeds(series@.subrange(start as int, end as int)).len() == 0,
        },
{
    let ghost day = series@.subrange(start as int, end as int);
    let mut greatest: Option<u64> = None;
    let mut i: usize = start;
    while i < end
        invariant
            start <= i <= end <= series.len(),
            day == series@.subrange(start as int, end as int),
            match greatest {
                Some(bits) => is_first_greatest(wind_speeds(day.subrange(0, i - start)), bits),
                None => wind_speeds(day.subrange(0, i - start)).len() == 0,
            },
        decreases end - i,
    {
        let ghost before = day.subrange(0, i - start);
        let ghost upto = day.subrange(0, i + 1 - start);
        assert(upto.drop_last() =~= before);
        assert(upto.last() == series@[i as int]);
        if let Some(bits) = series[i].data.instant.details.wind_speed {
            let ghost speeds = wind_speeds(before);
            assert(wind_speeds(upto) == speeds.push(bits));
            match greatest {
                None => {
                    proof {
                        lemma_greatest_moves(speeds, bits, bits);
                    }
                    greatest = Some(bits);
                },
                Some(so_far) => {
                    if order_key(so_far) < order_key(bits) {
                        proof {
                            lemma_greatest_moves(speeds, so_far, bits);
                        }
                        greatest = Some(bits);
                    } else {
                        proof {
                            lemma_greatest_stays(speeds, so_far, bits);
                        }
                    }
                },
            }
        }
        i = i + 1;
    }
    assert(day.subrange(0, end - start) =~= day);
    greatest
}

} // verus!
