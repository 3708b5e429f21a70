use monsoon::binary64::order_key;
use monsoon::body::{Data, Instant, InstantDetails, NextHours, Summary, TimeSeries};
use monsoon::forecast::{
    day_runs, format_forecast, get_rows, hour_of, max_min_temperature, pick_symbols_from_hours,
    run_end, wind, Day, Hour, MinMax,
};
use monsoon::Timestamp;

fn hour(day: i32, hour: u32) -> Hour {
    Hour { day, hour, symbol: Some(format!("d{}h{}", day, hour)) }
}

fn code(day: i32, hour: u32) -> Option<String> {
    Some(format!("d{}h{}", day, hour))
}

fn hours_of(day: i32, from: u32, to: u32) -> Vec<Hour> {
    (from..to).map(|h| hour(day, h)).collect()
}

#[test]
fn a_whole_day_has_its_four_symbols() {
    let hours = hours_of(3, 0, 24);
    for idx in [0, 1, 6] {
        assert_eq!(
            pick_symbols_from_hours(idx, &hours, 0, 24),
            vec![code(3, 0), code(3, 6), code(3, 12), code(3, 18)]
        );
    }
}

#[test]
fn the_first_day_is_led_by_its_first_hour() {
    let hours = hours_of(1, 14, 24);
    assert_eq!(
        pick_symbols_from_hours(0, &hours, 0, hours.len()),
        vec![None, None, code(1, 14), code(1, 18)]
    );
    assert_eq!(
        pick_symbols_from_hours(1, &hours, 0, hours.len()),
        vec![None, None, None, code(1, 18)]
    );
}

#[test]
fn a_day_without_slots_is_blank() {
    let hours = hours_of(1, 19, 24);
    assert_eq!(pick_symbols_from_hours(2, &hours, 0, 5), vec![None, None, None, None]);
    assert_eq!(pick_symbols_from_hours(0, &hours, 0, 5), vec![None, None, None, code(1, 19)]);
}

#[test]
fn an_hour_without_a_summary_gives_a_blank() {
    let mut hours = hours_of(1, 0, 24);
    hours[6].symbol = None;
    assert_eq!(
        pick_symbols_from_hours(1, &hours, 0, 24),
        vec![code(1, 0), None, code(1, 12), code(1, 18)]
    );
}

#[test]
fn more_than_four_slots_are_all_kept() {
    let mut hours = hours_of(1, 0, 24);
    hours.push(hour(1, 18));
    assert_eq!(pick_symbols_from_hours(1, &hours, 0, 25).len(), 5);
    let led = pick_symbols_from_hours(0, &hours, 0, 25);
    assert_eq!(led.len(), 6);
    assert_eq!(led[0], code(1, 0));
    assert_eq!(led[5], code(1, 18));
}

#[test]
fn only_the_hours_of_the_day_are_read() {
    let mut hours = hours_of(1, 20, 24);
    hours.extend(hours_of(2, 0, 24));
    hours.extend(hours_of(3, 0, 3));
    assert_eq!(
        pick_symbols_from_hours(1, &hours, 4, 28),
        vec![code(2, 0), code(2, 6), code(2, 12), code(2, 18)]
    );
    assert_eq!(pick_symbols_from_hours(2, &hours, 28, 31), vec![None, None, None, code(3, 0)]);
}

#[test]
fn hours_are_split_where_the_day_changes() {
    let mut hours = hours_of(1, 20, 24);
    hours.extend(hours_of(2, 0, 24));
    hours.extend(hours_of(3, 0, 3));
    assert_eq!(run_end(&hours, 0), 4);
    assert_eq!(run_end(&hours, 2), 4);
    assert_eq!(run_end(&hours, 4), 28);
    assert_eq!(run_end(&hours, 30), 31);
    assert_eq!(day_runs(&hours, 7), vec![(0, 4), (4, 28), (28, 31)]);
    assert_eq!(day_runs(&hours, 2), vec![(0, 4), (4, 28)]);
    assert_eq!(day_runs(&hours, 0), vec![]);
    assert_eq!(day_runs(&vec![], 7), vec![]);
}

#[test]
fn a_day_that_comes_back_is_a_new_run() {
    let hours = vec![hour(1, 0), hour(2, 0), hour(1, 6), hour(1, 12)];
    assert_eq!(day_runs(&hours, 7), vec![(0, 1), (1, 2), (2, 4)]);
}

#[test]
fn the_table_shows_seven_days() {
    let mut hours = hours_of(0, 14, 24);
    for day in 1..10 {
        hours.extend(hours_of(day, 0, 24));
    }
    let days = format_forecast(&hours);
    assert_eq!(days.len(), 7);
    assert_eq!(
        days[0],
        Day { start: 0, end: 10, symbols: vec![None, None, code(0, 14), code(0, 18)] }
    );
    for (idx, day) in days.iter().enumerate().skip(1) {
        let d = idx as i32;
        assert_eq!(day.start, 10 + 24 * (idx - 1));
        assert_eq!(day.end, day.start + 24);
        assert_eq!(day.symbols, vec![code(d, 0), code(d, 6), code(d, 12), code(d, 18)]);
    }
}

#[test]
fn a_short_series_makes_a_short_table() {
    assert_eq!(format_forecast(&vec![]), vec![]);
    let hours = hours_of(5, 0, 7);
    assert_eq!(
        format_forecast(&hours),
        vec![Day { start: 0, end: 7, symbols: vec![None, code(5, 0), code(5, 0), code(5, 6)] }]
    );
}

#[test]
fn blank_cells_become_empty_text() {
    let table = vec![
        vec![Some("Monday".to_string()), None, Some("rain".to_string())],
        vec![],
        vec![None],
    ];
    assert_eq!(
        get_rows(&table),
        vec![
            vec!["Monday".to_string(), String::new(), "rain".to_string()],
            vec![],
            vec![String::new()],
        ]
    );
    assert_eq!(get_rows(&vec![]), Vec::<Vec<String>>::new());
}

fn step(seconds: i64, temperature: Option<f64>, speed: Option<f64>, symbol: Option<&str>) -> TimeSeries {
    TimeSeries {
        time: Timestamp { seconds, nanos: 0, offset: 0 },
        data: Data {
            instant: Instant {
                details: InstantDetails {
                    air_temperature: temperature.map(f64::to_bits),
                    wind_speed: speed.map(f64::to_bits),
                    ..InstantDetails::default()
                },
            },
            next_12_hours: None,
            next_1_hours: None,
            next_6_hours: symbol.map(|code| NextHours {
                details: None,
                summary: Summary { symbol_code: code.to_string() },
            }),
        },
    }
}

fn temperatures(values: &[Option<f64>]) -> Vec<TimeSeries> {
    values.iter().map(|t| step(0, *t, None, None)).collect()
}

fn speeds(values: &[Option<f64>]) -> Vec<TimeSeries> {
    values.iter().map(|s| step(0, None, *s, None)).collect()
}

fn range(values: &[Option<f64>]) -> MinMax {
    max_min_temperature(&temperatures(values), 0, values.len())
}

#[test]
fn the_hour_of_a_step_is_read_in_utc() {
    let read = hour_of(&step(1677672000, None, None, Some("rain")), 738580);
    assert_eq!(read, Hour { day: 738580, hour: 12, symbol: Some("rain".to_string()) });
    assert_eq!(hour_of(&step(1677672000 + 3599, None, None, None), 1).hour, 12);
    assert_eq!(hour_of(&step(1677672000 + 3600, None, None, None), 1).hour, 13);
    assert_eq!(hour_of(&step(0, None, None, None), 1).hour, 0);
    assert_eq!(hour_of(&step(-1, None, None, None), 1).hour, 23);
    assert_eq!(hour_of(&step(-86400, None, None, None), 1).hour, 0);
    assert_eq!(hour_of(&step(-86401, None, None, None), 1).symbol, None);
    assert_eq!(Timestamp { seconds: i64::MIN, nanos: 0, offset: 0 }.hour_of_day(), 8);
    assert_eq!(Timestamp { seconds: i64::MAX, nanos: 0, offset: 0 }.hour_of_day(), 15);
}

#[test]
fn the_range_of_the_temperatures() {
    assert_eq!(range(&[]), MinMax::NoElements);
    assert_eq!(range(&[None, None]), MinMax::NoElements);
    assert_eq!(range(&[None, Some(4.5), None]), MinMax::OneElement(4.5f64.to_bits()));
    assert_eq!(
        range(&[Some(4.5), Some(-3.25), None, Some(12.0), Some(0.0)]),
        MinMax::MinMax((-3.25f64).to_bits(), 12.0f64.to_bits())
    );
    assert_eq!(
        range(&[Some(-1.0), Some(-2.0), Some(-1.5)]),
        MinMax::MinMax((-2.0f64).to_bits(), (-1.0f64).to_bits())
    );
    assert_eq!(
        range(&[Some(7.0), Some(7.0)]),
        MinMax::MinMax(7.0f64.to_bits(), 7.0f64.to_bits())
    );
}

#[test]
fn of_equal_temperatures_the_first_is_least_and_the_last_greatest() {
    assert_eq!(
        range(&[Some(0.0), Some(-0.0), Some(0.0), Some(-0.0)]),
        MinMax::MinMax(0.0f64.to_bits(), (-0.0f64).to_bits())
    );
    assert_eq!(
        range(&[Some(-0.0), Some(1.0), Some(0.0)]),
        MinMax::MinMax((-0.0f64).to_bits(), 1.0f64.to_bits())
    );
}

#[test]
fn only_the_steps_of_the_day_count() {
    let series = temperatures(&[Some(-40.0), Some(1.0), Some(2.0), Some(3.0), Some(40.0)]);
    assert_eq!(
        max_min_temperature(&series, 1, 4),
        MinMax::MinMax(1.0f64.to_bits(), 3.0f64.to_bits())
    );
    assert_eq!(max_min_temperature(&series, 2, 3), MinMax::OneElement(2.0f64.to_bits()));
    assert_eq!(max_min_temperature(&series, 2, 2), MinMax::NoElements);
    let winds = speeds(&[Some(30.0), Some(1.0), Some(2.0), None, Some(40.0)]);
    assert_eq!(wind(&winds, 1, 4), Some(2.0f64.to_bits()));
    assert_eq!(wind(&winds, 3, 4), None);
    assert_eq!(wind(&winds, 0, 5), Some(40.0f64.to_bits()));
}

#[test]
fn the_strongest_wind() {
    assert_eq!(wind(&speeds(&[]), 0, 0), None);
    assert_eq!(wind(&speeds(&[None, None]), 0, 2), None);
    assert_eq!(wind(&speeds(&[Some(3.5)]), 0, 1), Some(3.5f64.to_bits()));
    assert_eq!(
        wind(&speeds(&[Some(3.5), Some(12.25), None, Some(0.5)]), 0, 4),
        Some(12.25f64.to_bits())
    );
    assert_eq!(
        wind(&speeds(&[Some(0.0), Some(-0.0)]), 0, 2),
        Some(0.0f64.to_bits())
    );
}

#[test]
fn keys_order_patterns_as_numbers() {
    let numbers: [f64; 13] = [
        -1e300, -180.0, -1.5, -1.0, -5e-324, 0.0, 5e-324, 1e-10, 1.0, 1.5, 2.0, 180.0, 1e300,
    ];
    for (i, a) in numbers.iter().enumerate() {
        for (j, b) in numbers.iter().enumerate() {
            assert_eq!(order_key(a.to_bits()) < order_key(b.to_bits()), i < j);
            assert_eq!(order_key(a.to_bits()) < order_key(b.to_bits()), a < b);
        }
    }
    assert_eq!(order_key(0.0f64.to_bits()), order_key((-0.0f64).to_bits()));
    let mut state: u64 = 0x0123_4567_89ab_cdef;
    for _ in 0..100_000 {
        state ^= state << 13;
        state ^= state >> 7;
        state ^= state << 17;
        let a = f64::from_bits(state);
        let b = f64::from_bits(state.rotate_left(17) ^ 0x5555);
        if a.is_finite() && b.is_finite() {
            assert_eq!(order_key(a.to_bits()) < order_key(b.to_bits()), a < b);
            assert_eq!(order_key(a.to_bits()) == order_key(b.to_bits()), a == b);
        }
    }
}
