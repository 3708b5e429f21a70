//! The forecast document: the body of a record, decoded.
//!
//! The types mirror the `complete` document of the origin field for field.
//! A measurement is a binary64 number and is held as its bit pattern; one
//! that the document does not state is `None`, which is not zero. Decoding is
//! all or nothing: a document that lacks a required member, or holds a member
//! of the wrong kind, gives no body at all.
use crate::error::{Error, Undecodable};
use crate::json::{
    chars, content, document, field, field_at, is_array, is_object, items, number, number_at,
    optional_chars, optional_number, optional_number_at, optional_text,
    mark, optional_text_at, parse, present, present_at, put, text, text_at, Json,
};
use crate::time::{datetime, parse_datetime, Timestamp};
use vstd::prelude::*;

verus! {

/// The summary of a coming period: the code of the symbol that stands for
/// its weather.
#[derive(Clone, Debug, PartialEq, Eq)]
pub struct Summary {
    pub symbol_code: String,
}

/// What a summary holds.
pub struct SummaryView {
    pub symbol_code: Seq<char>,
}

impl View for Summary {
    type V = SummaryView;

    open spec fn view(&self) -> SummaryView {
        SummaryView { symbol_code: self.symbol_code@ }
    }
}

/// The measurements that sum up a coming period.
#[derive(Clone, Copy, Debug, PartialEq, Eq, Default, Structural)]
pub struct SummaryDetails {
    pub air_temperature_max: Option<u64>,
    pub air_temperature_min: Option<u64>,
    pub precipitation_amount: Option<u64>,
    pub precipitation_amount_max: Option<u64>,
    pub precipitation_amount_min: Option<u64>,
    pub probability_of_precipitation: Option<u64>,
    pub probability_of_thunder: Option<u64>,
    pub ultraviolet_index_clear_sky_max: Option<u64>,
}

/// A coming period: its summary, and its measurements where the document
/// gives them. The origin documents the measurements as required and still
/// leaves them out at times.
#[derive(Clone, Debug, PartialEq, Eq)]
pub struct NextHours {
    pub details: Option<SummaryDetails>,
    pub summary: Summary,
}

/// What a coming period holds.
pub struct NextHoursView {
    pub details: Option<SummaryDetails>,
    pub summary: SummaryView,
}

impl View for NextHours {
    type V = NextHoursView;

    open spec fn view(&self) -> NextHoursView {
        NextHoursView { details: self.details, summary: self.summary@ }
    }
}

/// What a coming period holds, if there is one.
pub open spec fn period(next: Option<NextHours>) -> Option<NextHoursView> {
    match next {
        Some(n) => Some(n@),
        None => None,
    }
}

/// The measurements at an instant.
#[derive(Clone, Copy, Debug, PartialEq, Eq, Default, Structural)]
pub struct InstantDetails {
    pub air_pressure_at_sea_level: Option<u64>,
    pub air_temperature: Option<u64>,
    pub cloud_area_fraction: Option<u64>,
    pub cloud_area_fraction_high: Option<u64>,
    pub cloud_area_fraction_low: Option<u64>,
    pub cloud_area_fraction_medium: Option<u64>,
    pub dew_point_temperature: Option<u64>,
    pub fog_area_fraction: Option<u64>,
    pub relative_humidity: Option<u64>,
    pub ultraviolet_index_clear_sky: Option<u64>,
    pub wind_from_direction: Option<u64>,
    pub wind_speed: Option<u64>,
}

/// The state of the weather at an instant.
#[derive(Clone, Copy, Debug, PartialEq, Eq, Default, Structural)]
pub struct Instant {
    pub details: InstantDetails,
}

/// The forecast for one step of the time series: the instant, and the
/// periods of one, six and twelve hours that follow it.
#[derive(Clone, Debug, PartialEq, Eq)]
pub struct Data {
    pub instant: Instant,
    pub next_12_hours: Option<NextHours>,
    pub next_1_hours: Option<NextHours>,
    pub next_6_hours: Option<NextHours>,
}

/// What the forecast for one step holds.
pub struct DataView {
    pub instant: Instant,
    pub next_12_hours: Option<NextHoursView>,
    pub next_1_hours: Option<NextHoursView>,
    pub next_6_hours: Option<NextHoursView>,
}

impl View for Data {
    type V = DataView;

    open spec fn view(&self) -> DataView {
        DataView {
            instant: self.instant,
            next_12_hours: period(self.next_12_hours),
            next_1_hours: period(self.next_1_hours),
            next_6_hours: period(self.next_6_hours),
        }
    }
}

/// One step of the time series.
#[derive(Clone, Debug, PartialEq, Eq)]
pub struct TimeSeries {
    pub time: Timestamp,
    pub data: Data,
}

/// What a step of the time series holds.
pub struct TimeSeriesView {
    pub time: Timestamp,
    pub data: DataView,
}

impl View for TimeSeries {
    type V = TimeSeriesView;

    open spec fn view(&self) -> TimeSeriesView {
        TimeSeriesView { time: self.time, data: self.data@ }
    }
}

/// The unit in which each measurement of the document is stated. A
/// measurement that the document does not list has no unit.
#[derive(Clone, Debug, PartialEq, Eq, Default)]
pub struct Units {
    pub air_pressure_at_sea_level: Option<String>,
    pub air_temperature: Option<String>,
    pub air_temperature_max: Option<String>,
    pub air_temperature_min: Option<String>,
    pub cloud_area_fraction: Option<String>,
    pub cloud_area_fraction_high: Option<String>,
    pub cloud_area_fraction_low: Option<String>,
    pub cloud_area_fraction_medium: Option<String>,
    pub dew_point_temperature: Option<String>,
    pub fog_area_fraction: Option<String>,
    pub precipitation_amount: Option<String>,
    pub relative_humidity: Option<String>,
    pub ultraviolet_index_clear_sky: Option<String>,
    pub wind_from_direction: Option<String>,
    pub wind_speed: Option<String>,
}

/// What the units hold.
pub struct UnitsView {
    pub air_pressure_at_sea_level: Option<Seq<char>>,
    pub air_temperature: Option<Seq<char>>,
    pub air_temperature_max: Option<Seq<char>>,
    pub air_temperature_min: Option<Seq<char>>,
    pub cloud_area_fraction: Option<Seq<char>>,
    pub cloud_area_fraction_high: Option<Seq<char>>,
    pub cloud_area_fraction_low: Option<Seq<char>>,
    pub cloud_area_fraction_medium: Option<Seq<char>>,
    pub dew_point_temperature: Option<Seq<char>>,
    pub fog_area_fraction: Option<Seq<char>>,
    pub precipitation_amount: Option<Seq<char>>,
    pub relative_humidity: Option<Seq<char>>,
    pub ultraviolet_index_clear_sky: Option<Seq<char>>,
    pub wind_from_direction: Option<Seq<char>>,
    pub wind_speed: Option<Seq<char>>,
}

impl View for Units {
    type V = UnitsView;

    open spec fn view(&self) -> UnitsView {
        UnitsView {
            air_pressure_at_sea_level: chars(self.air_pressure_at_sea_level),
            air_temperature: chars(self.air_temperature),
            air_temperature_max: chars(self.air_temperature_max),
            air_temperature_min: chars(self.air_temperature_min),
            cloud_area_fraction: chars(self.cloud_area_fraction),
            cloud_area_fraction_high: chars(self.cloud_area_fraction_high),
            cloud_area_fraction_low: chars(self.cloud_area_fraction_low),
            cloud_area_fraction_medium: chars(self.cloud_area_fraction_medium),
            dew_point_temperature: chars(self.dew_point_temperature),
            fog_area_fraction: chars(self.fog_area_fraction),
            precipitation_amount: chars(self.precipitation_amount),
            relative_humidity: chars(self.relative_humidity),
            ultraviolet_index_clear_sky: chars(self.ultraviolet_index_clear_sky),
            wind_from_direction: chars(self.wind_from_direction),
            wind_speed: chars(self.wind_speed),
        }
    }
}

/// When the forecast was made, and the units of its measurements.
#[derive(Clone, Debug, PartialEq, Eq)]
pub struct Meta {
    pub updated_at: Timestamp,
    pub units: Units,
}

/// What the description of a forecast holds.
pub struct MetaView {
    pub updated_at: Timestamp,
    pub units: UnitsView,
}

impl View for Meta {
    type V = MetaView;

    open spec fn view(&self) -> MetaView {
        MetaView { updated_at: self.updated_at, units: self.units@ }
    }
}

/// The forecast itself: its description and the time series, in the order
/// of the document.
#[derive(Clone, Debug, PartialEq, Eq)]
pub struct Properties {
    pub meta: Meta,
    pub timeseries: Vec<TimeSeries>,
}

/// What a forecast holds.
pub struct PropertiesView {
    pub meta: MetaView,
    pub timeseries: Seq<TimeSeriesView>,
}

/// What the steps of a time series hold.
pub open spec fn steps(series: Seq<TimeSeries>) -> Seq<TimeSeriesView> {
    Seq::new(series.len(), |i: int| series[i]@)
}

impl View for Properties {
    type V = PropertiesView;

    open spec fn view(&self) -> PropertiesView {
        PropertiesView { meta: self.meta@, timeseries: steps(self.timeseries@) }
    }
}

/// The place of the forecast: longitude and latitude in degrees, altitude
/// in metres.
#[derive(Clone, Copy, Debug, PartialEq, Eq, Default, Structural)]
pub struct Coordinates {
    pub longitude: u64,
    pub latitude: u64,
    pub altitude: u64,
}

/// The geometry of the place, a point.
#[derive(Clone, Debug, PartialEq, Eq)]
pub struct Geometry {
    pub type_field: String,
    pub coordinates: Coordinates,
}

/// What a geometry holds.
pub struct GeometryView {
    pub type_field: Seq<char>,
    pub coordinates: Coordinates,
}

impl View for Geometry {
    type V = GeometryView;

    open spec fn view(&self) -> GeometryView {
        GeometryView { type_field: self.type_field@, coordinates: self.coordinates }
    }
}

/// The body of the "complete" document of the origin.
#[derive(Clone, Debug, PartialEq, Eq)]
pub struct Body {
    pub type_field: String,
    pub geometry: Geometry,
    pub properties: Properties,
}

/// What a body holds.
pub struct BodyView {
    pub type_field: Seq<char>,
    pub geometry: GeometryView,
    pub properties: PropertiesView,
}

impl View for Body {
    type V = BodyView;

    open spec fn view(&self) -> BodyView {
        BodyView {
            type_field: self.type_field@,
            geometry: self.geometry@,
            properties: self.properties@,
        }
    }
}

/// The summary that a value denotes, if it denotes one.
pub open spec fn summary_of(json: Json) -> Option<SummaryView> {
    match text(json, "symbol_code"@) {
        Some(code) => Some(SummaryView { symbol_code: code }),
        None => None,
    }
}

/// The measurements of a period that a value denotes: an object whose
/// listed members are numbers, `null` or missing.
pub open spec fn summary_details_of(json: Json) -> Option<SummaryDetails> {
    if json is Object
        && optional_number(json, "air_temperature_max"@) is Some
        && optional_number(json, "air_temperature_min"@) is Some
        && optional_number(json, "precipitation_amount"@) is Some
        && optional_number(json, "precipitation_amount_max"@) is Some
        && optional_number(json, "precipitation_amount_min"@) is Some
        && optional_number(json, "probability_of_precipitation"@) is Some
        && optional_number(json, "probability_of_thunder"@) is Some
        && optional_number(json, "ultraviolet_index_clear_sky_max"@) is Some
    {
        Some(
            SummaryDetails {
                air_temperature_max: optional_number(json, "air_temperature_max"@)->0,
                air_temperature_min: optional_number(json, "air_temperature_min"@)->0,
                precipitation_amount: optional_number(json, "precipitation_amount"@)->0,
                precipitation_amount_max: optional_number(json, "precipitation_amount_max"@)->0,
                precipitation_amount_min: optional_number(json, "precipitation_amount_min"@)->0,
                probability_of_precipitation: optional_number(json, "probability_of_precipitation"@)->0,
                probability_of_thunder: optional_number(json, "probability_of_thunder"@)->0,
                ultraviolet_index_clear_sky_max: optional_number(json, "ultraviolet_index_clear_sky_max"@)->0,
            },
        )
    } else {
        None
    }
}

/// The measurements of a period where the value has them under `details`:
/// `Some(None)` where it has none, `None` where they are faulty.
pub open spec fn optional_details(json: Json) -> Option<Option<SummaryDetails>> {
    match present(json, "details"@) {
        None => Some(None),
        Some(inner) => match summary_details_of(inner) {
            Some(details) => Some(Some(details)),
            None => None,
        },
    }
}

/// The coming period that a value denotes, if it denotes one: the summary
/// is required, the measurements are not.
pub open spec fn next_hours_of(json: Json) -> Option<NextHoursView> {
    match field(json, "summary"@) {
        None => None,
        Some(inner) => match (summary_of(inner), optional_details(json)) {
            (Some(summary), Some(details)) => Some(NextHoursView { details, summary }),
            _ => None,
        },
    }
}

/// The coming period that a value has under `key`: `Some(None)` where it
/// has none, `None` where the period is faulty.
pub open spec fn optional_period(json: Json, key: Seq<char>) -> Option<Option<NextHoursView>> {
    match present(json, key) {
        None => Some(None),
        Some(inner) => match next_hours_of(inner) {
            Some(next) => Some(Some(next)),
            None => None,
        },
    }
}

/// The measurements at an instant that a value denotes: an object whose
/// listed members are numbers, `null` or missing.
pub open spec fn instant_details_of(json: Json) -> Option<InstantDetails> {
    if json is Object
        && optional_number(json, "air_pressure_at_sea_level"@) is Some
        && optional_number(json, "air_temperature"@) is Some
        && optional_number(json, "cloud_area_fraction"@) is Some
        && optional_number(json, "cloud_area_fraction_high"@) is Some
        && optional_number(json, "cloud_area_fraction_low"@) is Some
        && optional_number(json, "cloud_area_fraction_medium"@) is Some
        && optional_number(json, "dew_point_temperature"@) is Some
        && optional_number(json, "fog_area_fraction"@) is Some
        && optional_number(json, "relative_humidity"@) is Some
        && optional_number(json, "ultraviolet_index_clear_sky"@) is Some
        && optional_number(json, "wind_from_direction"@) is Some
        && optional_number(json, "wind_speed"@) is Some
    {
        Some(
            InstantDetails {
                air_pressure_at_sea_level: optional_number(json, "air_pressure_at_sea_level"@)->0,
                air_temperature: optional_number(json, "air_temperature"@)->0,
                cloud_area_fraction: optional_number(json, "cloud_area_fraction"@)->0,
                cloud_area_fraction_high: optional_number(json, "cloud_area_fraction_high"@)->0,
                cloud_area_fraction_low: optional_number(json, "cloud_area_fraction_low"@)->0,
                cloud_area_fraction_medium: optional_number(json, "cloud_area_fraction_medium"@)->0,
                dew_point_temperature: optional_number(json, "dew_point_temperature"@)->0,
                fog_area_fraction: optional_number(json, "fog_area_fraction"@)->0,
                relative_humidity: optional_number(json, "relative_humidity"@)->0,
                ultraviolet_index_clear_sky: optional_number(json, "ultraviolet_index_clear_sky"@)->0,
                wind_from_direction: optional_number(json, "wind_from_direction"@)->0,
                wind_speed: optional_number(json, "wind_speed"@)->0,
            },
        )
    } else {
        None
    }
}

/// The state at an instant that a value denotes, if it denotes one.
pub open spec fn instant_of(json: Json) -> Option<Instant> {
    match field(json, "details"@) {
        None => None,
        Some(inner) => match instant_details_of(inner) {
            Some(details) => Some(Instant { details }),
            None => None,
        },
    }
}

/// The forecast for a step that a value denotes, if it denotes one.
pub open spec fn data_of(json: Json) -> Option<DataView> {
    match field(json, "instant"@) {
        None => None,
        Some(inner) => match (
            instant_of(inner),
            optional_period(json, "next_12_hours"@),
            optional_period(json, "next_1_hours"@),
            optional_period(json, "next_6_hours"@),
        ) {
            (Some(instant), Some(next_12_hours), Some(next_1_hours), Some(next_6_hours)) => Some(
                DataView { instant, next_12_hours, next_1_hours, next_6_hours },
            ),
            _ => None,
        },
    }
}

/// The instant that a member states as text.
pub open spec fn instant_at(json: Json, key: Seq<char>) -> Option<Timestamp> {
    match text(json, key) {
        Some(stated) => datetime(stated),
        None => None,
    }
}

/// The step of the time series that a value denotes, if it denotes one.
pub open spec fn time_series_of(json: Json) -> Option<TimeSeriesView> {
    match (instant_at(json, "time"@), field(json, "data"@)) {
        (Some(time), Some(inner)) => match data_of(inner) {
            Some(data) => Some(TimeSeriesView { time, data }),
            None => None,
        },
        _ => None,
    }
}

/// The time series that a value denotes, if it denotes one: an array of
/// steps.
pub open spec fn series_in(json: Json) -> Option<Seq<TimeSeriesView>> {
    match json {
        Json::Array(list) => series_of(list),
        _ => None,
    }
}

/// The time series that a list of values denotes: every value has to denote
/// a step.
pub open spec fn series_of(list: Seq<Json>) -> Option<Seq<TimeSeriesView>> {
    if forall|i: int| 0 <= i < list.len() ==> time_series_of(#[trigger] list[i]) is Some {
        Some(Seq::new(list.len(), |i: int| time_series_of(list[i])->0))
    } else {
        None
    }
}

/// The units that a value denotes: an object whose listed members are
/// texts, `null` or missing.
pub open spec fn units_of(json: Json) -> Option<UnitsView> {
    if json is Object
        && optional_text(json, "air_pressure_at_sea_level"@) is Some
        && optional_text(json, "air_temperature"@) is Some
        && optional_text(json, "air_temperature_max"@) is Some
        && optional_text(json, "air_temperature_min"@) is Some
        && optional_text(json, "cloud_area_fraction"@) is Some
        && optional_text(json, "cloud_area_fraction_high"@) is Some
        && optional_text(json, "cloud_area_fraction_low"@) is Some
        && optional_text(json, "cloud_area_fraction_medium"@) is Some
        && optional_text(json, "dew_point_temperature"@) is Some
        && optional_text(json, "fog_area_fraction"@) is Some
        && optional_text(json, "precipitation_amount"@) is Some
        && optional_text(json, "relative_humidity"@) is Some
        && optional_text(json, "ultraviolet_index_clear_sky"@) is Some
        && optional_text(json, "wind_from_direction"@) is Some
        && optional_text(json, "wind_speed"@) is Some
    {
        Some(
            UnitsView {
                air_pressure_at_sea_level: optional_text(json, "air_pressure_at_sea_level"@)->0,
                air_temperature: optional_text(json, "air_temperature"@)->0,
                air_temperature_max: optional_text(json, "air_temperature_max"@)->0,
                air_temperature_min: optional_text(json, "air_temperature_min"@)->0,
                cloud_area_fraction: optional_text(json, "cloud_area_fraction"@)->0,
                cloud_area_fraction_high: optional_text(json, "cloud_area_fraction_high"@)->0,
                cloud_area_fraction_low: optional_text(json, "cloud_area_fraction_low"@)->0,
                cloud_area_fraction_medium: optional_text(json, "cloud_area_fraction_medium"@)->0,
                dew_point_temperature: optional_text(json, "dew_point_temperature"@)->0,
                fog_area_fraction: optional_text(json, "fog_area_fraction"@)->0,
                precipitation_amount: optional_text(json, "precipitation_amount"@)->0,
                relative_humidity: optional_text(json, "relative_humidity"@)->0,
                ultraviolet_index_clear_sky: optional_text(json, "ultraviolet_index_clear_sky"@)->0,
                wind_from_direction: optional_text(json, "wind_from_direction"@)->0,
                wind_speed: optional_text(json, "wind_speed"@)->0,
            },
        )
    } else {
        None
    }
}

/// The description of a forecast that a value denotes, if it denotes one.
pub open spec fn meta_of(json: Json) -> Option<MetaView> {
    match (instant_at(json, "updated_at"@), field(json, "units"@)) {
        (Some(updated_at), Some(inner)) => match units_of(inner) {
            Some(units) => Some(MetaView { updated_at, units }),
            None => None,
        },
        _ => None,
    }
}

/// The forecast that a value denotes, if it denotes one.
pub open spec fn properties_of(json: Json) -> Option<PropertiesView> {
    match (field(json, "meta"@), field(json, "timeseries"@)) {
        (Some(inner), Some(list)) => match (meta_of(inner), series_in(list)) {
            (Some(meta), Some(timeseries)) => Some(PropertiesView { meta, timeseries }),
            _ => None,
        },
        _ => None,
    }
}

/// The place that a value denotes, if it denotes one.
pub open spec fn coordinates_of(json: Json) -> Option<Coordinates> {
    match (number(json, "longitude"@), number(json, "latitude"@), number(json, "altitude"@)) {
        (Some(longitude), Some(latitude), Some(altitude)) => Some(
            Coordinates { longitude, latitude, altitude },
        ),
        _ => None,
    }
}

/// The geometry that a value denotes, if it denotes one.
pub open spec fn geometry_of(json: Json) -> Option<GeometryView> {
    match (text(json, "type"@), field(json, "coordinates"@)) {
        (Some(type_field), Some(inner)) => match coordinates_of(inner) {
            Some(coordinates) => Some(GeometryView { type_field, coordinates }),
            None => None,
        },
        _ => None,
    }
}

/// The body that a value denotes, if it denotes one: `type`, `geometry` and
/// `properties` are required, and so is what they require in turn.
pub open spec fn body_of(json: Json) -> Option<BodyView> {
    match (text(json, "type"@), field(json, "geometry"@), field(json, "properties"@)) {
        (Some(type_field), Some(place), Some(forecast)) => match (
            geometry_of(place),
            properties_of(forecast),
        ) {
            (Some(geometry), Some(properties)) => Some(
                BodyView { type_field, geometry, properties },
            ),
            _ => None,
        },
        _ => None,
    }
}

/// What decoding a text gives: the body that the text denotes, or the
/// reason why it denotes none.
pub open spec fn decoded(raw: Seq<char>) -> Result<BodyView, Error> {
    match document(raw) {
        None => Err(Error::ResponseBody(Undecodable::Syntax)),
        Some(json) => match body_of(json) {
            None => Err(Error::ResponseBody(Undecodable::Schema)),
            Some(body) => Ok(body),
        },
    }
}

/// What was decoded, by what it holds.
pub open spec fn seen<T: View>(value: Option<T>) -> Option<T::V> {
    match value {
        Some(v) => Some(v@),
        None => None,
    }
}

/// What was decoded of a member that may be missing, by what it holds.
pub open spec fn seen_optional<T: View>(value: Option<Option<T>>) -> Option<Option<T::V>> {
    match value {
        Some(inner) => Some(seen(inner)),
        None => None,
    }
}

/// Decodes a summary.
pub fn decode_summary(value: &serde_json::Value) -> (r: Option<Summary>)
    ensures
        seen(r) == summary_of(content(*value)),
{
    match text_at(value, "symbol_code") {
        Some(symbol_code) => Some(Summary { symbol_code }),
        None => None,
    }
}

/// Decodes the measurements of a period.
pub fn decode_summary_details(value: &serde_json::Value) -> (r: Option<SummaryDetails>)
    ensures
        r == summary_details_of(content(*value)),
{
    if !is_object(value) {
        return None;
    }
    let air_temperature_max: Option<u64> = optional_number_at(value, "air_temperature_max")?;
    let air_temperature_min: Option<u64> = optional_number_at(value, "air_temperature_min")?;
    let precipitation_amount: Option<u64> = optional_number_at(value, "precipitation_amount")?;
    let precipitation_amount_max: Option<u64> = optional_number_at(value, "precipitation_amount_max")?;
    let precipitation_amount_min: Option<u64> = optional_number_at(value, "precipitation_amount_min")?;
    let probability_of_precipitation: Option<u64> = optional_number_at(value, "probability_of_precipitation")?;
    let probability_of_thunder: Option<u64> = optional_number_at(value, "probability_of_thunder")?;
    let ultraviolet_index_clear_sky_max: Option<u64> = optional_number_at(value, "ultraviolet_index_clear_sky_max")?;
    Some(
        SummaryDetails {
            air_temperature_max,
            air_temperature_min,
            precipitation_amount,
            precipitation_amount_max,
            precipitation_amount_min,
            probability_of_precipitation,
            probability_of_thunder,
            ultraviolet_index_clear_sky_max,
        },
    )
}

/// Decodes a coming period.
pub fn decode_next_hours(value: &serde_json::Value) -> (r: Option<NextHours>)
    ensures
        seen(r) == next_hours_of(content(*value)),
{
    let summary: Summary = decode_summary(field_at(value, "summary")?)?;
    let details: Option<SummaryDetails> = match present_at(value, "details") {
        None => None,
        Some(inner) => Some(decode_summary_details(inner)?),
    };
    Some(NextHours { details, summary })
}

/// Decodes the coming period under `key`, if there is one.
pub fn decode_optional_period(value: &serde_json::Value, key: &str) -> (r: Option<
    Option<NextHours>,
>)
    ensures
        seen_optional(r) == optional_period(content(*value), key@),
{
    match present_at(value, key) {
        None => Some(None),
        Some(inner) => Some(Some(decode_next_hours(inner)?)),
    }
}

/// Decodes the measurements at an instant.
pub fn decode_instant_details(value: &serde_json::Value) -> (r: Option<InstantDetails>)
    ensures
        r == instant_details_of(content(*value)),
{
    if !is_object(value) {
        return None;
    }
    let air_pressure_at_sea_level: Option<u64> = optional_number_at(value, "air_pressure_at_sea_level")?;
    let air_temperature: Option<u64> = optional_number_at(value, "air_temperature")?;
    let cloud_area_fraction: Option<u64> = optional_number_at(value, "cloud_area_fraction")?;
    let cloud_area_fraction_high: Option<u64> = optional_number_at(value, "cloud_area_fraction_high")?;
    let cloud_area_fraction_low: Option<u64> = optional_number_at(value, "cloud_area_fraction_low")?;
    let cloud_area_fraction_medium: Option<u64> = optional_number_at(value, "cloud_area_fraction_medium")?;
    let dew_point_temperature: Option<u64> = optional_number_at(value, "dew_point_temperature")?;
    let fog_area_fraction: Option<u64> = optional_number_at(value, "fog_area_fraction")?;
    let relative_humidity: Option<u64> = optional_number_at(value, "relative_humidity")?;
    let ultraviolet_index_clear_sky: Option<u64> = optional_number_at(value, "ultraviolet_index_clear_sky")?;
    let wind_from_direction: Option<u64> = optional_number_at(value, "wind_from_direction")?;
    let wind_speed: Option<u64> = optional_number_at(value, "wind_speed")?;
    Some(
        InstantDetails {
            air_pressure_at_sea_level,
            air_temperature,
            cloud_area_fraction,
            cloud_area_fraction_high,
            cloud_area_fraction_low,
            cloud_area_fraction_medium,
            dew_point_temperature,
            fog_area_fraction,
            relative_humidity,
            ultraviolet_index_clear_sky,
            wind_from_direction,
            wind_speed,
        },
    )
}

/// Decodes the state at an instant.
pub fn decode_instant(value: &serde_json::Value) -> (r: Option<Instant>)
    ensures
        r == instant_of(content(*value)),
{
    let details: InstantDetails = decode_instant_details(field_at(value, "details")?)?;
    Some(Instant { details })
}

/// Decodes the forecast for a step.
pub fn decode_data(value: &serde_json::Value) -> (r: Option<Data>)
    ensures
        seen(r) == data_of(content(*value)),
{
    let instant: Instant = decode_instant(field_at(value, "instant")?)?;
    let next_12_hours: Option<NextHours> = decode_optional_period(value, "next_12_hours")?;
    let next_1_hours: Option<NextHours> = decode_optional_period(value, "next_1_hours")?;
    let next_6_hours: Option<NextHours> = decode_optional_period(value, "next_6_hours")?;
    Some(Data { instant, next_12_hours, next_1_hours, next_6_hours })
}

/// Reads the instant that a member states as text.
pub fn decode_instant_at(value: &serde_json::Value, key: &str) -> (r: Option<Timestamp>)
    ensures
        r == instant_at(content(*value), key@),
{
    let stated: String = text_at(value, key)?;
    parse_datetime(stated.as_str())
}

/// Decodes a step of the time series.
pub fn decode_time_series(value: &serde_json::Value) -> (r: Option<TimeSeries>)
    ensures
        seen(r) == time_series_of(content(*value)),
{
    let time: Timestamp = decode_instant_at(value, "time")?;
    let data: Data = decode_data(field_at(value, "data")?)?;
    Some(TimeSeries { time, data })
}

/// Decodes the time series: the value has to be an array, and every item
/// of it a step.
pub fn decode_series(value: &serde_json::Value) -> (r: Option<Vec<TimeSeries>>)
    ensures
        match series_in(content(*value)) {
            Some(series) => r matches Some(list) && steps(list@) == series,
            None => r is None,
        },
{
    if !is_array(value) {
        return None;
    }
    let list = items(value);
    let ghost denoted = content(*value)->Array_0;
    let mut series: Vec<TimeSeries> = Vec::new();
    let mut i: usize = 0;
    while i < list.len()
        invariant
            i <= list.len(),
            denoted == content(*value)->Array_0,
            list@.len() == denoted.len(),
            forall|k: int| 0 <= k < denoted.len() ==> content(#[trigger] list@[k]) == denoted[k],
            series@.len() == i,
            forall|k: int|
                0 <= k < i ==> time_series_of(#[trigger] denoted[k]) == Some(series@[k]@),
        decreases list.len() - i,
    {
        assert(content(list@[i as int]) == denoted[i as int]);
        match decode_time_series(&list[i]) {
            None => {
                assert(time_series_of(denoted[i as int]) is None);
                return None;
            },
            Some(step) => {
                series.push(step);
            },
        }
        i = i + 1;
    }
    assert(steps(series@) =~= series_of(denoted)->0);
    Some(series)
}

/// Decodes the units.
pub fn decode_units(value: &serde_json::Value) -> (r: Option<Units>)
    ensures
        seen(r) == units_of(content(*value)),
{
    if !is_object(value) {
        return None;
    }
    let air_pressure_at_sea_level: Option<String> = optional_text_at(value, "air_pressure_at_sea_level")?;
    let air_temperature: Option<String> = optional_text_at(value, "air_temperature")?;
    let air_temperature_max: Option<String> = optional_text_at(value, "air_temperature_max")?;
    let air_temperature_min: Option<String> = optional_text_at(value, "air_temperature_min")?;
    let cloud_area_fraction: Option<String> = optional_text_at(value, "cloud_area_fraction")?;
    let cloud_area_fraction_high: Option<String> = optional_text_at(value, "cloud_area_fraction_high")?;
    let cloud_area_fraction_low: Option<String> = optional_text_at(value, "cloud_area_fraction_low")?;
    let cloud_area_fraction_medium: Option<String> = optional_text_at(value, "cloud_area_fraction_medium")?;
    let dew_point_temperature: Option<String> = optional_text_at(value, "dew_point_temperature")?;
    let fog_area_fraction: Option<String> = optional_text_at(value, "fog_area_fraction")?;
    let precipitation_amount: Option<String> = optional_text_at(value, "precipitation_amount")?;
    let relative_humidity: Option<String> = optional_text_at(value, "relative_humidity")?;
    let ultraviolet_index_clear_sky: Option<String> = optional_text_at(value, "ultraviolet_index_clear_sky")?;
    let wind_from_direction: Option<String> = optional_text_at(value, "wind_from_direction")?;
    let wind_speed: Option<String> = optional_text_at(value, "wind_speed")?;
    Some(
        Units {
            air_pressure_at_sea_level,
            air_temperature,
            air_temperature_max,
            air_temperature_min,
            cloud_area_fraction,
            cloud_area_fraction_high,
            cloud_area_fraction_low,
            cloud_area_fraction_medium,
            dew_point_temperature,
            fog_area_fraction,
            precipitation_amount,
            relative_humidity,
            ultraviolet_index_clear_sky,
            wind_from_direction,
            wind_speed,
        },
    )
}

/// Decodes the description of a forecast.
pub fn decode_meta(value: &serde_json::Value) -> (r: Option<Meta>)
    ensures
        seen(r) == meta_of(content(*value)),
{
    let updated_at: Timestamp = decode_instant_at(value, "updated_at")?;
    let units: Units = decode_units(field_at(value, "units")?)?;
    Some(Meta { updated_at, units })
}

/// Decodes a forecast.
pub fn decode_properties(value: &serde_json::Value) -> (r: Option<Properties>)
    ensures
        seen(r) == properties_of(content(*value)),
{
    let inner: &serde_json::Value = field_at(value, "meta")?;
    let list: &serde_json::Value = field_at(value, "timeseries")?;
    let meta: Meta = decode_meta(inner)?;
    let timeseries: Vec<TimeSeries> = decode_series(list)?;
    Some(Properties { meta, timeseries })
}

/// Decodes a place.
pub fn decode_coordinates(value: &serde_json::Value) -> (r: Option<Coordinates>)
    ensures
        r == coordinates_of(content(*value)),
{
    let longitude: u64 = number_at(value, "longitude")?;
    let latitude: u64 = number_at(value, "latitude")?;
    let altitude: u64 = number_at(value, "altitude")?;
    Some(Coordinates { longitude, latitude, altitude })
}

/// Decodes a geometry.
pub fn decode_geometry(value: &serde_json::Value) -> (r: Option<Geometry>)
    ensures
        seen(r) == geometry_of(content(*value)),
{
    let type_field: String = text_at(value, "type")?;
    let coordinates: Coordinates = decode_coordinates(field_at(value, "coordinates")?)?;
    Some(Geometry { type_field, coordinates })
}

/// Decodes the body that a JSON value denotes.
pub fn decode_value(value: &serde_json::Value) -> (r: Option<Body>)
    ensures
        seen(r) == body_of(content(*value)),
{
    let type_field: String = text_at(value, "type")?;
    let place: &serde_json::Value = field_at(value, "geometry")?;
    let forecast: &serde_json::Value = field_at(value, "properties")?;
    let geometry: Geometry = decode_geometry(place)?;
    let properties: Properties = decode_properties(forecast)?;
    Some(Body { type_field, geometry, properties })
}

/// What a decoding returns, with the body by what it holds.
pub open spec fn result(r: Result<Body, Error>) -> Result<BodyView, Error> {
    match r {
        Ok(body) => Ok(body@),
        Err(e) => Err(e),
    }
}

/// Decodes a body from its text. The whole text is read in one pass; the
/// same text always gives the same body.
pub fn decode(raw: &str) -> (r: Result<Body, Error>)
    ensures
        result(r) == decoded(raw@),
{
    match parse(raw) {
        None => Err(Error::ResponseBody(Undecodable::Syntax)),
        Some(value) => match decode_value(&value) {
            None => Err(Error::ResponseBody(Undecodable::Schema)),
            Some(body) => Ok(body),
        },
    }
}


/// The measurement of a period that goes by the given name, if the name is
/// one of a measurement and the measurement is there.
pub open spec fn summary_member(details: SummaryDetails, name: Seq<char>) -> Option<u64> {
    if name == "air_temperature_max"@ {
        details.air_temperature_max
    } else if name == "air_temperature_min"@ {
        details.air_temperature_min
    } else if name == "precipitation_amount"@ {
        details.precipitation_amount
    } else if name == "precipitation_amount_max"@ {
        details.precipitation_amount_max
    } else if name == "precipitation_amount_min"@ {
        details.precipitation_amount_min
    } else if name == "probability_of_precipitation"@ {
        details.probability_of_precipitation
    } else if name == "probability_of_thunder"@ {
        details.probability_of_thunder
    } else if name == "ultraviolet_index_clear_sky_max"@ {
        details.ultraviolet_index_clear_sky_max
    } else {
        None
    }
}

/// The object that states the given measurements of a period: a member for
/// each measurement that is there.
pub open spec fn encode_summary_details(details: SummaryDetails) -> Json {
    Json::Object(
        Map::new(
            |name: Seq<char>| summary_member(details, name) is Some,
            |name: Seq<char>| Json::Number(summary_member(details, name)->0),
        ),
    )
}

/// The measurement at an instant that goes by the given name, if the name
/// is one of a measurement and the measurement is there.
pub open spec fn instant_member(details: InstantDetails, name: Seq<char>) -> Option<u64> {
    if name == "air_pressure_at_sea_level"@ {
        details.air_pressure_at_sea_level
    } else if name == "air_temperature"@ {
        details.air_temperature
    } else if name == "cloud_area_fraction"@ {
        details.cloud_area_fraction
    } else if name == "cloud_area_fraction_high"@ {
        details.cloud_area_fraction_high
    } else if name == "cloud_area_fraction_low"@ {
        details.cloud_area_fraction_low
    } else if name == "cloud_area_fraction_medium"@ {
        details.cloud_area_fraction_medium
    } else if name == "dew_point_temperature"@ {
        details.dew_point_temperature
    } else if name == "fog_area_fraction"@ {
        details.fog_area_fraction
    } else if name == "relative_humidity"@ {
        details.relative_humidity
    } else if name == "ultraviolet_index_clear_sky"@ {
        details.ultraviolet_index_clear_sky
    } else if name == "wind_from_direction"@ {
        details.wind_from_direction
    } else if name == "wind_speed"@ {
        details.wind_speed
    } else {
        None
    }
}

/// The object that states the given measurements at an instant: a member
/// for each measurement that is there.
pub open spec fn encode_instant_details(details: InstantDetails) -> Json {
    Json::Object(
        Map::new(
            |name: Seq<char>| instant_member(details, name) is Some,
            |name: Seq<char>| Json::Number(instant_member(details, name)->0),
        ),
    )
}

/// The unit that goes by the given name, if the name is one of a
/// measurement and the unit is there.
pub open spec fn unit_member(units: UnitsView, name: Seq<char>) -> Option<Seq<char>> {
    if name == "air_pressure_at_sea_level"@ {
        units.air_pressure_at_sea_level
    } else if name == "air_temperature"@ {
        units.air_temperature
    } else if name == "air_temperature_max"@ {
        units.air_temperature_max
    } else if name == "air_temperature_min"@ {
        units.air_temperature_min
    } else if name == "cloud_area_fraction"@ {
        units.cloud_area_fraction
    } else if name == "cloud_area_fraction_high"@ {
        units.cloud_area_fraction_high
    } else if name == "cloud_area_fraction_low"@ {
        units.cloud_area_fraction_low
    } else if name == "cloud_area_fraction_medium"@ {
        units.cloud_area_fraction_medium
    } else if name == "dew_point_temperature"@ {
        units.dew_point_temperature
    } else if name == "fog_area_fraction"@ {
        units.fog_area_fraction
    } else if name == "precipitation_amount"@ {
        units.precipitation_amount
    } else if name == "relative_humidity"@ {
        units.relative_humidity
    } else if name == "ultraviolet_index_clear_sky"@ {
        units.ultraviolet_index_clear_sky
    } else if name == "wind_from_direction"@ {
        units.wind_from_direction
    } else if name == "wind_speed"@ {
        units.wind_speed
    } else {
        None
    }
}

/// The object that states the given units: a member for each unit that is
/// there.
pub open spec fn encode_units(units: UnitsView) -> Json {
    Json::Object(
        Map::new(
            |name: Seq<char>| unit_member(units, name) is Some,
            |name: Seq<char>| Json::String(unit_member(units, name)->0),
        ),
    )
}

/// The object that states the given summary.
pub open spec fn encode_summary(summary: SummaryView) -> Json {
    Json::Object(Map::<Seq<char>, Json>::empty().insert("symbol_code"@, Json::String(summary.symbol_code)))
}

/// The measurements of a period as a member, if there are any.
pub open spec fn details_member(details: Option<SummaryDetails>) -> Option<Json> {
    match details {
        Some(d) => Some(encode_summary_details(d)),
        None => None,
    }
}

/// The object that states the given period.
pub open spec fn encode_next_hours(next: NextHoursView) -> Json {
    Json::Object(
        put(
            Map::<Seq<char>, Json>::empty().insert("summary"@, encode_summary(next.summary)),
            "details"@,
            details_member(next.details),
        ),
    )
}

/// A period as a member, if there is one.
pub open spec fn period_member(next: Option<NextHoursView>) -> Option<Json> {
    match next {
        Some(n) => Some(encode_next_hours(n)),
        None => None,
    }
}

/// The object that states the given state at an instant.
pub open spec fn encode_instant(instant: Instant) -> Json {
    Json::Object(
        Map::<Seq<char>, Json>::empty().insert("details"@, encode_instant_details(instant.details)),
    )
}

/// The object that states the given forecast for a step.
pub open spec fn encode_data(data: DataView) -> Json {
    Json::Object(
        put(
            put(
                put(
                    Map::<Seq<char>, Json>::empty().insert("instant"@, encode_instant(data.instant)),
                    "next_12_hours"@,
                    period_member(data.next_12_hours),
                ),
                "next_1_hours"@,
                period_member(data.next_1_hours),
            ),
            "next_6_hours"@,
            period_member(data.next_6_hours),
        ),
    )
}

/// The object that states the given step, its instant written as `spell`
/// writes it.
pub open spec fn encode_time_series(step: TimeSeriesView, spell: spec_fn(Timestamp) -> Seq<char>) -> Json {
    Json::Object(
        Map::<Seq<char>, Json>::empty().insert("time"@, Json::String(spell(step.time))).insert(
            "data"@,
            encode_data(step.data),
        ),
    )
}

/// The object that states the given description of a forecast.
pub open spec fn encode_meta(meta: MetaView, spell: spec_fn(Timestamp) -> Seq<char>) -> Json {
    Json::Object(
        Map::<Seq<char>, Json>::empty().insert(
            "updated_at"@,
            Json::String(spell(meta.updated_at)),
        ).insert("units"@, encode_units(meta.units)),
    )
}

/// The object that states the given forecast.
pub open spec fn encode_properties(
    properties: PropertiesView,
    spell: spec_fn(Timestamp) -> Seq<char>,
) -> Json {
    Json::Object(
        Map::<Seq<char>, Json>::empty().insert("meta"@, encode_meta(properties.meta, spell)).insert(
            "timeseries"@,
            Json::Array(
                Seq::new(
                    properties.timeseries.len(),
                    |i: int| encode_time_series(properties.timeseries[i], spell),
                ),
            ),
        ),
    )
}

/// The object that states the given place.
pub open spec fn encode_coordinates(place: Coordinates) -> Json {
    Json::Object(
        Map::<Seq<char>, Json>::empty().insert("longitude"@, Json::Number(place.longitude)).insert(
            "latitude"@,
            Json::Number(place.latitude),
        ).insert("altitude"@, Json::Number(place.altitude)),
    )
}

/// The object that states the given geometry.
pub open spec fn encode_geometry(geometry: GeometryView) -> Json {
    Json::Object(
        Map::<Seq<char>, Json>::empty().insert("type"@, Json::String(geometry.type_field)).insert(
            "coordinates"@,
            encode_coordinates(geometry.coordinates),
        ),
    )
}

/// The document that states the given body, its instants written as `spell`
/// writes them.
pub open spec fn encode(body: BodyView, spell: spec_fn(Timestamp) -> Seq<char>) -> Json {
    Json::Object(
        Map::<Seq<char>, Json>::empty().insert("type"@, Json::String(body.type_field)).insert(
            "geometry"@,
            encode_geometry(body.geometry),
        ).insert("properties"@, encode_properties(body.properties, spell)),
    )
}

/// `spell` writes every instant of the body so that it is read back as the
/// same instant.
pub open spec fn spells(spell: spec_fn(Timestamp) -> Seq<char>, body: BodyView) -> bool {
    &&& datetime(spell(body.properties.meta.updated_at)) == Some(body.properties.meta.updated_at)
    &&& forall|i: int|
        0 <= i < body.properties.timeseries.len() ==> datetime(
            spell((#[trigger] body.properties.timeseries[i]).time),
        ) == Some(body.properties.timeseries[i].time)
}

/// The measurements of a period are decoded as they were stated.
pub proof fn lemma_summary_details_round_trip(details: SummaryDetails)
    ensures
        summary_details_of(encode_summary_details(details)) == Some(details),
{
    reveal_strlit("air_temperature_max");
    assert(mark("air_temperature_max"@) == (19nat, 'a', 'x'));
    reveal_strlit("air_temperature_min");
    assert(mark("air_temperature_min"@) == (19nat, 'a', 'n'));
    reveal_strlit("precipitation_amount");
    assert(mark("precipitation_amount"@) == (20nat, 'p', 't'));
    reveal_strlit("precipitation_amount_max");
    assert(mark("precipitation_amount_max"@) == (24nat, 'p', 'x'));
    reveal_strlit("precipitation_amount_min");
    assert(mark("precipitation_amount_min"@) == (24nat, 'p', 'n'));
    reveal_strlit("probability_of_precipitation");
    assert(mark("probability_of_precipitation"@) == (28nat, 'p', 'n'));
    reveal_strlit("probability_of_thunder");
    assert(mark("probability_of_thunder"@) == (22nat, 'p', 'r'));
    reveal_strlit("ultraviolet_index_clear_sky_max");
    assert(mark("ultraviolet_index_clear_sky_max"@) == (31nat, 'u', 'x'));
}

/// The measurements at an instant are decoded as they were stated.
pub proof fn lemma_instant_details_round_trip(details: InstantDetails)
    ensures
        instant_details_of(encode_instant_details(details)) == Some(details),
{
    reveal_strlit("air_pressure_at_sea_level");
    assert(mark("air_pressure_at_sea_level"@) == (25nat, 'a', 'l'));
    reveal_strlit("air_temperature");
    assert(mark("air_temperature"@) == (15nat, 'a', 'e'));
    reveal_strlit("cloud_area_fraction");
    assert(mark("cloud_area_fraction"@) == (19nat, 'c', 'n'));
    reveal_strlit("cloud_area_fraction_high");
    assert(mark("cloud_area_fraction_high"@) == (24nat, 'c', 'h'));
    reveal_strlit("cloud_area_fraction_low");
    assert(mark("cloud_area_fraction_low"@) == (23nat, 'c', 'w'));
    reveal_strlit("cloud_area_fraction_medium");
    assert(mark("cloud_area_fraction_medium"@) == (26nat, 'c', 'm'));
    reveal_strlit("dew_point_temperature");
    assert(mark("dew_point_temperature"@) == (21nat, 'd', 'e'));
    reveal_strlit("fog_area_fraction");
    assert(mark("fog_area_fraction"@) == (17nat, 'f', 'n'));
    reveal_strlit("relative_humidity");
    assert(mark("relative_humidity"@) == (17nat, 'r', 'y'));
    reveal_strlit("ultraviolet_index_clear_sky");
    assert(mark("ultraviolet_index_clear_sky"@) == (27nat, 'u', 'y'));
    reveal_strlit("wind_from_direction");
    assert(mark("wind_from_direction"@) == (19nat, 'w', 'n'));
    reveal_strlit("wind_speed");
    assert(mark("wind_speed"@) == (10nat, 'w', 'd'));
}

/// The units are decoded as they were stated.
pub proof fn lemma_units_round_trip(units: UnitsView)
    ensures
        units_of(encode_units(units)) == Some(units),
{
    reveal_strlit("air_pressure_at_sea_level");
    assert(mark("air_pressure_at_sea_level"@) == (25nat, 'a', 'l'));
    reveal_strlit("air_temperature");
    assert(mark("air_temperature"@) == (15nat, 'a', 'e'));
    reveal_strlit("air_temperature_max");
    assert(mark("air_temperature_max"@) == (19nat, 'a', 'x'));
    reveal_strlit("air_temperature_min");
    assert(mark("air_temperature_min"@) == (19nat, 'a', 'n'));
    reveal_strlit("cloud_area_fraction");
    assert(mark("cloud_area_fraction"@) == (19nat, 'c', 'n'));
    reveal_strlit("cloud_area_fraction_high");
    assert(mark("cloud_area_fraction_high"@) == (24nat, 'c', 'h'));
    reveal_strlit("cloud_area_fraction_low");
    assert(mark("cloud_area_fraction_low"@) == (23nat, 'c', 'w'));
    reveal_strlit("cloud_area_fraction_medium");
    assert(mark("cloud_area_fraction_medium"@) == (26nat, 'c', 'm'));
    reveal_strlit("dew_point_temperature");
    assert(mark("dew_point_temperature"@) == (21nat, 'd', 'e'));
    reveal_strlit("fog_area_fraction");
    assert(mark("fog_area_fraction"@) == (17nat, 'f', 'n'));
    reveal_strlit("precipitation_amount");
    assert(mark("precipitation_amount"@) == (20nat, 'p', 't'));
    reveal_strlit("relative_humidity");
    assert(mark("relative_humidity"@) == (17nat, 'r', 'y'));
    reveal_strlit("ultraviolet_index_clear_sky");
    assert(mark("ultraviolet_index_clear_sky"@) == (27nat, 'u', 'y'));
    reveal_strlit("wind_from_direction");
    assert(mark("wind_from_direction"@) == (19nat, 'w', 'n'));
    reveal_strlit("wind_speed");
    assert(mark("wind_speed"@) == (10nat, 'w', 'd'));
}

/// A period is decoded as it was stated.
pub proof fn lemma_next_hours_round_trip(next: NextHoursView)
    ensures
        next_hours_of(encode_next_hours(next)) == Some(next),
{
    reveal_strlit("symbol_code");
    assert(mark("symbol_code"@) == (11nat, 's', 'e'));
    reveal_strlit("summary");
    assert(mark("summary"@) == (7nat, 's', 'y'));
    reveal_strlit("details");
    assert(mark("details"@) == (7nat, 'd', 's'));
    if next.details is Some {
        lemma_summary_details_round_trip(next.details->0);
    }
}

/// The forecast for a step is decoded as it was stated.
pub proof fn lemma_data_round_trip(data: DataView)
    ensures
        data_of(encode_data(data)) == Some(data),
{
    reveal_strlit("details");
    assert(mark("details"@) == (7nat, 'd', 's'));
    reveal_strlit("instant");
    assert(mark("instant"@) == (7nat, 'i', 't'));
    reveal_strlit("next_12_hours");
    assert(mark("next_12_hours"@) == (13nat, 'n', 's'));
    reveal_strlit("next_1_hours");
    assert(mark("next_1_hours"@) == (12nat, 'n', 's'));
    reveal_strlit("next_6_hours");
    assert(mark("next_6_hours"@) == (12nat, 'n', 's'));
    assert("next_1_hours"@[5] != "next_6_hours"@[5]);
    lemma_instant_details_round_trip(data.instant.details);
    if data.next_12_hours is Some {
        lemma_next_hours_round_trip(data.next_12_hours->0);
    }
    if data.next_1_hours is Some {
        lemma_next_hours_round_trip(data.next_1_hours->0);
    }
    if data.next_6_hours is Some {
        lemma_next_hours_round_trip(data.next_6_hours->0);
    }
}

/// Round trip: a body that is stated as a document is decoded as the same
/// body, whatever it holds, provided that its instants are written so that
/// they are read back as themselves.
pub proof fn lemma_round_trip(body: BodyView, spell: spec_fn(Timestamp) -> Seq<char>)
    ensures
        spells(spell, body) ==> body_of(encode(body, spell)) == Some(body),
{
    if spells(spell, body) {
        reveal_strlit("type");
        assert(mark("type"@) == (4nat, 't', 'e'));
        reveal_strlit("geometry");
        assert(mark("geometry"@) == (8nat, 'g', 'y'));
        reveal_strlit("properties");
        assert(mark("properties"@) == (10nat, 'p', 's'));
        reveal_strlit("coordinates");
        assert(mark("coordinates"@) == (11nat, 'c', 's'));
        reveal_strlit("longitude");
        assert(mark("longitude"@) == (9nat, 'l', 'e'));
        reveal_strlit("latitude");
        assert(mark("latitude"@) == (8nat, 'l', 'e'));
        reveal_strlit("altitude");
        assert(mark("altitude"@) == (8nat, 'a', 'e'));
        reveal_strlit("meta");
        assert(mark("meta"@) == (4nat, 'm', 'a'));
        reveal_strlit("timeseries");
        assert(mark("timeseries"@) == (10nat, 't', 's'));
        reveal_strlit("updated_at");
        assert(mark("updated_at"@) == (10nat, 'u', 't'));
        reveal_strlit("units");
        assert(mark("units"@) == (5nat, 'u', 's'));
        reveal_strlit("time");
        assert(mark("time"@) == (4nat, 't', 'e'));
        reveal_strlit("data");
        assert(mark("data"@) == (4nat, 'd', 'a'));
        lemma_units_round_trip(body.properties.meta.units);
        let series = body.properties.timeseries;
        let list = Seq::new(series.len(), |i: int| encode_time_series(series[i], spell));
        assert forall|i: int| 0 <= i < list.len() implies time_series_of(#[trigger] list[i])
            == Some(series[i]) by {
            lemma_data_round_trip(series[i].data);
            assert(datetime(spell(series[i].time)) == Some(series[i].time));
        }
        assert(series_of(list) == Some(series)) by {
            assert(series_of(list)->0 =~= series);
        }
        assert(coordinates_of(encode_coordinates(body.geometry.coordinates)) == Some(
            body.geometry.coordinates,
        ));
        assert(geometry_of(encode_geometry(body.geometry)) == Some(body.geometry));
        assert(meta_of(encode_meta(body.properties.meta, spell)) == Some(body.properties.meta));
        assert(properties_of(encode_properties(body.properties, spell)) == Some(body.properties));
    }
}

/// Decoding is repeatable: whatever two decodings of one text return, they
/// return the same.
pub proof fn lemma_decoding_is_repeatable(
    raw: Seq<char>,
    first: Result<Body, Error>,
    second: Result<Body, Error>,
)
    requires
        result(first) == decoded(raw),
        result(second) == decoded(raw),
    ensures
        result(first) == result(second),
{
}

} // verus!
