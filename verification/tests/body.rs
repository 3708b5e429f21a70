use monsoon::body::{
    decode, Body, Coordinates, Data, Geometry, Instant, InstantDetails, Meta, NextHours,
    Properties, Summary, SummaryDetails, TimeSeries, Units,
};
use monsoon::error::Undecodable;
use monsoon::{Client, Error, Exchange, Header, Params, Reply, Timestamp};

const DOCUMENT: &str = r#"{
  "type": "Feature",
  "geometry": { "type": "Point", "coordinates": { "longitude": 14.4207, "latitude": 50.088, "altitude": 202 } },
  "properties": {
    "meta": {
      "updated_at": "2023-03-01T11:34:54Z",
      "units": { "air_temperature": "celsius", "wind_speed": "m/s", "precipitation_amount": null }
    },
    "timeseries": [
      {
        "time": "2023-03-01T12:00:00Z",
        "data": {
          "instant": { "details": { "air_temperature": 4.5, "wind_speed": 2, "fog_area_fraction": null } },
          "next_1_hours": { "summary": { "symbol_code": "cloudy" }, "details": { "precipitation_amount": 0.0 } },
          "next_6_hours": { "summary": { "symbol_code": "rain" } },
          "next_12_hours": null
        }
      },
      {
        "time": "2023-03-01T13:00:00+01:00",
        "data": {
          "instant": { "details": {} },
          "unknown": [1, 2, 3]
        }
      }
    ]
  },
  "extra": true
}"#;

fn number(x: f64) -> Option<u64> {
    Some(x.to_bits())
}

fn text(s: &str) -> Option<String> {
    Some(s.to_string())
}

fn expected() -> Body {
    Body {
        type_field: "Feature".to_string(),
        geometry: Geometry {
            type_field: "Point".to_string(),
            coordinates: Coordinates {
                longitude: 14.4207f64.to_bits(),
                latitude: 50.088f64.to_bits(),
                altitude: 202.0f64.to_bits(),
            },
        },
        properties: Properties {
            meta: Meta {
                updated_at: Timestamp { seconds: 1677670494, nanos: 0, offset: 0 },
                units: Units {
                    air_temperature: text("celsius"),
                    wind_speed: text("m/s"),
                    ..Units::default()
                },
            },
            timeseries: vec![
                TimeSeries {
                    time: Timestamp { seconds: 1677672000, nanos: 0, offset: 0 },
                    data: Data {
                        instant: Instant {
                            details: InstantDetails {
                                air_temperature: number(4.5),
                                wind_speed: number(2.0),
                                ..InstantDetails::default()
                            },
                        },
                        next_12_hours: None,
                        next_1_hours: Some(NextHours {
                            details: Some(SummaryDetails {
                                precipitation_amount: number(0.0),
                                ..SummaryDetails::default()
                            }),
                            summary: Summary { symbol_code: "cloudy".to_string() },
                        }),
                        next_6_hours: Some(NextHours {
                            details: None,
                            summary: Summary { symbol_code: "rain".to_string() },
                        }),
                    },
                },
                TimeSeries {
                    time: Timestamp { seconds: 1677672000, nanos: 0, offset: 0 },
                    data: Data {
                        instant: Instant { details: InstantDetails::default() },
                        next_12_hours: None,
                        next_1_hours: None,
                        next_6_hours: None,
                    },
                },
            ],
        },
    }
}

fn with(pattern: &str, replacement: &str) -> String {
    assert!(DOCUMENT.contains(pattern));
    DOCUMENT.replacen(pattern, replacement, 1)
}

fn schema(document: &str) {
    assert_eq!(decode(document).unwrap_err(), Error::ResponseBody(Undecodable::Schema));
}

#[test]
fn a_document_is_decoded_field_for_field() {
    assert_eq!(decode(DOCUMENT).unwrap(), expected());
}

#[test]
fn decoding_twice_gives_equal_bodies() {
    assert_eq!(decode(DOCUMENT).unwrap(), decode(DOCUMENT).unwrap());
    assert_eq!(decode("{").unwrap_err(), decode("{").unwrap_err());
}

#[test]
fn a_record_decodes_its_body_on_demand() {
    let reply = Reply {
        status: 200,
        reason: String::new(),
        headers: vec![
            Header::new("expires", "Tue, 1 Jul 2003 10:52:37 +0200"),
            Header::new("last-modified", "Tue, 01 Jul 2003 08:22:37 GMT"),
        ],
        body: Some(DOCUMENT.to_string()),
    };
    let params = Params::new(50.088f64.to_bits(), 14.4207f64.to_bits(), None).unwrap();
    let record = Client::dispatch(params, Exchange::Replied(reply)).unwrap();
    assert_eq!(record.raw_body(), DOCUMENT);
    assert_eq!(record.body().unwrap(), expected());
    assert_eq!(record.body().unwrap(), record.body().unwrap());
}

#[test]
fn a_record_with_another_body_is_made_and_fails_to_decode() {
    let reply = Reply {
        status: 200,
        reason: String::new(),
        headers: vec![
            Header::new("expires", "Tue, 1 Jul 2003 10:52:37 +0200"),
            Header::new("last-modified", "Tue, 01 Jul 2003 08:22:37 GMT"),
        ],
        body: Some("<html>".to_string()),
    };
    let params = Params::new(50.088f64.to_bits(), 14.4207f64.to_bits(), None).unwrap();
    let record = Client::dispatch(params, Exchange::Replied(reply)).unwrap();
    assert_eq!(record.body().unwrap_err(), Error::ResponseBody(Undecodable::Syntax));
}

#[test]
fn a_text_that_is_no_json_is_refused() {
    for raw in ["", "{", "nul", "{\"type\": }", "{} {}", "[1, 2"] {
        assert_eq!(decode(raw).unwrap_err(), Error::ResponseBody(Undecodable::Syntax));
    }
}

#[test]
fn a_value_that_is_no_object_is_refused() {
    for raw in ["null", "1", "\"Feature\"", "[]", "true", "{}"] {
        schema(raw);
    }
}

#[test]
fn each_required_member_is_required() {
    schema(&with("\"type\": \"Feature\",", ""));
    schema(&with("\"type\": \"Point\",", ""));
    schema(&with("\"longitude\": 14.4207,", ""));
    schema(&with("\"latitude\": 50.088,", ""));
    schema(&with(", \"altitude\": 202", ""));
    schema(&with("\"coordinates\"", "\"coordinate\""));
    schema(&with("\"geometry\"", "\"geometri\""));
    schema(&with("\"properties\"", "\"property\""));
    schema(&with("\"meta\"", "\"metadata\""));
    schema(&with("\"updated_at\": \"2023-03-01T11:34:54Z\",", ""));
    schema(&with("\"units\"", "\"unit\""));
    schema(&with("\"timeseries\"", "\"series\""));
    schema(&with("\"time\": \"2023-03-01T12:00:00Z\",", ""));
    schema(&with("\"data\": {\n          \"instant\": { \"details\": {} }", "\"date\": {\n          \"instant\": { \"details\": {} }"));
    schema(&with("\"instant\": { \"details\": {} },", ""));
    schema(&with("\"instant\": { \"details\": {} }", "\"instant\": {}"));
    schema(&with("\"summary\": { \"symbol_code\": \"rain\" }", "\"details\": {}"));
    schema(&with("{ \"symbol_code\": \"rain\" }", "{}"));
}

#[test]
fn a_member_of_the_wrong_kind_is_refused() {
    schema(&with("\"type\": \"Feature\"", "\"type\": 1"));
    schema(&with("\"type\": \"Feature\"", "\"type\": null"));
    schema(&with("\"longitude\": 14.4207", "\"longitude\": \"14.4207\""));
    schema(&with("\"longitude\": 14.4207", "\"longitude\": null"));
    schema(&with("\"air_temperature\": \"celsius\"", "\"air_temperature\": 1"));
    schema(&with("\"air_temperature\": 4.5", "\"air_temperature\": \"4.5\""));
    schema(&with("\"air_temperature\": 4.5", "\"air_temperature\": [4.5]"));
    schema(&with("\"precipitation_amount\": 0.0", "\"precipitation_amount\": false"));
    schema(&with("\"symbol_code\": \"rain\"", "\"symbol_code\": 7"));
    schema(&with("\"updated_at\": \"2023-03-01T11:34:54Z\"", "\"updated_at\": \"yesterday\""));
    schema(&with("\"updated_at\": \"2023-03-01T11:34:54Z\"", "\"updated_at\": 1677670494"));
    schema(&with("\"time\": \"2023-03-01T12:00:00Z\"", "\"time\": \"12:00\""));
    schema(&with("\"next_12_hours\": null", "\"next_12_hours\": 12"));
    schema(&with("\"instant\": { \"details\": {} }", "\"instant\": { \"details\": [] }"));
    schema(&with("\"details\": { \"precipitation_amount\": 0.0 }", "\"details\": 0"));
    schema(&with("\"units\": {", "\"units\": [], \"x\": {"));
    schema(&with("\"timeseries\": [", "\"timeseries\": {}, \"x\": ["));
    schema(&with("\"timeseries\": [", "\"timeseries\": [1, "));
}

#[test]
fn an_absent_measurement_is_not_zero() {
    let body = decode(DOCUMENT).unwrap();
    let details = body.properties.timeseries[0].data.instant.details;
    assert_eq!(details.fog_area_fraction, None);
    assert_eq!(details.relative_humidity, None);
    let zero = decode(&with("\"fog_area_fraction\": null", "\"fog_area_fraction\": 0")).unwrap();
    assert_eq!(
        zero.properties.timeseries[0].data.instant.details.fog_area_fraction,
        number(0.0)
    );
}

#[test]
fn the_measurements_of_a_period_may_be_missing() {
    let body = decode(DOCUMENT).unwrap();
    let data = &body.properties.timeseries[0].data;
    assert_eq!(data.next_6_hours.as_ref().unwrap().details, None);
    assert!(data.next_1_hours.as_ref().unwrap().details.is_some());
    let null = decode(&with("{ \"symbol_code\": \"rain\" }", "{ \"symbol_code\": \"rain\" }, \"details\": null")).unwrap();
    assert_eq!(null, body);
}

#[test]
fn numbers_are_read_as_binary64() {
    let body = decode(&with("\"altitude\": 202", "\"altitude\": -12345678901234567890")).unwrap();
    assert_eq!(
        f64::from_bits(body.geometry.coordinates.altitude),
        -12345678901234567890.0
    );
    let exp = decode(&with("\"altitude\": 202", "\"altitude\": 2.5e-3")).unwrap();
    assert_eq!(f64::from_bits(exp.geometry.coordinates.altitude), 0.0025);
    let big = decode(&with("\"altitude\": 202", "\"altitude\": 18446744073709551615")).unwrap();
    assert_eq!(f64::from_bits(big.geometry.coordinates.altitude), 18446744073709551615.0);
}

#[test]
fn texts_may_hold_escapes() {
    let body = decode(&with("\"symbol_code\": \"rain\"", "\"symbol_code\": \"ra\\u0069n\\n\"")).unwrap();
    assert_eq!(
        body.properties.timeseries[0].data.next_6_hours.as_ref().unwrap().summary.symbol_code,
        "rain\n"
    );
}

#[test]
fn an_empty_time_series_is_a_forecast() {
    let raw = r#"{"type":"Feature","geometry":{"type":"Point","coordinates":{"longitude":1,"latitude":2,"altitude":3}},
        "properties":{"meta":{"updated_at":"2023-03-01 11:34:54.5+02:00","units":{}},"timeseries":[]}}"#;
    let body = decode(raw).unwrap();
    assert!(body.properties.timeseries.is_empty());
    assert_eq!(body.properties.meta.units, Units::default());
    assert_eq!(
        body.properties.meta.updated_at,
        Timestamp { seconds: 1677663294, nanos: 500_000_000, offset: 0 }
    );
}
