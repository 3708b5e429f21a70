use monsoon::decimal::{format_integer, format_ten_thousandths};
use monsoon::text::{ascii_string, visible_text};
use monsoon::{Error, Field, Malformed, Timestamp};

fn text(bytes: Vec<u8>) -> String {
    String::from_utf8(bytes).unwrap()
}

#[test]
fn integers_are_written_in_decimal() {
    for v in [0, 1, 9, 10, 42, 320, 9000, -1, -500, i32::MAX, i32::MIN] {
        assert_eq!(text(format_integer(v)), v.to_string());
    }
}

#[test]
fn ten_thousandths_are_written_as_degrees() {
    assert_eq!(text(format_ten_thousandths(141234)), "14.1234");
    assert_eq!(text(format_ten_thousandths(500880)), "50.088");
    assert_eq!(text(format_ten_thousandths(900000)), "90");
    assert_eq!(text(format_ten_thousandths(-1800000)), "-180");
    assert_eq!(text(format_ten_thousandths(5)), "0.0005");
    assert_eq!(text(format_ten_thousandths(-5)), "-0.0005");
    assert_eq!(text(format_ten_thousandths(1200)), "0.12");
    assert_eq!(text(format_ten_thousandths(10100)), "1.01");
    assert_eq!(text(format_ten_thousandths(0)), "0");
}

#[test]
fn degrees_are_written_as_binary64_numbers_are_shown() {
    for units in -1_800_000i32..=1_800_000 {
        if units % 7 == 0 || units.abs() < 20_000 {
            let shown = format!("{}", units as f64 / 10000.0);
            assert_eq!(text(format_ten_thousandths(units)), shown);
        }
    }
}

#[test]
fn ascii_bytes_make_the_same_text() {
    assert_eq!(ascii_string(b"Tue, 1 Jul 2003".to_vec()), "Tue, 1 Jul 2003");
    assert_eq!(ascii_string(vec![]), "");
    assert_eq!(ascii_string(vec![0, 9, 127]), "\u{0}\t\u{7f}");
}

#[test]
fn visible_text_is_printable_ascii_and_tabs() {
    assert!(visible_text(&b"a b\t~".to_vec()));
    assert!(visible_text(&vec![]));
    for byte in [0u8, 8, 10, 13, 31, 127, 128, 255] {
        assert!(!visible_text(&vec![b'a', byte]));
    }
}

#[test]
fn instants_are_ordered_by_seconds_then_nanoseconds() {
    let a = Timestamp { seconds: 10, nanos: 5, offset: 0 };
    assert!(a.is_after(&Timestamp { seconds: 9, nanos: 999_999_999, offset: 0 }));
    assert!(a.is_after(&Timestamp { seconds: 10, nanos: 4, offset: 7200 }));
    assert!(!a.is_after(&a));
    assert!(!a.is_after(&Timestamp { seconds: 10, nanos: 5, offset: -7200 }));
    assert!(!a.is_after(&Timestamp { seconds: 10, nanos: 6, offset: 0 }));
    assert!(!a.is_after(&Timestamp { seconds: 11, nanos: 0, offset: 0 }));
    assert!(Timestamp { seconds: -1, nanos: 0, offset: 0 }
        .is_after(&Timestamp { seconds: -2, nanos: 1_999_999_999, offset: 0 }));
}

#[test]
fn each_refused_field_has_its_own_words() {
    assert_eq!(Field::Latitude.message(), "Invalid lat value.");
    assert_eq!(Field::Longitude.message(), "Invalid lon value.");
    assert_eq!(Field::Altitude.message(), "Invalid alt value.");
    assert_eq!(Error::Params(Field::Latitude).message(), "Invalid params provided.");
}

#[test]
fn each_kind_of_failure_has_its_words() {
    assert_eq!(
        Error::HttpClient("x".to_string()).message(),
        "An error occured while working with the Http client."
    );
    assert_eq!(Error::TooManyRequests.message(), "Too many requests (HTTP 429)");
    assert_eq!(
        Error::Rejected { status: 500, message: "x".to_string() }.message(),
        "Invalid or unexpected response."
    );
    assert_eq!(
        Error::Response(Malformed::MissingExpires).message(),
        "Invalid or unexpected response."
    );
    assert_eq!(Error::Request.message(), "An error while building a request.");
    assert_eq!(
        Error::ResponseBody(monsoon::error::Undecodable::Syntax).message(),
        "Unable to deserialize the JSON body."
    );
    assert_eq!(Malformed::MissingExpires.message(), "Missing expires header");
    assert_eq!(Malformed::InvalidExpires.message(), "Invalid expires header.");
    assert_eq!(Malformed::MissingLastModified.message(), "Missing last-modified header");
    assert_eq!(Malformed::InvalidLastModified.message(), "Invalid last-modified header.");
    assert_eq!(Malformed::UnparsableExpires.message(), "Unable to parse expires header.");
    assert_eq!(Malformed::UnreadableBody.message(), "Failed to decode response.");
}
