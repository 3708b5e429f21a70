use monsoon::client::{
    create_headers, create_url, extract_headers, handle_not_modified_response,
    handle_ok_response, header_texts, query_pairs,
};
use monsoon::{
    Client, Error, Exchange, Header, Malformed, Monsoon, Params, Reply, Request, Response, Step,
    Timestamp,
};

const EXPIRES: &str = "Tue, 1 Jul 2003 10:52:37 +0200";
const EXPIRES_SECONDS: i64 = 1057049557;
const MODIFIED: &str = "Tue, 01 Jul 2003 08:22:37 GMT";
const BODY: &str = "{\"type\":\"Feature\"}";

fn bits(x: f64) -> u64 {
    x.to_bits()
}

fn at(seconds: i64) -> Timestamp {
    Timestamp { seconds, nanos: 0, offset: 0 }
}

fn usual_headers() -> Vec<Header> {
    vec![
        Header::new("content-type", "application/json"),
        Header::new("expires", EXPIRES),
        Header::new("last-modified", MODIFIED),
    ]
}

fn reply(status: u16, headers: Vec<Header>, body: Option<&str>) -> Exchange {
    Exchange::Replied(Reply {
        status,
        reason: format!("status {}", status),
        headers,
        body: body.map(String::from),
    })
}

fn place() -> Params {
    Params::new(bits(50.0880), bits(14.4207), None).unwrap()
}

fn place_with(record: Response) -> Params {
    Params::new_with_last_response(bits(50.0880), bits(14.4207), None, Some(record)).unwrap()
}

fn record() -> Response {
    Client::dispatch(place(), reply(200, usual_headers(), Some(BODY))).unwrap()
}

fn client() -> Client {
    Client::new("test.com support@test.com").unwrap()
}

#[test]
fn url_of_a_place() {
    assert_eq!(
        create_url(&place()).unwrap(),
        "https://api.met.no/weatherapi/locationforecast/2.0/complete?lat=50.088&lon=14.4207"
    );
}

#[test]
fn url_of_a_place_with_altitude() {
    let params = Params::new(bits(-33.86882), bits(151.20929), Some(320)).unwrap();
    assert_eq!(
        create_url(&params).unwrap(),
        "https://api.met.no/weatherapi/locationforecast/2.0/complete?lat=-33.8688&lon=151.2092&altitude=320"
    );
    let low = Params::new(bits(0.0), bits(-180.0), Some(-500)).unwrap();
    assert_eq!(
        create_url(&low).unwrap(),
        "https://api.met.no/weatherapi/locationforecast/2.0/complete?lat=0&lon=-180&altitude=-500"
    );
}

#[test]
fn pairs_of_the_query() {
    let params = Params::new(bits(59.9139), bits(10.7522), Some(23)).unwrap();
    assert_eq!(
        query_pairs(&params),
        vec![
            ("lat".to_string(), "59.9139".to_string()),
            ("lon".to_string(), "10.7522".to_string()),
            ("altitude".to_string(), "23".to_string()),
        ]
    );
    assert_eq!(query_pairs(&place()).len(), 2);
}

#[test]
fn a_200_reply_makes_a_record() {
    let made = record();
    assert_eq!(made.expires_at().seconds, EXPIRES_SECONDS);
    assert_eq!(made.expires_at().nanos, 0);
    assert_eq!(made.expires_at().offset, 7200);
    assert_eq!(made.last_modified(), MODIFIED);
    assert_eq!(made.raw_body(), BODY);
}

#[test]
fn headers_are_read() {
    let (deadline, token) = extract_headers(&usual_headers()).unwrap();
    assert_eq!(deadline, Timestamp { seconds: EXPIRES_SECONDS, nanos: 0, offset: 7200 });
    assert_eq!(token, MODIFIED);
    let (expires, modified) = header_texts(&usual_headers()).unwrap();
    assert_eq!(expires, EXPIRES);
    assert_eq!(modified, MODIFIED);
}

#[test]
fn header_names_are_matched_without_case() {
    let headers = vec![Header::new("Expires", EXPIRES), Header::new("Last-Modified", MODIFIED)];
    let (deadline, token) = extract_headers(&headers).unwrap();
    assert_eq!(deadline.seconds, EXPIRES_SECONDS);
    assert_eq!(token, MODIFIED);
    assert!(Header::new("EXPIRES", "x").is_named("expires"));
    assert!(!Header::new("expire", "x").is_named("expires"));
    assert!(!Header::new("expiresx", "x").is_named("expires"));
    assert!(!Header::new("expirez", "x").is_named("expires"));
}

#[test]
fn the_first_header_of_a_name_counts() {
    let headers = vec![
        Header::new("expires", EXPIRES),
        Header::new("expires", "Wed, 2 Jul 2003 10:52:37 +0200"),
        Header::new("last-modified", MODIFIED),
        Header::new("last-modified", "another"),
    ];
    let (deadline, token) = extract_headers(&headers).unwrap();
    assert_eq!(deadline.seconds, EXPIRES_SECONDS);
    assert_eq!(token, MODIFIED);
}

#[test]
fn each_fault_of_the_headers_has_its_error() {
    let cases: Vec<(Vec<Header>, Malformed)> = vec![
        (vec![Header::new("last-modified", MODIFIED)], Malformed::MissingExpires),
        (vec![], Malformed::MissingExpires),
        (
            vec![
                Header { name: b"expires".to_vec(), value: vec![0xff, 0xfe] },
                Header::new("last-modified", MODIFIED),
            ],
            Malformed::InvalidExpires,
        ),
        (
            vec![Header::new("expires", "a\u{7f}b"), Header::new("last-modified", MODIFIED)],
            Malformed::InvalidExpires,
        ),
        (vec![Header::new("expires", EXPIRES)], Malformed::MissingLastModified),
        (
            vec![Header::new("expires", EXPIRES), Header::new("last-modified", "caf\u{e9}")],
            Malformed::InvalidLastModified,
        ),
        (
            vec![Header::new("expires", "tomorrow"), Header::new("last-modified", MODIFIED)],
            Malformed::UnparsableExpires,
        ),
        (
            vec![Header::new("expires", ""), Header::new("last-modified", MODIFIED)],
            Malformed::UnparsableExpires,
        ),
    ];
    for (headers, fault) in cases {
        assert_eq!(extract_headers(&headers).unwrap_err(), Error::Response(fault));
        assert_eq!(
            handle_ok_response(&headers, Some(BODY.to_string())).unwrap_err(),
            Error::Response(fault)
        );
        assert_eq!(
            handle_not_modified_response(place_with(record()), &headers).unwrap_err(),
            Error::Response(fault)
        );
    }
}

#[test]
fn faults_are_found_in_order() {
    let unparsable_and_missing = vec![Header::new("expires", "tomorrow")];
    assert_eq!(
        extract_headers(&unparsable_and_missing).unwrap_err(),
        Error::Response(Malformed::MissingLastModified)
    );
    let both_invalid = vec![Header::new("expires", "\n"), Header::new("last-modified", "\n")];
    assert_eq!(
        extract_headers(&both_invalid).unwrap_err(),
        Error::Response(Malformed::InvalidExpires)
    );
}

#[test]
fn a_tab_is_visible_text() {
    let headers = vec![Header::new("expires", EXPIRES), Header::new("last-modified", "a\tb ~")];
    assert_eq!(extract_headers(&headers).unwrap().1, "a\tb ~");
}

#[test]
fn a_fresh_record_is_handed_back_and_nothing_is_sent() {
    let before = record();
    let step = client().get(place_with(before.clone()), &at(EXPIRES_SECONDS - 1)).unwrap();
    assert_eq!(step, Step::Cached(before));
}

#[test]
fn a_record_is_stale_from_its_deadline_on() {
    for now in [
        at(EXPIRES_SECONDS),
        at(EXPIRES_SECONDS + 1),
        Timestamp { seconds: EXPIRES_SECONDS, nanos: 1, offset: -3600 },
    ] {
        match client().get(place_with(record()), &now).unwrap() {
            Step::Fetch(request, kept) => {
                assert_eq!(kept, place_with(record()));
                assert_eq!(request.headers, vec![Header::new("if-modified-since", MODIFIED)]);
            }
            Step::Cached(_) => panic!("a stale record was used"),
        }
    }
}

#[test]
fn freshness_goes_by_the_instant_and_not_by_the_offset() {
    let now = Timestamp { seconds: EXPIRES_SECONDS - 1, nanos: 999_999_999, offset: 36000 };
    assert!(matches!(client().get(place_with(record()), &now), Ok(Step::Cached(_))));
    let later = Timestamp { seconds: EXPIRES_SECONDS, nanos: 0, offset: -36000 };
    assert!(matches!(client().get(place_with(record()), &later), Ok(Step::Fetch(_, _))));
}

#[test]
fn without_a_record_the_request_is_unconditional() {
    match client().get(place(), &at(0)).unwrap() {
        Step::Fetch(request, kept) => {
            assert_eq!(
                request,
                Request {
                    url: "https://api.met.no/weatherapi/locationforecast/2.0/complete?lat=50.088&lon=14.4207"
                        .to_string(),
                    user_agent: "test.com support@test.com".to_string(),
                    headers: vec![],
                }
            );
            assert_eq!(kept, place());
        }
        Step::Cached(_) => panic!("there was no record"),
    }
    assert!(create_headers(&place()).is_empty());
}

#[test]
fn a_304_reply_renews_the_offered_record() {
    let headers = vec![
        Header::new("expires", "Wed, 2 Jul 2003 10:52:37 +0200"),
        Header::new("last-modified", "Wed, 02 Jul 2003 08:00:00 GMT"),
    ];
    let renewed = Client::dispatch(place_with(record()), reply(304, headers, None)).unwrap();
    assert_eq!(renewed.raw_body(), record().raw_body());
    assert_eq!(renewed.expires_at().seconds, EXPIRES_SECONDS + 86400);
    assert_eq!(renewed.last_modified(), "Wed, 02 Jul 2003 08:00:00 GMT");
}

#[test]
fn a_304_reply_without_a_record_is_malformed() {
    assert_eq!(
        Client::dispatch(place(), reply(304, usual_headers(), None)).unwrap_err(),
        Error::Response(Malformed::UnexpectedNotModified)
    );
}

#[test]
fn a_200_reply_without_the_freshness_header_makes_no_record() {
    let headers = vec![Header::new("last-modified", MODIFIED)];
    assert_eq!(
        Client::dispatch(place(), reply(200, headers.clone(), Some(BODY))).unwrap_err(),
        Error::Response(Malformed::MissingExpires)
    );
    assert_eq!(
        Client::dispatch(place_with(record()), reply(200, headers, Some(BODY))).unwrap_err(),
        Error::Response(Malformed::MissingExpires)
    );
}

#[test]
fn a_200_reply_whose_body_could_not_be_read_makes_no_record() {
    assert_eq!(
        Client::dispatch(place(), reply(200, usual_headers(), None)).unwrap_err(),
        Error::Response(Malformed::UnreadableBody)
    );
    assert_eq!(
        Client::dispatch(place(), reply(200, vec![], None)).unwrap_err(),
        Error::Response(Malformed::MissingExpires)
    );
}

#[test]
fn a_429_reply_is_passed_on() {
    assert_eq!(
        Client::dispatch(place(), reply(429, usual_headers(), Some(BODY))).unwrap_err(),
        Error::TooManyRequests
    );
    assert_eq!(
        Client::dispatch(place_with(record()), reply(429, vec![], None)).unwrap_err(),
        Error::TooManyRequests
    );
}

#[test]
fn any_other_status_is_a_rejection() {
    for status in [100, 201, 204, 301, 400, 404, 500, 503] {
        assert_eq!(
            Client::dispatch(place_with(record()), reply(status, usual_headers(), Some(BODY)))
                .unwrap_err(),
            Error::Rejected { status, message: format!("status {}", status) }
        );
    }
}

#[test]
fn a_failed_transport_is_passed_on() {
    assert_eq!(
        Client::dispatch(place_with(record()), Exchange::Failed("connection reset".to_string()))
            .unwrap_err(),
        Error::HttpClient("connection reset".to_string())
    );
}

#[test]
fn the_user_agent_has_to_fit_a_header() {
    assert!(Client::new("test.com support@test.com").is_ok());
    assert!(Client::new("").is_ok());
    assert!(Client::new("caf\u{e9}\ttab").is_ok());
    for agent in ["two\nlines", "bell\u{7}", "del\u{7f}", "\r"] {
        assert_eq!(
            Client::new(agent).unwrap_err(),
            Error::HttpClient("failed to parse header value".to_string())
        );
        assert!(Monsoon::new(agent).is_err());
    }
}

#[test]
fn the_entry_point_asks_for_a_place() {
    let monsoon = Monsoon::new("test.com support@test.com").unwrap();
    match monsoon.get(bits(50.0880), bits(14.4207)).unwrap() {
        Step::Fetch(request, kept) => {
            assert!(request.url.ends_with("/complete?lat=50.088&lon=14.4207"));
            assert_eq!(request.user_agent, "test.com support@test.com");
            assert!(request.headers.is_empty());
            assert_eq!(kept, place());
        }
        Step::Cached(_) => panic!("there was no record"),
    }
    match monsoon.get_with_altitude(bits(50.0880), bits(14.4207), 345).unwrap() {
        Step::Fetch(request, kept) => {
            assert!(request.url.ends_with("/complete?lat=50.088&lon=14.4207&altitude=345"));
            assert_eq!(kept.alt(), Some(345));
        }
        Step::Cached(_) => panic!("there was no record"),
    }
    assert!(matches!(monsoon.get(bits(91.0), bits(0.0)), Err(Error::Params(_))));
    assert!(matches!(
        monsoon.get_with_altitude(bits(0.0), bits(0.0), 9001),
        Err(Error::Params(_))
    ));
}

#[test]
fn the_entry_point_threads_a_record_through() {
    let monsoon = Monsoon::new("test.com support@test.com").unwrap();
    let first = monsoon.dispatch(place(), reply(200, usual_headers(), Some(BODY))).unwrap();
    let again = monsoon
        .get_with_params(place_with(first.clone()), &at(EXPIRES_SECONDS - 60))
        .unwrap();
    assert_eq!(again, Step::Cached(first.clone()));
    match monsoon.get_with_params(place_with(first.clone()), &at(EXPIRES_SECONDS + 60)).unwrap() {
        Step::Fetch(request, kept) => {
            assert_eq!(request.headers, vec![Header::new("if-modified-since", MODIFIED)]);
            let renewed = monsoon.dispatch(kept, reply(304, usual_headers(), None)).unwrap();
            assert_eq!(renewed, first);
        }
        Step::Cached(_) => panic!("a stale record was used"),
    }
}
