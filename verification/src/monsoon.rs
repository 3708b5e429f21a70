//! The query of a fetch and the record that a fetch yields.
use crate::binary64::{
    divide, is_negative, lemma_exponent_bound, lemma_limits, lemma_scaled_integer_bound,
    magnitude_at_most, ratio, scaled_integer, truncated_product, within, NINETY,
    ONE_HUNDRED_EIGHTY,
};
use crate::body::{decode, decoded, result, Body};
use crate::client::{
    dispatched, endpoint, is_fresh, outcome, query, url_with_query, Client, Exchange, Step,
};
use crate::decimal::magnitude;
use crate::error::{Error, Field};
use crate::text::{is_header_value, is_visible_chars};
use crate::time::Timestamp;
use vstd::arithmetic::power2::{lemma2_to64, pow2};
use vstd::prelude::*;
use vstd::utf8::encode_utf8;

verus! {

/// How many units of the stored coordinates make one degree.
pub const UNITS_PER_DEGREE: u16 = 10000;

/// The lowest altitude accepted, in metres.
pub const MIN_ALTITUDE: i32 = -500;

/// The highest altitude accepted, in metres.
pub const MAX_ALTITUDE: i32 = 9000;

/// What a record holds.
pub struct ResponseView {
    pub expires_at: Timestamp,
    pub last_modified: Seq<char>,
    pub raw_body: Seq<char>,
}

/// One answer of the origin: until when it may be used without asking
/// again, the token that names its version, and the body as it came.
///
/// A record is made by a successful exchange only, and is never changed. Its
/// token is visible ASCII text, as it came out of a header.
#[derive(Debug, PartialEq, Eq)]
pub struct Response {
    expires_at: Timestamp,
    last_modified: String,
    raw_body: String,
}

impl View for Response {
    type V = ResponseView;

    closed spec fn view(&self) -> ResponseView {
        ResponseView {
            expires_at: self.expires_at,
            last_modified: self.last_modified@,
            raw_body: self.raw_body@,
        }
    }
}

impl Clone for Response {
    fn clone(&self) -> (r: Self)
        ensures
            r@ == self@,
    {
        proof {
            use_type_invariant(self);
        }
        Response {
            expires_at: self.expires_at,
            last_modified: self.last_modified.clone(),
            raw_body: self.raw_body.clone(),
        }
    }
}

impl Response {
    #[verifier::type_invariant]
    spec fn token_is_visible(self) -> bool {
        is_visible_chars(self.last_modified@)
    }

    pub(crate) fn new(expires_at: Timestamp, last_modified: String, raw_body: String) -> (r:
        Response)
        requires
            is_visible_chars(last_modified@),
        ensures
            r@ == (ResponseView {
                expires_at,
                last_modified: last_modified@,
                raw_body: raw_body@,
            }),
    {
        Response { expires_at, last_modified, raw_body }
    }

    /// Until when the record may be used without asking the origin.
    pub fn expires_at(&self) -> (r: &Timestamp)
        ensures
            *r == self@.expires_at,
    {
        &self.expires_at
    }

    /// The token that names this version of the forecast, to be sent back
    /// when asking whether it has changed.
    pub fn last_modified(&self) -> (r: &str)
        ensures
            r@ == self@.last_modified,
            is_visible_chars(r@),
    {
        proof {
            use_type_invariant(self);
        }
        self.last_modified.as_str()
    }

    /// The body as it came from the origin, undecoded.
    pub fn raw_body(&self) -> (r: &str)
        ensures
            r@ == self@.raw_body,
    {
        self.raw_body.as_str()
    }

    /// Decodes the body. The record keeps nothing of the result: a caller
    /// that needs the body again holds on to what it got.
    pub fn body(&self) -> (r: Result<Body, Error>)
        ensures
            result(r) == decoded(self@.raw_body),
    {
        decode(self.raw_body.as_str())
    }

    /// Gives the body away, for the record that takes this one's place.
    pub(crate) fn into_body(self) -> (r: String)
        ensures
            r@ == self@.raw_body,
    {
        self.raw_body
    }
}

/// The coordinate of a pattern in ten-thousandths of a degree: the product
/// with 10^4 as binary64 arithmetic rounds it, without its fraction, and
/// with the sign of the pattern.
pub open spec fn truncated(bits: u64) -> int {
    if is_negative(bits) {
        -(scaled_integer(bits, 10000) as int)
    } else {
        scaled_integer(bits, 10000) as int
    }
}

/// Truncates a coordinate to four decimal places: the result counts
/// ten-thousandths of a degree, toward zero.
pub fn normalize(bits: u64) -> (r: i32)
    requires
        magnitude_at_most(bits, 180),
    ensures
        r == truncated(bits),
        -1_800_000 <= r <= 1_800_000,
        forall|bound: nat| #[trigger] magnitude_at_most(bits, bound) ==> -10000 * bound <= r <= 10000 * bound,
{
    proof {
        lemma2_to64();
        lemma_exponent_bound(bits, 180, 8);
        lemma_scaled_integer_bound(bits, 10000, 180);
        assert forall|bound: nat| #[trigger] magnitude_at_most(bits, bound) implies scaled_integer(
            bits,
            10000,
        ) <= bound * 10000 by {
            lemma_scaled_integer_bound(bits, 10000, bound);
        }
    }
    let units: u64 = truncated_product(bits, UNITS_PER_DEGREE);
    let negative: bool = (bits >> 63) == 1;
    if negative {
        -(units as i32)
    } else {
        units as i32
    }
}

/// The pattern of the binary64 number for a coordinate in ten-thousandths
/// of a degree: the number nearest to `units / 10^4`.
pub open spec fn in_degrees(units: int) -> u64 {
    ratio(units < 0, magnitude(units), 10000)
}

/// The coordinate in degrees, as the bit pattern of a binary64 number: what
/// binary64 division of the count by 10^4 gives.
pub fn degrees(units: i32) -> (bits: u64)
    ensures
        bits == in_degrees(units as int),
{
    let wide: i64 = units as i64;
    let count: u32 = if wide < 0 {
        (-wide) as u32
    } else {
        wide as u32
    };
    divide(units < 0, count, UNITS_PER_DEGREE)
}

/// The first parameter that is out of range, if any: the latitude must be
/// finite and within ±90, the longitude finite and within ±180, and the
/// altitude, where there is one, within -500 to 9000.
pub open spec fn refused(lat: u64, lon: u64, alt: Option<i32>) -> Option<Field> {
    if !magnitude_at_most(lat, 90) {
        Some(Field::Latitude)
    } else if !magnitude_at_most(lon, 180) {
        Some(Field::Longitude)
    } else if alt matches Some(a) && !(MIN_ALTITUDE <= a <= MAX_ALTITUDE) {
        Some(Field::Altitude)
    } else {
        None
    }
}

/// What a query holds.
pub struct ParamsView {
    pub lat: int,
    pub lon: int,
    pub alt: Option<i32>,
    pub last_response: Option<ResponseView>,
}

/// The place for which the weather is looked up, and the last record for
/// that place if the caller has one.
///
/// The coordinates are kept in ten-thousandths of a degree, which is all the
/// origin reads of them.
#[derive(Debug, PartialEq, Eq)]
pub struct Params {
    lat: i32,
    lon: i32,
    alt: Option<i32>,
    last_response: Option<Response>,
}

impl View for Params {
    type V = ParamsView;

    closed spec fn view(&self) -> ParamsView {
        ParamsView {
            lat: self.lat as int,
            lon: self.lon as int,
            alt: self.alt,
            last_response: match self.last_response {
                Some(r) => Some(r@),
                None => None,
            },
        }
    }
}

impl Clone for Params {
    fn clone(&self) -> (r: Self)
        ensures
            r@ == self@,
    {
        proof {
            use_type_invariant(self);
        }
        let last_response: Option<Response> = match &self.last_response {
            Some(record) => Some(record.clone()),
            None => None,
        };
        Params { lat: self.lat, lon: self.lon, alt: self.alt, last_response }
    }
}

impl Params {
    #[verifier::type_invariant]
    spec fn in_range(self) -> bool {
        &&& -900_000 <= self.lat <= 900_000
        &&& -1_800_000 <= self.lon <= 1_800_000
        &&& self.alt matches Some(a) ==> MIN_ALTITUDE <= a <= MAX_ALTITUDE
    }

    /// A query for the given place. The coordinates are binary64 numbers,
    /// given as their bit patterns; they are checked and then truncated to
    /// four decimal places.
    pub fn new(lat: u64, lon: u64, alt: Option<i32>) -> (r: Result<Params, Error>)
        ensures
            r is Err <==> refused(lat, lon, alt) is Some,
            r matches Err(e) ==> e == Error::Params(refused(lat, lon, alt)->0),
            r matches Ok(p) ==> p@ == (ParamsView {
                lat: truncated(lat),
                lon: truncated(lon),
                alt,
                last_response: None,
            }),
    {
        Self::new_with_last_response(lat, lon, alt, None)
    }

    /// A query for the given place that offers the last record, so that the
    /// fetch can use it while it is fresh and revalidate it afterwards.
    pub fn new_with_last_response(
        lat: u64,
        lon: u64,
        alt: Option<i32>,
        last_response: Option<Response>,
    ) -> (r: Result<Params, Error>)
        ensures
            r is Err <==> refused(lat, lon, alt) is Some,
            r matches Err(e) ==> e == Error::Params(refused(lat, lon, alt)->0),
            r matches Ok(p) ==> p@ == (ParamsView {
                lat: truncated(lat),
                lon: truncated(lon),
                alt,
                last_response: match last_response {
                    Some(record) => Some(record@),
                    None => None,
                },
            }),
    {
        proof {
            lemma_limits();
        }
        if !within(lat, NINETY) {
            return Err(Error::Params(Field::Latitude));
        }
        if !within(lon, ONE_HUNDRED_EIGHTY) {
            return Err(Error::Params(Field::Longitude));
        }
        if let Some(a) = alt {
            if a < MIN_ALTITUDE || a > MAX_ALTITUDE {
                return Err(Error::Params(Field::Altitude));
            }
        }
        proof {
            assert(90 * pow2(1074) <= 180 * pow2(1074)) by (nonlinear_arith);
        }
        let lat_units: i32 = normalize(lat);
        let lon_units: i32 = normalize(lon);
        assert(magnitude_at_most(lat, 90));
        Ok(Params { lat: lat_units, lon: lon_units, alt, last_response })
    }

    /// The latitude in ten-thousandths of a degree.
    pub fn lat(&self) -> (r: i32)
        ensures
            r == self@.lat,
            -900_000 <= r <= 900_000,
    {
        proof {
            use_type_invariant(self);
        }
        self.lat
    }

    /// The longitude in ten-thousandths of a degree.
    pub fn lon(&self) -> (r: i32)
        ensures
            r == self@.lon,
            -1_800_000 <= r <= 1_800_000,
    {
        proof {
            use_type_invariant(self);
        }
        self.lon
    }

    /// The latitude in degrees, as the bit pattern of a binary64 number.
    pub fn lat_degrees(&self) -> (bits: u64)
        ensures
            bits == in_degrees(self@.lat),
    {
        degrees(self.lat)
    }

    /// The longitude in degrees, as the bit pattern of a binary64 number.
    pub fn lon_degrees(&self) -> (bits: u64)
        ensures
            bits == in_degrees(self@.lon),
    {
        degrees(self.lon)
    }

    /// The altitude in metres, if one was given.
    pub fn alt(&self) -> (r: Option<i32>)
        ensures
            r == self@.alt,
            r matches Some(a) ==> MIN_ALTITUDE <= a <= MAX_ALTITUDE,
    {
        proof {
            use_type_invariant(self);
        }
        self.alt
    }

    /// The record that the query offers, if any.
    pub fn last_response(&self) -> (r: Option<&Response>)
        ensures
            r is Some <==> self@.last_response is Some,
            r matches Some(record) ==> self@.last_response == Some(record@),
    {
        self.last_response.as_ref()
    }

    /// Takes the query apart, giving the record it offered.
    pub fn into_last_response(self) -> (r: Option<Response>)
        ensures
            r is Some <==> self@.last_response is Some,
            r matches Some(record) ==> self@.last_response == Some(record@),
    {
        self.last_response
    }
}


/// The entry point of the library: an engine, under the names by which a
/// fetch is asked for.
#[derive(Debug)]
pub struct Monsoon {
    client: Client,
}

impl Clone for Monsoon {
    fn clone(&self) -> (r: Self)
        ensures
            r.client().agent() == self.client().agent(),
    {
        Monsoon { client: self.client.clone() }
    }
}

/// The query for a place that `Params::new` makes of parameters it accepts.
pub open spec fn plain_query(lat: u64, lon: u64, alt: Option<i32>) -> ParamsView {
    ParamsView { lat: truncated(lat), lon: truncated(lon), alt, last_response: None }
}

impl Monsoon {
    /// The engine behind the entry point.
    pub closed spec fn client(self) -> Client {
        self.client
    }

    /// An entry point that identifies its caller to the origin by
    /// `user_agent`, which has to be fit for a header value.
    pub fn new(user_agent: &str) -> (r: Result<Monsoon, Error>)
        ensures
            r is Ok <==> is_header_value(encode_utf8(user_agent@)),
            r matches Ok(monsoon) ==> monsoon.client().agent() == user_agent@,
            r matches Err(e) ==> (e matches Error::HttpClient(cause) && cause@
                == "failed to parse header value"@),
    {
        match Client::new(user_agent) {
            Ok(client) => Ok(Monsoon { client }),
            Err(e) => Err(e),
        }
    }

    /// What to ask the origin for the weather at the given coordinates.
    pub fn get(&self, lat: u64, lon: u64) -> (r: Result<Step, Error>)
        ensures
            self.answers(lat, lon, None, r),
    {
        self.first(lat, lon, None)
    }

    /// What to ask the origin for the weather at the given coordinates and
    /// altitude.
    pub fn get_with_altitude(&self, lat: u64, lon: u64, alt: i32) -> (r: Result<Step, Error>)
        ensures
            self.answers(lat, lon, Some(alt), r),
    {
        self.first(lat, lon, Some(alt))
    }

    /// `r` is the first step of a fetch for a place of which no record is at
    /// hand: the refusal of the parameters, or else the unconditional
    /// request.
    pub open spec fn answers(self, lat: u64, lon: u64, alt: Option<i32>, r: Result<Step, Error>) -> bool {
        match refused(lat, lon, alt) {
            Some(field) => r matches Err(e) && e == Error::Params(field),
            None => match url_with_query(endpoint(), query(plain_query(lat, lon, alt))) {
                Some(_) => r matches Ok(Step::Fetch(request, kept)) && kept@ == plain_query(
                    lat,
                    lon,
                    alt,
                ) && self.client().asks(kept@, request),
                None => r matches Err(e) && e == Error::Request,
            },
        }
    }

    fn first(&self, lat: u64, lon: u64, alt: Option<i32>) -> (r: Result<Step, Error>)
        ensures
            self.answers(lat, lon, alt, r),
    {
        let params: Params = match Params::new(lat, lon, alt) {
            Ok(params) => params,
            Err(e) => { return Err(e); },
        };
        match self.client.request(&params) {
            Ok(request) => Ok(Step::Fetch(request, params)),
            Err(e) => Err(e),
        }
    }

    /// Decides what a fetch for the given query does at the time `now`: see
    /// `Client::get`.
    pub fn get_with_params(&self, params: Params, now: &Timestamp) -> (r: Result<Step, Error>)
        ensures
            is_fresh(params@.last_response, *now) ==> (r matches Ok(Step::Cached(record))
                && Some(record@) == params@.last_response),
            !is_fresh(params@.last_response, *now) ==> match url_with_query(
                endpoint(),
                query(params@),
            ) {
                Some(_) => r matches Ok(Step::Fetch(request, kept)) && kept@ == params@
                    && self.client().asks(params@, request),
                None => r matches Err(e) && e == Error::Request,
            },
    {
        self.client.get(params, now)
    }

    /// Concludes a fetch from the way the exchange went: see
    /// `Client::dispatch`.
    pub fn dispatch(&self, params: Params, exchange: Exchange) -> (r: Result<Response, Error>)
        ensures
            outcome(r) == dispatched(params@.last_response, exchange),
    {
        Client::dispatch(params, exchange)
    }
}

} // verus!
