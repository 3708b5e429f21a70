//! One fetch, as the decisions around a single exchange with the origin.
//!
//! `Client::get` decides whether the offered record is still fresh and, if
//! it is not, says what to ask the origin. The caller performs the exchange
//! and hands its result to `Client::dispatch`, which makes the new record or
//! names the failure.
use crate::decimal::{format_integer, format_ten_thousandths, integer, ten_thousandths};
use crate::error::{Error, Malformed};
use crate::header::{find, lookup, visible_string, Header};
use crate::monsoon::{Params, ParamsView, Response, ResponseView};
use crate::text::{
    ascii_string, ascii_text, is_header_value, is_value_byte, is_visible_ascii, is_visible_char,
    is_visible_chars, is_visible_text,
};
use crate::time::{parse_rfc2822, rfc2822, Timestamp};
use vstd::prelude::*;
use vstd::string::*;
use vstd::utf8::{encode_utf8, is_ascii_chars, is_ascii_chars_encode_utf8};

verus! {

/// The status of a reply that carries a new body.
pub const OK: u16 = 200;

/// The status of a reply that confirms the offered record.
pub const NOT_MODIFIED: u16 = 304;

/// The status of a reply that asks the caller to slow down.
pub const TOO_MANY_REQUESTS: u16 = 429;

/// Tells whether the body of a reply with the given status is read at all:
/// only a `200` reply brings one that a record keeps.
pub fn carries_body(status: u16) -> (r: bool)
    ensures
        r == (status == OK),
{
    status == OK
}

/// The origin's endpoint.
pub open spec fn endpoint() -> Seq<char> {
    "https://api.met.no/weatherapi/locationforecast/2.0/complete"@
}

/// A `GET` request to the origin.
#[derive(Clone, Debug, PartialEq, Eq)]
pub struct Request {
    /// The endpoint with the query.
    pub url: String,
    /// The text that identifies the caller, for the `user-agent` header.
    pub user_agent: String,
    /// The other headers to send.
    pub headers: Vec<Header>,
}

/// What the origin answered.
#[derive(Clone, Debug, PartialEq, Eq)]
pub struct Reply {
    /// The status code.
    pub status: u16,
    /// What the transport has to say of a status that is an error.
    pub reason: String,
    /// The headers of the reply.
    pub headers: Vec<Header>,
    /// The body as text, where the status is `200` and the body could be
    /// read.
    pub body: Option<String>,
}

/// How the exchange went.
#[derive(Clone, Debug, PartialEq, Eq)]
pub enum Exchange {
    /// No reply came: the transport failed, for the reason given.
    Failed(String),
    /// The origin replied.
    Replied(Reply),
}

/// What a fetch does next.
#[derive(Debug, PartialEq, Eq)]
pub enum Step {
    /// Nothing: the offered record is still fresh, and is handed back.
    Cached(Response),
    /// The request is to be sent; the query is kept for `Client::dispatch`.
    Fetch(Request, Params),
}

/// The query string of a request: latitude and longitude in degrees with up
/// to four decimal places, and the altitude in metres where there is one.
pub open spec fn query(params: ParamsView) -> Seq<(Seq<char>, Seq<char>)> {
    let place = seq![
        ("lat"@, ascii_text(ten_thousandths(params.lat))),
        ("lon"@, ascii_text(ten_thousandths(params.lon))),
    ];
    match params.alt {
        Some(alt) => place.push(("altitude"@, ascii_text(integer(alt as int)))),
        None => place,
    }
}

/// What `url::Url::parse_with_params` makes of a URL and the pairs to add to
/// its query: the text of the resulting URL, or `None` where the first
/// argument is no absolute URL.
pub uninterp spec fn url_with_query(base: Seq<char>, pairs: Seq<(Seq<char>, Seq<char>)>) -> Option<
    Seq<char>,
>;

/// Adds pairs to the query of a URL.
///
/// `url::Url::parse_with_params`, a function of its arguments alone. The URL
/// it returns is handed on as its text.
#[verifier::external_body]
fn parse_with_params(base: &str, pairs: &Vec<(String, String)>) -> (r: Option<String>)
    ensures
        r.deep_view() == url_with_query(base@, pairs.deep_view()),
{
    match url::Url::parse_with_params(base, pairs) {
        Ok(url) => Some(String::from(url)),
        Err(_) => None,
    }
}

/// The pairs of the query string.
pub fn query_pairs(params: &Params) -> (r: Vec<(String, String)>)
    ensures
        r.deep_view() == query(params@),
{
    let lat: String = ascii_string(format_ten_thousandths(params.lat()));
    let lon: String = ascii_string(format_ten_thousandths(params.lon()));
    let mut pairs: Vec<(String, String)> = Vec::new();
    pairs.push(("lat".to_owned(), lat));
    pairs.push(("lon".to_owned(), lon));
    if let Some(alt) = params.alt() {
        let metres: String = ascii_string(format_integer(alt));
        pairs.push(("altitude".to_owned(), metres));
    }
    assert(pairs.deep_view() =~= query(params@));
    pairs
}

/// The URL, if one came out, or the failure to build the request.
pub fn built(url: Option<String>) -> (r: Result<String, Error>)
    ensures
        match url {
            Some(text) => r == Ok::<String, Error>(text),
            None => r == Err::<String, Error>(Error::Request),
        },
{
    match url {
        Some(text) => Ok(text),
        None => Err(Error::Request),
    }
}

/// The URL to ask for the forecast of the given place.
pub fn create_url(params: &Params) -> (r: Result<String, Error>)
    ensures
        match url_with_query(endpoint(), query(params@)) {
            Some(text) => r matches Ok(url) && url@ == text,
            None => r == Err::<String, Error>(Error::Request),
        },
{
    let pairs: Vec<(String, String)> = query_pairs(params);
    let url: Option<String> = parse_with_params(
        "https://api.met.no/weatherapi/locationforecast/2.0/complete",
        &pairs,
    );
    built(url)
}

/// The headers that make a request conditional: none without a record, and
/// with one the header `if-modified-since` with the record's token,
/// byte for byte.
pub open spec fn conditional(prior: Option<ResponseView>, headers: Seq<Header>) -> bool {
    match prior {
        None => headers.len() == 0,
        Some(record) => {
            &&& headers.len() == 1
            &&& headers[0].name@ == encode_utf8("if-modified-since"@)
            &&& headers[0].value@ == encode_utf8(record.last_modified)
        },
    }
}

/// Visible text is ASCII, and its bytes may stand in a header value.
pub proof fn lemma_visible_chars(text: Seq<char>)
    requires
        is_visible_chars(text),
    ensures
        is_ascii_chars(text),
        is_visible_text(encode_utf8(text)),
        is_header_value(encode_utf8(text)),
        ascii_text(encode_utf8(text)) == text,
{
    assert(is_ascii_chars(text)) by {
        assert forall|i: int| 0 <= i < text.len() implies '\0' <= #[trigger] text[i]
            <= '\u{7f}' by {
            assert(is_visible_chars(text));
            assert(is_visible_char(text[i]));
        }
    }
    is_ascii_chars_encode_utf8(text);
    let bytes = encode_utf8(text);
    assert forall|i: int| 0 <= i < bytes.len() implies is_visible_ascii(
        #[trigger] bytes[i],
    ) by {
        assert(is_visible_char(text[i]));
    }
    assert forall|i: int| 0 <= i < bytes.len() implies is_value_byte(#[trigger] bytes[i]) by {
        assert(is_visible_ascii(bytes[i]));
    }
    assert(ascii_text(bytes) =~= text) by {
        assert forall|i: int| 0 <= i < text.len() implies ascii_text(bytes)[i] == text[i] by {
            assert(is_visible_char(text[i]));
        }
    }
}

/// The headers that make the request conditional on the offered record.
pub fn create_headers(params: &Params) -> (r: Vec<Header>)
    ensures
        conditional(params@.last_response, r@),
        forall|i: int| 0 <= i < r@.len() ==> is_header_value(#[trigger] r@[i].value@),
{
    let mut headers: Vec<Header> = Vec::new();
    if let Some(record) = params.last_response() {
        let token: &str = record.last_modified();
        proof {
            lemma_visible_chars(token@);
        }
        headers.push(Header::new("if-modified-since", token));
    }
    headers
}

/// The values of the two headers that every usable reply carries, or what is
/// wrong with them. The `expires` header is looked at first.
pub open spec fn texts(headers: Seq<Header>) -> Result<(Seq<u8>, Seq<u8>), Malformed> {
    match lookup(headers, "expires"@) {
        None => Err(Malformed::MissingExpires),
        Some(expires) => if !is_visible_text(expires) {
            Err(Malformed::InvalidExpires)
        } else {
            match lookup(headers, "last-modified"@) {
                None => Err(Malformed::MissingLastModified),
                Some(modified) => if !is_visible_text(modified) {
                    Err(Malformed::InvalidLastModified)
                } else {
                    Ok((expires, modified))
                },
            }
        },
    }
}

/// The texts of the `expires` and `last-modified` headers.
pub fn header_texts(headers: &Vec<Header>) -> (r: Result<(String, String), Error>)
    ensures
        match texts(headers@) {
            Ok((expires, modified)) => r matches Ok((e, m)) && e@ == ascii_text(expires) && m@
                == ascii_text(modified),
            Err(fault) => r == Err::<(String, String), Error>(Error::Response(fault)),
        },
{
    proof {
        reveal_strlit("expires");
        reveal_strlit("last-modified");
    }
    let expires: String = match find(headers, "expires") {
        None => { return Err(Error::Response(Malformed::MissingExpires)); },
        Some(value) => match visible_string(value) {
            None => { return Err(Error::Response(Malformed::InvalidExpires)); },
            Some(text) => text,
        },
    };
    let modified: String = match find(headers, "last-modified") {
        None => { return Err(Error::Response(Malformed::MissingLastModified)); },
        Some(value) => match visible_string(value) {
            None => { return Err(Error::Response(Malformed::InvalidLastModified)); },
            Some(text) => text,
        },
    };
    Ok((expires, modified))
}

/// The freshness deadline and the token that a reply states, or what is
/// wrong with its headers.
pub open spec fn extraction(headers: Seq<Header>) -> Result<(Timestamp, Seq<char>), Malformed> {
    match texts(headers) {
        Err(fault) => Err(fault),
        Ok((expires, modified)) => match rfc2822(ascii_text(expires)) {
            None => Err(Malformed::UnparsableExpires),
            Some(deadline) => Ok((deadline, ascii_text(modified))),
        },
    }
}

/// The deadline with the token, where the `expires` header was a date.
pub fn dated(deadline: Option<Timestamp>, token: String) -> (r: Result<(Timestamp, String), Error>)
    ensures
        match deadline {
            Some(at) => r == Ok::<(Timestamp, String), Error>((at, token)),
            None => r == Err::<(Timestamp, String), Error>(
                Error::Response(Malformed::UnparsableExpires),
            ),
        },
{
    match deadline {
        Some(at) => Ok((at, token)),
        None => Err(Error::Response(Malformed::UnparsableExpires)),
    }
}

/// The text made of visible bytes is visible.
pub proof fn lemma_visible_text(bytes: Seq<u8>)
    requires
        is_visible_text(bytes),
    ensures
        is_visible_chars(ascii_text(bytes)),
{
    assert forall|i: int| 0 <= i < bytes.len() implies is_visible_char(
        #[trigger] ascii_text(bytes)[i],
    ) by {
        assert(is_visible_ascii(bytes[i]));
    }
}

/// Reads the freshness deadline and the token off the headers of a reply.
pub fn extract_headers(headers: &Vec<Header>) -> (r: Result<(Timestamp, String), Error>)
    ensures
        match extraction(headers@) {
            Ok((deadline, token)) => r matches Ok((at, text)) && at == deadline && text@ == token
                && is_visible_chars(text@),
            Err(fault) => r == Err::<(Timestamp, String), Error>(Error::Response(fault)),
        },
{
    match header_texts(headers) {
        Err(e) => Err(e),
        Ok((expires, modified)) => {
            proof {
                lemma_visible_text(texts(headers@)->Ok_0.1);
            }
            let deadline: Option<Timestamp> = parse_rfc2822(expires.as_str());
            dated(deadline, modified)
        },
    }
}


/// The text of a body, if there is one.
pub open spec fn body_text(body: Option<String>) -> Option<Seq<char>> {
    match body {
        Some(text) => Some(text@),
        None => None,
    }
}

/// What a fetch returns, with the record by what it holds.
pub open spec fn outcome(r: Result<Response, Error>) -> Result<ResponseView, Error> {
    match r {
        Ok(record) => Ok(record@),
        Err(e) => Err(e),
    }
}

/// The record that a `200` reply makes: the deadline and token of its
/// headers with its own body. Faulty headers come before an unreadable body.
pub open spec fn fetched(headers: Seq<Header>, body: Option<Seq<char>>) -> Result<
    ResponseView,
    Error,
> {
    match extraction(headers) {
        Err(fault) => Err(Error::Response(fault)),
        Ok((deadline, token)) => match body {
            None => Err(Error::Response(Malformed::UnreadableBody)),
            Some(text) => Ok(
                ResponseView { expires_at: deadline, last_modified: token, raw_body: text },
            ),
        },
    }
}

/// The record that a `304` reply makes: the deadline and token of its
/// headers with the body of the offered record. Faulty headers come before a
/// missing record.
pub open spec fn revalidated(prior: Option<ResponseView>, headers: Seq<Header>) -> Result<
    ResponseView,
    Error,
> {
    match extraction(headers) {
        Err(fault) => Err(Error::Response(fault)),
        Ok((deadline, token)) => match prior {
            None => Err(Error::Response(Malformed::UnexpectedNotModified)),
            Some(record) => Ok(
                ResponseView {
                    expires_at: deadline,
                    last_modified: token,
                    raw_body: record.raw_body,
                },
            ),
        },
    }
}

/// What a fetch returns for each way the exchange can go.
pub open spec fn dispatched(prior: Option<ResponseView>, exchange: Exchange) -> Result<
    ResponseView,
    Error,
> {
    match exchange {
        Exchange::Failed(cause) => Err(Error::HttpClient(cause)),
        Exchange::Replied(reply) => if reply.status == OK {
            fetched(reply.headers@, body_text(reply.body))
        } else if reply.status == NOT_MODIFIED {
            revalidated(prior, reply.headers@)
        } else if reply.status == TOO_MANY_REQUESTS {
            Err(Error::TooManyRequests)
        } else {
            Err(Error::Rejected { status: reply.status, message: reply.reason })
        },
    }
}

/// Makes the record of a `200` reply.
pub fn handle_ok_response(headers: &Vec<Header>, body: Option<String>) -> (r: Result<
    Response,
    Error,
>)
    ensures
        outcome(r) == fetched(headers@, body_text(body)),
{
    let (deadline, token) = match extract_headers(headers) {
        Err(e) => { return Err(e); },
        Ok(pair) => pair,
    };
    match body {
        None => Err(Error::Response(Malformed::UnreadableBody)),
        Some(text) => Ok(Response::new(deadline, token, text)),
    }
}

/// Makes the record of a `304` reply: the offered record with a new deadline
/// and token.
pub fn handle_not_modified_response(params: Params, headers: &Vec<Header>) -> (r: Result<
    Response,
    Error,
>)
    ensures
        outcome(r) == revalidated(params@.last_response, headers@),
{
    let (deadline, token) = match extract_headers(headers) {
        Err(e) => { return Err(e); },
        Ok(pair) => pair,
    };
    match params.into_last_response() {
        None => Err(Error::Response(Malformed::UnexpectedNotModified)),
        Some(record) => Ok(Response::new(deadline, token, record.into_body())),
    }
}

/// The offered record may still be used at `now`: there is one, and its
/// deadline is later than `now`.
pub open spec fn is_fresh(prior: Option<ResponseView>, now: Timestamp) -> bool {
    prior matches Some(record) && record.expires_at.after(now)
}

/// The fetch engine: it holds the text that identifies the caller to the
/// origin, and nothing of any fetch.
#[derive(Debug)]
pub struct Client {
    user_agent: String,
}

impl Clone for Client {
    fn clone(&self) -> (r: Self)
        ensures
            r.agent() == self.agent(),
    {
        proof {
            use_type_invariant(self);
        }
        Client { user_agent: self.user_agent.clone() }
    }
}

impl Client {
    #[verifier::type_invariant]
    spec fn agent_is_sendable(self) -> bool {
        is_header_value(encode_utf8(self.user_agent@))
    }

    /// The text that identifies the caller.
    pub closed spec fn agent(self) -> Seq<char> {
        self.user_agent@
    }

    /// An engine that identifies its caller by `user_agent`, which has to be
    /// fit for a header value.
    pub fn new(user_agent: &str) -> (r: Result<Client, Error>)
        ensures
            r is Ok <==> is_header_value(encode_utf8(user_agent@)),
            r matches Ok(client) ==> client.agent() == user_agent@,
            r matches Err(e) ==> (e matches Error::HttpClient(cause) && cause@
                == "failed to parse header value"@),
    {
        let bytes = user_agent.as_bytes();
        let mut i: usize = 0;
        while i < bytes.len()
            invariant
                i <= bytes.len(),
                bytes@ == encode_utf8(user_agent@),
                forall|j: int| 0 <= j < i ==> is_value_byte(#[trigger] bytes@[j]),
            decreases bytes.len() - i,
        {
            let b: u8 = bytes[i];
            if !((b >= 32 && b != 127) || b == 9) {
                return Err(Error::HttpClient("failed to parse header value".to_owned()));
            }
            i = i + 1;
        }
        Ok(Client { user_agent: user_agent.to_owned() })
    }

    /// `request` is what this engine asks the origin for the given query.
    pub open spec fn asks(self, params: ParamsView, request: Request) -> bool {
        &&& url_with_query(endpoint(), query(params)) == Some(request.url@)
        &&& request.user_agent@ == self.agent()
        &&& is_header_value(encode_utf8(request.user_agent@))
        &&& conditional(params.last_response, request.headers@)
        &&& forall|i: int|
            0 <= i < request.headers@.len() ==> is_header_value(
                #[trigger] request.headers@[i].value@,
            )
    }

    /// The request for the given query: conditional where a record is
    /// offered.
    pub fn request(&self, params: &Params) -> (r: Result<Request, Error>)
        ensures
            match url_with_query(endpoint(), query(params@)) {
                Some(_) => r matches Ok(request) && self.asks(params@, request),
                None => r == Err::<Request, Error>(Error::Request),
            },
    {
        proof {
            use_type_invariant(self);
        }
        let url: String = match create_url(params) {
            Err(e) => { return Err(e); },
            Ok(url) => url,
        };
        let headers: Vec<Header> = create_headers(params);
        Ok(Request { url, user_agent: self.user_agent.clone(), headers })
    }

    /// Decides what a fetch does at the time `now`. A record that is offered
    /// and whose deadline lies after `now` is handed back as it is, and
    /// nothing is to be sent; otherwise the request for the query is made.
    pub fn get(&self, params: Params, now: &Timestamp) -> (r: Result<Step, Error>)
        ensures
            is_fresh(params@.last_response, *now) ==> (r matches Ok(Step::Cached(record))
                && Some(record@) == params@.last_response),
            !is_fresh(params@.last_response, *now) ==> match url_with_query(
                endpoint(),
                query(params@),
            ) {
                Some(_) => r matches Ok(Step::Fetch(request, kept)) && kept@ == params@
                    && self.asks(params@, request),
                None => r matches Err(e) && e == Error::Request,
            },
    {
        let fresh: bool = match params.last_response() {
            Some(record) => record.expires_at().is_after(now),
            None => false,
        };
        if fresh {
            match params.into_last_response() {
                Some(record) => Ok(Step::Cached(record)),
                None => Err(Error::Request),
            }
        } else {
            match self.request(&params) {
                Ok(request) => Ok(Step::Fetch(request, params)),
                Err(e) => Err(e),
            }
        }
    }

    /// Concludes a fetch from the way the exchange went: a new record for a
    /// `200` reply, the offered record renewed for a `304` reply, and the
    /// failure otherwise.
    pub fn dispatch(params: Params, exchange: Exchange) -> (r: Result<Response, Error>)
        ensures
            outcome(r) == dispatched(params@.last_response, exchange),
    {
        match exchange {
            Exchange::Failed(cause) => Err(Error::HttpClient(cause)),
            Exchange::Replied(reply) => {
                if reply.status == OK {
                    handle_ok_response(&reply.headers, reply.body)
                } else if reply.status == NOT_MODIFIED {
                    handle_not_modified_response(params, &reply.headers)
                } else if reply.status == TOO_MANY_REQUESTS {
                    Err(Error::TooManyRequests)
                } else {
                    Err(Error::Rejected { status: reply.status, message: reply.reason })
                }
            },
        }
    }
}


/// A `304` reply with sound headers renews the offered record: the body is
/// the one that was offered, the deadline and the token are those of the
/// reply.
pub proof fn lemma_not_modified_keeps_body(prior: ResponseView, reply: Reply)
    requires
        reply.status == NOT_MODIFIED,
        extraction(reply.headers@) is Ok,
    ensures
        dispatched(Some(prior), Exchange::Replied(reply)) == Ok::<ResponseView, Error>(
            ResponseView {
                expires_at: extraction(reply.headers@)->Ok_0.0,
                last_modified: extraction(reply.headers@)->Ok_0.1,
                raw_body: prior.raw_body,
            },
        ),
{
}

/// A `200` reply without the `expires` header makes no record, whatever else
/// it holds and whether or not a record was offered.
pub proof fn lemma_missing_expires_is_malformed(prior: Option<ResponseView>, reply: Reply)
    requires
        reply.status == OK,
        lookup(reply.headers@, "expires"@) is None,
    ensures
        dispatched(prior, Exchange::Replied(reply)) == Err::<ResponseView, Error>(
            Error::Response(Malformed::MissingExpires),
        ),
{
}

/// A reply makes a record only if it states a deadline and a token: with
/// faulty headers neither a `200` nor a `304` reply yields one.
pub proof fn lemma_faulty_headers_make_no_record(prior: Option<ResponseView>, reply: Reply)
    requires
        extraction(reply.headers@) is Err,
    ensures
        dispatched(prior, Exchange::Replied(reply)) is Err,
        reply.status == OK || reply.status == NOT_MODIFIED ==> dispatched(
            prior,
            Exchange::Replied(reply),
        ) == Err::<ResponseView, Error>(Error::Response(extraction(reply.headers@)->Err_0)),
{
}

/// A `429` reply surfaces as `TooManyRequests` and makes no record, whether
/// or not a record was offered.
pub proof fn lemma_too_many_requests(prior: Option<ResponseView>, reply: Reply)
    requires
        reply.status == TOO_MANY_REQUESTS,
    ensures
        dispatched(prior, Exchange::Replied(reply)) == Err::<ResponseView, Error>(
            Error::TooManyRequests,
        ),
{
}

/// Only a `200` or a `304` reply makes a record.
pub proof fn lemma_records_need_success(prior: Option<ResponseView>, exchange: Exchange)
    requires
        dispatched(prior, exchange) is Ok,
    ensures
        exchange matches Exchange::Replied(reply) && (reply.status == OK || (reply.status
            == NOT_MODIFIED && prior is Some)),
{
}

} // verus!
