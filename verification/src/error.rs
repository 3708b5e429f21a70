//! What can go wrong with a fetch.
use vstd::prelude::*;

verus! {

/// The parameter that was refused.
#[derive(Clone, Copy, Debug, PartialEq, Eq, Structural)]
pub enum Field {
    /// The latitude is not a finite number within ±90 degrees.
    Latitude,
    /// The longitude is not a finite number within ±180 degrees.
    Longitude,
    /// The altitude is not within -500 to 9000 metres.
    Altitude,
}

/// The way in which a reply broke the origin's contract.
#[derive(Clone, Copy, Debug, PartialEq, Eq, Structural)]
pub enum Malformed {
    /// There is no `expires` header.
    MissingExpires,
    /// The `expires` header holds bytes that are no visible text.
    InvalidExpires,
    /// There is no `last-modified` header.
    MissingLastModified,
    /// The `last-modified` header holds bytes that are no visible text.
    InvalidLastModified,
    /// The `expires` header is no date.
    UnparsableExpires,
    /// The body of a `200` reply could not be read as text.
    UnreadableBody,
    /// A `304` reply came although no earlier record was offered.
    UnexpectedNotModified,
}

/// The way in which a body could not be decoded.
#[derive(Clone, Copy, Debug, PartialEq, Eq, Structural)]
pub enum Undecodable {
    /// The text is no JSON document.
    Syntax,
    /// The document lacks a required member, or holds a member of the wrong
    /// kind.
    Schema,
}

/// The ways in which a fetch fails. Each kind is told apart by its variant.
#[derive(Clone, Debug, PartialEq, Eq)]
pub enum Error {
    /// The transport failed, or the client could not be set up; the text
    /// says how.
    HttpClient(String),
    /// The origin answered `429`: the caller is to back off.
    TooManyRequests,
    /// The origin answered with a status other than `200`, `304` and `429`.
    Rejected { status: u16, message: String },
    /// The origin's reply broke its contract.
    Response(Malformed),
    /// The request could not be built.
    Request,
    /// The body of a record is not the expected document.
    ResponseBody(Undecodable),
    /// A parameter was refused before any request was made.
    Params(Field),
}


impl Field {
    /// The words for the refusal.
    pub open spec fn text(self) -> Seq<char> {
        match self {
            Field::Latitude => "Invalid lat value."@,
            Field::Longitude => "Invalid lon value."@,
            Field::Altitude => "Invalid alt value."@,
        }
    }

    /// The words for the refusal; each field has its own.
    pub fn message(&self) -> (r: &'static str)
        ensures
            r@ == self.text(),
    {
        match self {
            Field::Latitude => "Invalid lat value.",
            Field::Longitude => "Invalid lon value.",
            Field::Altitude => "Invalid alt value.",
        }
    }
}

impl Malformed {
    /// The words for the fault.
    pub open spec fn text(self) -> Seq<char> {
        match self {
            Malformed::MissingExpires => "Missing expires header"@,
            Malformed::InvalidExpires => "Invalid expires header."@,
            Malformed::MissingLastModified => "Missing last-modified header"@,
            Malformed::InvalidLastModified => "Invalid last-modified header."@,
            Malformed::UnparsableExpires => "Unable to parse expires header."@,
            Malformed::UnreadableBody => "Failed to decode response."@,
            Malformed::UnexpectedNotModified => "304 only with a valid last response"@,
        }
    }

    /// The words for the fault.
    pub fn message(&self) -> (r: &'static str)
        ensures
            r@ == self.text(),
    {
        match self {
            Malformed::MissingExpires => "Missing expires header",
            Malformed::InvalidExpires => "Invalid expires header.",
            Malformed::MissingLastModified => "Missing last-modified header",
            Malformed::InvalidLastModified => "Invalid last-modified header.",
            Malformed::UnparsableExpires => "Unable to parse expires header.",
            Malformed::UnreadableBody => "Failed to decode response.",
            Malformed::UnexpectedNotModified => "304 only with a valid last response",
        }
    }
}

impl Error {
    /// The words for the kind of failure.
    pub open spec fn text(self) -> Seq<char> {
        match self {
            Error::HttpClient(_) => "An error occured while working with the Http client."@,
            Error::TooManyRequests => "Too many requests (HTTP 429)"@,
            Error::Rejected { .. } => "Invalid or unexpected response."@,
            Error::Response(_) => "Invalid or unexpected response."@,
            Error::Request => "An error while building a request."@,
            Error::ResponseBody(_) => "Unable to deserialize the JSON body."@,
            Error::Params(_) => "Invalid params provided."@,
        }
    }

    /// The words for the kind of failure.
    pub fn message(&self) -> (r: String)
        ensures
            r@ == self.text(),
    {
        match self {
            Error::HttpClient(_) => "An error occured while working with the Http client.".to_owned(),
            Error::TooManyRequests => "Too many requests (HTTP 429)".to_owned(),
            Error::Rejected { .. } => "Invalid or unexpected response.".to_owned(),
            Error::Response(_) => "Invalid or unexpected response.".to_owned(),
            Error::Request => "An error while building a request.".to_owned(),
            Error::ResponseBody(_) => "Unable to deserialize the JSON body.".to_owned(),
            Error::Params(_) => "Invalid params provided.".to_owned(),
        }
    }
}

} // verus!
