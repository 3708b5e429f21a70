//! Point forecasts from the Norwegian Meteorological Institute, as a typed and
//! cacheable result.
//!
//! The crate holds the decisions of one fetch: validating the coordinates,
//! telling whether the last record is still fresh, building the conditional
//! request, turning the origin's reply into a new record or an error, and
//! decoding the body of a record on demand. The network exchange itself is
//! left to the caller, which hands the current time and the reply in as plain
//! values.
//!
//! Numbers that the origin and the caller state as binary64 numbers are held
//! as their bit patterns, and all arithmetic on them is integer arithmetic.
pub mod binary64;
pub mod body;
pub mod client;
pub mod dashboard;
pub mod decimal;
pub mod error;
pub mod forecast;
pub mod header;
pub mod json;
pub mod monsoon;
pub mod text;
pub mod time;

pub use crate::body::Body;
pub use crate::client::{Client, Exchange, Reply, Request, Step};
pub use crate::error::{Error, Field, Malformed, Undecodable};
pub use crate::header::Header;
pub use crate::monsoon::{Monsoon, Params, Response};
pub use crate::time::Timestamp;
