//! The catalog service's response shapes and how a response status is classified.
//!
//! Floating-point values that the catalog reports (positions, security status) are
//! carried through untouched as the bit patterns of their IEEE-754 doubles.
use vstd::prelude::*;

verus! {

/// A planet of a system, as the catalog lists it.
#[derive(Clone, Debug)]
pub struct Planet {
    pub planet_id: i64,
    pub asteroid_belts: Option<Vec<i64>>,
    pub moons: Option<Vec<i64>>,
}

/// A position in space; each coordinate is the bit pattern of an IEEE-754 double.
#[derive(Clone, Copy, Debug, PartialEq, Eq, Structural)]
pub struct Position {
    pub x: u64,
    pub y: u64,
    pub z: u64,
}

/// Details of one system; most fields are optional in the catalog.
#[derive(Clone, Debug)]
pub struct SystemResponse {
    pub constellation_id: Option<i64>,
    pub name: Option<String>,
    pub planets: Option<Vec<Planet>>,
    pub position: Position,
    pub security_class: Option<String>,
    /// Bit pattern of the IEEE-754 double.
    pub security_status: u64,
    pub star_id: Option<i64>,
    pub stargates: Option<Vec<i64>>,
    pub system_id: i64,
}

/// The far end of a stargate.
#[derive(Clone, Copy, Debug, PartialEq, Eq, Structural)]
pub struct Destination {
    pub stargate_id: i64,
    pub system_id: i64,
}

/// Details of one stargate.
#[derive(Clone, Debug)]
pub struct StargateResponse {
    pub destination: Destination,
    pub name: String,
    pub position: Position,
    pub stargate_id: i64,
    pub system_id: i64,
    pub type_id: i64,
}

/// Ship kills of one system in the last hour.
#[derive(Clone, Copy, Debug, PartialEq, Eq, Structural)]
pub struct SystemKills {
    pub ship_kills: u32,
    pub system_id: i64,
}

/// Ship jumps into one system in the last hour.
#[derive(Clone, Copy, Debug, PartialEq, Eq, Structural)]
pub struct SystemJumps {
    pub ship_jumps: u32,
    pub system_id: i64,
}

/// Why a catalog request failed.
#[derive(Debug)]
pub enum RequestError {
    /// The transport failed; the message describes how.
    HttpError(String),
    /// The body could not be read as the expected shape; the message says why.
    ParseError(String),
    /// Status 420 or 429: fatal to the enclosing batch.
    RateLimited { body: String },
    /// Status 404.
    NotFound { body: String },
    /// Status 5xx.
    ServerError { status: u16, body: String },
    /// Any other status outside 2xx.
    UnexpectedError { status: u16, body: String },
}

/// The kind of outcome that a response status stands for.
#[derive(Clone, Copy, Debug, PartialEq, Eq, Structural)]
pub enum StatusKind {
    Success,
    NotFound,
    RateLimited,
    ServerError,
    Unexpected,
}

pub open spec fn status_kind(status: u16) -> StatusKind {
    if 200 <= status < 300 {
        StatusKind::Success
    } else if status == 404 {
        StatusKind::NotFound
    } else if status == 420 || status == 429 {
        StatusKind::RateLimited
    } else if 500 <= status < 600 {
        StatusKind::ServerError
    } else {
        StatusKind::Unexpected
    }
}

impl RequestError {
    /// The status kind that this error stands for, if it came from a status.
    pub open spec fn kind(self) -> Option<StatusKind> {
        match self {
            RequestError::HttpError(_) => None,
            RequestError::ParseError(_) => None,
            RequestError::RateLimited { .. } => Some(StatusKind::RateLimited),
            RequestError::NotFound { .. } => Some(StatusKind::NotFound),
            RequestError::ServerError { .. } => Some(StatusKind::ServerError),
            RequestError::UnexpectedError { .. } => Some(StatusKind::Unexpected),
        }
    }

    /// Whether this error must abort the whole batch that it arose in.
    pub fn is_rate_limited(&self) -> (r: bool)
        ensures
            r == (self.kind() == Some(StatusKind::RateLimited)),
    {
        match self {
            RequestError::RateLimited { .. } => true,
            _ => false,
        }
    }
}

/// `e` is the error that a response with this status and body stands for.
pub open spec fn is_status_error(status: u16, body: String, e: RequestError) -> bool {
    match e {
        RequestError::NotFound { body: b } => status == 404 && b == body,
        RequestError::RateLimited { body: b } => (status == 420 || status == 429) && b == body,
        RequestError::ServerError { status: s, body: b } => status_kind(status)
            == StatusKind::ServerError && s == status && b == body,
        RequestError::UnexpectedError { status: s, body: b } => status_kind(status)
            == StatusKind::Unexpected && s == status && b == body,
        _ => false,
    }
}

/// Classifies a catalog response by its status; `body` is the response text,
/// kept in the error. A success leaves the body to be parsed by the caller.
pub fn classify_status(status: u16, body: String) -> (r: Result<(), RequestError>)
    ensures
        status_kind(status) == StatusKind::Success <==> r is Ok,
        r matches Err(e) ==> is_status_error(status, body, e),
{
    if 200 <= status && status < 300 {
        Ok(())
    } else if status == 404 {
        Err(RequestError::NotFound { body })
    } else if status == 420 || status == 429 {
        Err(RequestError::RateLimited { body })
    } else if 500 <= status && status < 600 {
        Err(RequestError::ServerError { status, body })
    } else {
        Err(RequestError::UnexpectedError { status, body })
    }
}

/// The integers of `text` when it holds a JSON array of 64-bit integers, in order.
pub uninterp spec fn id_list_of(text: Seq<char>) -> Option<Seq<i64>>;

/// Relies on `serde_json::from_str` reading a JSON array of integers into a
/// `Vec<i64>`: whether it succeeds, and with what, depends on the text alone.
/// A failure comes back as the error's message.
#[verifier::external_body]
fn parse_id_list(text: &str) -> (r: Result<Vec<i64>, String>)
    ensures
        match r {
            Ok(ids) => id_list_of(text@) == Some(ids@),
            Err(_) => id_list_of(text@) is None,
        },
{
    match serde_json::from_str(text) {
        Ok(ids) => Ok(ids),
        Err(e) => Err(e.to_string()),
    }
}

/// The ids of a listing response (such as the catalog's system listing): the
/// status's error when it is not a success, else the body read as a JSON array
/// of integers, or a parse error when it is not one.
pub fn id_listing_from_response(status: u16, body: String) -> (r: Result<Vec<i64>, RequestError>)
    ensures
        r is Ok <==> (status_kind(status) == StatusKind::Success && id_list_of(body@) is Some),
        r matches Ok(ids) ==> id_list_of(body@) == Some(ids@),
        r matches Err(e) ==> if status_kind(status) == StatusKind::Success {
            e is ParseError
        } else {
            is_status_error(status, body, e)
        },
{
    match classify_status(status, body.clone()) {
        Err(e) => Err(e),
        Ok(()) => match parse_id_list(body.as_str()) {
            Ok(ids) => Ok(ids),
            Err(e) => Err(RequestError::ParseError(e)),
        },
    }
}

} // verus!
