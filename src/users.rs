//! The user routes' own rules: the body of a new user, how a path segment
//! becomes a user id, and which status each outcome of a route answers with.
use vstd::prelude::*;

verus! {

/// The fields a client sends to register a user.
#[derive(Clone, Debug)]
pub struct RegisterUser {
    pub first_name: String,
    pub last_name: String,
    pub email: String,
}

pub open spec fn is_digit(c: char) -> bool {
    '0' <= c && c <= '9'
}

/// The value of a string of decimal digits.
pub open spec fn digits_value(s: Seq<char>) -> int
    decreases s.len(),
{
    if s.len() == 0 {
        0
    } else {
        10 * digits_value(s.drop_last()) + (s.last() as int - '0' as int)
    }
}

/// A decimal `i32` as std reads one: an optional `+` or `-`, then one or more
/// digits and nothing else, with a value in range.
pub open spec fn decimal_i32(s: Seq<char>) -> Option<i32> {
    let signed = s.len() > 0 && (s[0] == '-' || s[0] == '+');
    let digits = if signed { s.drop_first() } else { s };
    let v = if signed && s[0] == '-' { -digits_value(digits) } else { digits_value(digits) };
    if digits.len() > 0 && (forall|i: int| 0 <= i < digits.len() ==> is_digit(#[trigger] digits[i]))
        && i32::MIN <= v <= i32::MAX {
        Some(v as i32)
    } else {
        None
    }
}

/// Relies on `str::parse::<i32>`: an optional sign and decimal digits, with
/// any other character, no digit at all or a value out of range an error.
#[verifier::external_body]
fn parse_i32(s: &str) -> (r: Option<i32>)
    ensures
        r == decimal_i32(s@),
{
    s.parse::<i32>().ok()
}

/// Reads the user id of a `/:user_id` path segment.
pub fn user_id_from_path(segment: &str) -> (r: Option<i32>)
    ensures
        r == decimal_i32(segment@),
{
    parse_i32(segment)
}

/// The user routes.
#[derive(Clone, Copy, Debug, PartialEq, Eq, Structural)]
pub enum UserRoute {
    /// `GET /`: all users.
    List,
    /// `GET /:user_id`.
    GetById,
    /// `POST /`.
    Add,
    /// `DELETE /:user_id`.
    Delete,
}

/// What a route got from the store.
#[derive(Clone, Copy, Debug, PartialEq, Eq, Structural)]
pub enum StoreOutcome {
    /// The store did what was asked (and found the row, for a read by id).
    Done,
    /// A read by id found no row.
    NoRow,
    /// The store failed.
    Failed,
}

pub const OK: u16 = 200;
pub const CREATED: u16 = 201;
pub const NOT_FOUND: u16 = 404;
pub const INTERNAL_SERVER_ERROR: u16 = 500;

/// The status of a path segment that is no user id: the read by id answers
/// 500, the delete 404.
pub open spec fn bad_id_status(route: UserRoute) -> u16 {
    if route == UserRoute::Delete {
        NOT_FOUND
    } else {
        INTERNAL_SERVER_ERROR
    }
}

/// The status of a route once the store has answered.
pub open spec fn outcome_status(route: UserRoute, outcome: StoreOutcome) -> u16 {
    match outcome {
        StoreOutcome::Failed => INTERNAL_SERVER_ERROR,
        StoreOutcome::NoRow => NOT_FOUND,
        StoreOutcome::Done => if route == UserRoute::Add {
            CREATED
        } else {
            OK
        },
    }
}

/// The status for a path segment that did not read as a user id.
pub fn unparsable_id_status(route: UserRoute) -> (r: u16)
    ensures
        r == bad_id_status(route),
{
    match route {
        UserRoute::Delete => NOT_FOUND,
        _ => INTERNAL_SERVER_ERROR,
    }
}

/// The status a route answers with for the store's outcome.
pub fn route_status(route: UserRoute, outcome: StoreOutcome) -> (r: u16)
    ensures
        r == outcome_status(route, outcome),
{
    match outcome {
        StoreOutcome::Failed => INTERNAL_SERVER_ERROR,
        StoreOutcome::NoRow => NOT_FOUND,
        StoreOutcome::Done => match route {
            UserRoute::Add => CREATED,
            _ => OK,
        },
    }
}

} // verus!
