//! Form and response identifiers: reading them from request paths, minting
//! new ones, and the names derived from them.
use vstd::prelude::*;
use vstd::arithmetic::power::pow;
use vstd::string::*;
use crate::error::AppError;

verus! {

/// The 128-bit value that `uuid::Uuid::parse_str` reads from `s`, if it accepts `s`.
pub uninterp spec fn uuid_of(s: Seq<char>) -> Option<u128>;

/// The lowercase hexadecimal digit of `d`, for `0 <= d < 16`.
pub open spec fn hex_digit(d: int) -> char {
    seq!['0', '1', '2', '3', '4', '5', '6', '7', '8', '9', 'a', 'b', 'c', 'd', 'e', 'f'][d]
}

/// The 32 lowercase hexadecimal digits of `id`, most significant first.
pub open spec fn simple_text(id: u128) -> Seq<char> {
    Seq::new(32, |i: int| hex_digit((id as int / pow(16, (31 - i) as nat)) % 16))
}

/// The canonical text of `id`: its hex digits grouped 8-4-4-4-12 by hyphens.
pub open spec fn hyphenated_text(id: u128) -> Seq<char> {
    let s = simple_text(id);
    s.subrange(0, 8) + seq!['-'] + s.subrange(8, 12) + seq!['-'] + s.subrange(12, 16) + seq!['-']
        + s.subrange(16, 20) + seq!['-'] + s.subrange(20, 32)
}

/// The name of the storage table that holds the responses to form `form_id`.
pub open spec fn response_table_text(form_id: u128) -> Seq<char> {
    "form_portal.form_responses_"@ + simple_text(form_id)
}

/// Relies on uuid::Uuid::parse_str (and Uuid::as_u128) to read an identifier;
/// it never panics.
#[verifier::external_body]
fn parse_uuid(s: &str) -> (r: Option<u128>)
    ensures
        r == uuid_of(s@),
{
    match uuid::Uuid::parse_str(s) {
        Ok(u) => Some(u.as_u128()),
        Err(_) => None,
    }
}

/// Relies on the Display of uuid::fmt::Simple (from Uuid::from_u128 and
/// Uuid::simple): the 32 lowercase hex digits, most significant first.
#[verifier::external_body]
fn simple_string(id: u128) -> (r: String)
    ensures
        r@ == simple_text(id),
{
    uuid::Uuid::from_u128(id).simple().to_string()
}

/// Relies on the Display of uuid::Uuid (from Uuid::from_u128): lowercase hex
/// digits grouped 8-4-4-4-12 by hyphens, a form Uuid::parse_str reads back.
#[verifier::external_body]
pub(crate) fn hyphenated_string(id: u128) -> (r: String)
    ensures
        r@ == hyphenated_text(id),
        uuid_of(r@) == Some(id),
{
    uuid::Uuid::from_u128(id).to_string()
}

/// What a path segment that `uuid_of` read as `parsed` resolves to.
pub open spec fn path_id_outcome(parsed: Option<u128>, r: Result<u128, AppError>) -> bool {
    match parsed {
        Some(id) => r == Ok::<u128, AppError>(id),
        None => match r {
            Err(AppError::BadRequest(m)) => m@ == "Invalid UUID format"@,
            _ => false,
        },
    }
}

/// Turns the outcome of reading a path segment as an identifier into the
/// identifier, or the client error for a malformed one.
pub fn form_id_from_parsed(parsed: Option<u128>) -> (r: Result<u128, AppError>)
    ensures
        path_id_outcome(parsed, r),
{
    match parsed {
        Some(id) => Ok(id),
        None => Err(AppError::BadRequest(String::from_str("Invalid UUID format"))),
    }
}

/// Reads the form identifier of a request path. A malformed one is a
/// `BadRequest`, decided before any storage is touched.
pub fn parse_form_id(path: &str) -> (r: Result<u128, AppError>)
    ensures
        path_id_outcome(uuid_of(path@), r),
        uuid_of(path@) is None ==> r matches Err(AppError::BadRequest(_)),
{
    form_id_from_parsed(parse_uuid(path))
}

/// The identifier a record gets: the one it was given, else `drawn`.
pub open spec fn assigned_id(given: Option<u128>, drawn: u128) -> u128 {
    match given {
        Some(id) => id,
        None => drawn,
    }
}

/// The identifier a new record gets: the one it was given, else `drawn`, a
/// fresh random identifier drawn by the caller.
pub fn assign_id(given: Option<u128>, drawn: u128) -> (r: u128)
    ensures
        r == assigned_id(given, drawn),
{
    match given {
        Some(id) => id,
        None => drawn,
    }
}

/// The canonical text of an identifier reads back as that identifier.
pub fn canonical_text(id: u128) -> (r: String)
    ensures
        r@ == hyphenated_text(id),
        uuid_of(r@) == Some(id),
{
    hyphenated_string(id)
}

/// The name of the table that holds the responses to form `form_id`.
pub fn response_table_name(form_id: u128) -> (r: String)
    ensures
        r@ == response_table_text(form_id),
{
    let hex = simple_string(form_id);
    String::from_str("form_portal.form_responses_").concat(hex.as_str())
}

} // verus!
