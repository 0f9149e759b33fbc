//! Identity keys. A key is a UUID, held as its 128-bit number.

use crate::response::{outcome_view, ApiErrorType, ApiErrorView, ApiResource};
use vstd::prelude::*;

verus! {

/// The identity key that the `uuid` crate reads from a text: `None` where
/// the text is not a UUID in one of the forms that the crate accepts.
pub uninterp spec fn uuid_parse(text: Seq<char>) -> Option<u128>;

/// The text under which the `uuid` crate prints an identity key.
pub uninterp spec fn uuid_text(id: u128) -> Seq<char>;

/// Parses `text` with `uuid::Uuid::parse_str` and hands out the number of
/// the UUID, as `Uuid::as_u128` gives it. The contract gives the outcome a
/// name and says no more of it.
#[verifier::external_body]
pub(crate) fn parse_uuid(text: &str) -> (id: Option<u128>)
    ensures
        id == uuid_parse(text@),
{
    match uuid::Uuid::parse_str(text) {
        Ok(parsed) => Some(parsed.as_u128()),
        Err(_) => None,
    }
}

/// Prints the UUID with the number `id`, made by `uuid::Uuid::from_u128`,
/// as `Uuid`'s `Display` does. The contract gives the text a name and says
/// one thing of it: the text is in the hyphenated form, which
/// `Uuid::parse_str` reads back as the same UUID.
#[verifier::external_body]
pub(crate) fn format_uuid(id: u128) -> (text: String)
    ensures
        text@ == uuid_text(id),
        uuid_parse(text@) == Some(id),
{
    uuid::Uuid::from_u128(id).to_string()
}

/// What becomes of a path parameter once it has been parsed: the key that
/// was read, or the error that names the resource addressed.
pub open spec fn id_param_outcome(parsed: Option<u128>, resource: ApiResource) -> Result<
    u128,
    ApiErrorView,
> {
    match parsed {
        Some(id) => Ok(id),
        None => Err(ApiErrorView::InvalidIdParam(resource)),
    }
}

/// Decides what becomes of a path parameter, given what parsing it gave.
pub fn id_from_parsing(parsed: Option<u128>, resource: ApiResource) -> (r: Result<
    u128,
    ApiErrorType,
>)
    ensures
        outcome_view(r) == id_param_outcome(parsed, resource),
{
    match parsed {
        Some(id) => Ok(id),
        None => Err(ApiErrorType::InvalidIdParam(resource)),
    }
}

/// Reads an identity key from a path parameter. A parameter that is no
/// UUID is reported with the resource that the path addresses.
pub fn validate_uuid(uuid: String, resource: ApiResource) -> (r: Result<u128, ApiErrorType>)
    ensures
        outcome_view(r) == id_param_outcome(uuid_parse(uuid@), resource),
{
    id_from_parsing(parse_uuid(uuid.as_str()), resource)
}

} // verus!
