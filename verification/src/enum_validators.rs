//! The enum validators of the domain: the generic validators, each with the
//! token table of one enumeration.

use crate::models::{Gender, UserRole, WhoCan};
use crate::raw::RawFieldValue;
use crate::response::ValidationError;
use crate::validator::{
    enum_array_field_errors, enum_array_field_value, enum_field_errors, enum_field_value,
    list_view, table_view, tokens_are_distinct, validate_enum_array_field, validate_enum_field,
    TriState,
};
use vstd::prelude::*;

verus! {

/// The tokens that name a gender.
pub open spec fn gender_tokens() -> Seq<(Gender, Seq<char>)> {
    seq![(Gender::Male, "MALE"@), (Gender::Female, "FEMALE"@)]
}

/// The tokens that name a user role.
pub open spec fn user_role_tokens() -> Seq<(UserRole, Seq<char>)> {
    seq![(UserRole::User, "USER"@), (UserRole::Manager, "MANAGER"@), (UserRole::Root, "ROOT"@)]
}

/// The tokens that name an audience in a request. `WhoCan::Root` has none:
/// no request can ask for it.
pub open spec fn who_can_tokens() -> Seq<(WhoCan, Seq<char>)> {
    seq![(WhoCan::Followed, "FOLLOWED"@), (WhoCan::Followers, "FOLLOWERS"@)]
}

/// In each of the three tables no two variants share a token, so that a
/// token names one variant and a variant has one token.
pub proof fn lemma_domain_tokens_are_distinct()
    ensures
        tokens_are_distinct(gender_tokens()),
        tokens_are_distinct(user_role_tokens()),
        tokens_are_distinct(who_can_tokens()),
{
    reveal_strlit("MALE");
    reveal_strlit("FEMALE");
    reveal_strlit("USER");
    reveal_strlit("MANAGER");
    reveal_strlit("ROOT");
    reveal_strlit("FOLLOWED");
    reveal_strlit("FOLLOWERS");
    assert("MALE"@.len() != "FEMALE"@.len());
    assert("USER"@.len() != "MANAGER"@.len());
    assert("USER"@[0] != "ROOT"@[0]);
    assert("MANAGER"@.len() != "ROOT"@.len());
    assert("FOLLOWED"@.len() != "FOLLOWERS"@.len());
}

/// The table of the genders, row by row.
fn gender_table() -> (table: Vec<(Gender, String)>)
    ensures
        table_view(table@) == gender_tokens(),
{
    let mut table: Vec<(Gender, String)> = Vec::new();
    table.push((Gender::Male, "MALE".to_owned()));
    table.push((Gender::Female, "FEMALE".to_owned()));
    assert(table_view(table@) =~= gender_tokens());
    table
}

/// The table of the user roles, row by row.
fn user_role_table() -> (table: Vec<(UserRole, String)>)
    ensures
        table_view(table@) == user_role_tokens(),
{
    let mut table: Vec<(UserRole, String)> = Vec::new();
    table.push((UserRole::User, "USER".to_owned()));
    table.push((UserRole::Manager, "MANAGER".to_owned()));
    table.push((UserRole::Root, "ROOT".to_owned()));
    assert(table_view(table@) =~= user_role_tokens());
    table
}

/// The table of the audiences, row by row.
fn who_can_table() -> (table: Vec<(WhoCan, String)>)
    ensures
        table_view(table@) == who_can_tokens(),
{
    let mut table: Vec<(WhoCan, String)> = Vec::new();
    table.push((WhoCan::Followed, "FOLLOWED".to_owned()));
    table.push((WhoCan::Followers, "FOLLOWERS".to_owned()));
    assert(table_view(table@) =~= who_can_tokens());
    table
}

/// Validates a field that must name a gender.
pub fn validate_gender_enum_field(
    value: &RawFieldValue,
    name: &str,
    errors: &mut Vec<ValidationError>,
    optional: bool,
) -> (r: Option<Gender>)
    ensures
        r == enum_field_value(value.deep_view(), gender_tokens()),
        final(errors).deep_view() == old(errors).deep_view() + enum_field_errors(
            value.deep_view(),
            name@,
            gender_tokens(),
            optional,
        ),
{
    let table = gender_table();
    validate_enum_field(value, name, &table, errors, optional)
}

/// Validates a field that must name a user role.
pub fn validate_user_role_enum_field(
    value: &RawFieldValue,
    name: &str,
    errors: &mut Vec<ValidationError>,
    optional: bool,
) -> (r: Option<UserRole>)
    ensures
        r == enum_field_value(value.deep_view(), user_role_tokens()),
        final(errors).deep_view() == old(errors).deep_view() + enum_field_errors(
            value.deep_view(),
            name@,
            user_role_tokens(),
            optional,
        ),
{
    let table = user_role_table();
    validate_enum_field(value, name, &table, errors, optional)
}

/// Validates a field that must name an audience.
pub fn validate_who_can_enum_field(
    value: &RawFieldValue,
    name: &str,
    errors: &mut Vec<ValidationError>,
    optional: bool,
) -> (r: Option<WhoCan>)
    ensures
        r == enum_field_value(value.deep_view(), who_can_tokens()),
        final(errors).deep_view() == old(errors).deep_view() + enum_field_errors(
            value.deep_view(),
            name@,
            who_can_tokens(),
            optional,
        ),
{
    let table = who_can_table();
    validate_enum_field(value, name, &table, errors, optional)
}

/// Validates a field that must hold a list of audiences, or `null` where
/// the list can be cleared.
pub fn validate_who_can_enum_array_field(
    value: &RawFieldValue,
    name: &str,
    errors: &mut Vec<ValidationError>,
    optional: bool,
    nullable: bool,
) -> (r: TriState<Vec<WhoCan>>)
    ensures
        list_view(r) == enum_array_field_value(value.deep_view(), who_can_tokens(), nullable),
        final(errors).deep_view() == old(errors).deep_view() + enum_array_field_errors(
            value.deep_view(),
            name@,
            who_can_tokens(),
            optional,
            nullable,
        ),
{
    let table = who_can_table();
    validate_enum_array_field(value, name, &table, errors, optional, nullable)
}

} // verus!
