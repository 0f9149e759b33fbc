//! Command builders. Each resource has a table of its fields: the key of
//! each field, what the field must hold, and whether it can be left out or
//! cleared. A builder runs the validator of every row over the body of a
//! request, whatever the earlier ones found, and yields the typed command
//! only if none of them reported anything.

use crate::enum_validators::{
    gender_tokens, user_role_tokens, validate_gender_enum_field, validate_user_role_enum_field,
    validate_who_can_enum_array_field, who_can_tokens,
};
use crate::models::{Gender, UserRole, WhoCan};
use crate::raw::{field_of, RawBody, RawFieldValue, RawValueView};
use crate::response::{ApiErrorType, ApiErrorView, ValidationError, ValidationErrorView};
use crate::validator::{
    all_elements_valid, boolean_field_errors, boolean_field_value, element_values,
    enum_array_field_errors, enum_array_field_value, enum_field_errors, enum_field_value,
    formatted_field_errors, formatted_field_value, lemma_each_invalid_element_is_reported,
    list_view, string_field_errors, string_field_value, validate_boolean_field,
    validate_email_field, validate_string_field, FieldLength, TextFormat, TriState,
};
use vstd::prelude::*;

verus! {

/// The bounds of a text of at most `max` bytes.
pub open spec fn at_most(max: usize) -> FieldLength {
    FieldLength { min: None, max: Some(max) }
}

/// What a field of a resource must hold.
pub enum FieldKind {
    /// A text within bounds.
    Text(FieldLength),
    /// An e-mail address within bounds.
    Email(FieldLength),
    /// `true` or `false`.
    Flag,
    /// The token of a gender.
    Gender,
    /// The token of a user role.
    UserRole,
    /// A list of tokens of audiences.
    Audiences,
}

/// One row of the field table of a resource.
pub struct FieldRule {
    /// The key under which a body holds the field.
    pub key: Seq<char>,
    pub kind: FieldKind,
    /// Whether a body can leave the field out.
    pub optional: bool,
    /// Whether `null` clears the field.
    pub nullable: bool,
}

/// The row of a field that a body must hold.
pub open spec fn required(key: Seq<char>, kind: FieldKind) -> FieldRule {
    FieldRule { key, kind, optional: false, nullable: false }
}

/// The row of a field that a body can leave out.
pub open spec fn optional(key: Seq<char>, kind: FieldKind) -> FieldRule {
    FieldRule { key, kind, optional: true, nullable: false }
}

/// The row of a field that a body can leave out or clear.
pub open spec fn clearable(key: Seq<char>, kind: FieldKind) -> FieldRule {
    FieldRule { key, kind, optional: true, nullable: true }
}

impl FieldRule {
    /// What is wrong with the field in a body: what the validator of its
    /// kind reports for the value under its key.
    pub open spec fn errors(self, body: Map<Seq<char>, RawValueView>) -> Seq<ValidationErrorView> {
        let value = field_of(body, self.key);
        match self.kind {
            FieldKind::Text(bounds) => string_field_errors(value, self.key, bounds, self.optional),
            FieldKind::Email(bounds) => formatted_field_errors(
                TextFormat::Email,
                value,
                self.key,
                bounds,
                self.optional,
            ),
            FieldKind::Flag => boolean_field_errors(value, self.key, self.optional),
            FieldKind::Gender => enum_field_errors(
                value,
                self.key,
                gender_tokens(),
                self.optional,
            ),
            FieldKind::UserRole => enum_field_errors(
                value,
                self.key,
                user_role_tokens(),
                self.optional,
            ),
            FieldKind::Audiences => enum_array_field_errors(
                value,
                self.key,
                who_can_tokens(),
                self.optional,
                self.nullable,
            ),
        }
    }

    /// The text that a body holds in a field of texts or of e-mail
    /// addresses.
    pub open spec fn text(self, body: Map<Seq<char>, RawValueView>) -> Option<Seq<char>> {
        match self.kind {
            FieldKind::Text(bounds) => string_field_value(field_of(body, self.key), bounds),
            FieldKind::Email(bounds) => formatted_field_value(
                TextFormat::Email,
                field_of(body, self.key),
                bounds,
            ),
            _ => None,
        }
    }

    /// The flag that a body holds in a field of flags.
    pub open spec fn flag(self, body: Map<Seq<char>, RawValueView>) -> Option<bool> {
        match self.kind {
            FieldKind::Flag => boolean_field_value(field_of(body, self.key)),
            _ => None,
        }
    }

    /// The gender that a body names in a field of genders.
    pub open spec fn gender(self, body: Map<Seq<char>, RawValueView>) -> Option<Gender> {
        match self.kind {
            FieldKind::Gender => enum_field_value(field_of(body, self.key), gender_tokens()),
            _ => None,
        }
    }

    /// The user role that a body names in a field of user roles.
    pub open spec fn user_role(self, body: Map<Seq<char>, RawValueView>) -> Option<UserRole> {
        match self.kind {
            FieldKind::UserRole => enum_field_value(field_of(body, self.key), user_role_tokens()),
            _ => None,
        }
    }

    /// What a body says of the audiences of a field of audiences.
    pub open spec fn audiences(self, body: Map<Seq<char>, RawValueView>) -> TriState<Seq<WhoCan>> {
        match self.kind {
            FieldKind::Audiences => enum_array_field_value(
                field_of(body, self.key),
                who_can_tokens(),
                self.nullable,
            ),
            _ => TriState::Absent,
        }
    }
}

/// What is wrong with the first `upto` fields of a table: the errors of
/// each row, in the order of the rows.
pub open spec fn table_errors(
    body: Map<Seq<char>, RawValueView>,
    table: Seq<FieldRule>,
    upto: int,
) -> Seq<ValidationErrorView>
    decreases upto,
{
    if upto <= 0 || upto > table.len() {
        seq![]
    } else {
        table_errors(body, table, upto - 1) + table[upto - 1].errors(body)
    }
}

/// Everything that is wrong with a body, by the table of a resource.
pub open spec fn all_errors(body: Map<Seq<char>, RawValueView>, table: Seq<FieldRule>) -> Seq<
    ValidationErrorView,
> {
    table_errors(body, table, table.len() as int)
}

/// A body with which nothing is wrong is in order in every field.
pub proof fn lemma_no_errors_in_any_field(
    body: Map<Seq<char>, RawValueView>,
    table: Seq<FieldRule>,
    upto: int,
)
    requires
        0 <= upto <= table.len(),
        table_errors(body, table, upto).len() == 0,
    ensures
        forall|i: int| 0 <= i < upto ==> (#[trigger] table[i]).errors(body).len() == 0,
    decreases upto,
{
    if upto > 0 {
        lemma_no_errors_in_any_field(body, table, upto - 1);
    }
}

/// The number of the first `upto` fields of a table with which something
/// is wrong.
pub open spec fn invalid_fields(
    body: Map<Seq<char>, RawValueView>,
    table: Seq<FieldRule>,
    upto: int,
) -> nat
    decreases upto,
{
    if upto <= 0 || upto > table.len() {
        0
    } else {
        invalid_fields(body, table, upto - 1) + if table[upto - 1].errors(body).len() > 0 {
            1nat
        } else {
            0nat
        }
    }
}

/// A field that holds one value is reported at most once, so that a body
/// is reported once for each such field with which something is wrong:
/// the errors of a table without lists are as many as its invalid fields.
pub proof fn lemma_one_error_for_each_invalid_field(
    body: Map<Seq<char>, RawValueView>,
    table: Seq<FieldRule>,
    upto: int,
)
    requires
        0 <= upto <= table.len(),
        forall|i: int| 0 <= i < table.len() ==> !((#[trigger] table[i]).kind is Audiences),
    ensures
        table_errors(body, table, upto).len() == invalid_fields(body, table, upto),
        forall|i: int| 0 <= i < table.len() ==> (#[trigger] table[i]).errors(body).len() <= 1,
    decreases upto,
{
    if upto > 0 {
        lemma_one_error_for_each_invalid_field(body, table, upto - 1);
    }
}

/// A table without required fields finds nothing wrong with a body that
/// mentions none of its fields.
pub proof fn lemma_empty_update_is_in_order(table: Seq<FieldRule>, upto: int)
    requires
        0 <= upto <= table.len(),
        forall|i: int| 0 <= i < table.len() ==> (#[trigger] table[i]).optional,
    ensures
        table_errors(Map::empty(), table, upto).len() == 0,
    decreases upto,
{
    if upto > 0 {
        lemma_empty_update_is_in_order(table, upto - 1);
    }
}

/// What a body says of a field that can be cleared, by what it holds
/// under the key: no key leaves the attribute as it is, `null` clears it,
/// and a list of audiences sets it; none of the three is reported.
pub proof fn lemma_clearable_field_is_left_cleared_or_set(
    body: Map<Seq<char>, RawValueView>,
    key: Seq<char>,
    items: Seq<RawValueView>,
)
    ensures
        ({
            let rule = clearable(key, FieldKind::Audiences);
            &&& !body.dom().contains(key) ==> rule.audiences(body) == TriState::<
                Seq<WhoCan>,
            >::Absent && rule.errors(body).len() == 0
            &&& body.dom().contains(key) && body[key] == RawValueView::Null ==> rule.audiences(
                body,
            ) == TriState::<Seq<WhoCan>>::SetNull && rule.errors(body).len() == 0
            &&& body.dom().contains(key) && body[key] == RawValueView::Array(items)
                && all_elements_valid(items, who_can_tokens()) ==> rule.audiences(body)
                == TriState::SetValue(element_values(items, who_can_tokens())) && rule.errors(
                body,
            ).len() == 0
        }),
{
    if body.dom().contains(key) && body[key] == RawValueView::Array(items) && all_elements_valid(
        items,
        who_can_tokens(),
    ) {
        lemma_each_invalid_element_is_reported(items, key, who_can_tokens(), items.len() as int);
    }
}

/// The column of an attribute, where a command mentions the attribute.
pub open spec fn column_if(mentioned: bool, column: Seq<char>) -> Seq<Seq<char>> {
    if mentioned {
        seq![column]
    } else {
        seq![]
    }
}

/// Adds the column of an attribute to a list, where a command mentions the
/// attribute.
fn push_column(columns: &mut Vec<&'static str>, mentioned: bool, column: &'static str)
    ensures
        final(columns).deep_view() == old(columns).deep_view() + column_if(mentioned, column@),
{
    if mentioned {
        columns.push(column);
    }
    assert(columns.deep_view() =~= old(columns).deep_view() + column_if(mentioned, column@));
}

/// The data of a user to be created.
#[derive(Debug, Clone, PartialEq, Eq)]
pub struct InsertUserData {
    pub name: String,
    pub gender: Gender,
    pub role: UserRole,
    pub bio: Option<String>,
    pub email: String,
    pub username: String,
    pub password: String,
    pub activated: bool,
    pub verified: bool,
}

/// The mathematical value of an [`InsertUserData`].
pub struct InsertUserDataView {
    pub name: Seq<char>,
    pub gender: Gender,
    pub role: UserRole,
    pub bio: Option<Seq<char>>,
    pub email: Seq<char>,
    pub username: Seq<char>,
    pub password: Seq<char>,
    pub activated: bool,
    pub verified: bool,
}

impl DeepView for InsertUserData {
    type V = InsertUserDataView;

    open spec fn deep_view(&self) -> InsertUserDataView {
        InsertUserDataView {
            name: self.name@,
            gender: self.gender,
            role: self.role,
            bio: self.bio.deep_view(),
            email: self.email@,
            username: self.username@,
            password: self.password@,
            activated: self.activated,
            verified: self.verified,
        }
    }
}

impl InsertUserData {
    /// The fields of a user to be created, in the order in which they are
    /// validated. Every field but `bio` is required.
    pub open spec fn fields() -> Seq<FieldRule> {
        seq![
            required("name"@, FieldKind::Text(at_most(100))),
            required("email"@, FieldKind::Email(at_most(100))),
            optional("bio"@, FieldKind::Text(at_most(255))),
            required("username"@, FieldKind::Text(at_most(100))),
            required("password"@, FieldKind::Text(at_most(100))),
            required("verified"@, FieldKind::Flag),
            required("activated"@, FieldKind::Flag),
            required("gender"@, FieldKind::Gender),
            required("userRole"@, FieldKind::UserRole),
        ]
    }

    /// Everything that is wrong with a body: the errors of its fields, in
    /// the order of the table.
    pub open spec fn errors_of(body: Map<Seq<char>, RawValueView>) -> Seq<ValidationErrorView> {
        all_errors(body, Self::fields())
    }

    /// The command that a body without errors asks for: of each field the
    /// value that the body holds in it.
    pub open spec fn command_of(body: Map<Seq<char>, RawValueView>) -> InsertUserDataView {
        let fields = Self::fields();
        InsertUserDataView {
            name: fields[0].text(body).unwrap(),
            email: fields[1].text(body).unwrap(),
            bio: fields[2].text(body),
            username: fields[3].text(body).unwrap(),
            password: fields[4].text(body).unwrap(),
            verified: fields[5].flag(body).unwrap(),
            activated: fields[6].flag(body).unwrap(),
            gender: fields[7].gender(body).unwrap(),
            role: fields[8].user_role(body).unwrap(),
        }
    }

    /// A body is reported once for each field with which something is
    /// wrong: its errors are as many as its invalid fields.
    pub proof fn lemma_errors_count_invalid_fields(body: Map<Seq<char>, RawValueView>)
        ensures
            Self::errors_of(body).len() == invalid_fields(body, Self::fields(), 9),
    {
        lemma_one_error_for_each_invalid_field(body, Self::fields(), 9);
    }

    /// Builds the command from the body of a request, or fails with every
    /// error that the body holds, in the order of the table.
    pub fn try_from(value: RawBody) -> (r: Result<InsertUserData, ApiErrorType>)
        ensures
            match r {
                Ok(command) => Self::errors_of(value@).len() == 0 && command.deep_view()
                    == Self::command_of(value@),
                Err(error) => Self::errors_of(value@).len() > 0 && error.deep_view()
                    == ApiErrorView::BodyValidationErrors(Self::errors_of(value@)),
            },
    {
        let missing = RawFieldValue::Missing;
        let mut errors: Vec<ValidationError> = Vec::new();
        let ghost body = value@;
        let ghost fields = Self::fields();
        assert(errors.deep_view() =~= table_errors(body, fields, 0));

        let name = validate_string_field(
            value.field("name", &missing),
            "name",
            FieldLength { min: None, max: Some(100) },
            &mut errors,
            false,
        );
        assert(errors.deep_view() =~= table_errors(body, fields, 1)) by {
            reveal_with_fuel(table_errors, 2);
        }
        let email = validate_email_field(
            value.field("email", &missing),
            "email",
            FieldLength { min: None, max: Some(100) },
            &mut errors,
            false,
        );
        assert(errors.deep_view() =~= table_errors(body, fields, 2)) by {
            reveal_with_fuel(table_errors, 2);
        }
        let bio = validate_string_field(
            value.field("bio", &missing),
            "bio",
            FieldLength { min: None, max: Some(255) },
            &mut errors,
            true,
        );
        assert(errors.deep_view() =~= table_errors(body, fields, 3)) by {
            reveal_with_fuel(table_errors, 2);
        }
        let username = validate_string_field(
            value.field("username", &missing),
            "username",
            FieldLength { min: None, max: Some(100) },
            &mut errors,
            false,
        );
        assert(errors.deep_view() =~= table_errors(body, fields, 4)) by {
            reveal_with_fuel(table_errors, 2);
        }
        let password = validate_string_field(
            value.field("password", &missing),
            "password",
            FieldLength { min: None, max: Some(100) },
            &mut errors,
            false,
        );
        assert(errors.deep_view() =~= table_errors(body, fields, 5)) by {
            reveal_with_fuel(table_errors, 2);
        }
        let verified = validate_boolean_field(
            value.field("verified", &missing),
            "verified",
            &mut errors,
            false,
        );
        assert(errors.deep_view() =~= table_errors(body, fields, 6)) by {
            reveal_with_fuel(table_errors, 2);
        }
        let activated = validate_boolean_field(
            value.field("activated", &missing),
            "activated",
            &mut errors,
            false,
        );
        assert(errors.deep_view() =~= table_errors(body, fields, 7)) by {
            reveal_with_fuel(table_errors, 2);
        }
        let gender = validate_gender_enum_field(
            value.field("gender", &missing),
            "gender",
            &mut errors,
            false,
        );
        assert(errors.deep_view() =~= table_errors(body, fields, 8)) by {
            reveal_with_fuel(table_errors, 2);
        }
        let user_role = validate_user_role_enum_field(
            value.field("userRole", &missing),
            "userRole",
            &mut errors,
            false,
        );
        assert(errors.deep_view() =~= table_errors(body, fields, 9)) by {
            reveal_with_fuel(table_errors, 2);
        }
        proof {
            if errors.len() == 0 {
                lemma_no_errors_in_any_field(body, fields, 9);
                assert(fields[0].errors(body).len() == 0);
                assert(fields[1].errors(body).len() == 0);
                assert(fields[2].errors(body).len() == 0);
                assert(fields[3].errors(body).len() == 0);
                assert(fields[4].errors(body).len() == 0);
                assert(fields[5].errors(body).len() == 0);
                assert(fields[6].errors(body).len() == 0);
                assert(fields[7].errors(body).len() == 0);
                assert(fields[8].errors(body).len() == 0);
            }
        }
        if errors.len() == 0 {
            Ok(
                InsertUserData {
                    name: name.unwrap(),
                    email: email.unwrap(),
                    username: username.unwrap(),
                    password: password.unwrap(),
                    gender: gender.unwrap(),
                    bio,
                    role: user_role.unwrap(),
                    verified: verified.unwrap(),
                    activated: activated.unwrap(),
                },
            )
        } else {
            Err(ApiErrorType::BodyValidationErrors(errors))
        }
    }
}

/// The changes to make to a user: each field that a request mentions.
#[derive(Debug, Clone, PartialEq, Eq)]
pub struct UpdateUserData {
    pub name: Option<String>,
    pub gender: Option<Gender>,
    pub role: Option<UserRole>,
    pub bio: Option<String>,
    pub email: Option<String>,
    pub username: Option<String>,
    pub password: Option<String>,
    pub activated: Option<bool>,
    pub verified: Option<bool>,
}

/// The mathematical value of an [`UpdateUserData`].
pub struct UpdateUserDataView {
    pub name: Option<Seq<char>>,
    pub gender: Option<Gender>,
    pub role: Option<UserRole>,
    pub bio: Option<Seq<char>>,
    pub email: Option<Seq<char>>,
    pub username: Option<Seq<char>>,
    pub password: Option<Seq<char>>,
    pub activated: Option<bool>,
    pub verified: Option<bool>,
}

impl DeepView for UpdateUserData {
    type V = UpdateUserDataView;

    open spec fn deep_view(&self) -> UpdateUserDataView {
        UpdateUserDataView {
            name: self.name.deep_view(),
            gender: self.gender,
            role: self.role,
            bio: self.bio.deep_view(),
            email: self.email.deep_view(),
            username: self.username.deep_view(),
            password: self.password.deep_view(),
            activated: self.activated,
            verified: self.verified,
        }
    }
}

impl UpdateUserData {
    /// The columns that a command changes: those of the attributes that it
    /// mentions, in the order in which the store takes them.
    pub open spec fn columns_of(command: UpdateUserDataView) -> Seq<Seq<char>> {
        column_if(command.name is Some, "name"@) + column_if(command.gender is Some, "gender"@)
            + column_if(command.role is Some, "role"@) + column_if(command.bio is Some, "bio"@)
            + column_if(command.email is Some, "email"@) + column_if(
            command.username is Some,
            "username"@,
        ) + column_if(command.password is Some, "password"@) + column_if(
            command.activated is Some,
            "activated"@,
        ) + column_if(command.verified is Some, "verified"@)
    }

    /// The columns that the command changes. A command that changes none
    /// asks for nothing.
    pub fn changed_columns(&self) -> (columns: Vec<&'static str>)
        ensures
            columns.deep_view() == Self::columns_of(self.deep_view()),
    {
        let mut columns: Vec<&'static str> = Vec::new();
        push_column(&mut columns, self.name.is_some(), "name");
        push_column(&mut columns, self.gender.is_some(), "gender");
        push_column(&mut columns, self.role.is_some(), "role");
        push_column(&mut columns, self.bio.is_some(), "bio");
        push_column(&mut columns, self.email.is_some(), "email");
        push_column(&mut columns, self.username.is_some(), "username");
        push_column(&mut columns, self.password.is_some(), "password");
        push_column(&mut columns, self.activated.is_some(), "activated");
        push_column(&mut columns, self.verified.is_some(), "verified");
        assert(columns.deep_view() =~= Self::columns_of(self.deep_view()));
        columns
    }

    /// The fields of a change to a user, in the order in which they are
    /// validated. No field is required.
    pub open spec fn fields() -> Seq<FieldRule> {
        seq![
            optional("name"@, FieldKind::Text(at_most(100))),
            optional("email"@, FieldKind::Email(at_most(100))),
            optional("bio"@, FieldKind::Text(at_most(255))),
            optional("username"@, FieldKind::Text(at_most(100))),
            optional("password"@, FieldKind::Text(at_most(100))),
            optional("verified"@, FieldKind::Flag),
            optional("activated"@, FieldKind::Flag),
            optional("gender"@, FieldKind::Gender),
            optional("userRole"@, FieldKind::UserRole),
        ]
    }

    /// Everything that is wrong with a body: the errors of its fields, in
    /// the order of the table.
    pub open spec fn errors_of(body: Map<Seq<char>, RawValueView>) -> Seq<ValidationErrorView> {
        all_errors(body, Self::fields())
    }

    /// The command that a body without errors asks for: of each field the
    /// value that the body holds in it.
    pub open spec fn command_of(body: Map<Seq<char>, RawValueView>) -> UpdateUserDataView {
        let fields = Self::fields();
        UpdateUserDataView {
            name: fields[0].text(body),
            email: fields[1].text(body),
            bio: fields[2].text(body),
            username: fields[3].text(body),
            password: fields[4].text(body),
            verified: fields[5].flag(body),
            activated: fields[6].flag(body),
            gender: fields[7].gender(body),
            role: fields[8].user_role(body),
        }
    }

    /// A body is reported once for each field with which something is
    /// wrong: its errors are as many as its invalid fields. A body that
    /// mentions no field is in order.
    pub proof fn lemma_errors_count_invalid_fields(body: Map<Seq<char>, RawValueView>)
        ensures
            Self::errors_of(body).len() == invalid_fields(body, Self::fields(), 9),
            Self::errors_of(Map::empty()).len() == 0,
    {
        lemma_one_error_for_each_invalid_field(body, Self::fields(), 9);
        lemma_empty_update_is_in_order(Self::fields(), 9);
    }

    /// Builds the command from the body of a request, or fails with every
    /// error that the body holds, in the order of the table.
    pub fn try_from(value: RawBody) -> (r: Result<UpdateUserData, ApiErrorType>)
        ensures
            match r {
                Ok(command) => Self::errors_of(value@).len() == 0 && command.deep_view()
                    == Self::command_of(value@),
                Err(error) => Self::errors_of(value@).len() > 0 && error.deep_view()
                    == ApiErrorView::BodyValidationErrors(Self::errors_of(value@)),
            },
    {
        let missing = RawFieldValue::Missing;
        let mut errors: Vec<ValidationError> = Vec::new();
        let ghost body = value@;
        let ghost fields = Self::fields();
        assert(errors.deep_view() =~= table_errors(body, fields, 0));

        let name = validate_string_field(
            value.field("name", &missing),
            "name",
            FieldLength { min: None, max: Some(100) },
            &mut errors,
            true,
        );
        assert(errors.deep_view() =~= table_errors(body, fields, 1)) by {
            reveal_with_fuel(table_errors, 2);
        }
        let email = validate_email_field(
            value.field("email", &missing),
            "email",
            FieldLength { min: None, max: Some(100) },
            &mut errors,
            true,
        );
        assert(errors.deep_view() =~= table_errors(body, fields, 2)) by {
            reveal_with_fuel(table_errors, 2);
        }
        let bio = validate_string_field(
            value.field("bio", &missing),
            "bio",
            FieldLength { min: None, max: Some(255) },
            &mut errors,
            true,
        );
        assert(errors.deep_view() =~= table_errors(body, fields, 3)) by {
            reveal_with_fuel(table_errors, 2);
        }
        let username = validate_string_field(
            value.field("username", &missing),
            "username",
            FieldLength { min: None, max: Some(100) },
            &mut errors,
            true,
        );
        assert(errors.deep_view() =~= table_errors(body, fields, 4)) by {
            reveal_with_fuel(table_errors, 2);
        }
        let password = validate_string_field(
            value.field("password", &missing),
            "password",
            FieldLength { min: None, max: Some(100) },
            &mut errors,
            true,
        );
        assert(errors.deep_view() =~= table_errors(body, fields, 5)) by {
            reveal_with_fuel(table_errors, 2);
        }
        let verified = validate_boolean_field(
            value.field("verified", &missing),
            "verified",
            &mut errors,
            true,
        );
        assert(errors.deep_view() =~= table_errors(body, fields, 6)) by {
            reveal_with_fuel(table_errors, 2);
        }
        let activated = validate_boolean_field(
            value.field("activated", &missing),
            "activated",
            &mut errors,
            true,
        );
        assert(errors.deep_view() =~= table_errors(body, fields, 7)) by {
            reveal_with_fuel(table_errors, 2);
        }
        let gender = validate_gender_enum_field(
            value.field("gender", &missing),
            "gender",
            &mut errors,
            true,
        );
        assert(errors.deep_view() =~= table_errors(body, fields, 8)) by {
            reveal_with_fuel(table_errors, 2);
        }
        let user_role = validate_user_role_enum_field(
            value.field("userRole", &missing),
            "userRole",
            &mut errors,
            true,
        );
        assert(errors.deep_view() =~= table_errors(body, fields, 9)) by {
            reveal_with_fuel(table_errors, 2);
        }
        if errors.len() == 0 {
            Ok(
                UpdateUserData {
                    name,
                    email,
                    username,
                    password,
                    gender,
                    bio,
                    role: user_role,
                    verified,
                    activated,
                },
            )
        } else {
            Err(ApiErrorType::BodyValidationErrors(errors))
        }
    }
}

/// What a follower wants to be told of. On insertion a field left out
/// takes the system's default; on update it stays as it is.
#[derive(Debug, Clone, Copy, PartialEq, Eq, Structural)]
pub struct UpdateOrInsertFollowerData {
    pub watch_new_hesses: Option<bool>,
    pub watch_replies: Option<bool>,
    pub watch_follows: Option<bool>,
    pub watch_likes: Option<bool>,
}

impl UpdateOrInsertFollowerData {
    /// The columns that a command changes: those of the preferences that
    /// it mentions, in the order in which the store takes them.
    pub open spec fn columns_of(command: UpdateOrInsertFollowerData) -> Seq<Seq<char>> {
        column_if(command.watch_follows is Some, "watch_follows"@) + column_if(
            command.watch_likes is Some,
            "watch_likes"@,
        ) + column_if(command.watch_new_hesses is Some, "watch_new_hesses"@) + column_if(
            command.watch_replies is Some,
            "watch_replies"@,
        )
    }

    /// The columns that the command changes. A command that changes none
    /// asks for nothing.
    pub fn changed_columns(&self) -> (columns: Vec<&'static str>)
        ensures
            columns.deep_view() == Self::columns_of(*self),
    {
        let mut columns: Vec<&'static str> = Vec::new();
        push_column(&mut columns, self.watch_follows.is_some(), "watch_follows");
        push_column(&mut columns, self.watch_likes.is_some(), "watch_likes");
        push_column(&mut columns, self.watch_new_hesses.is_some(), "watch_new_hesses");
        push_column(&mut columns, self.watch_replies.is_some(), "watch_replies");
        assert(columns.deep_view() =~= Self::columns_of(*self));
        columns
    }

    /// The preferences of a follower, in the order in which they are
    /// validated. No field is required.
    pub open spec fn fields() -> Seq<FieldRule> {
        seq![
            optional("watchFollows"@, FieldKind::Flag),
            optional("watchLikes"@, FieldKind::Flag),
            optional("watchNewHesses"@, FieldKind::Flag),
            optional("watchReplies"@, FieldKind::Flag),
        ]
    }

    /// Everything that is wrong with a body: the errors of its fields, in
    /// the order of the table.
    pub open spec fn errors_of(body: Map<Seq<char>, RawValueView>) -> Seq<ValidationErrorView> {
        all_errors(body, Self::fields())
    }

    /// The command that a body without errors asks for: of each field the
    /// flag that the body holds in it.
    pub open spec fn command_of(body: Map<Seq<char>, RawValueView>) -> UpdateOrInsertFollowerData {
        let fields = Self::fields();
        UpdateOrInsertFollowerData {
            watch_follows: fields[0].flag(body),
            watch_likes: fields[1].flag(body),
            watch_new_hesses: fields[2].flag(body),
            watch_replies: fields[3].flag(body),
        }
    }

    /// A body is reported once for each field with which something is
    /// wrong: its errors are as many as its invalid fields. A body that
    /// mentions no field is in order.
    pub proof fn lemma_errors_count_invalid_fields(body: Map<Seq<char>, RawValueView>)
        ensures
            Self::errors_of(body).len() == invalid_fields(body, Self::fields(), 4),
            Self::errors_of(Map::empty()).len() == 0,
    {
        lemma_one_error_for_each_invalid_field(body, Self::fields(), 4);
        lemma_empty_update_is_in_order(Self::fields(), 4);
    }

    /// Builds the command from the body of a request, or fails with every
    /// error that the body holds, in the order of the table.
    pub fn try_from(value: RawBody) -> (r: Result<UpdateOrInsertFollowerData, ApiErrorType>)
        ensures
            match r {
                Ok(command) => Self::errors_of(value@).len() == 0 && command == Self::command_of(
                    value@,
                ),
                Err(error) => Self::errors_of(value@).len() > 0 && error.deep_view()
                    == ApiErrorView::BodyValidationErrors(Self::errors_of(value@)),
            },
    {
        let missing = RawFieldValue::Missing;
        let mut errors: Vec<ValidationError> = Vec::new();
        let ghost body = value@;
        let ghost fields = Self::fields();
        assert(errors.deep_view() =~= table_errors(body, fields, 0));

        let watch_follows = validate_boolean_field(
            value.field("watchFollows", &missing),
            "watchFollows",
            &mut errors,
            true,
        );
        assert(errors.deep_view() =~= table_errors(body, fields, 1)) by {
            reveal_with_fuel(table_errors, 2);
        }
        let watch_likes = validate_boolean_field(
            value.field("watchLikes", &missing),
            "watchLikes",
            &mut errors,
            true,
        );
        assert(errors.deep_view() =~= table_errors(body, fields, 2)) by {
            reveal_with_fuel(table_errors, 2);
        }
        let watch_new_hesses = validate_boolean_field(
            value.field("watchNewHesses", &missing),
            "watchNewHesses",
            &mut errors,
            true,
        );
        assert(errors.deep_view() =~= table_errors(body, fields, 3)) by {
            reveal_with_fuel(table_errors, 2);
        }
        let watch_replies = validate_boolean_field(
            value.field("watchReplies", &missing),
            "watchReplies",
            &mut errors,
            true,
        );
        assert(errors.deep_view() =~= table_errors(body, fields, 4)) by {
            reveal_with_fuel(table_errors, 2);
        }
        if errors.len() == 0 {
            Ok(
                UpdateOrInsertFollowerData {
                    watch_follows,
                    watch_likes,
                    watch_new_hesses,
                    watch_replies,
                },
            )
        } else {
            Err(ApiErrorType::BodyValidationErrors(errors))
        }
    }
}

/// The changes to make to a user's privacy preferences. Each preference is
/// left as it is, cleared, or set to a list of audiences.
#[derive(Debug, Clone, PartialEq, Eq)]
pub struct UpdateUserPrivacyPreferencesData {
    pub who_can_reply: TriState<Vec<WhoCan>>,
    pub who_can_like: TriState<Vec<WhoCan>>,
    pub who_can_mention_me: TriState<Vec<WhoCan>>,
    pub who_can_watch_new_hesses: TriState<Vec<WhoCan>>,
    pub who_can_watch_replies: TriState<Vec<WhoCan>>,
    pub who_can_watch_follows: TriState<Vec<WhoCan>>,
    pub who_can_watch_likes: TriState<Vec<WhoCan>>,
}

/// The mathematical value of an [`UpdateUserPrivacyPreferencesData`].
pub struct UpdateUserPrivacyPreferencesDataView {
    pub who_can_reply: TriState<Seq<WhoCan>>,
    pub who_can_like: TriState<Seq<WhoCan>>,
    pub who_can_mention_me: TriState<Seq<WhoCan>>,
    pub who_can_watch_new_hesses: TriState<Seq<WhoCan>>,
    pub who_can_watch_replies: TriState<Seq<WhoCan>>,
    pub who_can_watch_follows: TriState<Seq<WhoCan>>,
    pub who_can_watch_likes: TriState<Seq<WhoCan>>,
}

impl DeepView for UpdateUserPrivacyPreferencesData {
    type V = UpdateUserPrivacyPreferencesDataView;

    open spec fn deep_view(&self) -> UpdateUserPrivacyPreferencesDataView {
        UpdateUserPrivacyPreferencesDataView {
            who_can_reply: list_view(self.who_can_reply),
            who_can_like: list_view(self.who_can_like),
            who_can_mention_me: list_view(self.who_can_mention_me),
            who_can_watch_new_hesses: list_view(self.who_can_watch_new_hesses),
            who_can_watch_replies: list_view(self.who_can_watch_replies),
            who_can_watch_follows: list_view(self.who_can_watch_follows),
            who_can_watch_likes: list_view(self.who_can_watch_likes),
        }
    }
}

impl UpdateUserPrivacyPreferencesData {
    /// The privacy preferences of a user, in the order in which they are
    /// validated. Each one can be left out or cleared.
    pub open spec fn fields() -> Seq<FieldRule> {
        seq![
            clearable("whoCanReply"@, FieldKind::Audiences),
            clearable("whoCanLike"@, FieldKind::Audiences),
            clearable("whoCanMentionMe"@, FieldKind::Audiences),
            clearable("whoCanWatchNewHesses"@, FieldKind::Audiences),
            clearable("whoCanWatchReplies"@, FieldKind::Audiences),
            clearable("whoCanWatchFollows"@, FieldKind::Audiences),
            clearable("whoCanWatchLikes"@, FieldKind::Audiences),
        ]
    }

    /// Everything that is wrong with a body: the errors of its fields, in
    /// the order of the table.
    pub open spec fn errors_of(body: Map<Seq<char>, RawValueView>) -> Seq<ValidationErrorView> {
        all_errors(body, Self::fields())
    }

    /// The command that a body without errors asks for: of each preference
    /// what the body says of it.
    pub open spec fn command_of(
        body: Map<Seq<char>, RawValueView>,
    ) -> UpdateUserPrivacyPreferencesDataView {
        let fields = Self::fields();
        UpdateUserPrivacyPreferencesDataView {
            who_can_reply: fields[0].audiences(body),
            who_can_like: fields[1].audiences(body),
            who_can_mention_me: fields[2].audiences(body),
            who_can_watch_new_hesses: fields[3].audiences(body),
            who_can_watch_replies: fields[4].audiences(body),
            who_can_watch_follows: fields[5].audiences(body),
            who_can_watch_likes: fields[6].audiences(body),
        }
    }

    /// A body that mentions no preference is in order.
    pub proof fn lemma_empty_body_is_in_order()
        ensures
            Self::errors_of(Map::empty()).len() == 0,
    {
        lemma_empty_update_is_in_order(Self::fields(), 7);
    }

    /// Builds the command from the body of a request, or fails with every
    /// error that the body holds, in the order of the table.
    pub fn try_from(value: RawBody) -> (r: Result<UpdateUserPrivacyPreferencesData, ApiErrorType>)
        ensures
            match r {
                Ok(command) => Self::errors_of(value@).len() == 0 && command.deep_view()
                    == Self::command_of(value@),
                Err(error) => Self::errors_of(value@).len() > 0 && error.deep_view()
                    == ApiErrorView::BodyValidationErrors(Self::errors_of(value@)),
            },
    {
        let missing = RawFieldValue::Missing;
        let mut errors: Vec<ValidationError> = Vec::new();
        let ghost body = value@;
        let ghost fields = Self::fields();
        assert(errors.deep_view() =~= table_errors(body, fields, 0));

        let who_can_reply = validate_who_can_enum_array_field(
            value.field("whoCanReply", &missing),
            "whoCanReply",
            &mut errors,
            true,
            true,
        );
        assert(errors.deep_view() =~= table_errors(body, fields, 1)) by {
            reveal_with_fuel(table_errors, 2);
        }
        let who_can_like = validate_who_can_enum_array_field(
            value.field("whoCanLike", &missing),
            "whoCanLike",
            &mut errors,
            true,
            true,
        );
        assert(errors.deep_view() =~= table_errors(body, fields, 2)) by {
            reveal_with_fuel(table_errors, 2);
        }
        let who_can_mention_me = validate_who_can_enum_array_field(
            value.field("whoCanMentionMe", &missing),
            "whoCanMentionMe",
            &mut errors,
            true,
            true,
        );
        assert(errors.deep_view() =~= table_errors(body, fields, 3)) by {
            reveal_with_fuel(table_errors, 2);
        }
        let who_can_watch_new_hesses = validate_who_can_enum_array_field(
            value.field("whoCanWatchNewHesses", &missing),
            "whoCanWatchNewHesses",
            &mut errors,
            true,
            true,
        );
        assert(errors.deep_view() =~= table_errors(body, fields, 4)) by {
            reveal_with_fuel(table_errors, 2);
        }
        let who_can_watch_replies = validate_who_can_enum_array_field(
            value.field("whoCanWatchReplies", &missing),
            "whoCanWatchReplies",
            &mut errors,
            true,
            true,
        );
        assert(errors.deep_view() =~= table_errors(body, fields, 5)) by {
            reveal_with_fuel(table_errors, 2);
        }
        let who_can_watch_follows = validate_who_can_enum_array_field(
            value.field("whoCanWatchFollows", &missing),
            "whoCanWatchFollows",
            &mut errors,
            true,
            true,
        );
        assert(errors.deep_view() =~= table_errors(body, fields, 6)) by {
            reveal_with_fuel(table_errors, 2);
        }
        let who_can_watch_likes = validate_who_can_enum_array_field(
            value.field("whoCanWatchLikes", &missing),
            "whoCanWatchLikes",
            &mut errors,
            true,
            true,
        );
        assert(errors.deep_view() =~= table_errors(body, fields, 7)) by {
            reveal_with_fuel(table_errors, 2);
        }
        if errors.len() == 0 {
            Ok(
                UpdateUserPrivacyPreferencesData {
                    who_can_reply,
                    who_can_like,
                    who_can_mention_me,
                    who_can_watch_new_hesses,
                    who_can_watch_replies,
                    who_can_watch_follows,
                    who_can_watch_likes,
                },
            )
        } else {
            Err(ApiErrorType::BodyValidationErrors(errors))
        }
    }
}

} // verus!
