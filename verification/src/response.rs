//! The closed taxonomy of failures: what went wrong with a field, what went
//! wrong with a request, and how each failure is reported at the boundary.

use crate::validator::{FieldLength, FieldType};
use std::num::IntErrorKind;
use vstd::prelude::*;

verus! {

/// `core::num::IntErrorKind`, the reason an integer failed to parse. It is a
/// plain enumeration of unit variants, all of which the verifier sees.
#[verifier::external_type_specification]
pub struct ExIntErrorKind(IntErrorKind);

/// The resource that a not-found, conflict or identifier error concerns.
#[derive(Debug, Clone, Copy, PartialEq, Eq, Structural)]
pub enum ApiResource {
    Users,
    PasswordResetToken,
    UserConfirmationToken,
    Followers,
    BlockerUsers,
}

/// One problem found in one field of a request body.
#[derive(Debug, Clone, PartialEq, Eq)]
pub enum ValidationError {
    InvalidJsonBody,
    RequiredFieldMissing { field_name: String },
    InvalidFieldDataType { field_name: String, expected_type: FieldType },
    InvalidFieldContentLength {
        field_name: String,
        passed_length: usize,
        expected_length: FieldLength,
    },
    IncorrectEnumValue { field_name: String, passed_value: String, expected_values: Vec<String> },
    InvalidEmailFormat { passed_value: String },
    InvalidTelephoneFormat { passed_value: String },
}

/// The mathematical value of a [`ValidationError`].
pub enum ValidationErrorView {
    InvalidJsonBody,
    RequiredFieldMissing { field_name: Seq<char> },
    InvalidFieldDataType { field_name: Seq<char>, expected_type: FieldType },
    InvalidFieldContentLength {
        field_name: Seq<char>,
        passed_length: nat,
        expected_length: FieldLength,
    },
    IncorrectEnumValue {
        field_name: Seq<char>,
        passed_value: Seq<char>,
        expected_values: Seq<Seq<char>>,
    },
    InvalidEmailFormat { passed_value: Seq<char> },
    InvalidTelephoneFormat { passed_value: Seq<char> },
}

impl DeepView for ValidationError {
    type V = ValidationErrorView;

    open spec fn deep_view(&self) -> ValidationErrorView {
        match self {
            ValidationError::InvalidJsonBody => ValidationErrorView::InvalidJsonBody,
            ValidationError::RequiredFieldMissing { field_name } => {
                ValidationErrorView::RequiredFieldMissing { field_name: field_name@ }
            },
            ValidationError::InvalidFieldDataType { field_name, expected_type } => {
                ValidationErrorView::InvalidFieldDataType {
                    field_name: field_name@,
                    expected_type: *expected_type,
                }
            },
            ValidationError::InvalidFieldContentLength {
                field_name,
                passed_length,
                expected_length,
            } => ValidationErrorView::InvalidFieldContentLength {
                field_name: field_name@,
                passed_length: *passed_length as nat,
                expected_length: *expected_length,
            },
            ValidationError::IncorrectEnumValue { field_name, passed_value, expected_values } => {
                ValidationErrorView::IncorrectEnumValue {
                    field_name: field_name@,
                    passed_value: passed_value@,
                    expected_values: expected_values.deep_view(),
                }
            },
            ValidationError::InvalidEmailFormat { passed_value } => {
                ValidationErrorView::InvalidEmailFormat { passed_value: passed_value@ }
            },
            ValidationError::InvalidTelephoneFormat { passed_value } => {
                ValidationErrorView::InvalidTelephoneFormat { passed_value: passed_value@ }
            },
        }
    }
}

/// Appends one error to the accumulator.
pub fn push_error(errors: &mut Vec<ValidationError>, error: ValidationError)
    ensures
        final(errors).deep_view() == old(errors).deep_view().push(error.deep_view()),
{
    errors.push(error);
    assert(errors.deep_view() =~= old(errors).deep_view().push(error.deep_view()));
}

/// Every failure that can reach the boundary.
#[derive(Debug, PartialEq, Eq)]
pub enum ApiErrorType {
    ResourceNotFound(ApiResource),
    RouteNotFound,
    Unauthorized,
    NotLoggedIn,
    InvalidJwtToken,
    InvalidCredentials,
    PasswordResetTokenExpired,
    UserConfirmationTokenExpired,
    InternalServerError,
    BodyValidationErrors(Vec<ValidationError>),
    InvalidSortingQuerySyntax,
    NonExistantSortingQueryField(String),
    InvalidPaginationPageQueryField(IntErrorKind),
    InvalidPaginationSizeQueryField(IntErrorKind),
    InvalidIdParam(ApiResource),
    AlreadyExists(ApiResource),
    NotAnImage,
    UnnamedMultipartFile,
    EmptyFile,
    NoImage,
}

/// The mathematical value of an [`ApiErrorType`].
pub enum ApiErrorView {
    ResourceNotFound(ApiResource),
    RouteNotFound,
    Unauthorized,
    NotLoggedIn,
    InvalidJwtToken,
    InvalidCredentials,
    PasswordResetTokenExpired,
    UserConfirmationTokenExpired,
    InternalServerError,
    BodyValidationErrors(Seq<ValidationErrorView>),
    InvalidSortingQuerySyntax,
    NonExistantSortingQueryField(Seq<char>),
    InvalidPaginationPageQueryField(IntErrorKind),
    InvalidPaginationSizeQueryField(IntErrorKind),
    InvalidIdParam(ApiResource),
    AlreadyExists(ApiResource),
    NotAnImage,
    UnnamedMultipartFile,
    EmptyFile,
    NoImage,
}

impl DeepView for ApiErrorType {
    type V = ApiErrorView;

    open spec fn deep_view(&self) -> ApiErrorView {
        match self {
            ApiErrorType::ResourceNotFound(r) => ApiErrorView::ResourceNotFound(*r),
            ApiErrorType::RouteNotFound => ApiErrorView::RouteNotFound,
            ApiErrorType::Unauthorized => ApiErrorView::Unauthorized,
            ApiErrorType::NotLoggedIn => ApiErrorView::NotLoggedIn,
            ApiErrorType::InvalidJwtToken => ApiErrorView::InvalidJwtToken,
            ApiErrorType::InvalidCredentials => ApiErrorView::InvalidCredentials,
            ApiErrorType::PasswordResetTokenExpired => ApiErrorView::PasswordResetTokenExpired,
            ApiErrorType::UserConfirmationTokenExpired => {
                ApiErrorView::UserConfirmationTokenExpired
            },
            ApiErrorType::InternalServerError => ApiErrorView::InternalServerError,
            ApiErrorType::BodyValidationErrors(errors) => ApiErrorView::BodyValidationErrors(
                errors.deep_view(),
            ),
            ApiErrorType::InvalidSortingQuerySyntax => ApiErrorView::InvalidSortingQuerySyntax,
            ApiErrorType::NonExistantSortingQueryField(field) => {
                ApiErrorView::NonExistantSortingQueryField(field@)
            },
            ApiErrorType::InvalidPaginationPageQueryField(kind) => {
                ApiErrorView::InvalidPaginationPageQueryField(*kind)
            },
            ApiErrorType::InvalidPaginationSizeQueryField(kind) => {
                ApiErrorView::InvalidPaginationSizeQueryField(*kind)
            },
            ApiErrorType::InvalidIdParam(r) => ApiErrorView::InvalidIdParam(*r),
            ApiErrorType::AlreadyExists(r) => ApiErrorView::AlreadyExists(*r),
            ApiErrorType::NotAnImage => ApiErrorView::NotAnImage,
            ApiErrorType::UnnamedMultipartFile => ApiErrorView::UnnamedMultipartFile,
            ApiErrorType::EmptyFile => ApiErrorView::EmptyFile,
            ApiErrorType::NoImage => ApiErrorView::NoImage,
        }
    }
}

/// A result as the contracts read it: its value as it is, its failure by
/// its mathematical value.
pub open spec fn outcome_view<T>(outcome: Result<T, ApiErrorType>) -> Result<T, ApiErrorView> {
    match outcome {
        Ok(value) => Ok(value),
        Err(error) => Err(error.deep_view()),
    }
}

/// The token under which a reason for an integer parse failure is reported;
/// `None` for a reason that has no token.
pub open spec fn int_error_kind_token(kind: IntErrorKind) -> Option<Seq<char>> {
    match kind {
        IntErrorKind::Empty => Some("EMPTY"@),
        IntErrorKind::InvalidDigit => Some("INVALID_DIGIT"@),
        IntErrorKind::PosOverflow => Some("POS_OVERFLOW"@),
        IntErrorKind::NegOverflow => Some("NEG_OVERFLOW"@),
        IntErrorKind::Zero => Some("ZERO"@),
        _ => None,
    }
}

/// The token under which a reason for an integer parse failure is
/// reported, if it has one.
pub fn int_error_kind_to_str(kind: &IntErrorKind) -> (r: Option<String>)
    ensures
        r.deep_view() == int_error_kind_token(*kind),
{
    match kind {
        IntErrorKind::Empty => Some("EMPTY".to_string()),
        IntErrorKind::InvalidDigit => Some("INVALID_DIGIT".to_string()),
        IntErrorKind::PosOverflow => Some("POS_OVERFLOW".to_string()),
        IntErrorKind::NegOverflow => Some("NEG_OVERFLOW".to_string()),
        IntErrorKind::Zero => Some("ZERO".to_string()),
        _ => None,
    }
}

/// The status code for each kind of failure: 403 for a plain refusal, 401
/// for every credential, token and expiry failure, 404 for what was not
/// found, 400 for every kind of invalid input, 409 for a conflict and 500
/// for what is not classified.
pub open spec fn status_of(error: ApiErrorView) -> u16 {
    match error {
        ApiErrorView::Unauthorized => 403,
        ApiErrorView::UserConfirmationTokenExpired
        | ApiErrorView::PasswordResetTokenExpired
        | ApiErrorView::InvalidCredentials
        | ApiErrorView::NotLoggedIn
        | ApiErrorView::InvalidJwtToken => 401,
        ApiErrorView::RouteNotFound | ApiErrorView::ResourceNotFound(_) => 404,
        ApiErrorView::NoImage
        | ApiErrorView::EmptyFile
        | ApiErrorView::NotAnImage
        | ApiErrorView::UnnamedMultipartFile
        | ApiErrorView::InvalidIdParam(_)
        | ApiErrorView::BodyValidationErrors(_)
        | ApiErrorView::InvalidPaginationPageQueryField(_)
        | ApiErrorView::InvalidPaginationSizeQueryField(_)
        | ApiErrorView::InvalidSortingQuerySyntax
        | ApiErrorView::NonExistantSortingQueryField(_) => 400,
        ApiErrorView::AlreadyExists(_) => 409,
        ApiErrorView::InternalServerError => 500,
    }
}

/// The machine code of each kind of failure.
pub open spec fn code_of(error: ApiErrorView) -> Seq<char> {
    match error {
        ApiErrorView::ResourceNotFound(_) => "RESOURCE_NOT_FOUND"@,
        ApiErrorView::RouteNotFound => "ROUTE_NOT_FOUND"@,
        ApiErrorView::Unauthorized => "UNAUTHORIZED"@,
        ApiErrorView::BodyValidationErrors(_) => "BODY_VALIDATION_ERRORS"@,
        ApiErrorView::InvalidSortingQuerySyntax => "INVALID_SORTING_QUERY_SYNTAX"@,
        ApiErrorView::NonExistantSortingQueryField(_) => "INVALID_SORTING_QUERY_FIELD"@,
        ApiErrorView::InvalidPaginationPageQueryField(_) => "INVALID_PAGINATION_PAGE_QUERY_FIELD"@,
        ApiErrorView::InvalidPaginationSizeQueryField(_) => "INVALID_PAGINATION_SIZE_QUERY_FIELD"@,
        ApiErrorView::NotLoggedIn => "NOT_LOGGED_IN"@,
        ApiErrorView::InvalidJwtToken => "INVALID_JWT_TOKEN"@,
        ApiErrorView::InvalidCredentials => "INVALID_CREDENTIALS"@,
        ApiErrorView::AlreadyExists(_) => "ALREADY_EXISTS"@,
        ApiErrorView::InternalServerError => "INTERNAL_SERVER_ERROR"@,
        ApiErrorView::InvalidIdParam(_) => "INVALID_ID_PARAM"@,
        ApiErrorView::UnnamedMultipartFile => "UNNAMED_MULTIPART_FILE"@,
        ApiErrorView::NotAnImage => "NOT_AN_IMAGE"@,
        ApiErrorView::EmptyFile => "EMPTY_FILE"@,
        ApiErrorView::NoImage => "NO_IMAGE"@,
        ApiErrorView::PasswordResetTokenExpired => "PASSWORD_RESET_TOKEN_EXPIRED"@,
        ApiErrorView::UserConfirmationTokenExpired => "USER_CONFIRMATION_TOKEN_EXPIRED"@,
    }
}

/// What a failure tells beyond its code.
#[derive(Debug, Clone, PartialEq, Eq)]
pub enum ErrorDetails<'a> {
    Resource(ApiResource),
    ValidationErrors(&'a Vec<ValidationError>),
    QueryField(&'a String),
    IntErrorKind(Option<String>),
}

/// The mathematical value of an [`ErrorDetails`].
pub enum ErrorDetailsView {
    Resource(ApiResource),
    ValidationErrors(Seq<ValidationErrorView>),
    QueryField(Seq<char>),
    IntErrorKind(Option<Seq<char>>),
}

impl<'a> DeepView for ErrorDetails<'a> {
    type V = ErrorDetailsView;

    open spec fn deep_view(&self) -> ErrorDetailsView {
        match self {
            ErrorDetails::Resource(resource) => ErrorDetailsView::Resource(*resource),
            ErrorDetails::ValidationErrors(errors) => ErrorDetailsView::ValidationErrors(
                errors.deep_view(),
            ),
            ErrorDetails::QueryField(field) => ErrorDetailsView::QueryField(field@),
            ErrorDetails::IntErrorKind(token) => ErrorDetailsView::IntErrorKind(token.deep_view()),
        }
    }
}

/// The details of each kind of failure: the resource, the list of
/// validation errors, the query field or the reason an integer did not
/// parse, where the failure has one; nothing for a failure of
/// authentication, an unmatched route or an internal error.
pub open spec fn details_of(error: ApiErrorView) -> Option<ErrorDetailsView> {
    match error {
        ApiErrorView::InvalidIdParam(resource) => Some(ErrorDetailsView::Resource(resource)),
        ApiErrorView::ResourceNotFound(resource) => Some(ErrorDetailsView::Resource(resource)),
        ApiErrorView::AlreadyExists(resource) => Some(ErrorDetailsView::Resource(resource)),
        ApiErrorView::BodyValidationErrors(errors) => Some(
            ErrorDetailsView::ValidationErrors(errors),
        ),
        ApiErrorView::NonExistantSortingQueryField(field) => Some(
            ErrorDetailsView::QueryField(field),
        ),
        ApiErrorView::InvalidPaginationPageQueryField(kind) => Some(
            ErrorDetailsView::IntErrorKind(int_error_kind_token(kind)),
        ),
        ApiErrorView::InvalidPaginationSizeQueryField(kind) => Some(
            ErrorDetailsView::IntErrorKind(int_error_kind_token(kind)),
        ),
        _ => None,
    }
}

impl ApiErrorType {
    /// The status code under which the failure is reported.
    pub fn status_code(&self) -> (status: u16)
        ensures
            status == status_of(self.deep_view()),
    {
        match self {
            ApiErrorType::Unauthorized => 403,
            ApiErrorType::UserConfirmationTokenExpired
            | ApiErrorType::PasswordResetTokenExpired
            | ApiErrorType::InvalidCredentials
            | ApiErrorType::NotLoggedIn
            | ApiErrorType::InvalidJwtToken => 401,
            ApiErrorType::RouteNotFound | ApiErrorType::ResourceNotFound(_) => 404,
            ApiErrorType::NoImage
            | ApiErrorType::EmptyFile
            | ApiErrorType::NotAnImage
            | ApiErrorType::UnnamedMultipartFile
            | ApiErrorType::InvalidIdParam(_)
            | ApiErrorType::BodyValidationErrors(_)
            | ApiErrorType::InvalidPaginationPageQueryField(_)
            | ApiErrorType::InvalidPaginationSizeQueryField(_)
            | ApiErrorType::InvalidSortingQuerySyntax
            | ApiErrorType::NonExistantSortingQueryField(_) => 400,
            ApiErrorType::AlreadyExists(_) => 409,
            ApiErrorType::InternalServerError => 500,
        }
    }

    /// What the failure tells beyond its code, if anything.
    pub fn details(&self) -> (details: Option<ErrorDetails<'_>>)
        ensures
            details.deep_view() == details_of(self.deep_view()),
    {
        match self {
            ApiErrorType::InvalidIdParam(resource) => Some(ErrorDetails::Resource(*resource)),
            ApiErrorType::ResourceNotFound(resource) => Some(ErrorDetails::Resource(*resource)),
            ApiErrorType::AlreadyExists(resource) => Some(ErrorDetails::Resource(*resource)),
            ApiErrorType::BodyValidationErrors(errors) => Some(
                ErrorDetails::ValidationErrors(errors),
            ),
            ApiErrorType::NonExistantSortingQueryField(field) => Some(
                ErrorDetails::QueryField(field),
            ),
            ApiErrorType::InvalidPaginationPageQueryField(kind) => Some(
                ErrorDetails::IntErrorKind(int_error_kind_to_str(kind)),
            ),
            ApiErrorType::InvalidPaginationSizeQueryField(kind) => Some(
                ErrorDetails::IntErrorKind(int_error_kind_to_str(kind)),
            ),
            _ => None,
        }
    }

    /// The machine code of the failure, by which clients tell the kinds of
    /// failure apart.
    pub fn code(&self) -> (code: &'static str)
        ensures
            code@ == code_of(self.deep_view()),
    {
        match self {
            ApiErrorType::ResourceNotFound(_) => "RESOURCE_NOT_FOUND",
            ApiErrorType::RouteNotFound => "ROUTE_NOT_FOUND",
            ApiErrorType::Unauthorized => "UNAUTHORIZED",
            ApiErrorType::BodyValidationErrors(_) => "BODY_VALIDATION_ERRORS",
            ApiErrorType::InvalidSortingQuerySyntax => "INVALID_SORTING_QUERY_SYNTAX",
            ApiErrorType::NonExistantSortingQueryField(_) => "INVALID_SORTING_QUERY_FIELD",
            ApiErrorType::InvalidPaginationPageQueryField(_) => {
                "INVALID_PAGINATION_PAGE_QUERY_FIELD"
            },
            ApiErrorType::InvalidPaginationSizeQueryField(_) => {
                "INVALID_PAGINATION_SIZE_QUERY_FIELD"
            },
            ApiErrorType::NotLoggedIn => "NOT_LOGGED_IN",
            ApiErrorType::InvalidJwtToken => "INVALID_JWT_TOKEN",
            ApiErrorType::InvalidCredentials => "INVALID_CREDENTIALS",
            ApiErrorType::AlreadyExists(_) => "ALREADY_EXISTS",
            ApiErrorType::InternalServerError => "INTERNAL_SERVER_ERROR",
            ApiErrorType::InvalidIdParam(_) => "INVALID_ID_PARAM",
            ApiErrorType::UnnamedMultipartFile => "UNNAMED_MULTIPART_FILE",
            ApiErrorType::NotAnImage => "NOT_AN_IMAGE",
            ApiErrorType::EmptyFile => "EMPTY_FILE",
            ApiErrorType::NoImage => "NO_IMAGE",
            ApiErrorType::PasswordResetTokenExpired => "PASSWORD_RESET_TOKEN_EXPIRED",
            ApiErrorType::UserConfirmationTokenExpired => "USER_CONFIRMATION_TOKEN_EXPIRED",
        }
    }
}

/// Whether two failures are of one kind, whatever they carry.
pub open spec fn same_kind(a: ApiErrorView, b: ApiErrorView) -> bool {
    match (a, b) {
        (ApiErrorView::ResourceNotFound(_), ApiErrorView::ResourceNotFound(_)) => true,
        (ApiErrorView::RouteNotFound, ApiErrorView::RouteNotFound) => true,
        (ApiErrorView::Unauthorized, ApiErrorView::Unauthorized) => true,
        (ApiErrorView::NotLoggedIn, ApiErrorView::NotLoggedIn) => true,
        (ApiErrorView::InvalidJwtToken, ApiErrorView::InvalidJwtToken) => true,
        (ApiErrorView::InvalidCredentials, ApiErrorView::InvalidCredentials) => true,
        (
            ApiErrorView::PasswordResetTokenExpired,
            ApiErrorView::PasswordResetTokenExpired,
        ) => true,
        (
            ApiErrorView::UserConfirmationTokenExpired,
            ApiErrorView::UserConfirmationTokenExpired,
        ) => true,
        (ApiErrorView::InternalServerError, ApiErrorView::InternalServerError) => true,
        (ApiErrorView::BodyValidationErrors(_), ApiErrorView::BodyValidationErrors(_)) => true,
        (
            ApiErrorView::InvalidSortingQuerySyntax,
            ApiErrorView::InvalidSortingQuerySyntax,
        ) => true,
        (
            ApiErrorView::NonExistantSortingQueryField(_),
            ApiErrorView::NonExistantSortingQueryField(_),
        ) => true,
        (
            ApiErrorView::InvalidPaginationPageQueryField(_),
            ApiErrorView::InvalidPaginationPageQueryField(_),
        ) => true,
        (
            ApiErrorView::InvalidPaginationSizeQueryField(_),
            ApiErrorView::InvalidPaginationSizeQueryField(_),
        ) => true,
        (ApiErrorView::InvalidIdParam(_), ApiErrorView::InvalidIdParam(_)) => true,
        (ApiErrorView::AlreadyExists(_), ApiErrorView::AlreadyExists(_)) => true,
        (ApiErrorView::NotAnImage, ApiErrorView::NotAnImage) => true,
        (ApiErrorView::UnnamedMultipartFile, ApiErrorView::UnnamedMultipartFile) => true,
        (ApiErrorView::EmptyFile, ApiErrorView::EmptyFile) => true,
        (ApiErrorView::NoImage, ApiErrorView::NoImage) => true,
        _ => false,
    }
}

/// Makes the text of every machine code known to the verifier.
proof fn reveal_codes()
    ensures
        "RESOURCE_NOT_FOUND"@.len() == 18,
        "ROUTE_NOT_FOUND"@.len() == 15,
        "UNAUTHORIZED"@.len() == 12 && "UNAUTHORIZED"@[0] == 'U',
        "BODY_VALIDATION_ERRORS"@.len() == 22 && "BODY_VALIDATION_ERRORS"@[0] == 'B',
        "INVALID_SORTING_QUERY_SYNTAX"@.len() == 28 && "INVALID_SORTING_QUERY_SYNTAX"@[0] == 'I',
        "INVALID_SORTING_QUERY_FIELD"@.len() == 27,
        "INVALID_PAGINATION_PAGE_QUERY_FIELD"@.len() == 35
            && "INVALID_PAGINATION_PAGE_QUERY_FIELD"@[19] == 'P',
        "INVALID_PAGINATION_SIZE_QUERY_FIELD"@.len() == 35
            && "INVALID_PAGINATION_SIZE_QUERY_FIELD"@[19] == 'S',
        "NOT_LOGGED_IN"@.len() == 13,
        "INVALID_JWT_TOKEN"@.len() == 17,
        "INVALID_CREDENTIALS"@.len() == 19,
        "ALREADY_EXISTS"@.len() == 14,
        "INTERNAL_SERVER_ERROR"@.len() == 21,
        "INVALID_ID_PARAM"@.len() == 16,
        "UNNAMED_MULTIPART_FILE"@.len() == 22 && "UNNAMED_MULTIPART_FILE"@[0] == 'U',
        "NOT_AN_IMAGE"@.len() == 12 && "NOT_AN_IMAGE"@[0] == 'N',
        "EMPTY_FILE"@.len() == 10,
        "NO_IMAGE"@.len() == 8,
        "PASSWORD_RESET_TOKEN_EXPIRED"@.len() == 28 && "PASSWORD_RESET_TOKEN_EXPIRED"@[0] == 'P',
        "USER_CONFIRMATION_TOKEN_EXPIRED"@.len() == 31,
{
    reveal_strlit("RESOURCE_NOT_FOUND");
    reveal_strlit("ROUTE_NOT_FOUND");
    reveal_strlit("UNAUTHORIZED");
    reveal_strlit("BODY_VALIDATION_ERRORS");
    reveal_strlit("INVALID_SORTING_QUERY_SYNTAX");
    reveal_strlit("INVALID_SORTING_QUERY_FIELD");
    reveal_strlit("INVALID_PAGINATION_PAGE_QUERY_FIELD");
    reveal_strlit("INVALID_PAGINATION_SIZE_QUERY_FIELD");
    reveal_strlit("NOT_LOGGED_IN");
    reveal_strlit("INVALID_JWT_TOKEN");
    reveal_strlit("INVALID_CREDENTIALS");
    reveal_strlit("ALREADY_EXISTS");
    reveal_strlit("INTERNAL_SERVER_ERROR");
    reveal_strlit("INVALID_ID_PARAM");
    reveal_strlit("UNNAMED_MULTIPART_FILE");
    reveal_strlit("NOT_AN_IMAGE");
    reveal_strlit("EMPTY_FILE");
    reveal_strlit("NO_IMAGE");
    reveal_strlit("PASSWORD_RESET_TOKEN_EXPIRED");
    reveal_strlit("USER_CONFIRMATION_TOKEN_EXPIRED");
}

/// No two kinds of failure share a machine code: failures with one code
/// are of one kind, and so have one status code.
pub proof fn lemma_code_identifies_kind(a: ApiErrorView, b: ApiErrorView)
    requires
        code_of(a) == code_of(b),
    ensures
        same_kind(a, b),
        status_of(a) == status_of(b),
{
    reveal_codes();
}

/// Failures of one kind have one machine code and one status code,
/// whatever they carry.
pub proof fn lemma_kind_fixes_code_and_status(a: ApiErrorView, b: ApiErrorView)
    requires
        same_kind(a, b),
    ensures
        code_of(a) == code_of(b),
        status_of(a) == status_of(b),
{
}

/// Every failure has one of the six status codes of the boundary.
pub proof fn lemma_status_is_known(error: ApiErrorView)
    ensures
        status_of(error) == 400 || status_of(error) == 401 || status_of(error) == 403
            || status_of(error) == 404 || status_of(error) == 409 || status_of(error) == 500,
{
}

/// A failure of authentication, an unmatched route and an internal error
/// show nothing beyond their code.
pub proof fn lemma_opaque_failures_have_no_details(error: ApiErrorView)
    requires
        status_of(error) == 401 || status_of(error) == 403 || status_of(error) == 500
            || error is RouteNotFound,
    ensures
        details_of(error) is None,
{
}

} // verus!
