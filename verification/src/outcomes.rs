//! What a request is answered once the store has done its part: the rules
//! that turn the store's report into a value or a failure of the taxonomy.

use crate::response::{outcome_view, ApiErrorType, ApiErrorView, ApiResource};
use vstd::prelude::*;

verus! {

/// Why the store did not do what it was asked to do.
#[derive(Debug, Clone, Copy, PartialEq, Eq, Structural)]
pub enum StoreFailure {
    /// A row with the same unique key is there already.
    UniqueViolation,
    /// Anything else.
    Other,
}

/// The answer to a lookup: the row that was found, a missing resource where
/// there was none, and an internal error where the store failed.
pub open spec fn lookup_answer<T>(fetched: Result<Option<T>, StoreFailure>, resource: ApiResource)
    -> Result<T, ApiErrorView> {
    match fetched {
        Ok(Some(row)) => Ok(row),
        Ok(None) => Err(ApiErrorView::ResourceNotFound(resource)),
        Err(_) => Err(ApiErrorView::InternalServerError),
    }
}

/// The answer to a statement that stores something: what the store gave
/// back, and an internal error where the store failed; with `unique`, a
/// row that is there already is a conflict.
pub open spec fn storing_answer<T>(
    stored: Result<T, StoreFailure>,
    resource: ApiResource,
    unique: bool,
) -> Result<T, ApiErrorView> {
    match stored {
        Ok(row) => Ok(row),
        Err(StoreFailure::UniqueViolation) => if unique {
            Err(ApiErrorView::AlreadyExists(resource))
        } else {
            Err(ApiErrorView::InternalServerError)
        },
        Err(StoreFailure::Other) => Err(ApiErrorView::InternalServerError),
    }
}

/// The answer to a change of one row: done where a row was changed, a
/// missing resource where none was, and an internal error where the store
/// failed.
pub open spec fn change_answer(rows_affected: Result<u64, StoreFailure>, resource: ApiResource)
    -> Result<(), ApiErrorView> {
    match rows_affected {
        Ok(rows) => if rows == 0 {
            Err(ApiErrorView::ResourceNotFound(resource))
        } else {
            Ok(())
        },
        Err(_) => Err(ApiErrorView::InternalServerError),
    }
}

/// Answers a lookup in the store.
pub fn found_or_missing<T>(
    fetched: Result<Option<T>, StoreFailure>,
    resource: ApiResource,
) -> (r: Result<T, ApiErrorType>)
    ensures
        outcome_view(r) == lookup_answer(fetched, resource),
{
    match fetched {
        Ok(Some(row)) => Ok(row),
        Ok(None) => Err(ApiErrorType::ResourceNotFound(resource)),
        Err(_) => Err(ApiErrorType::InternalServerError),
    }
}

/// Answers a statement that stores something.
pub fn stored_or_failed<T>(
    stored: Result<T, StoreFailure>,
    resource: ApiResource,
    unique: bool,
) -> (r: Result<T, ApiErrorType>)
    ensures
        outcome_view(r) == storing_answer(stored, resource, unique),
{
    match stored {
        Ok(row) => Ok(row),
        Err(StoreFailure::UniqueViolation) => {
            if unique {
                Err(ApiErrorType::AlreadyExists(resource))
            } else {
                Err(ApiErrorType::InternalServerError)
            }
        },
        Err(StoreFailure::Other) => Err(ApiErrorType::InternalServerError),
    }
}

/// Answers a change of one row, given the number of rows that it changed.
pub fn changed_or_missing(
    rows_affected: Result<u64, StoreFailure>,
    resource: ApiResource,
) -> (r: Result<(), ApiErrorType>)
    ensures
        outcome_view(r) == change_answer(rows_affected, resource),
{
    match rows_affected {
        Ok(rows) => {
            if rows == 0 {
                Err(ApiErrorType::ResourceNotFound(resource))
            } else {
                Ok(())
            }
        },
        Err(_) => Err(ApiErrorType::InternalServerError),
    }
}

/// A point in time: the whole seconds since the epoch, and the nanoseconds
/// into the second.
#[derive(Debug, Clone, Copy, PartialEq, Eq, Structural)]
pub struct Moment {
    pub seconds: i64,
    pub nanos: u32,
}

impl Moment {
    /// Whether this moment lies before another: by the seconds, and within
    /// one second by the nanoseconds.
    pub open spec fn lies_before(self, other: Moment) -> bool {
        self.seconds < other.seconds || (self.seconds == other.seconds && self.nanos
            < other.nanos)
    }

    /// Whether this moment lies before another.
    pub fn is_before(&self, other: &Moment) -> (before: bool)
        ensures
            before == self.lies_before(*other),
    {
        self.seconds < other.seconds || (self.seconds == other.seconds && self.nanos
            < other.nanos)
    }
}

/// The kind of a token that the store keeps for a user.
#[derive(Debug, Clone, Copy, PartialEq, Eq, Structural)]
pub enum StoredTokenKind {
    PasswordReset,
    UserConfirmation,
}

impl StoredTokenKind {
    /// The resource that tokens of the kind are.
    pub open spec fn resource(self) -> ApiResource {
        match self {
            StoredTokenKind::PasswordReset => ApiResource::PasswordResetToken,
            StoredTokenKind::UserConfirmation => ApiResource::UserConfirmationToken,
        }
    }

    /// The failure that refuses a token of the kind for its time.
    pub open spec fn refusal(self) -> ApiErrorView {
        match self {
            StoredTokenKind::PasswordReset => ApiErrorView::PasswordResetTokenExpired,
            StoredTokenKind::UserConfirmation => ApiErrorView::UserConfirmationTokenExpired,
        }
    }
}

/// The answer to the lookup of a stored token at the moment `now`, given
/// the row that was found and the moment `expire_at` of that row. The
/// token is handed out if `expire_at` lies before `now`, and refused with
/// the failure of its kind if it does not; a row that is not there is a
/// missing resource, and a failure of the store an internal error.
pub open spec fn stored_token_answer<T>(
    fetched: Result<Option<(Moment, T)>, StoreFailure>,
    now: Moment,
    kind: StoredTokenKind,
) -> Result<T, ApiErrorView> {
    match fetched {
        Ok(Some((expire_at, token))) => if expire_at.lies_before(now) {
            Ok(token)
        } else {
            Err(kind.refusal())
        },
        Ok(None) => Err(ApiErrorView::ResourceNotFound(kind.resource())),
        Err(_) => Err(ApiErrorView::InternalServerError),
    }
}

/// Answers the lookup of a stored token at the moment `now`.
pub fn token_or_refusal<T>(
    fetched: Result<Option<(Moment, T)>, StoreFailure>,
    now: Moment,
    kind: StoredTokenKind,
) -> (r: Result<T, ApiErrorType>)
    ensures
        outcome_view(r) == stored_token_answer(fetched, now, kind),
{
    match fetched {
        Ok(Some((expire_at, token))) => {
            if expire_at.is_before(&now) {
                Ok(token)
            } else {
                match kind {
                    StoredTokenKind::PasswordReset => Err(ApiErrorType::PasswordResetTokenExpired),
                    StoredTokenKind::UserConfirmation => Err(
                        ApiErrorType::UserConfirmationTokenExpired,
                    ),
                }
            }
        },
        Ok(None) => {
            match kind {
                StoredTokenKind::PasswordReset => Err(
                    ApiErrorType::ResourceNotFound(ApiResource::PasswordResetToken),
                ),
                StoredTokenKind::UserConfirmation => Err(
                    ApiErrorType::ResourceNotFound(ApiResource::UserConfirmationToken),
                ),
            }
        },
        Err(_) => Err(ApiErrorType::InternalServerError),
    }
}

} // verus!
